use simple_v2_sandwicher::amm::V2AMM;
use simple_v2_sandwicher::encoding::{address_display, to_hex_string, zero_pad, U256Parts};
use simple_v2_sandwicher::swap_tx::{
    addresses_match, check_inch, check_nonce, check_uni, check_v3, classify_router, max_sandwich_constraints,
    orient_hops, orient_pool, other_token, pool_address, router_for_factory, size_sandwich, v2_contracts,
    v2_function, FactoryAddresses, InchCallArgs, RouterAddresses, RouterKind, SwapError, V2CallArgs, V2Contract,
    V2Function, V2SwapTransaction,
};

const WETH: &str = "0xC02aaA39b223FE8D0A0e5C4F27eAD9083C756Cc2";

fn routers() -> RouterAddresses {
    RouterAddresses {
        uni_router: "0x7a250d5630B4cF539739dF2C5dAcb4c659F2488D".to_string(),
        sushi_router: "0xd9e1cE17f2641f24aE83637ab66a2cca9C378B9F".to_string(),
        shiba_router: "0x03f7724180AA6b939894B5Ca4314783B0b36b329".to_string(),
        v3_router: "0xE592427A0AEce92De3Edee1F18E0157C05861564".to_string(),
        inch_router: "0x1111111254fb6c44bAC0beD2854e76F90643097d".to_string(),
    }
}

fn args(path: &[&str]) -> V2CallArgs {
    V2CallArgs {
        amount_in: Some(11),
        amount_out_min: Some(22),
        amount_out: Some(33),
        amount_in_max: Some(44),
        path: path.iter().map(|s| s.to_string()).collect(),
    }
}

#[test]
fn reading_addresses_compare_without_case() {
    assert!(addresses_match("0xAbC", "0xaBc"));
    assert!(!addresses_match("0xabc", "0xabd"));
}

#[test]
fn reading_router_classification() {
    let r = routers();
    assert_eq!(classify_router("0x7A250D5630B4CF539739DF2C5DACB4C659F2488D", &r), Ok(RouterKind::Uniswap));
    assert_eq!(classify_router(&r.sushi_router.to_lowercase(), &r), Ok(RouterKind::Sushiswap));
    assert_eq!(classify_router(&r.shiba_router, &r), Ok(RouterKind::Shibaswap));
    assert_eq!(classify_router(&r.v3_router, &r), Ok(RouterKind::UniswapV3));
    assert_eq!(classify_router(&r.inch_router, &r), Ok(RouterKind::OneInch));
    assert_eq!(classify_router("0x0000000000000000000000000000000000000001", &r), Err(SwapError::RouterNotValid));
}

#[test]
fn reading_v2_contracts() {
    assert_eq!(v2_contracts(RouterKind::UniswapV3), Some((V2Contract::UniRouter, V2Contract::UniFactory)));
    assert_eq!(v2_contracts(RouterKind::Sushiswap), Some((V2Contract::SushiRouter, V2Contract::SushiFactory)));
    assert_eq!(v2_contracts(RouterKind::OneInch), None);
}

#[test]
fn reading_v2_function_names() {
    assert_eq!(v2_function("swapExactETHForTokens"), Some(V2Function::SwapExactEthForTokens));
    assert_eq!(v2_function("swapTokensForExactTokens"), Some(V2Function::SwapTokensForExactTokens));
    assert_eq!(v2_function("swapExactETHForTokensSupportingFeeOnTransferTokens"), None);
    assert_eq!(v2_function("addLiquidity"), None);
}

#[test]
fn reading_check_uni_amounts() {
    let p = check_uni("swapETHForExactTokens", 5, args(&[WETH, "0x01"]), WETH).unwrap();
    assert_eq!((p.amount_in, p.amount_out), (5, 33));
    let p = check_uni("swapExactETHForTokens", 5, args(&[WETH, "0x01"]), WETH).unwrap();
    assert_eq!((p.amount_in, p.amount_out), (5, 22));
    let p = check_uni("swapExactTokensForETH", 5, args(&[WETH, "0x01"]), WETH).unwrap();
    assert_eq!((p.amount_in, p.amount_out), (11, 22));
    let p = check_uni("swapTokensForExactTokens", 5, args(&[WETH, "0x01"]), WETH).unwrap();
    assert_eq!((p.amount_in, p.amount_out), (44, 33));
    assert!(p.requote_path.is_none());
    assert_eq!(p.path, vec![WETH.to_string(), "0x01".to_string()]);
}

#[test]
fn reading_check_uni_long_path_requotes() {
    let p = check_uni("swapExactETHForTokens", 5, args(&[&WETH.to_lowercase(), "0x01", "0x02"]), WETH).unwrap();
    assert_eq!(p.requote_path, Some(vec!["0x01".to_string(), "0x02".to_string()]));
}

#[test]
fn reading_check_uni_errors() {
    assert_eq!(check_uni("addLiquidity", 5, args(&[WETH, "0x01"]), WETH).err(), Some(SwapError::UnrecognisedFunction));
    assert_eq!(check_uni("swapExactETHForTokens", 5, args(&["0x01", WETH]), WETH).err(), Some(SwapError::InvalidPath));
}

#[test]
fn reading_check_v3() {
    assert_eq!(check_v3("multicall"), Ok(()));
    assert_eq!(check_v3("exactInputSingle"), Err(SwapError::UnrecognisedCall));
}

fn pool_word(addr_hex: &str) -> [u8; 32] {
    let mut word = [0u8; 32];
    word[0] = 0x80;
    word[12..].copy_from_slice(&hex::decode(addr_hex).unwrap());
    word
}

#[test]
fn reading_pool_address_is_checksummed() {
    let word = pool_word("5aaeb6053f3e94c9b9a09f33669435e7ef1beaed");
    assert_eq!(pool_address(&word), "0x5aAeb6053F3E94C9b9A09f33669435E7Ef1BeAed");
}

#[test]
fn reading_check_inch() {
    let args = InchCallArgs {
        src_token: "0x0000000000000000000000000000000000000000".to_string(),
        amount: 1_000,
        min_return: 900,
        pools: vec![
            pool_word("5aaeb6053f3e94c9b9a09f33669435e7ef1beaed"),
            pool_word("fb6916095ca1df60bb79ce92ce3ea74c37c5d359"),
        ],
    };
    let plan = check_inch("unoswap", &args).unwrap();
    assert_eq!(plan.pool_address, "0x5aAeb6053F3E94C9b9A09f33669435E7Ef1BeAed");
    assert_eq!(plan.amount_in, 1_000);
    assert_eq!(plan.amount_out, 900);
    assert_eq!(plan.hop_pools, vec!["0xfB6916095ca1df60bB79Ce92cE3Ea74c37c5d359".to_string()]);
    assert!(check_inch("unoswapWithPermit", &args).is_ok());
    assert_eq!(check_inch("swap", &args).err(), Some(SwapError::IncorrectFunction));
    let not_eth = InchCallArgs { src_token: WETH.to_string(), ..args };
    assert_eq!(check_inch("unoswap", &not_eth).err(), Some(SwapError::SourceTokenNotEth));
    let no_pools = InchCallArgs { pools: Vec::new(), ..not_eth };
    assert_eq!(check_inch("swap", &no_pools).err(), Some(SwapError::IncorrectFunction));
    assert_eq!(check_inch("unoswap", &no_pools).err(), Some(SwapError::SourceTokenNotEth));
    let no_pools = InchCallArgs { src_token: "0x0000000000000000000000000000000000000000".to_string(), ..no_pools };
    assert_eq!(check_inch("unoswap", &no_pools).err(), Some(SwapError::NoPools));
}

#[test]
fn reading_other_token() {
    let weth = WETH.to_string();
    let token = "0xdAC17F958D2ee523a2206206994597C13D831ec7".to_string();
    assert_eq!(other_token(&weth.to_lowercase(), &token, WETH), token);
    assert_eq!(other_token(&token, &weth, WETH), token);
}

#[test]
fn reading_orient_hops() {
    let hops = vec![
        ("0xAA".to_string(), "0xBB".to_string()),
        ("0xcc".to_string(), "0xbb".to_string()),
        ("0xCC".to_string(), "0xDD".to_string()),
    ];
    let oriented = orient_hops("0xaA", &hops);
    assert_eq!(
        oriented,
        vec![
            ("0xaa".to_string(), "0xbb".to_string()),
            ("0xbb".to_string(), "0xcc".to_string()),
            ("0xdd".to_string(), "0xcc".to_string()),
        ]
    );
}

#[test]
fn reading_router_for_factory() {
    let f = FactoryAddresses {
        uni_factory: "0x5C69bEe701ef814a2B6a3EDD4B1652CB9cc5aA6f".to_string(),
        sushi_factory: "0xC0AEe478e3658e2610c5F7A4A2E1777cE9e4f2Ac".to_string(),
        shiba_factory: "0x115934131916C8b277DD010Ee02de363c09d037c".to_string(),
    };
    assert_eq!(router_for_factory("0x5c69bee701ef814a2b6a3edd4b1652cb9cc5aa6f", &f), Ok(V2Contract::UniRouter));
    assert_eq!(router_for_factory(&f.sushi_factory, &f), Ok(V2Contract::SushiFactory));
    assert_eq!(router_for_factory(&f.shiba_factory, &f), Ok(V2Contract::ShibaRouter));
    assert_eq!(router_for_factory(WETH, &f), Err(SwapError::UnknownFactory));
}

#[test]
fn reading_nonce_and_pool_orientation() {
    assert_eq!(check_nonce(5, 6), Err(SwapError::NonceTooLow));
    assert_eq!(check_nonce(6, 6), Ok(()));
    assert_eq!(orient_pool(&WETH.to_lowercase(), WETH, 10, 20), (10, 20, 0));
    assert_eq!(orient_pool("0x01", WETH, 10, 20), (20, 10, 1));
}

#[test]
fn reading_size_sandwich() {
    let amm = V2AMM::new(100, 1000, 10, 0);
    let s = size_sandwich(&amm, 10, 50);
    assert_eq!((s.delta_sand, s.abstract_profits), (10, Some(2)));
    let s = size_sandwich(&amm, 60, 50);
    assert_eq!((s.delta_sand, s.abstract_profits), (0, Some(0)));
    let s = size_sandwich(&V2AMM::new(0, 0, 0, 0), 1, 50);
    assert_eq!(s.abstract_profits, None);
}

fn opportunity(delta_sand: i64, profits: Option<i64>, tag: u8) -> V2SwapTransaction {
    V2SwapTransaction {
        tx_hash: [tag; 32],
        router: V2Contract::UniRouter,
        path: vec![],
        amount_in: 0,
        amount_out: 0,
        pool_address: String::new(),
        base_token: String::new(),
        token_address: String::new(),
        r0: 0,
        r1: 0,
        base_position: 0,
        delta_sand_on_block: 0,
        pair_address: String::new(),
        delta_sand,
        abstract_profits: profits,
    }
}

#[test]
fn selection_picks_the_most_profitable() {
    let swaps = vec![
        ("a".to_string(), Ok(opportunity(10, Some(5), 1))),
        ("b".to_string(), Ok(opportunity(10, Some(9), 2))),
        ("c".to_string(), Err(SwapError::InvalidPath)),
        ("d".to_string(), Ok(opportunity(10, Some(7), 3))),
    ];
    let best = max_sandwich_constraints(swaps, 0, 100).unwrap();
    assert_eq!(best.tx_hash, [2; 32]);
}

#[test]
fn selection_takes_the_last_of_equals() {
    let swaps = vec![
        ("a".to_string(), Ok(opportunity(10, Some(9), 1))),
        ("b".to_string(), Ok(opportunity(10, Some(9), 2))),
        ("c".to_string(), Ok(opportunity(10, Some(3), 3))),
    ];
    assert_eq!(max_sandwich_constraints(swaps, 0, 100).unwrap().tx_hash, [2; 32]);
}

#[test]
fn selection_applies_the_bounds() {
    let swaps = vec![
        ("a".to_string(), Ok(opportunity(10, Some(5), 1))),
        ("b".to_string(), Ok(opportunity(0, Some(50), 2))),
        ("c".to_string(), Ok(opportunity(100, Some(50), 3))),
        ("d".to_string(), Ok(opportunity(99, None, 4))),
        ("e".to_string(), Ok(opportunity(99, Some(6), 5))),
    ];
    assert_eq!(max_sandwich_constraints(swaps, 5, 100).unwrap().tx_hash, [5; 32]);
    let none = vec![("a".to_string(), Ok(opportunity(10, Some(5), 1)))];
    assert!(max_sandwich_constraints(none, 5, 100).is_none());
    assert!(max_sandwich_constraints(vec![], 0, 100).is_none());
}

#[test]
fn encoding_hex_and_padding() {
    assert_eq!(to_hex_string(U256Parts::from_u128(0)), "0");
    assert_eq!(to_hex_string(U256Parts::from_u128(255)), "ff");
    assert_eq!(to_hex_string(U256Parts { high: 1, low: 15 }), format!("1{}f", "0".repeat(31)));
    assert_eq!(zero_pad(&"abc".to_string(), 6), "000abc");
    assert_eq!(zero_pad(&"abcdef".to_string(), 3), "abcdef");
    let mut addr = [0u8; 20];
    addr[0] = 0xde;
    addr[19] = 0x0f;
    assert_eq!(address_display(&addr), "0xde00…000f");
}

#[test]
fn encoding_u256_arithmetic() {
    let a = U256Parts { high: 1, low: 5 };
    let b = U256Parts::from_u128(6);
    assert!(a.gt(&b));
    assert!(!b.gt(&a));
    let d = a.checked_sub(&b).unwrap();
    assert_eq!((d.high, d.low), (0, u128::MAX));
    assert!(b.checked_sub(&a).is_none());
}

#[test]
fn registry_contract_key() {
    assert_eq!(simple_v2_sandwicher::swap_tx::contract_key("uniswap", "router"), "uniswap_router");
}
