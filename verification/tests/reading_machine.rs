use simple_v2_sandwicher::amm::V2AMM;
use simple_v2_sandwicher::reader::{
    ReadAbort, ReadAction, ReadPhase, ReaderContext, ReaderEvent, SwapReader,
};
use simple_v2_sandwicher::swap_tx::{
    FactoryAddresses, InchCallArgs, RouterAddresses, RouterKind, SwapError, V2CallArgs, V2Contract,
};

const WETH: &str = "0xC02aaA39b223FE8D0A0e5C4F27eAD9083C756Cc2";
const TOKEN: &str = "0xdAC17F958D2ee523a2206206994597C13D831ec7";
const UNI_FACTORY: &str = "0x5C69bEe701ef814a2B6a3EDD4B1652CB9cc5aA6f";

fn context(to: &str, tx_nonce: u64) -> ReaderContext {
    ReaderContext {
        tx_hash: [9; 32],
        to: to.to_string(),
        tx_value: 100,
        tx_nonce,
        weth: WETH.to_string(),
        routers: RouterAddresses {
            uni_router: "0x7a250d5630B4cF539739dF2C5dAcb4c659F2488D".to_string(),
            sushi_router: "0xd9e1cE17f2641f24aE83637ab66a2cca9C378B9F".to_string(),
            shiba_router: "0x03f7724180AA6b939894B5Ca4314783B0b36b329".to_string(),
            v3_router: "0xE592427A0AEce92De3Edee1F18E0157C05861564".to_string(),
            inch_router: "0x1111111254fb6c44bAC0beD2854e76F90643097d".to_string(),
        },
        factories: FactoryAddresses {
            uni_factory: UNI_FACTORY.to_string(),
            sushi_factory: "0xC0AEe478e3658e2610c5F7A4A2E1777cE9e4f2Ac".to_string(),
            shiba_factory: "0x115934131916C8b277DD010Ee02de363c09d037c".to_string(),
        },
        upper_bound_sand: 50,
    }
}

fn v2_args(path: &[&str]) -> V2CallArgs {
    V2CallArgs {
        amount_in: None,
        amount_out_min: Some(900),
        amount_out: None,
        amount_in_max: None,
        path: path.iter().map(|s| s.to_string()).collect(),
    }
}

/// Feeds the events after the pool is known and returns the final action.
fn finish_from_pool(r: SwapReader, tx_nonce_seen: u64) -> (SwapReader, ReadAction) {
    let (r, a) = r.step(ReaderEvent::AccountNonce(tx_nonce_seen));
    if !matches!(a, ReadAction::FetchPoolState { .. }) {
        return (r, a);
    }
    let (r, a) = r.step(ReaderEvent::PoolState {
        token0: WETH.to_lowercase(),
        reserve0: 1_000,
        reserve1: 100_000,
        block_number: 42,
    });
    match &a {
        ReadAction::FindOptimal { amm } => {
            assert_eq!(amm.initial_reserves_eth, 1_000);
            assert_eq!(amm.initial_reserves_token, 100_000);
            assert_eq!(amm.swap_eth_in, 100);
            assert_eq!(amm.swap_token_out, 900);
        }
        _ => panic!("expected the search for the best front run"),
    }
    r.step(ReaderEvent::Optimal(10))
}

#[test]
fn reader_v2_swap_to_opportunity() {
    let r = SwapReader::new(context("0x7A250D5630B4CF539739DF2C5DACB4C659F2488D", 5));
    let (r, a) = r.step(ReaderEvent::Begin);
    assert!(matches!(a, ReadAction::DecodeCall { kind: RouterKind::Uniswap }));
    let (r, a) = r.step(ReaderEvent::V2Call { fn_name: "swapExactETHForTokens".to_string(), args: v2_args(&[WETH, TOKEN]) });
    match &a {
        ReadAction::GetPair { factory, token_a, token_b } => {
            assert_eq!(*factory, V2Contract::UniFactory);
            assert_eq!(token_a, WETH);
            assert_eq!(token_b, TOKEN);
        }
        _ => panic!("expected the pair lookup"),
    }
    let (r, a) = r.step(ReaderEvent::Pair("0xPool".to_string()));
    assert!(matches!(a, ReadAction::FetchAccountNonce));
    let (r, a) = finish_from_pool(r, 5);
    assert_eq!(r.phase, ReadPhase::Done);
    match a {
        ReadAction::Finish(Ok(tx)) => {
            assert_eq!(tx.tx_hash, [9; 32]);
            assert_eq!(tx.router, V2Contract::UniRouter);
            assert_eq!(tx.path, vec![WETH.to_string(), TOKEN.to_string()]);
            assert_eq!(tx.base_token, WETH);
            assert_eq!(tx.token_address, TOKEN);
            assert_eq!(tx.pool_address, "0xPool");
            assert_eq!(tx.pair_address, "0xPool");
            assert_eq!((tx.r0, tx.r1, tx.base_position), (1_000, 100_000, 0));
            assert_eq!((tx.amount_in, tx.amount_out), (100, 900));
            assert_eq!(tx.delta_sand_on_block, 42);
            assert_eq!(tx.delta_sand, 10);
            assert_eq!(tx.abstract_profits, Some(3));
            assert_eq!(tx.abstract_profits, V2AMM::new(1_000, 100_000, 100, 900).try_abstract_profits(10));
        }
        _ => panic!("expected an opportunity"),
    }
}

#[test]
fn reader_long_path_is_requoted() {
    let r = SwapReader::new(context("0xd9e1cE17f2641f24aE83637ab66a2cca9C378B9F", 0));
    let (r, _) = r.step(ReaderEvent::Begin);
    let (r, a) = r.step(ReaderEvent::V2Call {
        fn_name: "swapExactETHForTokens".to_string(),
        args: v2_args(&[WETH, TOKEN, "0x03"]),
    });
    match &a {
        ReadAction::QuoteAmountsIn { router, amount_out, path } => {
            assert_eq!(*router, V2Contract::SushiRouter);
            assert_eq!(*amount_out, 900);
            assert_eq!(*path, vec![TOKEN.to_string(), "0x03".to_string()]);
        }
        _ => panic!("expected a requote"),
    }
    let (r, a) = r.step(ReaderEvent::AmountsIn(700));
    assert!(matches!(a, ReadAction::GetPair { factory: V2Contract::SushiFactory, .. }));
    assert_eq!(r.amount_out, 700);
}

#[test]
fn reader_v3_multicall() {
    let r = SwapReader::new(context("0xE592427A0AEce92De3Edee1F18E0157C05861564", 0));
    let (r, a) = r.step(ReaderEvent::Begin);
    assert!(matches!(a, ReadAction::DecodeCall { kind: RouterKind::UniswapV3 }));
    let (r2, a) = SwapReader::new(context("0xE592427A0AEce92De3Edee1F18E0157C05861564", 0))
        .step(ReaderEvent::Begin)
        .0
        .step(ReaderEvent::V3Call { fn_name: "exactInput".to_string() });
    assert!(matches!(a, ReadAction::Abort(ReadAbort::UnrecognisedCall)));
    assert_eq!(r2.phase, ReadPhase::Done);
    let (r, a) = r.step(ReaderEvent::V3Call { fn_name: "multicall".to_string() });
    assert!(matches!(a, ReadAction::DecodeV3Inner));
    let (_, a) = r.step(ReaderEvent::V2Call { fn_name: "swapExactETHForTokens".to_string(), args: v2_args(&[WETH, TOKEN]) });
    assert!(matches!(a, ReadAction::GetPair { factory: V2Contract::UniFactory, .. }));
}

fn pool_word(addr_hex: &str) -> [u8; 32] {
    let mut word = [0u8; 32];
    word[12..].copy_from_slice(&hex::decode(addr_hex).unwrap());
    word
}

#[test]
fn reader_inch_swap_to_opportunity() {
    let r = SwapReader::new(context("0x1111111254fb6c44bAC0beD2854e76F90643097d", 5));
    let (r, a) = r.step(ReaderEvent::Begin);
    assert!(matches!(a, ReadAction::DecodeCall { kind: RouterKind::OneInch }));
    let args = InchCallArgs {
        src_token: "0x0000000000000000000000000000000000000000".to_string(),
        amount: 100,
        min_return: 900,
        pools: vec![
            pool_word("5aaeb6053f3e94c9b9a09f33669435e7ef1beaed"),
            pool_word("fb6916095ca1df60bb79ce92ce3ea74c37c5d359"),
        ],
    };
    let (r, a) = r.step(ReaderEvent::InchCall { fn_name: "unoswap".to_string(), inch_args: args });
    match &a {
        ReadAction::FetchPoolTokens { pool } => assert_eq!(pool, "0x5aAeb6053F3E94C9b9A09f33669435E7Ef1BeAed"),
        _ => panic!("expected the pool's tokens"),
    }
    let (r, a) = r.step(ReaderEvent::PoolTokens { token0: WETH.to_string(), token1: TOKEN.to_string() });
    match &a {
        ReadAction::FetchHopTokens { pools } => {
            assert_eq!(*pools, vec!["0xfB6916095ca1df60bB79Ce92cE3Ea74c37c5d359".to_string()])
        }
        _ => panic!("expected the later pools' tokens"),
    }
    let (r, a) = r.step(ReaderEvent::HopTokens(vec![(TOKEN.to_string(), "0xEE".to_string())]));
    match &a {
        ReadAction::QuoteAmountIn { amount_out, token_in, token_out } => {
            assert_eq!(*amount_out, 900);
            assert_eq!(token_in, &TOKEN.to_lowercase());
            assert_eq!(token_out, "0xee");
        }
        _ => panic!("expected a hop quote"),
    }
    let (r, a) = r.step(ReaderEvent::HopQuote(800));
    assert!(matches!(a, ReadAction::FetchFactory { .. }));
    let (r, a) = r.step(ReaderEvent::Factory(UNI_FACTORY.to_lowercase()));
    assert!(matches!(a, ReadAction::FetchAccountNonce));
    assert_eq!(r.amount_out, 800);
    let (_, a) = finish_from_pool_inch(r);
    match a {
        ReadAction::Finish(Ok(tx)) => {
            assert_eq!(tx.router, V2Contract::UniRouter);
            assert_eq!(tx.path, vec![WETH.to_string(), TOKEN.to_string()]);
            assert_eq!(tx.pool_address, "0x5aAeb6053F3E94C9b9A09f33669435E7Ef1BeAed");
            assert_eq!((tx.amount_in, tx.amount_out), (100, 800));
        }
        _ => panic!("expected an opportunity"),
    }
}

fn finish_from_pool_inch(r: SwapReader) -> (SwapReader, ReadAction) {
    let (r, _) = r.step(ReaderEvent::AccountNonce(5));
    let (r, _) = r.step(ReaderEvent::PoolState { token0: TOKEN.to_string(), reserve0: 100_000, reserve1: 1_000, block_number: 1 });
    assert_eq!(r.base_position, 1);
    assert_eq!(r.amm.initial_reserves_eth, 1_000);
    r.step(ReaderEvent::Optimal(60))
}

#[test]
fn reader_rejections() {
    let (r, a) = SwapReader::new(context("0x01", 0)).step(ReaderEvent::Begin);
    assert!(matches!(a, ReadAction::Finish(Err(SwapError::RouterNotValid))));
    assert_eq!(r.phase, ReadPhase::Done);
    let (_, a) = r.step(ReaderEvent::Begin);
    assert!(matches!(a, ReadAction::Ignored));

    let start = || SwapReader::new(context(WETH_ROUTER, 5)).step(ReaderEvent::Begin).0;
    let (_, a) = start().step(ReaderEvent::V2Call { fn_name: "addLiquidityETH".to_string(), args: v2_args(&[WETH, TOKEN]) });
    assert!(matches!(a, ReadAction::Abort(ReadAbort::UnrecognisedFunction)));
    let (_, a) = start().step(ReaderEvent::V2Call { fn_name: "swapExactETHForTokens".to_string(), args: v2_args(&[TOKEN, WETH]) });
    assert!(matches!(a, ReadAction::Abort(ReadAbort::InvalidPath)));
    let (_, a) = start().step(ReaderEvent::V2Call { fn_name: "swapExactETHForTokens".to_string(), args: v2_args(&[]) });
    assert!(matches!(a, ReadAction::Abort(ReadAbort::ShortPath)));
    let (_, a) = start().step(ReaderEvent::V2Call { fn_name: "swapExactETHForTokens".to_string(), args: v2_args(&[WETH]) });
    assert!(matches!(a, ReadAction::Abort(ReadAbort::ShortPath)));
    let (_, a) = start().step(ReaderEvent::V2Call { fn_name: "swapETHForExactTokens".to_string(), args: v2_args(&[WETH, TOKEN]) });
    assert!(matches!(a, ReadAction::Abort(ReadAbort::MissingArgument)));
    let (_, a) = start().step(ReaderEvent::V3Call { fn_name: "multicall".to_string() });
    assert!(matches!(a, ReadAction::Ignored));

    let at_nonce = || {
        start()
            .step(ReaderEvent::V2Call { fn_name: "swapExactETHForTokens".to_string(), args: v2_args(&[WETH, TOKEN]) })
            .0
            .step(ReaderEvent::Pair("0xPool".to_string()))
            .0
    };
    let (_, a) = at_nonce().step(ReaderEvent::AccountNonce(6));
    assert!(matches!(a, ReadAction::Abort(ReadAbort::NonceTooLow)));
    let (r, _) = at_nonce().step(ReaderEvent::AccountNonce(5));
    let (_, a) = r.step(ReaderEvent::PoolState { token0: WETH.to_string(), reserve0: u128::MAX, reserve1: 1, block_number: 0 });
    assert!(matches!(a, ReadAction::Finish(Err(SwapError::AmountOutOfRange))));
}

const WETH_ROUTER: &str = "0x7a250d5630B4cF539739dF2C5dAcb4c659F2488D";

#[test]
fn reader_inch_rejections() {
    let start = || SwapReader::new(context("0x1111111254fb6c44bAC0beD2854e76F90643097d", 0)).step(ReaderEvent::Begin).0;
    let args = |src: &str, pools: Vec<[u8; 32]>| InchCallArgs { src_token: src.to_string(), amount: 1, min_return: 1, pools };
    let zero = "0x0000000000000000000000000000000000000000";
    let (_, a) = start().step(ReaderEvent::InchCall { fn_name: "unoswap".to_string(), inch_args: args(zero, vec![]) });
    assert!(matches!(a, ReadAction::Abort(ReadAbort::NoPools)));
    let (_, a) = start().step(ReaderEvent::InchCall { fn_name: String::new(), inch_args: args(zero, vec![]) });
    assert!(matches!(a, ReadAction::Finish(Err(SwapError::IncorrectFunction))));
    let (_, a) = start().step(ReaderEvent::InchCall { fn_name: "unoswap".to_string(), inch_args: args(WETH, vec![]) });
    assert!(matches!(a, ReadAction::Finish(Err(SwapError::SourceTokenNotEth))));
    let (_, a) = start().step(ReaderEvent::InchCall { fn_name: "swap".to_string(), inch_args: args(zero, vec![[0; 32]]) });
    assert!(matches!(a, ReadAction::Finish(Err(SwapError::IncorrectFunction))));
    let (_, a) = start().step(ReaderEvent::InchCall { fn_name: "unoswap".to_string(), inch_args: args(WETH, vec![[0; 32]]) });
    assert!(matches!(a, ReadAction::Finish(Err(SwapError::SourceTokenNotEth))));
    let (r, _) = start().step(ReaderEvent::InchCall { fn_name: "unoswap".to_string(), inch_args: args(zero, vec![[0; 32]]) });
    let (r, a) = r.step(ReaderEvent::PoolTokens { token0: TOKEN.to_string(), token1: WETH.to_string() });
    assert!(matches!(a, ReadAction::FetchFactory { .. }));
    assert_eq!(r.token, TOKEN);
    let (_, a) = r.step(ReaderEvent::Factory(WETH.to_string()));
    assert!(matches!(a, ReadAction::Abort(ReadAbort::UnknownFactory)));
}
