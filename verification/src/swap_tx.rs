//! From a pending router call to a sandwich opportunity: which router was
//! called, whether the call is an ETH-for-token swap the bot can sandwich,
//! which amounts and pool it involves, and how large a front run it plans.

use vstd::prelude::*;
use crate::amm::V2AMM;
use crate::encoding::spec_hex_lower;

verus! {

/// Name for `str::to_lowercase` on a character sequence.
pub uninterp spec fn lowercase(text: Seq<char>) -> Seq<char>;

/// `str::to_lowercase`: the lowercase equivalent of `text`.
#[verifier::external_body]
fn to_lowercase(text: &str) -> (lower: String)
    ensures
        lower@ == lowercase(text@),
{
    text.to_lowercase()
}

/// Two addresses, or any two texts, equal once lowercased.
pub open spec fn same_address(a: Seq<char>, b: Seq<char>) -> bool {
    lowercase(a) == lowercase(b)
}

/// Whether `a` and `b` are equal once lowercased.
pub fn addresses_match(a: &str, b: &str) -> (r: bool)
    ensures
        r == same_address(a@, b@),
{
    to_lowercase(a) == to_lowercase(b)
}

/// Whether two texts are equal.
fn text_eq(a: &str, b: &str) -> (r: bool)
    ensures
        r == (a@ == b@),
{
    String::from_str(a) == String::from_str(b)
}

/// The ASCII lowercase of a character.
pub open spec fn ascii_lower(c: char) -> char {
    if 'A' <= c <= 'Z' {
        ((c as u32) + 32) as char
    } else {
        c
    }
}

/// Name for the EIP-55 checksummed text of an address.
pub uninterp spec fn eip55_text(addr: Seq<u8>) -> Seq<char>;

/// `ethers::utils::to_checksum` without a chain id: `0x` and the address in
/// hex, each letter uppercased or not after the address's Keccak hash. The
/// contract names the text and states its shape: 42 characters, `0x`, then
/// the lowercase hex of the address up to the case of letters.
#[verifier::external_body]
fn to_checksum(addr: &[u8; 20]) -> (text: String)
    ensures
        text@ == eip55_text(addr@),
        text@.len() == 42,
        text@[0] == '0',
        text@[1] == 'x',
        forall|i: int| 0 <= i < 40 ==> ascii_lower(#[trigger] text@[i + 2]) == spec_hex_lower(addr@)[i],
{
    ethers::utils::to_checksum(&ethers::types::Address::from(*addr), None)
}

/// Why a pending transaction is no sandwich opportunity.
#[derive(Clone, Copy, Debug, PartialEq, Eq, Structural)]
pub enum SwapError {
    /// The transaction is not addressed to a known router.
    RouterNotValid,
    /// A V2 router call that is not one of the six swaps.
    UnrecognisedFunction,
    /// A V3 router call that is not `multicall`.
    UnrecognisedCall,
    /// A 1inch call that is not `unoswap` or `unoswapWithPermit`.
    IncorrectFunction,
    /// A 1inch swap that does not start from ETH.
    SourceTokenNotEth,
    /// A V2 path that does not start from WETH.
    InvalidPath,
    /// The pool's factory is none of the known ones.
    UnknownFactory,
    /// The sender has already used the transaction's nonce.
    NonceTooLow,
    /// A 1inch call that names no pool.
    NoPools,
    /// An amount or a reserve beyond what the pool model holds (`i64`).
    AmountOutOfRange,
}


/// The routers whose calls the bot reads.
#[derive(Clone, Copy, Debug, PartialEq, Eq, Structural)]
pub enum RouterKind {
    Uniswap,
    Sushiswap,
    Shibaswap,
    UniswapV3,
    OneInch,
}

/// The key under which a protocol's contract is registered: the protocol's
/// name, `_`, and the contract's name.
pub fn contract_key(protocol: &str, contract: &str) -> (key: String)
    ensures
        key@ == protocol@ + seq!['_'] + contract@,
{
    let mut key = String::from_str(protocol);
    proof {
        reveal_strlit("_");
    }
    key.append("_");
    key.append(contract);
    key
}

/// The routers' addresses, as text.
pub struct RouterAddresses {
    pub uni_router: String,
    pub sushi_router: String,
    pub shiba_router: String,
    pub v3_router: String,
    pub inch_router: String,
}

/// The first router, in the order Uniswap, Sushiswap, Shibaswap, Uniswap V3,
/// 1inch, whose address is `to`, case aside.
pub open spec fn spec_router_kind(to: Seq<char>, routers: RouterAddresses) -> Option<RouterKind> {
    if same_address(to, routers.uni_router@) {
        Some(RouterKind::Uniswap)
    } else if same_address(to, routers.sushi_router@) {
        Some(RouterKind::Sushiswap)
    } else if same_address(to, routers.shiba_router@) {
        Some(RouterKind::Shibaswap)
    } else if same_address(to, routers.v3_router@) {
        Some(RouterKind::UniswapV3)
    } else if same_address(to, routers.inch_router@) {
        Some(RouterKind::OneInch)
    } else {
        None
    }
}

/// Which router a transaction sent to `to` calls.
pub fn classify_router(to: &str, routers: &RouterAddresses) -> (r: Result<RouterKind, SwapError>)
    ensures
        r == match spec_router_kind(to@, *routers) {
            Some(k) => Ok::<RouterKind, SwapError>(k),
            None => Err(SwapError::RouterNotValid),
        },
{
    if addresses_match(to, routers.uni_router.as_str()) {
        Ok(RouterKind::Uniswap)
    } else if addresses_match(to, routers.sushi_router.as_str()) {
        Ok(RouterKind::Sushiswap)
    } else if addresses_match(to, routers.shiba_router.as_str()) {
        Ok(RouterKind::Shibaswap)
    } else if addresses_match(to, routers.v3_router.as_str()) {
        Ok(RouterKind::UniswapV3)
    } else if addresses_match(to, routers.inch_router.as_str()) {
        Ok(RouterKind::OneInch)
    } else {
        Err(SwapError::RouterNotValid)
    }
}

/// The V2 router swaps the bot reads.
#[derive(Clone, Copy, Debug, PartialEq, Eq, Structural)]
pub enum V2Function {
    SwapExactEthForTokens,
    SwapEthForExactTokens,
    SwapExactTokensForEth,
    SwapExactTokensForExactEth,
    SwapExactTokensForTokens,
    SwapTokensForExactTokens,
}

pub open spec fn spec_v2_function(name: Seq<char>) -> Option<V2Function> {
    if name == "swapExactETHForTokens"@ {
        Some(V2Function::SwapExactEthForTokens)
    } else if name == "swapETHForExactTokens"@ {
        Some(V2Function::SwapEthForExactTokens)
    } else if name == "swapExactTokensForETH"@ {
        Some(V2Function::SwapExactTokensForEth)
    } else if name == "swapExactTokensForExactETH"@ {
        Some(V2Function::SwapExactTokensForExactEth)
    } else if name == "swapExactTokensForTokens"@ {
        Some(V2Function::SwapExactTokensForTokens)
    } else if name == "swapTokensForExactTokens"@ {
        Some(V2Function::SwapTokensForExactTokens)
    } else {
        None
    }
}

/// The swap a V2 router function name stands for.
pub fn v2_function(name: &str) -> (f: Option<V2Function>)
    ensures
        f == spec_v2_function(name@),
{
    if text_eq(name, "swapExactETHForTokens") {
        Some(V2Function::SwapExactEthForTokens)
    } else if text_eq(name, "swapETHForExactTokens") {
        Some(V2Function::SwapEthForExactTokens)
    } else if text_eq(name, "swapExactTokensForETH") {
        Some(V2Function::SwapExactTokensForEth)
    } else if text_eq(name, "swapExactTokensForExactETH") {
        Some(V2Function::SwapExactTokensForExactEth)
    } else if text_eq(name, "swapExactTokensForTokens") {
        Some(V2Function::SwapExactTokensForTokens)
    } else if text_eq(name, "swapTokensForExactTokens") {
        Some(V2Function::SwapTokensForExactTokens)
    } else {
        None
    }
}

/// The decoded arguments of a V2 router swap that the bot reads.
pub struct V2CallArgs {
    pub amount_in: Option<u128>,
    pub amount_out_min: Option<u128>,
    pub amount_out: Option<u128>,
    pub amount_in_max: Option<u128>,
    pub path: Vec<String>,
}

/// The amount in and the amount out that a swap function fixes: the ETH sent
/// or `amountIn` / `amountInMax`, and `amountOut` / `amountOutMin`.
pub open spec fn spec_v2_amounts(f: V2Function, tx_value: u128, args: V2CallArgs) -> (Option<u128>, Option<u128>) {
    match f {
        V2Function::SwapEthForExactTokens => (Some(tx_value), args.amount_out),
        V2Function::SwapExactEthForTokens => (Some(tx_value), args.amount_out_min),
        V2Function::SwapExactTokensForEth | V2Function::SwapExactTokensForTokens => (
            args.amount_in,
            args.amount_out_min,
        ),
        V2Function::SwapExactTokensForExactEth | V2Function::SwapTokensForExactTokens => (
            args.amount_in_max,
            args.amount_out,
        ),
    }
}

/// A V2 swap the bot can sandwich, before the pool is looked up.
pub struct V2SwapPlan {
    pub function: V2Function,
    pub path: Vec<String>,
    pub amount_in: u128,
    pub amount_out: u128,
    /// For a path of more than two tokens: the path without its first token,
    /// along which the router is asked for the amounts in for `amount_out`.
    pub requote_path: Option<Vec<String>>,
}

/// Checks a call to a V2 router (`fn_name` with `args`, sending `tx_value`):
/// one of the six swaps, along a path that starts from WETH.
pub fn check_uni(fn_name: &str, tx_value: u128, args: V2CallArgs, weth: &str) -> (r: Result<V2SwapPlan, SwapError>)
    requires
        args.path@.len() >= 1,
        spec_v2_function(fn_name@) matches Some(f) ==> spec_v2_amounts(f, tx_value, args).0 is Some
            && spec_v2_amounts(f, tx_value, args).1 is Some,
    ensures
        r matches Err(SwapError::UnrecognisedFunction) <==> spec_v2_function(fn_name@) is None,
        r matches Err(SwapError::InvalidPath) <==> (spec_v2_function(fn_name@) is Some && !same_address(
            args.path@[0]@,
            weth@,
        )),
        r is Ok || r matches Err(SwapError::UnrecognisedFunction) || r matches Err(SwapError::InvalidPath),
        r matches Ok(plan) ==> {
            &&& spec_v2_function(fn_name@) == Some(plan.function)
            &&& plan.path@ == args.path@
            &&& plan.amount_in == spec_v2_amounts(plan.function, tx_value, args).0->0
            &&& plan.amount_out == spec_v2_amounts(plan.function, tx_value, args).1->0
            &&& if args.path@.len() > 2 {
                plan.requote_path matches Some(p) && p@ == args.path@.subrange(1, args.path@.len() as int)
            } else {
                plan.requote_path is None
            }
        },
{
    let function = match v2_function(fn_name) {
        Some(f) => f,
        None => return Err(SwapError::UnrecognisedFunction),
    };
    if !addresses_match(args.path[0].as_str(), weth) {
        return Err(SwapError::InvalidPath);
    }
    let (amount_in, amount_out) = match function {
        V2Function::SwapEthForExactTokens => (tx_value, args.amount_out.unwrap()),
        V2Function::SwapExactEthForTokens => (tx_value, args.amount_out_min.unwrap()),
        V2Function::SwapExactTokensForEth | V2Function::SwapExactTokensForTokens => (
            args.amount_in.unwrap(),
            args.amount_out_min.unwrap(),
        ),
        V2Function::SwapExactTokensForExactEth | V2Function::SwapTokensForExactTokens => (
            args.amount_in_max.unwrap(),
            args.amount_out.unwrap(),
        ),
    };
    let path = args.path;
    let requote_path = if path.len() > 2 {
        let mut tail: Vec<String> = Vec::new();
        let mut i: usize = 1;
        while i < path.len()
            invariant
                1 <= i <= path@.len(),
                tail@ == path@.subrange(1, i as int),
            decreases path@.len() - i,
        {
            tail.push(path[i].clone());
            i = i + 1;
            assert(tail@ =~= path@.subrange(1, i as int));
        }
        Some(tail)
    } else {
        None
    };
    Ok(V2SwapPlan { function, path, amount_in, amount_out, requote_path })
}

/// Checks a call to the V3 router: only `multicall` is read, and its first
/// inner call is then checked as a V2 swap.
pub fn check_v3(fn_name: &str) -> (r: Result<(), SwapError>)
    ensures
        r is Ok <==> fn_name@ == "multicall"@,
        r matches Err(e) ==> e == SwapError::UnrecognisedCall,
{
    if text_eq(fn_name, "multicall") {
        Ok(())
    } else {
        Err(SwapError::UnrecognisedCall)
    }
}


/// Which router contract and which factory contract a V2 call goes through.
#[derive(Clone, Copy, Debug, PartialEq, Eq, Structural)]
pub enum V2Contract {
    UniRouter,
    UniFactory,
    SushiRouter,
    SushiFactory,
    ShibaRouter,
    ShibaFactory,
}

/// The router and the factory used to check a call to a V2-style router:
/// V3 calls are read through the Uniswap V2 contracts; 1inch has none.
pub open spec fn spec_v2_contracts(kind: RouterKind) -> Option<(V2Contract, V2Contract)> {
    match kind {
        RouterKind::Uniswap => Some((V2Contract::UniRouter, V2Contract::UniFactory)),
        RouterKind::Sushiswap => Some((V2Contract::SushiRouter, V2Contract::SushiFactory)),
        RouterKind::Shibaswap => Some((V2Contract::ShibaRouter, V2Contract::ShibaFactory)),
        RouterKind::UniswapV3 => Some((V2Contract::UniRouter, V2Contract::UniFactory)),
        RouterKind::OneInch => None,
    }
}

pub fn v2_contracts(kind: RouterKind) -> (r: Option<(V2Contract, V2Contract)>)
    ensures
        r == spec_v2_contracts(kind),
{
    match kind {
        RouterKind::Uniswap => Some((V2Contract::UniRouter, V2Contract::UniFactory)),
        RouterKind::Sushiswap => Some((V2Contract::SushiRouter, V2Contract::SushiFactory)),
        RouterKind::Shibaswap => Some((V2Contract::ShibaRouter, V2Contract::ShibaFactory)),
        RouterKind::UniswapV3 => Some((V2Contract::UniRouter, V2Contract::UniFactory)),
        RouterKind::OneInch => None,
    }
}

/// The factories' addresses, as text.
pub struct FactoryAddresses {
    pub uni_factory: String,
    pub sushi_factory: String,
    pub shiba_factory: String,
}

/// The contract through which a 1inch-routed swap is sandwiched, after the
/// factory of its pool: the Uniswap router, the Sushiswap factory, or the
/// Shibaswap router.
pub open spec fn spec_router_for_factory(factory: Seq<char>, factories: FactoryAddresses) -> Option<V2Contract> {
    if same_address(factory, factories.uni_factory@) {
        Some(V2Contract::UniRouter)
    } else if same_address(factory, factories.sushi_factory@) {
        Some(V2Contract::SushiFactory)
    } else if same_address(factory, factories.shiba_factory@) {
        Some(V2Contract::ShibaRouter)
    } else {
        None
    }
}

pub fn router_for_factory(factory: &str, factories: &FactoryAddresses) -> (r: Result<V2Contract, SwapError>)
    ensures
        r == match spec_router_for_factory(factory@, *factories) {
            Some(c) => Ok::<V2Contract, SwapError>(c),
            None => Err(SwapError::UnknownFactory),
        },
{
    if addresses_match(factory, factories.uni_factory.as_str()) {
        Ok(V2Contract::UniRouter)
    } else if addresses_match(factory, factories.sushi_factory.as_str()) {
        Ok(V2Contract::SushiFactory)
    } else if addresses_match(factory, factories.shiba_factory.as_str()) {
        Ok(V2Contract::ShibaRouter)
    } else {
        Err(SwapError::UnknownFactory)
    }
}

/// The decoded arguments of a 1inch `unoswap` call that the bot reads; each
/// pool is a 256-bit word, big-endian, whose low 160 bits are the pool's address.
pub struct InchCallArgs {
    pub src_token: String,
    pub amount: u128,
    pub min_return: u128,
    pub pools: Vec<[u8; 32]>,
}

/// The address in a pool word: its last twenty bytes.
pub open spec fn spec_pool_word_address(word: Seq<u8>) -> Seq<u8> {
    word.subrange(12, 32)
}

/// The checksummed address of the pool in a pool word.
pub fn pool_address(word: &[u8; 32]) -> (text: String)
    ensures
        text@ == eip55_text(spec_pool_word_address(word@)),
{
    let mut addr: [u8; 20] = [0u8; 20];
    let mut i: usize = 0;
    while i < 20
        invariant
            0 <= i <= 20,
            forall|j: int| 0 <= j < i ==> addr@[j] == word@[j + 12],
        decreases 20 - i,
    {
        addr[i] = word[i + 12];
        i = i + 1;
    }
    assert(addr@ =~= spec_pool_word_address(word@));
    to_checksum(&addr)
}

/// A 1inch swap the bot can sandwich, before its pools are looked up.
pub struct InchSwapPlan {
    /// The first pool, checksummed.
    pub pool_address: String,
    pub amount_in: u128,
    /// The least the swap must return, before the later pools are accounted for.
    pub amount_out: u128,
    /// The later pools of the route, checksummed, in route order.
    pub hop_pools: Vec<String>,
}

/// The zero address: the 1inch source token for ETH.
pub open spec fn zero_address() -> Seq<char> {
    "0x0000000000000000000000000000000000000000"@
}

/// Checks a call to the 1inch router: `unoswap` or `unoswapWithPermit`,
/// starting from ETH.
pub fn check_inch(fn_name: &str, args: &InchCallArgs) -> (r: Result<InchSwapPlan, SwapError>)
    ensures
        r matches Err(SwapError::IncorrectFunction) <==> !(fn_name@ == "unoswap"@ || fn_name@
            == "unoswapWithPermit"@),
        r matches Err(SwapError::SourceTokenNotEth) <==> ((fn_name@ == "unoswap"@ || fn_name@
            == "unoswapWithPermit"@) && !same_address(args.src_token@, zero_address())),
        r matches Err(SwapError::NoPools) <==> ((fn_name@ == "unoswap"@ || fn_name@ == "unoswapWithPermit"@)
            && same_address(args.src_token@, zero_address()) && args.pools@.len() == 0),
        r is Ok || r matches Err(SwapError::IncorrectFunction) || r matches Err(SwapError::SourceTokenNotEth)
            || r matches Err(SwapError::NoPools),
        r matches Ok(plan) ==> {
            &&& plan.pool_address@ == eip55_text(spec_pool_word_address(args.pools@[0]@))
            &&& plan.amount_in == args.amount
            &&& plan.amount_out == args.min_return
            &&& plan.hop_pools@.len() == args.pools@.len() - 1
            &&& forall|k: int|
                0 <= k < plan.hop_pools@.len() ==> #[trigger] plan.hop_pools@[k]@ == eip55_text(
                    spec_pool_word_address(args.pools@[k + 1]@),
                )
        },
{
    if !(text_eq(fn_name, "unoswap") || text_eq(fn_name, "unoswapWithPermit")) {
        return Err(SwapError::IncorrectFunction);
    }
    if !addresses_match(args.src_token.as_str(), "0x0000000000000000000000000000000000000000") {
        return Err(SwapError::SourceTokenNotEth);
    }
    if args.pools.len() == 0 {
        return Err(SwapError::NoPools);
    }
    let first = pool_address(&args.pools[0]);
    let mut hop_pools: Vec<String> = Vec::new();
    let mut p: usize = 1;
    while p < args.pools.len()
        invariant
            1 <= p <= args.pools@.len(),
            hop_pools@.len() == p - 1,
            forall|k: int|
                0 <= k < hop_pools@.len() ==> #[trigger] hop_pools@[k]@ == eip55_text(
                    spec_pool_word_address(args.pools@[k + 1]@),
                ),
        decreases args.pools@.len() - p,
    {
        let hop = pool_address(&args.pools[p]);
        hop_pools.push(hop);
        p = p + 1;
    }
    Ok(InchSwapPlan { pool_address: first, amount_in: args.amount, amount_out: args.min_return, hop_pools })
}

/// The pool's other token: `token1` when `token0` is the base token, else `token0`.
pub fn other_token(token0: &String, token1: &String, base_token: &str) -> (token: String)
    ensures
        token@ == if same_address(token0@, base_token@) {
            token1@
        } else {
            token0@
        },
{
    if addresses_match(token0.as_str(), base_token) {
        token1.clone()
    } else {
        token0.clone()
    }
}

/// The route through the later pools, lowercased and oriented: a pool whose
/// first token is the token coming in is crossed first to second and hands
/// its second token on; any other pool is crossed second to first and hands
/// on the same token.
pub open spec fn spec_oriented_hops(token_in: Seq<char>, hops: Seq<(Seq<char>, Seq<char>)>) -> Seq<
    (Seq<char>, Seq<char>),
>
    decreases hops.len(),
{
    if hops.len() == 0 {
        Seq::empty()
    } else {
        let t0 = lowercase(hops[0].0);
        let t1 = lowercase(hops[0].1);
        if t0 == token_in {
            seq![(t0, t1)] + spec_oriented_hops(t1, hops.drop_first())
        } else {
            seq![(t1, t0)] + spec_oriented_hops(token_in, hops.drop_first())
        }
    }
}

pub open spec fn pair_views(pairs: Seq<(String, String)>) -> Seq<(Seq<char>, Seq<char>)> {
    pairs.map_values(|p: (String, String)| (p.0@, p.1@))
}

/// Orients the later pools of a 1inch route, given each pool's
/// (token0, token1), starting from `token`.
pub fn orient_hops(token: &str, hops: &Vec<(String, String)>) -> (oriented: Vec<(String, String)>)
    ensures
        pair_views(oriented@) == spec_oriented_hops(lowercase(token@), pair_views(hops@)),
{
    let ghost all = pair_views(hops@);
    let mut token_in = to_lowercase(token);
    let mut oriented: Vec<(String, String)> = Vec::new();
    let mut i: usize = 0;
    assert(all.subrange(0, all.len() as int) =~= all);
    assert(pair_views(oriented@) =~= Seq::<(Seq<char>, Seq<char>)>::empty());
    while i < hops.len()
        invariant
            0 <= i <= hops@.len(),
            all == pair_views(hops@),
            pair_views(oriented@) + spec_oriented_hops(token_in@, all.subrange(i as int, all.len() as int))
                == spec_oriented_hops(lowercase(token@), all),
        decreases hops@.len() - i,
    {
        let ghost rest = all.subrange(i as int, all.len() as int);
        assert(rest.drop_first() =~= all.subrange(i + 1, all.len() as int));
        assert(rest[0] == (hops@[i as int].0@, hops@[i as int].1@));
        let token_0 = to_lowercase(hops[i].0.as_str());
        let token_1 = to_lowercase(hops[i].1.as_str());
        let ghost before = pair_views(oriented@);
        if token_0 == token_in {
            let next_in = token_1.clone();
            oriented.push((token_0, token_1));
            token_in = next_in;
        } else {
            oriented.push((token_1, token_0));
        }
        assert(pair_views(oriented@) =~= before + seq![pair_views(oriented@).last()]);
        i = i + 1;
    }
    assert(all.subrange(hops@.len() as int, all.len() as int) =~= Seq::<(Seq<char>, Seq<char>)>::empty());
    assert(pair_views(oriented@) =~= pair_views(oriented@) + Seq::<(Seq<char>, Seq<char>)>::empty());
    oriented
}


/// Checks that the transaction's nonce is still unused by its sender.
pub fn check_nonce(tx_nonce: u64, account_nonce: u64) -> (r: Result<(), SwapError>)
    ensures
        r is Ok <==> tx_nonce >= account_nonce,
        r matches Err(e) ==> e == SwapError::NonceTooLow,
{
    if tx_nonce < account_nonce {
        Err(SwapError::NonceTooLow)
    } else {
        Ok(())
    }
}

/// The pool's reserves with the base token's first, and the base token's
/// position in the pool (0 when it is `token0`).
pub fn orient_pool(token0: &str, base_token: &str, reserve0: i64, reserve1: i64) -> (r: (i64, i64, u8))
    ensures
        r == if same_address(token0@, base_token@) {
            (reserve0, reserve1, 0u8)
        } else {
            (reserve1, reserve0, 1u8)
        },
{
    if addresses_match(token0, base_token) {
        (reserve0, reserve1, 0)
    } else {
        (reserve1, reserve0, 1)
    }
}

/// The planned front run and what it earns.
#[derive(Clone, Copy, Debug)]
pub struct SandwichSize {
    pub delta_sand: i64,
    /// `None` where the profit leaves `i64` or divides by zero.
    pub abstract_profits: Option<i64>,
}

/// Sizes the front run: the best size found, or nothing when that exceeds
/// `upper_bound_sand`; and its profit.
pub fn size_sandwich(amm: &V2AMM, optimal: i64, upper_bound_sand: i64) -> (size: SandwichSize)
    ensures
        size.delta_sand == if optimal > upper_bound_sand {
            0
        } else {
            optimal
        },
        size.abstract_profits is Some <==> amm.abstract_profits_defined(size.delta_sand as int),
        size.abstract_profits matches Some(p) ==> p as int == amm.abstract_profits_spec(size.delta_sand as int),
{
    let delta_sand: i64 = if optimal > upper_bound_sand {
        0
    } else {
        optimal
    };
    SandwichSize { delta_sand, abstract_profits: amm.try_abstract_profits(delta_sand) }
}

/// A pending swap read as a sandwich opportunity.
pub struct V2SwapTransaction {
    pub tx_hash: [u8; 32],
    pub router: V2Contract,
    /// Base token, then the token bought.
    pub path: Vec<String>,
    pub amount_in: i64,
    pub amount_out: i64,
    pub pool_address: String,
    pub base_token: String,
    pub token_address: String,
    /// Reserves, base token's first.
    pub r0: i64,
    pub r1: i64,
    pub base_position: u8,
    pub delta_sand_on_block: u64,
    pub pair_address: String,
    pub delta_sand: i64,
    pub abstract_profits: Option<i64>,
}

/// An opportunity worth taking: read without error, with a known profit above
/// `lower_bound_profits`, and a front run above zero and below `upper_bound_sand`.
pub open spec fn qualifies(
    entry: Result<V2SwapTransaction, SwapError>,
    lower_bound_profits: i64,
    upper_bound_sand: u32,
) -> bool {
    &&& entry matches Ok(tx)
    &&& tx.abstract_profits matches Some(p)
    &&& p > lower_bound_profits
    &&& tx.delta_sand > 0
    &&& tx.delta_sand < upper_bound_sand
}

pub open spec fn profit_of(entry: Result<V2SwapTransaction, SwapError>) -> int {
    entry->Ok_0.abstract_profits->0 as int
}

/// The most profitable opportunity worth taking among `swaps`, the last one
/// among equally profitable ones; `None` when none is worth taking. `swaps`
/// holds (transaction hash, outcome of reading it) in the order they are
/// walked, each hash once, as the keys of a map.
pub fn max_sandwich_constraints(
    swaps: Vec<(String, Result<V2SwapTransaction, SwapError>)>,
    lower_bound_profits: i64,
    upper_bound_sand: u32,
) -> (best: Option<V2SwapTransaction>)
    requires
        forall|i: int, j: int| 0 <= i < j < swaps@.len() ==> #[trigger] swaps@[i].0@ != #[trigger] swaps@[j].0@,
    ensures
        best is None <==> forall|i: int|
            0 <= i < swaps@.len() ==> !qualifies(#[trigger] swaps@[i].1, lower_bound_profits, upper_bound_sand),
        best matches Some(tx) ==> exists|i: int|
            {
                &&& 0 <= i < swaps@.len()
                &&& #[trigger] swaps@[i].1 == Ok::<V2SwapTransaction, SwapError>(tx)
                &&& qualifies(swaps@[i].1, lower_bound_profits, upper_bound_sand)
                &&& forall|j: int|
                    0 <= j < swaps@.len() && qualifies(#[trigger] swaps@[j].1, lower_bound_profits, upper_bound_sand)
                        ==> profit_of(swaps@[j].1) <= profit_of(swaps@[i].1)
                &&& forall|j: int|
                    i < j < swaps@.len() && qualifies(#[trigger] swaps@[j].1, lower_bound_profits, upper_bound_sand)
                        ==> profit_of(swaps@[j].1) < profit_of(swaps@[i].1)
            },
{
    let mut swaps = swaps;
    let ghost all = swaps@;
    let mut best: Option<usize> = None;
    let mut best_profit: i64 = 0;
    let mut i: usize = 0;
    while i < swaps.len()
        invariant
            swaps@ == all,
            0 <= i <= all.len(),
            best is None ==> forall|j: int|
                0 <= j < i ==> !qualifies(#[trigger] all[j].1, lower_bound_profits, upper_bound_sand),
            best matches Some(b) ==> {
                &&& b < i
                &&& qualifies(all[b as int].1, lower_bound_profits, upper_bound_sand)
                &&& best_profit as int == profit_of(all[b as int].1)
                &&& forall|j: int|
                    0 <= j < i && qualifies(#[trigger] all[j].1, lower_bound_profits, upper_bound_sand)
                        ==> profit_of(all[j].1) <= best_profit
                &&& forall|j: int|
                    b < j < i && qualifies(#[trigger] all[j].1, lower_bound_profits, upper_bound_sand)
                        ==> profit_of(all[j].1) < best_profit
            },
        decreases all.len() - i,
    {
        let candidate: Option<i64> = match &swaps[i].1 {
            Ok(tx) => match tx.abstract_profits {
                Some(p) => {
                    if p > lower_bound_profits && tx.delta_sand > 0 && tx.delta_sand < upper_bound_sand as i64 {
                        Some(p)
                    } else {
                        None
                    }
                },
                None => None,
            },
            Err(_) => None,
        };
        match candidate {
            Some(p) => {
                let take = match best {
                    None => true,
                    Some(_) => p >= best_profit,
                };
                if take {
                    best = Some(i);
                    best_profit = p;
                }
            },
            None => {},
        }
        i = i + 1;
    }
    match best {
        None => None,
        Some(b) => {
            let (_hash, entry) = swaps.remove(b);
            match entry {
                Ok(tx) => Some(tx),
                Err(_) => None,
            }
        },
    }
}

/// What a V2 swap call fixes, by the function's name: the two ETH-in swaps
/// take the amount in from the ETH the transaction sends; the two exact-input
/// token swaps take `amountIn` and `amountOutMin`; the two exact-output token
/// swaps take `amountInMax` and `amountOut`. Only the ETH-in swaps depend on
/// the ETH sent.
pub proof fn lemma_v2_call_amounts(name: Seq<char>, tx_value: u128, other_value: u128, args: V2CallArgs)
    ensures
        name == "swapExactETHForTokens"@ ==> spec_v2_function(name) is Some && spec_v2_amounts(
            spec_v2_function(name)->0,
            tx_value,
            args,
        ) == (Some(tx_value), args.amount_out_min),
        name == "swapETHForExactTokens"@ ==> spec_v2_function(name) is Some && spec_v2_amounts(
            spec_v2_function(name)->0,
            tx_value,
            args,
        ) == (Some(tx_value), args.amount_out),
        (name == "swapExactTokensForETH"@ || name == "swapExactTokensForTokens"@) ==> spec_v2_function(name) is Some
            && spec_v2_amounts(spec_v2_function(name)->0, tx_value, args) == (args.amount_in, args.amount_out_min),
        (name == "swapExactTokensForExactETH"@ || name == "swapTokensForExactTokens"@) ==> spec_v2_function(name)
            is Some && spec_v2_amounts(spec_v2_function(name)->0, tx_value, args) == (
            args.amount_in_max,
            args.amount_out,
        ),
        spec_v2_function(name) matches Some(f) ==> (!(name == "swapExactETHForTokens"@ || name
            == "swapETHForExactTokens"@) ==> spec_v2_amounts(f, tx_value, args) == spec_v2_amounts(
            f,
            other_value,
            args,
        )),
{
    reveal_strlit("swapExactETHForTokens");
    reveal_strlit("swapETHForExactTokens");
    reveal_strlit("swapExactTokensForETH");
    reveal_strlit("swapExactTokensForExactETH");
    reveal_strlit("swapExactTokensForTokens");
    reveal_strlit("swapTokensForExactTokens");
    // the six names differ pairwise, by length or at one position
    assert("swapETHForExactTokens"@[5] != "swapExactETHForTokens"@[5]);
    assert("swapExactTokensForETH"@[9] != "swapExactETHForTokens"@[9]);
    assert("swapExactTokensForETH"@[5] != "swapETHForExactTokens"@[5]);
    assert("swapTokensForExactTokens"@[4] != "swapExactTokensForTokens"@[4]);
    assert("swapExactETHForTokens"@.len() == 21 && "swapETHForExactTokens"@.len() == 21);
    assert("swapExactTokensForETH"@.len() == 21 && "swapExactTokensForExactETH"@.len() == 26);
    assert("swapExactTokensForTokens"@.len() == 24 && "swapTokensForExactTokens"@.len() == 24);
    if name == "swapExactTokensForTokens"@ || name == "swapExactTokensForExactETH"@ || name
        == "swapTokensForExactTokens"@ {
        assert(name != "swapExactETHForTokens"@ && name != "swapETHForExactTokens"@ && name
            != "swapExactTokensForETH"@);
    }
    if name == "swapTokensForExactTokens"@ {
        assert(name != "swapExactTokensForExactETH"@);
    }
}

/// Orienting a route keeps one hop per pool, in route order: each hop is
/// the pool's two tokens, lowercased, either as they stand or reversed, and a
/// pool is crossed as it stands exactly when its first token is the token
/// coming in; the token coming in to the first pool is the one given.
pub proof fn lemma_oriented_hops_shape(token_in: Seq<char>, hops: Seq<(Seq<char>, Seq<char>)>)
    ensures
        spec_oriented_hops(token_in, hops).len() == hops.len(),
        forall|k: int|
            0 <= k < hops.len() ==> {
                let h = #[trigger] spec_oriented_hops(token_in, hops)[k];
                ||| h == (lowercase(hops[k].0), lowercase(hops[k].1))
                ||| h == (lowercase(hops[k].1), lowercase(hops[k].0))
            },
        hops.len() > 0 ==> (lowercase(hops[0].0) == token_in ==> spec_oriented_hops(token_in, hops)[0] == (
            lowercase(hops[0].0),
            lowercase(hops[0].1),
        )),
        hops.len() > 0 ==> (lowercase(hops[0].0) != token_in ==> spec_oriented_hops(token_in, hops)[0] == (
            lowercase(hops[0].1),
            lowercase(hops[0].0),
        )),
    decreases hops.len(),
{
    if hops.len() > 0 {
        let t0 = lowercase(hops[0].0);
        let t1 = lowercase(hops[0].1);
        let next_in = if t0 == token_in {
            t1
        } else {
            token_in
        };
        lemma_oriented_hops_shape(next_in, hops.drop_first());
        let r = spec_oriented_hops(token_in, hops);
        let rest = spec_oriented_hops(next_in, hops.drop_first());
        assert forall|k: int| 0 < k < hops.len() implies #[trigger] r[k] == rest[k - 1] by {}
        assert forall|k: int|
            0 <= k < hops.len() implies {
                let h = #[trigger] r[k];
                ||| h == (lowercase(hops[k].0), lowercase(hops[k].1))
                ||| h == (lowercase(hops[k].1), lowercase(hops[k].0))
            } by {
            if k > 0 {
                assert(r[k] == rest[k - 1]);
                assert(hops.drop_first()[k - 1] == hops[k]);
            }
        }
    }
}

} // verus!
