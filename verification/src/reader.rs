//! Reading a pending transaction into a sandwich opportunity, as a machine
//! that the caller drives: it says which call to decode and which chain data
//! to fetch, and decides, from what comes back, whether and how the swap can
//! be sandwiched.

use vstd::prelude::*;
use crate::amm::V2AMM;
use crate::swap_tx::{
    FactoryAddresses, InchCallArgs, RouterAddresses, RouterKind, SwapError, V2CallArgs, V2Contract,
    V2SwapTransaction, addresses_match, check_inch, check_nonce, check_uni, check_v3, classify_router,
    eip55_text, lowercase, orient_hops, orient_pool, other_token, pair_views, router_for_factory,
    same_address, size_sandwich, spec_oriented_hops, spec_pool_word_address, spec_router_for_factory,
    spec_router_kind, spec_v2_amounts, spec_v2_contracts, spec_v2_function, v2_contracts, v2_function,
};

verus! {

/// What the reader knows of the transaction and of the contracts.
pub struct ReaderContext {
    pub tx_hash: [u8; 32],
    /// The transaction's recipient.
    pub to: String,
    /// ETH sent with the transaction.
    pub tx_value: u128,
    pub tx_nonce: u64,
    pub weth: String,
    pub routers: RouterAddresses,
    pub factories: FactoryAddresses,
    /// Largest front run the bot will place.
    pub upper_bound_sand: i64,
}

#[derive(Clone, Copy, Debug, PartialEq, Eq, Structural)]
pub enum ReadPhase {
    Start,
    AwaitCall,
    AwaitV3Inner,
    AwaitAmountsIn,
    AwaitPair,
    AwaitPoolTokens,
    AwaitHopTokens,
    AwaitHopQuote,
    AwaitFactory,
    AwaitAccountNonce,
    AwaitPoolState,
    AwaitOptimal,
    Done,
}

/// What the outside world reports back.
pub enum ReaderEvent {
    Begin,
    /// A decoded call to a V2 router (or the first inner call of a V3 multicall).
    V2Call { fn_name: String, args: V2CallArgs },
    /// A decoded call to the V3 router.
    V3Call { fn_name: String },
    /// A decoded call to the 1inch router.
    InchCall { fn_name: String, inch_args: InchCallArgs },
    /// The first of the router's amounts in along the requoted path.
    AmountsIn(u128),
    /// The pool of the path's first two tokens.
    Pair(String),
    /// The 1inch pool's two tokens.
    PoolTokens { token0: String, token1: String },
    /// (token0, token1) of each later 1inch pool, in route order.
    HopTokens(Vec<(String, String)>),
    /// The router's amount in for the quoted hop.
    HopQuote(u128),
    /// The 1inch pool's factory.
    Factory(String),
    /// The sender's transaction count.
    AccountNonce(u64),
    /// The pool's first token, its reserves, and the current block.
    PoolState { token0: String, reserve0: u128, reserve1: u128, block_number: u64 },
    /// The most profitable front run found for the pool model.
    Optimal(i64),
}

/// Why reading stops at once (the caller panics with it).
#[derive(Clone, Copy, Debug, PartialEq, Eq, Structural)]
pub enum ReadAbort {
    /// A V2 router call that is not one of the six swaps.
    UnrecognisedFunction,
    /// A V2 path that does not start from WETH.
    InvalidPath,
    /// A V3 router call that is not `multicall`.
    UnrecognisedCall,
    /// The sender has already used the transaction's nonce.
    NonceTooLow,
    /// The 1inch pool's factory is none of the known ones.
    UnknownFactory,
    /// A V2 call with an empty path, or a recognised swap with a path of one token.
    ShortPath,
    /// A recognised swap whose call lacks the amount it fixes.
    MissingArgument,
    /// A 1inch call without pools.
    NoPools,
}

/// What the caller is to do next.
pub enum ReadAction {
    DecodeCall { kind: RouterKind },
    DecodeV3Inner,
    QuoteAmountsIn { router: V2Contract, amount_out: u128, path: Vec<String> },
    GetPair { factory: V2Contract, token_a: String, token_b: String },
    FetchPoolTokens { pool: String },
    FetchHopTokens { pools: Vec<String> },
    QuoteAmountIn { amount_out: u128, token_in: String, token_out: String },
    FetchFactory { pool: String },
    FetchAccountNonce,
    FetchPoolState { pool: String },
    FindOptimal { amm: V2AMM },
    Finish(Result<V2SwapTransaction, SwapError>),
    Abort(ReadAbort),
    Ignored,
}


pub open spec fn str_views(v: Seq<String>) -> Seq<Seq<char>> {
    v.map_values(|s: String| s@)
}

/// A `V2SwapTransaction` with its text as character sequences.
pub struct SwapView {
    pub tx_hash: [u8; 32],
    pub router: V2Contract,
    pub path: Seq<Seq<char>>,
    pub amount_in: i64,
    pub amount_out: i64,
    pub pool_address: Seq<char>,
    pub base_token: Seq<char>,
    pub token_address: Seq<char>,
    pub r0: i64,
    pub r1: i64,
    pub base_position: u8,
    pub delta_sand_on_block: u64,
    pub pair_address: Seq<char>,
    pub delta_sand: i64,
    pub abstract_profits: Option<i64>,
}

pub open spec fn swap_view(tx: V2SwapTransaction) -> SwapView {
    SwapView {
        tx_hash: tx.tx_hash,
        router: tx.router,
        path: str_views(tx.path@),
        amount_in: tx.amount_in,
        amount_out: tx.amount_out,
        pool_address: tx.pool_address@,
        base_token: tx.base_token@,
        token_address: tx.token_address@,
        r0: tx.r0,
        r1: tx.r1,
        base_position: tx.base_position,
        delta_sand_on_block: tx.delta_sand_on_block,
        pair_address: tx.pair_address@,
        delta_sand: tx.delta_sand,
        abstract_profits: tx.abstract_profits,
    }
}

pub open spec fn result_view(r: Result<V2SwapTransaction, SwapError>) -> Result<SwapView, SwapError> {
    match r {
        Ok(tx) => Ok(swap_view(tx)),
        Err(e) => Err(e),
    }
}

/// A `ReadAction` with its text as character sequences.
pub enum ReadActionView {
    DecodeCall { kind: RouterKind },
    DecodeV3Inner,
    QuoteAmountsIn { router: V2Contract, amount_out: u128, path: Seq<Seq<char>> },
    GetPair { factory: V2Contract, token_a: Seq<char>, token_b: Seq<char> },
    FetchPoolTokens { pool: Seq<char> },
    FetchHopTokens { pools: Seq<Seq<char>> },
    QuoteAmountIn { amount_out: u128, token_in: Seq<char>, token_out: Seq<char> },
    FetchFactory { pool: Seq<char> },
    FetchAccountNonce,
    FetchPoolState { pool: Seq<char> },
    FindOptimal { amm: V2AMM },
    Finish(Result<SwapView, SwapError>),
    Abort(ReadAbort),
    Ignored,
}

impl View for ReadAction {
    type V = ReadActionView;

    open spec fn view(&self) -> ReadActionView {
        match self {
            ReadAction::DecodeCall { kind } => ReadActionView::DecodeCall { kind: *kind },
            ReadAction::DecodeV3Inner => ReadActionView::DecodeV3Inner,
            ReadAction::QuoteAmountsIn { router, amount_out, path } => ReadActionView::QuoteAmountsIn {
                router: *router,
                amount_out: *amount_out,
                path: str_views(path@),
            },
            ReadAction::GetPair { factory, token_a, token_b } => ReadActionView::GetPair {
                factory: *factory,
                token_a: token_a@,
                token_b: token_b@,
            },
            ReadAction::FetchPoolTokens { pool } => ReadActionView::FetchPoolTokens { pool: pool@ },
            ReadAction::FetchHopTokens { pools } => ReadActionView::FetchHopTokens { pools: str_views(pools@) },
            ReadAction::QuoteAmountIn { amount_out, token_in, token_out } => ReadActionView::QuoteAmountIn {
                amount_out: *amount_out,
                token_in: token_in@,
                token_out: token_out@,
            },
            ReadAction::FetchFactory { pool } => ReadActionView::FetchFactory { pool: pool@ },
            ReadAction::FetchAccountNonce => ReadActionView::FetchAccountNonce,
            ReadAction::FetchPoolState { pool } => ReadActionView::FetchPoolState { pool: pool@ },
            ReadAction::FindOptimal { amm } => ReadActionView::FindOptimal { amm: *amm },
            ReadAction::Finish(r) => ReadActionView::Finish(result_view(*r)),
            ReadAction::Abort(a) => ReadActionView::Abort(*a),
            ReadAction::Ignored => ReadActionView::Ignored,
        }
    }
}

/// The reader's state.
pub struct SwapReader {
    pub ctx: ReaderContext,
    pub phase: ReadPhase,
    pub kind: RouterKind,
    pub router: V2Contract,
    pub factory: V2Contract,
    pub path: Vec<String>,
    pub amount_in: u128,
    pub amount_out: u128,
    pub pool_address: String,
    pub hop_pools: Vec<String>,
    pub token: String,
    /// The later 1inch pools, oriented.
    pub hops: Vec<(String, String)>,
    /// How many of `hops`, from the first, are still to be quoted.
    pub hops_left: usize,
    pub amm: V2AMM,
    /// The base token's position in the pool.
    pub base_position: u8,
    pub block_number: u64,
}

/// The reader's state with its text as character sequences.
pub struct ReaderView {
    pub ctx: ReaderContext,
    pub phase: ReadPhase,
    pub kind: RouterKind,
    pub router: V2Contract,
    pub factory: V2Contract,
    pub path: Seq<Seq<char>>,
    pub amount_in: u128,
    pub amount_out: u128,
    pub pool_address: Seq<char>,
    pub hop_pools: Seq<Seq<char>>,
    pub token: Seq<char>,
    pub hops: Seq<(Seq<char>, Seq<char>)>,
    pub hops_left: nat,
    pub amm: V2AMM,
    pub base_position: u8,
    pub block_number: u64,
}

impl View for SwapReader {
    type V = ReaderView;

    open spec fn view(&self) -> ReaderView {
        ReaderView {
            ctx: self.ctx,
            phase: self.phase,
            kind: self.kind,
            router: self.router,
            factory: self.factory,
            path: str_views(self.path@),
            amount_in: self.amount_in,
            amount_out: self.amount_out,
            pool_address: self.pool_address@,
            hop_pools: str_views(self.hop_pools@),
            token: self.token@,
            hops: pair_views(self.hops@),
            hops_left: self.hops_left as nat,
            amm: self.amm,
            base_position: self.base_position,
            block_number: self.block_number,
        }
    }
}

pub open spec fn fits_amm(x: u128) -> bool {
    x <= i64::MAX
}

/// The reader stops: `Done`, asking for `action`.
pub open spec fn stop(v: ReaderView, action: ReadActionView) -> (ReaderView, ReadActionView) {
    (ReaderView { phase: ReadPhase::Done, ..v }, action)
}

/// `Begin`: a transaction to a known router asks for its call to be decoded
/// with that router's interface; any other is no swap.
pub open spec fn on_begin(v: ReaderView) -> (ReaderView, ReadActionView) {
    match spec_router_kind(v.ctx.to@, v.ctx.routers) {
        None => stop(v, ReadActionView::Finish(Err(SwapError::RouterNotValid))),
        Some(kind) => (ReaderView { phase: ReadPhase::AwaitCall, kind, ..v }, ReadActionView::DecodeCall { kind }),
    }
}

/// After a V2 swap is read: a path of more than two tokens is requoted, a
/// path of two leads to the pool of its tokens, a shorter one stops the reader.
pub open spec fn after_v2_plan(v: ReaderView) -> (ReaderView, ReadActionView) {
    if v.path.len() > 2 {
        (
            ReaderView { phase: ReadPhase::AwaitAmountsIn, ..v },
            ReadActionView::QuoteAmountsIn {
                router: v.router,
                amount_out: v.amount_out,
                path: v.path.subrange(1, v.path.len() as int),
            },
        )
    } else if v.path.len() < 2 {
        stop(v, ReadActionView::Abort(ReadAbort::ShortPath))
    } else {
        (
            ReaderView { phase: ReadPhase::AwaitPair, ..v },
            ReadActionView::GetPair { factory: v.factory, token_a: v.path[0], token_b: v.path[1] },
        )
    }
}

/// A call to a V2-style router, read through `router` and `factory`: it must
/// be one of the six swaps (else abort), along a path that exists (else
/// abort) and starts from WETH (else abort), and carry the amounts its
/// function fixes (else abort); the swap's path and amounts are then kept.
pub open spec fn on_v2_call(
    v: ReaderView,
    fn_name: Seq<char>,
    args: V2CallArgs,
    router: V2Contract,
    factory: V2Contract,
) -> (ReaderView, ReadActionView) {
    match spec_v2_function(fn_name) {
        None => stop(v, ReadActionView::Abort(ReadAbort::UnrecognisedFunction)),
        Some(f) => {
            let amounts = spec_v2_amounts(f, v.ctx.tx_value, args);
            if args.path@.len() == 0 {
                stop(v, ReadActionView::Abort(ReadAbort::ShortPath))
            } else if !same_address(args.path@[0]@, v.ctx.weth@) {
                stop(v, ReadActionView::Abort(ReadAbort::InvalidPath))
            } else if amounts.0 is None || amounts.1 is None {
                stop(v, ReadActionView::Abort(ReadAbort::MissingArgument))
            } else {
                after_v2_plan(
                    ReaderView {
                        router,
                        factory,
                        path: str_views(args.path@),
                        amount_in: amounts.0->0,
                        amount_out: amounts.1->0,
                        ..v
                    },
                )
            }
        },
    }
}

/// A call to the V3 router: only `multicall` goes on, to the decoding of its
/// first inner call; any other call aborts.
pub open spec fn on_v3_call(v: ReaderView, fn_name: Seq<char>) -> (ReaderView, ReadActionView) {
    if fn_name == "multicall"@ {
        (ReaderView { phase: ReadPhase::AwaitV3Inner, ..v }, ReadActionView::DecodeV3Inner)
    } else {
        stop(v, ReadActionView::Abort(ReadAbort::UnrecognisedCall))
    }
}

/// The checksummed addresses of the pools after the first.
pub open spec fn later_pools(args: InchCallArgs) -> Seq<Seq<char>> {
    Seq::new(
        (args.pools@.len() - 1) as nat,
        |k: int| eip55_text(spec_pool_word_address(args.pools@[k + 1]@)),
    )
}

/// A call to the 1inch router: it must be `unoswap` or `unoswapWithPermit`
/// (else no swap), from ETH (else no swap), and name a pool (else abort); the
/// first pool's tokens are then asked for.
pub open spec fn on_inch_call(v: ReaderView, fn_name: Seq<char>, args: InchCallArgs) -> (ReaderView, ReadActionView) {
    if !(fn_name == "unoswap"@ || fn_name == "unoswapWithPermit"@) {
        stop(v, ReadActionView::Finish(Err(SwapError::IncorrectFunction)))
    } else if !same_address(args.src_token@, crate::swap_tx::zero_address()) {
        stop(v, ReadActionView::Finish(Err(SwapError::SourceTokenNotEth)))
    } else if args.pools@.len() == 0 {
        stop(v, ReadActionView::Abort(ReadAbort::NoPools))
    } else {
        let pool = eip55_text(spec_pool_word_address(args.pools@[0]@));
        (
            ReaderView {
                phase: ReadPhase::AwaitPoolTokens,
                pool_address: pool,
                amount_in: args.amount,
                amount_out: args.min_return,
                hop_pools: later_pools(args),
                ..v
            },
            ReadActionView::FetchPoolTokens { pool },
        )
    }
}

/// The first 1inch pool's tokens: the one that is not WETH is the token
/// bought; the later pools' tokens are asked for, or, without later pools,
/// the first pool's factory.
pub open spec fn on_pool_tokens(v: ReaderView, token0: Seq<char>, token1: Seq<char>) -> (ReaderView, ReadActionView) {
    let token = if same_address(token0, v.ctx.weth@) {
        token1
    } else {
        token0
    };
    if v.hop_pools.len() > 0 {
        (
            ReaderView { phase: ReadPhase::AwaitHopTokens, token, ..v },
            ReadActionView::FetchHopTokens { pools: v.hop_pools },
        )
    } else {
        (ReaderView { phase: ReadPhase::AwaitFactory, token, ..v }, ReadActionView::FetchFactory { pool: v.pool_address })
    }
}

/// While hops are left, the last one not yet quoted is quoted for the amount
/// out; then the first pool's factory is asked for.
pub open spec fn next_hop_or_factory(v: ReaderView) -> (ReaderView, ReadActionView) {
    if v.hops_left > 0 {
        (
            ReaderView { phase: ReadPhase::AwaitHopQuote, ..v },
            ReadActionView::QuoteAmountIn {
                amount_out: v.amount_out,
                token_in: v.hops[v.hops_left - 1].0,
                token_out: v.hops[v.hops_left - 1].1,
            },
        )
    } else {
        (ReaderView { phase: ReadPhase::AwaitFactory, ..v }, ReadActionView::FetchFactory { pool: v.pool_address })
    }
}

/// The later pools' tokens: the route is oriented from the token bought, and
/// its hops are all still to be quoted.
pub open spec fn on_hop_tokens(v: ReaderView, pairs: Seq<(Seq<char>, Seq<char>)>) -> (ReaderView, ReadActionView) {
    let hops = spec_oriented_hops(lowercase(v.token), pairs);
    next_hop_or_factory(ReaderView { hops, hops_left: hops.len(), ..v })
}

/// The first pool's factory picks the router (an unknown one aborts); the
/// path becomes WETH then the token bought.
pub open spec fn on_factory(v: ReaderView, factory: Seq<char>) -> (ReaderView, ReadActionView) {
    match spec_router_for_factory(factory, v.ctx.factories) {
        None => stop(v, ReadActionView::Abort(ReadAbort::UnknownFactory)),
        Some(router) => (
            ReaderView { phase: ReadPhase::AwaitAccountNonce, router, path: seq![v.ctx.weth@, v.token], ..v },
            ReadActionView::FetchAccountNonce,
        ),
    }
}

/// The sender's transaction count: above the transaction's nonce it aborts
/// (the transaction is stale); else the pool's state is asked for.
pub open spec fn on_account_nonce(v: ReaderView, count: u64) -> (ReaderView, ReadActionView) {
    if v.ctx.tx_nonce < count {
        stop(v, ReadActionView::Abort(ReadAbort::NonceTooLow))
    } else {
        (ReaderView { phase: ReadPhase::AwaitPoolState, ..v }, ReadActionView::FetchPoolState { pool: v.pool_address })
    }
}

/// The pool's state: with every quantity within `i64`, the pool model holds
/// the reserves with the base token's first, and the swap's amounts; the best
/// front run for it is asked for.
pub open spec fn on_pool_state(
    v: ReaderView,
    token0: Seq<char>,
    reserve0: u128,
    reserve1: u128,
    block_number: u64,
) -> (ReaderView, ReadActionView) {
    if !(fits_amm(reserve0) && fits_amm(reserve1) && fits_amm(v.amount_in) && fits_amm(v.amount_out)) {
        stop(v, ReadActionView::Finish(Err(SwapError::AmountOutOfRange)))
    } else {
        let base_first = same_address(token0, v.path[0]);
        let amm = V2AMM {
            initial_reserves_eth: (if base_first { reserve0 } else { reserve1 }) as i64,
            initial_reserves_token: (if base_first { reserve1 } else { reserve0 }) as i64,
            swap_eth_in: v.amount_in as i64,
            swap_token_out: v.amount_out as i64,
            fee: 0,
        };
        (
            ReaderView {
                phase: ReadPhase::AwaitOptimal,
                amm,
                base_position: if base_first {
                    0
                } else {
                    1
                },
                block_number,
                ..v
            },
            ReadActionView::FindOptimal { amm },
        )
    }
}

/// The opportunity once the front run is sized.
pub open spec fn opportunity_view(v: ReaderView, optimal: i64) -> SwapView {
    let size_delta = if optimal > v.ctx.upper_bound_sand {
        0
    } else {
        optimal
    };
    SwapView {
        tx_hash: v.ctx.tx_hash,
        router: v.router,
        path: v.path,
        amount_in: v.amm.swap_eth_in,
        amount_out: v.amm.swap_token_out,
        pool_address: v.pool_address,
        base_token: v.path[0],
        token_address: v.path[1],
        r0: v.amm.initial_reserves_eth,
        r1: v.amm.initial_reserves_token,
        base_position: v.base_position,
        delta_sand_on_block: v.block_number,
        pair_address: v.pool_address,
        delta_sand: size_delta,
        abstract_profits: if v.amm.abstract_profits_defined(size_delta as int) {
            Some(v.amm.abstract_profits_spec(size_delta as int) as i64)
        } else {
            None
        },
    }
}

/// The transition: each phase takes the event it waits for, by the rule of
/// that event; any other event changes nothing.
pub open spec fn reader_next(v: ReaderView, e: ReaderEvent) -> (ReaderView, ReadActionView) {
    match (v.phase, e) {
        (ReadPhase::Start, ReaderEvent::Begin) => on_begin(v),
        (ReadPhase::AwaitCall, ReaderEvent::V2Call { fn_name, args }) => match spec_v2_contracts(v.kind) {
            Some((router, factory)) if v.kind != RouterKind::UniswapV3 => on_v2_call(
                v,
                fn_name@,
                args,
                router,
                factory,
            ),
            _ => (v, ReadActionView::Ignored),
        },
        (ReadPhase::AwaitCall, ReaderEvent::V3Call { fn_name }) if v.kind == RouterKind::UniswapV3 => on_v3_call(
            v,
            fn_name@,
        ),
        (ReadPhase::AwaitV3Inner, ReaderEvent::V2Call { fn_name, args }) => on_v2_call(
            v,
            fn_name@,
            args,
            V2Contract::UniRouter,
            V2Contract::UniFactory,
        ),
        (ReadPhase::AwaitAmountsIn, ReaderEvent::AmountsIn(x)) => (
            ReaderView { phase: ReadPhase::AwaitPair, amount_out: x, ..v },
            ReadActionView::GetPair { factory: v.factory, token_a: v.path[0], token_b: v.path[1] },
        ),
        (ReadPhase::AwaitPair, ReaderEvent::Pair(pool)) => (
            ReaderView { phase: ReadPhase::AwaitAccountNonce, pool_address: pool@, ..v },
            ReadActionView::FetchAccountNonce,
        ),
        (ReadPhase::AwaitCall, ReaderEvent::InchCall { fn_name, inch_args }) if v.kind == RouterKind::OneInch => on_inch_call(
            v,
            fn_name@,
            inch_args,
        ),
        (ReadPhase::AwaitPoolTokens, ReaderEvent::PoolTokens { token0, token1 }) => on_pool_tokens(
            v,
            token0@,
            token1@,
        ),
        (ReadPhase::AwaitHopTokens, ReaderEvent::HopTokens(pairs)) => on_hop_tokens(v, pair_views(pairs@)),
        (ReadPhase::AwaitHopQuote, ReaderEvent::HopQuote(x)) => next_hop_or_factory(
            ReaderView { amount_out: x, hops_left: (v.hops_left - 1) as nat, ..v },
        ),
        (ReadPhase::AwaitFactory, ReaderEvent::Factory(f)) => on_factory(v, f@),
        (ReadPhase::AwaitAccountNonce, ReaderEvent::AccountNonce(n)) => on_account_nonce(v, n),
        (ReadPhase::AwaitPoolState, ReaderEvent::PoolState { token0, reserve0, reserve1, block_number }) => on_pool_state(
            v,
            token0@,
            reserve0,
            reserve1,
            block_number,
        ),
        (ReadPhase::AwaitOptimal, ReaderEvent::Optimal(x)) => stop(
            v,
            ReadActionView::Finish(Ok(opportunity_view(v, x))),
        ),
        _ => (v, ReadActionView::Ignored),
    }
}

/// What holds of every state the reader reaches: the path and the hop count
/// that later steps index into are long enough, and once a swap is read its
/// path starts from WETH, case aside.
pub open spec fn reader_inv(v: ReaderView) -> bool {
    &&& v.phase == ReadPhase::AwaitAmountsIn ==> v.path.len() >= 3
    &&& (v.phase == ReadPhase::AwaitPair || v.phase == ReadPhase::AwaitAccountNonce || v.phase
        == ReadPhase::AwaitPoolState || v.phase == ReadPhase::AwaitOptimal) ==> v.path.len() >= 2
    &&& v.phase == ReadPhase::AwaitHopQuote ==> 0 < v.hops_left <= v.hops.len()
    &&& (v.phase == ReadPhase::AwaitAmountsIn || v.phase == ReadPhase::AwaitPair || v.phase
        == ReadPhase::AwaitAccountNonce || v.phase == ReadPhase::AwaitPoolState || v.phase
        == ReadPhase::AwaitOptimal) ==> same_address(v.path[0], v.ctx.weth@)
}

/// Copies of the texts in `v`.
fn clone_strings(v: &Vec<String>) -> (r: Vec<String>)
    ensures
        r@ == v@,
{
    let mut r: Vec<String> = Vec::new();
    let mut i: usize = 0;
    while i < v.len()
        invariant
            0 <= i <= v@.len(),
            r@ == v@.subrange(0, i as int),
        decreases v@.len() - i,
    {
        r.push(v[i].clone());
        i = i + 1;
        assert(r@ =~= v@.subrange(0, i as int));
    }
    assert(r@ =~= v@);
    r
}

impl SwapReader {
    /// A reader at the start; feed it `Begin`.
    pub fn new(ctx: ReaderContext) -> (r: SwapReader)
        ensures
            r@.ctx == ctx,
            r@.phase == ReadPhase::Start,
            reader_inv(r@),
    {
        SwapReader {
            ctx,
            phase: ReadPhase::Start,
            kind: RouterKind::Uniswap,
            router: V2Contract::UniRouter,
            factory: V2Contract::UniFactory,
            path: Vec::new(),
            amount_in: 0,
            amount_out: 0,
            pool_address: String::new(),
            hop_pools: Vec::new(),
            token: String::new(),
            hops: Vec::new(),
            hops_left: 0,
            amm: V2AMM::new(0, 0, 0, 0),
            base_position: 0,
            block_number: 0,
        }
    }

    fn after_plan(self) -> (r: (SwapReader, ReadAction))
        requires
            self@.path.len() >= 1 ==> same_address(self@.path[0], self@.ctx.weth@),
        ensures
            (r.0@, r.1@) == after_v2_plan(self@),
            reader_inv(r.0@),
    {
        let n = self.path.len();
        if n > 2 {
            let mut tail: Vec<String> = Vec::new();
            let mut i: usize = 1;
            while i < n
                invariant
                    n == self.path@.len(),
                    1 <= i <= n,
                    tail@ == self.path@.subrange(1, i as int),
                decreases n - i,
            {
                tail.push(self.path[i].clone());
                i = i + 1;
                assert(tail@ =~= self.path@.subrange(1, i as int));
            }
            assert(str_views(tail@) =~= str_views(self.path@).subrange(1, n as int));
            let router = self.router;
            let amount_out = self.amount_out;
            (
                SwapReader { phase: ReadPhase::AwaitAmountsIn, ..self },
                ReadAction::QuoteAmountsIn { router, amount_out, path: tail },
            )
        } else if n < 2 {
            (SwapReader { phase: ReadPhase::Done, ..self }, ReadAction::Abort(ReadAbort::ShortPath))
        } else {
            let token_a = self.path[0].clone();
            let token_b = self.path[1].clone();
            let factory = self.factory;
            (
                SwapReader { phase: ReadPhase::AwaitPair, ..self },
                ReadAction::GetPair { factory, token_a, token_b },
            )
        }
    }

    fn on_v2(self, fn_name: String, args: V2CallArgs, router: V2Contract, factory: V2Contract) -> (r: (
        SwapReader,
        ReadAction,
    ))
        ensures
            (r.0@, r.1@) == on_v2_call(self@, fn_name@, args, router, factory),
            reader_inv(r.0@),
    {
        let f = match v2_function(fn_name.as_str()) {
            None => {
                return (
                    SwapReader { phase: ReadPhase::Done, ..self },
                    ReadAction::Abort(ReadAbort::UnrecognisedFunction),
                );
            },
            Some(f) => f,
        };
        if args.path.len() == 0 {
            return (SwapReader { phase: ReadPhase::Done, ..self }, ReadAction::Abort(ReadAbort::ShortPath));
        }
        if !addresses_match(args.path[0].as_str(), self.ctx.weth.as_str()) {
            return (SwapReader { phase: ReadPhase::Done, ..self }, ReadAction::Abort(ReadAbort::InvalidPath));
        }
        let present = match f {
            crate::swap_tx::V2Function::SwapEthForExactTokens => args.amount_out.is_some(),
            crate::swap_tx::V2Function::SwapExactEthForTokens => args.amount_out_min.is_some(),
            crate::swap_tx::V2Function::SwapExactTokensForEth
            | crate::swap_tx::V2Function::SwapExactTokensForTokens => args.amount_in.is_some()
                && args.amount_out_min.is_some(),
            crate::swap_tx::V2Function::SwapExactTokensForExactEth
            | crate::swap_tx::V2Function::SwapTokensForExactTokens => args.amount_in_max.is_some()
                && args.amount_out.is_some(),
        };
        if !present {
            return (
                SwapReader { phase: ReadPhase::Done, ..self },
                ReadAction::Abort(ReadAbort::MissingArgument),
            );
        }
        let plan = match check_uni(fn_name.as_str(), self.ctx.tx_value, args, self.ctx.weth.as_str()) {
            Ok(plan) => plan,
            Err(_) => {
                // The checks above leave `check_uni` nothing to refuse.
                proof {
                    assert(false);
                }
                return (SwapReader { phase: ReadPhase::Done, ..self }, ReadAction::Ignored);
            },
        };
        let next = SwapReader {
            router,
            factory,
            path: plan.path,
            amount_in: plan.amount_in,
            amount_out: plan.amount_out,
            ..self
        };
        next.after_plan()
    }

    fn hop_or_factory(self) -> (r: (SwapReader, ReadAction))
        requires
            self.hops_left <= self.hops@.len(),
        ensures
            (r.0@, r.1@) == next_hop_or_factory(self@),
            reader_inv(r.0@),
    {
        if self.hops_left > 0 {
            let k = self.hops_left - 1;
            let token_in = self.hops[k].0.clone();
            let token_out = self.hops[k].1.clone();
            let amount_out = self.amount_out;
            (
                SwapReader { phase: ReadPhase::AwaitHopQuote, ..self },
                ReadAction::QuoteAmountIn { amount_out, token_in, token_out },
            )
        } else {
            let pool = self.pool_address.clone();
            (SwapReader { phase: ReadPhase::AwaitFactory, ..self }, ReadAction::FetchFactory { pool })
        }
    }
}

impl SwapReader {
    /// Takes one event; returns the next state and what to do.
    pub fn step(self, event: ReaderEvent) -> (r: (SwapReader, ReadAction))
        requires
            reader_inv(self@),
        ensures
            (r.0@, r.1@) == reader_next(self@, event),
            reader_inv(r.0@),
    {
        match (self.phase, event) {
            (ReadPhase::Start, ReaderEvent::Begin) => match classify_router(self.ctx.to.as_str(), &self.ctx.routers) {
                Err(e) => (SwapReader { phase: ReadPhase::Done, ..self }, ReadAction::Finish(Err(e))),
                Ok(kind) => (SwapReader { phase: ReadPhase::AwaitCall, kind, ..self }, ReadAction::DecodeCall { kind }),
            },
            (ReadPhase::AwaitCall, ReaderEvent::V2Call { fn_name, args }) => {
                if self.kind == RouterKind::UniswapV3 {
                    return (self, ReadAction::Ignored);
                }
                match v2_contracts(self.kind) {
                    Some((router, factory)) => self.on_v2(fn_name, args, router, factory),
                    None => (self, ReadAction::Ignored),
                }
            },
            (ReadPhase::AwaitCall, ReaderEvent::V3Call { fn_name }) => {
                if self.kind != RouterKind::UniswapV3 {
                    (self, ReadAction::Ignored)
                } else {
                    match check_v3(fn_name.as_str()) {
                        Ok(()) => (SwapReader { phase: ReadPhase::AwaitV3Inner, ..self }, ReadAction::DecodeV3Inner),
                        Err(_) => (
                            SwapReader { phase: ReadPhase::Done, ..self },
                            ReadAction::Abort(ReadAbort::UnrecognisedCall),
                        ),
                    }
                }
            },
            (ReadPhase::AwaitV3Inner, ReaderEvent::V2Call { fn_name, args }) => self.on_v2(
                fn_name,
                args,
                V2Contract::UniRouter,
                V2Contract::UniFactory,
            ),
            (ReadPhase::AwaitAmountsIn, ReaderEvent::AmountsIn(x)) => {
                let token_a = self.path[0].clone();
                let token_b = self.path[1].clone();
                let factory = self.factory;
                (
                    SwapReader { phase: ReadPhase::AwaitPair, amount_out: x, ..self },
                    ReadAction::GetPair { factory, token_a, token_b },
                )
            },
            (ReadPhase::AwaitPair, ReaderEvent::Pair(pool)) => (
                SwapReader { phase: ReadPhase::AwaitAccountNonce, pool_address: pool, ..self },
                ReadAction::FetchAccountNonce,
            ),
            (ReadPhase::AwaitCall, ReaderEvent::InchCall { fn_name, inch_args: args }) => {
                if self.kind != RouterKind::OneInch {
                    return (self, ReadAction::Ignored);
                }
                match check_inch(fn_name.as_str(), &args) {
                    Err(SwapError::NoPools) => (
                        SwapReader { phase: ReadPhase::Done, ..self },
                        ReadAction::Abort(ReadAbort::NoPools),
                    ),
                    Err(e) => (SwapReader { phase: ReadPhase::Done, ..self }, ReadAction::Finish(Err(e))),
                    Ok(plan) => {
                        let pool = plan.pool_address.clone();
                        assert(str_views(plan.hop_pools@) =~= later_pools(args));
                        (
                            SwapReader {
                                phase: ReadPhase::AwaitPoolTokens,
                                pool_address: plan.pool_address,
                                amount_in: plan.amount_in,
                                amount_out: plan.amount_out,
                                hop_pools: plan.hop_pools,
                                ..self
                            },
                            ReadAction::FetchPoolTokens { pool },
                        )
                    },
                }
            },
            (ReadPhase::AwaitPoolTokens, ReaderEvent::PoolTokens { token0, token1 }) => {
                let token = other_token(&token0, &token1, self.ctx.weth.as_str());
                if self.hop_pools.len() > 0 {
                    let pools = clone_strings(&self.hop_pools);
                    (
                        SwapReader { phase: ReadPhase::AwaitHopTokens, token, ..self },
                        ReadAction::FetchHopTokens { pools },
                    )
                } else {
                    let pool = self.pool_address.clone();
                    (
                        SwapReader { phase: ReadPhase::AwaitFactory, token, ..self },
                        ReadAction::FetchFactory { pool },
                    )
                }
            },
            (ReadPhase::AwaitHopTokens, ReaderEvent::HopTokens(pairs)) => {
                let hops = orient_hops(self.token.as_str(), &pairs);
                let n = hops.len();
                proof {
                    assert(pair_views(hops@).len() == hops@.len());
                }
                SwapReader { hops, hops_left: n, ..self }.hop_or_factory()
            },
            (ReadPhase::AwaitHopQuote, ReaderEvent::HopQuote(x)) => {
                let left = self.hops_left - 1;
                SwapReader { amount_out: x, hops_left: left, ..self }.hop_or_factory()
            },
            (ReadPhase::AwaitFactory, ReaderEvent::Factory(f)) => match router_for_factory(
                f.as_str(),
                &self.ctx.factories,
            ) {
                Err(_) => (SwapReader { phase: ReadPhase::Done, ..self }, ReadAction::Abort(ReadAbort::UnknownFactory)),
                Ok(router) => {
                    let mut path: Vec<String> = Vec::new();
                    path.push(self.ctx.weth.clone());
                    path.push(self.token.clone());
                    assert(str_views(path@) =~= seq![self.ctx.weth@, self.token@]);
                    (
                        SwapReader { phase: ReadPhase::AwaitAccountNonce, router, path, ..self },
                        ReadAction::FetchAccountNonce,
                    )
                },
            },
            (ReadPhase::AwaitAccountNonce, ReaderEvent::AccountNonce(n)) => match check_nonce(self.ctx.tx_nonce, n) {
                Err(_) => (SwapReader { phase: ReadPhase::Done, ..self }, ReadAction::Abort(ReadAbort::NonceTooLow)),
                Ok(()) => {
                    let pool = self.pool_address.clone();
                    (
                        SwapReader { phase: ReadPhase::AwaitPoolState, ..self },
                        ReadAction::FetchPoolState { pool },
                    )
                },
            },
            (ReadPhase::AwaitPoolState, ReaderEvent::PoolState { token0, reserve0, reserve1, block_number }) => {
                let limit: u128 = i64::MAX as u128;
                if reserve0 > limit || reserve1 > limit || self.amount_in > limit || self.amount_out > limit {
                    return (
                        SwapReader { phase: ReadPhase::Done, ..self },
                        ReadAction::Finish(Err(SwapError::AmountOutOfRange)),
                    );
                }
                let (r0, r1, base_position) = orient_pool(
                    token0.as_str(),
                    self.path[0].as_str(),
                    reserve0 as i64,
                    reserve1 as i64,
                );
                let amm = V2AMM::new(r0, r1, self.amount_in as i64, self.amount_out as i64);
                (
                    SwapReader { phase: ReadPhase::AwaitOptimal, amm, base_position, block_number, ..self },
                    ReadAction::FindOptimal { amm },
                )
            },
            (ReadPhase::AwaitOptimal, ReaderEvent::Optimal(x)) => {
                let size = size_sandwich(&self.amm, x, self.ctx.upper_bound_sand);
                let tx = V2SwapTransaction {
                    tx_hash: self.ctx.tx_hash,
                    router: self.router,
                    path: clone_strings(&self.path),
                    amount_in: self.amm.swap_eth_in,
                    amount_out: self.amm.swap_token_out,
                    pool_address: self.pool_address.clone(),
                    base_token: self.path[0].clone(),
                    token_address: self.path[1].clone(),
                    r0: self.amm.initial_reserves_eth,
                    r1: self.amm.initial_reserves_token,
                    base_position: self.base_position,
                    delta_sand_on_block: self.block_number,
                    pair_address: self.pool_address.clone(),
                    delta_sand: size.delta_sand,
                    abstract_profits: size.abstract_profits,
                };
                (SwapReader { phase: ReadPhase::Done, ..self }, ReadAction::Finish(Ok(tx)))
            },
            (phase, event) => (SwapReader { phase, ..self }, ReadAction::Ignored),
        }
    }
}

/// Feeding `events` to the reader one by one: the final state and the actions asked for.
pub open spec fn reader_run(v: ReaderView, events: Seq<ReaderEvent>) -> (ReaderView, Seq<ReadActionView>)
    decreases events.len(),
{
    if events.len() == 0 {
        (v, Seq::empty())
    } else {
        let (w, a) = reader_next(v, events[0]);
        let (u, rest) = reader_run(w, events.drop_first());
        (u, seq![a] + rest)
    }
}

/// Every step keeps the reader's invariant and its context.
pub proof fn lemma_reader_inv_step(v: ReaderView, e: ReaderEvent)
    requires
        reader_inv(v),
    ensures
        reader_inv(reader_next(v, e).0),
        reader_next(v, e).0.ctx == v.ctx,
        reader_next(v, e).1 is Ignored ==> reader_next(v, e).0 == v,
{
}

/// An opportunity is a swap out of WETH: its base token is WETH up to case
/// and heads its path, its pair is its pool, its front run is the best one
/// found unless that exceeds the bound, in which case it is nothing, and its
/// profit is the pool model's for that front run.
pub proof fn lemma_reader_opportunity(v: ReaderView, e: ReaderEvent)
    requires
        reader_inv(v),
        reader_next(v, e).1 matches ReadActionView::Finish(Ok(_)),
    ensures
        ({
            let tx = reader_next(v, e).1->Finish_0->Ok_0;
            &&& e matches ReaderEvent::Optimal(x)
            &&& same_address(tx.base_token, v.ctx.weth@)
            &&& tx.path.len() >= 2 && tx.path[0] == tx.base_token && tx.path[1] == tx.token_address
            &&& tx.pair_address == tx.pool_address
            &&& tx.delta_sand == if x > v.ctx.upper_bound_sand {
                0
            } else {
                x
            }
            &&& tx.abstract_profits matches Some(p) ==> p == v.amm.abstract_profits_spec(tx.delta_sand as int)
        }),
{
}

/// A reader that is done asks for nothing more.
pub proof fn lemma_reader_done_idle(v: ReaderView, events: Seq<ReaderEvent>)
    requires
        v.phase == ReadPhase::Done,
    ensures
        forall|k: int| 0 <= k < reader_run(v, events).1.len() ==> #[trigger] reader_run(v, events).1[k] is Ignored,
        reader_run(v, events).1.len() == events.len(),
    decreases events.len(),
{
    if events.len() > 0 {
        lemma_reader_done_idle(reader_next(v, events[0]).0, events.drop_first());
        let acts = reader_run(v, events).1;
        let rest = reader_run(reader_next(v, events[0]).0, events.drop_first()).1;
        assert forall|k: int| 0 <= k < acts.len() implies #[trigger] acts[k] is Ignored by {
            if k > 0 {
                assert(acts[k] == rest[k - 1]);
            }
        }
    }
}

proof fn lemma_reader_run_len(v: ReaderView, events: Seq<ReaderEvent>)
    ensures
        reader_run(v, events).1.len() == events.len(),
    decreases events.len(),
{
    if events.len() > 0 {
        lemma_reader_run_len(reader_next(v, events[0]).0, events.drop_first());
    }
}

/// An opportunity comes out of a run only after the sender's transaction
/// count was fetched and found not above the transaction's nonce.
pub proof fn lemma_reader_nonce_checked(v: ReaderView, events: Seq<ReaderEvent>, j: int)
    requires
        v.phase != ReadPhase::AwaitPoolState,
        v.phase != ReadPhase::AwaitOptimal,
        0 <= j < reader_run(v, events).1.len(),
        reader_run(v, events).1[j] matches ReadActionView::Finish(Ok(_)),
    ensures
        exists|k: int|
            0 <= k < j && (#[trigger] events[k] matches ReaderEvent::AccountNonce(n) && n <= v.ctx.tx_nonce),
    decreases events.len(),
{
    let w = reader_next(v, events[0]).0;
    let a = reader_next(v, events[0]).1;
    let acts = reader_run(v, events).1;
    let rest = reader_run(w, events.drop_first()).1;
    lemma_reader_run_len(v, events);
    assert(acts[0] == a);
    assert(j > 0);
    assert(acts[j] == rest[j - 1]);
    if w.phase == ReadPhase::AwaitPoolState {
        assert(events[0] matches ReaderEvent::AccountNonce(n) && n <= v.ctx.tx_nonce);
    } else if w.phase == ReadPhase::Done {
        lemma_reader_done_idle(w, events.drop_first());
    } else {
        assert(w.ctx == v.ctx);
        lemma_reader_nonce_checked(w, events.drop_first(), j - 1);
        let k = choose|k: int|
            0 <= k < j - 1 && (#[trigger] events.drop_first()[k] matches ReaderEvent::AccountNonce(n) && n
                <= w.ctx.tx_nonce);
        assert(events[k + 1] == events.drop_first()[k]);
    }
}

/// The pool the reader looks up is always that of the path's first two
/// tokens (WETH and the token bought, which the opportunity later records as
/// `token_address`), through the factory of the call's router, whatever the
/// path's length: a path of three or more tokens is first requoted along its
/// tail, for the call's amount out, and the requoted amount replaces it. The
/// path itself changes only when a call or a factory is read.
pub proof fn lemma_reader_pair_of_first_two_tokens(v: ReaderView, e: ReaderEvent)
    requires
        reader_inv(v),
    ensures
        ({
            let (w, a) = reader_next(v, e);
            &&& a matches ReadActionView::GetPair { factory, token_a, token_b } ==> {
                &&& w.path.len() >= 2
                &&& token_a == w.path[0] && token_b == w.path[1]
                &&& factory == w.factory
                &&& w.phase == ReadPhase::AwaitPair
            }
            &&& a matches ReadActionView::QuoteAmountsIn { router, amount_out, path } ==> {
                &&& w.path.len() >= 3
                &&& path == w.path.subrange(1, w.path.len() as int)
                &&& router == w.router && amount_out == w.amount_out
            }
            &&& e matches ReaderEvent::V2Call { args, .. } ==> ((a is GetPair || a is QuoteAmountsIn) ==> w.path
                == str_views(args.path@))
            &&& e matches ReaderEvent::AmountsIn(x) ==> (v.phase == ReadPhase::AwaitAmountsIn ==> {
                &&& w.path == v.path && w.factory == v.factory
                &&& w.amount_out == x
                &&& a is GetPair
            })
            &&& !(e is V2Call || e is Factory) ==> w.path == v.path
        }),
{
}

/// The later pools of a 1inch route are requoted backwards: the first quote
/// is of the last oriented hop, for the swap's amount out; each later quote
/// is of the hop before the one just quoted, for the amount in that the
/// previous quote answered; after the first hop the factory is asked for.
pub proof fn lemma_reader_hops_quoted_backwards(v: ReaderView, e: ReaderEvent)
    requires
        reader_inv(v),
    ensures
        ({
            let (w, a) = reader_next(v, e);
            &&& a matches ReadActionView::QuoteAmountIn { amount_out, token_in, token_out } ==> {
                &&& w.phase == ReadPhase::AwaitHopQuote
                &&& 0 < w.hops_left <= w.hops.len()
                &&& (token_in, token_out) == w.hops[w.hops_left - 1]
                &&& amount_out == w.amount_out
                &&& v.phase == ReadPhase::AwaitHopTokens ==> {
                    &&& w.hops_left == w.hops.len()
                    &&& (token_in, token_out) == w.hops[w.hops.len() - 1]
                    &&& amount_out == v.amount_out
                }
                &&& v.phase == ReadPhase::AwaitHopQuote ==> {
                    &&& w.hops == v.hops
                    &&& w.hops_left + 1 == v.hops_left
                    &&& (token_in, token_out) == v.hops[v.hops_left - 2]
                    &&& e matches ReaderEvent::HopQuote(x) && amount_out == x
                }
            }
            &&& e matches ReaderEvent::HopTokens(pairs) ==> (v.phase == ReadPhase::AwaitHopTokens ==> w.hops
                == spec_oriented_hops(lowercase(v.token), pair_views(pairs@)))
            &&& e matches ReaderEvent::HopQuote(x) ==> ((v.phase == ReadPhase::AwaitHopQuote && v.hops_left == 1)
                ==> {
                &&& a == ReadActionView::FetchFactory { pool: v.pool_address }
                &&& w.amount_out == x
            })
        }),
{
    lemma_reader_inv_step(v, e);
}

/// The pool model holds the WETH side of the pool as its ETH reserve: when
/// the pool's first token is the path's first (WETH), its first reserve is
/// the ETH reserve and the base position is 0; otherwise the reserves are
/// swapped and the base position is 1. The victim's amounts are those read
/// from its call, and the fee factor is zero.
pub proof fn lemma_reader_pool_oriented(v: ReaderView, e: ReaderEvent)
    requires
        reader_inv(v),
    ensures
        e matches ReaderEvent::PoolState { token0, reserve0, reserve1, block_number } ==> (
        reader_next(v, e).1 matches ReadActionView::FindOptimal { amm } ==> {
            let w = reader_next(v, e).0;
            &&& v.phase == ReadPhase::AwaitPoolState
            &&& w.amm == amm
            &&& amm.swap_eth_in as int == v.amount_in && amm.swap_token_out as int == v.amount_out
            &&& amm.fee == 0
            &&& w.block_number == block_number
            &&& same_address(token0@, v.path[0]) ==> amm.initial_reserves_eth as int == reserve0
                && amm.initial_reserves_token as int == reserve1 && w.base_position == 0
            &&& !same_address(token0@, v.path[0]) ==> amm.initial_reserves_eth as int == reserve1
                && amm.initial_reserves_token as int == reserve0 && w.base_position == 1
        }),
{
}

} // verus!
