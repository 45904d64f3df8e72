//! The making of a sandwich bundle, as a machine that the caller drives: each
//! step takes what the outside world answered and says what to do next. It
//! fixes the size of the front run, builds the buy and sell calls, vets the
//! first simulation, and accepts the bundle only if the sandwich pays the
//! block producer at least the victim's effective priority fee.

use vstd::prelude::*;
use crate::encoding::{
    U256Parts, two_pow_128, address_display, hex_digits, spec_address_display, to_hex_string, zero_pad, zero_padded,
};

verus! {

/// Width, in hex digits, of the amount packed beside an address in one call word.
pub const AMOUNT_HEX_WIDTH: usize = 24;

/// Wei per gwei: the front-run size is kept in gwei and sent in wei.
pub const WEI_PER_GWEI: u64 = 1_000_000_000;

/// Share of the sell proceeds, in percent, that the sell call passes on.
pub const PAYMENT_RATIO: u128 = 99;

/// Tokens left in the contract when it sells its balance.
pub const TOKEN_DUST: u128 = 42;

/// Gas limit of the sandwich's own buy and sell transactions.
pub const BUNDLE_GAS_LIMIT: u64 = 150_000;

/// Largest token amount out of the buy that the bundle accepts: 10^95.
pub open spec fn max_token_out() -> nat {
    100000000000000000000000000000000000000000000000000000000000000000000000000000000000000000000000nat
}

/// Name for Keccak-256 of a byte string.
pub uninterp spec fn keccak256_spec(data: Seq<u8>) -> Seq<u8>;

/// `web3::signing::keccak256`: the Keccak-256 digest of `data`.
#[verifier::external_body]
fn keccak256(data: &[u8]) -> (digest: [u8; 32])
    ensures
        digest@ == keccak256_spec(data@),
{
    web3::signing::keccak256(data)
}


/// What the machine needs to know of the victim's swap and of the planned sandwich.
#[derive(Clone, Copy, Debug)]
pub struct SandwichContext {
    /// Fund the contract first (when running against a local fork).
    pub testing: bool,
    pub testing_amount: u128,
    /// 0 when ETH is the pool's first token.
    pub base_position: u8,
    /// Size of the front run, in gwei.
    pub delta_sand: u64,
    pub base_reserves: i64,
    pub token_reserves: i64,
    pub pair_address: [u8; 20],
    pub token_address: [u8; 20],
    pub swap_hash: [u8; 32],
    /// The victim's effective priority fee per gas.
    pub swap_effective_priority_fee: u128,
    /// The victim's fee cap per gas: its legacy gas price, else its EIP-1559 maximum fee.
    pub swap_max_fee: u128,
}

/// The gas settings of the sandwich's own transactions: a fixed gas limit,
/// the victim's fee cap, and no tip.
#[derive(Clone, Copy, Debug, PartialEq, Eq, Structural)]
pub struct GasSettings {
    pub gas_limit: u64,
    pub max_fee_per_gas: u128,
    pub max_priority_fee_per_gas: u128,
}

/// The gas settings for a run over `ctx`.
pub open spec fn bundle_gas(ctx: SandwichContext) -> GasSettings {
    GasSettings { gas_limit: BUNDLE_GAS_LIMIT, max_fee_per_gas: ctx.swap_max_fee, max_priority_fee_per_gas: 0 }
}

/// The gas settings of the buy and the sell: `BUNDLE_GAS_LIMIT`, the
/// victim's fee cap, and a zero tip.
pub fn gas_settings(ctx: &SandwichContext) -> (g: GasSettings)
    ensures
        g == bundle_gas(*ctx),
{
    GasSettings { gas_limit: BUNDLE_GAS_LIMIT, max_fee_per_gas: ctx.swap_max_fee, max_priority_fee_per_gas: 0 }
}

#[derive(Clone, Copy, Debug, PartialEq, Eq, Structural)]
pub enum Phase {
    AwaitChainId,
    AwaitFunding,
    AwaitNonce,
    AwaitTokenOut,
    AwaitBuySigned,
    AwaitFirstSimulation,
    AwaitTokenBalance,
    AwaitEthOut,
    AwaitSellSigned,
    AwaitSellSimulation,
    Finished,
    Failed,
    Aborted,
}

/// What the outside world reports back.
#[derive(Clone, Copy, Debug)]
pub enum SandwichEvent {
    ChainId(u64),
    Funded,
    /// The account's transaction count.
    Nonce(u64),
    /// Router quote of tokens out for the front run.
    TokenOut(U256Parts),
    BuySigned { hash: [u8; 32] },
    /// Simulation of the buy followed by the victim's swap, and the sandwich
    /// contract's ETH balance.
    FirstSimulation { success: bool, gas_used: u128, contract_balance: u128 },
    /// The sandwich contract's token balance.
    TokenBalance(U256Parts),
    /// Router quote of ETH out for selling the tokens.
    EthOut(u128),
    SellSigned { hash: [u8; 32] },
    /// Execution of the sell: its gas, whether it failed, and the block
    /// producer's balance before and after.
    SellSimulation {
        receipt_gas_used: Option<u128>,
        failed: bool,
        miner_balance_before: u128,
        miner_balance_after: u128,
    },
}

/// Why the bundle was refused.
#[derive(Clone, Copy, Debug, PartialEq, Eq, Structural)]
pub enum SandwichError {
    ContractBalanceNotZero,
    FirstSimulationFailed,
    MissingGasUsed,
}

/// Why the run must stop at once (the caller panics with it).
#[derive(Clone, Copy, Debug, PartialEq, Eq, Structural)]
pub enum AbortReason {
    /// An odd front run was needed from a front run of zero.
    DeltaSandUnderflow,
    /// The front run in wei does not fit in 64 bits.
    DeltaSandOverflow,
    /// The contract holds fewer tokens than the dust it keeps.
    TokenBalanceUnderflow,
    NonceOverflow,
    GasOverflow,
    SellSimulationFailed,
    /// The block producer's balance went down over the sell.
    MinerPaymentUnderflow,
    ZeroGasUsed,
    /// The sandwich pays less per gas than the victim does.
    EffectiveGasPriceTooLow,
}

/// A bundle ready to send: buy, victim's swap, sell.
#[derive(Clone, Copy, Debug)]
pub struct SandwichOutcome {
    pub buy_hash: [u8; 32],
    pub swap_hash: [u8; 32],
    pub sell_hash: [u8; 32],
    /// What the sandwich pays the block producer per unit of gas.
    pub real_priority_fee: u128,
    pub bundle_hash: [u8; 32],
}

/// What the caller is to do next.
pub enum SandwichAction {
    FetchChainId,
    DepositAndTransfer { amount: u128 },
    FetchNonce,
    QuoteTokenOut { amount_in: u64, reserve_in: i64, reserve_out: i64 },
    /// Sign `buy_with_weth(package)` sending `value`, with `gas`.
    SignBuy { nonce: u64, chain_id: u64, package: String, value: u64, gas: GasSettings },
    SimulateBundle,
    FetchTokenBalance,
    QuoteEthOut { token_amount: U256Parts },
    /// Sign `sell_for_weth(package_1, package_2)`, with `gas`.
    SignSell { nonce: u64, chain_id: u64, package_1: String, package_2: String, gas: GasSettings },
    SimulateSell,
    Complete(SandwichOutcome),
    Fail(SandwichError),
    Abort(AbortReason),
    /// The event does not belong to the current phase; nothing changed.
    Ignored,
}

/// A `SandwichAction` with its text as character sequences.
pub enum ActionView {
    FetchChainId,
    DepositAndTransfer { amount: u128 },
    FetchNonce,
    QuoteTokenOut { amount_in: u64, reserve_in: i64, reserve_out: i64 },
    SignBuy { nonce: u64, chain_id: u64, package: Seq<char>, value: u64, gas: GasSettings },
    SimulateBundle,
    FetchTokenBalance,
    QuoteEthOut { token_amount: U256Parts },
    SignSell { nonce: u64, chain_id: u64, package_1: Seq<char>, package_2: Seq<char>, gas: GasSettings },
    SimulateSell,
    Complete(OutcomeView),
    Fail(SandwichError),
    Abort(AbortReason),
    Ignored,
}

/// A `SandwichOutcome` with its bundle hash as a byte sequence.
pub struct OutcomeView {
    pub buy_hash: [u8; 32],
    pub swap_hash: [u8; 32],
    pub sell_hash: [u8; 32],
    pub real_priority_fee: u128,
    pub bundle_hash: Seq<u8>,
}

impl View for SandwichOutcome {
    type V = OutcomeView;

    open spec fn view(&self) -> OutcomeView {
        OutcomeView {
            buy_hash: self.buy_hash,
            swap_hash: self.swap_hash,
            sell_hash: self.sell_hash,
            real_priority_fee: self.real_priority_fee,
            bundle_hash: self.bundle_hash@,
        }
    }
}

impl View for SandwichAction {
    type V = ActionView;

    open spec fn view(&self) -> ActionView {
        match self {
            SandwichAction::FetchChainId => ActionView::FetchChainId,
            SandwichAction::DepositAndTransfer { amount } => ActionView::DepositAndTransfer { amount: *amount },
            SandwichAction::FetchNonce => ActionView::FetchNonce,
            SandwichAction::QuoteTokenOut { amount_in, reserve_in, reserve_out } => ActionView::QuoteTokenOut {
                amount_in: *amount_in,
                reserve_in: *reserve_in,
                reserve_out: *reserve_out,
            },
            SandwichAction::SignBuy { nonce, chain_id, package, value, gas } => ActionView::SignBuy {
                nonce: *nonce,
                chain_id: *chain_id,
                package: package@,
                value: *value,
                gas: *gas,
            },
            SandwichAction::SimulateBundle => ActionView::SimulateBundle,
            SandwichAction::FetchTokenBalance => ActionView::FetchTokenBalance,
            SandwichAction::QuoteEthOut { token_amount } => ActionView::QuoteEthOut { token_amount: *token_amount },
            SandwichAction::SignSell { nonce, chain_id, package_1, package_2, gas } => ActionView::SignSell {
                nonce: *nonce,
                chain_id: *chain_id,
                package_1: package_1@,
                package_2: package_2@,
                gas: *gas,
            },
            SandwichAction::SimulateSell => ActionView::SimulateSell,
            SandwichAction::Complete(o) => ActionView::Complete(o@),
            SandwichAction::Fail(e) => ActionView::Fail(*e),
            SandwichAction::Abort(r) => ActionView::Abort(*r),
            SandwichAction::Ignored => ActionView::Ignored,
        }
    }
}

/// The front run in gwei made even when ETH is the pool's first token and odd
/// otherwise, by taking one away where needed.
pub open spec fn adjusted_delta_sand(delta_sand: int, base_position: u8) -> int {
    if base_position == 0 {
        if delta_sand % 2 == 1 {
            delta_sand - 1
        } else {
            delta_sand
        }
    } else {
        if delta_sand % 2 == 0 {
            delta_sand - 1
        } else {
            delta_sand
        }
    }
}

/// What the victim's transaction pays per gas against the coming base fee.
#[derive(Clone, Copy, Debug)]
pub struct SwapFees {
    pub base_fee: u128,
    pub max_fee: u128,
    pub priority_fee: u128,
    /// The priority fee the victim actually pays: its tip, capped by what its
    /// fee cap leaves above the base fee.
    pub effective_priority_fee: u128,
}

/// Why the victim's fees do not fit the coming base fee.
#[derive(Clone, Copy, Debug, PartialEq, Eq, Structural)]
pub enum FeeError {
    /// A legacy gas price below the base fee leaves a negative tip.
    PriorityFeeUnderflow,
    /// The fee cap is below the base fee.
    UnableToPayBaseFee,
}

/// A transaction without a legacy gas price carries both EIP-1559 fee fields.
pub open spec fn fee_fields_present(gas_price: Option<u128>, max_fee: Option<u128>, max_priority_fee: Option<u128>) -> bool {
    gas_price is None ==> (max_fee is Some && max_priority_fee is Some)
}

/// The fees of the victim's transaction against `base_fee`: a legacy gas
/// price is both the fee cap and, less the base fee, the tip; otherwise the
/// EIP-1559 fields are used.
pub fn swap_fees(base_fee: u128, gas_price: Option<u128>, max_fee: Option<u128>, max_priority_fee: Option<u128>) -> (r:
    Result<SwapFees, FeeError>)
    requires
        fee_fields_present(gas_price, max_fee, max_priority_fee),
    ensures
        r matches Err(FeeError::PriorityFeeUnderflow) <==> (gas_price matches Some(gp) && gp < base_fee),
        r matches Err(FeeError::UnableToPayBaseFee) <==> (gas_price is None && max_fee->0 < base_fee),
        r matches Ok(f) ==> {
            &&& f.base_fee == base_fee
            &&& f.max_fee == match gas_price {
                Some(gp) => gp,
                None => max_fee->0,
            }
            &&& f.priority_fee == match gas_price {
                Some(gp) => (gp - base_fee) as u128,
                None => max_priority_fee->0,
            }
            &&& f.effective_priority_fee == if f.max_fee - base_fee < f.priority_fee {
                (f.max_fee - base_fee) as u128
            } else {
                f.priority_fee
            }
            &&& f.effective_priority_fee <= f.priority_fee
            &&& base_fee + f.effective_priority_fee <= f.max_fee
        },
{
    let (max, priority) = match gas_price {
        Some(gp) => {
            if gp < base_fee {
                return Err(FeeError::PriorityFeeUnderflow);
            }
            (gp, gp - base_fee)
        },
        None => (max_fee.unwrap(), max_priority_fee.unwrap()),
    };
    if max < base_fee {
        return Err(FeeError::UnableToPayBaseFee);
    }
    let effective: u128 = if max - base_fee < priority {
        max - base_fee
    } else {
        priority
    };
    Ok(SwapFees { base_fee, max_fee: max, priority_fee: priority, effective_priority_fee: effective })
}

/// The victim's raw transaction to place in the bundle: the given bytes when
/// bypassing, else the transaction's own.
pub fn swap_raw(bypass: bool, bypass_raw: &Vec<u8>, tx_raw: &Vec<u8>) -> (raw: Vec<u8>)
    ensures
        raw@ == if bypass {
            bypass_raw@
        } else {
            tx_raw@
        },
{
    let mut raw: Vec<u8> = Vec::new();
    if bypass {
        raw.extend_from_slice(bypass_raw.as_slice());
    } else {
        raw.extend_from_slice(tx_raw.as_slice());
    }
    assert(raw@ =~= if bypass { bypass_raw@ } else { tx_raw@ });
    raw
}

/// The bundle to send: the signed buy, the victim's raw swap, then the
/// signed sell, in that order.
pub fn assemble_bundle(buy_raw: Vec<u8>, swap_raw: Vec<u8>, sell_raw: Vec<u8>) -> (bundle: Vec<Vec<u8>>)
    ensures
        bundle@.len() == 3,
        bundle@[0]@ == buy_raw@,
        bundle@[1]@ == swap_raw@,
        bundle@[2]@ == sell_raw@,
{
    let mut bundle: Vec<Vec<u8>> = Vec::new();
    bundle.push(buy_raw);
    bundle.push(swap_raw);
    bundle.push(sell_raw);
    bundle
}

/// The halves of a quantity below 2^256.
pub open spec fn u256_from_nat(n: nat) -> U256Parts {
    U256Parts { high: (n / (two_pow_128() as nat)) as u128, low: (n % (two_pow_128() as nat)) as u128 }
}

/// A call word: an address as it displays in short, followed by an amount in
/// hex, zero-padded.
pub open spec fn spec_call_word(addr: Seq<u8>, amount: nat) -> Seq<char> {
    spec_address_display(addr) + zero_padded(hex_digits(amount), AMOUNT_HEX_WIDTH as nat)
}

/// The state of the machine: its context, its phase, and what it has learnt.
#[derive(Clone, Copy, Debug)]
pub struct SandwichMachine {
    pub ctx: SandwichContext,
    pub phase: Phase,
    pub chain_id: u64,
    pub nonce: u64,
    /// The adjusted front run, in wei.
    pub delta_wei: u64,
    pub token_out: U256Parts,
    pub buy_hash: [u8; 32],
    pub first_gas: u128,
    pub sell_hash: [u8; 32],
}

/// `ChainId`: the chain is noted; in testing the contract is funded first,
/// else the account's nonce is asked for.
pub open spec fn on_chain_id(s: SandwichMachine, id: u64) -> (SandwichMachine, ActionView) {
    let s = SandwichMachine { chain_id: id, ..s };
    if s.ctx.testing {
        (
            SandwichMachine { phase: Phase::AwaitFunding, ..s },
            ActionView::DepositAndTransfer { amount: s.ctx.testing_amount },
        )
    } else {
        (SandwichMachine { phase: Phase::AwaitNonce, ..s }, ActionView::FetchNonce)
    }
}

/// `Nonce(n)`: the buy and the sell are signed with `n` and `n + 1`. The
/// front run is given the parity the pool asks for; below zero, or above 64
/// bits once in wei, the run aborts; else the router is asked how many tokens
/// it buys.
pub open spec fn on_nonce(s: SandwichMachine, n: u64) -> (SandwichMachine, ActionView) {
    let adjusted = adjusted_delta_sand(s.ctx.delta_sand as int, s.ctx.base_position);
    let wei = adjusted * (WEI_PER_GWEI as int);
    if adjusted < 0 {
        (SandwichMachine { phase: Phase::Aborted, nonce: n, ..s }, ActionView::Abort(AbortReason::DeltaSandUnderflow))
    } else if wei > u64::MAX {
        (SandwichMachine { phase: Phase::Aborted, nonce: n, ..s }, ActionView::Abort(AbortReason::DeltaSandOverflow))
    } else {
        (
            SandwichMachine { phase: Phase::AwaitTokenOut, nonce: n, delta_wei: wei as u64, ..s },
            ActionView::QuoteTokenOut {
                amount_in: wei as u64,
                reserve_in: s.ctx.base_reserves,
                reserve_out: s.ctx.token_reserves,
            },
        )
    }
}

/// `TokenOut(t)`: the buy is signed with the account's nonce, sending the
/// front run, with the bundle's gas settings, and carries the pair and the
/// tokens out in one call word.
pub open spec fn on_token_out(s: SandwichMachine, t: U256Parts) -> (SandwichMachine, ActionView) {
    (
        SandwichMachine { phase: Phase::AwaitBuySigned, token_out: t, ..s },
        ActionView::SignBuy {
            nonce: s.nonce,
            chain_id: s.chain_id,
            package: spec_call_word(s.ctx.pair_address@, t.value()),
            value: (s.delta_wei / WEI_PER_GWEI) as u64,
            gas: bundle_gas(s.ctx),
        },
    )
}

/// `FirstSimulation`: the bundle is refused if the contract holds ETH, or
/// else if the simulation failed; otherwise the contract's token balance is
/// asked for. Its gas is kept for the payment check.
pub open spec fn on_first_simulation(
    s: SandwichMachine,
    success: bool,
    gas_used: u128,
    contract_balance: u128,
) -> (SandwichMachine, ActionView) {
    let s = SandwichMachine { first_gas: gas_used, ..s };
    if contract_balance != 0 {
        (SandwichMachine { phase: Phase::Failed, ..s }, ActionView::Fail(SandwichError::ContractBalanceNotZero))
    } else if !success {
        (SandwichMachine { phase: Phase::Failed, ..s }, ActionView::Fail(SandwichError::FirstSimulationFailed))
    } else {
        (SandwichMachine { phase: Phase::AwaitTokenBalance, ..s }, ActionView::FetchTokenBalance)
    }
}

/// `TokenBalance(b)`: all but the dust is quoted for ETH; a balance below
/// the dust aborts.
pub open spec fn on_token_balance(s: SandwichMachine, b: U256Parts) -> (SandwichMachine, ActionView) {
    if b.value() < TOKEN_DUST {
        (SandwichMachine { phase: Phase::Aborted, ..s }, ActionView::Abort(AbortReason::TokenBalanceUnderflow))
    } else {
        (
            SandwichMachine { phase: Phase::AwaitEthOut, ..s },
            ActionView::QuoteEthOut { token_amount: u256_from_nat((b.value() - TOKEN_DUST) as nat) },
        )
    }
}

/// `EthOut(e)`: the sell is signed with the nonce after the buy's, with the
/// bundle's gas settings, and carries the pair with `e`, then the token with
/// the payment ratio.
pub open spec fn on_eth_out(s: SandwichMachine, e: u128) -> (SandwichMachine, ActionView) {
    if s.nonce == u64::MAX {
        (SandwichMachine { phase: Phase::Aborted, ..s }, ActionView::Abort(AbortReason::NonceOverflow))
    } else {
        (
            SandwichMachine { phase: Phase::AwaitSellSigned, ..s },
            ActionView::SignSell {
                nonce: (s.nonce + 1) as u64,
                chain_id: s.chain_id,
                package_1: spec_call_word(s.ctx.pair_address@, e as nat),
                package_2: spec_call_word(s.ctx.token_address@, PAYMENT_RATIO as nat),
                gas: bundle_gas(s.ctx),
            },
        )
    }
}

/// The bundle that a completed run hands out: its three hashes, what it pays
/// per gas, and the Keccak-256 of the three hashes in bundle order.
pub open spec fn outcome_of(s: SandwichMachine, price: u128) -> OutcomeView {
    OutcomeView {
        buy_hash: s.buy_hash,
        swap_hash: s.ctx.swap_hash,
        sell_hash: s.sell_hash,
        real_priority_fee: price,
        bundle_hash: keccak256_spec(s.buy_hash@ + s.ctx.swap_hash@ + s.sell_hash@),
    }
}

/// `SellSimulation`: without the sell's gas the bundle is refused. The run
/// aborts if the gas of both simulations overflows, if the sell failed, if
/// the block producer's balance fell, if no gas was used, or if the payment
/// per gas is below the victim's effective priority fee; otherwise the bundle
/// is complete.
pub open spec fn on_sell_simulation(
    s: SandwichMachine,
    receipt_gas_used: Option<u128>,
    failed: bool,
    before: u128,
    after: u128,
) -> (SandwichMachine, ActionView) {
    let aborted = SandwichMachine { phase: Phase::Aborted, ..s };
    match receipt_gas_used {
        None => (SandwichMachine { phase: Phase::Failed, ..s }, ActionView::Fail(SandwichError::MissingGasUsed)),
        Some(g) => {
            let total = s.first_gas + g;
            if total > u128::MAX {
                (aborted, ActionView::Abort(AbortReason::GasOverflow))
            } else if failed {
                (aborted, ActionView::Abort(AbortReason::SellSimulationFailed))
            } else if after < before {
                (aborted, ActionView::Abort(AbortReason::MinerPaymentUnderflow))
            } else if total == 0 {
                (aborted, ActionView::Abort(AbortReason::ZeroGasUsed))
            } else if (after - before) / total < s.ctx.swap_effective_priority_fee {
                (aborted, ActionView::Abort(AbortReason::EffectiveGasPriceTooLow))
            } else {
                (
                    SandwichMachine { phase: Phase::Finished, ..s },
                    ActionView::Complete(outcome_of(s, ((after - before) / total) as u128)),
                )
            }
        },
    }
}

impl SandwichMachine {
    /// A machine at the start of a run over `ctx`.
    pub open spec fn is_initial(self, ctx: SandwichContext) -> bool {
        self.ctx == ctx && self.phase == Phase::AwaitChainId
    }

    /// The transition: each phase takes the event it waits for, by the rule
    /// of that event; any other event changes nothing.
    pub open spec fn next(self, event: SandwichEvent) -> (SandwichMachine, ActionView) {
        match (self.phase, event) {
            (Phase::AwaitChainId, SandwichEvent::ChainId(id)) => on_chain_id(self, id),
            (Phase::AwaitFunding, SandwichEvent::Funded) => (
                SandwichMachine { phase: Phase::AwaitNonce, ..self },
                ActionView::FetchNonce,
            ),
            (Phase::AwaitNonce, SandwichEvent::Nonce(n)) => on_nonce(self, n),
            (Phase::AwaitTokenOut, SandwichEvent::TokenOut(t)) => on_token_out(self, t),
            (Phase::AwaitBuySigned, SandwichEvent::BuySigned { hash }) => (
                SandwichMachine { phase: Phase::AwaitFirstSimulation, buy_hash: hash, ..self },
                ActionView::SimulateBundle,
            ),
            (
                Phase::AwaitFirstSimulation,
                SandwichEvent::FirstSimulation { success, gas_used, contract_balance },
            ) => on_first_simulation(self, success, gas_used, contract_balance),
            (Phase::AwaitTokenBalance, SandwichEvent::TokenBalance(b)) => on_token_balance(self, b),
            (Phase::AwaitEthOut, SandwichEvent::EthOut(e)) => on_eth_out(self, e),
            (Phase::AwaitSellSigned, SandwichEvent::SellSigned { hash }) => (
                SandwichMachine { phase: Phase::AwaitSellSimulation, sell_hash: hash, ..self },
                ActionView::SimulateSell,
            ),
            (
                Phase::AwaitSellSimulation,
                SandwichEvent::SellSimulation { receipt_gas_used, failed, miner_balance_before, miner_balance_after },
            ) => on_sell_simulation(self, receipt_gas_used, failed, miner_balance_before, miner_balance_after),
            _ => (self, ActionView::Ignored),
        }
    }
}

/// The router's quote of tokens out can never exceed `max_token_out`: no
/// 256-bit amount does, so the bundle is never refused for it.
pub proof fn lemma_token_out_within_limit(t: U256Parts)
    ensures
        t.value() <= max_token_out(),
{
    assert(t.high as int * two_pow_128() <= (u128::MAX as int) * two_pow_128()) by (nonlinear_arith)
        requires
            t.high <= u128::MAX,
            two_pow_128() > 0,
    ;
}

/// A call word: the address as it displays in short, then the amount in hex
/// padded to `AMOUNT_HEX_WIDTH` digits.
pub fn call_word(addr: &[u8; 20], amount: U256Parts) -> (word: String)
    ensures
        word@ == spec_call_word(addr@, amount.value()),
{
    let mut word = address_display(addr);
    let digits = to_hex_string(amount);
    let padded = zero_pad(&digits, AMOUNT_HEX_WIDTH);
    word.append(padded.as_str());
    word
}

/// The halves of a quantity are the ones `u256_from_nat` gives for its value.
proof fn lemma_u256_parts_unique(p: U256Parts)
    ensures
        u256_from_nat(p.value()) == p,
{
    let m = two_pow_128();
    vstd::arithmetic::div_mod::lemma_fundamental_div_mod_converse(
        p.value() as int,
        m,
        p.high as int,
        p.low as int,
    );
}

impl SandwichMachine {
    /// A machine at the start of a run; its first action is `FetchChainId`.
    pub fn new(ctx: SandwichContext) -> (m: SandwichMachine)
        ensures
            m.is_initial(ctx),
    {
        SandwichMachine {
            ctx,
            phase: Phase::AwaitChainId,
            chain_id: 0,
            nonce: 0,
            delta_wei: 0,
            token_out: U256Parts { high: 0, low: 0 },
            buy_hash: [0u8; 32],
            first_gas: 0,
            sell_hash: [0u8; 32],
        }
    }

    /// Takes one event; returns the next state and what to do.
    pub fn step(&self, event: SandwichEvent) -> (r: (SandwichMachine, SandwichAction))
        ensures
            (r.0, r.1@) == self.next(event),
    {
        let ctx = self.ctx;
        match (self.phase, event) {
            (Phase::AwaitChainId, SandwichEvent::ChainId(id)) => {
                let s = SandwichMachine { chain_id: id, ..*self };
                if ctx.testing {
                    (
                        SandwichMachine { phase: Phase::AwaitFunding, ..s },
                        SandwichAction::DepositAndTransfer { amount: ctx.testing_amount },
                    )
                } else {
                    (SandwichMachine { phase: Phase::AwaitNonce, ..s }, SandwichAction::FetchNonce)
                }
            },
            (Phase::AwaitFunding, SandwichEvent::Funded) => (
                SandwichMachine { phase: Phase::AwaitNonce, ..*self },
                SandwichAction::FetchNonce,
            ),
            (Phase::AwaitNonce, SandwichEvent::Nonce(n)) => {
                let mut delta: u64 = ctx.delta_sand;
                if ctx.base_position == 0 {
                    if delta % 2 == 1 {
                        delta = delta - 1;
                    }
                } else {
                    if delta % 2 == 0 {
                        if delta == 0 {
                            return (
                                SandwichMachine { phase: Phase::Aborted, nonce: n, ..*self },
                                SandwichAction::Abort(AbortReason::DeltaSandUnderflow),
                            );
                        }
                        delta = delta - 1;
                    }
                }
                match delta.checked_mul(WEI_PER_GWEI) {
                    None => (
                        SandwichMachine { phase: Phase::Aborted, nonce: n, ..*self },
                        SandwichAction::Abort(AbortReason::DeltaSandOverflow),
                    ),
                    Some(wei) => {
                        assert(delta as int == adjusted_delta_sand(ctx.delta_sand as int, ctx.base_position));
                        (
                        SandwichMachine { phase: Phase::AwaitTokenOut, nonce: n, delta_wei: wei, ..*self },
                        SandwichAction::QuoteTokenOut {
                            amount_in: wei,
                            reserve_in: ctx.base_reserves,
                            reserve_out: ctx.token_reserves,
                        },
                    )},
                }
            },
            (Phase::AwaitTokenOut, SandwichEvent::TokenOut(t)) => {
                let package = call_word(&ctx.pair_address, t);
                (
                    SandwichMachine { phase: Phase::AwaitBuySigned, token_out: t, ..*self },
                    SandwichAction::SignBuy {
                        nonce: self.nonce,
                        chain_id: self.chain_id,
                        package,
                        value: self.delta_wei / WEI_PER_GWEI,
                        gas: gas_settings(&ctx),
                    },
                )
            },
            (Phase::AwaitBuySigned, SandwichEvent::BuySigned { hash }) => (
                SandwichMachine { phase: Phase::AwaitFirstSimulation, buy_hash: hash, ..*self },
                SandwichAction::SimulateBundle,
            ),
            (
                Phase::AwaitFirstSimulation,
                SandwichEvent::FirstSimulation { success, gas_used, contract_balance },
            ) => {
                let s = SandwichMachine { first_gas: gas_used, ..*self };
                if contract_balance != 0 {
                    (
                        SandwichMachine { phase: Phase::Failed, ..s },
                        SandwichAction::Fail(SandwichError::ContractBalanceNotZero),
                    )
                } else if !success {
                    (
                        SandwichMachine { phase: Phase::Failed, ..s },
                        SandwichAction::Fail(SandwichError::FirstSimulationFailed),
                    )
                } else {
                    (SandwichMachine { phase: Phase::AwaitTokenBalance, ..s }, SandwichAction::FetchTokenBalance)
                }
            },
            (Phase::AwaitTokenBalance, SandwichEvent::TokenBalance(b)) => {
                match b.checked_sub(&U256Parts::from_u128(TOKEN_DUST)) {
                    None => (
                        SandwichMachine { phase: Phase::Aborted, ..*self },
                        SandwichAction::Abort(AbortReason::TokenBalanceUnderflow),
                    ),
                    Some(rest) => {
                        proof {
                            lemma_u256_parts_unique(rest);
                        }
                        (
                            SandwichMachine { phase: Phase::AwaitEthOut, ..*self },
                            SandwichAction::QuoteEthOut { token_amount: rest },
                        )
                    },
                }
            },
            (Phase::AwaitEthOut, SandwichEvent::EthOut(e)) => {
                if self.nonce == u64::MAX {
                    (
                        SandwichMachine { phase: Phase::Aborted, ..*self },
                        SandwichAction::Abort(AbortReason::NonceOverflow),
                    )
                } else {
                    let package_1 = call_word(&ctx.pair_address, U256Parts::from_u128(e));
                    let package_2 = call_word(&ctx.token_address, U256Parts::from_u128(PAYMENT_RATIO));
                    (
                        SandwichMachine { phase: Phase::AwaitSellSigned, ..*self },
                        SandwichAction::SignSell {
                            nonce: self.nonce + 1,
                            chain_id: self.chain_id,
                            package_1,
                            package_2,
                            gas: gas_settings(&ctx),
                        },
                    )
                }
            },
            (Phase::AwaitSellSigned, SandwichEvent::SellSigned { hash }) => (
                SandwichMachine { phase: Phase::AwaitSellSimulation, sell_hash: hash, ..*self },
                SandwichAction::SimulateSell,
            ),
            (
                Phase::AwaitSellSimulation,
                SandwichEvent::SellSimulation { receipt_gas_used, failed, miner_balance_before, miner_balance_after },
            ) => {
                let aborted = SandwichMachine { phase: Phase::Aborted, ..*self };
                match receipt_gas_used {
                    None => (
                        SandwichMachine { phase: Phase::Failed, ..*self },
                        SandwichAction::Fail(SandwichError::MissingGasUsed),
                    ),
                    Some(g) => {
                        match self.first_gas.checked_add(g) {
                            None => (aborted, SandwichAction::Abort(AbortReason::GasOverflow)),
                            Some(total) => {
                                if failed {
                                    (aborted, SandwichAction::Abort(AbortReason::SellSimulationFailed))
                                } else if miner_balance_after < miner_balance_before {
                                    (aborted, SandwichAction::Abort(AbortReason::MinerPaymentUnderflow))
                                } else if total == 0 {
                                    (aborted, SandwichAction::Abort(AbortReason::ZeroGasUsed))
                                } else {
                                    let price: u128 = (miner_balance_after - miner_balance_before) / total;
                                    if ctx.swap_effective_priority_fee > price {
                                        (aborted, SandwichAction::Abort(AbortReason::EffectiveGasPriceTooLow))
                                    } else {
                                        let mut preimage: Vec<u8> = Vec::new();
                                        preimage.extend_from_slice(self.buy_hash.as_slice());
                                        preimage.extend_from_slice(ctx.swap_hash.as_slice());
                                        preimage.extend_from_slice(self.sell_hash.as_slice());
                                        assert(preimage@ == self.buy_hash@ + ctx.swap_hash@ + self.sell_hash@);
                                        let bundle_hash = keccak256(preimage.as_slice());
                                        (
                                            SandwichMachine { phase: Phase::Finished, ..*self },
                                            SandwichAction::Complete(
                                                SandwichOutcome {
                                                    buy_hash: self.buy_hash,
                                                    swap_hash: ctx.swap_hash,
                                                    sell_hash: self.sell_hash,
                                                    real_priority_fee: price,
                                                    bundle_hash,
                                                },
                                            ),
                                        )
                                    }
                                }
                            },
                        }
                    },
                }
            },
            _ => (*self, SandwichAction::Ignored),
        }
    }
}


/// How far a run has got; every terminal phase ranks last.
pub open spec fn phase_rank(p: Phase) -> nat {
    match p {
        Phase::AwaitChainId => 0,
        Phase::AwaitFunding => 1,
        Phase::AwaitNonce => 2,
        Phase::AwaitTokenOut => 3,
        Phase::AwaitBuySigned => 4,
        Phase::AwaitFirstSimulation => 5,
        Phase::AwaitTokenBalance => 6,
        Phase::AwaitEthOut => 7,
        Phase::AwaitSellSigned => 8,
        Phase::AwaitSellSimulation => 9,
        _ => 10,
    }
}

pub open spec fn is_terminal(p: Phase) -> bool {
    p == Phase::Finished || p == Phase::Failed || p == Phase::Aborted
}

/// Feeding `events` to the machine one by one: the final state and the actions asked for.
pub open spec fn run(s: SandwichMachine, events: Seq<SandwichEvent>) -> (SandwichMachine, Seq<ActionView>)
    decreases events.len(),
{
    if events.len() == 0 {
        (s, Seq::empty())
    } else {
        let (t, a) = s.next(events[0]);
        let (u, rest) = run(t, events.drop_first());
        (u, seq![a] + rest)
    }
}

/// An event that a phase does not expect changes nothing; any other moves the
/// run strictly forward, and a finished, failed or aborted run takes no event.
/// The context never changes.
pub proof fn lemma_step_progress(s: SandwichMachine, e: SandwichEvent)
    ensures
        s.next(e).0.ctx == s.ctx,
        s.next(e).1 is Ignored ==> s.next(e).0 == s,
        !(s.next(e).1 is Ignored) ==> phase_rank(s.next(e).0.phase) > phase_rank(s.phase),
        is_terminal(s.phase) ==> s.next(e).1 is Ignored,
        phase_rank(s.next(e).0.phase) == 10 <==> is_terminal(s.next(e).0.phase),
{
}

/// A finished, failed or aborted run asks for nothing more.
pub proof fn lemma_terminal_runs_idle(s: SandwichMachine, events: Seq<SandwichEvent>)
    requires
        is_terminal(s.phase),
    ensures
        forall|k: int| 0 <= k < run(s, events).1.len() ==> #[trigger] run(s, events).1[k] is Ignored,
        run(s, events).1.len() == events.len(),
    decreases events.len(),
{
    if events.len() > 0 {
        lemma_terminal_runs_idle(s.next(events[0]).0, events.drop_first());
        let rest = run(s.next(events[0]).0, events.drop_first()).1;
        assert forall|k: int| 0 <= k < run(s, events).1.len() implies #[trigger] run(s, events).1[k] is Ignored by {
            if k > 0 {
                assert(run(s, events).1[k] == rest[k - 1]);
            }
        }
    }
}

/// A run has as many actions as events.
proof fn lemma_run_len(s: SandwichMachine, events: Seq<SandwichEvent>)
    ensures
        run(s, events).1.len() == events.len(),
    decreases events.len(),
{
    if events.len() > 0 {
        lemma_run_len(s.next(events[0]).0, events.drop_first());
    }
}

/// Past the buy quote, the nonce is fixed: every buy is signed with it and
/// every sell with the next one.
proof fn lemma_nonce_fixed(s: SandwichMachine, events: Seq<SandwichEvent>)
    requires
        phase_rank(s.phase) >= 3,
    ensures
        forall|k: int|
            0 <= k < run(s, events).1.len() ==> match #[trigger] run(s, events).1[k] {
                ActionView::SignBuy { nonce, .. } => nonce == s.nonce,
                ActionView::SignSell { nonce, .. } => nonce == s.nonce + 1,
                _ => true,
            },
    decreases events.len(),
{
    if events.len() > 0 {
        let t = s.next(events[0]).0;
        lemma_step_progress(s, events[0]);
        assert(t.nonce == s.nonce);
        lemma_nonce_fixed(t, events.drop_first());
        let acts = run(s, events).1;
        let rest = run(t, events.drop_first()).1;
        assert forall|k: int| 0 <= k < acts.len() implies match #[trigger] acts[k] {
            ActionView::SignBuy { nonce, .. } => nonce == s.nonce,
            ActionView::SignSell { nonce, .. } => nonce == s.nonce + 1,
            _ => true,
        } by {
            if k > 0 {
                assert(acts[k] == rest[k - 1]);
            }
        }
    }
}

/// Once past the point of signing the buy, a run signs no buy.
proof fn lemma_no_buy_after(s: SandwichMachine, events: Seq<SandwichEvent>)
    requires
        phase_rank(s.phase) > 3,
    ensures
        forall|k: int| 0 <= k < run(s, events).1.len() ==> !(#[trigger] run(s, events).1[k] is SignBuy),
    decreases events.len(),
{
    if events.len() > 0 {
        let t = s.next(events[0]).0;
        lemma_step_progress(s, events[0]);
        lemma_no_buy_after(t, events.drop_first());
        let acts = run(s, events).1;
        let rest = run(t, events.drop_first()).1;
        assert forall|k: int| 0 <= k < acts.len() implies !(#[trigger] acts[k] is SignBuy) by {
            if k > 0 {
                assert(acts[k] == rest[k - 1]);
            }
        }
    }
}

/// In any run, a sell is signed only after a buy, and with the nonce that
/// follows the buy's.
pub proof fn lemma_sell_follows_buy(s: SandwichMachine, events: Seq<SandwichEvent>, i: int, j: int)
    requires
        0 <= i < run(s, events).1.len(),
        0 <= j < run(s, events).1.len(),
        run(s, events).1[i] is SignBuy,
        run(s, events).1[j] is SignSell,
    ensures
        i < j,
        run(s, events).1[j]->SignSell_nonce == run(s, events).1[i]->SignBuy_nonce + 1,
    decreases events.len(),
{
    let t = s.next(events[0]).0;
    let a = s.next(events[0]).1;
    let acts = run(s, events).1;
    let rest = run(t, events.drop_first()).1;
    lemma_step_progress(s, events[0]);
    if i == 0 {
        assert(acts[0] == a);
        assert(t.nonce == s.nonce && phase_rank(t.phase) >= 3);
        lemma_nonce_fixed(t, events.drop_first());
        assert(j != 0);
        assert(acts[j] == rest[j - 1]);
    } else if j == 0 {
        assert(acts[0] == a);
        assert(phase_rank(t.phase) > 3);
        lemma_no_buy_after(t, events.drop_first());
        assert(acts[i] == rest[i - 1]);
    } else {
        assert(acts[i] == rest[i - 1]);
        assert(acts[j] == rest[j - 1]);
        lemma_sell_follows_buy(t, events.drop_first(), i - 1, j - 1);
    }
}

/// A sell is signed only after the first simulation succeeded with the
/// sandwich contract holding no ETH.
pub proof fn lemma_sell_only_after_vetting(s: SandwichMachine, events: Seq<SandwichEvent>, j: int)
    requires
        phase_rank(s.phase) <= 5,
        0 <= j < run(s, events).1.len(),
        run(s, events).1[j] is SignSell,
    ensures
        exists|k: int|
            0 <= k < j && #[trigger] events[k] matches SandwichEvent::FirstSimulation {
                success: true,
                contract_balance: 0,
                ..
            },
    decreases events.len(),
{
    let t = s.next(events[0]).0;
    let a = s.next(events[0]).1;
    let acts = run(s, events).1;
    let rest = run(t, events.drop_first()).1;
    lemma_step_progress(s, events[0]);
    lemma_run_len(s, events);
    assert(acts[0] == a);
    assert(j > 0);
    assert(acts[j] == rest[j - 1]);
    if phase_rank(t.phase) == 6 {
        assert(events[0] matches SandwichEvent::FirstSimulation { success: true, contract_balance: 0, .. });
    } else if is_terminal(t.phase) {
        lemma_terminal_runs_idle(t, events.drop_first());
    } else {
        lemma_sell_only_after_vetting(t, events.drop_first(), j - 1);
        let k = choose|k: int|
            0 <= k < j - 1 && #[trigger] events.drop_first()[k] matches SandwichEvent::FirstSimulation {
                success: true,
                contract_balance: 0,
                ..
            };
        assert(events[k + 1] == events.drop_first()[k]);
    }
}

/// A completed bundle pays the block producer, per unit of gas, the producer's
/// gain over the sell divided by the gas of both simulations, and no less than
/// the victim's effective priority fee.
pub proof fn lemma_completion_pays_enough(s: SandwichMachine, e: SandwichEvent)
    requires
        s.next(e).1 is Complete,
    ensures
        s.next(e).1->Complete_0.real_priority_fee >= s.ctx.swap_effective_priority_fee,
        e matches SandwichEvent::SellSimulation {
            receipt_gas_used: Some(g),
            failed: false,
            miner_balance_before,
            miner_balance_after,
        } && s.next(e).1->Complete_0.real_priority_fee == (miner_balance_after - miner_balance_before) / (
        s.first_gas + g),
        s.next(e).1->Complete_0.bundle_hash == keccak256_spec(
            s.buy_hash@ + s.ctx.swap_hash@ + s.sell_hash@,
        ),
{
}

/// The front run has the parity of the ETH position: even when ETH is the
/// pool's first token, odd otherwise; it is the requested size or one less.
pub proof fn lemma_adjusted_delta_parity(delta_sand: u64, base_position: u8)
    requires
        adjusted_delta_sand(delta_sand as int, base_position) >= 0,
    ensures
        adjusted_delta_sand(delta_sand as int, base_position) % 2 == if base_position == 0 {
            0int
        } else {
            1int
        },
        delta_sand - 1 <= adjusted_delta_sand(delta_sand as int, base_position) <= delta_sand,
{
}

/// What holds of every state a run reaches: past the nonce, the front run in
/// wei is the adjusted front run times a gwei.
pub open spec fn machine_inv(s: SandwichMachine) -> bool {
    3 <= phase_rank(s.phase) < 10 ==> s.delta_wei as int == adjusted_delta_sand(
        s.ctx.delta_sand as int,
        s.ctx.base_position,
    ) * (WEI_PER_GWEI as int)
}

pub proof fn lemma_inv_initial(s: SandwichMachine, ctx: SandwichContext)
    requires
        s.is_initial(ctx),
    ensures
        machine_inv(s),
{
}

pub proof fn lemma_inv_step(s: SandwichMachine, e: SandwichEvent)
    requires
        machine_inv(s),
    ensures
        machine_inv(s.next(e).0),
{
}

/// The buy sends, in wei, the adjusted front run, and the router was quoted
/// for the same amount in wei.
pub proof fn lemma_buy_value(s: SandwichMachine, e: SandwichEvent)
    requires
        machine_inv(s),
        s.next(e).1 is SignBuy,
    ensures
        s.next(e).1->SignBuy_value == adjusted_delta_sand(s.ctx.delta_sand as int, s.ctx.base_position),
        s.next(e).1->SignBuy_value * (WEI_PER_GWEI as int) == s.delta_wei,
{
    let adj = adjusted_delta_sand(s.ctx.delta_sand as int, s.ctx.base_position);
    vstd::arithmetic::div_mod::lemma_div_multiples_vanish(adj, WEI_PER_GWEI as int);
    assert(adj * (WEI_PER_GWEI as int) == (WEI_PER_GWEI as int) * adj) by (nonlinear_arith);
}

/// The sandwich's own transactions, buy and sell alike, are signed with a
/// gas limit of 150000, the victim's fee cap, and no tip.
pub proof fn lemma_signed_gas(s: SandwichMachine, e: SandwichEvent)
    ensures
        s.next(e).1 matches ActionView::SignBuy { gas, .. } ==> gas.gas_limit == 150000
            && gas.max_fee_per_gas == s.ctx.swap_max_fee && gas.max_priority_fee_per_gas == 0,
        s.next(e).1 matches ActionView::SignSell { gas, .. } ==> gas.gas_limit == 150000
            && gas.max_fee_per_gas == s.ctx.swap_max_fee && gas.max_priority_fee_per_gas == 0,
{
}

/// The buy is quoted against the pool as the opportunity records it: the
/// ETH reserve in, the token reserve out, for the adjusted front run in wei,
/// whichever of the pool's two tokens ETH is; the quote is asked for once the
/// account's nonce is known, and that nonce is kept for the signing.
pub proof fn lemma_quote_uses_pool_reserves(s: SandwichMachine, e: SandwichEvent)
    ensures
        s.next(e).1 matches ActionView::QuoteTokenOut { amount_in, reserve_in, reserve_out } ==> {
            &&& reserve_in == s.ctx.base_reserves
            &&& reserve_out == s.ctx.token_reserves
            &&& amount_in as int == adjusted_delta_sand(s.ctx.delta_sand as int, s.ctx.base_position) * 1_000_000_000
            &&& s.next(e).0.delta_wei == amount_in
            &&& e matches SandwichEvent::Nonce(n) && s.next(e).0.nonce == n
            &&& s.phase == Phase::AwaitNonce
        },
{
}

/// The buy and the sell carry the right call words: the buy names the pair
/// with the router's quote of tokens out and sends the adjusted front run in
/// gwei; the token balance, less the dust the contract keeps, is quoted for
/// ETH; the sell names the pair with that ETH quote, then the token with the
/// payment ratio.
pub proof fn lemma_call_words(s: SandwichMachine, e: SandwichEvent)
    ensures
        e matches SandwichEvent::TokenOut(t) ==> (s.next(e).1 matches ActionView::SignBuy {
            nonce,
            package,
            ..
        } ==> package == spec_call_word(s.ctx.pair_address@, t.value()) && nonce == s.nonce
            && s.next(e).0.token_out == t),
        e matches SandwichEvent::TokenBalance(b) ==> (s.next(e).1 matches ActionView::QuoteEthOut {
            token_amount,
        } ==> token_amount.value() + 42 == b.value()),
        e matches SandwichEvent::EthOut(x) ==> (s.next(e).1 matches ActionView::SignSell {
            package_1,
            package_2,
            ..
        } ==> package_1 == spec_call_word(s.ctx.pair_address@, x as nat) && package_2 == spec_call_word(
            s.ctx.token_address@,
            99,
        )),
{
    if let SandwichEvent::TokenBalance(b) = e {
        if s.next(e).1 is QuoteEthOut {
            lemma_u256_from_nat_value((b.value() - 42) as nat);
        }
    }
}

/// The halves that `u256_from_nat` gives for a quantity below 2^256 have
/// that quantity as their value.
proof fn lemma_u256_from_nat_value(n: nat)
    requires
        n < two_pow_128() * two_pow_128(),
    ensures
        u256_from_nat(n).value() == n,
{
    let m = two_pow_128();
    vstd::arithmetic::div_mod::lemma_fundamental_div_mod(n as int, m);
    vstd::arithmetic::div_mod::lemma_mod_pos_bound(n as int, m);
    vstd::arithmetic::div_mod::lemma_div_pos_is_pos(n as int, m);
    assert(n as int / m < m) by {
        vstd::arithmetic::div_mod::lemma_multiply_divide_lt(n as int, m, m);
    }
}

/// The sell's execution completes the bundle exactly when it went through,
/// its gas is known and fits, the producer gained, gas was used, and the
/// producer's gain per unit of gas reaches the victim's effective priority
/// fee; with all else in order, a payment below that fee aborts the run.
pub proof fn lemma_completion_iff_pays_enough(s: SandwichMachine, e: SandwichEvent)
    requires
        s.phase == Phase::AwaitSellSimulation,
    ensures
        e matches SandwichEvent::SellSimulation {
            receipt_gas_used: Some(g),
            failed,
            miner_balance_before,
            miner_balance_after,
        } ==> ((!failed && s.first_gas + g <= u128::MAX && miner_balance_before <= miner_balance_after
            && s.first_gas + g > 0) ==> {
            &&& s.next(e).1 is Complete <==> (miner_balance_after - miner_balance_before) / (s.first_gas + g)
                >= s.ctx.swap_effective_priority_fee
            &&& !(s.next(e).1 is Complete) ==> s.next(e).1 == ActionView::Abort(AbortReason::EffectiveGasPriceTooLow)
        }),
{
}

} // verus!
