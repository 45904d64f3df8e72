use simple_v2_sandwicher::encoding::U256Parts;
use simple_v2_sandwicher::sandwich::{
    assemble_bundle, call_word, gas_settings, swap_fees, GasSettings, swap_raw, AbortReason, FeeError, Phase, SandwichAction, SandwichContext,
    SandwichError, SandwichEvent, SandwichMachine,
};

fn context() -> SandwichContext {
    SandwichContext {
        testing: false,
        testing_amount: 0,
        base_position: 0,
        delta_sand: 5,
        base_reserves: 1_000,
        token_reserves: 2_000,
        pair_address: [0x11; 20],
        token_address: [0xab; 20],
        swap_hash: [2; 32],
        swap_effective_priority_fee: 1_000_000_000,
        swap_max_fee: 30_000_000_000,
    }
}

fn pair_text() -> String {
    "0x1111…1111".to_string()
}

/// Drives a machine to the state that awaits the sell's execution.
fn up_to_sell_simulation(ctx: SandwichContext) -> SandwichMachine {
    let m = SandwichMachine::new(ctx);
    let (m, _) = m.step(SandwichEvent::ChainId(1));
    let (m, _) = m.step(SandwichEvent::Nonce(7));
    let (m, _) = m.step(SandwichEvent::TokenOut(U256Parts::from_u128(0x1234)));
    let (m, _) = m.step(SandwichEvent::BuySigned { hash: [1; 32] });
    let (m, _) = m.step(SandwichEvent::FirstSimulation { success: true, gas_used: 100_000, contract_balance: 0 });
    let (m, _) = m.step(SandwichEvent::TokenBalance(U256Parts::from_u128(1000)));
    let (m, _) = m.step(SandwichEvent::EthOut(5_000_000_000));
    let (m, _) = m.step(SandwichEvent::SellSigned { hash: [3; 32] });
    assert_eq!(m.phase, Phase::AwaitSellSimulation);
    m
}

#[test]
fn sandwich_full_run() {
    let m = SandwichMachine::new(context());
    assert_eq!(m.phase, Phase::AwaitChainId);
    let (m, a) = m.step(SandwichEvent::ChainId(1));
    assert!(matches!(a, SandwichAction::FetchNonce));
    let (m, a) = m.step(SandwichEvent::Nonce(7));
    match a {
        SandwichAction::QuoteTokenOut { amount_in, reserve_in, reserve_out } => {
            assert_eq!(amount_in, 4_000_000_000);
            assert_eq!(reserve_in, 1_000);
            assert_eq!(reserve_out, 2_000);
        }
        _ => panic!("expected a quote"),
    }
    let (m, a) = m.step(SandwichEvent::TokenOut(U256Parts::from_u128(0x1234)));
    match a {
        SandwichAction::SignBuy { nonce, chain_id, package, value, gas } => {
            assert_eq!(gas, GasSettings { gas_limit: 150_000, max_fee_per_gas: 30_000_000_000, max_priority_fee_per_gas: 0 });
            assert_eq!(nonce, 7);
            assert_eq!(chain_id, 1);
            assert_eq!(value, 4);
            assert_eq!(package, format!("{}{}1234", pair_text(), "0".repeat(20)));
        }
        _ => panic!("expected the buy"),
    }
    let (m, a) = m.step(SandwichEvent::BuySigned { hash: [1; 32] });
    assert!(matches!(a, SandwichAction::SimulateBundle));
    let (m, a) = m.step(SandwichEvent::FirstSimulation { success: true, gas_used: 100_000, contract_balance: 0 });
    assert!(matches!(a, SandwichAction::FetchTokenBalance));
    let (m, a) = m.step(SandwichEvent::TokenBalance(U256Parts::from_u128(1000)));
    match a {
        SandwichAction::QuoteEthOut { token_amount } => {
            assert_eq!(token_amount.high, 0);
            assert_eq!(token_amount.low, 958);
        }
        _ => panic!("expected a sell quote"),
    }
    let (m, a) = m.step(SandwichEvent::EthOut(5_000_000_000));
    match a {
        SandwichAction::SignSell { nonce, chain_id, package_1, package_2, gas } => {
            assert_eq!(gas, GasSettings { gas_limit: 150_000, max_fee_per_gas: 30_000_000_000, max_priority_fee_per_gas: 0 });
            assert_eq!(nonce, 8);
            assert_eq!(chain_id, 1);
            assert_eq!(package_1, format!("{}{}12a05f200", pair_text(), "0".repeat(15)));
            assert_eq!(package_2, format!("0xabab…abab{}63", "0".repeat(22)));
        }
        _ => panic!("expected the sell"),
    }
    let (m, a) = m.step(SandwichEvent::SellSigned { hash: [3; 32] });
    assert!(matches!(a, SandwichAction::SimulateSell));
    let (m, a) = m.step(SandwichEvent::SellSimulation {
        receipt_gas_used: Some(50_000),
        failed: false,
        miner_balance_before: 1_000_000_000_000_000_000,
        miner_balance_after: 1_003_000_000_000_000_000,
    });
    assert_eq!(m.phase, Phase::Finished);
    match a {
        SandwichAction::Complete(outcome) => {
            assert_eq!(outcome.real_priority_fee, 20_000_000_000);
            assert_eq!(outcome.buy_hash, [1; 32]);
            assert_eq!(outcome.swap_hash, [2; 32]);
            assert_eq!(outcome.sell_hash, [3; 32]);
            let mut preimage = vec![1u8; 32];
            preimage.extend_from_slice(&[2u8; 32]);
            preimage.extend_from_slice(&[3u8; 32]);
            assert_eq!(outcome.bundle_hash, web3::signing::keccak256(&preimage));
            assert_ne!(outcome.bundle_hash.to_vec(), preimage[..32].to_vec());
        }
        _ => panic!("expected completion"),
    }
}

#[test]
fn sandwich_testing_funds_first() {
    let ctx = SandwichContext { testing: true, testing_amount: 77, ..context() };
    let (m, a) = SandwichMachine::new(ctx).step(SandwichEvent::ChainId(5));
    assert!(matches!(a, SandwichAction::DepositAndTransfer { amount: 77 }));
    let (m, a) = m.step(SandwichEvent::Funded);
    assert!(matches!(a, SandwichAction::FetchNonce));
    assert_eq!(m.phase, Phase::AwaitNonce);
    assert_eq!(m.chain_id, 5);
}

#[test]
fn sandwich_unexpected_event_is_ignored() {
    let m = SandwichMachine::new(context());
    let (m2, a) = m.step(SandwichEvent::Nonce(3));
    assert!(matches!(a, SandwichAction::Ignored));
    assert_eq!(m2.phase, Phase::AwaitChainId);
    assert_eq!(m2.nonce, m.nonce);
}

#[test]
fn sandwich_delta_parity() {
    // ETH second in the pool: the front run is made odd
    let ctx = SandwichContext { base_position: 1, delta_sand: 6, ..context() };
    let (m, _) = SandwichMachine::new(ctx).step(SandwichEvent::ChainId(1));
    let (_, a) = m.step(SandwichEvent::Nonce(0));
    assert!(matches!(a, SandwichAction::QuoteTokenOut { amount_in: 5_000_000_000, .. }));
    let ctx = SandwichContext { base_position: 0, delta_sand: 6, ..context() };
    let (m, _) = SandwichMachine::new(ctx).step(SandwichEvent::ChainId(1));
    let (_, a) = m.step(SandwichEvent::Nonce(0));
    assert!(matches!(a, SandwichAction::QuoteTokenOut { amount_in: 6_000_000_000, .. }));
}

#[test]
fn sandwich_delta_underflow_aborts() {
    let ctx = SandwichContext { base_position: 1, delta_sand: 0, ..context() };
    let (m, _) = SandwichMachine::new(ctx).step(SandwichEvent::ChainId(1));
    let (m, a) = m.step(SandwichEvent::Nonce(0));
    assert!(matches!(a, SandwichAction::Abort(AbortReason::DeltaSandUnderflow)));
    assert_eq!(m.phase, Phase::Aborted);
}

#[test]
fn sandwich_delta_overflow_aborts() {
    let ctx = SandwichContext { delta_sand: u64::MAX - 1, ..context() };
    let (m, _) = SandwichMachine::new(ctx).step(SandwichEvent::ChainId(1));
    let (_, a) = m.step(SandwichEvent::Nonce(0));
    assert!(matches!(a, SandwichAction::Abort(AbortReason::DeltaSandOverflow)));
}

fn at_first_simulation() -> SandwichMachine {
    let (m, _) = SandwichMachine::new(context()).step(SandwichEvent::ChainId(1));
    let (m, _) = m.step(SandwichEvent::Nonce(7));
    let (m, _) = m.step(SandwichEvent::TokenOut(U256Parts::from_u128(10)));
    let (m, _) = m.step(SandwichEvent::BuySigned { hash: [1; 32] });
    m
}

#[test]
fn sandwich_contract_balance_must_be_zero() {
    let (m, a) = at_first_simulation().step(SandwichEvent::FirstSimulation {
        success: true,
        gas_used: 1,
        contract_balance: 1,
    });
    assert!(matches!(a, SandwichAction::Fail(SandwichError::ContractBalanceNotZero)));
    assert_eq!(m.phase, Phase::Failed);
}

#[test]
fn sandwich_first_simulation_must_succeed() {
    let (_, a) = at_first_simulation().step(SandwichEvent::FirstSimulation {
        success: false,
        gas_used: 1,
        contract_balance: 0,
    });
    assert!(matches!(a, SandwichAction::Fail(SandwichError::FirstSimulationFailed)));
}

#[test]
fn sandwich_large_token_amounts_pass() {
    let (m, _) = SandwichMachine::new(context()).step(SandwichEvent::ChainId(1));
    let (m, _) = m.step(SandwichEvent::Nonce(7));
    let (m, a) = m.step(SandwichEvent::TokenOut(U256Parts { high: u128::MAX, low: u128::MAX }));
    match a {
        SandwichAction::SignBuy { package, .. } => {
            assert_eq!(package, format!("{}{}", pair_text(), "f".repeat(64)));
        }
        _ => panic!("expected the buy"),
    }
    let (m, _) = m.step(SandwichEvent::BuySigned { hash: [1; 32] });
    let (_, a) = m.step(SandwichEvent::FirstSimulation { success: true, gas_used: 1, contract_balance: 0 });
    assert!(matches!(a, SandwichAction::FetchTokenBalance));
}

#[test]
fn sandwich_token_balance_below_dust_aborts() {
    let (m, _) = at_first_simulation().step(SandwichEvent::FirstSimulation {
        success: true,
        gas_used: 1,
        contract_balance: 0,
    });
    let (_, a) = m.step(SandwichEvent::TokenBalance(U256Parts::from_u128(41)));
    assert!(matches!(a, SandwichAction::Abort(AbortReason::TokenBalanceUnderflow)));
    let (_, a) = m.step(SandwichEvent::TokenBalance(U256Parts { high: 1, low: 0 }));
    match a {
        SandwichAction::QuoteEthOut { token_amount } => {
            assert_eq!(token_amount.high, 0);
            assert_eq!(token_amount.low, u128::MAX - 41);
        }
        _ => panic!("expected a sell quote"),
    }
}

#[test]
fn sandwich_nonce_overflow_aborts() {
    let (m, _) = SandwichMachine::new(context()).step(SandwichEvent::ChainId(1));
    let (m, _) = m.step(SandwichEvent::Nonce(u64::MAX));
    let (m, _) = m.step(SandwichEvent::TokenOut(U256Parts::from_u128(10)));
    let (m, _) = m.step(SandwichEvent::BuySigned { hash: [1; 32] });
    let (m, _) = m.step(SandwichEvent::FirstSimulation { success: true, gas_used: 1, contract_balance: 0 });
    let (m, _) = m.step(SandwichEvent::TokenBalance(U256Parts::from_u128(100)));
    let (_, a) = m.step(SandwichEvent::EthOut(1));
    assert!(matches!(a, SandwichAction::Abort(AbortReason::NonceOverflow)));
}

#[test]
fn sandwich_sell_outcomes() {
    let m = up_to_sell_simulation(context());
    let sim = |gas: Option<u128>, failed: bool, before: u128, after: u128| {
        m.step(SandwichEvent::SellSimulation {
            receipt_gas_used: gas,
            failed,
            miner_balance_before: before,
            miner_balance_after: after,
        })
        .1
    };
    assert!(matches!(sim(None, false, 0, 0), SandwichAction::Fail(SandwichError::MissingGasUsed)));
    assert!(matches!(sim(Some(1), true, 0, 0), SandwichAction::Abort(AbortReason::SellSimulationFailed)));
    assert!(matches!(sim(Some(1), false, 10, 9), SandwichAction::Abort(AbortReason::MinerPaymentUnderflow)));
    assert!(matches!(sim(Some(u128::MAX), false, 0, 0), SandwichAction::Abort(AbortReason::GasOverflow)));
    // 150_000 gas, 1e14 paid: 666_666_666 per gas, below the victim's 1 gwei
    assert!(matches!(
        sim(Some(50_000), false, 0, 100_000_000_000_000),
        SandwichAction::Abort(AbortReason::EffectiveGasPriceTooLow)
    ));
    assert!(matches!(sim(Some(50_000), false, 0, 150_000_000_000_000), SandwichAction::Complete(_)));
}

#[test]
fn sandwich_zero_gas_aborts() {
    let (m, _) = SandwichMachine::new(context()).step(SandwichEvent::ChainId(1));
    let (m, _) = m.step(SandwichEvent::Nonce(1));
    let (m, _) = m.step(SandwichEvent::TokenOut(U256Parts::from_u128(10)));
    let (m, _) = m.step(SandwichEvent::BuySigned { hash: [1; 32] });
    let (m, _) = m.step(SandwichEvent::FirstSimulation { success: true, gas_used: 0, contract_balance: 0 });
    let (m, _) = m.step(SandwichEvent::TokenBalance(U256Parts::from_u128(100)));
    let (m, _) = m.step(SandwichEvent::EthOut(1));
    let (m, _) = m.step(SandwichEvent::SellSigned { hash: [3; 32] });
    let (_, a) = m.step(SandwichEvent::SellSimulation {
        receipt_gas_used: Some(0),
        failed: false,
        miner_balance_before: 0,
        miner_balance_after: 0,
    });
    assert!(matches!(a, SandwichAction::Abort(AbortReason::ZeroGasUsed)));
}

#[test]
fn sandwich_terminal_state_ignores_events() {
    let m = up_to_sell_simulation(context());
    let (m, _) = m.step(SandwichEvent::SellSimulation {
        receipt_gas_used: None,
        failed: false,
        miner_balance_before: 0,
        miner_balance_after: 0,
    });
    assert_eq!(m.phase, Phase::Failed);
    let (m2, a) = m.step(SandwichEvent::ChainId(1));
    assert!(matches!(a, SandwichAction::Ignored));
    assert_eq!(m2.phase, Phase::Failed);
}

#[test]
fn sandwich_call_word_pads_amount() {
    let mut pair = [0u8; 20];
    pair[0] = 0x5a;
    pair[1] = 0xae;
    pair[18] = 0xbe;
    pair[19] = 0xed;
    assert_eq!(call_word(&pair, U256Parts::from_u128(0x99)), format!("0x5aae…beed{}99", "0".repeat(22)));
    assert_eq!(
        call_word(&[0u8; 20], U256Parts::from_u128(0)),
        format!("0x0000…0000{}", "0".repeat(24))
    );
    let long = U256Parts { high: 1, low: 0 };
    assert_eq!(call_word(&[0xffu8; 20], long), format!("0xffff…ffff1{}", "0".repeat(32)));
}

#[test]
fn fees_legacy_gas_price() {
    let f = swap_fees(100, Some(150), None, None).unwrap();
    assert_eq!((f.base_fee, f.max_fee, f.priority_fee, f.effective_priority_fee), (100, 150, 50, 50));
}

#[test]
fn fees_eip1559_caps_the_tip() {
    let f = swap_fees(100, None, Some(130), Some(50)).unwrap();
    assert_eq!((f.max_fee, f.priority_fee, f.effective_priority_fee), (130, 50, 30));
    let f = swap_fees(100, None, Some(200), Some(50)).unwrap();
    assert_eq!(f.effective_priority_fee, 50);
}

#[test]
fn fees_errors() {
    assert_eq!(swap_fees(100, Some(99), None, None).unwrap_err(), FeeError::PriorityFeeUnderflow);
    assert_eq!(swap_fees(100, None, Some(99), Some(1)).unwrap_err(), FeeError::UnableToPayBaseFee);
}

#[test]
fn swap_raw_chooses_bytes() {
    assert_eq!(swap_raw(true, &vec![1, 2], &vec![3]), vec![1, 2]);
    assert_eq!(swap_raw(false, &vec![1, 2], &vec![3]), vec![3]);
}

#[test]
fn sandwich_bundle_order() {
    let bundle = assemble_bundle(vec![1, 2], vec![3], vec![4, 5, 6]);
    assert_eq!(bundle, vec![vec![1, 2], vec![3], vec![4, 5, 6]]);
    let bundle = assemble_bundle(Vec::new(), vec![7], Vec::new());
    assert_eq!(bundle.len(), 3);
    assert_eq!(bundle[1], vec![7]);
}

#[test]
fn sandwich_gas_settings_follow_the_victim() {
    let ctx = SandwichContext { swap_max_fee: 77, ..context() };
    let g = gas_settings(&ctx);
    assert_eq!((g.gas_limit, g.max_fee_per_gas, g.max_priority_fee_per_gas), (150_000, 77, 0));
}
