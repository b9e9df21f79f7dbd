use sniper_core::Address;
use sniper_core::BuildStep;
use sniper_core::ClassifyStep;
use sniper_core::Detector;
use sniper_core::DispatchError;
use sniper_core::Instruction;
use sniper_core::LaunchKind;
use sniper_core::Notification;
use sniper_core::Position;
use sniper_core::SkipReason;
use sniper_core::TradeSide;
use sniper_core::classify_step;
use sniper_core::on_build_result;
use sniper_core::record_dispatch_outcome;

const RAYDIUM_AMM: &str = "675kPX9MHTjS2zt1qfr1NYHuzeLXfQM9H24wFSUt1Mp8";

fn mint() -> Address {
    Address::parse("So11111111111111111111111111111111111111112").unwrap()
}

#[test]
fn detected_launch_without_mint_is_skipped_not_dispatched() {
    let d = Detector::new(Some(RAYDIUM_AMM), None, None);
    let n = Notification {
        signature: "SIG1".to_string(),
        logs: vec!["Instruction: Initialize2".to_string()],
        mentions: Some(vec![Address::parse(RAYDIUM_AMM).unwrap()]),
    };
    let e = d.process(&n, 100).expect("event");
    assert_eq!(e.kind, LaunchKind::RaydiumAMM);
    assert_eq!(e.signature, "SIG1");
    assert_eq!(e.detected_at_slot, 100);
    match classify_step(&d, &n, 100) {
        ClassifyStep::Skip(reason) => assert_eq!(reason, SkipReason::UnresolvedMint),
        ClassifyStep::Build { .. } => panic!("an event without a mint must not reach dispatch"),
    }
}

#[test]
fn unmatched_notification_is_a_silent_skip() {
    let d = Detector::new(Some(RAYDIUM_AMM), None, None);
    let n = Notification {
        signature: "SIG2".to_string(),
        logs: vec!["Instruction: Swap".to_string()],
        mentions: None,
    };
    match classify_step(&d, &n, 5) {
        ClassifyStep::Skip(reason) => assert_eq!(reason, SkipReason::NoMatch),
        ClassifyStep::Build { .. } => panic!("nothing was detected"),
    }
}

#[test]
fn route_build_error_aborts_without_dispatch() {
    let r: Result<Vec<Instruction>, String> = Err("buy route not implemented yet".to_string());
    assert!(matches!(on_build_result(r), BuildStep::Abort));
    let trade = record_dispatch_outcome(&mint(), Err(DispatchError::Submission), 1, 2, 3);
    assert!(trade.is_none());
}

#[test]
fn route_instructions_proceed_to_dispatch_unchanged() {
    let ixs = vec![Instruction::SetComputeUnitLimit(9)];
    match on_build_result(Ok(ixs)) {
        BuildStep::Dispatch { instructions } => {
            assert_eq!(instructions.len(), 1);
            assert!(matches!(instructions[0], Instruction::SetComputeUnitLimit(9)));
        }
        BuildStep::Abort => panic!("a built route must be dispatched"),
    }
}

#[test]
fn successful_dispatch_yields_one_buy_trade() {
    let m = mint();
    let trade = record_dispatch_outcome(&m, Ok("SIG9".to_string()), 1_700_000_000, 1_000, 42)
        .expect("a trade record");
    assert_eq!(trade.side, TradeSide::Buy);
    assert_eq!(trade.side.label(), "BUY");
    assert_eq!(trade.signature, "SIG9");
    assert_eq!(trade.mint.bytes, m.bytes);
    assert_eq!(trade.ts, 1_700_000_000);
    assert_eq!(trade.qty, 1_000);
    assert_eq!(trade.price_sol, 42);
}

#[test]
fn failed_dispatch_yields_no_trade() {
    assert!(record_dispatch_outcome(&mint(), Err(DispatchError::Signing), 1, 2, 3).is_none());
    assert!(record_dispatch_outcome(&mint(), Err(DispatchError::Submission), 1, 2, 3).is_none());
}

#[test]
fn sell_side_label() {
    assert_eq!(TradeSide::Sell.label(), "SELL");
}

#[test]
fn position_snapshot_keeps_all_fields() {
    let p = Position::open(mint(), "BSIG".to_string(), 42, 1_000, 77, 5_000, 2_000, 600);
    assert_eq!(p.buy_sig, "BSIG");
    assert_eq!(p.buy_price, 42);
    assert_eq!(p.amount_tokens, 1_000);
    assert_eq!(p.opened_at, 77);
    assert_eq!(p.take_profit_bps, 5_000);
    assert_eq!(p.stop_loss_bps, 2_000);
    assert_eq!(p.max_seconds, 600);
    assert_eq!(p.mint.bytes, mint().bytes);
}
