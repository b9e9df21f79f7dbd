use sniper_core::Address;
use sniper_core::CommitmentLevel;
use sniper_core::Instruction;
use sniper_core::Priority;
use sniper_core::SubmitMode;
use sniper_core::assemble_instructions;
use sniper_core::plan_dispatch;
use sniper_core::submit_config_for;

fn prio() -> Priority {
    Priority { compute_unit_limit: 1_000_000, microlamports_per_cu: 5_000 }
}

fn caller_ix(tag: u8) -> Instruction {
    Instruction::Program {
        program_id: Address::parse("11111111111111111111111111111111").unwrap(),
        accounts: vec![],
        data: vec![tag, tag],
    }
}

#[test]
fn two_fee_instructions_prepended_to_empty_list() {
    let r = assemble_instructions(&prio(), vec![]);
    assert_eq!(r.len(), 2);
    assert!(matches!(r[0], Instruction::SetComputeUnitLimit(1_000_000)));
    assert!(matches!(r[1], Instruction::SetComputeUnitPrice(5_000)));
}

#[test]
fn fee_instructions_precede_caller_instructions_in_order() {
    let r = assemble_instructions(&prio(), vec![caller_ix(7), caller_ix(9)]);
    assert_eq!(r.len(), 4);
    assert!(matches!(r[0], Instruction::SetComputeUnitLimit(1_000_000)));
    assert!(matches!(r[1], Instruction::SetComputeUnitPrice(5_000)));
    match &r[2] {
        Instruction::Program { data, .. } => assert_eq!(data, &vec![7u8, 7u8]),
        _ => panic!("third instruction should be the first caller instruction"),
    }
    match &r[3] {
        Instruction::Program { data, .. } => assert_eq!(data, &vec![9u8, 9u8]),
        _ => panic!("fourth instruction should be the second caller instruction"),
    }
}

#[test]
fn fire_and_forget_config_skips_preflight_and_confirmation() {
    let c = submit_config_for(SubmitMode::FireAndForget);
    assert!(c.skip_preflight);
    assert_eq!(c.preflight_commitment, Some(CommitmentLevel::Processed));
    assert_eq!(c.max_retries, 3);
    assert!(!c.wait_for_confirmation);
    assert_eq!(c.confirmation_commitment, None);
}

#[test]
fn confirm_config_keeps_preflight_and_waits() {
    let c = submit_config_for(SubmitMode::Confirm);
    assert!(!c.skip_preflight);
    assert_eq!(c.preflight_commitment, None);
    assert_eq!(c.max_retries, 3);
    assert!(c.wait_for_confirmation);
    assert_eq!(c.confirmation_commitment, Some(CommitmentLevel::Processed));
}

#[test]
fn dispatch_plan_combines_instructions_and_mode() {
    let p = plan_dispatch(&prio(), vec![caller_ix(1)], SubmitMode::FireAndForget);
    assert_eq!(p.instructions.len(), 3);
    assert!(matches!(p.instructions[0], Instruction::SetComputeUnitLimit(1_000_000)));
    assert!(matches!(p.instructions[1], Instruction::SetComputeUnitPrice(5_000)));
    assert!(p.config.skip_preflight);
    assert!(!p.config.wait_for_confirmation);

    let q = plan_dispatch(&prio(), vec![], SubmitMode::Confirm);
    assert_eq!(q.instructions.len(), 2);
    assert!(q.config.wait_for_confirmation);
    assert!(!q.config.skip_preflight);
}
