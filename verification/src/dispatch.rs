//! TransactionDispatcher: assembly of the instruction list and the
//! submission plan for a priority-fee-boosted transaction.
//!
//! The dispatcher always prepends exactly two fee-control instructions, in
//! fixed order (compute-unit limit, then compute-unit price), ahead of every
//! caller-supplied instruction, and submits in one of two modes: fire-and-
//! forget (preflight skipped, no confirmation wait) or confirm (default
//! preflight, block until confirmed at processed commitment). Both modes are
//! bounded by the same retry count. The signing and the network submission
//! themselves happen at the process edge, driven by the plan built here.
use vstd::prelude::*;

use crate::addr::Address;

verus! {

/// Priority-fee configuration, supplied once at startup and immutable for
/// the lifetime of a run.
pub struct Priority {
    pub compute_unit_limit: u32,
    pub microlamports_per_cu: u64,
}

/// One account an instruction touches.
pub struct AccountMeta {
    pub pubkey: Address,
    pub is_signer: bool,
    pub is_writable: bool,
}

/// One instruction of the transaction under assembly. The two fee-control
/// variants are the ones the dispatcher itself prepends; `Program` carries a
/// caller-supplied instruction as plain values.
pub enum Instruction {
    SetComputeUnitLimit(u32),
    SetComputeUnitPrice(u64),
    Program { program_id: Address, accounts: Vec<AccountMeta>, data: Vec<u8> },
}

/// The two submission modes.
#[derive(Clone, Copy, PartialEq, Eq, Structural, Debug)]
pub enum SubmitMode {
    FireAndForget,
    Confirm,
}

/// How finalized chain state must be before a transaction counts as seen.
#[derive(Clone, Copy, PartialEq, Eq, Structural, Debug)]
pub enum CommitmentLevel {
    Processed,
    Confirmed,
    Finalized,
}

/// The options handed to the chain submit call, plus whether the dispatcher
/// waits for confirmation before returning.
pub struct SubmitConfig {
    pub skip_preflight: bool,
    pub preflight_commitment: Option<CommitmentLevel>,
    pub max_retries: u64,
    pub wait_for_confirmation: bool,
    pub confirmation_commitment: Option<CommitmentLevel>,
}

/// Network-level retries performed by the submission call itself.
pub const DEFAULT_MAX_RETRIES: u64 = 3;

/// A failed dispatch: signing failed before submission, or the node
/// rejected, timed out or errored after the configured retries.
pub enum DispatchError {
    Signing,
    Submission,
}

/// Prepend the two fee-control instructions, in the fixed order (limit, then
/// price), ahead of all caller-supplied instructions.
pub fn assemble_instructions(prio: &Priority, ixs: Vec<Instruction>) -> (r: Vec<Instruction>)
    ensures
        r@.len() == ixs@.len() + 2,
        r@[0] == Instruction::SetComputeUnitLimit(prio.compute_unit_limit),
        r@[1] == Instruction::SetComputeUnitPrice(prio.microlamports_per_cu),
        forall|i: int| 0 <= i < ixs@.len() ==> r@[i + 2] == ixs@[i],
{
    let mut rest = ixs;
    let mut r: Vec<Instruction> = Vec::new();
    r.push(Instruction::SetComputeUnitLimit(prio.compute_unit_limit));
    r.push(Instruction::SetComputeUnitPrice(prio.microlamports_per_cu));
    r.append(&mut rest);
    r
}

/// The submission options for each mode: fire-and-forget skips preflight and
/// returns as soon as the node accepts the submission; confirm runs default
/// preflight and waits for processed-level confirmation. Both retry at most
/// `DEFAULT_MAX_RETRIES` times at the network level.
pub fn submit_config_for(mode: SubmitMode) -> (c: SubmitConfig)
    ensures
        mode is FireAndForget ==> c == (SubmitConfig {
            skip_preflight: true,
            preflight_commitment: Option::Some(CommitmentLevel::Processed),
            max_retries: DEFAULT_MAX_RETRIES,
            wait_for_confirmation: false,
            confirmation_commitment: Option::None,
        }),
        mode is Confirm ==> c == (SubmitConfig {
            skip_preflight: false,
            preflight_commitment: Option::None,
            max_retries: DEFAULT_MAX_RETRIES,
            wait_for_confirmation: true,
            confirmation_commitment: Option::Some(CommitmentLevel::Processed),
        }),
        c.max_retries == DEFAULT_MAX_RETRIES,
{
    match mode {
        SubmitMode::FireAndForget => SubmitConfig {
            skip_preflight: true,
            preflight_commitment: Option::Some(CommitmentLevel::Processed),
            max_retries: DEFAULT_MAX_RETRIES,
            wait_for_confirmation: false,
            confirmation_commitment: Option::None,
        },
        SubmitMode::Confirm => SubmitConfig {
            skip_preflight: false,
            preflight_commitment: Option::None,
            max_retries: DEFAULT_MAX_RETRIES,
            wait_for_confirmation: true,
            confirmation_commitment: Option::Some(CommitmentLevel::Processed),
        },
    }
}

/// Everything the process edge needs to sign and submit one transaction:
/// the full instruction list and the submission options.
pub struct DispatchPlan {
    pub instructions: Vec<Instruction>,
    pub config: SubmitConfig,
}

/// Build the complete plan for one dispatch: the fee-prefixed instruction
/// list together with the mode's submission options.
pub fn plan_dispatch(prio: &Priority, ixs: Vec<Instruction>, mode: SubmitMode) -> (p: DispatchPlan)
    ensures
        p.instructions@.len() == ixs@.len() + 2,
        p.instructions@[0] == Instruction::SetComputeUnitLimit(prio.compute_unit_limit),
        p.instructions@[1] == Instruction::SetComputeUnitPrice(prio.microlamports_per_cu),
        forall|i: int| 0 <= i < ixs@.len() ==> p.instructions@[i + 2] == ixs@[i],
        mode is FireAndForget ==> !p.config.wait_for_confirmation && p.config.skip_preflight,
        mode is Confirm ==> p.config.wait_for_confirmation && !p.config.skip_preflight,
        p.config.max_retries == DEFAULT_MAX_RETRIES,
{
    DispatchPlan { instructions: assemble_instructions(prio, ixs), config: submit_config_for(mode) }
}

} // verus!
