//! Core of an event-driven launch-sniping agent: classification of
//! transaction-log notifications, a refresh policy for the shared blockhash
//! snapshot, and the assembly plan for priority-fee-boosted buy transactions.
pub mod addr;
pub mod cache;
pub mod coordinator;
pub mod detect;
pub mod dispatch;
pub mod records;

pub use addr::Address;
pub use cache::BlockhashCache;
pub use cache::BlockhashSnapshot;
pub use coordinator::BuildStep;
pub use coordinator::ClassifyStep;
pub use coordinator::SkipReason;
pub use coordinator::classify_step;
pub use coordinator::on_build_result;
pub use coordinator::record_dispatch_outcome;
pub use detect::Detector;
pub use detect::LaunchEvent;
pub use detect::LaunchKind;
pub use detect::Notification;
pub use dispatch::AccountMeta;
pub use dispatch::CommitmentLevel;
pub use dispatch::DispatchError;
pub use dispatch::DispatchPlan;
pub use dispatch::Instruction;
pub use dispatch::Priority;
pub use dispatch::SubmitConfig;
pub use dispatch::SubmitMode;
pub use dispatch::assemble_instructions;
pub use dispatch::plan_dispatch;
pub use dispatch::submit_config_for;
pub use records::Position;
pub use records::Trade;
pub use records::TradeSide;
