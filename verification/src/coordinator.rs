//! ExecutionCoordinator: the decisions of the control loop, as pure state
//! transitions. The loop itself lives at the process edge: it awaits the next
//! notification, performs the route-building and submission I/O, and feeds
//! each outcome back into the functions here, which decide what happens next
//! and what gets recorded. Every per-event error is contained to its event.
use vstd::prelude::*;

use crate::addr::Address;
use crate::detect::Detector;
use crate::detect::LaunchEvent;
use crate::detect::Notification;
use crate::detect::spec_process;
use crate::dispatch::DispatchError;
use crate::dispatch::Instruction;
use crate::records::Trade;
use crate::records::TradeSide;

verus! {

/// Why an iteration ends without a dispatch attempt.
#[derive(Clone, Copy, PartialEq, Eq, Structural, Debug)]
pub enum SkipReason {
    /// The detector found nothing; silent continue, not an error.
    NoMatch,
    /// An event was classified but its mint is unresolved; dispatch is
    /// forbidden for such an event.
    UnresolvedMint,
}

/// The decision after classifying one notification.
pub enum ClassifyStep {
    Skip(SkipReason),
    /// A launch with a resolved mint: ask the external route builder for buy
    /// instructions. The event's `token_mint` is the `Some` it was
    /// classified with.
    Build { event: LaunchEvent },
}

/// Classify one notification and decide whether this iteration may proceed
/// toward a dispatch: no event means a silent skip, an event without a
/// resolved mint means a logged skip and never a dispatch, and only an event
/// carrying its mint proceeds to route building.
pub fn classify_step(d: &Detector, n: &Notification, slot: u64) -> (s: ClassifyStep)
    ensures
        spec_process(*d, *n, slot) is None ==> s == ClassifyStep::Skip(SkipReason::NoMatch),
        spec_process(*d, *n, slot) matches Some(e) ==> {
            &&& e.token_mint is None ==> s == ClassifyStep::Skip(SkipReason::UnresolvedMint)
            &&& e.token_mint is Some ==> s == (ClassifyStep::Build { event: e })
        },
{
    match d.process(n, slot) {
        Option::None => ClassifyStep::Skip(SkipReason::NoMatch),
        Option::Some(event) => {
            if event.token_mint.is_some() {
                ClassifyStep::Build { event }
            } else {
                ClassifyStep::Skip(SkipReason::UnresolvedMint)
            }
        },
    }
}

/// The decision after the external route builder answers.
pub enum BuildStep {
    /// The builder produced the buy instructions: dispatch them.
    Dispatch { instructions: Vec<Instruction> },
    /// The builder failed: abort this event's trade attempt, log, continue
    /// the loop. No dispatch call occurs.
    Abort,
}

/// Decide what follows the route builder's answer: instructions proceed to
/// dispatch exactly as built; any build error aborts this event's attempt.
pub fn on_build_result(r: Result<Vec<Instruction>, String>) -> (s: BuildStep)
    ensures
        (r matches Ok(ixs) ==> s == (BuildStep::Dispatch { instructions: ixs })),
        r is Err ==> s == BuildStep::Abort,
{
    match r {
        Result::Ok(instructions) => BuildStep::Dispatch { instructions },
        Result::Err(_) => BuildStep::Abort,
    }
}

/// Turn the outcome of one dispatch attempt into what the external trade
/// store is told: a successful submission yields exactly one buy record
/// carrying the returned signature; a failed one yields no trade record.
pub fn record_dispatch_outcome(
    mint: &Address,
    result: Result<String, DispatchError>,
    ts: i64,
    qty: u64,
    price_sol: u64,
) -> (t: Option<Trade>)
    ensures
        (result matches Ok(sig) ==> t matches Some(tr) && tr.ts == ts && tr.side == TradeSide::Buy
            && tr.mint@ == mint@ && tr.signature == sig && tr.qty == qty && tr.price_sol
            == price_sol),
        result is Err ==> t is None,
{
    match result {
        Result::Ok(signature) => Option::Some(
            Trade::new(ts, TradeSide::Buy, mint.duplicate(), signature, qty, price_sol),
        ),
        Result::Err(_) => Option::None,
    }
}

} // verus!
