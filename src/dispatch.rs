//! Handing decoded events to the persistence handler, one call per event, with
//! each call's failure kept to that event.
use vstd::prelude::*;

use crate::event::DatasetNFTMint;

verus! {

/// A failure the handler reports for one event.
#[derive(Debug, Clone)]
pub struct HandlerError {
    pub message: String,
}

/// The collaborator that records a mint. It may be called more than once for
/// the same token id (after a restart the same range is scanned again) and
/// from several tasks at once, so it must be idempotent on the token id and
/// safe to run concurrently. The dispatcher does not deduplicate for it.
pub trait MintHandler {
    fn handle_mint(&self, event: &DatasetNFTMint) -> Result<(), HandlerError>;
}

/// What became of one handed-out event, keyed by its token id.
#[derive(Debug, Clone)]
pub struct DispatchOutcome {
    pub token_id: [u8; 32],
    pub error: Option<HandlerError>,
}

/// Records the handler's answer for `event`.
pub fn settle(event: &DatasetNFTMint, result: Result<(), HandlerError>) -> (r: DispatchOutcome)
    ensures
        r.token_id@ == event@.token_id,
        r.error == match result {
            Ok(()) => None,
            Err(e) => Some(e),
        },
{
    let error = match result {
        Ok(()) => None,
        Err(e) => Some(e),
    };
    DispatchOutcome { token_id: event.token_id(), error }
}

/// Hands one event to the handler and records what it answered.
pub fn dispatch_one<H: MintHandler>(handler: &H, event: &DatasetNFTMint) -> (r: DispatchOutcome)
    ensures
        r.token_id@ == event@.token_id,
{
    let result = handler.handle_mint(event);
    settle(event, result)
}

/// Hands every event of a batch to the handler, in order, whatever the
/// handler answered for the ones before it; events that share a token id are
/// each handed out.
pub fn dispatch_batch<H: MintHandler>(handler: &H, events: &Vec<DatasetNFTMint>) -> (r: Vec<
    DispatchOutcome,
>)
    ensures
        r.len() == events.len(),
        forall|i: int| 0 <= i < events.len() ==> (#[trigger] r[i]).token_id@ == events[i]@.token_id,
{
    let mut outcomes: Vec<DispatchOutcome> = Vec::new();
    let mut i: usize = 0;
    while i < events.len()
        invariant
            i <= events.len(),
            outcomes.len() == i,
            forall|k: int| 0 <= k < i ==> (#[trigger] outcomes[k]).token_id@ == events[k]@.token_id,
        decreases events.len() - i,
    {
        let outcome = dispatch_one(handler, &events[i]);
        outcomes.push(outcome);
        i = i + 1;
    }
    outcomes
}

} // verus!
