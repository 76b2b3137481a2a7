//! The receive loop's policy: which inbound outcomes keep the loop running
//! and which one ends it.

use vstd::prelude::*;

verus! {

/// A chat message as the library models it: only what the bot reads from
/// one, the identifier of the channel it was posted in.
pub struct Message {
    pub channel_id: u64,
}

/// An inbound gateway event, reduced to the cases the loop distinguishes.
pub enum GatewayEvent {
    /// A chat message was created in some channel.
    MessageCreate(Message),
    /// Every other event kind; the loop ignores them.
    Other,
}

/// An inbound gateway error, reduced to the cases the loop distinguishes.
pub enum GatewayError {
    /// The gateway closed the connection, with an optional close code and a
    /// body describing why.
    Closed(Option<u16>, String),
    /// Every other error kind; the loop logs it and keeps receiving.
    Other(String),
}

/// What the loop does after handling one receive outcome.
pub enum Directive {
    /// Keep receiving.
    Continue,
    /// Leave the loop; the gateway connection is gone.
    Stop,
}

/// Holds exactly of the receive outcomes on which the loop must end:
/// the explicit "gateway closed" error, and nothing else.
pub open spec fn is_close(o: Result<GatewayEvent, GatewayError>) -> bool {
    o matches Err(GatewayError::Closed(_, _))
}

/// The loop policy for a single receive outcome: stop exactly on the
/// "gateway closed" error, keep going on every event and on every other
/// error.
pub fn step(outcome: &Result<GatewayEvent, GatewayError>) -> (d: Directive)
    ensures
        d is Stop <==> is_close(*outcome),
{
    match outcome {
        Ok(_) => Directive::Continue,
        Err(GatewayError::Closed(_, _)) => Directive::Stop,
        Err(GatewayError::Other(_)) => Directive::Continue,
    }
}

/// Report of a finished run of the receive loop.
pub struct RunReport {
    /// How many outcomes were consumed, the closing one included.
    pub processed: usize,
    /// Whether the run ended on the "gateway closed" error (`true`) or by
    /// exhausting its input (`false`).
    pub closed: bool,
    /// How many module actions were invoked while the outcomes were
    /// handled. Dispatch is unimplemented: no event invokes one, and the
    /// contract pins that down until dispatch is built.
    pub actions_invoked: usize,
}

/// Runs the receive loop over a finite sequence of receive outcomes, such
/// as a test double for a live connection hands in. Outcomes are handled
/// in order; the loop ends exactly at the first "gateway closed" error and
/// consumes everything when none occurs. No outcome invokes a module
/// action.
pub fn run_event_loop(outcomes: &Vec<Result<GatewayEvent, GatewayError>>) -> (r: RunReport)
    ensures
        r.processed <= outcomes@.len(),
        r.closed ==> 1 <= r.processed
            && is_close(outcomes@[r.processed - 1])
            && (forall|j: int| 0 <= j < r.processed - 1 ==> !(#[trigger] is_close(outcomes@[j]))),
        !r.closed ==> r.processed == outcomes@.len()
            && (forall|j: int| 0 <= j < outcomes@.len() ==> !(#[trigger] is_close(outcomes@[j]))),
        r.actions_invoked == 0,
{
    let n = outcomes.len();
    let mut i: usize = 0;
    while i < n
        invariant
            i <= n,
            n == outcomes@.len(),
            forall|j: int| 0 <= j < i ==> !(#[trigger] is_close(outcomes@[j])),
        decreases n - i,
    {
        let d = step(&outcomes[i]);
        if let Directive::Stop = d {
            return RunReport { processed: i + 1, closed: true, actions_invoked: 0 };
        }
        i = i + 1;
    }
    RunReport { processed: n, closed: false, actions_invoked: 0 }
}

} // verus!
