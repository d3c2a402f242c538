//! The accept loop's decisions: where to listen, and what to do with each
//! outcome of an accept.
use vstd::prelude::*;
use crate::text::{decimal, push_decimal};

verus! {

/// The TCP port the honeypot listens on, on all interfaces.
pub const LISTEN_PORT: u16 = 2222;

/// What the accept loop does with one outcome of an accept.
#[derive(Debug)]
pub enum AcceptStep {
    /// Hand the new connection to a capture task of its own, then accept again.
    Dispatch,
    /// Report `notice` as an error, then accept again.
    Report { notice: String },
}

/// The address to bind: every interface, on the listening port.
pub open spec fn bind_address_of(port: nat) -> Seq<char> {
    "0.0.0.0:"@ + decimal(port)
}

/// The banner shown once the port is bound.
pub open spec fn banner_of(port: nat) -> Seq<char> {
    "Honeypot is Listening on port "@ + decimal(port)
}

/// The notice reported when an accept fails.
pub open spec fn accept_error_notice_of(err: Seq<char>) -> Seq<char> {
    "Error: "@ + err
}

/// Whether an accept outcome leads to a new capture task.
pub open spec fn dispatches(outcome: Result<(), Seq<char>>) -> bool {
    outcome is Ok
}

/// The address to bind.
pub fn bind_address() -> (r: String)
    ensures
        r@ == bind_address_of(LISTEN_PORT as nat),
{
    let mut r = String::from_str("0.0.0.0:");
    push_decimal(&mut r, LISTEN_PORT as u64);
    r
}

/// The banner shown once the port is bound.
pub fn banner() -> (r: String)
    ensures
        r@ == banner_of(LISTEN_PORT as nat),
{
    let mut r = String::from_str("Honeypot is Listening on port ");
    push_decimal(&mut r, LISTEN_PORT as u64);
    r
}

/// Decides what the accept loop does with one outcome: a connection, or the
/// error text of a failed accept. No outcome stops the loop.
pub fn on_accept(outcome: Result<(), String>) -> (r: AcceptStep)
    ensures
        (r is Dispatch) == dispatches(
            match outcome {
                Ok(()) => Ok(()),
                Err(e) => Err(e@),
            },
        ),
        match outcome {
            Ok(()) => r is Dispatch,
            Err(e) => r is Report && r->notice@ == accept_error_notice_of(e@),
        },
{
    match outcome {
        Ok(()) => AcceptStep::Dispatch,
        Err(e) => AcceptStep::Report { notice: String::from_str("Error: ").concat(e.as_str()) },
    }
}

/// How many capture tasks the accept loop has started after the given
/// outcomes, one per dispatching outcome.
pub open spec fn tasks_started(outcomes: Seq<Result<(), Seq<char>>>) -> nat
    decreases outcomes.len(),
{
    if outcomes.len() == 0 {
        0
    } else {
        tasks_started(outcomes.drop_last()) + if dispatches(outcomes.last()) { 1nat } else { 0nat }
    }
}

/// Failed accepts never stop the accept loop: whatever outcomes came before,
/// failed ones included, the next accepted connection gets a capture task of
/// its own, and a failed accept starts none.
pub proof fn lemma_accept_loop_survives_errors(
    earlier: Seq<Result<(), Seq<char>>>,
    next: Result<(), Seq<char>>,
)
    ensures
        next is Ok ==> tasks_started(earlier.push(next)) == tasks_started(earlier) + 1,
        next is Err ==> tasks_started(earlier.push(next)) == tasks_started(earlier),
{
    assert(earlier.push(next).drop_last() =~= earlier);
}

} // verus!
