//! The message queues between the client's network side and its window:
//! crossbeam's unbounded channels, which the network thread fills and
//! drains concurrently.
use vstd::prelude::*;
use crossbeam_channel::{Receiver, Sender};

verus! {

#[verifier::external_type_specification]
#[verifier::external_body]
#[verifier::reject_recursive_types(T)]
pub struct ExSender<T>(Sender<T>);

#[verifier::external_type_specification]
#[verifier::external_body]
#[verifier::reject_recursive_types(T)]
pub struct ExReceiver<T>(Receiver<T>);

/// The text of crossbeam's `SendError`.
pub open spec fn disconnected_text() -> Seq<char> {
    "sending on a disconnected channel"@
}

/// Relies on `crossbeam_channel::Sender::send`, which fails only once every
/// receiver is gone; the error is turned into its text, which `SendError`'s
/// `Display` fixes. Another thread owns the other end, so whether it fails
/// is not promised.
#[verifier::external_body]
pub(crate) fn send(out: &Sender<String>, message: String) -> (r: Result<(), String>)
    ensures
        r matches Err(e) ==> e@ == disconnected_text(),
{
    out.send(message).map_err(|e| e.to_string())
}

/// Relies on `crossbeam_channel::Receiver::try_recv`: a message if one is
/// queued, without blocking. Another thread fills the channel, so nothing
/// is promised of the outcome.
#[verifier::external_body]
pub(crate) fn try_recv(input: &Receiver<String>) -> (r: Option<String>) {
    input.try_recv().ok()
}

/// Relies on `crossbeam_channel::Receiver::len`: how many messages are
/// queued at the moment of the call.
#[verifier::external_body]
pub(crate) fn queued(input: &Receiver<String>) -> (r: usize) {
    input.len()
}

} // verus!
