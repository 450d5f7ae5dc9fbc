//! The sink channel: an unbounded, fire-and-forget delivery path for
//! captured lines, observed by an independent consumer elsewhere in the
//! process. Sends never block and a missing receiver is silently tolerated.

use vstd::prelude::*;

verus! {

#[verifier::external_type_specification]
#[verifier::external_body]
#[verifier::reject_recursive_types(T)]
pub struct ExUnboundedSender<T>(tokio::sync::mpsc::UnboundedSender<T>);

#[verifier::external_type_specification]
#[verifier::external_body]
#[verifier::reject_recursive_types(T)]
pub struct ExUnboundedReceiver<T>(tokio::sync::mpsc::UnboundedReceiver<T>);

/// Relies on tokio::sync::mpsc::unbounded_channel: returns a connected
/// sender/receiver pair for a fresh unbounded channel.
#[verifier::external_body]
pub(crate) fn new_sink_channel() -> (
    tokio::sync::mpsc::UnboundedSender<String>,
    tokio::sync::mpsc::UnboundedReceiver<String>,
) {
    tokio::sync::mpsc::unbounded_channel()
}

/// Relies on tokio::sync::mpsc::UnboundedSender::send: the channel is
/// unbounded, so the call completes immediately without waiting; when the
/// receiver has been dropped it returns the value inside an error, which is
/// discarded here on purpose — delivery is fire-and-forget.
#[verifier::external_body]
pub(crate) fn sink_send(tx: &tokio::sync::mpsc::UnboundedSender<String>, line: String) {
    let _ = tx.send(line);
}

/// Relies on tokio::sync::mpsc::UnboundedSender::clone: a new handle to the
/// same channel, modeled as equal to the handle it was cloned from.
#[verifier::external_body]
pub(crate) fn sink_clone(
    tx: &tokio::sync::mpsc::UnboundedSender<String>,
) -> (r: tokio::sync::mpsc::UnboundedSender<String>)
    ensures
        r == *tx,
{
    tx.clone()
}

} // verus!
