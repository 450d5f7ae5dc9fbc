//! The action bus surface: the closed set of messages the application
//! exchanges, and the sending half of the broadcast channel that carries
//! them. A send with no active receiver comes back as an error that the
//! caller treats as the end of its own processing loop, never as a crash.

use vstd::prelude::*;

verus! {

/// The closed set of messages carried by the action bus. Only
/// [`Action::GetProjects`] (inbound intent) and [`Action::Projects`] /
/// [`Action::Error`] (outbound results) concern the invocation core; the
/// rest belong to the surrounding application and are ignored here.
#[derive(Debug, Clone, PartialEq, Eq)]
pub enum Action {
    Tick,
    Render,
    Resize(u16, u16),
    Suspend,
    Resume,
    Quit,
    ClearScreen,
    Error(String),
    Help,
    GetProjects,
    Projects(String),
}

#[verifier::external_type_specification]
#[verifier::external_body]
#[verifier::reject_recursive_types(T)]
pub struct ExBroadcastSender<T>(tokio::sync::broadcast::Sender<T>);

#[verifier::external_type_specification]
#[verifier::external_body]
#[verifier::reject_recursive_types(T)]
pub struct ExBroadcastReceiver<T>(tokio::sync::broadcast::Receiver<T>);

pub type ActionReceiver = tokio::sync::broadcast::Receiver<Action>;

/// A bus send that found no active receiver; it hands the undelivered
/// action back.
#[derive(Debug, Clone, PartialEq, Eq)]
pub struct BusSendError {
    pub action: Action,
}

/// Relies on tokio::sync::broadcast::Sender::send: the call never blocks,
/// succeeds when at least one receiver handle is active, and otherwise
/// returns the value inside the error.
#[verifier::external_body]
fn bus_send(
    tx: &tokio::sync::broadcast::Sender<Action>,
    action: Action,
) -> (r: Result<(), BusSendError>)
    ensures
        r matches Err(e) ==> e.action == action,
{
    match tx.send(action) {
        Ok(_) => Ok(()),
        Err(tokio::sync::broadcast::error::SendError(a)) => Err(BusSendError { action: a }),
    }
}

/// Relies on tokio::sync::broadcast::Sender::clone: a new handle to the
/// same channel, modeled as equal to the handle it was cloned from.
#[verifier::external_body]
fn bus_clone(
    tx: &tokio::sync::broadcast::Sender<Action>,
) -> (r: tokio::sync::broadcast::Sender<Action>)
    ensures
        r == *tx,
{
    tx.clone()
}

/// The sending half of the action bus.
pub struct ActionSender(pub tokio::sync::broadcast::Sender<Action>);

impl ActionSender {
    /// Publishes one action to every active subscriber. Whether the send
    /// succeeds depends on whether any receiver is still alive; on failure
    /// the undelivered action comes back.
    pub fn send(&self, action: Action) -> (r: Result<(), BusSendError>)
        ensures
            r matches Err(e) ==> e.action == action,
    {
        bus_send(&self.0, action)
    }

    /// Another handle to the same bus.
    pub fn clone(&self) -> (r: ActionSender)
        ensures
            r.0 == self.0,
    {
        ActionSender(bus_clone(&self.0))
    }
}

impl From<tokio::sync::broadcast::Sender<Action>> for ActionSender {
    fn from(sender: tokio::sync::broadcast::Sender<Action>) -> ActionSender {
        ActionSender(sender)
    }
}

impl vstd::std_specs::convert::FromSpecImpl<tokio::sync::broadcast::Sender<Action>>
    for ActionSender {
    open spec fn obeys_from_spec() -> bool {
        true
    }

    open spec fn from_spec(sender: tokio::sync::broadcast::Sender<Action>) -> ActionSender {
        ActionSender(sender)
    }
}

} // verus!
