//! The projects panel's decision logic: once it is handed the bus sender it
//! requests the project listing, and it leaves every routine action alone.
//! Rendering belongs to the surrounding application.

use vstd::prelude::*;

use crate::action::{Action, ActionSender, BusSendError};

verus! {

/// The projects panel, as far as its decisions go.
pub struct Projects {
    command_tx: Option<ActionSender>,
}

impl Projects {
    /// The bus sender the panel publishes its requests on, once registered.
    pub closed spec fn spec_tx(self) -> Option<ActionSender> {
        self.command_tx
    }

    pub fn new() -> (p: Projects)
        ensures
            p.spec_tx() is None,
    {
        Projects { command_tx: None }
    }

    /// Hands the panel the bus sender it will publish requests on.
    pub fn register_action_handler(&mut self, tx: ActionSender)
        ensures
            final(self).spec_tx() == Some(tx),
    {
        self.command_tx = Some(tx);
    }

    /// Requests the project listing over the bus, once a sender is
    /// registered. Without one there is nothing to do and the call succeeds.
    pub fn init(&mut self) -> (r: Result<(), BusSendError>)
        ensures
            final(self).spec_tx() == old(self).spec_tx(),
            old(self).spec_tx() is None ==> r is Ok,
            r matches Err(e) ==> e.action == Action::GetProjects,
    {
        match &self.command_tx {
            Some(tx) => {
                match tx.send(Action::GetProjects) {
                    Ok(_) => Ok(()),
                    Err(e) => Err(e),
                }
            },
            None => Ok(()),
        }
    }

    /// Reacts to one routine action. Ticks and renders carry no panel
    /// logic, and no action provokes a follow-up action.
    pub fn update(&mut self, action: Action) -> (r: Option<Action>)
        ensures
            *final(self) == *old(self),
            r is None,
    {
        match action {
            Action::Tick => (),
            Action::Render => (),
            _ => (),
        }
        None
    }
}

impl Default for Projects {
    fn default() -> (p: Projects)
        ensures
            p.spec_tx() is None,
    {
        Projects { command_tx: None }
    }
}

} // verus!
