//! Invocation of the external `nx` tool: the spawn configuration, the final
//! aggregated result, the error taxonomy, and the dispatch decisions that a
//! driver loop carries out.

use vstd::prelude::*;
use vstd::string::StringExecFns;

use crate::action::{Action, ActionReceiver, ActionSender, BusSendError};
pub use crate::mux::IoType;
use crate::sink::{new_sink_channel, sink_clone};
use crate::streamable_command::Command;

verus! {

/// How a child process ended: a numeric exit code, or termination without
/// one (for instance by a signal).
#[derive(Clone, Copy, Debug, PartialEq, Eq, Structural)]
pub enum ExitStatus {
    Exited(i32),
    Signaled,
}

impl ExitStatus {
    /// True exactly for a clean exit with code zero.
    pub fn success(&self) -> (r: bool)
        ensures
            r == (*self == ExitStatus::Exited(0)),
    {
        match self {
            ExitStatus::Exited(c) => *c == 0,
            ExitStatus::Signaled => false,
        }
    }

    /// The status a driver reports for a child that exited with the given
    /// code, or with none.
    pub fn from_code(code: Option<i32>) -> (r: ExitStatus)
        ensures
            code matches Some(n) ==> r == ExitStatus::Exited(n),
            code is None ==> r == ExitStatus::Signaled,
    {
        match code {
            Some(n) => ExitStatus::Exited(n),
            None => ExitStatus::Signaled,
        }
    }

    /// The exit code, when the child exited with one.
    pub fn code(&self) -> (r: Option<i32>)
        ensures
            *self matches ExitStatus::Exited(c) ==> r == Some(c),
            *self is Signaled ==> r is None,
    {
        match self {
            ExitStatus::Exited(c) => Some(*c),
            ExitStatus::Signaled => None,
        }
    }
}

/// Final aggregated record of a completed invocation: exit status plus the
/// captured text of each pipe. Each text is the newline-join of that pipe's
/// lines, in the order they arrived, with no trailing newline.
#[derive(Debug)]
pub struct Output {
    pub status: ExitStatus,
    pub stdout: String,
    pub stderr: String,
}

/// Why an invocation failed. A sink delivery failure is deliberately absent:
/// it never fails an invocation.
#[derive(Clone, Debug, PartialEq, Eq)]
pub enum InvokeError {
    /// The external program could not be started.
    Spawn(String),
    /// An I/O or decode error while reading the given pipe (not plain EOF).
    PipeRead(IoType, String),
    /// The child process could not be awaited to completion.
    Wait(String),
}

/// The human-readable description that [`InvokeError::message`] returns.
pub open spec fn spec_message(e: InvokeError) -> Seq<char> {
    match e {
        InvokeError::Spawn(m) => "spawn failure: "@ + m@,
        InvokeError::PipeRead(_, m) => "pipe read failure: "@ + m@,
        InvokeError::Wait(m) => "wait failure: "@ + m@,
    }
}

impl InvokeError {
    /// A human-readable description of the failure.
    pub fn message(&self) -> (r: String)
        ensures
            r@ == spec_message(*self),
    {
        match self {
            InvokeError::Spawn(m) => {
                let mut s = String::from_str("spawn failure: ");
                s.append(m.as_str());
                s
            },
            InvokeError::PipeRead(_, m) => {
                let mut s = String::from_str("pipe read failure: ");
                s.append(m.as_str());
                s
            },
            InvokeError::Wait(m) => {
                let mut s = String::from_str("wait failure: ");
                s.append(m.as_str());
                s
            },
        }
    }
}

/// What the dispatcher decides for one incoming action: invoke the tool
/// with the given configuration, or ignore the action.
pub enum Plan {
    Invoke(Command),
    Ignore,
}

/// One observation made on the bus's receiving half: an action arrived, the
/// receiver lagged behind and missed some, or the bus is closed because
/// every sender is gone.
#[derive(Debug, Clone, PartialEq, Eq)]
pub enum BusEvent {
    Received(Action),
    Lagged,
    Closed,
}

/// What the dispatcher's loop does next: handle an action, go on with the
/// next round, or stop for good.
#[derive(Debug, Clone, PartialEq, Eq)]
pub enum LoopStep {
    Dispatch(Action),
    Continue,
    Stop,
}

/// The spawn configuration that lists the projects of the workspace at
/// `path`: the `nx` tool, its `show projects` sub-operation, the workspace
/// as working directory, and the given sink channel attached, so every
/// captured line reaches that channel's receiver.
pub open spec fn is_projects_command(
    c: Command,
    path: Seq<char>,
    sink: tokio::sync::mpsc::UnboundedSender<String>,
) -> bool {
    &&& c.spec_program() == "nx"@
    &&& c.spec_args().len() == 2
    &&& c.spec_args()[0]@ == "show"@
    &&& c.spec_args()[1]@ == "projects"@
    &&& c.spec_current_dir() == Some(path)
    &&& c.spec_sink() == Some(sink)
}

/// Dispatches intents addressed to the external `nx` tool: for each inbound
/// request it decides the concrete invocation, and it turns the invocation's
/// outcome into the outbound result action.
pub struct Nx {
    path: String,
    pub action_tx: ActionSender,
    pub action_rx: ActionReceiver,
    pub command_log_tx: tokio::sync::mpsc::UnboundedSender<String>,
}

impl Nx {
    /// The workspace directory every invocation runs in.
    pub closed spec fn spec_path(self) -> Seq<char> {
        self.path@
    }

    /// The bus sender results are published on.
    pub closed spec fn spec_action_tx(self) -> ActionSender {
        self.action_tx
    }

    /// The bus receiver intents arrive on.
    pub closed spec fn spec_action_rx(self) -> ActionReceiver {
        self.action_rx
    }

    /// The sending half of the dispatcher's own sink channel; every
    /// invocation mirrors its captured lines there.
    pub closed spec fn spec_sink_tx(self) -> tokio::sync::mpsc::UnboundedSender<String> {
        self.command_log_tx
    }

    /// Builds the dispatcher together with the receiving half of its sink
    /// channel, on which every captured line can be observed live.
    pub fn new(path: String, action_tx: ActionSender, action_rx: ActionReceiver) -> (r: (
        Nx,
        tokio::sync::mpsc::UnboundedReceiver<String>,
    ))
        ensures
            r.0.spec_path() == path@,
            r.0.spec_action_tx() == action_tx,
            r.0.spec_action_rx() == action_rx,
    {
        let (command_log_tx, command_log_rx) = new_sink_channel();
        (
            Nx { path, action_tx, action_rx, command_log_tx },
            command_log_rx,
        )
    }

    /// The base configuration shared by every invocation: the `nx` program,
    /// run in the workspace directory, with the dispatcher's own sink
    /// channel attached.
    fn command(&self) -> (c: Command)
        ensures
            c.spec_program() == "nx"@,
            c.spec_args().len() == 0,
            c.spec_current_dir() == Some(self.spec_path()),
            c.spec_sink() == Some(self.spec_sink_tx()),
    {
        let mut cmd = Command::new("nx");
        cmd.current_dir(self.path.as_str());
        cmd.command_log_tx(sink_clone(&self.command_log_tx));
        cmd
    }

    /// The invocation that lists the workspace's projects.
    pub fn projects_command(&self) -> (c: Command)
        ensures
            is_projects_command(c, self.spec_path(), self.spec_sink_tx()),
    {
        let mut cmd = self.command();
        cmd.arg("show");
        cmd.arg("projects");
        cmd
    }

    /// Decides how the dispatcher's loop goes on after one receive on the
    /// bus: an action is handled; a lag is tolerated, that round skipped; a
    /// closed bus ends the loop.
    pub fn recv_step(event: BusEvent) -> (s: LoopStep)
        ensures
            event matches BusEvent::Received(a) ==> s == LoopStep::Dispatch(a),
            event is Lagged ==> s is Continue,
            event is Closed ==> s is Stop,
    {
        match event {
            BusEvent::Received(a) => LoopStep::Dispatch(a),
            BusEvent::Lagged => LoopStep::Continue,
            BusEvent::Closed => LoopStep::Stop,
        }
    }

    /// Decides how the dispatcher's loop goes on after publishing one
    /// result: a delivered publish continues the loop; a publish that found
    /// no subscriber ends it.
    pub fn publish_step(outcome: &Result<(), BusSendError>) -> (s: LoopStep)
        ensures
            *outcome is Ok ==> s is Continue,
            *outcome is Err ==> s is Stop,
    {
        match outcome {
            Ok(_) => LoopStep::Continue,
            Err(_) => LoopStep::Stop,
        }
    }

    /// Decides what one inbound action asks of this dispatcher: the project
    /// listing intent becomes a concrete invocation, every other action is
    /// ignored.
    pub fn dispatch_step(&self, event: &Action) -> (p: Plan)
        ensures
            *event is GetProjects ==> (p matches Plan::Invoke(c)
                && is_projects_command(c, self.spec_path(), self.spec_sink_tx())),
            !(*event is GetProjects) ==> p is Ignore,
    {
        match event {
            Action::GetProjects => Plan::Invoke(self.projects_command()),
            _ => Plan::Ignore,
        }
    }

    /// Turns the outcome of a project-listing invocation into the outbound
    /// result action: the aggregated standard-output text on success, a
    /// user-visible error description on failure.
    pub fn conclude(outcome: Result<Output, InvokeError>) -> (a: Action)
        ensures
            outcome matches Ok(o) ==> a matches Action::Projects(s) && s@ == o.stdout@,
            outcome matches Err(e) ==> a matches Action::Error(m) && m@ == spec_message(e),
    {
        match outcome {
            Ok(o) => Action::Projects(o.stdout),
            Err(e) => Action::Error(e.message()),
        }
    }
}

} // verus!
