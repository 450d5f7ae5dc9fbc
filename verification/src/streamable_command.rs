//! The spawn configuration of one child-process invocation: program name,
//! arguments, working directory, and the optional sink channel every
//! captured line is mirrored to. The driver that actually spawns the child
//! reads this configuration through the getters; the decision logic builds
//! it through the setters.

use vstd::prelude::*;
use vstd::string::StringExecFns;

use crate::sink::sink_clone;
pub use crate::mux::IoType;

verus! {

/// Spawn configuration for one invocation of an external program whose two
/// output pipes are captured as line streams.
pub struct Command {
    program: String,
    args: Vec<String>,
    current_dir: Option<String>,
    command_log_tx: Option<tokio::sync::mpsc::UnboundedSender<String>>,
}

impl Command {
    /// The program name, resolved by the driver through the search path.
    pub closed spec fn spec_program(self) -> Seq<char> {
        self.program@
    }

    /// The arguments, in the order they are handed to the program.
    pub closed spec fn spec_args(self) -> Seq<String> {
        self.args@
    }

    /// The working directory the child is started in, when one is set.
    pub closed spec fn spec_current_dir(self) -> Option<Seq<char>> {
        match self.current_dir {
            Some(d) => Some(d@),
            None => None,
        }
    }

    /// The sink sender captured lines are mirrored to, when one is attached.
    pub closed spec fn spec_sink(self) -> Option<tokio::sync::mpsc::UnboundedSender<String>> {
        self.command_log_tx
    }

    /// Whether a sink channel is attached for mirroring captured lines.
    pub open spec fn has_sink(self) -> bool {
        self.spec_sink() is Some
    }

    pub fn new(program: &str) -> (c: Command)
        ensures
            c.spec_program() == program@,
            c.spec_args().len() == 0,
            c.spec_current_dir() is None,
            !c.has_sink(),
    {
        Command {
            program: String::from_str(program),
            args: Vec::new(),
            current_dir: None,
            command_log_tx: None,
        }
    }

    /// Appends one argument.
    pub fn arg(&mut self, a: &str)
        ensures
            final(self).spec_program() == old(self).spec_program(),
            final(self).spec_current_dir() == old(self).spec_current_dir(),
            final(self).spec_sink() == old(self).spec_sink(),
            final(self).spec_args().len() == old(self).spec_args().len() + 1,
            forall|i: int| 0 <= i < old(self).spec_args().len()
                ==> final(self).spec_args()[i] == old(self).spec_args()[i],
            final(self).spec_args().last()@ == a@,
    {
        self.args.push(String::from_str(a));
    }

    /// Sets the working directory the child will be started in.
    pub fn current_dir(&mut self, dir: &str)
        ensures
            final(self).spec_program() == old(self).spec_program(),
            final(self).spec_args() == old(self).spec_args(),
            final(self).spec_sink() == old(self).spec_sink(),
            final(self).spec_current_dir() == Some(dir@),
    {
        self.current_dir = Some(String::from_str(dir));
    }

    /// Attaches the sink channel every captured line is mirrored to,
    /// replacing any sink attached before.
    pub fn command_log_tx(&mut self, tx: tokio::sync::mpsc::UnboundedSender<String>)
        ensures
            final(self).spec_program() == old(self).spec_program(),
            final(self).spec_args() == old(self).spec_args(),
            final(self).spec_current_dir() == old(self).spec_current_dir(),
            final(self).spec_sink() == Some(tx),
    {
        self.command_log_tx = Some(tx);
    }

    pub fn program(&self) -> (r: &String)
        ensures
            r@ == self.spec_program(),
    {
        &self.program
    }

    pub fn args(&self) -> (r: &Vec<String>)
        ensures
            r@ == self.spec_args(),
    {
        &self.args
    }

    pub fn workdir(&self) -> (r: &Option<String>)
        ensures
            r is Some <==> self.spec_current_dir() is Some,
            r matches Some(d) ==> self.spec_current_dir() == Some(d@),
    {
        &self.current_dir
    }

    /// A fresh handle to the attached sink channel, when one is attached.
    pub fn clone_sink(&self) -> (r: Option<tokio::sync::mpsc::UnboundedSender<String>>)
        ensures
            r == self.spec_sink(),
    {
        match &self.command_log_tx {
            Some(tx) => Some(sink_clone(tx)),
            None => None,
        }
    }
}

} // verus!
