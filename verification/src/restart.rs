//! Restarting a module on behalf of an operator.
//!
//! The command asks the module runtime to restart one module and, once that
//! is done, writes the module's name on a line of its own. Asking and
//! writing are the caller's part; what to do next, and how the command
//! ends, is decided here.

use vstd::prelude::*;

verus! {

/// The command that restarts one module.
pub struct Restart<M, W> {
    pub id: String,
    pub runtime: M,
    pub output: W,
}

/// Why a restart command failed.
#[derive(Clone, Copy, Debug, PartialEq, Eq, Structural)]
pub enum RestartError {
    /// The module runtime did not restart the module.
    ModuleRuntime,
    /// The module's name could not be written out.
    WriteToStdout,
}

/// What has happened to a restart command so far.
#[derive(Clone, Copy, Debug, PartialEq, Eq, Structural)]
pub enum RestartEvent {
    /// The command was given.
    Started,
    /// The runtime restarted the module.
    Restarted,
    /// The runtime failed to restart the module.
    RestartFailed,
    /// The line was written.
    Written,
    /// The line could not be written.
    WriteFailed,
}

/// What a restart command asks of its caller next.
#[derive(Debug)]
pub enum RestartAction {
    /// Ask the runtime to restart the module of this name.
    RestartModule(String),
    /// Write this line to the output.
    WriteLine(String),
    /// The command has ended, well or with an error.
    Finish(Result<(), RestartError>),
}

impl<M, W> Restart<M, W> {
    /// The command that restarts module `id` in `runtime` and reports to
    /// `output`.
    pub fn new(id: String, runtime: M, output: W) -> (command: Self)
        ensures
            command.id == id,
            command.runtime == runtime,
            command.output == output,
    {
        Restart { id, runtime, output }
    }

    /// The next action of the command after `event`. The module is
    /// restarted first; its name, followed by a line feed, is written only
    /// after the restart went well; and the first failure ends the command.
    pub fn execute(&self, event: RestartEvent) -> (action: RestartAction)
        ensures
            match event {
                RestartEvent::Started => action matches RestartAction::RestartModule(id) && id@
                    == self.id@,
                RestartEvent::Restarted => action matches RestartAction::WriteLine(line) && line@
                    == self.id@.push('\n'),
                RestartEvent::RestartFailed => action matches RestartAction::Finish(
                    Err(RestartError::ModuleRuntime),
                ),
                RestartEvent::Written => action matches RestartAction::Finish(Ok(())),
                RestartEvent::WriteFailed => action matches RestartAction::Finish(
                    Err(RestartError::WriteToStdout),
                ),
            },
    {
        match event {
            RestartEvent::Started => RestartAction::RestartModule(self.id.clone()),
            RestartEvent::Restarted => {
                let mut line = self.id.clone();
                line.push('\n');
                RestartAction::WriteLine(line)
            },
            RestartEvent::RestartFailed => RestartAction::Finish(Err(RestartError::ModuleRuntime)),
            RestartEvent::Written => RestartAction::Finish(Ok(())),
            RestartEvent::WriteFailed => RestartAction::Finish(Err(RestartError::WriteToStdout)),
        }
    }
}

} // verus!
