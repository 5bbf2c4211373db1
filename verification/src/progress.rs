//! The handle of a program that has been started, and what its completion
//! comes to.
//!
//! The library decides; the caller acts. [`ProgramAndArgs::run`] says how the
//! child is to be launched, the caller launches it and waits for it, and
//! [`RunProgress::complete`] turns what the caller collected into the outcome.
//! A handle is consumed by its completion, so it is completed at most once.

use vstd::prelude::*;
use crate::command::LaunchPlan;
use crate::command::ProgramAndArgs;
use crate::command::ProgramAndArgsView;
use crate::command::command_line;
use crate::outcome::ProcessOutput;
use crate::outcome::RunError;
use crate::outcome::RunErrorView;
use crate::outcome::RunStringResult;
use crate::outcome::error_text;
use crate::outcome::output_text;
use crate::text::texts;
use crate::twin::FlagStringTwin;

verus! {

/// A program in progress: which program it is, for naming it in an error,
/// and how it was launched.
#[derive(Debug)]
pub struct RunProgress {
    program: ProgramAndArgs,
    command: LaunchPlan,
}

/// What the caller hands back when the child is done: what was collected, or
/// the operating system's description of why launching, reading or waiting
/// failed.
pub type Collected = Result<ProcessOutput, String>;

/// The error of a run of `program` that failed with the operating system's
/// message `os_error`: it names the whole command line.
pub open spec fn failure_of(program: ProgramAndArgsView, os_error: Seq<char>) -> RunErrorView {
    RunErrorView { program: command_line(program), error: os_error }
}

/// The text that a completed run comes to, whichever way it went.
pub open spec fn completion_text(program: ProgramAndArgsView, collected: Collected) -> Seq<char> {
    match collected {
        Ok(output) => output_text(output.stdout@, output.stderr@),
        Err(os_error) => error_text(failure_of(program, os_error@)),
    }
}

impl ProgramAndArgs {
    /// Starts the run of this program: the handle names the program and
    /// carries the launch that the caller is to perform at once.
    pub fn run(self) -> (progress: RunProgress)
        ensures
            progress.program() == self@,
            progress.launch_program() == self@.program,
            progress.launch_args() == self@.args,
            progress.kills_on_drop(),
    {
        let command = self.command();
        RunProgress { program: self, command }
    }
}

impl RunProgress {
    /// The program that is in progress.
    pub closed spec fn program(self) -> ProgramAndArgsView {
        self.program@
    }

    /// The program that the launch starts.
    pub closed spec fn launch_program(self) -> Seq<char> {
        self.command.program@
    }

    /// The arguments that the launch passes.
    pub closed spec fn launch_args(self) -> Seq<Seq<char>> {
        texts(self.command.args@)
    }

    /// Whether dropping the handle of the child kills the child.
    pub closed spec fn kills_on_drop(self) -> bool {
        self.command.kill_on_drop
    }

    /// How the child is to be launched.
    pub fn command(&self) -> (plan: &LaunchPlan)
        ensures
            plan.program@ == self.launch_program(),
            texts(plan.args@) == self.launch_args(),
            plan.kill_on_drop == self.kills_on_drop(),
    {
        &self.command
    }

    /// Completes the run. If the child was launched and its output
    /// collected, the outcome is the report of that output, whatever the
    /// exit code; otherwise it is the error, naming this program.
    pub fn complete(self, collected: Collected) -> (outcome: RunStringResult)
        ensures
            match collected {
                Ok(output) => outcome is Ok && outcome->Ok_0@ == output_text(
                    output.stdout@,
                    output.stderr@,
                ),
                Err(os_error) => outcome is Err && outcome->Err_0@ == failure_of(
                    self.program(),
                    os_error@,
                ),
            },
    {
        match collected {
            Ok(output) => Ok(output.render()),
            Err(error) => Err(RunError::new(self.program.to_string(), error)),
        }
    }

    /// Completes the run into a twin: the flag says whether the output was
    /// collected, the value is the report of the output or the error's
    /// message.
    pub fn complete_chainable(self, collected: Collected) -> (twin: FlagStringTwin)
        ensures
            twin.is_ok == (collected is Ok),
            twin.value@ == completion_text(self.program(), collected),
    {
        match collected {
            Ok(output) => FlagStringTwin::new(Ok(output.render())),
            Err(error) => {
                let err = RunError::new(self.program.to_string(), error);
                FlagStringTwin::new(Err(err.to_string()))
            },
        }
    }
}

} // verus!
