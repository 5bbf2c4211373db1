//! What one run of a program comes to: its captured output as text, or the
//! error that kept it from being launched or read.

use vstd::prelude::*;
use crate::text::ascii_text;
use crate::text::ascii_bytes_to_string;

verus! {

/// Why a program could not be run: which program it was, and what the
/// operating system said.
#[derive(Debug)]
pub struct RunError {
    program: String,
    error: String,
}

/// The mathematical content of a [`RunError`].
pub struct RunErrorView {
    pub program: Seq<char>,
    pub error: Seq<char>,
}

impl View for RunError {
    type V = RunErrorView;

    closed spec fn view(&self) -> RunErrorView {
        RunErrorView { program: self.program@, error: self.error@ }
    }
}

/// The message of a failed run.
pub open spec fn error_text(e: RunErrorView) -> Seq<char> {
    "Expected to run "@ + e.program + ", but failed abruptly: "@ + e.error + "."@
}

impl RunError {
    /// An error of running `program`, with the operating system's description
    /// of what went wrong.
    pub fn new(program: String, error: String) -> (e: Self)
        ensures
            e@ == (RunErrorView { program: program@, error: error@ }),
    {
        RunError { program, error }
    }

    /// The program that could not be run, as it is named in the message.
    pub fn program(&self) -> (program: &String)
        ensures
            program@ == self@.program,
    {
        &self.program
    }

    /// The operating system's description of what went wrong.
    pub fn error(&self) -> (error: &String)
        ensures
            error@ == self@.error,
    {
        &self.error
    }

    /// The message shown for this error.
    pub fn to_string(&self) -> (text: String)
        ensures
            text@ == error_text(self@),
    {
        let mut text = "Expected to run ".to_owned();
        text.append(self.program.as_str());
        text.append(", but failed abruptly: ");
        text.append(self.error.as_str());
        text.append(".");
        text
    }
}

/// What a run gives: a value, or the error that kept the program from
/// running.
pub type RunResult<T> = Result<T, RunError>;

/// A run that gives text.
pub type RunStringResult = RunResult<String>;

/// What was collected from a child process that was launched and has ended.
#[derive(Debug)]
pub struct ProcessOutput {
    /// The exit code, if the child ended by exiting. It is carried along and
    /// plays no part in whether the run counts as a success.
    pub exit_code: Option<i32>,
    pub stdout: Vec<u8>,
    pub stderr: Vec<u8>,
}

/// The text that reports what a child wrote: its standard output, then its
/// standard error, each decoded byte by byte under its heading.
pub open spec fn output_text(stdout: Seq<u8>, stderr: Seq<u8>) -> Seq<char> {
    "OUT:\n"@ + ascii_text(stdout) + "\n\nERR:\n"@ + ascii_text(stderr)
}

impl ProcessOutput {
    /// The report of what the child wrote. A child that exited with a
    /// non-zero code, or was ended by a signal, is reported like any other.
    pub fn render(self) -> (text: String)
        ensures
            text@ == output_text(self.stdout@, self.stderr@),
    {
        let mut text = "OUT:\n".to_owned();
        let stdout = ascii_bytes_to_string(self.stdout);
        text.append(stdout.as_str());
        text.append("\n\nERR:\n");
        let stderr = ascii_bytes_to_string(self.stderr);
        text.append(stderr.as_str());
        text
    }
}

} // verus!
