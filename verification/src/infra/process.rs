//! Errors of the outside processes.

use crate::text::{int_text, push_i64, push_str};
use vstd::prelude::*;

verus! {

/// What can go wrong when running FFmpeg or FFprobe.
#[derive(Debug, Clone)]
pub enum ProcessError {
    /// The process could not be started; the operating system's message.
    SpawnError(String),
    /// The process ended with a failure code; the last error line it printed.
    NonZeroExit { code: i32, stderr: String },
    Killed,
    ParseError(String),
    Timeout,
    FFMpegError(String),
    InvalidInput(String),
}

impl ProcessError {
    /// The message shown for the error.
    pub open spec fn spec_message(self) -> Seq<char> {
        match self {
            ProcessError::SpawnError(e) => "Failed to spawn process: "@ + e@,
            ProcessError::NonZeroExit { code, .. } => "Process exited with non-zero status: "@
                + int_text(code as int),
            ProcessError::Killed => "Process was killed by signal"@,
            ProcessError::ParseError(e) => "Failed to parse output: "@ + e@,
            ProcessError::Timeout => "Process timed out"@,
            ProcessError::FFMpegError(e) => "FFmpeg error: "@ + e@,
            ProcessError::InvalidInput(e) => "Invalid input: "@ + e@,
        }
    }

    /// Returns the message shown for the error.
    pub fn message(&self) -> (res: String)
        ensures
            res@ == self.spec_message(),
    {
        let mut s = String::new();
        match self {
            ProcessError::SpawnError(e) => {
                push_str(&mut s, "Failed to spawn process: ");
                push_str(&mut s, e.as_str());
            },
            ProcessError::NonZeroExit { code, .. } => {
                push_str(&mut s, "Process exited with non-zero status: ");
                push_i64(&mut s, *code as i64);
            },
            ProcessError::Killed => push_str(&mut s, "Process was killed by signal"),
            ProcessError::ParseError(e) => {
                push_str(&mut s, "Failed to parse output: ");
                push_str(&mut s, e.as_str());
            },
            ProcessError::Timeout => push_str(&mut s, "Process timed out"),
            ProcessError::FFMpegError(e) => {
                push_str(&mut s, "FFmpeg error: ");
                push_str(&mut s, e.as_str());
            },
            ProcessError::InvalidInput(e) => {
                push_str(&mut s, "Invalid input: ");
                push_str(&mut s, e.as_str());
            },
        }
        s
    }
}

} // verus!
