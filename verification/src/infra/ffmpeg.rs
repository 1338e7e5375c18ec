//! The FFmpeg executor: which binary runs, and what is concluded from what
//! a run reports.

use crate::domain::FFMpegCommand;
use crate::infra::process::ProcessError;
use crate::text::{contains_str, first_line, first_line_of, occurs_in, string_of, views};
use vstd::prelude::*;

verus! {

/// Runs FFmpeg jobs with a given binary.
#[derive(Debug, Clone)]
pub struct FFMpegExecutor {
    pub binary_path: String,
}

impl FFMpegExecutor {
    /// An executor of the `ffmpeg` found on the search path.
    pub fn new() -> (res: Self)
        ensures
            res.binary_path@ == "ffmpeg"@,
    {
        FFMpegExecutor { binary_path: string_of("ffmpeg") }
    }

    /// An executor of the given binary.
    pub fn with_binary(binary_path: String) -> (res: Self)
        ensures
            res.binary_path == binary_path,
    {
        FFMpegExecutor { binary_path }
    }

    /// The arguments a job's command is run with.
    pub fn command_args(&self, command: &FFMpegCommand) -> (res: Vec<String>)
        ensures
            views(res@) == command.spec_args(),
    {
        command.to_args()
    }

    /// What a run of `ffmpeg -version` tells: the first line of its output
    /// (`unknown` when it printed nothing) if it succeeded, else that FFmpeg
    /// is not available.
    pub fn version_from_output(success: bool, stdout: &str) -> (res: Result<String, ProcessError>)
        ensures
            success ==> (res matches Ok(v) && v@ == match first_line(stdout@) {
                Some(l) => l,
                None => "unknown"@,
            }),
            !success ==> (res matches Err(ProcessError::FFMpegError(m)) && m@ == "FFMpeg not available"@),
    {
        if success {
            match first_line_of(stdout) {
                Some(l) => Ok(l),
                None => Ok(string_of("unknown")),
            }
        } else {
            Err(ProcessError::FFMpegError(string_of("FFMpeg not available")))
        }
    }
}

impl Default for FFMpegExecutor {
    fn default() -> (res: Self)
        ensures
            res.binary_path@ == "ffmpeg"@,
    {
        FFMpegExecutor::new()
    }
}

/// Whether a line FFmpeg printed reports an error.
pub open spec fn is_error_line(line: Seq<char>) -> bool {
    occurs_in("Error"@, line) || occurs_in("error"@, line)
}

/// What is kept while FFmpeg runs: the last line it printed that reports an
/// error.
#[derive(Debug, Clone)]
pub struct ExecutionMonitor {
    pub last_error: String,
}

impl ExecutionMonitor {
    /// A monitor that has seen no line yet.
    pub fn new() -> (res: Self)
        ensures
            res.last_error@.len() == 0,
    {
        ExecutionMonitor { last_error: String::new() }
    }

    /// Looks at a line FFmpeg printed, keeping it when it reports an error.
    pub fn observe(&mut self, line: &str)
        ensures
            final(self).last_error@ == if is_error_line(line@) {
                line@
            } else {
                old(self).last_error@
            },
    {
        if contains_str(line, "Error") || contains_str(line, "error") {
            self.last_error = string_of(line);
        }
    }

    /// The outcome of the run once FFmpeg has exited: the size of the output
    /// (0 when it cannot be read) on success, else the exit code (-1 when the
    /// process was ended by a signal) with the last error line.
    pub fn finish(self, success: bool, exit_code: Option<i32>, output_size: Option<u64>) -> (res:
        Result<u64, ProcessError>)
        ensures
            success ==> res == Ok::<u64, ProcessError>(
                match output_size {
                    Some(n) => n,
                    None => 0,
                },
            ),
            !success ==> res == Err::<u64, ProcessError>(
                ProcessError::NonZeroExit {
                    code: match exit_code {
                        Some(c) => c,
                        None => -1i32,
                    },
                    stderr: self.last_error,
                },
            ),
    {
        if success {
            match output_size {
                Some(n) => Ok(n),
                None => Ok(0),
            }
        } else {
            let code = match exit_code {
                Some(c) => c,
                None => -1,
            };
            Err(ProcessError::NonZeroExit { code, stderr: self.last_error })
        }
    }
}

} // verus!
