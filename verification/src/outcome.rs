//! Reading the event stream of a running invocation: keeping the last
//! diagnostic line, and turning the exit status into a result.

use vstd::prelude::*;
use crate::numfmt::{spec_int_string, i32_to_string};

verus! {

/// The diagnostic line reported before any output arrived.
pub open spec fn spec_default_diagnostic() -> Seq<char> {
    "Unknown FFmpeg Error"@
}

/// The failure message for a video invocation that left with `code`,
/// carrying the last diagnostic line seen.
pub open spec fn spec_video_failure(code: int, last: Seq<char>) -> Seq<char> {
    "FFmpeg Stopped/Crashed (Code "@ + spec_int_string(code) + "): "@ + last
}

/// The failure message for an animated-image invocation that left with
/// `code`.
pub open spec fn spec_gif_failure(code: int) -> Seq<char> {
    "GIF conversion failed with exit code: "@ + spec_int_string(code)
}

/// What the stream consumer remembers while an invocation runs: the
/// last diagnostic line the process wrote.
pub struct Relay {
    pub last_line: String,
}

impl Relay {
    /// Starts following a fresh invocation.
    pub fn new() -> (r: Relay)
        ensures
            r.last_line@ == spec_default_diagnostic(),
    {
        Relay { last_line: "Unknown FFmpeg Error".to_owned() }
    }

    /// Takes one diagnostic line. The line is remembered verbatim, and
    /// is also what the caller forwards to the user interface.
    pub fn on_stderr(&mut self, line: &str)
        ensures
            final(self).last_line@ == line@,
    {
        self.last_line = line.to_owned();
    }

    /// Classifies a termination event. Exit code zero, or a process
    /// that left no code, is success; any other code fails, quoting the
    /// code and the last diagnostic line.
    pub fn on_terminated(&self, code: Option<i32>) -> (r: Result<(), String>)
        ensures
            match code {
                Some(c) => if c != 0 {
                    r matches Err(m) && m@ == spec_video_failure(c as int, self.last_line@)
                } else {
                    r is Ok
                },
                None => r is Ok,
            },
    {
        match code {
            Some(c) => {
                if c != 0 {
                    let mut m: String = "FFmpeg Stopped/Crashed (Code ".to_owned();
                    m.append(i32_to_string(c).as_str());
                    m.append("): ");
                    m.append(self.last_line.as_str());
                    proof {
                        assert(m@ =~= spec_video_failure(c as int, self.last_line@));
                    }
                    Err(m)
                } else {
                    Ok(())
                }
            },
            None => Ok(()),
        }
    }
}

/// Classifies the termination of the animated-image path: exit code
/// zero or no code is success, any other code fails with the code in
/// the message.
pub fn gif_terminated(code: Option<i32>) -> (r: Result<(), String>)
    ensures
        match code {
            Some(c) => if c != 0 {
                r matches Err(m) && m@ == spec_gif_failure(c as int)
            } else {
                r is Ok
            },
            None => r is Ok,
        },
{
    match code {
        Some(c) => {
            if c != 0 {
                let mut m: String = "GIF conversion failed with exit code: ".to_owned();
                m.append(i32_to_string(c).as_str());
                proof {
                    assert(m@ =~= spec_gif_failure(c as int));
                }
                Err(m)
            } else {
                Ok(())
            }
        },
        None => Ok(()),
    }
}

} // verus!
