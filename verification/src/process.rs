//! The computing half of the process runner: interpreting exit statuses
//! and shaping the forwarded output lines.
//!
//! The runner itself spawns one external command with both output streams
//! captured, drains them concurrently into a single ordered line sequence,
//! and reduces the exit to success or failure.  Spawning and draining are
//! the runtime's work; what a line looks like when forwarded and what an
//! exit status means are decided here.

use vstd::prelude::*;

verus! {

/// One item of the merged output streams of a running process.
#[derive(Debug)]
pub enum ProcessUpdate {
    /// One line of output, as read from the process.
    Line(String),
    /// Reading the output failed; the text describes the error.
    Error(String),
}

/// Why running an external command failed.
#[derive(Debug)]
pub enum ProcessError {
    /// The executable could not be spawned; the text describes the cause.
    SpawnFailed(String),
    /// The process ran but exited non-zero; carries the exit code, or
    /// `None` when the process was ended by a signal.
    ProcessFailed(Option<i32>),
    /// An input/output error occurred while draining the output streams.
    StreamFailed(String),
}

/// What `str::trim` returns for the given characters.  Whitespace is the
/// Unicode property the standard library uses, so the result is named
/// rather than spelled out.
pub uninterp spec fn trimmed(s: Seq<char>) -> Seq<char>;

/// What `String::from_utf8_lossy` decodes the given bytes to.
pub uninterp spec fn decoded_lossy(bytes: Seq<u8>) -> Seq<char>;

/// Relies on `str::trim`: the input without leading and trailing
/// whitespace, a function of the characters alone.
#[verifier::external_body]
fn trim_str<'a>(s: &'a str) -> (r: &'a str)
    ensures
        r@ == trimmed(s@),
{
    s.trim()
}

/// Relies on `String::from_utf8_lossy`: the bytes decoded as UTF-8, with
/// replacement characters where the bytes are not valid UTF-8, a function
/// of the bytes alone.
#[verifier::external_body]
fn decode_utf8_lossy(bytes: &[u8]) -> (r: String)
    ensures
        r@ == decoded_lossy(bytes@),
{
    String::from_utf8_lossy(bytes).into_owned()
}

/// Reduces an exit status to the runner's result: success exactly on exit
/// code zero; any other exit — a non-zero code or death by signal — is a
/// `ProcessFailed` carrying that exit status.
pub fn exit_result(exit_code: Option<i32>) -> (r: Result<(), ProcessError>)
    ensures
        exit_code == Some(0i32) ==> r is Ok,
        exit_code != Some(0i32) ==> (r matches Err(ProcessError::ProcessFailed(c)) && c
            == exit_code),
{
    match exit_code {
        Some(0) => Ok(()),
        _ => Err(ProcessError::ProcessFailed(exit_code)),
    }
}

/// The log line forwarded for one line of process output: the line,
/// trimmed, prefixed with the command's name in brackets.
pub fn format_line(name: &str, line: &str) -> (r: String)
    ensures
        r@ == "["@ + name@ + "] "@ + trimmed(line@),
{
    let mut r = "[".to_owned();
    r.append(name);
    r.append("] ");
    r.append(trim_str(line));
    r
}

impl ProcessUpdate {
    /// The log line the runner emits for this update, tagged with the
    /// command's name.
    pub fn log_text(&self, name: &str) -> (r: String)
        ensures
            self matches ProcessUpdate::Line(l) ==> r@ == "["@ + name@ + "] "@ + trimmed(l@),
            self matches ProcessUpdate::Error(e) ==> r@ == "Failed to pipe process output: "@
                + e@,
    {
        match self {
            ProcessUpdate::Line(l) => format_line(name, l.as_str()),
            ProcessUpdate::Error(e) => {
                let mut r = "Failed to pipe process output: ".to_owned();
                r.append(e.as_str());
                r
            },
        }
    }
}

/// The captured standard output of a finished process, decoded leniently
/// and trimmed — the shape the version query reports the short commit hash
/// in.
pub fn parse_output(bytes: &Vec<u8>) -> (r: String)
    ensures
        r@ == trimmed(decoded_lossy(bytes@)),
{
    let s = decode_utf8_lossy(bytes.as_slice());
    trim_str(s.as_str()).to_owned()
}

} // verus!
