//! Output sinks: where a finished line is written.  Writing is best-effort
//! and side-effecting; nothing is surfaced to the caller.

use vstd::prelude::*;
use std::io::Write;
use vstd::string::StringExecFns;

verus! {

/// Writes a finished log line to a destination, best-effort: failures are
/// swallowed, nothing is surfaced to the caller.
pub trait Output {
    fn write(&self, message: &str);
}

/// Writes each line to standard output.
pub struct StdoutOutput;

/// Relies on `std::io::stdout` together with the line-writing macro: one
/// line per call, best-effort.
#[verifier::external_body]
fn write_stdout_line(message: &str) {
    let mut handle = std::io::stdout();
    let _ = writeln!(handle, "{}", message);
}

/// Relies on `std::io::stderr` together with the line-writing macro: one
/// line per call, best-effort.
#[verifier::external_body]
fn write_stderr_line(message: &str) {
    let mut handle = std::io::stderr();
    let _ = writeln!(handle, "{}", message);
}

impl Output for StdoutOutput {
    fn write(&self, message: &str) {
        write_stdout_line(message);
    }
}

/// Writes each line to standard error.
pub struct StderrOutput;

impl Output for StderrOutput {
    fn write(&self, message: &str) {
        write_stderr_line(message);
    }
}

/// Names an append-only file target.  This type only carries the configured
/// path; the append itself is file I/O and lives with the embedding
/// application's sink, which opens, appends and closes on every call.
pub struct FileOutput {
    path: String,
}

impl View for FileOutput {
    type V = Seq<char>;

    /// A file target is modelled by its configured path.
    closed spec fn view(&self) -> Seq<char> {
        self.path@
    }
}

impl FileOutput {
    pub fn new(path: &str) -> (r: FileOutput)
        ensures
            r@ == path@,
    {
        FileOutput { path: String::from_str(path) }
    }

    /// The configured path.
    pub fn path(&self) -> (r: &str)
        ensures
            r@ == self@,
    {
        self.path.as_str()
    }
}

/// One configured sink of a fan-out output.
pub enum SinkChoice {
    Stdout(StdoutOutput),
    Stderr(StderrOutput),
    File(FileOutput),
}

/// Fans a line out to an ordered list of sinks, written sequentially.  The
/// writing itself is I/O and lives with the embedding application; this type
/// carries the configured list.
pub struct MultiOutput {
    pub outputs: Vec<SinkChoice>,
}

impl MultiOutput {
    pub fn new() -> (r: MultiOutput)
        ensures
            r.outputs@ == Seq::<SinkChoice>::empty(),
    {
        MultiOutput { outputs: Vec::new() }
    }

    pub fn add_output(self, output: SinkChoice) -> (r: MultiOutput)
        ensures
            r.outputs@ == self.outputs@.push(output),
    {
        let mut s = self;
        s.outputs.push(output);
        s
    }
}

} // verus!
