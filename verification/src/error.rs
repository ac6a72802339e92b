use std::io::Write;
use vstd::prelude::*;

verus! {

/// The closed set of failures shared by every build stage. Causes from
/// outside the library are carried opaquely, as their rendered message.
#[derive(Debug, Clone, PartialEq, Eq)]
pub enum CompileError {
    /// An input or tool path did not exist at invocation time.
    FileNotFound(String),
    /// The toolchain exited with non-zero status; the full captured streams
    /// are preserved.
    Execution { stdout: String, stderr: String },
    /// The downstream native-code generator failed.
    Lucetc { msg: String },
    /// A filesystem operation failed.
    IO { msg: String },
}

/// Relies on std::io::Stdout::write_all: copies the captured stream to the
/// driving process's standard output, ignoring any write failure.
#[verifier::external_body]
fn echo_stdout(s: &str) {
    let _ = std::io::stdout().write_all(s.as_bytes());
}

/// Relies on std::io::Stderr::write_all: copies the captured stream to the
/// driving process's standard error, ignoring any write failure.
#[verifier::external_body]
fn echo_stderr(s: &str) {
    let _ = std::io::stderr().write_all(s.as_bytes());
}

impl CompileError {
    /// Decide the outcome of a finished toolchain subprocess from its exit
    /// state and captured streams: success is `Ok`, anything else is an
    /// execution error carrying both streams in full. When `print` is set,
    /// the captured streams are first echoed to the driver's own standard
    /// streams, whatever the status was.
    pub fn check(success: bool, stdout: String, stderr: String, print: bool) -> (r: Result<
        (),
        CompileError,
    >)
        ensures
            r is Ok <==> success,
            !success ==> (r matches Err(CompileError::Execution { stdout: out, stderr: err })
                && out == stdout && err == stderr),
    {
        if print {
            echo_stdout(stdout.as_str());
            echo_stderr(stderr.as_str());
        }
        if success {
            Ok(())
        } else {
            Err(CompileError::Execution { stdout, stderr })
        }
    }
}

} // verus!
