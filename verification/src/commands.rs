//! The decision logic of the command surface.  Every handler the GUI shell
//! invokes returns either a success payload or a human-readable error
//! string; the functions here decide, from plain values, which reply a
//! handler gives.  The I/O itself (files, clipboard, subprocesses) stays
//! with the callers.

use vstd::prelude::*;

verus! {

use crate::text::concat2;
use crate::text::concat4;
use crate::text::contains_seq;
use crate::text::lemma_contains_extend_left;
use crate::text::lemma_contains_extend_right;
use crate::text::lemma_contains_self;
use crate::text::trim_spec;
use crate::text::trim_str;
use vstd::string::StrSliceExecFns;

/// What the interpreter reported back from running a source snippet with
/// its standard output captured.
pub struct ExecCapture {
    /// Everything the snippet wrote to the interpreter's standard output.
    pub stdout: String,
    /// The printed representation of the `result` variable the snippet
    /// bound, if it bound one.
    pub result_repr: Option<String>,
}

/// The reply of the execute command: the captured output, trimmed, when the
/// snippet printed anything; otherwise the `result` binding's
/// representation; otherwise a generic success message.  A failed run is
/// reported as an execution error.
pub fn execute_outcome(raw: Result<ExecCapture, String>) -> (r: Result<String, String>)
    ensures
        (match raw {
            Err(e) => r matches Err(m) && m@ == "Python execution error: "@ + e@,
            Ok(c) => (if c.stdout@.len() > 0 {
                r matches Ok(m) && m@ == trim_spec(c.stdout@)
            } else {
                match c.result_repr {
                    Some(v) => r matches Ok(m) && m@ == v@,
                    None => r matches Ok(m) && m@ == "Code executed successfully"@,
                }
            }),
        }),
{
    match raw {
        Err(e) => Err(concat2("Python execution error: ", e.as_str())),
        Ok(c) => {
            if c.stdout.as_str().unicode_len() > 0 {
                Ok(trim_str(c.stdout.as_str()))
            } else {
                match c.result_repr {
                    Some(v) => Ok(v),
                    None => Ok("Code executed successfully".to_owned()),
                }
            }
        },
    }
}

/// The reply of the expression-evaluation command: the value's printed
/// representation on success, an evaluation-error message otherwise.
pub fn evaluate_outcome(raw: Result<String, String>) -> (r: Result<String, String>)
    ensures
        (match raw {
            Ok(v) => r matches Ok(m) && m@ == v@,
            Err(e) => r matches Err(m) && m@ == "Python evaluation error: "@ + e@,
        }),
{
    match raw {
        Ok(v) => Ok(v),
        Err(e) => Err(concat2("Python evaluation error: ", e.as_str())),
    }
}

/// The reply of the interpreter self-test: the evaluated value behind a
/// fixed prefix, or the error behind another.
pub fn test_python_message(raw: Result<String, String>) -> (r: Result<String, String>)
    ensures
        (match raw {
            Ok(v) => r matches Ok(m) && m@ == "Python result: "@ + v@,
            Err(e) => r matches Err(m) && m@ == "Python error: "@ + e@,
        }),
{
    match raw {
        Ok(v) => Ok(concat2("Python result: ", v.as_str())),
        Err(e) => Err(concat2("Python error: ", e.as_str())),
    }
}

/// The reply of the run-a-source-file command once the file's text has been
/// handed to the interpreter.
pub fn run_source_message(raw: Result<(), String>) -> (r: Result<String, String>)
    ensures
        (match raw {
            Ok(_) => r matches Ok(m) && m@ == "Python file executed successfully"@,
            Err(e) => r matches Err(m) && m@ == "Python file execution error: "@ + e@,
        }),
{
    match raw {
        Ok(_) => Ok("Python file executed successfully".to_owned()),
        Err(e) => Err(concat2("Python file execution error: ", e.as_str())),
    }
}

/// The error message reported when the source file itself could not be
/// read, with the offending path embedded.
pub open spec fn run_file_read_error_spec(path: Seq<char>, cause: Seq<char>) -> Seq<char> {
    "Failed to read Python file '"@ + path + "': "@ + cause
}

/// Build the error reported when the source file itself could not be read.
pub fn run_file_read_error(path: &str, cause: &str) -> (r: String)
    ensures
        r@ == run_file_read_error_spec(path@, cause@),
{
    concat4("Failed to read Python file '", path, "': ", cause)
}

/// A failed read of a Python source file is always reported with the
/// offending path inside the message.
pub proof fn lemma_run_file_read_error_names_path(path: Seq<char>, cause: Seq<char>)
    ensures
        contains_seq(run_file_read_error_spec(path, cause), path),
{
    lemma_contains_self(path);
    lemma_contains_extend_left("Failed to read Python file '"@, path, path);
    lemma_contains_extend_right("Failed to read Python file '"@ + path, "': "@, path);
    lemma_contains_extend_right("Failed to read Python file '"@ + path + "': "@, cause, path);
}

/// The error message of a failed file read, with the offending path
/// embedded.
pub open spec fn read_file_error_spec(path: Seq<char>, cause: Seq<char>) -> Seq<char> {
    "Failed to read file '"@ + path + "': "@ + cause
}

/// Build the failed-file-read error message.
pub fn read_file_error(path: &str, cause: &str) -> (r: String)
    ensures
        r@ == read_file_error_spec(path@, cause@),
{
    concat4("Failed to read file '", path, "': ", cause)
}

/// A failed file read is always reported with the offending path inside
/// the message.
pub proof fn lemma_read_file_error_names_path(path: Seq<char>, cause: Seq<char>)
    ensures
        contains_seq(read_file_error_spec(path, cause), path),
{
    lemma_contains_self(path);
    lemma_contains_extend_left("Failed to read file '"@, path, path);
    lemma_contains_extend_right("Failed to read file '"@ + path, "': "@, path);
    lemma_contains_extend_right("Failed to read file '"@ + path + "': "@, cause, path);
}

/// The error message of a failed file write, with the offending path
/// embedded.
pub open spec fn write_file_error_spec(path: Seq<char>, cause: Seq<char>) -> Seq<char> {
    "Failed to write file '"@ + path + "': "@ + cause
}

/// Build the failed-file-write error message.
pub fn write_file_error(path: &str, cause: &str) -> (r: String)
    ensures
        r@ == write_file_error_spec(path@, cause@),
{
    concat4("Failed to write file '", path, "': ", cause)
}

/// A failed file write is always reported with the offending path inside
/// the message.
pub proof fn lemma_write_file_error_names_path(path: Seq<char>, cause: Seq<char>)
    ensures
        contains_seq(write_file_error_spec(path, cause), path),
{
    lemma_contains_self(path);
    lemma_contains_extend_left("Failed to write file '"@, path, path);
    lemma_contains_extend_right("Failed to write file '"@ + path, "': "@, path);
    lemma_contains_extend_right("Failed to write file '"@ + path + "': "@, cause, path);
}

/// The error reported when the OS clipboard could not be written.
pub fn clipboard_write_error(cause: &str) -> (r: String)
    ensures
        r@ == "Clipboard write failed: "@ + cause@,
{
    concat2("Clipboard write failed: ", cause)
}

/// The error reported when the OS clipboard could not be read.
pub fn clipboard_read_error(cause: &str) -> (r: String)
    ensures
        r@ == "Clipboard read failed: "@ + cause@,
{
    concat2("Clipboard read failed: ", cause)
}

/// The host platforms the folder-open command distinguishes.
#[derive(Debug, Clone, Copy, PartialEq, Eq, Structural)]
pub enum HostOs {
    Windows,
    MacOs,
    Linux,
    Other,
}

/// How the spawned file-manager process looked when last observed.
#[derive(Debug, Clone, Copy, PartialEq, Eq, Structural)]
pub enum SpawnStatus {
    /// The process exited and reported success.
    ExitedSuccess,
    /// The process exited and reported failure.
    ExitedFailure,
    /// The process was still running, or its status could not be read.
    Running,
}

/// The reply of the folder-open command.  On Windows any spawned explorer
/// counts as success, even one that exited non-zero: explorer is known to
/// do so when the folder is already open.  On the other platforms a
/// non-zero exit is a failure.
pub fn open_folder_outcome(os: HostOs, spawn: Result<SpawnStatus, String>) -> (r: Result<
    (),
    String,
>)
    ensures
        (match os {
            HostOs::Windows => (match spawn {
                Ok(_) => r is Ok,
                Err(e) => r matches Err(m) && m@ == "Failed to start explorer: "@ + e@,
            }),
            HostOs::MacOs => (match spawn {
                Ok(SpawnStatus::ExitedSuccess) => r is Ok,
                Ok(_) => r matches Err(m) && m@ == "Failed to open folder (macOS)"@,
                Err(e) => r matches Err(m) && m@ == "Failed to execute open command: "@ + e@,
            }),
            HostOs::Linux => (match spawn {
                Ok(SpawnStatus::ExitedSuccess) => r is Ok,
                Ok(_) => r matches Err(m) && m@ == "Failed to open folder (Linux)"@,
                Err(e) => r matches Err(m) && m@ == "Failed to execute xdg-open command: "@
                    + e@,
            }),
            HostOs::Other => r matches Err(m) && m@ == "Unsupported operating system"@,
        }),
{
    match os {
        HostOs::Windows => {
            match spawn {
                Ok(_) => Ok(()),
                Err(e) => Err(concat2("Failed to start explorer: ", e.as_str())),
            }
        },
        HostOs::MacOs => {
            match spawn {
                Ok(SpawnStatus::ExitedSuccess) => Ok(()),
                Ok(_) => Err("Failed to open folder (macOS)".to_owned()),
                Err(e) => Err(concat2("Failed to execute open command: ", e.as_str())),
            }
        },
        HostOs::Linux => {
            match spawn {
                Ok(SpawnStatus::ExitedSuccess) => Ok(()),
                Ok(_) => Err("Failed to open folder (Linux)".to_owned()),
                Err(e) => Err(concat2("Failed to execute xdg-open command: ", e.as_str())),
            }
        },
        HostOs::Other => Err("Unsupported operating system".to_owned()),
    }
}

} // verus!
