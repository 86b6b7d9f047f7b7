//! The backend's interface to the embedded Python interpreter.  Each call
//! into the interpreter goes through one trusted wrapper; the functions
//! around them decide, verified, what the command surface replies.

use pyo3::types::PyAnyMethods;
use pyo3::types::PyDictMethods;
use vstd::prelude::*;

verus! {

use crate::commands::ExecCapture;
use crate::commands::evaluate_outcome;
use crate::commands::execute_outcome;
use crate::commands::run_source_message;
use crate::commands::test_python_message;
use crate::provenance::InterpreterProbe;
use crate::provenance::PythonType;
use crate::provenance::classification_outcome;
use crate::report::DiagnosticContext;
use crate::report::debug_python_environment_report;
use crate::report::python_info_report;
use crate::text::concat2;
use crate::text::lemma_prefix_of_concat;

/// Relies on pyo3's `Python::with_gil` and `Python::eval_bound`: evaluates
/// one Python expression and hands back the value's printed representation,
/// or the raised error rendered as a string.  What comes back depends on the
/// interpreter's state, so nothing is promised of it.
#[verifier::external_body]
fn py_eval_repr(expr: &str) -> (r: Result<String, String>) {
    pyo3::Python::with_gil(
        |py|
            match py.eval_bound(expr, None, None) {
                Ok(v) => Ok(v.to_string()),
                Err(e) => Err(e.to_string()),
            },
    )
}

/// Relies on pyo3's `Python::run_bound`, `Python::import_bound` and the
/// `sys`/`io` modules: runs Python statements with `sys.stdout` redirected
/// to a fresh `io.StringIO`, then hands back what was written together with
/// the printed representation of a `result` variable the statements bound,
/// or the raised error rendered as a string.
#[verifier::external_body]
fn py_run_capture(code: &str) -> (r: Result<ExecCapture, String>) {
    pyo3::Python::with_gil(|py| {
        let sys = py.import_bound("sys")?;
        let buf = py.import_bound("io")?.getattr("StringIO")?.call0()?;
        let prev = sys.getattr("stdout")?;
        sys.setattr("stdout", &buf)?;
        let locals = pyo3::types::PyDict::new_bound(py);
        let outcome = py.run_bound(code, None, Some(&locals));
        let _ = sys.setattr("stdout", prev);
        outcome?;
        let stdout = buf.call_method0("getvalue")?.to_string();
        let result_repr = locals.get_item("result").ok().flatten().map(|v| v.to_string());
        Ok(ExecCapture { stdout, result_repr })
    }).map_err(|e: pyo3::PyErr| e.to_string())
}

/// Relies on pyo3's `Python::run_bound`: runs Python statements against a
/// fresh local namespace and reports whether they raised, the error rendered
/// as a string.
#[verifier::external_body]
fn py_run(code: &str) -> (r: Result<(), String>) {
    pyo3::Python::with_gil(|py| {
        let locals = pyo3::types::PyDict::new_bound(py);
        py.run_bound(code, None, Some(&locals)).map_err(|e| e.to_string())
    })
}

/// Relies on pyo3's `Python::with_gil` and `Python::import_bound`: reads
/// `sys.version`, `sys.executable`, whether `sys.modules` holds
/// `oxidized_importer`, whether `sys.frozen` is set and non-empty, and
/// `sys.path`.  The values depend on the host environment, so nothing is
/// promised of them.
#[verifier::external_body]
fn py_probe() -> (r: Result<InterpreterProbe, String>) {
    pyo3::Python::with_gil(|py| {
        let sys = py.import_bound("sys")?;
        let version = sys.getattr("version")?.extract::<String>()?;
        let executable = sys.getattr("executable")?.extract::<String>()?;
        let oxidized_importer_loaded =
            sys.getattr("modules").and_then(|m| m.contains("oxidized_importer")).unwrap_or(false);
        let frozen_attr_set = sys.getattr("frozen").map(|f| !f.is_none()).unwrap_or(false);
        let module_paths =
            sys.getattr("path").and_then(|p| p.extract::<Vec<String>>()).unwrap_or_default();
        Ok(InterpreterProbe {
            version, executable, oxidized_importer_loaded, frozen_attr_set, module_paths,
        })
    }).map_err(|e: pyo3::PyErr| e.to_string())
}

/// The interpreter self-test: evaluate a trivial expression and report the
/// value behind a fixed prefix.
pub fn test_python() -> (r: Result<String, String>)
    ensures
        r matches Ok(m) ==> "Python result: "@.is_prefix_of(m@),
        r matches Err(m) ==> "Python error: "@.is_prefix_of(m@),
{
    let raw = py_eval_repr("2 + 2");
    let ghost graw = raw;
    let out = test_python_message(raw);
    proof {
        match graw {
            Ok(v) => lemma_prefix_of_concat("Python result: "@, v@),
            Err(e) => lemma_prefix_of_concat("Python error: "@, e@),
        }
    }
    out
}

/// Execute arbitrary Python source, returning what it printed (trimmed), or
/// the representation of the `result` variable it bound, or a generic
/// success message; a failed run is reported behind a fixed error prefix.
pub fn execute_python(code: &str) -> (r: Result<String, String>)
    ensures
        r matches Err(m) ==> "Python execution error: "@.is_prefix_of(m@),
{
    let raw = py_run_capture(code);
    let ghost graw = raw;
    let out = execute_outcome(raw);
    proof {
        if let Err(e) = graw {
            lemma_prefix_of_concat("Python execution error: "@, e@);
        }
    }
    out
}

/// Evaluate a single Python expression and return its printed
/// representation; a failed evaluation is reported behind a fixed error
/// prefix.
pub fn evaluate_python_expression(expression: &str) -> (r: Result<String, String>)
    ensures
        r matches Err(m) ==> "Python evaluation error: "@.is_prefix_of(m@),
{
    let raw = py_eval_repr(expression);
    let ghost graw = raw;
    let out = evaluate_outcome(raw);
    proof {
        if let Err(e) = graw {
            lemma_prefix_of_concat("Python evaluation error: "@, e@);
        }
    }
    out
}

/// Run Python source that came from a file: a fixed message on success, a
/// fixed error prefix on a raise.
pub fn run_python_source(code: &str) -> (r: Result<String, String>)
    ensures
        r matches Ok(m) ==> m@ == "Python file executed successfully"@,
        r matches Err(m) ==> "Python file execution error: "@.is_prefix_of(m@),
{
    let raw = py_run(code);
    let ghost graw = raw;
    let out = run_source_message(raw);
    proof {
        if let Err(e) = graw {
            lemma_prefix_of_concat("Python file execution error: "@, e@);
        }
    }
    out
}

/// Probe the interpreter and classify its provenance.  The classification
/// is `Unknown` exactly when the interpreter could not be queried at all,
/// and then the probe's error is handed back beside it; otherwise it is the
/// six-signal decision, so a set build-time flag can never yield `System`.
pub fn detect_python_environment(
    embedded_build_flag: bool,
    recorded_embedded_path: &str,
    exe_dir: &Option<String>,
) -> (r: (PythonType, Option<String>))
    ensures
        embedded_build_flag ==> r.0 != PythonType::System,
        (r.0 == PythonType::Unknown) == (r.1 is Some),
{
    let probe = py_probe();
    classification_outcome(
        probe,
        embedded_build_flag,
        recorded_embedded_path.to_owned(),
        match exe_dir {
            Some(dir) => Some(dir.clone()),
            None => None,
        },
    )
}

/// The startup initialization: probe the interpreter once and hand back the
/// provenance classification to keep for the process lifetime, beside the
/// probe error when there was one.
pub fn initialize_python(
    embedded_build_flag: bool,
    recorded_embedded_path: &str,
    exe_dir: &Option<String>,
) -> (r: (PythonType, Option<String>))
    ensures
        embedded_build_flag ==> r.0 != PythonType::System,
        (r.0 == PythonType::Unknown) == (r.1 is Some),
{
    detect_python_environment(embedded_build_flag, recorded_embedded_path, exe_dir)
}

/// The environment-information command: probe the interpreter and render
/// the summary report, or an error behind a fixed prefix when the
/// interpreter cannot be queried.  A successful reply always names the
/// startup classification; what else it names of the probed values is the
/// report builder's contract.
pub fn get_python_info(startup_type: PythonType, exe_dir: &Option<String>) -> (r: Result<
    String,
    String,
>)
    ensures
        r matches Ok(m) ==> crate::text::contains_seq(
            m@,
            crate::report::python_type_label_spec(startup_type),
        ),
        r matches Err(m) ==> "Failed to query the Python interpreter: "@.is_prefix_of(m@),
{
    match py_probe() {
        Ok(p) => Ok(python_info_report(startup_type, &p, exe_dir)),
        Err(e) => {
            let m = concat2("Failed to query the Python interpreter: ", e.as_str());
            proof {
                lemma_prefix_of_concat("Failed to query the Python interpreter: "@, e@);
            }
            Err(m)
        },
    }
}

/// The detailed diagnostic command: probe the interpreter and render the
/// debug report; a failed probe is reported inside the text, never as a
/// failure of the command itself.  The text always names the startup
/// classification, the application's executable path when known, and the
/// value of each related environment variable that is set.
pub fn debug_python_environment(ctx: &DiagnosticContext) -> (r: String)
    ensures
        crate::text::contains_seq(r@, crate::report::python_type_label_spec(ctx.startup_type)),
        ctx.app_exe matches Some(v) ==> crate::text::contains_seq(r@, v@),
        ctx.env_pyo3_python matches Some(v) ==> crate::text::contains_seq(r@, v@),
        ctx.env_pythonhome matches Some(v) ==> crate::text::contains_seq(r@, v@),
        ctx.env_pythonpath matches Some(v) ==> crate::text::contains_seq(r@, v@),
{
    let probe = py_probe();
    debug_python_environment_report(ctx, &probe)
}

} // verus!
