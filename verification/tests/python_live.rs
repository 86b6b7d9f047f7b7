//! These tests drive a live Python interpreter through the backend's
//! command surface.

use vinsert_backend::python::debug_python_environment;
use vinsert_backend::python::detect_python_environment;
use vinsert_backend::python::evaluate_python_expression;
use vinsert_backend::python::execute_python;
use vinsert_backend::python::get_python_info;
use vinsert_backend::python::initialize_python;
use vinsert_backend::python::run_python_source;
use vinsert_backend::python::test_python;
use vinsert_backend::provenance::PythonType;
use vinsert_backend::report::DiagnosticContext;

#[test]
fn evaluate_simple_arithmetic() {
    assert_eq!(evaluate_python_expression("2 + 2"), Ok(String::from("4")));
}

#[test]
fn evaluate_string_expression() {
    assert_eq!(
        evaluate_python_expression("'ab' * 2"),
        Ok(String::from("abab"))
    );
}

#[test]
fn evaluate_syntax_error() {
    let r = evaluate_python_expression("2 +");
    match r {
        Err(m) => assert!(m.starts_with("Python evaluation error: ")),
        Ok(v) => panic!("expected an error, got {}", v),
    }
}

#[test]
fn self_test_reports_four() {
    assert_eq!(test_python(), Ok(String::from("Python result: 4")));
}

#[test]
fn execute_returns_trimmed_print() {
    assert_eq!(
        execute_python("print('hello')"),
        Ok(String::from("hello"))
    );
}

#[test]
fn execute_trims_captured_output() {
    assert_eq!(
        execute_python("print('  padded  ')"),
        Ok(String::from("padded"))
    );
}

#[test]
fn execute_returns_result_binding() {
    assert_eq!(execute_python("result = 5"), Ok(String::from("5")));
}

#[test]
fn execute_without_output_or_result() {
    assert_eq!(
        execute_python("x = 1"),
        Ok(String::from("Code executed successfully"))
    );
}

#[test]
fn execute_runtime_error() {
    let r = execute_python("raise ValueError('boom')");
    match r {
        Err(m) => assert!(m.starts_with("Python execution error: ")),
        Ok(v) => panic!("expected an error, got {}", v),
    }
}

#[test]
fn run_source_success() {
    assert_eq!(
        run_python_source("x = 1\ny = x + 1\n"),
        Ok(String::from("Python file executed successfully"))
    );
}

#[test]
fn run_source_failure() {
    let r = run_python_source("raise RuntimeError('no')");
    match r {
        Err(m) => assert!(m.starts_with("Python file execution error: ")),
        Ok(v) => panic!("expected an error, got {}", v),
    }
}

#[test]
fn build_flag_never_classifies_system() {
    let (t, _) = detect_python_environment(true, "", &None);
    assert_ne!(t, PythonType::System);
}

#[test]
fn host_interpreter_classifies_system() {
    let (t, err) = detect_python_environment(false, "", &None);
    assert_eq!(t, PythonType::System);
    assert!(err.is_none());
}

#[test]
fn initialize_matches_detect() {
    let (a, a_err) = initialize_python(false, "", &None);
    let (b, b_err) = detect_python_environment(false, "", &None);
    assert_eq!(a, b);
    assert!(a_err.is_none());
    assert!(b_err.is_none());
}

#[test]
fn info_report_on_live_interpreter() {
    let r = get_python_info(PythonType::System, &None);
    match r {
        Ok(text) => {
            assert!(text.contains("SYSTEM (host environment)"));
            assert!(text.contains("Executable: "));
        },
        Err(e) => panic!("probe failed: {}", e),
    }
}

#[test]
fn debug_report_on_live_interpreter() {
    let ctx = DiagnosticContext {
        startup_type: PythonType::System,
        exe_dir: None,
        app_exe: None,
        env_pyo3_python: None,
        env_pythonhome: None,
        env_pythonpath: None,
    };
    let r = debug_python_environment(&ctx);
    assert!(r.contains("SYSTEM (host environment)"));
    assert!(r.contains("Interpreter executable: "));
}
