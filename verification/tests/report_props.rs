use vinsert_backend::provenance::InterpreterProbe;
use vinsert_backend::provenance::PythonType;
use vinsert_backend::report::debug_python_environment_report;
use vinsert_backend::report::env_var_line;
use vinsert_backend::report::module_paths_block;
use vinsert_backend::report::python_info_report;
use vinsert_backend::report::python_type_label;
use vinsert_backend::report::DiagnosticContext;

fn sample_probe() -> InterpreterProbe {
    InterpreterProbe {
        version: String::from("3.11.7 (main)"),
        executable: String::from("/usr/bin/python3"),
        oxidized_importer_loaded: false,
        frozen_attr_set: false,
        module_paths: vec![
            String::from("/usr/lib/python3.11"),
            String::from("/usr/lib/python3.11/site-packages"),
        ],
    }
}

#[test]
fn labels_per_classification() {
    assert_eq!(
        python_type_label(PythonType::Embedded),
        "EMBEDDED (bundled with the application)"
    );
    assert_eq!(
        python_type_label(PythonType::System),
        "SYSTEM (host environment)"
    );
    assert_eq!(
        python_type_label(PythonType::Unknown),
        "UNKNOWN (could not be determined)"
    );
}

#[test]
fn info_report_names_key_values() {
    let probe = sample_probe();
    let r = python_info_report(PythonType::System, &probe, &None);
    assert!(r.contains("3.11.7 (main)"));
    assert!(r.contains("/usr/bin/python3"));
    assert!(r.contains("SYSTEM (host environment)"));
    assert!(r.contains("/usr/lib/python3.11"));
}

#[test]
fn info_report_flags_embedded_looking_executable() {
    let mut probe = sample_probe();
    probe.executable = String::from("/app/python-standalone/bin/python3");
    let r = python_info_report(PythonType::Embedded, &probe, &None);
    assert!(r.contains("EMBEDDED (bundled with the application)"));
}

#[test]
fn module_paths_block_lists_entries() {
    let paths = vec![String::from("/one"), String::from("/two"), String::from("/three")];
    let b = module_paths_block(&paths, 2);
    assert!(b.contains("/one"));
    assert!(b.contains("/two"));
    assert!(!b.contains("/three"));
}

#[test]
fn module_paths_block_empty() {
    let b = module_paths_block(&vec![], 3);
    assert_eq!(b, "  (none)\n");
}

#[test]
fn env_var_line_shows_value() {
    let l = env_var_line("PYTHONHOME", &Some(String::from("/opt/py")));
    assert!(l.contains("PYTHONHOME"));
    assert!(l.contains("/opt/py"));
    let l2 = env_var_line("PYTHONHOME", &None);
    assert!(l2.contains("(not set)"));
}

#[test]
fn info_report_lists_first_three_paths_only() {
    let mut probe = sample_probe();
    probe.module_paths = vec![
        String::from("/p/first"),
        String::from("/p/second"),
        String::from("/p/third"),
        String::from("/p/fourth"),
    ];
    let r = python_info_report(PythonType::System, &probe, &None);
    assert!(r.contains("/p/first"));
    assert!(r.contains("/p/second"));
    assert!(r.contains("/p/third"));
    assert!(!r.contains("/p/fourth"));
}

#[test]
fn debug_report_names_probe_values() {
    let ctx = DiagnosticContext {
        startup_type: PythonType::System,
        exe_dir: Some(String::from("/opt/vinsert")),
        app_exe: Some(String::from("/opt/vinsert/vinsert")),
        env_pyo3_python: Some(String::from("/usr/bin/python3")),
        env_pythonhome: None,
        env_pythonpath: Some(String::from("/extra/modules")),
    };
    let r = debug_python_environment_report(&ctx, &Ok(sample_probe()));
    assert!(r.contains("SYSTEM (host environment)"));
    assert!(r.contains("3.11.7 (main)"));
    assert!(r.contains("/usr/bin/python3"));
    assert!(r.contains("/extra/modules"));
    assert!(r.contains("/opt/vinsert/vinsert"));
}

#[test]
fn debug_report_names_probe_error() {
    let ctx = DiagnosticContext {
        startup_type: PythonType::Unknown,
        exe_dir: None,
        app_exe: None,
        env_pyo3_python: None,
        env_pythonhome: None,
        env_pythonpath: None,
    };
    let r = debug_python_environment_report(&ctx, &Err(String::from("could not start")));
    assert!(r.contains("UNKNOWN (could not be determined)"));
    assert!(r.contains("could not start"));
}
