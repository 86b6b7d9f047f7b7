use vinsert_backend::provenance::classification_outcome;
use vinsert_backend::provenance::classify;
use vinsert_backend::provenance::detect_embedded_python;
use vinsert_backend::provenance::InterpreterProbe;
use vinsert_backend::provenance::InterpreterSignals;
use vinsert_backend::provenance::PythonType;

fn quiet_signals() -> InterpreterSignals {
    InterpreterSignals {
        embedded_build_flag: false,
        recorded_embedded_path: String::new(),
        executable: String::from("/usr/bin/python3"),
        exe_dir: None,
        oxidized_importer_loaded: false,
        frozen_attr_set: false,
        module_paths: vec![String::from("/usr/lib/python3.11")],
    }
}

#[test]
fn flag_set_classifies_embedded() {
    let mut s = quiet_signals();
    s.embedded_build_flag = true;
    assert_eq!(classify(&s), PythonType::Embedded);
}

#[test]
fn flag_dominates_contrary_signals() {
    let s = InterpreterSignals {
        embedded_build_flag: true,
        recorded_embedded_path: String::new(),
        executable: String::from("/usr/bin/python3"),
        exe_dir: Some(String::from("/opt/elsewhere")),
        oxidized_importer_loaded: false,
        frozen_attr_set: false,
        module_paths: vec![],
    };
    assert_eq!(classify(&s), PythonType::Embedded);
}

#[test]
fn no_signal_classifies_system() {
    assert_eq!(classify(&quiet_signals()), PythonType::System);
}

#[test]
fn marker_in_executable_classifies_embedded() {
    let mut s = quiet_signals();
    s.executable = String::from("/app/python-standalone/bin/python3");
    assert_eq!(classify(&s), PythonType::Embedded);
}

#[test]
fn recorded_path_prefix_classifies_embedded() {
    let mut s = quiet_signals();
    s.recorded_embedded_path = String::from("/opt/bundle/py");
    s.executable = String::from("/opt/bundle/py/bin/python3");
    assert_eq!(classify(&s), PythonType::Embedded);
}

#[test]
fn empty_recorded_path_is_no_signal() {
    let mut s = quiet_signals();
    s.recorded_embedded_path = String::new();
    assert_eq!(classify(&s), PythonType::System);
}

#[test]
fn app_dir_prefix_classifies_embedded() {
    let mut s = quiet_signals();
    s.exe_dir = Some(String::from("/opt/vinsert"));
    s.executable = String::from("/opt/vinsert/python/bin/python3");
    assert_eq!(classify(&s), PythonType::Embedded);
}

#[test]
fn oxidized_importer_classifies_embedded() {
    let mut s = quiet_signals();
    s.oxidized_importer_loaded = true;
    assert_eq!(classify(&s), PythonType::Embedded);
}

#[test]
fn frozen_attribute_classifies_embedded() {
    let mut s = quiet_signals();
    s.frozen_attr_set = true;
    assert_eq!(classify(&s), PythonType::Embedded);
}

#[test]
fn marker_in_module_path_classifies_embedded() {
    let mut s = quiet_signals();
    s.module_paths = vec![
        String::from("/usr/lib/python3.11"),
        String::from("/app/python-standalone/lib/site-packages"),
    ];
    assert_eq!(classify(&s), PythonType::Embedded);
}

fn quiet_probe() -> InterpreterProbe {
    InterpreterProbe {
        version: String::from("3.11.7"),
        executable: String::from("/usr/bin/python3"),
        oxidized_importer_loaded: false,
        frozen_attr_set: false,
        module_paths: vec![String::from("/usr/lib/python3.11")],
    }
}

#[test]
fn failed_probe_is_unknown_and_surfaces_error() {
    let (t, err) = classification_outcome(
        Err(String::from("interpreter not initialized")),
        true,
        String::new(),
        None,
    );
    assert_eq!(t, PythonType::Unknown);
    assert_eq!(err, Some(String::from("interpreter not initialized")));
}

#[test]
fn successful_probe_classifies_without_error() {
    let (t, err) = classification_outcome(Ok(quiet_probe()), false, String::new(), None);
    assert_eq!(t, PythonType::System);
    assert!(err.is_none());
}

#[test]
fn successful_probe_with_flag_is_embedded() {
    let (t, err) = classification_outcome(Ok(quiet_probe()), true, String::new(), None);
    assert_eq!(t, PythonType::Embedded);
    assert!(err.is_none());
}

#[test]
fn detect_embedded_python_marker() {
    assert!(detect_embedded_python("/x/python-standalone/bin/python3", None));
    assert!(!detect_embedded_python("/usr/bin/python3", None));
}

#[test]
fn detect_embedded_python_app_dir() {
    assert!(detect_embedded_python("/opt/app/python3", Some("/opt/app")));
    assert!(!detect_embedded_python("/usr/bin/python3", Some("/opt/app")));
}
