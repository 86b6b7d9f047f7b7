//! Classification of the active Python interpreter's provenance: whether it
//! ships inside the application bundle or comes from the host system.  The
//! decision is a disjunction of six heuristic signals, evaluated once at
//! startup, and is advisory only: it drives diagnostic display, never
//! behavior.

use vstd::prelude::*;

verus! {

use crate::text::contains_seq;
use crate::text::contains_str;
use crate::text::starts_with_str;
use vstd::string::StrSliceExecFns;

/// Provenance of the active interpreter.
#[derive(Debug, Clone, Copy, PartialEq, Eq, Structural)]
pub enum PythonType {
    /// The interpreter could not be initialized or queried.
    Unknown,
    /// The interpreter ships inside the application bundle.
    Embedded,
    /// The interpreter comes from the host system.
    System,
}

/// The substring that marks a standalone-distribution interpreter path.
pub open spec fn standalone_marker() -> Seq<char> {
    "python-standalone"@
}

/// Everything the classifier looks at, gathered into plain values.
pub struct InterpreterSignals {
    /// Signal A: the build asserted that the interpreter is embedded.
    pub embedded_build_flag: bool,
    /// The embedded-interpreter path recorded at build time; empty when none
    /// was recorded.
    pub recorded_embedded_path: String,
    /// The interpreter's reported executable path.
    pub executable: String,
    /// The directory holding the running application's own executable, when
    /// it could be determined.
    pub exe_dir: Option<String>,
    /// Signal D: the loaded-module registry holds the marker module of an
    /// interpreter-freezing tool.
    pub oxidized_importer_loaded: bool,
    /// Signal E: the interpreter exposes a non-empty `frozen` attribute.
    pub frozen_attr_set: bool,
    /// The interpreter's module search path.
    pub module_paths: Vec<String>,
}

/// What a live interpreter reports about itself when probed.  The values
/// are plain; gathering them is the callers' affair.
pub struct InterpreterProbe {
    /// The interpreter's version string.
    pub version: String,
    /// The interpreter's reported executable path.
    pub executable: String,
    /// Whether the loaded-module registry holds the `oxidized_importer`
    /// marker module.
    pub oxidized_importer_loaded: bool,
    /// Whether the interpreter exposes a non-empty `frozen` attribute.
    pub frozen_attr_set: bool,
    /// The interpreter's module search path.
    pub module_paths: Vec<String>,
}

/// Signal B: the executable path carries the standalone-distribution marker,
/// or starts with the recorded embedded-interpreter path.
pub open spec fn signal_executable_path(s: &InterpreterSignals) -> bool {
    contains_seq(s.executable@, standalone_marker()) || (s.recorded_embedded_path@.len() > 0
        && s.recorded_embedded_path@.is_prefix_of(s.executable@))
}

/// Signal C: the executable path is prefixed by the running application's
/// own directory.
pub open spec fn signal_app_dir(s: &InterpreterSignals) -> bool {
    match s.exe_dir {
        Some(dir) => dir@.is_prefix_of(s.executable@),
        None => false,
    }
}

/// Signal F: the module search path has an entry that references the
/// standalone-distribution marker.
pub open spec fn signal_module_path(s: &InterpreterSignals) -> bool {
    exists|i: int|
        0 <= i < s.module_paths@.len() && contains_seq(
            s.module_paths@[i]@,
            standalone_marker(),
        )
}

/// Any of the six signals A-F asserts an embedded interpreter.
pub open spec fn embedded_signal(s: &InterpreterSignals) -> bool {
    ||| s.embedded_build_flag
    ||| signal_executable_path(s)
    ||| signal_app_dir(s)
    ||| s.oxidized_importer_loaded
    ||| s.frozen_attr_set
    ||| signal_module_path(s)
}

/// What the classifier decides from a successfully gathered set of signals.
pub open spec fn classification_of(s: &InterpreterSignals) -> PythonType {
    if embedded_signal(s) {
        PythonType::Embedded
    } else {
        PythonType::System
    }
}

/// Whether the executable path alone marks an embedded interpreter: it
/// carries the standalone-distribution marker, or sits under the running
/// application's own directory.
pub open spec fn embedded_executable_spec(executable: Seq<char>, exe_dir: Option<Seq<char>>) -> bool {
    contains_seq(executable, standalone_marker()) || (match exe_dir {
        Some(dir) => dir.is_prefix_of(executable),
        None => false,
    })
}

/// Decide from the executable path alone whether the interpreter looks
/// embedded.
pub fn detect_embedded_python(executable: &str, exe_dir: Option<&str>) -> (r: bool)
    ensures
        r == embedded_executable_spec(
            executable@,
            match exe_dir {
                Some(dir) => Some(dir@),
                None => None,
            },
        ),
{
    if contains_str(executable, "python-standalone") {
        return true;
    }
    match exe_dir {
        Some(dir) => starts_with_str(executable, dir),
        None => false,
    }
}

/// Evaluate the six signals and classify the interpreter.  A gathered set of
/// signals never yields `Unknown`: that value is reserved for an interpreter
/// that could not be queried at all.
pub fn classify(s: &InterpreterSignals) -> (t: PythonType)
    ensures
        t == classification_of(s),
        t != PythonType::Unknown,
{
    if s.embedded_build_flag {
        return PythonType::Embedded;
    }
    if contains_str(s.executable.as_str(), "python-standalone") {
        return PythonType::Embedded;
    }
    if s.recorded_embedded_path.as_str().unicode_len() > 0 && starts_with_str(
        s.executable.as_str(),
        s.recorded_embedded_path.as_str(),
    ) {
        return PythonType::Embedded;
    }
    match &s.exe_dir {
        Some(dir) => {
            if starts_with_str(s.executable.as_str(), dir.as_str()) {
                return PythonType::Embedded;
            }
        },
        None => {},
    }
    if s.oxidized_importer_loaded || s.frozen_attr_set {
        return PythonType::Embedded;
    }
    let n = s.module_paths.len();
    let mut i: usize = 0;
    while i < n
        invariant
            n == s.module_paths@.len(),
            i <= n,
            forall|j: int|
                0 <= j < i ==> !contains_seq(#[trigger] s.module_paths@[j]@, standalone_marker()),
        decreases n - i,
    {
        if contains_str(s.module_paths[i].as_str(), "python-standalone") {
            assert(signal_module_path(s));
            return PythonType::Embedded;
        }
        i = i + 1;
    }
    assert(!signal_module_path(s));
    PythonType::System
}

/// Decide the provenance from a probe's outcome: an interpreter that could
/// not be queried is `Unknown` and the probe's error is surfaced; a
/// queryable one gets the six-signal classification and no error.
pub fn classification_outcome(
    probe: Result<InterpreterProbe, String>,
    embedded_build_flag: bool,
    recorded_embedded_path: String,
    exe_dir: Option<String>,
) -> (r: (PythonType, Option<String>))
    ensures
        (match probe {
            Err(e) => r.0 == PythonType::Unknown && (r.1 matches Some(m) && m == e),
            Ok(p) => r.0 == classification_of(
                &(InterpreterSignals {
                    embedded_build_flag,
                    recorded_embedded_path,
                    executable: p.executable,
                    exe_dir,
                    oxidized_importer_loaded: p.oxidized_importer_loaded,
                    frozen_attr_set: p.frozen_attr_set,
                    module_paths: p.module_paths,
                }),
            ) && r.1 is None,
        }),
        (r.0 == PythonType::Unknown) == (r.1 is Some),
{
    match probe {
        Err(e) => (PythonType::Unknown, Some(e)),
        Ok(p) => {
            let signals = InterpreterSignals {
                embedded_build_flag,
                recorded_embedded_path,
                executable: p.executable,
                exe_dir,
                oxidized_importer_loaded: p.oxidized_importer_loaded,
                frozen_attr_set: p.frozen_attr_set,
                module_paths: p.module_paths,
            };
            (classify(&signals), None)
        },
    }
}

/// When the build-time embedded flag is set, the classification is
/// `Embedded`, whatever the other signals say.
pub proof fn lemma_flag_forces_embedded(s: &InterpreterSignals)
    requires
        s.embedded_build_flag,
    ensures
        classification_of(s) == PythonType::Embedded,
{
}

/// When the build-time flag is unset and none of the other signals matches,
/// the classification is `System`.
pub proof fn lemma_no_signal_gives_system(s: &InterpreterSignals)
    requires
        !s.embedded_build_flag,
        !signal_executable_path(s),
        !signal_app_dir(s),
        !s.oxidized_importer_loaded,
        !s.frozen_attr_set,
        !signal_module_path(s),
    ensures
        classification_of(s) == PythonType::System,
{
}

/// A gathered set of signals always classifies to `Embedded` or `System`,
/// never to `Unknown`.
pub proof fn lemma_classification_decided(s: &InterpreterSignals)
    ensures
        classification_of(s) != PythonType::Unknown,
{
}

} // verus!
