//! The diagnostic reports the backend shows about the Python environment.
//! Each report is a plain string built from values gathered elsewhere; the
//! contracts pin down which of those values the text names.

use vstd::prelude::*;

verus! {

use crate::provenance::InterpreterProbe;
use crate::provenance::PythonType;
use crate::provenance::detect_embedded_python;
use crate::provenance::embedded_executable_spec;
use crate::text::concat2;
use crate::text::concat3;
use crate::text::concat4;
use crate::text::contains_seq;
use crate::text::lemma_contains_extend_left;
use crate::text::lemma_contains_extend_right;
use crate::text::lemma_contains_middle;
use crate::text::lemma_contains_self;
use vstd::string::StringExecFns;

/// Everything a diagnostic handler is handed at startup: the classification
/// made then, the paths of the running application, and the related
/// environment variables.
pub struct DiagnosticContext {
    /// The provenance classification made once at startup.
    pub startup_type: PythonType,
    /// The directory holding the application's own executable, when known.
    pub exe_dir: Option<String>,
    /// The application's own executable path, when known.
    pub app_exe: Option<String>,
    /// The `PYO3_PYTHON` environment variable, when set.
    pub env_pyo3_python: Option<String>,
    /// The `PYTHONHOME` environment variable, when set.
    pub env_pythonhome: Option<String>,
    /// The `PYTHONPATH` environment variable, when set.
    pub env_pythonpath: Option<String>,
}

/// The display label of each provenance classification.
pub open spec fn python_type_label_spec(t: PythonType) -> Seq<char> {
    match t {
        PythonType::Embedded => "EMBEDDED (bundled with the application)"@,
        PythonType::System => "SYSTEM (host environment)"@,
        PythonType::Unknown => "UNKNOWN (could not be determined)"@,
    }
}

/// Render a provenance classification for display.
pub fn python_type_label(t: PythonType) -> (r: &'static str)
    ensures
        r@ == python_type_label_spec(t),
{
    match t {
        PythonType::Embedded => "EMBEDDED (bundled with the application)",
        PythonType::System => "SYSTEM (host environment)",
        PythonType::Unknown => "UNKNOWN (could not be determined)",
    }
}

/// The text of an indented path listing: one `  - <entry>` line for each of
/// the first `n` entries, in order.
pub open spec fn paths_block_spec(paths: Seq<Seq<char>>, n: int) -> Seq<char>
    decreases n,
{
    if n <= 0 {
        Seq::empty()
    } else {
        paths_block_spec(paths, n - 1) + "  - "@ + paths[n - 1] + "\n"@
    }
}

/// An indented list of the first `limit` module-search-path entries: the
/// text is exactly the listing of those entries and nothing else (or a
/// fixed placeholder when there is nothing to list), so every listed entry
/// appears verbatim and entries beyond the limit contribute nothing.
pub fn module_paths_block(paths: &Vec<String>, limit: usize) -> (r: String)
    ensures
        paths@.len() == 0 || limit == 0 ==> r@ == "  (none)\n"@,
        paths@.len() > 0 && limit > 0 ==> r@ == paths_block_spec(
            paths@.map_values(|p: String| p@),
            if limit <= paths@.len() {
                limit as int
            } else {
                paths@.len() as int
            },
        ),
        forall|i: int|
            0 <= i < paths@.len() && i < limit ==> contains_seq(r@, #[trigger] paths@[i]@),
{
    if paths.len() == 0 || limit == 0 {
        return "  (none)\n".to_owned();
    }
    let ghost views = paths@.map_values(|p: String| p@);
    let mut r = String::new();
    let mut i: usize = 0;
    let shown: usize = if paths.len() < limit {
        paths.len()
    } else {
        limit
    };
    while i < shown
        invariant
            shown <= paths@.len(),
            shown <= limit,
            i <= shown,
            views == paths@.map_values(|p: String| p@),
            r@ == paths_block_spec(views, i as int),
            forall|j: int| 0 <= j < i ==> contains_seq(r@, #[trigger] paths@[j]@),
        decreases shown - i,
    {
        let line = concat3("  - ", paths[i].as_str(), "\n");
        let ghost before = r@;
        r.append(line.as_str());
        proof {
            assert forall|j: int| 0 <= j < i implies contains_seq(r@, #[trigger] paths@[j]@) by {
                lemma_contains_extend_right(before, line@, paths@[j]@);
            }
            lemma_contains_middle("  - "@, paths@[i as int]@, "\n"@);
            lemma_contains_extend_left(before, line@, paths@[i as int]@);
            assert(r@ =~= paths_block_spec(views, i as int + 1));
        }
        i = i + 1;
    }
    r
}

/// The summary shown by the environment-information command.  The text
/// always names the interpreter's version, its executable path, the
/// classification made at startup, the classification the executable path
/// alone yields now, and the first three module-search-path entries.
pub fn python_info_report(startup_type: PythonType, probe: &InterpreterProbe, exe_dir: &Option<
    String,
>) -> (r: String)
    ensures
        contains_seq(r@, probe.version@),
        contains_seq(r@, probe.executable@),
        contains_seq(r@, python_type_label_spec(startup_type)),
        forall|i: int|
            0 <= i < probe.module_paths@.len() && i < 3 ==> contains_seq(
                r@,
                #[trigger] probe.module_paths@[i]@,
            ),
        contains_seq(
            r@,
            python_type_label_spec(
                if embedded_executable_spec(
                    probe.executable@,
                    match exe_dir {
                        Some(dir) => Some(dir@),
                        None => None,
                    },
                ) {
                    PythonType::Embedded
                } else {
                    PythonType::System
                },
            ),
        ),
{
    let startup_label = python_type_label(startup_type);
    let embedded_now = detect_embedded_python(
        probe.executable.as_str(),
        match exe_dir {
            Some(dir) => Some(dir.as_str()),
            None => None,
        },
    );
    let now_label = python_type_label(
        if embedded_now {
            PythonType::Embedded
        } else {
            PythonType::System
        },
    );
    let head = concat3("Python environment\n\nStartup classification: ", startup_label, "\n");
    let vline = concat3("Version: ", probe.version.as_str(), "\n");
    let eline = concat3("Executable: ", probe.executable.as_str(), "\n");
    let nline = concat3("Executable-path check: ", now_label, "\n");
    let paths = module_paths_block(&probe.module_paths, 3);
    let mut r = head;
    r.append(vline.as_str());
    r.append(eline.as_str());
    r.append(nline.as_str());
    r.append("Module search path (first entries):\n");
    r.append(paths.as_str());
    proof {
        let h = head@;
        lemma_contains_middle("Python environment\n\nStartup classification: "@, startup_label@, "\n"@);
        lemma_contains_middle("Version: "@, probe.version@, "\n"@);
        lemma_contains_middle("Executable: "@, probe.executable@, "\n"@);
        lemma_contains_middle("Executable-path check: "@, now_label@, "\n"@);
        lemma_contains_extend_right(h, vline@, startup_label@);
        lemma_contains_extend_left(h, vline@, probe.version@);
        lemma_contains_extend_right(h + vline@, eline@, startup_label@);
        lemma_contains_extend_right(h + vline@, eline@, probe.version@);
        lemma_contains_extend_left(h + vline@, eline@, probe.executable@);
        lemma_contains_extend_right(h + vline@ + eline@, nline@, startup_label@);
        lemma_contains_extend_right(h + vline@ + eline@, nline@, probe.version@);
        lemma_contains_extend_right(h + vline@ + eline@, nline@, probe.executable@);
        lemma_contains_extend_left(h + vline@ + eline@, nline@, now_label@);
        let upto = h + vline@ + eline@ + nline@;
        lemma_contains_extend_right(upto, "Module search path (first entries):\n"@, startup_label@);
        lemma_contains_extend_right(upto, "Module search path (first entries):\n"@, probe.version@);
        lemma_contains_extend_right(upto, "Module search path (first entries):\n"@, probe.executable@);
        lemma_contains_extend_right(upto, "Module search path (first entries):\n"@, now_label@);
        let upto2 = upto + "Module search path (first entries):\n"@;
        lemma_contains_extend_right(upto2, paths@, startup_label@);
        lemma_contains_extend_right(upto2, paths@, probe.version@);
        lemma_contains_extend_right(upto2, paths@, probe.executable@);
        lemma_contains_extend_right(upto2, paths@, now_label@);
        assert forall|i: int| 0 <= i < probe.module_paths@.len() && i < 3 implies contains_seq(
            r@,
            #[trigger] probe.module_paths@[i]@,
        ) by {
            lemma_contains_extend_left(upto2, paths@, probe.module_paths@[i]@);
        }
    }
    r
}

/// The detailed diagnostic report.  The text always names the startup
/// classification; when the interpreter could be probed it names the
/// executable path and version it reported, otherwise the probe error; and
/// it names the application's own executable path when known and the value
/// of each related environment variable that is set.
pub fn debug_python_environment_report(ctx: &DiagnosticContext, probe: &Result<
    InterpreterProbe,
    String,
>) -> (r: String)
    ensures
        contains_seq(r@, python_type_label_spec(ctx.startup_type)),
        (match probe {
            Ok(p) => contains_seq(r@, p.executable@) && contains_seq(r@, p.version@),
            Err(e) => contains_seq(r@, e@),
        }),
        ctx.app_exe matches Some(v) ==> contains_seq(r@, v@),
        ctx.env_pyo3_python matches Some(v) ==> contains_seq(r@, v@),
        ctx.env_pythonhome matches Some(v) ==> contains_seq(r@, v@),
        ctx.env_pythonpath matches Some(v) ==> contains_seq(r@, v@),
{
    let startup_label = python_type_label(ctx.startup_type);
    let head = concat3(
        "Python environment diagnosis\n\nStartup classification: ",
        startup_label,
        "\n",
    );
    let probe_block = match probe {
        Ok(p) => debug_probe_block(p, &ctx.exe_dir),
        Err(e) => {
            let b = concat3("Interpreter query failed: ", e.as_str(), "\n");
            proof {
                lemma_contains_middle("Interpreter query failed: "@, e@, "\n"@);
            }
            b
        },
    };
    let app_line = match &ctx.app_exe {
        Some(exe) => {
            let l = concat3("Application executable: ", exe.as_str(), "\n");
            proof {
                lemma_contains_middle("Application executable: "@, exe@, "\n"@);
            }
            l
        },
        None => "Application executable: (unknown)\n".to_owned(),
    };
    let e1 = env_var_line("PYO3_PYTHON", &ctx.env_pyo3_python);
    let e2 = env_var_line("PYTHONHOME", &ctx.env_pythonhome);
    let e3 = env_var_line("PYTHONPATH", &ctx.env_pythonpath);
    let tail = concat3("\nConclusion: ", startup_label, "\n");
    let mut r = head;
    r.append(probe_block.as_str());
    r.append(app_line.as_str());
    r.append("Related environment variables:\n");
    r.append(e1.as_str());
    r.append(e2.as_str());
    r.append(e3.as_str());
    r.append(tail.as_str());
    proof {
        let h = head@;
        lemma_contains_middle(
            "Python environment diagnosis\n\nStartup classification: "@,
            startup_label@,
            "\n"@,
        );
        let s1 = h + probe_block@;
        let s2 = s1 + app_line@;
        let s3 = s2 + "Related environment variables:\n"@;
        let s4 = s3 + e1@;
        let s5 = s4 + e2@;
        let s6 = s5 + e3@;
        lemma_contains_extend_right(h, probe_block@, startup_label@);
        lemma_contains_extend_right(s1, app_line@, startup_label@);
        lemma_contains_extend_right(s2, "Related environment variables:\n"@, startup_label@);
        lemma_contains_extend_right(s3, e1@, startup_label@);
        lemma_contains_extend_right(s4, e2@, startup_label@);
        lemma_contains_extend_right(s5, e3@, startup_label@);
        lemma_contains_extend_right(s6, tail@, startup_label@);
        match probe {
            Ok(p) => {
                lemma_contains_extend_left(h, probe_block@, p.executable@);
                lemma_contains_extend_left(h, probe_block@, p.version@);
                lemma_contains_extend_right(s1, app_line@, p.executable@);
                lemma_contains_extend_right(s1, app_line@, p.version@);
                lemma_contains_extend_right(s2, "Related environment variables:\n"@, p.executable@);
                lemma_contains_extend_right(s2, "Related environment variables:\n"@, p.version@);
                lemma_contains_extend_right(s3, e1@, p.executable@);
                lemma_contains_extend_right(s3, e1@, p.version@);
                lemma_contains_extend_right(s4, e2@, p.executable@);
                lemma_contains_extend_right(s4, e2@, p.version@);
                lemma_contains_extend_right(s5, e3@, p.executable@);
                lemma_contains_extend_right(s5, e3@, p.version@);
                lemma_contains_extend_right(s6, tail@, p.executable@);
                lemma_contains_extend_right(s6, tail@, p.version@);
            },
            Err(e) => {
                lemma_contains_extend_left(h, probe_block@, e@);
                lemma_contains_extend_right(s1, app_line@, e@);
                lemma_contains_extend_right(s2, "Related environment variables:\n"@, e@);
                lemma_contains_extend_right(s3, e1@, e@);
                lemma_contains_extend_right(s4, e2@, e@);
                lemma_contains_extend_right(s5, e3@, e@);
                lemma_contains_extend_right(s6, tail@, e@);
            },
        }
        if let Some(v) = &ctx.app_exe {
            lemma_contains_extend_left(s1, app_line@, v@);
            lemma_contains_extend_right(s2, "Related environment variables:\n"@, v@);
            lemma_contains_extend_right(s3, e1@, v@);
            lemma_contains_extend_right(s4, e2@, v@);
            lemma_contains_extend_right(s5, e3@, v@);
            lemma_contains_extend_right(s6, tail@, v@);
        }
        if let Some(v) = &ctx.env_pyo3_python {
            lemma_contains_extend_left(s3, e1@, v@);
            lemma_contains_extend_right(s4, e2@, v@);
            lemma_contains_extend_right(s5, e3@, v@);
            lemma_contains_extend_right(s6, tail@, v@);
        }
        if let Some(v) = &ctx.env_pythonhome {
            lemma_contains_extend_left(s4, e2@, v@);
            lemma_contains_extend_right(s5, e3@, v@);
            lemma_contains_extend_right(s6, tail@, v@);
        }
        if let Some(v) = &ctx.env_pythonpath {
            lemma_contains_extend_left(s5, e3@, v@);
            lemma_contains_extend_right(s6, tail@, v@);
        }
    }
    r
}

/// The portion of the debug report describing a successfully probed
/// interpreter: it names the reported executable path and version.
fn debug_probe_block(p: &InterpreterProbe, exe_dir: &Option<String>) -> (r: String)
    ensures
        contains_seq(r@, p.executable@),
        contains_seq(r@, p.version@),
{
    let embedded_now = detect_embedded_python(
        p.executable.as_str(),
        match exe_dir {
            Some(dir) => Some(dir.as_str()),
            None => None,
        },
    );
    let now_label = python_type_label(
        if embedded_now {
            PythonType::Embedded
        } else {
            PythonType::System
        },
    );
    let eline = concat3("Interpreter executable: ", p.executable.as_str(), "\n");
    let vline = concat3("Interpreter version: ", p.version.as_str(), "\n");
    let nline = concat3("Executable-path check: ", now_label, "\n");
    let paths = module_paths_block(&p.module_paths, 5);
    let mut r = eline;
    r.append(vline.as_str());
    r.append(nline.as_str());
    r.append("Module search path (first entries):\n");
    r.append(paths.as_str());
    proof {
        let s1 = eline@;
        let s2 = s1 + vline@;
        let s3 = s2 + nline@;
        let s4 = s3 + "Module search path (first entries):\n"@;
        lemma_contains_middle("Interpreter executable: "@, p.executable@, "\n"@);
        lemma_contains_middle("Interpreter version: "@, p.version@, "\n"@);
        lemma_contains_extend_left(s1, vline@, p.version@);
        lemma_contains_extend_right(s1, vline@, p.executable@);
        lemma_contains_extend_right(s2, nline@, p.executable@);
        lemma_contains_extend_right(s2, nline@, p.version@);
        lemma_contains_extend_right(s3, "Module search path (first entries):\n"@, p.executable@);
        lemma_contains_extend_right(s3, "Module search path (first entries):\n"@, p.version@);
        lemma_contains_extend_right(s4, paths@, p.executable@);
        lemma_contains_extend_right(s4, paths@, p.version@);
    }
    r
}

/// One line of the debug report for an environment variable: its value when
/// set, a placeholder otherwise.
pub fn env_var_line(name: &str, value: &Option<String>) -> (r: String)
    ensures
        (match value {
            Some(v) => contains_seq(r@, v@),
            None => true,
        }),
{
    match value {
        Some(v) => {
            let r = concat4("   ", name, ": ", v.as_str());
            let r = concat2(r.as_str(), "\n");
            proof {
                lemma_contains_self(v@);
                lemma_contains_extend_left("   "@ + name@ + ": "@, v@, v@);
                lemma_contains_extend_right("   "@ + name@ + ": "@ + v@, "\n"@, v@);
            }
            r
        },
        None => {
            let r = concat3("   ", name, ": (not set)\n");
            r
        },
    }
}

} // verus!
