//! What a search for the debugger binary comes to in a given environment.

use std::path::PathBuf;

use vstd::prelude::*;

use crate::detect;
use crate::detect::{
    AnswerView, Detected, DetectionView, PhaseView, ProgressView, QueryView,
};
use crate::text;

verus! {

/// Everything that a search can ask for.
pub struct Environment {
    /// The value of the environment variable.
    pub var: Option<Seq<char>>,
    /// Where the binary of a given name is on the search path.
    pub look: spec_fn(Seq<char>) -> Option<PathBuf>,
    /// Whether a file is at a given path.
    pub exists: spec_fn(Seq<char>) -> bool,
    /// The name of the file at a given path.
    pub name: spec_fn(Seq<char>) -> Option<Seq<char>>,
    /// Whether the system is macOS.
    pub macos: bool,
    /// What the developer tools print.
    pub xcrun: Option<Seq<char>>,
}

/// The true answer to `query`.
pub open spec fn truth(env: Environment, query: QueryView) -> AnswerView {
    match query {
        QueryView::Var(_) => AnswerView::Text(env.var),
        QueryView::LookPath(name) => AnswerView::Found((env.look)(name)),
        QueryView::PathExists(path) => AnswerView::Truth((env.exists)(path)),
        QueryView::Basename(path) => AnswerView::Text((env.name)(path)),
        QueryView::IsMacos => AnswerView::Truth(env.macos),
        QueryView::Xcrun => AnswerView::Text(env.xcrun),
    }
}

/// How many questions a search at `phase` can still ask.
pub open spec fn questions_left(phase: PhaseView) -> nat {
    match phase {
        PhaseView::EnvVar => 30,
        PhaseView::EnvLook(_) => 29,
        PhaseView::EnvStat(_) => 28,
        PhaseView::EnvName(_) => 27,
        PhaseView::Plain => 26,
        PhaseView::Versioned(version) => 5 + version,
        PhaseView::Vscode => 4,
        PhaseView::Macos => 3,
        PhaseView::Xcrun => 2,
    }
}

/// What the search `d` comes to when every question gets its true answer.
pub open spec fn outcome(d: DetectionView, env: Environment) -> Result<Detected, Seq<char>>
    decreases questions_left(d.phase),
{
    match detect::next(d, truth(env, detect::query_of(d.phase))) {
        ProgressView::Ask(later) => outcome(later, env),
        ProgressView::Done(result) => result,
    }
}

/// The path that the environment variable names, when it names one.
pub open spec fn named(env: Environment) -> Option<Seq<char>> {
    match env.var {
        Some(path) => if path.len() > 0 {
            Some(path)
        } else {
            None
        },
        None => None,
    }
}

/// The binary with the highest version from `version` down to the lowest that is looked for.
pub open spec fn best_version(env: Environment, version: nat) -> Option<PathBuf>
    decreases version,
{
    match (env.look)(detect::versioned_name(version)) {
        Some(path) => Some(path),
        None => if version > 15 {
            best_version(env, (version - 1) as nat)
        } else {
            None
        },
    }
}

/// The names with a version from `version` down to the lowest that is looked for.
pub open spec fn version_names(version: nat) -> Seq<Seq<char>>
    decreases version,
{
    if version > 15 {
        seq![detect::versioned_name(version)] + version_names((version - 1) as nat)
    } else {
        seq![detect::versioned_name(version)]
    }
}

/// Everything that is searched in vain, in order, when nothing is found.
pub open spec fn candidates(env: Environment) -> Seq<Seq<char>> {
    (match named(env) {
        Some(path) => seq!["LLDB_DAP_PATH="@ + path],
        None => Seq::empty(),
    }) + seq!["lldb-dap"@] + version_names(20) + seq!["lldb-vscode"@] + (if env.macos {
        seq!["xcrun --find lldb-dap"@]
    } else {
        Seq::empty()
    })
}

/// What the developer tools name, on a system that has them.
pub open spec fn from_tools(env: Environment) -> Option<Seq<char>> {
    match env.xcrun {
        Some(printed) => if env.macos && text::trimmed(printed).len() > 0 {
            Some(text::trimmed(printed))
        } else {
            None
        },
        None => None,
    }
}

/// The binary to use: what the environment variable names, if it is there; else the plain name on
/// the search path; else the highest version; else the older name; else what the developer tools
/// name.
pub open spec fn chosen(env: Environment) -> Option<Detected> {
    if named(env) matches Some(path) && ((env.look)(path) is Some || (env.exists)(path)) {
        Some(
            Detected {
                path: detect::path_of(named(env)->0),
                is_lldb_dap: detect::capable(
                    detect::known_as(named(env)->0, (env.name)(named(env)->0)),
                ),
            },
        )
    } else if (env.look)("lldb-dap"@) is Some {
        Some(Detected { path: (env.look)("lldb-dap"@)->0, is_lldb_dap: true })
    } else if best_version(env, 20) is Some {
        Some(Detected { path: best_version(env, 20)->0, is_lldb_dap: true })
    } else if (env.look)("lldb-vscode"@) is Some {
        Some(Detected { path: (env.look)("lldb-vscode"@)->0, is_lldb_dap: false })
    } else if from_tools(env) is Some {
        Some(Detected { path: detect::path_of(from_tools(env)->0), is_lldb_dap: true })
    } else {
        None
    }
}

proof fn lemma_versions(d: DetectionView, env: Environment, version: nat)
    requires
        d.phase == PhaseView::Versioned(version),
    ensures
        outcome(d, env) == match best_version(env, version) {
            Some(path) => Ok(Detected { path, is_lldb_dap: true }),
            None => outcome(
                DetectionView {
                    phase: PhaseView::Vscode,
                    searched: d.searched + version_names(version),
                },
                env,
            ),
        },
    decreases version,
{
    let name = detect::versioned_name(version);
    if (env.look)(name) is None {
        let later = d.searched.push(name);
        if version > 15 {
            let lower = (version - 1) as nat;
            lemma_versions(
                DetectionView { phase: PhaseView::Versioned(lower), searched: later },
                env,
                lower,
            );
            assert(later + version_names(lower) =~= d.searched + version_names(version));
        } else {
            assert(later =~= d.searched + version_names(version));
        }
    }
}

/// A search whose questions get their true answers finds the binary to use, and fails with the
/// list of everything that was searched exactly when there is none.
pub proof fn law_search_finds_the_chosen_binary(env: Environment)
    ensures
        outcome(
            DetectionView { phase: PhaseView::EnvVar, searched: Seq::empty() },
            env,
        ) == match chosen(env) {
            Some(detected) => Ok(detected),
            None => Err(detect::not_found(candidates(env))),
        },
{
    let start = DetectionView { phase: PhaseView::EnvVar, searched: Seq::empty() };
    let first = match named(env) {
        Some(path) => seq!["LLDB_DAP_PATH="@ + path],
        None => Seq::<Seq<char>>::empty(),
    };
    let plain = DetectionView { phase: PhaseView::Plain, searched: first };
    match named(env) {
        Some(path) => {
            let look = DetectionView { phase: PhaseView::EnvLook(path), searched: Seq::empty() };
            let stat = DetectionView { phase: PhaseView::EnvStat(path), searched: Seq::empty() };
            let name = DetectionView { phase: PhaseView::EnvName(path), searched: Seq::empty() };
            assert(outcome(start, env) == outcome(look, env));
            if (env.look)(path) is Some {
                assert(outcome(look, env) == outcome(name, env));
            } else {
                assert(outcome(look, env) == outcome(stat, env));
                if (env.exists)(path) {
                    assert(outcome(stat, env) == outcome(name, env));
                } else {
                    assert(stat.searched.push("LLDB_DAP_PATH="@ + path) =~= first);
                    assert(outcome(stat, env) == outcome(plain, env));
                }
            }
        },
        None => {
            assert(outcome(start, env) == outcome(plain, env));
        },
    }
    let versioned = DetectionView {
        phase: PhaseView::Versioned(20),
        searched: first.push("lldb-dap"@),
    };
    if (env.look)("lldb-dap"@) is None {
        assert(outcome(plain, env) == outcome(versioned, env));
    }
    lemma_versions(versioned, env, 20);
    let after = versioned.searched + version_names(20);
    let vscode = DetectionView { phase: PhaseView::Vscode, searched: after };
    let macos = DetectionView { phase: PhaseView::Macos, searched: after.push("lldb-vscode"@) };
    let xcrun = DetectionView { phase: PhaseView::Xcrun, ..macos };
    if (env.look)("lldb-vscode"@) is None {
        assert(outcome(vscode, env) == outcome(macos, env));
        if env.macos {
            assert(outcome(macos, env) == outcome(xcrun, env));
            assert(xcrun.searched.push("xcrun --find lldb-dap"@) =~= candidates(env));
        } else {
            assert(macos.searched =~= candidates(env));
        }
    }
}

/// A binary that the environment variable names by a path which every system reads alike takes raw
/// commands exactly when the part behind the last slash says so; the names of the directories that
/// it is in do not matter.
pub proof fn law_capability_is_a_matter_of_the_file_name(env: Environment, path: Seq<char>)
    requires
        named(env) == Some(path),
        (env.look)(path) is Some || (env.exists)(path),
        detect::portable(path),
        (env.name)(path) == Some(detect::known_as(path, detect::file_name_of(path))),
    ensures
        chosen(env) == Some(
            Detected {
                path: detect::path_of(path),
                is_lldb_dap: detect::capable(
                    detect::known_as(path, detect::file_name_of(path)),
                ),
            },
        ),
{
}

/// The developer tools are asked only on a system that has them.
pub proof fn law_tools_are_asked_on_macos_only(d: DetectionView, answer: AnswerView)
    requires
        detect::next(d, answer) matches ProgressView::Ask(later) && later.phase is Xcrun,
    ensures
        d.phase is Macos,
        answer == AnswerView::Truth(true),
{
}

/// Every search comes to an end: each answer leaves fewer questions to ask.
pub proof fn law_search_ends(d: DetectionView, answer: AnswerView)
    ensures
        detect::next(d, answer) matches ProgressView::Ask(later) ==> questions_left(later.phase)
            < questions_left(d.phase),
{
}

} // verus!
