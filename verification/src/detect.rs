//! Finding the debugger binary: a fixed chain of places, searched in order until one has it.
//!
//! The search asks one question about the environment at a time and is handed the answer, so that
//! nothing is looked up that an earlier answer made unnecessary.

use std::path::PathBuf;

use vstd::prelude::*;

use crate::error::BackendError;
use crate::text;

verus! {

#[verifier::external_type_specification]
#[verifier::external_body]
pub struct ExPathBuf(std::path::PathBuf);

/// The path that a text writes.
pub uninterp spec fn path_of(text: Seq<char>) -> PathBuf;

/// `PathBuf::from(String)`: the path that the text writes.
#[verifier::external_body]
pub(crate) fn path_from(text: String) -> (path: PathBuf)
    ensures
        path == path_of(text@),
{
    PathBuf::from(text)
}

/// A binary that was found.
#[derive(Debug, PartialEq, Eq)]
pub struct Detected {
    pub path: PathBuf,
    /// Whether it takes raw commands.
    pub is_lldb_dap: bool,
}

/// `path` without the slashes, and the dots behind slashes, at its end.
pub open spec fn without_trailing(path: Seq<char>) -> Seq<char>
    decreases path.len(),
{
    if path.len() > 0 && path.last() == '/' {
        without_trailing(path.drop_last())
    } else if path.len() > 1 && path.last() == '.' && path[path.len() - 2] == '/' {
        without_trailing(path.drop_last())
    } else {
        path
    }
}

/// What follows the last slash of `path`.
pub open spec fn after_last_slash(path: Seq<char>) -> Seq<char>
    decreases path.len(),
{
    if path.len() == 0 || path.last() == '/' {
        Seq::empty()
    } else {
        after_last_slash(path.drop_last()).push(path.last())
    }
}

/// The name of the file or directory at `path`, whose parts slashes separate, unless it ends in no
/// name.
pub open spec fn file_name_of(path: Seq<char>) -> Option<Seq<char>> {
    let name = after_last_slash(without_trailing(path));
    if name.len() == 0 || name == "."@ || name == ".."@ {
        None
    } else {
        Some(name)
    }
}

/// Whether every system reads `path` alike: slashes separate its parts, and nothing in it is taken
/// for another separator, a drive or a server on some systems.
pub open spec fn portable(path: Seq<char>) -> bool {
    &&& !path.contains('\\')
    &&& !path.contains(':')
    &&& !(path.len() > 1 && path[0] == '/' && path[1] == '/')
}

/// `std::path::Path::file_name`, as text: the final component of a path, unless it ends in no
/// name. It is a part of the path. What separates components depends on the system; on a path that
/// every system reads alike it is the name behind the last slash. Which part of another path it is
/// is left unsaid.
#[verifier::external_body]
pub(crate) fn file_name(path: &str) -> (name: Option<String>)
    ensures
        name matches Some(n) ==> n@.len() > 0 && text::occurs_in(path@, n@),
        portable(path@) ==> crate::model::view_opt(name) == file_name_of(path@),
{
    match std::path::Path::new(path).file_name() {
        Some(name) => match name.to_str() {
            Some(text) => Some(text.to_owned()),
            None => None,
        },
        None => None,
    }
}

/// The name by which a binary at `path` is known, when the file's name is `name`: the path itself
/// where it ends in no name.
pub open spec fn known_as(path: Seq<char>, name: Option<Seq<char>>) -> Seq<char> {
    match name {
        Some(name) => name,
        None => path,
    }
}

/// Whether a binary of that name takes raw commands.
pub open spec fn capable(name: Seq<char>) -> bool {
    text::occurs_in(name, "lldb-dap"@)
}

/// The name by which a binary at `path` is known, given the file's name.
pub fn name_or_path(path: &str, name: Option<String>) -> (known: String)
    ensures
        known@ == known_as(path@, crate::model::view_opt(name)),
{
    match name {
        Some(name) => name,
        None => path.to_owned(),
    }
}

/// The name of the file or directory at `path`, or `path` where it ends in no name. How a path
/// with backslashes, a colon or two leading slashes is read depends on the system.
pub fn basename(path: &str) -> (name: String)
    ensures
        portable(path@) ==> name@ == known_as(path@, file_name_of(path@)),
        text::occurs_in(path@, name@),
{
    proof {
        assert(path@.subrange(0, path@.len() as int) =~= path@);
        assert(text::occurs_at(path@, path@, 0));
    }
    name_or_path(path, file_name(path))
}

/// Whether a binary of that name takes raw commands.
pub fn is_capable_basename(name: &str) -> (is_capable: bool)
    ensures
        is_capable == capable(name@),
{
    text::contains_text(name, "lldb-dap")
}

/// Whether `name` is a path, to be taken as it is, rather than a name to look up.
pub fn has_separator(name: &str) -> (has: bool)
    ensures
        has == name@.contains('/'),
{
    let chars = text::chars_of(name);
    let mut i: usize = 0;
    while i < chars.len()
        invariant
            i <= chars@.len(),
            chars@ == name@,
            forall|j: int| 0 <= j < i ==> chars@[j] != '/',
        decreases chars@.len() - i,
    {
        if chars[i] == '/' {
            return true;
        }
        i += 1;
    }
    false
}

/// Whether a candidate can be run.
pub open spec fn runnable() -> spec_fn((PathBuf, bool)) -> bool {
    |candidate: (PathBuf, bool)| candidate.1
}

/// The first of `candidates` that can be run; each goes with whether it can.
pub fn look_path_in(candidates: Vec<(PathBuf, bool)>) -> (found: Option<PathBuf>)
    ensures
        ({
            let i = crate::model::first_index(candidates@, runnable());
            if i < candidates@.len() {
                found == Some(candidates@[i].0)
            } else {
                found is None
            }
        }),
{
    let ghost all = candidates@;
    let ghost wanted = runnable();
    let count: usize = candidates.len();
    let mut checked: usize = 0;
    for candidate in it: candidates.into_iter()
        invariant
            it.seq() == all,
            count == all.len(),
            checked == it.index(),
            wanted == runnable(),
            forall|j: int| 0 <= j < it.index() ==> !wanted(#[trigger] all[j]),
    {
        let (path, can_run) = candidate;
        if can_run {
            proof {
                crate::model::lemma_first_index(all, wanted, checked as int);
            }
            return Some(path);
        }
        checked += 1;
    }
    proof {
        crate::model::lemma_first_index(all, wanted, all.len() as int);
    }
    None
}

/// A question about the environment.
#[derive(Debug, Clone, PartialEq, Eq)]
pub enum Query {
    /// The value of an environment variable.
    Var(String),
    /// Where the binary of that name is on the search path.
    LookPath(String),
    /// Whether a file is at that path.
    PathExists(String),
    /// The name of the file at that path, as the system reads the path.
    Basename(String),
    /// Whether the system is macOS.
    IsMacos,
    /// What `xcrun --find lldb-dap` prints.
    Xcrun,
}

pub enum QueryView {
    Var(Seq<char>),
    LookPath(Seq<char>),
    PathExists(Seq<char>),
    Basename(Seq<char>),
    IsMacos,
    Xcrun,
}

impl View for Query {
    type V = QueryView;

    open spec fn view(&self) -> QueryView {
        match *self {
            Query::Var(name) => QueryView::Var(name@),
            Query::LookPath(name) => QueryView::LookPath(name@),
            Query::PathExists(path) => QueryView::PathExists(path@),
            Query::Basename(path) => QueryView::Basename(path@),
            Query::IsMacos => QueryView::IsMacos,
            Query::Xcrun => QueryView::Xcrun,
        }
    }
}

/// The answer to a question about the environment.
#[derive(Debug)]
pub enum Answer {
    /// The value or the printed text, if there is one.
    Text(Option<String>),
    /// The path, if the binary was found.
    Found(Option<PathBuf>),
    Truth(bool),
}

pub enum AnswerView {
    Text(Option<Seq<char>>),
    Found(Option<PathBuf>),
    Truth(bool),
}

impl View for Answer {
    type V = AnswerView;

    open spec fn view(&self) -> AnswerView {
        match *self {
            Answer::Text(text) => AnswerView::Text(crate::model::view_opt(text)),
            Answer::Found(path) => AnswerView::Found(path),
            Answer::Truth(truth) => AnswerView::Truth(truth),
        }
    }
}

/// Whether `answer` is an answer to `query`.
pub open spec fn answers(query: QueryView, answer: AnswerView) -> bool {
    match query {
        QueryView::Var(_) => answer is Text,
        QueryView::LookPath(_) => answer is Found,
        QueryView::PathExists(_) => answer is Truth,
        QueryView::Basename(_) => answer is Text,
        QueryView::IsMacos => answer is Truth,
        QueryView::Xcrun => answer is Text,
    }
}

/// Where in the chain a search is.
#[derive(Debug)]
enum Phase {
    EnvVar,
    EnvLook(String),
    EnvStat(String),
    EnvName(String),
    Plain,
    Versioned(u64),
    Vscode,
    Macos,
    Xcrun,
}

pub enum PhaseView {
    /// About to ask for the environment variable.
    EnvVar,
    /// About to look up what the variable says on the search path.
    EnvLook(Seq<char>),
    /// About to ask whether a file is where the variable says.
    EnvStat(Seq<char>),
    /// About to ask for the name of the file that is where the variable says.
    EnvName(Seq<char>),
    /// About to look up the plain name.
    Plain,
    /// About to look up the name with that version.
    Versioned(nat),
    /// About to look up the older name.
    Vscode,
    /// About to ask for the system.
    Macos,
    /// About to ask the developer tools.
    Xcrun,
}

/// A search that is under way.
#[derive(Debug)]
pub struct Detection {
    phase: Phase,
    searched: Vec<String>,
}

pub struct DetectionView {
    pub phase: PhaseView,
    /// What was searched in vain.
    pub searched: Seq<Seq<char>>,
}

impl View for Detection {
    type V = DetectionView;

    closed spec fn view(&self) -> DetectionView {
        DetectionView {
            phase: match self.phase {
                Phase::EnvVar => PhaseView::EnvVar,
                Phase::EnvLook(path) => PhaseView::EnvLook(path@),
                Phase::EnvStat(path) => PhaseView::EnvStat(path@),
                Phase::EnvName(path) => PhaseView::EnvName(path@),
                Phase::Plain => PhaseView::Plain,
                Phase::Versioned(version) => PhaseView::Versioned(version as nat),
                Phase::Vscode => PhaseView::Vscode,
                Phase::Macos => PhaseView::Macos,
                Phase::Xcrun => PhaseView::Xcrun,
            },
            searched: crate::model::views(self.searched@),
        }
    }
}

/// The name of a versioned binary.
pub open spec fn versioned_name(version: nat) -> Seq<char> {
    "lldb-dap-"@ + text::decimal(version)
}

/// The question that a search at `phase` asks.
pub open spec fn query_of(phase: PhaseView) -> QueryView {
    match phase {
        PhaseView::EnvVar => QueryView::Var("LLDB_DAP_PATH"@),
        PhaseView::EnvLook(path) => QueryView::LookPath(path),
        PhaseView::EnvStat(path) => QueryView::PathExists(path),
        PhaseView::EnvName(path) => QueryView::Basename(path),
        PhaseView::Plain => QueryView::LookPath("lldb-dap"@),
        PhaseView::Versioned(version) => QueryView::LookPath(versioned_name(version)),
        PhaseView::Vscode => QueryView::LookPath("lldb-vscode"@),
        PhaseView::Macos => QueryView::IsMacos,
        PhaseView::Xcrun => QueryView::Xcrun,
    }
}

/// The text of the failure to find a binary anywhere in `searched`.
pub open spec fn not_found(searched: Seq<Seq<char>>) -> Seq<char> {
    "lldb-dap binary not found; searched: "@ + text::joined(searched, ", "@)
}

pub enum ProgressView {
    /// The search goes on.
    Ask(DetectionView),
    /// The search is over: a binary, or the text of the failure.
    Done(Result<Detected, Seq<char>>),
}

/// The search goes on at `phase`, `candidate` having been searched in vain.
pub open spec fn go_on(
    d: DetectionView,
    candidate: Seq<char>,
    phase: PhaseView,
) -> ProgressView {
    ProgressView::Ask(DetectionView { phase, searched: d.searched.push(candidate) })
}

/// The binary at `path` was found.
pub open spec fn found(path: PathBuf, is_lldb_dap: bool) -> ProgressView {
    ProgressView::Done(Ok(Detected { path, is_lldb_dap }))
}

/// What the answer `answer` makes of the search `d`.
pub open spec fn next(d: DetectionView, answer: AnswerView) -> ProgressView {
    match (d.phase, answer) {
        (PhaseView::EnvVar, AnswerView::Text(Some(path))) => if path.len() > 0 {
            ProgressView::Ask(DetectionView { phase: PhaseView::EnvLook(path), ..d })
        } else {
            ProgressView::Ask(DetectionView { phase: PhaseView::Plain, ..d })
        },
        (PhaseView::EnvVar, _) => ProgressView::Ask(DetectionView { phase: PhaseView::Plain, ..d }),
        (PhaseView::EnvLook(path), AnswerView::Found(Some(_))) => ProgressView::Ask(
            DetectionView { phase: PhaseView::EnvName(path), ..d },
        ),
        (PhaseView::EnvLook(path), _) => ProgressView::Ask(
            DetectionView { phase: PhaseView::EnvStat(path), ..d },
        ),
        (PhaseView::EnvStat(path), AnswerView::Truth(true)) => ProgressView::Ask(
            DetectionView { phase: PhaseView::EnvName(path), ..d },
        ),
        (PhaseView::EnvStat(path), _) => go_on(d, "LLDB_DAP_PATH="@ + path, PhaseView::Plain),
        (PhaseView::EnvName(path), AnswerView::Text(name)) => found(
            path_of(path),
            capable(known_as(path, name)),
        ),
        (PhaseView::EnvName(path), _) => found(path_of(path), capable(path)),
        (PhaseView::Plain, AnswerView::Found(Some(path))) => found(path, true),
        (PhaseView::Plain, _) => go_on(d, "lldb-dap"@, PhaseView::Versioned(20)),
        (PhaseView::Versioned(_), AnswerView::Found(Some(path))) => found(path, true),
        (PhaseView::Versioned(version), _) => go_on(
            d,
            versioned_name(version),
            if version > 15 {
                PhaseView::Versioned((version - 1) as nat)
            } else {
                PhaseView::Vscode
            },
        ),
        (PhaseView::Vscode, AnswerView::Found(Some(path))) => found(path, false),
        (PhaseView::Vscode, _) => go_on(d, "lldb-vscode"@, PhaseView::Macos),
        (PhaseView::Macos, AnswerView::Truth(true)) => ProgressView::Ask(
            DetectionView { phase: PhaseView::Xcrun, ..d },
        ),
        (PhaseView::Macos, _) => ProgressView::Done(Err(not_found(d.searched))),
        (PhaseView::Xcrun, AnswerView::Text(Some(printed))) => if text::trimmed(printed).len()
            > 0 {
            found(path_of(text::trimmed(printed)), true)
        } else {
            ProgressView::Done(Err(not_found(d.searched.push("xcrun --find lldb-dap"@))))
        },
        (PhaseView::Xcrun, _) => ProgressView::Done(
            Err(not_found(d.searched.push("xcrun --find lldb-dap"@))),
        ),
    }
}

/// What an answer made of a search.
#[derive(Debug)]
pub enum Progress {
    /// The search goes on.
    Ask(Detection),
    /// The search is over.
    Done(Result<Detected, BackendError>),
}

impl View for Progress {
    type V = ProgressView;

    open spec fn view(&self) -> ProgressView {
        match *self {
            Progress::Ask(d) => ProgressView::Ask(d@),
            Progress::Done(Ok(detected)) => ProgressView::Done(Ok(detected)),
            Progress::Done(Err(err)) => ProgressView::Done(
                Err(
                    match err {
                        BackendError::Detect(m) => m@,
                        _ => Seq::empty(),
                    },
                ),
            ),
        }
    }
}

impl Detection {
    /// A search that begins.
    pub fn new() -> (d: Self)
        ensures
            d@ == (DetectionView { phase: PhaseView::EnvVar, searched: Seq::empty() }),
    {
        let d = Detection { phase: Phase::EnvVar, searched: Vec::new() };
        assert(d@.searched =~= Seq::<Seq<char>>::empty());
        d
    }

    /// The question to answer next.
    pub fn query(&self) -> (query: Query)
        ensures
            query@ == query_of(self@.phase),
    {
        match &self.phase {
            Phase::EnvVar => Query::Var("LLDB_DAP_PATH".to_owned()),
            Phase::EnvLook(path) => Query::LookPath(path.clone()),
            Phase::EnvStat(path) => Query::PathExists(path.clone()),
            Phase::EnvName(path) => Query::Basename(path.clone()),
            Phase::Plain => Query::LookPath("lldb-dap".to_owned()),
            Phase::Versioned(version) => Query::LookPath(
                text::concat2("lldb-dap-", text::decimal_text(*version).as_str()),
            ),
            Phase::Vscode => Query::LookPath("lldb-vscode".to_owned()),
            Phase::Macos => Query::IsMacos,
            Phase::Xcrun => Query::Xcrun,
        }
    }

    fn move_on(self, candidate: String, phase: Phase) -> (progress: Progress)
        ensures
            progress matches Progress::Ask(d) && d.phase == phase && crate::model::views(
                d.searched@,
            ) == self@.searched.push(candidate@),
    {
        let mut searched = self.searched;
        proof {
            crate::model::lemma_views_push(searched@, candidate);
        }
        searched.push(candidate);
        Progress::Ask(Detection { phase, searched })
    }

    fn give_up(searched: &Vec<String>) -> (progress: Progress)
        ensures
            progress matches Progress::Done(Err(BackendError::Detect(m))) && m@ == not_found(
                crate::model::views(searched@),
            ),
    {
        let list = text::join_text(searched, ", ");
        Progress::Done(
            Err(
                BackendError::Detect(
                    text::concat2("lldb-dap binary not found; searched: ", list.as_str()),
                ),
            ),
        )
    }

    /// Takes the answer to the question in. When no binary is found the error lists everything
    /// that was searched.
    pub fn answer(self, answer: Answer) -> (progress: Progress)
        requires
            answers(query_of(self@.phase), answer@),
        ensures
            progress@ == next(self@, answer@),
            progress matches Progress::Done(Err(err)) ==> err is Detect,
    {
        let ghost d = self@;
        let Detection { phase, searched } = self;
        match phase {
            Phase::EnvVar => {
                if let Answer::Text(Some(path)) = answer {
                    if !path.as_str().is_empty() {
                        return Progress::Ask(Detection { phase: Phase::EnvLook(path), searched });
                    }
                }
                Progress::Ask(Detection { phase: Phase::Plain, searched })
            },
            Phase::EnvLook(path) => {
                if let Answer::Found(Some(_)) = answer {
                    return Progress::Ask(Detection { phase: Phase::EnvName(path), searched });
                }
                Progress::Ask(Detection { phase: Phase::EnvStat(path), searched })
            },
            Phase::EnvStat(path) => {
                if let Answer::Truth(true) = answer {
                    return Progress::Ask(Detection { phase: Phase::EnvName(path), searched });
                }
                let candidate = text::concat2("LLDB_DAP_PATH=", path.as_str());
                Detection { phase: Phase::Plain, searched }.move_on(candidate, Phase::Plain)
            },
            Phase::EnvName(path) => {
                let name = match answer {
                    Answer::Text(name) => name,
                    _ => None,
                };
                let known = name_or_path(path.as_str(), name);
                let is_lldb_dap = is_capable_basename(known.as_str());
                Progress::Done(Ok(Detected { path: path_from(path), is_lldb_dap }))
            },
            Phase::Plain => {
                if let Answer::Found(Some(path)) = answer {
                    return Progress::Done(Ok(Detected { path, is_lldb_dap: true }));
                }
                Detection { phase: Phase::Plain, searched }.move_on(
                    "lldb-dap".to_owned(),
                    Phase::Versioned(20),
                )
            },
            Phase::Versioned(version) => {
                if let Answer::Found(Some(path)) = answer {
                    return Progress::Done(Ok(Detected { path, is_lldb_dap: true }));
                }
                let candidate = text::concat2("lldb-dap-", text::decimal_text(version).as_str());
                let phase = if version > 15 {
                    Phase::Versioned(version - 1)
                } else {
                    Phase::Vscode
                };
                Detection { phase: Phase::Plain, searched }.move_on(candidate, phase)
            },
            Phase::Vscode => {
                if let Answer::Found(Some(path)) = answer {
                    return Progress::Done(Ok(Detected { path, is_lldb_dap: false }));
                }
                Detection { phase: Phase::Plain, searched }.move_on(
                    "lldb-vscode".to_owned(),
                    Phase::Macos,
                )
            },
            Phase::Macos => {
                if let Answer::Truth(true) = answer {
                    return Progress::Ask(Detection { phase: Phase::Xcrun, searched });
                }
                Detection::give_up(&searched)
            },
            Phase::Xcrun => {
                if let Answer::Text(Some(printed)) = answer {
                    let path = text::trim_text(printed.as_str());
                    if !path.as_str().is_empty() {
                        return Progress::Done(
                            Ok(Detected { path: path_from(path), is_lldb_dap: true }),
                        );
                    }
                }
                let mut searched = searched;
                let candidate = "xcrun --find lldb-dap".to_owned();
                proof {
                    crate::model::lemma_views_push(searched@, candidate);
                }
                searched.push(candidate);
                Detection::give_up(&searched)
            },
        }
    }
}

} // verus!
