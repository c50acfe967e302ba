//! How the debugger's binary is found and started, and what is kept of what it writes.

use std::path::PathBuf;

use vstd::prelude::*;

use crate::detect;
use crate::detect::{Answer, Detection, PhaseView, Progress, Query};
use crate::error::BackendError;
use crate::subprocess;
use crate::subprocess::StderrBuffer;
use crate::text;

verus! {

/// Whether `kept` is the end of `all`, as much of it as `limit` allows.
pub open spec fn is_end_of(kept: Seq<u8>, all: Seq<u8>, limit: int) -> bool {
    &&& kept.len() == if all.len() <= limit {
        all.len() as int
    } else {
        limit
    }
    &&& forall|i: int| #![trigger kept[i]]
        0 <= i < kept.len() ==> kept[i] == all[all.len() - kept.len() + i]
}

/// Of what the debugger writes to its error stream the last bytes are kept, up to the number that
/// was asked for, or 4096 when none was; all that is written counts as written.
pub proof fn law_last_bytes_are_kept(
    size: usize,
    fresh: &StderrBuffer,
    capacity: usize,
    buffer: &mut StderrBuffer,
    before: &StderrBuffer,
    after: &StderrBuffer,
    limit: usize,
    still: usize,
    data: &[u8],
    n: usize,
)
    requires
        call_ensures(StderrBuffer::new, (size,), *fresh),
        call_ensures(StderrBuffer::capacity, (fresh,), capacity),
        *before == *old(buffer),
        call_ensures(StderrBuffer::capacity, (before,), limit),
        call_ensures(StderrBuffer::write, (buffer, data), n),
        *after == *final(buffer),
        call_ensures(StderrBuffer::capacity, (after,), still),
    ensures
        fresh@.len() == 0,
        size > 0 ==> capacity == size,
        size == 0 ==> capacity == 4096,
        n == data@.len(),
        is_end_of(final(buffer)@, old(buffer)@ + data@, limit as int),
        still == limit,
{
}

/// What is kept is read as text.
pub proof fn law_kept_bytes_are_read_as_text(buffer: &StderrBuffer, said: String)
    requires
        call_ensures(StderrBuffer::contents, (buffer,), said),
    ensures
        vstd::utf8::valid_utf8(buffer@) ==> said@ == vstd::utf8::decode_utf8(buffer@),
        said@ == crate::bytes::lossy(buffer@),
{
}

/// Raw command mode is asked for exactly where the binary has it.
pub proof fn law_raw_mode_is_asked_for_where_it_is(is_lldb_dap: bool, arguments: Vec<String>)
    requires
        call_ensures(subprocess::spawn_args, (is_lldb_dap,), arguments),
    ensures
        is_lldb_dap ==> arguments@.len() == 1 && arguments@[0]@ == "--repl-mode=command"@,
        !is_lldb_dap ==> arguments@.len() == 0,
{
    let views = crate::model::views(arguments@);
    if is_lldb_dap {
        assert(views.len() == arguments@.len());
        assert(views[0] == arguments@[0]@);
    }
}

/// A process can be used exactly when it has all its pipes; else the first that is missing is
/// named. A program that cannot be started is named with the reason.
pub proof fn law_what_is_missing_is_named(
    stdin: bool,
    stdout: bool,
    stderr: bool,
    outcome: Result<(), BackendError>,
    program: &str,
    reason: &str,
    failure: BackendError,
)
    requires
        call_ensures(subprocess::check_pipes, (stdin, stdout, stderr), outcome),
        call_ensures(subprocess::spawn_failure, (program, reason), failure),
    ensures
        outcome is Ok <==> stdin && stdout && stderr,
        outcome matches Err(err) ==> (err matches BackendError::Spawn(said) && said@
            == "creating "@ + (if !stdin {
            "stdin"@
        } else if !stdout {
            "stdout"@
        } else {
            "stderr"@
        }) + " pipe: no handle"@),
        failure matches BackendError::Spawn(said) && said@ == "starting subprocess "@ + program@
            + ": "@ + reason@,
{
}

/// A binary takes raw commands exactly when its name has `lldb-dap` in it.
pub proof fn law_capability_is_told_by_name(name: &str, capable: bool)
    requires
        call_ensures(detect::is_capable_basename, (name,), capable),
    ensures
        capable <==> exists|i: int|
            0 <= i && i + "lldb-dap"@.len() <= name@.len() && #[trigger] name@.subrange(
                i,
                i + "lldb-dap"@.len(),
            ) == "lldb-dap"@,
{
    if capable {
        let i = choose|i: int| #[trigger] text::occurs_at(name@, "lldb-dap"@, i);
        assert(name@.subrange(i, i + "lldb-dap"@.len()) == "lldb-dap"@);
    } else {
        assert forall|i: int|
            0 <= i && i + "lldb-dap"@.len() <= name@.len() implies #[trigger] name@.subrange(
            i,
            i + "lldb-dap"@.len(),
        ) != "lldb-dap"@ by {
            assert(!text::occurs_at(name@, "lldb-dap"@, i));
        }
    }
}

/// Of the candidates on the search path the first that can be run is taken; a name with a slash is
/// a path.
pub proof fn law_first_runnable_candidate_is_taken(
    candidates: Vec<(PathBuf, bool)>,
    found: Option<PathBuf>,
    name: &str,
    is_path: bool,
)
    requires
        call_ensures(detect::look_path_in, (candidates,), found),
        call_ensures(detect::has_separator, (name,), is_path),
    ensures
        found matches Some(path) ==> exists|i: int|
            0 <= i < candidates@.len() && (#[trigger] candidates@[i]).1 && candidates@[i].0 == path
                && forall|j: int| 0 <= j < i ==> !(#[trigger] candidates@[j]).1,
        found is None ==> forall|j: int|
            0 <= j < candidates@.len() ==> !(#[trigger] candidates@[j]).1,
        is_path <==> exists|i: int| 0 <= i < name@.len() && #[trigger] name@[i] == '/',
{
    let wanted = detect::runnable();
    let i = crate::model::first_index(candidates@, wanted);
    crate::model::lemma_first_index_found(candidates@, wanted);
    crate::model::lemma_first_index_bounds(candidates@, wanted);
    assert forall|j: int| 0 <= j < i implies !(#[trigger] candidates@[j]).1 by {
        assert(!wanted(candidates@[j]));
    }
    if i < candidates@.len() {
        assert(wanted(candidates@[i]));
        assert(candidates@[i].1);
    }
}

/// The name of a binary is the file's name, or its whole path when it has none; on a path that all
/// systems read alike, the name is what stands behind the last slash.
pub proof fn law_binaries_are_known_by_file_name(
    path: &str,
    name: Option<String>,
    known: String,
    base: String,
)
    requires
        call_ensures(detect::name_or_path, (path, name), known),
        call_ensures(detect::basename, (path,), base),
    ensures
        name matches Some(n) ==> known@ == n@,
        name is None ==> known@ == path@,
        path@.len() > 0 && detect::portable(path@) && path@.last() != '/' && path@.last() != '.'
            ==> !base@.contains('/') && base@.len() <= path@.len() && path@.skip(
            path@.len() - base@.len(),
        ) == base@ && (base@.len() < path@.len() ==> path@[path@.len() - base@.len() - 1] == '/'),
{
    if path@.len() > 0 && detect::portable(path@) && path@.last() != '/' && path@.last() != '.' {
        lemma_after_last_slash(path@);
        reveal_strlit(".");
        reveal_strlit("..");
        let last = detect::after_last_slash(path@);
        assert(last.len() > 0);
        assert(last.last() == path@.last());
        assert("."@.last() == '.' && ".."@.last() == '.');
    }
}

proof fn lemma_after_last_slash(path: Seq<char>)
    ensures
        ({
            let name = detect::after_last_slash(path);
            &&& name.len() <= path.len()
            &&& !name.contains('/')
            &&& path.skip(path.len() - name.len()) == name
            &&& name.len() < path.len() ==> path[path.len() - name.len() - 1] == '/'
        }),
    decreases path.len(),
{
    let name = detect::after_last_slash(path);
    if path.len() == 0 || path.last() == '/' {
        assert(path.skip(path.len() as int) =~= name);
    } else {
        let head = path.drop_last();
        lemma_after_last_slash(head);
        let short = detect::after_last_slash(head);
        assert(name == short.push(path.last()));
        assert forall|i: int| 0 <= i < name.len() implies name[i] != '/' by {
            if i < short.len() {
                assert(short.contains(short[i]));
            }
        }
        assert forall|i: int| 0 <= i < name.len() implies path.skip(path.len() - name.len())[i]
            == name[i] by {
            if i < short.len() {
                assert(head.skip(head.len() - short.len())[i] == short[i]);
            }
        }
        assert(path.skip(path.len() - name.len()) =~= name);
    }
}

/// What a search asks for, one after the other: the environment variable, the plain name, the names
/// with a version, the older name, the system, and the developer tools.
pub proof fn law_search_asks_for_these(fresh: &Detection, d: &Detection, first: Query, query: Query)
    requires
        call_ensures(Detection::new, (), *fresh),
        call_ensures(Detection::query, (fresh,), first),
        call_ensures(Detection::query, (d,), query),
    ensures
        first matches Query::Var(name) && name@ == "LLDB_DAP_PATH"@,
        d@.phase matches PhaseView::EnvLook(path) ==> (query matches Query::LookPath(name) && name@
            == path),
        d@.phase matches PhaseView::EnvStat(path) ==> (query matches Query::PathExists(name)
            && name@ == path),
        d@.phase matches PhaseView::EnvName(path) ==> (query matches Query::Basename(name) && name@
            == path),
        d@.phase is Plain ==> (query matches Query::LookPath(name) && name@ == "lldb-dap"@),
        d@.phase matches PhaseView::Versioned(version) ==> (query matches Query::LookPath(name)
            && name@ == "lldb-dap-"@ + text::decimal(version)),
        d@.phase is Vscode ==> (query matches Query::LookPath(name) && name@ == "lldb-vscode"@),
        d@.phase is Macos ==> query is IsMacos,
        d@.phase is Xcrun ==> query is Xcrun,
{
}

/// What a search that finds a binary returns: the path where it was found, and whether it takes
/// raw commands. The plain and the versioned names do, the older name does not.
pub proof fn law_found_binary_is_returned(
    plain: Detection,
    versioned: Detection,
    older: Detection,
    path: PathBuf,
    first: Progress,
    second: Progress,
    third: Progress,
)
    requires
        plain@.phase is Plain,
        versioned@.phase is Versioned,
        older@.phase is Vscode,
        call_ensures(Detection::answer, (plain, Answer::Found(Some(path))), first),
        call_ensures(Detection::answer, (versioned, Answer::Found(Some(path))), second),
        call_ensures(Detection::answer, (older, Answer::Found(Some(path))), third),
    ensures
        first matches Progress::Done(Ok(found)) && found.path == path && found.is_lldb_dap,
        second matches Progress::Done(Ok(found)) && found.path == path && found.is_lldb_dap,
        third matches Progress::Done(Ok(found)) && found.path == path && !found.is_lldb_dap,
{
}

/// What the environment variable names is taken as it is named, and takes raw commands exactly when
/// the file's name says so.
pub proof fn law_named_binary_is_returned(
    d: Detection,
    path: Seq<char>,
    name: Option<String>,
    progress: Progress,
    known: Seq<char>,
)
    requires
        d@.phase == PhaseView::EnvName(path),
        call_ensures(Detection::answer, (d, Answer::Text(name)), progress),
        name matches Some(n) ==> known == n@,
        name is None ==> known == path,
    ensures
        progress matches Progress::Done(Ok(found)) && found.path == detect::path_of(path)
            && found.is_lldb_dap == text::occurs_in(known, "lldb-dap"@),
{
}

/// What the developer tools print is taken without the white space around it; nothing printed is
/// nothing found. A search that finds nothing lists everything that it searched.
pub proof fn law_search_ends_with_the_tools(
    system: Detection,
    tools: Detection,
    printed: Option<String>,
    none: Progress,
    last: Progress,
    searched: Seq<Seq<char>>,
)
    requires
        system@.phase is Macos,
        tools@.phase is Xcrun,
        call_ensures(Detection::answer, (system, Answer::Truth(false)), none),
        call_ensures(Detection::answer, (tools, Answer::Text(printed)), last),
        searched == tools@.searched.push("xcrun --find lldb-dap"@),
    ensures
        none matches Progress::Done(Err(BackendError::Detect(said))) && said@
            == "lldb-dap binary not found; searched: "@ + text::joined(system@.searched, ", "@),
        printed is Some && text::trimmed(printed->0@).len() > 0 ==> (last matches Progress::Done(
            Ok(found),
        ) && found.path == detect::path_of(text::trimmed(printed->0@)) && found.is_lldb_dap),
        printed is None || text::trimmed(printed->0@).len() == 0 ==> (last matches Progress::Done(
            Err(BackendError::Detect(said)),
        ) && said@ == "lldb-dap binary not found; searched: "@ + text::joined(searched, ", "@)),
{
}

/// A search that does not find a candidate notes it and goes on to the next: from the variable to
/// the plain name, from there to version 20 and down to 15, then to the older name, then to the
/// system, and on macOS to the developer tools.
pub proof fn law_search_goes_on(d: Detection, answer: Answer, progress: Progress)
    requires
        call_ensures(Detection::answer, (d, answer), progress),
        answer matches Answer::Found(found) ==> found is None,
        answer matches Answer::Truth(truth) ==> truth == (d@.phase is Macos),
        answer is Text ==> d@.phase is EnvVar,
    ensures
        d@.phase is EnvVar && answer is Text ==> (progress matches Progress::Ask(next)
            && next@.searched == d@.searched && (match answer->Text_0 {
            Some(path) => if path@.len() > 0 {
                next@.phase == PhaseView::EnvLook(path@)
            } else {
                next@.phase is Plain
            },
            None => next@.phase is Plain,
        })),
        d@.phase matches PhaseView::EnvLook(path) ==> (progress matches Progress::Ask(next)
            && next@.phase == PhaseView::EnvStat(path) && next@.searched == d@.searched),
        d@.phase matches PhaseView::EnvStat(path) ==> (progress matches Progress::Ask(next)
            && next@.phase is Plain && next@.searched == d@.searched.push(
            "LLDB_DAP_PATH="@ + path,
        )),
        d@.phase is Plain ==> (progress matches Progress::Ask(next) && next@.phase
            == PhaseView::Versioned(20) && next@.searched == d@.searched.push("lldb-dap"@)),
        d@.phase matches PhaseView::Versioned(version) ==> (progress matches Progress::Ask(next)
            && next@.searched == d@.searched.push("lldb-dap-"@ + text::decimal(version)) && (version
            > 15 ==> next@.phase == PhaseView::Versioned((version - 1) as nat)) && (version <= 15
            ==> next@.phase is Vscode)),
        d@.phase is Vscode ==> (progress matches Progress::Ask(next) && next@.phase is Macos
            && next@.searched == d@.searched.push("lldb-vscode"@)),
        d@.phase is Macos && answer is Truth ==> (progress matches Progress::Ask(next)
            && next@.phase is Xcrun && next@.searched == d@.searched),
{
}

} // verus!
