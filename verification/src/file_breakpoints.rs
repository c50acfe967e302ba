//! The line breakpoints of each file.

use vstd::prelude::*;

use crate::model;
use crate::text;
use crate::types::{SourceBp, SourceBpView};

verus! {

/// Whether no file occurs twice.
pub open spec fn distinct(entries: Seq<(String, Vec<SourceBp>)>) -> bool {
    forall|i: int, j: int|
        0 <= i < j < entries.len() ==> (#[trigger] entries[i]).0@ != (#[trigger] entries[j]).0@
}

/// Whether the entry at index `i` is that of `file`.
pub open spec fn file_at(
    entries: Seq<(String, Vec<SourceBp>)>,
    file: Seq<char>,
    i: int,
) -> bool {
    0 <= i < entries.len() && entries[i].0@ == file
}

/// The breakpoints of each file that `entries` lists.
pub open spec fn file_table(entries: Seq<(String, Vec<SourceBp>)>) -> Map<
    Seq<char>,
    Seq<SourceBpView>,
> {
    Map::new(
        |file: Seq<char>| exists|i: int| file_at(entries, file, i),
        |file: Seq<char>| model::views(entries[choose|i: int| file_at(entries, file, i)].1@),
    )
}

/// The breakpoints of `file`: none when there is no list of them.
pub open spec fn listed(files: Map<Seq<char>, Seq<SourceBpView>>, file: Seq<char>) -> Seq<
    SourceBpView,
> {
    if files.dom().contains(file) {
        files[file]
    } else {
        Seq::empty()
    }
}

/// `files` with `more` behind the breakpoints of each file.
pub open spec fn merged(
    files: Map<Seq<char>, Seq<SourceBpView>>,
    more: Map<Seq<char>, Seq<SourceBpView>>,
) -> Map<Seq<char>, Seq<SourceBpView>> {
    Map::new(
        |file: Seq<char>| files.dom().contains(file) || more.dom().contains(file),
        |file: Seq<char>| listed(files, file) + listed(more, file),
    )
}

/// Whether a breakpoint is on the line `line`.
pub open spec fn on_line(line: int) -> spec_fn(SourceBpView) -> bool {
    |bp: SourceBpView| bp.line == line
}

/// The entry at an index is the list of its file.
pub proof fn lemma_file_at(entries: Seq<(String, Vec<SourceBp>)>, i: int)
    requires
        distinct(entries),
        0 <= i < entries.len(),
    ensures
        file_table(entries).dom().contains(entries[i].0@),
        file_table(entries)[entries[i].0@] == model::views(entries[i].1@),
{
    let file = entries[i].0@;
    assert(file_at(entries, file, i));
    let k = choose|k: int| file_at(entries, file, k);
    assert(file_at(entries, file, k));
    assert(k == i);
}

proof fn lemma_file_push(entries: Seq<(String, Vec<SourceBp>)>, entry: (String, Vec<SourceBp>))
    requires
        distinct(entries),
        forall|i: int| 0 <= i < entries.len() ==> (#[trigger] entries[i]).0@ != entry.0@,
    ensures
        distinct(entries.push(entry)),
        file_table(entries.push(entry)) == file_table(entries).insert(
            entry.0@,
            model::views(entry.1@),
        ),
        !file_table(entries).dom().contains(entry.0@),
{
    let after = entries.push(entry);
    let before_map = file_table(entries).insert(entry.0@, model::views(entry.1@));
    assert(distinct(after));
    assert forall|f: Seq<char>| file_table(after).dom().contains(f)
        == before_map.dom().contains(f) by {
        if file_table(after).dom().contains(f) {
            let i = choose|i: int| file_at(after, f, i);
            assert(file_at(after, f, i));
            if i < entries.len() {
                assert(file_at(entries, f, i));
            }
        }
        if file_table(entries).dom().contains(f) {
            let i = choose|i: int| file_at(entries, f, i);
            assert(file_at(after, f, i));
        }
        assert(file_at(after, entry.0@, entries.len() as int));
    }
    assert forall|f: Seq<char>| file_table(after).dom().contains(f) implies file_table(after)[f]
        == before_map[f] by {
        let i = choose|i: int| file_at(after, f, i);
        assert(file_at(after, f, i));
        lemma_file_at(after, i);
        if i < entries.len() {
            lemma_file_at(entries, i);
        }
    }
    assert(file_table(after) =~= before_map);
}

proof fn lemma_file_update(entries: Seq<(String, Vec<SourceBp>)>, p: int, list: Vec<SourceBp>)
    requires
        distinct(entries),
        0 <= p < entries.len(),
    ensures
        distinct(entries.update(p, (entries[p].0, list))),
        file_table(entries.update(p, (entries[p].0, list))) == file_table(entries).insert(
            entries[p].0@,
            model::views(list@),
        ),
{
    let file = entries[p].0@;
    let after = entries.update(p, (entries[p].0, list));
    let before_map = file_table(entries).insert(file, model::views(list@));
    assert(distinct(after));
    assert forall|f: Seq<char>| file_table(after).dom().contains(f)
        == before_map.dom().contains(f) by {
        if file_table(after).dom().contains(f) {
            let i = choose|i: int| file_at(after, f, i);
            assert(file_at(entries, f, i));
        }
        if file_table(entries).dom().contains(f) {
            let i = choose|i: int| file_at(entries, f, i);
            assert(file_at(after, f, i));
        }
        assert(file_at(after, file, p));
    }
    assert forall|f: Seq<char>| file_table(after).dom().contains(f) implies file_table(after)[f]
        == before_map[f] by {
        let i = choose|i: int| file_at(after, f, i);
        assert(file_at(after, f, i));
        lemma_file_at(after, i);
        lemma_file_at(entries, i);
    }
    assert(file_table(after) =~= before_map);
}

proof fn lemma_file_table_len(entries: Seq<(String, Vec<SourceBp>)>)
    requires
        distinct(entries),
    ensures
        file_table(entries).dom().finite(),
        file_table(entries).dom().len() == entries.len(),
    decreases entries.len(),
{
    if entries.len() == 0 {
        assert(file_table(entries).dom() =~= Set::<Seq<char>>::empty());
    } else {
        let head = entries.drop_last();
        assert(distinct(head));
        lemma_file_table_len(head);
        assert forall|i: int| 0 <= i < head.len() implies (#[trigger] head[i]).0@
            != entries.last().0@ by {
            assert(entries[i].0@ != entries[entries.len() - 1].0@);
        }
        lemma_file_push(head, entries.last());
        assert(head.push(entries.last()) =~= entries);
        assert(file_table(entries).dom() =~= file_table(head).dom().insert(entries.last().0@));
    }
}

/// The line breakpoints of each file, in the order in which the files came.
#[derive(Debug)]
pub struct FileBreakpoints {
    entries: Vec<(String, Vec<SourceBp>)>,
}

impl View for FileBreakpoints {
    type V = Map<Seq<char>, Seq<SourceBpView>>;

    closed spec fn view(&self) -> Map<Seq<char>, Seq<SourceBpView>> {
        file_table(self.entries@)
    }
}

fn copy_list(list: &Vec<SourceBp>) -> (copy: Vec<SourceBp>)
    ensures
        copy@ == list@,
{
    let copy = list.clone();
    assert(copy@ =~= list@);
    copy
}

impl FileBreakpoints {
    /// No file occurs twice.
    pub closed spec fn wf(self) -> bool {
        distinct(self.entries@)
    }

    /// No breakpoints of any file.
    pub fn new() -> (files: Self)
        ensures
            files.wf(),
            files@ == Map::<Seq<char>, Seq<SourceBpView>>::empty(),
    {
        let files = FileBreakpoints { entries: Vec::new() };
        assert(files@ =~= Map::<Seq<char>, Seq<SourceBpView>>::empty());
        files
    }

    fn position(&self, file: &str) -> (p: usize)
        ensures
            p <= self.entries@.len(),
            p < self.entries@.len() ==> self.entries@[p as int].0@ == file@,
            p == self.entries@.len() ==> forall|i: int|
                0 <= i < self.entries@.len() ==> (#[trigger] self.entries@[i]).0@ != file@,
    {
        let mut p: usize = 0;
        while p < self.entries.len()
            invariant
                p <= self.entries@.len(),
                forall|i: int| 0 <= i < p ==> (#[trigger] self.entries@[i]).0@ != file@,
            decreases self.entries@.len() - p,
        {
            if text::same_text(self.entries[p].0.as_str(), file) {
                return p;
            }
            p += 1;
        }
        p
    }

    /// How many files have a list.
    pub fn len(&self) -> (n: usize)
        requires
            self.wf(),
        ensures
            n == self@.dom().len(),
    {
        proof {
            lemma_file_table_len(self.entries@);
        }
        self.entries.len()
    }

    /// Whether no file has a list.
    pub fn is_empty(&self) -> (empty: bool)
        requires
            self.wf(),
        ensures
            empty == (self@.dom().len() == 0),
    {
        self.len() == 0
    }

    /// The list of `file`.
    pub fn get(&self, file: &str) -> (list: Option<&Vec<SourceBp>>)
        requires
            self.wf(),
        ensures
            match list {
                Some(l) => self@.dom().contains(file@) && model::views(l@) == self@[file@],
                None => !self@.dom().contains(file@),
            },
    {
        let p = self.position(file);
        if p < self.entries.len() {
            proof {
                lemma_file_at(self.entries@, p as int);
            }
            Some(&self.entries[p].1)
        } else {
            None
        }
    }

    /// Puts `more` behind the breakpoints of `file`.
    pub fn extend(&mut self, file: &str, more: &Vec<SourceBp>)
        requires
            old(self).wf(),
        ensures
            final(self).wf(),
            final(self)@ == old(self)@.insert(
                file@,
                listed(old(self)@, file@) + model::views(more@),
            ),
    {
        let p = self.position(file);
        let ghost before = self.entries@;
        let mut added = copy_list(more);
        if p < self.entries.len() {
            let (key, mut list) = self.entries.remove(p);
            proof {
                lemma_file_at(before, p as int);
                model::lemma_views_add(list@, added@);
            }
            list.append(&mut added);
            proof {
                lemma_file_update(before, p as int, list);
            }
            self.entries.insert(p, (key, list));
            assert(self.entries@ =~= before.update(p as int, (key, list)));
        } else {
            let key = file.to_owned();
            proof {
                lemma_file_push(before, (key, added));
                assert(listed(file_table(before), file@) + model::views(more@) =~= model::views(
                    more@,
                ));
            }
            self.entries.push((key, added));
        }
    }

    /// Puts `bp` behind the breakpoints of `file`.
    pub fn add(&mut self, file: &str, bp: SourceBp)
        requires
            old(self).wf(),
        ensures
            final(self).wf(),
            final(self)@ == old(self)@.insert(file@, listed(old(self)@, file@).push(bp@)),
    {
        let mut one: Vec<SourceBp> = Vec::new();
        let ghost view = bp@;
        one.push(bp);
        let ghost before = self@;
        self.extend(file, &one);
        assert(listed(before, file@) + model::views(one@) =~= listed(before, file@).push(view));
    }

    /// Takes the first breakpoint on `line` out of the list of `file`, if there is one.
    pub fn remove_line(&mut self, file: &str, line: i64)
        requires
            old(self).wf(),
        ensures
            final(self).wf(),
            final(self)@ == (if old(self)@.dom().contains(file@) {
                old(self)@.insert(
                    file@,
                    model::remove_first(old(self)@[file@], on_line(line as int)),
                )
            } else {
                old(self)@
            }),
    {
        let p = self.position(file);
        let ghost before = self.entries@;
        if p < self.entries.len() {
            let (key, mut list) = self.entries.remove(p);
            let ghost bps = model::views(list@);
            let ghost wanted = on_line(line as int);
            proof {
                lemma_file_at(before, p as int);
            }
            let mut i: usize = 0;
            while i < list.len() && list[i].line != line
                invariant
                    i <= list@.len(),
                    bps == model::views(list@),
                    wanted == on_line(line as int),
                    forall|j: int| 0 <= j < i ==> !wanted(#[trigger] bps[j]),
                decreases list@.len() - i,
            {
                i += 1;
            }
            proof {
                model::lemma_first_index(bps, wanted, i as int);
                if i < list@.len() {
                    model::lemma_views_remove(list@, i as int);
                }
            }
            if i < list.len() {
                let _ = list.remove(i);
            }
            proof {
                lemma_file_update(before, p as int, list);
            }
            self.entries.insert(p, (key, list));
            assert(self.entries@ =~= before.update(p as int, (key, list)));
        } else {
            assert(!file_table(before).dom().contains(file@));
        }
    }

    /// Puts `more` behind the breakpoints of each file.
    pub fn merge(&mut self, more: &FileBreakpoints)
        requires
            old(self).wf(),
            more.wf(),
        ensures
            final(self).wf(),
            final(self)@ == merged(old(self)@, more@),
    {
        let ghost start = self@;
        let mut i: usize = 0;
        assert(self@ =~= merged(start, file_table(more.entries@.take(0))));
        while i < more.entries.len()
            invariant
                i <= more.entries@.len(),
                self.wf(),
                more.wf(),
                self@ == merged(start, file_table(more.entries@.take(i as int))),
            decreases more.entries@.len() - i,
        {
            let ghost done = more.entries@.take(i as int);
            let ghost entry = more.entries@[i as int];
            proof {
                assert(distinct(done));
                assert forall|j: int| 0 <= j < done.len() implies (#[trigger] done[j]).0@
                    != entry.0@ by {
                    assert(more.entries@[j].0@ != more.entries@[i as int].0@);
                }
                lemma_file_push(done, entry);
                assert(more.entries@.take(i + 1) =~= done.push(entry));
            }
            self.extend(more.entries[i].0.as_str(), &more.entries[i].1);
            proof {
                let file = entry.0@;
                assert(listed(file_table(done), file) =~= Seq::<SourceBpView>::empty());
                assert(listed(start, file) + Seq::<SourceBpView>::empty() =~= listed(start, file));
                assert(listed(merged(start, file_table(done)), file) =~= listed(start, file));
                assert(self@ =~= merged(start, file_table(more.entries@.take(i + 1))));
            }
            i += 1;
        }
        assert(more.entries@.take(more.entries@.len() as int) =~= more.entries@);
    }

    /// The lists, each with its file.
    pub fn into_entries(self) -> (entries: Vec<(String, Vec<SourceBp>)>)
        requires
            self.wf(),
        ensures
            distinct(entries@),
            file_table(entries@) == self@,
    {
        self.entries
    }
}

} // verus!
