//! Captured program output, up to a limit.

use vstd::prelude::*;

use crate::model;

verus! {

/// How many bytes are kept at most.
pub const MAX_SIZE: usize = 1_048_576;

/// A piece of output with its category.
#[derive(Debug, Clone, PartialEq, Eq)]
pub struct OutputEntry {
    pub category: String,
    pub text: String,
}

pub struct EntryView {
    pub category: Seq<char>,
    pub text: Seq<char>,
}

impl View for OutputEntry {
    type V = EntryView;

    open spec fn view(&self) -> EntryView {
        EntryView { category: self.category@, text: self.text@ }
    }
}

/// How many bytes an entry takes.
pub open spec fn entry_size(entry: EntryView) -> nat {
    vstd::utf8::encode_utf8(entry.category).len() + vstd::utf8::encode_utf8(entry.text).len()
}

/// How many bytes `entries` take.
pub open spec fn total_size(entries: Seq<EntryView>) -> nat
    decreases entries.len(),
{
    if entries.len() == 0 {
        0
    } else {
        entry_size(entries[0]) + total_size(entries.drop_first())
    }
}

/// `entries` without as many of the oldest as it takes to get within the limit.
pub open spec fn evicted(entries: Seq<EntryView>) -> Seq<EntryView>
    decreases entries.len(),
{
    if total_size(entries) > MAX_SIZE && entries.len() > 0 {
        evicted(entries.drop_first())
    } else {
        entries
    }
}

/// What a buffer holds, and whether something was let go since it was last drained.
pub struct OutputView {
    pub entries: Seq<EntryView>,
    pub truncated: bool,
}

/// The entry that stands for what was let go.
pub open spec fn truncation_marker() -> EntryView {
    EntryView { category: "console"@, text: "[output truncated]"@ }
}

impl OutputView {
    /// The buffer that holds nothing.
    pub open spec fn empty() -> OutputView {
        OutputView { entries: Seq::empty(), truncated: false }
    }

    /// The buffer once `entry` was appended.
    pub open spec fn appended(self, entry: EntryView) -> OutputView {
        let all = self.entries.push(entry);
        OutputView {
            entries: evicted(all),
            truncated: self.truncated || total_size(all) > MAX_SIZE,
        }
    }

    /// What draining the buffer gives.
    pub open spec fn drained(self) -> Seq<EntryView> {
        if self.truncated {
            seq![truncation_marker()] + self.entries
        } else {
            self.entries
        }
    }

    /// The buffer once it was drained.
    pub open spec fn after_drain(self) -> OutputView {
        OutputView::empty()
    }
}

/// An entry that is appended adds its own size.
pub proof fn lemma_total_push(entries: Seq<EntryView>, entry: EntryView)
    ensures
        total_size(entries.push(entry)) == total_size(entries) + entry_size(entry),
    decreases entries.len(),
{
    let all = entries.push(entry);
    if entries.len() == 0 {
        assert(all.drop_first() =~= Seq::<EntryView>::empty());
        assert(total_size(all.drop_first()) == 0);
    } else {
        assert(all.drop_first() =~= entries.drop_first().push(entry));
        lemma_total_push(entries.drop_first(), entry);
    }
}

/// Captured output: the oldest entries make room for new ones.
#[derive(Debug)]
pub struct OutputBuffer {
    entries: Vec<OutputEntry>,
    size: usize,
    truncated: bool,
}

impl View for OutputBuffer {
    type V = OutputView;

    closed spec fn view(&self) -> OutputView {
        OutputView { entries: model::views(self.entries@), truncated: self.truncated }
    }
}

fn measure(category: &str, text: &str) -> (size: u128)
    ensures
        size == entry_size(EntryView { category: category@, text: text@ }),
        size <= 2 * usize::MAX,
{
    category.as_bytes().len() as u128 + text.as_bytes().len() as u128
}

impl OutputBuffer {
    /// The size is counted right, and within the limit.
    pub closed spec fn wf(self) -> bool {
        self.size == total_size(self@.entries) && self.size <= MAX_SIZE
    }

    /// A buffer never holds more than the limit, whatever was done to it.
    pub proof fn law_output_stays_within_the_limit(self)
        requires
            self.wf(),
        ensures
            total_size(self@.entries) <= MAX_SIZE,
    {
    }

    /// The buffer that holds nothing.
    pub fn new() -> (buffer: Self)
        ensures
            buffer.wf(),
            buffer@ == OutputView::empty(),
    {
        let buffer = OutputBuffer { entries: Vec::new(), size: 0, truncated: false };
        assert(buffer@.entries =~= Seq::<EntryView>::empty());
        buffer
    }

    /// Appends an entry, then lets go of the oldest entries as long as the limit is exceeded. An
    /// entry that exceeds it alone is let go at once.
    pub fn append(&mut self, category: &str, text: &str)
        requires
            old(self).wf(),
        ensures
            final(self).wf(),
            final(self)@ == old(self)@.appended(EntryView { category: category@, text: text@ }),
    {
        let ghost before = self@;
        let entry = OutputEntry { category: category.to_owned(), text: text.to_owned() };
        let ghost all = before.entries.push(entry@);
        proof {
            model::lemma_views_push(self.entries@, entry);
            lemma_total_push(before.entries, entry@);
        }
        let mut total: u128 = self.size as u128 + measure(category, text);
        self.entries.push(entry);
        while total > MAX_SIZE as u128 && self.entries.len() > 0
            invariant
                total == total_size(model::views(self.entries@)),
                evicted(all) == evicted(model::views(self.entries@)),
                self.truncated == (before.truncated || (total_size(all) > MAX_SIZE
                    && model::views(self.entries@) != all)),
                model::views(self.entries@) != all ==> total_size(all) > MAX_SIZE,
                model::views(self.entries@).len() <= all.len(),
                model::views(self.entries@).len() == all.len() ==> model::views(self.entries@)
                    == all,
            decreases self.entries@.len(),
        {
            let ghost now = model::views(self.entries@);
            let dropped = self.entries.remove(0);
            proof {
                assert(model::views(self.entries@) =~= now.drop_first());
                assert(now[0] == dropped@);
            }
            total = total - measure(dropped.category.as_str(), dropped.text.as_str());
            self.truncated = true;
        }
        proof {
            let now = model::views(self.entries@);
            if self.entries@.len() == 0 {
                assert(total_size(now) == 0);
            }
            assert(evicted(now) == now);
        }
        self.size = total as usize;
    }

    /// Hands out everything that is held, behind a marker if something was let go, and holds
    /// nothing any more.
    pub fn drain(&mut self) -> (drained: Vec<OutputEntry>)
        requires
            old(self).wf(),
        ensures
            final(self).wf(),
            model::views(drained@) == old(self)@.drained(),
            final(self)@ == old(self)@.after_drain(),
    {
        let ghost before = self@;
        let mut drained: Vec<OutputEntry> = Vec::new();
        if self.truncated {
            drained.push(
                OutputEntry {
                    category: "console".to_owned(),
                    text: "[output truncated]".to_owned(),
                },
            );
            self.truncated = false;
        }
        drained.append(&mut self.entries);
        self.size = 0;
        assert(model::views(drained@) =~= before.drained());
        assert(self@.entries =~= Seq::<EntryView>::empty());
        drained
    }
}

impl Default for OutputBuffer {
    /// The buffer that holds nothing.
    fn default() -> (buffer: Self)
        ensures
            buffer.wf(),
            buffer@ == OutputView::empty(),
    {
        OutputBuffer::new()
    }
}

/// Whether letting go of the `k` oldest entries gets `entries` within the limit, and fewer do not.
pub open spec fn least_eviction(entries: Seq<EntryView>, k: int) -> bool {
    &&& 0 <= k <= entries.len()
    &&& k < entries.len() ==> total_size(entries.skip(k)) <= MAX_SIZE
    &&& forall|j: int| 0 <= j < k ==> total_size(#[trigger] entries.skip(j)) > MAX_SIZE
}

/// Only the oldest entries are let go, and no more of them than the limit demands: what stays is
/// the longest end of all entries that is within the limit, in order.
pub proof fn law_eviction_keeps_the_newest(entries: Seq<EntryView>)
    ensures
        exists|k: int| #[trigger]
            least_eviction(entries, k) && evicted(entries) == entries.skip(k),
        total_size(evicted(entries)) <= MAX_SIZE,
    decreases entries.len(),
{
    assert(entries.skip(0) =~= entries);
    if total_size(entries) > MAX_SIZE && entries.len() > 0 {
        let rest = entries.drop_first();
        law_eviction_keeps_the_newest(rest);
        let k = choose|k: int| #[trigger]
            least_eviction(rest, k) && evicted(rest) == rest.skip(k);
        assert(rest.skip(k) =~= entries.skip(k + 1));
        assert forall|j: int| 0 <= j < k + 1 implies total_size(#[trigger] entries.skip(j))
            > MAX_SIZE by {
            if j > 0 {
                assert(rest.skip(j - 1) =~= entries.skip(j));
            }
        }
        assert(least_eviction(entries, k + 1));
    } else {
        assert(least_eviction(entries, 0));
    }
}

/// The order of output is kept: an entry that was appended last is the last that draining gives,
/// unless it alone exceeds the limit.
pub proof fn law_appended_entry_is_drained_last(buffer: OutputView, entry: EntryView)
    requires
        entry_size(entry) <= MAX_SIZE,
    ensures
        buffer.appended(entry).drained().len() > 0,
        buffer.appended(entry).drained().last() == entry,
{
    lemma_evicted_last(buffer.entries, entry);
}

proof fn lemma_evicted_last(entries: Seq<EntryView>, entry: EntryView)
    requires
        entry_size(entry) <= MAX_SIZE,
    ensures
        evicted(entries.push(entry)).len() > 0,
        evicted(entries.push(entry)).last() == entry,
    decreases entries.len(),
{
    let all = entries.push(entry);
    if entries.len() == 0 {
        lemma_total_push(entries, entry);
    } else if total_size(all) > MAX_SIZE {
        assert(all.drop_first() =~= entries.drop_first().push(entry));
        lemma_evicted_last(entries.drop_first(), entry);
    }
}

/// An entry that was appended is held last, unless it alone exceeds the limit.
pub proof fn law_appended_entry_stays(buffer: OutputView, entry: EntryView)
    requires
        entry_size(entry) <= MAX_SIZE,
    ensures
        buffer.appended(entry).entries.len() > 0,
        buffer.appended(entry).entries.last() == entry,
{
    lemma_evicted_last(buffer.entries, entry);
}

/// Everything is drained at once: a second drain gives nothing, not even the marker.
pub proof fn law_second_drain_gives_nothing(buffer: OutputView)
    ensures
        buffer.after_drain().drained().len() == 0,
{
}

} // verus!
