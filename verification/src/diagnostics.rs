//! A bounded buffer of diagnostic lines: it keeps the newest entries whose UTF-8
//! bytes fit in a fixed limit.
use std::collections::VecDeque;

use vstd::prelude::*;
use vstd::slice::slice_subrange;
use vstd::utf8::encode_utf8;

use crate::text::{byte_len, lossy_from_utf8, utf8_lossy};

verus! {

/// A bounded buffer of diagnostic entries.
#[derive(Debug)]
pub struct DiagnosticBuffer {
    entries: VecDeque<String>,
    retained_bytes: usize,
    max_bytes: usize,
}

/// The model of a buffer: its entries, oldest first, and its byte limit.
pub ghost struct DiagnosticsModel {
    pub entries: Seq<Seq<char>>,
    pub max_bytes: nat,
}

/// The texts of a sequence of strings.
pub open spec fn texts(v: Seq<String>) -> Seq<Seq<char>> {
    v.map_values(|s: String| s@)
}

/// The UTF-8 bytes of all the entries together.
pub open spec fn total_bytes(entries: Seq<Seq<char>>) -> nat
    decreases entries.len(),
{
    if entries.len() == 0 {
        0
    } else {
        byte_len(entries[0]) + total_bytes(entries.drop_first())
    }
}

/// The entries that remain once the oldest are dropped until the rest fits in `max`.
pub open spec fn evict(entries: Seq<Seq<char>>, max: nat) -> Seq<Seq<char>>
    decreases entries.len(),
{
    if total_bytes(entries) <= max || entries.len() == 0 {
        entries
    } else {
        evict(entries.drop_first(), max)
    }
}

/// An entry as it is kept: one longer than `max` bytes keeps its last `max` bytes,
/// decoded leniently.
pub open spec fn bounded_entry(entry: Seq<char>, max: nat) -> Seq<char> {
    let bytes = encode_utf8(entry);
    if bytes.len() > max {
        utf8_lossy(bytes.subrange(bytes.len() - max, bytes.len() as int))
    } else {
        entry
    }
}

/// The entries after `entry` is pushed into a buffer of limit `max`.
pub open spec fn pushed(entries: Seq<Seq<char>>, entry: Seq<char>, max: nat) -> Seq<Seq<char>> {
    if max == 0 {
        Seq::empty()
    } else {
        evict(entries.push(bounded_entry(entry, max)), max)
    }
}

impl View for DiagnosticBuffer {
    type V = DiagnosticsModel;

    closed spec fn view(&self) -> DiagnosticsModel {
        DiagnosticsModel { entries: texts(self.entries@), max_bytes: self.max_bytes as nat }
    }
}

proof fn lemma_total_push(entries: Seq<Seq<char>>, e: Seq<char>)
    ensures
        total_bytes(entries.push(e)) == total_bytes(entries) + byte_len(e),
    decreases entries.len(),
{
    if entries.len() == 0 {
        assert(entries.push(e).drop_first() =~= Seq::<Seq<char>>::empty());
        assert(entries.push(e)[0] == e);
        assert(total_bytes(Seq::<Seq<char>>::empty()) == 0);
    } else {
        lemma_total_push(entries.drop_first(), e);
        assert(entries.push(e).drop_first() =~= entries.drop_first().push(e));
        assert(entries.push(e)[0] == entries[0]);
    }
}

/// What the buffer keeps never exceeds its limit.
pub proof fn law_evicted_entries_fit(entries: Seq<Seq<char>>, max: nat)
    ensures
        total_bytes(evict(entries, max)) <= max,
    decreases entries.len(),
{
    if total_bytes(entries) <= max || entries.len() == 0 {
    } else {
        law_evicted_entries_fit(entries.drop_first(), max);
    }
}

/// Eviction keeps a suffix of the entries: the newest, in their order.
pub proof fn law_evicted_entries_are_a_suffix(entries: Seq<Seq<char>>, max: nat)
    ensures
        evict(entries, max).len() <= entries.len(),
        evict(entries, max) == entries.subrange(
            entries.len() - evict(entries, max).len(),
            entries.len() as int,
        ),
    decreases entries.len(),
{
    if total_bytes(entries) <= max || entries.len() == 0 {
        assert(entries.subrange(0, entries.len() as int) =~= entries);
    } else {
        law_evicted_entries_are_a_suffix(entries.drop_first(), max);
        let r = evict(entries.drop_first(), max);
        assert(entries.drop_first().subrange(
            entries.drop_first().len() - r.len(),
            entries.drop_first().len() as int,
        ) =~= entries.subrange(entries.len() - r.len(), entries.len() as int));
    }
}

/// Eviction drops only what it must: when it drops anything, the kept entries
/// together with the newest one it dropped would exceed the limit.
pub proof fn law_eviction_drops_only_what_it_must(entries: Seq<Seq<char>>, max: nat)
    requires
        evict(entries, max).len() < entries.len(),
    ensures
        total_bytes(entries.subrange(
            entries.len() - evict(entries, max).len() - 1,
            entries.len() as int,
        )) > max,
    decreases entries.len(),
{
    law_evicted_entries_are_a_suffix(entries, max);
    let rest = entries.drop_first();
    law_evicted_entries_are_a_suffix(rest, max);
    if evict(rest, max).len() < rest.len() {
        law_eviction_drops_only_what_it_must(rest, max);
        assert(rest.subrange(rest.len() - evict(rest, max).len() - 1, rest.len() as int)
            =~= entries.subrange(entries.len() - evict(rest, max).len() - 1, entries.len() as int));
    } else {
        assert(entries.subrange(0, entries.len() as int) =~= entries);
    }
}

/// Dropping the oldest entry when the entries and `t` together exceed the limit.
proof fn lemma_evict_shift(entries: Seq<Seq<char>>, t: Seq<char>, max: nat)
    requires
        entries.len() > 0,
        total_bytes(entries.push(t)) > max,
    ensures
        evict(entries.push(t), max) == evict(entries.drop_first().push(t), max),
{
    assert(entries.push(t).drop_first() =~= entries.drop_first().push(t));
}

/// An entry longer than the limit leaves nothing, not even itself.
proof fn lemma_evict_too_long(entries: Seq<Seq<char>>, t: Seq<char>, max: nat)
    requires
        byte_len(t) > max,
    ensures
        evict(entries.push(t), max) == Seq::<Seq<char>>::empty(),
    decreases entries.len(),
{
    lemma_total_push(entries, t);
    if entries.len() == 0 {
        assert(entries.push(t).drop_first() =~= Seq::<Seq<char>>::empty());
        assert(total_bytes(Seq::<Seq<char>>::empty()) == 0);
        assert(evict(Seq::<Seq<char>>::empty(), max) == Seq::<Seq<char>>::empty());
        assert(evict(entries.push(t), max) == evict(entries.push(t).drop_first(), max));
    } else {
        lemma_evict_shift(entries, t, max);
        lemma_evict_too_long(entries.drop_first(), t, max);
    }
}

proof fn lemma_evict_keeps_last(entries: Seq<Seq<char>>, t: Seq<char>, max: nat)
    requires
        byte_len(t) <= max,
    ensures
        evict(entries.push(t), max).len() >= 1,
        evict(entries.push(t), max).last() == t,
    decreases entries.len(),
{
    lemma_total_push(entries, t);
    if total_bytes(entries.push(t)) <= max {
    } else if entries.len() == 0 {
        assert(total_bytes(Seq::<Seq<char>>::empty()) == 0);
    } else {
        assert(entries.push(t).drop_first() =~= entries.drop_first().push(t));
        lemma_evict_keeps_last(entries.drop_first(), t, max);
    }
}

/// An entry that fits the limit once bounded is always the newest entry kept.
pub proof fn law_newest_entry_is_kept(entries: Seq<Seq<char>>, entry: Seq<char>, max: nat)
    requires
        max > 0,
        byte_len(bounded_entry(entry, max)) <= max,
    ensures
        pushed(entries, entry, max).len() >= 1,
        pushed(entries, entry, max).last() == bounded_entry(entry, max),
{
    lemma_evict_keeps_last(entries, bounded_entry(entry, max), max);
}

/// An entry that fits the limit is kept as it is.
pub proof fn law_short_entries_are_kept_whole(entries: Seq<Seq<char>>, entry: Seq<char>, max: nat)
    requires
        max > 0,
        byte_len(entry) <= max,
    ensures
        pushed(entries, entry, max).last() == entry,
{
    lemma_evict_keeps_last(entries, entry, max);
}

/// Pushing an entry that fits adds exactly that entry: when the kept entries and
/// the new one together fit the limit, the result is the old entries followed by the
/// new one, one entry longer (a repeated line is kept again).
pub proof fn law_fitting_entry_is_appended(entries: Seq<Seq<char>>, entry: Seq<char>, max: nat)
    requires
        max > 0,
        total_bytes(entries) + byte_len(entry) <= max,
    ensures
        pushed(entries, entry, max) == entries.push(entry),
        pushed(entries, entry, max).len() == entries.len() + 1,
        total_bytes(pushed(entries, entry, max)) == total_bytes(entries) + byte_len(entry),
{
    lemma_total_push(entries, entry);
    assert(bounded_entry(entry, max) == entry);
}

/// Pushing any entry that fits the limit keeps it as the newest entry and, before
/// it, the newest of the old entries that still fit with it, in their order.
pub proof fn law_push_keeps_a_suffix_then_the_entry(entries: Seq<Seq<char>>, entry: Seq<char>, max: nat)
    requires
        max > 0,
        byte_len(entry) <= max,
    ensures
        pushed(entries, entry, max).len() >= 1,
        pushed(entries, entry, max).last() == entry,
        pushed(entries, entry, max) == entries.push(entry).subrange(
            entries.len() + 1 - pushed(entries, entry, max).len(),
            entries.len() + 1int,
        ),
        total_bytes(pushed(entries, entry, max)) <= max,
{
    assert(bounded_entry(entry, max) == entry);
    lemma_evict_keeps_last(entries, entry, max);
    law_evicted_entries_are_a_suffix(entries.push(entry), max);
    law_evicted_entries_fit(entries.push(entry), max);
}

/// A buffer with a limit of zero keeps nothing.
pub proof fn law_zero_limit_keeps_nothing(entries: Seq<Seq<char>>, entry: Seq<char>)
    ensures
        pushed(entries, entry, 0) == Seq::<Seq<char>>::empty(),
{
}

impl DiagnosticBuffer {
    /// The buffer's well-formedness: the running byte count is exact and within the limit.
    pub closed spec fn wf(&self) -> bool {
        &&& self.retained_bytes == total_bytes(texts(self.entries@))
        &&& self.retained_bytes <= self.max_bytes
    }

    /// An empty buffer that keeps at most `max_bytes` bytes.
    pub fn new(max_bytes: usize) -> (r: DiagnosticBuffer)
        ensures
            r.wf(),
            r@.entries == Seq::<Seq<char>>::empty(),
            r@.max_bytes == max_bytes,
    {
        let r = DiagnosticBuffer { entries: VecDeque::new(), retained_bytes: 0, max_bytes };
        assert(texts(r.entries@) =~= Seq::<Seq<char>>::empty());
        r
    }

    /// Appends an entry, keeping at most its last `max_bytes` bytes, then drops the
    /// oldest entries until the rest fits; with a limit of zero nothing is kept.
    pub fn push(&mut self, entry: &str)
        requires
            old(self).wf(),
        ensures
            final(self).wf(),
            final(self)@.max_bytes == old(self)@.max_bytes,
            final(self)@.entries == pushed(old(self)@.entries, entry@, old(self)@.max_bytes),
    {
        if self.max_bytes == 0 {
            self.clear();
            return;
        }
        let ghost old_entries = texts(self.entries@);
        let bytes = entry.as_bytes();
        let len = bytes.len();
        let kept: String = if len > self.max_bytes {
            let keep_from = len - self.max_bytes;
            lossy_from_utf8(slice_subrange(bytes, keep_from, len))
        } else {
            entry.to_owned()
        };
        assert(kept@ == bounded_entry(entry@, self.max_bytes as nat));
        let kept_len = kept.as_str().as_bytes().len();
        if kept_len > self.max_bytes {
            proof {
                lemma_evict_too_long(old_entries, kept@, self.max_bytes as nat);
            }
            self.clear();
            return;
        }
        let room = self.max_bytes - kept_len;
        while self.retained_bytes > room
            invariant
                self.retained_bytes == total_bytes(texts(self.entries@)),
                evict(texts(self.entries@).push(kept@), self.max_bytes as nat) == evict(
                    old_entries.push(kept@),
                    self.max_bytes as nat,
                ),
                self.max_bytes == old(self).max_bytes,
                room + kept_len == self.max_bytes,
                kept_len == byte_len(kept@),
            ensures
                self.retained_bytes <= room,
                self.retained_bytes == total_bytes(texts(self.entries@)),
                evict(texts(self.entries@).push(kept@), self.max_bytes as nat) == evict(
                    old_entries.push(kept@),
                    self.max_bytes as nat,
                ),
            decreases self.entries@.len(),
        {
            let ghost before = texts(self.entries@);
            match self.entries.pop_front() {
                Some(removed) => {
                    assert(texts(self.entries@) =~= before.drop_first());
                    proof {
                        lemma_total_push(before, kept@);
                        lemma_evict_shift(before, kept@, self.max_bytes as nat);
                    }
                    self.retained_bytes = self.retained_bytes - removed.as_str().as_bytes().len();
                },
                None => {
                    assert(texts(self.entries@) =~= Seq::<Seq<char>>::empty());
                    self.retained_bytes = 0;
                    break;
                },
            }
        }
        let ghost before = texts(self.entries@);
        proof {
            lemma_total_push(before, kept@);
        }
        self.retained_bytes = self.retained_bytes + kept_len;
        self.entries.push_back(kept);
        assert(texts(self.entries@) =~= before.push(kept@));
        assert(evict(texts(self.entries@), self.max_bytes as nat) == texts(self.entries@));
    }

    /// The entries, oldest first.
    pub fn entries(&self) -> (r: Vec<String>)
        ensures
            texts(r@) == self@.entries,
    {
        self.snapshot()
    }

    /// A copy of the entries, oldest first.
    pub fn snapshot(&self) -> (r: Vec<String>)
        ensures
            texts(r@) == self@.entries,
    {
        let mut r: Vec<String> = Vec::new();
        let mut i: usize = 0;
        while i < self.entries.len()
            invariant
                i <= self.entries@.len(),
                texts(r@) == texts(self.entries@).take(i as int),
            decreases self.entries@.len() - i,
        {
            let ghost before = r@;
            let item = self.entries[i].clone();
            assert(item@ == self.entries@[i as int]@);
            r.push(item);
            assert(r@ == before.push(item));
            assert(texts(r@) =~= texts(before).push(item@));
            i = i + 1;
            assert(texts(r@) =~= texts(self.entries@).take(i as int));
        }
        assert(texts(self.entries@).take(i as int) =~= texts(self.entries@));
        r
    }

    /// Removes every entry.
    pub fn clear(&mut self)
        ensures
            final(self).wf(),
            final(self)@.entries == Seq::<Seq<char>>::empty(),
            final(self)@.max_bytes == old(self)@.max_bytes,
    {
        self.entries.clear();
        self.retained_bytes = 0;
        assert(texts(self.entries@) =~= Seq::<Seq<char>>::empty());
    }
}

} // verus!
