//! The caches of files made from clips: which files belong to them, and which ones go when
//! there is not enough room.

use crate::text::{
    chars_occur_at, chars_of, ends_with, has_prefix, has_suffix, is_ascii_digit,
    lemma_text_less_total, lemma_text_less_transitive, occurs_at, pieces, split_char, starts_with,
    str_eq, str_less, string_of, text_less, views,
};
use vstd::prelude::*;

verus! {

// ---------------------------------------------------------------------------
// Names
// ---------------------------------------------------------------------------

/// Whether a text holds decimal digits and nothing else, at least one.
pub open spec fn is_number(text: Seq<char>) -> bool {
    text.len() > 0 && forall|i: int| 0 <= i < text.len() ==> is_ascii_digit(#[trigger] text[i])
}

fn number(text: &str) -> (r: bool)
    ensures
        r == is_number(text@),
{
    let chars = chars_of(text);
    let mut i: usize = 0;
    while i < chars.len()
        invariant
            i <= chars@.len(),
            chars@ == text@,
            forall|k: int| 0 <= k < i ==> is_ascii_digit(#[trigger] text@[k]),
        decreases chars@.len() - i,
    {
        if !('0' <= chars[i] && chars[i] <= '9') {
            assert(!is_ascii_digit(text@[i as int]));
            return false;
        }
        i += 1;
    }
    chars.len() > 0
}

/// The ends that temporary files have: two numbers and `tmp`, once or more.
pub open spec fn are_temp_marks(parts: Seq<Seq<char>>) -> bool {
    &&& parts.len() > 0
    &&& parts.len() % 3 == 0
    &&& forall|i: int|
        0 <= i < parts.len() ==> if i % 3 == 2 {
            (#[trigger] parts[i]) == "tmp"@
        } else {
            is_number(parts[i])
        }
}

/// Whether `at` is where `part` first occurs in `s`.
pub open spec fn first_occurs_at(s: Seq<char>, part: Seq<char>, at: int) -> bool {
    occurs_at(s, part, at) && forall|k: int| 0 <= k < at ==> !#[trigger] occurs_at(s, part, k)
}

/// The names of copies of clips in their cache, and of the files that they are written to.
pub open spec fn is_cached_export_name(name: Seq<char>) -> bool {
    has_prefix(name, "share-export-"@) && (has_suffix(name, ".mp4"@) || has_suffix(
        name,
        ".mp4.tmp"@,
    ) || exists|at: int| #[trigger]
        first_occurs_at(name, ".mp4."@, at) && are_temp_marks(pieces(name.skip(at + 5), '.')))
}

fn temp_marks(parts: &Vec<String>) -> (r: bool)
    ensures
        r == are_temp_marks(views(parts@)),
{
    if parts.len() == 0 || parts.len() % 3 != 0 {
        return false;
    }
    let mut i: usize = 0;
    while i < parts.len()
        invariant
            i <= parts@.len(),
            forall|k: int|
                0 <= k < i ==> if k % 3 == 2 {
                    (#[trigger] views(parts@)[k]) == "tmp"@
                } else {
                    is_number(views(parts@)[k])
                },
        decreases parts@.len() - i,
    {
        assert(views(parts@)[i as int] == parts@[i as int]@);
        let ok = if i % 3 == 2 {
            str_eq(parts[i].as_str(), "tmp")
        } else {
            number(parts[i].as_str())
        };
        if !ok {
            return false;
        }
        i += 1;
    }
    true
}

/// Whether a file in the cache of copies belongs to it.
pub fn is_cached_mp4_file(name: &str) -> (r: bool)
    ensures
        r == is_cached_export_name(name@),
{
    if !starts_with(name, "share-export-") {
        return false;
    }
    if ends_with(name, ".mp4") || ends_with(name, ".mp4.tmp") {
        return true;
    }
    let chars = chars_of(name);
    let mark = chars_of(".mp4.");
    proof {
        reveal_strlit(".mp4.");
    }
    let total: usize = chars.len();
    if total < 5 {
        return false;
    }
    let last: usize = total - 5;
    let mut at: usize = 0;
    while at <= last
        invariant
            last + 5 == total,
            total == chars@.len(),
            at <= last + 1,
            chars@ == name@,
            mark@ == ".mp4."@,
            mark@.len() == 5,
            has_prefix(name@, "share-export-"@),
            !has_suffix(name@, ".mp4"@),
            !has_suffix(name@, ".mp4.tmp"@),
            forall|k: int| 0 <= k < at ==> !#[trigger] occurs_at(name@, ".mp4."@, k),
        decreases last + 1 - at,
    {
        if chars_occur_at(&chars, &mark, at) {
            let rest = string_of(&chars, at + 5, total);
            assert(rest@ =~= name@.skip(at + 5));
            let parts = split_char(rest.as_str(), '.');
            assert(first_occurs_at(name@, ".mp4."@, at as int));
            let r = temp_marks(&parts);
            proof {
                assert forall|k: int| #[trigger] first_occurs_at(name@, ".mp4."@, k) implies k
                    == at by {
                    assert(occurs_at(name@, ".mp4."@, k));
                    assert(occurs_at(name@, ".mp4."@, at as int));
                }
            }
            return r;
        }
        at += 1;
    }
    assert forall|k: int| !#[trigger] first_occurs_at(name@, ".mp4."@, k) by {
        if first_occurs_at(name@, ".mp4."@, k) {
            assert(occurs_at(name@, ".mp4."@, k));
        }
    }
    false
}

/// Whether a file in the cache of copies goes: one of its own that is old enough. Of one whose
/// age is not known nothing is done.
pub fn share_export_is_stale(name: &str, age_ns: Option<u128>, max_age_ns: u128) -> (r: bool)
    ensures
        r == (is_cached_export_name(name@) && age_ns is Some && age_ns->0 >= max_age_ns),
{
    is_cached_mp4_file(name) && match age_ns {
        Some(age) => age >= max_age_ns,
        None => false,
    }
}

/// The nanoseconds after which a copy is removed: those of a day.
pub const SHARE_EXPORT_MAX_AGE_NS: u128 = 86_400_000_000_000;

pub open spec fn is_preview_name(name: Seq<char>) -> bool {
    has_prefix(name, "audio-preview-"@) && has_suffix(name, ".mp4"@)
}

pub open spec fn is_partial_name(name: Seq<char>) -> bool {
    has_prefix(name, "audio-preview-"@) && has_suffix(name, ".tmp"@)
}

/// Whether a file is the audio of a track.
pub fn is_audio_preview_mp4(name: &str) -> (r: bool)
    ensures
        r == is_preview_name(name@),
{
    starts_with(name, "audio-preview-") && ends_with(name, ".mp4")
}

/// Whether a file is one that the audio of a track was written to.
pub fn is_audio_preview_partial(name: &str) -> (r: bool)
    ensures
        r == is_partial_name(name@),
{
    starts_with(name, "audio-preview-") && ends_with(name, ".tmp")
}

// ---------------------------------------------------------------------------
// Making room
// ---------------------------------------------------------------------------

/// The bytes that the audio of tracks may take on disk.
pub const AUDIO_PREVIEW_CACHE_MAX_BYTES: u64 = 2_147_483_648;

/// A file in the cache of audio: how much it holds, when it was last used, and whether it has
/// to stay.
#[derive(Debug, PartialEq, Eq)]
pub struct PreviewEntry {
    pub name: String,
    pub len: Result<u64, String>,
    pub modified_ns: i128,
    pub protected: bool,
}

/// What was removed, and how much is left that may go.
#[derive(Debug, Clone, Copy, PartialEq, Eq, Structural)]
pub struct AudioPreviewPruneReport {
    pub removed_files: usize,
    pub removed_bytes: u64,
    pub reusable_bytes: u64,
}

/// A number, or the largest that there is where it is too large.
pub open spec fn capped(n: int) -> u64 {
    if n > u64::MAX {
        u64::MAX
    } else if n < 0 {
        0
    } else {
        n as u64
    }
}

/// Whether an entry is one that the audio of a track was written to: it is removed in any
/// case.
pub open spec fn partial(entry: Result<PreviewEntry, String>) -> bool {
    entry matches Ok(entry) && is_partial_name(entry.name@)
}

/// Whether an entry is the audio of a track.
pub open spec fn preview(entry: Result<PreviewEntry, String>) -> bool {
    entry matches Ok(entry) && !is_partial_name(entry.name@) && is_preview_name(entry.name@)
}

/// Whether an entry is the audio of a track that may go.
pub open spec fn evictable(entry: Result<PreviewEntry, String>) -> bool {
    preview(entry) && !entry->Ok_0.protected
}

/// The error that an entry stops the scan with.
pub open spec fn entry_error(entry: Result<PreviewEntry, String>) -> Option<Seq<char>> {
    match entry {
        Err(error) => Some("read audio preview cache entry: "@ + error@),
        Ok(found) => if preview(entry) && found.len is Err {
            Some(found.len->Err_0@)
        } else {
            None
        },
    }
}

/// Whether the entries before the `i`-th can be read.
pub open spec fn readable_up_to(entries: Seq<Result<PreviewEntry, String>>, i: int) -> bool {
    forall|k: int| 0 <= k < i ==> entry_error(#[trigger] entries[k]) is None
}

/// The bytes of an entry; those of one that cannot be read are not counted.
pub open spec fn entry_len(entry: Result<PreviewEntry, String>) -> u64 {
    match entry {
        Ok(entry) => match entry.len {
            Ok(len) => len,
            Err(_) => 0,
        },
        Err(_) => 0,
    }
}

/// The partial files among the entries, in order.
pub open spec fn partials(entries: Seq<Result<PreviewEntry, String>>) -> Seq<int>
    decreases entries.len(),
{
    if entries.len() == 0 {
        Seq::empty()
    } else if partial(entries.last()) {
        partials(entries.drop_last()).push(entries.len() - 1)
    } else {
        partials(entries.drop_last())
    }
}

/// The bytes of the audio of tracks, all of it or what may go.
pub open spec fn cached_bytes(
    entries: Seq<Result<PreviewEntry, String>>,
    evictable_only: bool,
) -> u64
    decreases entries.len(),
{
    if entries.len() == 0 {
        0
    } else {
        let before = cached_bytes(entries.drop_last(), evictable_only);
        let last = entries.last();
        if if evictable_only {
            evictable(last)
        } else {
            preview(last)
        } {
            capped(before + entry_len(last))
        } else {
            before
        }
    }
}

/// Of what was tried, the files that were removed.
pub open spec fn removed_count(answers: Seq<bool>) -> nat
    decreases answers.len(),
{
    if answers.len() == 0 {
        0
    } else {
        removed_count(answers.drop_last()) + if answers.last() {
            1nat
        } else {
            0
        }
    }
}

/// `start` and the bytes of the files that were removed.
pub open spec fn removed_bytes(
    start: u64,
    entries: Seq<Result<PreviewEntry, String>>,
    tried: Seq<int>,
    answers: Seq<bool>,
) -> u64
    decreases answers.len(),
{
    if answers.len() == 0 {
        start
    } else {
        let before = removed_bytes(start, entries, tried, answers.drop_last());
        if answers.last() {
            capped(before + entry_len(entries[tried[answers.len() - 1]]))
        } else {
            before
        }
    }
}

/// What `start` comes to without the bytes of the files that were removed.
pub open spec fn bytes_left(
    start: u64,
    entries: Seq<Result<PreviewEntry, String>>,
    tried: Seq<int>,
    answers: Seq<bool>,
) -> u64
    decreases answers.len(),
{
    if answers.len() == 0 {
        start
    } else {
        let before = bytes_left(start, entries, tried, answers.drop_last());
        if answers.last() {
            capped(before - entry_len(entries[tried[answers.len() - 1]]))
        } else {
            before
        }
    }
}

/// Whether an entry goes before another: the one that was used longer ago, and of two that were
/// used at the same time the one whose name comes first.
pub open spec fn older(a: PreviewEntry, b: PreviewEntry) -> bool {
    a.modified_ns < b.modified_ns || (a.modified_ns == b.modified_ns && text_less(a.name@, b.name@))
}

/// The audio of tracks that may go, in the order in which it goes.
pub open spec fn is_eviction_order(
    entries: Seq<Result<PreviewEntry, String>>,
    order: Seq<usize>,
) -> bool {
    &&& forall|i: int|
        0 <= i < order.len() ==> (#[trigger] order[i]) < entries.len() && evictable(
            entries[order[i] as int],
        )
    &&& order.no_duplicates()
    &&& forall|k: int|
        0 <= k < entries.len() && evictable(#[trigger] entries[k]) ==> order.contains(k as usize)
    &&& forall|i: int, j: int|
        0 <= i < j < order.len() ==> !older(
            entries[(#[trigger] order[j]) as int]->Ok_0,
            entries[(#[trigger] order[i]) as int]->Ok_0,
        )
}

fn entry_older(a: &PreviewEntry, b: &PreviewEntry) -> (r: bool)
    ensures
        r == older(*a, *b),
{
    a.modified_ns < b.modified_ns || (a.modified_ns == b.modified_ns && str_less(
        a.name.as_str(),
        b.name.as_str(),
    ))
}

proof fn lemma_older_total(a: PreviewEntry, b: PreviewEntry)
    ensures
        older(a, b) ==> !older(b, a),
{
    lemma_text_less_total(a.name@, b.name@);
}

proof fn lemma_not_older_transitive(a: PreviewEntry, b: PreviewEntry, c: PreviewEntry)
    requires
        !older(b, a),
        !older(c, b),
    ensures
        !older(c, a),
{
    if older(c, a) {
        lemma_text_less_total(a.name@, b.name@);
        lemma_text_less_total(b.name@, c.name@);
        lemma_text_less_total(a.name@, c.name@);
        if a.modified_ns == b.modified_ns && b.modified_ns == c.modified_ns {
            if a.name@ != b.name@ && b.name@ != c.name@ {
                lemma_text_less_transitive(a.name@, b.name@, c.name@);
            }
        }
    }
}

/// The order in which audio goes.
#[verifier::spinoff_prover]
#[verifier::rlimit(50)]
fn eviction_order(entries: &Vec<Result<PreviewEntry, String>>) -> (order: Vec<usize>)
    ensures
        is_eviction_order(entries@, order@),
{
    let mut order: Vec<usize> = Vec::new();
    let mut k: usize = 0;
    assert(is_eviction_order(entries@.take(0), order@));
    while k < entries.len()
        invariant
            k <= entries@.len(),
            is_eviction_order(entries@.take(k as int), order@),
        decreases entries@.len() - k,
    {
        let ghost seen = entries@.take(k as int);
        let ghost more = entries@.take(k + 1);
        let ghost before = order@;
        let found = match &entries[k] {
            Ok(entry) => if !is_audio_preview_partial(entry.name.as_str())
                && is_audio_preview_mp4(entry.name.as_str()) && !entry.protected {
                Some(entry)
            } else {
                None
            },
            Err(_) => None,
        };
        if let Some(entry) = found {
            let mut at: usize = 0;
            while at < order.len() && !entry_older_at(entries, &order, at, entry)
                invariant
                    at <= order@.len(),
                    order@ == before,
                    k < entries@.len(),
                    seen == entries@.take(k as int),
                    is_eviction_order(seen, before),
                    entries@[k as int] == Ok::<PreviewEntry, String>(*entry),
                    forall|i: int|
                        0 <= i < at ==> !older(
                            *entry,
                            entries@[(#[trigger] order@[i]) as int]->Ok_0,
                        ),
                    forall|i: int|
                        0 <= i < order@.len() ==> (#[trigger] order@[i]) < entries@.len()
                            && entries@[order@[i] as int] is Ok,
                ensures
                    at < order@.len() ==> older(*entry, entries@[order@[at as int] as int]->Ok_0),
                decreases order@.len() - at,
            {
                at += 1;
            }
            order.insert(at, k);
            proof {
                let after = order@;
                assert(after == before.insert(at as int, k));
                assert forall|i: int| 0 <= i < after.len() implies (#[trigger] after[i])
                    < more.len() && evictable(more[after[i] as int]) by {
                    let j = if i < at {
                        i
                    } else {
                        i - 1
                    };
                    if i != at {
                        assert(after[i] == before[j]);
                        assert(seen[before[j] as int] == more[before[j] as int]);
                    }
                }
                assert forall|i: int, j: int| 0 <= i < j < after.len() implies after[i]
                    != after[j] by {
                    let a = if i < at {
                        i
                    } else {
                        i - 1
                    };
                    let b = if j < at {
                        j
                    } else {
                        j - 1
                    };
                    if i != at {
                        assert(after[i] == before[a]);
                    }
                    if j != at {
                        assert(after[j] == before[b]);
                    }
                }
                assert(after.no_duplicates());
                assert forall|i: int| 0 <= i < more.len() && evictable(#[trigger] more[i]) implies
                    after.contains(i as usize) by {
                    if i == k {
                        assert(after[at as int] == k);
                    } else {
                        assert(seen[i] == more[i]);
                        assert(before.contains(i as usize));
                        let a = choose|a: int| 0 <= a < before.len() && before[a] == i as usize;
                        if a < at {
                            assert(after[a] == i as usize);
                        } else {
                            assert(after[a + 1] == i as usize);
                        }
                    }
                }
                assert forall|i: int, j: int| 0 <= i < j < after.len() implies !older(
                    more[(#[trigger] after[j]) as int]->Ok_0,
                    more[(#[trigger] after[i]) as int]->Ok_0,
                ) by {
                    let a = if i < at {
                        i
                    } else {
                        i - 1
                    };
                    let b = if j < at {
                        j
                    } else {
                        j - 1
                    };
                    if i != at {
                        assert(after[i] == before[a]);
                        assert(seen[before[a] as int] == more[before[a] as int]);
                    }
                    if j != at {
                        assert(after[j] == before[b]);
                        assert(seen[before[b] as int] == more[before[b] as int]);
                    }
                    if i == at {
                        let first = before[at as int];
                        assert(seen[first as int] == more[first as int]);
                        lemma_older_total(*entry, more[first as int]->Ok_0);
                        if b > at {
                            lemma_not_older_transitive(
                                *entry,
                                more[first as int]->Ok_0,
                                more[before[b] as int]->Ok_0,
                            );
                        }
                    }
                }
            }
        } else {
            proof {
                assert(!evictable(entries@[k as int]));
                assert forall|i: int| 0 <= i < more.len() && evictable(#[trigger] more[i]) implies
                    order@.contains(i as usize) by {
                    assert(seen[i] == more[i]);
                }
                assert forall|i: int| 0 <= i < order@.len() implies (#[trigger] order@[i])
                    < more.len() && evictable(more[order@[i] as int]) by {
                    assert(seen[order@[i] as int] == more[order@[i] as int]);
                }
                assert forall|i: int, j: int| 0 <= i < j < order@.len() implies !older(
                    more[(#[trigger] order@[j]) as int]->Ok_0,
                    more[(#[trigger] order@[i]) as int]->Ok_0,
                ) by {
                    assert(seen[order@[i] as int] == more[order@[i] as int]);
                    assert(seen[order@[j] as int] == more[order@[j] as int]);
                }
            }
        }
        k += 1;
        assert(is_eviction_order(entries@.take(k as int), order@));
    }
    assert(entries@.take(k as int) =~= entries@);
    order
}

fn entry_older_at(
    entries: &Vec<Result<PreviewEntry, String>>,
    order: &Vec<usize>,
    at: usize,
    entry: &PreviewEntry,
) -> (r: bool)
    requires
        at < order@.len(),
        order@[at as int] < entries@.len(),
        entries@[order@[at as int] as int] is Ok,
    ensures
        r == older(*entry, entries@[order@[at as int] as int]->Ok_0),
{
    match &entries[order[at]] {
        Ok(other) => entry_older(entry, other),
        Err(_) => false,
    }
}

/// What was done to make room: for each partial file whether it could be removed, then the
/// order in which audio goes and for each that was tried whether it could be removed.
#[derive(Debug, PartialEq, Eq)]
pub struct PreviewPrune {
    pub partials: Vec<bool>,
    pub order: Vec<usize>,
    pub evictions: Vec<bool>,
    pub outcome: Result<AudioPreviewPruneReport, String>,
}

/// Whether `remove` may give this answer for a file of this name.
pub open spec fn removal<R: Fn(&str) -> bool>(remove: R, name: Seq<char>, answer: bool) -> bool {
    exists|text: &str| text@ == name && #[trigger] call_ensures(remove, (text,), answer)
}

/// Whether these are answers for the files that were tried, in order.
pub open spec fn are_removals<R: Fn(&str) -> bool>(
    remove: R,
    entries: Seq<Result<PreviewEntry, String>>,
    tried: Seq<int>,
    answers: Seq<bool>,
) -> bool {
    &&& answers.len() <= tried.len()
    &&& forall|i: int|
        0 <= i < answers.len() ==> removal(
            remove,
            entries[#[trigger] tried[i]]->Ok_0.name@,
            answers[i],
        )
}

pub open spec fn places(order: Seq<usize>) -> Seq<int> {
    order.map_values(|i: usize| i as int)
}

/// Whether audio was removed from the start of `order` on for as long as there was too much.
pub open spec fn evicted_until_it_fits(
    entries: Seq<Result<PreviewEntry, String>>,
    order: Seq<usize>,
    answers: Seq<bool>,
    max_bytes: u64,
) -> bool {
    let total = cached_bytes(entries, false);
    &&& answers.len() <= order.len()
    &&& forall|j: int|
        0 <= j < answers.len() ==> bytes_left(
            total,
            entries,
            places(order),
            #[trigger] answers.take(j),
        ) > max_bytes
    &&& answers.len() == order.len() || bytes_left(total, entries, places(order), answers)
        <= max_bytes
}

/// The report on what was done.
pub open spec fn prune_report(
    entries: Seq<Result<PreviewEntry, String>>,
    prune: PreviewPrune,
    report: AudioPreviewPruneReport,
) -> bool {
    &&& report.removed_files == removed_count(prune.partials@) + removed_count(prune.evictions@)
    &&& report.removed_bytes == removed_bytes(
        removed_bytes(0, entries, partials(entries), prune.partials@),
        entries,
        places(prune.order@),
        prune.evictions@,
    )
    &&& report.reusable_bytes == bytes_left(
        cached_bytes(entries, true),
        entries,
        places(prune.order@),
        prune.evictions@,
    )
}

proof fn lemma_removed_count(answers: Seq<bool>)
    ensures
        removed_count(answers) <= answers.len(),
    decreases answers.len(),
{
    if answers.len() > 0 {
        lemma_removed_count(answers.drop_last());
    }
}

proof fn lemma_partials(entries: Seq<Result<PreviewEntry, String>>)
    ensures
        forall|i: int|
            0 <= i < partials(entries).len() ==> 0 <= #[trigger] partials(entries)[i]
                < entries.len() && partial(entries[partials(entries)[i]]),
        partials(entries).no_duplicates(),
    decreases entries.len(),
{
    if entries.len() > 0 {
        lemma_partials(entries.drop_last());
    }
}

/// No entry is tried twice.
proof fn lemma_tried_once(entries: Seq<Result<PreviewEntry, String>>, order: Seq<usize>)
    requires
        is_eviction_order(entries, order),
    ensures
        partials(entries).len() + order.len() <= entries.len(),
{
    lemma_partials(entries);
    let first = partials(entries);
    let tried = first + places(order);
    assert forall|i: int, j: int| 0 <= i < j < tried.len() implies tried[i] != tried[j] by {
        if j < first.len() {
        } else if i >= first.len() {
            assert(tried[i] == order[i - first.len()] as int);
            assert(tried[j] == order[j - first.len()] as int);
        } else {
            assert(tried[i] == first[i]);
            assert(tried[j] == order[j - first.len()] as int);
            assert(evictable(entries[order[j - first.len()] as int]));
            assert(partial(entries[first[i]]));
        }
    }
    assert(tried.no_duplicates());
    tried.unique_seq_to_set();
    let all = vstd::set_lib::set_int_range(0, entries.len() as int);
    vstd::set_lib::lemma_int_range(0, entries.len() as int);
    assert forall|x: int| tried.to_set().contains(x) implies all.contains(x) by {
        let i = choose|i: int| 0 <= i < tried.len() && tried[i] == x;
        if i < first.len() {
            assert(tried[i] == first[i]);
        } else {
            assert(tried[i] == order[i - first.len()] as int);
        }
    }
    vstd::set_lib::lemma_len_subset(tried.to_set(), all);
}

fn len_of(entry: &PreviewEntry) -> (len: u64)
    ensures
        len == entry_len(Ok(*entry)),
{
    match entry.len {
        Ok(len) => len,
        Err(_) => 0,
    }
}

proof fn lemma_tried_prefix(
    entries: Seq<Result<PreviewEntry, String>>,
    more: Seq<Result<PreviewEntry, String>>,
    start: u64,
    answers: Seq<bool>,
)
    requires
        more.len() == entries.len() + 1,
        more.drop_last() == entries,
        answers.len() <= partials(entries).len(),
    ensures
        removed_bytes(start, more, partials(more), answers) == removed_bytes(
            start,
            entries,
            partials(entries),
            answers,
        ),
    decreases answers.len(),
{
    lemma_partials(entries);
    if answers.len() > 0 {
        lemma_tried_prefix(entries, more, start, answers.drop_last());
        let at = answers.len() - 1;
        assert(partials(more)[at] == partials(entries)[at]);
        assert(more[partials(entries)[at]] == entries[partials(entries)[at]]);
    }
}

/// Whether an entry of this name may be removed: it is a partial file that can be read up to,
/// or audio that is not protected where everything could be read and there is too much.
pub open spec fn may_remove_at(
    entries: Seq<Result<PreviewEntry, String>>,
    max_bytes: u64,
    i: int,
    name: Seq<char>,
) -> bool {
    &&& 0 <= i < entries.len()
    &&& entries[i] is Ok
    &&& entries[i]->Ok_0.name@ == name
    &&& {
        ||| partial(entries[i]) && readable_up_to(entries, i)
        ||| {
            &&& evictable(entries[i])
            &&& readable_up_to(entries, entries.len() as int)
            &&& cached_bytes(entries, false) > max_bytes
        }
    }
}

pub open spec fn may_remove(
    entries: Seq<Result<PreviewEntry, String>>,
    max_bytes: u64,
    name: Seq<char>,
) -> bool {
    exists|i: int| #[trigger] may_remove_at(entries, max_bytes, i, name)
}

/// Makes room in the cache of audio: removes every partial file, and then, as long as there is
/// more than `max_bytes`, the audio that was used longest ago. Protected files stay. `remove`
/// removes a file and says whether it could.
pub fn prune_audio_preview_cache<R>(
    entries: &Vec<Result<PreviewEntry, String>>,
    max_bytes: u64,
    remove: R,
) -> (prune: PreviewPrune) where R: Fn(&str) -> bool
    requires
        forall|name: &str|
            may_remove(entries@, max_bytes, name@) ==> #[trigger] call_requires(remove, (name,)),
    ensures
        match prune.outcome {
            Err(error) => prune.evictions@.len() == 0 && exists|i: int|
                0 <= i < entries@.len() && readable_up_to(entries@, i) && entry_error(
                    #[trigger] entries@[i],
                ) == Some(error@) && prune.partials@.len() == partials(entries@.take(i)).len()
                    && are_removals(
                    remove,
                    entries@,
                    partials(entries@.take(i)),
                    prune.partials@,
                ),
            Ok(report) => {
                &&& readable_up_to(entries@, entries@.len() as int)
                &&& prune.partials@.len() == partials(entries@).len()
                &&& are_removals(remove, entries@, partials(entries@), prune.partials@)
                &&& is_eviction_order(entries@, prune.order@)
                &&& are_removals(remove, entries@, places(prune.order@), prune.evictions@)
                &&& evicted_until_it_fits(entries@, prune.order@, prune.evictions@, max_bytes)
                &&& prune_report(entries@, prune, report)
            },
        },
{
    let mut removed: Vec<bool> = Vec::new();
    let mut removed_files: usize = 0;
    let mut bytes: u64 = 0;
    let mut total: u64 = 0;
    let mut reusable: u64 = 0;
    let mut i: usize = 0;
    let count: usize = entries.len();
    proof {
        assert(partials(entries@.take(0)) =~= Seq::<int>::empty());
    }
    while i < count
        invariant
            count == entries@.len(),
            i <= count,
            forall|name: &str|
                may_remove(entries@, max_bytes, name@) ==> #[trigger] call_requires(
                    remove,
                    (name,),
                ),
            readable_up_to(entries@, i as int),
            removed@.len() == partials(entries@.take(i as int)).len(),
            removed@.len() <= i,
            are_removals(remove, entries@, partials(entries@.take(i as int)), removed@),
            removed_files == removed_count(removed@),
            bytes == removed_bytes(
                0,
                entries@.take(i as int),
                partials(entries@.take(i as int)),
                removed@,
            ),
            total == cached_bytes(entries@.take(i as int), false),
            reusable == cached_bytes(entries@.take(i as int), true),
        decreases count - i,
    {
        let ghost seen = entries@.take(i as int);
        let ghost more = entries@.take(i + 1);
        let ghost before = removed@;
        proof {
            assert(more.drop_last() =~= seen);
            assert(more.last() == entries@[i as int]);
            lemma_removed_count(before);
            lemma_tried_prefix(seen, more, 0, before);
            lemma_partials(seen);
            assert forall|k: int| 0 <= k < partials(seen).len() implies partials(more)[k]
                == partials(seen)[k] by {}
        }
        match &entries[i] {
            Err(error) => {
                let message = crate::text::concat2(
                    "read audio preview cache entry: ",
                    error.as_str(),
                );
                assert(entry_error(entries@[i as int]) == Some(message@));
                return PreviewPrune {
                    partials: removed,
                    order: Vec::new(),
                    evictions: Vec::new(),
                    outcome: Err(message),
                };
            },
            Ok(entry) => {
                let name = entry.name.as_str();
                if is_audio_preview_partial(name) {
                    assert(may_remove_at(entries@, max_bytes, i as int, name@));
                    let answer = remove(name);
                    assert(removal(remove, entry.name@, answer));
                    removed.push(answer);
                    assert(removed@.drop_last() =~= before);
                    if answer {
                        removed_files += 1;
                        bytes = bytes.saturating_add(len_of(entry));
                    }
                } else if is_audio_preview_mp4(name) {
                    match &entry.len {
                        Err(error) => {
                            let message = error.clone();
                            assert(entry_error(entries@[i as int]) == Some(message@));
                            return PreviewPrune {
                                partials: removed,
                                order: Vec::new(),
                                evictions: Vec::new(),
                                outcome: Err(message),
                            };
                        },
                        Ok(len) => {
                            total = total.saturating_add(*len);
                            if !entry.protected {
                                reusable = reusable.saturating_add(*len);
                            }
                        },
                    }
                }
            },
        }
        i += 1;
    }
    assert(entries@.take(i as int) =~= entries@);
    let order = eviction_order(entries);
    proof {
        lemma_tried_once(entries@, order@);
    }
    let ghost whole = total;
    let ghost spare = reusable;
    let ghost partial_bytes = bytes;
    let ghost partial_files = removed_files;
    let mut evictions: Vec<bool> = Vec::new();
    let mut k: usize = 0;
    while k < order.len() && total > max_bytes
        invariant
            k <= order@.len(),
            evictions@.len() == k,
            count == entries@.len(),
            readable_up_to(entries@, count as int),
            total <= whole,
            is_eviction_order(entries@, order@),
            forall|name: &str|
                may_remove(entries@, max_bytes, name@) ==> #[trigger] call_requires(
                    remove,
                    (name,),
                ),
            removed@.len() + order@.len() <= count,
            partial_files == removed_count(removed@),
            removed_files == partial_files + removed_count(evictions@),
            whole == cached_bytes(entries@, false),
            are_removals(remove, entries@, places(order@), evictions@),
            bytes == removed_bytes(partial_bytes, entries@, places(order@), evictions@),
            total == bytes_left(whole, entries@, places(order@), evictions@),
            reusable == bytes_left(spare, entries@, places(order@), evictions@),
            forall|j: int|
                0 <= j < k ==> bytes_left(
                    whole,
                    entries@,
                    places(order@),
                    #[trigger] evictions@.take(j),
                ) > max_bytes,
        decreases order@.len() - k,
    {
        let ghost before = evictions@;
        let at: usize = order[k];
        proof {
            assert(evictable(entries@[order@[k as int] as int]));
            lemma_removed_count(before);
            lemma_removed_count(removed@);
        }
        if let Ok(entry) = &entries[at] {
            let len = len_of(entry);
            assert(may_remove_at(entries@, max_bytes, at as int, entry.name@));
            let answer = remove(entry.name.as_str());
            assert(removal(remove, entry.name@, answer));
            evictions.push(answer);
            proof {
                assert(evictions@.drop_last() =~= before);
                assert(places(order@)[k as int] == at as int);
                assert forall|j: int| 0 <= j <= k implies bytes_left(
                    whole,
                    entries@,
                    places(order@),
                    #[trigger] evictions@.take(j),
                ) > max_bytes by {
                    if j == k {
                        assert(evictions@.take(j) =~= before);
                    } else {
                        assert(evictions@.take(j) =~= before.take(j));
                    }
                }
            }
            if answer {
                removed_files += 1;
                bytes = bytes.saturating_add(len);
                reusable = reusable.saturating_sub(len);
                total = total.saturating_sub(len);
            }
        }
        k += 1;
    }
    PreviewPrune {
        partials: removed,
        order,
        evictions,
        outcome: Ok(
            AudioPreviewPruneReport {
                removed_files,
                removed_bytes: bytes,
                reusable_bytes: reusable,
            },
        ),
    }
}

/// Audio that has to stay is not among what goes.
pub proof fn law_protected_audio_stays(
    entries: Seq<Result<PreviewEntry, String>>,
    order: Seq<usize>,
    i: usize,
)
    requires
        is_eviction_order(entries, order),
        i < entries.len(),
        entries[i as int] is Ok,
        entries[i as int]->Ok_0.protected,
    ensures
        !order.contains(i),
{
    if order.contains(i) {
        let k = choose|k: int| 0 <= k < order.len() && order[k] == i;
        assert(evictable(entries[order[k] as int]));
    }
}

// ---------------------------------------------------------------------------
// Laws
// ---------------------------------------------------------------------------

/// A file of the cache of copies is one that is named as a copy: whole, or on its way there, with
/// the marks of the process and the number that write it; no other file is.
pub proof fn law_names_of_copies(
    mid: Seq<char>,
    first: Seq<char>,
    second: Seq<char>,
    at: int,
    name: Seq<char>,
)
    ensures
        is_cached_export_name("share-export-"@ + mid + ".mp4"@),
        is_cached_export_name("share-export-"@ + mid + ".mp4.tmp"@),
        has_prefix(name, "share-export-"@) && occurs_at(name, ".mp4."@, at) && (forall|k: int|
            0 <= k < at ==> !#[trigger] occurs_at(name, ".mp4."@, k)) && pieces(
            name.skip(at + 5),
            '.',
        ) == seq![first, second, "tmp"@] && first.len() > 0 && second.len() > 0 && (forall|i: int|
            0 <= i < first.len() ==> '0' <= #[trigger] first[i] <= '9') && (forall|i: int|
            0 <= i < second.len() ==> '0' <= #[trigger] second[i] <= '9') ==> is_cached_export_name(
            name,
        ),
        is_cached_export_name(name) ==> has_prefix(name, "share-export-"@),
        is_cached_export_name(name) && !has_suffix(name, ".mp4"@) ==> has_suffix(name, "tmp"@),
{
    reveal_strlit("share-export-");
    reveal_strlit(".mp4");
    reveal_strlit(".mp4.tmp");
    reveal_strlit("tmp");
    let whole = "share-export-"@ + mid + ".mp4"@;
    assert(whole.take(13) =~= "share-export-"@);
    assert(whole.skip(whole.len() - 4) =~= ".mp4"@);
    let part = "share-export-"@ + mid + ".mp4.tmp"@;
    assert(part.take(13) =~= "share-export-"@);
    assert(part.skip(part.len() - 8) =~= ".mp4.tmp"@);
    if pieces(name.skip(at + 5), '.') == seq![first, second, "tmp"@] && occurs_at(
        name,
        ".mp4."@,
        at,
    ) && (forall|k: int| 0 <= k < at ==> !#[trigger] occurs_at(name, ".mp4."@, k)) && first.len()
        > 0 && second.len() > 0 && (forall|i: int|
        0 <= i < first.len() ==> '0' <= #[trigger] first[i] <= '9') && (forall|i: int|
        0 <= i < second.len() ==> '0' <= #[trigger] second[i] <= '9') {
        assert(first_occurs_at(name, ".mp4."@, at));
        let parts = pieces(name.skip(at + 5), '.');
        assert(is_number(parts[0]) && is_number(parts[1]) && parts[2] == "tmp"@);
        assert(are_temp_marks(parts));
    }
    if is_cached_export_name(name) && !has_suffix(name, ".mp4"@) {
        if has_suffix(name, ".mp4.tmp"@) {
            assert(name.skip(name.len() - 3) =~= name.skip(name.len() - 8).skip(5));
            assert(".mp4.tmp"@.skip(5) =~= "tmp"@);
        } else {
            let at = choose|at: int| #[trigger]
                first_occurs_at(name, ".mp4."@, at) && are_temp_marks(
                    pieces(name.skip(at + 5), '.'),
                );
            reveal_strlit(".mp4.");
            let rest = name.skip(at + 5);
            let parts = pieces(rest, '.');
            assert(parts[parts.len() - 1] == "tmp"@);
            crate::text::law_pieces_join_again(rest, '.');
            assert(rest == crate::text::joined(parts.drop_last(), seq!['.']) + seq!['.']
                + parts.last());
            assert(name.skip(name.len() - 3) =~= rest.skip(rest.len() - 3));
            assert(rest.skip(rest.len() - 3) =~= "tmp"@);
        }
    }
}

/// Mixed audio is known by how its name begins and ends, and so is what is on its way there.
pub proof fn law_names_of_mixed_audio(mid: Seq<char>, name: Seq<char>)
    ensures
        is_preview_name("audio-preview-"@ + mid + ".mp4"@),
        is_partial_name("audio-preview-"@ + mid + ".tmp"@),
        is_preview_name(name) <==> has_prefix(name, "audio-preview-"@) && has_suffix(name, ".mp4"@),
        is_partial_name(name) <==> has_prefix(name, "audio-preview-"@) && has_suffix(name, ".tmp"@),
{
    reveal_strlit("audio-preview-");
    reveal_strlit(".mp4");
    reveal_strlit(".tmp");
    let whole = "audio-preview-"@ + mid + ".mp4"@;
    assert(whole.take(14) =~= "audio-preview-"@);
    assert(whole.skip(whole.len() - 4) =~= ".mp4"@);
    let part = "audio-preview-"@ + mid + ".tmp"@;
    assert(part.take(14) =~= "audio-preview-"@);
    assert(part.skip(part.len() - 4) =~= ".tmp"@);
}

/// Every file that is on its way there is removed, and no other for that reason.
pub proof fn law_every_partial_file_is_removed(entries: Seq<Result<PreviewEntry, String>>, i: int)
    ensures
        partials(entries).contains(i) <==> 0 <= i < entries.len() && entries[i] is Ok && has_prefix(
            entries[i]->Ok_0.name@,
            "audio-preview-"@,
        ) && has_suffix(entries[i]->Ok_0.name@, ".tmp"@),
    decreases entries.len(),
{
    if entries.len() > 0 {
        let rest = entries.drop_last();
        law_every_partial_file_is_removed(rest, i);
        let before = partials(rest);
        let now = partials(entries);
        if partial(entries.last()) {
            assert(now == before.push(entries.len() - 1));
            if before.contains(i) {
                let k = choose|k: int| 0 <= k < before.len() && before[k] == i;
                assert(now[k] == i);
            }
            assert(now[before.len() as int] == entries.len() - 1);
            if now.contains(i) && i != entries.len() - 1 {
                let k = choose|k: int| 0 <= k < now.len() && now[k] == i;
                assert(before[k] == i);
            }
        }
    }
}

/// Mixed audio that no window plays is evicted from the oldest on: all of it is in the order, by
/// its age and then by its name, and nothing that is played.
pub proof fn law_oldest_audio_goes_first(
    entries: Seq<Result<PreviewEntry, String>>,
    order: Seq<usize>,
    k: int,
    i: int,
    j: int,
)
    requires
        is_eviction_order(entries, order),
        entries.len() <= usize::MAX,
    ensures
        0 <= k < entries.len() ==> (order.contains(k as usize) <==> entries[k] is Ok && has_prefix(
            entries[k]->Ok_0.name@,
            "audio-preview-"@,
        ) && has_suffix(entries[k]->Ok_0.name@, ".mp4"@) && !entries[k]->Ok_0.protected),
        0 <= i < j < order.len() ==> {
            let a = entries[order[i] as int]->Ok_0;
            let b = entries[order[j] as int]->Ok_0;
            &&& a.modified_ns <= b.modified_ns
            &&& a.modified_ns == b.modified_ns ==> !text_less(b.name@, a.name@)
        },
        forall|x: int, y: int| 0 <= x < y < order.len() ==> order[x] != order[y],
{
    if 0 <= k < entries.len() {
        if order.contains(k as usize) {
            let x = choose|x: int| 0 <= x < order.len() && order[x] == k as usize;
            assert(evictable(entries[order[x] as int]));
        }
        if entries[k] is Ok && has_prefix(entries[k]->Ok_0.name@, "audio-preview-"@) && has_suffix(
            entries[k]->Ok_0.name@,
            ".mp4"@,
        ) && !entries[k]->Ok_0.protected {
            lemma_whole_is_not_partial(entries[k]->Ok_0.name@);
            assert(evictable(entries[k]));
        }
    }
    if 0 <= i < j < order.len() {
        assert(!older(entries[order[j] as int]->Ok_0, entries[order[i] as int]->Ok_0));
    }
}

proof fn lemma_whole_is_not_partial(name: Seq<char>)
    requires
        has_suffix(name, ".mp4"@),
    ensures
        !has_suffix(name, ".tmp"@),
{
    reveal_strlit(".mp4");
    reveal_strlit(".tmp");
    assert(".mp4"@[1] != ".tmp"@[1]);
}

/// The size of the cache is that of the mixed audio in it, played or not, and what can be evicted
/// that of what is not played; a sum that does not fit is the largest number.
pub proof fn law_size_of_the_cache(
    entries: Seq<Result<PreviewEntry, String>>,
    entry: PreviewEntry,
    len: u64,
    evictable_only: bool,
)
    requires
        entry.len == Ok::<u64, String>(len),
    ensures
        cached_bytes(Seq::empty(), evictable_only) == 0,
        ({
            let before = cached_bytes(entries, evictable_only);
            let after = cached_bytes(entries.push(Ok(entry)), evictable_only);
            let counts = has_prefix(entry.name@, "audio-preview-"@) && has_suffix(
                entry.name@,
                ".mp4"@,
            ) && !(evictable_only && entry.protected);
            &&& !counts ==> after == before
            &&& counts && before + len <= 0xffff_ffff_ffff_ffff ==> after == before + len
            &&& counts && before + len > 0xffff_ffff_ffff_ffff ==> after == 0xffff_ffff_ffff_ffff
        }),
{
    let all = entries.push(Ok(entry));
    assert(all.drop_last() =~= entries);
    assert(all.last() == Ok::<PreviewEntry, String>(entry));
    if has_suffix(entry.name@, ".mp4"@) {
        lemma_whole_is_not_partial(entry.name@);
    }
}

/// What is left after an eviction is less by the size of the file where it was removed, and the
/// same where it was not; the removed files and bytes count up likewise.
pub proof fn law_evictions_count(
    start: u64,
    entries: Seq<Result<PreviewEntry, String>>,
    tried: Seq<int>,
    answers: Seq<bool>,
    entry: PreviewEntry,
    len: u64,
    removed: bool,
)
    requires
        answers.len() < tried.len(),
        0 <= tried[answers.len() as int] < entries.len(),
        entries[tried[answers.len() as int]] == Ok::<PreviewEntry, String>(entry),
        entry.len == Ok::<u64, String>(len),
    ensures
        bytes_left(start, entries, tried, Seq::empty()) == start,
        removed_bytes(start, entries, tried, Seq::empty()) == start,
        removed_count(Seq::empty()) == 0,
        removed_count(answers.push(removed)) == removed_count(answers) + (if removed {
            1int
        } else {
            0
        }),
        ({
            let before = bytes_left(start, entries, tried, answers);
            let after = bytes_left(start, entries, tried, answers.push(removed));
            &&& !removed ==> after == before
            &&& removed && len <= before ==> after == before - len
            &&& removed && len > before ==> after == 0
        }),
        ({
            let before = removed_bytes(start, entries, tried, answers);
            let after = removed_bytes(start, entries, tried, answers.push(removed));
            &&& !removed ==> after == before
            &&& removed && before + len <= 0xffff_ffff_ffff_ffff ==> after == before + len
        }),
{
    assert(answers.push(removed).drop_last() =~= answers);
}

/// Evictions go on exactly until the cache fits: none is made where it does, and it fits in the
/// end, or everything that can go was tried.
pub proof fn law_cache_is_brought_under_its_limit(
    entries: Seq<Result<PreviewEntry, String>>,
    order: Seq<usize>,
    answers: Seq<bool>,
    max_bytes: u64,
    j: int,
)
    requires
        evicted_until_it_fits(entries, order, answers, max_bytes),
    ensures
        cached_bytes(entries, false) <= max_bytes ==> answers.len() == 0,
        answers.len() < order.len() ==> bytes_left(
            cached_bytes(entries, false),
            entries,
            places(order),
            answers,
        ) <= max_bytes,
        0 <= j < answers.len() ==> bytes_left(
            cached_bytes(entries, false),
            entries,
            places(order),
            answers.take(j),
        ) > max_bytes,
        places(order).len() == order.len(),
        0 <= j < order.len() ==> places(order)[j] == order[j],
{
    if answers.len() > 0 {
        assert(answers.take(0) =~= Seq::<bool>::empty());
        assert(bytes_left(
            cached_bytes(entries, false),
            entries,
            places(order),
            answers.take(0),
        ) > max_bytes);
    }
}

/// An entry that cannot be read, and mixed audio whose size cannot, ends the pruning with its
/// error; the size of any other file does not matter.
pub proof fn law_unreadable_entries_end_the_pruning(error: String, entry: PreviewEntry)
    ensures
        entry_error(Err(error)) == Some("read audio preview cache entry: "@ + error@),
        entry.len is Ok ==> entry_error(Ok(entry)) is None,
        entry.len is Err && has_prefix(entry.name@, "audio-preview-"@) && has_suffix(
            entry.name@,
            ".mp4"@,
        ) ==> entry_error(Ok(entry)) == Some(entry.len->Err_0@),
        !(has_prefix(entry.name@, "audio-preview-"@) && has_suffix(entry.name@, ".mp4"@))
            ==> entry_error(Ok(entry)) is None,
{
    if has_suffix(entry.name@, ".mp4"@) {
        lemma_whole_is_not_partial(entry.name@);
    }
}

/// The bytes of an entry are those that were found; one whose size is unknown counts for none.
pub proof fn law_sizes_of_entries(entry: PreviewEntry, error: String, len: u64)
    ensures
        entry.len == Ok::<u64, String>(len) ==> entry_len(Ok(entry)) == len,
        entry.len is Err ==> entry_len(Ok(entry)) == 0,
        entry_len(Err(error)) == 0,
{
}

/// A report without removals counts none and gives the whole size of what may go; with none that
/// was in the way, what was removed is counted once, with its bytes, and taken off what is left.
pub proof fn law_report_counts_the_removals(
    entries: Seq<Result<PreviewEntry, String>>,
    prune: PreviewPrune,
    report: AudioPreviewPruneReport,
)
    requires
        prune_report(entries, prune, report),
    ensures
        prune.partials@.len() == 0 && prune.evictions@.len() == 0 ==> report.removed_files == 0
            && report.removed_bytes == 0 && report.reusable_bytes == cached_bytes(entries, true),
        report.removed_files == removed_count(prune.partials@) + removed_count(prune.evictions@),
        (forall|i: int| 0 <= i < prune.partials@.len() ==> !#[trigger] prune.partials@[i]) ==> {
            &&& report.removed_files == removed_count(prune.evictions@)
            &&& report.removed_bytes == removed_bytes(
                0,
                entries,
                places(prune.order@),
                prune.evictions@,
            )
        },
        (forall|i: int| 0 <= i < prune.evictions@.len() ==> !#[trigger] prune.evictions@[i]) ==> {
            &&& report.removed_files == removed_count(prune.partials@)
            &&& report.removed_bytes == removed_bytes(
                0,
                entries,
                partials(entries),
                prune.partials@,
            )
            &&& report.reusable_bytes == cached_bytes(entries, true)
        },
        report.reusable_bytes == bytes_left(
            cached_bytes(entries, true),
            entries,
            places(prune.order@),
            prune.evictions@,
        ),
{
    if forall|i: int| 0 <= i < prune.partials@.len() ==> !#[trigger] prune.partials@[i] {
        lemma_nothing_removed(0, entries, partials(entries), prune.partials@);
    }
    if forall|i: int| 0 <= i < prune.evictions@.len() ==> !#[trigger] prune.evictions@[i] {
        let start = removed_bytes(0, entries, partials(entries), prune.partials@);
        lemma_nothing_removed(start, entries, places(prune.order@), prune.evictions@);
        lemma_nothing_removed(
            cached_bytes(entries, true),
            entries,
            places(prune.order@),
            prune.evictions@,
        );
    }
}

proof fn lemma_nothing_removed(
    start: u64,
    entries: Seq<Result<PreviewEntry, String>>,
    tried: Seq<int>,
    answers: Seq<bool>,
)
    requires
        forall|i: int| 0 <= i < answers.len() ==> !#[trigger] answers[i],
    ensures
        removed_count(answers) == 0,
        removed_bytes(start, entries, tried, answers) == start,
        bytes_left(start, entries, tried, answers) == start,
    decreases answers.len(),
{
    if answers.len() > 0 {
        let rest = answers.drop_last();
        assert forall|i: int| 0 <= i < rest.len() implies !#[trigger] rest[i] by {
            assert(!answers[i]);
        }
        lemma_nothing_removed(start, entries, tried, rest);
        assert(!answers[answers.len() - 1]);
    }
}

/// A file is removed only where it is one that audio was written to, or audio that is not
/// protected in a cache that is too large.
pub proof fn law_other_files_are_left_alone(
    entries: Seq<Result<PreviewEntry, String>>,
    max_bytes: u64,
    name: Seq<char>,
)
    requires
        may_remove(entries, max_bytes, name),
    ensures
        is_partial_name(name) || has_prefix(name, "audio-preview-"@) && has_suffix(name, ".mp4"@),
        !is_partial_name(name) ==> cached_bytes(entries, false) > max_bytes && exists|i: int|
            0 <= i < entries.len() && (#[trigger] entries[i]) is Ok && entries[i]->Ok_0.name@ == name
                && !entries[i]->Ok_0.protected,
{
    let i = choose|i: int| #[trigger] may_remove_at(entries, max_bytes, i, name);
    assert(entries[i] is Ok);
}

} // verus!
