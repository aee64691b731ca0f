//! Policy of the storage quota: what auto-delete protects and in what order clips are
//! removed.

use crate::text::str_eq;
use vstd::prelude::*;

verus! {

/// The key of a kind of clip: lower keys are deleted first.
pub open spec fn priority_of(kind: Seq<char>) -> u8 {
    if kind == "session"@ {
        0u8
    } else if kind == "replay"@ {
        1u8
    } else {
        2u8
    }
}

/// Quota collection deletes the oldest clips within a kind, but drains kinds in order:
/// sessions, then replays, then everything else. Lower keys are deleted first.
pub fn clip_gc_priority(kind: &str) -> (priority: u8)
    ensures
        priority == priority_of(kind@),
{
    if str_eq(kind, "session") {
        0
    } else if str_eq(kind, "replay") {
        1
    } else {
        2
    }
}

/// Sources of running uploads and favorites are never deleted.
pub fn is_protected_clip(active_upload_source: bool, favorite: bool) -> (r: bool)
    ensures
        r == (active_upload_source || favorite),
{
    active_upload_source || favorite
}

/// A clip in the media folder, with the size of its files.
#[derive(Debug, PartialEq, Eq)]
pub struct StoredClip {
    pub path: String,
    pub kind: String,
    pub bytes: u64,
    pub modified_ns: i128,
    pub active_upload_source: bool,
    pub favorite: bool,
}

/// Whether a clip may be deleted for room.
pub open spec fn deletable(clip: StoredClip) -> bool {
    !(clip.active_upload_source || clip.favorite)
}

/// Whether one clip is deleted before another: by its kind, then by its age, then by its place
/// in the listing.
pub open spec fn goes_before(clips: Seq<StoredClip>, i: int, j: int) -> bool {
    let a = priority_of(clips[i].kind@);
    let b = priority_of(clips[j].kind@);
    ||| a < b
    ||| a == b && clips[i].modified_ns < clips[j].modified_ns
    ||| a == b && clips[i].modified_ns == clips[j].modified_ns && i < j
}

/// Whether a clip is the next to go: it may go, was not tried, and no such clip goes before it.
pub open spec fn is_next_clip(clips: Seq<StoredClip>, tried: Seq<bool>, i: int) -> bool {
    &&& 0 <= i < clips.len()
    &&& deletable(clips[i])
    &&& !tried[i]
    &&& forall|j: int|
        0 <= j < clips.len() && deletable(#[trigger] clips[j]) && !tried[j] && j != i
            ==> goes_before(clips, i, j)
}

/// What a deletion asks for: the next clip while there is too much, nothing where there is not
/// or every clip that may go was tried.
pub open spec fn is_next_answer(
    deletion: QuotaDeletion,
    clips: Seq<StoredClip>,
    next: Option<usize>,
) -> bool {
    match next {
        Some(i) => deletion.left > deletion.target && is_next_clip(
            clips,
            deletion.tried@,
            i as int,
        ),
        None => deletion.left <= deletion.target || forall|i: int|
            0 <= i < clips.len() && deletable(clips[i]) ==> #[trigger] deletion.tried@[i],
    }
}

/// A deletion for room: which clips were tried, how many bytes are left, and how many may be.
#[derive(Debug, PartialEq, Eq)]
pub struct QuotaDeletion {
    pub tried: Vec<bool>,
    pub left: u64,
    pub target: u64,
}

impl QuotaDeletion {
    /// Only clips that may go were tried, and none before those that go before it.
    pub open spec fn wf(self, clips: Seq<StoredClip>) -> bool {
        &&& self.tried@.len() == clips.len()
        &&& forall|i: int| 0 <= i < clips.len() && #[trigger] self.tried@[i] ==> deletable(clips[i])
        &&& forall|i: int, j: int|
            #![trigger self.tried@[i], self.tried@[j]]
            0 <= i < clips.len() && 0 <= j < clips.len() && self.tried@[j] && deletable(clips[i])
                && goes_before(clips, i, j) ==> self.tried@[i]
    }

    /// A deletion in a folder of `total` bytes, down to `target` bytes.
    pub fn begin(clips: &Vec<StoredClip>, total: u64, target: u64) -> (deletion: QuotaDeletion)
        ensures
            deletion.wf(clips@),
            deletion.left == total,
            deletion.target == target,
            forall|i: int| 0 <= i < clips@.len() ==> !(#[trigger] deletion.tried@[i]),
    {
        let mut tried: Vec<bool> = Vec::new();
        let mut i: usize = 0;
        while i < clips.len()
            invariant
                i <= clips@.len(),
                tried@.len() == i,
                forall|k: int| 0 <= k < i ==> !(#[trigger] tried@[k]),
            decreases clips@.len() - i,
        {
            tried.push(false);
            i += 1;
        }
        QuotaDeletion { tried, left: total, target }
    }

    /// The next clip to delete, as long as there is too much.
    pub fn next(&self, clips: &Vec<StoredClip>) -> (next: Option<usize>)
        requires
            self.wf(clips@),
        ensures
            is_next_answer(*self, clips@, next),
            next is Some <==> self.left > self.target && exists|i: int|
                0 <= i < clips@.len() && !clips@[i].active_upload_source && !clips@[i].favorite
                    && !(#[trigger] self.tried@[i]),
    {
        if self.left <= self.target {
            return None;
        }
        let mut best: Option<usize> = None;
        let mut i: usize = 0;
        while i < clips.len()
            invariant
                i <= clips@.len(),
                self.wf(clips@),
                match best {
                    Some(b) => {
                        &&& b < i
                        &&& deletable(clips@[b as int])
                        &&& !self.tried@[b as int]
                        &&& forall|j: int|
                            0 <= j < i && deletable(#[trigger] clips@[j]) && !self.tried@[j] && j
                                != b ==> goes_before(clips@, b as int, j)
                    },
                    None => forall|j: int|
                        0 <= j < i && deletable(clips@[j]) ==> #[trigger] self.tried@[j],
                },
            decreases clips@.len() - i,
        {
            let clip = &clips[i];
            if !is_protected_clip(clip.active_upload_source, clip.favorite) && !self.tried[i] {
                let sooner = match best {
                    Some(b) => clip_goes_before(clips, i, b),
                    None => true,
                };
                if sooner {
                    best = Some(i);
                }
            }
            i += 1;
        }
        best
    }

    /// Takes what came of deleting the clip that was due.
    pub fn deleted(&mut self, clips: &Vec<StoredClip>, i: usize, removed: bool)
        requires
            old(self).wf(clips@),
            is_next_clip(clips@, old(self).tried@, i as int),
        ensures
            final(self).wf(clips@),
            final(self).tried@ == old(self).tried@.update(i as int, true),
            final(self).target == old(self).target,
            final(self).left == if removed {
                if clips@[i as int].bytes <= old(self).left {
                    (old(self).left - clips@[i as int].bytes) as u64
                } else {
                    0
                }
            } else {
                old(self).left
            },
    {
        self.tried.set(i, true);
        if removed {
            self.left = self.left.saturating_sub(clips[i].bytes);
        }
        assert forall|a: int, b: int|
            0 <= a < clips@.len() && 0 <= b < clips@.len() && self.tried@[b] && deletable(clips@[a])
                && goes_before(clips@, a, b) implies self.tried@[a] by {
            if a != i && !old(self).tried@[a] {
                assert(goes_before(clips@, i as int, a));
                if b != i {
                    assert(old(self).tried@[b]);
                    assert(old(self).tried@[a]);
                }
            }
        }
    }
}

fn clip_goes_before(clips: &Vec<StoredClip>, i: usize, j: usize) -> (r: bool)
    requires
        i < clips@.len(),
        j < clips@.len(),
    ensures
        r == goes_before(clips@, i as int, j as int),
{
    let a = clip_gc_priority(clips[i].kind.as_str());
    let b = clip_gc_priority(clips[j].kind.as_str());
    a < b || (a == b && (clips[i].modified_ns < clips[j].modified_ns || (clips[i].modified_ns
        == clips[j].modified_ns && i < j)))
}

/// However far a deletion has come, it has tried no source of an upload and no favorite, and no
/// clip of a kind while one of a kind that drains earlier could still go.
pub proof fn law_deletion_follows_the_policy(
    deletion: QuotaDeletion,
    clips: Seq<StoredClip>,
    i: int,
    j: int,
)
    requires
        deletion.wf(clips),
        0 <= i < clips.len(),
        0 <= j < clips.len(),
        deletion.tried@[j],
    ensures
        !clips[j].active_upload_source,
        !clips[j].favorite,
        priority_of(clips[i].kind@) < priority_of(clips[j].kind@) && deletable(clips[i])
            ==> deletion.tried@[i],
        priority_of(clips[i].kind@) == priority_of(clips[j].kind@) && clips[i].modified_ns
            < clips[j].modified_ns && deletable(clips[i]) ==> deletion.tried@[i],
{
}

/// Auto-delete makes room wherever it can. While more is left than may be, a deletion offers a
/// clip as long as any clip was not tried that is neither the source of a running upload nor a
/// favorite, whatever its size, kind or age; it ends early only once each of those was tried.
/// Where no more is left than may be, it offers none.
pub proof fn law_deletion_offers_every_unprotected_clip(
    deletion: QuotaDeletion,
    clips: Seq<StoredClip>,
    next: Option<usize>,
)
    requires
        deletion.wf(clips),
        is_next_answer(deletion, clips, next),
    ensures
        deletion.left <= deletion.target ==> next is None,
        deletion.left > deletion.target ==> (next is None <==> forall|i: int|
            0 <= i < clips.len() && !clips[i].active_upload_source && !clips[i].favorite
                ==> #[trigger] deletion.tried@[i]),
        next matches Some(i) ==> 0 <= i < clips.len() && !clips[i as int].active_upload_source
            && !clips[i as int].favorite && !deletion.tried@[i as int],
{
    if let Some(i) = next {
        assert(deletable(clips[i as int]));
    }
    assert forall|i: int|
        0 <= i < clips.len() && !clips[i].active_upload_source
            && !clips[i].favorite implies deletable(#[trigger] clips[i]) by {}
}

/// The clip that is offered is a session as long as there is one, else a replay as long as there
/// is one, and of its kind the oldest.
pub proof fn law_sessions_go_before_replays_and_the_oldest_first(
    deletion: QuotaDeletion,
    clips: Seq<StoredClip>,
    next: Option<usize>,
    j: int,
)
    requires
        deletion.wf(clips),
        is_next_answer(deletion, clips, next),
        next is Some,
        0 <= j < clips.len(),
        !clips[j].active_upload_source,
        !clips[j].favorite,
        !deletion.tried@[j],
    ensures
        ({
            let offered = clips[next->0 as int];
            &&& clips[j].kind@ == "session"@ ==> offered.kind@ == "session"@
            &&& clips[j].kind@ == "replay"@ ==> offered.kind@ == "session"@ || offered.kind@
                == "replay"@
            &&& offered.kind@ == clips[j].kind@ ==> offered.modified_ns <= clips[j].modified_ns
            &&& offered.kind@ != "session"@ && offered.kind@ != "replay"@ ==> offered.modified_ns
                <= clips[j].modified_ns
        }),
{
    reveal_strlit("session");
    reveal_strlit("replay");
    assert("session"@.len() != "replay"@.len());
    assert(deletable(clips[j]));
    if j != next->0 {
        assert(goes_before(clips, next->0 as int, j));
    }
}

/// There is at most one next clip, so that the order of a deletion is fixed.
pub proof fn law_next_clip_is_unique(clips: Seq<StoredClip>, tried: Seq<bool>, i: int, j: int)
    requires
        tried.len() == clips.len(),
        is_next_clip(clips, tried, i),
        is_next_clip(clips, tried, j),
    ensures
        i == j,
{
}

} // verus!
