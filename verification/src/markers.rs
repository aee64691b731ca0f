//! The markers of a clip: its events, plays and audio tracks, and the selection among the
//! tracks.

use crate::sidecars::FileAnswer;
use crate::text::concat2;
use vstd::prelude::*;

verus! {

/// One audio track of a clip, as its markers describe it.
#[derive(Debug, PartialEq, Eq)]
pub struct ClipAudioTrack {
    pub id: String,
    pub track_index: u32,
    pub label: String,
    pub kind: Option<String>,
}

/// The markers of a clip. Times are held as the bit patterns of their seconds.
#[derive(Debug, PartialEq, Eq)]
pub struct ClipMarkers<M, P, S, B> {
    pub recording_start_s_bits: u64,
    pub duration_s_bits: u64,
    pub player_summary: Option<S>,
    pub audio_tracks: Vec<ClipAudioTrack>,
    pub selected_audio_track_ids: Option<Vec<String>>,
    pub plays: Vec<P>,
    pub markers: Vec<M>,
    pub bookmarks: Vec<B>,
}

/// Whether markers hold anything that is worth a file beside an exported clip.
pub open spec fn worth_a_file<M, P, S, B>(markers: ClipMarkers<M, P, S, B>) -> bool {
    ||| markers.markers@.len() > 0
    ||| markers.player_summary is Some
    ||| markers.audio_tracks@.len() > 0
    ||| markers.plays@.len() > 0
}

/// Whether markers hold anything that is worth a file beside an exported clip.
pub fn has_marker_sidecar_content<M, P, S, B>(markers: &ClipMarkers<M, P, S, B>) -> (r: bool)
    ensures
        r == worth_a_file(*markers),
{
    markers.markers.len() > 0 || markers.player_summary.is_some() || markers.audio_tracks.len() > 0
        || markers.plays.len() > 0
}

/// The events whose flag is set, in order.
pub open spec fn flagged<M>(markers: Seq<M>, review: Seq<bool>) -> Seq<M>
    decreases markers.len(),
{
    if markers.len() == 0 {
        Seq::empty()
    } else {
        let before = flagged(markers.drop_last(), review);
        if review[markers.len() - 1] {
            before.push(markers.last())
        } else {
            before
        }
    }
}

/// Keeps the events that a review shows, in order; everything else stays as it is.
/// `review` says of each event whether it is one of them.
pub fn filter_review_markers<M, P, S, B>(
    markers: ClipMarkers<M, P, S, B>,
    review: &Vec<bool>,
) -> (kept: ClipMarkers<M, P, S, B>)
    requires
        review@.len() == markers.markers@.len(),
    ensures
        kept.markers@ == flagged(markers.markers@, review@),
        kept == (ClipMarkers { markers: kept.markers, ..markers }),
{
    let ghost all = markers.markers@;
    let mut rest: Vec<M> = markers.markers;
    let mut reversed: Vec<M> = Vec::new();
    let mut i: usize = rest.len();
    assert(all.take(all.len() as int) =~= all);
    let ghost mut tail: Seq<M> = Seq::empty();
    while i > 0
        invariant
            i == rest@.len(),
            i <= all.len(),
            rest@ == all.take(i as int),
            review@.len() == all.len(),
            reversed@ == tail.reverse(),
            flagged(all.take(i as int), review@) + tail == flagged(all, review@),
        decreases i,
    {
        let ghost before = tail;
        i -= 1;
        proof {
            assert(all.take(i + 1).drop_last() =~= all.take(i as int));
            assert(all.take(i + 1).last() == all[i as int]);
        }
        match rest.pop() {
            Some(marker) => {
                assert(rest@ =~= all.take(i as int));
                if review[i] {
                    reversed.push(marker);
                    proof {
                        tail = seq![marker] + before;
                        assert(reversed@ =~= tail.reverse());
                        assert(flagged(all.take(i as int), review@) + tail =~= flagged(
                            all.take(i as int),
                            review@,
                        ).push(marker) + before);
                    }
                }
            },
            None => {},
        }
    }
    assert(all.take(0) =~= Seq::<M>::empty());
    assert(Seq::<M>::empty() + tail =~= tail);
    let mut kept: Vec<M> = Vec::new();
    let ghost whole = tail;
    while reversed.len() > 0
        invariant
            reversed@.len() <= whole.len(),
            reversed@ == whole.reverse().take(reversed@.len() as int),
            kept@ == whole.take(whole.len() - reversed@.len()),
        decreases reversed@.len(),
    {
        let ghost left = reversed@.len();
        match reversed.pop() {
            Some(marker) => {
                proof {
                    assert(reversed@ =~= whole.reverse().take(left - 1));
                    assert(marker == whole[whole.len() - left]);
                    assert(whole.take(whole.len() - left + 1) =~= whole.take(
                        whole.len() - left,
                    ).push(marker));
                }
                kept.push(marker);
            },
            None => {},
        }
    }
    assert(whole.take(whole.len() as int) =~= whole);
    ClipMarkers {
        recording_start_s_bits: markers.recording_start_s_bits,
        duration_s_bits: markers.duration_s_bits,
        player_summary: markers.player_summary,
        audio_tracks: markers.audio_tracks,
        selected_audio_track_ids: markers.selected_audio_track_ids,
        plays: markers.plays,
        markers: kept,
        bookmarks: markers.bookmarks,
    }
}

// ---------------------------------------------------------------------------
// Selecting audio tracks
// ---------------------------------------------------------------------------

/// The audio tracks of a clip to remember as selected.
#[derive(Debug, PartialEq, Eq)]
pub struct SetClipAudioSelectionRequest {
    pub path: String,
    pub audio_track_ids: Vec<String>,
}

/// Bit patterns of the numbers of double precision that are finite and above zero.
pub open spec fn is_positive_finite(bits: u64) -> bool {
    0 < bits < 0x7ff0_0000_0000_0000
}

/// What selecting audio tracks of a clip needs of it: the tracks, if it has markers, the
/// duration in its markers, and what the movie says of its duration.
pub open spec fn selection_result(
    tracks: Option<Seq<ClipAudioTrack>>,
    duration_s_bits: u64,
    movie: Result<Option<u64>, String>,
    indices: Result<Vec<u32>, String>,
) -> Result<u64, Seq<char>> {
    if tracks is None || tracks->0.len() == 0 {
        Err("this clip has no selectable audio tracks"@)
    } else if !is_positive_finite(duration_s_bits) && movie is Err {
        Err("inspect clip duration: "@ + movie->Err_0@)
    } else if !is_positive_finite(duration_s_bits) && !(movie->Ok_0 is Some && is_positive_finite(
        movie->Ok_0->0,
    )) {
        Err("this clip has no valid duration"@)
    } else if indices is Err {
        Err(indices->Err_0@)
    } else if is_positive_finite(duration_s_bits) {
        Ok(duration_s_bits)
    } else {
        Ok(movie->Ok_0->0)
    }
}

/// Records a selection of audio tracks in the markers of a clip. The duration in the
/// markers is mended from the movie where it is not a positive number. `indices` is what
/// came of looking the selected tracks up. Where the selection is refused, the markers stay
/// as they are.
pub fn set_clip_audio_selection<M, P, S, B>(
    markers: &mut Option<ClipMarkers<M, P, S, B>>,
    movie: &Result<Option<u64>, String>,
    indices: &Result<Vec<u32>, String>,
    audio_track_ids: Vec<String>,
) -> (res: Result<(), String>)
    ensures
        ({
            let before = *old(markers);
            let tracks = match before {
                Some(before) => Some(before.audio_tracks@),
                None => None,
            };
            let duration = match before {
                Some(before) => before.duration_s_bits,
                None => 0,
            };
            match selection_result(tracks, duration, *movie, *indices) {
                Ok(duration_s_bits) => res is Ok && *final(markers) == Some(
                    (ClipMarkers {
                        duration_s_bits,
                        selected_audio_track_ids: Some(audio_track_ids),
                        ..before->0
                    }),
                ),
                Err(message) => res is Err && res->Err_0@ == message && *final(markers) == before,
            }
        }),
{
    match markers {
        None => Err("this clip has no selectable audio tracks".to_string()),
        Some(found) => {
            if found.audio_tracks.len() == 0 {
                return Err("this clip has no selectable audio tracks".to_string());
            }
            let mut duration_s_bits: u64 = found.duration_s_bits;
            if !(0 < duration_s_bits && duration_s_bits < 0x7ff0_0000_0000_0000) {
                match movie {
                    Err(error) => {
                        return Err(concat2("inspect clip duration: ", error.as_str()));
                    },
                    Ok(Some(bits)) => {
                        if !(0 < *bits && *bits < 0x7ff0_0000_0000_0000) {
                            return Err("this clip has no valid duration".to_string());
                        }
                        duration_s_bits = *bits;
                    },
                    Ok(None) => {
                        return Err("this clip has no valid duration".to_string());
                    },
                }
            }
            if let Err(error) = indices {
                return Err(error.clone());
            }
            found.duration_s_bits = duration_s_bits;
            found.selected_audio_track_ids = Some(audio_track_ids);
            Ok(())
        },
    }
}

// ---------------------------------------------------------------------------
// The markers of a part of a clip
// ---------------------------------------------------------------------------

/// Whether these are the markers that a review shows.
pub open spec fn is_reviewed<M, P, S, B>(
    markers: ClipMarkers<M, P, S, B>,
    review: Seq<bool>,
    kept: ClipMarkers<M, P, S, B>,
) -> bool {
    &&& kept.markers@ == flagged(markers.markers@, review)
    &&& kept == (ClipMarkers { markers: kept.markers, ..markers })
}

/// Whether these are the markers that go with a part of a clip: those that a review shows,
/// cropped to the part, where anything is left of them.
pub open spec fn are_exported_markers<M, P, S, B, C>(
    markers: ClipMarkers<M, P, S, B>,
    review: Seq<bool>,
    crop: C,
    exported: Option<ClipMarkers<M, P, S, B>>,
) -> bool where C: FnOnce(ClipMarkers<M, P, S, B>) -> ClipMarkers<M, P, S, B> {
    exists|kept: ClipMarkers<M, P, S, B>, cropped: ClipMarkers<M, P, S, B>| #[trigger]
        call_ensures(crop, (kept,), cropped) && is_reviewed(markers, review, kept) && exported == (
        if worth_a_file(cropped) {
            Some(cropped)
        } else {
            None
        })
}

/// The markers of a part of a clip, where they are wanted. `review` says of each event of the
/// clip whether a review shows it, `crop` takes markers to the part.
pub fn export_markers_for_range<M, P, S, B, C>(
    include_markers: bool,
    markers: Option<ClipMarkers<M, P, S, B>>,
    review: &Vec<bool>,
    crop: C,
) -> (exported: Option<ClipMarkers<M, P, S, B>>) where
    C: FnOnce(ClipMarkers<M, P, S, B>) -> ClipMarkers<M, P, S, B>,

    requires
        markers matches Some(markers) ==> review@.len() == markers.markers@.len(),
        forall|kept: ClipMarkers<M, P, S, B>|
            include_markers && markers is Some && is_reviewed(markers->0, review@, kept)
                ==> #[trigger] call_requires(crop, (kept,)),
    ensures
        if !include_markers {
            exported is None
        } else {
            match markers {
                None => exported is None,
                Some(markers) => are_exported_markers(markers, review@, crop, exported),
            }
        },
{
    if !include_markers {
        return None;
    }
    match markers {
        None => None,
        Some(markers) => {
            let kept = filter_review_markers(markers, review);
            let ghost before = kept;
            assert(is_reviewed(markers, review@, kept));
            let cropped = crop(kept);
            assert(call_ensures(crop, (before,), cropped));
            if has_marker_sidecar_content(&cropped) {
                Some(cropped)
            } else {
                None
            }
        },
    }
}

// ---------------------------------------------------------------------------
// Saving markers
// ---------------------------------------------------------------------------

/// How far the replacement of a marker file is.
#[derive(Debug, Clone, Copy, PartialEq, Eq, Structural)]
pub enum MarkerSavePhase {
    Serializing,
    Naming,
    Creating,
    Writing,
    Syncing,
    Publishing,
    Removing,
    Finished,
}

/// What is to be done next to replace a marker file.
#[derive(Debug, PartialEq, Eq)]
pub enum MarkerSaveAction {
    /// Bring the markers into the form of the file. Answered by `Came`.
    Serialize,
    /// Choose a file beside the marker file. Answered by `Named`.
    Name,
    /// Create this file, which must not be there yet. Answered by `Came`.
    Create(String),
    /// Write the markers to this file. Answered by `Came`.
    Write(String),
    /// Have this file written out. Answered by `Came`.
    Sync(String),
    /// Put this file in the place of the marker file. Answered by `Came`.
    Publish(String),
    /// Remove this file, if it is there. Answered by `Done`.
    Remove(String),
    /// There is nothing left to do.
    Stop,
}

/// A marker file that is being replaced. `tmp_path` is the file that is written first.
#[derive(Debug, PartialEq, Eq)]
pub struct MarkerSave {
    pub phase: MarkerSavePhase,
    pub tmp_path: String,
    pub failure: Option<String>,
}

/// What the error of a phase begins with.
pub open spec fn save_error_head(phase: MarkerSavePhase) -> Seq<char> {
    match phase {
        MarkerSavePhase::Serializing => "serialize audio selection: "@,
        MarkerSavePhase::Creating => "create audio selection sidecar: "@,
        MarkerSavePhase::Writing => "write audio selection sidecar: "@,
        MarkerSavePhase::Syncing => "sync audio selection sidecar: "@,
        MarkerSavePhase::Publishing => "publish audio selection sidecar: "@,
        _ => ""@,
    }
}

/// The phase that follows where nothing failed.
pub open spec fn next_save_phase(phase: MarkerSavePhase) -> MarkerSavePhase {
    match phase {
        MarkerSavePhase::Serializing => MarkerSavePhase::Naming,
        MarkerSavePhase::Naming => MarkerSavePhase::Creating,
        MarkerSavePhase::Creating => MarkerSavePhase::Writing,
        MarkerSavePhase::Writing => MarkerSavePhase::Syncing,
        MarkerSavePhase::Syncing => MarkerSavePhase::Publishing,
        _ => MarkerSavePhase::Finished,
    }
}

/// Whether an answer is one to the action of a phase.
pub open spec fn save_answer_fits(phase: MarkerSavePhase, answer: FileAnswer) -> bool {
    match phase {
        MarkerSavePhase::Naming => answer is Named,
        MarkerSavePhase::Removing => answer is Done,
        MarkerSavePhase::Finished => false,
        _ => answer is Came,
    }
}

/// The action of a phase.
pub open spec fn save_action(save: MarkerSave) -> MarkerSaveAction {
    match save.phase {
        MarkerSavePhase::Serializing => MarkerSaveAction::Serialize,
        MarkerSavePhase::Naming => MarkerSaveAction::Name,
        MarkerSavePhase::Creating => MarkerSaveAction::Create(save.tmp_path),
        MarkerSavePhase::Writing => MarkerSaveAction::Write(save.tmp_path),
        MarkerSavePhase::Syncing => MarkerSaveAction::Sync(save.tmp_path),
        MarkerSavePhase::Publishing => MarkerSaveAction::Publish(save.tmp_path),
        MarkerSavePhase::Removing => MarkerSaveAction::Remove(save.tmp_path),
        MarkerSavePhase::Finished => MarkerSaveAction::Stop,
    }
}

/// A replacement after an answer. Once a file beside the marker file was chosen, a failure
/// has it removed.
pub open spec fn save_after(before: MarkerSave, answer: FileAnswer, after: MarkerSave) -> bool {
    match answer {
        FileAnswer::Named(Ok(tmp_path)) => after == (MarkerSave {
            phase: MarkerSavePhase::Creating,
            tmp_path,
            ..before
        }),
        FileAnswer::Named(Err(error)) => after == (MarkerSave {
            phase: MarkerSavePhase::Finished,
            failure: Some(error),
            ..before
        }),
        FileAnswer::Came(Err(error)) => {
            &&& after.phase == if before.phase is Serializing {
                MarkerSavePhase::Finished
            } else {
                MarkerSavePhase::Removing
            }
            &&& after.tmp_path == before.tmp_path
            &&& after.failure matches Some(text) && text@ == save_error_head(before.phase) + error@
        },
        _ => after == (MarkerSave { phase: next_save_phase(before.phase), ..before }),
    }
}

fn save_error(phase: MarkerSavePhase) -> (head: &'static str)
    ensures
        head@ == save_error_head(phase),
{
    match phase {
        MarkerSavePhase::Serializing => "serialize audio selection: ",
        MarkerSavePhase::Creating => "create audio selection sidecar: ",
        MarkerSavePhase::Writing => "write audio selection sidecar: ",
        MarkerSavePhase::Syncing => "sync audio selection sidecar: ",
        MarkerSavePhase::Publishing => "publish audio selection sidecar: ",
        _ => "",
    }
}

impl MarkerSave {
    pub fn begin() -> (save: MarkerSave)
        ensures
            save.phase == MarkerSavePhase::Serializing,
            save.failure is None,
    {
        MarkerSave {
            phase: MarkerSavePhase::Serializing,
            tmp_path: String::new(),
            failure: None,
        }
    }

    /// What is to be done next.
    pub fn action(&self) -> (action: MarkerSaveAction)
        ensures
            action == save_action(*self),
    {
        match self.phase {
            MarkerSavePhase::Serializing => MarkerSaveAction::Serialize,
            MarkerSavePhase::Naming => MarkerSaveAction::Name,
            MarkerSavePhase::Creating => MarkerSaveAction::Create(self.tmp_path.clone()),
            MarkerSavePhase::Writing => MarkerSaveAction::Write(self.tmp_path.clone()),
            MarkerSavePhase::Syncing => MarkerSaveAction::Sync(self.tmp_path.clone()),
            MarkerSavePhase::Publishing => MarkerSaveAction::Publish(self.tmp_path.clone()),
            MarkerSavePhase::Removing => MarkerSaveAction::Remove(self.tmp_path.clone()),
            MarkerSavePhase::Finished => MarkerSaveAction::Stop,
        }
    }

    /// Takes the answer to the action that was due.
    pub fn answered(&mut self, answer: FileAnswer)
        requires
            save_answer_fits(old(self).phase, answer),
        ensures
            save_after(*old(self), answer, *final(self)),
    {
        match answer {
            FileAnswer::Named(Ok(tmp_path)) => {
                self.tmp_path = tmp_path;
                self.phase = MarkerSavePhase::Creating;
            },
            FileAnswer::Named(Err(error)) => {
                self.failure = Some(error);
                self.phase = MarkerSavePhase::Finished;
            },
            FileAnswer::Came(Err(error)) => {
                self.failure = Some(concat2(save_error(self.phase), error.as_str()));
                self.phase = if let MarkerSavePhase::Serializing = self.phase {
                    MarkerSavePhase::Finished
                } else {
                    MarkerSavePhase::Removing
                };
            },
            _ => {
                self.phase = match self.phase {
                    MarkerSavePhase::Serializing => MarkerSavePhase::Naming,
                    MarkerSavePhase::Naming => MarkerSavePhase::Creating,
                    MarkerSavePhase::Creating => MarkerSavePhase::Writing,
                    MarkerSavePhase::Writing => MarkerSavePhase::Syncing,
                    MarkerSavePhase::Syncing => MarkerSavePhase::Publishing,
                    _ => MarkerSavePhase::Finished,
                };
            },
        }
    }

    /// What came of it.
    pub fn result(self) -> (res: Result<(), String>)
        requires
            self.phase is Finished,
        ensures
            match self.failure {
                None => res is Ok,
                Some(error) => res == Err::<(), String>(error),
            },
    {
        match self.failure {
            None => Ok(()),
            Some(error) => Err(error),
        }
    }
}

/// The marker file is touched only by the last step of a replacement, with a file that was
/// written out in full; where any step before it fails, it stays as it is and the file beside
/// it is removed.
pub proof fn law_markers_are_replaced_whole(
    before: MarkerSave,
    answer: FileAnswer,
    after: MarkerSave,
)
    requires
        save_answer_fits(before.phase, answer),
        save_after(before, answer, after),
    ensures
        save_action(after) is Publish ==> before.phase is Syncing && answer matches FileAnswer::Came(
            Ok(_),
        ),
        answer matches FileAnswer::Came(Err(_)) && before.phase !is Serializing ==> save_action(after)
            == MarkerSaveAction::Remove(before.tmp_path),
        after.failure is None && after.phase is Finished ==> before.phase is Publishing
            || before.phase is Removing,
{
}

/// A clip has a file beside it exactly where there is something to put in it: a marker, a summary
/// of the player, an audio track or a play.
pub proof fn law_content_is_worth_a_file<M, P, S, B>(markers: ClipMarkers<M, P, S, B>)
    ensures
        worth_a_file(markers) <==> !(markers.markers@.len() == 0 && markers.player_summary is None
            && markers.audio_tracks@.len() == 0 && markers.plays@.len() == 0),
{
}

/// The markers that are kept are those with a flag, all of them, in their order. `places` are
/// where they stood.
pub proof fn law_flagged_markers_are_kept<M>(markers: Seq<M>, review: Seq<bool>) -> (places: Seq<
    int,
>)
    requires
        review.len() == markers.len(),
    ensures
        places.len() == flagged(markers, review).len(),
        forall|k: int|
            0 <= k < places.len() ==> 0 <= (#[trigger] places[k]) < markers.len()
                && review[places[k]] && flagged(markers, review)[k] == markers[places[k]],
        forall|k: int, l: int|
            0 <= k < l < places.len() ==> #[trigger] places[k] < #[trigger] places[l],
        forall|i: int| 0 <= i < markers.len() && #[trigger] review[i] ==> places.contains(i),
    decreases markers.len(),
{
    if markers.len() == 0 {
        Seq::empty()
    } else {
        let at = markers.len() - 1;
        lemma_flagged_take(markers.drop_last(), review, review.take(at));
        let before = law_flagged_markers_are_kept(markers.drop_last(), review.take(at));
        assert forall|k: int| 0 <= k < before.len() implies review[#[trigger] before[k]] by {
            assert(review.take(at)[before[k]]);
        }
        let places = if review[at] {
            before.push(at)
        } else {
            before
        };
        assert forall|i: int| 0 <= i < markers.len() && #[trigger] review[i] implies places.contains(
            i,
        ) by {
            if i < at {
                assert(review.take(at)[i]);
                let k = choose|k: int| 0 <= k < before.len() && before[k] == i;
                assert(places[k] == i);
            } else {
                assert(places[before.len() as int] == at);
            }
        }
        places
    }
}

proof fn lemma_flagged_take<M>(markers: Seq<M>, a: Seq<bool>, b: Seq<bool>)
    requires
        markers.len() <= a.len(),
        markers.len() <= b.len(),
        forall|i: int| 0 <= i < markers.len() ==> #[trigger] a[i] == b[i],
    ensures
        flagged(markers, a) == flagged(markers, b),
    decreases markers.len(),
{
    if markers.len() > 0 {
        lemma_flagged_take(markers.drop_last(), a, b);
        assert(a[markers.len() - 1] == b[markers.len() - 1]);
    }
}

/// A selection of audio tracks is saved exactly where the clip has tracks, its length is known,
/// from its markers or from the movie, and the tracks were found; the length of the markers is
/// kept where it is known.
pub proof fn law_selection_is_saved_where_it_can_be(
    tracks: Option<Seq<ClipAudioTrack>>,
    duration_s_bits: u64,
    movie: Result<Option<u64>, String>,
    indices: Result<Vec<u32>, String>,
)
    ensures
        ({
            let known = 0 < duration_s_bits && duration_s_bits < 0x7ff0_0000_0000_0000;
            let read = movie matches Ok(Some(bits)) && 0 < bits < 0x7ff0_0000_0000_0000;
            let res = selection_result(tracks, duration_s_bits, movie, indices);
            let selectable = tracks is Some && tracks->0.len() > 0;
            &&& res is Ok <==> selectable && (known || read) && indices is Ok
            &&& res is Ok && known ==> res->Ok_0 == duration_s_bits
            &&& res is Ok && !known ==> res->Ok_0 == movie->Ok_0->0
            &&& !selectable ==> res == Err::<u64, Seq<char>>(
                "this clip has no selectable audio tracks"@,
            )
            &&& selectable && !known && movie is Err ==> res == Err::<u64, Seq<char>>(
                "inspect clip duration: "@ + movie->Err_0@,
            )
            &&& selectable && !known && movie is Ok && !read ==> res == Err::<u64, Seq<char>>(
                "this clip has no valid duration"@,
            )
            &&& selectable && (known || read) && indices is Err ==> res == Err::<u64, Seq<char>>(
                indices->Err_0@,
            )
        }),
{
}

/// A selection that is saved without a failure is written to a file of its own, which is flushed
/// to the disk before it replaces the one before.
pub proof fn law_saved_markers_are_published(
    start: MarkerSave,
    naming: MarkerSave,
    creating: MarkerSave,
    writing: MarkerSave,
    syncing: MarkerSave,
    publishing: MarkerSave,
    end: MarkerSave,
    tmp_path: String,
)
    requires
        start.phase is Serializing,
        start.failure is None,
        save_after(start, FileAnswer::Came(Ok(())), naming),
        save_after(naming, FileAnswer::Named(Ok(tmp_path)), creating),
        save_after(creating, FileAnswer::Came(Ok(())), writing),
        save_after(writing, FileAnswer::Came(Ok(())), syncing),
        save_after(syncing, FileAnswer::Came(Ok(())), publishing),
        save_after(publishing, FileAnswer::Came(Ok(())), end),
    ensures
        save_action(start) is Serialize,
        save_action(naming) is Name,
        save_action(creating) == MarkerSaveAction::Create(tmp_path),
        save_action(writing) == MarkerSaveAction::Write(tmp_path),
        save_action(syncing) == MarkerSaveAction::Sync(tmp_path),
        save_action(publishing) == MarkerSaveAction::Publish(tmp_path),
        save_action(end) is Stop,
        end.failure is None,
{
}

/// A save that fails names the step, and leaves no file of its own behind.
pub proof fn law_failed_save_leaves_no_file(before: MarkerSave, error: String, after: MarkerSave)
    requires
        save_answer_fits(before.phase, FileAnswer::Came(Err(error))),
        save_after(before, FileAnswer::Came(Err(error)), after),
    ensures
        before.phase is Serializing ==> save_action(after) is Stop && after.failure->0@
            == "serialize audio selection: "@ + error@,
        before.phase !is Serializing ==> save_action(after) == MarkerSaveAction::Remove(
            before.tmp_path,
        ),
        before.phase is Creating ==> after.failure->0@ == "create audio selection sidecar: "@
            + error@,
        before.phase is Writing ==> after.failure->0@ == "write audio selection sidecar: "@ + error@,
        before.phase is Syncing ==> after.failure->0@ == "sync audio selection sidecar: "@ + error@,
        before.phase is Publishing ==> after.failure->0@ == "publish audio selection sidecar: "@
            + error@,
        after.failure is Some,
{
}

/// The markers of a part are what the cropping makes of those that a review shows, with everything
/// else that the file holds; there are none where nothing is left.
pub proof fn law_exported_markers_are_the_reviewed_ones<M, P, S, B, C>(
    markers: ClipMarkers<M, P, S, B>,
    review: Seq<bool>,
    crop: C,
    exported: Option<ClipMarkers<M, P, S, B>>,
    k: int,
) -> (seen: (ClipMarkers<M, P, S, B>, ClipMarkers<M, P, S, B>)) where
    C: FnOnce(ClipMarkers<M, P, S, B>) -> ClipMarkers<M, P, S, B>,

    requires
        are_exported_markers(markers, review, crop, exported),
        review.len() == markers.markers@.len(),
    ensures
        call_ensures(crop, (seen.0,), seen.1),
        forall|i: int|
            0 <= i < markers.markers@.len() && review[i] ==> seen.0.markers@.contains(
                #[trigger] markers.markers@[i],
            ),
        0 <= k < seen.0.markers@.len() ==> exists|i: int|
            0 <= i < markers.markers@.len() && review[i] && seen.0.markers@[k]
                == #[trigger] markers.markers@[i],
        (forall|i: int| 0 <= i < review.len() ==> #[trigger] review[i]) ==> seen.0.markers@
            == markers.markers@,
        seen.0 == (ClipMarkers { markers: seen.0.markers, ..markers }),
        exported is Some ==> exported->0 == seen.1,
        exported is Some <==> seen.1.markers@.len() > 0 || seen.1.player_summary is Some
            || seen.1.audio_tracks@.len() > 0 || seen.1.plays@.len() > 0,
{
    let (kept, cropped) = choose|
        kept: ClipMarkers<M, P, S, B>,
        cropped: ClipMarkers<M, P, S, B>,
    | #[trigger]
        call_ensures(crop, (kept,), cropped) && is_reviewed(markers, review, kept) && exported == (
        if worth_a_file(cropped) {
            Some(cropped)
        } else {
            None
        });
    lemma_flagged(markers.markers@, review);
    if 0 <= k < kept.markers@.len() {
        let i = choose|i: int|
            0 <= i < markers.markers@.len() && review[i] && flagged(markers.markers@, review)[k]
                == #[trigger] markers.markers@[i];
        assert(kept.markers@[k] == markers.markers@[i]);
    }
    (kept, cropped)
}

proof fn lemma_flagged<M>(markers: Seq<M>, review: Seq<bool>)
    requires
        review.len() >= markers.len(),
    ensures
        forall|i: int|
            0 <= i < markers.len() && review[i] ==> flagged(markers, review).contains(
                #[trigger] markers[i],
            ),
        forall|k: int|
            #![trigger flagged(markers, review)[k]]
            0 <= k < flagged(markers, review).len() ==> exists|i: int|
                0 <= i < markers.len() && review[i] && flagged(markers, review)[k]
                    == #[trigger] markers[i],
        (forall|i: int| 0 <= i < markers.len() ==> #[trigger] review[i]) ==> flagged(
            markers,
            review,
        ) == markers,
    decreases markers.len(),
{
    if markers.len() > 0 {
        let rest = markers.drop_last();
        let before = flagged(rest, review);
        let all = flagged(markers, review);
        lemma_flagged(rest, review);
        assert forall|i: int| 0 <= i < markers.len() && review[i] implies all.contains(
            #[trigger] markers[i],
        ) by {
            if i < rest.len() {
                assert(before.contains(rest[i]));
                let k = choose|k: int| 0 <= k < before.len() && before[k] == rest[i];
                assert(all[k] == markers[i]);
            } else {
                assert(all[before.len() as int] == markers[i]);
            }
        }
        assert forall|k: int|
            #![trigger all[k]]
            0 <= k < all.len() implies exists|i: int|
            0 <= i < markers.len() && review[i] && all[k] == #[trigger] markers[i] by {
            if k < before.len() {
                let i = choose|i: int|
                    0 <= i < rest.len() && review[i] && before[k] == #[trigger] rest[i];
                assert(all[k] == markers[i]);
            } else {
                assert(all[k] == markers[markers.len() - 1]);
            }
        }
        if forall|i: int| 0 <= i < markers.len() ==> #[trigger] review[i] {
            assert(before == rest);
            assert(review[markers.len() - 1]);
            assert(all =~= markers);
        }
    }
}

} // verus!
