//! Audio sidecars of a clip: one audio-only file per selected track, kept in a cache.

use crate::hash::{hex_fixed, hex_u64};
use crate::markers::ClipAudioTrack;
use crate::text::{clone_strings, concat2, concat3, decimal, decimal_string, str_eq, views};
use vstd::prelude::*;

verus! {

// ---------------------------------------------------------------------------
// The tracks that are asked for
// ---------------------------------------------------------------------------

/// The tracks of a clip to prepare, and where to put the files that playback must not lose.
#[derive(Debug, PartialEq, Eq)]
pub struct PrepareClipAudioSidecarsRequest {
    pub path: String,
    pub audio_track_ids: Vec<String>,
    pub protected_preview_paths: Vec<String>,
}

/// The audio-only file of one track.
#[derive(Debug, PartialEq, Eq)]
pub struct PreparedClipAudioSidecar {
    pub audio_track_id: String,
    pub path: String,
}

/// A track that was asked for, and its place among the audio streams of the clip.
#[derive(Debug, PartialEq, Eq)]
pub struct ResolvedAudioTrackSidecar {
    pub audio_track_id: String,
    pub audio_stream_index: u32,
}

/// The tracks of a clip that are selected, in the order of the clip.
pub open spec fn selected_tracks(
    tracks: Seq<ClipAudioTrack>,
    selected: Seq<Seq<char>>,
) -> Seq<(Seq<char>, u32)>
    decreases tracks.len(),
{
    if tracks.len() == 0 {
        Seq::empty()
    } else {
        let before = selected_tracks(tracks.drop_last(), selected);
        if selected.contains(tracks.last().id@) {
            before.push((tracks.last().id@, tracks.last().track_index))
        } else {
            before
        }
    }
}

pub open spec fn resolved_views(tracks: Seq<ResolvedAudioTrackSidecar>) -> Seq<(Seq<char>, u32)> {
    tracks.map_values(
        |track: ResolvedAudioTrackSidecar| (track.audio_track_id@, track.audio_stream_index),
    )
}

fn holds(ids: &Vec<String>, id: &str) -> (r: bool)
    ensures
        r == views(ids@).contains(id@),
{
    let mut i: usize = 0;
    while i < ids.len()
        invariant
            i <= ids@.len(),
            forall|k: int| 0 <= k < i ==> (#[trigger] ids@[k])@ != id@,
        decreases ids@.len() - i,
    {
        if str_eq(ids[i].as_str(), id) {
            assert(views(ids@)[i as int] == id@);
            return true;
        }
        i += 1;
    }
    assert forall|k: int| 0 <= k < views(ids@).len() implies views(ids@)[k] != id@ by {
        assert(views(ids@)[k] == ids@[k]@);
    }
    false
}

/// The tracks to prepare, in the order of the clip. Nothing selected is refused, and so is a
/// clip without tracks; `indices` is what came of looking the selected tracks up.
pub fn resolve_audio_sidecar_tracks(
    tracks: &Option<Vec<ClipAudioTrack>>,
    selected_audio_track_ids: &Vec<String>,
    indices: &Result<Vec<u32>, String>,
) -> (res: Result<Vec<ResolvedAudioTrackSidecar>, String>)
    ensures
        if selected_audio_track_ids@.len() == 0 {
            res is Err && res->Err_0@ == "audio track selection must not be empty"@
        } else if tracks is None || tracks->0@.len() == 0 {
            res is Err && res->Err_0@ == "this clip has no selectable audio track metadata"@
        } else {
            match indices {
                Err(error) => res is Err && res->Err_0@ == error@,
                Ok(_) => res is Ok && resolved_views(res->Ok_0@) == selected_tracks(
                    tracks->0@,
                    views(selected_audio_track_ids@),
                ),
            }
        },
{
    if selected_audio_track_ids.len() == 0 {
        return Err("audio track selection must not be empty".to_string());
    }
    match tracks {
        None => Err("this clip has no selectable audio track metadata".to_string()),
        Some(tracks) => {
            if tracks.len() == 0 {
                return Err("this clip has no selectable audio track metadata".to_string());
            }
            if let Err(error) = indices {
                return Err(error.clone());
            }
            let mut resolved: Vec<ResolvedAudioTrackSidecar> = Vec::new();
            let mut i: usize = 0;
            assert(resolved_views(resolved@) =~= selected_tracks(
                tracks@.take(0),
                views(selected_audio_track_ids@),
            ));
            while i < tracks.len()
                invariant
                    i <= tracks@.len(),
                    resolved_views(resolved@) == selected_tracks(
                        tracks@.take(i as int),
                        views(selected_audio_track_ids@),
                    ),
                decreases tracks@.len() - i,
            {
                let ghost before = resolved@;
                proof {
                    assert(tracks@.take(i + 1).drop_last() =~= tracks@.take(i as int));
                    assert(tracks@.take(i + 1).last() == tracks@[i as int]);
                }
                if holds(selected_audio_track_ids, tracks[i].id.as_str()) {
                    let track = ResolvedAudioTrackSidecar {
                        audio_track_id: tracks[i].id.clone(),
                        audio_stream_index: tracks[i].track_index,
                    };
                    resolved.push(track);
                    assert(resolved_views(resolved@) =~= resolved_views(before).push(
                        (tracks@[i as int].id@, tracks@[i as int].track_index),
                    ));
                }
                i += 1;
            }
            assert(tracks@.take(i as int) =~= tracks@);
            Ok(resolved)
        },
    }
}

// ---------------------------------------------------------------------------
// One file
// ---------------------------------------------------------------------------

/// The tracks of a media file by kind.
#[derive(Debug, Clone, Copy, PartialEq, Eq, Structural)]
pub struct MediaTrackCounts {
    pub video: usize,
    pub audio: usize,
}

/// What is wrong with a file that should be a sidecar.
#[derive(Debug, Clone, Copy, PartialEq, Eq, Structural)]
pub enum SidecarDefect {
    Empty,
    UnexpectedTracks(MediaTrackCounts),
}

/// A sidecar is not empty and holds one audio track and nothing else.
pub fn validate_audio_sidecar(len: u64, counts: MediaTrackCounts) -> (res: Result<
    (),
    SidecarDefect,
>)
    ensures
        res is Ok <==> len > 0 && counts.video == 0 && counts.audio == 1,
        res matches Err(defect) ==> defect == (if len == 0 {
            SidecarDefect::Empty
        } else {
            SidecarDefect::UnexpectedTracks(counts)
        }),
{
    if len == 0 {
        Err(SidecarDefect::Empty)
    } else if counts.video == 0 && counts.audio == 1 {
        Ok(())
    } else {
        Err(SidecarDefect::UnexpectedTracks(counts))
    }
}

/// What the name of a sidecar in the cache is made from: a change of any part gives a new
/// file.
#[derive(Debug, PartialEq, Eq)]
pub struct SidecarKey {
    pub version: String,
    pub source: String,
    pub len: u64,
    pub modified_ns: Option<i128>,
    pub audio_track_id: String,
}

/// The key of the sidecar of one track. It does not depend on the other tracks that are
/// selected.
pub fn audio_track_sidecar_key(
    source: &str,
    len: u64,
    modified_ns: Option<i128>,
    audio_track_id: &str,
) -> (key: SidecarKey)
    ensures
        key.version@ == "audio-track-sidecar-v1"@,
        key.source@ == source@,
        key.len == len,
        key.modified_ns == modified_ns,
        key.audio_track_id@ == audio_track_id@,
{
    SidecarKey {
        version: "audio-track-sidecar-v1".to_string(),
        source: source.to_string(),
        len,
        modified_ns,
        audio_track_id: audio_track_id.to_string(),
    }
}

/// The file name of a sidecar, from the digest of its key.
pub fn audio_track_sidecar_name(digest: u64) -> (name: String)
    ensures
        name@ == "audio-preview-"@ + hex_fixed(digest as nat, 16) + ".mp4"@,
{
    let digits = hex_u64(digest);
    concat3("audio-preview-", digits.as_str(), ".mp4")
}

/// A sidecar that is to be extracted: the track, the file that it becomes, and the file that
/// it is written to first.
#[derive(Debug, PartialEq, Eq)]
pub struct AudioTrackSidecarOutput {
    pub audio_track_id: String,
    pub audio_stream_index: u32,
    pub final_path: String,
    pub tmp_path: String,
}

/// The arguments that extract one track, without video and metadata, as it is.
pub open spec fn sidecar_output_args(output: AudioTrackSidecarOutput) -> Seq<Seq<char>> {
    seq![
        "-map"@,
        "0:a:"@ + decimal(output.audio_stream_index as nat),
        "-vn"@,
        "-map_metadata"@,
        "-1"@,
        "-c:a"@,
        "copy"@,
        "-f"@,
        "mp4"@,
        output.tmp_path@,
    ]
}

/// The arguments that extract tracks of one clip, all in one run.
pub open spec fn sidecar_args(
    source: Seq<char>,
    outputs: Seq<AudioTrackSidecarOutput>,
) -> Seq<Seq<char>>
    decreases outputs.len(),
{
    if outputs.len() == 0 {
        seq!["-hide_banner"@, "-nostdin"@, "-y"@, "-i"@, source]
    } else {
        sidecar_args(source, outputs.drop_last()) + sidecar_output_args(outputs.last())
    }
}

/// The arguments of FFmpeg that write the sidecars of a clip.
pub fn ffmpeg_audio_sidecar_args(source: &str, outputs: &Vec<AudioTrackSidecarOutput>) -> (args:
    Vec<String>)
    ensures
        views(args@) == sidecar_args(source@, outputs@),
{
    let mut args: Vec<String> = Vec::new();
    args.push("-hide_banner".to_string());
    args.push("-nostdin".to_string());
    args.push("-y".to_string());
    args.push("-i".to_string());
    args.push(source.to_string());
    assert(views(args@) =~= sidecar_args(source@, outputs@.take(0)));
    let mut i: usize = 0;
    while i < outputs.len()
        invariant
            i <= outputs@.len(),
            views(args@) == sidecar_args(source@, outputs@.take(i as int)),
        decreases outputs@.len() - i,
    {
        let ghost before = args@;
        let output = &outputs[i];
        let stream = decimal_string(output.audio_stream_index as u64);
        args.push("-map".to_string());
        args.push(concat2("0:a:", stream.as_str()));
        args.push("-vn".to_string());
        args.push("-map_metadata".to_string());
        args.push("-1".to_string());
        args.push("-c:a".to_string());
        args.push("copy".to_string());
        args.push("-f".to_string());
        args.push("mp4".to_string());
        args.push(output.tmp_path.clone());
        proof {
            assert(outputs@.take(i + 1).drop_last() =~= outputs@.take(i as int));
            assert(outputs@.take(i + 1).last() == outputs@[i as int]);
            assert(views(args@) =~= views(before) + sidecar_output_args(outputs@[i as int]));
        }
        i += 1;
    }
    assert(outputs@.take(i as int) =~= outputs@);
    args
}

// ---------------------------------------------------------------------------
// Preparing the files
// ---------------------------------------------------------------------------

/// What is being done. A number is a place among the tracks up to `Naming` and from
/// `Rechecking` on, and a place among the missing files in between.
#[derive(Debug, Clone, Copy, PartialEq, Eq, Structural)]
pub enum SidecarPhase {
    Pruning,
    LookingUp(usize),
    Checking(usize),
    Refreshing(usize),
    Discarding(usize),
    Naming(usize),
    Clearing,
    Extracting,
    CheckingTemp(usize),
    LookingForWinner(usize),
    Publishing(usize),
    LookingAgain(usize),
    CheckingWinner(usize),
    DroppingTemp(usize),
    Withdrawing,
    CleaningUp,
    Rechecking(usize),
    RollingBack,
    PruningAgain,
    Allowing(usize),
    Finished,
}

/// What is to be done next.
#[derive(Debug, PartialEq, Eq)]
pub enum SidecarAction {
    /// Shrink the cache, but keep these files. Answered by `Done`.
    Prune(Vec<String>),
    /// Look whether there is such a file. Answered by `Found`.
    LookUp(String),
    /// Check that a file is a sidecar. Answered by `Came`.
    Check(String),
    /// Make a file the most recently used one. Answered by `Done`.
    Refresh(String),
    /// Remove these files, as far as they are there. Answered by `Done`.
    Remove(Vec<String>),
    /// Choose a file beside this one to write to first. Answered by `Named`.
    Name(String),
    /// Write the sidecars that are missing. Answered by `Came`.
    Extract,
    /// Rename a file. Answered by `Came`.
    Publish { tmp_path: String, final_path: String },
    /// Let the player read a file. Answered by `Came`.
    Allow(PreparedClipAudioSidecar),
    /// There is nothing left to do.
    Stop,
}

/// What came of an action.
#[derive(Debug, PartialEq, Eq)]
pub enum FileAnswer {
    Done,
    Found(bool),
    Came(Result<(), String>),
    Named(Result<String, String>),
}

/// Why no sidecars could be prepared.
#[derive(Debug, PartialEq, Eq)]
pub enum SidecarError {
    /// An action failed.
    Reported(String),
    /// The file that took the place of one that was to be published is no sidecar.
    Winner { path: String, error: String },
    /// A file could not be published.
    Publication { tmp_path: String, final_path: String, error: String },
}

/// The preparation of the sidecars of one clip. `finals` are the files of the tracks, and
/// `active` those that playback uses already. `reused` says of the tracks so far whether
/// their file was there; `missing` are the others. `created` are the files that this
/// preparation published.
#[derive(Debug, PartialEq, Eq)]
pub struct SidecarPreparation {
    pub tracks: Vec<ResolvedAudioTrackSidecar>,
    pub finals: Vec<String>,
    pub active: Vec<String>,
    pub phase: SidecarPhase,
    pub reused: Vec<bool>,
    pub missing: Vec<AudioTrackSidecarOutput>,
    pub created: Vec<String>,
    pub failure: Option<SidecarError>,
}

/// What a preparation is for.
pub ghost struct SidecarJob {
    pub tracks: Seq<ResolvedAudioTrackSidecar>,
    pub finals: Seq<String>,
    pub active: Seq<String>,
}

/// How far a preparation has come.
pub ghost struct SidecarProgress {
    pub phase: SidecarPhase,
    pub reused: Seq<bool>,
    pub missing: Seq<AudioTrackSidecarOutput>,
    pub created: Seq<String>,
    pub failure: Option<SidecarError>,
}

/// The places of the tracks whose file has to be made.
pub open spec fn unresolved(reused: Seq<bool>) -> Seq<int>
    decreases reused.len(),
{
    if reused.len() == 0 {
        Seq::empty()
    } else if reused.last() {
        unresolved(reused.drop_last())
    } else {
        unresolved(reused.drop_last()).push(reused.len() - 1)
    }
}

/// The phase after the tracks before `i` were looked up.
pub open spec fn lookup_phase(job: SidecarJob, i: int, nothing_missing: bool) -> SidecarPhase {
    if i < job.tracks.len() {
        SidecarPhase::LookingUp(i as usize)
    } else if nothing_missing {
        SidecarPhase::PruningAgain
    } else {
        SidecarPhase::Clearing
    }
}

/// The phase after the files of the tracks before `i` were checked again: that of the next
/// track whose file was made.
pub open spec fn recheck_phase(reused: Seq<bool>, i: int) -> SidecarPhase
    decreases reused.len() - i,
{
    if i >= reused.len() {
        SidecarPhase::PruningAgain
    } else if !reused[i] {
        SidecarPhase::Rechecking(i as usize)
    } else {
        recheck_phase(reused, i + 1)
    }
}

/// The phase after the first `k` missing files were published.
pub open spec fn publish_phase(p: SidecarProgress, k: int) -> SidecarPhase {
    if k < p.missing.len() {
        SidecarPhase::LookingForWinner(k as usize)
    } else {
        recheck_phase(p.reused, 0)
    }
}

pub open spec fn fails(p: SidecarProgress, phase: SidecarPhase, error: SidecarError) -> SidecarProgress {
    SidecarProgress { phase, failure: Some(error), ..p }
}

/// Whether an answer is one to the action of a phase.
pub open spec fn answer_fits(phase: SidecarPhase, answer: FileAnswer) -> bool {
    match phase {
        SidecarPhase::LookingUp(_) | SidecarPhase::LookingForWinner(_)
        | SidecarPhase::LookingAgain(_) => answer is Found,
        SidecarPhase::Checking(_) | SidecarPhase::Extracting | SidecarPhase::CheckingTemp(_)
        | SidecarPhase::Publishing(_) | SidecarPhase::CheckingWinner(_)
        | SidecarPhase::Rechecking(_) | SidecarPhase::Allowing(_) => answer is Came,
        SidecarPhase::Naming(_) => answer is Named,
        SidecarPhase::Finished => false,
        _ => answer is Done,
    }
}

/// How far a preparation has come after an answer.
pub open spec fn after_answer(
    job: SidecarJob,
    p: SidecarProgress,
    answer: FileAnswer,
) -> SidecarProgress {
    let to = |phase: SidecarPhase| SidecarProgress { phase, ..p };
    match p.phase {
        SidecarPhase::Pruning => to(lookup_phase(job, 0, true)),
        SidecarPhase::LookingUp(i) => to(
            if answer->Found_0 {
                SidecarPhase::Checking(i)
            } else {
                SidecarPhase::Naming(i)
            },
        ),
        SidecarPhase::Checking(i) => to(
            if answer->Came_0 is Ok {
                SidecarPhase::Refreshing(i)
            } else {
                SidecarPhase::Discarding(i)
            },
        ),
        SidecarPhase::Refreshing(i) => SidecarProgress {
            phase: lookup_phase(job, i + 1, p.missing.len() == 0),
            reused: p.reused.push(true),
            ..p
        },
        SidecarPhase::Discarding(i) => to(SidecarPhase::Naming(i)),
        SidecarPhase::Naming(i) => match answer->Named_0 {
            Err(error) => fails(p, SidecarPhase::Finished, SidecarError::Reported(error)),
            Ok(tmp_path) => SidecarProgress {
                phase: lookup_phase(job, i + 1, false),
                reused: p.reused.push(false),
                missing: p.missing.push(
                    (AudioTrackSidecarOutput {
                        audio_track_id: job.tracks[i as int].audio_track_id,
                        audio_stream_index: job.tracks[i as int].audio_stream_index,
                        final_path: job.finals[i as int],
                        tmp_path,
                    }),
                ),
                ..p
            },
        },
        SidecarPhase::Clearing => to(SidecarPhase::Extracting),
        SidecarPhase::Extracting => match answer->Came_0 {
            Err(error) => fails(p, SidecarPhase::CleaningUp, SidecarError::Reported(error)),
            Ok(_) => to(SidecarPhase::CheckingTemp(0)),
        },
        SidecarPhase::CheckingTemp(k) => match answer->Came_0 {
            Err(error) => fails(p, SidecarPhase::CleaningUp, SidecarError::Reported(error)),
            Ok(_) => to(
                if k + 1 < p.missing.len() {
                    SidecarPhase::CheckingTemp((k + 1) as usize)
                } else {
                    SidecarPhase::LookingForWinner(0)
                },
            ),
        },
        SidecarPhase::LookingForWinner(k) => to(
            if answer->Found_0 {
                SidecarPhase::CheckingWinner(k)
            } else {
                SidecarPhase::Publishing(k)
            },
        ),
        SidecarPhase::Publishing(k) => match answer->Came_0 {
            Ok(_) => SidecarProgress {
                phase: publish_phase(p, k + 1),
                created: p.created.push(p.missing[k as int].final_path),
                ..p
            },
            Err(error) => fails(
                p,
                SidecarPhase::LookingAgain(k),
                SidecarError::Publication {
                    tmp_path: p.missing[k as int].tmp_path,
                    final_path: p.missing[k as int].final_path,
                    error,
                },
            ),
        },
        SidecarPhase::LookingAgain(k) => if answer->Found_0 {
            SidecarProgress { phase: SidecarPhase::CheckingWinner(k), failure: None, ..p }
        } else {
            to(SidecarPhase::Withdrawing)
        },
        SidecarPhase::CheckingWinner(k) => match answer->Came_0 {
            Ok(_) => to(SidecarPhase::DroppingTemp(k)),
            Err(error) => fails(
                p,
                SidecarPhase::Withdrawing,
                SidecarError::Winner { path: p.missing[k as int].final_path, error },
            ),
        },
        SidecarPhase::DroppingTemp(k) => to(publish_phase(p, k + 1)),
        SidecarPhase::Withdrawing => to(SidecarPhase::CleaningUp),
        SidecarPhase::CleaningUp => to(SidecarPhase::Finished),
        SidecarPhase::Rechecking(i) => match answer->Came_0 {
            Ok(_) => to(recheck_phase(p.reused, i + 1)),
            Err(error) => fails(p, SidecarPhase::RollingBack, SidecarError::Reported(error)),
        },
        SidecarPhase::RollingBack => to(SidecarPhase::Finished),
        SidecarPhase::PruningAgain => to(
            if job.tracks.len() > 0 {
                SidecarPhase::Allowing(0)
            } else {
                SidecarPhase::Finished
            },
        ),
        SidecarPhase::Allowing(i) => match answer->Came_0 {
            Err(error) => fails(p, SidecarPhase::RollingBack, SidecarError::Reported(error)),
            Ok(_) => to(
                if i + 1 < job.tracks.len() {
                    SidecarPhase::Allowing((i + 1) as usize)
                } else {
                    SidecarPhase::Finished
                },
            ),
        },
        SidecarPhase::Finished => p,
    }
}

/// Each missing file is that of a track whose file was not there, in order.
pub open spec fn missing_match(job: SidecarJob, p: SidecarProgress) -> bool {
    let places = unresolved(p.reused);
    &&& p.missing.len() == places.len()
    &&& forall|k: int|
        0 <= k < places.len() ==> {
            let place = #[trigger] places[k];
            &&& 0 <= place < p.reused.len()
            &&& p.missing[k].audio_track_id == job.tracks[place].audio_track_id
            &&& p.missing[k].audio_stream_index == job.tracks[place].audio_stream_index
            &&& p.missing[k].final_path == job.finals[place]
        }
}

/// A state that a preparation can be in.
pub open spec fn progress_wf(job: SidecarJob, p: SidecarProgress) -> bool {
    let n = job.tracks.len();
    &&& job.finals.len() == n
    &&& n <= usize::MAX
    &&& p.reused.len() <= n
    &&& missing_match(job, p)
    &&& match p.phase {
        SidecarPhase::Pruning => p.reused.len() == 0,
        SidecarPhase::LookingUp(i) | SidecarPhase::Checking(i) | SidecarPhase::Refreshing(i)
        | SidecarPhase::Discarding(i) | SidecarPhase::Naming(i) => i < n && p.reused.len() == i,
        SidecarPhase::Clearing | SidecarPhase::Extracting => p.reused.len() == n
            && p.missing.len() > 0,
        SidecarPhase::CheckingTemp(k) | SidecarPhase::LookingForWinner(k)
        | SidecarPhase::Publishing(k) | SidecarPhase::LookingAgain(k)
        | SidecarPhase::CheckingWinner(k) | SidecarPhase::DroppingTemp(k) => p.reused.len() == n
            && k < p.missing.len(),
        SidecarPhase::Rechecking(i) => p.reused.len() == n && i < n && !p.reused[i as int],
        SidecarPhase::PruningAgain => p.reused.len() == n,
        SidecarPhase::Allowing(i) => p.reused.len() == n && i < n,
        SidecarPhase::Finished => p.failure is None ==> p.reused.len() == n,
        _ => p.failure is Some && p.reused.len() == n,
    }
    &&& match p.phase {
        SidecarPhase::Withdrawing | SidecarPhase::CleaningUp | SidecarPhase::RollingBack
        | SidecarPhase::LookingAgain(_) => p.failure is Some,
        SidecarPhase::Finished => true,
        _ => p.failure is None,
    }
    &&& match p.phase {
        SidecarPhase::Pruning | SidecarPhase::LookingUp(_) | SidecarPhase::Checking(_)
        | SidecarPhase::Refreshing(_) | SidecarPhase::Discarding(_) | SidecarPhase::Naming(_)
        | SidecarPhase::Clearing | SidecarPhase::Extracting | SidecarPhase::CheckingTemp(_) =>
        p.created.len() == 0,
        _ => true,
    }
}

/// Where a preparation starts.
pub open spec fn sidecar_start() -> SidecarProgress {
    SidecarProgress {
        phase: SidecarPhase::Pruning,
        reused: Seq::empty(),
        missing: Seq::empty(),
        created: Seq::empty(),
        failure: None,
    }
}

proof fn lemma_recheck_phase(reused: Seq<bool>, i: int)
    requires
        0 <= i,
        reused.len() <= usize::MAX,
    ensures
        recheck_phase(reused, i) matches SidecarPhase::Rechecking(at) ==> i <= at < reused.len()
            && !reused[at as int],
        recheck_phase(reused, i) is Rechecking || recheck_phase(reused, i) is PruningAgain,
    decreases reused.len() - i,
{
    if i < reused.len() && reused[i] {
        lemma_recheck_phase(reused, i + 1);
    }
}

proof fn lemma_unresolved_step(reused: Seq<bool>, last: bool)
    ensures
        unresolved(reused.push(last)) == (if last {
            unresolved(reused)
        } else {
            unresolved(reused).push(reused.len() as int)
        }),
{
    assert(reused.push(last).drop_last() =~= reused);
}

/// Every answer leads from a state that a preparation can be in to another.
proof fn lemma_after_answer_wf(job: SidecarJob, p: SidecarProgress, answer: FileAnswer)
    requires
        progress_wf(job, p),
        answer_fits(p.phase, answer),
    ensures
        progress_wf(job, after_answer(job, p, answer)),
{
    let next = after_answer(job, p, answer);
    lemma_recheck_phase(p.reused, 0);
    match p.phase {
        SidecarPhase::Refreshing(i) => {
            lemma_unresolved_step(p.reused, true);
            assert(missing_match(job, next));
        },
        SidecarPhase::Naming(i) => {
            lemma_unresolved_step(p.reused, false);
            assert(missing_match(job, next));
        },
        SidecarPhase::Rechecking(i) => {
            lemma_recheck_phase(p.reused, i + 1);
        },
        _ => {},
    }
}

/// The files that missing sidecars are written to first.
pub open spec fn temps(missing: Seq<AudioTrackSidecarOutput>) -> Seq<String> {
    missing.map_values(|output: AudioTrackSidecarOutput| output.tmp_path)
}

/// The files that are to be removed in a phase.
pub open spec fn removed_in(job: SidecarJob, p: SidecarProgress) -> Seq<String> {
    match p.phase {
        SidecarPhase::Discarding(i) => seq![job.finals[i as int]],
        SidecarPhase::Clearing | SidecarPhase::CleaningUp => temps(p.missing),
        SidecarPhase::DroppingTemp(k) => seq![p.missing[k as int].tmp_path],
        SidecarPhase::Withdrawing | SidecarPhase::RollingBack => p.created,
        _ => Seq::empty(),
    }
}

/// Whether `action` is what is to be done next.
pub open spec fn is_action(job: SidecarJob, p: SidecarProgress, action: SidecarAction) -> bool {
    match p.phase {
        SidecarPhase::Pruning | SidecarPhase::PruningAgain => action is Prune && action->Prune_0@
            == job.active + job.finals,
        SidecarPhase::LookingUp(i) => action == SidecarAction::LookUp(job.finals[i as int]),
        SidecarPhase::Checking(i) | SidecarPhase::Rechecking(i) => action == SidecarAction::Check(
            job.finals[i as int],
        ),
        SidecarPhase::Refreshing(i) => action == SidecarAction::Refresh(job.finals[i as int]),
        SidecarPhase::Naming(i) => action == SidecarAction::Name(job.finals[i as int]),
        SidecarPhase::Extracting => action == SidecarAction::Extract,
        SidecarPhase::CheckingTemp(k) => action == SidecarAction::Check(
            p.missing[k as int].tmp_path,
        ),
        SidecarPhase::LookingForWinner(k) | SidecarPhase::LookingAgain(k) => action
            == SidecarAction::LookUp(p.missing[k as int].final_path),
        SidecarPhase::CheckingWinner(k) => action == SidecarAction::Check(
            p.missing[k as int].final_path,
        ),
        SidecarPhase::Publishing(k) => action == (SidecarAction::Publish {
            tmp_path: p.missing[k as int].tmp_path,
            final_path: p.missing[k as int].final_path,
        }),
        SidecarPhase::Allowing(i) => action == SidecarAction::Allow(
            (PreparedClipAudioSidecar {
                audio_track_id: job.tracks[i as int].audio_track_id,
                path: job.finals[i as int],
            }),
        ),
        SidecarPhase::Finished => action == SidecarAction::Stop,
        _ => action is Remove && action->Remove_0@ == removed_in(job, p),
    }
}

/// The sidecars of the tracks, in order.
pub open spec fn are_sidecars_of(job: SidecarJob, sidecars: Seq<PreparedClipAudioSidecar>) -> bool {
    &&& sidecars.len() == job.tracks.len()
    &&& forall|i: int|
        0 <= i < sidecars.len() ==> (#[trigger] sidecars[i]) == (PreparedClipAudioSidecar {
            audio_track_id: job.tracks[i].audio_track_id,
            path: job.finals[i],
        })
}

fn one(path: &String) -> (paths: Vec<String>)
    ensures
        paths@ == seq![*path],
{
    let mut paths: Vec<String> = Vec::new();
    paths.push(path.clone());
    paths
}

fn temp_paths(missing: &Vec<AudioTrackSidecarOutput>) -> (paths: Vec<String>)
    ensures
        paths@ == temps(missing@),
{
    let mut paths: Vec<String> = Vec::new();
    let mut k: usize = 0;
    while k < missing.len()
        invariant
            k <= missing@.len(),
            paths@ == temps(missing@.take(k as int)),
        decreases missing@.len() - k,
    {
        paths.push(missing[k].tmp_path.clone());
        k += 1;
        assert(temps(missing@.take(k as int)) =~= temps(missing@.take(k - 1)).push(
            missing@[k - 1].tmp_path,
        ));
    }
    assert(missing@.take(k as int) =~= missing@);
    paths
}

fn find_recheck(reused: &Vec<bool>, from: usize) -> (phase: SidecarPhase)
    ensures
        phase == recheck_phase(reused@, from as int),
{
    let mut i: usize = from;
    while i < reused.len()
        invariant
            recheck_phase(reused@, i as int) == recheck_phase(reused@, from as int),
        decreases reused@.len() - i,
    {
        if !reused[i] {
            return SidecarPhase::Rechecking(i);
        }
        i += 1;
    }
    SidecarPhase::PruningAgain
}

impl SidecarPreparation {
    pub open spec fn job(self) -> SidecarJob {
        SidecarJob { tracks: self.tracks@, finals: self.finals@, active: self.active@ }
    }

    pub open spec fn progress(self) -> SidecarProgress {
        SidecarProgress {
            phase: self.phase,
            reused: self.reused@,
            missing: self.missing@,
            created: self.created@,
            failure: self.failure,
        }
    }

    pub open spec fn wf(self) -> bool {
        progress_wf(self.job(), self.progress())
    }

    /// Starts the preparation of the sidecars of `tracks`, whose files are `finals`.
    pub fn begin(
        tracks: Vec<ResolvedAudioTrackSidecar>,
        finals: Vec<String>,
        active: Vec<String>,
    ) -> (preparation: SidecarPreparation)
        requires
            finals@.len() == tracks@.len(),
        ensures
            preparation.wf(),
            preparation.job() == (SidecarJob {
                tracks: tracks@,
                finals: finals@,
                active: active@,
            }),
            preparation.progress() == sidecar_start(),
    {
        let count: usize = tracks.len();
        let preparation = SidecarPreparation {
            tracks,
            finals,
            active,
            phase: SidecarPhase::Pruning,
            reused: Vec::new(),
            missing: Vec::new(),
            created: Vec::new(),
            failure: None,
        };
        assert(preparation.progress().reused =~= Seq::<bool>::empty());
        assert(preparation.progress().missing =~= Seq::<AudioTrackSidecarOutput>::empty());
        assert(preparation.progress().created =~= Seq::<String>::empty());
        assert(count == tracks@.len());
        preparation
    }

    /// What is to be done next.
    pub fn action(&self) -> (action: SidecarAction)
        requires
            self.wf(),
        ensures
            is_action(self.job(), self.progress(), action),
    {
        match self.phase {
            SidecarPhase::Pruning | SidecarPhase::PruningAgain => {
                let mut paths = clone_strings(&self.active);
                let mut finals = clone_strings(&self.finals);
                paths.append(&mut finals);
                SidecarAction::Prune(paths)
            },
            SidecarPhase::LookingUp(i) => SidecarAction::LookUp(self.finals[i].clone()),
            SidecarPhase::Checking(i) | SidecarPhase::Rechecking(i) => SidecarAction::Check(
                self.finals[i].clone(),
            ),
            SidecarPhase::Refreshing(i) => SidecarAction::Refresh(self.finals[i].clone()),
            SidecarPhase::Discarding(i) => SidecarAction::Remove(one(&self.finals[i])),
            SidecarPhase::Naming(i) => SidecarAction::Name(self.finals[i].clone()),
            SidecarPhase::Clearing | SidecarPhase::CleaningUp => SidecarAction::Remove(
                temp_paths(&self.missing),
            ),
            SidecarPhase::Extracting => SidecarAction::Extract,
            SidecarPhase::CheckingTemp(k) => SidecarAction::Check(
                self.missing[k].tmp_path.clone(),
            ),
            SidecarPhase::LookingForWinner(k) | SidecarPhase::LookingAgain(k) =>
            SidecarAction::LookUp(self.missing[k].final_path.clone()),
            SidecarPhase::CheckingWinner(k) => SidecarAction::Check(
                self.missing[k].final_path.clone(),
            ),
            SidecarPhase::DroppingTemp(k) => SidecarAction::Remove(one(&self.missing[k].tmp_path)),
            SidecarPhase::Publishing(k) => SidecarAction::Publish {
                tmp_path: self.missing[k].tmp_path.clone(),
                final_path: self.missing[k].final_path.clone(),
            },
            SidecarPhase::Withdrawing | SidecarPhase::RollingBack => SidecarAction::Remove(
                clone_strings(&self.created),
            ),
            SidecarPhase::Allowing(i) => SidecarAction::Allow(
                PreparedClipAudioSidecar {
                    audio_track_id: self.tracks[i].audio_track_id.clone(),
                    path: self.finals[i].clone(),
                },
            ),
            SidecarPhase::Finished => SidecarAction::Stop,
        }
    }

    fn after_lookup(&mut self, next: usize)
        requires
            next <= old(self).tracks@.len(),
        ensures
            final(self).job() == old(self).job(),
            final(self).progress() == (SidecarProgress {
                phase: lookup_phase(
                    old(self).job(),
                    next as int,
                    old(self).missing@.len() == 0,
                ),
                ..old(self).progress()
            }),
    {
        self.phase = if next < self.tracks.len() {
            SidecarPhase::LookingUp(next)
        } else if self.missing.len() == 0 {
            SidecarPhase::PruningAgain
        } else {
            SidecarPhase::Clearing
        };
    }

    fn after_publish(&mut self, at: usize)
        requires
            at < old(self).missing@.len(),
        ensures
            final(self).job() == old(self).job(),
            final(self).progress() == (SidecarProgress {
                phase: publish_phase(old(self).progress(), at + 1),
                ..old(self).progress()
            }),
    {
        let count: usize = self.missing.len();
        self.phase = if at + 1 < count {
            SidecarPhase::LookingForWinner(at + 1)
        } else {
            find_recheck(&self.reused, 0)
        };
    }

    fn fail(&mut self, phase: SidecarPhase, error: SidecarError)
        ensures
            final(self).job() == old(self).job(),
            final(self).progress() == fails(old(self).progress(), phase, error),
    {
        self.phase = phase;
        self.failure = Some(error);
    }

    /// Takes the answer to the action that was due.
    pub fn answered(&mut self, answer: FileAnswer)
        requires
            old(self).wf(),
            answer_fits(old(self).phase, answer),
        ensures
            final(self).wf(),
            final(self).job() == old(self).job(),
            final(self).progress() == after_answer(old(self).job(), old(self).progress(), answer),
    {
        proof {
            lemma_after_answer_wf(self.job(), self.progress(), answer);
        }
        match self.phase {
            SidecarPhase::Pruning => {
                self.after_lookup(0);
            },
            SidecarPhase::LookingUp(i) => {
                if let FileAnswer::Found(found) = answer {
                    self.phase = if found {
                        SidecarPhase::Checking(i)
                    } else {
                        SidecarPhase::Naming(i)
                    };
                }
            },
            SidecarPhase::Checking(i) => {
                if let FileAnswer::Came(res) = answer {
                    self.phase = match res {
                        Ok(_) => SidecarPhase::Refreshing(i),
                        Err(_) => SidecarPhase::Discarding(i),
                    };
                }
            },
            SidecarPhase::Refreshing(i) => {
                self.reused.push(true);
                self.after_lookup(i + 1);
            },
            SidecarPhase::Discarding(i) => {
                self.phase = SidecarPhase::Naming(i);
            },
            SidecarPhase::Naming(i) => {
                if let FileAnswer::Named(res) = answer {
                    match res {
                        Err(error) => {
                            self.fail(SidecarPhase::Finished, SidecarError::Reported(error));
                        },
                        Ok(tmp_path) => {
                            let output = AudioTrackSidecarOutput {
                                audio_track_id: self.tracks[i].audio_track_id.clone(),
                                audio_stream_index: self.tracks[i].audio_stream_index,
                                final_path: self.finals[i].clone(),
                                tmp_path,
                            };
                            self.reused.push(false);
                            self.missing.push(output);
                            self.after_lookup(i + 1);
                        },
                    }
                }
            },
            SidecarPhase::Clearing => {
                self.phase = SidecarPhase::Extracting;
            },
            SidecarPhase::Extracting => {
                if let FileAnswer::Came(res) = answer {
                    match res {
                        Err(error) => {
                            self.fail(SidecarPhase::CleaningUp, SidecarError::Reported(error));
                        },
                        Ok(_) => {
                            self.phase = SidecarPhase::CheckingTemp(0);
                        },
                    }
                }
            },
            SidecarPhase::CheckingTemp(k) => {
                if let FileAnswer::Came(res) = answer {
                    match res {
                        Err(error) => {
                            self.fail(SidecarPhase::CleaningUp, SidecarError::Reported(error));
                        },
                        Ok(_) => {
                            let count: usize = self.missing.len();
                            self.phase = if k + 1 < count {
                                SidecarPhase::CheckingTemp(k + 1)
                            } else {
                                SidecarPhase::LookingForWinner(0)
                            };
                        },
                    }
                }
            },
            SidecarPhase::LookingForWinner(k) => {
                if let FileAnswer::Found(found) = answer {
                    self.phase = if found {
                        SidecarPhase::CheckingWinner(k)
                    } else {
                        SidecarPhase::Publishing(k)
                    };
                }
            },
            SidecarPhase::Publishing(k) => {
                if let FileAnswer::Came(res) = answer {
                    let final_path = self.missing[k].final_path.clone();
                    match res {
                        Ok(_) => {
                            self.created.push(final_path);
                            self.after_publish(k);
                        },
                        Err(error) => {
                            let tmp_path = self.missing[k].tmp_path.clone();
                            self.fail(
                                SidecarPhase::LookingAgain(k),
                                SidecarError::Publication { tmp_path, final_path, error },
                            );
                        },
                    }
                }
            },
            SidecarPhase::LookingAgain(k) => {
                if let FileAnswer::Found(found) = answer {
                    if found {
                        self.failure = None;
                        self.phase = SidecarPhase::CheckingWinner(k);
                    } else {
                        self.phase = SidecarPhase::Withdrawing;
                    }
                }
            },
            SidecarPhase::CheckingWinner(k) => {
                if let FileAnswer::Came(res) = answer {
                    match res {
                        Ok(_) => {
                            self.phase = SidecarPhase::DroppingTemp(k);
                        },
                        Err(error) => {
                            let path = self.missing[k].final_path.clone();
                            self.fail(
                                SidecarPhase::Withdrawing,
                                SidecarError::Winner { path, error },
                            );
                        },
                    }
                }
            },
            SidecarPhase::DroppingTemp(k) => {
                self.after_publish(k);
            },
            SidecarPhase::Withdrawing => {
                self.phase = SidecarPhase::CleaningUp;
            },
            SidecarPhase::CleaningUp | SidecarPhase::RollingBack => {
                self.phase = SidecarPhase::Finished;
            },
            SidecarPhase::Rechecking(i) => {
                if let FileAnswer::Came(res) = answer {
                    match res {
                        Ok(_) => {
                            self.phase = find_recheck(&self.reused, i + 1);
                        },
                        Err(error) => {
                            self.fail(SidecarPhase::RollingBack, SidecarError::Reported(error));
                        },
                    }
                }
            },
            SidecarPhase::PruningAgain => {
                self.phase = if self.tracks.len() > 0 {
                    SidecarPhase::Allowing(0)
                } else {
                    SidecarPhase::Finished
                };
            },
            SidecarPhase::Allowing(i) => {
                if let FileAnswer::Came(res) = answer {
                    match res {
                        Err(error) => {
                            self.fail(SidecarPhase::RollingBack, SidecarError::Reported(error));
                        },
                        Ok(_) => {
                            let count: usize = self.tracks.len();
                            self.phase = if i + 1 < count {
                                SidecarPhase::Allowing(i + 1)
                            } else {
                                SidecarPhase::Finished
                            };
                        },
                    }
                }
            },
            SidecarPhase::Finished => {},
        }
    }

    /// What came of the preparation, once it is finished: the sidecars in the order of the
    /// tracks, or why there are none.
    pub fn result(self) -> (res: Result<Vec<PreparedClipAudioSidecar>, SidecarError>)
        requires
            self.wf(),
            self.phase == SidecarPhase::Finished,
        ensures
            match self.failure {
                Some(error) => res == Err::<Vec<PreparedClipAudioSidecar>, SidecarError>(error),
                None => res is Ok && are_sidecars_of(self.job(), res->Ok_0@),
            },
    {
        match self.failure {
            Some(error) => Err(error),
            None => {
                let mut sidecars: Vec<PreparedClipAudioSidecar> = Vec::new();
                let tracks = self.tracks;
                let finals = self.finals;
                let mut i: usize = 0;
                while i < tracks.len()
                    invariant
                        i <= tracks@.len(),
                        finals@.len() == tracks@.len(),
                        sidecars@.len() == i,
                        forall|k: int|
                            0 <= k < i ==> (#[trigger] sidecars@[k]) == (PreparedClipAudioSidecar {
                                audio_track_id: tracks@[k].audio_track_id,
                                path: finals@[k],
                            }),
                    decreases tracks@.len() - i,
                {
                    sidecars.push(
                        PreparedClipAudioSidecar {
                            audio_track_id: tracks[i].audio_track_id.clone(),
                            path: finals[i].clone(),
                        },
                    );
                    i += 1;
                }
                Ok(sidecars)
            },
        }
    }
}

// ---------------------------------------------------------------------------
// Whole preparations
// ---------------------------------------------------------------------------

/// How far a preparation has come after these answers.
pub open spec fn sidecar_run(job: SidecarJob, answers: Seq<FileAnswer>) -> SidecarProgress
    decreases answers.len(),
{
    if answers.len() == 0 {
        sidecar_start()
    } else {
        after_answer(job, sidecar_run(job, answers.drop_last()), answers.last())
    }
}

/// Whether each answer is one to the action that was due.
pub open spec fn answers_fit(job: SidecarJob, answers: Seq<FileAnswer>) -> bool
    decreases answers.len(),
{
    answers.len() > 0 ==> answers_fit(job, answers.drop_last()) && answer_fits(
        sidecar_run(job, answers.drop_last()).phase,
        answers.last(),
    )
}

/// The file that an answer published.
pub open spec fn published_by(p: SidecarProgress, answer: FileAnswer) -> Set<String> {
    match p.phase {
        SidecarPhase::Publishing(k) if answer->Came_0 is Ok => set![
            p.missing[k as int].final_path,
        ],
        _ => Set::empty(),
    }
}

/// The files that a preparation published.
pub open spec fn published(job: SidecarJob, answers: Seq<FileAnswer>) -> Set<String>
    decreases answers.len(),
{
    if answers.len() == 0 {
        Set::empty()
    } else {
        published(job, answers.drop_last()).union(
            published_by(sidecar_run(job, answers.drop_last()), answers.last()),
        )
    }
}

/// The files that a preparation published and did not remove again.
pub open spec fn standing(job: SidecarJob, answers: Seq<FileAnswer>) -> Set<String>
    decreases answers.len(),
{
    if answers.len() == 0 {
        Set::empty()
    } else {
        let p = sidecar_run(job, answers.drop_last());
        standing(job, answers.drop_last()).difference(removed_in(job, p).to_set()).union(
            published_by(p, answers.last()),
        )
    }
}

/// The tracks whose file was found to be a sidecar.
pub open spec fn checked_tracks(job: SidecarJob, answers: Seq<FileAnswer>) -> Set<int>
    decreases answers.len(),
{
    if answers.len() == 0 {
        Set::empty()
    } else {
        let before = checked_tracks(job, answers.drop_last());
        match sidecar_run(job, answers.drop_last()).phase {
            SidecarPhase::Checking(i) | SidecarPhase::Rechecking(i) => if answers.last()->Came_0
                is Ok {
                before.insert(i as int)
            } else {
                before
            },
            _ => before,
        }
    }
}

/// Every preparation stays among the states that it can be in.
pub proof fn law_preparation_stays_well_formed(job: SidecarJob, answers: Seq<FileAnswer>)
    requires
        job.finals.len() == job.tracks.len(),
        job.tracks.len() <= usize::MAX,
        answers_fit(job, answers),
    ensures
        progress_wf(job, sidecar_run(job, answers)),
    decreases answers.len(),
{
    if answers.len() > 0 {
        law_preparation_stays_well_formed(job, answers.drop_last());
        lemma_after_answer_wf(job, sidecar_run(job, answers.drop_last()), answers.last());
    }
}

proof fn lemma_standing(job: SidecarJob, answers: Seq<FileAnswer>)
    requires
        job.finals.len() == job.tracks.len(),
        job.tracks.len() <= usize::MAX,
        answers_fit(job, answers),
    ensures
        standing(job, answers).subset_of(sidecar_run(job, answers).created.to_set()),
        sidecar_run(job, answers).created.to_set().subset_of(published(job, answers)),
        sidecar_run(job, answers).phase is CleaningUp ==> standing(job, answers).is_empty(),
        sidecar_run(job, answers).phase is Finished && sidecar_run(job, answers).failure is Some
            ==> standing(job, answers).is_empty(),
    decreases answers.len(),
{
    if answers.len() > 0 {
        let before = answers.drop_last();
        let p = sidecar_run(job, before);
        let next = sidecar_run(job, answers);
        lemma_standing(job, before);
        law_preparation_stays_well_formed(job, before);
        law_preparation_stays_well_formed(job, answers);
        lemma_recheck_phase(p.reused, 0);
        match p.phase {
            SidecarPhase::Publishing(k) => {
                let path = p.missing[k as int].final_path;
                if answers.last()->Came_0 is Ok {
                    assert(next.created == p.created.push(path));
                    assert forall|x: String| next.created.to_set().contains(x) implies published(
                        job,
                        answers,
                    ).contains(x) by {
                        if x != path {
                            let at = choose|at: int|
                                0 <= at < next.created.len() && next.created[at] == x;
                            assert(p.created[at] == x);
                            assert(p.created.to_set().contains(x));
                        }
                    }
                    assert forall|x: String| standing(job, answers).contains(x) implies
                        next.created.to_set().contains(x) by {
                        if x == path {
                            assert(next.created.last() == x);
                        } else {
                            assert(p.created.to_set().contains(x));
                            let at = choose|at: int| 0 <= at < p.created.len() && p.created[at] == x;
                            assert(next.created[at] == x);
                        }
                    }
                }
            },
            SidecarPhase::Rechecking(i) => {
                lemma_recheck_phase(p.reused, i + 1);
            },
            _ => {},
        }
    }
}

/// A preparation that fails leaves none of the files that it published.
pub proof fn law_failure_leaves_nothing_published(job: SidecarJob, answers: Seq<FileAnswer>)
    requires
        job.finals.len() == job.tracks.len(),
        job.tracks.len() <= usize::MAX,
        answers_fit(job, answers),
        sidecar_run(job, answers).phase is Finished,
        sidecar_run(job, answers).failure is Some,
    ensures
        standing(job, answers).is_empty(),
{
    lemma_standing(job, answers);
}

/// What is taken back after a failure was published by this preparation: a file that
/// another one put in its place stays.
pub proof fn law_only_own_files_are_taken_back(job: SidecarJob, answers: Seq<FileAnswer>)
    requires
        job.finals.len() == job.tracks.len(),
        job.tracks.len() <= usize::MAX,
        answers_fit(job, answers),
        sidecar_run(job, answers).phase is Withdrawing || sidecar_run(job, answers).phase
            is RollingBack,
    ensures
        removed_in(job, sidecar_run(job, answers)).to_set().subset_of(published(job, answers)),
{
    lemma_standing(job, answers);
}

/// The tracks whose file has been checked by a phase.
pub open spec fn checked_by(p: SidecarProgress, i: int) -> bool {
    &&& 0 <= i < p.reused.len()
    &&& p.reused[i] || match p.phase {
        SidecarPhase::Rechecking(at) => i < at,
        SidecarPhase::PruningAgain | SidecarPhase::Allowing(_) => true,
        SidecarPhase::Finished => p.failure is None,
        _ => false,
    }
}

proof fn lemma_recheck_skips(reused: Seq<bool>, from: int, i: int)
    requires
        0 <= from,
        reused.len() <= usize::MAX,
        from <= i < reused.len(),
        recheck_phase(reused, from) matches SidecarPhase::Rechecking(at) ==> i < at,
    ensures
        reused[i],
    decreases reused.len() - from,
{
    if reused[from] && from < i {
        lemma_recheck_phase(reused, from + 1);
        lemma_recheck_skips(reused, from + 1, i);
    }
}

proof fn lemma_all_resolved(reused: Seq<bool>, i: int)
    requires
        unresolved(reused).len() == 0,
        0 <= i < reused.len(),
    ensures
        reused[i],
    decreases reused.len(),
{
    if i < reused.len() - 1 {
        lemma_all_resolved(reused.drop_last(), i);
    }
}

proof fn lemma_checked(job: SidecarJob, answers: Seq<FileAnswer>, i: int)
    requires
        job.finals.len() == job.tracks.len(),
        job.tracks.len() <= usize::MAX,
        answers_fit(job, answers),
    ensures
        checked_by(sidecar_run(job, answers), i) ==> checked_tracks(job, answers).contains(i),
        sidecar_run(job, answers).phase == SidecarPhase::Refreshing(i as usize) && 0 <= i
            <= usize::MAX ==> checked_tracks(job, answers).contains(i),
    decreases answers.len(),
{
    if answers.len() > 0 {
        let before = answers.drop_last();
        let p = sidecar_run(job, before);
        let next = sidecar_run(job, answers);
        lemma_checked(job, before, i);
        law_preparation_stays_well_formed(job, before);
        law_preparation_stays_well_formed(job, answers);
        if checked_by(next, i) && !next.reused[i] {
            match p.phase {
                SidecarPhase::Refreshing(at) => {
                    lemma_unresolved_step(p.reused, true);
                    if next.phase is PruningAgain {
                        lemma_all_resolved(next.reused, i);
                    }
                },
                SidecarPhase::Naming(at) => {
                    lemma_unresolved_step(p.reused, false);
                },
                SidecarPhase::Publishing(_) | SidecarPhase::DroppingTemp(_) => {
                    lemma_recheck_phase(p.reused, 0);
                    lemma_recheck_skips(p.reused, 0, i);
                },
                SidecarPhase::Rechecking(at) => {
                    lemma_recheck_phase(p.reused, at + 1);
                    if at < i {
                        lemma_recheck_skips(p.reused, at + 1, i);
                    }
                },
                _ => {},
            }
        }
    }
}

/// Every file that is handed out was found to be a sidecar.
pub proof fn law_returned_files_were_checked(
    job: SidecarJob,
    answers: Seq<FileAnswer>,
    track: int,
)
    requires
        job.finals.len() == job.tracks.len(),
        job.tracks.len() <= usize::MAX,
        answers_fit(job, answers),
        sidecar_run(job, answers).phase is Finished,
        sidecar_run(job, answers).failure is None,
        0 <= track < job.tracks.len(),
    ensures
        checked_tracks(job, answers).contains(track),
{
    law_preparation_stays_well_formed(job, answers);
    lemma_checked(job, answers, track);
}

/// The files that sidecars were written to first and that may still be there.
pub open spec fn left_over(job: SidecarJob, answers: Seq<FileAnswer>) -> Set<String>
    decreases answers.len(),
{
    if answers.len() == 0 {
        Set::empty()
    } else {
        let p = sidecar_run(job, answers.drop_last());
        let before = left_over(job, answers.drop_last());
        match p.phase {
            SidecarPhase::Extracting => before.union(temps(p.missing).to_set()),
            SidecarPhase::Publishing(k) => if answers.last()->Came_0 is Ok {
                before.remove(p.missing[k as int].tmp_path)
            } else {
                before
            },
            _ => before.difference(removed_in(job, p).to_set()),
        }
    }
}

/// The first missing file whose temporary file may still be there.
spec fn first_left(p: SidecarProgress) -> int {
    match p.phase {
        SidecarPhase::CheckingTemp(_) | SidecarPhase::Withdrawing | SidecarPhase::CleaningUp => 0,
        SidecarPhase::LookingForWinner(k) | SidecarPhase::Publishing(k)
        | SidecarPhase::LookingAgain(k) | SidecarPhase::CheckingWinner(k)
        | SidecarPhase::DroppingTemp(k) => k as int,
        _ => p.missing.len() as int,
    }
}

spec fn may_be_left(p: SidecarProgress, path: String) -> bool {
    exists|k: int|
        first_left(p) <= k < p.missing.len() && (#[trigger] p.missing[k]).tmp_path == path
}

proof fn lemma_left_over(job: SidecarJob, answers: Seq<FileAnswer>)
    requires
        job.finals.len() == job.tracks.len(),
        job.tracks.len() <= usize::MAX,
        answers_fit(job, answers),
    ensures
        forall|path: String| #[trigger]
            left_over(job, answers).contains(path) ==> may_be_left(
                sidecar_run(job, answers),
                path,
            ),
    decreases answers.len(),
{
    if answers.len() > 0 {
        let before = answers.drop_last();
        let p = sidecar_run(job, before);
        let next = sidecar_run(job, answers);
        lemma_left_over(job, before);
        law_preparation_stays_well_formed(job, before);
        law_preparation_stays_well_formed(job, answers);
        assert forall|path: String| #[trigger] left_over(job, answers).contains(path) implies
            may_be_left(next, path) by {
            let earlier = left_over(job, before);
            assert(earlier.contains(path) ==> may_be_left(p, path));
            match p.phase {
                SidecarPhase::Extracting => {
                    assert(!earlier.contains(path));
                    assert(temps(p.missing).to_set().contains(path));
                    let k = choose|k: int|
                        0 <= k < temps(p.missing).len() && temps(p.missing)[k] == path;
                    assert(next.missing[k].tmp_path == path);
                },
                SidecarPhase::CleaningUp => {
                    assert(earlier.contains(path));
                    let k = choose|k: int|
                        first_left(p) <= k < p.missing.len() && (#[trigger] p.missing[k]).tmp_path
                            == path;
                    assert(temps(p.missing)[k] == path);
                },
                SidecarPhase::Publishing(at) => {
                    lemma_recheck_phase(p.reused, 0);
                    let k = choose|k: int|
                        first_left(p) <= k < p.missing.len() && (#[trigger] p.missing[k]).tmp_path
                            == path;
                    assert(next.missing[k].tmp_path == path);
                },
                SidecarPhase::DroppingTemp(at) => {
                    lemma_recheck_phase(p.reused, 0);
                    let k = choose|k: int|
                        first_left(p) <= k < p.missing.len() && (#[trigger] p.missing[k]).tmp_path
                            == path;
                    assert(next.missing[k].tmp_path == path);
                    assert(k == at ==> removed_in(job, p)[0] == path);
                },
                _ => {
                    assert(earlier.contains(path));
                    let k = choose|k: int|
                        first_left(p) <= k < p.missing.len() && (#[trigger] p.missing[k]).tmp_path
                            == path;
                    assert(next.missing[k].tmp_path == path);
                },
            }
        }
    }
}

/// However a preparation ends, the files that sidecars were written to first are gone.
pub proof fn law_no_temporary_file_is_left(job: SidecarJob, answers: Seq<FileAnswer>)
    requires
        job.finals.len() == job.tracks.len(),
        job.tracks.len() <= usize::MAX,
        answers_fit(job, answers),
        sidecar_run(job, answers).phase is Finished,
    ensures
        left_over(job, answers).is_empty(),
{
    lemma_left_over(job, answers);
    assert forall|path: String| !left_over(job, answers).contains(path) by {
        if left_over(job, answers).contains(path) {
            assert(may_be_left(sidecar_run(job, answers), path));
        }
    }
}

/// The tracks that are extracted are those of the clip that were selected, all of them, in the
/// order of the clip, each with its own index. `places` are where they stand.
pub proof fn law_selected_tracks_are_extracted(
    tracks: Seq<ClipAudioTrack>,
    selected: Seq<Seq<char>>,
) -> (places: Seq<int>)
    ensures
        places.len() == selected_tracks(tracks, selected).len(),
        forall|k: int|
            0 <= k < places.len() ==> 0 <= (#[trigger] places[k]) < tracks.len()
                && selected.contains(tracks[places[k]].id@) && selected_tracks(tracks, selected)[k]
                == (tracks[places[k]].id@, tracks[places[k]].track_index),
        forall|k: int, l: int|
            0 <= k < l < places.len() ==> #[trigger] places[k] < #[trigger] places[l],
        forall|i: int|
            0 <= i < tracks.len() && selected.contains((#[trigger] tracks[i]).id@)
                ==> places.contains(i),
    decreases tracks.len(),
{
    if tracks.len() == 0 {
        Seq::empty()
    } else {
        let at = tracks.len() - 1;
        let before = law_selected_tracks_are_extracted(tracks.drop_last(), selected);
        assert forall|k: int| 0 <= k < before.len() implies tracks[#[trigger] before[k]]
            == tracks.drop_last()[before[k]] by {}
        let places = if selected.contains(tracks.last().id@) {
            before.push(at)
        } else {
            before
        };
        assert forall|i: int|
            0 <= i < tracks.len() && selected.contains((#[trigger] tracks[i]).id@) implies places.contains(i) by {
            if i < at {
                assert(tracks.drop_last()[i] == tracks[i]);
                let k = choose|k: int| 0 <= k < before.len() && before[k] == i;
                assert(places[k] == i);
            } else {
                assert(places[before.len() as int] == at);
            }
        }
        places
    }
}

/// Each file gets its own track of the clip as it is, without the picture and the data about the
/// clip.
pub proof fn law_arguments_of_an_extraction(
    source: Seq<char>,
    outputs: Seq<AudioTrackSidecarOutput>,
    output: AudioTrackSidecarOutput,
)
    ensures
        sidecar_args(source, Seq::empty()) == seq![
            "-hide_banner"@,
            "-nostdin"@,
            "-y"@,
            "-i"@,
            source,
        ],
        sidecar_args(source, outputs.push(output)) == sidecar_args(source, outputs) + seq![
            "-map"@,
            "0:a:"@ + decimal(output.audio_stream_index as nat),
            "-vn"@,
            "-map_metadata"@,
            "-1"@,
            "-c:a"@,
            "copy"@,
            "-f"@,
            "mp4"@,
            output.tmp_path@,
        ],
{
    assert(outputs.push(output).drop_last() =~= outputs);
}

/// The tracks without a file are those that were not reused.
pub proof fn law_unresolved_tracks(reused: Seq<bool>, i: int)
    ensures
        unresolved(reused).contains(i) <==> 0 <= i < reused.len() && !reused[i],
    decreases reused.len(),
{
    if reused.len() > 0 {
        let rest = reused.drop_last();
        law_unresolved_tracks(rest, i);
        let before = unresolved(rest);
        let now = unresolved(reused);
        if !reused.last() {
            assert(now == before.push(reused.len() - 1));
            if before.contains(i) {
                let k = choose|k: int| 0 <= k < before.len() && before[k] == i;
                assert(now[k] == i);
            }
            assert(now[before.len() as int] == reused.len() - 1);
            if now.contains(i) && i != reused.len() - 1 {
                let k = choose|k: int| 0 <= k < now.len() && now[k] == i;
                assert(before[k] == i);
            }
        }
    }
}

/// A file that is there and sound is used as it is, and marked as used; one that is not sound is
/// removed and made anew, as is one that is not there.
pub proof fn law_sound_files_are_reused(job: SidecarJob, p: SidecarProgress, i: usize, tmp: String)
    requires
        p.phase == SidecarPhase::LookingUp(i),
        i < job.tracks.len(),
    ensures
        ({
            let found = after_answer(job, p, FileAnswer::Found(true));
            let sound = after_answer(job, found, FileAnswer::Came(Ok(())));
            let used = after_answer(job, sound, FileAnswer::Done);
            &&& is_action(job, p, SidecarAction::LookUp(job.finals[i as int]))
            &&& is_action(job, found, SidecarAction::Check(job.finals[i as int]))
            &&& is_action(job, sound, SidecarAction::Refresh(job.finals[i as int]))
            &&& used.reused == p.reused.push(true)
            &&& used.missing == p.missing
            &&& used.failure == p.failure
        }),
        ({
            let found = after_answer(job, p, FileAnswer::Found(true));
            let broken = after_answer(
                job,
                found,
                FileAnswer::Came(Err(job.finals[i as int])),
            );
            let gone = after_answer(job, broken, FileAnswer::Done);
            &&& removed_in(job, broken) == seq![job.finals[i as int]]
            &&& gone.phase == SidecarPhase::Naming(i)
            &&& gone == after_answer(job, p, FileAnswer::Found(false))
        }),
        ({
            let naming = after_answer(job, p, FileAnswer::Found(false));
            let named = after_answer(job, naming, FileAnswer::Named(Ok(tmp)));
            &&& is_action(job, naming, SidecarAction::Name(job.finals[i as int]))
            &&& named.reused == p.reused.push(false)
            &&& named.missing == p.missing.push(
                AudioTrackSidecarOutput {
                    audio_track_id: job.tracks[i as int].audio_track_id,
                    audio_stream_index: job.tracks[i as int].audio_stream_index,
                    final_path: job.finals[i as int],
                    tmp_path: tmp,
                },
            )
            &&& named.failure == p.failure
        }),
{
}

/// Once every track was looked at, the missing ones are extracted, each is checked before any is
/// published, and each is published unless another took its place in the meantime.
pub proof fn law_missing_files_are_made(
    job: SidecarJob,
    p: SidecarProgress,
    k: usize,
    i: usize,
)
    requires
        p.missing.len() > 0,
        k < p.missing.len(),
        p.missing.len() <= usize::MAX,
    ensures
        i < job.tracks.len() ==> lookup_phase(job, i as int, false) == SidecarPhase::LookingUp(i),
        lookup_phase(job, job.tracks.len() as int, false) is Clearing,
        lookup_phase(job, job.tracks.len() as int, true) is PruningAgain,
        p.phase is Clearing ==> after_answer(job, p, FileAnswer::Done).phase is Extracting,
        p.phase is Extracting ==> after_answer(job, p, FileAnswer::Came(Ok(()))).phase
            == SidecarPhase::CheckingTemp(0),
        p.phase == SidecarPhase::CheckingTemp(k) ==> {
            let next = after_answer(job, p, FileAnswer::Came(Ok(())));
            &&& is_action(job, p, SidecarAction::Check(p.missing[k as int].tmp_path))
            &&& k + 1 < p.missing.len() ==> next.phase == SidecarPhase::CheckingTemp(
                (k + 1) as usize,
            )
            &&& k + 1 == p.missing.len() ==> next.phase == SidecarPhase::LookingForWinner(0)
        },
        p.phase == SidecarPhase::LookingForWinner(k) ==> {
            let free = after_answer(job, p, FileAnswer::Found(false));
            let made = after_answer(job, free, FileAnswer::Came(Ok(())));
            &&& is_action(
                job,
                free,
                SidecarAction::Publish {
                    tmp_path: p.missing[k as int].tmp_path,
                    final_path: p.missing[k as int].final_path,
                },
            )
            &&& made.created == p.created.push(p.missing[k as int].final_path)
            &&& k + 1 < p.missing.len() ==> made.phase == SidecarPhase::LookingForWinner(
                (k + 1) as usize,
            )
        },
        p.phase == SidecarPhase::LookingForWinner(k) ==> {
            let taken = after_answer(job, p, FileAnswer::Found(true));
            let sound = after_answer(job, taken, FileAnswer::Came(Ok(())));
            &&& is_action(job, taken, SidecarAction::Check(p.missing[k as int].final_path))
            &&& removed_in(job, sound) == seq![p.missing[k as int].tmp_path]
            &&& sound.created == p.created
        },
{
}

/// In the end every track has its file: those that were made are checked once more, the cache is
/// pruned round them, and each is given to the frontend under its own track.
pub proof fn law_finished_files_are_handed_out(job: SidecarJob, p: SidecarProgress, i: usize)
    requires
        i < job.tracks.len(),
        job.tracks.len() <= usize::MAX,
    ensures
        p.phase is PruningAgain ==> after_answer(job, p, FileAnswer::Done).phase
            == SidecarPhase::Allowing(0),
        p.phase == SidecarPhase::Allowing(i) ==> {
            let next = after_answer(job, p, FileAnswer::Came(Ok(())));
            &&& is_action(
                job,
                p,
                SidecarAction::Allow(
                    PreparedClipAudioSidecar {
                        audio_track_id: job.tracks[i as int].audio_track_id,
                        path: job.finals[i as int],
                    },
                ),
            )
            &&& i + 1 < job.tracks.len() ==> next.phase == SidecarPhase::Allowing((i + 1) as usize)
            &&& i + 1 == job.tracks.len() ==> next.phase is Finished
            &&& next.failure == p.failure
        },
        p.reused.len() == job.tracks.len() && (forall|k: int| 0 <= k < i ==> #[trigger] p.reused[k])
            && !p.reused[i as int] ==> recheck_phase(p.reused, 0) == SidecarPhase::Rechecking(i),
        (forall|k: int| 0 <= k < p.reused.len() ==> #[trigger] p.reused[k]) ==> recheck_phase(
            p.reused,
            0,
        ) is PruningAgain,
{
    if p.reused.len() == job.tracks.len() && (forall|k: int|
        0 <= k < i ==> #[trigger] p.reused[k]) && !p.reused[i as int] {
        lemma_recheck(p.reused, 0, i as int);
    }
    if forall|k: int| 0 <= k < p.reused.len() ==> #[trigger] p.reused[k] {
        lemma_recheck(p.reused, 0, p.reused.len() as int);
    }
}

proof fn lemma_recheck(reused: Seq<bool>, from: int, i: int)
    requires
        0 <= from <= i <= reused.len(),
        forall|k: int| from <= k < i ==> #[trigger] reused[k],
        i < reused.len() ==> !reused[i],
    ensures
        recheck_phase(reused, from) == if i < reused.len() {
            SidecarPhase::Rechecking(i as usize)
        } else {
            SidecarPhase::PruningAgain
        },
    decreases i - from,
{
    if from < i {
        assert(reused[from]);
        lemma_recheck(reused, from + 1, i);
    }
}

/// The sidecars that are handed out are those of the tracks, one for each, in their order, each at
/// its own place.
pub proof fn law_sidecars_are_those_of_the_tracks(
    job: SidecarJob,
    sidecars: Seq<PreparedClipAudioSidecar>,
    i: int,
)
    requires
        are_sidecars_of(job, sidecars),
    ensures
        sidecars.len() == job.tracks.len(),
        0 <= i < sidecars.len() ==> sidecars[i].audio_track_id == job.tracks[i].audio_track_id
            && sidecars[i].path == job.finals[i],
{
    if 0 <= i < sidecars.len() {
        assert(sidecars[i].path == job.finals[i]);
    }
}

} // verus!
