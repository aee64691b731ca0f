//! Copies of a clip that other programs can play: which audio and video they hold, how they
//! are made, and how they come into their cache.

use crate::encoders::{contains_codec, Codec, EncoderBackend, EncoderCapability};
use crate::hash::{hex_fixed, hex_u64};
use crate::markers::ClipAudioTrack;
use crate::sidecars::{FileAnswer, MediaTrackCounts};
use crate::text::{
    blank, clone_strings, concat2, concat3, decimal, decimal_string, is_blank, str_eq, trim, trimmed,
    views,
};
use vstd::prelude::*;

verus! {

/// A clip to put on the clipboard: as it is, or as a copy with the selected audio tracks.
#[derive(Debug, PartialEq, Eq)]
pub struct CopyClipToClipboardRequest {
    pub path: String,
    pub audio_track_ids: Option<Vec<String>>,
    pub original: bool,
}

// ---------------------------------------------------------------------------
// Audio
// ---------------------------------------------------------------------------

/// How the audio of a copy is made: at most one track as it is, or several mixed into one.
#[derive(Debug, PartialEq, Eq)]
pub enum ShareAudioExportMode {
    Remux(Vec<u32>),
    Mix(Vec<u32>),
}

/// Where an audio export mode takes its tracks from, and whether it mixes them.
pub open spec fn audio_mode_view(mode: ShareAudioExportMode) -> (bool, Seq<u32>) {
    match mode {
        ShareAudioExportMode::Remux(indices) => (false, indices@),
        ShareAudioExportMode::Mix(indices) => (true, indices@),
    }
}

/// The audio of a copy. Without a selection, and of a clip without markers, the audio stays as
/// it is. `indices` is what came of looking the selected tracks up.
pub fn clipboard_share_export_mode(
    tracks: &Option<Vec<ClipAudioTrack>>,
    selected_audio_track_ids: &Option<Vec<String>>,
    indices: Result<Vec<u32>, String>,
) -> (res: Result<Option<ShareAudioExportMode>, String>)
    ensures
        match (selected_audio_track_ids, tracks) {
            (Some(selected), Some(tracks)) => if tracks@.len() > 0 {
                match indices {
                    Err(error) => res is Err && res->Err_0@ == error@,
                    Ok(indices) => res is Ok && res->Ok_0 is Some && audio_mode_view(res->Ok_0->0)
                        == (indices@.len() > 1, indices@),
                }
            } else if selected@.len() == 0 {
                res is Ok && res->Ok_0 is Some && audio_mode_view(res->Ok_0->0) == (
                    false,
                    Seq::<u32>::empty(),
                )
            } else {
                res is Err && res->Err_0@ == "this clip has no selectable audio track metadata"@
            },
            _ => res == Ok::<Option<ShareAudioExportMode>, String>(None),
        },
{
    let selected = match selected_audio_track_ids {
        Some(selected) => selected,
        None => {
            return Ok(None);
        },
    };
    let tracks = match tracks {
        Some(tracks) => tracks,
        None => {
            return Ok(None);
        },
    };
    if tracks.len() == 0 {
        if selected.len() == 0 {
            return Ok(Some(ShareAudioExportMode::Remux(Vec::new())));
        }
        return Err("this clip has no selectable audio track metadata".to_string());
    }
    match indices {
        Err(error) => Err(error),
        Ok(indices) => if indices.len() > 1 {
            Ok(Some(ShareAudioExportMode::Mix(indices)))
        } else {
            Ok(Some(ShareAudioExportMode::Remux(indices)))
        },
    }
}

/// Whether a copy has audio. Where the audio stays as it is, that depends on the tracks of
/// the clip.
pub fn share_has_audio(
    mode: &Option<ShareAudioExportMode>,
    counts: &Result<MediaTrackCounts, String>,
) -> (res: Result<bool, String>)
    ensures
        match mode {
            Some(mode) => res == Ok::<bool, String>(
                audio_mode_view(*mode).0 || audio_mode_view(*mode).1.len() > 0,
            ),
            None => match counts {
                Ok(counts) => res == Ok::<bool, String>(counts.audio > 0),
                Err(error) => res is Err && res->Err_0@ == "inspect share audio tracks: "@
                    + error@,
            },
        },
{
    match mode {
        Some(ShareAudioExportMode::Remux(indices)) => Ok(indices.len() > 0),
        Some(ShareAudioExportMode::Mix(_)) => Ok(true),
        None => match counts {
            Ok(counts) => Ok(counts.audio > 0),
            Err(error) => Err(concat2("inspect share audio tracks: ", error.as_str())),
        },
    }
}

// ---------------------------------------------------------------------------
// Video
// ---------------------------------------------------------------------------

/// The codec of a video track.
#[derive(Debug, Clone, Copy, PartialEq, Eq, Structural)]
pub enum MediaVideoCodec {
    H264,
    Hevc,
    Av1,
    Other,
}

/// How the video of a copy is made.
#[derive(Debug, PartialEq, Eq)]
pub enum ShareVideoExportMode {
    Copy,
    Encode { encoder: String, backend: EncoderBackend },
}

/// An encoder that the probe found, and the name of its H.264 encoder if it has one.
#[derive(Debug, PartialEq, Eq)]
pub struct ProbedEncoder {
    pub capability: EncoderCapability,
    pub h264_encoder: Option<String>,
}

/// Whether an encoder of this name is among them.
pub open spec fn has_encoder(encoders: Seq<(Seq<char>, EncoderBackend)>, name: Seq<char>) -> bool {
    exists|i: int| 0 <= i < encoders.len() && (#[trigger] encoders[i]).0 == name
}

/// The H.264 encoders that the probe found, each name once, in the order of the probe.
pub open spec fn share_encoders(probed: Seq<ProbedEncoder>) -> Seq<(Seq<char>, EncoderBackend)>
    decreases probed.len(),
{
    if probed.len() == 0 {
        Seq::empty()
    } else {
        let before = share_encoders(probed.drop_last());
        let last = probed.last();
        match last.h264_encoder {
            Some(name) if last.capability.codecs@.contains(Codec::H264) && !has_encoder(
                before,
                name@,
            ) => before.push((name@, last.capability.backend)),
            _ => before,
        }
    }
}

pub open spec fn encode_modes(modes: Seq<ShareVideoExportMode>) -> Seq<(Seq<char>, EncoderBackend)> {
    modes.map_values(
        |mode: ShareVideoExportMode|
            match mode {
                ShareVideoExportMode::Copy => (Seq::empty(), EncoderBackend::MfSoftware),
                ShareVideoExportMode::Encode { encoder, backend } => (encoder@, backend),
            },
    )
}

pub open spec fn all_encode(modes: Seq<ShareVideoExportMode>) -> bool {
    forall|i: int| 0 <= i < modes.len() ==> (#[trigger] modes[i]) is Encode
}

fn mode_named(modes: &Vec<ShareVideoExportMode>, name: &str) -> (r: bool)
    requires
        all_encode(modes@),
    ensures
        r == has_encoder(encode_modes(modes@), name@),
{
    let mut i: usize = 0;
    while i < modes.len()
        invariant
            i <= modes@.len(),
            all_encode(modes@),
            forall|k: int| 0 <= k < i ==> (#[trigger] encode_modes(modes@)[k]).0 != name@,
        decreases modes@.len() - i,
    {
        assert(modes@[i as int] is Encode);
        if let ShareVideoExportMode::Encode { encoder, backend } = &modes[i] {
            assert(encode_modes(modes@)[i as int] == (encoder@, *backend));
            if str_eq(encoder.as_str(), name) {
                return true;
            }
        }
        i += 1;
    }
    false
}

/// What comes of choosing the ways to make the video of a copy.
pub open spec fn are_share_modes(
    codecs: Result<Vec<MediaVideoCodec>, String>,
    probed: Seq<ProbedEncoder>,
    res: Result<Vec<ShareVideoExportMode>, String>,
) -> bool {
    match codecs {
        Err(error) => res is Err && res->Err_0@ == "inspect share video codec: "@ + error@,
        Ok(codecs) => if codecs@ == seq![MediaVideoCodec::H264] {
            res is Ok && res->Ok_0@ == seq![ShareVideoExportMode::Copy]
        } else if codecs@.len() != 1 {
            res is Err && res->Err_0@ == "shareable export requires exactly one video track, found "@
                + decimal(codecs@.len())
        } else if share_encoders(probed).len() == 0 {
            res is Err && res->Err_0@
                == "no usable FFmpeg H.264 encoder is available for this clip"@
        } else {
            res is Ok && all_encode(res->Ok_0@) && encode_modes(res->Ok_0@) == share_encoders(
                probed,
            )
        },
    }
}

/// The ways to make the video of a copy, best first: a clip in H.264 is copied, any other is
/// encoded by one of the H.264 encoders that there are.
pub fn share_video_export_modes(
    codecs: &Result<Vec<MediaVideoCodec>, String>,
    probed: &Vec<ProbedEncoder>,
) -> (res: Result<Vec<ShareVideoExportMode>, String>)
    ensures
        are_share_modes(*codecs, probed@, res),
{
    let codecs = match codecs {
        Err(error) => {
            return Err(concat2("inspect share video codec: ", error.as_str()));
        },
        Ok(codecs) => codecs,
    };
    if codecs.len() == 1 && codecs[0] == MediaVideoCodec::H264 {
        assert(codecs@ =~= seq![MediaVideoCodec::H264]);
        let mut modes: Vec<ShareVideoExportMode> = Vec::new();
        modes.push(ShareVideoExportMode::Copy);
        return Ok(modes);
    }
    if codecs.len() != 1 {
        let count = decimal_string(codecs.len() as u64);
        return Err(
            concat2("shareable export requires exactly one video track, found ", count.as_str()),
        );
    }
    assert(codecs@ != seq![MediaVideoCodec::H264]);
    let mut modes: Vec<ShareVideoExportMode> = Vec::new();
    let mut i: usize = 0;
    assert(encode_modes(modes@) =~= share_encoders(probed@.take(0)));
    while i < probed.len()
        invariant
            i <= probed@.len(),
            all_encode(modes@),
            encode_modes(modes@) == share_encoders(probed@.take(i as int)),
        decreases probed@.len() - i,
    {
        let ghost before = modes@;
        proof {
            assert(probed@.take(i + 1).drop_last() =~= probed@.take(i as int));
            assert(probed@.take(i + 1).last() == probed@[i as int]);
        }
        if contains_codec(&probed[i].capability.codecs, Codec::H264) {
            if let Some(name) = &probed[i].h264_encoder {
                if !mode_named(&modes, name.as_str()) {
                    let mode = ShareVideoExportMode::Encode {
                        encoder: name.clone(),
                        backend: probed[i].capability.backend,
                    };
                    modes.push(mode);
                    assert(encode_modes(modes@) =~= encode_modes(before).push(
                        (name@, probed@[i as int].capability.backend),
                    ));
                }
            }
        }
        i += 1;
    }
    assert(probed@.take(i as int) =~= probed@);
    if modes.len() == 0 {
        return Err("no usable FFmpeg H.264 encoder is available for this clip".to_string());
    }
    Ok(modes)
}

/// Whether the probe found an H.264 encoder at a place.
spec fn found_at(probed: Seq<ProbedEncoder>, i: int) -> bool {
    &&& 0 <= i < probed.len()
    &&& probed[i].capability.codecs@.contains(Codec::H264)
    &&& probed[i].h264_encoder is Some
}

/// The name of the encoder at a place.
spec fn name_at(probed: Seq<ProbedEncoder>, i: int) -> Seq<char> {
    probed[i].h264_encoder->0@
}

/// Whether one of the places up to `i` has the name of the encoder at `i`.
#[verifier::opaque]
spec fn has_place(probed: Seq<ProbedEncoder>, places: Seq<int>, i: int) -> bool {
    exists|k: int|
        0 <= k < places.len() && #[trigger] places[k] <= i && name_at(probed, places[k]) == name_at(
            probed,
            i,
        )
}

/// The places in the probe that the chosen encoders come from.
proof fn lemma_share_encoders(probed: Seq<ProbedEncoder>) -> (places: Seq<int>)
    ensures
        places.len() == share_encoders(probed).len(),
        forall|k: int|
            0 <= k < places.len() ==> found_at(probed, #[trigger] places[k])
                && share_encoders(probed)[k] == (
                name_at(probed, places[k]),
                probed[places[k]].capability.backend,
            ),
        forall|k: int, l: int|
            0 <= k < l < places.len() ==> #[trigger] places[k] < #[trigger] places[l] && name_at(
                probed,
                places[k],
            ) != name_at(probed, places[l]),
        forall|i: int| #[trigger] found_at(probed, i) ==> has_place(probed, places, i),
    decreases probed.len(),
{
    if probed.len() == 0 {
        Seq::empty()
    } else {
        let rest = probed.drop_last();
        let before = lemma_share_encoders(rest);
        let last = probed.last();
        let at = probed.len() - 1;
        let taken = found_at(probed, at) && !has_encoder(
            share_encoders(rest),
            name_at(probed, at),
        );
        let places = if taken {
            before.push(at)
        } else {
            before
        };
        assert(share_encoders(probed) == if taken {
            share_encoders(rest).push((name_at(probed, at), last.capability.backend))
        } else {
            share_encoders(rest)
        });
        assert forall|k: int| 0 <= k < places.len() implies found_at(probed, #[trigger] places[k])
            && share_encoders(probed)[k] == (
            name_at(probed, places[k]),
            probed[places[k]].capability.backend,
        ) by {
            if k < before.len() {
                assert(places[k] == before[k]);
                assert(found_at(rest, before[k]));
            }
        }
        assert forall|k: int, l: int| 0 <= k < l < places.len() implies #[trigger] places[k]
            < #[trigger] places[l] && name_at(probed, places[k]) != name_at(probed, places[l]) by {
            assert(places[k] == before[k]);
            assert(found_at(rest, before[k]));
            if l < before.len() {
                assert(places[l] == before[l]);
                assert(found_at(rest, before[l]));
                assert(name_at(rest, before[k]) != name_at(rest, before[l]));
            } else {
                assert(share_encoders(rest)[k].0 == name_at(probed, before[k]));
            }
        }
        assert forall|i: int| #[trigger] found_at(probed, i) implies has_place(
            probed,
            places,
            i,
        ) by {
            reveal(has_place);
            if i < at {
                assert(found_at(rest, i));
                assert(has_place(rest, before, i));
                let k = choose|k: int|
                    0 <= k < before.len() && #[trigger] before[k] <= i && name_at(rest, before[k])
                        == name_at(rest, i);
                assert(found_at(rest, before[k]));
                assert(places[k] == before[k]);
            } else if taken {
                assert(places[before.len() as int] == at);
            } else {
                let k = choose|k: int|
                    0 <= k < share_encoders(rest).len() && (#[trigger] share_encoders(rest)[k]).0
                        == name_at(probed, at);
                assert(found_at(rest, before[k]));
                assert(places[k] == before[k]);
            }
        }
        places
    }
}

/// Every H.264 encoder that the probe found, of whatever backend, is among the ways to make the
/// copy of a clip that is not in H.264; only where there is none the copy fails.
pub proof fn law_every_probed_h264_encoder_is_a_way(
    codecs: Vec<MediaVideoCodec>,
    probed: Seq<ProbedEncoder>,
    res: Result<Vec<ShareVideoExportMode>, String>,
)
    requires
        are_share_modes(Ok(codecs), probed, res),
        codecs@.len() == 1,
        codecs@[0] != MediaVideoCodec::H264,
    ensures
        res is Ok <==> exists|i: int|
            0 <= i < probed.len() && (#[trigger] probed[i]).capability.codecs@.contains(Codec::H264)
                && probed[i].h264_encoder is Some,
        forall|i: int|
            0 <= i < probed.len() && (#[trigger] probed[i]).capability.codecs@.contains(Codec::H264)
                && probed[i].h264_encoder is Some ==> exists|k: int|
                0 <= k < res->Ok_0@.len() && (#[trigger] res->Ok_0@[k]) is Encode
                    && res->Ok_0@[k]->encoder@ == probed[i].h264_encoder->0@,
{
    assert(codecs@ != seq![MediaVideoCodec::H264]);
    let places = lemma_share_encoders(probed);
    if share_encoders(probed).len() > 0 {
        assert(found_at(probed, places[0]));
    }
    assert forall|i: int|
        0 <= i < probed.len() && (#[trigger] probed[i]).capability.codecs@.contains(Codec::H264)
            && probed[i].h264_encoder is Some implies res is Ok && exists|k: int|
        0 <= k < res->Ok_0@.len() && (#[trigger] res->Ok_0@[k]) is Encode
            && res->Ok_0@[k]->encoder@ == probed[i].h264_encoder->0@ by {
        assert(found_at(probed, i));
        assert(has_place(probed, places, i));
        reveal(has_place);
        let k = choose|k: int|
            0 <= k < places.len() && #[trigger] places[k] <= i && name_at(probed, places[k])
                == name_at(probed, i);
        let ways = res->Ok_0@;
        assert(encode_modes(ways).len() == ways.len());
        assert(encode_modes(ways)[k] == share_encoders(probed)[k]);
        assert(ways[k] is Encode);
    }
}

/// The ways to make such a copy name nothing but H.264 encoders that the probe found, each once,
/// in the order of the probe, with the backend under which the name was found first. `places` are
/// where they were found.
pub proof fn law_ways_follow_the_probe(
    codecs: Vec<MediaVideoCodec>,
    probed: Seq<ProbedEncoder>,
    ways: Vec<ShareVideoExportMode>,
) -> (places: Seq<int>)
    requires
        are_share_modes(Ok(codecs), probed, Ok(ways)),
        codecs@.len() == 1,
        codecs@[0] != MediaVideoCodec::H264,
    ensures
        places.len() == ways@.len(),
        forall|k: int|
            0 <= k < places.len() ==> {
                &&& 0 <= (#[trigger] places[k]) < probed.len()
                &&& probed[places[k]].capability.codecs@.contains(Codec::H264)
                &&& ways@[k] matches ShareVideoExportMode::Encode { encoder, backend }
                    && probed[places[k]].h264_encoder matches Some(name) && encoder@ == name@
                    && backend == probed[places[k]].capability.backend
            },
        forall|k: int, l: int|
            0 <= k < l < places.len() ==> #[trigger] places[k] < #[trigger] places[l],
        forall|k: int, j: int|
            0 <= k < places.len() && 0 <= j < #[trigger] places[k] && (
            #[trigger] probed[j]).capability.codecs@.contains(Codec::H264)
                && probed[j].h264_encoder is Some ==> probed[j].h264_encoder->0@
                != probed[places[k]].h264_encoder->0@,
{
    assert(codecs@ != seq![MediaVideoCodec::H264]);
    let places = lemma_share_encoders(probed);
    assert(encode_modes(ways@).len() == ways@.len());
    assert forall|k: int| 0 <= k < places.len() implies {
        &&& 0 <= (#[trigger] places[k]) < probed.len()
        &&& probed[places[k]].capability.codecs@.contains(Codec::H264)
        &&& ways@[k] matches ShareVideoExportMode::Encode { encoder, backend }
            && probed[places[k]].h264_encoder matches Some(name) && encoder@ == name@ && backend
            == probed[places[k]].capability.backend
    } by {
        assert(ways@[k] is Encode);
        assert(encode_modes(ways@)[k] == share_encoders(probed)[k]);
    }
    assert forall|k: int, j: int|
        0 <= k < places.len() && 0 <= j < #[trigger] places[k] && (
        #[trigger] probed[j]).capability.codecs@.contains(Codec::H264)
            && probed[j].h264_encoder is Some implies probed[j].h264_encoder->0@
        != probed[places[k]].h264_encoder->0@ by {
        assert(found_at(probed, j));
        assert(has_place(probed, places, j));
        reveal(has_place);
        let l = choose|l: int|
            0 <= l < places.len() && #[trigger] places[l] <= j && name_at(probed, places[l])
                == name_at(probed, j);
        assert(l < k || l == k || k < l);
        assert(name_at(probed, places[l]) != name_at(probed, places[k]));
    }
    places
}

/// A clip with one video track in H.264 is copied as it is, whatever encoders there are; a clip
/// with no video track or several cannot be shared.
pub proof fn law_h264_clips_are_copied(
    codecs: Vec<MediaVideoCodec>,
    probed: Seq<ProbedEncoder>,
    res: Result<Vec<ShareVideoExportMode>, String>,
)
    requires
        are_share_modes(Ok(codecs), probed, res),
    ensures
        codecs@.len() == 1 && codecs@[0] == MediaVideoCodec::H264 ==> res is Ok && res->Ok_0@.len()
            == 1 && res->Ok_0@[0] is Copy,
        res matches Ok(ways) ==> codecs@.len() == 1 && (codecs@[0] != MediaVideoCodec::H264
            ==> forall|k: int| 0 <= k < ways@.len() ==> (#[trigger] ways@[k]) is Encode),
{
    if codecs@.len() == 1 && codecs@[0] == MediaVideoCodec::H264 {
        assert(codecs@ =~= seq![MediaVideoCodec::H264]);
    }
}

/// The bit rate and the buffer of the video of a copy.
pub const SHARE_H264_BITRATE_BPS: u32 = 8_000_000;

pub const SHARE_H264_BUFSIZE_BITS: u64 = 16_000_000;

/// The arguments that choose the input.
pub open spec fn share_input_args(input: Seq<char>) -> Seq<Seq<char>> {
    seq![
        "-hide_banner"@,
        "-loglevel"@,
        "error"@,
        "-nostdin"@,
        "-y"@,
        "-i"@,
        input,
        "-map"@,
        "0:v:0"@,
    ]
}

/// The arguments that choose the video.
pub open spec fn share_video_args(
    mode: ShareVideoExportMode,
    rate_control: Seq<Seq<char>>,
) -> Seq<Seq<char>> {
    match mode {
        ShareVideoExportMode::Copy => seq!["copy"@],
        ShareVideoExportMode::Encode { encoder, .. } => seq![encoder@] + rate_control + seq![
            "-pix_fmt"@,
            "nv12"@,
        ],
    }
}

/// The arguments that choose the form of the audio.
pub open spec fn share_audio_args() -> Seq<Seq<char>> {
    seq![
        "-c:a"@,
        "aac"@,
        "-profile:a"@,
        "aac_low"@,
        "-b:a"@,
        "192k"@,
        "-ac"@,
        "2"@,
        "-ar"@,
        "48000"@,
    ]
}

/// The arguments of FFmpeg that make a copy.
pub open spec fn share_args(
    input: Seq<char>,
    target: Seq<char>,
    has_audio: bool,
    mode: ShareVideoExportMode,
    rate_control: Seq<Seq<char>>,
) -> Seq<Seq<char>> {
    share_input_args(input) + (if has_audio {
        seq!["-map"@, "0:a:0"@]
    } else {
        Seq::empty()
    }) + seq!["-map_metadata"@, "-1"@, "-map_chapters"@, "-1"@, "-c:v"@] + share_video_args(
        mode,
        rate_control,
    ) + (if has_audio {
        share_audio_args()
    } else {
        Seq::empty()
    }) + seq!["-movflags"@, "+faststart"@, "-f"@, "mp4"@, target]
}

fn push(args: &mut Vec<String>, arg: &str)
    ensures
        views(final(args)@) == views(old(args)@).push(arg@),
{
    let ghost before = args@;
    args.push(arg.to_string());
    assert(views(args@) =~= views(before).push(arg@));
}

fn push_input(args: &mut Vec<String>, input: &str)
    ensures
        views(final(args)@) == views(old(args)@) + share_input_args(input@),
{
    let ghost before = views(args@);
    push(args, "-hide_banner");
    push(args, "-loglevel");
    push(args, "error");
    push(args, "-nostdin");
    push(args, "-y");
    push(args, "-i");
    push(args, input);
    push(args, "-map");
    push(args, "0:v:0");
    assert(views(args@) =~= before + share_input_args(input@));
}

fn push_video(args: &mut Vec<String>, mode: &ShareVideoExportMode, rate_control: &Vec<String>)
    ensures
        views(final(args)@) == views(old(args)@) + seq![
            "-map_metadata"@,
            "-1"@,
            "-map_chapters"@,
            "-1"@,
            "-c:v"@,
        ] + share_video_args(*mode, views(rate_control@)),
{
    let ghost before = views(args@);
    push(args, "-map_metadata");
    push(args, "-1");
    push(args, "-map_chapters");
    push(args, "-1");
    push(args, "-c:v");
    let ghost chosen = views(args@);
    assert(chosen =~= before + seq!["-map_metadata"@, "-1"@, "-map_chapters"@, "-1"@, "-c:v"@]);
    match mode {
        ShareVideoExportMode::Copy => {
            push(args, "copy");
        },
        ShareVideoExportMode::Encode { encoder, .. } => {
            push(args, encoder.as_str());
            let ghost named = args@;
            let mut rate = clone_strings(rate_control);
            args.append(&mut rate);
            assert(views(args@) =~= views(named) + views(rate_control@));
            push(args, "-pix_fmt");
            push(args, "nv12");
        },
    }
    assert(views(args@) =~= chosen + share_video_args(*mode, views(rate_control@)));
}

fn push_audio(args: &mut Vec<String>)
    ensures
        views(final(args)@) == views(old(args)@) + share_audio_args(),
{
    let ghost before = views(args@);
    push(args, "-c:a");
    push(args, "aac");
    push(args, "-profile:a");
    push(args, "aac_low");
    push(args, "-b:a");
    push(args, "192k");
    push(args, "-ac");
    push(args, "2");
    push(args, "-ar");
    push(args, "48000");
    assert(views(args@) =~= before + share_audio_args());
}

/// The arguments of FFmpeg that make a copy. `rate_control` are those that hold an encoder to
/// the bit rate of a copy.
pub fn ffmpeg_share_export_args(
    input: &str,
    target: &str,
    has_audio: bool,
    video_mode: &ShareVideoExportMode,
    rate_control: &Vec<String>,
) -> (args: Vec<String>)
    ensures
        views(args@) == share_args(input@, target@, has_audio, *video_mode, views(rate_control@)),
{
    let mut args: Vec<String> = Vec::new();
    push_input(&mut args, input);
    assert(views(args@) =~= share_input_args(input@));
    let ghost mapped = views(args@);
    if has_audio {
        push(&mut args, "-map");
        push(&mut args, "0:a:0");
        assert(views(args@) =~= mapped + seq!["-map"@, "0:a:0"@]);
    }
    assert(!has_audio ==> views(args@) =~= mapped + Seq::<Seq<char>>::empty());
    push_video(&mut args, video_mode, rate_control);
    let ghost shown = views(args@);
    if has_audio {
        push_audio(&mut args);
    }
    assert(!has_audio ==> views(args@) =~= shown + Seq::<Seq<char>>::empty());
    let ghost heard = views(args@);
    push(&mut args, "-movflags");
    push(&mut args, "+faststart");
    push(&mut args, "-f");
    push(&mut args, "mp4");
    push(&mut args, target);
    assert(views(args@) =~= heard + seq!["-movflags"@, "+faststart"@, "-f"@, "mp4"@, target@]);
    args
}

// ---------------------------------------------------------------------------
// Running FFmpeg
// ---------------------------------------------------------------------------

/// The seconds that making a copy may take: at least two minutes, at most six hours.
pub fn share_export_timeout_s(seconds: u64) -> (timeout_s: u64)
    ensures
        timeout_s == (if seconds < 120 {
            120
        } else if seconds > 21_600 {
            21_600
        } else {
            seconds
        }),
{
    if seconds < 120 {
        120
    } else if seconds > 21_600 {
        21_600
    } else {
        seconds
    }
}

/// The nanoseconds that are left until a deadline, if there are any.
pub fn remaining_share_export_timeout(deadline_ns: u64, now_ns: u64) -> (remaining: Option<u64>)
    ensures
        match remaining {
            Some(left) => left > 0 && now_ns + left == deadline_ns,
            None => deadline_ns <= now_ns,
        },
{
    if now_ns < deadline_ns {
        Some(deadline_ns - now_ns)
    } else {
        None
    }
}

/// What came of one run of FFmpeg.
#[derive(Debug, PartialEq, Eq)]
pub enum TranscodeOutcome {
    Succeeded,
    Failed { stderr: String, status: String },
    NotRun(String),
}

/// The error of a run that did not succeed: what it printed, or how it ended.
pub open spec fn attempt_error(outcome: TranscodeOutcome) -> Seq<char> {
    match outcome {
        TranscodeOutcome::Succeeded => Seq::empty(),
        TranscodeOutcome::Failed { stderr, status } => if is_blank(stderr@) {
            "ffmpeg exited with "@ + status@
        } else {
            trimmed(stderr@)
        },
        TranscodeOutcome::NotRun(error) => error@,
    }
}

#[derive(Debug, Clone, Copy, PartialEq, Eq, Structural)]
pub enum TranscodePhase {
    Ready,
    Running,
    Succeeded,
    GaveUp,
}

/// Making a copy by the ways that there are, one after the other, under one deadline.
#[derive(Debug, PartialEq, Eq)]
pub struct ShareTranscode {
    pub ways: usize,
    pub at: usize,
    pub timeout_s: u64,
    pub phase: TranscodePhase,
    pub last_error: String,
}

impl ShareTranscode {
    pub open spec fn wf(self) -> bool {
        &&& self.at <= self.ways
        &&& self.phase is Running ==> self.at < self.ways
    }

    pub fn begin(ways: usize, timeout_s: u64) -> (transcode: ShareTranscode)
        ensures
            transcode.wf(),
            transcode.ways == ways,
            transcode.at == 0,
            transcode.timeout_s == timeout_s,
            transcode.phase == TranscodePhase::Ready,
            transcode.last_error@ == Seq::<char>::empty(),
    {
        let last_error = String::new();
        assert(last_error@ =~= Seq::<char>::empty());
        ShareTranscode { ways, at: 0, timeout_s, phase: TranscodePhase::Ready, last_error }
    }

    /// The next way to try, with the time that is left. Where there is no way or no time left,
    /// the copy is given up.
    pub fn next(&mut self, remaining: Option<u64>) -> (way: Option<usize>)
        requires
            old(self).wf(),
            old(self).phase is Ready,
        ensures
            final(self).wf(),
            final(self).ways == old(self).ways,
            final(self).at == old(self).at,
            final(self).timeout_s == old(self).timeout_s,
            if old(self).at == old(self).ways {
                &&& way is None
                &&& final(self).phase is GaveUp
                &&& final(self).last_error == old(self).last_error
            } else if remaining is None {
                &&& way is None
                &&& final(self).phase is GaveUp
                &&& final(self).last_error@ == "ffmpeg share export exhausted its "@ + decimal(
                    old(self).timeout_s as nat,
                ) + " second timeout"@
            } else {
                &&& way == Some(old(self).at)
                &&& final(self).phase is Running
                &&& final(self).last_error == old(self).last_error
            },
    {
        if self.at == self.ways {
            self.phase = TranscodePhase::GaveUp;
            return None;
        }
        match remaining {
            None => {
                let seconds = decimal_string(self.timeout_s);
                self.last_error = concat3(
                    "ffmpeg share export exhausted its ",
                    seconds.as_str(),
                    " second timeout",
                );
                self.phase = TranscodePhase::GaveUp;
                None
            },
            Some(_) => {
                self.phase = TranscodePhase::Running;
                Some(self.at)
            },
        }
    }

    /// Takes what came of the way that was tried: the first success is the last attempt.
    pub fn attempted(&mut self, outcome: TranscodeOutcome)
        requires
            old(self).wf(),
            old(self).phase is Running,
        ensures
            final(self).wf(),
            final(self).ways == old(self).ways,
            final(self).timeout_s == old(self).timeout_s,
            if outcome is Succeeded {
                &&& final(self).phase is Succeeded
                &&& final(self).at == old(self).at
                &&& final(self).last_error == old(self).last_error
            } else {
                &&& final(self).phase is Ready
                &&& final(self).at == old(self).at + 1
                &&& final(self).last_error@ == attempt_error(outcome)
            },
    {
        match outcome {
            TranscodeOutcome::Succeeded => {
                self.phase = TranscodePhase::Succeeded;
            },
            TranscodeOutcome::Failed { stderr, status } => {
                self.last_error = if blank(stderr.as_str()) {
                    concat2("ffmpeg exited with ", status.as_str())
                } else {
                    trim(stderr.as_str())
                };
                self.at += 1;
                self.phase = TranscodePhase::Ready;
            },
            TranscodeOutcome::NotRun(error) => {
                self.last_error = error;
                self.at += 1;
                self.phase = TranscodePhase::Ready;
            },
        }
    }

    /// Whether the file of the copy is removed now: before each way that is tried, and after
    /// the copy is given up. What a way that succeeded made stays.
    pub fn removes_target(&self) -> (r: bool)
        ensures
            r == (self.phase is Running || self.phase is GaveUp),
    {
        match self.phase {
            TranscodePhase::Running => true,
            TranscodePhase::GaveUp => true,
            _ => false,
        }
    }

    /// What came of making the copy.
    pub fn result(&self) -> (res: Result<(), String>)
        requires
            self.phase is Succeeded || self.phase is GaveUp,
        ensures
            res is Ok <==> self.phase is Succeeded,
            res matches Err(error) ==> error@ == "prepare shareable clipboard clip: "@
                + self.last_error@,
    {
        match self.phase {
            TranscodePhase::Succeeded => Ok(()),
            _ => Err(concat2("prepare shareable clipboard clip: ", self.last_error.as_str())),
        }
    }
}

/// What is seen of a running FFmpeg.
#[derive(Debug, PartialEq, Eq)]
pub enum SharePoll {
    Exited,
    Running,
    Failed(String),
}

/// What to do about a running FFmpeg. `Stop` ends it and gives the error.
#[derive(Debug, PartialEq, Eq)]
pub enum ShareWaitStep {
    Finish,
    Sleep,
    Stop(String),
}

/// Waits for FFmpeg until it exits or its time is up.
pub fn share_wait_step(poll: &SharePoll, now_ns: u64, deadline_ns: u64, timeout_s: u64) -> (step:
    ShareWaitStep)
    ensures
        match poll {
            SharePoll::Exited => step is Finish,
            SharePoll::Running => if now_ns < deadline_ns {
                step is Sleep
            } else {
                step is Stop && step->Stop_0@ == "ffmpeg share export timed out after "@ + decimal(
                    timeout_s as nat,
                ) + " seconds"@
            },
            SharePoll::Failed(error) => step is Stop && step->Stop_0@
                == "wait for ffmpeg share export: "@ + error@,
        },
{
    match poll {
        SharePoll::Exited => ShareWaitStep::Finish,
        SharePoll::Running => {
            if now_ns < deadline_ns {
                ShareWaitStep::Sleep
            } else {
                let seconds = decimal_string(timeout_s);
                ShareWaitStep::Stop(
                    concat3("ffmpeg share export timed out after ", seconds.as_str(), " seconds"),
                )
            }
        },
        SharePoll::Failed(error) => ShareWaitStep::Stop(
            concat2("wait for ffmpeg share export: ", error.as_str()),
        ),
    }
}

/// The part of a stream that is kept: its beginning.
pub open spec fn bounded(stream: Seq<u8>, max_bytes: nat) -> Seq<u8> {
    if stream.len() <= max_bytes {
        stream
    } else {
        stream.take(max_bytes as int)
    }
}

/// Keeps as much of the next chunk of a stream as there is room for.
pub fn retain_share_stderr(retained: &mut Vec<u8>, chunk: &[u8], max_bytes: usize)
    requires
        old(retained)@.len() <= max_bytes,
    ensures
        final(retained)@ == bounded(old(retained)@ + chunk@, max_bytes as nat),
{
    let ghost before = retained@;
    let mut i: usize = 0;
    while i < chunk.len() && retained.len() < max_bytes
        invariant
            i <= chunk@.len(),
            before.len() <= max_bytes,
            retained@.len() <= max_bytes,
            retained@ == before + chunk@.take(i as int),
        decreases chunk@.len() - i,
    {
        retained.push(chunk[i]);
        i += 1;
        assert(chunk@.take(i as int) =~= chunk@.take(i - 1).push(chunk@[i - 1]));
        assert(retained@ =~= before + chunk@.take(i as int));
    }
    proof {
        if i == chunk@.len() {
            assert(chunk@.take(i as int) =~= chunk@);
        } else {
            assert(retained@ =~= (before + chunk@).take(max_bytes as int));
        }
    }
}

/// What is kept chunk by chunk is the beginning of the whole stream.
pub proof fn law_kept_stderr_is_the_beginning(stream: Seq<u8>, chunk: Seq<u8>, max_bytes: nat)
    ensures
        bounded(bounded(stream, max_bytes) + chunk, max_bytes) == bounded(stream + chunk, max_bytes),
        bounded(stream, max_bytes).len() <= max_bytes,
{
    let kept = bounded(stream, max_bytes);
    if stream.len() > max_bytes {
        assert((kept + chunk).take(max_bytes as int) =~= kept);
        assert((stream + chunk).take(max_bytes as int) =~= kept);
        assert(chunk.len() == 0 ==> kept + chunk =~= kept);
    }
}

// ---------------------------------------------------------------------------
// The cache
// ---------------------------------------------------------------------------

/// What the name of a copy in the cache is made from: a change of any part gives a new file.
#[derive(Debug, PartialEq, Eq)]
pub struct ShareExportKey {
    pub version: String,
    pub source: String,
    pub len: u64,
    pub modified_ns: Option<i128>,
    pub mixes: Option<bool>,
    pub tracks: Vec<u32>,
    pub audio_track_ids: Vec<String>,
}

/// The key of a copy of a clip with the audio that was chosen.
pub fn share_export_key(
    source: &str,
    len: u64,
    modified_ns: Option<i128>,
    selected_audio_track_ids: &Option<Vec<String>>,
    mode: &Option<ShareAudioExportMode>,
) -> (key: ShareExportKey)
    ensures
        key.version@ == "share-export-v3-aac-h264-cbr8m"@,
        key.source@ == source@,
        key.len == len,
        key.modified_ns == modified_ns,
        match mode {
            Some(mode) => key.mixes == Some(audio_mode_view(*mode).0) && key.tracks@
                == audio_mode_view(*mode).1,
            None => key.mixes is None && key.tracks@.len() == 0,
        },
        match selected_audio_track_ids {
            Some(ids) => key.audio_track_ids@ == ids@,
            None => key.audio_track_ids@.len() == 0,
        },
{
    let (mixes, tracks) = match mode {
        Some(ShareAudioExportMode::Remux(indices)) => (Some(false), indices.clone()),
        Some(ShareAudioExportMode::Mix(indices)) => (Some(true), indices.clone()),
        None => (None, Vec::new()),
    };
    let audio_track_ids = match selected_audio_track_ids {
        Some(ids) => clone_strings(ids),
        None => Vec::new(),
    };
    ShareExportKey {
        version: "share-export-v3-aac-h264-cbr8m".to_string(),
        source: source.to_string(),
        len,
        modified_ns,
        mixes,
        tracks,
        audio_track_ids,
    }
}

/// The file name of a copy, from the digest of its key.
pub fn share_export_name(digest: u64) -> (name: String)
    ensures
        name@ == "share-export-"@ + hex_fixed(digest as nat, 16) + ".mp4"@,
{
    let digits = hex_u64(digest);
    concat3("share-export-", digits.as_str(), ".mp4")
}

#[derive(Debug, Clone, Copy, PartialEq, Eq, Structural)]
pub enum ShareExportPhase {
    LookingUp,
    Naming,
    Exporting,
    Publishing,
    LookingAgain,
    Removing,
    Finished,
}

/// What is to be done next about a copy.
#[derive(Debug, PartialEq, Eq)]
pub enum ShareExportAction {
    /// Look whether there is such a file. Answered by `Found`.
    LookUp(String),
    /// Choose a file beside this one to write to first. Answered by `Named`.
    Name(String),
    /// Write the copy. Answered by `Came`.
    Export(String),
    /// Rename a file. Answered by `Came`.
    Publish { tmp_path: String, final_path: String },
    /// Remove a file, if it is there. Answered by `Done`.
    Remove(String),
    /// There is nothing left to do.
    Stop,
}

/// A copy on its way into the cache. `tmp_path` is the file that it is written to first, once
/// it was chosen.
#[derive(Debug, PartialEq, Eq)]
pub struct ShareExport {
    pub export: String,
    pub tmp_path: String,
    pub phase: ShareExportPhase,
    pub failure: Option<String>,
}

/// Whether an answer is one to the action of a phase.
pub open spec fn share_answer_fits(phase: ShareExportPhase, answer: FileAnswer) -> bool {
    match phase {
        ShareExportPhase::LookingUp | ShareExportPhase::LookingAgain => answer is Found,
        ShareExportPhase::Naming => answer is Named,
        ShareExportPhase::Exporting | ShareExportPhase::Publishing => answer is Came,
        ShareExportPhase::Removing => answer is Done,
        ShareExportPhase::Finished => false,
    }
}

impl ShareExport {
    /// The file that a clip is copied to the clipboard from, where no copy is needed.
    pub fn original_path(source: &str, original: bool) -> (path: Option<String>)
        ensures
            path is Some <==> original,
            path matches Some(path) ==> path@ == source@,
    {
        if original {
            Some(source.to_string())
        } else {
            None
        }
    }

    pub fn begin(export: String) -> (share: ShareExport)
        ensures
            share.export == export,
            share.phase == ShareExportPhase::LookingUp,
            share.failure is None,
    {
        ShareExport {
            export,
            tmp_path: String::new(),
            phase: ShareExportPhase::LookingUp,
            failure: None,
        }
    }

    /// What is to be done next.
    pub fn action(&self) -> (action: ShareExportAction)
        ensures
            action == (match self.phase {
                ShareExportPhase::LookingUp | ShareExportPhase::LookingAgain =>
                ShareExportAction::LookUp(self.export),
                ShareExportPhase::Naming => ShareExportAction::Name(self.export),
                ShareExportPhase::Exporting => ShareExportAction::Export(self.tmp_path),
                ShareExportPhase::Publishing => ShareExportAction::Publish {
                    tmp_path: self.tmp_path,
                    final_path: self.export,
                },
                ShareExportPhase::Removing => ShareExportAction::Remove(self.tmp_path),
                ShareExportPhase::Finished => ShareExportAction::Stop,
            }),
    {
        match self.phase {
            ShareExportPhase::LookingUp | ShareExportPhase::LookingAgain =>
            ShareExportAction::LookUp(self.export.clone()),
            ShareExportPhase::Naming => ShareExportAction::Name(self.export.clone()),
            ShareExportPhase::Exporting => ShareExportAction::Export(self.tmp_path.clone()),
            ShareExportPhase::Publishing => ShareExportAction::Publish {
                tmp_path: self.tmp_path.clone(),
                final_path: self.export.clone(),
            },
            ShareExportPhase::Removing => ShareExportAction::Remove(self.tmp_path.clone()),
            ShareExportPhase::Finished => ShareExportAction::Stop,
        }
    }

    /// Takes the answer to the action that was due. A copy that is there already is used as it
    /// is, also where it appeared while this one was made.
    pub fn answered(&mut self, answer: FileAnswer)
        requires
            share_answer_fits(old(self).phase, answer),
        ensures
            final(self).export == old(self).export,
            match old(self).phase {
                ShareExportPhase::LookingUp => final(self).phase == (if answer->Found_0 {
                    ShareExportPhase::Finished
                } else {
                    ShareExportPhase::Naming
                }) && final(self).failure == old(self).failure && final(self).tmp_path == old(
                    self,
                ).tmp_path,
                ShareExportPhase::Naming => match answer->Named_0 {
                    Err(error) => final(self).phase is Finished && final(self).failure == Some(
                        error,
                    ) && final(self).tmp_path == old(self).tmp_path,
                    Ok(tmp_path) => final(self).phase is Exporting && final(self).failure == old(
                        self,
                    ).failure && final(self).tmp_path == tmp_path,
                },
                ShareExportPhase::Exporting => final(self).tmp_path == old(self).tmp_path
                    && match answer->Came_0 {
                    Err(error) => final(self).phase is Removing && final(self).failure == Some(
                        error,
                    ),
                    Ok(_) => final(self).phase is Publishing && final(self).failure == old(
                        self,
                    ).failure,
                },
                ShareExportPhase::Publishing => final(self).tmp_path == old(self).tmp_path
                    && match answer->Came_0 {
                    Err(error) => final(self).phase is LookingAgain && final(self).failure is Some
                        && final(self).failure->0@ == "finalize share export: "@ + error@,
                    Ok(_) => final(self).phase is Finished && final(self).failure == old(
                        self,
                    ).failure,
                },
                ShareExportPhase::LookingAgain => final(self).tmp_path == old(self).tmp_path
                    && final(self).phase is Removing && final(self).failure == (
                if answer->Found_0 {
                    None
                } else {
                    old(self).failure
                }),
                _ => final(self).tmp_path == old(self).tmp_path && final(self).phase is Finished
                    && final(self).failure == old(self).failure,
            },
    {
        match self.phase {
            ShareExportPhase::LookingUp => {
                if let FileAnswer::Found(found) = answer {
                    self.phase = if found {
                        ShareExportPhase::Finished
                    } else {
                        ShareExportPhase::Naming
                    };
                }
            },
            ShareExportPhase::Naming => {
                if let FileAnswer::Named(res) = answer {
                    match res {
                        Err(error) => {
                            self.failure = Some(error);
                            self.phase = ShareExportPhase::Finished;
                        },
                        Ok(tmp_path) => {
                            self.tmp_path = tmp_path;
                            self.phase = ShareExportPhase::Exporting;
                        },
                    }
                }
            },
            ShareExportPhase::Exporting => {
                if let FileAnswer::Came(res) = answer {
                    match res {
                        Err(error) => {
                            self.failure = Some(error);
                            self.phase = ShareExportPhase::Removing;
                        },
                        Ok(_) => {
                            self.phase = ShareExportPhase::Publishing;
                        },
                    }
                }
            },
            ShareExportPhase::Publishing => {
                if let FileAnswer::Came(res) = answer {
                    match res {
                        Err(error) => {
                            self.failure = Some(concat2("finalize share export: ", error.as_str()));
                            self.phase = ShareExportPhase::LookingAgain;
                        },
                        Ok(_) => {
                            self.phase = ShareExportPhase::Finished;
                        },
                    }
                }
            },
            ShareExportPhase::LookingAgain => {
                if let FileAnswer::Found(found) = answer {
                    if found {
                        self.failure = None;
                    }
                    self.phase = ShareExportPhase::Removing;
                }
            },
            ShareExportPhase::Removing | ShareExportPhase::Finished => {
                self.phase = ShareExportPhase::Finished;
            },
        }
    }

    /// What came of it: the file of the copy.
    pub fn result(self) -> (res: Result<String, String>)
        requires
            self.phase is Finished,
        ensures
            match self.failure {
                None => res == Ok::<String, String>(self.export),
                Some(error) => res == Err::<String, String>(error),
            },
    {
        match self.failure {
            None => Ok(self.export),
            Some(error) => Err(error),
        }
    }
}

/// A copy is made of the first video track of the clip and, where it has audio, of the first audio
/// track; data about the clip is left out, the video is copied or encoded as was chosen, and the
/// copy is written to its file.
pub proof fn law_arguments_of_a_copy(
    input: Seq<char>,
    target: Seq<char>,
    encoder: String,
    backend: EncoderBackend,
    rate_control: Seq<Seq<char>>,
)
    ensures
        share_args(input, target, false, ShareVideoExportMode::Copy, rate_control) == seq![
            "-hide_banner"@,
            "-loglevel"@,
            "error"@,
            "-nostdin"@,
            "-y"@,
            "-i"@,
            input,
            "-map"@,
            "0:v:0"@,
            "-map_metadata"@,
            "-1"@,
            "-map_chapters"@,
            "-1"@,
            "-c:v"@,
            "copy"@,
            "-movflags"@,
            "+faststart"@,
            "-f"@,
            "mp4"@,
            target,
        ],
        share_args(
            input,
            target,
            true,
            ShareVideoExportMode::Encode { encoder, backend },
            rate_control,
        ) == seq![
            "-hide_banner"@,
            "-loglevel"@,
            "error"@,
            "-nostdin"@,
            "-y"@,
            "-i"@,
            input,
            "-map"@,
            "0:v:0"@,
            "-map"@,
            "0:a:0"@,
            "-map_metadata"@,
            "-1"@,
            "-map_chapters"@,
            "-1"@,
            "-c:v"@,
            encoder@,
        ] + rate_control + seq![
            "-pix_fmt"@,
            "nv12"@,
            "-c:a"@,
            "aac"@,
            "-profile:a"@,
            "aac_low"@,
            "-b:a"@,
            "192k"@,
            "-ac"@,
            "2"@,
            "-ar"@,
            "48000"@,
            "-movflags"@,
            "+faststart"@,
            "-f"@,
            "mp4"@,
            target,
        ],
{
    assert(share_args(input, target, false, ShareVideoExportMode::Copy, rate_control) =~= seq![
        "-hide_banner"@,
        "-loglevel"@,
        "error"@,
        "-nostdin"@,
        "-y"@,
        "-i"@,
        input,
        "-map"@,
        "0:v:0"@,
        "-map_metadata"@,
        "-1"@,
        "-map_chapters"@,
        "-1"@,
        "-c:v"@,
        "copy"@,
        "-movflags"@,
        "+faststart"@,
        "-f"@,
        "mp4"@,
        target,
    ]);
    assert(share_args(
        input,
        target,
        true,
        ShareVideoExportMode::Encode { encoder, backend },
        rate_control,
    ) =~= seq![
        "-hide_banner"@,
        "-loglevel"@,
        "error"@,
        "-nostdin"@,
        "-y"@,
        "-i"@,
        input,
        "-map"@,
        "0:v:0"@,
        "-map"@,
        "0:a:0"@,
        "-map_metadata"@,
        "-1"@,
        "-map_chapters"@,
        "-1"@,
        "-c:v"@,
        encoder@,
    ] + rate_control + seq![
        "-pix_fmt"@,
        "nv12"@,
        "-c:a"@,
        "aac"@,
        "-profile:a"@,
        "aac_low"@,
        "-b:a"@,
        "192k"@,
        "-ac"@,
        "2"@,
        "-ar"@,
        "48000"@,
        "-movflags"@,
        "+faststart"@,
        "-f"@,
        "mp4"@,
        target,
    ]);
}

/// The audio adds its two arguments behind the video and its form before the end, and nothing
/// else: with and without it the rest is the same.
pub proof fn law_audio_adds_its_arguments(
    input: Seq<char>,
    target: Seq<char>,
    mode: ShareVideoExportMode,
    rate_control: Seq<Seq<char>>,
)
    ensures
        ({
            let silent = share_args(input, target, false, mode, rate_control);
            let heard = share_args(input, target, true, mode, rate_control);
            let end = silent.len() - 5;
            &&& heard == silent.take(9) + seq!["-map"@, "0:a:0"@] + silent.subrange(9, end) + seq![
                "-c:a"@,
                "aac"@,
                "-profile:a"@,
                "aac_low"@,
                "-b:a"@,
                "192k"@,
                "-ac"@,
                "2"@,
                "-ar"@,
                "48000"@,
            ] + silent.skip(end)
            &&& silent.last() == target
            &&& silent[6] == input
            &&& silent.take(9) == share_input_args(input)
        }),
{
    let silent = share_args(input, target, false, mode, rate_control);
    let heard = share_args(input, target, true, mode, rate_control);
    let end = silent.len() - 5;
    let head = share_input_args(input);
    let shown = seq!["-map_metadata"@, "-1"@, "-map_chapters"@, "-1"@, "-c:v"@] + share_video_args(
        mode,
        rate_control,
    );
    let tail = seq!["-movflags"@, "+faststart"@, "-f"@, "mp4"@, target];
    assert(silent =~= head + shown + tail);
    assert(silent.take(9) =~= head);
    assert(silent.subrange(9, end) =~= shown);
    assert(silent.skip(end) =~= tail);
    assert(heard =~= head + seq!["-map"@, "0:a:0"@] + shown + share_audio_args() + tail);
    assert(heard =~= silent.take(9) + seq!["-map"@, "0:a:0"@] + silent.subrange(9, end) + seq![
        "-c:a"@,
        "aac"@,
        "-profile:a"@,
        "aac_low"@,
        "-b:a"@,
        "192k"@,
        "-ac"@,
        "2"@,
        "-ar"@,
        "48000"@,
    ] + silent.skip(end));
}

/// A run that failed is told by what it printed, or by how it ended where it printed nothing; one
/// that did not start by its error.
pub proof fn law_failed_runs_are_told(stderr: String, status: String, error: String)
    ensures
        attempt_error(TranscodeOutcome::NotRun(error)) == error@,
        is_blank(stderr@) ==> attempt_error(TranscodeOutcome::Failed { stderr, status })
            == "ffmpeg exited with "@ + status@,
        !is_blank(stderr@) ==> attempt_error(TranscodeOutcome::Failed { stderr, status })
            == trimmed(stderr@),
{
}

/// Of a stream everything is kept that fits, from its beginning.
pub proof fn law_kept_stream(stream: Seq<u8>, max_bytes: nat)
    ensures
        bounded(stream, max_bytes).len() == if stream.len() < max_bytes {
            stream.len()
        } else {
            max_bytes
        },
        forall|i: int|
            0 <= i < bounded(stream, max_bytes).len() ==> #[trigger] bounded(stream, max_bytes)[i]
                == stream[i],
{
}

/// Several tracks are mixed, one or none is taken as it is; either way the tracks are those of the
/// mode, in their order.
pub proof fn law_modes_of_the_audio(indices: Vec<u32>)
    ensures
        audio_mode_view(ShareAudioExportMode::Remux(indices)) == (false, indices@),
        audio_mode_view(ShareAudioExportMode::Mix(indices)) == (true, indices@),
{
}

} // verus!
