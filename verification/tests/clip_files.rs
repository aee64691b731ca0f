//! Files made from clips: audio sidecars, shareable copies, and the caches that hold them.
//! The disk is a map in memory.

use clipline_app::encoders::{Codec, EncoderApi, EncoderBackend, EncoderCapability};
use clipline_app::markers::ClipAudioTrack;
use clipline_app::preview_cache::{
    is_audio_preview_mp4, is_audio_preview_partial, is_cached_mp4_file, prune_audio_preview_cache,
    share_export_is_stale, AudioPreviewPruneReport, PreviewEntry, AUDIO_PREVIEW_CACHE_MAX_BYTES,
    SHARE_EXPORT_MAX_AGE_NS,
};
use clipline_app::share_export::{
    clipboard_share_export_mode, ffmpeg_share_export_args, remaining_share_export_timeout,
    retain_share_stderr, share_export_key, share_export_name, share_export_timeout_s,
    share_has_audio, share_video_export_modes, share_wait_step, CopyClipToClipboardRequest,
    MediaVideoCodec, ProbedEncoder, ShareAudioExportMode, ShareExport, ShareExportAction, SharePoll,
    ShareTranscode, ShareVideoExportMode, ShareWaitStep, TranscodeOutcome,
};
use clipline_app::sidecars::{
    audio_track_sidecar_key, audio_track_sidecar_name, ffmpeg_audio_sidecar_args,
    resolve_audio_sidecar_tracks, validate_audio_sidecar, AudioTrackSidecarOutput, FileAnswer,
    MediaTrackCounts, PrepareClipAudioSidecarsRequest, PreparedClipAudioSidecar,
    ResolvedAudioTrackSidecar, SidecarAction, SidecarDefect, SidecarError, SidecarKey,
    SidecarPreparation,
};
use std::cell::RefCell;
use std::collections::hash_map::DefaultHasher;
use std::collections::BTreeMap;
use std::hash::{Hash, Hasher};

fn strings(values: &[&str]) -> Vec<String> {
    values.iter().map(|value| value.to_string()).collect()
}

fn has_pair(args: &[String], first: &str, second: &str) -> bool {
    args.windows(2).any(|pair| pair[0] == first && pair[1] == second)
}

/// What a file holds: the audio of one stream, or bytes that are no media.
#[derive(Debug, Clone, PartialEq, Eq)]
enum Content {
    Audio(u32),
    Bytes(u64),
}

#[derive(Debug, Clone, PartialEq, Eq)]
struct Entry {
    content: Content,
    modified: i128,
}

#[derive(Debug, Default)]
struct Disk {
    files: RefCell<BTreeMap<String, Entry>>,
    clock: RefCell<i128>,
    temps: RefCell<u64>,
}

const AUDIO_LEN: u64 = 50;

impl Disk {
    fn write(&self, path: &str, content: Content) {
        *self.clock.borrow_mut() += 1;
        let modified = *self.clock.borrow() + 1000;
        self.files.borrow_mut().insert(path.to_string(), Entry { content, modified });
    }

    fn write_at(&self, path: &str, content: Content, modified: i128) {
        self.files.borrow_mut().insert(path.to_string(), Entry { content, modified });
    }

    fn holds(&self, path: &str) -> bool {
        self.files.borrow().contains_key(path)
    }

    fn remove(&self, path: &str) -> bool {
        self.files.borrow_mut().remove(path).is_some()
    }

    fn rename(&self, from: &str, to: &str) -> Result<(), String> {
        let entry = self.files.borrow_mut().remove(from).ok_or("missing")?;
        self.files.borrow_mut().insert(to.to_string(), entry);
        Ok(())
    }

    fn len(&self, path: &str) -> u64 {
        match self.files.borrow()[path].content {
            Content::Audio(_) => AUDIO_LEN,
            Content::Bytes(len) => len,
        }
    }

    fn check(&self, path: &str) -> Result<(), String> {
        if !self.holds(path) {
            return Err(format!("read audio sidecar metadata {path:?}: not found"));
        }
        let counts = match self.files.borrow()[path].content {
            Content::Audio(_) => MediaTrackCounts { video: 0, audio: 1 },
            Content::Bytes(_) => MediaTrackCounts { video: 0, audio: 0 },
        };
        validate_audio_sidecar(self.len(path), counts).map_err(|defect| match defect {
            SidecarDefect::Empty => format!("audio sidecar {path:?} was empty"),
            SidecarDefect::UnexpectedTracks(counts) => format!(
                "audio sidecar {path:?} had unexpected tracks: video={}, audio={}",
                counts.video, counts.audio
            ),
        })
    }

    fn temp(&self, path: &str) -> String {
        *self.temps.borrow_mut() += 1;
        format!("{path}.1.{}.tmp", self.temps.borrow())
    }

    fn prune(&self, protected: &[String], max_bytes: u64) -> AudioPreviewPruneReport {
        let entries: Vec<Result<PreviewEntry, String>> = self
            .files
            .borrow()
            .iter()
            .map(|(name, entry)| {
                Ok(PreviewEntry {
                    name: name.clone(),
                    len: Ok(match entry.content {
                        Content::Audio(_) => AUDIO_LEN,
                        Content::Bytes(len) => len,
                    }),
                    modified_ns: entry.modified,
                    protected: protected.contains(name),
                })
            })
            .collect();
        prune_audio_preview_cache(&entries, max_bytes, |name: &str| self.remove(name))
            .outcome
            .unwrap()
    }
}

fn digest(key: &SidecarKey) -> u64 {
    let mut hasher = DefaultHasher::new();
    key.version.hash(&mut hasher);
    key.source.hash(&mut hasher);
    key.len.hash(&mut hasher);
    key.modified_ns.hash(&mut hasher);
    key.audio_track_id.hash(&mut hasher);
    hasher.finish()
}

fn sidecar_path(track_id: &str) -> String {
    audio_track_sidecar_name(digest(&audio_track_sidecar_key("clip.mp4", 900, Some(7), track_id)))
}

fn tracks(list: &[(&str, u32)]) -> Option<Vec<ClipAudioTrack>> {
    Some(
        list.iter()
            .map(|(id, track_index)| ClipAudioTrack {
                id: id.to_string(),
                track_index: *track_index,
                label: id.to_string(),
                kind: Some("test".to_string()),
            })
            .collect(),
    )
}

fn text(error: SidecarError) -> String {
    match error {
        SidecarError::Reported(error) => error,
        SidecarError::Winner { path, error } => {
            format!("finalize audio sidecar collision winner {path:?}: {error}")
        }
        SidecarError::Publication { tmp_path, final_path, error } => {
            format!("finalize audio sidecar {tmp_path:?} -> {final_path:?}: {error}")
        }
    }
}

fn begin(selected: &[&str], clip: &[(&str, u32)], active: &[&str]) -> SidecarPreparation {
    let resolved =
        resolve_audio_sidecar_tracks(&tracks(clip), &strings(selected), &Ok(Vec::new())).unwrap();
    let finals = resolved.iter().map(|track| sidecar_path(&track.audio_track_id)).collect();
    SidecarPreparation::begin(resolved, finals, strings(active))
}

/// Runs a preparation to its end. `intrude` runs before each file is published.
fn run_with(
    disk: &Disk,
    mut preparation: SidecarPreparation,
    max_bytes: u64,
    mut extract: impl FnMut(&[AudioTrackSidecarOutput]) -> Result<(), String>,
    mut allow: impl FnMut(&PreparedClipAudioSidecar) -> Result<(), String>,
    mut intrude: impl FnMut(&str),
) -> Result<Vec<PreparedClipAudioSidecar>, SidecarError> {
    loop {
        let answer = match preparation.action() {
            SidecarAction::Prune(protected) => {
                disk.prune(&protected, max_bytes);
                FileAnswer::Done
            }
            SidecarAction::LookUp(path) => FileAnswer::Found(disk.holds(&path)),
            SidecarAction::Check(path) => FileAnswer::Came(disk.check(&path)),
            SidecarAction::Refresh(path) => {
                let content = disk.files.borrow()[&path].content.clone();
                disk.write(&path, content);
                FileAnswer::Done
            }
            SidecarAction::Remove(paths) => {
                for path in paths {
                    disk.remove(&path);
                }
                FileAnswer::Done
            }
            SidecarAction::Name(path) => FileAnswer::Named(Ok(disk.temp(&path))),
            SidecarAction::Extract => FileAnswer::Came(extract(&preparation.missing)),
            SidecarAction::Publish { tmp_path, final_path } => {
                intrude(&final_path);
                if disk.holds(&final_path) {
                    FileAnswer::Came(Err("exists".to_string()))
                } else {
                    FileAnswer::Came(disk.rename(&tmp_path, &final_path))
                }
            }
            SidecarAction::Allow(sidecar) => FileAnswer::Came(allow(&sidecar)),
            SidecarAction::Stop => return preparation.result(),
        };
        preparation.answered(answer);
    }
}

fn run(
    disk: &Disk,
    preparation: SidecarPreparation,
    extract: impl FnMut(&[AudioTrackSidecarOutput]) -> Result<(), String>,
) -> Result<Vec<PreparedClipAudioSidecar>, SidecarError> {
    run_with(disk, preparation, AUDIO_PREVIEW_CACHE_MAX_BYTES, extract, |_| Ok(()), |_| ())
}

fn extract_all(disk: &Disk, outputs: &[AudioTrackSidecarOutput]) -> Result<(), String> {
    for output in outputs {
        disk.write(&output.tmp_path, Content::Audio(output.audio_stream_index));
    }
    Ok(())
}

// Sidecars

#[test]
fn audio_sidecar_uncached_tracks_extract_once_and_return_marker_ordered_paths() {
    let disk = Disk::default();
    let calls = RefCell::new(Vec::<Vec<(u32, String, String)>>::new());
    let sidecars = run(
        &disk,
        begin(&["output", "microphone"], &[("microphone", 1), ("output", 0)], &[]),
        |outputs| {
            calls.borrow_mut().push(
                outputs
                    .iter()
                    .map(|output| {
                        (
                            output.audio_stream_index,
                            output.final_path.clone(),
                            output.tmp_path.clone(),
                        )
                    })
                    .collect(),
            );
            extract_all(&disk, outputs)
        },
    )
    .unwrap();

    assert_eq!(calls.borrow().len(), 1);
    assert_eq!(sidecars.len(), 2);
    assert_eq!(sidecars[0].audio_track_id, "microphone");
    assert_eq!(sidecars[1].audio_track_id, "output");
    assert_eq!(
        calls.borrow()[0].iter().map(|(index, _, _)| *index).collect::<Vec<_>>(),
        vec![1, 0]
    );
    assert!(disk.holds(&sidecars[0].path));
    assert!(disk.holds(&sidecars[1].path));
}

#[test]
fn audio_sidecar_outputs_validate_as_audio_only() {
    let disk = Disk::default();
    let sidecars = run(
        &disk,
        begin(&["output", "microphone"], &[("output", 0), ("microphone", 1)], &[]),
        |outputs| extract_all(&disk, outputs),
    )
    .unwrap();
    for (sidecar, stream) in sidecars.iter().zip([0, 1]) {
        assert_eq!(disk.files.borrow()[&sidecar.path].content, Content::Audio(stream));
        assert_eq!(disk.check(&sidecar.path), Ok(()));
    }
    assert_eq!(disk.files.borrow().len(), 2, "no temporary file may be left");
}

#[test]
fn audio_sidecar_reuses_existing_tracks_and_extracts_only_missing_track() {
    let disk = Disk::default();
    let clip = [("output", 0), ("microphone", 1), ("discord", 1)];
    let calls = RefCell::new(Vec::<Vec<u32>>::new());
    let extract = |outputs: &[AudioTrackSidecarOutput]| {
        calls
            .borrow_mut()
            .push(outputs.iter().map(|output| output.audio_stream_index).collect());
        extract_all(&disk, outputs)
    };

    let first = run(&disk, begin(&["output"], &clip, &[]), extract).unwrap();
    let second = run(&disk, begin(&["output", "microphone"], &clip, &[]), extract).unwrap();

    assert_eq!(&*calls.borrow(), &[vec![0], vec![1]]);
    assert_eq!(first[0].path, second[0].path);
}

#[test]
fn audio_sidecar_key_is_per_track_not_selection_combination() {
    let output_only = sidecar_path("output");
    let output_with_other = sidecar_path("output");
    let mic = sidecar_path("microphone");

    assert_eq!(output_only, output_with_other);
    assert_ne!(output_only, mic);
}

#[test]
fn audio_sidecar_key_follows_the_clip() {
    let key = |source: &str, len: u64, modified: Option<i128>| {
        digest(&audio_track_sidecar_key(source, len, modified, "output"))
    };
    let base = key("clip.mp4", 900, Some(7));
    assert_eq!(base, key("clip.mp4", 900, Some(7)));
    assert_ne!(base, key("other.mp4", 900, Some(7)));
    assert_ne!(base, key("clip.mp4", 901, Some(7)));
    assert_ne!(base, key("clip.mp4", 900, Some(8)));
    assert_ne!(base, key("clip.mp4", 900, None));
    assert_eq!(
        audio_track_sidecar_name(0xab),
        "audio-preview-00000000000000ab.mp4"
    );
    assert_eq!(
        audio_track_sidecar_name(u64::MAX),
        "audio-preview-ffffffffffffffff.mp4"
    );
}

#[test]
fn audio_sidecar_prune_protects_active_and_returned_paths() {
    let disk = Disk::default();
    let active = "audio-preview-active.mp4";
    let stale = "audio-preview-stale.mp4";
    disk.write(active, Content::Bytes(40));
    disk.write_at(stale, Content::Bytes(40), 0);

    let request = PrepareClipAudioSidecarsRequest {
        path: "clip.mp4".to_string(),
        audio_track_ids: strings(&["output", "microphone"]),
        protected_preview_paths: strings(&[active]),
    };
    let ids: Vec<&str> = request.audio_track_ids.iter().map(String::as_str).collect();
    let kept: Vec<&str> = request.protected_preview_paths.iter().map(String::as_str).collect();
    let sidecars = run_with(
        &disk,
        begin(&ids, &[("output", 0), ("microphone", 1)], &kept),
        120,
        |outputs| extract_all(&disk, outputs),
        |_| Ok(()),
        |_| (),
    )
    .unwrap();

    assert!(disk.holds(active), "frontend-protected active sidecar must survive");
    assert!(!disk.holds(stale), "unprotected stale cache entry should be pruned");
    for sidecar in sidecars {
        assert!(disk.holds(&sidecar.path), "returned sidecar must survive prune");
    }
}

#[test]
fn audio_sidecar_requested_cache_hit_survives_initial_prune_without_extraction() {
    let disk = Disk::default();
    let requested_hit = sidecar_path("output");
    disk.write_at(&requested_hit, Content::Audio(0), 1);
    let stale = "audio-preview-stale.mp4";
    disk.write_at(stale, Content::Bytes(40), 2);

    let sidecars = run_with(
        &disk,
        begin(&["output"], &[("output", 0)], &[]),
        disk.len(&requested_hit) + 39,
        |_| panic!("extractor must not run for a valid requested cache hit"),
        |_| Ok(()),
        |_| (),
    )
    .unwrap();

    assert!(disk.holds(&requested_hit), "requested hit must survive initial prune");
    assert!(!disk.holds(stale), "stale unrequested entry should be evicted");
    assert_eq!(sidecars.len(), 1);
    assert_eq!(sidecars[0].path, requested_hit);
    assert!(
        disk.files.borrow()[&requested_hit].modified > 2,
        "a hit becomes the most recently used file"
    );
}

#[test]
fn audio_sidecar_failure_cleans_temps_and_publishes_nothing() {
    let disk = Disk::default();
    let err = text(
        run(
            &disk,
            begin(&["output", "microphone"], &[("output", 0), ("microphone", 1)], &[]),
            |outputs| {
                disk.write(&outputs[0].tmp_path, Content::Bytes(7));
                Err("forced extractor failure".to_string())
            },
        )
        .unwrap_err(),
    );

    assert!(err.contains("forced extractor failure"), "{err}");
    assert!(
        disk.files
            .borrow()
            .keys()
            .all(|name| !name.ends_with(".tmp") && !name.ends_with(".mp4")),
        "failure must not leave temp or final sidecars behind"
    );
}

#[test]
fn audio_sidecar_ffmpeg_args_use_one_input_and_one_audio_only_output_per_missing_stream() {
    let outputs = vec![
        AudioTrackSidecarOutput {
            audio_track_id: "output".to_string(),
            audio_stream_index: 0,
            final_path: "audio-preview-1.mp4".to_string(),
            tmp_path: "audio-preview-1.mp4.tmp".to_string(),
        },
        AudioTrackSidecarOutput {
            audio_track_id: "microphone".to_string(),
            audio_stream_index: 2,
            final_path: "audio-preview-2.mp4".to_string(),
            tmp_path: "audio-preview-2.mp4.tmp".to_string(),
        },
    ];

    let args = ffmpeg_audio_sidecar_args("clip.mp4", &outputs);

    assert_eq!(args.iter().filter(|arg| **arg == "-i").count(), 1);
    assert!(has_pair(&args, "-map", "0:a:0"));
    assert!(has_pair(&args, "-map", "0:a:2"));
    assert_eq!(args.iter().filter(|arg| **arg == "-vn").count(), 2);
    assert_eq!(args.iter().filter(|arg| **arg == "-c:a").count(), 2);
    assert_eq!(args.iter().filter(|arg| **arg == "copy").count(), 2);
    assert_eq!(args.iter().filter(|arg| **arg == "-map_metadata").count(), 2);
    assert_eq!(args.iter().filter(|arg| **arg == "-1").count(), 2);
    assert!(!has_pair(&args, "-map", "0:v:0"));
    assert!(!args.iter().any(|arg| *arg == "libopus"));
    assert!(!args.iter().any(|arg| arg.contains("amix")));
    assert_eq!(
        args[..6],
        strings(&["-hide_banner", "-nostdin", "-y", "-i", "clip.mp4", "-map"])
    );
    assert_eq!(args.last().unwrap(), "audio-preview-2.mp4.tmp");
}

#[test]
fn audio_sidecar_publication_guard_removes_owned_finals_but_keeps_collision_winner() {
    let disk = Disk::default();
    let owned = sidecar_path("owned");
    let collision = sidecar_path("collision");
    let published = RefCell::new(false);

    let error = text(
        run_with(
            &disk,
            begin(&["owned", "collision"], &[("owned", 0), ("collision", 1)], &[]),
            AUDIO_PREVIEW_CACHE_MAX_BYTES,
            |outputs| extract_all(&disk, outputs),
            |sidecar| {
                *published.borrow_mut() = disk.holds(&owned) && disk.holds(&collision);
                Err(format!("no scope for {}", sidecar.audio_track_id))
            },
            |final_path| {
                if final_path == collision {
                    disk.write(&collision, Content::Audio(9));
                }
            },
        )
        .unwrap_err(),
    );

    assert_eq!(error, "no scope for owned");
    assert!(*published.borrow(), "both files are there before the failure");
    assert!(!disk.holds(&owned), "an uncommitted file of this preparation is removed");
    assert_eq!(
        disk.files.borrow()[&collision].content,
        Content::Audio(9),
        "the collision winner must stay"
    );
    assert_eq!(disk.files.borrow().len(), 1, "temporary files are gone");
}

#[test]
fn audio_sidecar_validation_failure_owns_temp_cleanup() {
    let disk = Disk::default();
    let error = text(
        run(
            &disk,
            begin(&["valid", "invalid"], &[("valid", 0), ("invalid", 1)], &[]),
            |outputs| {
                disk.write(&outputs[0].tmp_path, Content::Audio(0));
                disk.write(&outputs[1].tmp_path, Content::Bytes(7));
                Ok(())
            },
        )
        .unwrap_err(),
    );
    assert!(error.contains("had unexpected tracks: video=0, audio=0"), "{error}");
    assert!(
        disk.files.borrow().is_empty(),
        "validation failure must remove sibling temps"
    );
}

#[test]
fn audio_sidecar_scope_failure_rolls_back_all_invocation_owned_finals() {
    let disk = Disk::default();
    let winner_path = sidecar_path("output");
    disk.write(&winner_path, Content::Audio(0));

    let err = text(
        run_with(
            &disk,
            begin(
                &["output", "microphone", "discord"],
                &[("output", 0), ("microphone", 1), ("discord", 2)],
                &[],
            ),
            AUDIO_PREVIEW_CACHE_MAX_BYTES,
            |outputs| extract_all(&disk, outputs),
            |prepared| {
                if prepared.audio_track_id == "microphone" {
                    return Err("forced scope failure".to_string());
                }
                Ok(())
            },
            |_| (),
        )
        .unwrap_err(),
    );

    assert!(err.contains("forced scope failure"), "{err}");
    assert!(disk.holds(&winner_path), "pre-existing collision winner must survive rollback");
    assert_eq!(disk.files.borrow()[&winner_path].content, Content::Audio(0));
    assert!(!disk.holds(&sidecar_path("microphone")));
    assert!(!disk.holds(&sidecar_path("discord")));
}

#[test]
fn a_broken_cache_file_is_made_again() {
    let disk = Disk::default();
    let path = sidecar_path("output");
    disk.write(&path, Content::Bytes(0));
    let sidecars = run(&disk, begin(&["output"], &[("output", 3)], &[]), |outputs| {
        assert!(!disk.holds(&outputs[0].final_path), "the broken file is removed first");
        extract_all(&disk, outputs)
    })
    .unwrap();
    assert_eq!(sidecars[0].path, path);
    assert_eq!(disk.files.borrow()[&path].content, Content::Audio(3));
}

#[test]
fn a_broken_collision_winner_fails_the_preparation() {
    let disk = Disk::default();
    let first = sidecar_path("a");
    let second = sidecar_path("b");
    let error = run_with(
        &disk,
        begin(&["a", "b"], &[("a", 0), ("b", 1)], &[]),
        AUDIO_PREVIEW_CACHE_MAX_BYTES,
        |outputs| extract_all(&disk, outputs),
        |_| Ok(()),
        |final_path| {
            if final_path == second {
                disk.write(&second, Content::Bytes(3));
            }
        },
    )
    .unwrap_err();
    assert!(matches!(&error, SidecarError::Winner { path, .. } if *path == second));
    assert!(!disk.holds(&first), "what was published before is withdrawn");
    assert!(disk.holds(&second), "the winner is not touched");
    assert_eq!(disk.files.borrow().len(), 1, "temporary files are gone");
}

#[test]
fn a_file_that_cannot_be_published_fails_the_preparation() {
    let disk = Disk::default();
    let path = sidecar_path("a");
    let error = run_with(
        &disk,
        begin(&["a"], &[("a", 0)], &[]),
        AUDIO_PREVIEW_CACHE_MAX_BYTES,
        |outputs| extract_all(&disk, outputs),
        |_| Ok(()),
        |_| {
            disk.files.borrow_mut().clear();
        },
    )
    .unwrap_err();
    assert!(matches!(
        &error,
        SidecarError::Publication { final_path, error, .. } if *final_path == path && error == "missing"
    ));
}

#[test]
fn a_name_that_cannot_be_chosen_ends_the_preparation() {
    let mut preparation = begin(&["a"], &[("a", 0)], &[]);
    assert!(matches!(preparation.action(), SidecarAction::Prune(_)));
    preparation.answered(FileAnswer::Done);
    preparation.answered(FileAnswer::Found(false));
    assert_eq!(preparation.action(), SidecarAction::Name(sidecar_path("a")));
    preparation.answered(FileAnswer::Named(Err("no parent".to_string())));
    assert_eq!(preparation.action(), SidecarAction::Stop);
    assert_eq!(
        preparation.result(),
        Err(SidecarError::Reported("no parent".to_string()))
    );
}

#[test]
fn sidecars_need_a_selection_and_tracks() {
    let ok = Ok(Vec::new());
    let clip = tracks(&[("a", 0)]);
    let refused = |tracks: &Option<Vec<ClipAudioTrack>>, selected: &[&str]| {
        resolve_audio_sidecar_tracks(tracks, &strings(selected), &ok).unwrap_err()
    };
    assert_eq!(refused(&clip, &[]), "audio track selection must not be empty");
    assert_eq!(
        refused(&None, &["a"]),
        "this clip has no selectable audio track metadata"
    );
    assert_eq!(
        refused(&tracks(&[]), &["a"]),
        "this clip has no selectable audio track metadata"
    );
    assert_eq!(
        resolve_audio_sidecar_tracks(
            &clip,
            &strings(&["b"]),
            &Err("unknown audio track b".to_string())
        ),
        Err("unknown audio track b".to_string())
    );
    assert_eq!(
        resolve_audio_sidecar_tracks(
            &tracks(&[("c", 4), ("b", 2), ("a", 9)]),
            &strings(&["a", "c"]),
            &Ok(vec![4, 9])
        ),
        Ok(vec![
            ResolvedAudioTrackSidecar { audio_track_id: "c".to_string(), audio_stream_index: 4 },
            ResolvedAudioTrackSidecar { audio_track_id: "a".to_string(), audio_stream_index: 9 },
        ])
    );
}

#[test]
fn a_sidecar_holds_one_audio_track() {
    let one = MediaTrackCounts { video: 0, audio: 1 };
    let film = MediaTrackCounts { video: 1, audio: 1 };
    assert_eq!(validate_audio_sidecar(1, one), Ok(()));
    assert_eq!(validate_audio_sidecar(0, one), Err(SidecarDefect::Empty));
    assert_eq!(
        validate_audio_sidecar(1, film),
        Err(SidecarDefect::UnexpectedTracks(film))
    );
}

// Shareable copies

fn share(
    disk: &Disk,
    export: &str,
    mut write: impl FnMut(&str) -> Result<(), String>,
    mut intrude: impl FnMut(),
) -> Result<String, String> {
    let mut share = ShareExport::begin(export.to_string());
    loop {
        let answer = match share.action() {
            ShareExportAction::LookUp(path) => FileAnswer::Found(disk.holds(&path)),
            ShareExportAction::Name(path) => FileAnswer::Named(Ok(disk.temp(&path))),
            ShareExportAction::Export(tmp_path) => FileAnswer::Came(write(&tmp_path)),
            ShareExportAction::Publish { tmp_path, final_path } => {
                intrude();
                if disk.holds(&final_path) {
                    FileAnswer::Came(Err("exists".to_string()))
                } else {
                    FileAnswer::Came(disk.rename(&tmp_path, &final_path))
                }
            }
            ShareExportAction::Remove(path) => {
                disk.remove(&path);
                FileAnswer::Done
            }
            ShareExportAction::Stop => return share.result(),
        };
        share.answered(answer);
    }
}

fn output_and_microphone() -> Option<Vec<ClipAudioTrack>> {
    tracks(&[("output", 0), ("microphone", 1)])
}

#[test]
fn clipboard_share_export_mixes_multiple_selected_tracks() {
    let disk = Disk::default();
    let selected = Some(strings(&["output", "microphone"]));
    let mode =
        clipboard_share_export_mode(&output_and_microphone(), &selected, Ok(vec![0, 1])).unwrap();
    assert_eq!(mode, Some(ShareAudioExportMode::Mix(vec![0, 1])));

    let export = share_export_name(1);
    let exported = share(
        &disk,
        &export,
        |target| {
            disk.write(target, Content::Bytes(15));
            Ok(())
        },
        || (),
    )
    .unwrap();

    assert_eq!(exported, export);
    assert_eq!(disk.len(&exported), 15);
    assert_eq!(disk.files.borrow().len(), 1);
}

#[test]
fn clipboard_share_without_audio_selection_prepares_compatibility_export() {
    let disk = Disk::default();
    let source = "clip.mp4";
    disk.write(source, Content::Bytes(10));
    let request = CopyClipToClipboardRequest {
        path: source.to_string(),
        audio_track_ids: None,
        original: false,
    };
    let mode =
        clipboard_share_export_mode(&None, &request.audio_track_ids, Err("unused".to_string()));
    assert_eq!(mode, Ok(None));
    assert_eq!(ShareExport::original_path(&request.path, request.original), None);

    let chosen = share(
        &disk,
        &share_export_name(2),
        |target| {
            disk.write(target, Content::Bytes(14));
            Ok(())
        },
        || (),
    )
    .unwrap();

    assert_ne!(chosen, source);
    assert_eq!(disk.len(&chosen), 14);
}

#[test]
fn original_clipboard_copy_bypasses_share_export() {
    assert_eq!(
        ShareExport::original_path("clip.mp4", true),
        Some("clip.mp4".to_string())
    );
}

#[test]
fn a_copy_that_is_there_is_used_as_it_is() {
    let disk = Disk::default();
    disk.write("share-export-1.mp4", Content::Bytes(5));
    let chosen = share(
        &disk,
        "share-export-1.mp4",
        |_| panic!("nothing is to be written"),
        || (),
    );
    assert_eq!(chosen, Ok("share-export-1.mp4".to_string()));
}

#[test]
fn a_copy_that_appears_meanwhile_is_used() {
    let disk = Disk::default();
    let chosen = share(
        &disk,
        "share-export-1.mp4",
        |target| {
            disk.write(target, Content::Bytes(5));
            Ok(())
        },
        || disk.write("share-export-1.mp4", Content::Bytes(6)),
    );
    assert_eq!(chosen, Ok("share-export-1.mp4".to_string()));
    assert_eq!(disk.len("share-export-1.mp4"), 6);
    assert_eq!(disk.files.borrow().len(), 1, "the temporary file is gone");
}

#[test]
fn a_copy_that_cannot_be_made_leaves_nothing() {
    let disk = Disk::default();
    let failed = share(
        &disk,
        "share-export-1.mp4",
        |target| {
            disk.write(target, Content::Bytes(5));
            Err("encoder broke".to_string())
        },
        || (),
    );
    assert_eq!(failed, Err("encoder broke".to_string()));
    assert!(disk.files.borrow().is_empty());

    let failed = share(&disk, "share-export-1.mp4", |_| Ok(()), || ());
    assert_eq!(failed, Err("finalize share export: missing".to_string()));

    let mut unnamed = ShareExport::begin("share-export-1.mp4".to_string());
    unnamed.answered(FileAnswer::Found(false));
    unnamed.answered(FileAnswer::Named(Err("no parent".to_string())));
    assert_eq!(unnamed.result(), Err("no parent".to_string()));
}

#[test]
fn share_audio_follows_the_selection() {
    let clip = output_and_microphone();
    let one = Some(strings(&["microphone"]));
    let nothing = Some(Vec::new());
    assert_eq!(
        clipboard_share_export_mode(&clip, &one, Ok(vec![1])),
        Ok(Some(ShareAudioExportMode::Remux(vec![1])))
    );
    assert_eq!(
        clipboard_share_export_mode(&clip, &nothing, Ok(Vec::new())),
        Ok(Some(ShareAudioExportMode::Remux(Vec::new())))
    );
    assert_eq!(
        clipboard_share_export_mode(&clip, &one, Err("unknown audio track".to_string())),
        Err("unknown audio track".to_string())
    );
    assert_eq!(
        clipboard_share_export_mode(&tracks(&[]), &one, Ok(vec![1])),
        Err("this clip has no selectable audio track metadata".to_string())
    );
    assert_eq!(
        clipboard_share_export_mode(&tracks(&[]), &nothing, Ok(vec![1])),
        Ok(Some(ShareAudioExportMode::Remux(Vec::new())))
    );
    assert_eq!(clipboard_share_export_mode(&None, &one, Ok(vec![1])), Ok(None));
}

#[test]
fn share_audio_is_there_where_a_track_is() {
    let counts = |audio: usize| Ok(MediaTrackCounts { video: 1, audio });
    let silent = Some(ShareAudioExportMode::Remux(Vec::new()));
    let mixed = Some(ShareAudioExportMode::Mix(vec![0, 1]));
    assert_eq!(share_has_audio(&silent, &counts(2)), Ok(false));
    assert_eq!(share_has_audio(&mixed, &counts(0)), Ok(true));
    assert_eq!(share_has_audio(&None, &counts(1)), Ok(true));
    assert_eq!(share_has_audio(&None, &counts(0)), Ok(false));
    assert_eq!(
        share_has_audio(&None, &Err("no moov".to_string())),
        Err("inspect share audio tracks: no moov".to_string())
    );
}

#[test]
fn ffmpeg_share_export_stream_copies_h264_and_encodes_aac_lc() {
    let args = ffmpeg_share_export_args(
        "selected.mp4",
        "share.mp4.tmp",
        true,
        &ShareVideoExportMode::Copy,
        &Vec::new(),
    );

    assert!(has_pair(&args, "-c:v", "copy"));
    assert!(has_pair(&args, "-map", "0:a:0"));
    assert!(has_pair(&args, "-c:a", "aac"));
    assert!(has_pair(&args, "-profile:a", "aac_low"));
    assert!(has_pair(&args, "-movflags", "+faststart"));
    assert_eq!(args.last().map(String::as_str), Some("share.mp4.tmp"));
}

#[test]
fn ffmpeg_share_export_omits_audio_for_muted_selection() {
    let args = ffmpeg_share_export_args(
        "muted.mp4",
        "share.mp4.tmp",
        false,
        &ShareVideoExportMode::Copy,
        &Vec::new(),
    );

    assert!(!args.iter().any(|arg| arg == "0:a:0"));
    assert!(!args.iter().any(|arg| arg == "-c:a"));
}

#[test]
fn ffmpeg_share_export_can_transcode_video_with_mf_fallback() {
    let args = ffmpeg_share_export_args(
        "av1.mp4",
        "share.mp4.tmp",
        true,
        &ShareVideoExportMode::Encode {
            encoder: "h264_mf".to_string(),
            backend: EncoderBackend::MfSoftware,
        },
        &strings(&["-hw_encoding", "0", "-b:v", "8000000"]),
    );

    assert!(has_pair(&args, "-c:v", "h264_mf"));
    assert!(has_pair(&args, "-hw_encoding", "0"));
    assert!(has_pair(&args, "-pix_fmt", "nv12"));
    assert!(has_pair(&args, "-b:v", "8000000"));
}

#[test]
fn ffmpeg_share_export_applies_backend_specific_rate_control() {
    for (encoder, backend, required) in [
        ("h264_nvenc", EncoderBackend::Nvenc, ["-rc", "cbr", "-preset", "p4"]),
        ("h264_amf", EncoderBackend::Amf, ["-rc", "cbr", "-usage", "lowlatency"]),
        ("h264_qsv", EncoderBackend::QuickSync, ["-low_power", "0", "-maxrate", "8000000"]),
    ] {
        let mut rate_control = strings(&required);
        rate_control.extend(strings(&["-b:v", "8000000", "-bufsize", "16000000"]));
        let args = ffmpeg_share_export_args(
            "source.mp4",
            "share.mp4.tmp",
            true,
            &ShareVideoExportMode::Encode { encoder: encoder.to_string(), backend },
            &rate_control,
        );
        let joined = args.join(" ");
        for pair in required.chunks_exact(2) {
            assert!(
                joined.contains(&pair.join(" ")),
                "{encoder} missing {} in {joined}",
                pair.join(" ")
            );
        }
        assert!(joined.contains("-b:v 8000000"), "{encoder}: {joined}");
        assert!(joined.contains("-bufsize 16000000"), "{encoder}: {joined}");
    }
}

#[test]
fn an_encoded_copy_has_its_rate_control_before_its_pixel_format() {
    let args = ffmpeg_share_export_args(
        "av1.mp4",
        "share.mp4.tmp",
        false,
        &ShareVideoExportMode::Encode {
            encoder: "h264_mf".to_string(),
            backend: EncoderBackend::MfSoftware,
        },
        &strings(&["-hw_encoding", "0", "-b:v", "8000000"]),
    );
    assert_eq!(
        args,
        strings(&[
            "-hide_banner",
            "-loglevel",
            "error",
            "-nostdin",
            "-y",
            "-i",
            "av1.mp4",
            "-map",
            "0:v:0",
            "-map_metadata",
            "-1",
            "-map_chapters",
            "-1",
            "-c:v",
            "h264_mf",
            "-hw_encoding",
            "0",
            "-b:v",
            "8000000",
            "-pix_fmt",
            "nv12",
            "-movflags",
            "+faststart",
            "-f",
            "mp4",
            "share.mp4.tmp",
        ])
    );
}

fn probed(backend: EncoderBackend, codecs: Vec<Codec>, name: Option<&str>) -> ProbedEncoder {
    ProbedEncoder {
        capability: EncoderCapability { api: EncoderApi::Ffmpeg, backend, codecs },
        h264_encoder: name.map(str::to_string),
    }
}

#[test]
fn share_video_is_copied_or_encoded() {
    let encoders = vec![
        probed(EncoderBackend::SvtAv1, vec![Codec::Av1], Some("libsvtav1")),
        probed(EncoderBackend::Nvenc, vec![Codec::Hevc, Codec::H264], Some("h264_nvenc")),
        probed(EncoderBackend::Amf, vec![Codec::H264], None),
        probed(EncoderBackend::QuickSync, vec![Codec::H264], Some("h264_nvenc")),
        probed(EncoderBackend::MfSoftware, vec![Codec::H264], Some("h264_mf")),
    ];
    assert_eq!(
        share_video_export_modes(&Ok(vec![MediaVideoCodec::H264]), &Vec::new()),
        Ok(vec![ShareVideoExportMode::Copy])
    );
    assert_eq!(
        share_video_export_modes(&Ok(vec![MediaVideoCodec::Av1]), &encoders),
        Ok(vec![
            ShareVideoExportMode::Encode {
                encoder: "h264_nvenc".to_string(),
                backend: EncoderBackend::Nvenc,
            },
            ShareVideoExportMode::Encode {
                encoder: "h264_mf".to_string(),
                backend: EncoderBackend::MfSoftware,
            },
        ])
    );
    assert_eq!(
        share_video_export_modes(&Ok(vec![MediaVideoCodec::Hevc]), &Vec::new()),
        Err("no usable FFmpeg H.264 encoder is available for this clip".to_string())
    );
    assert_eq!(
        share_video_export_modes(&Ok(Vec::new()), &encoders),
        Err("shareable export requires exactly one video track, found 0".to_string())
    );
    assert_eq!(
        share_video_export_modes(&Ok(vec![MediaVideoCodec::H264; 12]), &encoders),
        Err("shareable export requires exactly one video track, found 12".to_string())
    );
    assert_eq!(
        share_video_export_modes(&Err("no moov".to_string()), &encoders),
        Err("inspect share video codec: no moov".to_string())
    );
}

const SECOND: u64 = 1_000_000_000;

#[test]
fn remaining_share_export_timeout_uses_one_deadline() {
    let start = 77 * SECOND;
    let deadline = start + 10 * SECOND;

    assert_eq!(
        remaining_share_export_timeout(deadline, start + 3 * SECOND),
        Some(7 * SECOND)
    );
    assert_eq!(remaining_share_export_timeout(deadline, deadline), None);
    assert_eq!(remaining_share_export_timeout(deadline, deadline + SECOND), None);
}

#[test]
fn share_exports_take_two_minutes_to_six_hours() {
    assert_eq!(share_export_timeout_s(0), 120);
    assert_eq!(share_export_timeout_s(120), 120);
    assert_eq!(share_export_timeout_s(300), 300);
    assert_eq!(share_export_timeout_s(21_600), 21_600);
    assert_eq!(share_export_timeout_s(u64::MAX), 21_600);
}

#[test]
fn transcoding_tries_one_way_after_the_other() {
    let mut transcode = ShareTranscode::begin(3, 120);
    assert!(!transcode.removes_target());
    assert_eq!(transcode.next(Some(5)), Some(0));
    assert!(transcode.removes_target());
    transcode.attempted(TranscodeOutcome::NotRun("spawn ffmpeg share export: denied".to_string()));
    assert_eq!(transcode.last_error, "spawn ffmpeg share export: denied");
    assert_eq!(transcode.next(Some(4)), Some(1));
    transcode.attempted(TranscodeOutcome::Failed {
        stderr: " \n".to_string(),
        status: "exit code: 1".to_string(),
    });
    assert_eq!(transcode.last_error, "ffmpeg exited with exit code: 1");
    assert_eq!(transcode.next(Some(3)), Some(2));
    transcode.attempted(TranscodeOutcome::Succeeded);
    assert!(!transcode.removes_target());
    assert_eq!(transcode.result(), Ok(()));
}

#[test]
fn transcoding_gives_up_with_the_last_error() {
    let mut transcode = ShareTranscode::begin(1, 120);
    assert_eq!(transcode.next(Some(5)), Some(0));
    transcode.attempted(TranscodeOutcome::Failed {
        stderr: "  no device \n".to_string(),
        status: "exit code: 1".to_string(),
    });
    assert_eq!(transcode.next(Some(5)), None);
    assert_eq!(
        transcode.result(),
        Err("prepare shareable clipboard clip: no device".to_string())
    );

    let mut late = ShareTranscode::begin(2, 120);
    assert_eq!(late.next(None), None);
    assert!(late.removes_target());
    assert_eq!(
        late.result(),
        Err(
            "prepare shareable clipboard clip: ffmpeg share export exhausted its 120 second timeout"
                .to_string()
        )
    );
}

#[test]
fn waiting_for_ffmpeg_ends_with_its_time() {
    assert_eq!(share_wait_step(&SharePoll::Exited, 9, 5, 1), ShareWaitStep::Finish);
    assert_eq!(share_wait_step(&SharePoll::Running, 4, 5, 1), ShareWaitStep::Sleep);
    assert_eq!(
        share_wait_step(&SharePoll::Running, 5, 5, 90),
        ShareWaitStep::Stop("ffmpeg share export timed out after 90 seconds".to_string())
    );
    assert_eq!(
        share_wait_step(&SharePoll::Failed("gone".to_string()), 0, 5, 90),
        ShareWaitStep::Stop("wait for ffmpeg share export: gone".to_string())
    );
}

#[test]
fn only_the_beginning_of_stderr_is_kept() {
    let mut kept = Vec::new();
    retain_share_stderr(&mut kept, b"abc", 5);
    assert_eq!(kept, b"abc");
    retain_share_stderr(&mut kept, b"defg", 5);
    assert_eq!(kept, b"abcde");
    retain_share_stderr(&mut kept, b"hi", 5);
    assert_eq!(kept, b"abcde");
}

#[test]
fn share_export_keys_tell_exports_apart() {
    let ids = Some(strings(&["a", "b"]));
    let mixed = Some(ShareAudioExportMode::Mix(vec![0, 1]));
    let key = share_export_key("clip.mp4", 9, None, &ids, &mixed);
    assert_eq!(key.version, "share-export-v3-aac-h264-cbr8m");
    assert_eq!(key.mixes, Some(true));
    assert_eq!(key.tracks, vec![0, 1]);
    assert_eq!(key.audio_track_ids, strings(&["a", "b"]));
    let plain = share_export_key("clip.mp4", 9, None, &None, &None);
    assert_eq!(plain.mixes, None);
    assert_ne!(key, plain);
    let one = Some(ShareAudioExportMode::Remux(vec![0]));
    assert_eq!(share_export_key("clip.mp4", 9, None, &ids, &one).mixes, Some(false));
    assert_eq!(share_export_name(0x1f), "share-export-000000000000001f.mp4");
}

// Caches

#[test]
fn share_export_prune_removes_orphaned_tmp_files() {
    let export = "share-export-old.mp4";
    let orphan = "share-export-old.mp4.tmp";
    let unique = "share-export-old.mp4.4242.7.tmp";
    let nested_unique = "share-export-old.mp4.4242.7.tmp.4242.8.tmp";
    let malformed = "share-export-old.mp4.pid.counter.tmp";

    assert!(share_export_is_stale(export, Some(0), 0));
    assert!(share_export_is_stale(orphan, Some(0), 0));
    assert!(share_export_is_stale(unique, Some(0), 0));
    assert!(share_export_is_stale(nested_unique, Some(0), 0));
    assert!(!share_export_is_stale(malformed, Some(0), 0));
}

#[test]
fn copies_go_after_a_day() {
    assert_eq!(SHARE_EXPORT_MAX_AGE_NS, 24 * 60 * 60 * 1_000_000_000);
    let name = "share-export-1.mp4";
    assert!(share_export_is_stale(name, Some(SHARE_EXPORT_MAX_AGE_NS), SHARE_EXPORT_MAX_AGE_NS));
    assert!(!share_export_is_stale(
        name,
        Some(SHARE_EXPORT_MAX_AGE_NS - 1),
        SHARE_EXPORT_MAX_AGE_NS
    ));
    assert!(!share_export_is_stale(name, None, 0));
    assert!(!share_export_is_stale("clip.mp4", Some(u128::MAX), 0));
}

#[test]
fn names_in_the_cache_of_copies() {
    for name in [
        "share-export-.mp4",
        "share-export-a.mp4.tmp",
        "share-export-a.mp4.1.22.tmp",
        "share-export-a.mp4.1.2.tmp.3.4.tmp",
    ] {
        assert!(is_cached_mp4_file(name), "{name}");
    }
    for name in [
        "share-export",
        "share-export-a",
        "share-export-a.mp4.1.tmp",
        "share-export-a.mp4..2.tmp",
        "share-export-a.mp4.1.2.tmp.3",
        "share-export-a.mp4.1.2.TMP",
        "share-export-a.mp4.",
        "x-share-export-a.mp4",
    ] {
        assert!(!is_cached_mp4_file(name), "{name}");
    }
}

#[test]
fn names_in_the_cache_of_audio() {
    assert!(is_audio_preview_mp4("audio-preview-1.mp4"));
    assert!(!is_audio_preview_mp4("audio-preview-1.mp4.1.2.tmp"));
    assert!(is_audio_preview_partial("audio-preview-1.mp4.1.2.tmp"));
    assert!(!is_audio_preview_partial("audio-preview-1.mp4"));
    assert!(!is_audio_preview_mp4("clip.mp4"));
    assert!(!is_audio_preview_partial("clip.tmp"));
}

#[test]
fn audio_preview_cache_prunes_lru_and_partials_but_preserves_protected_file() {
    let disk = Disk::default();
    let oldest = "audio-preview-0001.mp4";
    let newest = "audio-preview-0002.mp4";
    let protected = "audio-preview-0003.mp4";
    let partial = "audio-preview-0004.mp4.1.2.tmp";
    disk.write_at(oldest, Content::Bytes(6), 1);
    disk.write_at(newest, Content::Bytes(6), 2);
    disk.write(protected, Content::Bytes(20));
    disk.write(partial, Content::Bytes(3));

    let report = disk.prune(&strings(&[protected]), 26);

    assert!(!disk.holds(oldest));
    assert!(disk.holds(newest));
    assert!(disk.holds(protected));
    assert!(!disk.holds(partial));
    assert_eq!(report.reusable_bytes, 6);
    assert_eq!(report.removed_files, 2);
    assert_eq!(report.removed_bytes, 9);
}

#[test]
fn audio_preview_cache_keeps_oversized_protected_and_evicts_all_reusable() {
    let disk = Disk::default();
    let oldest = "audio-preview-0001.mp4";
    let newest = "audio-preview-0002.mp4";
    let protected = "audio-preview-0003.mp4";
    disk.write_at(oldest, Content::Bytes(6), 1);
    disk.write_at(newest, Content::Bytes(6), 2);
    disk.write(protected, Content::Bytes(20));

    let report = disk.prune(&strings(&[protected]), 10);

    assert!(!disk.holds(oldest));
    assert!(!disk.holds(newest));
    assert!(disk.holds(protected));
    assert_eq!(report.reusable_bytes, 0);
}

fn preview(name: &str, len: u64, modified_ns: i128) -> Result<PreviewEntry, String> {
    Ok(PreviewEntry { name: name.to_string(), len: Ok(len), modified_ns, protected: false })
}

#[test]
fn audio_that_cannot_be_removed_keeps_its_room() {
    let entries = vec![
        preview("audio-preview-b.mp4", 5, 3),
        preview("audio-preview-a.mp4", 5, 3),
        preview("audio-preview-c.mp4", 5, 1),
        preview("unrelated.mp4", 500, 0),
    ];
    let asked = RefCell::new(Vec::new());
    let prune = prune_audio_preview_cache(&entries, 10, |name: &str| {
        asked.borrow_mut().push(name.to_string());
        name != "audio-preview-c.mp4"
    });
    assert_eq!(prune.order, vec![2, 1, 0]);
    assert_eq!(prune.evictions, vec![false, true]);
    assert_eq!(
        asked.into_inner(),
        strings(&["audio-preview-c.mp4", "audio-preview-a.mp4"])
    );
    assert_eq!(
        prune.outcome,
        Ok(AudioPreviewPruneReport { removed_files: 1, removed_bytes: 5, reusable_bytes: 10 })
    );
}

#[test]
fn an_entry_that_cannot_be_read_stops_the_prune() {
    let entries = vec![
        preview("audio-preview-a.mp4.1.2.tmp", 5, 3),
        Err("device gone".to_string()),
        preview("audio-preview-b.mp4.1.2.tmp", 5, 3),
    ];
    let prune = prune_audio_preview_cache(&entries, 0, |_: &str| true);
    assert_eq!(prune.partials, vec![true]);
    assert!(prune.evictions.is_empty());
    assert_eq!(
        prune.outcome,
        Err("read audio preview cache entry: device gone".to_string())
    );

    let unreadable = vec![Ok(PreviewEntry {
        name: "audio-preview-a.mp4".to_string(),
        len: Err("read audio preview metadata: denied".to_string()),
        modified_ns: 0,
        protected: true,
    })];
    let prune = prune_audio_preview_cache(&unreadable, 0, |_: &str| true);
    assert_eq!(prune.outcome, Err("read audio preview metadata: denied".to_string()));
}

#[test]
fn sums_of_sizes_do_not_overflow() {
    let entries = vec![
        preview("audio-preview-a.mp4", u64::MAX, 1),
        preview("audio-preview-b.mp4", 7, 2),
    ];
    let prune = prune_audio_preview_cache(&entries, 0, |_: &str| true);
    assert_eq!(prune.evictions, vec![true]);
    assert_eq!(
        prune.outcome,
        Ok(AudioPreviewPruneReport {
            removed_files: 1,
            removed_bytes: u64::MAX,
            reusable_bytes: 0,
        })
    );
}
