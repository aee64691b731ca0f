//! The local library: posters, markers, names of exports, and files the player may read.

use clipline_app::export_names::{export_title_stem, unique_export_name, unique_temp_export_name};
use clipline_app::library::{
    allow_audio_preview_asset, allow_clip_asset, allow_poster_asset, exported_clip_info,
    open_folder_target, poster_failure_kind, reveal_target, storage_info, CutTimes, MediaAssetError, PlatformEffect,
    PosterFailures, PreviewAsset, StorageSettings,
};
use clipline_app::markers::{
    export_markers_for_range, filter_review_markers, has_marker_sidecar_content, set_clip_audio_selection, ClipAudioTrack,
    ClipMarkers, SetClipAudioSelectionRequest,
};

#[derive(Debug, Clone, Copy, PartialEq, Eq)]
enum EventKind {
    ChampionKill,
    ChampionDeath,
    TurretKilled,
    DragonKill,
    BaronKill,
    HeraldKill,
    MinionsSpawning,
    FirstBlood,
    FirstBrick,
    Ace,
}

type Markers = ClipMarkers<(EventKind, bool), &'static str, &'static str, &'static str>;

fn bits(seconds: f64) -> u64 {
    seconds.to_bits()
}

fn empty_markers() -> Markers {
    ClipMarkers {
        recording_start_s_bits: bits(10.0),
        duration_s_bits: bits(20.0),
        player_summary: None,
        audio_tracks: Vec::new(),
        selected_audio_track_ids: None,
        plays: Vec::new(),
        markers: Vec::new(),
        bookmarks: Vec::new(),
    }
}

fn track(id: &str, track_index: u32, label: &str) -> ClipAudioTrack {
    ClipAudioTrack {
        id: id.to_string(),
        track_index,
        label: label.to_string(),
        kind: Some("playback_endpoint".to_string()),
    }
}

#[test]
fn poster_diagnostics_classify_failures_without_retaining_paths_or_stderr() {
    assert_eq!(
        poster_failure_kind("ffmpeg is not available for poster extraction"),
        "runtime_unavailable"
    );
    assert_eq!(
        poster_failure_kind("spawn ffmpeg poster: access denied"),
        "spawn_failed"
    );
    assert_eq!(
        poster_failure_kind("ffmpeg poster timed out after 30 seconds"),
        "timeout"
    );
    assert_eq!(
        poster_failure_kind("ffmpeg poster failed: C:\\private\\clip.mp4 is corrupt"),
        "media_or_codec"
    );
    assert_eq!(
        poster_failure_kind(
            "ffmpeg poster failed: clip named ffmpeg is not available for poster extraction"
        ),
        "media_or_codec"
    );
    assert_eq!(
        poster_failure_kind("ffmpeg poster produced no JPEG data"),
        "invalid_output"
    );
    assert_eq!(
        poster_failure_kind("finalize poster: sharing violation"),
        "publish_failed"
    );
}

#[test]
fn poster_failures_outside_every_category_are_unknown() {
    assert_eq!(poster_failure_kind("disk on fire"), "unknown");
    assert_eq!(poster_failure_kind("output limit reached"), "invalid_output");
    assert_eq!(poster_failure_kind("create poster temp file"), "publish_failed");
    assert_eq!(
        poster_failure_kind("  FFmpeg is not available for POSTER extraction\n"),
        "runtime_unavailable"
    );
}

#[test]
fn each_kind_of_poster_failure_is_reported_once() {
    let mut failures = PosterFailures::new();
    assert!(failures.should_report("ffmpeg poster failed: a"));
    assert!(!failures.should_report("ffmpeg poster failed: b"));
    assert!(failures.should_report("spawn ffmpeg poster: c"));
    assert!(!failures.should_report("spawn ffmpeg poster: d"));
    assert_eq!(failures.reported.len(), 2);
}

#[test]
fn storage_settings_keep_quota_and_folder_apart() {
    let mut settings = StorageSettings::new(None, "C:\\Clips".to_string());
    assert_eq!(settings.quota_bytes(), None);
    assert_eq!(settings.media_dir(), "C:\\Clips");
    settings.set_quota_bytes(Some(5));
    assert_eq!(settings.media_dir(), "C:\\Clips");
    settings.set_media_dir("D:\\Clips".to_string());
    assert_eq!(settings.quota_bytes(), Some(5));
    assert_eq!(settings.media_dir(), "D:\\Clips");
}

#[test]
fn an_exported_clip_is_shown_with_its_markers() {
    let times = CutTimes {
        requested_start_s_bits: bits(1.5),
        requested_end_s_bits: bits(4.0),
        aligned_start_s_bits: bits(1.0),
        aligned_end_s_bits: bits(5.0),
        duration_s_bits: bits(4.0),
    };
    let markers: Markers = ClipMarkers {
        recording_start_s_bits: bits(0.0),
        duration_s_bits: bits(4.0),
        player_summary: None,
        audio_tracks: Vec::new(),
        selected_audio_track_ids: None,
        plays: Vec::new(),
        markers: vec![(EventKind::Ace, true)],
        bookmarks: Vec::new(),
    };
    let info = exported_clip_info(
        "clips/a.mp4".to_string(),
        Some("a.mp4".to_string()),
        bits(12.5),
        Some(77),
        times,
        Some(markers),
    );
    assert_eq!((info.path.as_str(), info.name.as_str()), ("clips/a.mp4", "a.mp4"));
    assert_eq!((info.size_mb_bits, info.modified_unix), (bits(12.5), 77));
    assert_eq!(info.requested_start_s_bits, bits(1.5));
    assert_eq!(info.aligned_end_s_bits, bits(5.0));
    assert_eq!(info.markers.unwrap().markers, vec![(EventKind::Ace, true)]);

    let bare = exported_clip_info::<(), (), (), ()>("..".to_string(), None, 0, None, times, None);
    assert_eq!((bare.name.as_str(), bare.modified_unix), ("", 0));
    assert!(bare.markers.is_none());
}

#[test]
fn storage_info_keeps_every_number() {
    let info = storage_info(3, 40, Some(30), true);
    assert_eq!(info.clip_count, 3);
    assert_eq!(info.total_bytes, 40);
    assert_eq!(info.quota_bytes, Some(30));
    assert!(info.over_quota);
}

#[test]
fn media_assets_stay_in_their_root_and_have_their_extension() {
    let mp4 = Some("MP4".to_string());
    let jpeg = Some("jpeg".to_string());
    assert_eq!(allow_clip_asset(true, &mp4), Ok(()));
    assert_eq!(allow_clip_asset(false, &mp4), Err(MediaAssetError::EscapedRoot));
    assert_eq!(allow_clip_asset(true, &None), Err(MediaAssetError::NoExtension));
    assert_eq!(
        allow_clip_asset(true, &jpeg),
        Err(MediaAssetError::UnsupportedExtension)
    );
    assert_eq!(allow_poster_asset(true, &jpeg), Ok(()));
    assert_eq!(allow_poster_asset(true, &Some("JPG".to_string())), Ok(()));
    assert_eq!(
        allow_poster_asset(true, &mp4),
        Err(MediaAssetError::UnsupportedExtension)
    );
}

#[test]
fn audio_previews_outside_the_cache_need_no_permission() {
    let mp4 = Some("mp4".to_string());
    assert_eq!(
        allow_audio_preview_asset(false, false, &None),
        PreviewAsset::Elsewhere
    );
    assert_eq!(
        allow_audio_preview_asset(true, false, &mp4),
        PreviewAsset::EscapedCache
    );
    assert_eq!(allow_audio_preview_asset(true, true, &mp4), PreviewAsset::Allowed);
    assert_eq!(
        allow_audio_preview_asset(true, true, &Some("tmp".to_string())),
        PreviewAsset::NotMp4
    );
    assert_eq!(allow_audio_preview_asset(true, true, &None), PreviewAsset::NotMp4);
}

#[test]
fn platform_effects_are_not_mixed_up() {
    assert_eq!(
        reveal_target(PlatformEffect::RevealClip("a.mp4".to_string())),
        Ok("a.mp4".to_string())
    );
    assert_eq!(
        reveal_target(PlatformEffect::OpenFolder("clips".to_string())),
        Err("Library returned an invalid reveal effect".to_string())
    );
    assert_eq!(
        open_folder_target(PlatformEffect::OpenFolder("clips".to_string())),
        Ok("clips".to_string())
    );
    assert_eq!(
        open_folder_target(PlatformEffect::RevealClip("a.mp4".to_string())),
        Err("Library returned an invalid open-folder effect".to_string())
    );
}

// Markers

#[test]
fn filter_review_markers_keeps_match_event_sources_and_drops_noise() {
    let mut markers = empty_markers();
    markers.duration_s_bits = bits(100.0);
    markers.player_summary = Some("Nautilus 3/4/23");
    markers.markers = vec![
        (EventKind::ChampionKill, true),
        (EventKind::ChampionKill, false),
        (EventKind::ChampionDeath, true),
        (EventKind::TurretKilled, false),
        (EventKind::DragonKill, false),
        (EventKind::BaronKill, false),
        (EventKind::HeraldKill, false),
        (EventKind::MinionsSpawning, true),
        (EventKind::FirstBlood, true),
        (EventKind::FirstBrick, true),
        (EventKind::Ace, true),
    ];
    let review: Vec<bool> = markers
        .markers
        .iter()
        .map(|(kind, _)| {
            !matches!(
                kind,
                EventKind::MinionsSpawning
                    | EventKind::FirstBlood
                    | EventKind::FirstBrick
                    | EventKind::Ace
            )
        })
        .collect();

    let filtered = filter_review_markers(markers, &review);
    let kinds: Vec<EventKind> = filtered.markers.iter().map(|(kind, _)| *kind).collect();

    assert_eq!(
        kinds,
        vec![
            EventKind::ChampionKill,
            EventKind::ChampionKill,
            EventKind::ChampionDeath,
            EventKind::TurretKilled,
            EventKind::DragonKill,
            EventKind::BaronKill,
            EventKind::HeraldKill,
        ]
    );
    assert!(filtered.markers[0].1);
    assert!(!filtered.markers[1].1);
    assert_eq!(filtered.player_summary, Some("Nautilus 3/4/23"));
    assert_eq!(filtered.duration_s_bits, bits(100.0));
}

#[test]
fn summary_only_markers_are_export_sidecar_content() {
    let mut markers = empty_markers();
    markers.player_summary = Some("Nautilus");
    assert!(has_marker_sidecar_content(&markers));
}

#[test]
fn empty_markers_are_not_export_sidecar_content() {
    assert!(!has_marker_sidecar_content(&empty_markers()));
}

#[test]
fn play_only_markers_are_export_sidecar_content() {
    let mut markers = empty_markers();
    markers.plays = vec!["score-1"];
    assert!(has_marker_sidecar_content(&markers));
}

#[test]
fn audio_tracks_are_export_sidecar_content_and_survive_cropping() {
    let mut markers = empty_markers();
    markers.audio_tracks = vec![track("microphone", 1, "Microphone")];

    assert!(has_marker_sidecar_content(&markers));
    // The part from 3 s to 7 s, as the cutter takes markers to it.
    let crop = |kept: Markers| ClipMarkers { duration_s_bits: bits(4.0), ..kept };
    let cropped = export_markers_for_range(true, Some(markers), &Vec::new(), crop).unwrap();

    assert_eq!(cropped.audio_tracks, vec![track("microphone", 1, "Microphone")]);
    assert_eq!(cropped.markers.len(), 0);
    assert_eq!(cropped.duration_s_bits, bits(4.0));
}

#[test]
fn events_and_audio_tracks_are_export_sidecar_content() {
    let mut markers = empty_markers();
    markers.markers = vec![(EventKind::Ace, false)];
    assert!(has_marker_sidecar_content(&markers));
    let mut markers = empty_markers();
    markers.audio_tracks = vec![track("microphone", 1, "Microphone")];
    assert!(has_marker_sidecar_content(&markers));
}

fn selectable() -> Option<Markers> {
    let mut markers = empty_markers();
    markers.recording_start_s_bits = bits(0.0);
    markers.duration_s_bits = bits(10.0);
    markers.audio_tracks = vec![track("playback:0", 0, "Game"), track("playback:1", 1, "Chat")];
    Some(markers)
}

#[test]
fn audio_selection_persists_subset_and_explicit_mute() {
    let mut markers = selectable();

    let request = SetClipAudioSelectionRequest {
        path: "clip.mp4".to_string(),
        audio_track_ids: vec!["playback:1".to_string()],
    };
    set_clip_audio_selection(&mut markers, &Ok(None), &Ok(vec![1]), request.audio_track_ids).unwrap();
    assert_eq!(
        markers.as_ref().unwrap().selected_audio_track_ids,
        Some(vec!["playback:1".to_string()])
    );

    set_clip_audio_selection(&mut markers, &Ok(None), &Ok(Vec::new()), Vec::new()).unwrap();
    assert_eq!(
        markers.as_ref().unwrap().selected_audio_track_ids,
        Some(Vec::new())
    );
}

#[test]
fn invalid_audio_selection_does_not_replace_existing_sidecar() {
    let mut markers = selectable();
    assert!(set_clip_audio_selection(
        &mut markers,
        &Ok(None),
        &Err("unknown audio track missing".to_string()),
        vec!["missing".to_string()],
    )
    .is_err());
    assert_eq!(markers, selectable());
}

#[test]
fn audio_selection_needs_tracks() {
    let mut none: Option<Markers> = None;
    let mut empty = Some(empty_markers());
    for markers in [&mut none, &mut empty] {
        assert_eq!(
            set_clip_audio_selection(markers, &Ok(None), &Ok(Vec::new()), Vec::new()),
            Err("this clip has no selectable audio tracks".to_string())
        );
    }
}

#[test]
fn audio_selection_mends_the_duration_from_the_movie() {
    for broken in [0.0, -1.0, f64::NAN, f64::INFINITY, -0.0] {
        let mut markers = selectable();
        markers.as_mut().unwrap().duration_s_bits = bits(broken);
        assert_eq!(
            set_clip_audio_selection(
                &mut markers,
                &Ok(Some(bits(12.5))),
                &Ok(vec![0]),
                vec!["playback:0".to_string()]
            ),
            Ok(())
        );
        assert_eq!(markers.as_ref().unwrap().duration_s_bits, bits(12.5));

        markers.as_mut().unwrap().duration_s_bits = bits(broken);
        for useless in [None, Some(bits(broken))] {
            assert_eq!(
                set_clip_audio_selection(&mut markers, &Ok(useless), &Ok(vec![0]), Vec::new()),
                Err("this clip has no valid duration".to_string())
            );
        }
        assert_eq!(
            set_clip_audio_selection(
                &mut markers,
                &Err("truncated".to_string()),
                &Ok(vec![0]),
                Vec::new()
            ),
            Err("inspect clip duration: truncated".to_string())
        );
    }
    let mut markers = selectable();
    set_clip_audio_selection(&mut markers, &Ok(Some(bits(99.0))), &Ok(vec![0]), Vec::new()).unwrap();
    assert_eq!(markers.unwrap().duration_s_bits, bits(10.0));
}

// Names of exports

#[test]
fn unique_export_path_appends_suffix_when_needed() {
    let existing = ["clip_1.mp4", "clip_1_trim_001000_002000.mp4"];

    let name = unique_export_name(
        true,
        &Some("clip_1".to_string()),
        1000,
        2000,
        &None,
        |name| existing.contains(&name),
    )
    .unwrap();

    assert_eq!(name, "clip_1_trim_001000_002000_1.mp4");
}

#[test]
fn unique_export_path_uses_requested_clip_title_when_present() {
    let titled = export_title_stem("I MY ME MINE - Trouble", |_| false);
    let name = unique_export_name(
        true,
        &Some("session_123".to_string()),
        145_783,
        188_167,
        &titled,
        |name| name == "session_123.mp4",
    )
    .unwrap();

    assert_eq!(name, "I MY ME MINE - Trouble.mp4");
}

#[test]
fn titled_exports_are_numbered_after_their_title() {
    let taken = ["Ace.mp4", "Ace_1.mp4"];
    let name = unique_export_name(
        true,
        &Some("s".to_string()),
        0,
        1,
        &Some("Ace".to_string()),
        |name| taken.contains(&name),
    );
    assert_eq!(name, Ok("Ace_2.mp4".to_string()));
}

#[test]
fn export_names_run_out() {
    let stem = Some("clip".to_string());
    assert_eq!(
        unique_export_name(true, &stem, 0, 0, &None, |_| true),
        Err("could not choose an unused export filename".to_string())
    );
    assert_eq!(
        unique_temp_export_name(true, &stem, |_| true),
        Err("could not choose an unused temporary export filename".to_string())
    );
    assert_eq!(
        unique_export_name(true, &stem, 0, 0, &None, |name| name
            != "clip_trim_000000_000000_999.mp4"),
        Ok("clip_trim_000000_000000_999.mp4".to_string())
    );
}

#[test]
fn exports_need_a_place_and_a_stem() {
    let stem = Some("clip".to_string());
    assert_eq!(
        unique_temp_export_name(false, &stem, |_| false),
        Err("source clip has no parent directory".to_string())
    );
    assert_eq!(
        unique_temp_export_name(true, &None, |_| false),
        Err("source clip has no file stem".to_string())
    );
    assert_eq!(
        unique_export_name(false, &stem, 0, 0, &None, |_| false),
        Err("source clip has no parent directory".to_string())
    );
    assert_eq!(
        unique_export_name(true, &None, 0, 0, &None, |_| false),
        Err("source clip has no file stem".to_string())
    );
}

#[test]
fn pending_exports_have_numbers_of_three_digits() {
    let stem = Some("clip".to_string());
    assert_eq!(
        unique_temp_export_name(true, &stem, |_| false),
        Ok("clip_trim_pending_000.mp4.tmp".to_string())
    );
    assert_eq!(
        unique_temp_export_name(true, &stem, |name| name == "clip_trim_pending_000.mp4.tmp"),
        Ok("clip_trim_pending_001.mp4.tmp".to_string())
    );
    assert_eq!(
        unique_temp_export_name(true, &stem, |name| name != "clip_trim_pending_123.mp4.tmp"),
        Ok("clip_trim_pending_123.mp4.tmp".to_string())
    );
}

#[test]
fn long_times_keep_all_their_digits() {
    assert_eq!(
        unique_export_name(true, &Some("s".to_string()), 12_345_678, 99, &None, |_| false),
        Ok("s_trim_12345678_000099.mp4".to_string())
    );
}

#[test]
fn title_stems_are_file_names() {
    assert_eq!(
        export_title_stem("  a/b\\c: \"d\" <e>|f?*\u{7}g  ", |_| false),
        Some("a b c d e f g".to_string())
    );
    assert_eq!(export_title_stem("The end... ", |_| false), Some("The end".to_string()));
    assert_eq!(export_title_stem("tab\tand\nline", |_| false), Some("tab and line".to_string()));
    assert_eq!(export_title_stem(" . .. ", |_| false), None);
    assert_eq!(export_title_stem("", |_| false), None);
    assert_eq!(export_title_stem("CON", |name| name == "CON"), None);
    assert_eq!(export_title_stem("CON.", |name| name == "CON"), None);
}
