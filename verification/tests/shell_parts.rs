//! Smaller parts of the shell: capture, microphone tests, folders, images, diagnostics.

use clipline_app::capture_policy::{CaptureBackend, CapturePlan};
use clipline_app::desktop::{
    forwards_event, ui_emission, ApplyEventOutcome, EmissionPayload, Generation,
    ProducerGenerations, RecorderNotice, UiNotice,
};
use clipline_app::diagnostics::single_line;
use clipline_app::game_identity::{GameIdentity, LEAGUE_OF_LEGENDS_ID, OSU_ID};
use clipline_app::gc::{clip_gc_priority, is_protected_clip};
use clipline_app::image::{
    encode_rgba_png, encode_rgba_png_with, CreateOutcome, PngCompression, SiblingNames, SiblingTemp,
    RESERVE_ATTEMPTS,
};
use clipline_app::launch::{
    activation_command, benchmark_probe_line, benchmark_probe_requested, benchmark_shell_is_safe,
    ActivationCommand, LaunchMode,
};
use clipline_app::media_folder::{display_media_folder_path, NativeMediaFolderAuthorization};
use clipline_app::mic_test::{
    mic_test_should_stop, mic_test_worker_failed, start_microphone_test, ChannelMode, MicTestState,
    StopSignal,
};
use clipline_app::startup::parse_quota_gb;
use clipline_app::webview2::{
    parse_reg_pv_output, webview2_key_report, webview2_runtime_diagnostic,
    webview2_runtime_registry_keys,
};
use clipline_app::window::WindowLifecycleMode;
use std::cell::{Cell, RefCell};
use std::collections::BTreeMap;

// Capture

#[test]
fn automatic_routes_by_windows_generation_and_source() {
    assert_eq!(
        CapturePlan::for_source(CaptureBackend::Auto, true, true),
        CapturePlan::Wgc
    );
    assert_eq!(
        CapturePlan::for_source(CaptureBackend::Auto, true, false),
        CapturePlan::Wgc
    );
    assert_eq!(
        CapturePlan::for_source(CaptureBackend::Auto, false, true),
        CapturePlan::FullscreenFallback
    );
    assert_eq!(
        CapturePlan::for_source(CaptureBackend::Auto, false, false),
        CapturePlan::Dxgi
    );
}

#[test]
fn explicit_choices_ignore_windows_generation() {
    for is_windows_11 in [false, true] {
        for is_window in [false, true] {
            assert_eq!(
                CapturePlan::for_source(CaptureBackend::Default, is_windows_11, is_window),
                CapturePlan::Wgc
            );
            assert_eq!(
                CapturePlan::for_source(CaptureBackend::Fallback, is_windows_11, is_window),
                if is_window {
                    CapturePlan::FullscreenFallback
                } else {
                    CapturePlan::Dxgi
                }
            );
        }
    }
}

// Microphone tests

#[test]
fn microphone_test_stop_channel_treats_disconnect_as_shutdown() {
    assert!(!mic_test_should_stop(StopSignal::Empty));
    assert!(mic_test_should_stop(StopSignal::Received));
    assert!(mic_test_should_stop(StopSignal::Disconnected));
}

#[test]
fn successive_microphone_test_starts_leave_one_tracked_generation() {
    const STARTS: u64 = 12;
    let mut state = MicTestState::default();
    let mut stopped = Vec::new();
    let mut generations = Vec::new();
    for channel in 0..STARTS {
        let (generation, replaced) = state.begin(channel);
        stopped.extend(replaced);
        generations.push(generation);
    }
    assert_eq!(stopped, (0..STARTS - 1).collect::<Vec<u64>>());
    let active: Vec<&u64> =
        generations.iter().filter(|generation| state.is_active(**generation)).collect();
    assert_eq!(active, vec![&generations[STARTS as usize - 1]]);
}

#[test]
fn stale_microphone_test_cannot_publish_or_finish_active_generation() {
    let mut state = MicTestState::default();
    let (old_generation, _) = state.begin(1);
    let (active_generation, _) = state.begin(2);
    let published = Cell::new(0);

    assert!(!state.publish_if_active(old_generation, || published.set(published.get() + 1)));
    assert!(state.publish_if_active(active_generation, || published.set(published.get() + 1)));
    assert_eq!(published.get(), 1);

    assert!(!state.finish_if_active(old_generation));
    assert!(state.is_active(active_generation));
    assert!(state.finish_if_active(active_generation));
    assert!(!state.is_active(active_generation));
}

#[test]
fn finishing_a_microphone_test_runs_the_callback_once() {
    let mut state = MicTestState::default();
    let (old_generation, _) = state.begin(1);
    let (active_generation, _) = state.begin(2);
    let finished = Cell::new(0);

    assert!(!state.finish_if_active_with(old_generation, || finished.set(finished.get() + 1)));
    assert_eq!(finished.get(), 0);
    assert!(state.finish_if_active_with(active_generation, || finished.set(finished.get() + 1)));
    assert!(!state.finish_if_active_with(active_generation, || finished.set(finished.get() + 1)));
    assert_eq!(finished.get(), 1);
    assert!(!state.is_active(active_generation));
}

#[test]
fn microphone_tests_need_the_foreground() {
    let foreground = WindowLifecycleMode::Foreground;
    let tray = WindowLifecycleMode::Tray;
    let mut state = MicTestState::default();
    let start = start_microphone_test(&mut state, foreground, foreground, 5, true).unwrap();
    assert_eq!(start.channels, ChannelMode::Mono);
    assert_eq!(start.replaced_channel, None);
    assert!(state.is_active(start.generation));

    let refusal = start_microphone_test(&mut state, foreground, tray, 6, false).unwrap_err();
    assert_eq!(refusal.replaced_channel, Some(5));
    assert_eq!(state.active, None);
    assert!(start_microphone_test(&mut state, tray, foreground, 7, false).is_err());

    let (generation, _) = state.begin(8);
    assert_eq!(
        mic_test_worker_failed(&mut state, generation, "no threads"),
        "could not start microphone test thread: no threads"
    );
    assert_eq!(state.stop(), None);
}

// Folders

fn nested(parent: &str, child: &str) -> bool {
    child.to_ascii_lowercase().starts_with(&parent.to_ascii_lowercase())
}

#[test]
fn native_media_folder_authorization_is_exact_retryable_and_consumed_on_commit() {
    let mut authorization = NativeMediaFolderAuthorization::default();
    let old = r"C:\Users\tester\Videos\Clipline";
    let selected = r"D:\Recordings\Clipline";
    let other = r"D:\Other";

    assert!(authorization.validate_change(old, old, &nested).is_ok());
    assert!(authorization.validate_change(old, selected, &nested).is_err());

    authorization.authorize(selected.to_string());
    assert!(authorization.validate_change(old, selected, &nested).is_ok());
    assert!(authorization.validate_change(old, selected, &nested).is_ok());
    assert!(authorization.validate_change(old, other, &nested).is_err());

    authorization.commit(selected, &nested);
    assert!(authorization.validate_change(old, selected, &nested).is_err());
    assert!(authorization.validate_change(selected, selected, &nested).is_ok());
}

#[test]
fn media_folder_display_path_removes_windows_verbatim_prefixes() {
    assert_eq!(
        display_media_folder_path(r"\\?\C:\Users\tester\Videos\Clipline"),
        r"C:\Users\tester\Videos\Clipline"
    );
    assert_eq!(display_media_folder_path(r"\\?\UNC\nas\clips"), r"\\nas\clips");
    assert_eq!(display_media_folder_path(r"D:\Clips"), r"D:\Clips");
}

// The desktop

#[test]
fn producer_generations_are_monotonic_and_domain_scoped() {
    let mut generations = ProducerGenerations::default();
    assert_eq!(generations.next_game_detection().unwrap().get(), 1);
    assert_eq!(generations.next_game_detection().unwrap().get(), 2);
    assert_eq!(generations.next_cloud_upload().unwrap().get(), 1);
    assert_eq!(generations.next_enrichment().unwrap().get(), 1);
    assert_eq!(Generation::new(7).get(), 7);
    generations.enrichment = u64::MAX;
    assert!(generations.next_enrichment().is_err());
}

fn message(text: &str) -> String {
    text.to_string()
}

#[test]
fn every_shipping_event_name_is_mapped_once() {
    let events = vec![
        (UiNotice::Recorder(RecorderNotice::Status), "status"),
        (UiNotice::Recorder(RecorderNotice::Saved), "saved"),
        (
            UiNotice::Recorder(RecorderNotice::Error { message: message("failed") }),
            "error",
        ),
        (UiNotice::WindowLifecycle, "window-lifecycle"),
        (UiNotice::MicMonitor, "mic-test"),
        (UiNotice::MicTestError { message: message("failed") }, "mic-test-error"),
        (UiNotice::MicTestStopped, "mic-test-stopped"),
        (UiNotice::GameDetection, "game-detection"),
        (UiNotice::CloudUploadProgress, "cloud-upload-progress"),
        (UiNotice::EnrichmentUpdated, "osu-enrichment-updated"),
    ];
    for (event, name) in events {
        let emission = ui_emission(event).unwrap();
        assert_eq!(emission.name, name, "missing mapping for {name}");
    }
    assert_eq!(ui_emission(UiNotice::Recorder(RecorderNotice::MediaRootResolved)), None);
}

#[test]
fn errors_are_sent_as_their_message() {
    let emission = ui_emission(UiNotice::UserError { message: message("failed") }).unwrap();
    assert_eq!(emission.name, "error");
    assert_eq!(emission.payload, EmissionPayload::Message(message("failed")));
    let stopped = ui_emission(UiNotice::MicTestStopped).unwrap();
    assert_eq!(stopped.payload, EmissionPayload::Nothing);
    let status = ui_emission(UiNotice::Recorder(RecorderNotice::Status)).unwrap();
    assert_eq!(status.payload, EmissionPayload::Content);
}

#[test]
fn only_applied_events_reach_the_window() {
    assert!(forwards_event(ApplyEventOutcome::Applied));
    assert!(!forwards_event(ApplyEventOutcome::Unchanged));
    assert!(!forwards_event(ApplyEventOutcome::Stale));
}

// Games and clips

#[test]
fn built_in_and_custom_identities_never_overlap() {
    assert!(GameIdentity::custom(OSU_ID).plugin_id().is_none());
    assert!(!GameIdentity::custom("unknown").is_built_in_plugin("unknown"));
    assert!(!GameIdentity::custom(LEAGUE_OF_LEGENDS_ID).is_built_in_plugin(LEAGUE_OF_LEGENDS_ID));
    let osu = GameIdentity::built_in_plugin(OSU_ID).unwrap();
    assert_eq!(osu.plugin_id(), Some(OSU_ID));
    assert!(osu.is_built_in_plugin(OSU_ID));
    assert!(!osu.same(&GameIdentity::custom(OSU_ID)));
    assert_eq!(osu.id(), GameIdentity::custom(OSU_ID).id());
    assert!(GameIdentity::built_in_plugin("custom-osu-123").is_none());
}

#[test]
fn clip_gc_priority_orders_sessions_before_replays_before_trims() {
    // The kinds of session_1781377615.mp4, clip_1784525638.mp4 and
    // clip_1_trim_001000_002000.mp4.
    assert_eq!(clip_gc_priority("session"), 0);
    assert_eq!(clip_gc_priority("replay"), 1);
    assert_eq!(clip_gc_priority("trim"), 2);
}

#[test]
fn uploads_and_favorites_are_protected() {
    assert!(is_protected_clip(true, false));
    assert!(is_protected_clip(false, true));
    assert!(!is_protected_clip(false, false));
}

// Images

#[test]
fn encode_rgba_png_round_trips_a_known_bitmap() {
    let rgba = [
        255, 0, 0, 255, //
        0, 255, 0, 255, //
        0, 0, 255, 255, //
        255, 255, 255, 255,
    ];
    let png_bytes = encode_rgba_png(2, 2, &rgba).expect("encode");

    let decoder = png::Decoder::new(std::io::Cursor::new(&png_bytes));
    let mut reader = decoder.read_info().expect("header");
    let mut decoded = vec![0; reader.output_buffer_size()];
    let info = reader.next_frame(&mut decoded).expect("frame");

    assert_eq!(info.width, 2);
    assert_eq!(info.height, 2);
    assert_eq!(info.color_type, png::ColorType::Rgba);
    assert_eq!(&decoded[..info.buffer_size()], &rgba);
}

#[test]
fn pixels_have_to_fill_the_image() {
    assert!(encode_rgba_png(2, 2, &[0; 15]).is_none());
    assert!(encode_rgba_png(0, 2, &[]).is_none());
    for compression in [PngCompression::Default, PngCompression::Fast, PngCompression::Best] {
        assert!(encode_rgba_png_with(1, 1, &[1, 2, 3, 4], compression).is_some());
    }
}

#[test]
fn sibling_temp_atomically_replaces_stale_destination() {
    let files = RefCell::new(BTreeMap::from([("shot.png".to_string(), b"stale".to_vec())]));
    let mut names = SiblingNames { pid: 9, next_id: 0 };
    let mut temp = SiblingTemp::reserve(Some("shot.png"), &mut names, &|name: &str| {
        files.borrow_mut().insert(name.to_string(), Vec::new());
        CreateOutcome::Created
    })
    .unwrap();
    let temp_name = temp.name.clone();
    temp.write_all(b"complete png", |bytes: &[u8]| {
        files.borrow_mut().insert(temp_name.clone(), bytes.to_vec());
        Ok(())
    })
    .unwrap();

    temp.publish(|name: &str| {
        let bytes = files.borrow_mut().remove(name).unwrap();
        files.borrow_mut().insert("shot.png".to_string(), bytes);
        Ok(())
    })
    .unwrap();

    assert_eq!(files.borrow()["shot.png"], b"complete png");
    assert!(!files.borrow().contains_key(&temp_name));
    assert!(!temp.must_remove());
    assert!(temp.write_all(b"late", |_: &[u8]| Ok(())).is_err());
}

#[test]
fn concurrent_sibling_temps_have_independent_owned_paths() {
    let mut names = SiblingNames { pid: 9, next_id: 0 };
    let create = |_: &str| CreateOutcome::Created;
    let first = SiblingTemp::reserve(Some("shot.png"), &mut names, &create).unwrap();
    let second = SiblingTemp::reserve(Some("shot.png"), &mut names, &create).unwrap();

    assert_ne!(first.name, second.name);
    assert!(first.name.starts_with("shot.png.tmp."));
    assert!(first.must_remove(), "unpublished temp must clean up on drop");
    assert!(second.must_remove());
}

#[test]
fn reserve_rejects_a_destination_without_a_file_name() {
    let mut names = SiblingNames { pid: 9, next_id: 0 };
    let error =
        SiblingTemp::reserve(None, &mut names, &|_: &str| CreateOutcome::Created).unwrap_err();
    assert!(error.contains("no file name"));
}

#[test]
fn reserving_gives_up_after_a_while() {
    let tried = Cell::new(0);
    let mut names = SiblingNames { pid: 9, next_id: u64::MAX };
    let result = SiblingTemp::reserve(Some("shot.png"), &mut names, &|_: &str| {
        tried.set(tried.get() + 1);
        CreateOutcome::AlreadyExists
    });
    assert!(result.is_err());
    assert_eq!(tried.get(), RESERVE_ATTEMPTS);
    let failed = SiblingTemp::reserve(Some("shot.png"), &mut names, &|_: &str| {
        CreateOutcome::Failed("denied".to_string())
    });
    assert!(failed.unwrap_err().contains("denied"));
}

#[test]
fn reserving_takes_the_first_free_name_and_uses_no_number_twice() {
    let tried = RefCell::new(Vec::new());
    let mut names = SiblingNames { pid: 9, next_id: 4 };
    let temp = SiblingTemp::reserve(Some("shot.png"), &mut names, &|name: &str| {
        tried.borrow_mut().push(name.to_string());
        if tried.borrow().len() < 3 {
            CreateOutcome::AlreadyExists
        } else {
            CreateOutcome::Created
        }
    })
    .unwrap();
    assert_eq!(tried.borrow().len(), 3);
    assert_eq!(temp.name, tried.borrow()[2]);
    assert_eq!(names.next_id, 7);
}

// Starting

#[test]
fn benchmark_probe_requires_optimization_and_registry_safe_assertions() {
    assert!(benchmark_shell_is_safe(true, "3"));
    assert!(benchmark_shell_is_safe(true, "s"));
    assert!(!benchmark_shell_is_safe(true, "0"));
    assert!(!benchmark_shell_is_safe(false, "3"));
}

#[test]
fn the_benchmark_probe_prints_one_line_of_json() {
    assert_eq!(
        benchmark_probe_line(true, "3"),
        "{\"schema\":1,\"benchmark_shell_safe\":true,\"debug_assertions\":true,\
         \"opt_level\":\"3\",\"autostart_registry_mutation\":false}"
    );
    assert!(benchmark_probe_requested(&vec![
        "clipline".to_string(),
        "--clipline-benchmark-probe".to_string()
    ]));
    assert!(!benchmark_probe_requested(&vec!["--clipline-benchmark".to_string()]));
}

#[test]
fn a_second_instance_reveals_the_first() {
    assert_eq!(activation_command(LaunchMode::Normal), ActivationCommand::Reveal);
    assert_eq!(
        activation_command(LaunchMode::Autostart),
        ActivationCommand::AutostartNoop
    );
}

fn quota(raw: &str) -> Result<Option<u64>, &'static str> {
    let parsed = raw.parse::<f64>().ok();
    let bytes = parsed.map_or(Ok(None), |gb| {
        let bytes = gb * 1024.0 * 1024.0 * 1024.0;
        if bytes < u64::MAX as f64 {
            Ok(Some(bytes as u64))
        } else {
            Err("too large".to_string())
        }
    });
    parse_quota_gb(parsed.map(f64::to_bits), bytes)
}

#[test]
fn quota_parser_converts_gib_to_bytes() {
    assert_eq!(quota("1").unwrap(), Some(1024 * 1024 * 1024));
    assert_eq!(quota("0.5").unwrap(), Some(512 * 1024 * 1024));
}

#[test]
fn quota_parser_zero_disables_quota_lock() {
    assert_eq!(quota("0").unwrap(), None);
}

#[test]
fn quota_parser_rejects_negative_or_non_numeric_values() {
    assert!(quota("-1").is_err());
    assert!(quota("nope").is_err());
}

#[test]
fn quota_parser_says_what_is_wrong() {
    assert_eq!(quota("nope"), Err("expected a number of GiB"));
    for raw in ["-1", "-1e-300", "inf", "-inf", "NaN"] {
        assert_eq!(quota(raw), Err("quota must be a non-negative finite number"), "{raw}");
    }
    assert_eq!(quota("-0"), Ok(None));
    assert_eq!(quota("1e300"), Err("quota is too large"));
}

// Diagnostics

#[test]
fn diagnostics_are_single_lines() {
    assert_eq!(single_line("  a\n b\t\tc\r\n"), "a b c");
    assert_eq!(single_line(" \n "), "");
}

#[test]
fn webview_versions_are_reported_for_every_key() {
    let keys = webview2_runtime_registry_keys();
    assert_eq!(keys.len(), 3);
    let output = "\r\nHKEY_LOCAL_MACHINE\\X\r\n    pv    REG_SZ    120.0.2210.91\r\n\r\n";
    let version = parse_reg_pv_output(output);
    assert_eq!(version.as_deref(), Some("120.0.2210.91"));
    let reports = vec![
        webview2_key_report("A", version.as_deref()),
        webview2_key_report("B", None),
    ];
    assert_eq!(
        webview2_runtime_diagnostic(&reports),
        "webview2_runtime_versions A=120.0.2210.91; B=missing"
    );
}
