use clipline_app::detection::{
    osu_title_events_for_window, record_osu_title_event, GameDetectionEvent, OsuTitleEvent,
    ProcessQueries, MAX_OSU_TITLE_EVENTS,
};
use clipline_app::encoders::Codec;
use clipline_app::game_identity::{GameIdentity, LEAGUE_OF_LEGENDS_ID, OSU_ID};
use clipline_app::gc::StoredClip;
use clipline_app::runtime::{
    event_payload, recorder_should_run, CaptureSource, Cmd, EventPayload, PreparedRuntimeRestart, QuotaAnswer, QuotaCheck,
    QuotaFull, QuotaOutcome, RecorderStatus, RecordingMode, RuntimeState, SavedClip, ServiceEvent, ServiceHandle,
    ServiceOptions, StorageStatus,
};
use clipline_app::settings::{
    active_game_still_configured, game_recording_mode_changed,
    preserve_backend_owned_settings_fields, same_game_window, save_hotkey_label, save_menu_text,
    AppSettings, CaptureMode, CloudSettings, CloudUploadRecord, CustomGameSettings, DetectedGame,
    GameRecordingMode, GameSettings, OsuApiSettings,
};
use clipline_app::startup::{
    quota_override, startup_global_hotkeys, startup_quota_bytes, startup_settings, QuotaArgument,
};
use clipline_app::transaction::{normalize_hotkeys, SettingsStep, SettingsTransaction};
use std::cell::RefCell;
use std::sync::{Mutex, TryLockError};

fn cloud_settings() -> CloudSettings {
    CloudSettings {
        host_url: String::new(),
        public_url: None,
        connected_user_id: None,
        connected_username: None,
        connected_display_name: None,
        credential_target: None,
        credential_cleanup_targets: Vec::new(),
        default_visibility: "private".into(),
        delete_local_after_upload: false,
        auto_upload_rules: false,
        uploads: Vec::new(),
    }
}

fn osu_settings() -> OsuApiSettings {
    OsuApiSettings {
        account_generation: 0,
        client_id: None,
        user: None,
        credential_target: None,
        credential_cleanup_targets: Vec::new(),
        last_connected_username: None,
    }
}

fn settings() -> AppSettings {
    AppSettings {
        hotkey: "F6".into(),
        hotkey_secondary: None,
        recording_hotkey: None,
        recording_hotkey_secondary: None,
        games: GameSettings {
            auto_detect: true,
            pause_when_no_game: false,
            custom_games: Vec::new(),
        },
        cloud: cloud_settings(),
        osu: osu_settings(),
        capture_mode: CaptureMode::PrimaryMonitor,
        window_title: String::new(),
        fps: 60,
        media_dir: String::new(),
        disk_quota_gb_bits: 50.0_f64.to_bits(),
        auto_delete_when_over_quota: false,
        open_on_startup: false,
        close_to_tray: true,
        minimize_to_tray: false,
    }
}

fn games_only() -> AppSettings {
    let mut settings = settings();
    settings.games.pause_when_no_game = true;
    settings
}

/// The options that settings alone ask for.
fn base(settings: &AppSettings, lol_url: Option<&str>) -> Result<ServiceOptions, String> {
    Ok(ServiceOptions {
        fps: settings.fps,
        lol_url: lol_url.map(str::to_string),
        capture_source: CaptureSource::PrimaryMonitor,
        recording_mode: RecordingMode::ReplaysOnly,
        decodable_codecs: Vec::new(),
        active_game: None,
        recover_abandoned_recordings: true,
    })
}

fn default_base() -> Result<ServiceOptions, String> {
    base(&settings(), None)
}

/// What disk replay without a folder gives.
fn invalid_base() -> Result<ServiceOptions, String> {
    Err("choose a replay cache folder".into())
}

fn handle(id: u64) -> ServiceHandle {
    ServiceHandle { id }
}

fn with_sender(id: u64, settings: AppSettings) -> RuntimeState {
    let mut state = RuntimeState::new(settings, None);
    state.install_recording_sender(handle(id));
    state
}

/// The service that takes a command, if one does.
fn taker(state: &RuntimeState, cmd: Cmd) -> Option<u64> {
    let taken = RefCell::new(None);
    let sent = state.send(cmd, |tx: ServiceHandle, _cmd: Cmd| {
        *taken.borrow_mut() = Some(tx.id);
        true
    });
    assert_eq!(sent, taken.borrow().is_some());
    taken.into_inner()
}

fn save(state: &mut RuntimeState, now_ns: u64, received: &RefCell<Vec<(u64, Cmd)>>) -> bool {
    state.request_save(now_ns, |tx: ServiceHandle, cmd: Cmd| {
        received.borrow_mut().push((tx.id, cmd));
        true
    })
}

fn quota(total: u64, quota: u64, required: u64) -> QuotaFull {
    QuotaFull {
        total_bytes: total,
        quota_bytes: quota,
        required_bytes: required,
    }
}

fn status(recording: bool, full_session: bool) -> RecorderStatus {
    RecorderStatus {
        recording,
        waiting_for_game: false,
        segments: 3,
        buffered_s_bits: 12.0f64.to_bits(),
        buffered_mb_bits: 4.0f64.to_bits(),
        full_session,
        encoder: "mft-h264".into(),
        capture_backend: "wgc".into(),
    }
}

fn detected_game(id: &str, name: &str, hwnd: i64) -> DetectedGame {
    DetectedGame {
        identity: GameIdentity::custom(id),
        name: name.into(),
        hwnd,
        window_title: format!("{name} Window"),
        process_id: hwnd as u32,
        exe_name: format!("{name}.exe"),
        exe_path: None,
        recording_mode: GameRecordingMode::FullSession,
    }
}

fn detected_built_in_game(id: &str, name: &str, hwnd: i64) -> DetectedGame {
    DetectedGame {
        identity: GameIdentity::built_in_plugin(id).expect("test built-in id"),
        ..detected_game(id, name, hwnd)
    }
}

fn queries(
    clipline: Result<bool, &str>,
    game: Result<bool, &str>,
    instance: Result<&str, &str>,
) -> ProcessQueries {
    ProcessQueries {
        clipline_elevated: clipline.map_err(str::to_string),
        game_is_elevated: game.map_err(str::to_string),
        process_instance_id: instance.map(str::to_string).map_err(str::to_string),
    }
}

#[test]
fn durable_recorder_status_prefers_waiting_then_last_status() {
    let mut state = RuntimeState::new(games_only(), None);
    state.recording_desired = true;
    state.last_recorder_status = Some(status(true, false));

    let replayed = state.durable_recorder_status_for_replay().unwrap();
    assert!(!replayed.recording);
    assert!(replayed.waiting_for_game);

    state.recording_desired = false;

    let replayed = state.durable_recorder_status_for_replay().unwrap();
    assert!(replayed.recording);
    assert!(!replayed.waiting_for_game);
    assert_eq!(replayed.segments, 3);
    assert_eq!(replayed.encoder, "mft-h264");
}

#[test]
fn current_game_detection_is_available_for_frontend_replay() {
    let mut state = RuntimeState::new(settings(), None);
    state.active_game = Some(detected_game("game", "Game", 42));

    let event = GameDetectionEvent::from_detected_with_process_queries(
        &state.active_game,
        &queries(Ok(true), Ok(false), Ok("42:test")),
    );

    assert!(event.active);
    assert_eq!(event.name.as_deref(), Some("Game"));
    assert_eq!(event.window_title.as_deref(), Some("Game Window"));
}

#[test]
fn failed_cloud_settings_save_leaves_live_state_unchanged() {
    let mut state = RuntimeState::new(settings(), None);
    let mut next = state.settings().cloud;
    next.host_url = "https://new.example".into();

    let error = state
        .update_cloud_with(next, |cloud: CloudSettings| cloud, |document: &AppSettings| {
            assert_eq!(document.cloud.host_url, "https://new.example");
            Err("disk full".to_string())
        })
        .unwrap_err();

    assert_eq!(error, "disk full");
    assert!(state.settings().cloud.host_url.is_empty());
}

#[test]
fn failed_osu_settings_save_leaves_live_state_unchanged() {
    let mut state = RuntimeState::new(settings(), None);
    let mut next = state.settings().osu;
    next.client_id = Some("1234".into());

    let error = state
        .update_osu_with(next, |osu: OsuApiSettings| osu, |document: &AppSettings| {
            assert_eq!(document.osu.client_id.as_deref(), Some("1234"));
            Err("settings denied".to_string())
        })
        .unwrap_err();

    assert_eq!(error, "settings denied");
    assert!(state.settings().osu.client_id.is_none());
}

#[test]
fn saved_account_settings_take_effect() {
    let mut state = RuntimeState::new(settings(), None);
    let mut cloud = state.settings().cloud;
    cloud.host_url = "https://cloud.example/".into();
    let trimmed = |mut cloud: CloudSettings| {
        cloud.host_url = cloud.host_url.trim_end_matches('/').to_string();
        cloud
    };
    let saved = state.update_cloud_with(cloud, trimmed, |_: &AppSettings| Ok(())).unwrap();
    assert_eq!(saved.cloud.host_url, "https://cloud.example");
    let mut osu = state.settings().osu;
    osu.account_generation = 7;
    state
        .update_osu_with(osu, |osu: OsuApiSettings| osu, |_: &AppSettings| Ok(()))
        .unwrap();
    assert_eq!(state.settings().cloud.host_url, "https://cloud.example");
    assert_eq!(state.settings().osu.account_generation, 7);
}

#[test]
fn request_save_debounces_only_immediate_duplicate_triggers() {
    let mut state = with_sender(1, settings());
    let received = RefCell::new(Vec::new());
    let start = 1_000_000_000;

    assert!(save(&mut state, start, &received));
    assert_eq!(received.take(), vec![(1, Cmd::Save)]);

    assert!(!save(&mut state, start + 1_000, &received));
    assert!(received.borrow().is_empty());

    state.last_save_request_ns = Some(start + 1_000 - 151_000_000);

    assert!(save(&mut state, start + 1_000, &received));
    assert_eq!(received.take(), vec![(1, Cmd::Save)]);
}

#[test]
fn a_save_after_exactly_the_debounce_time_is_a_new_one() {
    let mut state = with_sender(1, settings());
    let received = RefCell::new(Vec::new());
    assert!(save(&mut state, 0, &received));
    assert!(!save(&mut state, 149_999_999, &received));
    assert!(save(&mut state, 150_000_000, &received));
    assert_eq!(received.borrow().len(), 2);
}

#[test]
fn a_save_that_the_service_does_not_take_is_not_remembered() {
    let mut state = with_sender(1, settings());
    let (requested, shown) = state.request_save_or_show_quota(5, |_: ServiceHandle, _: Cmd| false);
    assert!(!requested);
    assert_eq!(shown, None);
    assert_eq!(state.last_save_request_ns, None);

    state.quota_blocked = Some(quota(100, 100, 10));
    let (requested, shown) = state.request_save_or_show_quota(5, |_: ServiceHandle, _: Cmd| true);
    assert!(!requested);
    assert_eq!(shown, Some(quota(100, 100, 10)));
}

#[test]
fn quota_lock_blocks_save_commands_and_preserves_recording_intent_after_stop() {
    let mut state = with_sender(1, settings());
    let generation = state.recording_generation;
    assert!(state.accept_service_quota(generation, quota(100, 100, 10)));

    let received = RefCell::new(Vec::new());
    assert!(!save(&mut state, 0, &received));
    assert!(received.borrow().is_empty());
    assert!(state.accept_service_status(generation, false));
    assert!(state.tx.is_none());
    assert!(state.recording_desired);
    assert!(state.quota_blocked.is_some());
}

#[test]
fn quota_lock_prevents_prepared_recorder_restarts() {
    let mut inner = RuntimeState::new(settings(), None);
    inner.recording_desired = true;
    inner.quota_blocked = Some(quota(100, 100, 1));

    let prepared = inner.prepare_service_restart(default_base()).unwrap();

    assert!(prepared.replacement.is_none());
    assert!(!prepared.waiting_for_game);
}

#[test]
fn stale_recorder_cannot_quota_lock_a_new_generation() {
    let mut state = with_sender(1, settings());
    let old_generation = state.recording_generation;
    state.install_recording_sender(handle(2));

    assert!(!state.accept_service_quota(old_generation, quota(100, 100, 1)));
    assert!(state.quota_blocked.is_none());
}

#[test]
fn stopped_status_clears_matching_recording_sender() {
    let mut state = with_sender(1, settings());
    state.last_save_request_ns = Some(12);
    let generation = state.recording_generation;

    assert!(state.accept_service_status(generation, false));

    assert!(state.tx.is_none());
    assert!(state.last_save_request_ns.is_none());
}

#[test]
fn stale_stopped_status_does_not_clear_newer_recording_sender() {
    let mut state = with_sender(1, settings());
    let stale_generation = state.recording_generation;
    state.install_recording_sender(handle(2));

    assert!(!state.accept_service_status(stale_generation, false));
    assert_eq!(taker(&state, Cmd::Save), Some(2));
}

#[test]
fn stale_stopped_status_is_rejected_after_entering_waiting() {
    let mut state = with_sender(1, games_only());
    let stale_generation = state.recording_generation;

    let waiting_generation = state
        .prepare_service_restart(default_base())
        .unwrap()
        .waiting_generation
        .unwrap();

    assert!(!state.accept_service_status(stale_generation, false));
    assert!(state.waiting_generation_is_current(waiting_generation));
}

#[test]
fn armed_waiting_status_is_available_for_frontend_replay() {
    let mut state = RuntimeState::new(games_only(), None);
    state.recording_desired = true;

    let waiting = state.current_waiting_status().unwrap();
    assert!(!waiting.recording);
    assert!(waiting.waiting_for_game);
}

#[test]
fn prepared_settings_restart_is_non_mutating_until_commit() {
    let original = settings();
    let state = with_sender(1, original.clone());
    let mut changed = original.clone();
    changed.fps = 120;
    let asked = base(&changed, None);

    let prepared = state.prepare_settings_restart(changed, asked, true).unwrap();

    assert_eq!(state.settings().fps, original.fps);
    assert_eq!(taker(&state, Cmd::Save), Some(1), "active sender must remain installed");
    assert_eq!(prepared.settings.fps, 120);

    drop(prepared); // Simulates a later tray-label or hook-registration failure.
    assert_eq!(
        taker(&state, Cmd::Save),
        Some(1),
        "dropping a plan must not stop recording"
    );
}

#[test]
fn settings_save_lock_remains_held_through_runtime_commit() {
    let original = settings();
    let mut state = RuntimeState::new(original.clone(), None);
    let changed = AppSettings { fps: 120, ..original };
    let asked = base(&changed, None);
    let prepared = state
        .prepare_settings_restart(changed, base(&settings(), None), true)
        .unwrap();

    let save_lock = Mutex::new(());
    let mut guard = None;
    let mut restart = Some((prepared, asked));
    let mut save = SettingsTransaction::begin(false, false);
    while save.step != SettingsStep::Complete {
        if save.holds_lock() && guard.is_none() {
            guard = Some(save_lock.lock().unwrap());
        } else if !save.holds_lock() {
            guard = None;
        }
        if save.step == SettingsStep::FinishRestart {
            let (prepared, asked) = restart.take().unwrap();
            let committed = state
                .commit_prepared_restart_with(prepared, asked, true, |_| -> (ServiceHandle, ()) {
                    unreachable!("inactive runtime must not spawn a replacement")
                })
                .unwrap();

            assert!(committed.old_tx.is_none());
            assert_eq!(state.settings().fps, 120);
            assert!(
                matches!(save_lock.try_lock(), Err(TryLockError::WouldBlock)),
                "settings save lock was released before the runtime commit completed"
            );
        }
        save.succeeded(false);
    }

    assert!(restart.is_none());
    assert!(save_lock.try_lock().is_ok());
}

#[test]
fn elevated_game_warning_requires_lower_privilege_clipline() {
    let game = Some(detected_game("endfield", "Arknights: Endfield", 42));
    let event = |detected: &Option<DetectedGame>, clipline, elevated| {
        GameDetectionEvent::from_detected_with_process_queries(
            detected,
            &queries(Ok(clipline), Ok(elevated), Ok("42:test")),
        )
    };

    assert!(event(&game, false, true).elevated_hotkeys_blocked);
    assert!(!event(&game, true, true).elevated_hotkeys_blocked);
    assert!(!event(&game, false, false).elevated_hotkeys_blocked);
    assert!(!event(&None, false, true).elevated_hotkeys_blocked);
}

#[test]
fn elevated_game_warning_carries_process_instance_identity() {
    let game = Some(detected_game("endfield", "Arknights: Endfield", 42));

    let event = GameDetectionEvent::from_detected_with_process_queries(
        &game,
        &queries(Ok(false), Ok(true), Ok("42:987654321")),
    );

    assert_eq!(event.process_instance_id.as_deref(), Some("42:987654321"));
}

#[test]
fn a_process_without_an_instance_is_named_by_its_window() {
    let mut game = detected_game("endfield", "Arknights: Endfield", 42);
    game.hwnd = -7;
    let event = GameDetectionEvent::from_detected_with_process_queries(
        &Some(game),
        &queries(Ok(false), Ok(true), Err("denied")),
    );
    assert_eq!(event.process_instance_id.as_deref(), Some("42:window:-7"));
}

#[test]
fn elevated_game_warning_is_conservative_when_elevation_cannot_be_queried() {
    let game = Some(detected_game("endfield", "Arknights: Endfield", 42));

    let blocked = GameDetectionEvent::from_detected_with_process_queries(
        &game,
        &queries(Ok(false), Err("protected process"), Ok("42:test")),
    );
    assert!(blocked.elevated_hotkeys_blocked);

    let unknown_clipline = GameDetectionEvent::from_detected_with_process_queries(
        &game,
        &queries(Err("token query failed"), Ok(true), Ok("42:test")),
    );
    assert!(!unknown_clipline.elevated_hotkeys_blocked);
}

#[test]
fn games_only_policy_requires_detection_and_an_active_game() {
    let mut settings = games_only();

    assert!(!recorder_should_run(&settings, &None));
    assert!(recorder_should_run(
        &settings,
        &Some(detected_game("custom-game", "Game", 42))
    ));

    settings.games.auto_detect = false;
    assert!(recorder_should_run(&settings, &None));

    settings.games.auto_detect = true;
    settings.games.pause_when_no_game = false;
    assert!(recorder_should_run(&settings, &None));
}

#[test]
fn manual_session_bypasses_games_only_waiting_with_full_session_mode() {
    let mut inner = RuntimeState::new(games_only(), None);
    inner.recording_desired = true;
    inner.manual_full_session_desired = true;

    let prepared = inner.prepare_service_restart(default_base()).unwrap();
    let (options, _) = prepared.replacement.expect("manual recording starts capture");

    assert_eq!(options.recording_mode, RecordingMode::FullSession);
    assert!(!prepared.waiting_for_game);
}

#[test]
fn quota_blocked_manual_session_request_does_not_arm_a_future_recording() {
    let mut inner = RuntimeState::new(settings(), None);
    inner.quota_blocked = Some(quota(10, 10, 1));

    let blocked = inner.arm_manual_session_unless_blocked();

    assert!(blocked.is_some());
    assert!(!inner.manual_full_session_desired);
    assert!(!inner.recording_desired);
}

#[test]
fn stopping_manual_session_returns_games_only_capture_to_waiting() {
    let mut inner = with_sender(1, games_only());
    inner.manual_full_session_desired = true;

    let (_, restart) = inner.prepare_manual_session_stop(default_base()).unwrap();
    let restart = restart.expect("games-only capture must return to waiting");

    assert!(!inner.manual_full_session_desired);
    assert!(inner.recording_desired);
    assert!(restart.old_tx.is_some());
    assert!(restart.replacement.is_none());
    assert!(restart.waiting_for_game);
}

#[test]
fn game_restart_pauses_service_but_keeps_recorder_armed() {
    let mut inner = with_sender(1, games_only());
    inner.last_save_request_ns = Some(0);

    let prepared = inner.prepare_service_restart(default_base()).unwrap();

    assert!(prepared.old_tx.is_some());
    assert!(prepared.replacement.is_none());
    assert!(prepared.waiting_for_game);
    assert!(inner.recording_desired);
    assert!(inner.tx.is_none());
}

#[test]
fn game_restart_resumes_an_armed_policy_pause() {
    let mut inner = RuntimeState::new(games_only(), None);
    inner.recording_generation = 4;
    inner.recording_desired = true;
    inner.active_game = Some(detected_game("custom-game", "Game", 42));

    let prepared = inner.prepare_service_restart(default_base()).unwrap();

    assert!(prepared.old_tx.is_none());
    assert!(prepared.replacement.is_some());
    assert!(!prepared.waiting_for_game);
    assert!(inner.recording_desired);
}

#[test]
fn manual_stop_invalidates_a_pending_waiting_status() {
    let mut state = RuntimeState::new(games_only(), None);
    state.recording_desired = true;
    let waiting_generation = state
        .prepare_service_restart(default_base())
        .unwrap()
        .waiting_generation
        .expect("policy pause must carry its generation");

    state.stop_recording();

    assert!(!state.waiting_generation_is_current(waiting_generation));
}

#[test]
fn enabling_games_only_policy_stops_fallback_capture_at_commit() {
    let mut state = with_sender(1, settings());
    let prepared = state
        .prepare_settings_restart(games_only(), default_base(), true)
        .unwrap();

    let spawned = RefCell::new(false);
    let committed = state
        .commit_prepared_restart_with(prepared, default_base(), true, |_| {
            *spawned.borrow_mut() = true;
            (handle(2), ())
        })
        .unwrap();

    assert!(!spawned.into_inner());
    assert!(committed.old_tx.is_some());
    assert!(committed.replacement.is_none());
    assert!(committed.waiting_for_game);
    assert!(state.recording_desired);
}

#[test]
fn committed_waiting_invalidates_detector_restart_already_spawning() {
    let mut state = with_sender(1, settings());
    let detector_restart = state.prepare_service_restart(default_base()).unwrap();
    let (_options, detector_generation) = detector_restart.replacement.unwrap();

    let prepared = state
        .prepare_settings_restart(games_only(), default_base(), true)
        .unwrap();
    let committed = state
        .commit_prepared_restart_with(
            prepared,
            default_base(),
            true,
            |_| -> (ServiceHandle, ()) { unreachable!("waiting must not spawn a recorder") },
        )
        .unwrap();
    assert!(committed.waiting_for_game);
    assert!(committed.old_tx.is_none());

    let rejected = state
        .install_prepared_service_restart(detector_generation, handle(9))
        .unwrap_err();

    assert_eq!(rejected, handle(9));
    assert_eq!(taker(&state, Cmd::Save), None);
}

#[test]
fn prepared_settings_restart_uses_current_game_and_sender_at_commit() {
    let mut state = with_sender(1, settings());
    state.active_game = Some(detected_built_in_game(LEAGUE_OF_LEGENDS_ID, "League", 41));
    let changed = AppSettings { fps: 120, ..settings() };
    let asked = base(&changed, None);
    let prepared = state
        .prepare_settings_restart(changed, default_base(), true)
        .unwrap();

    let committed_options = RefCell::new(None);
    state.active_game = Some(detected_built_in_game(OSU_ID, "osu!", 84));
    state.install_recording_sender(handle(2));
    let committed = state
        .commit_prepared_restart_with(prepared, asked, true, |options| {
            *committed_options.borrow_mut() = Some(options);
            (handle(3), ())
        })
        .unwrap();

    let options = committed_options.into_inner().unwrap();
    assert_eq!(options.fps, 120);
    assert_eq!(
        options.capture_source,
        CaptureSource::WindowHandle {
            hwnd: 84,
            title: "osu! Window".into(),
        }
    );
    assert_eq!(
        options.active_game.as_ref().map(|game| game.identity.id()),
        Some(OSU_ID)
    );
    assert_eq!(committed.old_tx, Some(handle(2)));
    assert!(committed.replacement.is_some());
    assert_eq!(taker(&state, Cmd::Save), Some(3));
}

#[test]
fn prepared_settings_restart_restarts_sender_that_started_before_commit() {
    let mut state = RuntimeState::new(settings(), None);
    let changed = AppSettings { fps: 120, ..settings() };
    let asked = base(&changed, None);
    let prepared = state
        .prepare_settings_restart(changed, default_base(), true)
        .unwrap();

    let committed_options = RefCell::new(None);
    state.install_recording_sender(handle(2));
    let committed = state
        .commit_prepared_restart_with(prepared, asked, true, |options| {
            *committed_options.borrow_mut() = Some(options);
            (handle(3), ())
        })
        .unwrap();

    assert_eq!(committed_options.into_inner().unwrap().fps, 120);
    assert_eq!(committed.old_tx, Some(handle(2)));
    assert!(committed.replacement.is_some());
    assert_eq!(taker(&state, Cmd::Save), Some(3));
}

#[test]
fn prepared_settings_restart_does_not_resurrect_sender_stopped_before_commit() {
    let mut state = with_sender(1, settings());
    let changed = AppSettings { fps: 120, ..settings() };
    let asked = base(&changed, None);
    let prepared = state
        .prepare_settings_restart(changed, default_base(), true)
        .unwrap();

    state.stop_recording();

    let spawned = RefCell::new(false);
    let committed = state
        .commit_prepared_restart_with(prepared, asked, true, |_| {
            *spawned.borrow_mut() = true;
            (handle(2), ())
        })
        .unwrap();

    assert!(!spawned.into_inner());
    assert!(committed.old_tx.is_none());
    assert!(committed.replacement.is_none());
    assert_eq!(taker(&state, Cmd::Save), None);
    assert_eq!(state.settings().fps, 120);
}

#[test]
fn commit_time_restart_option_error_keeps_current_sender_and_settings() {
    let original = settings();
    let mut state = with_sender(1, original.clone());
    let prepared = PreparedRuntimeRestart {
        settings: AppSettings { fps: 120, ..settings() },
    };

    let spawned = RefCell::new(false);
    let error = state
        .commit_prepared_restart_with(prepared, invalid_base(), true, |_| {
            *spawned.borrow_mut() = true;
            (handle(2), ())
        })
        .unwrap_err();

    assert!(error.contains("replay cache folder"), "{error}");
    assert!(!spawned.into_inner());
    assert_eq!(state.settings(), original);
    assert_eq!(taker(&state, Cmd::Save), Some(1));
}

#[test]
fn recording_sender_survives_restart_option_error() {
    let mut inner = with_sender(1, settings());
    inner.last_save_request_ns = Some(5);

    let err = match inner.prepare_service_restart(invalid_base()) {
        Ok(_) => panic!("restart options should fail"),
        Err(err) => err,
    };

    assert!(err.contains("replay cache folder"), "{err}");
    assert!(inner.tx.is_some(), "failed options must not drop sender");
    assert!(inner.recording_desired);
    assert_eq!(inner.recording_generation, 1);
    assert!(
        inner.last_save_request_ns.is_some(),
        "failed options must not clear debounce state"
    );
}

#[test]
fn prepared_restart_skips_abandoned_recording_recovery() {
    let mut inner = with_sender(1, settings());
    inner.last_save_request_ns = Some(5);

    let prepared = inner.prepare_service_restart(default_base()).unwrap();
    let (next_options, _generation) = prepared.replacement.unwrap();

    assert!(
        !next_options.recover_abandoned_recordings,
        "internal recorder restarts must not recover another active recorder's temp file"
    );
}

#[test]
fn game_restart_gap_does_not_resurrect_after_user_stop() {
    let mut state = with_sender(1, settings());
    let prepared = state.prepare_service_restart(default_base()).unwrap();

    state.stop_recording();
    let finished = state.finish_service_restart(&prepared, Some(handle(2)));

    assert_eq!(finished.follow, None);
    assert_eq!(finished.discard, Some(handle(2)));
    assert_eq!(
        taker(&state, Cmd::Save),
        None,
        "a replacement spawned before Stop must not resurrect recording"
    );
}

#[test]
fn game_restart_gap_does_not_overwrite_a_newer_manual_start() {
    let mut state = with_sender(1, settings());
    let prepared = state.prepare_service_restart(default_base()).unwrap();
    let (_options, restart_generation) = prepared.replacement.unwrap();

    state.install_recording_sender(handle(2));
    let rejected = state
        .install_prepared_service_restart(restart_generation, handle(3))
        .unwrap_err();

    assert_eq!(rejected, handle(3));
    assert_eq!(
        taker(&state, Cmd::Save),
        Some(2),
        "the manual start must remain the active sender"
    );
}

#[test]
fn newer_game_restart_supersedes_a_restart_already_spawning() {
    let mut state = with_sender(1, settings());
    let first = state.prepare_service_restart(default_base()).unwrap();
    let second = state.prepare_service_restart(default_base()).unwrap();

    let (_, first_generation) = first.replacement.unwrap();
    let rejected = state
        .install_prepared_service_restart(first_generation, handle(2))
        .unwrap_err();
    assert_eq!(rejected, handle(2));

    let finished = state.finish_service_restart(&second, Some(handle(3)));
    assert_eq!(finished.follow, Some((handle(3), state.recording_generation)));
    assert_eq!(finished.discard, None);
    assert!(!finished.announce_waiting);
    assert_eq!(taker(&state, Cmd::Save), Some(3));
}

#[test]
fn recording_sender_survives_game_restart_option_error() {
    let mut inner = with_sender(1, settings());
    inner.active_game = Some(detected_game("custom-game", "Game", 42));
    inner.last_save_request_ns = Some(5);

    let err = match inner.prepare_service_restart(invalid_base()) {
        Ok(_) => panic!("restart options should fail"),
        Err(err) => err,
    };

    assert!(err.contains("replay cache folder"), "{err}");
    assert!(inner.tx.is_some(), "failed options must not drop sender");
    assert!(
        inner.last_save_request_ns.is_some(),
        "failed options must not clear debounce state"
    );
}

#[test]
fn failed_newer_game_restart_invalidates_a_plan_already_spawning() {
    let mut inner = RuntimeState::new(settings(), None);
    inner.recording_generation = 7;
    inner.recording_desired = true;

    assert!(inner.prepare_service_restart(invalid_base()).is_err());
    assert_eq!(inner.recording_generation, 8);
    assert!(inner.recording_desired);
    assert!(inner.tx.is_none());
}

#[test]
fn preserve_backend_owned_settings_fields_keeps_upload_state_but_allows_preferences() {
    let mut frontend = settings();
    frontend.cloud.host_url = "https://stale.example.com".into();
    frontend.cloud.public_url = Some("https://stale-public.example.com".into());
    frontend.cloud.connected_user_id = Some("stale-user".into());
    frontend.cloud.connected_username = Some("stale-name".into());
    frontend.cloud.connected_display_name = Some("Stale".into());
    frontend.cloud.credential_target = Some("stale-target".into());
    frontend.cloud.default_visibility = "public".into();
    frontend.cloud.delete_local_after_upload = true;
    frontend.cloud.auto_upload_rules = true;

    let mut backend = settings();
    backend.cloud.host_url = "https://cloud.example.com".into();
    backend.cloud.public_url = Some("https://public.example.com".into());
    backend.cloud.connected_user_id = Some("user-1".into());
    backend.cloud.connected_username = Some("dain".into());
    backend.cloud.connected_display_name = Some("Dain".into());
    backend.cloud.credential_target = Some("clipline:user-1".into());
    backend.cloud.credential_cleanup_targets = vec!["clipline:old-user".into()];
    backend.cloud.insert_upload(
        "local-1".into(),
        CloudUploadRecord {
            local_clip_id: "local-1".into(),
            client_clip_id: None,
            upload_generation: None,
            path: "D:\\Videos\\Clipline\\clip.mp4".into(),
            remote_clip_id: Some("remote-1".into()),
            remote_url: Some("https://public.example.com/remote-1".into()),
            visibility: "private".into(),
            upload_status: "uploaded_private".into(),
            error: None,
            updated_at_unix: 42,
        },
    );

    preserve_backend_owned_settings_fields(&mut frontend, &backend);

    assert_eq!(frontend.cloud.host_url, backend.cloud.host_url);
    assert_eq!(frontend.cloud.public_url, backend.cloud.public_url);
    assert_eq!(frontend.cloud.connected_user_id, backend.cloud.connected_user_id);
    assert_eq!(frontend.cloud.connected_username, backend.cloud.connected_username);
    assert_eq!(
        frontend.cloud.connected_display_name,
        backend.cloud.connected_display_name
    );
    assert_eq!(frontend.cloud.credential_target, backend.cloud.credential_target);
    assert_eq!(
        frontend.cloud.credential_cleanup_targets,
        backend.cloud.credential_cleanup_targets
    );
    assert_eq!(frontend.cloud.uploads, backend.cloud.uploads);
    assert_eq!(frontend.cloud.default_visibility, "public");
    assert!(frontend.cloud.delete_local_after_upload);
    assert!(frontend.cloud.auto_upload_rules);
}

#[test]
fn preserve_backend_owned_settings_fields_keeps_osu_credentials_from_backend() {
    let mut frontend = settings();
    frontend.osu.client_id = None;
    frontend.osu.user = None;
    frontend.osu.credential_target = None;
    frontend.osu.last_connected_username = None;

    let mut backend = settings();
    backend.osu.client_id = Some("61835".into());
    backend.osu.user = Some("3426414".into());
    backend.osu.credential_target = Some("Clipline osu!:61835:3426414".into());
    backend.osu.credential_cleanup_targets = vec!["Clipline osu!:old".into()];
    backend.osu.last_connected_username = Some("Dain".into());

    preserve_backend_owned_settings_fields(&mut frontend, &backend);

    assert_eq!(frontend.osu, backend.osu);
}

#[test]
fn detected_game_identity_ignores_volatile_window_title() {
    let current = DetectedGame {
        window_title: "Loading".into(),
        recording_mode: GameRecordingMode::ReplaysOnly,
        ..detected_game("custom-game", "Game", 42)
    };
    let updated_title = DetectedGame {
        window_title: "Paused".into(),
        ..current.clone()
    };
    let different_window = DetectedGame { hwnd: 43, ..current.clone() };

    assert!(same_game_window(&Some(current.clone()), &Some(updated_title)));
    assert!(!same_game_window(&Some(current), &Some(different_window)));
}

#[test]
fn detected_game_recording_mode_change_requires_service_restart() {
    let current = DetectedGame {
        window_title: "Game".into(),
        recording_mode: GameRecordingMode::ReplaysOnly,
        ..detected_game("custom-game", "Game", 42)
    };
    let updated_mode = DetectedGame {
        recording_mode: GameRecordingMode::FullSession,
        ..current.clone()
    };
    let updated_title = DetectedGame {
        window_title: "Game - Loading".into(),
        ..current.clone()
    };

    assert!(same_game_window(&Some(current.clone()), &Some(updated_mode.clone())));
    assert!(game_recording_mode_changed(
        &Some(current.clone()),
        &Some(updated_mode)
    ));
    assert!(!game_recording_mode_changed(&Some(current), &Some(updated_title)));
}

#[test]
fn osu_title_events_record_only_changed_osu_titles() {
    let mut events = Vec::new();
    let osu = DetectedGame {
        window_title: "osu! - xi - Blue Zenith [FOUR DIMENSIONS]".into(),
        exe_name: "osu!.exe".into(),
        ..detected_built_in_game(OSU_ID, "osu!", 42)
    };
    let league = DetectedGame {
        window_title: "League".into(),
        exe_name: "League of Legends.exe".into(),
        ..detected_built_in_game(LEAGUE_OF_LEGENDS_ID, "League of Legends", 42)
    };

    record_osu_title_event(&mut events, &Some(osu.clone()), 100);
    record_osu_title_event(&mut events, &Some(osu.clone()), 101);
    record_osu_title_event(&mut events, &Some(league), 102);
    record_osu_title_event(
        &mut events,
        &Some(DetectedGame {
            identity: GameIdentity::custom(OSU_ID),
            name: "Custom impostor".into(),
            window_title: "must not be tracked".into(),
            exe_name: "impostor.exe".into(),
            ..osu.clone()
        }),
        102,
    );
    record_osu_title_event(
        &mut events,
        &Some(DetectedGame {
            window_title: "osu!".into(),
            ..osu.clone()
        }),
        103,
    );

    assert_eq!(
        events,
        vec![
            OsuTitleEvent {
                unix_s: 100,
                title: "osu! - xi - Blue Zenith [FOUR DIMENSIONS]".into(),
            },
            OsuTitleEvent {
                unix_s: 103,
                title: "osu!".into(),
            }
        ]
    );
}

#[test]
fn the_oldest_titles_leave_a_full_trail() {
    let mut events = Vec::new();
    for i in 0..(MAX_OSU_TITLE_EVENTS as i64 + 3) {
        let osu = DetectedGame {
            window_title: format!(" map {i} "),
            ..detected_built_in_game(OSU_ID, "osu!", 42)
        };
        record_osu_title_event(&mut events, &Some(osu), i);
    }
    assert_eq!(events.len(), MAX_OSU_TITLE_EVENTS);
    assert_eq!(events[0].title, "map 3");
    assert_eq!(events[0].unix_s, 3);
}

#[test]
fn osu_title_events_for_window_filters_to_saved_recording_window() {
    let event = |unix_s: i64, title: &str| OsuTitleEvent {
        unix_s,
        title: title.into(),
    };
    let events = vec![
        event(90, "too early"),
        event(96, "start margin"),
        event(150, "inside"),
        event(206, "too late"),
    ];

    let titles: Vec<_> = osu_title_events_for_window(&events, Some(100), 200)
        .into_iter()
        .map(|event| event.title)
        .collect();

    assert_eq!(titles, vec!["start margin", "inside"]);
    assert!(osu_title_events_for_window(&events, None, 200).is_empty());
    assert_eq!(osu_title_events_for_window(&events, Some(95), 0).len(), 1);
}

#[test]
fn built_in_league_profile_counts_as_active_game_configuration() {
    let active = Some(detected_built_in_game(
        LEAGUE_OF_LEGENDS_ID,
        "League of Legends",
        42,
    ));
    let settings = settings();

    assert!(active_game_still_configured(&settings, &active, true));
    assert!(!active_game_still_configured(&settings, &active, false));
}

#[test]
fn a_custom_game_counts_while_it_is_enabled() {
    let active = Some(detected_game("custom-game", "Game", 42));
    let mut settings = settings();
    assert!(!active_game_still_configured(&settings, &active, true));
    settings.games.custom_games = vec![CustomGameSettings {
        id: "custom-game".into(),
        enabled: true,
    }];
    assert!(active_game_still_configured(&settings, &active, false));
    settings.games.auto_detect = false;
    assert!(!active_game_still_configured(&settings, &active, true));
    assert!(active_game_still_configured(&settings, &None, false));
}

#[test]
fn active_full_session_game_sets_service_recording_mode() {
    let mut inner = RuntimeState::new(settings(), None);
    inner.active_game = Some(detected_game(LEAGUE_OF_LEGENDS_ID, "Game", 42));

    let opts = inner.options(default_base()).unwrap();

    assert_eq!(
        opts.active_game
            .as_ref()
            .and_then(|game| game.identity.plugin_id()),
        None
    );
    assert_eq!(opts.recording_mode, RecordingMode::FullSession);
    assert_eq!(
        opts.capture_source,
        CaptureSource::WindowHandle {
            hwnd: 42,
            title: "Game Window".into(),
        }
    );
}

#[test]
fn active_built_in_game_sets_service_plugin_id_for_event_sources() {
    let mut inner = RuntimeState::new(settings(), Some("http://mock".into()));
    inner.active_game = Some(DetectedGame {
        exe_path: Some(r"C:\Riot Games\League of Legends\Game\League of Legends.exe".into()),
        ..detected_built_in_game(LEAGUE_OF_LEGENDS_ID, "League of Legends", 42)
    });

    let opts = inner
        .options(base(&inner.settings, inner.lol_url.as_deref()))
        .unwrap();

    assert_eq!(
        opts.active_game
            .as_ref()
            .and_then(|game| game.identity.plugin_id()),
        Some(LEAGUE_OF_LEGENDS_ID)
    );
    assert_eq!(opts.lol_url.as_deref(), Some("http://mock"));
    assert_eq!(
        opts.active_game
            .as_ref()
            .and_then(|game| game.exe_path.as_deref()),
        Some(r"C:\Riot Games\League of Legends\Game\League of Legends.exe")
    );
}

#[test]
fn decodable_codecs_keep_h264_first_and_ignore_unknown_names() {
    let mut state = RuntimeState::new(settings(), None);
    let keys: Vec<String> = ["av1", "vp9", "hevc", "av1"].iter().map(|k| k.to_string()).collect();
    state.set_decodable_codecs(&keys);
    assert_eq!(state.decodable_codecs, vec![Codec::H264, Codec::Av1, Codec::Hevc]);
    state.set_decodable_codecs(&Vec::new());
    assert_eq!(state.decodable_codecs, vec![Codec::H264]);
}

#[test]
fn starting_waits_for_a_game_and_is_blocked_by_the_quota() {
    let mut state = RuntimeState::new(games_only(), None);
    let outcome = state
        .start_recording(default_base(), |_| -> (ServiceHandle, ()) {
            unreachable!("no game yet")
        })
        .unwrap();
    assert!(outcome.recording);
    assert!(outcome.started.is_none());
    assert!(outcome.waiting.unwrap().waiting_for_game);
    assert!(state.recording_desired);

    state.quota_blocked = Some(quota(5, 4, 1));
    let outcome = state
        .start_recording(default_base(), |_| (handle(1), ()))
        .unwrap();
    assert!(!outcome.recording);
    assert_eq!(outcome.blocked, Some(quota(5, 4, 1)));

    state.quota_blocked = None;
    state.active_game = Some(detected_game("g", "Game", 1));
    let outcome = state
        .start_recording(default_base(), |options| (handle(7), options.fps))
        .unwrap();
    assert_eq!(outcome.started, Some((60, state.recording_generation)));
    assert_eq!(taker(&state, Cmd::Save), Some(7));
    let again = state
        .start_recording(default_base(), |_| -> (ServiceHandle, ()) {
            unreachable!("a service runs")
        })
        .unwrap();
    assert!(again.recording);
    assert_eq!(state.stop_recording(), Some(handle(7)));
    assert!(!state.recording_desired);
}

#[test]
fn a_failed_start_keeps_the_wish_to_record() {
    let mut state = RuntimeState::new(settings(), None);
    let error = state
        .start_recording(invalid_base(), |_| (handle(1), ()))
        .unwrap_err();
    assert_eq!(error, "choose a replay cache folder");
    assert!(state.recording_desired);
    assert!(state.tx.is_none());
}

#[test]
fn a_session_starts_on_the_running_service_or_a_new_one() {
    let mut state = with_sender(4, settings());
    let outcome = state
        .start_session_recording(
            default_base(),
            |_| -> (ServiceHandle, ()) { unreachable!("a service runs") },
            |tx: ServiceHandle, cmd: Cmd| tx.id == 4 && cmd == Cmd::StartFullSession,
        )
        .unwrap();
    assert_eq!(outcome.recording, Ok(true));
    assert!(state.session_is_recording());

    let stopped = state.stop_session_recording::<(), _>(
        default_base(),
        |tx: ServiceHandle, cmd: Cmd| tx.id == 4 && cmd == Cmd::StopFullSession,
    );
    assert_eq!(stopped.recording, Ok(false));
    assert!(stopped.restart.is_none());
    assert!(!state.session_is_recording());

    let stopped =
        state.stop_session_recording::<(), _>(default_base(), |_: ServiceHandle, _: Cmd| false);
    assert_eq!(
        stopped.recording,
        Err("recorder stopped before the session could be finalized".to_string())
    );

    let outcome = state
        .start_session_recording(
            default_base(),
            |_| (handle(5), ()),
            |_: ServiceHandle, _: Cmd| false,
        )
        .unwrap();
    assert_eq!(
        outcome.recording,
        Err("recorder stopped before the session could start".to_string())
    );

    let mut idle = RuntimeState::new(games_only(), None);
    let outcome = idle
        .start_session_recording(
            default_base(),
            |options| (handle(6), options.recording_mode),
            |_: ServiceHandle, _: Cmd| true,
        )
        .unwrap();
    assert_eq!(
        outcome.started,
        Some((RecordingMode::FullSession, idle.recording_generation))
    );

    idle.quota_blocked = Some(quota(2, 1, 1));
    let outcome = idle
        .start_session_recording(
            default_base(),
            |_| (handle(8), ()),
            |_: ServiceHandle, _: Cmd| true,
        )
        .unwrap();
    assert_eq!(outcome.recording, Ok(false));
    assert_eq!(outcome.blocked, Some(quota(2, 1, 1)));
}

#[test]
fn the_hotkey_follows_what_the_service_reports() {
    let mut state = with_sender(4, settings());
    assert!(!state.session_is_recording());
    state.last_recorder_status = Some(status(true, true));
    assert!(state.session_is_recording());
    state.stop_recording();
    assert!(!state.session_is_recording());
}

#[test]
fn a_detection_restarts_the_service_for_another_window_or_mode() {
    let mut state = with_sender(1, settings());
    state.settings.games.custom_games = vec![CustomGameSettings {
        id: "g".into(),
        enabled: true,
    }];
    let game = detected_game("g", "Game", 7);

    let update = state
        .set_detected_game(Some(game.clone()), true, 10, default_base())
        .unwrap();
    assert!(update.emit);
    let restart = update.restart.unwrap();
    assert_eq!(restart.old_tx, Some(handle(1)));
    state.finish_service_restart(&restart, Some(handle(2)));

    let same = state
        .set_detected_game(Some(game.clone()), true, 11, default_base())
        .unwrap();
    assert!(!same.emit);
    assert!(same.restart.is_none());

    let retitled = DetectedGame {
        window_title: "Other".into(),
        ..game.clone()
    };
    let update = state
        .set_detected_game(Some(retitled.clone()), true, 12, default_base())
        .unwrap();
    assert!(update.emit);
    assert!(update.restart.is_none());
    assert_eq!(state.active_game, Some(retitled));

    let quieter = DetectedGame {
        recording_mode: GameRecordingMode::ReplaysOnly,
        ..game.clone()
    };
    let update = state
        .set_detected_game(Some(quieter), true, 13, default_base())
        .unwrap();
    assert!(update.restart.is_some());

    state.settings.games.custom_games[0].enabled = false;
    let update = state
        .set_detected_game(Some(game), true, 14, default_base())
        .unwrap();
    assert!(update.emit);
    assert_eq!(state.active_game, None);
}

#[test]
fn a_detection_whose_options_fail_is_an_error() {
    let mut state = with_sender(1, settings());
    state.settings.games.custom_games = vec![CustomGameSettings {
        id: "g".into(),
        enabled: true,
    }];
    let error = state
        .set_detected_game(Some(detected_game("g", "Game", 7)), true, 10, invalid_base())
        .unwrap_err();
    assert_eq!(error, "choose a replay cache folder");
    assert_eq!(state.tx, Some(handle(1)));
}

#[test]
fn events_of_a_replaced_service_are_dropped() {
    let mut state = with_sender(1, settings());
    let stale = state.recording_generation;
    state.install_recording_sender(handle(2));

    let pumped = state.pump_event(&ServiceEvent::Status(status(false, false)), stale);
    assert_eq!(pumped.channel, None);
    assert_eq!(state.tx, Some(handle(2)));
    let pumped = state.pump_event(&ServiceEvent::StorageQuotaFull(quota(2, 1, 1)), stale);
    assert_eq!(pumped.channel, None);
    assert_eq!(state.quota_blocked, None);

    let current = state.recording_generation;
    let pumped = state.pump_event(&ServiceEvent::StorageQuotaFull(quota(2, 1, 1)), current);
    assert_eq!(pumped.channel, Some("storage-quota-full"));
    assert_eq!(state.quota_blocked, Some(quota(2, 1, 1)));
    let pumped = state.pump_event(&ServiceEvent::Status(status(false, false)), current);
    assert_eq!(pumped.channel, Some("status"));
    assert_eq!(state.tx, None);
    assert!(state.recording_desired);
}

#[test]
fn saved_clips_make_a_sound_or_are_enriched() {
    let mut state = with_sender(1, settings());
    let generation = state.recording_generation;
    let storage = StorageStatus {
        total_bytes: 4,
        quota_bytes: Some(10),
        over_quota: false,
    };
    let saved = |full_session| {
        ServiceEvent::Saved(SavedClip {
            path: "clip.mp4".into(),
            seconds_bits: 30.0f64.to_bits(),
            full_session,
            recording_start_unix: None,
            recording_end_unix: None,
            storage,
        })
    };
    let replay = state.pump_event(&saved(false), generation);
    assert_eq!(replay.channel, Some("saved"));
    assert!(replay.play_saved_sound);
    assert!(!replay.enrich);
    let session = state.pump_event(&saved(true), generation);
    assert!(!session.play_saved_sound);
    assert!(session.enrich);
    assert_eq!(state.last_storage_status, Some(storage));

    let error = state.pump_event(&ServiceEvent::Error { message: "boom".into() }, generation);
    assert_eq!(error.channel, Some("error"));
    assert!(state.recent_recorder_error);
    assert_eq!(
        event_payload(ServiceEvent::Error { message: "boom".into() }),
        EventPayload::Text("boom".to_string())
    );
    assert_eq!(event_payload(saved(true)), EventPayload::Event(saved(true)));
    let root = state.pump_event(&ServiceEvent::MediaRootResolved { path: "d".into() }, generation);
    assert_eq!(root.channel, None);
    assert!(root.sets_media_folder);
}

/// A media folder: its sizes as they are measured, its clips, and what was deleted from it.
struct Folder {
    sizes: Vec<Result<u64, String>>,
    clips: Vec<StoredClip>,
    stuck: Vec<&'static str>,
    tried: Vec<String>,
}

fn recheck(
    state: &mut RuntimeState,
    folder: &mut Folder,
    auto_delete: bool,
    announce: bool,
) -> Result<QuotaOutcome, String> {
    let mut check = state.begin_storage_recheck(announce);
    loop {
        let answer = match &check {
            QuotaCheck::Measuring { .. } | QuotaCheck::MeasuringAgain { .. } => {
                QuotaAnswer::Size(folder.sizes.remove(0))
            }
            QuotaCheck::Listing { .. } => {
                QuotaAnswer::Clips(Ok(std::mem::take(&mut folder.clips)))
            }
            QuotaCheck::Deleting { clips, next, .. } => {
                let path = clips[*next].path.clone();
                let removed = !folder.stuck.contains(&path.as_str());
                folder.tried.push(path);
                QuotaAnswer::Deleted(removed)
            }
            QuotaCheck::Finished { .. } => break,
        };
        check = state.recheck_storage_quota(
            check,
            answer,
            "\"d\"",
            Some(100),
            auto_delete,
            announce,
        );
    }
    match check {
        QuotaCheck::Finished { res } => res,
        _ => panic!("the check has ended"),
    }
}

fn folder(sizes: Vec<Result<u64, String>>) -> Folder {
    Folder { sizes, clips: Vec::new(), stuck: Vec::new(), tried: Vec::new() }
}

fn stored(path: &str, kind: &str, bytes: u64, modified_ns: i128) -> StoredClip {
    StoredClip {
        path: path.into(),
        kind: kind.into(),
        bytes,
        modified_ns,
        active_upload_source: false,
        favorite: false,
    }
}

#[test]
fn a_quota_recheck_deletes_once_and_then_decides() {
    let mut state = RuntimeState::new(settings(), None);
    state.recording_desired = true;
    let free = recheck(&mut state, &mut folder(Vec::new()), true, true).unwrap();
    assert_eq!(free, QuotaOutcome { unblocked: true, show: None, restart: false });

    state.quota_blocked = Some(quota(100, 100, 10));
    let mut disk = folder(vec![Ok(95), Ok(90)]);
    disk.clips = vec![stored("a", "replay", 5, 1)];
    let outcome = recheck(&mut state, &mut disk, true, true).unwrap();
    assert_eq!(disk.tried, vec!["a"]);
    assert_eq!(outcome, QuotaOutcome { unblocked: true, show: None, restart: true });
    assert_eq!(state.quota_blocked, None);

    state.quota_blocked = Some(quota(100, 100, 10));
    let mut disk = folder(vec![Ok(91)]);
    let outcome = recheck(&mut state, &mut disk, false, true).unwrap();
    assert!(disk.tried.is_empty());
    assert_eq!(outcome.show, Some(quota(91, 100, 10)));
    assert!(!outcome.unblocked);

    let mut disk = folder(vec![Err("denied".into())]);
    let error = recheck(&mut state, &mut disk, false, true).unwrap_err();
    assert_eq!(error, "storage status for \"d\": denied");

    state.tx = Some(handle(1));
    let outcome = recheck(&mut state, &mut folder(Vec::new()), true, false).unwrap();
    assert_eq!(outcome, QuotaOutcome { unblocked: false, show: None, restart: false });
}

#[test]
fn a_quota_recheck_deletes_by_kind_and_age_and_spares_what_is_protected() {
    let mut state = RuntimeState::new(settings(), None);
    state.quota_blocked = Some(quota(200, 100, 10));
    let mut disk = folder(vec![Ok(200), Ok(110)]);
    let mut favorite = stored("favorite", "session", 50, 1);
    favorite.favorite = true;
    let mut uploading = stored("uploading", "session", 50, 2);
    uploading.active_upload_source = true;
    disk.clips = vec![
        stored("trim", "trim", 30, 1),
        stored("new replay", "replay", 30, 9),
        stored("old replay", "replay", 30, 3),
        favorite,
        uploading,
        stored("session", "session", 30, 99),
    ];
    disk.stuck = vec!["old replay"];
    recheck(&mut state, &mut disk, true, true).unwrap();
    assert_eq!(disk.tried, vec!["session", "old replay", "new replay", "trim"]);
}

#[test]
fn hotkey_labels_join_both_keys() {
    let mut settings = settings();
    assert_eq!(save_hotkey_label(&settings), "F6");
    settings.hotkey_secondary = Some("Ctrl+F8".into());
    assert_eq!(save_hotkey_label(&settings), "F6 / Ctrl+F8");
    assert_eq!(save_menu_text("F6 / Ctrl+F8"), "Save Replay (F6 / Ctrl+F8)");
    assert!(settings.recording_hotkeys().is_empty());
    settings.recording_hotkey_secondary = Some("F9".into());
    assert_eq!(settings.recording_hotkeys(), vec!["F9"]);
}

#[test]
fn hotkeys_are_normalized_in_order() {
    let mut typed = settings();
    typed.hotkey = "f6".to_string();
    typed.hotkey_secondary = Some(" ".to_string());
    typed.recording_hotkey = Some("f7".to_string());
    typed.recording_hotkey_secondary = None;
    let fps = typed.fps;
    let saved = normalize_hotkeys(typed, &|raw: &str| Ok(raw.to_uppercase())).unwrap();
    assert_eq!(saved.hotkey, "F6");
    assert_eq!(saved.hotkey_secondary, None);
    assert_eq!(saved.recording_hotkey, Some("F7".to_string()));
    assert_eq!(saved.recording_hotkey_secondary, None);
    assert_eq!(saved.fps, fps);

    let mut typed = settings();
    typed.hotkey = "f6".to_string();
    typed.hotkey_secondary = Some("?".to_string());
    typed.recording_hotkey = Some("!".to_string());
    let refuse = |raw: &str| {
        if raw == "f6" {
            Ok("F6".to_string())
        } else {
            Err(format!("unknown key {raw}"))
        }
    };
    assert_eq!(
        normalize_hotkeys(typed, &refuse).err(),
        Some("unknown key ?".to_string())
    );
}

#[test]
fn a_start_falls_back_to_the_defaults() {
    let mut defaults = settings();
    defaults.fps = 30;
    let (started, warnings) = startup_settings(
        settings(),
        &Some("osu!".to_string()),
        Some(2.0_f64.to_bits()),
        |applied: &AppSettings| {
            assert_eq!(applied.window_title, "osu!");
            assert_eq!(applied.disk_quota_gb_bits, 2.0_f64.to_bits());
            Ok(())
        },
        defaults,
        vec!["recovered".to_string()],
    );
    assert_eq!(started.window_title, "osu!");
    assert_eq!(started.capture_mode, CaptureMode::WindowTitle);
    assert_eq!(started.disk_quota_gb_bits, 2.0_f64.to_bits());
    assert_eq!(warnings, vec!["recovered".to_string()]);

    let mut defaults = settings();
    defaults.fps = 30;
    let (started, warnings) = startup_settings(
        settings(),
        &None,
        None,
        |_: &AppSettings| Err("fps is out of range".to_string()),
        defaults,
        Vec::new(),
    );
    assert_eq!(started.fps, 30);
    assert_eq!(
        warnings,
        vec![
            "Clipline started with safe defaults because command-line settings were invalid: \
             fps is out of range"
                .to_string()
        ]
    );
}

#[test]
fn a_start_falls_back_to_f6() {
    let parsed = vec![Ok(Some("alt+F10".to_string())), Ok(None)];
    assert_eq!(
        startup_global_hotkeys(&parsed, |_: &str| panic!("no fallback is needed")),
        vec!["alt+F10".to_string()]
    );
    let broken = vec![Ok(Some("alt+F10".to_string())), Err("unknown key".to_string())];
    assert_eq!(
        startup_global_hotkeys(&broken, |key: &str| format!("<{key}>")),
        vec!["<F6>".to_string()]
    );
}

#[test]
fn the_command_line_may_set_the_quota() {
    let given = QuotaArgument::Value("2".to_string());
    let two = Some(2.0_f64.to_bits());
    assert_eq!(quota_override(&QuotaArgument::Absent, None, Ok(None)), Ok(None));
    assert_eq!(
        quota_override(&QuotaArgument::MissingValue, None, Ok(None)),
        Err("missing --disk-quota-gb value")
    );
    assert_eq!(quota_override(&given, two, Ok(Some(2_147_483_648))), Ok(two));
    assert_eq!(quota_override(&given, None, Ok(None)), Err("expected a number of GiB"));
    assert_eq!(
        quota_override(&given, Some((-1.0_f64).to_bits()), Ok(None)),
        Err("quota must be a non-negative finite number")
    );
    assert_eq!(
        quota_override(&given, Some(1e300_f64.to_bits()), Err("overflow".to_string())),
        Err("quota is too large")
    );
    assert_eq!(
        quota_override(&given, Some(0.0_f64.to_bits()), Err("unused".to_string())),
        Ok(Some(0))
    );
    assert_eq!(startup_quota_bytes(&Ok(None), 7), None);
    assert_eq!(startup_quota_bytes(&Ok(Some(3)), 7), Some(3));
    assert_eq!(startup_quota_bytes(&Err("bad".to_string()), 7), Some(7));
}
