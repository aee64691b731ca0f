use clipline_app::startup::{
    ensure_channel_enabled, global_hotkey_error, hook_error, launched_by_autostart,
    missing_release_metadata_message, recorder_startup_error, second_launch_opens_window,
    startup_arguments, startup_plan, tray_icon, DetectorErrors, QuotaArgument, StartupWarnings,
    UpdateChannel,
};
use clipline_app::webview2::parse_reg_pv_output;
use clipline_app::window::{
    background_if_native_minimized, begin_close_to_tray_destroy, cancels_clipboard_exports,
    classify_webview_getter_error, close_request_action,
    ensure_foreground_microphone_test, hide_main_window, is_app_window_label, main_window_open_target, main_window_open_target_for,
    minimize_request_action, native_window_reconcile_action, observe_main_window_destroyed,
    reconciles_native_window, request_main_window_open, restore_taskbar_steps,
    restore_taskbar_webview, reveal_main_window, reveal_main_window_steps, run_event_action, should_log_window_event,
    should_open_on_tray_click, should_reconcile_native_window_event,
    should_show_webview_repair_notice, tray_menu_action, watchdog_should_fire,
    CloseRequestAction, DestroyedOutcome, FirstRunState, FrontendReadinessState,
    MainWindowOpenAction, MainWindowOpenTarget, MainWindowShell, MainWindowShellState,
    MinimizeRequestAction, MouseButton, MouseButtonState, NativeWindowReconcileAction, RunAction,
    RunEventKind, SendToTray, TrayMenuAction, WebviewRepairNoticeReason, WindowEventKind,
    WindowLifecycleMode, WindowLifecycleSnapshot, WindowLifecycleState, WindowStep,
};

fn texts(values: &[&str]) -> Vec<String> {
    values.iter().map(|value| value.to_string()).collect()
}

fn call_name(step: &WindowStep) -> &'static str {
    match step {
        WindowStep::RestoreMemoryTarget => "memory_normal",
        WindowStep::LowerMemoryTarget => "memory_low",
        WindowStep::ShowWebview => "webview_show",
        WindowStep::HideWebview => "webview_hide",
        WindowStep::Show => "show",
        WindowStep::Hide => "hide",
        WindowStep::Unminimize => "unminimize",
        WindowStep::Focus => "focus",
        WindowStep::PublishForeground => "foreground",
        WindowStep::PublishBackground => "background",
    }
}

fn call_names(steps: &[WindowStep]) -> Vec<&'static str> {
    steps.iter().map(call_name).collect()
}

/// Runs the steps that reveal a window; `failing` names those that fail, with their error.
fn run_reveal(failing: &[(&str, &str)], calls: &mut Vec<&'static str>) -> Result<(), String> {
    let outcome = |name: &str| -> Result<(), String> {
        match failing.iter().find(|(step, _)| *step == name) {
            Some((_, error)) => Err(error.to_string()),
            None => Ok(()),
        }
    };
    for step in reveal_main_window_steps() {
        let name = call_name(&step);
        if name != "webview_show" || outcome(name).is_ok() {
            calls.push(name);
        }
    }
    reveal_main_window(outcome("show"), outcome("unminimize"), outcome("focus"))
}

#[test]
fn startup_warnings_remain_durable_across_frontend_ready_replays() {
    let warnings = StartupWarnings::new(vec!["settings recovered".into()]);

    assert_eq!(warnings.snapshot(), vec!["settings recovered"]);
    assert_eq!(
        warnings.snapshot(),
        vec!["settings recovered"],
        "recreated UIs must see the same durable startup warnings"
    );
}

#[test]
fn frontend_readiness_generations_isolate_watchdogs_and_ready_markers() {
    let mut readiness = FrontendReadinessState::default();
    assert_eq!(readiness.generation(), 0);

    let (first, _) = readiness.begin_generation(0);
    assert_eq!(first, 1);
    assert!(readiness.try_arm_watchdog(first));
    assert!(!readiness.try_arm_watchdog(first));
    assert_eq!(readiness.mark_ready(), Some(first));
    assert!(readiness.is_ready(first));
    assert!(!readiness.try_arm_watchdog(first));

    readiness.clear_for_destroy(0);
    assert_eq!(readiness.generation(), 0);
    assert!(!readiness.is_ready(first));

    let (second, _) = readiness.begin_generation(0);
    assert_eq!(second, first + 1);
    assert!(readiness.try_arm_watchdog(second));
    assert!(watchdog_should_fire(
        second,
        readiness.generation(),
        readiness.ready_generation()
    ));
    // An old timer must not fire against a newer window.
    assert!(!watchdog_should_fire(
        first,
        readiness.generation(),
        readiness.ready_generation()
    ));
    assert_eq!(readiness.mark_ready(), Some(second));
    assert!(!watchdog_should_fire(
        second,
        readiness.generation(),
        readiness.ready_generation()
    ));
}

#[test]
fn failed_destroy_restores_the_live_frontend_generation() {
    let mut readiness = FrontendReadinessState::default();
    let (generation, _) = readiness.begin_generation(0);
    assert_eq!(readiness.mark_ready(), Some(generation));

    let checkpoint = readiness.clear_for_destroy(0);
    assert_eq!(readiness.generation(), 0);
    readiness.restore_after_failed_destroy(checkpoint);

    assert_eq!(readiness.generation(), generation);
    assert!(readiness.is_ready(generation));
}

#[test]
fn window_request_actions_follow_general_settings() {
    assert_eq!(close_request_action(true), CloseRequestAction::Tray);
    assert_eq!(minimize_request_action(false), MinimizeRequestAction::Taskbar);

    assert_eq!(close_request_action(false), CloseRequestAction::Quit);
    assert_eq!(minimize_request_action(true), MinimizeRequestAction::Tray);
}

#[test]
fn webview_repair_notice_is_only_needed_for_dead_webview_signals() {
    assert!(should_show_webview_repair_notice(
        WebviewRepairNoticeReason::GetterFailedToReceiveMessage,
        false,
    ));
    assert!(should_show_webview_repair_notice(
        WebviewRepairNoticeReason::FrontendReadyTimeout,
        false,
    ));
    assert!(!should_show_webview_repair_notice(
        WebviewRepairNoticeReason::OtherGetterError,
        false,
    ));
    assert!(!should_show_webview_repair_notice(
        WebviewRepairNoticeReason::GetterFailedToReceiveMessage,
        true,
    ));
}

#[test]
fn classifies_tauri_runtime_receive_failure_as_dead_webview() {
    assert_eq!(
        classify_webview_getter_error(true),
        WebviewRepairNoticeReason::GetterFailedToReceiveMessage
    );
    assert_eq!(
        classify_webview_getter_error(false),
        WebviewRepairNoticeReason::OtherGetterError
    );
}

#[test]
fn tray_left_click_opens_only_on_button_release() {
    assert!(should_open_on_tray_click(MouseButton::Left, MouseButtonState::Up));
    assert!(!should_open_on_tray_click(MouseButton::Left, MouseButtonState::Down));
    assert!(!should_open_on_tray_click(MouseButton::Right, MouseButtonState::Up));
    assert!(!should_open_on_tray_click(MouseButton::Middle, MouseButtonState::Up));
}

#[test]
fn app_window_labels_include_only_main_window() {
    assert!(is_app_window_label("main"));
    assert!(!is_app_window_label("main-recovery-1"));
    assert!(!is_app_window_label("settings"));
    assert!(!is_app_window_label("mainframe"));
}

#[test]
fn unresponsive_main_window_reveals_existing_handle() {
    assert_eq!(main_window_open_target(true), MainWindowOpenTarget::ExistingMain);
    assert_eq!(main_window_open_target(false), MainWindowOpenTarget::NewMain);
}

#[test]
fn close_to_tray_destroy_enters_destroying_until_destroyed_event() {
    let mut state = MainWindowShellState::new(WindowLifecycleMode::Foreground, true);

    begin_close_to_tray_destroy(&mut state);
    assert_eq!(state.mode, WindowLifecycleMode::Destroying);
    assert!(
        state.main_window_present,
        "the dying label may still be registered during Destroying"
    );
    assert!(!state.pending_open);

    let action = observe_main_window_destroyed(&mut state);
    assert_eq!(state.mode, WindowLifecycleMode::Destroyed);
    assert!(
        !state.main_window_present,
        "Destroyed must clear the registered main label"
    );
    assert_eq!(action, MainWindowOpenAction::Noop);
}

#[test]
fn open_during_destroying_queues_instead_of_revealing_dying_label() {
    let mut state = MainWindowShellState::new(WindowLifecycleMode::Destroying, true);

    let action = request_main_window_open(&mut state);

    assert_eq!(action, MainWindowOpenAction::QueueOpen);
    assert!(state.pending_open);
    assert_eq!(state.mode, WindowLifecycleMode::Destroying);
    assert!(state.main_window_present);
    assert_ne!(
        main_window_open_target_for(WindowLifecycleMode::Destroying, true),
        MainWindowOpenTarget::ExistingMain
    );
}

#[test]
fn destroyed_with_pending_open_builds_exactly_one_window() {
    let mut state = MainWindowShellState {
        mode: WindowLifecycleMode::Destroying,
        main_window_present: true,
        pending_open: true,
    };

    let action = observe_main_window_destroyed(&mut state);

    assert_eq!(state.mode, WindowLifecycleMode::Destroyed);
    assert!(!state.main_window_present);
    assert!(!state.pending_open);
    assert_eq!(action, MainWindowOpenAction::BuildNew);

    let second = observe_main_window_destroyed(&mut state);
    assert_eq!(second, MainWindowOpenAction::Noop);
    assert!(!state.pending_open);
}

#[test]
fn destroying_or_destroyed_label_is_never_existing_main() {
    assert_ne!(
        main_window_open_target_for(WindowLifecycleMode::Destroying, true),
        MainWindowOpenTarget::ExistingMain
    );
    assert_ne!(
        main_window_open_target_for(WindowLifecycleMode::Destroyed, true),
        MainWindowOpenTarget::ExistingMain
    );
    assert_eq!(
        main_window_open_target_for(WindowLifecycleMode::Destroyed, false),
        MainWindowOpenTarget::NewMain
    );
    assert_eq!(
        main_window_open_target_for(WindowLifecycleMode::Foreground, true),
        MainWindowOpenTarget::ExistingMain
    );
}

#[test]
fn immediate_close_then_open_race_builds_only_after_destroyed() {
    let mut state = MainWindowShellState::new(WindowLifecycleMode::Foreground, true);
    let mut builds = 0;
    let mut reveals = 0;

    begin_close_to_tray_destroy(&mut state);
    assert_eq!(state.mode, WindowLifecycleMode::Destroying);

    match request_main_window_open(&mut state) {
        MainWindowOpenAction::QueueOpen => {}
        MainWindowOpenAction::RevealExisting => reveals += 1,
        MainWindowOpenAction::BuildNew => builds += 1,
        MainWindowOpenAction::Noop => {}
    }
    assert!(state.pending_open, "open during Destroying must be remembered");
    assert_eq!(reveals, 0, "must not reveal the dying label");
    assert_eq!(builds, 0, "must not build while Destroying");

    match observe_main_window_destroyed(&mut state) {
        MainWindowOpenAction::BuildNew => builds += 1,
        MainWindowOpenAction::RevealExisting => reveals += 1,
        MainWindowOpenAction::QueueOpen | MainWindowOpenAction::Noop => {}
    }

    assert_eq!(state.mode, WindowLifecycleMode::Destroyed);
    assert!(!state.main_window_present);
    assert!(!state.pending_open);
    assert_eq!(reveals, 0);
    assert_eq!(builds, 1);
}

#[test]
fn destroying_and_destroyed_modes_are_backgrounded() {
    assert!(WindowLifecycleSnapshot::new(1, WindowLifecycleMode::Destroying).backgrounded);
    assert!(WindowLifecycleSnapshot::new(2, WindowLifecycleMode::Destroyed).backgrounded);
    assert!(!WindowLifecycleSnapshot::new(3, WindowLifecycleMode::Foreground).backgrounded);
}

#[test]
fn microphone_test_rejects_destroying_and_destroyed_modes() {
    let mut state = WindowLifecycleState::default();
    state.transition(WindowLifecycleMode::Destroying);
    assert!(ensure_foreground_microphone_test(state.snapshot().mode).is_err());
    state.transition(WindowLifecycleMode::Destroyed);
    assert!(ensure_foreground_microphone_test(state.snapshot().mode).is_err());
}

#[test]
fn parses_webview2_runtime_version_from_reg_output() {
    let output = r#"
HKEY_CURRENT_USER\Software\Microsoft\EdgeUpdate\Clients\{F3017226-FE2A-4295-8BDF-00C3A9A7E4C5}
    pv    REG_SZ    120.0.2210.55
"#;

    assert_eq!(parse_reg_pv_output(output).as_deref(), Some("120.0.2210.55"));
}

#[test]
fn opening_main_window_restores_before_focus() {
    let mut calls = Vec::new();

    run_reveal(&[], &mut calls).unwrap();

    // Normal before the webview is shown, and the webview before the native
    // window, or the user sees a throttled or transparent first frame.
    assert_eq!(
        calls,
        [
            "memory_normal",
            "webview_show",
            "show",
            "unminimize",
            "foreground",
            "focus"
        ]
    );
}

#[test]
fn reveal_continues_when_webview_visibility_fails() {
    let mut calls = Vec::new();

    // Webview visibility is best-effort: failing it must never leave the
    // window unrevealable from the tray.
    run_reveal(&[("webview_show", "controller gone")], &mut calls)
        .expect("a webview visibility failure must not fail the reveal");

    assert_eq!(calls[1..], ["show", "unminimize", "foreground", "focus"]);
}

#[test]
fn failed_focus_still_publishes_foreground_after_reveal() {
    let mut calls = Vec::new();

    let error = run_reveal(&[("focus", "focus refused")], &mut calls)
        .expect_err("focus failure should still be reported");

    assert!(error.contains("focus refused"));
    assert_eq!(
        calls,
        [
            "memory_normal",
            "webview_show",
            "show",
            "unminimize",
            "foreground",
            "focus"
        ]
    );
}

#[test]
fn failed_native_reveal_steps_still_publish_foreground_and_attempt_recovery() {
    let mut calls = Vec::new();

    let error = run_reveal(
        &[("show", "show refused"), ("unminimize", "unminimize refused")],
        &mut calls,
    )
    .expect_err("native reveal failures should still be reported");

    assert!(error.contains("show refused"));
    assert_eq!(
        calls,
        [
            "memory_normal",
            "webview_show",
            "show",
            "unminimize",
            "foreground",
            "focus"
        ],
        "frontend boot must not be gated on a fallible native reveal step"
    );
}

#[test]
fn hiding_main_window_hides_native_window_before_webview() {
    let mut calls = vec!["hide"];
    calls.extend(call_names(&hide_main_window(Ok(())).unwrap()));

    assert_eq!(calls, ["hide", "background", "webview_hide", "memory_low"]);
}

#[test]
fn failed_native_hide_leaves_the_webview_visible() {
    let error = hide_main_window(Err("hide refused".into()))
        .expect_err("a failed native hide must surface");

    assert!(error.contains("hide refused"));
}

#[test]
fn hide_reports_success_when_webview_visibility_fails() {
    // The window is already in the tray, so a controller failure is not
    // worth failing the whole transition over -- and the memory target
    // should still be lowered.
    let steps = hide_main_window(Ok(())).expect("webview visibility is best-effort on hide");

    assert!(steps.contains(&WindowStep::LowerMemoryTarget));
}

#[test]
fn window_lifecycle_revisions_only_change_with_native_mode() {
    let mut state = WindowLifecycleState::default();

    assert_eq!(
        state.snapshot(),
        WindowLifecycleSnapshot::new(0, WindowLifecycleMode::Destroyed)
    );
    assert_eq!(
        state.transition(WindowLifecycleMode::Destroyed),
        WindowLifecycleSnapshot::new(0, WindowLifecycleMode::Destroyed)
    );
    assert_eq!(
        state.transition(WindowLifecycleMode::Foreground),
        WindowLifecycleSnapshot::new(1, WindowLifecycleMode::Foreground)
    );
    assert_eq!(
        state.transition(WindowLifecycleMode::Taskbar),
        WindowLifecycleSnapshot::new(2, WindowLifecycleMode::Taskbar)
    );
}

#[test]
fn taskbar_restore_restores_webview_before_publishing_foreground() {
    let mut calls = call_names(&restore_taskbar_steps());
    let (last, result) = restore_taskbar_webview(Ok(()));
    result.unwrap();
    calls.push(call_name(&last));

    assert_eq!(calls, ["memory_normal", "webview_show", "foreground"]);
}

#[test]
fn failed_taskbar_webview_restore_does_not_publish_foreground() {
    let (last, result) = restore_taskbar_webview(Err("controller show failed".into()));
    let error = result.expect_err("controller show failure must keep taskbar lifecycle state");

    assert!(error.contains("controller show failed"));
    assert_ne!(last, WindowStep::PublishForeground);
    assert_eq!(last, WindowStep::LowerMemoryTarget);
}

#[test]
fn microphone_test_requires_foreground_window_lifecycle() {
    let mut state = WindowLifecycleState::default();
    assert!(ensure_foreground_microphone_test(state.snapshot().mode).is_err());

    state.transition(WindowLifecycleMode::Foreground);
    assert!(ensure_foreground_microphone_test(state.snapshot().mode).is_ok());

    state.transition(WindowLifecycleMode::Taskbar);
    assert!(ensure_foreground_microphone_test(state.snapshot().mode).is_err());
}

#[test]
fn native_minimize_fallback_requires_confirmed_minimized_state() {
    let steps = background_if_native_minimized(Ok(false)).unwrap();

    assert!(
        steps.is_empty(),
        "ordinary focus loss or Alt-Tab must not be treated as background"
    );
}

#[test]
fn native_minimize_fallback_publishes_before_releasing_webview() {
    let steps = background_if_native_minimized(Ok(true)).unwrap();

    assert_eq!(call_names(&steps), ["background", "webview_hide", "memory_low"]);
}

#[test]
fn a_window_that_cannot_be_asked_is_not_backgrounded() {
    assert_eq!(
        background_if_native_minimized(Err("gone".into())),
        Err("gone".to_string())
    );
}

#[test]
fn resize_signal_reconciles_native_minimize_and_restore_without_focus() {
    assert!(should_reconcile_native_window_event(WindowEventKind::Resized));
    assert_eq!(
        native_window_reconcile_action(WindowLifecycleMode::Foreground, true),
        NativeWindowReconcileAction::BackgroundTaskbar
    );
    assert_eq!(
        native_window_reconcile_action(WindowLifecycleMode::Taskbar, false),
        NativeWindowReconcileAction::RestoreTaskbar
    );
}

#[test]
fn native_window_reconciliation_ignores_stable_and_tray_states() {
    assert_eq!(
        native_window_reconcile_action(WindowLifecycleMode::Foreground, false),
        NativeWindowReconcileAction::Nothing
    );
    assert_eq!(
        native_window_reconcile_action(WindowLifecycleMode::Taskbar, true),
        NativeWindowReconcileAction::Nothing
    );
    assert_eq!(
        native_window_reconcile_action(WindowLifecycleMode::Tray, false),
        NativeWindowReconcileAction::Nothing
    );
    assert_eq!(
        native_window_reconcile_action(WindowLifecycleMode::Tray, true),
        NativeWindowReconcileAction::Nothing
    );
    assert_eq!(
        native_window_reconcile_action(WindowLifecycleMode::Destroying, true),
        NativeWindowReconcileAction::Nothing
    );
    assert_eq!(
        native_window_reconcile_action(WindowLifecycleMode::Destroyed, false),
        NativeWindowReconcileAction::Nothing
    );
}

#[test]
fn diagnostic_window_event_filter_drops_move_and_resize_noise() {
    assert!(!should_log_window_event(WindowEventKind::Moved));
    assert!(!should_log_window_event(WindowEventKind::Resized));
    assert!(should_log_window_event(WindowEventKind::Focused));
    assert!(should_log_window_event(WindowEventKind::Destroyed));
}

#[test]
fn missing_release_metadata_message_names_channel_workflow() {
    assert_eq!(
        missing_release_metadata_message("Nightly"),
        "No Nightly release metadata is published yet. Publish a Nightly release first."
    );
}

#[test]
fn native_shell_starts_recorder_after_single_instance_accepts_process() {
    let normal = startup_plan(false, false, false, false);
    assert!(normal.start_recorder);
    assert!(normal.open_window);

    let first_run = startup_plan(true, false, false, false);
    assert!(
        !first_run.start_recorder,
        "initial recorder startup must happen after the first-run gate"
    );
    assert!(
        second_launch_opens_window(&texts(&["clipline.exe"])),
        "a duplicate launch only reveals the window of the first"
    );
}

#[test]
fn command_line_flags_take_the_argument_that_follows_their_first_occurrence() {
    let args = texts(&[
        "clipline.exe",
        "--window",
        "Game",
        "--window",
        "Other",
        "--lol-url",
        "http://mock",
        "--disk-quota-gb",
    ]);
    let parsed = startup_arguments(&args);
    assert_eq!(parsed.window_title.as_deref(), Some("Game"));
    assert_eq!(parsed.lol_url.as_deref(), Some("http://mock"));
    assert_eq!(parsed.disk_quota_gb, QuotaArgument::MissingValue);
    assert!(!parsed.launched_by_autostart);

    let parsed = startup_arguments(&texts(&["clipline.exe", "--disk-quota-gb", "12.5", "--autostart"]));
    assert_eq!(parsed.window_title, None);
    assert_eq!(parsed.disk_quota_gb, QuotaArgument::Value("12.5".into()));
    assert!(parsed.launched_by_autostart);
    assert!(launched_by_autostart(&texts(&["--autostart"])));
    assert!(!second_launch_opens_window(&texts(&["clipline.exe", "--autostart"])));
}

#[test]
fn debug_builds_leave_the_startup_registration_alone() {
    assert_eq!(startup_plan(false, false, true, true).set_autostart, None);
    assert_eq!(startup_plan(false, true, true, false).set_autostart, Some(true));
    assert!(!startup_plan(false, true, true, false).open_window);
}

#[test]
fn a_detector_error_is_told_once_until_it_changes() {
    let mut errors = DetectorErrors { last: None };
    assert_eq!(
        errors.round(Err("denied".into())).as_deref(),
        Some("game detection: denied")
    );
    assert_eq!(errors.round(Err("denied".into())), None);
    assert_eq!(
        errors.round(Err("gone".into())).as_deref(),
        Some("game detection: gone")
    );
    assert_eq!(errors.round(Ok(())), None);
    assert_eq!(
        errors.round(Err("gone".into())).as_deref(),
        Some("game detection: gone")
    );
}

#[test]
fn the_tray_icon_is_a_red_dot_on_a_dark_disc() {
    let rgba = tray_icon();
    assert_eq!(rgba.len(), 32 * 32 * 4);
    for y in 0..32usize {
        for x in 0..32usize {
            let i = (y * 32 + x) * 4;
            let (dx, dy) = (x as f32 - 15.5, y as f32 - 15.5);
            let r = (dx * dx + dy * dy).sqrt();
            let expected = if r < 7.0 {
                [229u8, 72, 77, 255]
            } else if r < 15.0 {
                [24u8, 26, 32, 255]
            } else {
                [0, 0, 0, 0]
            };
            assert_eq!(rgba[i..i + 4], expected, "{x} {y}");
        }
    }
}

#[test]
fn run_events_ask_for_one_action_each() {
    let window = |event| RunEventKind::Window { app_window: true, event };
    assert_eq!(
        run_event_action(window(WindowEventKind::CloseRequested), true),
        RunAction::Close(CloseRequestAction::Tray)
    );
    assert_eq!(
        run_event_action(window(WindowEventKind::CloseRequested), false),
        RunAction::Close(CloseRequestAction::Quit)
    );
    assert_eq!(
        run_event_action(window(WindowEventKind::Destroyed), true),
        RunAction::CompleteDestroyed
    );
    assert_eq!(
        run_event_action(RunEventKind::ExitRequested { with_code: false }, true),
        RunAction::PreventExit
    );
    assert_eq!(
        run_event_action(RunEventKind::ExitRequested { with_code: true }, true),
        RunAction::Nothing
    );
    assert_eq!(run_event_action(RunEventKind::Exit, true), RunAction::ShutDown);
}

#[test]
fn tray_menu_items_are_known_by_their_id() {
    assert_eq!(tray_menu_action("open"), TrayMenuAction::Open);
    assert_eq!(tray_menu_action("save"), TrayMenuAction::Save);
    assert_eq!(tray_menu_action("diagnostics"), TrayMenuAction::Diagnostics);
    assert_eq!(tray_menu_action("quit"), TrayMenuAction::Quit);
    assert_eq!(tray_menu_action("Open"), TrayMenuAction::Unknown);
}

#[test]
fn first_run_is_pending_until_completed() {
    let mut state = FirstRunState::new(true);
    assert!(state.is_pending());
    state.complete();
    assert!(!state.is_pending());
    assert!(!FirstRunState::new(false).is_pending());
}

#[test]
fn a_failed_close_to_tray_restores_the_window_and_its_frontend() {
    let mut shell = MainWindowShell::default();
    assert_eq!(shell.open_main_window(false), MainWindowOpenAction::BuildNew);
    shell.lifecycle.transition(WindowLifecycleMode::Foreground);
    let (generation, _) = shell.readiness.begin_generation(10);
    shell.readiness.mark_ready();

    let plan = shell.begin_send_to_tray(1, 20);
    let (previous, checkpoint) = match plan {
        SendToTray::DestroyWindows { previous, checkpoint } => (previous, checkpoint),
        other => panic!("{other:?}"),
    };
    assert_eq!(shell.lifecycle.snapshot().mode, WindowLifecycleMode::Destroying);
    assert_eq!(shell.open_main_window(true), MainWindowOpenAction::QueueOpen);
    shell.send_to_tray_failed(previous, checkpoint, "main", "busy");
    assert_eq!(shell.lifecycle.snapshot().mode, WindowLifecycleMode::Foreground);
    assert!(shell.readiness.is_ready(generation));
}

#[test]
fn a_queued_open_builds_once_the_last_window_is_gone() {
    let mut shell = MainWindowShell::default();
    shell.lifecycle.transition(WindowLifecycleMode::Foreground);
    shell.begin_send_to_tray(1, 0);
    assert_eq!(shell.open_main_window(true), MainWindowOpenAction::QueueOpen);
    assert_eq!(shell.complete_main_window_destroyed(1), DestroyedOutcome::Deferred);
    let outcome = shell.complete_main_window_destroyed(0);
    assert_ne!(outcome, DestroyedOutcome::Deferred);
    assert_eq!(shell.lifecycle.snapshot().mode, WindowLifecycleMode::Destroyed);
    assert!(!shell.pending_open);
}

#[test]
fn disabled_stable_channel_cannot_check_updates_yet() {
    assert!(!UpdateChannel::Stable.enabled());
    assert!(UpdateChannel::Nightly.enabled());
}

#[test]
fn a_disabled_channel_is_named_in_the_error() {
    assert_eq!(
        ensure_channel_enabled(UpdateChannel::Stable, "Stable"),
        Err("Stable updates are not available yet".to_string())
    );
    assert_eq!(ensure_channel_enabled(UpdateChannel::Nightly, "Nightly"), Ok(()));
}

#[test]
fn the_repair_notice_is_claimed_once_and_only_for_a_reason() {
    let mut shell = MainWindowShell::default();
    assert!(!shell.claim_webview_repair_notice(WebviewRepairNoticeReason::OtherGetterError));
    assert!(shell.claim_webview_repair_notice(WebviewRepairNoticeReason::FrontendReadyTimeout));
    assert!(!shell
        .claim_webview_repair_notice(WebviewRepairNoticeReason::GetterFailedToReceiveMessage));
}

#[test]
fn what_a_mode_means_for_the_native_window_and_the_clipboard() {
    let expected = [
        (WindowLifecycleMode::Foreground, true, false),
        (WindowLifecycleMode::Taskbar, true, false),
        (WindowLifecycleMode::Tray, false, false),
        (WindowLifecycleMode::Destroying, false, true),
        (WindowLifecycleMode::Destroyed, false, true),
    ];
    for (mode, reconciles, cancels) in expected {
        assert_eq!(reconciles_native_window(mode), reconciles);
        assert_eq!(cancels_clipboard_exports(mode), cancels);
    }
}

#[test]
fn startup_failures_name_the_part_that_failed() {
    assert_eq!(recorder_startup_error("no encoder"), "recorder startup failed: no encoder");
    assert_eq!(
        global_hotkey_error("taken"),
        "global save hotkey unavailable; continuing without it: taken"
    );
    assert_eq!(hook_error("denied"), "low-level hotkey unavailable: denied");
}
