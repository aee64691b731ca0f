use clipline_app::settings::{
    autostart_should_mutate_for_build, saved_autostart_preference_for_build,
};
use clipline_app::library::StorageSettings;
use clipline_app::media_folder::NativeMediaFolderAuthorization;
use clipline_app::shortcuts::{
    active_shortcut_matches, global_hotkeys, sync_global_hotkeys, HotkeyAnswer, HotkeyCall,
};
use clipline_app::transaction::{
    optional_hotkey, rollback_error, settings_transaction_error, RollbackStep, SettingsStep,
    SettingsTransaction,
};
use clipline_app::window::FirstRunState;
use std::cell::RefCell;

fn list(values: &[&str]) -> Vec<String> {
    values.iter().map(|value| value.to_string()).collect()
}

const ALT_F10: &str = "alt+F10";
const CTRL_F8: &str = "control+F8";

#[test]
fn settings_transaction_error_preserves_primary_and_rollback_failures() {
    assert_eq!(
        settings_transaction_error("save failed".into(), Vec::new()),
        "save failed"
    );
    let error = settings_transaction_error(
        "save failed".into(),
        vec![
            "restore autostart failed".into(),
            "restore hotkey failed".into(),
        ],
    );
    assert!(error.starts_with("save failed"), "{error}");
    assert!(error.contains("restore autostart failed"), "{error}");
    assert!(error.contains("restore hotkey failed"), "{error}");
    assert_eq!(
        error,
        "save failed; settings rollback incomplete: restore autostart failed, restore hotkey failed"
    );
}

/// Answers a change of the registrations until nothing is due.
fn sync(
    old: &[String],
    new: &[String],
    is_registered: impl Fn(&str) -> bool,
    register: impl Fn(&str) -> Result<(), String>,
    unregister: impl Fn(&str) -> Result<(), String>,
) -> Result<Vec<String>, String> {
    let mut change = sync_global_hotkeys(old.to_vec(), new.to_vec());
    while let Some(call) = change.due() {
        change.answered(match call {
            HotkeyCall::IsRegistered(shortcut) => {
                HotkeyAnswer::Registered(is_registered(&shortcut))
            }
            HotkeyCall::Register(shortcut) => HotkeyAnswer::Done(register(&shortcut)),
            HotkeyCall::Unregister(shortcut) => HotkeyAnswer::Done(unregister(&shortcut)),
        });
    }
    change.finish()
}

#[test]
fn sync_global_hotkeys_skips_unregister_when_old_shortcut_is_stale() {
    let registered = RefCell::new(Vec::new());
    let unregistered = RefCell::new(Vec::new());

    let result = sync(
        &list(&[ALT_F10]),
        &list(&[CTRL_F8]),
        |_: &str| false,
        |shortcut: &str| {
            registered.borrow_mut().push(shortcut.to_string());
            Ok(())
        },
        |shortcut: &str| {
            unregistered.borrow_mut().push(shortcut.to_string());
            Err("old shortcut was never registered".to_string())
        },
    );

    assert_eq!(result, Ok(Vec::new()));
    assert_eq!(registered.into_inner(), vec![CTRL_F8]);
    assert!(unregistered.into_inner().is_empty());
}

#[test]
fn missing_unchanged_global_hotkey_is_retried_without_blocking_save() {
    let registered = RefCell::new(Vec::new());

    let result = sync(
        &list(&[ALT_F10]),
        &list(&[ALT_F10]),
        |_: &str| false,
        |shortcut: &str| {
            registered.borrow_mut().push(shortcut.to_string());
            Err("still owned by another app".to_string())
        },
        |_: &str| Ok(()),
    );

    let warnings = result.expect("retry failure must not block save");
    assert_eq!(warnings.len(), 1);
    assert!(warnings[0].contains("still owned by another app"));
    assert_eq!(
        warnings[0],
        "global save hotkey still unavailable: still owned by another app"
    );
    assert_eq!(registered.into_inner(), vec![ALT_F10]);
}

#[test]
fn sync_global_hotkeys_adds_secondary_and_keeps_registered_primary() {
    let registered = RefCell::new(Vec::new());
    let unregistered = RefCell::new(Vec::new());

    let result = sync(
        &list(&[ALT_F10]),
        &list(&[ALT_F10, CTRL_F8]),
        |shortcut: &str| shortcut == ALT_F10,
        |shortcut: &str| {
            registered.borrow_mut().push(shortcut.to_string());
            Ok(())
        },
        |shortcut: &str| {
            unregistered.borrow_mut().push(shortcut.to_string());
            Ok(())
        },
    );

    assert_eq!(result, Ok(Vec::new()));
    assert_eq!(registered.into_inner(), vec![CTRL_F8]);
    assert!(unregistered.into_inner().is_empty());
}

#[test]
fn sync_global_hotkeys_rolls_back_new_registrations_on_failure() {
    let unregistered = RefCell::new(Vec::new());

    let result = sync(
        &list(&[ALT_F10]),
        &list(&[CTRL_F8]),
        |shortcut: &str| shortcut == ALT_F10,
        |_: &str| Ok(()),
        |shortcut: &str| {
            unregistered.borrow_mut().push(shortcut.to_string());
            if shortcut == ALT_F10 {
                Err("cannot unregister".to_string())
            } else {
                Ok(())
            }
        },
    );

    assert_eq!(result, Err("replace hotkey: cannot unregister".to_string()));
    assert_eq!(unregistered.into_inner(), vec![ALT_F10, CTRL_F8]);
}

#[test]
fn sync_global_hotkeys_restores_earlier_removals_when_a_later_one_fails() {
    let registered = RefCell::new(Vec::new());
    let unregistered = RefCell::new(Vec::new());

    let result = sync(
        &list(&[ALT_F10, CTRL_F8]),
        &Vec::new(),
        |_: &str| true,
        |shortcut: &str| {
            registered.borrow_mut().push(shortcut.to_string());
            Ok(())
        },
        |shortcut: &str| {
            unregistered.borrow_mut().push(shortcut.to_string());
            if shortcut == CTRL_F8 {
                Err("second removal failed".to_string())
            } else {
                Ok(())
            }
        },
    );

    assert!(result.is_err());
    assert_eq!(result, Err("replace hotkey: second removal failed".to_string()));
    assert_eq!(unregistered.into_inner(), vec![ALT_F10, CTRL_F8]);
    assert_eq!(registered.into_inner(), vec![ALT_F10]);
}

#[test]
fn sync_global_hotkeys_surfaces_rollback_failures() {
    let error = sync(
        &list(&[ALT_F10, CTRL_F8]),
        &Vec::new(),
        |_: &str| true,
        |_: &str| Err("restore failed".to_string()),
        |shortcut: &str| {
            if shortcut == CTRL_F8 {
                Err("second removal failed".to_string())
            } else {
                Ok(())
            }
        },
    )
    .unwrap_err();

    assert!(error.contains("rollback incomplete"), "{error}");
    assert!(error.contains("restore failed"), "{error}");
    assert_eq!(
        error,
        "replace hotkey: second removal failed; rollback incomplete: \
         re-register alt+F10: restore failed"
    );
}

#[test]
fn sync_global_hotkeys_removes_dropped_secondary() {
    let registered = RefCell::new(Vec::new());
    let unregistered = RefCell::new(Vec::new());

    let result = sync(
        &list(&[ALT_F10, CTRL_F8]),
        &list(&[ALT_F10]),
        |_: &str| true,
        |shortcut: &str| {
            registered.borrow_mut().push(shortcut.to_string());
            Ok(())
        },
        |shortcut: &str| {
            unregistered.borrow_mut().push(shortcut.to_string());
            Ok(())
        },
    );

    assert_eq!(result, Ok(Vec::new()));
    assert!(registered.into_inner().is_empty());
    assert_eq!(unregistered.into_inner(), vec![CTRL_F8]);
}

#[test]
fn a_failed_addition_withdraws_the_earlier_ones() {
    let unregistered = RefCell::new(Vec::new());
    let result = sync(
        &Vec::new(),
        &list(&[ALT_F10, CTRL_F8]),
        |_: &str| false,
        |shortcut: &str| {
            if shortcut == CTRL_F8 {
                Err("taken".to_string())
            } else {
                Ok(())
            }
        },
        |shortcut: &str| {
            unregistered.borrow_mut().push(shortcut.to_string());
            Err("stuck".to_string())
        },
    );
    assert_eq!(result, Err("register hotkey: taken".to_string()));
    assert_eq!(unregistered.into_inner(), vec![ALT_F10]);
}

#[test]
fn a_failed_change_leaves_the_registrations_as_they_were() {
    let registered = RefCell::new(list(&["a", "b", "x"]));
    let result = sync(
        &list(&["a", "b"]),
        &list(&["c", "d"]),
        |shortcut: &str| registered.borrow().iter().any(|known| known == shortcut),
        |shortcut: &str| {
            registered.borrow_mut().push(shortcut.to_string());
            Ok(())
        },
        |shortcut: &str| {
            if shortcut == "b" {
                return Err("in use".to_string());
            }
            registered.borrow_mut().retain(|known| known != shortcut);
            Ok(())
        },
    );
    assert_eq!(result, Err("replace hotkey: in use".to_string()));
    let mut left = registered.into_inner();
    left.sort();
    assert_eq!(left, list(&["a", "b", "x"]));
}

#[test]
fn only_parsed_system_shortcuts_are_registered() {
    let parsed = vec![Ok(Some(ALT_F10.to_string())), Ok(None), Ok(Some(CTRL_F8.to_string()))];
    assert_eq!(global_hotkeys(&parsed), Ok(list(&[ALT_F10, CTRL_F8])));
    assert!(active_shortcut_matches(&parsed, CTRL_F8));
    assert!(!active_shortcut_matches(&parsed, "F1"));

    let broken = vec![Ok(None), Err("bad key".to_string()), Err("worse".to_string())];
    assert_eq!(global_hotkeys(&broken), Err("bad key".to_string()));
    assert!(!active_shortcut_matches(&broken, ALT_F10));
}

#[test]
fn debug_build_autostart_policy_skips_registry_mutation() {
    assert!(!autostart_should_mutate_for_build(true));
    assert!(autostart_should_mutate_for_build(false));
}

#[test]
fn debug_build_preserves_saved_autostart_preference() {
    assert!(saved_autostart_preference_for_build(false, true, true));
    assert!(!saved_autostart_preference_for_build(true, false, true));
    assert!(saved_autostart_preference_for_build(true, false, false));
    assert!(!saved_autostart_preference_for_build(false, true, false));
}

#[test]
fn release_build_autostart_policy_honors_user_choice() {
    assert!(saved_autostart_preference_for_build(true, false, false));
    assert!(!saved_autostart_preference_for_build(false, true, false));
}

#[test]
fn a_save_goes_through_its_steps_in_order() {
    let mut save = SettingsTransaction::begin(true, false);
    let mut steps = Vec::new();
    while save.step != SettingsStep::Complete {
        steps.push(save.step);
        save.succeeded(save.step != SettingsStep::ReadCurrent);
    }
    assert_eq!(
        steps,
        vec![
            SettingsStep::NormalizeHotkeys,
            SettingsStep::NormalizeGames,
            SettingsStep::Validate,
            SettingsStep::ResolveMediaDir,
            SettingsStep::ReadCurrent,
            SettingsStep::ResolveCurrentMediaDir,
            SettingsStep::ValidateFolderChange,
            SettingsStep::PrepareMediaDir,
            SettingsStep::ParseShortcuts,
            SettingsStep::ReadQuota,
            SettingsStep::SyncGlobalHotkeys,
            SettingsStep::SetHookHotkeys,
            SettingsStep::SetTrayLabel,
            SettingsStep::SetAutostart,
            SettingsStep::PrepareRestart,
            SettingsStep::SaveDocument,
            SettingsStep::FinishRestart,
            SettingsStep::TellWarnings,
            SettingsStep::SetQuota,
            SettingsStep::SetMediaDir,
            SettingsStep::RecheckQuota,
            SettingsStep::CommitMediaDir,
            SettingsStep::CompleteFirstRun,
        ]
    );

    let mut debug = SettingsTransaction::begin(true, true);
    for _ in 0..13 {
        debug.succeeded(false);
    }
    assert!(!debug.open_on_startup);
    assert_eq!(debug.step, SettingsStep::PrepareRestart);
}

#[test]
fn a_failed_save_takes_back_what_took_place_last_first() {
    let mut save = SettingsTransaction::begin(true, false);
    assert!(save.failed("unknown key".into()).rollback.is_empty());
    while save.step != SettingsStep::SyncGlobalHotkeys {
        save.succeeded(false);
    }
    assert!(save.failed("taken".into()).rollback.is_empty());
    for _ in 0..3 {
        save.succeeded(true);
    }
    let failure = save.failed("denied".into());
    assert_eq!(failure.primary, "update Windows startup registration: denied");
    assert_eq!(
        failure.rollback,
        vec![
            RollbackStep::RestoreTrayLabel,
            RollbackStep::RestoreHookHotkeys,
            RollbackStep::RestoreGlobalHotkeys,
        ]
    );
    for _ in 0..3 {
        save.succeeded(true);
    }
    assert_eq!(save.step, SettingsStep::FinishRestart);
    let failure = save.failed("lock".into());
    assert_eq!(failure.primary, "lock");
    assert_eq!(
        failure.rollback,
        vec![
            RollbackStep::RestoreDocument,
            RollbackStep::RestoreAutostart,
            RollbackStep::RestoreTrayLabel,
            RollbackStep::RestoreHookHotkeys,
            RollbackStep::RestoreGlobalHotkeys,
        ]
    );
}

#[test]
fn what_could_not_be_taken_back_is_named() {
    assert_eq!(
        rollback_error(RollbackStep::RestoreDocument, "e"),
        "restore settings.json: e"
    );
    assert_eq!(
        rollback_error(RollbackStep::RestoreAutostart, "e"),
        "restore Windows startup registration: e"
    );
    assert_eq!(
        rollback_error(RollbackStep::RestoreTrayLabel, "e"),
        "restore tray hotkey label: e"
    );
    assert_eq!(
        rollback_error(RollbackStep::RestoreHookHotkeys, "e"),
        "restore low-level hotkeys: e"
    );
    assert_eq!(
        rollback_error(RollbackStep::RestoreGlobalHotkeys, "e"),
        "restore global save hotkeys: e"
    );
}

#[test]
fn a_blank_optional_hotkey_counts_as_none() {
    let upper = |raw: &str| Ok(raw.to_uppercase());
    assert_eq!(optional_hotkey(&Some("f9".into()), &upper), Ok(Some("F9".into())));
    assert_eq!(optional_hotkey(&Some("  ".into()), &upper), Ok(None));
    assert_eq!(optional_hotkey(&None, &upper), Ok(None));
    assert_eq!(
        optional_hotkey(&Some("?".into()), &|_: &str| Err("unknown key".to_string())),
        Err("unknown key".to_string())
    );
}

#[test]
fn only_a_save_that_succeeds_sets_the_quota_and_the_folder() {
    let nested = |a: &str, b: &str| a == b;
    let mut storage = StorageSettings::new(Some(1), "old".into());
    let mut authorization = NativeMediaFolderAuthorization::default();
    authorization.authorize("new".into());
    let mut first_run = FirstRunState::new(true);
    let mut save = SettingsTransaction::begin(false, false);
    while save.step != SettingsStep::SetQuota {
        save.apply_lasting(
            &mut storage,
            &mut authorization,
            &mut first_run,
            Some(2),
            "new",
            &nested,
        );
        assert_eq!(storage.quota_bytes(), Some(1));
        assert_eq!(storage.media_dir(), "old");
        assert_eq!(authorization.validate_change("old", "new", &nested), Ok(()));
        assert!(first_run.is_pending());
        save.succeeded(false);
    }
    while save.step != SettingsStep::Complete {
        save.apply_lasting(
            &mut storage,
            &mut authorization,
            &mut first_run,
            Some(2),
            "new",
            &nested,
        );
        save.succeeded(false);
    }
    assert_eq!(storage.quota_bytes(), Some(2));
    assert_eq!(storage.media_dir(), "new");
    assert!(authorization.validate_change("old", "new", &nested).is_err());
    assert!(!first_run.is_pending());
}
