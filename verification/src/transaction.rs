//! Saving the settings as a transaction: the side effects in their order, and what is taken
//! back when one of them fails.

use crate::library::StorageSettings;
use crate::media_folder::{committed, NativeMediaFolderAuthorization};
use crate::settings::AppSettings;
use crate::text::{concat2, concat3, join, joined, trim, trimmed, views};
use crate::window::FirstRunState;
use vstd::prelude::*;

verus! {

/// Whether a hotkey was brought into this form, or refused with this error.
pub open spec fn hotkey_came<N: Fn(&str) -> Result<String, String>>(
    normalize: N,
    raw: Seq<char>,
    answer: Result<String, String>,
) -> bool {
    exists|text: &str| #[trigger] call_ensures(normalize, (text,), answer) && text@ == raw
}

/// The same of an optional hotkey; one that is blank counts as none.
pub open spec fn optional_hotkey_came<N: Fn(&str) -> Result<String, String>>(
    normalize: N,
    raw: Option<String>,
    res: Result<Option<String>, String>,
) -> bool {
    if raw is Some && trimmed(raw->0@).len() > 0 {
        match res {
            Ok(hotkey) => hotkey is Some && hotkey_came(normalize, raw->0@, Ok(hotkey->0)),
            Err(error) => hotkey_came(normalize, raw->0@, Err(error)),
        }
    } else {
        res == Ok::<Option<String>, String>(None)
    }
}

/// An optional hotkey as it is saved: one that is blank counts as none. `normalize` brings
/// it into its canonical form.
pub fn optional_hotkey<N>(raw: &Option<String>, normalize: &N) -> (res: Result<
    Option<String>,
    String,
>) where N: Fn(&str) -> Result<String, String>
    requires
        forall|text: &str| #[trigger] call_requires(*normalize, (text,)),
    ensures
        optional_hotkey_came(*normalize, *raw, res),
{
    match raw {
        Some(raw) => {
            let shown = trim(raw.as_str());
            if shown.as_str().unicode_len() > 0 {
                let text = raw.as_str();
                let answer = normalize(text);
                assert(call_ensures(*normalize, (text,), answer));
                assert(hotkey_came(*normalize, raw@, answer));
                match answer {
                    Ok(hotkey) => Ok(Some(hotkey)),
                    Err(error) => Err(error),
                }
            } else {
                Ok(None)
            }
        },
        None => Ok(None),
    }
}

/// Whether a hotkey was accepted.
pub open spec fn hotkey_accepted<N: Fn(&str) -> Result<String, String>>(
    normalize: N,
    raw: Seq<char>,
) -> bool {
    exists|hotkey: String| #[trigger] hotkey_came(normalize, raw, Ok(hotkey))
}

/// The same of an optional hotkey.
pub open spec fn optional_hotkey_accepted<N: Fn(&str) -> Result<String, String>>(
    normalize: N,
    raw: Option<String>,
) -> bool {
    exists|hotkey: Option<String>| #[trigger] optional_hotkey_came(normalize, raw, Ok(hotkey))
}

/// Whether an error is that of the first of the hotkeys of settings that is refused: each one
/// before it was accepted.
pub open spec fn is_first_refusal<N: Fn(&str) -> Result<String, String>>(
    normalize: N,
    settings: AppSettings,
    error: String,
) -> bool {
    ||| hotkey_came(normalize, settings.hotkey@, Err(error))
    ||| {
        &&& hotkey_accepted(normalize, settings.hotkey@)
        &&& optional_hotkey_came(normalize, settings.hotkey_secondary, Err(error))
    }
    ||| {
        &&& hotkey_accepted(normalize, settings.hotkey@)
        &&& optional_hotkey_accepted(normalize, settings.hotkey_secondary)
        &&& optional_hotkey_came(normalize, settings.recording_hotkey, Err(error))
    }
    ||| {
        &&& hotkey_accepted(normalize, settings.hotkey@)
        &&& optional_hotkey_accepted(normalize, settings.hotkey_secondary)
        &&& optional_hotkey_accepted(normalize, settings.recording_hotkey)
        &&& optional_hotkey_came(normalize, settings.recording_hotkey_secondary, Err(error))
    }
}

/// Brings the hotkeys of settings into the form in which they are saved, in order, up to the
/// first that is refused.
pub fn normalize_hotkeys<N>(settings: AppSettings, normalize: &N) -> (res: Result<
    AppSettings,
    String,
>) where N: Fn(&str) -> Result<String, String>
    requires
        forall|text: &str| #[trigger] call_requires(*normalize, (text,)),
    ensures
        match res {
            Ok(saved) => {
                &&& hotkey_came(*normalize, settings.hotkey@, Ok(saved.hotkey))
                &&& optional_hotkey_came(
                    *normalize,
                    settings.hotkey_secondary,
                    Ok(saved.hotkey_secondary),
                )
                &&& optional_hotkey_came(
                    *normalize,
                    settings.recording_hotkey,
                    Ok(saved.recording_hotkey),
                )
                &&& optional_hotkey_came(
                    *normalize,
                    settings.recording_hotkey_secondary,
                    Ok(saved.recording_hotkey_secondary),
                )
                &&& saved == (AppSettings {
                    hotkey: saved.hotkey,
                    hotkey_secondary: saved.hotkey_secondary,
                    recording_hotkey: saved.recording_hotkey,
                    recording_hotkey_secondary: saved.recording_hotkey_secondary,
                    ..settings
                })
            },
            Err(error) => is_first_refusal(*normalize, settings, error),
        },
{
    let text = settings.hotkey.as_str();
    let answer = normalize(text);
    assert(call_ensures(*normalize, (text,), answer));
    assert(hotkey_came(*normalize, settings.hotkey@, answer));
    let hotkey = match answer {
        Ok(hotkey) => hotkey,
        Err(error) => return Err(error),
    };
    assert(hotkey_accepted(*normalize, settings.hotkey@));
    let hotkey_secondary = match optional_hotkey(&settings.hotkey_secondary, normalize) {
        Ok(hotkey) => hotkey,
        Err(error) => return Err(error),
    };
    assert(optional_hotkey_accepted(*normalize, settings.hotkey_secondary));
    let recording_hotkey = match optional_hotkey(&settings.recording_hotkey, normalize) {
        Ok(hotkey) => hotkey,
        Err(error) => return Err(error),
    };
    assert(optional_hotkey_accepted(*normalize, settings.recording_hotkey));
    let recording_hotkey_secondary = match optional_hotkey(
        &settings.recording_hotkey_secondary,
        normalize,
    ) {
        Ok(hotkey) => hotkey,
        Err(error) => return Err(error),
    };
    let mut saved = settings;
    saved.hotkey = hotkey;
    saved.hotkey_secondary = hotkey_secondary;
    saved.recording_hotkey = recording_hotkey;
    saved.recording_hotkey_secondary = recording_hotkey_secondary;
    Ok(saved)
}

/// One step of saving the settings, in order: the checks, which take nothing back, then the side
/// effects that can be taken back, and at last what is done only once the save has succeeded.
#[derive(Debug, Clone, Copy, PartialEq, Eq, Structural)]
pub enum SettingsStep {
    /// Bring the hotkeys into their canonical form.
    NormalizeHotkeys,
    /// Bring the settings of the games into their normal form.
    NormalizeGames,
    Validate,
    /// Find the media folder of the new settings.
    ResolveMediaDir,
    /// Lock the settings, read the current ones, and keep the fields that the backend owns.
    ReadCurrent,
    /// Find the media folder of the current settings.
    ResolveCurrentMediaDir,
    /// A new media folder must have been chosen with the native picker.
    ValidateFolderChange,
    PrepareMediaDir,
    /// Parse the shortcuts of the current and of the new settings.
    ParseShortcuts,
    /// Tell the quota in bytes.
    ReadQuota,
    SyncGlobalHotkeys,
    SetHookHotkeys,
    SetTrayLabel,
    SetAutostart,
    PrepareRestart,
    SaveDocument,
    FinishRestart,
    /// Unlock the settings, and tell the warnings about the shortcuts.
    TellWarnings,
    SetQuota,
    SetMediaDir,
    /// Check the storage against the quota; a failure is told and goes no further.
    RecheckQuota,
    /// Use up the authorization of the media folder.
    CommitMediaDir,
    CompleteFirstRun,
    Complete,
}

/// The place of a step.
pub open spec fn step_rank(step: SettingsStep) -> int {
    match step {
        SettingsStep::NormalizeHotkeys => 0,
        SettingsStep::NormalizeGames => 1,
        SettingsStep::Validate => 2,
        SettingsStep::ResolveMediaDir => 3,
        SettingsStep::ReadCurrent => 4,
        SettingsStep::ResolveCurrentMediaDir => 5,
        SettingsStep::ValidateFolderChange => 6,
        SettingsStep::PrepareMediaDir => 7,
        SettingsStep::ParseShortcuts => 8,
        SettingsStep::ReadQuota => 9,
        SettingsStep::SyncGlobalHotkeys => 10,
        SettingsStep::SetHookHotkeys => 11,
        SettingsStep::SetTrayLabel => 12,
        SettingsStep::SetAutostart => 13,
        SettingsStep::PrepareRestart => 14,
        SettingsStep::SaveDocument => 15,
        SettingsStep::FinishRestart => 16,
        SettingsStep::TellWarnings => 17,
        SettingsStep::SetQuota => 18,
        SettingsStep::SetMediaDir => 19,
        SettingsStep::RecheckQuota => 20,
        SettingsStep::CommitMediaDir => 21,
        SettingsStep::CompleteFirstRun => 22,
        SettingsStep::Complete => 23,
    }
}

/// Whether a save can fail at a step.
pub open spec fn can_fail(step: SettingsStep) -> bool {
    step_rank(step) <= step_rank(SettingsStep::FinishRestart) && step
        != SettingsStep::NormalizeGames
}

/// Whether a step changes what a failed save leaves alone: the quota, the media folder, the
/// authorization of a folder, and whether the first run is pending.
pub open spec fn is_lasting(step: SettingsStep) -> bool {
    match step {
        SettingsStep::SetQuota => true,
        SettingsStep::SetMediaDir => true,
        SettingsStep::RecheckQuota => true,
        SettingsStep::CommitMediaDir => true,
        SettingsStep::CompleteFirstRun => true,
        _ => false,
    }
}

/// One thing that is taken back.
#[derive(Debug, Clone, Copy, PartialEq, Eq, Structural)]
pub enum RollbackStep {
    RestoreDocument,
    RestoreAutostart,
    RestoreTrayLabel,
    RestoreHookHotkeys,
    RestoreGlobalHotkeys,
}

/// The side effects that took place.
#[derive(Debug, Clone, Copy, PartialEq, Eq, Structural)]
pub struct AppliedSettingsSideEffects {
    pub global_hotkeys: bool,
    pub hook_hotkeys: bool,
    pub tray_label: bool,
    pub autostart: bool,
}

/// A save of the settings under way: the step that is due, what took place so far, whether
/// the registration for the start of the system is to be changed, the preference that is
/// saved, and whether this is a debug build.
#[derive(Debug, Clone, Copy, PartialEq, Eq, Structural)]
pub struct SettingsTransaction {
    pub step: SettingsStep,
    pub applied: AppliedSettingsSideEffects,
    pub changes_autostart: bool,
    pub open_on_startup: bool,
    pub debug_build: bool,
}

/// What took place before a step, in order, as the steps that take it back.
pub open spec fn applied_before(
    step: SettingsStep,
    changes_autostart: bool,
) -> Seq<RollbackStep> {
    let hotkeys = seq![RollbackStep::RestoreGlobalHotkeys];
    let hooks = hotkeys.push(RollbackStep::RestoreHookHotkeys);
    let label = hooks.push(RollbackStep::RestoreTrayLabel);
    let autostart = if changes_autostart {
        label.push(RollbackStep::RestoreAutostart)
    } else {
        label
    };
    if step_rank(step) <= step_rank(SettingsStep::SyncGlobalHotkeys) {
        Seq::empty()
    } else {
        match step {
            SettingsStep::SetHookHotkeys => hotkeys,
            SettingsStep::SetTrayLabel => hooks,
            SettingsStep::SetAutostart => label,
            SettingsStep::PrepareRestart => autostart,
            SettingsStep::SaveDocument => autostart,
            _ => autostart.push(RollbackStep::RestoreDocument),
        }
    }
}

impl SettingsTransaction {
    /// The flags agree with the step.
    pub open spec fn wf(self) -> bool {
        let done = applied_before(self.step, self.changes_autostart);
        &&& self.applied.global_hotkeys == done.contains(RollbackStep::RestoreGlobalHotkeys)
        &&& self.applied.hook_hotkeys == done.contains(RollbackStep::RestoreHookHotkeys)
        &&& self.applied.tray_label == done.contains(RollbackStep::RestoreTrayLabel)
        &&& self.applied.autostart == done.contains(RollbackStep::RestoreAutostart)
        &&& self.step == SettingsStep::SetAutostart ==> self.changes_autostart
        &&& step_rank(self.step) <= step_rank(SettingsStep::ReadCurrent)
            ==> !self.changes_autostart
    }
}

/// The step after one that succeeded.
pub open spec fn step_after(step: SettingsStep, changes_autostart: bool) -> SettingsStep {
    match step {
        SettingsStep::NormalizeHotkeys => SettingsStep::NormalizeGames,
        SettingsStep::NormalizeGames => SettingsStep::Validate,
        SettingsStep::Validate => SettingsStep::ResolveMediaDir,
        SettingsStep::ResolveMediaDir => SettingsStep::ReadCurrent,
        SettingsStep::ReadCurrent => SettingsStep::ResolveCurrentMediaDir,
        SettingsStep::ResolveCurrentMediaDir => SettingsStep::ValidateFolderChange,
        SettingsStep::ValidateFolderChange => SettingsStep::PrepareMediaDir,
        SettingsStep::PrepareMediaDir => SettingsStep::ParseShortcuts,
        SettingsStep::ParseShortcuts => SettingsStep::ReadQuota,
        SettingsStep::ReadQuota => SettingsStep::SyncGlobalHotkeys,
        SettingsStep::SyncGlobalHotkeys => SettingsStep::SetHookHotkeys,
        SettingsStep::SetHookHotkeys => SettingsStep::SetTrayLabel,
        SettingsStep::SetTrayLabel => if changes_autostart {
            SettingsStep::SetAutostart
        } else {
            SettingsStep::PrepareRestart
        },
        SettingsStep::SetAutostart => SettingsStep::PrepareRestart,
        SettingsStep::PrepareRestart => SettingsStep::SaveDocument,
        SettingsStep::SaveDocument => SettingsStep::FinishRestart,
        SettingsStep::FinishRestart => SettingsStep::TellWarnings,
        SettingsStep::TellWarnings => SettingsStep::SetQuota,
        SettingsStep::SetQuota => SettingsStep::SetMediaDir,
        SettingsStep::SetMediaDir => SettingsStep::RecheckQuota,
        SettingsStep::RecheckQuota => SettingsStep::CommitMediaDir,
        SettingsStep::CommitMediaDir => SettingsStep::CompleteFirstRun,
        SettingsStep::CompleteFirstRun => SettingsStep::Complete,
        SettingsStep::Complete => SettingsStep::Complete,
    }
}

/// A step that failed: its error, and what is taken back, in order.
#[derive(Debug, PartialEq, Eq)]
pub struct SettingsFailure {
    pub primary: String,
    pub rollback: Vec<RollbackStep>,
}

impl SettingsTransaction {
    /// A save that begins, with the preference that was asked for.
    pub fn begin(requested_open_on_startup: bool, debug_build: bool) -> (t: Self)
        ensures
            t.wf(),
            t.step == SettingsStep::NormalizeHotkeys,
            t.open_on_startup == requested_open_on_startup,
            t.debug_build == debug_build,
            !t.changes_autostart,
    {
        SettingsTransaction {
            step: SettingsStep::NormalizeHotkeys,
            applied: AppliedSettingsSideEffects {
                global_hotkeys: false,
                hook_hotkeys: false,
                tray_label: false,
                autostart: false,
            },
            changes_autostart: false,
            open_on_startup: requested_open_on_startup,
            debug_build,
        }
    }

    /// The step that was due succeeded. After the current settings were read, `registered` is
    /// their preference: the registration for the start of the system changes where the
    /// preference did and the build may touch it; a debug build keeps the preference. After
    /// the registration was changed, `registered` is what it says, and that is what is saved.
    pub fn succeeded(&mut self, registered: bool)
        requires
            old(self).wf(),
        ensures
            final(self).wf(),
            final(self).step == step_after(old(self).step, old(self).changes_autostart),
            final(self).debug_build == old(self).debug_build,
            final(self).changes_autostart == if old(self).step == SettingsStep::ReadCurrent {
                !old(self).debug_build && old(self).open_on_startup != registered
            } else {
                old(self).changes_autostart
            },
            final(self).open_on_startup == if old(self).step == SettingsStep::SetAutostart || (
            old(self).step == SettingsStep::ReadCurrent && old(self).debug_build) {
                registered
            } else {
                old(self).open_on_startup
            },
    {
        let changes = self.changes_autostart;
        proof {
            lemma_applied(self.step, changes);
            lemma_applied(step_after(self.step, changes), changes);
        }
        match self.step {
            SettingsStep::NormalizeHotkeys => {
                self.step = SettingsStep::NormalizeGames;
            },
            SettingsStep::NormalizeGames => {
                self.step = SettingsStep::Validate;
            },
            SettingsStep::Validate => {
                self.step = SettingsStep::ResolveMediaDir;
            },
            SettingsStep::ResolveMediaDir => {
                self.step = SettingsStep::ReadCurrent;
            },
            SettingsStep::ReadCurrent => {
                let saved = crate::settings::saved_autostart_preference_for_build(
                    self.open_on_startup,
                    registered,
                    self.debug_build,
                );
                self.changes_autostart = saved != registered
                    && crate::settings::autostart_should_mutate_for_build(self.debug_build);
                self.open_on_startup = saved;
                self.step = SettingsStep::ResolveCurrentMediaDir;
                proof {
                    lemma_applied(self.step, self.changes_autostart);
                }
            },
            SettingsStep::ResolveCurrentMediaDir => {
                self.step = SettingsStep::ValidateFolderChange;
            },
            SettingsStep::ValidateFolderChange => {
                self.step = SettingsStep::PrepareMediaDir;
            },
            SettingsStep::PrepareMediaDir => {
                self.step = SettingsStep::ParseShortcuts;
            },
            SettingsStep::ParseShortcuts => {
                self.step = SettingsStep::ReadQuota;
            },
            SettingsStep::ReadQuota => {
                self.step = SettingsStep::SyncGlobalHotkeys;
            },
            SettingsStep::SyncGlobalHotkeys => {
                self.applied.global_hotkeys = true;
                self.step = SettingsStep::SetHookHotkeys;
            },
            SettingsStep::SetHookHotkeys => {
                self.applied.hook_hotkeys = true;
                self.step = SettingsStep::SetTrayLabel;
            },
            SettingsStep::SetTrayLabel => {
                self.applied.tray_label = true;
                self.step = if changes {
                    SettingsStep::SetAutostart
                } else {
                    SettingsStep::PrepareRestart
                };
            },
            SettingsStep::SetAutostart => {
                self.applied.autostart = true;
                self.open_on_startup = registered;
                self.step = SettingsStep::PrepareRestart;
            },
            SettingsStep::PrepareRestart => {
                self.step = SettingsStep::SaveDocument;
            },
            SettingsStep::SaveDocument => {
                self.step = SettingsStep::FinishRestart;
            },
            SettingsStep::FinishRestart => {
                self.step = SettingsStep::TellWarnings;
            },
            SettingsStep::TellWarnings => {
                self.step = SettingsStep::SetQuota;
            },
            SettingsStep::SetQuota => {
                self.step = SettingsStep::SetMediaDir;
            },
            SettingsStep::SetMediaDir => {
                self.step = SettingsStep::RecheckQuota;
            },
            SettingsStep::RecheckQuota => {
                self.step = SettingsStep::CommitMediaDir;
            },
            SettingsStep::CommitMediaDir => {
                self.step = SettingsStep::CompleteFirstRun;
            },
            SettingsStep::CompleteFirstRun => {
                self.step = SettingsStep::Complete;
            },
            SettingsStep::Complete => {},
        }
    }

    /// The step that was due failed: everything that took place is taken back, last first.
    pub fn failed(&self, error: String) -> (failure: SettingsFailure)
        requires
            self.wf(),
            can_fail(self.step),
        ensures
            failure.rollback@ == applied_before(self.step, self.changes_autostart).reverse(),
            failure.primary@ == if self.step == SettingsStep::SetAutostart {
                "update Windows startup registration: "@ + error@
            } else {
                error@
            },
    {
        proof {
            lemma_applied(self.step, self.changes_autostart);
        }
        let mut rollback: Vec<RollbackStep> = Vec::new();
        let saved = match self.step {
            SettingsStep::FinishRestart => true,
            _ => false,
        };
        if saved {
            rollback.push(RollbackStep::RestoreDocument);
        }
        let side_effects = rollback_settings_side_effects(&self.applied);
        let mut i: usize = 0;
        let ghost first = rollback@;
        while i < side_effects.len()
            invariant
                i <= side_effects@.len(),
                rollback@ == first + side_effects@.take(i as int),
            decreases side_effects@.len() - i,
        {
            rollback.push(side_effects[i]);
            i += 1;
            assert(side_effects@.take(i as int) =~= side_effects@.take(i - 1).push(
                side_effects@[i - 1],
            ));
        }
        assert(side_effects@.take(i as int) =~= side_effects@);
        assert(rollback@ =~= applied_before(self.step, self.changes_autostart).reverse());
        let primary = match self.step {
            SettingsStep::SetAutostart => concat2(
                "update Windows startup registration: ",
                error.as_str(),
            ),
            _ => error,
        };
        SettingsFailure { primary, rollback }
    }

    /// Whether the settings are locked while a step is done: from when the current ones were
    /// read until the recorder has the new ones.
    pub fn holds_lock(&self) -> (r: bool)
        ensures
            r == (step_rank(SettingsStep::ReadCurrent) < step_rank(self.step) <= step_rank(
                SettingsStep::FinishRestart,
            )),
    {
        match self.step {
            SettingsStep::ResolveCurrentMediaDir
            | SettingsStep::ValidateFolderChange
            | SettingsStep::PrepareMediaDir
            | SettingsStep::ParseShortcuts
            | SettingsStep::ReadQuota
            | SettingsStep::SyncGlobalHotkeys
            | SettingsStep::SetHookHotkeys
            | SettingsStep::SetTrayLabel
            | SettingsStep::SetAutostart
            | SettingsStep::PrepareRestart
            | SettingsStep::SaveDocument
            | SettingsStep::FinishRestart => true,
            _ => false,
        }
    }

    /// Does what is due of what follows a save that succeeded; at every other step nothing
    /// changes.
    pub fn apply_lasting<N: Fn(&str, &str) -> bool>(
        &self,
        storage: &mut StorageSettings,
        authorization: &mut NativeMediaFolderAuthorization,
        first_run: &mut FirstRunState,
        quota_bytes: Option<u64>,
        media_dir: &str,
        nested: &N,
    )
        requires
            forall|a: &str, b: &str| call_requires(*nested, (a, b)),
        ensures
            final(storage).quota() == if self.step == SettingsStep::SetQuota {
                quota_bytes
            } else {
                old(storage).quota()
            },
            final(storage).dir() == if self.step == SettingsStep::SetMediaDir {
                media_dir@
            } else {
                old(storage).dir()
            },
            if self.step == SettingsStep::CommitMediaDir {
                committed(*old(authorization), *final(authorization), *nested, media_dir)
            } else {
                *final(authorization) == *old(authorization)
            },
            final(first_run).pending == (old(first_run).pending && self.step
                != SettingsStep::CompleteFirstRun),
    {
        match self.step {
            SettingsStep::SetQuota => storage.set_quota_bytes(quota_bytes),
            SettingsStep::SetMediaDir => storage.set_media_dir(media_dir.to_owned()),
            SettingsStep::CommitMediaDir => authorization.commit(media_dir, nested),
            SettingsStep::CompleteFirstRun => first_run.complete(),
            _ => {},
        }
    }
}

/// What the list of steps holds.
proof fn lemma_applied(step: SettingsStep, changes_autostart: bool)
    ensures
        ({
            let done = applied_before(step, changes_autostart);
            &&& done.contains(RollbackStep::RestoreGlobalHotkeys) == (step_rank(step) > step_rank(
                SettingsStep::SyncGlobalHotkeys,
            ))
            &&& done.contains(RollbackStep::RestoreHookHotkeys) == (step_rank(step) > step_rank(
                SettingsStep::SetHookHotkeys,
            ))
            &&& done.contains(RollbackStep::RestoreTrayLabel) == (step_rank(step) > step_rank(
                SettingsStep::SetTrayLabel,
            ))
            &&& done.contains(RollbackStep::RestoreAutostart) == (changes_autostart && step_rank(
                step,
            ) > step_rank(SettingsStep::SetAutostart))
        }),
{
    let done = applied_before(step, changes_autostart);
    if done.len() > 0 {
        assert(done[0] == RollbackStep::RestoreGlobalHotkeys);
    }
    if done.len() > 1 {
        assert(done[1] == RollbackStep::RestoreHookHotkeys);
    }
    if done.len() > 2 {
        assert(done[2] == RollbackStep::RestoreTrayLabel);
    }
    if done.len() > 3 {
        assert(done[3] == if changes_autostart {
            RollbackStep::RestoreAutostart
        } else {
            RollbackStep::RestoreDocument
        });
    }
}

/// The side effects that are taken back, in order.
pub open spec fn side_effects_back(applied: AppliedSettingsSideEffects) -> Seq<RollbackStep> {
    let autostart: Seq<RollbackStep> = if applied.autostart {
        seq![RollbackStep::RestoreAutostart]
    } else {
        Seq::empty()
    };
    let label = if applied.tray_label {
        autostart.push(RollbackStep::RestoreTrayLabel)
    } else {
        autostart
    };
    let hooks = if applied.hook_hotkeys {
        label.push(RollbackStep::RestoreHookHotkeys)
    } else {
        label
    };
    if applied.global_hotkeys {
        hooks.push(RollbackStep::RestoreGlobalHotkeys)
    } else {
        hooks
    }
}

/// The side effects that are taken back, in order.
pub fn rollback_settings_side_effects(applied: &AppliedSettingsSideEffects) -> (steps: Vec<
    RollbackStep,
>)
    ensures
        steps@ == side_effects_back(*applied),
{
    let mut steps: Vec<RollbackStep> = Vec::new();
    if applied.autostart {
        steps.push(RollbackStep::RestoreAutostart);
    }
    assert(steps@ =~= if applied.autostart {
        seq![RollbackStep::RestoreAutostart]
    } else {
        Seq::<RollbackStep>::empty()
    });
    if applied.tray_label {
        steps.push(RollbackStep::RestoreTrayLabel);
    }
    if applied.hook_hotkeys {
        steps.push(RollbackStep::RestoreHookHotkeys);
    }
    if applied.global_hotkeys {
        steps.push(RollbackStep::RestoreGlobalHotkeys);
    }
    steps
}

/// What is said of something that could not be taken back.
pub open spec fn rollback_text(step: RollbackStep, error: Seq<char>) -> Seq<char> {
    match step {
        RollbackStep::RestoreDocument => "restore settings.json: "@ + error,
        RollbackStep::RestoreAutostart => "restore Windows startup registration: "@ + error,
        RollbackStep::RestoreTrayLabel => "restore tray hotkey label: "@ + error,
        RollbackStep::RestoreHookHotkeys => "restore low-level hotkeys: "@ + error,
        RollbackStep::RestoreGlobalHotkeys => "restore global save hotkeys: "@ + error,
    }
}

pub fn rollback_error(step: RollbackStep, error: &str) -> (text: String)
    ensures
        text@ == rollback_text(step, error@),
{
    match step {
        RollbackStep::RestoreDocument => concat2("restore settings.json: ", error),
        RollbackStep::RestoreAutostart => concat2("restore Windows startup registration: ", error),
        RollbackStep::RestoreTrayLabel => concat2("restore tray hotkey label: ", error),
        RollbackStep::RestoreHookHotkeys => concat2("restore low-level hotkeys: ", error),
        RollbackStep::RestoreGlobalHotkeys => concat2("restore global save hotkeys: ", error),
    }
}

/// The error of a save: what failed, and what could not be taken back.
pub fn settings_transaction_error(primary: String, rollback_errors: Vec<String>) -> (text: String)
    ensures
        text@ == if rollback_errors@.len() == 0 {
            primary@
        } else {
            primary@ + "; settings rollback incomplete: "@ + joined(
                views(rollback_errors@),
                ", "@,
            )
        },
{
    if rollback_errors.len() == 0 {
        primary
    } else {
        let list = join(&rollback_errors, ", ");
        concat3(primary.as_str(), "; settings rollback incomplete: ", list.as_str())
    }
}

/// However far a save came, taking back what the flags say undoes exactly what took place,
/// last first.
pub proof fn law_rollback_reverses_what_took_place(t: SettingsTransaction)
    requires
        t.wf(),
        step_rank(t.step) < step_rank(SettingsStep::FinishRestart),
    ensures
        side_effects_back(t.applied) == applied_before(t.step, t.changes_autostart).reverse(),
{
    lemma_applied(t.step, t.changes_autostart);
    assert(side_effects_back(t.applied) =~= applied_before(t.step, t.changes_autostart).reverse());
}

/// The document is written only after every side effect took place, and the recorder gets
/// the new settings only after the document was written.
pub proof fn law_document_is_written_last(changes_autostart: bool)
    ensures
        applied_before(SettingsStep::SaveDocument, changes_autostart).len() == if changes_autostart {
            4int
        } else {
            3int
        },
        !applied_before(SettingsStep::SaveDocument, changes_autostart).contains(
            RollbackStep::RestoreDocument,
        ),
        applied_before(SettingsStep::FinishRestart, changes_autostart)
            == applied_before(SettingsStep::SaveDocument, changes_autostart).push(
            RollbackStep::RestoreDocument,
        ),
        step_after(SettingsStep::SaveDocument, changes_autostart) == SettingsStep::FinishRestart,
{
}

/// Whether these are the steps of a save so far, the last of them due.
pub open spec fn is_save(steps: Seq<SettingsStep>, changes_autostart: bool) -> bool {
    &&& steps.len() > 0
    &&& steps[0] == SettingsStep::NormalizeHotkeys
    &&& forall|i: int|
        0 <= i < steps.len() - 1 ==> #[trigger] goes_on_after(steps, changes_autostart, i)
}

/// Whether a step succeeded and was followed by the next.
pub open spec fn goes_on_after(
    steps: Seq<SettingsStep>,
    changes_autostart: bool,
    i: int,
) -> bool {
    steps[i] != SettingsStep::Complete && steps[i + 1] == step_after(steps[i], changes_autostart)
}

/// The steps of a save go forward.
proof fn lemma_save_goes_forward(
    steps: Seq<SettingsStep>,
    changes_autostart: bool,
    i: int,
    j: int,
)
    requires
        is_save(steps, changes_autostart),
        0 <= i <= j < steps.len(),
    ensures
        step_rank(steps[i]) + (j - i) <= step_rank(steps[j]),
    decreases j - i,
{
    if i < j {
        lemma_save_goes_forward(steps, changes_autostart, i, j - 1);
        assert(goes_on_after(steps, changes_autostart, j - 1));
    }
}

/// A save that fails, at whatever step, never came to the quota, the media folder, the
/// authorization of a folder or the flag of the first run: it leaves them alone.
pub proof fn law_failed_save_leaves_the_rest_alone(
    steps: Seq<SettingsStep>,
    changes_autostart: bool,
)
    requires
        is_save(steps, changes_autostart),
        can_fail(steps.last()),
    ensures
        forall|i: int| 0 <= i < steps.len() ==> !is_lasting(#[trigger] steps[i]),
{
    assert forall|i: int| 0 <= i < steps.len() implies !is_lasting(#[trigger] steps[i]) by {
        lemma_save_goes_forward(steps, changes_autostart, i, steps.len() - 1);
    }
}

/// A save that is complete told its warnings, set the quota, then the media folder, then checked the storage,
/// used the authorization up and ended the first run, all of them after the recorder got the
/// new settings.
pub proof fn law_complete_save_did_the_rest(steps: Seq<SettingsStep>, changes_autostart: bool)
    requires
        is_save(steps, changes_autostart),
        steps.last() == SettingsStep::Complete,
    ensures
        steps.len() > 8,
        steps[steps.len() - 2] == SettingsStep::CompleteFirstRun,
        steps[steps.len() - 3] == SettingsStep::CommitMediaDir,
        steps[steps.len() - 4] == SettingsStep::RecheckQuota,
        steps[steps.len() - 5] == SettingsStep::SetMediaDir,
        steps[steps.len() - 6] == SettingsStep::SetQuota,
        steps[steps.len() - 7] == SettingsStep::TellWarnings,
        steps[steps.len() - 8] == SettingsStep::FinishRestart,
{
    let n = steps.len() as int;
    assert(n > 1);
    assert(goes_on_after(steps, changes_autostart, n - 2));
    assert(n > 2);
    assert(goes_on_after(steps, changes_autostart, n - 3));
    assert(n > 3);
    assert(goes_on_after(steps, changes_autostart, n - 4));
    assert(n > 4);
    assert(goes_on_after(steps, changes_autostart, n - 5));
    assert(n > 5);
    assert(goes_on_after(steps, changes_autostart, n - 6));
    assert(n > 6);
    assert(goes_on_after(steps, changes_autostart, n - 7));
    assert(n > 7);
    assert(goes_on_after(steps, changes_autostart, n - 8));
}

/// The checks before the first side effect take nothing back when they fail.
pub proof fn law_checks_take_nothing_back(step: SettingsStep, changes_autostart: bool)
    requires
        step_rank(step) < step_rank(SettingsStep::SyncGlobalHotkeys),
    ensures
        applied_before(step, changes_autostart).len() == 0,
        step_rank(step_after(step, changes_autostart)) == step_rank(step) + 1,
{
}

/// A save goes through all of its steps, one after the other; the registration at startup is left
/// out where it does not change.
pub proof fn law_steps_of_a_save(changes_autostart: bool)
    ensures
        step_after(SettingsStep::NormalizeHotkeys, changes_autostart) is NormalizeGames,
        step_after(SettingsStep::NormalizeGames, changes_autostart) is Validate,
        step_after(SettingsStep::Validate, changes_autostart) is ResolveMediaDir,
        step_after(SettingsStep::ResolveMediaDir, changes_autostart) is ReadCurrent,
        step_after(SettingsStep::ReadCurrent, changes_autostart) is ResolveCurrentMediaDir,
        step_after(SettingsStep::ResolveCurrentMediaDir, changes_autostart) is ValidateFolderChange,
        step_after(SettingsStep::ValidateFolderChange, changes_autostart) is PrepareMediaDir,
        step_after(SettingsStep::PrepareMediaDir, changes_autostart) is ParseShortcuts,
        step_after(SettingsStep::ParseShortcuts, changes_autostart) is ReadQuota,
        step_after(SettingsStep::ReadQuota, changes_autostart) is SyncGlobalHotkeys,
        step_after(SettingsStep::SyncGlobalHotkeys, changes_autostart) is SetHookHotkeys,
        step_after(SettingsStep::SetHookHotkeys, changes_autostart) is SetTrayLabel,
        step_after(SettingsStep::SetTrayLabel, true) is SetAutostart,
        step_after(SettingsStep::SetTrayLabel, false) is PrepareRestart,
        step_after(SettingsStep::SetAutostart, changes_autostart) is PrepareRestart,
        step_after(SettingsStep::PrepareRestart, changes_autostart) is SaveDocument,
        step_after(SettingsStep::SaveDocument, changes_autostart) is FinishRestart,
        step_after(SettingsStep::FinishRestart, changes_autostart) is TellWarnings,
        step_after(SettingsStep::TellWarnings, changes_autostart) is SetQuota,
        step_after(SettingsStep::SetQuota, changes_autostart) is SetMediaDir,
        step_after(SettingsStep::SetMediaDir, changes_autostart) is RecheckQuota,
        step_after(SettingsStep::RecheckQuota, changes_autostart) is CommitMediaDir,
        step_after(SettingsStep::CommitMediaDir, changes_autostart) is CompleteFirstRun,
        step_after(SettingsStep::CompleteFirstRun, changes_autostart) is Complete,
{
}

/// The settings are locked, and a save can fail, up to the restart of the recorder and no further;
/// only the games are put into their form without an error.
pub proof fn law_saves_fail_before_they_last(step: SettingsStep)
    ensures
        can_fail(step) <==> !(step is NormalizeGames || step is TellWarnings || step is SetQuota
            || step is SetMediaDir || step is RecheckQuota || step is CommitMediaDir
            || step is CompleteFirstRun || step is Complete),
        step_rank(SettingsStep::ReadCurrent) < step_rank(step) <= step_rank(
            SettingsStep::FinishRestart,
        ) <==> step is ResolveCurrentMediaDir || step is ValidateFolderChange
            || step is PrepareMediaDir || step is ParseShortcuts || step is ReadQuota
            || step is SyncGlobalHotkeys || step is SetHookHotkeys || step is SetTrayLabel
            || step is SetAutostart || step is PrepareRestart || step is SaveDocument
            || step is FinishRestart,
{
}

/// What a failure finds in place: each change is there from the step after its own on.
pub proof fn law_changes_in_place(step: SettingsStep, changes_autostart: bool)
    ensures
        ({
            let done = applied_before(step, changes_autostart);
            &&& done.contains(RollbackStep::RestoreGlobalHotkeys) <==> step_rank(step) > 10
            &&& done.contains(RollbackStep::RestoreHookHotkeys) <==> step_rank(step) > 11
            &&& done.contains(RollbackStep::RestoreTrayLabel) <==> step_rank(step) > 12
            &&& done.contains(RollbackStep::RestoreAutostart) <==> changes_autostart && step_rank(
                step,
            ) > 13
            &&& done.contains(RollbackStep::RestoreDocument) <==> step_rank(step) > 15
            &&& done.no_duplicates()
        }),
        step_rank(SettingsStep::SyncGlobalHotkeys) == 10,
        step_rank(SettingsStep::SetHookHotkeys) == 11,
        step_rank(SettingsStep::SetTrayLabel) == 12,
        step_rank(SettingsStep::SetAutostart) == 13,
        step_rank(SettingsStep::PrepareRestart) == 14,
        step_rank(SettingsStep::SaveDocument) == 15,
        step_rank(SettingsStep::FinishRestart) == 16,
{
    let done = applied_before(step, changes_autostart);
    if step_rank(step) > 10 {
        assert(done[0] is RestoreGlobalHotkeys);
    }
    if step_rank(step) > 11 {
        assert(done[1] is RestoreHookHotkeys);
    }
    if step_rank(step) > 12 {
        assert(done[2] is RestoreTrayLabel);
    }
    if step_rank(step) > 13 && changes_autostart {
        assert(done[3] is RestoreAutostart);
    }
    if step_rank(step) > 15 {
        assert(done.last() is RestoreDocument);
        assert(done[done.len() - 1] is RestoreDocument);
    }
}

/// Side effects are taken back in the reverse of their order, each that took place and no other.
pub proof fn law_side_effects_are_taken_back(applied: AppliedSettingsSideEffects)
    ensures
        ({
            let back = side_effects_back(applied);
            &&& back.contains(RollbackStep::RestoreAutostart) <==> applied.autostart
            &&& back.contains(RollbackStep::RestoreTrayLabel) <==> applied.tray_label
            &&& back.contains(RollbackStep::RestoreHookHotkeys) <==> applied.hook_hotkeys
            &&& back.contains(RollbackStep::RestoreGlobalHotkeys) <==> applied.global_hotkeys
            &&& !back.contains(RollbackStep::RestoreDocument)
            &&& applied.autostart && applied.tray_label && applied.hook_hotkeys
                && applied.global_hotkeys ==> back == seq![
                RollbackStep::RestoreAutostart,
                RollbackStep::RestoreTrayLabel,
                RollbackStep::RestoreHookHotkeys,
                RollbackStep::RestoreGlobalHotkeys,
            ]
            &&& back.len() == (if applied.autostart {
                1int
            } else {
                0
            }) + (if applied.tray_label {
                1int
            } else {
                0
            }) + (if applied.hook_hotkeys {
                1int
            } else {
                0
            }) + (if applied.global_hotkeys {
                1int
            } else {
                0
            })
        }),
{
    let back = side_effects_back(applied);
    let a = if applied.autostart {
        1int
    } else {
        0
    };
    let b = a + if applied.tray_label {
        1int
    } else {
        0
    };
    let c = b + if applied.hook_hotkeys {
        1int
    } else {
        0
    };
    if applied.autostart {
        assert(back[0] is RestoreAutostart);
    }
    if applied.tray_label {
        assert(back[a] is RestoreTrayLabel);
    }
    if applied.hook_hotkeys {
        assert(back[b] is RestoreHookHotkeys);
    }
    if applied.global_hotkeys {
        assert(back[c] is RestoreGlobalHotkeys);
    }
    if applied.autostart && applied.tray_label && applied.hook_hotkeys && applied.global_hotkeys {
        assert(back =~= seq![
            RollbackStep::RestoreAutostart,
            RollbackStep::RestoreTrayLabel,
            RollbackStep::RestoreHookHotkeys,
            RollbackStep::RestoreGlobalHotkeys,
        ]);
    }
}

/// What could not be taken back is told by its name.
pub proof fn law_rollback_errors_are_named(error: Seq<char>)
    ensures
        rollback_text(RollbackStep::RestoreDocument, error) == "restore settings.json: "@ + error,
        rollback_text(RollbackStep::RestoreAutostart, error)
            == "restore Windows startup registration: "@ + error,
        rollback_text(RollbackStep::RestoreTrayLabel, error) == "restore tray hotkey label: "@
            + error,
        rollback_text(RollbackStep::RestoreHookHotkeys, error) == "restore low-level hotkeys: "@
            + error,
        rollback_text(RollbackStep::RestoreGlobalHotkeys, error) == "restore global save hotkeys: "@
            + error,
{
}

/// A hotkey that is not given, or blank, is none; any other is what its normal form is, or its
/// error.
pub proof fn law_blank_hotkeys_are_none<N: Fn(&str) -> Result<String, String>>(
    normalize: N,
    raw: Option<String>,
    res: Result<Option<String>, String>,
)
    requires
        optional_hotkey_came(normalize, raw, res),
    ensures
        raw is None || trimmed(raw->0@).len() == 0 ==> res == Ok::<Option<String>, String>(None),
        raw is Some && trimmed(raw->0@).len() > 0 ==> match res {
            Ok(hotkey) => hotkey is Some && exists|text: &str| #[trigger]
                call_ensures(normalize, (text,), Ok::<String, String>(hotkey->0)) && text@
                    == raw->0@,
            Err(error) => exists|text: &str| #[trigger]
                call_ensures(normalize, (text,), Err::<String, String>(error)) && text@ == raw->0@,
        },
{
}

/// The error of hotkeys that are refused is that of the first one: an accepted hotkey is never
/// told as refused, and none behind a refused one is.
pub proof fn law_first_refused_hotkey_is_told<N: Fn(&str) -> Result<String, String>>(
    normalize: N,
    settings: AppSettings,
    error: String,
)
    requires
        is_first_refusal(normalize, settings, error),
    ensures
        !hotkey_accepted(normalize, settings.hotkey@) ==> hotkey_came(
            normalize,
            settings.hotkey@,
            Err(error),
        ),
        !optional_hotkey_accepted(normalize, settings.hotkey_secondary) ==> hotkey_came(
            normalize,
            settings.hotkey@,
            Err(error),
        ) || optional_hotkey_came(normalize, settings.hotkey_secondary, Err(error)),
        !optional_hotkey_accepted(normalize, settings.recording_hotkey) ==> hotkey_came(
            normalize,
            settings.hotkey@,
            Err(error),
        ) || optional_hotkey_came(normalize, settings.hotkey_secondary, Err(error))
            || optional_hotkey_came(normalize, settings.recording_hotkey, Err(error)),
        hotkey_came(normalize, settings.hotkey@, Err(error)) || optional_hotkey_came(
            normalize,
            settings.hotkey_secondary,
            Err(error),
        ) || optional_hotkey_came(normalize, settings.recording_hotkey, Err(error))
            || optional_hotkey_came(normalize, settings.recording_hotkey_secondary, Err(error)),
        hotkey_came(normalize, settings.hotkey@, Err(error)) ==> exists|text: &str| #[trigger]
            call_ensures(normalize, (text,), Err::<String, String>(error)) && text@
                == settings.hotkey@,
{
}

} // verus!
