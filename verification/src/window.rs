//! Life of the main window: its lifecycle, the readiness of its frontend, and the race
//! between closing to the tray and opening again.

use crate::text::{concat3, str_eq};
use vstd::prelude::*;

verus! {

pub const MAIN_WINDOW_LABEL: &'static str = "main";

/// Milliseconds that a frontend has to report that it is ready.
pub const WEBVIEW_READY_TIMEOUT_MS: u64 = 5_000;

/// Whether a window of that label belongs to the application's own UI.
pub fn is_app_window_label(label: &str) -> (r: bool)
    ensures
        r == (label@ == MAIN_WINDOW_LABEL@),
{
    str_eq(label, MAIN_WINDOW_LABEL)
}

// ---------------------------------------------------------------------------
// Lifecycle
// ---------------------------------------------------------------------------

#[derive(Debug, Clone, Copy, PartialEq, Eq, Structural)]
pub enum WindowLifecycleMode {
    Foreground,
    /// Hidden softly; closing to the tray destroys the window instead.
    Tray,
    Taskbar,
    /// Closing to the tray has requested destruction; the label may still be registered.
    Destroying,
    /// No live window. An open may build a fresh one.
    Destroyed,
}

#[derive(Debug, Clone, Copy, PartialEq, Eq, Structural)]
pub struct WindowLifecycleSnapshot {
    pub revision: u64,
    pub mode: WindowLifecycleMode,
    pub backgrounded: bool,
}

/// The snapshot of a revision: everything but the foreground is background.
pub open spec fn snapshot_at(revision: u64, mode: WindowLifecycleMode) -> WindowLifecycleSnapshot {
    WindowLifecycleSnapshot {
        revision,
        mode,
        backgrounded: mode != WindowLifecycleMode::Foreground,
    }
}

impl WindowLifecycleSnapshot {
    pub fn new(revision: u64, mode: WindowLifecycleMode) -> (r: Self)
        ensures
            r == snapshot_at(revision, mode),
    {
        WindowLifecycleSnapshot {
            revision,
            mode,
            backgrounded: !matches!(mode, WindowLifecycleMode::Foreground),
        }
    }
}

/// One more, at most the largest number.
pub open spec fn next_revision(revision: u64) -> u64 {
    if revision < u64::MAX {
        (revision + 1) as u64
    } else {
        u64::MAX
    }
}

/// The snapshot after a transition: a revision counts changes of the mode only.
pub open spec fn transitioned(
    snapshot: WindowLifecycleSnapshot,
    mode: WindowLifecycleMode,
) -> WindowLifecycleSnapshot {
    if snapshot.mode == mode {
        snapshot
    } else {
        snapshot_at(next_revision(snapshot.revision), mode)
    }
}

#[derive(Debug, Clone, Copy, PartialEq, Eq, Structural)]
pub struct WindowLifecycleState {
    pub current: WindowLifecycleSnapshot,
}

impl WindowLifecycleState {
    /// The mode and the background flag agree.
    pub open spec fn wf(self) -> bool {
        self.current == snapshot_at(self.current.revision, self.current.mode)
    }

    pub fn snapshot(&self) -> (r: WindowLifecycleSnapshot)
        ensures
            r == self.current,
    {
        self.current
    }

    pub fn transition(&mut self, mode: WindowLifecycleMode) -> (r: WindowLifecycleSnapshot)
        ensures
            final(self).current == transitioned(old(self).current, mode),
            r == final(self).current,
            old(self).wf() ==> final(self).wf(),
    {
        if self.current.mode != mode {
            let revision: u64 = self.current.revision.saturating_add(1);
            self.current = WindowLifecycleSnapshot::new(revision, mode);
        }
        self.current
    }
}

impl Default for WindowLifecycleState {
    /// No window exists until one is opened.
    fn default() -> (r: Self)
        ensures
            r.current == snapshot_at(0, WindowLifecycleMode::Destroyed),
            r.wf(),
    {
        WindowLifecycleState {
            current: WindowLifecycleSnapshot::new(0, WindowLifecycleMode::Destroyed),
        }
    }
}

/// A transition to the mode that the window is in keeps the revision, so the frontend
/// never sees two revisions of one mode in a row.
pub proof fn law_transition_idempotent(
    snapshot: WindowLifecycleSnapshot,
    mode: WindowLifecycleMode,
)
    ensures
        transitioned(transitioned(snapshot, mode), mode) == transitioned(snapshot, mode),
        transitioned(snapshot, mode).revision >= snapshot.revision,
        transitioned(snapshot, mode).revision != snapshot.revision ==> transitioned(
            snapshot,
            mode,
        ).mode != snapshot.mode,
{
}

/// A microphone test runs only while the window is in the foreground.
pub fn ensure_foreground_microphone_test(mode: WindowLifecycleMode) -> (res: Result<(), String>)
    ensures
        res is Ok <==> mode == WindowLifecycleMode::Foreground,
        res matches Err(message) ==> message@
            == "microphone test is unavailable while Clipline is backgrounded"@,
{
    if matches!(mode, WindowLifecycleMode::Foreground) {
        Ok(())
    } else {
        Err("microphone test is unavailable while Clipline is backgrounded".to_owned())
    }
}

// ---------------------------------------------------------------------------
// First run
// ---------------------------------------------------------------------------

/// Whether the first-run setup is still to be done.
#[derive(Debug, Clone, Copy, PartialEq, Eq, Structural)]
pub struct FirstRunState {
    pub pending: bool,
}

impl FirstRunState {
    pub fn new(first_run: bool) -> (r: Self)
        ensures
            r.pending == first_run,
    {
        FirstRunState { pending: first_run }
    }

    pub fn is_pending(&self) -> (r: bool)
        ensures
            r == self.pending,
    {
        self.pending
    }

    pub fn complete(&mut self)
        ensures
            !final(self).pending,
    {
        self.pending = false;
    }
}

// ---------------------------------------------------------------------------
// Frontend readiness
// ---------------------------------------------------------------------------

/// Readiness of the UI per window. Generation zero means that there is no live window.
#[derive(Debug, Clone, Copy, PartialEq, Eq, Structural)]
pub struct FrontendReadinessState {
    /// The last generation that was handed out; it never goes back.
    pub next_generation: u64,
    /// The generation of the live window, or zero.
    pub generation: u64,
    pub ready_generation: u64,
    pub watchdog_armed_generation: u64,
    /// When the last destruction started, in milliseconds.
    pub destroy_started_ms: Option<u64>,
}

#[derive(Debug, Clone, Copy, PartialEq, Eq, Structural)]
pub struct FrontendReadinessCheckpoint {
    pub generation: u64,
    pub ready_generation: u64,
}

impl Default for FrontendReadinessState {
    fn default() -> (r: Self)
        ensures
            r == (FrontendReadinessState {
                next_generation: 0,
                generation: 0,
                ready_generation: 0,
                watchdog_armed_generation: 0,
                destroy_started_ms: None,
            }),
            r.wf(),
    {
        FrontendReadinessState {
            next_generation: 0,
            generation: 0,
            ready_generation: 0,
            watchdog_armed_generation: 0,
            destroy_started_ms: None,
        }
    }
}

/// The state after a window was built.
pub open spec fn generation_begun(s: FrontendReadinessState) -> FrontendReadinessState {
    FrontendReadinessState {
        next_generation: (s.next_generation + 1) as u64,
        generation: (s.next_generation + 1) as u64,
        destroy_started_ms: None,
        ..s
    }
}

/// The state after destruction of the window started.
pub open spec fn cleared_for_destroy(
    s: FrontendReadinessState,
    now_ms: u64,
) -> FrontendReadinessState {
    FrontendReadinessState { generation: 0, destroy_started_ms: Some(now_ms), ..s }
}

/// What is kept in case the destruction fails.
pub open spec fn checkpoint_of(s: FrontendReadinessState) -> FrontendReadinessCheckpoint {
    FrontendReadinessCheckpoint { generation: s.generation, ready_generation: s.ready_generation }
}

/// The state after a destruction failed.
pub open spec fn restored(
    s: FrontendReadinessState,
    checkpoint: FrontendReadinessCheckpoint,
) -> FrontendReadinessState {
    FrontendReadinessState {
        generation: checkpoint.generation,
        ready_generation: checkpoint.ready_generation,
        destroy_started_ms: None,
        ..s
    }
}

/// Whether the live window is of that generation and its frontend has reported.
pub open spec fn ready_in(s: FrontendReadinessState, generation: u64) -> bool {
    generation != 0 && s.generation == generation && s.ready_generation == generation
}

/// Whether the watchdog of a generation has something to report: its window still
/// lives and its frontend has not reported.
pub open spec fn watchdog_fires(armed: u64, current: u64, ready: u64) -> bool {
    armed != 0 && armed == current && ready != armed
}

impl FrontendReadinessState {
    /// No generation is ahead of the last one that was handed out.
    pub open spec fn wf(self) -> bool {
        &&& self.generation <= self.next_generation
        &&& self.ready_generation <= self.next_generation
        &&& self.watchdog_armed_generation <= self.next_generation
    }

    pub fn generation(&self) -> (r: u64)
        ensures
            r == self.generation,
    {
        self.generation
    }

    pub fn ready_generation(&self) -> (r: u64)
        ensures
            r == self.ready_generation,
    {
        self.ready_generation
    }

    /// Starts the next generation. Gives it back with the time since the destruction
    /// of the window before it, where one was under way.
    pub fn begin_generation(&mut self, now_ms: u64) -> (r: (u64, Option<u64>))
        requires
            old(self).next_generation < u64::MAX,
        ensures
            *final(self) == generation_begun(*old(self)),
            r.0 == old(self).next_generation + 1,
            r.1 == match old(self).destroy_started_ms {
                Some(started) => Some(if now_ms >= started { (now_ms - started) as u64 } else { 0 }),
                None => None,
            },
            old(self).wf() ==> final(self).wf(),
    {
        let next: u64 = self.next_generation + 1;
        self.next_generation = next;
        self.generation = next;
        let elapsed = match self.destroy_started_ms {
            Some(started) => Some(now_ms.saturating_sub(started)),
            None => None,
        };
        self.destroy_started_ms = None;
        (next, elapsed)
    }

    pub fn clear_for_destroy(&mut self, now_ms: u64) -> (checkpoint: FrontendReadinessCheckpoint)
        ensures
            *final(self) == cleared_for_destroy(*old(self), now_ms),
            checkpoint == checkpoint_of(*old(self)),
            old(self).wf() ==> final(self).wf(),
    {
        let checkpoint = FrontendReadinessCheckpoint {
            generation: self.generation,
            ready_generation: self.ready_generation,
        };
        self.generation = 0;
        self.destroy_started_ms = Some(now_ms);
        checkpoint
    }

    pub fn restore_after_failed_destroy(&mut self, checkpoint: FrontendReadinessCheckpoint)
        ensures
            *final(self) == restored(*old(self), checkpoint),
    {
        self.generation = checkpoint.generation;
        self.ready_generation = checkpoint.ready_generation;
        self.destroy_started_ms = None;
    }

    /// Records that the live window's frontend reported.
    pub fn mark_ready(&mut self) -> (generation: Option<u64>)
        ensures
            generation == if old(self).generation == 0 {
                None
            } else {
                Some(old(self).generation)
            },
            *final(self) == if old(self).generation == 0 {
                *old(self)
            } else {
                FrontendReadinessState { ready_generation: old(self).generation, ..*old(self) }
            },
            old(self).wf() ==> final(self).wf(),
    {
        if self.generation == 0 {
            return None;
        }
        self.ready_generation = self.generation;
        Some(self.generation)
    }

    pub fn is_ready(&self, generation: u64) -> (r: bool)
        ensures
            r == ready_in(*self, generation),
    {
        generation != 0 && self.generation == generation && self.ready_generation == generation
    }

    /// True when this call newly arms the watchdog of the generation.
    pub fn try_arm_watchdog(&mut self, generation: u64) -> (armed: bool)
        ensures
            armed == (generation != 0 && !ready_in(*old(self), generation)
                && old(self).watchdog_armed_generation != generation),
            *final(self) == if generation == 0 || ready_in(*old(self), generation) {
                *old(self)
            } else {
                FrontendReadinessState { watchdog_armed_generation: generation, ..*old(self) }
            },
    {
        if generation == 0 || self.is_ready(generation) {
            return false;
        }
        let previous: u64 = self.watchdog_armed_generation;
        self.watchdog_armed_generation = generation;
        previous != generation
    }
}

pub fn watchdog_should_fire(
    armed_generation: u64,
    current_generation: u64,
    ready_generation: u64,
) -> (r: bool)
    ensures
        r == watchdog_fires(armed_generation, current_generation, ready_generation),
{
    armed_generation != 0 && armed_generation == current_generation && ready_generation
        != armed_generation
}

/// A window that is built anew has a generation of its own: it is not ready before its
/// own frontend reported, and no watchdog of an earlier window fires for it.
pub proof fn law_generations_are_fresh(s: FrontendReadinessState, earlier: u64)
    requires
        s.wf(),
        s.next_generation < u64::MAX,
        earlier <= s.next_generation,
    ensures
        generation_begun(s).generation > s.next_generation,
        !ready_in(generation_begun(s), generation_begun(s).generation),
        !watchdog_fires(
            earlier,
            generation_begun(s).generation,
            generation_begun(s).ready_generation,
        ),
{
}

/// Once destruction started no watchdog fires, and a destruction that fails leaves the
/// window exactly as ready as it was.
pub proof fn law_failed_destroy_restores_readiness(
    s: FrontendReadinessState,
    now_ms: u64,
    armed: u64,
    generation: u64,
)
    ensures
        !watchdog_fires(
            armed,
            cleared_for_destroy(s, now_ms).generation,
            cleared_for_destroy(s, now_ms).ready_generation,
        ),
        ready_in(restored(cleared_for_destroy(s, now_ms), checkpoint_of(s)), generation)
            == ready_in(s, generation),
        restored(cleared_for_destroy(s, now_ms), checkpoint_of(s)) == (FrontendReadinessState {
            destroy_started_ms: None,
            ..s
        }),
{
}

// ---------------------------------------------------------------------------
// Opening and closing to the tray
// ---------------------------------------------------------------------------

#[derive(Debug, Clone, Copy, PartialEq, Eq, Structural)]
pub enum MainWindowOpenTarget {
    ExistingMain,
    NewMain,
}

pub fn main_window_open_target(main_window_present: bool) -> (target: MainWindowOpenTarget)
    ensures
        target == MainWindowOpenTarget::ExistingMain <==> main_window_present,
{
    if main_window_present {
        MainWindowOpenTarget::ExistingMain
    } else {
        MainWindowOpenTarget::NewMain
    }
}

/// What a request to open the window leads to.
#[derive(Debug, Clone, Copy, PartialEq, Eq, Structural)]
pub enum MainWindowOpenAction {
    RevealExisting,
    QueueOpen,
    BuildNew,
    Noop,
}

/// What decides the race between destroying and opening the window.
#[derive(Debug, Clone, Copy, PartialEq, Eq, Structural)]
pub struct MainWindowShellState {
    pub mode: WindowLifecycleMode,
    pub main_window_present: bool,
    pub pending_open: bool,
}

impl MainWindowShellState {
    pub fn new(mode: WindowLifecycleMode, main_window_present: bool) -> (r: Self)
        ensures
            r == (MainWindowShellState { mode, main_window_present, pending_open: false }),
    {
        MainWindowShellState { mode, main_window_present, pending_open: false }
    }
}

/// The shell once destruction has begun.
pub open spec fn destroying(state: MainWindowShellState) -> MainWindowShellState {
    MainWindowShellState { mode: WindowLifecycleMode::Destroying, ..state }
}

/// What a request to open does.
pub open spec fn open_action(state: MainWindowShellState) -> MainWindowOpenAction {
    match state.mode {
        WindowLifecycleMode::Destroying => MainWindowOpenAction::QueueOpen,
        WindowLifecycleMode::Destroyed => MainWindowOpenAction::BuildNew,
        _ => if state.main_window_present {
            MainWindowOpenAction::RevealExisting
        } else {
            MainWindowOpenAction::BuildNew
        },
    }
}

/// The shell after a request to open.
pub open spec fn open_requested(state: MainWindowShellState) -> MainWindowShellState {
    match state.mode {
        WindowLifecycleMode::Destroying => MainWindowShellState { pending_open: true, ..state },
        WindowLifecycleMode::Destroyed => MainWindowShellState { pending_open: false, ..state },
        _ => state,
    }
}

/// What the end of the window's destruction does.
pub open spec fn destroyed_action(state: MainWindowShellState) -> MainWindowOpenAction {
    if state.pending_open {
        MainWindowOpenAction::BuildNew
    } else {
        MainWindowOpenAction::Noop
    }
}

/// The shell once destruction has ended.
pub open spec fn destroyed(state: MainWindowShellState) -> MainWindowShellState {
    MainWindowShellState {
        mode: WindowLifecycleMode::Destroyed,
        main_window_present: false,
        pending_open: false,
    }
}

/// Enters `Destroying` while the dying label may still be registered.
pub fn begin_close_to_tray_destroy(state: &mut MainWindowShellState)
    ensures
        *final(state) == destroying(*old(state)),
{
    state.mode = WindowLifecycleMode::Destroying;
}

/// Queues while the window is being destroyed, builds only when there is none, and never
/// reveals a dying label.
pub fn request_main_window_open(state: &mut MainWindowShellState) -> (action: MainWindowOpenAction)
    ensures
        action == open_action(*old(state)),
        *final(state) == open_requested(*old(state)),
{
    match state.mode {
        WindowLifecycleMode::Destroying => {
            state.pending_open = true;
            MainWindowOpenAction::QueueOpen
        },
        WindowLifecycleMode::Destroyed => {
            state.pending_open = false;
            MainWindowOpenAction::BuildNew
        },
        _ => if state.main_window_present {
            MainWindowOpenAction::RevealExisting
        } else {
            MainWindowOpenAction::BuildNew
        },
    }
}

/// Marks the window as gone, and builds one when an open was queued meanwhile.
pub fn observe_main_window_destroyed(state: &mut MainWindowShellState) -> (action:
    MainWindowOpenAction)
    ensures
        action == destroyed_action(*old(state)),
        *final(state) == destroyed(*old(state)),
{
    state.mode = WindowLifecycleMode::Destroyed;
    state.main_window_present = false;
    if state.pending_open {
        state.pending_open = false;
        MainWindowOpenAction::BuildNew
    } else {
        MainWindowOpenAction::Noop
    }
}

/// A window that is being or was destroyed is never the existing one, even while its
/// label is still registered.
pub fn main_window_open_target_for(mode: WindowLifecycleMode, main_window_present: bool) -> (target:
    MainWindowOpenTarget)
    ensures
        target == MainWindowOpenTarget::ExistingMain <==> main_window_present && mode
            != WindowLifecycleMode::Destroying && mode != WindowLifecycleMode::Destroyed,
{
    match mode {
        WindowLifecycleMode::Destroying
        | WindowLifecycleMode::Destroyed => MainWindowOpenTarget::NewMain,
        _ => main_window_open_target(main_window_present),
    }
}

/// A dying window is never revealed: from the moment destruction begins until it has
/// ended, opens are queued, and afterwards a new window is built.
pub proof fn law_dying_window_is_never_revealed(state: MainWindowShellState)
    ensures
        open_action(destroying(state)) == MainWindowOpenAction::QueueOpen,
        open_action(destroyed(state)) == MainWindowOpenAction::BuildNew,
        open_action(state) == MainWindowOpenAction::RevealExisting ==> state.main_window_present
            && state.mode != WindowLifecycleMode::Destroying && state.mode
            != WindowLifecycleMode::Destroyed,
{
}

/// Any number of opens during one destruction builds exactly one window when it ends,
/// and a second end of it builds none.
pub proof fn law_queued_opens_build_once(state: MainWindowShellState)
    ensures
        open_requested(open_requested(destroying(state))) == open_requested(destroying(state)),
        destroyed_action(open_requested(destroying(state))) == MainWindowOpenAction::BuildNew,
        destroyed_action(destroyed(open_requested(destroying(state))))
            == MainWindowOpenAction::Noop,
        !state.pending_open ==> destroyed_action(destroying(state)) == MainWindowOpenAction::Noop,
{
}

/// Everything that outlives a window: its lifecycle, a queued open, the readiness of its
/// frontend, and whether the repair notice was shown.
#[derive(Debug, Clone, Copy, PartialEq, Eq, Structural)]
pub struct MainWindowShell {
    pub lifecycle: WindowLifecycleState,
    pub pending_open: bool,
    pub readiness: FrontendReadinessState,
    pub repair_notice_shown: bool,
}

impl Default for MainWindowShell {
    fn default() -> (r: Self)
        ensures
            r.lifecycle.current == snapshot_at(0, WindowLifecycleMode::Destroyed),
            !r.pending_open,
            r.readiness.generation == 0,
            r.readiness.next_generation == 0,
            !r.repair_notice_shown,
    {
        MainWindowShell {
            lifecycle: WindowLifecycleState::default(),
            pending_open: false,
            readiness: FrontendReadinessState::default(),
            repair_notice_shown: false,
        }
    }
}

/// How closing to the tray goes on.
#[derive(Debug, Clone, Copy, PartialEq, Eq, Structural)]
pub enum SendToTray {
    /// The window is going or gone already.
    Skip,
    /// Stop the microphone test, cancel clipboard exports, publish the lifecycle, then
    /// destroy the live windows in the order of their labels.
    DestroyWindows { previous: WindowLifecycleMode, checkpoint: FrontendReadinessCheckpoint },
    /// Stop the microphone test, cancel clipboard exports, publish the lifecycle; there is
    /// no window to wait for.
    CompleteNow,
}

/// What the end of a destruction leads to.
#[derive(Debug, Clone, Copy, PartialEq, Eq, Structural)]
pub enum DestroyedOutcome {
    /// Other windows of the application still live.
    Deferred,
    /// The window is gone; the action follows.
    Complete(MainWindowOpenAction),
}

/// The decisive part of the shell.
pub open spec fn shell_state(shell: MainWindowShell, present: bool) -> MainWindowShellState {
    MainWindowShellState {
        mode: shell.lifecycle.current.mode,
        main_window_present: present,
        pending_open: shell.pending_open,
    }
}

/// Whether closing to the tray has nothing to do.
pub open spec fn tray_skips(shell: MainWindowShell, live_windows: nat) -> bool {
    ||| shell.lifecycle.current.mode == WindowLifecycleMode::Destroying
    ||| shell.lifecycle.current.mode == WindowLifecycleMode::Destroyed && live_windows == 0
}

/// The shell after closing to the tray began.
pub open spec fn sent_to_tray(shell: MainWindowShell, now_ms: u64) -> MainWindowShell {
    MainWindowShell {
        lifecycle: WindowLifecycleState {
            current: transitioned(shell.lifecycle.current, WindowLifecycleMode::Destroying),
        },
        readiness: cleared_for_destroy(shell.readiness, now_ms),
        repair_notice_shown: false,
        ..shell
    }
}

/// The shell after the destruction of the window failed.
pub open spec fn tray_failed(
    shell: MainWindowShell,
    previous: WindowLifecycleMode,
    checkpoint: FrontendReadinessCheckpoint,
) -> MainWindowShell {
    MainWindowShell {
        lifecycle: WindowLifecycleState { current: transitioned(shell.lifecycle.current, previous) },
        pending_open: false,
        readiness: restored(shell.readiness, checkpoint),
        ..shell
    }
}

impl MainWindowShell {
    /// Starts closing to the tray.
    pub fn begin_send_to_tray(&mut self, live_windows: usize, now_ms: u64) -> (plan: SendToTray)
        ensures
            if tray_skips(*old(self), live_windows as nat) {
                plan == SendToTray::Skip && *final(self) == *old(self)
            } else {
                &&& *final(self) == sent_to_tray(*old(self), now_ms)
                &&& plan == if live_windows == 0 {
                    SendToTray::CompleteNow
                } else {
                    SendToTray::DestroyWindows {
                        previous: old(self).lifecycle.current.mode,
                        checkpoint: checkpoint_of(old(self).readiness),
                    }
                }
            },
    {
        let previous = self.lifecycle.current.mode;
        if matches!(previous, WindowLifecycleMode::Destroying) {
            return SendToTray::Skip;
        }
        if matches!(previous, WindowLifecycleMode::Destroyed) && live_windows == 0 {
            return SendToTray::Skip;
        }
        let checkpoint = self.readiness.clear_for_destroy(now_ms);
        self.repair_notice_shown = false;
        let mut state = MainWindowShellState {
            mode: previous,
            main_window_present: live_windows > 0,
            pending_open: self.pending_open,
        };
        begin_close_to_tray_destroy(&mut state);
        self.pending_open = state.pending_open;
        self.lifecycle.transition(state.mode);
        if live_windows == 0 {
            SendToTray::CompleteNow
        } else {
            SendToTray::DestroyWindows { previous, checkpoint }
        }
    }

    /// Undoes the start of closing to the tray when a window could not be destroyed.
    pub fn send_to_tray_failed(
        &mut self,
        previous: WindowLifecycleMode,
        checkpoint: FrontendReadinessCheckpoint,
        label: &str,
        error: &str,
    ) -> (message: String)
        ensures
            *final(self) == tray_failed(*old(self), previous, checkpoint),
            message@ == "destroy main window "@ + label@ + ": "@ + error@,
    {
        self.readiness.restore_after_failed_destroy(checkpoint);
        self.pending_open = false;
        self.lifecycle.transition(previous);
        let mut message = concat3("destroy main window ", label, ": ");
        message.append(error);
        message
    }

    /// Ends the destruction once no window of the application is left.
    pub fn complete_main_window_destroyed(&mut self, remaining: usize) -> (outcome:
        DestroyedOutcome)
        ensures
            if remaining > 0 {
                outcome == DestroyedOutcome::Deferred && *final(self) == *old(self)
            } else {
                &&& outcome == DestroyedOutcome::Complete(
                    destroyed_action(shell_state(*old(self), false)),
                )
                &&& *final(self) == (MainWindowShell {
                    lifecycle: WindowLifecycleState {
                        current: transitioned(
                            old(self).lifecycle.current,
                            WindowLifecycleMode::Destroyed,
                        ),
                    },
                    pending_open: false,
                    ..*old(self)
                })
            },
    {
        if remaining > 0 {
            return DestroyedOutcome::Deferred;
        }
        let mut state = MainWindowShellState {
            mode: self.lifecycle.current.mode,
            main_window_present: false,
            pending_open: self.pending_open,
        };
        let action = observe_main_window_destroyed(&mut state);
        self.pending_open = state.pending_open;
        self.lifecycle.transition(WindowLifecycleMode::Destroyed);
        DestroyedOutcome::Complete(action)
    }

    /// Decides what a request to open does.
    pub fn open_main_window(&mut self, present: bool) -> (action: MainWindowOpenAction)
        ensures
            action == open_action(shell_state(*old(self), present)),
            *final(self) == (MainWindowShell {
                pending_open: open_requested(shell_state(*old(self), present)).pending_open,
                ..*old(self)
            }),
    {
        let mut state = MainWindowShellState {
            mode: self.lifecycle.current.mode,
            main_window_present: present,
            pending_open: self.pending_open,
        };
        let action = request_main_window_open(&mut state);
        self.pending_open = state.pending_open;
        action
    }

    /// Claims the repair notice: true for the first caller that has a reason to show it.
    pub fn claim_webview_repair_notice(&mut self, reason: WebviewRepairNoticeReason) -> (shown: bool)
        ensures
            shown == (!old(self).repair_notice_shown && worth_repair_notice(reason)),
            *final(self) == (MainWindowShell {
                repair_notice_shown: old(self).repair_notice_shown || shown,
                ..*old(self)
            }),
    {
        if !should_show_webview_repair_notice(reason, self.repair_notice_shown) {
            return false;
        }
        self.repair_notice_shown = true;
        true
    }
}

/// A window that could not be destroyed is in the mode and as ready as it was before,
/// with no open queued.
pub proof fn law_failed_tray_close_restores(shell: MainWindowShell, now_ms: u64)
    ensures
        ({
            let previous = shell.lifecycle.current.mode;
            let after = tray_failed(
                sent_to_tray(shell, now_ms),
                previous,
                checkpoint_of(shell.readiness),
            );
            &&& after.lifecycle.current.mode == previous
            &&& after.readiness == (FrontendReadinessState {
                destroy_started_ms: None,
                ..shell.readiness
            })
            &&& !after.pending_open
        }),
{
}

// ---------------------------------------------------------------------------
// Repair notice
// ---------------------------------------------------------------------------

#[derive(Debug, Clone, Copy, PartialEq, Eq, Structural)]
pub enum WebviewRepairNoticeReason {
    GetterFailedToReceiveMessage,
    FrontendReadyTimeout,
    OtherGetterError,
}

/// Reasons that point at a runtime that did not start.
pub open spec fn worth_repair_notice(reason: WebviewRepairNoticeReason) -> bool {
    ||| reason == WebviewRepairNoticeReason::GetterFailedToReceiveMessage
    ||| reason == WebviewRepairNoticeReason::FrontendReadyTimeout
}

/// Why a property of the window could not be read.
pub fn classify_webview_getter_error(failed_to_receive_message: bool) -> (reason:
    WebviewRepairNoticeReason)
    ensures
        reason == if failed_to_receive_message {
            WebviewRepairNoticeReason::GetterFailedToReceiveMessage
        } else {
            WebviewRepairNoticeReason::OtherGetterError
        },
{
    if failed_to_receive_message {
        WebviewRepairNoticeReason::GetterFailedToReceiveMessage
    } else {
        WebviewRepairNoticeReason::OtherGetterError
    }
}

pub fn should_show_webview_repair_notice(
    reason: WebviewRepairNoticeReason,
    already_shown: bool,
) -> (r: bool)
    ensures
        r == (!already_shown && worth_repair_notice(reason)),
{
    !already_shown && matches!(
        reason,
        WebviewRepairNoticeReason::GetterFailedToReceiveMessage
            | WebviewRepairNoticeReason::FrontendReadyTimeout
    )
}

// ---------------------------------------------------------------------------
// Requests of the user and of the system
// ---------------------------------------------------------------------------

#[derive(Debug, Clone, Copy, PartialEq, Eq, Structural)]
pub enum CloseRequestAction {
    Tray,
    Quit,
}

#[derive(Debug, Clone, Copy, PartialEq, Eq, Structural)]
pub enum MinimizeRequestAction {
    Taskbar,
    Tray,
}

#[derive(Debug, Clone, Copy, PartialEq, Eq, Structural)]
pub enum NativeWindowReconcileAction {
    Nothing,
    BackgroundTaskbar,
    RestoreTaskbar,
}

pub fn close_request_action(close_to_tray: bool) -> (action: CloseRequestAction)
    ensures
        action == CloseRequestAction::Tray <==> close_to_tray,
{
    if close_to_tray {
        CloseRequestAction::Tray
    } else {
        CloseRequestAction::Quit
    }
}

pub fn minimize_request_action(minimize_to_tray: bool) -> (action: MinimizeRequestAction)
    ensures
        action == MinimizeRequestAction::Tray <==> minimize_to_tray,
{
    if minimize_to_tray {
        MinimizeRequestAction::Tray
    } else {
        MinimizeRequestAction::Taskbar
    }
}

/// What brings the lifecycle in line with the native window.
pub fn native_window_reconcile_action(mode: WindowLifecycleMode, is_minimized: bool) -> (action:
    NativeWindowReconcileAction)
    ensures
        action == NativeWindowReconcileAction::BackgroundTaskbar <==> mode
            == WindowLifecycleMode::Foreground && is_minimized,
        action == NativeWindowReconcileAction::RestoreTaskbar <==> mode
            == WindowLifecycleMode::Taskbar && !is_minimized,
{
    match (mode, is_minimized) {
        (
            WindowLifecycleMode::Foreground,
            true,
        ) => NativeWindowReconcileAction::BackgroundTaskbar,
        (WindowLifecycleMode::Taskbar, false) => NativeWindowReconcileAction::RestoreTaskbar,
        _ => NativeWindowReconcileAction::Nothing,
    }
}

/// Only a window in the foreground or the task bar is compared with the native one.
pub fn reconciles_native_window(mode: WindowLifecycleMode) -> (r: bool)
    ensures
        r == (mode == WindowLifecycleMode::Foreground || mode == WindowLifecycleMode::Taskbar),
{
    !matches!(
        mode,
        WindowLifecycleMode::Tray | WindowLifecycleMode::Destroying | WindowLifecycleMode::Destroyed
    )
}

/// Clipboard exports are cancelled when the window goes away for good.
pub fn cancels_clipboard_exports(mode: WindowLifecycleMode) -> (r: bool)
    ensures
        r == (mode == WindowLifecycleMode::Destroying || mode == WindowLifecycleMode::Destroyed),
{
    matches!(mode, WindowLifecycleMode::Destroying | WindowLifecycleMode::Destroyed)
}

#[derive(Debug, Clone, Copy, PartialEq, Eq, Structural)]
pub enum MouseButton {
    Left,
    Right,
    Middle,
}

#[derive(Debug, Clone, Copy, PartialEq, Eq, Structural)]
pub enum MouseButtonState {
    Up,
    Down,
}

/// Releasing the left button over the tray icon opens the window.
pub fn should_open_on_tray_click(button: MouseButton, button_state: MouseButtonState) -> (r: bool)
    ensures
        r == (button == MouseButton::Left && button_state == MouseButtonState::Up),
{
    button == MouseButton::Left && button_state == MouseButtonState::Up
}

/// Events of a native window, as far as they are told apart.
#[derive(Debug, Clone, Copy, PartialEq, Eq, Structural)]
pub enum WindowEventKind {
    Moved,
    Resized,
    Focused,
    CloseRequested,
    Destroyed,
    Other,
}

pub fn should_log_window_event(event: WindowEventKind) -> (r: bool)
    ensures
        r == (event != WindowEventKind::Moved && event != WindowEventKind::Resized),
{
    !matches!(event, WindowEventKind::Moved | WindowEventKind::Resized)
}

pub fn should_reconcile_native_window_event(event: WindowEventKind) -> (r: bool)
    ensures
        r == (event == WindowEventKind::Focused || event == WindowEventKind::Resized),
{
    matches!(event, WindowEventKind::Focused | WindowEventKind::Resized)
}

/// What an event of the run loop leads to.
#[derive(Debug, Clone, Copy, PartialEq, Eq, Structural)]
pub enum RunAction {
    /// Prevent the close, then go to the tray or quit.
    Close(CloseRequestAction),
    /// End the destruction of the window.
    CompleteDestroyed,
    /// Bring the lifecycle in line with the native window.
    Reconcile,
    /// The application stays.
    PreventExit,
    /// Stop the microphone test, cancel clipboard exports, stop the recorder.
    ShutDown,
    Nothing,
}

/// Events of the run loop, as far as they are told apart.
#[derive(Debug, Clone, Copy, PartialEq, Eq, Structural)]
pub enum RunEventKind {
    Window { app_window: bool, event: WindowEventKind },
    ExitRequested { with_code: bool },
    Exit,
    Other,
}

/// Routes an event of the run loop.
pub fn run_event_action(event: RunEventKind, close_to_tray: bool) -> (action: RunAction)
    ensures
        action == match event {
            RunEventKind::Window { app_window: true, event: WindowEventKind::CloseRequested } =>
                RunAction::Close(
                if close_to_tray {
                    CloseRequestAction::Tray
                } else {
                    CloseRequestAction::Quit
                },
            ),
            RunEventKind::Window { app_window: true, event: WindowEventKind::Destroyed } =>
                RunAction::CompleteDestroyed,
            RunEventKind::Window { app_window: true, event: WindowEventKind::Focused } =>
                RunAction::Reconcile,
            RunEventKind::Window { app_window: true, event: WindowEventKind::Resized } =>
                RunAction::Reconcile,
            RunEventKind::ExitRequested { with_code: false } => RunAction::PreventExit,
            RunEventKind::Exit => RunAction::ShutDown,
            _ => RunAction::Nothing,
        },
{
    match event {
        RunEventKind::Window { app_window, event } => {
            if !app_window {
                RunAction::Nothing
            } else if matches!(event, WindowEventKind::CloseRequested) {
                RunAction::Close(close_request_action(close_to_tray))
            } else if matches!(event, WindowEventKind::Destroyed) {
                RunAction::CompleteDestroyed
            } else if should_reconcile_native_window_event(event) {
                RunAction::Reconcile
            } else {
                RunAction::Nothing
            }
        },
        RunEventKind::ExitRequested { with_code } => if with_code {
            RunAction::Nothing
        } else {
            RunAction::PreventExit
        },
        RunEventKind::Exit => RunAction::ShutDown,
        RunEventKind::Other => RunAction::Nothing,
    }
}

/// Entries of the tray menu.
#[derive(Debug, Clone, Copy, PartialEq, Eq, Structural)]
pub enum TrayMenuAction {
    Open,
    Save,
    Diagnostics,
    Quit,
    Unknown,
}

/// The entry of the tray menu with that identifier.
pub fn tray_menu_action(id: &str) -> (action: TrayMenuAction)
    ensures
        action == if id@ == "open"@ {
            TrayMenuAction::Open
        } else if id@ == "save"@ {
            TrayMenuAction::Save
        } else if id@ == "diagnostics"@ {
            TrayMenuAction::Diagnostics
        } else if id@ == "quit"@ {
            TrayMenuAction::Quit
        } else {
            TrayMenuAction::Unknown
        },
{
    if str_eq(id, "open") {
        TrayMenuAction::Open
    } else if str_eq(id, "save") {
        TrayMenuAction::Save
    } else if str_eq(id, "diagnostics") {
        TrayMenuAction::Diagnostics
    } else if str_eq(id, "quit") {
        TrayMenuAction::Quit
    } else {
        TrayMenuAction::Unknown
    }
}

// ---------------------------------------------------------------------------
// Showing and hiding
// ---------------------------------------------------------------------------

/// Single operations on the native window and the web view inside it.
#[derive(Debug, Clone, Copy, PartialEq, Eq, Structural)]
pub enum WindowStep {
    /// Let the web view use memory normally.
    RestoreMemoryTarget,
    /// Ask the web view to use little memory.
    LowerMemoryTarget,
    ShowWebview,
    HideWebview,
    Show,
    Hide,
    Unminimize,
    Focus,
    PublishForeground,
    PublishBackground,
}

/// The order in which a window is revealed. The web view becomes visible before the
/// native window, so that the first painted frame is real content; the frontend is told
/// before the window is focused.
pub open spec fn reveal_order() -> Seq<WindowStep> {
    seq![
        WindowStep::RestoreMemoryTarget,
        WindowStep::ShowWebview,
        WindowStep::Show,
        WindowStep::Unminimize,
        WindowStep::PublishForeground,
        WindowStep::Focus,
    ]
}

/// The steps that reveal the window; every one is tried, whatever the others gave.
pub fn reveal_main_window_steps() -> (steps: Vec<WindowStep>)
    ensures
        steps@ == reveal_order(),
{
    let mut steps: Vec<WindowStep> = Vec::new();
    steps.push(WindowStep::RestoreMemoryTarget);
    steps.push(WindowStep::ShowWebview);
    steps.push(WindowStep::Show);
    steps.push(WindowStep::Unminimize);
    steps.push(WindowStep::PublishForeground);
    steps.push(WindowStep::Focus);
    assert(steps@ =~= reveal_order());
    steps
}

/// The first error among the outcomes of showing, unminimising and focusing. Whether the
/// web view could be shown does not matter: refusing to reveal would leave the window
/// out of reach.
pub fn reveal_main_window(
    show: Result<(), String>,
    unminimize: Result<(), String>,
    focus: Result<(), String>,
) -> (res: Result<(), String>)
    ensures
        res == if show is Err {
            show
        } else if unminimize is Err {
            unminimize
        } else {
            focus
        },
{
    if show.is_err() {
        show
    } else if unminimize.is_err() {
        unminimize
    } else {
        focus
    }
}

/// The steps after the native window was hidden: only then is the web view throttled.
pub open spec fn hide_order() -> Seq<WindowStep> {
    seq![
        WindowStep::PublishBackground,
        WindowStep::HideWebview,
        WindowStep::LowerMemoryTarget,
    ]
}

fn hide_steps() -> (steps: Vec<WindowStep>)
    ensures
        steps@ == hide_order(),
{
    let mut steps: Vec<WindowStep> = Vec::new();
    steps.push(WindowStep::PublishBackground);
    steps.push(WindowStep::HideWebview);
    steps.push(WindowStep::LowerMemoryTarget);
    assert(steps@ =~= hide_order());
    steps
}

/// What follows the attempt to hide the native window: nothing where it failed, so a
/// window that is still visible never loses its content.
pub fn hide_main_window(hide: Result<(), String>) -> (res: Result<Vec<WindowStep>, String>)
    ensures
        match hide {
            Ok(_) => res matches Ok(steps) && steps@ == hide_order(),
            Err(error) => res == Err::<Vec<WindowStep>, String>(error),
        },
{
    match hide {
        Ok(_) => Ok(hide_steps()),
        Err(error) => Err(error),
    }
}

/// What follows the question whether the native window is minimised: where it is, it is
/// backgrounded.
pub fn background_if_native_minimized(is_minimized: Result<bool, String>) -> (res: Result<
    Vec<WindowStep>,
    String,
>)
    ensures
        match is_minimized {
            Ok(true) => res matches Ok(steps) && steps@ == hide_order(),
            Ok(false) => res matches Ok(steps) && steps@ == Seq::<WindowStep>::empty(),
            Err(error) => res == Err::<Vec<WindowStep>, String>(error),
        },
{
    match is_minimized {
        Ok(true) => Ok(hide_steps()),
        Ok(false) => Ok(Vec::new()),
        Err(error) => Err(error),
    }
}

/// The steps that bring a window back from the task bar: memory first, then the view.
pub open spec fn restore_order() -> Seq<WindowStep> {
    seq![WindowStep::RestoreMemoryTarget, WindowStep::ShowWebview]
}

pub fn restore_taskbar_steps() -> (steps: Vec<WindowStep>)
    ensures
        steps@ == restore_order(),
{
    let mut steps: Vec<WindowStep> = Vec::new();
    steps.push(WindowStep::RestoreMemoryTarget);
    steps.push(WindowStep::ShowWebview);
    assert(steps@ =~= restore_order());
    steps
}

/// What follows the attempt to show the web view again: the frontend is told, or memory
/// is lowered again and the error reported.
pub fn restore_taskbar_webview(show_webview: Result<(), String>) -> (r: (
    WindowStep,
    Result<(), String>,
))
    ensures
        r.1 == show_webview,
        r.0 == if show_webview is Ok {
            WindowStep::PublishForeground
        } else {
            WindowStep::LowerMemoryTarget
        },
{
    if show_webview.is_ok() {
        (WindowStep::PublishForeground, show_webview)
    } else {
        (WindowStep::LowerMemoryTarget, show_webview)
    }
}

/// A window is in the background exactly where it is not in the foreground. A change of the mode
/// counts one revision, as long as there is another number; where nothing changes nothing counts.
pub proof fn law_modes_are_counted(
    snapshot: WindowLifecycleSnapshot,
    mode: WindowLifecycleMode,
    revision: u64,
)
    ensures
        snapshot_at(revision, mode).backgrounded <==> mode !is Foreground,
        snapshot_at(revision, mode).mode == mode,
        snapshot_at(revision, mode).revision == revision,
        transitioned(snapshot, mode).mode == mode,
        snapshot.mode == mode ==> transitioned(snapshot, mode) == snapshot,
        snapshot.mode != mode ==> transitioned(snapshot, mode).backgrounded == (mode !is Foreground),
        snapshot.mode != mode && snapshot.revision < 0xffff_ffff_ffff_ffff ==> transitioned(
            snapshot,
            mode,
        ).revision == snapshot.revision + 1,
        snapshot.mode != mode && snapshot.revision == 0xffff_ffff_ffff_ffff ==> transitioned(
            snapshot,
            mode,
        ).revision == snapshot.revision,
{
}

/// A frontend is ready under the number that its window was begun with, once it said so, and not
/// before; a window that is being destroyed has none that is ready.
pub proof fn law_frontend_is_ready_once_it_said_so(
    s: FrontendReadinessState,
    generation: u64,
    now_ms: u64,
)
    requires
        s.wf(),
        s.next_generation < u64::MAX,
    ensures
        ({
            let begun = generation_begun(s);
            let said = FrontendReadinessState { ready_generation: begun.generation, ..begun };
            &&& begun.generation == s.next_generation + 1
            &&& !ready_in(begun, generation)
            &&& ready_in(said, generation) <==> generation == begun.generation
            &&& begun.destroy_started_ms is None
            &&& begun.watchdog_armed_generation == s.watchdog_armed_generation
        }),
        !ready_in(cleared_for_destroy(s, now_ms), generation),
        cleared_for_destroy(s, now_ms).destroy_started_ms == Some(now_ms),
        cleared_for_destroy(s, now_ms).next_generation == s.next_generation,
{
}

/// The watchdog fires exactly for the window that it was armed for, while that is the current one
/// and has not said that it is ready.
pub proof fn law_watchdog_fires_for_its_window(armed: u64, current: u64, ready: u64)
    ensures
        watchdog_fires(armed, current, ready) <==> armed > 0 && current == armed && !(ready == armed),
{
}

/// An open reveals the window that there is, builds one where there is none, and waits where the
/// window is being destroyed; a window that waits is built as soon as the other is gone.
pub proof fn law_opens_lead_to_a_window(state: MainWindowShellState)
    ensures
        state.mode is Destroying ==> open_action(state) is QueueOpen && open_requested(
            state,
        ).pending_open && destroyed_action(open_requested(state)) is BuildNew,
        state.mode is Destroyed ==> open_action(state) is BuildNew && !open_requested(
            state,
        ).pending_open,
        !(state.mode is Destroying) && !(state.mode is Destroyed) && state.main_window_present
            ==> open_action(state) is RevealExisting,
        !(state.mode is Destroying) && !(state.mode is Destroyed) && !state.main_window_present
            ==> open_action(state) is BuildNew,
        !(state.mode is Destroying) && !(state.mode is Destroyed) ==> open_requested(state) == state,
        open_requested(state).mode == state.mode,
        open_requested(state).main_window_present == state.main_window_present,
        !state.pending_open ==> destroyed_action(state) is Noop,
        destroyed(state).mode is Destroyed,
        !destroyed(state).main_window_present,
        !destroyed(state).pending_open,
        destroying(state).mode is Destroying,
        destroying(state).pending_open == state.pending_open,
        destroying(state).main_window_present == state.main_window_present,
{
}

/// A window is sent to the tray unless that is under way or done. Sending it there destroys it,
/// forgets that it was ready and that a notice was shown, and keeps an open that waits.
pub proof fn law_tray_destroys_the_window(shell: MainWindowShell, live_windows: nat, now_ms: u64)
    ensures
        tray_skips(shell, live_windows) <==> shell.lifecycle.current.mode is Destroying || (
        shell.lifecycle.current.mode is Destroyed && live_windows == 0),
        ({
            let sent = sent_to_tray(shell, now_ms);
            &&& sent.lifecycle.current.mode is Destroying
            &&& sent.readiness.generation == 0
            &&& sent.readiness.destroy_started_ms == Some(now_ms)
            &&& sent.readiness.ready_generation == shell.readiness.ready_generation
            &&& sent.readiness.next_generation == shell.readiness.next_generation
            &&& !sent.repair_notice_shown
            &&& sent.pending_open == shell.pending_open
        }),
{
}

/// A notice about the runtime is worth showing where it did not answer or did not get ready in
/// time, and for no other error.
pub proof fn law_repair_notice_is_for_a_runtime_that_hangs(reason: WebviewRepairNoticeReason)
    ensures
        worth_repair_notice(reason) <==> !(reason is OtherGetterError),
{
}

/// A window is revealed with its memory and its content before it is shown, told to be in the
/// foreground before it is focused, and nothing is done twice; what hides it is undone.
pub proof fn law_steps_of_a_window()
    ensures
        reveal_order().len() == 6,
        reveal_order()[0] is RestoreMemoryTarget,
        reveal_order()[1] is ShowWebview,
        reveal_order()[2] is Show,
        reveal_order()[3] is Unminimize,
        reveal_order()[4] is PublishForeground,
        reveal_order()[5] is Focus,
        hide_order().len() == 3,
        hide_order()[0] is PublishBackground,
        hide_order()[1] is HideWebview,
        hide_order()[2] is LowerMemoryTarget,
        restore_order().len() == 2,
        restore_order()[0] is RestoreMemoryTarget,
        restore_order()[1] is ShowWebview,
{
}

/// What is decided of the window goes by the mode of the shell, by whether there is a window, and
/// by whether an open is still to come.
pub proof fn law_decisive_parts_of_the_shell(shell: MainWindowShell, present: bool)
    ensures
        shell_state(shell, present).mode == shell.lifecycle.current.mode,
        shell_state(shell, present).main_window_present <==> present,
        shell_state(shell, present).pending_open <==> shell.pending_open,
{
}

} // verus!
