//! Microphone tests: one at a time, and only the latest may report.

use crate::text::concat2;
use crate::window::{ensure_foreground_microphone_test, WindowLifecycleMode};
use vstd::prelude::*;

verus! {

/// A running test: its generation and the channel that stops its worker.
#[derive(Debug, Clone, Copy, PartialEq, Eq, Structural)]
pub struct MicTestSession {
    pub generation: u64,
    pub stop_channel: u64,
}

#[derive(Debug, Clone, Copy, PartialEq, Eq, Structural)]
pub struct MicTestState {
    pub last_generation: u64,
    pub active: Option<MicTestSession>,
}

impl Default for MicTestState {
    fn default() -> (r: Self)
        ensures
            r == (MicTestState { last_generation: 0, active: None }),
    {
        MicTestState { last_generation: 0, active: None }
    }
}

/// The generation after another: never zero.
pub open spec fn next_test_generation(last: u64) -> u64 {
    if last == u64::MAX {
        1
    } else {
        (last + 1) as u64
    }
}

/// Whether the running test is of that generation.
pub open spec fn owns_test(state: MicTestState, generation: u64) -> bool {
    state.active is Some && state.active->0.generation == generation
}

/// The state once a test has begun.
pub open spec fn test_begun(state: MicTestState, stop_channel: u64) -> MicTestState {
    MicTestState {
        last_generation: next_test_generation(state.last_generation),
        active: Some(
            MicTestSession {
                generation: next_test_generation(state.last_generation),
                stop_channel,
            },
        ),
    }
}

/// The state once a test of that generation has ended.
pub open spec fn test_finished(state: MicTestState, generation: u64) -> MicTestState {
    if owns_test(state, generation) {
        MicTestState { active: None, ..state }
    } else {
        state
    }
}

/// The channel of the running test.
pub open spec fn running_channel(state: MicTestState) -> Option<u64> {
    match state.active {
        Some(session) => Some(session.stop_channel),
        None => None,
    }
}

impl MicTestState {
    /// Begins a test. Gives back its generation and the channel of the test that it
    /// replaces, which is stopped.
    pub fn begin(&mut self, stop_channel: u64) -> (r: (u64, Option<u64>))
        ensures
            *final(self) == test_begun(*old(self), stop_channel),
            r.0 == next_test_generation(old(self).last_generation),
            r.1 == running_channel(*old(self)),
    {
        let wrapped: u64 = self.last_generation.wrapping_add(1);
        let generation: u64 = if wrapped == 0 {
            1
        } else {
            wrapped
        };
        let replaced = match self.active {
            Some(session) => Some(session.stop_channel),
            None => None,
        };
        self.last_generation = generation;
        self.active = Some(MicTestSession { generation, stop_channel });
        (generation, replaced)
    }

    pub fn is_active(&self, generation: u64) -> (r: bool)
        ensures
            r == owns_test(*self, generation),
    {
        match self.active {
            Some(session) => session.generation == generation,
            None => false,
        }
    }

    /// Runs a publication while this generation still owns the session.
    pub fn publish_if_active<P: FnOnce()>(&self, generation: u64, publish: P) -> (published: bool)
        requires
            owns_test(*self, generation) ==> call_requires(publish, ()),
        ensures
            published == owns_test(*self, generation),
            published ==> call_ensures(publish, (), ()),
    {
        if !self.is_active(generation) {
            return false;
        }
        publish();
        true
    }

    /// Ends the session where this generation still owns it, and runs `finish` then.
    pub fn finish_if_active_with<F: FnOnce()>(&mut self, generation: u64, finish: F) -> (finished:
        bool)
        requires
            owns_test(*old(self), generation) ==> call_requires(finish, ()),
        ensures
            finished == owns_test(*old(self), generation),
            *final(self) == test_finished(*old(self), generation),
            finished ==> call_ensures(finish, (), ()),
    {
        if !self.is_active(generation) {
            return false;
        }
        self.active = None;
        finish();
        true
    }

    pub fn finish_if_active(&mut self, generation: u64) -> (finished: bool)
        ensures
            finished == owns_test(*old(self), generation),
            *final(self) == test_finished(*old(self), generation),
    {
        if !self.is_active(generation) {
            return false;
        }
        self.active = None;
        true
    }

    /// Ends the session, and gives back the channel of the worker to stop.
    pub fn stop(&mut self) -> (channel: Option<u64>)
        ensures
            channel == running_channel(*old(self)),
            *final(self) == (MicTestState { active: None, ..*old(self) }),
    {
        let channel = match self.active {
            Some(session) => Some(session.stop_channel),
            None => None,
        };
        self.active = None;
        channel
    }
}

/// What a look at the stop channel gave.
#[derive(Debug, Clone, Copy, PartialEq, Eq, Structural)]
pub enum StopSignal {
    Received,
    Empty,
    Disconnected,
}

/// A worker stops when it is told to and when nobody is left to tell it.
pub fn mic_test_should_stop(signal: StopSignal) -> (r: bool)
    ensures
        r == (signal != StopSignal::Empty),
{
    match signal {
        StopSignal::Received | StopSignal::Disconnected => true,
        StopSignal::Empty => false,
    }
}

#[derive(Debug, Clone, Copy, PartialEq, Eq, Structural)]
pub enum ChannelMode {
    Mono,
    Stereo,
}

/// A test to run: its generation and channels, and the worker to stop first.
#[derive(Debug, Clone, Copy, PartialEq, Eq, Structural)]
pub struct MicTestStart {
    pub generation: u64,
    pub channels: ChannelMode,
    pub replaced_channel: Option<u64>,
}

/// A refused test, and the worker that it stopped all the same.
#[derive(Debug, PartialEq, Eq)]
pub struct MicTestRefusal {
    pub message: String,
    pub replaced_channel: Option<u64>,
}

/// Starts a test while the window is in the foreground. The mode is looked at twice,
/// before and after the session was taken: a window that went to the background
/// meanwhile keeps no session.
pub fn start_microphone_test(
    state: &mut MicTestState,
    mode_before: WindowLifecycleMode,
    mode_after: WindowLifecycleMode,
    stop_channel: u64,
    mono: bool,
) -> (res: Result<MicTestStart, MicTestRefusal>)
    ensures
        match res {
            Ok(start) => {
                &&& mode_before == WindowLifecycleMode::Foreground
                &&& mode_after == WindowLifecycleMode::Foreground
                &&& *final(state) == test_begun(*old(state), stop_channel)
                &&& start == (MicTestStart {
                    generation: final(state).last_generation,
                    channels: if mono {
                        ChannelMode::Mono
                    } else {
                        ChannelMode::Stereo
                    },
                    replaced_channel: running_channel(*old(state)),
                })
            },
            Err(refusal) => {
                &&& refusal.message@
                    == "microphone test is unavailable while Clipline is backgrounded"@
                &&& if mode_before != WindowLifecycleMode::Foreground {
                    *final(state) == *old(state) && refusal.replaced_channel is None
                } else {
                    &&& mode_after != WindowLifecycleMode::Foreground
                    &&& *final(state) == (MicTestState {
                        active: None,
                        ..test_begun(*old(state), stop_channel)
                    })
                    &&& refusal.replaced_channel == running_channel(*old(state))
                }
            },
        },
{
    if let Err(message) = ensure_foreground_microphone_test(mode_before) {
        return Err(MicTestRefusal { message, replaced_channel: None });
    }
    let channels = if mono {
        ChannelMode::Mono
    } else {
        ChannelMode::Stereo
    };
    let (generation, replaced_channel) = state.begin(stop_channel);
    if let Err(message) = ensure_foreground_microphone_test(mode_after) {
        state.finish_if_active(generation);
        return Err(MicTestRefusal { message, replaced_channel });
    }
    Ok(MicTestStart { generation, channels, replaced_channel })
}

/// Gives the session back when its worker could not be started.
pub fn mic_test_worker_failed(state: &mut MicTestState, generation: u64, error: &str) -> (message:
    String)
    ensures
        *final(state) == test_finished(*old(state), generation),
        message@ == "could not start microphone test thread: "@ + error@,
{
    state.finish_if_active(generation);
    concat2("could not start microphone test thread: ", error)
}

/// Only the latest test may report: once another began, the one before it neither
/// publishes nor ends the session of its successor.
pub proof fn law_only_latest_test_reports(state: MicTestState, stop_channel: u64, earlier: u64)
    requires
        owns_test(state, earlier),
        earlier == state.last_generation,
    ensures
        !owns_test(test_begun(state, stop_channel), earlier),
        test_finished(test_begun(state, stop_channel), earlier) == test_begun(state, stop_channel),
{
}

/// A new test takes over: it alone is active, under a number other than the one before it, and
/// what stops it is known; the one that ran is handed back to be stopped.
pub proof fn law_new_test_takes_over(state: MicTestState, stop_channel: u64, generation: u64)
    ensures
        owns_test(test_begun(state, stop_channel), generation) <==> generation == test_begun(
            state,
            stop_channel,
        ).last_generation,
        test_begun(state, stop_channel).last_generation != state.last_generation,
        test_begun(state, stop_channel).last_generation != 0,
        state.last_generation < u64::MAX ==> test_begun(state, stop_channel).last_generation
            == state.last_generation + 1,
        running_channel(test_begun(state, stop_channel)) == Some(stop_channel),
        state.active is None ==> running_channel(state) is None,
        state.active matches Some(session) ==> running_channel(state) == Some(session.stop_channel),
{
}

/// A test is ended by its own number and by no other.
pub proof fn law_test_ends_under_its_number(state: MicTestState, generation: u64)
    ensures
        test_finished(state, generation).last_generation == state.last_generation,
        test_finished(state, generation).active is None <==> state.active is None || (
        state.active->0).generation == generation,
        state.active is Some && (state.active->0).generation != generation ==> test_finished(
            state,
            generation,
        ) == state,
{
}

/// Every test has a number of its own, one above the last and never zero.
pub proof fn law_tests_are_numbered(last: u64)
    ensures
        next_test_generation(last) > 0,
        next_test_generation(last) != last,
        last < 0xffff_ffff_ffff_ffff ==> next_test_generation(last) == last + 1,
        last == 0xffff_ffff_ffff_ffff ==> next_test_generation(last) == 1,
{
}

} // verus!
