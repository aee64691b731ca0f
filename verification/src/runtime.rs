//! The recorder's control state: which recording service is current, whether one is
//! wanted, and what blocks it.

use crate::detection::{record_osu_title_event, title_views, trail_after, OsuTitleEvent};
use crate::encoders::{contains_codec, Codec};
use crate::game_identity::GameIdentity;
use crate::gc::{deletable, is_next_clip, QuotaDeletion, StoredClip};
use crate::settings::{
    active_game_still_configured, game_recording_mode_changed, mode_changed, same_detection,
    same_game_window, same_settings, same_window, still_configured, AppSettings, CloudSettings,
    DetectedGame, GameRecordingMode, OsuApiSettings,
};
use crate::text::{clone_opt, concat2, concat3, str_eq, views};
use vstd::prelude::*;

verus! {

/// Two triggers of a save within this time count as one.
pub const DOUBLE_TRIGGER_DEBOUNCE_NS: u64 = 150_000_000;

// ---------------------------------------------------------------------------
// What the recording service is given and what it reports
// ---------------------------------------------------------------------------

/// Stands for the channel on which one recording service takes commands.
#[derive(Debug, Clone, Copy, PartialEq, Eq, Structural)]
pub struct ServiceHandle {
    pub id: u64,
}

/// A command to a recording service.
#[derive(Debug, Clone, Copy, PartialEq, Eq, Structural)]
pub enum Cmd {
    Save,
    StartFullSession,
    StopFullSession,
    Stop { announce: bool },
}

#[derive(Debug, Clone, Copy, PartialEq, Eq, Structural)]
pub enum RecordingMode {
    ReplaysOnly,
    FullSession,
}

/// What is captured.
#[derive(Debug, PartialEq, Eq)]
pub enum CaptureSource {
    PrimaryMonitor,
    WindowTitle { title: String },
    WindowHandle { hwnd: i64, title: String },
}

/// The game that a recording belongs to.
#[derive(Debug, PartialEq, Eq)]
pub struct ActiveGame {
    pub identity: GameIdentity,
    pub name: String,
    pub exe_path: Option<String>,
}

/// What a recording service is started with.
#[derive(Debug, PartialEq, Eq)]
pub struct ServiceOptions {
    pub fps: u32,
    pub lol_url: Option<String>,
    pub capture_source: CaptureSource,
    pub recording_mode: RecordingMode,
    pub decodable_codecs: Vec<Codec>,
    pub active_game: Option<ActiveGame>,
    pub recover_abandoned_recordings: bool,
}

/// The state of a recorder. The times and sizes of its buffer are the bit patterns of
/// floating-point numbers, which are only carried through.
#[derive(Debug, PartialEq, Eq)]
pub struct RecorderStatus {
    pub recording: bool,
    pub waiting_for_game: bool,
    pub segments: usize,
    pub buffered_s_bits: u64,
    pub buffered_mb_bits: u64,
    pub full_session: bool,
    pub encoder: String,
    pub capture_backend: String,
}

impl Clone for RecorderStatus {
    fn clone(&self) -> (r: Self)
        ensures
            r == *self,
    {
        RecorderStatus {
            recording: self.recording,
            waiting_for_game: self.waiting_for_game,
            segments: self.segments,
            buffered_s_bits: self.buffered_s_bits,
            buffered_mb_bits: self.buffered_mb_bits,
            full_session: self.full_session,
            encoder: self.encoder.clone(),
            capture_backend: self.capture_backend.clone(),
        }
    }
}

/// The media folder has no room for what is to be recorded.
#[derive(Debug, Clone, Copy, PartialEq, Eq, Structural)]
pub struct QuotaFull {
    pub total_bytes: u64,
    pub quota_bytes: u64,
    pub required_bytes: u64,
}

/// How full the media folder is.
#[derive(Debug, Clone, Copy, PartialEq, Eq, Structural)]
pub struct StorageStatus {
    pub total_bytes: u64,
    pub quota_bytes: Option<u64>,
    pub over_quota: bool,
}

/// A clip that was written.
#[derive(Debug, PartialEq, Eq)]
pub struct SavedClip {
    pub path: String,
    pub seconds_bits: u64,
    pub full_session: bool,
    pub recording_start_unix: Option<i64>,
    pub recording_end_unix: Option<i64>,
    pub storage: StorageStatus,
}

/// What a recording service reports.
#[derive(Debug, PartialEq, Eq)]
pub enum ServiceEvent {
    Status(RecorderStatus),
    Saved(SavedClip),
    StorageQuotaFull(QuotaFull),
    Error { message: String },
    MediaRootResolved { path: String },
}

/// The recorder is ready and waits for a game.
pub open spec fn is_waiting_status(status: RecorderStatus) -> bool {
    &&& !status.recording
    &&& status.waiting_for_game
    &&& status.segments == 0
    &&& status.buffered_s_bits == 0
    &&& status.buffered_mb_bits == 0
    &&& !status.full_session
    &&& status.encoder@.len() == 0
    &&& status.capture_backend@.len() == 0
}

pub fn waiting_for_game_status() -> (status: RecorderStatus)
    ensures
        is_waiting_status(status),
{
    RecorderStatus {
        recording: false,
        waiting_for_game: true,
        segments: 0,
        buffered_s_bits: 0,
        buffered_mb_bits: 0,
        full_session: false,
        encoder: String::new(),
        capture_backend: String::new(),
    }
}

/// Whether the settings let the recorder run: always, unless it is to pause while no game
/// is detected.
pub open spec fn policy_runs(settings: AppSettings, game: Option<DetectedGame>) -> bool {
    !settings.games.auto_detect || !settings.games.pause_when_no_game || game is Some
}

pub fn recorder_should_run(settings: &AppSettings, active_game: &Option<DetectedGame>) -> (r: bool)
    ensures
        r == policy_runs(*settings, *active_game),
{
    !settings.games.auto_detect || !settings.games.pause_when_no_game || active_game.is_some()
}

/// The generation after `generation`; the counter wraps around.
pub open spec fn next_generation(generation: u64) -> u64 {
    if generation == u64::MAX {
        0
    } else {
        (generation + 1) as u64
    }
}

fn advance(generation: u64) -> (next: u64)
    ensures
        next == next_generation(generation),
{
    generation.wrapping_add(1)
}

// ---------------------------------------------------------------------------
// Options
// ---------------------------------------------------------------------------

/// The recording mode that a game asks for.
pub open spec fn mode_of(mode: GameRecordingMode) -> RecordingMode {
    match mode {
        GameRecordingMode::ReplaysOnly => RecordingMode::ReplaysOnly,
        GameRecordingMode::FullSession => RecordingMode::FullSession,
    }
}

/// `options` is what `base`, the options of the settings alone, becomes for a game.
pub open spec fn options_suit(
    options: ServiceOptions,
    base: ServiceOptions,
    game: Option<DetectedGame>,
    codecs: Seq<Codec>,
) -> bool {
    &&& options.fps == base.fps
    &&& options.lol_url == base.lol_url
    &&& options.recover_abandoned_recordings == base.recover_abandoned_recordings
    &&& options.decodable_codecs@ == codecs
    &&& match game {
        Some(game) => {
            &&& options.capture_source == CaptureSource::WindowHandle {
                hwnd: game.hwnd,
                title: game.window_title,
            }
            &&& options.recording_mode == mode_of(game.recording_mode)
            &&& options.active_game == Some(
                ActiveGame { identity: game.identity, name: game.name, exe_path: game.exe_path },
            )
        },
        None => {
            &&& options.capture_source == base.capture_source
            &&& options.recording_mode == base.recording_mode
            &&& options.active_game == base.active_game
        },
    }
}

/// `options` is what a service is started with: a session that was asked for by hand is
/// recorded in full.
pub open spec fn options_planned(
    options: ServiceOptions,
    base: ServiceOptions,
    game: Option<DetectedGame>,
    codecs: Seq<Codec>,
    manual: bool,
) -> bool {
    exists|plain: ServiceOptions| #[trigger]
        options_suit(plain, base, game, codecs) && options == if manual {
            ServiceOptions { recording_mode: RecordingMode::FullSession, ..plain }
        } else {
            plain
        }
}

/// `options` is what a service that replaces another is started with: it leaves the files
/// of abandoned recordings alone.
pub open spec fn options_for_restart(
    options: ServiceOptions,
    base: ServiceOptions,
    game: Option<DetectedGame>,
    codecs: Seq<Codec>,
    manual: bool,
) -> bool {
    exists|first: ServiceOptions| #[trigger]
        options_planned(first, base, game, codecs, manual) && options == (ServiceOptions {
            recover_abandoned_recordings: false,
            ..first
        })
}

fn clone_codecs(codecs: &Vec<Codec>) -> (r: Vec<Codec>)
    ensures
        r@ == codecs@,
{
    let mut out: Vec<Codec> = Vec::new();
    let mut i: usize = 0;
    while i < codecs.len()
        invariant
            i <= codecs@.len(),
            out@ == codecs@.take(i as int),
        decreases codecs@.len() - i,
    {
        out.push(codecs[i]);
        i += 1;
        assert(codecs@.take(i as int) =~= codecs@.take(i - 1).push(codecs@[i - 1]));
    }
    assert(codecs@.take(i as int) =~= codecs@);
    out
}

/// The codecs that the frontend can play, in the order in which it first names them.
/// H.264 always comes first; names that are not known are passed over.
pub open spec fn decodable(keys: Seq<Seq<char>>) -> Seq<Codec>
    decreases keys.len(),
{
    if keys.len() == 0 {
        seq![Codec::H264]
    } else {
        let before = decodable(keys.drop_last());
        if keys.last() == "hevc"@ && !before.contains(Codec::Hevc) {
            before.push(Codec::Hevc)
        } else if keys.last() == "av1"@ && !before.contains(Codec::Av1) {
            before.push(Codec::Av1)
        } else {
            before
        }
    }
}

/// The options for a game, from `base`, those of the settings alone.
pub fn options_for(
    base: Result<ServiceOptions, String>,
    active_game: &Option<DetectedGame>,
    decodable_codecs: &Vec<Codec>,
) -> (res: Result<ServiceOptions, String>)
    ensures
        match base {
            Ok(base) => res is Ok && options_suit(
                res->Ok_0,
                base,
                *active_game,
                decodable_codecs@,
            ),
            Err(error) => res == Err::<ServiceOptions, String>(error),
        },
{
    match base {
        Ok(mut options) => {
            options.decodable_codecs = clone_codecs(decodable_codecs);
            if let Some(game) = active_game {
                options.capture_source = CaptureSource::WindowHandle {
                    hwnd: game.hwnd,
                    title: game.window_title.clone(),
                };
                options.recording_mode = match game.recording_mode {
                    GameRecordingMode::ReplaysOnly => RecordingMode::ReplaysOnly,
                    GameRecordingMode::FullSession => RecordingMode::FullSession,
                };
                options.active_game = Some(
                    ActiveGame {
                        identity: game.identity.clone(),
                        name: game.name.clone(),
                        exe_path: clone_opt(&game.exe_path),
                    },
                );
            }
            Ok(options)
        },
        Err(error) => Err(error),
    }
}

fn planned_options(
    base: Result<ServiceOptions, String>,
    active_game: &Option<DetectedGame>,
    decodable_codecs: &Vec<Codec>,
    manual: bool,
) -> (res: Result<ServiceOptions, String>)
    ensures
        match base {
            Ok(base) => res is Ok && options_planned(
                res->Ok_0,
                base,
                *active_game,
                decodable_codecs@,
                manual,
            ),
            Err(error) => res == Err::<ServiceOptions, String>(error),
        },
{
    match options_for(base, active_game, decodable_codecs) {
        Ok(plain) => {
            let ghost suited = plain;
            let mut options = plain;
            if manual {
                options.recording_mode = RecordingMode::FullSession;
            }
            assert(options_suit(suited, base->Ok_0, *active_game, decodable_codecs@));
            Ok(options)
        },
        Err(error) => Err(error),
    }
}

fn restart_options(
    base: Result<ServiceOptions, String>,
    active_game: &Option<DetectedGame>,
    decodable_codecs: &Vec<Codec>,
    manual: bool,
) -> (res: Result<ServiceOptions, String>)
    ensures
        match base {
            Ok(base) => res is Ok && options_for_restart(
                res->Ok_0,
                base,
                *active_game,
                decodable_codecs@,
                manual,
            ),
            Err(error) => res == Err::<ServiceOptions, String>(error),
        },
{
    match planned_options(base, active_game, decodable_codecs, manual) {
        Ok(first) => {
            let ghost planned = first;
            let mut options = first;
            options.recover_abandoned_recordings = false;
            assert(options_planned(planned, base->Ok_0, *active_game, decodable_codecs@, manual));
            Ok(options)
        },
        Err(error) => Err(error),
    }
}

// ---------------------------------------------------------------------------
// The state
// ---------------------------------------------------------------------------

/// The control state. `tx` is the current service; a service is told apart from its
/// predecessors by the generation under which it was installed.
#[derive(Debug, PartialEq, Eq)]
pub struct RuntimeState {
    pub tx: Option<ServiceHandle>,
    pub recording_generation: u64,
    pub recording_desired: bool,
    pub manual_full_session_desired: bool,
    pub settings: AppSettings,
    pub lol_url: Option<String>,
    pub active_game: Option<DetectedGame>,
    pub osu_title_events: Vec<OsuTitleEvent>,
    pub last_save_request_ns: Option<u64>,
    pub decodable_codecs: Vec<Codec>,
    pub last_recorder_status: Option<RecorderStatus>,
    pub last_storage_status: Option<StorageStatus>,
    pub recent_recorder_error: bool,
    pub quota_blocked: Option<QuotaFull>,
}

/// A new service takes over.
pub open spec fn installed(s: RuntimeState, tx: ServiceHandle) -> RuntimeState {
    RuntimeState {
        tx: Some(tx),
        recording_generation: next_generation(s.recording_generation),
        recording_desired: true,
        last_save_request_ns: None,
        ..s
    }
}

/// The current service is taken out, and nothing that was planned before counts any more.
pub open spec fn detached(s: RuntimeState) -> RuntimeState {
    RuntimeState {
        tx: None,
        recording_generation: next_generation(s.recording_generation),
        last_save_request_ns: None,
        ..s
    }
}

/// Recording was stopped by the user.
pub open spec fn stopped(s: RuntimeState) -> RuntimeState {
    RuntimeState { recording_desired: false, manual_full_session_desired: false, ..detached(s) }
}

/// Whether `generation` is that of the service that runs.
pub open spec fn is_current(s: RuntimeState, generation: u64) -> bool {
    s.recording_generation == generation && s.tx is Some
}

/// Whether a service is wanted under these settings with this game.
pub open spec fn wants_service(
    s: RuntimeState,
    settings: AppSettings,
    game: Option<DetectedGame>,
) -> bool {
    s.recording_desired && s.quota_blocked is None && (s.manual_full_session_desired
        || policy_runs(settings, game))
}

/// Whether the recorder is armed and only waits for a game.
pub open spec fn awaits_game(
    s: RuntimeState,
    settings: AppSettings,
    game: Option<DetectedGame>,
) -> bool {
    s.recording_desired && s.quota_blocked is None && !wants_service(s, settings, game)
}

/// Whether a service that was planned under `generation` may still take over.
pub open spec fn accepts_restart(s: RuntimeState, generation: u64) -> bool {
    s.recording_desired && s.quota_blocked is None && s.recording_generation == generation
        && s.tx is None
}

/// Whether a wait that began under `generation` is still on.
pub open spec fn still_waiting(s: RuntimeState, generation: u64) -> bool {
    s.recording_generation == generation && s.recording_desired && s.tx is None
        && !s.manual_full_session_desired && !policy_runs(s.settings, s.active_game)
}

/// A restart of the service that was decided on: the service to stop, what its successor
/// is started with and under which generation, and the generation of the wait for a game.
#[derive(Debug, PartialEq, Eq)]
pub struct PreparedServiceRestart {
    pub old_tx: Option<ServiceHandle>,
    pub replacement: Option<(ServiceOptions, u64)>,
    pub waiting_for_game: bool,
    pub waiting_generation: Option<u64>,
}

/// `prepared` is the restart that `s` asks for.
pub open spec fn is_prepared(
    prepared: PreparedServiceRestart,
    s: RuntimeState,
    base: Result<ServiceOptions, String>,
) -> bool {
    let generation = next_generation(s.recording_generation);
    &&& prepared.old_tx == s.tx
    &&& match prepared.replacement {
        Some((options, planned)) => {
            &&& wants_service(s, s.settings, s.active_game)
            &&& planned == generation
            &&& base is Ok
            &&& options_for_restart(
                options,
                base->Ok_0,
                s.active_game,
                s.decodable_codecs@,
                s.manual_full_session_desired,
            )
        },
        None => !wants_service(s, s.settings, s.active_game),
    }
    &&& prepared.waiting_for_game == awaits_game(s, s.settings, s.active_game)
    &&& prepared.waiting_generation == if prepared.waiting_for_game {
        Some(generation)
    } else {
        None
    }
}

/// Whether preparing a restart fails: a service is wanted and the settings give no options.
pub open spec fn restart_fails(s: RuntimeState, base: Result<ServiceOptions, String>) -> bool {
    wants_service(s, s.settings, s.active_game) && base is Err
}

/// What is left when preparing a restart failed: the service that runs, or, where one was
/// just being started, nothing of it.
pub open spec fn after_failed_restart(s: RuntimeState) -> RuntimeState {
    RuntimeState {
        recording_generation: if s.tx is None {
            next_generation(s.recording_generation)
        } else {
            s.recording_generation
        },
        ..s
    }
}

impl RuntimeState {
    pub fn new(settings: AppSettings, lol_url: Option<String>) -> (s: Self)
        ensures
            s.tx is None,
            s.recording_generation == 0,
            !s.recording_desired,
            !s.manual_full_session_desired,
            s.settings == settings,
            s.lol_url == lol_url,
            s.active_game is None,
            s.osu_title_events@.len() == 0,
            s.last_save_request_ns is None,
            s.decodable_codecs@ == seq![Codec::H264],
            s.last_recorder_status is None,
            s.last_storage_status is None,
            !s.recent_recorder_error,
            s.quota_blocked is None,
    {
        let mut decodable_codecs: Vec<Codec> = Vec::new();
        decodable_codecs.push(Codec::H264);
        RuntimeState {
            tx: None,
            recording_generation: 0,
            recording_desired: false,
            manual_full_session_desired: false,
            settings,
            lol_url,
            active_game: None,
            osu_title_events: Vec::new(),
            last_save_request_ns: None,
            decodable_codecs,
            last_recorder_status: None,
            last_storage_status: None,
            recent_recorder_error: false,
            quota_blocked: None,
        }
    }

    pub fn install_recording_sender(&mut self, tx: ServiceHandle) -> (generation: u64)
        ensures
            *final(self) == installed(*old(self), tx),
            generation == final(self).recording_generation,
    {
        self.recording_generation = advance(self.recording_generation);
        self.recording_desired = true;
        self.tx = Some(tx);
        self.last_save_request_ns = None;
        self.recording_generation
    }

    /// A status of the service of `generation`. Only that of the current one is accepted;
    /// where it has stopped, it is taken out, and nothing is wanted any more unless the
    /// quota stopped it.
    pub fn accept_service_status(&mut self, generation: u64, recording: bool) -> (accepted: bool)
        ensures
            accepted == is_current(*old(self), generation),
            *final(self) == if !accepted || recording {
                *old(self)
            } else if old(self).quota_blocked is None {
                stopped(*old(self))
            } else {
                detached(*old(self))
            },
    {
        if self.recording_generation != generation || self.tx.is_none() {
            return false;
        }
        if !recording {
            self.tx = None;
            if self.quota_blocked.is_none() {
                self.recording_desired = false;
                self.manual_full_session_desired = false;
            }
            self.recording_generation = advance(self.recording_generation);
            self.last_save_request_ns = None;
        }
        true
    }

    /// The service of `generation` ran out of room. Only the current one blocks recording.
    pub fn accept_service_quota(&mut self, generation: u64, event: QuotaFull) -> (accepted: bool)
        ensures
            accepted == is_current(*old(self), generation),
            *final(self) == if accepted {
                RuntimeState {
                    quota_blocked: Some(event),
                    last_storage_status: Some(
                        StorageStatus {
                            total_bytes: event.total_bytes,
                            quota_bytes: Some(event.quota_bytes),
                            over_quota: true,
                        },
                    ),
                    ..*old(self)
                }
            } else {
                *old(self)
            },
    {
        if self.recording_generation != generation || self.tx.is_none() {
            return false;
        }
        self.quota_blocked = Some(event);
        self.last_storage_status = Some(
            StorageStatus {
                total_bytes: event.total_bytes,
                quota_bytes: Some(event.quota_bytes),
                over_quota: true,
            },
        );
        true
    }

    /// Remembers what an event says, for diagnostics.
    pub fn observe_runtime_event(&mut self, event: &ServiceEvent)
        ensures
            *final(self) == observed(*old(self), *event),
    {
        match event {
            ServiceEvent::Status(status) => {
                self.last_recorder_status = Some(status.clone());
                if status.recording {
                    self.recent_recorder_error = false;
                }
            },
            ServiceEvent::Saved(saved) => {
                self.last_storage_status = Some(saved.storage);
            },
            ServiceEvent::StorageQuotaFull(_) => {},
            ServiceEvent::Error { .. } => {
                self.recent_recorder_error = true;
            },
            ServiceEvent::MediaRootResolved { .. } => {},
        }
    }

    /// The status of a recorder that waits for a game.
    pub fn current_waiting_status(&self) -> (status: Option<RecorderStatus>)
        ensures
            status is Some <==> self.tx is None && awaits_game(
                *self,
                self.settings,
                self.active_game,
            ),
            status matches Some(status) ==> is_waiting_status(status),
    {
        if self.recording_desired && self.tx.is_none() && self.quota_blocked.is_none()
            && !self.manual_full_session_desired && !recorder_should_run(
            &self.settings,
            &self.active_game,
        ) {
            Some(waiting_for_game_status())
        } else {
            None
        }
    }

    /// What a frontend that was just created is told: that the recorder waits for a game,
    /// else the last status.
    pub fn durable_recorder_status_for_replay(&self) -> (status: Option<RecorderStatus>)
        ensures
            if self.tx is None && awaits_game(*self, self.settings, self.active_game) {
                status is Some && is_waiting_status(status->0)
            } else {
                status == self.last_recorder_status
            },
    {
        match self.current_waiting_status() {
            Some(waiting) => Some(waiting),
            None => match &self.last_recorder_status {
                Some(status) => Some(status.clone()),
                None => None,
            },
        }
    }

    pub fn durable_quota_event_for_replay(&self) -> (event: Option<QuotaFull>)
        ensures
            event == self.quota_blocked,
    {
        self.quota_blocked
    }

    pub fn waiting_generation_is_current(&self, generation: u64) -> (r: bool)
        ensures
            r == still_waiting(*self, generation),
    {
        self.recording_generation == generation && self.recording_desired && self.tx.is_none()
            && !self.manual_full_session_desired && !recorder_should_run(
            &self.settings,
            &self.active_game,
        )
    }

    /// The codecs that the frontend can play.
    pub fn set_decodable_codecs(&mut self, keys: &Vec<String>)
        ensures
            final(self).decodable_codecs@ == decodable(views(keys@)),
            *final(self) == (RuntimeState {
                decodable_codecs: final(self).decodable_codecs,
                ..*old(self)
            }),
    {
        let mut codecs: Vec<Codec> = Vec::new();
        codecs.push(Codec::H264);
        let mut i: usize = 0;
        assert(views(keys@).take(0) =~= Seq::<Seq<char>>::empty());
        assert(codecs@ =~= seq![Codec::H264]);
        while i < keys.len()
            invariant
                i <= keys@.len(),
                codecs@ == decodable(views(keys@).take(i as int)),
            decreases keys@.len() - i,
        {
            let ghost upto = views(keys@).take(i + 1);
            proof {
                assert(upto.drop_last() =~= views(keys@).take(i as int));
                assert(upto.last() == keys@[i as int]@);
            }
            let key = keys[i].as_str();
            if str_eq(key, "hevc") && !contains_codec(&codecs, Codec::Hevc) {
                codecs.push(Codec::Hevc);
            } else if str_eq(key, "av1") && !contains_codec(&codecs, Codec::Av1) {
                codecs.push(Codec::Av1);
            }
            i += 1;
        }
        assert(views(keys@).take(i as int) =~= views(keys@));
        self.decodable_codecs = codecs;
    }

    /// What a service is started with. `base` is what the settings alone ask for.
    pub fn options(&self, base: Result<ServiceOptions, String>) -> (res: Result<
        ServiceOptions,
        String,
    >)
        ensures
            match base {
                Ok(base) => res is Ok && options_planned(
                    res->Ok_0,
                    base,
                    self.active_game,
                    self.decodable_codecs@,
                    self.manual_full_session_desired,
                ),
                Err(error) => res == Err::<ServiceOptions, String>(error),
            },
    {
        planned_options(
            base,
            &self.active_game,
            &self.decodable_codecs,
            self.manual_full_session_desired,
        )
    }

    /// Decides on a restart of the service and takes the current one out. Where the options
    /// are wanted and cannot be had, a service that runs is left alone.
    pub fn prepare_service_restart(&mut self, base: Result<ServiceOptions, String>) -> (res: Result<
        PreparedServiceRestart,
        String,
    >)
        ensures
            match res {
                Ok(prepared) => {
                    &&& !restart_fails(*old(self), base)
                    &&& is_prepared(prepared, *old(self), base)
                    &&& *final(self) == detached(*old(self))
                },
                Err(error) => {
                    &&& restart_fails(*old(self), base)
                    &&& base == Err::<ServiceOptions, String>(error)
                    &&& *final(self) == after_failed_restart(*old(self))
                },
            },
    {
        let should_run = self.recording_desired && self.quota_blocked.is_none() && (
        self.manual_full_session_desired || recorder_should_run(&self.settings, &self.active_game));
        let next_options = if should_run {
            match restart_options(
                base,
                &self.active_game,
                &self.decodable_codecs,
                self.manual_full_session_desired,
            ) {
                Ok(options) => Some(options),
                Err(error) => {
                    if self.tx.is_none() {
                        self.recording_generation = advance(self.recording_generation);
                    }
                    return Err(error);
                },
            }
        } else {
            None
        };
        let old_tx = self.tx;
        self.tx = None;
        self.recording_generation = advance(self.recording_generation);
        let generation: u64 = self.recording_generation;
        self.last_save_request_ns = None;
        let waiting_for_game = self.recording_desired && self.quota_blocked.is_none()
            && !should_run;
        Ok(
            PreparedServiceRestart {
                old_tx,
                replacement: match next_options {
                    Some(options) => Some((options, generation)),
                    None => None,
                },
                waiting_for_game,
                waiting_generation: if waiting_for_game {
                    Some(generation)
                } else {
                    None
                },
            },
        )
    }

    /// Asks for a session by hand, unless the quota blocks recording.
    pub fn arm_manual_session_unless_blocked(&mut self) -> (blocked: Option<QuotaFull>)
        ensures
            blocked == old(self).quota_blocked,
            *final(self) == if blocked is Some {
                *old(self)
            } else {
                armed(*old(self))
            },
    {
        if let Some(event) = self.quota_blocked {
            return Some(event);
        }
        self.manual_full_session_desired = true;
        self.recording_desired = true;
        self.last_save_request_ns = None;
        None
    }

    /// Ends a session that was asked for by hand: the service to tell, and the restart where
    /// the recorder goes back to waiting for a game.
    pub fn prepare_manual_session_stop(
        &mut self,
        base: Result<ServiceOptions, String>,
    ) -> (res: Result<(Option<ServiceHandle>, Option<PreparedServiceRestart>), String>)
        ensures
            res is Ok,
            res->Ok_0.0 == old(self).tx,
            ({
                let disarmed = RuntimeState { manual_full_session_desired: false, ..*old(self) };
                if awaits_game(disarmed, disarmed.settings, disarmed.active_game) {
                    &&& res->Ok_0.1 is Some
                    &&& is_prepared(res->Ok_0.1->0, disarmed, base)
                    &&& *final(self) == detached(disarmed)
                } else {
                    &&& res->Ok_0.1 is None
                    &&& *final(self) == disarmed
                }
            }),
    {
        self.manual_full_session_desired = false;
        if self.recording_desired && self.quota_blocked.is_none() && !recorder_should_run(
            &self.settings,
            &self.active_game,
        ) {
            match self.prepare_service_restart(base) {
                Ok(restart) => {
                    let session_tx = restart.old_tx;
                    Ok((session_tx, Some(restart)))
                },
                Err(error) => Err(error),
            }
        } else {
            Ok((self.tx, None))
        }
    }

    /// Lets a service that was planned under `generation` take over, unless it came too
    /// late; it is handed back then.
    pub fn install_prepared_service_restart(
        &mut self,
        generation: u64,
        tx: ServiceHandle,
    ) -> (res: Result<u64, ServiceHandle>)
        ensures
            match res {
                Ok(current) => {
                    &&& accepts_restart(*old(self), generation)
                    &&& *final(self) == installed(*old(self), tx)
                    &&& current == final(self).recording_generation
                },
                Err(rejected) => {
                    &&& !accepts_restart(*old(self), generation)
                    &&& *final(self) == *old(self)
                    &&& rejected == tx
                },
            },
    {
        if !self.recording_desired || self.quota_blocked.is_some() || self.recording_generation
            != generation || self.tx.is_some() {
            return Err(tx);
        }
        Ok(self.install_recording_sender(tx))
    }
}

/// What an event leaves behind for diagnostics.
pub open spec fn observed(s: RuntimeState, event: ServiceEvent) -> RuntimeState {
    match event {
        ServiceEvent::Status(status) => RuntimeState {
            last_recorder_status: Some(status),
            recent_recorder_error: s.recent_recorder_error && !status.recording,
            ..s
        },
        ServiceEvent::Saved(saved) => RuntimeState {
            last_storage_status: Some(saved.storage),
            ..s
        },
        ServiceEvent::Error { .. } => RuntimeState { recent_recorder_error: true, ..s },
        _ => s,
    }
}

/// A session was asked for by hand.
pub open spec fn armed(s: RuntimeState) -> RuntimeState {
    RuntimeState {
        manual_full_session_desired: true,
        recording_desired: true,
        last_save_request_ns: None,
        ..s
    }
}

// ---------------------------------------------------------------------------
// Finishing a restart
// ---------------------------------------------------------------------------

/// What is left to do once a restart was carried out: the service whose events are to be
/// followed under its generation, the one that came too late and is to be stopped, and
/// whether the wait for a game is to be shown.
#[derive(Debug, PartialEq, Eq)]
pub struct FinishedRestart {
    pub follow: Option<(ServiceHandle, u64)>,
    pub discard: Option<ServiceHandle>,
    pub announce_waiting: bool,
}

impl RuntimeState {
    /// Carries a prepared restart out. `spawned` is the service that was started for it.
    pub fn finish_service_restart(
        &mut self,
        prepared: &PreparedServiceRestart,
        spawned: Option<ServiceHandle>,
    ) -> (r: FinishedRestart)
        requires
            spawned is Some <==> prepared.replacement is Some,
        ensures
            match (prepared.replacement, spawned) {
                (Some((_, generation)), Some(tx)) => if accepts_restart(*old(self), generation) {
                    &&& *final(self) == installed(*old(self), tx)
                    &&& r.follow == Some((tx, final(self).recording_generation))
                    &&& r.discard is None
                } else {
                    &&& *final(self) == *old(self)
                    &&& r.follow is None
                    &&& r.discard == Some(tx)
                },
                _ => *final(self) == *old(self) && r.follow is None && r.discard is None,
            },
            r.announce_waiting == (prepared.waiting_for_game && prepared.waiting_generation is Some
                && still_waiting(*final(self), prepared.waiting_generation->0)),
    {
        let mut follow: Option<(ServiceHandle, u64)> = None;
        let mut discard: Option<ServiceHandle> = None;
        if let (Some(replacement), Some(tx)) = (&prepared.replacement, spawned) {
            match self.install_prepared_service_restart(replacement.1, tx) {
                Ok(generation) => {
                    follow = Some((tx, generation));
                },
                Err(rejected) => {
                    discard = Some(rejected);
                },
            }
        }
        let announce_waiting = prepared.waiting_for_game && match prepared.waiting_generation {
            Some(generation) => self.waiting_generation_is_current(generation),
            None => false,
        };
        FinishedRestart { follow, discard, announce_waiting }
    }
}

// ---------------------------------------------------------------------------
// New settings
// ---------------------------------------------------------------------------

/// Settings that are ready to take effect.
#[derive(Debug, PartialEq, Eq)]
pub struct PreparedRuntimeRestart {
    pub settings: AppSettings,
}

/// What took effect with new settings: the service to stop, what was started under which
/// generation, whether the detected game was dropped, and the generation of the wait for a
/// game.
#[derive(Debug, PartialEq, Eq)]
pub struct CommittedRuntimeRestart<T> {
    pub old_tx: Option<ServiceHandle>,
    pub replacement: Option<(T, u64)>,
    pub cleared_active_game: bool,
    pub waiting_for_game: bool,
    pub waiting_generation: Option<u64>,
}

/// The game that stays detected under new settings.
pub open spec fn kept_game(
    s: RuntimeState,
    settings: AppSettings,
    plugin_configured: bool,
) -> Option<DetectedGame> {
    if still_configured(settings, s.active_game, plugin_configured) {
        s.active_game
    } else {
        None
    }
}

/// The state under new settings, before a service is started.
pub open spec fn resettled(
    s: RuntimeState,
    settings: AppSettings,
    plugin_configured: bool,
) -> RuntimeState {
    RuntimeState {
        settings,
        active_game: kept_game(s, settings, plugin_configured),
        tx: None,
        ..s
    }
}

/// `spawn` starts a service with `options` and answers with its channel and `spawned`.
pub open spec fn spawned_as<T, F>(
    spawn: F,
    options: ServiceOptions,
    tx: ServiceHandle,
    spawned: T,
) -> bool where F: FnOnce(ServiceOptions) -> (ServiceHandle, T) {
    call_ensures(spawn, (options,), (tx, spawned))
}

/// Whether a service is started when new settings take effect.
pub open spec fn commit_starts(
    s: RuntimeState,
    settings: AppSettings,
    plugin_configured: bool,
) -> bool {
    wants_service(s, settings, kept_game(s, settings, plugin_configured))
}

/// What is reported of new settings that took effect, and what state they leave where no
/// service is started.
pub open spec fn commit_reports<T>(
    s: RuntimeState,
    settings: AppSettings,
    plugin_configured: bool,
    after: RuntimeState,
    committed: CommittedRuntimeRestart<T>,
) -> bool {
    let game = kept_game(s, settings, plugin_configured);
    let waiting = awaits_game(s, settings, game);
    let under = resettled(s, settings, plugin_configured);
    &&& committed.old_tx == s.tx
    &&& committed.cleared_active_game == (s.active_game is Some && game is None)
    &&& committed.waiting_for_game == waiting
    &&& committed.waiting_generation == if waiting {
        Some(after.recording_generation)
    } else {
        None
    }
    &&& committed.replacement is Some <==> commit_starts(s, settings, plugin_configured)
    &&& committed.replacement is Some ==> (committed.replacement->0).1 == after.recording_generation
    &&& committed.replacement is None ==> after == if waiting {
        detached(under)
    } else {
        under
    }
}

impl RuntimeState {
    /// Makes sure that new settings can take effect, and changes nothing yet. `base` is
    /// what they ask for, `plugin_configured` whether the plugin of the detected game stays
    /// enabled.
    pub fn prepare_settings_restart(
        &self,
        settings: AppSettings,
        base: Result<ServiceOptions, String>,
        plugin_configured: bool,
    ) -> (res: Result<PreparedRuntimeRestart, String>)
        ensures
            ({
                let fails = base is Err && wants_service(
                    *self,
                    settings,
                    kept_game(*self, settings, plugin_configured),
                );
                match res {
                    Ok(prepared) => !fails && prepared.settings == settings,
                    Err(error) => fails && base == Err::<ServiceOptions, String>(error),
                }
            }),
    {
        let kept = active_game_still_configured(&settings, &self.active_game, plugin_configured);
        let nothing: Option<DetectedGame> = None;
        let active_game = if kept {
            &self.active_game
        } else {
            &nothing
        };
        if self.recording_desired && self.quota_blocked.is_none() && (
        self.manual_full_session_desired || recorder_should_run(&settings, active_game)) {
            match options_for(base, active_game, &self.decodable_codecs) {
                Ok(_) => {},
                Err(error) => return Err(error),
            }
        }
        Ok(PreparedRuntimeRestart { settings })
    }

    /// Lets new settings take effect: the service is replaced, or taken out where none is
    /// wanted. Where the options are wanted and cannot be had, nothing changes.
    pub fn commit_prepared_restart_with<T, F>(
        &mut self,
        prepared: PreparedRuntimeRestart,
        base: Result<ServiceOptions, String>,
        plugin_configured: bool,
        spawn: F,
    ) -> (res: Result<CommittedRuntimeRestart<T>, String>) where
        F: FnOnce(ServiceOptions) -> (ServiceHandle, T),

        requires
            forall|options: ServiceOptions|
                commit_starts(*old(self), prepared.settings, plugin_configured) && base is Ok
                    && options_for_restart(
                    options,
                    base->Ok_0,
                    kept_game(*old(self), prepared.settings, plugin_configured),
                    old(self).decodable_codecs@,
                    old(self).manual_full_session_desired,
                ) ==> #[trigger] call_requires(spawn, (options,)),
        ensures
            res is Err <==> base is Err && commit_starts(
                *old(self),
                prepared.settings,
                plugin_configured,
            ),
            res matches Err(error) ==> base == Err::<ServiceOptions, String>(error) && *final(self)
                == *old(self),
            res matches Ok(committed) ==> commit_reports(
                *old(self),
                prepared.settings,
                plugin_configured,
                *final(self),
                committed,
            ),
            res is Ok && res->Ok_0.replacement is Some ==> exists|
                options: ServiceOptions,
                tx: ServiceHandle,
            |
                options_for_restart(
                    options,
                    base->Ok_0,
                    kept_game(*old(self), prepared.settings, plugin_configured),
                    old(self).decodable_codecs@,
                    old(self).manual_full_session_desired,
                ) && #[trigger] spawned_as(
                    spawn,
                    options,
                    tx,
                    (res->Ok_0.replacement->0).0,
                ) && *final(self) == installed(
                    resettled(*old(self), prepared.settings, plugin_configured),
                    tx,
                ),
    {
        let settings = prepared.settings;
        let kept = active_game_still_configured(&settings, &self.active_game, plugin_configured);
        let cleared_active_game = self.active_game.is_some() && !kept;
        let nothing: Option<DetectedGame> = None;
        let active_game = if kept {
            &self.active_game
        } else {
            &nothing
        };
        let should_run = self.recording_desired && self.quota_blocked.is_none() && (
        self.manual_full_session_desired || recorder_should_run(&settings, active_game));
        let next_options = if should_run {
            match restart_options(
                base,
                active_game,
                &self.decodable_codecs,
                self.manual_full_session_desired,
            ) {
                Ok(options) => Some(options),
                Err(error) => return Err(error),
            }
        } else {
            None
        };
        self.settings = settings;
        if cleared_active_game {
            self.active_game = None;
        }
        let old_tx = self.tx;
        self.tx = None;
        let ghost under = *self;
        assert(under == resettled(*old(self), settings, plugin_configured));
        let ghost mut witness: Option<(ServiceOptions, ServiceHandle)> = None;
        let replacement = match next_options {
            Some(options) => {
                let (tx, spawned) = spawn(options);
                proof {
                    witness = Some((options, tx));
                }
                let generation: u64 = self.install_recording_sender(tx);
                assert(spawned_as(spawn, options, tx, spawned));
                Some((spawned, generation))
            },
            None => None,
        };
        let waiting_for_game = self.recording_desired && self.quota_blocked.is_none()
            && !should_run;
        if waiting_for_game {
            self.recording_generation = advance(self.recording_generation);
            self.last_save_request_ns = None;
        }
        let waiting_generation = if waiting_for_game {
            Some(self.recording_generation)
        } else {
            None
        };
        proof {
            if witness is Some {
                let options = (witness->0).0;
                let tx = (witness->0).1;
                assert(options_for_restart(
                    options,
                    base->Ok_0,
                    kept_game(*old(self), prepared.settings, plugin_configured),
                    old(self).decodable_codecs@,
                    old(self).manual_full_session_desired,
                ));
                assert(spawned_as(spawn, options, tx, (replacement->0).0));
                assert(*self == installed(
                    resettled(*old(self), prepared.settings, plugin_configured),
                    tx,
                ));
            }
        }
        Ok(
            CommittedRuntimeRestart {
                old_tx,
                replacement,
                cleared_active_game,
                waiting_for_game,
                waiting_generation,
            },
        )
    }

    /// A copy of the settings.
    pub fn settings(&self) -> (settings: AppSettings)
        ensures
            same_settings(settings, self.settings),
    {
        self.settings.clone()
    }

    /// Puts changed cloud settings on disk, and then into effect. `normalize` brings them into
    /// their normal form first. Where `save` fails, nothing changes.
    pub fn update_cloud_with<N, S>(&mut self, next: CloudSettings, normalize: N, save: S) -> (res:
        Result<AppSettings, String>) where
        N: FnOnce(CloudSettings) -> CloudSettings,
        S: FnOnce(&AppSettings) -> Result<(), String>,

        requires
            call_requires(normalize, (next,)),
            forall|document: AppSettings, normal: CloudSettings| #[trigger]
                call_ensures(normalize, (next,), normal) && same_settings(
                    document,
                    AppSettings { cloud: normal, ..old(self).settings },
                ) ==> #[trigger] call_requires(save, (&document,)),
        ensures
            exists|document: AppSettings, normal: CloudSettings, saved: Result<(), String>|
                {
                    &&& #[trigger] call_ensures(normalize, (next,), normal)
                    &&& same_settings(
                        document,
                        AppSettings { cloud: normal, ..old(self).settings },
                    )
                    &&& #[trigger] call_ensures(save, (&document,), saved)
                    &&& match (saved, res) {
                        (Ok(_), Ok(settings)) => {
                            &&& same_settings(settings, document)
                            &&& same_settings(final(self).settings, document)
                            &&& *final(self) == (RuntimeState {
                                settings: final(self).settings,
                                ..*old(self)
                            })
                        },
                        (Err(error), Err(reported)) => reported == error && *final(self) == *old(
                            self,
                        ),
                        _ => false,
                    }
                },
    {
        let mut document = self.settings.clone();
        let normal = normalize(next);
        let ghost kept = normal;
        document.cloud = normal;
        assert(call_ensures(normalize, (next,), kept));
        assert(same_settings(
            document,
            AppSettings { cloud: kept, ..old(self).settings },
        ));
        let saved = save(&document);
        assert(call_ensures(save, (&document,), saved));
        match saved {
            Ok(_) => {
                let settings = document.clone();
                self.settings.cloud = document.cloud;
                Ok(settings)
            },
            Err(error) => Err(error),
        }
    }

    /// Puts changed osu! settings on disk, and then into effect. `normalize` brings them into
    /// their normal form first. Where `save` fails, nothing changes.
    pub fn update_osu_with<N, S>(&mut self, next: OsuApiSettings, normalize: N, save: S) -> (res:
        Result<AppSettings, String>) where
        N: FnOnce(OsuApiSettings) -> OsuApiSettings,
        S: FnOnce(&AppSettings) -> Result<(), String>,

        requires
            call_requires(normalize, (next,)),
            forall|document: AppSettings, normal: OsuApiSettings| #[trigger]
                call_ensures(normalize, (next,), normal) && same_settings(
                    document,
                    AppSettings { osu: normal, ..old(self).settings },
                ) ==> #[trigger] call_requires(save, (&document,)),
        ensures
            exists|document: AppSettings, normal: OsuApiSettings, saved: Result<(), String>|
                {
                    &&& #[trigger] call_ensures(normalize, (next,), normal)
                    &&& same_settings(
                        document,
                        AppSettings { osu: normal, ..old(self).settings },
                    )
                    &&& #[trigger] call_ensures(save, (&document,), saved)
                    &&& match (saved, res) {
                        (Ok(_), Ok(settings)) => {
                            &&& same_settings(settings, document)
                            &&& same_settings(final(self).settings, document)
                            &&& *final(self) == (RuntimeState {
                                settings: final(self).settings,
                                ..*old(self)
                            })
                        },
                        (Err(error), Err(reported)) => reported == error && *final(self) == *old(
                            self,
                        ),
                        _ => false,
                    }
                },
    {
        let mut document = self.settings.clone();
        let normal = normalize(next);
        let ghost kept = normal;
        document.osu = normal;
        assert(call_ensures(normalize, (next,), kept));
        assert(same_settings(
            document,
            AppSettings { osu: kept, ..old(self).settings },
        ));
        let saved = save(&document);
        assert(call_ensures(save, (&document,), saved));
        match saved {
            Ok(_) => {
                let settings = document.clone();
                self.settings.osu = document.osu;
                Ok(settings)
            },
            Err(error) => Err(error),
        }
    }
}

// ---------------------------------------------------------------------------
// Saving a replay
// ---------------------------------------------------------------------------

/// Whether a trigger comes so soon after the last that it counts as the same one.
pub open spec fn debounced(last: Option<u64>, now: u64) -> bool {
    match last {
        Some(last) => now < last || now - last < DOUBLE_TRIGGER_DEBOUNCE_NS,
        None => false,
    }
}

/// Whether a trigger is handed to the service.
pub open spec fn save_is_due(s: RuntimeState, now: u64) -> bool {
    s.quota_blocked is None && s.tx is Some && !debounced(s.last_save_request_ns, now)
}

impl RuntimeState {
    /// Asks the current service for a replay. `now_ns` is a monotonic clock in nanoseconds,
    /// `send` hands the command over and says whether the service took it.
    pub fn request_save<S>(&mut self, now_ns: u64, send: S) -> (requested: bool) where
        S: FnOnce(ServiceHandle, Cmd) -> bool,

        requires
            save_is_due(*old(self), now_ns) ==> call_requires(send, (old(self).tx->0, Cmd::Save)),
        ensures
            if old(self).quota_blocked is Some || old(self).tx is None || debounced(
                old(self).last_save_request_ns,
                now_ns,
            ) {
                !requested && *final(self) == *old(self)
            } else {
                &&& call_ensures(send, (old(self).tx->0, Cmd::Save), requested)
                &&& *final(self) == if requested {
                    RuntimeState { last_save_request_ns: Some(now_ns), ..*old(self) }
                } else {
                    *old(self)
                }
            },
    {
        if self.quota_blocked.is_some() {
            return false;
        }
        let tx = match self.tx {
            Some(tx) => tx,
            None => return false,
        };
        if let Some(last) = self.last_save_request_ns {
            if now_ns < last || now_ns - last < DOUBLE_TRIGGER_DEBOUNCE_NS {
                return false;
            }
        }
        if send(tx, Cmd::Save) {
            self.last_save_request_ns = Some(now_ns);
            return true;
        }
        false
    }

    /// Asks for a replay; where none was asked for, the second value is the block of the
    /// quota that the user is shown.
    pub fn request_save_or_show_quota<S>(&mut self, now_ns: u64, send: S) -> (r: (
        bool,
        Option<QuotaFull>,
    )) where S: FnOnce(ServiceHandle, Cmd) -> bool
        requires
            save_is_due(*old(self), now_ns) ==> call_requires(send, (old(self).tx->0, Cmd::Save)),
        ensures
            if old(self).quota_blocked is Some || old(self).tx is None || debounced(
                old(self).last_save_request_ns,
                now_ns,
            ) {
                !r.0 && *final(self) == *old(self)
            } else {
                &&& call_ensures(send, (old(self).tx->0, Cmd::Save), r.0)
                &&& *final(self) == if r.0 {
                    RuntimeState { last_save_request_ns: Some(now_ns), ..*old(self) }
                } else {
                    *old(self)
                }
            },
            r.1 == if r.0 {
                None
            } else {
                old(self).quota_blocked
            },
    {
        if self.request_save(now_ns, send) {
            return (true, None);
        }
        (false, self.durable_quota_event_for_replay())
    }

    /// Hands a command to the current service, if there is one.
    pub fn send<S>(&self, cmd: Cmd, send: S) -> (sent: bool) where
        S: FnOnce(ServiceHandle, Cmd) -> bool,

        requires
            self.tx is Some ==> call_requires(send, (self.tx->0, cmd)),
        ensures
            sent == (self.tx is Some),
            sent ==> exists|taken: bool| #[trigger]
                call_ensures(send, (self.tx->0, cmd), taken),
    {
        match self.tx {
            Some(tx) => {
                let taken = send(tx, cmd);
                assert(call_ensures(send, (tx, cmd), taken));
                true
            },
            None => false,
        }
    }
}

// ---------------------------------------------------------------------------
// The storage quota
// ---------------------------------------------------------------------------

/// Whether what is to be recorded does not fit beside what is there.
pub open spec fn over_quota(total: u64, quota: Option<u64>, required: u64) -> bool {
    match quota {
        Some(quota) => total + required > quota,
        None => false,
    }
}

/// What a look at the media folder asks for next: to delete down to a size, to keep
/// recording blocked, or to lift the block.
#[derive(Debug, Clone, Copy, PartialEq, Eq, Structural)]
pub enum QuotaStep {
    DeleteDownTo { bytes: u64 },
    Block { event: QuotaFull },
    Resolve,
}

/// The step after a look at the media folder. Deletion is tried once.
pub open spec fn quota_step(
    total: u64,
    quota: Option<u64>,
    required: u64,
    may_delete: bool,
) -> QuotaStep {
    if !over_quota(total, quota, required) {
        QuotaStep::Resolve
    } else if may_delete {
        QuotaStep::DeleteDownTo {
            bytes: if quota->0 >= required {
                (quota->0 - required) as u64
            } else {
                0
            },
        }
    } else {
        QuotaStep::Block {
            event: QuotaFull { total_bytes: total, quota_bytes: quota->0, required_bytes: required },
        }
    }
}

/// The step after a look at the media folder. `may_delete` is whether clips may be deleted
/// for room and were not yet.
pub fn quota_recheck_step(
    total_bytes: u64,
    quota_bytes: Option<u64>,
    required_bytes: u64,
    may_delete: bool,
) -> (step: QuotaStep)
    ensures
        step == quota_step(total_bytes, quota_bytes, required_bytes, may_delete),
{
    let quota = match quota_bytes {
        Some(quota) => quota,
        None => return QuotaStep::Resolve,
    };
    let room: u64 = if quota >= total_bytes {
        quota - total_bytes
    } else {
        0
    };
    if !(total_bytes > quota || required_bytes > room) {
        return QuotaStep::Resolve;
    }
    if may_delete {
        let bytes: u64 = if quota >= required_bytes {
            quota - required_bytes
        } else {
            0
        };
        return QuotaStep::DeleteDownTo { bytes };
    }
    QuotaStep::Block { event: QuotaFull { total_bytes, quota_bytes: quota, required_bytes } }
}

/// How a recheck of the quota begins: nothing blocks recording, the service that was
/// blocked is still stopping, or the folder is to be looked at for so much room.
#[derive(Debug, Clone, Copy, PartialEq, Eq, Structural)]
pub enum QuotaRecheck {
    NotBlocked,
    StillStopping { show: Option<QuotaFull> },
    Measure { required_bytes: u64 },
}

/// How a recheck ends: whether recording is free, the event to show, and whether the
/// recorder is to be started again.
#[derive(Debug, Clone, Copy, PartialEq, Eq, Structural)]
pub struct QuotaOutcome {
    pub unblocked: bool,
    pub show: Option<QuotaFull>,
    pub restart: bool,
}

impl RuntimeState {
    pub fn begin_quota_recheck(&self, announce: bool) -> (r: QuotaRecheck)
        ensures
            r == match self.quota_blocked {
                None => QuotaRecheck::NotBlocked,
                Some(event) => if self.tx is Some {
                    QuotaRecheck::StillStopping {
                        show: if announce {
                            Some(event)
                        } else {
                            None
                        },
                    }
                } else {
                    QuotaRecheck::Measure { required_bytes: event.required_bytes }
                },
            },
    {
        match self.quota_blocked {
            None => QuotaRecheck::NotBlocked,
            Some(event) => if self.tx.is_some() {
                QuotaRecheck::StillStopping {
                    show: if announce {
                        Some(event)
                    } else {
                        None
                    },
                }
            } else {
                QuotaRecheck::Measure { required_bytes: event.required_bytes }
            },
        }
    }

    /// Ends a recheck with the last look at the media folder.
    pub fn finish_quota_recheck(
        &mut self,
        total_bytes: u64,
        quota_bytes: Option<u64>,
        required_bytes: u64,
        announce: bool,
    ) -> (outcome: QuotaOutcome)
        ensures
            match quota_step(total_bytes, quota_bytes, required_bytes, false) {
                QuotaStep::Block { event } => {
                    &&& *final(self) == (RuntimeState { quota_blocked: Some(event), ..*old(self) })
                    &&& outcome == (QuotaOutcome {
                        unblocked: false,
                        show: if announce {
                            Some(event)
                        } else {
                            None
                        },
                        restart: false,
                    })
                },
                _ => {
                    &&& *final(self) == (RuntimeState { quota_blocked: None, ..*old(self) })
                    &&& outcome == (QuotaOutcome {
                        unblocked: true,
                        show: None,
                        restart: old(self).recording_desired,
                    })
                },
            },
    {
        match quota_recheck_step(total_bytes, quota_bytes, required_bytes, false) {
            QuotaStep::Block { event } => {
                self.quota_blocked = Some(event);
                QuotaOutcome {
                    unblocked: false,
                    show: if announce {
                        Some(event)
                    } else {
                        None
                    },
                    restart: false,
                }
            },
            _ => {
                self.quota_blocked = None;
                QuotaOutcome { unblocked: true, show: None, restart: self.recording_desired }
            },
        }
    }

    /// How a recheck of the media folder after the quota blocked recording begins.
    pub fn begin_storage_recheck(&self, announce: bool) -> (check: QuotaCheck)
        ensures
            check == match self.quota_blocked {
                None => QuotaCheck::Finished {
                    res: Ok(QuotaOutcome { unblocked: true, show: None, restart: false }),
                },
                Some(event) => if self.tx is Some {
                    QuotaCheck::Finished {
                        res: Ok(
                            QuotaOutcome {
                                unblocked: false,
                                show: if announce {
                                    Some(event)
                                } else {
                                    None
                                },
                                restart: false,
                            },
                        ),
                    }
                } else {
                    QuotaCheck::Measuring { required_bytes: event.required_bytes }
                },
            },
            check_wf(check),
    {
        match self.begin_quota_recheck(announce) {
            QuotaRecheck::NotBlocked => QuotaCheck::Finished {
                res: Ok(QuotaOutcome { unblocked: true, show: None, restart: false }),
            },
            QuotaRecheck::StillStopping { show } => QuotaCheck::Finished {
                res: Ok(QuotaOutcome { unblocked: false, show, restart: false }),
            },
            QuotaRecheck::Measure { required_bytes } => QuotaCheck::Measuring { required_bytes },
        }
    }

    /// Takes the answer to what a recheck asked for. Where clips may be deleted and there is no
    /// room, they are deleted one by one by the policy, and the folder is measured again; that
    /// the clips cannot be listed is no error. `media_dir` is how the folder is shown.
    pub fn recheck_storage_quota(
        &mut self,
        check: QuotaCheck,
        answer: QuotaAnswer,
        media_dir: &str,
        quota_bytes: Option<u64>,
        auto_delete: bool,
        announce: bool,
    ) -> (next: QuotaCheck)
        requires
            check_wf(check),
            quota_answer_fits(check, answer),
        ensures
            check_wf(next),
            is_recheck_step(
                *old(self),
                check,
                answer,
                media_dir@,
                quota_bytes,
                auto_delete,
                announce,
                *final(self),
                next,
            ),
    {
        match (check, answer) {
            (QuotaCheck::Measuring { required_bytes }, QuotaAnswer::Size(Ok(total))) => {
                match quota_recheck_step(total, quota_bytes, required_bytes, auto_delete) {
                    QuotaStep::DeleteDownTo { bytes } => QuotaCheck::Listing {
                        required_bytes,
                        total,
                        target: bytes,
                    },
                    _ => {
                        let outcome = self.finish_quota_recheck(
                            total,
                            quota_bytes,
                            required_bytes,
                            announce,
                        );
                        QuotaCheck::Finished { res: Ok(outcome) }
                    },
                }
            },
            (QuotaCheck::Measuring { .. }, QuotaAnswer::Size(Err(error))) => QuotaCheck::Finished {
                res: Err(storage_status_error(media_dir, error.as_str())),
            },
            (
                QuotaCheck::Listing { required_bytes, total, target },
                QuotaAnswer::Clips(Ok(clips)),
            ) => {
                let deletion = QuotaDeletion::begin(&clips, total, target);
                due_deletion(required_bytes, deletion, clips)
            },
            (QuotaCheck::Listing { required_bytes, .. }, QuotaAnswer::Clips(Err(_))) =>
            QuotaCheck::MeasuringAgain { required_bytes },
            (
                QuotaCheck::Deleting { required_bytes, mut deletion, clips, next },
                QuotaAnswer::Deleted(removed),
            ) => {
                deletion.deleted(&clips, next, removed);
                due_deletion(required_bytes, deletion, clips)
            },
            (QuotaCheck::MeasuringAgain { required_bytes }, QuotaAnswer::Size(Ok(total))) => {
                let outcome = self.finish_quota_recheck(
                    total,
                    quota_bytes,
                    required_bytes,
                    announce,
                );
                QuotaCheck::Finished { res: Ok(outcome) }
            },
            (QuotaCheck::MeasuringAgain { .. }, QuotaAnswer::Size(Err(error))) =>
            QuotaCheck::Finished { res: Err(storage_status_error(media_dir, error.as_str())) },
            (check, _) => check,
        }
    }
}

/// Where a recheck of the media folder stands, and what it waits for.
#[derive(Debug, PartialEq, Eq)]
pub enum QuotaCheck {
    /// For the size of the folder. Answered by `Size`.
    Measuring { required_bytes: u64 },
    /// For its clips. Answered by `Clips`.
    Listing { required_bytes: u64, total: u64, target: u64 },
    /// For the clip `next` to be deleted. Answered by `Deleted`.
    Deleting { required_bytes: u64, deletion: QuotaDeletion, clips: Vec<StoredClip>, next: usize },
    /// For the size of the folder after the deletion. Answered by `Size`.
    MeasuringAgain { required_bytes: u64 },
    /// For nothing.
    Finished { res: Result<QuotaOutcome, String> },
}

/// An answer to what a recheck waits for.
#[derive(Debug, PartialEq, Eq)]
pub enum QuotaAnswer {
    Size(Result<u64, String>),
    Clips(Result<Vec<StoredClip>, String>),
    Deleted(bool),
}

/// A clip is deleted only where there is too much, and by the policy.
pub open spec fn check_wf(check: QuotaCheck) -> bool {
    match check {
        QuotaCheck::Deleting { deletion, clips, next, .. } => {
            &&& deletion.wf(clips@)
            &&& deletion.left > deletion.target
            &&& is_next_clip(clips@, deletion.tried@, next as int)
        },
        _ => true,
    }
}

/// Whether an answer is one to what a recheck waits for.
pub open spec fn quota_answer_fits(check: QuotaCheck, answer: QuotaAnswer) -> bool {
    match check {
        QuotaCheck::Measuring { .. } | QuotaCheck::MeasuringAgain { .. } => answer is Size,
        QuotaCheck::Listing { .. } => answer is Clips,
        QuotaCheck::Deleting { .. } => answer is Deleted,
        QuotaCheck::Finished { .. } => false,
    }
}

/// Whether a deletion goes on as it should: with its next clip, or with another look at the
/// folder where there is none or enough room.
pub open spec fn deletion_goes_on(
    required: u64,
    deletion: QuotaDeletion,
    clips: Seq<StoredClip>,
    next: QuotaCheck,
) -> bool {
    match next {
        QuotaCheck::Deleting { required_bytes, deletion: later, clips: listed, next: due } => {
            &&& required_bytes == required
            &&& later == deletion
            &&& listed@ == clips
            &&& deletion.left > deletion.target
            &&& is_next_clip(clips, deletion.tried@, due as int)
        },
        QuotaCheck::MeasuringAgain { required_bytes } => {
            &&& required_bytes == required
            &&& deletion.left <= deletion.target || forall|i: int|
                0 <= i < clips.len() && deletable(clips[i]) ==> #[trigger] deletion.tried@[i]
        },
        _ => false,
    }
}

fn due_deletion(required_bytes: u64, deletion: QuotaDeletion, clips: Vec<StoredClip>) -> (next:
    QuotaCheck)
    requires
        deletion.wf(clips@),
    ensures
        check_wf(next),
        deletion_goes_on(required_bytes, deletion, clips@, next),
{
    match deletion.next(&clips) {
        Some(next) => QuotaCheck::Deleting { required_bytes, deletion, clips, next },
        None => QuotaCheck::MeasuringAgain { required_bytes },
    }
}

/// A deletion after an attempt.
pub open spec fn after_deletion(
    deletion: QuotaDeletion,
    clips: Seq<StoredClip>,
    i: int,
    removed: bool,
    after: QuotaDeletion,
) -> bool {
    &&& after.tried@ == deletion.tried@.update(i, true)
    &&& after.target == deletion.target
    &&& after.left == if removed {
        if clips[i].bytes <= deletion.left {
            (deletion.left - clips[i].bytes) as u64
        } else {
            0
        }
    } else {
        deletion.left
    }
}

/// Whether a step of a recheck leads from one state to another.
pub open spec fn is_recheck_step(
    before: RuntimeState,
    check: QuotaCheck,
    answer: QuotaAnswer,
    media_dir: Seq<char>,
    quota: Option<u64>,
    auto_delete: bool,
    announce: bool,
    after: RuntimeState,
    next: QuotaCheck,
) -> bool {
    match (check, answer) {
        (QuotaCheck::Measuring { required_bytes }, QuotaAnswer::Size(Ok(total))) => if auto_delete
            && over_quota(total, quota, required_bytes) {
            &&& after == before
            &&& next == QuotaCheck::Listing {
                required_bytes,
                total,
                target: quota_step(total, quota, required_bytes, true)->bytes,
            }
        } else {
            &&& next matches QuotaCheck::Finished { res: Ok(outcome) }
            &&& recheck_ends(before, after, total, quota, required_bytes, announce, outcome)
        },
        (QuotaCheck::MeasuringAgain { required_bytes }, QuotaAnswer::Size(Ok(total))) => {
            &&& next matches QuotaCheck::Finished { res: Ok(outcome) }
            &&& recheck_ends(before, after, total, quota, required_bytes, announce, outcome)
        },
        (_, QuotaAnswer::Size(Err(error))) => {
            &&& after == before
            &&& next matches QuotaCheck::Finished { res: Err(text) }
            &&& text@ == "storage status for "@ + media_dir + ": "@ + error@
        },
        (QuotaCheck::Listing { required_bytes, total, target }, QuotaAnswer::Clips(Ok(clips))) => {
            &&& after == before
            &&& exists|deletion: QuotaDeletion|
                {
                    &&& #[trigger] deletion_goes_on(required_bytes, deletion, clips@, next)
                    &&& deletion.wf(clips@)
                    &&& deletion.left == total
                    &&& deletion.target == target
                    &&& forall|i: int| 0 <= i < clips@.len() ==> !(#[trigger] deletion.tried@[i])
                }
        },
        (QuotaCheck::Listing { required_bytes, .. }, QuotaAnswer::Clips(Err(_))) => {
            &&& after == before
            &&& next == QuotaCheck::MeasuringAgain { required_bytes }
        },
        (
            QuotaCheck::Deleting { required_bytes, deletion, clips, next: due },
            QuotaAnswer::Deleted(removed),
        ) => {
            &&& after == before
            &&& exists|later: QuotaDeletion| #[trigger]
                deletion_goes_on(required_bytes, later, clips@, next) && after_deletion(
                    deletion,
                    clips@,
                    due as int,
                    removed,
                    later,
                )
        },
        _ => after == before && next == check,
    }
}

/// Nothing is deleted unless deleting is switched on, a quota is set and there is no room for
/// what is to be recorded, and then only what the policy gives up, before the last look at the
/// folder.
pub proof fn law_recheck_deletes_by_the_policy(
    before: RuntimeState,
    check: QuotaCheck,
    answer: QuotaAnswer,
    media_dir: Seq<char>,
    quota: Option<u64>,
    auto_delete: bool,
    announce: bool,
    after: RuntimeState,
    next: QuotaCheck,
)
    requires
        check_wf(check),
        quota_answer_fits(check, answer),
        is_recheck_step(
            before,
            check,
            answer,
            media_dir,
            quota,
            auto_delete,
            announce,
            after,
            next,
        ),
    ensures
        next is Listing ==> auto_delete && quota is Some && check is Measuring,
        next is Deleting ==> check is Listing || check is Deleting,
        next is MeasuringAgain ==> check is Listing || check is Deleting,
        next matches QuotaCheck::Deleting { clips, next: due, .. } ==> 0 <= due < clips@.len()
            && !clips@[due as int].active_upload_source && !clips@[due as int].favorite,
{
}

/// How a recheck ends with a folder of `total` bytes.
pub open spec fn recheck_ends(
    before: RuntimeState,
    after: RuntimeState,
    total: u64,
    quota: Option<u64>,
    required: u64,
    announce: bool,
    outcome: QuotaOutcome,
) -> bool {
    if over_quota(total, quota, required) {
        let event = QuotaFull { total_bytes: total, quota_bytes: quota->0, required_bytes: required };
        &&& after == (RuntimeState { quota_blocked: Some(event), ..before })
        &&& outcome == (QuotaOutcome {
            unblocked: false,
            show: if announce {
                Some(event)
            } else {
                None
            },
            restart: false,
        })
    } else {
        &&& after == (RuntimeState { quota_blocked: None, ..before })
        &&& outcome == (QuotaOutcome {
            unblocked: true,
            show: None,
            restart: before.recording_desired,
        })
    }
}

fn storage_status_error(media_dir: &str, error: &str) -> (text: String)
    ensures
        text@ == "storage status for "@ + media_dir@ + ": "@ + error@,
{
    let head = concat3("storage status for ", media_dir, ": ");
    concat2(head.as_str(), error)
}

// ---------------------------------------------------------------------------
// Starting and stopping
// ---------------------------------------------------------------------------

/// What came of a request to record: whether recording is on, what was started under which
/// generation, the block of the quota to show, and the wait for a game to show.
#[derive(Debug, PartialEq, Eq)]
pub struct RecordingOutcome<T> {
    pub recording: bool,
    pub started: Option<(T, u64)>,
    pub blocked: Option<QuotaFull>,
    pub waiting: Option<RecorderStatus>,
}

/// Recording is wanted.
pub open spec fn requested(s: RuntimeState) -> RuntimeState {
    RuntimeState { recording_desired: true, last_save_request_ns: None, ..s }
}

/// `spawn` was handed the options that `s` asks for, and `after` holds the service.
pub open spec fn started_from<T, F>(
    s: RuntimeState,
    base: Result<ServiceOptions, String>,
    spawn: F,
    after: RuntimeState,
    spawned: T,
    generation: u64,
) -> bool where F: FnOnce(ServiceOptions) -> (ServiceHandle, T) {
    &&& generation == after.recording_generation
    &&& base is Ok
    &&& exists|options: ServiceOptions, tx: ServiceHandle|
        {
            &&& options_planned(
                options,
                base->Ok_0,
                s.active_game,
                s.decodable_codecs@,
                s.manual_full_session_desired,
            )
            &&& #[trigger] spawned_as(spawn, options, tx, spawned)
            &&& after == installed(s, tx)
        }
}

/// Whether `spawn` may be called with what the options of a state are, and with nothing else.
pub open spec fn may_spawn<T, F>(
    s: RuntimeState,
    base: Result<ServiceOptions, String>,
    spawn: F,
) -> bool where F: FnOnce(ServiceOptions) -> (ServiceHandle, T) {
    forall|options: ServiceOptions|
        base is Ok && options_planned(
            options,
            base->Ok_0,
            s.active_game,
            s.decodable_codecs@,
            s.manual_full_session_desired,
        ) ==> #[trigger] call_requires(spawn, (options,))
}

impl RuntimeState {
    /// Starts a service with the options of this state and installs it.
    fn spawn_service<T, F>(&mut self, base: Result<ServiceOptions, String>, spawn: F) -> (res: Result<
        (T, u64),
        String,
    >) where F: FnOnce(ServiceOptions) -> (ServiceHandle, T)
        requires
            may_spawn(*old(self), base, spawn),
        ensures
            match res {
                Ok(started) => started_from(
                    *old(self),
                    base,
                    spawn,
                    *final(self),
                    started.0,
                    started.1,
                ),
                Err(error) => base == Err::<ServiceOptions, String>(error) && *final(self) == *old(
                    self,
                ),
            },
    {
        match self.options(base) {
            Ok(options) => {
                let ghost s = *self;
                let (tx, spawned) = spawn(options);
                let generation: u64 = self.install_recording_sender(tx);
                proof {
                    assert(spawned_as(spawn, options, tx, spawned));
                    assert(*self == installed(s, tx));
                    assert(started_from(s, base, spawn, *self, spawned, generation));
                }
                Ok((spawned, generation))
            },
            Err(error) => Err(error),
        }
    }

    /// Starts recording: nothing where a service runs; the quota and the wait for a game
    /// keep one from being started, and recording stays wanted.
    pub fn start_recording<T, F>(&mut self, base: Result<ServiceOptions, String>, spawn: F) -> (res:
        Result<RecordingOutcome<T>, String>) where F: FnOnce(ServiceOptions) -> (ServiceHandle, T)
        requires
            old(self).tx is None && wants_service(
                requested(*old(self)),
                old(self).settings,
                old(self).active_game,
            ) ==> may_spawn(requested(*old(self)), base, spawn),
        ensures
            old(self).tx is Some ==> {
                &&& *final(self) == *old(self)
                &&& res == Ok::<RecordingOutcome<T>, String>(
                    RecordingOutcome {
                        recording: true,
                        started: None,
                        blocked: None,
                        waiting: None,
                    },
                )
            },
            old(self).tx is None ==> {
                let s = requested(*old(self));
                let wanted = wants_service(s, s.settings, s.active_game);
                match res {
                    Ok(outcome) => {
                        &&& outcome.blocked == s.quota_blocked
                        &&& outcome.recording == (outcome.blocked is None)
                        &&& outcome.started is Some <==> wanted
                        &&& outcome.started is Some ==> started_from(
                            s,
                            base,
                            spawn,
                            *final(self),
                            (outcome.started->0).0,
                            (outcome.started->0).1,
                        )
                        &&& !wanted ==> *final(self) == s
                        &&& outcome.waiting is Some <==> awaits_game(s, s.settings, s.active_game)
                        &&& outcome.waiting is Some ==> is_waiting_status(outcome.waiting->0)
                    },
                    Err(error) => {
                        &&& wanted
                        &&& base == Err::<ServiceOptions, String>(error)
                        &&& *final(self) == s
                    },
                }
            },
    {
        if self.tx.is_some() {
            return Ok(
                RecordingOutcome { recording: true, started: None, blocked: None, waiting: None },
            );
        }
        self.recording_desired = true;
        self.last_save_request_ns = None;
        if let Some(event) = self.quota_blocked {
            return Ok(
                RecordingOutcome {
                    recording: false,
                    started: None,
                    blocked: Some(event),
                    waiting: None,
                },
            );
        }
        if self.manual_full_session_desired || recorder_should_run(
            &self.settings,
            &self.active_game,
        ) {
            match self.spawn_service(base, spawn) {
                Ok(started) => Ok(
                    RecordingOutcome {
                        recording: true,
                        started: Some(started),
                        blocked: None,
                        waiting: None,
                    },
                ),
                Err(error) => Err(error),
            }
        } else {
            let waiting = self.current_waiting_status();
            Ok(RecordingOutcome { recording: true, started: None, blocked: None, waiting })
        }
    }

    /// Stops recording; the service to stop is returned.
    pub fn stop_recording(&mut self) -> (tx: Option<ServiceHandle>)
        ensures
            tx == old(self).tx,
            *final(self) == stopped(*old(self)),
    {
        self.recording_desired = false;
        self.manual_full_session_desired = false;
        self.recording_generation = advance(self.recording_generation);
        let tx = self.tx;
        self.tx = None;
        self.last_save_request_ns = None;
        tx
    }

    /// Whether a session is being recorded in full, as far as the hotkey goes.
    pub fn session_is_recording(&self) -> (r: bool)
        ensures
            r == session_runs(*self),
    {
        self.manual_full_session_desired || (self.tx.is_some() && match &self.last_recorder_status {
            Some(status) => status.full_session,
            None => false,
        })
    }
}

/// A session was asked for by hand, or the service reports one.
pub open spec fn session_runs(s: RuntimeState) -> bool {
    s.manual_full_session_desired || (s.tx is Some && s.last_recorder_status is Some
        && s.last_recorder_status->0.full_session)
}

/// What came of a request for a session: the restart to carry out, what was started under
/// which generation, the block of the quota to show, and the answer to the request.
#[derive(Debug, PartialEq, Eq)]
pub struct SessionOutcome<T> {
    pub restart: Option<PreparedServiceRestart>,
    pub started: Option<(T, u64)>,
    pub blocked: Option<QuotaFull>,
    pub recording: Result<bool, String>,
}

impl RuntimeState {
    /// Starts a session in full: on the service that runs, else on a new one.
    pub fn start_session_recording<T, F, S>(
        &mut self,
        base: Result<ServiceOptions, String>,
        spawn: F,
        send: S,
    ) -> (res: Result<SessionOutcome<T>, String>) where
        F: FnOnce(ServiceOptions) -> (ServiceHandle, T),
        S: FnOnce(ServiceHandle, Cmd) -> bool,

        requires
            old(self).quota_blocked is None && old(self).tx is None ==> may_spawn(
                armed(*old(self)),
                base,
                spawn,
            ),
            old(self).quota_blocked is None && old(self).tx is Some ==> call_requires(
                send,
                (old(self).tx->0, Cmd::StartFullSession),
            ),
        ensures
            old(self).quota_blocked is Some ==> {
                &&& *final(self) == *old(self)
                &&& res is Ok
                &&& res->Ok_0.restart is None
                &&& res->Ok_0.started is None
                &&& res->Ok_0.blocked == old(self).quota_blocked
                &&& res->Ok_0.recording == Ok::<bool, String>(false)
            },
            old(self).quota_blocked is None && old(self).tx is Some ==> {
                &&& *final(self) == armed(*old(self))
                &&& res is Ok
                &&& res->Ok_0.restart is None
                &&& res->Ok_0.started is None
                &&& res->Ok_0.blocked is None
                &&& match res->Ok_0.recording {
                    Ok(recording) => recording && call_ensures(
                        send,
                        (old(self).tx->0, Cmd::StartFullSession),
                        true,
                    ),
                    Err(error) => error@ == "recorder stopped before the session could start"@
                        && call_ensures(send, (old(self).tx->0, Cmd::StartFullSession), false),
                }
            },
            old(self).quota_blocked is None && old(self).tx is None ==> match res {
                Ok(outcome) => {
                    &&& outcome.restart is None
                    &&& outcome.started is Some
                    &&& started_from(
                        armed(*old(self)),
                        base,
                        spawn,
                        *final(self),
                        (outcome.started->0).0,
                        (outcome.started->0).1,
                    )
                    &&& outcome.blocked is None
                    &&& outcome.recording == Ok::<bool, String>(true)
                },
                Err(error) => base == Err::<ServiceOptions, String>(error) && *final(self)
                    == armed(*old(self)),
            },
    {
        if let Some(event) = self.arm_manual_session_unless_blocked() {
            return Ok(
                SessionOutcome {
                    restart: None,
                    started: None,
                    blocked: Some(event),
                    recording: Ok(false),
                },
            );
        }
        if let Some(tx) = self.tx {
            let taken = send(tx, Cmd::StartFullSession);
            let recording: Result<bool, String> = if taken {
                Ok(true)
            } else {
                Err("recorder stopped before the session could start".to_owned())
            };
            return Ok(SessionOutcome { restart: None, started: None, blocked: None, recording });
        }
        match self.spawn_service(base, spawn) {
            Ok(started) => Ok(
                SessionOutcome {
                    restart: None,
                    started: Some(started),
                    blocked: None,
                    recording: Ok(true),
                },
            ),
            Err(error) => Err(error),
        }
    }

    /// Ends a session: the service is told to write it, and, where the recorder goes back
    /// to waiting for a game, is taken out.
    pub fn stop_session_recording<T, S>(
        &mut self,
        base: Result<ServiceOptions, String>,
        send: S,
    ) -> (outcome: SessionOutcome<T>) where S: FnOnce(ServiceHandle, Cmd) -> bool
        requires
            old(self).tx is Some ==> call_requires(send, (old(self).tx->0, Cmd::StopFullSession)),
        ensures
            outcome.started is None,
            outcome.blocked is None,
            ({
                let disarmed = RuntimeState { manual_full_session_desired: false, ..*old(self) };
                if awaits_game(disarmed, disarmed.settings, disarmed.active_game) {
                    &&& outcome.restart is Some
                    &&& is_prepared(outcome.restart->0, disarmed, base)
                    &&& *final(self) == detached(disarmed)
                } else {
                    &&& outcome.restart is None
                    &&& *final(self) == disarmed
                }
            }),
            match outcome.recording {
                Ok(recording) => !recording && (old(self).tx is None || call_ensures(
                    send,
                    (old(self).tx->0, Cmd::StopFullSession),
                    true,
                )),
                Err(error) => {
                    &&& error@ == "recorder stopped before the session could be finalized"@
                    &&& old(self).tx is Some
                    &&& call_ensures(send, (old(self).tx->0, Cmd::StopFullSession), false)
                },
            },
    {
        let (tx, restart) = match self.prepare_manual_session_stop(base) {
            Ok(prepared) => prepared,
            Err(error) => return SessionOutcome {
                restart: None,
                started: None,
                blocked: None,
                recording: Err(error),
            },
        };
        let session_stopped = match tx {
            Some(tx) => send(tx, Cmd::StopFullSession),
            None => true,
        };
        let recording: Result<bool, String> = if session_stopped {
            Ok(false)
        } else {
            Err("recorder stopped before the session could be finalized".to_owned())
        };
        SessionOutcome { restart, started: None, blocked: None, recording }
    }
}

// ---------------------------------------------------------------------------
// The detected game
// ---------------------------------------------------------------------------

/// What a detection asks for: the restart to carry out, and whether the window is told.
#[derive(Debug, PartialEq, Eq)]
pub struct DetectionUpdate {
    pub restart: Option<PreparedServiceRestart>,
    pub emit: bool,
}

/// A detection as far as the settings look for the game.
pub open spec fn looked_for(
    settings: AppSettings,
    detected: Option<DetectedGame>,
    plugin_configured: bool,
) -> Option<DetectedGame> {
    if still_configured(settings, detected, plugin_configured) {
        detected
    } else {
        None
    }
}

/// Whether a detection changes what the recorder captures, or how.
pub open spec fn detection_restarts(
    current: Option<DetectedGame>,
    next: Option<DetectedGame>,
) -> bool {
    !same_window(current, next) || mode_changed(current, next)
}

/// Whether nothing changed from one detection to the next.
pub open spec fn unchanged_detection(
    current: Option<DetectedGame>,
    next: Option<DetectedGame>,
) -> bool {
    match (current, next) {
        (Some(current), Some(next)) => same_detection(current, next),
        (None, None) => true,
        _ => false,
    }
}

/// The state that holds `game` and a trail of titles.
pub open spec fn with_game(
    s: RuntimeState,
    game: Option<DetectedGame>,
    titles: Vec<OsuTitleEvent>,
) -> RuntimeState {
    RuntimeState { active_game: game, osu_title_events: titles, ..s }
}

impl RuntimeState {
    /// Takes a detection in. The service is restarted for another window or another
    /// recording mode; a new title only goes into the trail and to the window.
    pub fn set_detected_game(
        &mut self,
        detected: Option<DetectedGame>,
        plugin_configured: bool,
        unix_s: i64,
        base: Result<ServiceOptions, String>,
    ) -> (res: Result<DetectionUpdate, String>)
        ensures
            ({
                let s = *old(self);
                let game = looked_for(s.settings, detected, plugin_configured);
                let under = with_game(s, game, final(self).osu_title_events);
                &&& title_views(final(self).osu_title_events@) == trail_after(
                    title_views(s.osu_title_events@),
                    game,
                    unix_s,
                )
                &&& if detection_restarts(s.active_game, game) {
                    match res {
                        Ok(update) => {
                            &&& !restart_fails(under, base)
                            &&& update.emit
                            &&& update.restart is Some
                            &&& is_prepared(update.restart->0, under, base)
                            &&& *final(self) == detached(under)
                        },
                        Err(error) => {
                            &&& restart_fails(under, base)
                            &&& base == Err::<ServiceOptions, String>(error)
                            &&& *final(self) == after_failed_restart(under)
                        },
                    }
                } else {
                    &&& res is Ok
                    &&& res->Ok_0.restart is None
                    &&& res->Ok_0.emit == !unchanged_detection(s.active_game, game)
                    &&& *final(self) == if res->Ok_0.emit {
                        under
                    } else {
                        with_game(s, s.active_game, final(self).osu_title_events)
                    }
                }
            }),
    {
        let detected = if active_game_still_configured(
            &self.settings,
            &detected,
            plugin_configured,
        ) {
            detected
        } else {
            None
        };
        record_osu_title_event(&mut self.osu_title_events, &detected, unix_s);
        let restarts = !same_game_window(&self.active_game, &detected)
            || game_recording_mode_changed(&self.active_game, &detected);
        if restarts {
            self.active_game = detected;
            match self.prepare_service_restart(base) {
                Ok(restart) => Ok(DetectionUpdate { restart: Some(restart), emit: true }),
                Err(error) => Err(error),
            }
        } else {
            let unchanged = match (&self.active_game, &detected) {
                (Some(current), Some(next)) => current.same(next),
                (None, None) => true,
                _ => false,
            };
            if unchanged {
                Ok(DetectionUpdate { restart: None, emit: false })
            } else {
                self.active_game = detected;
                Ok(DetectionUpdate { restart: None, emit: true })
            }
        }
    }
}

// ---------------------------------------------------------------------------
// Events of a service
// ---------------------------------------------------------------------------

/// Where an event of a service goes: the channel of the window that carries it, whether the
/// sound of a saved replay is played, whether the clip is enriched with the titles of its
/// recording, and whether it sets the media folder.
#[derive(Debug, Clone, Copy, PartialEq, Eq)]
pub struct PumpedEvent {
    pub channel: Option<&'static str>,
    pub play_saved_sound: bool,
    pub enrich: bool,
    pub sets_media_folder: bool,
}

/// The channel of the window that carries an event.
pub open spec fn event_channel(event: ServiceEvent) -> Option<Seq<char>> {
    match event {
        ServiceEvent::Status(_) => Some("status"@),
        ServiceEvent::Saved(_) => Some("saved"@),
        ServiceEvent::StorageQuotaFull(_) => Some("storage-quota-full"@),
        ServiceEvent::Error { .. } => Some("error"@),
        ServiceEvent::MediaRootResolved { .. } => None,
    }
}

/// What is sent over a channel.
#[derive(Debug, PartialEq, Eq)]
pub enum EventPayload {
    /// A text alone.
    Text(String),
    /// The whole event.
    Event(ServiceEvent),
}

/// What is sent of an event: of an error its message, of any other the event.
pub fn event_payload(event: ServiceEvent) -> (payload: EventPayload)
    ensures
        payload == match event {
            ServiceEvent::Error { message } => EventPayload::Text(message),
            other => EventPayload::Event(other),
        },
{
    match event {
        ServiceEvent::Error { message } => EventPayload::Text(message),
        other => EventPayload::Event(other),
    }
}

/// Whether an event is dropped: a status or a full quota of a service that is not current.
pub open spec fn is_stale_event(s: RuntimeState, event: ServiceEvent, generation: u64) -> bool {
    (event is Status || event is StorageQuotaFull) && !is_current(s, generation)
}

/// What an event of the service of `generation` does to the state.
pub open spec fn after_event(
    s: RuntimeState,
    event: ServiceEvent,
    generation: u64,
) -> RuntimeState {
    match event {
        ServiceEvent::StorageQuotaFull(full) => if is_current(s, generation) {
            RuntimeState {
                quota_blocked: Some(full),
                last_storage_status: Some(
                    StorageStatus {
                        total_bytes: full.total_bytes,
                        quota_bytes: Some(full.quota_bytes),
                        over_quota: true,
                    },
                ),
                ..s
            }
        } else {
            s
        },
        ServiceEvent::Status(status) => {
            let seen = observed(s, event);
            if !is_current(s, generation) || status.recording {
                seen
            } else if s.quota_blocked is None {
                stopped(seen)
            } else {
                detached(seen)
            }
        },
        _ => observed(s, event),
    }
}

impl RuntimeState {
    /// Takes one event of the service of `generation` in and says where it goes.
    pub fn pump_event(&mut self, event: &ServiceEvent, generation: u64) -> (r: PumpedEvent)
        ensures
            *final(self) == after_event(*old(self), *event, generation),
            ({
                let stale = is_stale_event(*old(self), *event, generation);
                &&& match r.channel {
                    Some(channel) => !stale && event_channel(*event) == Some(channel@),
                    None => stale || event_channel(*event) is None,
                }
                &&& r.play_saved_sound == (event is Saved && !event->Saved_0.full_session)
                &&& r.enrich == (event is Saved && event->Saved_0.full_session)
                &&& r.sets_media_folder == (event is MediaRootResolved)
            }),
    {
        let dropped = PumpedEvent {
            channel: None,
            play_saved_sound: false,
            enrich: false,
            sets_media_folder: false,
        };
        match event {
            ServiceEvent::StorageQuotaFull(full) => {
                if !self.accept_service_quota(generation, *full) {
                    return dropped;
                }
                PumpedEvent {
                    channel: Some("storage-quota-full"),
                    play_saved_sound: false,
                    enrich: false,
                    sets_media_folder: false,
                }
            },
            ServiceEvent::MediaRootResolved { .. } => {
                self.observe_runtime_event(event);
                PumpedEvent {
                    channel: None,
                    play_saved_sound: false,
                    enrich: false,
                    sets_media_folder: true,
                }
            },
            ServiceEvent::Status(status) => {
                self.observe_runtime_event(event);
                if !self.accept_service_status(generation, status.recording) {
                    return dropped;
                }
                PumpedEvent {
                    channel: Some("status"),
                    play_saved_sound: false,
                    enrich: false,
                    sets_media_folder: false,
                }
            },
            ServiceEvent::Saved(saved) => {
                self.observe_runtime_event(event);
                PumpedEvent {
                    channel: Some("saved"),
                    play_saved_sound: !saved.full_session,
                    enrich: saved.full_session,
                    sets_media_folder: false,
                }
            },
            ServiceEvent::Error { .. } => {
                self.observe_runtime_event(event);
                PumpedEvent {
                    channel: Some("error"),
                    play_saved_sound: false,
                    enrich: false,
                    sets_media_folder: false,
                }
            },
        }
    }
}

// ---------------------------------------------------------------------------
// Laws
// ---------------------------------------------------------------------------

/// A service that was replaced or stopped is not heard any more: neither its status nor its
/// quota is accepted, whether another took over or none did.
pub proof fn law_replaced_service_is_not_heard(s: RuntimeState, tx: ServiceHandle)
    ensures
        !is_current(installed(s, tx), s.recording_generation),
        !is_current(detached(s), s.recording_generation),
        !is_current(stopped(s), s.recording_generation),
        is_current(installed(s, tx), next_generation(s.recording_generation)),
{
}

/// A restart that was decided on before the user stopped recording never brings it back,
/// and one that was decided on before a newer restart or start gives way to that one.
pub proof fn law_late_restart_is_discarded(
    s: RuntimeState,
    base: Result<ServiceOptions, String>,
    prepared: PreparedServiceRestart,
    tx: ServiceHandle,
)
    requires
        is_prepared(prepared, s, base),
        prepared.replacement is Some,
    ensures
        accepts_restart(detached(s), (prepared.replacement->0).1),
        !accepts_restart(stopped(detached(s)), (prepared.replacement->0).1),
        !accepts_restart(detached(detached(s)), (prepared.replacement->0).1),
        !accepts_restart(installed(detached(s), tx), (prepared.replacement->0).1),
        !accepts_restart(after_failed_restart(detached(s)), (prepared.replacement->0).1),
{
}

/// While the quota blocks recording no service is wanted, none is accepted, and the user is
/// not told that a game is awaited.
pub proof fn law_quota_blocks_recording(
    s: RuntimeState,
    settings: AppSettings,
    game: Option<DetectedGame>,
    generation: u64,
)
    requires
        s.quota_blocked is Some,
    ensures
        !wants_service(s, settings, game),
        !awaits_game(s, settings, game),
        !accepts_restart(s, generation),
{
}

/// A stop by the quota keeps the wish to record; any other stop ends it.
pub proof fn law_quota_keeps_the_wish(s: RuntimeState, status: RecorderStatus)
    requires
        s.tx is Some,
        !status.recording,
    ensures
        s.quota_blocked is Some ==> after_event(
            s,
            ServiceEvent::Status(status),
            s.recording_generation,
        ).recording_desired == s.recording_desired,
        s.quota_blocked is None ==> !after_event(
            s,
            ServiceEvent::Status(status),
            s.recording_generation,
        ).recording_desired,
        after_event(s, ServiceEvent::Status(status), s.recording_generation).tx is None,
{
}

/// The user's stop ends a wait for a game, and a wait is over once a service runs.
pub proof fn law_wait_ends(s: RuntimeState, tx: ServiceHandle, generation: u64)
    ensures
        !still_waiting(stopped(s), generation),
        !still_waiting(installed(s, tx), generation),
{
}

/// Exactly one of the following holds of a recorder that is wanted: the quota blocks it, it
/// runs or is being started, or it waits for a game.
pub proof fn law_wanted_recorder_is_accounted_for(
    s: RuntimeState,
    settings: AppSettings,
    game: Option<DetectedGame>,
)
    requires
        s.recording_desired,
    ensures
        s.quota_blocked is Some || wants_service(s, settings, game) || awaits_game(
            s,
            settings,
            game,
        ),
        !(wants_service(s, settings, game) && awaits_game(s, settings, game)),
        s.quota_blocked is Some ==> !wants_service(s, settings, game) && !awaits_game(
            s,
            settings,
            game,
        ),
{
}

/// Deleting down to the size that a step asks for makes room for what is to be recorded,
/// unless that alone is larger than the quota.
pub proof fn law_deletion_makes_room(total: u64, quota: u64, required: u64, left: u64)
    requires
        over_quota(total, Some(quota), required),
        required <= quota,
        left <= quota_step(total, Some(quota), required, true)->bytes,
    ensures
        !over_quota(left, Some(quota), required),
        quota_step(left, Some(quota), required, false) == QuotaStep::Resolve,
{
}

/// H.264 is always among the codecs, first, and none occurs twice.
pub proof fn law_decodable_codecs(keys: Seq<Seq<char>>)
    ensures
        decodable(keys).len() >= 1,
        decodable(keys)[0] == Codec::H264,
        decodable(keys).no_duplicates(),
        decodable(keys).contains(Codec::Hevc) <==> keys.contains("hevc"@),
        decodable(keys).contains(Codec::Av1) <==> keys.contains("av1"@),
    decreases keys.len(),
{
    reveal_strlit("hevc");
    reveal_strlit("av1");
    if keys.len() == 0 {
        assert(decodable(keys) =~= seq![Codec::H264]);
    } else {
        let before = decodable(keys.drop_last());
        law_decodable_codecs(keys.drop_last());
        assert("hevc"@ != "av1"@) by {
            assert("hevc"@.len() != "av1"@.len());
        }
        assert(keys =~= keys.drop_last().push(keys.last()));
        assert forall|name: Seq<char>|
            keys.contains(name) <==> keys.drop_last().contains(name) || keys.last() == name by {
            if keys.contains(name) {
                let i = choose|i: int| 0 <= i < keys.len() && keys[i] == name;
                if i < keys.len() - 1 {
                    assert(keys.drop_last()[i] == name);
                }
            }
            if keys.drop_last().contains(name) {
                let i = choose|i: int|
                    0 <= i < keys.drop_last().len() && keys.drop_last()[i] == name;
                assert(keys[i] == name);
            }
            if keys.last() == name {
                assert(keys[keys.len() - 1] == name);
            }
        }
        let now = decodable(keys);
        assert forall|codec: Codec, added: Codec| now == before.push(added) implies (
        now.contains(codec) <==> before.contains(codec) || codec == added) by {
            if now.contains(codec) {
                let i = choose|i: int| 0 <= i < now.len() && now[i] == codec;
                if i < before.len() {
                    assert(before[i] == codec);
                }
            }
            if before.contains(codec) {
                let i = choose|i: int| 0 <= i < before.len() && before[i] == codec;
                assert(now[i] == codec);
            }
            if codec == added {
                assert(now[before.len() as int] == codec);
            }
        }
    }
}

// ---------------------------------------------------------------------------
// Laws of the single decisions
// ---------------------------------------------------------------------------

/// The recorder runs unless games are looked for, it is to pause without one, and there is none.
pub proof fn law_recorder_pauses_without_a_game(
    settings: AppSettings,
    game: Option<DetectedGame>,
)
    ensures
        policy_runs(settings, game) <==> !(settings.games.auto_detect
            && settings.games.pause_when_no_game && game is None),
{
}

/// A service is wanted where recording is, nothing blocks it, and a session was started by hand or
/// the policy lets it run; it waits for a game where only the policy keeps it from running.
pub proof fn law_service_is_wanted(
    s: RuntimeState,
    settings: AppSettings,
    game: Option<DetectedGame>,
)
    ensures
        ({
            let paused = settings.games.auto_detect && settings.games.pause_when_no_game
                && game is None;
            let free = s.recording_desired && s.quota_blocked is None;
            &&& wants_service(s, settings, game) <==> free && (s.manual_full_session_desired
                || !paused)
            &&& awaits_game(s, settings, game) <==> free && !s.manual_full_session_desired && paused
        }),
{
}

/// The window of a game that was detected is captured, in the mode of that game and under its
/// name; without one what the settings say. A session by hand is a full session.
pub proof fn law_options_follow_the_game(
    options: ServiceOptions,
    base: ServiceOptions,
    game: Option<DetectedGame>,
    codecs: Seq<Codec>,
    manual: bool,
)
    requires
        options_planned(options, base, game, codecs, manual),
    ensures
        options.fps == base.fps,
        options.lol_url == base.lol_url,
        options.recover_abandoned_recordings == base.recover_abandoned_recordings,
        options.decodable_codecs@ == codecs,
        game matches Some(found) ==> options.capture_source == (CaptureSource::WindowHandle {
            hwnd: found.hwnd,
            title: found.window_title,
        }) && options.active_game == Some(
            ActiveGame { identity: found.identity, name: found.name, exe_path: found.exe_path },
        ),
        game is None ==> options.capture_source == base.capture_source && options.active_game
            == base.active_game,
        manual ==> options.recording_mode is FullSession,
        !manual && game is None ==> options.recording_mode == base.recording_mode,
        !manual ==> (game matches Some(found) ==> (options.recording_mode is FullSession
            <==> found.recording_mode is FullSession)),
{
}

/// A restart recovers no recordings, and is otherwise what was planned.
pub proof fn law_restart_recovers_nothing(
    options: ServiceOptions,
    base: ServiceOptions,
    game: Option<DetectedGame>,
    codecs: Seq<Codec>,
    manual: bool,
)
    requires
        options_for_restart(options, base, game, codecs, manual),
    ensures
        !options.recover_abandoned_recordings,
        options.fps == base.fps && options.lol_url == base.lol_url,
        options.decodable_codecs@ == codecs,
        game matches Some(found) ==> options.capture_source == (CaptureSource::WindowHandle {
            hwnd: found.hwnd,
            title: found.window_title,
        }),
        game is None ==> options.capture_source == base.capture_source,
        manual ==> options.recording_mode is FullSession,
        !manual && game is None ==> options.recording_mode == base.recording_mode,
{
    let first = choose|first: ServiceOptions| #[trigger]
        options_planned(first, base, game, codecs, manual) && options == (ServiceOptions {
            recover_abandoned_recordings: false,
            ..first
        });
    law_options_follow_the_game(first, base, game, codecs, manual);
}

/// A codec is offered exactly where it is H.264, which always is, or its key was named; each once.
pub proof fn law_offered_codecs(keys: Seq<Seq<char>>)
    ensures
        decodable(keys).contains(Codec::H264),
        decodable(keys).contains(Codec::Hevc) <==> keys.contains("hevc"@),
        decodable(keys).contains(Codec::Av1) <==> keys.contains("av1"@),
        decodable(keys).no_duplicates(),
    decreases keys.len(),
{
    reveal_strlit("hevc");
    reveal_strlit("av1");
    assert("hevc"@.len() != "av1"@.len());
    if keys.len() == 0 {
        let all = seq![Codec::H264];
        assert(decodable(keys) =~= all);
        assert(all[0] == Codec::H264);
    } else {
        let rest = keys.drop_last();
        law_offered_codecs(rest);
        let before = decodable(rest);
        let now = decodable(keys);
        lemma_contains_last(keys, "hevc"@);
        lemma_contains_last(keys, "av1"@);
        if now != before {
            let added = now.last();
            assert(now == before.push(added));
            assert(!before.contains(added));
            assert(now[before.len() as int] == added);
            assert forall|codec: Codec| #[trigger] now.contains(codec) <==> before.contains(codec)
                || codec == added by {
                if now.contains(codec) {
                    let i = choose|i: int| 0 <= i < now.len() && now[i] == codec;
                    if i < before.len() {
                        assert(before[i] == codec);
                    }
                }
                if before.contains(codec) {
                    let i = choose|i: int| 0 <= i < before.len() && before[i] == codec;
                    assert(now[i] == codec);
                }
            }
            assert(now.contains(Codec::H264));
            assert(now.contains(Codec::Hevc) <==> before.contains(Codec::Hevc) || Codec::Hevc
                == added);
            assert(now.contains(Codec::Av1) <==> before.contains(Codec::Av1) || Codec::Av1
                == added);
        }
    }
}

proof fn lemma_contains_last(keys: Seq<Seq<char>>, key: Seq<char>)
    requires
        keys.len() > 0,
    ensures
        keys.contains(key) <==> keys.drop_last().contains(key) || keys.last() == key,
{
    if keys.contains(key) {
        let i = choose|i: int| 0 <= i < keys.len() && keys[i] == key;
        if i < keys.len() - 1 {
            assert(keys.drop_last()[i] == key);
        }
    }
    if keys.drop_last().contains(key) {
        let i = choose|i: int| 0 <= i < keys.drop_last().len() && keys.drop_last()[i] == key;
        assert(keys[i] == key);
    }
    if keys.last() == key {
        assert(keys[keys.len() - 1] == key);
    }
}

/// A service that is installed, taken out or stopped counts one more, so that what the one before
/// still says is not heard; what else is known stays.
pub proof fn law_services_are_counted(s: RuntimeState, tx: ServiceHandle, generation: u64)
    ensures
        installed(s, tx).tx == Some(tx),
        installed(s, tx).recording_desired,
        installed(s, tx).recording_generation == next_generation(s.recording_generation),
        installed(s, tx).last_save_request_ns is None,
        installed(s, tx).manual_full_session_desired == s.manual_full_session_desired,
        installed(s, tx).quota_blocked == s.quota_blocked,
        installed(s, tx).active_game == s.active_game,
        installed(s, tx).settings == s.settings,
        detached(s).tx is None,
        detached(s).recording_generation == next_generation(s.recording_generation),
        detached(s).recording_desired == s.recording_desired,
        detached(s).manual_full_session_desired == s.manual_full_session_desired,
        detached(s).quota_blocked == s.quota_blocked,
        detached(s).active_game == s.active_game,
        detached(s).settings == s.settings,
        stopped(s).tx is None,
        !stopped(s).recording_desired,
        !stopped(s).manual_full_session_desired,
        stopped(s).quota_blocked == s.quota_blocked,
        stopped(s).settings == s.settings,
        generation < 0xffff_ffff_ffff_ffff ==> next_generation(generation) == generation + 1,
        next_generation(0xffff_ffff_ffff_ffff) == 0,
        is_current(s, generation) <==> s.tx is Some && s.recording_generation == generation,
        accepts_restart(s, generation) <==> s.tx is None && s.recording_generation == generation
            && s.recording_desired && s.quota_blocked is None,
{
}

/// A restart replaces the service that runs by one under the next number where one is wanted, and
/// waits under that number where only a game is missing.
pub proof fn law_prepared_restart(
    prepared: PreparedServiceRestart,
    s: RuntimeState,
    base: Result<ServiceOptions, String>,
)
    requires
        is_prepared(prepared, s, base),
    ensures
        prepared.old_tx == s.tx,
        prepared.replacement is Some <==> s.recording_desired && s.quota_blocked is None && (
        s.manual_full_session_desired || !(s.settings.games.auto_detect
            && s.settings.games.pause_when_no_game && s.active_game is None)),
        prepared.replacement matches Some(replacement) ==> replacement.1 == next_generation(
            s.recording_generation,
        ) && !replacement.0.recover_abandoned_recordings && replacement.0.decodable_codecs@
            == s.decodable_codecs@ && (s.manual_full_session_desired
            ==> replacement.0.recording_mode is FullSession),
        prepared.waiting_for_game <==> s.recording_desired && s.quota_blocked is None
            && !s.manual_full_session_desired && s.settings.games.auto_detect
            && s.settings.games.pause_when_no_game && s.active_game is None,
        prepared.waiting_generation == if prepared.waiting_for_game {
            Some(next_generation(s.recording_generation))
        } else {
            None::<u64>
        },
{
    if let Some(replacement) = prepared.replacement {
        law_restart_recovers_nothing(
            replacement.0,
            base->Ok_0,
            s.active_game,
            s.decodable_codecs@,
            s.manual_full_session_desired,
        );
    }
}

/// A restart that failed leaves the service that runs in place.
pub proof fn law_failed_restart_keeps_the_service(s: RuntimeState)
    ensures
        after_failed_restart(s).tx == s.tx,
        s.tx is Some ==> after_failed_restart(s) == s,
        s.tx is None ==> after_failed_restart(s).recording_generation == next_generation(
            s.recording_generation,
        ),
        after_failed_restart(s).recording_desired == s.recording_desired,
        after_failed_restart(s).active_game == s.active_game,
{
}

/// What is heard is remembered: the last status, the storage of the last clip, and an error until
/// the recorder runs again.
pub proof fn law_events_are_remembered(
    s: RuntimeState,
    status: RecorderStatus,
    saved: SavedClip,
    message: String,
    path: String,
    full: QuotaFull,
)
    ensures
        observed(s, ServiceEvent::Status(status)).last_recorder_status == Some(status),
        observed(s, ServiceEvent::Status(status)).recent_recorder_error <==> s.recent_recorder_error
            && !status.recording,
        observed(s, ServiceEvent::Saved(saved)) == (RuntimeState {
            last_storage_status: Some(saved.storage),
            ..s
        }),
        observed(s, ServiceEvent::Error { message }) == (RuntimeState {
            recent_recorder_error: true,
            ..s
        }),
        observed(s, ServiceEvent::MediaRootResolved { path }) == s,
        observed(s, ServiceEvent::StorageQuotaFull(full)) == s,
        event_channel(ServiceEvent::Status(status)) == Some("status"@),
        event_channel(ServiceEvent::Saved(saved)) == Some("saved"@),
        event_channel(ServiceEvent::StorageQuotaFull(full)) == Some("storage-quota-full"@),
        event_channel(ServiceEvent::Error { message }) == Some("error"@),
        event_channel(ServiceEvent::MediaRootResolved { path }) is None,
{
}

/// A full quota blocks recording with its numbers where the service that runs says so; a service
/// that stopped ends the wish to record, unless the quota stopped it.
pub proof fn law_events_of_the_running_service(
    s: RuntimeState,
    status: RecorderStatus,
    full: QuotaFull,
    generation: u64,
)
    requires
        s.tx is Some,
        s.recording_generation == generation,
    ensures
        ({
            let after = after_event(s, ServiceEvent::StorageQuotaFull(full), generation);
            &&& after.quota_blocked == Some(full)
            &&& after.last_storage_status == Some(
                StorageStatus {
                    total_bytes: full.total_bytes,
                    quota_bytes: Some(full.quota_bytes),
                    over_quota: true,
                },
            )
            &&& after.tx == s.tx
            &&& after.recording_desired == s.recording_desired
        }),
        ({
            let after = after_event(s, ServiceEvent::Status(status), generation);
            &&& after.last_recorder_status == Some(status)
            &&& status.recording ==> after.tx == s.tx && after.recording_desired
                == s.recording_desired && after.recording_generation == s.recording_generation
            &&& !status.recording ==> after.tx is None
            &&& !status.recording && s.quota_blocked is None ==> !after.recording_desired
                && !after.manual_full_session_desired
            &&& !status.recording && s.quota_blocked is Some ==> after.recording_desired
                == s.recording_desired
        }),
        !is_stale_event(s, ServiceEvent::Status(status), generation),
        !is_stale_event(s, ServiceEvent::StorageQuotaFull(full), generation),
        is_stale_event(s, ServiceEvent::Status(status), next_generation(generation)),
        is_stale_event(s, ServiceEvent::StorageQuotaFull(full), next_generation(generation)),
{
}

/// A replay is saved where a service runs, nothing blocks it, and the request before it is at
/// least 150 milliseconds old.
pub proof fn law_saves_are_not_doubled(s: RuntimeState, now: u64, last: u64)
    ensures
        s.last_save_request_ns == Some(last) ==> (save_is_due(s, now) <==> s.tx is Some
            && s.quota_blocked is None && now - last >= 150_000_000),
        s.last_save_request_ns is None ==> (save_is_due(s, now) <==> s.tx is Some
            && s.quota_blocked is None),
        debounced(Some(last), now) <==> now < last + 150_000_000,
        !debounced(None, now),
{
}

/// The quota is full where what there is and what is needed do not fit under it together, and
/// never where there is none. It is met by deleting down to the rest of it where that is allowed;
/// where it is not, recording is blocked with these numbers.
pub proof fn law_quota_decides(total: u64, quota: Option<u64>, required: u64, may_delete: bool)
    ensures
        quota is None ==> quota_step(total, quota, required, may_delete) is Resolve,
        quota matches Some(limit) ==> {
            let step = quota_step(total, quota, required, may_delete);
            &&& total + required <= limit ==> step is Resolve
            &&& total + required > limit && !may_delete ==> step == (QuotaStep::Block {
                event: QuotaFull {
                    total_bytes: total,
                    quota_bytes: limit,
                    required_bytes: required,
                },
            })
            &&& total + required > limit && may_delete && required <= limit ==> step == (
            QuotaStep::DeleteDownTo { bytes: (limit - required) as u64 })
            &&& total + required > limit && may_delete && required > limit ==> step == (
            QuotaStep::DeleteDownTo { bytes: 0 })
            &&& over_quota(total, quota, required) <==> total + required > limit
        },
        !over_quota(total, None, required),
{
}

/// A recheck unblocks recording exactly where there is room, and starts it again where it is
/// wanted; where there is none, the new numbers are kept and, where that was asked for, shown.
pub proof fn law_recheck_ends_with_the_numbers(
    before: RuntimeState,
    after: RuntimeState,
    total: u64,
    quota: Option<u64>,
    required: u64,
    announce: bool,
    outcome: QuotaOutcome,
)
    requires
        recheck_ends(before, after, total, quota, required, announce, outcome),
    ensures
        outcome.unblocked <==> quota is None || total + required <= quota->0,
        after.quota_blocked is None <==> outcome.unblocked,
        outcome.restart <==> outcome.unblocked && before.recording_desired,
        !outcome.unblocked ==> after.quota_blocked == Some(
            QuotaFull { total_bytes: total, quota_bytes: quota->0, required_bytes: required },
        ),
        outcome.show == if announce {
            after.quota_blocked
        } else {
            None::<QuotaFull>
        },
        after == (RuntimeState { quota_blocked: after.quota_blocked, ..before }),
{
}

/// A recheck that may delete goes on to the clips where there is too little room, with the room
/// that is needed as its aim; a deletion goes on as long as there is too much and a clip that is
/// neither the source of a running upload nor a favorite was not tried.
pub proof fn law_recheck_deletes_for_room(
    required: u64,
    deletion: QuotaDeletion,
    clips: Seq<StoredClip>,
    next: QuotaCheck,
)
    requires
        deletion.wf(clips),
        deletion_goes_on(required, deletion, clips, next),
    ensures
        next is Deleting <==> deletion.left > deletion.target && exists|i: int|
            0 <= i < clips.len() && !clips[i].active_upload_source && !clips[i].favorite
                && !(#[trigger] deletion.tried@[i]),
        next is Deleting || next is MeasuringAgain,
        next matches QuotaCheck::Deleting { required_bytes, next: due, .. } ==> required_bytes
            == required && 0 <= due < clips.len() && !clips[due as int].active_upload_source
            && !clips[due as int].favorite && !deletion.tried@[due as int],
        next matches QuotaCheck::MeasuringAgain { required_bytes } ==> required_bytes == required,
{
    if let QuotaCheck::Deleting { next: due, .. } = next {
        assert(deletable(clips[due as int]));
        assert(!deletion.tried@[due as int]);
    }
    assert forall|i: int|
        0 <= i < clips.len() && !clips[i].active_upload_source
            && !clips[i].favorite implies deletable(#[trigger] clips[i]) by {}
}

/// A clip that was removed makes room of its size; one that was not makes none. Either way it was
/// tried, and the others as before.
pub proof fn law_removed_clips_make_room(
    deletion: QuotaDeletion,
    clips: Seq<StoredClip>,
    i: int,
    removed: bool,
    after: QuotaDeletion,
    j: int,
)
    requires
        after_deletion(deletion, clips, i, removed, after),
        deletion.wf(clips),
        0 <= i < clips.len(),
        0 <= j < clips.len(),
    ensures
        removed && clips[i].bytes <= deletion.left ==> after.left + clips[i].bytes == deletion.left,
        removed && clips[i].bytes > deletion.left ==> after.left == 0,
        !removed ==> after.left == deletion.left,
        after.target == deletion.target,
        after.tried@[i],
        j != i ==> after.tried@[j] == deletion.tried@[j],
{
}

/// A session runs where it was started by hand, or where the service that runs says so.
pub proof fn law_sessions(s: RuntimeState)
    ensures
        s.manual_full_session_desired ==> session_runs(s),
        !s.manual_full_session_desired ==> (session_runs(s) <==> s.tx is Some
            && s.last_recorder_status is Some && s.last_recorder_status->0.full_session),
        armed(s).manual_full_session_desired,
        armed(s).recording_desired,
        armed(s).last_save_request_ns is None,
        armed(s).tx == s.tx,
        armed(s).quota_blocked == s.quota_blocked,
        requested(s).recording_desired,
        requested(s).last_save_request_ns is None,
        requested(s).manual_full_session_desired == s.manual_full_session_desired,
        requested(s).tx == s.tx,
        requested(s).quota_blocked == s.quota_blocked,
{
}

/// The recorder starts anew for another window, another game or another mode, and for nothing
/// else; the window is told of every difference.
pub proof fn law_detections_restart(current: DetectedGame, next: DetectedGame)
    ensures
        detection_restarts(None, Some(next)),
        detection_restarts(Some(current), None),
        !detection_restarts(None, None),
        detection_restarts(Some(current), Some(next)) <==> !(current.hwnd == next.hwnd
            && current.recording_mode == next.recording_mode && (current.identity is Custom
            <==> next.identity is Custom) && crate::game_identity::identity_id(current.identity)
            == crate::game_identity::identity_id(next.identity)),
        unchanged_detection(None, None),
        !unchanged_detection(None, Some(next)),
        !unchanged_detection(Some(current), None),
        unchanged_detection(Some(current), Some(next)) ==> current.window_title@
            == next.window_title@ && current.name@ == next.name@ && current.process_id
            == next.process_id && current.exe_name@ == next.exe_name@ && !detection_restarts(
            Some(current),
            Some(next),
        ),
        unchanged_detection(Some(current), Some(current)),
{
}

/// A game is kept, under new settings as after a detection, exactly where it is configured.
pub proof fn law_configured_games_are_kept(
    s: RuntimeState,
    settings: AppSettings,
    detected: Option<DetectedGame>,
    plugin_configured: bool,
    titles: Vec<OsuTitleEvent>,
)
    ensures
        kept_game(s, settings, plugin_configured) == looked_for(
            settings,
            s.active_game,
            plugin_configured,
        ),
        looked_for(settings, None, plugin_configured) is None,
        detected matches Some(game) ==> game.identity is BuiltInPlugin ==> (looked_for(
            settings,
            detected,
            plugin_configured,
        ) is Some <==> settings.games.auto_detect && plugin_configured),
        looked_for(settings, detected, plugin_configured) is Some ==> looked_for(
            settings,
            detected,
            plugin_configured,
        ) == detected,
        resettled(s, settings, plugin_configured).settings == settings,
        resettled(s, settings, plugin_configured).tx is None,
        resettled(s, settings, plugin_configured).active_game == kept_game(
            s,
            settings,
            plugin_configured,
        ),
        resettled(s, settings, plugin_configured).recording_generation == s.recording_generation,
        resettled(s, settings, plugin_configured).recording_desired == s.recording_desired,
        resettled(s, settings, plugin_configured).quota_blocked == s.quota_blocked,
        with_game(s, detected, titles).active_game == detected,
        with_game(s, detected, titles).tx == s.tx,
        with_game(s, detected, titles).recording_generation == s.recording_generation,
{
}

/// Waiting for a game is shown as a recorder that does not record and holds nothing.
pub proof fn law_waiting_status(status: RecorderStatus)
    requires
        is_waiting_status(status),
    ensures
        !status.recording && status.waiting_for_game && status.segments == 0
            && status.buffered_s_bits == 0 && status.buffered_mb_bits == 0 && !status.full_session
            && status.encoder@.len() == 0 && status.capture_backend@.len() == 0,
{
}

/// What is told of new settings that took effect: the service that ran before, whether a game was
/// given up and whether the recorder waits for one; a new service runs where one is wanted.
pub proof fn law_new_settings_take_effect<T>(
    s: RuntimeState,
    settings: AppSettings,
    plugin_configured: bool,
    after: RuntimeState,
    committed: CommittedRuntimeRestart<T>,
)
    requires
        commit_reports(s, settings, plugin_configured, after, committed),
    ensures
        ({
            let keeps = still_configured(settings, s.active_game, plugin_configured);
            let game: Option<DetectedGame> = if keeps {
                s.active_game
            } else {
                None
            };
            &&& committed.old_tx == s.tx
            &&& committed.cleared_active_game <==> s.active_game is Some && !keeps
            &&& committed.replacement is Some <==> s.recording_desired && s.quota_blocked is None
                && (s.manual_full_session_desired || policy_runs(settings, game))
            &&& committed.waiting_for_game <==> s.recording_desired && s.quota_blocked is None
                && !s.manual_full_session_desired && !policy_runs(settings, game)
            &&& committed.waiting_for_game ==> committed.waiting_generation == Some(
                after.recording_generation,
            )
            &&& !committed.waiting_for_game ==> committed.waiting_generation is None
            &&& committed.replacement is Some ==> (committed.replacement->0).1
                == after.recording_generation
            &&& committed.replacement is None ==> {
                &&& after.settings == settings
                &&& after.active_game == game
                &&& after.tx is None
                &&& after.recording_desired == s.recording_desired
                &&& after.manual_full_session_desired == s.manual_full_session_desired
                &&& after.quota_blocked == s.quota_blocked
                &&& committed.waiting_for_game ==> after.recording_generation
                    != s.recording_generation && after.last_save_request_ns is None
                &&& !committed.waiting_for_game ==> after.recording_generation
                    == s.recording_generation
            }
        }),
{
}

/// A restart fails exactly where a service is wanted that the settings give no options for.
pub proof fn law_restarts_that_fail(s: RuntimeState, base: Result<ServiceOptions, String>)
    ensures
        restart_fails(s, base) <==> base is Err && s.recording_desired && s.quota_blocked is None
            && (s.manual_full_session_desired || !(s.settings.games.auto_detect
            && s.settings.games.pause_when_no_game && s.active_game is None)),
{
}

/// A wait is on while the recorder is wanted, no service runs under a later number, and there is
/// still no game to record.
pub proof fn law_waits_that_are_on(s: RuntimeState, generation: u64)
    ensures
        still_waiting(s, generation) <==> s.recording_generation == generation
            && s.recording_desired && s.tx is None && !s.manual_full_session_desired
            && s.settings.games.auto_detect && s.settings.games.pause_when_no_game
            && s.active_game is None,
{
}

} // verus!
