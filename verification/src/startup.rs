//! The start of the application: its arguments, what it does first, and what it tells the
//! user.

use crate::settings::{AppSettings, CaptureMode};
use crate::shortcuts::{global_hotkeys, parses_up_to, registered_ones};
use crate::text::{clone_strings, concat2, concat3, opt_view, str_eq, views};
use vstd::prelude::*;

verus! {

// ---------------------------------------------------------------------------
// Arguments
// ---------------------------------------------------------------------------

/// The argument that follows the first occurrence of a flag.
pub open spec fn argument_after(args: Seq<Seq<char>>, flag: Seq<char>) -> Option<Seq<char>> {
    if args.contains(flag) {
        let at = args.index_of_first(flag)->0;
        if at + 1 < args.len() {
            Some(args[at + 1])
        } else {
            None
        }
    } else {
        None
    }
}

fn position(args: &Vec<String>, flag: &str) -> (r: Option<usize>)
    ensures
        match r {
            Some(at) => views(args@).contains(flag@) && views(args@).index_of_first(flag@) == Some(
                at as int,
            ) && at < args@.len(),
            None => !views(args@).contains(flag@),
        },
{
    let mut i: usize = 0;
    while i < args.len()
        invariant
            i <= args@.len(),
            forall|k: int| 0 <= k < i ==> (#[trigger] views(args@)[k]) != flag@,
        decreases args@.len() - i,
    {
        if str_eq(args[i].as_str(), flag) {
            proof {
                assert(views(args@)[i as int] == flag@);
                views(args@).index_of_first_ensures(flag@);
            }
            return Some(i);
        }
        i += 1;
    }
    None
}

fn value_after(args: &Vec<String>, flag: &str) -> (r: Option<String>)
    ensures
        opt_view(r) == argument_after(views(args@), flag@),
{
    match position(args, flag) {
        Some(at) => {
            let count: usize = args.len();
            if at + 1 < count {
                Some(args[at + 1].clone())
            } else {
                None
            }
        },
        None => None,
    }
}

/// The quota as it was given: not at all, without its value, or as a text that is still to
/// be read.
#[derive(Debug, PartialEq, Eq)]
pub enum QuotaArgument {
    Absent,
    MissingValue,
    Value(String),
}

/// What the command line asks for.
#[derive(Debug, PartialEq, Eq)]
pub struct StartupArguments {
    pub window_title: Option<String>,
    pub lol_url: Option<String>,
    pub disk_quota_gb: QuotaArgument,
    pub launched_by_autostart: bool,
}

/// Reads the command line.
pub fn startup_arguments(args: &Vec<String>) -> (r: StartupArguments)
    ensures
        opt_view(r.window_title) == argument_after(views(args@), "--window"@),
        opt_view(r.lol_url) == argument_after(views(args@), "--lol-url"@),
        match r.disk_quota_gb {
            QuotaArgument::Absent => !views(args@).contains("--disk-quota-gb"@),
            QuotaArgument::MissingValue => views(args@).contains("--disk-quota-gb"@)
                && argument_after(views(args@), "--disk-quota-gb"@) is None,
            QuotaArgument::Value(value) => argument_after(views(args@), "--disk-quota-gb"@) == Some(
                value@,
            ),
        },
        r.launched_by_autostart == views(args@).contains("--autostart"@),
{
    let disk_quota_gb = match position(args, "--disk-quota-gb") {
        None => QuotaArgument::Absent,
        Some(_) => match value_after(args, "--disk-quota-gb") {
            Some(value) => QuotaArgument::Value(value),
            None => QuotaArgument::MissingValue,
        },
    };
    StartupArguments {
        window_title: value_after(args, "--window"),
        lol_url: value_after(args, "--lol-url"),
        disk_quota_gb,
        launched_by_autostart: launched_by_autostart(args),
    }
}

/// Whether the system started the application.
pub fn launched_by_autostart(args: &Vec<String>) -> (r: bool)
    ensures
        r == views(args@).contains("--autostart"@),
{
    position(args, "--autostart").is_some()
}

/// A window that was named on the command line is what is captured.
pub fn apply_window_argument(settings: &mut AppSettings, title: &Option<String>)
    ensures
        match title {
            Some(title) => {
                &&& final(settings).window_title@ == title@
                &&& *final(settings) == (AppSettings {
                    capture_mode: CaptureMode::WindowTitle,
                    window_title: final(settings).window_title,
                    ..*old(settings)
                })
            },
            None => *final(settings) == *old(settings),
        },
{
    if let Some(title) = title {
        settings.capture_mode = CaptureMode::WindowTitle;
        settings.window_title = title.clone();
    }
}

/// What the user is told where the command line asked for what is not possible.
pub fn invalid_arguments_warning(error: &str) -> (text: String)
    ensures
        text@
            == "Clipline started with safe defaults because command-line settings were invalid: "@
            + error@,
{
    concat2(
        "Clipline started with safe defaults because command-line settings were invalid: ",
        error,
    )
}

/// Whether settings are those before, with the window and the quota that the command line
/// names. The quota is the bit pattern of its GiB.
pub open spec fn are_arguments_applied(
    before: AppSettings,
    title: Option<Seq<char>>,
    quota_bits: Option<u64>,
    applied: AppSettings,
) -> bool {
    let quota = match quota_bits {
        Some(bits) => bits,
        None => before.disk_quota_gb_bits,
    };
    match title {
        Some(title) => {
            &&& applied.window_title@ == title
            &&& applied == (AppSettings {
                capture_mode: CaptureMode::WindowTitle,
                window_title: applied.window_title,
                disk_quota_gb_bits: quota,
                ..before
            })
        },
        None => applied == (AppSettings { disk_quota_gb_bits: quota, ..before }),
    }
}

/// Whether the application starts with these settings and these warnings: with what the
/// command line asks for where that is possible, else with the defaults and a warning.
pub open spec fn is_started_with<V: FnOnce(&AppSettings) -> Result<(), String>>(
    before: AppSettings,
    title: Option<Seq<char>>,
    quota_bits: Option<u64>,
    validate: V,
    defaults: AppSettings,
    warnings: Seq<Seq<char>>,
    started: (AppSettings, Vec<String>),
) -> bool {
    exists|applied: AppSettings, outcome: Result<(), String>|
        {
            &&& #[trigger] call_ensures(validate, (&applied,), outcome)
            &&& are_arguments_applied(before, title, quota_bits, applied)
            &&& match outcome {
                Ok(_) => started.0 == applied && views(started.1@) == warnings,
                Err(error) => started.0 == defaults && views(started.1@) == warnings.push(
                    "Clipline started with safe defaults because command-line settings were invalid: "@
                        + error@,
                ),
            }
        }
}

/// The settings that the application starts with, and the warnings of the start. `warnings`
/// are those that the settings were read with, `quota_bits` the quota that the command line
/// sets.
pub fn startup_settings<V>(
    settings: AppSettings,
    title: &Option<String>,
    quota_bits: Option<u64>,
    validate: V,
    defaults: AppSettings,
    warnings: Vec<String>,
) -> (started: (AppSettings, Vec<String>)) where V: FnOnce(&AppSettings) -> Result<(), String>
    requires
        forall|applied: AppSettings|
            are_arguments_applied(settings, opt_view(*title), quota_bits, applied)
                ==> #[trigger] call_requires(validate, (&applied,)),
    ensures
        is_started_with(
            settings,
            opt_view(*title),
            quota_bits,
            validate,
            defaults,
            views(warnings@),
            started,
        ),
{
    let ghost before = settings;
    let ghost known = warnings@;
    let mut applied = settings;
    apply_window_argument(&mut applied, title);
    if let Some(bits) = quota_bits {
        applied.disk_quota_gb_bits = bits;
    }
    assert(are_arguments_applied(before, opt_view(*title), quota_bits, applied));
    let outcome = validate(&applied);
    assert(call_ensures(validate, (&applied,), outcome));
    match outcome {
        Ok(_) => (applied, warnings),
        Err(error) => {
            let mut told = warnings;
            told.push(invalid_arguments_warning(error.as_str()));
            assert(views(told@) =~= views(known).push(
                "Clipline started with safe defaults because command-line settings were invalid: "@
                    + error@,
            ));
            (defaults, told)
        },
    }
}

/// The quota that the command line sets, as the bit pattern of its GiB, where it sets one.
/// `parsed_bits` is the number that was read, `bytes` what it comes to.
pub fn quota_override(
    argument: &QuotaArgument,
    parsed_bits: Option<u64>,
    bytes: Result<Option<u64>, String>,
) -> (res: Result<Option<u64>, &'static str>)
    ensures
        match argument {
            QuotaArgument::Absent => res is Ok && res->Ok_0 is None,
            QuotaArgument::MissingValue => res is Err && res->Err_0@
                == "missing --disk-quota-gb value"@,
            QuotaArgument::Value(_) => match parsed_bits {
                None => res is Err && res->Err_0@ == "expected a number of GiB"@,
                Some(bits) => if is_unusable_quota(bits) {
                    res is Err && res->Err_0@ == "quota must be a non-negative finite number"@
                } else if bytes is Err && !is_zero(bits) {
                    res is Err && res->Err_0@ == "quota is too large"@
                } else {
                    res is Ok && res->Ok_0 == Some(bits)
                },
            },
        },
{
    match argument {
        QuotaArgument::Absent => Ok(None),
        QuotaArgument::MissingValue => Err("missing --disk-quota-gb value"),
        QuotaArgument::Value(_) => match parse_quota_gb(parsed_bits, bytes) {
            Ok(_) => Ok(parsed_bits),
            Err(error) => Err(error),
        },
    }
}

/// The quota that the application starts with: that of the settings, or the default where it
/// cannot be told in bytes.
pub fn startup_quota_bytes(from_settings: &Result<Option<u64>, String>, default_bytes: u64) -> (quota:
    Option<u64>)
    ensures
        quota == match from_settings {
            Ok(quota) => *quota,
            Err(_) => Some(default_bytes),
        },
{
    match from_settings {
        Ok(quota) => *quota,
        Err(_) => Some(default_bytes),
    }
}

/// Whether these are the shortcut of F6 alone.
pub open spec fn is_fallback_shortcut<S: FnOnce(&str) -> String>(
    shortcut_of: S,
    shortcuts: Seq<Seq<char>>,
) -> bool {
    exists|key: &str, shortcut: String| #[trigger]
        call_ensures(shortcut_of, (key,), shortcut) && key@ == "F6"@ && shortcuts
            == seq![shortcut@]
}

/// The shortcuts that the application starts with: those of the settings, or that of F6 where
/// one of them cannot be parsed. `shortcut_of` gives the shortcut of a key.
pub fn startup_global_hotkeys<S>(
    parsed: &Vec<Result<Option<String>, String>>,
    shortcut_of: S,
) -> (shortcuts: Vec<String>) where S: FnOnce(&str) -> String
    requires
        forall|key: &str|
            key@ == "F6"@ && !parses_up_to(parsed@, parsed@.len() as int)
                ==> #[trigger] call_requires(shortcut_of, (key,)),
    ensures
        if parses_up_to(parsed@, parsed@.len() as int) {
            views(shortcuts@) == registered_ones(parsed@)
        } else {
            is_fallback_shortcut(shortcut_of, views(shortcuts@))
        },
{
    match global_hotkeys(parsed) {
        Ok(shortcuts) => shortcuts,
        Err(_) => {
            let key = "F6";
            let shortcut = shortcut_of(key);
            let mut shortcuts: Vec<String> = Vec::new();
            shortcuts.push(shortcut);
            proof {
                assert(call_ensures(shortcut_of, (key,), shortcut));
                assert(views(shortcuts@) =~= seq![shortcut@]);
                assert(is_fallback_shortcut(shortcut_of, views(shortcuts@)));
            }
            shortcuts
        },
    }
}

// ---------------------------------------------------------------------------
// The first steps
// ---------------------------------------------------------------------------

/// What is done once the window system is up: whether recording starts, whether the window
/// opens, and what the registration for the start of the system is set to.
#[derive(Debug, Clone, Copy, PartialEq, Eq, Structural)]
pub struct StartupPlan {
    pub start_recorder: bool,
    pub open_window: bool,
    pub set_autostart: Option<bool>,
}

/// Recording waits for the setup of a first run; a start by the system leaves the window
/// closed; debug builds leave the registration alone.
pub fn startup_plan(
    first_run: bool,
    launched_by_autostart: bool,
    open_on_startup: bool,
    debug_build: bool,
) -> (plan: StartupPlan)
    ensures
        plan.start_recorder == !first_run,
        plan.open_window == !launched_by_autostart,
        plan.set_autostart == if debug_build {
            None
        } else {
            Some(open_on_startup)
        },
{
    StartupPlan {
        start_recorder: !first_run,
        open_window: !launched_by_autostart,
        set_autostart: if crate::settings::autostart_should_mutate_for_build(debug_build) {
            Some(open_on_startup)
        } else {
            None
        },
    }
}

/// Whether a second launch opens the window of the first: not when the system made it.
pub fn second_launch_opens_window(args: &Vec<String>) -> (r: bool)
    ensures
        r == !views(args@).contains("--autostart"@),
{
    !launched_by_autostart(args)
}

// ---------------------------------------------------------------------------
// Warnings of the start
// ---------------------------------------------------------------------------

/// The warnings of the start. They stay, so that every frontend that is created sees them.
#[derive(Debug, PartialEq, Eq)]
pub struct StartupWarnings {
    pub warnings: Vec<String>,
}

impl StartupWarnings {
    pub fn new(warnings: Vec<String>) -> (s: Self)
        ensures
            s.warnings == warnings,
    {
        StartupWarnings { warnings }
    }

    pub fn snapshot(&self) -> (warnings: Vec<String>)
        ensures
            warnings@ == self.warnings@,
    {
        clone_strings(&self.warnings)
    }
}

/// What the user is told where something of the start fails.
pub fn recorder_startup_error(error: &str) -> (text: String)
    ensures
        text@ == "recorder startup failed: "@ + error@,
{
    concat2("recorder startup failed: ", error)
}

pub fn global_hotkey_error(error: &str) -> (text: String)
    ensures
        text@ == "global save hotkey unavailable; continuing without it: "@ + error@,
{
    concat2("global save hotkey unavailable; continuing without it: ", error)
}

pub fn hook_error(error: &str) -> (text: String)
    ensures
        text@ == "low-level hotkey unavailable: "@ + error@,
{
    concat2("low-level hotkey unavailable: ", error)
}

// ---------------------------------------------------------------------------
// The game detector
// ---------------------------------------------------------------------------

/// The error of the detector that the user was told last.
#[derive(Debug, PartialEq, Eq)]
pub struct DetectorErrors {
    pub last: Option<String>,
}

impl DetectorErrors {
    /// Takes the outcome of one round in. An error is told once, until a round succeeds or
    /// another error comes.
    pub fn round(&mut self, outcome: Result<(), String>) -> (told: Option<String>)
        ensures
            match outcome {
                Ok(_) => final(self).last is None && told is None,
                Err(error) => {
                    &&& opt_view(final(self).last) == Some(error@)
                    &&& opt_view(told) == if opt_view(old(self).last) == Some(error@) {
                        None
                    } else {
                        Some("game detection: "@ + error@)
                    }
                },
            },
    {
        match outcome {
            Ok(_) => {
                self.last = None;
                None
            },
            Err(error) => {
                let repeated = match &self.last {
                    Some(last) => str_eq(last.as_str(), error.as_str()),
                    None => false,
                };
                if repeated {
                    None
                } else {
                    let text = concat2("game detection: ", error.as_str());
                    self.last = Some(error);
                    Some(text)
                }
            },
        }
    }
}

// ---------------------------------------------------------------------------
// Updates
// ---------------------------------------------------------------------------

/// Where updates come from.
#[derive(Debug, Clone, Copy, PartialEq, Eq, Structural)]
pub enum UpdateChannel {
    Stable,
    Nightly,
}

impl UpdateChannel {
    /// Only the nightly channel is open so far.
    pub fn enabled(&self) -> (r: bool)
        ensures
            r == (*self == UpdateChannel::Nightly),
    {
        match self {
            UpdateChannel::Stable => false,
            UpdateChannel::Nightly => true,
        }
    }
}

/// What the user is told where a channel has published nothing yet.
pub fn missing_release_metadata_message(channel_label: &str) -> (text: String)
    ensures
        text@ == "No "@ + channel_label@
            + " release metadata is published yet. Publish a "@ + channel_label@
            + " release first."@,
{
    let head = concat3("No ", channel_label, " release metadata is published yet. Publish a ");
    concat3(head.as_str(), channel_label, " release first.")
}

/// A channel that is not enabled is not asked for updates.
pub fn ensure_channel_enabled(channel: UpdateChannel, channel_label: &str) -> (res: Result<
    (),
    String,
>)
    ensures
        match res {
            Ok(_) => channel == UpdateChannel::Nightly,
            Err(error) => channel == UpdateChannel::Stable && error@ == channel_label@ + " updates are not available yet"@,
        },
{
    if channel.enabled() {
        Ok(())
    } else {
        Err(concat2(channel_label, " updates are not available yet"))
    }
}

/// An update that can be installed.
#[derive(Debug, PartialEq, Eq)]
pub struct AvailableUpdate {
    pub version: String,
    pub date: Option<String>,
    pub notes: Option<String>,
}

/// What a channel answered.
#[derive(Debug, PartialEq, Eq)]
pub enum UpdateLookup {
    Found(Option<AvailableUpdate>),
    ReleaseNotFound,
    Failed(String),
}

/// Whether this is the result of a lookup that ended so. That a channel has published nothing
/// yet is no error, but is told.
pub open spec fn is_lookup_result(
    lookup: UpdateLookup,
    channel_label: Seq<char>,
    res: Result<(Option<AvailableUpdate>, Option<String>), String>,
) -> bool {
    match lookup {
        UpdateLookup::Found(update) => res == Ok::<
            (Option<AvailableUpdate>, Option<String>),
            String,
        >((update, None)),
        UpdateLookup::ReleaseNotFound => {
            &&& res matches Ok((update, status))
            &&& update is None
            &&& opt_view(status) == Some(
                "No "@ + channel_label + " release metadata is published yet. Publish a "@
                    + channel_label + " release first."@,
            )
        },
        UpdateLookup::Failed(error) => res == Err::<
            (Option<AvailableUpdate>, Option<String>),
            String,
        >(error),
    }
}

/// Asks an open channel for an update.
pub fn check_update_for_channel<L>(
    channel: UpdateChannel,
    channel_label: &str,
    look_up: L,
) -> (res: Result<(Option<AvailableUpdate>, Option<String>), String>) where
    L: FnOnce() -> UpdateLookup,

    requires
        channel == UpdateChannel::Nightly ==> call_requires(look_up, ()),
    ensures
        match channel {
            UpdateChannel::Stable => res matches Err(error) && error@ == channel_label@
                + " updates are not available yet"@,
            UpdateChannel::Nightly => exists|lookup: UpdateLookup| #[trigger]
                call_ensures(look_up, (), lookup) && is_lookup_result(
                    lookup,
                    channel_label@,
                    res,
                ),
        },
{
    if let Err(error) = ensure_channel_enabled(channel, channel_label) {
        return Err(error);
    }
    let lookup = look_up();
    let ghost answered = lookup;
    let res = match lookup {
        UpdateLookup::Found(update) => Ok((update, None)),
        UpdateLookup::ReleaseNotFound => Ok(
            (None, Some(missing_release_metadata_message(channel_label))),
        ),
        UpdateLookup::Failed(error) => Err(error),
    };
    assert(call_ensures(look_up, (), answered) && is_lookup_result(
        answered,
        channel_label@,
        res,
    ));
    res
}

/// The update that is installed.
pub fn update_to_install(checked: (Option<AvailableUpdate>, Option<String>)) -> (res: Result<
    AvailableUpdate,
    String,
>)
    ensures
        match checked.0 {
            Some(update) => res == Ok::<AvailableUpdate, String>(update),
            None => res matches Err(error) && error@ == match checked.1 {
                Some(status) => status@,
                None => "no update is available"@,
            },
        },
{
    match checked.0 {
        Some(update) => Ok(update),
        None => Err(no_update_error(&checked.1)),
    }
}

/// Why nothing is installed where there is no update.
pub fn no_update_error(status: &Option<String>) -> (text: String)
    ensures
        text@ == match status {
            Some(status) => status@,
            None => "no update is available"@,
        },
{
    match status {
        Some(status) => status.clone(),
        None => "no update is available".to_owned(),
    }
}

// ---------------------------------------------------------------------------
// The icon of the tray
// ---------------------------------------------------------------------------

/// The side of the icon in pixels.
pub const TRAY_ICON_SIDE: usize = 32;

/// Four times the square of the distance of a pixel's centre from the middle of the icon.
pub open spec fn distance_4(x: int, y: int) -> int {
    (2 * x - 31) * (2 * x - 31) + (2 * y - 31) * (2 * y - 31)
}

/// One channel of a pixel: a red dot of radius seven on a dark disc of radius fifteen, on
/// nothing.
pub open spec fn icon_byte(x: int, y: int, channel: int) -> u8 {
    if distance_4(x, y) < 4 * 49 {
        seq![229u8, 72, 77, 255][channel]
    } else if distance_4(x, y) < 4 * 225 {
        seq![24u8, 26, 32, 255][channel]
    } else {
        0
    }
}

fn square_offset(v: usize) -> (r: u64)
    requires
        v < TRAY_ICON_SIDE,
    ensures
        r == (2 * v - 31) * (2 * v - 31),
        r <= 31 * 31,
{
    let d: u64 = if 2 * v >= 31 {
        (2 * v - 31) as u64
    } else {
        (31 - 2 * v) as u64
    };
    assert(d * d <= 31 * 31) by (nonlinear_arith)
        requires
            0 <= d <= 31,
    ;
    assert(d * d == (2 * v - 31) * (2 * v - 31)) by (nonlinear_arith)
        requires
            d == 2 * v - 31 || d == 31 - 2 * v,
    ;
    d * d
}

/// The pixels of the icon, row by row, four bytes each.
pub fn tray_icon() -> (rgba: Vec<u8>)
    ensures
        rgba@.len() == 4 * TRAY_ICON_SIDE * TRAY_ICON_SIDE,
        forall|x: int, y: int, channel: int|
            0 <= x < TRAY_ICON_SIDE && 0 <= y < TRAY_ICON_SIDE && 0 <= channel < 4
                ==> rgba@[(y * TRAY_ICON_SIDE + x) * 4 + channel] == #[trigger] icon_byte(
                x,
                y,
                channel,
            ),
{
    let mut rgba: Vec<u8> = Vec::new();
    let mut y: usize = 0;
    while y < TRAY_ICON_SIDE
        invariant
            y <= TRAY_ICON_SIDE,
            rgba@.len() == 128 * y,
            forall|i: int|
                0 <= i < rgba@.len() ==> (#[trigger] rgba@[i]) == icon_byte(
                    (i / 4) % 32,
                    i / 128,
                    i % 4,
                ),
        decreases TRAY_ICON_SIDE - y,
    {
        let vertical: u64 = square_offset(y);
        let mut x: usize = 0;
        while x < TRAY_ICON_SIDE
            invariant
                x <= TRAY_ICON_SIDE,
                y < TRAY_ICON_SIDE,
                vertical == (2 * y - 31) * (2 * y - 31),
                vertical <= 31 * 31,
                rgba@.len() == 128 * y + 4 * x,
                forall|i: int|
                    0 <= i < rgba@.len() ==> (#[trigger] rgba@[i]) == icon_byte(
                        (i / 4) % 32,
                        i / 128,
                        i % 4,
                    ),
            decreases TRAY_ICON_SIDE - x,
        {
            let distance: u64 = square_offset(x) + vertical;
            let (red, green, blue, alpha): (u8, u8, u8, u8) = if distance < 196 {
                (229, 72, 77, 255)
            } else if distance < 900 {
                (24, 26, 32, 255)
            } else {
                (0, 0, 0, 0)
            };
            let ghost before = rgba@;
            rgba.push(red);
            rgba.push(green);
            rgba.push(blue);
            rgba.push(alpha);
            proof {
                let base = 128 * y + 4 * x;
                assert forall|i: int| 0 <= i < rgba@.len() implies (#[trigger] rgba@[i])
                    == icon_byte((i / 4) % 32, i / 128, i % 4) by {
                    if i < base {
                        assert(rgba@[i] == before[i]);
                    } else {
                        let channel = i - base;
                        assert(i / 4 == 32 * y + x && i % 4 == channel);
                        assert(i / 128 == y);
                        assert((i / 4) % 32 == x);
                    }
                }
            }
            x += 1;
        }
        y += 1;
    }
    assert forall|x: int, y: int, channel: int|
        0 <= x < TRAY_ICON_SIDE && 0 <= y < TRAY_ICON_SIDE && 0 <= channel < 4 implies rgba@[(y
        * TRAY_ICON_SIDE + x) * 4 + channel] == #[trigger] icon_byte(x, y, channel) by {
        let i = (y * 32 + x) * 4 + channel;
        assert(0 <= i < rgba@.len());
        assert(i / 4 == 32 * y + x && i % 4 == channel);
        assert(i / 128 == y);
        assert((i / 4) % 32 == x);
        assert(rgba@[i] == icon_byte((i / 4) % 32, i / 128, i % 4));
    }
    rgba
}

// ---------------------------------------------------------------------------
// The quota
// ---------------------------------------------------------------------------

/// Bit patterns of the numbers of double precision that are neither finite nor a zero or
/// above.
pub open spec fn is_unusable_quota(bits: u64) -> bool {
    ||| 0x7ff0_0000_0000_0000 <= bits < 0x8000_0000_0000_0000
    ||| bits > 0x8000_0000_0000_0000
}

/// Bit patterns of the two zeros of double precision.
pub open spec fn is_zero(bits: u64) -> bool {
    bits == 0 || bits == 0x8000_0000_0000_0000
}

/// The quota in bytes that was asked for in GiB; zero stands for none. `parsed_bits` is the
/// bit pattern of the number that was read, and `bytes` what it comes to in bytes.
pub fn parse_quota_gb(parsed_bits: Option<u64>, bytes: Result<Option<u64>, String>) -> (res: Result<
    Option<u64>,
    &'static str,
>)
    ensures
        match parsed_bits {
            None => res is Err && res->Err_0@ == "expected a number of GiB"@,
            Some(bits) => if is_unusable_quota(bits) {
                res is Err && res->Err_0@ == "quota must be a non-negative finite number"@
            } else if is_zero(bits) {
                res is Ok && res->Ok_0 is None
            } else {
                match bytes {
                    Ok(quota) => res is Ok && res->Ok_0 == quota,
                    Err(_) => res is Err && res->Err_0@ == "quota is too large"@,
                }
            },
        },
{
    let bits = match parsed_bits {
        Some(bits) => bits,
        None => return Err("expected a number of GiB"),
    };
    if (0x7ff0_0000_0000_0000 <= bits && bits < 0x8000_0000_0000_0000) || bits
        > 0x8000_0000_0000_0000 {
        return Err("quota must be a non-negative finite number");
    }
    if bits == 0 || bits == 0x8000_0000_0000_0000 {
        return Ok(None);
    }
    match bytes {
        Ok(quota) => Ok(quota),
        Err(_) => Err("quota is too large"),
    }
}

/// The value of an argument is what stands behind it where it stands first; without it, and where
/// nothing stands behind it, there is none.
pub proof fn law_value_stands_behind_its_argument(
    before: Seq<Seq<char>>,
    flag: Seq<char>,
    value: Seq<char>,
    after: Seq<Seq<char>>,
)
    requires
        !before.contains(flag),
    ensures
        argument_after(before + seq![flag, value] + after, flag) == Some(value),
        argument_after(before + seq![flag], flag) is None,
        argument_after(before, flag) is None,
{
    let args = before + seq![flag, value] + after;
    let at = before.len() as int;
    assert(args[at] == flag);
    assert(args.contains(flag));
    assert forall|k: int| 0 <= k < at implies args[k] != flag by {
        assert(args[k] == before[k]);
    }
    args.index_of_first_ensures(flag);
    assert(args.index_of_first(flag) == Some(at));
    assert(args[at + 1] == value);
    let last = before + seq![flag];
    assert(last[at] == flag);
    assert(last.contains(flag));
    assert forall|k: int| 0 <= k < at implies last[k] != flag by {
        assert(last[k] == before[k]);
    }
    last.index_of_first_ensures(flag);
    assert(last.index_of_first(flag) == Some(at));
}

/// A window that was named is captured by its title, and a quota that was given is taken over;
/// without them the settings stay, and so does everything else.
pub proof fn law_arguments_override_the_settings(
    before: AppSettings,
    title: Option<Seq<char>>,
    quota_bits: Option<u64>,
    applied: AppSettings,
)
    requires
        are_arguments_applied(before, title, quota_bits, applied),
    ensures
        title is Some ==> applied.capture_mode is WindowTitle && applied.window_title@ == title->0,
        title is None ==> applied.capture_mode == before.capture_mode && applied.window_title
            == before.window_title,
        quota_bits is Some ==> applied.disk_quota_gb_bits == quota_bits->0,
        quota_bits is None ==> applied.disk_quota_gb_bits == before.disk_quota_gb_bits,
        applied == (AppSettings {
            capture_mode: applied.capture_mode,
            window_title: applied.window_title,
            disk_quota_gb_bits: applied.disk_quota_gb_bits,
            ..before
        }),
{
}

/// A quota is a finite number that is not negative: the sign decides, but for that of zero, and
/// the exponent of infinities and of what is no number.
pub proof fn law_usable_quotas(bits: u64)
    ensures
        is_zero(bits) <==> bits == 0 || bits == 0x8000_0000_0000_0000,
        is_zero(bits) ==> !is_unusable_quota(bits),
        bits < 0x7ff0_0000_0000_0000 ==> !is_unusable_quota(bits),
        0x7ff0_0000_0000_0000 <= bits && bits != 0x8000_0000_0000_0000 ==> is_unusable_quota(bits),
{
}

/// The icon is a red dot of radius seven in a dark disc of radius fifteen round the middle of the
/// square, and clear round it.
pub proof fn law_icon_is_a_red_dot(x: int, y: int)
    ensures
        ({
            let d = (2 * x - 31) * (2 * x - 31) + (2 * y - 31) * (2 * y - 31);
            &&& d < 14 * 14 ==> icon_byte(x, y, 0) == 229 && icon_byte(x, y, 1) == 72 && icon_byte(
                x,
                y,
                2,
            ) == 77 && icon_byte(x, y, 3) == 255
            &&& 14 * 14 <= d < 30 * 30 ==> icon_byte(x, y, 0) == 24 && icon_byte(x, y, 1) == 26
                && icon_byte(x, y, 2) == 32 && icon_byte(x, y, 3) == 255
            &&& d >= 30 * 30 ==> icon_byte(x, y, 0) == 0 && icon_byte(x, y, 1) == 0 && icon_byte(
                x,
                y,
                2,
            ) == 0 && icon_byte(x, y, 3) == 0
        }),
{
}

/// What was found is told as it is, and an error as it is; where nothing was released yet that is
/// said, and no update is named.
pub proof fn law_lookups_are_told(
    lookup: UpdateLookup,
    channel_label: Seq<char>,
    res: Result<(Option<AvailableUpdate>, Option<String>), String>,
)
    requires
        is_lookup_result(lookup, channel_label, res),
    ensures
        lookup matches UpdateLookup::Found(update) ==> res is Ok && res->Ok_0.0 == update
            && res->Ok_0.1 is None,
        lookup matches UpdateLookup::Failed(error) ==> res is Err && res->Err_0 == error,
        lookup is ReleaseNotFound ==> res is Ok && res->Ok_0.0 is None && res->Ok_0.1 is Some
            && res->Ok_0.1->0@ == "No "@ + channel_label
            + " release metadata is published yet. Publish a "@ + channel_label
            + " release first."@,
{
}

/// Valid arguments are what the application starts with, without a warning; where they are not
/// valid, it starts with the defaults and says so after the warnings that there are.
pub proof fn law_invalid_arguments_are_dropped<V: FnOnce(&AppSettings) -> Result<(), String>>(
    before: AppSettings,
    title: Option<Seq<char>>,
    quota_bits: Option<u64>,
    validate: V,
    defaults: AppSettings,
    warnings: Seq<Seq<char>>,
    started: (AppSettings, Vec<String>),
)
    requires
        is_started_with(before, title, quota_bits, validate, defaults, warnings, started),
    ensures
        (forall|applied: AppSettings, error: String|
            !#[trigger] call_ensures(validate, (&applied,), Err::<(), String>(error)))
            ==> are_arguments_applied(before, title, quota_bits, started.0) && views(started.1@)
            == warnings,
        (forall|applied: AppSettings|
            !#[trigger] call_ensures(validate, (&applied,), Ok::<(), String>(()))) ==> {
            &&& started.0 == defaults
            &&& started.1@.len() == warnings.len() + 1
            &&& views(started.1@).drop_last() == warnings
            &&& exists|applied: AppSettings, error: String| #[trigger]
                call_ensures(validate, (&applied,), Err::<(), String>(error))
                    && are_arguments_applied(before, title, quota_bits, applied)
                    && views(started.1@).last()
                    == "Clipline started with safe defaults because command-line settings were invalid: "@
                    + error@
        },
{
    let (applied, outcome) = choose|applied: AppSettings, outcome: Result<(), String>|
        {
            &&& #[trigger] call_ensures(validate, (&applied,), outcome)
            &&& are_arguments_applied(before, title, quota_bits, applied)
            &&& match outcome {
                Ok(_) => started.0 == applied && views(started.1@) == warnings,
                Err(error) => started.0 == defaults && views(started.1@) == warnings.push(
                    "Clipline started with safe defaults because command-line settings were invalid: "@
                        + error@,
                ),
            }
        };
    match outcome {
        Ok(unit) => {
            assert(outcome == Ok::<(), String>(()));
        },
        Err(error) => {
            assert(views(started.1@).drop_last() =~= warnings);
        },
    }
}

/// Where the hotkeys of the settings cannot be read, F6 is the one that is registered.
pub proof fn law_f6_is_the_last_resort<S: FnOnce(&str) -> String>(
    shortcut_of: S,
    shortcuts: Seq<Seq<char>>,
)
    requires
        is_fallback_shortcut(shortcut_of, shortcuts),
    ensures
        shortcuts.len() == 1,
        exists|key: &str, shortcut: String| #[trigger]
            call_ensures(shortcut_of, (key,), shortcut) && key@ == "F6"@ && shortcuts[0]
                == shortcut@,
{
}

} // verus!
