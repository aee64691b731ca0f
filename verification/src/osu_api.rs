//! The osu! account: operations on it, the work that belongs to it, and what is shown of it.

use crate::settings::OsuApiSettings;
use crate::text::{clone_opt, concat2, join, joined, opt_eq, opt_view, views};
use vstd::prelude::*;

verus! {

/// How many operations may run at a time.
pub const MAX_OSU_OPERATIONS: usize = 64;

/// How often the account is read until it and the settings agree.
pub const STATUS_ATTEMPTS: usize = 3;

/// The page that explains how to set the connection up.
pub const OSU_SETUP_GUIDE_HTML: &'static str = r#"<!doctype html>
<html lang="en">
<head>
  <meta charset="utf-8">
  <meta name="viewport" content="width=device-width, initial-scale=1">
  <title>Clipline osu! API setup</title>
  <style>
    :root { color-scheme: dark; font-family: Inter, Segoe UI, sans-serif; background: #111317; color: #f5f7fb; }
    body { margin: 0; padding: 32px; line-height: 1.5; }
    main { max-width: 780px; margin: 0 auto; }
    h1 { margin: 0 0 8px; font-size: 28px; }
    h2 { margin-top: 28px; font-size: 18px; }
    a { color: #ff8ac6; }
    code { padding: 2px 5px; border-radius: 4px; background: #20242c; }
    li { margin: 8px 0; }
    .note { padding: 12px 14px; border: 1px solid #343946; border-radius: 8px; background: #181b22; }
  </style>
</head>
<body>
<main>
  <h1>Clipline osu! API setup</h1>
  <p class="note">Clipline uses an osu! OAuth app with the client credentials grant. Your client secret is stored locally in Windows Credential Manager and is never written to settings.json.</p>
  <h2>Create the osu! OAuth app</h2>
  <ol>
    <li>Open <a href="https://osu.ppy.sh/home/account/edit#oauth" target="_blank" rel="noreferrer">osu! account OAuth settings</a>.</li>
    <li>Create a new OAuth application.</li>
    <li>Name it <code>Clipline</code> or another name you recognize.</li>
    <li>For Application Callback URL, enter <code>http://127.0.0.1</code>. Clipline does not use the callback for this direct API mode, but osu! requires a value.</li>
    <li>Copy the Client ID and Client Secret into Clipline.</li>
    <li>Enter your osu! user id or username, then click <strong>Test osu! API connection</strong>.</li>
  </ol>
  <h2>What Clipline reads</h2>
  <p>Clipline requests only the public scope and fetches recent osu!standard scores, including failed submitted plays when osu! returns them.</p>
</main>
</body>
</html>
"#;

pub fn osu_setup_guide_html() -> (page: &'static str)
    ensures
        page == OSU_SETUP_GUIDE_HTML,
{
    OSU_SETUP_GUIDE_HTML
}

// ---------------------------------------------------------------------------
// What is shown of the account
// ---------------------------------------------------------------------------

#[derive(Debug, PartialEq, Eq)]
pub struct OsuApiConnectionStatus {
    pub configured: bool,
    pub secret_present: bool,
    pub client_id: Option<String>,
    pub user: Option<String>,
    pub credential_target: Option<String>,
    pub username: Option<String>,
}

#[derive(Debug, PartialEq, Eq)]
pub struct OsuApiConnectionTestResult {
    pub status: OsuApiConnectionStatus,
    pub score_count: usize,
    pub failed_count: usize,
    pub started_at_count: usize,
    pub ended_at_count: usize,
    pub pagination_ceiling_reached: bool,
}

/// The state of the account as its service knows it.
#[derive(Debug, PartialEq, Eq)]
pub struct OsuAccountStatus {
    pub account_generation: u64,
    pub configured: bool,
    pub secret_present: bool,
    pub client_id: Option<String>,
    pub user: Option<String>,
    pub username: Option<String>,
}

/// The state of the account with the place of its secret.
pub fn compatibility_status(status: OsuAccountStatus, profile: &OsuApiSettings) -> (
    r: OsuApiConnectionStatus)
    ensures
        r == (OsuApiConnectionStatus {
            configured: status.configured,
            secret_present: status.secret_present,
            client_id: status.client_id,
            user: status.user,
            credential_target: profile.credential_target,
            username: status.username,
        }),
{
    OsuApiConnectionStatus {
        configured: status.configured,
        secret_present: status.secret_present,
        client_id: status.client_id,
        user: status.user,
        credential_target: clone_opt(&profile.credential_target),
        username: status.username,
    }
}

/// Whether a state and the settings are of the same account.
pub open spec fn agree(status: OsuAccountStatus, profile: OsuApiSettings) -> bool {
    &&& status.account_generation == profile.account_generation
    &&& opt_view(status.client_id) == opt_view(profile.client_id)
    &&& opt_view(status.user) == opt_view(profile.user)
}

fn status_matches(status: &OsuAccountStatus, profile: &OsuApiSettings) -> (r: bool)
    ensures
        r == agree(*status, *profile),
{
    status.account_generation == profile.account_generation && opt_eq(
        &status.client_id,
        &profile.client_id,
    ) && opt_eq(&status.user, &profile.user)
}

/// One reading of the state and of the settings.
pub ghost struct StatusReading {
    pub status: Result<OsuAccountStatus, String>,
    pub profile: Result<OsuApiSettings, String>,
}

/// A reading that is answered with an error, or agrees.
pub open spec fn settles(reading: StatusReading) -> bool {
    reading.status is Err || reading.profile is Err || agree(
        reading.status->Ok_0,
        reading.profile->Ok_0,
    )
}

/// The answer that a reading gives.
pub open spec fn reading_answer(reading: StatusReading) -> Result<
    (OsuAccountStatus, OsuApiSettings),
    String,
> {
    match reading.status {
        Err(error) => Err(error),
        Ok(status) => match reading.profile {
            Err(error) => Err(error),
            Ok(profile) => Ok((status, profile)),
        },
    }
}

/// `reading` is one that the two calls can give; the settings are read only after the state
/// was.
pub open spec fn is_reading<S, P>(
    read_status: S,
    read_profile: P,
    attempt: usize,
    reading: StatusReading,
) -> bool where
    S: Fn(usize) -> Result<OsuAccountStatus, String>,
    P: Fn(usize) -> Result<OsuApiSettings, String>,
 {
    &&& call_ensures(read_status, (attempt,), reading.status)
    &&& reading.status is Ok ==> call_ensures(read_profile, (attempt,), reading.profile)
}

/// Whether an attempt gave a reading that settles nothing.
pub open spec fn attempt_unsettled<S, P>(read_status: S, read_profile: P, attempt: usize) -> bool where
    S: Fn(usize) -> Result<OsuAccountStatus, String>,
    P: Fn(usize) -> Result<OsuApiSettings, String>,
 {
    exists|reading: StatusReading| #[trigger]
        is_reading(read_status, read_profile, attempt, reading) && !settles(reading)
}

/// Whether an attempt, the first after those that settled nothing, gave this answer.
pub open spec fn attempt_settled<S, P>(
    read_status: S,
    read_profile: P,
    attempt: usize,
    res: Result<(OsuAccountStatus, OsuApiSettings), String>,
) -> bool where
    S: Fn(usize) -> Result<OsuAccountStatus, String>,
    P: Fn(usize) -> Result<OsuApiSettings, String>,
 {
    &&& attempt < STATUS_ATTEMPTS
    &&& forall|earlier: usize|
        earlier < attempt ==> #[trigger] attempt_unsettled(read_status, read_profile, earlier)
    &&& exists|reading: StatusReading| #[trigger]
        is_reading(read_status, read_profile, attempt, reading) && settles(reading) && res
            == reading_answer(reading)
}

/// Reads the state and the settings until they agree, a few times at most. The readers are
/// given the number of the attempt.
pub fn coherent_status<S, P>(read_status: S, read_profile: P) -> (res: Result<
    (OsuAccountStatus, OsuApiSettings),
    String,
>) where
    S: Fn(usize) -> Result<OsuAccountStatus, String>,
    P: Fn(usize) -> Result<OsuApiSettings, String>,

    requires
        forall|attempt: usize|
            attempt < STATUS_ATTEMPTS ==> #[trigger] call_requires(read_status, (attempt,)),
        forall|attempt: usize|
            attempt < STATUS_ATTEMPTS ==> #[trigger] call_requires(read_profile, (attempt,)),
    ensures
        ({
            ||| exists|attempt: usize| #[trigger]
                attempt_settled(read_status, read_profile, attempt, res)
            ||| {
                &&& res is Err
                &&& res->Err_0@ == "osu! account changed while preparing compatibility status"@
                &&& forall|attempt: usize|
                    attempt < STATUS_ATTEMPTS ==> #[trigger] attempt_unsettled(
                        read_status,
                        read_profile,
                        attempt,
                    )
            }
        }),
{
    let mut attempt: usize = 0;
    while attempt < STATUS_ATTEMPTS
        invariant
            attempt <= STATUS_ATTEMPTS,
            forall|attempt: usize|
                attempt < STATUS_ATTEMPTS ==> #[trigger] call_requires(read_status, (attempt,)),
            forall|attempt: usize|
                attempt < STATUS_ATTEMPTS ==> #[trigger] call_requires(read_profile, (attempt,)),
            forall|earlier: usize|
                earlier < attempt ==> #[trigger] attempt_unsettled(
                    read_status,
                    read_profile,
                    earlier,
                ),
        decreases STATUS_ATTEMPTS - attempt,
    {
        let status = read_status(attempt);
        let status = match status {
            Ok(status) => status,
            Err(error) => {
                proof {
                    let reading = StatusReading { status: Err(error), profile: arbitrary() };
                    assert(is_reading(read_status, read_profile, attempt, reading));
                    assert(settles(reading));
                    assert(attempt_settled(read_status, read_profile, attempt, Err(error)));
                }
                return Err(error);
            },
        };
        let profile = read_profile(attempt);
        let profile = match profile {
            Ok(profile) => profile,
            Err(error) => {
                proof {
                    let reading = StatusReading { status: Ok(status), profile: Err(error) };
                    assert(is_reading(read_status, read_profile, attempt, reading));
                    assert(settles(reading));
                    assert(attempt_settled(read_status, read_profile, attempt, Err(error)));
                }
                return Err(error);
            },
        };
        let ghost reading = StatusReading { status: Ok(status), profile: Ok(profile) };
        assert(is_reading(read_status, read_profile, attempt, reading));
        if status_matches(&status, &profile) {
            assert(settles(reading));
            assert(attempt_settled(read_status, read_profile, attempt, Ok((status, profile))));
            return Ok((status, profile));
        }
        assert(attempt_unsettled(read_status, read_profile, attempt));
        attempt += 1;
    }
    Err("osu! account changed while preparing compatibility status".to_owned())
}

/// The settings that belong to a state. `profile` is what they are now.
pub fn exact_profile_for_status(
    profile: Result<OsuApiSettings, String>,
    status: &OsuAccountStatus,
) -> (res: Result<OsuApiSettings, String>)
    ensures
        match profile {
            Err(error) => res == Err::<OsuApiSettings, String>(error),
            Ok(profile) => match res {
                Ok(found) => agree(*status, profile) && found == profile,
                Err(error) => !agree(*status, profile) && error@
                    == "osu! account changed before the compatibility response was published"@,
            },
        },
{
    match profile {
        Err(error) => Err(error),
        Ok(profile) => if status_matches(status, &profile) {
            Ok(profile)
        } else {
            Err(
                "osu! account changed before the compatibility response was published".to_owned(),
            )
        },
    }
}

/// Why a secret was not accepted.
#[derive(Debug, PartialEq, Eq)]
pub enum SecretError {
    Empty,
    Other(String),
}

/// A secret that was submitted: an empty one counts as none. `parsed` is what reading it
/// gave.
pub fn submitted_secret<T>(parsed: Option<Result<T, SecretError>>) -> (res: Result<
    Option<T>,
    String,
>)
    ensures
        res == match parsed {
            None => Ok::<Option<T>, String>(None),
            Some(Ok(secret)) => Ok::<Option<T>, String>(Some(secret)),
            Some(Err(SecretError::Empty)) => Ok::<Option<T>, String>(None),
            Some(Err(SecretError::Other(text))) => Err::<Option<T>, String>(text),
        },
{
    match parsed {
        None => Ok(None),
        Some(Ok(secret)) => Ok(Some(secret)),
        Some(Err(SecretError::Empty)) => Ok(None),
        Some(Err(SecretError::Other(text))) => Err(text),
    }
}

// ---------------------------------------------------------------------------
// Operations
// ---------------------------------------------------------------------------

/// Work that belongs to an account can be cancelled by its fence.
#[derive(Debug, PartialEq, Eq)]
pub struct CurrentFence {
    pub expected: OsuApiSettings,
    pub fence: u64,
}

/// Whether two settings are of the same account.
pub open spec fn same_account(a: OsuApiSettings, b: OsuApiSettings) -> bool {
    &&& a.account_generation == b.account_generation
    &&& opt_view(a.client_id) == opt_view(b.client_id)
    &&& opt_view(a.user) == opt_view(b.user)
    &&& opt_view(a.credential_target) == opt_view(b.credential_target)
}

pub fn same_account_owner(left: &OsuApiSettings, right: &OsuApiSettings) -> (r: bool)
    ensures
        r == same_account(*left, *right),
{
    left.account_generation == right.account_generation && opt_eq(
        &left.client_id,
        &right.client_id,
    ) && opt_eq(&left.user, &right.user) && opt_eq(
        &left.credential_target,
        &right.credential_target,
    )
}

/// The operations on the account. Once `terminated`, nothing is accepted any more.
#[derive(Debug, PartialEq, Eq)]
pub struct TauriOsuRuntime {
    pub accepting: bool,
    pub terminated: bool,
    pub active_operations: usize,
    pub current_fence: Option<CurrentFence>,
    pub startup_warning: Option<String>,
}

/// Whether operations are accepted.
pub open spec fn is_open(s: TauriOsuRuntime) -> bool {
    s.accepting && !s.terminated
}

/// The fence that is in force.
pub open spec fn fence_of(s: TauriOsuRuntime) -> Option<u64> {
    match s.current_fence {
        Some(current) => Some(current.fence),
        None => None,
    }
}

/// The warnings of the start.
pub open spec fn start_warnings(
    http_error: Option<Seq<char>>,
    enrichment_error: Option<Seq<char>>,
) -> Seq<Seq<char>> {
    let first: Seq<Seq<char>> = match http_error {
        Some(error) => seq!["osu! HTTP unavailable: "@ + error],
        None => Seq::empty(),
    };
    match enrichment_error {
        Some(error) => first.push("osu! enrichment unavailable: "@ + error),
        None => first,
    }
}

/// How a wait for running operations goes on.
#[derive(Debug, Clone, Copy, PartialEq, Eq, Structural)]
pub enum QuiesceStep {
    Quiet,
    KeepWaiting,
}

/// How an end of the operations begins: it took place before, or these are to be cancelled
/// and the workers to be stopped.
#[derive(Debug, Clone, Copy, PartialEq, Eq, Structural)]
pub enum ShutdownStep {
    AlreadyDone,
    Seal { canceled: Option<u64> },
}

impl TauriOsuRuntime {
    /// At most so many operations run.
    pub open spec fn wf(self) -> bool {
        self.active_operations <= MAX_OSU_OPERATIONS
    }

    /// Starts, with what the services that could not be started said.
    pub fn start(http_error: &Option<String>, enrichment_error: &Option<String>) -> (s: Self)
        ensures
            s.wf(),
            is_open(s),
            s.active_operations == 0,
            s.current_fence is None,
            opt_view(s.startup_warning) == ({
                let warnings = start_warnings(opt_view(*http_error), opt_view(*enrichment_error));
                if warnings.len() == 0 {
                    None
                } else {
                    Some(joined(warnings, "; "@))
                }
            }),
    {
        let mut warnings: Vec<String> = Vec::new();
        if let Some(error) = http_error {
            warnings.push(concat2("osu! HTTP unavailable: ", error.as_str()));
        }
        if let Some(error) = enrichment_error {
            warnings.push(concat2("osu! enrichment unavailable: ", error.as_str()));
        }
        assert(views(warnings@) =~= start_warnings(
            opt_view(*http_error),
            opt_view(*enrichment_error),
        ));
        let startup_warning = if warnings.len() == 0 {
            None
        } else {
            Some(join(&warnings, "; "))
        };
        TauriOsuRuntime {
            accepting: true,
            terminated: false,
            active_operations: 0,
            current_fence: None,
            startup_warning,
        }
    }

    pub fn startup_warning(&self) -> (warning: Option<&str>)
        ensures
            match warning {
                Some(warning) => opt_view(self.startup_warning) == Some(warning@),
                None => self.startup_warning is None,
            },
    {
        match &self.startup_warning {
            Some(warning) => Some(warning.as_str()),
            None => None,
        }
    }

    pub fn begin_operation(&mut self) -> (res: Result<(), String>)
        requires
            old(self).wf(),
        ensures
            final(self).wf(),
            match res {
                Ok(_) => {
                    &&& is_open(*old(self))
                    &&& old(self).active_operations < MAX_OSU_OPERATIONS
                    &&& *final(self) == (TauriOsuRuntime {
                        active_operations: (old(self).active_operations + 1) as usize,
                        ..*old(self)
                    })
                },
                Err(error) => {
                    &&& *final(self) == *old(self)
                    &&& if !is_open(*old(self)) {
                        error@ == "osu! operations are quiescing"@
                    } else {
                        old(self).active_operations == MAX_OSU_OPERATIONS && error@
                            == "too many osu! operations are active"@
                    }
                },
            },
    {
        if !self.accepting || self.terminated {
            return Err("osu! operations are quiescing".to_owned());
        }
        if self.active_operations >= MAX_OSU_OPERATIONS {
            return Err("too many osu! operations are active".to_owned());
        }
        self.active_operations = self.active_operations + 1;
        Ok(())
    }

    /// An operation has ended.
    pub fn end_operation(&mut self)
        requires
            old(self).wf(),
        ensures
            final(self).wf(),
            *final(self) == (TauriOsuRuntime {
                active_operations: if old(self).active_operations > 0 {
                    (old(self).active_operations - 1) as usize
                } else {
                    0
                },
                ..*old(self)
            }),
    {
        if self.active_operations > 0 {
            self.active_operations = self.active_operations - 1;
        }
    }

    /// The fence of the work for an account: the one in force where it is of that account,
    /// else `fresh`. The second value is the fence that is to be cancelled for it.
    pub fn fence_for(&mut self, expected: OsuApiSettings, fresh: u64) -> (res: Result<
        (u64, Option<u64>),
        String,
    >)
        ensures
            match res {
                Err(error) => {
                    &&& !is_open(*old(self))
                    &&& error@ == "osu! operations are quiescing"@
                    &&& *final(self) == *old(self)
                },
                Ok(choice) => {
                    &&& is_open(*old(self))
                    &&& if old(self).current_fence is Some && same_account(
                        old(self).current_fence->0.expected,
                        expected,
                    ) {
                        &&& choice.0 == old(self).current_fence->0.fence
                        &&& choice.1 is None
                        &&& *final(self) == *old(self)
                    } else {
                        &&& choice.0 == fresh
                        &&& choice.1 == fence_of(*old(self))
                        &&& *final(self) == (TauriOsuRuntime {
                            current_fence: Some(CurrentFence { expected, fence: fresh }),
                            ..*old(self)
                        })
                    }
                },
            },
    {
        if !self.accepting || self.terminated {
            return Err("osu! operations are quiescing".to_owned());
        }
        let mut canceled: Option<u64> = None;
        if let Some(current) = &self.current_fence {
            if same_account_owner(&current.expected, &expected) {
                return Ok((current.fence, None));
            }
            canceled = Some(current.fence);
        }
        self.current_fence = Some(CurrentFence { expected, fence: fresh });
        Ok((fresh, canceled))
    }

    fn take_fence(&mut self) -> (fence: Option<u64>)
        ensures
            fence == fence_of(*old(self)),
            *final(self) == (TauriOsuRuntime { current_fence: None, ..*old(self) }),
    {
        let fence = match &self.current_fence {
            Some(current) => Some(current.fence),
            None => None,
        };
        self.current_fence = None;
        fence
    }

    /// Changes the account: the work for the old one is cancelled first.
    pub fn with_account_change<T, C, F>(&mut self, cancel: C, change: F) -> (res: Result<
        T,
        String,
    >) where C: FnOnce(u64), F: FnOnce() -> Result<T, String>
        requires
            is_open(*old(self)) && old(self).current_fence is Some ==> call_requires(
                cancel,
                (old(self).current_fence->0.fence,),
            ),
            is_open(*old(self)) && (old(self).current_fence is Some ==> call_ensures(
                cancel,
                (old(self).current_fence->0.fence,),
                (),
            )) ==> call_requires(change, ()),
        ensures
            if is_open(*old(self)) {
                &&& *final(self) == (TauriOsuRuntime { current_fence: None, ..*old(self) })
                &&& old(self).current_fence is Some ==> call_ensures(
                    cancel,
                    (old(self).current_fence->0.fence,),
                    (),
                )
                &&& call_ensures(change, (), res)
            } else {
                &&& *final(self) == *old(self)
                &&& res is Err
                &&& res->Err_0@ == "osu! operations are quiescing"@
            },
    {
        if !self.accepting || self.terminated {
            return Err("osu! operations are quiescing".to_owned());
        }
        if let Some(fence) = self.take_fence() {
            cancel(fence);
        }
        change()
    }

    /// Reads the account while no change of it is under way.
    pub fn with_account_read<T, F>(&self, read: F) -> (res: Result<T, String>) where
        F: FnOnce() -> Result<T, String>,

        requires
            is_open(*self) ==> call_requires(read, ()),
        ensures
            if is_open(*self) {
                call_ensures(read, (), res)
            } else {
                res is Err && res->Err_0@ == "osu! operations are quiescing"@
            },
    {
        if !self.accepting || self.terminated {
            return Err("osu! operations are quiescing".to_owned());
        }
        read()
    }

    /// Ends the work for an account; the fence that is to be cancelled is returned.
    pub fn cancel_matching(&mut self, expected: &OsuApiSettings) -> (fence: Option<u64>)
        ensures
            if old(self).current_fence is Some && same_account(
                old(self).current_fence->0.expected,
                *expected,
            ) {
                &&& fence == fence_of(*old(self))
                &&& *final(self) == (TauriOsuRuntime { current_fence: None, ..*old(self) })
            } else {
                &&& fence is None
                &&& *final(self) == *old(self)
            },
    {
        let matching = match &self.current_fence {
            Some(current) => same_account_owner(&current.expected, expected),
            None => false,
        };
        if matching {
            self.take_fence()
        } else {
            None
        }
    }

    /// Stops accepting operations; the fence that is to be cancelled is returned. Nothing
    /// happens once operations have ended for good.
    pub fn begin_quiesce(&mut self) -> (fence: Option<u64>)
        requires
            old(self).wf(),
        ensures
            final(self).wf(),
            if old(self).terminated {
                fence is None && *final(self) == *old(self)
            } else {
                &&& fence == fence_of(*old(self))
                &&& *final(self) == (TauriOsuRuntime {
                    accepting: false,
                    current_fence: None,
                    ..*old(self)
                })
            },
    {
        if self.terminated {
            return None;
        }
        self.accepting = false;
        self.take_fence()
    }

    /// Looks at the running operations once more. When the time is over while some still
    /// run, operations are accepted again.
    pub fn quiesce_step(&mut self, timed_out: bool) -> (res: Result<QuiesceStep, String>)
        requires
            old(self).wf(),
        ensures
            final(self).wf(),
            if old(self).terminated || old(self).active_operations == 0 {
                res == Ok::<QuiesceStep, String>(QuiesceStep::Quiet) && *final(self) == *old(self)
            } else if timed_out {
                &&& res is Err
                &&& res->Err_0@ == "timed out quiescing osu! operations"@
                &&& *final(self) == (TauriOsuRuntime { accepting: true, ..*old(self) })
            } else {
                res == Ok::<QuiesceStep, String>(QuiesceStep::KeepWaiting) && *final(self) == *old(
                    self,
                )
            },
    {
        if self.terminated || self.active_operations == 0 {
            return Ok(QuiesceStep::Quiet);
        }
        if timed_out {
            self.accepting = true;
            return Err("timed out quiescing osu! operations".to_owned());
        }
        Ok(QuiesceStep::KeepWaiting)
    }

    pub fn resume(&mut self) -> (res: Result<(), String>)
        requires
            old(self).wf(),
        ensures
            final(self).wf(),
            match res {
                Ok(_) => !old(self).terminated && *final(self) == (TauriOsuRuntime {
                    accepting: true,
                    ..*old(self)
                }),
                Err(error) => old(self).terminated && error@ == "osu! runtime is shut down"@
                    && *final(self) == *old(self),
            },
    {
        if self.terminated {
            return Err("osu! runtime is shut down".to_owned());
        }
        self.accepting = true;
        Ok(())
    }

    /// Ends operations for good.
    pub fn commit_shutdown(&mut self) -> (res: Result<ShutdownStep, String>)
        requires
            old(self).wf(),
        ensures
            final(self).wf(),
            if old(self).terminated {
                res == Ok::<ShutdownStep, String>(ShutdownStep::AlreadyDone) && *final(self)
                    == *old(self)
            } else if old(self).active_operations != 0 {
                &&& res is Err
                &&& res->Err_0@ == "osu! operations are still active at shutdown"@
                &&& *final(self) == *old(self)
            } else {
                &&& res == Ok::<ShutdownStep, String>(
                    ShutdownStep::Seal { canceled: fence_of(*old(self)) },
                )
                &&& *final(self) == (TauriOsuRuntime {
                    accepting: false,
                    terminated: true,
                    current_fence: None,
                    ..*old(self)
                })
            },
    {
        if self.terminated {
            return Ok(ShutdownStep::AlreadyDone);
        }
        if self.active_operations != 0 {
            return Err("osu! operations are still active at shutdown".to_owned());
        }
        self.accepting = false;
        self.terminated = true;
        let canceled = self.take_fence();
        Ok(ShutdownStep::Seal { canceled })
    }
}

/// Once operations have ended for good none begins, whatever is said of accepting them.
pub proof fn law_shutdown_is_final(s: TauriOsuRuntime)
    requires
        s.wf(),
        s.terminated,
    ensures
        !is_open(s),
        !is_open(TauriOsuRuntime { accepting: true, ..s }),
{
}

/// While operations are being brought to rest none begins.
pub proof fn law_quiescing_admits_nothing(s: TauriOsuRuntime)
    requires
        !s.accepting,
    ensures
        !is_open(s),
{
}

/// Belonging to the same account is an equivalence, so that one fence serves all the work of
/// an account and none of another.
pub proof fn law_same_account(a: OsuApiSettings, b: OsuApiSettings, c: OsuApiSettings)
    ensures
        same_account(a, a),
        same_account(a, b) == same_account(b, a),
        same_account(a, b) && same_account(b, c) ==> same_account(a, c),
{
}

// ---------------------------------------------------------------------------
// Enrichment
// ---------------------------------------------------------------------------

/// The account that scores are fetched with, where it is set up in full.
pub fn enrichment_account(profile: &OsuApiSettings) -> (r: Option<(String, String, String)>)
    ensures
        match (profile.client_id, profile.user, profile.credential_target) {
            (Some(client), Some(user), Some(target)) => r == Some((client, user, target)),
            _ => r is None,
        },
{
    match (&profile.client_id, &profile.user, &profile.credential_target) {
        (Some(client), Some(user), Some(target)) => Some(
            (client.clone(), user.clone(), target.clone()),
        ),
        _ => None,
    }
}

/// How a pass over the clips that wait for their scores ended.
#[derive(Debug, PartialEq, Eq)]
pub enum EnrichmentOutcome {
    Completed { updated: u64 },
    AccountChanged,
    Canceled,
    Failed { message: String },
    Superseded,
    Panicked,
    ShutDown,
}

/// Whether a pass changed anything. A pass that gave way to another, or to a change of the
/// account, is no error.
pub fn enrichment_updated(outcome: EnrichmentOutcome) -> (res: Result<bool, String>)
    ensures
        match outcome {
            EnrichmentOutcome::Completed { updated } => res == Ok::<bool, String>(updated > 0),
            EnrichmentOutcome::AccountChanged => res == Ok::<bool, String>(false),
            EnrichmentOutcome::Canceled => res == Ok::<bool, String>(false),
            EnrichmentOutcome::Superseded => res == Ok::<bool, String>(false),
            EnrichmentOutcome::Failed { message } => res == Err::<bool, String>(message),
            EnrichmentOutcome::Panicked => res is Err && res->Err_0@
                == "osu! enrichment worker panicked"@,
            EnrichmentOutcome::ShutDown => res is Err && res->Err_0@
                == "osu! enrichment coordinator shut down"@,
        },
{
    match outcome {
        EnrichmentOutcome::Completed { updated } => Ok(updated > 0),
        EnrichmentOutcome::AccountChanged => Ok(false),
        EnrichmentOutcome::Canceled => Ok(false),
        EnrichmentOutcome::Superseded => Ok(false),
        EnrichmentOutcome::Failed { message } => Err(message),
        EnrichmentOutcome::Panicked => Err("osu! enrichment worker panicked".to_owned()),
        EnrichmentOutcome::ShutDown => Err("osu! enrichment coordinator shut down".to_owned()),
    }
}

/// How far an attempt to fetch the scores that clips wait for is.
#[derive(Debug, Clone, Copy, PartialEq, Eq, Structural)]
pub enum EnrichmentPhase {
    ReadingProfile,
    ReadingSecret,
    Submitting,
    Waiting,
    Publishing,
    Finished,
}

/// What is to be done next to fetch scores.
#[derive(Debug, PartialEq, Eq)]
pub enum EnrichmentAction {
    /// Read the account out of the settings. Answered by `Profile`.
    ReadProfile,
    /// Read the secret that is kept under this target. Answered by `Secret`.
    ReadSecret(String),
    /// Start a pass for this client and this user. Answered by `Came`.
    Submit { client_id: String, user: String },
    /// Wait for the pass to end. Answered by `Ended`.
    Wait,
    /// Tell the windows that clips changed. Answered by `Came`.
    Publish,
    /// There is nothing left to do.
    Stop,
}

/// An answer to an action.
#[derive(Debug, PartialEq, Eq)]
pub enum EnrichmentAnswer {
    Profile(Result<OsuApiSettings, String>),
    /// Whether there is a secret.
    Secret(Result<bool, String>),
    Came(Result<(), String>),
    Ended(Result<EnrichmentOutcome, String>),
}

/// An attempt to fetch scores. `account` is the client, the user and the target of the secret,
/// once they were read.
#[derive(Debug, PartialEq, Eq)]
pub struct EnrichmentRetry {
    pub phase: EnrichmentPhase,
    pub account: Option<(String, String, String)>,
    pub failure: Option<String>,
}

/// Whether an answer is one to the action of a phase.
pub open spec fn enrichment_answer_fits(phase: EnrichmentPhase, answer: EnrichmentAnswer) -> bool {
    match phase {
        EnrichmentPhase::ReadingProfile => answer is Profile,
        EnrichmentPhase::ReadingSecret => answer is Secret,
        EnrichmentPhase::Submitting | EnrichmentPhase::Publishing => answer is Came,
        EnrichmentPhase::Waiting => answer is Ended,
        EnrichmentPhase::Finished => false,
    }
}

/// The text of the error that a pass ends with, if it ends with one.
pub open spec fn outcome_error(outcome: EnrichmentOutcome) -> Option<Seq<char>> {
    match outcome {
        EnrichmentOutcome::Failed { message } => Some(message@),
        EnrichmentOutcome::Panicked => Some("osu! enrichment worker panicked"@),
        EnrichmentOutcome::ShutDown => Some("osu! enrichment coordinator shut down"@),
        _ => None,
    }
}

/// The phase, the account and the error after an answer. An account that is not set up in
/// full, or has no secret, has nothing to fetch, which is no error; what the secret could not
/// be read for is not told.
pub open spec fn enrichment_after(retry: EnrichmentRetry, answer: EnrichmentAnswer) -> (
    EnrichmentPhase,
    Option<(String, String, String)>,
    Option<Seq<char>>,
) {
    match answer {
        EnrichmentAnswer::Profile(Err(error)) => (
            EnrichmentPhase::Finished,
            retry.account,
            Some(error@),
        ),
        EnrichmentAnswer::Profile(Ok(profile)) => match (
            profile.client_id,
            profile.user,
            profile.credential_target,
        ) {
            (Some(client), Some(user), Some(target)) => (
                EnrichmentPhase::ReadingSecret,
                Some((client, user, target)),
                opt_view(retry.failure),
            ),
            _ => (EnrichmentPhase::Finished, retry.account, opt_view(retry.failure)),
        },
        EnrichmentAnswer::Secret(Err(_)) => (
            EnrichmentPhase::Finished,
            retry.account,
            Some("read osu! client secret failed"@),
        ),
        EnrichmentAnswer::Secret(Ok(there)) => (
            if there {
                EnrichmentPhase::Submitting
            } else {
                EnrichmentPhase::Finished
            },
            retry.account,
            opt_view(retry.failure),
        ),
        EnrichmentAnswer::Came(Err(error)) => (
            EnrichmentPhase::Finished,
            retry.account,
            Some(error@),
        ),
        EnrichmentAnswer::Came(Ok(_)) => (
            if retry.phase is Submitting {
                EnrichmentPhase::Waiting
            } else {
                EnrichmentPhase::Finished
            },
            retry.account,
            opt_view(retry.failure),
        ),
        EnrichmentAnswer::Ended(Err(error)) => (
            EnrichmentPhase::Finished,
            retry.account,
            Some(error@),
        ),
        EnrichmentAnswer::Ended(Ok(outcome)) => match outcome_error(outcome) {
            Some(error) => (EnrichmentPhase::Finished, retry.account, Some(error)),
            None => (
                if outcome matches EnrichmentOutcome::Completed { updated } && updated > 0 {
                    EnrichmentPhase::Publishing
                } else {
                    EnrichmentPhase::Finished
                },
                retry.account,
                opt_view(retry.failure),
            ),
        },
    }
}

impl EnrichmentRetry {
    /// The account is known from the time it was read.
    pub open spec fn wf(self) -> bool {
        self.phase is ReadingSecret || self.phase is Submitting ==> self.account is Some
    }

    pub fn begin() -> (retry: EnrichmentRetry)
        ensures
            retry.wf(),
            retry == (EnrichmentRetry {
                phase: EnrichmentPhase::ReadingProfile,
                account: None,
                failure: None,
            }),
    {
        EnrichmentRetry { phase: EnrichmentPhase::ReadingProfile, account: None, failure: None }
    }

    /// What is to be done next.
    pub fn action(&self) -> (action: EnrichmentAction)
        requires
            self.wf(),
        ensures
            action == (match self.phase {
                EnrichmentPhase::ReadingProfile => EnrichmentAction::ReadProfile,
                EnrichmentPhase::ReadingSecret => EnrichmentAction::ReadSecret((self.account->0).2),
                EnrichmentPhase::Submitting => EnrichmentAction::Submit {
                    client_id: (self.account->0).0,
                    user: (self.account->0).1,
                },
                EnrichmentPhase::Waiting => EnrichmentAction::Wait,
                EnrichmentPhase::Publishing => EnrichmentAction::Publish,
                EnrichmentPhase::Finished => EnrichmentAction::Stop,
            }),
    {
        match self.phase {
            EnrichmentPhase::ReadingProfile => EnrichmentAction::ReadProfile,
            EnrichmentPhase::ReadingSecret => EnrichmentAction::ReadSecret(
                self.account.as_ref().unwrap().2.clone(),
            ),
            EnrichmentPhase::Submitting => EnrichmentAction::Submit {
                client_id: self.account.as_ref().unwrap().0.clone(),
                user: self.account.as_ref().unwrap().1.clone(),
            },
            EnrichmentPhase::Waiting => EnrichmentAction::Wait,
            EnrichmentPhase::Publishing => EnrichmentAction::Publish,
            EnrichmentPhase::Finished => EnrichmentAction::Stop,
        }
    }

    fn fail(&mut self, error: String)
        ensures
            final(self).phase is Finished,
            final(self).account == old(self).account,
            final(self).failure == Some(error),
    {
        self.failure = Some(error);
        self.phase = EnrichmentPhase::Finished;
    }

    /// Takes the answer to the action that was due.
    pub fn answered(&mut self, answer: EnrichmentAnswer)
        requires
            old(self).wf(),
            enrichment_answer_fits(old(self).phase, answer),
        ensures
            final(self).wf(),
            (final(self).phase, final(self).account, opt_view(final(self).failure))
                == enrichment_after(*old(self), answer),
    {
        match answer {
            EnrichmentAnswer::Profile(Err(error)) => self.fail(error),
            EnrichmentAnswer::Profile(Ok(profile)) => match enrichment_account(&profile) {
                Some(account) => {
                    self.account = Some(account);
                    self.phase = EnrichmentPhase::ReadingSecret;
                },
                None => {
                    self.phase = EnrichmentPhase::Finished;
                },
            },
            EnrichmentAnswer::Secret(Err(_)) => self.fail(
                "read osu! client secret failed".to_owned(),
            ),
            EnrichmentAnswer::Secret(Ok(there)) => {
                self.phase = if there {
                    EnrichmentPhase::Submitting
                } else {
                    EnrichmentPhase::Finished
                };
            },
            EnrichmentAnswer::Came(Err(error)) => self.fail(error),
            EnrichmentAnswer::Came(Ok(_)) => {
                self.phase = if let EnrichmentPhase::Submitting = self.phase {
                    EnrichmentPhase::Waiting
                } else {
                    EnrichmentPhase::Finished
                };
            },
            EnrichmentAnswer::Ended(Err(error)) => self.fail(error),
            EnrichmentAnswer::Ended(Ok(outcome)) => match enrichment_updated(outcome) {
                Err(error) => self.fail(error),
                Ok(updated) => {
                    self.phase = if updated {
                        EnrichmentPhase::Publishing
                    } else {
                        EnrichmentPhase::Finished
                    };
                },
            },
        }
    }

    /// What came of it.
    pub fn result(self) -> (res: Result<(), String>)
        requires
            self.phase is Finished,
        ensures
            match self.failure {
                None => res is Ok,
                Some(error) => res == Err::<(), String>(error),
            },
    {
        match self.failure {
            None => Ok(()),
            Some(error) => Err(error),
        }
    }
}

/// The windows hear of new scores exactly where a pass changed a clip.
pub proof fn law_only_changes_are_published(retry: EnrichmentRetry, answer: EnrichmentAnswer)
    requires
        retry.wf(),
        enrichment_answer_fits(retry.phase, answer),
    ensures
        enrichment_after(retry, answer).0 is Publishing <==> (answer matches EnrichmentAnswer::Ended(
            Ok(EnrichmentOutcome::Completed { updated }),
        ) && updated > 0),
{
}

/// A state and the settings agree exactly where they are of one generation, one application and
/// one user.
pub proof fn law_state_and_settings_agree(status: OsuAccountStatus, profile: OsuApiSettings)
    ensures
        agree(status, profile) <==> {
            &&& status.account_generation == profile.account_generation
            &&& (status.client_id is None <==> profile.client_id is None)
            &&& (status.client_id is Some && profile.client_id is Some ==> status.client_id->0@
                == profile.client_id->0@)
            &&& (status.user is None <==> profile.user is None)
            &&& (status.user is Some && profile.user is Some ==> status.user->0@
                == profile.user->0@)
        },
{
}

/// Two settings are of one owner exactly where generation, application, user and credential are
/// the same; the name that was connected last does not matter.
pub proof fn law_one_owner(a: OsuApiSettings, b: OsuApiSettings)
    ensures
        same_account(a, b) <==> {
            &&& a.account_generation == b.account_generation
            &&& (a.client_id is None <==> b.client_id is None)
            &&& (a.client_id is Some && b.client_id is Some ==> a.client_id->0@ == b.client_id->0@)
            &&& (a.user is None <==> b.user is None)
            &&& (a.user is Some && b.user is Some ==> a.user->0@ == b.user->0@)
            &&& (a.credential_target is None <==> b.credential_target is None)
            &&& (a.credential_target is Some && b.credential_target is Some
                ==> a.credential_target->0@ == b.credential_target->0@)
        },
{
}

/// A reading settles the matter where it failed, with the first error, and where state and
/// settings agree, with both.
pub proof fn law_readings_settle(reading: StatusReading)
    ensures
        reading.status matches Err(error) ==> settles(reading) && reading_answer(reading) == Err::<
            (OsuAccountStatus, OsuApiSettings),
            String,
        >(error),
        reading.status is Ok ==> (reading.profile matches Err(error) ==> settles(reading)
            && reading_answer(reading) == Err::<(OsuAccountStatus, OsuApiSettings), String>(error)),
        reading.status is Ok && reading.profile is Ok ==> settles(reading) == agree(
            reading.status->Ok_0,
            reading.profile->Ok_0,
        ) && reading_answer(reading) == Ok::<(OsuAccountStatus, OsuApiSettings), String>(
            (reading.status->Ok_0, reading.profile->Ok_0),
        ),
{
}

/// What could not be started is told, each part by its name.
pub proof fn law_start_warnings(http: Seq<char>, enrichment: Seq<char>)
    ensures
        start_warnings(None, None).len() == 0,
        start_warnings(Some(http), None) == seq!["osu! HTTP unavailable: "@ + http],
        start_warnings(None, Some(enrichment)) == seq![
            "osu! enrichment unavailable: "@ + enrichment,
        ],
        start_warnings(Some(http), Some(enrichment)) == seq![
            "osu! HTTP unavailable: "@ + http,
            "osu! enrichment unavailable: "@ + enrichment,
        ],
{
    assert(start_warnings(None, Some(enrichment)) =~= seq![
        "osu! enrichment unavailable: "@ + enrichment,
    ]);
    assert(start_warnings(Some(http), Some(enrichment)) =~= seq![
        "osu! HTTP unavailable: "@ + http,
        "osu! enrichment unavailable: "@ + enrichment,
    ]);
}

/// An enrichment is begun again for an account that is complete and has its secret, waited for,
/// and its changes are told to the windows; nothing of it is an error.
pub proof fn law_enrichment_is_tried_again(
    start: EnrichmentRetry,
    secret: EnrichmentRetry,
    submit: EnrichmentRetry,
    wait: EnrichmentRetry,
    publish: EnrichmentRetry,
    end: EnrichmentRetry,
    profile: OsuApiSettings,
    updated: u64,
)
    requires
        start.phase is ReadingProfile,
        start.failure is None,
        profile.client_id is Some,
        profile.user is Some,
        profile.credential_target is Some,
        (secret.phase, secret.account, opt_view(secret.failure)) == enrichment_after(
            start,
            EnrichmentAnswer::Profile(Ok(profile)),
        ),
        (submit.phase, submit.account, opt_view(submit.failure)) == enrichment_after(
            secret,
            EnrichmentAnswer::Secret(Ok(true)),
        ),
        (wait.phase, wait.account, opt_view(wait.failure)) == enrichment_after(
            submit,
            EnrichmentAnswer::Came(Ok(())),
        ),
        (publish.phase, publish.account, opt_view(publish.failure)) == enrichment_after(
            wait,
            EnrichmentAnswer::Ended(Ok(EnrichmentOutcome::Completed { updated })),
        ),
        (end.phase, end.account, opt_view(end.failure)) == enrichment_after(
            publish,
            EnrichmentAnswer::Came(Ok(())),
        ),
    ensures
        secret.phase is ReadingSecret,
        secret.account == Some(
            (profile.client_id->0, profile.user->0, profile.credential_target->0),
        ),
        submit.phase is Submitting,
        submit.account == secret.account,
        wait.phase is Waiting,
        updated > 0 ==> publish.phase is Publishing,
        updated == 0 ==> publish.phase is Finished,
        updated > 0 ==> end.phase is Finished,
        end.failure is None,
{
}

/// An enrichment ends without an error where there is no account, no secret or nothing new, and
/// with one where something failed.
pub proof fn law_enrichment_ends(
    retry: EnrichmentRetry,
    profile: OsuApiSettings,
    error: String,
    message: String,
)
    requires
        retry.failure is None,
    ensures
        profile.client_id is None || profile.user is None || profile.credential_target is None ==> ({
            let after = enrichment_after(retry, EnrichmentAnswer::Profile(Ok(profile)));
            after.0 is Finished && after.2 is None
        }),
        enrichment_after(retry, EnrichmentAnswer::Profile(Err(error))).2 == Some(error@),
        enrichment_after(retry, EnrichmentAnswer::Profile(Err(error))).0 is Finished,
        enrichment_after(retry, EnrichmentAnswer::Secret(Ok(false))).0 is Finished,
        enrichment_after(retry, EnrichmentAnswer::Secret(Ok(false))).2 is None,
        enrichment_after(retry, EnrichmentAnswer::Secret(Err(error))).0 is Finished,
        enrichment_after(retry, EnrichmentAnswer::Secret(Err(error))).2 == Some(
            "read osu! client secret failed"@,
        ),
        enrichment_after(retry, EnrichmentAnswer::Came(Err(error))).0 is Finished,
        enrichment_after(retry, EnrichmentAnswer::Came(Err(error))).2 == Some(error@),
        enrichment_after(retry, EnrichmentAnswer::Ended(Err(error))).0 is Finished,
        enrichment_after(retry, EnrichmentAnswer::Ended(Err(error))).2 == Some(error@),
        enrichment_after(
            retry,
            EnrichmentAnswer::Ended(Ok(EnrichmentOutcome::Failed { message })),
        ).2 == Some(message@),
        enrichment_after(retry, EnrichmentAnswer::Ended(Ok(EnrichmentOutcome::Panicked))).2
            == Some("osu! enrichment worker panicked"@),
        enrichment_after(retry, EnrichmentAnswer::Ended(Ok(EnrichmentOutcome::ShutDown))).2
            == Some("osu! enrichment coordinator shut down"@),
        enrichment_after(retry, EnrichmentAnswer::Ended(Ok(EnrichmentOutcome::AccountChanged))).2
            is None,
        enrichment_after(retry, EnrichmentAnswer::Ended(Ok(EnrichmentOutcome::Canceled))).2 is None,
        enrichment_after(retry, EnrichmentAnswer::Ended(Ok(EnrichmentOutcome::Superseded))).2
            is None,
        enrichment_after(retry, EnrichmentAnswer::Ended(Ok(EnrichmentOutcome::AccountChanged))).0
            is Finished,
        enrichment_after(retry, EnrichmentAnswer::Ended(Ok(EnrichmentOutcome::Canceled))).0
            is Finished,
        enrichment_after(retry, EnrichmentAnswer::Ended(Ok(EnrichmentOutcome::Superseded))).0
            is Finished,
{
}

/// Work is admitted exactly while it is accepted and nothing has ended for good.
pub proof fn law_open_runtime(s: TauriOsuRuntime)
    ensures
        is_open(s) <==> s.accepting && !s.terminated,
        fence_of(s) is Some <==> s.current_fence is Some,
        s.current_fence matches Some(current) ==> fence_of(s) == Some(current.fence),
{
}

/// The state of the account is answered by the first of three readings that settles it: the state
/// and the settings that were read, or the error of the reading.
pub proof fn law_first_settled_reading_is_answered<S, P>(
    read_status: S,
    read_profile: P,
    attempt: usize,
    res: Result<(OsuAccountStatus, OsuApiSettings), String>,
) where
    S: Fn(usize) -> Result<OsuAccountStatus, String>,
    P: Fn(usize) -> Result<OsuApiSettings, String>,

    requires
        attempt_settled(read_status, read_profile, attempt, res),
    ensures
        attempt < 3,
        res matches Ok(answer) ==> call_ensures(
            read_status,
            (attempt,),
            Ok::<OsuAccountStatus, String>(answer.0),
        ) && call_ensures(read_profile, (attempt,), Ok::<OsuApiSettings, String>(answer.1))
            && agree(answer.0, answer.1),
        res matches Err(error) ==> call_ensures(
            read_status,
            (attempt,),
            Err::<OsuAccountStatus, String>(error),
        ) || call_ensures(read_profile, (attempt,), Err::<OsuApiSettings, String>(error)),
        forall|earlier: usize|
            earlier < attempt ==> #[trigger] attempt_unsettled(read_status, read_profile, earlier),
{
}

} // verus!
