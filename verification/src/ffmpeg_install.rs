//! On-demand managed FFmpeg install.
//!
//! A single-flight state machine. Progress events are notifications; the window
//! asks for the status again after it is recreated. Downloaded bytes are never
//! executed before their digests are verified.

use crate::archive::{
    entry_content, entry_size, open_error, zip_entry_content, zip_entry_size, zip_open_error,
};
use crate::ffmpeg_runtime::{
    discovery_kind, entry_allowed, entry_conforms, failure_text, file_conforms, file_named,
    law_verified_iff_conforming, managed_ffmpeg_dir_from_local_app_data, managed_verifies,
    ffmpeg_runtime_status, is_info_of,
    load_ffmpeg_runtime_manifest, manifest_problem, tree_conforms, tree_failure, verify_managed_ffmpeg_runtime,
    FfmpegAllowedFile, FfmpegDiscoveryKind, FfmpegProvenance, FfmpegRuntimeManifest,
    FfmpegRuntimeStatus, ManagedRuntimeInfo, ManagedRuntimeVerifyError, ManagedTree, ProvenanceFile,
    ProvenanceRead, TreeFile, VerifyFailure,
};
use crate::hash::{hex_sha256, sha256_hex};
use crate::paths::{
    file_name_of, is_absolute_path, is_child_path, is_component, is_grandchild_path,
    is_never_a_name, is_plain_base, is_plain_name, is_verbatim, join_path, join_two,
    is_separator_text, is_share_path, lemma_grandchild, lies_on_share, lies_under, needs_no_separator, starts_relative,
};
use crate::text::{
    ascii_lower, blank, clone_opt, concat2, concat3, contains, decimal, decimal_string,
    has_prefix, has_substring, has_suffix, is_blank, lemma_ascii_lower_idempotent, opt_str_view, opt_view, replace_char, replaced_char, str_eq, to_ascii_lowercase,
    trim_end_matches, without_trailing,
};
use vstd::prelude::*;
use vstd::string::StringSliceAdditionalSpecFns;

verus! {

pub const FREE_SPACE_MARGIN_BYTES: u64 = 64 * 1024 * 1024;

pub const FFMPEG_INSTALL_EVENT: &'static str = "ffmpeg-install";

// ---------------------------------------------------------------------------
// Install state
// ---------------------------------------------------------------------------

/// Install state owned by the application process, not by its window.
#[derive(Debug, PartialEq, Eq)]
pub enum FfmpegInstallState {
    Idle,
    Checking,
    Downloading { bytes: u64, total: u64 },
    Verifying,
    Publishing,
    Ready,
    Failed { message: String },
    Cancelled,
}

impl Clone for FfmpegInstallState {
    fn clone(&self) -> (r: Self)
        ensures
            r == *self,
    {
        match self {
            FfmpegInstallState::Idle => FfmpegInstallState::Idle,
            FfmpegInstallState::Checking => FfmpegInstallState::Checking,
            FfmpegInstallState::Downloading { bytes, total } => FfmpegInstallState::Downloading {
                bytes: *bytes,
                total: *total,
            },
            FfmpegInstallState::Verifying => FfmpegInstallState::Verifying,
            FfmpegInstallState::Publishing => FfmpegInstallState::Publishing,
            FfmpegInstallState::Ready => FfmpegInstallState::Ready,
            FfmpegInstallState::Failed { message } => FfmpegInstallState::Failed {
                message: message.clone(),
            },
            FfmpegInstallState::Cancelled => FfmpegInstallState::Cancelled,
        }
    }
}

impl Default for FfmpegInstallState {
    fn default() -> (r: Self)
        ensures
            r == FfmpegInstallState::Idle,
    {
        FfmpegInstallState::Idle
    }
}

/// Whether an install is under way in this state.
pub open spec fn is_busy(state: FfmpegInstallState) -> bool {
    ||| state is Checking
    ||| state is Downloading
    ||| state is Verifying
    ||| state is Publishing
}

/// The view of the install that the window is given.
#[derive(Debug, PartialEq, Eq)]
pub struct FfmpegInstallSnapshot {
    pub state: FfmpegInstallState,
    pub discovery: FfmpegDiscoveryKind,
    pub managed: Option<ManagedRuntimeInfoDto>,
    pub locate_path: Option<String>,
}

#[derive(Debug, PartialEq, Eq)]
pub struct ManagedRuntimeInfoDto {
    pub dir: String,
    pub ffmpeg_exe: String,
    pub release_tag: String,
    pub archive_sha256: String,
    pub manifest_sha256: String,
}

/// The transfer form of a verified runtime.
pub open spec fn info_dto(info: ManagedRuntimeInfo) -> ManagedRuntimeInfoDto {
    ManagedRuntimeInfoDto {
        dir: info.dir,
        ffmpeg_exe: info.ffmpeg_exe,
        release_tag: info.release_tag,
        archive_sha256: info.archive_sha256,
        manifest_sha256: info.manifest_sha256,
    }
}

impl ManagedRuntimeInfoDto {
    pub fn from_info(info: &ManagedRuntimeInfo) -> (dto: Self)
        ensures
            dto == info_dto(*info),
    {
        ManagedRuntimeInfoDto {
            dir: info.dir.clone(),
            ffmpeg_exe: info.ffmpeg_exe.clone(),
            release_tag: info.release_tag.clone(),
            archive_sha256: info.archive_sha256.clone(),
            manifest_sha256: info.manifest_sha256.clone(),
        }
    }
}

#[derive(Debug, Clone, Copy, PartialEq, Eq, Structural)]
pub enum DownloadAbortReason {
    Overflow,
    Cancelled,
}

/// Install controller of the process: it can be asked while windows come and go.
/// `poisoned` records that a holder of its lock panicked.
#[derive(Debug, PartialEq, Eq)]
pub struct FfmpegInstallController {
    pub state: FfmpegInstallState,
    pub job_active: bool,
    pub cancel: bool,
    pub poisoned: bool,
}

impl Default for FfmpegInstallController {
    fn default() -> (r: Self)
        ensures
            r.state == FfmpegInstallState::Idle,
            !r.job_active,
            !r.cancel,
            !r.poisoned,
    {
        FfmpegInstallController {
            state: FfmpegInstallState::Idle,
            job_active: false,
            cancel: false,
            poisoned: false,
        }
    }
}

/// The text of every refusal that a poisoned lock causes.
pub open spec fn poisoned_text() -> Seq<char> {
    "ffmpeg install state lock poisoned"@
}

/// Whether a job may start.
pub open spec fn can_begin(c: FfmpegInstallController) -> bool {
    !c.job_active && !is_busy(c.state)
}

/// The controller after a call of `try_begin_job` that took effect.
pub open spec fn after_begin(c: FfmpegInstallController) -> FfmpegInstallController {
    if !c.poisoned && can_begin(c) {
        FfmpegInstallController {
            state: FfmpegInstallState::Checking,
            job_active: true,
            cancel: false,
            ..c
        }
    } else {
        c
    }
}

/// The controller after `request_cancel`.
pub open spec fn after_cancel(c: FfmpegInstallController) -> FfmpegInstallController {
    FfmpegInstallController {
        cancel: c.cancel || (c.job_active && !(c.state is Publishing)),
        ..c
    }
}

/// Whether the last cancellable boundary may be crossed.
pub open spec fn can_publish(c: FfmpegInstallController) -> bool {
    c.job_active && !c.cancel
}

/// The controller after `begin_publishing`.
pub open spec fn after_publishing(c: FfmpegInstallController) -> FfmpegInstallController {
    if !c.poisoned && can_publish(c) {
        FfmpegInstallController { state: FfmpegInstallState::Publishing, ..c }
    } else {
        c
    }
}

/// The controller after `end_job`.
pub open spec fn after_end(
    c: FfmpegInstallController,
    state: FfmpegInstallState,
) -> FfmpegInstallController {
    if c.poisoned {
        c
    } else {
        FfmpegInstallController { job_active: false, state, ..c }
    }
}

impl FfmpegInstallController {
    /// Records that a holder of the controller's lock panicked.
    pub fn mark_poisoned(&mut self)
        ensures
            *final(self) == (FfmpegInstallController { poisoned: true, ..*old(self) }),
    {
        self.poisoned = true;
    }

    pub fn snapshot_state(&self) -> (state: FfmpegInstallState)
        ensures
            !self.poisoned ==> state == self.state,
            self.poisoned ==> (state matches FfmpegInstallState::Failed { message } && message@
                == poisoned_text()),
    {
        if self.poisoned {
            FfmpegInstallState::Failed { message: "ffmpeg install state lock poisoned".to_owned() }
        } else {
            self.state.clone()
        }
    }

    pub fn set_state(&mut self, state: FfmpegInstallState)
        ensures
            *final(self) == if old(self).poisoned {
                *old(self)
            } else {
                FfmpegInstallController { state, ..*old(self) }
            },
    {
        if !self.poisoned {
            self.state = state;
        }
    }

    /// Asks the running job to stop, and gives back the state as it is.
    pub fn request_cancel(&mut self) -> (state: FfmpegInstallState)
        ensures
            *final(self) == after_cancel(*old(self)),
            state == old(self).state,
    {
        let publishing = matches!(self.state, FfmpegInstallState::Publishing);
        if self.job_active && !publishing {
            self.cancel = true;
        }
        self.state.clone()
    }

    pub fn clear_cancel(&mut self)
        ensures
            *final(self) == (FfmpegInstallController { cancel: false, ..*old(self) }),
    {
        self.cancel = false;
    }

    pub fn is_cancelled(&self) -> (r: bool)
        ensures
            r == self.cancel,
    {
        self.cancel
    }

    /// Crosses the last cancellable boundary. Once this succeeds, cancellation is
    /// ignored until the publish operation completes.
    pub fn begin_publishing(&mut self) -> (res: Result<bool, String>)
        ensures
            *final(self) == after_publishing(*old(self)),
            match res {
                Ok(crossed) => !old(self).poisoned && crossed == can_publish(*old(self)),
                Err(message) => old(self).poisoned && message@ == poisoned_text(),
            },
    {
        if self.poisoned {
            return Err("ffmpeg install state lock poisoned".to_owned());
        }
        if !self.job_active || self.cancel {
            return Ok(false);
        }
        self.state = FfmpegInstallState::Publishing;
        Ok(true)
    }

    /// True when this caller should start the job, false when one is under way.
    pub fn try_begin_job(&mut self) -> (res: Result<bool, String>)
        ensures
            *final(self) == after_begin(*old(self)),
            match res {
                Ok(started) => !old(self).poisoned && started == can_begin(*old(self)),
                Err(message) => old(self).poisoned && message@ == poisoned_text(),
            },
    {
        if self.poisoned {
            return Err("ffmpeg install state lock poisoned".to_owned());
        }
        if self.job_active {
            return Ok(false);
        }
        match &self.state {
            FfmpegInstallState::Checking
            | FfmpegInstallState::Downloading { .. }
            | FfmpegInstallState::Verifying
            | FfmpegInstallState::Publishing => return Ok(false),
            FfmpegInstallState::Ready
            | FfmpegInstallState::Idle
            | FfmpegInstallState::Failed { .. }
            | FfmpegInstallState::Cancelled => {},
        }
        self.job_active = true;
        self.state = FfmpegInstallState::Checking;
        self.cancel = false;
        Ok(true)
    }

    pub fn end_job(&mut self, state: FfmpegInstallState)
        ensures
            *final(self) == after_end(*old(self), state),
    {
        if !self.poisoned {
            self.job_active = false;
            self.state = state;
        }
    }
}

/// Installs are single-flight: once a job has begun no other begins, whatever is
/// cancelled or published meanwhile, until the job ends; and a job that ended in a
/// settled state makes room for the next.
pub proof fn law_single_flight(c: FfmpegInstallController, ended: FfmpegInstallState)
    requires
        !c.poisoned,
        can_begin(c),
        !is_busy(ended),
    ensures
        !can_begin(after_begin(c)),
        !can_begin(after_cancel(after_begin(c))),
        !can_begin(after_publishing(after_begin(c))),
        can_begin(after_end(after_begin(c), ended)),
{
}

/// A cancel request that comes before the publish boundary wins: the boundary is
/// not crossed and the state stays. One that comes after it is ignored.
pub proof fn law_cancel_or_publish(c: FfmpegInstallController)
    requires
        !c.poisoned,
        c.job_active,
    ensures
        !(c.state is Publishing) ==> !can_publish(after_cancel(c)) && after_publishing(
            after_cancel(c),
        ).state == c.state,
        can_publish(c) ==> after_cancel(after_publishing(c)) == after_publishing(c),
{
}

// ---------------------------------------------------------------------------
// Directories
// ---------------------------------------------------------------------------

/// The manifest that ships with the application, with the digest of its text;
/// `parsed` is what the JSON parser made of it.
pub fn committed_manifest(json: &str, parsed: Result<FfmpegRuntimeManifest, String>) -> (res: Result<
    (FfmpegRuntimeManifest, String),
    ManagedRuntimeVerifyError,
>)
    ensures
        match parsed {
            Err(message) => res matches Err(error) && error@ == (VerifyFailure::InvalidManifest {
                message: message@,
            }),
            Ok(manifest) => match manifest_problem(manifest) {
                Some(problem) => res matches Err(error) && error@ == (
                VerifyFailure::InvalidManifest { message: problem }),
                None => res matches Ok((loaded, digest)) && loaded == manifest && digest@
                    == sha256_hex(json.spec_bytes()),
            },
        },
{
    load_ffmpeg_runtime_manifest(json.as_bytes(), parsed)
}

/// Whether a path is where downloads and extracted trees are staged.
pub open spec fn is_staging_root(dir: Seq<char>, local_app_data: Seq<char>) -> bool {
    &&& !is_verbatim(local_app_data) ==> is_grandchild_path(
        dir,
        local_app_data,
        "Clipline"@,
        "ffmpeg-staging"@,
    )
    &&& has_suffix(dir, "ffmpeg-staging"@)
}

/// Where downloads and extracted trees are staged.
pub fn staging_root(local_app_data: &str) -> (dir: String)
    ensures
        is_staging_root(dir@, local_app_data@),
{
    proof {
        reveal_strlit("Clipline");
        reveal_strlit("ffmpeg-staging");
        reveal_strlit(".");
        reveal_strlit("..");
    }
    join_two(local_app_data, "Clipline", "ffmpeg-staging")
}

/// Where the managed runtime is published.
pub fn managed_root(local_app_data: &str) -> (dir: String)
    ensures
        is_managed_root(dir@, local_app_data@),
{
    managed_ffmpeg_dir_from_local_app_data(Some(local_app_data)).unwrap()
}

/// A path with every separator written as `/`: two paths that differ in nothing else name one
/// place where both marks separate.
pub open spec fn slashed(path: Seq<char>) -> Seq<char> {
    replaced_char(path, '\\', '/')
}

/// The staging directory and the managed root are different directories of one parent, the
/// directory of the application, and neither lies under the other: clearing what is staged
/// never touches what is published. Where the separator before the parent is needed, the two
/// spellings of the parent differ at most in it.
pub proof fn law_staging_and_managed_root_are_apart(
    local_app_data: Seq<char>,
    staging: Seq<char>,
    managed: Seq<char>,
)
    requires
        is_plain_base(local_app_data),
        is_staging_root(staging, local_app_data),
        is_managed_root(managed, local_app_data),
    ensures
        staging != managed,
        !lies_under(staging, managed),
        !lies_under(managed, staging),
        exists|p: Seq<char>, q: Seq<char>|
            {
                &&& #[trigger] is_child_path(staging, p, "ffmpeg-staging"@)
                &&& #[trigger] is_child_path(managed, q, "ffmpeg"@)
                &&& is_child_path(p, local_app_data, "Clipline"@)
                &&& is_child_path(q, local_app_data, "Clipline"@)
                &&& !needs_no_separator(local_app_data) ==> slashed(p) == slashed(q)
            },
{
    reveal_strlit("Clipline");
    reveal_strlit("ffmpeg-staging");
    reveal_strlit("ffmpeg");
    let (s1, s2) = lemma_grandchild(staging, local_app_data, "Clipline"@, "ffmpeg-staging"@);
    let (m1, m2) = lemma_grandchild(managed, local_app_data, "Clipline"@, "ffmpeg"@);
    assert(staging.len() > managed.len());
    if lies_under(staging, managed) {
        let at = managed.len() as int;
        let start = staging.len() - 14;
        assert(start < at < staging.len());
        assert(staging[at] == "ffmpeg-staging"@[at - start]);
    }
    let p = local_app_data + s1 + "Clipline"@;
    let q = local_app_data + m1 + "Clipline"@;
    if !needs_no_separator(local_app_data) {
        assert(slashed(p) =~= slashed(q));
    }
    assert(is_child_path(staging, p, "ffmpeg-staging"@));
    assert(is_child_path(managed, q, "ffmpeg"@));
}

/// Discovery looks where the installer publishes: where the separator before the directory of
/// the application is needed, the two paths differ at most in how separators are written.
pub proof fn law_discovery_looks_where_installs_publish(
    local_app_data: Seq<char>,
    discovered: Seq<char>,
    managed: Seq<char>,
)
    requires
        is_plain_base(local_app_data),
        is_grandchild_path(discovered, local_app_data, "Clipline"@, "ffmpeg"@),
        is_managed_root(managed, local_app_data),
        !needs_no_separator(local_app_data),
    ensures
        slashed(discovered) == slashed(managed),
        slashed(managed) == slashed(local_app_data) + "/Clipline/ffmpeg"@,
{
    reveal_strlit("Clipline");
    reveal_strlit("ffmpeg");
    reveal_strlit("/Clipline/ffmpeg");
    let (d1, d2) = lemma_grandchild(discovered, local_app_data, "Clipline"@, "ffmpeg"@);
    let (m1, m2) = lemma_grandchild(managed, local_app_data, "Clipline"@, "ffmpeg"@);
    assert(slashed(discovered) =~= slashed(managed));
    assert(slashed(managed) =~= slashed(local_app_data) + "/Clipline/ffmpeg"@);
}

/// Where a download is written and where it is kept are different paths, neither under the
/// other, of two files of one directory: one has the name of the archive, the other that name
/// and a suffix. Neither lies under the tree that archives are extracted to.
pub proof fn law_partial_and_final_downloads_are_apart(
    staging: Seq<char>,
    archive_name: Seq<char>,
    partial: Seq<char>,
    complete: Seq<char>,
    tree: Seq<char>,
)
    requires
        is_plain_base(staging),
        is_component(archive_name),
        is_grandchild_path(partial, staging, "download"@, archive_name + ".partial"@),
        is_grandchild_path(complete, staging, "download"@, archive_name),
        is_child_path(tree, staging, "tree"@),
    ensures
        partial != complete,
        !lies_under(partial, complete),
        !lies_under(complete, partial),
        !has_prefix(partial, tree),
        !has_prefix(complete, tree),
        exists|p: Seq<char>, q: Seq<char>|
            {
                &&& #[trigger] is_child_path(partial, p, archive_name + ".partial"@)
                &&& #[trigger] is_child_path(complete, q, archive_name)
                &&& is_child_path(p, staging, "download"@)
                &&& is_child_path(q, staging, "download"@)
                &&& !needs_no_separator(staging) ==> slashed(p) == slashed(q)
            },
{
    reveal_strlit("download");
    reveal_strlit(".partial");
    reveal_strlit("tree");
    let (p1, p2) = lemma_grandchild(partial, staging, "download"@, archive_name + ".partial"@);
    let (c1, c2) = lemma_grandchild(complete, staging, "download"@, archive_name);
    let n = staging.len() as int;
    assert(partial[n] == if p1.len() == 0 { 'd' } else { p1[0] });
    assert(complete[n] == if c1.len() == 0 { 'd' } else { c1[0] });
    assert(partial.len() > complete.len());
    assert(archive_name.contains(archive_name[0]));
    if lies_under(partial, complete) {
        assert forall|i: int| 0 <= i < complete.len() implies partial[i] == complete[i] by {
            assert(partial.take(complete.len() as int)[i] == partial[i]);
        }
        assert(p1.len() == c1.len());
        let m = n + p1.len() + 8;
        assert(complete.len() == m + p2.len() + archive_name.len());
        assert(partial[complete.len() as int] == '.');
    }
    let t1 = choose|sep: Seq<char>| #[trigger]
        is_separator_text(sep) && tree == staging + sep + "tree"@ && (sep.len() == 0
            ==> needs_no_separator(staging));
    assert(tree[n] == if t1.len() == 0 { 't' } else { t1[0] });
    assert(tree[n + t1.len()] == 't');
    if has_prefix(partial, tree) {
        assert(partial.take(tree.len() as int)[n] == tree[n]);
        assert(partial.take(tree.len() as int)[n + t1.len()] == 't');
        assert(partial[n + p1.len()] == 'd');
    }
    if has_prefix(complete, tree) {
        assert(complete.take(tree.len() as int)[n] == tree[n]);
        assert(complete.take(tree.len() as int)[n + t1.len()] == 't');
        assert(complete[n + c1.len()] == 'd');
    }
    let p = staging + p1 + "download"@;
    let q = staging + c1 + "download"@;
    if !needs_no_separator(staging) {
        assert(slashed(p) =~= slashed(q));
    }
    assert(is_child_path(partial, p, archive_name + ".partial"@));
    assert(is_child_path(complete, q, archive_name));
}

/// Where a download is written until it is complete.
pub fn download_partial_path(staging: &str, archive_name: &str) -> (path: String)
    ensures
        is_component(archive_name@) && !is_verbatim(staging@) ==> is_grandchild_path(
            path@,
            staging@,
            "download"@,
            archive_name@ + ".partial"@,
        ),
        is_component(archive_name@) ==> has_suffix(path@, archive_name@ + ".partial"@),
{
    proof {
        reveal_strlit("download");
        reveal_strlit(".partial");
        reveal_strlit(".");
        reveal_strlit("..");
    }
    let name = concat2(archive_name, ".partial");
    assert(is_component(archive_name@) ==> is_component(name@)) by {
        let n = archive_name@.len() as int;
        assert forall|i: int| 0 <= i < name@.len() && is_component(archive_name@) implies name@[i]
            != '/' && name@[i] != '\\' && name@[i] != ':' by {
            if i < n {
                assert(name@[i] == archive_name@[i]);
                assert(archive_name@.contains(name@[i]));
            } else {
                assert(name@[i] == ".partial"@[i - n]);
            }
        }
    }
    join_two(staging, "download", name.as_str())
}

/// Where a complete download is kept.
pub fn download_final_path(staging: &str, archive_name: &str) -> (path: String)
    ensures
        is_component(archive_name@) && !is_verbatim(staging@) ==> is_grandchild_path(
            path@,
            staging@,
            "download"@,
            archive_name@,
        ),
        is_plain_name(archive_name@) ==> has_suffix(path@, archive_name@),
{
    proof {
        reveal_strlit("download");
    }
    join_two(staging, "download", archive_name)
}

/// Where an archive is extracted to.
pub fn staging_tree_path(staging: &str) -> (path: String)
    ensures
        !is_verbatim(staging@) ==> is_child_path(path@, staging@, "tree"@),
        has_suffix(path@, "tree"@),
{
    proof {
        reveal_strlit("tree");
        reveal_strlit(".");
        reveal_strlit("..");
    }
    join_path(staging, "tree")
}

// ---------------------------------------------------------------------------
// Download
// ---------------------------------------------------------------------------

/// Why a download must stop: cancellation is reported before an overflow.
pub open spec fn abort_reason(written: u64, archive_size: u64, cancelled: bool) -> Option<
    DownloadAbortReason,
> {
    if cancelled {
        Some(DownloadAbortReason::Cancelled)
    } else if written > archive_size {
        Some(DownloadAbortReason::Overflow)
    } else {
        None
    }
}

pub fn download_should_abort(written: u64, archive_size: u64, cancelled: bool) -> (reason: Option<
    DownloadAbortReason,
>)
    ensures
        reason == abort_reason(written, archive_size, cancelled),
{
    if cancelled {
        return Some(DownloadAbortReason::Cancelled);
    }
    if written > archive_size {
        return Some(DownloadAbortReason::Overflow);
    }
    None
}

pub fn has_sufficient_free_space(free_bytes: u64, required_bytes: u64) -> (r: bool)
    ensures
        r == (free_bytes >= required_bytes),
{
    free_bytes >= required_bytes
}

/// The text of an aborted download.
pub open spec fn abort_text(reason: DownloadAbortReason) -> Seq<char> {
    match reason {
        DownloadAbortReason::Cancelled => "ffmpeg download cancelled"@,
        DownloadAbortReason::Overflow => "ffmpeg download exceeded archive_size"@,
    }
}

fn abort_message(reason: DownloadAbortReason) -> (out: String)
    ensures
        out@ == abort_text(reason),
{
    match reason {
        DownloadAbortReason::Cancelled => "ffmpeg download cancelled".to_owned(),
        DownloadAbortReason::Overflow => "ffmpeg download exceeded archive_size".to_owned(),
    }
}

/// The bytes written after one more chunk, at most the largest number of 64 bits.
pub open spec fn written_after(written: u64, chunk_len: nat) -> u64 {
    if written + chunk_len > u64::MAX {
        u64::MAX
    } else {
        (written + chunk_len) as u64
    }
}

/// Whether a chunk is written: nothing is cancelled and the archive has room for it.
pub open spec fn chunk_fits(written: u64, chunk_len: nat, archive_size: u64, cancelled: bool) -> bool {
    &&& abort_reason(written, archive_size, cancelled) is None
    &&& written_after(written, chunk_len) <= archive_size
}

/// Hands one chunk to `write`, within the cap and unless cancelled. Nothing is
/// written where the chunk would exceed the archive's size.
pub fn write_download_chunk<W: FnOnce(&[u8]) -> Result<(), String>>(
    write: W,
    written: &mut u64,
    chunk: &[u8],
    archive_size: u64,
    cancelled: bool,
) -> (res: Result<(), String>)
    requires
        chunk_fits(*old(written), chunk@.len(), archive_size, cancelled) ==> call_requires(
            write,
            (chunk,),
        ),
    ensures
        match abort_reason(*old(written), archive_size, cancelled) {
            Some(reason) => *final(written) == *old(written) && (res matches Err(message)
                && message@ == abort_text(reason)),
            None => if written_after(*old(written), chunk@.len()) > archive_size {
                &&& *final(written) == *old(written)
                &&& res matches Err(message)
                &&& message@ == abort_text(DownloadAbortReason::Overflow)
            } else {
                &&& call_ensures(write, (chunk,), res)
                &&& *final(written) == if res is Ok {
                    written_after(*old(written), chunk@.len())
                } else {
                    *old(written)
                }
            },
        },
{
    if let Some(reason) = download_should_abort(*written, archive_size, cancelled) {
        return Err(abort_message(reason));
    }
    let next: u64 = written.saturating_add(chunk.len() as u64);
    if next > archive_size {
        return Err(abort_message(DownloadAbortReason::Overflow));
    }
    let outcome = write(chunk);
    if outcome.is_ok() {
        *written = next;
    }
    outcome
}

/// The text for a refused download response.
pub open spec fn response_problem(
    success: bool,
    status: Seq<char>,
    content_length: Option<u64>,
    archive_size: u64,
) -> Option<Seq<char>> {
    if !success {
        Some("download ffmpeg archive failed with status "@ + status)
    } else if content_length matches Some(length) && length > archive_size {
        Some("ffmpeg download Content-Length exceeds archive_size"@)
    } else {
        None
    }
}

/// Accepts a response with a success status that does not announce too many bytes.
pub fn check_download_response(
    success: bool,
    status: &str,
    content_length: Option<u64>,
    archive_size: u64,
) -> (res: Result<(), String>)
    ensures
        match response_problem(success, status@, content_length, archive_size) {
            Some(problem) => res matches Err(message) && message@ == problem,
            None => res is Ok,
        },
{
    if !success {
        return Err(concat2("download ffmpeg archive failed with status ", status));
    }
    if let Some(length) = content_length {
        if length > archive_size {
            return Err("ffmpeg download Content-Length exceeds archive_size".to_owned());
        }
    }
    Ok(())
}

/// Bytes between two progress events.
pub const PROGRESS_STRIDE_BYTES: u64 = 512 * 1024;

/// The state after a chunk, and whether the window is told of it.
pub fn download_progress(written: u64, archive_size: u64) -> (progress: (FfmpegInstallState, bool))
    ensures
        progress.0 == (FfmpegInstallState::Downloading { bytes: written, total: archive_size }),
        progress.1 == (written == archive_size || written % PROGRESS_STRIDE_BYTES == 0),
{
    (
        FfmpegInstallState::Downloading { bytes: written, total: archive_size },
        written == archive_size || written % PROGRESS_STRIDE_BYTES == 0,
    )
}

/// `head`, the expected size, `", got "` and the actual size.
pub open spec fn size_text(head: Seq<char>, expected: u64, actual: u64) -> Seq<char> {
    head + decimal(expected as nat) + ", got "@ + decimal(actual as nat)
}

fn size_message(head: &str, expected: u64, actual: u64) -> (out: String)
    ensures
        out@ == size_text(head@, expected, actual),
{
    let want = decimal_string(expected);
    let got = decimal_string(actual);
    let mut out = concat3(head, want.as_str(), ", got ");
    out.append(got.as_str());
    out
}

/// Accepts an archive of the expected size.
pub fn assert_archive_size(actual: u64, expected_size: u64) -> (res: Result<(), String>)
    ensures
        res is Ok <==> actual == expected_size,
        res matches Err(message) ==> message@ == size_text(
            "FFmpeg archive size mismatch: expected "@,
            expected_size,
            actual,
        ),
{
    if actual != expected_size {
        return Err(
            size_message("FFmpeg archive size mismatch: expected ", expected_size, actual),
        );
    }
    Ok(())
}

/// The text for an archive with another digest than the expected one.
pub open spec fn archive_digest_text(expected: Seq<char>, actual: Seq<char>) -> Seq<char> {
    "FFmpeg archive SHA-256 mismatch: expected "@ + expected + ", got "@ + actual
}

/// Accepts an archive with the expected digest, and gives the digest back.
pub fn verify_archive_sha256(archive: &[u8], expected: &str) -> (res: Result<String, String>)
    ensures
        res is Ok <==> sha256_hex(archive@) == ascii_lower(expected@),
        match res {
            Ok(digest) => digest@ == sha256_hex(archive@),
            Err(message) => message@ == archive_digest_text(
                ascii_lower(expected@),
                sha256_hex(archive@),
            ),
        },
{
    let actual = hex_sha256(archive);
    let expected = to_ascii_lowercase(expected);
    if actual != expected {
        let mut message = concat3(
            "FFmpeg archive SHA-256 mismatch: expected ",
            expected.as_str(),
            ", got ",
        );
        message.append(actual.as_str());
        return Err(message);
    }
    Ok(actual)
}

/// Why a download cannot be used, and whether its partial file is removed at once.
#[derive(Debug, PartialEq, Eq)]
pub struct DownloadFailure {
    pub message: String,
    pub remove_partial: bool,
}

/// What the loop does before it reads the next chunk.
pub fn check_download_cancelled(cancelled: bool) -> (res: Result<(), DownloadFailure>)
    ensures
        res is Ok <==> !cancelled,
        res matches Err(failure) ==> failure.remove_partial && failure.message@ == abort_text(
            DownloadAbortReason::Cancelled,
        ),
{
    if cancelled {
        return Err(
            DownloadFailure {
                message: abort_message(DownloadAbortReason::Cancelled),
                remove_partial: true,
            },
        );
    }
    Ok(())
}

/// Accepts a finished download: every byte of it arrived and its digest is the
/// manifest's.
pub fn finish_download(written: u64, archive: &[u8], manifest: &FfmpegRuntimeManifest) -> (res:
    Result<(), DownloadFailure>)
    ensures
        res is Ok <==> written == manifest.archive_size && sha256_hex(archive@) == ascii_lower(
            manifest.archive_sha256@,
        ),
        res matches Err(failure) ==> if written != manifest.archive_size {
            failure.remove_partial && failure.message@ == size_text(
                "ffmpeg download size mismatch: expected "@,
                manifest.archive_size,
                written,
            )
        } else {
            !failure.remove_partial && failure.message@ == archive_digest_text(
                ascii_lower(manifest.archive_sha256@),
                sha256_hex(archive@),
            )
        },
{
    if written != manifest.archive_size {
        return Err(
            DownloadFailure {
                message: size_message(
                    "ffmpeg download size mismatch: expected ",
                    manifest.archive_size,
                    written,
                ),
                remove_partial: true,
            },
        );
    }
    match verify_archive_sha256(archive, manifest.archive_sha256.as_str()) {
        Ok(_) => Ok(()),
        Err(message) => Err(DownloadFailure { message, remove_partial: false }),
    }
}

// ---------------------------------------------------------------------------
// Extraction
// ---------------------------------------------------------------------------

/// The text of every cancelled install step.
pub open spec fn install_cancelled_text() -> Seq<char> {
    "ffmpeg install cancelled"@
}

/// Allowlist entries that are refused on every platform.
pub open spec fn is_unsafe_entry(file: FfmpegAllowedFile) -> bool {
    ||| is_blank(file.staged_name@)
    ||| is_never_a_name(file.staged_name@)
    ||| has_substring(file.archive_path@, ".."@)
    ||| lies_on_share(file.archive_path@)
}

/// Allowlist entries that are accepted on every platform.
pub open spec fn is_safe_entry(file: FfmpegAllowedFile) -> bool {
    &&& !is_blank(file.staged_name@)
    &&& is_plain_name(file.staged_name@)
    &&& !has_substring(file.archive_path@, ".."@)
    &&& starts_relative(file.archive_path@)
}

/// Whether an entry may be judged so: what is neither safe nor unsafe everywhere is
/// judged by the platform's path syntax.
pub open spec fn judged(file: FfmpegAllowedFile, valid: bool) -> bool {
    &&& is_safe_entry(file) ==> valid
    &&& is_unsafe_entry(file) ==> !valid
}

/// The text for a refused allowlist entry.
pub open spec fn unsafe_entry_text(file: FfmpegAllowedFile) -> Seq<char> {
    "unsafe FFmpeg allowlist entry: "@ + file.archive_path@ + " -> "@ + file.staged_name@
}

/// Judges an entry by what the platform says of its paths: `own_name` is the last component of
/// the staged name, `absolute` whether the archive path is absolute. An entry is accepted only
/// where its staged name is not blank and nothing but its own last component, and its archive
/// path neither holds `..` nor is absolute.
pub fn judge_allowlist_entry(
    file: &FfmpegAllowedFile,
    own_name: &Option<String>,
    absolute: bool,
) -> (res: Result<(), String>)
    ensures
        res is Ok <==> !is_blank(file.staged_name@) && opt_view(*own_name) == Some(
            file.staged_name@,
        ) && !has_substring(file.archive_path@, ".."@) && !absolute,
        res matches Err(message) ==> message@ == unsafe_entry_text(*file),
{
    let own = match own_name {
        Some(name) => str_eq(name.as_str(), file.staged_name.as_str()),
        None => false,
    };
    if blank(file.staged_name.as_str()) || !own || contains(file.archive_path.as_str(), "..")
        || absolute {
        let mut message = concat3(
            "unsafe FFmpeg allowlist entry: ",
            file.archive_path.as_str(),
            " -> ",
        );
        message.append(file.staged_name.as_str());
        return Err(message);
    }
    Ok(())
}

/// Refuses entries that would be staged outside the tree or read from outside the
/// archive's root, by the path syntax of the platform.
pub fn validate_allowlist_entry(file: &FfmpegAllowedFile) -> (res: Result<(), String>)
    ensures
        judged(*file, res is Ok),
        res is Ok ==> !is_blank(file.staged_name@) && !has_substring(file.archive_path@, ".."@),
        res matches Err(message) ==> message@ == unsafe_entry_text(*file),
{
    let own_name = file_name_of(file.staged_name.as_str());
    let absolute = is_absolute_path(file.archive_path.as_str());
    judge_allowlist_entry(file, &own_name, absolute)
}

/// The name of an allowlisted file in the archive.
pub open spec fn archive_entry_name(
    manifest: FfmpegRuntimeManifest,
    file: FfmpegAllowedFile,
) -> Seq<char> {
    without_trailing(manifest.archive_root@, '/') + "/"@ + replaced_char(
        file.archive_path@,
        '\\',
        '/',
    )
}

fn entry_name(manifest: &FfmpegRuntimeManifest, file: &FfmpegAllowedFile) -> (name: String)
    ensures
        name@ == archive_entry_name(*manifest, *file),
{
    let root = trim_end_matches(manifest.archive_root.as_str(), '/');
    let inner = replace_char(file.archive_path.as_str(), '\\', '/');
    concat3(root.as_str(), "/", inner.as_str())
}

/// A file taken out of the archive: its name, its size and its digest.
#[derive(Debug, PartialEq, Eq)]
pub struct StagedFile {
    pub name: String,
    pub size: u64,
    pub sha256: String,
}

/// The same over sequences of characters.
pub struct StagedModel {
    pub name: Seq<char>,
    pub size: u64,
    pub sha256: Seq<char>,
}

impl View for StagedFile {
    type V = StagedModel;

    open spec fn view(&self) -> StagedModel {
        StagedModel { name: self.name@, size: self.size, sha256: self.sha256@ }
    }
}

pub open spec fn staged_views(files: Seq<StagedFile>) -> Seq<StagedModel> {
    files.map_values(|file: StagedFile| file@)
}

/// The staged copy of an allowlisted file.
pub open spec fn staged_copy(file: FfmpegAllowedFile, content: Seq<u8>) -> StagedModel {
    StagedModel { name: file.staged_name@, size: file.size, sha256: sha256_hex(content) }
}

/// Why an allowlisted file is refused before anything of it is read, if it is.
pub open spec fn entry_refusal(
    archive: Seq<u8>,
    manifest: FfmpegRuntimeManifest,
    file: FfmpegAllowedFile,
    valid: bool,
) -> Option<Seq<char>> {
    let name = archive_entry_name(manifest, file);
    if !valid {
        Some(unsafe_entry_text(file))
    } else {
        match zip_entry_size(archive, name) {
            None => Some("missing archive entry "@ + name),
            Some(size) => if size != file.size {
                Some(
                    size_text(
                        "archive entry "@ + name + " size mismatch: expected "@,
                        file.size,
                        size,
                    ),
                )
            } else {
                None
            },
        }
    }
}

/// Checks an allowlisted file before anything of it is read.
fn check_entry_start(
    archive: &[u8],
    manifest: &FfmpegRuntimeManifest,
    file: &FfmpegAllowedFile,
) -> (res: Result<(), String>)
    ensures
        exists|valid: bool| #[trigger]
            judged(*file, valid) && match res {
                Ok(_) => entry_refusal(archive@, *manifest, *file, valid) is None,
                Err(message) => entry_refusal(archive@, *manifest, *file, valid) == Some(message@),
            },
{
    let checked = validate_allowlist_entry(file);
    assert(judged(*file, checked is Ok));
    if let Err(message) = checked {
        return Err(message);
    }
    let name = entry_name(manifest, file);
    let size: u64 = match entry_size(archive, name.as_str()) {
        Some(size) => size,
        None => return Err(concat2("missing archive entry ", name.as_str())),
    };
    if size != file.size {
        let head = concat3("archive entry ", name.as_str(), " size mismatch: expected ");
        return Err(size_message(head.as_str(), file.size, size));
    }
    Ok(())
}

/// What is wrong with the bytes of a staged file, if anything.
pub open spec fn staged_problem(file: FfmpegAllowedFile, content: Seq<u8>) -> Option<Seq<char>> {
    if content.len() != file.size {
        Some(
            "staged "@ + file.staged_name@ + " size mismatch: expected "@ + decimal(
                file.size as nat,
            ) + ", got "@ + decimal(content.len()),
        )
    } else if sha256_hex(content) != ascii_lower(file.sha256@) {
        Some(
            "staged "@ + file.staged_name@ + " SHA-256 mismatch: expected "@ + file.sha256@
                + ", got "@ + sha256_hex(content),
        )
    } else {
        None
    }
}

/// Checks the bytes of a staged file against its allowlist entry.
pub fn check_staged_bytes(file: &FfmpegAllowedFile, copied: u64, digest: &str) -> (res: Result<
    (),
    String,
>)
    ensures
        res is Ok <==> copied == file.size && digest@ == ascii_lower(file.sha256@),
        res matches Err(message) ==> message@ == if copied != file.size {
            "staged "@ + file.staged_name@ + " size mismatch: expected "@ + decimal(
                file.size as nat,
            ) + ", got "@ + decimal(copied as nat)
        } else {
            "staged "@ + file.staged_name@ + " SHA-256 mismatch: expected "@ + file.sha256@
                + ", got "@ + digest@
        },
{
    if copied != file.size {
        let want = decimal_string(file.size);
        let got = decimal_string(copied);
        let mut message = concat3(
            "staged ",
            file.staged_name.as_str(),
            " size mismatch: expected ",
        );
        message.append(want.as_str());
        message.append(", got ");
        message.append(got.as_str());
        return Err(message);
    }
    let expected = to_ascii_lowercase(file.sha256.as_str());
    if !str_eq(digest, expected.as_str()) {
        let mut message = concat3(
            "staged ",
            file.staged_name.as_str(),
            " SHA-256 mismatch: expected ",
        );
        message.append(file.sha256.as_str());
        message.append(", got ");
        message.append(digest);
        return Err(message);
    }
    Ok(())
}

/// Bytes written between two looks at the cancel flag.
pub const COPY_CHUNK_BYTES: usize = 64 * 1024;

/// The bytes that are written after one more chunk.
pub open spec fn next_copied(done: int, total: int) -> int {
    if total - done > COPY_CHUNK_BYTES {
        done + COPY_CHUNK_BYTES
    } else {
        total
    }
}

/// Where an extraction stands: what is due next.
#[derive(Debug, Clone, Copy, PartialEq, Eq, Structural)]
pub enum ExtractPhase {
    /// Look at the cancel flag before anything is touched.
    LookFirst,
    /// Clear the staging tree, and make it anew.
    Clear,
    /// Look at the cancel flag before an entry.
    LookEntry,
    /// Create the file of an entry.
    Create,
    /// Look at the cancel flag before a chunk of an entry, and after the last.
    LookChunk,
    /// Write a chunk of an entry.
    Write,
    /// Look at the cancel flag after an entry was written.
    LookStaged,
    Finished,
}

/// What came of what was due: the cancel flag, an attempt, or the tree that was read back.
#[derive(Debug, PartialEq, Eq)]
pub enum InstallAnswer {
    Flag(bool),
    Came(Result<(), String>),
    Tree(Result<ManagedTree, String>),
}

/// What an extraction or an install asks for.
#[derive(Debug, PartialEq, Eq)]
pub enum InstallAction {
    /// Look at the cancel flag. Answered by `Flag`.
    Look,
    /// Clear the staging tree, and make it anew. Answered by `Came`.
    ClearTree,
    /// Create a file of the staging tree. Answered by `Came`.
    CreateFile { name: String },
    /// Append to that file. Answered by `Came`.
    Append { name: String, bytes: Vec<u8> },
    /// Write the provenance record, and read the staging tree back. Answered by `Tree`.
    Seal { provenance: FfmpegProvenance },
    /// Ask whether the tree may be published. Answered by `Came`.
    AskToPublish,
    /// Put the staging tree in the place of the published one. Answered by `Came`.
    Publish { dest: String },
    Stop,
}

/// An extraction under way: what is due, the number of the allowlisted file, what it holds and
/// how much of that is written, the files that are done, and how it failed.
#[derive(Debug, PartialEq, Eq)]
pub struct ArchiveExtraction {
    pub phase: ExtractPhase,
    pub entry: usize,
    pub content: Vec<u8>,
    pub done: usize,
    pub staged: Vec<StagedFile>,
    pub failure: Option<String>,
}

/// The same over sequences.
#[verifier::ext_equal]
pub struct ExtractModel {
    pub phase: ExtractPhase,
    pub entry: usize,
    pub content: Seq<u8>,
    pub done: usize,
    pub staged: Seq<StagedModel>,
    pub failure: Option<Seq<char>>,
}

impl View for ArchiveExtraction {
    type V = ExtractModel;

    open spec fn view(&self) -> ExtractModel {
        ExtractModel {
            phase: self.phase,
            entry: self.entry,
            content: self.content@,
            done: self.done,
            staged: staged_views(self.staged@),
            failure: opt_view(self.failure),
        }
    }
}

/// The text of an extraction that a cancel request ended while a file was written.
pub open spec fn copy_cancelled_text(file: FfmpegAllowedFile) -> Seq<char> {
    "extract "@ + file.staged_name@ + ": "@ + install_cancelled_text()
}

impl ExtractModel {
    /// An extraction that begins.
    pub open spec fn begun() -> ExtractModel {
        ExtractModel {
            phase: ExtractPhase::LookFirst,
            entry: 0,
            content: Seq::empty(),
            done: 0,
            staged: Seq::empty(),
            failure: None,
        }
    }

    pub open spec fn failed(self, text: Seq<char>) -> ExtractModel {
        ExtractModel { phase: ExtractPhase::Finished, failure: Some(text), ..self }
    }

    pub open spec fn at(self, phase: ExtractPhase) -> ExtractModel {
        ExtractModel { phase, ..self }
    }

    /// Goes on with an allowlisted file, or ends after the last.
    pub open spec fn at_entry(self, manifest: FfmpegRuntimeManifest, entry: int) -> ExtractModel {
        ExtractModel {
            phase: if entry < manifest.allowed_files@.len() {
                ExtractPhase::LookEntry
            } else {
                ExtractPhase::Finished
            },
            entry: entry as usize,
            content: Seq::empty(),
            done: 0,
            ..self
        }
    }

    /// The allowlisted file that the extraction is at.
    pub open spec fn file(self, manifest: FfmpegRuntimeManifest) -> FfmpegAllowedFile {
        manifest.allowed_files@[self.entry as int]
    }

    /// Goes on with the next chunk, or with the look after the last.
    pub open spec fn at_chunk(self) -> ExtractModel {
        self.at(
            if self.done == self.content.len() {
                ExtractPhase::LookStaged
            } else {
                ExtractPhase::Write
            },
        )
    }

    /// Whether an answer is one to what is due.
    pub open spec fn takes(self, answer: InstallAnswer) -> bool {
        match self.phase {
            ExtractPhase::Clear | ExtractPhase::Create | ExtractPhase::Write => answer is Came,
            ExtractPhase::Finished => false,
            _ => answer is Flag,
        }
    }

    /// What an answer leads to. A cancel request that is seen ends the extraction there, and so
    /// does the first thing that fails. `valid` is whether the entry is accepted.
    pub open spec fn after(
        self,
        archive: Seq<u8>,
        manifest: FfmpegRuntimeManifest,
        answer: InstallAnswer,
        valid: bool,
    ) -> ExtractModel {
        let file = self.file(manifest);
        let name = file.staged_name@;
        match (self.phase, answer) {
            (ExtractPhase::LookFirst, InstallAnswer::Flag(set)) => if set {
                self.failed(install_cancelled_text())
            } else {
                self.at(ExtractPhase::Clear)
            },
            (ExtractPhase::Clear, InstallAnswer::Came(Err(error))) => self.failed(error@),
            (ExtractPhase::Clear, InstallAnswer::Came(Ok(_))) => match zip_open_error(archive) {
                Some(text) => self.failed("open zip: "@ + text),
                None => self.at_entry(manifest, 0),
            },
            (ExtractPhase::LookEntry, InstallAnswer::Flag(set)) => if set {
                self.failed(install_cancelled_text())
            } else {
                match entry_refusal(archive, manifest, file, valid) {
                    Some(text) => self.failed(text),
                    None => self.at(ExtractPhase::Create),
                }
            },
            (ExtractPhase::Create, InstallAnswer::Came(Err(error))) => self.failed(
                "create staged "@ + name + ": "@ + error@,
            ),
            (ExtractPhase::Create, InstallAnswer::Came(Ok(_))) => self.at(ExtractPhase::LookChunk),
            (ExtractPhase::LookChunk, InstallAnswer::Flag(set)) => if set {
                self.failed(copy_cancelled_text(file))
            } else if self.done > 0 {
                self.at_chunk()
            } else {
                match zip_entry_content(archive, archive_entry_name(manifest, file)) {
                    Err(text) => self.failed(
                        "extract "@ + name + ": read archive entry: "@ + text,
                    ),
                    Ok(content) => ExtractModel { content, ..self }.at_chunk(),
                }
            },
            (ExtractPhase::Write, InstallAnswer::Came(Err(error))) => self.failed(
                "extract "@ + name + ": write staged file: "@ + error@,
            ),
            (ExtractPhase::Write, InstallAnswer::Came(Ok(_))) => ExtractModel {
                done: next_copied(self.done as int, self.content.len() as int) as usize,
                ..self
            }.at(ExtractPhase::LookChunk),
            (ExtractPhase::LookStaged, InstallAnswer::Flag(set)) => if set {
                self.failed(install_cancelled_text())
            } else {
                match staged_problem(file, self.content) {
                    Some(text) => self.failed(text),
                    None => ExtractModel {
                        staged: self.staged.push(staged_copy(file, self.content)),
                        ..self
                    }.at_entry(manifest, self.entry + 1),
                }
            },
            _ => self,
        }
    }

    /// What is known of an extraction that came this far.
    pub open spec fn wf(self, archive: Seq<u8>, manifest: FfmpegRuntimeManifest) -> bool {
        match self.phase {
            ExtractPhase::LookFirst | ExtractPhase::Clear => self == ExtractModel::begun().at(
                self.phase,
            ),
            ExtractPhase::Finished => self.failure is None ==> all_staged(
                archive,
                manifest,
                self.staged,
            ),
            _ => {
                &&& self.failure is None
                &&& zip_open_error(archive) is None
                &&& self.entry < manifest.allowed_files@.len()
                &&& self.staged.len() == self.entry
                &&& staged_up_to(archive, manifest, self.staged)
                &&& self.phase is LookEntry ==> self.done == 0
                &&& self.phase !is LookEntry ==> judged(self.file(manifest), true)
                    && entry_refusal(archive, manifest, self.file(manifest), true) is None
                &&& self.phase is Create ==> self.done == 0
                &&& self.phase is LookChunk && self.done > 0 || self.phase is Write || self.phase
                    is LookStaged ==> zip_entry_content(
                    archive,
                    archive_entry_name(manifest, self.file(manifest)),
                ) == Ok::<Seq<u8>, Seq<char>>(self.content)
                &&& self.phase is LookChunk && self.done > 0 ==> self.done <= self.content.len()
                &&& self.phase is Write ==> self.done < self.content.len()
                &&& self.phase is LookStaged ==> self.done == self.content.len()
            },
        }
    }
}

/// The staged files are the copies of the first allowlisted files, in order, with which
/// nothing is wrong.
pub open spec fn staged_up_to(
    archive: Seq<u8>,
    manifest: FfmpegRuntimeManifest,
    staged: Seq<StagedModel>,
) -> bool {
    &&& staged.len() <= manifest.allowed_files@.len()
    &&& forall|i: int|
        0 <= i < staged.len() ==> entry_staged(
            archive,
            manifest,
            manifest.allowed_files@[i],
            #[trigger] staged[i],
        )
}

/// The staged files are the copies of all the allowlisted files, in order.
pub open spec fn all_staged(
    archive: Seq<u8>,
    manifest: FfmpegRuntimeManifest,
    staged: Seq<StagedModel>,
) -> bool {
    &&& zip_open_error(archive) is None
    &&& staged.len() == manifest.allowed_files@.len()
    &&& staged_up_to(archive, manifest, staged)
}

/// One staged file is the copy of its allowlisted file, which has nothing wrong.
pub open spec fn entry_staged(
    archive: Seq<u8>,
    manifest: FfmpegRuntimeManifest,
    file: FfmpegAllowedFile,
    staged: StagedModel,
) -> bool {
    &&& judged(file, true)
    &&& entry_refusal(archive, manifest, file, true) is None
    &&& zip_entry_content(archive, archive_entry_name(manifest, file)) matches Ok(content)
    &&& staged_problem(file, content) is None
    &&& staged == staged_copy(file, content)
}

/// Whether an answer leads from one state of an extraction to another. Whether an entry that
/// is looked at is accepted may be the platform's choice.
pub open spec fn extract_step(
    archive: Seq<u8>,
    manifest: FfmpegRuntimeManifest,
    before: ExtractModel,
    answer: InstallAnswer,
    after: ExtractModel,
) -> bool {
    exists|valid: bool|
        (before.phase is LookEntry ==> judged(before.file(manifest), valid)) && after
            == #[trigger] before.after(archive, manifest, answer, valid)
}

/// The bytes of a content from one index to another.
fn part_of(content: &Vec<u8>, from: usize, to: usize) -> (bytes: Vec<u8>)
    requires
        from <= to <= content@.len(),
    ensures
        bytes@ == content@.subrange(from as int, to as int),
{
    let mut bytes: Vec<u8> = Vec::new();
    let mut i: usize = from;
    assert(content@.subrange(from as int, from as int) =~= bytes@);
    while i < to
        invariant
            from <= i <= to <= content@.len(),
            bytes@ == content@.subrange(from as int, i as int),
        decreases to - i,
    {
        bytes.push(content[i]);
        i += 1;
        assert(content@.subrange(from as int, i as int) =~= content@.subrange(
            from as int,
            i - 1,
        ).push(content@[i - 1]));
    }
    bytes
}

/// Begins to take only the allowlisted files out of an archive. Every one of them is checked
/// against its size and digest; the first one that fails ends the extraction, and so does a
/// cancel request.
pub fn extract_allowlisted_ffmpeg_archive() -> (extraction: ArchiveExtraction)
    ensures
        extraction@ == ExtractModel::begun(),
        forall|archive: Seq<u8>, manifest: FfmpegRuntimeManifest| #[trigger]
            extraction@.wf(archive, manifest),
{
    let extraction = ArchiveExtraction {
        phase: ExtractPhase::LookFirst,
        entry: 0,
        content: Vec::new(),
        done: 0,
        staged: Vec::new(),
        failure: None,
    };
    assert(staged_views(extraction.staged@) =~= Seq::empty());
    assert(extraction@ =~= ExtractModel::begun());
    assert(extraction@ == ExtractModel::begun().at(extraction.phase));
    extraction
}

/// The chunk that is due.
fn next_chunk_end(done: usize, total: usize) -> (end: usize)
    requires
        done <= total,
    ensures
        end == next_copied(done as int, total as int),
        done < total ==> done < end <= total,
{
    if total - done > COPY_CHUNK_BYTES {
        done + COPY_CHUNK_BYTES
    } else {
        total
    }
}

impl ArchiveExtraction {
    fn fail(&mut self, text: String)
        ensures
            final(self)@ == old(self)@.failed(text@),
    {
        self.failure = Some(text);
        self.phase = ExtractPhase::Finished;
    }

    fn go_on_with_entry(&mut self, manifest: &FfmpegRuntimeManifest, entry: usize)
        ensures
            final(self)@ == old(self)@.at_entry(*manifest, entry as int),
    {
        self.entry = entry;
        self.content = Vec::new();
        self.done = 0;
        self.phase = if entry < manifest.allowed_files.len() {
            ExtractPhase::LookEntry
        } else {
            ExtractPhase::Finished
        };
        assert(self.content@ =~= Seq::empty());
    }

    fn go_on_with_chunk(&mut self)
        ensures
            final(self)@ == old(self)@.at_chunk(),
    {
        self.phase = if self.done == self.content.len() {
            ExtractPhase::LookStaged
        } else {
            ExtractPhase::Write
        };
    }

    /// What is due.
    pub fn due(&self, archive: &[u8], manifest: &FfmpegRuntimeManifest) -> (action: InstallAction)
        requires
            self@.wf(archive@, *manifest),
        ensures
            is_extract_action(self@, *manifest, action),
    {
        match self.phase {
            ExtractPhase::Clear => InstallAction::ClearTree,
            ExtractPhase::Create => InstallAction::CreateFile {
                name: manifest.allowed_files[self.entry].staged_name.clone(),
            },
            ExtractPhase::Write => {
                let end: usize = next_chunk_end(self.done, self.content.len());
                InstallAction::Append {
                    name: manifest.allowed_files[self.entry].staged_name.clone(),
                    bytes: part_of(&self.content, self.done, end),
                }
            },
            ExtractPhase::Finished => InstallAction::Stop,
            _ => InstallAction::Look,
        }
    }

    /// Takes the answer to what was due.
    pub fn answered(
        &mut self,
        archive: &[u8],
        manifest: &FfmpegRuntimeManifest,
        answer: InstallAnswer,
    )
        requires
            old(self)@.wf(archive@, *manifest),
            old(self)@.takes(answer),
        ensures
            final(self)@.wf(archive@, *manifest),
            extract_step(archive@, *manifest, old(self)@, answer, final(self)@),
    {
        let ghost mut valid = true;
        let ghost before = self@;
        match (self.phase, answer) {
            (ExtractPhase::LookFirst, InstallAnswer::Flag(set)) => {
                if set {
                    self.fail("ffmpeg install cancelled".to_owned());
                } else {
                    self.phase = ExtractPhase::Clear;
                }
            },
            (ExtractPhase::Clear, InstallAnswer::Came(Err(error))) => {
                self.fail(error);
            },
            (ExtractPhase::Clear, InstallAnswer::Came(Ok(_))) => {
                if let Some(text) = open_error(archive) {
                    self.fail(concat2("open zip: ", text.as_str()));
                } else {
                    self.go_on_with_entry(manifest, 0);
                }
            },
            (ExtractPhase::LookEntry, InstallAnswer::Flag(set)) => {
                if set {
                    self.fail("ffmpeg install cancelled".to_owned());
                    proof {
                        lemma_entry_is_judged(before.file(*manifest));
                        valid = choose|v: bool| judged(before.file(*manifest), v);
                    }
                } else {
                    let file = &manifest.allowed_files[self.entry];
                    let checked = check_entry_start(archive, manifest, file);
                    proof {
                        valid = choose|v: bool| #[trigger]
                            judged(*file, v) && match checked {
                                Ok(_) => entry_refusal(archive@, *manifest, *file, v) is None,
                                Err(message) => entry_refusal(archive@, *manifest, *file, v)
                                    == Some(message@),
                            };
                    }
                    match checked {
                        Err(message) => self.fail(message),
                        Ok(_) => {
                            self.phase = ExtractPhase::Create;
                        },
                    }
                }
            },
            (ExtractPhase::Create, InstallAnswer::Came(Err(error))) => {
                let file = &manifest.allowed_files[self.entry];
                let head = concat3("create staged ", file.staged_name.as_str(), ": ");
                self.fail(concat2(head.as_str(), error.as_str()));
            },
            (ExtractPhase::Create, InstallAnswer::Came(Ok(_))) => {
                self.phase = ExtractPhase::LookChunk;
            },
            (ExtractPhase::LookChunk, InstallAnswer::Flag(set)) => {
                let file = &manifest.allowed_files[self.entry];
                if set {
                    let head = concat3("extract ", file.staged_name.as_str(), ": ");
                    self.fail(concat2(head.as_str(), "ffmpeg install cancelled"));
                } else if self.done > 0 {
                    self.go_on_with_chunk();
                } else {
                    let name = entry_name(manifest, file);
                    match entry_content(archive, name.as_str()) {
                        Err(text) => {
                            let head = concat3(
                                "extract ",
                                file.staged_name.as_str(),
                                ": read archive entry: ",
                            );
                            self.fail(concat2(head.as_str(), text.as_str()));
                        },
                        Ok(content) => {
                            self.content = content;
                            self.go_on_with_chunk();
                        },
                    }
                }
            },
            (ExtractPhase::Write, InstallAnswer::Came(Err(error))) => {
                let file = &manifest.allowed_files[self.entry];
                let head = concat3(
                    "extract ",
                    file.staged_name.as_str(),
                    ": write staged file: ",
                );
                self.fail(concat2(head.as_str(), error.as_str()));
            },
            (ExtractPhase::Write, InstallAnswer::Came(Ok(_))) => {
                self.done = next_chunk_end(self.done, self.content.len());
                self.phase = ExtractPhase::LookChunk;
            },
            (ExtractPhase::LookStaged, InstallAnswer::Flag(set)) => {
                if set {
                    self.fail("ffmpeg install cancelled".to_owned());
                } else {
                    let file = &manifest.allowed_files[self.entry];
                    let digest = hex_sha256(self.content.as_slice());
                    let copied: u64 = self.content.len() as u64;
                    match check_staged_bytes(file, copied, digest.as_str()) {
                        Err(message) => self.fail(message),
                        Ok(_) => {
                            let ghost staged = self.staged@;
                            let copy = StagedFile {
                                name: file.staged_name.clone(),
                                size: file.size,
                                sha256: digest,
                            };
                            self.staged.push(copy);
                            assert(staged_views(self.staged@) =~= staged_views(staged).push(copy@));
                            assert(copy@ == staged_copy(*file, before.content));
                            assert(self.entry < manifest.allowed_files.len());
                            let next: usize = self.entry + 1;
                            self.go_on_with_entry(manifest, next);
                            assert forall|i: int|
                                0 <= i < self@.staged.len() implies entry_staged(
                                archive@,
                                *manifest,
                                manifest.allowed_files@[i],
                                #[trigger] self@.staged[i],
                            ) by {
                                if i < before.staged.len() {
                                    assert(self@.staged[i] == before.staged[i]);
                                }
                            }
                        },
                    }
                }
            },
            _ => {},
        }
        assert(self@ == before.after(archive@, *manifest, answer, valid));
    }
}

/// What an extraction asks for.
pub open spec fn is_extract_action(
    extraction: ExtractModel,
    manifest: FfmpegRuntimeManifest,
    action: InstallAction,
) -> bool {
    match extraction.phase {
        ExtractPhase::Clear => action is ClearTree,
        ExtractPhase::Create => action matches InstallAction::CreateFile { name } && name@
            == extraction.file(manifest).staged_name@,
        ExtractPhase::Write => action matches InstallAction::Append { name, bytes } && name@
            == extraction.file(manifest).staged_name@ && bytes@ == extraction.content.subrange(
            extraction.done as int,
            next_copied(extraction.done as int, extraction.content.len() as int),
        ),
        ExtractPhase::Finished => action is Stop,
        _ => action is Look,
    }
}

/// Every entry is judged somehow.
proof fn lemma_entry_is_judged(file: FfmpegAllowedFile)
    ensures
        exists|valid: bool| #[trigger] judged(file, valid),
{
    if is_unsafe_entry(file) {
        lemma_safe_is_not_unsafe(file);
        assert(judged(file, false));
    } else {
        assert(judged(file, true));
    }
}

/// No entry is both safe and unsafe.
proof fn lemma_safe_is_not_unsafe(file: FfmpegAllowedFile)
    requires
        is_unsafe_entry(file),
    ensures
        !is_safe_entry(file),
{
    if lies_on_share(file.archive_path@) {
        reveal_strlit("//");
        reveal_strlit("/");
        let (server, share, rest) = choose|
            server: Seq<char>,
            share: Seq<char>,
            rest: Seq<char>,
        | #[trigger] is_share_path(file.archive_path@, server, share, rest);
        assert(file.archive_path@[0] == '/');
    }
}

// ---------------------------------------------------------------------------
// What an extraction writes
// ---------------------------------------------------------------------------

/// What a step does to the files of the staging tree. Nothing is said of an attempt that
/// failed.
pub open spec fn files_step(
    extraction: ExtractModel,
    manifest: FfmpegRuntimeManifest,
    answer: InstallAnswer,
    files: Map<Seq<char>, Seq<u8>>,
    next: Map<Seq<char>, Seq<u8>>,
) -> bool {
    let name = extraction.file(manifest).staged_name@;
    match answer {
        InstallAnswer::Came(Ok(_)) => next == match extraction.phase {
            ExtractPhase::Clear => Map::empty(),
            ExtractPhase::Create => files.insert(name, Seq::empty()),
            ExtractPhase::Write => files.insert(
                name,
                files[name] + extraction.content.subrange(
                    extraction.done as int,
                    next_copied(extraction.done as int, extraction.content.len() as int),
                ),
            ),
            _ => files,
        },
        InstallAnswer::Flag(_) => next == files,
        _ => true,
    }
}

/// No two allowlisted files are staged under one name.
pub open spec fn names_differ(manifest: FfmpegRuntimeManifest) -> bool {
    forall|i: int, j: int|
        0 <= i < j < manifest.allowed_files@.len()
            ==> (#[trigger] manifest.allowed_files@[i]).staged_name@ != (
        #[trigger] manifest.allowed_files@[j]).staged_name@
}

/// What the archive holds of an allowlisted file.
pub open spec fn archived(
    archive: Seq<u8>,
    manifest: FfmpegRuntimeManifest,
    file: FfmpegAllowedFile,
) -> Seq<u8> {
    zip_entry_content(archive, archive_entry_name(manifest, file))->Ok_0
}

/// The files of the staging tree are the first allowlisted files, whole.
pub open spec fn files_are(
    archive: Seq<u8>,
    manifest: FfmpegRuntimeManifest,
    count: int,
    files: Map<Seq<char>, Seq<u8>>,
) -> bool {
    &&& forall|i: int|
        0 <= i < count ==> files.contains_key((#[trigger] manifest.allowed_files@[i]).staged_name@)
            && files[manifest.allowed_files@[i].staged_name@] == archived(
            archive,
            manifest,
            manifest.allowed_files@[i],
        )
    &&& forall|name: Seq<char>| #[trigger]
        files.contains_key(name) ==> exists|i: int|
            0 <= i < count && (#[trigger] manifest.allowed_files@[i]).staged_name@ == name
}

/// The files of the staging tree, as far as an extraction has come.
pub open spec fn files_so_far(
    extraction: ExtractModel,
    archive: Seq<u8>,
    manifest: FfmpegRuntimeManifest,
    files: Map<Seq<char>, Seq<u8>>,
) -> bool {
    let name = extraction.file(manifest).staged_name@;
    match extraction.phase {
        ExtractPhase::LookFirst | ExtractPhase::Clear => true,
        ExtractPhase::LookEntry | ExtractPhase::Create => files_are(
            archive,
            manifest,
            extraction.entry as int,
            files,
        ),
        ExtractPhase::Finished => extraction.failure is None ==> files_are(
            archive,
            manifest,
            manifest.allowed_files@.len() as int,
            files,
        ),
        _ => {
            &&& files.contains_key(name)
            &&& files[name] == if extraction.done == 0 {
                Seq::<u8>::empty()
            } else {
                extraction.content.take(extraction.done as int)
            }
            &&& files_are(archive, manifest, extraction.entry as int, files.remove(name))
        },
    }
}

/// Whatever the answers, the files of the staging tree stay as far along as the extraction: one
/// that succeeds leaves exactly the allowlisted files, each with what the archive holds of it.
pub proof fn law_extraction_writes_the_files(
    archive: Seq<u8>,
    manifest: FfmpegRuntimeManifest,
    before: ExtractModel,
    answer: InstallAnswer,
    after: ExtractModel,
    files: Map<Seq<char>, Seq<u8>>,
    next: Map<Seq<char>, Seq<u8>>,
)
    requires
        names_differ(manifest),
        before.wf(archive, manifest),
        before.takes(answer),
        before.content.len() <= usize::MAX,
        manifest.allowed_files@.len() <= usize::MAX,
        extract_step(archive, manifest, before, answer, after),
        files_so_far(before, archive, manifest, files),
        files_step(before, manifest, answer, files, next),
    ensures
        files_so_far(after, archive, manifest, next),
{
    let name = before.file(manifest).staged_name@;
    let allowed = manifest.allowed_files@;
    match (before.phase, answer) {
        (ExtractPhase::Create, InstallAnswer::Came(Ok(_))) => {
            assert(next.remove(name) =~= files) by {
                if files.contains_key(name) {
                    let i = choose|i: int|
                        0 <= i < before.entry && (#[trigger] allowed[i]).staged_name@ == name;
                    assert(allowed[i].staged_name@ != allowed[before.entry as int].staged_name@);
                }
            }
        },
        (ExtractPhase::Write, InstallAnswer::Came(Ok(_))) => {
            assert(next.remove(name) =~= files.remove(name));
            assert(next[name] =~= before.content.take(after.done as int));
        },
        (ExtractPhase::LookChunk, InstallAnswer::Flag(set)) => {
            if !set && before.done == 0 && after.phase !is Finished {
                assert(next[name] =~= Seq::<u8>::empty());
            }
        },
        (ExtractPhase::LookStaged, InstallAnswer::Flag(set)) => {
            if after.failure is None {
                let count = before.entry + 1;
                assert(files[name] =~= before.content);
                assert forall|i: int| 0 <= i < count implies next.contains_key(
                    (#[trigger] allowed[i]).staged_name@,
                ) && next[allowed[i].staged_name@] == archived(archive, manifest, allowed[i]) by {
                    if i < before.entry {
                        assert(allowed[i].staged_name@
                            != allowed[before.entry as int].staged_name@);
                        assert(files.remove(name).contains_key(allowed[i].staged_name@));
                    }
                }
                assert forall|n: Seq<char>| #[trigger] next.contains_key(n) implies exists|i: int|
                    0 <= i < count && (#[trigger] allowed[i]).staged_name@ == n by {
                    if n == name {
                        assert(allowed[before.entry as int].staged_name@ == n);
                    } else {
                        assert(files.remove(name).contains_key(n));
                    }
                }
            }
        },
        _ => {},
    }
}

/// How far an extraction has come within an entry.
pub open spec fn extract_rank(phase: ExtractPhase) -> int {
    match phase {
        ExtractPhase::LookFirst => 0,
        ExtractPhase::Clear => 1,
        ExtractPhase::LookEntry => 2,
        ExtractPhase::Create => 3,
        ExtractPhase::LookChunk => 4,
        ExtractPhase::Write => 5,
        ExtractPhase::LookStaged => 6,
        ExtractPhase::Finished => 7,
    }
}

/// Every answer takes an extraction further: to its end, to another phase, to another chunk or
/// to another file.
pub proof fn law_extraction_ends(
    archive: Seq<u8>,
    manifest: FfmpegRuntimeManifest,
    before: ExtractModel,
    answer: InstallAnswer,
    after: ExtractModel,
)
    requires
        before.wf(archive, manifest),
        before.takes(answer),
        manifest.allowed_files@.len() <= usize::MAX,
        before.content.len() <= usize::MAX,
        extract_step(archive, manifest, before, answer, after),
    ensures
        ({
            ||| after.phase is Finished
            ||| after.entry == before.entry + 1
            ||| after.entry == before.entry && after.done > before.done
            ||| after.entry == before.entry && after.done == before.done && extract_rank(
                after.phase,
            ) > extract_rank(before.phase)
        }),
{
}

/// A cancel request that is seen ends an extraction, and the error says so.
pub proof fn law_cancel_ends_an_extraction(
    archive: Seq<u8>,
    manifest: FfmpegRuntimeManifest,
    before: ExtractModel,
    after: ExtractModel,
)
    requires
        before.takes(InstallAnswer::Flag(true)),
        extract_step(archive, manifest, before, InstallAnswer::Flag(true), after),
    ensures
        after.phase is Finished,
        after.failure == Some(
            if before.phase is LookChunk {
                copy_cancelled_text(before.file(manifest))
            } else {
                install_cancelled_text()
            },
        ),
{
}

// ---------------------------------------------------------------------------
// Provenance
// ---------------------------------------------------------------------------

/// A provenance entry for a staged file.
pub open spec fn is_entry_of(entry: ProvenanceFile, staged: StagedModel) -> bool {
    &&& entry.name@ == staged.name
    &&& entry.size == staged.size
    &&& entry.sha256@ == staged.sha256
}

/// The provenance record of a staged tree.
pub open spec fn is_provenance_of(
    provenance: FfmpegProvenance,
    manifest: FfmpegRuntimeManifest,
    manifest_sha256: Seq<char>,
    files: Seq<StagedModel>,
) -> bool {
    &&& provenance.schema_version == 1
    &&& provenance.provider == manifest.provider
    &&& provenance.release_tag == manifest.release_tag
    &&& provenance.published_at == manifest.published_at
    &&& provenance.archive_name == manifest.archive_name
    &&& provenance.archive_url == manifest.archive_url
    &&& provenance.archive_sha256 == manifest.archive_sha256
    &&& provenance.manifest_sha256@ == manifest_sha256
    &&& provenance.ffmpeg_version == manifest.version_line
    &&& provenance.source_offer_url == manifest.source_offer_url
    &&& provenance.ffmpeg_source_url == manifest.ffmpeg_source_url
    &&& provenance.files@.len() == files.len()
    &&& forall|i: int|
        0 <= i < files.len() ==> is_entry_of(#[trigger] provenance.files@[i], files[i])
}

/// The provenance record to write beside the staged files.
pub fn write_managed_provenance(
    manifest: &FfmpegRuntimeManifest,
    manifest_sha256: &str,
    files: &Vec<StagedFile>,
) -> (provenance: FfmpegProvenance)
    ensures
        is_provenance_of(provenance, *manifest, manifest_sha256@, staged_views(files@)),
{
    let mut entries: Vec<ProvenanceFile> = Vec::new();
    let mut i: usize = 0;
    while i < files.len()
        invariant
            i <= files@.len(),
            entries@.len() == i,
            forall|k: int| 0 <= k < i ==> is_entry_of(#[trigger] entries@[k], files@[k]@),
        decreases files@.len() - i,
    {
        entries.push(
            ProvenanceFile {
                name: files[i].name.clone(),
                size: files[i].size,
                sha256: files[i].sha256.clone(),
            },
        );
        i += 1;
    }
    FfmpegProvenance {
        schema_version: 1,
        provider: manifest.provider.clone(),
        release_tag: manifest.release_tag.clone(),
        published_at: manifest.published_at.clone(),
        archive_name: manifest.archive_name.clone(),
        archive_url: manifest.archive_url.clone(),
        archive_sha256: manifest.archive_sha256.clone(),
        manifest_sha256: manifest_sha256.to_owned(),
        ffmpeg_version: manifest.version_line.clone(),
        source_offer_url: manifest.source_offer_url.clone(),
        ffmpeg_source_url: manifest.ffmpeg_source_url.clone(),
        files: entries,
    }
}

/// A tree holds exactly the allowlisted files of the archive and the provenance record, as
/// they were written.
pub open spec fn tree_holds(
    tree: ManagedTree,
    archive: Seq<u8>,
    manifest: FfmpegRuntimeManifest,
    provenance: FfmpegProvenance,
) -> bool {
    let allowed = manifest.allowed_files@;
    &&& tree.is_dir
    &&& tree.list_error is None
    &&& forall|i: int|
        0 <= i < tree.entries@.len() ==> #[trigger] tree.entries@[i]@ == "PROVENANCE.json"@ || exists|
            k: int,
        |
            0 <= k < allowed.len() && #[trigger] allowed[k].staged_name@ == tree.entries@[i]@
    &&& forall|k: int|
        0 <= k < allowed.len() ==> file_holds(
            file_named(tree.files@, (#[trigger] allowed[k]).staged_name@),
            archived(archive, manifest, allowed[k]),
        )
    &&& file_named(tree.files@, "PROVENANCE.json"@) is Some
    &&& tree.provenance == ProvenanceRead::Parsed(provenance)
}

/// A file on disk has these bytes.
pub open spec fn file_holds(found: Option<TreeFile>, content: Seq<u8>) -> bool {
    &&& found matches Some(file)
    &&& file.size == content.len()
    &&& file.content matches Ok(bytes)
    &&& bytes@ == content
}

/// A tree that holds what extraction staged, and the provenance record made of it,
/// verifies: an install that wrote its tree faithfully is never refused.
pub proof fn law_staged_tree_verifies(
    archive: Seq<u8>,
    manifest: FfmpegRuntimeManifest,
    manifest_sha256: Seq<char>,
    files: Seq<StagedModel>,
    provenance: FfmpegProvenance,
    tree: ManagedTree,
)
    requires
        all_staged(archive, manifest, files),
        is_provenance_of(provenance, manifest, manifest_sha256, files),
        tree_holds(tree, archive, manifest, provenance),
        exists|k: int|
            0 <= k < manifest.allowed_files@.len() && #[trigger]
            manifest.allowed_files@[k].staged_name@ == "ffmpeg.exe"@,
    ensures
        tree_failure(tree, manifest, manifest_sha256) is None,
{
    let allowed = manifest.allowed_files@;
    assert forall|i: int| 0 <= i < tree.entries@.len() implies entry_allowed(
        #[trigger] tree.entries@[i]@,
        allowed,
    ) by {
        if tree.entries@[i]@ != "PROVENANCE.json"@ {
            let k = choose|k: int|
                0 <= k < allowed.len() && #[trigger] allowed[k].staged_name@
                    == tree.entries@[i]@;
            assert(allowed[k].staged_name@ == tree.entries@[i]@);
        }
    }
    assert forall|i: int| 0 <= i < allowed.len() implies file_conforms(
        #[trigger] allowed[i],
        file_named(tree.files@, allowed[i].staged_name@),
    ) by {
        assert(entry_staged(archive, manifest, allowed[i], files[i]));
        assert(file_holds(
            file_named(tree.files@, allowed[i].staged_name@),
            archived(archive, manifest, allowed[i]),
        ));
    }
    assert forall|i: int| 0 <= i < allowed.len() implies entry_conforms(
        #[trigger] allowed[i],
        provenance.files@[i],
    ) by {
        assert(entry_staged(archive, manifest, allowed[i], files[i]));
        assert(is_entry_of(provenance.files@[i], files[i]));
        lemma_ascii_lower_idempotent(allowed[i].sha256@);
    }
    let k = choose|k: int|
        0 <= k < allowed.len() && #[trigger] allowed[k].staged_name@ == "ffmpeg.exe"@;
    assert(file_conforms(allowed[k], file_named(tree.files@, allowed[k].staged_name@)));
    law_verified_iff_conforming(tree, manifest, manifest_sha256);
}

// ---------------------------------------------------------------------------
// Publishing
// ---------------------------------------------------------------------------

/// The name under which the previous runtime is set aside.
pub fn backup_name(unix_millis: u64) -> (name: String)
    ensures
        name@ == ".ffmpeg-previous-"@ + decimal(unix_millis as nat),
{
    let millis = decimal_string(unix_millis);
    concat2(".ffmpeg-previous-", millis.as_str())
}

/// Renames and removals that replace the published runtime.
#[derive(Debug, Clone, Copy, PartialEq, Eq, Structural)]
pub enum PublishAction {
    /// Rename the published directory to the backup name.
    BackUp,
    /// Rename the staged tree to the published directory.
    Promote,
    /// Remove the backup; whether that succeeds does not matter.
    RemoveBackup,
    /// Rename the backup to the published directory; whether that succeeds does not matter.
    RestoreBackup,
    /// Leave everything where it is.
    Nothing,
}

/// The first action: an existing runtime is set aside before the tree takes its place.
pub fn publish_first(dest_exists: bool) -> (action: PublishAction)
    ensures
        action == if dest_exists {
            PublishAction::BackUp
        } else {
            PublishAction::Promote
        },
{
    if dest_exists {
        PublishAction::BackUp
    } else {
        PublishAction::Promote
    }
}

/// What follows the attempt to set the existing runtime aside.
pub fn publish_after_backup(outcome: Result<(), String>) -> (res: Result<PublishAction, String>)
    ensures
        match outcome {
            Ok(_) => res == Ok::<PublishAction, String>(PublishAction::Promote),
            Err(text) => res matches Err(message) && message@
                == "backup existing managed runtime: "@ + text@,
        },
{
    match outcome {
        Ok(_) => Ok(PublishAction::Promote),
        Err(text) => Err(concat2("backup existing managed runtime: ", text.as_str())),
    }
}

/// The last action, after the attempt to promote the tree.
pub open spec fn last_publish_action(
    promoted: bool,
    backup_exists: bool,
    dest_exists: bool,
) -> PublishAction {
    if promoted {
        PublishAction::RemoveBackup
    } else if backup_exists && !dest_exists {
        PublishAction::RestoreBackup
    } else {
        PublishAction::Nothing
    }
}

/// The last action, after the attempt to promote the tree, and the result of the
/// publication. The two flags are looked up only where the attempt failed.
pub fn publish_after_promote(
    outcome: Result<(), String>,
    backup_exists: bool,
    dest_exists: bool,
) -> (res: (PublishAction, Result<(), String>))
    ensures
        res.0 == last_publish_action(outcome is Ok, backup_exists, dest_exists),
        match outcome {
            Ok(_) => res.1 is Ok,
            Err(text) => res.1 matches Err(message) && message@ == "publish managed runtime: "@
                + text@,
        },
{
    match outcome {
        Ok(_) => (PublishAction::RemoveBackup, Ok(())),
        Err(text) => {
            let action = if backup_exists && !dest_exists {
                PublishAction::RestoreBackup
            } else {
                PublishAction::Nothing
            };
            (action, Err(concat2("publish managed runtime: ", text.as_str())))
        },
    }
}

/// What stands under the published name, the staging name and the backup name.
pub ghost struct RuntimeSlots {
    pub dest: Option<int>,
    pub tree: Option<int>,
    pub backup: Option<int>,
}

/// The slots after an action; a rename that fails changes nothing.
pub open spec fn slots_after(
    slots: RuntimeSlots,
    action: PublishAction,
    succeeds: bool,
) -> RuntimeSlots {
    if !succeeds {
        slots
    } else {
        match action {
            PublishAction::BackUp => RuntimeSlots { backup: slots.dest, dest: None, ..slots },
            PublishAction::Promote => RuntimeSlots { dest: slots.tree, tree: None, ..slots },
            PublishAction::RemoveBackup => RuntimeSlots { backup: None, ..slots },
            PublishAction::RestoreBackup => RuntimeSlots { dest: slots.backup, backup: None, ..slots },
            PublishAction::Nothing => slots,
        }
    }
}

/// The slots after a whole publication, by which of its renames succeed.
pub open spec fn slots_published(
    slots: RuntimeSlots,
    backed_up: bool,
    promoted: bool,
    cleaned: bool,
) -> RuntimeSlots {
    let set_aside = if slots.dest is Some {
        slots_after(slots, PublishAction::BackUp, backed_up)
    } else {
        slots
    };
    if slots.dest is Some && !backed_up {
        set_aside
    } else {
        let moved = slots_after(set_aside, PublishAction::Promote, promoted);
        slots_after(
            moved,
            last_publish_action(promoted, moved.backup is Some, moved.dest is Some),
            cleaned,
        )
    }
}

/// Publication is atomic: where it succeeds the new tree stands under the published
/// name, and where a rename fails and the roll-back succeeds the old one still does.
pub proof fn law_publish_is_atomic(
    slots: RuntimeSlots,
    backed_up: bool,
    promoted: bool,
    cleaned: bool,
)
    requires
        slots.tree is Some,
        slots.backup is None,
    ensures
        promoted && (slots.dest is Some ==> backed_up) ==> slots_published(
            slots,
            backed_up,
            promoted,
            cleaned,
        ).dest == slots.tree,
        !promoted && cleaned || slots.dest is Some && !backed_up ==> slots_published(
            slots,
            backed_up,
            promoted,
            cleaned,
        ).dest == slots.dest,
        !promoted ==> slots_published(slots, backed_up, promoted, cleaned).tree == slots.tree,
{
}

/// What a publication that succeeds puts under the published name verifies, where the staged
/// tree did. `contents` tells what each directory holds.
pub proof fn law_published_tree_verifies(
    slots: RuntimeSlots,
    contents: Map<int, ManagedTree>,
    manifest: FfmpegRuntimeManifest,
    manifest_sha256: Seq<char>,
    backed_up: bool,
    cleaned: bool,
)
    requires
        slots.tree is Some,
        slots.backup is None,
        slots.dest is Some ==> backed_up,
        tree_failure(contents[slots.tree->0], manifest, manifest_sha256) is None,
    ensures
        slots_published(slots, backed_up, true, cleaned).dest matches Some(dest) && tree_failure(
            contents[dest],
            manifest,
            manifest_sha256,
        ) is None && tree_conforms(contents[dest], manifest, manifest_sha256),
{
    law_publish_is_atomic(slots, backed_up, true, cleaned);
    law_verified_iff_conforming(contents[slots.tree->0], manifest, manifest_sha256);
}

// ---------------------------------------------------------------------------
// Install from an archive
// ---------------------------------------------------------------------------

/// Where an install stands: what is due next.
#[derive(Debug, Clone, Copy, PartialEq, Eq, Structural)]
pub enum InstallPhase {
    /// Look at the cancel flag before anything is checked.
    LookFirst,
    Extracting,
    /// Write the provenance record, and read the staging tree back.
    Sealing,
    /// Look at the cancel flag before the tree is published.
    LookPublish,
    AskingToPublish,
    Publishing,
    Finished,
}

/// An install under way: what is due, the extraction, what verification reported of the staged
/// tree, where it is published, and how it failed.
#[derive(Debug, PartialEq, Eq)]
pub struct ArchiveInstall {
    pub phase: InstallPhase,
    pub extraction: ArchiveExtraction,
    pub info: Option<ManagedRuntimeInfo>,
    pub dest: String,
    pub failure: Option<String>,
}

/// What an install that went through reports.
pub open spec fn is_published_info(
    info: ManagedRuntimeInfo,
    dest: Seq<char>,
    manifest: FfmpegRuntimeManifest,
    manifest_sha256: Seq<char>,
) -> bool {
    &&& info.dir@ == dest
    &&& !is_verbatim(dest) ==> is_child_path(info.ffmpeg_exe@, dest, "ffmpeg.exe"@)
    &&& has_suffix(info.ffmpeg_exe@, "ffmpeg.exe"@)
    &&& info.release_tag@ == manifest.release_tag@
    &&& info.archive_sha256@ == ascii_lower(manifest.archive_sha256@)
    &&& info.manifest_sha256@ == ascii_lower(manifest_sha256)
}

/// Whether verification of a tree reported this.
pub open spec fn verified_with(
    tree: ManagedTree,
    manifest: FfmpegRuntimeManifest,
    manifest_sha256: Seq<char>,
    info: ManagedRuntimeInfo,
) -> bool {
    tree_failure(tree, manifest, manifest_sha256) is None && is_info_of(
        info,
        tree,
        manifest,
        manifest_sha256,
    )
}

/// What an install is told of the archive.
pub open spec fn archive_checks(archive: Seq<u8>, manifest: FfmpegRuntimeManifest) -> bool {
    archive.len() == manifest.archive_size && sha256_hex(archive) == ascii_lower(
        manifest.archive_sha256@,
    )
}

impl ArchiveInstall {
    /// What is known of an install that came this far: past the extraction everything is
    /// staged, and past the seal the staged tree verified.
    pub open spec fn wf(
        self,
        archive: Seq<u8>,
        local_app_data: Seq<char>,
        manifest: FfmpegRuntimeManifest,
        manifest_sha256: Seq<char>,
    ) -> bool {
        let staged = archive_checks(archive, manifest) && all_staged(
            archive,
            manifest,
            self.extraction@.staged,
        );
        let sealed = self.info is Some && exists|tree: ManagedTree| #[trigger]
            verified_with(tree, manifest, manifest_sha256, self.info->0);
        match self.phase {
            InstallPhase::LookFirst => self.failure is None,
            InstallPhase::Extracting => {
                &&& self.failure is None
                &&& archive_checks(archive, manifest)
                &&& self.extraction@.wf(archive, manifest)
                &&& self.extraction.phase !is Finished
            },
            InstallPhase::Sealing => self.failure is None && staged,
            InstallPhase::LookPublish | InstallPhase::AskingToPublish => self.failure is None
                && staged && sealed,
            InstallPhase::Publishing => self.failure is None && staged && sealed
                && is_managed_root(self.dest@, local_app_data),
            InstallPhase::Finished => self.failure is None ==> staged && self.info is Some
                && is_managed_root(self.dest@, local_app_data) && is_published_info(
                self.info->0,
                self.dest@,
                manifest,
                manifest_sha256,
            ),
        }
    }

    /// Whether an answer is one to what is due.
    pub open spec fn takes(self, answer: InstallAnswer) -> bool {
        match self.phase {
            InstallPhase::LookFirst | InstallPhase::LookPublish => answer is Flag,
            InstallPhase::Extracting => self.extraction@.takes(answer),
            InstallPhase::Sealing => answer is Tree,
            InstallPhase::AskingToPublish | InstallPhase::Publishing => answer is Came,
            InstallPhase::Finished => false,
        }
    }

    /// Whether an install ended with this error.
    pub open spec fn failed_with(self, text: Seq<char>) -> bool {
        self.phase is Finished && (self.failure matches Some(failure) && failure@ == text)
    }

    /// Whether an install goes on with a phase.
    pub open spec fn goes_on(self, phase: InstallPhase) -> bool {
        self.phase == phase && self.failure is None
    }
}

/// Whether a path is where the managed runtime is published.
pub open spec fn is_managed_root(dest: Seq<char>, local_app_data: Seq<char>) -> bool {
    &&& !is_verbatim(local_app_data) ==> is_grandchild_path(
        dest,
        local_app_data,
        "Clipline"@,
        "ffmpeg"@,
    )
    &&& has_suffix(dest, "ffmpeg"@)
}

/// What an answer does to an install. A cancel request that is seen ends it there, and so does
/// the first thing that fails. Nothing is published that did not verify when it was read back,
/// nor without leave.
pub open spec fn install_step(
    archive: Seq<u8>,
    local_app_data: Seq<char>,
    manifest: FfmpegRuntimeManifest,
    manifest_sha256: Seq<char>,
    before: ArchiveInstall,
    answer: InstallAnswer,
    after: ArchiveInstall,
) -> bool {
    match (before.phase, answer) {
        (InstallPhase::LookFirst, InstallAnswer::Flag(set)) => if set {
            after.failed_with(install_cancelled_text())
        } else if archive.len() != manifest.archive_size {
            after.failed_with(
                size_text(
                    "FFmpeg archive size mismatch: expected "@,
                    manifest.archive_size,
                    archive.len() as u64,
                ),
            )
        } else if sha256_hex(archive) != ascii_lower(manifest.archive_sha256@) {
            after.failed_with(
                archive_digest_text(ascii_lower(manifest.archive_sha256@), sha256_hex(archive)),
            )
        } else {
            after.goes_on(InstallPhase::Extracting) && after.extraction@ == ExtractModel::begun()
        },
        (InstallPhase::Extracting, answer) => {
            &&& extract_step(
                archive,
                manifest,
                before.extraction@,
                answer,
                after.extraction@,
            )
            &&& if after.extraction.phase !is Finished {
                after.goes_on(InstallPhase::Extracting)
            } else {
                match after.extraction.failure {
                    Some(text) => after.failed_with(text@),
                    None => after.goes_on(InstallPhase::Sealing),
                }
            }
        },
        (InstallPhase::Sealing, InstallAnswer::Tree(Err(error))) => after.failed_with(error@),
        (InstallPhase::Sealing, InstallAnswer::Tree(Ok(tree))) => {
            &&& after.extraction == before.extraction
            &&& match tree_failure(tree, manifest, manifest_sha256) {
                Some(failure) => after.failed_with(failure_text(failure)),
                None => {
                    &&& after.goes_on(InstallPhase::LookPublish)
                    &&& after.info is Some
                    &&& verified_with(tree, manifest, manifest_sha256, after.info->0)
                },
            }
        },
        (InstallPhase::LookPublish, InstallAnswer::Flag(set)) => if set {
            after.failed_with(install_cancelled_text())
        } else {
            &&& after.goes_on(InstallPhase::AskingToPublish)
            &&& after.extraction == before.extraction
            &&& after.info == before.info
        },
        (InstallPhase::AskingToPublish, InstallAnswer::Came(Err(error))) => after.failed_with(
            error@,
        ),
        (InstallPhase::AskingToPublish, InstallAnswer::Came(Ok(_))) => {
            &&& after.goes_on(InstallPhase::Publishing)
            &&& after.extraction == before.extraction
            &&& after.info == before.info
            &&& is_managed_root(after.dest@, local_app_data)
        },
        (InstallPhase::Publishing, InstallAnswer::Came(Err(error))) => after.failed_with(error@),
        (InstallPhase::Publishing, InstallAnswer::Came(Ok(_))) => {
            &&& after.goes_on(InstallPhase::Finished)
            &&& after.extraction == before.extraction
            &&& after.dest == before.dest
            &&& after.info is Some
            &&& is_published_info(after.info->0, before.dest@, manifest, manifest_sha256)
        },
        _ => after == before,
    }
}

/// What an install asks for.
pub open spec fn is_install_action(
    install: ArchiveInstall,
    manifest: FfmpegRuntimeManifest,
    manifest_sha256: Seq<char>,
    action: InstallAction,
) -> bool {
    match install.phase {
        InstallPhase::LookFirst | InstallPhase::LookPublish => action is Look,
        InstallPhase::Extracting => is_extract_action(install.extraction@, manifest, action),
        InstallPhase::Sealing => action matches InstallAction::Seal { provenance }
            && is_provenance_of(provenance, manifest, manifest_sha256, install.extraction@.staged),
        InstallPhase::AskingToPublish => action is AskToPublish,
        InstallPhase::Publishing => action matches InstallAction::Publish { dest } && dest@
            == install.dest@,
        InstallPhase::Finished => action is Stop,
    }
}

/// Begins an install from an archive: its size and digest are checked first, then every
/// allowlisted file is staged, the staged tree is read back and verified, and published.
pub fn install_managed_runtime_from_archive() -> (install: ArchiveInstall)
    ensures
        install.phase is LookFirst,
        install.failure is None,
        forall|archive: Seq<u8>, local: Seq<char>, manifest: FfmpegRuntimeManifest, sha: Seq<char>|
            #[trigger]
            install.wf(archive, local, manifest, sha),
{
    ArchiveInstall {
        phase: InstallPhase::LookFirst,
        extraction: extract_allowlisted_ffmpeg_archive(),
        info: None,
        dest: String::new(),
        failure: None,
    }
}

impl ArchiveInstall {
    fn fail(&mut self, text: String)
        ensures
            final(self).failed_with(text@),
            final(self).extraction == old(self).extraction,
    {
        self.failure = Some(text);
        self.phase = InstallPhase::Finished;
    }

    /// What is due.
    pub fn due(
        &self,
        archive: &[u8],
        local_app_data: &str,
        manifest: &FfmpegRuntimeManifest,
        manifest_sha256: &str,
    ) -> (action: InstallAction)
        requires
            self.wf(archive@, local_app_data@, *manifest, manifest_sha256@),
        ensures
            is_install_action(*self, *manifest, manifest_sha256@, action),
    {
        match self.phase {
            InstallPhase::LookFirst => InstallAction::Look,
            InstallPhase::LookPublish => InstallAction::Look,
            InstallPhase::Extracting => self.extraction.due(archive, manifest),
            InstallPhase::Sealing => InstallAction::Seal {
                provenance: write_managed_provenance(
                    manifest,
                    manifest_sha256,
                    &self.extraction.staged,
                ),
            },
            InstallPhase::AskingToPublish => InstallAction::AskToPublish,
            InstallPhase::Publishing => InstallAction::Publish { dest: self.dest.clone() },
            InstallPhase::Finished => InstallAction::Stop,
        }
    }

    /// Takes the answer to what was due.
    pub fn answered(
        &mut self,
        archive: &[u8],
        local_app_data: &str,
        manifest: &FfmpegRuntimeManifest,
        manifest_sha256: &str,
        answer: InstallAnswer,
    )
        requires
            old(self).wf(archive@, local_app_data@, *manifest, manifest_sha256@),
            old(self).takes(answer),
        ensures
            final(self).wf(archive@, local_app_data@, *manifest, manifest_sha256@),
            install_step(
                archive@,
                local_app_data@,
                *manifest,
                manifest_sha256@,
                *old(self),
                answer,
                *final(self),
            ),
    {
        match self.phase {
            InstallPhase::LookFirst => {
                if let InstallAnswer::Flag(set) = answer {
                    if set {
                        self.fail("ffmpeg install cancelled".to_owned());
                        return;
                    }
                }
                if let Err(message) = assert_archive_size(
                    archive.len() as u64,
                    manifest.archive_size,
                ) {
                    self.fail(message);
                    return;
                }
                if let Err(message) = verify_archive_sha256(
                    archive,
                    manifest.archive_sha256.as_str(),
                ) {
                    self.fail(message);
                    return;
                }
                self.extraction = extract_allowlisted_ffmpeg_archive();
                self.phase = InstallPhase::Extracting;
            },
            InstallPhase::Extracting => {
                self.extraction.answered(archive, manifest, answer);
                match self.extraction.phase {
                    ExtractPhase::Finished => {
                        match &self.extraction.failure {
                            Some(text) => {
                                let text = text.clone();
                                self.fail(text);
                            },
                            None => {
                                self.phase = InstallPhase::Sealing;
                            },
                        }
                    },
                    _ => {},
                }
            },
            InstallPhase::Sealing => {
                match answer {
                    InstallAnswer::Tree(Ok(tree)) => {
                        match verify_managed_ffmpeg_runtime(&tree, manifest, manifest_sha256) {
                            Ok(info) => {
                                self.info = Some(info);
                                assert(verified_with(
                                    tree,
                                    *manifest,
                                    manifest_sha256@,
                                    self.info->0,
                                ));
                                self.phase = InstallPhase::LookPublish;
                            },
                            Err(error) => {
                                let message = error.message();
                                self.fail(message);
                            },
                        }
                    },
                    InstallAnswer::Tree(Err(error)) => self.fail(error),
                    _ => {},
                }
            },
            InstallPhase::LookPublish => {
                if let InstallAnswer::Flag(set) = answer {
                    if set {
                        self.fail("ffmpeg install cancelled".to_owned());
                    } else {
                        self.phase = InstallPhase::AskingToPublish;
                    }
                }
            },
            InstallPhase::AskingToPublish => {
                match answer {
                    InstallAnswer::Came(Ok(_)) => {
                        self.dest = managed_root(local_app_data);
                        self.phase = InstallPhase::Publishing;
                    },
                    InstallAnswer::Came(Err(error)) => self.fail(error),
                    _ => {},
                }
            },
            InstallPhase::Publishing => {
                match answer {
                    InstallAnswer::Came(Ok(_)) => {
                        proof {
                            reveal_strlit("ffmpeg.exe");
                            reveal_strlit(".");
                            reveal_strlit("..");
                        }
                        let exe = join_path(self.dest.as_str(), "ffmpeg.exe");
                        if let Some(verified) = &self.info {
                            let info = ManagedRuntimeInfo {
                                dir: self.dest.clone(),
                                ffmpeg_exe: exe,
                                release_tag: verified.release_tag.clone(),
                                archive_sha256: verified.archive_sha256.clone(),
                                manifest_sha256: verified.manifest_sha256.clone(),
                            };
                            self.info = Some(info);
                        }
                        self.phase = InstallPhase::Finished;
                    },
                    InstallAnswer::Came(Err(error)) => self.fail(error),
                    _ => {},
                }
            },
            InstallPhase::Finished => {},
        }
    }

    /// What came of it.
    pub fn result(self) -> (res: Result<ManagedRuntimeInfo, String>)
        requires
            self.phase is Finished,
            self.failure is None ==> self.info is Some,
        ensures
            match self.failure {
                None => res == Ok::<ManagedRuntimeInfo, String>(self.info->0),
                Some(error) => res == Err::<ManagedRuntimeInfo, String>(error),
            },
    {
        match self.failure {
            None => Ok(self.info.unwrap()),
            Some(error) => Err(error),
        }
    }
}

/// What an install reports is what verification reports of the published directory.
pub proof fn law_install_reports_the_verification(
    info: ManagedRuntimeInfo,
    tree: ManagedTree,
    manifest: FfmpegRuntimeManifest,
    manifest_sha256: Seq<char>,
)
    requires
        is_published_info(info, tree.path@, manifest, manifest_sha256),
        tree_failure(tree, manifest, manifest_sha256) is None,
    ensures
        verified_with(tree, manifest, manifest_sha256, info),
{
}

/// A cancel request that is seen, at whatever look, ends an install, and the error says so:
/// nothing is published after it.
pub proof fn law_cancel_ends_an_install(
    archive: Seq<u8>,
    local_app_data: Seq<char>,
    manifest: FfmpegRuntimeManifest,
    manifest_sha256: Seq<char>,
    before: ArchiveInstall,
    after: ArchiveInstall,
)
    requires
        before.takes(InstallAnswer::Flag(true)),
        install_step(
            archive,
            local_app_data,
            manifest,
            manifest_sha256,
            before,
            InstallAnswer::Flag(true),
            after,
        ),
    ensures
        after.phase is Finished,
        after.failure is Some,
        after.failure->0@ == install_cancelled_text() || (before.phase is Extracting
            && after.failure->0@ == copy_cancelled_text(before.extraction@.file(manifest))),
{
    if before.phase is Extracting {
        law_cancel_ends_an_extraction(archive, manifest, before.extraction@, after.extraction@);
    }
}

/// A tree is published only with leave, which is asked for only where the last look saw no
/// cancel request, after the staged tree was read back and verified. An answer that fails ends
/// the install with its error, and nothing is published after that.
pub proof fn law_publishing_needs_all_before(
    archive: Seq<u8>,
    local_app_data: Seq<char>,
    manifest: FfmpegRuntimeManifest,
    manifest_sha256: Seq<char>,
    before: ArchiveInstall,
    answer: InstallAnswer,
    after: ArchiveInstall,
)
    requires
        before.wf(archive, local_app_data, manifest, manifest_sha256),
        before.takes(answer),
        install_step(
            archive,
            local_app_data,
            manifest,
            manifest_sha256,
            before,
            answer,
            after,
        ),
    ensures
        after.phase is Publishing ==> before.phase is AskingToPublish && (answer
            matches InstallAnswer::Came(Ok(_))) && is_managed_root(after.dest@, local_app_data),
        after.phase is AskingToPublish ==> before.phase is LookPublish && answer
            == InstallAnswer::Flag(false) && before.info is Some,
        after.phase is LookPublish ==> before.phase is Sealing && (answer
            matches InstallAnswer::Tree(Ok(tree)) && tree_failure(tree, manifest, manifest_sha256)
            is None),
        after.phase is Sealing ==> archive_checks(archive, manifest) && all_staged(
            archive,
            manifest,
            after.extraction@.staged,
        ),
        before.phase !is Extracting && (answer matches InstallAnswer::Came(Err(error)))
            ==> after.failed_with(answer->Came_0->Err_0@),
{
}

// ---------------------------------------------------------------------------
// Snapshots
// ---------------------------------------------------------------------------

/// The runtime status by the manifest that ships with the application.
pub fn runtime_status_for_dirs(
    managed: Option<&ManagedTree>,
    locate_path: Option<&str>,
    json: &str,
    parsed: Result<FfmpegRuntimeManifest, String>,
) -> (res: Result<FfmpegRuntimeStatus, String>)
    ensures
        match committed_problem(parsed) {
            Some(failure) => res matches Err(message) && message@ == failure_text(failure),
            None => res matches Ok(status) && is_status_of(
                status,
                managed,
                parsed->Ok_0,
                sha256_hex(json.spec_bytes()),
                opt_str_view(locate_path),
            ),
        },
{
    match committed_manifest(json, parsed) {
        Err(error) => Err(error.message()),
        Ok((manifest, manifest_sha256)) => Ok(
            ffmpeg_runtime_status(managed, &manifest, manifest_sha256.as_str(), locate_path),
        ),
    }
}

/// What is wrong with the manifest that ships with the application, if anything.
pub open spec fn committed_problem(parsed: Result<FfmpegRuntimeManifest, String>) -> Option<
    VerifyFailure,
> {
    match parsed {
        Err(message) => Some(VerifyFailure::InvalidManifest { message: message@ }),
        Ok(manifest) => match manifest_problem(manifest) {
            Some(problem) => Some(VerifyFailure::InvalidManifest { message: problem }),
            None => None,
        },
    }
}

/// The status of a managed tree and a located binary.
pub open spec fn is_status_of(
    status: FfmpegRuntimeStatus,
    managed: Option<&ManagedTree>,
    manifest: FfmpegRuntimeManifest,
    manifest_sha256: Seq<char>,
    located: Option<Seq<char>>,
) -> bool {
    &&& status.kind == discovery_kind(
        managed_verifies(managed, manifest, manifest_sha256),
        located is Some,
    )
    &&& opt_view(status.locate_path) == located
    &&& if managed_verifies(managed, manifest, manifest_sha256) {
        status.managed is Some && is_info_of(
            status.managed->0,
            *managed->0,
            manifest,
            manifest_sha256,
        )
    } else {
        status.managed is None
    }
}

/// The status says what verification says: a managed runtime is reported exactly where there
/// is a tree that conforms to the manifest, and with what verification reports of it.
pub proof fn law_status_is_the_verification(
    status: FfmpegRuntimeStatus,
    managed: Option<&ManagedTree>,
    manifest: FfmpegRuntimeManifest,
    manifest_sha256: Seq<char>,
    located: Option<Seq<char>>,
)
    requires
        is_status_of(status, managed, manifest, manifest_sha256, located),
    ensures
        status.managed is Some <==> (managed is Some && tree_conforms(
            *managed->0,
            manifest,
            manifest_sha256,
        )),
        status.managed is Some ==> is_info_of(
            status.managed->0,
            *managed->0,
            manifest,
            manifest_sha256,
        ),
        status.kind == FfmpegDiscoveryKind::ManagedVerified <==> status.managed is Some,
{
    if managed is Some {
        law_verified_iff_conforming(*managed->0, manifest, manifest_sha256);
    }
}

/// The snapshot of a state and a runtime status.
pub open spec fn snapshot_of(
    state: FfmpegInstallState,
    status: FfmpegRuntimeStatus,
) -> FfmpegInstallSnapshot {
    FfmpegInstallSnapshot {
        state,
        discovery: status.kind,
        managed: match status.managed {
            Some(info) => Some(info_dto(info)),
            None => None,
        },
        locate_path: status.locate_path,
    }
}

pub fn build_install_snapshot(state: FfmpegInstallState, status: &FfmpegRuntimeStatus) -> (snapshot:
    FfmpegInstallSnapshot)
    ensures
        snapshot == snapshot_of(state, *status),
{
    FfmpegInstallSnapshot {
        state,
        discovery: status.kind,
        managed: match &status.managed {
            Some(info) => Some(ManagedRuntimeInfoDto::from_info(info)),
            None => None,
        },
        locate_path: clone_opt(&status.locate_path),
    }
}

/// A progress notification, which says nothing of what is installed.
pub open spec fn progress_snapshot(state: FfmpegInstallState) -> FfmpegInstallSnapshot {
    FfmpegInstallSnapshot {
        state,
        discovery: FfmpegDiscoveryKind::Missing,
        managed: None,
        locate_path: None,
    }
}

pub fn install_progress_snapshot(state: FfmpegInstallState) -> (snapshot: FfmpegInstallSnapshot)
    ensures
        snapshot == progress_snapshot(state),
{
    FfmpegInstallSnapshot {
        state,
        discovery: FfmpegDiscoveryKind::Missing,
        managed: None,
        locate_path: None,
    }
}

/// The status of a runtime that is known to be managed: its own binary is the located one.
pub open spec fn managed_status(info: ManagedRuntimeInfo) -> FfmpegRuntimeStatus {
    FfmpegRuntimeStatus {
        kind: FfmpegDiscoveryKind::ManagedVerified,
        locate_path: Some(info.ffmpeg_exe),
        managed: Some(info),
    }
}

fn status_of_managed(info: ManagedRuntimeInfo) -> (status: FfmpegRuntimeStatus)
    ensures
        status == managed_status(info),
{
    FfmpegRuntimeStatus {
        kind: FfmpegDiscoveryKind::ManagedVerified,
        locate_path: Some(info.ffmpeg_exe.clone()),
        managed: Some(info),
    }
}

/// The snapshot for a state: a managed tree that verifies is reported with its own
/// binary, and only where there is none is the located binary considered.
pub fn status_snapshot_for_state(
    state: FfmpegInstallState,
    managed: Option<&ManagedTree>,
    manifest: &FfmpegRuntimeManifest,
    manifest_sha256: &str,
    locate_path: Option<&str>,
) -> (snapshot: FfmpegInstallSnapshot)
    ensures
        snapshot.state == state,
        if managed_verifies(managed, *manifest, manifest_sha256@) {
            exists|info: ManagedRuntimeInfo| #[trigger]
                is_info_of(info, *managed->0, *manifest, manifest_sha256@) && snapshot
                    == snapshot_of(state, managed_status(info))
        } else {
            &&& snapshot.discovery == discovery_kind(false, locate_path is Some)
            &&& snapshot.managed is None
            &&& opt_view(snapshot.locate_path) == opt_str_view(locate_path)
        },
{
    if let Some(tree) = managed {
        if let Ok(info) = verify_managed_ffmpeg_runtime(tree, manifest, manifest_sha256) {
            let ghost kept = info;
            let status = status_of_managed(info);
            assert(is_info_of(kept, *managed->0, *manifest, manifest_sha256@));
            return build_install_snapshot(state, &status);
        }
    }
    let status = ffmpeg_runtime_status(None, manifest, manifest_sha256, locate_path);
    build_install_snapshot(state, &status)
}

/// What a cancel request reports: a progress notification of the state as it is.
pub fn cancel_ffmpeg_runtime_install(controller: &mut FfmpegInstallController) -> (snapshot:
    FfmpegInstallSnapshot)
    ensures
        *final(controller) == after_cancel(*old(controller)),
        snapshot == progress_snapshot(old(controller).state),
{
    install_progress_snapshot(controller.request_cancel())
}

// ---------------------------------------------------------------------------
// The install job
// ---------------------------------------------------------------------------

/// How a request to install the runtime starts.
#[derive(Debug, PartialEq, Eq)]
pub enum EnsureStart {
    /// The managed runtime is there; the snapshot says so.
    AlreadyReady(FfmpegInstallSnapshot),
    /// Another job is under way; its state is reported.
    Coalesced,
    /// This caller runs the job.
    Run,
}

/// Starts an install by the status found on disk: a verified runtime needs none, and
/// two requests never run two jobs.
pub fn ensure_start(controller: &mut FfmpegInstallController, status: FfmpegInstallSnapshot) -> (res:
    Result<EnsureStart, String>)
    ensures
        if status.discovery == FfmpegDiscoveryKind::ManagedVerified {
            &&& *final(controller) == after_end(*old(controller), FfmpegInstallState::Ready)
            &&& res == Ok::<EnsureStart, String>(
                EnsureStart::AlreadyReady(
                    FfmpegInstallSnapshot { state: FfmpegInstallState::Ready, ..status },
                ),
            )
        } else {
            &&& *final(controller) == after_begin(*old(controller))
            &&& match res {
                Ok(start) => !old(controller).poisoned && start == if can_begin(*old(controller)) {
                    EnsureStart::Run
                } else {
                    EnsureStart::Coalesced
                },
                Err(message) => old(controller).poisoned && message@ == poisoned_text(),
            }
        },
{
    if matches!(status.discovery, FfmpegDiscoveryKind::ManagedVerified) {
        controller.end_job(FfmpegInstallState::Ready);
        let mut ready = status;
        ready.state = FfmpegInstallState::Ready;
        return Ok(EnsureStart::AlreadyReady(ready));
    }
    match controller.try_begin_job() {
        Ok(true) => Ok(EnsureStart::Run),
        Ok(false) => Ok(EnsureStart::Coalesced),
        Err(message) => Err(message),
    }
}

/// Whether an archive that was fetched earlier can stand in for a download.
pub fn release_input_usable(is_file: bool, archive: &[u8], manifest: &FfmpegRuntimeManifest) -> (r:
    bool)
    ensures
        r == (is_file && archive@.len() == manifest.archive_size && sha256_hex(archive@)
            == ascii_lower(manifest.archive_sha256@)),
{
    is_file && assert_archive_size(archive.len() as u64, manifest.archive_size).is_ok()
        && verify_archive_sha256(archive, manifest.archive_sha256.as_str()).is_ok()
}

/// Where the job stands: the work whose outcome it waits for.
#[derive(Debug, PartialEq, Eq)]
pub enum EnsurePhase {
    CreatingStaging,
    Sweeping,
    RecreatingStaging,
    MeasuringSpace,
    InspectingReleaseInput,
    Downloading,
    SweepingAfterCancel,
    Installing,
    SweepingAfterInstall { outcome: Result<ManagedRuntimeInfo, String> },
    Finished { outcome: Result<ManagedRuntimeInfo, String> },
}

/// Work that the job asks for.
#[derive(Debug, Clone, Copy, PartialEq, Eq, Structural)]
pub enum EnsureAction {
    /// Create the download directory below the staging directory.
    CreateDownloadDir,
    /// Remove abandoned staging artifacts; whether that succeeds does not matter.
    SweepStaging,
    ReadFreeSpace,
    InspectReleaseInput,
    /// Report that the download starts, then download.
    Download,
    /// Report that verification starts, then install from the chosen archive.
    Install,
    /// The job is over.
    Report,
}

/// Outcome of the work that the job asked for.
#[derive(Debug, PartialEq, Eq)]
pub enum EnsureEvent {
    Done(Result<(), String>),
    FreeSpace(Result<u64, String>),
    ReleaseInput { usable: bool },
    Installed(Result<ManagedRuntimeInfo, String>),
}

/// The text for too little free space.
pub open spec fn space_text(required: u64, free: u64) -> Seq<char> {
    "not enough free disk space for FFmpeg runtime (need "@ + decimal(required as nat)
        + " bytes, have "@ + decimal(free as nat) + ")"@
}

fn failed(message: String) -> (next: (EnsurePhase, EnsureAction))
    ensures
        next.0 == (EnsurePhase::Finished { outcome: Err(message) }),
        next.1 == EnsureAction::Report,
{
    (EnsurePhase::Finished { outcome: Err(message) }, EnsureAction::Report)
}

/// The job ended with this text.
pub open spec fn failed_with(next: (EnsurePhase, EnsureAction), text: Seq<char>) -> bool {
    &&& next.1 == EnsureAction::Report
    &&& next.0 matches EnsurePhase::Finished { outcome: Err(message) }
    &&& message@ == text
}

/// What follows the outcome of the work in each phase. An outcome that does not belong
/// to the phase leaves the job where it is.
pub open spec fn is_ensure_step(
    phase: EnsurePhase,
    event: EnsureEvent,
    cancelled: bool,
    required: u64,
    next: (EnsurePhase, EnsureAction),
) -> bool {
    match (phase, event) {
        (EnsurePhase::CreatingStaging, EnsureEvent::Done(Ok(_))) => next == (
            EnsurePhase::Sweeping,
            EnsureAction::SweepStaging,
        ),
        (EnsurePhase::CreatingStaging, EnsureEvent::Done(Err(text))) => failed_with(
            next,
            "create ffmpeg staging: "@ + text@,
        ),
        (EnsurePhase::Sweeping, EnsureEvent::Done(_)) => next == (
            EnsurePhase::RecreatingStaging,
            EnsureAction::CreateDownloadDir,
        ),
        (EnsurePhase::RecreatingStaging, EnsureEvent::Done(Ok(_))) => if cancelled {
            failed_with(next, install_cancelled_text())
        } else {
            next == (EnsurePhase::MeasuringSpace, EnsureAction::ReadFreeSpace)
        },
        (EnsurePhase::RecreatingStaging, EnsureEvent::Done(Err(text))) => failed_with(
            next,
            "recreate ffmpeg staging download: "@ + text@,
        ),
        (EnsurePhase::MeasuringSpace, EnsureEvent::FreeSpace(Ok(free))) => if free < required {
            failed_with(next, space_text(required, free))
        } else {
            next == (EnsurePhase::InspectingReleaseInput, EnsureAction::InspectReleaseInput)
        },
        (EnsurePhase::MeasuringSpace, EnsureEvent::FreeSpace(Err(text))) => failed_with(
            next,
            text@,
        ),
        (EnsurePhase::InspectingReleaseInput, EnsureEvent::ReleaseInput { usable }) => if !usable {
            next == (EnsurePhase::Downloading, EnsureAction::Download)
        } else if cancelled {
            next == (EnsurePhase::SweepingAfterCancel, EnsureAction::SweepStaging)
        } else {
            next == (EnsurePhase::Installing, EnsureAction::Install)
        },
        (EnsurePhase::Downloading, EnsureEvent::Done(Ok(_))) => if cancelled {
            next == (EnsurePhase::SweepingAfterCancel, EnsureAction::SweepStaging)
        } else {
            next == (EnsurePhase::Installing, EnsureAction::Install)
        },
        (EnsurePhase::Downloading, EnsureEvent::Done(Err(text))) => failed_with(next, text@),
        (EnsurePhase::SweepingAfterCancel, EnsureEvent::Done(_)) => failed_with(
            next,
            abort_text(DownloadAbortReason::Cancelled),
        ),
        (EnsurePhase::Installing, EnsureEvent::Installed(outcome)) => next == (
            EnsurePhase::SweepingAfterInstall { outcome },
            EnsureAction::SweepStaging,
        ),
        (EnsurePhase::SweepingAfterInstall { outcome }, EnsureEvent::Done(_)) => next == (
            EnsurePhase::Finished { outcome },
            EnsureAction::Report,
        ),
        (phase, _) => next == (phase, EnsureAction::Report),
    }
}

/// The job's first piece of work.
pub fn ensure_job() -> (first: (EnsurePhase, EnsureAction))
    ensures
        first == (EnsurePhase::CreatingStaging, EnsureAction::CreateDownloadDir),
{
    (EnsurePhase::CreatingStaging, EnsureAction::CreateDownloadDir)
}

/// The next piece of work of the job. `cancelled` is the cancel flag at the time of the
/// outcome, `required` the free space that the install needs.
pub fn ensure_next(phase: EnsurePhase, event: EnsureEvent, cancelled: bool, required: u64) -> (next:
    (EnsurePhase, EnsureAction))
    ensures
        is_ensure_step(phase, event, cancelled, required, next),
{
    match (phase, event) {
        (EnsurePhase::CreatingStaging, EnsureEvent::Done(Ok(_))) => (
            EnsurePhase::Sweeping,
            EnsureAction::SweepStaging,
        ),
        (EnsurePhase::CreatingStaging, EnsureEvent::Done(Err(text))) => failed(
            concat2("create ffmpeg staging: ", text.as_str()),
        ),
        (EnsurePhase::Sweeping, EnsureEvent::Done(_)) => (
            EnsurePhase::RecreatingStaging,
            EnsureAction::CreateDownloadDir,
        ),
        (EnsurePhase::RecreatingStaging, EnsureEvent::Done(Ok(_))) => {
            if cancelled {
                failed("ffmpeg install cancelled".to_owned())
            } else {
                (EnsurePhase::MeasuringSpace, EnsureAction::ReadFreeSpace)
            }
        },
        (EnsurePhase::RecreatingStaging, EnsureEvent::Done(Err(text))) => failed(
            concat2("recreate ffmpeg staging download: ", text.as_str()),
        ),
        (EnsurePhase::MeasuringSpace, EnsureEvent::FreeSpace(Ok(free))) => {
            if !has_sufficient_free_space(free, required) {
                let need = decimal_string(required);
                let have = decimal_string(free);
                let mut message = concat3(
                    "not enough free disk space for FFmpeg runtime (need ",
                    need.as_str(),
                    " bytes, have ",
                );
                message.append(have.as_str());
                message.append(")");
                failed(message)
            } else {
                (EnsurePhase::InspectingReleaseInput, EnsureAction::InspectReleaseInput)
            }
        },
        (EnsurePhase::MeasuringSpace, EnsureEvent::FreeSpace(Err(text))) => failed(text),
        (EnsurePhase::InspectingReleaseInput, EnsureEvent::ReleaseInput { usable }) => {
            if !usable {
                (EnsurePhase::Downloading, EnsureAction::Download)
            } else if cancelled {
                (EnsurePhase::SweepingAfterCancel, EnsureAction::SweepStaging)
            } else {
                (EnsurePhase::Installing, EnsureAction::Install)
            }
        },
        (EnsurePhase::Downloading, EnsureEvent::Done(Ok(_))) => {
            if cancelled {
                (EnsurePhase::SweepingAfterCancel, EnsureAction::SweepStaging)
            } else {
                (EnsurePhase::Installing, EnsureAction::Install)
            }
        },
        (EnsurePhase::Downloading, EnsureEvent::Done(Err(text))) => failed(text),
        (EnsurePhase::SweepingAfterCancel, EnsureEvent::Done(_)) => failed(
            abort_message(DownloadAbortReason::Cancelled),
        ),
        (EnsurePhase::Installing, EnsureEvent::Installed(outcome)) => (
            EnsurePhase::SweepingAfterInstall { outcome },
            EnsureAction::SweepStaging,
        ),
        (EnsurePhase::SweepingAfterInstall { outcome }, EnsureEvent::Done(_)) => (
            EnsurePhase::Finished { outcome },
            EnsureAction::Report,
        ),
        (phase, _) => (phase, EnsureAction::Report),
    }
}

/// The job downloads or installs nothing before it found the free space that the
/// install needs, and starts no install once a cancel request was seen.
pub proof fn law_job_guards(
    phase: EnsurePhase,
    event: EnsureEvent,
    cancelled: bool,
    required: u64,
    next: (EnsurePhase, EnsureAction),
)
    requires
        is_ensure_step(phase, event, cancelled, required, next),
    ensures
        next.1 == EnsureAction::InspectReleaseInput ==> (event matches EnsureEvent::FreeSpace(
            Ok(free),
        ) && free >= required),
        next.1 == EnsureAction::Download ==> phase is InspectingReleaseInput,
        next.1 == EnsureAction::Install ==> !cancelled && (phase is InspectingReleaseInput || phase
            is Downloading),
        next.0 is InspectingReleaseInput && !(phase is InspectingReleaseInput) ==> phase
            is MeasuringSpace,
{
}

/// How a finished job is reported: the snapshot of a runtime that is ready, or the text
/// of the failure.
pub fn ensure_finish(
    controller: &mut FfmpegInstallController,
    outcome: Result<ManagedRuntimeInfo, String>,
) -> (res: Result<FfmpegInstallSnapshot, String>)
    ensures
        match outcome {
            Ok(info) => {
                &&& *final(controller) == after_end(*old(controller), FfmpegInstallState::Ready)
                &&& res == Ok::<FfmpegInstallSnapshot, String>(
                    snapshot_of(FfmpegInstallState::Ready, managed_status(info)),
                )
            },
            Err(message) => {
                &&& res == Err::<FfmpegInstallSnapshot, String>(message)
                &&& *final(controller) == after_end(
                    *old(controller),
                    if old(controller).cancel || has_substring(message@, "cancelled"@) {
                        FfmpegInstallState::Cancelled
                    } else {
                        FfmpegInstallState::Failed { message }
                    },
                )
            },
        },
{
    match outcome {
        Ok(info) => {
            controller.end_job(FfmpegInstallState::Ready);
            let status = status_of_managed(info);
            Ok(build_install_snapshot(FfmpegInstallState::Ready, &status))
        },
        Err(message) => {
            if controller.is_cancelled() || contains(message.as_str(), "cancelled") {
                controller.end_job(FfmpegInstallState::Cancelled);
            } else {
                controller.end_job(FfmpegInstallState::Failed { message: message.clone() });
            }
            Err(message)
        },
    }
}

// ---------------------------------------------------------------------------
// Laws of the single decisions
// ---------------------------------------------------------------------------

/// An install is begun exactly where none is under way; it can be cancelled until it publishes,
/// and publishes exactly where it was not.
pub proof fn law_one_install_at_a_time(c: FfmpegInstallController, state: FfmpegInstallState)
    ensures
        is_busy(state) <==> !(state is Idle || state is Ready || state is Failed
            || state is Cancelled),
        can_begin(c) <==> !c.job_active && (c.state is Idle || c.state is Ready || c.state is Failed
            || c.state is Cancelled),
        !c.poisoned && can_begin(c) ==> after_begin(c) == (FfmpegInstallController {
            state: FfmpegInstallState::Checking,
            job_active: true,
            cancel: false,
            poisoned: false,
        }),
        c.poisoned || !can_begin(c) ==> after_begin(c) == c,
        after_cancel(c).cancel <==> c.cancel || (c.job_active && !(c.state is Publishing)),
        after_cancel(c).state == c.state && after_cancel(c).job_active == c.job_active
            && after_cancel(c).poisoned == c.poisoned,
        can_publish(c) <==> c.job_active && !c.cancel,
        !c.poisoned && c.job_active && !c.cancel ==> after_publishing(c).state is Publishing,
        c.poisoned || !c.job_active || c.cancel ==> after_publishing(c) == c,
        after_publishing(c).job_active == c.job_active && after_publishing(c).cancel == c.cancel,
        !c.poisoned ==> after_end(c, state).state == state && !after_end(c, state).job_active
            && after_end(c, state).cancel == c.cancel,
        c.poisoned ==> after_end(c, state) == c,
        poisoned_text() == "ffmpeg install state lock poisoned"@,
{
}

/// A download ends early where it was cancelled, and else where more came than the archive has; a
/// chunk is written exactly where neither holds with it.
pub proof fn law_downloads_end_early(
    written: u64,
    chunk_len: nat,
    archive_size: u64,
    cancelled: bool,
)
    ensures
        cancelled ==> abort_reason(written, archive_size, cancelled) == Some(
            DownloadAbortReason::Cancelled,
        ),
        !cancelled && written > archive_size ==> abort_reason(written, archive_size, cancelled)
            == Some(DownloadAbortReason::Overflow),
        !cancelled && written <= archive_size ==> abort_reason(written, archive_size, cancelled)
            is None,
        chunk_fits(written, chunk_len, archive_size, cancelled) ==> !cancelled && written + chunk_len
            <= archive_size || archive_size == 0xffff_ffff_ffff_ffff,
        !cancelled && written + chunk_len <= archive_size ==> chunk_fits(
            written,
            chunk_len,
            archive_size,
            cancelled,
        ) && written_after(written, chunk_len) == written + chunk_len,
        abort_text(DownloadAbortReason::Cancelled) == "ffmpeg download cancelled"@,
        abort_text(DownloadAbortReason::Overflow) == "ffmpeg download exceeded archive_size"@,
{
}

/// A response is taken where the server succeeded and does not announce more than the archive has.
pub proof fn law_responses_that_are_taken(
    success: bool,
    status: Seq<char>,
    content_length: Option<u64>,
    archive_size: u64,
)
    ensures
        response_problem(success, status, content_length, archive_size) is None <==> success && (
        content_length is None || content_length->0 <= archive_size),
        !success ==> response_problem(success, status, content_length, archive_size) == Some(
            "download ffmpeg archive failed with status "@ + status,
        ),
        success && content_length is Some && content_length->0 > archive_size ==> response_problem(
            success,
            status,
            content_length,
            archive_size,
        ) == Some("ffmpeg download Content-Length exceeds archive_size"@),
{
}

/// The errors of sizes, digests and cancellations.
pub proof fn law_install_errors(
    head: Seq<char>,
    expected: u64,
    actual: u64,
    wanted: Seq<char>,
    found: Seq<char>,
    file: FfmpegAllowedFile,
)
    ensures
        size_text(head, expected, actual) == head + decimal(expected as nat) + ", got "@ + decimal(
            actual as nat,
        ),
        archive_digest_text(wanted, found) == "FFmpeg archive SHA-256 mismatch: expected "@ + wanted
            + ", got "@ + found,
        install_cancelled_text() == "ffmpeg install cancelled"@,
        copy_cancelled_text(file) == "extract "@ + file.staged_name@ + ": "@
            + "ffmpeg install cancelled"@,
        unsafe_entry_text(file) == "unsafe FFmpeg allowlist entry: "@ + file.archive_path@ + " -> "@
            + file.staged_name@,
        space_text(expected, actual) == "not enough free disk space for FFmpeg runtime (need "@
            + decimal(expected as nat) + " bytes, have "@ + decimal(actual as nat) + ")"@,
{
}

/// An entry is refused where the name of its file is blank, no name at all or holds a slash, or
/// where its path goes up or lies on a share; it is taken where the name is plain and the path
/// starts below the root and never goes up.
pub proof fn law_entries_that_are_taken(file: FfmpegAllowedFile, valid: bool)
    requires
        judged(file, valid),
    ensures
        is_blank(file.staged_name@) ==> !valid,
        file.staged_name@ == "."@ || file.staged_name@ == ".."@ || file.staged_name@.contains('/')
            ==> !valid,
        has_substring(file.archive_path@, ".."@) ==> !valid,
        lies_on_share(file.archive_path@) ==> !valid,
        !is_blank(file.staged_name@) && file.staged_name@ != "."@ && file.staged_name@ != ".."@
            && !file.staged_name@.contains('/') && !file.staged_name@.contains('\\')
            && !file.staged_name@.contains(':') && !has_substring(file.archive_path@, ".."@) && (
        file.archive_path@.len() > 0 ==> file.archive_path@[0] != '/' && file.archive_path@[0]
            != '\\') && (file.archive_path@.len() > 1 ==> file.archive_path@[1] != ':') ==> valid,
{
    if file.staged_name@.len() == 0 {
        assert(is_blank(file.staged_name@)) by {
            crate::text::law_blank_is_white_space_only(file.staged_name@);
        }
    }
}

/// A file stands in the archive under its path with forward slashes, below the root, with one
/// slash between them.
pub proof fn law_names_in_the_archive(manifest: FfmpegRuntimeManifest, file: FfmpegAllowedFile)
    ensures
        archive_entry_name(manifest, file) == without_trailing(manifest.archive_root@, '/') + "/"@
            + replaced_char(file.archive_path@, '\\', '/'),
        !manifest.archive_root@.contains('/') && !file.archive_path@.contains('\\')
            ==> archive_entry_name(manifest, file) == manifest.archive_root@ + "/"@
            + file.archive_path@,
{
    let root = manifest.archive_root@;
    if !root.contains('/') && root.len() > 0 {
        assert(root[root.len() - 1] != '/') by {
            if root[root.len() - 1] == '/' {
                assert(root.contains('/'));
            }
        }
    }
    if !file.archive_path@.contains('\\') {
        assert forall|i: int| 0 <= i < file.archive_path@.len() implies file.archive_path@[i]
            != '\\' by {
            if file.archive_path@[i] == '\\' {
                assert(file.archive_path@.contains('\\'));
            }
        }
        assert(replaced_char(file.archive_path@, '\\', '/') =~= file.archive_path@);
    }
}

/// A file is taken out of the archive exactly where its entry is valid and has the size that is
/// listed, and staged exactly where it has the size and the digest that are listed.
pub proof fn law_files_that_are_staged(
    archive: Seq<u8>,
    manifest: FfmpegRuntimeManifest,
    file: FfmpegAllowedFile,
    valid: bool,
    content: Seq<u8>,
)
    ensures
        entry_refusal(archive, manifest, file, valid) is None <==> valid && zip_entry_size(
            archive,
            archive_entry_name(manifest, file),
        ) == Some(file.size),
        !valid ==> entry_refusal(archive, manifest, file, valid) == Some(unsafe_entry_text(file)),
        valid && zip_entry_size(archive, archive_entry_name(manifest, file)) is None
            ==> entry_refusal(archive, manifest, file, valid) == Some(
            "missing archive entry "@ + archive_entry_name(manifest, file),
        ),
        staged_problem(file, content) is None <==> content.len() == file.size && sha256_hex(content)
            == ascii_lower(file.sha256@),
        content.len() != file.size ==> staged_problem(file, content) == Some(
            "staged "@ + file.staged_name@ + " size mismatch: expected "@ + decimal(
                file.size as nat,
            ) + ", got "@ + decimal(content.len()),
        ),
        content.len() == file.size && sha256_hex(content) != ascii_lower(file.sha256@)
            ==> staged_problem(file, content) == Some(
            "staged "@ + file.staged_name@ + " SHA-256 mismatch: expected "@ + file.sha256@
                + ", got "@ + sha256_hex(content),
        ),
        staged_copy(file, content).name == file.staged_name@,
        staged_copy(file, content).size == file.size,
        staged_copy(file, content).sha256 == sha256_hex(content),
{
}

/// Whatever is staged of an archive is what the archive holds of the files of the manifest, all of
/// them in their order, each with its size and its digest.
pub proof fn law_staged_files_are_those_of_the_manifest(
    archive: Seq<u8>,
    manifest: FfmpegRuntimeManifest,
    staged: Seq<StagedModel>,
    i: int,
)
    requires
        all_staged(archive, manifest, staged),
        0 <= i < manifest.allowed_files@.len(),
    ensures
        staged.len() == manifest.allowed_files@.len(),
        ({
            let file = manifest.allowed_files@[i];
            let found = zip_entry_content(archive, archive_entry_name(manifest, file));
            &&& found is Ok
            &&& found->Ok_0.len() == file.size
            &&& sha256_hex(found->Ok_0) == ascii_lower(file.sha256@)
            &&& staged[i].name == file.staged_name@
            &&& staged[i].size == file.size
            &&& staged[i].sha256 == ascii_lower(file.sha256@)
            &&& !is_blank(file.staged_name@)
            &&& !has_substring(file.archive_path@, ".."@)
        }),
{
    assert(entry_staged(archive, manifest, manifest.allowed_files@[i], staged[i]));
}

/// A file is copied in pieces of 64 KiB, from its beginning to its end.
pub proof fn law_pieces_of_a_copy(done: int, total: int)
    requires
        0 <= done < total,
    ensures
        done < next_copied(done, total) <= total,
        next_copied(done, total) - done <= 65536,
        total - done > 65536 ==> next_copied(done, total) == done + 65536,
        total - done <= 65536 ==> next_copied(done, total) == total,
{
}

/// An extraction that is not cancelled and meets no error goes from step to step: it clears the
/// tree, and then creates, reads, writes and checks one file after the other.
pub proof fn law_extraction_goes_on(
    archive: Seq<u8>,
    manifest: FfmpegRuntimeManifest,
    x: ExtractModel,
    content: Seq<u8>,
)
    requires
        x.wf(archive, manifest),
        x.failure is None,
        zip_open_error(archive) is None,
        0 < manifest.allowed_files@.len() <= usize::MAX,
    ensures
        x.phase is LookFirst ==> x.after(archive, manifest, InstallAnswer::Flag(false), true).phase
            is Clear,
        x.phase is Clear ==> ({
            let next = x.after(archive, manifest, InstallAnswer::Came(Ok(())), true);
            next.phase is LookEntry && next.entry == 0 && next.failure is None
        }),
        x.phase is LookEntry && zip_entry_size(
            archive,
            archive_entry_name(manifest, x.file(manifest)),
        ) == Some(x.file(manifest).size) ==> ({
            let next = x.after(archive, manifest, InstallAnswer::Flag(false), true);
            next.phase is Create && next.entry == x.entry && next.failure is None
        }),
        x.phase is Create ==> x.after(archive, manifest, InstallAnswer::Came(Ok(())), true).phase
            is LookChunk,
        x.phase is LookChunk && x.done == 0 && content.len() > 0 && zip_entry_content(
            archive,
            archive_entry_name(manifest, x.file(manifest)),
        ) == Ok::<Seq<u8>, Seq<char>>(content) ==> ({
            let next = x.after(archive, manifest, InstallAnswer::Flag(false), true);
            next.phase is Write && next.content == content && next.done == 0
        }),
        x.phase is LookStaged && x.content.len() == x.file(manifest).size && sha256_hex(x.content)
            == ascii_lower(x.file(manifest).sha256@) ==> ({
            let next = x.after(archive, manifest, InstallAnswer::Flag(false), true);
            &&& next.entry == x.entry + 1
            &&& next.staged.len() == x.staged.len() + 1
            &&& next.staged.last().name == x.file(manifest).staged_name@
            &&& x.entry + 1 < manifest.allowed_files@.len() ==> next.phase is LookEntry
            &&& x.entry + 1 == manifest.allowed_files@.len() ==> next.phase is Finished
            &&& next.failure is None
        }),
{
}

/// The provenance of a runtime says what its manifest says, and of every file what was staged.
pub proof fn law_provenance_says_what_was_staged(
    provenance: FfmpegProvenance,
    manifest: FfmpegRuntimeManifest,
    manifest_sha256: Seq<char>,
    files: Seq<StagedModel>,
    i: int,
)
    requires
        is_provenance_of(provenance, manifest, manifest_sha256, files),
    ensures
        provenance.schema_version == 1,
        provenance.provider == manifest.provider && provenance.release_tag == manifest.release_tag
            && provenance.published_at == manifest.published_at && provenance.archive_name
            == manifest.archive_name && provenance.archive_url == manifest.archive_url
            && provenance.archive_sha256 == manifest.archive_sha256,
        provenance.manifest_sha256@ == manifest_sha256,
        provenance.ffmpeg_version == manifest.version_line && provenance.source_offer_url
            == manifest.source_offer_url && provenance.ffmpeg_source_url
            == manifest.ffmpeg_source_url,
        provenance.files@.len() == files.len(),
        0 <= i < files.len() ==> provenance.files@[i].name@ == files[i].name
            && provenance.files@[i].size == files[i].size && provenance.files@[i].sha256@
            == files[i].sha256,
{
    if 0 <= i < files.len() {
        assert(is_entry_of(provenance.files@[i], files[i]));
    }
}

/// After the new runtime was put into place the old one is removed; where it could not be, the old
/// one goes back, if it was set aside and nothing else took its place.
pub proof fn law_end_of_a_publication(promoted: bool, backup_exists: bool, dest_exists: bool)
    ensures
        promoted ==> last_publish_action(promoted, backup_exists, dest_exists) is RemoveBackup,
        !promoted && backup_exists && !dest_exists ==> last_publish_action(
            promoted,
            backup_exists,
            dest_exists,
        ) is RestoreBackup,
        !promoted && (!backup_exists || dest_exists) ==> last_publish_action(
            promoted,
            backup_exists,
            dest_exists,
        ) is Nothing,
{
}

/// An archive is the one of the manifest exactly where it has its size and its digest. An install
/// that is not cancelled extracts it then, seals what it extracted, asks before it publishes, and
/// ends with what it published; it refuses any other archive.
pub proof fn law_install_goes_on(
    archive: Seq<u8>,
    local_app_data: Seq<char>,
    manifest: FfmpegRuntimeManifest,
    manifest_sha256: Seq<char>,
    before: ArchiveInstall,
    after: ArchiveInstall,
    answer: InstallAnswer,
    tree: ManagedTree,
)
    requires
        before.takes(answer),
        install_step(
            archive,
            local_app_data,
            manifest,
            manifest_sha256,
            before,
            answer,
            after,
        ),
    ensures
        archive_checks(archive, manifest) <==> archive.len() == manifest.archive_size && sha256_hex(
            archive,
        ) == ascii_lower(manifest.archive_sha256@),
        before.phase is LookFirst && answer == InstallAnswer::Flag(false) ==> (
        after.phase is Extracting <==> archive.len() == manifest.archive_size && sha256_hex(archive)
            == ascii_lower(manifest.archive_sha256@)),
        before.phase is LookFirst && answer == InstallAnswer::Flag(false) && archive.len()
            != manifest.archive_size ==> after.phase is Finished && after.failure is Some
            && after.failure->0@ == "FFmpeg archive size mismatch: expected "@ + decimal(
            manifest.archive_size as nat,
        ) + ", got "@ + decimal((archive.len() as u64) as nat),
        before.phase is Extracting ==> (after.phase is Sealing <==> after.extraction@.phase is Finished
            && after.extraction@.failure is None),
        before.phase is Sealing && answer == InstallAnswer::Tree(Ok(tree)) ==> (
        after.phase is LookPublish <==> tree_failure(tree, manifest, manifest_sha256) is None),
        before.phase is LookPublish && answer == InstallAnswer::Flag(false)
            ==> after.phase is AskingToPublish && after.info == before.info,
        before.phase is AskingToPublish && answer == InstallAnswer::Came(Ok(()))
            ==> after.phase is Publishing && after.info == before.info,
        before.phase is Publishing && answer == InstallAnswer::Came(Ok(())) ==> after.phase
            is Finished && after.failure is None && after.info is Some && after.info->0.dir@
            == before.dest@ && after.info->0.release_tag@ == manifest.release_tag@,
{
}

/// The places of an install: `Clipline` below the data of the user, and in it the runtime and
/// what is on its way there.
pub proof fn law_places_of_an_install(dir: Seq<char>, local_app_data: Seq<char>)
    ensures
        is_staging_root(dir, local_app_data) && !is_verbatim(local_app_data) ==> is_grandchild_path(
            dir,
            local_app_data,
            "Clipline"@,
            "ffmpeg-staging"@,
        ),
        is_staging_root(dir, local_app_data) ==> has_suffix(dir, "ffmpeg-staging"@),
        is_managed_root(dir, local_app_data) && !is_verbatim(local_app_data) ==> is_grandchild_path(
            dir,
            local_app_data,
            "Clipline"@,
            "ffmpeg"@,
        ),
        is_managed_root(dir, local_app_data) ==> has_suffix(dir, "ffmpeg"@),
{
}

/// What the frontend is told of a runtime: its state, what was found, and every part of what is
/// known of it; while an install is under way, only its state.
pub proof fn law_snapshots_of_an_install(
    state: FfmpegInstallState,
    status: FfmpegRuntimeStatus,
    info: ManagedRuntimeInfo,
)
    ensures
        snapshot_of(state, status).state == state,
        snapshot_of(state, status).discovery == status.kind,
        snapshot_of(state, status).locate_path == status.locate_path,
        status.managed is None ==> snapshot_of(state, status).managed is None,
        status.managed == Some(info) ==> snapshot_of(state, status).managed == Some(
            ManagedRuntimeInfoDto {
                dir: info.dir,
                ffmpeg_exe: info.ffmpeg_exe,
                release_tag: info.release_tag,
                archive_sha256: info.archive_sha256,
                manifest_sha256: info.manifest_sha256,
            },
        ),
        progress_snapshot(state).state == state,
        progress_snapshot(state).discovery is Missing,
        progress_snapshot(state).managed is None,
        progress_snapshot(state).locate_path is None,
        managed_status(info).kind is ManagedVerified,
        managed_status(info).managed == Some(info),
        managed_status(info).locate_path == Some(info.ffmpeg_exe),
{
}

/// A job that is not cancelled makes room for what it stages, needs the space for it, uses the
/// archive that came with the release where that is the right one and downloads it otherwise,
/// installs it, sweeps up and ends with what came of it.
pub proof fn law_job_goes_on(
    phase: EnsurePhase,
    required: u64,
    free: u64,
    usable: bool,
    swept: Result<(), String>,
    outcome: Result<ManagedRuntimeInfo, String>,
    next: (EnsurePhase, EnsureAction),
)
    ensures
        phase is CreatingStaging && is_ensure_step(
            phase,
            EnsureEvent::Done(Ok(())),
            false,
            required,
            next,
        ) ==> next.0 is Sweeping && next.1 is SweepStaging,
        phase is Sweeping && is_ensure_step(phase, EnsureEvent::Done(swept), false, required, next)
            ==> next.0 is RecreatingStaging && next.1 is CreateDownloadDir,
        phase is RecreatingStaging && is_ensure_step(
            phase,
            EnsureEvent::Done(Ok(())),
            false,
            required,
            next,
        ) ==> next.0 is MeasuringSpace && next.1 is ReadFreeSpace,
        phase is MeasuringSpace && free >= required && is_ensure_step(
            phase,
            EnsureEvent::FreeSpace(Ok(free)),
            false,
            required,
            next,
        ) ==> next.0 is InspectingReleaseInput && next.1 is InspectReleaseInput,
        phase is MeasuringSpace && free < required && is_ensure_step(
            phase,
            EnsureEvent::FreeSpace(Ok(free)),
            false,
            required,
            next,
        ) ==> next.0 is Finished && next.1 is Report && next.0->Finished_outcome is Err,
        phase is InspectingReleaseInput && is_ensure_step(
            phase,
            EnsureEvent::ReleaseInput { usable },
            false,
            required,
            next,
        ) ==> if usable {
            next.0 is Installing && next.1 is Install
        } else {
            next.0 is Downloading && next.1 is Download
        },
        phase is Downloading && is_ensure_step(
            phase,
            EnsureEvent::Done(Ok(())),
            false,
            required,
            next,
        ) ==> next.0 is Installing && next.1 is Install,
        phase is Installing && is_ensure_step(
            phase,
            EnsureEvent::Installed(outcome),
            false,
            required,
            next,
        ) ==> next.0 == (EnsurePhase::SweepingAfterInstall { outcome }) && next.1 is SweepStaging,
        phase == (EnsurePhase::SweepingAfterInstall { outcome }) && is_ensure_step(
            phase,
            EnsureEvent::Done(swept),
            false,
            required,
            next,
        ) ==> next.0 == (EnsurePhase::Finished { outcome }) && next.1 is Report,
{
}

/// A manifest that could not be read, or cannot be used, is told as such.
pub proof fn law_manifest_is_checked(message: String, manifest: FfmpegRuntimeManifest)
    ensures
        committed_problem(Err(message)) == Some(
            VerifyFailure::InvalidManifest { message: message@ },
        ),
        committed_problem(Ok(manifest)) is None <==> manifest.schema_version == 1
            && manifest.allowed_files@.len() > 0 && manifest.archive_size > 0 && !is_blank(
            manifest.archive_root@,
        ),
{
}

/// What an install asks for in its phases: an extraction clears the tree, creates each file under
/// its name and appends the next piece of its content; the install then seals the tree, asks to
/// publish it and publishes it at its place.
pub proof fn law_actions_of_an_install(
    install: ArchiveInstall,
    manifest: FfmpegRuntimeManifest,
    manifest_sha256: Seq<char>,
    action: InstallAction,
)
    requires
        is_install_action(install, manifest, manifest_sha256, action),
    ensures
        install.phase is LookFirst ==> action is Look,
        install.phase is Extracting ==> ({
            let x = install.extraction@;
            let name = x.file(manifest).staged_name@;
            &&& x.phase is LookFirst || x.phase is LookEntry || x.phase is LookChunk || x.phase
                is LookStaged ==> action is Look
            &&& x.phase is Clear ==> action is ClearTree
            &&& x.phase is Create ==> action is CreateFile && action->CreateFile_name@ == name
            &&& x.phase is Write && x.done < x.content.len() ==> {
                &&& action is Append
                &&& action->Append_name@ == name
                &&& 0 < action->Append_bytes@.len() <= 65536
                &&& x.done + action->Append_bytes@.len() <= x.content.len()
                &&& action->Append_bytes@.len() == 65536 || x.done + action->Append_bytes@.len()
                    == x.content.len()
                &&& forall|i: int|
                    0 <= i < action->Append_bytes@.len() ==> (
                    #[trigger] action->Append_bytes@[i]) == x.content[x.done + i]
            }
        }),
        install.phase is Sealing ==> action is Seal && is_provenance_of(
            action->Seal_provenance,
            manifest,
            manifest_sha256,
            install.extraction@.staged,
        ),
        install.phase is LookPublish ==> action is Look,
        install.phase is AskingToPublish ==> action is AskToPublish,
        install.phase is Publishing ==> action is Publish && action->Publish_dest@
            == install.dest@,
        install.phase is Finished ==> action is Stop,
{
}

} // verus!
