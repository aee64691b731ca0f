//! Clipline Cloud: the connection, the account that work belongs to, and what is known of
//! uploaded clips.

use crate::media_folder::{display_media_folder_path, shown_path};
use crate::settings::{
    find_record, record_under, same_cloud, CloudSettings, CloudUploadRecord, UploadEntry,
};
use crate::text::{
    ascii_lower, chars_of, clone_opt, concat2, concat3, ends_with, has_prefix, has_suffix, join,
    joined, opt_view, replace_char, replaced_char, starts_with, str_eq, to_ascii_lowercase, trim,
    trim_end_matches, trimmed, views, without_trailing,
};
use crate::window::{WindowLifecycleMode, WindowLifecycleSnapshot};
use base64::Engine;
use std::collections::HashMap;
use vstd::prelude::*;

verus! {

/// The name under which this machine asks for a token, unless another is given.
pub const DEFAULT_DEVICE_NAME: &'static str = "Clipline Desktop";

// ---------------------------------------------------------------------------
// Requests and results
// ---------------------------------------------------------------------------

#[derive(Debug, PartialEq, Eq)]
pub struct CloudConnectRequest {
    pub host_url: String,
    pub username: String,
    pub password: String,
    pub device_name: Option<String>,
    pub plain_http_confirmed: bool,
    pub default_visibility: Option<String>,
}

#[derive(Debug, PartialEq, Eq)]
pub struct UploadClipCommandRequest {
    pub path: String,
    pub visibility: Option<String>,
    pub title: Option<String>,
    pub description: Option<String>,
    pub audio_track_ids: Option<Vec<String>>,
}

#[derive(Debug, PartialEq, Eq)]
pub struct SyncCloudClipStatusRequest {
    pub path: String,
}

#[derive(Debug, PartialEq, Eq)]
pub struct CloudConnectionStatus {
    pub connected: bool,
    pub token_present: bool,
    pub host_url: String,
    pub public_url: Option<String>,
    pub username: Option<String>,
    pub display_name: Option<String>,
    pub user_id: Option<String>,
    pub default_visibility: String,
    pub delete_local_after_upload: bool,
    pub auto_upload_rules: bool,
}

#[derive(Debug, PartialEq, Eq)]
pub struct CloudUserProfile {
    pub user_id: String,
    pub username: String,
    pub display_name: Option<String>,
    pub profile_url: String,
}

#[derive(Debug, PartialEq, Eq)]
pub struct CloudUploadResult {
    pub record: CloudUploadRecord,
    /// What the server says of the clip, as JSON; an upload leaves it out.
    pub clip: Option<String>,
    pub local_deleted: bool,
}

#[derive(Debug, PartialEq, Eq)]
pub struct CloudClipStatusSyncResult {
    pub path: String,
    pub record: Option<CloudUploadRecord>,
    pub removed: bool,
}

#[derive(Debug, PartialEq, Eq)]
pub struct CloudLibraryClip {
    pub remote_clip_id: String,
    pub local_clip_id: Option<String>,
    pub path: String,
    pub title: String,
    pub remote_url: String,
    pub visibility: String,
    pub upload_status: String,
    pub updated_at_unix: u64,
    pub uploaded_at_unix: Option<u64>,
    pub duration_ms: Option<i64>,
    pub file_size_bytes: Option<i64>,
    pub source_type: Option<String>,
}

#[derive(Debug, PartialEq, Eq)]
pub struct CloudLibraryListResult {
    pub clips: Vec<CloudLibraryClip>,
    pub truncated: bool,
}

#[derive(Debug, PartialEq, Eq)]
pub struct CloudClipAssetRequest {
    pub remote_clip_id: String,
    pub title: Option<String>,
    pub duration_ms: Option<i64>,
    pub file_size_bytes: Option<i64>,
    pub updated_at_unix: Option<u64>,
}

// ---------------------------------------------------------------------------
// Paths of clips
// ---------------------------------------------------------------------------

/// An ASCII letter.
pub open spec fn is_ascii_letter(c: char) -> bool {
    'a' <= c <= 'z' || 'A' <= c <= 'Z'
}

/// A path as Windows writes it: without white space round it, with backslashes, and
/// without the verbatim prefix.
pub open spec fn windows_form(path: Seq<char>) -> Seq<char> {
    shown_path(replaced_char(trimmed(path), '/', '\\'))
}

/// Whether a path in that form starts with a drive or names a share.
pub open spec fn is_windows_path(path: Seq<char>) -> bool {
    ||| path.len() >= 3 && is_ascii_letter(path[0]) && path[1] == ':' && path[2] == '\\'
    ||| has_prefix(path, "\\\\"@)
}

/// What two spellings of one Windows path have in common.
pub open spec fn path_key(path: Seq<char>) -> Option<Seq<char>> {
    if is_windows_path(windows_form(path)) {
        Some(ascii_lower(windows_form(path)))
    } else {
        None
    }
}

fn windows_clip_path_key(path: &str) -> (key: Option<String>)
    ensures
        opt_view(key) == path_key(path@),
{
    let shown = trim(path);
    let slashed = replace_char(shown.as_str(), '/', '\\');
    let normalized = display_media_folder_path(slashed.as_str());
    let chars = chars_of(normalized.as_str());
    let drive_path = chars.len() >= 3 && (('a' <= chars[0] && chars[0] <= 'z') || ('A' <= chars[0]
        && chars[0] <= 'Z')) && chars[1] == ':' && chars[2] == '\\';
    if !drive_path && !starts_with(normalized.as_str(), "\\\\") {
        return None;
    }
    Some(to_ascii_lowercase(normalized.as_str()))
}

/// Whether two paths name the same clip: they are the same text, or two spellings of one
/// Windows path.
pub open spec fn same_clip_path(left: Seq<char>, right: Seq<char>) -> bool {
    left == right || (path_key(left) is Some && path_key(left) == path_key(right))
}

pub fn clip_paths_equal(left: &str, right: &str) -> (r: bool)
    ensures
        r == same_clip_path(left@, right@),
{
    if str_eq(left, right) {
        return true;
    }
    match (windows_clip_path_key(left), windows_clip_path_key(right)) {
        (Some(left), Some(right)) => str_eq(left.as_str(), right.as_str()),
        _ => false,
    }
}

/// Naming the same clip is an equivalence.
pub proof fn law_same_clip_path(a: Seq<char>, b: Seq<char>, c: Seq<char>)
    ensures
        same_clip_path(a, a),
        same_clip_path(a, b) == same_clip_path(b, a),
        same_clip_path(a, b) && same_clip_path(b, c) ==> same_clip_path(a, c),
{
}

// ---------------------------------------------------------------------------
// Records of uploads
// ---------------------------------------------------------------------------

/// Whether a record is of a clip that the cloud has.
pub open spec fn is_uploaded(record: CloudUploadRecord) -> bool {
    record.remote_clip_id is Some && has_prefix(record.upload_status@, "uploaded_"@)
}

fn uploaded(record: &CloudUploadRecord) -> (r: bool)
    ensures
        r == is_uploaded(*record),
{
    record.remote_clip_id.is_some() && starts_with(record.upload_status.as_str(), "uploaded_")
}

/// Whether an entry is of the clip at a path, and, where that is asked, uploaded.
pub open spec fn is_candidate(entry: UploadEntry, path: Seq<char>, only_uploaded: bool) -> bool {
    same_clip_path(entry.record.path@, path) && (only_uploaded ==> is_uploaded(entry.record))
}

/// The `i`-th entry is the latest candidate; of several that are equally late it is the
/// one whose key comes last.
pub open spec fn is_latest(
    entries: Seq<UploadEntry>,
    path: Seq<char>,
    only_uploaded: bool,
    i: int,
) -> bool {
    &&& 0 <= i < entries.len()
    &&& is_candidate(entries[i], path, only_uploaded)
    &&& forall|j: int|
        0 <= j < entries.len() && is_candidate(#[trigger] entries[j], path, only_uploaded) ==> {
            &&& entries[j].record.updated_at_unix <= entries[i].record.updated_at_unix
            &&& j > i ==> entries[j].record.updated_at_unix < entries[i].record.updated_at_unix
        }
}

/// The record of the latest candidate.
pub open spec fn is_latest_record(
    entries: Seq<UploadEntry>,
    path: Seq<char>,
    only_uploaded: bool,
    found: Option<CloudUploadRecord>,
) -> bool {
    match found {
        Some(record) => exists|i: int| #[trigger]
            is_latest(entries, path, only_uploaded, i) && entries[i].record == record,
        None => forall|j: int|
            0 <= j < entries.len() ==> !is_candidate(#[trigger] entries[j], path, only_uploaded),
    }
}

fn latest_record(entries: &Vec<UploadEntry>, path: &str, only_uploaded: bool) -> (found: Option<
    CloudUploadRecord,
>)
    ensures
        is_latest_record(entries@, path@, only_uploaded, found),
{
    let mut best: Option<usize> = None;
    let mut i: usize = 0;
    while i < entries.len()
        invariant
            i <= entries@.len(),
            match best {
                Some(b) => {
                    &&& b < i
                    &&& is_candidate(entries@[b as int], path@, only_uploaded)
                    &&& forall|j: int|
                        0 <= j < i && is_candidate(#[trigger] entries@[j], path@, only_uploaded)
                            ==> {
                            &&& entries@[j].record.updated_at_unix
                                <= entries@[b as int].record.updated_at_unix
                            &&& j > b ==> entries@[j].record.updated_at_unix
                                < entries@[b as int].record.updated_at_unix
                        }
                },
                None => forall|j: int|
                    0 <= j < i ==> !is_candidate(#[trigger] entries@[j], path@, only_uploaded),
            },
        decreases entries@.len() - i,
    {
        let entry = &entries[i];
        if clip_paths_equal(entry.record.path.as_str(), path) && (!only_uploaded || uploaded(
            &entry.record,
        )) {
            let later = match best {
                Some(b) => entries[b].record.updated_at_unix <= entry.record.updated_at_unix,
                None => true,
            };
            if later {
                best = Some(i);
            }
        }
        i += 1;
    }
    match best {
        Some(b) => {
            assert(is_latest(entries@, path@, only_uploaded, b as int));
            Some(entries[b].record.clone())
        },
        None => None,
    }
}

/// The record that keeps a clip from being uploaded again: that under the identifier of
/// its content, where it is known, else the latest of an uploaded clip at its path.
pub fn existing_uploaded_record(
    cloud: &CloudSettings,
    local_clip_id: Option<&str>,
    path: &str,
) -> (found: Option<CloudUploadRecord>)
    ensures
        match local_clip_id {
            Some(id) => found == match record_under(cloud.uploads@, id@) {
                Some(record) => if is_uploaded(record) {
                    Some(record)
                } else {
                    None
                },
                None => None,
            },
            None => is_latest_record(cloud.uploads@, path@, true, found),
        },
{
    if let Some(id) = local_clip_id {
        return match find_record(&cloud.uploads, id) {
            Some(record) => if uploaded(record) {
                Some(record.clone())
            } else {
                None
            },
            None => None,
        };
    }
    latest_record(&cloud.uploads, path, true)
}

/// The latest record of the clip at a path.
pub fn cloud_record_for_path(cloud: &CloudSettings, path: &str) -> (found: Option<
    CloudUploadRecord,
>)
    ensures
        is_latest_record(cloud.uploads@, path@, false, found),
{
    latest_record(&cloud.uploads, path, false)
}

// ---------------------------------------------------------------------------
// The connection
// ---------------------------------------------------------------------------

/// The state of the connection. `connected` is whether the settings name an account,
/// `token_present` whether its token could be read.
pub fn connection_status(
    cloud: &CloudSettings,
    connected: bool,
    token_present: bool,
) -> (status: CloudConnectionStatus)
    ensures
        status == (CloudConnectionStatus {
            connected: connected && cloud.credential_target is Some && token_present,
            token_present: cloud.credential_target is Some && token_present,
            host_url: cloud.host_url,
            public_url: cloud.public_url,
            username: cloud.connected_username,
            display_name: cloud.connected_display_name,
            user_id: cloud.connected_user_id,
            default_visibility: cloud.default_visibility,
            delete_local_after_upload: cloud.delete_local_after_upload,
            auto_upload_rules: cloud.auto_upload_rules,
        }),
{
    let token_present = cloud.credential_target.is_some() && token_present;
    CloudConnectionStatus {
        connected: connected && token_present,
        token_present,
        host_url: cloud.host_url.clone(),
        public_url: clone_opt(&cloud.public_url),
        username: clone_opt(&cloud.connected_username),
        display_name: clone_opt(&cloud.connected_display_name),
        user_id: clone_opt(&cloud.connected_user_id),
        default_visibility: cloud.default_visibility.clone(),
        delete_local_after_upload: cloud.delete_local_after_upload,
        auto_upload_rules: cloud.auto_upload_rules,
    }
}

/// A text that is not blank, without the white space round it.
pub open spec fn meaningful(text: Option<Seq<char>>) -> Option<Seq<char>> {
    match text {
        Some(text) => if trimmed(text).len() > 0 {
            Some(trimmed(text))
        } else {
            None
        },
        None => None,
    }
}

fn meaningful_text(text: &Option<String>) -> (r: Option<String>)
    ensures
        opt_view(r) == meaningful(opt_view(*text)),
{
    match text {
        Some(text) => {
            let shown = trim(text.as_str());
            if shown.as_str().unicode_len() > 0 {
                Some(shown)
            } else {
                None
            }
        },
        None => None,
    }
}

/// What the server is asked for: its address and the name of the user without white space
/// round them, and the name of this machine.
#[derive(Debug, PartialEq, Eq)]
pub struct DeviceTokenRequest {
    pub host_url: String,
    pub username: String,
    pub device_name: String,
}

pub fn device_token_request(request: &CloudConnectRequest) -> (r: DeviceTokenRequest)
    ensures
        r.host_url@ == trimmed(request.host_url@),
        r.username@ == trimmed(request.username@),
        r.device_name@ == match meaningful(opt_view(request.device_name)) {
            Some(name) => name,
            None => DEFAULT_DEVICE_NAME@,
        },
{
    DeviceTokenRequest {
        host_url: trim(request.host_url.as_str()),
        username: trim(request.username.as_str()),
        device_name: match meaningful_text(&request.device_name) {
            Some(name) => name,
            None => DEFAULT_DEVICE_NAME.to_owned(),
        },
    }
}

/// The account that a server confirmed.
#[derive(Debug, PartialEq, Eq)]
pub struct ConfirmedAccount {
    pub base_url: String,
    pub public_url: String,
    pub user_id: String,
    pub username: String,
    pub display_name: Option<String>,
}

/// The address of a server as it is saved.
pub open spec fn saved_host_url(account: ConfirmedAccount) -> Seq<char> {
    without_trailing(account.base_url@, '/')
}

pub fn account_host_url(account: &ConfirmedAccount) -> (url: String)
    ensures
        url@ == saved_host_url(*account),
{
    trim_end_matches(account.base_url.as_str(), '/')
}

/// Whether an account is another than the one that the settings hold.
pub open spec fn identity_changed(cloud: CloudSettings, account: ConfirmedAccount) -> bool {
    cloud.host_url@ != saved_host_url(account) || opt_view(cloud.connected_user_id) != Some(
        account.user_id@,
    )
}

/// Settings that a connection left behind. The credential that was in use before is to be
/// deleted, unless it is the same; uploads of another identity are forgotten.
pub open spec fn is_connected_as(
    before: CloudSettings,
    after: CloudSettings,
    account: ConfirmedAccount,
    target: Seq<char>,
    visibility: Seq<char>,
    old_target: Option<Seq<char>>,
) -> bool {
    &&& after.host_url@ == saved_host_url(account)
    &&& opt_view(after.public_url) == Some(without_trailing(trimmed(account.public_url@), '/'))
    &&& opt_view(after.connected_user_id) == Some(account.user_id@)
    &&& opt_view(after.connected_username) == Some(account.username@)
    &&& opt_view(after.connected_display_name) == meaningful(opt_view(account.display_name))
    &&& opt_view(after.credential_target) == Some(target)
    &&& after.default_visibility@ == visibility
    &&& views(after.credential_cleanup_targets@) == if old_target is Some && old_target->0 != target {
        views(before.credential_cleanup_targets@).push(old_target->0)
    } else {
        views(before.credential_cleanup_targets@)
    }
    &&& after.uploads@ == if identity_changed(before, account) {
        Seq::<UploadEntry>::empty()
    } else {
        before.uploads@
    }
    &&& after.delete_local_after_upload == before.delete_local_after_upload
    &&& after.auto_upload_rules == before.auto_upload_rules
}

/// Puts a confirmed account into the settings. `target` is where its token is kept,
/// `visibility` the visibility that was asked for, `old_target` where the token in use
/// before is kept.
pub fn connect_account(
    cloud: &mut CloudSettings,
    account: &ConfirmedAccount,
    target: &str,
    visibility: &str,
    old_target: &Option<String>,
)
    requires
        old(cloud).wf(),
    ensures
        final(cloud).wf(),
        is_connected_as(
            *old(cloud),
            *final(cloud),
            *account,
            target@,
            visibility@,
            opt_view(*old_target),
        ),
{
    let host_url = account_host_url(account);
    let same_user = match &cloud.connected_user_id {
        Some(user) => str_eq(user.as_str(), account.user_id.as_str()),
        None => false,
    };
    let changed = !str_eq(cloud.host_url.as_str(), host_url.as_str()) || !same_user;
    cloud.host_url = host_url;
    let shown = trim(account.public_url.as_str());
    cloud.public_url = Some(trim_end_matches(shown.as_str(), '/'));
    cloud.connected_user_id = Some(account.user_id.clone());
    cloud.connected_username = Some(account.username.clone());
    cloud.connected_display_name = meaningful_text(&account.display_name);
    cloud.credential_target = Some(target.to_owned());
    cloud.default_visibility = visibility.to_owned();
    if let Some(replaced) = old_target {
        if !str_eq(replaced.as_str(), target) {
            let ghost before = cloud.credential_cleanup_targets@;
            cloud.credential_cleanup_targets.push(replaced.clone());
            assert(views(cloud.credential_cleanup_targets@) =~= views(before).push(replaced@));
        }
    }
    if changed {
        cloud.uploads = Vec::new();
    }
}

/// The visibility of a connection: private unless another was asked for. `normalized` is
/// what was asked for, in its canonical form.
pub fn connect_visibility(normalized: Option<String>) -> (visibility: String)
    ensures
        visibility@ == match normalized {
            Some(visibility) => visibility@,
            None => "private"@,
        },
{
    match normalized {
        Some(visibility) => visibility,
        None => "private".to_owned(),
    }
}

/// Takes the account out of the settings. Its credential is to be deleted; until that is
/// done its target stays.
pub fn disconnect_account(cloud: &mut CloudSettings, old_target: &Option<String>)
    ensures
        same_cloud(
            *final(cloud),
            CloudSettings {
                connected_user_id: None,
                connected_username: None,
                connected_display_name: None,
                credential_cleanup_targets: final(cloud).credential_cleanup_targets,
                ..*old(cloud)
            },
        ),
        views(final(cloud).credential_cleanup_targets@) == match old_target {
            Some(target) => views(old(cloud).credential_cleanup_targets@).push(target@),
            None => views(old(cloud).credential_cleanup_targets@),
        },
{
    cloud.connected_user_id = None;
    cloud.connected_username = None;
    cloud.connected_display_name = None;
    if let Some(target) = old_target {
        let ghost before = cloud.credential_cleanup_targets@;
        cloud.credential_cleanup_targets.push(target.clone());
        assert(views(cloud.credential_cleanup_targets@) =~= views(before).push(target@));
    }
}

/// The targets that are still to be cleaned up.
pub open spec fn remaining_targets(
    targets: Seq<Seq<char>>,
    deleted: Seq<Seq<char>>,
) -> Seq<Seq<char>> {
    targets.filter(|target: Seq<char>| !deleted.contains(target))
}

fn lists(targets: &Vec<String>, target: &str) -> (r: bool)
    ensures
        r == views(targets@).contains(target@),
{
    let mut i: usize = 0;
    while i < targets.len()
        invariant
            i <= targets@.len(),
            forall|k: int| 0 <= k < i ==> (#[trigger] views(targets@)[k]) != target@,
        decreases targets@.len() - i,
    {
        if str_eq(targets[i].as_str(), target) {
            assert(views(targets@)[i as int] == target@);
            return true;
        }
        i += 1;
    }
    false
}

/// Strikes off the credentials that were deleted. A target that no account uses any more is
/// forgotten with its credential.
pub fn forget_deleted_credentials(cloud: &mut CloudSettings, deleted: &Vec<String>)
    ensures
        views(final(cloud).credential_cleanup_targets@) == remaining_targets(
            views(old(cloud).credential_cleanup_targets@),
            views(deleted@),
        ),
        opt_view(final(cloud).credential_target) == if old(cloud).connected_user_id is None && old(
            cloud,
        ).credential_target is Some && views(deleted@).contains(
            old(cloud).credential_target->0@,
        ) {
            None
        } else {
            opt_view(old(cloud).credential_target)
        },
        same_cloud(
            *final(cloud),
            CloudSettings {
                credential_cleanup_targets: final(cloud).credential_cleanup_targets,
                credential_target: final(cloud).credential_target,
                ..*old(cloud)
            },
        ),
{
    let ghost keep = |target: Seq<char>| !views(deleted@).contains(target);
    let mut kept: Vec<String> = Vec::new();
    let mut i: usize = 0;
    let ghost all = views(cloud.credential_cleanup_targets@);
    proof {
        reveal(Seq::filter);
        assert(views(kept@) =~= all.take(0).filter(keep));
    }
    while i < cloud.credential_cleanup_targets.len()
        invariant
            i <= cloud.credential_cleanup_targets@.len(),
            all == views(cloud.credential_cleanup_targets@),
            *cloud == *old(cloud),
            keep == (|target: Seq<char>| !views(deleted@).contains(target)),
            views(kept@) == all.take(i as int).filter(keep),
        decreases cloud.credential_cleanup_targets@.len() - i,
    {
        let ghost before = kept@;
        proof {
            reveal(Seq::filter);
            assert(all.take(i + 1).drop_last() =~= all.take(i as int));
            assert(all.take(i + 1).last() == cloud.credential_cleanup_targets@[i as int]@);
        }
        if !lists(deleted, cloud.credential_cleanup_targets[i].as_str()) {
            let target = cloud.credential_cleanup_targets[i].clone();
            kept.push(target);
            assert(views(kept@) =~= views(before).push(target@));
        }
        i += 1;
    }
    assert(all.take(i as int) =~= all);
    cloud.credential_cleanup_targets = kept;
    let unused = cloud.connected_user_id.is_none() && match &cloud.credential_target {
        Some(target) => lists(deleted, target.as_str()),
        None => false,
    };
    if unused {
        cloud.credential_target = None;
    }
}

/// How a cleanup ends: the errors of the credentials that could not be deleted.
pub fn cleanup_result(failures: &Vec<String>) -> (res: Result<(), String>)
    ensures
        match res {
            Ok(_) => failures@.len() == 0,
            Err(error) => failures@.len() > 0 && error@ == joined(views(failures@), ", "@),
        },
{
    if failures.len() == 0 {
        Ok(())
    } else {
        Err(join(failures, ", "))
    }
}

/// Once the credential of an account that was disconnected is deleted, nothing of the
/// account is left to be cleaned up, and its target is forgotten.
pub proof fn law_disconnect_is_forgotten(
    before: CloudSettings,
    between: CloudSettings,
    after: CloudSettings,
    deleted: Seq<Seq<char>>,
)
    requires
        before.credential_target is Some,
        between.connected_user_id is None,
        between.credential_target == before.credential_target,
        deleted.contains(before.credential_target->0@),
        views(after.credential_cleanup_targets@) == remaining_targets(
            views(between.credential_cleanup_targets@),
            deleted,
        ),
        opt_view(after.credential_target) == if between.connected_user_id is None
            && between.credential_target is Some && deleted.contains(
            between.credential_target->0@,
        ) {
            None
        } else {
            opt_view(between.credential_target)
        },
    ensures
        after.credential_target is None,
        !views(after.credential_cleanup_targets@).contains(before.credential_target->0@),
{
    let targets = views(between.credential_cleanup_targets@);
    let keep = |target: Seq<char>| !deleted.contains(target);
    let left = targets.filter(keep);
    if left.contains(before.credential_target->0@) {
        let i = choose|i: int| 0 <= i < left.len() && left[i] == before.credential_target->0@;
        targets.lemma_filter_pred(keep, i);
        assert(keep(left[i]));
    }
}

// ---------------------------------------------------------------------------
// The account that work belongs to
// ---------------------------------------------------------------------------

/// The account as work sees it.
#[derive(Debug, PartialEq, Eq)]
pub struct CloudServiceAccount {
    pub account_key: String,
    pub generation: u64,
    pub connected: bool,
    pub host_url: String,
    pub public_url: Option<String>,
    pub username: Option<String>,
    pub display_name: Option<String>,
    pub user_id: Option<String>,
    pub default_visibility: String,
    pub delete_local_after_upload: bool,
    pub auto_upload_rules: bool,
    pub credential_target: Option<String>,
    pub local_paths_by_clip_id: Vec<(String, String)>,
}

/// The identifier and the path of each upload, in the order of the keys.
pub open spec fn local_paths(entries: Seq<UploadEntry>) -> Seq<(Seq<char>, Seq<char>)> {
    entries.map_values(
        |entry: UploadEntry| (entry.record.local_clip_id@, entry.record.path@),
    )
}

pub open spec fn pair_views(pairs: Seq<(String, String)>) -> Seq<(Seq<char>, Seq<char>)> {
    pairs.map_values(|pair: (String, String)| (pair.0@, pair.1@))
}

/// The account of the settings. `account_key` is the key that its fields give, `connected`
/// whether the settings name an account.
pub fn service_account_from_settings(
    cloud: &CloudSettings,
    generation: u64,
    account_key: Result<String, String>,
    connected: bool,
) -> (res: Result<CloudServiceAccount, String>)
    ensures
        match account_key {
            Ok(key) => res is Ok && ({
                let account = res->Ok_0;
                &&& account == (CloudServiceAccount {
                    account_key: key,
                    generation,
                    connected,
                    host_url: cloud.host_url,
                    public_url: cloud.public_url,
                    username: cloud.connected_username,
                    display_name: cloud.connected_display_name,
                    user_id: cloud.connected_user_id,
                    default_visibility: cloud.default_visibility,
                    delete_local_after_upload: cloud.delete_local_after_upload,
                    auto_upload_rules: cloud.auto_upload_rules,
                    credential_target: cloud.credential_target,
                    local_paths_by_clip_id: account.local_paths_by_clip_id,
                })
                &&& pair_views(account.local_paths_by_clip_id@) == local_paths(cloud.uploads@)
            }),
            Err(error) => res == Err::<CloudServiceAccount, String>(error),
        },
{
    let account_key = match account_key {
        Ok(key) => key,
        Err(error) => return Err(error),
    };
    let mut pairs: Vec<(String, String)> = Vec::new();
    let mut i: usize = 0;
    while i < cloud.uploads.len()
        invariant
            i <= cloud.uploads@.len(),
            pairs@.len() == i,
            forall|k: int|
                0 <= k < i ==> (#[trigger] pairs@[k]).0@ == cloud.uploads@[k].record.local_clip_id@
                    && pairs@[k].1@ == cloud.uploads@[k].record.path@,
        decreases cloud.uploads@.len() - i,
    {
        let record = &cloud.uploads[i].record;
        pairs.push((record.local_clip_id.clone(), record.path.clone()));
        i += 1;
    }
    assert(pair_views(pairs@) =~= local_paths(cloud.uploads@));
    Ok(
        CloudServiceAccount {
            account_key,
            generation,
            connected,
            host_url: cloud.host_url.clone(),
            public_url: clone_opt(&cloud.public_url),
            username: clone_opt(&cloud.connected_username),
            display_name: clone_opt(&cloud.connected_display_name),
            user_id: clone_opt(&cloud.connected_user_id),
            default_visibility: cloud.default_visibility.clone(),
            delete_local_after_upload: cloud.delete_local_after_upload,
            auto_upload_rules: cloud.auto_upload_rules,
            credential_target: clone_opt(&cloud.credential_target),
            local_paths_by_clip_id: pairs,
        },
    )
}

/// Whether a profile that was fetched still belongs to the current account.
pub fn profile_patch_applies(
    current: &CloudServiceAccount,
    expected_key: &str,
    expected_generation: u64,
    patch_user_id: &str,
) -> (r: bool)
    ensures
        r == (current.account_key@ == expected_key@ && current.generation == expected_generation
            && opt_view(current.user_id) == Some(patch_user_id@)),
{
    str_eq(current.account_key.as_str(), expected_key) && current.generation == expected_generation
        && match &current.user_id {
        Some(user) => str_eq(user.as_str(), patch_user_id),
        None => false,
    }
}

/// One piece of work for the frontend: the window that asked, its foreground revision, the
/// number of the request, and the account.
#[derive(Debug, PartialEq, Eq)]
pub struct CloudWorkToken {
    pub attachment: u64,
    pub foreground: u64,
    pub request: u64,
    pub account_key: String,
    pub account_generation: u64,
}

pub open spec fn same_token(a: CloudWorkToken, b: CloudWorkToken) -> bool {
    &&& a.attachment == b.attachment
    &&& a.foreground == b.foreground
    &&& a.request == b.request
    &&& a.account_key@ == b.account_key@
    &&& a.account_generation == b.account_generation
}

/// Work is current while it is the same and the window stays in the foreground it was in.
pub fn cloud_work_is_current(
    own: &CloudWorkToken,
    token: &CloudWorkToken,
    lifecycle: WindowLifecycleSnapshot,
) -> (r: bool)
    ensures
        r == (same_token(*own, *token) && lifecycle.mode == WindowLifecycleMode::Foreground
            && lifecycle.revision == token.foreground),
{
    own.attachment == token.attachment && own.foreground == token.foreground && own.request
        == token.request && str_eq(own.account_key.as_str(), token.account_key.as_str())
        && own.account_generation == token.account_generation && lifecycle.mode
        == WindowLifecycleMode::Foreground && lifecycle.revision == token.foreground
}

/// Work is begun only from the foreground.
pub fn current_foreground_lifecycle(lifecycle: WindowLifecycleSnapshot) -> (res: Result<
    WindowLifecycleSnapshot,
    String,
>)
    ensures
        match res {
            Ok(snapshot) => lifecycle.mode == WindowLifecycleMode::Foreground && snapshot
                == lifecycle,
            Err(error) => lifecycle.mode != WindowLifecycleMode::Foreground && error@
                == "cloud foreground work requires the main window"@,
        },
{
    if lifecycle.mode != WindowLifecycleMode::Foreground {
        return Err("cloud foreground work requires the main window".to_owned());
    }
    Ok(lifecycle)
}

/// Numbers the requests for work.
#[derive(Debug, Clone, Copy, PartialEq, Eq, Structural)]
pub struct CloudRequests {
    pub last: u64,
}

impl CloudRequests {
    /// Begins work for the window in the foreground. `account` is the current account.
    pub fn current_cloud_work(
        &mut self,
        lifecycle: WindowLifecycleSnapshot,
        account: Result<CloudServiceAccount, String>,
    ) -> (res: Result<CloudWorkToken, String>)
        ensures
            match res {
                Ok(token) => {
                    &&& lifecycle.mode == WindowLifecycleMode::Foreground
                    &&& account is Ok
                    &&& old(self).last < u64::MAX
                    &&& final(self).last == old(self).last + 1
                    &&& token == (CloudWorkToken {
                        attachment: 1,
                        foreground: lifecycle.revision,
                        request: final(self).last,
                        account_key: account->Ok_0.account_key,
                        account_generation: account->Ok_0.generation,
                    })
                },
                Err(error) => {
                    &&& *final(self) == *old(self)
                    &&& if lifecycle.mode != WindowLifecycleMode::Foreground {
                        error@ == "cloud foreground work requires the main window"@
                    } else if account is Err {
                        error == account->Err_0
                    } else {
                        old(self).last == u64::MAX && error@
                            == "cloud compatibility request generation exhausted"@
                    }
                },
            },
    {
        let lifecycle = match current_foreground_lifecycle(lifecycle) {
            Ok(lifecycle) => lifecycle,
            Err(error) => return Err(error),
        };
        let account = match account {
            Ok(account) => account,
            Err(error) => return Err(error),
        };
        if self.last == u64::MAX {
            return Err("cloud compatibility request generation exhausted".to_owned());
        }
        self.last = self.last + 1;
        Ok(
            CloudWorkToken {
                attachment: 1,
                foreground: lifecycle.revision,
                request: self.last,
                account_key: account.account_key,
                account_generation: account.generation,
            },
        )
    }
}

/// Work that was begun is current until the window leaves that foreground; work of another
/// request never is.
pub proof fn law_work_ends_with_its_foreground(
    own: CloudWorkToken,
    token: CloudWorkToken,
    lifecycle: WindowLifecycleSnapshot,
)
    requires
        own.request != token.request || lifecycle.revision != own.foreground || lifecycle.mode
            != WindowLifecycleMode::Foreground,
    ensures
        !(same_token(own, token) && lifecycle.mode == WindowLifecycleMode::Foreground
            && lifecycle.revision == token.foreground),
{
}

// ---------------------------------------------------------------------------
// The cache of cloud clips
// ---------------------------------------------------------------------------

/// The identity under which an account's files are cached: the first known of its user, its
/// name and its credential.
pub open spec fn stable_account(cloud: CloudSettings) -> Option<Seq<char>> {
    if cloud.connected_user_id is Some {
        opt_view(cloud.connected_user_id)
    } else if cloud.connected_username is Some {
        opt_view(cloud.connected_username)
    } else {
        opt_view(cloud.credential_target)
    }
}

/// The identity under which the files of the connected account are cached.
pub fn cloud_cache_account(cloud: &CloudSettings, connected: bool) -> (res: Result<String, String>)
    ensures
        match res {
            Ok(account) => connected && stable_account(*cloud) == Some(account@),
            Err(error) => if !connected {
                error@ == "Clipline Cloud is not connected"@
            } else {
                stable_account(*cloud) is None && error@
                    == "Clipline Cloud account identity is unavailable"@
            },
        },
{
    if !connected {
        return Err("Clipline Cloud is not connected".to_owned());
    }
    if let Some(user) = &cloud.connected_user_id {
        return Ok(user.clone());
    }
    if let Some(name) = &cloud.connected_username {
        return Ok(name.clone());
    }
    match &cloud.credential_target {
        Some(target) => Ok(target.clone()),
        None => Err("Clipline Cloud account identity is unavailable".to_owned()),
    }
}

/// Cache work goes on only for the window that is in the foreground and has not changed
/// since.
pub fn ensure_cache_window(
    lifecycle: WindowLifecycleSnapshot,
    current: WindowLifecycleSnapshot,
) -> (res: Result<(), String>)
    ensures
        match res {
            Ok(_) => lifecycle.mode == WindowLifecycleMode::Foreground && current == lifecycle,
            Err(error) => !(lifecycle.mode == WindowLifecycleMode::Foreground && current
                == lifecycle) && error@
                == "cloud cache work requires the current foreground window"@,
        },
{
    if lifecycle.mode != WindowLifecycleMode::Foreground || current != lifecycle {
        return Err("cloud cache work requires the current foreground window".to_owned());
    }
    Ok(())
}

/// The account that files of the cache belong to.
#[derive(Debug, PartialEq, Eq)]
pub struct CloudAccountFence {
    pub account_key: String,
    pub account_generation: u64,
    pub cache_namespace: String,
}

pub open spec fn same_fence(a: CloudAccountFence, b: CloudAccountFence) -> bool {
    &&& a.account_key@ == b.account_key@
    &&& a.account_generation == b.account_generation
    &&& a.cache_namespace@ == b.cache_namespace@
}

/// Whether this is the fence of an account with a namespace that was derived for it.
pub open spec fn is_account_fence<D: FnOnce(&str, &str) -> Result<String, String>>(
    cloud: CloudSettings,
    generation: u64,
    account_key: Seq<char>,
    derive_namespace: D,
    res: Result<CloudAccountFence, String>,
) -> bool {
    exists|host: &str, account: &str, namespace: Result<String, String>|
        {
            &&& #[trigger] call_ensures(derive_namespace, (host, account), namespace)
            &&& host@ == cloud.host_url@
            &&& stable_account(cloud) == Some(account@)
            &&& match namespace {
                Ok(namespace) => res matches Ok(fence) && fence.account_key@ == account_key
                    && fence.account_generation == generation && fence.cache_namespace == namespace,
                Err(error) => res == Err::<CloudAccountFence, String>(error),
            }
        }
}

/// The account that files are cached for. `derive_namespace` names the place of its files by
/// the server and the identity of the account.
pub fn cloud_cache_account_fence<D>(
    cloud: &CloudSettings,
    generation: u64,
    account_key: Result<String, String>,
    connected: bool,
    derive_namespace: D,
) -> (res: Result<CloudAccountFence, String>) where
    D: FnOnce(&str, &str) -> Result<String, String>,

    requires
        forall|host: &str, account: &str|
            connected && account_key is Ok && host@ == cloud.host_url@ && stable_account(*cloud)
                == Some(account@) ==> #[trigger] call_requires(derive_namespace, (host, account)),
    ensures
        if !connected {
            res matches Err(error) && error@ == "Clipline Cloud is not connected"@
        } else {
            match account_key {
                Err(error) => res == Err::<CloudAccountFence, String>(error),
                Ok(key) => if stable_account(*cloud) is None {
                    res matches Err(error) && error@
                        == "Clipline Cloud account identity is unavailable"@
                } else {
                    is_account_fence(*cloud, generation, key@, derive_namespace, res)
                },
            }
        },
{
    if !connected {
        return Err("Clipline Cloud is not connected".to_owned());
    }
    let account_key = match account_key {
        Ok(key) => key,
        Err(error) => return Err(error),
    };
    let account = match cloud_cache_account(cloud, connected) {
        Ok(account) => account,
        Err(error) => return Err(error),
    };
    let host = cloud.host_url.as_str();
    let account = account.as_str();
    let namespace = derive_namespace(host, account);
    let ghost derived = namespace;
    let res = match namespace {
        Ok(cache_namespace) => Ok(
            CloudAccountFence { account_key, account_generation: generation, cache_namespace },
        ),
        Err(error) => Err(error),
    };
    assert(call_ensures(derive_namespace, (host, account), derived));
    assert(is_account_fence(*cloud, generation, account_key@, derive_namespace, res));
    res
}

/// Why a file did not come into the cache.
#[derive(Debug, PartialEq, Eq)]
pub enum CloudCacheError {
    StaleAccount,
    Io(String),
}

/// Whether a file may be published: the window is the one that asked for it, before and after
/// the account was read, and the account is the one it was fetched for.
pub open spec fn publication_is_current(
    account: CloudAccountFence,
    window: WindowLifecycleSnapshot,
    before: WindowLifecycleSnapshot,
    current: CloudAccountFence,
    after: WindowLifecycleSnapshot,
) -> bool {
    before == window && same_fence(current, account) && after == window
}

/// Publishes a file that was fetched for an account and a window, unless either has changed
/// since. `before` and `after` are the window before and after the account was read.
pub fn publish_if_current<P>(
    account: &CloudAccountFence,
    window: WindowLifecycleSnapshot,
    before: WindowLifecycleSnapshot,
    current: &Result<CloudAccountFence, String>,
    after: WindowLifecycleSnapshot,
    publication: P,
) -> (res: Result<(), CloudCacheError>) where P: FnOnce() -> Result<(), CloudCacheError>
    requires
        current is Ok && publication_is_current(
            *account,
            window,
            before,
            current->Ok_0,
            after,
        ) ==> call_requires(publication, ()),
    ensures
        if before != window {
            res == Err::<(), CloudCacheError>(CloudCacheError::StaleAccount)
        } else {
            match current {
                Err(error) => res matches Err(CloudCacheError::Io(text)) && text@ == error@,
                Ok(current) => if publication_is_current(*account, window, before, *current, after) {
                    call_ensures(publication, (), res)
                } else {
                    res == Err::<(), CloudCacheError>(CloudCacheError::StaleAccount)
                },
            }
        },
{
    if before != window {
        return Err(CloudCacheError::StaleAccount);
    }
    match current {
        Err(error) => Err(CloudCacheError::Io(error.clone())),
        Ok(current) => {
            let same = str_eq(current.account_key.as_str(), account.account_key.as_str())
                && current.account_generation == account.account_generation && str_eq(
                current.cache_namespace.as_str(),
                account.cache_namespace.as_str(),
            );
            if same && after == window {
                publication()
            } else {
                Err(CloudCacheError::StaleAccount)
            }
        },
    }
}

#[derive(Debug, Clone, Copy, PartialEq, Eq, Structural)]
pub enum CloudAssetKind {
    Thumbnail,
    Media,
}

/// The size that a file is expected to have: that of the clip, for the clip itself, where
/// it is known.
pub open spec fn expected_size(request: CloudClipAssetRequest, kind: CloudAssetKind) -> Option<u64> {
    match request.file_size_bytes {
        Some(bytes) => if bytes > 0 && kind == CloudAssetKind::Media {
            Some(bytes as u64)
        } else {
            None
        },
        None => None,
    }
}

pub fn expected_asset_size(request: &CloudClipAssetRequest, kind: CloudAssetKind) -> (size: Option<
    u64,
>)
    ensures
        size == expected_size(*request, kind),
{
    match request.file_size_bytes {
        Some(bytes) => if bytes > 0 && kind == CloudAssetKind::Media {
            Some(bytes as u64)
        } else {
            None
        },
        None => None,
    }
}

/// The revision of a file: when its clip changed last, where that is known.
pub fn asset_revision(request: &CloudClipAssetRequest) -> (revision: u64)
    ensures
        revision == match request.updated_at_unix {
            Some(at) => at,
            None => 0,
        },
{
    match request.updated_at_unix {
        Some(at) => at,
        None => 0,
    }
}

/// The files of the cache that the frontend plays, by the number of their lease.
pub struct CloudMediaLeases<T> {
    pub last: u64,
    pub leases: HashMap<u64, T>,
}

impl<T> CloudMediaLeases<T> {
    /// Every lease has one of the numbers that were given out.
    pub open spec fn wf(self) -> bool {
        forall|id: u64| #[trigger] self.leases@.dom().contains(id) ==> 1 <= id <= self.last
    }

    pub fn new() -> (s: Self)
        ensures
            s.wf(),
            s.last == 0,
            s.leases@ == Map::<u64, T>::empty(),
    {
        broadcast use vstd::std_specs::hash::group_hash_axioms;

        CloudMediaLeases { last: 0, leases: HashMap::new() }
    }

    /// Takes a lease in under a number that no lease had before.
    pub fn register_cloud_media_lease(&mut self, lease: T) -> (res: Result<u64, String>)
        requires
            old(self).wf(),
        ensures
            final(self).wf(),
            match res {
                Ok(id) => {
                    &&& old(self).last < u64::MAX
                    &&& id == old(self).last + 1
                    &&& final(self).last == id
                    &&& !old(self).leases@.dom().contains(id)
                    &&& final(self).leases@ == old(self).leases@.insert(id, lease)
                },
                Err(error) => {
                    &&& old(self).last == u64::MAX
                    &&& error@ == "cloud media lease generation exhausted"@
                    &&& final(self).leases@ == old(self).leases@
                    &&& final(self).last == old(self).last
                },
            },
    {
        broadcast use vstd::std_specs::hash::group_hash_axioms;

        if self.last == u64::MAX {
            return Err("cloud media lease generation exhausted".to_owned());
        }
        let id: u64 = self.last + 1;
        self.last = id;
        self.leases.insert(id, lease);
        Ok(id)
    }

    /// Gives a lease back; a number that is not known is passed over.
    pub fn release_cloud_media_lease(&mut self, id: u64)
        requires
            old(self).wf(),
        ensures
            final(self).wf(),
            final(self).leases@ == old(self).leases@.remove(id),
            final(self).last == old(self).last,
    {
        broadcast use vstd::std_specs::hash::group_hash_axioms;

        self.leases.remove(&id);
    }

    pub fn release_all_cloud_media_leases(&mut self)
        ensures
            final(self).wf(),
            final(self).leases@ == Map::<u64, T>::empty(),
            final(self).last == old(self).last,
    {
        broadcast use vstd::std_specs::hash::group_hash_axioms;

        self.leases.clear();
    }
}

/// A namespace of the cache: sixteen hexadecimal digits.
pub open spec fn is_cache_namespace(name: Seq<char>) -> bool {
    &&& name.len() == 16
    &&& forall|i: int|
        0 <= i < name.len() ==> {
            ||| '0' <= (#[trigger] name[i]) <= '9'
            ||| 'a' <= name[i] <= 'f'
            ||| 'A' <= name[i] <= 'F'
        }
}

/// Whether an entry of the old cache moves to the new one: a directory that is no link, is
/// named like a namespace, and is not there yet.
pub fn migrates_namespace(
    is_dir: bool,
    is_link: bool,
    name: &str,
    destination_exists: bool,
) -> (r: bool)
    ensures
        r == (is_dir && !is_link && is_cache_namespace(name@) && !destination_exists),
{
    let chars = chars_of(name);
    let mut named = chars.len() == 16;
    let mut i: usize = 0;
    while i < chars.len()
        invariant
            i <= chars@.len(),
            chars@ == name@,
            named == (chars@.len() == 16 && forall|k: int|
                0 <= k < i ==> {
                    ||| '0' <= (#[trigger] chars@[k]) <= '9'
                    ||| 'a' <= chars@[k] <= 'f'
                    ||| 'A' <= chars@[k] <= 'F'
                }),
        decreases chars@.len() - i,
    {
        let c = chars[i];
        if !(('0' <= c && c <= '9') || ('a' <= c && c <= 'f') || ('A' <= c && c <= 'F')) {
            named = false;
        }
        i += 1;
    }
    is_dir && !is_link && named && !destination_exists
}

/// The name under which a cached clip is shown: its title, or a stand-in, as a file name.
pub open spec fn cached_clip_name(title: Option<Seq<char>>) -> Seq<char> {
    let shown = match meaningful(title) {
        Some(title) => title,
        None => "Cloud clip"@,
    };
    if has_suffix(ascii_lower(shown), ".mp4"@) {
        shown
    } else {
        shown + ".mp4"@
    }
}

pub fn cached_cloud_clip_name(title: &Option<String>) -> (name: String)
    ensures
        name@ == cached_clip_name(opt_view(*title)),
{
    let shown = match meaningful_text(title) {
        Some(title) => title,
        None => "Cloud clip".to_owned(),
    };
    let lower = to_ascii_lowercase(shown.as_str());
    if ends_with(lower.as_str(), ".mp4") {
        shown
    } else {
        concat2(shown.as_str(), ".mp4")
    }
}

/// A cached clip is always shown as an MP4 file.
pub proof fn law_cached_clip_is_mp4(title: Option<Seq<char>>)
    ensures
        has_suffix(ascii_lower(cached_clip_name(title)), ".mp4"@),
{
    reveal_strlit(".mp4");
    let shown = match meaningful(title) {
        Some(title) => title,
        None => "Cloud clip"@,
    };
    if !has_suffix(ascii_lower(shown), ".mp4"@) {
        let name = ascii_lower(shown + ".mp4"@);
        assert(name.skip(name.len() - 4) =~= ".mp4"@);
    }
}

/// The path of a cached file as the frontend gets it.
pub fn cloud_cache_display_path(path: &str) -> (shown: String)
    ensures
        shown@ == shown_path(path@),
{
    display_media_folder_path(path)
}

// ---------------------------------------------------------------------------
// The picture of the user
// ---------------------------------------------------------------------------

/// The character of a six-bit value.
pub open spec fn base64_char(v: nat) -> char {
    if v < 26 {
        ('A' as nat + v) as char
    } else if v < 52 {
        ('a' as nat + (v - 26)) as char
    } else if v < 62 {
        ('0' as nat + (v - 52)) as char
    } else if v == 62 {
        '+'
    } else {
        '/'
    }
}

/// The standard Base64 notation with padding: four characters for each three bytes.
pub open spec fn base64_text(bytes: Seq<u8>) -> Seq<char>
    decreases bytes.len(),
{
    if bytes.len() == 0 {
        Seq::empty()
    } else {
        let a = bytes[0] as nat;
        let b = if bytes.len() > 1 {
            bytes[1] as nat
        } else {
            0
        };
        let c = if bytes.len() > 2 {
            bytes[2] as nat
        } else {
            0
        };
        let group = seq![
            base64_char(a / 4),
            base64_char((a % 4) * 16 + b / 16),
            if bytes.len() > 1 {
                base64_char((b % 16) * 4 + c / 64)
            } else {
                '='
            },
            if bytes.len() > 2 {
                base64_char(c % 64)
            } else {
                '='
            },
        ];
        if bytes.len() > 3 {
            group + base64_text(bytes.skip(3))
        } else {
            group
        }
    }
}

/// `Engine::encode` of the engine `base64::engine::general_purpose::STANDARD`: the standard
/// alphabet with padding. It fails on an input whose notation does not fit in memory, which
/// is left out.
#[verifier::external_body]
fn base64_encode(bytes: &[u8]) -> (text: String)
    requires
        4 * ((bytes@.len() + 2) / 3) <= isize::MAX,
    ensures
        text@ == base64_text(bytes@),
{
    base64::engine::general_purpose::STANDARD.encode(bytes)
}

/// The picture of the user as an address that holds it.
pub fn cloud_user_avatar_data_url(content_type: &str, bytes: &[u8]) -> (url: String)
    requires
        4 * ((bytes@.len() + 2) / 3) <= isize::MAX,
    ensures
        url@ == "data:"@ + content_type@ + ";base64,"@ + base64_text(bytes@),
{
    let head = concat3("data:", content_type, ";base64,");
    let body = base64_encode(bytes);
    concat2(head.as_str(), body.as_str())
}

// ---------------------------------------------------------------------------
// Following and starting uploads
// ---------------------------------------------------------------------------

/// How following an uploaded clip begins: with its result, or by asking the server with the
/// credential of the account.
#[derive(Debug, PartialEq, Eq)]
pub enum StatusSyncStart {
    Finished(CloudClipStatusSyncResult),
    Ask { local_clip_id: String, credential_target: String },
}

/// Begins to follow the clip at `path`. `durable` is its record; `owner` fails where the
/// account or the identifier of the record is not valid.
pub fn begin_status_sync(
    path: String,
    durable: Option<CloudUploadRecord>,
    owner: Result<(), String>,
    credential_target: &Option<String>,
) -> (res: Result<StatusSyncStart, String>)
    ensures
        match durable {
            None => res == Ok::<StatusSyncStart, String>(
                StatusSyncStart::Finished(
                    CloudClipStatusSyncResult { path, record: None, removed: false },
                ),
            ),
            Some(record) => match owner {
                Err(error) => res == Err::<StatusSyncStart, String>(error),
                Ok(_) => if record.remote_clip_id is None {
                    res == Ok::<StatusSyncStart, String>(
                        StatusSyncStart::Finished(
                            CloudClipStatusSyncResult { path, record: durable, removed: false },
                        ),
                    )
                } else {
                    match credential_target {
                        Some(target) => res == Ok::<StatusSyncStart, String>(
                            StatusSyncStart::Ask {
                                local_clip_id: record.local_clip_id,
                                credential_target: *target,
                            },
                        ),
                        None => res is Err && res->Err_0@ == "connect to Clipline Cloud first"@,
                    }
                },
            },
        },
{
    let record = match durable {
        Some(record) => record,
        None => return Ok(
            StatusSyncStart::Finished(
                CloudClipStatusSyncResult { path, record: None, removed: false },
            ),
        ),
    };
    if let Err(error) = owner {
        return Err(error);
    }
    if record.remote_clip_id.is_none() {
        return Ok(
            StatusSyncStart::Finished(
                CloudClipStatusSyncResult { path, record: Some(record), removed: false },
            ),
        );
    }
    match credential_target {
        Some(target) => Ok(
            StatusSyncStart::Ask {
                local_clip_id: record.local_clip_id,
                credential_target: target.clone(),
            },
        ),
        None => Err("connect to Clipline Cloud first".to_owned()),
    }
}

/// What the server said of a clip.
#[derive(Debug, PartialEq, Eq)]
pub enum StatusSyncOutcome {
    MissingRecord,
    Unchanged(CloudUploadRecord),
    Updated(CloudUploadRecord),
    Removed,
}

/// Ends following a clip. Where its record is gone, so is what the frontend shows of it.
pub fn status_sync_result(path: String, outcome: StatusSyncOutcome) -> (
    r: CloudClipStatusSyncResult)
    ensures
        r.path == path,
        match outcome {
            StatusSyncOutcome::MissingRecord => r.record is None && r.removed,
            StatusSyncOutcome::Removed => r.record is None && r.removed,
            StatusSyncOutcome::Unchanged(record) => r.record == Some(record) && !r.removed,
            StatusSyncOutcome::Updated(record) => r.record == Some(record) && !r.removed,
        },
{
    match outcome {
        StatusSyncOutcome::MissingRecord => CloudClipStatusSyncResult {
            path,
            record: None,
            removed: true,
        },
        StatusSyncOutcome::Removed => CloudClipStatusSyncResult {
            path,
            record: None,
            removed: true,
        },
        StatusSyncOutcome::Unchanged(record) => CloudClipStatusSyncResult {
            path,
            record: Some(record),
            removed: false,
        },
        StatusSyncOutcome::Updated(record) => CloudClipStatusSyncResult {
            path,
            record: Some(record),
            removed: false,
        },
    }
}

/// What is uploaded, and how.
#[derive(Debug, PartialEq, Eq)]
pub struct UploadIntent {
    pub title: Option<String>,
    pub description: Option<String>,
    pub visibility: String,
    pub audio_track_ids: Option<Vec<String>>,
    pub delete_local_after_upload: bool,
}

/// How an upload begins: there is one already, or it is started with a credential.
#[derive(Debug, PartialEq, Eq)]
pub enum UploadStart {
    AlreadyUploaded(CloudUploadResult),
    Start { credential_target: String, intent: UploadIntent },
}

/// An upload needs a connected account.
pub fn ensure_cloud_connected(connected: bool) -> (res: Result<(), String>)
    ensures
        match res {
            Ok(_) => connected,
            Err(error) => !connected && error@ == "connect to Clipline Cloud first"@,
        },
{
    if connected {
        Ok(())
    } else {
        Err("connect to Clipline Cloud first".to_owned())
    }
}

/// Whether the cloud has the clip whose content has an identifier.
pub open spec fn already_uploaded(cloud: CloudSettings, local_clip_id: Seq<char>) -> bool {
    record_under(cloud.uploads@, local_clip_id) is Some && is_uploaded(
        record_under(cloud.uploads@, local_clip_id)->0,
    )
}

/// How the upload of a clip begins.
pub open spec fn is_upload_start(
    cloud: CloudSettings,
    local_clip_id: Seq<char>,
    request: UploadClipCommandRequest,
    visibility: Option<String>,
    res: Result<UploadStart, String>,
) -> bool {
    if already_uploaded(cloud, local_clip_id) {
        res == Ok::<UploadStart, String>(
            UploadStart::AlreadyUploaded(
                CloudUploadResult {
                    record: record_under(cloud.uploads@, local_clip_id)->0,
                    clip: None,
                    local_deleted: false,
                },
            ),
        )
    } else {
        match cloud.credential_target {
            Some(target) => res == Ok::<UploadStart, String>(
                UploadStart::Start {
                    credential_target: target,
                    intent: UploadIntent {
                        title: request.title,
                        description: request.description,
                        visibility: match visibility {
                            Some(visibility) => visibility,
                            None => cloud.default_visibility,
                        },
                        audio_track_ids: request.audio_track_ids,
                        delete_local_after_upload: cloud.delete_local_after_upload,
                    },
                },
            ),
            None => res is Err && res->Err_0@ == "connect to Clipline Cloud first"@,
        }
    }
}

/// Begins the upload of a clip whose content has the identifier `local_clip_id`. A clip that
/// the cloud has is not uploaded again. `visibility` is the visibility that was asked for, in
/// its canonical form.
pub fn begin_cloud_upload(
    cloud: &CloudSettings,
    local_clip_id: &str,
    request: UploadClipCommandRequest,
    visibility: Option<String>,
) -> (res: Result<UploadStart, String>)
    ensures
        is_upload_start(*cloud, local_clip_id@, request, visibility, res),
{
    if let Some(record) = existing_uploaded_record(
        cloud,
        Some(local_clip_id),
        request.path.as_str(),
    ) {
        return Ok(UploadStart::AlreadyUploaded(
            CloudUploadResult { record, clip: None, local_deleted: false },
        ));
    }
    let credential_target = match &cloud.credential_target {
        Some(target) => target.clone(),
        None => return Err("connect to Clipline Cloud first".to_owned()),
    };
    let visibility = match visibility {
        Some(visibility) => visibility,
        None => cloud.default_visibility.clone(),
    };
    Ok(
        UploadStart::Start {
            credential_target,
            intent: UploadIntent {
                title: request.title,
                description: request.description,
                visibility,
                audio_track_ids: request.audio_track_ids,
                delete_local_after_upload: cloud.delete_local_after_upload,
            },
        },
    )
}

/// Ends an upload. Without a record the upload belongs to another account by now; `outcome`
/// is how its end is shown.
pub fn finish_cloud_upload(
    record: Option<CloudUploadRecord>,
    local_deleted: bool,
    outcome: &str,
) -> (res: Result<CloudUploadResult, String>)
    ensures
        match record {
            Some(record) => res == Ok::<CloudUploadResult, String>(
                CloudUploadResult { record, clip: None, local_deleted },
            ),
            None => res is Err && res->Err_0@
                == "cloud upload ownership changed before completion ("@ + outcome@ + ")"@,
        },
{
    match record {
        Some(record) => Ok(CloudUploadResult { record, clip: None, local_deleted }),
        None => Err(
            concat3("cloud upload ownership changed before completion (", outcome, ")"),
        ),
    }
}

/// Every clip that is recorded as uploaded counts as uploaded under its key, so that no
/// upload of it begins again.
pub proof fn law_recorded_uploads_count(cloud: CloudSettings, i: int)
    requires
        cloud.wf(),
        0 <= i < cloud.uploads@.len(),
        is_uploaded(cloud.uploads@[i].record),
    ensures
        already_uploaded(cloud, cloud.uploads@[i].key@),
        record_under(cloud.uploads@, cloud.uploads@[i].key@) == Some(cloud.uploads@[i].record),
{
    crate::settings::lemma_record_at(cloud.uploads@, i);
}

/// A clip is sent once. Where a record with a remote clip stands under the identifier of a clip
/// and its status begins with `uploaded_`, as it does while the server still processes the clip
/// and once it is private or public, no upload begins: the answer is that record.
pub proof fn law_uploaded_clip_is_not_sent_again(
    cloud: CloudSettings,
    i: int,
    request: UploadClipCommandRequest,
    visibility: Option<String>,
    res: Result<UploadStart, String>,
)
    requires
        cloud.wf(),
        0 <= i < cloud.uploads@.len(),
        is_upload_start(cloud, cloud.uploads@[i].key@, request, visibility, res),
        cloud.uploads@[i].record.remote_clip_id is Some,
        ({
            let status = cloud.uploads@[i].record.upload_status@;
            ||| status == "uploaded_processing"@
            ||| status == "uploaded_private"@
            ||| status == "uploaded_public"@
            ||| exists|rest: Seq<char>| status == "uploaded_"@ + rest
        }),
    ensures
        res == Ok::<UploadStart, String>(
            UploadStart::AlreadyUploaded(
                CloudUploadResult {
                    record: cloud.uploads@[i].record,
                    clip: None,
                    local_deleted: false,
                },
            ),
        ),
{
    let record = cloud.uploads@[i].record;
    let status = record.upload_status@;
    reveal_strlit("uploaded_");
    reveal_strlit("uploaded_processing");
    reveal_strlit("uploaded_private");
    reveal_strlit("uploaded_public");
    assert(status.take(9) =~= "uploaded_"@);
    crate::settings::lemma_record_at(cloud.uploads@, i);
}

/// A clip is sent at all: where no record stands under its identifier, or one without a remote
/// clip or with a status of another beginning, the upload begins with the credential of the
/// account, and with the title, the tracks and the visibility that were asked for.
pub proof fn law_other_clips_are_sent(
    cloud: CloudSettings,
    id: Seq<char>,
    request: UploadClipCommandRequest,
    visibility: Option<String>,
    res: Result<UploadStart, String>,
)
    requires
        is_upload_start(cloud, id, request, visibility, res),
        forall|i: int|
            0 <= i < cloud.uploads@.len() && (#[trigger] cloud.uploads@[i]).key@ == id ==> {
                let record = cloud.uploads@[i].record;
                record.remote_clip_id is None || forall|rest: Seq<char>|
                    record.upload_status@ != #[trigger] ("uploaded_"@ + rest)
            },
    ensures
        res is Ok <==> cloud.credential_target is Some,
        res matches Ok(start) ==> start matches UploadStart::Start { credential_target, intent }
            && {
            &&& Some(credential_target) == cloud.credential_target
            &&& intent.title == request.title
            &&& intent.description == request.description
            &&& intent.audio_track_ids == request.audio_track_ids
            &&& intent.delete_local_after_upload == cloud.delete_local_after_upload
            &&& visibility is Some ==> intent.visibility == visibility->0
            &&& visibility is None ==> intent.visibility == cloud.default_visibility
        },
        res matches Err(error) ==> error@ == "connect to Clipline Cloud first"@,
{
    if already_uploaded(cloud, id) {
        let i = crate::settings::lemma_record_found(cloud.uploads@, id);
        let status = cloud.uploads@[i].record.upload_status@;
        reveal_strlit("uploaded_");
        assert(status =~= "uploaded_"@ + status.skip(9));
    }
}

// ---------------------------------------------------------------------------
// Connecting
// ---------------------------------------------------------------------------

/// A user as the server knows them.
#[derive(Debug, PartialEq, Eq)]
pub struct CloudUser {
    pub id: String,
    pub username: String,
    pub display_name: Option<String>,
}

/// How far a connection is.
#[derive(Debug, Clone, Copy, PartialEq, Eq, Structural)]
pub enum ConnectPhase {
    ReadingHost,
    Discovering,
    CreatingToken,
    ReadingUser,
    Persisting,
    CleaningUp,
    ReadingAccount,
    Announcing,
    Publishing,
    Finished,
}

/// What is to be done next for a connection.
#[derive(Debug, Clone, Copy, PartialEq, Eq, Structural)]
pub enum ConnectAction {
    /// Read the address of the server. Answered by `Text`.
    ReadHost,
    /// Ask the server for its public address. Answered by `Text`.
    Discover,
    /// Ask the server for a token. Answered by `Text`.
    CreateToken,
    /// Ask the server whose token it is. Answered by `User`.
    ReadUser,
    /// Store the token, then save the settings; take the token back where that fails.
    /// Answered by `Came`.
    Persist,
    /// Delete the credentials that are no longer used. Answered by `Came`.
    CleanUp,
    /// Read the account back out of the settings. Answered by `Came`.
    ReadAccount,
    /// Tell the uploads whose they are now. Answered by `Done`.
    Announce,
    /// Tell the windows about the account. Answered by `Came`.
    Publish,
    /// There is nothing left to do.
    Stop,
}

/// An answer to an action.
#[derive(Debug, PartialEq, Eq)]
pub enum ConnectAnswer {
    Text(Result<String, String>),
    User(Result<CloudUser, String>),
    Came(Result<(), String>),
    Done,
}

/// A connection that is being made, and what the server has said so far.
#[derive(Debug, PartialEq, Eq)]
pub struct CloudConnection {
    pub phase: ConnectPhase,
    pub base_url: Option<String>,
    pub public_url: Option<String>,
    pub token: Option<String>,
    pub user: Option<CloudUser>,
    pub failure: Option<String>,
}

/// The place of a phase in the order of the phases.
pub open spec fn connect_rank(phase: ConnectPhase) -> int {
    match phase {
        ConnectPhase::ReadingHost => 0,
        ConnectPhase::Discovering => 1,
        ConnectPhase::CreatingToken => 2,
        ConnectPhase::ReadingUser => 3,
        ConnectPhase::Persisting => 4,
        ConnectPhase::CleaningUp => 5,
        ConnectPhase::ReadingAccount => 6,
        ConnectPhase::Announcing => 7,
        ConnectPhase::Publishing => 8,
        ConnectPhase::Finished => 9,
    }
}

/// The action of a phase.
pub open spec fn connect_action(phase: ConnectPhase) -> ConnectAction {
    match phase {
        ConnectPhase::ReadingHost => ConnectAction::ReadHost,
        ConnectPhase::Discovering => ConnectAction::Discover,
        ConnectPhase::CreatingToken => ConnectAction::CreateToken,
        ConnectPhase::ReadingUser => ConnectAction::ReadUser,
        ConnectPhase::Persisting => ConnectAction::Persist,
        ConnectPhase::CleaningUp => ConnectAction::CleanUp,
        ConnectPhase::ReadingAccount => ConnectAction::ReadAccount,
        ConnectPhase::Announcing => ConnectAction::Announce,
        ConnectPhase::Publishing => ConnectAction::Publish,
        ConnectPhase::Finished => ConnectAction::Stop,
    }
}

/// Whether an answer is one to the action of a phase.
pub open spec fn connect_answer_fits(phase: ConnectPhase, answer: ConnectAnswer) -> bool {
    match phase {
        ConnectPhase::ReadingHost | ConnectPhase::Discovering | ConnectPhase::CreatingToken =>
        answer is Text,
        ConnectPhase::ReadingUser => answer is User,
        ConnectPhase::Persisting | ConnectPhase::CleaningUp | ConnectPhase::ReadingAccount
        | ConnectPhase::Publishing => answer is Came,
        ConnectPhase::Announcing => answer is Done,
        ConnectPhase::Finished => false,
    }
}

/// A connection that ended with an error.
pub open spec fn connect_refused(c: CloudConnection, error: String) -> CloudConnection {
    CloudConnection { phase: ConnectPhase::Finished, failure: Some(error), ..c }
}

/// A connection after an answer. An error ends it, except one of the cleanup, which is tried
/// again another time.
pub open spec fn connect_after(c: CloudConnection, answer: ConnectAnswer) -> CloudConnection {
    match (c.phase, answer) {
        (ConnectPhase::ReadingHost, ConnectAnswer::Text(Ok(url))) => CloudConnection {
            phase: ConnectPhase::Discovering,
            base_url: Some(url),
            ..c
        },
        (ConnectPhase::Discovering, ConnectAnswer::Text(Ok(url))) => CloudConnection {
            phase: ConnectPhase::CreatingToken,
            public_url: Some(url),
            ..c
        },
        (ConnectPhase::CreatingToken, ConnectAnswer::Text(Ok(token))) => CloudConnection {
            phase: ConnectPhase::ReadingUser,
            token: Some(token),
            ..c
        },
        (_, ConnectAnswer::Text(Err(error))) => connect_refused(c, error),
        (ConnectPhase::ReadingUser, ConnectAnswer::User(Ok(user))) => CloudConnection {
            phase: ConnectPhase::Persisting,
            user: Some(user),
            ..c
        },
        (_, ConnectAnswer::User(Err(error))) => connect_refused(c, error),
        (ConnectPhase::CleaningUp, _) => CloudConnection {
            phase: ConnectPhase::ReadingAccount,
            ..c
        },
        (_, ConnectAnswer::Came(Err(error))) => connect_refused(c, error),
        (ConnectPhase::Persisting, _) => CloudConnection { phase: ConnectPhase::CleaningUp, ..c },
        (ConnectPhase::ReadingAccount, _) => CloudConnection {
            phase: ConnectPhase::Announcing,
            ..c
        },
        (ConnectPhase::Announcing, _) => CloudConnection { phase: ConnectPhase::Publishing, ..c },
        _ => CloudConnection { phase: ConnectPhase::Finished, ..c },
    }
}

impl CloudConnection {
    /// What the server has said by a phase; what ended early ended with an error.
    pub open spec fn wf(self) -> bool {
        &&& self.failure is None ==> {
            &&& connect_rank(self.phase) > 0 ==> self.base_url is Some
            &&& connect_rank(self.phase) > 1 ==> self.public_url is Some
            &&& connect_rank(self.phase) > 2 ==> self.token is Some
            &&& connect_rank(self.phase) > 3 ==> self.user is Some
        }
        &&& self.failure is Some ==> self.phase is Finished
    }

    pub fn begin() -> (connection: CloudConnection)
        ensures
            connection == (CloudConnection {
                phase: ConnectPhase::ReadingHost,
                base_url: None,
                public_url: None,
                token: None,
                user: None,
                failure: None,
            }),
            connection.wf(),
    {
        CloudConnection {
            phase: ConnectPhase::ReadingHost,
            base_url: None,
            public_url: None,
            token: None,
            user: None,
            failure: None,
        }
    }

    /// What is to be done next.
    pub fn action(&self) -> (action: ConnectAction)
        ensures
            action == connect_action(self.phase),
    {
        match self.phase {
            ConnectPhase::ReadingHost => ConnectAction::ReadHost,
            ConnectPhase::Discovering => ConnectAction::Discover,
            ConnectPhase::CreatingToken => ConnectAction::CreateToken,
            ConnectPhase::ReadingUser => ConnectAction::ReadUser,
            ConnectPhase::Persisting => ConnectAction::Persist,
            ConnectPhase::CleaningUp => ConnectAction::CleanUp,
            ConnectPhase::ReadingAccount => ConnectAction::ReadAccount,
            ConnectPhase::Announcing => ConnectAction::Announce,
            ConnectPhase::Publishing => ConnectAction::Publish,
            ConnectPhase::Finished => ConnectAction::Stop,
        }
    }

    /// Takes the answer to the action that was due.
    pub fn answered(&mut self, answer: ConnectAnswer)
        requires
            old(self).wf(),
            connect_answer_fits(old(self).phase, answer),
        ensures
            *final(self) == connect_after(*old(self), answer),
            final(self).wf(),
    {
        match answer {
            ConnectAnswer::Text(Err(error)) => {
                self.failure = Some(error);
                self.phase = ConnectPhase::Finished;
            },
            ConnectAnswer::Text(Ok(text)) => match self.phase {
                ConnectPhase::ReadingHost => {
                    self.base_url = Some(text);
                    self.phase = ConnectPhase::Discovering;
                },
                ConnectPhase::Discovering => {
                    self.public_url = Some(text);
                    self.phase = ConnectPhase::CreatingToken;
                },
                _ => {
                    self.token = Some(text);
                    self.phase = ConnectPhase::ReadingUser;
                },
            },
            ConnectAnswer::User(Err(error)) => {
                self.failure = Some(error);
                self.phase = ConnectPhase::Finished;
            },
            ConnectAnswer::User(Ok(user)) => {
                self.user = Some(user);
                self.phase = ConnectPhase::Persisting;
            },
            ConnectAnswer::Came(outcome) => match self.phase {
                ConnectPhase::CleaningUp => {
                    self.phase = ConnectPhase::ReadingAccount;
                },
                _ => match outcome {
                    Err(error) => {
                        self.failure = Some(error);
                        self.phase = ConnectPhase::Finished;
                    },
                    Ok(_) => {
                        self.phase = match self.phase {
                            ConnectPhase::Persisting => ConnectPhase::CleaningUp,
                            ConnectPhase::ReadingAccount => ConnectPhase::Announcing,
                            _ => ConnectPhase::Finished,
                        };
                    },
                },
            },
            ConnectAnswer::Done => {
                self.phase = ConnectPhase::Publishing;
            },
        }
    }

    /// The account that the server confirmed, to be put into the settings.
    pub fn account(&self) -> (account: ConfirmedAccount)
        requires
            self.wf(),
            self.phase is Persisting,
        ensures
            account.base_url == self.base_url->0,
            account.public_url == self.public_url->0,
            account.user_id == self.user->0.id,
            account.username == self.user->0.username,
            account.display_name == self.user->0.display_name,
    {
        let user = self.user.as_ref().unwrap();
        ConfirmedAccount {
            base_url: self.base_url.as_ref().unwrap().clone(),
            public_url: self.public_url.as_ref().unwrap().clone(),
            user_id: user.id.clone(),
            username: user.username.clone(),
            display_name: clone_opt(&user.display_name),
        }
    }

    /// What came of it.
    pub fn result(self) -> (res: Result<(), String>)
        requires
            self.phase is Finished,
        ensures
            match self.failure {
                None => res is Ok,
                Some(error) => res == Err::<(), String>(error),
            },
    {
        match self.failure {
            None => Ok(()),
            Some(error) => Err(error),
        }
    }
}

/// Nothing is stored before the server has named the user of the token, and nothing at all
/// where it answers with an error before that.
pub proof fn law_only_confirmed_accounts_are_stored(c: CloudConnection, answer: ConnectAnswer)
    requires
        c.wf(),
        connect_answer_fits(c.phase, answer),
    ensures
        connect_action(connect_after(c, answer).phase) is Persist ==> {
            &&& c.phase is ReadingUser
            &&& answer matches ConnectAnswer::User(Ok(user)) && connect_after(c, answer).user == Some(
                user,
            )
            &&& connect_after(c, answer).token is Some
        },
        connect_rank(c.phase) < 4 && (answer matches ConnectAnswer::Text(Err(_)) || answer
            matches ConnectAnswer::User(Err(_))) ==> connect_action(connect_after(c, answer).phase) is Stop
            && connect_after(c, answer).failure is Some,
{
}

/// Every answer takes a connection further.
pub proof fn law_connection_ends(c: CloudConnection, answer: ConnectAnswer)
    requires
        connect_answer_fits(c.phase, answer),
    ensures
        connect_rank(connect_after(c, answer).phase) > connect_rank(c.phase),
{
}

// ---------------------------------------------------------------------------
// The move of the cache
// ---------------------------------------------------------------------------

/// An entry of the cache at its former place. `kind` is whether it is a directory and whether
/// it is a link, where that could be read.
#[derive(Debug, PartialEq, Eq)]
pub struct LegacyCacheEntry {
    pub name: String,
    pub kind: Option<(bool, bool)>,
    pub destination_exists: bool,
}

/// Whether an entry moves to the new place.
pub open spec fn entry_moves(entry: LegacyCacheEntry) -> bool {
    &&& entry.kind matches Some((is_dir, is_link)) && is_dir && !is_link
    &&& is_cache_namespace(entry.name@)
    &&& !entry.destination_exists
}

/// Whether the cache is moved at all: its former place is another one, and a directory that is
/// no link. `metadata` is whether it is a directory and whether it is a link.
pub fn legacy_cache_moves(
    same_place: bool,
    there: bool,
    metadata: &Result<(bool, bool), String>,
) -> (res: Result<bool, String>)
    ensures
        if same_place || !there {
            res == Ok::<bool, String>(false)
        } else {
            match metadata {
                Err(error) => res matches Err(text) && text@ == "inspect legacy cloud cache: "@
                    + error@,
                Ok((is_dir, is_link)) => res == Ok::<bool, String>(*is_dir && !*is_link),
            }
        },
{
    if same_place || !there {
        return Ok(false);
    }
    match metadata {
        Err(error) => Err(concat2("inspect legacy cloud cache: ", error.as_str())),
        Ok((is_dir, is_link)) => Ok(*is_dir && !*is_link),
    }
}

/// Whether an attempt to move a name ended with this error, or with none.
pub open spec fn move_came<R: Fn(&str) -> Result<(), String>>(
    rename: R,
    name: Seq<char>,
    error: Option<String>,
) -> bool {
    exists|text: &str, outcome: Result<(), String>| #[trigger]
        call_ensures(rename, (text,), outcome) && text@ == name && error == outcome.err()
}

/// Whether the moves ended at an entry with this error.
pub open spec fn move_failed_at<R: Fn(&str) -> Result<(), String>>(
    entries: Seq<LegacyCacheEntry>,
    rename: R,
    at: int,
    text: Seq<char>,
) -> bool {
    &&& 0 <= at < entries.len()
    &&& entry_moves(entries[at])
    &&& exists|error: String| #![trigger error@]
        move_came(rename, entries[at].name@, Some(error)) && text
            == "migrate cloud cache namespace "@ + entries[at].name@ + ": "@ + error@
    &&& forall|k: int|
        0 <= k < at && entry_moves(#[trigger] entries[k]) ==> move_came(
            rename,
            entries[k].name@,
            None,
        )
}

pub open spec fn move_failed<R: Fn(&str) -> Result<(), String>>(
    entries: Seq<LegacyCacheEntry>,
    rename: R,
    text: Seq<char>,
) -> bool {
    exists|at: int| #[trigger] move_failed_at(entries, rename, at, text)
}

/// Whether it is the turn of an entry, and it moves: those before it that move were moved.
pub open spec fn may_move_at<R: Fn(&str) -> Result<(), String>>(
    entries: Seq<LegacyCacheEntry>,
    rename: R,
    at: int,
    name: Seq<char>,
) -> bool {
    &&& 0 <= at < entries.len()
    &&& entry_moves(entries[at])
    &&& entries[at].name@ == name
    &&& forall|k: int|
        0 <= k < at && entry_moves(#[trigger] entries[k]) ==> move_came(
            rename,
            entries[k].name@,
            None,
        )
}

pub open spec fn may_move<R: Fn(&str) -> Result<(), String>>(
    entries: Seq<LegacyCacheEntry>,
    rename: R,
    name: Seq<char>,
) -> bool {
    exists|at: int| #[trigger] may_move_at(entries, rename, at, name)
}

/// Moves the namespaces of the cache in the order of the entries, up to the first one that
/// cannot be moved.
pub fn migrate_legacy_cloud_cache<R>(entries: &Vec<LegacyCacheEntry>, rename: R) -> (res: Result<
    (),
    String,
>) where R: Fn(&str) -> Result<(), String>
    requires
        forall|name: &str|
            may_move(entries@, rename, name@) ==> #[trigger] call_requires(rename, (name,)),
    ensures
        match res {
            Ok(_) => forall|k: int|
                0 <= k < entries@.len() && entry_moves(#[trigger] entries@[k]) ==> move_came(
                    rename,
                    entries@[k].name@,
                    None,
                ),
            Err(text) => move_failed(entries@, rename, text@),
        },
{
    let mut i: usize = 0;
    while i < entries.len()
        invariant
            i <= entries@.len(),
            forall|name: &str|
                may_move(entries@, rename, name@) ==> #[trigger] call_requires(rename, (name,)),
            forall|k: int|
                0 <= k < i && entry_moves(#[trigger] entries@[k]) ==> move_came(
                    rename,
                    entries@[k].name@,
                    None,
                ),
        decreases entries@.len() - i,
    {
        let entry = &entries[i];
        let moves = match entry.kind {
            Some((is_dir, is_link)) => migrates_namespace(
                is_dir,
                is_link,
                entry.name.as_str(),
                entry.destination_exists,
            ),
            None => false,
        };
        assert(moves == entry_moves(entries@[i as int]));
        if moves {
            let name = entry.name.as_str();
            assert(may_move_at(entries@, rename, i as int, name@));
            let outcome = rename(name);
            assert(call_ensures(rename, (name,), outcome) && name@ == entries@[i as int].name@);
            assert(move_came(rename, entries@[i as int].name@, outcome.err()));
            match outcome {
                Err(error) => {
                    let head = concat3("migrate cloud cache namespace ", name, ": ");
                    let text = concat2(head.as_str(), error.as_str());
                    assert(text@ == "migrate cloud cache namespace "@ + entries@[i as int].name@
                        + ": "@ + error@);
                    assert(move_failed_at(entries@, rename, i as int, text@));
                    assert(move_failed(entries@, rename, text@));
                    return Err(text);
                },
                Ok(_) => {},
            }
        }
        i += 1;
    }
    Ok(())
}

// ---------------------------------------------------------------------------
// Laws
// ---------------------------------------------------------------------------

/// Two paths name one clip exactly where they are one text, or both start with a drive or name a
/// share and differ only in the case of ASCII letters, once white space round them, the kind of
/// their slashes and the verbatim prefix are left out of account.
pub proof fn law_spellings_of_one_path(left: Seq<char>, right: Seq<char>)
    ensures
        same_clip_path(left, right) <==> left == right || {
            let a = shown_path(replaced_char(trimmed(left), '/', '\\'));
            let b = shown_path(replaced_char(trimmed(right), '/', '\\'));
            let a_drive = a.len() >= 3 && ('a' <= a[0] <= 'z' || 'A' <= a[0] <= 'Z') && a[1] == ':'
                && a[2] == '\\';
            let b_drive = b.len() >= 3 && ('a' <= b[0] <= 'z' || 'A' <= b[0] <= 'Z') && b[1] == ':'
                && b[2] == '\\';
            let a_share = a.len() >= 2 && a[0] == '\\' && a[1] == '\\';
            let b_share = b.len() >= 2 && b[0] == '\\' && b[1] == '\\';
            (a_drive || a_share) && (b_drive || b_share) && ascii_lower(a) == ascii_lower(b)
        },
{
    reveal_strlit("\\\\");
    let a = windows_form(left);
    let b = windows_form(right);
    if has_prefix(a, "\\\\"@) {
        assert(a.take(2)[0] == '\\' && a.take(2)[1] == '\\');
    }
    if a.len() >= 2 && a[0] == '\\' && a[1] == '\\' {
        assert(a.take(2) =~= "\\\\"@);
    }
    if has_prefix(b, "\\\\"@) {
        assert(b.take(2)[0] == '\\' && b.take(2)[1] == '\\');
    }
    if b.len() >= 2 && b[0] == '\\' && b[1] == '\\' {
        assert(b.take(2) =~= "\\\\"@);
    }
}

/// The record of a clip is the latest of those at its path, and of several that are equally late
/// the last; there is none only where no record is at its path.
pub proof fn law_latest_record_of_a_path(
    entries: Seq<UploadEntry>,
    path: Seq<char>,
    found: Option<CloudUploadRecord>,
    j: int,
)
    requires
        is_latest_record(entries, path, false, found),
        0 <= j < entries.len(),
        same_clip_path(entries[j].record.path@, path),
    ensures
        found is Some,
        found->0.updated_at_unix >= entries[j].record.updated_at_unix,
        same_clip_path(found->0.path@, path),
        exists|i: int|
            0 <= i < entries.len() && (#[trigger] entries[i]).record == found->0 && (
            entries[j].record.updated_at_unix == found->0.updated_at_unix ==> j <= i),
{
    assert(is_candidate(entries[j], path, false));
}

/// Among uploaded clips the same holds of the records with a remote clip and a status that begins
/// with `uploaded_`.
pub proof fn law_latest_uploaded_record_of_a_path(
    entries: Seq<UploadEntry>,
    path: Seq<char>,
    found: Option<CloudUploadRecord>,
    j: int,
    rest: Seq<char>,
)
    requires
        is_latest_record(entries, path, true, found),
        0 <= j < entries.len(),
        same_clip_path(entries[j].record.path@, path),
        entries[j].record.remote_clip_id is Some,
        entries[j].record.upload_status@ == "uploaded_"@ + rest,
    ensures
        found is Some,
        found->0.updated_at_unix >= entries[j].record.updated_at_unix,
        found->0.remote_clip_id is Some,
        found->0.upload_status@.len() >= 9 && found->0.upload_status@.take(9) == "uploaded_"@,
        same_clip_path(found->0.path@, path),
        exists|i: int| 0 <= i < entries.len() && (#[trigger] entries[i]).record == found->0,
{
    reveal_strlit("uploaded_");
    assert(entries[j].record.upload_status@.take(9) =~= "uploaded_"@);
    assert(is_uploaded(entries[j].record));
    assert(is_candidate(entries[j], path, true));
}

/// A text is meaningful where something is left of it without the white space round it.
pub proof fn law_meaningful_texts(text: Seq<char>)
    ensures
        meaningful(None) is None,
        trimmed(text).len() == 0 ==> meaningful(Some(text)) is None,
        trimmed(text).len() > 0 ==> meaningful(Some(text)) == Some(trimmed(text)),
{
}

/// A connection is that of the account that the server confirmed. The uploads stay known exactly
/// where server and user are those of before; the credential of before is cleaned up exactly where
/// another took its place.
pub proof fn law_connection_takes_the_account_over(
    before: CloudSettings,
    after: CloudSettings,
    account: ConfirmedAccount,
    target: Seq<char>,
    visibility: Seq<char>,
    old_target: Option<Seq<char>>,
)
    requires
        is_connected_as(before, after, account, target, visibility, old_target),
    ensures
        after.host_url@ == without_trailing(account.base_url@, '/'),
        after.public_url is Some && after.public_url->0@ == without_trailing(
            trimmed(account.public_url@),
            '/',
        ),
        after.connected_user_id is Some && after.connected_user_id->0@ == account.user_id@,
        after.connected_username is Some && after.connected_username->0@ == account.username@,
        after.credential_target is Some && after.credential_target->0@ == target,
        after.default_visibility@ == visibility,
        after.delete_local_after_upload == before.delete_local_after_upload,
        after.auto_upload_rules == before.auto_upload_rules,
        before.host_url@ == without_trailing(account.base_url@, '/') && before.connected_user_id is Some
            && before.connected_user_id->0@ == account.user_id@ ==> after.uploads@
            == before.uploads@,
        before.host_url@ != without_trailing(account.base_url@, '/') || before.connected_user_id is None
            || before.connected_user_id->0@ != account.user_id@ ==> after.uploads@.len() == 0,
        old_target is Some && old_target->0 != target ==> views(after.credential_cleanup_targets@)
            == views(before.credential_cleanup_targets@).push(old_target->0),
        old_target is None || old_target->0 == target ==> views(after.credential_cleanup_targets@)
            == views(before.credential_cleanup_targets@),
{
}

/// Exactly the targets that were not deleted are left.
pub proof fn law_deleted_targets_are_struck_off(
    targets: Seq<Seq<char>>,
    deleted: Seq<Seq<char>>,
    target: Seq<char>,
)
    ensures
        remaining_targets(targets, deleted).contains(target) <==> targets.contains(target)
            && !deleted.contains(target),
        (forall|i: int| 0 <= i < targets.len() ==> !deleted.contains(#[trigger] targets[i]))
            ==> remaining_targets(targets, deleted) == targets,
    decreases targets.len(),
{
    let keep = |target: Seq<char>| !deleted.contains(target);
    let left = targets.filter(keep);
    assert(left == remaining_targets(targets, deleted));
    reveal(Seq::filter);
    if targets.len() > 0 {
        let before = targets.drop_last();
        law_deleted_targets_are_struck_off(before, deleted, target);
        let kept = before.filter(keep);
        assert(kept == remaining_targets(before, deleted));
        assert(targets.contains(target) <==> before.contains(target) || targets.last() == target) by {
            if targets.contains(target) {
                let i = choose|i: int| 0 <= i < targets.len() && targets[i] == target;
                if i < before.len() {
                    assert(before[i] == target);
                }
            }
            if before.contains(target) {
                let i = choose|i: int| 0 <= i < before.len() && before[i] == target;
                assert(targets[i] == target);
            }
            if targets.last() == target {
                assert(targets[targets.len() - 1] == target);
            }
        }
        if keep(targets.last()) {
            assert(left == kept.push(targets.last()));
            assert(left.contains(target) <==> kept.contains(target) || targets.last() == target) by {
                if left.contains(target) {
                    let i = choose|i: int| 0 <= i < left.len() && left[i] == target;
                    if i < kept.len() {
                        assert(kept[i] == target);
                    }
                }
                if kept.contains(target) {
                    let i = choose|i: int| 0 <= i < kept.len() && kept[i] == target;
                    assert(left[i] == target);
                }
                if targets.last() == target {
                    assert(left[kept.len() as int] == target);
                }
            }
        }
        if forall|i: int| 0 <= i < targets.len() ==> !deleted.contains(#[trigger] targets[i]) {
            assert forall|i: int| 0 <= i < before.len() implies !deleted.contains(
                #[trigger] before[i],
            ) by {
                assert(before[i] == targets[i]);
            }
            assert(!deleted.contains(targets[targets.len() - 1]));
            assert(left =~= targets);
        }
    } else {
        assert(left =~= targets);
        assert(!targets.contains(target));
    }
}

/// The files of an account are cached under its user, else under its name, else under its
/// credential.
pub proof fn law_cache_identity_of_an_account(cloud: CloudSettings)
    ensures
        cloud.connected_user_id matches Some(user) ==> stable_account(cloud) == Some(user@),
        cloud.connected_user_id is None ==> (cloud.connected_username matches Some(name)
            ==> stable_account(cloud) == Some(name@)),
        cloud.connected_user_id is None && cloud.connected_username is None ==> (
        cloud.credential_target matches Some(target) ==> stable_account(cloud) == Some(target@)),
        stable_account(cloud) is None <==> cloud.connected_user_id is None
            && cloud.connected_username is None && cloud.credential_target is None,
{
}

/// Work, and files, are those of one account only where every part of what they were begun for is
/// the same.
pub proof fn law_fences_compare_every_part(
    a: CloudWorkToken,
    b: CloudWorkToken,
    c: CloudAccountFence,
    d: CloudAccountFence,
    window: WindowLifecycleSnapshot,
    before: WindowLifecycleSnapshot,
    after: WindowLifecycleSnapshot,
)
    ensures
        same_token(a, b) <==> a.attachment == b.attachment && a.foreground == b.foreground
            && a.request == b.request && a.account_key@ == b.account_key@ && a.account_generation
            == b.account_generation,
        same_fence(c, d) <==> c.account_key@ == d.account_key@ && c.account_generation
            == d.account_generation && c.cache_namespace@ == d.cache_namespace@,
        publication_is_current(c, window, before, d, after) <==> before == window && after == window
            && c.account_key@ == d.account_key@ && c.account_generation == d.account_generation
            && c.cache_namespace@ == d.cache_namespace@,
{
}

/// The size of a file is known beforehand where it is the clip itself and the server gave a
/// positive one.
pub proof fn law_known_sizes(request: CloudClipAssetRequest, bytes: u64)
    ensures
        expected_size(request, CloudAssetKind::Thumbnail) is None,
        expected_size(request, CloudAssetKind::Media) == Some(bytes) <==> bytes > 0
            && request.file_size_bytes is Some && request.file_size_bytes->0 == bytes,
{
}

/// A namespace of the cache is sixteen hexadecimal digits, in whatever case; an entry moves exactly
/// where it is a directory of such a name, no link, and not there yet.
pub proof fn law_namespaces_that_move(entry: LegacyCacheEntry)
    ensures
        entry_moves(entry) <==> {
            &&& entry.kind == Some((true, false))
            &&& !entry.destination_exists
            &&& entry.name@.len() == 16
            &&& forall|i: int|
                0 <= i < entry.name@.len() ==> {
                    let c = #[trigger] entry.name@[i];
                    '0' <= c <= '9' || 'a' <= c <= 'f' || 'A' <= c <= 'F'
                }
        },
{
}

/// A cached clip is shown under its title without the white space round it, with the ending of an
/// MP4 file behind it unless it has that, in whatever case; without a title under a stand-in.
pub proof fn law_cached_clip_has_its_title(title: Seq<char>)
    ensures
        ({
            let shown = trimmed(title);
            &&& shown.len() > 0 && has_suffix(ascii_lower(shown), ".mp4"@) ==> cached_clip_name(
                Some(title),
            ) == shown
            &&& shown.len() > 0 && !has_suffix(ascii_lower(shown), ".mp4"@) ==> cached_clip_name(
                Some(title),
            ) == shown + ".mp4"@
            &&& shown.len() == 0 ==> cached_clip_name(Some(title)) == "Cloud clip"@ + ".mp4"@
        }),
        cached_clip_name(None) == "Cloud clip"@ + ".mp4"@,
{
    reveal_strlit("Cloud clip");
    reveal_strlit(".mp4");
    let shown = "Cloud clip"@;
    assert(ascii_lower(shown).skip(6)[0] == 'c');
    assert(".mp4"@[0] == '.');
}

/// Three bytes are four characters of Base64: six bits each, from the high ones down, by their
/// places among the sixty-four.
pub proof fn law_base64_of_a_group(a: u8, b: u8, c: u8, rest: Seq<u8>)
    ensures
        ({
            let table = "ABCDEFGHIJKLMNOPQRSTUVWXYZabcdefghijklmnopqrstuvwxyz0123456789+/"@;
            let text = base64_text(seq![a, b, c] + rest);
            &&& text.len() >= 4
            &&& text[0] == table[a as int / 4]
            &&& text[1] == table[(a as int % 4) * 16 + b as int / 16]
            &&& text[2] == table[(b as int % 16) * 4 + c as int / 64]
            &&& text[3] == table[c as int % 64]
            &&& text.skip(4) == base64_text(rest)
        }),
{
    let all = seq![a, b, c] + rest;
    let text = base64_text(all);
    assert(all.skip(3) =~= rest);
    assert(all[0] == a && all[1] == b && all[2] == c);
    lemma_base64_char(a as nat / 4);
    lemma_base64_char((a as nat % 4) * 16 + b as nat / 16);
    lemma_base64_char((b as nat % 16) * 4 + c as nat / 64);
    lemma_base64_char(c as nat % 64);
    if rest.len() == 0 {
        assert(base64_text(rest) =~= Seq::<char>::empty());
    }
    assert(text.skip(4) =~= base64_text(rest));
}

/// One byte and two bytes at the end are filled up with zero bits, and the group with `=`.
pub proof fn law_base64_is_padded(a: u8, b: u8)
    ensures
        ({
            let table = "ABCDEFGHIJKLMNOPQRSTUVWXYZabcdefghijklmnopqrstuvwxyz0123456789+/"@;
            &&& base64_text(seq![a]) == seq![
                table[a as int / 4],
                table[(a as int % 4) * 16],
                '=',
                '=',
            ]
            &&& base64_text(seq![a, b]) == seq![
                table[a as int / 4],
                table[(a as int % 4) * 16 + b as int / 16],
                table[(b as int % 16) * 4],
                '=',
            ]
            &&& base64_text(Seq::empty()) == Seq::<char>::empty()
        }),
{
    lemma_base64_char(a as nat / 4);
    lemma_base64_char((a as nat % 4) * 16);
    lemma_base64_char((a as nat % 4) * 16 + b as nat / 16);
    lemma_base64_char((b as nat % 16) * 4);
}

proof fn lemma_base64_char(v: nat)
    requires
        v < 64,
    ensures
        base64_char(v) == "ABCDEFGHIJKLMNOPQRSTUVWXYZabcdefghijklmnopqrstuvwxyz0123456789+/"@[v as int],
{
    reveal_strlit("ABCDEFGHIJKLMNOPQRSTUVWXYZabcdefghijklmnopqrstuvwxyz0123456789+/");
}

/// A connection that meets no error asks the server in turn for its address, its public address, a
/// token and the user; stores what it said, cleans up, reads the account back, tells the uploads
/// and the windows, and ends without an error.
pub proof fn law_connection_is_made(
    c: CloudConnection,
    base_url: String,
    public_url: String,
    token: String,
    user: CloudUser,
    cleaned: Result<(), String>,
)
    requires
        c.phase is ReadingHost,
        c.failure is None,
    ensures
        ({
            let c1 = connect_after(c, ConnectAnswer::Text(Ok(base_url)));
            let c2 = connect_after(c1, ConnectAnswer::Text(Ok(public_url)));
            let c3 = connect_after(c2, ConnectAnswer::Text(Ok(token)));
            let c4 = connect_after(c3, ConnectAnswer::User(Ok(user)));
            let c5 = connect_after(c4, ConnectAnswer::Came(Ok(())));
            let c6 = connect_after(c5, ConnectAnswer::Came(cleaned));
            let c7 = connect_after(c6, ConnectAnswer::Came(Ok(())));
            let c8 = connect_after(c7, ConnectAnswer::Done);
            let c9 = connect_after(c8, ConnectAnswer::Came(Ok(())));
            &&& connect_action(c.phase) is ReadHost
            &&& connect_action(c1.phase) is Discover
            &&& connect_action(c2.phase) is CreateToken
            &&& connect_action(c3.phase) is ReadUser
            &&& connect_action(c4.phase) is Persist
            &&& connect_action(c5.phase) is CleanUp
            &&& connect_action(c6.phase) is ReadAccount
            &&& connect_action(c7.phase) is Announce
            &&& connect_action(c8.phase) is Publish
            &&& connect_action(c9.phase) is Stop
            &&& c4.base_url == Some(base_url)
            &&& c4.public_url == Some(public_url)
            &&& c4.token == Some(token)
            &&& c4.user == Some(user)
            &&& c9.failure is None
        }),
{
}

/// An error ends a connection and is its result, except one of the cleanup.
pub proof fn law_errors_end_a_connection(c: CloudConnection, error: String)
    requires
        c.failure is None,
        !(c.phase is Finished),
        !(c.phase is Announcing),
    ensures
        ({
            let answer = if c.phase is ReadingHost || c.phase is Discovering
                || c.phase is CreatingToken {
                ConnectAnswer::Text(Err(error))
            } else if c.phase is ReadingUser {
                ConnectAnswer::User(Err(error))
            } else {
                ConnectAnswer::Came(Err(error))
            };
            &&& connect_answer_fits(c.phase, answer)
            &&& c.phase !is CleaningUp ==> connect_after(c, answer).failure == Some(error)
                && connect_action(connect_after(c, answer).phase) is Stop
            &&& c.phase is CleaningUp ==> connect_after(c, answer).failure is None
                && connect_action(connect_after(c, answer).phase) is ReadAccount
        }),
{
}

/// The fence of an account bears its key, its generation and the namespace that was derived from
/// the server and the account; where none could be derived, there is none.
pub proof fn law_fence_bears_the_derived_namespace<
    D: FnOnce(&str, &str) -> Result<String, String>,
>(
    cloud: CloudSettings,
    generation: u64,
    account_key: Seq<char>,
    derive_namespace: D,
    res: Result<CloudAccountFence, String>,
)
    requires
        is_account_fence(cloud, generation, account_key, derive_namespace, res),
    ensures
        res matches Ok(fence) ==> {
            &&& fence.account_key@ == account_key
            &&& fence.account_generation == generation
            &&& exists|host: &str, account: &str| #[trigger]
                call_ensures(
                    derive_namespace,
                    (host, account),
                    Ok::<String, String>(fence.cache_namespace),
                ) && host@ == cloud.host_url@ && stable_account(cloud) == Some(account@)
        },
        res matches Err(error) ==> exists|host: &str, account: &str| #[trigger]
            call_ensures(derive_namespace, (host, account), Err::<String, String>(error)) && host@
                == cloud.host_url@ && stable_account(cloud) == Some(account@),
{
    let (host, account, namespace) = choose|
        host: &str,
        account: &str,
        namespace: Result<String, String>,
    |
        {
            &&& #[trigger] call_ensures(derive_namespace, (host, account), namespace)
            &&& host@ == cloud.host_url@
            &&& stable_account(cloud) == Some(account@)
            &&& match namespace {
                Ok(namespace) => res matches Ok(fence) && fence.account_key@ == account_key
                    && fence.account_generation == generation && fence.cache_namespace == namespace,
                Err(error) => res == Err::<CloudAccountFence, String>(error),
            }
        };
    if let Err(error) = res {
        assert(namespace == Err::<String, String>(error));
    }
}

/// Where a namespace could not be moved, those before it were, and the error names it.
pub proof fn law_failed_move_is_named<R: Fn(&str) -> Result<(), String>>(
    entries: Seq<LegacyCacheEntry>,
    rename: R,
    text: Seq<char>,
) -> (at: int)
    requires
        move_failed(entries, rename, text),
    ensures
        0 <= at < entries.len(),
        entry_moves(entries[at]),
        exists|name: &str, error: String| #[trigger]
            call_ensures(rename, (name,), Err::<(), String>(error)) && name@ == entries[at].name@
                && text == "migrate cloud cache namespace "@ + entries[at].name@ + ": "@ + error@,
        forall|k: int|
            0 <= k < at && entry_moves(#[trigger] entries[k]) ==> exists|name: &str| #[trigger]
                call_ensures(rename, (name,), Ok::<(), String>(())) && name@ == entries[k].name@,
{
    let at = choose|at: int| #[trigger] move_failed_at(entries, rename, at, text);
    let error = choose|error: String| #![trigger error@]
        move_came(rename, entries[at].name@, Some(error)) && text
            == "migrate cloud cache namespace "@ + entries[at].name@ + ": "@ + error@;
    lemma_move_came(rename, entries[at].name@, Some(error));
    assert forall|k: int|
        0 <= k < at && entry_moves(#[trigger] entries[k]) implies exists|name: &str| #[trigger]
        call_ensures(rename, (name,), Ok::<(), String>(())) && name@ == entries[k].name@ by {
        lemma_move_came(rename, entries[k].name@, None);
    }
    at
}

proof fn lemma_move_came<R: Fn(&str) -> Result<(), String>>(
    rename: R,
    name: Seq<char>,
    error: Option<String>,
)
    requires
        move_came(rename, name, error),
    ensures
        error is None ==> exists|text: &str| #[trigger]
            call_ensures(rename, (text,), Ok::<(), String>(())) && text@ == name,
        error is Some ==> exists|text: &str| #[trigger]
            call_ensures(rename, (text,), Err::<(), String>(error->0)) && text@ == name,
{
    let (text, outcome) = choose|text: &str, outcome: Result<(), String>| #[trigger]
        call_ensures(rename, (text,), outcome) && text@ == name && error == outcome.err();
    match outcome {
        Ok(unit) => {
            assert(outcome == Ok::<(), String>(()));
        },
        Err(e) => {
            assert(outcome == Err::<(), String>(error->0));
        },
    }
}

} // verus!
