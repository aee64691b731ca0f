//! Durable records of uploads: how they are read back, changed in one step, and kept while
//! an upload runs.

use crate::settings::{
    find_record, keys_ascend, record_under, CloudSettings, CloudUploadRecord, UploadEntry,
};
use crate::text::{
    ascii_lower, clone_opt, concat2, concat3, contains, decimal, decimal_string, has_substring,
    opt_str_view, str_eq, str_less, text_less, to_ascii_lowercase,
};
use vstd::prelude::*;

verus! {

// ---------------------------------------------------------------------------
// Records
// ---------------------------------------------------------------------------

#[derive(Debug, Clone, Copy, PartialEq, Eq, Structural)]
pub enum UploadRecordErrorKind {
    AccountChanged,
    Superseded,
    Contended,
    Persistence,
}

#[derive(Debug, PartialEq, Eq)]
pub struct UploadRecordError {
    pub kind: UploadRecordErrorKind,
    pub message: String,
}

fn record_error(kind: UploadRecordErrorKind, message: &str) -> (error: UploadRecordError)
    ensures
        error.kind == kind,
        error.message@ == message@,
{
    UploadRecordError { kind, message: message.to_owned() }
}

/// An error of a kind with a text.
pub open spec fn is_record_error(
    error: UploadRecordError,
    kind: UploadRecordErrorKind,
    message: Seq<char>,
) -> bool {
    error.kind == kind && error.message@ == message
}

#[derive(Debug, Clone, Copy, PartialEq, Eq, Structural)]
pub enum UploadPhase {
    Queued,
    Uploading,
    Processing,
    Abandoned,
    Completed,
    Failed,
    Canceled,
}

/// The account that an upload belongs to.
#[derive(Debug, PartialEq, Eq)]
pub struct UploadAccountOwner {
    pub account_key: String,
    pub account_generation: u64,
}

pub open spec fn same_owner(a: UploadAccountOwner, b: UploadAccountOwner) -> bool {
    a.account_key@ == b.account_key@ && a.account_generation == b.account_generation
}

impl UploadAccountOwner {
    pub fn same(&self, other: &UploadAccountOwner) -> (r: bool)
        ensures
            r == same_owner(*self, *other),
    {
        str_eq(self.account_key.as_str(), other.account_key.as_str()) && self.account_generation
            == other.account_generation
    }
}

/// What an upload is known by. Generation zero stands for a record from before uploads were
/// numbered.
#[derive(Debug, PartialEq, Eq)]
pub struct DurableUploadToken {
    pub account_key: String,
    pub account_generation: u64,
    pub upload_generation: u64,
    pub local_clip_id: String,
    pub source_path: String,
}

impl Clone for DurableUploadToken {
    fn clone(&self) -> (r: Self)
        ensures
            r == *self,
    {
        DurableUploadToken {
            account_key: self.account_key.clone(),
            account_generation: self.account_generation,
            upload_generation: self.upload_generation,
            local_clip_id: self.local_clip_id.clone(),
            source_path: self.source_path.clone(),
        }
    }
}

pub open spec fn same_token(a: DurableUploadToken, b: DurableUploadToken) -> bool {
    &&& same_slot(a, b)
    &&& a.upload_generation == b.upload_generation
    &&& a.source_path@ == b.source_path@
}

/// Two uploads of one clip for one account.
pub open spec fn same_slot(a: DurableUploadToken, b: DurableUploadToken) -> bool {
    &&& a.account_key@ == b.account_key@
    &&& a.account_generation == b.account_generation
    &&& a.local_clip_id@ == b.local_clip_id@
}

impl DurableUploadToken {
    pub fn same(&self, other: &DurableUploadToken) -> (r: bool)
        ensures
            r == same_token(*self, *other),
    {
        self.shares_slot(other) && self.upload_generation == other.upload_generation && str_eq(
            self.source_path.as_str(),
            other.source_path.as_str(),
        )
    }

    pub fn shares_slot(&self, other: &DurableUploadToken) -> (r: bool)
        ensures
            r == same_slot(*self, *other),
    {
        str_eq(self.account_key.as_str(), other.account_key.as_str()) && self.account_generation
            == other.account_generation && str_eq(
            self.local_clip_id.as_str(),
            other.local_clip_id.as_str(),
        )
    }

    /// The account that the upload belongs to.
    pub fn owner(&self) -> (owner: UploadAccountOwner)
        ensures
            owner == (UploadAccountOwner {
                account_key: self.account_key,
                account_generation: self.account_generation,
            }),
    {
        UploadAccountOwner {
            account_key: self.account_key.clone(),
            account_generation: self.account_generation,
        }
    }
}

/// An upload. The counters and the deletion of the local clip are known only while it runs.
#[derive(Debug, PartialEq, Eq)]
pub struct UploadRecord {
    pub token: DurableUploadToken,
    pub client_clip_id: Option<String>,
    pub path: String,
    pub visibility: String,
    pub phase: UploadPhase,
    /// Whether nothing follows the phase.
    pub terminal: bool,
    pub upload_status: String,
    pub received_size_bytes: u64,
    pub file_size_bytes: u64,
    pub remote_clip_id: Option<String>,
    pub remote_url: Option<String>,
    pub error: Option<String>,
    pub local_deleted: bool,
    pub updated_at_unix: u64,
}

impl Clone for UploadRecord {
    fn clone(&self) -> (r: Self)
        ensures
            r == *self,
    {
        UploadRecord {
            token: self.token.clone(),
            client_clip_id: clone_opt(&self.client_clip_id),
            path: self.path.clone(),
            visibility: self.visibility.clone(),
            phase: self.phase,
            terminal: self.terminal,
            upload_status: self.upload_status.clone(),
            received_size_bytes: self.received_size_bytes,
            file_size_bytes: self.file_size_bytes,
            remote_clip_id: clone_opt(&self.remote_clip_id),
            remote_url: clone_opt(&self.remote_url),
            error: clone_opt(&self.error),
            local_deleted: self.local_deleted,
            updated_at_unix: self.updated_at_unix,
        }
    }
}

/// What of an upload is saved, before it is brought into its normal form.
pub open spec fn projected(record: UploadRecord) -> CloudUploadRecord {
    CloudUploadRecord {
        local_clip_id: record.token.local_clip_id,
        client_clip_id: record.client_clip_id,
        upload_generation: if record.token.upload_generation != 0 {
            Some(record.token.upload_generation)
        } else {
            None
        },
        path: record.path,
        remote_clip_id: record.remote_clip_id,
        remote_url: record.remote_url,
        visibility: record.visibility,
        upload_status: record.upload_status,
        error: record.error,
        updated_at_unix: record.updated_at_unix,
    }
}

/// What of an upload is saved. A record without a number stays without one. `normalize` brings
/// the record into its normal form.
pub fn cloud_record_from_upload<N>(record: &UploadRecord, normalize: N) -> (durable:
    CloudUploadRecord) where N: FnOnce(CloudUploadRecord) -> CloudUploadRecord
    requires
        call_requires(normalize, (projected(*record),)),
    ensures
        call_ensures(normalize, (projected(*record),), durable),
{
    let durable = CloudUploadRecord {
        local_clip_id: record.token.local_clip_id.clone(),
        client_clip_id: clone_opt(&record.client_clip_id),
        upload_generation: if record.token.upload_generation != 0 {
            Some(record.token.upload_generation)
        } else {
            None
        },
        path: record.path.clone(),
        remote_clip_id: clone_opt(&record.remote_clip_id),
        remote_url: clone_opt(&record.remote_url),
        visibility: record.visibility.clone(),
        upload_status: record.upload_status.clone(),
        error: clone_opt(&record.error),
        updated_at_unix: record.updated_at_unix,
    };
    assert(durable == projected(*record));
    normalize(durable)
}

// ---------------------------------------------------------------------------
// Reading a record back
// ---------------------------------------------------------------------------

/// How `{:?}` writes a text.
pub uninterp spec fn debug_text(text: Seq<char>) -> Seq<char>;

/// The `Debug` form of a `str`, by `std::format!`: quoted, with what cannot be printed
/// escaped. Which characters those are is left unsaid.
#[verifier::external_body]
fn debug_quoted(text: &str) -> (quoted: String)
    ensures
        quoted@ == debug_text(text@),
{
    format!("{text:?}")
}

/// The phase that a saved status stands for after a restart. An upload that was being
/// followed counts as abandoned, never as running.
pub open spec fn persisted_phase(status: Seq<char>) -> Option<UploadPhase> {
    if status == "queued"@ || status == "retrying"@ {
        Some(UploadPhase::Queued)
    } else if status == "uploading"@ {
        Some(UploadPhase::Uploading)
    } else if status == "processing"@ {
        Some(UploadPhase::Processing)
    } else if status == "uploaded_processing"@ {
        Some(UploadPhase::Abandoned)
    } else if status == "uploaded_private"@ || status == "uploaded_public"@ {
        Some(UploadPhase::Completed)
    } else if status == "failed"@ {
        Some(UploadPhase::Failed)
    } else if status == "canceled"@ {
        Some(UploadPhase::Canceled)
    } else {
        None
    }
}

pub fn phase_for_persisted_status(status: &str) -> (res: Result<UploadPhase, UploadRecordError>)
    ensures
        match res {
            Ok(phase) => persisted_phase(status@) == Some(phase),
            Err(error) => persisted_phase(status@) is None && is_record_error(
                error,
                UploadRecordErrorKind::Persistence,
                "durable upload status "@ + debug_text(status@) + " cannot be reloaded"@,
            ),
        },
{
    if str_eq(status, "queued") || str_eq(status, "retrying") {
        Ok(UploadPhase::Queued)
    } else if str_eq(status, "uploading") {
        Ok(UploadPhase::Uploading)
    } else if str_eq(status, "processing") {
        Ok(UploadPhase::Processing)
    } else if str_eq(status, "uploaded_processing") {
        Ok(UploadPhase::Abandoned)
    } else if str_eq(status, "uploaded_private") || str_eq(status, "uploaded_public") {
        Ok(UploadPhase::Completed)
    } else if str_eq(status, "failed") {
        Ok(UploadPhase::Failed)
    } else if str_eq(status, "canceled") {
        Ok(UploadPhase::Canceled)
    } else {
        let quoted = debug_quoted(status);
        let message = concat3("durable upload status ", quoted.as_str(), " cannot be reloaded");
        Err(UploadRecordError { kind: UploadRecordErrorKind::Persistence, message })
    }
}

/// `record` is what a saved record is read back as.
pub open spec fn is_reloaded(
    record: UploadRecord,
    owner: UploadAccountOwner,
    durable: CloudUploadRecord,
    source_path: Seq<char>,
    terminal: bool,
) -> bool {
    &&& record.token.account_key == owner.account_key
    &&& record.token.account_generation == owner.account_generation
    &&& record.token.upload_generation == match durable.upload_generation {
        Some(generation) => generation,
        None => 0,
    }
    &&& record.token.local_clip_id == durable.local_clip_id
    &&& record.token.source_path@ == source_path
    &&& record.client_clip_id == durable.client_clip_id
    &&& record.path == durable.path
    &&& record.visibility == durable.visibility
    &&& Some(record.phase) == persisted_phase(durable.upload_status@)
    &&& record.terminal == terminal
    &&& record.upload_status == durable.upload_status
    &&& record.received_size_bytes == 0
    &&& record.file_size_bytes == 0
    &&& record.remote_clip_id == durable.remote_clip_id
    &&& record.remote_url == durable.remote_url
    &&& record.error == durable.error
    &&& !record.local_deleted
    &&& record.updated_at_unix == durable.updated_at_unix
}

/// Reads a saved record back. `identifiers` fails where one of its identifiers is not
/// valid, `source_path` is the identity of its path, and `terminal` whether nothing follows
/// the phase that its status stands for.
pub fn reload_record(
    owner: &UploadAccountOwner,
    durable: &CloudUploadRecord,
    identifiers: Result<(), String>,
    source_path: Option<String>,
    terminal: bool,
) -> (res: Result<UploadRecord, UploadRecordError>)
    ensures
        match identifiers {
            Err(text) => res is Err && is_record_error(
                res->Err_0,
                UploadRecordErrorKind::Persistence,
                text@,
            ),
            Ok(_) => match source_path {
                None => res is Err && is_record_error(
                    res->Err_0,
                    UploadRecordErrorKind::Persistence,
                    "durable upload record has an invalid source path"@,
                ),
                Some(path) => match res {
                    Ok(record) => is_reloaded(record, *owner, *durable, path@, terminal),
                    Err(error) => persisted_phase(durable.upload_status@) is None
                        && is_record_error(
                        error,
                        UploadRecordErrorKind::Persistence,
                        "durable upload status "@ + debug_text(durable.upload_status@)
                            + " cannot be reloaded"@,
                    ),
                },
            },
        },
{
    if let Err(text) = identifiers {
        return Err(UploadRecordError { kind: UploadRecordErrorKind::Persistence, message: text });
    }
    let source_path = match source_path {
        Some(path) => path,
        None => return Err(
            record_error(
                UploadRecordErrorKind::Persistence,
                "durable upload record has an invalid source path",
            ),
        ),
    };
    let phase = match phase_for_persisted_status(durable.upload_status.as_str()) {
        Ok(phase) => phase,
        Err(error) => return Err(error),
    };
    Ok(
        UploadRecord {
            token: DurableUploadToken {
                account_key: owner.account_key.clone(),
                account_generation: owner.account_generation,
                upload_generation: match durable.upload_generation {
                    Some(generation) => generation,
                    None => 0,
                },
                local_clip_id: durable.local_clip_id.clone(),
                source_path,
            },
            client_clip_id: clone_opt(&durable.client_clip_id),
            path: durable.path.clone(),
            visibility: durable.visibility.clone(),
            phase,
            terminal,
            upload_status: durable.upload_status.clone(),
            received_size_bytes: 0,
            file_size_bytes: 0,
            remote_clip_id: clone_opt(&durable.remote_clip_id),
            remote_url: clone_opt(&durable.remote_url),
            error: clone_opt(&durable.error),
            local_deleted: false,
            updated_at_unix: durable.updated_at_unix,
        },
    )
}

/// What was saved is read back and saved again unchanged, with or without a number.
pub proof fn law_reload_keeps_what_was_saved(
    record: UploadRecord,
    owner: UploadAccountOwner,
    durable: CloudUploadRecord,
    source_path: Seq<char>,
    terminal: bool,
)
    requires
        is_reloaded(record, owner, durable, source_path, terminal),
        durable.upload_generation != Some(0u64),
    ensures
        projected(record) == durable,
{
}

/// Whether what is in its normal form stays as it is, and no normal form has the number zero.
pub open spec fn keeps_normal_forms<N: FnOnce(CloudUploadRecord) -> CloudUploadRecord>(
    normalize: N,
) -> bool {
    &&& forall|record: CloudUploadRecord, normal: CloudUploadRecord, again: CloudUploadRecord|
        #[trigger]
        call_ensures(normalize, (record,), normal) && #[trigger] call_ensures(
            normalize,
            (normal,),
            again,
        ) ==> again == normal
    &&& forall|record: UploadRecord, normal: CloudUploadRecord| #[trigger]
        call_ensures(normalize, (projected(record),), normal) ==> normal.upload_generation != Some(
            0u64,
        )
}

/// What is saved of an upload, read back and saved again, is the same, whatever the upload
/// held besides: a missing number stays missing. What is not saved is read back as nothing,
/// and the owner is the one that reads. This rests on a normal form staying as it is.
pub proof fn law_saved_upload_survives_a_reload<
    N: FnOnce(CloudUploadRecord) -> CloudUploadRecord,
>(
    live: UploadRecord,
    normalize: N,
    durable: CloudUploadRecord,
    owner: UploadAccountOwner,
    source_path: Seq<char>,
    terminal: bool,
    reloaded: UploadRecord,
    again: CloudUploadRecord,
)
    requires
        keeps_normal_forms(normalize),
        call_ensures(normalize, (projected(live),), durable),
        is_reloaded(reloaded, owner, durable, source_path, terminal),
        call_ensures(normalize, (projected(reloaded),), again),
    ensures
        again == durable,
        reloaded.token.account_key == owner.account_key,
        reloaded.token.account_generation == owner.account_generation,
        reloaded.received_size_bytes == 0,
        reloaded.file_size_bytes == 0,
        !reloaded.local_deleted,
        Some(reloaded.phase) == persisted_phase(durable.upload_status@),
{
    law_reload_keeps_what_was_saved(reloaded, owner, durable, source_path, terminal);
}

// ---------------------------------------------------------------------------
// The account
// ---------------------------------------------------------------------------

/// The settings at one moment, as far as uploads go.
#[derive(Debug, PartialEq, Eq)]
pub struct SettingsSnapshot {
    pub cloud: CloudSettings,
    pub revision: u64,
    pub account_generation: u64,
}

/// The account of the settings. `connected` is whether they name one, `key` what its fields
/// give.
pub fn upload_owner_from_snapshot(
    snapshot: &SettingsSnapshot,
    connected: bool,
    key: Result<String, String>,
) -> (res: Result<UploadAccountOwner, UploadRecordError>)
    ensures
        if !connected {
            res is Err && is_record_error(
                res->Err_0,
                UploadRecordErrorKind::AccountChanged,
                "Clipline Cloud is not connected"@,
            )
        } else {
            match key {
                Ok(key) => res == Ok::<UploadAccountOwner, UploadRecordError>(
                    UploadAccountOwner {
                        account_key: key,
                        account_generation: snapshot.account_generation,
                    },
                ),
                Err(text) => res is Err && is_record_error(
                    res->Err_0,
                    UploadRecordErrorKind::Persistence,
                    text@,
                ),
            }
        },
{
    if !connected {
        return Err(
            record_error(UploadRecordErrorKind::AccountChanged, "Clipline Cloud is not connected"),
        );
    }
    match key {
        Ok(account_key) => Ok(
            UploadAccountOwner { account_key, account_generation: snapshot.account_generation },
        ),
        Err(message) => Err(
            UploadRecordError { kind: UploadRecordErrorKind::Persistence, message },
        ),
    }
}

/// The settings still belong to the account that an upload was started for. `current` is the
/// account of the settings.
pub fn ensure_snapshot_owner(
    current: Result<UploadAccountOwner, UploadRecordError>,
    expected: &UploadAccountOwner,
) -> (res: Result<(), UploadRecordError>)
    ensures
        match current {
            Err(error) => res == Err::<(), UploadRecordError>(error),
            Ok(current) => match res {
                Ok(_) => same_owner(current, *expected),
                Err(error) => !same_owner(current, *expected) && is_record_error(
                    error,
                    UploadRecordErrorKind::AccountChanged,
                    "cloud account changed while upload state was in flight"@,
                ),
            },
        },
{
    match current {
        Err(error) => Err(error),
        Ok(current) => if current.same(expected) {
            Ok(())
        } else {
            Err(
                record_error(
                    UploadRecordErrorKind::AccountChanged,
                    "cloud account changed while upload state was in flight",
                ),
            )
        },
    }
}

/// Whether the settings belong to the account that an upload was started for.
pub fn is_current_owner(
    current: &Result<UploadAccountOwner, UploadRecordError>,
    owner: &UploadAccountOwner,
) -> (r: bool)
    ensures
        r == match current {
            Ok(current) => same_owner(*current, *owner),
            Err(_) => false,
        },
{
    match current {
        Ok(current) => current.same(owner),
        Err(_) => false,
    }
}

/// A change of a record keeps what the upload is known by.
pub fn ensure_same_upload(
    expected: &DurableUploadToken,
    replacement: &DurableUploadToken,
) -> (res: Result<(), UploadRecordError>)
    ensures
        match res {
            Ok(_) => same_token(*expected, *replacement),
            Err(error) => !same_token(*expected, *replacement) && is_record_error(
                error,
                UploadRecordErrorKind::Superseded,
                "upload record replacement changed its durable owner"@,
            ),
        },
{
    if expected.same(replacement) {
        Ok(())
    } else {
        Err(
            record_error(
                UploadRecordErrorKind::Superseded,
                "upload record replacement changed its durable owner",
            ),
        )
    }
}

/// The kind of an error that saving the settings gave, by its text.
pub open spec fn settings_error_kind(text: Seq<char>) -> UploadRecordErrorKind {
    let lower = ascii_lower(text);
    if has_substring(lower, "account changed"@) || has_substring(
        lower,
        "cloud account generation"@,
    ) {
        UploadRecordErrorKind::AccountChanged
    } else if has_substring(lower, "stale cloud record"@) {
        UploadRecordErrorKind::Superseded
    } else if has_substring(lower, "stale settings revision"@) || has_substring(
        lower,
        "contended"@,
    ) {
        UploadRecordErrorKind::Contended
    } else {
        UploadRecordErrorKind::Persistence
    }
}

pub fn classify_settings_error(error: String) -> (r: UploadRecordError)
    ensures
        r.kind == settings_error_kind(error@),
        r.message == error,
{
    let lower = to_ascii_lowercase(error.as_str());
    let text = lower.as_str();
    let kind = if contains(text, "account changed") || contains(text, "cloud account generation") {
        UploadRecordErrorKind::AccountChanged
    } else if contains(text, "stale cloud record") {
        UploadRecordErrorKind::Superseded
    } else if contains(text, "stale settings revision") || contains(text, "contended") {
        UploadRecordErrorKind::Contended
    } else {
        UploadRecordErrorKind::Persistence
    };
    UploadRecordError { kind, message: error }
}

// ---------------------------------------------------------------------------
// Entries at one path
// ---------------------------------------------------------------------------

/// Whether two paths may be taken as the same, or as different.
pub open spec fn paths_seen<E: Fn(&str, &str) -> bool>(
    equivalent: E,
    left: Seq<char>,
    right: Seq<char>,
    same: bool,
) -> bool {
    exists|a: &str, b: &str| #[trigger]
        call_ensures(equivalent, (a, b), same) && a@ == left && b@ == right
}

/// Whether the path of an entry is, or is not, that of a record or its former one.
pub open spec fn alias_seen<E: Fn(&str, &str) -> bool>(
    equivalent: E,
    path: Seq<char>,
    replacement_path: Seq<char>,
    prior_path: Option<Seq<char>>,
    alias: bool,
) -> bool {
    if alias {
        paths_seen(equivalent, path, replacement_path, true) || prior_path is Some && paths_seen(
            equivalent,
            path,
            prior_path->0,
            true,
        )
    } else {
        paths_seen(equivalent, path, replacement_path, false) && (prior_path is Some
            ==> paths_seen(equivalent, path, prior_path->0, false))
    }
}

/// Whether these say of each entry whether its path is that of a record or its former one.
pub open spec fn are_path_aliases<E: Fn(&str, &str) -> bool>(
    entries: Seq<UploadEntry>,
    replacement_path: Seq<char>,
    prior_path: Option<Seq<char>>,
    equivalent: E,
    aliases: Seq<bool>,
) -> bool {
    &&& aliases.len() == entries.len()
    &&& forall|i: int|
        0 <= i < entries.len() ==> alias_seen(
            equivalent,
            entries[i].record.path@,
            replacement_path,
            prior_path,
            #[trigger] aliases[i],
        )
}

/// Whether the path of an entry may be compared with a path.
pub open spec fn compares_paths<E: Fn(&str, &str) -> bool>(
    entries: Seq<UploadEntry>,
    equivalent: E,
    path: Seq<char>,
) -> bool {
    forall|i: int, a: &str, b: &str|
        #![trigger entries[i], call_requires(equivalent, (a, b))]
        0 <= i < entries.len() && a@ == entries[i].record.path@ && b@ == path ==> call_requires(
            equivalent,
            (a, b),
        )
}

fn paths_equal<E: Fn(&str, &str) -> bool>(left: &str, right: &str, equivalent: &E) -> (same: bool)
    requires
        call_requires(*equivalent, (left, right)),
    ensures
        paths_seen(*equivalent, left@, right@, same),
{
    let same = equivalent(left, right);
    assert(call_ensures(*equivalent, (left, right), same));
    same
}

/// Which entries are at the path of a record, or at its former one. `equivalent` tells whether
/// two paths are of one file.
pub fn path_aliases<E: Fn(&str, &str) -> bool>(
    cloud: &CloudSettings,
    replacement_path: &str,
    prior_path: Option<&str>,
    equivalent: &E,
) -> (aliases: Vec<bool>)
    requires
        compares_paths(cloud.uploads@, *equivalent, replacement_path@),
        prior_path is Some ==> compares_paths(cloud.uploads@, *equivalent, prior_path->0@),
    ensures
        are_path_aliases(
            cloud.uploads@,
            replacement_path@,
            opt_str_view(prior_path),
            *equivalent,
            aliases@,
        ),
{
    let mut aliases: Vec<bool> = Vec::new();
    let mut i: usize = 0;
    while i < cloud.uploads.len()
        invariant
            i <= cloud.uploads@.len(),
            aliases@.len() == i,
            compares_paths(cloud.uploads@, *equivalent, replacement_path@),
            prior_path is Some ==> compares_paths(cloud.uploads@, *equivalent, prior_path->0@),
            forall|k: int|
                0 <= k < i ==> alias_seen(
                    *equivalent,
                    cloud.uploads@[k].record.path@,
                    replacement_path@,
                    opt_str_view(prior_path),
                    #[trigger] aliases@[k],
                ),
        decreases cloud.uploads@.len() - i,
    {
        let path = cloud.uploads[i].record.path.as_str();
        assert(path@ == cloud.uploads@[i as int].record.path@);
        let mut alias = paths_equal(path, replacement_path, equivalent);
        if !alias {
            if let Some(prior) = prior_path {
                alias = paths_equal(path, prior, equivalent);
            }
        }
        aliases.push(alias);
        i += 1;
    }
    aliases
}

/// Which entries are of the source of a clip: at its path, or at one that `is_source` takes
/// for the same file.
pub fn source_aliases<E: Fn(&str, &str) -> bool, I: Fn(&str) -> bool>(
    cloud: &CloudSettings,
    source_path: &str,
    equivalent: &E,
    is_source: &I,
) -> (aliases: Vec<bool>)
    requires
        compares_paths(cloud.uploads@, *equivalent, source_path@),
        forall|i: int, a: &str|
            #![trigger cloud.uploads@[i], call_requires(*is_source, (a,))]
            0 <= i < cloud.uploads@.len() && a@ == cloud.uploads@[i].record.path@ ==> call_requires(
                *is_source,
                (a,),
            ),
    ensures
        are_source_aliases(cloud.uploads@, source_path@, *equivalent, *is_source, aliases@),
{
    let mut aliases: Vec<bool> = Vec::new();
    let mut i: usize = 0;
    while i < cloud.uploads.len()
        invariant
            i <= cloud.uploads@.len(),
            aliases@.len() == i,
            compares_paths(cloud.uploads@, *equivalent, source_path@),
            forall|i: int, a: &str|
                #![trigger cloud.uploads@[i], call_requires(*is_source, (a,))]
                0 <= i < cloud.uploads@.len() && a@ == cloud.uploads@[i].record.path@
                    ==> call_requires(*is_source, (a,)),
            forall|k: int|
                0 <= k < i ==> source_seen(
                    *equivalent,
                    *is_source,
                    cloud.uploads@[k].record.path@,
                    source_path@,
                    #[trigger] aliases@[k],
                ),
        decreases cloud.uploads@.len() - i,
    {
        let path = cloud.uploads[i].record.path.as_str();
        assert(path@ == cloud.uploads@[i as int].record.path@);
        let mut alias = paths_equal(path, source_path, equivalent);
        if !alias {
            alias = is_source(path);
            assert(call_ensures(*is_source, (path,), alias));
            assert(file_seen(*is_source, path@, alias));
        }
        aliases.push(alias);
        i += 1;
    }
    aliases
}

/// Whether a path may be taken for that of the source, or not.
pub open spec fn file_seen<I: Fn(&str) -> bool>(is_source: I, path: Seq<char>, same: bool) -> bool {
    exists|a: &str| #[trigger] call_ensures(is_source, (a,), same) && a@ == path
}

/// Whether an entry is, or is not, of the source of a clip.
pub open spec fn source_seen<E: Fn(&str, &str) -> bool, I: Fn(&str) -> bool>(
    equivalent: E,
    is_source: I,
    path: Seq<char>,
    source_path: Seq<char>,
    alias: bool,
) -> bool {
    if alias {
        paths_seen(equivalent, path, source_path, true) || file_seen(is_source, path, true)
    } else {
        paths_seen(equivalent, path, source_path, false) && file_seen(is_source, path, false)
    }
}

/// Whether these say of each entry whether it is of the source of a clip.
pub open spec fn are_source_aliases<E: Fn(&str, &str) -> bool, I: Fn(&str) -> bool>(
    entries: Seq<UploadEntry>,
    source_path: Seq<char>,
    equivalent: E,
    is_source: I,
    aliases: Seq<bool>,
) -> bool {
    &&& aliases.len() == entries.len()
    &&& forall|i: int|
        0 <= i < entries.len() ==> source_seen(
            equivalent,
            is_source,
            entries[i].record.path@,
            source_path,
            #[trigger] aliases[i],
        )
}

// ---------------------------------------------------------------------------
// Numbers of uploads
// ---------------------------------------------------------------------------

/// Whether an entry is of a clip: under its key, with its identifier, or at its path.
/// `alias` is whether its path is the same.
pub open spec fn concerns_clip(entry: UploadEntry, local_clip_id: Seq<char>, alias: bool) -> bool {
    entry.key@ == local_clip_id || entry.record.local_clip_id@ == local_clip_id || alias
}

/// The largest number among the entries of a clip; zero where none has one.
pub open spec fn largest_generation(
    entries: Seq<UploadEntry>,
    local_clip_id: Seq<char>,
    aliases: Seq<bool>,
) -> u64
    decreases entries.len(),
{
    if entries.len() == 0 {
        0
    } else {
        let before = largest_generation(
            entries.drop_last(),
            local_clip_id,
            aliases.take(entries.len() - 1),
        );
        let last = entries.last();
        if concerns_clip(last, local_clip_id, aliases[entries.len() - 1])
            && last.record.upload_generation is Some && last.record.upload_generation->0 > before {
            last.record.upload_generation->0
        } else {
            before
        }
    }
}

/// Whether this is the number of the next upload of a clip, where `aliases` says of each entry
/// whether it is of the same file.
pub open spec fn is_next_generation(
    entries: Seq<UploadEntry>,
    local_clip_id: Seq<char>,
    aliases: Seq<bool>,
    res: Result<u64, UploadRecordError>,
) -> bool {
    let largest = largest_generation(entries, local_clip_id, aliases);
    match res {
        Ok(generation) => generation == largest + 1,
        Err(error) => largest == u64::MAX && is_record_error(
            error,
            UploadRecordErrorKind::Persistence,
            "durable upload generation is exhausted"@,
        ),
    }
}

/// The number of the next upload of a clip: larger than that of every entry of the clip or of
/// its file. `equivalent` and `is_source` are those of `source_aliases`.
pub fn next_generation<E: Fn(&str, &str) -> bool, I: Fn(&str) -> bool>(
    cloud: &CloudSettings,
    local_clip_id: &str,
    source_path: &str,
    equivalent: &E,
    is_source: &I,
) -> (res: Result<u64, UploadRecordError>)
    requires
        compares_paths(cloud.uploads@, *equivalent, source_path@),
        forall|i: int, a: &str|
            #![trigger cloud.uploads@[i], call_requires(*is_source, (a,))]
            0 <= i < cloud.uploads@.len() && a@ == cloud.uploads@[i].record.path@ ==> call_requires(
                *is_source,
                (a,),
            ),
    ensures
        exists|aliases: Seq<bool>| #[trigger]
            are_source_aliases(cloud.uploads@, source_path@, *equivalent, *is_source, aliases)
                && is_next_generation(cloud.uploads@, local_clip_id@, aliases, res),
{
    let aliases = source_aliases(cloud, source_path, equivalent, is_source);
    next_generation_with(cloud, local_clip_id, &aliases)
}

fn next_generation_with(cloud: &CloudSettings, local_clip_id: &str, aliases: &Vec<bool>) -> (
    res: Result<u64, UploadRecordError>)
    requires
        aliases@.len() == cloud.uploads@.len(),
    ensures
        is_next_generation(cloud.uploads@, local_clip_id@, aliases@, res),
{
    let mut largest: u64 = 0;
    let mut i: usize = 0;
    while i < cloud.uploads.len()
        invariant
            i <= cloud.uploads@.len() == aliases@.len(),
            largest == largest_generation(
                cloud.uploads@.take(i as int),
                local_clip_id@,
                aliases@.take(i as int),
            ),
        decreases cloud.uploads@.len() - i,
    {
        proof {
            assert(cloud.uploads@.take(i + 1).drop_last() =~= cloud.uploads@.take(i as int));
            assert(aliases@.take(i + 1).take(i as int) =~= aliases@.take(i as int));
        }
        let entry = &cloud.uploads[i];
        if str_eq(entry.key.as_str(), local_clip_id) || str_eq(
            entry.record.local_clip_id.as_str(),
            local_clip_id,
        ) || aliases[i] {
            if let Some(generation) = entry.record.upload_generation {
                if generation > largest {
                    largest = generation;
                }
            }
        }
        i += 1;
    }
    proof {
        assert(cloud.uploads@.take(i as int) =~= cloud.uploads@);
        assert(aliases@.take(i as int) =~= aliases@);
    }
    if largest == u64::MAX {
        return Err(
            record_error(
                UploadRecordErrorKind::Persistence,
                "durable upload generation is exhausted",
            ),
        );
    }
    Ok(largest + 1)
}

/// A new number is larger than that of every entry of the clip.
pub proof fn law_next_generation_is_fresh(
    entries: Seq<UploadEntry>,
    local_clip_id: Seq<char>,
    aliases: Seq<bool>,
    i: int,
)
    requires
        aliases.len() == entries.len(),
        0 <= i < entries.len(),
        concerns_clip(entries[i], local_clip_id, aliases[i]),
        entries[i].record.upload_generation is Some,
    ensures
        entries[i].record.upload_generation->0 < largest_generation(
            entries,
            local_clip_id,
            aliases,
        ) + 1,
    decreases entries.len(),
{
    if i < entries.len() - 1 {
        law_next_generation_is_fresh(
            entries.drop_last(),
            local_clip_id,
            aliases.take(entries.len() - 1),
            i,
        );
    }
}

// ---------------------------------------------------------------------------
// Changes in one step
// ---------------------------------------------------------------------------

/// One place in the saved records: what is expected there, or what is put there.
#[derive(Debug, PartialEq, Eq)]
pub struct CloudRecordSlot {
    pub key: String,
    pub record: Option<CloudUploadRecord>,
}

#[allow(inconsistent_fields)]
#[derive(Debug, Clone, Copy, PartialEq, Eq, Structural)]
pub enum CloudRecordCasKind {
    Admit { upload_generation: u64 },
    Advance { upload_generation: u64 },
    StatusSync,
}

/// The account that a change is for, by the fields of the settings that make it up.
#[derive(Debug, PartialEq, Eq)]
pub struct CloudAccountIdentity {
    pub host_url: String,
    pub connected_user_id: Option<String>,
    pub credential_target: Option<String>,
}

impl CloudAccountIdentity {
    pub fn from_settings(cloud: &CloudSettings) -> (identity: Self)
        ensures
            identity == identity_of(*cloud),
    {
        CloudAccountIdentity {
            host_url: cloud.host_url.clone(),
            connected_user_id: clone_opt(&cloud.connected_user_id),
            credential_target: clone_opt(&cloud.credential_target),
        }
    }
}

pub open spec fn identity_of(cloud: CloudSettings) -> CloudAccountIdentity {
    CloudAccountIdentity {
        host_url: cloud.host_url,
        connected_user_id: cloud.connected_user_id,
        credential_target: cloud.credential_target,
    }
}

/// A change of the saved records that takes place only where they are as expected.
#[derive(Debug, PartialEq, Eq)]
pub struct CloudRecordCas {
    pub account: CloudAccountIdentity,
    pub account_generation: u64,
    pub kind: CloudRecordCasKind,
    pub expected: Vec<CloudRecordSlot>,
    pub replacement: Option<CloudRecordSlot>,
}

/// Slots in the order of their keys, no key twice.
pub open spec fn slots_ascend(slots: Seq<CloudRecordSlot>) -> bool {
    forall|i: int, j: int|
        0 <= i < j < slots.len() ==> text_less(
            (#[trigger] slots[i]).key@,
            (#[trigger] slots[j]).key@,
        )
}

/// Whether an entry takes part in a change: that of the clip, and those at the same path.
pub open spec fn takes_part(entry: UploadEntry, stable_key: Seq<char>, alias: bool) -> bool {
    entry.key@ == stable_key || alias
}

/// The slot that expects an entry as it is.
pub open spec fn slot_of(entry: UploadEntry) -> CloudRecordSlot {
    CloudRecordSlot { key: entry.key, record: Some(entry.record) }
}

/// Whether an entry stands under a key.
pub open spec fn has_key(entries: Seq<UploadEntry>, key: Seq<char>) -> bool {
    exists|i: int| 0 <= i < entries.len() && (#[trigger] entries[i]).key@ == key
}

/// How many entries take part.
pub open spec fn count_parts(
    entries: Seq<UploadEntry>,
    stable_key: Seq<char>,
    aliases: Seq<bool>,
) -> nat
    decreases entries.len(),
{
    if entries.len() == 0 {
        0
    } else {
        count_parts(entries.drop_last(), stable_key, aliases.take(entries.len() - 1)) + if takes_part(
            entries.last(),
            stable_key,
            aliases[entries.len() - 1],
        ) {
            1nat
        } else {
            0
        }
    }
}

/// `slots` are exactly those that a change expects: the entries that take part, and that the
/// place of the clip is free where there is no entry for it.
pub open spec fn are_expected_slots(
    slots: Seq<CloudRecordSlot>,
    entries: Seq<UploadEntry>,
    stable_key: Seq<char>,
    aliases: Seq<bool>,
) -> bool {
    &&& slots_ascend(slots)
    &&& slots.len() == count_parts(entries, stable_key, aliases) + if has_key(entries, stable_key) {
        0nat
    } else {
        1nat
    }
    &&& forall|i: int|
        0 <= i < entries.len() && takes_part(#[trigger] entries[i], stable_key, aliases[i])
            ==> slots.contains(slot_of(entries[i]))
    &&& forall|j: int|
        0 <= j < slots.len() ==> {
            ||| (#[trigger] slots[j]).record is None && slots[j].key@ == stable_key && !has_key(
                entries,
                stable_key,
            )
            ||| exists|i: int|
                0 <= i < entries.len() && takes_part(#[trigger] entries[i], stable_key, aliases[i])
                    && slots[j] == slot_of(entries[i])
        }
}

/// Slots of entries that take part, in order, as far as the `i`-th.
spec fn gathered(
    slots: Seq<CloudRecordSlot>,
    entries: Seq<UploadEntry>,
    stable_key: Seq<char>,
    aliases: Seq<bool>,
    upto: int,
) -> bool {
    &&& slots.len() == count_parts(entries.take(upto), stable_key, aliases.take(upto))
    &&& slots_ascend(slots)
    &&& forall|i: int|
        0 <= i < upto && takes_part(#[trigger] entries[i], stable_key, aliases[i])
            ==> slots.contains(slot_of(entries[i]))
    &&& forall|j: int|
        0 <= j < slots.len() ==> exists|i: int|
            0 <= i < upto && takes_part(#[trigger] entries[i], stable_key, aliases[i])
                && (#[trigger] slots[j]) == slot_of(entries[i])
}

proof fn lemma_gather(
    slots: Seq<CloudRecordSlot>,
    entries: Seq<UploadEntry>,
    stable_key: Seq<char>,
    aliases: Seq<bool>,
    upto: int,
)
    requires
        keys_ascend(entries),
        0 <= upto < entries.len() == aliases.len(),
        gathered(slots, entries, stable_key, aliases, upto),
    ensures
        takes_part(entries[upto], stable_key, aliases[upto]) ==> gathered(
            slots.push(slot_of(entries[upto])),
            entries,
            stable_key,
            aliases,
            upto + 1,
        ),
        !takes_part(entries[upto], stable_key, aliases[upto]) ==> gathered(
            slots,
            entries,
            stable_key,
            aliases,
            upto + 1,
        ),
{
    assert(entries.take(upto + 1).drop_last() =~= entries.take(upto));
    assert(aliases.take(upto + 1).take(upto) =~= aliases.take(upto));
    let next = slots.push(slot_of(entries[upto]));
    if takes_part(entries[upto], stable_key, aliases[upto]) {
        assert forall|i: int, j: int| 0 <= i < j < next.len() implies text_less(
            (#[trigger] next[i]).key@,
            (#[trigger] next[j]).key@,
        ) by {
            if j == slots.len() {
                let k = choose|k: int|
                    0 <= k < upto && takes_part(#[trigger] entries[k], stable_key, aliases[k])
                        && slots[i] == slot_of(entries[k]);
                assert(next[i] == slots[i]);
                assert(text_less(entries[k].key@, entries[upto].key@));
            } else {
                assert(next[i] == slots[i] && next[j] == slots[j]);
            }
        }
        assert forall|i: int|
            0 <= i < upto + 1 && takes_part(
                #[trigger] entries[i],
                stable_key,
                aliases[i],
            ) implies next.contains(slot_of(entries[i])) by {
            if i < upto {
                let k = choose|k: int| 0 <= k < slots.len() && slots[k] == slot_of(entries[i]);
                assert(next[k] == slot_of(entries[i]));
            } else {
                assert(next[slots.len() as int] == slot_of(entries[i]));
            }
        }
        assert forall|j: int| 0 <= j < next.len() implies exists|i: int|
            0 <= i < upto + 1 && takes_part(#[trigger] entries[i], stable_key, aliases[i])
                && (#[trigger] next[j]) == slot_of(entries[i]) by {
            if j < slots.len() {
                let k = choose|k: int|
                    0 <= k < upto && takes_part(#[trigger] entries[k], stable_key, aliases[k])
                        && slots[j] == slot_of(entries[k]);
                assert(takes_part(entries[k], stable_key, aliases[k]) && next[j] == slot_of(
                    entries[k],
                ));
            } else {
                assert(takes_part(entries[upto], stable_key, aliases[upto]) && next[j] == slot_of(
                    entries[upto],
                ));
            }
        }
    } else {
        assert forall|j: int| 0 <= j < slots.len() implies exists|i: int|
            0 <= i < upto + 1 && takes_part(#[trigger] entries[i], stable_key, aliases[i])
                && (#[trigger] slots[j]) == slot_of(entries[i]) by {
            let k = choose|k: int|
                0 <= k < upto && takes_part(#[trigger] entries[k], stable_key, aliases[k])
                    && slots[j] == slot_of(entries[k]);
            assert(takes_part(entries[k], stable_key, aliases[k]) && slots[j] == slot_of(
                entries[k],
            ));
        }
    }
}

/// The slots of the entries that take part.
fn gather_slots(cloud: &CloudSettings, stable_key: &str, aliases: &Vec<bool>) -> (slots: Vec<
    CloudRecordSlot,
>)
    requires
        cloud.wf(),
        aliases@.len() == cloud.uploads@.len(),
    ensures
        gathered(slots@, cloud.uploads@, stable_key@, aliases@, cloud.uploads@.len() as int),
{
    let mut slots: Vec<CloudRecordSlot> = Vec::new();
    let mut i: usize = 0;
    while i < cloud.uploads.len()
        invariant
            i <= cloud.uploads@.len() == aliases@.len(),
            cloud.wf(),
            gathered(slots@, cloud.uploads@, stable_key@, aliases@, i as int),
        decreases cloud.uploads@.len() - i,
    {
        proof {
            lemma_gather(slots@, cloud.uploads@, stable_key@, aliases@, i as int);
        }
        let entry = &cloud.uploads[i];
        if str_eq(entry.key.as_str(), stable_key) || aliases[i] {
            slots.push(
                CloudRecordSlot { key: entry.key.clone(), record: Some(entry.record.clone()) },
            );
        }
        i += 1;
    }
    slots
}

/// Slots without one for the clip become those that a change expects once its free place is
/// put where its key belongs.
proof fn lemma_place_free_slot(
    slots: Seq<CloudRecordSlot>,
    entries: Seq<UploadEntry>,
    stable_key: Seq<char>,
    aliases: Seq<bool>,
    at: int,
    free: CloudRecordSlot,
)
    requires
        aliases.len() == entries.len(),
        gathered(slots, entries, stable_key, aliases, entries.len() as int),
        !has_key(entries, stable_key),
        free.key@ == stable_key,
        free.record is None,
        0 <= at <= slots.len(),
        forall|i: int| 0 <= i < at ==> text_less((#[trigger] slots[i]).key@, stable_key),
        at < slots.len() ==> !text_less(slots[at].key@, stable_key),
    ensures
        are_expected_slots(slots.insert(at, free), entries, stable_key, aliases),
{
    let out = slots.insert(at, free);
    assert(entries.take(entries.len() as int) =~= entries);
    assert(aliases.take(entries.len() as int) =~= aliases);
    assert forall|i: int| at <= i < slots.len() implies text_less(
        stable_key,
        (#[trigger] slots[i]).key@,
    ) by {
        let k = choose|k: int|
            0 <= k < entries.len() && takes_part(#[trigger] entries[k], stable_key, aliases[k])
                && slots[i] == slot_of(entries[k]);
        assert(entries[k].key@ != stable_key);
        crate::text::lemma_text_less_total(slots[at].key@, stable_key);
        let m = choose|m: int|
            0 <= m < entries.len() && takes_part(#[trigger] entries[m], stable_key, aliases[m])
                && slots[at] == slot_of(entries[m]);
        assert(entries[m].key@ != stable_key);
        if i > at {
            crate::text::lemma_text_less_transitive(
                stable_key,
                slots[at].key@,
                slots[i].key@,
            );
        }
    }
    assert forall|i: int, j: int| 0 <= i < j < out.len() implies text_less(
        (#[trigger] out[i]).key@,
        (#[trigger] out[j]).key@,
    ) by {
        let a = if i < at {
            i
        } else {
            i - 1
        };
        let b = if j < at {
            j
        } else {
            j - 1
        };
        if i == at {
            assert(out[j] == slots[b]);
        } else if j == at {
            assert(out[i] == slots[i]);
        } else {
            assert(out[i] == slots[a] && out[j] == slots[b]);
        }
    }
    assert forall|i: int|
        0 <= i < entries.len() && takes_part(
            #[trigger] entries[i],
            stable_key,
            aliases[i],
        ) implies out.contains(slot_of(entries[i])) by {
        let k = choose|k: int| 0 <= k < slots.len() && slots[k] == slot_of(entries[i]);
        if k < at {
            assert(out[k] == slots[k]);
        } else {
            assert(out[k + 1] == slots[k]);
        }
    }
    assert forall|j: int| 0 <= j < out.len() implies {
        ||| (#[trigger] out[j]).record is None && out[j].key@ == stable_key && !has_key(
            entries,
            stable_key,
        )
        ||| exists|i: int|
            0 <= i < entries.len() && takes_part(#[trigger] entries[i], stable_key, aliases[i])
                && out[j] == slot_of(entries[i])
    } by {
        if j != at {
            let k = if j < at {
                j
            } else {
                j - 1
            };
            assert(out[j] == slots[k]);
            let i = choose|i: int|
                0 <= i < entries.len() && takes_part(#[trigger] entries[i], stable_key, aliases[i])
                    && slots[k] == slot_of(entries[i]);
            assert(takes_part(entries[i], stable_key, aliases[i]) && out[j] == slot_of(entries[i]));
        }
    }
}

fn key_taken(entries: &Vec<UploadEntry>, key: &str) -> (r: bool)
    ensures
        r == has_key(entries@, key@),
{
    let mut i: usize = 0;
    while i < entries.len()
        invariant
            i <= entries@.len(),
            forall|k: int| 0 <= k < i ==> (#[trigger] entries@[k]).key@ != key@,
        decreases entries@.len() - i,
    {
        if str_eq(entries[i].key.as_str(), key) {
            assert(entries@[i as int].key@ == key@);
            return true;
        }
        i += 1;
    }
    false
}

/// Why a change cannot be stated: the record of the clip is missing where it must be there,
/// or too many entries take part.
pub open spec fn slots_error(
    error: UploadRecordError,
    entries: Seq<UploadEntry>,
    stable_key: Seq<char>,
    aliases: Seq<bool>,
    include_absent: bool,
    max_slots: usize,
) -> bool {
    if !has_key(entries, stable_key) && !include_absent {
        is_record_error(
            error,
            UploadRecordErrorKind::Superseded,
            "durable upload record is missing"@,
        )
    } else {
        let count = count_parts(entries, stable_key, aliases) + if has_key(entries, stable_key) {
            0nat
        } else {
            1nat
        };
        count > max_slots && is_record_error(
            error,
            UploadRecordErrorKind::Persistence,
            "upload path has "@ + decimal(count) + " durable aliases; maximum is "@ + decimal(
                max_slots as nat,
            ),
        )
    }
}

/// The slots that a change of the record under `stable_key` expects. `aliases` says of each
/// entry whether its path is the same; at most `max_slots` may take part.
pub fn reconciled_slots(
    cloud: &CloudSettings,
    stable_key: &str,
    aliases: &Vec<bool>,
    include_absent_stable: bool,
    max_slots: usize,
) -> (res: Result<Vec<CloudRecordSlot>, UploadRecordError>)
    requires
        cloud.wf(),
        aliases@.len() == cloud.uploads@.len(),
        cloud.uploads@.len() < usize::MAX,
    ensures
        match res {
            Ok(slots) => {
                &&& has_key(cloud.uploads@, stable_key@) || include_absent_stable
                &&& slots@.len() <= max_slots
                &&& are_expected_slots(slots@, cloud.uploads@, stable_key@, aliases@)
            },
            Err(error) => slots_error(
                error,
                cloud.uploads@,
                stable_key@,
                aliases@,
                include_absent_stable,
                max_slots,
            ),
        },
{
    let mut slots = gather_slots(cloud, stable_key, aliases);
    proof {
        assert(cloud.uploads@.take(cloud.uploads@.len() as int) =~= cloud.uploads@);
        assert(aliases@.take(cloud.uploads@.len() as int) =~= aliases@);
    }
    if !key_taken(&cloud.uploads, stable_key) {
        if !include_absent_stable {
            return Err(
                record_error(
                    UploadRecordErrorKind::Superseded,
                    "durable upload record is missing",
                ),
            );
        }
        let mut at: usize = 0;
        while at < slots.len() && str_less(slots[at].key.as_str(), stable_key)
            invariant
                at <= slots@.len(),
                forall|i: int| 0 <= i < at ==> text_less((#[trigger] slots@[i]).key@, stable_key@),
            decreases slots@.len() - at,
        {
            at += 1;
        }
        let free = CloudRecordSlot { key: stable_key.to_owned(), record: None };
        proof {
            lemma_place_free_slot(
                slots@,
                cloud.uploads@,
                stable_key@,
                aliases@,
                at as int,
                free,
            );
        }
        slots.insert(at, free);
    }
    if slots.len() > max_slots {
        let count = decimal_string(slots.len() as u64);
        let most = decimal_string(max_slots as u64);
        let head = concat3(
            "upload path has ",
            count.as_str(),
            " durable aliases; maximum is ",
        );
        let message = concat2(head.as_str(), most.as_str());
        return Err(UploadRecordError { kind: UploadRecordErrorKind::Persistence, message });
    }
    Ok(slots)
}

/// Whether every slot has a smaller number than `generation`, or none.
pub open spec fn outnumbers(generation: u64, slots: Seq<CloudRecordSlot>) -> bool {
    generation > 0 && forall|i: int|
        0 <= i < slots.len() && (#[trigger] slots[i]).record is Some
            && slots[i].record->0.upload_generation is Some
            ==> slots[i].record->0.upload_generation->0 < generation
}

/// What comes of admitting an upload, where `aliases` says of each entry whether its path is
/// the same.
pub open spec fn is_admission(
    snapshot: SettingsSnapshot,
    token: DurableUploadToken,
    replacement: CloudUploadRecord,
    aliases: Seq<bool>,
    max_slots: usize,
    res: Result<CloudRecordCas, UploadRecordError>,
) -> bool {
    match res {
        Ok(cas) => {
            &&& cas.account == identity_of(snapshot.cloud)
            &&& cas.account_generation == snapshot.account_generation
            &&& cas.kind == CloudRecordCasKind::Admit {
                upload_generation: token.upload_generation,
            }
            &&& cas.expected@.len() <= max_slots
            &&& are_expected_slots(
                cas.expected@,
                snapshot.cloud.uploads@,
                token.local_clip_id@,
                aliases,
            )
            &&& outnumbers(token.upload_generation, cas.expected@)
            &&& cas.replacement == Some(
                CloudRecordSlot { key: token.local_clip_id, record: Some(replacement) },
            )
        },
        Err(error) => {
            ||| slots_error(
                error,
                snapshot.cloud.uploads@,
                token.local_clip_id@,
                aliases,
                true,
                max_slots,
            )
            ||| exists|slots: Seq<CloudRecordSlot>|
                #![trigger outnumbers(token.upload_generation, slots)]
                are_expected_slots(
                    slots,
                    snapshot.cloud.uploads@,
                    token.local_clip_id@,
                    aliases,
                ) && !outnumbers(token.upload_generation, slots) && is_record_error(
                    error,
                    UploadRecordErrorKind::Contended,
                    "a newer durable upload generation appeared before admission"@,
                )
        },
    }
}

fn admit_with(
    snapshot: &SettingsSnapshot,
    token: &DurableUploadToken,
    replacement: CloudUploadRecord,
    aliases: &Vec<bool>,
    max_slots: usize,
) -> (res: Result<CloudRecordCas, UploadRecordError>)
    requires
        snapshot.cloud.wf(),
        aliases@.len() == snapshot.cloud.uploads@.len(),
        snapshot.cloud.uploads@.len() < usize::MAX,
    ensures
        is_admission(
            *snapshot,
            *token,
            replacement,
            aliases@,
            max_slots,
            res,
        ),
{
    let stable_key = token.local_clip_id.as_str();
    let expected = match reconciled_slots(&snapshot.cloud, stable_key, aliases, true, max_slots) {
        Ok(expected) => expected,
        Err(error) => return Err(error),
    };
    if !slots_outnumbered(token.upload_generation, &expected) {
        assert(!outnumbers(token.upload_generation, expected@));
        return Err(
            record_error(
                UploadRecordErrorKind::Contended,
                "a newer durable upload generation appeared before admission",
            ),
        );
    }
    Ok(
        CloudRecordCas {
            account: CloudAccountIdentity::from_settings(&snapshot.cloud),
            account_generation: snapshot.account_generation,
            kind: CloudRecordCasKind::Admit { upload_generation: token.upload_generation },
            expected,
            replacement: Some(
                CloudRecordSlot { key: token.local_clip_id.clone(), record: Some(replacement) },
            ),
        },
    )
}

fn slots_outnumbered(generation: u64, slots: &Vec<CloudRecordSlot>) -> (r: bool)
    ensures
        r == outnumbers(generation, slots@),
{
    if generation == 0 {
        return false;
    }
    let mut i: usize = 0;
    while i < slots.len()
        invariant
            i <= slots@.len(),
            forall|k: int|
                0 <= k < i && (#[trigger] slots@[k]).record is Some
                    && slots@[k].record->0.upload_generation is Some
                    ==> slots@[k].record->0.upload_generation->0 < generation,
        decreases slots@.len() - i,
    {
        if let Some(record) = &slots[i].record {
            if let Some(taken) = record.upload_generation {
                if taken >= generation {
                    assert(slots@[i as int].record->0.upload_generation->0 >= generation);
                    return false;
                }
            }
        }
        i += 1;
    }
    true
}

/// Whether the record under a key is as expected.
pub open spec fn is_as_expected(
    cloud: CloudSettings,
    key: Seq<char>,
    expected: CloudUploadRecord,
) -> bool {
    record_under(cloud.uploads@, key) is Some && record_under(cloud.uploads@, key)->0@ == expected@
}

fn as_expected(cloud: &CloudSettings, key: &str, expected: &CloudUploadRecord) -> (r: bool)
    ensures
        r == is_as_expected(*cloud, key@, *expected),
{
    match find_record(&cloud.uploads, key) {
        Some(current) => current.same(expected),
        None => false,
    }
}

/// What comes of taking an upload to its next state, where `aliases` says of each entry
/// whether its path is the same.
pub open spec fn is_transition(
    snapshot: SettingsSnapshot,
    expected: UploadRecord,
    expected_durable: CloudUploadRecord,
    replacement_generation: u64,
    replacement_durable: CloudUploadRecord,
    aliases: Seq<bool>,
    max_slots: usize,
    res: Result<CloudRecordCas, UploadRecordError>,
) -> bool {
    match res {
        Ok(cas) => {
            &&& is_as_expected(
                snapshot.cloud,
                expected.token.local_clip_id@,
                expected_durable,
            )
            &&& cas.account == identity_of(snapshot.cloud)
            &&& cas.account_generation == snapshot.account_generation
            &&& cas.kind == if expected.token.upload_generation == 0 || expected.terminal {
                CloudRecordCasKind::StatusSync
            } else {
                CloudRecordCasKind::Advance { upload_generation: replacement_generation }
            }
            &&& cas.expected@.len() <= max_slots
            &&& are_expected_slots(
                cas.expected@,
                snapshot.cloud.uploads@,
                expected.token.local_clip_id@,
                aliases,
            )
            &&& cas.replacement == Some(
                CloudRecordSlot {
                    key: expected.token.local_clip_id,
                    record: Some(replacement_durable),
                },
            )
        },
        Err(error) => if !is_as_expected(
            snapshot.cloud,
            expected.token.local_clip_id@,
            expected_durable,
        ) {
            is_record_error(
                error,
                UploadRecordErrorKind::Superseded,
                "durable upload record changed before compare-and-swap"@,
            )
        } else {
            slots_error(
                error,
                snapshot.cloud.uploads@,
                expected.token.local_clip_id@,
                aliases,
                false,
                max_slots,
            )
        },
    }
}

fn advance_with(
    snapshot: &SettingsSnapshot,
    expected: &UploadRecord,
    expected_durable: &CloudUploadRecord,
    replacement_generation: u64,
    replacement_durable: CloudUploadRecord,
    aliases: &Vec<bool>,
    max_slots: usize,
) -> (res: Result<CloudRecordCas, UploadRecordError>)
    requires
        snapshot.cloud.wf(),
        aliases@.len() == snapshot.cloud.uploads@.len(),
        snapshot.cloud.uploads@.len() < usize::MAX,
    ensures
        is_transition(
            *snapshot,
            *expected,
            *expected_durable,
            replacement_generation,
            replacement_durable,
            aliases@,
            max_slots,
            res,
        ),
{
    let stable_key = expected.token.local_clip_id.as_str();
    if !as_expected(&snapshot.cloud, stable_key, expected_durable) {
        return Err(
            record_error(
                UploadRecordErrorKind::Superseded,
                "durable upload record changed before compare-and-swap",
            ),
        );
    }
    let slots = match reconciled_slots(&snapshot.cloud, stable_key, aliases, false, max_slots) {
        Ok(slots) => slots,
        Err(error) => return Err(error),
    };
    let kind = if expected.token.upload_generation == 0 || expected.terminal {
        CloudRecordCasKind::StatusSync
    } else {
        CloudRecordCasKind::Advance { upload_generation: replacement_generation }
    };
    Ok(
        CloudRecordCas {
            account: CloudAccountIdentity::from_settings(&snapshot.cloud),
            account_generation: snapshot.account_generation,
            kind,
            expected: slots,
            replacement: Some(
                CloudRecordSlot {
                    key: expected.token.local_clip_id.clone(),
                    record: Some(replacement_durable),
                },
            ),
        },
    )
}

/// What comes of removing an upload, where `aliases` says of each entry whether its path is the
/// same.
pub open spec fn is_removal(
    snapshot: SettingsSnapshot,
    expected: UploadRecord,
    expected_durable: CloudUploadRecord,
    aliases: Seq<bool>,
    max_slots: usize,
    res: Result<CloudRecordCas, UploadRecordError>,
) -> bool {
    match res {
        Ok(cas) => {
            &&& is_as_expected(
                snapshot.cloud,
                expected.token.local_clip_id@,
                expected_durable,
            )
            &&& cas.account == identity_of(snapshot.cloud)
            &&& cas.account_generation == snapshot.account_generation
            &&& cas.kind == CloudRecordCasKind::StatusSync
            &&& cas.expected@.len() <= max_slots
            &&& are_expected_slots(
                cas.expected@,
                snapshot.cloud.uploads@,
                expected.token.local_clip_id@,
                aliases,
            )
            &&& cas.replacement is None
        },
        Err(error) => if !is_as_expected(
            snapshot.cloud,
            expected.token.local_clip_id@,
            expected_durable,
        ) {
            is_record_error(
                error,
                UploadRecordErrorKind::Superseded,
                "durable upload record changed before exact removal"@,
            )
        } else {
            slots_error(
                error,
                snapshot.cloud.uploads@,
                expected.token.local_clip_id@,
                aliases,
                false,
                max_slots,
            )
        },
    }
}

fn remove_with(
    snapshot: &SettingsSnapshot,
    expected: &UploadRecord,
    expected_durable: &CloudUploadRecord,
    aliases: &Vec<bool>,
    max_slots: usize,
) -> (res: Result<CloudRecordCas, UploadRecordError>)
    requires
        snapshot.cloud.wf(),
        aliases@.len() == snapshot.cloud.uploads@.len(),
        snapshot.cloud.uploads@.len() < usize::MAX,
    ensures
        is_removal(
            *snapshot,
            *expected,
            *expected_durable,
            aliases@,
            max_slots,
            res,
        ),
{
    let stable_key = expected.token.local_clip_id.as_str();
    if !as_expected(&snapshot.cloud, stable_key, expected_durable) {
        return Err(
            record_error(
                UploadRecordErrorKind::Superseded,
                "durable upload record changed before exact removal",
            ),
        );
    }
    let slots = match reconciled_slots(&snapshot.cloud, stable_key, aliases, false, max_slots) {
        Ok(slots) => slots,
        Err(error) => return Err(error),
    };
    Ok(
        CloudRecordCas {
            account: CloudAccountIdentity::from_settings(&snapshot.cloud),
            account_generation: snapshot.account_generation,
            kind: CloudRecordCasKind::StatusSync,
            expected: slots,
            replacement: None,
        },
    )
}

/// The change that admits an upload: its record takes the place of every entry at its path,
/// unless one of them has a number that is not smaller. `replacement` is what of it is saved,
/// `equivalent` tells whether two paths are of one file.
pub fn admission_cas<E: Fn(&str, &str) -> bool>(
    snapshot: &SettingsSnapshot,
    record: &UploadRecord,
    replacement: CloudUploadRecord,
    equivalent: &E,
    max_slots: usize,
) -> (res: Result<CloudRecordCas, UploadRecordError>)
    requires
        snapshot.cloud.wf(),
        snapshot.cloud.uploads@.len() < usize::MAX,
        compares_paths(snapshot.cloud.uploads@, *equivalent, record.path@),
    ensures
        exists|aliases: Seq<bool>| #[trigger]
            are_path_aliases(
                snapshot.cloud.uploads@,
                record.path@,
                None,
                *equivalent,
                aliases,
            ) && is_admission(*snapshot, record.token, replacement, aliases, max_slots, res),
{
    let aliases = path_aliases(&snapshot.cloud, record.path.as_str(), None, equivalent);
    admit_with(snapshot, &record.token, replacement, &aliases, max_slots)
}

/// The change that takes an upload from one state to the next, with every entry at its path or
/// its former one. `expected_durable` and `replacement_durable` are what of the two is saved,
/// `equivalent` tells whether two paths are of one file. An upload that has ended, or was never
/// numbered, only has its status brought up to date.
pub fn transition_cas<E: Fn(&str, &str) -> bool>(
    snapshot: &SettingsSnapshot,
    expected: &UploadRecord,
    expected_durable: &CloudUploadRecord,
    replacement: &UploadRecord,
    replacement_durable: CloudUploadRecord,
    equivalent: &E,
    max_slots: usize,
) -> (res: Result<CloudRecordCas, UploadRecordError>)
    requires
        snapshot.cloud.wf(),
        snapshot.cloud.uploads@.len() < usize::MAX,
        compares_paths(snapshot.cloud.uploads@, *equivalent, replacement.path@),
        compares_paths(snapshot.cloud.uploads@, *equivalent, expected.path@),
    ensures
        exists|aliases: Seq<bool>| #[trigger]
            are_path_aliases(
                snapshot.cloud.uploads@,
                replacement.path@,
                Some(expected.path@),
                *equivalent,
                aliases,
            ) && is_transition(
                *snapshot,
                *expected,
                *expected_durable,
                replacement.token.upload_generation,
                replacement_durable,
                aliases,
                max_slots,
                res,
            ),
{
    let aliases = path_aliases(
        &snapshot.cloud,
        replacement.path.as_str(),
        Some(expected.path.as_str()),
        equivalent,
    );
    advance_with(
        snapshot,
        expected,
        expected_durable,
        replacement.token.upload_generation,
        replacement_durable,
        &aliases,
        max_slots,
    )
}

/// The change that removes an upload with every entry at its path. `equivalent` tells whether
/// two paths are of one file.
pub fn removal_cas<E: Fn(&str, &str) -> bool>(
    snapshot: &SettingsSnapshot,
    expected: &UploadRecord,
    expected_durable: &CloudUploadRecord,
    equivalent: &E,
    max_slots: usize,
) -> (res: Result<CloudRecordCas, UploadRecordError>)
    requires
        snapshot.cloud.wf(),
        snapshot.cloud.uploads@.len() < usize::MAX,
        compares_paths(snapshot.cloud.uploads@, *equivalent, expected.path@),
    ensures
        exists|aliases: Seq<bool>| #[trigger]
            are_path_aliases(
                snapshot.cloud.uploads@,
                expected.path@,
                Some(expected.path@),
                *equivalent,
                aliases,
            ) && is_removal(*snapshot, *expected, *expected_durable, aliases, max_slots, res),
{
    let aliases = path_aliases(
        &snapshot.cloud,
        expected.path.as_str(),
        Some(expected.path.as_str()),
        equivalent,
    );
    remove_with(snapshot, expected, expected_durable, &aliases, max_slots)
}

/// A change always accounts for the place of its clip: for the entry that is there, or for
/// its being free.
pub proof fn law_change_accounts_for_its_clip(
    slots: Seq<CloudRecordSlot>,
    entries: Seq<UploadEntry>,
    stable_key: Seq<char>,
    aliases: Seq<bool>,
)
    requires
        aliases.len() == entries.len(),
        keys_ascend(entries),
        are_expected_slots(slots, entries, stable_key, aliases),
    ensures
        exists|j: int|
            0 <= j < slots.len() && (#[trigger] slots[j]).key@ == stable_key && (slots[j].record
                is None <==> !has_key(entries, stable_key)),
{
    if has_key(entries, stable_key) {
        let i = choose|i: int| 0 <= i < entries.len() && (#[trigger] entries[i]).key@ == stable_key;
        assert(takes_part(entries[i], stable_key, aliases[i]));
        let j = choose|j: int| 0 <= j < slots.len() && slots[j] == slot_of(entries[i]);
        assert(slots[j].key@ == stable_key && slots[j].record is Some);
    } else {
        if forall|j: int| 0 <= j < slots.len() ==> (#[trigger] slots[j]).record is Some {
            lemma_no_more_than_parts(slots, entries, stable_key, aliases);
            assert(false);
        }
    }
}

/// Slots with ascending keys that are all of entries that take part are no more than those.
proof fn lemma_no_more_than_parts(
    slots: Seq<CloudRecordSlot>,
    entries: Seq<UploadEntry>,
    stable_key: Seq<char>,
    aliases: Seq<bool>,
)
    requires
        aliases.len() == entries.len(),
        keys_ascend(entries),
        slots_ascend(slots),
        forall|j: int|
            0 <= j < slots.len() ==> exists|i: int|
                0 <= i < entries.len() && takes_part(#[trigger] entries[i], stable_key, aliases[i])
                    && (#[trigger] slots[j]) == slot_of(entries[i]),
    ensures
        slots.len() <= count_parts(entries, stable_key, aliases),
    decreases entries.len(),
{
    if slots.len() > 0 {
        let last = entries.len() - 1;
        let shorter = entries.drop_last();
        let fewer = aliases.take(last);
        let top = slots.last();
        let i = choose|i: int|
            0 <= i < entries.len() && takes_part(#[trigger] entries[i], stable_key, aliases[i])
                && slots[slots.len() - 1] == slot_of(entries[i]);
        if i == last {
            let rest = slots.drop_last();
            assert forall|j: int| 0 <= j < rest.len() implies exists|k: int|
                0 <= k < shorter.len() && takes_part(#[trigger] shorter[k], stable_key, fewer[k])
                    && (#[trigger] rest[j]) == slot_of(shorter[k]) by {
                let k = choose|k: int|
                    0 <= k < entries.len() && takes_part(
                        #[trigger] entries[k],
                        stable_key,
                        aliases[k],
                    ) && slots[j] == slot_of(entries[k]);
                assert(text_less(slots[j].key@, slots[slots.len() - 1].key@));
                if k == last {
                    crate::text::lemma_text_less_total(
                        slots[j].key@,
                        slots[slots.len() - 1].key@,
                    );
                }
                assert(shorter[k] == entries[k] && fewer[k] == aliases[k]);
                assert(takes_part(shorter[k], stable_key, fewer[k]) && rest[j] == slot_of(
                    shorter[k],
                ));
            }
            lemma_no_more_than_parts(rest, shorter, stable_key, fewer);
        } else {
            assert forall|j: int| 0 <= j < slots.len() implies exists|k: int|
                0 <= k < shorter.len() && takes_part(#[trigger] shorter[k], stable_key, fewer[k])
                    && (#[trigger] slots[j]) == slot_of(shorter[k]) by {
                let k = choose|k: int|
                    0 <= k < entries.len() && takes_part(
                        #[trigger] entries[k],
                        stable_key,
                        aliases[k],
                    ) && slots[j] == slot_of(entries[k]);
                if k == last {
                    assert(text_less(entries[i].key@, entries[last].key@));
                    crate::text::lemma_text_less_total(entries[i].key@, entries[last].key@);
                    if j < slots.len() - 1 {
                        assert(text_less(slots[j].key@, slots[slots.len() - 1].key@));
                    }
                }
                assert(shorter[k] == entries[k] && fewer[k] == aliases[k]);
                assert(takes_part(shorter[k], stable_key, fewer[k]) && slots[j] == slot_of(
                    shorter[k],
                ));
            }
            lemma_no_more_than_parts(slots, shorter, stable_key, fewer);
        }
    }
}

// ---------------------------------------------------------------------------
// Records of uploads that run
// ---------------------------------------------------------------------------

/// An upload as it runs, with what of it is saved.
#[derive(Debug, PartialEq, Eq)]
pub struct LiveRecord {
    pub record: UploadRecord,
    pub durable: CloudUploadRecord,
}

/// The uploads that run, at most so many, no two of one clip for one account.
#[derive(Debug, PartialEq, Eq)]
pub struct LiveRecords {
    pub capacity: usize,
    pub entries: Vec<LiveRecord>,
}

pub open spec fn one_per_slot(entries: Seq<LiveRecord>) -> bool {
    forall|i: int, j: int|
        0 <= i < j < entries.len() ==> !same_slot(
            (#[trigger] entries[i]).record.token,
            (#[trigger] entries[j]).record.token,
        )
}

/// The entries of other clips or accounts.
pub open spec fn others(entries: Seq<LiveRecord>, token: DurableUploadToken) -> Seq<LiveRecord> {
    entries.filter(|entry: LiveRecord| !same_slot(entry.record.token, token))
}

/// The place of the first upload that has ended, or the number of entries.
pub open spec fn first_ended(entries: Seq<LiveRecord>) -> int
    decreases entries.len(),
{
    if entries.len() == 0 {
        0
    } else if entries[0].record.terminal {
        0
    } else {
        1 + first_ended(entries.skip(1))
    }
}

/// Room is made by letting one entry go: one that has ended where there is one.
pub open spec fn with_room(entries: Seq<LiveRecord>, capacity: usize) -> Seq<LiveRecord> {
    if entries.len() < capacity || entries.len() == 0 {
        entries
    } else if first_ended(entries) < entries.len() {
        entries.remove(first_ended(entries))
    } else {
        entries.remove(0)
    }
}

/// The entries after one was remembered.
pub open spec fn remembered(
    entries: Seq<LiveRecord>,
    capacity: usize,
    live: LiveRecord,
) -> Seq<LiveRecord> {
    with_room(others(entries, live.record.token), capacity).push(live)
}

/// The place of the entry of an upload, or the number of entries.
pub open spec fn place_of(entries: Seq<LiveRecord>, token: DurableUploadToken) -> int
    decreases entries.len(),
{
    if entries.len() == 0 {
        0
    } else if same_token(entries[0].record.token, token) {
        0
    } else {
        1 + place_of(entries.skip(1), token)
    }
}

proof fn lemma_place(entries: Seq<LiveRecord>, token: DurableUploadToken, i: int)
    requires
        0 <= i <= entries.len(),
        forall|k: int|
            0 <= k < i ==> !same_token((#[trigger] entries[k]).record.token, token),
        i < entries.len() ==> same_token(entries[i].record.token, token),
    ensures
        place_of(entries, token) == i,
    decreases entries.len(),
{
    if i > 0 {
        assert forall|k: int| 0 <= k < i - 1 implies !same_token(
            (#[trigger] entries.skip(1)[k]).record.token,
            token,
        ) by {
            assert(entries.skip(1)[k] == entries[k + 1]);
        }
        assert(!same_token(entries[0].record.token, token));
        lemma_place(entries.skip(1), token, i - 1);
    }
}

proof fn lemma_first_ended(entries: Seq<LiveRecord>, i: int)
    requires
        0 <= i <= entries.len(),
        forall|k: int| 0 <= k < i ==> !(#[trigger] entries[k]).record.terminal,
        i < entries.len() ==> entries[i].record.terminal,
    ensures
        first_ended(entries) == i,
    decreases entries.len(),
{
    if i > 0 {
        assert forall|k: int| 0 <= k < i - 1 implies !(#[trigger] entries.skip(
            1,
        )[k]).record.terminal by {
            assert(entries.skip(1)[k] == entries[k + 1]);
        }
        assert(!entries[0].record.terminal);
        lemma_first_ended(entries.skip(1), i - 1);
    }
}

impl LiveRecords {
    pub open spec fn wf(self) -> bool {
        &&& self.capacity > 0
        &&& self.entries@.len() <= self.capacity
        &&& one_per_slot(self.entries@)
    }

    pub fn new(capacity: usize) -> (s: Self)
        requires
            capacity > 0,
        ensures
            s.wf(),
            s.capacity == capacity,
            s.entries@.len() == 0,
    {
        LiveRecords { capacity, entries: Vec::new() }
    }

    fn drop_slot(&mut self, token: &DurableUploadToken)
        ensures
            final(self).entries@ == others(old(self).entries@, *token),
            final(self).capacity == old(self).capacity,
    {
        let ghost all = self.entries@;
        let ghost keep = |entry: LiveRecord| !same_slot(entry.record.token, *token);
        let mut i: usize = 0;
        let ghost mut seen: int = 0;
        proof {
            reveal(Seq::filter);
            assert(all.skip(0) =~= all);
            assert(all.take(0).filter(keep) =~= Seq::<LiveRecord>::empty());
        }
        while i < self.entries.len()
            invariant
                0 <= seen <= all.len(),
                i <= self.entries@.len(),
                self.capacity == old(self).capacity,
                keep == (|entry: LiveRecord| !same_slot(entry.record.token, *token)),
                self.entries@.take(i as int) == all.take(seen).filter(keep),
                self.entries@.skip(i as int) == all.skip(seen),
            decreases self.entries@.len() - i,
        {
            let ghost before = self.entries@;
            proof {
                reveal(Seq::filter);
                assert(before.skip(i as int).len() == before.len() - i);
                assert(all.skip(seen).len() == all.len() - seen);
                assert(before.skip(i as int)[0] == before[i as int]);
                assert(all.skip(seen)[0] == all[seen]);
                assert(all.take(seen + 1).drop_last() =~= all.take(seen));
                assert(all.skip(seen + 1) =~= all.skip(seen).skip(1));
            }
            if self.entries[i].record.token.shares_slot(token) {
                self.entries.remove(i);
                proof {
                    assert(self.entries@.take(i as int) =~= before.take(i as int));
                    assert(self.entries@.skip(i as int) =~= before.skip(i as int).skip(1));
                }
            } else {
                i += 1;
                proof {
                    assert(before.take(i as int) =~= before.take(i - 1).push(before[i - 1]));
                    assert(before.skip(i as int) =~= before.skip(i - 1).skip(1));
                }
            }
            proof {
                seen = seen + 1;
            }
        }
        proof {
            assert(self.entries@.skip(i as int).len() == 0);
            assert(all.skip(seen).len() == 0);
            assert(all.take(seen) =~= all);
            assert(self.entries@.take(i as int) =~= self.entries@);
        }
    }

    fn make_room(&mut self)
        ensures
            final(self).entries@ == with_room(old(self).entries@, old(self).capacity),
            final(self).capacity == old(self).capacity,
    {
        if self.entries.len() < self.capacity || self.entries.len() == 0 {
            return;
        }
        let mut i: usize = 0;
        while i < self.entries.len() && !self.entries[i].record.terminal
            invariant
                i <= self.entries@.len(),
                *self == *old(self),
                forall|k: int| 0 <= k < i ==> !(#[trigger] self.entries@[k]).record.terminal,
            decreases self.entries@.len() - i,
        {
            i += 1;
        }
        proof {
            lemma_first_ended(self.entries@, i as int);
        }
        if i < self.entries.len() {
            self.entries.remove(i);
        } else {
            self.entries.remove(0);
        }
    }

    /// Remembers an upload in the place of an earlier one of the same clip. `durable` is what
    /// of it is saved.
    pub fn remember_live_record(&mut self, record: UploadRecord, durable: CloudUploadRecord)
        requires
            old(self).wf(),
        ensures
            final(self).wf(),
            final(self).capacity == old(self).capacity,
            final(self).entries@ == remembered(
                old(self).entries@,
                old(self).capacity,
                (LiveRecord { record, durable }),
            ),
    {
        proof {
            law_live_records_stay_bounded(
                self.entries@,
                self.capacity,
                LiveRecord { record, durable },
            );
        }
        self.drop_slot(&record.token);
        self.make_room();
        self.entries.push(LiveRecord { record, durable });
    }

    /// The upload that `reloaded` was read back for, as it runs, as long as what is saved of
    /// it is what `durable` says; else `reloaded`, and what is remembered is dropped.
    pub fn load_live_record(
        &mut self,
        durable: &CloudUploadRecord,
        reloaded: &UploadRecord,
    ) -> (record: UploadRecord)
        requires
            old(self).wf(),
        ensures
            final(self).wf(),
            final(self).capacity == old(self).capacity,
            ({
                let entries = old(self).entries@;
                let at = place_of(entries, reloaded.token);
                if at == entries.len() {
                    record == *reloaded && final(self).entries@ == entries
                } else if entries[at].durable@ == durable@ {
                    record == entries[at].record && final(self).entries@ == entries
                } else {
                    record == *reloaded && final(self).entries@ == entries.remove(at)
                }
            }),
    {
        let at: usize = self.place(&reloaded.token);
        if at == self.entries.len() {
            return reloaded.clone();
        }
        if self.entries[at].durable.same(durable) {
            return self.entries[at].record.clone();
        }
        let ghost before = self.entries@;
        self.entries.remove(at);
        proof {
            lemma_remove_keeps(before, at as int);
        }
        reloaded.clone()
    }

    fn place(&self, token: &DurableUploadToken) -> (at: usize)
        ensures
            at == place_of(self.entries@, *token),
            at <= self.entries@.len(),
    {
        let mut i: usize = 0;
        while i < self.entries.len() && !self.entries[i].record.token.same(token)
            invariant
                i <= self.entries@.len(),
                forall|k: int|
                    0 <= k < i ==> !same_token((#[trigger] self.entries@[k]).record.token, *token),
            decreases self.entries@.len() - i,
        {
            i += 1;
        }
        proof {
            lemma_place(self.entries@, *token, i as int);
        }
        i
    }

    /// Forgets an upload that was removed.
    pub fn forget(&mut self, token: &DurableUploadToken)
        requires
            old(self).wf(),
        ensures
            final(self).wf(),
            final(self).capacity == old(self).capacity,
            final(self).entries@ == ({
                let at = place_of(old(self).entries@, *token);
                if at < old(self).entries@.len() {
                    old(self).entries@.remove(at)
                } else {
                    old(self).entries@
                }
            }),
    {
        let at: usize = self.place(token);
        if at < self.entries.len() {
            let ghost before = self.entries@;
            self.entries.remove(at);
            proof {
                lemma_remove_keeps(before, at as int);
            }
        }
    }
}

proof fn lemma_remove_keeps(entries: Seq<LiveRecord>, at: int)
    requires
        one_per_slot(entries),
        0 <= at < entries.len(),
    ensures
        one_per_slot(entries.remove(at)),
{
    let left = entries.remove(at);
    assert forall|i: int, j: int| 0 <= i < j < left.len() implies !same_slot(
        (#[trigger] left[i]).record.token,
        (#[trigger] left[j]).record.token,
    ) by {
        let a = if i < at {
            i
        } else {
            i + 1
        };
        let b = if j < at {
            j
        } else {
            j + 1
        };
        assert(left[i] == entries[a] && left[j] == entries[b]);
    }
}

proof fn lemma_others(entries: Seq<LiveRecord>, token: DurableUploadToken)
    requires
        one_per_slot(entries),
    ensures
        one_per_slot(others(entries, token)),
        others(entries, token).len() <= entries.len(),
        forall|i: int|
            0 <= i < others(entries, token).len() ==> !same_slot(
                (#[trigger] others(entries, token)[i]).record.token,
                token,
            ) && entries.contains(others(entries, token)[i]),
    decreases entries.len(),
{
    reveal(Seq::filter);
    if entries.len() > 0 {
        let shorter = entries.drop_last();
        assert forall|i: int, j: int| 0 <= i < j < shorter.len() implies !same_slot(
            (#[trigger] shorter[i]).record.token,
            (#[trigger] shorter[j]).record.token,
        ) by {
            assert(shorter[i] == entries[i] && shorter[j] == entries[j]);
        }
        lemma_others(shorter, token);
        let before = others(shorter, token);
        let after = others(entries, token);
        assert forall|i: int| 0 <= i < after.len() implies !same_slot(
            (#[trigger] after[i]).record.token,
            token,
        ) && entries.contains(after[i]) by {
            if i < before.len() {
                assert(after[i] == before[i]);
                let k = choose|k: int| 0 <= k < shorter.len() && shorter[k] == before[i];
                assert(entries[k] == after[i]);
            } else {
                assert(after[i] == entries[entries.len() - 1]);
            }
        }
        assert forall|i: int, j: int| 0 <= i < j < after.len() implies !same_slot(
            (#[trigger] after[i]).record.token,
            (#[trigger] after[j]).record.token,
        ) by {
            assert(after[i] == before[i]);
            if j < before.len() {
                assert(after[j] == before[j]);
            } else {
                let k = choose|k: int| 0 <= k < shorter.len() && shorter[k] == before[i];
                assert(entries[k] == before[i]);
                assert(after[j] == entries[entries.len() - 1]);
                assert(!same_slot(
                    entries[k].record.token,
                    entries[entries.len() - 1].record.token,
                ));
            }
        }
    }
}

proof fn lemma_first_ended_bounds(entries: Seq<LiveRecord>)
    ensures
        0 <= first_ended(entries) <= entries.len(),
        first_ended(entries) < entries.len() ==> entries[first_ended(entries)].record.terminal,
    decreases entries.len(),
{
    if entries.len() > 0 && !entries[0].record.terminal {
        lemma_first_ended_bounds(entries.skip(1));
    }
}

/// However many uploads are remembered, there are never more than the capacity, never two of
/// one clip for one account, and the latest is always among them.
pub proof fn law_live_records_stay_bounded(
    entries: Seq<LiveRecord>,
    capacity: usize,
    live: LiveRecord,
)
    requires
        capacity > 0,
        entries.len() <= capacity,
        one_per_slot(entries),
    ensures
        remembered(entries, capacity, live).len() <= capacity,
        one_per_slot(remembered(entries, capacity, live)),
        remembered(entries, capacity, live).last() == live,
{
    let kept = others(entries, live.record.token);
    lemma_others(entries, live.record.token);
    lemma_first_ended_bounds(kept);
    let roomy = with_room(kept, capacity);
    if kept.len() >= capacity {
        let at = if first_ended(kept) < kept.len() {
            first_ended(kept)
        } else {
            0
        };
        lemma_remove_keeps(kept, at);
        assert(roomy == kept.remove(at));
        assert forall|i: int| 0 <= i < roomy.len() implies !same_slot(
            (#[trigger] roomy[i]).record.token,
            live.record.token,
        ) by {
            let k = if i < at {
                i
            } else {
                i + 1
            };
            assert(roomy[i] == kept[k]);
        }
    }
    let all = roomy.push(live);
    assert forall|i: int, j: int| 0 <= i < j < all.len() implies !same_slot(
        (#[trigger] all[i]).record.token,
        (#[trigger] all[j]).record.token,
    ) by {
        assert(all[i] == roomy[i]);
        if j < roomy.len() {
            assert(all[j] == roomy[j]);
        }
    }
}

// ---------------------------------------------------------------------------
// Progress
// ---------------------------------------------------------------------------

#[derive(Debug, Clone, Copy, PartialEq, Eq, Structural)]
pub enum UploadEventKind {
    Bytes,
    State,
}

/// What an upload reports.
#[derive(Debug, PartialEq, Eq)]
pub struct UploadServiceEvent {
    pub kind: UploadEventKind,
    pub record: UploadRecord,
    pub notice: Option<String>,
}

/// What the window shows of an upload.
#[derive(Debug, PartialEq, Eq)]
pub struct CloudUploadProgress {
    pub local_clip_id: String,
    pub path: String,
    pub upload_status: String,
    pub terminal: bool,
    pub received_size_bytes: u64,
    pub file_size_bytes: u64,
    pub remote_clip_id: Option<String>,
    pub remote_url: Option<String>,
    pub error: Option<String>,
}

/// The progress of an upload as the window receives it.
#[derive(Debug, PartialEq, Eq)]
pub struct DesktopUploadEvent {
    pub account: UploadAccountOwner,
    pub generation: u64,
    pub update: UploadEventKind,
    pub progress: CloudUploadProgress,
    pub notice: Option<String>,
}

/// The progress of an upload as the window receives it. A count of bytes carries no notice.
/// `account` fails where the account of the upload is not valid.
pub fn desktop_upload_event(event: UploadServiceEvent, account: Result<(), String>) -> (
    res: Result<DesktopUploadEvent, String>)
    ensures
        if event.kind == UploadEventKind::Bytes && event.notice is Some {
            res is Err && res->Err_0@ == "byte-only upload progress cannot carry a notice"@
        } else {
            match account {
                Err(error) => res == Err::<DesktopUploadEvent, String>(error),
                Ok(_) => res == Ok::<DesktopUploadEvent, String>(
                    DesktopUploadEvent {
                        account: UploadAccountOwner {
                            account_key: event.record.token.account_key,
                            account_generation: event.record.token.account_generation,
                        },
                        generation: event.record.token.upload_generation,
                        update: event.kind,
                        progress: CloudUploadProgress {
                            local_clip_id: event.record.token.local_clip_id,
                            path: event.record.path,
                            upload_status: event.record.upload_status,
                            terminal: event.record.terminal,
                            received_size_bytes: event.record.received_size_bytes,
                            file_size_bytes: event.record.file_size_bytes,
                            remote_clip_id: event.record.remote_clip_id,
                            remote_url: event.record.remote_url,
                            error: event.record.error,
                        },
                        notice: event.notice,
                    },
                ),
            }
        },
{
    if event.kind == UploadEventKind::Bytes && event.notice.is_some() {
        return Err("byte-only upload progress cannot carry a notice".to_owned());
    }
    if let Err(error) = account {
        return Err(error);
    }
    let record = event.record;
    Ok(
        DesktopUploadEvent {
            account: UploadAccountOwner {
                account_key: record.token.account_key,
                account_generation: record.token.account_generation,
            },
            generation: record.token.upload_generation,
            update: event.kind,
            progress: CloudUploadProgress {
                local_clip_id: record.token.local_clip_id,
                path: record.path,
                upload_status: record.upload_status,
                terminal: record.terminal,
                received_size_bytes: record.received_size_bytes,
                file_size_bytes: record.file_size_bytes,
                remote_clip_id: record.remote_clip_id,
                remote_url: record.remote_url,
                error: record.error,
            },
            notice: event.notice,
        },
    )
}

// ---------------------------------------------------------------------------
// Laws of the single decisions
// ---------------------------------------------------------------------------

/// An upload is the same where every part of its token is; it is of the same clip of the same
/// account where its generation and its path may differ.
pub proof fn law_tokens_compare_every_part(
    a: DurableUploadToken,
    b: DurableUploadToken,
    c: UploadAccountOwner,
    d: UploadAccountOwner,
)
    ensures
        same_token(a, b) <==> a.account_key@ == b.account_key@ && a.account_generation
            == b.account_generation && a.upload_generation == b.upload_generation
            && a.local_clip_id@ == b.local_clip_id@ && a.source_path@ == b.source_path@,
        same_slot(a, b) <==> a.account_key@ == b.account_key@ && a.account_generation
            == b.account_generation && a.local_clip_id@ == b.local_clip_id@,
        same_owner(c, d) <==> c.account_key@ == d.account_key@ && c.account_generation
            == d.account_generation,
{
}

/// What is saved of an upload is what it says; a generation of zero stands for none.
pub proof fn law_saved_record_says_what_the_upload_does(record: UploadRecord)
    ensures
        projected(record).local_clip_id == record.token.local_clip_id,
        projected(record).client_clip_id == record.client_clip_id,
        record.token.upload_generation == 0 ==> projected(record).upload_generation is None,
        record.token.upload_generation > 0 ==> projected(record).upload_generation == Some(
            record.token.upload_generation,
        ),
        projected(record).path == record.path,
        projected(record).remote_clip_id == record.remote_clip_id,
        projected(record).remote_url == record.remote_url,
        projected(record).visibility == record.visibility,
        projected(record).upload_status == record.upload_status,
        projected(record).error == record.error,
        projected(record).updated_at_unix == record.updated_at_unix,
{
}

/// The phase of every status that can be saved; no other status can be read back.
pub proof fn law_phases_of_saved_statuses(status: Seq<char>)
    ensures
        persisted_phase("queued"@) == Some(UploadPhase::Queued),
        persisted_phase("retrying"@) == Some(UploadPhase::Queued),
        persisted_phase("uploading"@) == Some(UploadPhase::Uploading),
        persisted_phase("processing"@) == Some(UploadPhase::Processing),
        persisted_phase("uploaded_processing"@) == Some(UploadPhase::Abandoned),
        persisted_phase("uploaded_private"@) == Some(UploadPhase::Completed),
        persisted_phase("uploaded_public"@) == Some(UploadPhase::Completed),
        persisted_phase("failed"@) == Some(UploadPhase::Failed),
        persisted_phase("canceled"@) == Some(UploadPhase::Canceled),
        persisted_phase(status) is Some ==> {
            ||| status == "queued"@
            ||| status == "retrying"@
            ||| status == "uploading"@
            ||| status == "processing"@
            ||| status == "uploaded_processing"@
            ||| status == "uploaded_private"@
            ||| status == "uploaded_public"@
            ||| status == "failed"@
            ||| status == "canceled"@
        },
{
    reveal_strlit("queued");
    reveal_strlit("retrying");
    reveal_strlit("uploading");
    reveal_strlit("processing");
    reveal_strlit("uploaded_processing");
    reveal_strlit("uploaded_private");
    reveal_strlit("uploaded_public");
    reveal_strlit("failed");
    reveal_strlit("canceled");
    assert("queued"@.len() == 6);
    assert("retrying"@.len() == 8);
    assert("uploading"@.len() == 9);
    assert("processing"@.len() == 10);
    assert("uploaded_processing"@.len() == 19);
    assert("uploaded_private"@.len() == 16);
    assert("uploaded_public"@.len() == 15);
    assert("failed"@.len() == 6);
    assert("canceled"@.len() == 8);
    assert("queued"@[0] != "failed"@[0]);
    assert("retrying"@[0] != "canceled"@[0]);
}

/// A record that is read back belongs to the account that reads it and says what was saved;
/// nothing of it was sent, and its file is there.
pub proof fn law_reloaded_record_says_what_was_saved(
    record: UploadRecord,
    owner: UploadAccountOwner,
    durable: CloudUploadRecord,
    source_path: Seq<char>,
    terminal: bool,
)
    requires
        is_reloaded(record, owner, durable, source_path, terminal),
    ensures
        record.token.account_key == owner.account_key,
        record.token.account_generation == owner.account_generation,
        durable.upload_generation is Some ==> record.token.upload_generation
            == durable.upload_generation->0,
        durable.upload_generation is None ==> record.token.upload_generation == 0,
        record.token.local_clip_id == durable.local_clip_id,
        record.token.source_path@ == source_path,
        record.client_clip_id == durable.client_clip_id,
        record.path == durable.path,
        record.visibility == durable.visibility,
        record.upload_status == durable.upload_status,
        record.remote_clip_id == durable.remote_clip_id,
        record.remote_url == durable.remote_url,
        record.error == durable.error,
        record.updated_at_unix == durable.updated_at_unix,
        record.terminal == terminal,
        record.received_size_bytes == 0 && record.file_size_bytes == 0 && !record.local_deleted,
{
}

/// The kind of an error of the settings is told by its words, whatever their case, the first of
/// these that fits.
pub proof fn law_settings_errors_are_told_by_their_words(text: Seq<char>)
    ensures
        ({
            let lower = ascii_lower(text);
            let account = has_substring(lower, "account changed"@) || has_substring(
                lower,
                "cloud account generation"@,
            );
            let stale = has_substring(lower, "stale cloud record"@);
            let contended = has_substring(lower, "stale settings revision"@) || has_substring(
                lower,
                "contended"@,
            );
            let kind = settings_error_kind(text);
            &&& kind is AccountChanged <==> account
            &&& kind is Superseded <==> !account && stale
            &&& kind is Contended <==> !account && !stale && contended
            &&& kind is Persistence <==> !account && !stale && !contended
        }),
{
}

/// The number of a new upload is larger than that of every record of its clip, by key, by
/// identifier or by path, and no larger than it has to be.
pub proof fn law_next_number_of_an_upload(
    entries: Seq<UploadEntry>,
    local_clip_id: Seq<char>,
    aliases: Seq<bool>,
    res: Result<u64, UploadRecordError>,
    i: int,
)
    requires
        aliases.len() == entries.len(),
        is_next_generation(entries, local_clip_id, aliases, res),
        0 <= i < entries.len(),
        entries[i].key@ == local_clip_id || entries[i].record.local_clip_id@ == local_clip_id
            || aliases[i],
        entries[i].record.upload_generation is Some,
    ensures
        res matches Ok(generation) ==> generation > entries[i].record.upload_generation->0,
        res is Err ==> exists|k: int|
            0 <= k < entries.len() && (#[trigger] entries[k]).record.upload_generation == Some(
                0xffff_ffff_ffff_ffffu64,
            ),
        res matches Ok(generation) ==> generation == 1 || exists|k: int|
            0 <= k < entries.len() && (#[trigger] entries[k]).record.upload_generation == Some(
                (generation - 1) as u64,
            ),
{
    lemma_largest_generation(entries, local_clip_id, aliases);
    assert(concerns_clip(entries[i], local_clip_id, aliases[i]));
}

proof fn lemma_largest_generation(
    entries: Seq<UploadEntry>,
    local_clip_id: Seq<char>,
    aliases: Seq<bool>,
)
    requires
        aliases.len() == entries.len(),
    ensures
        ({
            let largest = largest_generation(entries, local_clip_id, aliases);
            &&& forall|i: int|
                #![trigger entries[i]]
                0 <= i < entries.len() && concerns_clip(entries[i], local_clip_id, aliases[i])
                    && entries[i].record.upload_generation is Some
                    ==> entries[i].record.upload_generation->0 <= largest
            &&& largest == 0 || exists|k: int|
                0 <= k < entries.len() && (#[trigger] entries[k]).record.upload_generation == Some(
                    largest,
                )
        }),
    decreases entries.len(),
{
    if entries.len() > 0 {
        let rest = entries.drop_last();
        let seen = aliases.take(entries.len() - 1);
        lemma_largest_generation(rest, local_clip_id, seen);
        let before = largest_generation(rest, local_clip_id, seen);
        let largest = largest_generation(entries, local_clip_id, aliases);
        assert forall|i: int|
            #![trigger entries[i]]
            0 <= i < entries.len() && concerns_clip(entries[i], local_clip_id, aliases[i])
                && entries[i].record.upload_generation is Some implies entries[i].record.upload_generation->0
            <= largest by {
            if i < rest.len() {
                assert(rest[i] == entries[i]);
                assert(seen[i] == aliases[i]);
            }
        }
        if largest == before && before != 0 {
            let k = choose|k: int|
                0 <= k < rest.len() && (#[trigger] rest[k]).record.upload_generation == Some(
                    before,
                );
            assert(entries[k] == rest[k]);
        } else if largest != before {
            assert(entries[entries.len() - 1].record.upload_generation == Some(largest));
        }
    }
}

/// A change of a record expects every record of the clip as it stands, by key or by path, the
/// absence of one under its own key where there is none, and no other.
pub proof fn law_change_expects_what_stands(
    slots: Seq<CloudRecordSlot>,
    entries: Seq<UploadEntry>,
    stable_key: Seq<char>,
    aliases: Seq<bool>,
    i: int,
    j: int,
)
    requires
        are_expected_slots(slots, entries, stable_key, aliases),
        aliases.len() == entries.len(),
    ensures
        0 <= i < entries.len() && (entries[i].key@ == stable_key || aliases[i]) ==> slots.contains(
            CloudRecordSlot { key: entries[i].key, record: Some(entries[i].record) },
        ),
        0 <= j < slots.len() && slots[j].record is None ==> slots[j].key@ == stable_key && forall|
            k: int,
        |
            0 <= k < entries.len() ==> (#[trigger] entries[k]).key@ != stable_key,
        0 <= j < slots.len() && slots[j].record is Some ==> exists|k: int|
            0 <= k < entries.len() && (#[trigger] entries[k]).key == slots[j].key
                && entries[k].record == slots[j].record->0 && (entries[k].key@ == stable_key
                || aliases[k]),
{
    if 0 <= i < entries.len() && (entries[i].key@ == stable_key || aliases[i]) {
        assert(takes_part(entries[i], stable_key, aliases[i]));
        assert(slots.contains(slot_of(entries[i])));
    }
    if 0 <= j < slots.len() && slots[j].record is Some {
        let k = choose|k: int|
            0 <= k < entries.len() && takes_part(#[trigger] entries[k], stable_key, aliases[k])
                && slots[j] == slot_of(entries[k]);
        assert(entries[k].key == slots[j].key);
    }
}

/// An upload is admitted for the account that stands, under its own number, which is larger than
/// those of all records that it replaces, and leaves its record under its key.
pub proof fn law_admitted_upload(
    snapshot: SettingsSnapshot,
    token: DurableUploadToken,
    replacement: CloudUploadRecord,
    aliases: Seq<bool>,
    max_slots: usize,
    cas: CloudRecordCas,
    j: int,
)
    requires
        is_admission(snapshot, token, replacement, aliases, max_slots, Ok(cas)),
    ensures
        cas.account.host_url == snapshot.cloud.host_url,
        cas.account.connected_user_id == snapshot.cloud.connected_user_id,
        cas.account.credential_target == snapshot.cloud.credential_target,
        cas.account_generation == snapshot.account_generation,
        cas.kind == (CloudRecordCasKind::Admit { upload_generation: token.upload_generation }),
        token.upload_generation > 0,
        cas.expected@.len() <= max_slots,
        0 <= j < cas.expected@.len() && cas.expected@[j].record is Some
            && cas.expected@[j].record->0.upload_generation is Some
            ==> cas.expected@[j].record->0.upload_generation->0 < token.upload_generation,
        cas.replacement is Some,
        cas.replacement->0.key == token.local_clip_id,
        cas.replacement->0.record == Some(replacement),
{
}

/// A record is replaced, or taken out, only where it stands as it was read; an upload that runs
/// moves on under its number, one that ended or never had a number is only brought up to date.
pub proof fn law_replaced_record(
    snapshot: SettingsSnapshot,
    expected: UploadRecord,
    expected_durable: CloudUploadRecord,
    replacement_generation: u64,
    replacement_durable: CloudUploadRecord,
    aliases: Seq<bool>,
    max_slots: usize,
    cas: CloudRecordCas,
)
    ensures
        is_transition(
            snapshot,
            expected,
            expected_durable,
            replacement_generation,
            replacement_durable,
            aliases,
            max_slots,
            Ok(cas),
        ) ==> {
            &&& record_under(snapshot.cloud.uploads@, expected.token.local_clip_id@) is Some
            &&& record_under(snapshot.cloud.uploads@, expected.token.local_clip_id@)->0@
                == expected_durable@
            &&& expected.terminal || expected.token.upload_generation == 0
                ==> cas.kind is StatusSync
            &&& !expected.terminal && expected.token.upload_generation != 0 ==> cas.kind == (
            CloudRecordCasKind::Advance { upload_generation: replacement_generation })
            &&& cas.replacement is Some && cas.replacement->0.key == expected.token.local_clip_id
                && cas.replacement->0.record == Some(replacement_durable)
            &&& cas.account_generation == snapshot.account_generation
            &&& cas.account.host_url == snapshot.cloud.host_url
            &&& cas.account.connected_user_id == snapshot.cloud.connected_user_id
            &&& cas.account.credential_target == snapshot.cloud.credential_target
        },
        is_removal(snapshot, expected, expected_durable, aliases, max_slots, Ok(cas)) ==> {
            &&& record_under(snapshot.cloud.uploads@, expected.token.local_clip_id@) is Some
            &&& record_under(snapshot.cloud.uploads@, expected.token.local_clip_id@)->0@
                == expected_durable@
            &&& cas.kind is StatusSync
            &&& cas.replacement is None
            &&& cas.account_generation == snapshot.account_generation
            &&& cas.account.host_url == snapshot.cloud.host_url
            &&& cas.account.connected_user_id == snapshot.cloud.connected_user_id
            &&& cas.account.credential_target == snapshot.cloud.credential_target
        },
{
}

/// A change is refused only where the record that it starts from is not there as it was read, or
/// where the clip has more records than a change can hold.
pub proof fn law_refused_replacement(
    snapshot: SettingsSnapshot,
    expected: UploadRecord,
    expected_durable: CloudUploadRecord,
    replacement_generation: u64,
    replacement_durable: CloudUploadRecord,
    aliases: Seq<bool>,
    max_slots: usize,
    error: UploadRecordError,
)
    requires
        snapshot.cloud.wf(),
        aliases.len() == snapshot.cloud.uploads@.len(),
        is_transition(
            snapshot,
            expected,
            expected_durable,
            replacement_generation,
            replacement_durable,
            aliases,
            max_slots,
            Err(error),
        ) || is_removal(snapshot, expected, expected_durable, aliases, max_slots, Err(error)),
    ensures
        !(record_under(snapshot.cloud.uploads@, expected.token.local_clip_id@) is Some
            && record_under(snapshot.cloud.uploads@, expected.token.local_clip_id@)->0@
            == expected_durable@) ==> error.kind is Superseded,
        record_under(snapshot.cloud.uploads@, expected.token.local_clip_id@) is Some
            && record_under(snapshot.cloud.uploads@, expected.token.local_clip_id@)->0@
            == expected_durable@ ==> error.kind is Persistence && snapshot.cloud.uploads@.len()
            > max_slots,
{
    let key = expected.token.local_clip_id@;
    let entries = snapshot.cloud.uploads@;
    if record_under(entries, key) is Some {
        let i = crate::settings::lemma_record_found(entries, key);
        assert(entries[i].key@ == key);
        assert(has_key(entries, key));
        lemma_count_parts_bound(entries, key, aliases);
    }
}

proof fn lemma_count_parts_bound(entries: Seq<UploadEntry>, key: Seq<char>, aliases: Seq<bool>)
    ensures
        count_parts(entries, key, aliases) <= entries.len(),
    decreases entries.len(),
{
    if entries.len() > 0 {
        lemma_count_parts_bound(entries.drop_last(), key, aliases.take(entries.len() - 1));
    }
}

/// A record is of a clip by its path where its path was seen to be the clip's, or the one that the
/// clip had before.
pub proof fn law_aliases_were_seen<E: Fn(&str, &str) -> bool>(
    entries: Seq<UploadEntry>,
    replacement_path: Seq<char>,
    prior_path: Seq<char>,
    equivalent: E,
    aliases: Seq<bool>,
    i: int,
)
    requires
        are_path_aliases(entries, replacement_path, Some(prior_path), equivalent, aliases),
        0 <= i < entries.len(),
    ensures
        aliases.len() == entries.len(),
        aliases[i] ==> exists|a: &str, b: &str| #[trigger]
            call_ensures(equivalent, (a, b), true) && a@ == entries[i].record.path@ && (b@
                == replacement_path || b@ == prior_path),
        !aliases[i] ==> exists|a: &str, b: &str| #[trigger]
            call_ensures(equivalent, (a, b), false) && a@ == entries[i].record.path@ && b@
                == replacement_path,
        !aliases[i] ==> exists|a: &str, b: &str| #[trigger]
            call_ensures(equivalent, (a, b), false) && a@ == entries[i].record.path@ && b@
                == prior_path,
{
    assert(alias_seen(
        equivalent,
        entries[i].record.path@,
        replacement_path,
        Some(prior_path),
        aliases[i],
    ));
}

/// What is remembered of an upload comes last and takes the place of what was remembered of its
/// clip; of the others none is forgotten while there is room, and otherwise one: the first that
/// ended, or the oldest.
pub proof fn law_live_records_are_remembered(
    entries: Seq<LiveRecord>,
    capacity: usize,
    live: LiveRecord,
)
    ensures
        remembered(entries, capacity, live).last() == live,
        remembered(entries, capacity, live).len() > 0,
        ({
            let rest = others(entries, live.record.token);
            let kept = remembered(entries, capacity, live).drop_last();
            &&& rest.len() < capacity || rest.len() == 0 ==> kept == rest
            &&& rest.len() >= capacity && rest.len() > 0 ==> exists|k: int|
                0 <= k < rest.len() && #[trigger] rest.remove(k) == kept && (forall|i: int|
                    0 <= i < k ==> !(#[trigger] rest[i]).record.terminal) && (
                rest[k].record.terminal || k == 0 && forall|i: int|
                    0 <= i < rest.len() ==> !(#[trigger] rest[i]).record.terminal)
        }),
{
    let rest = others(entries, live.record.token);
    let room = with_room(rest, capacity);
    assert(remembered(entries, capacity, live).drop_last() =~= room);
    lemma_where_first_ended(rest);
    if rest.len() >= capacity && rest.len() > 0 {
        let k = if first_ended(rest) < rest.len() {
            first_ended(rest)
        } else {
            0
        };
        assert(rest.remove(k) == room);
    }
}

proof fn lemma_where_first_ended(entries: Seq<LiveRecord>)
    ensures
        0 <= first_ended(entries) <= entries.len(),
        forall|i: int| 0 <= i < first_ended(entries) ==> !(#[trigger] entries[i]).record.terminal,
        first_ended(entries) < entries.len() ==> entries[first_ended(entries)].record.terminal,
    decreases entries.len(),
{
    if entries.len() > 0 && !entries[0].record.terminal {
        let rest = entries.skip(1);
        lemma_where_first_ended(rest);
        assert forall|i: int| 0 <= i < first_ended(entries) implies !(#[trigger] entries[i]).record.terminal by {
            if i > 0 {
                assert(entries[i] == rest[i - 1]);
            }
        }
        assert(first_ended(rest) < rest.len() ==> entries[first_ended(entries)]
            == rest[first_ended(rest)]);
    }
}

/// Nothing of another clip, or of another account, is forgotten for a clip.
pub proof fn law_others_are_of_other_clips(
    entries: Seq<LiveRecord>,
    token: DurableUploadToken,
    i: int,
)
    requires
        0 <= i < entries.len(),
    ensures
        entries[i].record.token.account_key@ != token.account_key@
            || entries[i].record.token.account_generation != token.account_generation
            || entries[i].record.token.local_clip_id@ != token.local_clip_id@ ==> others(
            entries,
            token,
        ).contains(entries[i]),
        forall|k: int|
            0 <= k < others(entries, token).len() ==> {
                let other = (#[trigger] others(entries, token)[k]).record.token;
                other.account_key@ != token.account_key@ || other.account_generation
                    != token.account_generation || other.local_clip_id@ != token.local_clip_id@
            },
{
    let keep = |entry: LiveRecord| !same_slot(entry.record.token, token);
    assert forall|k: int| 0 <= k < others(entries, token).len() implies {
        let other = (#[trigger] others(entries, token)[k]).record.token;
        other.account_key@ != token.account_key@ || other.account_generation
            != token.account_generation || other.local_clip_id@ != token.local_clip_id@
    } by {
        entries.lemma_filter_pred(keep, k);
    }
    if keep(entries[i]) {
        entries.lemma_filter_contains(keep, i);
    }
}

/// An upload is found at the first place with its token, or nowhere.
pub proof fn law_place_of_an_upload(entries: Seq<LiveRecord>, token: DurableUploadToken)
    ensures
        0 <= place_of(entries, token) <= entries.len(),
        forall|i: int|
            0 <= i < place_of(entries, token) ==> !same_token(
                (#[trigger] entries[i]).record.token,
                token,
            ),
        place_of(entries, token) < entries.len() ==> same_token(
            entries[place_of(entries, token)].record.token,
            token,
        ),
    decreases entries.len(),
{
    if entries.len() > 0 && !same_token(entries[0].record.token, token) {
        let rest = entries.skip(1);
        law_place_of_an_upload(rest, token);
        assert forall|i: int| 0 <= i < place_of(entries, token) implies !same_token(
            (#[trigger] entries[i]).record.token,
            token,
        ) by {
            if i > 0 {
                assert(entries[i] == rest[i - 1]);
            }
        }
        assert(place_of(rest, token) < rest.len() ==> entries[place_of(entries, token)]
            == rest[place_of(rest, token)]);
    }
}

/// A change cannot be stated where the record of the clip must be there and is not, and where more
/// entries take part than there may be.
pub proof fn law_changes_that_cannot_be_stated(
    error: UploadRecordError,
    entries: Seq<UploadEntry>,
    stable_key: Seq<char>,
    aliases: Seq<bool>,
    include_absent: bool,
    max_slots: usize,
    slots: Seq<CloudRecordSlot>,
)
    requires
        slots_error(error, entries, stable_key, aliases, include_absent, max_slots),
    ensures
        !has_key(entries, stable_key) && !include_absent ==> error.kind is Superseded
            && error.message@ == "durable upload record is missing"@,
        (has_key(entries, stable_key) || include_absent) && are_expected_slots(
            slots,
            entries,
            stable_key,
            aliases,
        ) ==> slots.len() > max_slots && error.kind is Persistence && error.message@
            == "upload path has "@ + decimal(slots.len()) + " durable aliases; maximum is "@
            + decimal(max_slots as nat),
{
}

/// Each entry is told to be at the path of a record, or at its former one, exactly where the
/// comparison finds it there.
pub proof fn law_aliases_are_found_by_comparing<E: Fn(&str, &str) -> bool>(
    entries: Seq<UploadEntry>,
    replacement_path: Seq<char>,
    prior_path: Option<Seq<char>>,
    equivalent: E,
    aliases: Seq<bool>,
    i: int,
)
    requires
        are_path_aliases(entries, replacement_path, prior_path, equivalent, aliases),
        0 <= i < entries.len(),
    ensures
        aliases.len() == entries.len(),
        aliases[i] ==> exists|a: &str, b: &str| #[trigger]
            call_ensures(equivalent, (a, b), true) && a@ == entries[i].record.path@ && (b@
                == replacement_path || prior_path == Some(b@)),
        !aliases[i] ==> exists|a: &str, b: &str| #[trigger]
            call_ensures(equivalent, (a, b), false) && a@ == entries[i].record.path@ && b@
                == replacement_path,
        !aliases[i] && prior_path is Some ==> exists|a: &str, b: &str| #[trigger]
            call_ensures(equivalent, (a, b), false) && a@ == entries[i].record.path@ && prior_path
                == Some(b@),
{
    assert(alias_seen(
        equivalent,
        entries[i].record.path@,
        replacement_path,
        prior_path,
        aliases[i],
    ));
    if aliases[i] {
        if paths_seen(equivalent, entries[i].record.path@, replacement_path, true) {
        } else {
            assert(paths_seen(equivalent, entries[i].record.path@, prior_path->0, true));
        }
    } else {
        assert(paths_seen(equivalent, entries[i].record.path@, replacement_path, false));
        if prior_path is Some {
            assert(paths_seen(equivalent, entries[i].record.path@, prior_path->0, false));
        }
    }
}

/// Each entry is told to be of the source of a clip exactly where its path is that of the source
/// or leads to the same file.
pub proof fn law_entries_of_the_source<E: Fn(&str, &str) -> bool, I: Fn(&str) -> bool>(
    entries: Seq<UploadEntry>,
    source_path: Seq<char>,
    equivalent: E,
    is_source: I,
    aliases: Seq<bool>,
    i: int,
)
    requires
        are_source_aliases(entries, source_path, equivalent, is_source, aliases),
        0 <= i < entries.len(),
    ensures
        aliases.len() == entries.len(),
        aliases[i] ==> (exists|a: &str, b: &str| #[trigger]
            call_ensures(equivalent, (a, b), true) && a@ == entries[i].record.path@ && b@
                == source_path) || exists|a: &str| #[trigger]
            call_ensures(is_source, (a,), true) && a@ == entries[i].record.path@,
        !aliases[i] ==> exists|a: &str, b: &str| #[trigger]
            call_ensures(equivalent, (a, b), false) && a@ == entries[i].record.path@ && b@
                == source_path,
        !aliases[i] ==> exists|a: &str| #[trigger]
            call_ensures(is_source, (a,), false) && a@ == entries[i].record.path@,
{
    assert(source_seen(
        equivalent,
        is_source,
        entries[i].record.path@,
        source_path,
        aliases[i],
    ));
}

} // verus!
