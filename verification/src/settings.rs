//! The settings that the application's decisions depend on.

use crate::game_identity::{same_identity, GameIdentity};
use crate::text::{
    clone_opt, clone_strings, concat3, join, joined, opt_eq, opt_view, str_eq, str_less, text_less,
    views,
};
use vstd::prelude::*;

verus! {

// ---------------------------------------------------------------------------
// Cloud
// ---------------------------------------------------------------------------

/// What is remembered of the upload of one clip.
#[derive(Debug, PartialEq, Eq)]
pub struct CloudUploadRecord {
    pub local_clip_id: String,
    pub client_clip_id: Option<String>,
    pub upload_generation: Option<u64>,
    pub path: String,
    pub remote_clip_id: Option<String>,
    pub remote_url: Option<String>,
    pub visibility: String,
    pub upload_status: String,
    pub error: Option<String>,
    pub updated_at_unix: u64,
}

/// An upload record with its texts as character sequences.
pub ghost struct UploadRecordView {
    pub local_clip_id: Seq<char>,
    pub client_clip_id: Option<Seq<char>>,
    pub upload_generation: Option<u64>,
    pub path: Seq<char>,
    pub remote_clip_id: Option<Seq<char>>,
    pub remote_url: Option<Seq<char>>,
    pub visibility: Seq<char>,
    pub upload_status: Seq<char>,
    pub error: Option<Seq<char>>,
    pub updated_at_unix: u64,
}

impl View for CloudUploadRecord {
    type V = UploadRecordView;

    open spec fn view(&self) -> UploadRecordView {
        UploadRecordView {
            local_clip_id: self.local_clip_id@,
            client_clip_id: opt_view(self.client_clip_id),
            upload_generation: self.upload_generation,
            path: self.path@,
            remote_clip_id: opt_view(self.remote_clip_id),
            remote_url: opt_view(self.remote_url),
            visibility: self.visibility@,
            upload_status: self.upload_status@,
            error: opt_view(self.error),
            updated_at_unix: self.updated_at_unix,
        }
    }
}

impl Clone for CloudUploadRecord {
    fn clone(&self) -> (r: Self)
        ensures
            r == *self,
    {
        CloudUploadRecord {
            local_clip_id: self.local_clip_id.clone(),
            client_clip_id: clone_opt(&self.client_clip_id),
            upload_generation: self.upload_generation,
            path: self.path.clone(),
            remote_clip_id: clone_opt(&self.remote_clip_id),
            remote_url: clone_opt(&self.remote_url),
            visibility: self.visibility.clone(),
            upload_status: self.upload_status.clone(),
            error: clone_opt(&self.error),
            updated_at_unix: self.updated_at_unix,
        }
    }
}

impl CloudUploadRecord {
    /// Whether two records hold the same.
    pub fn same(&self, other: &CloudUploadRecord) -> (r: bool)
        ensures
            r == (self@ == other@),
    {
        let generations = match (self.upload_generation, other.upload_generation) {
            (Some(a), Some(b)) => a == b,
            (None, None) => true,
            _ => false,
        };
        generations && str_eq(self.local_clip_id.as_str(), other.local_clip_id.as_str()) && opt_eq(
            &self.client_clip_id,
            &other.client_clip_id,
        ) && str_eq(self.path.as_str(), other.path.as_str()) && opt_eq(
            &self.remote_clip_id,
            &other.remote_clip_id,
        ) && opt_eq(&self.remote_url, &other.remote_url) && str_eq(
            self.visibility.as_str(),
            other.visibility.as_str(),
        ) && str_eq(self.upload_status.as_str(), other.upload_status.as_str()) && opt_eq(
            &self.error,
            &other.error,
        ) && self.updated_at_unix == other.updated_at_unix
    }
}

/// A record under the key by which the settings hold it.
#[derive(Debug, PartialEq, Eq)]
pub struct UploadEntry {
    pub key: String,
    pub record: CloudUploadRecord,
}

impl Clone for UploadEntry {
    fn clone(&self) -> (r: Self)
        ensures
            r == *self,
    {
        UploadEntry { key: self.key.clone(), record: self.record.clone() }
    }
}

/// The entries stand in the order of their keys, no key twice.
pub open spec fn keys_ascend(entries: Seq<UploadEntry>) -> bool {
    forall|i: int, j: int|
        0 <= i < j < entries.len() ==> text_less(
            (#[trigger] entries[i]).key@,
            (#[trigger] entries[j]).key@,
        )
}

/// The record under a key.
pub open spec fn record_under(entries: Seq<UploadEntry>, key: Seq<char>) -> Option<
    CloudUploadRecord,
>
    decreases entries.len(),
{
    if entries.len() == 0 {
        None
    } else if entries[0].key@ == key {
        Some(entries[0].record)
    } else {
        record_under(entries.skip(1), key)
    }
}

/// A record that is found under a key is that of an entry with the key.
pub proof fn lemma_record_found(entries: Seq<UploadEntry>, key: Seq<char>) -> (i: int)
    requires
        record_under(entries, key) is Some,
    ensures
        0 <= i < entries.len(),
        entries[i].key@ == key,
        record_under(entries, key) == Some(entries[i].record),
    decreases entries.len(),
{
    if entries[0].key@ == key {
        0
    } else {
        1 + lemma_record_found(entries.skip(1), key)
    }
}

/// Finds the record under a key.
pub fn find_record<'a>(entries: &'a Vec<UploadEntry>, key: &str) -> (found: Option<
    &'a CloudUploadRecord,
>)
    ensures
        match found {
            Some(record) => record_under(entries@, key@) == Some(*record),
            None => record_under(entries@, key@) is None,
        },
{
    let mut i: usize = 0;
    assert(entries@.skip(0) =~= entries@);
    while i < entries.len()
        invariant
            i <= entries@.len(),
            record_under(entries@.skip(i as int), key@) == record_under(entries@, key@),
        decreases entries@.len() - i,
    {
        if str_eq(entries[i].key.as_str(), key) {
            return Some(&entries[i].record);
        }
        assert(entries@.skip(i as int).skip(1) =~= entries@.skip(i + 1));
        i += 1;
    }
    None
}

/// Connection to Clipline Cloud and what was uploaded there.
#[derive(Debug, PartialEq, Eq)]
pub struct CloudSettings {
    pub host_url: String,
    pub public_url: Option<String>,
    pub connected_user_id: Option<String>,
    pub connected_username: Option<String>,
    pub connected_display_name: Option<String>,
    pub credential_target: Option<String>,
    pub credential_cleanup_targets: Vec<String>,
    pub default_visibility: String,
    pub delete_local_after_upload: bool,
    pub auto_upload_rules: bool,
    pub uploads: Vec<UploadEntry>,
}

/// Copies of the entries of a list.
pub fn clone_entries(entries: &Vec<UploadEntry>) -> (r: Vec<UploadEntry>)
    ensures
        r@ == entries@,
{
    let mut out: Vec<UploadEntry> = Vec::new();
    let mut i: usize = 0;
    while i < entries.len()
        invariant
            i <= entries@.len(),
            out@ == entries@.take(i as int),
        decreases entries@.len() - i,
    {
        out.push(entries[i].clone());
        i += 1;
        assert(entries@.take(i as int) =~= entries@.take(i - 1).push(entries@[i - 1]));
    }
    assert(entries@.take(i as int) =~= entries@);
    out
}

/// Two cloud settings with the same content; lists are compared by their items.
pub open spec fn same_cloud(a: CloudSettings, b: CloudSettings) -> bool {
    &&& a.host_url == b.host_url
    &&& a.public_url == b.public_url
    &&& a.connected_user_id == b.connected_user_id
    &&& a.connected_username == b.connected_username
    &&& a.connected_display_name == b.connected_display_name
    &&& a.credential_target == b.credential_target
    &&& a.credential_cleanup_targets@ == b.credential_cleanup_targets@
    &&& a.default_visibility == b.default_visibility
    &&& a.delete_local_after_upload == b.delete_local_after_upload
    &&& a.auto_upload_rules == b.auto_upload_rules
    &&& a.uploads@ == b.uploads@
}

impl Clone for CloudSettings {
    fn clone(&self) -> (r: Self)
        ensures
            same_cloud(r, *self),
    {
        CloudSettings {
            host_url: self.host_url.clone(),
            public_url: clone_opt(&self.public_url),
            connected_user_id: clone_opt(&self.connected_user_id),
            connected_username: clone_opt(&self.connected_username),
            connected_display_name: clone_opt(&self.connected_display_name),
            credential_target: clone_opt(&self.credential_target),
            credential_cleanup_targets: clone_strings(&self.credential_cleanup_targets),
            default_visibility: self.default_visibility.clone(),
            delete_local_after_upload: self.delete_local_after_upload,
            auto_upload_rules: self.auto_upload_rules,
            uploads: clone_entries(&self.uploads),
        }
    }
}

impl CloudSettings {
    /// The uploads are held in the order of their keys.
    pub open spec fn wf(self) -> bool {
        keys_ascend(self.uploads@)
    }

    /// Puts a record under a key, replacing the one that is there.
    pub fn insert_upload(&mut self, key: String, record: CloudUploadRecord)
        requires
            old(self).wf(),
        ensures
            final(self).wf(),
            record_under(final(self).uploads@, key@) == Some(record),
            forall|other: Seq<char>|
                other != key@ ==> #[trigger] record_under(final(self).uploads@, other)
                    == record_under(old(self).uploads@, other),
            same_cloud(
                CloudSettings { uploads: old(self).uploads, ..*final(self) },
                *old(self),
            ),
    {
        let ghost before = self.uploads@;
        let mut at: usize = 0;
        while at < self.uploads.len() && str_less(self.uploads[at].key.as_str(), key.as_str())
            invariant
                at <= self.uploads@.len(),
                self.uploads@ == before,
                forall|i: int| 0 <= i < at ==> text_less((#[trigger] before[i]).key@, key@),
            decreases self.uploads@.len() - at,
        {
            at += 1;
        }
        let ghost name = key@;
        let present = at < self.uploads.len() && str_eq(self.uploads[at].key.as_str(), key.as_str());
        let entry = UploadEntry { key, record };
        if present {
            self.uploads.set(at, entry);
            proof {
                lemma_replace(before, at as int, entry);
            }
        } else {
            self.uploads.insert(at, entry);
            proof {
                lemma_insert(before, at as int, entry);
            }
        }
    }
}

/// Looking a key up in entries whose keys ascend: the only entry with it decides.
pub proof fn lemma_record_at(entries: Seq<UploadEntry>, i: int)
    requires
        keys_ascend(entries),
        0 <= i < entries.len(),
    ensures
        record_under(entries, entries[i].key@) == Some(entries[i].record),
    decreases entries.len(),
{
    if i > 0 {
        crate::text::lemma_text_less_total(entries[0].key@, entries[i].key@);
        let rest = entries.skip(1);
        assert forall|a: int, b: int| 0 <= a < b < rest.len() implies text_less(
            (#[trigger] rest[a]).key@,
            (#[trigger] rest[b]).key@,
        ) by {
            assert(text_less(entries[a + 1].key@, entries[b + 1].key@));
        }
        lemma_record_at(rest, i - 1);
    }
}

/// Looking up a key that no entry has.
proof fn lemma_record_absent(entries: Seq<UploadEntry>, key: Seq<char>)
    requires
        forall|i: int| 0 <= i < entries.len() ==> (#[trigger] entries[i]).key@ != key,
    ensures
        record_under(entries, key) is None,
    decreases entries.len(),
{
    if entries.len() > 0 {
        let rest = entries.skip(1);
        assert forall|i: int| 0 <= i < rest.len() implies (#[trigger] rest[i]).key@ != key by {
            assert(rest[i] == entries[i + 1]);
        }
        lemma_record_absent(rest, key);
    }
}

/// Two lists of entries that agree on a key give the same record for it.
proof fn lemma_record_agrees(a: Seq<UploadEntry>, b: Seq<UploadEntry>, key: Seq<char>)
    requires
        keys_ascend(a),
        keys_ascend(b),
        forall|i: int|
            0 <= i < a.len() && (#[trigger] a[i]).key@ == key ==> exists|j: int|
                0 <= j < b.len() && #[trigger] b[j] == a[i],
        forall|j: int|
            0 <= j < b.len() && (#[trigger] b[j]).key@ == key ==> exists|i: int|
                0 <= i < a.len() && #[trigger] a[i] == b[j],
    ensures
        record_under(a, key) == record_under(b, key),
{
    if exists|i: int| 0 <= i < a.len() && (#[trigger] a[i]).key@ == key {
        let i = choose|i: int| 0 <= i < a.len() && (#[trigger] a[i]).key@ == key;
        lemma_record_at(a, i);
        let j = choose|j: int| 0 <= j < b.len() && #[trigger] b[j] == a[i];
        lemma_record_at(b, j);
    } else {
        lemma_record_absent(a, key);
        assert forall|j: int| 0 <= j < b.len() implies (#[trigger] b[j]).key@ != key by {
            if b[j].key@ == key {
                let i = choose|i: int| 0 <= i < a.len() && #[trigger] a[i] == b[j];
            }
        }
        lemma_record_absent(b, key);
    }
}

proof fn lemma_replace(before: Seq<UploadEntry>, at: int, entry: UploadEntry)
    requires
        keys_ascend(before),
        0 <= at < before.len(),
        before[at].key@ == entry.key@,
    ensures
        keys_ascend(before.update(at, entry)),
        record_under(before.update(at, entry), entry.key@) == Some(entry.record),
        forall|other: Seq<char>|
            other != entry.key@ ==> #[trigger] record_under(before.update(at, entry), other)
                == record_under(before, other),
{
    let after = before.update(at, entry);
    lemma_record_at(after, at);
    assert forall|other: Seq<char>| other != entry.key@ implies #[trigger] record_under(
        after,
        other,
    ) == record_under(before, other) by {
        assert forall|i: int| 0 <= i < after.len() && (#[trigger] after[i]).key@
            == other implies exists|j: int| 0 <= j < before.len() && #[trigger] before[j]
            == after[i] by {
            assert(before[i] == after[i]);
        }
        assert forall|i: int| 0 <= i < before.len() && (#[trigger] before[i]).key@
            == other implies exists|j: int| 0 <= j < after.len() && #[trigger] after[j]
            == before[i] by {
            assert(after[i] == before[i]);
        }
        lemma_record_agrees(after, before, other);
    }
}

proof fn lemma_insert(before: Seq<UploadEntry>, at: int, entry: UploadEntry)
    requires
        keys_ascend(before),
        0 <= at <= before.len(),
        forall|i: int| 0 <= i < at ==> text_less((#[trigger] before[i]).key@, entry.key@),
        at < before.len() ==> !text_less(before[at].key@, entry.key@) && before[at].key@
            != entry.key@,
    ensures
        keys_ascend(before.insert(at, entry)),
        record_under(before.insert(at, entry), entry.key@) == Some(entry.record),
        forall|other: Seq<char>|
            other != entry.key@ ==> #[trigger] record_under(before.insert(at, entry), other)
                == record_under(before, other),
{
    let after = before.insert(at, entry);
    if at < before.len() {
        crate::text::lemma_text_less_total(before[at].key@, entry.key@);
    }
    assert forall|i: int, j: int| 0 <= i < j < after.len() implies text_less(
        (#[trigger] after[i]).key@,
        (#[trigger] after[j]).key@,
    ) by {
        if i < at && j > at {
            assert(text_less(before[i].key@, before[j - 1].key@));
        } else if i > at {
            assert(text_less(before[i - 1].key@, before[j - 1].key@));
        } else if i == at {
            assert(text_less(entry.key@, before[at].key@));
            if j - 1 > at {
                assert(text_less(before[at].key@, before[j - 1].key@));
                crate::text::lemma_text_less_transitive(
                    entry.key@,
                    before[at].key@,
                    before[j - 1].key@,
                );
            }
        } else if j == at {
            assert(text_less(before[i].key@, entry.key@));
        } else {
            assert(text_less(before[i].key@, before[j].key@));
        }
    }
    lemma_record_at(after, at);
    assert forall|other: Seq<char>| other != entry.key@ implies #[trigger] record_under(
        after,
        other,
    ) == record_under(before, other) by {
        assert forall|i: int| 0 <= i < after.len() && (#[trigger] after[i]).key@
            == other implies exists|j: int| 0 <= j < before.len() && #[trigger] before[j]
            == after[i] by {
            if i < at {
                assert(before[i] == after[i]);
            } else {
                assert(before[i - 1] == after[i]);
            }
        }
        assert forall|i: int| 0 <= i < before.len() && (#[trigger] before[i]).key@
            == other implies exists|j: int| 0 <= j < after.len() && #[trigger] after[j]
            == before[i] by {
            if i < at {
                assert(after[i] == before[i]);
            } else {
                assert(after[i + 1] == before[i]);
            }
        }
        lemma_record_agrees(after, before, other);
    }
}

// ---------------------------------------------------------------------------
// osu!
// ---------------------------------------------------------------------------

/// Account of the osu! API.
#[derive(Debug, PartialEq, Eq)]
pub struct OsuApiSettings {
    pub account_generation: u64,
    pub client_id: Option<String>,
    pub user: Option<String>,
    pub credential_target: Option<String>,
    pub credential_cleanup_targets: Vec<String>,
    pub last_connected_username: Option<String>,
}

/// Two osu! settings with the same content.
pub open spec fn same_osu(a: OsuApiSettings, b: OsuApiSettings) -> bool {
    &&& a.account_generation == b.account_generation
    &&& a.client_id == b.client_id
    &&& a.user == b.user
    &&& a.credential_target == b.credential_target
    &&& a.credential_cleanup_targets@ == b.credential_cleanup_targets@
    &&& a.last_connected_username == b.last_connected_username
}

impl Clone for OsuApiSettings {
    fn clone(&self) -> (r: Self)
        ensures
            same_osu(r, *self),
    {
        OsuApiSettings {
            account_generation: self.account_generation,
            client_id: clone_opt(&self.client_id),
            user: clone_opt(&self.user),
            credential_target: clone_opt(&self.credential_target),
            credential_cleanup_targets: clone_strings(&self.credential_cleanup_targets),
            last_connected_username: clone_opt(&self.last_connected_username),
        }
    }
}

// ---------------------------------------------------------------------------
// Games
// ---------------------------------------------------------------------------

/// What is recorded of a game.
#[derive(Debug, Clone, Copy, PartialEq, Eq, Structural)]
pub enum GameRecordingMode {
    ReplaysOnly,
    FullSession,
}

/// A game that the user added.
#[derive(Debug, PartialEq, Eq)]
pub struct CustomGameSettings {
    pub id: String,
    pub enabled: bool,
}

impl Clone for CustomGameSettings {
    fn clone(&self) -> (r: Self)
        ensures
            r == *self,
    {
        CustomGameSettings { id: self.id.clone(), enabled: self.enabled }
    }
}

/// Detection of games, and what it does to recording.
#[derive(Debug, PartialEq, Eq)]
pub struct GameSettings {
    pub auto_detect: bool,
    pub pause_when_no_game: bool,
    pub custom_games: Vec<CustomGameSettings>,
}

fn clone_custom_games(games: &Vec<CustomGameSettings>) -> (r: Vec<CustomGameSettings>)
    ensures
        r@ == games@,
{
    let mut out: Vec<CustomGameSettings> = Vec::new();
    let mut i: usize = 0;
    while i < games.len()
        invariant
            i <= games@.len(),
            out@ == games@.take(i as int),
        decreases games@.len() - i,
    {
        out.push(games[i].clone());
        i += 1;
        assert(games@.take(i as int) =~= games@.take(i - 1).push(games@[i - 1]));
    }
    assert(games@.take(i as int) =~= games@);
    out
}

/// A game whose window was found.
#[derive(Debug, PartialEq, Eq)]
pub struct DetectedGame {
    pub identity: GameIdentity,
    pub name: String,
    pub hwnd: i64,
    pub window_title: String,
    pub process_id: u32,
    pub exe_name: String,
    pub exe_path: Option<String>,
    pub recording_mode: GameRecordingMode,
}

impl Clone for DetectedGame {
    fn clone(&self) -> (r: Self)
        ensures
            r == *self,
    {
        DetectedGame {
            identity: self.identity.clone(),
            name: self.name.clone(),
            hwnd: self.hwnd,
            window_title: self.window_title.clone(),
            process_id: self.process_id,
            exe_name: self.exe_name.clone(),
            exe_path: clone_opt(&self.exe_path),
            recording_mode: self.recording_mode,
        }
    }
}

/// The same game in the same window, with nothing changed.
pub open spec fn same_detection(a: DetectedGame, b: DetectedGame) -> bool {
    &&& same_identity(a.identity, b.identity)
    &&& a.name@ == b.name@
    &&& a.hwnd == b.hwnd
    &&& a.window_title@ == b.window_title@
    &&& a.process_id == b.process_id
    &&& a.exe_name@ == b.exe_name@
    &&& opt_view(a.exe_path) == opt_view(b.exe_path)
    &&& a.recording_mode == b.recording_mode
}

impl DetectedGame {
    /// Whether nothing changed from one detection to the next.
    pub fn same(&self, other: &DetectedGame) -> (r: bool)
        ensures
            r == same_detection(*self, *other),
    {
        self.identity.same(&other.identity) && str_eq(self.name.as_str(), other.name.as_str())
            && self.hwnd == other.hwnd && str_eq(
            self.window_title.as_str(),
            other.window_title.as_str(),
        ) && self.process_id == other.process_id && str_eq(
            self.exe_name.as_str(),
            other.exe_name.as_str(),
        ) && opt_eq(&self.exe_path, &other.exe_path) && self.recording_mode == other.recording_mode
    }
}

/// The same game in the same window; its title may have changed.
pub open spec fn same_window(a: Option<DetectedGame>, b: Option<DetectedGame>) -> bool {
    match (a, b) {
        (Some(a), Some(b)) => same_identity(a.identity, b.identity) && a.hwnd == b.hwnd,
        (None, None) => true,
        _ => false,
    }
}

pub fn same_game_window(current: &Option<DetectedGame>, next: &Option<DetectedGame>) -> (r: bool)
    ensures
        r == same_window(*current, *next),
{
    match (current, next) {
        (Some(current), Some(next)) => current.identity.same(&next.identity) && current.hwnd
            == next.hwnd,
        (None, None) => true,
        _ => false,
    }
}

/// Whether another recording mode was chosen for the game.
pub open spec fn mode_changed(a: Option<DetectedGame>, b: Option<DetectedGame>) -> bool {
    match (a, b) {
        (Some(a), Some(b)) => a.recording_mode != b.recording_mode,
        _ => false,
    }
}

pub fn game_recording_mode_changed(
    current: &Option<DetectedGame>,
    next: &Option<DetectedGame>,
) -> (r: bool)
    ensures
        r == mode_changed(*current, *next),
{
    match (current, next) {
        (Some(current), Some(next)) => current.recording_mode != next.recording_mode,
        _ => false,
    }
}

// ---------------------------------------------------------------------------
// The document
// ---------------------------------------------------------------------------

#[derive(Debug, Clone, Copy, PartialEq, Eq, Structural)]
pub enum CaptureMode {
    PrimaryMonitor,
    WindowTitle,
}

/// The settings document.
#[derive(Debug, PartialEq, Eq)]
pub struct AppSettings {
    pub hotkey: String,
    pub hotkey_secondary: Option<String>,
    pub recording_hotkey: Option<String>,
    pub recording_hotkey_secondary: Option<String>,
    pub games: GameSettings,
    pub cloud: CloudSettings,
    pub osu: OsuApiSettings,
    pub capture_mode: CaptureMode,
    pub window_title: String,
    pub fps: u32,
    pub media_dir: String,
    /// The quota in GiB, as the bit pattern of its double precision.
    pub disk_quota_gb_bits: u64,
    pub auto_delete_when_over_quota: bool,
    pub open_on_startup: bool,
    pub close_to_tray: bool,
    pub minimize_to_tray: bool,
}

/// Two documents with the same content.
pub open spec fn same_settings(a: AppSettings, b: AppSettings) -> bool {
    &&& a.hotkey == b.hotkey
    &&& a.hotkey_secondary == b.hotkey_secondary
    &&& a.recording_hotkey == b.recording_hotkey
    &&& a.recording_hotkey_secondary == b.recording_hotkey_secondary
    &&& a.games.auto_detect == b.games.auto_detect
    &&& a.games.pause_when_no_game == b.games.pause_when_no_game
    &&& a.games.custom_games@ == b.games.custom_games@
    &&& same_cloud(a.cloud, b.cloud)
    &&& same_osu(a.osu, b.osu)
    &&& a.capture_mode == b.capture_mode
    &&& a.window_title == b.window_title
    &&& a.fps == b.fps
    &&& a.media_dir == b.media_dir
    &&& a.disk_quota_gb_bits == b.disk_quota_gb_bits
    &&& a.auto_delete_when_over_quota == b.auto_delete_when_over_quota
    &&& a.open_on_startup == b.open_on_startup
    &&& a.close_to_tray == b.close_to_tray
    &&& a.minimize_to_tray == b.minimize_to_tray
}

impl Clone for AppSettings {
    fn clone(&self) -> (r: Self)
        ensures
            same_settings(r, *self),
    {
        AppSettings {
            hotkey: self.hotkey.clone(),
            hotkey_secondary: clone_opt(&self.hotkey_secondary),
            recording_hotkey: clone_opt(&self.recording_hotkey),
            recording_hotkey_secondary: clone_opt(&self.recording_hotkey_secondary),
            games: GameSettings {
                auto_detect: self.games.auto_detect,
                pause_when_no_game: self.games.pause_when_no_game,
                custom_games: clone_custom_games(&self.games.custom_games),
            },
            cloud: self.cloud.clone(),
            osu: self.osu.clone(),
            capture_mode: self.capture_mode,
            window_title: self.window_title.clone(),
            fps: self.fps,
            media_dir: self.media_dir.clone(),
            disk_quota_gb_bits: self.disk_quota_gb_bits,
            auto_delete_when_over_quota: self.auto_delete_when_over_quota,
            open_on_startup: self.open_on_startup,
            close_to_tray: self.close_to_tray,
            minimize_to_tray: self.minimize_to_tray,
        }
    }
}

/// Whether one of the user's games with that identifier is enabled.
pub open spec fn custom_game_enabled(games: Seq<CustomGameSettings>, id: Seq<char>) -> bool {
    exists|i: int| 0 <= i < games.len() && (#[trigger] games[i]).enabled && games[i].id@ == id
}

/// Whether a detected game is still one that is looked for. Whether a plugin is, is
/// `plugin_configured`.
pub open spec fn still_configured(
    settings: AppSettings,
    active: Option<DetectedGame>,
    plugin_configured: bool,
) -> bool {
    match active {
        None => true,
        Some(game) => settings.games.auto_detect && match game.identity {
            GameIdentity::BuiltInPlugin(_) => plugin_configured,
            GameIdentity::Custom(id) => custom_game_enabled(settings.games.custom_games@, id@),
        },
    }
}

fn has_enabled_custom_game(games: &Vec<CustomGameSettings>, id: &str) -> (r: bool)
    ensures
        r == custom_game_enabled(games@, id@),
{
    let mut i: usize = 0;
    while i < games.len()
        invariant
            i <= games@.len(),
            forall|k: int|
                0 <= k < i ==> !((#[trigger] games@[k]).enabled && games@[k].id@ == id@),
        decreases games@.len() - i,
    {
        if games[i].enabled && str_eq(games[i].id.as_str(), id) {
            assert(games@[i as int].enabled && games@[i as int].id@ == id@);
            return true;
        }
        i += 1;
    }
    false
}

pub fn active_game_still_configured(
    settings: &AppSettings,
    active: &Option<DetectedGame>,
    plugin_configured: bool,
) -> (r: bool)
    ensures
        r == still_configured(*settings, *active, plugin_configured),
{
    let game = match active {
        None => return true,
        Some(game) => game,
    };
    if !settings.games.auto_detect {
        return false;
    }
    match &game.identity {
        GameIdentity::BuiltInPlugin(_) => plugin_configured,
        GameIdentity::Custom(id) => has_enabled_custom_game(
            &settings.games.custom_games,
            id.as_str(),
        ),
    }
}

/// What the backend owns: the cloud account with its uploads, and the osu! account. The
/// frontend's preferences stay.
pub fn preserve_backend_owned_settings_fields(settings: &mut AppSettings, backend: &AppSettings)
    ensures
        same_osu(final(settings).osu, backend.osu),
        same_cloud(
            final(settings).cloud,
            CloudSettings {
                default_visibility: old(settings).cloud.default_visibility,
                delete_local_after_upload: old(settings).cloud.delete_local_after_upload,
                auto_upload_rules: old(settings).cloud.auto_upload_rules,
                ..backend.cloud
            },
        ),
        *final(settings) == (AppSettings {
            cloud: final(settings).cloud,
            osu: final(settings).osu,
            ..*old(settings)
        }),
{
    settings.cloud.host_url = backend.cloud.host_url.clone();
    settings.cloud.public_url = clone_opt(&backend.cloud.public_url);
    settings.cloud.connected_user_id = clone_opt(&backend.cloud.connected_user_id);
    settings.cloud.connected_username = clone_opt(&backend.cloud.connected_username);
    settings.cloud.connected_display_name = clone_opt(&backend.cloud.connected_display_name);
    settings.cloud.credential_target = clone_opt(&backend.cloud.credential_target);
    settings.cloud.credential_cleanup_targets = clone_strings(
        &backend.cloud.credential_cleanup_targets,
    );
    settings.cloud.uploads = clone_entries(&backend.cloud.uploads);
    settings.osu = backend.osu.clone();
}

/// The save hotkeys: the first, and the second where there is one.
pub open spec fn save_hotkeys(settings: AppSettings) -> Seq<Seq<char>> {
    match settings.hotkey_secondary {
        Some(second) => seq![settings.hotkey@, second@],
        None => seq![settings.hotkey@],
    }
}

/// The recording hotkeys that are set.
pub open spec fn recording_hotkeys(settings: AppSettings) -> Seq<Seq<char>> {
    let first = match settings.recording_hotkey {
        Some(hotkey) => seq![hotkey@],
        None => Seq::empty(),
    };
    match settings.recording_hotkey_secondary {
        Some(hotkey) => first.push(hotkey@),
        None => first,
    }
}

impl AppSettings {
    pub fn hotkeys(&self) -> (r: Vec<String>)
        ensures
            views(r@) == save_hotkeys(*self),
    {
        let mut out: Vec<String> = Vec::new();
        out.push(self.hotkey.clone());
        if let Some(second) = &self.hotkey_secondary {
            out.push(second.clone());
        }
        assert(views(out@) =~= save_hotkeys(*self));
        out
    }

    pub fn recording_hotkeys(&self) -> (r: Vec<String>)
        ensures
            views(r@) == recording_hotkeys(*self),
    {
        let mut out: Vec<String> = Vec::new();
        if let Some(hotkey) = &self.recording_hotkey {
            out.push(hotkey.clone());
        }
        if let Some(hotkey) = &self.recording_hotkey_secondary {
            out.push(hotkey.clone());
        }
        assert(views(out@) =~= recording_hotkeys(*self));
        out
    }
}

/// The label of the save hotkeys.
pub fn save_hotkey_label(settings: &AppSettings) -> (label: String)
    ensures
        label@ == joined(save_hotkeys(*settings), " / "@),
{
    let hotkeys = settings.hotkeys();
    join(&hotkeys, " / ")
}

/// The text of the tray entry that saves a replay.
pub fn save_menu_text(label: &str) -> (text: String)
    ensures
        text@ == "Save Replay ("@ + label@ + ")"@,
{
    concat3("Save Replay (", label, ")")
}

// ---------------------------------------------------------------------------
// Start with the system
// ---------------------------------------------------------------------------

/// Debug builds share settings with installed ones, so they leave the registry alone.
pub fn autostart_should_mutate_for_build(debug_build: bool) -> (r: bool)
    ensures
        r == !debug_build,
{
    !debug_build
}

/// The preference that is saved: a debug build keeps the one that is there.
pub fn saved_autostart_preference_for_build(
    requested: bool,
    previous: bool,
    debug_build: bool,
) -> (r: bool)
    ensures
        r == if debug_build {
            previous
        } else {
            requested
        },
{
    if debug_build {
        previous
    } else {
        requested
    }
}

/// A record is found under its own key, and nothing under a key that no entry has.
pub proof fn law_records_are_found_under_their_keys(
    entries: Seq<UploadEntry>,
    key: Seq<char>,
    i: int,
)
    requires
        keys_ascend(entries),
    ensures
        0 <= i < entries.len() && entries[i].key@ == key ==> record_under(entries, key) == Some(
            entries[i].record,
        ),
        (forall|k: int| 0 <= k < entries.len() ==> (#[trigger] entries[k]).key@ != key)
            ==> record_under(entries, key) is None,
{
    if 0 <= i < entries.len() {
        lemma_record_at(entries, i);
    }
    if record_under(entries, key) is Some {
        let k = lemma_record_found(entries, key);
        assert(entries[k].key@ == key);
    }
}

/// Settings that are the same, as a copy is, are the same in every field.
pub proof fn law_same_settings_agree_in_every_field(a: AppSettings, b: AppSettings)
    requires
        same_settings(a, b),
    ensures
        a.hotkey == b.hotkey && a.hotkey_secondary == b.hotkey_secondary,
        a.recording_hotkey == b.recording_hotkey && a.recording_hotkey_secondary
            == b.recording_hotkey_secondary,
        a.games.auto_detect == b.games.auto_detect && a.games.pause_when_no_game
            == b.games.pause_when_no_game && a.games.custom_games@ == b.games.custom_games@,
        a.cloud.host_url == b.cloud.host_url && a.cloud.public_url == b.cloud.public_url,
        a.cloud.connected_user_id == b.cloud.connected_user_id && a.cloud.connected_username
            == b.cloud.connected_username && a.cloud.connected_display_name
            == b.cloud.connected_display_name,
        a.cloud.credential_target == b.cloud.credential_target
            && a.cloud.credential_cleanup_targets@ == b.cloud.credential_cleanup_targets@,
        a.cloud.default_visibility == b.cloud.default_visibility
            && a.cloud.delete_local_after_upload == b.cloud.delete_local_after_upload
            && a.cloud.auto_upload_rules == b.cloud.auto_upload_rules,
        a.cloud.uploads@ == b.cloud.uploads@,
        a.osu.account_generation == b.osu.account_generation && a.osu.client_id == b.osu.client_id
            && a.osu.user == b.osu.user && a.osu.credential_target == b.osu.credential_target
            && a.osu.credential_cleanup_targets@ == b.osu.credential_cleanup_targets@
            && a.osu.last_connected_username == b.osu.last_connected_username,
        a.capture_mode == b.capture_mode && a.window_title == b.window_title && a.fps == b.fps,
        a.media_dir == b.media_dir && a.disk_quota_gb_bits == b.disk_quota_gb_bits
            && a.auto_delete_when_over_quota == b.auto_delete_when_over_quota,
        a.open_on_startup == b.open_on_startup && a.close_to_tray == b.close_to_tray
            && a.minimize_to_tray == b.minimize_to_tray,
{
}

/// Two detections are the same exactly where they agree in all that was seen; they are of one
/// window where they are of one game and one handle, whatever its title.
pub proof fn law_same_detections(a: DetectedGame, b: DetectedGame)
    ensures
        same_detection(a, b) <==> {
            &&& a.identity is Custom <==> b.identity is Custom
            &&& crate::game_identity::identity_id(a.identity)
                == crate::game_identity::identity_id(b.identity)
            &&& a.name@ == b.name@ && a.hwnd == b.hwnd && a.window_title@ == b.window_title@
            &&& a.process_id == b.process_id && a.exe_name@ == b.exe_name@
            &&& (a.exe_path is None <==> b.exe_path is None)
            &&& (a.exe_path is Some && b.exe_path is Some ==> a.exe_path->0@ == b.exe_path->0@)
            &&& a.recording_mode == b.recording_mode
        },
        same_window(Some(a), Some(b)) <==> {
            &&& a.identity is Custom <==> b.identity is Custom
            &&& crate::game_identity::identity_id(a.identity)
                == crate::game_identity::identity_id(b.identity)
            &&& a.hwnd == b.hwnd
        },
        same_window(None, None),
        !same_window(Some(a), None) && !same_window(None, Some(b)),
        mode_changed(Some(a), Some(b)) <==> a.recording_mode != b.recording_mode,
        !mode_changed(Some(a), None) && !mode_changed(None, Some(b)) && !mode_changed(None, None),
{
}

/// A game that is detected stays configured exactly where games are detected at all and its own
/// plugin, or a custom game of its identifier that is enabled, is there.
pub proof fn law_detected_games_stay_configured(
    settings: AppSettings,
    game: DetectedGame,
    plugin_configured: bool,
)
    ensures
        still_configured(settings, None, plugin_configured),
        still_configured(settings, Some(game), plugin_configured) ==> settings.games.auto_detect,
        settings.games.auto_detect && game.identity is BuiltInPlugin ==> still_configured(
            settings,
            Some(game),
            plugin_configured,
        ) == plugin_configured,
        settings.games.auto_detect && game.identity is Custom ==> (still_configured(
            settings,
            Some(game),
            plugin_configured,
        ) <==> exists|i: int|
            0 <= i < settings.games.custom_games@.len() && (
            #[trigger] settings.games.custom_games@[i]).enabled
                && settings.games.custom_games@[i].id@ == game.identity->Custom_0@),
{
}

/// The hotkeys of the settings are the first and, where there is one, the second, in this order;
/// saving always has one, recording may have none.
pub proof fn law_hotkeys_of_the_settings(settings: AppSettings)
    ensures
        save_hotkeys(settings)[0] == settings.hotkey@,
        settings.hotkey_secondary is None ==> save_hotkeys(settings).len() == 1,
        settings.hotkey_secondary matches Some(second) ==> save_hotkeys(settings).len() == 2
            && save_hotkeys(settings)[1] == second@,
        settings.recording_hotkey is None && settings.recording_hotkey_secondary is None
            ==> recording_hotkeys(settings).len() == 0,
        settings.recording_hotkey matches Some(first) ==> recording_hotkeys(settings).len() >= 1
            && recording_hotkeys(settings)[0] == first@,
        settings.recording_hotkey_secondary matches Some(second) ==> recording_hotkeys(
            settings,
        ).len() >= 1 && recording_hotkeys(settings).last() == second@,
        recording_hotkeys(settings).len() == (if settings.recording_hotkey is Some {
            1int
        } else {
            0
        }) + (if settings.recording_hotkey_secondary is Some {
            1int
        } else {
            0
        }),
{
}

} // verus!
