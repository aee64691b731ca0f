//! The cloud account, its cache, and the records of uploads.

use clipline_app::cache_identity::validate_cloud_cache_component;
use clipline_app::cloud::{
    account_host_url, asset_revision, begin_cloud_upload, begin_status_sync, cached_cloud_clip_name,
    cleanup_result, clip_paths_equal, cloud_cache_account, cloud_cache_display_path,
    cloud_record_for_path, cloud_user_avatar_data_url, cloud_work_is_current, connect_account,
    connect_visibility, connection_status, current_foreground_lifecycle, device_token_request,
    disconnect_account, ensure_cache_window, ensure_cloud_connected, existing_uploaded_record,
    expected_asset_size, finish_cloud_upload, forget_deleted_credentials, migrates_namespace,
    profile_patch_applies, service_account_from_settings, status_sync_result, CloudAssetKind,
    CloudClipAssetRequest, CloudClipStatusSyncResult, CloudConnectRequest, CloudMediaLeases,
    CloudRequests, CloudUploadResult, ConfirmedAccount, StatusSyncOutcome, StatusSyncStart,
    UploadClipCommandRequest, UploadStart,
};
use clipline_app::cloud_upload::{
    admission_cas, classify_settings_error, cloud_record_from_upload, desktop_upload_event,
    ensure_same_upload, ensure_snapshot_owner, is_current_owner, next_generation,
    path_aliases, phase_for_persisted_status, reconciled_slots, reload_record, removal_cas,
    source_aliases, transition_cas,
    upload_owner_from_snapshot, CloudRecordCasKind, DurableUploadToken, LiveRecords,
    SettingsSnapshot, UploadAccountOwner, UploadEventKind, UploadPhase, UploadRecord,
    UploadRecordErrorKind, UploadServiceEvent,
};
use clipline_app::settings::{CloudSettings, CloudUploadRecord};
use clipline_app::window::{WindowLifecycleMode, WindowLifecycleSnapshot};

/// A record whose fields are in their normal form already.
fn durable_record(record: &UploadRecord) -> CloudUploadRecord {
    cloud_record_from_upload(record, |durable: CloudUploadRecord| durable)
}

fn cloud_settings() -> CloudSettings {
    CloudSettings {
        host_url: String::new(),
        public_url: None,
        connected_user_id: None,
        connected_username: None,
        connected_display_name: None,
        credential_target: None,
        credential_cleanup_targets: Vec::new(),
        default_visibility: "private".to_string(),
        delete_local_after_upload: false,
        auto_upload_rules: false,
        uploads: Vec::new(),
    }
}

fn upload_record(
    local_clip_id: &str,
    path: &str,
    upload_status: &str,
    updated_at_unix: u64,
) -> CloudUploadRecord {
    CloudUploadRecord {
        local_clip_id: local_clip_id.to_string(),
        client_clip_id: None,
        upload_generation: None,
        path: path.to_string(),
        remote_clip_id: None,
        remote_url: None,
        visibility: "private".to_string(),
        upload_status: upload_status.to_string(),
        error: None,
        updated_at_unix,
    }
}

fn some(text: &str) -> Option<String> {
    Some(text.to_string())
}

#[test]
fn cached_asset_dto_hides_windows_verbatim_prefixes() {
    assert_eq!(
        cloud_cache_display_path(r"\\?\C:\Videos\Clipline\clip.mp4"),
        r"C:\Videos\Clipline\clip.mp4"
    );
    assert_eq!(
        cloud_cache_display_path(r"\\?\UNC\nas\clips\clip.mp4"),
        r"\\nas\clips\clip.mp4"
    );
}

#[test]
fn legacy_windows_canonical_paths_match_library_paths() {
    assert!(clip_paths_equal(
        r"\\?\D:\Videos\Clipline\clip.mp4",
        r"D:\Videos\Clipline\clip.mp4"
    ));
    assert!(clip_paths_equal(
        r"d:/videos/clipline/CLIP.mp4",
        r"D:\Videos\Clipline\clip.mp4"
    ));
    assert!(!clip_paths_equal("/Clips/clip.mp4", "/clips/clip.mp4"));
}

#[test]
fn uploaded_record_lookup_blocks_legacy_path_reupload() {
    let mut cloud = cloud_settings();
    let mut record = upload_record(
        "legacy",
        r"\\?\D:\Videos\Clipline\clip.mp4",
        "uploaded_public",
        10,
    );
    record.remote_clip_id = some("remote-1");
    record.remote_url = some("https://clips.example.com/c/c_existing");
    cloud.insert_upload("legacy".to_string(), record.clone());

    assert_eq!(
        existing_uploaded_record(&cloud, None, r"D:\Videos\Clipline\clip.mp4"),
        Some(record.clone())
    );
    assert_eq!(
        existing_uploaded_record(
            &cloud,
            Some("different-payload-hash"),
            r"D:\Videos\Clipline\clip.mp4"
        ),
        None,
        "a changed payload at the same path must not reuse an older upload"
    );
}

#[test]
fn uploaded_private_record_without_share_url_blocks_reupload() {
    let mut cloud = cloud_settings();
    let mut record = upload_record(
        "private-local",
        r"D:\Videos\Clipline\private.mp4",
        "uploaded_private",
        10,
    );
    record.remote_clip_id = some("private-remote");
    cloud.insert_upload("private-local".to_string(), record.clone());

    assert_eq!(
        existing_uploaded_record(
            &cloud,
            Some("private-local"),
            r"D:\Videos\Clipline\private.mp4"
        ),
        Some(record)
    );
}

#[test]
fn the_latest_record_of_a_path_counts() {
    let mut cloud = cloud_settings();
    let path = r"D:\clip.mp4";
    cloud.insert_upload("a".to_string(), upload_record("a", path, "failed", 5));
    cloud.insert_upload("b".to_string(), upload_record("b", path, "failed", 9));
    cloud.insert_upload("c".to_string(), upload_record("c", r"D:\other.mp4", "failed", 99));
    assert_eq!(cloud_record_for_path(&cloud, path).unwrap().local_clip_id, "b");
    assert_eq!(existing_uploaded_record(&cloud, None, path), None);
    assert_eq!(cloud_record_for_path(&cloud, r"D:\none.mp4"), None);
}

#[test]
fn legacy_cloud_cache_migration_moves_only_regular_namespace_directories() {
    assert!(migrates_namespace(true, false, "abcdef0123456789", false));
    assert!(!migrates_namespace(false, false, "unrelated.txt", false));
    assert!(!migrates_namespace(true, true, "1111111111111111", false));
    assert!(!migrates_namespace(true, false, "abcdef0123456789", true));
    assert!(!migrates_namespace(true, false, "abcdef012345678", false));
    assert!(!migrates_namespace(true, false, "abcdef012345678g", false));
}

#[test]
fn cloud_connection_status_includes_display_name() {
    let mut cloud = cloud_settings();
    cloud.connected_display_name = some("Dain");
    cloud.connected_username = some("dain98");

    let status = connection_status(&cloud, false, false);

    assert_eq!(status.display_name.as_deref(), Some("Dain"));
    assert_eq!(status.username.as_deref(), Some("dain98"));
}

#[test]
fn a_connection_needs_its_token() {
    let mut cloud = cloud_settings();
    assert!(!connection_status(&cloud, true, true).connected);
    cloud.credential_target = some("target");
    assert!(connection_status(&cloud, true, true).connected);
    assert!(!connection_status(&cloud, true, false).connected);
    assert!(!connection_status(&cloud, false, true).connected);
    assert!(connection_status(&cloud, false, true).token_present);
}

#[test]
fn cloud_user_avatar_data_url_preserves_legacy_shape() {
    assert_eq!(
        cloud_user_avatar_data_url("image/png", b"\x01\x02\x03"),
        "data:image/png;base64,AQID"
    );
}

#[test]
fn avatars_of_every_length_are_encoded() {
    assert_eq!(cloud_user_avatar_data_url("t", b""), "data:t;base64,");
    assert_eq!(cloud_user_avatar_data_url("t", b"f"), "data:t;base64,Zg==");
    assert_eq!(cloud_user_avatar_data_url("t", b"fo"), "data:t;base64,Zm8=");
    assert_eq!(cloud_user_avatar_data_url("t", b"foobar"), "data:t;base64,Zm9vYmFy");
    assert_eq!(cloud_user_avatar_data_url("t", &[0xfb, 0xff]), "data:t;base64,+/8=");
}

#[test]
fn cache_components_are_safe_names() {
    assert_eq!(
        validate_cloud_cache_component(" c_1-A ", "clip id"),
        Ok("c_1-A".to_string())
    );
    for bad in ["", "  ", "a/b", "..", "a b", "\u{e9}"] {
        assert_eq!(
            validate_cloud_cache_component(bad, "clip id"),
            Err("clip id contains unsupported characters".to_string())
        );
    }
}

#[test]
fn cached_clips_are_shown_as_mp4() {
    assert_eq!(cached_cloud_clip_name(&None), "Cloud clip.mp4");
    assert_eq!(cached_cloud_clip_name(&some("  ")), "Cloud clip.mp4");
    assert_eq!(cached_cloud_clip_name(&some(" Ace ")), "Ace.mp4");
    assert_eq!(cached_cloud_clip_name(&some("Ace.MP4")), "Ace.MP4");
}

fn asset_request() -> CloudClipAssetRequest {
    CloudClipAssetRequest {
        remote_clip_id: "r".to_string(),
        title: None,
        duration_ms: None,
        file_size_bytes: Some(7),
        updated_at_unix: Some(3),
    }
}

#[test]
fn assets_are_expected_to_have_their_size() {
    let mut request = asset_request();
    assert_eq!(expected_asset_size(&request, CloudAssetKind::Media), Some(7));
    assert_eq!(expected_asset_size(&request, CloudAssetKind::Thumbnail), None);
    assert_eq!(asset_revision(&request), 3);
    request.file_size_bytes = Some(-1);
    request.updated_at_unix = None;
    assert_eq!(expected_asset_size(&request, CloudAssetKind::Media), None);
    assert_eq!(asset_revision(&request), 0);
}

#[test]
fn leases_have_numbers_of_their_own() {
    let mut leases = CloudMediaLeases::new();
    let first = leases.register_cloud_media_lease("a").unwrap();
    let second = leases.register_cloud_media_lease("b").unwrap();
    assert_ne!(first, second);
    leases.release_cloud_media_lease(first);
    assert_eq!(leases.leases.get(&second), Some(&"b"));
    assert_eq!(leases.leases.len(), 1);
    leases.release_all_cloud_media_leases();
    assert!(leases.leases.is_empty());
    assert_eq!(leases.register_cloud_media_lease("c"), Ok(3));
    leases.last = u64::MAX;
    assert!(leases.register_cloud_media_lease("d").is_err());
}

// The account

fn confirmed() -> ConfirmedAccount {
    ConfirmedAccount {
        base_url: "https://cloud.example/".to_string(),
        public_url: " https://public.example// ".to_string(),
        user_id: "user-1".to_string(),
        username: "dain98".to_string(),
        display_name: some("Dain"),
    }
}

#[test]
fn connecting_saves_the_account_and_retires_the_old_credential() {
    let mut cloud = cloud_settings();
    cloud.insert_upload("a".to_string(), upload_record("a", "a.mp4", "failed", 1));
    assert_eq!(account_host_url(&confirmed()), "https://cloud.example");
    connect_account(&mut cloud, &confirmed(), "new-target", "public", &some("old-target"));
    assert_eq!(cloud.host_url, "https://cloud.example");
    assert_eq!(cloud.public_url, some("https://public.example"));
    assert_eq!(cloud.connected_user_id, some("user-1"));
    assert_eq!(cloud.connected_username, some("dain98"));
    assert_eq!(cloud.connected_display_name, some("Dain"));
    assert_eq!(cloud.credential_target, some("new-target"));
    assert_eq!(cloud.default_visibility, "public");
    assert_eq!(cloud.credential_cleanup_targets, vec!["old-target".to_string()]);
    assert!(cloud.uploads.is_empty(), "records of another account are dropped");
}

#[test]
fn connecting_again_keeps_the_records() {
    let mut cloud = cloud_settings();
    connect_account(&mut cloud, &confirmed(), "target", "private", &None);
    cloud.insert_upload("a".to_string(), upload_record("a", "a.mp4", "failed", 1));
    connect_account(&mut cloud, &confirmed(), "target", "private", &some("target"));
    assert_eq!(cloud.uploads.len(), 1);
    assert!(cloud.credential_cleanup_targets.is_empty());
}

#[test]
fn disconnecting_is_finished_when_the_credential_is_gone() {
    let mut cloud = cloud_settings();
    connect_account(&mut cloud, &confirmed(), "target", "private", &None);
    disconnect_account(&mut cloud, &some("target"));
    assert_eq!(cloud.connected_user_id, None);
    assert_eq!(cloud.credential_target, some("target"));
    assert_eq!(cloud.credential_cleanup_targets, vec!["target".to_string()]);
    forget_deleted_credentials(&mut cloud, &Vec::new());
    assert_eq!(cloud.credential_target, some("target"));
    forget_deleted_credentials(&mut cloud, &vec!["target".to_string()]);
    assert_eq!(cloud.credential_target, None);
    assert!(cloud.credential_cleanup_targets.is_empty());
    assert_eq!(cleanup_result(&Vec::new()), Ok(()));
    assert_eq!(
        cleanup_result(&vec!["a".to_string(), "b".to_string()]),
        Err("a, b".to_string())
    );
}

#[test]
fn device_tokens_are_asked_for_with_trimmed_fields() {
    let mut request = CloudConnectRequest {
        host_url: " https://c ".to_string(),
        username: " dain ".to_string(),
        password: "SECRET-REDACTED".to_string(),
        device_name: some("  "),
        plain_http_confirmed: false,
        default_visibility: None,
    };
    let asked = device_token_request(&request);
    assert_eq!(asked.host_url, "https://c");
    assert_eq!(asked.username, "dain");
    assert_eq!(asked.device_name, "Clipline Desktop");
    request.device_name = some(" Rig ");
    assert_eq!(device_token_request(&request).device_name, "Rig");
    assert_eq!(connect_visibility(None), "private");
    assert_eq!(connect_visibility(some("unlisted")), "unlisted");
}

fn foreground(revision: u64) -> WindowLifecycleSnapshot {
    WindowLifecycleSnapshot { mode: WindowLifecycleMode::Foreground, revision, backgrounded: false }
}

fn tray(revision: u64) -> WindowLifecycleSnapshot {
    WindowLifecycleSnapshot { mode: WindowLifecycleMode::Tray, revision, backgrounded: true }
}

#[test]
fn cloud_work_ends_with_its_foreground() {
    let cloud = cloud_settings();
    let account = || service_account_from_settings(&cloud, 4, Ok("key".to_string()), false);
    let mut requests = CloudRequests { last: 0 };
    let first = requests.current_cloud_work(foreground(7), account()).unwrap();
    let second = requests.current_cloud_work(foreground(7), account()).unwrap();
    assert_ne!(first, second);
    assert!(cloud_work_is_current(&first, &first, foreground(7)));
    assert!(!cloud_work_is_current(&second, &first, foreground(7)));
    assert!(!cloud_work_is_current(&first, &first, foreground(8)));
    assert!(!cloud_work_is_current(&first, &first, tray(7)));
    assert_eq!(
        requests.current_cloud_work(tray(8), account()),
        Err("cloud foreground work requires the main window".to_string())
    );
    assert_eq!(
        requests.current_cloud_work(foreground(7), Err("no key".to_string())),
        Err("no key".to_string())
    );
    assert_eq!(current_foreground_lifecycle(foreground(7)), Ok(foreground(7)));
}

#[test]
fn profiles_are_applied_to_the_account_they_are_of() {
    let mut cloud = cloud_settings();
    cloud.connected_user_id = some("user-1");
    let account =
        service_account_from_settings(&cloud, 4, Ok("key".to_string()), true).unwrap();
    assert!(profile_patch_applies(&account, "key", 4, "user-1"));
    assert!(!profile_patch_applies(&account, "key", 5, "user-1"));
    assert!(!profile_patch_applies(&account, "other", 4, "user-1"));
    assert!(!profile_patch_applies(&account, "key", 4, "user-2"));
}

#[test]
fn the_cache_needs_an_account_and_the_current_window() {
    let mut cloud = cloud_settings();
    assert_eq!(
        cloud_cache_account(&cloud, false),
        Err("Clipline Cloud is not connected".to_string())
    );
    assert_eq!(
        cloud_cache_account(&cloud, true),
        Err("Clipline Cloud account identity is unavailable".to_string())
    );
    cloud.connected_user_id = some("user-1");
    assert!(cloud_cache_account(&cloud, true).unwrap().contains("user-1"));
    assert_eq!(ensure_cache_window(foreground(3), foreground(3)), Ok(()));
    for (lifecycle, current) in [(foreground(3), foreground(4)), (tray(3), tray(3))] {
        assert_eq!(
            ensure_cache_window(lifecycle, current),
            Err("cloud cache work requires the current foreground window".to_string())
        );
    }
}

// Uploads as the frontend sees them

#[test]
fn status_sync_follows_the_record() {
    let record = upload_record("a", "a.mp4", "processing", 1);
    assert_eq!(
        begin_status_sync("a.mp4".to_string(), None, Ok(()), &None),
        Ok(StatusSyncStart::Finished(CloudClipStatusSyncResult {
            path: "a.mp4".to_string(),
            record: None,
            removed: false,
        }))
    );
    assert_eq!(
        begin_status_sync(
            "a.mp4".to_string(),
            Some(record.clone()),
            Err("not connected".to_string()),
            &some("t")
        ),
        Err("not connected".to_string())
    );
    let mut remote = record.clone();
    remote.remote_clip_id = some("r-1");
    assert_eq!(
        begin_status_sync("a.mp4".to_string(), Some(remote), Ok(()), &some("t")),
        Ok(StatusSyncStart::Ask {
            local_clip_id: "a".to_string(),
            credential_target: "t".to_string(),
        })
    );
    let removed = status_sync_result("a.mp4".to_string(), StatusSyncOutcome::Removed);
    assert!(removed.removed && removed.record.is_none());
    let kept = status_sync_result("a.mp4".to_string(), StatusSyncOutcome::Updated(record.clone()));
    assert_eq!(kept.record, Some(record));
}

fn upload_request() -> UploadClipCommandRequest {
    UploadClipCommandRequest {
        path: "a.mp4".to_string(),
        visibility: None,
        title: some("Ace"),
        description: None,
        audio_track_ids: None,
    }
}

#[test]
fn an_upload_that_is_there_is_not_repeated() {
    let mut cloud = cloud_settings();
    cloud.credential_target = some("t");
    let mut record = upload_record("a", "a.mp4", "uploaded_private", 1);
    record.remote_clip_id = some("r-1");
    cloud.insert_upload("a".to_string(), record.clone());
    assert_eq!(
        begin_cloud_upload(&cloud, "a", upload_request(), None),
        Ok(UploadStart::AlreadyUploaded(CloudUploadResult {
            record: record.clone(),
            clip: None,
            local_deleted: false,
        }))
    );
    match begin_cloud_upload(&cloud, "b", upload_request(), some("public")).unwrap() {
        UploadStart::Start { credential_target, intent } => {
            assert_eq!(credential_target, "t");
            assert_eq!(intent.title, some("Ace"));
            assert_eq!(intent.visibility, "public");
            assert!(!intent.delete_local_after_upload);
        }
        UploadStart::AlreadyUploaded(_) => panic!("another clip is not uploaded"),
    }
    cloud.credential_target = None;
    assert!(begin_cloud_upload(&cloud, "b", upload_request(), None).is_err());
    assert_eq!(
        ensure_cloud_connected(false),
        Err("connect to Clipline Cloud first".to_string())
    );
    assert_eq!(ensure_cloud_connected(true), Ok(()));
    assert_eq!(
        finish_cloud_upload(Some(record.clone()), true, "Completed"),
        Ok(CloudUploadResult { record, clip: None, local_deleted: true })
    );
    assert_eq!(
        finish_cloud_upload(None, false, "Superseded"),
        Err("cloud upload ownership changed before completion (Superseded)".to_string())
    );
}

// Records of uploads

fn connected_snapshot() -> SettingsSnapshot {
    let mut cloud = cloud_settings();
    cloud.host_url = "https://cloud.example".to_string();
    cloud.connected_user_id = some("user-1");
    cloud.credential_target = some("credential-1");
    SettingsSnapshot { cloud, revision: 1, account_generation: 1 }
}

fn owner(snapshot: &SettingsSnapshot) -> UploadAccountOwner {
    upload_owner_from_snapshot(snapshot, true, Ok("account-key".to_string())).unwrap()
}

fn record(snapshot: &SettingsSnapshot, generation: u64, path: &str) -> UploadRecord {
    let owner = owner(snapshot);
    UploadRecord {
        token: DurableUploadToken {
            account_key: owner.account_key,
            account_generation: owner.account_generation,
            upload_generation: generation,
            local_clip_id: "local-1".to_string(),
            source_path: path.to_ascii_lowercase(),
        },
        client_clip_id: None,
        path: path.to_string(),
        visibility: "private".to_string(),
        phase: UploadPhase::Queued,
        terminal: false,
        upload_status: "queued".to_string(),
        received_size_bytes: 0,
        file_size_bytes: 0,
        remote_clip_id: None,
        remote_url: None,
        error: None,
        local_deleted: false,
        updated_at_unix: 10,
    }
}

const MAX_SLOTS: usize = 16;

fn take_in(
    snapshot: &SettingsSnapshot,
    record: &UploadRecord,
) -> Result<clipline_app::cloud_upload::CloudRecordCas, clipline_app::cloud_upload::UploadRecordError>
{
    admission_cas(
        snapshot,
        record,
        durable_record(record),
        &|a: &str, b: &str| clip_paths_equal(a, b),
        MAX_SLOTS,
    )
}

fn remove(
    snapshot: &SettingsSnapshot,
    expected: &UploadRecord,
) -> Result<clipline_app::cloud_upload::CloudRecordCas, clipline_app::cloud_upload::UploadRecordError>
{
    removal_cas(
        snapshot,
        expected,
        &durable_record(expected),
        &|a: &str, b: &str| clip_paths_equal(a, b),
        MAX_SLOTS,
    )
}

fn reload(snapshot: &SettingsSnapshot, durable: &CloudUploadRecord) -> UploadRecord {
    reload_record(
        &owner(snapshot),
        durable,
        Ok(()),
        Some(durable.path.to_ascii_lowercase()),
        false,
    )
    .unwrap()
}

#[test]
fn legacy_status_reload_mapping_is_explicit_and_fail_closed() {
    for (status, phase) in [
        ("queued", UploadPhase::Queued),
        ("retrying", UploadPhase::Queued),
        ("uploading", UploadPhase::Uploading),
        ("processing", UploadPhase::Processing),
        ("uploaded_processing", UploadPhase::Abandoned),
        ("uploaded_private", UploadPhase::Completed),
        ("uploaded_public", UploadPhase::Completed),
        ("failed", UploadPhase::Failed),
        ("canceled", UploadPhase::Canceled),
    ] {
        assert_eq!(phase_for_persisted_status(status).unwrap(), phase);
    }
    let refused = phase_for_persisted_status("not_uploaded").unwrap_err();
    assert_eq!(refused.kind, UploadRecordErrorKind::Persistence);
    assert_eq!(
        phase_for_persisted_status("a\"b").unwrap_err().message,
        "durable upload status \"a\\\"b\" cannot be reloaded"
    );
}

#[test]
fn admission_reconciles_windows_aliases_in_one_exact_cas() {
    let mut snapshot = connected_snapshot();
    let mut legacy = durable_record(&record(&snapshot, 7, r"\\?\C:\Media\Clip.mp4"));
    legacy.local_clip_id = "legacy-client-id".to_string();
    snapshot.cloud.insert_upload("legacy-client-id".to_string(), legacy.clone());
    let mut unrelated = legacy.clone();
    unrelated.local_clip_id = "unrelated".to_string();
    unrelated.path = r"C:\Media\other.mp4".to_string();
    snapshot.cloud.insert_upload("unrelated".to_string(), unrelated);
    let admitted = record(&snapshot, 8, r"c:\media\CLIP.mp4");

    let cas = take_in(&snapshot, &admitted).unwrap();

    assert_eq!(cas.kind, CloudRecordCasKind::Admit { upload_generation: 8 });
    assert_eq!(cas.expected.len(), 2);
    assert!(cas
        .expected
        .iter()
        .any(|slot| slot.key == "legacy-client-id" && slot.record.as_ref() == Some(&legacy)));
    assert!(cas
        .expected
        .iter()
        .any(|slot| slot.key == "local-1" && slot.record.is_none()));
    assert!(!cas.expected.iter().any(|slot| slot.key == "unrelated"));
    assert_eq!(cas.replacement.unwrap().key, "local-1");
}

#[test]
fn generation_allocation_includes_path_equivalent_legacy_aliases() {
    let mut snapshot = connected_snapshot();
    let mut legacy = durable_record(&record(&snapshot, 41, r"C:\Media\Clip.mp4"));
    legacy.local_clip_id = "old-client-id".to_string();
    snapshot.cloud.insert_upload("old-client-id".to_string(), legacy);

    let next = next_generation(
        &snapshot.cloud,
        "local-1",
        r"\\?\c:\MEDIA\clip.mp4",
        &|a: &str, b: &str| clip_paths_equal(a, b),
        &|_: &str| false,
    )
    .unwrap();

    assert_eq!(next, 42);
}

#[test]
fn generations_run_out() {
    let mut snapshot = connected_snapshot();
    let last = durable_record(&record(&snapshot, u64::MAX, r"C:\clip.mp4"));
    snapshot.cloud.insert_upload("local-1".to_string(), last);
    let error = next_generation(
        &snapshot.cloud,
        "local-1",
        "elsewhere",
        &|_: &str, _: &str| false,
        &|_: &str| false,
    )
    .unwrap_err();
    assert_eq!(error.message, "durable upload generation is exhausted");
}

#[test]
fn entries_at_the_path_or_the_former_path_are_aliases() {
    let mut snapshot = connected_snapshot();
    for (key, path) in [("a", "old"), ("b", "other"), ("c", "new")] {
        snapshot.cloud.insert_upload(key.to_string(), upload_record(key, path, "failed", 1));
    }
    let same = |a: &str, b: &str| a == b;
    assert_eq!(path_aliases(&snapshot.cloud, "new", None, &same), [false, false, true]);
    assert_eq!(path_aliases(&snapshot.cloud, "new", Some("old"), &same), [true, false, true]);
    assert_eq!(
        source_aliases(&snapshot.cloud, "new", &same, &|path: &str| path == "other"),
        [false, true, true]
    );
}

#[test]
fn admission_rechecks_alias_generation_after_allocation_race() {
    let mut snapshot = connected_snapshot();
    let mut raced = durable_record(&record(&snapshot, 42, r"C:\Media\Clip.mp4"));
    raced.local_clip_id = "racing-alias".to_string();
    snapshot.cloud.insert_upload("racing-alias".to_string(), raced);

    let stale_candidate = record(&snapshot, 42, r"c:\media\clip.mp4");
    let error = take_in(&snapshot, &stale_candidate).unwrap_err();

    assert_eq!(error.kind, UploadRecordErrorKind::Contended);
}

#[test]
fn too_many_aliases_are_refused() {
    let mut snapshot = connected_snapshot();
    for key in ["a", "b", "c"] {
        snapshot
            .cloud
            .insert_upload(key.to_string(), upload_record(key, "x", "failed", 1));
    }
    let all = vec![true; 3];
    let slots = reconciled_slots(&snapshot.cloud, "b", &all, false, 3).unwrap();
    assert_eq!(slots.len(), 3);
    let error = reconciled_slots(&snapshot.cloud, "b", &all, false, 2).unwrap_err();
    assert_eq!(error.message, "upload path has 3 durable aliases; maximum is 2");
    let missing = reconciled_slots(&snapshot.cloud, "z", &all, false, 9).unwrap_err();
    assert_eq!(missing.message, "durable upload record is missing");
}

#[test]
fn live_projection_round_trips_durable_fields_and_reload_defaults_volatile_fields() {
    let snapshot = connected_snapshot();
    let mut live = record(&snapshot, 3, r"C:\Media\clip.mp4");
    live.client_clip_id = some("client-3");
    live.phase = UploadPhase::Completed;
    live.upload_status = "uploaded_public".to_string();
    live.visibility = "public".to_string();
    live.received_size_bytes = 999;
    live.file_size_bytes = 999;
    live.remote_clip_id = some("remote-3");
    live.remote_url = some("https://cloud.example/clip/remote-3");
    live.local_deleted = true;
    let durable = durable_record(&live);

    let reloaded = reload(&snapshot, &durable);

    assert_eq!(durable_record(&reloaded), durable);
    assert_eq!(reloaded.phase, UploadPhase::Completed);
    assert_eq!(reloaded.received_size_bytes, 0);
    assert_eq!(reloaded.file_size_bytes, 0);
    assert!(!reloaded.local_deleted);
}

#[test]
fn legacy_status_sync_preserves_absent_generation() {
    let mut snapshot = connected_snapshot();
    let mut legacy = durable_record(&record(&snapshot, 1, r"C:\Media\clip.mp4"));
    legacy.upload_generation = None;
    legacy.upload_status = "uploaded_processing".to_string();
    snapshot.cloud.insert_upload("local-1".to_string(), legacy.clone());
    let expected = reload(&snapshot, &legacy);
    assert_eq!(expected.token.upload_generation, 0);
    let mut replacement = reload(&snapshot, &legacy);
    replacement.phase = UploadPhase::Completed;
    replacement.upload_status = "uploaded_private".to_string();
    replacement.remote_clip_id = some("remote-legacy");

    let cas = transition_cas(
        &snapshot,
        &expected,
        &durable_record(&expected),
        &replacement,
        durable_record(&replacement),
        &|a: &str, b: &str| clip_paths_equal(a, b),
        MAX_SLOTS,
    )
    .unwrap();

    assert_eq!(cas.kind, CloudRecordCasKind::StatusSync);
    assert_eq!(cas.replacement.unwrap().record.unwrap().upload_generation, None);
}

#[test]
fn exact_removal_includes_path_aliases_and_no_replacement() {
    let mut snapshot = connected_snapshot();
    let expected = record(&snapshot, 5, r"C:\Media\clip.mp4");
    let durable = durable_record(&expected);
    snapshot.cloud.insert_upload("local-1".to_string(), durable.clone());
    let mut alias = durable.clone();
    alias.local_clip_id = "legacy-alias".to_string();
    alias.path = r"\\?\c:\MEDIA\CLIP.mp4".to_string();
    snapshot.cloud.insert_upload("legacy-alias".to_string(), alias.clone());

    let cas = remove(&snapshot, &expected).unwrap();

    assert_eq!(cas.kind, CloudRecordCasKind::StatusSync);
    assert!(cas.replacement.is_none());
    assert_eq!(cas.expected.len(), 2);
    assert!(cas
        .expected
        .iter()
        .any(|slot| slot.key == "local-1" && slot.record.as_ref() == Some(&durable)));
    assert!(cas
        .expected
        .iter()
        .any(|slot| slot.key == "legacy-alias" && slot.record.as_ref() == Some(&alias)));
}

#[test]
fn exact_removal_preserves_legacy_none_generation_shape() {
    let mut snapshot = connected_snapshot();
    let mut durable = durable_record(&record(&snapshot, 1, r"C:\Media\legacy.mp4"));
    durable.upload_generation = None;
    durable.upload_status = "uploaded_processing".to_string();
    snapshot.cloud.insert_upload("local-1".to_string(), durable.clone());
    let expected = reload(&snapshot, &durable);

    let cas = remove(&snapshot, &expected).unwrap();

    assert_eq!(cas.expected.len(), 1);
    assert_eq!(cas.expected[0].record, Some(durable));
    assert!(cas.replacement.is_none());
}

#[test]
fn exact_removal_rejects_stale_expected_record_shape() {
    let mut snapshot = connected_snapshot();
    let stale = record(&snapshot, 3, r"C:\Media\clip.mp4");
    let current = record(&snapshot, 4, r"C:\Media\clip.mp4");
    snapshot
        .cloud
        .insert_upload("local-1".to_string(), durable_record(&current));

    let error = remove(&snapshot, &stale).unwrap_err();

    assert_eq!(error.kind, UploadRecordErrorKind::Superseded);
}

#[test]
fn event_mapping_preserves_exact_account_generation_kind_and_notice() {
    let snapshot = connected_snapshot();
    let mut upload = record(&snapshot, 9, r"C:\Media\clip.mp4");
    upload.phase = UploadPhase::Failed;
    upload.terminal = true;
    upload.upload_status = "failed".to_string();
    upload.error = some("network failed");
    let mapped = desktop_upload_event(
        UploadServiceEvent {
            kind: UploadEventKind::State,
            record: upload,
            notice: some("Upload failed"),
        },
        Ok(()),
    )
    .unwrap();

    assert_eq!(mapped.account, owner(&snapshot));
    assert_eq!(mapped.account.account_generation, 1);
    assert_eq!(mapped.generation, 9);
    assert_eq!(mapped.update, UploadEventKind::State);
    assert_eq!(mapped.progress.local_clip_id, "local-1");
    assert!(mapped.progress.terminal);
    assert_eq!(mapped.progress.error.as_deref(), Some("network failed"));
    assert_eq!(mapped.notice.as_deref(), Some("Upload failed"));
}

#[test]
fn byte_event_with_notice_is_rejected_before_queue_publication() {
    let snapshot = connected_snapshot();
    let error = desktop_upload_event(
        UploadServiceEvent {
            kind: UploadEventKind::Bytes,
            record: record(&snapshot, 1, r"C:\Media\clip.mp4"),
            notice: some("invalid"),
        },
        Ok(()),
    )
    .unwrap_err();
    assert!(error.contains("byte-only"));
}

#[test]
fn settings_error_classification_is_fail_closed() {
    assert_eq!(
        classify_settings_error("cloud account changed".to_string()).kind,
        UploadRecordErrorKind::AccountChanged
    );
    assert_eq!(
        classify_settings_error("stale cloud record".to_string()).kind,
        UploadRecordErrorKind::Superseded
    );
    assert_eq!(
        classify_settings_error("stale settings revision".to_string()).kind,
        UploadRecordErrorKind::Contended
    );
    assert_eq!(
        classify_settings_error("disk write failed".to_string()).kind,
        UploadRecordErrorKind::Persistence
    );
}

#[test]
fn uploads_belong_to_the_account_they_began_with() {
    let snapshot = connected_snapshot();
    let own = owner(&snapshot);
    let other = UploadAccountOwner {
        account_key: "account-key".to_string(),
        account_generation: 2,
    };
    assert_eq!(ensure_snapshot_owner(Ok(owner(&snapshot)), &own), Ok(()));
    assert_eq!(
        ensure_snapshot_owner(Ok(owner(&snapshot)), &other).unwrap_err().kind,
        UploadRecordErrorKind::AccountChanged
    );
    assert!(is_current_owner(&Ok(owner(&snapshot)), &own));
    assert!(!is_current_owner(&Ok(owner(&snapshot)), &other));
    assert_eq!(
        upload_owner_from_snapshot(&snapshot, false, Ok("k".to_string())).unwrap_err().message,
        "Clipline Cloud is not connected"
    );
    let a = record(&snapshot, 1, "a.mp4");
    let b = record(&snapshot, 2, "a.mp4");
    assert_eq!(ensure_same_upload(&a.token, &a.token), Ok(()));
    assert_eq!(
        ensure_same_upload(&a.token, &b.token).unwrap_err().kind,
        UploadRecordErrorKind::Superseded
    );
}

#[test]
fn live_records_keep_the_counters_of_running_uploads() {
    let snapshot = connected_snapshot();
    let mut live = LiveRecords::new(2);
    let mut running = record(&snapshot, 1, "a.mp4");
    running.received_size_bytes = 55;
    let durable = durable_record(&running);
    let token = running.token.clone();
    live.remember_live_record(running, durable.clone());

    let reloaded = reload(&snapshot, &durable);
    assert_eq!(live.load_live_record(&durable, &reloaded).received_size_bytes, 55);

    live.forget(&token);
    assert_eq!(live.load_live_record(&durable, &reloaded).received_size_bytes, 0);

    for (index, id) in ["x", "y", "z"].iter().enumerate() {
        let mut record = record(&snapshot, index as u64 + 1, "a.mp4");
        record.token.local_clip_id = id.to_string();
        let durable = durable_record(&record);
        live.remember_live_record(record, durable);
    }
    assert_eq!(live.entries.len(), 2);
}
