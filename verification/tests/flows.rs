//! Work that goes on in steps: connections, exports, saved markers, starts and score passes.

use clipline_app::clip_export::{ClipExport, ClipExportAction, ClipExportPhase};
use clipline_app::cloud::{
    cloud_cache_account_fence, legacy_cache_moves, migrate_legacy_cloud_cache, publish_if_current,
    CloudAccountFence, CloudCacheError, CloudConnection, CloudUser, ConnectAction, ConnectAnswer,
    ConnectPhase, LegacyCacheEntry,
};
use clipline_app::launch::{
    first_launch_step, next_launch_step, ActivationCommand, LaunchMode, LaunchStep, ShellLaunch,
};
use clipline_app::markers::{
    export_markers_for_range, ClipMarkers, MarkerSave, MarkerSaveAction, MarkerSavePhase,
};
use clipline_app::osu_api::{
    EnrichmentAction, EnrichmentAnswer, EnrichmentOutcome, EnrichmentRetry,
};
use clipline_app::settings::{CloudSettings, OsuApiSettings};
use clipline_app::sidecars::FileAnswer;
use clipline_app::startup::{
    check_update_for_channel, update_to_install, AvailableUpdate, UpdateChannel, UpdateLookup,
};
use clipline_app::window::{WindowLifecycleMode, WindowLifecycleSnapshot};
use std::cell::RefCell;

fn text(s: &str) -> String {
    s.to_string()
}

// ---------------------------------------------------------------------------
// The cloud
// ---------------------------------------------------------------------------

fn user() -> CloudUser {
    CloudUser { id: text("u1"), username: text("dain98"), display_name: None }
}

/// A connection that waits for its token to be stored.
fn confirmed() -> CloudConnection {
    let mut connection = CloudConnection::begin();
    assert_eq!(connection.action(), ConnectAction::ReadHost);
    connection.answered(ConnectAnswer::Text(Ok(text("https://clips.example.com/"))));
    assert_eq!(connection.action(), ConnectAction::Discover);
    connection.answered(ConnectAnswer::Text(Ok(text("https://public.example.com"))));
    assert_eq!(connection.action(), ConnectAction::CreateToken);
    connection.answered(ConnectAnswer::Text(Ok(text("token"))));
    assert_eq!(connection.action(), ConnectAction::ReadUser);
    connection.answered(ConnectAnswer::User(Ok(user())));
    assert_eq!(connection.action(), ConnectAction::Persist);
    connection
}

#[test]
fn a_connection_goes_through_all_its_steps() {
    let mut connection = confirmed();
    assert_eq!(connection.token, Some(text("token")));
    let account = connection.account();
    assert_eq!(account.base_url, "https://clips.example.com/");
    assert_eq!(account.public_url, "https://public.example.com");
    assert_eq!(account.user_id, "u1");
    assert_eq!(account.username, "dain98");
    assert_eq!(account.display_name, None);

    connection.answered(ConnectAnswer::Came(Ok(())));
    assert_eq!(connection.action(), ConnectAction::CleanUp);
    connection.answered(ConnectAnswer::Came(Err(text("busy"))));
    assert_eq!(connection.action(), ConnectAction::ReadAccount);
    connection.answered(ConnectAnswer::Came(Ok(())));
    assert_eq!(connection.action(), ConnectAction::Announce);
    connection.answered(ConnectAnswer::Done);
    assert_eq!(connection.action(), ConnectAction::Publish);
    connection.answered(ConnectAnswer::Came(Ok(())));
    assert_eq!(connection.action(), ConnectAction::Stop);
    assert_eq!(connection.result(), Ok(()));
}

#[test]
fn a_refused_connection_stores_nothing() {
    let mut connection = CloudConnection::begin();
    connection.answered(ConnectAnswer::Text(Err(text("not an address"))));
    assert_eq!(connection.action(), ConnectAction::Stop);
    assert_eq!(connection.result(), Err(text("not an address")));

    let mut connection = CloudConnection::begin();
    connection.answered(ConnectAnswer::Text(Ok(text("https://h/"))));
    connection.answered(ConnectAnswer::Text(Ok(text("https://p/"))));
    connection.answered(ConnectAnswer::Text(Ok(text("token"))));
    connection.answered(ConnectAnswer::User(Err(text("unauthorized"))));
    assert_eq!(connection.phase, ConnectPhase::Finished);
    assert_eq!(connection.result(), Err(text("unauthorized")));

    let mut connection = confirmed();
    connection.answered(ConnectAnswer::Came(Err(text("vault is locked"))));
    assert_eq!(connection.result(), Err(text("vault is locked")));
}

fn entry(name: &str, kind: Option<(bool, bool)>, destination_exists: bool) -> LegacyCacheEntry {
    LegacyCacheEntry { name: text(name), kind, destination_exists }
}

#[test]
fn namespaces_move_up_to_the_first_failure() {
    let entries = vec![
        entry("abcdef0123456789", Some((true, false)), false),
        entry("unrelated.txt", Some((false, false)), false),
        entry("1111111111111111", Some((true, true)), false),
        entry("2222222222222222", None, false),
        entry("3333333333333333", Some((true, false)), true),
        entry("4444444444444444", Some((true, false)), false),
        entry("5555555555555555", Some((true, false)), false),
    ];
    let moved = RefCell::new(Vec::new());
    assert_eq!(
        migrate_legacy_cloud_cache(&entries, |name: &str| {
            moved.borrow_mut().push(name.to_string());
            Ok(())
        }),
        Ok(())
    );
    assert_eq!(
        *moved.borrow(),
        vec!["abcdef0123456789", "4444444444444444", "5555555555555555"]
    );

    moved.borrow_mut().clear();
    assert_eq!(
        migrate_legacy_cloud_cache(&entries, |name: &str| {
            moved.borrow_mut().push(name.to_string());
            if name.starts_with('4') {
                Err(text("denied"))
            } else {
                Ok(())
            }
        }),
        Err(text("migrate cloud cache namespace 4444444444444444: denied"))
    );
    assert_eq!(*moved.borrow(), vec!["abcdef0123456789", "4444444444444444"]);
}

#[test]
fn a_cache_moves_only_from_another_directory() {
    assert_eq!(legacy_cache_moves(true, true, &Ok((true, false))), Ok(false));
    assert_eq!(legacy_cache_moves(false, false, &Err(text("gone"))), Ok(false));
    assert_eq!(legacy_cache_moves(false, true, &Ok((true, false))), Ok(true));
    assert_eq!(legacy_cache_moves(false, true, &Ok((true, true))), Ok(false));
    assert_eq!(legacy_cache_moves(false, true, &Ok((false, false))), Ok(false));
    assert_eq!(
        legacy_cache_moves(false, true, &Err(text("denied"))),
        Err(text("inspect legacy cloud cache: denied"))
    );
}

fn cloud_settings() -> CloudSettings {
    CloudSettings {
        host_url: text("https://clips.example.com"),
        public_url: None,
        connected_user_id: None,
        connected_username: None,
        connected_display_name: None,
        credential_target: None,
        credential_cleanup_targets: Vec::new(),
        default_visibility: text("private"),
        delete_local_after_upload: false,
        auto_upload_rules: false,
        uploads: Vec::new(),
    }
}

#[test]
fn the_files_of_an_account_have_their_own_place() {
    let derive = |host: &str, account: &str| Ok(format!("{host}#{account}"));
    let mut cloud = cloud_settings();
    assert_eq!(
        cloud_cache_account_fence(&cloud, 3, Ok(text("key")), false, derive),
        Err(text("Clipline Cloud is not connected"))
    );
    assert_eq!(
        cloud_cache_account_fence(&cloud, 3, Err(text("no key")), true, derive),
        Err(text("no key"))
    );
    assert_eq!(
        cloud_cache_account_fence(&cloud, 3, Ok(text("key")), true, derive),
        Err(text("Clipline Cloud account identity is unavailable"))
    );
    cloud.connected_username = Some(text("dain98"));
    assert_eq!(
        cloud_cache_account_fence(&cloud, 3, Ok(text("key")), true, derive),
        Ok(fence(3, "https://clips.example.com#dain98"))
    );
    cloud.connected_user_id = Some(text("u1"));
    assert_eq!(
        cloud_cache_account_fence(&cloud, 3, Ok(text("key")), true, derive),
        Ok(fence(3, "https://clips.example.com#u1"))
    );
    assert_eq!(
        cloud_cache_account_fence(&cloud, 3, Ok(text("key")), true, |_: &str, _: &str| Err(text(
            "bad host"
        ))),
        Err(text("bad host"))
    );
}

fn fence(account_generation: u64, cache_namespace: &str) -> CloudAccountFence {
    CloudAccountFence {
        account_key: text("key"),
        account_generation,
        cache_namespace: text(cache_namespace),
    }
}

fn lifecycle(revision: u64) -> WindowLifecycleSnapshot {
    WindowLifecycleSnapshot {
        revision,
        mode: WindowLifecycleMode::Foreground,
        backgrounded: false,
    }
}

#[test]
fn files_are_published_for_the_account_and_the_window_that_asked() {
    let own = fence(3, "place");
    let publish = || Ok::<(), CloudCacheError>(());
    let (w, other) = (lifecycle(1), lifecycle(2));
    let same = Ok(fence(3, "place"));
    assert_eq!(publish_if_current(&own, w, w, &same, w, publish), Ok(()));
    assert_eq!(
        publish_if_current(&own, w, w, &same, w, || Err(CloudCacheError::Io(text("full")))),
        Err(CloudCacheError::Io(text("full")))
    );
    let stale = Err(CloudCacheError::StaleAccount);
    assert_eq!(publish_if_current(&own, w, other, &same, w, publish), stale);
    assert_eq!(publish_if_current(&own, w, w, &same, other, publish), stale);
    assert_eq!(publish_if_current(&own, w, w, &Ok(fence(4, "place")), w, publish), stale);
    assert_eq!(publish_if_current(&own, w, w, &Ok(fence(3, "else")), w, publish), stale);
    assert_eq!(
        publish_if_current(&own, w, w, &Err(text("poisoned")), w, publish),
        Err(CloudCacheError::Io(text("poisoned")))
    );
}

// ---------------------------------------------------------------------------
// Parts of clips
// ---------------------------------------------------------------------------

type Markers = ClipMarkers<&'static str, &'static str, &'static str, &'static str>;

fn markers(markers: Vec<&'static str>, plays: Vec<&'static str>) -> Markers {
    ClipMarkers {
        recording_start_s_bits: 10.0_f64.to_bits(),
        duration_s_bits: 20.0_f64.to_bits(),
        player_summary: None,
        audio_tracks: Vec::new(),
        selected_audio_track_ids: None,
        plays,
        markers,
        bookmarks: Vec::new(),
    }
}

#[test]
fn export_markers_can_be_suppressed_for_play_exports() {
    assert_eq!(
        export_markers_for_range(
            false,
            Some(markers(vec![], vec!["score-1"])),
            &Vec::new(),
            |kept: Markers| kept
        ),
        None
    );
}

#[test]
fn exported_markers_are_reviewed_cropped_and_worth_a_file() {
    let crop = |kept: Markers| ClipMarkers {
        duration_s_bits: 6.0_f64.to_bits(),
        ..kept
    };
    let exported = export_markers_for_range(
        true,
        Some(markers(vec!["kill", "noise", "death"], vec![])),
        &vec![true, false, true],
        crop,
    )
    .unwrap();
    assert_eq!(exported.markers, vec!["kill", "death"]);
    assert_eq!(exported.duration_s_bits, 6.0_f64.to_bits());

    assert_eq!(
        export_markers_for_range(true, Some(markers(vec!["noise"], vec![])), &vec![false], crop),
        None
    );
    assert_eq!(export_markers_for_range(true, None, &Vec::new(), crop), None);
}

#[test]
fn a_part_is_cut_named_published_and_described() {
    let mut export = ClipExport::begin(true);
    assert_eq!(export.action(), ClipExportAction::NameTemp);
    export.answered(FileAnswer::Named(Ok(text("clip.tmp"))));
    assert_eq!(export.action(), ClipExportAction::Trim(text("clip.tmp")));
    export.answered(FileAnswer::Came(Ok(())));
    assert_eq!(export.action(), ClipExportAction::NameTarget);
    export.answered(FileAnswer::Named(Ok(text("part.mp4"))));
    assert_eq!(
        export.action(),
        ClipExportAction::Publish { tmp_path: text("clip.tmp"), target: text("part.mp4") }
    );
    export.answered(FileAnswer::Came(Ok(())));
    assert_eq!(export.action(), ClipExportAction::ReadMarkers { wanted: true });
    export.answered(FileAnswer::Found(true));
    assert_eq!(export.action(), ClipExportAction::WriteMarkers(text("part.mp4")));
    export.answered(FileAnswer::Came(Ok(())));
    assert_eq!(export.action(), ClipExportAction::Inspect(text("part.mp4")));
    export.answered(FileAnswer::Came(Ok(())));
    assert_eq!(export.action(), ClipExportAction::Stop);
    assert_eq!(export.result(), Ok(text("part.mp4")));
}

#[test]
fn a_cut_that_fails_is_removed() {
    let mut export = ClipExport::begin(false);
    export.answered(FileAnswer::Named(Ok(text("clip.tmp"))));
    export.answered(FileAnswer::Came(Err(text("no key frame"))));
    assert_eq!(export.action(), ClipExportAction::Remove(text("clip.tmp")));
    export.answered(FileAnswer::Done);
    assert_eq!(export.result(), Err(text("no key frame")));
}

#[test]
fn a_part_without_markers_is_only_inspected() {
    let mut export = ClipExport::begin(false);
    export.answered(FileAnswer::Named(Ok(text("clip.tmp"))));
    export.answered(FileAnswer::Came(Ok(())));
    export.answered(FileAnswer::Named(Ok(text("part.mp4"))));
    export.answered(FileAnswer::Came(Ok(())));
    assert_eq!(export.action(), ClipExportAction::ReadMarkers { wanted: false });
    export.answered(FileAnswer::Found(false));
    assert_eq!(export.phase, ClipExportPhase::Inspecting);
    export.answered(FileAnswer::Came(Err(text("gone"))));
    assert_eq!(export.result(), Err(text("read exported clip metadata: gone")));
}

#[test]
fn a_part_that_cannot_be_named_or_published_ends_the_export() {
    let mut export = ClipExport::begin(true);
    export.answered(FileAnswer::Named(Err(text("no free name"))));
    assert_eq!(export.result(), Err(text("no free name")));

    let mut export = ClipExport::begin(true);
    export.answered(FileAnswer::Named(Ok(text("clip.tmp"))));
    export.answered(FileAnswer::Came(Ok(())));
    export.answered(FileAnswer::Named(Ok(text("part.mp4"))));
    export.answered(FileAnswer::Came(Err(text("denied"))));
    assert_eq!(export.result(), Err(text("denied")));
}

#[test]
fn markers_are_replaced_by_a_file_that_is_complete() {
    let mut save = MarkerSave::begin();
    assert_eq!(save.action(), MarkerSaveAction::Serialize);
    save.answered(FileAnswer::Came(Ok(())));
    assert_eq!(save.action(), MarkerSaveAction::Name);
    save.answered(FileAnswer::Named(Ok(text("m.tmp"))));
    assert_eq!(save.action(), MarkerSaveAction::Create(text("m.tmp")));
    save.answered(FileAnswer::Came(Ok(())));
    assert_eq!(save.action(), MarkerSaveAction::Write(text("m.tmp")));
    save.answered(FileAnswer::Came(Ok(())));
    assert_eq!(save.action(), MarkerSaveAction::Sync(text("m.tmp")));
    save.answered(FileAnswer::Came(Ok(())));
    assert_eq!(save.action(), MarkerSaveAction::Publish(text("m.tmp")));
    save.answered(FileAnswer::Came(Ok(())));
    assert_eq!(save.action(), MarkerSaveAction::Stop);
    assert_eq!(save.result(), Ok(()));
}

#[test]
fn a_failed_replacement_says_where_and_cleans_up() {
    let heads = ["create", "write", "sync", "publish"];
    for (fails_at, head) in heads.iter().enumerate() {
        let mut save = MarkerSave::begin();
        save.answered(FileAnswer::Came(Ok(())));
        save.answered(FileAnswer::Named(Ok(text("m.tmp"))));
        for _ in 0..fails_at {
            save.answered(FileAnswer::Came(Ok(())));
        }
        save.answered(FileAnswer::Came(Err(text("full"))));
        assert_eq!(save.action(), MarkerSaveAction::Remove(text("m.tmp")));
        save.answered(FileAnswer::Done);
        assert_eq!(save.result(), Err(format!("{head} audio selection sidecar: full")));
    }
    let mut save = MarkerSave::begin();
    save.answered(FileAnswer::Came(Err(text("bad"))));
    assert_eq!(save.phase, MarkerSavePhase::Finished);
    assert_eq!(save.result(), Err(text("serialize audio selection: bad")));

    let mut save = MarkerSave::begin();
    save.answered(FileAnswer::Came(Ok(())));
    save.answered(FileAnswer::Named(Err(text("no parent"))));
    assert_eq!(save.result(), Err(text("no parent")));
}

// ---------------------------------------------------------------------------
// Starts
// ---------------------------------------------------------------------------

#[test]
fn a_start_waits_for_the_processes_it_takes_over_from() {
    let launch = ShellLaunch {
        mode: LaunchMode::Autostart,
        elevation_parent: Some(7),
        updater_parent: Some(9),
    };
    let first = first_launch_step(&Ok(launch)).unwrap();
    assert_eq!(first, LaunchStep::WaitForElevationParent(Some(7)));
    let second = next_launch_step(&launch, first, &Ok(false)).unwrap();
    assert_eq!(second, LaunchStep::WaitForUpdaterParent(9));
    let third = next_launch_step(&launch, second, &Ok(false)).unwrap();
    assert_eq!(third, LaunchStep::Activate(ActivationCommand::AutostartNoop));
    assert_eq!(next_launch_step(&launch, third, &Ok(true)), Ok(LaunchStep::Run));
    assert_eq!(next_launch_step(&launch, third, &Ok(false)), Ok(LaunchStep::Exit));

    let plain = ShellLaunch {
        mode: LaunchMode::Normal,
        elevation_parent: None,
        updater_parent: None,
    };
    let first = first_launch_step(&Ok(plain)).unwrap();
    assert_eq!(
        next_launch_step(&plain, first, &Ok(false)),
        Ok(LaunchStep::Activate(ActivationCommand::Reveal))
    );
}

#[test]
fn a_start_says_which_step_failed() {
    let launch = ShellLaunch {
        mode: LaunchMode::Normal,
        elevation_parent: None,
        updater_parent: Some(9),
    };
    let failed: Result<bool, String> = Err(text("late"));
    assert_eq!(
        first_launch_step(&Err(text("bad flag"))),
        Err(text("parse shell launch: bad flag"))
    );
    assert_eq!(
        next_launch_step(&launch, LaunchStep::WaitForElevationParent(None), &failed),
        Err(text("administrator restart handoff: late"))
    );
    assert_eq!(
        next_launch_step(&launch, LaunchStep::WaitForUpdaterParent(9), &failed),
        Err(text("update restart handoff: late"))
    );
    assert_eq!(
        next_launch_step(&launch, LaunchStep::Activate(ActivationCommand::Reveal), &failed),
        Err(text("single-instance activation: late"))
    );
}

fn update() -> AvailableUpdate {
    AvailableUpdate { version: text("1.2.3"), date: None, notes: Some(text("notes")) }
}

#[test]
fn a_channel_answers_with_an_update_a_notice_or_an_error() {
    assert_eq!(
        check_update_for_channel(UpdateChannel::Stable, "Stable", || UpdateLookup::ReleaseNotFound),
        Err(text("Stable updates are not available yet"))
    );
    let found = check_update_for_channel(UpdateChannel::Nightly, "Nightly", || {
        UpdateLookup::Found(Some(update()))
    });
    assert_eq!(found, Ok((Some(update()), None)));
    assert_eq!(update_to_install(found.unwrap()), Ok(update()));

    let unpublished = check_update_for_channel(UpdateChannel::Nightly, "Nightly", || {
        UpdateLookup::ReleaseNotFound
    });
    let notice = "No Nightly release metadata is published yet. Publish a Nightly release first.";
    assert_eq!(unpublished, Ok((None, Some(text(notice)))));
    assert_eq!(update_to_install(unpublished.unwrap()), Err(text(notice)));

    assert_eq!(
        check_update_for_channel(UpdateChannel::Nightly, "Nightly", || UpdateLookup::Failed(text(
            "offline"
        ))),
        Err(text("offline"))
    );
    assert_eq!(update_to_install((None, None)), Err(text("no update is available")));
}

// ---------------------------------------------------------------------------
// Scores
// ---------------------------------------------------------------------------

fn profile(client: Option<&str>, name: Option<&str>, target: Option<&str>) -> OsuApiSettings {
    OsuApiSettings {
        client_id: client.map(text),
        user: name.map(text),
        credential_target: target.map(text),
        account_generation: 1,
        credential_cleanup_targets: Vec::new(),
        last_connected_username: None,
    }
}

fn waiting_pass() -> EnrichmentRetry {
    let mut retry = EnrichmentRetry::begin();
    assert_eq!(retry.action(), EnrichmentAction::ReadProfile);
    retry.answered(EnrichmentAnswer::Profile(Ok(profile(Some("1"), Some("dain"), Some("t")))));
    assert_eq!(retry.action(), EnrichmentAction::ReadSecret(text("t")));
    retry.answered(EnrichmentAnswer::Secret(Ok(true)));
    assert_eq!(
        retry.action(),
        EnrichmentAction::Submit { client_id: text("1"), user: text("dain") }
    );
    retry.answered(EnrichmentAnswer::Came(Ok(())));
    assert_eq!(retry.action(), EnrichmentAction::Wait);
    retry
}

#[test]
fn a_pass_that_changed_clips_is_published() {
    let mut retry = waiting_pass();
    retry.answered(EnrichmentAnswer::Ended(Ok(EnrichmentOutcome::Completed { updated: 2 })));
    assert_eq!(retry.action(), EnrichmentAction::Publish);
    retry.answered(EnrichmentAnswer::Came(Ok(())));
    assert_eq!(retry.result(), Ok(()));
}

#[test]
fn a_pass_that_changed_nothing_ends_quietly() {
    for outcome in [
        EnrichmentOutcome::Completed { updated: 0 },
        EnrichmentOutcome::AccountChanged,
        EnrichmentOutcome::Canceled,
        EnrichmentOutcome::Superseded,
    ] {
        let mut retry = waiting_pass();
        retry.answered(EnrichmentAnswer::Ended(Ok(outcome)));
        assert_eq!(retry.action(), EnrichmentAction::Stop);
        assert_eq!(retry.result(), Ok(()));
    }
}

#[test]
fn a_pass_without_an_account_or_a_secret_is_not_started() {
    for incomplete in [
        profile(None, Some("dain"), Some("t")),
        profile(Some("1"), None, Some("t")),
        profile(Some("1"), Some("dain"), None),
    ] {
        let mut retry = EnrichmentRetry::begin();
        retry.answered(EnrichmentAnswer::Profile(Ok(incomplete)));
        assert_eq!(retry.action(), EnrichmentAction::Stop);
        assert_eq!(retry.result(), Ok(()));
    }
    let mut retry = EnrichmentRetry::begin();
    retry.answered(EnrichmentAnswer::Profile(Ok(profile(Some("1"), Some("dain"), Some("t")))));
    retry.answered(EnrichmentAnswer::Secret(Ok(false)));
    assert_eq!(retry.result(), Ok(()));
}

#[test]
fn a_pass_reports_its_errors() {
    let mut retry = EnrichmentRetry::begin();
    retry.answered(EnrichmentAnswer::Profile(Err(text("poisoned"))));
    assert_eq!(retry.result(), Err(text("poisoned")));

    let mut retry = EnrichmentRetry::begin();
    retry.answered(EnrichmentAnswer::Profile(Ok(profile(Some("1"), Some("dain"), Some("t")))));
    retry.answered(EnrichmentAnswer::Secret(Err(text("vault"))));
    assert_eq!(retry.result(), Err(text("read osu! client secret failed")));

    for (outcome, error) in [
        (EnrichmentOutcome::Failed { message: text("rate limit") }, "rate limit"),
        (EnrichmentOutcome::Panicked, "osu! enrichment worker panicked"),
        (EnrichmentOutcome::ShutDown, "osu! enrichment coordinator shut down"),
    ] {
        let mut retry = waiting_pass();
        retry.answered(EnrichmentAnswer::Ended(Ok(outcome)));
        assert_eq!(retry.result(), Err(text(error)));
    }
}
