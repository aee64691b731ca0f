//! The osu! account: its operations and what is shown of it.

use clipline_app::osu_api::{
    coherent_status, compatibility_status, enrichment_account, enrichment_updated,
    exact_profile_for_status, osu_setup_guide_html, same_account_owner, submitted_secret,
    EnrichmentOutcome, OsuAccountStatus, QuiesceStep, SecretError, ShutdownStep, TauriOsuRuntime,
    MAX_OSU_OPERATIONS,
};
use clipline_app::settings::OsuApiSettings;
use std::cell::Cell;

fn profile(account_generation: u64) -> OsuApiSettings {
    OsuApiSettings {
        account_generation,
        client_id: Some("61835".to_string()),
        user: Some("3426414".to_string()),
        credential_target: Some("Clipline osu!:target".to_string()),
        credential_cleanup_targets: Vec::new(),
        last_connected_username: None,
    }
}

fn status(account_generation: u64) -> OsuAccountStatus {
    OsuAccountStatus {
        account_generation,
        configured: true,
        secret_present: true,
        client_id: Some("61835".to_string()),
        user: Some("3426414".to_string()),
        username: Some("Dain".to_string()),
    }
}

#[test]
fn compatibility_status_keeps_every_field() {
    let shown = compatibility_status(status(1), &profile(1));
    assert!(shown.configured);
    assert!(shown.secret_present);
    assert_eq!(shown.client_id.as_deref(), Some("61835"));
    assert_eq!(shown.user.as_deref(), Some("3426414"));
    assert_eq!(shown.credential_target.as_deref(), Some("Clipline osu!:target"));
    assert_eq!(shown.username.as_deref(), Some("Dain"));
}

#[test]
fn compatibility_projection_rejects_a_profile_from_another_account_generation() {
    let stale_status = status(1);
    let error = exact_profile_for_status(Ok(profile(2)), &stale_status).unwrap_err();
    assert!(error.contains("account changed"));
    assert_eq!(exact_profile_for_status(Ok(profile(1)), &stale_status), Ok(profile(1)));
    assert_eq!(
        exact_profile_for_status(Err("locked".to_string()), &stale_status),
        Err("locked".to_string())
    );
}

#[test]
fn status_and_settings_are_read_until_they_agree() {
    let reads = Cell::new(0);
    let (found, settings) = coherent_status(
        |_: usize| {
            reads.set(reads.get() + 1);
            Ok(status(if reads.get() == 1 { 1 } else { 2 }))
        },
        |_: usize| Ok(profile(2)),
    )
    .unwrap();
    assert_eq!(found.account_generation, 2);
    assert_eq!(settings.account_generation, 2);
    assert_eq!(reads.get(), 2);

    let reads = Cell::new(0);
    assert!(coherent_status(
        |_: usize| {
            reads.set(reads.get() + 1);
            Ok(status(1))
        },
        |_: usize| Ok(profile(2)),
    )
    .is_err());
    assert_eq!(reads.get(), 3);
    assert_eq!(
        coherent_status(|_: usize| Err("offline".to_string()), |_: usize| Ok(profile(2))),
        Err("offline".to_string())
    );
}

#[test]
fn runtime_reuses_one_account_fence_and_cancels_that_exact_owner() {
    let mut runtime = TauriOsuRuntime::start(&None, &None);
    let (first, replaced) = runtime.fence_for(profile(1), 10).unwrap();
    assert_eq!(replaced, None);
    let (second, replaced) = runtime.fence_for(profile(1), 11).unwrap();
    assert_eq!(replaced, None);
    assert_eq!(first, second);

    assert_eq!(runtime.cancel_matching(&profile(2)), None);
    assert_eq!(runtime.cancel_matching(&profile(1)), Some(first));
    assert!(matches!(
        runtime.commit_shutdown(),
        Ok(ShutdownStep::Seal { canceled: None })
    ));
}

#[test]
fn another_account_takes_the_fence_over() {
    let mut runtime = TauriOsuRuntime::start(&None, &None);
    assert_eq!(runtime.fence_for(profile(1), 10), Ok((10, None)));
    assert_eq!(runtime.fence_for(profile(2), 11), Ok((11, Some(10))));
}

#[test]
fn quiescence_waits_for_operations_then_resumes_or_seals_exactly_once() {
    let mut runtime = TauriOsuRuntime::start(&None, &None);
    runtime.begin_operation().unwrap();
    runtime.begin_quiesce();
    assert_eq!(runtime.quiesce_step(false), Ok(QuiesceStep::KeepWaiting));
    runtime.end_operation();
    assert_eq!(runtime.quiesce_step(false), Ok(QuiesceStep::Quiet));
    assert!(runtime.begin_operation().is_err());

    runtime.resume().unwrap();
    runtime.begin_operation().unwrap();
    runtime.end_operation();
    runtime.begin_quiesce();
    assert_eq!(runtime.quiesce_step(false), Ok(QuiesceStep::Quiet));
    runtime.commit_shutdown().unwrap();
    assert_eq!(runtime.commit_shutdown(), Ok(ShutdownStep::AlreadyDone));
    assert!(runtime.begin_operation().is_err());
    assert!(runtime.resume().is_err());
}

#[test]
fn quiescence_that_times_out_accepts_operations_again() {
    let mut runtime = TauriOsuRuntime::start(&None, &None);
    runtime.begin_operation().unwrap();
    runtime.begin_quiesce();
    assert_eq!(
        runtime.quiesce_step(true),
        Err("timed out quiescing osu! operations".to_string())
    );
    assert!(runtime.begin_operation().is_ok());
    assert_eq!(
        runtime.commit_shutdown(),
        Err("osu! operations are still active at shutdown".to_string())
    );
}

#[test]
fn only_so_many_operations_run() {
    let mut runtime = TauriOsuRuntime::start(&None, &None);
    for _ in 0..MAX_OSU_OPERATIONS {
        runtime.begin_operation().unwrap();
    }
    assert!(runtime.begin_operation().is_err());
    runtime.end_operation();
    assert!(runtime.begin_operation().is_ok());
}

#[test]
fn services_that_did_not_start_are_named() {
    let runtime = TauriOsuRuntime::start(&Some("no http".to_string()), &Some("no worker".to_string()));
    let warning = runtime.startup_warning().unwrap();
    assert!(warning.contains("no http") && warning.contains("no worker"), "{warning}");
    assert_eq!(TauriOsuRuntime::start(&None, &None).startup_warning(), None);
}

#[test]
fn account_changes_cancel_what_runs() {
    let mut runtime = TauriOsuRuntime::start(&None, &None);
    runtime.fence_for(profile(1), 10).unwrap();
    let canceled = Cell::new(None);
    assert_eq!(
        runtime.with_account_change(|fence| canceled.set(Some(fence)), || Ok(5)),
        Ok(5)
    );
    assert_eq!(canceled.get(), Some(10));
    assert_eq!(runtime.with_account_read(|| Ok(6)), Ok(6));
    runtime.begin_quiesce();
    let refused: Result<u32, String> =
        runtime.with_account_read(|| panic!("nothing is read while quiescing"));
    assert_eq!(refused, Err("osu! operations are quiescing".to_string()));
}

#[test]
fn blank_secrets_count_as_none() {
    assert_eq!(submitted_secret::<&str>(None), Ok(None));
    assert_eq!(submitted_secret::<&str>(Some(Err(SecretError::Empty))), Ok(None));
    assert_eq!(submitted_secret(Some(Ok("kept"))), Ok(Some("kept")));
    assert_eq!(
        submitted_secret::<&str>(Some(Err(SecretError::Other("too long".to_string())))),
        Err("too long".to_string())
    );
}

#[test]
fn accounts_are_told_apart_by_their_fields() {
    assert!(same_account_owner(&profile(1), &profile(1)));
    assert!(!same_account_owner(&profile(1), &profile(2)));
    let mut other = profile(1);
    other.user = None;
    assert!(!same_account_owner(&profile(1), &other));
}

#[test]
fn enrichment_needs_a_whole_account() {
    assert_eq!(
        enrichment_account(&profile(1)),
        Some((
            "61835".to_string(),
            "3426414".to_string(),
            "Clipline osu!:target".to_string()
        ))
    );
    let mut partial = profile(1);
    partial.client_id = None;
    assert_eq!(enrichment_account(&partial), None);
}

#[test]
fn enrichment_passes_that_gave_way_are_no_errors() {
    assert_eq!(enrichment_updated(EnrichmentOutcome::Completed { updated: 2 }), Ok(true));
    assert_eq!(enrichment_updated(EnrichmentOutcome::Completed { updated: 0 }), Ok(false));
    assert_eq!(enrichment_updated(EnrichmentOutcome::AccountChanged), Ok(false));
    assert_eq!(enrichment_updated(EnrichmentOutcome::Canceled), Ok(false));
    assert_eq!(enrichment_updated(EnrichmentOutcome::Superseded), Ok(false));
    assert_eq!(
        enrichment_updated(EnrichmentOutcome::Failed { message: "boom".to_string() }),
        Err("boom".to_string())
    );
    assert_eq!(
        enrichment_updated(EnrichmentOutcome::Panicked),
        Err("osu! enrichment worker panicked".to_string())
    );
    assert_eq!(
        enrichment_updated(EnrichmentOutcome::ShutDown),
        Err("osu! enrichment coordinator shut down".to_string())
    );
}

#[test]
fn setup_guide_keeps_the_trusted_oauth_destination_and_local_secret_copy() {
    let guide = osu_setup_guide_html();
    assert!(guide.contains("https://osu.ppy.sh/home/account/edit#oauth"));
    assert!(guide.contains("Windows Credential Manager"));
    assert!(guide.contains("http://127.0.0.1"));
}
