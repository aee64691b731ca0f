//! The managed FFmpeg runtime: what needs it, verifying it, and installing it.

use clipline_app::encoders::{Codec, EncoderApi, EncoderBackend, EncoderCapability};
use clipline_app::ffmpeg_install::{
    backup_name, cancel_ffmpeg_runtime_install, check_download_cancelled, check_download_response,
    committed_manifest, download_final_path, download_partial_path,
    download_progress, download_should_abort, ensure_finish, ensure_job, ensure_next, ensure_start,
    extract_allowlisted_ffmpeg_archive, finish_download, has_sufficient_free_space,
    install_managed_runtime_from_archive, judge_allowlist_entry, managed_root, publish_after_backup,
    publish_after_promote, publish_first, release_input_usable, runtime_status_for_dirs,
    staging_root, staging_tree_path, status_snapshot_for_state, validate_allowlist_entry,
    write_download_chunk, DownloadAbortReason, EnsureAction, EnsureEvent, EnsurePhase, EnsureStart,
    FfmpegInstallController, FfmpegInstallState, InstallAction, InstallAnswer, PublishAction,
    StagedFile,
    PROGRESS_STRIDE_BYTES,
};
use clipline_app::ffmpeg_runtime::{
    allowlist_total_bytes, allowlist_total_fits, classify_ffmpeg_discovery, ensure_ffmpeg_runtime_is_noop,
    ffmpeg_required_for, ffmpeg_runtime_status, free_space_required_bytes, install_affordance_copy,
    load_ffmpeg_runtime_manifest, managed_ffmpeg_dir_from_local_app_data,
    managed_runtime_needs_repair, parse_ffmpeg_runtime_manifest, recording_without_ffmpeg_possible,
    status_of_verification,
    verify_managed_ffmpeg_runtime, FfmpegAllowedFile, FfmpegDiscoveryKind, FfmpegProvenance,
    FfmpegRequirementReason, FfmpegRuntimeManifest, ManagedRuntimeInfo, ManagedRuntimeVerifyError,
    ManagedTree, ProvenanceFile, ProvenanceRead, TreeFile,
};
use clipline_app::hash::hex_sha256;
use std::cell::RefCell;
use std::collections::BTreeMap;
use std::io::Write;
use std::path::Path;

fn mft_h264() -> EncoderCapability {
    EncoderCapability {
        api: EncoderApi::Mft,
        backend: EncoderBackend::Amf,
        codecs: vec![Codec::H264],
    }
}

fn ffmpeg_nvenc() -> EncoderCapability {
    EncoderCapability {
        api: EncoderApi::Ffmpeg,
        backend: EncoderBackend::Nvenc,
        codecs: vec![Codec::H264],
    }
}

fn svt_av1() -> EncoderCapability {
    EncoderCapability {
        api: EncoderApi::Ffmpeg,
        backend: EncoderBackend::SvtAv1,
        codecs: vec![Codec::Av1],
    }
}

#[test]
fn mft_capability_allows_recording_without_ffmpeg() {
    assert!(recording_without_ffmpeg_possible(&[mft_h264()]));
    assert!(!recording_without_ffmpeg_possible(&[ffmpeg_nvenc(), svt_av1()]));
    assert!(!recording_without_ffmpeg_possible(&[]));
    assert!(!recording_without_ffmpeg_possible(&[EncoderCapability {
        api: EncoderApi::Mft,
        backend: EncoderBackend::Amf,
        codecs: vec![],
    }]));
}

#[test]
fn required_reasons_always_include_poster_sidecar_and_share_export() {
    let reasons = ffmpeg_required_for(&[mft_h264()]);
    assert!(reasons.contains(&FfmpegRequirementReason::Poster));
    assert!(reasons.contains(&FfmpegRequirementReason::AudioSidecarExtract));
    assert!(reasons.contains(&FfmpegRequirementReason::ShareableClipboardExport));
    assert!(!reasons.contains(&FfmpegRequirementReason::SvtAv1));
    assert!(!reasons.contains(&FfmpegRequirementReason::FfmpegBackendEncoder));
}

#[test]
fn ffmpeg_capabilities_add_backend_and_svt_reasons() {
    let reasons = ffmpeg_required_for(&[mft_h264(), ffmpeg_nvenc(), svt_av1()]);
    assert!(reasons.contains(&FfmpegRequirementReason::FfmpegBackendEncoder));
    assert!(reasons.contains(&FfmpegRequirementReason::SvtAv1));
    assert!(reasons.contains(&FfmpegRequirementReason::ShareableClipboardExport));
}

#[test]
fn ensure_noop_only_for_managed_verified() {
    assert!(ensure_ffmpeg_runtime_is_noop(FfmpegDiscoveryKind::ManagedVerified));
    assert!(!ensure_ffmpeg_runtime_is_noop(FfmpegDiscoveryKind::ExternalUnmanaged));
    assert!(!ensure_ffmpeg_runtime_is_noop(FfmpegDiscoveryKind::Missing));
}

#[test]
fn classify_discovery_prefers_managed_over_locate() {
    assert_eq!(
        classify_ffmpeg_discovery(true, true),
        FfmpegDiscoveryKind::ManagedVerified
    );
    assert_eq!(
        classify_ffmpeg_discovery(false, true),
        FfmpegDiscoveryKind::ExternalUnmanaged
    );
    assert_eq!(
        classify_ffmpeg_discovery(false, false),
        FfmpegDiscoveryKind::Missing
    );
}

#[test]
fn shareable_clipboard_affordance_mentions_install() {
    let copy = install_affordance_copy(FfmpegRequirementReason::ShareableClipboardExport);
    assert!(copy.to_ascii_lowercase().contains("install"));
    assert!(copy.to_ascii_lowercase().contains("ffmpeg"));
    assert!(copy.to_ascii_lowercase().contains("shareable"));
}

#[test]
fn every_reason_has_its_own_affordance() {
    let mut texts = vec![
        install_affordance_copy(FfmpegRequirementReason::Poster),
        install_affordance_copy(FfmpegRequirementReason::AudioSidecarExtract),
        install_affordance_copy(FfmpegRequirementReason::ShareableClipboardExport),
        install_affordance_copy(FfmpegRequirementReason::SvtAv1),
        install_affordance_copy(FfmpegRequirementReason::FfmpegBackendEncoder),
    ];
    assert_eq!(texts[0], "Install the FFmpeg runtime to generate clip posters.");
    texts.sort();
    texts.dedup();
    assert_eq!(texts.len(), 5);
}

// Verifying

fn tiny_manifest(files: Vec<FfmpegAllowedFile>) -> FfmpegRuntimeManifest {
    FfmpegRuntimeManifest {
        schema_version: 1,
        provider: "test-provider".to_string(),
        release_tag: "test-tag".to_string(),
        published_at: "2026-01-01T00:00:00Z".to_string(),
        archive_name: "ffmpeg-test.zip".to_string(),
        archive_url: "https://example.test/ffmpeg-test.zip".to_string(),
        archive_sha256: "aa".repeat(32),
        archive_size: 128,
        archive_root: "root".to_string(),
        version_line: "ffmpeg version test".to_string(),
        source_offer_url: "https://example.test/source".to_string(),
        ffmpeg_source_url: "https://example.test/ffmpeg".to_string(),
        allowed_files: files,
    }
}

const EXE: &[u8] = b"ffmpeg-bytes";
const DLL: &[u8] = b"avcodec-bytes";

fn allowed(archive_path: &str, staged_name: &str, bytes: &[u8]) -> FfmpegAllowedFile {
    FfmpegAllowedFile {
        archive_path: archive_path.to_string(),
        staged_name: staged_name.to_string(),
        size: bytes.len() as u64,
        sha256: hex_sha256(bytes),
    }
}

fn happy_manifest() -> FfmpegRuntimeManifest {
    tiny_manifest(vec![
        allowed("bin/ffmpeg.exe", "ffmpeg.exe", EXE),
        allowed("bin/avcodec-62.dll", "avcodec-62.dll", DLL),
    ])
}

fn provenance(
    manifest: &FfmpegRuntimeManifest,
    manifest_sha256: &str,
    files: &[(&str, &[u8])],
) -> FfmpegProvenance {
    FfmpegProvenance {
        schema_version: 1,
        provider: manifest.provider.clone(),
        release_tag: manifest.release_tag.clone(),
        published_at: manifest.published_at.clone(),
        archive_name: manifest.archive_name.clone(),
        archive_url: manifest.archive_url.clone(),
        archive_sha256: manifest.archive_sha256.clone(),
        manifest_sha256: manifest_sha256.to_string(),
        ffmpeg_version: manifest.version_line.clone(),
        source_offer_url: manifest.source_offer_url.clone(),
        ffmpeg_source_url: manifest.ffmpeg_source_url.clone(),
        files: files
            .iter()
            .map(|(name, bytes)| ProvenanceFile {
                name: name.to_string(),
                size: bytes.len() as u64,
                sha256: hex_sha256(bytes),
            })
            .collect(),
    }
}

fn file(name: &str, bytes: &[u8]) -> TreeFile {
    TreeFile {
        name: name.to_string(),
        size: bytes.len() as u64,
        content: Ok(bytes.to_vec()),
    }
}

fn tree(files: &[(&str, &[u8])], provenance: FfmpegProvenance) -> ManagedTree {
    let mut listed: Vec<TreeFile> = files.iter().map(|(name, bytes)| file(name, bytes)).collect();
    listed.push(file("PROVENANCE.json", b"{}"));
    ManagedTree {
        path: "managed".to_string(),
        is_dir: true,
        entries: listed.iter().map(|file| file.name.clone()).collect(),
        list_error: None,
        files: listed,
        provenance: ProvenanceRead::Parsed(provenance),
    }
}

fn happy_tree() -> (ManagedTree, FfmpegRuntimeManifest, String) {
    let manifest = happy_manifest();
    let manifest_sha256 = hex_sha256(b"committed-manifest-bytes");
    let files: [(&str, &[u8]); 2] = [("ffmpeg.exe", EXE), ("avcodec-62.dll", DLL)];
    let record = provenance(&manifest, &manifest_sha256, &files);
    (tree(&files, record), manifest, manifest_sha256)
}

fn replace(tree: &mut ManagedTree, name: &str, bytes: &[u8]) {
    for found in tree.files.iter_mut() {
        if found.name == name {
            *found = file(name, bytes);
        }
    }
}

#[test]
fn verify_accepts_happy_managed_tree() {
    let (tree, manifest, manifest_sha256) = happy_tree();
    let info = verify_managed_ffmpeg_runtime(&tree, &manifest, &manifest_sha256)
        .expect("happy tree should verify");
    assert_eq!(info.release_tag, "test-tag");
    assert_eq!(
        Path::new(&info.ffmpeg_exe),
        Path::new("managed").join("ffmpeg.exe")
    );
    assert!(!managed_runtime_needs_repair(&Ok(info)));
}

#[test]
fn verify_rejects_tampered_allowlisted_dll() {
    let (mut tree, manifest, manifest_sha256) = happy_tree();
    replace(&mut tree, "avcodec-62.dll", b"tampered-dll-bytes");
    let err = verify_managed_ffmpeg_runtime(&tree, &manifest, &manifest_sha256)
        .expect_err("tampered DLL must fail");
    assert!(matches!(
        err,
        ManagedRuntimeVerifyError::HashMismatch { .. }
            | ManagedRuntimeVerifyError::SizeMismatch { .. }
    ));
    assert!(managed_runtime_needs_repair(&Err(err)));
}

#[test]
fn verify_rejects_bytes_of_the_right_size() {
    let (mut tree, manifest, manifest_sha256) = happy_tree();
    replace(&mut tree, "avcodec-62.dll", b"AVCODEC-BYTES");
    let err = verify_managed_ffmpeg_runtime(&tree, &manifest, &manifest_sha256).unwrap_err();
    assert!(matches!(err, ManagedRuntimeVerifyError::HashMismatch { .. }));
}

#[test]
fn verify_rejects_missing_or_stale_provenance() {
    let (mut tree_without, manifest, manifest_sha256) = happy_tree();
    tree_without.entries.retain(|name| name != "PROVENANCE.json");
    tree_without.files.retain(|file| file.name != "PROVENANCE.json");
    assert!(matches!(
        verify_managed_ffmpeg_runtime(&tree_without, &manifest, &manifest_sha256),
        Err(ManagedRuntimeVerifyError::MissingProvenance)
    ));

    let files: [(&str, &[u8]); 2] = [("ffmpeg.exe", EXE), ("avcodec-62.dll", DLL)];
    let stale = tree(&files, provenance(&manifest, &"bb".repeat(32), &files));
    let err = verify_managed_ffmpeg_runtime(&stale, &manifest, &"aa".repeat(32))
        .expect_err("stale provenance must fail");
    assert!(matches!(
        err,
        ManagedRuntimeVerifyError::ProvenanceMismatch { field, .. } if field == "manifest_sha256"
    ));
}

#[test]
fn verify_names_what_is_wrong_with_a_tree() {
    let (mut broken, manifest, sha) = happy_tree();
    broken.is_dir = false;
    assert!(matches!(
        verify_managed_ffmpeg_runtime(&broken, &manifest, &sha),
        Err(ManagedRuntimeVerifyError::NotDirectory { path }) if path == "managed"
    ));

    let (mut extra, manifest, sha) = happy_tree();
    extra.entries.push("evil.dll".to_string());
    assert!(matches!(
        verify_managed_ffmpeg_runtime(&extra, &manifest, &sha),
        Err(ManagedRuntimeVerifyError::UnexpectedFile { name }) if name == "evil.dll"
    ));

    let (mut readme, manifest, sha) = happy_tree();
    readme.entries.push("readme.MD".to_string());
    assert!(verify_managed_ffmpeg_runtime(&readme, &manifest, &sha).is_ok());

    let (mut gone, manifest, sha) = happy_tree();
    gone.files.retain(|file| file.name != "avcodec-62.dll");
    assert!(matches!(
        verify_managed_ffmpeg_runtime(&gone, &manifest, &sha),
        Err(ManagedRuntimeVerifyError::MissingFile { name }) if name == "avcodec-62.dll"
    ));

    let (mut invalid, manifest, sha) = happy_tree();
    invalid.provenance = ProvenanceRead::Invalid { message: "bad json".to_string() };
    let error = verify_managed_ffmpeg_runtime(&invalid, &manifest, &sha).unwrap_err();
    assert!(matches!(error, ManagedRuntimeVerifyError::InvalidProvenance { .. }));
    assert!(error.message().contains("bad json"), "{}", error.message());
}

#[test]
fn runtime_status_reports_override_or_path_as_external() {
    let (mut tree, manifest, manifest_sha256) = happy_tree();
    let managed = ffmpeg_runtime_status(
        Some(&tree),
        &manifest,
        &manifest_sha256,
        Some("C:/tools/ffmpeg.exe"),
    );
    assert_eq!(managed.kind, FfmpegDiscoveryKind::ManagedVerified);
    assert!(ensure_ffmpeg_runtime_is_noop(managed.kind));

    replace(&mut tree, "avcodec-62.dll", b"nope");
    let external = ffmpeg_runtime_status(
        Some(&tree),
        &manifest,
        &manifest_sha256,
        Some("C:/tools/ffmpeg.exe"),
    );
    assert_eq!(external.kind, FfmpegDiscoveryKind::ExternalUnmanaged);
    assert!(!ensure_ffmpeg_runtime_is_noop(external.kind));
    assert!(managed_runtime_needs_repair(&verify_managed_ffmpeg_runtime(
        &tree,
        &manifest,
        &manifest_sha256
    )));

    let missing = ffmpeg_runtime_status(None, &manifest, &manifest_sha256, None);
    assert_eq!(missing.kind, FfmpegDiscoveryKind::Missing);
}

#[test]
fn managed_dir_uses_local_app_data_clipline_ffmpeg() {
    let root = Path::new("C:/Users/test/AppData/Local");
    assert_eq!(
        managed_ffmpeg_dir_from_local_app_data(Some("C:/Users/test/AppData/Local"))
            .map(|dir| Path::new(&dir).to_path_buf()),
        Some(root.join("Clipline").join("ffmpeg"))
    );
    assert_eq!(managed_ffmpeg_dir_from_local_app_data(None), None);
}

#[test]
fn manifests_are_checked_when_they_are_read() {
    assert!(parse_ffmpeg_runtime_manifest(Ok(happy_manifest())).is_ok());
    let error = parse_ffmpeg_runtime_manifest(Err("eof".to_string())).unwrap_err();
    assert!(error.message().contains("eof"), "{}", error.message());
    assert!(parse_ffmpeg_runtime_manifest(Ok(tiny_manifest(Vec::new()))).is_err());
    let (_, digest) = load_ffmpeg_runtime_manifest(b"abc", Ok(happy_manifest())).unwrap();
    assert_eq!(
        digest,
        "ba7816bf8f01cfea414140de5dae2223b00361a396177a9cb410ff61f20015ad"
    );
    let (manifest, digest) = committed_manifest("abc", Ok(happy_manifest())).unwrap();
    assert_eq!(manifest, happy_manifest());
    assert_eq!(digest, hex_sha256(b"abc"));
}

// Installing

#[test]
fn free_space_planner_includes_archive_allowlist_and_margin() {
    let mut manifest = tiny_manifest(vec![]);
    manifest.archive_size = 100;
    manifest.allowed_files = vec![FfmpegAllowedFile {
        archive_path: "bin/a".to_string(),
        staged_name: "a".to_string(),
        size: 40,
        sha256: hex_sha256(b"a"),
    }];
    assert!(allowlist_total_fits(&manifest));
    assert_eq!(free_space_required_bytes(&manifest, 10), 100 + 40 + 10);
    assert!(has_sufficient_free_space(150, 150));
    assert!(!has_sufficient_free_space(149, 150));
    manifest.archive_size = u64::MAX;
    assert_eq!(free_space_required_bytes(&manifest, 10), u64::MAX);
}

#[test]
fn download_abort_on_overflow_or_cancel() {
    assert_eq!(download_should_abort(10, 10, false), None);
    assert_eq!(
        download_should_abort(11, 10, false),
        Some(DownloadAbortReason::Overflow)
    );
    assert_eq!(
        download_should_abort(0, 10, true),
        Some(DownloadAbortReason::Cancelled)
    );
}

#[test]
fn single_flight_coalesces_concurrent_begin() {
    let mut controller = FfmpegInstallController::default();
    assert!(controller.try_begin_job().unwrap());
    assert!(!controller.try_begin_job().unwrap());
    assert!(matches!(
        controller.snapshot_state(),
        FfmpegInstallState::Checking
    ));
    controller.end_job(FfmpegInstallState::Ready);
    assert!(controller.try_begin_job().unwrap());
}

#[test]
fn cancel_requests_worker_shutdown_without_publishing_a_terminal_state_early() {
    let mut controller = FfmpegInstallController::default();
    assert!(controller.try_begin_job().unwrap());
    let state = controller.request_cancel();
    assert_eq!(state, FfmpegInstallState::Checking);
    assert!(controller.is_cancelled());
}

#[test]
fn cancel_is_ignored_without_a_cancellable_active_job() {
    let mut controller = FfmpegInstallController::default();
    assert_eq!(controller.request_cancel(), FfmpegInstallState::Idle);
    assert!(!controller.is_cancelled());

    assert!(controller.try_begin_job().unwrap());
    assert!(controller.begin_publishing().unwrap());
    assert_eq!(controller.request_cancel(), FfmpegInstallState::Publishing);
    assert!(!controller.is_cancelled());
}

#[test]
fn cancellation_wins_before_the_publish_boundary() {
    let mut controller = FfmpegInstallController::default();
    assert!(controller.try_begin_job().unwrap());
    controller.set_state(FfmpegInstallState::Verifying);
    controller.request_cancel();

    assert!(!controller.begin_publishing().unwrap());
    assert_eq!(controller.snapshot_state(), FfmpegInstallState::Verifying);
}

#[test]
fn a_poisoned_controller_refuses_jobs() {
    let mut controller = FfmpegInstallController::default();
    controller.mark_poisoned();
    assert_eq!(
        controller.try_begin_job(),
        Err("ffmpeg install state lock poisoned".to_string())
    );
    assert_eq!(
        controller.begin_publishing(),
        Err("ffmpeg install state lock poisoned".to_string())
    );
    assert_eq!(
        controller.snapshot_state(),
        FfmpegInstallState::Failed { message: "ffmpeg install state lock poisoned".to_string() }
    );
}

fn write_tiny_zip(files: &[(&str, &[u8])]) -> Vec<u8> {
    let mut zip = zip::ZipWriter::new(std::io::Cursor::new(Vec::new()));
    let options = zip::write::SimpleFileOptions::default()
        .compression_method(zip::CompressionMethod::Stored);
    for (name, bytes) in files {
        zip.start_file(*name, options).unwrap();
        zip.write_all(bytes).unwrap();
    }
    zip.finish().unwrap().into_inner()
}

fn archived_manifest(archive: &[u8]) -> FfmpegRuntimeManifest {
    let mut manifest = happy_manifest();
    manifest.archive_size = archive.len() as u64;
    manifest.archive_sha256 = hex_sha256(archive);
    manifest
}

fn happy_archive() -> Vec<u8> {
    write_tiny_zip(&[("root/bin/ffmpeg.exe", EXE), ("root/bin/avcodec-62.dll", DLL)])
}

/// The files of a staging tree, what was asked of it, and the looks at the cancel flag.
#[derive(Default)]
struct Stage {
    files: BTreeMap<String, Vec<u8>>,
    asked: Vec<&'static str>,
    looks: usize,
    cancel_at: Option<usize>,
    broken: Option<&'static str>,
}

impl Stage {
    fn came(&mut self, what: &'static str) -> Result<(), String> {
        self.asked.push(what);
        if self.broken == Some(what) {
            Err("denied".to_string())
        } else {
            Ok(())
        }
    }

    fn answer(&mut self, action: InstallAction) -> InstallAnswer {
        match action {
            InstallAction::Look => {
                self.looks += 1;
                InstallAnswer::Flag(self.cancel_at == Some(self.looks))
            }
            InstallAction::ClearTree => {
                self.files.clear();
                InstallAnswer::Came(self.came("clear"))
            }
            InstallAction::CreateFile { name } => {
                self.files.insert(name, Vec::new());
                InstallAnswer::Came(self.came("create"))
            }
            InstallAction::Append { name, bytes } => {
                self.files.get_mut(&name).unwrap().extend(bytes);
                InstallAnswer::Came(self.came("append"))
            }
            InstallAction::Seal { provenance } => {
                let files: Vec<(&str, &[u8])> = self
                    .files
                    .iter()
                    .map(|(name, bytes)| (name.as_str(), bytes.as_slice()))
                    .collect();
                let mut sealed = tree(&files, provenance);
                if self.broken == Some("disk") {
                    replace(&mut sealed, "avcodec-62.dll", b"AVCODEC-BYTES");
                }
                InstallAnswer::Tree(self.came("seal").map(|()| sealed))
            }
            InstallAction::AskToPublish => InstallAnswer::Came(self.came("ask")),
            InstallAction::Publish { dest } => {
                assert_eq!(dest, managed_root("local"));
                InstallAnswer::Came(self.came("publish"))
            }
            InstallAction::Stop => panic!("nothing is due"),
        }
    }
}

fn extract(
    archive: &[u8],
    manifest: &FfmpegRuntimeManifest,
    stage: &mut Stage,
) -> Result<Vec<StagedFile>, String> {
    let mut extraction = extract_allowlisted_ffmpeg_archive();
    loop {
        let action = extraction.due(archive, manifest);
        if action == InstallAction::Stop {
            break;
        }
        extraction.answered(archive, manifest, stage.answer(action));
    }
    match extraction.failure {
        None => Ok(extraction.staged),
        Some(error) => Err(error),
    }
}

fn install(
    archive: &[u8],
    manifest: &FfmpegRuntimeManifest,
    sha: &str,
    stage: &mut Stage,
) -> Result<ManagedRuntimeInfo, String> {
    let mut install = install_managed_runtime_from_archive();
    loop {
        let action = install.due(archive, "local", manifest, sha);
        if action == InstallAction::Stop {
            break;
        }
        install.answered(archive, "local", manifest, sha, stage.answer(action));
    }
    install.result()
}

fn one_file(bytes: &[u8]) -> (Vec<u8>, FfmpegRuntimeManifest) {
    let archive = write_tiny_zip(&[("root/bin/a.dll", bytes)]);
    let mut manifest = tiny_manifest(vec![allowed("bin/a.dll", "a.dll", bytes)]);
    manifest.archive_size = archive.len() as u64;
    manifest.archive_sha256 = hex_sha256(&archive);
    (archive, manifest)
}

#[test]
fn extraction_copy_observes_cancellation_between_chunks() {
    let input = vec![7_u8; 256 * 1024];
    let (archive, manifest) = one_file(&input);
    // The first two looks are before the archive and before the entry.
    let mut stage = Stage { cancel_at: Some(5), ..Stage::default() };
    let error = extract(&archive, &manifest, &mut stage)
        .expect_err("copy should stop when cancellation is requested");

    assert!(error.contains("cancelled"));
    assert_eq!(error, "extract a.dll: ffmpeg install cancelled");
    assert!(stage.files["a.dll"].len() < input.len());
    assert_eq!(stage.files["a.dll"].len(), 128 * 1024);
}

#[test]
fn extraction_copy_counts_and_hashes() {
    let input: Vec<u8> = (0..100_000_u32).map(|i| i as u8).collect();
    let (archive, manifest) = one_file(&input);
    let mut stage = Stage::default();
    let staged = extract(&archive, &manifest, &mut stage).unwrap();
    assert_eq!(staged.len(), 1);
    assert_eq!((staged[0].size, staged[0].sha256.clone()), (100_000, hex_sha256(&input)));
    assert_eq!(stage.files["a.dll"], input);
    assert_eq!(stage.asked, ["clear", "create", "append", "append"]);
    assert_eq!(stage.looks, 6);
}

#[test]
fn a_cancel_at_any_look_keeps_the_runtime_unpublished() {
    let archive = happy_archive();
    let manifest = archived_manifest(&archive);
    let sha = hex_sha256(b"m");
    let mut whole = Stage::default();
    assert!(install(&archive, &manifest, &sha, &mut whole).is_ok());
    assert_eq!(whole.asked.last(), Some(&"publish"));
    for look in 1..=whole.looks {
        let mut stage = Stage { cancel_at: Some(look), ..Stage::default() };
        let error = install(&archive, &manifest, &sha, &mut stage).unwrap_err();
        assert!(error.contains("ffmpeg install cancelled"), "{error}");
        assert_eq!(stage.looks, look);
        assert!(!stage.asked.contains(&"ask"));
    }
}

#[test]
fn a_cancel_is_reported_before_a_bad_archive() {
    let manifest = archived_manifest(b"no zip");
    let mut stage = Stage { cancel_at: Some(1), ..Stage::default() };
    let error = install(b"wrong size", &manifest, "m", &mut stage).unwrap_err();
    assert_eq!(error, "ffmpeg install cancelled");

    // A byte of the stored entry is damaged: its checksum fails when it is read.
    let (mut archive, manifest) = one_file(b"content");
    let at = archive.windows(7).position(|window| window == b"content").unwrap();
    archive[at] ^= 1;
    let mut stage = Stage { cancel_at: Some(3), ..Stage::default() };
    assert_eq!(
        extract(&archive, &manifest, &mut stage).unwrap_err(),
        "extract a.dll: ffmpeg install cancelled"
    );
    let error = extract(&archive, &manifest, &mut Stage::default()).unwrap_err();
    assert!(error.starts_with("extract a.dll: read archive entry: "), "{error}");
}

#[test]
fn the_first_thing_that_fails_is_reported() {
    let archive = happy_archive();
    let manifest = archived_manifest(&archive);
    for (broken, expected) in [
        ("clear", "denied"),
        ("create", "create staged ffmpeg.exe: denied"),
        ("append", "extract ffmpeg.exe: write staged file: denied"),
        ("seal", "denied"),
        ("ask", "denied"),
        ("publish", "denied"),
    ] {
        let mut stage = Stage { broken: Some(broken), ..Stage::default() };
        assert_eq!(
            install(&archive, &manifest, "m", &mut stage),
            Err(expected.to_string()),
            "{broken}"
        );
        assert_eq!(stage.asked.last(), Some(&broken));
    }
    // A tree that cannot be cleared is told before an archive that cannot be opened.
    let mut stage = Stage { broken: Some("clear"), ..Stage::default() };
    assert_eq!(
        extract(b"no zip", &archived_manifest(b"no zip"), &mut stage),
        Err("denied".to_string())
    );
}

#[test]
fn install_from_tiny_archive_publishes_managed_tree() {
    let archive = happy_archive();
    let manifest = archived_manifest(&archive);
    let manifest_sha256 = hex_sha256(b"committed-manifest");
    let mut stage = Stage::default();

    let info = install(&archive, &manifest, &manifest_sha256, &mut stage)
        .expect("install tiny archive");

    assert_eq!(info.release_tag, "test-tag");
    assert_eq!(info.dir, managed_root("local"));
    assert_eq!(
        Path::new(&info.ffmpeg_exe),
        Path::new("local").join("Clipline").join("ffmpeg").join("ffmpeg.exe")
    );
    assert_eq!(stage.files["ffmpeg.exe"], EXE);
    assert_eq!(stage.files["avcodec-62.dll"], DLL);
}

#[test]
fn extraction_takes_the_allowlisted_files() {
    let archive = write_tiny_zip(&[
        ("root/bin/avcodec-62.dll", DLL),
        ("root/bin/ffplay.exe", b"not wanted"),
        ("root/bin/ffmpeg.exe", EXE),
    ]);
    let manifest = archived_manifest(&archive);
    let mut stage = Stage::default();
    stage.files.insert("left over".to_string(), b"stale".to_vec());
    let staged = extract(&archive, &manifest, &mut stage).unwrap();
    assert_eq!(staged.len(), 2);
    assert_eq!(staged[0].name, "ffmpeg.exe");
    assert_eq!(staged[1].sha256, hex_sha256(DLL));
    assert_eq!(stage.files.len(), 2);
    assert_eq!(stage.files["ffmpeg.exe"], EXE);
    assert_eq!(stage.files["avcodec-62.dll"], DLL);
}

#[test]
fn extraction_refuses_what_does_not_fit_the_manifest() {
    let missing = write_tiny_zip(&[("root/bin/ffmpeg.exe", EXE)]);
    let manifest = archived_manifest(&missing);
    assert_eq!(
        extract(&missing, &manifest, &mut Stage::default()),
        Err("missing archive entry root/bin/avcodec-62.dll".to_string())
    );

    let swapped =
        write_tiny_zip(&[("root/bin/ffmpeg.exe", EXE), ("root/bin/avcodec-62.dll", b"AVCODEC-BYTES")]);
    let manifest = archived_manifest(&swapped);
    let error = extract(&swapped, &manifest, &mut Stage::default()).unwrap_err();
    assert!(error.starts_with("staged avcodec-62.dll SHA-256 mismatch"), "{error}");

    let longer =
        write_tiny_zip(&[("root/bin/ffmpeg.exe", EXE), ("root/bin/avcodec-62.dll", b"longer bytes")]);
    let manifest = archived_manifest(&longer);
    assert_eq!(
        extract(&longer, &manifest, &mut Stage::default()),
        Err("archive entry root/bin/avcodec-62.dll size mismatch: expected 13, got 12".to_string())
    );

    let manifest = archived_manifest(b"no zip");
    let error = extract(b"no zip", &manifest, &mut Stage::default()).unwrap_err();
    assert!(error.starts_with("open zip: "), "{error}");
}

#[test]
fn allowlist_entries_stay_in_the_tree() {
    assert_eq!(validate_allowlist_entry(&allowed("bin/a.dll", "a.dll", b"")), Ok(()));
    for (archive_path, staged_name) in [
        ("bin/a.dll", ""),
        ("bin/a.dll", ".."),
        ("bin/a.dll", "sub/a.dll"),
        ("../a.dll", "a.dll"),
        ("/bin/a.dll", "a.dll"),
        ("//server/share/a.dll", "a.dll"),
    ] {
        assert_eq!(
            validate_allowlist_entry(&allowed(archive_path, staged_name, b"")),
            Err(format!("unsafe FFmpeg allowlist entry: {archive_path} -> {staged_name}"))
        );
    }
}

#[test]
fn entries_are_judged_by_what_the_platform_says_of_their_paths() {
    let judge = |archive_path: &str, staged_name: &str, own: Option<&str>, absolute: bool| {
        let own_name = own.map(str::to_string);
        judge_allowlist_entry(&allowed(archive_path, staged_name, b""), &own_name, absolute).is_ok()
    };
    assert!(judge("bin/a.dll", "a.dll", Some("a.dll"), false));
    assert!(!judge("bin/a.dll", "a.dll", Some("a.dll"), true));
    assert!(!judge("bin/a.dll", "a.dll", None, false));
    // As Windows sees them.
    assert!(!judge("bin/evil.dll", r"..\evil.dll", Some("evil.dll"), false));
    assert!(!judge("bin/x", "C:x", Some("x"), false));
    assert!(!judge(r"C:\a.dll", "a.dll", Some("a.dll"), true));
    assert!(!judge("bin/../a.dll", "a.dll", Some("a.dll"), false));
    assert!(!judge("bin/a.dll", "  ", Some("  "), false));
}

#[test]
fn nothing_is_published_that_was_refused() {
    let archive = happy_archive();
    let manifest = archived_manifest(&archive);
    let mut stage = Stage { broken: Some("ask"), ..Stage::default() };
    assert_eq!(
        install(&archive, &manifest, "m", &mut stage),
        Err("denied".to_string())
    );
    assert!(!stage.asked.contains(&"publish"));

    let mut stage = Stage { broken: Some("disk"), ..Stage::default() };
    let error = install(&archive, &manifest, "m", &mut stage).unwrap_err();
    assert!(error.contains("avcodec-62.dll"), "{error}");
    assert!(!stage.asked.contains(&"ask"));
}

#[test]
fn the_status_holds_what_verification_gave() {
    let (tree, manifest, manifest_sha256) = happy_tree();
    let info = verify_managed_ffmpeg_runtime(&tree, &manifest, &manifest_sha256).unwrap();
    let status = status_of_verification(Some(info), Some("path/ffmpeg"));
    assert_eq!(status, ffmpeg_runtime_status(Some(&tree), &manifest, &manifest_sha256, Some("path/ffmpeg")));
    assert_eq!(status.kind, FfmpegDiscoveryKind::ManagedVerified);
    let damaged = status_of_verification(None, Some("path/ffmpeg"));
    assert_eq!(damaged.kind, FfmpegDiscoveryKind::ExternalUnmanaged);
    assert!(damaged.managed.is_none());
}

#[test]
fn write_download_chunk_enforces_cap() {
    let file = RefCell::new(Vec::new());
    let write = |chunk: &[u8]| {
        file.borrow_mut().extend_from_slice(chunk);
        Ok(())
    };
    let mut written = 0u64;
    write_download_chunk(write, &mut written, b"abcd", 4, false).unwrap();
    assert_eq!(written, 4);
    let err = write_download_chunk(write, &mut written, b"x", 4, false).unwrap_err();
    assert!(err.contains("archive_size"));
    assert_eq!(*file.borrow(), b"abcd");
    assert_eq!(
        write_download_chunk(write, &mut written, b"", 4, true),
        Err("ffmpeg download cancelled".to_string())
    );
}

#[test]
fn downloads_are_checked_at_both_ends() {
    assert_eq!(check_download_response(true, "200 OK", Some(128), 128), Ok(()));
    assert_eq!(check_download_response(true, "200 OK", None, 128), Ok(()));
    assert!(check_download_response(false, "404 Not Found", None, 128).is_err());
    assert!(check_download_response(true, "200 OK", Some(129), 128).is_err());
    assert!(check_download_cancelled(false).is_ok());
    assert!(check_download_cancelled(true).unwrap_err().remove_partial);

    let manifest = archived_manifest(b"archive");
    assert_eq!(finish_download(7, b"archive", &manifest), Ok(()));
    assert_eq!(
        finish_download(6, b"archiv", &manifest).unwrap_err().message,
        "ffmpeg download size mismatch: expected 7, got 6"
    );
    assert!(!finish_download(7, b"ARCHIVE", &manifest).unwrap_err().remove_partial);
    assert!(release_input_usable(true, b"archive", &manifest));
    assert!(!release_input_usable(false, b"archive", &manifest));
    assert!(!release_input_usable(true, b"ARCHIVE", &manifest));
}

#[test]
fn progress_is_told_in_strides() {
    assert!(download_progress(PROGRESS_STRIDE_BYTES, u64::MAX).1);
    assert!(!download_progress(PROGRESS_STRIDE_BYTES + 1, u64::MAX).1);
    let (state, told) = download_progress(5, 5);
    assert!(told);
    assert_eq!(state, FfmpegInstallState::Downloading { bytes: 5, total: 5 });
}

#[test]
fn staging_paths_lie_below_local_app_data() {
    let staging = staging_root("local");
    assert_eq!(
        Path::new(&staging),
        Path::new("local").join("Clipline").join("ffmpeg-staging")
    );
    assert_eq!(
        Path::new(&download_partial_path(&staging, "a.zip")),
        Path::new(&staging).join("download").join("a.zip.partial")
    );
    assert_eq!(
        Path::new(&download_final_path(&staging, "a.zip")),
        Path::new(&staging).join("download").join("a.zip")
    );
    assert_eq!(
        Path::new(&staging_tree_path(&staging)),
        Path::new(&staging).join("tree")
    );
}

#[test]
fn staged_and_published_files_are_apart() {
    let staging = staging_root("local");
    let managed = managed_root("local");
    assert_ne!(staging, managed);
    assert!(!Path::new(&staging).starts_with(&managed));
    assert!(!Path::new(&managed).starts_with(&staging));
    assert_eq!(managed_ffmpeg_dir_from_local_app_data(Some("local")), Some(managed));

    let partial = download_partial_path(&staging, "a.zip");
    let complete = download_final_path(&staging, "a.zip");
    assert_ne!(partial, complete);
    assert_eq!(Path::new(&partial).parent(), Path::new(&complete).parent());
    assert!(!Path::new(&partial).starts_with(&complete));
}

#[test]
fn totals_of_lists_add_up() {
    let exe = allowed("bin/ffmpeg.exe", "ffmpeg.exe", EXE);
    let dll = allowed("bin/avcodec-62.dll", "avcodec-62.dll", DLL);
    let total = |files: Vec<FfmpegAllowedFile>| allowlist_total_bytes(&tiny_manifest(files));
    let (first, second) = (total(vec![exe]), total(vec![dll]));
    assert_eq!(first, EXE.len() as u64);
    assert_eq!(allowlist_total_bytes(&happy_manifest()), first + second);
}

#[test]
fn a_changed_file_is_named_with_its_size_or_its_digest() {
    let (mut tree, manifest, manifest_sha256) = happy_tree();
    replace(&mut tree, "ffmpeg.exe", b"x");
    replace(&mut tree, "avcodec-62.dll", b"also changed");
    assert_eq!(
        verify_managed_ffmpeg_runtime(&tree, &manifest, &manifest_sha256),
        Err(ManagedRuntimeVerifyError::SizeMismatch {
            name: "ffmpeg.exe".to_string(),
            expected: EXE.len() as u64,
            actual: 1,
        })
    );

    let (mut tree, manifest, manifest_sha256) = happy_tree();
    let flipped: Vec<u8> = DLL.iter().map(|byte| !byte).collect();
    replace(&mut tree, "avcodec-62.dll", &flipped);
    assert_eq!(
        verify_managed_ffmpeg_runtime(&tree, &manifest, &manifest_sha256),
        Err(ManagedRuntimeVerifyError::HashMismatch {
            name: "avcodec-62.dll".to_string(),
            expected: hex_sha256(DLL),
            actual: hex_sha256(&flipped),
        })
    );
    let status = ffmpeg_runtime_status(Some(&tree), &manifest, &manifest_sha256, None);
    assert_eq!(status.kind, FfmpegDiscoveryKind::Missing);
    assert!(status.managed.is_none());
}

#[test]
fn publishing_sets_the_old_runtime_aside() {
    assert_eq!(publish_first(false), PublishAction::Promote);
    assert_eq!(publish_first(true), PublishAction::BackUp);
    assert_eq!(publish_after_backup(Ok(())), Ok(PublishAction::Promote));
    assert_eq!(
        publish_after_backup(Err("busy".to_string())),
        Err("backup existing managed runtime: busy".to_string())
    );
    assert_eq!(
        publish_after_promote(Ok(()), true, true),
        (PublishAction::RemoveBackup, Ok(()))
    );
    assert_eq!(
        publish_after_promote(Err("busy".to_string()), true, false),
        (
            PublishAction::RestoreBackup,
            Err("publish managed runtime: busy".to_string())
        )
    );
    assert_eq!(
        publish_after_promote(Err("busy".to_string()), false, false).0,
        PublishAction::Nothing
    );
    assert_eq!(backup_name(17), ".ffmpeg-previous-17");
}

fn run_job(events: Vec<EnsureEvent>, cancelled: bool, required: u64) -> (EnsurePhase, Vec<EnsureAction>) {
    let (mut phase, action) = ensure_job();
    let mut actions = vec![action];
    for event in events {
        let next = ensure_next(phase, event, cancelled, required);
        phase = next.0;
        actions.push(next.1);
    }
    (phase, actions)
}

fn info() -> ManagedRuntimeInfo {
    ManagedRuntimeInfo {
        dir: "managed".to_string(),
        ffmpeg_exe: "managed/ffmpeg.exe".to_string(),
        release_tag: "tag".to_string(),
        archive_sha256: "aa".to_string(),
        manifest_sha256: "bb".to_string(),
    }
}

#[test]
fn an_install_job_runs_its_steps_in_order() {
    let (phase, actions) = run_job(
        vec![
            EnsureEvent::Done(Ok(())),
            EnsureEvent::Done(Ok(())),
            EnsureEvent::Done(Ok(())),
            EnsureEvent::FreeSpace(Ok(10)),
            EnsureEvent::ReleaseInput { usable: false },
            EnsureEvent::Done(Ok(())),
            EnsureEvent::Installed(Ok(info())),
            EnsureEvent::Done(Ok(())),
        ],
        false,
        10,
    );
    assert_eq!(phase, EnsurePhase::Finished { outcome: Ok(info()) });
    assert_eq!(
        actions,
        vec![
            EnsureAction::CreateDownloadDir,
            EnsureAction::SweepStaging,
            EnsureAction::CreateDownloadDir,
            EnsureAction::ReadFreeSpace,
            EnsureAction::InspectReleaseInput,
            EnsureAction::Download,
            EnsureAction::Install,
            EnsureAction::SweepStaging,
            EnsureAction::Report,
        ]
    );
}

#[test]
fn an_install_job_needs_space() {
    let (phase, _) = run_job(
        vec![
            EnsureEvent::Done(Ok(())),
            EnsureEvent::Done(Ok(())),
            EnsureEvent::Done(Ok(())),
            EnsureEvent::FreeSpace(Ok(9)),
        ],
        false,
        10,
    );
    assert_eq!(
        phase,
        EnsurePhase::Finished {
            outcome: Err(
                "not enough free disk space for FFmpeg runtime (need 10 bytes, have 9)".to_string()
            )
        }
    );
}

#[test]
fn a_cancelled_install_job_cleans_up() {
    let (phase, actions) = run_job(
        vec![EnsureEvent::Done(Ok(())), EnsureEvent::Done(Ok(())), EnsureEvent::Done(Ok(()))],
        true,
        10,
    );
    assert_eq!(
        phase,
        EnsurePhase::Finished { outcome: Err("ffmpeg install cancelled".to_string()) }
    );
    assert_eq!(actions.last(), Some(&EnsureAction::Report));
}

#[test]
fn ensure_coalesces_and_finishes() {
    let (tree, manifest, sha) = happy_tree();
    let mut controller = FfmpegInstallController::default();
    let ready = status_snapshot_for_state(
        controller.snapshot_state(),
        Some(&tree),
        &manifest,
        &sha,
        None,
    );
    assert!(matches!(
        ensure_start(&mut controller, ready),
        Ok(EnsureStart::AlreadyReady(snapshot)) if snapshot.state == FfmpegInstallState::Ready
    ));

    let absent = |controller: &FfmpegInstallController| {
        status_snapshot_for_state(controller.snapshot_state(), None, &manifest, &sha, None)
    };
    let status = absent(&controller);
    assert_eq!(ensure_start(&mut controller, status), Ok(EnsureStart::Run));
    let status = absent(&controller);
    assert_eq!(ensure_start(&mut controller, status), Ok(EnsureStart::Coalesced));

    let snapshot = cancel_ffmpeg_runtime_install(&mut controller);
    assert_eq!(snapshot.state, FfmpegInstallState::Checking);
    assert!(ensure_finish(&mut controller, Err("broken pipe".to_string())).is_err());
    assert_eq!(controller.snapshot_state(), FfmpegInstallState::Cancelled);

    let status = absent(&controller);
    assert_eq!(ensure_start(&mut controller, status), Ok(EnsureStart::Run));
    controller.clear_cancel();
    let finished = ensure_finish(&mut controller, Ok(info())).unwrap();
    assert_eq!(finished.discovery, FfmpegDiscoveryKind::ManagedVerified);
    assert_eq!(finished.managed.unwrap().release_tag, "tag");
    assert_eq!(controller.snapshot_state(), FfmpegInstallState::Ready);
}

#[test]
fn the_status_on_disk_is_read_with_the_committed_manifest() {
    let manifest = happy_manifest();
    let sha = hex_sha256(b"{}");
    let files: [(&str, &[u8]); 2] = [("ffmpeg.exe", EXE), ("avcodec-62.dll", DLL)];
    let tree = tree(&files, provenance(&manifest, &sha, &files));
    let status = runtime_status_for_dirs(Some(&tree), None, "{}", Ok(manifest)).unwrap();
    assert_eq!(status.kind, FfmpegDiscoveryKind::ManagedVerified);
    assert!(runtime_status_for_dirs(None, None, "{}", Err("eof".to_string())).is_err());
}
