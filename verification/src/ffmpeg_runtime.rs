//! FFmpeg capability matrix, managed-runtime verification, and discovery status.
//!
//! Finding a runnable binary does not make it a managed runtime: only a tree
//! that passes [`verify_managed_ffmpeg_runtime`] is `ManagedVerified`.

use crate::encoders::{contains_codec, Codec, EncoderApi, EncoderBackend, EncoderCapability};
use crate::hash::{hex_sha256, sha256_hex};
use crate::paths::{is_child_path, is_grandchild_path, is_verbatim, join_path, join_two};
use crate::text::{
    ascii_lower, blank, concat2, concat3, decimal, decimal_string, eq_ignore_ascii_case, has_suffix,
    is_blank,
    opt_str_view, opt_view, same_ignoring_case, str_eq, to_ascii_lowercase,
};
use vstd::prelude::*;

verus! {

/// Why a surface of the application needs an FFmpeg child process.
#[derive(Debug, Clone, Copy, PartialEq, Eq, Hash, Structural)]
pub enum FfmpegRequirementReason {
    SvtAv1,
    FfmpegBackendEncoder,
    Poster,
    AudioSidecarExtract,
    /// Copying a shareable clip always routes through FFmpeg.
    ShareableClipboardExport,
}

/// How the shell classifies an FFmpeg binary for the UI and for installs.
///
/// `ManagedVerified` is reserved for a tree that passed the manifest verifier. A
/// binary found on the path, by an override or in the bundle is
/// `ExternalUnmanaged`, never a silent no-op for install or repair.
#[derive(Debug, Clone, Copy, PartialEq, Eq, Structural)]
pub enum FfmpegDiscoveryKind {
    ManagedVerified,
    ExternalUnmanaged,
    Missing,
}

// ---------------------------------------------------------------------------
// Capability matrix
// ---------------------------------------------------------------------------

/// A platform encoder with at least one codec.
pub open spec fn records_without_ffmpeg(cap: EncoderCapability) -> bool {
    cap.api == EncoderApi::Mft && cap.codecs@.len() > 0
}

/// An FFmpeg-driven encoder other than SVT-AV1, with at least one codec.
pub open spec fn is_ffmpeg_backend(cap: EncoderCapability) -> bool {
    &&& cap.api == EncoderApi::Ffmpeg
    &&& cap.backend != EncoderBackend::SvtAv1
    &&& cap.codecs@.len() > 0
}

/// SVT-AV1 through FFmpeg, with the AV1 codec.
pub open spec fn is_svt_av1(cap: EncoderCapability) -> bool {
    &&& cap.api == EncoderApi::Ffmpeg
    &&& cap.backend == EncoderBackend::SvtAv1
    &&& cap.codecs@.contains(Codec::Av1)
}

/// Default H.264 recording can proceed when any non-empty platform encoder exists.
pub fn recording_without_ffmpeg_possible(capabilities: &[EncoderCapability]) -> (r: bool)
    ensures
        r == exists|i: int|
            0 <= i < capabilities@.len() && records_without_ffmpeg(#[trigger] capabilities@[i]),
{
    let mut i: usize = 0;
    while i < capabilities.len()
        invariant
            i <= capabilities@.len(),
            forall|k: int| 0 <= k < i ==> !records_without_ffmpeg(#[trigger] capabilities@[k]),
        decreases capabilities@.len() - i,
    {
        let cap = &capabilities[i];
        if cap.api == EncoderApi::Mft && cap.codecs.len() > 0 {
            assert(records_without_ffmpeg(capabilities@[i as int]));
            return true;
        }
        i += 1;
    }
    false
}

/// The surfaces that need FFmpeg whatever the encoders are.
pub open spec fn fixed_reasons() -> Seq<FfmpegRequirementReason> {
    seq![
        FfmpegRequirementReason::Poster,
        FfmpegRequirementReason::AudioSidecarExtract,
        FfmpegRequirementReason::ShareableClipboardExport,
    ]
}

/// All reasons for a set of encoders, in the order in which they are reported.
pub open spec fn required_reasons(caps: Seq<EncoderCapability>) -> Seq<FfmpegRequirementReason> {
    let backend = exists|i: int| 0 <= i < caps.len() && is_ffmpeg_backend(#[trigger] caps[i]);
    let svt = exists|i: int| 0 <= i < caps.len() && is_svt_av1(#[trigger] caps[i]);
    let with_backend = if backend {
        fixed_reasons().push(FfmpegRequirementReason::FfmpegBackendEncoder)
    } else {
        fixed_reasons()
    };
    if svt {
        with_backend.push(FfmpegRequirementReason::SvtAv1)
    } else {
        with_backend
    }
}

/// The surfaces that need FFmpeg for the given encoders. Posters, audio sidecars
/// and shareable clipboard exports are always among them.
pub fn ffmpeg_required_for(capabilities: &[EncoderCapability]) -> (reasons: Vec<
    FfmpegRequirementReason,
>)
    ensures
        reasons@ == required_reasons(capabilities@),
{
    let mut backend = false;
    let mut svt = false;
    let mut i: usize = 0;
    while i < capabilities.len()
        invariant
            i <= capabilities@.len(),
            backend == exists|k: int|
                0 <= k < i && is_ffmpeg_backend(#[trigger] capabilities@[k]),
            svt == exists|k: int| 0 <= k < i && is_svt_av1(#[trigger] capabilities@[k]),
        decreases capabilities@.len() - i,
    {
        let cap = &capabilities[i];
        let ghost now = capabilities@[i as int];
        if cap.api == EncoderApi::Ffmpeg {
            if cap.backend != EncoderBackend::SvtAv1 {
                if cap.codecs.len() > 0 {
                    assert(is_ffmpeg_backend(now));
                    backend = true;
                }
            } else if contains_codec(&cap.codecs, Codec::Av1) {
                assert(is_svt_av1(now));
                svt = true;
            }
        }
        i += 1;
    }
    let mut reasons: Vec<FfmpegRequirementReason> = Vec::new();
    reasons.push(FfmpegRequirementReason::Poster);
    reasons.push(FfmpegRequirementReason::AudioSidecarExtract);
    reasons.push(FfmpegRequirementReason::ShareableClipboardExport);
    assert(reasons@ =~= fixed_reasons());
    if backend {
        reasons.push(FfmpegRequirementReason::FfmpegBackendEncoder);
    }
    if svt {
        reasons.push(FfmpegRequirementReason::SvtAv1);
    }
    reasons
}

/// Install and repair are no-ops only for a managed, verified runtime.
pub fn ensure_ffmpeg_runtime_is_noop(kind: FfmpegDiscoveryKind) -> (r: bool)
    ensures
        r == (kind == FfmpegDiscoveryKind::ManagedVerified),
{
    matches!(kind, FfmpegDiscoveryKind::ManagedVerified)
}

/// What the UI and the installer make of a verified managed tree and of a located binary.
pub open spec fn discovery_kind(managed_verified: bool, locate_found: bool) -> FfmpegDiscoveryKind {
    if managed_verified {
        FfmpegDiscoveryKind::ManagedVerified
    } else if locate_found {
        FfmpegDiscoveryKind::ExternalUnmanaged
    } else {
        FfmpegDiscoveryKind::Missing
    }
}

/// Classifies discovery for the UI and for installs.
pub fn classify_ffmpeg_discovery(managed_verified: bool, locate_found: bool) -> (kind:
    FfmpegDiscoveryKind)
    ensures
        kind == discovery_kind(managed_verified, locate_found),
{
    if managed_verified {
        FfmpegDiscoveryKind::ManagedVerified
    } else if locate_found {
        FfmpegDiscoveryKind::ExternalUnmanaged
    } else {
        FfmpegDiscoveryKind::Missing
    }
}

// ---------------------------------------------------------------------------
// Manifest and provenance
// ---------------------------------------------------------------------------

/// One allowlisted file of the runtime manifest.
#[derive(Debug, Clone, PartialEq, Eq)]
pub struct FfmpegAllowedFile {
    pub archive_path: String,
    pub staged_name: String,
    pub size: u64,
    pub sha256: String,
}

/// The manifest of the managed FFmpeg tree.
#[derive(Debug, Clone, PartialEq, Eq)]
pub struct FfmpegRuntimeManifest {
    pub schema_version: u32,
    pub provider: String,
    pub release_tag: String,
    pub published_at: String,
    pub archive_name: String,
    pub archive_url: String,
    pub archive_sha256: String,
    pub archive_size: u64,
    pub archive_root: String,
    pub version_line: String,
    pub source_offer_url: String,
    pub ffmpeg_source_url: String,
    pub allowed_files: Vec<FfmpegAllowedFile>,
}

/// A file entry of the provenance record beside the managed runtime.
#[derive(Debug, Clone, PartialEq, Eq)]
pub struct ProvenanceFile {
    pub name: String,
    pub size: u64,
    pub sha256: String,
}

/// `PROVENANCE.json`: the identity of a published managed runtime.
#[derive(Debug, Clone, PartialEq, Eq)]
pub struct FfmpegProvenance {
    pub schema_version: u32,
    pub provider: String,
    pub release_tag: String,
    pub published_at: String,
    pub archive_name: String,
    pub archive_url: String,
    pub archive_sha256: String,
    pub manifest_sha256: String,
    pub ffmpeg_version: String,
    pub source_offer_url: String,
    pub ffmpeg_source_url: String,
    pub files: Vec<ProvenanceFile>,
}

/// Result of a successful managed-runtime verification.
#[derive(Debug, Clone, PartialEq, Eq)]
pub struct ManagedRuntimeInfo {
    pub dir: String,
    pub ffmpeg_exe: String,
    pub release_tag: String,
    pub archive_sha256: String,
    pub manifest_sha256: String,
}

/// Why a managed tree failed verification.
#[allow(inconsistent_fields)]
#[derive(Debug, Clone, PartialEq, Eq)]
pub enum ManagedRuntimeVerifyError {
    NotDirectory { path: String },
    MissingFile { name: String },
    UnexpectedFile { name: String },
    SizeMismatch { name: String, expected: u64, actual: u64 },
    HashMismatch { name: String, expected: String, actual: String },
    MissingProvenance,
    InvalidProvenance { message: String },
    ProvenanceMismatch { field: String, expected: String, actual: String },
    InvalidManifest { message: String },
    Io { message: String },
}

/// A verification error with its texts as character sequences.
#[allow(inconsistent_fields)]
pub ghost enum VerifyFailure {
    NotDirectory { path: Seq<char> },
    MissingFile { name: Seq<char> },
    UnexpectedFile { name: Seq<char> },
    SizeMismatch { name: Seq<char>, expected: u64, actual: u64 },
    HashMismatch { name: Seq<char>, expected: Seq<char>, actual: Seq<char> },
    MissingProvenance,
    InvalidProvenance { message: Seq<char> },
    ProvenanceMismatch { field: Seq<char>, expected: Seq<char>, actual: Seq<char> },
    InvalidManifest { message: Seq<char> },
    Io { message: Seq<char> },
}

impl View for ManagedRuntimeVerifyError {
    type V = VerifyFailure;

    open spec fn view(&self) -> VerifyFailure {
        match self {
            ManagedRuntimeVerifyError::NotDirectory { path } => VerifyFailure::NotDirectory {
                path: path@,
            },
            ManagedRuntimeVerifyError::MissingFile { name } => VerifyFailure::MissingFile {
                name: name@,
            },
            ManagedRuntimeVerifyError::UnexpectedFile { name } => VerifyFailure::UnexpectedFile {
                name: name@,
            },
            ManagedRuntimeVerifyError::SizeMismatch { name, expected, actual } =>
                VerifyFailure::SizeMismatch { name: name@, expected: *expected, actual: *actual },
            ManagedRuntimeVerifyError::HashMismatch { name, expected, actual } =>
                VerifyFailure::HashMismatch {
                name: name@,
                expected: expected@,
                actual: actual@,
            },
            ManagedRuntimeVerifyError::MissingProvenance => VerifyFailure::MissingProvenance,
            ManagedRuntimeVerifyError::InvalidProvenance { message } =>
                VerifyFailure::InvalidProvenance { message: message@ },
            ManagedRuntimeVerifyError::ProvenanceMismatch { field, expected, actual } =>
                VerifyFailure::ProvenanceMismatch {
                field: field@,
                expected: expected@,
                actual: actual@,
            },
            ManagedRuntimeVerifyError::InvalidManifest { message } =>
                VerifyFailure::InvalidManifest { message: message@ },
            ManagedRuntimeVerifyError::Io { message } => VerifyFailure::Io { message: message@ },
        }
    }
}

/// The text shown for a verification failure.
pub open spec fn failure_text(failure: VerifyFailure) -> Seq<char> {
    match failure {
        VerifyFailure::NotDirectory { path } => "managed FFmpeg path is not a directory: "@ + path,
        VerifyFailure::MissingFile { name } => "managed FFmpeg missing required file: "@ + name,
        VerifyFailure::UnexpectedFile { name } => "managed FFmpeg contains unexpected file: "@
            + name,
        VerifyFailure::SizeMismatch { name, expected, actual } => "managed FFmpeg "@ + name
            + " size mismatch: expected "@ + decimal(expected as nat) + ", got "@ + decimal(
            actual as nat,
        ),
        VerifyFailure::HashMismatch { name, expected, actual } => "managed FFmpeg "@ + name
            + " SHA-256 mismatch: expected "@ + expected + ", got "@ + actual,
        VerifyFailure::MissingProvenance => "managed FFmpeg missing PROVENANCE.json"@,
        VerifyFailure::InvalidProvenance { message } => "managed FFmpeg PROVENANCE.json invalid: "@
            + message,
        VerifyFailure::ProvenanceMismatch { field, expected, actual } =>
            "managed FFmpeg provenance "@ + field + " mismatch: expected "@ + expected + ", got "@
            + actual,
        VerifyFailure::InvalidManifest { message } => "FFmpeg runtime manifest invalid: "@
            + message,
        VerifyFailure::Io { message } => "managed FFmpeg IO error: "@ + message,
    }
}

/// `head`, `name`, `middle`, `expected`, `", got "` and `actual` in order.
fn mismatch_text(head: &str, name: &str, middle: &str, expected: &str, actual: &str) -> (out:
    String)
    ensures
        out@ == head@ + name@ + middle@ + expected@ + ", got "@ + actual@,
{
    let mut out = concat3(head, name, middle);
    out.append(expected);
    out.append(", got ");
    out.append(actual);
    out
}

impl ManagedRuntimeVerifyError {
    /// The text shown for this error.
    pub fn message(&self) -> (out: String)
        ensures
            out@ == failure_text(self@),
    {
        match self {
            ManagedRuntimeVerifyError::NotDirectory { path } => concat2(
                "managed FFmpeg path is not a directory: ",
                path.as_str(),
            ),
            ManagedRuntimeVerifyError::MissingFile { name } => concat2(
                "managed FFmpeg missing required file: ",
                name.as_str(),
            ),
            ManagedRuntimeVerifyError::UnexpectedFile { name } => concat2(
                "managed FFmpeg contains unexpected file: ",
                name.as_str(),
            ),
            ManagedRuntimeVerifyError::SizeMismatch { name, expected, actual } => {
                let want = decimal_string(*expected);
                let got = decimal_string(*actual);
                mismatch_text(
                    "managed FFmpeg ",
                    name.as_str(),
                    " size mismatch: expected ",
                    want.as_str(),
                    got.as_str(),
                )
            },
            ManagedRuntimeVerifyError::HashMismatch { name, expected, actual } => mismatch_text(
                "managed FFmpeg ",
                name.as_str(),
                " SHA-256 mismatch: expected ",
                expected.as_str(),
                actual.as_str(),
            ),
            ManagedRuntimeVerifyError::MissingProvenance =>
                "managed FFmpeg missing PROVENANCE.json".to_owned(),
            ManagedRuntimeVerifyError::InvalidProvenance { message } => concat2(
                "managed FFmpeg PROVENANCE.json invalid: ",
                message.as_str(),
            ),
            ManagedRuntimeVerifyError::ProvenanceMismatch { field, expected, actual } =>
                mismatch_text(
                "managed FFmpeg provenance ",
                field.as_str(),
                " mismatch: expected ",
                expected.as_str(),
                actual.as_str(),
            ),
            ManagedRuntimeVerifyError::InvalidManifest { message } => concat2(
                "FFmpeg runtime manifest invalid: ",
                message.as_str(),
            ),
            ManagedRuntimeVerifyError::Io { message } => concat2(
                "managed FFmpeg IO error: ",
                message.as_str(),
            ),
        }
    }
}

// ---------------------------------------------------------------------------
// Manifest checks
// ---------------------------------------------------------------------------

/// The text for a record whose schema version is not supported.
pub open spec fn schema_text(version: u32) -> Seq<char> {
    "schema_version must be 1, got "@ + decimal(version as nat)
}

/// The first rule that a parsed manifest breaks, by the text that reports it.
pub open spec fn manifest_problem(manifest: FfmpegRuntimeManifest) -> Option<Seq<char>> {
    if manifest.schema_version != 1 {
        Some(schema_text(manifest.schema_version))
    } else if manifest.allowed_files@.len() == 0 {
        Some("allowed_files must not be empty"@)
    } else if manifest.archive_size == 0 {
        Some("archive_size must be > 0"@)
    } else if is_blank(manifest.archive_root@) {
        Some("archive_root must not be empty"@)
    } else {
        None
    }
}

/// Accepts a manifest that its JSON parser accepted, where it keeps the rules of
/// the format; `parsed` holds the parser's message otherwise.
pub fn parse_ffmpeg_runtime_manifest(parsed: Result<FfmpegRuntimeManifest, String>) -> (res: Result<
    FfmpegRuntimeManifest,
    ManagedRuntimeVerifyError,
>)
    ensures
        match parsed {
            Err(message) => res matches Err(error) && error@ == (VerifyFailure::InvalidManifest {
                message: message@,
            }),
            Ok(manifest) => match manifest_problem(manifest) {
                Some(problem) => res matches Err(error) && error@ == (
                VerifyFailure::InvalidManifest { message: problem }),
                None => res == Ok::<FfmpegRuntimeManifest, ManagedRuntimeVerifyError>(manifest),
            },
        },
{
    let manifest = match parsed {
        Ok(manifest) => manifest,
        Err(message) => return Err(ManagedRuntimeVerifyError::InvalidManifest { message }),
    };
    if manifest.schema_version != 1 {
        let version = decimal_string(manifest.schema_version as u64);
        return Err(
            ManagedRuntimeVerifyError::InvalidManifest {
                message: concat2("schema_version must be 1, got ", version.as_str()),
            },
        );
    }
    if manifest.allowed_files.is_empty() {
        return Err(
            ManagedRuntimeVerifyError::InvalidManifest {
                message: "allowed_files must not be empty".to_owned(),
            },
        );
    }
    if manifest.archive_size == 0 {
        return Err(
            ManagedRuntimeVerifyError::InvalidManifest {
                message: "archive_size must be > 0".to_owned(),
            },
        );
    }
    if blank(manifest.archive_root.as_str()) {
        return Err(
            ManagedRuntimeVerifyError::InvalidManifest {
                message: "archive_root must not be empty".to_owned(),
            },
        );
    }
    Ok(manifest)
}

/// A manifest read from disk with the digest of its bytes; `parsed` is what the
/// JSON parser made of them.
pub fn load_ffmpeg_runtime_manifest(
    bytes: &[u8],
    parsed: Result<FfmpegRuntimeManifest, String>,
) -> (res: Result<(FfmpegRuntimeManifest, String), ManagedRuntimeVerifyError>)
    ensures
        match parsed {
            Err(message) => res matches Err(error) && error@ == (VerifyFailure::InvalidManifest {
                message: message@,
            }),
            Ok(manifest) => match manifest_problem(manifest) {
                Some(problem) => res matches Err(error) && error@ == (
                VerifyFailure::InvalidManifest { message: problem }),
                None => res matches Ok((loaded, digest)) && loaded == manifest && digest@
                    == sha256_hex(bytes@),
            },
        },
{
    match parse_ffmpeg_runtime_manifest(parsed) {
        Ok(manifest) => Ok((manifest, hex_sha256(bytes))),
        Err(error) => Err(error),
    }
}

/// The sizes of the first `n` allowlisted files, added up.
pub open spec fn total_size(files: Seq<FfmpegAllowedFile>) -> nat
    decreases files.len(),
{
    if files.len() == 0 {
        0
    } else {
        total_size(files.drop_last()) + files.last().size as nat
    }
}

proof fn lemma_total_size_prefix(files: Seq<FfmpegAllowedFile>, n: int)
    requires
        0 <= n <= files.len(),
    ensures
        total_size(files.take(n)) <= total_size(files),
    decreases files.len() - n,
{
    if n < files.len() {
        lemma_total_size_prefix(files, n + 1);
        assert(files.take(n + 1).drop_last() =~= files.take(n));
    } else {
        assert(files.take(n) =~= files);
    }
}

/// The total of two lists one after the other is the sum of their totals.
pub proof fn law_totals_add_up(first: Seq<FfmpegAllowedFile>, second: Seq<FfmpegAllowedFile>)
    ensures
        total_size(first + second) == total_size(first) + total_size(second),
    decreases second.len(),
{
    if second.len() == 0 {
        assert(first + second =~= first);
    } else {
        law_totals_add_up(first, second.drop_last());
        assert((first + second).drop_last() =~= first + second.drop_last());
    }
}

/// Whether the allowlisted sizes add up to a number of 64 bits.
pub fn allowlist_total_fits(manifest: &FfmpegRuntimeManifest) -> (r: bool)
    ensures
        r == (total_size(manifest.allowed_files@) <= u64::MAX),
{
    let mut total: u64 = 0;
    let mut i: usize = 0;
    while i < manifest.allowed_files.len()
        invariant
            i <= manifest.allowed_files@.len(),
            total == total_size(manifest.allowed_files@.take(i as int)),
        decreases manifest.allowed_files@.len() - i,
    {
        proof {
            let files = manifest.allowed_files@;
            assert(files.take(i + 1).drop_last() =~= files.take(i as int));
            lemma_total_size_prefix(files, i + 1);
        }
        match total.checked_add(manifest.allowed_files[i].size) {
            Some(sum) => total = sum,
            None => return false,
        }
        i += 1;
    }
    assert(manifest.allowed_files@.take(i as int) =~= manifest.allowed_files@);
    true
}

/// Total bytes of the allowlisted staged files.
pub fn allowlist_total_bytes(manifest: &FfmpegRuntimeManifest) -> (total: u64)
    requires
        total_size(manifest.allowed_files@) <= u64::MAX,
    ensures
        total == total_size(manifest.allowed_files@),
{
    let mut total: u64 = 0;
    let mut i: usize = 0;
    while i < manifest.allowed_files.len()
        invariant
            i <= manifest.allowed_files@.len(),
            total_size(manifest.allowed_files@) <= u64::MAX,
            total == total_size(manifest.allowed_files@.take(i as int)),
        decreases manifest.allowed_files@.len() - i,
    {
        proof {
            let files = manifest.allowed_files@;
            assert(files.take(i + 1).drop_last() =~= files.take(i as int));
            lemma_total_size_prefix(files, i + 1);
        }
        total = total + manifest.allowed_files[i].size;
        i += 1;
    }
    assert(manifest.allowed_files@.take(i as int) =~= manifest.allowed_files@);
    total
}

/// The archive, the staged tree and a margin, at most the largest number of 64 bits.
pub open spec fn space_needed(manifest: FfmpegRuntimeManifest, margin_bytes: u64) -> nat {
    let sum = manifest.archive_size as nat + total_size(manifest.allowed_files@)
        + margin_bytes as nat;
    if sum > u64::MAX {
        u64::MAX as nat
    } else {
        sum
    }
}

/// Bytes that must be free before download and extraction.
pub fn free_space_required_bytes(manifest: &FfmpegRuntimeManifest, margin_bytes: u64) -> (needed:
    u64)
    requires
        total_size(manifest.allowed_files@) <= u64::MAX,
    ensures
        needed == space_needed(*manifest, margin_bytes),
{
    manifest.archive_size.saturating_add(allowlist_total_bytes(manifest)).saturating_add(
        margin_bytes,
    )
}

// ---------------------------------------------------------------------------
// Verification
// ---------------------------------------------------------------------------

/// A regular file of a managed tree: its size on disk and what reading it gave.
#[derive(Debug, PartialEq, Eq)]
pub struct TreeFile {
    pub name: String,
    pub size: u64,
    pub content: Result<Vec<u8>, String>,
}

/// What reading and parsing `PROVENANCE.json` gave.
#[derive(Debug, PartialEq, Eq)]
pub enum ProvenanceRead {
    Unreadable { message: String },
    Invalid { message: String },
    Parsed(FfmpegProvenance),
}

/// What the file system reports of a managed tree.
#[derive(Debug, PartialEq, Eq)]
pub struct ManagedTree {
    pub path: String,
    pub is_dir: bool,
    /// Names of the directory entries, in listing order.
    pub entries: Vec<String>,
    /// The error that ended the listing, if one did.
    pub list_error: Option<String>,
    /// The regular files among the allowlisted names, `PROVENANCE.json` and `ffmpeg.exe`.
    pub files: Vec<TreeFile>,
    pub provenance: ProvenanceRead,
}

/// The regular file of that name, where there is one.
pub open spec fn file_named(files: Seq<TreeFile>, name: Seq<char>) -> Option<TreeFile>
    decreases files.len(),
{
    if files.len() == 0 {
        None
    } else if files[0].name@ == name {
        Some(files[0])
    } else {
        file_named(files.skip(1), name)
    }
}

fn find_file<'a>(files: &'a Vec<TreeFile>, name: &str) -> (found: Option<&'a TreeFile>)
    ensures
        match found {
            Some(file) => file_named(files@, name@) == Some(*file),
            None => file_named(files@, name@) is None,
        },
{
    let mut i: usize = 0;
    assert(files@.skip(0) =~= files@);
    while i < files.len()
        invariant
            i <= files@.len(),
            file_named(files@.skip(i as int), name@) == file_named(files@, name@),
        decreases files@.len() - i,
    {
        if str_eq(files[i].name.as_str(), name) {
            return Some(&files[i]);
        }
        assert(files@.skip(i as int).skip(1) =~= files@.skip(i + 1));
        i += 1;
    }
    None
}

/// Whether an entry of that name may stand in a managed tree.
pub open spec fn entry_allowed(name: Seq<char>, allowed: Seq<FfmpegAllowedFile>) -> bool {
    ||| same_ignoring_case(name, "README.md"@)
    ||| name == "PROVENANCE.json"@
    ||| exists|k: int| 0 <= k < allowed.len() && #[trigger] allowed[k].staged_name@ == name
}

fn check_entry(name: &str, allowed: &Vec<FfmpegAllowedFile>) -> (r: bool)
    ensures
        r == entry_allowed(name@, allowed@),
{
    if eq_ignore_ascii_case(name, "README.md") || str_eq(name, "PROVENANCE.json") {
        return true;
    }
    let mut k: usize = 0;
    while k < allowed.len()
        invariant
            k <= allowed@.len(),
            forall|j: int| 0 <= j < k ==> #[trigger] allowed@[j].staged_name@ != name@,
        decreases allowed@.len() - k,
    {
        if str_eq(allowed[k].staged_name.as_str(), name) {
            assert(allowed@[k as int].staged_name@ == name@);
            return true;
        }
        k += 1;
    }
    false
}

/// The first entry that may not stand in the tree.
pub open spec fn entries_failure(
    entries: Seq<String>,
    allowed: Seq<FfmpegAllowedFile>,
) -> Option<VerifyFailure>
    decreases entries.len(),
{
    if entries.len() == 0 {
        None
    } else if !entry_allowed(entries[0]@, allowed) {
        Some(VerifyFailure::UnexpectedFile { name: entries[0]@ })
    } else {
        entries_failure(entries.skip(1), allowed)
    }
}

/// What is wrong with the staged copy of one allowlisted file.
pub open spec fn file_failure(file: FfmpegAllowedFile, found: Option<TreeFile>) -> Option<
    VerifyFailure,
> {
    let name = file.staged_name@;
    match found {
        None => Some(VerifyFailure::MissingFile { name }),
        Some(on_disk) => if on_disk.size != file.size {
            Some(
                VerifyFailure::SizeMismatch { name, expected: file.size, actual: on_disk.size },
            )
        } else {
            match on_disk.content {
                Err(message) => Some(VerifyFailure::Io { message: message@ }),
                Ok(bytes) => if sha256_hex(bytes@) != ascii_lower(file.sha256@) {
                    Some(
                        VerifyFailure::HashMismatch {
                            name,
                            expected: ascii_lower(file.sha256@),
                            actual: sha256_hex(bytes@),
                        },
                    )
                } else {
                    None
                },
            }
        },
    }
}

/// What is wrong with the first allowlisted file that fails.
pub open spec fn files_failure(
    allowed: Seq<FfmpegAllowedFile>,
    files: Seq<TreeFile>,
) -> Option<VerifyFailure>
    decreases allowed.len(),
{
    if allowed.len() == 0 {
        None
    } else {
        let first = file_failure(allowed[0], file_named(files, allowed[0].staged_name@));
        if first is Some {
            first
        } else {
            files_failure(allowed.skip(1), files)
        }
    }
}

/// A provenance field that must repeat what the manifest says.
pub open spec fn field_failure(
    field: Seq<char>,
    expected: Seq<char>,
    actual: Seq<char>,
) -> Option<VerifyFailure> {
    if expected == actual {
        None
    } else {
        Some(VerifyFailure::ProvenanceMismatch { field, expected, actual })
    }
}

/// The earlier of two failures.
pub open spec fn first_of(a: Option<VerifyFailure>, b: Option<VerifyFailure>) -> Option<
    VerifyFailure,
> {
    if a is Some {
        a
    } else {
        b
    }
}

/// The provenance fields that identify the release, in the order in which they are compared.
pub open spec fn identity_failure(
    manifest: FfmpegRuntimeManifest,
    manifest_sha256: Seq<char>,
    provenance: FfmpegProvenance,
) -> Option<VerifyFailure> {
    first_of(
        field_failure("provider"@, manifest.provider@, provenance.provider@),
        first_of(
            field_failure("release_tag"@, manifest.release_tag@, provenance.release_tag@),
            first_of(
                field_failure("published_at"@, manifest.published_at@, provenance.published_at@),
                first_of(
                    field_failure(
                        "archive_name"@,
                        manifest.archive_name@,
                        provenance.archive_name@,
                    ),
                    first_of(
                        field_failure(
                            "archive_url"@,
                            manifest.archive_url@,
                            provenance.archive_url@,
                        ),
                        digest_failure(manifest, manifest_sha256, provenance),
                    ),
                ),
            ),
        ),
    )
}

/// The provenance fields after the archive's address.
pub open spec fn digest_failure(
    manifest: FfmpegRuntimeManifest,
    manifest_sha256: Seq<char>,
    provenance: FfmpegProvenance,
) -> Option<VerifyFailure> {
    first_of(
        field_failure(
            "archive_sha256"@,
            ascii_lower(manifest.archive_sha256@),
            ascii_lower(provenance.archive_sha256@),
        ),
        first_of(
            field_failure(
                "source_offer_url"@,
                manifest.source_offer_url@,
                provenance.source_offer_url@,
            ),
            first_of(
                field_failure(
                    "ffmpeg_source_url"@,
                    manifest.ffmpeg_source_url@,
                    provenance.ffmpeg_source_url@,
                ),
                first_of(
                    field_failure(
                        "manifest_sha256"@,
                        ascii_lower(manifest_sha256),
                        ascii_lower(provenance.manifest_sha256@),
                    ),
                    field_failure(
                        "ffmpeg_version"@,
                        manifest.version_line@,
                        provenance.ffmpeg_version@,
                    ),
                ),
            ),
        ),
    )
}

/// The name under which a provenance entry is reported.
pub open spec fn entry_label(index: nat, rest: Seq<char>) -> Seq<char> {
    "files["@ + decimal(index) + rest
}

/// What is wrong with one provenance entry.
pub open spec fn provenance_entry_failure(
    index: nat,
    expected: FfmpegAllowedFile,
    actual: ProvenanceFile,
) -> Option<VerifyFailure> {
    first_of(
        field_failure(entry_label(index, "].name"@), expected.staged_name@, actual.name@),
        if actual.size != expected.size {
            Some(
                VerifyFailure::SizeMismatch {
                    name: "provenance "@ + entry_label(index, "]"@),
                    expected: expected.size,
                    actual: actual.size,
                },
            )
        } else {
            field_failure(
                entry_label(index, "].sha256"@),
                ascii_lower(expected.sha256@),
                ascii_lower(actual.sha256@),
            )
        },
    )
}

/// What is wrong with the first provenance entry, from `index` on, that fails.
pub open spec fn provenance_entries_failure(
    allowed: Seq<FfmpegAllowedFile>,
    listed: Seq<ProvenanceFile>,
    index: nat,
) -> Option<VerifyFailure>
    decreases allowed.len() - index,
{
    if index >= allowed.len() {
        None
    } else {
        first_of(
            provenance_entry_failure(index, allowed[index as int], listed[index as int]),
            provenance_entries_failure(allowed, listed, index + 1),
        )
    }
}

/// What is wrong with a parsed provenance record.
pub open spec fn provenance_failure(
    manifest: FfmpegRuntimeManifest,
    manifest_sha256: Seq<char>,
    provenance: FfmpegProvenance,
) -> Option<VerifyFailure> {
    if provenance.schema_version != 1 {
        Some(
            VerifyFailure::InvalidProvenance { message: schema_text(provenance.schema_version) },
        )
    } else {
        first_of(
            identity_failure(manifest, manifest_sha256, provenance),
            if provenance.files@.len() != manifest.allowed_files@.len() {
                Some(
                    VerifyFailure::InvalidProvenance {
                        message: "files count mismatch: expected "@ + decimal(
                            manifest.allowed_files@.len(),
                        ) + ", got "@ + decimal(provenance.files@.len()),
                    },
                )
            } else {
                provenance_entries_failure(manifest.allowed_files@, provenance.files@, 0)
            },
        )
    }
}

/// What verification of a tree reports: `None` where nothing is wrong.
pub open spec fn tree_failure(
    tree: ManagedTree,
    manifest: FfmpegRuntimeManifest,
    manifest_sha256: Seq<char>,
) -> Option<VerifyFailure> {
    if !tree.is_dir {
        Some(VerifyFailure::NotDirectory { path: tree.path@ })
    } else if entries_failure(tree.entries@, manifest.allowed_files@) is Some {
        entries_failure(tree.entries@, manifest.allowed_files@)
    } else if tree.list_error is Some {
        Some(VerifyFailure::Io { message: tree.list_error->0@ })
    } else if files_failure(manifest.allowed_files@, tree.files@) is Some {
        files_failure(manifest.allowed_files@, tree.files@)
    } else if file_named(tree.files@, "PROVENANCE.json"@) is None {
        Some(VerifyFailure::MissingProvenance)
    } else {
        match tree.provenance {
            ProvenanceRead::Unreadable { message } => Some(
                VerifyFailure::Io { message: message@ },
            ),
            ProvenanceRead::Invalid { message } => Some(
                VerifyFailure::InvalidProvenance { message: message@ },
            ),
            ProvenanceRead::Parsed(provenance) => first_of(
                provenance_failure(manifest, manifest_sha256, provenance),
                if file_named(tree.files@, "ffmpeg.exe"@) is None {
                    Some(VerifyFailure::MissingFile { name: "ffmpeg.exe"@ })
                } else {
                    None
                },
            ),
        }
    }
}

/// The view of an optional error.
pub open spec fn failure_of(error: Option<ManagedRuntimeVerifyError>) -> Option<VerifyFailure> {
    match error {
        Some(error) => Some(error@),
        None => None,
    }
}

fn check_entries(entries: &Vec<String>, allowed: &Vec<FfmpegAllowedFile>) -> (error: Option<
    ManagedRuntimeVerifyError,
>)
    ensures
        failure_of(error) == entries_failure(entries@, allowed@),
{
    let mut i: usize = 0;
    assert(entries@.skip(0) =~= entries@);
    while i < entries.len()
        invariant
            i <= entries@.len(),
            entries_failure(entries@.skip(i as int), allowed@) == entries_failure(
                entries@,
                allowed@,
            ),
        decreases entries@.len() - i,
    {
        if !check_entry(entries[i].as_str(), allowed) {
            return Some(ManagedRuntimeVerifyError::UnexpectedFile { name: entries[i].clone() });
        }
        assert(entries@.skip(i as int).skip(1) =~= entries@.skip(i + 1));
        i += 1;
    }
    None
}

fn verify_regular_file(file: &FfmpegAllowedFile, found: Option<&TreeFile>) -> (error: Option<
    ManagedRuntimeVerifyError,
>)
    ensures
        failure_of(error) == file_failure(
            *file,
            match found {
                Some(on_disk) => Some(*on_disk),
                None => None,
            },
        ),
{
    let on_disk = match found {
        Some(on_disk) => on_disk,
        None => return Some(
            ManagedRuntimeVerifyError::MissingFile { name: file.staged_name.clone() },
        ),
    };
    if on_disk.size != file.size {
        return Some(
            ManagedRuntimeVerifyError::SizeMismatch {
                name: file.staged_name.clone(),
                expected: file.size,
                actual: on_disk.size,
            },
        );
    }
    match &on_disk.content {
        Err(message) => Some(ManagedRuntimeVerifyError::Io { message: message.clone() }),
        Ok(bytes) => {
            let actual = hex_sha256(bytes.as_slice());
            let expected = to_ascii_lowercase(file.sha256.as_str());
            if actual != expected {
                return Some(
                    ManagedRuntimeVerifyError::HashMismatch {
                        name: file.staged_name.clone(),
                        expected,
                        actual,
                    },
                );
            }
            None
        },
    }
}

fn check_files(allowed: &Vec<FfmpegAllowedFile>, files: &Vec<TreeFile>) -> (error: Option<
    ManagedRuntimeVerifyError,
>)
    ensures
        failure_of(error) == files_failure(allowed@, files@),
{
    let mut i: usize = 0;
    assert(allowed@.skip(0) =~= allowed@);
    while i < allowed.len()
        invariant
            i <= allowed@.len(),
            files_failure(allowed@.skip(i as int), files@) == files_failure(allowed@, files@),
        decreases allowed@.len() - i,
    {
        let found = find_file(files, allowed[i].staged_name.as_str());
        let error = verify_regular_file(&allowed[i], found);
        if error.is_some() {
            return error;
        }
        assert(allowed@.skip(i as int).skip(1) =~= allowed@.skip(i + 1));
        i += 1;
    }
    None
}

fn assert_exact(field: &str, expected: &str, actual: &str) -> (error: Option<
    ManagedRuntimeVerifyError,
>)
    ensures
        failure_of(error) == field_failure(field@, expected@, actual@),
{
    if str_eq(expected, actual) {
        None
    } else {
        Some(
            ManagedRuntimeVerifyError::ProvenanceMismatch {
                field: field.to_owned(),
                expected: expected.to_owned(),
                actual: actual.to_owned(),
            },
        )
    }
}

fn assert_exact_lower(field: &str, expected: &str, actual: &str) -> (error: Option<
    ManagedRuntimeVerifyError,
>)
    ensures
        failure_of(error) == field_failure(field@, ascii_lower(expected@), ascii_lower(actual@)),
{
    let want = to_ascii_lowercase(expected);
    let got = to_ascii_lowercase(actual);
    assert_exact(field, want.as_str(), got.as_str())
}

fn check_digests(
    manifest: &FfmpegRuntimeManifest,
    manifest_sha256: &str,
    provenance: &FfmpegProvenance,
) -> (error: Option<ManagedRuntimeVerifyError>)
    ensures
        failure_of(error) == digest_failure(*manifest, manifest_sha256@, *provenance),
{
    let error = assert_exact_lower(
        "archive_sha256",
        manifest.archive_sha256.as_str(),
        provenance.archive_sha256.as_str(),
    );
    if error.is_some() {
        return error;
    }
    let error = assert_exact(
        "source_offer_url",
        manifest.source_offer_url.as_str(),
        provenance.source_offer_url.as_str(),
    );
    if error.is_some() {
        return error;
    }
    let error = assert_exact(
        "ffmpeg_source_url",
        manifest.ffmpeg_source_url.as_str(),
        provenance.ffmpeg_source_url.as_str(),
    );
    if error.is_some() {
        return error;
    }
    let error = assert_exact_lower(
        "manifest_sha256",
        manifest_sha256,
        provenance.manifest_sha256.as_str(),
    );
    if error.is_some() {
        return error;
    }
    assert_exact(
        "ffmpeg_version",
        manifest.version_line.as_str(),
        provenance.ffmpeg_version.as_str(),
    )
}

fn check_identity(
    manifest: &FfmpegRuntimeManifest,
    manifest_sha256: &str,
    provenance: &FfmpegProvenance,
) -> (error: Option<ManagedRuntimeVerifyError>)
    ensures
        failure_of(error) == identity_failure(*manifest, manifest_sha256@, *provenance),
{
    let error = assert_exact(
        "provider",
        manifest.provider.as_str(),
        provenance.provider.as_str(),
    );
    if error.is_some() {
        return error;
    }
    let error = assert_exact(
        "release_tag",
        manifest.release_tag.as_str(),
        provenance.release_tag.as_str(),
    );
    if error.is_some() {
        return error;
    }
    let error = assert_exact(
        "published_at",
        manifest.published_at.as_str(),
        provenance.published_at.as_str(),
    );
    if error.is_some() {
        return error;
    }
    let error = assert_exact(
        "archive_name",
        manifest.archive_name.as_str(),
        provenance.archive_name.as_str(),
    );
    if error.is_some() {
        return error;
    }
    let error = assert_exact(
        "archive_url",
        manifest.archive_url.as_str(),
        provenance.archive_url.as_str(),
    );
    if error.is_some() {
        return error;
    }
    check_digests(manifest, manifest_sha256, provenance)
}

fn label(index: usize, rest: &str) -> (out: String)
    ensures
        out@ == entry_label(index as nat, rest@),
{
    let number = decimal_string(index as u64);
    concat3("files[", number.as_str(), rest)
}

fn check_provenance_entry(index: usize, expected: &FfmpegAllowedFile, actual: &ProvenanceFile) -> (
error: Option<ManagedRuntimeVerifyError>)
    ensures
        failure_of(error) == provenance_entry_failure(index as nat, *expected, *actual),
{
    let field = label(index, "].name");
    let error = assert_exact(field.as_str(), expected.staged_name.as_str(), actual.name.as_str());
    if error.is_some() {
        return error;
    }
    if actual.size != expected.size {
        let entry = label(index, "]");
        return Some(
            ManagedRuntimeVerifyError::SizeMismatch {
                name: concat2("provenance ", entry.as_str()),
                expected: expected.size,
                actual: actual.size,
            },
        );
    }
    let field = label(index, "].sha256");
    assert_exact_lower(field.as_str(), expected.sha256.as_str(), actual.sha256.as_str())
}

fn check_provenance_entries(allowed: &Vec<FfmpegAllowedFile>, listed: &Vec<ProvenanceFile>) -> (
error: Option<ManagedRuntimeVerifyError>)
    requires
        allowed@.len() == listed@.len(),
    ensures
        failure_of(error) == provenance_entries_failure(allowed@, listed@, 0),
{
    let mut i: usize = 0;
    while i < allowed.len()
        invariant
            i <= allowed@.len(),
            allowed@.len() == listed@.len(),
            provenance_entries_failure(allowed@, listed@, i as nat) == provenance_entries_failure(
                allowed@,
                listed@,
                0,
            ),
        decreases allowed@.len() - i,
    {
        let error = check_provenance_entry(i, &allowed[i], &listed[i]);
        if error.is_some() {
            return error;
        }
        i += 1;
    }
    None
}

fn check_provenance(
    manifest: &FfmpegRuntimeManifest,
    manifest_sha256: &str,
    provenance: &FfmpegProvenance,
) -> (error: Option<ManagedRuntimeVerifyError>)
    ensures
        failure_of(error) == provenance_failure(*manifest, manifest_sha256@, *provenance),
{
    if provenance.schema_version != 1 {
        let version = decimal_string(provenance.schema_version as u64);
        return Some(
            ManagedRuntimeVerifyError::InvalidProvenance {
                message: concat2("schema_version must be 1, got ", version.as_str()),
            },
        );
    }
    let error = check_identity(manifest, manifest_sha256, provenance);
    if error.is_some() {
        return error;
    }
    if provenance.files.len() != manifest.allowed_files.len() {
        let want = decimal_string(manifest.allowed_files.len() as u64);
        let got = decimal_string(provenance.files.len() as u64);
        let mut message = concat3("files count mismatch: expected ", want.as_str(), ", got ");
        message.append(got.as_str());
        return Some(ManagedRuntimeVerifyError::InvalidProvenance { message });
    }
    check_provenance_entries(&manifest.allowed_files, &provenance.files)
}

/// What a verified tree is reported as.
pub open spec fn is_info_of(
    info: ManagedRuntimeInfo,
    tree: ManagedTree,
    manifest: FfmpegRuntimeManifest,
    manifest_sha256: Seq<char>,
) -> bool {
    &&& info.dir@ == tree.path@
    &&& !is_verbatim(tree.path@) ==> is_child_path(info.ffmpeg_exe@, tree.path@, "ffmpeg.exe"@)
    &&& has_suffix(info.ffmpeg_exe@, "ffmpeg.exe"@)
    &&& info.release_tag@ == manifest.release_tag@
    &&& info.archive_sha256@ == ascii_lower(manifest.archive_sha256@)
    &&& info.manifest_sha256@ == ascii_lower(manifest_sha256)
}

/// Verifies a managed (or staged) FFmpeg tree against the manifest. Unexpected
/// files other than `README.md` and `PROVENANCE.json` fail; tampered allowlisted
/// bytes always fail.
pub fn verify_managed_ffmpeg_runtime(
    tree: &ManagedTree,
    manifest: &FfmpegRuntimeManifest,
    manifest_sha256: &str,
) -> (res: Result<ManagedRuntimeInfo, ManagedRuntimeVerifyError>)
    ensures
        match tree_failure(*tree, *manifest, manifest_sha256@) {
            Some(failure) => res matches Err(error) && error@ == failure,
            None => res matches Ok(info) && is_info_of(info, *tree, *manifest, manifest_sha256@),
        },
{
    if !tree.is_dir {
        return Err(ManagedRuntimeVerifyError::NotDirectory { path: tree.path.clone() });
    }
    if let Some(error) = check_entries(&tree.entries, &manifest.allowed_files) {
        return Err(error);
    }
    if let Some(message) = &tree.list_error {
        return Err(ManagedRuntimeVerifyError::Io { message: message.clone() });
    }
    if let Some(error) = check_files(&manifest.allowed_files, &tree.files) {
        return Err(error);
    }
    if find_file(&tree.files, "PROVENANCE.json").is_none() {
        return Err(ManagedRuntimeVerifyError::MissingProvenance);
    }
    match &tree.provenance {
        ProvenanceRead::Unreadable { message } => return Err(
            ManagedRuntimeVerifyError::Io { message: message.clone() },
        ),
        ProvenanceRead::Invalid { message } => return Err(
            ManagedRuntimeVerifyError::InvalidProvenance { message: message.clone() },
        ),
        ProvenanceRead::Parsed(provenance) => {
            if let Some(error) = check_provenance(manifest, manifest_sha256, provenance) {
                return Err(error);
            }
        },
    }
    if find_file(&tree.files, "ffmpeg.exe").is_none() {
        return Err(ManagedRuntimeVerifyError::MissingFile { name: "ffmpeg.exe".to_owned() });
    }
    proof {
        reveal_strlit("ffmpeg.exe");
        reveal_strlit(".");
        reveal_strlit("..");
    }
    Ok(
        ManagedRuntimeInfo {
            dir: tree.path.clone(),
            ffmpeg_exe: join_path(tree.path.as_str(), "ffmpeg.exe"),
            release_tag: manifest.release_tag.clone(),
            archive_sha256: to_ascii_lowercase(manifest.archive_sha256.as_str()),
            manifest_sha256: to_ascii_lowercase(manifest_sha256),
        },
    )
}

/// The staged copy of an allowlisted file is there, has its size, and has its digest.
pub open spec fn file_conforms(file: FfmpegAllowedFile, found: Option<TreeFile>) -> bool {
    &&& found matches Some(on_disk)
    &&& on_disk.size == file.size
    &&& on_disk.content matches Ok(bytes)
    &&& sha256_hex(bytes@) == ascii_lower(file.sha256@)
}

/// The provenance record repeats the manifest field by field and file by file.
pub open spec fn provenance_conforms(
    manifest: FfmpegRuntimeManifest,
    manifest_sha256: Seq<char>,
    provenance: FfmpegProvenance,
) -> bool {
    &&& provenance.schema_version == 1
    &&& provenance.provider@ == manifest.provider@
    &&& provenance.release_tag@ == manifest.release_tag@
    &&& provenance.published_at@ == manifest.published_at@
    &&& provenance.archive_name@ == manifest.archive_name@
    &&& provenance.archive_url@ == manifest.archive_url@
    &&& ascii_lower(provenance.archive_sha256@) == ascii_lower(manifest.archive_sha256@)
    &&& provenance.source_offer_url@ == manifest.source_offer_url@
    &&& provenance.ffmpeg_source_url@ == manifest.ffmpeg_source_url@
    &&& ascii_lower(provenance.manifest_sha256@) == ascii_lower(manifest_sha256)
    &&& provenance.ffmpeg_version@ == manifest.version_line@
    &&& provenance.files@.len() == manifest.allowed_files@.len()
    &&& forall|i: int|
        0 <= i < manifest.allowed_files@.len() ==> entry_conforms(
            #[trigger] manifest.allowed_files@[i],
            provenance.files@[i],
        )
}

/// A provenance entry repeats an allowlisted file.
pub open spec fn entry_conforms(expected: FfmpegAllowedFile, actual: ProvenanceFile) -> bool {
    &&& actual.name@ == expected.staged_name@
    &&& actual.size == expected.size
    &&& ascii_lower(actual.sha256@) == ascii_lower(expected.sha256@)
}

/// A managed tree as it should be.
pub open spec fn tree_conforms(
    tree: ManagedTree,
    manifest: FfmpegRuntimeManifest,
    manifest_sha256: Seq<char>,
) -> bool {
    &&& tree.is_dir
    &&& tree.list_error is None
    &&& forall|i: int|
        0 <= i < tree.entries@.len() ==> entry_allowed(
            #[trigger] tree.entries@[i]@,
            manifest.allowed_files@,
        )
    &&& forall|i: int|
        0 <= i < manifest.allowed_files@.len() ==> file_conforms(
            #[trigger] manifest.allowed_files@[i],
            file_named(tree.files@, manifest.allowed_files@[i].staged_name@),
        )
    &&& file_named(tree.files@, "PROVENANCE.json"@) is Some
    &&& tree.provenance matches ProvenanceRead::Parsed(provenance)
    &&& provenance_conforms(manifest, manifest_sha256, provenance)
    &&& file_named(tree.files@, "ffmpeg.exe"@) is Some
}

proof fn lemma_entries(entries: Seq<String>, allowed: Seq<FfmpegAllowedFile>)
    ensures
        entries_failure(entries, allowed) is None <==> forall|i: int|
            0 <= i < entries.len() ==> entry_allowed(#[trigger] entries[i]@, allowed),
    decreases entries.len(),
{
    if entries.len() > 0 {
        let rest = entries.skip(1);
        lemma_entries(rest, allowed);
        assert forall|i: int| 0 <= i < rest.len() implies rest[i] == entries[i + 1] by {}
        if entries_failure(entries, allowed) is None {
            assert forall|i: int| 0 <= i < entries.len() implies entry_allowed(
                #[trigger] entries[i]@,
                allowed,
            ) by {
                if i > 0 {
                    assert(entry_allowed(rest[i - 1]@, allowed));
                }
            }
        } else if entry_allowed(entries[0]@, allowed) {
            let i = choose|i: int|
                0 <= i < rest.len() && !entry_allowed(#[trigger] rest[i]@, allowed);
            assert(!entry_allowed(entries[i + 1]@, allowed));
        }
    }
}

proof fn lemma_files(allowed: Seq<FfmpegAllowedFile>, files: Seq<TreeFile>)
    ensures
        files_failure(allowed, files) is None <==> forall|i: int|
            0 <= i < allowed.len() ==> file_conforms(
                #[trigger] allowed[i],
                file_named(files, allowed[i].staged_name@),
            ),
    decreases allowed.len(),
{
    if allowed.len() > 0 {
        let rest = allowed.skip(1);
        lemma_files(rest, files);
        assert forall|i: int| 0 <= i < rest.len() implies rest[i] == allowed[i + 1] by {}
        if files_failure(allowed, files) is None {
            assert forall|i: int| 0 <= i < allowed.len() implies file_conforms(
                #[trigger] allowed[i],
                file_named(files, allowed[i].staged_name@),
            ) by {
                if i > 0 {
                    let j = i - 1;
                    assert(rest[j] == allowed[i]);
                }
            }
        } else if file_conforms(allowed[0], file_named(files, allowed[0].staged_name@)) {
            let i = choose|i: int|
                0 <= i < rest.len() && !file_conforms(
                    #[trigger] rest[i],
                    file_named(files, rest[i].staged_name@),
                );
            assert(rest[i] == allowed[i + 1]);
        }
    }
}

proof fn lemma_provenance_entries(
    allowed: Seq<FfmpegAllowedFile>,
    listed: Seq<ProvenanceFile>,
    index: nat,
)
    requires
        allowed.len() == listed.len(),
        index <= allowed.len(),
    ensures
        provenance_entries_failure(allowed, listed, index) is None <==> forall|i: int|
            index <= i < allowed.len() ==> entry_conforms(#[trigger] allowed[i], listed[i]),
    decreases allowed.len() - index,
{
    if index < allowed.len() {
        lemma_provenance_entries(allowed, listed, index + 1);
        assert(provenance_entry_failure(index, allowed[index as int], listed[index as int]) is None
            <==> entry_conforms(allowed[index as int], listed[index as int]));
    }
}

/// Verification accepts exactly the trees in which every entry is expected, every
/// allowlisted file has its size and digest, and the provenance record repeats
/// the manifest.
pub proof fn law_verified_iff_conforming(
    tree: ManagedTree,
    manifest: FfmpegRuntimeManifest,
    manifest_sha256: Seq<char>,
)
    ensures
        tree_failure(tree, manifest, manifest_sha256) is None <==> tree_conforms(
            tree,
            manifest,
            manifest_sha256,
        ),
{
    lemma_entries(tree.entries@, manifest.allowed_files@);
    lemma_files(manifest.allowed_files@, tree.files@);
    match tree.provenance {
        ProvenanceRead::Parsed(provenance) => {
            if provenance.files@.len() == manifest.allowed_files@.len() {
                lemma_provenance_entries(manifest.allowed_files@, provenance.files@, 0);
            }
        },
        _ => {},
    }
}

/// A tree in which the bytes of one allowlisted file have another digest than the
/// manifest's never verifies.
pub proof fn law_tampered_bytes_never_verify(
    tree: ManagedTree,
    manifest: FfmpegRuntimeManifest,
    manifest_sha256: Seq<char>,
    k: int,
)
    requires
        0 <= k < manifest.allowed_files@.len(),
        file_named(tree.files@, manifest.allowed_files@[k].staged_name@) matches Some(file)
            && file.content matches Ok(bytes) && sha256_hex(bytes@) != ascii_lower(
            manifest.allowed_files@[k].sha256@,
        ),
    ensures
        tree_failure(tree, manifest, manifest_sha256) is Some,
{
    law_verified_iff_conforming(tree, manifest, manifest_sha256);
    assert(!file_conforms(
        manifest.allowed_files@[k],
        file_named(tree.files@, manifest.allowed_files@[k].staged_name@),
    ));
}

proof fn lemma_first_failing_file(
    allowed: Seq<FfmpegAllowedFile>,
    files: Seq<TreeFile>,
    k: int,
)
    requires
        0 <= k < allowed.len(),
        forall|j: int|
            0 <= j < k ==> file_conforms(
                #[trigger] allowed[j],
                file_named(files, allowed[j].staged_name@),
            ),
        !file_conforms(allowed[k], file_named(files, allowed[k].staged_name@)),
    ensures
        files_failure(allowed, files) == file_failure(
            allowed[k],
            file_named(files, allowed[k].staged_name@),
        ),
    decreases k,
{
    if k > 0 {
        let rest = allowed.skip(1);
        assert(file_conforms(allowed[0], file_named(files, allowed[0].staged_name@)));
        assert forall|j: int| 0 <= j < k - 1 implies file_conforms(
            #[trigger] rest[j],
            file_named(files, rest[j].staged_name@),
        ) by {
            assert(rest[j] == allowed[j + 1]);
        }
        lemma_first_failing_file(rest, files, k - 1);
    }
}

/// Which error the first changed file of a tree gives: where it is gone, that it is missing;
/// where it has another size, both sizes, whatever its bytes; where it has its size and other
/// bytes, both digests.
pub proof fn law_error_of_a_changed_file(
    tree: ManagedTree,
    manifest: FfmpegRuntimeManifest,
    manifest_sha256: Seq<char>,
    k: int,
)
    requires
        tree.is_dir,
        tree.list_error is None,
        forall|i: int|
            0 <= i < tree.entries@.len() ==> entry_allowed(
                #[trigger] tree.entries@[i]@,
                manifest.allowed_files@,
            ),
        0 <= k < manifest.allowed_files@.len(),
        forall|j: int|
            0 <= j < k ==> file_conforms(
                #[trigger] manifest.allowed_files@[j],
                file_named(tree.files@, manifest.allowed_files@[j].staged_name@),
            ),
    ensures
        ({
            let file = manifest.allowed_files@[k];
            let failure = tree_failure(tree, manifest, manifest_sha256);
            match file_named(tree.files@, file.staged_name@) {
                None => failure == Some(
                    VerifyFailure::MissingFile { name: file.staged_name@ },
                ),
                Some(found) => {
                    &&& found.size != file.size ==> failure == Some(
                        VerifyFailure::SizeMismatch {
                            name: file.staged_name@,
                            expected: file.size,
                            actual: found.size,
                        },
                    )
                    &&& found.size == file.size && found.content is Ok && sha256_hex(
                        found.content->Ok_0@,
                    ) != ascii_lower(file.sha256@) ==> failure == Some(
                        VerifyFailure::HashMismatch {
                            name: file.staged_name@,
                            expected: ascii_lower(file.sha256@),
                            actual: sha256_hex(found.content->Ok_0@),
                        },
                    )
                },
            }
        }),
{
    let file = manifest.allowed_files@[k];
    lemma_entries(tree.entries@, manifest.allowed_files@);
    if !file_conforms(file, file_named(tree.files@, file.staged_name@)) {
        lemma_first_failing_file(manifest.allowed_files@, tree.files@, k);
    }
}

// ---------------------------------------------------------------------------
// Status
// ---------------------------------------------------------------------------

/// Whether a damaged or stale managed tree should be downloaded again.
pub fn managed_runtime_needs_repair(
    verify_result: &Result<ManagedRuntimeInfo, ManagedRuntimeVerifyError>,
) -> (r: bool)
    ensures
        r == (verify_result is Err),
{
    verify_result.is_err()
}

/// Default on-demand install directory: `Clipline`, then `ffmpeg`, below the local
/// application data directory.
pub fn managed_ffmpeg_dir_from_local_app_data(local_app_data: Option<&str>) -> (dir: Option<String>)
    ensures
        match local_app_data {
            None => dir is None,
            Some(base) => dir matches Some(dir) && (!is_verbatim(base@) ==> is_grandchild_path(
                dir@,
                base@,
                "Clipline"@,
                "ffmpeg"@,
            )) && has_suffix(dir@, "ffmpeg"@),
        },
{
    proof {
        reveal_strlit("Clipline");
        reveal_strlit("ffmpeg");
        reveal_strlit(".");
        reveal_strlit("..");
    }
    match local_app_data {
        None => None,
        Some(base) => Some(join_two(base, "Clipline", "ffmpeg")),
    }
}

/// Classification of the current FFmpeg runtime for the UI and for installs.
#[derive(Debug, PartialEq, Eq)]
pub struct FfmpegRuntimeStatus {
    pub kind: FfmpegDiscoveryKind,
    pub managed: Option<ManagedRuntimeInfo>,
    pub locate_path: Option<String>,
}

/// Whether there is a managed tree and it verifies.
pub open spec fn managed_verifies(
    managed: Option<&ManagedTree>,
    manifest: FfmpegRuntimeManifest,
    manifest_sha256: Seq<char>,
) -> bool {
    managed matches Some(tree) && tree_failure(*tree, manifest, manifest_sha256) is None
}

/// The status where verification of the managed tree gave `verified`: it holds that very
/// result. `locate_path` is the binary that discovery found.
pub fn status_of_verification(
    verified: Option<ManagedRuntimeInfo>,
    locate_path: Option<&str>,
) -> (status: FfmpegRuntimeStatus)
    ensures
        status.managed == verified,
        status.kind == discovery_kind(verified is Some, locate_path is Some),
        opt_view(status.locate_path) == opt_str_view(locate_path),
{
    let located = match locate_path {
        Some(path) => Some(path.to_owned()),
        None => None,
    };
    FfmpegRuntimeStatus {
        kind: classify_ffmpeg_discovery(verified.is_some(), locate_path.is_some()),
        managed: verified,
        locate_path: located,
    }
}

/// A managed runtime is reported exactly where the status says that it verified; a damaged one
/// beside a binary that was found is an external one.
pub proof fn law_status_follows_verification(
    verified: Option<ManagedRuntimeInfo>,
    located: Option<Seq<char>>,
    status: FfmpegRuntimeStatus,
)
    requires
        status.managed == verified,
        status.kind == discovery_kind(verified is Some, located is Some),
    ensures
        status.managed is Some <==> status.kind == FfmpegDiscoveryKind::ManagedVerified,
        verified is None && located is Some ==> status.kind
            == FfmpegDiscoveryKind::ExternalUnmanaged,
        verified is None && located is None ==> status.kind == FfmpegDiscoveryKind::Missing,
{
}

/// Tells a managed runtime from an external binary; `locate_path` is the binary
/// that discovery found.
pub fn ffmpeg_runtime_status(
    managed: Option<&ManagedTree>,
    manifest: &FfmpegRuntimeManifest,
    manifest_sha256: &str,
    locate_path: Option<&str>,
) -> (status: FfmpegRuntimeStatus)
    ensures
        status.kind == discovery_kind(
            managed_verifies(managed, *manifest, manifest_sha256@),
            locate_path is Some,
        ),
        opt_view(status.locate_path) == opt_str_view(locate_path),
        if managed_verifies(managed, *manifest, manifest_sha256@) {
            status.managed matches Some(info) && is_info_of(
                info,
                *managed->0,
                *manifest,
                manifest_sha256@,
            )
        } else {
            status.managed is None
        },
{
    let verified = match managed {
        Some(tree) => match verify_managed_ffmpeg_runtime(tree, manifest, manifest_sha256) {
            Ok(info) => Some(info),
            Err(_) => None,
        },
        None => None,
    };
    status_of_verification(verified, locate_path)
}

/// The text of an install affordance.
pub open spec fn affordance_text(reason: FfmpegRequirementReason) -> Seq<char> {
    match reason {
        FfmpegRequirementReason::Poster => "Install the FFmpeg runtime to generate clip posters."@,
        FfmpegRequirementReason::AudioSidecarExtract =>
            "Install the FFmpeg runtime to extract audio tracks."@,
        FfmpegRequirementReason::ShareableClipboardExport =>
            "Install the FFmpeg runtime to copy a shareable clip."@,
        FfmpegRequirementReason::SvtAv1 => "Install the FFmpeg runtime to use SVT-AV1 encoding."@,
        FfmpegRequirementReason::FfmpegBackendEncoder =>
            "Install the FFmpeg runtime to use FFmpeg encoder backends."@,
    }
}

/// Short UI copy for an install affordance tied to a requirement reason.
pub fn install_affordance_copy(reason: FfmpegRequirementReason) -> (copy: &'static str)
    ensures
        copy@ == affordance_text(reason),
{
    match reason {
        FfmpegRequirementReason::Poster => "Install the FFmpeg runtime to generate clip posters.",
        FfmpegRequirementReason::AudioSidecarExtract =>
            "Install the FFmpeg runtime to extract audio tracks.",
        FfmpegRequirementReason::ShareableClipboardExport =>
            "Install the FFmpeg runtime to copy a shareable clip.",
        FfmpegRequirementReason::SvtAv1 => "Install the FFmpeg runtime to use SVT-AV1 encoding.",
        FfmpegRequirementReason::FfmpegBackendEncoder =>
            "Install the FFmpeg runtime to use FFmpeg encoder backends.",
    }
}

// ---------------------------------------------------------------------------
// Laws of the single decisions
// ---------------------------------------------------------------------------

/// FFmpeg is needed for posters, audio tracks and copies in any case, for its encoders where the
/// probe found one that has a codec, and for SVT-AV1 where it encodes AV1; for nothing else.
pub proof fn law_what_ffmpeg_is_needed_for(caps: Seq<EncoderCapability>)
    ensures
        ({
            let reasons = required_reasons(caps);
            &&& reasons.contains(FfmpegRequirementReason::Poster)
            &&& reasons.contains(FfmpegRequirementReason::AudioSidecarExtract)
            &&& reasons.contains(FfmpegRequirementReason::ShareableClipboardExport)
            &&& reasons.contains(FfmpegRequirementReason::FfmpegBackendEncoder) <==> exists|i: int|
                0 <= i < caps.len() && (#[trigger] caps[i]).api is Ffmpeg
                    && !(caps[i].backend is SvtAv1) && caps[i].codecs@.len() > 0
            &&& reasons.contains(FfmpegRequirementReason::SvtAv1) <==> exists|i: int|
                0 <= i < caps.len() && (#[trigger] caps[i]).api is Ffmpeg && caps[i].backend is SvtAv1
                    && caps[i].codecs@.contains(Codec::Av1)
            &&& reasons.no_duplicates()
            &&& reasons.take(3) == seq![
                FfmpegRequirementReason::Poster,
                FfmpegRequirementReason::AudioSidecarExtract,
                FfmpegRequirementReason::ShareableClipboardExport,
            ]
        }),
{
    let reasons = required_reasons(caps);
    let backend = exists|i: int| 0 <= i < caps.len() && is_ffmpeg_backend(#[trigger] caps[i]);
    let svt = exists|i: int| 0 <= i < caps.len() && is_svt_av1(#[trigger] caps[i]);
    if exists|i: int|
        0 <= i < caps.len() && (#[trigger] caps[i]).api is Ffmpeg && !(caps[i].backend is SvtAv1)
            && caps[i].codecs@.len() > 0 {
        let i = choose|i: int|
            0 <= i < caps.len() && (#[trigger] caps[i]).api is Ffmpeg && !(
            caps[i].backend is SvtAv1) && caps[i].codecs@.len() > 0;
        assert(is_ffmpeg_backend(caps[i]));
    }
    if exists|i: int|
        0 <= i < caps.len() && (#[trigger] caps[i]).api is Ffmpeg && caps[i].backend is SvtAv1
            && caps[i].codecs@.contains(Codec::Av1) {
        let i = choose|i: int|
            0 <= i < caps.len() && (#[trigger] caps[i]).api is Ffmpeg && caps[i].backend is SvtAv1
                && caps[i].codecs@.contains(Codec::Av1);
        assert(is_svt_av1(caps[i]));
    }
    assert(reasons[0] is Poster);
    assert(reasons[1] is AudioSidecarExtract);
    assert(reasons[2] is ShareableClipboardExport);
    assert(reasons.take(3) =~= seq![
        FfmpegRequirementReason::Poster,
        FfmpegRequirementReason::AudioSidecarExtract,
        FfmpegRequirementReason::ShareableClipboardExport,
    ]);
    if backend {
        assert(reasons[3] is FfmpegBackendEncoder);
    }
    if svt {
        assert(reasons[reasons.len() - 1] is SvtAv1);
    }
}

/// Recording needs no FFmpeg exactly where the system itself has an encoder with a codec.
pub proof fn law_recording_without_ffmpeg(cap: EncoderCapability)
    ensures
        records_without_ffmpeg(cap) <==> cap.api is Mft && cap.codecs@.len() > 0,
{
}

/// The runtime that Clipline installed and verified comes first, then one that was found
/// elsewhere; without either there is none.
pub proof fn law_discovered_runtime(managed_verified: bool, locate_found: bool)
    ensures
        discovery_kind(managed_verified, locate_found) is ManagedVerified <==> managed_verified,
        discovery_kind(managed_verified, locate_found) is ExternalUnmanaged <==> !managed_verified
            && locate_found,
        discovery_kind(managed_verified, locate_found) is Missing <==> !managed_verified
            && !locate_found,
{
}

/// A manifest is used exactly where it is of the first schema, lists a file, and its archive has a
/// size and a root.
pub proof fn law_usable_manifests(manifest: FfmpegRuntimeManifest)
    ensures
        manifest_problem(manifest) is None <==> manifest.schema_version == 1
            && manifest.allowed_files@.len() > 0 && manifest.archive_size > 0 && !is_blank(
            manifest.archive_root@,
        ),
        manifest.schema_version != 1 ==> manifest_problem(manifest) == Some(
            "schema_version must be 1, got "@ + decimal(manifest.schema_version as nat),
        ),
        manifest.schema_version == 1 && manifest.allowed_files@.len() == 0 ==> manifest_problem(
            manifest,
        ) == Some("allowed_files must not be empty"@),
        manifest.schema_version == 1 && manifest.allowed_files@.len() > 0 && manifest.archive_size
            == 0 ==> manifest_problem(manifest) == Some("archive_size must be > 0"@),
        manifest.schema_version == 1 && manifest.allowed_files@.len() > 0 && manifest.archive_size
            > 0 && is_blank(manifest.archive_root@) ==> manifest_problem(manifest) == Some(
            "archive_root must not be empty"@,
        ),
{
}

/// The space that an install needs is that of the archive, of all its files and of the margin
/// together; where that is no number, the largest there is.
pub proof fn law_space_of_an_install(
    manifest: FfmpegRuntimeManifest,
    margin_bytes: u64,
    files: Seq<FfmpegAllowedFile>,
    file: FfmpegAllowedFile,
)
    ensures
        total_size(Seq::empty()) == 0,
        total_size(files.push(file)) == total_size(files) + file.size,
        manifest.archive_size + total_size(manifest.allowed_files@) + margin_bytes
            <= 0xffff_ffff_ffff_ffff ==> space_needed(manifest, margin_bytes)
            == manifest.archive_size + total_size(manifest.allowed_files@) + margin_bytes,
        manifest.archive_size + total_size(manifest.allowed_files@) + margin_bytes
            > 0xffff_ffff_ffff_ffff ==> space_needed(manifest, margin_bytes)
            == 0xffff_ffff_ffff_ffff,
{
    assert(files.push(file).drop_last() =~= files);
}

/// A file is found under its own name, the first of that name.
pub proof fn law_files_are_found_by_name(files: Seq<TreeFile>, name: Seq<char>, i: int)
    requires
        0 <= i <= files.len(),
        forall|k: int| 0 <= k < i ==> (#[trigger] files[k]).name@ != name,
    ensures
        i < files.len() && files[i].name@ == name ==> file_named(files, name) == Some(files[i]),
        i == files.len() ==> file_named(files, name) is None,
    decreases files.len(),
{
    if i > 0 {
        assert(files[0].name@ != name);
        let rest = files.skip(1);
        assert forall|k: int| 0 <= k < i - 1 implies (#[trigger] rest[k]).name@ != name by {
            assert(rest[k] == files[k + 1]);
        }
        law_files_are_found_by_name(rest, name, i - 1);
        assert(i < files.len() ==> rest[i - 1] == files[i]);
    }
}

/// A runtime verifies exactly where it is a directory that could be listed, holds nothing but a
/// readme, its provenance and the files of the manifest, every one of these with its size and its
/// digest, and a provenance that says of every part what the manifest says.
pub proof fn law_runtime_that_verifies(
    tree: ManagedTree,
    manifest: FfmpegRuntimeManifest,
    manifest_sha256: Seq<char>,
    provenance: FfmpegProvenance,
)
    requires
        tree.provenance == ProvenanceRead::Parsed(provenance),
    ensures
        tree_failure(tree, manifest, manifest_sha256) is None <==> {
            &&& tree.is_dir
            &&& tree.list_error is None
            &&& forall|i: int|
                0 <= i < tree.entries@.len() ==> {
                    let name = #[trigger] tree.entries@[i]@;
                    ||| same_ignoring_case(name, "README.md"@)
                    ||| name == "PROVENANCE.json"@
                    ||| exists|k: int|
                        0 <= k < manifest.allowed_files@.len()
                            && #[trigger] manifest.allowed_files@[k].staged_name@ == name
                }
            &&& forall|i: int|
                0 <= i < manifest.allowed_files@.len() ==> {
                    let file = #[trigger] manifest.allowed_files@[i];
                    &&& file_named(tree.files@, file.staged_name@) matches Some(on_disk)
                    &&& on_disk.size == file.size
                    &&& on_disk.content matches Ok(bytes)
                    &&& sha256_hex(bytes@) == ascii_lower(file.sha256@)
                }
            &&& file_named(tree.files@, "PROVENANCE.json"@) is Some
            &&& file_named(tree.files@, "ffmpeg.exe"@) is Some
            &&& provenance.schema_version == 1
            &&& provenance.provider@ == manifest.provider@
            &&& provenance.release_tag@ == manifest.release_tag@
            &&& provenance.published_at@ == manifest.published_at@
            &&& provenance.archive_name@ == manifest.archive_name@
            &&& provenance.archive_url@ == manifest.archive_url@
            &&& ascii_lower(provenance.archive_sha256@) == ascii_lower(manifest.archive_sha256@)
            &&& provenance.source_offer_url@ == manifest.source_offer_url@
            &&& provenance.ffmpeg_source_url@ == manifest.ffmpeg_source_url@
            &&& ascii_lower(provenance.manifest_sha256@) == ascii_lower(manifest_sha256)
            &&& provenance.ffmpeg_version@ == manifest.version_line@
            &&& provenance.files@.len() == manifest.allowed_files@.len()
            &&& forall|i: int|
                0 <= i < manifest.allowed_files@.len() ==> {
                    let file = #[trigger] manifest.allowed_files@[i];
                    &&& provenance.files@[i].name@ == file.staged_name@
                    &&& provenance.files@[i].size == file.size
                    &&& ascii_lower(provenance.files@[i].sha256@) == ascii_lower(file.sha256@)
                }
        },
{
    law_verified_iff_conforming(tree, manifest, manifest_sha256);
    if tree_conforms(tree, manifest, manifest_sha256) {
        assert forall|i: int| 0 <= i < manifest.allowed_files@.len() implies {
            let file = #[trigger] manifest.allowed_files@[i];
            &&& provenance.files@[i].name@ == file.staged_name@
            &&& provenance.files@[i].size == file.size
            &&& ascii_lower(provenance.files@[i].sha256@) == ascii_lower(file.sha256@)
        } by {
            assert(entry_conforms(manifest.allowed_files@[i], provenance.files@[i]));
        }
        assert forall|i: int| 0 <= i < manifest.allowed_files@.len() implies {
            let file = #[trigger] manifest.allowed_files@[i];
            &&& file_named(tree.files@, file.staged_name@) matches Some(on_disk)
            &&& on_disk.size == file.size
            &&& on_disk.content matches Ok(bytes)
            &&& sha256_hex(bytes@) == ascii_lower(file.sha256@)
        } by {
            assert(file_conforms(
                manifest.allowed_files@[i],
                file_named(tree.files@, manifest.allowed_files@[i].staged_name@),
            ));
        }
        assert forall|i: int| 0 <= i < tree.entries@.len() implies {
            let name = #[trigger] tree.entries@[i]@;
            ||| same_ignoring_case(name, "README.md"@)
            ||| name == "PROVENANCE.json"@
            ||| exists|k: int|
                0 <= k < manifest.allowed_files@.len()
                    && #[trigger] manifest.allowed_files@[k].staged_name@ == name
        } by {
            assert(entry_allowed(tree.entries@[i]@, manifest.allowed_files@));
        }
    }
}

/// A runtime whose provenance cannot be read, or is none, does not verify.
pub proof fn law_runtime_without_provenance(
    tree: ManagedTree,
    manifest: FfmpegRuntimeManifest,
    manifest_sha256: Seq<char>,
)
    requires
        !(tree.provenance is Parsed),
    ensures
        tree_failure(tree, manifest, manifest_sha256) is Some,
{
}

/// What is told of a runtime that does not verify.
pub proof fn law_failures_are_told(
    name: Seq<char>,
    expected: Seq<char>,
    actual: Seq<char>,
    wanted: u64,
    found: u64,
)
    ensures
        failure_text(VerifyFailure::NotDirectory { path: name })
            == "managed FFmpeg path is not a directory: "@ + name,
        failure_text(VerifyFailure::MissingFile { name }) == "managed FFmpeg missing required file: "@
            + name,
        failure_text(VerifyFailure::UnexpectedFile { name })
            == "managed FFmpeg contains unexpected file: "@ + name,
        failure_text(VerifyFailure::SizeMismatch { name, expected: wanted, actual: found })
            == "managed FFmpeg "@ + name + " size mismatch: expected "@ + decimal(wanted as nat)
            + ", got "@ + decimal(found as nat),
        failure_text(VerifyFailure::HashMismatch { name, expected, actual }) == "managed FFmpeg "@
            + name + " SHA-256 mismatch: expected "@ + expected + ", got "@ + actual,
        failure_text(VerifyFailure::MissingProvenance) == "managed FFmpeg missing PROVENANCE.json"@,
        failure_text(VerifyFailure::InvalidProvenance { message: name })
            == "managed FFmpeg PROVENANCE.json invalid: "@ + name,
        failure_text(VerifyFailure::ProvenanceMismatch { field: name, expected, actual })
            == "managed FFmpeg provenance "@ + name + " mismatch: expected "@ + expected
            + ", got "@ + actual,
        failure_text(VerifyFailure::InvalidManifest { message: name })
            == "FFmpeg runtime manifest invalid: "@ + name,
        failure_text(VerifyFailure::Io { message: name }) == "managed FFmpeg IO error: "@ + name,
{
}

/// What the user is offered, by what FFmpeg is needed for.
pub proof fn law_offers_name_their_reason()
    ensures
        affordance_text(FfmpegRequirementReason::Poster)
            == "Install the FFmpeg runtime to generate clip posters."@,
        affordance_text(FfmpegRequirementReason::AudioSidecarExtract)
            == "Install the FFmpeg runtime to extract audio tracks."@,
        affordance_text(FfmpegRequirementReason::ShareableClipboardExport)
            == "Install the FFmpeg runtime to copy a shareable clip."@,
        affordance_text(FfmpegRequirementReason::SvtAv1)
            == "Install the FFmpeg runtime to use SVT-AV1 encoding."@,
        affordance_text(FfmpegRequirementReason::FfmpegBackendEncoder)
            == "Install the FFmpeg runtime to use FFmpeg encoder backends."@,
{
}

/// What is known of a runtime that verified: where it is and which release it is.
pub proof fn law_verified_runtime_is_named(
    info: ManagedRuntimeInfo,
    tree: ManagedTree,
    manifest: FfmpegRuntimeManifest,
    manifest_sha256: Seq<char>,
)
    requires
        is_info_of(info, tree, manifest, manifest_sha256),
    ensures
        info.dir@ == tree.path@,
        info.release_tag@ == manifest.release_tag@,
        info.archive_sha256@ == ascii_lower(manifest.archive_sha256@),
        info.manifest_sha256@ == ascii_lower(manifest_sha256),
        has_suffix(info.ffmpeg_exe@, "ffmpeg.exe"@),
        !is_verbatim(tree.path@) ==> is_child_path(info.ffmpeg_exe@, tree.path@, "ffmpeg.exe"@),
{
}

/// A provenance that differs from the manifest in one field alone is refused by the name of that
/// field, with what was expected and what was found.
pub proof fn law_changed_provenance_names_its_field(
    manifest: FfmpegRuntimeManifest,
    manifest_sha256: Seq<char>,
    provenance: FfmpegProvenance,
    good: FfmpegProvenance,
)
    requires
        provenance_conforms(manifest, manifest_sha256, good),
    ensures
        provenance_failure(manifest, manifest_sha256, good) is None,
        provenance == (FfmpegProvenance { provider: provenance.provider, ..good })
            && provenance.provider@ != good.provider@ ==> provenance_failure(
            manifest,
            manifest_sha256,
            provenance,
        ) == Some(
            VerifyFailure::ProvenanceMismatch {
                field: "provider"@,
                expected: manifest.provider@,
                actual: provenance.provider@,
            },
        ),
        provenance == (FfmpegProvenance { release_tag: provenance.release_tag, ..good })
            && provenance.release_tag@ != good.release_tag@ ==> provenance_failure(
            manifest,
            manifest_sha256,
            provenance,
        ) == Some(
            VerifyFailure::ProvenanceMismatch {
                field: "release_tag"@,
                expected: manifest.release_tag@,
                actual: provenance.release_tag@,
            },
        ),
        provenance == (FfmpegProvenance { published_at: provenance.published_at, ..good })
            && provenance.published_at@ != good.published_at@ ==> provenance_failure(
            manifest,
            manifest_sha256,
            provenance,
        ) == Some(
            VerifyFailure::ProvenanceMismatch {
                field: "published_at"@,
                expected: manifest.published_at@,
                actual: provenance.published_at@,
            },
        ),
        provenance == (FfmpegProvenance { archive_name: provenance.archive_name, ..good })
            && provenance.archive_name@ != good.archive_name@ ==> provenance_failure(
            manifest,
            manifest_sha256,
            provenance,
        ) == Some(
            VerifyFailure::ProvenanceMismatch {
                field: "archive_name"@,
                expected: manifest.archive_name@,
                actual: provenance.archive_name@,
            },
        ),
        provenance == (FfmpegProvenance { archive_url: provenance.archive_url, ..good })
            && provenance.archive_url@ != good.archive_url@ ==> provenance_failure(
            manifest,
            manifest_sha256,
            provenance,
        ) == Some(
            VerifyFailure::ProvenanceMismatch {
                field: "archive_url"@,
                expected: manifest.archive_url@,
                actual: provenance.archive_url@,
            },
        ),
        provenance == (FfmpegProvenance { archive_sha256: provenance.archive_sha256, ..good })
            && ascii_lower(provenance.archive_sha256@) != ascii_lower(manifest.archive_sha256@)
            ==> provenance_failure(manifest, manifest_sha256, provenance) == Some(
            VerifyFailure::ProvenanceMismatch {
                field: "archive_sha256"@,
                expected: ascii_lower(manifest.archive_sha256@),
                actual: ascii_lower(provenance.archive_sha256@),
            },
        ),
        provenance == (FfmpegProvenance { source_offer_url: provenance.source_offer_url, ..good })
            && provenance.source_offer_url@ != good.source_offer_url@ ==> provenance_failure(
            manifest,
            manifest_sha256,
            provenance,
        ) == Some(
            VerifyFailure::ProvenanceMismatch {
                field: "source_offer_url"@,
                expected: manifest.source_offer_url@,
                actual: provenance.source_offer_url@,
            },
        ),
        provenance == (FfmpegProvenance {
            ffmpeg_source_url: provenance.ffmpeg_source_url,
            ..good
        }) && provenance.ffmpeg_source_url@ != good.ffmpeg_source_url@ ==> provenance_failure(
            manifest,
            manifest_sha256,
            provenance,
        ) == Some(
            VerifyFailure::ProvenanceMismatch {
                field: "ffmpeg_source_url"@,
                expected: manifest.ffmpeg_source_url@,
                actual: provenance.ffmpeg_source_url@,
            },
        ),
        provenance == (FfmpegProvenance { manifest_sha256: provenance.manifest_sha256, ..good })
            && ascii_lower(provenance.manifest_sha256@) != ascii_lower(manifest_sha256)
            ==> provenance_failure(manifest, manifest_sha256, provenance) == Some(
            VerifyFailure::ProvenanceMismatch {
                field: "manifest_sha256"@,
                expected: ascii_lower(manifest_sha256),
                actual: ascii_lower(provenance.manifest_sha256@),
            },
        ),
        provenance == (FfmpegProvenance { ffmpeg_version: provenance.ffmpeg_version, ..good })
            && provenance.ffmpeg_version@ != good.ffmpeg_version@ ==> provenance_failure(
            manifest,
            manifest_sha256,
            provenance,
        ) == Some(
            VerifyFailure::ProvenanceMismatch {
                field: "ffmpeg_version"@,
                expected: manifest.version_line@,
                actual: provenance.ffmpeg_version@,
            },
        ),
        provenance.schema_version != 1 ==> provenance_failure(
            manifest,
            manifest_sha256,
            provenance,
        ) == Some(
            VerifyFailure::InvalidProvenance {
                message: "schema_version must be 1, got "@ + decimal(
                    provenance.schema_version as nat,
                ),
            },
        ),
        provenance == (FfmpegProvenance { files: provenance.files, ..good })
            && provenance.files@.len() != manifest.allowed_files@.len() ==> provenance_failure(
            manifest,
            manifest_sha256,
            provenance,
        ) == Some(
            VerifyFailure::InvalidProvenance {
                message: "files count mismatch: expected "@ + decimal(
                    manifest.allowed_files@.len(),
                ) + ", got "@ + decimal(provenance.files@.len()),
            },
        ),
{
    lemma_provenance_entries(manifest.allowed_files@, good.files@, 0);
}

/// An entry of a provenance is refused by its place and by what is wrong with it.
pub proof fn law_changed_entry_names_its_place(
    index: nat,
    expected: FfmpegAllowedFile,
    actual: ProvenanceFile,
)
    ensures
        provenance_entry_failure(index, expected, actual) is None <==> actual.name@
            == expected.staged_name@ && actual.size == expected.size && ascii_lower(actual.sha256@)
            == ascii_lower(expected.sha256@),
        actual.name@ != expected.staged_name@ ==> provenance_entry_failure(index, expected, actual)
            == Some(
            VerifyFailure::ProvenanceMismatch {
                field: "files["@ + decimal(index) + "].name"@,
                expected: expected.staged_name@,
                actual: actual.name@,
            },
        ),
        actual.name@ == expected.staged_name@ && actual.size != expected.size
            ==> provenance_entry_failure(index, expected, actual) == Some(
            VerifyFailure::SizeMismatch {
                name: "provenance "@ + ("files["@ + decimal(index) + "]"@),
                expected: expected.size,
                actual: actual.size,
            },
        ),
        actual.name@ == expected.staged_name@ && actual.size == expected.size && ascii_lower(
            actual.sha256@,
        ) != ascii_lower(expected.sha256@) ==> provenance_entry_failure(index, expected, actual)
            == Some(
            VerifyFailure::ProvenanceMismatch {
                field: "files["@ + decimal(index) + "].sha256"@,
                expected: ascii_lower(expected.sha256@),
                actual: ascii_lower(actual.sha256@),
            },
        ),
{
}

} // verus!
