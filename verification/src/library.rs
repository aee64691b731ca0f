//! The local library: where clips are kept, what may be shown of them to the player, and what
//! is reported about them.

use crate::markers::ClipMarkers;
use crate::text::{contains, eq_ignore_ascii_case, has_prefix, has_substring, same_ignoring_case};
use crate::text::{starts_with, trim, trimmed, views};
use vstd::prelude::*;

verus! {

// ---------------------------------------------------------------------------
// Storage
// ---------------------------------------------------------------------------

/// Where clips are kept, and how many bytes they may take.
#[derive(Debug, PartialEq, Eq)]
pub struct StorageSettings {
    quota_bytes: Option<u64>,
    media_dir: String,
}

impl StorageSettings {
    pub closed spec fn quota(self) -> Option<u64> {
        self.quota_bytes
    }

    pub closed spec fn dir(self) -> Seq<char> {
        self.media_dir@
    }

    pub fn new(quota_bytes: Option<u64>, media_dir: String) -> (settings: StorageSettings)
        ensures
            settings.quota() == quota_bytes,
            settings.dir() == media_dir@,
    {
        StorageSettings { quota_bytes, media_dir }
    }

    pub fn quota_bytes(&self) -> (quota_bytes: Option<u64>)
        ensures
            quota_bytes == self.quota(),
    {
        self.quota_bytes
    }

    pub fn set_quota_bytes(&mut self, quota_bytes: Option<u64>)
        ensures
            final(self).quota() == quota_bytes,
            final(self).dir() == old(self).dir(),
    {
        self.quota_bytes = quota_bytes;
    }

    pub fn media_dir(&self) -> (media_dir: String)
        ensures
            media_dir@ == self.dir(),
    {
        self.media_dir.clone()
    }

    pub fn set_media_dir(&mut self, media_dir: String)
        ensures
            final(self).dir() == media_dir@,
            final(self).quota() == old(self).quota(),
    {
        self.media_dir = media_dir;
    }
}

/// How much the library holds.
#[derive(Debug, Clone, Copy, PartialEq, Eq, Structural)]
pub struct StorageInfo {
    pub clip_count: usize,
    pub total_bytes: u64,
    pub quota_bytes: Option<u64>,
    pub over_quota: bool,
}

/// What is shown of the storage. `over_quota` is the judgement of the scan that counted it.
pub fn storage_info(
    clip_count: usize,
    total_bytes: u64,
    quota_bytes: Option<u64>,
    over_quota: bool,
) -> (info: StorageInfo)
    ensures
        info == (StorageInfo { clip_count, total_bytes, quota_bytes, over_quota }),
{
    StorageInfo { clip_count, total_bytes, quota_bytes, over_quota }
}

/// The times of a cut in seconds, as bit patterns: those that were asked for, those of the key
/// frames around them, and the length of the part.
#[derive(Debug, Clone, Copy, PartialEq, Eq, Structural)]
pub struct CutTimes {
    pub requested_start_s_bits: u64,
    pub requested_end_s_bits: u64,
    pub aligned_start_s_bits: u64,
    pub aligned_end_s_bits: u64,
    pub duration_s_bits: u64,
}

/// A clip that was cut from another one. Numbers of double precision are held as their bit
/// patterns.
#[derive(Debug, PartialEq, Eq)]
pub struct ExportedClipInfo<M, P, S, B> {
    pub path: String,
    pub name: String,
    pub size_mb_bits: u64,
    pub modified_unix: u64,
    pub requested_start_s_bits: u64,
    pub requested_end_s_bits: u64,
    pub aligned_start_s_bits: u64,
    pub aligned_end_s_bits: u64,
    pub duration_s_bits: u64,
    pub markers: Option<ClipMarkers<M, P, S, B>>,
}

/// What is shown of a clip that was cut from another one. A file without a name or without a
/// time of its last change is shown with an empty name, or as of the epoch.
pub fn exported_clip_info<M, P, S, B>(
    path: String,
    name: Option<String>,
    size_mb_bits: u64,
    modified_unix: Option<u64>,
    times: CutTimes,
    markers: Option<ClipMarkers<M, P, S, B>>,
) -> (info: ExportedClipInfo<M, P, S, B>)
    ensures
        info.path == path,
        match name {
            Some(name) => info.name == name,
            None => info.name@.len() == 0,
        },
        info.size_mb_bits == size_mb_bits,
        info.modified_unix == match modified_unix {
            Some(seconds) => seconds,
            None => 0,
        },
        info.requested_start_s_bits == times.requested_start_s_bits,
        info.requested_end_s_bits == times.requested_end_s_bits,
        info.aligned_start_s_bits == times.aligned_start_s_bits,
        info.aligned_end_s_bits == times.aligned_end_s_bits,
        info.duration_s_bits == times.duration_s_bits,
        info.markers == markers,
{
    ExportedClipInfo {
        path,
        name: match name {
            Some(name) => name,
            None => String::new(),
        },
        size_mb_bits,
        modified_unix: match modified_unix {
            Some(seconds) => seconds,
            None => 0,
        },
        requested_start_s_bits: times.requested_start_s_bits,
        requested_end_s_bits: times.requested_end_s_bits,
        aligned_start_s_bits: times.aligned_start_s_bits,
        aligned_end_s_bits: times.aligned_end_s_bits,
        duration_s_bits: times.duration_s_bits,
        markers,
    }
}

// ---------------------------------------------------------------------------
// Posters
// ---------------------------------------------------------------------------

/// Why a poster could not be made, without the paths and the output that the error names.
#[derive(Debug, Clone, Copy, PartialEq, Eq, Structural)]
pub enum PosterFailure {
    RuntimeUnavailable,
    SpawnFailed,
    Timeout,
    MediaOrCodec,
    InvalidOutput,
    PublishFailed,
    Unknown,
}

/// The kind of a poster failure, by its error.
pub open spec fn poster_failure(error: Seq<char>) -> PosterFailure {
    if same_ignoring_case(trimmed(error), "ffmpeg is not available for poster extraction"@) {
        PosterFailure::RuntimeUnavailable
    } else if has_prefix(error, "spawn ffmpeg poster"@) {
        PosterFailure::SpawnFailed
    } else if has_substring(error, "timed out"@) {
        PosterFailure::Timeout
    } else if has_prefix(error, "ffmpeg poster failed"@) {
        PosterFailure::MediaOrCodec
    } else if has_substring(error, "JPEG data"@) || has_substring(error, "output limit"@) {
        PosterFailure::InvalidOutput
    } else if has_substring(error, "poster temp"@) || has_substring(error, "finalize poster"@) {
        PosterFailure::PublishFailed
    } else {
        PosterFailure::Unknown
    }
}

/// The kind of a poster failure as it is logged.
pub open spec fn poster_failure_name(kind: PosterFailure) -> Seq<char> {
    match kind {
        PosterFailure::RuntimeUnavailable => "runtime_unavailable"@,
        PosterFailure::SpawnFailed => "spawn_failed"@,
        PosterFailure::Timeout => "timeout"@,
        PosterFailure::MediaOrCodec => "media_or_codec"@,
        PosterFailure::InvalidOutput => "invalid_output"@,
        PosterFailure::PublishFailed => "publish_failed"@,
        PosterFailure::Unknown => "unknown"@,
    }
}

fn classify_poster_failure(error: &str) -> (kind: PosterFailure)
    ensures
        kind == poster_failure(error@),
{
    let shown = trim(error);
    if eq_ignore_ascii_case(shown.as_str(), "ffmpeg is not available for poster extraction") {
        PosterFailure::RuntimeUnavailable
    } else if starts_with(error, "spawn ffmpeg poster") {
        PosterFailure::SpawnFailed
    } else if contains(error, "timed out") {
        PosterFailure::Timeout
    } else if starts_with(error, "ffmpeg poster failed") {
        PosterFailure::MediaOrCodec
    } else if contains(error, "JPEG data") || contains(error, "output limit") {
        PosterFailure::InvalidOutput
    } else if contains(error, "poster temp") || contains(error, "finalize poster") {
        PosterFailure::PublishFailed
    } else {
        PosterFailure::Unknown
    }
}

/// The kind of a poster failure as it is logged.
pub fn poster_failure_kind(error: &str) -> (kind: &'static str)
    ensures
        kind@ == poster_failure_name(poster_failure(error@)),
{
    match classify_poster_failure(error) {
        PosterFailure::RuntimeUnavailable => "runtime_unavailable",
        PosterFailure::SpawnFailed => "spawn_failed",
        PosterFailure::Timeout => "timeout",
        PosterFailure::MediaOrCodec => "media_or_codec",
        PosterFailure::InvalidOutput => "invalid_output",
        PosterFailure::PublishFailed => "publish_failed",
        PosterFailure::Unknown => "unknown",
    }
}

/// The kinds of poster failures that were logged.
#[derive(Debug, PartialEq, Eq)]
pub struct PosterFailures {
    pub reported: Vec<PosterFailure>,
}

impl PosterFailures {
    pub fn new() -> (failures: PosterFailures)
        ensures
            failures.reported@.len() == 0,
    {
        PosterFailures { reported: Vec::new() }
    }

    /// Whether a failure is to be logged: each kind is logged once.
    pub fn should_report(&mut self, error: &str) -> (report: bool)
        ensures
            report == !old(self).reported@.contains(poster_failure(error@)),
            final(self).reported@ == (if report {
                old(self).reported@.push(poster_failure(error@))
            } else {
                old(self).reported@
            }),
    {
        let kind = classify_poster_failure(error);
        let mut i: usize = 0;
        while i < self.reported.len()
            invariant
                i <= self.reported@.len(),
                self.reported@ == old(self).reported@,
                kind == poster_failure(error@),
                forall|k: int| 0 <= k < i ==> self.reported@[k] != kind,
            decreases self.reported@.len() - i,
        {
            if self.reported[i] == kind {
                assert(self.reported@[i as int] == kind);
                return false;
            }
            i += 1;
        }
        self.reported.push(kind);
        true
    }
}

// ---------------------------------------------------------------------------
// Files that the player may read
// ---------------------------------------------------------------------------

/// Why the player may not read a file.
#[derive(Debug, Clone, Copy, PartialEq, Eq, Structural)]
pub enum MediaAssetError {
    EscapedRoot,
    NoExtension,
    UnsupportedExtension,
}

/// Whether an extension is one of these, in any case.
pub open spec fn is_allowed_extension(extension: Seq<char>, allowed: Seq<Seq<char>>) -> bool {
    exists|i: int| 0 <= i < allowed.len() && same_ignoring_case(extension, #[trigger] allowed[i])
}

/// Whether the player may read a file: it lies in the root, and its extension is one of those
/// that are allowed. `in_root` and `extension` are those of its real path.
pub fn allow_media_asset(
    in_root: bool,
    extension: &Option<String>,
    extensions: &Vec<String>,
) -> (res: Result<(), MediaAssetError>)
    ensures
        res is Ok <==> in_root && extension is Some && is_allowed_extension(
            extension->0@,
            views(extensions@),
        ),
        res matches Err(error) ==> error == (if !in_root {
            MediaAssetError::EscapedRoot
        } else if extension is None {
            MediaAssetError::NoExtension
        } else {
            MediaAssetError::UnsupportedExtension
        }),
{
    if !in_root {
        return Err(MediaAssetError::EscapedRoot);
    }
    match extension {
        None => Err(MediaAssetError::NoExtension),
        Some(found) => {
            let mut i: usize = 0;
            while i < extensions.len()
                invariant
                    i <= extensions@.len(),
                    in_root,
                    *extension == Some(*found),
                    forall|k: int|
                        0 <= k < i ==> !same_ignoring_case(
                            found@,
                            #[trigger] views(extensions@)[k],
                        ),
                decreases extensions@.len() - i,
            {
                assert(views(extensions@)[i as int] == extensions@[i as int]@);
                if eq_ignore_ascii_case(found.as_str(), extensions[i].as_str()) {
                    return Ok(());
                }
                i += 1;
            }
            Err(MediaAssetError::UnsupportedExtension)
        },
    }
}

fn extensions1(extension: &str) -> (extensions: Vec<String>)
    ensures
        extensions@.len() == 1,
        extensions@[0]@ == extension@,
{
    let mut extensions: Vec<String> = Vec::new();
    extensions.push(extension.to_string());
    extensions
}

/// Whether the player may read a clip.
pub fn allow_clip_asset(in_root: bool, extension: &Option<String>) -> (res: Result<
    (),
    MediaAssetError,
>)
    ensures
        res is Ok <==> in_root && extension is Some && same_ignoring_case(extension->0@, "mp4"@),
        res matches Err(error) ==> error == (if !in_root {
            MediaAssetError::EscapedRoot
        } else if extension is None {
            MediaAssetError::NoExtension
        } else {
            MediaAssetError::UnsupportedExtension
        }),
{
    let extensions = extensions1("mp4");
    assert(views(extensions@) =~= seq!["mp4"@]);
    assert(views(extensions@)[0] == "mp4"@);
    allow_media_asset(in_root, extension, &extensions)
}

/// Whether the player may read a poster.
pub fn allow_poster_asset(in_root: bool, extension: &Option<String>) -> (res: Result<
    (),
    MediaAssetError,
>)
    ensures
        res is Ok <==> in_root && extension is Some && (same_ignoring_case(
            extension->0@,
            "jpg"@,
        ) || same_ignoring_case(extension->0@, "jpeg"@)),
        res matches Err(error) ==> error == (if !in_root {
            MediaAssetError::EscapedRoot
        } else if extension is None {
            MediaAssetError::NoExtension
        } else {
            MediaAssetError::UnsupportedExtension
        }),
{
    let mut extensions = extensions1("jpg");
    extensions.push("jpeg".to_string());
    assert(views(extensions@) =~= seq!["jpg"@, "jpeg"@]);
    assert(views(extensions@)[0] == "jpg"@);
    assert(views(extensions@)[1] == "jpeg"@);
    allow_media_asset(in_root, extension, &extensions)
}

/// What becomes of a file that is to be played as the audio of a track.
#[derive(Debug, Clone, Copy, PartialEq, Eq, Structural)]
pub enum PreviewAsset {
    /// It is not in the cache, so that there is nothing to allow.
    Elsewhere,
    Allowed,
    EscapedCache,
    NotMp4,
}

/// What becomes of a file that is to be played as the audio of a track. `named_in_cache` is by
/// the path that was asked for; `in_cache` and `extension` are those of its real path.
pub fn allow_audio_preview_asset(
    named_in_cache: bool,
    in_cache: bool,
    extension: &Option<String>,
) -> (asset: PreviewAsset)
    ensures
        asset == (if !named_in_cache {
            PreviewAsset::Elsewhere
        } else if !in_cache {
            PreviewAsset::EscapedCache
        } else if extension is Some && same_ignoring_case(extension->0@, "mp4"@) {
            PreviewAsset::Allowed
        } else {
            PreviewAsset::NotMp4
        }),
{
    if !named_in_cache {
        return PreviewAsset::Elsewhere;
    }
    if !in_cache {
        return PreviewAsset::EscapedCache;
    }
    match extension {
        Some(extension) => if eq_ignore_ascii_case(extension.as_str(), "mp4") {
            PreviewAsset::Allowed
        } else {
            PreviewAsset::NotMp4
        },
        None => PreviewAsset::NotMp4,
    }
}

// ---------------------------------------------------------------------------
// The file manager
// ---------------------------------------------------------------------------

/// What the library asks of the system.
#[derive(Debug, PartialEq, Eq)]
pub enum PlatformEffect {
    RevealClip(String),
    OpenFolder(String),
}

/// The clip to show in the file manager.
pub fn reveal_target(effect: PlatformEffect) -> (res: Result<String, String>)
    ensures
        match effect {
            PlatformEffect::RevealClip(target) => res == Ok::<String, String>(target),
            PlatformEffect::OpenFolder(_) => res is Err && res->Err_0@
                == "Library returned an invalid reveal effect"@,
        },
{
    match effect {
        PlatformEffect::RevealClip(target) => Ok(target),
        PlatformEffect::OpenFolder(_) => Err(
            "Library returned an invalid reveal effect".to_string(),
        ),
    }
}

/// The folder to open in the file manager.
pub fn open_folder_target(effect: PlatformEffect) -> (res: Result<String, String>)
    ensures
        match effect {
            PlatformEffect::OpenFolder(directory) => res == Ok::<String, String>(directory),
            PlatformEffect::RevealClip(_) => res is Err && res->Err_0@
                == "Library returned an invalid open-folder effect"@,
        },
{
    match effect {
        PlatformEffect::OpenFolder(directory) => Ok(directory),
        PlatformEffect::RevealClip(_) => Err(
            "Library returned an invalid open-folder effect".to_string(),
        ),
    }
}

/// The kind of a failed poster is told by the words of its error, the first of these that fits,
/// and has this name.
pub proof fn law_poster_failures_are_told_by_their_words(error: Seq<char>)
    ensures
        ({
            let name = poster_failure_name(poster_failure(error));
            let missing = same_ignoring_case(
                trimmed(error),
                "ffmpeg is not available for poster extraction"@,
            );
            let spawn = has_prefix(error, "spawn ffmpeg poster"@);
            let late = has_substring(error, "timed out"@);
            let failed = has_prefix(error, "ffmpeg poster failed"@);
            let garbled = has_substring(error, "JPEG data"@) || has_substring(
                error,
                "output limit"@,
            );
            let lost = has_substring(error, "poster temp"@) || has_substring(
                error,
                "finalize poster"@,
            );
            &&& missing ==> name == "runtime_unavailable"@
            &&& !missing && spawn ==> name == "spawn_failed"@
            &&& !missing && !spawn && late ==> name == "timeout"@
            &&& !missing && !spawn && !late && failed ==> name == "media_or_codec"@
            &&& !missing && !spawn && !late && !failed && garbled ==> name == "invalid_output"@
            &&& !missing && !spawn && !late && !failed && !garbled && lost ==> name
                == "publish_failed"@
            &&& !missing && !spawn && !late && !failed && !garbled && !lost ==> name == "unknown"@
        }),
{
}

/// An extension is allowed where it is one of the list, whatever the case of its letters, and
/// nowhere else.
pub proof fn law_extensions_are_allowed_in_any_case(
    extension: Seq<char>,
    allowed: Seq<Seq<char>>,
    i: int,
)
    ensures
        0 <= i < allowed.len() && extension == allowed[i] ==> is_allowed_extension(
            extension,
            allowed,
        ),
        0 <= i < allowed.len() && crate::text::ascii_lower(extension) == crate::text::ascii_lower(
            allowed[i],
        ) ==> is_allowed_extension(extension, allowed),
        is_allowed_extension(extension, allowed) ==> exists|k: int|
            0 <= k < allowed.len() && crate::text::ascii_lower(extension)
                == crate::text::ascii_lower(#[trigger] allowed[k]),
{
    if is_allowed_extension(extension, allowed) {
        let k = choose|k: int|
            0 <= k < allowed.len() && same_ignoring_case(extension, #[trigger] allowed[k]);
        assert(crate::text::ascii_lower(extension) == crate::text::ascii_lower(allowed[k]));
    }
}

} // verus!
