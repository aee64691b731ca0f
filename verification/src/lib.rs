//! Verified core of the Clipline replay recorder shell.

use vstd::prelude::*;

pub mod archive;
pub mod cache_identity;
pub mod capture_policy;
pub mod clip_export;
pub mod cloud;
pub mod cloud_upload;
pub mod desktop;
pub mod detection;
pub mod diagnostics;
pub mod encoders;
pub mod export_names;
pub mod ffmpeg_install;
pub mod ffmpeg_runtime;
pub mod game_identity;
pub mod gc;
pub mod hash;
pub mod hotkeys;
pub mod image;
pub mod launch;
pub mod library;
pub mod markers;
pub mod media_folder;
pub mod mic_test;
pub mod osu_api;
pub mod paths;
pub mod preview_cache;
pub mod runtime;
pub mod settings;
pub mod share_export;
pub mod shortcuts;
pub mod sidecars;
pub mod startup;
pub mod text;
pub mod transaction;
pub mod webview2;
pub mod window;

verus! {

} // verus!

