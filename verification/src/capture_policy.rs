//! Capture selection shared by the live recorder and hardware-independent tests.

use vstd::prelude::*;

verus! {

#[derive(Clone, Copy, Debug, PartialEq, Eq, Structural)]
pub enum CaptureBackend {
    Auto,
    Default,
    Fallback,
}

impl Default for CaptureBackend {
    fn default() -> (r: Self)
        ensures
            r == CaptureBackend::Auto,
    {
        CaptureBackend::Auto
    }
}

#[derive(Clone, Copy, Debug, PartialEq, Eq, Structural)]
pub enum CapturePlan {
    Wgc,
    Dxgi,
    FullscreenFallback,
}

impl CapturePlan {
    /// How a source is captured. Windows Graphics Capture is used where it was asked for
    /// or where the choice is automatic on Windows 11; otherwise a window is captured by
    /// the full-screen fallback and a screen by desktop duplication.
    pub fn for_source(backend: CaptureBackend, is_windows_11_or_later: bool, is_window: bool) -> (
    plan: Self)
        ensures
            plan == CapturePlan::Wgc <==> backend == CaptureBackend::Default || (backend
                == CaptureBackend::Auto && is_windows_11_or_later),
            plan != CapturePlan::Wgc ==> plan == if is_window {
                CapturePlan::FullscreenFallback
            } else {
                CapturePlan::Dxgi
            },
    {
        match backend {
            CaptureBackend::Default => CapturePlan::Wgc,
            CaptureBackend::Auto if is_windows_11_or_later => CapturePlan::Wgc,
            CaptureBackend::Auto | CaptureBackend::Fallback => if is_window {
                CapturePlan::FullscreenFallback
            } else {
                CapturePlan::Dxgi
            },
        }
    }
}

} // verus!
