//! Video encoders as the capability probe reports them.

use vstd::prelude::*;

verus! {

#[derive(Debug, Clone, Copy, PartialEq, Eq, Structural)]
pub enum Codec {
    H264,
    Hevc,
    Av1,
}

#[derive(Debug, Clone, Copy, PartialEq, Eq, Structural)]
pub enum EncoderApi {
    Mft,
    Ffmpeg,
}

#[derive(Debug, Clone, Copy, PartialEq, Eq, Structural)]
pub enum EncoderBackend {
    Nvenc,
    Amf,
    QuickSync,
    SvtAv1,
    MfSoftware,
}

/// One encoder: the interface that drives it, its backend, and its codecs.
#[derive(Debug, Clone, PartialEq, Eq)]
pub struct EncoderCapability {
    pub api: EncoderApi,
    pub backend: EncoderBackend,
    pub codecs: Vec<Codec>,
}

/// Whether `codecs` holds `codec`.
pub fn contains_codec(codecs: &Vec<Codec>, codec: Codec) -> (r: bool)
    ensures
        r == codecs@.contains(codec),
{
    let mut i: usize = 0;
    while i < codecs.len()
        invariant
            i <= codecs@.len(),
            forall|k: int| 0 <= k < i ==> codecs@[k] != codec,
        decreases codecs@.len() - i,
    {
        if codecs[i] == codec {
            assert(codecs@[i as int] == codec);
            return true;
        }
        i += 1;
    }
    false
}

} // verus!
