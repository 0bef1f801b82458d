use vstd::prelude::*;

verus! {

/// Every way a scan can fail, from pattern compilation at startup to the
/// per-file decode pipeline. Variants that arise from an outside failure
/// carry the collaborator's description of it.
#[derive(Debug, PartialEq, Eq)]
pub enum ScanError {
    /// A glob pattern did not compile.
    Pattern { detail: String },
    /// The byte stream could not be recognized as a supported audio container.
    Probe { detail: String },
    /// Every track of the container carries the null placeholder codec,
    /// or the container has no tracks at all.
    NoAudioTrack,
    /// No decoder is registered for the selected track's codec.
    UnsupportedCodec { detail: String },
    /// The selected track's channel count or sample rate is absent, zero,
    /// or outside what the loudness accumulator accepts.
    InvalidAudioParameters,
    /// The stream failed mid-decode with a genuine error, as opposed to the
    /// clean end-of-stream condition that ends measurement normally.
    Decode { detail: String },
    /// The decoded sample representation is outside the closed supported set.
    UnsupportedSampleFormat,
    /// The accumulator could not produce an integrated-loudness value.
    Measurement { detail: String },
}

} // verus!
