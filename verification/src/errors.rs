use vstd::prelude::*;

verus! {

/// Failure to open a capture or playback stream.
#[derive(Clone, Copy, PartialEq, Eq, Structural, Debug)]
pub enum OpenError {
    /// The device's sample representation is not in the supported set.
    UnsupportedFormat,
    /// The requested channel count or sample rate is zero.
    InvalidConfig,
}

/// Failure to submit a track to the playback sink.
#[derive(Clone, Copy, PartialEq, Eq, Structural, Debug)]
pub enum SubmitError {
    /// A previously submitted track has not finished playing; the caller
    /// must wait for the readiness check to resolve before submitting.
    AlreadyBusy,
    /// The playback worker has terminated, so the track cannot be played.
    ChannelClosed,
}

} // verus!
