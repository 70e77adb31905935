use vstd::prelude::*;

use crate::errors::OpenError;
use crate::sample::SampleRepr;

verus! {

/// The fixed shape of an opened stream: how many interleaved channels,
/// how many frames per second, and which native sample representation
/// the device delivers. Immutable once a stream is opened; every track
/// built from the stream's samples carries the same configuration.
#[derive(Clone, Copy, PartialEq, Eq, Structural, Debug)]
pub struct StreamConfig {
    pub channels: u16,
    pub sample_rate: u32,
    pub repr: SampleRepr,
}

impl StreamConfig {
    /// A configuration is well formed when both the channel count and
    /// the sample rate are positive.
    pub open spec fn wf(self) -> bool {
        self.channels > 0 && self.sample_rate > 0
    }

    /// Validates the parameters negotiated with a device. The
    /// representation arrives as `None` when the device reported one
    /// outside the supported set; that is rejected here, at open time,
    /// so that conversion can never fail per batch.
    pub fn try_new(channels: u16, sample_rate: u32, repr: Option<SampleRepr>) -> (r: Result<
        StreamConfig,
        OpenError,
    >)
        ensures
            match r {
                Ok(c) => {
                    &&& repr == Some(c.repr)
                    &&& c.channels == channels
                    &&& c.sample_rate == sample_rate
                    &&& c.wf()
                },
                Err(e) => {
                    &&& repr is None ==> e == OpenError::UnsupportedFormat
                    &&& repr is Some ==> (e == OpenError::InvalidConfig && (channels == 0
                        || sample_rate == 0))
                },
            },
            r is Err <==> (repr is None || channels == 0 || sample_rate == 0),
    {
        match repr {
            None => Err(OpenError::UnsupportedFormat),
            Some(rp) => {
                if channels == 0 || sample_rate == 0 {
                    Err(OpenError::InvalidConfig)
                } else {
                    Ok(StreamConfig { channels, sample_rate, repr: rp })
                }
            },
        }
    }
}

} // verus!
