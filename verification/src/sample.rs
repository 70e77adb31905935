use vstd::prelude::*;

verus! {

/// One audio sample in the canonical representation used throughout the
/// pipeline, carried as the raw bit pattern of its 32-bit floating-point
/// value. The verified logic moves samples around without interpreting
/// them numerically; the numeric conversion from a device's native
/// representation belongs to the unverified edge that owns the real-time
/// callback.
#[derive(Clone, Copy, PartialEq, Eq, Structural, Debug)]
pub struct CanonicalSample {
    pub bits: u32,
}

impl CanonicalSample {
    pub fn from_bits(bits: u32) -> (r: CanonicalSample)
        ensures
            r.bits == bits,
    {
        CanonicalSample { bits }
    }

    pub fn to_bits(self) -> (r: u32)
        ensures
            r == self.bits,
    {
        self.bits
    }
}

/// The closed set of native sample representations a stream may deliver.
/// Every representation in this set is convertible to the canonical one;
/// anything outside it is rejected when the stream is opened, never per
/// batch.
#[derive(Clone, Copy, PartialEq, Eq, Structural, Debug)]
pub enum SampleRepr {
    I8,
    U8,
    I16,
    U16,
    I32,
    U32,
    I64,
    U64,
    F32,
    F64,
}

} // verus!
