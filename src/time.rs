//! Units of frequency and time.
use vstd::prelude::*;

verus! {

/// A frequency in hertz.
#[derive(Clone, Copy, Debug, PartialEq, Eq, Structural)]
pub struct Hertz(pub u32);

/// A data rate in bits per second.
#[derive(Clone, Copy, Debug, PartialEq, Eq, Structural)]
pub struct Bps(pub u32);

/// A span of time in picoseconds.
#[derive(Clone, Copy, Debug, PartialEq, Eq, Structural)]
pub struct PicoSeconds(pub u32);

/// A span of time in nanoseconds.
#[derive(Clone, Copy, Debug, PartialEq, Eq, Structural)]
pub struct NanoSeconds(pub u32);

impl NanoSeconds {
    /// The same span in picoseconds.
    pub fn to_picos(self) -> (r: PicoSeconds)
        requires
            self.0 as nat * 1000 <= u32::MAX,
        ensures
            r.0 == self.0 * 1000,
    {
        PicoSeconds(self.0 * 1000)
    }
}


} // verus!
