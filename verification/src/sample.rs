//! Edge samples, as the driver's sampling thread delivers them in batches.

use vstd::prelude::*;

use crate::types::Level;

verus! {

/// One driver-delivered snapshot: the tick at which it was taken, and a
/// bitmask holding, for each pin number below 32, the level sampled at that
/// tick in the bit of that number. Batches of these are produced by the
/// driver and handed to the registered sampling callback; the wrapper never
/// fabricates them.
#[derive(Clone, Copy, Debug, PartialEq, Eq, Structural)]
pub struct Sample {
    pub tick: u32,
    pub level: u32,
}

impl Sample {
    /// The level of one pin in this snapshot's bitmask.
    pub open spec fn spec_pin_level(self, pin: u32) -> Level {
        if self.level & (1u32 << pin) != 0 {
            Level::On
        } else {
            Level::Off
        }
    }

    /// Reads the sampled level of `pin` out of the bitmask.
    pub fn pin_level(&self, pin: u32) -> (level: Level)
        requires
            pin < 32,
        ensures
            level == self.spec_pin_level(pin),
    {
        if self.level & (1u32 << pin) != 0 {
            Level::On
        } else {
            Level::Off
        }
    }
}

} // verus!
