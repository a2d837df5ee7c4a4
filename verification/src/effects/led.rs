//! The lightbar colour.

use vstd::prelude::*;

verus! {

/// A lightbar colour, one byte per channel.
#[derive(Copy, Clone, Debug)]
pub struct LedEffect {
    pub red: u8,
    pub green: u8,
    pub blue: u8,
}

impl LedEffect {
    pub fn new(red: u8, green: u8, blue: u8) -> (led: Self)
        ensures
            led == (LedEffect { red, green, blue }),
    {
        Self { red, green, blue }
    }

    /// Half-bright red and blue.
    pub fn purple() -> (led: Self)
        ensures
            led == (LedEffect { red: 128, green: 0, blue: 128 }),
    {
        Self { red: 128, green: 0, blue: 128 }
    }

    /// All channels dark.
    pub fn off() -> (led: Self)
        ensures
            led == (LedEffect { red: 0, green: 0, blue: 0 }),
    {
        Self { red: 0, green: 0, blue: 0 }
    }

    /// The colour whose channels are the three bytes of `rgb`, in that order.
    pub fn from_rgb_slice(rgb: &[u8; 3]) -> (led: Self)
        ensures
            led == (LedEffect { red: rgb@[0], green: rgb@[1], blue: rgb@[2] }),
    {
        Self { red: rgb[0], green: rgb[1], blue: rgb[2] }
    }
}

} // verus!
