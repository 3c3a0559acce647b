use vstd::prelude::*;

verus! {

/// The platform family a plugin runs on: the OpenHarmony port, or the
/// desktop platforms whose behaviour the port keeps unchanged.
#[derive(Clone, Copy, Debug, PartialEq, Eq, Structural)]
pub enum Platform {
    Ohos,
    Desktop,
}

/// Bit of [`StateFlags`] selecting the window size.
pub const SIZE_BIT: u32 = 0x1;

/// Bit of [`StateFlags`] selecting the window position.
pub const POSITION_BIT: u32 = 0x2;

/// Bit of [`StateFlags`] selecting the maximized state.
pub const MAXIMIZED_BIT: u32 = 0x4;

/// Bit of [`StateFlags`] selecting the visibility.
pub const VISIBLE_BIT: u32 = 0x8;

/// Bit of [`StateFlags`] selecting the window decorations.
pub const DECORATIONS_BIT: u32 = 0x10;

/// Bit of [`StateFlags`] selecting the fullscreen state.
pub const FULLSCREEN_BIT: u32 = 0x20;

/// Every bit that names a part of the window state.
pub const ALL_BITS: u32 = 0x3f;

/// The parts of a window's state that a save or a restore deals with.
#[derive(Clone, Copy, Debug, PartialEq, Eq, Structural)]
pub struct StateFlags {
    pub bits: u32,
}

impl StateFlags {
    /// Whether every bit of `bit` is set in these flags.
    pub open spec fn has(self, bit: u32) -> bool {
        self.bits & bit == bit
    }

    /// Whether some bit of `bits` is set in these flags.
    pub open spec fn meets(self, bits: u32) -> bool {
        self.bits & bits != 0
    }

    /// Flags made of the given bits, with those that name no part dropped.
    pub fn from_bits_truncate(bits: u32) -> (f: StateFlags)
        ensures
            f.bits == bits & ALL_BITS,
    {
        StateFlags { bits: bits & ALL_BITS }
    }

    /// All parts of the window state.
    pub fn all() -> (f: StateFlags)
        ensures
            f.bits == ALL_BITS,
    {
        StateFlags { bits: ALL_BITS }
    }

    /// No part of the window state.
    pub fn empty() -> (f: StateFlags)
        ensures
            f.bits == 0,
    {
        StateFlags { bits: 0 }
    }

    /// Whether every bit of `bit` is set.
    pub fn contains(&self, bit: u32) -> (r: bool)
        ensures
            r == self.has(bit),
    {
        self.bits & bit == bit
    }

    /// Whether some bit of `bits` is set.
    pub fn intersects(&self, bits: u32) -> (r: bool)
        ensures
            r == self.meets(bits),
    {
        self.bits & bits != 0
    }
}

} // verus!
