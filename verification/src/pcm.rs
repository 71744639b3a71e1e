//! Power Control Manager (PCM).
//!
//! The manager's control register selects the chip's active power mode;
//! writes take effect only when accompanied by the unlock key in the
//! register's upper half. This module models the control register as a
//! plain word carried by [`Pcm`]. On the chip, a mode request also
//! waits for the manager's busy flag before and after the write; that
//! synchronization belongs to the unverified harness that talks to the
//! real registers.

use vstd::prelude::*;

verus! {

/// Key that unlocks writes to the power-mode control registers.
pub const PCMKEY: u32 = 0x695A;

/// Active-mode request selecting the LDO regulator at core voltage 1,
/// which provides enough power for the 48 MHz clock.
pub const AMR_LDO_VCORE1: u32 = 1;

/// The power control manager: the model of its first control register.
pub struct Pcm {
    /// Control register 0: the active-mode request in its low bits,
    /// unlocked by [`PCMKEY`] in bits 16 to 31.
    pub ctl0: u32,
}

impl Pcm {
    /// The manager with its control register cleared.
    pub fn new() -> (r: Pcm)
        ensures
            r.ctl0 == 0,
    {
        Pcm { ctl0: 0 }
    }

    /// Request the high-power active mode `AM_LDO_VCORE1`, so the chip
    /// can run at 48 MHz: write the unlock key and the mode request into
    /// the control register.
    pub fn set_high_power(&mut self)
        ensures
            final(self).ctl0 == (PCMKEY << 16u32) | AMR_LDO_VCORE1,
    {
        self.ctl0 = (PCMKEY << 16u32) | AMR_LDO_VCORE1;
    }
}

} // verus!
