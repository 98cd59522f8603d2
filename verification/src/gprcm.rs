use vstd::prelude::*;
use crate::{PWREN_WRITE_KEY, RSTCTL_WRITE_KEY};

verus! {

/// RSTCTL.RESETASSERT (bit 0): assert reset to the peripheral.
pub const RSTCTL_RESETASSERT: u32 = 0x1;

/// RSTCTL.RESETSTKYCLR (bit 1): clear the RESETSTKY bit in the STAT register.
pub const RSTCTL_RESETSTKYCLR: u32 = 0x2;

/// PWREN.ENABLE (bit 0): enable the power.
pub const PWREN_ENABLE: u32 = 0x1;

/// The RSTCTL word that resets a peripheral and clears its sticky reset flag, with the key that
/// unlocks the register.
pub fn reset_word() -> (w: u32)
    ensures
        w == RSTCTL_WRITE_KEY | RSTCTL_RESETASSERT | RSTCTL_RESETSTKYCLR,
        w == 0xB100_0003,
{
    assert(0xB100_0000u32 | 1u32 | 2u32 == 0xB100_0003u32) by (bit_vector);
    RSTCTL_WRITE_KEY | RSTCTL_RESETASSERT | RSTCTL_RESETSTKYCLR
}

/// The PWREN word that powers a peripheral on, with the key that unlocks the register.
pub fn power_on_word() -> (w: u32)
    ensures
        w == PWREN_WRITE_KEY | PWREN_ENABLE,
        w == 0x2600_0001,
{
    assert(0x2600_0000u32 | 1u32 == 0x2600_0001u32) by (bit_vector);
    PWREN_WRITE_KEY | PWREN_ENABLE
}

} // verus!
