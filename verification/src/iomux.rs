use vstd::prelude::*;

verus! {

/// The lowest and highest IOMUX pin numbers (PINCM1..PINCM74).
pub const IOMUX_FIRST_PIN: usize = 1;

/// The highest IOMUX pin number.
pub const IOMUX_LAST_PIN: usize = 74;

/// Largest valid peripheral function.
pub const IOMUX_MAX_FUNCTION: u8 = 11;

/// PINCM.PC (bit 7): the peripheral is connected.
pub const PINCM_PC: u32 = 0x80;

/// PINCM.PIPD (bit 16): pull down.
pub const PINCM_PIPD: u32 = 0x1_0000;

/// PINCM.PIPU (bit 17): pull up.
pub const PINCM_PIPU: u32 = 0x2_0000;

/// The pull resistor of a pin.
#[derive(Debug, Clone, Copy, PartialEq, Eq, Structural)]
pub enum PullMode {
    /// No pull resistor.
    NoPull,
    Up,
    Down,
}

/// The PINCM word that connects a pin to peripheral `function` with pull resistor `pull`:
/// PF = function, PC set, PIPU set for a pull up, PIPD set for a pull down.
pub open spec fn spec_pincm(function: u8, pull: PullMode) -> u32 {
    (function as u32) | PINCM_PC | (if pull == PullMode::Down { PINCM_PIPD } else { 0 }) | (if pull
        == PullMode::Up { PINCM_PIPU } else { 0 })
}

/// The index of pin `pin`'s PINCM register and the word that connects it to peripheral
/// `function` with pull resistor `pull`.
pub fn pin_config(pin: usize, function: u8, pull: PullMode) -> (r: (usize, u32))
    requires
        IOMUX_FIRST_PIN <= pin <= IOMUX_LAST_PIN,
        function <= IOMUX_MAX_FUNCTION,
    ensures
        r.0 == pin - 1,
        r.1 == spec_pincm(function, pull),
{
    let pd: u32 = if pull == PullMode::Down { PINCM_PIPD } else { 0 };
    let pu: u32 = if pull == PullMode::Up { PINCM_PIPU } else { 0 };
    (pin - 1, (function as u32) | PINCM_PC | pd | pu)
}

/// The fields of a PINCM word read back as its function and pull resistor.
pub proof fn lemma_pincm_fields(function: u8, pull: PullMode)
    requires
        function <= IOMUX_MAX_FUNCTION,
    ensures
        ({
            let w = spec_pincm(function, pull);
            &&& w & 0x3f == function as u32
            &&& w & PINCM_PC == PINCM_PC
            &&& (w & PINCM_PIPU == PINCM_PIPU) == (pull == PullMode::Up)
            &&& (w & PINCM_PIPD == PINCM_PIPD) == (pull == PullMode::Down)
        }),
{
    let f = function as u32;
    let d: u32 = if pull == PullMode::Down { 0x1_0000 } else { 0 };
    let u: u32 = if pull == PullMode::Up { 0x2_0000 } else { 0 };
    assert(f <= 11 && (d == 0 || d == 0x1_0000) && (u == 0 || u == 0x2_0000) ==> {
        let w = f | 0x80 | d | u;
        &&& w & 0x3f == f
        &&& w & 0x80 == 0x80
        &&& (w & 0x2_0000 == 0x2_0000) == (u == 0x2_0000)
        &&& (w & 0x1_0000 == 0x1_0000) == (d == 0x1_0000)
    }) by (bit_vector);
}

} // verus!
