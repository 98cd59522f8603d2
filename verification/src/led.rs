use vstd::prelude::*;
use crate::lemma_single_bit;

verus! {

/// The colors of the board's RGB LED.
#[derive(Debug, Clone, Copy, PartialEq, Eq, Structural)]
pub enum LedColor {
    Red,
    Blue,
    Green,
}

/// A GPIO port.
#[derive(Debug, Clone, Copy, PartialEq, Eq, Structural)]
pub enum GpioPort {
    A,
    B,
}

impl LedColor {
    /// The GPIO port and pin of each color (LP-MSPM0L2228: PA16 blue, PB10 red, PB9 green).
    pub open spec fn spec_pin(self) -> (GpioPort, u8) {
        match self {
            LedColor::Blue => (GpioPort::A, 16),
            LedColor::Red => (GpioPort::B, 10),
            LedColor::Green => (GpioPort::B, 9),
        }
    }

    /// The GPIO port and pin that drive this color.
    pub fn pin(&self) -> (p: (GpioPort, u8))
        ensures
            p == self.spec_pin(),
            p.1 < 32,
    {
        match self {
            LedColor::Blue => (GpioPort::A, 16),
            LedColor::Red => (GpioPort::B, 10),
            LedColor::Green => (GpioPort::B, 9),
        }
    }
}

/// Each color has its own pin.
pub proof fn lemma_led_pins_distinct(a: LedColor, b: LedColor)
    ensures
        a.spec_pin() == b.spec_pin() ==> a == b,
{
}

/// The board's RGB LED is wired to PA16 (blue), PB10 (red) and PB9 (green).
pub proof fn lemma_led_wiring(c: LedColor)
    ensures
        c == LedColor::Blue ==> c.spec_pin().0 == GpioPort::A && c.spec_pin().1 == 16,
        c == LedColor::Red ==> c.spec_pin().0 == GpioPort::B && c.spec_pin().1 == 10,
        c == LedColor::Green ==> c.spec_pin().0 == GpioPort::B && c.spec_pin().1 == 9,
{
}

/// The IOMUX pins (PINCMx) of the LED: PINCM42 is PA16, PINCM30 is PB9, PINCM31 is PB10.
pub const LED_IOMUX_PINS: [usize; 3] = [42, 30, 31];

/// The DOUTCLR/DOESET word that selects GPIO pin `pin` of a port.
pub fn gpio_pin_mask(pin: u8) -> (m: u32)
    requires
        pin < 32,
    ensures
        forall|j: u32| j < 32 ==> (#[trigger] crate::spec_bit(m, j) <==> j == pin),
{
    let p = pin as u32;
    assert forall|j: u32| j < 32 implies (#[trigger] crate::spec_bit(1u32 << p, j) <==> j == p) by {
        lemma_single_bit(p, j);
    }
    1u32 << p
}

} // verus!
