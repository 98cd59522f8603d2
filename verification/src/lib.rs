//! Register-level logic of a hardware abstraction layer for the MSPM0L2228
//! microcontroller: buffer cursors, DMA, flash, IOMUX, LED/GPIO, MPU, SysTick,
//! TRNG, AES and UART register encodings and decision procedures.
#![allow(unused_imports)]

use vstd::prelude::*;

pub mod aes;
pub mod cursor;
pub mod dma;
pub mod flash;
pub mod gprcm;
pub mod iomux;
pub mod led;
pub mod mpu;
pub mod timer;
pub mod trng;
pub mod uart;
pub mod words;

verus! {

// clock speeds of base clocks
/// The system oscillator frequency is 32MHz. (Reference Manual 2.3.2.1)
pub const SYSOSC_FREQUENCY: u32 = 32_000_000;

/// The low frequency clock frequency is is 32kHz. (Reference Manual 2.3.2.6)
pub const LFCLK_FREQUENCY: u32 = 32_000;

/// The middle frequency clock frequency is 4MHz. (Reference Manual 2.3.2.4)
pub const MFCLK_FREQUENCY: u32 = 4_000_000;

/// The real-time clock frequency matches the low frequency clock, being 32kHz. (Reference Manual 2.3.2.10)
pub const RTCCLK_FREQUENCY: u32 = 32_000;

/// Key for register that controls power state.
pub const PWREN_WRITE_KEY: u32 = 0x26000000;

/// Key for register that controls reset assertion and de-assertion.
pub const RSTCTL_WRITE_KEY: u32 = 0xB1000000;

/// The flash size is 256KiB.
pub const FLASH_SIZE: u32 = 0x40000;

/// The SRAM size is 32KiB.
pub const SRAM_SIZE: u32 = 0x8000;

/// Whether bit `j` of `word` is set.
pub open spec fn spec_bit(word: u32, j: u32) -> bool {
    (word >> j) & 1 == 1
}

/// Exactly bit `n` of `1 << n` is set.
pub proof fn lemma_single_bit(n: u32, k: u32)
    by (bit_vector)
    requires
        n < 32,
        k < 32,
    ensures
        (((1u32 << n) >> k) & 1 == 1) == (k == n),
{
}

/// The error that is returned when something has gone wrong with the HAL, whether in flash, uart,
/// mpu, or with an unknown cause.
#[derive(Debug)]
pub enum HalError {
    /// The error is unknown.
    Unknown,
    /// There was an error during an operation with the flash.
    FlashError(flash::FlashError),
    /// There was an error during an operation with the uart.
    UartError(uart::UartError),
    /// There was an error during an operation with the mpu.
    MpuError(mpu::MpuError),
}

impl From<flash::FlashError> for HalError {
    fn from(e: flash::FlashError) -> (r: Self) {
        HalError::FlashError(e)
    }
}

impl vstd::std_specs::convert::FromSpecImpl<flash::FlashError> for HalError {
    open spec fn obeys_from_spec() -> bool {
        true
    }

    open spec fn from_spec(e: flash::FlashError) -> HalError {
        HalError::FlashError(e)
    }
}

impl From<uart::UartError> for HalError {
    fn from(e: uart::UartError) -> (r: Self) {
        HalError::UartError(e)
    }
}

impl vstd::std_specs::convert::FromSpecImpl<uart::UartError> for HalError {
    open spec fn obeys_from_spec() -> bool {
        true
    }

    open spec fn from_spec(e: uart::UartError) -> HalError {
        HalError::UartError(e)
    }
}

impl From<mpu::MpuError> for HalError {
    fn from(e: mpu::MpuError) -> (r: Self) {
        HalError::MpuError(e)
    }
}

impl vstd::std_specs::convert::FromSpecImpl<mpu::MpuError> for HalError {
    open spec fn obeys_from_spec() -> bool {
        true
    }

    open spec fn from_spec(e: mpu::MpuError) -> HalError {
        HalError::MpuError(e)
    }
}

} // verus!
