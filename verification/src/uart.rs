use vstd::prelude::*;
use crate::HalError;

verus! {

/// The baud rate that the UARTs are configured with.
pub const UART_FREQUENCY: u32 = 115200;

/// The baud-rate divisor for `freq`, in 64ths: `SYSOSC_FREQUENCY * 8 / freq`, halved and
/// rounded up (ti/driverlib/dl_uart.c).
pub open spec fn spec_divisor(freq: u32) -> int {
    ((crate::SYSOSC_FREQUENCY * 8) / (freq as int) + 1) / 2
}

/// The baud-rate divisor for `freq`, in 64ths of the 16x-oversampled bus clock.
pub fn divisor(freq: u32) -> (d: u32)
    requires
        freq > 0,
    ensures
        d == spec_divisor(freq),
        d <= 128_000_000,
{
    let q = (crate::SYSOSC_FREQUENCY * 8) / freq;
    q / 2 + q % 2
}

/// The IBRD (integer part) and FBRD (6-bit fractional part) register values for `freq`: the
/// divisor shifted right by 6, truncated to 16 bits, and its low 6 bits.
pub fn baud_divisors(freq: u32) -> (r: (u16, u8))
    requires
        freq > 0,
    ensures
        r.0 == (spec_divisor(freq) / 64) % 0x10000,
        r.1 == spec_divisor(freq) % 64,
{
    let div = divisor(freq);
    let ibrd = (div >> 6) as u16;
    let fbrd = (div & 0x3f) as u8;
    assert(ibrd == (div / 64) % 0x10000 && fbrd == div % 64) by (bit_vector)
        requires
            ibrd == (div >> 6) as u16,
            fbrd == (div & 0x3f) as u8,
    ;
    (ibrd, fbrd)
}

/// The divisor is half of `SYSOSC_FREQUENCY * 8 / freq`, rounded up: twice the divisor is that
/// quotient or one more.
pub proof fn lemma_divisor_rounds_up(freq: u32)
    requires
        freq > 0,
    ensures
        ({
            let q = 256_000_000int / (freq as int);
            &&& q <= 2 * spec_divisor(freq) <= q + 1
        }),
{
}

/// For every frequency whose divisor fits the 16 integer bits, the IBRD and FBRD values put
/// together give the divisor back.
pub proof fn lemma_baud_divisors_exact(freq: u32, ibrd: u16, fbrd: u8)
    requires
        freq > 0,
        spec_divisor(freq) < 0x40_0000,
        ibrd == (spec_divisor(freq) / 64) % 0x10000,
        fbrd == spec_divisor(freq) % 64,
    ensures
        64 * ibrd + fbrd == spec_divisor(freq),
{
}

/// The kind of receive error that a received word carries.
#[derive(Debug, Clone, Copy, PartialEq, Eq, Structural)]
pub enum ReadErrorKind {
    BrkErr,
    FrmErr,
    NErr,
    OvrErr,
    ParErr,
}

/// The error that is returned when a UART transfer fails.
#[derive(Debug)]
pub enum UartError {
    /// Read error; failed after reading the given number of bytes, with the kind of error, on the
    /// named UART.
    ReadError(usize, ReadErrorKind, &'static str),
    /// Write error.
    WriteError,
}

/// A word read from a UART's RXDATA register: the received byte and its error flags.
#[derive(Debug, Clone, Copy)]
pub struct RxWord {
    pub data: u8,
    pub brkerr: bool,
    pub frmerr: bool,
    pub nerr: bool,
    pub ovrerr: bool,
    pub parerr: bool,
}

/// The error a received word carries, if any: break, then framing, noise, overrun and parity.
pub open spec fn spec_rx_error(word: RxWord) -> Option<ReadErrorKind> {
    if word.brkerr {
        Some(ReadErrorKind::BrkErr)
    } else if word.frmerr {
        Some(ReadErrorKind::FrmErr)
    } else if word.nerr {
        Some(ReadErrorKind::NErr)
    } else if word.ovrerr {
        Some(ReadErrorKind::OvrErr)
    } else if word.parerr {
        Some(ReadErrorKind::ParErr)
    } else {
        None
    }
}

/// A break error is reported whatever else the word carries; a framing error unless there is a
/// break; noise unless there is a break or framing error; an overrun unless there is one of
/// those; a parity error only alone; a word with no error flag carries no error.
pub proof fn lemma_rx_error_priority(word: RxWord)
    ensures
        word.brkerr ==> spec_rx_error(word) == Some(ReadErrorKind::BrkErr),
        !word.brkerr && word.frmerr ==> spec_rx_error(word) == Some(ReadErrorKind::FrmErr),
        !word.brkerr && !word.frmerr && word.nerr ==> spec_rx_error(word) == Some(ReadErrorKind::NErr),
        !word.brkerr && !word.frmerr && !word.nerr && word.ovrerr ==> spec_rx_error(word) == Some(
            ReadErrorKind::OvrErr,
        ),
        !word.brkerr && !word.frmerr && !word.nerr && !word.ovrerr && word.parerr ==> spec_rx_error(
            word,
        ) == Some(ReadErrorKind::ParErr),
        !word.brkerr && !word.frmerr && !word.nerr && !word.ovrerr && !word.parerr ==> spec_rx_error(
            word,
        ) is None,
{
}

/// The error a received word carries, if any.
pub fn rx_error(word: &RxWord) -> (e: Option<ReadErrorKind>)
    ensures
        e == spec_rx_error(*word),
{
    if word.brkerr {
        Some(ReadErrorKind::BrkErr)
    } else if word.frmerr {
        Some(ReadErrorKind::FrmErr)
    } else if word.nerr {
        Some(ReadErrorKind::NErr)
    } else if word.ovrerr {
        Some(ReadErrorKind::OvrErr)
    } else if word.parerr {
        Some(ReadErrorKind::ParErr)
    } else {
        None
    }
}

/// The byte that word `index` of a read delivers on the UART named `uart`, or the read error
/// that stops the read after `index` bytes.
pub fn rx_byte(index: usize, word: &RxWord, uart: &'static str) -> (r: Result<u8, HalError>)
    ensures
        match spec_rx_error(*word) {
            Some(kind) => r == Err::<u8, HalError>(
                HalError::UartError(UartError::ReadError(index, kind, uart)),
            ),
            None => r == Ok::<u8, HalError>(word.data),
        },
{
    match rx_error(word) {
        Some(kind) => Err(HalError::UartError(UartError::ReadError(index, kind, uart))),
        None => Ok(word.data),
    }
}

} // verus!
