use mspm0l222x_hal::uart::{
    baud_divisors, divisor, rx_byte, rx_error, ReadErrorKind, RxWord, UartError, UART_FREQUENCY,
};
use mspm0l222x_hal::HalError;

fn clean(data: u8) -> RxWord {
    RxWord { data, brkerr: false, frmerr: false, nerr: false, ovrerr: false, parerr: false }
}

#[test]
fn divisor_for_115200() {
    // 32MHz * 8 / 115200 = 2222, halved rounding up
    assert_eq!(divisor(UART_FREQUENCY), 1111);
    assert_eq!(baud_divisors(UART_FREQUENCY), (17, 23));
    assert_eq!(17 * 64 + 23, 1111);
}

#[test]
fn divisor_rounds_up() {
    // 256000000 / 9600 = 26666, halved: 13333
    assert_eq!(divisor(9600), 13333);
    // 256000000 / 3 = 85333333 (odd), rounded up: 42666667
    assert_eq!(divisor(3), 42666667);
    assert_eq!(divisor(256_000_000), 1);
    assert_eq!(divisor(u32::MAX), 0);
}

#[test]
fn baud_integer_part_truncates_to_16_bits() {
    let d = divisor(1);
    assert_eq!(d, 128_000_000);
    assert_eq!(baud_divisors(1), (((d >> 6) & 0xffff) as u16, (d & 0x3f) as u8));
}

#[test]
fn rx_error_priority() {
    let all = RxWord { data: 1, brkerr: true, frmerr: true, nerr: true, ovrerr: true, parerr: true };
    assert_eq!(rx_error(&all), Some(ReadErrorKind::BrkErr));
    let w = RxWord { brkerr: false, ..all };
    assert_eq!(rx_error(&w), Some(ReadErrorKind::FrmErr));
    let w = RxWord { frmerr: false, ..w };
    assert_eq!(rx_error(&w), Some(ReadErrorKind::NErr));
    let w = RxWord { nerr: false, ..w };
    assert_eq!(rx_error(&w), Some(ReadErrorKind::OvrErr));
    let w = RxWord { ovrerr: false, ..w };
    assert_eq!(rx_error(&w), Some(ReadErrorKind::ParErr));
    assert_eq!(rx_error(&clean(7)), None);
}

#[test]
fn rx_byte_delivers_or_fails_with_index() {
    assert!(matches!(rx_byte(0, &clean(0x41), "Uart0"), Ok(0x41)));
    let bad = RxWord { ovrerr: true, ..clean(0x41) };
    match rx_byte(3, &bad, "Uart0") {
        Err(HalError::UartError(UartError::ReadError(3, ReadErrorKind::OvrErr, name))) => {
            assert_eq!(name, "Uart0")
        }
        _ => panic!("expected a read error"),
    }
}
