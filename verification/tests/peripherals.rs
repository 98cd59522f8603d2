use mspm0l222x_hal::aes::{block_to_words, words_to_block};
use mspm0l222x_hal::gprcm::{power_on_word, reset_word};
use mspm0l222x_hal::iomux::{pin_config, PullMode};
use mspm0l222x_hal::led::{gpio_pin_mask, GpioPort, LedColor, LED_IOMUX_PINS};
use mspm0l222x_hal::timer::SysTickConfig;
use mspm0l222x_hal::flash::FlashError;
use mspm0l222x_hal::mpu::MpuError;
use mspm0l222x_hal::uart::UartError;
use mspm0l222x_hal::{HalError, FLASH_SIZE, SRAM_SIZE};

#[test]
fn memory_sizes() {
    assert_eq!(FLASH_SIZE, 256 * 1024);
    assert_eq!(SRAM_SIZE, 32 * 1024);
}

#[test]
fn gprcm_words() {
    assert_eq!(reset_word(), 0xB100_0003);
    assert_eq!(power_on_word(), 0x2600_0001);
}

#[test]
fn iomux_pin_config() {
    assert_eq!(pin_config(1, 0, PullMode::NoPull), (0, 0x80));
    assert_eq!(pin_config(74, 11, PullMode::Up), (73, 11 | 0x80 | 0x2_0000));
    assert_eq!(pin_config(42, 1, PullMode::Down), (41, 1 | 0x80 | 0x1_0000));
}

#[test]
fn led_pins() {
    assert_eq!(LedColor::Blue.pin(), (GpioPort::A, 16));
    assert_eq!(LedColor::Red.pin(), (GpioPort::B, 10));
    assert_eq!(LedColor::Green.pin(), (GpioPort::B, 9));
    assert_eq!(LED_IOMUX_PINS, [42, 30, 31]);
}

#[test]
fn gpio_masks() {
    assert_eq!(gpio_pin_mask(0), 1);
    assert_eq!(gpio_pin_mask(16), 0x1_0000);
    assert_eq!(gpio_pin_mask(31), 0x8000_0000);
}

#[test]
fn systick_words() {
    assert_eq!(SysTickConfig::enable_csr(), 0b111);
    assert_eq!(SysTickConfig::disable_csr(0b111), 0b110);
    assert_eq!(SysTickConfig::disable_csr(0x1_0004), 0x1_0004);
}

#[test]
fn aes_block_words() {
    let key: [u8; 16] = [0, 1, 2, 3, 4, 5, 6, 7, 8, 9, 10, 11, 12, 13, 14, 15];
    let words = block_to_words(&key);
    assert_eq!(words, [0x0302_0100, 0x0706_0504, 0x0b0a_0908, 0x0f0e_0d0c]);
    assert_eq!(words_to_block(&words), key);
    assert_eq!(words_to_block(&[0x1234_5678, 0, 0, 0xff]), [0x78, 0x56, 0x34, 0x12, 0, 0, 0, 0, 0, 0, 0, 0, 0xff, 0, 0, 0]);
}

#[test]
fn errors_convert_into_hal_error() {
    let e: HalError = FlashError::NotBlank(0x400).into();
    assert!(matches!(e, HalError::FlashError(FlashError::NotBlank(0x400))));
    let e: HalError = MpuError::ZeroLength.into();
    assert!(matches!(e, HalError::MpuError(MpuError::ZeroLength)));
    let e: HalError = UartError::WriteError.into();
    assert!(matches!(e, HalError::UartError(UartError::WriteError)));
}
