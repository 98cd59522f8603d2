use mspm0l222x_hal::flash::{
    apply_protection, blank_verify_passed, check_error, check_sector_aligned, erase_result,
    merge_page, partial_rewrite_check, program_chunks, protection_masks, sector_mask,
    write_page_check, FlashError, FlashStatus, FLASH_PAGE_SIZE,
};
use mspm0l222x_hal::HalError;

fn status() -> FlashStatus {
    FlashStatus {
        cmd_done: true,
        cmd_pass: true,
        fail_weprot: false,
        fail_verify: false,
        fail_ill_addr: false,
        fail_mode: false,
        fail_inv_data: false,
    }
}

fn flash_err(r: Result<(), HalError>) -> Option<FlashError> {
    match r {
        Err(HalError::FlashError(e)) => Some(e),
        _ => None,
    }
}

#[test]
fn check_error_passes_done_and_passed() {
    assert!(check_error(&status()).is_ok());
}

#[test]
fn check_error_not_done() {
    let s = FlashStatus { cmd_done: false, cmd_pass: false, fail_verify: true, ..status() };
    assert_eq!(flash_err(check_error(&s)), Some(FlashError::StatNotDone));
}

#[test]
fn check_error_failure_priority() {
    let all = FlashStatus {
        cmd_pass: false,
        fail_weprot: true,
        fail_verify: true,
        fail_ill_addr: true,
        fail_mode: true,
        fail_inv_data: true,
        ..status()
    };
    assert_eq!(flash_err(check_error(&all)), Some(FlashError::InvData));
    let s = FlashStatus { fail_inv_data: false, ..all };
    assert_eq!(flash_err(check_error(&s)), Some(FlashError::FailVerify));
    let s = FlashStatus { fail_verify: false, ..s };
    assert_eq!(flash_err(check_error(&s)), Some(FlashError::InvalidMode));
    let s = FlashStatus { fail_mode: false, ..s };
    assert_eq!(flash_err(check_error(&s)), Some(FlashError::IllegalFlashAddress));
    let s = FlashStatus { fail_ill_addr: false, ..s };
    assert_eq!(flash_err(check_error(&s)), Some(FlashError::WriteProtectedFlashAddress));
    let s = FlashStatus { fail_weprot: false, ..s };
    assert_eq!(flash_err(check_error(&s)), Some(FlashError::Unknown));
}

#[test]
fn passed_status_ignores_failure_flags() {
    let s = FlashStatus { fail_weprot: true, ..status() };
    assert!(check_error(&s).is_ok());
}

#[test]
fn blank_verify() {
    assert!(blank_verify_passed(&status()));
    assert!(!blank_verify_passed(&FlashStatus { fail_verify: true, ..status() }));
    assert!(!blank_verify_passed(&FlashStatus { cmd_pass: false, ..status() }));
}

#[test]
fn sector_alignment() {
    assert!(check_sector_aligned(0).is_ok());
    assert!(check_sector_aligned(0x400).is_ok());
    assert_eq!(flash_err(check_sector_aligned(0x401)), Some(FlashError::Unaligned(10)));
}

#[test]
fn erase_maps_write_protection() {
    let r = erase_result(Err(HalError::FlashError(FlashError::WriteProtectedFlashAddress)));
    assert_eq!(flash_err(r), Some(FlashError::EraseWriteProtectedFlashAddress));
    let r = erase_result(Err(HalError::FlashError(FlashError::FailVerify)));
    assert_eq!(flash_err(r), Some(FlashError::FailVerify));
    assert!(erase_result(Ok(())).is_ok());
}

#[test]
fn write_page_checks_in_order() {
    assert_eq!(flash_err(write_page_check(0x401, false)), Some(FlashError::NotBlank(0x401)));
    assert_eq!(flash_err(write_page_check(0x3fff8, true)), Some(FlashError::OobFlashAddress));
    assert_eq!(flash_err(write_page_check(0x40000, true)), Some(FlashError::OobFlashAddress));
    assert_eq!(flash_err(write_page_check(0x401, true)), Some(FlashError::Unaligned(10)));
    assert!(write_page_check(0x3fc00, true).is_ok());
    assert!(write_page_check(0, true).is_ok());
}

#[test]
fn program_chunks_cover_the_page() {
    let mut page = [0u8; FLASH_PAGE_SIZE];
    for (i, b) in page.iter_mut().enumerate() {
        *b = i as u8;
    }
    let chunks = program_chunks(0x800, &page);
    assert_eq!(chunks.len(), 128);
    assert_eq!(chunks[0].address, 0x800);
    assert_eq!(chunks[1].address, 0x808);
    assert_eq!(chunks[127].address, 0x800 + 127 * 8);
    // little-endian host
    assert_eq!(chunks[0].data, [0x0302_0100, 0x0706_0504]);
    assert_eq!(chunks[1].data, [0x0b0a_0908, 0x0f0e_0d0c]);
}

#[test]
fn partial_rewrite_checks() {
    assert_eq!(flash_err(partial_rewrite_check(0x10, 0, 1)), Some(FlashError::Unaligned(10)));
    assert_eq!(flash_err(partial_rewrite_check(0x400, 1000, 25)), Some(FlashError::OobFlashAddress));
    assert!(partial_rewrite_check(0x400, 1000, 24).is_ok());
    assert!(partial_rewrite_check(0x400, 0, 1024).is_ok());
}

#[test]
fn merge_page_keeps_the_rest() {
    let old = [0xffu8; FLASH_PAGE_SIZE];
    let new = merge_page(&old, 1020, &[1, 2, 3, 4]);
    assert_eq!(&new[1020..], &[1, 2, 3, 4]);
    assert_eq!(new[1019], 0xff);
    assert_eq!(new[0], 0xff);
    let same = merge_page(&old, 5, &[]);
    assert_eq!(same, old);
}

#[test]
fn sector_masks() {
    assert_eq!(sector_mask(0, 0), 0);
    assert_eq!(sector_mask(0, 1), 1);
    assert_eq!(sector_mask(4, 8), 0xf0);
    assert_eq!(sector_mask(0, 32), 0xffff_ffff);
    assert_eq!(sector_mask(31, 32), 0x8000_0000);
}

#[test]
fn protection_masks_low_sectors() {
    // one 8-byte word in sector 0
    assert_eq!(protection_masks(0, 8), (Some(0b1), None));
    // a whole page at sector 2
    assert_eq!(protection_masks(0x800, 1024), (Some(0b100), None));
    // a range straddling sectors 1 and 2
    assert_eq!(protection_masks(0x7ff, 2), (Some(0b110), None));
    // the last 1KiB sector
    assert_eq!(protection_masks(0x7c00, 0x400), (Some(0x8000_0000), None));
}

#[test]
fn protection_masks_high_sectors() {
    // first 8KiB group past 32KiB
    assert_eq!(protection_masks(0x8000, 1024), (None, Some(0b1_0000)));
    assert_eq!(protection_masks(0x3fc00, 1024), (None, Some(0xffff_fff0)));
    // straddling 32KiB: only WEPROTB changes, from group 4
    assert_eq!(protection_masks(0x7c00, 0x800), (None, Some(0b1_0000)));
}

#[test]
fn protect_then_unprotect() {
    let reg = 0b1010_0001u32;
    let mask = 0b0000_0110u32;
    let protected = apply_protection(reg, mask, false);
    assert_eq!(protected, 0b1010_0111);
    assert_eq!(apply_protection(protected, mask, true), 0b1010_0001);
    assert_eq!(apply_protection(0xffff_ffff, mask, true), !mask);
}
