use mspm0l222x_hal::mpu::{
    clear_region_rbar, construct_rasr, construct_rbar, ctrl_enable_word, is_available,
    region_count, region_registers, sram_rw_boundary, MemoryCacheType, MpuError, MpuPerms,
    MpuRegionSize,
};
use mspm0l222x_hal::HalError;

fn perms(read: bool, write: bool, execute: bool) -> MpuPerms {
    MpuPerms { read, write, execute }
}

#[test]
fn rbar_holds_base_region_and_valid() {
    let r = construct_rbar(3, 0x2000_0000).unwrap();
    assert_eq!(r, 0x2000_0013);
    assert_eq!(r & 0xffff_ffe0, 0x2000_0000);
    assert_eq!(r & 0xf, 3);
    assert_eq!(construct_rbar(7, 0x20).unwrap(), 0x37);
}

#[test]
fn rbar_refuses_region_out_of_range() {
    assert!(matches!(
        construct_rbar(8, 0x2000_0000),
        Err(HalError::MpuError(MpuError::InvalidRegion(8)))
    ));
    // the region number is checked before the alignment
    assert!(matches!(
        construct_rbar(9, 0x2000_0001),
        Err(HalError::MpuError(MpuError::InvalidRegion(9)))
    ));
}

#[test]
fn rbar_refuses_unaligned_base() {
    assert!(matches!(
        construct_rbar(0, 0x2000_0010),
        Err(HalError::MpuError(MpuError::UnalignedBaseAddress(0x2000_0010)))
    ));
}

#[test]
fn rasr_encodes_each_field() {
    let r = construct_rasr(
        MpuRegionSize::KibiByte32,
        0,
        perms(true, true, false),
        MemoryCacheType::WriteBackUnshared,
    );
    // XN | AP=001 | TEX/S/C/B=000011 | SIZE=0xE | ENABLE
    assert_eq!(r, 0x1000_0000 | 0x0100_0000 | (3 << 16) | (0xE << 1) | 1);
    let r = construct_rasr(
        MpuRegionSize::Bytes32,
        0xA5,
        perms(true, false, true),
        MemoryCacheType::DeviceShared,
    );
    assert_eq!(r, 0x0500_0000 | (1 << 16) | (0xA5 << 8) | (4 << 1) | 1);
    let r = construct_rasr(
        MpuRegionSize::GibiByte4,
        0,
        perms(false, false, false),
        MemoryCacheType::StronglyOrdered,
    );
    assert_eq!(r, 0x1000_0000 | (0x1F << 1) | 1);
}

#[test]
fn write_without_read_is_read_write() {
    let a = construct_rasr(MpuRegionSize::Bytes64, 0, perms(false, true, true), MemoryCacheType::StronglyOrdered);
    assert_eq!((a >> 24) & 7, 1);
}

#[test]
fn memory_type_bits() {
    assert_eq!(MemoryCacheType::StronglyOrdered.to_bits(), 0);
    assert_eq!(MemoryCacheType::DeviceShared.to_bits(), 1);
    assert_eq!(MemoryCacheType::WriteBackUnshared.to_bits(), 3);
    assert_eq!(MemoryCacheType::make_memory_type_bits(5, 1, 0, 1), (5 << 3) | (1 << 2) | (1 << 1));
    assert_eq!(MemoryCacheType::make_memory_type_bits(0xff, 2, 3, 4), (7 << 3) | 1);
}

#[test]
fn region_size_encodings() {
    assert_eq!(MpuRegionSize::Bytes32.encoding(), 0x4);
    assert_eq!(MpuRegionSize::KibiByte1.encoding(), 0x9);
    assert_eq!(MpuRegionSize::MibiByte1.encoding(), 0x13);
    assert_eq!(MpuRegionSize::GibiByte4.encoding(), 0x1F);
    // actual size is 2^(SIZE + 1)
    assert_eq!(1u64 << (MpuRegionSize::KibiByte256.encoding() + 1), 256 * 1024);
}

#[test]
fn set_region_words_and_errors() {
    let (rbar, rasr) = region_registers(
        1,
        0x2000_4000,
        MpuRegionSize::KibiByte16,
        0,
        perms(true, false, true),
        MemoryCacheType::WriteBackUnshared,
    )
    .unwrap();
    assert_eq!(rbar, 0x2000_4011);
    assert_eq!(rasr, 0x0500_0000 | (3 << 16) | (0xD << 1) | 1);
    assert!(matches!(
        region_registers(1, 0x3, MpuRegionSize::Bytes32, 0, perms(true, true, true), MemoryCacheType::StronglyOrdered),
        Err(HalError::MpuError(MpuError::UnalignedBaseAddress(3)))
    ));
}

#[test]
fn clear_region_selects_region() {
    assert_eq!(clear_region_rbar(5).unwrap(), 0x15);
    assert!(matches!(
        clear_region_rbar(8),
        Err(HalError::MpuError(MpuError::InvalidRegion(8)))
    ));
}

#[test]
fn ctrl_and_type_register() {
    assert_eq!(ctrl_enable_word(), 0b111);
    assert_eq!(region_count(0x0000_0800), 8);
    assert_eq!(region_count(0xffff_00ff), 0);
    assert!(is_available(0x0000_0800));
    assert!(!is_available(0x0000_00ff));
}

#[test]
fn sram_boundary_checks() {
    assert!(matches!(
        sram_rw_boundary(0),
        Err(HalError::MpuError(MpuError::ZeroLength))
    ));
    assert!(sram_rw_boundary(1).is_ok());
    assert!(sram_rw_boundary(0x8000).is_ok());
    assert!(matches!(
        sram_rw_boundary(0x8001),
        Err(HalError::MpuError(MpuError::PastBoundary(0x8001)))
    ));
}
