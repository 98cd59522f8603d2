use vstd::prelude::*;
use crate::HalError;

verus! {

// Region base address uses bits [31:5]; bits [3:0] select region when VALID is set.
/// The bits of RBAR that hold the region's base address.
pub const RBAR_ADDR_MASK: u32 = 0xffffffe0;

/// The bits of RBAR that select the region.
pub const RBAR_REGION_MASK: u32 = 0xf;

/// RBAR.VALID: the region number in RBAR is used.
pub const RBAR_VALID: u32 = 0x10;

/// RASR.XN: instruction fetches are not allowed.
pub const RASR_EXECUTE_DISABLE: u32 = 0x1000_0000;

/// RASR.AP encoding: no access.
pub const RASR_AP_NO_ACCESS: u32 = 0;

/// RASR.AP encoding: privileged read/write.
pub const RASR_AP_PRIV_RW: u32 = 0x0100_0000;

/// RASR.AP encoding: privileged read-only.
pub const RASR_AP_PRIV_RO: u32 = 0x0500_0000;

/// RASR.ENABLE: the region is enabled.
pub const RASR_ENABLED: u32 = 1;

/// MPU_CTRL.ENABLE.
pub const MPU_CTRL_ENABLE: u32 = 1;

/// MPU_CTRL.HFNMIENA: the MPU stays on in HardFault and NMI handlers.
pub const MPU_CTRL_HFNMIENA: u32 = 2;

/// MPU_CTRL.PRIVDEFENA: privileged software falls back to the default memory map.
pub const MPU_CTRL_PRIVDEFENA: u32 = 4;

/// The number of regions this MPU driver configures.
pub const MPU_MAX_REGIONS: u32 = 8;

/// Access permissions for an MPU region.
#[derive(Debug, Clone, Copy)]
pub struct MpuPerms {
    pub read: bool,
    pub write: bool,
    pub execute: bool,
}

/// MPU region size encoding for RASR.SIZE (actual size is 2^(SIZE + 1)).
#[derive(Debug, Clone, Copy)]
pub enum MpuRegionSize {
    Bytes32,
    Bytes64,
    Bytes128,
    Bytes256,
    Bytes512,
    KibiByte1,
    KibiByte2,
    KibiByte4,
    KibiByte8,
    KibiByte16,
    KibiByte32,
    KibiByte64,
    KibiByte128,
    KibiByte256,
    KibiByte512,
    MibiByte1,
    MibiByte2,
    MibiByte4,
    MibiByte8,
    MibiByte16,
    MibiByte32,
    MibiByte64,
    MibiByte128,
    MibiByte256,
    MibiByte512,
    GibiByte1,
    GibiByte2,
    GibiByte4,
}

impl MpuRegionSize {
    /// The RASR.SIZE field of each size.
    pub open spec fn spec_encoding(self) -> u32 {
        match self {
            MpuRegionSize::Bytes32 => 0x4,
            MpuRegionSize::Bytes64 => 0x5,
            MpuRegionSize::Bytes128 => 0x6,
            MpuRegionSize::Bytes256 => 0x7,
            MpuRegionSize::Bytes512 => 0x8,
            MpuRegionSize::KibiByte1 => 0x9,
            MpuRegionSize::KibiByte2 => 0xA,
            MpuRegionSize::KibiByte4 => 0xB,
            MpuRegionSize::KibiByte8 => 0xC,
            MpuRegionSize::KibiByte16 => 0xD,
            MpuRegionSize::KibiByte32 => 0xE,
            MpuRegionSize::KibiByte64 => 0xF,
            MpuRegionSize::KibiByte128 => 0x10,
            MpuRegionSize::KibiByte256 => 0x11,
            MpuRegionSize::KibiByte512 => 0x12,
            MpuRegionSize::MibiByte1 => 0x13,
            MpuRegionSize::MibiByte2 => 0x14,
            MpuRegionSize::MibiByte4 => 0x15,
            MpuRegionSize::MibiByte8 => 0x16,
            MpuRegionSize::MibiByte16 => 0x17,
            MpuRegionSize::MibiByte32 => 0x18,
            MpuRegionSize::MibiByte64 => 0x19,
            MpuRegionSize::MibiByte128 => 0x1A,
            MpuRegionSize::MibiByte256 => 0x1B,
            MpuRegionSize::MibiByte512 => 0x1C,
            MpuRegionSize::GibiByte1 => 0x1D,
            MpuRegionSize::GibiByte2 => 0x1E,
            MpuRegionSize::GibiByte4 => 0x1F,
        }
    }

    /// The number of bytes that each size names.
    pub open spec fn bytes(self) -> nat {
        match self {
            MpuRegionSize::Bytes32 => 32,
            MpuRegionSize::Bytes64 => 64,
            MpuRegionSize::Bytes128 => 128,
            MpuRegionSize::Bytes256 => 256,
            MpuRegionSize::Bytes512 => 512,
            MpuRegionSize::KibiByte1 => 1024,
            MpuRegionSize::KibiByte2 => 2 * 1024,
            MpuRegionSize::KibiByte4 => 4 * 1024,
            MpuRegionSize::KibiByte8 => 8 * 1024,
            MpuRegionSize::KibiByte16 => 16 * 1024,
            MpuRegionSize::KibiByte32 => 32 * 1024,
            MpuRegionSize::KibiByte64 => 64 * 1024,
            MpuRegionSize::KibiByte128 => 128 * 1024,
            MpuRegionSize::KibiByte256 => 256 * 1024,
            MpuRegionSize::KibiByte512 => 512 * 1024,
            MpuRegionSize::MibiByte1 => 1024 * 1024,
            MpuRegionSize::MibiByte2 => 2 * 1024 * 1024,
            MpuRegionSize::MibiByte4 => 4 * 1024 * 1024,
            MpuRegionSize::MibiByte8 => 8 * 1024 * 1024,
            MpuRegionSize::MibiByte16 => 16 * 1024 * 1024,
            MpuRegionSize::MibiByte32 => 32 * 1024 * 1024,
            MpuRegionSize::MibiByte64 => 64 * 1024 * 1024,
            MpuRegionSize::MibiByte128 => 128 * 1024 * 1024,
            MpuRegionSize::MibiByte256 => 256 * 1024 * 1024,
            MpuRegionSize::MibiByte512 => 512 * 1024 * 1024,
            MpuRegionSize::GibiByte1 => 1024 * 1024 * 1024,
            MpuRegionSize::GibiByte2 => 2 * 1024 * 1024 * 1024,
            MpuRegionSize::GibiByte4 => 4 * 1024 * 1024 * 1024,
        }
    }

    /// The RASR.SIZE field of this size.
    pub fn encoding(&self) -> (e: u32)
        ensures
            e == self.spec_encoding(),
    {
        match self {
            MpuRegionSize::Bytes32 => 0x4,
            MpuRegionSize::Bytes64 => 0x5,
            MpuRegionSize::Bytes128 => 0x6,
            MpuRegionSize::Bytes256 => 0x7,
            MpuRegionSize::Bytes512 => 0x8,
            MpuRegionSize::KibiByte1 => 0x9,
            MpuRegionSize::KibiByte2 => 0xA,
            MpuRegionSize::KibiByte4 => 0xB,
            MpuRegionSize::KibiByte8 => 0xC,
            MpuRegionSize::KibiByte16 => 0xD,
            MpuRegionSize::KibiByte32 => 0xE,
            MpuRegionSize::KibiByte64 => 0xF,
            MpuRegionSize::KibiByte128 => 0x10,
            MpuRegionSize::KibiByte256 => 0x11,
            MpuRegionSize::KibiByte512 => 0x12,
            MpuRegionSize::MibiByte1 => 0x13,
            MpuRegionSize::MibiByte2 => 0x14,
            MpuRegionSize::MibiByte4 => 0x15,
            MpuRegionSize::MibiByte8 => 0x16,
            MpuRegionSize::MibiByte16 => 0x17,
            MpuRegionSize::MibiByte32 => 0x18,
            MpuRegionSize::MibiByte64 => 0x19,
            MpuRegionSize::MibiByte128 => 0x1A,
            MpuRegionSize::MibiByte256 => 0x1B,
            MpuRegionSize::MibiByte512 => 0x1C,
            MpuRegionSize::GibiByte1 => 0x1D,
            MpuRegionSize::GibiByte2 => 0x1E,
            MpuRegionSize::GibiByte4 => 0x1F,
        }
    }
}

/// Every region size covers 2^(SIZE + 1) bytes, SIZE being its RASR.SIZE encoding.
pub proof fn lemma_region_size_is_power_of_two(size: MpuRegionSize)
    ensures
        size.bytes() == vstd::arithmetic::power2::pow2((size.spec_encoding() + 1) as nat),
        4 <= size.spec_encoding() <= 0x1f,
{
    vstd::arithmetic::power2::lemma2_to64();
}

/// Cache/shareability policy for an MPU region.
#[derive(Debug, Clone, Copy)]
pub enum MemoryCacheType {
    StronglyOrdered,
    DeviceShared,
    WriteBackUnshared,
}

/// The TEX/S/C/B bit layout of RASR bits [21:16], shifted down to bit 0.
pub open spec fn spec_memory_type_bits(tex: u32, c: u32, b: u32, s: u32) -> u32 {
    ((tex & 7) << 3) | ((s & 1) << 2) | ((c & 1) << 1) | (b & 1)
}

impl MemoryCacheType {
    /// The TEX, C, B and S values of each policy.
    pub open spec fn tex_c_b_s(self) -> (u32, u32, u32, u32) {
        match self {
            MemoryCacheType::StronglyOrdered => (0, 0, 0, 0),
            MemoryCacheType::DeviceShared => (0, 0, 1, 0),
            MemoryCacheType::WriteBackUnshared => (0, 1, 1, 0),
        }
    }

    /// The TEX/S/C/B encoding of this policy.
    pub open spec fn spec_to_bits(self) -> u32 {
        let (tex, c, b, s) = self.tex_c_b_s();
        spec_memory_type_bits(tex, c, b, s)
    }

    /// Packs TEX, S, C and B into the 6-bit RASR memory type field.
    pub fn make_memory_type_bits(tex: u32, c: u32, b: u32, s: u32) -> (r: u32)
        ensures
            r == spec_memory_type_bits(tex, c, b, s),
            r < 64,
            (r >> 3) & 7 == tex & 7,
            (r >> 2) & 1 == s & 1,
            (r >> 1) & 1 == c & 1,
            r & 1 == b & 1,
    {
        let r = ((tex & 7) << 3) | ((s & 1) << 2) | ((c & 1) << 1) | (b & 1);
        assert(r < 64 && (r >> 3) & 7 == tex & 7 && (r >> 2) & 1 == s & 1 && (r >> 1) & 1 == c & 1
            && r & 1 == b & 1) by (bit_vector)
            requires
                r == ((tex & 7) << 3) | ((s & 1) << 2) | ((c & 1) << 1) | (b & 1),
        ;
        r
    }

    /// Convert to TEX/C/B/S encoding used by RASR.
    pub fn to_bits(self) -> (r: u32)
        ensures
            r == self.spec_to_bits(),
            r == match self {
                MemoryCacheType::StronglyOrdered => 0u32,
                MemoryCacheType::DeviceShared => 1u32,
                MemoryCacheType::WriteBackUnshared => 3u32,
            },
    {
        let r = match self {
            Self::StronglyOrdered => Self::make_memory_type_bits(0, 0, 0, 0),
            Self::DeviceShared => Self::make_memory_type_bits(0, 0, 1, 0),
            Self::WriteBackUnshared => Self::make_memory_type_bits(0, 1, 1, 0),
        };
        assert(spec_memory_type_bits(0, 0, 0, 0) == 0) by (bit_vector);
        assert(spec_memory_type_bits(0, 0, 1, 0) == 1) by (bit_vector);
        assert(spec_memory_type_bits(0, 1, 1, 0) == 3) by (bit_vector);
        r
    }
}

/// The error that is returned when an MPU or SRAM boundary request is refused.
#[derive(Debug, PartialEq, Eq, Structural)]
pub enum MpuError {
    /// Attempted to set SRAM RW region to length of 0.
    ZeroLength,
    /// Attempted to set SRAM boundary past the end of SRAM.
    PastBoundary(u32),
    /// The region number is out of range.
    InvalidRegion(u32),
    /// The base address is not 32-byte aligned.
    UnalignedBaseAddress(u32),
}

/// RASR.XN for the given permissions.
pub open spec fn spec_execute_disable(permissions: MpuPerms) -> u32 {
    if permissions.execute { 0 } else { RASR_EXECUTE_DISABLE }
}

/// RASR.AP for the given permissions: writable regions are privileged read/write, readable
/// ones privileged read-only, the others not accessible.
pub open spec fn spec_access_perms(permissions: MpuPerms) -> u32 {
    if permissions.write {
        RASR_AP_PRIV_RW
    } else if permissions.read {
        RASR_AP_PRIV_RO
    } else {
        RASR_AP_NO_ACCESS
    }
}

/// The RASR word for a region.
pub open spec fn spec_rasr(
    size: MpuRegionSize,
    disable_mask: u8,
    permissions: MpuPerms,
    cache_type: MemoryCacheType,
) -> u32 {
    spec_execute_disable(permissions) | spec_access_perms(permissions) | (cache_type.spec_to_bits()
        << 16) | ((disable_mask as u32) << 8) | (size.spec_encoding() << 1) | RASR_ENABLED
}

/// When construct_rbar refuses a region number and base address, and with which error.
pub open spec fn spec_rbar_error(region_number: u32, base_address: u32) -> Option<MpuError> {
    if region_number >= MPU_MAX_REGIONS {
        Some(MpuError::InvalidRegion(region_number))
    } else if base_address & !RBAR_ADDR_MASK != 0 {
        Some(MpuError::UnalignedBaseAddress(base_address))
    } else {
        None
    }
}

/// The RBAR word of a valid region number and base address.
pub open spec fn spec_rbar(region_number: u32, base_address: u32) -> u32 {
    (base_address & RBAR_ADDR_MASK) | (region_number & RBAR_REGION_MASK) | RBAR_VALID
}

/// Builds the RBAR word that selects region `region_number` at `base_address`.
pub fn construct_rbar(region_number: u32, base_address: u32) -> (r: Result<u32, HalError>)
    ensures
        match spec_rbar_error(region_number, base_address) {
            Some(e) => r == Err::<u32, HalError>(HalError::MpuError(e)),
            None => r == Ok::<u32, HalError>(spec_rbar(region_number, base_address)),
        },
{
    if region_number >= MPU_MAX_REGIONS {
        return Err(HalError::MpuError(MpuError::InvalidRegion(region_number)));
    }
    if base_address & !RBAR_ADDR_MASK != 0 {
        return Err(HalError::MpuError(MpuError::UnalignedBaseAddress(base_address)));
    }
    Ok((base_address & RBAR_ADDR_MASK) | (region_number & RBAR_REGION_MASK) | RBAR_VALID)
}

/// An accepted RBAR word holds the base address in its address bits, the region number in its
/// region bits, and has VALID set.
pub proof fn lemma_rbar_fields(region_number: u32, base_address: u32)
    requires
        spec_rbar_error(region_number, base_address) is None,
    ensures
        spec_rbar(region_number, base_address) & RBAR_ADDR_MASK == base_address,
        spec_rbar(region_number, base_address) & RBAR_REGION_MASK == region_number,
        spec_rbar(region_number, base_address) & RBAR_VALID == RBAR_VALID,
{
    assert((base_address & 0x1f) == 0 && region_number < 8 ==> {
        let r = (base_address & 0xffffffe0) | (region_number & 0xf) | 0x10;
        &&& r & 0xffffffe0 == base_address
        &&& r & 0xf == region_number
        &&& r & 0x10 == 0x10
    }) by (bit_vector);
    assert(base_address & !0xffffffe0u32 == base_address & 0x1f) by (bit_vector);
}

/// Builds the RASR word of a region with the given size, subregion disable mask,
/// permissions and memory type.
pub fn construct_rasr(
    size: MpuRegionSize,
    disable_mask: u8,
    permissions: MpuPerms,
    cache_type: MemoryCacheType,
) -> (r: u32)
    ensures
        r == spec_rasr(size, disable_mask, permissions, cache_type),
{
    let execute_disable = if permissions.execute {
        0
    } else {
        RASR_EXECUTE_DISABLE
    };

    let access_perms = match (permissions.read, permissions.write) {
        (false, false) => RASR_AP_NO_ACCESS,
        (true, false) => RASR_AP_PRIV_RO,
        (_, true) => RASR_AP_PRIV_RW,
    };

    let cache_bits = cache_type.to_bits();
    let size_bits = size.encoding();
    assert(cache_bits <= 3);
    assert(size_bits <= 0x1f);
    execute_disable | access_perms | (cache_bits << 16) | ((disable_mask as u32) << 8) | (size_bits
        << 1) | RASR_ENABLED
}

/// The fields of a RASR word read back as what construct_rasr was given: XN is set exactly when
/// execution is not permitted, AP holds the access encoding, TEX/S/C/B the memory type, SRD the
/// subregion disable mask, SIZE the size encoding, and ENABLE is set.
pub proof fn lemma_rasr_fields(
    size: MpuRegionSize,
    disable_mask: u8,
    permissions: MpuPerms,
    cache_type: MemoryCacheType,
)
    ensures
        ({
            let r = spec_rasr(size, disable_mask, permissions, cache_type);
            &&& ((r >> 28) & 1 == 1) == !permissions.execute
            &&& (r >> 24) & 7 == spec_access_perms(permissions) >> 24
            &&& (r >> 16) & 0x3f == cache_type.spec_to_bits()
            &&& (r >> 8) & 0xff == disable_mask as u32
            &&& (r >> 1) & 0x1f == size.spec_encoding()
            &&& r & 1 == 1
        }),
{
    let xn = spec_execute_disable(permissions);
    let ap = spec_access_perms(permissions);
    let c = cache_type.spec_to_bits();
    let m = disable_mask as u32;
    let e = size.spec_encoding();
    assert(c <= 3) by {
        assert(spec_memory_type_bits(0, 0, 0, 0) == 0) by (bit_vector);
        assert(spec_memory_type_bits(0, 0, 1, 0) == 1) by (bit_vector);
        assert(spec_memory_type_bits(0, 1, 1, 0) == 3) by (bit_vector);
    }
    assert((xn == 0 || xn == 0x1000_0000) && (ap == 0 || ap == 0x0100_0000 || ap == 0x0500_0000)
        && c <= 3 && m < 256 && e <= 0x1f ==> {
        let r = xn | ap | (c << 16) | (m << 8) | (e << 1) | 1;
        &&& ((r >> 28) & 1 == 1) == (xn == 0x1000_0000)
        &&& (r >> 24) & 7 == ap >> 24
        &&& (r >> 16) & 0x3f == c
        &&& (r >> 8) & 0xff == m
        &&& (r >> 1) & 0x1f == e
        &&& r & 1 == 1
    }) by (bit_vector);
}

/// The access bits of a region follow its permissions: AP is 0b001 (privileged read/write) for a
/// writable region, 0b101 (privileged read-only) for a region that is readable and not writable,
/// whatever its execute permission, and 0b000 (no access) otherwise; XN is set exactly when the
/// region may not be executed.
pub proof fn lemma_rasr_access(
    size: MpuRegionSize,
    disable_mask: u8,
    permissions: MpuPerms,
    cache_type: MemoryCacheType,
)
    ensures
        ({
            let r = spec_rasr(size, disable_mask, permissions, cache_type);
            &&& permissions.write ==> (r >> 24) & 7 == 1
            &&& permissions.read && !permissions.write ==> (r >> 24) & 7 == 5
            &&& !permissions.read && !permissions.write ==> (r >> 24) & 7 == 0
            &&& (r >> 28) & 1 == if permissions.execute { 0u32 } else { 1u32 }
        }),
{
    lemma_rasr_fields(size, disable_mask, permissions, cache_type);
    assert(0x0100_0000u32 >> 24 == 1 && 0x0500_0000u32 >> 24 == 5 && 0u32 >> 24 == 0) by (bit_vector);
    let r = spec_rasr(size, disable_mask, permissions, cache_type);
    assert((r >> 28) & 1 == 1 || (r >> 28) & 1 == 0) by (bit_vector);
}

/// The RBAR and RASR words that configure one MPU region with base, size, permissions, and
/// memory type; the request is refused as construct_rbar refuses it.
pub fn region_registers(
    region_number: u32,
    base_address: u32,
    region_size: MpuRegionSize,
    disable_mask: u8,
    permissions: MpuPerms,
    cache_type: MemoryCacheType,
) -> (r: Result<(u32, u32), HalError>)
    ensures
        match spec_rbar_error(region_number, base_address) {
            Some(e) => r == Err::<(u32, u32), HalError>(HalError::MpuError(e)),
            None => r == Ok::<(u32, u32), HalError>(
                (
                    spec_rbar(region_number, base_address),
                    spec_rasr(region_size, disable_mask, permissions, cache_type),
                ),
            ),
        },
{
    let rbar = match construct_rbar(region_number, base_address) {
        Ok(v) => v,
        Err(e) => return Err(e),
    };
    let rasr = construct_rasr(region_size, disable_mask, permissions, cache_type);
    Ok((rbar, rasr))
}

/// The RBAR word that selects region `region_number` for disabling it (base address 0); the
/// RASR word written with it is 0.
pub fn clear_region_rbar(region_number: u32) -> (r: Result<u32, HalError>)
    ensures
        region_number >= MPU_MAX_REGIONS ==> r == Err::<u32, HalError>(
            HalError::MpuError(MpuError::InvalidRegion(region_number)),
        ),
        region_number < MPU_MAX_REGIONS ==> r == Ok::<u32, HalError>(spec_rbar(region_number, 0)),
{
    assert(0u32 & !0xffffffe0u32 == 0) by (bit_vector);
    construct_rbar(region_number, 0)
}

/// The MPU_CTRL word that enables the MPU and keeps the default map for privileged access.
pub fn ctrl_enable_word() -> (r: u32)
    ensures
        r == MPU_CTRL_ENABLE | MPU_CTRL_HFNMIENA | MPU_CTRL_PRIVDEFENA,
        r == 7,
{
    assert(1u32 | 2u32 | 4u32 == 7) by (bit_vector);
    MPU_CTRL_ENABLE | MPU_CTRL_HFNMIENA | MPU_CTRL_PRIVDEFENA
}

/// Returns the number of regions implemented by the core, from MPU.TYPE.DREGION (bits [15:8]
/// of the TYPE register `mpu_type`).
pub fn region_count(mpu_type: u32) -> (n: u8)
    ensures
        n == (mpu_type >> 8) & 0xff,
{
    let v = (mpu_type >> 8) & 0xff;
    assert(v <= 0xff) by (bit_vector)
        requires
            v == (mpu_type >> 8) & 0xff,
    ;
    v as u8
}

/// Returns true when an MPU is implemented and exposes at least one region.
///
/// On ARM Cortex-M, this is determined from MPU.TYPE.DREGION.
pub fn is_available(mpu_type: u32) -> (b: bool)
    ensures
        b == ((mpu_type >> 8) & 0xff > 0),
{
    region_count(mpu_type) > 0
}

/// When sram_rw_boundary refuses an address, and with which error.
pub open spec fn spec_sram_boundary_error(addr: u16) -> Option<MpuError> {
    if addr == 0 {
        Some(MpuError::ZeroLength)
    } else if addr as u32 > crate::SRAM_SIZE {
        Some(MpuError::PastBoundary(addr as u32))
    } else {
        None
    }
}

/// Checks an SRAM RW/RX boundary. Addresses below the input will be read/write,
/// and addresses at or above the input will be read/execute. The boundary must be non-zero and
/// lie within SRAM. From the manual:
///
/// Buffer overflows are a common source of exploits wherein, for example, a corrupt return address can cause
/// execution to jump to malicious code. In order to mitigate such exploits, an SRAM code protection feature is
/// available, wherein the SRAM can be partitioned into two regions:
/// - Region 1: Read-Write (RW)
/// - Region 2: Read-Execute (RX)
///
/// This is set up by configuring the SYSCTL.SOCLOCK.SRAMBOUNDARY register with an address A such that:
/// - Addresses >= A will be permitted for read-execute and not for writes
/// - Addresses < A will be permitted for read-write and not for execution (instruction fetch)
pub fn sram_rw_boundary(addr: u16) -> (r: Result<(), HalError>)
    ensures
        match spec_sram_boundary_error(addr) {
            Some(e) => r == Err::<(), HalError>(HalError::MpuError(e)),
            None => r is Ok,
        },
{
    if addr == 0 {
        return Err(HalError::MpuError(MpuError::ZeroLength));
    }
    if addr as u32 > crate::SRAM_SIZE {
        return Err(HalError::MpuError(MpuError::PastBoundary(addr as u32)));
    }
    Ok(())
}

} // verus!
