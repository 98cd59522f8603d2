use vstd::prelude::*;
use crate::{HalError, spec_bit};
use crate::cursor::spec_write_at;
use crate::words::{spec_native_words, spec_flat_words, page_double_words, lemma_native_words_round_trip};

verus! {

/// The size of a flash page (sector) in bytes.
pub const FLASH_PAGE_SIZE: usize = 1024;

/// The number of 8-byte program chunks in a page.
pub const PAGE_CHUNKS: usize = 128;

/// The number of sectors protected one by one through WEPROTA; above them, WEPROTB protects
/// groups of 8 sectors.
pub const WEPROTA_SECTORS: u32 = 32;

/// The error that is returned when a flash operation fails or is refused.
#[derive(Debug, PartialEq, Eq, Structural)]
pub enum FlashError {
    /// Unknown error.
    Unknown,
    /// Unaligned address (should be aligned to 2^n bytes, n being the value).
    Unaligned(u8),
    /// Out-of-bounds flash address.
    OobFlashAddress,
    /// Illegal flash address.
    IllegalFlashAddress,
    /// Target flash address is write-protected (while erasing).
    EraseWriteProtectedFlashAddress,
    /// Target flash address is write-protected.
    WriteProtectedFlashAddress,
    /// Program command failed because an attempt was made to program a stored 0 value to a 1.
    InvData,
    /// Command failed because a bank has been set to a mode other than READ.
    InvalidMode,
    /// Command failed due to verify error.
    FailVerify,
    /// Checked error when command was not done.
    StatNotDone,
    /// The address was programmed without first being erased.
    NotBlank(u32),
    /// Failed with misc. error.
    FailMisc,
}

/// The flags of the flash controller's STATCMD register, as read after a command.
#[derive(Debug, Clone, Copy)]
pub struct FlashStatus {
    /// CMDDONE: the command has completed.
    pub cmd_done: bool,
    /// CMDPASS: the command passed (valid when CMDDONE is set).
    pub cmd_pass: bool,
    /// FAILWEPROT: write/erase protect sector violation.
    pub fail_weprot: bool,
    /// FAILVERIFY: verify error.
    pub fail_verify: bool,
    /// FAILILLADDR: illegal address.
    pub fail_ill_addr: bool,
    /// FAILMODE: a bank was not in READ mode.
    pub fail_mode: bool,
    /// FAILINVDATA: attempt to program a stored 0 to a 1.
    pub fail_inv_data: bool,
}

/// The error that a command status stands for, if any: an unfinished command first, then, for a
/// failed command, the first of the failure flags in the order invalid data, verify, mode,
/// illegal address, write protection; a failed command with none of them is an unknown error.
pub open spec fn spec_status_error(s: FlashStatus) -> Option<FlashError> {
    if !s.cmd_done {
        Some(FlashError::StatNotDone)
    } else if !s.cmd_pass {
        if s.fail_inv_data {
            Some(FlashError::InvData)
        } else if s.fail_verify {
            Some(FlashError::FailVerify)
        } else if s.fail_mode {
            Some(FlashError::InvalidMode)
        } else if s.fail_ill_addr {
            Some(FlashError::IllegalFlashAddress)
        } else if s.fail_weprot {
            Some(FlashError::WriteProtectedFlashAddress)
        } else {
            Some(FlashError::Unknown)
        }
    } else {
        None
    }
}

/// A finished command that passed is no error, whatever its failure flags; an unfinished one is
/// `StatNotDone`; a failed one reports invalid data first, then verify, mode, illegal address and
/// write protection, and `Unknown` when no flag says why.
pub proof fn lemma_status_priority(s: FlashStatus)
    ensures
        s.cmd_done && s.cmd_pass ==> spec_status_error(s) is None,
        !s.cmd_done ==> spec_status_error(s) == Some(FlashError::StatNotDone),
        s.cmd_done && !s.cmd_pass && s.fail_inv_data ==> spec_status_error(s) == Some(FlashError::InvData),
        s.cmd_done && !s.cmd_pass && !s.fail_inv_data && s.fail_verify ==> spec_status_error(s) == Some(
            FlashError::FailVerify,
        ),
        s.cmd_done && !s.cmd_pass && !s.fail_inv_data && !s.fail_verify && s.fail_mode ==> spec_status_error(s)
            == Some(FlashError::InvalidMode),
        s.cmd_done && !s.cmd_pass && !s.fail_inv_data && !s.fail_verify && !s.fail_mode && s.fail_ill_addr
            ==> spec_status_error(s) == Some(FlashError::IllegalFlashAddress),
        s.cmd_done && !s.cmd_pass && !s.fail_inv_data && !s.fail_verify && !s.fail_mode && !s.fail_ill_addr
            && s.fail_weprot ==> spec_status_error(s) == Some(FlashError::WriteProtectedFlashAddress),
        s.cmd_done && !s.cmd_pass && !s.fail_inv_data && !s.fail_verify && !s.fail_mode && !s.fail_ill_addr
            && !s.fail_weprot ==> spec_status_error(s) == Some(FlashError::Unknown),
{
}

/// Turns the status of a finished flash command into its result.
pub fn check_error(status: &FlashStatus) -> (r: Result<(), HalError>)
    ensures
        match spec_status_error(*status) {
            Some(e) => r == Err::<(), HalError>(HalError::FlashError(e)),
            None => r is Ok,
        },
{
    if !status.cmd_done {
        return Err(HalError::FlashError(FlashError::StatNotDone));
    }
    if !status.cmd_pass {
        if status.fail_inv_data {
            return Err(HalError::FlashError(FlashError::InvData));
        } else if status.fail_verify {
            return Err(HalError::FlashError(FlashError::FailVerify));
        } else if status.fail_mode {
            return Err(HalError::FlashError(FlashError::InvalidMode));
        } else if status.fail_ill_addr {
            return Err(HalError::FlashError(FlashError::IllegalFlashAddress));
        } else if status.fail_weprot {
            return Err(HalError::FlashError(FlashError::WriteProtectedFlashAddress));
        }
        return Err(HalError::FlashError(FlashError::Unknown));
    }
    Ok(())
}

/// Whether a blank-verify command found its word erased: it passed without a verify failure.
pub fn blank_verify_passed(status: &FlashStatus) -> (b: bool)
    ensures
        b == (status.cmd_pass && !status.fail_verify),
{
    status.cmd_pass && !status.fail_verify
}

/// Whether `location` is the start of a 1KiB sector.
pub open spec fn spec_sector_aligned(location: u32) -> bool {
    location % 1024 == 0
}

/// Checks that an erase (or rewrite) address is aligned to a 1KiB sector.
pub fn check_sector_aligned(location: u32) -> (r: Result<(), HalError>)
    ensures
        spec_sector_aligned(location) ==> r is Ok,
        !spec_sector_aligned(location) ==> r == Err::<(), HalError>(
            HalError::FlashError(FlashError::Unaligned(10)),
        ),
{
    assert((location & 0x3ff == 0) == (location % 1024 == 0)) by (bit_vector);
    if location & 0x3ff != 0 {
        return Err(HalError::FlashError(FlashError::Unaligned(10)));
    }
    Ok(())
}

/// The result of an erase command: a write-protection failure is reported as an erase of a
/// write-protected address; every other result is kept.
pub open spec fn spec_erase_result(r: Result<(), HalError>) -> Result<(), HalError> {
    match r {
        Err(HalError::FlashError(FlashError::WriteProtectedFlashAddress)) => Err(
            HalError::FlashError(FlashError::EraseWriteProtectedFlashAddress),
        ),
        _ => r,
    }
}

/// Maps the result of the command that erases a sector to the result of erase_page.
pub fn erase_result(r: Result<(), HalError>) -> (out: Result<(), HalError>)
    ensures
        out == spec_erase_result(r),
{
    match r {
        Err(HalError::FlashError(FlashError::WriteProtectedFlashAddress)) => Err(
            HalError::FlashError(FlashError::EraseWriteProtectedFlashAddress),
        ),
        other => other,
    }
}

/// When write_page refuses to program a page at `location`, and with which error: a location
/// that is not blank first, then one outside flash, then one not aligned to a sector.
pub open spec fn spec_write_page_error(location: u32, blank: bool) -> Option<FlashError> {
    if !blank {
        Some(FlashError::NotBlank(location))
    } else if !(location + 8 < 0x40000) {
        Some(FlashError::OobFlashAddress)
    } else if !spec_sector_aligned(location) {
        Some(FlashError::Unaligned(10))
    } else {
        None
    }
}

/// Checks a page write at `location`, `blank` being the result of the blank verify of it.
pub fn write_page_check(location: u32, blank: bool) -> (r: Result<(), HalError>)
    requires
        blank ==> location + 8 <= u32::MAX,
    ensures
        match spec_write_page_error(location, blank) {
            Some(e) => r == Err::<(), HalError>(HalError::FlashError(e)),
            None => r is Ok,
        },
{
    if !blank {
        return Err(HalError::FlashError(FlashError::NotBlank(location)));
    }
    let flash_start: u32 = 0x0;
    let flash_len: u32 = 0x40000;
    if !(flash_start <= location && location + 8 < flash_start + flash_len) {
        return Err(HalError::FlashError(FlashError::OobFlashAddress));
    }
    if location % (FLASH_PAGE_SIZE as u32) != 0 {
        return Err(HalError::FlashError(FlashError::Unaligned(10)));
    }
    Ok(())
}

/// One program command: the double word `data` goes to flash address `address`.
#[derive(Debug, Clone, Copy)]
pub struct ProgramChunk {
    pub address: u32,
    pub data: [u32; 2],
}

/// The double words of a sequence of program commands, in order.
pub open spec fn spec_chunk_data(chunks: Seq<ProgramChunk>) -> Seq<[u32; 2]> {
    chunks.map_values(|c: ProgramChunk| c.data)
}

/// The program commands that write `page` at `location`: chunk `i` writes bytes `8i..8i+8`
/// of the page, as two words, at `location + 8i`; all the words of the page are read in the
/// machine's one byte order.
pub fn program_chunks(location: u32, page: &[u8; 1024]) -> (chunks: Vec<ProgramChunk>)
    requires
        location + 8 * 127 <= u32::MAX,
    ensures
        chunks@.len() == PAGE_CHUNKS,
        forall|i: int| 0 <= i < PAGE_CHUNKS ==> #[trigger] chunks@[i].address == location + 8 * i,
        spec_native_words(page@, spec_flat_words(spec_chunk_data(chunks@))),
{
    let words = page_double_words(page);
    let mut chunks: Vec<ProgramChunk> = Vec::new();
    let mut i: usize = 0;
    while i < PAGE_CHUNKS
        invariant
            i <= PAGE_CHUNKS,
            location + 8 * 127 <= u32::MAX,
            chunks@.len() == i,
            forall|k: int|
                0 <= k < i ==> {
                    &&& #[trigger] chunks@[k].address == location + 8 * k
                    &&& chunks@[k].data == words@[k]
                },
        decreases PAGE_CHUNKS - i,
    {
        let address = location + (8 * i) as u32;
        chunks.push(ProgramChunk { address, data: words[i] });
        i = i + 1;
    }
    assert(spec_chunk_data(chunks@).len() == words@.len());
    assert forall|k: int| 0 <= k < words@.len() implies #[trigger] spec_chunk_data(chunks@)[k]
        == words@[k] by {
        assert(chunks@[k].address == location + 8 * k);
    }
    assert(spec_chunk_data(chunks@) =~= words@);
    chunks
}

/// The words that the program commands write, read back as bytes in the machine's byte order,
/// give the page: flash ends up holding the page's bytes.
pub proof fn lemma_programmed_words_read_back(page: Seq<u8>, chunks: Seq<ProgramChunk>, stored: Seq<u8>)
    requires
        spec_native_words(page, spec_flat_words(spec_chunk_data(chunks))),
        spec_native_words(stored, spec_flat_words(spec_chunk_data(chunks))),
    ensures
        stored == page,
{
    lemma_native_words_round_trip(page, stored, spec_flat_words(spec_chunk_data(chunks)));
}

/// When partial_rewrite_page refuses to rewrite `len` bytes at `offset` of the page at
/// `location`, and with which error: an unaligned location first, then a range past the page.
pub open spec fn spec_partial_rewrite_error(location: u32, offset: u32, len: int) -> Option<
    FlashError,
> {
    if !spec_sector_aligned(location) {
        Some(FlashError::Unaligned(10))
    } else if offset + len > FLASH_PAGE_SIZE {
        Some(FlashError::OobFlashAddress)
    } else {
        None
    }
}

/// Checks a partial rewrite of `len` bytes at `offset` in the page at `location`.
pub fn partial_rewrite_check(location: u32, offset: u32, len: usize) -> (r: Result<(), HalError>)
    requires
        offset + len <= usize::MAX,
    ensures
        match spec_partial_rewrite_error(location, offset, len as int) {
            Some(e) => r == Err::<(), HalError>(HalError::FlashError(e)),
            None => r is Ok,
        },
{
    match check_sector_aligned(location) {
        Ok(()) => {},
        Err(e) => return Err(e),
    }
    let offset = offset as usize;
    if offset + len > FLASH_PAGE_SIZE {
        return Err(HalError::FlashError(FlashError::OobFlashAddress));
    }
    Ok(())
}

/// The page `old` with `data` written at `offset`; every other byte is kept.
pub fn merge_page(old: &[u8; 1024], offset: usize, data: &[u8]) -> (new: [u8; 1024])
    requires
        offset + data@.len() <= FLASH_PAGE_SIZE,
    ensures
        new@ == spec_write_at(old@, offset as int, data@),
{
    let mut new = *old;
    let n = data.len();
    let mut i: usize = 0;
    while i < n
        invariant
            offset + n <= 1024,
            n == data@.len(),
            i <= n,
            new@.len() == 1024,
            forall|k: int| 0 <= k < offset ==> new@[k] == old@[k],
            forall|k: int| offset + n <= k < 1024 ==> new@[k] == old@[k],
            forall|k: int| 0 <= k < i ==> new@[offset + k] == data@[k],
        decreases n - i,
    {
        new[offset + i] = data[i];
        i = i + 1;
    }
    assert(new@ =~= spec_write_at(old@, offset as int, data@));
    new
}


proof fn lemma_add_bit(mask: u32, i: u32, j: u32)
    by (bit_vector)
    requires
        i < 32,
        j < 32,
        mask < (1u32 << i),
    ensures
        mask + (1u32 << i) <= 0xffff_ffff,
        (((mask + (1u32 << i)) as u32 >> j) & 1 == 1) == (j == i || (mask >> j) & 1 == 1),
        i < 31 ==> ((mask + (1u32 << i)) as u32) < (1u32 << ((i + 1) as u32)),
{
}

proof fn lemma_zero_bits(j: u32, i: u32)
    by (bit_vector)
    requires
        j < 32,
        i < 32,
    ensures
        (0u32 >> j) & 1 != 1,
        0u32 < (1u32 << i),
{
}

/// The sum of `1 << i` over the sectors `i` in `start..end`: the mask in which exactly those
/// sectors' bits are set.
pub fn sector_mask(start: u32, end: u32) -> (mask: u32)
    requires
        start <= end <= 32,
    ensures
        forall|j: u32| j < 32 ==> (spec_bit(mask, j) <==> start <= j < end),
{
    let mut mask: u32 = 0;
    let mut i: u32 = start;
    proof {
        assert forall|j: u32| j < 32 implies (spec_bit(mask, j) <==> start <= j < i) by {
            lemma_zero_bits(j, 0);
        }
        if i < 32 {
            lemma_zero_bits(0, i);
        }
    }
    while i < end
        invariant
            start <= i <= end <= 32,
            i < 32 ==> mask < (1u32 << i),
            forall|j: u32| j < 32 ==> (spec_bit(mask, j) <==> start <= j < i),
        decreases end - i,
    {
        proof {
            lemma_add_bit(mask, i, 0);
            assert forall|j: u32| j < 32 implies (#[trigger] spec_bit((mask + (1u32 << i)) as u32, j)
                <==> (start <= j < i + 1)) by {
                lemma_add_bit(mask, i, j);
                assert(spec_bit(mask, j) <==> start <= j < i);
            }
        }
        mask = mask + (1u32 << i);
        i = i + 1;
    }
    mask
}

/// `x / d` rounded up.
pub open spec fn spec_div_ceil(x: int, d: int) -> int {
    (x + d - 1) / d
}

/// The WEPROTA mask of the sectors that hold `address..address + size`, when the range ends
/// within the first 32 sectors: bits `address / 1KiB .. ceil((address + size) / 1KiB)`.
pub open spec fn spec_weprota_range(address: u32, size: u32) -> Option<(u32, u32)> {
    if address + size <= WEPROTA_SECTORS * FLASH_PAGE_SIZE {
        Some(((address / 1024) as u32, spec_div_ceil(address + size, 1024) as u32))
    } else {
        None
    }
}

/// The WEPROTB mask of the 8-sector groups that hold `address..address + size`, when the range
/// ends past the first 32 sectors: bits `4 .. ceil((address + size) / 8KiB)`.
pub open spec fn spec_weprotb_range(address: u32, size: u32) -> Option<(u32, u32)> {
    if address + size > WEPROTA_SECTORS * FLASH_PAGE_SIZE {
        Some((4, spec_div_ceil(address + size, 8192) as u32))
    } else {
        None
    }
}

/// Whether `mask` has exactly the bits `range.0 .. range.1` set.
pub open spec fn spec_mask_of(mask: u32, range: (u32, u32)) -> bool {
    forall|j: u32| j < 32 ==> (spec_bit(mask, j) <==> range.0 <= j < range.1)
}

/// The masks of the WEPROTA and WEPROTB bits that cover `address..address + size`; `None` for a
/// register that the range does not reach.
pub fn protection_masks(address: u32, size: u32) -> (r: (Option<u32>, Option<u32>))
    requires
        address + size <= crate::FLASH_SIZE,
    ensures
        r.0 is Some <==> spec_weprota_range(address, size) is Some,
        r.1 is Some <==> spec_weprotb_range(address, size) is Some,
        r.0 is Some ==> spec_mask_of(r.0->0, spec_weprota_range(address, size)->0),
        r.1 is Some ==> spec_mask_of(r.1->0, spec_weprotb_range(address, size)->0),
{
    let end = address + size;
    let a = if end <= 32 * 1024 {
        let start = address / 1024;
        let stop = (end + 1023) / 1024;
        Some(sector_mask(start, stop))
    } else {
        None
    };
    let b = if end > 32 * 1024 {
        let start: u32 = (32 * 1024) / 8192;
        let stop = (end + 8191) / 8192;
        Some(sector_mask(start, stop))
    } else {
        None
    };
    (a, b)
}

/// The new value of a protection register `reg` after changing the sectors of `mask`: cleared
/// when they become writeable, set when they become protected.
pub fn apply_protection(reg: u32, mask: u32, writeable: bool) -> (new: u32)
    ensures
        new == if writeable { reg & !mask } else { reg | mask },
{
    if writeable {
        reg & !mask
    } else {
        reg | mask
    }
}

/// Protecting then unprotecting the sectors of a mask leaves them writeable and every other
/// sector as it was; unprotecting then protecting leaves them protected; each is idempotent.
pub proof fn lemma_protection_roundtrip(reg: u32, mask: u32)
    ensures
        (reg | mask) & !mask == reg & !mask,
        (reg & !mask) | mask == reg | mask,
        (reg | mask) | mask == reg | mask,
        (reg & !mask) & !mask == reg & !mask,
        forall|j: u32| j < 32 && !spec_bit(mask, j) ==> (#[trigger] spec_bit(reg | mask, j) == spec_bit(reg, j)
            && spec_bit(reg & !mask, j) == spec_bit(reg, j)),
        forall|j: u32| j < 32 && spec_bit(mask, j) ==> (#[trigger] spec_bit(reg | mask, j) && !spec_bit(reg & !mask, j)),
{
    assert((reg | mask) & !mask == reg & !mask && (reg & !mask) | mask == reg | mask && (reg | mask)
        | mask == reg | mask && (reg & !mask) & !mask == reg & !mask) by (bit_vector);
    assert forall|j: u32| j < 32 && !spec_bit(mask, j) implies (#[trigger] spec_bit(reg | mask, j) == spec_bit(reg, j)
        && spec_bit(reg & !mask, j) == spec_bit(reg, j)) by {
        lemma_bit_or_and_not(reg, mask, j);
    }
    assert forall|j: u32| j < 32 && spec_bit(mask, j) implies (#[trigger] spec_bit(reg | mask, j) && !spec_bit(reg & !mask, j)) by {
        lemma_bit_or_and_not(reg, mask, j);
    }
}

proof fn lemma_bit_or_and_not(reg: u32, mask: u32, j: u32)
    by (bit_vector)
    requires
        j < 32,
    ensures
        (((reg | mask) >> j) & 1 == 1) == (((reg >> j) & 1 == 1) || ((mask >> j) & 1 == 1)),
        (((reg & !mask) >> j) & 1 == 1) == (((reg >> j) & 1 == 1) && !((mask >> j) & 1 == 1)),
{
}

/// Below 32KiB, the WEPROTA bit of sector `j` is in the mask of a non-empty range exactly when
/// the sector `[1024j, 1024(j+1))` overlaps the range `[address, address + size)`.
pub proof fn lemma_weprota_sectors_overlap(address: u32, size: u32, j: u32)
    requires
        size > 0,
        address + size <= WEPROTA_SECTORS * FLASH_PAGE_SIZE,
        j < 32,
    ensures
        ({
            let range = spec_weprota_range(address, size)->0;
            (range.0 <= j < range.1) <==> (1024 * j < address + size && address < 1024 * (j + 1))
        }),
{
    let e = address + size;
    assert(((address / 1024) as u32 <= j) <==> (address < 1024 * (j + 1))) by (nonlinear_arith)
        requires
            address < 0x8000,
            j < 32,
    ;
    assert((j < (spec_div_ceil(e, 1024) as u32)) <==> (1024 * j < e)) by (nonlinear_arith)
        requires
            0 < e <= 0x8000,
            j < 32,
    ;
}

/// Past 32KiB, the WEPROTB bit of 8-sector group `j` is in the mask exactly when the group lies
/// past 32KiB and starts before the end of the range `[address, address + size)`: every group
/// from 32KiB up to the end of the range changes, whether or not the range starts below it.
pub proof fn lemma_weprotb_groups(address: u32, size: u32, j: u32)
    requires
        address + size <= crate::FLASH_SIZE,
        address + size > WEPROTA_SECTORS * FLASH_PAGE_SIZE,
        j < 32,
    ensures
        ({
            let range = spec_weprotb_range(address, size)->0;
            (range.0 <= j < range.1) <==> (4 <= j && 8192 * j < address + size)
        }),
{
    let e = address + size;
    assert((j < (spec_div_ceil(e, 8192) as u32)) <==> (8192 * j < e)) by (nonlinear_arith)
        requires
            0x8000 < e <= 0x40000,
            j < 32,
    ;
}

/// The page after a partial rewrite reads back, at the offset, as the new data, and keeps the
/// old bytes elsewhere.
pub proof fn lemma_merge_page_reads_back(old: Seq<u8>, offset: int, data: Seq<u8>)
    requires
        old.len() == FLASH_PAGE_SIZE,
        0 <= offset,
        offset + data.len() <= FLASH_PAGE_SIZE,
    ensures
        crate::cursor::spec_read_at(spec_write_at(old, offset, data), offset, data.len() as int) == data,
        forall|k: int|
            0 <= k < FLASH_PAGE_SIZE && !(offset <= k < offset + data.len()) ==> #[trigger] spec_write_at(
                old,
                offset,
                data,
            )[k] == old[k],
{
    crate::cursor::lemma_read_back(old, offset, data);
    assert forall|k: int|
        0 <= k < FLASH_PAGE_SIZE && !(offset <= k < offset + data.len()) implies #[trigger] spec_write_at(
            old,
            offset,
            data,
        )[k] == old[k] by {
        if k < offset {
        } else {
        }
    }
}

} // verus!
