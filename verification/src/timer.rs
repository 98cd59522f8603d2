use vstd::prelude::*;

verus! {

/// SYST_CSR.ENABLE (bit 0).
pub const CSR_ENABLE: u32 = 0x1;

/// SYST_CSR.TICKINT (bit 1).
pub const CSR_TICKINT: u32 = 0x2;

/// SYST_CSR.CLKSOURCE (bit 2).
pub const CSR_CLKSOURCE: u32 = 0x4;

/// The SysTick timer's control words.
pub struct SysTickConfig;

impl SysTickConfig {
    /// The SYST_CSR word that starts the timer: enable, tick interrupt and processor clock.
    pub fn enable_csr() -> (w: u32)
        ensures
            w == CSR_ENABLE | CSR_TICKINT | CSR_CLKSOURCE,
            w == 0b111,
    {
        assert(1u32 | 2u32 | 4u32 == 7u32) by (bit_vector);
        CSR_ENABLE | CSR_TICKINT | CSR_CLKSOURCE
    }

    /// The SYST_CSR word `csr` with the enable bit cleared and the others as they are.
    pub fn disable_csr(csr: u32) -> (w: u32)
        ensures
            w == csr & !CSR_ENABLE,
            w & CSR_ENABLE == 0,
            w | CSR_ENABLE == csr | CSR_ENABLE,
    {
        assert((csr & !1u32) & 1u32 == 0 && (csr & !1u32) | 1u32 == csr | 1u32) by (bit_vector);
        csr & !CSR_ENABLE
    }
}

} // verus!
