use vstd::prelude::*;
use core::marker::PhantomData;
use crate::{spec_bit, lemma_single_bit};

verus! {

/// Number of DMA channels available
pub const DMA_CHANNEL_COUNT: usize = 7;

/// DMACTL.DMAREQ (bit 0): software-controlled DMA start.
pub const DMACTL_DMAREQ: u32 = 0x1;

/// DMACTL.DMAEN (bit 1): DMA enable.
pub const DMACTL_DMAEN: u32 = 0x2;

/// DMACTL.DMASRCWDTH: bits 8..9.
pub const DMACTL_SRCWDTH_SHIFT: u32 = 8;

/// DMACTL.DMADSTWDTH: bits 12..13.
pub const DMACTL_DSTWDTH_SHIFT: u32 = 12;

/// DMACTL.DMASRCINCR: bits 16..19.
pub const DMACTL_SRCINCR_SHIFT: u32 = 16;

/// DMACTL.DMADSTINCR: bits 20..23.
pub const DMACTL_DSTINCR_SHIFT: u32 = 20;

/// DMACTL.DMATM: bits 28..29.
pub const DMACTL_DMATM_SHIFT: u32 = 28;

/// DMATCTL.DMATINT (bit 7): trigger by internal channel; DMATCTL.DMATSEL is bits 0..5.
pub const DMATCTL_DMATINT: u32 = 0x80;

/// The interrupt mask with one bit for each DMA channel.
pub fn all_channels_mask() -> (m: u32)
    ensures
        m == 0x7f,
        forall|n: u32| n < 32 ==> (#[trigger] spec_bit(m, n) <==> n < DMA_CHANNEL_COUNT),
{
    let bit: u32 = 1u32 << (DMA_CHANNEL_COUNT as u32);
    assert(bit == 0x80) by (bit_vector)
        requires
            bit == 1u32 << 7u32,
    ;
    assert forall|n: u32| n < 32 implies (#[trigger] spec_bit(0x7f, n) <==> n < 7) by {
        lemma_low_mask_bit(n);
    }
    bit - 1
}

proof fn lemma_low_mask_bit(n: u32)
    by (bit_vector)
    requires
        n < 32,
    ensures
        ((0x7fu32 >> n) & 1 == 1) == (n < 7),
{
}

/// DMA Trigger Sources
#[derive(Copy, Clone, Debug, PartialEq, Eq, Structural)]
pub enum TriggerSource {
    Software,
    GenericSubscriber0,
    GenericSubscriber1,
    AesPublisher1,
    AesPublisher1Alt,
    I2c0Publisher1,
    I2c0Publisher2,
    I2c1Publisher1,
    I2c1Publisher2,
    I2c2Publisher1,
    I2c2Publisher2,
    Spi0Publisher1,
    Spi0Publisher2,
    Spi1Publisher1,
    Spi1Publisher2,
    Uart0Publisher1,
    Uart0Publisher2,
    Uart1Publisher1,
    Uart1Publisher2,
    Uart2Publisher1,
    Uart2Publisher2,
    Uart3Publisher1,
    Uart3Publisher2,
    Uart4Publisher1,
    Uart4Publisher2,
    Adc0Publisher2,
}

impl TriggerSource {
    /// The DMATSEL value of each trigger source.
    pub open spec fn spec_bits(self) -> u8 {
        match self {
            TriggerSource::Software => 0,
            TriggerSource::GenericSubscriber0 => 1,
            TriggerSource::GenericSubscriber1 => 2,
            TriggerSource::AesPublisher1 => 3,
            TriggerSource::AesPublisher1Alt => 4,
            TriggerSource::I2c0Publisher1 => 5,
            TriggerSource::I2c0Publisher2 => 6,
            TriggerSource::I2c1Publisher1 => 7,
            TriggerSource::I2c1Publisher2 => 8,
            TriggerSource::I2c2Publisher1 => 9,
            TriggerSource::I2c2Publisher2 => 10,
            TriggerSource::Spi0Publisher1 => 11,
            TriggerSource::Spi0Publisher2 => 12,
            TriggerSource::Spi1Publisher1 => 13,
            TriggerSource::Spi1Publisher2 => 14,
            TriggerSource::Uart0Publisher1 => 15,
            TriggerSource::Uart0Publisher2 => 16,
            TriggerSource::Uart1Publisher1 => 17,
            TriggerSource::Uart1Publisher2 => 18,
            TriggerSource::Uart2Publisher1 => 19,
            TriggerSource::Uart2Publisher2 => 20,
            TriggerSource::Uart3Publisher1 => 21,
            TriggerSource::Uart3Publisher2 => 22,
            TriggerSource::Uart4Publisher1 => 23,
            TriggerSource::Uart4Publisher2 => 24,
            TriggerSource::Adc0Publisher2 => 25,
        }
    }

    /// The DMATSEL value of this trigger source.
    pub fn bits(self) -> (b: u8)
        ensures
            b == self.spec_bits(),
            b <= 25,
    {
        match self {
            TriggerSource::Software => 0,
            TriggerSource::GenericSubscriber0 => 1,
            TriggerSource::GenericSubscriber1 => 2,
            TriggerSource::AesPublisher1 => 3,
            TriggerSource::AesPublisher1Alt => 4,
            TriggerSource::I2c0Publisher1 => 5,
            TriggerSource::I2c0Publisher2 => 6,
            TriggerSource::I2c1Publisher1 => 7,
            TriggerSource::I2c1Publisher2 => 8,
            TriggerSource::I2c2Publisher1 => 9,
            TriggerSource::I2c2Publisher2 => 10,
            TriggerSource::Spi0Publisher1 => 11,
            TriggerSource::Spi0Publisher2 => 12,
            TriggerSource::Spi1Publisher1 => 13,
            TriggerSource::Spi1Publisher2 => 14,
            TriggerSource::Uart0Publisher1 => 15,
            TriggerSource::Uart0Publisher2 => 16,
            TriggerSource::Uart1Publisher1 => 17,
            TriggerSource::Uart1Publisher2 => 18,
            TriggerSource::Uart2Publisher1 => 19,
            TriggerSource::Uart2Publisher2 => 20,
            TriggerSource::Uart3Publisher1 => 21,
            TriggerSource::Uart3Publisher2 => 22,
            TriggerSource::Uart4Publisher1 => 23,
            TriggerSource::Uart4Publisher2 => 24,
            TriggerSource::Adc0Publisher2 => 25,
        }
    }
}

/// DMA Transfer Modes
#[derive(Copy, Clone, Debug, PartialEq, Eq, Structural)]
pub enum TransferMode {
    Single,
    Block,
    RepeatedSingle,
    RepeatedBlock,
}

impl TransferMode {
    /// The DMATM value of each mode.
    pub open spec fn spec_bits(self) -> u8 {
        match self {
            TransferMode::Single => 0,
            TransferMode::Block => 1,
            TransferMode::RepeatedSingle => 2,
            TransferMode::RepeatedBlock => 3,
        }
    }

    /// The DMATM value of this mode.
    pub fn bits(self) -> (b: u8)
        ensures
            b == self.spec_bits(),
            b <= 3,
    {
        match self {
            TransferMode::Single => 0,
            TransferMode::Block => 1,
            TransferMode::RepeatedSingle => 2,
            TransferMode::RepeatedBlock => 3,
        }
    }
}

/// DMA transfer data widths.
#[derive(Copy, Clone, Debug, PartialEq, Eq, Structural)]
pub enum DataWidth {
    /// 8-bit
    Byte,
    /// 16-bit
    HalfWord,
    /// 32-bit
    Word,
    /// 64-bit
    LongWord,
}

impl DataWidth {
    /// The width field value of each data width.
    pub open spec fn spec_bits(self) -> u8 {
        match self {
            DataWidth::Byte => 0,
            DataWidth::HalfWord => 1,
            DataWidth::Word => 2,
            DataWidth::LongWord => 3,
        }
    }

    /// The width field value of this data width.
    pub fn bits(self) -> (b: u8)
        ensures
            b == self.spec_bits(),
            b <= 3,
    {
        match self {
            DataWidth::Byte => 0,
            DataWidth::HalfWord => 1,
            DataWidth::Word => 2,
            DataWidth::LongWord => 3,
        }
    }
}

/// DMA address increment mode
#[derive(Copy, Clone, Debug, PartialEq, Eq, Structural)]
pub enum AddressIncrement {
    /// +0
    Unchanged,
    /// -1 * width
    Decrement,
    /// +1 * width
    Increment,
    /// +2 * width
    Stride2,
    /// +3 * width
    Stride3,
    /// +4 * width
    Stride4,
    /// +5 * width
    Stride5,
    /// +6 * width
    Stride6,
    /// +7 * width
    Stride7,
    /// +8 * width
    Stride8,
    /// +9 * width
    Stride9,
}

impl AddressIncrement {
    /// The increment field value of each mode.
    pub open spec fn spec_bits(self) -> u8 {
        match self {
            AddressIncrement::Unchanged => 0,
            AddressIncrement::Decrement => 2,
            AddressIncrement::Increment => 3,
            AddressIncrement::Stride2 => 8,
            AddressIncrement::Stride3 => 9,
            AddressIncrement::Stride4 => 10,
            AddressIncrement::Stride5 => 11,
            AddressIncrement::Stride6 => 12,
            AddressIncrement::Stride7 => 13,
            AddressIncrement::Stride8 => 14,
            AddressIncrement::Stride9 => 15,
        }
    }

    /// The increment field value of this mode.
    pub fn bits(self) -> (b: u8)
        ensures
            b == self.spec_bits(),
            b <= 15,
    {
        match self {
            AddressIncrement::Unchanged => 0,
            AddressIncrement::Decrement => 2,
            AddressIncrement::Increment => 3,
            AddressIncrement::Stride2 => 8,
            AddressIncrement::Stride3 => 9,
            AddressIncrement::Stride4 => 10,
            AddressIncrement::Stride5 => 11,
            AddressIncrement::Stride6 => 12,
            AddressIncrement::Stride7 => 13,
            AddressIncrement::Stride8 => 14,
            AddressIncrement::Stride9 => 15,
        }
    }
}

/// The register values that configure a channel's transfer.
#[derive(Copy, Clone, Debug)]
pub struct ChannelConfig {
    /// DMASA: source address.
    pub dmasa: u32,
    /// DMADA: destination address.
    pub dmada: u32,
    /// DMASZ: transfer size in number of transfers.
    pub dmasz: u32,
    /// DMACTL: mode, widths and increments, with the channel disabled.
    pub dmactl: u32,
}

/// The DMACTL word of a configuration: DMATM, both widths and both increments in their fields,
/// DMAEN and DMAREQ clear.
pub open spec fn spec_dmactl(
    mode: TransferMode,
    width: DataWidth,
    src_incr: AddressIncrement,
    dst_incr: AddressIncrement,
) -> u32 {
    ((mode.spec_bits() as u32) << 28) | ((width.spec_bits() as u32) << 8) | ((width.spec_bits() as u32)
        << 12) | ((src_incr.spec_bits() as u32) << 16) | ((dst_incr.spec_bits() as u32) << 20)
}

/// The fields of a configured DMACTL word read back as the configuration, with the channel
/// disabled and no request pending.
pub proof fn lemma_dmactl_fields(
    mode: TransferMode,
    width: DataWidth,
    src_incr: AddressIncrement,
    dst_incr: AddressIncrement,
)
    ensures
        ({
            let w = spec_dmactl(mode, width, src_incr, dst_incr);
            &&& (w >> 28) & 3 == mode.spec_bits() as u32
            &&& (w >> 8) & 3 == width.spec_bits() as u32
            &&& (w >> 12) & 3 == width.spec_bits() as u32
            &&& (w >> 16) & 0xf == src_incr.spec_bits() as u32
            &&& (w >> 20) & 0xf == dst_incr.spec_bits() as u32
            &&& w & DMACTL_DMAEN == 0
            &&& w & DMACTL_DMAREQ == 0
        }),
{
    let m = mode.spec_bits() as u32;
    let wd = width.spec_bits() as u32;
    let s = src_incr.spec_bits() as u32;
    let d = dst_incr.spec_bits() as u32;
    assert(m <= 3 && wd <= 3 && s <= 15 && d <= 15 ==> {
        let w = (m << 28) | (wd << 8) | (wd << 12) | (s << 16) | (d << 20);
        &&& (w >> 28) & 3 == m
        &&& (w >> 8) & 3 == wd
        &&& (w >> 12) & 3 == wd
        &&& (w >> 16) & 0xf == s
        &&& (w >> 20) & 0xf == d
        &&& w & 2 == 0
        &&& w & 1 == 0
    }) by (bit_vector);
}

/// Enabling sets DMAEN and disabling clears it; neither changes another bit of DMACTL, and
/// disabling an enabled channel gives back its word with DMAEN clear.
pub proof fn lemma_enable_disable(dmactl: u32)
    ensures
        (dmactl | DMACTL_DMAEN) & DMACTL_DMAEN == DMACTL_DMAEN,
        (dmactl & !DMACTL_DMAEN) & DMACTL_DMAEN == 0,
        (dmactl | DMACTL_DMAEN) & !DMACTL_DMAEN == dmactl & !DMACTL_DMAEN,
        ((dmactl | DMACTL_DMAEN) & !DMACTL_DMAEN) == dmactl & !DMACTL_DMAEN,
        (dmactl & !DMACTL_DMAEN) | DMACTL_DMAEN == dmactl | DMACTL_DMAEN,
        (dmactl | DMACTL_DMAREQ) & !DMACTL_DMAREQ == dmactl & !DMACTL_DMAREQ,
{
    assert((dmactl | 2) & 2 == 2 && (dmactl & !2u32) & 2 == 0 && (dmactl | 2) & !2u32 == dmactl
        & !2u32 && (dmactl & !2u32) | 2 == dmactl | 2 && (dmactl | 1) & !1u32 == dmactl & !1u32)
        by (bit_vector);
}

/// The DMACTL width fields of a configuration give the transfer element size: field value `k`
/// means elements of `2^k` bytes, so bytes are 0, half words 1, words 2 and long words 3.
pub proof fn lemma_width_field_is_log2_bytes(
    mode: TransferMode,
    width: DataWidth,
    src_incr: AddressIncrement,
    dst_incr: AddressIncrement,
)
    ensures
        ({
            let w = spec_dmactl(mode, width, src_incr, dst_incr);
            let bytes: nat = match width {
                DataWidth::Byte => 1,
                DataWidth::HalfWord => 2,
                DataWidth::Word => 4,
                DataWidth::LongWord => 8,
            };
            &&& vstd::arithmetic::power2::pow2(((w >> 8) & 3) as nat) == bytes
            &&& vstd::arithmetic::power2::pow2(((w >> 12) & 3) as nat) == bytes
        }),
{
    lemma_dmactl_fields(mode, width, src_incr, dst_incr);
    vstd::arithmetic::power2::lemma2_to64();
}

/// The DMACTL transfer mode and increment fields hold the hardware encodings: DMATM is 0 for
/// single, 1 for block, 2 for repeated single and 3 for repeated block transfers; an address
/// increment field is 0 for unchanged, 2 for decrement, 3 for increment and `n + 6` for a stride
/// of `n` elements (2 to 9).
pub proof fn lemma_mode_and_increment_fields(
    mode: TransferMode,
    width: DataWidth,
    src_incr: AddressIncrement,
    dst_incr: AddressIncrement,
)
    ensures
        ({
            let w = spec_dmactl(mode, width, src_incr, dst_incr);
            &&& (w >> 28) & 3 == match mode {
                TransferMode::Single => 0u32,
                TransferMode::Block => 1u32,
                TransferMode::RepeatedSingle => 2u32,
                TransferMode::RepeatedBlock => 3u32,
            }
            &&& (w >> 16) & 0xf == spec_increment_code(src_incr)
            &&& (w >> 20) & 0xf == spec_increment_code(dst_incr)
        }),
{
    lemma_dmactl_fields(mode, width, src_incr, dst_incr);
}

/// The hardware code of an address increment: 0 unchanged, 2 decrement, 3 increment, and for a
/// stride of `n` elements, `n + 6`.
pub open spec fn spec_increment_code(incr: AddressIncrement) -> nat {
    match incr {
        AddressIncrement::Unchanged => 0,
        AddressIncrement::Decrement => 2,
        AddressIncrement::Increment => 3,
        AddressIncrement::Stride2 => 2 + 6,
        AddressIncrement::Stride3 => 3 + 6,
        AddressIncrement::Stride4 => 4 + 6,
        AddressIncrement::Stride5 => 5 + 6,
        AddressIncrement::Stride6 => 6 + 6,
        AddressIncrement::Stride7 => 7 + 6,
        AddressIncrement::Stride8 => 8 + 6,
        AddressIncrement::Stride9 => 9 + 6,
    }
}

/// The DMATSEL index that each trigger source selects, as the device's DMA trigger map numbers
/// them: software 0, the generic subscribers 1 and 2, the AES publishers 3 and 4, then the I2C,
/// SPI and UART publishers two by two from 5, and the ADC publisher 25.
pub open spec fn spec_trigger_index(t: TriggerSource) -> nat {
    match t {
        TriggerSource::Software => 0,
        TriggerSource::GenericSubscriber0 => 1,
        TriggerSource::GenericSubscriber1 => 2,
        TriggerSource::AesPublisher1 => 3,
        TriggerSource::AesPublisher1Alt => 4,
        TriggerSource::I2c0Publisher1 => 5 + 2 * 0,
        TriggerSource::I2c0Publisher2 => 6 + 2 * 0,
        TriggerSource::I2c1Publisher1 => 5 + 2 * 1,
        TriggerSource::I2c1Publisher2 => 6 + 2 * 1,
        TriggerSource::I2c2Publisher1 => 5 + 2 * 2,
        TriggerSource::I2c2Publisher2 => 6 + 2 * 2,
        TriggerSource::Spi0Publisher1 => 11 + 2 * 0,
        TriggerSource::Spi0Publisher2 => 12 + 2 * 0,
        TriggerSource::Spi1Publisher1 => 11 + 2 * 1,
        TriggerSource::Spi1Publisher2 => 12 + 2 * 1,
        TriggerSource::Uart0Publisher1 => 15 + 2 * 0,
        TriggerSource::Uart0Publisher2 => 16 + 2 * 0,
        TriggerSource::Uart1Publisher1 => 15 + 2 * 1,
        TriggerSource::Uart1Publisher2 => 16 + 2 * 1,
        TriggerSource::Uart2Publisher1 => 15 + 2 * 2,
        TriggerSource::Uart2Publisher2 => 16 + 2 * 2,
        TriggerSource::Uart3Publisher1 => 15 + 2 * 3,
        TriggerSource::Uart3Publisher2 => 16 + 2 * 3,
        TriggerSource::Uart4Publisher1 => 15 + 2 * 4,
        TriggerSource::Uart4Publisher2 => 16 + 2 * 4,
        TriggerSource::Adc0Publisher2 => 25,
    }
}

/// The DMATCTL word of set_trigger selects the trigger source's index in DMATSEL (bits 0..5)
/// and sets DMATINT (bit 7) exactly for an internal trigger.
pub proof fn lemma_trigger_select(trigger: TriggerSource, internal_trigger: bool)
    ensures
        ({
            let w = (trigger.spec_bits() as u32) | (if internal_trigger { DMATCTL_DMATINT } else { 0 });
            &&& w & 0x3f == spec_trigger_index(trigger)
            &&& ((w >> 7) & 1 == 1) == internal_trigger
        }),
{
    let t = trigger.spec_bits() as u32;
    assert(t <= 25 ==> (t | 0x80) & 0x3f == t && ((t | 0x80) >> 7) & 1 == 1 && (t | 0) & 0x3f == t
        && ((t | 0) >> 7) & 1 == 0) by (bit_vector);
}

/// A handle on DMA channel `N`.
pub struct DmaChannel<const N: usize>(PhantomData<()>);

impl<const N: usize> DmaChannel<N> {
    /// The handle on channel `N`; it carries no data beyond its channel number `N`.
    pub closed spec fn handle() -> Self {
        DmaChannel(PhantomData)
    }

    /// Any two handles on channel `N` are the same handle.
    pub proof fn lemma_one_handle(a: Self, b: Self)
        ensures
            a == b,
            a == Self::handle(),
    {
        assert(a.0 == b.0);
        assert(a.0 == Self::handle().0);
    }

    /// Construct channel handle
    pub fn new() -> (c: Self)
        ensures
            c == Self::handle(),
    {
        Self(PhantomData)
    }

    /// Whether `N` names one of the DMA channels.
    pub fn check_channel() -> (ok: bool)
        ensures
            ok == (N < DMA_CHANNEL_COUNT),
    {
        N < DMA_CHANNEL_COUNT
    }

    /// The register values that configure a DMA transfer of `transfer_count` items from
    /// `src_addr` to `dst_addr`; the channel stays disabled.
    pub fn configure(
        &self,
        src_addr: u32,
        dst_addr: u32,
        transfer_count: u16,
        mode: TransferMode,
        width: DataWidth,
        src_incr: AddressIncrement,
        dst_incr: AddressIncrement,
    ) -> (cfg: ChannelConfig)
        requires
            N < DMA_CHANNEL_COUNT,
        ensures
            cfg.dmasa == src_addr,
            cfg.dmada == dst_addr,
            cfg.dmasz == transfer_count,
            cfg.dmactl == spec_dmactl(mode, width, src_incr, dst_incr),
    {
        let width = width.bits() as u32;
        let dmactl = ((mode.bits() as u32) << 28) | (width << 8) | (width << 12) | ((src_incr.bits()
            as u32) << 16) | ((dst_incr.bits() as u32) << 20);
        ChannelConfig { dmasa: src_addr, dmada: dst_addr, dmasz: transfer_count as u32, dmactl }
    }

    /// The DMATCTL word that selects the trigger source.
    pub fn set_trigger(&self, trigger: TriggerSource, internal_trigger: bool) -> (w: u32)
        requires
            N < DMA_CHANNEL_COUNT,
        ensures
            w == (trigger.spec_bits() as u32) | (if internal_trigger { DMATCTL_DMATINT } else { 0 }),
    {
        let sel = trigger.bits() as u32;
        if internal_trigger {
            sel | DMATCTL_DMATINT
        } else {
            assert(sel | 0 == sel) by (bit_vector);
            sel
        }
    }

    /// The DMACTL word `dmactl` with the channel enabled.
    pub fn enable(&self, dmactl: u32) -> (w: u32)
        requires
            N < DMA_CHANNEL_COUNT,
        ensures
            w == dmactl | DMACTL_DMAEN,
    {
        dmactl | DMACTL_DMAEN
    }

    /// The DMACTL word `dmactl` with the channel disabled.
    pub fn disable(&self, dmactl: u32) -> (w: u32)
        requires
            N < DMA_CHANNEL_COUNT,
        ensures
            w == dmactl & !DMACTL_DMAEN,
    {
        dmactl & !DMACTL_DMAEN
    }

    /// The DMACTL word `dmactl` with a software transfer request.
    pub fn software_trigger(&self, dmactl: u32) -> (w: u32)
        requires
            N < DMA_CHANNEL_COUNT,
        ensures
            w == dmactl | DMACTL_DMAREQ,
    {
        dmactl | DMACTL_DMAREQ
    }

    /// Returns true when the transfer size in the DMASZ word `dmasz` has counted down to zero
    pub fn is_done(&self, dmasz: u32) -> (done: bool)
        requires
            N < DMA_CHANNEL_COUNT,
        ensures
            done == (dmasz % 0x10000 == 0),
    {
        assert((dmasz & 0xffff) == dmasz % 0x10000) by (bit_vector);
        dmasz & 0xffff == 0
    }

    /// The interrupt clear word for this channel's done flag.
    pub fn clear_done_flag(&self) -> (w: u32)
        requires
            N < DMA_CHANNEL_COUNT,
        ensures
            forall|n: u32| n < 32 ==> (#[trigger] spec_bit(w, n) <==> n == N),
    {
        let n = N as u32;
        assert forall|k: u32| k < 32 implies (#[trigger] spec_bit(1u32 << n, k) <==> k == N) by {
            lemma_single_bit(n, k);
        }
        1u32 << n
    }
}

/// Constructor for channel handle
pub fn dma_channel<const N: usize>() -> (c: DmaChannel<N>)
    ensures
        c == DmaChannel::<N>::handle(),
{
    DmaChannel::new()
}

pub type DmaChannel0 = DmaChannel<0>;

pub type DmaChannel1 = DmaChannel<1>;

pub type DmaChannel2 = DmaChannel<2>;

pub type DmaChannel3 = DmaChannel<3>;

pub type DmaChannel4 = DmaChannel<4>;

pub type DmaChannel5 = DmaChannel<5>;

pub type DmaChannel6 = DmaChannel<6>;

/// Handle on DMA channel 0.
pub fn dma_channel0() -> (c: DmaChannel0)
    ensures
        c == DmaChannel::<0>::handle(),
{
    DmaChannel::new()
}

/// Handle on DMA channel 1.
pub fn dma_channel1() -> (c: DmaChannel1)
    ensures
        c == DmaChannel::<1>::handle(),
{
    DmaChannel::new()
}

/// Handle on DMA channel 2.
pub fn dma_channel2() -> (c: DmaChannel2)
    ensures
        c == DmaChannel::<2>::handle(),
{
    DmaChannel::new()
}

/// Handle on DMA channel 3.
pub fn dma_channel3() -> (c: DmaChannel3)
    ensures
        c == DmaChannel::<3>::handle(),
{
    DmaChannel::new()
}

/// Handle on DMA channel 4.
pub fn dma_channel4() -> (c: DmaChannel4)
    ensures
        c == DmaChannel::<4>::handle(),
{
    DmaChannel::new()
}

/// Handle on DMA channel 5.
pub fn dma_channel5() -> (c: DmaChannel5)
    ensures
        c == DmaChannel::<5>::handle(),
{
    DmaChannel::new()
}

/// Handle on DMA channel 6.
pub fn dma_channel6() -> (c: DmaChannel6)
    ensures
        c == DmaChannel::<6>::handle(),
{
    DmaChannel::new()
}

} // verus!
