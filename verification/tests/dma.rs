use mspm0l222x_hal::dma::{
    all_channels_mask, dma_channel, dma_channel0, dma_channel3, dma_channel6, AddressIncrement,
    DataWidth, DmaChannel, DmaChannel2, TransferMode, TriggerSource, DMA_CHANNEL_COUNT,
};

#[test]
fn handles_are_the_same() {
    let _a: DmaChannel<4> = dma_channel::<4>();
    let _b: DmaChannel<4> = DmaChannel::new();
    let _c: DmaChannel2 = mspm0l222x_hal::dma::dma_channel2();
    assert_eq!(core::mem::size_of::<DmaChannel<4>>(), 0);
}

#[test]
fn channel_range() {
    assert!(DmaChannel::<0>::check_channel());
    assert!(DmaChannel::<6>::check_channel());
    assert!(!DmaChannel::<7>::check_channel());
    assert_eq!(DMA_CHANNEL_COUNT, 7);
}

#[test]
fn init_clears_all_channels() {
    assert_eq!(all_channels_mask(), 0x7f);
}

#[test]
fn configure_packs_fields() {
    let ch = dma_channel::<1>();
    let cfg = ch.configure(
        0x2000_0000,
        0x4000_1000,
        16,
        TransferMode::Block,
        DataWidth::Word,
        AddressIncrement::Increment,
        AddressIncrement::Unchanged,
    );
    assert_eq!(cfg.dmasa, 0x2000_0000);
    assert_eq!(cfg.dmada, 0x4000_1000);
    assert_eq!(cfg.dmasz, 16);
    assert_eq!(cfg.dmactl, (1 << 28) | (2 << 8) | (2 << 12) | (3 << 16));
    let cfg = dma_channel3().configure(
        0,
        0,
        0xffff,
        TransferMode::RepeatedBlock,
        DataWidth::LongWord,
        AddressIncrement::Stride9,
        AddressIncrement::Decrement,
    );
    assert_eq!(cfg.dmactl, (3 << 28) | (3 << 8) | (3 << 12) | (15 << 16) | (2 << 20));
    assert_eq!(cfg.dmactl & 0b11, 0);
}

#[test]
fn enable_disable_trigger() {
    let ch: DmaChannel2 = DmaChannel::new();
    assert_eq!(ch.enable(0x1000_0000), 0x1000_0002);
    assert_eq!(ch.disable(0x1000_0003), 0x1000_0001);
    assert_eq!(ch.disable(ch.enable(0x30)), 0x30);
    assert_eq!(ch.software_trigger(0x2), 0x3);
}

#[test]
fn done_when_size_zero() {
    let ch = dma_channel0();
    assert!(ch.is_done(0));
    assert!(ch.is_done(0xffff_0000));
    assert!(!ch.is_done(1));
}

#[test]
fn done_flag_per_channel() {
    assert_eq!(dma_channel0().clear_done_flag(), 1);
    assert_eq!(dma_channel6().clear_done_flag(), 0x40);
    assert_eq!(dma_channel6().clear_done_flag() & !all_channels_mask(), 0);
}

#[test]
fn trigger_select() {
    let ch = dma_channel0();
    assert_eq!(ch.set_trigger(TriggerSource::Software, false), 0);
    assert_eq!(ch.set_trigger(TriggerSource::Uart0Publisher1, false), 15);
    assert_eq!(ch.set_trigger(TriggerSource::Adc0Publisher2, true), 25 | 0x80);
}

#[test]
fn enum_encodings() {
    assert_eq!(TriggerSource::AesPublisher1Alt.bits(), 4);
    assert_eq!(TransferMode::RepeatedSingle.bits(), 2);
    assert_eq!(DataWidth::HalfWord.bits(), 1);
    assert_eq!(AddressIncrement::Stride2.bits(), 8);
    assert_eq!(AddressIncrement::Decrement.bits(), 2);
}
