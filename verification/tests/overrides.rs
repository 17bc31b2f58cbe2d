//! Tests of the override algebra at the byte level: idempotence of an
//! override carrying the current value, and order independence of
//! overrides to different fields.

use flexspi_fcb::BusyBitPolarity;
use flexspi_fcb::FlexSPIFlashConfigurationBlock;
use flexspi_fcb::ReadSampleClk;
use flexspi_fcb::SerialClkFreq;

#[test]
fn override_with_current_value_changes_no_byte() {
    let base = FlexSPIFlashConfigurationBlock::build();
    let bytes = base.to_bytes();
    // Each override carries the field's default value.
    assert_eq!(base.cs_hold_time(3).to_bytes(), bytes);
    assert_eq!(base.cs_setup_time(3).to_bytes(), bytes);
    assert_eq!(base.sflash_b1_size(0x04000000).to_bytes(), bytes);
    assert_eq!(base.page_size(256).to_bytes(), bytes);
    assert_eq!(base.device_mode_arg([2, 0, 0, 0]).to_bytes(), bytes);
    assert_eq!(
        base.read_sample_clk(ReadSampleClk::InternalLoopback).to_bytes(),
        bytes
    );
    assert_eq!(
        base.busy_bit_polarity(BusyBitPolarity::Normal).to_bytes(),
        bytes
    );
}

#[test]
fn override_order_does_not_matter() {
    let base = FlexSPIFlashConfigurationBlock::build();
    let ab = base.cs_hold_time(7).page_size(1024).to_bytes();
    let ba = base.page_size(1024).cs_hold_time(7).to_bytes();
    assert_eq!(ab, ba);

    let ab = base
        .serial_clk_freq(SerialClkFreq::SdrDdr100mhz)
        .busy_offset(5)
        .to_bytes();
    let ba = base
        .busy_offset(5)
        .serial_clk_freq(SerialClkFreq::SdrDdr100mhz)
        .to_bytes();
    assert_eq!(ab, ba);

    let ab = base.sflash_a1_size(0x100).sflash_a2_size(0x200).to_bytes();
    let ba = base.sflash_a2_size(0x200).sflash_a1_size(0x100).to_bytes();
    assert_eq!(ab, ba);
}

#[test]
fn overrides_chain() {
    let b = FlexSPIFlashConfigurationBlock::build()
        .cs_hold_time(1)
        .cs_setup_time(2)
        .timeout_in_ms(500)
        .flash_state_ctx(0);
    assert_eq!(b.cs_hold_time, 1);
    assert_eq!(b.cs_setup_time, 2);
    assert_eq!(b.timeout_in_ms, 500);
    assert_eq!(b.flash_state_ctx, 0);
    // Untouched fields keep their defaults.
    assert_eq!(b.tag, 0x42464346);
    assert_eq!(b.page_size, 256);
}
