//! Tests of the default record: identification constants, reference
//! device values, and pinned lookup-table entries.

use flexspi_fcb::flexspi_lut_seq;
use flexspi_fcb::BusyBitPolarity;
use flexspi_fcb::ColumnAddressWidth;
use flexspi_fcb::DeviceType;
use flexspi_fcb::FlexSPIFlashConfigurationBlock;
use flexspi_fcb::FlexSpiLutOpcode;
use flexspi_fcb::FlexSpiNumPads;
use flexspi_fcb::ReadSampleClk;
use flexspi_fcb::SFlashPadType;
use flexspi_fcb::SerialClkFreq;
use flexspi_fcb::SerialNORType;

#[test]
fn default_tag_and_version() {
    let b = FlexSPIFlashConfigurationBlock::build();
    assert_eq!(b.tag, 0x42464346);
    assert_eq!(b.version, 0x56020000);
}

#[test]
fn default_field_values() {
    let b = FlexSPIFlashConfigurationBlock::build();
    assert!(matches!(b.read_sample_clk, ReadSampleClk::InternalLoopback));
    assert_eq!(b.cs_hold_time, 3);
    assert_eq!(b.cs_setup_time, 3);
    assert!(matches!(b.column_address_width, ColumnAddressWidth::Other));
    assert_eq!(b.device_mode_cfg_enable, 1);
    assert_eq!(b.reserved1, [2]);
    assert_eq!(b.wait_time_cfg_commands, 1);
    assert_eq!(b.device_mode_seq.num_seq, 1);
    assert_eq!(b.device_mode_seq.seq_index, 6);
    assert_eq!(b.device_mode_arg, [2, 0, 0, 0]);
    assert_eq!(b.config_cmd_enable, 0);
    assert_eq!(b.controller_misc_option.0, 0x50);
    assert!(matches!(b.device_type, DeviceType::SerialNOR));
    assert!(matches!(b.sflash_pad_type, SFlashPadType::OctalPads));
    assert!(matches!(b.serial_clk_freq, SerialClkFreq::SdrDdr30mhz));
    assert_eq!(b.sflash_a1_size, 0);
    assert_eq!(b.sflash_b1_size, 0x04000000);
    assert!(matches!(b.busy_bit_polarity, BusyBitPolarity::Normal));
    assert_eq!(b.page_size, 256);
    assert_eq!(b.sector_size, 4096);
    assert_eq!(b.ipcmd_serial_clk_freq, 1);
    assert!(matches!(b.serial_nor_type, SerialNORType::Xpi));
    assert_eq!(b.block_size, 0x10000);
    assert_eq!(b.flash_state_ctx, 0x07008200);
}

#[test]
fn default_misc_option_bits() {
    let b = FlexSPIFlashConfigurationBlock::build();
    // 0x50 sets bits 4 and 6.
    assert!(!b.controller_misc_option.differential_clock());
    assert!(!b.controller_misc_option.word_addressable());
    assert!(b.controller_misc_option.safe_config_freq());
    assert!(b.controller_misc_option.ddr_mode());
}

#[test]
fn misc_option_setters_flip_single_bits() {
    let b = FlexSPIFlashConfigurationBlock::build();
    let mut m = b.controller_misc_option;
    m.set_differential_clock(true);
    assert_eq!(m.0, 0x51);
    m.set_ddr_mode(false);
    assert_eq!(m.0, 0x11);
    m.set_word_addressable(true);
    assert_eq!(m.0, 0x19);
    m.set_safe_config_freq(false);
    assert_eq!(m.0, 0x09);
}

#[test]
fn default_lookup_table_pinned_groups() {
    let b = FlexSPIFlashConfigurationBlock::build();
    let lut = b.lookup_table;
    // Read group (sequence 0)
    assert_eq!(lut[0], 0x861186EE);
    assert_eq!(
        lut[1],
        flexspi_lut_seq(
            FlexSpiLutOpcode::RADDR_DDR,
            FlexSpiNumPads::Quad,
            0x20,
            FlexSpiLutOpcode::DUMMY_DDR,
            FlexSpiNumPads::Quad,
            0x29,
        )
    );
    assert_eq!(lut[3], 0);
    // Read-status-SPI group (sequence 1)
    assert_eq!(lut[4], 0x24040405);
    assert_eq!(lut[5], 0);
    // Write-enable group (sequence 3)
    assert_eq!(lut[12], 0x00000406);
    // Erase-sector group (sequence 5)
    assert_eq!(lut[20], 0x86DE8621);
    // Unused groups are all zero.
    for j in 48..64 {
        assert_eq!(lut[j], 0);
    }
}
