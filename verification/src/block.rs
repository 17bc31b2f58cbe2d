//! The FlexSPI flash configuration block: a fixed-layout, 512-byte
//! record read by the boot ROM at fixed byte offsets.
//!
//! The record is built once from [`FlexSPIFlashConfigurationBlock::build`],
//! which fills every field with the working default for the reference
//! flash part, and then refined by zero or more override methods, each of
//! which replaces exactly one field and leaves every other field — and
//! therefore the record's size and every field's offset — unchanged.

use vstd::prelude::*;

use crate::fields::BusyBitPolarity;
use crate::fields::ColumnAddressWidth;
use crate::fields::ControllerMiscOption;
use crate::fields::DeviceModeSeq;
use crate::fields::DeviceType;
use crate::fields::ReadSampleClk;
use crate::fields::SFlashPadType;
use crate::fields::SerialClkFreq;
use crate::fields::SerialNORType;
use crate::lut::flexspi_lut_seq;
use crate::lut::spec_lut_word;
use crate::lut::FlexSpiLutOpcode::CMD_DDR;
use crate::lut::FlexSpiLutOpcode::CMD_SDR;
use crate::lut::FlexSpiLutOpcode::DUMMY_DDR;
use crate::lut::FlexSpiLutOpcode::RADDR_DDR;
use crate::lut::FlexSpiLutOpcode::READ_DDR;
use crate::lut::FlexSpiLutOpcode::READ_SDR;
use crate::lut::FlexSpiLutOpcode::STOP;
use crate::lut::FlexSpiLutOpcode::WRITE_DDR;
use crate::lut::FlexSpiLutOpcode::WRITE_SDR;
use crate::lut::FlexSpiNumPads::Quad;
use crate::lut::FlexSpiNumPads::Single;

verus! {

/// Magic constant identifying the record format; the boot ROM rejects a
/// record with any other tag.
pub const BLOCK_TAG: u32 = 0x42464346;

/// Fixed revision constant of this record format.
pub const BLOCK_VERSION: u32 = 0x56020000;

/// A sequence of `n` zero bytes, the content of most reserved ranges.
pub open spec fn zero_bytes(n: nat) -> Seq<u8> {
    Seq::new(n, |i: int| 0u8)
}

/// The FlexSPI flash configuration block.  Fields are declared in
/// layout order; serialization writes them back to back with no padding,
/// so each field's byte offset is fixed (see [`crate::layout`]).
///
/// The `reserved*` ranges satisfy the fixed offset contract only; the
/// boot ROM never interprets them.  All are zero-filled except
/// `reserved1`, whose single filler byte is kept at its documented
/// non-zero value for compatibility.
#[derive(Clone, Copy, PartialEq, Eq)]
pub struct FlexSPIFlashConfigurationBlock {
    /// Magic tag, always [`BLOCK_TAG`].
    pub tag: u32,
    /// Format revision, always [`BLOCK_VERSION`].
    pub version: u32,
    /// Reserved, zero.
    pub reserved0: [u8; 4],
    /// How read data is sampled.
    pub read_sample_clk: ReadSampleClk,
    /// Chip-select hold time.
    pub cs_hold_time: u8,
    /// Chip-select setup time.
    pub cs_setup_time: u8,
    /// Column address width of the part.
    pub column_address_width: ColumnAddressWidth,
    /// Nonzero when the device-mode switch sequence is issued.
    pub device_mode_cfg_enable: u8,
    /// Reserved filler byte, kept at its documented non-zero value.
    pub reserved1: [u8; 1],
    /// Wait time between configuration commands, in 100 us units.
    pub wait_time_cfg_commands: u16,
    /// LUT sequence that switches the device mode.
    pub device_mode_seq: DeviceModeSeq,
    /// Argument sent by the device-mode switch sequence.
    pub device_mode_arg: [u8; 4],
    /// Nonzero when the configuration command sequences are issued.
    pub config_cmd_enable: u8,
    /// Mode of each configuration command.
    pub config_mode_type: [u8; 3],
    /// LUT sequence index and count of each configuration command.
    pub config_cmd_seqs: [u8; 12],
    /// Reserved, zero.
    pub reserved2: [u8; 4],
    /// Argument of each configuration command.
    pub config_cmd_args: [u8; 12],
    /// Reserved, zero.
    pub reserved3: [u8; 4],
    /// Miscellaneous controller option bits.
    pub controller_misc_option: ControllerMiscOption,
    /// Kind of flash part attached.
    pub device_type: DeviceType,
    /// Pad count wired to the part.
    pub sflash_pad_type: SFlashPadType,
    /// Serial clock frequency class.
    pub serial_clk_freq: SerialClkFreq,
    /// Nonzero when the custom LUT sequence table is used.
    pub lut_custom_seq_enable: u8,
    /// Reserved, zero.
    pub reserved4: [u8; 8],
    /// Size of flash region A1 in bytes.
    pub sflash_a1_size: u32,
    /// Size of flash region A2 in bytes.
    pub sflash_a2_size: u32,
    /// Size of flash region B1 in bytes.
    pub sflash_b1_size: u32,
    /// Size of flash region B2 in bytes.
    pub sflash_b2_size: u32,
    /// Chip-select pad setting override; zero keeps the default.
    pub cs_pad_override: u32,
    /// Serial clock pad setting override; zero keeps the default.
    pub sclk_pad_setting_override: u32,
    /// Data pad setting override; zero keeps the default.
    pub data_pad_setting_override: u32,
    /// DQS pad setting override; zero keeps the default.
    pub dqs_pad_setting_override: u32,
    /// Command timeout in milliseconds; zero keeps the default.
    pub timeout_in_ms: u32,
    /// Interval between commands; zero keeps the default.
    pub command_interval: u32,
    /// Data valid time per pad group; zero keeps the default.
    pub data_valid_time: u32,
    /// Offset of the busy bit in the status register.
    pub busy_offset: u16,
    /// Polarity of the busy bit.
    pub busy_bit_polarity: BusyBitPolarity,
    /// The lookup table: 16 groups of 4 instruction words, one group per
    /// named flash operation; every word comes from the LUT encoder.
    pub lookup_table: [u32; 64],
    /// Custom LUT sequence table, zero when unused.
    pub lut_custom_seq: [u8; 48],
    /// Reserved, zero.
    pub reserved5: [u8; 16],
    /// Program page size in bytes.
    pub page_size: u32,
    /// Erase sector size in bytes.
    pub sector_size: u32,
    /// Clock frequency class for IP commands.
    pub ipcmd_serial_clk_freq: u8,
    /// Nonzero when every block has the same size.
    pub is_uniform_block_size: u8,
    /// Nonzero when data order is swapped.
    pub is_data_order_swapped: u8,
    /// Reserved, zero.
    pub reserved6: [u8; 1],
    /// Command protocol of the part.
    pub serial_nor_type: SerialNORType,
    /// Nonzero when the part must leave no-command mode first.
    pub need_exit_no_cmd_mode: u8,
    /// Nonzero when non-read commands run at half clock.
    pub half_clk_for_non_read_cmd: u8,
    /// Nonzero when no-command mode must be restored afterwards.
    pub need_restore_no_cmd_mode: u8,
    /// Erase block size in bytes.
    pub block_size: u32,
    /// Flash state context handed back to the ROM.
    pub flash_state_ctx: u32,
    /// Reserved, zero.
    pub reserved7: [u8; 40],
}

/// The default lookup table of the reference flash part: 16 groups of 4
/// words; a group shorter than 4 words is padded with the canonical stop
/// word, and a fully unused group is all zero.
pub open spec fn default_lookup_table() -> Seq<u32> {
    seq![
        // Read
        spec_lut_word(CMD_DDR, Quad, 0xee, CMD_DDR, Quad, 0x11),
        spec_lut_word(RADDR_DDR, Quad, 0x20, DUMMY_DDR, Quad, 0x29),
        spec_lut_word(READ_DDR, Quad, 0x04, STOP, Single, 0x00),
        0u32,
        // Read status, SPI mode
        spec_lut_word(CMD_SDR, Single, 0x05, READ_SDR, Single, 0x04),
        0u32,
        0u32,
        0u32,
        // Read status, OPI mode
        spec_lut_word(CMD_DDR, Quad, 0x05, CMD_DDR, Quad, 0xFA),
        spec_lut_word(RADDR_DDR, Quad, 0x20, DUMMY_DDR, Quad, 0x14),
        spec_lut_word(READ_DDR, Quad, 0x04, STOP, Single, 0x00),
        0u32,
        // Write enable
        spec_lut_word(CMD_SDR, Single, 0x06, STOP, Single, 0x00),
        0u32,
        0u32,
        0u32,
        // Write enable, OPI mode
        spec_lut_word(CMD_DDR, Quad, 0x06, CMD_DDR, Quad, 0xF9),
        0u32,
        0u32,
        0u32,
        // Erase sector
        spec_lut_word(CMD_DDR, Quad, 0x21, CMD_DDR, Quad, 0xDE),
        spec_lut_word(RADDR_DDR, Quad, 0x20, STOP, Single, 0x00),
        0u32,
        0u32,
        // Enable OPI DDR mode
        spec_lut_word(CMD_SDR, Single, 0x72, CMD_SDR, Single, 0x00),
        spec_lut_word(CMD_SDR, Single, 0x00, CMD_SDR, Single, 0x00),
        spec_lut_word(CMD_SDR, Single, 0x00, WRITE_SDR, Single, 0x01),
        0u32,
        // Unused
        0u32,
        0u32,
        0u32,
        0u32,
        // Erase block
        spec_lut_word(CMD_DDR, Quad, 0xDC, CMD_DDR, Quad, 0x23),
        spec_lut_word(RADDR_DDR, Quad, 0x20, STOP, Single, 0x00),
        0u32,
        0u32,
        // Page program
        spec_lut_word(CMD_DDR, Quad, 0x12, CMD_DDR, Quad, 0xED),
        spec_lut_word(RADDR_DDR, Quad, 0x20, WRITE_DDR, Quad, 0x04),
        0u32,
        0u32,
        // Unused
        0u32,
        0u32,
        0u32,
        0u32,
        // Erase chip
        spec_lut_word(CMD_DDR, Quad, 0x60, CMD_DDR, Quad, 0x9F),
        0u32,
        0u32,
        0u32,
        // Remainder is unused
        0u32,
        0u32,
        0u32,
        0u32,
        0u32,
        0u32,
        0u32,
        0u32,
        0u32,
        0u32,
        0u32,
        0u32,
        0u32,
        0u32,
        0u32,
        0u32,
    ]
}

impl FlexSPIFlashConfigurationBlock {
    /// Builds the complete default record for the reference flash part:
    /// the fixed tag and version, every reserved range at its fixed
    /// filler, the reference timing, geometry and option values, and the
    /// fully populated default lookup table.
    pub fn build() -> (r: Self)
        ensures
            r.tag == BLOCK_TAG,
            r.version == BLOCK_VERSION,
            r.reserved0@ == zero_bytes(4),
            r.read_sample_clk == ReadSampleClk::InternalLoopback,
            r.cs_hold_time == 3,
            r.cs_setup_time == 3,
            r.column_address_width == ColumnAddressWidth::Other,
            r.device_mode_cfg_enable == 1,
            r.reserved1@ == seq![2u8],
            r.wait_time_cfg_commands == 1,
            r.device_mode_seq.num_seq == 1,
            r.device_mode_seq.seq_index == 6,
            r.device_mode_seq.reserved@ == zero_bytes(2),
            r.device_mode_arg@ == seq![2u8, 0u8, 0u8, 0u8],
            r.config_cmd_enable == 0,
            r.config_mode_type@ == zero_bytes(3),
            r.config_cmd_seqs@ == zero_bytes(12),
            r.reserved2@ == zero_bytes(4),
            r.config_cmd_args@ == zero_bytes(12),
            r.reserved3@ == zero_bytes(4),
            r.controller_misc_option.0 == 0x50,
            r.device_type == DeviceType::SerialNOR,
            r.sflash_pad_type == SFlashPadType::OctalPads,
            r.serial_clk_freq == SerialClkFreq::SdrDdr30mhz,
            r.lut_custom_seq_enable == 0,
            r.reserved4@ == zero_bytes(8),
            r.sflash_a1_size == 0,
            r.sflash_a2_size == 0,
            r.sflash_b1_size == 0x04000000,
            r.sflash_b2_size == 0,
            r.cs_pad_override == 0,
            r.sclk_pad_setting_override == 0,
            r.data_pad_setting_override == 0,
            r.dqs_pad_setting_override == 0,
            r.timeout_in_ms == 0,
            r.command_interval == 0,
            r.data_valid_time == 0,
            r.busy_offset == 0,
            r.busy_bit_polarity == BusyBitPolarity::Normal,
            r.lookup_table@ == default_lookup_table(),
            r.lut_custom_seq@ == zero_bytes(48),
            r.reserved5@ == zero_bytes(16),
            r.page_size == 256,
            r.sector_size == 4096,
            r.ipcmd_serial_clk_freq == 1,
            r.is_uniform_block_size == 0,
            r.is_data_order_swapped == 0,
            r.reserved6@ == zero_bytes(1),
            r.serial_nor_type == SerialNORType::Xpi,
            r.need_exit_no_cmd_mode == 0,
            r.half_clk_for_non_read_cmd == 0,
            r.need_restore_no_cmd_mode == 0,
            r.block_size == 0x10000,
            r.flash_state_ctx == 0x07008200,
            r.reserved7@ == zero_bytes(40),
    {
        let read0: u32 = flexspi_lut_seq(CMD_DDR, Quad, 0xee, CMD_DDR, Quad, 0x11);
        let read1: u32 = flexspi_lut_seq(RADDR_DDR, Quad, 0x20, DUMMY_DDR, Quad, 0x29);
        let read2: u32 = flexspi_lut_seq(READ_DDR, Quad, 0x04, STOP, Single, 0x00);
        let rdsr_spi0: u32 = flexspi_lut_seq(CMD_SDR, Single, 0x05, READ_SDR, Single, 0x04);
        let rdsr_opi0: u32 = flexspi_lut_seq(CMD_DDR, Quad, 0x05, CMD_DDR, Quad, 0xFA);
        let rdsr_opi1: u32 = flexspi_lut_seq(RADDR_DDR, Quad, 0x20, DUMMY_DDR, Quad, 0x14);
        let rdsr_opi2: u32 = flexspi_lut_seq(READ_DDR, Quad, 0x04, STOP, Single, 0x00);
        let wren0: u32 = flexspi_lut_seq(CMD_SDR, Single, 0x06, STOP, Single, 0x00);
        let wren_opi0: u32 = flexspi_lut_seq(CMD_DDR, Quad, 0x06, CMD_DDR, Quad, 0xF9);
        let erase_sec0: u32 = flexspi_lut_seq(CMD_DDR, Quad, 0x21, CMD_DDR, Quad, 0xDE);
        let erase_sec1: u32 = flexspi_lut_seq(RADDR_DDR, Quad, 0x20, STOP, Single, 0x00);
        let opi_ddr0: u32 = flexspi_lut_seq(CMD_SDR, Single, 0x72, CMD_SDR, Single, 0x00);
        let opi_ddr1: u32 = flexspi_lut_seq(CMD_SDR, Single, 0x00, CMD_SDR, Single, 0x00);
        let opi_ddr2: u32 = flexspi_lut_seq(CMD_SDR, Single, 0x00, WRITE_SDR, Single, 0x01);
        let erase_blk0: u32 = flexspi_lut_seq(CMD_DDR, Quad, 0xDC, CMD_DDR, Quad, 0x23);
        let erase_blk1: u32 = flexspi_lut_seq(RADDR_DDR, Quad, 0x20, STOP, Single, 0x00);
        let prog0: u32 = flexspi_lut_seq(CMD_DDR, Quad, 0x12, CMD_DDR, Quad, 0xED);
        let prog1: u32 = flexspi_lut_seq(RADDR_DDR, Quad, 0x20, WRITE_DDR, Quad, 0x04);
        let erase_chip0: u32 = flexspi_lut_seq(CMD_DDR, Quad, 0x60, CMD_DDR, Quad, 0x9F);
        let lookup_table: [u32; 64] = [
            read0,
            read1,
            read2,
            0,
            rdsr_spi0,
            0,
            0,
            0,
            rdsr_opi0,
            rdsr_opi1,
            rdsr_opi2,
            0,
            wren0,
            0,
            0,
            0,
            wren_opi0,
            0,
            0,
            0,
            erase_sec0,
            erase_sec1,
            0,
            0,
            opi_ddr0,
            opi_ddr1,
            opi_ddr2,
            0,
            0,
            0,
            0,
            0,
            erase_blk0,
            erase_blk1,
            0,
            0,
            prog0,
            prog1,
            0,
            0,
            0,
            0,
            0,
            0,
            erase_chip0,
            0,
            0,
            0,
            0,
            0,
            0,
            0,
            0,
            0,
            0,
            0,
            0,
            0,
            0,
            0,
            0,
            0,
            0,
            0,
        ];
        let r = FlexSPIFlashConfigurationBlock {
            tag: BLOCK_TAG,
            version: BLOCK_VERSION,
            reserved0: [0; 4],
            read_sample_clk: ReadSampleClk::InternalLoopback,
            cs_hold_time: 3,
            cs_setup_time: 3,
            column_address_width: ColumnAddressWidth::Other,
            device_mode_cfg_enable: 1,
            reserved1: [2; 1],
            wait_time_cfg_commands: 1,
            device_mode_seq: DeviceModeSeq::build(),
            device_mode_arg: [2, 0, 0, 0],
            config_cmd_enable: 0,
            config_mode_type: [0; 3],
            config_cmd_seqs: [0; 12],
            reserved2: [0; 4],
            config_cmd_args: [0; 12],
            reserved3: [0; 4],
            controller_misc_option: ControllerMiscOption(0x50),
            device_type: DeviceType::SerialNOR,
            sflash_pad_type: SFlashPadType::OctalPads,
            serial_clk_freq: SerialClkFreq::SdrDdr30mhz,
            lut_custom_seq_enable: 0,
            reserved4: [0; 8],
            sflash_a1_size: 0,
            sflash_a2_size: 0,
            sflash_b1_size: 0x04000000,
            sflash_b2_size: 0,
            cs_pad_override: 0,
            sclk_pad_setting_override: 0,
            data_pad_setting_override: 0,
            dqs_pad_setting_override: 0,
            timeout_in_ms: 0,
            command_interval: 0,
            data_valid_time: 0,
            busy_offset: 0,
            busy_bit_polarity: BusyBitPolarity::Normal,
            lookup_table,
            lut_custom_seq: [0; 48],
            reserved5: [0; 16],
            page_size: 256,
            sector_size: 4096,
            ipcmd_serial_clk_freq: 1,
            is_uniform_block_size: 0,
            is_data_order_swapped: 0,
            reserved6: [0; 1],
            serial_nor_type: SerialNORType::Xpi,
            need_exit_no_cmd_mode: 0,
            half_clk_for_non_read_cmd: 0,
            need_restore_no_cmd_mode: 0,
            block_size: 0x10_000,
            flash_state_ctx: 0x07008200,
            reserved7: [0; 40],
        };
        proof {
            assert(r.lookup_table@ =~= default_lookup_table());
            assert(r.reserved0@ =~= zero_bytes(4));
            assert(r.reserved1@ =~= seq![2u8]);
            assert(r.device_mode_arg@ =~= seq![2u8, 0u8, 0u8, 0u8]);
            assert(r.config_mode_type@ =~= zero_bytes(3));
            assert(r.config_cmd_seqs@ =~= zero_bytes(12));
            assert(r.reserved2@ =~= zero_bytes(4));
            assert(r.config_cmd_args@ =~= zero_bytes(12));
            assert(r.reserved3@ =~= zero_bytes(4));
            assert(r.reserved4@ =~= zero_bytes(8));
            assert(r.lut_custom_seq@ =~= zero_bytes(48));
            assert(r.reserved5@ =~= zero_bytes(16));
            assert(r.reserved6@ =~= zero_bytes(1));
            assert(r.reserved7@ =~= zero_bytes(40));
            assert(r.device_mode_seq.reserved@ =~= zero_bytes(2));
        }
        r
    }
}

/// A single field override: each variant names one overridable field
/// of the record and carries its new value.  [`apply_override`] is the
/// record each override method returns, so laws stated over it hold of
/// the builder API.
pub enum FieldOverride {
    /// New value for `read_sample_clk`.
    ReadSampleClkSel(ReadSampleClk),
    /// New value for `cs_hold_time`.
    CsHoldTime(u8),
    /// New value for `cs_setup_time`.
    CsSetupTime(u8),
    /// New value for `column_address_width`.
    ColumnAddressWidthSel(ColumnAddressWidth),
    /// New value for `device_mode_cfg_enable`.
    DeviceModeCfgEnable(u8),
    /// New value for `wait_time_cfg_commands`.
    WaitTimeCfgCommands(u16),
    /// New value for `device_mode_seq`.
    DeviceModeSeqSel(DeviceModeSeq),
    /// New value for `device_mode_arg`.
    DeviceModeArg([u8; 4]),
    /// New value for `config_cmd_enable`.
    ConfigCmdEnable(u8),
    /// New value for `config_mode_type`.
    ConfigModeType([u8; 3]),
    /// New value for `config_cmd_seqs`.
    ConfigCmdSeqs([u8; 12]),
    /// New value for `config_cmd_args`.
    ConfigCmdArgs([u8; 12]),
    /// New value for `controller_misc_option`.
    ControllerMiscOptionSel(ControllerMiscOption),
    /// New value for `device_type`.
    DeviceTypeSel(DeviceType),
    /// New value for `sflash_pad_type`.
    SFlashPadTypeSel(SFlashPadType),
    /// New value for `serial_clk_freq`.
    SerialClkFreqSel(SerialClkFreq),
    /// New value for `lut_custom_seq_enable`.
    LutCustomSeqEnable(u8),
    /// New value for `sflash_a1_size`.
    SflashA1Size(u32),
    /// New value for `sflash_a2_size`.
    SflashA2Size(u32),
    /// New value for `sflash_b1_size`.
    SflashB1Size(u32),
    /// New value for `sflash_b2_size`.
    SflashB2Size(u32),
    /// New value for `cs_pad_override`.
    CsPadOverride(u32),
    /// New value for `sclk_pad_setting_override`.
    SclkPadSettingOverride(u32),
    /// New value for `data_pad_setting_override`.
    DataPadSettingOverride(u32),
    /// New value for `dqs_pad_setting_override`.
    DqsPadSettingOverride(u32),
    /// New value for `timeout_in_ms`.
    TimeoutInMs(u32),
    /// New value for `command_interval`.
    CommandInterval(u32),
    /// New value for `data_valid_time`.
    DataValidTime(u32),
    /// New value for `busy_offset`.
    BusyOffset(u16),
    /// New value for `busy_bit_polarity`.
    BusyBitPolaritySel(BusyBitPolarity),
    /// New value for `lookup_table`.
    LookupTable([u32; 64]),
    /// New value for `lut_custom_seq`.
    LutCustomSeq([u8; 48]),
    /// New value for `page_size`.
    PageSize(u32),
    /// New value for `sector_size`.
    SectorSize(u32),
    /// New value for `ipcmd_serial_clk_freq`.
    IpcmdSerialClkFreq(u8),
    /// New value for `is_uniform_block_size`.
    IsUniformBlockSize(u8),
    /// New value for `is_data_order_swapped`.
    IsDataOrderSwapped(u8),
    /// New value for `serial_nor_type`.
    SerialNorTypeSel(SerialNORType),
    /// New value for `need_exit_no_cmd_mode`.
    NeedExitNoCmdMode(u8),
    /// New value for `half_clk_for_non_read_cmd`.
    HalfClkForNonReadCmd(u8),
    /// New value for `need_restore_no_cmd_mode`.
    NeedRestoreNoCmdMode(u8),
    /// New value for `block_size`.
    BlockSizeSel(u32),
    /// New value for `flash_state_ctx`.
    FlashStateCtx(u32),
}

/// The record `b` with the one field named by `o` replaced by the
/// value `o` carries, and every other field unchanged.
pub open spec fn apply_override(b: FlexSPIFlashConfigurationBlock, o: FieldOverride) -> FlexSPIFlashConfigurationBlock {
    FlexSPIFlashConfigurationBlock {
        tag: b.tag,
        version: b.version,
        reserved0: b.reserved0,
        read_sample_clk: match o {
            FieldOverride::ReadSampleClkSel(v) => v,
            _ => b.read_sample_clk,
        },
        cs_hold_time: match o {
            FieldOverride::CsHoldTime(v) => v,
            _ => b.cs_hold_time,
        },
        cs_setup_time: match o {
            FieldOverride::CsSetupTime(v) => v,
            _ => b.cs_setup_time,
        },
        column_address_width: match o {
            FieldOverride::ColumnAddressWidthSel(v) => v,
            _ => b.column_address_width,
        },
        device_mode_cfg_enable: match o {
            FieldOverride::DeviceModeCfgEnable(v) => v,
            _ => b.device_mode_cfg_enable,
        },
        reserved1: b.reserved1,
        wait_time_cfg_commands: match o {
            FieldOverride::WaitTimeCfgCommands(v) => v,
            _ => b.wait_time_cfg_commands,
        },
        device_mode_seq: match o {
            FieldOverride::DeviceModeSeqSel(v) => v,
            _ => b.device_mode_seq,
        },
        device_mode_arg: match o {
            FieldOverride::DeviceModeArg(v) => v,
            _ => b.device_mode_arg,
        },
        config_cmd_enable: match o {
            FieldOverride::ConfigCmdEnable(v) => v,
            _ => b.config_cmd_enable,
        },
        config_mode_type: match o {
            FieldOverride::ConfigModeType(v) => v,
            _ => b.config_mode_type,
        },
        config_cmd_seqs: match o {
            FieldOverride::ConfigCmdSeqs(v) => v,
            _ => b.config_cmd_seqs,
        },
        reserved2: b.reserved2,
        config_cmd_args: match o {
            FieldOverride::ConfigCmdArgs(v) => v,
            _ => b.config_cmd_args,
        },
        reserved3: b.reserved3,
        controller_misc_option: match o {
            FieldOverride::ControllerMiscOptionSel(v) => v,
            _ => b.controller_misc_option,
        },
        device_type: match o {
            FieldOverride::DeviceTypeSel(v) => v,
            _ => b.device_type,
        },
        sflash_pad_type: match o {
            FieldOverride::SFlashPadTypeSel(v) => v,
            _ => b.sflash_pad_type,
        },
        serial_clk_freq: match o {
            FieldOverride::SerialClkFreqSel(v) => v,
            _ => b.serial_clk_freq,
        },
        lut_custom_seq_enable: match o {
            FieldOverride::LutCustomSeqEnable(v) => v,
            _ => b.lut_custom_seq_enable,
        },
        reserved4: b.reserved4,
        sflash_a1_size: match o {
            FieldOverride::SflashA1Size(v) => v,
            _ => b.sflash_a1_size,
        },
        sflash_a2_size: match o {
            FieldOverride::SflashA2Size(v) => v,
            _ => b.sflash_a2_size,
        },
        sflash_b1_size: match o {
            FieldOverride::SflashB1Size(v) => v,
            _ => b.sflash_b1_size,
        },
        sflash_b2_size: match o {
            FieldOverride::SflashB2Size(v) => v,
            _ => b.sflash_b2_size,
        },
        cs_pad_override: match o {
            FieldOverride::CsPadOverride(v) => v,
            _ => b.cs_pad_override,
        },
        sclk_pad_setting_override: match o {
            FieldOverride::SclkPadSettingOverride(v) => v,
            _ => b.sclk_pad_setting_override,
        },
        data_pad_setting_override: match o {
            FieldOverride::DataPadSettingOverride(v) => v,
            _ => b.data_pad_setting_override,
        },
        dqs_pad_setting_override: match o {
            FieldOverride::DqsPadSettingOverride(v) => v,
            _ => b.dqs_pad_setting_override,
        },
        timeout_in_ms: match o {
            FieldOverride::TimeoutInMs(v) => v,
            _ => b.timeout_in_ms,
        },
        command_interval: match o {
            FieldOverride::CommandInterval(v) => v,
            _ => b.command_interval,
        },
        data_valid_time: match o {
            FieldOverride::DataValidTime(v) => v,
            _ => b.data_valid_time,
        },
        busy_offset: match o {
            FieldOverride::BusyOffset(v) => v,
            _ => b.busy_offset,
        },
        busy_bit_polarity: match o {
            FieldOverride::BusyBitPolaritySel(v) => v,
            _ => b.busy_bit_polarity,
        },
        lookup_table: match o {
            FieldOverride::LookupTable(v) => v,
            _ => b.lookup_table,
        },
        lut_custom_seq: match o {
            FieldOverride::LutCustomSeq(v) => v,
            _ => b.lut_custom_seq,
        },
        reserved5: b.reserved5,
        page_size: match o {
            FieldOverride::PageSize(v) => v,
            _ => b.page_size,
        },
        sector_size: match o {
            FieldOverride::SectorSize(v) => v,
            _ => b.sector_size,
        },
        ipcmd_serial_clk_freq: match o {
            FieldOverride::IpcmdSerialClkFreq(v) => v,
            _ => b.ipcmd_serial_clk_freq,
        },
        is_uniform_block_size: match o {
            FieldOverride::IsUniformBlockSize(v) => v,
            _ => b.is_uniform_block_size,
        },
        is_data_order_swapped: match o {
            FieldOverride::IsDataOrderSwapped(v) => v,
            _ => b.is_data_order_swapped,
        },
        reserved6: b.reserved6,
        serial_nor_type: match o {
            FieldOverride::SerialNorTypeSel(v) => v,
            _ => b.serial_nor_type,
        },
        need_exit_no_cmd_mode: match o {
            FieldOverride::NeedExitNoCmdMode(v) => v,
            _ => b.need_exit_no_cmd_mode,
        },
        half_clk_for_non_read_cmd: match o {
            FieldOverride::HalfClkForNonReadCmd(v) => v,
            _ => b.half_clk_for_non_read_cmd,
        },
        need_restore_no_cmd_mode: match o {
            FieldOverride::NeedRestoreNoCmdMode(v) => v,
            _ => b.need_restore_no_cmd_mode,
        },
        block_size: match o {
            FieldOverride::BlockSizeSel(v) => v,
            _ => b.block_size,
        },
        flash_state_ctx: match o {
            FieldOverride::FlashStateCtx(v) => v,
            _ => b.flash_state_ctx,
        },
        reserved7: b.reserved7,
    }
}

/// Whether the two overrides name the same field, whatever values
/// they carry.
pub open spec fn targets_same_field(a: FieldOverride, b: FieldOverride) -> bool {
    match (a, b) {
        (FieldOverride::ReadSampleClkSel(_), FieldOverride::ReadSampleClkSel(_)) => true,
        (FieldOverride::CsHoldTime(_), FieldOverride::CsHoldTime(_)) => true,
        (FieldOverride::CsSetupTime(_), FieldOverride::CsSetupTime(_)) => true,
        (FieldOverride::ColumnAddressWidthSel(_), FieldOverride::ColumnAddressWidthSel(_)) => true,
        (FieldOverride::DeviceModeCfgEnable(_), FieldOverride::DeviceModeCfgEnable(_)) => true,
        (FieldOverride::WaitTimeCfgCommands(_), FieldOverride::WaitTimeCfgCommands(_)) => true,
        (FieldOverride::DeviceModeSeqSel(_), FieldOverride::DeviceModeSeqSel(_)) => true,
        (FieldOverride::DeviceModeArg(_), FieldOverride::DeviceModeArg(_)) => true,
        (FieldOverride::ConfigCmdEnable(_), FieldOverride::ConfigCmdEnable(_)) => true,
        (FieldOverride::ConfigModeType(_), FieldOverride::ConfigModeType(_)) => true,
        (FieldOverride::ConfigCmdSeqs(_), FieldOverride::ConfigCmdSeqs(_)) => true,
        (FieldOverride::ConfigCmdArgs(_), FieldOverride::ConfigCmdArgs(_)) => true,
        (FieldOverride::ControllerMiscOptionSel(_), FieldOverride::ControllerMiscOptionSel(_)) => true,
        (FieldOverride::DeviceTypeSel(_), FieldOverride::DeviceTypeSel(_)) => true,
        (FieldOverride::SFlashPadTypeSel(_), FieldOverride::SFlashPadTypeSel(_)) => true,
        (FieldOverride::SerialClkFreqSel(_), FieldOverride::SerialClkFreqSel(_)) => true,
        (FieldOverride::LutCustomSeqEnable(_), FieldOverride::LutCustomSeqEnable(_)) => true,
        (FieldOverride::SflashA1Size(_), FieldOverride::SflashA1Size(_)) => true,
        (FieldOverride::SflashA2Size(_), FieldOverride::SflashA2Size(_)) => true,
        (FieldOverride::SflashB1Size(_), FieldOverride::SflashB1Size(_)) => true,
        (FieldOverride::SflashB2Size(_), FieldOverride::SflashB2Size(_)) => true,
        (FieldOverride::CsPadOverride(_), FieldOverride::CsPadOverride(_)) => true,
        (FieldOverride::SclkPadSettingOverride(_), FieldOverride::SclkPadSettingOverride(_)) => true,
        (FieldOverride::DataPadSettingOverride(_), FieldOverride::DataPadSettingOverride(_)) => true,
        (FieldOverride::DqsPadSettingOverride(_), FieldOverride::DqsPadSettingOverride(_)) => true,
        (FieldOverride::TimeoutInMs(_), FieldOverride::TimeoutInMs(_)) => true,
        (FieldOverride::CommandInterval(_), FieldOverride::CommandInterval(_)) => true,
        (FieldOverride::DataValidTime(_), FieldOverride::DataValidTime(_)) => true,
        (FieldOverride::BusyOffset(_), FieldOverride::BusyOffset(_)) => true,
        (FieldOverride::BusyBitPolaritySel(_), FieldOverride::BusyBitPolaritySel(_)) => true,
        (FieldOverride::LookupTable(_), FieldOverride::LookupTable(_)) => true,
        (FieldOverride::LutCustomSeq(_), FieldOverride::LutCustomSeq(_)) => true,
        (FieldOverride::PageSize(_), FieldOverride::PageSize(_)) => true,
        (FieldOverride::SectorSize(_), FieldOverride::SectorSize(_)) => true,
        (FieldOverride::IpcmdSerialClkFreq(_), FieldOverride::IpcmdSerialClkFreq(_)) => true,
        (FieldOverride::IsUniformBlockSize(_), FieldOverride::IsUniformBlockSize(_)) => true,
        (FieldOverride::IsDataOrderSwapped(_), FieldOverride::IsDataOrderSwapped(_)) => true,
        (FieldOverride::SerialNorTypeSel(_), FieldOverride::SerialNorTypeSel(_)) => true,
        (FieldOverride::NeedExitNoCmdMode(_), FieldOverride::NeedExitNoCmdMode(_)) => true,
        (FieldOverride::HalfClkForNonReadCmd(_), FieldOverride::HalfClkForNonReadCmd(_)) => true,
        (FieldOverride::NeedRestoreNoCmdMode(_), FieldOverride::NeedRestoreNoCmdMode(_)) => true,
        (FieldOverride::BlockSizeSel(_), FieldOverride::BlockSizeSel(_)) => true,
        (FieldOverride::FlashStateCtx(_), FieldOverride::FlashStateCtx(_)) => true,
        _ => false,
    }
}

/// Whether the override carries exactly the value the record already
/// holds in the field it names.
pub open spec fn carries_current_value(b: FlexSPIFlashConfigurationBlock, o: FieldOverride) -> bool {
    match o {
        FieldOverride::ReadSampleClkSel(v) => v == b.read_sample_clk,
        FieldOverride::CsHoldTime(v) => v == b.cs_hold_time,
        FieldOverride::CsSetupTime(v) => v == b.cs_setup_time,
        FieldOverride::ColumnAddressWidthSel(v) => v == b.column_address_width,
        FieldOverride::DeviceModeCfgEnable(v) => v == b.device_mode_cfg_enable,
        FieldOverride::WaitTimeCfgCommands(v) => v == b.wait_time_cfg_commands,
        FieldOverride::DeviceModeSeqSel(v) => v == b.device_mode_seq,
        FieldOverride::DeviceModeArg(v) => v == b.device_mode_arg,
        FieldOverride::ConfigCmdEnable(v) => v == b.config_cmd_enable,
        FieldOverride::ConfigModeType(v) => v == b.config_mode_type,
        FieldOverride::ConfigCmdSeqs(v) => v == b.config_cmd_seqs,
        FieldOverride::ConfigCmdArgs(v) => v == b.config_cmd_args,
        FieldOverride::ControllerMiscOptionSel(v) => v == b.controller_misc_option,
        FieldOverride::DeviceTypeSel(v) => v == b.device_type,
        FieldOverride::SFlashPadTypeSel(v) => v == b.sflash_pad_type,
        FieldOverride::SerialClkFreqSel(v) => v == b.serial_clk_freq,
        FieldOverride::LutCustomSeqEnable(v) => v == b.lut_custom_seq_enable,
        FieldOverride::SflashA1Size(v) => v == b.sflash_a1_size,
        FieldOverride::SflashA2Size(v) => v == b.sflash_a2_size,
        FieldOverride::SflashB1Size(v) => v == b.sflash_b1_size,
        FieldOverride::SflashB2Size(v) => v == b.sflash_b2_size,
        FieldOverride::CsPadOverride(v) => v == b.cs_pad_override,
        FieldOverride::SclkPadSettingOverride(v) => v == b.sclk_pad_setting_override,
        FieldOverride::DataPadSettingOverride(v) => v == b.data_pad_setting_override,
        FieldOverride::DqsPadSettingOverride(v) => v == b.dqs_pad_setting_override,
        FieldOverride::TimeoutInMs(v) => v == b.timeout_in_ms,
        FieldOverride::CommandInterval(v) => v == b.command_interval,
        FieldOverride::DataValidTime(v) => v == b.data_valid_time,
        FieldOverride::BusyOffset(v) => v == b.busy_offset,
        FieldOverride::BusyBitPolaritySel(v) => v == b.busy_bit_polarity,
        FieldOverride::LookupTable(v) => v == b.lookup_table,
        FieldOverride::LutCustomSeq(v) => v == b.lut_custom_seq,
        FieldOverride::PageSize(v) => v == b.page_size,
        FieldOverride::SectorSize(v) => v == b.sector_size,
        FieldOverride::IpcmdSerialClkFreq(v) => v == b.ipcmd_serial_clk_freq,
        FieldOverride::IsUniformBlockSize(v) => v == b.is_uniform_block_size,
        FieldOverride::IsDataOrderSwapped(v) => v == b.is_data_order_swapped,
        FieldOverride::SerialNorTypeSel(v) => v == b.serial_nor_type,
        FieldOverride::NeedExitNoCmdMode(v) => v == b.need_exit_no_cmd_mode,
        FieldOverride::HalfClkForNonReadCmd(v) => v == b.half_clk_for_non_read_cmd,
        FieldOverride::NeedRestoreNoCmdMode(v) => v == b.need_restore_no_cmd_mode,
        FieldOverride::BlockSizeSel(v) => v == b.block_size,
        FieldOverride::FlashStateCtx(v) => v == b.flash_state_ctx,
    }
}

impl FlexSPIFlashConfigurationBlock {
    /// Returns the record with `read_sample_clk` replaced by the given value and
    /// every other field unchanged.
    pub fn read_sample_clk(self, read_sample_clk: ReadSampleClk) -> (r: Self)
        ensures
            r == apply_override(self, FieldOverride::ReadSampleClkSel(read_sample_clk)),
    {
        Self { read_sample_clk, ..self }
    }

    /// Returns the record with `cs_hold_time` replaced by the given value and
    /// every other field unchanged.
    pub fn cs_hold_time(self, cs_hold_time: u8) -> (r: Self)
        ensures
            r == apply_override(self, FieldOverride::CsHoldTime(cs_hold_time)),
    {
        Self { cs_hold_time, ..self }
    }

    /// Returns the record with `cs_setup_time` replaced by the given value and
    /// every other field unchanged.
    pub fn cs_setup_time(self, cs_setup_time: u8) -> (r: Self)
        ensures
            r == apply_override(self, FieldOverride::CsSetupTime(cs_setup_time)),
    {
        Self { cs_setup_time, ..self }
    }

    /// Returns the record with `column_address_width` replaced by the given value and
    /// every other field unchanged.
    pub fn column_address_width(self, column_address_width: ColumnAddressWidth) -> (r: Self)
        ensures
            r == apply_override(self, FieldOverride::ColumnAddressWidthSel(column_address_width)),
    {
        Self { column_address_width, ..self }
    }

    /// Returns the record with `device_mode_cfg_enable` replaced by the given value and
    /// every other field unchanged.
    pub fn device_mode_cfg_enable(self, device_mode_cfg_enable: u8) -> (r: Self)
        ensures
            r == apply_override(self, FieldOverride::DeviceModeCfgEnable(device_mode_cfg_enable)),
    {
        Self { device_mode_cfg_enable, ..self }
    }

    /// Returns the record with `wait_time_cfg_commands` replaced by the given value and
    /// every other field unchanged.
    pub fn wait_time_cfg_commands(self, wait_time_cfg_commands: u16) -> (r: Self)
        ensures
            r == apply_override(self, FieldOverride::WaitTimeCfgCommands(wait_time_cfg_commands)),
    {
        Self { wait_time_cfg_commands, ..self }
    }

    /// Returns the record with `device_mode_seq` replaced by the given value and
    /// every other field unchanged.
    pub fn device_mode_seq(self, device_mode_seq: DeviceModeSeq) -> (r: Self)
        ensures
            r == apply_override(self, FieldOverride::DeviceModeSeqSel(device_mode_seq)),
    {
        Self { device_mode_seq, ..self }
    }

    /// Returns the record with `device_mode_arg` replaced by the given value and
    /// every other field unchanged.
    pub fn device_mode_arg(self, device_mode_arg: [u8; 4]) -> (r: Self)
        ensures
            r == apply_override(self, FieldOverride::DeviceModeArg(device_mode_arg)),
    {
        Self { device_mode_arg, ..self }
    }

    /// Returns the record with `config_cmd_enable` replaced by the given value and
    /// every other field unchanged.
    pub fn config_cmd_enable(self, config_cmd_enable: u8) -> (r: Self)
        ensures
            r == apply_override(self, FieldOverride::ConfigCmdEnable(config_cmd_enable)),
    {
        Self { config_cmd_enable, ..self }
    }

    /// Returns the record with `config_mode_type` replaced by the given value and
    /// every other field unchanged.
    pub fn config_mode_type(self, config_mode_type: [u8; 3]) -> (r: Self)
        ensures
            r == apply_override(self, FieldOverride::ConfigModeType(config_mode_type)),
    {
        Self { config_mode_type, ..self }
    }

    /// Returns the record with `config_cmd_seqs` replaced by the given value and
    /// every other field unchanged.
    pub fn config_cmd_seqs(self, config_cmd_seqs: [u8; 12]) -> (r: Self)
        ensures
            r == apply_override(self, FieldOverride::ConfigCmdSeqs(config_cmd_seqs)),
    {
        Self { config_cmd_seqs, ..self }
    }

    /// Returns the record with `config_cmd_args` replaced by the given value and
    /// every other field unchanged.
    pub fn config_cmd_args(self, config_cmd_args: [u8; 12]) -> (r: Self)
        ensures
            r == apply_override(self, FieldOverride::ConfigCmdArgs(config_cmd_args)),
    {
        Self { config_cmd_args, ..self }
    }

    /// Returns the record with `controller_misc_option` replaced by the given value and
    /// every other field unchanged.
    pub fn controller_misc_option(self, controller_misc_option: ControllerMiscOption) -> (r: Self)
        ensures
            r == apply_override(self, FieldOverride::ControllerMiscOptionSel(controller_misc_option)),
    {
        Self { controller_misc_option, ..self }
    }

    /// Returns the record with `device_type` replaced by the given value and
    /// every other field unchanged.
    pub fn device_type(self, device_type: DeviceType) -> (r: Self)
        ensures
            r == apply_override(self, FieldOverride::DeviceTypeSel(device_type)),
    {
        Self { device_type, ..self }
    }

    /// Returns the record with `sflash_pad_type` replaced by the given value and
    /// every other field unchanged.
    pub fn sflash_pad_type(self, sflash_pad_type: SFlashPadType) -> (r: Self)
        ensures
            r == apply_override(self, FieldOverride::SFlashPadTypeSel(sflash_pad_type)),
    {
        Self { sflash_pad_type, ..self }
    }

    /// Returns the record with `serial_clk_freq` replaced by the given value and
    /// every other field unchanged.
    pub fn serial_clk_freq(self, serial_clk_freq: SerialClkFreq) -> (r: Self)
        ensures
            r == apply_override(self, FieldOverride::SerialClkFreqSel(serial_clk_freq)),
    {
        Self { serial_clk_freq, ..self }
    }

    /// Returns the record with `lut_custom_seq_enable` replaced by the given value and
    /// every other field unchanged.
    pub fn lut_custom_seq_enable(self, lut_custom_seq_enable: u8) -> (r: Self)
        ensures
            r == apply_override(self, FieldOverride::LutCustomSeqEnable(lut_custom_seq_enable)),
    {
        Self { lut_custom_seq_enable, ..self }
    }

    /// Returns the record with `sflash_a1_size` replaced by the given value and
    /// every other field unchanged.
    pub fn sflash_a1_size(self, sflash_a1_size: u32) -> (r: Self)
        ensures
            r == apply_override(self, FieldOverride::SflashA1Size(sflash_a1_size)),
    {
        Self { sflash_a1_size, ..self }
    }

    /// Returns the record with `sflash_a2_size` replaced by the given value and
    /// every other field unchanged.
    pub fn sflash_a2_size(self, sflash_a2_size: u32) -> (r: Self)
        ensures
            r == apply_override(self, FieldOverride::SflashA2Size(sflash_a2_size)),
    {
        Self { sflash_a2_size, ..self }
    }

    /// Returns the record with `sflash_b1_size` replaced by the given value and
    /// every other field unchanged.
    pub fn sflash_b1_size(self, sflash_b1_size: u32) -> (r: Self)
        ensures
            r == apply_override(self, FieldOverride::SflashB1Size(sflash_b1_size)),
    {
        Self { sflash_b1_size, ..self }
    }

    /// Returns the record with `sflash_b2_size` replaced by the given value and
    /// every other field unchanged.
    pub fn sflash_b2_size(self, sflash_b2_size: u32) -> (r: Self)
        ensures
            r == apply_override(self, FieldOverride::SflashB2Size(sflash_b2_size)),
    {
        Self { sflash_b2_size, ..self }
    }

    /// Returns the record with `cs_pad_override` replaced by the given value and
    /// every other field unchanged.
    pub fn cs_pad_override(self, cs_pad_override: u32) -> (r: Self)
        ensures
            r == apply_override(self, FieldOverride::CsPadOverride(cs_pad_override)),
    {
        Self { cs_pad_override, ..self }
    }

    /// Returns the record with `sclk_pad_setting_override` replaced by the given value and
    /// every other field unchanged.
    pub fn sclk_pad_setting_override(self, sclk_pad_setting_override: u32) -> (r: Self)
        ensures
            r == apply_override(self, FieldOverride::SclkPadSettingOverride(sclk_pad_setting_override)),
    {
        Self { sclk_pad_setting_override, ..self }
    }

    /// Returns the record with `data_pad_setting_override` replaced by the given value and
    /// every other field unchanged.
    pub fn data_pad_setting_override(self, data_pad_setting_override: u32) -> (r: Self)
        ensures
            r == apply_override(self, FieldOverride::DataPadSettingOverride(data_pad_setting_override)),
    {
        Self { data_pad_setting_override, ..self }
    }

    /// Returns the record with `dqs_pad_setting_override` replaced by the given value and
    /// every other field unchanged.
    pub fn dqs_pad_setting_override(self, dqs_pad_setting_override: u32) -> (r: Self)
        ensures
            r == apply_override(self, FieldOverride::DqsPadSettingOverride(dqs_pad_setting_override)),
    {
        Self { dqs_pad_setting_override, ..self }
    }

    /// Returns the record with `timeout_in_ms` replaced by the given value and
    /// every other field unchanged.
    pub fn timeout_in_ms(self, timeout_in_ms: u32) -> (r: Self)
        ensures
            r == apply_override(self, FieldOverride::TimeoutInMs(timeout_in_ms)),
    {
        Self { timeout_in_ms, ..self }
    }

    /// Returns the record with `command_interval` replaced by the given value and
    /// every other field unchanged.
    pub fn command_interval(self, command_interval: u32) -> (r: Self)
        ensures
            r == apply_override(self, FieldOverride::CommandInterval(command_interval)),
    {
        Self { command_interval, ..self }
    }

    /// Returns the record with `data_valid_time` replaced by the given value and
    /// every other field unchanged.
    pub fn data_valid_time(self, data_valid_time: u32) -> (r: Self)
        ensures
            r == apply_override(self, FieldOverride::DataValidTime(data_valid_time)),
    {
        Self { data_valid_time, ..self }
    }

    /// Returns the record with `busy_offset` replaced by the given value and
    /// every other field unchanged.
    pub fn busy_offset(self, busy_offset: u16) -> (r: Self)
        ensures
            r == apply_override(self, FieldOverride::BusyOffset(busy_offset)),
    {
        Self { busy_offset, ..self }
    }

    /// Returns the record with `busy_bit_polarity` replaced by the given value and
    /// every other field unchanged.
    pub fn busy_bit_polarity(self, busy_bit_polarity: BusyBitPolarity) -> (r: Self)
        ensures
            r == apply_override(self, FieldOverride::BusyBitPolaritySel(busy_bit_polarity)),
    {
        Self { busy_bit_polarity, ..self }
    }

    /// Returns the record with `lookup_table` replaced by the given value and
    /// every other field unchanged.
    pub fn lookup_table(self, lookup_table: [u32; 64]) -> (r: Self)
        ensures
            r == apply_override(self, FieldOverride::LookupTable(lookup_table)),
    {
        Self { lookup_table, ..self }
    }

    /// Returns the record with `lut_custom_seq` replaced by the given value and
    /// every other field unchanged.
    pub fn lut_custom_seq(self, lut_custom_seq: [u8; 48]) -> (r: Self)
        ensures
            r == apply_override(self, FieldOverride::LutCustomSeq(lut_custom_seq)),
    {
        Self { lut_custom_seq, ..self }
    }

    /// Returns the record with `page_size` replaced by the given value and
    /// every other field unchanged.
    pub fn page_size(self, page_size: u32) -> (r: Self)
        ensures
            r == apply_override(self, FieldOverride::PageSize(page_size)),
    {
        Self { page_size, ..self }
    }

    /// Returns the record with `sector_size` replaced by the given value and
    /// every other field unchanged.
    pub fn sector_size(self, sector_size: u32) -> (r: Self)
        ensures
            r == apply_override(self, FieldOverride::SectorSize(sector_size)),
    {
        Self { sector_size, ..self }
    }

    /// Returns the record with `ipcmd_serial_clk_freq` replaced by the given value and
    /// every other field unchanged.
    pub fn ipcmd_serial_clk_freq(self, ipcmd_serial_clk_freq: u8) -> (r: Self)
        ensures
            r == apply_override(self, FieldOverride::IpcmdSerialClkFreq(ipcmd_serial_clk_freq)),
    {
        Self { ipcmd_serial_clk_freq, ..self }
    }

    /// Returns the record with `is_uniform_block_size` replaced by the given value and
    /// every other field unchanged.
    pub fn is_uniform_block_size(self, is_uniform_block_size: u8) -> (r: Self)
        ensures
            r == apply_override(self, FieldOverride::IsUniformBlockSize(is_uniform_block_size)),
    {
        Self { is_uniform_block_size, ..self }
    }

    /// Returns the record with `is_data_order_swapped` replaced by the given value and
    /// every other field unchanged.
    pub fn is_data_order_swapped(self, is_data_order_swapped: u8) -> (r: Self)
        ensures
            r == apply_override(self, FieldOverride::IsDataOrderSwapped(is_data_order_swapped)),
    {
        Self { is_data_order_swapped, ..self }
    }

    /// Returns the record with `serial_nor_type` replaced by the given value and
    /// every other field unchanged.
    pub fn serial_nor_type(self, serial_nor_type: SerialNORType) -> (r: Self)
        ensures
            r == apply_override(self, FieldOverride::SerialNorTypeSel(serial_nor_type)),
    {
        Self { serial_nor_type, ..self }
    }

    /// Returns the record with `need_exit_no_cmd_mode` replaced by the given value and
    /// every other field unchanged.
    pub fn need_exit_no_cmd_mode(self, need_exit_no_cmd_mode: u8) -> (r: Self)
        ensures
            r == apply_override(self, FieldOverride::NeedExitNoCmdMode(need_exit_no_cmd_mode)),
    {
        Self { need_exit_no_cmd_mode, ..self }
    }

    /// Returns the record with `half_clk_for_non_read_cmd` replaced by the given value and
    /// every other field unchanged.
    pub fn half_clk_for_non_read_cmd(self, half_clk_for_non_read_cmd: u8) -> (r: Self)
        ensures
            r == apply_override(self, FieldOverride::HalfClkForNonReadCmd(half_clk_for_non_read_cmd)),
    {
        Self { half_clk_for_non_read_cmd, ..self }
    }

    /// Returns the record with `need_restore_no_cmd_mode` replaced by the given value and
    /// every other field unchanged.
    pub fn need_restore_no_cmd_mode(self, need_restore_no_cmd_mode: u8) -> (r: Self)
        ensures
            r == apply_override(self, FieldOverride::NeedRestoreNoCmdMode(need_restore_no_cmd_mode)),
    {
        Self { need_restore_no_cmd_mode, ..self }
    }

    /// Returns the record with `block_size` replaced by the given value and
    /// every other field unchanged.
    pub fn block_size(self, block_size: u32) -> (r: Self)
        ensures
            r == apply_override(self, FieldOverride::BlockSizeSel(block_size)),
    {
        Self { block_size, ..self }
    }

    /// Returns the record with `flash_state_ctx` replaced by the given value and
    /// every other field unchanged.
    pub fn flash_state_ctx(self, flash_state_ctx: u32) -> (r: Self)
        ensures
            r == apply_override(self, FieldOverride::FlashStateCtx(flash_state_ctx)),
    {
        Self { flash_state_ctx, ..self }
    }

}


} // verus!
