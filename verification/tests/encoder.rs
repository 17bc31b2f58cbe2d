//! Tests of the LUT instruction-word encoder against the documented bit
//! layout: operand0 in bits [0:8), pads0 in [8:10), opcode0 in [10:16),
//! operand1 in [16:24), pads1 in [24:26), opcode1 in [26:32).

use flexspi_fcb::flexspi_lut_seq;
use flexspi_fcb::FlexSpiLutOpcode;
use flexspi_fcb::FlexSpiNumPads;

#[test]
fn stop_pair_is_all_zero() {
    let w = flexspi_lut_seq(
        FlexSpiLutOpcode::STOP,
        FlexSpiNumPads::Single,
        0,
        FlexSpiLutOpcode::STOP,
        FlexSpiNumPads::Single,
        0,
    );
    assert_eq!(w, 0x00000000);
}

#[test]
fn read_status_spi_pair() {
    // CMD_SDR (0x01) on one pad with command byte 0x05, then READ_SDR
    // (0x09) on one pad reading 0x04 bytes:
    // low half  = 0x05 | (0 << 8) | (0x01 << 10) = 0x0405
    // high half = 0x04 | (0 << 8) | (0x09 << 10) = 0x2404
    let w = flexspi_lut_seq(
        FlexSpiLutOpcode::CMD_SDR,
        FlexSpiNumPads::Single,
        0x05,
        FlexSpiLutOpcode::READ_SDR,
        FlexSpiNumPads::Single,
        0x04,
    );
    assert_eq!(w, 0x24040405);
}

#[test]
fn write_enable_pair() {
    // CMD_SDR (0x01) with command byte 0x06, second slot the canonical
    // stop word: low half = 0x06 | (0x01 << 10) = 0x0406, high half 0.
    let w = flexspi_lut_seq(
        FlexSpiLutOpcode::CMD_SDR,
        FlexSpiNumPads::Single,
        0x06,
        FlexSpiLutOpcode::STOP,
        FlexSpiNumPads::Single,
        0x00,
    );
    assert_eq!(w, 0x00000406);
}

#[test]
fn erase_sector_pair() {
    // CMD_DDR (0x21) on quad pads (2) with bytes 0x21 and 0xDE:
    // low half  = 0x21 | (2 << 8) | (0x21 << 10) = 0x8621
    // high half = 0xDE | (2 << 8) | (0x21 << 10) = 0x86DE
    let w = flexspi_lut_seq(
        FlexSpiLutOpcode::CMD_DDR,
        FlexSpiNumPads::Quad,
        0x21,
        FlexSpiLutOpcode::CMD_DDR,
        FlexSpiNumPads::Quad,
        0xDE,
    );
    assert_eq!(w, 0x86DE8621);
}

#[test]
fn bit_fields_recoverable() {
    let w = flexspi_lut_seq(
        FlexSpiLutOpcode::RADDR_DDR,
        FlexSpiNumPads::Octal,
        0x20,
        FlexSpiLutOpcode::DUMMY_DDR,
        FlexSpiNumPads::Dual,
        0x14,
    );
    assert_eq!(w & 0xff, 0x20);
    assert_eq!((w >> 8) & 0x3, 3); // Octal
    assert_eq!((w >> 10) & 0x3f, 0x22); // RADDR_DDR
    assert_eq!((w >> 16) & 0xff, 0x14);
    assert_eq!((w >> 24) & 0x3, 1); // Dual
    assert_eq!((w >> 26) & 0x3f, 0x2c); // DUMMY_DDR
}

#[test]
fn opcode_codes_pinned() {
    assert_eq!(FlexSpiLutOpcode::CMD_SDR.value(), 0x01);
    assert_eq!(FlexSpiLutOpcode::CMD_DDR.value(), 0x21);
    assert_eq!(FlexSpiLutOpcode::RADDR_SDR.value(), 0x02);
    assert_eq!(FlexSpiLutOpcode::RADDR_DDR.value(), 0x22);
    assert_eq!(FlexSpiLutOpcode::CADDR_SDR.value(), 0x03);
    assert_eq!(FlexSpiLutOpcode::CADDR_DDR.value(), 0x23);
    assert_eq!(FlexSpiLutOpcode::MODE1_SDR.value(), 0x04);
    assert_eq!(FlexSpiLutOpcode::MODE1_DDR.value(), 0x24);
    assert_eq!(FlexSpiLutOpcode::MODE2_SDR.value(), 0x05);
    assert_eq!(FlexSpiLutOpcode::MODE2_DDR.value(), 0x25);
    assert_eq!(FlexSpiLutOpcode::MODE4_SDR.value(), 0x06);
    assert_eq!(FlexSpiLutOpcode::MODE4_DDR.value(), 0x26);
    assert_eq!(FlexSpiLutOpcode::MODE8_SDR.value(), 0x07);
    assert_eq!(FlexSpiLutOpcode::MODE8_DDR.value(), 0x27);
    assert_eq!(FlexSpiLutOpcode::WRITE_SDR.value(), 0x08);
    assert_eq!(FlexSpiLutOpcode::WRITE_DDR.value(), 0x28);
    assert_eq!(FlexSpiLutOpcode::READ_SDR.value(), 0x09);
    assert_eq!(FlexSpiLutOpcode::READ_DDR.value(), 0x29);
    assert_eq!(FlexSpiLutOpcode::LEARN_SDR.value(), 0x0a);
    assert_eq!(FlexSpiLutOpcode::LEARN_DDR.value(), 0x2a);
    assert_eq!(FlexSpiLutOpcode::DATSZ_SDR.value(), 0x0b);
    assert_eq!(FlexSpiLutOpcode::DATSZ_DDR.value(), 0x2b);
    assert_eq!(FlexSpiLutOpcode::DUMMY_SDR.value(), 0x0c);
    assert_eq!(FlexSpiLutOpcode::DUMMY_DDR.value(), 0x2c);
    assert_eq!(FlexSpiLutOpcode::DUMMY_RWDS_SDR.value(), 0x0d);
    assert_eq!(FlexSpiLutOpcode::DUMMY_RWDS_DDR.value(), 0x2d);
    assert_eq!(FlexSpiLutOpcode::JMP_ON_CS.value(), 0x1f);
    assert_eq!(FlexSpiLutOpcode::STOP.value(), 0x00);
}

#[test]
fn pad_codes_pinned() {
    assert_eq!(FlexSpiNumPads::Single.value(), 0);
    assert_eq!(FlexSpiNumPads::Dual.value(), 1);
    assert_eq!(FlexSpiNumPads::Quad.value(), 2);
    assert_eq!(FlexSpiNumPads::Octal.value(), 3);
}
