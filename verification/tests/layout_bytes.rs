//! Tests of the serialized wire image: total size, pinned field
//! offsets, reserved filler bytes, and byte-level round trips.

use flexspi_fcb::layout::OFFSET_BLOCK_SIZE;
use flexspi_fcb::layout::OFFSET_BUSY_BIT_POLARITY;
use flexspi_fcb::layout::OFFSET_BUSY_OFFSET;
use flexspi_fcb::layout::OFFSET_CS_HOLD_TIME;
use flexspi_fcb::layout::OFFSET_CS_SETUP_TIME;
use flexspi_fcb::layout::OFFSET_DEVICE_MODE_SEQ;
use flexspi_fcb::layout::OFFSET_FLASH_STATE_CTX;
use flexspi_fcb::layout::OFFSET_LOOKUP_TABLE;
use flexspi_fcb::layout::OFFSET_LUT_CUSTOM_SEQ;
use flexspi_fcb::layout::OFFSET_PAGE_SIZE;
use flexspi_fcb::layout::OFFSET_RESERVED1;
use flexspi_fcb::layout::OFFSET_RESERVED7;
use flexspi_fcb::layout::OFFSET_SECTOR_SIZE;
use flexspi_fcb::layout::OFFSET_SFLASH_B1_SIZE;
use flexspi_fcb::layout::OFFSET_TAG;
use flexspi_fcb::layout::OFFSET_VERSION;
use flexspi_fcb::layout::RECORD_SIZE;
use flexspi_fcb::FlexSPIFlashConfigurationBlock;

fn read_u32(bytes: &[u8], off: usize) -> u32 {
    u32::from_le_bytes([bytes[off], bytes[off + 1], bytes[off + 2], bytes[off + 3]])
}

fn read_u16(bytes: &[u8], off: usize) -> u16 {
    u16::from_le_bytes([bytes[off], bytes[off + 1]])
}

#[test]
fn offset_table_pinned() {
    assert_eq!(RECORD_SIZE, 512);
    assert_eq!(OFFSET_TAG, 0);
    assert_eq!(OFFSET_VERSION, 4);
    assert_eq!(OFFSET_CS_HOLD_TIME, 13);
    assert_eq!(OFFSET_CS_SETUP_TIME, 14);
    assert_eq!(OFFSET_RESERVED1, 17);
    assert_eq!(OFFSET_DEVICE_MODE_SEQ, 20);
    assert_eq!(OFFSET_SFLASH_B1_SIZE, 88);
    assert_eq!(OFFSET_BUSY_OFFSET, 124);
    assert_eq!(OFFSET_BUSY_BIT_POLARITY, 126);
    assert_eq!(OFFSET_LOOKUP_TABLE, 128);
    assert_eq!(OFFSET_LUT_CUSTOM_SEQ, 384);
    assert_eq!(OFFSET_PAGE_SIZE, 448);
    assert_eq!(OFFSET_SECTOR_SIZE, 452);
    assert_eq!(OFFSET_BLOCK_SIZE, 464);
    assert_eq!(OFFSET_FLASH_STATE_CTX, 468);
    assert_eq!(OFFSET_RESERVED7, 472);
}

#[test]
fn default_record_is_512_bytes() {
    let bytes = FlexSPIFlashConfigurationBlock::build().to_bytes();
    assert_eq!(bytes.len(), 512);
}

#[test]
fn size_unchanged_by_overrides() {
    let bytes = FlexSPIFlashConfigurationBlock::build()
        .cs_hold_time(9)
        .page_size(1024)
        .sflash_a1_size(0x800000)
        .lut_custom_seq([1; 48])
        .device_mode_arg([9, 9, 9, 9])
        .to_bytes();
    assert_eq!(bytes.len(), 512);
}

#[test]
fn default_bytes_pinned_fields() {
    let bytes = FlexSPIFlashConfigurationBlock::build().to_bytes();
    // Tag reads as the ASCII bytes "FCFB" little-endian.
    assert_eq!(&bytes[0..4], &[0x46, 0x43, 0x46, 0x42]);
    assert_eq!(read_u32(&bytes, OFFSET_TAG), 0x42464346);
    assert_eq!(read_u32(&bytes, OFFSET_VERSION), 0x56020000);
    assert_eq!(bytes[OFFSET_CS_HOLD_TIME], 3);
    assert_eq!(bytes[OFFSET_CS_SETUP_TIME], 3);
    // The one documented non-zero filler byte.
    assert_eq!(bytes[OFFSET_RESERVED1], 2);
    assert_eq!(bytes[OFFSET_DEVICE_MODE_SEQ], 1);
    assert_eq!(bytes[OFFSET_DEVICE_MODE_SEQ + 1], 6);
    assert_eq!(read_u32(&bytes, OFFSET_SFLASH_B1_SIZE), 0x04000000);
    assert_eq!(read_u16(&bytes, OFFSET_BUSY_BIT_POLARITY), 0);
    assert_eq!(read_u32(&bytes, OFFSET_LOOKUP_TABLE), 0x861186EE);
    assert_eq!(read_u32(&bytes, OFFSET_LOOKUP_TABLE + 4 * 4), 0x24040405);
    assert_eq!(read_u32(&bytes, OFFSET_LOOKUP_TABLE + 12 * 4), 0x00000406);
    assert_eq!(read_u32(&bytes, OFFSET_LOOKUP_TABLE + 20 * 4), 0x86DE8621);
    assert_eq!(read_u32(&bytes, OFFSET_PAGE_SIZE), 256);
    assert_eq!(read_u32(&bytes, OFFSET_SECTOR_SIZE), 4096);
    assert_eq!(read_u32(&bytes, OFFSET_BLOCK_SIZE), 0x10000);
    assert_eq!(read_u32(&bytes, OFFSET_FLASH_STATE_CTX), 0x07008200);
    // Zero-filled reserved trailer.
    for i in OFFSET_RESERVED7..512 {
        assert_eq!(bytes[i], 0);
    }
    // Custom LUT sequence table defaults to zero.
    for i in OFFSET_LUT_CUSTOM_SEQ..OFFSET_LUT_CUSTOM_SEQ + 48 {
        assert_eq!(bytes[i], 0);
    }
}

#[test]
fn overridden_fields_read_back_at_pinned_offsets() {
    let mut table = [0u32; 64];
    table[5] = 0xDEADBEEF;
    let bytes = FlexSPIFlashConfigurationBlock::build()
        .page_size(0xA1B2C3D4)
        .busy_offset(0x1234)
        .cs_hold_time(7)
        .lookup_table(table)
        .block_size(0x00020000)
        .to_bytes();
    assert_eq!(bytes.len(), 512);
    assert_eq!(read_u32(&bytes, OFFSET_PAGE_SIZE), 0xA1B2C3D4);
    assert_eq!(read_u16(&bytes, OFFSET_BUSY_OFFSET), 0x1234);
    assert_eq!(bytes[OFFSET_CS_HOLD_TIME], 7);
    assert_eq!(read_u32(&bytes, OFFSET_LOOKUP_TABLE + 5 * 4), 0xDEADBEEF);
    assert_eq!(read_u32(&bytes, OFFSET_BLOCK_SIZE), 0x00020000);
    // Untouched neighbours keep their defaults: no field interprets
    // another field's override.
    assert_eq!(read_u32(&bytes, OFFSET_SECTOR_SIZE), 4096);
    assert_eq!(bytes[OFFSET_CS_SETUP_TIME], 3);
    assert_eq!(read_u32(&bytes, OFFSET_TAG), 0x42464346);
}
