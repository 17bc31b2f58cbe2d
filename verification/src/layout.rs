//! Byte-exact serialization of the configuration block.
//!
//! [`record_bytes`] states the 512-byte wire image of a record: every
//! field in declaration order, multi-byte integers little-endian, with
//! no padding beyond the declared reserved ranges.  The offset of each
//! field is therefore fixed, whatever the field values are; the
//! `OFFSET_*` constants pin the offset table and
//! [`lemma_record_layout`] proves it.  [`lemma_record_read_back`]
//! proves the round trip: re-reading any field from the bytes at its
//! pinned offset yields exactly the value the record holds.

use vstd::bytes::lemma_auto_spec_u16_to_from_le_bytes;
use vstd::bytes::lemma_auto_spec_u32_to_from_le_bytes;
use vstd::bytes::spec_u16_from_le_bytes;
use vstd::bytes::spec_u16_to_le_bytes;
use vstd::bytes::spec_u32_from_le_bytes;
use vstd::bytes::spec_u32_to_le_bytes;
use vstd::bytes::u16_to_le_bytes;
use vstd::bytes::u32_to_le_bytes;
use vstd::prelude::*;

use crate::block::FlexSPIFlashConfigurationBlock;
use crate::fields::busy_bit_polarity_value;
use crate::fields::column_address_width_value;
use crate::fields::device_type_value;
use crate::fields::read_sample_clk_value;
use crate::fields::serial_clk_freq_value;
use crate::fields::serial_nor_type_value;
use crate::fields::sflash_pad_type_value;

verus! {

/// Total size of the serialized record in bytes.
pub const RECORD_SIZE: usize = 512;

/// Byte offset of `tag` (4 bytes).
pub const OFFSET_TAG: usize = 0;

/// Byte offset of `version` (4 bytes).
pub const OFFSET_VERSION: usize = 4;

/// Byte offset of `reserved0` (4 bytes).
pub const OFFSET_RESERVED0: usize = 8;

/// Byte offset of `read_sample_clk` (1 byte).
pub const OFFSET_READ_SAMPLE_CLK: usize = 12;

/// Byte offset of `cs_hold_time` (1 byte).
pub const OFFSET_CS_HOLD_TIME: usize = 13;

/// Byte offset of `cs_setup_time` (1 byte).
pub const OFFSET_CS_SETUP_TIME: usize = 14;

/// Byte offset of `column_address_width` (1 byte).
pub const OFFSET_COLUMN_ADDRESS_WIDTH: usize = 15;

/// Byte offset of `device_mode_cfg_enable` (1 byte).
pub const OFFSET_DEVICE_MODE_CFG_ENABLE: usize = 16;

/// Byte offset of `reserved1` (1 byte).
pub const OFFSET_RESERVED1: usize = 17;

/// Byte offset of `wait_time_cfg_commands` (2 bytes).
pub const OFFSET_WAIT_TIME_CFG_COMMANDS: usize = 18;

/// Byte offset of `device_mode_seq` (1 byte).
pub const OFFSET_DEVICE_MODE_SEQ: usize = 20;

/// Byte offset of `device_mode_arg` (4 bytes).
pub const OFFSET_DEVICE_MODE_ARG: usize = 24;

/// Byte offset of `config_cmd_enable` (1 byte).
pub const OFFSET_CONFIG_CMD_ENABLE: usize = 28;

/// Byte offset of `config_mode_type` (3 bytes).
pub const OFFSET_CONFIG_MODE_TYPE: usize = 29;

/// Byte offset of `config_cmd_seqs` (12 bytes).
pub const OFFSET_CONFIG_CMD_SEQS: usize = 32;

/// Byte offset of `reserved2` (4 bytes).
pub const OFFSET_RESERVED2: usize = 44;

/// Byte offset of `config_cmd_args` (12 bytes).
pub const OFFSET_CONFIG_CMD_ARGS: usize = 48;

/// Byte offset of `reserved3` (4 bytes).
pub const OFFSET_RESERVED3: usize = 60;

/// Byte offset of `controller_misc_option` (4 bytes).
pub const OFFSET_CONTROLLER_MISC_OPTION: usize = 64;

/// Byte offset of `device_type` (1 byte).
pub const OFFSET_DEVICE_TYPE: usize = 68;

/// Byte offset of `sflash_pad_type` (1 byte).
pub const OFFSET_SFLASH_PAD_TYPE: usize = 69;

/// Byte offset of `serial_clk_freq` (1 byte).
pub const OFFSET_SERIAL_CLK_FREQ: usize = 70;

/// Byte offset of `lut_custom_seq_enable` (1 byte).
pub const OFFSET_LUT_CUSTOM_SEQ_ENABLE: usize = 71;

/// Byte offset of `reserved4` (8 bytes).
pub const OFFSET_RESERVED4: usize = 72;

/// Byte offset of `sflash_a1_size` (4 bytes).
pub const OFFSET_SFLASH_A1_SIZE: usize = 80;

/// Byte offset of `sflash_a2_size` (4 bytes).
pub const OFFSET_SFLASH_A2_SIZE: usize = 84;

/// Byte offset of `sflash_b1_size` (4 bytes).
pub const OFFSET_SFLASH_B1_SIZE: usize = 88;

/// Byte offset of `sflash_b2_size` (4 bytes).
pub const OFFSET_SFLASH_B2_SIZE: usize = 92;

/// Byte offset of `cs_pad_override` (4 bytes).
pub const OFFSET_CS_PAD_OVERRIDE: usize = 96;

/// Byte offset of `sclk_pad_setting_override` (4 bytes).
pub const OFFSET_SCLK_PAD_SETTING_OVERRIDE: usize = 100;

/// Byte offset of `data_pad_setting_override` (4 bytes).
pub const OFFSET_DATA_PAD_SETTING_OVERRIDE: usize = 104;

/// Byte offset of `dqs_pad_setting_override` (4 bytes).
pub const OFFSET_DQS_PAD_SETTING_OVERRIDE: usize = 108;

/// Byte offset of `timeout_in_ms` (4 bytes).
pub const OFFSET_TIMEOUT_IN_MS: usize = 112;

/// Byte offset of `command_interval` (4 bytes).
pub const OFFSET_COMMAND_INTERVAL: usize = 116;

/// Byte offset of `data_valid_time` (4 bytes).
pub const OFFSET_DATA_VALID_TIME: usize = 120;

/// Byte offset of `busy_offset` (2 bytes).
pub const OFFSET_BUSY_OFFSET: usize = 124;

/// Byte offset of `busy_bit_polarity` (2 bytes).
pub const OFFSET_BUSY_BIT_POLARITY: usize = 126;

/// Byte offset of `lookup_table` (256 bytes).
pub const OFFSET_LOOKUP_TABLE: usize = 128;

/// Byte offset of `lut_custom_seq` (48 bytes).
pub const OFFSET_LUT_CUSTOM_SEQ: usize = 384;

/// Byte offset of `reserved5` (16 bytes).
pub const OFFSET_RESERVED5: usize = 432;

/// Byte offset of `page_size` (4 bytes).
pub const OFFSET_PAGE_SIZE: usize = 448;

/// Byte offset of `sector_size` (4 bytes).
pub const OFFSET_SECTOR_SIZE: usize = 452;

/// Byte offset of `ipcmd_serial_clk_freq` (1 byte).
pub const OFFSET_IPCMD_SERIAL_CLK_FREQ: usize = 456;

/// Byte offset of `is_uniform_block_size` (1 byte).
pub const OFFSET_IS_UNIFORM_BLOCK_SIZE: usize = 457;

/// Byte offset of `is_data_order_swapped` (1 byte).
pub const OFFSET_IS_DATA_ORDER_SWAPPED: usize = 458;

/// Byte offset of `reserved6` (1 byte).
pub const OFFSET_RESERVED6: usize = 459;

/// Byte offset of `serial_nor_type` (1 byte).
pub const OFFSET_SERIAL_NOR_TYPE: usize = 460;

/// Byte offset of `need_exit_no_cmd_mode` (1 byte).
pub const OFFSET_NEED_EXIT_NO_CMD_MODE: usize = 461;

/// Byte offset of `half_clk_for_non_read_cmd` (1 byte).
pub const OFFSET_HALF_CLK_FOR_NON_READ_CMD: usize = 462;

/// Byte offset of `need_restore_no_cmd_mode` (1 byte).
pub const OFFSET_NEED_RESTORE_NO_CMD_MODE: usize = 463;

/// Byte offset of `block_size` (4 bytes).
pub const OFFSET_BLOCK_SIZE: usize = 464;

/// Byte offset of `flash_state_ctx` (4 bytes).
pub const OFFSET_FLASH_STATE_CTX: usize = 468;

/// Byte offset of `reserved7` (40 bytes).
pub const OFFSET_RESERVED7: usize = 472;

/// The little-endian byte image of a sequence of 32-bit words.
pub open spec fn words_le(s: Seq<u32>) -> Seq<u8>
    decreases s.len(),
{
    if s.len() == 0 {
        Seq::empty()
    } else {
        spec_u32_to_le_bytes(s[0]) + words_le(s.skip(1))
    }
}

/// The 512-byte wire image of the record: every field in declaration
/// order at its pinned offset, multi-byte integers little-endian,
/// enumerated fields as their numeric codes.
pub open spec fn record_bytes(r: FlexSPIFlashConfigurationBlock) -> Seq<u8> {
    spec_u32_to_le_bytes(r.tag)
        + spec_u32_to_le_bytes(r.version)
        + r.reserved0@
        + seq![read_sample_clk_value(r.read_sample_clk)]
        + seq![r.cs_hold_time]
        + seq![r.cs_setup_time]
        + seq![column_address_width_value(r.column_address_width)]
        + seq![r.device_mode_cfg_enable]
        + r.reserved1@
        + spec_u16_to_le_bytes(r.wait_time_cfg_commands)
        + seq![r.device_mode_seq.num_seq]
        + seq![r.device_mode_seq.seq_index]
        + r.device_mode_seq.reserved@
        + r.device_mode_arg@
        + seq![r.config_cmd_enable]
        + r.config_mode_type@
        + r.config_cmd_seqs@
        + r.reserved2@
        + r.config_cmd_args@
        + r.reserved3@
        + spec_u32_to_le_bytes(r.controller_misc_option.0)
        + seq![device_type_value(r.device_type)]
        + seq![sflash_pad_type_value(r.sflash_pad_type)]
        + seq![serial_clk_freq_value(r.serial_clk_freq)]
        + seq![r.lut_custom_seq_enable]
        + r.reserved4@
        + spec_u32_to_le_bytes(r.sflash_a1_size)
        + spec_u32_to_le_bytes(r.sflash_a2_size)
        + spec_u32_to_le_bytes(r.sflash_b1_size)
        + spec_u32_to_le_bytes(r.sflash_b2_size)
        + spec_u32_to_le_bytes(r.cs_pad_override)
        + spec_u32_to_le_bytes(r.sclk_pad_setting_override)
        + spec_u32_to_le_bytes(r.data_pad_setting_override)
        + spec_u32_to_le_bytes(r.dqs_pad_setting_override)
        + spec_u32_to_le_bytes(r.timeout_in_ms)
        + spec_u32_to_le_bytes(r.command_interval)
        + spec_u32_to_le_bytes(r.data_valid_time)
        + spec_u16_to_le_bytes(r.busy_offset)
        + spec_u16_to_le_bytes(busy_bit_polarity_value(r.busy_bit_polarity))
        + words_le(r.lookup_table@)
        + r.lut_custom_seq@
        + r.reserved5@
        + spec_u32_to_le_bytes(r.page_size)
        + spec_u32_to_le_bytes(r.sector_size)
        + seq![r.ipcmd_serial_clk_freq]
        + seq![r.is_uniform_block_size]
        + seq![r.is_data_order_swapped]
        + r.reserved6@
        + seq![serial_nor_type_value(r.serial_nor_type)]
        + seq![r.need_exit_no_cmd_mode]
        + seq![r.half_clk_for_non_read_cmd]
        + seq![r.need_restore_no_cmd_mode]
        + spec_u32_to_le_bytes(r.block_size)
        + spec_u32_to_le_bytes(r.flash_state_ctx)
        + r.reserved7@
}


/// Appends one byte.
fn push_u8(out: &mut Vec<u8>, x: u8)
    ensures
        final(out)@ == old(out)@ + seq![x],
{
    out.push(x);
    proof {
        assert(old(out)@.push(x) =~= old(out)@ + seq![x]);
    }
}

/// Appends a 16-bit value as two little-endian bytes.
fn push_u16_le(out: &mut Vec<u8>, x: u16)
    ensures
        final(out)@ == old(out)@ + spec_u16_to_le_bytes(x),
{
    let mut b = u16_to_le_bytes(x);
    out.append(&mut b);
}

/// Appends a 32-bit value as four little-endian bytes.
fn push_u32_le(out: &mut Vec<u8>, x: u32)
    ensures
        final(out)@ == old(out)@ + spec_u32_to_le_bytes(x),
{
    let mut b = u32_to_le_bytes(x);
    out.append(&mut b);
}

/// Appends a byte array unchanged.
fn push_array<const N: usize>(out: &mut Vec<u8>, a: &[u8; N])
    ensures
        final(out)@ == old(out)@ + a@,
{
    let ghost start = out@;
    proof {
        assert(start + a@.subrange(0, 0) =~= start);
    }
    for i in 0..N
        invariant
            out@ == start + a@.subrange(0, i as int),
    {
        out.push(a[i]);
        proof {
            assert(start + a@.subrange(0, i as int) + seq![a@[i as int]] =~= start + a@.subrange(
                0,
                i as int + 1,
            ));
            assert(out@ =~= start + a@.subrange(0, i as int + 1));
        }
    }
    proof {
        assert(a@.subrange(0, N as int) =~= a@);
    }
}

/// `words_le` of one more word appends that word's four bytes.
proof fn lemma_words_le_push(s: Seq<u32>, x: u32)
    ensures
        words_le(s.push(x)) == words_le(s) + spec_u32_to_le_bytes(x),
    decreases s.len(),
{
    if s.len() == 0 {
        assert(s.push(x).skip(1) =~= Seq::<u32>::empty());
        assert(words_le(s.push(x)) == spec_u32_to_le_bytes(x) + words_le(Seq::<u32>::empty()));
        assert(spec_u32_to_le_bytes(x) + Seq::<u8>::empty() =~= spec_u32_to_le_bytes(x));
        assert(Seq::<u8>::empty() + spec_u32_to_le_bytes(x) =~= spec_u32_to_le_bytes(x));
        assert(words_le(s) =~= Seq::<u8>::empty());
    } else {
        lemma_words_le_push(s.skip(1), x);
        assert(s.push(x).skip(1) =~= s.skip(1).push(x));
        let a = spec_u32_to_le_bytes(s[0]);
        let wtail = words_le(s.skip(1));
        let lx = spec_u32_to_le_bytes(x);
        assert(words_le(s.push(x)) == a + (wtail + lx));
        assert(a + (wtail + lx) =~= (a + wtail) + lx);
        assert(words_le(s) == a + wtail);
    }
}

/// `words_le` yields four bytes per word.
proof fn lemma_words_le_len(s: Seq<u32>)
    ensures
        words_le(s).len() == 4 * s.len(),
    decreases s.len(),
{
    lemma_auto_spec_u32_to_from_le_bytes();
    if s.len() > 0 {
        lemma_words_le_len(s.skip(1));
    }
}

/// Splitting a concatenation: a subrange taken wholly inside either
/// half of `s + t` equals the same subrange of that half.
proof fn lemma_add_subrange_facts(s: Seq<u8>, t: Seq<u8>)
    ensures
        (s + t).len() == s.len() + t.len(),
        forall|i: int, j: int|
            0 <= i <= j <= s.len() ==> #[trigger] (s + t).subrange(i, j) == s.subrange(i, j),
        forall|i: int, j: int|
            s.len() <= i <= j <= s.len() + t.len() ==> #[trigger] (s + t).subrange(i, j)
                == t.subrange(i - s.len(), j - s.len()),
{
    assert forall|i: int, j: int| 0 <= i <= j <= s.len() implies #[trigger] (s + t).subrange(i, j)
        == s.subrange(i, j) by {
        assert((s + t).subrange(i, j) =~= s.subrange(i, j));
    }
    assert forall|i: int, j: int|
        s.len() <= i <= j <= s.len() + t.len() implies #[trigger] (s + t).subrange(i, j)
        == t.subrange(i - s.len(), j - s.len()) by {
        assert((s + t).subrange(i, j) =~= t.subrange(i - s.len(), j - s.len()));
    }
}

/// A subrange over a sequence's full extent is the sequence itself.
proof fn lemma_subrange_all(s: Seq<u8>)
    ensures
        s.subrange(0, s.len() as int) == s,
{
    assert(s.subrange(0, s.len() as int) =~= s);
}

/// Word `j` of the table sits at bytes `[4 j, 4 j + 4)` of `words_le`.
proof fn lemma_words_le_index(s: Seq<u32>, j: int)
    requires
        0 <= j < s.len(),
    ensures
        words_le(s).subrange(4 * j, 4 * j + 4) == spec_u32_to_le_bytes(s[j]),
    decreases j,
{
    lemma_auto_spec_u32_to_from_le_bytes();
    lemma_words_le_len(s.skip(1));
    let a = spec_u32_to_le_bytes(s[0]);
    let t = words_le(s.skip(1));
    lemma_add_subrange_facts(a, t);
    if j == 0 {
        lemma_subrange_all(a);
        assert(words_le(s).subrange(0, 4) == a);
    } else {
        lemma_words_le_index(s.skip(1), j - 1);
        assert(s.skip(1)[j - 1] == s[j]);
        assert(words_le(s).subrange(4 * j, 4 * j + 4) == t.subrange(4 * (j - 1), 4 * (j - 1) + 4));
    }
}

/// Appends all 64 words of the lookup table, little-endian.
fn push_words(out: &mut Vec<u8>, a: &[u32; 64])
    ensures
        final(out)@ == old(out)@ + words_le(a@),
{
    let ghost start = out@;
    proof {
        assert(start + words_le(a@.subrange(0, 0)) =~= start);
    }
    for i in 0..64usize
        invariant
            out@ == start + words_le(a@.subrange(0, i as int)),
    {
        push_u32_le(out, a[i]);
        proof {
            lemma_words_le_push(a@.subrange(0, i as int), a@[i as int]);
            assert(a@.subrange(0, i as int).push(a@[i as int]) =~= a@.subrange(0, i as int + 1));
            assert(start + words_le(a@.subrange(0, i as int)) + spec_u32_to_le_bytes(a@[i as int])
                =~= start + words_le(a@.subrange(0, i as int + 1)));
        }
    }
    proof {
        assert(a@.subrange(0, 64) =~= a@);
    }
}

impl FlexSPIFlashConfigurationBlock {
    /// Serializes the record to its 512-byte wire image: every field in
    /// declaration order at its pinned offset, with no padding beyond
    /// the declared reserved ranges.
    pub fn to_bytes(&self) -> (out: Vec<u8>)
        ensures
            out@ == record_bytes(*self),
            out@.len() == RECORD_SIZE,
    {
        let mut out: Vec<u8> = u32_to_le_bytes(self.tag);
        push_u32_le(&mut out, self.version);
        push_array(&mut out, &self.reserved0);
        push_u8(&mut out, self.read_sample_clk.value());
        push_u8(&mut out, self.cs_hold_time);
        push_u8(&mut out, self.cs_setup_time);
        push_u8(&mut out, self.column_address_width.value());
        push_u8(&mut out, self.device_mode_cfg_enable);
        push_array(&mut out, &self.reserved1);
        push_u16_le(&mut out, self.wait_time_cfg_commands);
        push_u8(&mut out, self.device_mode_seq.num_seq);
        push_u8(&mut out, self.device_mode_seq.seq_index);
        push_array(&mut out, &self.device_mode_seq.reserved);
        push_array(&mut out, &self.device_mode_arg);
        push_u8(&mut out, self.config_cmd_enable);
        push_array(&mut out, &self.config_mode_type);
        push_array(&mut out, &self.config_cmd_seqs);
        push_array(&mut out, &self.reserved2);
        push_array(&mut out, &self.config_cmd_args);
        push_array(&mut out, &self.reserved3);
        push_u32_le(&mut out, self.controller_misc_option.0);
        push_u8(&mut out, self.device_type.value());
        push_u8(&mut out, self.sflash_pad_type.value());
        push_u8(&mut out, self.serial_clk_freq.value());
        push_u8(&mut out, self.lut_custom_seq_enable);
        push_array(&mut out, &self.reserved4);
        push_u32_le(&mut out, self.sflash_a1_size);
        push_u32_le(&mut out, self.sflash_a2_size);
        push_u32_le(&mut out, self.sflash_b1_size);
        push_u32_le(&mut out, self.sflash_b2_size);
        push_u32_le(&mut out, self.cs_pad_override);
        push_u32_le(&mut out, self.sclk_pad_setting_override);
        push_u32_le(&mut out, self.data_pad_setting_override);
        push_u32_le(&mut out, self.dqs_pad_setting_override);
        push_u32_le(&mut out, self.timeout_in_ms);
        push_u32_le(&mut out, self.command_interval);
        push_u32_le(&mut out, self.data_valid_time);
        push_u16_le(&mut out, self.busy_offset);
        push_u16_le(&mut out, self.busy_bit_polarity.value());
        push_words(&mut out, &self.lookup_table);
        push_array(&mut out, &self.lut_custom_seq);
        push_array(&mut out, &self.reserved5);
        push_u32_le(&mut out, self.page_size);
        push_u32_le(&mut out, self.sector_size);
        push_u8(&mut out, self.ipcmd_serial_clk_freq);
        push_u8(&mut out, self.is_uniform_block_size);
        push_u8(&mut out, self.is_data_order_swapped);
        push_array(&mut out, &self.reserved6);
        push_u8(&mut out, self.serial_nor_type.value());
        push_u8(&mut out, self.need_exit_no_cmd_mode);
        push_u8(&mut out, self.half_clk_for_non_read_cmd);
        push_u8(&mut out, self.need_restore_no_cmd_mode);
        push_u32_le(&mut out, self.block_size);
        push_u32_le(&mut out, self.flash_state_ctx);
        push_array(&mut out, &self.reserved7);
        proof {
            lemma_record_layout(*self);
            assert(out@ == record_bytes(*self));
        }
        out
    }
}

/// The offset table of the record: for every record value — hence
/// after any sequence of overrides — the wire image is 512 bytes long
/// and each field's bytes sit at its pinned `OFFSET_*` constant.
#[verifier::spinoff_prover]
#[verifier::rlimit(100)]
pub proof fn lemma_record_layout(r: FlexSPIFlashConfigurationBlock)
    ensures
        record_bytes(r).len() == RECORD_SIZE,
        record_bytes(r).subrange(0, 4) == spec_u32_to_le_bytes(r.tag),
        record_bytes(r).subrange(4, 8) == spec_u32_to_le_bytes(r.version),
        record_bytes(r).subrange(8, 12) == r.reserved0@,
        record_bytes(r).subrange(12, 13) == seq![read_sample_clk_value(r.read_sample_clk)],
        record_bytes(r).subrange(13, 14) == seq![r.cs_hold_time],
        record_bytes(r).subrange(14, 15) == seq![r.cs_setup_time],
        record_bytes(r).subrange(15, 16) == seq![column_address_width_value(r.column_address_width)],
        record_bytes(r).subrange(16, 17) == seq![r.device_mode_cfg_enable],
        record_bytes(r).subrange(17, 18) == r.reserved1@,
        record_bytes(r).subrange(18, 20) == spec_u16_to_le_bytes(r.wait_time_cfg_commands),
        record_bytes(r).subrange(20, 21) == seq![r.device_mode_seq.num_seq],
        record_bytes(r).subrange(21, 22) == seq![r.device_mode_seq.seq_index],
        record_bytes(r).subrange(22, 24) == r.device_mode_seq.reserved@,
        record_bytes(r).subrange(24, 28) == r.device_mode_arg@,
        record_bytes(r).subrange(28, 29) == seq![r.config_cmd_enable],
        record_bytes(r).subrange(29, 32) == r.config_mode_type@,
        record_bytes(r).subrange(32, 44) == r.config_cmd_seqs@,
        record_bytes(r).subrange(44, 48) == r.reserved2@,
        record_bytes(r).subrange(48, 60) == r.config_cmd_args@,
        record_bytes(r).subrange(60, 64) == r.reserved3@,
        record_bytes(r).subrange(64, 68) == spec_u32_to_le_bytes(r.controller_misc_option.0),
        record_bytes(r).subrange(68, 69) == seq![device_type_value(r.device_type)],
        record_bytes(r).subrange(69, 70) == seq![sflash_pad_type_value(r.sflash_pad_type)],
        record_bytes(r).subrange(70, 71) == seq![serial_clk_freq_value(r.serial_clk_freq)],
        record_bytes(r).subrange(71, 72) == seq![r.lut_custom_seq_enable],
        record_bytes(r).subrange(72, 80) == r.reserved4@,
        record_bytes(r).subrange(80, 84) == spec_u32_to_le_bytes(r.sflash_a1_size),
        record_bytes(r).subrange(84, 88) == spec_u32_to_le_bytes(r.sflash_a2_size),
        record_bytes(r).subrange(88, 92) == spec_u32_to_le_bytes(r.sflash_b1_size),
        record_bytes(r).subrange(92, 96) == spec_u32_to_le_bytes(r.sflash_b2_size),
        record_bytes(r).subrange(96, 100) == spec_u32_to_le_bytes(r.cs_pad_override),
        record_bytes(r).subrange(100, 104) == spec_u32_to_le_bytes(r.sclk_pad_setting_override),
        record_bytes(r).subrange(104, 108) == spec_u32_to_le_bytes(r.data_pad_setting_override),
        record_bytes(r).subrange(108, 112) == spec_u32_to_le_bytes(r.dqs_pad_setting_override),
        record_bytes(r).subrange(112, 116) == spec_u32_to_le_bytes(r.timeout_in_ms),
        record_bytes(r).subrange(116, 120) == spec_u32_to_le_bytes(r.command_interval),
        record_bytes(r).subrange(120, 124) == spec_u32_to_le_bytes(r.data_valid_time),
        record_bytes(r).subrange(124, 126) == spec_u16_to_le_bytes(r.busy_offset),
        record_bytes(r).subrange(126, 128) == spec_u16_to_le_bytes(busy_bit_polarity_value(r.busy_bit_polarity)),
        record_bytes(r).subrange(128, 384) == words_le(r.lookup_table@),
        record_bytes(r).subrange(384, 432) == r.lut_custom_seq@,
        record_bytes(r).subrange(432, 448) == r.reserved5@,
        record_bytes(r).subrange(448, 452) == spec_u32_to_le_bytes(r.page_size),
        record_bytes(r).subrange(452, 456) == spec_u32_to_le_bytes(r.sector_size),
        record_bytes(r).subrange(456, 457) == seq![r.ipcmd_serial_clk_freq],
        record_bytes(r).subrange(457, 458) == seq![r.is_uniform_block_size],
        record_bytes(r).subrange(458, 459) == seq![r.is_data_order_swapped],
        record_bytes(r).subrange(459, 460) == r.reserved6@,
        record_bytes(r).subrange(460, 461) == seq![serial_nor_type_value(r.serial_nor_type)],
        record_bytes(r).subrange(461, 462) == seq![r.need_exit_no_cmd_mode],
        record_bytes(r).subrange(462, 463) == seq![r.half_clk_for_non_read_cmd],
        record_bytes(r).subrange(463, 464) == seq![r.need_restore_no_cmd_mode],
        record_bytes(r).subrange(464, 468) == spec_u32_to_le_bytes(r.block_size),
        record_bytes(r).subrange(468, 472) == spec_u32_to_le_bytes(r.flash_state_ctx),
        record_bytes(r).subrange(472, 512) == r.reserved7@,
{
    lemma_auto_spec_u32_to_from_le_bytes();
    lemma_auto_spec_u16_to_from_le_bytes();
    lemma_words_le_len(r.lookup_table@);
    let p0 = spec_u32_to_le_bytes(r.tag);
    let a0 = p0;
    let p1 = spec_u32_to_le_bytes(r.version);
    lemma_add_subrange_facts(a0, p1);
    let a1 = a0 + p1;
    let p2 = r.reserved0@;
    lemma_add_subrange_facts(a1, p2);
    let a2 = a1 + p2;
    let p3 = seq![read_sample_clk_value(r.read_sample_clk)];
    lemma_add_subrange_facts(a2, p3);
    let a3 = a2 + p3;
    let p4 = seq![r.cs_hold_time];
    lemma_add_subrange_facts(a3, p4);
    let a4 = a3 + p4;
    let p5 = seq![r.cs_setup_time];
    lemma_add_subrange_facts(a4, p5);
    let a5 = a4 + p5;
    let p6 = seq![column_address_width_value(r.column_address_width)];
    lemma_add_subrange_facts(a5, p6);
    let a6 = a5 + p6;
    let p7 = seq![r.device_mode_cfg_enable];
    lemma_add_subrange_facts(a6, p7);
    let a7 = a6 + p7;
    let p8 = r.reserved1@;
    lemma_add_subrange_facts(a7, p8);
    let a8 = a7 + p8;
    let p9 = spec_u16_to_le_bytes(r.wait_time_cfg_commands);
    lemma_add_subrange_facts(a8, p9);
    let a9 = a8 + p9;
    let p10 = seq![r.device_mode_seq.num_seq];
    lemma_add_subrange_facts(a9, p10);
    let a10 = a9 + p10;
    let p11 = seq![r.device_mode_seq.seq_index];
    lemma_add_subrange_facts(a10, p11);
    let a11 = a10 + p11;
    let p12 = r.device_mode_seq.reserved@;
    lemma_add_subrange_facts(a11, p12);
    let a12 = a11 + p12;
    let p13 = r.device_mode_arg@;
    lemma_add_subrange_facts(a12, p13);
    let a13 = a12 + p13;
    let p14 = seq![r.config_cmd_enable];
    lemma_add_subrange_facts(a13, p14);
    let a14 = a13 + p14;
    let p15 = r.config_mode_type@;
    lemma_add_subrange_facts(a14, p15);
    let a15 = a14 + p15;
    let p16 = r.config_cmd_seqs@;
    lemma_add_subrange_facts(a15, p16);
    let a16 = a15 + p16;
    let p17 = r.reserved2@;
    lemma_add_subrange_facts(a16, p17);
    let a17 = a16 + p17;
    let p18 = r.config_cmd_args@;
    lemma_add_subrange_facts(a17, p18);
    let a18 = a17 + p18;
    let p19 = r.reserved3@;
    lemma_add_subrange_facts(a18, p19);
    let a19 = a18 + p19;
    let p20 = spec_u32_to_le_bytes(r.controller_misc_option.0);
    lemma_add_subrange_facts(a19, p20);
    let a20 = a19 + p20;
    let p21 = seq![device_type_value(r.device_type)];
    lemma_add_subrange_facts(a20, p21);
    let a21 = a20 + p21;
    let p22 = seq![sflash_pad_type_value(r.sflash_pad_type)];
    lemma_add_subrange_facts(a21, p22);
    let a22 = a21 + p22;
    let p23 = seq![serial_clk_freq_value(r.serial_clk_freq)];
    lemma_add_subrange_facts(a22, p23);
    let a23 = a22 + p23;
    let p24 = seq![r.lut_custom_seq_enable];
    lemma_add_subrange_facts(a23, p24);
    let a24 = a23 + p24;
    let p25 = r.reserved4@;
    lemma_add_subrange_facts(a24, p25);
    let a25 = a24 + p25;
    let p26 = spec_u32_to_le_bytes(r.sflash_a1_size);
    lemma_add_subrange_facts(a25, p26);
    let a26 = a25 + p26;
    let p27 = spec_u32_to_le_bytes(r.sflash_a2_size);
    lemma_add_subrange_facts(a26, p27);
    let a27 = a26 + p27;
    let p28 = spec_u32_to_le_bytes(r.sflash_b1_size);
    lemma_add_subrange_facts(a27, p28);
    let a28 = a27 + p28;
    let p29 = spec_u32_to_le_bytes(r.sflash_b2_size);
    lemma_add_subrange_facts(a28, p29);
    let a29 = a28 + p29;
    let p30 = spec_u32_to_le_bytes(r.cs_pad_override);
    lemma_add_subrange_facts(a29, p30);
    let a30 = a29 + p30;
    let p31 = spec_u32_to_le_bytes(r.sclk_pad_setting_override);
    lemma_add_subrange_facts(a30, p31);
    let a31 = a30 + p31;
    let p32 = spec_u32_to_le_bytes(r.data_pad_setting_override);
    lemma_add_subrange_facts(a31, p32);
    let a32 = a31 + p32;
    let p33 = spec_u32_to_le_bytes(r.dqs_pad_setting_override);
    lemma_add_subrange_facts(a32, p33);
    let a33 = a32 + p33;
    let p34 = spec_u32_to_le_bytes(r.timeout_in_ms);
    lemma_add_subrange_facts(a33, p34);
    let a34 = a33 + p34;
    let p35 = spec_u32_to_le_bytes(r.command_interval);
    lemma_add_subrange_facts(a34, p35);
    let a35 = a34 + p35;
    let p36 = spec_u32_to_le_bytes(r.data_valid_time);
    lemma_add_subrange_facts(a35, p36);
    let a36 = a35 + p36;
    let p37 = spec_u16_to_le_bytes(r.busy_offset);
    lemma_add_subrange_facts(a36, p37);
    let a37 = a36 + p37;
    let p38 = spec_u16_to_le_bytes(busy_bit_polarity_value(r.busy_bit_polarity));
    lemma_add_subrange_facts(a37, p38);
    let a38 = a37 + p38;
    let p39 = words_le(r.lookup_table@);
    lemma_add_subrange_facts(a38, p39);
    let a39 = a38 + p39;
    let p40 = r.lut_custom_seq@;
    lemma_add_subrange_facts(a39, p40);
    let a40 = a39 + p40;
    let p41 = r.reserved5@;
    lemma_add_subrange_facts(a40, p41);
    let a41 = a40 + p41;
    let p42 = spec_u32_to_le_bytes(r.page_size);
    lemma_add_subrange_facts(a41, p42);
    let a42 = a41 + p42;
    let p43 = spec_u32_to_le_bytes(r.sector_size);
    lemma_add_subrange_facts(a42, p43);
    let a43 = a42 + p43;
    let p44 = seq![r.ipcmd_serial_clk_freq];
    lemma_add_subrange_facts(a43, p44);
    let a44 = a43 + p44;
    let p45 = seq![r.is_uniform_block_size];
    lemma_add_subrange_facts(a44, p45);
    let a45 = a44 + p45;
    let p46 = seq![r.is_data_order_swapped];
    lemma_add_subrange_facts(a45, p46);
    let a46 = a45 + p46;
    let p47 = r.reserved6@;
    lemma_add_subrange_facts(a46, p47);
    let a47 = a46 + p47;
    let p48 = seq![serial_nor_type_value(r.serial_nor_type)];
    lemma_add_subrange_facts(a47, p48);
    let a48 = a47 + p48;
    let p49 = seq![r.need_exit_no_cmd_mode];
    lemma_add_subrange_facts(a48, p49);
    let a49 = a48 + p49;
    let p50 = seq![r.half_clk_for_non_read_cmd];
    lemma_add_subrange_facts(a49, p50);
    let a50 = a49 + p50;
    let p51 = seq![r.need_restore_no_cmd_mode];
    lemma_add_subrange_facts(a50, p51);
    let a51 = a50 + p51;
    let p52 = spec_u32_to_le_bytes(r.block_size);
    lemma_add_subrange_facts(a51, p52);
    let a52 = a51 + p52;
    let p53 = spec_u32_to_le_bytes(r.flash_state_ctx);
    lemma_add_subrange_facts(a52, p53);
    let a53 = a52 + p53;
    let p54 = r.reserved7@;
    lemma_add_subrange_facts(a53, p54);
    let a54 = a53 + p54;
    assert(record_bytes(r) == a54);
    lemma_subrange_all(p0);
    lemma_subrange_all(p1);
    lemma_subrange_all(p2);
    lemma_subrange_all(p3);
    lemma_subrange_all(p4);
    lemma_subrange_all(p5);
    lemma_subrange_all(p6);
    lemma_subrange_all(p7);
    lemma_subrange_all(p8);
    lemma_subrange_all(p9);
    lemma_subrange_all(p10);
    lemma_subrange_all(p11);
    lemma_subrange_all(p12);
    lemma_subrange_all(p13);
    lemma_subrange_all(p14);
    lemma_subrange_all(p15);
    lemma_subrange_all(p16);
    lemma_subrange_all(p17);
    lemma_subrange_all(p18);
    lemma_subrange_all(p19);
    lemma_subrange_all(p20);
    lemma_subrange_all(p21);
    lemma_subrange_all(p22);
    lemma_subrange_all(p23);
    lemma_subrange_all(p24);
    lemma_subrange_all(p25);
    lemma_subrange_all(p26);
    lemma_subrange_all(p27);
    lemma_subrange_all(p28);
    lemma_subrange_all(p29);
    lemma_subrange_all(p30);
    lemma_subrange_all(p31);
    lemma_subrange_all(p32);
    lemma_subrange_all(p33);
    lemma_subrange_all(p34);
    lemma_subrange_all(p35);
    lemma_subrange_all(p36);
    lemma_subrange_all(p37);
    lemma_subrange_all(p38);
    lemma_subrange_all(p39);
    lemma_subrange_all(p40);
    lemma_subrange_all(p41);
    lemma_subrange_all(p42);
    lemma_subrange_all(p43);
    lemma_subrange_all(p44);
    lemma_subrange_all(p45);
    lemma_subrange_all(p46);
    lemma_subrange_all(p47);
    lemma_subrange_all(p48);
    lemma_subrange_all(p49);
    lemma_subrange_all(p50);
    lemma_subrange_all(p51);
    lemma_subrange_all(p52);
    lemma_subrange_all(p53);
    lemma_subrange_all(p54);
    assert(a0.subrange(0, 4) == p0);
}

/// Round trip at the byte level: decoding the bytes at each field's
/// pinned offset yields exactly the value the record holds there, for
/// every record value — so after any override, re-reading the record
/// field by field reproduces the value each override set, and no field
/// reads another field's bytes.
#[verifier::spinoff_prover]
#[verifier::rlimit(100)]
pub proof fn lemma_record_read_back(r: FlexSPIFlashConfigurationBlock)
    ensures
        spec_u32_from_le_bytes(record_bytes(r).subrange(0, 4)) == r.tag,
        spec_u32_from_le_bytes(record_bytes(r).subrange(4, 8)) == r.version,
        spec_u32_from_le_bytes(record_bytes(r).subrange(64, 68)) == r.controller_misc_option.0,
        spec_u32_from_le_bytes(record_bytes(r).subrange(80, 84)) == r.sflash_a1_size,
        spec_u32_from_le_bytes(record_bytes(r).subrange(84, 88)) == r.sflash_a2_size,
        spec_u32_from_le_bytes(record_bytes(r).subrange(88, 92)) == r.sflash_b1_size,
        spec_u32_from_le_bytes(record_bytes(r).subrange(92, 96)) == r.sflash_b2_size,
        spec_u32_from_le_bytes(record_bytes(r).subrange(96, 100)) == r.cs_pad_override,
        spec_u32_from_le_bytes(record_bytes(r).subrange(100, 104)) == r.sclk_pad_setting_override,
        spec_u32_from_le_bytes(record_bytes(r).subrange(104, 108)) == r.data_pad_setting_override,
        spec_u32_from_le_bytes(record_bytes(r).subrange(108, 112)) == r.dqs_pad_setting_override,
        spec_u32_from_le_bytes(record_bytes(r).subrange(112, 116)) == r.timeout_in_ms,
        spec_u32_from_le_bytes(record_bytes(r).subrange(116, 120)) == r.command_interval,
        spec_u32_from_le_bytes(record_bytes(r).subrange(120, 124)) == r.data_valid_time,
        spec_u32_from_le_bytes(record_bytes(r).subrange(448, 452)) == r.page_size,
        spec_u32_from_le_bytes(record_bytes(r).subrange(452, 456)) == r.sector_size,
        spec_u32_from_le_bytes(record_bytes(r).subrange(464, 468)) == r.block_size,
        spec_u32_from_le_bytes(record_bytes(r).subrange(468, 472)) == r.flash_state_ctx,
        spec_u16_from_le_bytes(record_bytes(r).subrange(18, 20)) == r.wait_time_cfg_commands,
        spec_u16_from_le_bytes(record_bytes(r).subrange(124, 126)) == r.busy_offset,
        spec_u16_from_le_bytes(record_bytes(r).subrange(126, 128)) == busy_bit_polarity_value(r.busy_bit_polarity),
        record_bytes(r)[12] == read_sample_clk_value(r.read_sample_clk),
        record_bytes(r)[13] == r.cs_hold_time,
        record_bytes(r)[14] == r.cs_setup_time,
        record_bytes(r)[15] == column_address_width_value(r.column_address_width),
        record_bytes(r)[16] == r.device_mode_cfg_enable,
        record_bytes(r)[20] == r.device_mode_seq.num_seq,
        record_bytes(r)[21] == r.device_mode_seq.seq_index,
        record_bytes(r)[28] == r.config_cmd_enable,
        record_bytes(r)[68] == device_type_value(r.device_type),
        record_bytes(r)[69] == sflash_pad_type_value(r.sflash_pad_type),
        record_bytes(r)[70] == serial_clk_freq_value(r.serial_clk_freq),
        record_bytes(r)[71] == r.lut_custom_seq_enable,
        record_bytes(r)[456] == r.ipcmd_serial_clk_freq,
        record_bytes(r)[457] == r.is_uniform_block_size,
        record_bytes(r)[458] == r.is_data_order_swapped,
        record_bytes(r)[460] == serial_nor_type_value(r.serial_nor_type),
        record_bytes(r)[461] == r.need_exit_no_cmd_mode,
        record_bytes(r)[462] == r.half_clk_for_non_read_cmd,
        record_bytes(r)[463] == r.need_restore_no_cmd_mode,
        forall|j: int|
            0 <= j < 64 ==> spec_u32_from_le_bytes(
                #[trigger] record_bytes(r).subrange(128 + 4 * j, 132 + 4 * j),
            ) == r.lookup_table@[j],
{
    lemma_record_layout(r);
    lemma_auto_spec_u32_to_from_le_bytes();
    lemma_auto_spec_u16_to_from_le_bytes();
    assert(spec_u32_to_le_bytes(r.tag).len() == 4);
    assert(spec_u32_to_le_bytes(r.version).len() == 4);
    assert(spec_u32_to_le_bytes(r.controller_misc_option.0).len() == 4);
    assert(spec_u32_to_le_bytes(r.sflash_a1_size).len() == 4);
    assert(spec_u32_to_le_bytes(r.sflash_a2_size).len() == 4);
    assert(spec_u32_to_le_bytes(r.sflash_b1_size).len() == 4);
    assert(spec_u32_to_le_bytes(r.sflash_b2_size).len() == 4);
    assert(spec_u32_to_le_bytes(r.cs_pad_override).len() == 4);
    assert(spec_u32_to_le_bytes(r.sclk_pad_setting_override).len() == 4);
    assert(spec_u32_to_le_bytes(r.data_pad_setting_override).len() == 4);
    assert(spec_u32_to_le_bytes(r.dqs_pad_setting_override).len() == 4);
    assert(spec_u32_to_le_bytes(r.timeout_in_ms).len() == 4);
    assert(spec_u32_to_le_bytes(r.command_interval).len() == 4);
    assert(spec_u32_to_le_bytes(r.data_valid_time).len() == 4);
    assert(spec_u32_to_le_bytes(r.page_size).len() == 4);
    assert(spec_u32_to_le_bytes(r.sector_size).len() == 4);
    assert(spec_u32_to_le_bytes(r.block_size).len() == 4);
    assert(spec_u32_to_le_bytes(r.flash_state_ctx).len() == 4);
    assert(spec_u16_to_le_bytes(r.wait_time_cfg_commands).len() == 2);
    assert(spec_u16_to_le_bytes(r.busy_offset).len() == 2);
    assert(spec_u16_to_le_bytes(busy_bit_polarity_value(r.busy_bit_polarity)).len() == 2);
    assert(record_bytes(r)[12] == record_bytes(r).subrange(12, 13)[0]);
    assert(record_bytes(r)[13] == record_bytes(r).subrange(13, 14)[0]);
    assert(record_bytes(r)[14] == record_bytes(r).subrange(14, 15)[0]);
    assert(record_bytes(r)[15] == record_bytes(r).subrange(15, 16)[0]);
    assert(record_bytes(r)[16] == record_bytes(r).subrange(16, 17)[0]);
    assert(record_bytes(r)[20] == record_bytes(r).subrange(20, 21)[0]);
    assert(record_bytes(r)[21] == record_bytes(r).subrange(21, 22)[0]);
    assert(record_bytes(r)[28] == record_bytes(r).subrange(28, 29)[0]);
    assert(record_bytes(r)[68] == record_bytes(r).subrange(68, 69)[0]);
    assert(record_bytes(r)[69] == record_bytes(r).subrange(69, 70)[0]);
    assert(record_bytes(r)[70] == record_bytes(r).subrange(70, 71)[0]);
    assert(record_bytes(r)[71] == record_bytes(r).subrange(71, 72)[0]);
    assert(record_bytes(r)[456] == record_bytes(r).subrange(456, 457)[0]);
    assert(record_bytes(r)[457] == record_bytes(r).subrange(457, 458)[0]);
    assert(record_bytes(r)[458] == record_bytes(r).subrange(458, 459)[0]);
    assert(record_bytes(r)[460] == record_bytes(r).subrange(460, 461)[0]);
    assert(record_bytes(r)[461] == record_bytes(r).subrange(461, 462)[0]);
    assert(record_bytes(r)[462] == record_bytes(r).subrange(462, 463)[0]);
    assert(record_bytes(r)[463] == record_bytes(r).subrange(463, 464)[0]);
    lemma_words_le_len(r.lookup_table@);
    assert forall|j: int| 0 <= j < 64 implies spec_u32_from_le_bytes(
        #[trigger] record_bytes(r).subrange(128 + 4 * j, 132 + 4 * j),
    ) == r.lookup_table@[j] by {
        lemma_words_le_index(r.lookup_table@, j);
        assert(record_bytes(r).subrange(128 + 4 * j, 132 + 4 * j) =~= words_le(
            r.lookup_table@,
        ).subrange(4 * j, 4 * j + 4));
        assert(spec_u32_to_le_bytes(r.lookup_table@[j]).len() == 4);
    }
}


} // verus!
