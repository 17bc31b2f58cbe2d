//! Encoding of FlexSPI lookup-table (LUT) instruction words.
//!
//! Each 32-bit LUT word packs two instructions; an instruction is an
//! (opcode, pad width, 8-bit operand) triple.  The first instruction
//! occupies the low half of the word, the second the high half:
//!
//! - bits [0:8)   operand of the first instruction
//! - bits [8:10)  pad width of the first instruction
//! - bits [10:16) opcode of the first instruction
//! - bits [16:24) operand of the second instruction
//! - bits [24:26) pad width of the second instruction
//! - bits [26:32) opcode of the second instruction

use vstd::prelude::*;

verus! {

/// Instruction kinds understood by the FlexSPI sequence engine.  The
/// numeric code of each variant is fixed by the controller hardware; see
/// [`opcode_value`].
#[allow(non_camel_case_types)]
#[derive(Clone, Copy, PartialEq, Eq, Structural)]
pub enum FlexSpiLutOpcode {
    CMD_SDR,
    CMD_DDR,
    RADDR_SDR,
    RADDR_DDR,
    CADDR_SDR,
    CADDR_DDR,
    MODE1_SDR,
    MODE1_DDR,
    MODE2_SDR,
    MODE2_DDR,
    MODE4_SDR,
    MODE4_DDR,
    MODE8_SDR,
    MODE8_DDR,
    WRITE_SDR,
    WRITE_DDR,
    READ_SDR,
    READ_DDR,
    LEARN_SDR,
    LEARN_DDR,
    DATSZ_SDR,
    DATSZ_DDR,
    DUMMY_SDR,
    DUMMY_DDR,
    DUMMY_RWDS_SDR,
    DUMMY_RWDS_DDR,
    JMP_ON_CS,
    STOP,
}

/// Number of data lines driven in parallel during one instruction phase.
/// The numeric code of each variant is fixed by the controller hardware;
/// see [`num_pads_value`].
#[derive(Clone, Copy, PartialEq, Eq, Structural)]
pub enum FlexSpiNumPads {
    Single,
    Dual,
    Quad,
    Octal,
}

/// The 6-bit opcode field value of each instruction kind.
pub open spec fn opcode_value(op: FlexSpiLutOpcode) -> u8 {
    match op {
        FlexSpiLutOpcode::CMD_SDR => 0x01,
        FlexSpiLutOpcode::CMD_DDR => 0x21,
        FlexSpiLutOpcode::RADDR_SDR => 0x02,
        FlexSpiLutOpcode::RADDR_DDR => 0x22,
        FlexSpiLutOpcode::CADDR_SDR => 0x03,
        FlexSpiLutOpcode::CADDR_DDR => 0x23,
        FlexSpiLutOpcode::MODE1_SDR => 0x04,
        FlexSpiLutOpcode::MODE1_DDR => 0x24,
        FlexSpiLutOpcode::MODE2_SDR => 0x05,
        FlexSpiLutOpcode::MODE2_DDR => 0x25,
        FlexSpiLutOpcode::MODE4_SDR => 0x06,
        FlexSpiLutOpcode::MODE4_DDR => 0x26,
        FlexSpiLutOpcode::MODE8_SDR => 0x07,
        FlexSpiLutOpcode::MODE8_DDR => 0x27,
        FlexSpiLutOpcode::WRITE_SDR => 0x08,
        FlexSpiLutOpcode::WRITE_DDR => 0x28,
        FlexSpiLutOpcode::READ_SDR => 0x09,
        FlexSpiLutOpcode::READ_DDR => 0x29,
        FlexSpiLutOpcode::LEARN_SDR => 0x0a,
        FlexSpiLutOpcode::LEARN_DDR => 0x2a,
        FlexSpiLutOpcode::DATSZ_SDR => 0x0b,
        FlexSpiLutOpcode::DATSZ_DDR => 0x2b,
        FlexSpiLutOpcode::DUMMY_SDR => 0x0c,
        FlexSpiLutOpcode::DUMMY_DDR => 0x2c,
        FlexSpiLutOpcode::DUMMY_RWDS_SDR => 0x0d,
        FlexSpiLutOpcode::DUMMY_RWDS_DDR => 0x2d,
        FlexSpiLutOpcode::JMP_ON_CS => 0x1f,
        FlexSpiLutOpcode::STOP => 0x00,
    }
}

/// The 2-bit pad-width field value of each pad-width class.
pub open spec fn num_pads_value(pads: FlexSpiNumPads) -> u8 {
    match pads {
        FlexSpiNumPads::Single => 0,
        FlexSpiNumPads::Dual => 1,
        FlexSpiNumPads::Quad => 2,
        FlexSpiNumPads::Octal => 3,
    }
}

impl FlexSpiLutOpcode {
    /// The numeric opcode transmitted to the controller.
    pub fn value(self) -> (v: u8)
        ensures
            v == opcode_value(self),
    {
        match self {
            FlexSpiLutOpcode::CMD_SDR => 0x01,
            FlexSpiLutOpcode::CMD_DDR => 0x21,
            FlexSpiLutOpcode::RADDR_SDR => 0x02,
            FlexSpiLutOpcode::RADDR_DDR => 0x22,
            FlexSpiLutOpcode::CADDR_SDR => 0x03,
            FlexSpiLutOpcode::CADDR_DDR => 0x23,
            FlexSpiLutOpcode::MODE1_SDR => 0x04,
            FlexSpiLutOpcode::MODE1_DDR => 0x24,
            FlexSpiLutOpcode::MODE2_SDR => 0x05,
            FlexSpiLutOpcode::MODE2_DDR => 0x25,
            FlexSpiLutOpcode::MODE4_SDR => 0x06,
            FlexSpiLutOpcode::MODE4_DDR => 0x26,
            FlexSpiLutOpcode::MODE8_SDR => 0x07,
            FlexSpiLutOpcode::MODE8_DDR => 0x27,
            FlexSpiLutOpcode::WRITE_SDR => 0x08,
            FlexSpiLutOpcode::WRITE_DDR => 0x28,
            FlexSpiLutOpcode::READ_SDR => 0x09,
            FlexSpiLutOpcode::READ_DDR => 0x29,
            FlexSpiLutOpcode::LEARN_SDR => 0x0a,
            FlexSpiLutOpcode::LEARN_DDR => 0x2a,
            FlexSpiLutOpcode::DATSZ_SDR => 0x0b,
            FlexSpiLutOpcode::DATSZ_DDR => 0x2b,
            FlexSpiLutOpcode::DUMMY_SDR => 0x0c,
            FlexSpiLutOpcode::DUMMY_DDR => 0x2c,
            FlexSpiLutOpcode::DUMMY_RWDS_SDR => 0x0d,
            FlexSpiLutOpcode::DUMMY_RWDS_DDR => 0x2d,
            FlexSpiLutOpcode::JMP_ON_CS => 0x1f,
            FlexSpiLutOpcode::STOP => 0x00,
        }
    }
}

impl FlexSpiNumPads {
    /// The numeric pad-width code transmitted to the controller.
    pub fn value(self) -> (v: u8)
        ensures
            v == num_pads_value(self),
    {
        match self {
            FlexSpiNumPads::Single => 0,
            FlexSpiNumPads::Dual => 1,
            FlexSpiNumPads::Quad => 2,
            FlexSpiNumPads::Octal => 3,
        }
    }
}

/// Every opcode field value fits in the word's 6-bit opcode field.
pub proof fn lemma_opcode_value_bounded(op: FlexSpiLutOpcode)
    ensures
        opcode_value(op) < 0x40,
{
}

/// Every pad-width field value fits in the word's 2-bit pad field.
pub proof fn lemma_num_pads_value_bounded(pads: FlexSpiNumPads)
    ensures
        num_pads_value(pads) < 4,
{
}

/// The 16-bit half-word encoding one (opcode, pad width, operand)
/// instruction: the operand in bits [0:8), the pad width in bits [8:10),
/// the opcode in bits [10:16), stated in place-value form.
pub open spec fn spec_lut_instr(
    opcode: FlexSpiLutOpcode,
    num_pads: FlexSpiNumPads,
    operand: u8,
) -> int {
    operand + 0x100 * num_pads_value(num_pads) + 0x400 * opcode_value(opcode)
}

/// The 32-bit LUT word packing two instructions: the first in bits
/// [0:16), the second in bits [16:32).
pub open spec fn spec_lut_word(
    opcode0: FlexSpiLutOpcode,
    num_pads0: FlexSpiNumPads,
    operand0: u8,
    opcode1: FlexSpiLutOpcode,
    num_pads1: FlexSpiNumPads,
    operand1: u8,
) -> u32 {
    (spec_lut_instr(opcode0, num_pads0, operand0) + 0x10000 * spec_lut_instr(
        opcode1,
        num_pads1,
        operand1,
    )) as u32
}

/// Packs two (opcode, pad width, operand) instruction triples into one
/// 32-bit LUT word, the first triple in the low half and the second in
/// the high half.
pub fn flexspi_lut_seq(
    opcode0: FlexSpiLutOpcode,
    num_pads0: FlexSpiNumPads,
    operand0: u8,
    opcode1: FlexSpiLutOpcode,
    num_pads1: FlexSpiNumPads,
    operand1: u8,
) -> (w: u32)
    ensures
        w == spec_lut_word(opcode0, num_pads0, operand0, opcode1, num_pads1, operand1),
{
    let o0: u32 = opcode0.value() as u32;
    let p0: u32 = num_pads0.value() as u32;
    let x0: u32 = operand0 as u32;
    let o1: u32 = opcode1.value() as u32;
    let p1: u32 = num_pads1.value() as u32;
    let x1: u32 = operand1 as u32;
    let w: u32 = ((o0 << 10) & 0xfc00) | ((p0 << 8) & 0x0300) | (x0 & 0xff) | ((o1 << 26)
        & 0xfc00_0000) | ((p1 << 24) & 0x0300_0000) | ((x1 << 16) & 0x00ff_0000);
    proof {
        lemma_opcode_value_bounded(opcode0);
        lemma_opcode_value_bounded(opcode1);
        lemma_num_pads_value_bounded(num_pads0);
        lemma_num_pads_value_bounded(num_pads1);
        assert(((o0 << 10) & 0xfc00) | ((p0 << 8) & 0x0300) | (x0 & 0xff) | ((o1 << 26)
            & 0xfc00_0000) | ((p1 << 24) & 0x0300_0000) | ((x1 << 16) & 0x00ff_0000) == (x0 + 0x100
            * p0 + 0x400 * o0 + 0x10000 * x1 + 0x0100_0000 * p1 + 0x0400_0000 * o1) as u32)
            by (bit_vector)
            requires
                o0 < 0x40,
                p0 < 4,
                x0 < 0x100,
                o1 < 0x40,
                p1 < 4,
                x1 < 0x100,
        ;
    }
    w
}

/// The packing is lossless: the six inputs can be read back from the
/// word's bit fields, so two words are equal only when every input
/// matches.
pub proof fn lemma_lut_word_fields(
    opcode0: FlexSpiLutOpcode,
    num_pads0: FlexSpiNumPads,
    operand0: u8,
    opcode1: FlexSpiLutOpcode,
    num_pads1: FlexSpiNumPads,
    operand1: u8,
)
    ensures
        spec_lut_word(opcode0, num_pads0, operand0, opcode1, num_pads1, operand1) & 0xff
            == operand0,
        (spec_lut_word(opcode0, num_pads0, operand0, opcode1, num_pads1, operand1) >> 8) & 0x3
            == num_pads_value(num_pads0),
        (spec_lut_word(opcode0, num_pads0, operand0, opcode1, num_pads1, operand1) >> 10) & 0x3f
            == opcode_value(opcode0),
        (spec_lut_word(opcode0, num_pads0, operand0, opcode1, num_pads1, operand1) >> 16) & 0xff
            == operand1,
        (spec_lut_word(opcode0, num_pads0, operand0, opcode1, num_pads1, operand1) >> 24) & 0x3
            == num_pads_value(num_pads1),
        (spec_lut_word(opcode0, num_pads0, operand0, opcode1, num_pads1, operand1) >> 26) & 0x3f
            == opcode_value(opcode1),
{
    let o0: u8 = opcode_value(opcode0);
    let p0: u8 = num_pads_value(num_pads0);
    let o1: u8 = opcode_value(opcode1);
    let p1: u8 = num_pads_value(num_pads1);
    let w: u32 = spec_lut_word(opcode0, num_pads0, operand0, opcode1, num_pads1, operand1);
    lemma_opcode_value_bounded(opcode0);
    lemma_opcode_value_bounded(opcode1);
    lemma_num_pads_value_bounded(num_pads0);
    lemma_num_pads_value_bounded(num_pads1);
    assert(w == (operand0 + 0x100 * p0 + 0x400 * o0 + 0x10000 * operand1 + 0x0100_0000 * p1
        + 0x0400_0000 * o1) as u32);
    assert({
        &&& (operand0 + 0x100 * p0 + 0x400 * o0 + 0x10000 * operand1 + 0x0100_0000 * p1
            + 0x0400_0000 * o1) as u32 & 0xff == operand0
        &&& ((operand0 + 0x100 * p0 + 0x400 * o0 + 0x10000 * operand1 + 0x0100_0000 * p1
            + 0x0400_0000 * o1) as u32 >> 8) & 0x3 == p0
        &&& ((operand0 + 0x100 * p0 + 0x400 * o0 + 0x10000 * operand1 + 0x0100_0000 * p1
            + 0x0400_0000 * o1) as u32 >> 10) & 0x3f == o0
        &&& ((operand0 + 0x100 * p0 + 0x400 * o0 + 0x10000 * operand1 + 0x0100_0000 * p1
            + 0x0400_0000 * o1) as u32 >> 16) & 0xff == operand1
        &&& ((operand0 + 0x100 * p0 + 0x400 * o0 + 0x10000 * operand1 + 0x0100_0000 * p1
            + 0x0400_0000 * o1) as u32 >> 24) & 0x3 == p1
        &&& ((operand0 + 0x100 * p0 + 0x400 * o0 + 0x10000 * operand1 + 0x0100_0000 * p1
            + 0x0400_0000 * o1) as u32 >> 26) & 0x3f == o1
    }) by (bit_vector)
        requires
            o0 < 0x40,
            p0 < 4,
            operand0 < 0x100,
            o1 < 0x40,
            p1 < 4,
            operand1 < 0x100,
    ;
}

} // verus!
