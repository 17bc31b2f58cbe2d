//! Enumerated field domains of the configuration block and its two
//! sub-records.
//!
//! Each enumeration is a closed domain: the numeric code of every
//! variant is fixed by the boot ROM's reading of the record and is given
//! by the `*_value` spec function next to the type.  A field of such a
//! type cannot hold an out-of-domain code by construction.

use vstd::prelude::*;

verus! {

/// How the controller samples read data.
#[derive(Clone, Copy, PartialEq, Eq, Structural)]
pub enum ReadSampleClk {
    InternalLoopback,
    LoopBackFromDQSPad,
    LoopBackFromSCKPad,
    ExternalDQSSignal,
}

/// The numeric code of each read-sample-clock mode.
pub open spec fn read_sample_clk_value(v: ReadSampleClk) -> u8 {
    match v {
        ReadSampleClk::InternalLoopback => 0,
        ReadSampleClk::LoopBackFromDQSPad => 1,
        ReadSampleClk::LoopBackFromSCKPad => 2,
        ReadSampleClk::ExternalDQSSignal => 3,
    }
}

impl ReadSampleClk {
    /// The numeric code stored in the record.
    pub fn value(self) -> (v: u8)
        ensures
            v == read_sample_clk_value(self),
    {
        match self {
            ReadSampleClk::InternalLoopback => 0,
            ReadSampleClk::LoopBackFromDQSPad => 1,
            ReadSampleClk::LoopBackFromSCKPad => 2,
            ReadSampleClk::ExternalDQSSignal => 3,
        }
    }
}

/// Column address width of the attached part; only HyperFlash parts use
/// a column address.
#[derive(Clone, Copy, PartialEq, Eq, Structural)]
pub enum ColumnAddressWidth {
    Other,
    HyperFlash,
}

/// The numeric code of each column-address-width class.
pub open spec fn column_address_width_value(v: ColumnAddressWidth) -> u8 {
    match v {
        ColumnAddressWidth::Other => 0,
        ColumnAddressWidth::HyperFlash => 3,
    }
}

impl ColumnAddressWidth {
    /// The numeric code stored in the record.
    pub fn value(self) -> (v: u8)
        ensures
            v == column_address_width_value(self),
    {
        match self {
            ColumnAddressWidth::Other => 0,
            ColumnAddressWidth::HyperFlash => 3,
        }
    }
}

/// Kind of serial flash attached to the controller.
#[derive(Clone, Copy, PartialEq, Eq, Structural)]
pub enum DeviceType {
    SerialNOR,
}

/// The numeric code of each device type.
pub open spec fn device_type_value(v: DeviceType) -> u8 {
    match v {
        DeviceType::SerialNOR => 1,
    }
}

impl DeviceType {
    /// The numeric code stored in the record.
    pub fn value(self) -> (v: u8)
        ensures
            v == device_type_value(self),
    {
        match self {
            DeviceType::SerialNOR => 1,
        }
    }
}

/// Pad (data line) count wired to the flash part.
#[derive(Clone, Copy, PartialEq, Eq, Structural)]
pub enum SFlashPadType {
    SinglePad,
    DualPads,
    QuadPads,
    OctalPads,
}

/// The numeric code of each pad count.
pub open spec fn sflash_pad_type_value(v: SFlashPadType) -> u8 {
    match v {
        SFlashPadType::SinglePad => 1,
        SFlashPadType::DualPads => 2,
        SFlashPadType::QuadPads => 4,
        SFlashPadType::OctalPads => 8,
    }
}

impl SFlashPadType {
    /// The numeric code stored in the record.
    pub fn value(self) -> (v: u8)
        ensures
            v == sflash_pad_type_value(self),
    {
        match self {
            SFlashPadType::SinglePad => 1,
            SFlashPadType::DualPads => 2,
            SFlashPadType::QuadPads => 4,
            SFlashPadType::OctalPads => 8,
        }
    }
}

/// Serial clock frequency class used for ordinary transactions.
#[derive(Clone, Copy, PartialEq, Eq, Structural)]
pub enum SerialClkFreq {
    SdrDdr30mhz,
    SdrDdr50mhz,
    SdrDdr60mhz,
    SdrDdr80mhz,
    SdrDdr100mhz,
    SdrDdr120mhz,
    SdrDdr133mhz,
    SdrDdr166mhz,
    SdrDdr200mhz,
}

/// The numeric code of each serial clock frequency class.
pub open spec fn serial_clk_freq_value(v: SerialClkFreq) -> u8 {
    match v {
        SerialClkFreq::SdrDdr30mhz => 1,
        SerialClkFreq::SdrDdr50mhz => 2,
        SerialClkFreq::SdrDdr60mhz => 3,
        SerialClkFreq::SdrDdr80mhz => 4,
        SerialClkFreq::SdrDdr100mhz => 5,
        SerialClkFreq::SdrDdr120mhz => 6,
        SerialClkFreq::SdrDdr133mhz => 7,
        SerialClkFreq::SdrDdr166mhz => 8,
        SerialClkFreq::SdrDdr200mhz => 9,
    }
}

impl SerialClkFreq {
    /// The numeric code stored in the record.
    pub fn value(self) -> (v: u8)
        ensures
            v == serial_clk_freq_value(self),
    {
        match self {
            SerialClkFreq::SdrDdr30mhz => 1,
            SerialClkFreq::SdrDdr50mhz => 2,
            SerialClkFreq::SdrDdr60mhz => 3,
            SerialClkFreq::SdrDdr80mhz => 4,
            SerialClkFreq::SdrDdr100mhz => 5,
            SerialClkFreq::SdrDdr120mhz => 6,
            SerialClkFreq::SdrDdr133mhz => 7,
            SerialClkFreq::SdrDdr166mhz => 8,
            SerialClkFreq::SdrDdr200mhz => 9,
        }
    }
}

/// Polarity of the busy bit in the part's status register.  Stored as a
/// 16-bit field in the record.
#[derive(Clone, Copy, PartialEq, Eq, Structural)]
pub enum BusyBitPolarity {
    Normal,
    Inverted,
}

/// The numeric code of each busy-bit polarity.
pub open spec fn busy_bit_polarity_value(v: BusyBitPolarity) -> u16 {
    match v {
        BusyBitPolarity::Normal => 0,
        BusyBitPolarity::Inverted => 1,
    }
}

impl BusyBitPolarity {
    /// The numeric code stored in the record.
    pub fn value(self) -> (v: u16)
        ensures
            v == busy_bit_polarity_value(self),
    {
        match self {
            BusyBitPolarity::Normal => 0,
            BusyBitPolarity::Inverted => 1,
        }
    }
}

/// Command protocol spoken by the serial NOR part.
#[derive(Clone, Copy, PartialEq, Eq, Structural)]
pub enum SerialNORType {
    StandardSpi,
    HyperBus,
    Xpi,
    NoCmd,
}

/// The numeric code of each serial NOR protocol.
pub open spec fn serial_nor_type_value(v: SerialNORType) -> u8 {
    match v {
        SerialNORType::StandardSpi => 0,
        SerialNORType::HyperBus => 1,
        SerialNORType::Xpi => 2,
        SerialNORType::NoCmd => 3,
    }
}

impl SerialNORType {
    /// The numeric code stored in the record.
    pub fn value(self) -> (v: u8)
        ensures
            v == serial_nor_type_value(self),
    {
        match self {
            SerialNORType::StandardSpi => 0,
            SerialNORType::HyperBus => 1,
            SerialNORType::Xpi => 2,
            SerialNORType::NoCmd => 3,
        }
    }
}

/// Identifies the LUT sequence that switches the part's device mode:
/// how many sequences to run and the index of the first one.
#[derive(Clone, Copy, PartialEq, Eq)]
pub struct DeviceModeSeq {
    /// Number of LUT sequences to issue.
    pub num_seq: u8,
    /// Index of the first LUT sequence to issue.
    pub seq_index: u8,
    /// Reserved trailer, always zero.
    pub reserved: [u8; 2],
}

impl DeviceModeSeq {
    /// The default mode-switch sequence of the reference part: one
    /// sequence, starting at LUT sequence index 6.
    pub fn build() -> (s: Self)
        ensures
            s.num_seq == 1,
            s.seq_index == 6,
            s.reserved@ == seq![0u8, 0u8],
    {
        let s = DeviceModeSeq { num_seq: 1, seq_index: 6, reserved: [0, 0] };
        proof {
            assert(s.reserved@ =~= seq![0u8, 0u8]);
        }
        s
    }
}

/// Whether bit `i` of `v` is set.
pub open spec fn bit32(v: u32, i: u32) -> bool
    recommends
        i < 32,
{
    (v >> i) & 1 == 1
}

/// Miscellaneous controller option flags, stored as one 32-bit field.
/// Individual options live at fixed bit positions reached through the
/// accessors below; unnamed bits are reserved.
#[derive(Clone, Copy, PartialEq, Eq, Structural)]
pub struct ControllerMiscOption(pub u32);

impl ControllerMiscOption {
    /// Bit 0: the clock pair is driven differentially.
    pub fn differential_clock(&self) -> (b: bool)
        ensures
            b == bit32(self.0, 0),
    {
        let b: bool = (self.0 >> 0u32) & 1 == 1;
        b
    }

    /// Bit 3: the part is word- rather than byte-addressable.
    pub fn word_addressable(&self) -> (b: bool)
        ensures
            b == bit32(self.0, 3),
    {
        let b: bool = (self.0 >> 3u32) & 1 == 1;
        b
    }

    /// Bit 4: configuration commands run at a safe low frequency.
    pub fn safe_config_freq(&self) -> (b: bool)
        ensures
            b == bit32(self.0, 4),
    {
        let b: bool = (self.0 >> 4u32) & 1 == 1;
        b
    }

    /// Bit 6: transactions use double data rate signaling.
    pub fn ddr_mode(&self) -> (b: bool)
        ensures
            b == bit32(self.0, 6),
    {
        let b: bool = (self.0 >> 6u32) & 1 == 1;
        b
    }

    /// Sets bit 0 to `b` and leaves every other bit unchanged.
    pub fn set_differential_clock(&mut self, b: bool)
        ensures
            bit32(final(self).0, 0) == b,
            forall|i: u32| i < 32 && i != 0 ==> bit32(final(self).0, i) == bit32(old(self).0, i),
    {
        self.set_bit(0, b);
    }

    /// Sets bit 3 to `b` and leaves every other bit unchanged.
    pub fn set_word_addressable(&mut self, b: bool)
        ensures
            bit32(final(self).0, 3) == b,
            forall|i: u32| i < 32 && i != 3 ==> bit32(final(self).0, i) == bit32(old(self).0, i),
    {
        self.set_bit(3, b);
    }

    /// Sets bit 4 to `b` and leaves every other bit unchanged.
    pub fn set_safe_config_freq(&mut self, b: bool)
        ensures
            bit32(final(self).0, 4) == b,
            forall|i: u32| i < 32 && i != 4 ==> bit32(final(self).0, i) == bit32(old(self).0, i),
    {
        self.set_bit(4, b);
    }

    /// Sets bit 6 to `b` and leaves every other bit unchanged.
    pub fn set_ddr_mode(&mut self, b: bool)
        ensures
            bit32(final(self).0, 6) == b,
            forall|i: u32| i < 32 && i != 6 ==> bit32(final(self).0, i) == bit32(old(self).0, i),
    {
        self.set_bit(6, b);
    }

    /// Sets bit `k` to `b` and leaves every other bit unchanged.
    fn set_bit(&mut self, k: u32, b: bool)
        requires
            k < 32,
        ensures
            bit32(final(self).0, k) == b,
            forall|i: u32| i < 32 && i != k ==> bit32(final(self).0, i) == bit32(old(self).0, i),
    {
        let v: u32 = self.0;
        if b {
            self.0 = v | (1u32 << k);
            proof {
                assert(bit32(v | (1u32 << k), k) && forall|i: u32|
                    i < 32 && i != k ==> bit32(v | (1u32 << k), i) == bit32(v, i)) by (bit_vector)
                    requires
                        k < 32,
                ;
            }
        } else {
            self.0 = v & !(1u32 << k);
            proof {
                assert(!bit32(v & !(1u32 << k), k) && forall|i: u32|
                    i < 32 && i != k ==> bit32(v & !(1u32 << k), i) == bit32(v, i)) by (bit_vector)
                    requires
                        k < 32,
                ;
            }
        }
    }
}

} // verus!
