//! A byte-exact FlexSPI serial-NOR flash configuration block.
//!
//! The crate models the fixed 512-byte configuration record that a boot
//! ROM reads at power-on to set up an external flash controller: the
//! record's field layout with pinned byte offsets, the enumerated field
//! domains whose numeric codes the hardware fixes, the encoder that packs
//! command sequences into 32-bit lookup-table words, and an immutable
//! builder that overrides one field at a time without disturbing the
//! layout.

pub mod block;
pub mod fields;
pub mod laws;
pub mod layout;
pub mod lut;

pub use block::FlexSPIFlashConfigurationBlock;
pub use fields::BusyBitPolarity;
pub use fields::ColumnAddressWidth;
pub use fields::ControllerMiscOption;
pub use fields::DeviceModeSeq;
pub use fields::DeviceType;
pub use fields::ReadSampleClk;
pub use fields::SFlashPadType;
pub use fields::SerialClkFreq;
pub use fields::SerialNORType;
pub use lut::flexspi_lut_seq;
pub use lut::FlexSpiLutOpcode;
pub use lut::FlexSpiNumPads;
