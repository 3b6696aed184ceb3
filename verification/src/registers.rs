//! The chip's register address map and the fixed codes of its enumerated
//! fields, as the datasheet gives them.

use vstd::prelude::*;

verus! {

/// Largest input volume: the input volume field is 6 bits wide.
pub const MAX_INPUT_VOLUME: u8 = 0b111111;

/// Largest output volume the driver accepts for the primary output path.
pub const MAX_OUTPUT_VOLUME: u8 = 0b1111111;

/// Largest mixer level: the mixer attenuation field is 3 bits wide.
pub const MAX_MIX_VOLUME: u8 = 0b111;

/// Largest DAC volume: the DAC volume field is 8 bits wide.
pub const MAX_DAC_VOLUME: u8 = 0b11111111;

/// The chip's named control registers.  Each carries a fixed 7-bit address.
#[derive(Clone, Copy, Debug, PartialEq, Eq, Structural)]
pub enum RegisterAddress {
    LeftInputVolume,
    RightInputVolume,
    LeftOutput1Volume,
    RightOutput1Volume,
    ADCDACControl,
    AudioInterface,
    SampleRate,
    LeftDACVolume,
    RightDACVolume,
    BassControl,
    TrebleControl,
    Reset,
    Control3D,
    ALC1,
    ALC2,
    ALC3,
    NoiseGate,
    LeftADCVolume,
    RightADCVolume,
    AdditionalControl1,
    AdditionalControl2,
    PowerManagement1,
    PowerManagement2,
    AdditionalControl3,
    ADCInputMode,
    ADCLSignalPath,
    ADCRSignalPath,
    LeftOutMix1,
    LeftOutMix2,
    RightOutMix1,
    RightOutMix2,
    LeftOutput2Volume,
    RightOutput2Volume,
    LowPowerPlayback,
}

impl RegisterAddress {
    /// The register's numeric address on the control link.
    pub open spec fn spec_address(self) -> u8 {
        match self {
            RegisterAddress::LeftInputVolume => 0x00,
            RegisterAddress::RightInputVolume => 0x01,
            RegisterAddress::LeftOutput1Volume => 0x02,
            RegisterAddress::RightOutput1Volume => 0x03,
            RegisterAddress::ADCDACControl => 0x05,
            RegisterAddress::AudioInterface => 0x07,
            RegisterAddress::SampleRate => 0x08,
            RegisterAddress::LeftDACVolume => 0x0A,
            RegisterAddress::RightDACVolume => 0x0B,
            RegisterAddress::BassControl => 0x0C,
            RegisterAddress::TrebleControl => 0x0D,
            RegisterAddress::Reset => 0x0F,
            RegisterAddress::Control3D => 0x10,
            RegisterAddress::ALC1 => 0x11,
            RegisterAddress::ALC2 => 0x12,
            RegisterAddress::ALC3 => 0x13,
            RegisterAddress::NoiseGate => 0x14,
            RegisterAddress::LeftADCVolume => 0x15,
            RegisterAddress::RightADCVolume => 0x16,
            RegisterAddress::AdditionalControl1 => 0x17,
            RegisterAddress::AdditionalControl2 => 0x18,
            RegisterAddress::PowerManagement1 => 0x19,
            RegisterAddress::PowerManagement2 => 0x1A,
            RegisterAddress::AdditionalControl3 => 0x1B,
            RegisterAddress::ADCInputMode => 0x1F,
            RegisterAddress::ADCLSignalPath => 0x20,
            RegisterAddress::ADCRSignalPath => 0x21,
            RegisterAddress::LeftOutMix1 => 0x22,
            RegisterAddress::LeftOutMix2 => 0x23,
            RegisterAddress::RightOutMix1 => 0x24,
            RegisterAddress::RightOutMix2 => 0x25,
            RegisterAddress::LeftOutput2Volume => 0x28,
            RegisterAddress::RightOutput2Volume => 0x29,
            RegisterAddress::LowPowerPlayback => 0x43,
        }
    }

    /// Returns the register's numeric address; every address fits the 7-bit
    /// address field of a control frame.
    pub fn address(self) -> (a: u8)
        ensures
            a == self.spec_address(),
            a < 128,
    {
        match self {
            RegisterAddress::LeftInputVolume => 0x00,
            RegisterAddress::RightInputVolume => 0x01,
            RegisterAddress::LeftOutput1Volume => 0x02,
            RegisterAddress::RightOutput1Volume => 0x03,
            RegisterAddress::ADCDACControl => 0x05,
            RegisterAddress::AudioInterface => 0x07,
            RegisterAddress::SampleRate => 0x08,
            RegisterAddress::LeftDACVolume => 0x0A,
            RegisterAddress::RightDACVolume => 0x0B,
            RegisterAddress::BassControl => 0x0C,
            RegisterAddress::TrebleControl => 0x0D,
            RegisterAddress::Reset => 0x0F,
            RegisterAddress::Control3D => 0x10,
            RegisterAddress::ALC1 => 0x11,
            RegisterAddress::ALC2 => 0x12,
            RegisterAddress::ALC3 => 0x13,
            RegisterAddress::NoiseGate => 0x14,
            RegisterAddress::LeftADCVolume => 0x15,
            RegisterAddress::RightADCVolume => 0x16,
            RegisterAddress::AdditionalControl1 => 0x17,
            RegisterAddress::AdditionalControl2 => 0x18,
            RegisterAddress::PowerManagement1 => 0x19,
            RegisterAddress::PowerManagement2 => 0x1A,
            RegisterAddress::AdditionalControl3 => 0x1B,
            RegisterAddress::ADCInputMode => 0x1F,
            RegisterAddress::ADCLSignalPath => 0x20,
            RegisterAddress::ADCRSignalPath => 0x21,
            RegisterAddress::LeftOutMix1 => 0x22,
            RegisterAddress::LeftOutMix2 => 0x23,
            RegisterAddress::RightOutMix1 => 0x24,
            RegisterAddress::RightOutMix2 => 0x25,
            RegisterAddress::LeftOutput2Volume => 0x28,
            RegisterAddress::RightOutput2Volume => 0x29,
            RegisterAddress::LowPowerPlayback => 0x43,
        }
    }
}

/// Word lengths of the digital audio interface.
#[derive(Clone, Copy, Debug, PartialEq, Eq, Structural)]
pub enum AudioWordLength {
    Bit16,
    Bit20,
    Bit24,
    Bit32,
}

impl AudioWordLength {
    /// The 2-bit code of the word length in the audio interface register.
    pub open spec fn spec_code(self) -> u8 {
        match self {
            AudioWordLength::Bit16 => 0b00,
            AudioWordLength::Bit20 => 0b01,
            AudioWordLength::Bit24 => 0b10,
            AudioWordLength::Bit32 => 0b11,
        }
    }

    /// Returns the word length's 2-bit register code.
    pub fn code(self) -> (c: u8)
        ensures
            c == self.spec_code(),
            c < 4,
    {
        match self {
            AudioWordLength::Bit16 => 0b00,
            AudioWordLength::Bit20 => 0b01,
            AudioWordLength::Bit24 => 0b10,
            AudioWordLength::Bit32 => 0b11,
        }
    }
}

/// Input sources an output mixer can take.
#[derive(Clone, Copy, Debug, PartialEq, Eq, Structural)]
pub enum MixInputSelection {
    Input1,
    Input2,
    MicBoost,
    Differential,
}

impl MixInputSelection {
    /// The 3-bit code of the input selection in the mixer registers.
    pub open spec fn spec_code(self) -> u8 {
        match self {
            MixInputSelection::Input1 => 0b000,
            MixInputSelection::Input2 => 0b001,
            MixInputSelection::MicBoost => 0b011,
            MixInputSelection::Differential => 0b100,
        }
    }

    /// Returns the input selection's 3-bit register code.
    pub fn code(self) -> (c: u8)
        ensures
            c == self.spec_code(),
            c < 8,
    {
        match self {
            MixInputSelection::Input1 => 0b000,
            MixInputSelection::Input2 => 0b001,
            MixInputSelection::MicBoost => 0b011,
            MixInputSelection::Differential => 0b100,
        }
    }
}

} // verus!
