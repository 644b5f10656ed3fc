//! Register addresses and the typed views of the configuration registers' bytes.

use crate::bits::{bit, bits, get_bit, get_bits, set_bit, set_bits, with_bit, with_bits};
use vstd::prelude::*;
use vstd::std_specs::convert::FromSpecImpl;

verus! {

/// Addresses of the device's registers.
#[allow(non_camel_case_types)]
#[derive(Debug, Clone, Copy, PartialEq, Eq, Structural)]
pub enum Register {
    /// Identity of the device; factory programmed, read only.
    ID,
    /// Configuration register 1.
    CONFIG1,
    /// Configuration register 2.
    CONFIG2,
    /// Lead-off control.
    LOFF,
    /// Settings of channel 1.
    CH1SET,
    /// Settings of channel 2.
    CH2SET,
    /// Right-leg-drive sense selection.
    RLD_SENS,
    /// Lead-off sense selection.
    LOFF_SENS,
    /// Lead-off status.
    LOFF_STAT,
    /// Respiration control register 1.
    RESP1,
    /// Respiration control register 2.
    RESP2,
    /// General-purpose I/O.
    GPIO,
}

impl Register {
    /// The address as a specification value.
    pub open spec fn spec_addr(self) -> u8 {
        match self {
            Register::ID => 0x00,
            Register::CONFIG1 => 0x01,
            Register::CONFIG2 => 0x02,
            Register::LOFF => 0x03,
            Register::CH1SET => 0x04,
            Register::CH2SET => 0x05,
            Register::RLD_SENS => 0x06,
            Register::LOFF_SENS => 0x07,
            Register::LOFF_STAT => 0x08,
            Register::RESP1 => 0x09,
            Register::RESP2 => 0x0A,
            Register::GPIO => 0x0B,
        }
    }

    /// The address of this register on the device.
    #[verifier::when_used_as_spec(spec_addr)]
    pub fn addr(self) -> (a: u8)
        ensures
            a == self.spec_addr(),
    {
        match self {
            Register::ID => 0x00,
            Register::CONFIG1 => 0x01,
            Register::CONFIG2 => 0x02,
            Register::LOFF => 0x03,
            Register::CH1SET => 0x04,
            Register::CH2SET => 0x05,
            Register::RLD_SENS => 0x06,
            Register::LOFF_SENS => 0x07,
            Register::LOFF_STAT => 0x08,
            Register::RESP1 => 0x09,
            Register::RESP2 => 0x0A,
            Register::GPIO => 0x0B,
        }
    }
}

/// Oversampling rate shared by all channels.
#[derive(Debug, Clone, Copy, PartialEq, Eq, Structural)]
pub enum SampleRate {
    /// 125 samples per second.
    Sps125,
    /// 250 samples per second.
    Sps250,
    /// 500 samples per second.
    Sps500,
    /// 1000 samples per second.
    KSps1,
    /// 2000 samples per second.
    KSps2,
    /// 4000 samples per second.
    KSps4,
    /// 8000 samples per second.
    KSps8,
    /// Any other field value.
    Unknown,
}

impl SampleRate {
    /// The variant that a field value stands for. A value that names no setting
    /// is `Unknown`; none is an error.
    pub open spec fn from_code(code: int) -> Self {
        if code == 0b000 {
            SampleRate::Sps125
        } else if code == 0b001 {
            SampleRate::Sps250
        } else if code == 0b010 {
            SampleRate::Sps500
        } else if code == 0b011 {
            SampleRate::KSps1
        } else if code == 0b100 {
            SampleRate::KSps2
        } else if code == 0b101 {
            SampleRate::KSps4
        } else if code == 0b110 {
            SampleRate::KSps8
        } else {
            SampleRate::Unknown
        }
    }

    /// The field value that stands for this variant.
    pub open spec fn code(self) -> u8 {
        match self {
            SampleRate::Sps125 => 0b000,
            SampleRate::Sps250 => 0b001,
            SampleRate::Sps500 => 0b010,
            SampleRate::KSps1 => 0b011,
            SampleRate::KSps2 => 0b100,
            SampleRate::KSps4 => 0b101,
            SampleRate::KSps8 => 0b110,
            SampleRate::Unknown => 0b111,
        }
    }
}

/// Every variant is the one that its own code stands for.
pub proof fn lemma_sample_rate_code_round_trip(value: SampleRate)
    ensures
        SampleRate::from_code(value.code() as int) == value,
{
}

impl From<u8> for SampleRate {
    fn from(x: u8) -> (r: Self) {
        match x {
            0b000 => SampleRate::Sps125,
            0b001 => SampleRate::Sps250,
            0b010 => SampleRate::Sps500,
            0b011 => SampleRate::KSps1,
            0b100 => SampleRate::KSps2,
            0b101 => SampleRate::KSps4,
            0b110 => SampleRate::KSps8,
            _ => SampleRate::Unknown,
        }
    }
}

impl FromSpecImpl<u8> for SampleRate {
    open spec fn obeys_from_spec() -> bool {
        true
    }

    open spec fn from_spec(x: u8) -> Self {
        Self::from_code(x as int)
    }
}

impl From<SampleRate> for u8 {
    fn from(x: SampleRate) -> (r: u8) {
        match x {
            SampleRate::Sps125 => 0b000,
            SampleRate::Sps250 => 0b001,
            SampleRate::Sps500 => 0b010,
            SampleRate::KSps1 => 0b011,
            SampleRate::KSps2 => 0b100,
            SampleRate::KSps4 => 0b101,
            SampleRate::KSps8 => 0b110,
            SampleRate::Unknown => 0b111,
        }
    }
}

impl FromSpecImpl<SampleRate> for u8 {
    open spec fn obeys_from_spec() -> bool {
        true
    }

    open spec fn from_spec(x: SampleRate) -> u8 {
        x.code()
    }
}

/// Configuration register 1: conversion mode and oversampling rate.
#[derive(Debug, Clone, Copy, PartialEq, Eq, Structural)]
pub struct Conf1(pub u8);

impl Conf1 {
    /// Single-shot conversion mode; continuous conversion otherwise. Held in bit 7.
    pub fn single_shot(&self) -> (r: bool)
        ensures
            r == bit(self.0, 7),
    {
        get_bit(self.0, 7)
    }

    /// Sets bit 7 and leaves the other bits as they are.
    pub fn set_single_shot(&mut self, value: bool)
        ensures
            final(self).0 == with_bit(old(self).0, 7, value),
    {
        self.0 = set_bit(self.0, 7, value);
    }

    /// The oversampling rate used by all channels. Held in bits 2 to 0.
    pub fn oversampling(&self) -> (r: SampleRate)
        ensures
            r == SampleRate::from_code(bits(self.0, 2, 0)),
    {
        SampleRate::from(get_bits(self.0, 2, 0))
    }

    /// Sets bits 2 to 0 to the code of `value`, cut to the width of the field,
    /// and leaves the other bits as they are.
    pub fn set_oversampling(&mut self, value: SampleRate)
        ensures
            final(self).0 == with_bits(old(self).0, 2, 0, value.code()),
    {
        self.0 = set_bits(self.0, 2, 0, u8::from(value));
    }
}

/// Configuration register 2: test signal, clock, reference and lead-off comparators.
#[derive(Debug, Clone, Copy, PartialEq, Eq, Structural)]
pub struct Conf2(pub u8);

impl Conf2 {
    /// Lead-off comparators powered. Held in bit 6.
    pub fn pdb_loff_comp(&self) -> (r: bool)
        ensures
            r == bit(self.0, 6),
    {
        get_bit(self.0, 6)
    }

    /// Sets bit 6 and leaves the other bits as they are.
    pub fn set_pdb_loff_comp(&mut self, value: bool)
        ensures
            final(self).0 == with_bit(old(self).0, 6, value),
    {
        self.0 = set_bit(self.0, 6, value);
    }

    /// Internal reference buffer powered. Held in bit 5.
    pub fn pdb_refbuf(&self) -> (r: bool)
        ensures
            r == bit(self.0, 5),
    {
        get_bit(self.0, 5)
    }

    /// Sets bit 5 and leaves the other bits as they are.
    pub fn set_pdb_refbuf(&mut self, value: bool)
        ensures
            final(self).0 == with_bit(old(self).0, 5, value),
    {
        self.0 = set_bit(self.0, 5, value);
    }

    /// The 4.033 V reference is used; the 2.42 V reference otherwise. Held in bit 4.
    pub fn vref_4v(&self) -> (r: bool)
        ensures
            r == bit(self.0, 4),
    {
        get_bit(self.0, 4)
    }

    /// Sets bit 4 and leaves the other bits as they are.
    pub fn set_vref_4v(&mut self, value: bool)
        ensures
            final(self).0 == with_bit(old(self).0, 4, value),
    {
        self.0 = set_bit(self.0, 4, value);
    }

    /// The internal oscillator signal is put on the clock pin. Held in bit 3.
    pub fn clk_en(&self) -> (r: bool)
        ensures
            r == bit(self.0, 3),
    {
        get_bit(self.0, 3)
    }

    /// Sets bit 3 and leaves the other bits as they are.
    pub fn set_clk_en(&mut self, value: bool)
        ensures
            final(self).0 == with_bit(old(self).0, 3, value),
    {
        self.0 = set_bit(self.0, 3, value);
    }

    /// The test signal is on. Held in bit 1.
    pub fn int_test(&self) -> (r: bool)
        ensures
            r == bit(self.0, 1),
    {
        get_bit(self.0, 1)
    }

    /// Sets bit 1 and leaves the other bits as they are.
    pub fn set_int_test(&mut self, value: bool)
        ensures
            final(self).0 == with_bit(old(self).0, 1, value),
    {
        self.0 = set_bit(self.0, 1, value);
    }

    /// The test signal is a square wave; a constant level otherwise. Held in bit 0.
    pub fn test_freq(&self) -> (r: bool)
        ensures
            r == bit(self.0, 0),
    {
        get_bit(self.0, 0)
    }

    /// Sets bit 0 and leaves the other bits as they are.
    pub fn set_test_freq(&mut self, value: bool)
        ensures
            final(self).0 == with_bit(old(self).0, 0, value),
    {
        self.0 = set_bit(self.0, 0, value);
    }
}

/// Magnitude of the current used for lead-off detection.
#[derive(Debug, Clone, Copy, PartialEq, Eq, Structural)]
pub enum LeadOffCurrentMagnitude {
    /// 6 nA.
    C6nA,
    /// 22 nA.
    C22nA,
    /// 6 uA.
    C6uA,
    /// 22 uA.
    C22uA,
    /// Any other field value.
    Unknown,
}

impl LeadOffCurrentMagnitude {
    /// The variant that a field value stands for. A value that names no setting
    /// is `Unknown`; none is an error.
    pub open spec fn from_code(code: int) -> Self {
        if code == 0b00 {
            LeadOffCurrentMagnitude::C6nA
        } else if code == 0b01 {
            LeadOffCurrentMagnitude::C22nA
        } else if code == 0b10 {
            LeadOffCurrentMagnitude::C6uA
        } else if code == 0b11 {
            LeadOffCurrentMagnitude::C22uA
        } else {
            LeadOffCurrentMagnitude::Unknown
        }
    }

    /// The field value that stands for this variant.
    pub open spec fn code(self) -> u8 {
        match self {
            LeadOffCurrentMagnitude::C6nA => 0b00,
            LeadOffCurrentMagnitude::C22nA => 0b01,
            LeadOffCurrentMagnitude::C6uA => 0b10,
            LeadOffCurrentMagnitude::C22uA => 0b11,
            LeadOffCurrentMagnitude::Unknown => 0b111,
        }
    }
}

/// Every variant is the one that its own code stands for.
pub proof fn lemma_lead_off_current_magnitude_code_round_trip(value: LeadOffCurrentMagnitude)
    ensures
        LeadOffCurrentMagnitude::from_code(value.code() as int) == value,
{
}

impl From<u8> for LeadOffCurrentMagnitude {
    fn from(x: u8) -> (r: Self) {
        match x {
            0b00 => LeadOffCurrentMagnitude::C6nA,
            0b01 => LeadOffCurrentMagnitude::C22nA,
            0b10 => LeadOffCurrentMagnitude::C6uA,
            0b11 => LeadOffCurrentMagnitude::C22uA,
            _ => LeadOffCurrentMagnitude::Unknown,
        }
    }
}

impl FromSpecImpl<u8> for LeadOffCurrentMagnitude {
    open spec fn obeys_from_spec() -> bool {
        true
    }

    open spec fn from_spec(x: u8) -> Self {
        Self::from_code(x as int)
    }
}

impl From<LeadOffCurrentMagnitude> for u8 {
    fn from(x: LeadOffCurrentMagnitude) -> (r: u8) {
        match x {
            LeadOffCurrentMagnitude::C6nA => 0b00,
            LeadOffCurrentMagnitude::C22nA => 0b01,
            LeadOffCurrentMagnitude::C6uA => 0b10,
            LeadOffCurrentMagnitude::C22uA => 0b11,
            LeadOffCurrentMagnitude::Unknown => 0b111,
        }
    }
}

impl FromSpecImpl<LeadOffCurrentMagnitude> for u8 {
    open spec fn obeys_from_spec() -> bool {
        true
    }

    open spec fn from_spec(x: LeadOffCurrentMagnitude) -> u8 {
        x.code()
    }
}

/// Lead-off control register.
#[derive(Debug, Clone, Copy, PartialEq, Eq, Structural)]
pub struct Loff(pub u8);

impl Loff {
    /// Threshold of the lead-off comparators. Held in bits 7 to 5.
    pub fn comp_th(&self) -> (r: u8)
        ensures
            r == bits(self.0, 7, 5),
    {
        get_bits(self.0, 7, 5)
    }

    /// Sets bits 7 to 5 to the low bits of `value` and leaves the other bits
    /// as they are.
    pub fn set_comp_th(&mut self, value: u8)
        ensures
            final(self).0 == with_bits(old(self).0, 7, 5, value),
    {
        self.0 = set_bits(self.0, 7, 5, value);
    }

    /// Magnitude of the lead-off current. Held in bits 3 to 2.
    pub fn ilead_off(&self) -> (r: LeadOffCurrentMagnitude)
        ensures
            r == LeadOffCurrentMagnitude::from_code(bits(self.0, 3, 2)),
    {
        LeadOffCurrentMagnitude::from(get_bits(self.0, 3, 2))
    }

    /// Sets bits 3 to 2 to the code of `value`, cut to the width of the field,
    /// and leaves the other bits as they are.
    pub fn set_ilead_off(&mut self, value: LeadOffCurrentMagnitude)
        ensures
            final(self).0 == with_bits(old(self).0, 3, 2, value.code()),
    {
        self.0 = set_bits(self.0, 3, 2, u8::from(value));
    }

    /// Lead-off detection works with an alternating current; a direct current otherwise.
    /// Held in bit 0.
    pub fn flead_off(&self) -> (r: bool)
        ensures
            r == bit(self.0, 0),
    {
        get_bit(self.0, 0)
    }

    /// Sets bit 0 and leaves the other bits as they are.
    pub fn set_flead_off(&mut self, value: bool)
        ensures
            final(self).0 == with_bit(old(self).0, 0, value),
    {
        self.0 = set_bit(self.0, 0, value);
    }
}

/// Lead-off sense selection: which inputs take part in lead-off detection.
#[derive(Debug, Clone, Copy, PartialEq, Eq, Structural)]
pub struct LoffSense(pub u8);

impl LoffSense {
    /// Direction of the lead-off current of channel 2 is reversed. Held in bit 5.
    pub fn flip2(&self) -> (r: bool)
        ensures
            r == bit(self.0, 5),
    {
        get_bit(self.0, 5)
    }

    /// Sets bit 5 and leaves the other bits as they are.
    pub fn set_flip2(&mut self, value: bool)
        ensures
            final(self).0 == with_bit(old(self).0, 5, value),
    {
        self.0 = set_bit(self.0, 5, value);
    }

    /// Direction of the lead-off current of channel 1 is reversed. Held in bit 4.
    pub fn flip1(&self) -> (r: bool)
        ensures
            r == bit(self.0, 4),
    {
        get_bit(self.0, 4)
    }

    /// Sets bit 4 and leaves the other bits as they are.
    pub fn set_flip1(&mut self, value: bool)
        ensures
            final(self).0 == with_bit(old(self).0, 4, value),
    {
        self.0 = set_bit(self.0, 4, value);
    }

    /// Lead-off detection on the negative input of channel 2. Held in bit 3.
    pub fn loff2n(&self) -> (r: bool)
        ensures
            r == bit(self.0, 3),
    {
        get_bit(self.0, 3)
    }

    /// Sets bit 3 and leaves the other bits as they are.
    pub fn set_loff2n(&mut self, value: bool)
        ensures
            final(self).0 == with_bit(old(self).0, 3, value),
    {
        self.0 = set_bit(self.0, 3, value);
    }

    /// Lead-off detection on the positive input of channel 2. Held in bit 2.
    pub fn loff2p(&self) -> (r: bool)
        ensures
            r == bit(self.0, 2),
    {
        get_bit(self.0, 2)
    }

    /// Sets bit 2 and leaves the other bits as they are.
    pub fn set_loff2p(&mut self, value: bool)
        ensures
            final(self).0 == with_bit(old(self).0, 2, value),
    {
        self.0 = set_bit(self.0, 2, value);
    }

    /// Lead-off detection on the negative input of channel 1. Held in bit 1.
    pub fn loff1n(&self) -> (r: bool)
        ensures
            r == bit(self.0, 1),
    {
        get_bit(self.0, 1)
    }

    /// Sets bit 1 and leaves the other bits as they are.
    pub fn set_loff1n(&mut self, value: bool)
        ensures
            final(self).0 == with_bit(old(self).0, 1, value),
    {
        self.0 = set_bit(self.0, 1, value);
    }

    /// Lead-off detection on the positive input of channel 1. Held in bit 0.
    pub fn loff1p(&self) -> (r: bool)
        ensures
            r == bit(self.0, 0),
    {
        get_bit(self.0, 0)
    }

    /// Sets bit 0 and leaves the other bits as they are.
    pub fn set_loff1p(&mut self, value: bool)
        ensures
            final(self).0 == with_bit(old(self).0, 0, value),
    {
        self.0 = set_bit(self.0, 0, value);
    }
}

/// Gain of a channel's programmable amplifier.
#[derive(Debug, Clone, Copy, PartialEq, Eq, Structural)]
pub enum GainSetting {
    /// Gain 6.
    G6,
    /// Gain 1.
    G1,
    /// Gain 2.
    G2,
    /// Gain 3.
    G3,
    /// Gain 4.
    G4,
    /// Gain 8.
    G8,
    /// Gain 12.
    G12,
    /// Any other field value.
    Unknown,
}

impl GainSetting {
    /// The variant that a field value stands for. A value that names no setting
    /// is `Unknown`; none is an error.
    pub open spec fn from_code(code: int) -> Self {
        if code == 0b000 {
            GainSetting::G6
        } else if code == 0b001 {
            GainSetting::G1
        } else if code == 0b010 {
            GainSetting::G2
        } else if code == 0b011 {
            GainSetting::G3
        } else if code == 0b100 {
            GainSetting::G4
        } else if code == 0b101 {
            GainSetting::G8
        } else if code == 0b110 {
            GainSetting::G12
        } else {
            GainSetting::Unknown
        }
    }

    /// The field value that stands for this variant.
    pub open spec fn code(self) -> u8 {
        match self {
            GainSetting::G6 => 0b000,
            GainSetting::G1 => 0b001,
            GainSetting::G2 => 0b010,
            GainSetting::G3 => 0b011,
            GainSetting::G4 => 0b100,
            GainSetting::G8 => 0b101,
            GainSetting::G12 => 0b110,
            GainSetting::Unknown => 0b111,
        }
    }
}

/// Every variant is the one that its own code stands for.
pub proof fn lemma_gain_setting_code_round_trip(value: GainSetting)
    ensures
        GainSetting::from_code(value.code() as int) == value,
{
}

impl From<u8> for GainSetting {
    fn from(x: u8) -> (r: Self) {
        match x {
            0b000 => GainSetting::G6,
            0b001 => GainSetting::G1,
            0b010 => GainSetting::G2,
            0b011 => GainSetting::G3,
            0b100 => GainSetting::G4,
            0b101 => GainSetting::G8,
            0b110 => GainSetting::G12,
            _ => GainSetting::Unknown,
        }
    }
}

impl FromSpecImpl<u8> for GainSetting {
    open spec fn obeys_from_spec() -> bool {
        true
    }

    open spec fn from_spec(x: u8) -> Self {
        Self::from_code(x as int)
    }
}

impl From<GainSetting> for u8 {
    fn from(x: GainSetting) -> (r: u8) {
        match x {
            GainSetting::G6 => 0b000,
            GainSetting::G1 => 0b001,
            GainSetting::G2 => 0b010,
            GainSetting::G3 => 0b011,
            GainSetting::G4 => 0b100,
            GainSetting::G8 => 0b101,
            GainSetting::G12 => 0b110,
            GainSetting::Unknown => 0b111,
        }
    }
}

impl FromSpecImpl<GainSetting> for u8 {
    open spec fn obeys_from_spec() -> bool {
        true
    }

    open spec fn from_spec(x: GainSetting) -> u8 {
        x.code()
    }
}

/// What a channel's input multiplexer is connected to.
#[derive(Debug, Clone, Copy, PartialEq, Eq, Structural)]
pub enum InputSelection {
    /// The electrode inputs.
    NormalElectrodeInput,
    /// Inputs shorted, for offset measurements.
    InputShorted,
    /// Right-leg-drive measurement.
    RldMeasure,
    /// Half the supply, for supply measurement.
    MVDD,
    /// The temperature sensor.
    TemperatureSensor,
    /// The test signal.
    TestSignal,
    /// Positive input connected to the right-leg-drive input.
    RldDrp,
    /// Negative input connected to the right-leg-drive input.
    RldDrm,
    /// Both inputs connected to the right-leg-drive input.
    RldDrpm,
    /// The third input pair routed to the channel.
    Channel3,
    /// Any other field value.
    Unknown,
}

impl InputSelection {
    /// The variant that a field value stands for. A value that names no setting
    /// is `Unknown`; none is an error.
    pub open spec fn from_code(code: int) -> Self {
        if code == 0b0000 {
            InputSelection::NormalElectrodeInput
        } else if code == 0b0001 {
            InputSelection::InputShorted
        } else if code == 0b0010 {
            InputSelection::RldMeasure
        } else if code == 0b0011 {
            InputSelection::MVDD
        } else if code == 0b0100 {
            InputSelection::TemperatureSensor
        } else if code == 0b0101 {
            InputSelection::TestSignal
        } else if code == 0b0110 {
            InputSelection::RldDrp
        } else if code == 0b0111 {
            InputSelection::RldDrm
        } else if code == 0b1000 {
            InputSelection::RldDrpm
        } else if code == 0b1001 {
            InputSelection::Channel3
        } else {
            InputSelection::Unknown
        }
    }

    /// The field value that stands for this variant.
    pub open spec fn code(self) -> u8 {
        match self {
            InputSelection::NormalElectrodeInput => 0b0000,
            InputSelection::InputShorted => 0b0001,
            InputSelection::RldMeasure => 0b0010,
            InputSelection::MVDD => 0b0011,
            InputSelection::TemperatureSensor => 0b0100,
            InputSelection::TestSignal => 0b0101,
            InputSelection::RldDrp => 0b0110,
            InputSelection::RldDrm => 0b0111,
            InputSelection::RldDrpm => 0b1000,
            InputSelection::Channel3 => 0b1001,
            InputSelection::Unknown => 0b1111,
        }
    }
}

/// Every variant is the one that its own code stands for.
pub proof fn lemma_input_selection_code_round_trip(value: InputSelection)
    ensures
        InputSelection::from_code(value.code() as int) == value,
{
}

impl From<u8> for InputSelection {
    fn from(x: u8) -> (r: Self) {
        match x {
            0b0000 => InputSelection::NormalElectrodeInput,
            0b0001 => InputSelection::InputShorted,
            0b0010 => InputSelection::RldMeasure,
            0b0011 => InputSelection::MVDD,
            0b0100 => InputSelection::TemperatureSensor,
            0b0101 => InputSelection::TestSignal,
            0b0110 => InputSelection::RldDrp,
            0b0111 => InputSelection::RldDrm,
            0b1000 => InputSelection::RldDrpm,
            0b1001 => InputSelection::Channel3,
            _ => InputSelection::Unknown,
        }
    }
}

impl FromSpecImpl<u8> for InputSelection {
    open spec fn obeys_from_spec() -> bool {
        true
    }

    open spec fn from_spec(x: u8) -> Self {
        Self::from_code(x as int)
    }
}

impl From<InputSelection> for u8 {
    fn from(x: InputSelection) -> (r: u8) {
        match x {
            InputSelection::NormalElectrodeInput => 0b0000,
            InputSelection::InputShorted => 0b0001,
            InputSelection::RldMeasure => 0b0010,
            InputSelection::MVDD => 0b0011,
            InputSelection::TemperatureSensor => 0b0100,
            InputSelection::TestSignal => 0b0101,
            InputSelection::RldDrp => 0b0110,
            InputSelection::RldDrm => 0b0111,
            InputSelection::RldDrpm => 0b1000,
            InputSelection::Channel3 => 0b1001,
            InputSelection::Unknown => 0b1111,
        }
    }
}

impl FromSpecImpl<InputSelection> for u8 {
    open spec fn obeys_from_spec() -> bool {
        true
    }

    open spec fn from_spec(x: InputSelection) -> u8 {
        x.code()
    }
}

/// Settings of one channel: power, gain and input selection.
#[derive(Debug, Clone, Copy, PartialEq, Eq, Structural)]
pub struct ChannelSettings(pub u8);

impl ChannelSettings {
    /// The channel is powered down. Held in bit 7.
    pub fn pd(&self) -> (r: bool)
        ensures
            r == bit(self.0, 7),
    {
        get_bit(self.0, 7)
    }

    /// Sets bit 7 and leaves the other bits as they are.
    pub fn set_pd(&mut self, value: bool)
        ensures
            final(self).0 == with_bit(old(self).0, 7, value),
    {
        self.0 = set_bit(self.0, 7, value);
    }

    /// Gain of the channel's amplifier. Held in bits 6 to 4.
    pub fn gain(&self) -> (r: GainSetting)
        ensures
            r == GainSetting::from_code(bits(self.0, 6, 4)),
    {
        GainSetting::from(get_bits(self.0, 6, 4))
    }

    /// Sets bits 6 to 4 to the code of `value`, cut to the width of the field,
    /// and leaves the other bits as they are.
    pub fn set_gain(&mut self, value: GainSetting)
        ensures
            final(self).0 == with_bits(old(self).0, 6, 4, value.code()),
    {
        self.0 = set_bits(self.0, 6, 4, u8::from(value));
    }

    /// Input selection of the channel. Held in bits 3 to 0.
    pub fn mux(&self) -> (r: InputSelection)
        ensures
            r == InputSelection::from_code(bits(self.0, 3, 0)),
    {
        InputSelection::from(get_bits(self.0, 3, 0))
    }

    /// Sets bits 3 to 0 to the code of `value`, cut to the width of the field,
    /// and leaves the other bits as they are.
    pub fn set_mux(&mut self, value: InputSelection)
        ensures
            final(self).0 == with_bits(old(self).0, 3, 0, value.code()),
    {
        self.0 = set_bits(self.0, 3, 0, u8::from(value));
    }
}

/// Chop frequency of the programmable amplifiers.
#[derive(Debug, Clone, Copy, PartialEq, Eq, Structural)]
pub enum ChopFrequency {
    /// Modulator frequency divided by 16.
    FmodDiv16,
    /// Modulator frequency divided by 2.
    FmodDiv2,
    /// Modulator frequency divided by 4.
    FmodDiv4,
    /// Any other field value.
    Unknown,
}

impl ChopFrequency {
    /// The variant that a field value stands for. A value that names no setting
    /// is `Unknown`; none is an error.
    pub open spec fn from_code(code: int) -> Self {
        if code == 0b00 {
            ChopFrequency::FmodDiv16
        } else if code == 0b10 {
            ChopFrequency::FmodDiv2
        } else if code == 0b11 {
            ChopFrequency::FmodDiv4
        } else {
            ChopFrequency::Unknown
        }
    }

    /// The field value that stands for this variant.
    pub open spec fn code(self) -> u8 {
        match self {
            ChopFrequency::FmodDiv16 => 0b00,
            ChopFrequency::FmodDiv2 => 0b10,
            ChopFrequency::FmodDiv4 => 0b11,
            ChopFrequency::Unknown => 0b01,
        }
    }
}

/// Every variant is the one that its own code stands for.
pub proof fn lemma_chop_frequency_code_round_trip(value: ChopFrequency)
    ensures
        ChopFrequency::from_code(value.code() as int) == value,
{
}

impl From<u8> for ChopFrequency {
    fn from(x: u8) -> (r: Self) {
        match x {
            0b00 => ChopFrequency::FmodDiv16,
            0b10 => ChopFrequency::FmodDiv2,
            0b11 => ChopFrequency::FmodDiv4,
            _ => ChopFrequency::Unknown,
        }
    }
}

impl FromSpecImpl<u8> for ChopFrequency {
    open spec fn obeys_from_spec() -> bool {
        true
    }

    open spec fn from_spec(x: u8) -> Self {
        Self::from_code(x as int)
    }
}

impl From<ChopFrequency> for u8 {
    fn from(x: ChopFrequency) -> (r: u8) {
        match x {
            ChopFrequency::FmodDiv16 => 0b00,
            ChopFrequency::FmodDiv2 => 0b10,
            ChopFrequency::FmodDiv4 => 0b11,
            ChopFrequency::Unknown => 0b01,
        }
    }
}

impl FromSpecImpl<ChopFrequency> for u8 {
    open spec fn obeys_from_spec() -> bool {
        true
    }

    open spec fn from_spec(x: ChopFrequency) -> u8 {
        x.code()
    }
}

/// Right-leg-drive sense selection: which inputs feed the right-leg drive.
#[derive(Debug, Clone, Copy, PartialEq, Eq, Structural)]
pub struct RLDSenseSelection(pub u8);

impl RLDSenseSelection {
    /// Chop frequency of the amplifiers. Held in bits 7 to 6.
    pub fn chop(&self) -> (r: ChopFrequency)
        ensures
            r == ChopFrequency::from_code(bits(self.0, 7, 6)),
    {
        ChopFrequency::from(get_bits(self.0, 7, 6))
    }

    /// Sets bits 7 to 6 to the code of `value`, cut to the width of the field,
    /// and leaves the other bits as they are.
    pub fn set_chop(&mut self, value: ChopFrequency)
        ensures
            final(self).0 == with_bits(old(self).0, 7, 6, value.code()),
    {
        self.0 = set_bits(self.0, 7, 6, u8::from(value));
    }

    /// The right-leg-drive buffer is powered. Held in bit 5.
    pub fn pdb_rld(&self) -> (r: bool)
        ensures
            r == bit(self.0, 5),
    {
        get_bit(self.0, 5)
    }

    /// Sets bit 5 and leaves the other bits as they are.
    pub fn set_pbd_rld(&mut self, value: bool)
        ensures
            final(self).0 == with_bit(old(self).0, 5, value),
    {
        self.0 = set_bit(self.0, 5, value);
    }

    /// Lead-off sensing on the right-leg drive is on. Held in bit 4.
    pub fn rld_loff_sense(&self) -> (r: bool)
        ensures
            r == bit(self.0, 4),
    {
        get_bit(self.0, 4)
    }

    /// Sets bit 4 and leaves the other bits as they are.
    pub fn set_rld_loff_sense(&mut self, value: bool)
        ensures
            final(self).0 == with_bit(old(self).0, 4, value),
    {
        self.0 = set_bit(self.0, 4, value);
    }

    /// Negative input of channel 2 feeds the right-leg drive. Held in bit 3.
    pub fn rld2n(&self) -> (r: bool)
        ensures
            r == bit(self.0, 3),
    {
        get_bit(self.0, 3)
    }

    /// Sets bit 3 and leaves the other bits as they are.
    pub fn set_rld2n(&mut self, value: bool)
        ensures
            final(self).0 == with_bit(old(self).0, 3, value),
    {
        self.0 = set_bit(self.0, 3, value);
    }

    /// Positive input of channel 2 feeds the right-leg drive. Held in bit 2.
    pub fn rld2p(&self) -> (r: bool)
        ensures
            r == bit(self.0, 2),
    {
        get_bit(self.0, 2)
    }

    /// Sets bit 2 and leaves the other bits as they are.
    pub fn set_rld2p(&mut self, value: bool)
        ensures
            final(self).0 == with_bit(old(self).0, 2, value),
    {
        self.0 = set_bit(self.0, 2, value);
    }

    /// Negative input of channel 1 feeds the right-leg drive. Held in bit 1.
    pub fn rld1n(&self) -> (r: bool)
        ensures
            r == bit(self.0, 1),
    {
        get_bit(self.0, 1)
    }

    /// Sets bit 1 and leaves the other bits as they are.
    pub fn set_rld1n(&mut self, value: bool)
        ensures
            final(self).0 == with_bit(old(self).0, 1, value),
    {
        self.0 = set_bit(self.0, 1, value);
    }

    /// Positive input of channel 1 feeds the right-leg drive. Held in bit 0.
    pub fn rld1p(&self) -> (r: bool)
        ensures
            r == bit(self.0, 0),
    {
        get_bit(self.0, 0)
    }

    /// Sets bit 0 and leaves the other bits as they are.
    pub fn set_rld1p(&mut self, value: bool)
        ensures
            final(self).0 == with_bit(old(self).0, 0, value),
    {
        self.0 = set_bit(self.0, 0, value);
    }
}

/// Respiration control register 2: calibration and right-leg-drive reference.
#[derive(Debug, Clone, Copy, PartialEq, Eq, Structural)]
pub struct RespConf2(pub u8);

impl RespConf2 {
    /// Offset calibration is on. Held in bit 7.
    pub fn calib_on(&self) -> (r: bool)
        ensures
            r == bit(self.0, 7),
    {
        get_bit(self.0, 7)
    }

    /// Sets bit 7 and leaves the other bits as they are.
    pub fn set_calib_on(&mut self, value: bool)
        ensures
            final(self).0 == with_bit(old(self).0, 7, value),
    {
        self.0 = set_bit(self.0, 7, value);
    }

    /// Respiration control runs at 64 kHz; on devices without a respiration channel this
    /// bit must be written as set. Held in bit 2.
    pub fn resp_freq_64khz(&self) -> (r: bool)
        ensures
            r == bit(self.0, 2),
    {
        get_bit(self.0, 2)
    }

    /// Sets bit 2 and leaves the other bits as they are.
    pub fn set_resp_freq_64khz(&mut self, value: bool)
        ensures
            final(self).0 == with_bit(old(self).0, 2, value),
    {
        self.0 = set_bit(self.0, 2, value);
    }

    /// The right-leg-drive reference is made inside the device; fed from outside
    /// otherwise. Held in bit 1.
    pub fn rldref_int(&self) -> (r: bool)
        ensures
            r == bit(self.0, 1),
    {
        get_bit(self.0, 1)
    }

    /// Sets bit 1 and leaves the other bits as they are.
    pub fn set_rldref_int(&mut self, value: bool)
        ensures
            final(self).0 == with_bit(old(self).0, 1, value),
    {
        self.0 = set_bit(self.0, 1, value);
    }
}

} // verus!
