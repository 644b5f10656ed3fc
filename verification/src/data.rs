//! Status bytes and channel samples as they come out of a sample frame.

use crate::bits::{bit, bits, get_bit, get_bits};
use vstd::prelude::*;
use vstd::std_specs::convert::FromSpecImpl;

verus! {

/// Division that rounds toward zero, as the machine divides signed integers.
pub open spec fn truncating_div(a: int, b: int) -> int
    recommends
        b > 0,
{
    if a >= 0 {
        a / b
    } else {
        -((-a) / b)
    }
}

/// The lead-off status of one sample frame.
#[derive(Copy, Clone, Debug, PartialEq, Eq, Structural)]
pub struct LeadOffStatus {
    /// The status bits: the electrode flags in bits 4 to 0, the clock divider in bit 6.
    pub status: u8,
}

impl LeadOffStatus {
    /// Clock divider selection, 0 or 1. Held in bit 6.
    pub fn clk_div(&self) -> (r: u8)
        ensures
            r == bits(self.status, 6, 6),
    {
        get_bits(self.status, 6, 6)
    }

    /// The right-leg-drive electrode is off. Held in bit 4.
    pub fn rld_stat(&self) -> (r: bool)
        ensures
            r == bit(self.status, 4),
    {
        get_bit(self.status, 4)
    }

    /// The negative electrode of channel 2 is off. Held in bit 3.
    pub fn in2n_off(&self) -> (r: bool)
        ensures
            r == bit(self.status, 3),
    {
        get_bit(self.status, 3)
    }

    /// The positive electrode of channel 2 is off. Held in bit 2.
    pub fn in2p_off(&self) -> (r: bool)
        ensures
            r == bit(self.status, 2),
    {
        get_bit(self.status, 2)
    }

    /// The negative electrode of channel 1 is off. Held in bit 1.
    pub fn in1n_off(&self) -> (r: bool)
        ensures
            r == bit(self.status, 1),
    {
        get_bit(self.status, 1)
    }

    /// The positive electrode of channel 1 is off. Held in bit 0.
    pub fn in1p_off(&self) -> (r: bool)
        ensures
            r == bit(self.status, 0),
    {
        get_bit(self.status, 0)
    }
}

impl Default for LeadOffStatus {
    fn default() -> (r: LeadOffStatus)
        ensures
            r.status == 0,
    {
        LeadOffStatus { status: 0 }
    }
}

/// The state of the general-purpose pins in one sample frame.
#[derive(Copy, Clone, Debug, PartialEq, Eq, Structural)]
pub struct GpioStatus {
    /// The status bits: the data bits in bits 1 and 0, the control bits in bits 3 and 2.
    pub status: u8,
}

impl GpioStatus {
    /// Control bit of pin 2. Held in bit 3.
    pub fn gpio_c_2(&self) -> (r: bool)
        ensures
            r == bit(self.status, 3),
    {
        get_bit(self.status, 3)
    }

    /// Control bit of pin 1. Held in bit 2.
    pub fn gpio_c_1(&self) -> (r: bool)
        ensures
            r == bit(self.status, 2),
    {
        get_bit(self.status, 2)
    }

    /// Data bit of pin 2. Held in bit 1.
    pub fn gpio_d_2(&self) -> (r: bool)
        ensures
            r == bit(self.status, 1),
    {
        get_bit(self.status, 1)
    }

    /// Data bit of pin 1. Held in bit 0.
    pub fn gpio_d_1(&self) -> (r: bool)
        ensures
            r == bit(self.status, 0),
    {
        get_bit(self.status, 0)
    }
}

impl Default for GpioStatus {
    fn default() -> (r: GpioStatus)
        ensures
            r.status == 0,
    {
        GpioStatus { status: 0 }
    }
}

/// One 24-bit two's-complement sample: three bytes, most significant first, the sign in
/// the top bit of the first.
#[derive(Copy, Clone, PartialEq, Eq, Debug, Structural)]
pub struct ChannelData(pub u8, pub u8, pub u8);

impl ChannelData {
    /// The three bytes read as one unsigned 24-bit number.
    pub open spec fn raw(self) -> int {
        self.0 as int * 0x1_0000 + self.1 as int * 0x100 + self.2 as int
    }

    /// The sample as a signed number, between -2^23 and 2^23 - 1.
    pub open spec fn signed(self) -> int {
        if self.raw() >= 0x80_0000 {
            self.raw() - 0x100_0000
        } else {
            self.raw()
        }
    }

    /// The sample whose bytes are the low 24 bits of `value` in two's complement.
    pub open spec fn from_signed(value: int) -> ChannelData {
        let low: int = value % 0x100_0000;
        ChannelData((low / 0x1_0000) as u8, (low / 0x100 % 0x100) as u8, (low % 0x100) as u8)
    }

    /// The temperature in degrees Celsius that a sample of the temperature sensor stands
    /// for.
    pub open spec fn spec_temp(self) -> int {
        truncating_div(self.signed() - 145_300, 490) + 25
    }

    /// Converts a sample of the temperature sensor into degrees Celsius: the reading less
    /// 145300, divided by 490 toward zero, plus 25.
    pub fn temp(self) -> (t: i32)
        ensures
            t == self.spec_temp(),
    {
        let units: i32 = i32::from(self);
        (units - 145_300) / 490 + 25
    }
}

impl From<ChannelData> for i32 {
    fn from(channel_data: ChannelData) -> (r: i32) {
        let b0: u8 = channel_data.0;
        let b1: u8 = channel_data.1;
        let b2: u8 = channel_data.2;
        let word: u32 = ((b0 as u32) << 24) | ((b1 as u32) << 16) | ((b2 as u32) << 8);
        assert(((word as i32) >> 8) == (if b0 as int * 0x1_0000 + b1 as int * 0x100 + b2 as int
            >= 0x80_0000 {
            b0 as int * 0x1_0000 + b1 as int * 0x100 + b2 as int - 0x100_0000
        } else {
            b0 as int * 0x1_0000 + b1 as int * 0x100 + b2 as int
        })) by (bit_vector)
            requires
                word == ((b0 as u32) << 24) | ((b1 as u32) << 16) | ((b2 as u32) << 8),
        ;
        (#[verifier::truncate] (word as i32)) >> 8
    }
}

impl FromSpecImpl<ChannelData> for i32 {
    open spec fn obeys_from_spec() -> bool {
        true
    }

    open spec fn from_spec(channel_data: ChannelData) -> i32 {
        channel_data.signed() as i32
    }
}

impl From<i32> for ChannelData {
    fn from(repr: i32) -> (r: ChannelData) {
        let word: u32 = (#[verifier::truncate] (repr as u32)) << 8;
        let b0: u8 = #[verifier::truncate] ((word >> 24) as u8);
        let b1: u8 = #[verifier::truncate] ((word >> 16) as u8);
        let b2: u8 = #[verifier::truncate] ((word >> 8) as u8);
        assert(b0 == (repr as int % 0x100_0000) / 0x1_0000 && b1 == (repr as int % 0x100_0000)
            / 0x100 % 0x100 && b2 == (repr as int % 0x100_0000) % 0x100) by (bit_vector)
            requires
                word == (repr as u32) << 8,
                b0 == (word >> 24) as u8,
                b1 == (word >> 16) as u8,
                b2 == (word >> 8) as u8,
        ;
        ChannelData(b0, b1, b2)
    }
}

impl FromSpecImpl<i32> for ChannelData {
    open spec fn obeys_from_spec() -> bool {
        true
    }

    open spec fn from_spec(repr: i32) -> ChannelData {
        ChannelData::from_signed(repr as int)
    }
}

impl Default for ChannelData {
    fn default() -> (r: ChannelData)
        ensures
            r == ChannelData(0, 0, 0),
    {
        ChannelData(0, 0, 0)
    }
}

/// Every number that fits 24 bits in two's complement comes back unchanged from the
/// sample made of it.
pub proof fn lemma_signed_round_trip(value: int)
    requires
        -0x80_0000 <= value <= 0x7F_FFFF,
    ensures
        ChannelData::from_signed(value).signed() == value,
{
}

/// Every sample is the one made of its own signed value, and that value fits 24 bits in
/// two's complement: samples and such numbers correspond one to one.
pub proof fn lemma_sample_round_trip(sample: ChannelData)
    ensures
        -0x80_0000 <= sample.signed() <= 0x7F_FFFF,
        ChannelData::from_signed(sample.signed()) == sample,
{
}

} // verus!
