//! The nine-byte sample frame of the two-channel device.

use crate::bits::bit;
use crate::data::{ChannelData, GpioStatus, LeadOffStatus};
use vstd::prelude::*;
use vstd::std_specs::convert::FromSpecImpl;

verus! {

/// One sample frame: nine bytes as they came off the bus. Bytes 0 and 1 carry the status
/// bits, byte 2 carries nothing, bytes 3 to 5 are channel 1 and bytes 6 to 8 channel 2.
#[derive(Copy, Clone, PartialEq, Debug)]
pub struct Ads1292Data {
    /// The frame's bytes.
    pub data: [u8; 9],
}

impl Ads1292Data {
    /// The lead-off status bits of a frame: the low seven bits of byte 0 above the top bit
    /// of byte 1.
    pub open spec fn spec_lead_off_status(self) -> int {
        (self.data[0] as int % 0x80) * 2 + self.data[1] as int / 0x80
    }

    /// The general-purpose pin bits of a frame: the top three bits of byte 1.
    pub open spec fn spec_gpio_status(self) -> int {
        self.data[1] as int / 0x20
    }

    /// The lead-off status carried by this frame.
    pub fn lead_off_status(&self) -> (r: LeadOffStatus)
        ensures
            r.status == self.spec_lead_off_status(),
    {
        let b0: u8 = self.data[0];
        let b1: u8 = self.data[1];
        assert(((b0 << 1) | (b1 >> 7)) == (b0 as int % 0x80) * 2 + b1 as int / 0x80)
            by (bit_vector);
        let status: u8 = (b0 << 1) | (b1 >> 7);
        LeadOffStatus { status }
    }

    /// The state of the general-purpose pins carried by this frame.
    pub fn gpio_status(&self) -> (r: GpioStatus)
        ensures
            r.status == self.spec_gpio_status(),
    {
        let b1: u8 = self.data[1];
        assert((b1 >> 5) == b1 as int / 0x20) by (bit_vector);
        let status: u8 = b1 >> 5;
        GpioStatus { status }
    }

    /// The sample of channel 1: bytes 3 to 5.
    pub fn channel_1(&self) -> (r: ChannelData)
        ensures
            r == ChannelData(self.data[3], self.data[4], self.data[5]),
    {
        ChannelData(self.data[3], self.data[4], self.data[5])
    }

    /// The sample of channel 2: bytes 6 to 8.
    pub fn channel_2(&self) -> (r: ChannelData)
        ensures
            r == ChannelData(self.data[6], self.data[7], self.data[8]),
    {
        ChannelData(self.data[6], self.data[7], self.data[8])
    }
}

/// Decoding the lead-off status moves bits and changes none: bit 0 of the status is the
/// top bit of byte 1, and every higher bit of the status is the bit of byte 0 one place
/// below it.
pub proof fn lemma_lead_off_status_bits(frame: Ads1292Data, i: u8)
    requires
        i < 8,
    ensures
        0 <= frame.spec_lead_off_status() <= 255,
        bit(frame.spec_lead_off_status() as u8, i as int) == (if i == 0 {
            bit(frame.data[1], 7)
        } else {
            bit(frame.data[0], i - 1)
        }),
{
    let b0: u8 = frame.data[0];
    let b1: u8 = frame.data[1];
    let status: u8 = ((b0 as int % 0x80) * 2 + b1 as int / 0x80) as u8;
    assert(status == (b0 as int % 0x80) * 2 + b1 as int / 0x80 && bit(status, i as int) == (if i
        == 0 {
        bit(b1, 7)
    } else {
        bit(b0, i - 1)
    })) by (bit_vector)
        requires
            i < 8,
            status == ((b0 as int % 0x80) * 2 + b1 as int / 0x80) as u8,
    ;
}

/// Decoding the pin status moves bits and changes none: bits 0 to 2 of the status are
/// bits 5 to 7 of byte 1, and the status has no higher bit.
pub proof fn lemma_gpio_status_bits(frame: Ads1292Data, i: u8)
    requires
        i < 8,
    ensures
        0 <= frame.spec_gpio_status() <= 7,
        bit(frame.spec_gpio_status() as u8, i as int) == (i < 3 && bit(frame.data[1], i + 5)),
{
    let b1: u8 = frame.data[1];
    let status: u8 = (b1 as int / 0x20) as u8;
    assert(status == b1 as int / 0x20 && status <= 7 && bit(status, i as int) == (i < 3 && bit(
        b1,
        i + 5,
    ))) by (bit_vector)
        requires
            i < 8,
            status == (b1 as int / 0x20) as u8,
    ;
}

impl From<[u8; 9]> for Ads1292Data {
    fn from(data: [u8; 9]) -> (r: Ads1292Data) {
        Ads1292Data { data }
    }
}

impl FromSpecImpl<[u8; 9]> for Ads1292Data {
    open spec fn obeys_from_spec() -> bool {
        true
    }

    open spec fn from_spec(data: [u8; 9]) -> Ads1292Data {
        Ads1292Data { data }
    }
}

impl Default for Ads1292Data {
    fn default() -> (r: Ads1292Data)
        ensures
            r.data@ == seq![0u8, 0u8, 0u8, 0u8, 0u8, 0u8, 0u8, 0u8, 0u8],
    {
        Ads1292Data { data: [0, 0, 0, 0, 0, 0, 0, 0, 0] }
    }
}

} // verus!
