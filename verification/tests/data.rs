use ads129xx::ads1292::data::Ads1292Data;
use ads129xx::data::{ChannelData, GpioStatus, LeadOffStatus};

#[test]
fn bijective_i32() {
    const C1: i32 = 123;
    const C2: i32 = 3243;
    const C3: i32 = -3243;
    assert_eq!(C1, ChannelData::from(C1).into());
    assert_eq!(C2, ChannelData::from(C2).into());
    assert_eq!(C3, ChannelData::from(C3).into());
}

#[test]
fn signed_values_survive_the_round_trip_at_the_edges() {
    for v in [-8_388_608, -8_388_607, -65_537, -256, -1, 0, 1, 255, 256, 65_536, 8_388_607] {
        let back: i32 = ChannelData::from(v).into();
        assert_eq!(v, back);
    }
}

#[test]
fn samples_survive_the_round_trip() {
    for c in [
        ChannelData(0x00, 0x00, 0x00),
        ChannelData(0x7F, 0xFF, 0xFF),
        ChannelData(0x80, 0x00, 0x00),
        ChannelData(0xFF, 0xFF, 0xFF),
        ChannelData(0x12, 0x34, 0x56),
        ChannelData(0x9A, 0xBC, 0xDE),
    ] {
        let v: i32 = c.into();
        assert_eq!(c, ChannelData::from(v));
    }
}

#[test]
fn sample_bytes_are_big_endian_twos_complement() {
    assert_eq!(ChannelData::from(0x12_3456), ChannelData(0x12, 0x34, 0x56));
    assert_eq!(ChannelData::from(-1), ChannelData(0xFF, 0xFF, 0xFF));
    assert_eq!(ChannelData::from(-8_388_608), ChannelData(0x80, 0x00, 0x00));
    assert_eq!(ChannelData::from(8_388_607), ChannelData(0x7F, 0xFF, 0xFF));
    assert_eq!(i32::from(ChannelData(0x80, 0x00, 0x00)), -8_388_608);
    assert_eq!(i32::from(ChannelData(0xFF, 0xFF, 0xFE)), -2);
    assert_eq!(i32::from(ChannelData(0x00, 0x01, 0x00)), 256);
}

#[test]
fn numbers_beyond_24_bits_keep_their_low_bits() {
    assert_eq!(ChannelData::from(0x0100_0001), ChannelData(0x00, 0x00, 0x01));
    assert_eq!(ChannelData::from(i32::MIN), ChannelData(0x00, 0x00, 0x00));
    assert_eq!(ChannelData::from(i32::MAX), ChannelData(0xFF, 0xFF, 0xFF));
}

#[test]
fn temperature_follows_the_formula() {
    assert_eq!(ChannelData::from(145_300).temp(), 25);
    assert_eq!(ChannelData::from(343_562).temp(), 429);
    assert_eq!(ChannelData::from(145_300 + 490).temp(), 26);
    assert_eq!(ChannelData::from(145_300 + 489).temp(), 25);
}

#[test]
fn temperature_division_rounds_toward_zero() {
    assert_eq!(ChannelData::from(0).temp(), -271);
    assert_eq!(ChannelData::from(145_300 - 1).temp(), 25);
    assert_eq!(ChannelData::from(145_300 - 490).temp(), 24);
    assert_eq!(ChannelData::from(145_300 - 491).temp(), 24);
    assert_eq!(ChannelData::from(-8_388_608).temp(), -17_391);
    assert_eq!(ChannelData::from(8_388_607).temp(), 16_848);
}

#[test]
fn lead_off_status_is_bit_extraction() {
    let mut data = [0u8; 9];
    data[0] = 0b1011_0000;
    data[1] = 0b0110_0000;
    let frame = Ads1292Data::from(data);
    let status = frame.lead_off_status();
    assert_eq!(status.status, 0b0110_0000);
    assert!(!status.rld_stat());
    assert_eq!(status.clk_div(), 1);
    assert!(!status.in2n_off());
    assert!(!status.in2p_off());
    assert!(!status.in1n_off());
    assert!(!status.in1p_off());
}

#[test]
fn lead_off_status_takes_its_low_bit_from_the_second_byte() {
    let mut data = [0u8; 9];
    data[0] = 0b1100_1010;
    data[1] = 0b1010_0000;
    let frame = Ads1292Data::from(data);
    let status = frame.lead_off_status();
    assert_eq!(status.status, 0b1001_0101);
    assert!(status.rld_stat());
    assert_eq!(status.clk_div(), 0);
    assert!(!status.in2n_off());
    assert!(status.in2p_off());
    assert!(!status.in1n_off());
    assert!(status.in1p_off());
}

#[test]
fn lead_off_flags_read_their_own_bits() {
    assert!(LeadOffStatus { status: 1 << 4 }.rld_stat());
    assert!(LeadOffStatus { status: 1 << 3 }.in2n_off());
    assert!(LeadOffStatus { status: 1 << 2 }.in2p_off());
    assert!(LeadOffStatus { status: 1 << 1 }.in1n_off());
    assert!(LeadOffStatus { status: 1 }.in1p_off());
    assert_eq!(LeadOffStatus { status: 1 << 6 }.clk_div(), 1);
    let others = LeadOffStatus { status: 0b1010_0000 };
    assert!(!others.rld_stat());
    assert!(!others.in2n_off());
    assert!(!others.in2p_off());
    assert!(!others.in1n_off());
    assert!(!others.in1p_off());
    assert_eq!(others.clk_div(), 0);
}

#[test]
fn gpio_status_is_the_top_of_the_second_byte() {
    let mut data = [0u8; 9];
    data[1] = 0b0110_0000;
    assert_eq!(Ads1292Data::from(data).gpio_status().status, 0b011);
    data[1] = 0b1111_1111;
    assert_eq!(Ads1292Data::from(data).gpio_status().status, 0b111);
    data[1] = 0b0001_1111;
    assert_eq!(Ads1292Data::from(data).gpio_status().status, 0);
}

#[test]
fn gpio_flags_read_their_own_bits() {
    assert!(GpioStatus { status: 1 << 3 }.gpio_c_2());
    assert!(GpioStatus { status: 1 << 2 }.gpio_c_1());
    assert!(GpioStatus { status: 1 << 1 }.gpio_d_2());
    assert!(GpioStatus { status: 1 }.gpio_d_1());
    let others = GpioStatus { status: 0xF0 };
    assert!(!others.gpio_c_2());
    assert!(!others.gpio_c_1());
    assert!(!others.gpio_d_2());
    assert!(!others.gpio_d_1());
}

#[test]
fn frame_channels_are_bytes_three_to_eight() {
    let frame = Ads1292Data::from([0x00, 0x00, 0x00, 0x12, 0x34, 0x56, 0x78, 0x9A, 0xBC]);
    assert_eq!(frame.channel_1(), ChannelData(0x12, 0x34, 0x56));
    assert_eq!(frame.channel_2(), ChannelData(0x78, 0x9A, 0xBC));
    assert_eq!(i32::from(frame.channel_1()), 0x12_3456);
    assert_eq!(i32::from(frame.channel_2()), 0x78_9ABC);
}

#[test]
fn defaults_are_all_zero() {
    assert_eq!(ChannelData::default(), ChannelData(0, 0, 0));
    assert_eq!(LeadOffStatus::default().status, 0);
    assert_eq!(GpioStatus::default().status, 0);
    assert_eq!(Ads1292Data::default().data, [0u8; 9]);
}
