use ads129xx::{
    read_request, write_request, ChannelSettings, ChopFrequency, Command, Conf1, Conf2, GainSetting, InputSelection,
    LeadOffCurrentMagnitude, Loff, LoffSense, RLDSenseSelection, Register, RespConf2, SampleRate,
};

#[test]
fn command_opcodes() {
    assert_eq!(Command::WAKEUP.word(), 0x02);
    assert_eq!(Command::STANDBY.word(), 0x04);
    assert_eq!(Command::RESET.word(), 0x06);
    assert_eq!(Command::START.word(), 0x08);
    assert_eq!(Command::STOP.word(), 0x0A);
    assert_eq!(Command::OFFSETCAL.word(), 0x1A);
    assert_eq!(Command::RDATAC.word(), 0x10);
    assert_eq!(Command::SDATAC.word(), 0x11);
    assert_eq!(Command::RDATA.word(), 0x12);
    assert_eq!(Command::RREG.word(), 0x20);
    assert_eq!(Command::WREG.word(), 0x40);
}

#[test]
fn register_addresses() {
    let all = [
        Register::ID,
        Register::CONFIG1,
        Register::CONFIG2,
        Register::LOFF,
        Register::CH1SET,
        Register::CH2SET,
        Register::RLD_SENS,
        Register::LOFF_SENS,
        Register::LOFF_STAT,
        Register::RESP1,
        Register::RESP2,
        Register::GPIO,
    ];
    for (i, reg) in all.iter().enumerate() {
        assert_eq!(reg.addr() as usize, i);
    }
}

#[test]
fn a_written_field_reads_back_and_leaves_the_rest() {
    for byte in 0..=255u8 {
        for code in 0..8u8 {
            let gain = GainSetting::from(code);
            let before = ChannelSettings(byte);
            let mut chan = ChannelSettings(byte);
            chan.set_gain(gain);
            assert_eq!(chan.gain(), gain);
            assert_eq!(chan.pd(), before.pd());
            assert_eq!(chan.mux(), before.mux());
            assert_eq!(chan.0, (byte & 0b1000_1111) | (code << 4));
        }
        for code in 0..16u8 {
            let mux = InputSelection::from(code);
            let before = ChannelSettings(byte);
            let mut chan = ChannelSettings(byte);
            chan.set_mux(mux);
            assert_eq!(chan.mux(), InputSelection::from(u8::from(mux)));
            assert_eq!(chan.pd(), before.pd());
            assert_eq!(chan.gain(), before.gain());
            assert_eq!(chan.0, (byte & 0b1111_0000) | u8::from(mux));
        }
        for threshold in 0..=255u8 {
            let before = Loff(byte);
            let mut loff = Loff(byte);
            loff.set_comp_th(threshold);
            assert_eq!(loff.comp_th(), threshold & 0b111);
            assert_eq!(loff.ilead_off(), before.ilead_off());
            assert_eq!(loff.flead_off(), before.flead_off());
            assert_eq!(loff.0, (byte & 0b0001_1111) | ((threshold & 0b111) << 5));
        }
    }
}

#[test]
fn a_written_bit_reads_back_and_leaves_the_rest() {
    for byte in 0..=255u8 {
        for value in [false, true] {
            let mut conf = Conf2(byte);
            conf.set_vref_4v(value);
            assert_eq!(conf.vref_4v(), value);
            assert_eq!(conf.0 & !(1 << 4), byte & !(1 << 4));
            let mut conf = Conf1(byte);
            conf.set_single_shot(value);
            assert_eq!(conf.single_shot(), value);
            assert_eq!(conf.0 & 0x7F, byte & 0x7F);
            let mut sense = LoffSense(byte);
            sense.set_loff1p(value);
            assert_eq!(sense.loff1p(), value);
            assert_eq!(sense.0 & 0xFE, byte & 0xFE);
        }
    }
}

#[test]
fn register_requests_join_opcode_and_address() {
    assert_eq!(read_request(Register::ID), [0x20, 0, 0, 0]);
    assert_eq!(read_request(Register::CONFIG1), [0x21, 0, 0, 0]);
    assert_eq!(read_request(Register::LOFF_STAT), [0x28, 0, 0, 0]);
    assert_eq!(read_request(Register::GPIO), [0x2B, 0, 0, 0]);
    assert_eq!(write_request(Register::ID, 0xFF), [0x40, 0, 0xFF]);
    assert_eq!(write_request(Register::CH2SET, 0x81), [0x45, 0, 0x81]);
    assert_eq!(write_request(Register::RESP2, 0x03), [0x4A, 0, 0x03]);
    assert_eq!(write_request(Register::GPIO, 0x00), [0x4B, 0, 0x00]);
}

#[test]
fn sample_rate_codes() {
    assert_eq!(SampleRate::from(0b000), SampleRate::Sps125);
    assert_eq!(SampleRate::from(0b001), SampleRate::Sps250);
    assert_eq!(SampleRate::from(0b010), SampleRate::Sps500);
    assert_eq!(SampleRate::from(0b011), SampleRate::KSps1);
    assert_eq!(SampleRate::from(0b100), SampleRate::KSps2);
    assert_eq!(SampleRate::from(0b101), SampleRate::KSps4);
    assert_eq!(SampleRate::from(0b110), SampleRate::KSps8);
    assert_eq!(SampleRate::from(0b111), SampleRate::Unknown);
    assert_eq!(SampleRate::from(200), SampleRate::Unknown);
    assert_eq!(u8::from(SampleRate::KSps4), 0b101);
    assert_eq!(u8::from(SampleRate::Unknown), 0b111);
}

#[test]
fn lead_off_current_codes() {
    assert_eq!(LeadOffCurrentMagnitude::from(0b00), LeadOffCurrentMagnitude::C6nA);
    assert_eq!(LeadOffCurrentMagnitude::from(0b01), LeadOffCurrentMagnitude::C22nA);
    assert_eq!(LeadOffCurrentMagnitude::from(0b10), LeadOffCurrentMagnitude::C6uA);
    assert_eq!(LeadOffCurrentMagnitude::from(0b11), LeadOffCurrentMagnitude::C22uA);
    assert_eq!(LeadOffCurrentMagnitude::from(0b100), LeadOffCurrentMagnitude::Unknown);
    assert_eq!(u8::from(LeadOffCurrentMagnitude::C6uA), 0b10);
    assert_eq!(u8::from(LeadOffCurrentMagnitude::Unknown), 0b111);
}

#[test]
fn gain_codes() {
    assert_eq!(GainSetting::from(0b000), GainSetting::G6);
    assert_eq!(GainSetting::from(0b001), GainSetting::G1);
    assert_eq!(GainSetting::from(0b010), GainSetting::G2);
    assert_eq!(GainSetting::from(0b011), GainSetting::G3);
    assert_eq!(GainSetting::from(0b100), GainSetting::G4);
    assert_eq!(GainSetting::from(0b101), GainSetting::G8);
    assert_eq!(GainSetting::from(0b110), GainSetting::G12);
    assert_eq!(GainSetting::from(0b111), GainSetting::Unknown);
    assert_eq!(u8::from(GainSetting::G12), 0b110);
    assert_eq!(u8::from(GainSetting::Unknown), 0b111);
}

#[test]
fn input_selection_codes() {
    assert_eq!(InputSelection::from(0b0000), InputSelection::NormalElectrodeInput);
    assert_eq!(InputSelection::from(0b0001), InputSelection::InputShorted);
    assert_eq!(InputSelection::from(0b0010), InputSelection::RldMeasure);
    assert_eq!(InputSelection::from(0b0011), InputSelection::MVDD);
    assert_eq!(InputSelection::from(0b0100), InputSelection::TemperatureSensor);
    assert_eq!(InputSelection::from(0b0101), InputSelection::TestSignal);
    assert_eq!(InputSelection::from(0b0110), InputSelection::RldDrp);
    assert_eq!(InputSelection::from(0b0111), InputSelection::RldDrm);
    assert_eq!(InputSelection::from(0b1000), InputSelection::RldDrpm);
    assert_eq!(InputSelection::from(0b1001), InputSelection::Channel3);
    for code in 0b1010..=0b1111u8 {
        assert_eq!(InputSelection::from(code), InputSelection::Unknown);
    }
    assert_eq!(u8::from(InputSelection::Channel3), 0b1001);
    assert_eq!(u8::from(InputSelection::Unknown), 0b1111);
}

#[test]
fn chop_frequency_codes() {
    assert_eq!(ChopFrequency::from(0b00), ChopFrequency::FmodDiv16);
    assert_eq!(ChopFrequency::from(0b10), ChopFrequency::FmodDiv2);
    assert_eq!(ChopFrequency::from(0b11), ChopFrequency::FmodDiv4);
    assert_eq!(ChopFrequency::from(0b01), ChopFrequency::Unknown);
    assert_eq!(ChopFrequency::from(0b100), ChopFrequency::Unknown);
    assert_eq!(u8::from(ChopFrequency::FmodDiv2), 0b10);
    assert_eq!(u8::from(ChopFrequency::Unknown), 0b01);
}

#[test]
fn every_variant_is_the_one_its_code_stands_for() {
    for code in 0..=255u8 {
        let rate = SampleRate::from(code);
        assert_eq!(SampleRate::from(u8::from(rate)), rate);
        let current = LeadOffCurrentMagnitude::from(code);
        assert_eq!(LeadOffCurrentMagnitude::from(u8::from(current)), current);
        let gain = GainSetting::from(code);
        assert_eq!(GainSetting::from(u8::from(gain)), gain);
        let input = InputSelection::from(code);
        assert_eq!(InputSelection::from(u8::from(input)), input);
        let chop = ChopFrequency::from(code);
        assert_eq!(ChopFrequency::from(u8::from(chop)), chop);
    }
}

#[test]
fn conf1_fields() {
    let conf = Conf1(0b1000_0011);
    assert!(conf.single_shot());
    assert_eq!(conf.oversampling(), SampleRate::KSps1);
    let mut conf = Conf1(0);
    conf.set_single_shot(true);
    assert_eq!(conf.0, 0b1000_0000);
    conf.set_oversampling(SampleRate::KSps8);
    assert_eq!(conf.0, 0b1000_0110);
    conf.set_single_shot(false);
    assert_eq!(conf.0, 0b0000_0110);
    conf.set_oversampling(SampleRate::Sps250);
    assert_eq!(conf.0, 0b0000_0001);
    assert_eq!(conf.oversampling(), SampleRate::Sps250);
}

#[test]
fn conf2_fields() {
    let conf = Conf2(0b0101_0010);
    assert!(conf.pdb_loff_comp());
    assert!(!conf.pdb_refbuf());
    assert!(conf.vref_4v());
    assert!(!conf.clk_en());
    assert!(conf.int_test());
    assert!(!conf.test_freq());
    let mut conf = Conf2(0);
    conf.set_pdb_loff_comp(true);
    assert_eq!(conf.0, 1 << 6);
    conf.set_pdb_refbuf(true);
    assert_eq!(conf.0, (1 << 6) | (1 << 5));
    conf.set_vref_4v(true);
    conf.set_clk_en(true);
    conf.set_int_test(true);
    conf.set_test_freq(true);
    assert_eq!(conf.0, 0b0111_1011);
    conf.set_pdb_loff_comp(false);
    conf.set_test_freq(false);
    assert_eq!(conf.0, 0b0011_1010);
}

#[test]
fn loff_fields() {
    let loff = Loff(0b1010_1001);
    assert_eq!(loff.comp_th(), 0b101);
    assert_eq!(loff.ilead_off(), LeadOffCurrentMagnitude::C6uA);
    assert!(loff.flead_off());
    let mut loff = Loff(0);
    loff.set_comp_th(0b110);
    assert_eq!(loff.0, 0b1100_0000);
    loff.set_comp_th(0b1111_1011);
    assert_eq!(loff.0, 0b0110_0000);
    loff.set_ilead_off(LeadOffCurrentMagnitude::C22nA);
    assert_eq!(loff.0, 0b0110_0100);
    loff.set_flead_off(true);
    assert_eq!(loff.0, 0b0110_0101);
}

#[test]
fn a_code_wider_than_its_field_is_cut_to_the_field() {
    let mut loff = Loff(0);
    loff.set_ilead_off(LeadOffCurrentMagnitude::Unknown);
    assert_eq!(loff.0, 0b0000_1100);
    assert_eq!(loff.ilead_off(), LeadOffCurrentMagnitude::C22uA);
}

#[test]
fn loff_sense_fields() {
    let sense = LoffSense(0b0010_1010);
    assert!(sense.flip2());
    assert!(!sense.flip1());
    assert!(sense.loff2n());
    assert!(!sense.loff2p());
    assert!(sense.loff1n());
    assert!(!sense.loff1p());
    let mut sense = LoffSense(0);
    sense.set_flip1(true);
    sense.set_loff2p(true);
    sense.set_loff1p(true);
    assert_eq!(sense.0, 0b0001_0101);
    sense.set_flip2(true);
    sense.set_loff2n(true);
    sense.set_loff1n(true);
    assert_eq!(sense.0, 0b0011_1111);
    sense.set_flip1(false);
    assert_eq!(sense.0, 0b0010_1111);
}

#[test]
fn channel_settings_fields() {
    let chan = ChannelSettings(0b1101_0100);
    assert!(chan.pd());
    assert_eq!(chan.gain(), GainSetting::G8);
    assert_eq!(chan.mux(), InputSelection::TemperatureSensor);
    let mut chan = ChannelSettings(0);
    chan.set_gain(GainSetting::G12);
    assert_eq!(chan.0, 0b0110_0000);
    chan.set_mux(InputSelection::Channel3);
    assert_eq!(chan.0, 0b0110_1001);
    chan.set_pd(true);
    assert_eq!(chan.0, 0b1110_1001);
    chan.set_mux(InputSelection::Unknown);
    assert_eq!(chan.0, 0b1110_1111);
    assert_eq!(chan.mux(), InputSelection::Unknown);
}

#[test]
fn rld_sense_fields() {
    let rld = RLDSenseSelection(0b1010_0101);
    assert_eq!(rld.chop(), ChopFrequency::FmodDiv2);
    assert!(rld.pdb_rld());
    assert!(!rld.rld_loff_sense());
    assert!(!rld.rld2n());
    assert!(rld.rld2p());
    assert!(!rld.rld1n());
    assert!(rld.rld1p());
    let mut rld = RLDSenseSelection(0);
    rld.set_chop(ChopFrequency::FmodDiv4);
    assert_eq!(rld.0, 0b1100_0000);
    rld.set_pbd_rld(true);
    rld.set_rld_loff_sense(true);
    assert_eq!(rld.0, 0b1111_0000);
    rld.set_rld2n(true);
    rld.set_rld2p(true);
    rld.set_rld1n(true);
    rld.set_rld1p(true);
    assert_eq!(rld.0, 0xFF);
    rld.set_chop(ChopFrequency::FmodDiv16);
    assert_eq!(rld.0, 0b0011_1111);
}

#[test]
fn resp_conf2_fields() {
    let resp = RespConf2(0b1000_0110);
    assert!(resp.calib_on());
    assert!(resp.resp_freq_64khz());
    assert!(resp.rldref_int());
    let mut resp = RespConf2(0);
    resp.set_resp_freq_64khz(true);
    assert_eq!(resp.0, 0b0000_0100);
    resp.set_rldref_int(true);
    assert_eq!(resp.0, 0b0000_0110);
    resp.set_calib_on(true);
    assert_eq!(resp.0, 0b1000_0110);
    resp.set_rldref_int(false);
    assert_eq!(resp.0, 0b1000_0100);
}
