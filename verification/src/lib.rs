//! Driver core for a two-channel, 24-bit analog front end that is reached over a serial
//! bus with a chip-select line of its own.
//!
//! [`spi`] holds the transport and its timed transactions, this module the commands and
//! the register protocol built on them, [`ads1292`] the device itself and its sample
//! frames, and [`data`] the values that a frame carries.

use crate::spi::{
    added, extends, first_fault, is_transfer_run, is_wait_run, is_write_run,
    lemma_framed_complete, BusEvent, CountDown, OutputPin, SerialBus, SpiDevice, SpiError,
};
use vstd::prelude::*;
use vstd::std_specs::convert::FromSpecImpl;

pub mod ads1292;
pub mod bits;
pub mod data;
mod register;
pub mod spi;

pub use register::{
    lemma_chop_frequency_code_round_trip, lemma_gain_setting_code_round_trip,
    lemma_input_selection_code_round_trip, lemma_lead_off_current_magnitude_code_round_trip,
    lemma_sample_rate_code_round_trip, ChannelSettings, ChopFrequency, Conf1, Conf2, GainSetting,
    InputSelection, LeadOffCurrentMagnitude, Loff, LoffSense, RLDSenseSelection, Register,
    RespConf2, SampleRate,
};

verus! {

/// One-byte opcodes understood by the analog front end.
#[allow(non_camel_case_types)]
#[derive(Clone, Copy, Debug, PartialEq, Eq, Structural)]
pub enum Command {
    /// Leave standby mode.
    WAKEUP,
    /// Enter standby mode.
    STANDBY,
    /// Reset the device.
    RESET,
    /// Start or restart conversions.
    START,
    /// Stop conversions.
    STOP,
    /// Calibrate the channel offset.
    OFFSETCAL,
    /// Enter continuous read mode, the mode the device powers up in.
    RDATAC,
    /// Leave continuous read mode.
    SDATAC,
    /// Read one sample frame on demand.
    RDATA,
    /// Read registers, starting at the address or-ed into the opcode.
    RREG,
    /// Write registers, starting at the address or-ed into the opcode.
    WREG,
}

impl Command {
    /// The opcode byte as a specification value.
    pub open spec fn spec_word(self) -> u8 {
        match self {
            Command::WAKEUP => 0x02,
            Command::STANDBY => 0x04,
            Command::RESET => 0x06,
            Command::START => 0x08,
            Command::STOP => 0x0A,
            Command::OFFSETCAL => 0x1A,
            Command::RDATAC => 0x10,
            Command::SDATAC => 0x11,
            Command::RDATA => 0x12,
            Command::RREG => 0x20,
            Command::WREG => 0x40,
        }
    }

    /// The opcode byte that is put on the bus for this command.
    #[verifier::when_used_as_spec(spec_word)]
    pub fn word(self) -> (w: u8)
        ensures
            w == self.spec_word(),
    {
        match self {
            Command::WAKEUP => 0x02,
            Command::STANDBY => 0x04,
            Command::RESET => 0x06,
            Command::START => 0x08,
            Command::STOP => 0x0A,
            Command::OFFSETCAL => 0x1A,
            Command::RDATAC => 0x10,
            Command::SDATAC => 0x11,
            Command::RDATA => 0x12,
            Command::RREG => 0x20,
            Command::WREG => 0x40,
        }
    }
}

/// Why an operation on the device failed.
#[derive(Debug, PartialEq, Eq)]
pub enum Ads129xxError<E, EO> {
    /// The device did not identify itself when it was initialized.
    BootFailure,
    /// The transport failed.
    SpiError(SpiError<E, EO>),
}

impl<E: Clone, EO: Clone> Clone for Ads129xxError<E, EO> {
    fn clone(&self) -> (r: Self) {
        match self {
            Ads129xxError::BootFailure => Ads129xxError::BootFailure,
            Ads129xxError::SpiError(e) => Ads129xxError::SpiError(e.clone()),
        }
    }
}

impl<E: Copy, EO: Copy> Copy for Ads129xxError<E, EO> {

}

impl<E, EO> From<SpiError<E, EO>> for Ads129xxError<E, EO> {
    fn from(error: SpiError<E, EO>) -> (r: Ads129xxError<E, EO>) {
        Ads129xxError::SpiError(error)
    }
}

impl<E, EO> FromSpecImpl<SpiError<E, EO>> for Ads129xxError<E, EO> {
    open spec fn obeys_from_spec() -> bool {
        true
    }

    open spec fn from_spec(error: SpiError<E, EO>) -> Ads129xxError<E, EO> {
        Ads129xxError::SpiError(error)
    }
}

/// The bytes that ask for the content of one register: the read opcode joined with the
/// address, a count of one register less one, and two bytes of clock for the answer.
pub open spec fn read_frame(reg: Register) -> Seq<u8> {
    seq![(Command::RREG.spec_word() + reg.spec_addr()) as u8, 0u8, 0u8, 0u8]
}

/// The bytes that set the content of one register: the write opcode joined with the
/// address, a count of one register less one, and the content.
pub open spec fn write_frame(reg: Register, data: u8) -> Seq<u8> {
    seq![(Command::WREG.spec_word() + reg.spec_addr()) as u8, 0u8, data]
}

/// Builds the bytes that ask for the content of one register.
pub fn read_request(reg: Register) -> (frame: [u8; 4])
    ensures
        frame@ == read_frame(reg),
{
    let nreg: u8 = 0x00;
    let opcode: u8 = Command::RREG.word();
    let addr: u8 = reg.addr();
    assert(opcode | addr == opcode + addr) by (bit_vector)
        requires
            opcode == 0x20,
            addr <= 0x0B,
    ;
    let frame: [u8; 4] = [opcode | addr, nreg, 0x00, 0x00];
    assert(frame@ =~= read_frame(reg));
    frame
}

/// Builds the bytes that set the content of one register.
pub fn write_request(reg: Register, data: u8) -> (frame: [u8; 3])
    ensures
        frame@ == write_frame(reg, data),
{
    let nreg: u8 = 0x00;
    let opcode: u8 = Command::WREG.word();
    let addr: u8 = reg.addr();
    assert(opcode | addr == opcode + addr) by (bit_vector)
        requires
            opcode == 0x40,
            addr <= 0x0B,
    ;
    let frame: [u8; 3] = [opcode | addr, nreg, data];
    assert(frame@ =~= write_frame(reg, data));
    frame
}

/// What an operation reports that caused the events of `run` and would give `value`: the
/// earliest failure of the transport, or `value` where nothing failed.
pub open spec fn reported<T, E, EO>(run: Seq<BusEvent<E, EO>>, value: T) -> Result<
    T,
    Ads129xxError<E, EO>,
> {
    match first_fault(run) {
        Some(fault) => Err(Ads129xxError::SpiError(fault)),
        None => Ok(value),
    }
}

/// The byte with which the device answered the read of a register that is `run`.
pub open spec fn register_byte<E, EO>(run: Seq<BusEvent<E, EO>>) -> u8 {
    run[2]->received[2]
}

/// Any device of the family: what can be done with one over its transport.
///
/// No operation is tried again: a failure of the transport is reported as it came.
pub trait Ads129xx<SPI: SerialBus, NCS: OutputPin, TIM: CountDown>: Sized {
    /// The transport that this device is reached over.
    spec fn transport(&self) -> SpiDevice<SPI, NCS, TIM>;

    /// The transport of this device.
    fn spi_device(&mut self) -> (device: &mut SpiDevice<SPI, NCS, TIM>)
        ensures
            *device == old(self).transport(),
            final(self).transport() == *final(device),
    ;

    /// Gives the device up for its transport.
    fn into_spi_device(self) -> (device: SpiDevice<SPI, NCS, TIM>)
        ensures
            device == self.transport(),
    ;

    /// Sends a command: its opcode, written in one timed transaction.
    fn cmd(&mut self, cmd: Command) -> (r: Result<(), Ads129xxError<SPI::Error, NCS::Error>>)
        ensures
            extends(old(self).transport().trace(), final(self).transport().trace()),
            is_write_run(
                added(old(self).transport().trace(), final(self).transport().trace()),
                seq![cmd.spec_word()],
            ),
            r == reported(
                added(old(self).transport().trace(), final(self).transport().trace()),
                (),
            ),
    {
        let buf: [u8; 1] = [cmd.word()];
        assert(buf@ =~= seq![cmd.spec_word()]);
        match self.spi_device().write(&buf) {
            Ok(()) => Ok(()),
            Err(e) => Err(Ads129xxError::SpiError(e)),
        }
    }

    /// Blocks until the transport's timer has expired `i` times.
    fn wait(&mut self, i: u16) -> (r: Result<(), Ads129xxError<SPI::Error, NCS::Error>>)
        ensures
            extends(old(self).transport().trace(), final(self).transport().trace()),
            is_wait_run(
                added(old(self).transport().trace(), final(self).transport().trace()),
                i as nat,
            ),
            r == reported(
                added(old(self).transport().trace(), final(self).transport().trace()),
                (),
            ),
    {
        match self.spi_device().wait(i) {
            Ok(()) => Ok(()),
            Err(e) => Err(Ads129xxError::SpiError(e)),
        }
    }

    /// Reads a register: the read frame is exchanged in one timed transaction, and the
    /// third byte of the response is the register's content.
    fn read_register(&mut self, reg: Register) -> (r: Result<
        u8,
        Ads129xxError<SPI::Error, NCS::Error>,
    >)
        ensures
            extends(old(self).transport().trace(), final(self).transport().trace()),
            is_transfer_run(
                added(old(self).transport().trace(), final(self).transport().trace()),
                read_frame(reg),
            ),
            r == reported(
                added(old(self).transport().trace(), final(self).transport().trace()),
                register_byte(
                    added(old(self).transport().trace(), final(self).transport().trace()),
                ),
            ),
    {
        let mut buf: [u8; 4] = read_request(reg);
        let ghost before = self.transport().trace();
        let exchanged = self.spi_device().transfer(&mut buf);
        proof {
            let run = added(before, self.transport().trace());
            if first_fault(run) is None {
                lemma_framed_complete(run);
            }
        }
        match exchanged {
            Ok(()) => Ok(buf[2]),
            Err(e) => Err(Ads129xxError::SpiError(e)),
        }
    }

    /// Writes a register: the write frame is written in one timed transaction.
    fn write_register(&mut self, reg: Register, data: u8) -> (r: Result<
        (),
        Ads129xxError<SPI::Error, NCS::Error>,
    >)
        ensures
            extends(old(self).transport().trace(), final(self).transport().trace()),
            is_write_run(
                added(old(self).transport().trace(), final(self).transport().trace()),
                write_frame(reg, data),
            ),
            r == reported(
                added(old(self).transport().trace(), final(self).transport().trace()),
                (),
            ),
    {
        let buf: [u8; 3] = write_request(reg, data);
        match self.spi_device().write(&buf) {
            Ok(()) => Ok(()),
            Err(e) => Err(Ads129xxError::SpiError(e)),
        }
    }

    /// Reads configuration register 1.
    fn read_conf1(&mut self) -> (r: Result<Conf1, Ads129xxError<SPI::Error, NCS::Error>>)
        ensures
            extends(old(self).transport().trace(), final(self).transport().trace()),
            is_transfer_run(
                added(old(self).transport().trace(), final(self).transport().trace()),
                read_frame(Register::CONFIG1),
            ),
            r == reported(
                added(old(self).transport().trace(), final(self).transport().trace()),
                Conf1(
                    register_byte(
                        added(old(self).transport().trace(), final(self).transport().trace()),
                    ),
                ),
            ),
    {
        match self.read_register(Register::CONFIG1) {
            Ok(byte) => Ok(Conf1(byte)),
            Err(e) => Err(e),
        }
    }

    /// Writes configuration register 1.
    fn write_conf1(&mut self, value: &Conf1) -> (r: Result<
        (),
        Ads129xxError<SPI::Error, NCS::Error>,
    >)
        ensures
            extends(old(self).transport().trace(), final(self).transport().trace()),
            is_write_run(
                added(old(self).transport().trace(), final(self).transport().trace()),
                write_frame(Register::CONFIG1, value.0),
            ),
            r == reported(
                added(old(self).transport().trace(), final(self).transport().trace()),
                (),
            ),
    {
        self.write_register(Register::CONFIG1, value.0)
    }

    /// Reads configuration register 2.
    fn read_conf2(&mut self) -> (r: Result<Conf2, Ads129xxError<SPI::Error, NCS::Error>>)
        ensures
            extends(old(self).transport().trace(), final(self).transport().trace()),
            is_transfer_run(
                added(old(self).transport().trace(), final(self).transport().trace()),
                read_frame(Register::CONFIG2),
            ),
            r == reported(
                added(old(self).transport().trace(), final(self).transport().trace()),
                Conf2(
                    register_byte(
                        added(old(self).transport().trace(), final(self).transport().trace()),
                    ),
                ),
            ),
    {
        match self.read_register(Register::CONFIG2) {
            Ok(byte) => Ok(Conf2(byte)),
            Err(e) => Err(e),
        }
    }

    /// Writes configuration register 2.
    fn write_conf2(&mut self, value: &Conf2) -> (r: Result<
        (),
        Ads129xxError<SPI::Error, NCS::Error>,
    >)
        ensures
            extends(old(self).transport().trace(), final(self).transport().trace()),
            is_write_run(
                added(old(self).transport().trace(), final(self).transport().trace()),
                write_frame(Register::CONFIG2, value.0),
            ),
            r == reported(
                added(old(self).transport().trace(), final(self).transport().trace()),
                (),
            ),
    {
        self.write_register(Register::CONFIG2, value.0)
    }

    /// Reads the lead-off control register.
    fn read_loff(&mut self) -> (r: Result<Loff, Ads129xxError<SPI::Error, NCS::Error>>)
        ensures
            extends(old(self).transport().trace(), final(self).transport().trace()),
            is_transfer_run(
                added(old(self).transport().trace(), final(self).transport().trace()),
                read_frame(Register::LOFF),
            ),
            r == reported(
                added(old(self).transport().trace(), final(self).transport().trace()),
                Loff(
                    register_byte(
                        added(old(self).transport().trace(), final(self).transport().trace()),
                    ),
                ),
            ),
    {
        match self.read_register(Register::LOFF) {
            Ok(byte) => Ok(Loff(byte)),
            Err(e) => Err(e),
        }
    }

    /// Writes the lead-off control register.
    fn write_loff(&mut self, value: &Loff) -> (r: Result<
        (),
        Ads129xxError<SPI::Error, NCS::Error>,
    >)
        ensures
            extends(old(self).transport().trace(), final(self).transport().trace()),
            is_write_run(
                added(old(self).transport().trace(), final(self).transport().trace()),
                write_frame(Register::LOFF, value.0),
            ),
            r == reported(
                added(old(self).transport().trace(), final(self).transport().trace()),
                (),
            ),
    {
        self.write_register(Register::LOFF, value.0)
    }

    /// Reads the lead-off sense selection.
    fn read_loff_sens(&mut self) -> (r: Result<LoffSense, Ads129xxError<SPI::Error, NCS::Error>>)
        ensures
            extends(old(self).transport().trace(), final(self).transport().trace()),
            is_transfer_run(
                added(old(self).transport().trace(), final(self).transport().trace()),
                read_frame(Register::LOFF_SENS),
            ),
            r == reported(
                added(old(self).transport().trace(), final(self).transport().trace()),
                LoffSense(
                    register_byte(
                        added(old(self).transport().trace(), final(self).transport().trace()),
                    ),
                ),
            ),
    {
        match self.read_register(Register::LOFF_SENS) {
            Ok(byte) => Ok(LoffSense(byte)),
            Err(e) => Err(e),
        }
    }

    /// Writes the lead-off sense selection.
    fn write_loff_sens(&mut self, value: &LoffSense) -> (r: Result<
        (),
        Ads129xxError<SPI::Error, NCS::Error>,
    >)
        ensures
            extends(old(self).transport().trace(), final(self).transport().trace()),
            is_write_run(
                added(old(self).transport().trace(), final(self).transport().trace()),
                write_frame(Register::LOFF_SENS, value.0),
            ),
            r == reported(
                added(old(self).transport().trace(), final(self).transport().trace()),
                (),
            ),
    {
        self.write_register(Register::LOFF_SENS, value.0)
    }

    /// Reads the settings of channel 1.
    fn read_chan1(&mut self) -> (r: Result<ChannelSettings, Ads129xxError<SPI::Error, NCS::Error>>)
        ensures
            extends(old(self).transport().trace(), final(self).transport().trace()),
            is_transfer_run(
                added(old(self).transport().trace(), final(self).transport().trace()),
                read_frame(Register::CH1SET),
            ),
            r == reported(
                added(old(self).transport().trace(), final(self).transport().trace()),
                ChannelSettings(
                    register_byte(
                        added(old(self).transport().trace(), final(self).transport().trace()),
                    ),
                ),
            ),
    {
        match self.read_register(Register::CH1SET) {
            Ok(byte) => Ok(ChannelSettings(byte)),
            Err(e) => Err(e),
        }
    }

    /// Writes the settings of channel 1.
    fn write_chan1(&mut self, value: &ChannelSettings) -> (r: Result<
        (),
        Ads129xxError<SPI::Error, NCS::Error>,
    >)
        ensures
            extends(old(self).transport().trace(), final(self).transport().trace()),
            is_write_run(
                added(old(self).transport().trace(), final(self).transport().trace()),
                write_frame(Register::CH1SET, value.0),
            ),
            r == reported(
                added(old(self).transport().trace(), final(self).transport().trace()),
                (),
            ),
    {
        self.write_register(Register::CH1SET, value.0)
    }

    /// Reads the settings of channel 2.
    fn read_chan2(&mut self) -> (r: Result<ChannelSettings, Ads129xxError<SPI::Error, NCS::Error>>)
        ensures
            extends(old(self).transport().trace(), final(self).transport().trace()),
            is_transfer_run(
                added(old(self).transport().trace(), final(self).transport().trace()),
                read_frame(Register::CH2SET),
            ),
            r == reported(
                added(old(self).transport().trace(), final(self).transport().trace()),
                ChannelSettings(
                    register_byte(
                        added(old(self).transport().trace(), final(self).transport().trace()),
                    ),
                ),
            ),
    {
        match self.read_register(Register::CH2SET) {
            Ok(byte) => Ok(ChannelSettings(byte)),
            Err(e) => Err(e),
        }
    }

    /// Writes the settings of channel 2.
    fn write_chan2(&mut self, value: &ChannelSettings) -> (r: Result<
        (),
        Ads129xxError<SPI::Error, NCS::Error>,
    >)
        ensures
            extends(old(self).transport().trace(), final(self).transport().trace()),
            is_write_run(
                added(old(self).transport().trace(), final(self).transport().trace()),
                write_frame(Register::CH2SET, value.0),
            ),
            r == reported(
                added(old(self).transport().trace(), final(self).transport().trace()),
                (),
            ),
    {
        self.write_register(Register::CH2SET, value.0)
    }

    /// Reads the right-leg-drive sense selection.
    fn read_rld_sens(&mut self) -> (r: Result<
        RLDSenseSelection,
        Ads129xxError<SPI::Error, NCS::Error>,
    >)
        ensures
            extends(old(self).transport().trace(), final(self).transport().trace()),
            is_transfer_run(
                added(old(self).transport().trace(), final(self).transport().trace()),
                read_frame(Register::RLD_SENS),
            ),
            r == reported(
                added(old(self).transport().trace(), final(self).transport().trace()),
                RLDSenseSelection(
                    register_byte(
                        added(old(self).transport().trace(), final(self).transport().trace()),
                    ),
                ),
            ),
    {
        match self.read_register(Register::RLD_SENS) {
            Ok(byte) => Ok(RLDSenseSelection(byte)),
            Err(e) => Err(e),
        }
    }

    /// Writes the right-leg-drive sense selection.
    fn write_rld_sens(&mut self, value: &RLDSenseSelection) -> (r: Result<
        (),
        Ads129xxError<SPI::Error, NCS::Error>,
    >)
        ensures
            extends(old(self).transport().trace(), final(self).transport().trace()),
            is_write_run(
                added(old(self).transport().trace(), final(self).transport().trace()),
                write_frame(Register::RLD_SENS, value.0),
            ),
            r == reported(
                added(old(self).transport().trace(), final(self).transport().trace()),
                (),
            ),
    {
        self.write_register(Register::RLD_SENS, value.0)
    }

    /// Reads respiration control register 2.
    fn read_resp_conf2(&mut self) -> (r: Result<RespConf2, Ads129xxError<SPI::Error, NCS::Error>>)
        ensures
            extends(old(self).transport().trace(), final(self).transport().trace()),
            is_transfer_run(
                added(old(self).transport().trace(), final(self).transport().trace()),
                read_frame(Register::RESP2),
            ),
            r == reported(
                added(old(self).transport().trace(), final(self).transport().trace()),
                RespConf2(
                    register_byte(
                        added(old(self).transport().trace(), final(self).transport().trace()),
                    ),
                ),
            ),
    {
        match self.read_register(Register::RESP2) {
            Ok(byte) => Ok(RespConf2(byte)),
            Err(e) => Err(e),
        }
    }

    /// Writes respiration control register 2.
    fn write_resp_conf2(&mut self, value: &RespConf2) -> (r: Result<
        (),
        Ads129xxError<SPI::Error, NCS::Error>,
    >)
        ensures
            extends(old(self).transport().trace(), final(self).transport().trace()),
            is_write_run(
                added(old(self).transport().trace(), final(self).transport().trace()),
                write_frame(Register::RESP2, value.0),
            ),
            r == reported(
                added(old(self).transport().trace(), final(self).transport().trace()),
                (),
            ),
    {
        self.write_register(Register::RESP2, value.0)
    }
}

} // verus!
