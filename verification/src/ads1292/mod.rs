//! The two-channel device: its start-up, single reads and the way into streaming.

pub mod data;
pub mod data_stream;

use crate::ads1292::data::Ads1292Data;
use crate::ads1292::data_stream::Ads1292DataStream;
use crate::bits::{bit, get_bit};
use crate::spi::{
    added, extends, first_fault, is_transfer_run, is_untimed_run, is_write_run,
    lemma_added_chain, lemma_first_fault_concat, lemma_first_fault_none,
    lemma_first_fault_single, lemma_framed_complete, BusEvent, CountDown, OutputPin, SerialBus,
    SpiDevice,
};
use crate::{read_frame, Ads129xx, Ads129xxError, Command, Register};
use vstd::prelude::*;

verus! {

/// Timer expiries awaited between stopping the stream and asking for the identity.
pub const BOOT_TICKS: u16 = 40;

/// The bytes clocked out to fetch one sample frame: nine zeros.
pub open spec fn blank_frame() -> Seq<u8> {
    Seq::new(9, |i: int| 0u8)
}

/// Whether the content of the identity register is that of a device of this family: bit 4
/// is set.
pub fn identity_is_valid(id: u8) -> (valid: bool)
    ensures
        valid == bit(id, 4),
{
    get_bit(id, 4)
}

/// `run` is a start-up: the stream is stopped with one command; where that went through
/// the settle time of the device is awaited; and where that passed the identity register
/// is read. Nothing follows the read, whatever it brought.
pub open spec fn is_boot_run<E, EO>(run: Seq<BusEvent<E, EO>>) -> bool {
    ||| is_write_run(run, seq![Command::SDATAC.spec_word()]) && first_fault(run) is Some
    ||| {
        &&& run.len() >= 7
        &&& is_write_run(run.take(6), seq![Command::SDATAC.spec_word()])
        &&& first_fault(run.take(6)) is None
        &&& run[6].is_wait_of(BOOT_TICKS as nat)
        &&& if run[6].fault() is Some {
            run.len() == 7
        } else {
            is_transfer_run(run.skip(7), read_frame(Register::ID))
        }
    }
}

/// What a start-up reports that caused the events of `run`: the earliest failure of the
/// transport; or else a boot failure where the identity that was read lacks bit 4; or
/// else success.
pub open spec fn boot_result<E, EO>(run: Seq<BusEvent<E, EO>>) -> Result<
    (),
    Ads129xxError<E, EO>,
> {
    match first_fault(run) {
        Some(fault) => Err(Ads129xxError::SpiError(fault)),
        None => if bit(run[9]->received[2], 4) {
            Ok(())
        } else {
            Err(Ads129xxError::BootFailure)
        },
    }
}

/// A start-up in which the transport does not fail is these thirteen events: the stop
/// command in its transaction, the settle wait, and the read of the identity register in
/// its transaction. Nothing moves on the bus after that read, and the start-up reports a
/// boot failure exactly when the identity that was read lacks bit 4.
pub proof fn lemma_boot_checks_identity<E, EO>(run: Seq<BusEvent<E, EO>>)
    requires
        is_boot_run(run),
        first_fault(run) is None,
    ensures
        run.len() == 13,
        run[2].is_write_of(seq![Command::SDATAC.spec_word()]),
        run[9].is_exchange_of(read_frame(Register::ID)),
        forall|i: int|
            0 <= i < run.len() && i != 2 && i != 9 ==> !(#[trigger] run[i]).moves_bytes(),
        boot_result(run) == if bit(run[9]->received[2], 4) {
            Ok::<(), Ads129xxError<E, EO>>(())
        } else {
            Err(Ads129xxError::BootFailure)
        },
{
    lemma_first_fault_none(run);
    let head = run.take(6);
    let tail = run.skip(7);
    assert(run.len() >= 7 && run[6].fault() is None);
    assert forall|i: int| 0 <= i < tail.len() implies (#[trigger] tail[i]).fault() is None by {
        assert(tail[i] == run[i + 7]);
    }
    lemma_first_fault_none(tail);
    lemma_framed_complete(tail);
    assert(run[2] == head[2]);
    assert(run[9] == tail[2]);
    assert forall|i: int| 0 <= i < run.len() && i != 2 && i != 9 implies !(#[trigger] run[
        i
    ]).moves_bytes() by {
        if i < 6 {
            assert(run[i] == head[i]);
        } else if i > 6 {
            assert(run[i] == tail[i - 7]);
        }
    }
}

/// `run` is a single read: the read command is sent, and where that went through nine
/// bytes are exchanged in a second timed transaction.
pub open spec fn is_single_read_run<E, EO>(run: Seq<BusEvent<E, EO>>) -> bool {
    ||| is_write_run(run, seq![Command::RDATA.spec_word()]) && first_fault(run) is Some
    ||| {
        &&& run.len() >= 6
        &&& is_write_run(run.take(6), seq![Command::RDATA.spec_word()])
        &&& first_fault(run.take(6)) is None
        &&& is_transfer_run(run.skip(6), blank_frame())
    }
}

/// The two-channel analog front end, reached over its transport.
pub struct Ads1292<SPI: SerialBus, NCS: OutputPin, TIM: CountDown> {
    spi: SpiDevice<SPI, NCS, TIM>,
}

impl<SPI: SerialBus, NCS: OutputPin, TIM: CountDown> Ads1292<SPI, NCS, TIM> {
    /// Makes a device of its transport. Nothing is sent.
    pub fn new(spi: SpiDevice<SPI, NCS, TIM>) -> (device: Ads1292<SPI, NCS, TIM>)
        ensures
            device.transport() == spi,
    {
        Ads1292 { spi }
    }

    /// Starts the device up. It powers up streaming, so the stream is stopped first,
    /// whatever state the device is in; the settle time is awaited; then the identity
    /// register is read, and bit 4 of it must be set.
    ///
    /// A failure of the transport ends the start-up where it occurs. An identity without
    /// bit 4 is a boot failure. Nothing is sent after the identity has been read.
    pub fn init(&mut self) -> (r: Result<(), Ads129xxError<SPI::Error, NCS::Error>>)
        ensures
            extends(old(self).transport().trace(), final(self).transport().trace()),
            is_boot_run(added(old(self).transport().trace(), final(self).transport().trace())),
            r == boot_result(
                added(old(self).transport().trace(), final(self).transport().trace()),
            ),
    {
        let ghost before = self.transport().trace();
        match self.cmd(Command::SDATAC) {
            Ok(()) => {},
            Err(e) => {
                return Err(e);
            },
        }
        let ghost stopped = self.transport().trace();
        proof {
            lemma_framed_complete(added(before, stopped));
        }
        let settled = self.wait(BOOT_TICKS);
        let ghost waited = self.transport().trace();
        proof {
            lemma_added_chain(before, stopped, waited);
            lemma_first_fault_concat(added(before, stopped), added(stopped, waited));
            lemma_first_fault_single(added(stopped, waited)[0]);
            assert(added(stopped, waited) =~= seq![added(stopped, waited)[0]]);
            assert(added(before, waited).take(6) =~= added(before, stopped));
        }
        match settled {
            Ok(()) => {},
            Err(e) => {
                return Err(e);
            },
        }
        let read = self.read_register(Register::ID);
        proof {
            let run = added(before, self.transport().trace());
            let tail = added(waited, self.transport().trace());
            lemma_added_chain(before, waited, self.transport().trace());
            lemma_first_fault_concat(added(before, waited), tail);
            assert(run.take(6) =~= added(before, stopped));
            assert(run.skip(7) =~= tail);
            assert(run[6] == added(stopped, waited)[0]);
            if first_fault(tail) is None {
                lemma_framed_complete(tail);
                assert(run[9] == tail[2]);
            }
        }
        match read {
            Ok(id) => {
                if identity_is_valid(id) {
                    Ok(())
                } else {
                    Err(Ads129xxError::BootFailure)
                }
            },
            Err(e) => Err(e),
        }
    }

    /// Reads one sample on demand: the read command is sent, then nine bytes are
    /// exchanged, which are the frame.
    pub fn read_data(&mut self) -> (r: Result<
        Ads1292Data,
        Ads129xxError<SPI::Error, NCS::Error>,
    >)
        ensures
            extends(old(self).transport().trace(), final(self).transport().trace()),
            is_single_read_run(
                added(old(self).transport().trace(), final(self).transport().trace()),
            ),
            match r {
                Ok(frame) => {
                    &&& first_fault(
                        added(old(self).transport().trace(), final(self).transport().trace()),
                    ) is None
                    &&& frame.data@ == added(
                        old(self).transport().trace(),
                        final(self).transport().trace(),
                    )[8]->received
                },
                Err(e) => e matches Ads129xxError::SpiError(fault) && first_fault(
                    added(old(self).transport().trace(), final(self).transport().trace()),
                ) == Some(fault),
            },
    {
        let ghost before = self.transport().trace();
        match self.cmd(Command::RDATA) {
            Ok(()) => {},
            Err(e) => {
                return Err(e);
            },
        }
        let ghost asked = self.transport().trace();
        let mut buf: [u8; 9] = [0, 0, 0, 0, 0, 0, 0, 0, 0];
        assert(buf@ =~= blank_frame());
        let exchanged = self.spi.transfer(&mut buf);
        proof {
            let run = added(before, self.transport().trace());
            let tail = added(asked, self.transport().trace());
            lemma_framed_complete(added(before, asked));
            lemma_added_chain(before, asked, self.transport().trace());
            lemma_first_fault_concat(added(before, asked), tail);
            assert(run.take(6) =~= added(before, asked));
            assert(run.skip(6) =~= tail);
            if first_fault(tail) is None {
                lemma_framed_complete(tail);
                assert(run[8] == tail[2]);
            }
        }
        match exchanged {
            Ok(()) => Ok(Ads1292Data { data: buf }),
            Err(e) => Err(Ads129xxError::SpiError(e)),
        }
    }

    /// Fetches one sample frame while the device streams: nine bytes are exchanged at
    /// once, with no command before them and nothing awaited.
    ///
    /// This saves power. The device needs 50 microseconds between two such reads, and
    /// between one and any command or register access: the caller has to let them pass.
    pub fn read(&mut self) -> (r: Result<Ads1292Data, Ads129xxError<SPI::Error, NCS::Error>>)
        ensures
            extends(old(self).transport().trace(), final(self).transport().trace()),
            is_untimed_run(
                added(old(self).transport().trace(), final(self).transport().trace()),
                blank_frame(),
            ),
            match r {
                Ok(frame) => {
                    &&& first_fault(
                        added(old(self).transport().trace(), final(self).transport().trace()),
                    ) is None
                    &&& frame.data@ == added(
                        old(self).transport().trace(),
                        final(self).transport().trace(),
                    )[1]->received
                },
                Err(e) => e matches Ads129xxError::SpiError(fault) && first_fault(
                    added(old(self).transport().trace(), final(self).transport().trace()),
                ) == Some(fault),
            },
    {
        let ghost before = self.transport().trace();
        let mut buf: [u8; 9] = [0, 0, 0, 0, 0, 0, 0, 0, 0];
        assert(buf@ =~= blank_frame());
        let exchanged = self.spi.unsafe_transfer(&mut buf);
        proof {
            let run = added(before, self.transport().trace());
            if first_fault(run) is None {
                lemma_first_fault_none(run);
            }
        }
        match exchanged {
            Ok(()) => Ok(Ads1292Data { data: buf }),
            Err(e) => Err(Ads129xxError::SpiError(e)),
        }
    }

    /// Puts the device into streaming and hands it over to the stream, which holds it
    /// until it is closed.
    pub fn into_data_stream(self) -> (r: Result<
        Ads1292DataStream<SPI, NCS, TIM>,
        Ads129xxError<SPI::Error, NCS::Error>,
    >)
        ensures
            match r {
                Ok(stream) => {
                    &&& extends(self.transport().trace(), stream.device().transport().trace())
                    &&& is_write_run(
                        added(self.transport().trace(), stream.device().transport().trace()),
                        seq![Command::RDATAC.spec_word()],
                    )
                    &&& first_fault(
                        added(self.transport().trace(), stream.device().transport().trace()),
                    ) is None
                },
                Err(e) => e is SpiError,
            },
    {
        Ads1292DataStream::init(self)
    }
}

impl<SPI: SerialBus, NCS: OutputPin, TIM: CountDown> Ads129xx<SPI, NCS, TIM> for Ads1292<
    SPI,
    NCS,
    TIM,
> {
    closed spec fn transport(&self) -> SpiDevice<SPI, NCS, TIM> {
        self.spi
    }

    fn spi_device(&mut self) -> (device: &mut SpiDevice<SPI, NCS, TIM>) {
        &mut self.spi
    }

    fn into_spi_device(self) -> (device: SpiDevice<SPI, NCS, TIM>) {
        self.spi
    }
}

} // verus!
