//! Streaming: sample frames pulled one after another while the device converts
//! continuously.

use crate::ads1292::data::Ads1292Data;
use crate::ads1292::{blank_frame, Ads1292};
use crate::spi::{
    added, extends, first_fault, is_untimed_run, is_write_run, CountDown, OutputPin, SerialBus,
};
use crate::{Ads129xx, Ads129xxError, Command};
use vstd::prelude::*;

verus! {

/// A device that streams. The stream holds the device from the command that starts the
/// streaming to the one that stops it, so that nothing else can be asked of the device in
/// between. It never ends by itself: it has to be closed with `into_inner`.
#[must_use]
pub struct Ads1292DataStream<SPI: SerialBus, NCS: OutputPin, TIM: CountDown> {
    ads1292: Ads1292<SPI, NCS, TIM>,
}

impl<SPI: SerialBus, NCS: OutputPin, TIM: CountDown> Ads1292DataStream<SPI, NCS, TIM> {
    /// The device that streams.
    pub closed spec fn device(&self) -> Ads1292<SPI, NCS, TIM> {
        self.ads1292
    }

    /// Opens the stream: the command that starts continuous reading is sent. Where it
    /// fails the device is given up.
    pub fn init(ads1292: Ads1292<SPI, NCS, TIM>) -> (r: Result<
        Self,
        Ads129xxError<SPI::Error, NCS::Error>,
    >)
        ensures
            match r {
                Ok(stream) => {
                    &&& extends(
                        ads1292.transport().trace(),
                        stream.device().transport().trace(),
                    )
                    &&& is_write_run(
                        added(ads1292.transport().trace(), stream.device().transport().trace()),
                        seq![Command::RDATAC.spec_word()],
                    )
                    &&& first_fault(
                        added(ads1292.transport().trace(), stream.device().transport().trace()),
                    ) is None
                },
                Err(e) => e is SpiError,
            },
    {
        let mut ads1292 = ads1292;
        match ads1292.cmd(Command::RDATAC) {
            Ok(()) => Ok(Ads1292DataStream { ads1292 }),
            Err(e) => Err(e),
        }
    }

    /// Closes the stream: the command that stops continuous reading is sent, and the
    /// device is handed back. Where the command fails the device is given up.
    pub fn into_inner(self) -> (r: Result<
        Ads1292<SPI, NCS, TIM>,
        Ads129xxError<SPI::Error, NCS::Error>,
    >)
        ensures
            match r {
                Ok(device) => {
                    &&& extends(self.device().transport().trace(), device.transport().trace())
                    &&& is_write_run(
                        added(self.device().transport().trace(), device.transport().trace()),
                        seq![Command::SDATAC.spec_word()],
                    )
                    &&& first_fault(
                        added(self.device().transport().trace(), device.transport().trace()),
                    ) is None
                },
                Err(e) => e is SpiError,
            },
    {
        let mut ads1292 = self.ads1292;
        match ads1292.cmd(Command::SDATAC) {
            Ok(()) => Ok(ads1292),
            Err(e) => Err(e),
        }
    }

    /// Pulls the next sample frame. There always is one: the result is never `None`, and
    /// a failure of the transport is the frame's own error.
    pub fn next(&mut self) -> (r: Option<
        Result<Ads1292Data, Ads129xxError<SPI::Error, NCS::Error>>,
    >)
        ensures
            extends(
                old(self).device().transport().trace(),
                final(self).device().transport().trace(),
            ),
            is_untimed_run(
                added(
                    old(self).device().transport().trace(),
                    final(self).device().transport().trace(),
                ),
                blank_frame(),
            ),
            match r {
                Some(Ok(frame)) => {
                    &&& first_fault(
                        added(
                            old(self).device().transport().trace(),
                            final(self).device().transport().trace(),
                        ),
                    ) is None
                    &&& frame.data@ == added(
                        old(self).device().transport().trace(),
                        final(self).device().transport().trace(),
                    )[1]->received
                },
                Some(Err(e)) => e matches Ads129xxError::SpiError(fault) && first_fault(
                    added(
                        old(self).device().transport().trace(),
                        final(self).device().transport().trace(),
                    ),
                ) == Some(fault),
                None => false,
            },
    {
        Some(self.ads1292.read())
    }
}

} // verus!
