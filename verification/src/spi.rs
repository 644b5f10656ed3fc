//! The bus transport: one serial bus, its chip-select pin and a timer, and the timed
//! transactions that are made of them.
//!
//! Nothing is known of what a bus, a pin or a timer does when it is called, so nothing is
//! claimed of them. What is proved is what the transport asks of them, in which order, and
//! what it makes of their answers. To that end the transport keeps, as ghost state, a
//! trace of its calls. Five private methods make the calls, `select`, `deselect`,
//! `exchange`, `put` and `tick`: each makes one call and records it with its answer, and
//! `wait` opens the record that its ticks are counted in. Every other contract, here and
//! in the modules above, describes the events that a call adds to the trace and states
//! the result as a function of them.

use vstd::prelude::*;

verus! {

/// Timer expiries awaited after chip-select is asserted and again after the bytes have
/// moved.
pub const SETTLE_TICKS: u16 = 20;

/// Timer expiries awaited after chip-select is released.
pub const GUARD_TICKS: u16 = 10;

/// A serial bus that moves bytes to and from the selected device.
pub trait SerialBus {
    /// What the bus reports when an exchange fails.
    type Error;

    /// Sends `words` and overwrites them with the bytes that came back.
    fn transfer(&mut self, words: &mut [u8]) -> Result<(), Self::Error>;

    /// Sends `words` and discards what comes back.
    fn write(&mut self, words: &[u8]) -> Result<(), Self::Error>;
}

/// A digital output, used as the chip-select line: low selects the device.
pub trait OutputPin {
    /// What the pin reports when it cannot be driven.
    type Error;

    /// Drives the pin low.
    fn set_low(&mut self) -> Result<(), Self::Error>;

    /// Drives the pin high.
    fn set_high(&mut self) -> Result<(), Self::Error>;
}

/// A timer that could not complete a wait.
#[derive(Debug, Clone, Copy, PartialEq, Eq, Structural)]
pub struct TimerFault;

/// A running periodic countdown.
pub trait CountDown {
    /// Blocks until the countdown expires once more.
    fn wait(&mut self) -> Result<(), TimerFault>;
}

/// Why a call on the transport failed.
#[derive(Debug, PartialEq, Eq)]
pub enum SpiError<E, EO> {
    /// The bus failed to move the bytes.
    BusError(E),
    /// The chip-select pin could not be driven.
    PinError(EO),
    /// The timer could not complete a wait.
    WaitError,
}

impl<E: Clone, EO: Clone> Clone for SpiError<E, EO> {
    fn clone(&self) -> (r: Self) {
        match self {
            SpiError::BusError(e) => SpiError::BusError(e.clone()),
            SpiError::PinError(e) => SpiError::PinError(e.clone()),
            SpiError::WaitError => SpiError::WaitError,
        }
    }
}

impl<E: Copy, EO: Copy> Copy for SpiError<E, EO> {

}

/// The error that a capability answered with, if it did.
pub open spec fn error_of<E>(answer: Result<(), E>) -> Option<E> {
    match answer {
        Ok(_) => None,
        Err(e) => Some(e),
    }
}

/// One thing the transport asked of a capability, with the answer it got.
pub enum BusEvent<E, EO> {
    /// Chip-select was driven low.
    Select { pin_error: Option<EO> },
    /// Chip-select was driven high.
    Deselect { pin_error: Option<EO> },
    /// Timer expiries were awaited one after another: `elapsed` of them came, and `failed`
    /// says whether the timer then reported a fault, which ended the wait.
    Wait { elapsed: nat, failed: bool },
    /// `sent` went out on the bus and `received` took its place in the buffer.
    Exchange { sent: Seq<u8>, received: Seq<u8>, bus_error: Option<E> },
    /// `sent` went out on the bus and the response was discarded.
    Write { sent: Seq<u8>, bus_error: Option<E> },
}

impl<E, EO> BusEvent<E, EO> {
    /// The failure that this event reports, if it reports one.
    pub open spec fn fault(self) -> Option<SpiError<E, EO>> {
        match self {
            BusEvent::Select { pin_error: Some(e) } => Some(SpiError::PinError(e)),
            BusEvent::Deselect { pin_error: Some(e) } => Some(SpiError::PinError(e)),
            BusEvent::Wait { elapsed, failed: true } => Some(SpiError::WaitError),
            BusEvent::Exchange { sent, received, bus_error: Some(e) } => Some(
                SpiError::BusError(e),
            ),
            BusEvent::Write { sent, bus_error: Some(e) } => Some(SpiError::BusError(e)),
            _ => None,
        }
    }

    /// This event is a wait for `ticks` expiries: either all of them came, or the timer
    /// failed before the last one did.
    pub open spec fn is_wait_of(self, ticks: nat) -> bool {
        self matches BusEvent::Wait { elapsed, failed } && if failed {
            elapsed < ticks
        } else {
            elapsed == ticks
        }
    }

    /// This event is an exchange in which `bytes` went out.
    pub open spec fn is_exchange_of(self, bytes: Seq<u8>) -> bool {
        self matches BusEvent::Exchange { sent, received, bus_error } && sent == bytes
    }

    /// This event is a write of `bytes`.
    pub open spec fn is_write_of(self, bytes: Seq<u8>) -> bool {
        self matches BusEvent::Write { sent, bus_error } && sent == bytes
    }

    /// This event moved bytes over the bus.
    pub open spec fn moves_bytes(self) -> bool {
        self is Exchange || self is Write
    }
}

/// `after` is `before` with further events behind it.
pub open spec fn extends<T>(before: Seq<T>, after: Seq<T>) -> bool {
    before.is_prefix_of(after)
}

/// The events that `after` holds behind those of `before`.
pub open spec fn added<T>(before: Seq<T>, after: Seq<T>) -> Seq<T> {
    after.skip(before.len() as int)
}

/// The earliest failure among the events of `run`.
pub open spec fn first_fault<E, EO>(run: Seq<BusEvent<E, EO>>) -> Option<SpiError<E, EO>>
    decreases run.len(),
{
    if run.len() == 0 {
        None
    } else if first_fault(run.drop_last()) is Some {
        first_fault(run.drop_last())
    } else {
        run.last().fault()
    }
}

/// What a call reports that caused the events of `run`: its earliest failure, or success
/// where nothing failed.
pub open spec fn verdict<E, EO>(run: Seq<BusEvent<E, EO>>) -> Result<(), SpiError<E, EO>> {
    match first_fault(run) {
        Some(fault) => Err(fault),
        None => Ok(()),
    }
}

/// `run` is one wait for `ticks` expiries.
pub open spec fn is_wait_run<E, EO>(run: Seq<BusEvent<E, EO>>, ticks: nat) -> bool {
    run.len() == 1 && run[0].is_wait_of(ticks)
}

/// `run` is one timed transaction.
///
/// Chip-select is asserted first. Where that succeeds the settle time is awaited, and
/// where that succeeds too the bytes move and the settle time is awaited again, whether
/// or not the bus failed. Chip-select is then released and the guard time awaited, on
/// every path.
pub open spec fn is_framed<E, EO>(run: Seq<BusEvent<E, EO>>) -> bool {
    &&& run.len() >= 3
    &&& run[0] is Select
    &&& if run[0].fault() is Some {
        run.len() == 3
    } else if run[1].fault() is Some {
        run.len() == 4 && run[1].is_wait_of(SETTLE_TICKS as nat)
    } else {
        &&& run.len() == 6
        &&& run[1].is_wait_of(SETTLE_TICKS as nat)
        &&& run[2].moves_bytes()
        &&& run[3].is_wait_of(SETTLE_TICKS as nat)
    }
    &&& run[run.len() - 2] is Deselect
    &&& run.last().is_wait_of(GUARD_TICKS as nat)
}

/// `run` is one timed transaction that exchanges `sent` for a response.
pub open spec fn is_transfer_run<E, EO>(run: Seq<BusEvent<E, EO>>, sent: Seq<u8>) -> bool {
    &&& is_framed(run)
    &&& run.len() == 6 ==> run[2].is_exchange_of(sent)
}

/// `run` is one timed transaction that writes `sent`.
pub open spec fn is_write_run<E, EO>(run: Seq<BusEvent<E, EO>>, sent: Seq<u8>) -> bool {
    &&& is_framed(run)
    &&& run.len() == 6 ==> run[2].is_write_of(sent)
}

/// What the buffer of a timed exchange holds afterwards: the response where the bytes
/// moved, and what it held before where they did not.
pub open spec fn buffer_after<E, EO>(run: Seq<BusEvent<E, EO>>, before: Seq<u8>) -> Seq<u8> {
    if run.len() == 6 && run[2] is Exchange {
        run[2]->received
    } else {
        before
    }
}

/// `run` is one untimed exchange of `sent`: chip-select is asserted, the bytes move where
/// that succeeded, and chip-select is released on every path. Nothing is awaited.
pub open spec fn is_untimed_run<E, EO>(run: Seq<BusEvent<E, EO>>, sent: Seq<u8>) -> bool {
    &&& run.len() >= 2
    &&& run[0] is Select
    &&& if run[0].fault() is Some {
        run.len() == 2
    } else {
        run.len() == 3 && run[1].is_exchange_of(sent)
    }
    &&& run.last() is Deselect
}

/// What the buffer of an untimed exchange holds afterwards.
pub open spec fn untimed_buffer_after<E, EO>(
    run: Seq<BusEvent<E, EO>>,
    before: Seq<u8>,
) -> Seq<u8> {
    if run.len() == 3 && run[1] is Exchange {
        run[1]->received
    } else {
        before
    }
}

/// Behind one more event, the earliest failure is the one there was, or else that of the
/// new event.
pub proof fn lemma_first_fault_push<E, EO>(run: Seq<BusEvent<E, EO>>, event: BusEvent<E, EO>)
    ensures
        first_fault(run.push(event)) == if first_fault(run) is Some {
            first_fault(run)
        } else {
            event.fault()
        },
{
    assert(run.push(event).drop_last() =~= run);
}

/// Events added in two steps are the events of the first step followed by those of the
/// second.
pub proof fn lemma_added_chain<T>(before: Seq<T>, between: Seq<T>, after: Seq<T>)
    requires
        extends(before, between),
        extends(between, after),
    ensures
        extends(before, after),
        added(before, after) == added(before, between) + added(between, after),
{
    assert(before =~= after.subrange(0, before.len() as int));
    assert(added(before, after) =~= added(before, between) + added(between, after));
}

/// A trace with one more event extends the trace, by that event.
pub proof fn lemma_added_push<T>(before: Seq<T>, event: T)
    ensures
        extends(before, before.push(event)),
        added(before, before.push(event)) == seq![event],
{
    assert(before =~= before.push(event).subrange(0, before.len() as int));
    assert(added(before, before.push(event)) =~= seq![event]);
}

/// The earliest failure of two runs on end is that of the first run, or else that of the
/// second.
pub proof fn lemma_first_fault_concat<E, EO>(
    first: Seq<BusEvent<E, EO>>,
    second: Seq<BusEvent<E, EO>>,
)
    ensures
        first_fault(first + second) == if first_fault(first) is Some {
            first_fault(first)
        } else {
            first_fault(second)
        },
    decreases second.len(),
{
    if second.len() == 0 {
        assert(first + second =~= first);
    } else {
        lemma_first_fault_concat(first, second.drop_last());
        assert((first + second).drop_last() =~= first + second.drop_last());
    }
}

/// A run has no failure exactly when none of its events reports one.
pub proof fn lemma_first_fault_none<E, EO>(run: Seq<BusEvent<E, EO>>)
    ensures
        first_fault(run) is None <==> forall|i: int|
            0 <= i < run.len() ==> (#[trigger] run[i]).fault() is None,
    decreases run.len(),
{
    if run.len() > 0 {
        lemma_first_fault_none(run.drop_last());
        assert(forall|i: int|
            0 <= i < run.len() - 1 ==> run.drop_last()[i] == #[trigger] run[i]);
        if first_fault(run) is None {
            assert forall|i: int| 0 <= i < run.len() implies (#[trigger] run[i]).fault()
                is None by {
                if i < run.len() - 1 {
                    assert(run.drop_last()[i] == run[i]);
                }
            }
        } else if first_fault(run.drop_last()) is Some {
            let i = choose|i: int|
                0 <= i < run.drop_last().len() && (#[trigger] run.drop_last()[i]).fault()
                    is Some;
            assert(run[i].fault() is Some);
        }
    }
}

/// A timed transaction without a failure has all six of its events.
pub proof fn lemma_framed_complete<E, EO>(run: Seq<BusEvent<E, EO>>)
    requires
        is_framed(run),
        first_fault(run) is None,
    ensures
        run.len() == 6,
{
    lemma_first_fault_none(run);
}

/// The earliest failure of a run of one event is that event's.
pub proof fn lemma_first_fault_single<E, EO>(event: BusEvent<E, EO>)
    ensures
        first_fault(seq![event]) == event.fault(),
{
    lemma_first_fault_push(Seq::empty(), event);
    assert(Seq::empty().push(event) =~= seq![event]);
}

/// In a timed transaction chip-select is asserted exactly once, at the start, and released
/// exactly once, after that; bytes move only in between.
pub proof fn lemma_framed_chip_select<E, EO>(run: Seq<BusEvent<E, EO>>)
    requires
        is_framed(run),
    ensures
        forall|i: int| 0 <= i < run.len() ==> (#[trigger] run[i] is Select <==> i == 0),
        forall|i: int|
            0 <= i < run.len() ==> (#[trigger] run[i] is Deselect <==> i == run.len() - 2),
        forall|i: int|
            0 <= i < run.len() && (#[trigger] run[i]).moves_bytes() ==> 0 < i < run.len() - 2,
{
}

/// In an untimed exchange chip-select is asserted exactly once, at the start, and released
/// exactly once, at the end; bytes move only in between.
pub proof fn lemma_untimed_chip_select<E, EO>(run: Seq<BusEvent<E, EO>>, sent: Seq<u8>)
    requires
        is_untimed_run(run, sent),
    ensures
        forall|i: int| 0 <= i < run.len() ==> (#[trigger] run[i] is Select <==> i == 0),
        forall|i: int|
            0 <= i < run.len() ==> (#[trigger] run[i] is Deselect <==> i == run.len() - 1),
        forall|i: int|
            0 <= i < run.len() && (#[trigger] run[i]).moves_bytes() ==> 0 < i < run.len() - 1,
{
}

/// A serial device on a bus of its own: the bus, the chip-select pin that frames each
/// transaction, and the timer that paces it.
pub struct SpiDevice<SPI: SerialBus, NCS: OutputPin, TIM: CountDown> {
    /// The bus.
    spi: SPI,
    /// Chip-select; low selects the device.
    ncs: NCS,
    /// The timer whose expiries are counted.
    timer: TIM,
    /// Everything asked of the three so far.
    trace: Ghost<Seq<BusEvent<SPI::Error, NCS::Error>>>,
}

impl<SPI: SerialBus, NCS: OutputPin, TIM: CountDown> SpiDevice<SPI, NCS, TIM> {
    /// Everything this transport has asked of its bus, pin and timer, oldest first.
    pub closed spec fn trace(&self) -> Seq<BusEvent<SPI::Error, NCS::Error>> {
        self.trace@
    }

    /// The bus that this transport holds.
    pub closed spec fn bus(&self) -> SPI {
        self.spi
    }

    /// The chip-select pin that this transport holds.
    pub closed spec fn chip_select(&self) -> NCS {
        self.ncs
    }

    /// The timer that this transport holds.
    pub closed spec fn timer(&self) -> TIM {
        self.timer
    }

    /// Makes a transport of a bus, its chip-select pin and a running timer, and releases
    /// chip-select. Fails, and gives the three up, where the pin cannot be driven.
    pub fn new(spi: SPI, ncs: NCS, timer: TIM) -> (r: Result<
        Self,
        SpiError<SPI::Error, NCS::Error>,
    >)
        ensures
            r matches Ok(device) ==> device.trace() =~= seq![
                BusEvent::<SPI::Error, NCS::Error>::Deselect { pin_error: None },
            ],
            r matches Ok(device) ==> device.bus() == spi && device.timer() == timer,
            r matches Err(e) ==> e is PinError,
    {
        let mut device = SpiDevice { spi, ncs, timer, trace: Ghost(Seq::empty()) };
        match device.deselect() {
            Ok(()) => Ok(device),
            Err(e) => Err(SpiError::PinError(e)),
        }
    }

    /// Drives chip-select low.
    fn select(&mut self) -> (r: Result<(), NCS::Error>)
        ensures
            final(self).trace() == old(self).trace().push(
                BusEvent::Select { pin_error: error_of(r) },
            ),
            final(self).bus() == old(self).bus(),
            final(self).timer() == old(self).timer(),
    {
        let r = self.ncs.set_low();
        proof {
            self.trace@ = self.trace@.push(BusEvent::Select { pin_error: error_of(r) });
        }
        r
    }

    /// Drives chip-select high.
    fn deselect(&mut self) -> (r: Result<(), NCS::Error>)
        ensures
            final(self).trace() == old(self).trace().push(
                BusEvent::Deselect { pin_error: error_of(r) },
            ),
            final(self).bus() == old(self).bus(),
            final(self).timer() == old(self).timer(),
    {
        let r = self.ncs.set_high();
        proof {
            self.trace@ = self.trace@.push(BusEvent::Deselect { pin_error: error_of(r) });
        }
        r
    }

    /// Exchanges the buffer's bytes over the bus.
    fn exchange(&mut self, buffer: &mut [u8]) -> (r: Result<(), SPI::Error>)
        ensures
            final(self).trace() == old(self).trace().push(
                BusEvent::Exchange {
                    sent: old(buffer)@,
                    received: final(buffer)@,
                    bus_error: error_of(r),
                },
            ),
    {
        let r = self.spi.transfer(buffer);
        proof {
            self.trace@ = self.trace@.push(
                BusEvent::Exchange {
                    sent: old(buffer)@,
                    received: buffer@,
                    bus_error: error_of(r),
                },
            );
        }
        r
    }

    /// Writes the buffer's bytes to the bus.
    fn put(&mut self, buffer: &[u8]) -> (r: Result<(), SPI::Error>)
        ensures
            final(self).trace() == old(self).trace().push(
                BusEvent::Write { sent: buffer@, bus_error: error_of(r) },
            ),
    {
        let r = self.spi.write(buffer);
        proof {
            self.trace@ = self.trace@.push(
                BusEvent::Write { sent: buffer@, bus_error: error_of(r) },
            );
        }
        r
    }

    /// Awaits one expiry of the timer, as part of the wait that is the latest event.
    fn tick(&mut self) -> (r: Result<(), TimerFault>)
        requires
            old(self).trace().len() > 0,
            old(self).trace().last() is Wait,
        ensures
            final(self).trace() == old(self).trace().drop_last().push(
                BusEvent::Wait {
                    elapsed: if r is Ok {
                        old(self).trace().last()->elapsed + 1
                    } else {
                        old(self).trace().last()->elapsed
                    },
                    failed: r is Err,
                },
            ),
    {
        let r = self.timer.wait();
        proof {
            let elapsed: nat = self.trace@.last()->elapsed;
            self.trace@ = self.trace@.drop_last().push(
                BusEvent::Wait {
                    elapsed: if r is Ok {
                        elapsed + 1
                    } else {
                        elapsed
                    },
                    failed: r is Err,
                },
            );
        }
        r
    }

    /// Blocks until the timer has expired `i` times. A fault of the timer ends the wait at
    /// once and is reported.
    pub fn wait(&mut self, i: u16) -> (r: Result<(), SpiError<SPI::Error, NCS::Error>>)
        ensures
            extends(old(self).trace(), final(self).trace()),
            is_wait_run(added(old(self).trace(), final(self).trace()), i as nat),
            r == verdict(added(old(self).trace(), final(self).trace())),
    {
        let ghost before = self.trace();
        proof {
            self.trace@ = self.trace@.push(BusEvent::Wait { elapsed: 0, failed: false });
        }
        let mut seen: u16 = 0;
        let mut failed = false;
        while seen < i && !failed
            invariant
                seen <= i,
                failed ==> seen < i,
                self.trace() == before.push(BusEvent::Wait { elapsed: seen as nat, failed }),
            decreases i - seen + if failed { 0int } else { 1int },
        {
            assert(self.trace().drop_last() =~= before);
            match self.tick() {
                Ok(()) => {
                    seen = seen + 1;
                },
                Err(_) => {
                    failed = true;
                },
            }
        }
        proof {
            let run = added(before, self.trace());
            assert(run =~= Seq::empty().push(BusEvent::Wait { elapsed: seen as nat, failed }));
            lemma_first_fault_push(Seq::empty(), run[0]);
        }
        if failed {
            Err(SpiError::WaitError)
        } else {
            Ok(())
        }
    }

    /// Asserts chip-select and, where that succeeded, awaits the settle time.
    fn begin(&mut self) -> (r: Result<(), SpiError<SPI::Error, NCS::Error>>)
        ensures
            extends(old(self).trace(), final(self).trace()),
            ({
                let run = added(old(self).trace(), final(self).trace());
                &&& run.len() >= 1
                &&& run[0] is Select
                &&& if run[0].fault() is Some {
                    run.len() == 1
                } else {
                    run.len() == 2 && run[1].is_wait_of(SETTLE_TICKS as nat)
                }
                &&& r == verdict(run)
            }),
    {
        let ghost before = self.trace();
        let selected = self.select();
        let ghost between = self.trace();
        proof {
            lemma_added_push(before, between.last());
            lemma_first_fault_single(between.last());
        }
        match selected {
            Ok(()) => {
                let settled = self.wait(SETTLE_TICKS);
                proof {
                    lemma_added_chain(before, between, self.trace());
                    lemma_first_fault_concat(
                        added(before, between),
                        added(between, self.trace()),
                    );
                }
                settled
            },
            Err(e) => Err(SpiError::PinError(e)),
        }
    }

    /// Releases chip-select and awaits the guard time, whatever the pin answered.
    fn end(&mut self) -> (r: Result<(), SpiError<SPI::Error, NCS::Error>>)
        ensures
            extends(old(self).trace(), final(self).trace()),
            ({
                let run = added(old(self).trace(), final(self).trace());
                &&& run.len() == 2
                &&& run[0] is Deselect
                &&& run[1].is_wait_of(GUARD_TICKS as nat)
                &&& r == verdict(run)
            }),
    {
        let ghost before = self.trace();
        let released = self.deselect();
        let ghost between = self.trace();
        let guarded = self.wait(GUARD_TICKS);
        proof {
            lemma_added_push(before, between.last());
            lemma_first_fault_single(between.last());
            lemma_added_chain(before, between, self.trace());
            lemma_first_fault_concat(added(before, between), added(between, self.trace()));
        }
        match released {
            Ok(()) => guarded,
            Err(e) => Err(SpiError::PinError(e)),
        }
    }

    /// Exchanges the buffer with the device in one timed transaction: chip-select is
    /// asserted, the settle time awaited, the bytes exchanged, the settle time awaited
    /// again, chip-select released and the guard time awaited. The buffer then holds the
    /// response.
    ///
    /// Chip-select is released and the guard time awaited on every path. Bytes move only
    /// where chip-select was asserted and the settle time passed. The earliest failure is
    /// the one reported.
    pub fn transfer(&mut self, buffer: &mut [u8]) -> (r: Result<
        (),
        SpiError<SPI::Error, NCS::Error>,
    >)
        ensures
            extends(old(self).trace(), final(self).trace()),
            is_transfer_run(added(old(self).trace(), final(self).trace()), old(buffer)@),
            final(buffer)@ == buffer_after(
                added(old(self).trace(), final(self).trace()),
                old(buffer)@,
            ),
            r == verdict(added(old(self).trace(), final(self).trace())),
    {
        let ghost before = self.trace();
        let begun = self.begin();
        let ghost opened = self.trace();
        let moved = match begun {
            Ok(()) => {
                let exchanged = self.exchange(buffer);
                let ghost exchanging = self.trace();
                let settled = self.wait(SETTLE_TICKS);
                proof {
                    lemma_added_push(opened, exchanging.last());
                    lemma_first_fault_single(exchanging.last());
                    lemma_added_chain(opened, exchanging, self.trace());
                    lemma_first_fault_concat(
                        added(opened, exchanging),
                        added(exchanging, self.trace()),
                    );
                }
                match exchanged {
                    Ok(()) => settled,
                    Err(e) => Err(SpiError::BusError(e)),
                }
            },
            Err(e) => Err(e),
        };
        let ghost closing = self.trace();
        let ended = self.end();
        proof {
            assert(extends(opened, closing) && moved == (if begun is Ok {
                verdict(added(opened, closing))
            } else {
                begun
            })) by {
                if begun is Err {
                    assert(added(opened, closing) =~= Seq::empty());
                }
            }
            lemma_added_chain(before, opened, closing);
            lemma_first_fault_concat(added(before, opened), added(opened, closing));
            lemma_added_chain(before, closing, self.trace());
            lemma_first_fault_concat(added(before, closing), added(closing, self.trace()));
            let head = added(before, opened);
            let body = added(opened, closing);
            let tail = added(closing, self.trace());
            let run = added(before, self.trace());
            assert(run == head + body + tail);
            assert(run[0] == head[0]);
            if head.len() == 2 {
                assert(run[1] == head[1]);
                assert(first_fault(head) == head[1].fault()) by {
                    lemma_first_fault_push(seq![head[0]], head[1]);
                    lemma_first_fault_single(head[0]);
                    assert(seq![head[0]].push(head[1]) =~= head);
                }
            } else {
                assert(first_fault(head) == head[0].fault()) by {
                    lemma_first_fault_single(head[0]);
                    assert(seq![head[0]] =~= head);
                }
            }
            if begun is Ok {
                assert(body.len() == 2);
                assert(run[2] == body[0]);
                assert(run[3] == body[1]);
            }
            assert(run[run.len() - 2] == tail[0]);
            assert(run.last() == tail[1]);
        }
        match moved {
            Ok(()) => ended,
            Err(e) => Err(e),
        }
    }

    /// Writes the buffer to the device in one timed transaction, framed as an exchange is,
    /// and discards the response.
    pub fn write(&mut self, buffer: &[u8]) -> (r: Result<(), SpiError<SPI::Error, NCS::Error>>)
        ensures
            extends(old(self).trace(), final(self).trace()),
            is_write_run(added(old(self).trace(), final(self).trace()), buffer@),
            r == verdict(added(old(self).trace(), final(self).trace())),
    {
        let ghost before = self.trace();
        let begun = self.begin();
        let ghost opened = self.trace();
        let moved = match begun {
            Ok(()) => {
                let written = self.put(buffer);
                let ghost writing = self.trace();
                let settled = self.wait(SETTLE_TICKS);
                proof {
                    lemma_added_push(opened, writing.last());
                    lemma_first_fault_single(writing.last());
                    lemma_added_chain(opened, writing, self.trace());
                    lemma_first_fault_concat(
                        added(opened, writing),
                        added(writing, self.trace()),
                    );
                }
                match written {
                    Ok(()) => settled,
                    Err(e) => Err(SpiError::BusError(e)),
                }
            },
            Err(e) => Err(e),
        };
        let ghost closing = self.trace();
        let ended = self.end();
        proof {
            assert(extends(opened, closing) && moved == (if begun is Ok {
                verdict(added(opened, closing))
            } else {
                begun
            })) by {
                if begun is Err {
                    assert(added(opened, closing) =~= Seq::empty());
                }
            }
            lemma_added_chain(before, opened, closing);
            lemma_first_fault_concat(added(before, opened), added(opened, closing));
            lemma_added_chain(before, closing, self.trace());
            lemma_first_fault_concat(added(before, closing), added(closing, self.trace()));
            let head = added(before, opened);
            let body = added(opened, closing);
            let tail = added(closing, self.trace());
            let run = added(before, self.trace());
            assert(run == head + body + tail);
            assert(run[0] == head[0]);
            if head.len() == 2 {
                assert(run[1] == head[1]);
                assert(first_fault(head) == head[1].fault()) by {
                    lemma_first_fault_push(seq![head[0]], head[1]);
                    lemma_first_fault_single(head[0]);
                    assert(seq![head[0]].push(head[1]) =~= head);
                }
            } else {
                assert(first_fault(head) == head[0].fault()) by {
                    lemma_first_fault_single(head[0]);
                    assert(seq![head[0]] =~= head);
                }
            }
            if begun is Ok {
                assert(body.len() == 2);
                assert(run[2] == body[0]);
                assert(run[3] == body[1]);
            }
            assert(run[run.len() - 2] == tail[0]);
            assert(run.last() == tail[1]);
        }
        match moved {
            Ok(()) => ended,
            Err(e) => Err(e),
        }
    }

    /// Exchanges the buffer with the device without awaiting anything: chip-select is
    /// asserted, the bytes exchanged where that succeeded, and chip-select released on
    /// every path. The earliest failure is the one reported.
    ///
    /// This saves power while the device streams samples. The device needs 50
    /// microseconds between this call and any other use of the bus: the caller has to let
    /// them pass.
    pub fn unsafe_transfer(&mut self, buffer: &mut [u8]) -> (r: Result<
        (),
        SpiError<SPI::Error, NCS::Error>,
    >)
        ensures
            extends(old(self).trace(), final(self).trace()),
            is_untimed_run(added(old(self).trace(), final(self).trace()), old(buffer)@),
            final(buffer)@ == untimed_buffer_after(
                added(old(self).trace(), final(self).trace()),
                old(buffer)@,
            ),
            r == verdict(added(old(self).trace(), final(self).trace())),
    {
        let ghost before = self.trace();
        let selected = self.select();
        let ghost opened = self.trace();
        proof {
            lemma_added_push(before, opened.last());
            lemma_first_fault_single(opened.last());
        }
        let moved = match selected {
            Ok(()) => {
                let exchanged = self.exchange(buffer);
                proof {
                    lemma_added_push(opened, self.trace().last());
                    lemma_first_fault_single(self.trace().last());
                }
                match exchanged {
                    Ok(()) => Ok(()),
                    Err(e) => Err(SpiError::BusError(e)),
                }
            },
            Err(e) => Err(SpiError::PinError(e)),
        };
        let ghost closing = self.trace();
        let released = self.deselect();
        proof {
            if selected is Err {
                assert(added(opened, closing) =~= Seq::empty());
            }
            assert(extends(opened, closing));
            lemma_added_chain(before, opened, closing);
            lemma_first_fault_concat(added(before, opened), added(opened, closing));
            lemma_added_push(closing, self.trace().last());
            lemma_first_fault_single(self.trace().last());
            lemma_added_chain(before, closing, self.trace());
            lemma_first_fault_concat(added(before, closing), added(closing, self.trace()));
        }
        match moved {
            Ok(()) => match released {
                Ok(()) => Ok(()),
                Err(e) => Err(SpiError::PinError(e)),
            },
            Err(e) => Err(e),
        }
    }

    /// Gives back the bus, the pin and the timer.
    pub fn into_inner(self) -> (r: (SPI, NCS, TIM))
        ensures
            r == (self.bus(), self.chip_select(), self.timer()),
    {
        (self.spi, self.ncs, self.timer)
    }
}

} // verus!
