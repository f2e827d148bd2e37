//! One framed access on the serial bus.
//!
//! The device listens while its chip-select line is held low. An access
//! therefore takes three steps: drive the line low, clock the frame, drive the
//! line high again. An [`Exchange`] walks through these steps. Its owner asks
//! it for the next [`Action`], carries that out on the hardware and feeds the
//! [`Event`] that came of it back in.

use vstd::prelude::*;

verus! {

/// What the owner of the bus has to do next.
#[derive(Clone, Copy, Debug, PartialEq, Eq)]
pub enum Action<const N: usize> {
    /// Drive the chip-select line low.
    Select,
    /// Clock the frame out and ignore the bytes that come in.
    Write([u8; N]),
    /// Clock the frame out and keep the bytes that come in meanwhile, one for
    /// each byte that goes out.
    Transfer([u8; N]),
    /// Drive the chip-select line high.
    Deselect,
}

/// What came of an action.
#[derive(Debug, PartialEq, Eq)]
pub enum Event<E, const N: usize> {
    /// The action was carried out and left nothing to hand back.
    Done,
    /// The chip-select line could not be driven.
    Stuck,
    /// The bytes that a transfer clocked in.
    Reply([u8; N]),
    /// The bus could not clock the frame.
    Fault(E),
}

/// How far an exchange has come.
#[derive(Debug, PartialEq, Eq)]
pub enum Phase<E, const N: usize> {
    /// Nothing was done yet.
    Idle,
    /// The chip-select line is low and the frame waits to be clocked.
    Selected,
    /// The frame was clocked, with this result, and the line is still low.
    Clocked(Result<[u8; N], E>),
}

/// A register access under way.
#[derive(Debug, PartialEq, Eq)]
pub struct Exchange<E, const N: usize> {
    /// The bytes to clock out.
    pub frame: [u8; N],
    /// Whether the bytes that come in are wanted.
    pub duplex: bool,
    /// How far the exchange has come.
    pub phase: Phase<E, N>,
}

/// An exchange after an event.
#[derive(Debug, PartialEq, Eq)]
pub enum Step<E, const N: usize> {
    /// There is more to do.
    Pending(Exchange<E, N>),
    /// The line is high again; this is what the bus gave.
    Finished(Result<[u8; N], E>),
}

impl<E, const N: usize> Exchange<E, N> {
    /// The exchange that writes `frame` and has not begun.
    pub open spec fn spec_write(frame: [u8; N]) -> Self {
        Exchange { frame, duplex: false, phase: Phase::Idle }
    }

    /// The exchange that clocks `frame` out, keeps what comes in, and has not
    /// begun.
    pub open spec fn spec_transfer(frame: [u8; N]) -> Self {
        Exchange { frame, duplex: true, phase: Phase::Idle }
    }

    /// Whether this is the write of `frame`, not yet begun.
    pub open spec fn writes(self, frame: Seq<u8>) -> bool {
        self.frame@ == frame && !self.duplex && self.phase is Idle
    }

    /// Whether this is the transfer of `frame`, not yet begun.
    pub open spec fn transfers(self, frame: Seq<u8>) -> bool {
        self.frame@ == frame && self.duplex && self.phase is Idle
    }

    /// What clocking the frame gave. A fault is an error. Where bytes were
    /// wanted and came in, they are the result. In every other case the frame
    /// stands as it was sent.
    pub open spec fn outcome(self, event: Event<E, N>) -> Result<[u8; N], E> {
        match event {
            Event::Fault(fault) => Err(fault),
            Event::Reply(bytes) => if self.duplex {
                Ok(bytes)
            } else {
                Ok(self.frame)
            },
            Event::Done | Event::Stuck => Ok(self.frame),
        }
    }

    /// The action that clocks the frame.
    pub open spec fn clocking(self) -> Action<N> {
        if self.duplex {
            Action::Transfer(self.frame)
        } else {
            Action::Write(self.frame)
        }
    }

    /// What has to be done next: each phase has its action.
    pub open spec fn spec_action(&self) -> Action<N> {
        match self.phase {
            Phase::Idle => Action::Select,
            Phase::Selected => self.clocking(),
            Phase::Clocked(_) => Action::Deselect,
        }
    }

    /// The exchange after `event`. What a chip-select line reports is not
    /// looked at: an exchange goes on when the line could not be driven, and
    /// it asks for the line to go high again whatever came of clocking the
    /// frame.
    pub open spec fn after(self, event: Event<E, N>) -> Step<E, N> {
        match self.phase {
            Phase::Idle => Step::Pending(Exchange { phase: Phase::Selected, ..self }),
            Phase::Selected => Step::Pending(
                Exchange { phase: Phase::Clocked(self.outcome(event)), ..self },
            ),
            Phase::Clocked(outcome) => Step::Finished(outcome),
        }
    }

    /// A write of `frame`.
    pub fn write(frame: [u8; N]) -> (exchange: Self)
        ensures
            exchange == Self::spec_write(frame),
    {
        Exchange { frame, duplex: false, phase: Phase::Idle }
    }

    /// A transfer of `frame`, whose reply is wanted.
    pub fn transfer(frame: [u8; N]) -> (exchange: Self)
        ensures
            exchange == Self::spec_transfer(frame),
    {
        Exchange { frame, duplex: true, phase: Phase::Idle }
    }

    /// What has to be done next.
    #[verifier::when_used_as_spec(spec_action)]
    pub fn action(&self) -> (action: Action<N>)
        ensures
            action == self.spec_action(),
    {
        match &self.phase {
            Phase::Idle => Action::Select,
            Phase::Selected => if self.duplex {
                Action::Transfer(self.frame)
            } else {
                Action::Write(self.frame)
            },
            Phase::Clocked(_) => Action::Deselect,
        }
    }

    /// Takes in what came of the last action.
    pub fn feed(self, event: Event<E, N>) -> (step: Step<E, N>)
        ensures
            step == self.after(event),
    {
        match self.phase {
            Phase::Idle => Step::Pending(
                Exchange { frame: self.frame, duplex: self.duplex, phase: Phase::Selected },
            ),
            Phase::Selected => {
                let outcome = match event {
                    Event::Fault(fault) => Err(fault),
                    Event::Reply(bytes) => if self.duplex {
                        Ok(bytes)
                    } else {
                        Ok(self.frame)
                    },
                    Event::Done | Event::Stuck => Ok(self.frame),
                };
                Step::Pending(
                    Exchange {
                        frame: self.frame,
                        duplex: self.duplex,
                        phase: Phase::Clocked(outcome),
                    },
                )
            },
            Phase::Clocked(outcome) => Step::Finished(outcome),
        }
    }

    /// Chip select frames every access. An exchange that has not begun asks
    /// for the line to go low, then for its frame to be clocked, then for the
    /// line to go high, and is finished after that, whatever the hardware
    /// reports on the way. Its result is what clocking the frame gave.
    pub proof fn lemma_chip_select_frames_access(
        self,
        first: Event<E, N>,
        second: Event<E, N>,
        third: Event<E, N>,
    )
        requires
            self.phase is Idle,
        ensures
            self.spec_action() == Action::<N>::Select,
            ({
                &&& self.after(first) matches Step::Pending(selected)
                &&& selected.spec_action() == self.clocking()
                &&& selected.after(second) matches Step::Pending(clocked)
                &&& clocked.spec_action() == Action::<N>::Deselect
                &&& clocked.after(third) == Step::Finished(self.outcome(second))
            }),
    {
    }
}

} // verus!
