//! Identification: forcing a target into its bootloader and making sure that
//! it speaks the protocol.
//!
//! The boot signal is made active and the buffers of the port are cleared.
//! Then, up to as many times as the probe allows, the target is reset, the
//! buffers are cleared and an exchange is tried. The first exchange that ends
//! well identifies the target: the boot signal is released and the buffers
//! are cleared once more.
//!
//! A [`Handshake`] is a state machine. [`Handshake::action`] says what to do
//! on the port; [`Handshake::handle`] takes what came of it. The rules are
//! those of [`HandshakeView::next`].

use crate::command::Command;
use crate::command::SYNCHRONIZE;
use crate::error::Error;
use crate::probe::Identify;
use crate::probe::Probe;
use crate::protocol::Encode;
use crate::session::Expect;
use crate::session::Transaction;
use crate::session::TransactionView;
use crate::transport::Action;
use crate::transport::ActionView;
use crate::transport::Event;
use crate::transport::EventView;
use vstd::prelude::*;

verus! {

/// How far identification has come.
#[derive(Debug, Clone, Copy, PartialEq, Eq, Structural)]
pub enum State {
    /// Nothing is done yet.
    Idle,
    /// The boot signal is active, where there is one.
    BootAsserted,
    /// The target is being reset.
    ResetPulse,
    /// An exchange with the target is being tried.
    AttemptSync,
    /// The target is identified.
    Identified,
    /// Every attempt failed.
    Unidentified,
    /// The port failed outside an exchange.
    Aborted,
}

/// What identification is about to do.
#[derive(Debug, Clone, Copy, PartialEq, Eq, Structural)]
pub enum Phase {
    /// Make the boot signal active.
    BootAssert,
    /// Clear the buffers before the first attempt.
    EntryClear,
    /// Make sure that the reset signal is not active.
    PulseRelease,
    /// Make the reset signal active.
    PulseAssert,
    /// Hold the reset signal active.
    PulseHold,
    /// Release the reset signal.
    PulseEnd,
    /// Clear the buffers before the exchange.
    AttemptClear,
    /// Go on with the exchange.
    Exchange,
    /// Release the boot signal.
    BootRelease,
    /// Clear the buffers after the exchange that ended well.
    ExitClear,
    /// Nothing: the target is identified.
    Identified,
    /// Nothing: every attempt failed.
    Unidentified,
    /// Nothing: the port failed outside an exchange.
    Aborted,
}

/// The exchange that one attempt tries: the opening byte of a session, which
/// the target acknowledges; or the get command, which the target answers.
pub open spec fn spec_attempt(identify: Identify) -> TransactionView {
    match identify {
        Identify::Handshake => TransactionView::start(
            seq![seq![SYNCHRONIZE]],
            true,
            Expect::Nothing,
            false,
        ),
        Identify::Get => TransactionView::start(
            Command::Get().spec_exchanges(),
            true,
            Expect::Bootloader,
            true,
        ),
    }
}

/// The actions that reset the target, where there is a reset signal: the
/// signal is released, made active, held for the time that the probe gives,
/// and released.
pub open spec fn spec_pulse(probe: Probe) -> Seq<ActionView> {
    match probe.signal_scheme.reset {
        Some(reset) => seq![
            reset.spec_set(false),
            reset.spec_set(true),
            ActionView::Sleep(probe.reset_for),
            reset.spec_set(false),
        ],
        None => Seq::empty(),
    }
}

/// A [`Handshake`], as contracts speak of it.
pub struct HandshakeView {
    /// The parameters of identification.
    pub probe: Probe,
    /// What is done next.
    pub phase: Phase,
    /// The number of attempts that were begun.
    pub attempts: nat,
    /// The exchange of the attempt that is under way.
    pub exchange: TransactionView,
    /// The failure of the port that ended identification, if one did.
    pub failure: Option<Error>,
}

impl HandshakeView {
    /// Identification before anything is done.
    pub open spec fn start(probe: Probe) -> Self {
        HandshakeView {
            probe,
            phase: if probe.signal_scheme.boot is Some {
                Phase::BootAssert
            } else {
                Phase::EntryClear
            },
            attempts: 0,
            exchange: spec_attempt(probe.identify),
            failure: None,
        }
    }

    /// Identification when an attempt is due: every attempt has failed where
    /// as many were begun as the probe allows; else one more is begun, with a
    /// reset of the target where there is a reset signal.
    pub open spec fn begin(self) -> Self {
        if self.attempts >= self.probe.max_attempts {
            HandshakeView { phase: Phase::Unidentified, ..self }
        } else if self.probe.signal_scheme.reset is Some {
            HandshakeView { phase: Phase::PulseRelease, attempts: self.attempts + 1, ..self }
        } else {
            HandshakeView { phase: Phase::AttemptClear, attempts: self.attempts + 1, ..self }
        }
    }

    /// Identification when an exchange has ended well: the boot signal is
    /// released, where there is one, and the buffers are cleared.
    pub open spec fn release(self) -> Self {
        if self.probe.signal_scheme.boot is Some {
            HandshakeView { phase: Phase::BootRelease, ..self }
        } else {
            HandshakeView { phase: Phase::ExitClear, ..self }
        }
    }

    /// Whether identification has ended.
    pub open spec fn finished(self) -> bool {
        self.phase is Identified || self.phase is Unidentified || self.phase is Aborted
    }

    /// How far identification has come.
    pub open spec fn state(self) -> State {
        match self.phase {
            Phase::BootAssert => State::Idle,
            Phase::EntryClear => State::BootAsserted,
            Phase::PulseRelease | Phase::PulseAssert | Phase::PulseHold | Phase::PulseEnd =>
                State::ResetPulse,
            Phase::AttemptClear | Phase::Exchange | Phase::BootRelease | Phase::ExitClear =>
                State::AttemptSync,
            Phase::Identified => State::Identified,
            Phase::Unidentified => State::Unidentified,
            Phase::Aborted => State::Aborted,
        }
    }

    /// How identification ended, once it has.
    pub open spec fn result(self) -> Option<Result<(), Error>> {
        match self.phase {
            Phase::Identified => Some(Ok(())),
            Phase::Unidentified => Some(Err(Error::Unidentified)),
            Phase::Aborted => Some(Err(self.failure.unwrap())),
            _ => None,
        }
    }

    /// What holds of identification at every time: a signal that is driven is
    /// there, no more attempts are begun than the probe allows, and the
    /// exchange under way has not ended.
    pub open spec fn wf(self) -> bool {
        &&& self.exchange.wf()
        &&& self.attempts <= self.probe.max_attempts
        &&& match self.phase {
            Phase::BootAssert | Phase::BootRelease => self.probe.signal_scheme.boot is Some,
            Phase::PulseRelease | Phase::PulseAssert | Phase::PulseHold | Phase::PulseEnd =>
                self.probe.signal_scheme.reset is Some,
            Phase::Exchange => !self.exchange.finished(),
            Phase::Aborted => self.failure is Some,
            _ => true,
        }
    }

    /// What identification asks to be done next.
    pub open spec fn pending(self) -> ActionView {
        match self.phase {
            Phase::BootAssert => self.probe.signal_scheme.boot.unwrap().spec_set(true),
            Phase::EntryClear => ActionView::ClearBuffers,
            Phase::PulseRelease => self.probe.signal_scheme.reset.unwrap().spec_set(false),
            Phase::PulseAssert => self.probe.signal_scheme.reset.unwrap().spec_set(true),
            Phase::PulseHold => ActionView::Sleep(self.probe.reset_for),
            Phase::PulseEnd => self.probe.signal_scheme.reset.unwrap().spec_set(false),
            Phase::AttemptClear => ActionView::ClearBuffers,
            Phase::Exchange => self.exchange.pending(),
            Phase::BootRelease => self.probe.signal_scheme.boot.unwrap().spec_set(false),
            Phase::ExitClear => ActionView::ClearBuffers,
            Phase::Identified => ActionView::Finish,
            Phase::Unidentified => ActionView::Finish,
            Phase::Aborted => ActionView::Finish,
        }
    }

    /// Identification after the exchange under way has become `exchange`: it
    /// goes on while the exchange does; an exchange that ended well identifies
    /// the target; one that failed, for whatever reason, is a failed attempt,
    /// and the next attempt is due.
    pub open spec fn exchanged(self, exchange: TransactionView) -> Self {
        let taken = HandshakeView { exchange, ..self };
        match exchange.outcome {
            None => taken,
            Some(Ok(_)) => taken.release(),
            Some(Err(_)) => taken.begin(),
        }
    }

    /// Identification after what it asked for had the outcome `event`.
    ///
    /// Within an exchange the event goes to the exchange. Elsewhere a failure
    /// ends identification, with that failure; any other event lets the next
    /// step follow. Identification that has ended stays as it is.
    pub open spec fn next(self, event: EventView) -> Self {
        if self.finished() {
            self
        } else if self.phase is Exchange {
            self.exchanged(self.exchange.step(event))
        } else if event is Failed {
            HandshakeView { phase: Phase::Aborted, failure: Some(event->Failed_0), ..self }
        } else {
            match self.phase {
                Phase::BootAssert => HandshakeView { phase: Phase::EntryClear, ..self },
                Phase::EntryClear => self.begin(),
                Phase::PulseRelease => HandshakeView { phase: Phase::PulseAssert, ..self },
                Phase::PulseAssert => HandshakeView { phase: Phase::PulseHold, ..self },
                Phase::PulseHold => HandshakeView { phase: Phase::PulseEnd, ..self },
                Phase::PulseEnd => HandshakeView { phase: Phase::AttemptClear, ..self },
                Phase::AttemptClear => HandshakeView {
                    phase: Phase::Exchange,
                    exchange: spec_attempt(self.probe.identify),
                    ..self
                },
                Phase::BootRelease => HandshakeView { phase: Phase::ExitClear, ..self },
                Phase::ExitClear => HandshakeView { phase: Phase::Identified, ..self },
                _ => self,
            }
        }
    }
}

/// The exchange of an attempt is well formed and has a piece to write.
pub proof fn lemma_attempt_starts(identify: Identify)
    ensures
        spec_attempt(identify).wf(),
        !spec_attempt(identify).finished(),
        identify is Handshake ==> spec_attempt(identify).pending() == ActionView::Write(
            seq![SYNCHRONIZE],
        ),
        identify is Get ==> spec_attempt(identify).pending() == ActionView::Write(
            seq![0x00u8, 0xffu8],
        ),
{
    assert(Command::Get().spec_exchanges()[0] =~= seq![0x00u8, 0xffu8]) by {
        assert(crate::command::spec_concat(Command::Get().spec_fields()) =~= Seq::<u8>::empty());
        assert(0x00u8 ^ 0xff == 0xffu8) by (bit_vector);
    }
}

/// Identification starts well formed and stays so, with the probe that it
/// started with.
pub proof fn lemma_next_keeps_wf(handshake: HandshakeView, event: EventView)
    requires
        handshake.wf(),
    ensures
        handshake.next(event).wf(),
        handshake.next(event).probe == handshake.probe,
        HandshakeView::start(handshake.probe).wf(),
{
    lemma_attempt_starts(handshake.probe.identify);
    crate::session::lemma_step_keeps_wf(handshake.exchange, event);
}

/// Identification of one target, as far as it has come.
#[derive(Debug)]
pub struct Handshake {
    probe: Probe,
    phase: Phase,
    attempts: usize,
    exchange: Transaction,
    failure: Option<Error>,
}

impl View for Handshake {
    type V = HandshakeView;

    closed spec fn view(&self) -> HandshakeView {
        HandshakeView {
            probe: self.probe,
            phase: self.phase,
            attempts: self.attempts as nat,
            exchange: self.exchange@,
            failure: self.failure,
        }
    }
}

/// Makes the exchange that one attempt tries.
pub fn attempt(identify: Identify) -> (exchange: Transaction)
    ensures
        exchange@ == spec_attempt(identify),
        exchange@.wf(),
        !exchange@.finished(),
{
    proof {
        lemma_attempt_starts(identify);
    }
    match identify {
        Identify::Handshake => {
            let frame = Command::Synchronize.encode();
            assert(frame@ =~= seq![SYNCHRONIZE]);
            Transaction::send_reliable(frame)
        },
        Identify::Get => Transaction::read_bootloader(),
    }
}

impl Handshake {
    #[verifier::type_invariant]
    spec fn well_formed(self) -> bool {
        self@.wf()
    }

    /// Makes the identification of a target with the parameters of `probe`.
    pub fn new(probe: &Probe) -> (handshake: Self)
        ensures
            handshake@ == HandshakeView::start(*probe),
            handshake@.wf(),
    {
        let phase = if probe.signal_scheme.boot.is_some() {
            Phase::BootAssert
        } else {
            Phase::EntryClear
        };
        Handshake {
            probe: *probe,
            phase,
            attempts: 0,
            exchange: attempt(probe.identify),
            failure: None,
        }
    }

    fn begin(self) -> (next: Self)
        ensures
            next@ == self@.begin(),
    {
        proof {
            use_type_invariant(&self);
        }
        if self.attempts >= self.probe.max_attempts {
            Handshake { phase: Phase::Unidentified, ..self }
        } else if self.probe.signal_scheme.reset.is_some() {
            Handshake { phase: Phase::PulseRelease, attempts: self.attempts + 1, ..self }
        } else {
            Handshake { phase: Phase::AttemptClear, attempts: self.attempts + 1, ..self }
        }
    }

    /// Whether identification has ended.
    pub fn is_finished(&self) -> (finished: bool)
        ensures
            finished == self@.finished(),
    {
        matches!(self.phase, Phase::Identified | Phase::Unidentified | Phase::Aborted)
    }

    /// Returns how far identification has come.
    pub fn state(&self) -> (state: State)
        ensures
            state == self@.state(),
    {
        match self.phase {
            Phase::BootAssert => State::Idle,
            Phase::EntryClear => State::BootAsserted,
            Phase::PulseRelease | Phase::PulseAssert | Phase::PulseHold | Phase::PulseEnd =>
                State::ResetPulse,
            Phase::AttemptClear | Phase::Exchange | Phase::BootRelease | Phase::ExitClear =>
                State::AttemptSync,
            Phase::Identified => State::Identified,
            Phase::Unidentified => State::Unidentified,
            Phase::Aborted => State::Aborted,
        }
    }

    /// Returns the number of attempts that were begun.
    pub fn attempts(&self) -> (attempts: usize)
        ensures
            attempts == self@.attempts,
            attempts <= self@.probe.max_attempts,
    {
        proof {
            use_type_invariant(self);
        }
        self.attempts
    }

    /// Returns what to do next on the port.
    pub fn action(&self) -> (action: Action)
        ensures
            action@ == self@.pending(),
    {
        proof {
            use_type_invariant(self);
        }
        match self.phase {
            Phase::BootAssert => match self.probe.signal_scheme.boot {
                Some(signal) => signal.set(true),
                None => Action::Finish,
            },
            Phase::EntryClear => Action::ClearBuffers,
            Phase::PulseRelease => match self.probe.signal_scheme.reset {
                Some(signal) => signal.set(false),
                None => Action::Finish,
            },
            Phase::PulseAssert => match self.probe.signal_scheme.reset {
                Some(signal) => signal.set(true),
                None => Action::Finish,
            },
            Phase::PulseHold => Action::Sleep(self.probe.reset_for),
            Phase::PulseEnd => match self.probe.signal_scheme.reset {
                Some(signal) => signal.set(false),
                None => Action::Finish,
            },
            Phase::AttemptClear => Action::ClearBuffers,
            Phase::Exchange => self.exchange.action(),
            Phase::BootRelease => match self.probe.signal_scheme.boot {
                Some(signal) => signal.set(false),
                None => Action::Finish,
            },
            Phase::ExitClear => Action::ClearBuffers,
            Phase::Identified => Action::Finish,
            Phase::Unidentified => Action::Finish,
            Phase::Aborted => Action::Finish,
        }
    }

    /// Takes what came of the action that was asked for, and moves on.
    pub fn handle(self, event: Event) -> (next: Self)
        ensures
            next@ == self@.next(event@),
            next@.wf(),
    {
        proof {
            use_type_invariant(&self);
            lemma_next_keeps_wf(self@, event@);
        }
        match self.phase {
            Phase::Identified | Phase::Unidentified | Phase::Aborted => {
                return self;
            },
            Phase::Exchange => {
                let Handshake { probe, phase, attempts, exchange, failure } = self;
                let exchange = exchange.handle(event);
                let ended = match exchange.outcome() {
                    None => None,
                    Some(Ok(_)) => Some(true),
                    Some(Err(_)) => Some(false),
                };
                match ended {
                    None => Handshake { probe, phase, attempts, exchange, failure },
                    Some(true) => {
                        let phase = if probe.signal_scheme.boot.is_some() {
                            Phase::BootRelease
                        } else {
                            Phase::ExitClear
                        };
                        Handshake { probe, phase, attempts, exchange, failure }
                    },
                    Some(false) => {
                        if attempts >= probe.max_attempts {
                            Handshake {
                                probe,
                                phase: Phase::Unidentified,
                                attempts,
                                exchange,
                                failure,
                            }
                        } else if probe.signal_scheme.reset.is_some() {
                            Handshake {
                                probe,
                                phase: Phase::PulseRelease,
                                attempts: attempts + 1,
                                exchange,
                                failure,
                            }
                        } else {
                            Handshake {
                                probe,
                                phase: Phase::AttemptClear,
                                attempts: attempts + 1,
                                exchange,
                                failure,
                            }
                        }
                    },
                }
            },
            _ => {
                if let Event::Failed(error) = event {
                    return Handshake { phase: Phase::Aborted, failure: Some(error), ..self };
                }
                match self.phase {
                    Phase::BootAssert => Handshake { phase: Phase::EntryClear, ..self },
                    Phase::EntryClear => self.begin(),
                    Phase::PulseRelease => Handshake { phase: Phase::PulseAssert, ..self },
                    Phase::PulseAssert => Handshake { phase: Phase::PulseHold, ..self },
                    Phase::PulseHold => Handshake { phase: Phase::PulseEnd, ..self },
                    Phase::PulseEnd => Handshake { phase: Phase::AttemptClear, ..self },
                    Phase::AttemptClear => {
                        let exchange = attempt(self.probe.identify);
                        Handshake { phase: Phase::Exchange, exchange, ..self }
                    },
                    Phase::BootRelease => Handshake { phase: Phase::ExitClear, ..self },
                    Phase::ExitClear => Handshake { phase: Phase::Identified, ..self },
                    _ => self,
                }
            },
        }
    }

    /// Returns how identification ended, once it has: well, with no attempt
    /// that succeeded, or with the failure of the port.
    pub fn result(self) -> (result: Option<Result<(), Error>>)
        ensures
            result == self@.result(),
    {
        proof {
            use_type_invariant(&self);
        }
        match self.phase {
            Phase::Identified => Some(Ok(())),
            Phase::Unidentified => Some(Err(Error::Unidentified)),
            Phase::Aborted => match self.failure {
                Some(error) => Some(Err(error)),
                None => None,
            },
            _ => None,
        }
    }
}

} // verus!
