//! The programmer: one connection to a target, with the parameters that it
//! was opened with, and the operations of the protocol on it.
//!
//! The programmer holds the connection and never uses it: each operation is
//! handed out as a state machine, or as the actions to do, and whoever owns
//! the port carries it out.

use crate::command::Command;
use crate::error::Error;
use crate::error::IoError;
use crate::error::IoErrorKind;
use crate::handshake::spec_pulse;
use crate::handshake::Handshake;
use crate::handshake::HandshakeView;
use crate::probe::Baudrate;
use crate::probe::Probe;
use crate::probe::Signal;
use crate::protocol::Address;
use crate::protocol::Encode;
use crate::protocol::Size;
use crate::session::Expect;
use crate::session::Transaction;
use crate::session::TransactionView;
use crate::slice::Data;
use crate::transport::Action;
use crate::transport::ActionView;
use std::time::Duration;
use vstd::prelude::*;

verus! {

/// The number of bits of a character on the line.
#[derive(Debug, Clone, Copy, PartialEq, Eq, Structural)]
pub enum DataBits {
    Five,
    Six,
    Seven,
    Eight,
}

/// The parity bit of a character on the line.
#[derive(Debug, Clone, Copy, PartialEq, Eq, Structural)]
pub enum Parity {
    Disabled,
    Odd,
    Even,
}

/// The number of stop bits of a character on the line.
#[derive(Debug, Clone, Copy, PartialEq, Eq, Structural)]
pub enum StopBits {
    One,
    Two,
}

/// How the two ends of the line hold each other back.
#[derive(Debug, Clone, Copy, PartialEq, Eq, Structural)]
pub enum FlowControl {
    Disabled,
    Software,
    Hardware,
}

/// The parameters with which the serial port is opened.
#[derive(Debug, Clone, Copy, PartialEq, Eq)]
pub struct PortSettings {
    pub baudrate: Baudrate,
    pub data_bits: DataBits,
    pub parity: Parity,
    pub stop_bits: StopBits,
    pub flow_control: FlowControl,
    pub timeout: Duration,
}

/// The parameters for a target that is probed with `probe`: the protocol
/// fixes eight data bits, even parity, one stop bit and no flow control; the
/// probe gives the baudrate and the time after which a read gives up.
pub open spec fn spec_port(probe: Probe) -> PortSettings {
    PortSettings {
        baudrate: probe.baudrate,
        data_bits: DataBits::Eight,
        parity: Parity::Even,
        stop_bits: StopBits::One,
        flow_control: FlowControl::Disabled,
        timeout: probe.timeout,
    }
}

/// What a read of all that the target has sent gives, when `read` was read
/// and the read ended with `failure`: a read that times out has read all
/// there is.
pub open spec fn spec_read_all(read: Vec<u8>, failure: Option<IoError>) -> Result<Vec<u8>, Error> {
    match failure {
        None => Ok(read),
        Some(error) => if error.kind is TimedOut {
            Ok(read)
        } else {
            Err(Error::Io(error))
        },
    }
}

/// The actions of `actions`, as contracts speak of them.
pub open spec fn spec_actions(actions: Seq<Action>) -> Seq<ActionView> {
    Seq::new(actions.len(), |i: int| actions[i]@)
}

/// A connection to a target, with the parameters that it was opened with.
///
/// One programmer owns one connection; `P` is the type of the connection.
#[derive(Debug)]
pub struct Programmer<P> {
    port: P,
    probe: Probe,
}

/// The targets that were identified among `attempts`, in their order.
pub open spec fn spec_discover<P>(attempts: Seq<Result<Programmer<P>, Error>>) -> Seq<
    Programmer<P>,
>
    decreases attempts.len(),
{
    if attempts.len() == 0 {
        Seq::empty()
    } else {
        let before = spec_discover(attempts.drop_last());
        match attempts.last() {
            Ok(programmer) => before.push(programmer),
            Err(_) => before,
        }
    }
}

impl<P> Programmer<P> {
    /// The connection.
    pub closed spec fn spec_inner(&self) -> P {
        self.port
    }

    /// The parameters that the connection was opened with.
    pub closed spec fn spec_probe(&self) -> Probe {
        self.probe
    }

    /// Returns what a read of all that the target has sent gives, when `read`
    /// was read and the read ended with `failure`.
    ///
    /// A read that times out has read all there is; any other failure is
    /// handed on.
    pub fn read_all(read: Vec<u8>, failure: Option<IoError>) -> (all: Result<Vec<u8>, Error>)
        ensures
            all == spec_read_all(read, failure),
    {
        match failure {
            None => Ok(read),
            Some(error) => {
                if matches!(error.kind, IoErrorKind::TimedOut) {
                    Ok(read)
                } else {
                    Err(Error::Io(error))
                }
            },
        }
    }

    /// Returns the parameters with which the serial port of a target is
    /// opened.
    pub fn port(probe: &Probe) -> (settings: PortSettings)
        ensures
            settings == spec_port(*probe),
    {
        PortSettings {
            baudrate: probe.baudrate(),
            data_bits: DataBits::Eight,
            parity: Parity::Even,
            stop_bits: StopBits::One,
            flow_control: FlowControl::Disabled,
            timeout: probe.timeout(),
        }
    }

    /// Makes a programmer of a connection that is open, without identifying
    /// the target.
    pub fn attach(port: P, probe: &Probe) -> (programmer: Self)
        ensures
            programmer.spec_inner() == port,
            programmer.spec_probe() == *probe,
    {
        Programmer { port, probe: *probe }
    }

    /// Makes a programmer of a connection on which identification ended with
    /// `identified`: where it failed, the connection is dropped and the
    /// failure is handed on.
    pub fn open(port: P, probe: &Probe, identified: Result<(), Error>) -> (opened: Result<
        Self,
        Error,
    >)
        ensures
            match identified {
                Ok(_) => opened matches Ok(programmer) && programmer.spec_inner() == port
                    && programmer.spec_probe() == *probe,
                Err(error) => opened matches Err(e) && e == error,
            },
    {
        match identified {
            Ok(_) => Ok(Programmer::attach(port, probe)),
            Err(error) => Err(error),
        }
    }

    /// Returns the exchange that writes `data` and awaits nothing.
    pub fn send<T: Encode>(&self, data: &T) -> (tx: Transaction)
        ensures
            tx@ == TransactionView::start(seq![data.wire()], false, Expect::Nothing, false),
            tx@.wf(),
    {
        Transaction::send(data.encode())
    }

    /// Returns the exchange that writes `data` and awaits the reply of the
    /// target: it ends well where the target acknowledges, with a negative
    /// acknowledgement where the target refuses.
    pub fn send_reliable<T: Encode>(&self, data: &T) -> (tx: Transaction)
        ensures
            tx@ == TransactionView::start(seq![data.wire()], true, Expect::Nothing, false),
            tx@.wf(),
    {
        Transaction::send_reliable(data.encode())
    }

    /// Returns the exchange that reads the answer `expect`.
    pub fn recv(&self, expect: Expect) -> (tx: Transaction)
        ensures
            tx@ == TransactionView::start(Seq::empty(), false, expect, false),
            tx@.wf(),
    {
        Transaction::recv(expect)
    }

    /// Returns the exchange that reads the answer `expect` and confirms it to
    /// the target.
    pub fn recv_reliable(&self, expect: Expect) -> (tx: Transaction)
        ensures
            tx@ == TransactionView::start(Seq::empty(), false, expect, true),
            tx@.wf(),
    {
        Transaction::recv_reliable(expect)
    }

    /// Returns the exchange that sends `command`: the operation code, the
    /// address, and the size or the data of a read or a write are a piece
    /// each, and so are the operation code and the pages of an erase; every
    /// other command is one piece. The target acknowledges each piece.
    pub fn send_command(&self, command: &Command) -> (tx: Transaction)
        ensures
            tx@ == TransactionView::start(command.spec_exchanges(), true, Expect::Nothing, false),
            tx@.wf(),
    {
        Transaction::send_command(command)
    }

    /// Returns the action that makes `signal` active (`active` true) or not.
    pub fn set_signal(&self, signal: Signal, active: bool) -> (action: Action)
        ensures
            action@ == signal.spec_set(active),
    {
        signal.set(active)
    }

    /// Returns the action that makes the boot signal active, or not; none
    /// where the target has no boot signal.
    pub fn set_boot(&self, active: bool) -> (action: Option<Action>)
        ensures
            match self.spec_probe().signal_scheme.boot {
                Some(signal) => action matches Some(a) && a@ == signal.spec_set(active),
                None => action is None,
            },
    {
        match self.probe.signal_boot() {
            Some(signal) => Some(signal.set(active)),
            None => None,
        }
    }

    /// Returns the action that makes the reset signal active, or not; none
    /// where the target has no reset signal.
    pub fn set_reset(&self, active: bool) -> (action: Option<Action>)
        ensures
            match self.spec_probe().signal_scheme.reset {
                Some(signal) => action matches Some(a) && a@ == signal.spec_set(active),
                None => action is None,
            },
    {
        match self.probe.signal_reset() {
            Some(signal) => Some(signal.set(active)),
            None => None,
        }
    }

    /// Returns the actions that reset the target: the reset signal is
    /// released, made active, held for the time that the probe gives, and
    /// released. None where the target has no reset signal.
    pub fn reset(&self) -> (actions: Vec<Action>)
        ensures
            spec_actions(actions@) == spec_pulse(self.spec_probe()),
    {
        let mut actions: Vec<Action> = Vec::new();
        match self.probe.signal_reset() {
            Some(signal) => {
                actions.push(signal.set(false));
                actions.push(signal.set(true));
                actions.push(Action::Sleep(self.probe.reset_for()));
                actions.push(signal.set(false));
            },
            None => {},
        }
        assert(spec_actions(actions@) =~= spec_pulse(self.spec_probe()));
        actions
    }

    /// Returns the identification of the target, before anything is done.
    pub fn identify(&self) -> (handshake: Handshake)
        ensures
            handshake@ == HandshakeView::start(self.spec_probe()),
            handshake@.wf(),
    {
        Handshake::new(&self.probe)
    }

    /// Returns the targets that were identified among `attempts`, in their
    /// order. The attempts that failed are dropped, with their failures.
    pub fn discover(attempts: Vec<Result<Self, Error>>) -> (found: Vec<Self>)
        ensures
            found@ == spec_discover(attempts@),
    {
        let mut attempts = attempts;
        let ghost all = attempts@;
        let mut kept: Vec<Self> = Vec::new();
        // The attempts are taken from the end, so `kept` holds the targets in
        // reverse order.
        while attempts.len() > 0
            invariant
                attempts@ == all.take(attempts@.len() as int),
                attempts@.len() <= all.len(),
                spec_discover(all) == spec_discover(attempts@) + kept@.reverse(),
            decreases attempts@.len(),
        {
            let ghost before = attempts@;
            let ghost kept_before = kept@;
            let attempt = attempts.pop();
            proof {
                assert(attempts@ =~= before.drop_last());
                assert(attempts@ =~= all.take(attempts@.len() as int));
            }
            match attempt {
                Some(Ok(programmer)) => {
                    kept.push(programmer);
                    proof {
                        assert(kept@.reverse() =~= seq![programmer] + kept_before.reverse());
                        assert(spec_discover(before) + kept_before.reverse() =~= spec_discover(
                            attempts@,
                        ) + kept@.reverse());
                    }
                },
                _ => {},
            }
        }
        let ghost reversed = kept@;
        let mut found: Vec<Self> = Vec::new();
        while kept.len() > 0
            invariant
                kept@ == reversed.take(kept@.len() as int),
                kept@.len() <= reversed.len(),
                reversed.reverse() == found@ + kept@.reverse(),
            decreases kept@.len(),
        {
            let ghost before = kept@;
            let ghost found_before = found@;
            let programmer = kept.pop();
            proof {
                assert(kept@ =~= before.drop_last());
                assert(kept@ =~= reversed.take(kept@.len() as int));
            }
            match programmer {
                Some(programmer) => {
                    found.push(programmer);
                    proof {
                        assert(before.reverse() =~= seq![programmer] + kept@.reverse());
                        assert(found_before + before.reverse() =~= found@ + kept@.reverse());
                    }
                },
                None => {},
            }
        }
        proof {
            assert(kept@.reverse() =~= Seq::<Self>::empty());
            assert(attempts@ =~= Seq::<Result<Self, Error>>::empty());
            assert(found@ =~= reversed.reverse());
            assert(spec_discover(all) =~= reversed.reverse());
        }
        found
    }

    /// Returns the exchange that asks the target for the version of its
    /// bootloader and the operations that it supports.
    pub fn read_bootloader(&self) -> (tx: Transaction)
        ensures
            tx@ == TransactionView::start(
                Command::Get().spec_exchanges(),
                true,
                Expect::Bootloader,
                true,
            ),
            tx@.wf(),
    {
        Transaction::read_bootloader()
    }

    /// Returns the exchange that asks the target for its version and option
    /// bytes.
    pub fn read_version(&self) -> (tx: Transaction)
        ensures
            tx@ == TransactionView::start(
                Command::Version().spec_exchanges(),
                true,
                Expect::Version,
                true,
            ),
            tx@.wf(),
    {
        Transaction::read_version()
    }

    /// Returns the exchange that asks the target for the identifier of its
    /// chip.
    pub fn read_id(&self) -> (tx: Transaction)
        ensures
            tx@ == TransactionView::start(Command::Id().spec_exchanges(), true, Expect::Id, true),
            tx@.wf(),
    {
        Transaction::read_id()
    }

    /// Returns the exchange that reads `size` bytes of memory from `address`
    /// on. A size that is not from 1 to 256 is refused before anything is
    /// sent.
    pub fn read_memory(&self, address: u32, size: usize) -> (made: Result<Transaction, Error>)
        ensures
            1 <= size <= 256 ==> (made matches Ok(tx) && tx@.wf() && tx@ == TransactionView::start(
                (Command::Read {
                    address: Address(address),
                    size: Size::spec_new(size as int),
                }).spec_exchanges(),
                true,
                Expect::Memory(Size::spec_new(size as int)),
                false,
            )),
            !(1 <= size <= 256) ==> (made matches Err(Error::ProtocolConversion(error))
                && error.exceeded(size, 1, 256)),
    {
        Transaction::read_memory(address, size)
    }

    /// Returns the exchange that writes `data` to memory from `address` on:
    /// the whole command goes out in one piece, which the target
    /// acknowledges.
    pub fn write_memory(&self, address: u32, data: Data) -> (tx: Transaction)
        ensures
            tx@ == TransactionView::start(
                seq![(Command::Write { address: Address(address), data }).wire()],
                true,
                Expect::Nothing,
                false,
            ),
            tx@.wf(),
    {
        Transaction::write_memory(address, data)
    }

    /// Returns the connection.
    pub fn inner(&self) -> (port: &P)
        ensures
            *port == self.spec_inner(),
    {
        &self.port
    }

    /// Returns the connection, for the caller to work on.
    pub fn inner_mut(&mut self) -> (port: &mut P)
        ensures
            *port == old(self).spec_inner(),
            final(self).spec_inner() == *final(port),
            final(self).spec_probe() == old(self).spec_probe(),
    {
        &mut self.port
    }

    /// Returns the parameters that the connection was opened with.
    pub fn probe(&self) -> (probe: &Probe)
        ensures
            *probe == self.spec_probe(),
    {
        &self.probe
    }

    /// Gives the connection up.
    pub fn into_inner(self) -> (port: P)
        ensures
            port == self.spec_inner(),
    {
        self.port
    }
}

} // verus!
