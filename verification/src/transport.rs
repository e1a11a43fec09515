//! The serial port as the protocol sees it: what is done on it, one action at
//! a time, and what comes back.
//!
//! The library never touches a port. It says what to do next, as an
//! [`Action`]; its user does that on the port and hands back what came of it,
//! as an [`Event`].

use crate::error::Error;
use crate::probe::Signal;
use std::time::Duration;
use vstd::prelude::*;

verus! {

/// A modem control output of the serial port.
#[derive(Debug, Clone, Copy, PartialEq, Eq, Structural)]
pub enum Line {
    /// Request to send.
    Rts,
    /// Data terminal ready.
    Dtr,
}

/// One thing to do on the serial port.
#[derive(Debug, Clone, PartialEq, Eq)]
pub enum Action {
    /// Put `level` on the output `line`.
    SetLine { line: Line, level: bool },
    /// Wait for the duration.
    Sleep(Duration),
    /// Discard what the port holds in its input and output buffers.
    ClearBuffers,
    /// Write the bytes.
    Write(Vec<u8>),
    /// Read just that many bytes.
    Read(usize),
    /// Nothing: the operation is over.
    Finish,
}

/// An [`Action`], as contracts speak of it.
pub enum ActionView {
    SetLine { line: Line, level: bool },
    Sleep(Duration),
    ClearBuffers,
    Write(Seq<u8>),
    Read(usize),
    Finish,
}

impl View for Action {
    type V = ActionView;

    open spec fn view(&self) -> ActionView {
        match *self {
            Action::SetLine { line, level } => ActionView::SetLine { line, level },
            Action::Sleep(duration) => ActionView::Sleep(duration),
            Action::ClearBuffers => ActionView::ClearBuffers,
            Action::Write(bytes) => ActionView::Write(bytes@),
            Action::Read(count) => ActionView::Read(count),
            Action::Finish => ActionView::Finish,
        }
    }
}

/// What came of an [`Action`].
#[derive(Debug, Clone, PartialEq, Eq)]
pub enum Event {
    /// The action was done.
    Done,
    /// The bytes that were read.
    Data(Vec<u8>),
    /// The action failed.
    Failed(Error),
}

/// An [`Event`], as contracts speak of it.
pub enum EventView {
    Done,
    Data(Seq<u8>),
    Failed(Error),
}

impl View for Event {
    type V = EventView;

    open spec fn view(&self) -> EventView {
        match *self {
            Event::Done => EventView::Done,
            Event::Data(bytes) => EventView::Data(bytes@),
            Event::Failed(error) => EventView::Failed(error),
        }
    }
}

impl EventView {
    /// The bytes that the event hands over: those that were read, else none.
    pub open spec fn bytes(self) -> Seq<u8> {
        match self {
            EventView::Data(bytes) => bytes,
            _ => Seq::empty(),
        }
    }
}

impl Signal {
    /// The output that carries the signal.
    pub open spec fn spec_line(self) -> Line {
        match self {
            Signal::Rts { .. } => Line::Rts,
            Signal::Dtr { .. } => Line::Dtr,
        }
    }

    /// The action that makes the signal active, or not.
    pub open spec fn spec_set(self, active: bool) -> ActionView {
        ActionView::SetLine { line: self.spec_line(), level: self.spec_raw_level(active) }
    }

    /// Returns the output that carries the signal.
    pub fn line(&self) -> (line: Line)
        ensures
            line == self.spec_line(),
    {
        match self {
            Signal::Rts { .. } => Line::Rts,
            Signal::Dtr { .. } => Line::Dtr,
        }
    }

    /// Returns the action that makes the signal active (`active` true) or
    /// not: the level that this takes goes on the output of the signal.
    pub fn set(&self, active: bool) -> (action: Action)
        ensures
            action@ == self.spec_set(active),
    {
        Action::SetLine { line: self.line(), level: self.raw_level(active) }
    }
}

} // verus!
