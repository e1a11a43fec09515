//! Host side of the AN3155 USART bootloader protocol.
//!
//! The library holds the protocol and no port. The wire values and their
//! codec are in [`protocol`], [`slice`], [`command`] and [`reply`]. An
//! operation on a target is a state machine that says what to do on the port
//! and takes what came of it: an exchange is a [`Transaction`], and the
//! identification of a target is a [`Handshake`]. A [`Programmer`] holds a
//! connection of the caller's and hands the operations out. What the state
//! machines do in front of a target that behaves in a given way is proved in
//! [`targets`].

pub mod checksum;
pub mod cli;
pub mod command;
pub mod error;
pub mod handshake;
pub mod probe;
pub mod programmer;
pub mod protocol;
pub mod reply;
pub mod session;
pub mod shell;
pub mod slice;
pub mod targets;
pub mod text;
pub mod transport;

pub use error::{Error, IoError, IoErrorKind, SerialError, SerialErrorKind};
pub use handshake::{Handshake, State};
pub use probe::{Baudrate, Identify, Probe, ProbeBuilder, Signal, SignalScheme, SignalSchemeBuilder};
pub use programmer::{DataBits, FlowControl, Parity, PortSettings, Programmer, StopBits};
pub use session::{Expect, Transaction};
pub use transport::{Action, Event, Line};

pub use command::{Command, Erase, ExtendedErase};
pub use protocol::{Address, Encode, FrameError, Opcode, Size};
pub use reply::{Bootloader, Id, Reply, ReplySet, Version};

pub use slice::{Slice, SliceItem};
pub use slice::{Byte, Data, ExtendedPage, ExtendedPageNo, ExtendedPageNos, Page, PageNo, PageNos};
pub use slice::{Sector, SectorNo, SectorNos};
