//! One exchange with the target: pieces that are written, each confirmed by
//! the target where the exchange is reliable, and an answer that is read and
//! confirmed by the host.
//!
//! A [`Transaction`] is a state machine. [`Transaction::action`] says what to
//! do on the port; [`Transaction::handle`] takes what came of it. The rules
//! are those of [`TransactionView::step`].

use crate::command::Command;
use crate::error::Error;
use crate::protocol::Address;
use crate::protocol::Encode;
use crate::protocol::FrameError;
use crate::protocol::Size;
use crate::reply::spec_opcodes;
use crate::reply::Bootloader;
use crate::reply::Id;
use crate::reply::Reply;
use crate::reply::ReplySet;
use crate::reply::Version;
use crate::reply::ACK;
use crate::slice::Data;
use crate::transport::Action;
use crate::transport::ActionView;
use crate::transport::Event;
use crate::transport::EventView;
use vstd::prelude::*;

verus! {

/// The answer that a transaction reads once its pieces are written.
#[derive(Debug, Clone, Copy, PartialEq, Eq, Structural)]
pub enum Expect {
    /// No answer.
    Nothing,
    /// The answer to the get command: a length field, the version, and as
    /// many operation codes as the length field says.
    Bootloader,
    /// The answer to the version command: three bytes.
    Version,
    /// The answer to the id command: a length field and one byte more than
    /// it says.
    Id,
    /// Bytes of memory: as many as the size says.
    Memory(Size),
}

impl Expect {
    /// The number of bytes that are read first.
    pub open spec fn spec_head_len(self) -> nat {
        match self {
            Expect::Nothing => 0,
            Expect::Bootloader => 1,
            Expect::Version => 3,
            Expect::Id => 1,
            Expect::Memory(size) => size.spec_count() as nat,
        }
    }

    /// The number of bytes that are read after the first, which `head` are.
    pub open spec fn spec_tail_len(self, head: Seq<u8>) -> nat {
        match self {
            Expect::Bootloader => (head[0] + 1) as nat,
            Expect::Id => (head[0] + 1) as nat,
            _ => 0,
        }
    }

    /// Returns the number of bytes that are read first.
    fn head_len(&self) -> (len: usize)
        ensures
            len == self.spec_head_len(),
            !(*self is Nothing) ==> len >= 1,
    {
        match self {
            Expect::Nothing => 0,
            Expect::Bootloader => 1,
            Expect::Version => 3,
            Expect::Id => 1,
            Expect::Memory(size) => size.count(),
        }
    }

    /// Returns the number of bytes that are read after the first, which
    /// `head` are.
    fn tail_len(&self, head: &[u8]) -> (len: usize)
        requires
            head@.len() == self.spec_head_len(),
        ensures
            len == self.spec_tail_len(head@),
    {
        match self {
            Expect::Bootloader => head[0] as usize + 1,
            Expect::Id => head[0] as usize + 1,
            _ => 0,
        }
    }
}

/// What a transaction is about to do.
#[derive(Debug, Clone, Copy, PartialEq, Eq, Structural)]
pub enum Stage {
    /// Write the next piece.
    Write,
    /// Read the reply of the target to the piece written.
    Reply,
    /// Read the first bytes of the answer.
    Head,
    /// Read the rest of the answer.
    Tail,
    /// Confirm the answer to the target.
    Confirm,
}

/// A [`Transaction`], as contracts speak of it.
pub struct TransactionView {
    /// The pieces to write, in order.
    pub frames: Seq<Seq<u8>>,
    /// Whether the target confirms each piece.
    pub reliable: bool,
    /// The replies that the target gives.
    pub replies: ReplySet,
    /// The answer to read when the pieces are written.
    pub expect: Expect,
    /// Whether the host confirms the answer.
    pub confirm: bool,
    /// What is done next, while there is no outcome.
    pub stage: Stage,
    /// The number of pieces that are written, and confirmed where the
    /// exchange is reliable.
    pub sent: nat,
    /// The bytes of the answer that are read.
    pub received: Seq<u8>,
    /// How the transaction ended, once it has: with the bytes of the answer,
    /// or with the first failure.
    pub outcome: Option<Result<Seq<u8>, Error>>,
}

impl TransactionView {
    /// The transaction that has ended with `outcome`.
    pub open spec fn finish(self, outcome: Result<Seq<u8>, Error>) -> Self {
        TransactionView { outcome: Some(outcome), ..self }
    }

    /// The transaction once the answer is read, which `received` is: the host
    /// confirms it where that is asked for, and the transaction ends with the
    /// answer.
    pub open spec fn answered(self, received: Seq<u8>) -> Self {
        if self.confirm {
            TransactionView { stage: Stage::Confirm, received, ..self }
        } else {
            TransactionView { received, ..self }.finish(Ok(received))
        }
    }

    /// The transaction once `sent` pieces are written: the next piece is
    /// written; after the last, the answer is read, where one is expected.
    pub open spec fn proceed(self, sent: nat) -> Self {
        if sent < self.frames.len() {
            TransactionView { sent, stage: Stage::Write, ..self }
        } else if self.expect is Nothing {
            TransactionView { sent, ..self }.finish(Ok(Seq::empty()))
        } else {
            TransactionView { sent, stage: Stage::Head, ..self }
        }
    }

    /// The transaction that writes `frames` and reads `expect`, before
    /// anything is done, with a target that acknowledges or refuses.
    pub open spec fn start(
        frames: Seq<Seq<u8>>,
        reliable: bool,
        expect: Expect,
        confirm: bool,
    ) -> Self {
        TransactionView {
            frames,
            reliable,
            replies: ReplySet::AckNAck,
            expect,
            confirm,
            stage: Stage::Write,
            sent: 0,
            received: Seq::empty(),
            outcome: None,
        }.proceed(0)
    }

    /// Whether `answer` is the whole of the answer that is expected: it is as
    /// long as its first bytes say.
    pub open spec fn complete(self, answer: Seq<u8>) -> bool {
        answer.len() == self.expect.spec_head_len() + self.expect.spec_tail_len(answer)
    }

    /// What holds of every transaction: a piece that is written or awaits its
    /// reply is there; an answer that is read is expected; and an answer that
    /// is confirmed, or that the transaction ends with, is whole.
    pub open spec fn wf(self) -> bool {
        match self.outcome {
            None => match self.stage {
                Stage::Write => self.sent < self.frames.len(),
                Stage::Reply => self.sent < self.frames.len() && self.reliable,
                Stage::Head => !(self.expect is Nothing),
                Stage::Tail => self.received.len() == self.expect.spec_head_len()
                    && self.expect.spec_tail_len(self.received) > 0,
                Stage::Confirm => self.confirm && self.complete(self.received),
            },
            Some(Ok(answer)) => self.complete(answer),
            Some(Err(_)) => true,
        }
    }

    /// Whether the transaction has ended.
    pub open spec fn finished(self) -> bool {
        self.outcome is Some
    }

    /// What the transaction asks to be done next.
    pub open spec fn pending(self) -> ActionView {
        if self.outcome is Some {
            ActionView::Finish
        } else {
            match self.stage {
                Stage::Write => ActionView::Write(self.frames[self.sent as int]),
                Stage::Reply => ActionView::Read(1),
                Stage::Head => ActionView::Read(self.expect.spec_head_len() as usize),
                Stage::Tail => ActionView::Read(
                    self.expect.spec_tail_len(self.received) as usize,
                ),
                Stage::Confirm => ActionView::Write(seq![ACK]),
            }
        }
    }

    /// The transaction after `bytes` were read in the place of a reply: it
    /// goes on where `bytes` is one byte that acknowledges; it ends with a
    /// negative acknowledgement where the byte refuses, with a busy error
    /// where the byte says that the target is busy, and with a decoding
    /// failure where `bytes` is no reply.
    pub open spec fn replied(self, bytes: Seq<u8>) -> Self {
        if bytes.len() != 1 {
            self.finish(
                Err(Error::Frame(FrameError::Length { expected: 1, found: bytes.len() as usize })),
            )
        } else {
            match Reply::spec_decode_in(self.replies, bytes[0]) {
                Ok(Reply::Ack) => self.proceed(self.sent + 1),
                Ok(Reply::NAck) => self.finish(Err(Error::NAck)),
                Ok(Reply::Busy) => self.finish(Err(Error::Busy)),
                Err(error) => self.finish(Err(Error::Frame(error))),
            }
        }
    }

    /// The transaction after what it asked for had the outcome `event`.
    ///
    /// A failure ends the transaction, with that failure. A piece that is
    /// written awaits its reply where the exchange is reliable; else the next
    /// piece follows. A reply that acknowledges lets the next piece follow; one
    /// that refuses, or is no reply, ends the transaction. Bytes of the answer
    /// are taken where they are as many as were asked for, and end the
    /// transaction with a decoding failure where they are not. A transaction
    /// that has ended stays as it is.
    pub open spec fn step(self, event: EventView) -> Self {
        if self.outcome is Some {
            self
        } else if event is Failed {
            self.finish(Err(event->Failed_0))
        } else {
            match self.stage {
                Stage::Write => if self.reliable {
                    TransactionView { stage: Stage::Reply, ..self }
                } else {
                    self.proceed(self.sent + 1)
                },
                Stage::Reply => self.replied(event.bytes()),
                Stage::Head => if event.bytes().len() != self.expect.spec_head_len() {
                    self.finish(
                        Err(
                            Error::Frame(
                                FrameError::Length {
                                    expected: self.expect.spec_head_len() as usize,
                                    found: event.bytes().len() as usize,
                                },
                            ),
                        ),
                    )
                } else if self.expect.spec_tail_len(event.bytes()) > 0 {
                    TransactionView { stage: Stage::Tail, received: event.bytes(), ..self }
                } else {
                    self.answered(event.bytes())
                },
                Stage::Tail => if event.bytes().len() != self.expect.spec_tail_len(
                    self.received,
                ) {
                    self.finish(
                        Err(
                            Error::Frame(
                                FrameError::Length {
                                    expected: self.expect.spec_tail_len(self.received) as usize,
                                    found: event.bytes().len() as usize,
                                },
                            ),
                        ),
                    )
                } else {
                    self.answered(self.received + event.bytes())
                },
                Stage::Confirm => self.finish(Ok(self.received)),
            }
        }
    }
}

/// Every transaction starts well formed and stays so.
pub proof fn lemma_step_keeps_wf(tx: TransactionView, event: EventView)
    requires
        tx.wf(),
    ensures
        tx.step(event).wf(),
        TransactionView::start(tx.frames, tx.reliable, tx.expect, tx.confirm).wf(),
        tx.step(event).frames == tx.frames,
        tx.step(event).reliable == tx.reliable,
        tx.step(event).replies == tx.replies,
        tx.step(event).expect == tx.expect,
        tx.step(event).confirm == tx.confirm,
{
}

/// The answer that a transaction ends with can be decoded: the answer to the
/// get command and to the id command are as long as their length fields say,
/// the answer to the version command is three bytes, bytes of memory are as
/// many as were asked for, and where no answer is expected there is none.
pub proof fn lemma_answer_is_whole(tx: TransactionView, answer: Seq<u8>)
    requires
        tx.wf(),
        tx.outcome == Some(Ok::<Seq<u8>, Error>(answer)),
    ensures
        tx.expect is Nothing ==> answer.len() == 0,
        tx.expect is Bootloader ==> crate::reply::Bootloader::spec_well_formed(answer),
        tx.expect is Version ==> answer.len() == 3,
        tx.expect is Id ==> crate::reply::Id::spec_well_formed(answer),
        tx.expect matches Expect::Memory(size) ==> answer.len() == size.spec_count()
            && crate::slice::spec_fits::<crate::slice::Byte>(answer.len()),
{
    if tx.expect is Memory {
        crate::protocol::lemma_size_round_trip(tx.expect->Memory_0, 1);
    }
}

/// The host confirms an answer only when it has all of it: where the
/// transaction asks for the confirmation to be written, the bytes read are
/// the whole answer.
pub proof fn lemma_confirms_whole_answer(tx: TransactionView)
    requires
        tx.wf(),
        tx.outcome is None,
        tx.stage is Confirm,
    ensures
        tx.pending() == ActionView::Write(seq![ACK]),
        tx.complete(tx.received),
        tx.step(EventView::Done).outcome == Some(Ok::<Seq<u8>, Error>(tx.received)),
{
}

/// The pieces of `frames`, as contracts speak of them.
pub open spec fn spec_frames(frames: Seq<Vec<u8>>) -> Seq<Seq<u8>> {
    Seq::new(frames.len(), |i: int| frames[i]@)
}

/// One exchange with the target, as far as it has come.
#[derive(Debug)]
pub struct Transaction {
    frames: Vec<Vec<u8>>,
    reliable: bool,
    replies: ReplySet,
    expect: Expect,
    confirm: bool,
    stage: Stage,
    sent: usize,
    received: Vec<u8>,
    outcome: Option<Result<Vec<u8>, Error>>,
}

/// An outcome, as contracts speak of it.
pub open spec fn spec_outcome(outcome: Option<Result<Vec<u8>, Error>>) -> Option<
    Result<Seq<u8>, Error>,
> {
    match outcome {
        None => None,
        Some(Ok(bytes)) => Some(Ok(bytes@)),
        Some(Err(error)) => Some(Err(error)),
    }
}

impl View for Transaction {
    type V = TransactionView;

    closed spec fn view(&self) -> TransactionView {
        TransactionView {
            frames: spec_frames(self.frames@),
            reliable: self.reliable,
            replies: self.replies,
            expect: self.expect,
            confirm: self.confirm,
            stage: self.stage,
            sent: self.sent as nat,
            received: self.received@,
            outcome: spec_outcome(self.outcome),
        }
    }
}

impl Transaction {
    #[verifier::type_invariant]
    spec fn well_formed(self) -> bool {
        self@.wf()
    }

    /// Makes the transaction that writes `frames`, each confirmed by the
    /// target where `reliable` is set, then reads the answer `expect`, which
    /// the host confirms where `confirm` is set.
    pub fn new(frames: Vec<Vec<u8>>, reliable: bool, expect: Expect, confirm: bool) -> (tx: Self)
        ensures
            tx@ == TransactionView::start(spec_frames(frames@), reliable, expect, confirm),
            tx@.wf(),
    {
        let mut stage = Stage::Write;
        let mut outcome: Option<Result<Vec<u8>, Error>> = None;
        if frames.len() == 0 {
            if matches!(expect, Expect::Nothing) {
                outcome = Some(Ok(Vec::new()));
            } else {
                stage = Stage::Head;
            }
        }
        Transaction {
            frames,
            reliable,
            replies: ReplySet::AckNAck,
            expect,
            confirm,
            stage,
            sent: 0,
            received: Vec::new(),
            outcome,
        }
    }

    /// Makes the transaction one with a target that gives the replies of
    /// `replies`.
    pub fn with_replies(self, replies: ReplySet) -> (tx: Self)
        ensures
            tx@ == (TransactionView { replies, ..self@ }),
            tx@.wf(),
    {
        proof {
            use_type_invariant(&self);
        }
        Transaction { replies, ..self }
    }

    fn fail(self, error: Error) -> (next: Self)
        ensures
            next@ == self@.finish(Err(error)),
    {
        Transaction { outcome: Some(Err(error)), ..self }
    }

    fn answered(self, received: Vec<u8>) -> (next: Self)
        requires
            self@.complete(received@),
        ensures
            next@ == self@.answered(received@),
    {
        proof {
            use_type_invariant(&self);
        }
        if self.confirm {
            Transaction { stage: Stage::Confirm, received, ..self }
        } else {
            let answer = received.clone();
            assert(answer@ =~= received@);
            Transaction { received, outcome: Some(Ok(answer)), ..self }
        }
    }

    fn proceed(self, sent: usize) -> (next: Self)
        requires
            self@.outcome is None,
        ensures
            next@ == self@.proceed(sent as nat),
    {
        if sent < self.frames.len() {
            Transaction { sent, stage: Stage::Write, ..self }
        } else if matches!(self.expect, Expect::Nothing) {
            Transaction { sent, outcome: Some(Ok(Vec::new())), ..self }
        } else {
            Transaction { sent, stage: Stage::Head, ..self }
        }
    }

    /// Makes the transaction that writes `bytes` and awaits nothing.
    pub fn send(bytes: Vec<u8>) -> (tx: Self)
        ensures
            tx@ == TransactionView::start(seq![bytes@], false, Expect::Nothing, false),
            tx@.wf(),
    {
        let mut frames: Vec<Vec<u8>> = Vec::new();
        frames.push(bytes);
        assert(spec_frames(frames@) =~= seq![bytes@]);
        Transaction::new(frames, false, Expect::Nothing, false)
    }

    /// Makes the transaction that writes `bytes` and awaits the reply of the
    /// target: it ends well where the target acknowledges.
    pub fn send_reliable(bytes: Vec<u8>) -> (tx: Self)
        ensures
            tx@ == TransactionView::start(seq![bytes@], true, Expect::Nothing, false),
            tx@.wf(),
    {
        let mut frames: Vec<Vec<u8>> = Vec::new();
        frames.push(bytes);
        assert(spec_frames(frames@) =~= seq![bytes@]);
        Transaction::new(frames, true, Expect::Nothing, false)
    }

    /// Makes the transaction that reads the answer `expect`.
    pub fn recv(expect: Expect) -> (tx: Self)
        ensures
            tx@ == TransactionView::start(Seq::empty(), false, expect, false),
            tx@.wf(),
    {
        let frames: Vec<Vec<u8>> = Vec::new();
        assert(spec_frames(frames@) =~= Seq::<Seq<u8>>::empty());
        Transaction::new(frames, false, expect, false)
    }

    /// Makes the transaction that reads the answer `expect` and confirms it
    /// to the target.
    pub fn recv_reliable(expect: Expect) -> (tx: Self)
        ensures
            tx@ == TransactionView::start(Seq::empty(), false, expect, true),
            tx@.wf(),
    {
        let frames: Vec<Vec<u8>> = Vec::new();
        assert(spec_frames(frames@) =~= Seq::<Seq<u8>>::empty());
        Transaction::new(frames, false, expect, true)
    }

    /// Makes the transaction that sends `command` in pieces, each of which the
    /// target acknowledges, and then reads the answer `expect`, which the host
    /// confirms where `confirm` is set.
    pub fn command(command: &Command, expect: Expect, confirm: bool) -> (tx: Self)
        ensures
            tx@ == TransactionView::start(command.spec_exchanges(), true, expect, confirm),
            tx@.wf(),
    {
        let frames = command.exchanges();
        assert(spec_frames(frames@) =~= command.spec_exchanges());
        Transaction::new(frames, true, expect, confirm)
    }

    /// Makes the transaction that sends `command` in pieces, each of which the
    /// target acknowledges.
    pub fn send_command(command: &Command) -> (tx: Self)
        ensures
            tx@ == TransactionView::start(command.spec_exchanges(), true, Expect::Nothing, false),
            tx@.wf(),
    {
        Transaction::command(command, Expect::Nothing, false)
    }

    /// Makes the transaction that asks the target for the version of its
    /// bootloader and the operations that it supports.
    pub fn read_bootloader() -> (tx: Self)
        ensures
            tx@ == TransactionView::start(
                Command::Get().spec_exchanges(),
                true,
                Expect::Bootloader,
                true,
            ),
            tx@.wf(),
    {
        Transaction::command(&Command::Get(), Expect::Bootloader, true)
    }

    /// Makes the transaction that asks the target for its version and option
    /// bytes.
    pub fn read_version() -> (tx: Self)
        ensures
            tx@ == TransactionView::start(
                Command::Version().spec_exchanges(),
                true,
                Expect::Version,
                true,
            ),
            tx@.wf(),
    {
        Transaction::command(&Command::Version(), Expect::Version, true)
    }

    /// Makes the transaction that asks the target for the identifier of its
    /// chip.
    pub fn read_id() -> (tx: Self)
        ensures
            tx@ == TransactionView::start(Command::Id().spec_exchanges(), true, Expect::Id, true),
            tx@.wf(),
    {
        Transaction::command(&Command::Id(), Expect::Id, true)
    }

    /// Makes the transaction that reads `size` bytes of memory from `address`
    /// on: the operation code, the address and the size go out as a piece
    /// each, then the bytes are read. A size that is not from 1 to 256 is
    /// refused before anything is sent.
    pub fn read_memory(address: u32, size: usize) -> (made: Result<Self, Error>)
        ensures
            1 <= size <= 256 ==> (made matches Ok(tx) && tx@.wf() && tx@ == TransactionView::start(
                (Command::Read {
                    address: Address(address),
                    size: Size::spec_new(size as int),
                }).spec_exchanges(),
                true,
                Expect::Memory(Size::spec_new(size as int)),
                false,
            )),
            !(1 <= size <= 256) ==> (made matches Err(Error::ProtocolConversion(error))
                && error.exceeded(size, 1, 256)),
    {
        match Size::try_from(size) {
            Ok(count) => {
                let command = Command::Read { address: Address(address), size: count };
                Ok(Transaction::command(&command, Expect::Memory(count), false))
            },
            Err(error) => Err(Error::ProtocolConversion(error)),
        }
    }

    /// Makes the transaction that writes `data` to memory from `address` on:
    /// the whole command goes out in one piece, which the target
    /// acknowledges.
    pub fn write_memory(address: u32, data: Data) -> (tx: Self)
        ensures
            tx@ == TransactionView::start(
                seq![(Command::Write { address: Address(address), data }).wire()],
                true,
                Expect::Nothing,
                false,
            ),
            tx@.wf(),
    {
        let command = Command::Write { address: Address(address), data };
        Transaction::send_reliable(command.encode())
    }

    /// Whether the transaction has ended.
    pub fn is_finished(&self) -> (finished: bool)
        ensures
            finished == self@.finished(),
    {
        self.outcome.is_some()
    }

    /// Returns what to do next on the port.
    pub fn action(&self) -> (action: Action)
        ensures
            action@ == self@.pending(),
    {
        proof {
            use_type_invariant(self);
        }
        if self.outcome.is_some() {
            return Action::Finish;
        }
        match self.stage {
            Stage::Write => {
                let frame = self.frames[self.sent].clone();
                assert(frame@ =~= self.frames@[self.sent as int]@);
                Action::Write(frame)
            },
            Stage::Reply => Action::Read(1),
            Stage::Head => Action::Read(self.expect.head_len()),
            Stage::Tail => Action::Read(self.expect.tail_len(self.received.as_slice())),
            Stage::Confirm => {
                let mut ack = Vec::new();
                ack.push(ACK);
                assert(ack@ =~= seq![ACK]);
                Action::Write(ack)
            },
        }
    }

    /// Takes what came of the action that was asked for, and moves on.
    pub fn handle(self, event: Event) -> (next: Self)
        ensures
            next@ == self@.step(event@),
            next@.wf(),
    {
        proof {
            use_type_invariant(&self);
            lemma_step_keeps_wf(self@, event@);
        }
        if self.outcome.is_some() {
            return self;
        }
        let bytes = match event {
            Event::Failed(error) => {
                return self.fail(error);
            },
            Event::Data(bytes) => bytes,
            Event::Done => Vec::new(),
        };
        assert(bytes@ == event@.bytes());
        match self.stage {
            Stage::Write => {
                let total = self.frames.len();
                assert(self.sent < total);
                if self.reliable {
                    Transaction { stage: Stage::Reply, ..self }
                } else {
                    let sent = self.sent + 1;
                    self.proceed(sent)
                }
            },
            Stage::Reply => {
                if bytes.len() != 1 {
                    return self.fail(
                        Error::Frame(FrameError::Length { expected: 1, found: bytes.len() }),
                    );
                }
                let total = self.frames.len();
                assert(self.sent < total);
                match Reply::decode_in(self.replies, bytes[0]) {
                    Ok(Reply::Ack) => {
                        let sent = self.sent + 1;
                        self.proceed(sent)
                    },
                    Ok(Reply::NAck) => self.fail(Error::NAck),
                    Ok(Reply::Busy) => self.fail(Error::Busy),
                    Err(error) => self.fail(Error::Frame(error)),
                }
            },
            Stage::Head => {
                let expected = self.expect.head_len();
                if bytes.len() != expected {
                    return self.fail(
                        Error::Frame(FrameError::Length { expected, found: bytes.len() }),
                    );
                }
                if self.expect.tail_len(bytes.as_slice()) > 0 {
                    Transaction { stage: Stage::Tail, received: bytes, ..self }
                } else {
                    self.answered(bytes)
                }
            },
            Stage::Tail => {
                let expected = self.expect.tail_len(self.received.as_slice());
                if bytes.len() != expected {
                    return self.fail(
                        Error::Frame(FrameError::Length { expected, found: bytes.len() }),
                    );
                }
                let mut received = self.received.clone();
                assert(received@ =~= self.received@);
                let mut bytes = bytes;
                received.append(&mut bytes);
                assert(received@[0] == self.received@[0]);
                self.answered(received)
            },
            Stage::Confirm => {
                let answer = self.received.clone();
                assert(answer@ =~= self.received@);
                Transaction { outcome: Some(Ok(answer)), ..self }
            },
        }
    }

    /// Returns how the transaction ended, once it has: with the bytes of the
    /// answer, or with the failure.
    pub fn outcome(&self) -> (outcome: &Option<Result<Vec<u8>, Error>>)
        ensures
            spec_outcome(*outcome) == self@.outcome,
    {
        &self.outcome
    }

    /// Gives up how the transaction ended, once it has: with the bytes of the
    /// answer, or with the failure.
    pub fn into_outcome(self) -> (outcome: Option<Result<Vec<u8>, Error>>)
        ensures
            spec_outcome(outcome) == self@.outcome,
    {
        self.outcome
    }

    /// Gives up how the exchange that asked for the bootloader ended, once
    /// it has: with what the target knows of itself, or with the failure.
    /// The answer of an exchange that expected it is always decoded.
    pub fn into_bootloader(self) -> (ended: Option<Result<Bootloader, Error>>)
        ensures
            match self@.outcome {
                None => ended is None,
                Some(Err(error)) => ended matches Some(Err(e)) && e == error,
                Some(Ok(answer)) => if Bootloader::spec_well_formed(answer) {
                    ended matches Some(Ok(bootloader)) && bootloader.spec_version() == answer[1]
                        && bootloader.spec_opcodes() == spec_opcodes(answer.skip(2))
                } else {
                    ended matches Some(Err(Error::Frame(_)))
                },
            },
            self@.expect is Bootloader && self@.outcome is Some && self@.outcome->0 is Ok ==> ended
                is Some && ended->0 is Ok,
    {
        proof {
            use_type_invariant(&self);
            if self@.outcome is Some && self@.outcome->0 is Ok {
                lemma_answer_is_whole(self@, self@.outcome->0->Ok_0);
            }
        }
        match self.outcome {
            None => None,
            Some(Err(error)) => Some(Err(error)),
            Some(Ok(answer)) => match Bootloader::decode(answer.as_slice()) {
                Ok(bootloader) => Some(Ok(bootloader)),
                Err(error) => Some(Err(Error::Frame(error))),
            },
        }
    }

    /// Gives up how the exchange that asked for the version ended, once it
    /// has: with the version and the option bytes, or with the failure. The
    /// answer of an exchange that expected it is always decoded.
    pub fn into_version(self) -> (ended: Option<Result<Version, Error>>)
        ensures
            match self@.outcome {
                None => ended is None,
                Some(Err(error)) => ended matches Some(Err(e)) && e == error,
                Some(Ok(answer)) => if answer.len() == 3 {
                    ended matches Some(Ok(version)) && version.spec_version() == answer[0]
                        && version.spec_options() == answer.skip(1)
                } else {
                    ended matches Some(Err(Error::Frame(_)))
                },
            },
            self@.expect is Version && self@.outcome is Some && self@.outcome->0 is Ok ==> ended
                is Some && ended->0 is Ok,
    {
        proof {
            use_type_invariant(&self);
            if self@.outcome is Some && self@.outcome->0 is Ok {
                lemma_answer_is_whole(self@, self@.outcome->0->Ok_0);
            }
        }
        match self.outcome {
            None => None,
            Some(Err(error)) => Some(Err(error)),
            Some(Ok(answer)) => match Version::decode(answer.as_slice()) {
                Ok(version) => Some(Ok(version)),
                Err(error) => Some(Err(Error::Frame(error))),
            },
        }
    }

    /// Gives up how the exchange that asked for the identifier of the chip
    /// ended, once it has: with the identifier, or with the failure. The
    /// answer of an exchange that expected it is always decoded.
    pub fn into_id(self) -> (ended: Option<Result<Id, Error>>)
        ensures
            match self@.outcome {
                None => ended is None,
                Some(Err(error)) => ended matches Some(Err(e)) && e == error,
                Some(Ok(answer)) => if Id::spec_well_formed(answer) {
                    ended matches Some(Ok(id)) && id@ == answer.skip(1)
                } else {
                    ended matches Some(Err(Error::Frame(_)))
                },
            },
            self@.expect is Id && self@.outcome is Some && self@.outcome->0 is Ok ==> ended
                is Some && ended->0 is Ok,
    {
        proof {
            use_type_invariant(&self);
            if self@.outcome is Some && self@.outcome->0 is Ok {
                lemma_answer_is_whole(self@, self@.outcome->0->Ok_0);
            }
        }
        match self.outcome {
            None => None,
            Some(Err(error)) => Some(Err(error)),
            Some(Ok(answer)) => match Id::decode(answer.as_slice()) {
                Ok(id) => Some(Ok(id)),
                Err(error) => Some(Err(Error::Frame(error))),
            },
        }
    }

    /// Gives up how the exchange that read memory ended, once it has: with
    /// the bytes, or with the failure. The bytes of an exchange that expected
    /// them always make a run.
    pub fn into_data(self) -> (ended: Option<Result<Data, Error>>)
        ensures
            match self@.outcome {
                None => ended is None,
                Some(Err(error)) => ended matches Some(Err(e)) && e == error,
                Some(Ok(answer)) => if 1 <= answer.len() <= 256 {
                    ended matches Some(Ok(data)) && data@ == answer
                } else {
                    ended matches Some(Err(Error::ProtocolConversion(refused)))
                        && refused.exceeded(answer.len() as usize, 1, 256)
                },
            },
            self@.expect is Memory && self@.outcome is Some && self@.outcome->0 is Ok ==> ended
                is Some && ended->0 is Ok,
    {
        proof {
            use_type_invariant(&self);
            if self@.outcome is Some && self@.outcome->0 is Ok {
                lemma_answer_is_whole(self@, self@.outcome->0->Ok_0);
            }
        }
        match self.outcome {
            None => None,
            Some(Err(error)) => Some(Err(error)),
            Some(Ok(answer)) => match Data::new(answer) {
                Ok(data) => Some(Ok(data)),
                Err(error) => Some(Err(Error::ProtocolConversion(error))),
            },
        }
    }
}

} // verus!
