//! Targets that behave in a given way, and what the state machines do in
//! front of them: a target that never answers, a target that answers from
//! some attempt on, and a target that acknowledges some pieces of a command
//! and then refuses one.

use crate::error::Error;
use crate::handshake::spec_attempt;
use crate::handshake::spec_pulse;
use crate::handshake::HandshakeView;
use crate::handshake::Phase;
use crate::probe::Probe;
use crate::protocol::FrameError;
use crate::reply::Reply;
use crate::reply::ACK;
use crate::session::lemma_step_keeps_wf;
use crate::session::Expect;
use crate::session::Stage;
use crate::session::TransactionView;
use crate::transport::ActionView;
use crate::transport::EventView;
use vstd::prelude::*;

verus! {

/// When a target starts to answer: from the write of that number on, or
/// never. Writes are counted from 1.
pub type Patience = Option<nat>;

/// Whether a target of that patience answers after `written` writes.
pub open spec fn spec_answers(patience: Patience, written: nat) -> bool {
    match patience {
        Some(from) => written >= from,
        None => false,
    }
}

/// What a target of that patience makes of an action after `written`
/// writes: a read gets the byte that acknowledges where the target answers,
/// and fails with `timeout` where it does not; everything else is done.
pub open spec fn spec_reaction(
    action: ActionView,
    written: nat,
    patience: Patience,
    timeout: Error,
) -> EventView {
    match action {
        ActionView::Read(_) => if spec_answers(patience, written) {
            EventView::Data(seq![ACK])
        } else {
            EventView::Failed(timeout)
        },
        _ => EventView::Done,
    }
}

/// The number of writes after `action`, where there were `written` before.
pub open spec fn spec_written(action: ActionView, written: nat) -> nat {
    if action is Write {
        written + 1
    } else {
        written
    }
}

/// The actions that identification asks for from `handshake` on, in front of
/// a target of that patience that has seen `written` writes, and where
/// identification stands after them. At most `limit` actions are followed.
pub open spec fn spec_run(
    handshake: HandshakeView,
    written: nat,
    patience: Patience,
    timeout: Error,
    limit: nat,
) -> (Seq<ActionView>, HandshakeView)
    decreases limit,
{
    if limit == 0 || handshake.finished() {
        (Seq::empty(), handshake)
    } else {
        let action = handshake.pending();
        let (rest, end) = spec_run(
            handshake.next(spec_reaction(action, written, patience, timeout)),
            spec_written(action, written),
            patience,
            timeout,
            (limit - 1) as nat,
        );
        (seq![action] + rest, end)
    }
}

/// The actions before the first attempt: the boot signal is made active,
/// where there is one, and the buffers are cleared.
pub open spec fn spec_entry(probe: Probe) -> Seq<ActionView> {
    match probe.signal_scheme.boot {
        Some(boot) => seq![boot.spec_set(true), ActionView::ClearBuffers],
        None => seq![ActionView::ClearBuffers],
    }
}

/// The actions after the attempt that identified the target: the boot signal
/// is released, where there is one, and the buffers are cleared.
pub open spec fn spec_exit(probe: Probe) -> Seq<ActionView> {
    match probe.signal_scheme.boot {
        Some(boot) => seq![boot.spec_set(false), ActionView::ClearBuffers],
        None => seq![ActionView::ClearBuffers],
    }
}

/// The actions of one attempt, up to the first reply: the target is reset,
/// the buffers are cleared, the first piece of the exchange is written, and
/// one byte is asked for.
pub open spec fn spec_attempt_actions(probe: Probe) -> Seq<ActionView> {
    spec_pulse(probe) + seq![
        ActionView::ClearBuffers,
        ActionView::Write(spec_attempt(probe.identify).frames[0]),
        ActionView::Read(1),
    ]
}

/// The actions of `count` attempts, one after the other.
pub open spec fn spec_attempts_actions(probe: Probe, count: nat) -> Seq<ActionView>
    decreases count,
{
    if count == 0 {
        Seq::empty()
    } else {
        spec_attempt_actions(probe) + spec_attempts_actions(probe, (count - 1) as nat)
    }
}

/// One action of a run: the action that is pending, then the run from the
/// next state on.
proof fn lemma_run_unfold(
    handshake: HandshakeView,
    written: nat,
    patience: Patience,
    timeout: Error,
    limit: nat,
)
    requires
        limit > 0,
        !handshake.finished(),
    ensures
        ({
            let action = handshake.pending();
            let rest = spec_run(
                handshake.next(spec_reaction(action, written, patience, timeout)),
                spec_written(action, written),
                patience,
                timeout,
                (limit - 1) as nat,
            );
            &&& spec_run(handshake, written, patience, timeout, limit).0 == seq![action] + rest.0
            &&& spec_run(handshake, written, patience, timeout, limit).1 == rest.1
        }),
{
}

/// The exchange of an attempt after its first piece was written and the
/// reply `reply` came of the read.
pub open spec fn spec_replied(handshake: HandshakeView, reply: EventView) -> HandshakeView {
    HandshakeView {
        phase: Phase::AttemptClear,
        exchange: spec_attempt(handshake.probe.identify).step(EventView::Done).step(reply),
        ..handshake
    }
}

/// From the start of an attempt to its first reply: the target is reset,
/// the buffers are cleared, the first piece of the exchange is written and
/// one byte is asked for. Then identification goes on as the exchange says.
proof fn lemma_attempt(
    handshake: HandshakeView,
    written: nat,
    patience: Patience,
    timeout: Error,
    limit: nat,
)
    requires
        handshake.wf(),
        handshake.phase is PulseRelease || (handshake.phase is AttemptClear
            && handshake.probe.signal_scheme.reset is None),
        limit >= spec_attempt_actions(handshake.probe).len(),
    ensures
        ({
            let reply = spec_reaction(ActionView::Read(1), written + 1, patience, timeout);
            let after = spec_replied(handshake, reply);
            let rest = (limit - spec_attempt_actions(handshake.probe).len()) as nat;
            let next = HandshakeView { phase: Phase::Exchange, ..after }.exchanged(after.exchange);
            &&& after.exchange.wf()
            &&& !spec_answers(patience, written + 1) ==> after.exchange.outcome == Some(
                Err::<Seq<u8>, Error>(timeout),
            )
            &&& spec_answers(patience, written + 1) && handshake.probe.identify is Handshake
                ==> after.exchange.outcome == Some(Ok::<Seq<u8>, Error>(Seq::empty()))
            &&& spec_run(handshake, written, patience, timeout, limit).0 == spec_attempt_actions(
                handshake.probe,
            ) + spec_run(next, written + 1, patience, timeout, rest).0
            &&& spec_run(handshake, written, patience, timeout, limit).1 == spec_run(
                next,
                written + 1,
                patience,
                timeout,
                rest,
            ).1
        }),
{
    crate::handshake::lemma_attempt_starts(handshake.probe.identify);
    let probe = handshake.probe;
    let pulse = spec_pulse(probe).len();
    let clear = HandshakeView { phase: Phase::AttemptClear, ..handshake };
    let writing = HandshakeView {
        phase: Phase::Exchange,
        exchange: spec_attempt(probe.identify),
        ..handshake
    };
    let tx0 = writing.exchange;
    assert(tx0.stage is Write && tx0.sent == 0 && tx0.reliable && tx0.outcome is None);
    assert(tx0.frames.len() == 1);
    let tx1 = tx0.step(EventView::Done);
    lemma_step_keeps_wf(tx0, EventView::Done);
    assert(tx1.stage is Reply && tx1.outcome is None);
    let reading = HandshakeView { exchange: tx1, ..writing };
    let reply = spec_reaction(ActionView::Read(1), written + 1, patience, timeout);
    let tx2 = tx1.step(reply);
    lemma_step_keeps_wf(tx1, reply);
    if spec_answers(patience, written + 1) {
        assert(reply.bytes() == seq![ACK]);
        assert(tx2 == tx1.replied(seq![ACK]));
        assert(tx2 == tx1.proceed(1));
    } else {
        assert(tx2.outcome == Some(Err::<Seq<u8>, Error>(timeout)));
    }
    let after = spec_replied(handshake, reply);
    let next = HandshakeView { phase: Phase::Exchange, ..after }.exchanged(tx2);
    let rest = (limit - spec_attempt_actions(probe).len()) as nat;
    let tail = spec_run(next, written + 1, patience, timeout, rest).0;

    assert(clear.pending() == ActionView::ClearBuffers);
    assert(clear.next(EventView::Done) == writing);
    assert(writing.pending() == ActionView::Write(tx0.frames[0]));
    assert(writing.next(EventView::Done) == reading);
    assert(reading.pending() == ActionView::Read(1));
    assert(reading.next(reply) == next);
    lemma_run_unfold(clear, written, patience, timeout, (limit - pulse) as nat);
    lemma_run_unfold(writing, written, patience, timeout, (limit - pulse - 1) as nat);
    lemma_run_unfold(reading, written + 1, patience, timeout, (limit - pulse - 2) as nat);
    let from_clear = spec_run(clear, written, patience, timeout, (limit - pulse) as nat).0;
    assert(from_clear =~= seq![
        ActionView::ClearBuffers,
        ActionView::Write(spec_attempt(probe.identify).frames[0]),
        ActionView::Read(1),
    ] + tail);
    if handshake.phase is PulseRelease {
        let asserted = HandshakeView { phase: Phase::PulseAssert, ..handshake };
        let held = HandshakeView { phase: Phase::PulseHold, ..handshake };
        let ended = HandshakeView { phase: Phase::PulseEnd, ..handshake };
        assert(handshake.next(EventView::Done) == asserted);
        assert(asserted.next(EventView::Done) == held);
        assert(held.next(EventView::Done) == ended);
        assert(ended.next(EventView::Done) == clear);
        lemma_run_unfold(handshake, written, patience, timeout, limit);
        lemma_run_unfold(asserted, written, patience, timeout, (limit - 1) as nat);
        lemma_run_unfold(held, written, patience, timeout, (limit - 2) as nat);
        lemma_run_unfold(ended, written, patience, timeout, (limit - 3) as nat);
        assert(spec_run(handshake, written, patience, timeout, limit).0 =~= spec_pulse(probe)
            + from_clear);
        assert(spec_pulse(probe) + from_clear =~= spec_attempt_actions(probe) + tail);
    } else {
        assert(clear == handshake);
        assert(spec_pulse(probe) =~= Seq::<ActionView>::empty());
        assert(from_clear =~= spec_attempt_actions(probe) + tail);
    }
}

/// From the point where an attempt is due on, in front of a target that
/// does not answer within the attempts that are left: as many attempts as
/// the probe still allows get no answer, and identification gives up.
proof fn lemma_attempts_unanswered(
    handshake: HandshakeView,
    written: nat,
    patience: Patience,
    timeout: Error,
    limit: nat,
)
    requires
        handshake.wf(),
        !handshake.finished(),
        !(handshake.phase is Exchange),
        !spec_answers(
            patience,
            (written + handshake.probe.max_attempts - handshake.attempts) as nat,
        ),
        limit >= spec_attempts_actions(
            handshake.probe,
            (handshake.probe.max_attempts - handshake.attempts) as nat,
        ).len(),
    ensures
        ({
            let (trace, end) = spec_run(handshake.begin(), written, patience, timeout, limit);
            &&& trace == spec_attempts_actions(
                handshake.probe,
                (handshake.probe.max_attempts - handshake.attempts) as nat,
            )
            &&& end.phase is Unidentified
            &&& end.attempts == handshake.probe.max_attempts
            &&& end.probe == handshake.probe
        }),
    decreases handshake.probe.max_attempts - handshake.attempts,
{
    let probe = handshake.probe;
    let left = (probe.max_attempts - handshake.attempts) as nat;
    let begun = handshake.begin();
    if left == 0 {
        assert(begun.finished());
    } else {
        assert(spec_attempts_actions(probe, left) == spec_attempt_actions(probe)
            + spec_attempts_actions(probe, (left - 1) as nat));
        lemma_attempt(begun, written, patience, timeout, limit);
        let reply = spec_reaction(ActionView::Read(1), written + 1, patience, timeout);
        let after = spec_replied(begun, reply);
        let rest = (limit - spec_attempt_actions(probe).len()) as nat;
        assert(HandshakeView { phase: Phase::Exchange, ..after }.exchanged(after.exchange)
            == after.begin());
        lemma_attempts_unanswered(after, written + 1, patience, timeout, rest);
    }
}

/// From the point where an attempt is due on, in front of a target that
/// acknowledges the opening byte of a session from the write `from` on: the
/// attempts before that write get no answer, the attempt with that write
/// identifies the target, the boot signal is released and the buffers are
/// cleared.
proof fn lemma_attempts_answered(
    handshake: HandshakeView,
    written: nat,
    from: nat,
    timeout: Error,
    limit: nat,
)
    requires
        handshake.wf(),
        !handshake.finished(),
        !(handshake.phase is Exchange),
        handshake.probe.identify is Handshake,
        written < from,
        from - written <= handshake.probe.max_attempts - handshake.attempts,
        limit >= (spec_attempts_actions(handshake.probe, (from - written) as nat) + spec_exit(
            handshake.probe,
        )).len(),
    ensures
        ({
            let (trace, end) = spec_run(handshake.begin(), written, Some(from), timeout, limit);
            &&& trace == spec_attempts_actions(handshake.probe, (from - written) as nat)
                + spec_exit(handshake.probe)
            &&& end.phase is Identified
            &&& end.attempts == handshake.attempts + from - written
            &&& end.probe == handshake.probe
        }),
    decreases from - written,
{
    let probe = handshake.probe;
    let patience = Some(from);
    let left = (from - written) as nat;
    let begun = handshake.begin();
    assert(spec_attempts_actions(probe, left) == spec_attempt_actions(probe)
        + spec_attempts_actions(probe, (left - 1) as nat));
    lemma_attempt(begun, written, patience, timeout, limit);
    let reply = spec_reaction(ActionView::Read(1), written + 1, patience, timeout);
    let after = spec_replied(begun, reply);
    let next = HandshakeView { phase: Phase::Exchange, ..after }.exchanged(after.exchange);
    let rest = (limit - spec_attempt_actions(probe).len()) as nat;
    if written + 1 < from {
        assert(next == after.begin());
        lemma_attempts_answered(after, written + 1, from, timeout, rest);
        assert(spec_attempt_actions(probe) + (spec_attempts_actions(probe, (left - 1) as nat)
            + spec_exit(probe)) =~= spec_attempts_actions(probe, left) + spec_exit(probe));
    } else {
        assert(spec_answers(patience, written + 1));
        assert(spec_attempts_actions(probe, 0) =~= Seq::<ActionView>::empty());
        let released = HandshakeView { phase: Phase::Exchange, ..after }.release();
        assert(next == released);
        let clear = HandshakeView { phase: Phase::ExitClear, ..released };
        let identified = HandshakeView { phase: Phase::Identified, ..released };
        assert(clear.next(EventView::Done) == identified);
        if probe.signal_scheme.boot is Some {
            assert(released.next(EventView::Done) == clear);
            lemma_run_unfold(released, written + 1, patience, timeout, rest);
            lemma_run_unfold(clear, written + 1, patience, timeout, (rest - 1) as nat);
            assert(spec_run(identified, written + 1, patience, timeout, (rest - 2) as nat).0
                =~= Seq::<ActionView>::empty());
            assert(spec_run(next, written + 1, patience, timeout, rest).0 =~= spec_exit(probe));
        } else {
            assert(released == clear);
            lemma_run_unfold(clear, written + 1, patience, timeout, rest);
            assert(spec_run(identified, written + 1, patience, timeout, (rest - 1) as nat).0
                =~= Seq::<ActionView>::empty());
            assert(spec_run(next, written + 1, patience, timeout, rest).0 =~= spec_exit(probe));
        }
        assert(spec_attempt_actions(probe) + spec_exit(probe) =~= spec_attempts_actions(
            probe,
            left,
        ) + spec_exit(probe));
    }
}

/// From the start of identification to the point where the first attempt
/// is due: the boot signal is made active, where there is one, and the
/// buffers are cleared.
proof fn lemma_entry(probe: Probe, patience: Patience, timeout: Error, limit: nat)
    requires
        limit >= spec_entry(probe).len(),
    ensures
        ({
            let start = HandshakeView::start(probe);
            let due = HandshakeView { phase: Phase::EntryClear, ..start };
            let rest = (limit - spec_entry(probe).len()) as nat;
            &&& due.wf()
            &&& spec_run(start, 0, patience, timeout, limit).0 == spec_entry(probe) + spec_run(
                due.begin(),
                0,
                patience,
                timeout,
                rest,
            ).0
            &&& spec_run(start, 0, patience, timeout, limit).1 == spec_run(
                due.begin(),
                0,
                patience,
                timeout,
                rest,
            ).1
        }),
{
    crate::handshake::lemma_attempt_starts(probe.identify);
    let start = HandshakeView::start(probe);
    let due = HandshakeView { phase: Phase::EntryClear, ..start };
    let entry = spec_entry(probe).len();
    let rest = (limit - entry) as nat;
    let tail = spec_run(due.begin(), 0, patience, timeout, rest).0;
    assert(due.next(EventView::Done) == due.begin());
    lemma_run_unfold(due, 0, patience, timeout, (rest + 1) as nat);
    if probe.signal_scheme.boot is Some {
        lemma_run_unfold(start, 0, patience, timeout, limit);
        assert(start.next(EventView::Done) == due);
        assert(spec_run(start, 0, patience, timeout, limit).0 =~= spec_entry(probe) + tail);
    } else {
        assert(start == due);
        assert(spec_run(start, 0, patience, timeout, limit).0 =~= spec_entry(probe) + tail);
    }
}

/// A target that never answers is given up. In front of a target that does
/// not answer any of the writes that identification makes, identification
/// with a probe that allows N attempts asks for just this: the entry, then
/// N times the reset of the target (with the reset signal held active for
/// the time that the probe gives, and released), the clearing of the
/// buffers, the first piece of the exchange and a read. Then it has ended,
/// with no attempt that succeeded and N attempts begun.
pub proof fn lemma_silent_target(probe: Probe, patience: Patience, timeout: Error, limit: nat)
    requires
        !spec_answers(patience, probe.max_attempts as nat),
        limit >= (spec_entry(probe) + spec_attempts_actions(probe, probe.max_attempts as nat)).len(),
    ensures
        ({
            let (trace, end) = spec_run(HandshakeView::start(probe), 0, patience, timeout, limit);
            &&& trace == spec_entry(probe) + spec_attempts_actions(probe, probe.max_attempts as nat)
            &&& end.result() == Some(Err::<(), Error>(Error::Unidentified))
            &&& end.attempts == probe.max_attempts
        }),
{
    lemma_entry(probe, patience, timeout, limit);
    let due = HandshakeView { phase: Phase::EntryClear, ..HandshakeView::start(probe) };
    lemma_attempts_unanswered(
        due,
        0,
        patience,
        timeout,
        (limit - spec_entry(probe).len()) as nat,
    );
}

/// A target is identified by the first attempt that it answers. In front of
/// a target that acknowledges the opening byte of a session from its
/// `from`-th arrival on, identification by opening a session, with a probe
/// that allows at least `from` attempts, asks for just this: the entry;
/// `from` times the reset of the target, the clearing of the buffers, the
/// opening byte and a read; the release of the boot signal and the clearing
/// of the buffers. Then it has ended well, with `from` attempts begun.
pub proof fn lemma_identified_by_first_answer(probe: Probe, from: nat, timeout: Error, limit: nat)
    requires
        probe.identify is Handshake,
        1 <= from <= probe.max_attempts,
        limit >= (spec_entry(probe) + spec_attempts_actions(probe, from) + spec_exit(probe)).len(),
    ensures
        ({
            let (trace, end) = spec_run(HandshakeView::start(probe), 0, Some(from), timeout, limit);
            &&& trace == spec_entry(probe) + spec_attempts_actions(probe, from) + spec_exit(probe)
            &&& end.result() == Some(Ok::<(), Error>(()))
            &&& end.attempts == from
        }),
{
    lemma_entry(probe, Some(from), timeout, limit);
    let due = HandshakeView { phase: Phase::EntryClear, ..HandshakeView::start(probe) };
    lemma_attempts_answered(due, 0, from, timeout, (limit - spec_entry(probe).len()) as nat);
    let rest = spec_run(
        due.begin(),
        0,
        Some(from),
        timeout,
        (limit - spec_entry(probe).len()) as nat,
    ).0;
    assert(spec_entry(probe) + (spec_attempts_actions(probe, from) + spec_exit(probe))
        =~= spec_entry(probe) + spec_attempts_actions(probe, from) + spec_exit(probe));
}

/// What a target that answers each single byte asked for with the next of
/// `replies` makes of an action, and the replies that are left: a read gets
/// the next reply, or fails with `timeout` where none is left; everything
/// else is done.
pub open spec fn spec_scripted(action: ActionView, replies: Seq<u8>, timeout: Error) -> (
    EventView,
    Seq<u8>,
) {
    match action {
        ActionView::Read(_) => if replies.len() > 0 {
            (EventView::Data(seq![replies[0]]), replies.skip(1))
        } else {
            (EventView::Failed(timeout), replies)
        },
        _ => (EventView::Done, replies),
    }
}

/// The actions that an exchange asks for from `tx` on, in front of a target
/// that replies with `replies`, and where the exchange stands after them. At
/// most `limit` actions are followed.
pub open spec fn spec_run_scripted(
    tx: TransactionView,
    replies: Seq<u8>,
    timeout: Error,
    limit: nat,
) -> (Seq<ActionView>, TransactionView)
    decreases limit,
{
    if limit == 0 || tx.finished() {
        (Seq::empty(), tx)
    } else {
        let action = tx.pending();
        let (event, left) = spec_scripted(action, replies, timeout);
        let (rest, end) = spec_run_scripted(tx.step(event), left, timeout, (limit - 1) as nat);
        (seq![action] + rest, end)
    }
}

/// The actions that send `frames` one by one: each piece is written, and one
/// byte is asked for after it.
pub open spec fn spec_sent(frames: Seq<Seq<u8>>) -> Seq<ActionView>
    decreases frames.len(),
{
    if frames.len() == 0 {
        Seq::empty()
    } else {
        seq![ActionView::Write(frames[0]), ActionView::Read(1)] + spec_sent(frames.skip(1))
    }
}

/// The failure that an exchange ends with where the target replies with
/// `byte`, which does not acknowledge.
pub open spec fn spec_refusal(byte: u8) -> Error {
    match Reply::spec_decode(byte) {
        Ok(Reply::NAck) => Error::NAck,
        Ok(_) => Error::Busy,
        Err(error) => Error::Frame(error),
    }
}

/// One action of a run: the action that is pending, then the run from the
/// next state on.
proof fn lemma_scripted_unfold(tx: TransactionView, replies: Seq<u8>, timeout: Error, limit: nat)
    requires
        limit > 0,
        !tx.finished(),
    ensures
        ({
            let (event, left) = spec_scripted(tx.pending(), replies, timeout);
            let rest = spec_run_scripted(tx.step(event), left, timeout, (limit - 1) as nat);
            &&& spec_run_scripted(tx, replies, timeout, limit).0 == seq![tx.pending()] + rest.0
            &&& spec_run_scripted(tx, replies, timeout, limit).1 == rest.1
        }),
{
}

/// From the piece `from` on: the pieces up to the one that is refused are
/// sent one by one.
proof fn lemma_pieces_from(
    tx: TransactionView,
    replies: Seq<u8>,
    timeout: Error,
    limit: nat,
    from: nat,
    acknowledged: nat,
)
    requires
        tx == (TransactionView {
            sent: from,
            ..TransactionView::start(tx.frames, true, Expect::Nothing, false)
        }),
        from < tx.frames.len(),
        from <= acknowledged <= tx.frames.len(),
        acknowledged - from <= replies.len(),
        forall|i: int| 0 <= i < acknowledged - from ==> replies[i] == ACK,
        acknowledged < tx.frames.len() ==> acknowledged - from < replies.len() && replies[acknowledged as int
            - from] != ACK,
        limit >= 2 * (tx.frames.len() - from),
    ensures
        ({
            let (trace, end) = spec_run_scripted(tx, replies, timeout, limit);
            let last = if acknowledged < tx.frames.len() {
                acknowledged as int + 1
            } else {
                acknowledged as int
            };
            &&& trace == spec_sent(tx.frames.subrange(from as int, last))
            &&& acknowledged == tx.frames.len() ==> end.outcome == Some(
                Ok::<Seq<u8>, Error>(Seq::empty()),
            )
            &&& acknowledged < tx.frames.len() ==> end.outcome == Some(
                Err::<Seq<u8>, Error>(spec_refusal(replies[acknowledged - from])),
            )
        }),
    decreases tx.frames.len() - from,
{
    let frames = tx.frames;
    let last = if acknowledged < frames.len() {
        acknowledged as int + 1
    } else {
        acknowledged as int
    };
    let pieces = frames.subrange(from as int, last);
    assert(tx.stage is Write && tx.outcome is None && tx.sent == from);
    assert(tx.pending() == ActionView::Write(frames[from as int]));
    let tx1 = tx.step(EventView::Done);
    assert(tx1 == TransactionView { stage: Stage::Reply, ..tx });
    assert(tx1.pending() == ActionView::Read(1));
    let (event, left) = spec_scripted(tx1.pending(), replies, timeout);
    let tx2 = tx1.step(event);
    assert(replies.len() > 0);
    assert(event == EventView::Data(seq![replies[0]]));
    assert(event.bytes() == seq![replies[0]]);
    assert(pieces[0] == frames[from as int]);
    assert(pieces.skip(1) =~= frames.subrange(from as int + 1, last));
    let rest = spec_run_scripted(tx2, left, timeout, (limit - 2) as nat);
    lemma_scripted_unfold(tx, replies, timeout, limit);
    assert(spec_scripted(tx.pending(), replies, timeout) == (EventView::Done, replies));
    lemma_scripted_unfold(tx1, replies, timeout, (limit - 1) as nat);
    assert(spec_run_scripted(tx, replies, timeout, limit).0 =~= seq![
        ActionView::Write(frames[from as int]),
        ActionView::Read(1),
    ] + rest.0);
    assert(spec_run_scripted(tx, replies, timeout, limit).1 == rest.1);
    assert(pieces.len() > 0);
    assert(spec_sent(pieces) == seq![ActionView::Write(pieces[0]), ActionView::Read(1)]
        + spec_sent(pieces.skip(1)));
    if from < acknowledged {
        assert(replies[0] == ACK);
        assert(tx2 == tx1.proceed(from + 1));
        if from + 1 < frames.len() {
            assert forall|i: int| 0 <= i < acknowledged - (from + 1) implies left[i] == ACK by {
                assert(left[i] == replies[i + 1]);
            }
            if acknowledged < frames.len() {
                assert(left[acknowledged - (from + 1)] == replies[acknowledged - from]);
            }
            lemma_pieces_from(tx2, left, timeout, (limit - 2) as nat, from + 1, acknowledged);
            assert(rest.0 == spec_sent(frames.subrange(from as int + 1, last)));
        } else {
            assert(tx2.finished());
            assert(tx2.outcome == Some(Ok::<Seq<u8>, Error>(Seq::empty())));
            assert(rest.0 =~= Seq::<ActionView>::empty());
            assert(rest.1 == tx2);
            assert(frames.subrange(from as int + 1, last) =~= Seq::<Seq<u8>>::empty());
            assert(spec_sent(pieces.skip(1)) =~= Seq::<ActionView>::empty());
        }
    } else {
        assert(replies[0] != ACK);
        assert(tx2.outcome == Some(Err::<Seq<u8>, Error>(spec_refusal(replies[0]))));
        assert(tx2.finished());
        assert(rest.0 =~= Seq::<ActionView>::empty());
        assert(rest.1 == tx2);
        assert(frames.subrange(from as int + 1, last) =~= Seq::<Seq<u8>>::empty());
        assert(spec_sent(pieces.skip(1)) =~= Seq::<ActionView>::empty());
    }
}

/// Pieces are confirmed in turn. In front of a target that acknowledges the
/// first `acknowledged` pieces of `frames`, and replies to the next with a
/// byte that does not acknowledge, an exchange that the target confirms
/// piece by piece writes each piece up to that one, asks for one byte after
/// each, and nothing more. It ends well where every piece was acknowledged,
/// and with the refusal else: no piece goes out after one that was refused.
pub proof fn lemma_pieces_are_confirmed_in_turn(
    frames: Seq<Seq<u8>>,
    replies: Seq<u8>,
    timeout: Error,
    limit: nat,
    acknowledged: nat,
)
    requires
        acknowledged <= frames.len(),
        acknowledged <= replies.len(),
        forall|i: int| 0 <= i < acknowledged ==> replies[i] == ACK,
        acknowledged < frames.len() ==> acknowledged < replies.len() && replies[acknowledged as int]
            != ACK,
        limit >= 2 * frames.len(),
    ensures
        ({
            let tx = TransactionView::start(frames, true, Expect::Nothing, false);
            let (trace, end) = spec_run_scripted(tx, replies, timeout, limit);
            &&& acknowledged == frames.len() ==> trace == spec_sent(frames) && end.outcome == Some(
                Ok::<Seq<u8>, Error>(Seq::empty()),
            )
            &&& acknowledged < frames.len() ==> trace == spec_sent(frames.take(acknowledged as int + 1))
                && end.outcome == Some(
                Err::<Seq<u8>, Error>(spec_refusal(replies[acknowledged as int])),
            )
        }),
{
    let tx = TransactionView::start(frames, true, Expect::Nothing, false);
    if frames.len() == 0 {
        assert(tx.finished());
    } else {
        lemma_pieces_from(tx, replies, timeout, limit, 0, acknowledged);
        assert(frames.subrange(0, frames.len() as int) =~= frames);
        assert(frames.subrange(0, acknowledged as int + 1) =~= frames.take(acknowledged as int + 1));
    }
}

} // verus!
