use std::collections::VecDeque;
use std::time::Duration;
use yapu::Action;
use yapu::Bootloader;
use yapu::Command;
use yapu::Data;
use yapu::Encode;
use yapu::Error;
use yapu::Event;
use yapu::Expect;
use yapu::FrameError;
use yapu::Handshake;
use yapu::Id;
use yapu::Identify;
use yapu::IoError;
use yapu::IoErrorKind;
use yapu::Line;
use yapu::Opcode;
use yapu::Probe;
use yapu::Programmer;
use yapu::ReplySet;
use yapu::SerialError;
use yapu::SerialErrorKind;
use yapu::Signal;
use yapu::State;
use yapu::Transaction;
use yapu::Version;

fn timeout() -> Error {
    Error::Io(IoError { kind: IoErrorKind::TimedOut, message: "timed out".to_string() })
}

/// A serial port with a simulated target behind it.
struct Wire {
    log: Vec<Action>,
    input: VecDeque<u8>,
    respond: Box<dyn FnMut(&[u8]) -> Vec<u8>>,
    broken_lines: bool,
}

impl Wire {
    fn new(respond: Box<dyn FnMut(&[u8]) -> Vec<u8>>) -> Self {
        Wire { log: Vec::new(), input: VecDeque::new(), respond, broken_lines: false }
    }

    fn silent() -> Self {
        Wire::new(Box::new(|_| Vec::new()))
    }

    fn perform(&mut self, action: Action) -> Event {
        self.log.push(action.clone());
        match action {
            Action::Write(bytes) => {
                let answer = (self.respond)(&bytes);
                self.input.extend(answer);
                Event::Done
            }
            Action::Read(count) => {
                if self.input.len() < count {
                    self.input.clear();
                    Event::Failed(timeout())
                } else {
                    Event::Data(self.input.drain(..count).collect())
                }
            }
            Action::ClearBuffers => {
                self.input.clear();
                Event::Done
            }
            Action::SetLine { .. } => {
                if self.broken_lines {
                    Event::Failed(Error::Serial(SerialError {
                        kind: SerialErrorKind::NoDevice,
                        description: "gone".to_string(),
                    }))
                } else {
                    Event::Done
                }
            }
            Action::Sleep(_) => Event::Done,
            Action::Finish => panic!("nothing to perform"),
        }
    }

    fn identify(&mut self, probe: &Probe) -> (Result<(), Error>, usize) {
        let mut handshake = Handshake::new(probe);
        loop {
            let action = handshake.action();
            if action == Action::Finish {
                let attempts = handshake.attempts();
                return (handshake.result().expect("identification has ended"), attempts);
            }
            let event = self.perform(action);
            handshake = handshake.handle(event);
        }
    }

    fn run(&mut self, mut tx: Transaction) -> Result<Vec<u8>, Error> {
        loop {
            let action = tx.action();
            if action == Action::Finish {
                return tx.into_outcome().expect("the exchange has ended");
            }
            let event = self.perform(action);
            tx = tx.handle(event);
        }
    }

    fn finish(&mut self, mut tx: Transaction) -> Transaction {
        while !tx.is_finished() {
            let event = self.perform(tx.action());
            tx = tx.handle(event);
        }
        tx
    }

    fn sleeps(&self) -> Vec<Duration> {
        self.log
            .iter()
            .filter_map(|action| match action {
                Action::Sleep(duration) => Some(*duration),
                _ => None,
            })
            .collect()
    }
}

/// A target that acknowledges the opening byte from its `after`-th arrival
/// on, and answers the get, version and id commands.
fn target(after: usize) -> Wire {
    let mut openings = 0;
    Wire::new(Box::new(move |written: &[u8]| {
        if written == [0x7f] {
            openings += 1;
            if openings >= after {
                vec![0x79]
            } else {
                vec![]
            }
        } else if written == [0x00, 0xff] {
            vec![0x79, 0x02, 0x31, 0x00, 0x01]
        } else if written == [0x01, 0xfe] {
            vec![0x79, 0x31, 0x00, 0x00]
        } else if written == [0x02, 0xfd] {
            vec![0x79, 0x01, 0x04, 0x10]
        } else {
            vec![]
        }
    }))
}

fn set(line: Line, level: bool) -> Action {
    Action::SetLine { line, level }
}

#[test]
fn silent_target_is_given_up_after_the_attempts_allowed() {
    let mut probe = Probe::new();
    probe.set_max_attempts(4);
    probe.set_reset_for(Duration::from_millis(25));
    let mut wire = Wire::silent();
    let (result, attempts) = wire.identify(&probe);
    assert_eq!(result, Err(Error::Unidentified));
    assert_eq!(attempts, 4);
    assert_eq!(wire.sleeps(), vec![Duration::from_millis(25); 4]);
    let writes = wire.log.iter().filter(|a| **a == Action::Write(vec![0x7f])).count();
    assert_eq!(writes, 4);
}

#[test]
fn silent_target_sees_these_actions() {
    let mut probe = Probe::new();
    probe.set_max_attempts(2);
    let mut wire = Wire::silent();
    let (result, attempts) = wire.identify(&probe);
    assert_eq!(result, Err(Error::Unidentified));
    assert_eq!(attempts, 2);
    let attempt = vec![
        set(Line::Rts, false),
        set(Line::Rts, true),
        Action::Sleep(Duration::from_millis(10)),
        set(Line::Rts, false),
        Action::ClearBuffers,
        Action::Write(vec![0x7f]),
        Action::Read(1),
    ];
    let mut expected = vec![set(Line::Dtr, false), Action::ClearBuffers];
    expected.extend(attempt.clone());
    expected.extend(attempt);
    assert_eq!(wire.log, expected);
}

#[test]
fn reset_is_held_active_between_two_releases() {
    let mut probe = Probe::new();
    probe.set_max_attempts(3);
    probe.set_signal_reset(Some(Signal::dtr(false)));
    probe.set_signal_boot(None);
    let mut wire = Wire::silent();
    let (result, _) = wire.identify(&probe);
    assert_eq!(result, Err(Error::Unidentified));
    let mut pulses = 0;
    for (i, action) in wire.log.iter().enumerate() {
        if let Action::Sleep(duration) = action {
            pulses += 1;
            assert_eq!(*duration, probe.reset_for());
            assert_eq!(wire.log[i - 2], set(Line::Dtr, true));
            assert_eq!(wire.log[i - 1], set(Line::Dtr, false));
            assert_eq!(wire.log[i + 1], set(Line::Dtr, true));
        }
    }
    assert_eq!(pulses, 3);
    assert_eq!(wire.log[0], Action::ClearBuffers);
}

#[test]
fn no_attempt_is_made_where_none_is_allowed() {
    let mut probe = Probe::new();
    probe.set_max_attempts(0);
    let mut wire = target(1);
    let (result, attempts) = wire.identify(&probe);
    assert_eq!(result, Err(Error::Unidentified));
    assert_eq!(attempts, 0);
    assert_eq!(wire.log, vec![set(Line::Dtr, false), Action::ClearBuffers]);
}

#[test]
fn target_that_acknowledges_at_once_is_identified() {
    let probe = Probe::new();
    let mut wire = target(1);
    let (result, attempts) = wire.identify(&probe);
    assert_eq!(result, Ok(()));
    assert_eq!(attempts, 1);
    assert_eq!(
        wire.log,
        vec![
            set(Line::Dtr, false),
            Action::ClearBuffers,
            set(Line::Rts, false),
            set(Line::Rts, true),
            Action::Sleep(Duration::from_millis(10)),
            set(Line::Rts, false),
            Action::ClearBuffers,
            Action::Write(vec![0x7f]),
            Action::Read(1),
            set(Line::Dtr, true),
            Action::ClearBuffers,
        ]
    );
}

#[test]
fn third_attempt_identifies_and_get_is_answered() {
    let probe = Probe::new();
    let mut wire = target(3);
    let (result, attempts) = wire.identify(&probe);
    assert_eq!(result, Ok(()));
    assert_eq!(attempts, 3);
    assert_eq!(wire.sleeps().len(), 3);

    let programmer = Programmer::attach((), &probe);
    let answer = wire.run(programmer.read_bootloader()).expect("the target answers");
    assert_eq!(answer, vec![0x02, 0x31, 0x00, 0x01]);
    let bootloader = Bootloader::decode(&answer).expect("the answer is well formed");
    assert_eq!(bootloader.version(), 0x31);
    assert_eq!(bootloader.major(), 3);
    assert_eq!(bootloader.minor(), 1);
    assert_eq!(bootloader.version_string(), "3.1");
    assert_eq!(bootloader.opcodes(), &[Opcode::GET(), Opcode::GET_VERSION()]);
    assert!(bootloader.supports(Opcode::GET_VERSION()));
    assert!(!bootloader.supports(Opcode::READ()));
    let tail = &wire.log[wire.log.len() - 5..];
    assert_eq!(
        tail,
        &[
            Action::Write(vec![0x00, 0xff]),
            Action::Read(1),
            Action::Read(1),
            Action::Read(3),
            Action::Write(vec![0x79]),
        ]
    );
}

#[test]
fn states_follow_one_another() {
    let probe = Probe::new();
    let mut wire = target(1);
    let mut handshake = Handshake::new(&probe);
    let mut states = vec![handshake.state()];
    while !handshake.is_finished() {
        let event = wire.perform(handshake.action());
        handshake = handshake.handle(event);
        if *states.last().unwrap() != handshake.state() {
            states.push(handshake.state());
        }
    }
    assert_eq!(
        states,
        vec![
            State::Idle,
            State::BootAsserted,
            State::ResetPulse,
            State::AttemptSync,
            State::Identified,
        ]
    );
    assert_eq!(handshake.action(), Action::Finish);
    let handshake = handshake.handle(Event::Done);
    assert_eq!(handshake.state(), State::Identified);
}

#[test]
fn refusal_is_a_failed_attempt() {
    let mut probe = Probe::new();
    probe.set_max_attempts(2);
    let mut wire = Wire::new(Box::new(|_| vec![0x1f]));
    let (result, attempts) = wire.identify(&probe);
    assert_eq!(result, Err(Error::Unidentified));
    assert_eq!(attempts, 2);
}

#[test]
fn failure_of_a_line_ends_identification() {
    let probe = Probe::new();
    let mut wire = target(1);
    wire.broken_lines = true;
    let (result, attempts) = wire.identify(&probe);
    assert_eq!(
        result,
        Err(Error::Serial(SerialError {
            kind: SerialErrorKind::NoDevice,
            description: "gone".to_string()
        }))
    );
    assert_eq!(attempts, 0);
    assert_eq!(wire.log.len(), 1);
}

#[test]
fn target_in_a_session_is_identified_by_get() {
    let mut probe = Probe::new();
    probe.set_identify(Identify::Get);
    probe.set_signal_reset(None);
    probe.set_signal_boot(None);
    let mut wire = target(usize::MAX);
    let (result, attempts) = wire.identify(&probe);
    assert_eq!(result, Ok(()));
    assert_eq!(attempts, 1);
    assert_eq!(
        wire.log,
        vec![
            Action::ClearBuffers,
            Action::ClearBuffers,
            Action::Write(vec![0x00, 0xff]),
            Action::Read(1),
            Action::Read(1),
            Action::Read(3),
            Action::Write(vec![0x79]),
            Action::ClearBuffers,
        ]
    );
}

#[test]
fn discovery_keeps_the_targets_that_were_identified() {
    let probe = Probe::new();
    let mut attempts = Vec::new();
    for (name, mut wire) in [("A", Wire::silent()), ("B", target(2)), ("C", Wire::silent())] {
        let (identified, _) = wire.identify(&probe);
        attempts.push(Programmer::open(name, &probe, identified));
    }
    assert!(attempts[0].is_err());
    assert!(attempts[1].is_ok());
    assert!(attempts[2].is_err());
    let found = Programmer::discover(attempts);
    assert_eq!(found.len(), 1);
    assert_eq!(*found[0].inner(), "B");
}

#[test]
fn discovery_keeps_the_order() {
    let probe = Probe::new();
    let attempts = vec![
        Programmer::open(1, &probe, Ok(())),
        Programmer::open(2, &probe, Err(Error::Unidentified)),
        Programmer::open(3, &probe, Ok(())),
        Programmer::open(4, &probe, Ok(())),
        Programmer::open(5, &probe, Err(Error::NAck)),
    ];
    let found: Vec<i32> =
        Programmer::discover(attempts).into_iter().map(|p| p.into_inner()).collect();
    assert_eq!(found, vec![1, 3, 4]);
    let none: Vec<Programmer<i32>> = Programmer::discover(Vec::new());
    assert!(none.is_empty());
}

#[test]
fn read_sends_three_pieces() {
    let programmer = Programmer::attach((), &Probe::new());
    let mut wire = Wire::new(Box::new(|written: &[u8]| {
        if written == [0x03, 0xfc] {
            vec![0x79, 0xde, 0xad, 0xbe, 0xef]
        } else {
            vec![0x79]
        }
    }));
    let tx = programmer.read_memory(0x0800_0000, 4).expect("the size fits");
    let answer = wire.run(tx).expect("the target answers");
    assert_eq!(answer, vec![0xde, 0xad, 0xbe, 0xef]);
    assert_eq!(
        wire.log,
        vec![
            Action::Write(vec![0x11, 0xee]),
            Action::Read(1),
            Action::Write(vec![0x08, 0x00, 0x00, 0x00, 0x08]),
            Action::Read(1),
            Action::Write(vec![0x03, 0xfc]),
            Action::Read(1),
            Action::Read(4),
        ]
    );
    let data = Data::try_from(answer).expect("the bytes fit");
    assert_eq!(data.as_slice(), &[0xde, 0xad, 0xbe, 0xef]);
}

#[test]
fn read_of_a_size_that_does_not_fit_sends_nothing() {
    let programmer = Programmer::attach((), &Probe::new());
    for size in [0usize, 257, 1000] {
        match programmer.read_memory(0, size) {
            Err(Error::ProtocolConversion(yapu::protocol::Error::Exceeded(value, range))) => {
                assert_eq!(value, size);
                assert_eq!(range, 1..=256);
            }
            other => panic!("unexpected: {:?}", other.map(|_| ())),
        }
    }
    assert!(programmer.read_memory(0, 1).is_ok());
    assert!(programmer.read_memory(0, 256).is_ok());
}

#[test]
fn refusal_of_a_piece_ends_the_exchange() {
    let programmer = Programmer::attach((), &Probe::new());
    let mut wire = Wire::new(Box::new(|written: &[u8]| {
        if written.len() == 5 {
            vec![0x1f]
        } else {
            vec![0x79]
        }
    }));
    let tx = programmer.read_memory(0x2000_0000, 16).unwrap();
    assert_eq!(wire.run(tx), Err(Error::NAck));
    assert_eq!(
        wire.log,
        vec![
            Action::Write(vec![0x11, 0xee]),
            Action::Read(1),
            Action::Write(vec![0x20, 0x00, 0x00, 0x00, 0x20]),
            Action::Read(1),
        ]
    );
}

#[test]
fn byte_that_is_no_reply_is_a_decoding_failure() {
    let programmer = Programmer::attach((), &Probe::new());
    let mut wire = Wire::new(Box::new(|_| vec![0xaa]));
    let result = wire.run(programmer.send_command(&Command::Get()));
    assert_eq!(result, Err(Error::Frame(FrameError::BadReply(0xaa))));
}

#[test]
fn busy_target_is_told_where_the_revision_has_that_reply() {
    let mut wire = Wire::new(Box::new(|_| vec![0xaa]));
    let tx = Transaction::send_command(&Command::Get()).with_replies(ReplySet::AckNAckBusy);
    assert_eq!(wire.run(tx), Err(Error::Busy));
    let mut wire = Wire::new(Box::new(|_| vec![0x42]));
    let tx = Transaction::send_command(&Command::Get()).with_replies(ReplySet::AckNAckBusy);
    assert_eq!(wire.run(tx), Err(Error::Frame(FrameError::BadReply(0x42))));
}

#[test]
fn timeout_of_a_reply_is_handed_on() {
    let programmer = Programmer::attach((), &Probe::new());
    let mut wire = Wire::silent();
    let result = wire.run(programmer.send_reliable(&Opcode::GO()));
    assert_eq!(result, Err(timeout()));
    assert_eq!(wire.log, vec![Action::Write(vec![0x21, 0xde]), Action::Read(1)]);
}

#[test]
fn write_goes_out_in_one_piece() {
    let programmer = Programmer::attach((), &Probe::new());
    let mut wire = Wire::new(Box::new(|_| vec![0x79]));
    let data = Data::try_from(vec![0x01u8, 0x02, 0x04]).unwrap();
    let result = wire.run(programmer.write_memory(0x0800_0100, data));
    assert_eq!(result, Ok(vec![]));
    assert_eq!(
        wire.log,
        vec![
            Action::Write(vec![
                0x31, 0xce, 0x08, 0x00, 0x01, 0x00, 0x09, 0x02, 0x01, 0x02, 0x04, 0x07
            ]),
            Action::Read(1),
        ]
    );
}

#[test]
fn write_command_goes_out_in_three_pieces() {
    let programmer = Programmer::attach((), &Probe::new());
    let mut wire = Wire::new(Box::new(|_| vec![0x79]));
    let data = Data::try_from(vec![0xffu8]).unwrap();
    let command = Command::Write { address: 0x0800_0000.into(), data };
    assert_eq!(wire.run(programmer.send_command(&command)), Ok(vec![]));
    assert_eq!(
        wire.log,
        vec![
            Action::Write(vec![0x31, 0xce]),
            Action::Read(1),
            Action::Write(vec![0x08, 0x00, 0x00, 0x00, 0x08]),
            Action::Read(1),
            Action::Write(vec![0x00, 0xff, 0xff]),
            Action::Read(1),
        ]
    );
}

#[test]
fn send_awaits_nothing() {
    let programmer = Programmer::attach((), &Probe::new());
    let mut wire = Wire::silent();
    assert_eq!(wire.run(programmer.send(&Command::Synchronize)), Ok(vec![]));
    assert_eq!(wire.log, vec![Action::Write(vec![0x7f])]);
}

#[test]
fn version_and_id_are_read_and_confirmed() {
    let programmer = Programmer::attach((), &Probe::new());
    let mut wire = target(1);
    let answer = wire.run(programmer.read_version()).unwrap();
    let version = Version::decode(&answer).unwrap();
    assert_eq!(version.version(), 0x31);
    assert_eq!(version.options(), [0, 0]);
    assert_eq!(version.to_string(), "3.1");
    assert_eq!(wire.log.last(), Some(&Action::Write(vec![0x79])));

    let answer = wire.run(programmer.read_id()).unwrap();
    assert_eq!(answer, vec![0x01, 0x04, 0x10]);
    let id = Id::decode(&answer).unwrap();
    assert_eq!(id.id(), &[0x04, 0x10]);
    assert_eq!(id.as_u16(), 0x0410);
    assert_eq!(wire.log.last(), Some(&Action::Write(vec![0x79])));
}

#[test]
fn answer_that_is_cut_short_is_not_confirmed() {
    let programmer = Programmer::attach((), &Probe::new());
    let mut wire = Wire::new(Box::new(|written: &[u8]| {
        if written == [0x00, 0xff] {
            vec![0x79, 0x05, 0x31, 0x00]
        } else {
            vec![]
        }
    }));
    assert_eq!(wire.run(programmer.read_bootloader()), Err(timeout()));
    assert_eq!(wire.log.last(), Some(&Action::Read(6)));
}

#[test]
fn bytes_of_the_wrong_number_are_a_decoding_failure() {
    let tx = Transaction::recv(Expect::Version);
    assert_eq!(tx.action(), Action::Read(3));
    let tx = tx.handle(Event::Data(vec![1, 2]));
    assert!(tx.is_finished());
    assert_eq!(
        tx.into_outcome(),
        Some(Err(Error::Frame(FrameError::Length { expected: 3, found: 2 })))
    );

    let tx = Transaction::send_reliable(vec![0x7f]).handle(Event::Done).handle(Event::Done);
    assert_eq!(
        tx.into_outcome(),
        Some(Err(Error::Frame(FrameError::Length { expected: 1, found: 0 })))
    );
}

#[test]
fn answer_is_confirmed_only_where_asked() {
    let programmer = Programmer::attach((), &Probe::new());
    let tx = programmer.recv(Expect::Id);
    let tx = tx.handle(Event::Data(vec![0x00]));
    assert_eq!(tx.action(), Action::Read(1));
    let tx = tx.handle(Event::Data(vec![0x42]));
    assert_eq!(tx.action(), Action::Finish);
    assert_eq!(tx.outcome(), &Some(Ok(vec![0x00, 0x42])));

    let tx = programmer.recv_reliable(Expect::Id);
    let tx = tx.handle(Event::Data(vec![0x00])).handle(Event::Data(vec![0x42]));
    assert_eq!(tx.action(), Action::Write(vec![0x79]));
    assert!(!tx.is_finished());
    let tx = tx.handle(Event::Done);
    assert_eq!(tx.into_outcome(), Some(Ok(vec![0x00, 0x42])));
}

#[test]
fn signals_are_driven_through_the_programmer() {
    let programmer = Programmer::attach("port", &Probe::new());
    assert_eq!(programmer.set_boot(true), Some(set(Line::Dtr, false)));
    assert_eq!(programmer.set_boot(false), Some(set(Line::Dtr, true)));
    assert_eq!(programmer.set_reset(true), Some(set(Line::Rts, true)));
    assert_eq!(programmer.set_reset(false), Some(set(Line::Rts, false)));
    assert_eq!(programmer.set_signal(Signal::dtr(true), true), set(Line::Dtr, true));
    assert_eq!(
        programmer.reset(),
        vec![
            set(Line::Rts, false),
            set(Line::Rts, true),
            Action::Sleep(Duration::from_millis(10)),
            set(Line::Rts, false),
        ]
    );
    let mut probe = Probe::new();
    probe.set_signal_reset(None);
    probe.set_signal_boot(None);
    let mut programmer = Programmer::attach("port", &probe);
    assert_eq!(programmer.set_boot(true), None);
    assert_eq!(programmer.set_reset(true), None);
    assert!(programmer.reset().is_empty());
    assert_eq!(*programmer.inner(), "port");
    *programmer.inner_mut() = "other";
    assert_eq!(programmer.probe(), &probe);
    assert_eq!(programmer.into_inner(), "other");
}

#[test]
fn port_is_opened_with_the_framing_of_the_protocol() {
    let mut probe = Probe::new();
    probe.set_baudrate(57_600);
    probe.set_timeout(Duration::from_millis(250));
    let settings = Programmer::<()>::port(&probe);
    assert_eq!(settings.baudrate, 57_600);
    assert_eq!(settings.data_bits, yapu::DataBits::Eight);
    assert_eq!(settings.parity, yapu::Parity::Even);
    assert_eq!(settings.stop_bits, yapu::StopBits::One);
    assert_eq!(settings.flow_control, yapu::FlowControl::Disabled);
    assert_eq!(settings.timeout, Duration::from_millis(250));
}

#[test]
fn read_of_all_ends_well_with_a_timeout() {
    let read = vec![1u8, 2, 3];
    assert_eq!(Programmer::<()>::read_all(read.clone(), None), Ok(read.clone()));
    let timed_out = IoError { kind: IoErrorKind::TimedOut, message: "late".to_string() };
    assert_eq!(Programmer::<()>::read_all(read.clone(), Some(timed_out)), Ok(read.clone()));
    let other = IoError { kind: IoErrorKind::Other, message: "broken pipe".to_string() };
    assert_eq!(
        Programmer::<()>::read_all(read, Some(other.clone())),
        Err(Error::Io(other))
    );
}

#[test]
fn failed_identification_drops_the_connection() {
    let probe = Probe::new();
    let opened = Programmer::open("port", &probe, Err(Error::Unidentified));
    assert_eq!(opened.err(), Some(Error::Unidentified));
    let opened = Programmer::open("port", &probe, Ok(())).unwrap();
    assert_eq!(*opened.inner(), "port");
}

#[test]
fn pieces_of_a_command_are_its_encoding_cut_up() {
    let command = Command::Read { address: 0x1234_5678.into(), size: 256usize.try_into().unwrap() };
    let pieces = command.exchanges();
    assert_eq!(pieces.len(), 3);
    assert_eq!(pieces.concat(), command.encode());
}

#[test]
fn answers_come_out_decoded() {
    let programmer = Programmer::attach((), &Probe::new());
    let mut wire = target(1);
    let bootloader = wire.finish(programmer.read_bootloader()).into_bootloader();
    let bootloader = bootloader.expect("ended").expect("answered");
    assert_eq!(bootloader.version_string(), "3.1");
    assert_eq!(bootloader.opcodes(), &[Opcode::GET(), Opcode::GET_VERSION()]);

    let version = wire.finish(programmer.read_version()).into_version();
    assert_eq!(version.expect("ended").expect("answered").version(), 0x31);

    let id = wire.finish(programmer.read_id()).into_id();
    assert_eq!(id.expect("ended").expect("answered").as_u16(), 0x0410);

    let mut memory = Wire::new(Box::new(|written: &[u8]| {
        if written == [0x01, 0xfe] {
            vec![0x79, 0xca, 0xfe]
        } else {
            vec![0x79]
        }
    }));
    let data = memory.finish(programmer.read_memory(0x0800_0000, 2).unwrap()).into_data();
    assert_eq!(data.expect("ended").expect("answered").as_slice(), &[0xca, 0xfe]);
}

#[test]
fn failures_come_out_as_they_are() {
    let programmer = Programmer::attach((), &Probe::new());
    let mut wire = Wire::new(Box::new(|_| vec![0x1f]));
    let ended = wire.finish(programmer.read_bootloader()).into_bootloader();
    assert_eq!(ended.map(|result| result.map(|_| ())), Some(Err(Error::NAck)));
    let ended = wire.finish(programmer.read_version()).into_version();
    assert_eq!(ended.map(|result| result.map(|_| ())), Some(Err(Error::NAck)));
    let ended = wire.finish(programmer.read_id()).into_id();
    assert_eq!(ended.map(|result| result.map(|_| ())), Some(Err(Error::NAck)));
    let ended = wire.finish(programmer.read_memory(0, 1).unwrap()).into_data();
    assert_eq!(ended.map(|result| result.map(|_| ())), Some(Err(Error::NAck)));

    assert!(programmer.read_id().into_id().is_none());
    assert!(programmer.read_bootloader().into_bootloader().is_none());
    assert!(programmer.read_version().into_version().is_none());
    assert!(programmer.read_memory(0, 1).unwrap().into_data().is_none());
}

#[test]
fn answer_of_another_kind_is_not_decoded() {
    let programmer = Programmer::attach((), &Probe::new());
    let mut wire = target(1);
    let ended = wire.finish(programmer.read_version()).into_bootloader();
    match ended {
        Some(Err(Error::Frame(FrameError::Length { expected, found }))) => {
            assert_eq!((expected, found), (0x31 + 2, 3));
        }
        other => panic!("unexpected: {:?}", other.map(|result| result.map(|_| ()))),
    }
    let ended = wire.finish(programmer.send_command(&Command::Get())).into_data();
    match ended {
        Some(Err(Error::ProtocolConversion(yapu::protocol::Error::Exceeded(0, range)))) => {
            assert_eq!(range, 1..=256);
        }
        other => panic!("unexpected: {:?}", other.map(|result| result.map(|_| ()))),
    }
}
