//! The command line, as far as it is decided before anything is done: the
//! options, the probe that they describe, and what to print of a target.

use crate::probe::Baudrate;
use crate::probe::Identify;
use crate::probe::Probe;
use crate::probe::Signal;
use crate::probe::SignalScheme;
use crate::probe::spec_default_probe;
use crate::protocol::Opcode;
use crate::reply::spec_version_text;
use crate::reply::Bootloader;
use std::str::FromStr;
use vstd::prelude::*;
use vstd::std_specs::convert::FromSpecImpl;
use vstd::string::StrSliceExecFns;
use vstd::string::StringExecFns;

verus! {

/// A text that names no signal.
#[derive(Debug, Clone, PartialEq, Eq)]
pub struct SignalFormatError {
    /// The text.
    pub text: String,
}

impl SignalFormatError {
    /// The error in words.
    pub open spec fn spec_text(self) -> Seq<char> {
        "incorrect signal format: "@ + self.text@
    }

    /// Writes the error in words.
    pub fn to_string(&self) -> (words: String)
        ensures
            words@ == self.spec_text(),
    {
        let mut words = "incorrect signal format: ".to_owned();
        words.append(self.text.as_str());
        words
    }
}

/// `text` without the exclamation marks that it starts with.
pub open spec fn spec_strip(text: Seq<char>) -> Seq<char>
    decreases text.len(),
{
    if text.len() > 0 && text[0] == '!' {
        spec_strip(text.skip(1))
    } else {
        text
    }
}

/// A text that starts with `count` exclamation marks, and goes on with
/// another character or ends there, is stripped of just these.
pub proof fn lemma_strip(text: Seq<char>, count: int)
    requires
        0 <= count <= text.len(),
        forall|i: int| 0 <= i < count ==> text[i] == '!',
        count < text.len() ==> text[count] != '!',
    ensures
        spec_strip(text) == text.skip(count),
    decreases count,
{
    if count == 0 {
        assert(text.skip(0) =~= text);
    } else {
        lemma_strip(text.skip(1), count - 1);
        assert(text.skip(1).skip(count - 1) =~= text.skip(count));
    }
}

/// Whether `text`, from its character `from` on, is `word`.
fn ends_with_word(text: &str, from: usize, word: &str) -> (same: bool)
    requires
        from <= text@.len(),
    ensures
        same == (text@.skip(from as int) == word@),
{
    let len = text.unicode_len();
    let wanted = word.unicode_len();
    if len - from != wanted {
        return false;
    }
    let mut i: usize = 0;
    while i < wanted
        invariant
            i <= wanted,
            from + wanted == len,
            len == text@.len(),
            wanted == word@.len(),
            forall|k: int| 0 <= k < i ==> text@[from + k] == word@[k],
        decreases wanted - i,
    {
        if text.get_char(from + i) != word.get_char(i) {
            assert(text@.skip(from as int)[i as int] != word@[i as int]);
            return false;
        }
        i += 1;
    }
    assert(text@.skip(from as int) =~= word@);
    true
}

/// A signal as the command line names it: `none`, `rts` or `dtr`, the last
/// two with an exclamation mark in front where the signal is active low.
#[derive(Debug, Clone, Copy, PartialEq, Eq, Structural)]
pub struct DeviceSignal(pub Option<Signal>);

impl DeviceSignal {
    /// The level of a signal that is active high.
    pub const HIGH: bool = true;

    /// The level of a signal that is active low.
    pub const LOW: bool = false;

    /// The signal that `text` names, if it names one.
    ///
    /// A text that starts with an exclamation mark names a signal that is
    /// active low; the name is what follows the exclamation marks. `none`
    /// names no signal, and takes no exclamation mark.
    pub open spec fn spec_parse(text: Seq<char>) -> Option<DeviceSignal> {
        let active_when = !(text.len() > 0 && text[0] == '!');
        if spec_strip(text) == "rts"@ {
            Some(DeviceSignal(Some(Signal::Rts { active_when })))
        } else if spec_strip(text) == "dtr"@ {
            Some(DeviceSignal(Some(Signal::Dtr { active_when })))
        } else if text == "none"@ {
            Some(DeviceSignal(None))
        } else {
            None
        }
    }

    /// The name of the signal on the command line.
    pub open spec fn spec_text(self) -> Seq<char> {
        match self.0 {
            Some(Signal::Rts { active_when }) => if active_when {
                "rts"@
            } else {
                "!"@ + "rts"@
            },
            Some(Signal::Dtr { active_when }) => if active_when {
                "dtr"@
            } else {
                "!"@ + "dtr"@
            },
            None => "none"@,
        }
    }

    /// Reads the signal that `text` names.
    pub fn parse(text: &str) -> (parsed: Result<DeviceSignal, SignalFormatError>)
        ensures
            match Self::spec_parse(text@) {
                Some(signal) => parsed == Ok::<DeviceSignal, SignalFormatError>(signal),
                None => parsed matches Err(error) && error.text@ == text@,
            },
    {
        let len = text.unicode_len();
        let mut start: usize = 0;
        while start < len && text.get_char(start) == '!'
            invariant
                start <= len,
                len == text@.len(),
                forall|i: int| 0 <= i < start ==> text@[i] == '!',
            decreases len - start,
        {
            start += 1;
        }
        proof {
            lemma_strip(text@, start as int);
        }
        let active_when = if start > 0 {
            Self::LOW
        } else {
            Self::HIGH
        };
        if ends_with_word(text, start, "rts") {
            Ok(DeviceSignal(Some(Signal::rts(active_when))))
        } else if ends_with_word(text, start, "dtr") {
            Ok(DeviceSignal(Some(Signal::dtr(active_when))))
        } else if ends_with_word(text, 0, "none") {
            assert(text@.skip(0) =~= text@);
            Ok(DeviceSignal(None))
        } else {
            assert(text@.skip(0) =~= text@);
            Err(SignalFormatError { text: text.to_owned() })
        }
    }

    /// Writes the name of the signal on the command line.
    pub fn to_string(&self) -> (words: String)
        ensures
            words@ == self.spec_text(),
    {
        match self.0 {
            Some(signal) => {
                let mut words = String::new();
                if signal.active_when() == Self::LOW {
                    words.append("!");
                }
                match signal {
                    Signal::Rts { .. } => words.append("rts"),
                    Signal::Dtr { .. } => words.append("dtr"),
                }
                assert(words@ =~= self.spec_text());
                words
            },
            None => "none".to_owned(),
        }
    }
}

/// The name of a signal names that signal.
pub proof fn lemma_signal_round_trip(signal: DeviceSignal)
    ensures
        DeviceSignal::spec_parse(signal.spec_text()) == Some(signal),
{
    reveal_strlit("rts");
    reveal_strlit("dtr");
    reveal_strlit("none");
    reveal_strlit("!");
    let text = signal.spec_text();
    assert("rts"@.len() == 3 && "rts"@[0] == 'r');
    assert("dtr"@.len() == 3 && "dtr"@[0] == 'd');
    assert("none"@.len() == 4 && "none"@[0] == 'n');
    assert("!"@.len() == 1 && "!"@[0] == '!');
    assert("rts"@ != "dtr"@);
    match signal.0 {
        Some(signal) => {
            let word = if signal is Rts {
                "rts"@
            } else {
                "dtr"@
            };
            if signal.spec_active_when() {
                assert(text == word);
                lemma_strip(text, 0);
                assert(text.skip(0) =~= word);
            } else {
                assert(text == "!"@ + word);
                assert(text[0] == '!');
                assert(text[1] == word[0]);
                lemma_strip(text, 1);
                assert(text.skip(1) =~= word);
            }
            assert(spec_strip(text) == word);
        },
        None => {
            lemma_strip(text, 0);
            assert(text.skip(0) =~= text);
            assert(spec_strip(text) == "none"@);
            assert("none"@ != "rts"@);
            assert("none"@ != "dtr"@);
        },
    }
}

impl FromStr for DeviceSignal {
    type Err = SignalFormatError;

    /// Reads the signal that `text` names.
    fn from_str(text: &str) -> (parsed: Result<Self, SignalFormatError>)
        ensures
            match DeviceSignal::spec_parse(text@) {
                Some(signal) => parsed == Ok::<DeviceSignal, SignalFormatError>(signal),
                None => parsed matches Err(error) && error.text@ == text@,
            },
    {
        DeviceSignal::parse(text)
    }
}

impl FromSpecImpl<Signal> for DeviceSignal {
    open spec fn obeys_from_spec() -> bool {
        true
    }

    open spec fn from_spec(signal: Signal) -> Self {
        DeviceSignal(Some(signal))
    }
}

impl From<Signal> for DeviceSignal {
    fn from(signal: Signal) -> (named: Self) {
        DeviceSignal(Some(signal))
    }
}

/// How a target is told from other devices, as the command line names it.
#[derive(Debug, Clone, Copy, PartialEq, Eq, Structural)]
pub enum DeviceIdentify {
    /// By opening a session.
    Handshake,
    /// By the get command.
    Get,
}

impl DeviceIdentify {
    /// The way of identification that the name stands for.
    pub open spec fn spec_identify(self) -> Identify {
        match self {
            DeviceIdentify::Handshake => Identify::Handshake,
            DeviceIdentify::Get => Identify::Get,
        }
    }
}

impl FromSpecImpl<DeviceIdentify> for Identify {
    open spec fn obeys_from_spec() -> bool {
        true
    }

    open spec fn from_spec(named: DeviceIdentify) -> Self {
        named.spec_identify()
    }
}

impl From<DeviceIdentify> for Identify {
    fn from(named: DeviceIdentify) -> (identify: Self) {
        match named {
            DeviceIdentify::Handshake => Identify::Handshake,
            DeviceIdentify::Get => Identify::Get,
        }
    }
}

/// Which target a command works on.
#[derive(Debug, Clone, PartialEq, Eq)]
pub struct DeviceOptions {
    /// The port of the target; the first target found where there is none.
    pub device: Option<String>,
}

/// How targets are probed.
#[derive(Debug, Clone, Copy, PartialEq, Eq)]
pub struct ProbeOptions {
    /// The speed of the serial line.
    pub baudrate: Baudrate,
    /// The signal that resets the target.
    pub reset: DeviceSignal,
    /// The signal that selects the bootloader.
    pub boot: DeviceSignal,
    /// How a target is told from other devices.
    pub identify: DeviceIdentify,
}

impl ProbeOptions {
    /// The probe that the options describe: the default probe, with the
    /// baudrate, the two signals and the way of identification of the options.
    pub open spec fn spec_probe(self) -> Probe {
        Probe {
            baudrate: self.baudrate,
            signal_scheme: SignalScheme { reset: self.reset.0, boot: self.boot.0 },
            identify: self.identify.spec_identify(),
            ..spec_default_probe()
        }
    }

    /// Makes the probe that the options describe.
    pub fn build_probe(&self) -> (probe: Probe)
        ensures
            probe == self.spec_probe(),
    {
        let mut scheme = SignalScheme::new();
        scheme.set_reset(self.reset.0);
        scheme.set_boot(self.boot.0);
        let mut builder = Probe::builder();
        builder.baudrate(self.baudrate).signal_scheme(scheme).identify(
            Identify::from(self.identify),
        );
        builder.build()
    }
}

/// How results are printed.
#[derive(Debug, Clone, Copy, PartialEq, Eq, Structural, PartialOrd, Ord)]
pub enum Format {
    /// As lines of text.
    Text,
    /// As a table.
    Table,
    /// As JSON.
    Json,
}

impl Default for Format {
    fn default() -> (format: Self)
        ensures
            format == Format::Text,
    {
        Format::Text
    }
}

impl Format {
    /// Whether results are printed as lines of text.
    pub fn is_text(&self) -> (text: bool)
        ensures
            text == (*self is Text),
    {
        matches!(self, Format::Text)
    }

    /// Whether results are printed as a table.
    #[inline]
    pub fn is_table(&self) -> (table: bool)
        ensures
            table == (*self is Table),
    {
        matches!(self, Format::Table)
    }

    /// Whether results are printed as JSON.
    #[inline]
    pub fn is_json(&self) -> (json: bool)
        ensures
            json == (*self is Json),
    {
        matches!(self, Format::Json)
    }
}

/// The options of the command that discovers targets.
#[derive(Debug, Clone, Copy, PartialEq, Eq)]
pub struct DiscoverOptions {
    /// How targets are probed.
    pub probe: ProbeOptions,
}

/// The options of the interactive shell.
#[derive(Debug, Clone, Copy, PartialEq, Eq, Structural)]
pub struct ShellOptions {
    /// Whether the prompt and the welcome are left out.
    pub no_prompt: bool,
}

/// A command of the command line.
#[derive(Debug, Clone, Copy, PartialEq, Eq)]
pub enum Command {
    /// Discover the targets on the serial ports of the host.
    Discover(DiscoverOptions),
    /// Enter the interactive shell.
    Shell(ShellOptions),
}

/// What the program is to do.
#[derive(Debug, Clone, Copy, PartialEq, Eq)]
pub enum Task {
    /// Discover targets with `probe` and print them in `format`; tell the
    /// user to wait where `announce` is set.
    Discover { probe: Probe, format: Format, announce: bool },
    /// Run the interactive shell.
    Shell(ShellOptions),
}

/// The command line after it was read.
#[derive(Debug, Clone, Copy, PartialEq, Eq)]
pub struct Cli {
    /// The command.
    pub command: Command,
    /// How results are printed.
    pub format: Format,
}

impl Cli {
    /// What the command line asks for: the user is told to wait for
    /// discovery only where results are printed as text.
    pub open spec fn spec_task(self) -> Task {
        match self.command {
            Command::Discover(options) => Task::Discover {
                probe: options.probe.spec_probe(),
                format: self.format,
                announce: self.format is Text,
            },
            Command::Shell(options) => Task::Shell(options),
        }
    }

    /// Returns what the command line asks for.
    pub fn execute(&self) -> (task: Task)
        ensures
            task == self.spec_task(),
    {
        match &self.command {
            Command::Discover(options) => Task::Discover {
                probe: options.probe.build_probe(),
                format: self.format,
                announce: self.format.is_text(),
            },
            Command::Shell(options) => Task::Shell(*options),
        }
    }
}

/// `names`, with `, ` between one and the next.
pub open spec fn spec_list(names: Seq<Seq<char>>) -> Seq<char>
    decreases names.len(),
{
    if names.len() == 0 {
        Seq::empty()
    } else if names.len() == 1 {
        names[0]
    } else {
        spec_list(names.drop_last()) + ", "@ + names.last()
    }
}

/// The operations `opcodes` in words, each as [`Opcode::spec_text`] has it.
pub open spec fn spec_names(opcodes: Seq<Opcode>) -> Seq<Seq<char>> {
    Seq::new(opcodes.len(), |i: int| opcodes[i].spec_text())
}

/// Writes the operations `opcodes` in words, with `, ` between one and the
/// next.
pub fn list(opcodes: &[Opcode]) -> (words: String)
    ensures
        words@ == spec_list(spec_names(opcodes@)),
{
    let mut words = String::new();
    let mut i: usize = 0;
    while i < opcodes.len()
        invariant
            i <= opcodes@.len(),
            words@ == spec_list(spec_names(opcodes@.take(i as int))),
        decreases opcodes@.len() - i,
    {
        proof {
            assert(spec_names(opcodes@.take(i + 1)).drop_last() =~= spec_names(
                opcodes@.take(i as int),
            ));
        }
        if i > 0 {
            words.append(", ");
        }
        words.append(opcodes[i].to_string().as_str());
        proof {
            assert(words@ =~= spec_list(spec_names(opcodes@.take(i + 1))));
        }
        i += 1;
    }
    proof {
        assert(opcodes@.take(i as int) =~= opcodes@);
    }
    words
}

/// What is printed of a target that was discovered.
#[derive(Debug, Clone, PartialEq, Eq)]
pub struct Device {
    /// The name of the port, where it has one.
    pub name: Option<String>,
    /// The version of the bootloader, in words.
    pub version: String,
    /// The operations that the target supports.
    pub opcodes: Vec<Opcode>,
}

impl Device {
    /// The target in two lines of text: the name of its port (`N/A` where it
    /// has none) and the version; then the operations.
    pub open spec fn spec_text(self) -> Seq<char> {
        "Name: "@ + (match self.name {
            Some(name) => name@,
            None => "N/A"@,
        }) + "\tVersion: "@ + self.version@ + "\nOpcodes: "@ + spec_list(
            spec_names(self.opcodes@),
        ) + "\n"@
    }

    /// Makes what is printed of the target on the port `name` that answered
    /// the get command with `bootloader`.
    pub fn from_bootloader(name: Option<&str>, bootloader: &Bootloader) -> (device: Self)
        ensures
            match name {
                Some(text) => device.name matches Some(kept) && kept@ == text@,
                None => device.name is None,
            },
            device.version@ == spec_version_text(bootloader.spec_version()),
            device.opcodes@ == bootloader.spec_opcodes(),
    {
        let name = match name {
            Some(text) => Some(text.to_owned()),
            None => None,
        };
        let known = bootloader.opcodes();
        let mut opcodes: Vec<Opcode> = Vec::new();
        let mut i: usize = 0;
        while i < known.len()
            invariant
                i <= known@.len(),
                opcodes@ == known@.take(i as int),
            decreases known@.len() - i,
        {
            opcodes.push(known[i]);
            proof {
                assert(opcodes@ =~= known@.take(i + 1));
            }
            i += 1;
        }
        proof {
            assert(known@.take(i as int) =~= known@);
        }
        Device { name, version: bootloader.version_string(), opcodes }
    }

    /// Writes the target in two lines of text.
    pub fn to_string(&self) -> (words: String)
        ensures
            words@ == self.spec_text(),
    {
        let mut words = "Name: ".to_owned();
        match &self.name {
            Some(name) => words.append(name.as_str()),
            None => words.append("N/A"),
        }
        words.append("\tVersion: ");
        words.append(self.version.as_str());
        words.append("\nOpcodes: ");
        words.append(list(self.opcodes.as_slice()).as_str());
        words.append("\n");
        words
    }
}

} // verus!
