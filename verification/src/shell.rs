//! The interactive shell, as far as it decides: what a command asks for, what
//! it changes in the probe, and what the prompt says.

use crate::cli::DeviceIdentify;
use crate::cli::DeviceSignal;
use crate::cli::ShellOptions;
use crate::probe::Baudrate;
use crate::probe::Probe;
use crate::probe::SignalScheme;
use crate::probe::spec_default_probe;
use crate::probe::spec_millis;
use crate::programmer::Programmer;
use std::time::Duration;
use vstd::prelude::*;
use vstd::string::StringExecFns;

verus! {

/// A command of the shell.
#[derive(Debug, Clone, PartialEq, Eq)]
pub enum Command {
    /// Clear the screen.
    Clear,
    /// Open the target on the port `device` and make it the current one.
    Open { device: String },
    /// Change the probe: each field that is there replaces that of the probe;
    /// `reset_for` is in milliseconds.
    Probe {
        baudrate: Option<Baudrate>,
        reset: Option<DeviceSignal>,
        boot: Option<DeviceSignal>,
        reset_for: Option<u64>,
        identify: Option<DeviceIdentify>,
    },
    /// List the serial ports of the host.
    Ports,
    /// Discover the targets on the serial ports of the host.
    Discover,
    /// Ask the current target for its bootloader.
    Get,
    /// Ask the current target for its version.
    Version,
    /// Ask the current target for the identifier of its chip.
    Id,
}

/// What the shell asks the current target.
#[derive(Debug, Clone, Copy, PartialEq, Eq, Structural)]
pub enum Query {
    /// The bootloader and the operations that it supports.
    Get,
    /// The version and the option bytes.
    Version,
    /// The identifier of the chip.
    Id,
}

/// What the shell is to do for a command.
#[derive(Debug, Clone, PartialEq, Eq)]
pub enum Step {
    /// Clear the screen.
    Clear,
    /// Open the target on the port and make it the current one.
    Open(String),
    /// Nothing: the probe is changed.
    Configured,
    /// Ask the current target.
    Ask(Query),
    /// Tell the user that a target must be opened first.
    NeedsDevice,
    /// Tell the user that the shell cannot do this.
    Unsupported,
}

impl Command {
    /// What the command asks of the current target, if anything.
    pub open spec fn spec_query(self) -> Option<Query> {
        match self {
            Command::Get => Some(Query::Get),
            Command::Version => Some(Query::Version),
            Command::Id => Some(Query::Id),
            _ => None,
        }
    }

    /// The probe after the command: a command that changes the probe replaces
    /// the fields that it gives; every other command leaves the probe alone.
    pub open spec fn spec_configure(self, probe: Probe) -> Probe {
        match self {
            Command::Probe { baudrate, reset, boot, reset_for, identify } => Probe {
                baudrate: match baudrate {
                    Some(baudrate) => baudrate,
                    None => probe.baudrate,
                },
                signal_scheme: SignalScheme {
                    reset: match reset {
                        Some(signal) => signal.0,
                        None => probe.signal_scheme.reset,
                    },
                    boot: match boot {
                        Some(signal) => signal.0,
                        None => probe.signal_scheme.boot,
                    },
                },
                reset_for: match reset_for {
                    Some(millis) => spec_millis(millis),
                    None => probe.reset_for,
                },
                identify: match identify {
                    Some(named) => named.spec_identify(),
                    None => probe.identify,
                },
                ..probe
            },
            _ => probe,
        }
    }

    /// Whether the command works on the current target.
    pub fn requires_device(&self) -> (required: bool)
        ensures
            required == self.spec_query() is Some,
            required == (*self is Get || *self is Version || *self is Id),
    {
        match self {
            Command::Get | Command::Version | Command::Id => true,
            _ => false,
        }
    }

    /// Changes `probe` as the command says.
    pub fn configure(&self, probe: &mut Probe)
        ensures
            *final(probe) == self.spec_configure(*old(probe)),
    {
        match self {
            Command::Probe { baudrate, reset, boot, reset_for, identify } => {
                if let Some(baudrate) = baudrate {
                    probe.set_baudrate(*baudrate);
                }
                if let Some(reset) = reset {
                    probe.set_signal_reset(reset.0);
                }
                if let Some(boot) = boot {
                    probe.set_signal_boot(boot.0);
                }
                if let Some(reset_for) = reset_for {
                    probe.set_reset_for(Duration::from_millis(*reset_for));
                }
                if let Some(identify) = identify {
                    probe.set_identify(crate::probe::Identify::from(*identify));
                }
            },
            _ => {},
        }
    }
}

/// The prompt of the shell: nothing where the prompt is left out; `yapu> `
/// where no target is open; for an open target, `yapu (` and `)> ` around
/// the name of the port, or `N/A` where the port has no name.
pub open spec fn spec_prompt(no_prompt: bool, current: Option<Option<Seq<char>>>) -> Seq<char> {
    if no_prompt {
        Seq::empty()
    } else {
        match current {
            Some(Some(name)) => "yapu ("@ + name + ")> "@,
            Some(None) => "N/A"@,
            None => "yapu> "@,
        }
    }
}

/// The interactive shell: the target that is open, if one is, and the probe
/// that the user has configured.
#[derive(Debug)]
pub struct Shell<P> {
    /// The target that is open.
    pub current: Option<Programmer<P>>,
    /// The options that the shell was started with.
    pub options: ShellOptions,
    /// The probe that the user has configured.
    pub probe: Probe,
}

impl<P> Shell<P> {
    /// Makes a shell with no target open and the default probe.
    pub fn new(options: ShellOptions) -> (shell: Self)
        ensures
            shell.current is None,
            shell.options == options,
            shell.probe == spec_default_probe(),
    {
        Shell { current: None, options, probe: Probe::default() }
    }

    /// Writes the prompt; `name` is the name of the port of the target that
    /// is open, where the port has one.
    pub fn prompt(&self, name: Option<&str>) -> (words: String)
        ensures
            words@ == spec_prompt(
                self.options.no_prompt,
                match self.current {
                    Some(_) => Some(
                        match name {
                            Some(text) => Some(text@),
                            None => None,
                        },
                    ),
                    None => None,
                },
            ),
    {
        if self.options.no_prompt {
            String::new()
        } else {
            match &self.current {
                Some(_) => match name {
                    Some(text) => {
                        let mut words = String::from_str("yapu (");
                        words.append(text);
                        words.append(")> ");
                        words
                    },
                    None => String::from_str("N/A"),
                },
                None => String::from_str("yapu> "),
            }
        }
    }

    /// What the shell does for `command`, with or without an open target.
    pub open spec fn spec_step(self, command: Command) -> Step {
        match command {
            Command::Clear => Step::Clear,
            Command::Open { device } => Step::Open(device),
            Command::Probe { .. } => Step::Configured,
            Command::Get | Command::Version | Command::Id => if self.current is Some {
                Step::Ask(command.spec_query().unwrap())
            } else {
                Step::NeedsDevice
            },
            Command::Ports | Command::Discover => Step::Unsupported,
        }
    }

    /// Takes `command`: changes the probe where the command says so, and
    /// returns what is to be done. A command that works on the current target
    /// is refused where none is open.
    pub fn execute(&mut self, command: &Command) -> (step: Step)
        ensures
            final(self).probe == command.spec_configure(old(self).probe),
            final(self).current == old(self).current,
            final(self).options == old(self).options,
            match *command {
                Command::Open { device } => step matches Step::Open(name) && name@ == device@,
                _ => step == old(self).spec_step(*command),
            },
    {
        match command {
            Command::Clear => Step::Clear,
            Command::Open { device } => Step::Open(device.clone()),
            Command::Probe { .. } => {
                command.configure(&mut self.probe);
                Step::Configured
            },
            Command::Get => if self.current.is_some() {
                Step::Ask(Query::Get)
            } else {
                Step::NeedsDevice
            },
            Command::Version => if self.current.is_some() {
                Step::Ask(Query::Version)
            } else {
                Step::NeedsDevice
            },
            Command::Id => if self.current.is_some() {
                Step::Ask(Query::Id)
            } else {
                Step::NeedsDevice
            },
            Command::Ports | Command::Discover => Step::Unsupported,
        }
    }
}

} // verus!
