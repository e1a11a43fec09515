//! How a target is probed: the serial parameters, the control lines that
//! reset it and select its bootloader, and how it is told from other devices.

use std::time::Duration;
use vstd::prelude::*;
use vstd::std_specs::convert::FromSpecImpl;

verus! {

/// The speed of the serial line, in bits per second.
pub type Baudrate = u32;

/// The duration of `millis` milliseconds.
pub uninterp spec fn spec_millis(millis: u64) -> Duration;

/// `Duration::from_millis` of std: the duration of that many milliseconds.
pub assume_specification[ Duration::from_millis ](millis: u64) -> (duration: Duration)
    ensures
        duration == spec_millis(millis),
;

/// `Duration::clone` of std: a duration is copied bit for bit.
pub assume_specification[ <Duration as Clone>::clone ](duration: &Duration) -> (copy: Duration)
    ensures
        copy == *duration,
;

/// A modem control output of the serial port, used as a general output.
#[derive(Debug, Clone, Copy, PartialEq, Eq, Structural)]
pub enum Signal {
    /// Request to send; `active_when` is the level at which the signal is
    /// active.
    Rts { active_when: bool },
    /// Data terminal ready; `active_when` is the level at which the signal is
    /// active.
    Dtr { active_when: bool },
}

impl Signal {
    /// The level at which the signal is active.
    pub open spec fn spec_active_when(self) -> bool {
        match self {
            Signal::Rts { active_when } => active_when,
            Signal::Dtr { active_when } => active_when,
        }
    }

    /// The level to put on the output so that the signal is active, or is
    /// not: `active` itself where the signal is active high, its negation
    /// where it is active low.
    pub open spec fn spec_raw_level(self, active: bool) -> bool {
        if self.spec_active_when() {
            active
        } else {
            !active
        }
    }

    /// Makes the signal on the request to send output.
    pub fn rts(active_when: bool) -> (signal: Self)
        ensures
            signal == (Signal::Rts { active_when }),
    {
        Signal::Rts { active_when }
    }

    /// Makes the signal on the data terminal ready output.
    pub fn dtr(active_when: bool) -> (signal: Self)
        ensures
            signal == (Signal::Dtr { active_when }),
    {
        Signal::Dtr { active_when }
    }

    /// Returns the level at which the signal is active.
    pub fn active_when(&self) -> (level: bool)
        ensures
            level == self.spec_active_when(),
    {
        match self {
            Signal::Rts { active_when } => *active_when,
            Signal::Dtr { active_when } => *active_when,
        }
    }

    /// Whether the signal is on the request to send output.
    pub fn is_rts(&self) -> (rts: bool)
        ensures
            rts == (*self is Rts),
    {
        matches!(self, Signal::Rts { .. })
    }

    /// Whether the signal is on the data terminal ready output.
    pub fn is_dtr(&self) -> (dtr: bool)
        ensures
            dtr == (*self is Dtr),
    {
        matches!(self, Signal::Dtr { .. })
    }

    /// Returns the level to put on the output so that the signal is active
    /// (`active` true) or not.
    pub fn raw_level(&self, active: bool) -> (level: bool)
        ensures
            level == self.spec_raw_level(active),
            self.spec_active_when() ==> level == active,
            !self.spec_active_when() ==> level == !active,
    {
        if self.active_when() {
            active
        } else {
            !active
        }
    }
}

/// Which outputs reset the target and select its bootloader.
///
/// A signal that is `None` is never touched. The default resets with request
/// to send, active high, and selects the bootloader with data terminal ready,
/// active low: a choice that suits common boards, not a rule of the protocol.
#[derive(Debug, Clone, Copy, PartialEq, Eq, Structural)]
pub struct SignalScheme {
    pub reset: Option<Signal>,
    pub boot: Option<Signal>,
}

/// The scheme that is used where none is given.
pub open spec fn spec_default_scheme() -> SignalScheme {
    SignalScheme {
        reset: Some(Signal::Rts { active_when: true }),
        boot: Some(Signal::Dtr { active_when: false }),
    }
}

impl Default for SignalScheme {
    fn default() -> (scheme: Self)
        ensures
            scheme == spec_default_scheme(),
    {
        SignalScheme {
            reset: Some(Signal::Rts { active_when: true }),
            boot: Some(Signal::Dtr { active_when: false }),
        }
    }
}

impl SignalScheme {
    /// Makes the default scheme.
    pub fn new() -> (scheme: Self)
        ensures
            scheme == spec_default_scheme(),
    {
        SignalScheme::default()
    }

    /// Makes a builder that starts from the default scheme.
    pub fn builder() -> (builder: SignalSchemeBuilder)
        ensures
            builder.inner == spec_default_scheme(),
    {
        SignalSchemeBuilder::default()
    }

    /// Returns the signal that resets the target.
    pub fn reset(&self) -> (signal: Option<Signal>)
        ensures
            signal == self.reset,
    {
        self.reset
    }

    /// Returns the signal that selects the bootloader.
    pub fn boot(&self) -> (signal: Option<Signal>)
        ensures
            signal == self.boot,
    {
        self.boot
    }

    /// Sets the signal that resets the target.
    pub fn set_reset(&mut self, signal: Option<Signal>)
        ensures
            *final(self) == (SignalScheme { reset: signal, ..*old(self) }),
    {
        self.reset = signal;
    }

    /// Sets the signal that selects the bootloader.
    pub fn set_boot(&mut self, signal: Option<Signal>)
        ensures
            *final(self) == (SignalScheme { boot: signal, ..*old(self) }),
    {
        self.boot = signal;
    }
}

/// Builds a [`SignalScheme`], starting from the default scheme.
#[derive(Debug, Clone, Copy)]
pub struct SignalSchemeBuilder {
    pub inner: SignalScheme,
}

impl Default for SignalSchemeBuilder {
    fn default() -> (builder: Self)
        ensures
            builder.inner == spec_default_scheme(),
    {
        SignalSchemeBuilder { inner: SignalScheme::default() }
    }
}

impl SignalSchemeBuilder {
    /// Makes a builder that starts from the default scheme.
    pub fn new() -> (builder: Self)
        ensures
            builder.inner == spec_default_scheme(),
    {
        SignalSchemeBuilder::default()
    }

    /// Sets the signal that resets the target.
    pub fn reset(&mut self, signal: Signal) -> (builder: &mut Self)
        ensures
            *builder == (SignalSchemeBuilder {
                inner: SignalScheme { reset: Some(signal), ..old(self).inner },
            }),
            *final(self) == *final(builder),
    {
        self.inner.set_reset(Some(signal));
        self
    }

    /// Sets the signal that selects the bootloader.
    pub fn boot(&mut self, signal: Signal) -> (builder: &mut Self)
        ensures
            *builder == (SignalSchemeBuilder {
                inner: SignalScheme { boot: Some(signal), ..old(self).inner },
            }),
            *final(self) == *final(builder),
    {
        self.inner.set_boot(Some(signal));
        self
    }

    /// Returns the scheme built.
    pub fn build(self) -> (scheme: SignalScheme)
        ensures
            scheme == self.inner,
    {
        self.inner
    }
}

impl FromSpecImpl<SignalScheme> for SignalSchemeBuilder {
    open spec fn obeys_from_spec() -> bool {
        true
    }

    open spec fn from_spec(scheme: SignalScheme) -> Self {
        SignalSchemeBuilder { inner: scheme }
    }
}

impl From<SignalScheme> for SignalSchemeBuilder {
    /// Makes a builder that starts from `scheme`.
    fn from(scheme: SignalScheme) -> (builder: Self) {
        SignalSchemeBuilder { inner: scheme }
    }
}

/// How a target is told from other devices on a serial port.
#[derive(Debug, Clone, Copy, PartialEq, Eq, Structural)]
pub enum Identify {
    /// By opening a session: the target acknowledges the opening byte.
    Handshake,
    /// By the get command: a target that is already in a session answers it.
    Get,
}

impl Default for Identify {
    fn default() -> (identify: Self)
        ensures
            identify == Identify::Handshake,
    {
        Identify::Handshake
    }
}

/// The parameters with which a target is probed and programmed.
#[derive(Debug, Clone, Copy, PartialEq, Eq)]
pub struct Probe {
    pub baudrate: Baudrate,
    pub signal_scheme: SignalScheme,
    pub reset_for: Duration,
    pub max_attempts: usize,
    pub timeout: Duration,
    pub identify: Identify,
}

/// The probe that is used where none is given: 115200 baud, the default
/// signal scheme, a reset of 10 ms, 8 attempts, reads that time out after
/// 100 ms, and identification by opening a session.
pub open spec fn spec_default_probe() -> Probe {
    Probe {
        baudrate: 115_200u32,
        signal_scheme: spec_default_scheme(),
        reset_for: spec_millis(10),
        max_attempts: 8,
        timeout: spec_millis(100),
        identify: Identify::Handshake,
    }
}

impl Default for Probe {
    fn default() -> (probe: Self)
        ensures
            probe == spec_default_probe(),
    {
        Probe {
            baudrate: 115_200u32,
            signal_scheme: SignalScheme::default(),
            reset_for: Duration::from_millis(10),
            max_attempts: 8,
            timeout: Duration::from_millis(100),
            identify: Identify::default(),
        }
    }
}

impl Probe {
    /// Makes the default probe.
    pub fn new() -> (probe: Self)
        ensures
            probe == spec_default_probe(),
    {
        Probe::default()
    }

    /// Makes a builder that starts from the default probe.
    pub fn builder() -> (builder: ProbeBuilder)
        ensures
            builder.inner == spec_default_probe(),
    {
        ProbeBuilder::default()
    }

    /// Returns the speed of the serial line.
    pub fn baudrate(&self) -> (baudrate: Baudrate)
        ensures
            baudrate == self.baudrate,
    {
        self.baudrate
    }

    /// Sets the speed of the serial line.
    pub fn set_baudrate(&mut self, baudrate: Baudrate)
        ensures
            *final(self) == (Probe { baudrate, ..*old(self) }),
    {
        self.baudrate = baudrate;
    }

    /// Returns the signal scheme.
    pub fn signal_scheme(&self) -> (scheme: SignalScheme)
        ensures
            scheme == self.signal_scheme,
    {
        self.signal_scheme
    }

    /// Sets the signal scheme.
    pub fn set_signal_scheme(&mut self, scheme: SignalScheme)
        ensures
            *final(self) == (Probe { signal_scheme: scheme, ..*old(self) }),
    {
        self.signal_scheme = scheme;
    }

    /// Returns the signal that resets the target.
    pub fn signal_reset(&self) -> (signal: Option<Signal>)
        ensures
            signal == self.signal_scheme.reset,
    {
        self.signal_scheme.reset()
    }

    /// Sets the signal that resets the target.
    pub fn set_signal_reset(&mut self, signal: Option<Signal>)
        ensures
            *final(self) == (Probe {
                signal_scheme: SignalScheme { reset: signal, ..old(self).signal_scheme },
                ..*old(self)
            }),
    {
        self.signal_scheme.set_reset(signal);
    }

    /// Returns the signal that selects the bootloader.
    pub fn signal_boot(&self) -> (signal: Option<Signal>)
        ensures
            signal == self.signal_scheme.boot,
    {
        self.signal_scheme.boot()
    }

    /// Sets the signal that selects the bootloader.
    pub fn set_signal_boot(&mut self, signal: Option<Signal>)
        ensures
            *final(self) == (Probe {
                signal_scheme: SignalScheme { boot: signal, ..old(self).signal_scheme },
                ..*old(self)
            }),
    {
        self.signal_scheme.set_boot(signal);
    }

    /// Returns how long the reset signal is held active.
    pub fn reset_for(&self) -> (duration: Duration)
        ensures
            duration == self.reset_for,
    {
        self.reset_for
    }

    /// Sets how long the reset signal is held active.
    pub fn set_reset_for(&mut self, duration: Duration)
        ensures
            *final(self) == (Probe { reset_for: duration, ..*old(self) }),
    {
        self.reset_for = duration;
    }

    /// Returns how often identification is tried before it is given up.
    pub fn max_attempts(&self) -> (max: usize)
        ensures
            max == self.max_attempts,
    {
        self.max_attempts
    }

    /// Sets how often identification is tried before it is given up.
    pub fn set_max_attempts(&mut self, max: usize)
        ensures
            *final(self) == (Probe { max_attempts: max, ..*old(self) }),
    {
        self.max_attempts = max;
    }

    /// Returns after what time a read from the port gives up.
    pub fn timeout(&self) -> (timeout: Duration)
        ensures
            timeout == self.timeout,
    {
        self.timeout
    }

    /// Sets after what time a read from the port gives up.
    pub fn set_timeout(&mut self, timeout: Duration)
        ensures
            *final(self) == (Probe { timeout, ..*old(self) }),
    {
        self.timeout = timeout;
    }

    /// Returns how the target is told from other devices.
    pub fn identify(&self) -> (identify: Identify)
        ensures
            identify == self.identify,
    {
        self.identify
    }

    /// Sets how the target is told from other devices.
    pub fn set_identify(&mut self, scheme: Identify)
        ensures
            *final(self) == (Probe { identify: scheme, ..*old(self) }),
    {
        self.identify = scheme;
    }
}

/// Builds a [`Probe`], starting from the default probe.
#[derive(Debug, Clone, Copy)]
pub struct ProbeBuilder {
    pub inner: Probe,
}

impl Default for ProbeBuilder {
    fn default() -> (builder: Self)
        ensures
            builder.inner == spec_default_probe(),
    {
        ProbeBuilder { inner: Probe::default() }
    }
}

impl ProbeBuilder {
    /// Makes a builder that starts from the default probe.
    pub fn new() -> (builder: Self)
        ensures
            builder.inner == spec_default_probe(),
    {
        ProbeBuilder::default()
    }

    /// Returns the probe built.
    pub fn build(self) -> (probe: Probe)
        ensures
            probe == self.inner,
    {
        self.inner
    }

    /// Sets the speed of the serial line.
    pub fn baudrate(&mut self, baudrate: Baudrate) -> (builder: &mut Self)
        ensures
            builder.inner == (Probe { baudrate, ..old(self).inner }),
            *final(self) == *final(builder),
    {
        self.inner.baudrate = baudrate;
        self
    }

    /// Sets the signal that resets the target.
    pub fn signal_reset(&mut self, signal: Signal) -> (builder: &mut Self)
        ensures
            builder.inner == (Probe {
                signal_scheme: SignalScheme {
                    reset: Some(signal),
                    ..old(self).inner.signal_scheme
                },
                ..old(self).inner
            }),
            *final(self) == *final(builder),
    {
        self.inner.signal_scheme.set_reset(Some(signal));
        self
    }

    /// Sets the signal that selects the bootloader.
    pub fn signal_boot(&mut self, signal: Signal) -> (builder: &mut Self)
        ensures
            builder.inner == (Probe {
                signal_scheme: SignalScheme {
                    boot: Some(signal),
                    ..old(self).inner.signal_scheme
                },
                ..old(self).inner
            }),
            *final(self) == *final(builder),
    {
        self.inner.signal_scheme.set_boot(Some(signal));
        self
    }

    /// Sets the signal scheme.
    pub fn signal_scheme(&mut self, scheme: SignalScheme) -> (builder: &mut Self)
        ensures
            builder.inner == (Probe { signal_scheme: scheme, ..old(self).inner }),
            *final(self) == *final(builder),
    {
        self.inner.signal_scheme = scheme;
        self
    }

    /// Leaves the target without a signal that resets it.
    pub fn disable_reset(&mut self) -> (builder: &mut Self)
        ensures
            builder.inner == (Probe {
                signal_scheme: SignalScheme { reset: None, ..old(self).inner.signal_scheme },
                ..old(self).inner
            }),
            *final(self) == *final(builder),
    {
        self.inner.signal_scheme.set_reset(None);
        self
    }

    /// Leaves the target without a signal that selects its bootloader.
    pub fn disable_boot(&mut self) -> (builder: &mut Self)
        ensures
            builder.inner == (Probe {
                signal_scheme: SignalScheme { boot: None, ..old(self).inner.signal_scheme },
                ..old(self).inner
            }),
            *final(self) == *final(builder),
    {
        self.inner.signal_scheme.set_boot(None);
        self
    }

    /// Sets how long the reset signal is held active.
    pub fn reset_for(&mut self, duration: Duration) -> (builder: &mut Self)
        ensures
            builder.inner == (Probe { reset_for: duration, ..old(self).inner }),
            *final(self) == *final(builder),
    {
        self.inner.reset_for = duration;
        self
    }

    /// Sets how often identification is tried before it is given up.
    pub fn max_attempts(&mut self, max: usize) -> (builder: &mut Self)
        ensures
            builder.inner == (Probe { max_attempts: max, ..old(self).inner }),
            *final(self) == *final(builder),
    {
        self.inner.max_attempts = max;
        self
    }

    /// Sets after what time a read from the port gives up.
    pub fn timeout(&mut self, timeout: Duration) -> (builder: &mut Self)
        ensures
            builder.inner == (Probe { timeout, ..old(self).inner }),
            *final(self) == *final(builder),
    {
        self.inner.timeout = timeout;
        self
    }

    /// Sets how the target is told from other devices.
    pub fn identify(&mut self, identify: Identify) -> (builder: &mut Self)
        ensures
            builder.inner == (Probe { identify, ..old(self).inner }),
            *final(self) == *final(builder),
    {
        self.inner.identify = identify;
        self
    }
}

impl FromSpecImpl<Probe> for ProbeBuilder {
    open spec fn obeys_from_spec() -> bool {
        true
    }

    open spec fn from_spec(probe: Probe) -> Self {
        ProbeBuilder { inner: probe }
    }
}

impl From<Probe> for ProbeBuilder {
    /// Makes a builder that starts from `probe`.
    fn from(probe: Probe) -> (builder: Self) {
        ProbeBuilder { inner: probe }
    }
}

} // verus!
