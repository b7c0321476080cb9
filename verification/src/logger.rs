//! The logger's lifecycle: bound once while boot services live, then silenced
//! for good.

use vstd::prelude::*;

verus! {

/// How grave a log record is, gravest first.
#[derive(Clone, Copy, Debug, PartialEq, Eq, Structural)]
pub enum Severity {
    Error,
    Warn,
    Info,
    Debug,
    Trace,
}

impl Severity {
    /// Position in the order of gravity: `Error` is 1, `Trace` is 5.
    pub open spec fn rank(self) -> nat {
        match self {
            Severity::Error => 1,
            Severity::Warn => 2,
            Severity::Info => 3,
            Severity::Debug => 4,
            Severity::Trace => 5,
        }
    }

    /// Whether a record of this severity is at least as grave as `threshold`.
    pub fn at_least(self, threshold: Severity) -> (grave: bool)
        ensures
            grave == (self.rank() <= threshold.rank()),
    {
        let own: u8 = self.level();
        let limit: u8 = threshold.level();
        own <= limit
    }

    fn level(self) -> (level: u8)
        ensures
            level == self.rank(),
    {
        match self {
            Severity::Error => 1,
            Severity::Warn => 2,
            Severity::Info => 3,
            Severity::Debug => 4,
            Severity::Trace => 5,
        }
    }
}

/// Where the process-wide logger stands.
///
/// `Disabled` is terminal: no operation leaves it.
#[derive(Clone, Copy, Debug, PartialEq, Eq, Structural)]
pub enum LoggerBinding {
    /// No logger has been installed yet.
    Absent,
    /// The logger writes to the console of the installed service table.
    Enabled,
    /// Boot services ended; records are dropped.
    Disabled,
}

impl LoggerBinding {
    /// The least grave severity that an enabled logger still records.
    pub open spec fn spec_threshold() -> Severity {
        Severity::Info
    }

    /// Whether a record of the given severity is written out.
    pub open spec fn spec_accepts(self, severity: Severity) -> bool {
        self == LoggerBinding::Enabled && severity.rank() <= Self::spec_threshold().rank()
    }

    /// The state that `disable` leads to.
    pub open spec fn spec_disabled(self) -> LoggerBinding {
        if self == LoggerBinding::Enabled {
            LoggerBinding::Disabled
        } else {
            self
        }
    }

    /// The least grave severity that an enabled logger still records:
    /// informational.
    #[verifier::when_used_as_spec(spec_threshold)]
    pub fn threshold() -> (threshold: Severity)
        ensures
            threshold == Self::spec_threshold(),
    {
        Severity::Info
    }

    /// Installs the logger as the process-wide sink.
    ///
    /// A sink can be installed once only, so the binding must be `Absent`.
    pub fn enable(&mut self)
        requires
            *old(self) == LoggerBinding::Absent,
        ensures
            *final(self) == LoggerBinding::Enabled,
    {
        *self = LoggerBinding::Enabled;
    }

    /// Silences the logger. An absent or already silent logger stays as it is.
    pub fn disable(&mut self)
        ensures
            *final(self) == old(self).spec_disabled(),
            *old(self) == LoggerBinding::Disabled ==> *final(self) == LoggerBinding::Disabled,
    {
        if *self == LoggerBinding::Enabled {
            *self = LoggerBinding::Disabled;
        }
    }

    /// Whether the logger is bound and writing.
    pub fn is_enabled(&self) -> (enabled: bool)
        ensures
            enabled == (*self == LoggerBinding::Enabled),
    {
        *self == LoggerBinding::Enabled
    }

    /// Decides what becomes of a log call: written out, or dropped.
    ///
    /// Defined in every state, so a call after `disable` is a no-op and never
    /// a fault.
    #[verifier::when_used_as_spec(spec_accepts)]
    pub fn accepts(self, severity: Severity) -> (written: bool)
        ensures
            written == self.spec_accepts(severity),
    {
        self.is_enabled() && severity.at_least(LoggerBinding::threshold())
    }
}

} // verus!
