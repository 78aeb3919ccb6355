//! What can go wrong, and how much it matters.

use vstd::prelude::*;

verus! {

/// The failures that the launcher tells apart.
#[derive(Clone, Copy, Debug, PartialEq, Eq, Structural)]
pub enum Failure {
    /// The configuration file could not be read.
    ConfigLoad,
    /// The configuration file does not hold a well-formed document.
    ConfigParse,
    /// The global shortcut could not be registered.
    ShortcutRegistration,
    /// The window of the surface could not be had.
    WindowUnavailable,
    /// A name was chosen that the configuration does not hold.
    UnknownName,
    /// The operating system did not open the URL or start the program.
    OsAction,
}

/// How a failure is met.
#[derive(Clone, Copy, Debug, PartialEq, Eq, Structural)]
pub enum Severity {
    /// The process prints a diagnostic and ends.
    Fatal,
    /// The failure is logged; the caller is told nothing.
    Reported,
    /// The failure is logged and the action is given up.
    Ignored,
}

impl Failure {
    /// How this failure is met: what makes the launcher useless is fatal,
    /// an unknown name is reported, a failed action is let go.
    pub open spec fn spec_severity(self) -> Severity {
        match self {
            Failure::ConfigLoad => Severity::Fatal,
            Failure::ConfigParse => Severity::Fatal,
            Failure::ShortcutRegistration => Severity::Fatal,
            Failure::WindowUnavailable => Severity::Fatal,
            Failure::UnknownName => Severity::Reported,
            Failure::OsAction => Severity::Ignored,
        }
    }

    /// How this failure is met.
    #[verifier::when_used_as_spec(spec_severity)]
    pub fn severity(self) -> (severity: Severity)
        ensures
            severity == self.spec_severity(),
    {
        match self {
            Failure::ConfigLoad => Severity::Fatal,
            Failure::ConfigParse => Severity::Fatal,
            Failure::ShortcutRegistration => Severity::Fatal,
            Failure::WindowUnavailable => Severity::Fatal,
            Failure::UnknownName => Severity::Reported,
            Failure::OsAction => Severity::Ignored,
        }
    }

    /// Whether the process has to end on this failure.
    pub fn is_fatal(self) -> (fatal: bool)
        ensures
            fatal == (self.spec_severity() == Severity::Fatal),
    {
        match self.severity() {
            Severity::Fatal => true,
            _ => false,
        }
    }
}

} // verus!
