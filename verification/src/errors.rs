//! Setup failures. Every one of these is fatal: it is reported before any
//! event is processed and the process exits non-zero.

use vstd::prelude::*;

verus! {

/// The ways startup can fail before any event is read.
#[derive(Clone, Copy, Debug, PartialEq, Eq, Structural)]
pub enum SetupError {
    /// The environment names no command interpreter to run templates with.
    MissingInterpreter,
    /// The target path could not be resolved to an absolute form.
    UnresolvablePath,
    /// No ancestor directory of the target exists, so no watch can be rooted.
    NoExistingAncestor,
}

impl SetupError {
    /// The human-readable description reported at the process boundary.
    pub open spec fn spec_describe(&self) -> Seq<char> {
        match self {
            SetupError::MissingInterpreter => "the SHELL environment variable is not set"@,
            SetupError::UnresolvablePath => "unable to resolve the target path to an absolute path"@,
            SetupError::NoExistingAncestor => "unable to find an existing parent directory for the target"@,
        }
    }

    /// A contextual description of the failed step.
    pub fn describe(&self) -> (r: &'static str)
        ensures
            r@ == self.spec_describe(),
    {
        match self {
            SetupError::MissingInterpreter => "the SHELL environment variable is not set",
            SetupError::UnresolvablePath => "unable to resolve the target path to an absolute path",
            SetupError::NoExistingAncestor => "unable to find an existing parent directory for the target",
        }
    }
}

} // verus!
