//! The debounced change notifications that the watch source delivers.
//!
//! Paths are carried as the bytes of the operating-system path, so that the
//! matching logic can compare them exactly, byte for byte.

use vstd::prelude::*;

verus! {

/// One debounced filesystem change notification, as handed to the tools'
/// event loops. `Other` stands for every event kind that neither tool reacts
/// to beyond ignoring it.
pub enum ChangeEvent {
    Created { path: Vec<u8> },
    Written { path: Vec<u8> },
    Removed { path: Vec<u8> },
    Renamed { from: Vec<u8>, to: Vec<u8> },
    Other,
}

impl ChangeEvent {
    /// The events that make the command runner spawn a command: a file was
    /// created or written. Every other kind is ignored.
    pub open spec fn is_trigger(self) -> bool {
        self is Created || self is Written
    }

    /// The path of a triggering event.
    pub open spec fn trigger_path(self) -> Seq<u8>
        recommends
            self.is_trigger(),
    {
        match self {
            ChangeEvent::Created { path } => path@,
            ChangeEvent::Written { path } => path@,
            _ => Seq::empty(),
        }
    }

    /// Whether this event announces the creation of exactly the file at
    /// `target`.
    pub open spec fn is_creation_of(self, target: Seq<u8>) -> bool {
        self matches ChangeEvent::Created { path } && path@ == target
    }
}

} // verus!
