//! The errors of the bootstrap layer.

use vstd::prelude::*;

verus! {

/// What can go wrong while an application is wired up and run.
#[derive(Debug, PartialEq, Eq)]
pub enum BootError {
    /// A unit of this name is registered already.
    DuplicateComponent(String),
    /// The registry no longer takes units: the application has been started.
    RegistryFrozen,
    /// The application was asked to start a second time.
    AlreadyStarted,
    /// The report was asked for before every unit had returned.
    DrainIncomplete,
}

} // verus!
