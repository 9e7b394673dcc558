//! The classes into which the bridge's failures fall.

use vstd::prelude::*;

verus! {

/// Class of a failure.
#[derive(Clone, Copy, PartialEq, Eq, Debug, Structural)]
pub enum ErrorKind {
    /// The configuration cannot be used as it is.
    Configuration,
    /// The supervisor did not hand out usable broker settings.
    Resolution,
    /// The broker could not be reached or refused an operation.
    Transport,
    /// A payload could not be understood.
    Translation,
    /// The door controller failed to carry out a command.
    Device,
}

} // verus!
