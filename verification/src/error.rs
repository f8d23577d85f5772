//! Error taxonomy of the connector core.

use vstd::prelude::*;

verus! {

/// Everything a connector operation can fail with.
///
/// `WrongAdapterCount` is raised at creation when the platform does not
/// expose exactly one adapter. `NoSuchPeripheral` is raised when a caller
/// hands in an index the registry does not know. `NoSuchCharacteristic` is
/// raised when a (service, characteristic) pair is absent from a
/// peripheral's characteristic list. `Transport` stands for any failure
/// surfaced by the underlying radio stack; the embedding layer maps stack
/// errors onto it before reporting them across the foreign-call boundary.
#[derive(Clone, Copy, Debug, PartialEq, Eq, Structural)]
pub enum Error {
    WrongAdapterCount,
    NoSuchPeripheral,
    NoSuchCharacteristic,
    Transport,
}

impl Error {
    /// The human-readable message of each error kind.
    pub open spec fn message_spec(self) -> Seq<char> {
        match self {
            Error::WrongAdapterCount => "Wrong adapter count"@,
            Error::NoSuchPeripheral => "No such peripheral"@,
            Error::NoSuchCharacteristic => "No such characteristic"@,
            Error::Transport => "Transport error"@,
        }
    }

    /// Message to report across the foreign-call boundary.
    pub fn message(&self) -> (r: &'static str)
        ensures
            r@ == self.message_spec(),
    {
        match self {
            Error::WrongAdapterCount => "Wrong adapter count",
            Error::NoSuchPeripheral => "No such peripheral",
            Error::NoSuchCharacteristic => "No such characteristic",
            Error::Transport => "Transport error",
        }
    }
}

} // verus!
