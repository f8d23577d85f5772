//! Verified core of a BLE central connector.
//!
//! The library holds the decision logic of the connector: the discovery
//! filter, the index registry with its ready set, and the characteristic
//! resolver. The radio stack, the async runtime and the foreign-call
//! boundary live outside the library and feed it plain values.

pub mod connector;
pub mod error;

pub use connector::CharacteristicRef;
pub use connector::Connector;
pub use connector::NativeId;
pub use connector::PeripheralIndex;
pub use connector::UuidPair;
pub use error::Error;
