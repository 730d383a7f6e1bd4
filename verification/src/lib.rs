//! A verified protocol core for driving MIFARE Classic cards through a
//! PC/SC reader that speaks the pseudo-APDU command set.
//!
//! The library covers the parts of the protocol with real invariants:
//! building the exact command bytes for each operation, classifying the
//! two-byte status word trailing every response, the redundant value-block
//! encoding, and the key/sector discovery state machine.  Transport
//! (connecting to a reader and transmitting bytes) is left to the caller,
//! who feeds raw responses back into the verified interpreters.

pub mod apdu;
pub mod codec;
pub mod error;
pub mod identify;
pub mod scanner;
pub mod status;
pub mod text;

pub use apdu::KeyType;
pub use error::ErrorKind;
pub use error::MifareError;
