//! The error taxonomy shared by every protocol operation.

use vstd::prelude::*;
use vstd::string::StringExecFns;
use crate::text::byte_hex;
use crate::text::hex_digit_char;

verus! {

/// Which failure class an error belongs to.
///
/// - `Validation`: caller-supplied input broke a length contract, or a
///   value block failed its redundancy check; nothing was transmitted.
/// - `Protocol`: the card answered with a non-success status word.
/// - `MalformedResponse`: the response was shorter than a status word.
/// - `Transport`: the channel itself failed (reported by the caller's
///   transport layer; the protocol core never constructs it itself).
#[derive(Clone, Copy, Debug, PartialEq, Eq, Structural)]
pub enum ErrorKind {
    Validation,
    Protocol,
    MalformedResponse,
    Transport,
}

/// A typed, labelled failure of one protocol operation.
///
/// `status` carries the two status-word bytes verbatim when the card
/// itself rejected the operation, and is `None` for every other kind.
#[derive(Clone, Debug)]
pub struct MifareError {
    pub kind: ErrorKind,
    pub message: String,
    pub status: Option<(u8, u8)>,
}

impl MifareError {
    /// An error that carries no status word.
    pub fn new(kind: ErrorKind, message: &str) -> (r: MifareError)
        ensures
            r.kind == kind,
            r.message@ == message@,
            r.status is None,
    {
        MifareError { kind, message: message.to_string(), status: None }
    }

    /// A protocol failure carrying the card's status word verbatim.
    pub fn with_status(message: &str, status1: u8, status2: u8) -> (r: MifareError)
        ensures
            r.kind == ErrorKind::Protocol,
            r.message@ == message@,
            r.status == Some((status1, status2)),
    {
        MifareError {
            kind: ErrorKind::Protocol,
            message: message.to_string(),
            status: Some((status1, status2)),
        }
    }

    /// The error as one console line: the message, followed by the
    /// status word in two-digit upper-case hex when one is present.
    pub fn display_string(&self) -> (r: String)
        ensures
            self.status is None ==> r@ == self.message@,
            self.status matches Some(sw) ==> r@ == self.message@ + ": Status "@ + seq![
                hex_digit_char(sw.0 / 16),
                hex_digit_char(sw.0 % 16),
            ] + " "@ + seq![hex_digit_char(sw.1 / 16), hex_digit_char(sw.1 % 16)],
    {
        match self.status {
            None => self.message.clone(),
            Some((status1, status2)) => {
                let mut s = self.message.clone();
                s.append(": Status ");
                let h1 = byte_hex(status1);
                s.append(h1.as_str());
                s.append(" ");
                let h2 = byte_hex(status2);
                s.append(h2.as_str());
                s
            },
        }
    }
}

} // verus!
