//! The status decoder: every card response ends in a two-byte status
//! word; `(0x90, 0x00)` means success and everything before the status
//! word is payload.  A response too short to carry a status word is a
//! distinct malformed condition.

use vstd::prelude::*;
use vstd::string::StringExecFns;
use crate::error::ErrorKind;
use crate::error::MifareError;
use crate::text::spec_dec;
use crate::text::u8_to_dec;

verus! {

/// First status byte of a response that has one.
pub open spec fn spec_sw1(resp: Seq<u8>) -> u8
    recommends
        resp.len() >= 2,
{
    resp[resp.len() - 2]
}

/// Second status byte of a response that has one.
pub open spec fn spec_sw2(resp: Seq<u8>) -> u8
    recommends
        resp.len() >= 2,
{
    resp[resp.len() - 1]
}

/// Whether a status word means success.
pub open spec fn spec_sw_success(s1: u8, s2: u8) -> bool {
    s1 == 0x90 && s2 == 0x00
}

/// The payload: everything before the status word.
pub open spec fn spec_payload(resp: Seq<u8>) -> Seq<u8>
    recommends
        resp.len() >= 2,
{
    resp.subrange(0, resp.len() - 2)
}

/// The classification of one raw response.
pub enum StatusOutcome {
    /// The status word was `(0x90, 0x00)`; carries the payload bytes.
    Success { payload: Vec<u8> },
    /// Any other status word, carried verbatim.
    Failure { status1: u8, status2: u8 },
    /// Fewer than two bytes: no status word can be read.
    Malformed,
}

/// Classify a raw response by its trailing status word.
pub fn classify(response: &[u8]) -> (r: StatusOutcome)
    ensures
        (response@.len() < 2) <==> (r is Malformed),
        response@.len() >= 2 && spec_sw_success(spec_sw1(response@), spec_sw2(response@))
            ==> (r matches StatusOutcome::Success { payload } && payload@ == spec_payload(
                response@,
            )),
        response@.len() >= 2 && !spec_sw_success(spec_sw1(response@), spec_sw2(response@))
            ==> r == (StatusOutcome::Failure {
                status1: spec_sw1(response@),
                status2: spec_sw2(response@),
            }),
{
    let n = response.len();
    if n < 2 {
        return StatusOutcome::Malformed;
    }
    let status1 = response[n - 2];
    let status2 = response[n - 1];
    if status1 == 0x90 && status2 == 0x00 {
        let mut payload: Vec<u8> = Vec::new();
        let mut i: usize = 0;
        while i < n - 2
            invariant
                n == response@.len(),
                n >= 2,
                i <= n - 2,
                payload@ == response@.subrange(0, i as int),
            decreases n - 2 - i,
        {
            payload.push(response[i]);
            proof {
                assert(payload@ =~= response@.subrange(0, i + 1int));
            }
            i = i + 1;
        }
        StatusOutcome::Success { payload }
    } else {
        StatusOutcome::Failure { status1, status2 }
    }
}

/// The protocol operation a response answers; block-addressed
/// operations carry their block so the failure label can name it.
#[derive(Clone, Copy, Debug, PartialEq, Eq, Structural)]
pub enum Operation {
    ReadUid,
    LoadKey,
    Authenticate(u8),
    ReadBlock(u8),
    WriteBlock(u8),
    IncrementValue(u8),
    DecrementValue(u8),
    DirectCommand,
}

/// The label a protocol failure of each operation carries.
pub open spec fn spec_label(op: Operation) -> Seq<char> {
    match op {
        Operation::ReadUid => "Failed to read UID"@,
        Operation::LoadKey => "Failed to load key"@,
        Operation::Authenticate(b) => "Authentication failed for block "@ + spec_dec(b),
        Operation::ReadBlock(b) => "Failed to read block "@ + spec_dec(b),
        Operation::WriteBlock(b) => "Failed to write to block "@ + spec_dec(b),
        Operation::IncrementValue(b) => "Failed to increment value block "@ + spec_dec(b),
        Operation::DecrementValue(b) => "Failed to decrement value block "@ + spec_dec(b),
        Operation::DirectCommand => "Direct command failed"@,
    }
}

impl Operation {
    /// The operation's failure label, block number included.
    pub fn label(&self) -> (r: String)
        ensures
            r@ == spec_label(*self),
    {
        match self {
            Operation::ReadUid => "Failed to read UID".to_string(),
            Operation::LoadKey => "Failed to load key".to_string(),
            Operation::Authenticate(b) => labelled_block("Authentication failed for block ", *b),
            Operation::ReadBlock(b) => labelled_block("Failed to read block ", *b),
            Operation::WriteBlock(b) => labelled_block("Failed to write to block ", *b),
            Operation::IncrementValue(b) => labelled_block("Failed to increment value block ", *b),
            Operation::DecrementValue(b) => labelled_block("Failed to decrement value block ", *b),
            Operation::DirectCommand => "Direct command failed".to_string(),
        }
    }
}

fn labelled_block(prefix: &str, block: u8) -> (r: String)
    ensures
        r@ == prefix@ + spec_dec(block),
{
    let mut s = prefix.to_string();
    let num = u8_to_dec(block);
    s.append(num.as_str());
    s
}

/// Interpret a raw response for one operation: on success strip the
/// status word and hand back the payload; on any other status word a
/// `Protocol` error carrying the operation's label and both status
/// bytes; on a response shorter than two bytes a `MalformedResponse`
/// error, which never carries a status word.
pub fn interpret_response(op: Operation, response: &[u8]) -> (r: Result<Vec<u8>, MifareError>)
    ensures
        response@.len() >= 2 && spec_sw_success(spec_sw1(response@), spec_sw2(response@))
            ==> (r matches Ok(payload) && payload@ == spec_payload(response@)),
        response@.len() >= 2 && !spec_sw_success(spec_sw1(response@), spec_sw2(response@))
            ==> (r matches Err(e) && e.kind == ErrorKind::Protocol && e.message@ == spec_label(
                op,
            ) && e.status == Some((spec_sw1(response@), spec_sw2(response@)))),
        response@.len() < 2
            ==> (r matches Err(e) && e.kind == ErrorKind::MalformedResponse && e.message@
                == "Invalid response length"@ && e.status is None),
{
    match classify(response) {
        StatusOutcome::Success { payload } => Ok(payload),
        StatusOutcome::Failure { status1, status2 } => {
            let label = op.label();
            Err(MifareError::with_status(label.as_str(), status1, status2))
        },
        StatusOutcome::Malformed => {
            Err(MifareError::new(ErrorKind::MalformedResponse, "Invalid response length"))
        },
    }
}

} // verus!
