//! The command encoder: every protocol operation is a fixed-prefix
//! pseudo-APDU, optionally followed by caller data.  Length contracts
//! on caller data are checked here, before anything could be
//! transmitted.

use vstd::prelude::*;
use crate::codec::push_le32;
use crate::codec::spec_le32;
use crate::error::ErrorKind;
use crate::error::MifareError;

verus! {

/// Which trailer-stored key class an authentication uses.
#[derive(Clone, Copy, Debug, PartialEq, Eq, Structural)]
pub enum KeyType {
    KeyA,
    KeyB,
}

impl KeyType {
    /// The command-parameter byte this key class maps to.
    pub open spec fn spec_byte(self) -> u8 {
        match self {
            KeyType::KeyA => 0x60,
            KeyType::KeyB => 0x61,
        }
    }

    /// The explicit mapping table from key class to protocol byte.
    pub fn command_byte(self) -> (r: u8)
        ensures
            r == self.spec_byte(),
    {
        match self {
            KeyType::KeyA => 0x60,
            KeyType::KeyB => 0x61,
        }
    }
}

/// Append every byte of `data`.
pub(crate) fn push_slice(out: &mut Vec<u8>, data: &[u8])
    ensures
        final(out)@ == old(out)@ + data@,
{
    let mut i: usize = 0;
    while i < data.len()
        invariant
            i <= data@.len(),
            out@ == old(out)@ + data@.take(i as int),
        decreases data@.len() - i,
    {
        out.push(data[i]);
        proof {
            assert(out@ =~= old(out)@ + data@.take(i + 1int));
        }
        i = i + 1;
    }
    proof {
        assert(out@ =~= old(out)@ + data@);
    }
}

/// The command that asks the reader for the card's UID.
pub fn get_uid() -> (r: Vec<u8>)
    ensures
        r@ == seq![0xffu8, 0xca, 0x00, 0x00, 0x00],
{
    let mut cmd: Vec<u8> = Vec::new();
    cmd.push(0xff);
    cmd.push(0xca);
    cmd.push(0x00);
    cmd.push(0x00);
    cmd.push(0x00);
    proof {
        assert(cmd@ =~= seq![0xffu8, 0xca, 0x00, 0x00, 0x00]);
    }
    cmd
}

/// The command that loads a 6-byte key into the reader's key slot.  A
/// key of any other length is rejected here, so nothing is ever
/// transmitted for it.
pub fn load_key(key: &[u8]) -> (r: Result<Vec<u8>, MifareError>)
    ensures
        (key@.len() == 6) <==> (r is Ok),
        key@.len() == 6
            ==> (r matches Ok(cmd) && cmd@ == seq![0xffu8, 0x82, 0x00, 0x00, 0x06] + key@),
        key@.len() != 6
            ==> (r matches Err(e) && e.kind == ErrorKind::Validation && e.message@
                == "Key must be exactly 6 bytes"@ && e.status is None),
{
    if key.len() != 6 {
        return Err(MifareError::new(ErrorKind::Validation, "Key must be exactly 6 bytes"));
    }
    let mut cmd: Vec<u8> = Vec::new();
    cmd.push(0xff);
    cmd.push(0x82);
    cmd.push(0x00);
    cmd.push(0x00);
    cmd.push(0x06);
    proof {
        assert(cmd@ =~= seq![0xffu8, 0x82, 0x00, 0x00, 0x06]);
    }
    push_slice(&mut cmd, key);
    Ok(cmd)
}

/// The command that authenticates one block with the loaded key.
pub fn authenticate(block: u8, key_type: KeyType) -> (r: Vec<u8>)
    ensures
        r@ == seq![0xffu8, 0x86, 0x00, 0x00, 0x05, 0x01, 0x00, block, key_type.spec_byte(), 0x00],
{
    let mut cmd: Vec<u8> = Vec::new();
    cmd.push(0xff);
    cmd.push(0x86);
    cmd.push(0x00);
    cmd.push(0x00);
    cmd.push(0x05);
    cmd.push(0x01);
    cmd.push(0x00);
    cmd.push(block);
    cmd.push(key_type.command_byte());
    cmd.push(0x00);
    proof {
        assert(cmd@ =~= seq![
            0xffu8,
            0x86,
            0x00,
            0x00,
            0x05,
            0x01,
            0x00,
            block,
            key_type.spec_byte(),
            0x00,
        ]);
    }
    cmd
}

/// The command that reads one whole 16-byte block.
pub fn read_block(block: u8) -> (r: Vec<u8>)
    ensures
        r@ == seq![0xffu8, 0xb0, 0x00, block, 0x10],
{
    let mut cmd: Vec<u8> = Vec::new();
    cmd.push(0xff);
    cmd.push(0xb0);
    cmd.push(0x00);
    cmd.push(block);
    cmd.push(0x10);
    proof {
        assert(cmd@ =~= seq![0xffu8, 0xb0, 0x00, block, 0x10]);
    }
    cmd
}

/// The command that writes one whole 16-byte block.  Data of any other
/// length is rejected here, so nothing is ever transmitted for it.
pub fn write_block(block: u8, data: &[u8]) -> (r: Result<Vec<u8>, MifareError>)
    ensures
        (data@.len() == 16) <==> (r is Ok),
        data@.len() == 16
            ==> (r matches Ok(cmd) && cmd@ == seq![0xffu8, 0xd6, 0x00, block, 0x10] + data@),
        data@.len() != 16
            ==> (r matches Err(e) && e.kind == ErrorKind::Validation && e.message@
                == "Data must be exactly 16 bytes"@ && e.status is None),
{
    if data.len() != 16 {
        return Err(MifareError::new(ErrorKind::Validation, "Data must be exactly 16 bytes"));
    }
    let mut cmd: Vec<u8> = Vec::new();
    cmd.push(0xff);
    cmd.push(0xd6);
    cmd.push(0x00);
    cmd.push(block);
    cmd.push(0x10);
    proof {
        assert(cmd@ =~= seq![0xffu8, 0xd6, 0x00, block, 0x10]);
    }
    push_slice(&mut cmd, data);
    Ok(cmd)
}

/// The command that adds a signed amount to a value block, the amount
/// as four little-endian bytes after sub-opcode 1.
pub fn increment_value(block: u8, value: i32) -> (r: Vec<u8>)
    ensures
        r@ == seq![0xffu8, 0xd7, 0x00, block, 0x05, 0x01] + spec_le32(value as u32),
{
    value_op(block, value, true)
}

/// The command that subtracts a signed amount from a value block, the
/// amount as four little-endian bytes after sub-opcode 2.
pub fn decrement_value(block: u8, value: i32) -> (r: Vec<u8>)
    ensures
        r@ == seq![0xffu8, 0xd7, 0x00, block, 0x05, 0x02] + spec_le32(value as u32),
{
    value_op(block, value, false)
}

fn value_op(block: u8, value: i32, increment: bool) -> (r: Vec<u8>)
    ensures
        r@ == seq![0xffu8, 0xd7, 0x00, block, 0x05, if increment { 0x01u8 } else { 0x02u8 }]
            + spec_le32(value as u32),
{
    let mut cmd: Vec<u8> = Vec::new();
    cmd.push(0xff);
    cmd.push(0xd7);
    cmd.push(0x00);
    cmd.push(block);
    cmd.push(0x05);
    cmd.push(if increment { 0x01 } else { 0x02 });
    proof {
        assert(cmd@ =~= seq![
            0xffu8,
            0xd7,
            0x00,
            block,
            0x05,
            if increment { 0x01u8 } else { 0x02u8 },
        ]);
    }
    push_le32(&mut cmd, #[verifier::truncate] (value as u32));
    cmd
}

} // verus!
