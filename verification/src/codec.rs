//! The redundant value-block layout: a signed 32-bit counter stored as
//! value, complemented value, value again, then the block address and
//! its complement twice over.  Validity is purely a data-layout
//! convention checked before any numeric interpretation.

use vstd::prelude::*;
use crate::error::ErrorKind;
use crate::error::MifareError;

verus! {

/// The four little-endian bytes of a 32-bit value.
pub open spec fn spec_le32(v: u32) -> Seq<u8> {
    seq![
        (v & 0xff) as u8,
        ((v >> 8) & 0xff) as u8,
        ((v >> 16) & 0xff) as u8,
        ((v >> 24) & 0xff) as u8,
    ]
}

/// The value carried by four little-endian bytes.
pub open spec fn spec_u32_of_le(b0: u8, b1: u8, b2: u8, b3: u8) -> u32 {
    (b0 as u32) | ((b1 as u32) << 8) | ((b2 as u32) << 16) | ((b3 as u32) << 24)
}

/// The 16-byte value-block layout for one block address and value:
/// value little-endian at offset 0, its bitwise complement at 4, the
/// value again at 8, then address, complemented address, address,
/// complemented address at 12..16.
pub open spec fn spec_value_block(block: u8, value: i32) -> Seq<u8> {
    spec_le32(value as u32) + spec_le32((!value) as u32) + spec_le32(value as u32) + seq![
        block,
        !block,
        block,
        !block,
    ]
}

/// The redundancy check a block must pass before it is read as a
/// value: bytes 0..4 equal bytes 8..12, byte 12 equals byte 14, and
/// byte 13 equals byte 15.
pub open spec fn spec_value_block_format_ok(d: Seq<u8>) -> bool
    recommends
        d.len() >= 16,
{
    &&& d[0] == d[8]
    &&& d[1] == d[9]
    &&& d[2] == d[10]
    &&& d[3] == d[11]
    &&& d[12] == d[14]
    &&& d[13] == d[15]
}

/// The signed value stored in a block's first four bytes.
pub open spec fn spec_value_of(d: Seq<u8>) -> i32
    recommends
        d.len() >= 4,
{
    spec_u32_of_le(d[0], d[1], d[2], d[3]) as i32
}

/// Append the four little-endian bytes of `v`.
pub(crate) fn push_le32(out: &mut Vec<u8>, v: u32)
    ensures
        final(out)@ == old(out)@ + spec_le32(v),
{
    proof {
        assert(v & 0xff < 256 && (v >> 8) & 0xff < 256 && (v >> 16) & 0xff < 256 && (v >> 24)
            & 0xff < 256) by (bit_vector);
    }
    out.push((v & 0xff) as u8);
    out.push(((v >> 8) & 0xff) as u8);
    out.push(((v >> 16) & 0xff) as u8);
    out.push(((v >> 24) & 0xff) as u8);
    proof {
        assert(out@ =~= old(out)@ + spec_le32(v));
    }
}

/// Build the 16 bytes that format `block` as a value block holding
/// `value`.  Writing them is an ordinary block write: no dedicated
/// command exists for establishing the layout.
pub fn make_value_block(block: u8, value: i32) -> (r: Vec<u8>)
    ensures
        r@ == spec_value_block(block, value),
        r@.len() == 16,
{
    let v: u32 = #[verifier::truncate] (value as u32);
    let w: u32 = #[verifier::truncate] ((!value) as u32);
    let mut data: Vec<u8> = Vec::new();
    push_le32(&mut data, v);
    push_le32(&mut data, w);
    push_le32(&mut data, v);
    data.push(block);
    data.push(!block);
    data.push(block);
    data.push(!block);
    proof {
        assert(data@ =~= spec_value_block(block, value));
    }
    data
}

/// Read the signed value out of block data: reject short data, then
/// the redundancy check, and only then decode bytes 0..4 as a
/// little-endian signed 32-bit integer.  A block whose bytes fail the
/// check is never interpreted numerically.
pub fn read_value(data: &[u8]) -> (r: Result<i32, MifareError>)
    ensures
        data@.len() < 16
            ==> (r matches Err(e) && e.kind == ErrorKind::Validation && e.message@
                == "Invalid value block data length"@ && e.status is None),
        data@.len() >= 16 && !spec_value_block_format_ok(data@)
            ==> (r matches Err(e) && e.kind == ErrorKind::Validation && e.message@
                == "Invalid value block format"@ && e.status is None),
        data@.len() >= 16 && spec_value_block_format_ok(data@)
            ==> r == Ok::<i32, MifareError>(spec_value_of(data@)),
{
    if data.len() < 16 {
        return Err(MifareError::new(ErrorKind::Validation, "Invalid value block data length"));
    }
    let format_ok = data[0] == data[8] && data[1] == data[9] && data[2] == data[10] && data[3]
        == data[11] && data[12] == data[14] && data[13] == data[15];
    if !format_ok {
        return Err(MifareError::new(ErrorKind::Validation, "Invalid value block format"));
    }
    let u: u32 = (data[0] as u32) | ((data[1] as u32) << 8) | ((data[2] as u32) << 16) | ((
    data[3] as u32) << 24);
    Ok(#[verifier::truncate] (u as i32))
}

/// The encode/validate/decode path is self-consistent: the layout
/// built for any block address and any signed 32-bit value passes the
/// redundancy check, and decoding it gives the value back exactly.
pub proof fn lemma_value_block_round_trip(block: u8, value: i32)
    ensures
        spec_value_block(block, value).len() == 16,
        spec_value_block_format_ok(spec_value_block(block, value)),
        spec_value_of(spec_value_block(block, value)) == value,
{
    let v = value as u32;
    let d = spec_value_block(block, value);
    assert(d[0] == (v & 0xff) as u8);
    assert(d[1] == ((v >> 8) & 0xff) as u8);
    assert(d[2] == ((v >> 16) & 0xff) as u8);
    assert(d[3] == ((v >> 24) & 0xff) as u8);
    assert(d[8] == (v & 0xff) as u8);
    assert(d[9] == ((v >> 8) & 0xff) as u8);
    assert(d[10] == ((v >> 16) & 0xff) as u8);
    assert(d[11] == ((v >> 24) & 0xff) as u8);
    assert(d[12] == block && d[13] == !block && d[14] == block && d[15] == !block);
    assert(spec_u32_of_le(
        (v & 0xff) as u8,
        ((v >> 8) & 0xff) as u8,
        ((v >> 16) & 0xff) as u8,
        ((v >> 24) & 0xff) as u8,
    ) == v) by (bit_vector);
    assert((value as u32) as i32 == value) by (bit_vector);
}

} // verus!
