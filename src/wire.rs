use byteorder::{BigEndian, ByteOrder};
use vstd::prelude::*;

use crate::error::SendError;

verus! {

/// The two bytes of `n`, most significant first.
pub open spec fn be_u16(n: u16) -> Seq<u8> {
    seq![(n / 256) as u8, (n % 256) as u8]
}

/// The four bytes of `n`, most significant first.
pub open spec fn be_u32(n: u32) -> Seq<u8> {
    seq![(n / 0x100_0000) as u8, ((n / 0x1_0000) % 256) as u8, ((n / 256) % 256) as u8, (n % 256) as u8]
}

/// One frame on the control channel: the message type, the payload's length and the payload.
pub open spec fn frame_of(id: u16, payload: Seq<u8>) -> Seq<u8> {
    be_u16(id) + be_u32(payload.len() as u32) + payload
}

/// Whether a payload's length fits the frame's 32-bit length field.
pub open spec fn fits_length_field(payload: Seq<u8>) -> bool {
    payload.len() <= u32::MAX
}

/// Relies on byteorder's `BigEndian::write_u16`: it stores `n` in two bytes, most significant first.
#[verifier::external_body]
fn u16_be_bytes(n: u16) -> (r: Vec<u8>)
    ensures
        r@ == be_u16(n),
{
    let mut b = vec![0u8; 2];
    BigEndian::write_u16(&mut b, n);
    b
}

/// Relies on byteorder's `BigEndian::write_u32`: it stores `n` in four bytes, most significant first.
#[verifier::external_body]
fn u32_be_bytes(n: u32) -> (r: Vec<u8>)
    ensures
        r@ == be_u32(n),
{
    let mut b = vec![0u8; 4];
    BigEndian::write_u32(&mut b, n);
    b
}

/// Frames `payload` as a message of type `id`. A payload too long for the
/// 32-bit length field is refused, never truncated.
pub fn encode_frame(id: u16, payload: &Vec<u8>) -> (r: Result<Vec<u8>, SendError>)
    ensures
        fits_length_field(payload@) ==> r is Ok && r->Ok_0@ == frame_of(id, payload@),
        !fits_length_field(payload@) ==> r matches Err(SendError::MessageTooLarge(_)),
{
    if payload.len() as u64 > u32::MAX as u64 {
        return Err(SendError::MessageTooLarge("payload exceeds the 32-bit length field"));
    }
    let mut packet = u16_be_bytes(id);
    let mut len = u32_be_bytes(payload.len() as u32);
    packet.append(&mut len);
    packet.extend_from_slice(payload.as_slice());
    Ok(packet)
}

} // verus!
