use protobuf::CodedOutputStream;
use vstd::prelude::*;
use vstd::utf8::encode_utf8;

verus! {

/// The largest field number that a Protocol Buffers key can carry.
pub const FIELD_NUMBER_MAX: u32 = 0x1fff_ffff;

/// Base-128 varint: seven bits per byte, least significant group first,
/// the high bit set on every byte but the last.
pub open spec fn varint(v: nat) -> Seq<u8>
    decreases v,
{
    if v < 128 {
        seq![v as u8]
    } else {
        seq![(v % 128 + 128) as u8] + varint(v / 128)
    }
}

/// The key that opens a field: its number and its wire type.
pub open spec fn field_key(field: u32, wire_type: nat) -> Seq<u8> {
    varint((field * 8 + wire_type) as nat)
}

/// A `uint32` field (wire type 0).
pub open spec fn uint32_field(field: u32, value: u32) -> Seq<u8> {
    field_key(field, 0) + varint(value as nat)
}

/// A `bool` field (wire type 0), written as the varint 0 or 1.
pub open spec fn bool_field(field: u32, value: bool) -> Seq<u8> {
    field_key(field, 0) + varint(if value { 1 } else { 0 })
}

/// A `string` field (wire type 2): the length of its UTF-8 bytes, then those bytes.
pub open spec fn string_field(field: u32, s: Seq<char>) -> Seq<u8> {
    field_key(field, 2) + varint(encode_utf8(s).len()) + encode_utf8(s)
}

/// Whether a string's UTF-8 bytes can be counted in a 32-bit length.
pub open spec fn fits_string_field(s: Seq<char>) -> bool {
    encode_utf8(s).len() <= u32::MAX
}

/// Relies on protobuf's `CodedOutputStream::write_uint32`: it appends the
/// field's key and the value as varints; writing into a `Vec` does not fail.
#[verifier::external_body]
pub(crate) fn put_uint32_field(buf: &mut Vec<u8>, field: u32, value: u32)
    requires
        1 <= field <= FIELD_NUMBER_MAX,
    ensures
        final(buf)@ == old(buf)@ + uint32_field(field, value),
{
    let mut os = CodedOutputStream::vec(buf);
    let _ = os.write_uint32(field, value);
    let _ = os.flush();
}

/// Relies on protobuf's `CodedOutputStream::write_bool`: it appends the
/// field's key and the varint 0 or 1; writing into a `Vec` does not fail.
#[verifier::external_body]
pub(crate) fn put_bool_field(buf: &mut Vec<u8>, field: u32, value: bool)
    requires
        1 <= field <= FIELD_NUMBER_MAX,
    ensures
        final(buf)@ == old(buf)@ + bool_field(field, value),
{
    let mut os = CodedOutputStream::vec(buf);
    let _ = os.write_bool(field, value);
    let _ = os.flush();
}

/// Relies on protobuf's `CodedOutputStream::write_string`: it appends the
/// field's key, the byte length as a varint and the UTF-8 bytes; writing into
/// a `Vec` does not fail. The length is cast to `u32`, hence the bound.
#[verifier::external_body]
pub(crate) fn put_string_field(buf: &mut Vec<u8>, field: u32, s: &str)
    requires
        1 <= field <= FIELD_NUMBER_MAX,
        fits_string_field(s@),
    ensures
        final(buf)@ == old(buf)@ + string_field(field, s@),
{
    let mut os = CodedOutputStream::vec(buf);
    let _ = os.write_string(field, s);
    let _ = os.flush();
}

/// Tells whether `s` can be written as a string field.
pub fn string_fits(s: &str) -> (r: bool)
    ensures
        r == fits_string_field(s@),
{
    let bytes = s.as_bytes();
    bytes.len() as u64 <= u32::MAX as u64
}

} // verus!
