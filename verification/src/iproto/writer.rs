//! Appending MessagePack to a buffer. The bytes are written by `rmp`,
//! `byteorder` and `uuid`; each function here states which bytes one call
//! appends, and that statement is taken on trust.

use vstd::prelude::*;
use vstd::string::StringSliceAdditionalSpecFns;
use crate::iproto::wire::{
    array_len_bytes, be_bytes, bin_bytes, bool_bytes, ext_meta_bytes, le_bytes, map_len_bytes, nil_bytes, sint_bytes, str_bytes, str_len_bytes, u8_bytes,
    uint_bytes,
};
use byteorder::{LittleEndian, WriteBytesExt};

verus! {

/// `rmp::encode::write_uint`: appends the integer in the shortest unsigned
/// format that holds it. A write into a vector does not fail.
#[verifier::external_body]
pub(crate) fn write_uint(buf: &mut Vec<u8>, value: u64)
    ensures
        final(buf)@ == old(buf)@ + uint_bytes(value),
{
    let _ = rmp::encode::write_uint(buf, value);
}

/// `rmp::encode::write_sint`: appends a negative integer in the shortest
/// signed format that holds it, and any other as `write_uint` does.
#[verifier::external_body]
pub(crate) fn write_sint(buf: &mut Vec<u8>, value: i64)
    ensures
        final(buf)@ == old(buf)@ + sint_bytes(value),
{
    let _ = rmp::encode::write_sint(buf, value);
}

/// `rmp::encode::write_u8`: appends the marker of an unsigned byte and the
/// byte, also where the value would fit in the marker.
#[verifier::external_body]
pub(crate) fn write_u8(buf: &mut Vec<u8>, value: u8)
    ensures
        final(buf)@ == old(buf)@ + u8_bytes(value),
{
    let _ = rmp::encode::write_u8(buf, value);
}

/// `rmp::encode::write_nil`: appends the one byte of nil.
#[verifier::external_body]
pub(crate) fn write_nil(buf: &mut Vec<u8>)
    ensures
        final(buf)@ == old(buf)@ + nil_bytes(),
{
    let _ = rmp::encode::write_nil(buf);
}

/// `rmp::encode::write_bool`: appends the one byte of `true` or of `false`.
#[verifier::external_body]
pub(crate) fn write_bool(buf: &mut Vec<u8>, value: bool)
    ensures
        final(buf)@ == old(buf)@ + bool_bytes(value),
{
    let _ = rmp::encode::write_bool(buf, value);
}

/// `rmp::encode::write_array_len`: appends the shortest array header for `len`.
#[verifier::external_body]
pub(crate) fn write_array_len(buf: &mut Vec<u8>, len: u32)
    ensures
        final(buf)@ == old(buf)@ + array_len_bytes(len),
{
    let _ = rmp::encode::write_array_len(buf, len);
}

/// `rmp::encode::write_map_len`: appends the shortest map header for `len`.
#[verifier::external_body]
pub(crate) fn write_map_len(buf: &mut Vec<u8>, len: u32)
    ensures
        final(buf)@ == old(buf)@ + map_len_bytes(len),
{
    let _ = rmp::encode::write_map_len(buf, len);
}

/// `rmp::encode::write_str_len`: appends the shortest string header for `len`.
#[verifier::external_body]
pub(crate) fn write_str_len(buf: &mut Vec<u8>, len: u32)
    ensures
        final(buf)@ == old(buf)@ + str_len_bytes(len),
{
    let _ = rmp::encode::write_str_len(buf, len);
}

/// `rmp::encode::write_str`: appends the string header for the byte length of
/// `text` and then its UTF-8 bytes. The length is cut to 32 bits by the
/// callee, so longer strings are kept out.
#[verifier::external_body]
pub(crate) fn write_str(buf: &mut Vec<u8>, text: &str)
    requires
        text.spec_bytes().len() <= u32::MAX,
    ensures
        final(buf)@ == old(buf)@ + str_bytes(text@),
{
    let _ = rmp::encode::write_str(buf, text);
}

/// `rmp::encode::write_bin`: appends the byte-string header for the length of
/// `data` and then the bytes. The length is cut to 32 bits by the callee, so
/// longer slices are kept out.
#[verifier::external_body]
pub(crate) fn write_bin(buf: &mut Vec<u8>, data: &[u8])
    requires
        data@.len() <= u32::MAX,
    ensures
        final(buf)@ == old(buf)@ + bin_bytes(data@),
{
    let _ = rmp::encode::write_bin(buf, data);
}

/// `rmp::encode::write_ext_meta`: appends the shortest extension header for a
/// payload of `len` bytes, and the tag. A negative tag is reserved.
#[verifier::external_body]
pub(crate) fn write_ext_meta(buf: &mut Vec<u8>, len: u32, tag: i8)
    requires
        tag >= 0,
    ensures
        final(buf)@ == old(buf)@ + ext_meta_bytes(len, tag),
{
    let _ = rmp::encode::write_ext_meta(buf, len, tag);
}

/// `byteorder::WriteBytesExt::write_i64` in little-endian order: appends the
/// eight bytes of the two's complement of `value`, low byte first.
#[verifier::external_body]
pub(crate) fn write_i64_le(buf: &mut Vec<u8>, value: i64)
    ensures
        final(buf)@ == old(buf)@ + le_bytes((value as int % 0x1_0000_0000_0000_0000) as nat, 8),
{
    let _ = buf.write_i64::<LittleEndian>(value);
}

/// `byteorder::WriteBytesExt::write_u32` in little-endian order: appends the
/// four bytes of `value`, low byte first.
#[verifier::external_body]
pub(crate) fn write_u32_le(buf: &mut Vec<u8>, value: u32)
    ensures
        final(buf)@ == old(buf)@ + le_bytes(value as nat, 4),
{
    let _ = buf.write_u32::<LittleEndian>(value);
}

/// `byteorder::WriteBytesExt::write_i16` in little-endian order: appends the
/// two bytes of the two's complement of `value`, low byte first.
#[verifier::external_body]
pub(crate) fn write_i16_le(buf: &mut Vec<u8>, value: i16)
    ensures
        final(buf)@ == old(buf)@ + le_bytes((value as int % 0x1_0000) as nat, 2),
{
    let _ = buf.write_i16::<LittleEndian>(value);
}

/// `byteorder::WriteBytesExt::write_u16` in little-endian order: appends the
/// two bytes of `value`, low byte first.
#[verifier::external_body]
pub(crate) fn write_u16_le(buf: &mut Vec<u8>, value: u16)
    ensures
        final(buf)@ == old(buf)@ + le_bytes(value as nat, 2),
{
    let _ = buf.write_u16::<LittleEndian>(value);
}

/// `uuid::Uuid::from_u128` and `as_bytes`: the sixteen bytes of the UUID with
/// this value, high byte first.
#[verifier::external_body]
pub(crate) fn uuid_bytes(value: u128) -> (bytes: Vec<u8>)
    ensures
        bytes@ == be_bytes(value as nat, 16),
{
    uuid::Uuid::from_u128(value).as_bytes().to_vec()
}

} // verus!
