//! The bytes of the MessagePack formats that the protocol uses, as sequences.
//! Nothing here runs: these functions are what the contracts of the writer and
//! of the reader speak of.

use vstd::prelude::*;

verus! {

/// The `width` low bytes of `value`, most significant first.
pub open spec fn be_bytes(value: nat, width: nat) -> Seq<u8>
    decreases width,
{
    if width == 0 {
        Seq::empty()
    } else {
        be_bytes(value / 256, (width - 1) as nat).push((value % 256) as u8)
    }
}

/// The `width` low bytes of `value`, least significant first.
pub open spec fn le_bytes(value: nat, width: nat) -> Seq<u8>
    decreases width,
{
    if width == 0 {
        Seq::empty()
    } else {
        seq![(value % 256) as u8] + le_bytes(value / 256, (width - 1) as nat)
    }
}

/// The number that `bytes` spell, most significant first.
pub open spec fn be_value(bytes: Seq<u8>) -> nat
    decreases bytes.len(),
{
    if bytes.len() == 0 {
        0
    } else {
        be_value(bytes.drop_last()) * 256 + bytes.last() as nat
    }
}

/// The number that `bytes` spell, least significant first.
pub open spec fn le_value(bytes: Seq<u8>) -> nat
    decreases bytes.len(),
{
    if bytes.len() == 0 {
        0
    } else {
        bytes[0] as nat + 256 * le_value(bytes.drop_first())
    }
}

/// 256 to the power `width`.
pub open spec fn radix(width: nat) -> nat
    decreases width,
{
    if width == 0 {
        1
    } else {
        256 * radix((width - 1) as nat)
    }
}

/// An unsigned integer in the shortest of its five formats.
pub open spec fn uint_bytes(value: u64) -> Seq<u8> {
    if value < 0x80 {
        seq![value as u8]
    } else if value < 0x100 {
        seq![0xccu8] + be_bytes(value as nat, 1)
    } else if value < 0x1_0000 {
        seq![0xcdu8] + be_bytes(value as nat, 2)
    } else if value < 0x1_0000_0000 {
        seq![0xceu8] + be_bytes(value as nat, 4)
    } else {
        seq![0xcfu8] + be_bytes(value as nat, 8)
    }
}

/// A signed integer: a negative one in the shortest signed format, in two's
/// complement, and one that is not negative as `uint_bytes` has it.
pub open spec fn sint_bytes(value: i64) -> Seq<u8> {
    if value >= 0 {
        uint_bytes(value as u64)
    } else if value >= -0x20 {
        seq![(value + 0x100) as u8]
    } else if value >= -0x80 {
        seq![0xd0u8] + be_bytes((value + 0x100) as nat, 1)
    } else if value >= -0x8000 {
        seq![0xd1u8] + be_bytes((value + 0x1_0000) as nat, 2)
    } else if value >= -0x8000_0000 {
        seq![0xd2u8] + be_bytes((value + 0x1_0000_0000) as nat, 4)
    } else {
        seq![0xd3u8] + be_bytes((value + 0x1_0000_0000_0000_0000) as nat, 8)
    }
}

/// An unsigned byte in the two-byte format, whatever its value.
pub open spec fn u8_bytes(value: u8) -> Seq<u8> {
    seq![0xccu8, value]
}

/// Nil.
pub open spec fn nil_bytes() -> Seq<u8> {
    seq![0xc0u8]
}

/// A boolean.
pub open spec fn bool_bytes(value: bool) -> Seq<u8> {
    if value {
        seq![0xc3u8]
    } else {
        seq![0xc2u8]
    }
}

/// A 32-bit float, given by its bits.
pub open spec fn f32_bytes(bits: u32) -> Seq<u8> {
    seq![0xcau8] + be_bytes(bits as nat, 4)
}

/// A 64-bit float, given by its bits.
pub open spec fn f64_bytes(bits: u64) -> Seq<u8> {
    seq![0xcbu8] + be_bytes(bits as nat, 8)
}

/// The header of an array of `len` elements.
pub open spec fn array_len_bytes(len: u32) -> Seq<u8> {
    if len < 16 {
        seq![(0x90 + len) as u8]
    } else if len < 0x1_0000 {
        seq![0xdcu8] + be_bytes(len as nat, 2)
    } else {
        seq![0xddu8] + be_bytes(len as nat, 4)
    }
}

/// The header of a map of `len` entries.
pub open spec fn map_len_bytes(len: u32) -> Seq<u8> {
    if len < 16 {
        seq![(0x80 + len) as u8]
    } else if len < 0x1_0000 {
        seq![0xdeu8] + be_bytes(len as nat, 2)
    } else {
        seq![0xdfu8] + be_bytes(len as nat, 4)
    }
}

/// The header of a string of `len` bytes.
pub open spec fn str_len_bytes(len: u32) -> Seq<u8> {
    if len < 32 {
        seq![(0xa0 + len) as u8]
    } else if len < 0x100 {
        seq![0xd9u8] + be_bytes(len as nat, 1)
    } else if len < 0x1_0000 {
        seq![0xdau8] + be_bytes(len as nat, 2)
    } else {
        seq![0xdbu8] + be_bytes(len as nat, 4)
    }
}

/// The header of a byte string of `len` bytes.
pub open spec fn bin_len_bytes(len: u32) -> Seq<u8> {
    if len < 0x100 {
        seq![0xc4u8] + be_bytes(len as nat, 1)
    } else if len < 0x1_0000 {
        seq![0xc5u8] + be_bytes(len as nat, 2)
    } else {
        seq![0xc6u8] + be_bytes(len as nat, 4)
    }
}

/// The header of an extension value: the length of its payload and its tag.
pub open spec fn ext_meta_bytes(len: u32, tag: i8) -> Seq<u8>
    recommends
        tag >= 0,
{
    let size = if len == 1 {
        seq![0xd4u8]
    } else if len == 2 {
        seq![0xd5u8]
    } else if len == 4 {
        seq![0xd6u8]
    } else if len == 8 {
        seq![0xd7u8]
    } else if len == 16 {
        seq![0xd8u8]
    } else if len < 0x100 {
        seq![0xc7u8] + be_bytes(len as nat, 1)
    } else if len < 0x1_0000 {
        seq![0xc8u8] + be_bytes(len as nat, 2)
    } else {
        seq![0xc9u8] + be_bytes(len as nat, 4)
    };
    size + seq![tag as u8]
}

/// A string: the header for the length of its UTF-8 form, then that form.
pub open spec fn str_bytes(text: Seq<char>) -> Seq<u8>
    recommends
        vstd::utf8::encode_utf8(text).len() <= u32::MAX,
{
    str_len_bytes(vstd::utf8::encode_utf8(text).len() as u32) + vstd::utf8::encode_utf8(text)
}

/// A byte string: the header for its length, then the bytes.
pub open spec fn bin_bytes(data: Seq<u8>) -> Seq<u8>
    recommends
        data.len() <= u32::MAX,
{
    bin_len_bytes(data.len() as u32) + data
}

/// The number in the `width` bytes that follow the marker, where the input
/// has that many.
pub open spec fn operand(input: Seq<u8>, width: nat) -> Option<nat> {
    if input.len() >= 1 + width {
        Some(be_value(input.subrange(1, 1 + width as int)))
    } else {
        None
    }
}

/// A length held in the `width` bytes that follow the marker, with the
/// number of bytes that it takes up.
pub open spec fn sized_len(input: Seq<u8>, width: nat) -> Option<(u32, nat)> {
    match operand(input, width) {
        Some(raw) => Some((raw as u32, 1 + width)),
        None => None,
    }
}

/// For the marker of an integer with an operand: how many bytes the operand
/// has, and whether it is signed.
pub open spec fn int_format(marker: u8) -> Option<(nat, bool)> {
    if marker == 0xcc {
        Some((1, false))
    } else if marker == 0xcd {
        Some((2, false))
    } else if marker == 0xce {
        Some((4, false))
    } else if marker == 0xcf {
        Some((8, false))
    } else if marker == 0xd0 {
        Some((1, true))
    } else if marker == 0xd1 {
        Some((2, true))
    } else if marker == 0xd2 {
        Some((4, true))
    } else if marker == 0xd3 {
        Some((8, true))
    } else {
        None
    }
}

/// The unsigned integer at the front of the input, in any integer format,
/// with the number of bytes that it takes up. There is none where the input
/// ends early, where it starts with something else, and where the integer is
/// negative.
pub open spec fn uint_read(input: Seq<u8>) -> Option<(u64, nat)> {
    if input.len() == 0 {
        None
    } else if input[0] < 0x80 {
        Some((input[0] as u64, 1))
    } else {
        match int_format(input[0]) {
            Some((width, signed)) => match operand(input, width) {
                Some(raw) => if signed && 2 * raw >= radix(width) {
                    None
                } else {
                    Some((raw as u64, 1 + width))
                },
                None => None,
            },
            None => None,
        }
    }
}

/// The number of entries that a map header at the front of the input
/// declares, with the number of bytes of the header.
pub open spec fn map_len_read(input: Seq<u8>) -> Option<(u32, nat)> {
    if input.len() == 0 {
        None
    } else if 0x80 <= input[0] <= 0x8f {
        Some(((input[0] - 0x80) as u32, 1))
    } else if input[0] == 0xde {
        sized_len(input, 2)
    } else if input[0] == 0xdf {
        sized_len(input, 4)
    } else {
        None
    }
}

/// The number of elements that an array header at the front of the input
/// declares, with the number of bytes of the header.
pub open spec fn array_len_read(input: Seq<u8>) -> Option<(u32, nat)> {
    if input.len() == 0 {
        None
    } else if 0x90 <= input[0] <= 0x9f {
        Some(((input[0] - 0x90) as u32, 1))
    } else if input[0] == 0xdc {
        sized_len(input, 2)
    } else if input[0] == 0xdd {
        sized_len(input, 4)
    } else {
        None
    }
}

/// The number of bytes that a string header at the front of the input
/// declares, with the number of bytes of the header.
pub open spec fn str_len_read(input: Seq<u8>) -> Option<(u32, nat)> {
    if input.len() == 0 {
        None
    } else if 0xa0 <= input[0] <= 0xbf {
        Some(((input[0] - 0xa0) as u32, 1))
    } else if input[0] == 0xd9 {
        sized_len(input, 1)
    } else if input[0] == 0xda {
        sized_len(input, 2)
    } else if input[0] == 0xdb {
        sized_len(input, 4)
    } else {
        None
    }
}

/// Whatever is read takes up at least one byte, and no more than the input
/// has.
pub proof fn lemma_read_bounds(input: Seq<u8>)
    ensures
        uint_read(input) matches Some((_, taken)) ==> 1 <= taken <= input.len() && taken <= 9,
        map_len_read(input) matches Some((_, taken)) ==> 1 <= taken <= input.len(),
        array_len_read(input) matches Some((_, taken)) ==> 1 <= taken <= input.len(),
        str_len_read(input) matches Some((_, taken)) ==> 1 <= taken <= input.len(),
{
}

/// The big-endian bytes of a number are as many as asked for, and spell the
/// number again where it fits into them.
pub proof fn lemma_be_round_trip(value: nat, width: nat)
    ensures
        be_bytes(value, width).len() == width,
        value < radix(width) ==> be_value(be_bytes(value, width)) == value,
    decreases width,
{
    if width > 0 {
        lemma_be_round_trip(value / 256, (width - 1) as nat);
        let bytes = be_bytes(value, width);
        assert(bytes.drop_last() =~= be_bytes(value / 256, (width - 1) as nat));
    }
}

/// The little-endian bytes of a number are as many as asked for, and spell
/// the number again where it fits into them.
pub proof fn lemma_le_round_trip(value: nat, width: nat)
    ensures
        le_bytes(value, width).len() == width,
        value < radix(width) ==> le_value(le_bytes(value, width)) == value,
    decreases width,
{
    if width > 0 {
        lemma_le_round_trip(value / 256, (width - 1) as nat);
        let bytes = le_bytes(value, width);
        assert(bytes.drop_first() =~= le_bytes(value / 256, (width - 1) as nat));
    }
}

/// The four widths that an operand may have, as numbers.
pub proof fn lemma_radix()
    ensures
        radix(1) == 0x100,
        radix(2) == 0x1_0000,
        radix(4) == 0x1_0000_0000,
        radix(8) == 0x1_0000_0000_0000_0000,
        radix(16) == 0x1_0000_0000_0000_0000_0000_0000_0000_0000,
{
    reveal_with_fuel(radix, 17);
}

/// An unsigned integer that was written is read back, whatever follows it.
pub proof fn lemma_uint_round_trip(value: u64, tail: Seq<u8>)
    ensures
        uint_read(uint_bytes(value) + tail) == Some((value, uint_bytes(value).len())),
        (uint_bytes(value) + tail).skip(uint_bytes(value).len() as int) == tail,
        1 <= uint_bytes(value).len() <= 9,
{
    let input = uint_bytes(value) + tail;
    let width: nat = if value < 0x80 {
        0
    } else if value < 0x100 {
        1
    } else if value < 0x1_0000 {
        2
    } else if value < 0x1_0000_0000 {
        4
    } else {
        8
    };
    lemma_radix();
    lemma_be_round_trip(value as nat, width);
    assert(input.skip(uint_bytes(value).len() as int) =~= tail);
    if value >= 0x80 {
        assert(input.subrange(1, 1 + width as int) =~= be_bytes(value as nat, width));
    }
}

/// A signed integer that was written is read back as an unsigned one where
/// it is not negative, and is refused where it is.
pub proof fn lemma_sint_round_trip(value: i64, tail: Seq<u8>)
    ensures
        value >= 0 ==> uint_read(sint_bytes(value) + tail) == Some(
            (value as u64, sint_bytes(value).len()),
        ),
        value < 0 ==> uint_read(sint_bytes(value) + tail) is None,
{
    let input = sint_bytes(value) + tail;
    lemma_radix();
    if value >= 0 {
        lemma_uint_round_trip(value as u64, tail);
    } else if value >= -0x20 {
    } else {
        let width: nat = if value >= -0x80 {
            1
        } else if value >= -0x8000 {
            2
        } else if value >= -0x8000_0000 {
            4
        } else {
            8
        };
        let raw = (value + radix(width)) as nat;
        lemma_be_round_trip(raw, width);
        assert(input.subrange(1, 1 + width as int) =~= be_bytes(raw, width));
    }
}

/// The header of a map that was written is read back, whatever follows it.
pub proof fn lemma_map_len_round_trip(len: u32, tail: Seq<u8>)
    ensures
        map_len_read(map_len_bytes(len) + tail) == Some((len, map_len_bytes(len).len())),
        (map_len_bytes(len) + tail).skip(map_len_bytes(len).len() as int) == tail,
{
    let input = map_len_bytes(len) + tail;
    let width: nat = if len < 16 {
        0
    } else if len < 0x1_0000 {
        2
    } else {
        4
    };
    lemma_radix();
    lemma_be_round_trip(len as nat, width);
    assert(input.skip(map_len_bytes(len).len() as int) =~= tail);
    if len >= 16 {
        assert(input.subrange(1, 1 + width as int) =~= be_bytes(len as nat, width));
    }
}

/// The header of an array that was written is read back, whatever follows
/// it.
pub proof fn lemma_array_len_round_trip(len: u32, tail: Seq<u8>)
    ensures
        array_len_read(array_len_bytes(len) + tail) == Some((len, array_len_bytes(len).len())),
        (array_len_bytes(len) + tail).skip(array_len_bytes(len).len() as int) == tail,
{
    let input = array_len_bytes(len) + tail;
    let width: nat = if len < 16 {
        0
    } else if len < 0x1_0000 {
        2
    } else {
        4
    };
    lemma_radix();
    lemma_be_round_trip(len as nat, width);
    assert(input.skip(array_len_bytes(len).len() as int) =~= tail);
    if len >= 16 {
        assert(input.subrange(1, 1 + width as int) =~= be_bytes(len as nat, width));
    }
}

/// The header of a string that was written is read back, whatever follows
/// it.
pub proof fn lemma_str_len_round_trip(len: u32, tail: Seq<u8>)
    ensures
        str_len_read(str_len_bytes(len) + tail) == Some((len, str_len_bytes(len).len())),
        (str_len_bytes(len) + tail).skip(str_len_bytes(len).len() as int) == tail,
{
    let input = str_len_bytes(len) + tail;
    let width: nat = if len < 32 {
        0
    } else if len < 0x100 {
        1
    } else if len < 0x1_0000 {
        2
    } else {
        4
    };
    lemma_radix();
    lemma_be_round_trip(len as nat, width);
    assert(input.skip(str_len_bytes(len).len() as int) =~= tail);
    if len >= 32 {
        assert(input.subrange(1, 1 + width as int) =~= be_bytes(len as nat, width));
    }
}

} // verus!
