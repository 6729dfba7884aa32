//! Reading MessagePack from a slice. The bytes are read by `rmp` and `rmpv`;
//! each of the first functions here states what one call finds at the front
//! of a slice, and that statement is taken on trust. The reader on top of
//! them is verified.

use vstd::prelude::*;
use vstd::slice::{slice_subrange, slice_to_vec};
use vstd::utf8::{decode_utf8, encode_utf8, valid_utf8};
use crate::iproto::types::Error;
use crate::iproto::wire::{
    array_len_read, lemma_read_bounds, lemma_str_len_round_trip, map_len_read, str_bytes,
    str_len_bytes, str_len_read, uint_read,
};

verus! {

/// The number of bytes that the first MessagePack value of the input takes
/// up, as `rmpv::decode::read_value` reads it; `None` where it reads none.
pub uninterp spec fn value_len(input: Seq<u8>) -> Option<nat>;

/// `rmp::decode::read_int` to a `u64`: the unsigned integer at the front of
/// the input and the number of bytes left behind it, or `None` where the
/// call fails.
#[verifier::external_body]
fn read_uint_front(input: &[u8]) -> (found: Option<(u64, usize)>)
    ensures
        found == match uint_read(input@) {
            Some((value, taken)) => Some((value, (input@.len() - taken) as usize)),
            None => None,
        },
{
    let mut rest = input;
    let value: u64 = rmp::decode::read_int(&mut rest).ok()?;
    Some((value, rest.len()))
}

/// `rmp::decode::read_map_len`: the number of entries in the map header at
/// the front of the input and the number of bytes left behind it, or `None`
/// where the call fails.
#[verifier::external_body]
fn read_map_len_front(input: &[u8]) -> (found: Option<(u32, usize)>)
    ensures
        found == match map_len_read(input@) {
            Some((len, taken)) => Some((len, (input@.len() - taken) as usize)),
            None => None,
        },
{
    let mut rest = input;
    let len = rmp::decode::read_map_len(&mut rest).ok()?;
    Some((len, rest.len()))
}

/// `rmp::decode::read_array_len`: the number of elements in the array
/// header at the front of the input and the number of bytes left behind it,
/// or `None` where the call fails.
#[verifier::external_body]
fn read_array_len_front(input: &[u8]) -> (found: Option<(u32, usize)>)
    ensures
        found == match array_len_read(input@) {
            Some((len, taken)) => Some((len, (input@.len() - taken) as usize)),
            None => None,
        },
{
    let mut rest = input;
    let len = rmp::decode::read_array_len(&mut rest).ok()?;
    Some((len, rest.len()))
}

/// `rmp::decode::read_str_len`: the number of bytes in the string header at
/// the front of the input and the number of bytes left behind it, or `None`
/// where the call fails.
#[verifier::external_body]
fn read_str_len_front(input: &[u8]) -> (found: Option<(u32, usize)>)
    ensures
        found == match str_len_read(input@) {
            Some((len, taken)) => Some((len, (input@.len() - taken) as usize)),
            None => None,
        },
{
    let mut rest = input;
    let len = rmp::decode::read_str_len(&mut rest).ok()?;
    Some((len, rest.len()))
}

/// `rmpv::decode::read_value`: reads one value of any kind from the front of
/// the input and gives the number of bytes left behind it, or `None` where
/// the call fails. A value takes up at least its marker and no more than
/// the input has.
#[verifier::external_body]
fn read_value_front(input: &[u8]) -> (left: Option<usize>)
    ensures
        match value_len(input@) {
            Some(taken) => left == Some((input@.len() - taken) as usize) && 1 <= taken
                <= input@.len(),
            None => left is None,
        },
{
    let mut rest = input;
    rmpv::decode::read_value(&mut rest).ok()?;
    Some(rest.len())
}

/// `String::from_utf8`: the string whose UTF-8 form is these bytes, or
/// `None` where they are not UTF-8.
#[verifier::external_body]
fn string_from_utf8(bytes: Vec<u8>) -> (text: Option<String>)
    ensures
        text is Some <==> valid_utf8(bytes@),
        text matches Some(made) ==> encode_utf8(made@) == bytes@,
{
    String::from_utf8(bytes).ok()
}

/// The unsigned integer at the front of the input, and the input behind it.
pub open spec fn uint_take(input: Seq<u8>) -> Result<(u64, Seq<u8>), Error> {
    match uint_read(input) {
        Some((value, taken)) => Ok((value, input.skip(taken as int))),
        None => Err(Error::Malformed),
    }
}

/// The length of the map at the front of the input, and the input behind
/// the header.
pub open spec fn map_len_take(input: Seq<u8>) -> Result<(u32, Seq<u8>), Error> {
    match map_len_read(input) {
        Some((len, taken)) => Ok((len, input.skip(taken as int))),
        None => Err(Error::Malformed),
    }
}

/// The length of the array at the front of the input, and the input behind
/// the header.
pub open spec fn array_len_take(input: Seq<u8>) -> Result<(u32, Seq<u8>), Error> {
    match array_len_read(input) {
        Some((len, taken)) => Ok((len, input.skip(taken as int))),
        None => Err(Error::Malformed),
    }
}

/// The string at the front of the input, and the input behind it. The
/// string has to be there in full, and to be UTF-8.
pub open spec fn str_take(input: Seq<u8>) -> Result<(Seq<char>, Seq<u8>), Error> {
    match str_len_read(input) {
        Some((len, taken)) => if input.len() - taken < len {
            Err(Error::Malformed)
        } else if !valid_utf8(input.subrange(taken as int, taken + len)) {
            Err(Error::InvalidUtf8)
        } else {
            Ok((decode_utf8(input.subrange(taken as int, taken + len)), input.skip(taken + len)))
        },
        None => Err(Error::Malformed),
    }
}

/// The input behind its first value, of whatever kind.
pub open spec fn value_skip(input: Seq<u8>) -> Result<Seq<u8>, Error> {
    match value_len(input) {
        Some(taken) => Ok(input.skip(taken as int)),
        None => Err(Error::Malformed),
    }
}

/// The bytes of the first value of the input, and the input behind it.
pub open spec fn value_take(input: Seq<u8>) -> Result<(Seq<u8>, Seq<u8>), Error> {
    match value_len(input) {
        Some(taken) => Ok((input.take(taken as int), input.skip(taken as int))),
        None => Err(Error::Malformed),
    }
}

/// A string that was written is read back, whatever follows it.
pub proof fn lemma_str_round_trip(text: Seq<char>, tail: Seq<u8>)
    requires
        encode_utf8(text).len() <= u32::MAX,
    ensures
        str_take(str_bytes(text) + tail) == Ok::<(Seq<char>, Seq<u8>), Error>((text, tail)),
{
    let bytes = encode_utf8(text);
    let len = bytes.len() as u32;
    let input = str_bytes(text) + tail;
    let taken = str_len_bytes(len).len();
    lemma_str_len_round_trip(len, bytes + tail);
    assert(input =~= str_len_bytes(len) + (bytes + tail));
    assert(input.subrange(taken as int, taken + len) =~= bytes);
    assert(input.skip(taken + len) =~= tail);
    vstd::utf8::encode_utf8_valid_utf8(text);
    vstd::utf8::encode_utf8_decode_utf8(text);
}

/// A place in a slice of bytes: what is before `at` has been read.
pub struct Reader<'a> {
    pub data: &'a [u8],
    pub at: usize,
}

impl<'a> Reader<'a> {
    /// The place is inside the slice, or at its end.
    pub open spec fn wf(&self) -> bool {
        self.at <= self.data@.len()
    }

    /// The bytes that have not been read.
    pub open spec fn rest(&self) -> Seq<u8> {
        self.data@.skip(self.at as int)
    }

    /// A reader at the start of the slice.
    pub fn new(data: &'a [u8]) -> (reader: Reader<'a>)
        ensures
            reader.wf(),
            reader.data == data,
            reader.at == 0,
            reader.rest() == data@,
    {
        assert(data@.skip(0) =~= data@);
        Reader { data, at: 0 }
    }

    /// The slice of the bytes that have not been read.
    pub fn remaining(&self) -> (rest: &'a [u8])
        requires
            self.wf(),
        ensures
            rest@ == self.rest(),
            rest@.len() <= usize::MAX,
    {
        let rest = slice_subrange(self.data, self.at, self.data.len());
        assert(rest@ =~= self.rest());
        rest
    }

    /// Moves to the place that leaves `left` bytes unread.
    fn advance(&mut self, left: usize)
        requires
            old(self).wf(),
            left <= old(self).rest().len(),
        ensures
            final(self).wf(),
            final(self).data == old(self).data,
            final(self).at == old(self).data@.len() - left,
            final(self).rest() == old(self).rest().skip(old(self).rest().len() - left),
    {
        let ghost before = self.rest();
        self.at = self.data.len() - left;
        assert(self.rest() =~= before.skip(before.len() - left));
    }

    /// Reads an unsigned integer.
    pub fn read_uint(&mut self) -> (found: Result<u64, Error>)
        requires
            old(self).wf(),
        ensures
            final(self).wf(),
            final(self).data == old(self).data,
            match uint_take(old(self).rest()) {
                Ok((value, rest)) => found == Ok::<u64, Error>(value) && final(self).rest()
                    == rest,
                Err(error) => found == Err::<u64, Error>(error) && final(self).at == old(self).at,
            },
    {
        proof {
            lemma_read_bounds(self.rest());
        }
        match read_uint_front(self.remaining()) {
            Some((value, left)) => {
                self.advance(left);
                Ok(value)
            },
            None => Err(Error::Malformed),
        }
    }

    /// Reads the header of a map.
    pub fn read_map_len(&mut self) -> (found: Result<u32, Error>)
        requires
            old(self).wf(),
        ensures
            final(self).wf(),
            final(self).data == old(self).data,
            match map_len_take(old(self).rest()) {
                Ok((len, rest)) => found == Ok::<u32, Error>(len) && final(self).rest() == rest,
                Err(error) => found == Err::<u32, Error>(error) && final(self).at == old(self).at,
            },
    {
        proof {
            lemma_read_bounds(self.rest());
        }
        match read_map_len_front(self.remaining()) {
            Some((len, left)) => {
                self.advance(left);
                Ok(len)
            },
            None => Err(Error::Malformed),
        }
    }

    /// Reads the header of an array.
    pub fn read_array_len(&mut self) -> (found: Result<u32, Error>)
        requires
            old(self).wf(),
        ensures
            final(self).wf(),
            final(self).data == old(self).data,
            match array_len_take(old(self).rest()) {
                Ok((len, rest)) => found == Ok::<u32, Error>(len) && final(self).rest() == rest,
                Err(error) => found == Err::<u32, Error>(error) && final(self).at == old(self).at,
            },
    {
        proof {
            lemma_read_bounds(self.rest());
        }
        match read_array_len_front(self.remaining()) {
            Some((len, left)) => {
                self.advance(left);
                Ok(len)
            },
            None => Err(Error::Malformed),
        }
    }

    /// Reads a string.
    pub fn read_string(&mut self) -> (found: Result<String, Error>)
        requires
            old(self).wf(),
        ensures
            final(self).wf(),
            final(self).data == old(self).data,
            match str_take(old(self).rest()) {
                Ok((text, rest)) => (found matches Ok(made) && made@ == text) && final(self).rest() == rest,
                Err(error) => found == Err::<String, Error>(error) && final(self).at == old(self).at,
            },
    {
        let ghost before = self.rest();
        let rest = self.remaining();
        proof {
            lemma_read_bounds(before);
        }
        match read_str_len_front(rest) {
            Some((len, left)) => {
                if left < len as usize {
                    return Err(Error::Malformed);
                }
                let start = rest.len() - left;
                let bytes = slice_to_vec(slice_subrange(rest, start, start + len as usize));
                assert(bytes@ =~= before.subrange(start as int, start + len));
                match string_from_utf8(bytes) {
                    Some(made) => {
                        proof {
                            vstd::utf8::encode_utf8_decode_utf8(made@);
                        }
                        self.advance(left - len as usize);
                        assert(self.rest() =~= before.skip(start + len));
                        Ok(made)
                    },
                    None => Err(Error::InvalidUtf8),
                }
            },
            None => Err(Error::Malformed),
        }
    }

    /// Reads a value of any kind and gives its bytes.
    pub fn take_value(&mut self) -> (found: Result<&'a [u8], Error>)
        requires
            old(self).wf(),
        ensures
            final(self).wf(),
            final(self).data == old(self).data,
            match value_take(old(self).rest()) {
                Ok((bytes, rest)) => (found matches Ok(slice) && slice@ == bytes) && final(self).rest() == rest,
                Err(error) => found == Err::<&[u8], Error>(error) && final(self).at == old(self).at,
            },
    {
        let rest = self.remaining();
        match read_value_front(rest) {
            Some(left) => {
                let bytes = slice_subrange(rest, 0, rest.len() - left);
                self.advance(left);
                Ok(bytes)
            },
            None => Err(Error::Malformed),
        }
    }

    /// Reads a value of any kind and drops it.
    pub fn skip_value(&mut self) -> (found: Result<(), Error>)
        requires
            old(self).wf(),
        ensures
            final(self).wf(),
            final(self).data == old(self).data,
            match value_skip(old(self).rest()) {
                Ok(rest) => found is Ok && final(self).rest() == rest && final(self).at > old(self).at,
                Err(error) => found == Err::<(), Error>(error) && final(self).at == old(self).at,
            },
    {
        proof {
            lemma_read_bounds(self.rest());
        }
        match read_value_front(self.remaining()) {
            Some(left) => {
                self.advance(left);
                Ok(())
            },
            None => Err(Error::Malformed),
        }
    }
}

} // verus!
