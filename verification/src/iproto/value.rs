//! The values that a tuple may hold, and their MessagePack form.

use vstd::prelude::*;
use vstd::utf8::encode_utf8;
use crate::iproto::types::Error;
use crate::iproto::wire::{
    array_len_bytes, be_bytes, be_value, bin_bytes, bool_bytes, ext_meta_bytes, f32_bytes,
    f64_bytes, le_bytes, le_value, lemma_be_round_trip, lemma_le_round_trip, lemma_radix,
    nil_bytes, sint_bytes, str_bytes, u8_bytes, uint_bytes,
};
use crate::iproto::writer::{
    uuid_bytes, write_array_len, write_bin, write_bool, write_ext_meta, write_i16_le,
    write_i64_le, write_nil, write_sint, write_str, write_u16_le, write_u32_le, write_u8,
    write_uint,
};

verus! {

/// The tag of the decimal extension.
pub const EXT_DECIMAL: i8 = 1;

/// The tag of the UUID extension.
pub const EXT_UUID: i8 = 2;

/// The tag of the date-and-time extension.
pub const EXT_DATETIME: i8 = 4;

/// A decimal number: `mantissa` divided by ten to the power `scale`.
#[derive(Debug, Clone, Copy, PartialEq, Eq, Structural)]
pub struct Decimal {
    pub mantissa: i128,
    pub scale: u8,
}

/// A point in time, in UTC: seconds since the epoch, and the nanoseconds
/// within the second.
#[derive(Debug, Clone, Copy, PartialEq, Eq, Structural)]
pub struct DateTime {
    pub seconds: i64,
    pub nanos: u32,
}

/// A value of a tuple. The two floats are held by their bits.
#[derive(Debug, PartialEq)]
pub enum Value {
    Int(i64),
    UInt(u64),
    F32(u32),
    F64(u64),
    Bool(bool),
    Null,
    Str(String),
    Bin(Vec<u8>),
    Array(Vec<Value>),
    Uuid(u128),
    DateTime(DateTime),
    Decimal(Decimal),
}

/// The parts, one after another.
pub open spec fn concat(parts: Seq<Seq<u8>>) -> Seq<u8>
    decreases parts.len(),
{
    if parts.len() == 0 {
        Seq::empty()
    } else {
        concat(parts.drop_last()) + parts.last()
    }
}

/// The MessagePack forms of the items, one for each.
pub open spec fn wires(items: Seq<Value>) -> Seq<Seq<u8>>
    decreases items, 0nat,
{
    Seq::new(
        items.len(),
        |i: int|
            if 0 <= i < items.len() {
                items[i].wire()
            } else {
                Seq::empty()
            },
    )
}

/// An array of the items: the header for their number, then each item.
pub open spec fn tuple_wire(items: Seq<Value>) -> Seq<u8>
    decreases items, 1nat,
{
    array_len_bytes(items.len() as u32) + concat(wires(items))
}

/// The array has a length that the format can express, and so has
/// everything in each item.
pub open spec fn tuple_fits(items: Seq<Value>) -> bool
    decreases items,
{
    items.len() <= u32::MAX && forall|i: int|
        0 <= i < items.len() ==> (#[trigger] items[i]).fits()
}

impl Value {
    /// Every string, byte string and array in the value has a length that
    /// the format can express.
    pub open spec fn fits(self) -> bool
        decreases self,
    {
        match self {
            Value::Str(text) => encode_utf8(text@).len() <= u32::MAX,
            Value::Bin(data) => data@.len() <= u32::MAX,
            Value::Array(items) => tuple_fits(items@),
            _ => true,
        }
    }

    /// The MessagePack form of the value.
    pub open spec fn wire(self) -> Seq<u8>
        decreases self, 2nat,
    {
        match self {
            Value::Int(value) => sint_bytes(value),
            Value::UInt(value) => uint_bytes(value),
            Value::F32(bits) => f32_bytes(bits),
            Value::F64(bits) => f64_bytes(bits),
            Value::Bool(value) => bool_bytes(value),
            Value::Null => nil_bytes(),
            Value::Str(text) => str_bytes(text@),
            Value::Bin(data) => bin_bytes(data@),
            Value::Array(items) => tuple_wire(items@),
            Value::Uuid(value) => ext_meta_bytes(16, EXT_UUID) + be_bytes(value as nat, 16),
            Value::DateTime(time) => ext_meta_bytes(16, EXT_DATETIME) + datetime_payload(time),
            Value::Decimal(number) => decimal_wire(number),
        }
    }
}

/// The sixteen bytes of a point in time: the seconds in eight bytes and the
/// nanoseconds in four, low byte first, then two bytes for the offset of the
/// time zone and two for its index, which are always zero.
pub open spec fn datetime_payload(time: DateTime) -> Seq<u8> {
    le_bytes((time.seconds as int % 0x1_0000_0000_0000_0000) as nat, 8) + le_bytes(
        time.nanos as nat,
        4,
    ) + le_bytes(0, 2) + le_bytes(0, 2)
}

/// The decimal digits of `value`, the most significant first; zero has one.
pub open spec fn digits(value: nat) -> Seq<u8>
    decreases value,
{
    if value < 10 {
        seq![value as u8]
    } else {
        digits(value / 10).push((value % 10) as u8)
    }
}

/// The mantissa without its sign.
pub open spec fn magnitude(mantissa: i128) -> nat {
    if mantissa < 0 {
        (-mantissa) as nat
    } else {
        mantissa as nat
    }
}

/// The nibble that closes a packed decimal and gives its sign.
pub open spec fn sign_nibble(mantissa: i128) -> u8 {
    if mantissa < 0 {
        0x0d
    } else {
        0x0c
    }
}

/// The nibbles of a packed decimal: the digits of the magnitude, with a zero
/// before them where their number is even, and the sign nibble at the end.
/// Their number is always even.
pub open spec fn nibbles(mantissa: i128) -> Seq<u8> {
    let found = digits(magnitude(mantissa));
    let padded = if found.len() % 2 == 0 {
        seq![0u8] + found
    } else {
        found
    };
    padded.push(sign_nibble(mantissa))
}

/// The nibbles two to a byte, the first of each pair in the high half.
pub open spec fn paired(nibbles: Seq<u8>) -> Seq<u8> {
    Seq::new(nibbles.len() / 2, |i: int| (nibbles[2 * i] * 16 + nibbles[2 * i + 1]) as u8)
}

/// The mantissa as binary-coded decimal.
pub open spec fn bcd(mantissa: i128) -> Seq<u8> {
    paired(nibbles(mantissa))
}

/// What the decimal extension carries: the scale as an unsigned byte in its
/// two-byte form, then the packed mantissa.
pub open spec fn decimal_payload(number: Decimal) -> Seq<u8> {
    u8_bytes(number.scale) + bcd(number.mantissa)
}

/// A decimal on the wire: the extension header for the payload, then the
/// payload.
pub open spec fn decimal_wire(number: Decimal) -> Seq<u8> {
    ext_meta_bytes(decimal_payload(number).len() as u32, EXT_DECIMAL) + decimal_payload(number)
}

/// Ten to the power `exponent`.
pub open spec fn pow10(exponent: nat) -> nat
    decreases exponent,
{
    if exponent == 0 {
        1
    } else {
        10 * pow10((exponent - 1) as nat)
    }
}

/// Every digit is below ten, and a number below ten to the power `count`
/// has at most `count` digits.
proof fn lemma_digits(value: nat, count: nat)
    requires
        count >= 1,
        value < pow10(count),
    ensures
        1 <= digits(value).len() <= count,
        forall|i: int| 0 <= i < digits(value).len() ==> #[trigger] digits(value)[i] < 10,
    decreases value,
{
    if value >= 10 {
        if count == 1 {
            reveal_with_fuel(pow10, 2);
        } else {
            lemma_digits(value / 10, (count - 1) as nat);
        }
    }
}

/// The number that decimal digits spell, the most significant first.
pub open spec fn digits_value(digits: Seq<u8>) -> nat
    decreases digits.len(),
{
    if digits.len() == 0 {
        0
    } else {
        digits_value(digits.drop_last()) * 10 + digits.last() as nat
    }
}

/// The two nibbles of each byte, the high one first.
pub open spec fn unpaired(bytes: Seq<u8>) -> Seq<u8> {
    Seq::new(
        2 * bytes.len(),
        |i: int|
            if i % 2 == 0 {
                bytes[i / 2] / 16
            } else {
                bytes[i / 2] % 16
            },
    )
}

/// The mantissa that binary-coded decimal holds: the number that the
/// nibbles before the last spell, negative where the last nibble says so.
pub open spec fn mantissa_of(packed: Seq<u8>) -> int {
    let all = unpaired(packed);
    if all.last() == 0x0d {
        -(digits_value(all.drop_last()) as int)
    } else {
        digits_value(all.drop_last()) as int
    }
}

/// The decimal that a payload of the decimal extension holds.
pub open spec fn decimal_of_payload(payload: Seq<u8>) -> Decimal {
    Decimal { mantissa: mantissa_of(payload.skip(2)) as i128, scale: payload[1] }
}

/// The number of digits of the mantissa, and one more where that number is
/// even.
pub open spec fn padded_digits(mantissa: i128) -> nat {
    let count = digits(magnitude(mantissa)).len();
    if count % 2 == 0 {
        count + 1
    } else {
        count
    }
}

/// The point in time that a payload of the date-and-time extension holds.
pub open spec fn datetime_of_payload(payload: Seq<u8>) -> DateTime {
    let raw = le_value(payload.subrange(0, 8));
    DateTime {
        seconds: (if raw >= 0x8000_0000_0000_0000 {
            raw - 0x1_0000_0000_0000_0000
        } else {
            raw as int
        }) as i64,
        nanos: le_value(payload.subrange(8, 12)) as u32,
    }
}

/// The digits of a number spell the number.
proof fn lemma_digits_value(value: nat)
    ensures
        digits_value(digits(value)) == value,
    decreases value,
{
    let found = digits(value);
    if value >= 10 {
        lemma_digits_value(value / 10);
        assert(found.drop_last() =~= digits(value / 10));
        assert(found.last() == (value % 10) as u8);
    } else {
        assert(found.drop_last() =~= Seq::<u8>::empty());
        assert(digits_value(found.drop_last()) == 0);
        assert(found.last() == value as u8);
    }
    assert(digits_value(found) == digits_value(found.drop_last()) * 10 + found.last() as nat);
}

/// A zero before the digits does not change the number that they spell.
proof fn lemma_leading_zero(found: Seq<u8>)
    ensures
        digits_value(seq![0u8] + found) == digits_value(found),
    decreases found.len(),
{
    let padded = seq![0u8] + found;
    assert(digits_value(padded) == digits_value(padded.drop_last()) * 10 + padded.last() as nat);
    if found.len() == 0 {
        assert(padded.drop_last() =~= Seq::<u8>::empty());
        assert(digits_value(padded.drop_last()) == 0);
    } else {
        lemma_leading_zero(found.drop_last());
        assert(padded.drop_last() =~= seq![0u8] + found.drop_last());
        assert(padded.last() == found.last());
    }
}

/// A decimal comes back from its payload, and the payload has two bytes
/// more than half the padded digits and the sign nibble take.
pub proof fn lemma_decimal_round_trip(number: Decimal)
    ensures
        decimal_of_payload(decimal_payload(number)) == number,
        decimal_payload(number).len() == (padded_digits(number.mantissa) + 2) / 2 + 2,
        padded_digits(number.mantissa) % 2 == 1,
{
    let whole = magnitude(number.mantissa);
    let found = digits(whole);
    let all = nibbles(number.mantissa);
    let packed = bcd(number.mantissa);
    reveal_with_fuel(pow10, 40);
    assert(pow10(39) == 1_000_000_000_000_000_000_000_000_000_000_000_000_000nat);
    lemma_digits(whole, 39);
    lemma_digits_value(whole);
    assert forall|i: int| 0 <= i < all.len() implies #[trigger] all[i] < 16 by {
        if found.len() % 2 == 0 {
            if 1 <= i < all.len() - 1 {
                assert(all[i] == found[i - 1]);
            }
        } else {
            if i < all.len() - 1 {
                assert(all[i] == found[i]);
            }
        }
    }
    assert(unpaired(packed) =~= all) by {
        assert forall|i: int| 0 <= i < all.len() implies #[trigger] unpaired(packed)[i]
            == all[i] by {
            let pair = i / 2;
            assert(all[2 * pair] < 16 && all[2 * pair + 1] < 16);
            assert(packed[pair] == (all[2 * pair] * 16 + all[2 * pair + 1]) as u8);
        }
    }
    if found.len() % 2 == 0 {
        lemma_leading_zero(found);
        assert(all.drop_last() =~= seq![0u8] + found);
    } else {
        assert(all.drop_last() =~= found);
    }
    assert(decimal_payload(number).skip(2) =~= packed);
}

/// A UUID comes back from the sixteen bytes of its payload.
pub proof fn lemma_uuid_round_trip(value: u128)
    ensures
        be_bytes(value as nat, 16).len() == 16,
        be_value(be_bytes(value as nat, 16)) == value,
{
    lemma_radix();
    lemma_be_round_trip(value as nat, 16);
}

/// A point in time comes back from the sixteen bytes of its payload, whose
/// last four are zero.
pub proof fn lemma_datetime_round_trip(time: DateTime)
    ensures
        datetime_payload(time).len() == 16,
        datetime_of_payload(datetime_payload(time)) == time,
        datetime_payload(time).subrange(12, 16) == seq![0u8, 0u8, 0u8, 0u8],
{
    let raw = (time.seconds as int % 0x1_0000_0000_0000_0000) as nat;
    let payload = datetime_payload(time);
    lemma_radix();
    lemma_le_round_trip(raw, 8);
    lemma_le_round_trip(time.nanos as nat, 4);
    lemma_le_round_trip(0, 2);
    reveal_with_fuel(le_bytes, 3);
    assert(payload.subrange(0, 8) =~= le_bytes(raw, 8));
    assert(payload.subrange(8, 12) =~= le_bytes(time.nanos as nat, 4));
    assert(payload.subrange(12, 16) =~= seq![0u8, 0u8, 0u8, 0u8]);
}

/// Appends the `width` low bytes of `value`, the most significant first.
fn push_be(buf: &mut Vec<u8>, value: u64, width: u8)
    ensures
        final(buf)@ == old(buf)@ + be_bytes(value as nat, width as nat),
    decreases width,
{
    if width > 0 {
        push_be(buf, value / 256, width - 1);
        buf.push((value % 256) as u8);
        assert(buf@ =~= old(buf)@ + be_bytes(value as nat, width as nat));
    } else {
        assert(buf@ =~= old(buf)@ + be_bytes(value as nat, 0));
    }
}

/// Adding an item at the end adds its form at the end.
proof fn lemma_wires_take(items: Seq<Value>, i: int)
    requires
        0 <= i < items.len(),
    ensures
        concat(wires(items).take(i + 1)) == concat(wires(items).take(i)) + items[i].wire(),
{
    let parts = wires(items);
    assert(parts.take(i + 1).drop_last() =~= parts.take(i));
    assert(parts.take(i + 1).last() == items[i].wire());
}

/// Whether the items can be packed as an array.
pub fn tuple_check(items: &Vec<Value>) -> (ok: bool)
    ensures
        ok == tuple_fits(items@),
    decreases items,
{
    if items.len() > u32::MAX as usize {
        return false;
    }
    let mut i: usize = 0;
    while i < items.len()
        invariant
            i <= items@.len(),
            forall|k: int| 0 <= k < i ==> (#[trigger] items@[k]).fits(),
        decreases items@.len() - i,
    {
        if !items[i].check() {
            return false;
        }
        i += 1;
    }
    true
}

/// Appends the items as an array.
pub(crate) fn tuple_write(items: &Vec<Value>, buf: &mut Vec<u8>)
    requires
        tuple_fits(items@),
    ensures
        final(buf)@ == old(buf)@ + tuple_wire(items@),
    decreases items,
{
    write_array_len(buf, items.len() as u32);
    let mut i: usize = 0;
    assert(wires(items@).take(0) =~= Seq::<Seq<u8>>::empty());
    assert(buf@ =~= old(buf)@ + array_len_bytes(items@.len() as u32) + concat(
        wires(items@).take(0),
    ));
    while i < items.len()
        invariant
            i <= items@.len(),
            tuple_fits(items@),
            buf@ == old(buf)@ + array_len_bytes(items@.len() as u32) + concat(
                wires(items@).take(i as int),
            ),
        decreases items@.len() - i,
    {
        items[i].write(buf);
        proof {
            lemma_wires_take(items@, i as int);
            assert(buf@ =~= old(buf)@ + array_len_bytes(items@.len() as u32) + concat(
                wires(items@).take(i + 1),
            ));
        }
        i += 1;
    }
    assert(wires(items@).take(items@.len() as int) =~= wires(items@));
    assert(buf@ =~= old(buf)@ + tuple_wire(items@));
}

/// Appends the items as an array, or nothing where a length in them is too
/// great for the format.
pub fn tuple_pack(items: &Vec<Value>, buf: &mut Vec<u8>) -> (done: Result<(), Error>)
    ensures
        tuple_fits(items@) ==> done is Ok && final(buf)@ == old(buf)@ + tuple_wire(items@),
        !tuple_fits(items@) ==> done == Err::<(), Error>(Error::TooLong) && final(buf)@ == old(
            buf,
        )@,
{
    if tuple_check(items) {
        tuple_write(items, buf);
        Ok(())
    } else {
        Err(Error::TooLong)
    }
}

impl Value {
    /// Whether the value can be packed.
    pub fn check(&self) -> (ok: bool)
        ensures
            ok == self.fits(),
        decreases self,
    {
        match self {
            Value::Str(text) => text.as_str().as_bytes().len() <= u32::MAX as usize,
            Value::Bin(data) => data.len() <= u32::MAX as usize,
            Value::Array(items) => tuple_check(items),
            _ => true,
        }
    }

    /// Appends the MessagePack form of the value.
    pub(crate) fn write(&self, buf: &mut Vec<u8>)
        requires
            self.fits(),
        ensures
            final(buf)@ == old(buf)@ + self.wire(),
        decreases self,
    {
        match self {
            Value::Int(value) => write_sint(buf, *value),
            Value::UInt(value) => write_uint(buf, *value),
            Value::F32(bits) => {
                buf.push(0xca);
                push_be(buf, *bits as u64, 4);
                assert(buf@ =~= old(buf)@ + f32_bytes(*bits));
            },
            Value::F64(bits) => {
                buf.push(0xcb);
                push_be(buf, *bits, 8);
                assert(buf@ =~= old(buf)@ + f64_bytes(*bits));
            },
            Value::Bool(value) => write_bool(buf, *value),
            Value::Null => write_nil(buf),
            Value::Str(text) => write_str(buf, text.as_str()),
            Value::Bin(data) => write_bin(buf, data.as_slice()),
            Value::Array(items) => tuple_write(items, buf),
            Value::Uuid(value) => {
                write_ext_meta(buf, 16, EXT_UUID);
                let mut bytes = uuid_bytes(*value);
                buf.append(&mut bytes);
                assert(buf@ =~= old(buf)@ + self.wire());
            },
            Value::DateTime(time) => time.pack(buf),
            Value::Decimal(number) => number.pack(buf),
        }
    }

    /// Appends the MessagePack form of the value, or nothing where a length
    /// in it is too great for the format.
    pub fn pack(&self, buf: &mut Vec<u8>) -> (done: Result<(), Error>)
        ensures
            self.fits() ==> done is Ok && final(buf)@ == old(buf)@ + self.wire(),
            !self.fits() ==> done == Err::<(), Error>(Error::TooLong) && final(buf)@ == old(buf)@,
    {
        if self.check() {
            self.write(buf);
            Ok(())
        } else {
            Err(Error::TooLong)
        }
    }
}

/// A copy of the items, each with the same form on the wire.
pub fn tuple_clone(items: &Vec<Value>) -> (copies: Vec<Value>)
    ensures
        wires(copies@) == wires(items@),
        tuple_wire(copies@) == tuple_wire(items@),
        tuple_fits(copies@) == tuple_fits(items@),
    decreases items,
{
    let mut copies: Vec<Value> = Vec::new();
    let mut i: usize = 0;
    while i < items.len()
        invariant
            i <= items@.len(),
            copies@.len() == i,
            forall|k: int|
                0 <= k < i ==> (#[trigger] copies@[k]).wire() == items@[k].wire()
                    && copies@[k].fits() == items@[k].fits(),
        decreases items@.len() - i,
    {
        copies.push(items[i].clone());
        i += 1;
    }
    assert(wires(copies@) =~= wires(items@));
    assert(tuple_fits(copies@) == tuple_fits(items@)) by {
        if tuple_fits(items@) {
            assert forall|k: int| 0 <= k < copies@.len() implies (#[trigger] copies@[k]).fits() by {
                assert(items@[k].fits());
            }
        }
        if tuple_fits(copies@) {
            assert forall|k: int| 0 <= k < items@.len() implies (#[trigger] items@[k]).fits() by {
                assert(copies@[k].fits());
            }
        }
    }
    copies
}

impl Clone for Value {
    /// A copy with the same form on the wire.
    fn clone(&self) -> (copy: Value)
        ensures
            copy.wire() == self.wire(),
            copy.fits() == self.fits(),
        decreases self,
    {
        match self {
            Value::Int(value) => Value::Int(*value),
            Value::UInt(value) => Value::UInt(*value),
            Value::F32(bits) => Value::F32(*bits),
            Value::F64(bits) => Value::F64(*bits),
            Value::Bool(value) => Value::Bool(*value),
            Value::Null => Value::Null,
            Value::Str(text) => Value::Str(text.clone()),
            Value::Bin(data) => Value::Bin(data.clone()),
            Value::Array(items) => Value::Array(tuple_clone(items)),
            Value::Uuid(value) => Value::Uuid(*value),
            Value::DateTime(time) => Value::DateTime(*time),
            Value::Decimal(number) => Value::Decimal(*number),
        }
    }
}

impl Decimal {
    /// The digits of the magnitude of the mantissa, the most significant
    /// first.
    fn digits(&self) -> (found: Vec<u8>)
        ensures
            found@ == digits(magnitude(self.mantissa)),
            1 <= found@.len() <= 39,
            forall|i: int| 0 <= i < found@.len() ==> #[trigger] found@[i] < 10,
    {
        let whole: u128 = if self.mantissa >= 0 {
            self.mantissa as u128
        } else if self.mantissa == i128::MIN {
            0x8000_0000_0000_0000_0000_0000_0000_0000u128
        } else {
            (-self.mantissa) as u128
        };
        let mut found: Vec<u8> = Vec::new();
        found.push((whole % 10) as u8);
        let mut rest: u128 = whole / 10;
        proof {
            reveal_with_fuel(pow10, 40);
            assert(pow10(38) == 100_000_000_000_000_000_000_000_000_000_000_000_000nat);
            lemma_digits(whole as nat, 39);
        }
        while rest > 0
            invariant
                1 <= found@.len() <= 39,
                rest < pow10((39 - found@.len()) as nat),
                digits(whole as nat) =~= (if rest > 0 {
                    digits(rest as nat)
                } else {
                    Seq::<u8>::empty()
                }) + found@,
            decreases rest,
        {
            proof {
                if found@.len() == 39 {
                    reveal_with_fuel(pow10, 1);
                }
            }
            found.insert(0, (rest % 10) as u8);
            rest = rest / 10;
        }
        found
    }

    /// Appends the decimal as an extension value.
    pub fn pack(&self, buf: &mut Vec<u8>)
        ensures
            final(buf)@ == old(buf)@ + decimal_wire(*self),
    {
        let mut found = self.digits();
        if found.len() % 2 == 0 {
            found.insert(0, 0u8);
        }
        let sign: u8 = if self.mantissa < 0 {
            0x0d
        } else {
            0x0c
        };
        let ghost all = nibbles(self.mantissa);
        assert(all =~= found@.push(sign));
        let mut packed: Vec<u8> = Vec::new();
        let mut i: usize = 0;
        while i + 1 < found.len()
            invariant
                i % 2 == 0,
                i < found@.len() <= 40,
                found@.len() % 2 == 1,
                all == found@.push(sign),
                forall|k: int| 0 <= k < found@.len() ==> #[trigger] found@[k] < 10,
                packed@ =~= Seq::new(
                    (i / 2) as nat,
                    |k: int| (all[2 * k] * 16 + all[2 * k + 1]) as u8,
                ),
            decreases found@.len() - i,
        {
            packed.push(found[i] * 16 + found[i + 1]);
            i += 2;
        }
        packed.push(found[i] * 16 + sign);
        assert(packed@ =~= bcd(self.mantissa));
        write_ext_meta(buf, (packed.len() + 2) as u32, EXT_DECIMAL);
        write_u8(buf, self.scale);
        buf.append(&mut packed);
        assert(buf@ =~= old(buf)@ + decimal_wire(*self));
    }
}

impl DateTime {
    /// Appends the point in time as an extension value.
    pub fn pack(&self, buf: &mut Vec<u8>)
        ensures
            final(buf)@ == old(buf)@ + ext_meta_bytes(16, EXT_DATETIME) + datetime_payload(*self),
    {
        write_ext_meta(buf, 16, EXT_DATETIME);
        write_i64_le(buf, self.seconds);
        write_u32_le(buf, self.nanos);
        write_i16_le(buf, 0);
        write_u16_le(buf, 0);
        assert(buf@ =~= old(buf)@ + ext_meta_bytes(16, EXT_DATETIME) + datetime_payload(*self));
    }
}

} // verus!
