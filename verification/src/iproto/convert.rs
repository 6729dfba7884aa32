//! Values and tuples from the types of the language.

use vstd::prelude::*;
use vstd::std_specs::convert::FromSpecImpl;
use crate::iproto::value::Value;

verus! {

impl From<u64> for Value {
    /// An unsigned integer.
    fn from(value: u64) -> (made: Value) {
        Value::UInt(value)
    }
}

impl FromSpecImpl<u64> for Value {
    open spec fn obeys_from_spec() -> bool {
        true
    }

    open spec fn from_spec(value: u64) -> Value {
        Value::UInt(value)
    }
}

impl From<usize> for Value {
    /// An unsigned integer.
    fn from(value: usize) -> (made: Value) {
        Value::UInt(value as u64)
    }
}

impl FromSpecImpl<usize> for Value {
    open spec fn obeys_from_spec() -> bool {
        true
    }

    open spec fn from_spec(value: usize) -> Value {
        Value::UInt(value as u64)
    }
}

impl From<u32> for Value {
    /// An unsigned integer.
    fn from(value: u32) -> (made: Value) {
        Value::UInt(value as u64)
    }
}

impl FromSpecImpl<u32> for Value {
    open spec fn obeys_from_spec() -> bool {
        true
    }

    open spec fn from_spec(value: u32) -> Value {
        Value::UInt(value as u64)
    }
}

impl From<u16> for Value {
    /// An unsigned integer.
    fn from(value: u16) -> (made: Value) {
        Value::UInt(value as u64)
    }
}

impl FromSpecImpl<u16> for Value {
    open spec fn obeys_from_spec() -> bool {
        true
    }

    open spec fn from_spec(value: u16) -> Value {
        Value::UInt(value as u64)
    }
}

impl From<i64> for Value {
    /// A signed integer.
    fn from(value: i64) -> (made: Value) {
        Value::Int(value)
    }
}

impl FromSpecImpl<i64> for Value {
    open spec fn obeys_from_spec() -> bool {
        true
    }

    open spec fn from_spec(value: i64) -> Value {
        Value::Int(value)
    }
}

impl From<isize> for Value {
    /// A signed integer.
    fn from(value: isize) -> (made: Value) {
        Value::Int(value as i64)
    }
}

impl FromSpecImpl<isize> for Value {
    open spec fn obeys_from_spec() -> bool {
        true
    }

    open spec fn from_spec(value: isize) -> Value {
        Value::Int(value as i64)
    }
}

impl From<i32> for Value {
    /// A signed integer.
    fn from(value: i32) -> (made: Value) {
        Value::Int(value as i64)
    }
}

impl FromSpecImpl<i32> for Value {
    open spec fn obeys_from_spec() -> bool {
        true
    }

    open spec fn from_spec(value: i32) -> Value {
        Value::Int(value as i64)
    }
}

impl From<i16> for Value {
    /// A signed integer.
    fn from(value: i16) -> (made: Value) {
        Value::Int(value as i64)
    }
}

impl FromSpecImpl<i16> for Value {
    open spec fn obeys_from_spec() -> bool {
        true
    }

    open spec fn from_spec(value: i16) -> Value {
        Value::Int(value as i64)
    }
}

impl From<i8> for Value {
    /// A signed integer.
    fn from(value: i8) -> (made: Value) {
        Value::Int(value as i64)
    }
}

impl FromSpecImpl<i8> for Value {
    open spec fn obeys_from_spec() -> bool {
        true
    }

    open spec fn from_spec(value: i8) -> Value {
        Value::Int(value as i64)
    }
}

impl From<bool> for Value {
    /// A boolean.
    fn from(value: bool) -> (made: Value) {
        Value::Bool(value)
    }
}

impl FromSpecImpl<bool> for Value {
    open spec fn obeys_from_spec() -> bool {
        true
    }

    open spec fn from_spec(value: bool) -> Value {
        Value::Bool(value)
    }
}

impl From<String> for Value {
    /// A string.
    fn from(value: String) -> (made: Value) {
        Value::Str(value)
    }
}

impl FromSpecImpl<String> for Value {
    open spec fn obeys_from_spec() -> bool {
        true
    }

    open spec fn from_spec(value: String) -> Value {
        Value::Str(value)
    }
}

impl From<Vec<u8>> for Value {
    /// A byte string.
    fn from(value: Vec<u8>) -> (made: Value) {
        Value::Bin(value)
    }
}

impl FromSpecImpl<Vec<u8>> for Value {
    open spec fn obeys_from_spec() -> bool {
        true
    }

    open spec fn from_spec(value: Vec<u8>) -> Value {
        Value::Bin(value)
    }
}

impl From<&str> for Value {
    /// A string with the text of the slice.
    fn from(value: &str) -> (made: Value)
        ensures
            made matches Value::Str(text) && text@ == value@,
    {
        Value::Str(value.to_owned())
    }
}

/// What `from` gives is said by its contract: no function of the argument
/// stands for it.
impl FromSpecImpl<&str> for Value {
    open spec fn obeys_from_spec() -> bool {
        false
    }

    open spec fn from_spec(value: &str) -> Value {
        arbitrary()
    }
}

impl From<&[u8]> for Value {
    /// A byte string with the bytes of the slice.
    fn from(value: &[u8]) -> (made: Value)
        ensures
            made matches Value::Bin(data) && data@ == value@,
    {
        Value::Bin(vstd::slice::slice_to_vec(value))
    }
}

/// What `from` gives is said by its contract: no function of the argument
/// stands for it.
impl FromSpecImpl<&[u8]> for Value {
    open spec fn obeys_from_spec() -> bool {
        false
    }

    open spec fn from_spec(value: &[u8]) -> Value {
        arbitrary()
    }
}

impl<T: Into<Value>> From<Option<T>> for Value {
    /// What is inside, or null where nothing is.
    fn from(value: Option<T>) -> (made: Value)
        ensures
            match value {
                Some(inner) => call_ensures(T::into, (inner,), made),
                None => made == Value::Null,
            },
    {
        match value {
            Some(inner) => inner.into(),
            None => Value::Null,
        }
    }
}

/// What `from` gives is said by its contract: no function of the argument
/// stands for it.
impl<T: Into<Value>> FromSpecImpl<Option<T>> for Value {
    open spec fn obeys_from_spec() -> bool {
        false
    }

    open spec fn from_spec(value: Option<T>) -> Value {
        arbitrary()
    }
}

/// Whether `made` holds what each of the items turns into, in their order.
pub open spec fn each_into<T: Into<Value>>(items: Seq<T>, made: Seq<Value>) -> bool {
    made.len() == items.len() && forall|i: int|
        0 <= i < items.len() ==> call_ensures(T::into, (items[i],), #[trigger] made[i])
}

/// Turns each of the items into a value.
fn convert_each<T: Into<Value>>(items: Vec<T>) -> (made: Vec<Value>)
    ensures
        each_into(items@, made@),
{
    let mut rest = items;
    let mut backwards: Vec<Value> = Vec::new();
    while rest.len() > 0
        invariant
            rest@.len() + backwards@.len() == items@.len(),
            rest@ == items@.take(rest@.len() as int),
            forall|k: int|
                0 <= k < backwards@.len() ==> call_ensures(
                    T::into,
                    (items@[items@.len() - 1 - k],),
                    #[trigger] backwards@[k],
                ),
        decreases rest@.len(),
    {
        let item = rest.pop().unwrap();
        backwards.push(item.into());
        assert(rest@ =~= items@.take(rest@.len() as int));
    }
    let mut made: Vec<Value> = Vec::new();
    while backwards.len() > 0
        invariant
            backwards@.len() + made@.len() == items@.len(),
            forall|k: int|
                0 <= k < backwards@.len() ==> call_ensures(
                    T::into,
                    (items@[items@.len() - 1 - k],),
                    #[trigger] backwards@[k],
                ),
            forall|k: int|
                0 <= k < made@.len() ==> call_ensures(T::into, (items@[k],), #[trigger] made@[k]),
        decreases backwards@.len(),
    {
        let value = backwards.pop().unwrap();
        made.push(value);
    }
    made
}

impl<T: Into<Value>> From<Vec<T>> for Value {
    /// An array of what each of the items turns into.
    fn from(value: Vec<T>) -> (made: Value)
        ensures
            made matches Value::Array(items) && each_into(value@, items@),
    {
        Value::Array(convert_each(value))
    }
}

/// What `from` gives is said by its contract: no function of the argument
/// stands for it.
impl<T: Into<Value>> FromSpecImpl<Vec<T>> for Value {
    open spec fn obeys_from_spec() -> bool {
        false
    }

    open spec fn from_spec(value: Vec<T>) -> Value {
        arbitrary()
    }
}

/// Whether `made` is what some copy of the item turns into.
pub open spec fn copy_into<T: Into<Value> + Clone>(item: T, made: Value) -> bool {
    exists|copy: T|
        call_ensures(T::clone, (&item,), copy) && call_ensures(T::into, (copy,), made)
}

/// Whether `made` holds what a copy of each of the items turns into, in
/// their order.
pub open spec fn each_copy_into<T: Into<Value> + Clone>(items: Seq<T>, made: Seq<Value>) -> bool {
    made.len() == items.len() && forall|i: int|
        0 <= i < items.len() ==> copy_into(items[i], #[trigger] made[i])
}

/// Turns a copy of each of the items into a value.
fn convert_copies<T: Into<Value> + Clone>(items: &[T]) -> (made: Vec<Value>)
    ensures
        each_copy_into(items@, made@),
{
    let mut made: Vec<Value> = Vec::new();
    let mut i: usize = 0;
    while i < items.len()
        invariant
            i <= items@.len(),
            made@.len() == i,
            forall|k: int| 0 <= k < i ==> copy_into(items@[k], #[trigger] made@[k]),
        decreases items@.len() - i,
    {
        let copy = items[i].clone();
        let value: Value = copy.into();
        assert(copy_into(items@[i as int], value));
        made.push(value);
        i += 1;
    }
    made
}

impl<T: Into<Value> + Clone> From<&[T]> for Value {
    /// An array of what a copy of each of the items turns into.
    fn from(value: &[T]) -> (made: Value)
        ensures
            made matches Value::Array(items) && each_copy_into(value@, items@),
    {
        Value::Array(convert_copies(value))
    }
}

/// What `from` gives is said by its contract: no function of the argument
/// stands for it.
impl<T: Into<Value> + Clone> FromSpecImpl<&[T]> for Value {
    open spec fn obeys_from_spec() -> bool {
        false
    }

    open spec fn from_spec(value: &[T]) -> Value {
        arbitrary()
    }
}

/// Something that can be written where a tuple is asked for. The impls of
/// this crate say in the contract of their `into_tuple` which values they
/// give.
pub trait IntoTuple {
    /// The values of the tuple.
    fn into_tuple(self) -> Vec<Value>;
}

impl<T: Into<Value>> IntoTuple for Vec<T> {
    fn into_tuple(self) -> (made: Vec<Value>)
        ensures
            each_into(self@, made@),
    {
        convert_each(self)
    }
}

impl<T: Into<Value> + Clone> IntoTuple for &[T] {
    fn into_tuple(self) -> (made: Vec<Value>)
        ensures
            each_copy_into(self@, made@),
    {
        convert_copies(self)
    }
}

impl IntoTuple for () {
    fn into_tuple(self) -> (made: Vec<Value>)
        ensures
            made@.len() == 0,
    {
        Vec::new()
    }
}

} // verus!
