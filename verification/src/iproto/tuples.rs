//! Tuples of the language as tuples of values: one value for each part, in
//! the order of the parts. There is an impl for each length up to 24.

use vstd::prelude::*;
use crate::iproto::convert::IntoTuple;
use crate::iproto::value::Value;

verus! {

impl<T1: Into<Value>> IntoTuple for (T1,) {
    fn into_tuple(self) -> (made: Vec<Value>)
        ensures
            made@.len() == 1,
            call_ensures(T1::into, (self.0,), made@[0]),
    {
        let mut made: Vec<Value> = Vec::new();
        made.push(self.0.into());
        made
    }
}

impl<T1: Into<Value>, T2: Into<Value>> IntoTuple for (T1, T2) {
    fn into_tuple(self) -> (made: Vec<Value>)
        ensures
            made@.len() == 2,
            call_ensures(T1::into, (self.0,), made@[0]),
            call_ensures(T2::into, (self.1,), made@[1]),
    {
        let mut made: Vec<Value> = Vec::new();
        made.push(self.0.into());
        made.push(self.1.into());
        made
    }
}

impl<T1: Into<Value>, T2: Into<Value>, T3: Into<Value>> IntoTuple for (T1, T2, T3) {
    fn into_tuple(self) -> (made: Vec<Value>)
        ensures
            made@.len() == 3,
            call_ensures(T1::into, (self.0,), made@[0]),
            call_ensures(T2::into, (self.1,), made@[1]),
            call_ensures(T3::into, (self.2,), made@[2]),
    {
        let mut made: Vec<Value> = Vec::new();
        made.push(self.0.into());
        made.push(self.1.into());
        made.push(self.2.into());
        made
    }
}

impl<
    T1: Into<Value>,
    T2: Into<Value>,
    T3: Into<Value>,
    T4: Into<Value>,
> IntoTuple for (
    T1,
    T2,
    T3,
    T4,
) {
    fn into_tuple(self) -> (made: Vec<Value>)
        ensures
            made@.len() == 4,
            call_ensures(T1::into, (self.0,), made@[0]),
            call_ensures(T2::into, (self.1,), made@[1]),
            call_ensures(T3::into, (self.2,), made@[2]),
            call_ensures(T4::into, (self.3,), made@[3]),
    {
        let mut made: Vec<Value> = Vec::new();
        made.push(self.0.into());
        made.push(self.1.into());
        made.push(self.2.into());
        made.push(self.3.into());
        made
    }
}

impl<
    T1: Into<Value>,
    T2: Into<Value>,
    T3: Into<Value>,
    T4: Into<Value>,
    T5: Into<Value>,
> IntoTuple for (
    T1,
    T2,
    T3,
    T4,
    T5,
) {
    fn into_tuple(self) -> (made: Vec<Value>)
        ensures
            made@.len() == 5,
            call_ensures(T1::into, (self.0,), made@[0]),
            call_ensures(T2::into, (self.1,), made@[1]),
            call_ensures(T3::into, (self.2,), made@[2]),
            call_ensures(T4::into, (self.3,), made@[3]),
            call_ensures(T5::into, (self.4,), made@[4]),
    {
        let mut made: Vec<Value> = Vec::new();
        made.push(self.0.into());
        made.push(self.1.into());
        made.push(self.2.into());
        made.push(self.3.into());
        made.push(self.4.into());
        made
    }
}

impl<
    T1: Into<Value>,
    T2: Into<Value>,
    T3: Into<Value>,
    T4: Into<Value>,
    T5: Into<Value>,
    T6: Into<Value>,
> IntoTuple for (
    T1,
    T2,
    T3,
    T4,
    T5,
    T6,
) {
    fn into_tuple(self) -> (made: Vec<Value>)
        ensures
            made@.len() == 6,
            call_ensures(T1::into, (self.0,), made@[0]),
            call_ensures(T2::into, (self.1,), made@[1]),
            call_ensures(T3::into, (self.2,), made@[2]),
            call_ensures(T4::into, (self.3,), made@[3]),
            call_ensures(T5::into, (self.4,), made@[4]),
            call_ensures(T6::into, (self.5,), made@[5]),
    {
        let mut made: Vec<Value> = Vec::new();
        made.push(self.0.into());
        made.push(self.1.into());
        made.push(self.2.into());
        made.push(self.3.into());
        made.push(self.4.into());
        made.push(self.5.into());
        made
    }
}

impl<
    T1: Into<Value>,
    T2: Into<Value>,
    T3: Into<Value>,
    T4: Into<Value>,
    T5: Into<Value>,
    T6: Into<Value>,
    T7: Into<Value>,
> IntoTuple for (
    T1,
    T2,
    T3,
    T4,
    T5,
    T6,
    T7,
) {
    fn into_tuple(self) -> (made: Vec<Value>)
        ensures
            made@.len() == 7,
            call_ensures(T1::into, (self.0,), made@[0]),
            call_ensures(T2::into, (self.1,), made@[1]),
            call_ensures(T3::into, (self.2,), made@[2]),
            call_ensures(T4::into, (self.3,), made@[3]),
            call_ensures(T5::into, (self.4,), made@[4]),
            call_ensures(T6::into, (self.5,), made@[5]),
            call_ensures(T7::into, (self.6,), made@[6]),
    {
        let mut made: Vec<Value> = Vec::new();
        made.push(self.0.into());
        made.push(self.1.into());
        made.push(self.2.into());
        made.push(self.3.into());
        made.push(self.4.into());
        made.push(self.5.into());
        made.push(self.6.into());
        made
    }
}

impl<
    T1: Into<Value>,
    T2: Into<Value>,
    T3: Into<Value>,
    T4: Into<Value>,
    T5: Into<Value>,
    T6: Into<Value>,
    T7: Into<Value>,
    T8: Into<Value>,
> IntoTuple for (
    T1,
    T2,
    T3,
    T4,
    T5,
    T6,
    T7,
    T8,
) {
    fn into_tuple(self) -> (made: Vec<Value>)
        ensures
            made@.len() == 8,
            call_ensures(T1::into, (self.0,), made@[0]),
            call_ensures(T2::into, (self.1,), made@[1]),
            call_ensures(T3::into, (self.2,), made@[2]),
            call_ensures(T4::into, (self.3,), made@[3]),
            call_ensures(T5::into, (self.4,), made@[4]),
            call_ensures(T6::into, (self.5,), made@[5]),
            call_ensures(T7::into, (self.6,), made@[6]),
            call_ensures(T8::into, (self.7,), made@[7]),
    {
        let mut made: Vec<Value> = Vec::new();
        made.push(self.0.into());
        made.push(self.1.into());
        made.push(self.2.into());
        made.push(self.3.into());
        made.push(self.4.into());
        made.push(self.5.into());
        made.push(self.6.into());
        made.push(self.7.into());
        made
    }
}

impl<
    T1: Into<Value>,
    T2: Into<Value>,
    T3: Into<Value>,
    T4: Into<Value>,
    T5: Into<Value>,
    T6: Into<Value>,
    T7: Into<Value>,
    T8: Into<Value>,
    T9: Into<Value>,
> IntoTuple for (
    T1,
    T2,
    T3,
    T4,
    T5,
    T6,
    T7,
    T8,
    T9,
) {
    fn into_tuple(self) -> (made: Vec<Value>)
        ensures
            made@.len() == 9,
            call_ensures(T1::into, (self.0,), made@[0]),
            call_ensures(T2::into, (self.1,), made@[1]),
            call_ensures(T3::into, (self.2,), made@[2]),
            call_ensures(T4::into, (self.3,), made@[3]),
            call_ensures(T5::into, (self.4,), made@[4]),
            call_ensures(T6::into, (self.5,), made@[5]),
            call_ensures(T7::into, (self.6,), made@[6]),
            call_ensures(T8::into, (self.7,), made@[7]),
            call_ensures(T9::into, (self.8,), made@[8]),
    {
        let mut made: Vec<Value> = Vec::new();
        made.push(self.0.into());
        made.push(self.1.into());
        made.push(self.2.into());
        made.push(self.3.into());
        made.push(self.4.into());
        made.push(self.5.into());
        made.push(self.6.into());
        made.push(self.7.into());
        made.push(self.8.into());
        made
    }
}

impl<
    T1: Into<Value>,
    T2: Into<Value>,
    T3: Into<Value>,
    T4: Into<Value>,
    T5: Into<Value>,
    T6: Into<Value>,
    T7: Into<Value>,
    T8: Into<Value>,
    T9: Into<Value>,
    T10: Into<Value>,
> IntoTuple for (
    T1,
    T2,
    T3,
    T4,
    T5,
    T6,
    T7,
    T8,
    T9,
    T10,
) {
    fn into_tuple(self) -> (made: Vec<Value>)
        ensures
            made@.len() == 10,
            call_ensures(T1::into, (self.0,), made@[0]),
            call_ensures(T2::into, (self.1,), made@[1]),
            call_ensures(T3::into, (self.2,), made@[2]),
            call_ensures(T4::into, (self.3,), made@[3]),
            call_ensures(T5::into, (self.4,), made@[4]),
            call_ensures(T6::into, (self.5,), made@[5]),
            call_ensures(T7::into, (self.6,), made@[6]),
            call_ensures(T8::into, (self.7,), made@[7]),
            call_ensures(T9::into, (self.8,), made@[8]),
            call_ensures(T10::into, (self.9,), made@[9]),
    {
        let mut made: Vec<Value> = Vec::new();
        made.push(self.0.into());
        made.push(self.1.into());
        made.push(self.2.into());
        made.push(self.3.into());
        made.push(self.4.into());
        made.push(self.5.into());
        made.push(self.6.into());
        made.push(self.7.into());
        made.push(self.8.into());
        made.push(self.9.into());
        made
    }
}

impl<
    T1: Into<Value>,
    T2: Into<Value>,
    T3: Into<Value>,
    T4: Into<Value>,
    T5: Into<Value>,
    T6: Into<Value>,
    T7: Into<Value>,
    T8: Into<Value>,
    T9: Into<Value>,
    T10: Into<Value>,
    T11: Into<Value>,
> IntoTuple for (
    T1,
    T2,
    T3,
    T4,
    T5,
    T6,
    T7,
    T8,
    T9,
    T10,
    T11,
) {
    fn into_tuple(self) -> (made: Vec<Value>)
        ensures
            made@.len() == 11,
            call_ensures(T1::into, (self.0,), made@[0]),
            call_ensures(T2::into, (self.1,), made@[1]),
            call_ensures(T3::into, (self.2,), made@[2]),
            call_ensures(T4::into, (self.3,), made@[3]),
            call_ensures(T5::into, (self.4,), made@[4]),
            call_ensures(T6::into, (self.5,), made@[5]),
            call_ensures(T7::into, (self.6,), made@[6]),
            call_ensures(T8::into, (self.7,), made@[7]),
            call_ensures(T9::into, (self.8,), made@[8]),
            call_ensures(T10::into, (self.9,), made@[9]),
            call_ensures(T11::into, (self.10,), made@[10]),
    {
        let mut made: Vec<Value> = Vec::new();
        made.push(self.0.into());
        made.push(self.1.into());
        made.push(self.2.into());
        made.push(self.3.into());
        made.push(self.4.into());
        made.push(self.5.into());
        made.push(self.6.into());
        made.push(self.7.into());
        made.push(self.8.into());
        made.push(self.9.into());
        made.push(self.10.into());
        made
    }
}

impl<
    T1: Into<Value>,
    T2: Into<Value>,
    T3: Into<Value>,
    T4: Into<Value>,
    T5: Into<Value>,
    T6: Into<Value>,
    T7: Into<Value>,
    T8: Into<Value>,
    T9: Into<Value>,
    T10: Into<Value>,
    T11: Into<Value>,
    T12: Into<Value>,
> IntoTuple for (
    T1,
    T2,
    T3,
    T4,
    T5,
    T6,
    T7,
    T8,
    T9,
    T10,
    T11,
    T12,
) {
    fn into_tuple(self) -> (made: Vec<Value>)
        ensures
            made@.len() == 12,
            call_ensures(T1::into, (self.0,), made@[0]),
            call_ensures(T2::into, (self.1,), made@[1]),
            call_ensures(T3::into, (self.2,), made@[2]),
            call_ensures(T4::into, (self.3,), made@[3]),
            call_ensures(T5::into, (self.4,), made@[4]),
            call_ensures(T6::into, (self.5,), made@[5]),
            call_ensures(T7::into, (self.6,), made@[6]),
            call_ensures(T8::into, (self.7,), made@[7]),
            call_ensures(T9::into, (self.8,), made@[8]),
            call_ensures(T10::into, (self.9,), made@[9]),
            call_ensures(T11::into, (self.10,), made@[10]),
            call_ensures(T12::into, (self.11,), made@[11]),
    {
        let mut made: Vec<Value> = Vec::new();
        made.push(self.0.into());
        made.push(self.1.into());
        made.push(self.2.into());
        made.push(self.3.into());
        made.push(self.4.into());
        made.push(self.5.into());
        made.push(self.6.into());
        made.push(self.7.into());
        made.push(self.8.into());
        made.push(self.9.into());
        made.push(self.10.into());
        made.push(self.11.into());
        made
    }
}

impl<
    T1: Into<Value>,
    T2: Into<Value>,
    T3: Into<Value>,
    T4: Into<Value>,
    T5: Into<Value>,
    T6: Into<Value>,
    T7: Into<Value>,
    T8: Into<Value>,
    T9: Into<Value>,
    T10: Into<Value>,
    T11: Into<Value>,
    T12: Into<Value>,
    T13: Into<Value>,
> IntoTuple for (
    T1,
    T2,
    T3,
    T4,
    T5,
    T6,
    T7,
    T8,
    T9,
    T10,
    T11,
    T12,
    T13,
) {
    fn into_tuple(self) -> (made: Vec<Value>)
        ensures
            made@.len() == 13,
            call_ensures(T1::into, (self.0,), made@[0]),
            call_ensures(T2::into, (self.1,), made@[1]),
            call_ensures(T3::into, (self.2,), made@[2]),
            call_ensures(T4::into, (self.3,), made@[3]),
            call_ensures(T5::into, (self.4,), made@[4]),
            call_ensures(T6::into, (self.5,), made@[5]),
            call_ensures(T7::into, (self.6,), made@[6]),
            call_ensures(T8::into, (self.7,), made@[7]),
            call_ensures(T9::into, (self.8,), made@[8]),
            call_ensures(T10::into, (self.9,), made@[9]),
            call_ensures(T11::into, (self.10,), made@[10]),
            call_ensures(T12::into, (self.11,), made@[11]),
            call_ensures(T13::into, (self.12,), made@[12]),
    {
        let mut made: Vec<Value> = Vec::new();
        made.push(self.0.into());
        made.push(self.1.into());
        made.push(self.2.into());
        made.push(self.3.into());
        made.push(self.4.into());
        made.push(self.5.into());
        made.push(self.6.into());
        made.push(self.7.into());
        made.push(self.8.into());
        made.push(self.9.into());
        made.push(self.10.into());
        made.push(self.11.into());
        made.push(self.12.into());
        made
    }
}

impl<
    T1: Into<Value>,
    T2: Into<Value>,
    T3: Into<Value>,
    T4: Into<Value>,
    T5: Into<Value>,
    T6: Into<Value>,
    T7: Into<Value>,
    T8: Into<Value>,
    T9: Into<Value>,
    T10: Into<Value>,
    T11: Into<Value>,
    T12: Into<Value>,
    T13: Into<Value>,
    T14: Into<Value>,
> IntoTuple for (
    T1,
    T2,
    T3,
    T4,
    T5,
    T6,
    T7,
    T8,
    T9,
    T10,
    T11,
    T12,
    T13,
    T14,
) {
    fn into_tuple(self) -> (made: Vec<Value>)
        ensures
            made@.len() == 14,
            call_ensures(T1::into, (self.0,), made@[0]),
            call_ensures(T2::into, (self.1,), made@[1]),
            call_ensures(T3::into, (self.2,), made@[2]),
            call_ensures(T4::into, (self.3,), made@[3]),
            call_ensures(T5::into, (self.4,), made@[4]),
            call_ensures(T6::into, (self.5,), made@[5]),
            call_ensures(T7::into, (self.6,), made@[6]),
            call_ensures(T8::into, (self.7,), made@[7]),
            call_ensures(T9::into, (self.8,), made@[8]),
            call_ensures(T10::into, (self.9,), made@[9]),
            call_ensures(T11::into, (self.10,), made@[10]),
            call_ensures(T12::into, (self.11,), made@[11]),
            call_ensures(T13::into, (self.12,), made@[12]),
            call_ensures(T14::into, (self.13,), made@[13]),
    {
        let mut made: Vec<Value> = Vec::new();
        made.push(self.0.into());
        made.push(self.1.into());
        made.push(self.2.into());
        made.push(self.3.into());
        made.push(self.4.into());
        made.push(self.5.into());
        made.push(self.6.into());
        made.push(self.7.into());
        made.push(self.8.into());
        made.push(self.9.into());
        made.push(self.10.into());
        made.push(self.11.into());
        made.push(self.12.into());
        made.push(self.13.into());
        made
    }
}

impl<
    T1: Into<Value>,
    T2: Into<Value>,
    T3: Into<Value>,
    T4: Into<Value>,
    T5: Into<Value>,
    T6: Into<Value>,
    T7: Into<Value>,
    T8: Into<Value>,
    T9: Into<Value>,
    T10: Into<Value>,
    T11: Into<Value>,
    T12: Into<Value>,
    T13: Into<Value>,
    T14: Into<Value>,
    T15: Into<Value>,
> IntoTuple for (
    T1,
    T2,
    T3,
    T4,
    T5,
    T6,
    T7,
    T8,
    T9,
    T10,
    T11,
    T12,
    T13,
    T14,
    T15,
) {
    fn into_tuple(self) -> (made: Vec<Value>)
        ensures
            made@.len() == 15,
            call_ensures(T1::into, (self.0,), made@[0]),
            call_ensures(T2::into, (self.1,), made@[1]),
            call_ensures(T3::into, (self.2,), made@[2]),
            call_ensures(T4::into, (self.3,), made@[3]),
            call_ensures(T5::into, (self.4,), made@[4]),
            call_ensures(T6::into, (self.5,), made@[5]),
            call_ensures(T7::into, (self.6,), made@[6]),
            call_ensures(T8::into, (self.7,), made@[7]),
            call_ensures(T9::into, (self.8,), made@[8]),
            call_ensures(T10::into, (self.9,), made@[9]),
            call_ensures(T11::into, (self.10,), made@[10]),
            call_ensures(T12::into, (self.11,), made@[11]),
            call_ensures(T13::into, (self.12,), made@[12]),
            call_ensures(T14::into, (self.13,), made@[13]),
            call_ensures(T15::into, (self.14,), made@[14]),
    {
        let mut made: Vec<Value> = Vec::new();
        made.push(self.0.into());
        made.push(self.1.into());
        made.push(self.2.into());
        made.push(self.3.into());
        made.push(self.4.into());
        made.push(self.5.into());
        made.push(self.6.into());
        made.push(self.7.into());
        made.push(self.8.into());
        made.push(self.9.into());
        made.push(self.10.into());
        made.push(self.11.into());
        made.push(self.12.into());
        made.push(self.13.into());
        made.push(self.14.into());
        made
    }
}

impl<
    T1: Into<Value>,
    T2: Into<Value>,
    T3: Into<Value>,
    T4: Into<Value>,
    T5: Into<Value>,
    T6: Into<Value>,
    T7: Into<Value>,
    T8: Into<Value>,
    T9: Into<Value>,
    T10: Into<Value>,
    T11: Into<Value>,
    T12: Into<Value>,
    T13: Into<Value>,
    T14: Into<Value>,
    T15: Into<Value>,
    T16: Into<Value>,
> IntoTuple for (
    T1,
    T2,
    T3,
    T4,
    T5,
    T6,
    T7,
    T8,
    T9,
    T10,
    T11,
    T12,
    T13,
    T14,
    T15,
    T16,
) {
    fn into_tuple(self) -> (made: Vec<Value>)
        ensures
            made@.len() == 16,
            call_ensures(T1::into, (self.0,), made@[0]),
            call_ensures(T2::into, (self.1,), made@[1]),
            call_ensures(T3::into, (self.2,), made@[2]),
            call_ensures(T4::into, (self.3,), made@[3]),
            call_ensures(T5::into, (self.4,), made@[4]),
            call_ensures(T6::into, (self.5,), made@[5]),
            call_ensures(T7::into, (self.6,), made@[6]),
            call_ensures(T8::into, (self.7,), made@[7]),
            call_ensures(T9::into, (self.8,), made@[8]),
            call_ensures(T10::into, (self.9,), made@[9]),
            call_ensures(T11::into, (self.10,), made@[10]),
            call_ensures(T12::into, (self.11,), made@[11]),
            call_ensures(T13::into, (self.12,), made@[12]),
            call_ensures(T14::into, (self.13,), made@[13]),
            call_ensures(T15::into, (self.14,), made@[14]),
            call_ensures(T16::into, (self.15,), made@[15]),
    {
        let mut made: Vec<Value> = Vec::new();
        made.push(self.0.into());
        made.push(self.1.into());
        made.push(self.2.into());
        made.push(self.3.into());
        made.push(self.4.into());
        made.push(self.5.into());
        made.push(self.6.into());
        made.push(self.7.into());
        made.push(self.8.into());
        made.push(self.9.into());
        made.push(self.10.into());
        made.push(self.11.into());
        made.push(self.12.into());
        made.push(self.13.into());
        made.push(self.14.into());
        made.push(self.15.into());
        made
    }
}

impl<
    T1: Into<Value>,
    T2: Into<Value>,
    T3: Into<Value>,
    T4: Into<Value>,
    T5: Into<Value>,
    T6: Into<Value>,
    T7: Into<Value>,
    T8: Into<Value>,
    T9: Into<Value>,
    T10: Into<Value>,
    T11: Into<Value>,
    T12: Into<Value>,
    T13: Into<Value>,
    T14: Into<Value>,
    T15: Into<Value>,
    T16: Into<Value>,
    T17: Into<Value>,
> IntoTuple for (
    T1,
    T2,
    T3,
    T4,
    T5,
    T6,
    T7,
    T8,
    T9,
    T10,
    T11,
    T12,
    T13,
    T14,
    T15,
    T16,
    T17,
) {
    fn into_tuple(self) -> (made: Vec<Value>)
        ensures
            made@.len() == 17,
            call_ensures(T1::into, (self.0,), made@[0]),
            call_ensures(T2::into, (self.1,), made@[1]),
            call_ensures(T3::into, (self.2,), made@[2]),
            call_ensures(T4::into, (self.3,), made@[3]),
            call_ensures(T5::into, (self.4,), made@[4]),
            call_ensures(T6::into, (self.5,), made@[5]),
            call_ensures(T7::into, (self.6,), made@[6]),
            call_ensures(T8::into, (self.7,), made@[7]),
            call_ensures(T9::into, (self.8,), made@[8]),
            call_ensures(T10::into, (self.9,), made@[9]),
            call_ensures(T11::into, (self.10,), made@[10]),
            call_ensures(T12::into, (self.11,), made@[11]),
            call_ensures(T13::into, (self.12,), made@[12]),
            call_ensures(T14::into, (self.13,), made@[13]),
            call_ensures(T15::into, (self.14,), made@[14]),
            call_ensures(T16::into, (self.15,), made@[15]),
            call_ensures(T17::into, (self.16,), made@[16]),
    {
        let mut made: Vec<Value> = Vec::new();
        made.push(self.0.into());
        made.push(self.1.into());
        made.push(self.2.into());
        made.push(self.3.into());
        made.push(self.4.into());
        made.push(self.5.into());
        made.push(self.6.into());
        made.push(self.7.into());
        made.push(self.8.into());
        made.push(self.9.into());
        made.push(self.10.into());
        made.push(self.11.into());
        made.push(self.12.into());
        made.push(self.13.into());
        made.push(self.14.into());
        made.push(self.15.into());
        made.push(self.16.into());
        made
    }
}

impl<
    T1: Into<Value>,
    T2: Into<Value>,
    T3: Into<Value>,
    T4: Into<Value>,
    T5: Into<Value>,
    T6: Into<Value>,
    T7: Into<Value>,
    T8: Into<Value>,
    T9: Into<Value>,
    T10: Into<Value>,
    T11: Into<Value>,
    T12: Into<Value>,
    T13: Into<Value>,
    T14: Into<Value>,
    T15: Into<Value>,
    T16: Into<Value>,
    T17: Into<Value>,
    T18: Into<Value>,
> IntoTuple for (
    T1,
    T2,
    T3,
    T4,
    T5,
    T6,
    T7,
    T8,
    T9,
    T10,
    T11,
    T12,
    T13,
    T14,
    T15,
    T16,
    T17,
    T18,
) {
    fn into_tuple(self) -> (made: Vec<Value>)
        ensures
            made@.len() == 18,
            call_ensures(T1::into, (self.0,), made@[0]),
            call_ensures(T2::into, (self.1,), made@[1]),
            call_ensures(T3::into, (self.2,), made@[2]),
            call_ensures(T4::into, (self.3,), made@[3]),
            call_ensures(T5::into, (self.4,), made@[4]),
            call_ensures(T6::into, (self.5,), made@[5]),
            call_ensures(T7::into, (self.6,), made@[6]),
            call_ensures(T8::into, (self.7,), made@[7]),
            call_ensures(T9::into, (self.8,), made@[8]),
            call_ensures(T10::into, (self.9,), made@[9]),
            call_ensures(T11::into, (self.10,), made@[10]),
            call_ensures(T12::into, (self.11,), made@[11]),
            call_ensures(T13::into, (self.12,), made@[12]),
            call_ensures(T14::into, (self.13,), made@[13]),
            call_ensures(T15::into, (self.14,), made@[14]),
            call_ensures(T16::into, (self.15,), made@[15]),
            call_ensures(T17::into, (self.16,), made@[16]),
            call_ensures(T18::into, (self.17,), made@[17]),
    {
        let mut made: Vec<Value> = Vec::new();
        made.push(self.0.into());
        made.push(self.1.into());
        made.push(self.2.into());
        made.push(self.3.into());
        made.push(self.4.into());
        made.push(self.5.into());
        made.push(self.6.into());
        made.push(self.7.into());
        made.push(self.8.into());
        made.push(self.9.into());
        made.push(self.10.into());
        made.push(self.11.into());
        made.push(self.12.into());
        made.push(self.13.into());
        made.push(self.14.into());
        made.push(self.15.into());
        made.push(self.16.into());
        made.push(self.17.into());
        made
    }
}

impl<
    T1: Into<Value>,
    T2: Into<Value>,
    T3: Into<Value>,
    T4: Into<Value>,
    T5: Into<Value>,
    T6: Into<Value>,
    T7: Into<Value>,
    T8: Into<Value>,
    T9: Into<Value>,
    T10: Into<Value>,
    T11: Into<Value>,
    T12: Into<Value>,
    T13: Into<Value>,
    T14: Into<Value>,
    T15: Into<Value>,
    T16: Into<Value>,
    T17: Into<Value>,
    T18: Into<Value>,
    T19: Into<Value>,
> IntoTuple for (
    T1,
    T2,
    T3,
    T4,
    T5,
    T6,
    T7,
    T8,
    T9,
    T10,
    T11,
    T12,
    T13,
    T14,
    T15,
    T16,
    T17,
    T18,
    T19,
) {
    fn into_tuple(self) -> (made: Vec<Value>)
        ensures
            made@.len() == 19,
            call_ensures(T1::into, (self.0,), made@[0]),
            call_ensures(T2::into, (self.1,), made@[1]),
            call_ensures(T3::into, (self.2,), made@[2]),
            call_ensures(T4::into, (self.3,), made@[3]),
            call_ensures(T5::into, (self.4,), made@[4]),
            call_ensures(T6::into, (self.5,), made@[5]),
            call_ensures(T7::into, (self.6,), made@[6]),
            call_ensures(T8::into, (self.7,), made@[7]),
            call_ensures(T9::into, (self.8,), made@[8]),
            call_ensures(T10::into, (self.9,), made@[9]),
            call_ensures(T11::into, (self.10,), made@[10]),
            call_ensures(T12::into, (self.11,), made@[11]),
            call_ensures(T13::into, (self.12,), made@[12]),
            call_ensures(T14::into, (self.13,), made@[13]),
            call_ensures(T15::into, (self.14,), made@[14]),
            call_ensures(T16::into, (self.15,), made@[15]),
            call_ensures(T17::into, (self.16,), made@[16]),
            call_ensures(T18::into, (self.17,), made@[17]),
            call_ensures(T19::into, (self.18,), made@[18]),
    {
        let mut made: Vec<Value> = Vec::new();
        made.push(self.0.into());
        made.push(self.1.into());
        made.push(self.2.into());
        made.push(self.3.into());
        made.push(self.4.into());
        made.push(self.5.into());
        made.push(self.6.into());
        made.push(self.7.into());
        made.push(self.8.into());
        made.push(self.9.into());
        made.push(self.10.into());
        made.push(self.11.into());
        made.push(self.12.into());
        made.push(self.13.into());
        made.push(self.14.into());
        made.push(self.15.into());
        made.push(self.16.into());
        made.push(self.17.into());
        made.push(self.18.into());
        made
    }
}

impl<
    T1: Into<Value>,
    T2: Into<Value>,
    T3: Into<Value>,
    T4: Into<Value>,
    T5: Into<Value>,
    T6: Into<Value>,
    T7: Into<Value>,
    T8: Into<Value>,
    T9: Into<Value>,
    T10: Into<Value>,
    T11: Into<Value>,
    T12: Into<Value>,
    T13: Into<Value>,
    T14: Into<Value>,
    T15: Into<Value>,
    T16: Into<Value>,
    T17: Into<Value>,
    T18: Into<Value>,
    T19: Into<Value>,
    T20: Into<Value>,
> IntoTuple for (
    T1,
    T2,
    T3,
    T4,
    T5,
    T6,
    T7,
    T8,
    T9,
    T10,
    T11,
    T12,
    T13,
    T14,
    T15,
    T16,
    T17,
    T18,
    T19,
    T20,
) {
    fn into_tuple(self) -> (made: Vec<Value>)
        ensures
            made@.len() == 20,
            call_ensures(T1::into, (self.0,), made@[0]),
            call_ensures(T2::into, (self.1,), made@[1]),
            call_ensures(T3::into, (self.2,), made@[2]),
            call_ensures(T4::into, (self.3,), made@[3]),
            call_ensures(T5::into, (self.4,), made@[4]),
            call_ensures(T6::into, (self.5,), made@[5]),
            call_ensures(T7::into, (self.6,), made@[6]),
            call_ensures(T8::into, (self.7,), made@[7]),
            call_ensures(T9::into, (self.8,), made@[8]),
            call_ensures(T10::into, (self.9,), made@[9]),
            call_ensures(T11::into, (self.10,), made@[10]),
            call_ensures(T12::into, (self.11,), made@[11]),
            call_ensures(T13::into, (self.12,), made@[12]),
            call_ensures(T14::into, (self.13,), made@[13]),
            call_ensures(T15::into, (self.14,), made@[14]),
            call_ensures(T16::into, (self.15,), made@[15]),
            call_ensures(T17::into, (self.16,), made@[16]),
            call_ensures(T18::into, (self.17,), made@[17]),
            call_ensures(T19::into, (self.18,), made@[18]),
            call_ensures(T20::into, (self.19,), made@[19]),
    {
        let mut made: Vec<Value> = Vec::new();
        made.push(self.0.into());
        made.push(self.1.into());
        made.push(self.2.into());
        made.push(self.3.into());
        made.push(self.4.into());
        made.push(self.5.into());
        made.push(self.6.into());
        made.push(self.7.into());
        made.push(self.8.into());
        made.push(self.9.into());
        made.push(self.10.into());
        made.push(self.11.into());
        made.push(self.12.into());
        made.push(self.13.into());
        made.push(self.14.into());
        made.push(self.15.into());
        made.push(self.16.into());
        made.push(self.17.into());
        made.push(self.18.into());
        made.push(self.19.into());
        made
    }
}

impl<
    T1: Into<Value>,
    T2: Into<Value>,
    T3: Into<Value>,
    T4: Into<Value>,
    T5: Into<Value>,
    T6: Into<Value>,
    T7: Into<Value>,
    T8: Into<Value>,
    T9: Into<Value>,
    T10: Into<Value>,
    T11: Into<Value>,
    T12: Into<Value>,
    T13: Into<Value>,
    T14: Into<Value>,
    T15: Into<Value>,
    T16: Into<Value>,
    T17: Into<Value>,
    T18: Into<Value>,
    T19: Into<Value>,
    T20: Into<Value>,
    T21: Into<Value>,
> IntoTuple for (
    T1,
    T2,
    T3,
    T4,
    T5,
    T6,
    T7,
    T8,
    T9,
    T10,
    T11,
    T12,
    T13,
    T14,
    T15,
    T16,
    T17,
    T18,
    T19,
    T20,
    T21,
) {
    fn into_tuple(self) -> (made: Vec<Value>)
        ensures
            made@.len() == 21,
            call_ensures(T1::into, (self.0,), made@[0]),
            call_ensures(T2::into, (self.1,), made@[1]),
            call_ensures(T3::into, (self.2,), made@[2]),
            call_ensures(T4::into, (self.3,), made@[3]),
            call_ensures(T5::into, (self.4,), made@[4]),
            call_ensures(T6::into, (self.5,), made@[5]),
            call_ensures(T7::into, (self.6,), made@[6]),
            call_ensures(T8::into, (self.7,), made@[7]),
            call_ensures(T9::into, (self.8,), made@[8]),
            call_ensures(T10::into, (self.9,), made@[9]),
            call_ensures(T11::into, (self.10,), made@[10]),
            call_ensures(T12::into, (self.11,), made@[11]),
            call_ensures(T13::into, (self.12,), made@[12]),
            call_ensures(T14::into, (self.13,), made@[13]),
            call_ensures(T15::into, (self.14,), made@[14]),
            call_ensures(T16::into, (self.15,), made@[15]),
            call_ensures(T17::into, (self.16,), made@[16]),
            call_ensures(T18::into, (self.17,), made@[17]),
            call_ensures(T19::into, (self.18,), made@[18]),
            call_ensures(T20::into, (self.19,), made@[19]),
            call_ensures(T21::into, (self.20,), made@[20]),
    {
        let mut made: Vec<Value> = Vec::new();
        made.push(self.0.into());
        made.push(self.1.into());
        made.push(self.2.into());
        made.push(self.3.into());
        made.push(self.4.into());
        made.push(self.5.into());
        made.push(self.6.into());
        made.push(self.7.into());
        made.push(self.8.into());
        made.push(self.9.into());
        made.push(self.10.into());
        made.push(self.11.into());
        made.push(self.12.into());
        made.push(self.13.into());
        made.push(self.14.into());
        made.push(self.15.into());
        made.push(self.16.into());
        made.push(self.17.into());
        made.push(self.18.into());
        made.push(self.19.into());
        made.push(self.20.into());
        made
    }
}

impl<
    T1: Into<Value>,
    T2: Into<Value>,
    T3: Into<Value>,
    T4: Into<Value>,
    T5: Into<Value>,
    T6: Into<Value>,
    T7: Into<Value>,
    T8: Into<Value>,
    T9: Into<Value>,
    T10: Into<Value>,
    T11: Into<Value>,
    T12: Into<Value>,
    T13: Into<Value>,
    T14: Into<Value>,
    T15: Into<Value>,
    T16: Into<Value>,
    T17: Into<Value>,
    T18: Into<Value>,
    T19: Into<Value>,
    T20: Into<Value>,
    T21: Into<Value>,
    T22: Into<Value>,
> IntoTuple for (
    T1,
    T2,
    T3,
    T4,
    T5,
    T6,
    T7,
    T8,
    T9,
    T10,
    T11,
    T12,
    T13,
    T14,
    T15,
    T16,
    T17,
    T18,
    T19,
    T20,
    T21,
    T22,
) {
    fn into_tuple(self) -> (made: Vec<Value>)
        ensures
            made@.len() == 22,
            call_ensures(T1::into, (self.0,), made@[0]),
            call_ensures(T2::into, (self.1,), made@[1]),
            call_ensures(T3::into, (self.2,), made@[2]),
            call_ensures(T4::into, (self.3,), made@[3]),
            call_ensures(T5::into, (self.4,), made@[4]),
            call_ensures(T6::into, (self.5,), made@[5]),
            call_ensures(T7::into, (self.6,), made@[6]),
            call_ensures(T8::into, (self.7,), made@[7]),
            call_ensures(T9::into, (self.8,), made@[8]),
            call_ensures(T10::into, (self.9,), made@[9]),
            call_ensures(T11::into, (self.10,), made@[10]),
            call_ensures(T12::into, (self.11,), made@[11]),
            call_ensures(T13::into, (self.12,), made@[12]),
            call_ensures(T14::into, (self.13,), made@[13]),
            call_ensures(T15::into, (self.14,), made@[14]),
            call_ensures(T16::into, (self.15,), made@[15]),
            call_ensures(T17::into, (self.16,), made@[16]),
            call_ensures(T18::into, (self.17,), made@[17]),
            call_ensures(T19::into, (self.18,), made@[18]),
            call_ensures(T20::into, (self.19,), made@[19]),
            call_ensures(T21::into, (self.20,), made@[20]),
            call_ensures(T22::into, (self.21,), made@[21]),
    {
        let mut made: Vec<Value> = Vec::new();
        made.push(self.0.into());
        made.push(self.1.into());
        made.push(self.2.into());
        made.push(self.3.into());
        made.push(self.4.into());
        made.push(self.5.into());
        made.push(self.6.into());
        made.push(self.7.into());
        made.push(self.8.into());
        made.push(self.9.into());
        made.push(self.10.into());
        made.push(self.11.into());
        made.push(self.12.into());
        made.push(self.13.into());
        made.push(self.14.into());
        made.push(self.15.into());
        made.push(self.16.into());
        made.push(self.17.into());
        made.push(self.18.into());
        made.push(self.19.into());
        made.push(self.20.into());
        made.push(self.21.into());
        made
    }
}

impl<
    T1: Into<Value>,
    T2: Into<Value>,
    T3: Into<Value>,
    T4: Into<Value>,
    T5: Into<Value>,
    T6: Into<Value>,
    T7: Into<Value>,
    T8: Into<Value>,
    T9: Into<Value>,
    T10: Into<Value>,
    T11: Into<Value>,
    T12: Into<Value>,
    T13: Into<Value>,
    T14: Into<Value>,
    T15: Into<Value>,
    T16: Into<Value>,
    T17: Into<Value>,
    T18: Into<Value>,
    T19: Into<Value>,
    T20: Into<Value>,
    T21: Into<Value>,
    T22: Into<Value>,
    T23: Into<Value>,
> IntoTuple for (
    T1,
    T2,
    T3,
    T4,
    T5,
    T6,
    T7,
    T8,
    T9,
    T10,
    T11,
    T12,
    T13,
    T14,
    T15,
    T16,
    T17,
    T18,
    T19,
    T20,
    T21,
    T22,
    T23,
) {
    fn into_tuple(self) -> (made: Vec<Value>)
        ensures
            made@.len() == 23,
            call_ensures(T1::into, (self.0,), made@[0]),
            call_ensures(T2::into, (self.1,), made@[1]),
            call_ensures(T3::into, (self.2,), made@[2]),
            call_ensures(T4::into, (self.3,), made@[3]),
            call_ensures(T5::into, (self.4,), made@[4]),
            call_ensures(T6::into, (self.5,), made@[5]),
            call_ensures(T7::into, (self.6,), made@[6]),
            call_ensures(T8::into, (self.7,), made@[7]),
            call_ensures(T9::into, (self.8,), made@[8]),
            call_ensures(T10::into, (self.9,), made@[9]),
            call_ensures(T11::into, (self.10,), made@[10]),
            call_ensures(T12::into, (self.11,), made@[11]),
            call_ensures(T13::into, (self.12,), made@[12]),
            call_ensures(T14::into, (self.13,), made@[13]),
            call_ensures(T15::into, (self.14,), made@[14]),
            call_ensures(T16::into, (self.15,), made@[15]),
            call_ensures(T17::into, (self.16,), made@[16]),
            call_ensures(T18::into, (self.17,), made@[17]),
            call_ensures(T19::into, (self.18,), made@[18]),
            call_ensures(T20::into, (self.19,), made@[19]),
            call_ensures(T21::into, (self.20,), made@[20]),
            call_ensures(T22::into, (self.21,), made@[21]),
            call_ensures(T23::into, (self.22,), made@[22]),
    {
        let mut made: Vec<Value> = Vec::new();
        made.push(self.0.into());
        made.push(self.1.into());
        made.push(self.2.into());
        made.push(self.3.into());
        made.push(self.4.into());
        made.push(self.5.into());
        made.push(self.6.into());
        made.push(self.7.into());
        made.push(self.8.into());
        made.push(self.9.into());
        made.push(self.10.into());
        made.push(self.11.into());
        made.push(self.12.into());
        made.push(self.13.into());
        made.push(self.14.into());
        made.push(self.15.into());
        made.push(self.16.into());
        made.push(self.17.into());
        made.push(self.18.into());
        made.push(self.19.into());
        made.push(self.20.into());
        made.push(self.21.into());
        made.push(self.22.into());
        made
    }
}

impl<
    T1: Into<Value>,
    T2: Into<Value>,
    T3: Into<Value>,
    T4: Into<Value>,
    T5: Into<Value>,
    T6: Into<Value>,
    T7: Into<Value>,
    T8: Into<Value>,
    T9: Into<Value>,
    T10: Into<Value>,
    T11: Into<Value>,
    T12: Into<Value>,
    T13: Into<Value>,
    T14: Into<Value>,
    T15: Into<Value>,
    T16: Into<Value>,
    T17: Into<Value>,
    T18: Into<Value>,
    T19: Into<Value>,
    T20: Into<Value>,
    T21: Into<Value>,
    T22: Into<Value>,
    T23: Into<Value>,
    T24: Into<Value>,
> IntoTuple for (
    T1,
    T2,
    T3,
    T4,
    T5,
    T6,
    T7,
    T8,
    T9,
    T10,
    T11,
    T12,
    T13,
    T14,
    T15,
    T16,
    T17,
    T18,
    T19,
    T20,
    T21,
    T22,
    T23,
    T24,
) {
    fn into_tuple(self) -> (made: Vec<Value>)
        ensures
            made@.len() == 24,
            call_ensures(T1::into, (self.0,), made@[0]),
            call_ensures(T2::into, (self.1,), made@[1]),
            call_ensures(T3::into, (self.2,), made@[2]),
            call_ensures(T4::into, (self.3,), made@[3]),
            call_ensures(T5::into, (self.4,), made@[4]),
            call_ensures(T6::into, (self.5,), made@[5]),
            call_ensures(T7::into, (self.6,), made@[6]),
            call_ensures(T8::into, (self.7,), made@[7]),
            call_ensures(T9::into, (self.8,), made@[8]),
            call_ensures(T10::into, (self.9,), made@[9]),
            call_ensures(T11::into, (self.10,), made@[10]),
            call_ensures(T12::into, (self.11,), made@[11]),
            call_ensures(T13::into, (self.12,), made@[12]),
            call_ensures(T14::into, (self.13,), made@[13]),
            call_ensures(T15::into, (self.14,), made@[14]),
            call_ensures(T16::into, (self.15,), made@[15]),
            call_ensures(T17::into, (self.16,), made@[16]),
            call_ensures(T18::into, (self.17,), made@[17]),
            call_ensures(T19::into, (self.18,), made@[18]),
            call_ensures(T20::into, (self.19,), made@[19]),
            call_ensures(T21::into, (self.20,), made@[20]),
            call_ensures(T22::into, (self.21,), made@[21]),
            call_ensures(T23::into, (self.22,), made@[22]),
            call_ensures(T24::into, (self.23,), made@[23]),
    {
        let mut made: Vec<Value> = Vec::new();
        made.push(self.0.into());
        made.push(self.1.into());
        made.push(self.2.into());
        made.push(self.3.into());
        made.push(self.4.into());
        made.push(self.5.into());
        made.push(self.6.into());
        made.push(self.7.into());
        made.push(self.8.into());
        made.push(self.9.into());
        made.push(self.10.into());
        made.push(self.11.into());
        made.push(self.12.into());
        made.push(self.13.into());
        made.push(self.14.into());
        made.push(self.15.into());
        made.push(self.16.into());
        made.push(self.17.into());
        made.push(self.18.into());
        made.push(self.19.into());
        made.push(self.20.into());
        made.push(self.21.into());
        made.push(self.22.into());
        made.push(self.23.into());
        made
    }
}

} // verus!
