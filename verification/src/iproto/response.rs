//! Responses: the frame, the header, and the decoders of the body.

use vstd::prelude::*;
use std::collections::HashMap;
use vstd::slice::{slice_subrange, slice_to_vec};
use crate::iproto::constants::{Code, Field};
use crate::iproto::reader::{
    array_len_take, map_len_take, str_take, uint_take, value_len, value_skip, value_take, Reader,
};
use crate::iproto::request::key;
use crate::iproto::wire::{
    lemma_map_len_round_trip, lemma_uint_round_trip, map_len_bytes, uint_bytes,
};
use crate::iproto::types::Error;

verus! {

/// The header of a response: its status, the sync number of the request
/// that it answers, and the version of the schema on the server.
#[derive(Debug, Clone, Copy, PartialEq, Eq, Structural)]
pub struct Header {
    pub code: Code,
    pub sync: u64,
    pub schema: u64,
}

impl Default for Header {
    fn default() -> (header: Header)
        ensures
            header == Header::blank(),
    {
        Header { code: Code::Success, sync: 0, schema: 0 }
    }
}

/// What one entry of a header map makes of the header: the three known
/// fields set their part of it, and any other field of the catalog is read
/// and dropped. The input starts behind the key.
pub open spec fn header_entry(field: Field, input: Seq<u8>, header: Header) -> Result<
    (Header, Seq<u8>),
    Error,
> {
    match field {
        Field::RequestType => match uint_take(input) {
            Ok((raw, rest)) => match Code::of_code(raw) {
                Some(code) => Ok((Header { code, ..header }, rest)),
                None => Err(Error::UnexpectedValue(field)),
            },
            Err(error) => Err(error),
        },
        Field::Sync => match uint_take(input) {
            Ok((sync, rest)) => Ok((Header { sync, ..header }, rest)),
            Err(error) => Err(error),
        },
        Field::SchemaVersion => match uint_take(input) {
            Ok((schema, rest)) => Ok((Header { schema, ..header }, rest)),
            Err(error) => Err(error),
        },
        _ => match value_skip(input) {
            Ok(rest) => Ok((header, rest)),
            Err(error) => Err(error),
        },
    }
}

/// What `count` entries make of the header, one after another, and the
/// input behind them. A key outside the catalog ends the decoding.
pub open spec fn header_entries(count: nat, input: Seq<u8>, header: Header) -> Result<
    (Header, Seq<u8>),
    Error,
>
    decreases count,
{
    if count == 0 {
        Ok((header, input))
    } else {
        match uint_take(input) {
            Ok((raw, rest)) => match Field::of_code(raw) {
                Some(field) => match header_entry(field, rest, header) {
                    Ok((next, rest)) => header_entries((count - 1) as nat, rest, next),
                    Err(error) => Err(error),
                },
                None => Err(Error::UnexpectedField(raw)),
            },
            Err(error) => Err(error),
        }
    }
}

/// The header at the front of the input, and the input behind it.
pub open spec fn header_take(input: Seq<u8>) -> Result<(Header, Seq<u8>), Error> {
    match map_len_take(input) {
        Ok((count, rest)) => header_entries(count as nat, rest, Header::blank()),
        Err(error) => Err(error),
    }
}

impl Header {
    /// The header before any entry is read: success, and zero twice.
    pub open spec fn blank() -> Header {
        Header { code: Code::Success, sync: 0, schema: 0 }
    }

    /// Reads one entry, from behind its key.
    fn unpack_entry(self, field: Field, reader: &mut Reader) -> (found: Result<Header, Error>)
        requires
            old(reader).wf(),
        ensures
            final(reader).wf(),
            final(reader).data == old(reader).data,
            match header_entry(field, old(reader).rest(), self) {
                Ok((header, rest)) => found == Ok::<Header, Error>(header) && final(reader).rest()
                    == rest,
                Err(error) => found == Err::<Header, Error>(error),
            },
    {
        let mut header = self;
        match field {
            Field::RequestType => {
                let raw = reader.read_uint()?;
                match Code::from_u64(raw) {
                    Some(code) => { header.code = code; },
                    None => { return Err(Error::UnexpectedValue(field)); },
                }
            },
            Field::Sync => { header.sync = reader.read_uint()?; },
            Field::SchemaVersion => { header.schema = reader.read_uint()?; },
            _ => { reader.skip_value()?; },
        }
        Ok(header)
    }

    /// Reads a header.
    pub fn unpack(reader: &mut Reader) -> (found: Result<Header, Error>)
        requires
            old(reader).wf(),
        ensures
            final(reader).wf(),
            final(reader).data == old(reader).data,
            match header_take(old(reader).rest()) {
                Ok((header, rest)) => found == Ok::<Header, Error>(header) && final(reader).rest()
                    == rest,
                Err(error) => found == Err::<Header, Error>(error),
            },
    {
        let count = reader.read_map_len()?;
        let mut header = Header::default();
        let mut i: u32 = 0;
        while i < count
            invariant
                i <= count,
                reader.wf(),
                reader.data == old(reader).data,
                header_entries((count - i) as nat, reader.rest(), header) == header_take(
                    old(reader).rest(),
                ),
            decreases count - i,
        {
            let raw = reader.read_uint()?;
            let field = match Field::from_u64(raw) {
                Some(field) => field,
                None => { return Err(Error::UnexpectedField(raw)); },
            };
            header = header.unpack_entry(field, reader)?;
            i += 1;
        }
        Ok(header)
    }
}

/// A response: its header, and the bytes of its body where it has one.
#[derive(Debug, Clone)]
pub struct Response {
    pub header: Header,
    pub body: Option<Vec<u8>>,
}

/// The part of the input that the frame covers: the bytes behind the length
/// prefix, as many as the prefix says, or all that are there where they are
/// fewer.
pub open spec fn frame_window(size: u64, rest: Seq<u8>) -> Seq<u8> {
    if size < rest.len() {
        rest.take(size as int)
    } else {
        rest
    }
}

/// The header of the frame at the front of the input, and the bytes of the
/// frame behind the header.
pub open spec fn frame_take(input: Seq<u8>) -> Result<(Header, Seq<u8>), Error> {
    match uint_take(input) {
        Ok((size, rest)) => header_take(frame_window(size, rest)),
        Err(error) => Err(error),
    }
}

impl Response {
    /// The bytes of the body; none where there is no body.
    pub open spec fn body_bytes(&self) -> Seq<u8> {
        match self.body {
            Some(body) => body@,
            None => Seq::empty(),
        }
    }

    /// Parses what a frame holds behind its length prefix: the header, and
    /// what is left as the body. A frame that ends with its header has no
    /// body.
    pub fn from_frame(frame: &[u8]) -> (found: Result<Response, Error>)
        ensures
            match header_take(frame@) {
                Ok((header, body)) => found matches Ok(response) && response.header == header
                    && response.body_bytes() == body && (response.body is None <==> body.len()
                    == 0),
                Err(error) => found matches Err(other) && other == error,
            },
    {
        let mut reader = Reader::new(frame);
        let header = Header::unpack(&mut reader)?;
        let body = reader.remaining();
        if body.len() == 0 {
            Ok(Response { header, body: None })
        } else {
            Ok(Response { header, body: Some(slice_to_vec(body)) })
        }
    }

    /// Parses a frame: the length prefix, and what the frame holds behind
    /// it. Bytes behind the end of the frame are left alone.
    pub fn parse(input: &[u8]) -> (found: Result<Response, Error>)
        ensures
            match frame_take(input@) {
                Ok((header, body)) => found matches Ok(response) && response.header == header
                    && response.body_bytes() == body && (response.body is None <==> body.len()
                    == 0),
                Err(error) => found matches Err(other) && other == error,
            },
    {
        let mut reader = Reader::new(input);
        let size = reader.read_uint()?;
        let rest = reader.remaining();
        if size < rest.len() as u64 {
            Response::from_frame(slice_subrange(rest, 0, size as usize))
        } else {
            Response::from_frame(rest)
        }
    }
}

/// A decoder of response bodies. The decoders of this module say in the
/// contract of their `unpack` what they make of the bytes.
pub trait BodyDecoder {
    /// What the decoder makes of a body.
    type Result;

    /// Decodes the bytes of a body.
    fn unpack(body: &[u8]) -> Result<Self::Result, Error>;
}

/// Whether `found` is something that the decoder `B` may return for these
/// bytes.
pub open spec fn decodes<B: BodyDecoder>(body: Seq<u8>, found: Result<B::Result, Error>) -> bool {
    exists|bytes: &[u8]| bytes@ == body && #[trigger] call_ensures(B::unpack, (bytes,), found)
}

impl Response {
    /// Decodes the body with the decoder `B`; a response without a body
    /// gives `Error::EmptyBody`.
    pub fn unpack_body<B: BodyDecoder>(&self) -> (found: Result<B::Result, Error>)
        ensures
            match self.body {
                Some(body) => decodes::<B>(body@, found),
                None => found matches Err(Error::EmptyBody),
            },
    {
        match &self.body {
            Some(body) => {
                let bytes = body.as_slice();
                let found = B::unpack(bytes);
                assert(call_ensures(B::unpack, (bytes,), found));
                found
            },
            None => Err(Error::EmptyBody),
        }
    }

    /// Decodes the body of the response to an execute that selects rows,
    /// with the decoder `B`; a response without a body gives
    /// `Error::EmptyBody`.
    pub fn unpack_body_from_execute_select<B: BodyDecoder>(&self) -> (found: Result<
        B::Result,
        Error,
    >)
        ensures
            match self.body {
                Some(body) => decodes::<B>(body@, found),
                None => found matches Err(Error::EmptyBody),
            },
    {
        match &self.body {
            Some(body) => {
                let bytes = body.as_slice();
                let found = B::unpack(bytes);
                assert(call_ensures(B::unpack, (bytes,), found));
                found
            },
            None => Err(Error::EmptyBody),
        }
    }
}

/// The field that a key stands for.
pub open spec fn field_take(input: Seq<u8>) -> Result<(Field, u64, Seq<u8>), Error> {
    match uint_take(input) {
        Ok((raw, rest)) => match Field::of_code(raw) {
            Some(field) => Ok((field, raw, rest)),
            None => Err(Error::UnexpectedField(raw)),
        },
        Err(error) => Err(error),
    }
}

/// Reads a key of the catalog, and gives the field with its code.
fn read_field(reader: &mut Reader) -> (found: Result<(Field, u64), Error>)
    requires
        old(reader).wf(),
    ensures
        final(reader).wf(),
        final(reader).data == old(reader).data,
        match field_take(old(reader).rest()) {
            Ok((field, raw, rest)) => found == Ok::<(Field, u64), Error>((field, raw)) && final(reader).rest() == rest,
            Err(error) => found == Err::<(Field, u64), Error>(error),
        },
{
    let raw = reader.read_uint()?;
    match Field::from_u64(raw) {
        Some(field) => Ok((field, raw)),
        None => Err(Error::UnexpectedField(raw)),
    }
}

/// The body of a response that carries tuples: what stands under the one
/// key `Field::Data`, up to the end of the body.
pub open spec fn tuple_body(input: Seq<u8>) -> Result<Seq<u8>, Error> {
    match map_len_take(input) {
        Ok((count, rest)) => if count != 1 {
            Err(Error::WrongMapLen { expected: 1, found: count })
        } else {
            match field_take(rest) {
                Ok((field, raw, rest)) => if field == Field::Data {
                    Ok(rest)
                } else {
                    Err(Error::UnexpectedField(raw))
                },
                Err(error) => Err(error),
            }
        },
        Err(error) => Err(error),
    }
}

/// The decoder of a body that carries tuples. It gives the bytes of the
/// data, which are MessagePack for the caller to read.
pub struct TupleBody;

impl BodyDecoder for TupleBody {
    type Result = Vec<u8>;

    fn unpack(body: &[u8]) -> (found: Result<Vec<u8>, Error>)
        ensures
            match tuple_body(body@) {
                Ok(data) => found matches Ok(bytes) && bytes@ == data,
                Err(error) => found matches Err(other) && other == error,
            },
    {
        let mut reader = Reader::new(body);
        let count = reader.read_map_len()?;
        if count != 1 {
            return Err(Error::WrongMapLen { expected: 1, found: count });
        }
        let (field, raw) = read_field(&mut reader)?;
        match field {
            Field::Data => Ok(slice_to_vec(reader.remaining())),
            _ => Err(Error::UnexpectedField(raw)),
        }
    }
}

/// What `count` entries of the body of a select leave as the data: the
/// bytes of the value under `Field::Data`, the last one if there are
/// several. Every other value is read and dropped.
pub open spec fn select_entries(count: nat, input: Seq<u8>, data: Option<Seq<u8>>) -> Result<
    Option<Seq<u8>>,
    Error,
>
    decreases count,
{
    if count == 0 {
        Ok(data)
    } else {
        match field_take(input) {
            Ok((field, raw, rest)) => match value_take(rest) {
                Ok((bytes, rest)) => select_entries(
                    (count - 1) as nat,
                    rest,
                    if field == Field::Data {
                        Some(bytes)
                    } else {
                        data
                    },
                ),
                Err(error) => Err(error),
            },
            Err(error) => Err(error),
        }
    }
}

/// The body of the response to an execute that selects rows: a map of two
/// entries, of which the one under `Field::Data` is given, wherever it
/// stands. Without such an entry the body is refused with the code zero.
pub open spec fn tuple_select_body(input: Seq<u8>) -> Result<Seq<u8>, Error> {
    match map_len_take(input) {
        Ok((count, rest)) => if count != 2 {
            Err(Error::WrongMapLen { expected: 2, found: count })
        } else {
            match select_entries(2, rest, None) {
                Ok(Some(data)) => Ok(data),
                Ok(None) => Err(Error::UnexpectedField(0)),
                Err(error) => Err(error),
            }
        },
        Err(error) => Err(error),
    }
}

/// The decoder of the body of a response to an execute that selects rows.
/// It gives the bytes of the data, which are MessagePack for the caller to
/// read.
pub struct TupleBodySelect;

impl BodyDecoder for TupleBodySelect {
    type Result = Vec<u8>;

    fn unpack(body: &[u8]) -> (found: Result<Vec<u8>, Error>)
        ensures
            match tuple_select_body(body@) {
                Ok(data) => found matches Ok(bytes) && bytes@ == data,
                Err(error) => found matches Err(other) && other == error,
            },
    {
        let mut reader = Reader::new(body);
        let count = reader.read_map_len()?;
        if count != 2 {
            return Err(Error::WrongMapLen { expected: 2, found: count });
        }
        let ghost start = reader.rest();
        let mut data: Option<Vec<u8>> = None;
        let mut i: u32 = 0;
        while i < count
            invariant
                i <= count == 2,
                reader.wf(),
                reader.data == body,
                map_len_take(body@) == Ok::<(u32, Seq<u8>), Error>((2u32, start)),
                select_entries(
                    (count - i) as nat,
                    reader.rest(),
                    match data {
                        Some(bytes) => Some(bytes@),
                        None => None,
                    },
                ) == select_entries(2, start, None),
            decreases count - i,
        {
            let (field, _) = read_field(&mut reader)?;
            let bytes = reader.take_value()?;
            match field {
                Field::Data => { data = Some(slice_to_vec(bytes)); },
                _ => {},
            }
            i += 1;
        }
        match data {
            Some(bytes) => Ok(bytes),
            None => Err(Error::UnexpectedField(0)),
        }
    }
}

/// One level of the stack of an error.
#[derive(Debug, Clone, PartialEq, Eq)]
pub struct StackRecord {
    pub err_type: String,
    pub file: String,
    pub line: u64,
    pub message: String,
    pub errno: u64,
    pub errcode: u64,
}

/// A stack record as a value of mathematics.
pub struct StackRecordView {
    pub err_type: Seq<char>,
    pub file: Seq<char>,
    pub line: u64,
    pub message: Seq<char>,
    pub errno: u64,
    pub errcode: u64,
}

impl View for StackRecord {
    type V = StackRecordView;

    open spec fn view(&self) -> StackRecordView {
        StackRecordView {
            err_type: self.err_type@,
            file: self.file@,
            line: self.line,
            message: self.message@,
            errno: self.errno,
            errcode: self.errcode,
        }
    }
}

impl StackRecordView {
    /// The record before any entry is read: empty strings and zeros.
    pub open spec fn blank() -> StackRecordView {
        StackRecordView {
            err_type: Seq::empty(),
            file: Seq::empty(),
            line: 0,
            message: Seq::empty(),
            errno: 0,
            errcode: 0,
        }
    }
}

impl Default for StackRecord {
    fn default() -> (record: StackRecord)
        ensures
            record@ == StackRecordView::blank(),
    {
        StackRecord {
            err_type: String::new(),
            file: String::new(),
            line: 0,
            message: String::new(),
            errno: 0,
            errcode: 0,
        }
    }
}

/// An error that the server returned: its message, and its stack from the
/// outermost record to the innermost.
#[derive(Debug, Clone, PartialEq, Eq)]
pub struct TarantoolError {
    pub message: String,
    pub stack: Vec<StackRecord>,
}

/// An error of the server as a value of mathematics.
pub struct TarantoolErrorView {
    pub message: Seq<char>,
    pub stack: Seq<StackRecordView>,
}

/// The records as values of mathematics.
pub open spec fn stack_view(stack: Seq<StackRecord>) -> Seq<StackRecordView> {
    Seq::new(stack.len(), |i: int| stack[i]@)
}

impl View for TarantoolError {
    type V = TarantoolErrorView;

    open spec fn view(&self) -> TarantoolErrorView {
        TarantoolErrorView { message: self.message@, stack: stack_view(self.stack@) }
    }
}

/// What one entry of a record's map makes of the record: the keys from
/// zero to five set the type, the file, the line, the message, the errno
/// and the code of the error, and any other key has its value read and
/// dropped. The input starts behind the key.
pub open spec fn record_entry(key: u64, input: Seq<u8>, record: StackRecordView) -> Result<
    (StackRecordView, Seq<u8>),
    Error,
> {
    if key == 0 {
        match str_take(input) {
            Ok((err_type, rest)) => Ok((StackRecordView { err_type, ..record }, rest)),
            Err(error) => Err(error),
        }
    } else if key == 1 {
        match str_take(input) {
            Ok((file, rest)) => Ok((StackRecordView { file, ..record }, rest)),
            Err(error) => Err(error),
        }
    } else if key == 2 {
        match uint_take(input) {
            Ok((line, rest)) => Ok((StackRecordView { line, ..record }, rest)),
            Err(error) => Err(error),
        }
    } else if key == 3 {
        match str_take(input) {
            Ok((message, rest)) => Ok((StackRecordView { message, ..record }, rest)),
            Err(error) => Err(error),
        }
    } else if key == 4 {
        match uint_take(input) {
            Ok((errno, rest)) => Ok((StackRecordView { errno, ..record }, rest)),
            Err(error) => Err(error),
        }
    } else if key == 5 {
        match uint_take(input) {
            Ok((errcode, rest)) => Ok((StackRecordView { errcode, ..record }, rest)),
            Err(error) => Err(error),
        }
    } else {
        match value_skip(input) {
            Ok(rest) => Ok((record, rest)),
            Err(error) => Err(error),
        }
    }
}

/// What `count` entries make of the record, one after another, and the
/// input behind them.
pub open spec fn record_entries(count: nat, input: Seq<u8>, record: StackRecordView) -> Result<
    (StackRecordView, Seq<u8>),
    Error,
>
    decreases count,
{
    if count == 0 {
        Ok((record, input))
    } else {
        match uint_take(input) {
            Ok((key, rest)) => match record_entry(key, rest, record) {
                Ok((next, rest)) => record_entries((count - 1) as nat, rest, next),
                Err(error) => Err(error),
            },
            Err(error) => Err(error),
        }
    }
}

/// The record at the front of the input, and the input behind it.
pub open spec fn record_take(input: Seq<u8>) -> Result<(StackRecordView, Seq<u8>), Error> {
    match map_len_take(input) {
        Ok((count, rest)) => record_entries(count as nat, rest, StackRecordView::blank()),
        Err(error) => Err(error),
    }
}

/// `stack` with the next `count` records of the input added in their
/// order, and the input behind them.
pub open spec fn stack_records(count: nat, input: Seq<u8>, stack: Seq<StackRecordView>) -> Result<
    (Seq<StackRecordView>, Seq<u8>),
    Error,
>
    decreases count,
{
    if count == 0 {
        Ok((stack, input))
    } else {
        match record_take(input) {
            Ok((record, rest)) => stack_records((count - 1) as nat, rest, stack.push(record)),
            Err(error) => Err(error),
        }
    }
}

/// The stack at the front of the input, an array of records, and the input
/// behind it.
pub open spec fn stack_take(input: Seq<u8>) -> Result<(Seq<StackRecordView>, Seq<u8>), Error> {
    match array_len_take(input) {
        Ok((count, rest)) => stack_records(count as nat, rest, Seq::empty()),
        Err(error) => Err(error),
    }
}

/// What `count` entries of the map of an extended error leave as the
/// stack: the key zero holds a stack, which takes the place of the one
/// before, and any other key has its value read and dropped.
pub open spec fn extended_entries(count: nat, input: Seq<u8>, stack: Seq<StackRecordView>)
    -> Result<(Seq<StackRecordView>, Seq<u8>), Error>
    decreases count,
{
    if count == 0 {
        Ok((stack, input))
    } else {
        match uint_take(input) {
            Ok((key, rest)) => if key != 0 {
                match value_skip(rest) {
                    Ok(rest) => extended_entries((count - 1) as nat, rest, stack),
                    Err(error) => Err(error),
                }
            } else {
                match stack_take(rest) {
                    Ok((next, rest)) => extended_entries((count - 1) as nat, rest, next),
                    Err(error) => Err(error),
                }
            },
            Err(error) => Err(error),
        }
    }
}

/// The stack that the extended error at the front of the input leaves,
/// and the input behind it.
pub open spec fn extended_take(input: Seq<u8>, stack: Seq<StackRecordView>) -> Result<
    (Seq<StackRecordView>, Seq<u8>),
    Error,
> {
    match map_len_take(input) {
        Ok((count, rest)) => extended_entries(count as nat, rest, stack),
        Err(error) => Err(error),
    }
}

/// What one entry of an error body makes of the error: `Field::Error24`
/// sets the message, `Field::Error` the stack, and any other field of the
/// catalog is read and dropped. The input starts behind the key.
pub open spec fn error_entry(field: Field, input: Seq<u8>, error: TarantoolErrorView) -> Result<
    (TarantoolErrorView, Seq<u8>),
    Error,
> {
    match field {
        Field::Error24 => match str_take(input) {
            Ok((message, rest)) => Ok((TarantoolErrorView { message, ..error }, rest)),
            Err(failure) => Err(failure),
        },
        Field::Error => match extended_take(input, error.stack) {
            Ok((stack, rest)) => Ok((TarantoolErrorView { stack, ..error }, rest)),
            Err(failure) => Err(failure),
        },
        _ => match value_skip(input) {
            Ok(rest) => Ok((error, rest)),
            Err(failure) => Err(failure),
        },
    }
}

/// What `count` entries make of the error, one after another.
pub open spec fn error_entries(count: nat, input: Seq<u8>, error: TarantoolErrorView) -> Result<
    TarantoolErrorView,
    Error,
>
    decreases count,
{
    if count == 0 {
        Ok(error)
    } else {
        match field_take(input) {
            Ok((field, _, rest)) => match error_entry(field, rest, error) {
                Ok((next, rest)) => error_entries((count - 1) as nat, rest, next),
                Err(failure) => Err(failure),
            },
            Err(failure) => Err(failure),
        }
    }
}

/// The error that a body holds: a map whose entries are read one after
/// another, from an empty message and an empty stack.
pub open spec fn error_body(input: Seq<u8>) -> Result<TarantoolErrorView, Error> {
    match map_len_take(input) {
        Ok((count, rest)) => error_entries(
            count as nat,
            rest,
            TarantoolErrorView { message: Seq::empty(), stack: Seq::empty() },
        ),
        Err(failure) => Err(failure),
    }
}

impl StackRecord {
    /// Reads one entry, from behind its key.
    fn unpack_entry(self, key: u64, reader: &mut Reader) -> (found: Result<StackRecord, Error>)
        requires
            old(reader).wf(),
        ensures
            final(reader).wf(),
            final(reader).data == old(reader).data,
            match record_entry(key, old(reader).rest(), self@) {
                Ok((record, rest)) => (found matches Ok(made) && made@ == record) && final(reader).rest() == rest,
                Err(error) => found matches Err(other) && other == error,
            },
    {
        let mut record = self;
        match key {
            0 => { record.err_type = reader.read_string()?; },
            1 => { record.file = reader.read_string()?; },
            2 => { record.line = reader.read_uint()?; },
            3 => { record.message = reader.read_string()?; },
            4 => { record.errno = reader.read_uint()?; },
            5 => { record.errcode = reader.read_uint()?; },
            _ => { reader.skip_value()?; },
        }
        Ok(record)
    }

    /// Reads a record.
    fn unpack(reader: &mut Reader) -> (found: Result<StackRecord, Error>)
        requires
            old(reader).wf(),
        ensures
            final(reader).wf(),
            final(reader).data == old(reader).data,
            match record_take(old(reader).rest()) {
                Ok((record, rest)) => (found matches Ok(made) && made@ == record) && final(reader).rest() == rest,
                Err(error) => found matches Err(other) && other == error,
            },
    {
        let count = reader.read_map_len()?;
        let mut record = StackRecord::default();
        let mut i: u32 = 0;
        while i < count
            invariant
                i <= count,
                reader.wf(),
                reader.data == old(reader).data,
                record_entries((count - i) as nat, reader.rest(), record@) == record_take(
                    old(reader).rest(),
                ),
            decreases count - i,
        {
            let key = reader.read_uint()?;
            record = record.unpack_entry(key, reader)?;
            i += 1;
        }
        Ok(record)
    }
}

/// Reads a stack: an array of records.
fn unpack_stack(reader: &mut Reader) -> (found: Result<Vec<StackRecord>, Error>)
    requires
        old(reader).wf(),
    ensures
        final(reader).wf(),
        final(reader).data == old(reader).data,
        match stack_take(old(reader).rest()) {
            Ok((stack, rest)) => (found matches Ok(made) && stack_view(made@) == stack) && final(reader).rest() == rest,
            Err(error) => found matches Err(other) && other == error,
        },
{
    let count = reader.read_array_len()?;
    let mut stack: Vec<StackRecord> = Vec::new();
    let mut i: u32 = 0;
    assert(stack_view(stack@) =~= Seq::empty());
    while i < count
        invariant
            i <= count,
            reader.wf(),
            reader.data == old(reader).data,
            stack_records((count - i) as nat, reader.rest(), stack_view(stack@)) == stack_take(
                old(reader).rest(),
            ),
        decreases count - i,
    {
        let ghost before = stack_view(stack@);
        let record = StackRecord::unpack(reader)?;
        stack.push(record);
        assert(stack_view(stack@) =~= before.push(record@));
        i += 1;
    }
    Ok(stack)
}

/// Reads the map of an extended error, and gives the stack that it leaves.
fn unpack_extended(reader: &mut Reader, stack: Vec<StackRecord>) -> (found: Result<
    Vec<StackRecord>,
    Error,
>)
    requires
        old(reader).wf(),
    ensures
        final(reader).wf(),
        final(reader).data == old(reader).data,
        match extended_take(old(reader).rest(), stack_view(stack@)) {
            Ok((left, rest)) => (found matches Ok(made) && stack_view(made@) == left) && final(reader).rest() == rest,
            Err(error) => found matches Err(other) && other == error,
        },
{
    let count = reader.read_map_len()?;
    let ghost first = stack_view(stack@);
    let mut left = stack;
    let mut i: u32 = 0;
    while i < count
        invariant
            i <= count,
            reader.wf(),
            reader.data == old(reader).data,
            first == stack_view(stack@),
            extended_entries((count - i) as nat, reader.rest(), stack_view(left@))
                == extended_take(old(reader).rest(), first),
        decreases count - i,
    {
        let key = reader.read_uint()?;
        if key != 0 {
            reader.skip_value()?;
        } else {
            left = unpack_stack(reader)?;
        }
        i += 1;
    }
    Ok(left)
}

/// The decoder of the body of a response that reports an error.
pub struct ErrorBody;

impl BodyDecoder for ErrorBody {
    type Result = TarantoolError;

    fn unpack(body: &[u8]) -> (found: Result<TarantoolError, Error>)
        ensures
            match error_body(body@) {
                Ok(error) => found matches Ok(made) && made@ == error,
                Err(failure) => found matches Err(other) && other == failure,
            },
    {
        let mut reader = Reader::new(body);
        let count = reader.read_map_len()?;
        let mut error = TarantoolError { message: String::new(), stack: Vec::new() };
        assert(stack_view(error.stack@) =~= Seq::empty());
        let mut i: u32 = 0;
        while i < count
            invariant
                i <= count,
                reader.wf(),
                reader.data == body,
                error_entries((count - i) as nat, reader.rest(), error@) == error_body(body@),
            decreases count - i,
        {
            let (field, _) = read_field(&mut reader)?;
            match field {
                Field::Error24 => { error.message = reader.read_string()?; },
                Field::Error => {
                    let TarantoolError { message, stack } = error;
                    let stack = unpack_extended(&mut reader, stack)?;
                    error = TarantoolError { message, stack };
                },
                _ => { reader.skip_value()?; },
            }
            i += 1;
        }
        Ok(error)
    }
}

/// The body of a response to SQL: for each code of a field, the bytes of
/// its value, which are MessagePack for the caller to read.
pub type SQLBody = HashMap<u64, Vec<u8>>;

/// The entries of a body as values of mathematics.
pub open spec fn sql_view(body: Map<u64, Vec<u8>>) -> Map<u64, Seq<u8>> {
    body.map_values(|bytes: Vec<u8>| bytes@)
}

/// `found` with the next `count` entries of the input added: each key of
/// the catalog with the bytes of its value, a later entry taking the place
/// of an earlier one under the same key.
pub open spec fn sql_entries(count: nat, input: Seq<u8>, found: Map<u64, Seq<u8>>) -> Result<
    Map<u64, Seq<u8>>,
    Error,
>
    decreases count,
{
    if count == 0 {
        Ok(found)
    } else {
        match field_take(input) {
            Ok((_, raw, rest)) => match value_take(rest) {
                Ok((bytes, rest)) => sql_entries(
                    (count - 1) as nat,
                    rest,
                    found.insert(raw, bytes),
                ),
                Err(error) => Err(error),
            },
            Err(error) => Err(error),
        }
    }
}

/// The entries of a body whose shape is not known beforehand.
pub open spec fn sql_body(input: Seq<u8>) -> Result<Map<u64, Seq<u8>>, Error> {
    match map_len_take(input) {
        Ok((count, rest)) => sql_entries(count as nat, rest, Map::empty()),
        Err(error) => Err(error),
    }
}

/// A header entry under a key that the catalog does not have ends the
/// decoding with `Error::UnexpectedField` and the key.
pub proof fn lemma_unknown_header_field(count: nat, input: Seq<u8>, header: Header)
    requires
        count > 0,
        uint_take(input) matches Ok((raw, _)) && Field::of_code(raw) is None,
    ensures
        header_entries(count, input, header) == Err::<(Header, Seq<u8>), Error>(
            Error::UnexpectedField(uint_take(input).unwrap().0),
        ),
{
}

/// A header entry of the catalog is read, or passed over where the header
/// has no use for it, and the decoding goes on behind it.
pub proof fn lemma_known_header_field(count: nat, input: Seq<u8>, header: Header)
    requires
        count > 0,
        field_take(input) matches Ok((field, _, rest)) && header_entry(field, rest, header) is Ok,
    ensures
        header_entries(count, input, header) == header_entries(
            (count - 1) as nat,
            header_entry(field_take(input).unwrap().0, field_take(input).unwrap().2, header)
                .unwrap().1,
            header_entry(field_take(input).unwrap().0, field_take(input).unwrap().2, header)
                .unwrap().0,
        ),
{
}

/// An entry of a stack record under a key above five leaves the record as
/// it was: the value is passed over, and the decoding goes on behind it.
pub proof fn lemma_unknown_record_key(
    count: nat,
    key: u64,
    value: Seq<u8>,
    tail: Seq<u8>,
    record: StackRecordView,
)
    requires
        key > 5,
        value_len(value + tail) == Some(value.len()),
    ensures
        record_entries(count + 1, uint_bytes(key) + value + tail, record) == record_entries(
            count,
            tail,
            record,
        ),
{
    lemma_uint_round_trip(key, value + tail);
    assert(uint_bytes(key) + value + tail =~= uint_bytes(key) + (value + tail));
    assert((value + tail).skip(value.len() as int) =~= tail);
}

/// An entry of an extended error under a key other than zero leaves the
/// stack as it was: the value is passed over, and the decoding goes on
/// behind it.
pub proof fn lemma_unknown_extended_key(
    count: nat,
    key: u64,
    value: Seq<u8>,
    tail: Seq<u8>,
    stack: Seq<StackRecordView>,
)
    requires
        key != 0,
        value_len(value + tail) == Some(value.len()),
    ensures
        extended_entries(count + 1, uint_bytes(key) + value + tail, stack) == extended_entries(
            count,
            tail,
            stack,
        ),
{
    lemma_uint_round_trip(key, value + tail);
    assert(uint_bytes(key) + value + tail =~= uint_bytes(key) + (value + tail));
    assert((value + tail).skip(value.len() as int) =~= tail);
}

/// The body of a select gives the same data whether the data stands before
/// the other entry or behind it. `data` and `other` are each one value,
/// whatever follows them, and `field` is any field but `Field::Data`.
pub proof fn lemma_select_either_order(data: Seq<u8>, other: Seq<u8>, field: Field)
    requires
        field != Field::Data,
        value_len(data) == Some(data.len()),
        value_len(other) == Some(other.len()),
        value_len(data + (key(field) + other)) == Some(data.len()),
        value_len(other + (key(Field::Data) + data)) == Some(other.len()),
    ensures
        tuple_select_body(
            map_len_bytes(2) + (key(Field::Data) + (data + (key(field) + other))),
        ) == Ok::<Seq<u8>, Error>(data),
        tuple_select_body(
            map_len_bytes(2) + (key(field) + (other + (key(Field::Data) + data))),
        ) == Ok::<Seq<u8>, Error>(data),
{
    let empty = Seq::<u8>::empty();
    lemma_map_len_round_trip(2, key(Field::Data) + (data + (key(field) + other)));
    lemma_map_len_round_trip(2, key(field) + (other + (key(Field::Data) + data)));
    Field::lemma_code_round_trip(field, 0);
    Field::lemma_code_round_trip(Field::Data, 0);
    // the data first
    lemma_uint_round_trip(Field::Data.code(), data + (key(field) + other));
    let behind_data = key(field) + other;
    assert((data + behind_data).take(data.len() as int) =~= data);
    assert((data + behind_data).skip(data.len() as int) =~= behind_data);
    lemma_uint_round_trip(field.code(), other);
    assert(other.take(other.len() as int) =~= other);
    assert(other.skip(other.len() as int) =~= empty);
    assert(select_entries(0, empty, Some(data)) == Ok::<Option<Seq<u8>>, Error>(Some(data)));
    assert(select_entries(1, behind_data, Some(data)) == Ok::<Option<Seq<u8>>, Error>(
        Some(data),
    ));
    // the data last
    lemma_uint_round_trip(field.code(), other + (key(Field::Data) + data));
    let behind_other = key(Field::Data) + data;
    assert((other + behind_other).take(other.len() as int) =~= other);
    assert((other + behind_other).skip(other.len() as int) =~= behind_other);
    lemma_uint_round_trip(Field::Data.code(), data);
    assert(data.take(data.len() as int) =~= data);
    assert(data.skip(data.len() as int) =~= empty);
    assert(select_entries(1, behind_other, None) == Ok::<Option<Seq<u8>>, Error>(Some(data)));
}

/// The decoder of a body whose shape is not known beforehand.
pub struct SQLBodyDecoder;

impl BodyDecoder for SQLBodyDecoder {
    type Result = SQLBody;

    fn unpack(body: &[u8]) -> (found: Result<SQLBody, Error>)
        ensures
            match sql_body(body@) {
                Ok(entries) => found matches Ok(made) && sql_view(made@) == entries,
                Err(error) => found matches Err(other) && other == error,
            },
    {
        broadcast use vstd::std_specs::hash::group_hash_axioms;

        let mut reader = Reader::new(body);
        let mut entries: HashMap<u64, Vec<u8>> = HashMap::new();
        let count = reader.read_map_len()?;
        assert(sql_view(entries@) =~= Map::empty());
        let mut i: u32 = 0;
        while i < count
            invariant
                i <= count,
                reader.wf(),
                reader.data == body,
                sql_entries((count - i) as nat, reader.rest(), sql_view(entries@)) == sql_body(
                    body@,
                ),
            decreases count - i,
        {
            let (_, raw) = read_field(&mut reader)?;
            let bytes = slice_to_vec(reader.take_value()?);
            let ghost before = sql_view(entries@);
            entries.insert(raw, bytes);
            assert(sql_view(entries@) =~= before.insert(raw, bytes@));
            i += 1;
        }
        Ok(entries)
    }
}

} // verus!
