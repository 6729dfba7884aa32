//! Requests: a header, a body, and the frame that carries both.

use vstd::prelude::*;
use vstd::utf8::encode_utf8;
use crate::iproto::constants::{Field, Iterator, RequestType};
use crate::iproto::types::Error;
use crate::iproto::value::{
    concat, tuple_check, tuple_fits, tuple_wire, tuple_write, Value,
};
use crate::iproto::reader::uint_take;
use crate::iproto::wire::{
    array_len_bytes, lemma_uint_round_trip, map_len_bytes, map_len_read, sint_bytes, str_bytes,
    str_len_bytes, uint_bytes,
};
use crate::iproto::writer::{
    write_array_len, write_map_len, write_sint, write_str, write_str_len, write_uint,
};

verus! {

/// A request body: something that packs itself into a map keyed by field
/// codes. The bodies of this module say in the contract of their `pack`
/// which bytes they give.
pub trait Body: core::fmt::Debug + Send {
    /// Packs the body into a buffer of its own.
    fn pack(&self) -> Result<Vec<u8>, Error>;
}

/// Whether `packed` is something that `pack` may return for the body.
pub open spec fn packs<B: Body>(body: &B, packed: Result<Vec<u8>, Error>) -> bool {
    call_ensures(B::pack, (body,), packed)
}

/// The header of a request: its kind, and the number by which the response
/// is matched to it.
#[derive(Debug, Clone, Copy, PartialEq, Eq, Structural)]
pub struct Header {
    pub request: RequestType,
    pub sync: u64,
}

impl Header {
    /// The header on the wire: a map of two entries, the kind and the sync
    /// number.
    pub open spec fn wire(self) -> Seq<u8> {
        map_len_bytes(2) + uint_entry(Field::RequestType, self.request.code()) + uint_entry(
            Field::Sync,
            self.sync,
        )
    }

    /// A header of the given kind, with sync number zero.
    pub fn new(request: RequestType) -> (header: Header)
        ensures
            header == (Header { request, sync: 0 }),
    {
        Header { request, sync: 0 }
    }

    /// Packs the header into a buffer of its own.
    pub fn pack(&self) -> (packed: Result<Vec<u8>, Error>)
        ensures
            packed matches Ok(data) && data@ == self.wire(),
    {
        let mut data: Vec<u8> = Vec::new();
        write_map_len(&mut data, 2);
        write_uint_entry(&mut data, Field::RequestType, self.request.to_u64());
        write_uint_entry(&mut data, Field::Sync, self.sync);
        assert(data@ =~= self.wire());
        Ok(data)
    }
}

/// A request: a header and a body.
#[derive(Debug)]
pub struct Request<B: Body> {
    pub header: Header,
    pub body: B,
}

/// A frame: the length of what follows as an unsigned integer, then the
/// header, then the body.
pub open spec fn frame(header: Seq<u8>, body: Seq<u8>) -> Seq<u8> {
    uint_bytes((header.len() + body.len()) as u64) + header + body
}

impl<B: Body> Request<B> {
    /// A request of the given kind, with sync number zero.
    pub fn new(request: RequestType, body: B) -> (made: Request<B>)
        ensures
            made.header == (Header { request, sync: 0 }),
            made.body == body,
    {
        Request { header: Header::new(request), body }
    }

    /// Appends the frame of the request to `w`: the header and what the
    /// body packs, behind their length. Where the body cannot be packed,
    /// its error is returned, and where the frame would be longer than the
    /// machine can count, `Error::TooLong`; nothing is appended then.
    pub fn pack(&self, w: &mut Vec<u8>) -> (done: Result<(), Error>)
        ensures
            done is Ok ==> exists|body: Vec<u8>|
                {
                    &&& #[trigger] packs(&self.body, Ok(body))
                    &&& self.header.wire().len() + body@.len() <= usize::MAX
                    &&& final(w)@ == old(w)@ + frame(self.header.wire(), body@)
                },
            done is Err ==> final(w)@ == old(w)@,
            done matches Err(error) ==> packs(&self.body, Err(error)) || exists|body: Vec<u8>|
                {
                    &&& #[trigger] packs(&self.body, Ok(body))
                    &&& self.header.wire().len() + body@.len() > usize::MAX
                    &&& error == Error::TooLong
                },
    {
        let mut header = match self.header.pack() {
            Ok(data) => data,
            Err(error) => { return Err(error); },
        };
        let packed = self.body.pack();
        let mut body = match packed {
            Ok(data) => data,
            Err(error) => { return Err(error); },
        };
        let ghost sent = body;
        let size = match header.len().checked_add(body.len()) {
            Some(size) => size,
            None => {
                assert(packs(&self.body, Ok(sent)));
                return Err(Error::TooLong);
            },
        };
        write_uint(w, size as u64);
        w.append(&mut header);
        w.append(&mut body);
        assert(packs(&self.body, Ok(sent)));
        assert(w@ =~= old(w)@ + frame(self.header.wire(), sent@));
        Ok(())
    }
}

/// A frame starts with the length of its header and body together, and
/// what follows that prefix is the header and then the body. The header of
/// a request is a map of two entries.
pub proof fn lemma_frame_prefix(header: Header, body: Seq<u8>)
    requires
        header.wire().len() + body.len() <= u64::MAX,
    ensures
        uint_take(frame(header.wire(), body)) == Ok::<(u64, Seq<u8>), Error>(
            ((header.wire().len() + body.len()) as u64, header.wire() + body),
        ),
        map_len_read(header.wire() + body) == Some((2u32, 1nat)),
{
    let size = (header.wire().len() + body.len()) as u64;
    lemma_uint_round_trip(size, header.wire() + body);
    assert(frame(header.wire(), body) =~= uint_bytes(size) + (header.wire() + body));
    assert((header.wire() + body)[0] == 0x82);
}

/// The key of a map entry.
pub open spec fn key(field: Field) -> Seq<u8> {
    uint_bytes(field.code())
}

/// A map entry that holds an unsigned integer.
pub open spec fn uint_entry(field: Field, value: u64) -> Seq<u8> {
    key(field) + uint_bytes(value)
}

/// A map entry that holds a string.
pub open spec fn str_entry(field: Field, text: Seq<char>) -> Seq<u8> {
    key(field) + str_bytes(text)
}

/// A map entry that holds an array of values.
pub open spec fn tuple_entry(field: Field, items: Seq<Value>) -> Seq<u8> {
    key(field) + tuple_wire(items)
}

/// Whether the UTF-8 form of the text has a length that the format can
/// express.
pub open spec fn str_fits(text: Seq<char>) -> bool {
    encode_utf8(text).len() <= u32::MAX
}

fn str_check(text: &str) -> (ok: bool)
    ensures
        ok == str_fits(text@),
{
    text.as_bytes().len() <= u32::MAX as usize
}

fn write_uint_entry(buf: &mut Vec<u8>, field: Field, value: u64)
    ensures
        final(buf)@ == old(buf)@ + uint_entry(field, value),
{
    write_uint(buf, field.to_u64());
    write_uint(buf, value);
    assert(buf@ =~= old(buf)@ + uint_entry(field, value));
}

fn write_str_entry(buf: &mut Vec<u8>, field: Field, text: &str)
    requires
        str_fits(text@),
    ensures
        final(buf)@ == old(buf)@ + str_entry(field, text@),
{
    write_uint(buf, field.to_u64());
    write_str(buf, text);
    assert(buf@ =~= old(buf)@ + str_entry(field, text@));
}

fn write_tuple_entry(buf: &mut Vec<u8>, field: Field, items: &Vec<Value>)
    requires
        tuple_fits(items@),
    ensures
        final(buf)@ == old(buf)@ + tuple_entry(field, items@),
{
    write_uint(buf, field.to_u64());
    tuple_write(items, buf);
    assert(buf@ =~= old(buf)@ + tuple_entry(field, items@));
}

/// The arrays of the operations, one for each.
pub open spec fn ops_wires(ops: Seq<Vec<Value>>) -> Seq<Seq<u8>> {
    Seq::new(ops.len(), |i: int| tuple_wire(ops[i]@))
}

/// An array of operations, each an array of values.
pub open spec fn ops_wire(ops: Seq<Vec<Value>>) -> Seq<u8> {
    array_len_bytes(ops.len() as u32) + concat(ops_wires(ops))
}

/// The array of operations, and everything in it, has a length that the
/// format can express.
pub open spec fn ops_fits(ops: Seq<Vec<Value>>) -> bool {
    ops.len() <= u32::MAX && forall|i: int| 0 <= i < ops.len() ==> tuple_fits(#[trigger] ops[i]@)
}

fn ops_check(ops: &Vec<Vec<Value>>) -> (ok: bool)
    ensures
        ok == ops_fits(ops@),
{
    if ops.len() > u32::MAX as usize {
        return false;
    }
    let mut i: usize = 0;
    while i < ops.len()
        invariant
            i <= ops@.len(),
            forall|k: int| 0 <= k < i ==> tuple_fits(#[trigger] ops@[k]@),
        decreases ops@.len() - i,
    {
        if !tuple_check(&ops[i]) {
            return false;
        }
        i += 1;
    }
    true
}

fn write_ops_entry(buf: &mut Vec<u8>, field: Field, ops: &Vec<Vec<Value>>)
    requires
        ops_fits(ops@),
    ensures
        final(buf)@ == old(buf)@ + key(field) + ops_wire(ops@),
{
    write_uint(buf, field.to_u64());
    write_array_len(buf, ops.len() as u32);
    let ghost start = old(buf)@ + key(field) + array_len_bytes(ops@.len() as u32);
    let ghost parts = ops_wires(ops@);
    let mut i: usize = 0;
    assert(parts.take(0) =~= Seq::<Seq<u8>>::empty());
    assert(buf@ =~= start + concat(parts.take(0)));
    while i < ops.len()
        invariant
            i <= ops@.len(),
            ops_fits(ops@),
            parts == ops_wires(ops@),
            buf@ == start + concat(parts.take(i as int)),
        decreases ops@.len() - i,
    {
        tuple_write(&ops[i], buf);
        proof {
            assert(parts.take(i + 1).drop_last() =~= parts.take(i as int));
            assert(parts.take(i + 1).last() == tuple_wire(ops@[i as int]@));
            assert(buf@ =~= start + concat(parts.take(i + 1)));
        }
        i += 1;
    }
    assert(parts.take(ops@.len() as int) =~= parts);
    assert(buf@ =~= old(buf)@ + key(field) + ops_wire(ops@));
}

/// Reads tuples from a space, by a key of one of its indexes.
#[derive(Debug, Clone)]
pub struct Select {
    pub space_id: u64,
    pub index_id: u64,
    pub limit: u32,
    pub offset: u32,
    pub iterator: Iterator,
    pub keys: Vec<Value>,
}

impl Select {
    /// The six entries of the body.
    pub open spec fn bytes(&self) -> Seq<u8> {
        map_len_bytes(6) + uint_entry(Field::SpaceID, self.space_id) + uint_entry(
            Field::IndexID,
            self.index_id,
        ) + uint_entry(Field::Limit, self.limit as u64) + uint_entry(
            Field::Offset,
            self.offset as u64,
        ) + uint_entry(Field::Iterator, self.iterator.code()) + tuple_entry(
            Field::Key,
            self.keys@,
        )
    }

    /// The bytes of the body, where every length in it fits the format.
    pub open spec fn wire(&self) -> Option<Seq<u8>> {
        if tuple_fits(self.keys@) {
            Some(self.bytes())
        } else {
            None
        }
    }
}

impl Body for Select {
    fn pack(&self) -> (packed: Result<Vec<u8>, Error>)
        ensures
            self.wire() matches Some(bytes) ==> (packed matches Ok(data) && data@ == bytes),
            self.wire() is None ==> packed matches Err(Error::TooLong),
    {
        if !tuple_check(&self.keys) {
            return Err(Error::TooLong);
        }
        let mut data: Vec<u8> = Vec::new();
        write_map_len(&mut data, 6);
        write_uint_entry(&mut data, Field::SpaceID, self.space_id);
        write_uint_entry(&mut data, Field::IndexID, self.index_id);
        write_uint_entry(&mut data, Field::Limit, self.limit as u64);
        write_uint_entry(&mut data, Field::Offset, self.offset as u64);
        write_uint_entry(&mut data, Field::Iterator, self.iterator.to_u64());
        write_tuple_entry(&mut data, Field::Key, &self.keys);
        assert(data@ =~= self.bytes());
        Ok(data)
    }
}

/// Calls a stored function.
#[derive(Debug, Clone)]
pub struct Call {
    pub function: String,
    pub args: Vec<Value>,
}

impl Call {
    /// The two entries of the body.
    pub open spec fn bytes(&self) -> Seq<u8> {
        map_len_bytes(2) + str_entry(Field::FunctionName, self.function@) + tuple_entry(
            Field::Tuple,
            self.args@,
        )
    }

    /// The bytes of the body, where every length in it fits the format.
    pub open spec fn wire(&self) -> Option<Seq<u8>> {
        if str_fits(self.function@) && tuple_fits(self.args@) {
            Some(self.bytes())
        } else {
            None
        }
    }
}

impl Body for Call {
    fn pack(&self) -> (packed: Result<Vec<u8>, Error>)
        ensures
            self.wire() matches Some(bytes) ==> (packed matches Ok(data) && data@ == bytes),
            self.wire() is None ==> packed matches Err(Error::TooLong),
    {
        if !str_check(self.function.as_str()) || !tuple_check(&self.args) {
            return Err(Error::TooLong);
        }
        let mut data: Vec<u8> = Vec::new();
        write_map_len(&mut data, 2);
        write_str_entry(&mut data, Field::FunctionName, self.function.as_str());
        write_tuple_entry(&mut data, Field::Tuple, &self.args);
        assert(data@ =~= self.bytes());
        Ok(data)
    }
}

/// Authenticates a user by the scramble of the password.
#[derive(Debug, Clone)]
pub struct Auth {
    pub user: String,
    pub scramble: Vec<u8>,
}

impl Auth {
    /// The two entries of the body. The tuple holds the name of the
    /// mechanism and the scramble, both as strings.
    pub open spec fn bytes(&self) -> Seq<u8> {
        map_len_bytes(2) + str_entry(Field::UserName, self.user@) + key(Field::Tuple)
            + array_len_bytes(2) + str_bytes("chap-sha1"@) + str_len_bytes(
            self.scramble@.len() as u32,
        ) + self.scramble@
    }

    /// The bytes of the body, where every length in it fits the format.
    pub open spec fn wire(&self) -> Option<Seq<u8>> {
        if str_fits(self.user@) && self.scramble@.len() <= u32::MAX {
            Some(self.bytes())
        } else {
            None
        }
    }
}

impl Body for Auth {
    fn pack(&self) -> (packed: Result<Vec<u8>, Error>)
        ensures
            self.wire() matches Some(bytes) ==> (packed matches Ok(data) && data@ == bytes),
            self.wire() is None ==> packed matches Err(Error::TooLong),
    {
        if !str_check(self.user.as_str()) || self.scramble.len() > u32::MAX as usize {
            return Err(Error::TooLong);
        }
        let mechanism = "chap-sha1";
        proof {
            reveal_strlit("chap-sha1");
            vstd::utf8::is_ascii_chars_encode_utf8(mechanism@);
        }
        let mut data: Vec<u8> = Vec::new();
        write_map_len(&mut data, 2);
        write_str_entry(&mut data, Field::UserName, self.user.as_str());
        write_uint(&mut data, Field::Tuple.to_u64());
        write_array_len(&mut data, 2);
        write_str(&mut data, mechanism);
        write_str_len(&mut data, self.scramble.len() as u32);
        let mut scramble = self.scramble.clone();
        data.append(&mut scramble);
        assert(data@ =~= self.bytes());
        Ok(data)
    }
}

/// Inserts a tuple into a space.
#[derive(Debug, Clone)]
pub struct Insert {
    pub space_id: u64,
    pub tuple: Vec<Value>,
}

/// Replaces a tuple of a space: the body of an insert under another kind.
pub type Replace = Insert;

impl Insert {
    /// The two entries of the body.
    pub open spec fn bytes(&self) -> Seq<u8> {
        map_len_bytes(2) + uint_entry(Field::SpaceID, self.space_id) + tuple_entry(
            Field::Tuple,
            self.tuple@,
        )
    }

    /// The bytes of the body, where every length in it fits the format.
    pub open spec fn wire(&self) -> Option<Seq<u8>> {
        if tuple_fits(self.tuple@) {
            Some(self.bytes())
        } else {
            None
        }
    }
}

impl Body for Insert {
    fn pack(&self) -> (packed: Result<Vec<u8>, Error>)
        ensures
            self.wire() matches Some(bytes) ==> (packed matches Ok(data) && data@ == bytes),
            self.wire() is None ==> packed matches Err(Error::TooLong),
    {
        if !tuple_check(&self.tuple) {
            return Err(Error::TooLong);
        }
        let mut data: Vec<u8> = Vec::new();
        write_map_len(&mut data, 2);
        write_uint_entry(&mut data, Field::SpaceID, self.space_id);
        write_tuple_entry(&mut data, Field::Tuple, &self.tuple);
        assert(data@ =~= self.bytes());
        Ok(data)
    }
}

/// Updates the tuple under a key; each item of `tuple` is one operation.
#[derive(Debug, Clone)]
pub struct Update {
    pub space_id: u64,
    pub index_id: u64,
    pub key: Vec<Value>,
    pub tuple: Vec<Vec<Value>>,
}

impl Update {
    /// The four entries of the body.
    pub open spec fn bytes(&self) -> Seq<u8> {
        map_len_bytes(4) + uint_entry(Field::SpaceID, self.space_id) + uint_entry(
            Field::IndexID,
            self.index_id,
        ) + tuple_entry(Field::Key, self.key@) + key(Field::Tuple) + ops_wire(self.tuple@)
    }

    /// The bytes of the body, where every length in it fits the format.
    pub open spec fn wire(&self) -> Option<Seq<u8>> {
        if tuple_fits(self.key@) && ops_fits(self.tuple@) {
            Some(self.bytes())
        } else {
            None
        }
    }
}

impl Body for Update {
    fn pack(&self) -> (packed: Result<Vec<u8>, Error>)
        ensures
            self.wire() matches Some(bytes) ==> (packed matches Ok(data) && data@ == bytes),
            self.wire() is None ==> packed matches Err(Error::TooLong),
    {
        if !tuple_check(&self.key) || !ops_check(&self.tuple) {
            return Err(Error::TooLong);
        }
        let mut data: Vec<u8> = Vec::new();
        write_map_len(&mut data, 4);
        write_uint_entry(&mut data, Field::SpaceID, self.space_id);
        write_uint_entry(&mut data, Field::IndexID, self.index_id);
        write_tuple_entry(&mut data, Field::Key, &self.key);
        write_ops_entry(&mut data, Field::Tuple, &self.tuple);
        assert(data@ =~= self.bytes());
        Ok(data)
    }
}

/// Deletes the tuple under a key.
#[derive(Debug, Clone)]
pub struct Delete {
    pub space_id: u64,
    pub index_id: u64,
    pub key: Vec<Value>,
}

impl Delete {
    /// The three entries of the body.
    pub open spec fn bytes(&self) -> Seq<u8> {
        map_len_bytes(3) + uint_entry(Field::SpaceID, self.space_id) + uint_entry(
            Field::IndexID,
            self.index_id,
        ) + tuple_entry(Field::Key, self.key@)
    }

    /// The bytes of the body, where every length in it fits the format.
    pub open spec fn wire(&self) -> Option<Seq<u8>> {
        if tuple_fits(self.key@) {
            Some(self.bytes())
        } else {
            None
        }
    }
}

impl Body for Delete {
    fn pack(&self) -> (packed: Result<Vec<u8>, Error>)
        ensures
            self.wire() matches Some(bytes) ==> (packed matches Ok(data) && data@ == bytes),
            self.wire() is None ==> packed matches Err(Error::TooLong),
    {
        if !tuple_check(&self.key) {
            return Err(Error::TooLong);
        }
        let mut data: Vec<u8> = Vec::new();
        write_map_len(&mut data, 3);
        write_uint_entry(&mut data, Field::SpaceID, self.space_id);
        write_uint_entry(&mut data, Field::IndexID, self.index_id);
        write_tuple_entry(&mut data, Field::Key, &self.key);
        assert(data@ =~= self.bytes());
        Ok(data)
    }
}

/// Evaluates an expression on the server.
#[derive(Debug, Clone)]
pub struct Eval {
    pub expr: String,
    pub args: Vec<Value>,
}

impl Eval {
    /// The two entries of the body.
    pub open spec fn bytes(&self) -> Seq<u8> {
        map_len_bytes(2) + str_entry(Field::Expr, self.expr@) + tuple_entry(
            Field::Tuple,
            self.args@,
        )
    }

    /// The bytes of the body, where every length in it fits the format.
    pub open spec fn wire(&self) -> Option<Seq<u8>> {
        if str_fits(self.expr@) && tuple_fits(self.args@) {
            Some(self.bytes())
        } else {
            None
        }
    }
}

impl Body for Eval {
    fn pack(&self) -> (packed: Result<Vec<u8>, Error>)
        ensures
            self.wire() matches Some(bytes) ==> (packed matches Ok(data) && data@ == bytes),
            self.wire() is None ==> packed matches Err(Error::TooLong),
    {
        if !str_check(self.expr.as_str()) || !tuple_check(&self.args) {
            return Err(Error::TooLong);
        }
        let mut data: Vec<u8> = Vec::new();
        write_map_len(&mut data, 2);
        write_str_entry(&mut data, Field::Expr, self.expr.as_str());
        write_tuple_entry(&mut data, Field::Tuple, &self.args);
        assert(data@ =~= self.bytes());
        Ok(data)
    }
}

/// Updates a tuple by the operations, or inserts it where there is none.
#[derive(Debug, Clone)]
pub struct Upsert {
    pub space_id: u64,
    pub index_base: u64,
    pub ops: Vec<Vec<Value>>,
    pub tuple: Vec<Value>,
}

impl Upsert {
    /// The four entries of the body.
    pub open spec fn bytes(&self) -> Seq<u8> {
        map_len_bytes(4) + uint_entry(Field::SpaceID, self.space_id) + uint_entry(
            Field::IndexBase,
            self.index_base,
        ) + key(Field::Ops) + ops_wire(self.ops@) + tuple_entry(Field::Tuple, self.tuple@)
    }

    /// The bytes of the body, where every length in it fits the format.
    pub open spec fn wire(&self) -> Option<Seq<u8>> {
        if ops_fits(self.ops@) && tuple_fits(self.tuple@) {
            Some(self.bytes())
        } else {
            None
        }
    }
}

impl Body for Upsert {
    fn pack(&self) -> (packed: Result<Vec<u8>, Error>)
        ensures
            self.wire() matches Some(bytes) ==> (packed matches Ok(data) && data@ == bytes),
            self.wire() is None ==> packed matches Err(Error::TooLong),
    {
        if !ops_check(&self.ops) || !tuple_check(&self.tuple) {
            return Err(Error::TooLong);
        }
        let mut data: Vec<u8> = Vec::new();
        write_map_len(&mut data, 4);
        write_uint_entry(&mut data, Field::SpaceID, self.space_id);
        write_uint_entry(&mut data, Field::IndexBase, self.index_base);
        write_ops_entry(&mut data, Field::Ops, &self.ops);
        write_tuple_entry(&mut data, Field::Tuple, &self.tuple);
        assert(data@ =~= self.bytes());
        Ok(data)
    }
}

/// Asks the server whether it is there. It has no body.
#[derive(Debug, Clone, Copy, PartialEq, Eq, Structural)]
pub struct Ping;

impl Body for Ping {
    fn pack(&self) -> (packed: Result<Vec<u8>, Error>)
        ensures
            packed matches Ok(data) && data@ == Seq::<u8>::empty(),
    {
        Ok(Vec::new())
    }
}

/// A statement of SQL: the number of a prepared one, or its text.
#[derive(Debug, Clone)]
pub enum Prepare {
    StatementID(i64),
    SQL(String),
}

impl Prepare {
    /// The one map entry that names the statement.
    pub open spec fn pair(&self) -> Seq<u8> {
        match self {
            Prepare::StatementID(id) => key(Field::StmtID) + sint_bytes(*id),
            Prepare::SQL(text) => str_entry(Field::SqlText, text@),
        }
    }

    /// Whether the statement can be packed.
    pub open spec fn fits(&self) -> bool {
        match self {
            Prepare::StatementID(_) => true,
            Prepare::SQL(text) => str_fits(text@),
        }
    }

    fn check(&self) -> (ok: bool)
        ensures
            ok == self.fits(),
    {
        match self {
            Prepare::StatementID(_) => true,
            Prepare::SQL(text) => str_check(text.as_str()),
        }
    }

    fn pack_pair(&self, buf: &mut Vec<u8>)
        requires
            self.fits(),
        ensures
            final(buf)@ == old(buf)@ + self.pair(),
    {
        match self {
            Prepare::StatementID(id) => {
                write_uint(buf, Field::StmtID.to_u64());
                write_sint(buf, *id);
                assert(buf@ =~= old(buf)@ + self.pair());
            },
            Prepare::SQL(text) => {
                write_str_entry(buf, Field::SqlText, text.as_str());
            },
        }
    }

    /// How many bytes to set aside for the pair: six for a number, and for
    /// a text two more than its bytes, as far as the machine can count.
    pub fn pair_size_hint(&self) -> (hint: usize)
        ensures
            hint == match self {
                Prepare::StatementID(_) => 6nat,
                Prepare::SQL(text) => if encode_utf8(text@).len() + 2 <= usize::MAX {
                    encode_utf8(text@).len() + 2
                } else {
                    usize::MAX as nat
                },
            },
    {
        match self {
            Prepare::StatementID(_) => 6,
            Prepare::SQL(text) => text.as_str().as_bytes().len().saturating_add(2),
        }
    }

    /// The bytes of the body, where every length in it fits the format.
    pub open spec fn wire(&self) -> Option<Seq<u8>> {
        if self.fits() {
            Some(map_len_bytes(1) + self.pair())
        } else {
            None
        }
    }
}

impl Body for Prepare {
    fn pack(&self) -> (packed: Result<Vec<u8>, Error>)
        ensures
            self.wire() matches Some(bytes) ==> (packed matches Ok(data) && data@ == bytes),
            self.wire() is None ==> packed matches Err(Error::TooLong),
    {
        if !self.check() {
            return Err(Error::TooLong);
        }
        let mut data: Vec<u8> = Vec::new();
        write_map_len(&mut data, 1);
        self.pack_pair(&mut data);
        Ok(data)
    }
}

/// Executes a statement of SQL with the values bound to its parameters.
#[derive(Debug, Clone)]
pub struct Execute {
    pub expr: Prepare,
    pub sql_bind: Vec<Value>,
    pub options: Vec<Value>,
}

/// The three entries of the body of an execute: the statement, the bound
/// values and the options.
pub open spec fn execute_bytes(expr: Prepare, sql_bind: Seq<Value>, options: Seq<Value>) -> Seq<
    u8,
> {
    map_len_bytes(3) + expr.pair() + tuple_entry(Field::SqlBind, sql_bind) + tuple_entry(
        Field::Options,
        options,
    )
}

/// Whether the three entries can be packed.
pub open spec fn execute_fits(expr: Prepare, sql_bind: Seq<Value>, options: Seq<Value>) -> bool {
    expr.fits() && tuple_fits(sql_bind) && tuple_fits(options)
}

fn execute_pack(expr: &Prepare, sql_bind: &Vec<Value>, options: &Vec<Value>) -> (packed: Result<
    Vec<u8>,
    Error,
>)
    ensures
        execute_fits(*expr, sql_bind@, options@) ==> (packed matches Ok(data) && data@
            == execute_bytes(*expr, sql_bind@, options@)),
        !execute_fits(*expr, sql_bind@, options@) ==> packed matches Err(Error::TooLong),
{
    if !expr.check() || !tuple_check(sql_bind) || !tuple_check(options) {
        return Err(Error::TooLong);
    }
    let mut data: Vec<u8> = Vec::new();
    write_map_len(&mut data, 3);
    expr.pack_pair(&mut data);
    write_tuple_entry(&mut data, Field::SqlBind, sql_bind);
    write_tuple_entry(&mut data, Field::Options, options);
    assert(data@ =~= execute_bytes(*expr, sql_bind@, options@));
    Ok(data)
}

impl Execute {
    /// The bytes of the body, where every length in it fits the format.
    pub open spec fn wire(&self) -> Option<Seq<u8>> {
        if execute_fits(self.expr, self.sql_bind@, self.options@) {
            Some(execute_bytes(self.expr, self.sql_bind@, self.options@))
        } else {
            None
        }
    }
}

impl Body for Execute {
    fn pack(&self) -> (packed: Result<Vec<u8>, Error>)
        ensures
            self.wire() matches Some(bytes) ==> (packed matches Ok(data) && data@ == bytes),
            self.wire() is None ==> packed matches Err(Error::TooLong),
    {
        execute_pack(&self.expr, &self.sql_bind, &self.options)
    }
}

/// Executes a statement of SQL that selects rows.
#[derive(Debug, Clone)]
pub struct ExecuteSelect {
    pub expr: Prepare,
    pub sql_bind: Vec<Value>,
    pub options: Vec<Value>,
}

impl ExecuteSelect {
    /// The bytes of the body, where every length in it fits the format.
    pub open spec fn wire(&self) -> Option<Seq<u8>> {
        if execute_fits(self.expr, self.sql_bind@, self.options@) {
            Some(execute_bytes(self.expr, self.sql_bind@, self.options@))
        } else {
            None
        }
    }
}

impl Body for ExecuteSelect {
    fn pack(&self) -> (packed: Result<Vec<u8>, Error>)
        ensures
            self.wire() matches Some(bytes) ==> (packed matches Ok(data) && data@ == bytes),
            self.wire() is None ==> packed matches Err(Error::TooLong),
    {
        execute_pack(&self.expr, &self.sql_bind, &self.options)
    }
}

/// A request to authenticate.
pub fn auth(body: Auth) -> (made: Request<Auth>)
    ensures
        made.header == (Header { request: RequestType::Auth, sync: 0 }),
        made.body == body,
{
    Request::new(RequestType::Auth, body)
}

/// A request to select.
pub fn select(body: Select) -> (made: Request<Select>)
    ensures
        made.header == (Header { request: RequestType::Select, sync: 0 }),
        made.body == body,
{
    Request::new(RequestType::Select, body)
}

/// A request to call a function.
pub fn call(body: Call) -> (made: Request<Call>)
    ensures
        made.header == (Header { request: RequestType::Call, sync: 0 }),
        made.body == body,
{
    Request::new(RequestType::Call, body)
}

/// A request to insert.
pub fn insert(body: Insert) -> (made: Request<Insert>)
    ensures
        made.header == (Header { request: RequestType::Insert, sync: 0 }),
        made.body == body,
{
    Request::new(RequestType::Insert, body)
}

/// A request to replace.
pub fn replace(body: Replace) -> (made: Request<Replace>)
    ensures
        made.header == (Header { request: RequestType::Replace, sync: 0 }),
        made.body == body,
{
    Request::new(RequestType::Replace, body)
}

/// A request to update.
pub fn update(body: Update) -> (made: Request<Update>)
    ensures
        made.header == (Header { request: RequestType::Update, sync: 0 }),
        made.body == body,
{
    Request::new(RequestType::Update, body)
}

/// A request to delete.
pub fn delete(body: Delete) -> (made: Request<Delete>)
    ensures
        made.header == (Header { request: RequestType::Delete, sync: 0 }),
        made.body == body,
{
    Request::new(RequestType::Delete, body)
}

/// A request to evaluate an expression.
pub fn eval(body: Eval) -> (made: Request<Eval>)
    ensures
        made.header == (Header { request: RequestType::Eval, sync: 0 }),
        made.body == body,
{
    Request::new(RequestType::Eval, body)
}

/// A request to update or insert.
pub fn upsert(body: Upsert) -> (made: Request<Upsert>)
    ensures
        made.header == (Header { request: RequestType::Upsert, sync: 0 }),
        made.body == body,
{
    Request::new(RequestType::Upsert, body)
}

/// A request to prepare a statement.
pub fn prepare(body: Prepare) -> (made: Request<Prepare>)
    ensures
        made.header == (Header { request: RequestType::Prepare, sync: 0 }),
        made.body == body,
{
    Request::new(RequestType::Prepare, body)
}

/// A request to execute a statement.
pub fn execute(body: Execute) -> (made: Request<Execute>)
    ensures
        made.header == (Header { request: RequestType::Execute, sync: 0 }),
        made.body == body,
{
    Request::new(RequestType::Execute, body)
}

/// A request to execute a statement that selects rows. It is an execute on
/// the wire.
pub fn execute_select(body: Execute) -> (made: Request<Execute>)
    ensures
        made.header == (Header { request: RequestType::Execute, sync: 0 }),
        made.body == body,
{
    Request::new(RequestType::Execute, body)
}

/// A ping.
pub fn ping() -> (made: Request<Ping>)
    ensures
        made.header == (Header { request: RequestType::Ping, sync: 0 }),
        made.body == Ping,
{
    Request { header: Header::new(RequestType::Ping), body: Ping }
}

} // verus!
