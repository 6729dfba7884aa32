//! The integer codes that the protocol assigns to fields, request kinds,
//! iterators and response statuses.

use vstd::prelude::*;

verus! {

/// A key of a header or body map.
#[derive(Debug, Clone, Copy, PartialEq, Eq, Hash, Structural)]
pub enum Field {
    RequestType,
    Sync,
    SchemaVersion,
    SpaceID,
    IndexID,
    Limit,
    Offset,
    Iterator,
    IndexBase,
    Key,
    Tuple,
    FunctionName,
    UserName,
    Expr,
    Ops,
    Options,
    Data,
    Error24,
    Metadata,
    BindMetadata,
    BindCount,
    SqlText,
    SqlBind,
    SqlInfo,
    StmtID,
    Error,
}

impl Field {
    /// The code of the field on the wire.
    pub open spec fn code(self) -> u64 {
        match self {
            Field::RequestType => 0x00,
            Field::Sync => 0x01,
            Field::SchemaVersion => 0x05,
            Field::SpaceID => 0x10,
            Field::IndexID => 0x11,
            Field::Limit => 0x12,
            Field::Offset => 0x13,
            Field::Iterator => 0x14,
            Field::IndexBase => 0x15,
            Field::Key => 0x20,
            Field::Tuple => 0x21,
            Field::FunctionName => 0x22,
            Field::UserName => 0x23,
            Field::Expr => 0x27,
            Field::Ops => 0x28,
            Field::Options => 0x2b,
            Field::Data => 0x30,
            Field::Error24 => 0x31,
            Field::Metadata => 0x32,
            Field::BindMetadata => 0x33,
            Field::BindCount => 0x34,
            Field::SqlText => 0x40,
            Field::SqlBind => 0x41,
            Field::SqlInfo => 0x42,
            Field::StmtID => 0x43,
            Field::Error => 0x52,
        }
    }

    /// The field that a code stands for, if the catalog has one.
    pub open spec fn of_code(code: u64) -> Option<Field> {
        if code == 0x00 {
            Some(Field::RequestType)
        } else if code == 0x01 {
            Some(Field::Sync)
        } else if code == 0x05 {
            Some(Field::SchemaVersion)
        } else if code == 0x10 {
            Some(Field::SpaceID)
        } else if code == 0x11 {
            Some(Field::IndexID)
        } else if code == 0x12 {
            Some(Field::Limit)
        } else if code == 0x13 {
            Some(Field::Offset)
        } else if code == 0x14 {
            Some(Field::Iterator)
        } else if code == 0x15 {
            Some(Field::IndexBase)
        } else if code == 0x20 {
            Some(Field::Key)
        } else if code == 0x21 {
            Some(Field::Tuple)
        } else if code == 0x22 {
            Some(Field::FunctionName)
        } else if code == 0x23 {
            Some(Field::UserName)
        } else if code == 0x27 {
            Some(Field::Expr)
        } else if code == 0x28 {
            Some(Field::Ops)
        } else if code == 0x2b {
            Some(Field::Options)
        } else if code == 0x30 {
            Some(Field::Data)
        } else if code == 0x31 {
            Some(Field::Error24)
        } else if code == 0x32 {
            Some(Field::Metadata)
        } else if code == 0x33 {
            Some(Field::BindMetadata)
        } else if code == 0x34 {
            Some(Field::BindCount)
        } else if code == 0x40 {
            Some(Field::SqlText)
        } else if code == 0x41 {
            Some(Field::SqlBind)
        } else if code == 0x42 {
            Some(Field::SqlInfo)
        } else if code == 0x43 {
            Some(Field::StmtID)
        } else if code == 0x52 {
            Some(Field::Error)
        } else {
            None
        }
    }

    /// The code of the field.
    pub fn to_u64(self) -> (code: u64)
        ensures
            code == self.code(),
    {
        match self {
            Field::RequestType => 0x00,
            Field::Sync => 0x01,
            Field::SchemaVersion => 0x05,
            Field::SpaceID => 0x10,
            Field::IndexID => 0x11,
            Field::Limit => 0x12,
            Field::Offset => 0x13,
            Field::Iterator => 0x14,
            Field::IndexBase => 0x15,
            Field::Key => 0x20,
            Field::Tuple => 0x21,
            Field::FunctionName => 0x22,
            Field::UserName => 0x23,
            Field::Expr => 0x27,
            Field::Ops => 0x28,
            Field::Options => 0x2b,
            Field::Data => 0x30,
            Field::Error24 => 0x31,
            Field::Metadata => 0x32,
            Field::BindMetadata => 0x33,
            Field::BindCount => 0x34,
            Field::SqlText => 0x40,
            Field::SqlBind => 0x41,
            Field::SqlInfo => 0x42,
            Field::StmtID => 0x43,
            Field::Error => 0x52,
        }
    }

    /// The field of the code, or `None` for a code outside the catalog.
    pub fn from_u64(code: u64) -> (field: Option<Field>)
        ensures
            field == Field::of_code(code),
    {
        match code {
            0x00 => Some(Field::RequestType),
            0x01 => Some(Field::Sync),
            0x05 => Some(Field::SchemaVersion),
            0x10 => Some(Field::SpaceID),
            0x11 => Some(Field::IndexID),
            0x12 => Some(Field::Limit),
            0x13 => Some(Field::Offset),
            0x14 => Some(Field::Iterator),
            0x15 => Some(Field::IndexBase),
            0x20 => Some(Field::Key),
            0x21 => Some(Field::Tuple),
            0x22 => Some(Field::FunctionName),
            0x23 => Some(Field::UserName),
            0x27 => Some(Field::Expr),
            0x28 => Some(Field::Ops),
            0x2b => Some(Field::Options),
            0x30 => Some(Field::Data),
            0x31 => Some(Field::Error24),
            0x32 => Some(Field::Metadata),
            0x33 => Some(Field::BindMetadata),
            0x34 => Some(Field::BindCount),
            0x40 => Some(Field::SqlText),
            0x41 => Some(Field::SqlBind),
            0x42 => Some(Field::SqlInfo),
            0x43 => Some(Field::StmtID),
            0x52 => Some(Field::Error),
            _ => None,
        }
    }

    /// Every field is found again under its own code, and under no other.
    pub proof fn lemma_code_round_trip(field: Field, code: u64)
        ensures
            Field::of_code(field.code()) == Some(field),
            Field::of_code(code) == Some(field) ==> field.code() == code,
            field.code() < 0x80,
    {
    }
}

/// The kind of a request, sent under `Field::RequestType`.
#[derive(Debug, Clone, Copy, PartialEq, Eq, Hash, Structural)]
pub enum RequestType {
    Select,
    Insert,
    Replace,
    Update,
    Delete,
    Auth,
    Eval,
    Upsert,
    Call,
    Execute,
    Prepare,
    Ping,
}

impl RequestType {
    /// The code of the kind on the wire.
    pub open spec fn code(self) -> u64 {
        match self {
            RequestType::Select => 1,
            RequestType::Insert => 2,
            RequestType::Replace => 3,
            RequestType::Update => 4,
            RequestType::Delete => 5,
            RequestType::Auth => 7,
            RequestType::Eval => 8,
            RequestType::Upsert => 9,
            RequestType::Call => 10,
            RequestType::Execute => 11,
            RequestType::Prepare => 13,
            RequestType::Ping => 64,
        }
    }

    /// The code of the kind.
    pub fn to_u64(self) -> (code: u64)
        ensures
            code == self.code(),
    {
        match self {
            RequestType::Select => 1,
            RequestType::Insert => 2,
            RequestType::Replace => 3,
            RequestType::Update => 4,
            RequestType::Delete => 5,
            RequestType::Auth => 7,
            RequestType::Eval => 8,
            RequestType::Upsert => 9,
            RequestType::Call => 10,
            RequestType::Execute => 11,
            RequestType::Prepare => 13,
            RequestType::Ping => 64,
        }
    }
}

/// How a select walks an index.
#[derive(Debug, Clone, Copy, PartialEq, Eq, Hash, Structural)]
pub enum Iterator {
    Eq,
    Req,
    All,
    Lt,
    Le,
    Ge,
    Gt,
    BitsAllSet,
    BitsAnySet,
    BitsAllNotSet,
    Overlaps,
    Neighbor,
}

impl Iterator {
    /// The code of the iterator on the wire.
    pub open spec fn code(self) -> u64 {
        match self {
            Iterator::Eq => 0,
            Iterator::Req => 1,
            Iterator::All => 2,
            Iterator::Lt => 3,
            Iterator::Le => 4,
            Iterator::Ge => 5,
            Iterator::Gt => 6,
            Iterator::BitsAllSet => 7,
            Iterator::BitsAnySet => 8,
            Iterator::BitsAllNotSet => 9,
            Iterator::Overlaps => 10,
            Iterator::Neighbor => 11,
        }
    }

    /// The code of the iterator.
    pub fn to_u64(self) -> (code: u64)
        ensures
            code == self.code(),
    {
        match self {
            Iterator::Eq => 0,
            Iterator::Req => 1,
            Iterator::All => 2,
            Iterator::Lt => 3,
            Iterator::Le => 4,
            Iterator::Ge => 5,
            Iterator::Gt => 6,
            Iterator::BitsAllSet => 7,
            Iterator::BitsAnySet => 8,
            Iterator::BitsAllNotSet => 9,
            Iterator::Overlaps => 10,
            Iterator::Neighbor => 11,
        }
    }
}

/// The status of a response: success, or the number of the server's error.
#[derive(Debug, Clone, Copy, PartialEq, Eq, Hash, Structural)]
pub enum Code {
    Success,
    Error(u16),
}

/// The bit that marks a response code as an error; the error's number is in
/// the bits below it.
pub const ERROR_BIT: u64 = 0x8000;

impl Code {
    /// The status that a response code stands for: zero is success, and the
    /// codes from `ERROR_BIT` up to `0xffff` are errors.
    pub open spec fn of_code(code: u64) -> Option<Code> {
        if code == 0 {
            Some(Code::Success)
        } else if ERROR_BIT <= code <= 0xffff {
            Some(Code::Error((code - ERROR_BIT) as u16))
        } else {
            None
        }
    }

    /// Whether the status is an error.
    pub open spec fn spec_is_err(self) -> bool {
        self is Error
    }

    /// Whether the status is an error.
    #[verifier::when_used_as_spec(spec_is_err)]
    pub fn is_err(self) -> (err: bool)
        ensures
            err == (self is Error),
    {
        match self {
            Code::Success => false,
            Code::Error(_) => true,
        }
    }

    /// The status of the code, or `None` for a code that is neither zero
    /// nor an error.
    pub fn from_u64(code: u64) -> (status: Option<Code>)
        ensures
            status == Code::of_code(code),
    {
        if code == 0 {
            Some(Code::Success)
        } else if ERROR_BIT <= code && code <= 0xffff {
            Some(Code::Error((code - ERROR_BIT) as u16))
        } else {
            None
        }
    }
}

impl Default for Code {
    fn default() -> (code: Code)
        ensures
            code == Code::Success,
    {
        Code::Success
    }
}

} // verus!
