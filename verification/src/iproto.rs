//! The protocol: the catalog of codes, the values of a tuple, the requests
//! and the responses.

pub mod constants;
pub mod convert;
pub mod reader;
pub mod request;
pub mod response;
pub mod tuples;
pub mod types;
pub mod value;
pub mod wire;
pub mod writer;
