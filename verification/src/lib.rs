//! A codec for the binary protocol of Tarantool: typed requests are packed
//! into MessagePack frames, and the frames of responses are parsed into a
//! header and a body, which a decoder of the caller's choice reads. Every
//! function is verified against a model of the bytes on the wire; what is
//! taken on trust of other crates stands in `iproto::writer` and
//! `iproto::reader`.

pub mod iproto;
