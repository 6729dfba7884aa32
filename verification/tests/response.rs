use tarantool::iproto::constants::{Code, Field};
use tarantool::iproto::response::{
    BodyDecoder, ErrorBody, Header, Response, SQLBodyDecoder, StackRecord, TupleBody,
    TupleBodySelect,
};
use tarantool::iproto::types::Error;

#[test]
fn test_select_body() {
    let buf = [
        206, 0, 0, 0, 34, 131, 0, 206, 0, 0, 0, 0, 1, 207, 0, 0, 0, 0, 0, 0, 0, 0, 5, 206, 0, 0,
        0, 80, 129, 48, 221, 0, 0, 0, 1, 147, 1, 2, 3,
    ];
    let resp = Response::parse(&buf[..]).unwrap();
    let data = resp.unpack_body::<TupleBody>().unwrap();
    let tuple: Vec<(u64, u64, u64)> = rmp_serde::from_slice(&data).unwrap();
    assert_eq!(&tuple, &[(1, 2, 3)]);
}

#[test]
fn test_call_body() {
    let buf = [
        206, 0, 0, 0, 32, 131, 0, 206, 0, 0, 0, 0, 1, 207, 0, 0, 0, 1, 0, 0, 0, 99, 5, 206, 0, 0,
        0, 80, 129, 48, 221, 0, 0, 0, 2, 123, 124,
    ];

    let resp = Response::parse(&buf[..]).unwrap();
    let data = resp.unpack_body::<TupleBody>().unwrap();
    let tuple: (u64, u64) = rmp_serde::from_slice(&data).unwrap();
    assert_eq!(tuple, (123, 124));
}

fn error_frame() -> Vec<u8> {
    vec![
        206, 0, 0, 0, 147, // len
        131, 0, 206, 0, 0, 128, 20, 1, 207, 0, 0, 0, 0, 0, 0, 0, 0, 5, 206, 0, 0, 0,
        80, // header
        130, 49, 189, 73, 110, 118, 97, 108, 105, 100, 32, 77, 115, 103, 80, 97, 99, 107, 32, 45,
        32, 112, 97, 99, 107, 101, 116, 32, 98, 111, 100, 121, 82, 129, 0, 145, 134, 0, 171, 67,
        108, 105, 101, 110, 116, 69, 114, 114, 111, 114, 2, 204, 216, 1, 217, 33, 47, 117, 115,
        114, 47, 115, 114, 99, 47, 116, 97, 114, 97, 110, 116, 111, 111, 108, 47, 115, 114, 99,
        47, 98, 111, 120, 47, 120, 114, 111, 119, 46, 99, 3, 189, 73, 110, 118, 97, 108, 105,
        100, 32, 77, 115, 103, 80, 97, 99, 107, 32, 45, 32, 112, 97, 99, 107, 101, 116, 32, 98,
        111, 100, 121, 4, 0, 5, 20,
    ]
}

#[test]
fn test_error_body() {
    let buf = error_frame();

    let resp = Response::parse(&buf[..]).unwrap();

    assert!(resp.header.code.is_err());

    let err = resp.unpack_body::<ErrorBody>().unwrap();
    assert_eq!(err.message, "Invalid MsgPack - packet body");
    assert_eq!(err.stack.len(), 1);
}

#[test]
fn error_stack_is_filled_from_the_nested_map() {
    let resp = Response::parse(&error_frame()).unwrap();
    assert_eq!(resp.header, Header { code: Code::Error(20), sync: 0, schema: 80 });
    let err = resp.unpack_body::<ErrorBody>().unwrap();
    assert_eq!(
        err.stack,
        vec![StackRecord {
            err_type: "ClientError".into(),
            file: "/usr/src/tarantool/src/box/xrow.c".into(),
            line: 216,
            message: "Invalid MsgPack - packet body".into(),
            errno: 0,
            errcode: 20,
        }]
    );
}

#[test]
fn header_fields_in_any_order_and_format() {
    // schema first as a signed byte, sync as a 16-bit number, code last
    let buf = [13, 0x83, 5, 0xd0, 7, 1, 0xcd, 1, 0, 0, 0, 0x81, 0x30, 0x90];
    let resp = Response::parse(&buf).unwrap();
    assert_eq!(resp.header, Header { code: Code::Success, sync: 256, schema: 7 });
    assert!(!resp.header.code.is_err());
    assert_eq!(resp.body, Some(vec![0x81, 0x30, 0x90]));
}

#[test]
fn response_without_body() {
    let buf = [5, 0x82, 0, 0, 1, 9];
    let resp = Response::parse(&buf).unwrap();
    assert_eq!(resp.header, Header { code: Code::Success, sync: 9, schema: 0 });
    assert_eq!(resp.body, None);
    assert_eq!(resp.unpack_body::<TupleBody>(), Err(Error::EmptyBody));
    assert_eq!(resp.unpack_body_from_execute_select::<TupleBodySelect>(), Err(Error::EmptyBody));
}

#[test]
fn frame_stops_at_its_length() {
    // the prefix says five bytes: what follows them belongs to another frame
    let buf = [5, 0x82, 0, 0, 1, 9, 0x81, 0x30, 0x90];
    let resp = Response::parse(&buf).unwrap();
    assert_eq!(resp.body, None);
    // a header that runs over the end of its frame is cut off
    let buf = [4, 0x82, 0, 0, 1, 9];
    assert_eq!(Response::parse(&buf).err(), Some(Error::Malformed));
}

#[test]
fn frame_shorter_than_its_prefix_gives_what_is_there() {
    let buf = [100, 0x81, 1, 3, 0x81, 0x30];
    let resp = Response::parse(&buf).unwrap();
    assert_eq!(resp.header.sync, 3);
    assert_eq!(resp.body, Some(vec![0x81, 0x30]));
}

#[test]
fn known_header_field_of_no_use_is_skipped() {
    // Field::Data holds an array here, and is passed over
    let buf = [8, 0x82, 0x30, 0x92, 1, 0xa1, b'x', 1, 4];
    let resp = Response::parse(&buf).unwrap();
    assert_eq!(resp.header, Header { code: Code::Success, sync: 4, schema: 0 });
}

#[test]
fn unknown_header_field_is_refused() {
    let buf = [5, 0x82, 0x7f, 1, 1, 9];
    assert_eq!(Response::parse(&buf).err(), Some(Error::UnexpectedField(0x7f)));
    let buf = [6, 0x82, 0xcd, 1, 0, 1, 9];
    assert_eq!(Response::parse(&buf).err(), Some(Error::UnexpectedField(256)));
}

#[test]
fn unknown_status_is_refused() {
    let buf = [3, 0x81, 0, 5];
    assert_eq!(Response::parse(&buf).err(), Some(Error::UnexpectedValue(Field::RequestType)));
    let buf = [7, 0x81, 0, 0xce, 0, 1, 0, 0];
    assert_eq!(Response::parse(&buf).err(), Some(Error::UnexpectedValue(Field::RequestType)));
    let buf = [5, 0x81, 0, 0xcd, 0xff, 0xff];
    assert_eq!(Response::parse(&buf).unwrap().header.code, Code::Error(0x7fff));
}

#[test]
fn malformed_frames() {
    assert_eq!(Response::parse(&[]).err(), Some(Error::Malformed));
    // the prefix is a string, not a number
    assert_eq!(Response::parse(&[0xa1, b'x']).err(), Some(Error::Malformed));
    // the prefix is negative
    assert_eq!(Response::parse(&[0xff, 0x80]).err(), Some(Error::Malformed));
    // the header is an array, not a map
    assert_eq!(Response::parse(&[1, 0x90]).err(), Some(Error::Malformed));
    // the sync number is cut off
    assert_eq!(Response::parse(&[4, 0x81, 1, 0xcd, 1]).err(), Some(Error::Malformed));
    // the sync number is a string
    assert_eq!(Response::parse(&[4, 0x81, 1, 0xa1, b'x']).err(), Some(Error::Malformed));
}

#[test]
fn tuple_body_shapes() {
    assert_eq!(TupleBody::unpack(&[0x81, 0x30, 0x92, 1, 2]), Ok(vec![0x92, 1, 2]));
    assert_eq!(
        TupleBody::unpack(&[0x82, 0x30, 0x90, 0x32, 0x90]),
        Err(Error::WrongMapLen { expected: 1, found: 2 })
    );
    assert_eq!(TupleBody::unpack(&[0x80]), Err(Error::WrongMapLen { expected: 1, found: 0 }));
    assert_eq!(TupleBody::unpack(&[0x81, 0x32, 0x90]), Err(Error::UnexpectedField(0x32)));
    assert_eq!(TupleBody::unpack(&[0x81, 0x7e, 0x90]), Err(Error::UnexpectedField(0x7e)));
    assert_eq!(TupleBody::unpack(&[0x81]), Err(Error::Malformed));
    assert_eq!(TupleBody::unpack(&[]), Err(Error::Malformed));
}

#[test]
fn execute_select_body_in_either_order() {
    let data = [0x92, 0x91, 1, 0x91, 2];
    let metadata = [0x91, 0x81, 0x00, 0xa2, b'i', b'd'];
    let mut first = vec![0x82, 0x30];
    first.extend_from_slice(&data);
    first.push(0x32);
    first.extend_from_slice(&metadata);
    let mut second = vec![0x82, 0x32];
    second.extend_from_slice(&metadata);
    second.push(0x30);
    second.extend_from_slice(&data);

    let one = TupleBodySelect::unpack(&first).unwrap();
    let other = TupleBodySelect::unpack(&second).unwrap();
    assert_eq!(one, data.to_vec());
    assert_eq!(one, other);
    let rows: Vec<(u64,)> = rmp_serde::from_slice(&one).unwrap();
    assert_eq!(rows, vec![(1,), (2,)]);

    let resp = Response { header: Header::default(), body: Some(second) };
    assert_eq!(resp.unpack_body_from_execute_select::<TupleBodySelect>(), Ok(data.to_vec()));
}

#[test]
fn execute_select_body_shapes() {
    assert_eq!(
        TupleBodySelect::unpack(&[0x81, 0x30, 0x90]),
        Err(Error::WrongMapLen { expected: 2, found: 1 })
    );
    assert_eq!(
        TupleBodySelect::unpack(&[0x82, 0x32, 0x90, 0x42, 0x90]),
        Err(Error::UnexpectedField(0))
    );
    assert_eq!(
        TupleBodySelect::unpack(&[0x82, 0x30, 0x90, 0x7d, 0x90]),
        Err(Error::UnexpectedField(0x7d))
    );
    assert_eq!(TupleBodySelect::unpack(&[0x82, 0x30, 0x91]), Err(Error::Malformed));
    // two data entries: the later one stays
    assert_eq!(TupleBodySelect::unpack(&[0x82, 0x30, 1, 0x30, 2]), Ok(vec![2]));
}

#[test]
fn sql_body_keeps_every_entry() {
    let body = [0x82, 0x42, 0x81, 0x00, 3, 0x34, 0xcd, 1, 0];
    let found = SQLBodyDecoder::unpack(&body).unwrap();
    assert_eq!(found.len(), 2);
    assert_eq!(found[&0x42], vec![0x81, 0x00, 3]);
    assert_eq!(found[&0x34], vec![0xcd, 1, 0]);
    let info = rmpv::decode::read_value(&mut &found[&0x42][..]).unwrap();
    assert_eq!(
        info,
        rmpv::Value::Map(vec![(rmpv::Value::from(0u64), rmpv::Value::from(3u64))])
    );

    // a later entry takes the place of an earlier one
    let found = SQLBodyDecoder::unpack(&[0x82, 0x30, 1, 0x30, 2]).unwrap();
    assert_eq!(found.len(), 1);
    assert_eq!(found[&0x30], vec![2]);

    assert_eq!(SQLBodyDecoder::unpack(&[0x80]).unwrap().len(), 0);
    assert_eq!(SQLBodyDecoder::unpack(&[0x81, 0x7c, 1]).err(), Some(Error::UnexpectedField(0x7c)));
    assert_eq!(SQLBodyDecoder::unpack(&[0x81, 0x30]).err(), Some(Error::Malformed));
    assert_eq!(SQLBodyDecoder::unpack(&[0x90]).err(), Some(Error::Malformed));
}

#[test]
fn error_body_skips_what_it_does_not_know() {
    // an unknown key 9 in the record, an unknown key 7 in the extended
    // error, and a known field of no use (Data) in the body
    let body = [
        0x83, 0x30, 0x91, 0xc0, 0x52, 0x82, 7, 0xa1, b'z', 0, 0x91, 0x83, 9, 0x92, 1, 2, 3, 0xa2,
        b'h', b'i', 2, 0xcd, 1, 1, 0x31, 0xa3, b'b', b'a', b'd',
    ];
    let err = ErrorBody::unpack(&body).unwrap();
    assert_eq!(err.message, "bad");
    assert_eq!(
        err.stack,
        vec![StackRecord {
            err_type: String::new(),
            file: String::new(),
            line: 257,
            message: "hi".into(),
            errno: 0,
            errcode: 0,
        }]
    );
}

#[test]
fn error_body_keeps_the_order_of_the_stack() {
    let body = [0x81, 0x52, 0x81, 0, 0x92, 0x81, 2, 1, 0x81, 2, 2];
    let err = ErrorBody::unpack(&body).unwrap();
    assert_eq!(err.message, "");
    assert_eq!(err.stack.len(), 2);
    assert_eq!(err.stack[0].line, 1);
    assert_eq!(err.stack[1].line, 2);
}

#[test]
fn error_body_failures() {
    assert_eq!(ErrorBody::unpack(&[0x81, 0x7b, 1]).err(), Some(Error::UnexpectedField(0x7b)));
    assert_eq!(ErrorBody::unpack(&[0x81, 0x31, 0xa2, 0xc3, 0x28]).err(), Some(Error::InvalidUtf8));
    assert_eq!(ErrorBody::unpack(&[0x81, 0x31, 0xa2, b'a']).err(), Some(Error::Malformed));
    assert_eq!(ErrorBody::unpack(&[0x81, 0x31, 5]).err(), Some(Error::Malformed));
    assert_eq!(ErrorBody::unpack(&[0x81, 0x52, 0x90]).err(), Some(Error::Malformed));
    assert_eq!(ErrorBody::unpack(&[0x81, 0x52, 0x81, 0, 0x80]).err(), Some(Error::Malformed));
    assert_eq!(
        ErrorBody::unpack(&[0x81, 0x52, 0x81, 0, 0x91, 0x81, 2, 0xff]).err(),
        Some(Error::Malformed)
    );
    let empty = ErrorBody::unpack(&[0x80]).unwrap();
    assert_eq!(empty.message, "");
    assert_eq!(empty.stack.len(), 0);
}

#[test]
fn frame_without_its_prefix() {
    let whole = error_frame();
    let resp = Response::from_frame(&whole[5..]).unwrap();
    assert_eq!(resp.header, Header { code: Code::Error(20), sync: 0, schema: 80 });
    assert_eq!(resp.body, Response::parse(&whole).unwrap().body);
    assert_eq!(Response::from_frame(&[0x80]).unwrap().body, None);
    assert_eq!(Response::from_frame(&[]).err(), Some(Error::Malformed));
}

struct Length;

impl BodyDecoder for Length {
    type Result = usize;

    fn unpack(body: &[u8]) -> Result<usize, Error> {
        Ok(body.len())
    }
}

#[test]
fn a_decoder_of_the_caller_gets_the_body() {
    let resp = Response::parse(&[8, 0x81, 0, 0, 1, 2, 3, 4, 5]).unwrap();
    assert_eq!(resp.unpack_body::<Length>(), Ok(5));
    assert_eq!(resp.unpack_body_from_execute_select::<Length>(), Ok(5));
}

fn sync_of(encoded: &[u8]) -> Result<u64, Error> {
    let mut frame = vec![(2 + encoded.len()) as u8, 0x81, 1];
    frame.extend_from_slice(encoded);
    Response::parse(&frame).map(|response| response.header.sync)
}

#[test]
fn integers_are_read_in_every_format() {
    assert_eq!(sync_of(&[0x7f]), Ok(127));
    assert_eq!(sync_of(&[0xcc, 200]), Ok(200));
    assert_eq!(sync_of(&[0xcd, 0x12, 0x34]), Ok(0x1234));
    assert_eq!(sync_of(&[0xce, 0x12, 0x34, 0x56, 0x78]), Ok(0x12345678));
    assert_eq!(sync_of(&[0xcf, 1, 2, 3, 4, 5, 6, 7, 8]), Ok(0x0102030405060708));
    assert_eq!(sync_of(&[0xcf, 255, 255, 255, 255, 255, 255, 255, 255]), Ok(u64::MAX));
    assert_eq!(sync_of(&[0xd0, 0x7f]), Ok(127));
    assert_eq!(sync_of(&[0xd1, 0x7f, 0xff]), Ok(0x7fff));
    assert_eq!(sync_of(&[0xd2, 0x7f, 0xff, 0xff, 0xff]), Ok(0x7fffffff));
    assert_eq!(sync_of(&[0xd3, 0x7f, 255, 255, 255, 255, 255, 255, 255]), Ok(i64::MAX as u64));
    // negative numbers are no sync numbers
    assert_eq!(sync_of(&[0xff]), Err(Error::Malformed));
    assert_eq!(sync_of(&[0xe0]), Err(Error::Malformed));
    assert_eq!(sync_of(&[0xd0, 0x80]), Err(Error::Malformed));
    assert_eq!(sync_of(&[0xd1, 0x80, 0]), Err(Error::Malformed));
    assert_eq!(sync_of(&[0xd2, 0xff, 0xff, 0xff, 0xff]), Err(Error::Malformed));
    assert_eq!(sync_of(&[0xd3, 0x80, 0, 0, 0, 0, 0, 0, 0]), Err(Error::Malformed));
    // other kinds of value are no numbers
    assert_eq!(sync_of(&[0xc0]), Err(Error::Malformed));
    assert_eq!(sync_of(&[0xc3]), Err(Error::Malformed));
    assert_eq!(sync_of(&[0xca, 0, 0, 0, 0]), Err(Error::Malformed));
    assert_eq!(sync_of(&[0x90]), Err(Error::Malformed));
    // numbers that are cut off
    assert_eq!(sync_of(&[0xcc]), Err(Error::Malformed));
    assert_eq!(sync_of(&[0xcf, 1, 2, 3, 4, 5, 6, 7]), Err(Error::Malformed));
}

#[test]
fn lengths_are_read_in_every_format() {
    // a map header of three and of five bytes
    assert_eq!(Response::parse(&[5, 0xde, 0, 1, 1, 5]).unwrap().header.sync, 5);
    assert_eq!(Response::parse(&[7, 0xdf, 0, 0, 0, 1, 1, 5]).unwrap().header.sync, 5);
    assert_eq!(Response::parse(&[2, 0xde, 0]).err(), Some(Error::Malformed));
    // a stack in an array header of three and of five bytes
    let err = ErrorBody::unpack(&[0x81, 0x52, 0x81, 0, 0xdc, 0, 1, 0x81, 2, 9]).unwrap();
    assert_eq!(err.stack.len(), 1);
    assert_eq!(err.stack[0].line, 9);
    let err = ErrorBody::unpack(&[0x81, 0x52, 0x81, 0, 0xdd, 0, 0, 0, 1, 0x81, 4, 9]).unwrap();
    assert_eq!(err.stack[0].errno, 9);
    assert_eq!(
        ErrorBody::unpack(&[0x81, 0x52, 0x81, 0, 0xdd, 0, 0, 0, 2, 0x81, 4, 9]).err(),
        Some(Error::Malformed)
    );
    // a message in each string format
    for header in [vec![0xd9, 40], vec![0xda, 0, 40], vec![0xdb, 0, 0, 0, 40]] {
        let mut body = vec![0x81, 0x31];
        body.extend_from_slice(&header);
        body.extend_from_slice(&[b'm'; 40]);
        assert_eq!(ErrorBody::unpack(&body).unwrap().message, "m".repeat(40));
        body.pop();
        assert_eq!(ErrorBody::unpack(&body).err(), Some(Error::Malformed));
    }
    let mut body = vec![0x81, 0x31, 0xbf];
    body.extend_from_slice("é".repeat(15).as_bytes());
    body.push(b'!');
    assert_eq!(ErrorBody::unpack(&body).unwrap().message, "é".repeat(15) + "!");
}

#[test]
fn values_of_every_kind_are_passed_over() {
    let kinds: Vec<Vec<u8>> = vec![
        vec![0xc0],
        vec![0xc2],
        vec![0x05],
        vec![0xff],
        vec![0xcb, 0, 0, 0, 0, 0, 0, 0, 0],
        vec![0xa2, b'h', b'i'],
        vec![0xc4, 2, 1, 2],
        vec![0x92, 1, 0x91, 2],
        vec![0x81, 0xa1, b'k', 0x90],
        vec![0xd4, 5, 0xaa],
        vec![0xc7, 3, 1, 0xcc, 0, 0x0c],
    ];
    for value in kinds {
        let mut frame = vec![(4 + value.len()) as u8, 0x82, 0x30];
        frame.extend_from_slice(&value);
        frame.extend_from_slice(&[1, 6]);
        assert_eq!(Response::parse(&frame).unwrap().header.sync, 6);
        let mut body = vec![0x82, 0x32];
        body.extend_from_slice(&value);
        body.push(0x30);
        body.extend_from_slice(&value);
        assert_eq!(TupleBodySelect::unpack(&body), Ok(value.clone()));
        body.pop();
        assert_eq!(TupleBodySelect::unpack(&body).err(), Some(Error::Malformed));
    }
}

#[test]
fn bytes_behind_the_data_are_handed_on() {
    let data = TupleBody::unpack(&[0x81, 0x30, 0x92, 1, 2, 0xc0]).unwrap();
    assert_eq!(data, vec![0x92, 1, 2, 0xc0]);
    let pair: (u64, u64) = rmp_serde::from_read(&data[..]).unwrap();
    assert_eq!(pair, (1, 2));
    let pair: (u64, u64) = rmp_serde::from_slice(&data).unwrap();
    assert_eq!(pair, (1, 2));
}
