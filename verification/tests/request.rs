use tarantool::iproto::constants::{Iterator, RequestType};
use tarantool::iproto::request::{
    auth, call, delete, eval, execute, execute_select, insert, ping, prepare, replace, select,
    update, upsert, Auth, Body, Call, Delete, Eval, Execute, ExecuteSelect, Header, Insert, Ping,
    Prepare, Request, Select, Update, Upsert,
};
use tarantool::iproto::value::Value;

#[test]
fn test_select() {
    let mut req = select(Select {
        space_id: 512,
        index_id: 0,
        limit: 123,
        offset: 0,
        iterator: Iterator::Eq,
        keys: vec![Value::UInt(1)],
    });

    req.header.sync = u32::MAX as u64 + 100;

    let mut buf: Vec<u8> = Vec::new();

    req.pack(&mut buf).expect("pack error");

    assert_eq!(
        &buf,
        &[
            29, 130, 0, 1, 1, 207, 0, 0, 0, 1, 0, 0, 0, 99, 134, 16, 205, 2, 0, 17, 0, 18, 123,
            19, 0, 20, 0, 32, 145, 1,
        ],
    );
}

#[test]
fn test_call() {
    let mut req = call(Call { function: "test".into(), args: vec![Value::UInt(123)] });

    req.header.sync = u32::MAX as u64 + 100;

    let mut buf: Vec<u8> = Vec::new();

    req.pack(&mut buf).unwrap();

    assert_eq!(
        &buf,
        &[
            23, 130, 0, 10, 1, 207, 0, 0, 0, 1, 0, 0, 0, 99, 130, 34, 164, 116, 101, 115, 116, 33,
            145, 123,
        ],
    )
}

#[test]
fn test_insert() {
    let req = insert(Insert { space_id: 512, tuple: vec![Value::UInt(2)] });

    let mut buf: Vec<u8> = Vec::new();

    req.pack(&mut buf).unwrap();

    assert_eq!(&buf, &[13, 130, 0, 2, 1, 0, 130, 16, 205, 2, 0, 33, 145, 2]);
}

#[test]
fn new_request_has_sync_zero() {
    let req = Request::new(RequestType::Eval, Ping);
    assert_eq!(req.header, Header { request: RequestType::Eval, sync: 0 });
    assert_eq!(Header::new(RequestType::Call), Header { request: RequestType::Call, sync: 0 });
}

#[test]
fn header_is_a_map_of_two() {
    let mut header = Header::new(RequestType::Upsert);
    header.sync = 300;
    assert_eq!(header.pack().unwrap(), vec![0x82, 0, 9, 1, 0xcd, 1, 44]);
}

#[test]
fn ping_has_no_body() {
    let req = ping();
    assert_eq!(req.body.pack().unwrap(), Vec::<u8>::new());
    let mut buf = Vec::new();
    req.pack(&mut buf).unwrap();
    assert_eq!(buf, vec![5, 0x82, 0, 64, 1, 0]);
}

#[test]
fn pack_appends_to_what_is_there() {
    let mut buf = vec![9u8, 9];
    ping().pack(&mut buf).unwrap();
    assert_eq!(buf, vec![9, 9, 5, 0x82, 0, 64, 1, 0]);
}

#[test]
fn frame_prefix_is_the_length_of_header_and_body() {
    let mut req = update(Update {
        space_id: 70_000,
        index_id: 1,
        key: vec![Value::Str("k".repeat(300))],
        tuple: vec![vec![Value::Str("=".into()), Value::UInt(1), Value::Int(-5)]],
    });
    req.header.sync = 77;
    let header = req.header.pack().unwrap();
    let body = req.body.pack().unwrap();
    let mut frame = Vec::new();
    req.pack(&mut frame).unwrap();

    let mut rest = &frame[..];
    let size: u64 = rmp::decode::read_int(&mut rest).unwrap();
    assert_eq!(size as usize, header.len() + body.len());
    assert_eq!(rest.len(), size as usize);
    assert_eq!(&rest[..header.len()], &header[..]);
    assert_eq!(&rest[header.len()..], &body[..]);
    assert_eq!(header[0], 0x82);
}

#[test]
fn update_body() {
    let body = Update {
        space_id: 512,
        index_id: 0,
        key: vec![Value::UInt(1)],
        tuple: vec![
            vec![Value::Str("+".into()), Value::UInt(2), Value::Int(-1)],
            vec![Value::Str("=".into()), Value::UInt(3), Value::Bool(true)],
        ],
    };
    assert_eq!(
        body.pack().unwrap(),
        vec![
            0x84, 0x10, 0xcd, 2, 0, 0x11, 0, 0x20, 0x91, 1, 0x21, 0x92, 0x93, 0xa1, b'+', 2, 0xff,
            0x93, 0xa1, b'=', 3, 0xc3,
        ]
    );
    let mut frame = Vec::new();
    update(body).pack(&mut frame).unwrap();
    assert_eq!(&frame[..6], &[27, 0x82, 0, 4, 1, 0]);
}

#[test]
fn delete_body() {
    let body = Delete { space_id: 1, index_id: 2, key: vec![Value::Null, Value::UInt(200)] };
    assert_eq!(body.pack().unwrap(), vec![0x83, 0x10, 1, 0x11, 2, 0x20, 0x92, 0xc0, 0xcc, 200]);
    let mut frame = Vec::new();
    delete(body).pack(&mut frame).unwrap();
    assert_eq!(&frame[..6], &[15, 0x82, 0, 5, 1, 0]);
}

#[test]
fn upsert_body() {
    let body = Upsert {
        space_id: 3,
        index_base: 1,
        ops: vec![vec![Value::Str("+".into()), Value::UInt(1), Value::UInt(1)]],
        tuple: vec![Value::UInt(7), Value::Str("x".into())],
    };
    assert_eq!(
        body.pack().unwrap(),
        vec![
            0x84, 0x10, 3, 0x15, 1, 0x28, 0x91, 0x93, 0xa1, b'+', 1, 1, 0x21, 0x92, 7, 0xa1, b'x',
        ]
    );
    let mut frame = Vec::new();
    upsert(body).pack(&mut frame).unwrap();
    assert_eq!(&frame[..6], &[22, 0x82, 0, 9, 1, 0]);
}

#[test]
fn eval_body() {
    let body = Eval { expr: "return 1".into(), args: vec![] };
    assert_eq!(
        body.pack().unwrap(),
        vec![0x82, 0x27, 0xa8, b'r', b'e', b't', b'u', b'r', b'n', b' ', b'1', 0x21, 0x90]
    );
    let mut frame = Vec::new();
    eval(body).pack(&mut frame).unwrap();
    assert_eq!(&frame[..6], &[18, 0x82, 0, 8, 1, 0]);
}

#[test]
fn auth_body() {
    let body = Auth { user: "guest".into(), scramble: vec![1, 2, 3] };
    assert_eq!(
        body.pack().unwrap(),
        vec![
            0x82, 0x23, 0xa5, b'g', b'u', b'e', b's', b't', 0x21, 0x92, 0xa9, b'c', b'h', b'a',
            b'p', b'-', b's', b'h', b'a', b'1', 0xa3, 1, 2, 3,
        ]
    );
    let mut frame = Vec::new();
    auth(body).pack(&mut frame).unwrap();
    assert_eq!(&frame[..6], &[29, 0x82, 0, 7, 1, 0]);
}

#[test]
fn auth_scramble_of_twenty_bytes() {
    let body = Auth { user: "u".into(), scramble: vec![0xab; 20] };
    let packed = body.pack().unwrap();
    assert_eq!(&packed[..16], &[
        0x82, 0x23, 0xa1, b'u', 0x21, 0x92, 0xa9, b'c', b'h', b'a', b'p', b'-', b's', b'h', b'a',
        b'1',
    ]);
    assert_eq!(packed[16], 0xa0 + 20);
    assert_eq!(&packed[17..], &[0xab; 20]);
}

#[test]
fn replace_is_an_insert_of_another_kind() {
    let mut frame = Vec::new();
    replace(Insert { space_id: 512, tuple: vec![Value::UInt(2)] }).pack(&mut frame).unwrap();
    assert_eq!(frame, vec![13, 130, 0, 3, 1, 0, 130, 16, 205, 2, 0, 33, 145, 2]);
}

#[test]
fn prepare_by_number_and_by_text() {
    assert_eq!(Prepare::StatementID(5).pack().unwrap(), vec![0x81, 0x43, 5]);
    assert_eq!(Prepare::StatementID(-5).pack().unwrap(), vec![0x81, 0x43, 0xfb]);
    assert_eq!(
        Prepare::SQL("select".into()).pack().unwrap(),
        vec![0x81, 0x40, 0xa6, b's', b'e', b'l', b'e', b'c', b't']
    );
    let mut frame = Vec::new();
    prepare(Prepare::StatementID(5)).pack(&mut frame).unwrap();
    assert_eq!(frame, vec![8, 0x82, 0, 13, 1, 0, 0x81, 0x43, 5]);
}

#[test]
fn pair_size_hint_of_both_kinds() {
    assert_eq!(Prepare::StatementID(1).pair_size_hint(), 6);
    assert_eq!(Prepare::SQL("select 1".into()).pair_size_hint(), 10);
    assert_eq!(Prepare::SQL("é".into()).pair_size_hint(), 4);
}

#[test]
fn execute_body() {
    let body = Execute {
        expr: Prepare::SQL("s".into()),
        sql_bind: vec![Value::UInt(1), Value::Str("a".into())],
        options: vec![],
    };
    let expected = vec![0x83, 0x40, 0xa1, b's', 0x41, 0x92, 1, 0xa1, b'a', 0x2b, 0x90];
    assert_eq!(body.pack().unwrap(), expected);
    let same = ExecuteSelect {
        expr: Prepare::SQL("s".into()),
        sql_bind: vec![Value::UInt(1), Value::Str("a".into())],
        options: vec![],
    };
    assert_eq!(same.pack().unwrap(), expected);

    let mut frame = Vec::new();
    execute(body).pack(&mut frame).unwrap();
    assert_eq!(&frame[..6], &[16, 0x82, 0, 11, 1, 0]);

    let mut frame = Vec::new();
    execute_select(Execute { expr: Prepare::StatementID(9), sql_bind: vec![], options: vec![] })
        .pack(&mut frame)
        .unwrap();
    assert_eq!(frame, vec![12, 0x82, 0, 11, 1, 0, 0x83, 0x43, 9, 0x41, 0x90, 0x2b, 0x90]);
}

#[test]
fn select_with_every_iterator_and_wide_numbers() {
    let body = Select {
        space_id: u64::MAX,
        index_id: 70_000,
        limit: u32::MAX,
        offset: 200,
        iterator: Iterator::Neighbor,
        keys: vec![],
    };
    assert_eq!(
        body.pack().unwrap(),
        vec![
            0x86, 0x10, 0xcf, 255, 255, 255, 255, 255, 255, 255, 255, 0x11, 0xce, 0, 1, 0x11,
            0x70, 0x12, 0xce, 255, 255, 255, 255, 0x13, 0xcc, 200, 0x14, 11, 0x20, 0x90,
        ]
    );
}

#[derive(Debug)]
struct Fixed(Option<Vec<u8>>);

impl Body for Fixed {
    fn pack(&self) -> Result<Vec<u8>, tarantool::iproto::types::Error> {
        match &self.0 {
            Some(bytes) => Ok(bytes.clone()),
            None => Err(tarantool::iproto::types::Error::TooLong),
        }
    }
}

#[test]
fn a_body_of_the_caller_is_framed_like_any_other() {
    let mut buf = Vec::new();
    Request::new(RequestType::Call, Fixed(Some(vec![0x80]))).pack(&mut buf).unwrap();
    assert_eq!(buf, vec![6, 0x82, 0, 10, 1, 0, 0x80]);
}

#[test]
fn a_body_that_cannot_be_packed_leaves_nothing_behind() {
    let mut buf = vec![1u8];
    let done = Request::new(RequestType::Call, Fixed(None)).pack(&mut buf);
    assert_eq!(done, Err(tarantool::iproto::types::Error::TooLong));
    assert_eq!(buf, vec![1]);
}
