use tarantool::iproto::constants::{Code, Field, Iterator, RequestType};
use tarantool::iproto::value::{tuple_check, tuple_clone, tuple_pack, DateTime, Decimal, Value};

fn packed(value: &Value) -> Vec<u8> {
    let mut buf = Vec::new();
    value.pack(&mut buf).unwrap();
    buf
}

#[test]
fn unsigned_integers_take_the_shortest_format() {
    assert_eq!(packed(&Value::UInt(0)), vec![0]);
    assert_eq!(packed(&Value::UInt(127)), vec![127]);
    assert_eq!(packed(&Value::UInt(128)), vec![0xcc, 128]);
    assert_eq!(packed(&Value::UInt(255)), vec![0xcc, 255]);
    assert_eq!(packed(&Value::UInt(256)), vec![0xcd, 1, 0]);
    assert_eq!(packed(&Value::UInt(65535)), vec![0xcd, 255, 255]);
    assert_eq!(packed(&Value::UInt(65536)), vec![0xce, 0, 1, 0, 0]);
    assert_eq!(packed(&Value::UInt(0x1_0000_0000)), vec![0xcf, 0, 0, 0, 1, 0, 0, 0, 0]);
    assert_eq!(packed(&Value::UInt(u64::MAX)), vec![0xcf, 255, 255, 255, 255, 255, 255, 255, 255]);
}

#[test]
fn signed_integers_take_the_shortest_format() {
    assert_eq!(packed(&Value::Int(0)), vec![0]);
    assert_eq!(packed(&Value::Int(127)), vec![127]);
    assert_eq!(packed(&Value::Int(200)), vec![0xcc, 200]);
    assert_eq!(packed(&Value::Int(70_000)), vec![0xce, 0, 1, 0x11, 0x70]);
    assert_eq!(packed(&Value::Int(i64::MAX)), vec![0xcf, 0x7f, 255, 255, 255, 255, 255, 255, 255]);
    assert_eq!(packed(&Value::Int(-1)), vec![0xff]);
    assert_eq!(packed(&Value::Int(-32)), vec![0xe0]);
    assert_eq!(packed(&Value::Int(-33)), vec![0xd0, 0xdf]);
    assert_eq!(packed(&Value::Int(-128)), vec![0xd0, 0x80]);
    assert_eq!(packed(&Value::Int(-129)), vec![0xd1, 0xff, 0x7f]);
    assert_eq!(packed(&Value::Int(-32768)), vec![0xd1, 0x80, 0]);
    assert_eq!(packed(&Value::Int(-32769)), vec![0xd2, 0xff, 0xff, 0x7f, 0xff]);
    assert_eq!(packed(&Value::Int(-2147483648)), vec![0xd2, 0x80, 0, 0, 0]);
    assert_eq!(
        packed(&Value::Int(-2147483649)),
        vec![0xd3, 0xff, 0xff, 0xff, 0xff, 0x7f, 0xff, 0xff, 0xff]
    );
    assert_eq!(packed(&Value::Int(i64::MIN)), vec![0xd3, 0x80, 0, 0, 0, 0, 0, 0, 0]);
}

#[test]
fn floats_are_written_by_their_bits() {
    assert_eq!(packed(&Value::F32(1.5f32.to_bits())), vec![0xca, 0x3f, 0xc0, 0, 0]);
    assert_eq!(
        packed(&Value::F64((-2.0f64).to_bits())),
        vec![0xcb, 0xc0, 0, 0, 0, 0, 0, 0, 0]
    );
    let mut by_rmp = Vec::new();
    rmp::encode::write_f32(&mut by_rmp, 3.25).unwrap();
    assert_eq!(packed(&Value::F32(3.25f32.to_bits())), by_rmp);
    let mut by_rmp = Vec::new();
    rmp::encode::write_f64(&mut by_rmp, 1e300).unwrap();
    assert_eq!(packed(&Value::F64(1e300f64.to_bits())), by_rmp);
}

#[test]
fn booleans_and_null() {
    assert_eq!(packed(&Value::Bool(true)), vec![0xc3]);
    assert_eq!(packed(&Value::Bool(false)), vec![0xc2]);
    assert_eq!(packed(&Value::Null), vec![0xc0]);
}

#[test]
fn strings_count_bytes_not_characters() {
    assert_eq!(packed(&Value::Str(String::new())), vec![0xa0]);
    assert_eq!(packed(&Value::Str("é".into())), vec![0xa2, 0xc3, 0xa9]);
    let long = "a".repeat(32);
    let mut expected = vec![0xd9, 32];
    expected.extend_from_slice(long.as_bytes());
    assert_eq!(packed(&Value::Str(long)), expected);
    let longer = "b".repeat(256);
    let mut expected = vec![0xda, 1, 0];
    expected.extend_from_slice(longer.as_bytes());
    assert_eq!(packed(&Value::Str(longer)), expected);
    let longest = "c".repeat(65536);
    let mut expected = vec![0xdb, 0, 1, 0, 0];
    expected.extend_from_slice(longest.as_bytes());
    assert_eq!(packed(&Value::Str(longest)), expected);
}

#[test]
fn byte_strings() {
    assert_eq!(packed(&Value::Bin(vec![])), vec![0xc4, 0]);
    assert_eq!(packed(&Value::Bin(vec![1, 2, 3])), vec![0xc4, 3, 1, 2, 3]);
    let mut expected = vec![0xc5, 1, 0];
    expected.extend_from_slice(&[7; 256]);
    assert_eq!(packed(&Value::Bin(vec![7; 256])), expected);
    let mut expected = vec![0xc6, 0, 1, 0, 0];
    expected.extend_from_slice(&[8; 65536]);
    assert_eq!(packed(&Value::Bin(vec![8; 65536])), expected);
}

#[test]
fn arrays_nest() {
    assert_eq!(packed(&Value::Array(vec![])), vec![0x90]);
    assert_eq!(
        packed(&Value::Array(vec![
            Value::UInt(1),
            Value::Array(vec![Value::Null, Value::Array(vec![Value::Bool(true)])]),
            Value::Str("x".into()),
        ])),
        vec![0x93, 1, 0x92, 0xc0, 0x91, 0xc3, 0xa1, b'x']
    );
    let sixteen: Vec<Value> = (0..16).map(Value::UInt).collect();
    let mut expected = vec![0xdc, 0, 16];
    expected.extend(0..16u8);
    assert_eq!(packed(&Value::Array(sixteen)), expected);
    let many: Vec<Value> = (0..65536).map(|_| Value::Null).collect();
    let bytes = packed(&Value::Array(many));
    assert_eq!(&bytes[..5], &[0xdd, 0, 1, 0, 0]);
    assert_eq!(bytes.len(), 5 + 65536);
}

#[test]
fn tuple_is_written_as_an_array() {
    let mut buf = vec![0xaa];
    tuple_pack(&vec![Value::Int(-1), Value::UInt(1)], &mut buf).unwrap();
    assert_eq!(buf, vec![0xaa, 0x92, 0xff, 1]);
}

#[test]
fn uuid_is_sixteen_bytes_in_network_order() {
    let value = 0xa1a2a3a4_b1b2_c1c2_d1d2_d3d4d5d6d7d8u128;
    let bytes = packed(&Value::Uuid(value));
    assert_eq!(
        bytes,
        vec![
            0xd8, 2, 0xa1, 0xa2, 0xa3, 0xa4, 0xb1, 0xb2, 0xc1, 0xc2, 0xd1, 0xd2, 0xd3, 0xd4, 0xd5,
            0xd6, 0xd7, 0xd8,
        ]
    );
    let back = uuid::Uuid::from_slice(&bytes[2..]).unwrap();
    assert_eq!(back.as_u128(), value);
    assert_eq!(back, uuid::Uuid::parse_str("a1a2a3a4-b1b2-c1c2-d1d2-d3d4d5d6d7d8").unwrap());
}

#[test]
fn datetime_is_little_endian_with_zero_time_zone() {
    let bytes = packed(&Value::DateTime(DateTime { seconds: 0x0102030405060708, nanos: 0x0a0b0c0d }));
    assert_eq!(
        bytes,
        vec![0xd8, 4, 8, 7, 6, 5, 4, 3, 2, 1, 0x0d, 0x0c, 0x0b, 0x0a, 0, 0, 0, 0]
    );
    let bytes = packed(&Value::DateTime(DateTime { seconds: -2, nanos: 999_999_999 }));
    assert_eq!(
        bytes,
        vec![
            0xd8, 4, 0xfe, 0xff, 0xff, 0xff, 0xff, 0xff, 0xff, 0xff, 0xff, 0xc9, 0x9a, 0x3b, 0, 0,
            0, 0,
        ]
    );
    let seconds = i64::from_le_bytes(bytes[2..10].try_into().unwrap());
    let nanos = u32::from_le_bytes(bytes[10..14].try_into().unwrap());
    assert_eq!((seconds, nanos), (-2, 999_999_999));
}

#[test]
fn datetime_of_a_calendar_date() {
    let moment = chrono::NaiveDate::from_ymd_opt(2001, 9, 9)
        .unwrap()
        .and_hms_nano_opt(1, 46, 40, 5)
        .unwrap()
        .and_utc();
    let value = Value::DateTime(DateTime {
        seconds: moment.timestamp(),
        nanos: moment.timestamp_subsec_nanos(),
    });
    assert_eq!(
        packed(&value),
        vec![0xd8, 4, 0x00, 0xca, 0x9a, 0x3b, 0, 0, 0, 0, 5, 0, 0, 0, 0, 0, 0, 0]
    );
}

fn decimal(mantissa: i128, scale: u8) -> Vec<u8> {
    packed(&Value::Decimal(Decimal { mantissa, scale }))
}

#[test]
fn decimal_with_an_even_number_of_digits_is_padded() {
    // -12.0343
    assert_eq!(decimal(-120343, 4), vec![0xc7, 6, 1, 0xcc, 4, 0x01, 0x20, 0x34, 0x3d]);
    assert_eq!(decimal(12, 0), vec![0xd6, 1, 0xcc, 0, 0x01, 0x2c]);
}

#[test]
fn decimal_with_an_odd_number_of_digits() {
    assert_eq!(decimal(123, 2), vec![0xd6, 1, 0xcc, 2, 0x12, 0x3c]);
    assert_eq!(decimal(-7, 1), vec![0xc7, 3, 1, 0xcc, 1, 0x7d]);
    assert_eq!(decimal(12345, 20), vec![0xc7, 5, 1, 0xcc, 20, 0x12, 0x34, 0x5c]);
}

#[test]
fn decimal_zero_has_one_digit() {
    assert_eq!(decimal(0, 0), vec![0xc7, 3, 1, 0xcc, 0, 0x0c]);
    assert_eq!(decimal(0, 5), vec![0xc7, 3, 1, 0xcc, 5, 0x0c]);
}

#[test]
fn decimal_payloads_of_the_fixed_lengths() {
    // three digits more make a payload of four bytes, a fixed extension
    assert_eq!(decimal(100, 0), vec![0xd6, 1, 0xcc, 0, 0x10, 0x0c]);
    // eleven digits: a payload of eight bytes
    assert_eq!(
        decimal(12345678901, 3),
        vec![0xd7, 1, 0xcc, 3, 0x12, 0x34, 0x56, 0x78, 0x90, 0x1c]
    );
    // twenty-seven digits: a payload of sixteen bytes
    assert_eq!(
        decimal(-123456789012345678901234567, 9),
        vec![
            0xd8, 1, 0xcc, 9, 0x12, 0x34, 0x56, 0x78, 0x90, 0x12, 0x34, 0x56, 0x78, 0x90, 0x12,
            0x34, 0x56, 0x7d,
        ]
    );
}

#[test]
fn decimal_of_the_widest_mantissas() {
    let most = decimal(i128::MAX, 0);
    // 170141183460469231731687303715884105727 has 39 digits
    assert_eq!(
        most,
        vec![
            0xc7, 22, 1, 0xcc, 0, 0x17, 0x01, 0x41, 0x18, 0x34, 0x60, 0x46, 0x92, 0x31, 0x73,
            0x16, 0x87, 0x30, 0x37, 0x15, 0x88, 0x41, 0x05, 0x72, 0x7c,
        ]
    );
    let least = decimal(i128::MIN, 0);
    assert_eq!(&least[..5], &[0xc7, 22, 1, 0xcc, 0]);
    assert_eq!(&least[22..], &[0x05, 0x72, 0x8d]);
}

fn unpack_decimal(payload: &[u8]) -> (i128, u8) {
    assert_eq!(payload[0], 0xcc);
    let scale = payload[1];
    let mut mantissa: i128 = 0;
    let digits = &payload[2..];
    for (i, byte) in digits.iter().enumerate() {
        mantissa = mantissa * 10 + (byte >> 4) as i128;
        if i + 1 < digits.len() {
            mantissa = mantissa * 10 + (byte & 0x0f) as i128;
        } else if byte & 0x0f == 0x0d {
            mantissa = -mantissa;
        } else {
            assert_eq!(byte & 0x0f, 0x0c);
        }
    }
    (mantissa, scale)
}

#[test]
fn decimal_comes_back_from_its_payload() {
    let mut mantissa: i128 = 1;
    for digits in 1..=20u32 {
        for scale in [0u8, 1, 7, 20] {
            for signed in [mantissa, -mantissa] {
                let bytes = decimal(signed, scale);
                let value = rmpv::decode::read_value(&mut &bytes[..]).unwrap();
                let (tag, payload) = value.as_ext().unwrap();
                assert_eq!(tag, 1);
                assert_eq!(unpack_decimal(payload), (signed, scale));
                let padded = if digits % 2 == 0 { digits + 1 } else { digits };
                assert_eq!(payload.len() as u32, (padded + 2) / 2 + 2);
            }
        }
        mantissa = mantissa * 10 + (digits as i128 % 10);
    }
}

#[test]
fn decimal_of_a_parsed_number() {
    let number: rust_decimal::Decimal = "-12.0343".parse().unwrap();
    let value =
        Value::Decimal(Decimal { mantissa: number.mantissa(), scale: number.scale() as u8 });
    assert_eq!(packed(&value), vec![0xc7, 6, 1, 0xcc, 4, 0x01, 0x20, 0x34, 0x3d]);
}

fn read_back(value: &Value) -> rmpv::Value {
    let bytes = packed(value);
    let mut rest = &bytes[..];
    let found = rmpv::decode::read_value(&mut rest).unwrap();
    assert!(rest.is_empty());
    found
}

#[test]
fn values_come_back_from_their_bytes() {
    for number in [0u64, 1, 127, 128, 255, 256, 65535, 65536, u32::MAX as u64, u64::MAX] {
        assert_eq!(read_back(&Value::UInt(number)), rmpv::Value::from(number));
    }
    for number in [0i64, -1, -32, -33, -128, -129, -32768, -32769, i64::MIN, i64::MAX, 1 << 40] {
        assert_eq!(read_back(&Value::Int(number)), rmpv::Value::from(number));
    }
    assert_eq!(read_back(&Value::F32(0.1f32.to_bits())), rmpv::Value::F32(0.1));
    assert_eq!(read_back(&Value::F64(0.1f64.to_bits())), rmpv::Value::F64(0.1));
    assert_eq!(read_back(&Value::Bool(true)), rmpv::Value::Boolean(true));
    assert_eq!(read_back(&Value::Bool(false)), rmpv::Value::Boolean(false));
    assert_eq!(read_back(&Value::Null), rmpv::Value::Nil);
    assert_eq!(read_back(&Value::Str("héllo".into())), rmpv::Value::from("héllo"));
    assert_eq!(read_back(&Value::Bin(vec![0, 255, 3])), rmpv::Value::Binary(vec![0, 255, 3]));
    assert_eq!(
        read_back(&Value::Array(vec![
            Value::UInt(1),
            Value::Array(vec![Value::Str("a".into()), Value::Array(vec![])]),
            Value::Bin(vec![9]),
        ])),
        rmpv::Value::Array(vec![
            rmpv::Value::from(1u64),
            rmpv::Value::Array(vec![rmpv::Value::from("a"), rmpv::Value::Array(vec![])]),
            rmpv::Value::Binary(vec![9]),
        ])
    );
    let typed: (u64, String, Vec<i64>) = rmp_serde::from_slice(&packed(&Value::Array(vec![
        Value::UInt(5),
        Value::Str("five".into()),
        Value::Array(vec![Value::Int(-5), Value::Int(5)]),
    ])))
    .unwrap();
    assert_eq!(typed, (5, "five".to_string(), vec![-5, 5]));
}

#[test]
fn pack_appends() {
    let mut buf = vec![1u8];
    Value::UInt(2).pack(&mut buf).unwrap();
    Value::Str("3".into()).pack(&mut buf).unwrap();
    assert_eq!(buf, vec![1, 2, 0xa1, b'3']);
    assert!(Value::Array(vec![Value::Null]).check());
    assert!(tuple_check(&vec![Value::Null, Value::Str("x".into())]));
}

#[test]
fn field_codes_are_stable() {
    let all = [
        (Field::RequestType, 0x00),
        (Field::Sync, 0x01),
        (Field::SchemaVersion, 0x05),
        (Field::SpaceID, 0x10),
        (Field::IndexID, 0x11),
        (Field::Limit, 0x12),
        (Field::Offset, 0x13),
        (Field::Iterator, 0x14),
        (Field::IndexBase, 0x15),
        (Field::Key, 0x20),
        (Field::Tuple, 0x21),
        (Field::FunctionName, 0x22),
        (Field::UserName, 0x23),
        (Field::Expr, 0x27),
        (Field::Ops, 0x28),
        (Field::Options, 0x2b),
        (Field::Data, 0x30),
        (Field::Error24, 0x31),
        (Field::Metadata, 0x32),
        (Field::BindMetadata, 0x33),
        (Field::BindCount, 0x34),
        (Field::SqlText, 0x40),
        (Field::SqlBind, 0x41),
        (Field::SqlInfo, 0x42),
        (Field::StmtID, 0x43),
        (Field::Error, 0x52),
    ];
    for (field, code) in all {
        assert_eq!(field.to_u64(), code);
        assert_eq!(Field::from_u64(code), Some(field));
    }
    let known: Vec<u64> = all.iter().map(|pair| pair.1).collect();
    for code in 0..300u64 {
        if !known.contains(&code) {
            assert_eq!(Field::from_u64(code), None);
        }
    }
    assert_eq!(Field::from_u64(u64::MAX), None);
}

#[test]
fn request_and_iterator_codes() {
    assert_eq!(RequestType::Select.to_u64(), 1);
    assert_eq!(RequestType::Insert.to_u64(), 2);
    assert_eq!(RequestType::Replace.to_u64(), 3);
    assert_eq!(RequestType::Update.to_u64(), 4);
    assert_eq!(RequestType::Delete.to_u64(), 5);
    assert_eq!(RequestType::Auth.to_u64(), 7);
    assert_eq!(RequestType::Eval.to_u64(), 8);
    assert_eq!(RequestType::Upsert.to_u64(), 9);
    assert_eq!(RequestType::Call.to_u64(), 10);
    assert_eq!(RequestType::Execute.to_u64(), 11);
    assert_eq!(RequestType::Prepare.to_u64(), 13);
    assert_eq!(RequestType::Ping.to_u64(), 64);
    assert_eq!(Iterator::Eq.to_u64(), 0);
    assert_eq!(Iterator::Req.to_u64(), 1);
    assert_eq!(Iterator::All.to_u64(), 2);
    assert_eq!(Iterator::Lt.to_u64(), 3);
    assert_eq!(Iterator::Le.to_u64(), 4);
    assert_eq!(Iterator::Ge.to_u64(), 5);
    assert_eq!(Iterator::Gt.to_u64(), 6);
    assert_eq!(Iterator::BitsAllSet.to_u64(), 7);
    assert_eq!(Iterator::BitsAnySet.to_u64(), 8);
    assert_eq!(Iterator::BitsAllNotSet.to_u64(), 9);
    assert_eq!(Iterator::Overlaps.to_u64(), 10);
    assert_eq!(Iterator::Neighbor.to_u64(), 11);
}

#[test]
fn status_codes() {
    assert_eq!(Code::from_u64(0), Some(Code::Success));
    assert_eq!(Code::from_u64(1), None);
    assert_eq!(Code::from_u64(0x7fff), None);
    assert_eq!(Code::from_u64(0x8000), Some(Code::Error(0)));
    assert_eq!(Code::from_u64(0x8014), Some(Code::Error(20)));
    assert_eq!(Code::from_u64(0xffff), Some(Code::Error(0x7fff)));
    assert_eq!(Code::from_u64(0x1_0000), None);
    assert!(Code::Error(3).is_err());
    assert!(!Code::Success.is_err());
    assert_eq!(Code::default(), Code::Success);
}

#[test]
fn copies_have_the_same_bytes() {
    let value = Value::Array(vec![
        Value::Str("a".into()),
        Value::Bin(vec![1, 2]),
        Value::Array(vec![Value::Decimal(Decimal { mantissa: -5, scale: 1 }), Value::Uuid(7)]),
        Value::DateTime(DateTime { seconds: 1, nanos: 2 }),
        Value::F32(3),
        Value::F64(4),
        Value::Int(-9),
    ]);
    let copy = value.clone();
    assert_eq!(copy, value);
    assert_eq!(packed(&copy), packed(&value));
    let items = vec![Value::UInt(1), value];
    assert_eq!(tuple_clone(&items), items);
}
