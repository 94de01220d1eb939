use osrs_serde::cp1252::encode_char;
use osrs_serde::{
    ByteOrder, EncodingRangeError, I32IME, Primitive, StringCp1252, U16Le, U16Smart, U8Add,
    WireEncode,
};

#[test]
fn smart_small_values_take_one_byte() {
    for v in 0u16..=127 {
        assert_eq!(U16Smart(v).encode(ByteOrder::Little), Ok(vec![v as u8]));
        assert_eq!(U16Smart(v).encode(ByteOrder::Big), Ok(vec![v as u8]));
    }
}

#[test]
fn smart_large_values_take_two_bytes() {
    for v in 128u16..=32767 {
        let q = v + 32768;
        assert_eq!(U16Smart(v).encode(ByteOrder::Little), Ok(q.to_le_bytes().to_vec()));
        assert_eq!(U16Smart(v).encode(ByteOrder::Big), Ok(q.to_be_bytes().to_vec()));
    }
}

#[test]
fn smart_234_little_endian() {
    assert_eq!(U16Smart(234).encode(ByteOrder::Little), Ok(vec![234, 128]));
}

#[test]
fn smart_out_of_range_fails() {
    for v in 32768u16..=65535 {
        assert_eq!(U16Smart(v).encode(ByteOrder::Little), Err(EncodingRangeError));
    }
    assert_eq!(U16Smart(u16::MAX).encode(ByteOrder::Big), Err(EncodingRangeError));
    assert_eq!(EncodingRangeError.message(), "value out of the codec's representable range");
}

#[test]
fn smart_boundary_changes_width() {
    let a = U16Smart(127).encode(ByteOrder::Little).unwrap();
    let b = U16Smart(128).encode(ByteOrder::Little).unwrap();
    assert_eq!(a, vec![127]);
    assert_eq!(b, vec![128, 128]);
    assert_eq!(a.len(), 1);
    assert_eq!(b.len(), 2);
    assert_eq!(U16Smart(32767).encode(ByteOrder::Little), Ok(vec![255, 255]));
}

#[test]
fn smart_primitive_calls() {
    assert!(matches!(U16Smart(5).to_primitive(), Ok(Primitive::U8(5))));
    assert!(matches!(U16Smart(234).to_primitive(), Ok(Primitive::U16(33002))));
    assert!(matches!(U16Smart(32768).to_primitive(), Err(EncodingRangeError)));
}

#[test]
fn add_byte_wraps() {
    for v in 0u8..=255 {
        let expected = ((v as u16 + 128) % 256) as u8;
        assert_eq!(U8Add(v).encode(ByteOrder::Little), vec![expected]);
        assert_eq!(U8Add(v).encode(ByteOrder::Big), vec![expected]);
    }
    assert_eq!(U8Add(200).encode(ByteOrder::Little), vec![72]);
    assert_eq!(U8Add(0).encode(ByteOrder::Little), vec![128]);
    assert!(matches!(U8Add(127).to_primitive(), Primitive::U8(255)));
}

#[test]
fn short_is_big_endian_for_either_order() {
    for v in 0u16..=65535 {
        let expected = v.to_be_bytes().to_vec();
        assert_eq!(U16Le::new(v).encode(ByteOrder::Little), expected);
        assert_eq!(U16Le::new(v).encode(ByteOrder::Big), expected);
    }
    assert_eq!(U16Le::new(0x1234).encode(ByteOrder::Little), vec![0x12, 0x34]);
    assert_eq!(U16Le::new(0x1234).value(), 0x1234);
    assert!(matches!(U16Le::new(0x1234).to_primitive(ByteOrder::Little), Primitive::U16(0x3412)));
    assert!(matches!(U16Le::new(0x1234).to_primitive(ByteOrder::Big), Primitive::U16(0x1234)));
    assert!(matches!(U16Le::new(0x00ff).to_primitive(ByteOrder::Little), Primitive::U16(0xff00)));
}

#[test]
fn raw_int_follows_record_order() {
    assert_eq!(I32IME::new(1).encode(ByteOrder::Little), vec![1, 0, 0, 0]);
    assert_eq!(I32IME::new(1).encode(ByteOrder::Big), vec![0, 0, 0, 1]);
    assert_eq!(I32IME::new(-2).encode(ByteOrder::Little), vec![0xfe, 0xff, 0xff, 0xff]);
    assert_eq!(I32IME::new(i32::MIN).encode(ByteOrder::Big), vec![0x80, 0, 0, 0]);
    assert_eq!(I32IME::new(0x0102_0304).encode(ByteOrder::Big), vec![1, 2, 3, 4]);
    assert_eq!(I32IME::new(-7).value(), -7);
    assert!(matches!(I32IME::new(9).to_primitive(), Primitive::I32(9)));
}

#[test]
fn string_hello_world() {
    let s = StringCp1252("Hello World!".to_string());
    assert_eq!(
        s.encode(ByteOrder::Little),
        Ok(vec![12, 0, 0, 0, 0, 0, 0, 0, 72, 101, 108, 108, 111, 32, 87, 111, 114, 108, 100, 33])
    );
    assert_eq!(
        s.encode(ByteOrder::Big),
        Ok(vec![0, 0, 0, 0, 0, 0, 0, 12, 72, 101, 108, 108, 111, 32, 87, 111, 114, 108, 100, 33])
    );
}

#[test]
fn string_primitive_from_borrowed_text() {
    match StringCp1252::primitive_of("Hi\u{20ac}") {
        Ok(Primitive::ByteSeq(b)) => assert_eq!(b, vec![72, 105, 0x80]),
        _ => panic!("expected a byte sequence"),
    }
}

#[test]
fn string_empty() {
    let s = StringCp1252(String::new());
    assert_eq!(s.encode(ByteOrder::Little), Ok(vec![0; 8]));
}

#[test]
fn string_code_page_bytes() {
    let s = StringCp1252("\u{e9}\u{20ac}\u{2122}".to_string());
    assert_eq!(
        s.encode(ByteOrder::Little),
        Ok(vec![3, 0, 0, 0, 0, 0, 0, 0, 0xe9, 0x80, 0x99])
    );
}

#[test]
fn string_outside_code_page_fails() {
    let s = StringCp1252("a\u{4e2d}b".to_string());
    assert_eq!(s.encode(ByteOrder::Little), Err(EncodingRangeError));
    let t = StringCp1252("\u{80}".to_string());
    assert_eq!(t.encode(ByteOrder::Little), Err(EncodingRangeError));
    assert!(matches!(s.to_primitive(), Err(EncodingRangeError)));
    assert!(matches!(StringCp1252::primitive_of("\u{4e2d}"), Err(EncodingRangeError)));
}

#[test]
fn code_page_characters() {
    assert_eq!(encode_char('A'), Some(0x41));
    assert_eq!(encode_char('\u{ff}'), Some(0xff));
    assert_eq!(encode_char('\u{81}'), Some(0x81));
    assert_eq!(encode_char('\u{178}'), Some(0x9f));
    assert_eq!(encode_char('\u{100}'), None);
}

#[test]
fn encoding_twice_is_identical() {
    let mut out: Vec<u8> = Vec::new();
    assert_eq!(U16Smart(300).encode_into(ByteOrder::Little, &mut out), Ok(()));
    assert_eq!(U16Smart(300).encode_into(ByteOrder::Little, &mut out), Ok(()));
    assert_eq!(out.len(), 4);
    assert_eq!(out[0..2], out[2..4]);

    let s = StringCp1252("abc".to_string());
    assert_eq!(s.encode(ByteOrder::Big), s.encode(ByteOrder::Big));

    let before = out.clone();
    assert_eq!(U16Smart(40000).encode_into(ByteOrder::Little, &mut out), Err(EncodingRangeError));
    assert_eq!(out, before);
}

#[test]
fn record_of_fields_in_order() {
    let mut out: Vec<u8> = Vec::new();
    assert_eq!(U8Add(1).encode_into(ByteOrder::Little, &mut out), Ok(()));
    assert_eq!(U16Le::new(0x0203).encode_into(ByteOrder::Little, &mut out), Ok(()));
    assert_eq!(I32IME::new(4).encode_into(ByteOrder::Little, &mut out), Ok(()));
    assert_eq!(out, vec![129, 2, 3, 4, 0, 0, 0]);
}
