//! Frame codec, field codec, and the typed field decode helpers.

use twsproto::decoder::{
    decode_bool, decode_f64, decode_f64_show_unset, decode_i32, decode_i32_show_unset, decode_i64,
    decode_string, decode_tick_type,
};
use twsproto::errors::Error;
use twsproto::messages::{
    make_field, make_field_handle_empty, make_message, read_fields, read_msg, DoubleValue,
    FieldValue,
};
use twsproto::numtext::float_text_is_neg_int_exec;
use twsproto::UNSET_INTEGER;

fn strings(fields: &[&str]) -> Vec<String> {
    fields.iter().map(|s| s.to_string()).collect()
}

#[test]
fn frame_encode_scenario() {
    // encode("ABC") puts the byte length in front of the payload bytes
    let buf = make_message("ABC").unwrap();
    assert_eq!(buf, vec![0u8, 0, 0, 3, b'A', b'B', b'C']);
}

#[test]
fn frame_decode_scenario() {
    let (len, payload, rest) = read_msg(&[0u8, 0, 0, 3, b'A', b'B', b'C']).unwrap();
    assert_eq!(len, 3);
    assert_eq!(payload, "ABC");
    assert!(rest.is_empty());
}

#[test]
fn frame_round_trip() {
    let text = "62\u{0}1\u{0}tag1:tag_value1\u{0}";
    let buf = make_message(text).unwrap();
    let (len, payload, rest) = read_msg(buf.as_slice()).unwrap();
    assert_eq!(len, text.len());
    assert_eq!(payload, text);
    assert!(rest.is_empty());
}

#[test]
fn frame_decode_short_buffer_is_incomplete() {
    // fewer than four bytes: an explicit incomplete result, never an error
    let (len, payload, rest) = read_msg(&[0u8, 0, 1]).unwrap();
    assert_eq!(len, 0);
    assert_eq!(payload, "");
    assert_eq!(rest, vec![0u8, 0, 1]);
}

#[test]
fn frame_decode_partial_payload_is_incomplete() {
    // declared length exceeds what is buffered: buffer comes back unconsumed
    let buf = vec![0u8, 0, 0, 9, b'A', b'B'];
    let (len, payload, rest) = read_msg(buf.as_slice()).unwrap();
    assert_eq!(len, 9);
    assert_eq!(payload, "");
    assert_eq!(rest, buf);
}

#[test]
fn frame_decode_keeps_remainder() {
    let buf = vec![0u8, 0, 0, 2, b'h', b'i', 9, 9, 9];
    let (len, payload, rest) = read_msg(buf.as_slice()).unwrap();
    assert_eq!(len, 2);
    assert_eq!(payload, "hi");
    assert_eq!(rest, vec![9u8, 9, 9]);
}

#[test]
fn frame_decode_multibyte_text() {
    // a non-ASCII payload decodes to its characters, not to the raw bytes
    let buf = vec![0u8, 0, 0, 2, 0xC3, 0xA9];
    let (len, payload, _) = read_msg(buf.as_slice()).unwrap();
    assert_eq!(len, 2);
    assert_eq!(payload, "\u{e9}");
}

#[test]
fn frame_decode_invalid_text_is_typed_error() {
    let buf = vec![0u8, 0, 0, 1, 0xFF];
    assert_eq!(read_msg(buf.as_slice()).unwrap_err(), Error::FromUtf8);
}

#[test]
fn split_drops_trailing_empty_piece() {
    assert_eq!(read_fields("a\u{0}bc\u{0}"), vec!["a".to_string(), "bc".to_string()]);
    assert_eq!(read_fields(""), Vec::<String>::new());
    assert_eq!(read_fields("\u{0}"), vec!["".to_string()]);
}

#[test]
fn split_join_round_trip() {
    // split(join(fields)) == fields when no field holds the separator
    let fields = strings(&["62", "1", "", "MyGroup", "tag1:tag_value1, tag2:tag_value2"]);
    let mut joined = String::new();
    for f in &fields {
        joined.push_str(f);
        joined.push('\u{0}');
    }
    assert_eq!(read_fields(&joined), fields);
}

#[test]
fn make_field_encodings() {
    assert_eq!(make_field(&FieldValue::Bool(true)).unwrap(), "1\u{0}");
    assert_eq!(make_field(&FieldValue::Bool(false)).unwrap(), "0\u{0}");
    assert_eq!(make_field(&FieldValue::I32(-17)).unwrap(), "-17\u{0}");
    assert_eq!(make_field(&FieldValue::I32(UNSET_INTEGER)).unwrap(), "\u{0}");
    assert_eq!(make_field(&FieldValue::Usize(104)).unwrap(), "104\u{0}");
    assert_eq!(make_field(&FieldValue::Dbl(DoubleValue::Unset)).unwrap(), "\u{0}");
    assert_eq!(
        make_field(&FieldValue::Dbl(DoubleValue::Num("66.5".to_string()))).unwrap(),
        "66.5\u{0}"
    );
    assert_eq!(make_field(&FieldValue::Str("GLOBEX".to_string())).unwrap(), "GLOBEX\u{0}");
}

#[test]
fn make_field_handle_empty_maps_unset_to_empty() {
    assert_eq!(make_field_handle_empty(&FieldValue::I32(UNSET_INTEGER)).unwrap(), "\u{0}");
    assert_eq!(make_field_handle_empty(&FieldValue::Dbl(DoubleValue::Unset)).unwrap(), "\u{0}");
    assert_eq!(make_field_handle_empty(&FieldValue::I32(5)).unwrap(), "5\u{0}");
}

#[test]
fn decode_helpers_on_good_fields() {
    let fields = strings(&["42", "-7", "9000000000", "66.5", "1", "hello"]);
    let mut pos = 0usize;
    assert_eq!(decode_i32(&fields, &mut pos), 42);
    assert_eq!(decode_i32(&fields, &mut pos), -7);
    assert_eq!(decode_i64(&fields, &mut pos), 9000000000i64);
    assert_eq!(decode_f64(&fields, &mut pos), "66.5");
    assert!(decode_bool(&fields, &mut pos));
    assert_eq!(decode_string(&fields, &mut pos), "hello");
    assert_eq!(pos, 6);
}

#[test]
fn decode_helpers_malformed_and_absent_default() {
    let fields = strings(&["abc", "12.5"]);
    let mut pos = 0usize;
    assert_eq!(decode_i32(&fields, &mut pos), 0);
    // an integer read rejects a fraction
    assert_eq!(decode_i32(&fields, &mut pos), 0);
    // the list is exhausted: everything decodes to its default
    assert_eq!(decode_i32(&fields, &mut pos), 0);
    assert_eq!(decode_i64(&fields, &mut pos), 0);
    assert_eq!(decode_f64(&fields, &mut pos), "0");
    assert!(!decode_bool(&fields, &mut pos));
    assert_eq!(decode_string(&fields, &mut pos), "");
    assert_eq!(decode_tick_type(&fields, &mut pos), 0);
}

#[test]
fn decode_int_unset_quirk() {
    // any nonzero integer round-trips; zero becomes the unset sentinel
    for v in [-5i32, 1, 23, 2147483647, -2147483648] {
        let fields = vec![v.to_string()];
        let mut pos = 0usize;
        assert_eq!(decode_i32_show_unset(&fields, &mut pos), v);
    }
    let fields = strings(&["0"]);
    let mut pos = 0usize;
    assert_eq!(decode_i32_show_unset(&fields, &mut pos), UNSET_INTEGER);
}

#[test]
fn decode_double_unset_quirk() {
    // any nonzero double round-trips through its text; zero becomes unset
    for v in [66.5f64, -1.25, 1e10] {
        let fields = vec![v.to_string()];
        let mut pos = 0usize;
        match decode_f64_show_unset(&fields, &mut pos) {
            DoubleValue::Num(s) => assert_eq!(s.parse::<f64>().unwrap(), v),
            DoubleValue::Unset => panic!("nonzero value decoded to unset"),
        }
    }
    for z in ["0", "0.0", "-0", "000", "0e5"] {
        let fields = vec![z.to_string()];
        let mut pos = 0usize;
        assert_eq!(decode_f64_show_unset(&fields, &mut pos), DoubleValue::Unset);
    }
    // malformed text degrades to the default, which is the unset sentinel
    let fields = strings(&["4.5.6"]);
    let mut pos = 0usize;
    assert_eq!(decode_f64_show_unset(&fields, &mut pos), DoubleValue::Unset);
}

#[test]
fn error_messages() {
    match Error::top_level("bool") {
        Error::Custom(m) => assert_eq!(
            m,
            "cannot deserialize bool at the top level. Try deserializing into a struct."
        ),
        _ => panic!("wrong error shape"),
    }
    match Error::parse_err("bad digit", 7) {
        Error::Parse(m, p) => {
            assert_eq!(m, "bad digit");
            assert_eq!(p, 7);
        },
        _ => panic!("wrong error shape"),
    }
}

#[test]
fn negative_sentinel_accepts_equal_valued_spellings() {
    for t in ["-1", "-1.0", "-01.00", "-1e0", "-10e-1", "-0.01e2", "-100e-2", "-1.0e0"] {
        assert!(float_text_is_neg_int_exec(t, '1'), "should match: {}", t);
    }
    for t in ["1", "-2", "-1.5", "-1e1", "-1e-1", "-0", "", "x", "-1e99999999999999999999"] {
        assert!(!float_text_is_neg_int_exec(t, '1'), "should not match: {}", t);
    }
    assert!(float_text_is_neg_int_exec("-2", '2'));
    assert!(float_text_is_neg_int_exec("-0.2e1", '2'));
}
