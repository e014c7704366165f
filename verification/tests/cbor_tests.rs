//! Tests of the CBOR encoder, cross-checked against an independent encoder.

use beacon_core::cbor::{lex_leq_bytes, Serializer, SerializerOptions};

fn fresh() -> Serializer {
    Serializer::new(Vec::new())
}

#[test]
fn small_integers_use_one_byte() {
    let mut s = fresh();
    s.serialize_u64(0);
    s.serialize_u64(0x17);
    assert_eq!(s.into_inner(), vec![0x00, 0x17]);
}

#[test]
fn integers_match_independent_encoder() {
    for v in [0u64, 23, 24, 255, 256, 65535, 65536, 0xffff_ffff, 0x1_0000_0000, u64::MAX] {
        let mut s = fresh();
        s.serialize_u64(v);
        assert_eq!(s.into_inner(), serde_cbor::to_vec(&v).unwrap(), "value {}", v);
    }
}

#[test]
fn negative_integers_match_independent_encoder() {
    for v in [-1i64, -24, -25, -256, -257, -65536, -65537, i64::MIN] {
        let mut s = fresh();
        s.serialize_i64(v);
        assert_eq!(s.into_inner(), serde_cbor::to_vec(&v).unwrap(), "value {}", v);
    }
}

#[test]
fn booleans_and_null_match_independent_encoder() {
    let mut s = fresh();
    s.serialize_bool(true);
    s.serialize_bool(false);
    s.serialize_none();
    let none: Option<u64> = None;
    let mut expected = serde_cbor::to_vec(&true).unwrap();
    expected.extend(serde_cbor::to_vec(&false).unwrap());
    expected.extend(serde_cbor::to_vec(&none).unwrap());
    assert_eq!(s.into_inner(), expected);
}

#[test]
fn text_matches_independent_encoder() {
    let mut s = fresh();
    s.serialize_str("hello world");
    assert_eq!(s.into_inner(), serde_cbor::to_vec(&"hello world").unwrap());
}

#[test]
fn chars_encode_their_utf8_bytes() {
    let mut s = fresh();
    s.serialize_char('a');
    assert_eq!(s.into_inner(), vec![0x61, b'a']);
    let mut s2 = fresh();
    s2.serialize_char('\u{20ac}');
    assert_eq!(s2.into_inner(), vec![0x63, 0xe2, 0x82, 0xac]);
}

#[test]
fn byte_strings_get_the_bytes_major_type() {
    let mut s = fresh();
    s.serialize_bytes(&[1, 2, 3]);
    assert_eq!(s.into_inner(), vec![0x43, 1, 2, 3]);
}

#[test]
fn sequences_match_independent_encoder() {
    let mut s = fresh();
    let coll = s.serialize_seq(Some(3));
    s.serialize_u64(1);
    s.serialize_u64(2);
    s.serialize_u64(3);
    coll.end(&mut s);
    assert_eq!(
        s.into_inner(),
        serde_cbor::to_vec(&vec![1u64, 2, 3]).unwrap()
    );
}

#[test]
fn indefinite_sequences_carry_the_stop_byte() {
    let mut s = fresh();
    let coll = s.serialize_seq(None);
    s.serialize_u64(1);
    coll.end(&mut s);
    assert_eq!(s.into_inner(), vec![0x9f, 0x01, 0xff]);
}

#[test]
fn structs_write_fields_in_key_order() {
    // Fields handed out of order come back sorted by their encoded keys.
    let mut s = fresh();
    let mut st = s.serialize_struct("record", 2);

    let mut bv = fresh();
    bv.serialize_u64(2);
    st.serialize_field("b", bv.into_inner());

    let mut av = fresh();
    av.serialize_u64(1);
    st.serialize_field("a", av.into_inner());

    st.end(&mut s);
    // Map of two entries: "a" => 1 before "b" => 2.
    assert_eq!(
        s.into_inner(),
        vec![0xa2, 0x61, b'a', 0x01, 0x61, b'b', 0x02]
    );
}

#[test]
fn packed_structs_key_fields_by_index() {
    let mut s = Serializer::packed(Vec::new());
    let mut st = s.serialize_struct("record", 2);
    let mut av = Serializer::packed(Vec::new());
    av.serialize_u64(10);
    st.serialize_field("first", av.into_inner());
    let mut bv = Serializer::packed(Vec::new());
    bv.serialize_u64(20);
    st.serialize_field("second", bv.into_inner());
    st.end(&mut s);
    assert_eq!(s.into_inner(), vec![0xa2, 0x00, 0x0a, 0x01, 0x14]);
}

#[test]
fn unit_variants_follow_the_packed_option() {
    let mut s = fresh();
    s.serialize_unit_variant("e", 4, "Four");
    assert_eq!(s.into_inner(), vec![0x64, b'F', b'o', b'u', b'r']);

    let mut p = Serializer::packed(Vec::new());
    p.serialize_unit_variant("e", 4, "Four");
    assert_eq!(p.into_inner(), vec![0x04]);
}

#[test]
fn self_describe_writes_the_tag() {
    let mut s = fresh();
    s.self_describe();
    assert_eq!(s.into_inner(), vec![0xd9, 0xd9, 0xf7]);
}

#[test]
fn options_construct_the_matching_serializer() {
    let opts = SerializerOptions {
        packed: true,
        enum_as_map: true,
        self_describe: false,
    };
    let s = Serializer::new_with_options(Vec::new(), &opts);
    assert!(s.packed);
    assert!(s.enum_as_map);
    let d: SerializerOptions = Default::default();
    assert!(!d.packed && !d.enum_as_map && !d.self_describe);
}

#[test]
fn large_integers_are_refused_beyond_cbor_range() {
    let mut s = fresh();
    assert!(s.serialize_u128(u128::from(u64::MAX) + 1).is_err());
    assert!(s.serialize_i128(-(i128::from(u64::MAX)) - 2).is_err());
    assert!(s.serialize_u128(42).is_ok());
    assert!(s.serialize_i128(-42).is_ok());
    assert_eq!(s.into_inner(), vec![0x18, 0x2a, 0x38, 0x29]);
}

#[test]
fn byte_order_comparison_is_lexicographic() {
    assert!(lex_leq_bytes(&vec![], &vec![1]));
    assert!(lex_leq_bytes(&vec![1, 2], &vec![1, 2]));
    assert!(lex_leq_bytes(&vec![1, 2], &vec![1, 3]));
    assert!(!lex_leq_bytes(&vec![2], &vec![1, 9]));
    assert!(!lex_leq_bytes(&vec![1, 2, 0], &vec![1, 2]));
}
