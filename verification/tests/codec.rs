use hyperdrive::value::{
    decode_fixnum, encode_fixnum, is_truthy, read_tag, tag_bool, tag_fixnum_word,
    untag_fixnum_word, ValueTag, QFALSE, QNIL, QTRUE,
};

#[test]
fn fixnum_round_trip_small() {
    for n in [-100i64, -1, 0, 1, 2, 7, 100, 4096] {
        assert_eq!(decode_fixnum(encode_fixnum(n)), n);
    }
}

#[test]
fn fixnum_round_trip_extremes() {
    let max: i64 = 0x3fff_ffff_ffff_ffff;
    let min: i64 = -0x4000_0000_0000_0000;
    assert_eq!(decode_fixnum(encode_fixnum(max)), max);
    assert_eq!(decode_fixnum(encode_fixnum(min)), min);
    assert_eq!(decode_fixnum(encode_fixnum(min + 1)), min + 1);
    assert_eq!(decode_fixnum(encode_fixnum(max - 1)), max - 1);
}

#[test]
fn fixnum_encoding_is_shift_and_tag() {
    assert_eq!(encode_fixnum(0), 1);
    assert_eq!(encode_fixnum(1), 3);
    assert_eq!(encode_fixnum(10), 21);
    assert_eq!(encode_fixnum(-1), u64::MAX);
}

#[test]
fn word_tagging_matches_fixnum_encoding() {
    assert_eq!(tag_fixnum_word(10), 21);
    assert_eq!(untag_fixnum_word(21), 10);
    // The arithmetic shift keeps the sign bit of a negative word.
    let neg_one = u64::MAX;
    assert_eq!(untag_fixnum_word(neg_one), neg_one);
}

#[test]
fn boolean_tags_are_distinct_from_each_other_and_nil() {
    let t = tag_bool(true);
    let f = tag_bool(false);
    assert_eq!(t, QTRUE);
    assert_eq!(f, QFALSE);
    assert_ne!(t, f);
    assert_ne!(t, QNIL);
    assert_ne!(f, QNIL);
}

#[test]
fn boolean_tag_formula_values() {
    // (bit << 4) + (bit << 2) for bit in {0, 1}.
    assert_eq!(tag_bool(true), 20);
    assert_eq!(tag_bool(false), 0);
}

#[test]
fn tags_read_back_from_words() {
    assert_eq!(read_tag(QNIL), ValueTag::Nil);
    assert_eq!(read_tag(QTRUE), ValueTag::True);
    assert_eq!(read_tag(QFALSE), ValueTag::False);
    assert_eq!(read_tag(21), ValueTag::Fixnum);
    assert_eq!(read_tag(1024), ValueTag::Object);
}

#[test]
fn truthiness_of_special_constants() {
    assert!(!is_truthy(QFALSE));
    assert!(!is_truthy(QNIL));
    assert!(is_truthy(QTRUE));
    assert!(is_truthy(21));
}
