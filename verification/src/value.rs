//! The host's tagged value representation and the bit-exact conversions
//! between tagged (dynamic) values and the unboxed internal forms.
//!
//! A fixed-width integer is tagged as `(raw << 1) | 1`; untagging is an
//! arithmetic shift right by one.  The two boolean constants are the fixed
//! points of `(bit << 4) + (bit << 2)` for the bit 0 or 1, and nil is its
//! own constant, distinct from both.

use vstd::prelude::*;

verus! {

/// The tagged representation of false.
pub const QFALSE: u64 = 0;
/// The tagged representation of true.
pub const QTRUE: u64 = 20;
/// The tagged representation of nil.
pub const QNIL: u64 = 8;

/// The dynamic type tag observed on a runtime value.
#[derive(Clone, Copy, Debug, PartialEq, Eq, Structural)]
pub enum ValueTag {
    Nil,
    True,
    False,
    Fixnum,
    RString,
    Array,
    Hash,
    Object,
}

/// Tagged form of an unboxed 64-bit word holding a fixed-width integer:
/// shift left by one and set the tag bit.
pub open spec fn fix_tag_word(raw: u64) -> u64 {
    (raw << 1) | 1
}

/// Unboxed form of a tagged integer word: arithmetic shift right by one,
/// written over unsigned words by re-inserting the sign bit.
pub open spec fn fix_untag_word(v: u64) -> u64 {
    (v >> 1) | (v & 0x8000_0000_0000_0000)
}

/// The unsigned word carrying a signed value in two's complement.
pub open spec fn to_word(n: i64) -> u64 {
    if n >= 0 {
        n as u64
    } else {
        (n + 0x1_0000_0000_0000_0000) as u64
    }
}

/// The signed reading of an unsigned word in two's complement.
pub open spec fn from_word(v: u64) -> i64 {
    if v < 0x8000_0000_0000_0000 {
        v as i64
    } else {
        (v - 0x1_0000_0000_0000_0000) as i64
    }
}

/// Signed comparison of two words: flipping the sign bit turns two's
/// complement order into unsigned order.
pub open spec fn word_lt(a: u64, b: u64) -> bool {
    (a ^ 0x8000_0000_0000_0000) < (b ^ 0x8000_0000_0000_0000)
}

/// A tagged value is falsy exactly when it is the false or the nil constant.
pub open spec fn truthy(v: u64) -> bool {
    v != QFALSE && v != QNIL
}

/// The boolean tag constant for a native bit, `(bit << 4) + (bit << 2)`.
pub open spec fn bool_tag(b: bool) -> u64 {
    if b {
        20
    } else {
        0
    }
}

/// The dynamic tag read off a tagged word.  An even word that is none of
/// the special constants is some heap object; the tag alone does not say
/// which, so it reads as the generic object tag.
pub open spec fn tag_of(v: u64) -> ValueTag {
    if v & 1 == 1 {
        ValueTag::Fixnum
    } else if v == QFALSE {
        ValueTag::False
    } else if v == QTRUE {
        ValueTag::True
    } else if v == QNIL {
        ValueTag::Nil
    } else {
        ValueTag::Object
    }
}

/// Tag an unboxed word as a fixed-width integer.
pub fn tag_fixnum_word(raw: u64) -> (v: u64)
    ensures
        v == fix_tag_word(raw),
{
    (raw << 1u64) | 1
}

/// Untag a fixed-width integer word, keeping the sign.
pub fn untag_fixnum_word(v: u64) -> (raw: u64)
    ensures
        raw == fix_untag_word(v),
{
    (v >> 1u64) | (v & 0x8000_0000_0000_0000)
}

/// Materialize the boolean tag constant from a native bit by the host's
/// formula `(bit << 4) + (bit << 2)`.
pub fn tag_bool(b: bool) -> (v: u64)
    ensures
        v == bool_tag(b),
{
    let bit: u64 = if b {
        1
    } else {
        0
    };
    let fifth: u64 = bit << 4u64;
    let third: u64 = bit << 2u64;
    proof {
        assert((0u64 << 4) == 0 && (0u64 << 2) == 0 && (1u64 << 4) == 16 && (1u64 << 2) == 4)
            by (bit_vector);
    }
    fifth + third
}

/// Encode a signed integer into its tagged form.
pub fn encode_fixnum(n: i64) -> (v: u64)
    ensures
        v == fix_tag_word(to_word(n)),
{
    let w: u64 = if n >= 0 {
        n as u64
    } else {
        let mag: u64 = (-(n + 1)) as u64;
        proof {
            assert(0xffff_ffff_ffff_ffff - mag == n + 0x1_0000_0000_0000_0000);
        }
        0xffff_ffff_ffff_ffff - mag
    };
    tag_fixnum_word(w)
}

/// Decode a tagged integer back to its signed form.
pub fn decode_fixnum(v: u64) -> (n: i64)
    ensures
        n == from_word(fix_untag_word(v)),
{
    let w: u64 = untag_fixnum_word(v);
    if w < 0x8000_0000_0000_0000 {
        w as i64
    } else {
        let mag: i64 = (0xffff_ffff_ffff_ffff - w) as i64;
        proof {
            assert(w >= 0x8000_0000_0000_0000 ==> 0xffff_ffff_ffff_ffff - w
                < 0x8000_0000_0000_0000);
            assert(-mag - 1 == w - 0x1_0000_0000_0000_0000);
        }
        -mag - 1
    }
}

/// Read the dynamic tag of a tagged word.
pub fn read_tag(v: u64) -> (t: ValueTag)
    ensures
        t == tag_of(v),
{
    if v & 1 == 1 {
        ValueTag::Fixnum
    } else if v == QFALSE {
        ValueTag::False
    } else if v == QTRUE {
        ValueTag::True
    } else if v == QNIL {
        ValueTag::Nil
    } else {
        ValueTag::Object
    }
}

/// Truthiness of a tagged word: everything but false and nil is truthy.
pub fn is_truthy(v: u64) -> (b: bool)
    ensures
        b == truthy(v),
{
    v != QFALSE && v != QNIL
}

/// Round trip at the word level: tagging then untagging returns any word
/// that carries a signed value of at most 63 bits.
pub proof fn lemma_word_round_trip(raw: u64)
    requires
        raw < 0x4000_0000_0000_0000 || raw >= 0xc000_0000_0000_0000,
    ensures
        fix_untag_word(fix_tag_word(raw)) == raw,
{
    assert((raw < 0x4000_0000_0000_0000 || raw >= 0xc000_0000_0000_0000)
        ==> ((((raw << 1) | 1) >> 1) | (((raw << 1) | 1) & 0x8000_0000_0000_0000)) == raw)
        by (bit_vector);
}

/// Every representable signed 63-bit integer survives the encode/decode
/// round trip: decode(encode(n)) == n.
pub proof fn lemma_fixnum_round_trip(n: i64)
    requires
        -0x4000_0000_0000_0000 <= n < 0x4000_0000_0000_0000,
    ensures
        from_word(fix_untag_word(fix_tag_word(to_word(n)))) == n,
{
    let w = to_word(n);
    assert(w < 0x4000_0000_0000_0000 || w >= 0xc000_0000_0000_0000);
    lemma_word_round_trip(w);
    assert(from_word(to_word(n)) == n);
}

/// The two boolean tag constants are distinct from each other and from the
/// nil tag constant.
pub proof fn lemma_special_tags_distinct()
    ensures
        bool_tag(true) != bool_tag(false),
        bool_tag(true) != QNIL,
        bool_tag(false) != QNIL,
{
}

} // verus!
