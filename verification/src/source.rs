//! Byte-offset spans into one source buffer, and the read-only context
//! that binds a span back to the full source text of a formatting run.

use vstd::prelude::*;
use vstd::string::StringSliceAdditionalSpecFns;
use vstd::utf8::*;

verus! {

/// Half-open byte-offset interval `[start, end)` into one source buffer.
#[derive(Clone, Copy, PartialEq, Eq, Structural, Debug)]
pub struct Range {
    pub start: usize,
    pub end: usize,
}

impl Range {
    /// The span is ordered, lies within a buffer holding `bytes`, and both
    /// bounds fall on character boundaries of that buffer.  This is the
    /// contract the producing parser owes for every range it builds: a
    /// range that violates it has no well-defined source text.
    pub open spec fn valid_for(self, bytes: Seq<u8>) -> bool {
        &&& self.start <= self.end
        &&& self.end <= bytes.len()
        &&& is_char_boundary(bytes, self.start as int)
        &&& is_char_boundary(bytes, self.end as int)
    }

    /// The span of `inner` lies within `self`.
    pub open spec fn contains_range(self, inner: Range) -> bool {
        self.start <= inner.start && inner.end <= self.end
    }

    /// Checks that this span is a valid sub-range of `file_text`, on
    /// character boundaries; only such a span has well-defined text.
    pub fn is_valid_for(&self, file_text: &str) -> (ok: bool)
        ensures
            ok == self.valid_for(file_text.spec_bytes()),
    {
        proof {
            broadcast use encode_utf8_valid_utf8;

            assert(valid_utf8(file_text.spec_bytes()));
            // an index above the buffer length is never a character
            // boundary, so the boundary check subsumes the length check
            assert(is_char_boundary(file_text.spec_bytes(), self.end as int) ==> self.end
                <= file_text.spec_bytes().len());
        }
        self.start <= self.end && file_text.is_char_boundary(self.start)
            && file_text.is_char_boundary(self.end)
    }
}

/// The bytes of the buffer covered by the span `r`.
pub open spec fn slice_of(bytes: Seq<u8>, r: Range) -> Seq<u8> {
    bytes.subrange(r.start as int, r.end as int)
}

/// Whether `b` is the encoding of an ASCII punctuation character.
pub open spec fn is_ascii_punctuation_byte(b: u8) -> bool {
    ||| (0x21 <= b && b <= 0x2f)
    ||| (0x3a <= b && b <= 0x40)
    ||| (0x5b <= b && b <= 0x60)
    ||| (0x7b <= b && b <= 0x7e)
}

pub(crate) fn is_punctuation_byte(b: u8) -> (r: bool)
    ensures
        r == is_ascii_punctuation_byte(b),
{
    (0x21 <= b && b <= 0x2f) || (0x3a <= b && b <= 0x40) || (0x5b <= b && b <= 0x60) || (0x7b <= b
        && b <= 0x7e)
}

/// The single byte immediately before the span's start is an ASCII
/// space.  False when the span starts at offset zero, and false when its
/// start lies beyond the buffer.
pub open spec fn preceded_by_space(r: Range, bytes: Seq<u8>) -> bool {
    r.start > 0 && r.start - 1 < bytes.len() && bytes[r.start - 1] == 0x20
}

/// The first byte of the span's slice is ASCII punctuation.  For a span
/// on character boundaries of valid UTF-8 this holds exactly when the
/// first character of the slice is ASCII punctuation, since the leading
/// byte of a multi-byte encoding decodes to a codepoint above 0x7f.
pub open spec fn starts_with_punctuation_spec(r: Range, bytes: Seq<u8>) -> bool {
    r.start < r.end && is_ascii_punctuation_byte(bytes[r.start as int])
}

/// The last byte of the span's slice is ASCII punctuation.  For a span
/// on character boundaries of valid UTF-8 this holds exactly when the
/// last character of the slice is ASCII punctuation, since every later
/// byte of a multi-byte encoding is a continuation byte above 0x7f.
pub open spec fn ends_with_punctuation_spec(r: Range, bytes: Seq<u8>) -> bool {
    r.start < r.end && is_ascii_punctuation_byte(bytes[r.end - 1])
}

/// Whether `c` is an ASCII punctuation character.
pub open spec fn is_ascii_punctuation_char(c: char) -> bool {
    let u = c as u32;
    ||| (0x21 <= u && u <= 0x2f)
    ||| (0x3a <= u && u <= 0x40)
    ||| (0x5b <= u && u <= 0x60)
    ||| (0x7b <= u && u <= 0x7e)
}

/// Law: a span that starts at offset zero has no byte before it, so it
/// is never preceded by a space.
pub proof fn lemma_no_space_before_start_of_source(r: Range, bytes: Seq<u8>)
    requires
        r.start == 0,
    ensures
        !preceded_by_space(r, bytes),
{
}

/// Law: an empty span has no first or last byte, so it neither starts
/// nor ends with punctuation.
pub proof fn lemma_empty_span_no_punctuation(r: Range, bytes: Seq<u8>)
    requires
        r.start == r.end,
    ensures
        !starts_with_punctuation_spec(r, bytes),
        !ends_with_punctuation_spec(r, bytes),
{
}

/// A non-empty valid UTF-8 sequence decodes to text whose first
/// character is ASCII punctuation exactly when the sequence's first
/// byte is an ASCII punctuation byte: an ASCII character encodes as the
/// single identical byte, and a longer encoding decodes above 0x7f.
proof fn lemma_first_byte_decides_punctuation(bytes: Seq<u8>)
    requires
        valid_utf8(bytes),
        bytes.len() > 0,
    ensures
        is_ascii_punctuation_byte(bytes[0]) <==> is_ascii_punctuation_char(decode_utf8(bytes)[0]),
{
    let c = decode_first_scalar(bytes) as char;
    assert(decode_utf8(bytes)[0] == c);
    decode_utf8_first_scalar(bytes);
    let v = c as u32;
    if is_leading_byte_width_1(bytes[0]) {
        assert(take_first_scalar(bytes) =~= seq![bytes[0]]);
        assert(has_width_1_encoding(v));
        assert(encode_scalar(v)[0] == bytes[0]);
        assert(encode_scalar(v)[0] == leading_byte_width_1(v));
        let b0: u8 = bytes[0];
        assert(v <= 0x7f && (v & 0x7f) as u8 == b0 ==> v == b0 as u32) by (bit_vector);
        assert(v == bytes[0] as u32);
    } else {
        assert(!is_ascii_punctuation_byte(bytes[0]));
        assert(length_of_first_scalar(bytes) >= 2);
        assert(take_first_scalar(bytes).len() >= 2);
        assert(!has_width_1_encoding(v));
        assert(!is_ascii_punctuation_char(c));
    }
}

/// A non-empty valid UTF-8 sequence decodes to text whose last
/// character is ASCII punctuation exactly when the sequence's last byte
/// is an ASCII punctuation byte: every byte of a longer encoding after
/// the first is a continuation byte above 0x7f.
proof fn lemma_last_byte_decides_punctuation(bytes: Seq<u8>)
    requires
        valid_utf8(bytes),
        bytes.len() > 0,
    ensures
        is_ascii_punctuation_byte(bytes[bytes.len() - 1]) <==> is_ascii_punctuation_char(
            decode_utf8(bytes).last(),
        ),
    decreases bytes.len(),
{
    let rest = pop_first_scalar(bytes);
    let len1 = length_of_first_scalar(bytes);
    assert(1 <= len1 <= bytes.len());
    if rest.len() > 0 {
        lemma_last_byte_decides_punctuation(rest);
        assert(decode_utf8(rest).len() > 0);
        assert(decode_utf8(bytes).last() == decode_utf8(rest).last());
        assert(bytes[bytes.len() - 1] == rest[rest.len() - 1]);
    } else {
        assert(bytes.len() == len1);
        let c = decode_first_scalar(bytes) as char;
        assert(decode_utf8(bytes) =~= seq![c]) by {
            reveal_with_fuel(decode_utf8, 2);
        }
        assert(decode_utf8(bytes).last() == c);
        decode_utf8_first_scalar(bytes);
        let v = c as u32;
        if is_leading_byte_width_1(bytes[0]) {
            assert(bytes[bytes.len() - 1] == bytes[0]);
            assert(take_first_scalar(bytes) =~= seq![bytes[0]]);
            assert(has_width_1_encoding(v));
            assert(encode_scalar(v)[0] == bytes[0]);
            assert(encode_scalar(v)[0] == leading_byte_width_1(v));
            let b0: u8 = bytes[0];
            assert(v <= 0x7f && (v & 0x7f) as u8 == b0 ==> v == b0 as u32) by (bit_vector);
            assert(v == bytes[0] as u32);
        } else {
            assert(is_continuation_byte(bytes[bytes.len() - 1]));
            assert(!is_ascii_punctuation_byte(bytes[bytes.len() - 1]));
            assert(take_first_scalar(bytes).len() >= 2);
            assert(!has_width_1_encoding(v));
            assert(!is_ascii_punctuation_char(c));
        }
    }
}

/// Law: for a non-empty span valid for the source, the byte-level
/// punctuation predicates agree with the characters of the decoded
/// slice: the span starts with punctuation exactly when the first
/// character of its text is ASCII punctuation, and ends with
/// punctuation exactly when the last character is.
pub proof fn lemma_punctuation_matches_characters(r: Range, bytes: Seq<u8>)
    requires
        valid_utf8(bytes),
        r.valid_for(bytes),
        r.start < r.end,
    ensures
        starts_with_punctuation_spec(r, bytes) <==> is_ascii_punctuation_char(
            decode_utf8(slice_of(bytes, r))[0],
        ),
        ends_with_punctuation_spec(r, bytes) <==> is_ascii_punctuation_char(
            decode_utf8(slice_of(bytes, r)).last(),
        ),
{
    broadcast use valid_utf8_split;

    let sub = slice_of(bytes, r);
    lemma_valid_range_splits(r, bytes);
    let tail = bytes.subrange(r.start as int, bytes.len() as int);
    valid_utf8_split(tail, r.end - r.start);
    assert(sub =~= tail.subrange(0, r.end - r.start));
    assert(valid_utf8(sub));
    assert(sub[0] == bytes[r.start as int]);
    assert(sub[sub.len() - 1] == bytes[r.end - 1]);
    lemma_first_byte_decides_punctuation(sub);
    lemma_last_byte_decides_punctuation(sub);
}

/// Read-only handle to the complete source text for one formatting run.
/// It is borrowed by every node of the tree parsed from that text and is
/// never mutated.
pub struct Context<'a> {
    pub file_text: &'a str,
}

/// The exact substring of `file_text` covered by `range`, as raw source
/// text.  The returned slice borrows from the backing text, not from the
/// node that owns the range, so callers can hold verbatim fragments
/// without copying.
pub fn text_of_range<'a>(range: &Range, file_text: &'a str) -> (t: &'a str)
    requires
        range.valid_for(file_text.spec_bytes()),
    ensures
        t.spec_bytes() == slice_of(file_text.spec_bytes(), *range),
        t@ == decode_utf8(slice_of(file_text.spec_bytes(), *range)),
{
    proof {
        broadcast use encode_utf8_valid_utf8;

        assert(valid_utf8(file_text.spec_bytes()));
        lemma_valid_range_splits(*range, file_text.spec_bytes());
    }
    let (_, tail) = file_text.split_at(range.start);
    let (head, _) = tail.split_at(range.end - range.start);
    proof {
        broadcast use encode_utf8_decode_utf8;

        assert(head.spec_bytes() =~= slice_of(file_text.spec_bytes(), *range));
        assert(decode_utf8(encode_utf8(head@)) == head@);
    }
    head
}

/// A range that is valid for a buffer can be cut out of it in two steps:
/// the tail after `start` is valid UTF-8, and `end - start` is a character
/// boundary of that tail.
proof fn lemma_valid_range_splits(r: Range, bytes: Seq<u8>)
    requires
        valid_utf8(bytes),
        r.valid_for(bytes),
    ensures
        valid_utf8(bytes.subrange(r.start as int, bytes.len() as int)),
        is_char_boundary(
            bytes.subrange(r.start as int, bytes.len() as int),
            r.end - r.start,
        ),
{
    broadcast use valid_utf8_split;
    broadcast use is_char_boundary_start_end_of_seq;
    broadcast use is_char_boundary_iff_not_is_continuation_byte;

    let tail = bytes.subrange(r.start as int, bytes.len() as int);
    assert(valid_utf8(tail));
    if r.end == r.start {
        assert(is_char_boundary(tail, 0));
    } else if r.end == bytes.len() {
        assert(is_char_boundary(tail, tail.len() as int));
    } else {
        assert(!is_continuation_byte(bytes[r.end as int]));
        assert(tail[r.end - r.start] == bytes[r.end as int]);
        assert(is_char_boundary(tail, r.end - r.start));
    }
}

} // verus!
