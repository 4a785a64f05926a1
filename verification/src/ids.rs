//! Path identifiers: rejecting blank ones and percent-encoding them into a path segment.
use vstd::prelude::*;
use crate::error::{blank_message, ErrorKind, OpenAIError};
use vstd::utf8::encode_utf8;
use crate::text::{byte_set_keeps, encode_byte, hex_upper, is_blank, is_blank_spec, percent_encode, percent_encode_bytes, percent_encode_spec, trim, trim_spec, ByteSet};

verus! {

/// The path segment an identifier becomes: its UTF-8 bytes percent-encoded,
/// keeping unreserved characters, sub-delimiters, `:` and `@`.
pub open spec fn encoded_id(value: Seq<char>) -> Seq<char> {
    percent_encode_spec(ByteSet::PathSegment, value)
}

/// Rejects an identifier that is empty or all whitespace; otherwise gives it back unchanged.
pub fn validate_path_id<'a>(label: &str, value: &'a str) -> (r: Result<&'a str, OpenAIError>)
    ensures
        r is Ok <==> !is_blank_spec(value@),
        r matches Ok(v) ==> v@ == value@,
        r matches Err(e) ==> e.kind == ErrorKind::Validation && e.message@ == blank_message(
            label@,
        ),
{
    if is_blank(value) {
        return Err(OpenAIError::blank(label));
    }
    Ok(value)
}

/// The trimmed form of an identifier, or an error when nothing but whitespace is left.
pub fn validate_trimmed_path_id<'a>(label: &str, value: &'a str) -> (r: Result<
    &'a str,
    OpenAIError,
>)
    ensures
        r is Ok <==> trim_spec(value@).len() > 0,
        r matches Ok(v) ==> v@ == trim_spec(value@),
        r matches Err(e) ==> e.kind == ErrorKind::Validation && e.message@ == blank_message(
            label@,
        ),
{
    let trimmed = trim(value);
    if trimmed.unicode_len() == 0 {
        return Err(OpenAIError::blank(label));
    }
    Ok(trimmed)
}

/// Percent-encodes an identifier for use as one path segment.
pub fn encode_path_id(value: &str) -> (r: String)
    ensures
        r@ == encoded_id(value@),
{
    percent_encode(ByteSet::PathSegment, value)
}

/// Percent-encodes an identifier keeping only RFC 3986 unreserved characters.
pub fn encode_path_id_unreserved(value: &str) -> (r: String)
    ensures
        r@ == percent_encode_spec(ByteSet::Unreserved, value@),
{
    percent_encode(ByteSet::Unreserved, value)
}

/// A validated and encoded path segment.
pub fn path_id(label: &str, value: &str) -> (r: Result<String, OpenAIError>)
    ensures
        r is Ok <==> !is_blank_spec(value@),
        r matches Ok(v) ==> v@ == encoded_id(value@),
        r matches Err(e) ==> e.kind == ErrorKind::Validation && e.message@ == blank_message(
            label@,
        ),
{
    let value = validate_path_id(label, value)?;
    Ok(encode_path_id(value))
}

/// A character that would end a path segment or start a query or fragment.
pub open spec fn splits_path(c: char) -> bool {
    c == '/' || c == '?' || c == '#'
}

proof fn lemma_encoded_byte_stays_in_segment(set: ByteSet, b: u8)
    ensures
        forall|i: int| 0 <= i < encode_byte(set, b).len() ==> !splits_path(#[trigger] encode_byte(set, b)[i]),
{
    if byte_set_keeps(set, b) {
        assert(b != 47 && b != 63 && b != 35);
        assert((b as char) as u32 == b);
    } else {
        let hi = (b / 16) as int;
        let lo = (b % 16) as int;
        assert(0 <= hi < 16 && 0 <= lo < 16);
        assert(hex_upper(hi) as u32 == if hi < 10 { 48 + hi } else { 55 + hi });
        assert(hex_upper(lo) as u32 == if lo < 10 { 48 + lo } else { 55 + lo });
    }
}

proof fn lemma_encoded_bytes_stay_in_segment(set: ByteSet, bytes: Seq<u8>)
    ensures
        forall|i: int|
            0 <= i < percent_encode_bytes(set, bytes).len() ==> !splits_path(
                #[trigger] percent_encode_bytes(set, bytes)[i],
            ),
    decreases bytes.len(),
{
    if bytes.len() > 0 {
        lemma_encoded_bytes_stay_in_segment(set, bytes.drop_last());
        lemma_encoded_byte_stays_in_segment(set, bytes.last());
        let front = percent_encode_bytes(set, bytes.drop_last());
        let back = encode_byte(set, bytes.last());
        assert forall|i: int| 0 <= i < (front + back).len() implies !splits_path(#[trigger] (front + back)[i]) by {
            if i < front.len() {
                assert((front + back)[i] == front[i]);
            } else {
                assert((front + back)[i] == back[i - front.len()]);
            }
        }
    }
}

/// An identifier stays one path segment: whatever it holds, its encoded form
/// has no `/`, `?` or `#`, under either set of kept characters.
pub proof fn law_encoded_id_stays_one_segment(set: ByteSet, value: Seq<char>)
    ensures
        forall|i: int|
            0 <= i < percent_encode_spec(set, value).len() ==> !splits_path(
                #[trigger] percent_encode_spec(set, value)[i],
            ),
{
    lemma_encoded_bytes_stay_in_segment(set, encode_utf8(value));
}

} // verus!
