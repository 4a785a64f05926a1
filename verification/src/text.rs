//! Character-level building blocks: Unicode whitespace, trimming, decimal
//! formatting and parsing, string comparison and percent-encoding of UTF-8 bytes.
use vstd::prelude::*;
use vstd::utf8::*;

verus! {

broadcast use vstd::utf8::encode_utf8_decode_utf8;

// ---------------------------------------------------------------------------
// Whitespace and trimming
// ---------------------------------------------------------------------------

/// The Unicode `White_Space` property, which is what `char::is_whitespace`
/// and `str::trim` test.
pub open spec fn is_whitespace_spec(c: char) -> bool {
    let u = c as u32;
    ||| 0x09 <= u <= 0x0d
    ||| u == 0x20
    ||| u == 0x85
    ||| u == 0xa0
    ||| u == 0x1680
    ||| 0x2000 <= u <= 0x200a
    ||| u == 0x2028
    ||| u == 0x2029
    ||| u == 0x202f
    ||| u == 0x205f
    ||| u == 0x3000
}

/// A text is blank when every character of it is whitespace (the empty text is blank).
pub open spec fn is_blank_spec(s: Seq<char>) -> bool {
    forall|i: int| 0 <= i < s.len() ==> is_whitespace_spec(#[trigger] s[i])
}

/// `s` without its leading whitespace.
pub open spec fn trim_start_spec(s: Seq<char>) -> Seq<char>
    decreases s.len(),
{
    if s.len() > 0 && is_whitespace_spec(s[0]) {
        trim_start_spec(s.drop_first())
    } else {
        s
    }
}

/// `s` without its trailing whitespace.
pub open spec fn trim_end_spec(s: Seq<char>) -> Seq<char>
    decreases s.len(),
{
    if s.len() > 0 && is_whitespace_spec(s.last()) {
        trim_end_spec(s.drop_last())
    } else {
        s
    }
}

/// `s` without leading and trailing whitespace, as `str::trim` gives it.
pub open spec fn trim_spec(s: Seq<char>) -> Seq<char> {
    trim_end_spec(trim_start_spec(s))
}

pub fn is_whitespace(c: char) -> (b: bool)
    ensures
        b == is_whitespace_spec(c),
{
    let u = c as u32;
    (0x09 <= u && u <= 0x0d) || u == 0x20 || u == 0x85 || u == 0xa0 || u == 0x1680 || (0x2000
        <= u && u <= 0x200a) || u == 0x2028 || u == 0x2029 || u == 0x202f || u == 0x205f || u
        == 0x3000
}

pub fn is_blank(s: &str) -> (b: bool)
    ensures
        b == is_blank_spec(s@),
{
    for c in it: s.chars()
        invariant
            it.seq() == s@,
            forall|j: int| 0 <= j < it.index() ==> is_whitespace_spec(#[trigger] s@[j]),
    {
        if !is_whitespace(c) {
            return false;
        }
    }
    true
}

proof fn lemma_trim_start_skip(s: Seq<char>, i: int)
    requires
        0 <= i <= s.len(),
        forall|j: int| 0 <= j < i ==> is_whitespace_spec(#[trigger] s[j]),
    ensures
        trim_start_spec(s) == trim_start_spec(s.subrange(i, s.len() as int)),
    decreases i,
{
    if i > 0 {
        assert(s.drop_first().subrange(i - 1, s.drop_first().len() as int) =~= s.subrange(
            i,
            s.len() as int,
        ));
        lemma_trim_start_skip(s.drop_first(), i - 1);
    } else {
        assert(s.subrange(0, s.len() as int) =~= s);
    }
}

proof fn lemma_trim_end_skip(s: Seq<char>, k: int)
    requires
        0 <= k <= s.len(),
        forall|j: int| k <= j < s.len() ==> is_whitespace_spec(#[trigger] s[j]),
    ensures
        trim_end_spec(s) == trim_end_spec(s.subrange(0, k)),
    decreases s.len() - k,
{
    if k < s.len() {
        assert(s.drop_last().subrange(0, k) =~= s.subrange(0, k));
        lemma_trim_end_skip(s.drop_last(), k);
    } else {
        assert(s.subrange(0, k) =~= s);
    }
}

/// The index of the first character of `s` that is not whitespace, or its length.
fn first_non_whitespace(s: &str) -> (i: usize)
    ensures
        i <= s@.len(),
        forall|j: int| 0 <= j < i ==> is_whitespace_spec(#[trigger] s@[j]),
        i < s@.len() ==> !is_whitespace_spec(s@[i as int]),
{
    let n = s.unicode_len();
    let mut i: usize = 0;
    while i < n
        invariant
            n == s@.len(),
            i <= n,
            forall|j: int| 0 <= j < i ==> is_whitespace_spec(#[trigger] s@[j]),
        decreases n - i,
    {
        if !is_whitespace(s.get_char(i)) {
            return i;
        }
        i = i + 1;
    }
    i
}

/// The index just past the last character of `s` that is not whitespace,
/// searching no further left than `start`.
fn end_of_non_whitespace(s: &str, start: usize) -> (end: usize)
    requires
        start <= s@.len(),
    ensures
        start <= end <= s@.len(),
        forall|j: int| end <= j < s@.len() ==> is_whitespace_spec(#[trigger] s@[j]),
        end > start ==> !is_whitespace_spec(s@[end - 1]),
{
    let n = s.unicode_len();
    let mut end: usize = n;
    while end > start
        invariant
            n == s@.len(),
            start <= end <= n,
            forall|j: int| end <= j < n ==> is_whitespace_spec(#[trigger] s@[j]),
        decreases end,
    {
        if !is_whitespace(s.get_char(end - 1)) {
            return end;
        }
        end = end - 1;
    }
    end
}

/// `str::trim`: the text without leading and trailing Unicode whitespace.
pub fn trim<'a>(s: &'a str) -> (r: &'a str)
    ensures
        r@ == trim_spec(s@),
{
    let n = s.unicode_len();
    let start = first_non_whitespace(s);
    let end = end_of_non_whitespace(s, start);
    proof {
        lemma_trim_start_skip(s@, start as int);
        let rest = s@.subrange(start as int, n as int);
        if start < n {
            assert(rest[0] == s@[start as int]);
            assert(trim_start_spec(rest) == rest);
        } else {
            assert(rest.len() == 0);
        }
        assert forall|j: int| end - start <= j < rest.len() implies is_whitespace_spec(
            #[trigger] rest[j],
        ) by {
            assert(rest[j] == s@[start + j]);
        }
        lemma_trim_end_skip(rest, end - start);
        let kept = rest.subrange(0, end - start);
        if end > start {
            assert(kept.last() == s@[end - 1]);
        }
        assert(trim_end_spec(kept) == kept);
        assert(kept =~= s@.subrange(start as int, end as int));
    }
    s.substring_char(start, end)
}

// ---------------------------------------------------------------------------
// Decimal numbers
// ---------------------------------------------------------------------------

/// The ASCII digit for `d` (`0 <= d < 10`).
pub open spec fn digit_char(d: int) -> char {
    (48 + d) as char
}

/// The decimal notation of `n`, without sign or leading zeros, as `to_string` writes it.
pub open spec fn decimal(n: nat) -> Seq<char>
    decreases n,
{
    if n < 10 {
        seq![digit_char(n as int)]
    } else {
        decimal(n / 10).push(digit_char((n % 10) as int))
    }
}

/// The decimal notation of a signed integer, with a leading `-` when it is negative.
pub open spec fn signed_decimal(n: int) -> Seq<char> {
    if n < 0 {
        seq!['-'] + decimal((-n) as nat)
    } else {
        decimal(n as nat)
    }
}

/// `String::push`: the text with one more character at its end.
#[verifier::external_body]
pub fn push_char(s: &mut String, c: char)
    ensures
        final(s)@ == old(s)@.push(c),
{
    s.push(c);
}

/// The error text `String::from_utf8` gives for bytes that are not UTF-8.
pub uninterp spec fn utf8_refusal(bytes: Seq<u8>) -> Seq<char>;

/// `String::from_utf8`: the text the bytes encode when they are valid UTF-8,
/// otherwise the error's message.
#[verifier::external_body]
pub fn utf8_text(bytes: Vec<u8>) -> (r: Result<String, String>)
    ensures
        r is Ok <==> valid_utf8(bytes@),
        r matches Ok(text) ==> text@ == decode_utf8(bytes@),
        r matches Err(detail) ==> detail@ == utf8_refusal(bytes@),
{
    match String::from_utf8(bytes) {
        Ok(text) => Ok(text),
        Err(error) => Err(error.to_string()),
    }
}

pub fn push_str(s: &mut String, t: &str)
    ensures
        final(s)@ == old(s)@ + t@,
{
    s.append(t);
}

pub fn digit(d: u64) -> (c: char)
    requires
        d < 10,
    ensures
        c == digit_char(d as int),
{
    let b: u8 = 48u8 + (d as u8);
    b as char
}

pub fn write_decimal(n: u64, out: &mut String)
    ensures
        final(out)@ == old(out)@ + decimal(n as nat),
    decreases n,
{
    if n >= 10 {
        write_decimal(n / 10, out);
    }
    let c = digit(n % 10);
    push_char(out, c);
}

/// `u64::to_string`.
pub fn u64_to_string(n: u64) -> (s: String)
    ensures
        s@ == decimal(n as nat),
{
    let mut s = String::new();
    write_decimal(n, &mut s);
    s
}

/// `u32::to_string`.
pub fn u32_to_string(n: u32) -> (s: String)
    ensures
        s@ == decimal(n as nat),
{
    u64_to_string(n as u64)
}

/// `i64::to_string`.
pub fn i64_to_string(n: i64) -> (s: String)
    ensures
        s@ == signed_decimal(n as int),
{
    let mut s = String::new();
    if n < 0 {
        push_char(&mut s, '-');
        let magnitude: u64 = ((-(n + 1)) as u64) + 1;
        write_decimal(magnitude, &mut s);
    } else {
        write_decimal(n as u64, &mut s);
    }
    s
}

/// `c` is an ASCII decimal digit.
pub open spec fn is_digit_spec(c: char) -> bool {
    48 <= (c as u32) <= 57
}

/// Why `str::parse::<u64>` rejects a text; the texts are those of `ParseIntError`.
#[derive(Clone, Copy, Debug, PartialEq, Eq)]
pub enum ParseIntErrorKind {
    Empty,
    InvalidDigit,
    PosOverflow,
}

impl ParseIntErrorKind {
    pub open spec fn message_spec(self) -> Seq<char> {
        match self {
            ParseIntErrorKind::Empty => "cannot parse integer from empty string"@,
            ParseIntErrorKind::InvalidDigit => "invalid digit found in string"@,
            ParseIntErrorKind::PosOverflow => "number too large to fit in target type"@,
        }
    }

    pub fn message(&self) -> (r: &'static str)
        ensures
            r@ == self.message_spec(),
    {
        match self {
            ParseIntErrorKind::Empty => "cannot parse integer from empty string",
            ParseIntErrorKind::InvalidDigit => "invalid digit found in string",
            ParseIntErrorKind::PosOverflow => "number too large to fit in target type",
        }
    }
}

/// Reading digits from left to right, stopping at the first character that is
/// not a digit or at the first digit that takes the value past `u64::MAX`.
pub open spec fn scan_digits(d: Seq<char>) -> Result<nat, ParseIntErrorKind>
    decreases d.len(),
{
    if d.len() == 0 {
        Ok(0)
    } else {
        match scan_digits(d.drop_last()) {
            Err(e) => Err(e),
            Ok(v) => if !is_digit_spec(d.last()) {
                Err(ParseIntErrorKind::InvalidDigit)
            } else if v * 10 + ((d.last() as u32) - 48) > u64::MAX {
                Err(ParseIntErrorKind::PosOverflow)
            } else {
                Ok(v * 10 + ((d.last() as u32) - 48) as nat)
            },
        }
    }
}

/// What `s.parse::<u64>()` gives: an optional `+` (not alone), then ASCII
/// digits whose value fits in 64 bits.
pub open spec fn parse_u64_spec(s: Seq<char>) -> Result<u64, ParseIntErrorKind> {
    if s.len() == 0 {
        Err(ParseIntErrorKind::Empty)
    } else if s.len() == 1 && (s[0] == '+' || s[0] == '-') {
        Err(ParseIntErrorKind::InvalidDigit)
    } else {
        let d = if s[0] == '+' { s.drop_first() } else { s };
        match scan_digits(d) {
            Ok(v) => Ok(v as u64),
            Err(e) => Err(e),
        }
    }
}

proof fn lemma_scan_bounded(d: Seq<char>)
    ensures
        scan_digits(d) matches Ok(v) ==> v <= u64::MAX,
    decreases d.len(),
{
    if d.len() > 0 {
        lemma_scan_bounded(d.drop_last());
    }
}

/// `str::parse::<u64>`.
pub fn parse_u64(s: &str) -> (r: Result<u64, ParseIntErrorKind>)
    ensures
        r == parse_u64_spec(s@),
{
    let n = s.unicode_len();
    if n == 0 {
        return Err(ParseIntErrorKind::Empty);
    }
    let first = s.get_char(0);
    if n == 1 && (first == '+' || first == '-') {
        return Err(ParseIntErrorKind::InvalidDigit);
    }
    let start: usize = if first == '+' {
        1
    } else {
        0
    };
    let ghost d = if s@[0] == '+' {
        s@.drop_first()
    } else {
        s@
    };
    assert(d =~= s@.subrange(start as int, n as int));
    let mut value: u64 = 0;
    let mut i: usize = start;
    assert(d.subrange(0, 0) =~= Seq::<char>::empty());
    while i < n
        invariant
            n == s@.len(),
            start <= i <= n,
            d =~= s@.subrange(start as int, n as int),
            d == (if s@[0] == '+' {
                s@.drop_first()
            } else {
                s@
            }),
            !(s@.len() == 1 && (s@[0] == '+' || s@[0] == '-')),
            s@.len() > 0,
            scan_digits(d.subrange(0, i - start)) == Ok::<nat, ParseIntErrorKind>(value as nat),
        decreases n - i,
    {
        let c = s.get_char(i);
        let u = c as u32;
        let ghost prefix = d.subrange(0, i - start + 1);
        assert(prefix.drop_last() =~= d.subrange(0, i - start));
        assert(prefix.last() == c);
        assert(d[i - start] == s@[i as int]);
        if u < 48 || u > 57 {
            proof {
                lemma_scan_prefix_error(d, i - start + 1, ParseIntErrorKind::InvalidDigit);
            }
            return Err(ParseIntErrorKind::InvalidDigit);
        }
        let digit_value: u64 = (u - 48) as u64;
        if value > (u64::MAX - digit_value) / 10 {
            proof {
                assert(value * 10 + digit_value > u64::MAX) by (nonlinear_arith)
                    requires
                        value > (u64::MAX - digit_value) / 10,
                        digit_value <= 9,
                ;
                lemma_scan_prefix_error(d, i - start + 1, ParseIntErrorKind::PosOverflow);
            }
            return Err(ParseIntErrorKind::PosOverflow);
        }
        assert(value * 10 + digit_value <= u64::MAX) by (nonlinear_arith)
            requires
                value <= (u64::MAX - digit_value) / 10,
                digit_value <= 9,
        ;
        value = value * 10 + digit_value;
        i = i + 1;
    }
    assert(d.subrange(0, n - start) =~= d);
    Ok(value)
}

/// Once a prefix of the digits fails, the whole scan fails the same way.
proof fn lemma_scan_prefix_error(d: Seq<char>, k: int, e: ParseIntErrorKind)
    requires
        0 <= k <= d.len(),
        scan_digits(d.subrange(0, k)) == Err::<nat, ParseIntErrorKind>(e),
    ensures
        scan_digits(d) == Err::<nat, ParseIntErrorKind>(e),
    decreases d.len() - k,
{
    if k < d.len() {
        assert(d.drop_last().subrange(0, k) =~= d.subrange(0, k));
        lemma_scan_prefix_error(d.drop_last(), k, e);
    } else {
        assert(d.subrange(0, k) =~= d);
    }
}

// ---------------------------------------------------------------------------
// Text equality
// ---------------------------------------------------------------------------

/// Two texts are compared by their UTF-8 bytes; equal bytes mean equal characters.
pub fn str_eq(a: &str, b: &str) -> (r: bool)
    ensures
        r == (a@ == b@),
{
    let x = a.as_bytes();
    let y = b.as_bytes();
    proof {
        assert(decode_utf8(encode_utf8(a@)) == a@);
        assert(decode_utf8(encode_utf8(b@)) == b@);
    }
    if x.len() != y.len() {
        return false;
    }
    let mut i: usize = 0;
    while i < x.len()
        invariant
            x@ == encode_utf8(a@),
            y@ == encode_utf8(b@),
            x@.len() == y@.len(),
            i <= x@.len(),
            forall|j: int| 0 <= j < i ==> x@[j] == y@[j],
        decreases x@.len() - i,
    {
        if x[i] != y[i] {
            return false;
        }
        i = i + 1;
    }
    assert(x@ =~= y@);
    true
}

// ---------------------------------------------------------------------------
// Percent-encoding
// ---------------------------------------------------------------------------

/// Which bytes a percent-encoder copies as they are.
pub enum ByteSet {
    /// RFC 3986 `pchar` without `%` and `/`: unreserved characters, sub-delimiters, `:` and `@`.
    PathSegment,
    /// RFC 3986 unreserved characters only: `A-Z a-z 0-9 - . _ ~`.
    Unreserved,
}

pub open spec fn is_alphanumeric_byte(b: u8) -> bool {
    (65 <= b <= 90) || (97 <= b <= 122) || (48 <= b <= 57)
}

pub open spec fn byte_set_keeps(set: ByteSet, b: u8) -> bool {
    match set {
        ByteSet::Unreserved => is_alphanumeric_byte(b) || b == 45 || b == 46 || b == 95 || b
            == 126,
        ByteSet::PathSegment => is_alphanumeric_byte(b) || b == 45 || b == 46 || b == 95 || b
            == 126 || b == 33 || b == 36 || b == 38 || b == 39 || b == 40 || b == 41 || b == 42
            || b == 43 || b == 44 || b == 59 || b == 61 || b == 58 || b == 64,
    }
}

/// Upper-case hexadecimal digit for `d` (`0 <= d < 16`).
pub open spec fn hex_upper(d: int) -> char {
    if d < 10 {
        (48 + d) as char
    } else {
        (55 + d) as char
    }
}

/// `%XX` with two upper-case hexadecimal digits.
pub open spec fn percent_byte(b: u8) -> Seq<char> {
    seq!['%', hex_upper((b / 16) as int), hex_upper((b % 16) as int)]
}

pub open spec fn encode_byte(set: ByteSet, b: u8) -> Seq<char> {
    if byte_set_keeps(set, b) {
        seq![b as char]
    } else {
        percent_byte(b)
    }
}

/// Percent-encoding of a byte sequence: kept bytes as characters, every other byte as `%XX`.
pub open spec fn percent_encode_bytes(set: ByteSet, bytes: Seq<u8>) -> Seq<char>
    decreases bytes.len(),
{
    if bytes.len() == 0 {
        seq![]
    } else {
        percent_encode_bytes(set, bytes.drop_last()) + encode_byte(set, bytes.last())
    }
}

/// Percent-encoding of the UTF-8 bytes of a text.
pub open spec fn percent_encode_spec(set: ByteSet, s: Seq<char>) -> Seq<char> {
    percent_encode_bytes(set, encode_utf8(s))
}

fn hex_digit(d: u8) -> (c: char)
    requires
        d < 16,
    ensures
        c == hex_upper(d as int),
{
    if d < 10 {
        (48u8 + d) as char
    } else {
        (55u8 + d) as char
    }
}

fn keeps(set: &ByteSet, b: u8) -> (r: bool)
    ensures
        r == byte_set_keeps(*set, b),
{
    let alnum = (65 <= b && b <= 90) || (97 <= b && b <= 122) || (48 <= b && b <= 57);
    let unreserved = alnum || b == 45 || b == 46 || b == 95 || b == 126;
    match set {
        ByteSet::Unreserved => unreserved,
        ByteSet::PathSegment => unreserved || b == 33 || b == 36 || b == 38 || b == 39 || b == 40
            || b == 41 || b == 42 || b == 43 || b == 44 || b == 59 || b == 61 || b == 58 || b
            == 64,
    }
}

/// Appends `%XX` for `b`.
pub fn push_percent_byte(out: &mut String, b: u8)
    ensures
        final(out)@ == old(out)@ + percent_byte(b),
{
    push_char(out, '%');
    push_char(out, hex_digit(b / 16));
    push_char(out, hex_digit(b % 16));
}

/// Percent-encodes the UTF-8 bytes of `value`.
pub fn percent_encode(set: ByteSet, value: &str) -> (r: String)
    ensures
        r@ == percent_encode_spec(set, value@),
{
    let bytes = value.as_bytes();
    let mut out = String::new();
    let mut i: usize = 0;
    while i < bytes.len()
        invariant
            bytes@ == encode_utf8(value@),
            i <= bytes@.len(),
            out@ == percent_encode_bytes(set, bytes@.subrange(0, i as int)),
        decreases bytes@.len() - i,
    {
        let b = bytes[i];
        proof {
            let next = bytes@.subrange(0, i + 1);
            assert(next.drop_last() =~= bytes@.subrange(0, i as int));
            assert(next.last() == b);
        }
        if keeps(&set, b) {
            push_char(&mut out, b as char);
        } else {
            push_percent_byte(&mut out, b);
        }
        i = i + 1;
    }
    assert(bytes@.subrange(0, bytes@.len() as int) =~= bytes@);
    out
}

} // verus!
