//! Query strings: ordered key/value pairs and their encodings behind a path.
use vstd::prelude::*;
use vstd::utf8::encode_utf8;
use crate::text::{hex_upper, percent_byte, percent_encode, percent_encode_spec, push_char, push_str, ByteSet};

verus! {

/// The characters of each key and value, in order.
pub open spec fn pairs_view(pairs: Seq<(String, String)>) -> Seq<(Seq<char>, Seq<char>)> {
    pairs.map_values(|p: (String, String)| (p.0@, p.1@))
}

/// One pair when a value is present, none otherwise.
pub open spec fn opt_pair(key: Seq<char>, value: Option<Seq<char>>) -> Seq<(Seq<char>, Seq<char>)> {
    match value {
        Some(v) => seq![(key, v)],
        None => seq![],
    }
}

/// The same key repeated once for each value, in order.
pub open spec fn repeated_pairs(key: Seq<char>, values: Seq<Seq<char>>) -> Seq<
    (Seq<char>, Seq<char>),
> {
    values.map_values(|v: Seq<char>| (key, v))
}

/// The characters of an optional text.
pub open spec fn opt_view(value: Option<String>) -> Option<Seq<char>> {
    match value {
        Some(v) => Some(v@),
        None => None,
    }
}

/// The characters of each text, in order.
pub open spec fn texts_view(values: Seq<String>) -> Seq<Seq<char>> {
    values.map_values(|v: String| v@)
}

// ---------------------------------------------------------------------------
// application/x-www-form-urlencoded
// ---------------------------------------------------------------------------

/// Bytes that form-urlencoding copies as they are: `*-._`, digits and ASCII letters.
pub open spec fn form_keeps(b: u8) -> bool {
    b == 42 || b == 45 || b == 46 || b == 95 || (48 <= b <= 57) || (65 <= b <= 90) || (97 <= b
        <= 122)
}

pub open spec fn form_byte(b: u8) -> Seq<char> {
    if b == 32 {
        seq!['+']
    } else if form_keeps(b) {
        seq![b as char]
    } else {
        percent_byte(b)
    }
}

pub open spec fn form_bytes(bytes: Seq<u8>) -> Seq<char>
    decreases bytes.len(),
{
    if bytes.len() == 0 {
        seq![]
    } else {
        form_bytes(bytes.drop_last()) + form_byte(bytes.last())
    }
}

/// A key or value as form-urlencoding writes it: its UTF-8 bytes, spaces as `+`.
pub open spec fn form_component(s: Seq<char>) -> Seq<char> {
    form_bytes(encode_utf8(s))
}

/// `key=value`, each part encoded by `encode`.
pub open spec fn joined_pair(
    encode: spec_fn(Seq<char>) -> Seq<char>,
    p: (Seq<char>, Seq<char>),
) -> Seq<char> {
    encode(p.0) + seq!['='] + encode(p.1)
}

/// The pairs written as `k1=v1&k2=v2...`, each part encoded by `encode`.
pub open spec fn joined_query(
    encode: spec_fn(Seq<char>) -> Seq<char>,
    pairs: Seq<(Seq<char>, Seq<char>)>,
) -> Seq<char>
    decreases pairs.len(),
{
    if pairs.len() == 0 {
        seq![]
    } else if pairs.len() == 1 {
        joined_pair(encode, pairs[0])
    } else {
        joined_query(encode, pairs.drop_last()) + seq!['&'] + joined_pair(encode, pairs.last())
    }
}

/// An application/x-www-form-urlencoded query string.
pub open spec fn form_query(pairs: Seq<(Seq<char>, Seq<char>)>) -> Seq<char> {
    joined_query(|s: Seq<char>| form_component(s), pairs)
}

/// A query string whose parts keep only RFC 3986 unreserved characters.
pub open spec fn percent_query(pairs: Seq<(Seq<char>, Seq<char>)>) -> Seq<char> {
    joined_query(|s: Seq<char>| percent_encode_spec(ByteSet::Unreserved, s), pairs)
}

/// A path followed by `?` and its query, or the bare path when there are no pairs.
pub open spec fn with_query(path: Seq<char>, query: Seq<char>, has_pairs: bool) -> Seq<char> {
    if has_pairs {
        path + seq!['?'] + query
    } else {
        path
    }
}

/// `url::form_urlencoded::Serializer`, fed every pair in order and finished.
/// The serializer writes `name=value` pairs joined by `&`, writing each UTF-8
/// byte of a name or value as itself when it is `*`, `-`, `.`, `_`, an ASCII
/// digit or letter, a space as `+`, and any other byte as `%XX` in upper case.
#[verifier::external_body]
fn form_urlencoded_serialize(pairs: &[(String, String)]) -> (r: String)
    ensures
        r@ == form_query(pairs_view(pairs@)),
{
    url::form_urlencoded::Serializer::new(String::new()).extend_pairs(pairs.iter()).finish()
}

/// Appends the form-urlencoded query to `base` after a `?`, unless there are no pairs.
pub fn path_with_query(base: String, pairs: &[(String, String)]) -> (r: String)
    ensures
        r@ == with_query(base@, form_query(pairs_view(pairs@)), pairs@.len() > 0),
{
    if pairs.len() == 0 {
        return base;
    }
    let query = form_urlencoded_serialize(pairs);
    let mut path = base;
    push_char(&mut path, '?');
    push_str(&mut path, query.as_str());
    path
}

/// Appends `k=v&...` after a `?`, percent-encoding every byte that is not unreserved.
pub fn append_percent_query(path: &str, pairs: &Vec<(String, String)>) -> (r: String)
    ensures
        r@ == with_query(path@, percent_query(pairs_view(pairs@)), pairs@.len() > 0),
{
    let mut out = path.to_string();
    if pairs.len() == 0 {
        return out;
    }
    push_char(&mut out, '?');
    let ghost start = out@;
    let ghost enc = |s: Seq<char>| percent_encode_spec(ByteSet::Unreserved, s);
    let mut i: usize = 0;
    while i < pairs.len()
        invariant
            0 < pairs@.len(),
            i <= pairs@.len(),
            enc == (|s: Seq<char>| percent_encode_spec(ByteSet::Unreserved, s)),
            out@ == start + joined_query(enc, pairs_view(pairs@).subrange(0, i as int)),
        decreases pairs@.len() - i,
    {
        let ghost before = pairs_view(pairs@).subrange(0, i as int);
        let ghost after = pairs_view(pairs@).subrange(0, i + 1);
        assert(after.drop_last() =~= before);
        assert(after.last() == (pairs@[i as int].0@, pairs@[i as int].1@));
        if i > 0 {
            push_char(&mut out, '&');
        }
        let key = percent_encode(ByteSet::Unreserved, pairs[i].0.as_str());
        let value = percent_encode(ByteSet::Unreserved, pairs[i].1.as_str());
        push_str(&mut out, key.as_str());
        push_char(&mut out, '=');
        push_str(&mut out, value.as_str());
        proof {
            if i == 0 {
                assert(before.len() == 0);
            }
        }
        i = i + 1;
    }
    assert(pairs_view(pairs@).subrange(0, pairs@.len() as int) =~= pairs_view(pairs@));
    out
}

} // verus!

use crate::literal::{literals, opt_literal, Literal};
use crate::text::{decimal, signed_decimal, i64_to_string, u32_to_string, u64_to_string};

verus! {

/// A number written in decimal, when present.
pub open spec fn opt_decimal(value: Option<u64>) -> Option<Seq<char>> {
    match value {
        Some(n) => Some(decimal(n as nat)),
        None => None,
    }
}

/// `true` or `false`, when present.
pub open spec fn opt_bool_text(value: Option<bool>) -> Option<Seq<char>> {
    match value {
        Some(true) => Some("true"@),
        Some(false) => Some("false"@),
        None => None,
    }
}

pub open spec fn opt_u32_decimal(value: Option<u32>) -> Option<Seq<char>> {
    match value {
        Some(n) => Some(decimal(n as nat)),
        None => None,
    }
}

pub open spec fn opt_i64_decimal(value: Option<i64>) -> Option<Seq<char>> {
    match value {
        Some(n) => Some(signed_decimal(n as int)),
        None => None,
    }
}

/// The key repeated once per value when a list is present, nothing otherwise.
pub open spec fn opt_repeated(key: Seq<char>, values: Option<Seq<Seq<char>>>) -> Seq<
    (Seq<char>, Seq<char>),
> {
    match values {
        Some(v) => repeated_pairs(key, v),
        None => seq![],
    }
}

pub open spec fn opt_texts(values: Option<Vec<String>>) -> Option<Seq<Seq<char>>> {
    match values {
        Some(v) => Some(texts_view(v@)),
        None => None,
    }
}

pub open spec fn opt_literals<E: Literal>(values: Option<Vec<E>>) -> Option<Seq<Seq<char>>> {
    match values {
        Some(v) => Some(literals(v@)),
        None => None,
    }
}

/// An ordered list of query pairs under construction.
#[derive(Clone, Debug)]
pub struct QueryPairs {
    pairs: Vec<(String, String)>,
}

impl View for QueryPairs {
    type V = Seq<(Seq<char>, Seq<char>)>;

    closed spec fn view(&self) -> Seq<(Seq<char>, Seq<char>)> {
        pairs_view(self.pairs@)
    }
}

impl QueryPairs {
    pub fn new() -> (q: QueryPairs)
        ensures
            q@ == Seq::<(Seq<char>, Seq<char>)>::empty(),
    {
        let q = QueryPairs { pairs: Vec::new() };
        assert(q@ =~= Seq::<(Seq<char>, Seq<char>)>::empty());
        q
    }

    pub fn from_vec(pairs: Vec<(String, String)>) -> (q: QueryPairs)
        ensures
            q@ == pairs_view(pairs@),
    {
        QueryPairs { pairs }
    }

    pub fn into_vec(self) -> (v: Vec<(String, String)>)
        ensures
            pairs_view(v@) == self@,
    {
        self.pairs
    }

    pub fn as_slice(&self) -> (s: &[(String, String)])
        ensures
            pairs_view(s@) == self@,
    {
        self.pairs.as_slice()
    }

    /// The pairs, in order.
    pub fn pairs(&self) -> (s: &[(String, String)])
        ensures
            pairs_view(s@) == self@,
    {
        self.pairs.as_slice()
    }

    pub fn len(&self) -> (n: usize)
        ensures
            n == self@.len(),
    {
        self.pairs.len()
    }

    pub fn push(&mut self, key: &str, value: String)
        ensures
            final(self)@ == old(self)@.push((key@, value@)),
    {
        self.pairs.push((key.to_string(), value));
        assert(pairs_view(self.pairs@) =~= pairs_view(old(self).pairs@).push((key@, value@)));
    }

    pub fn push_opt(&mut self, key: &str, value: Option<String>)
        ensures
            final(self)@ == old(self)@ + opt_pair(key@, opt_view(value)),
    {
        match value {
            Some(v) => {
                self.push(key, v);
                assert(final(self)@ =~= old(self)@ + opt_pair(key@, opt_view(value)));
            },
            None => {
                assert(self@ =~= old(self)@ + opt_pair(key@, opt_view(value)));
            },
        }
    }

    pub fn push_opt_u32(&mut self, key: &str, value: Option<u32>)
        ensures
            final(self)@ == old(self)@ + opt_pair(key@, opt_u32_decimal(value)),
    {
        let text = match value {
            Some(n) => Some(u32_to_string(n)),
            None => None,
        };
        self.push_opt(key, text);
    }

    pub fn push_opt_u64(&mut self, key: &str, value: Option<u64>)
        ensures
            final(self)@ == old(self)@ + opt_pair(key@, opt_decimal(value)),
    {
        let text = match value {
            Some(n) => Some(u64_to_string(n)),
            None => None,
        };
        self.push_opt(key, text);
    }

    pub fn push_opt_i64(&mut self, key: &str, value: Option<i64>)
        ensures
            final(self)@ == old(self)@ + opt_pair(key@, opt_i64_decimal(value)),
    {
        let text = match value {
            Some(n) => Some(i64_to_string(n)),
            None => None,
        };
        self.push_opt(key, text);
    }

    pub fn push_opt_bool(&mut self, key: &str, value: Option<bool>)
        ensures
            final(self)@ == old(self)@ + opt_pair(key@, opt_bool_text(value)),
    {
        let text = match value {
            Some(true) => Some("true".to_string()),
            Some(false) => Some("false".to_string()),
            None => None,
        };
        self.push_opt(key, text);
    }

    pub fn push_opt_literal<E: Literal>(&mut self, key: &str, value: &Option<E>)
        ensures
            final(self)@ == old(self)@ + opt_pair(key@, opt_literal(*value)),
    {
        let text = match value {
            Some(v) => Some(v.to_text()),
            None => None,
        };
        self.push_opt(key, text);
    }

    pub fn push_repeated(&mut self, key: &str, values: &Vec<String>)
        ensures
            final(self)@ == old(self)@ + repeated_pairs(key@, texts_view(values@)),
    {
        let ghost start = self@;
        let mut i: usize = 0;
        while i < values.len()
            invariant
                i <= values@.len(),
                self@ == start + repeated_pairs(key@, texts_view(values@.subrange(0, i as int))),
            decreases values@.len() - i,
        {
            self.push(key, values[i].clone());
            assert(texts_view(values@.subrange(0, i + 1)) =~= texts_view(
                values@.subrange(0, i as int),
            ).push(values@[i as int]@));
            assert(repeated_pairs(key@, texts_view(values@.subrange(0, i + 1))) =~= repeated_pairs(
                key@,
                texts_view(values@.subrange(0, i as int)),
            ).push((key@, values@[i as int]@)));
            i = i + 1;
        }
        assert(values@.subrange(0, values@.len() as int) =~= values@);
    }

    pub fn push_repeated_literals<E: Literal>(&mut self, key: &str, values: &Vec<E>)
        ensures
            final(self)@ == old(self)@ + repeated_pairs(key@, literals(values@)),
    {
        let ghost start = self@;
        let mut i: usize = 0;
        while i < values.len()
            invariant
                i <= values@.len(),
                self@ == start + repeated_pairs(key@, literals(values@.subrange(0, i as int))),
            decreases values@.len() - i,
        {
            let text = values[i].to_text();
            self.push(key, text);
            assert(literals(values@.subrange(0, i + 1)) =~= literals(
                values@.subrange(0, i as int),
            ).push(values@[i as int].literal()));
            assert(repeated_pairs(key@, literals(values@.subrange(0, i + 1))) =~= repeated_pairs(
                key@,
                literals(values@.subrange(0, i as int)),
            ).push((key@, values@[i as int].literal())));
            i = i + 1;
        }
        assert(values@.subrange(0, values@.len() as int) =~= values@);
    }

    pub fn push_repeated_opt(&mut self, key: &str, values: &Option<Vec<String>>)
        ensures
            final(self)@ == old(self)@ + opt_repeated(key@, opt_texts(*values)),
    {
        match values {
            Some(v) => self.push_repeated(key, v),
            None => {
                assert(self@ =~= old(self)@ + opt_repeated(key@, opt_texts(*values)));
            },
        }
    }

    pub fn push_repeated_opt_literals<E: Literal>(&mut self, key: &str, values: &Option<Vec<E>>)
        ensures
            final(self)@ == old(self)@ + opt_repeated(key@, opt_literals(*values)),
    {
        match values {
            Some(v) => self.push_repeated_literals(key, v),
            None => {
                assert(self@ =~= old(self)@ + opt_repeated(key@, opt_literals(*values)));
            },
        }
    }

    /// Repeats `key[]` once per value, when there are values.
    pub fn push_array_opt_literals<E: Literal>(&mut self, key: &str, values: &Option<Vec<E>>)
        ensures
            final(self)@ == old(self)@ + opt_repeated(key@ + "[]"@, opt_literals(*values)),
    {
        let mut array_key = key.to_string();
        push_str(&mut array_key, "[]");
        self.push_repeated_opt_literals(array_key.as_str(), values);
    }
}

} // verus!

verus! {

/// The query key `i n c l u d e`, spelled out character by character.
pub open spec fn inclusion_key() -> Seq<char> {
    seq!['i', 'n', 'c', 'l', 'u', 'd', 'e']
}

pub fn inclusion_key_text() -> (r: String)
    ensures
        r@ == inclusion_key(),
{
    let mut r = String::new();
    push_char(&mut r, 'i');
    push_char(&mut r, 'n');
    push_char(&mut r, 'c');
    push_char(&mut r, 'l');
    push_char(&mut r, 'u');
    push_char(&mut r, 'd');
    push_char(&mut r, 'e');
    assert(r@ =~= inclusion_key());
    r
}

/// The cursor of the next page of a list whose pages end at their last
/// item: that item's id, when the server reports more pages.
pub fn next_cursor<'a>(has_more: bool, last_id: Option<&'a str>) -> (r: Option<&'a str>)
    ensures
        r == (if has_more {
            last_id
        } else {
            None
        }),
{
    if has_more {
        last_id
    } else {
        None
    }
}

/// A character that would split a query into other pairs or parts.
pub open spec fn splits_query(c: char) -> bool {
    c == '&' || c == '=' || c == '#'
}

proof fn lemma_form_byte_stays_in_component(b: u8)
    ensures
        forall|i: int| 0 <= i < form_byte(b).len() ==> !splits_query(#[trigger] form_byte(b)[i]),
{
    if b == 32 {
    } else if form_keeps(b) {
        assert((b as char) as u32 == b);
    } else {
        let hi = (b / 16) as int;
        let lo = (b % 16) as int;
        assert(0 <= hi < 16 && 0 <= lo < 16);
        assert(hex_upper(hi) as u32 == if hi < 10 { 48 + hi } else { 55 + hi });
        assert(hex_upper(lo) as u32 == if lo < 10 { 48 + lo } else { 55 + lo });
    }
}

proof fn lemma_form_bytes_stay_in_component(bytes: Seq<u8>)
    ensures
        forall|i: int| 0 <= i < form_bytes(bytes).len() ==> !splits_query(#[trigger] form_bytes(bytes)[i]),
    decreases bytes.len(),
{
    if bytes.len() > 0 {
        lemma_form_bytes_stay_in_component(bytes.drop_last());
        lemma_form_byte_stays_in_component(bytes.last());
        let front = form_bytes(bytes.drop_last());
        let back = form_byte(bytes.last());
        assert forall|i: int| 0 <= i < (front + back).len() implies !splits_query(#[trigger] (front + back)[i]) by {
            if i < front.len() {
                assert((front + back)[i] == front[i]);
            } else {
                assert((front + back)[i] == back[i - front.len()]);
            }
        }
    }
}

/// A form-encoded key or value stays one component: whatever it holds, its
/// encoded form has no `&`, `=` or `#`, so a query splits back into the pairs
/// it was built from.
pub proof fn law_form_component_unambiguous(s: Seq<char>)
    ensures
        forall|i: int| 0 <= i < form_component(s).len() ==> !splits_query(#[trigger] form_component(s)[i]),
{
    lemma_form_bytes_stay_in_component(encode_utf8(s));
}

/// A listing without query pairs asks for the bare path.
pub proof fn law_no_pairs_bare_path(path: Seq<char>, pairs: Seq<(Seq<char>, Seq<char>)>)
    requires
        pairs.len() == 0,
    ensures
        with_query(path, form_query(pairs), pairs.len() > 0) == path,
        with_query(path, percent_query(pairs), pairs.len() > 0) == path,
{
}

} // verus!
