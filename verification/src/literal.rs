//! String literals of the API's enumerations: each value has one text.
use vstd::prelude::*;

verus! {

/// An enumeration whose values the API writes as fixed texts.
pub trait Literal: Sized {
    /// The text the API uses for this value.
    spec fn literal(&self) -> Seq<char>;

    /// The text, as an owned string.
    fn to_text(&self) -> (r: String)
        ensures
            r@ == self.literal(),
    ;
}

/// The text of an optional value.
pub open spec fn opt_literal<E: Literal>(value: Option<E>) -> Option<Seq<char>> {
    match value {
        Some(v) => Some(v.literal()),
        None => None,
    }
}

/// The texts of a list of values, in order.
pub open spec fn literals<E: Literal>(values: Seq<E>) -> Seq<Seq<char>> {
    values.map_values(|v: E| v.literal())
}

} // verus!

verus! {

/// An enumeration of known texts that also keeps any other text it receives.
pub trait OpenLiteral: Literal {
    /// The known value a text names, if any.
    spec fn known(text: Seq<char>) -> Option<Self>;

    /// The value is a text no known variant uses.
    spec fn is_unknown(&self) -> bool;

    proof fn lemma_known_literal(value: Self)
        requires
            !value.is_unknown(),
        ensures
            Self::known(value.literal()) == Some(value),
    ;

    proof fn lemma_known_text(text: Seq<char>)
        ensures
            Self::known(text) matches Some(k) ==> k.literal() == text && !k.is_unknown(),
    ;
}

/// Reading back the text of a known value gives that value.
pub proof fn law_known_literal_round_trip<E: OpenLiteral>(value: E)
    requires
        !value.is_unknown(),
    ensures
        E::known(value.literal()) == Some(value),
{
    E::lemma_known_literal(value);
}

/// A text that names a known value is exactly that value's text.
pub proof fn law_known_text_round_trip<E: OpenLiteral>(text: Seq<char>)
    ensures
        E::known(text) matches Some(k) ==> k.literal() == text,
{
    E::lemma_known_text(text);
}

} // verus!
