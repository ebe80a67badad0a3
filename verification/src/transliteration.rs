//! The transliteration service: a pure Latin-to-Cyrillic string function
//! supplied by the `translit` crate, configured once with a fixed rule table.
use vstd::prelude::*;
use translit::FromLatin;

verus! {

/// What the configured transliterator returns on a given sequence of
/// codepoints. The rule table (GOST 7.79 System B for Russian, extended with
/// this tool's extra pairs) is fixed, so the result is a function of the
/// input characters alone; the rules themselves are outside this library, so
/// the result only carries this name.
pub uninterp spec fn transliterate_spec(s: Seq<char>) -> Seq<char>;

/// Relies on `translit::Transliterator::from_latin`: with a fixed rule table
/// it is a pure replacement pass over the input (longest rule first,
/// leftmost match first), so its result depends on the input characters
/// alone, and an empty input has nothing to match, so it stays empty.
#[verifier::external_body]
pub(crate) fn transliterate_chars(s: &Vec<char>) -> (r: String)
    ensures
        r@ == transliterate_spec(s@),
        s@.len() == 0 ==> r@.len() == 0,
{
    let text: String = s.iter().collect();
    let mut table = translit::gost779b_ru();
    table.extend(vec![
        ("ь", "'"), ("ъ", "''"), ("ы", "y'"), ("Ы", "Y'"), ("в", "w"),
        ("В", "W"), ("э", "e'"), ("Э", "E'"), ("Х", "H"), ("х", "h"),
    ]);
    translit::Transliterator::new(table).from_latin(&text)
}

} // verus!
