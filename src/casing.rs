use convert_case::Casing;
use vstd::prelude::*;

verus! {

/// A naming convention: how words are separated and capitalised.
#[derive(Clone, Copy, Debug, PartialEq, Eq, Structural)]
pub enum Case {
    /// `flatlowercase`
    Flat,
    /// `FLATUPPERCASE`
    UpperFlat,
    /// `snake_case`
    Snake,
    /// `UPPER_SNAKE_CASE`
    UpperSnake,
    /// `camelCase`
    Camel,
    /// `PascalCase`
    Pascal,
    /// `kebab-case`
    Kebab,
    /// `UPPER-KEBAB-CASE`
    UpperKebab,
    /// `Train-Case`
    Train,
    /// `lower case`
    Lower,
    /// `UPPER CASE`
    Upper,
    /// `Title Case`
    Title,
}

/// The text that convert_case makes of `text` in the given case: the words
/// found at its boundaries, joined by the case's delimiter and pattern.
pub uninterp spec fn cased(text: Seq<char>, case: Case) -> Seq<char>;

/// Relies on convert_case's `Casing::to_case` for `&str`, which splits the
/// text into words and joins them again in the given case; its result depends
/// on the text and the case alone.
#[verifier::external_body]
fn to_case(text: &str, case: Case) -> (r: String)
    ensures
        r@ == cased(text@, case),
{
    let outer = match case {
        Case::Flat => convert_case::Case::Flat,
        Case::UpperFlat => convert_case::Case::UpperFlat,
        Case::Snake => convert_case::Case::Snake,
        Case::UpperSnake => convert_case::Case::UpperSnake,
        Case::Camel => convert_case::Case::Camel,
        Case::Pascal => convert_case::Case::Pascal,
        Case::Kebab => convert_case::Case::Kebab,
        Case::UpperKebab => convert_case::Case::UpperKebab,
        Case::Train => convert_case::Case::Train,
        Case::Lower => convert_case::Case::Lower,
        Case::Upper => convert_case::Case::Upper,
        Case::Title => convert_case::Case::Title,
    };
    text.to_case(outer)
}

/// Converts `text` to the given case.
pub fn convert(text: &str, case: Case) -> (r: String)
    ensures
        r@ == cased(text@, case),
{
    to_case(text, case)
}

/// Converting the same text to the same case twice gives the same text.
pub proof fn lemma_convert_deterministic(text: Seq<char>, case: Case, r1: Seq<char>, r2: Seq<char>)
    requires
        r1 == cased(text, case),
        r2 == cased(text, case),
    ensures
        r1 == r2,
{
}

} // verus!
