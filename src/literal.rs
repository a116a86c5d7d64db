use crate::token::InvocationError;
use vstd::prelude::*;

verus! {

#[verifier::external_type_specification]
#[verifier::external_body]
pub struct ExParseError(litrs::ParseError);

/// The value of the string literal (plain or raw, with or without a suffix)
/// written as `raw`, with its escapes resolved; `None` where `raw` is not such
/// a literal.
pub uninterp spec fn string_lit_value(raw: Seq<char>) -> Option<Seq<char>>;

/// Text that the literal parser can take without cutting a character in two:
/// it holds no backslash, or it ends in an ASCII character.
pub open spec fn parsable_text(raw: Seq<char>) -> bool {
    raw.len() == 0 || (raw.last() as u32) < 128 || !raw.contains('\\')
}

/// The value read from the literal written as `raw`: `None` where it is no
/// string literal, or where it is text that the parser cannot take.
pub open spec fn literal_value(raw: Seq<char>) -> Option<Seq<char>> {
    if parsable_text(raw) {
        string_lit_value(raw)
    } else {
        None
    }
}

/// Relies on litrs::StringLit::parse, which accepts exactly the string and
/// raw string literals, and on StringLit::value, the literal's value. The
/// parser slices up to the byte before the last one when it meets a backslash,
/// so the text must not pair a backslash with a non-ASCII last character.
#[verifier::external_body]
fn parse_string_lit(raw: &str) -> (r: Result<String, litrs::ParseError>)
    requires
        parsable_text(raw@),
    ensures
        r is Ok <==> string_lit_value(raw@) is Some,
        r is Ok ==> string_lit_value(raw@) == Some(r->Ok_0@),
{
    match litrs::StringLit::parse(raw) {
        Ok(lit) => Ok(lit.value().to_string()),
        Err(e) => Err(e),
    }
}

/// Whether the literal parser can take `raw`.
pub fn is_parsable_text(raw: &str) -> (r: bool)
    ensures
        r == parsable_text(raw@),
{
    let n = raw.unicode_len();
    if n == 0 {
        return true;
    }
    let last = raw.get_char(n - 1);
    if (last as u32) < 128 {
        return true;
    }
    assert(raw@.last() == last);
    let mut i: usize = 0;
    while i < n
        invariant
            n == raw@.len(),
            n > 0,
            raw@.last() == last,
            (last as u32) >= 128,
            i <= n,
            forall|j: int| 0 <= j < i ==> raw@[j] != '\\',
        decreases n - i,
    {
        if raw.get_char(i) == '\\' {
            assert(raw@[i as int] == '\\');
            assert(raw@.contains('\\'));
            return false;
        }
        i = i + 1;
    }
    true
}

/// The value of the string literal written as `raw`.
pub fn string_value(raw: &str) -> (r: Result<String, InvocationError>)
    ensures
        match literal_value(raw@) {
            Some(v) => r is Ok && r->Ok_0@ == v,
            None => r == Err::<String, InvocationError>(InvocationError::NotAStringLiteral),
        },
{
    if !is_parsable_text(raw) {
        return Err(InvocationError::NotAStringLiteral);
    }
    match parse_string_lit(raw) {
        Ok(v) => Ok(v),
        Err(_) => Err(InvocationError::NotAStringLiteral),
    }
}

} // verus!
