use vstd::prelude::*;

verus! {

/// Whether `c` has the Unicode property XID_Start.
pub uninterp spec fn xid_start(c: char) -> bool;

/// Whether `c` has the Unicode property XID_Continue.
pub uninterp spec fn xid_continue(c: char) -> bool;

/// Relies on unicode_ident::is_xid_start: whether the character has the
/// Unicode property XID_Start.
#[verifier::external_body]
fn has_xid_start(c: char) -> (r: bool)
    ensures
        r == xid_start(c),
{
    unicode_ident::is_xid_start(c)
}

/// Relies on unicode_ident::is_xid_continue: whether the character has the
/// Unicode property XID_Continue.
#[verifier::external_body]
fn has_xid_continue(c: char) -> (r: bool)
    ensures
        r == xid_continue(c),
{
    unicode_ident::is_xid_continue(c)
}

/// `a` to `z` and `A` to `Z`.
pub open spec fn is_ascii_letter(c: char) -> bool {
    ('a' <= c && c <= 'z') || ('A' <= c && c <= 'Z')
}

/// `0` to `9`.
pub open spec fn is_ascii_digit(c: char) -> bool {
    '0' <= c && c <= '9'
}

/// A character that may begin an identifier: `_`, or XID_Start (among ASCII
/// characters, the letters).
pub open spec fn ident_start(c: char) -> bool {
    if (c as u32) < 128 {
        c == '_' || is_ascii_letter(c)
    } else {
        xid_start(c)
    }
}

/// A character that may follow in an identifier: XID_Continue (among ASCII
/// characters, the letters, the digits and `_`).
pub open spec fn ident_continue(c: char) -> bool {
    if (c as u32) < 128 {
        c == '_' || is_ascii_letter(c) || is_ascii_digit(c)
    } else {
        xid_continue(c)
    }
}

/// Text that forms an identifier token: a start character, then any number of
/// continue characters.
pub open spec fn is_ident_text(s: Seq<char>) -> bool {
    &&& s.len() > 0
    &&& ident_start(s[0])
    &&& forall|i: int| 1 <= i < s.len() ==> #[trigger] ident_continue(s[i])
}

fn is_start_char(c: char) -> (r: bool)
    ensures
        r == ident_start(c),
{
    if (c as u32) < 128 {
        c == '_' || ('a' <= c && c <= 'z') || ('A' <= c && c <= 'Z')
    } else {
        has_xid_start(c)
    }
}

fn is_continue_char(c: char) -> (r: bool)
    ensures
        r == ident_continue(c),
{
    if (c as u32) < 128 {
        c == '_' || ('a' <= c && c <= 'z') || ('A' <= c && c <= 'Z') || ('0' <= c && c <= '9')
    } else {
        has_xid_continue(c)
    }
}

/// Whether `s` can be made into an identifier token.
pub fn is_ident(s: &str) -> (r: bool)
    ensures
        r == is_ident_text(s@),
{
    let n = s.unicode_len();
    if n == 0 {
        return false;
    }
    if !is_start_char(s.get_char(0)) {
        return false;
    }
    let mut i: usize = 1;
    while i < n
        invariant
            n == s@.len(),
            1 <= i <= n,
            forall|j: int| 1 <= j < i ==> #[trigger] ident_continue(s@[j]),
        decreases n - i,
    {
        if !is_continue_char(s.get_char(i)) {
            return false;
        }
        i = i + 1;
    }
    true
}

/// Text that begins with a digit is no identifier.
pub proof fn lemma_leading_digit_not_ident(s: Seq<char>)
    requires
        s.len() > 0,
        is_ascii_digit(s[0]),
    ensures
        !is_ident_text(s),
{
}

} // verus!
