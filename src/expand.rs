use crate::casing::{cased, convert, Case};
use crate::ident::{is_ascii_digit, is_ident, is_ident_text, lemma_leading_digit_not_ident};
use crate::literal::{literal_value, string_value};
use crate::token::{result_view, Expansion, ExpansionView, InvocationError, Target, Token};
use vstd::prelude::*;

verus! {

/// The text that a token sequence hands to a conversion, with its position:
/// the name of a single identifier, or the value of a single string literal.
pub open spec fn source_text<S>(input: Seq<Token<S>>) -> Result<(Seq<char>, S), InvocationError> {
    if input.len() > 1 {
        Err(InvocationError::TooManyTokens)
    } else if input.len() == 0 {
        Err(InvocationError::WrongTokenKind)
    } else {
        match input[0] {
            Token::Ident { text, span } => Ok((text@, span)),
            Token::Literal { text, span } => match literal_value(text@) {
                Some(v) => Ok((v, span)),
                None => Err(InvocationError::NotAStringLiteral),
            },
            _ => Err(InvocationError::WrongTokenKind),
        }
    }
}

/// The token made of converted text: any text makes a string literal; only
/// identifier text makes an identifier.
pub open spec fn emitted<S>(text: Seq<char>, span: S, target: Target) -> Result<
    ExpansionView<S>,
    InvocationError,
> {
    if target == Target::Ident && !is_ident_text(text) {
        Err(InvocationError::InvalidIdent)
    } else {
        Ok(ExpansionView { target, text, span })
    }
}

/// The whole conversion: read the single token, convert its text to `case`,
/// emit it as `target`.
pub open spec fn expansion<S>(input: Seq<Token<S>>, case: Case, target: Target) -> Result<
    ExpansionView<S>,
    InvocationError,
> {
    match source_text(input) {
        Ok((text, span)) => emitted(cased(text, case), span, target),
        Err(e) => Err(e),
    }
}

/// Takes the single identifier or string literal out of `input`, and returns
/// its text (a literal's value) and position.
pub fn token_text<S>(input: Vec<Token<S>>) -> (r: Result<(String, S), InvocationError>)
    ensures
        match (r, source_text(input@)) {
            (Ok((t, sp)), Ok((t2, sp2))) => t@ == t2 && sp == sp2,
            (Err(e), Err(e2)) => e == e2,
            _ => false,
        },
{
    if input.len() > 1 {
        return Err(InvocationError::TooManyTokens);
    }
    let mut input = input;
    match input.pop() {
        Some(Token::Ident { text, span }) => Ok((text, span)),
        Some(Token::Literal { text, span }) => match string_value(text.as_str()) {
            Ok(v) => Ok((v, span)),
            Err(e) => Err(e),
        },
        _ => Err(InvocationError::WrongTokenKind),
    }
}

/// Wraps converted text as a token of kind `target` at `span`; fails where an
/// identifier is asked for and the text is not one.
pub fn emit<S>(text: String, span: S, target: Target) -> (r: Result<Expansion<S>, InvocationError>)
    ensures
        result_view(r) == emitted(text@, span, target),
{
    if target == Target::Ident && !is_ident(text.as_str()) {
        Err(InvocationError::InvalidIdent)
    } else {
        Ok(Expansion { target, text, span })
    }
}

/// Converts the single identifier or string literal in `input` to `case`, and
/// emits the result as `target`.
pub fn expand<S>(input: Vec<Token<S>>, case: Case, target: Target) -> (r: Result<
    Expansion<S>,
    InvocationError,
>)
    ensures
        result_view(r) == expansion(input@, case, target),
{
    match token_text(input) {
        Ok((text, span)) => {
            let converted = convert(text.as_str(), case);
            emit(converted, span, target)
        },
        Err(e) => Err(e),
    }
}

/// Converts the single identifier or string literal in `input` to `case`, as
/// the value of a string literal.
pub fn strify<S>(input: Vec<Token<S>>, case: Case) -> (r: Result<Expansion<S>, InvocationError>)
    ensures
        result_view(r) == expansion(input@, case, Target::Str),
{
    expand(input, case, Target::Str)
}

/// Converts the single identifier or string literal in `input` to `case`, as
/// the name of an identifier.
pub fn ident_conv<S>(input: Vec<Token<S>>, case: Case) -> (r: Result<
    Expansion<S>,
    InvocationError,
>)
    ensures
        result_view(r) == expansion(input@, case, Target::Ident),
{
    expand(input, case, Target::Ident)
}

/// For the same input and case, the string literal and the identifier carry
/// the same text at the same position. The identifier alone fails, where that
/// text is no identifier; every other failure is the same for both.
pub proof fn lemma_target_parity<S>(input: Seq<Token<S>>, case: Case)
    ensures
        match (expansion(input, case, Target::Str), expansion(input, case, Target::Ident)) {
            (Ok(a), Ok(b)) => a.text == b.text && a.span == b.span,
            (Ok(a), Err(e)) => e == InvocationError::InvalidIdent && !is_ident_text(a.text),
            (Err(e1), Err(e2)) => e1 == e2,
            (Err(_), Ok(_)) => false,
        },
{
}

/// Text that is already in a case (converting it to that case changes
/// nothing) comes out of the conversion to that case unchanged.
pub proof fn lemma_already_cased<S>(input: Seq<Token<S>>, case: Case, target: Target)
    requires
        source_text(input) is Ok,
        cased(source_text(input)->Ok_0.0, case) == source_text(input)->Ok_0.0,
        target == Target::Str || is_ident_text(source_text(input)->Ok_0.0),
    ensures
        expansion(input, case, target) == Ok::<ExpansionView<S>, InvocationError>(
            ExpansionView {
                target,
                text: source_text(input)->Ok_0.0,
                span: source_text(input)->Ok_0.1,
            },
        ),
{
}

/// A conversion is refused when given more than one token, when given a
/// token that is neither an identifier nor a literal, and, for an identifier,
/// when the converted text begins with a digit.
pub proof fn lemma_invocation_errors<S>(input: Seq<Token<S>>, case: Case, target: Target)
    ensures
        input.len() > 1 ==> expansion(input, case, target) == Err::<
            ExpansionView<S>,
            InvocationError,
        >(InvocationError::TooManyTokens),
        input.len() == 1 && (input[0] is Punct || input[0] is Group) ==> expansion(
            input,
            case,
            target,
        ) == Err::<ExpansionView<S>, InvocationError>(InvocationError::WrongTokenKind),
        ({
            let converted = cased(source_text(input)->Ok_0.0, case);
            source_text(input) is Ok && target == Target::Ident && converted.len() > 0
                && is_ascii_digit(converted[0]) ==> expansion(input, case, target) == Err::<
                ExpansionView<S>,
                InvocationError,
            >(InvocationError::InvalidIdent)
        }),
{
    let converted = cased(source_text(input)->Ok_0.0, case);
    if source_text(input) is Ok && converted.len() > 0 && is_ascii_digit(converted[0]) {
        lemma_leading_digit_not_ident(converted);
    }
}

} // verus!
