use vstd::prelude::*;

verus! {

/// One token handed to a conversion. `S` is the token's source position,
/// which is carried over to the result and never read.
pub enum Token<S> {
    /// An identifier, as written.
    Ident { text: String, span: S },
    /// A literal, as written in the source (quotes, escapes and suffix included).
    Literal { text: String, span: S },
    /// A punctuation character.
    Punct { ch: char, span: S },
    /// A delimited group, as written.
    Group { text: String, span: S },
}

/// What kind of token a conversion emits.
#[derive(Clone, Copy, Debug, PartialEq, Eq, Structural)]
pub enum Target {
    /// A string literal whose value is the converted text.
    Str,
    /// An identifier whose name is the converted text.
    Ident,
}

/// Why a conversion was refused.
#[derive(Clone, Copy, Debug, PartialEq, Eq, Structural)]
pub enum InvocationError {
    /// More than one token was given.
    TooManyTokens,
    /// No token was given, or one that is neither an identifier nor a literal.
    WrongTokenKind,
    /// The literal given is not a string literal.
    NotAStringLiteral,
    /// The converted text cannot form an identifier.
    InvalidIdent,
}

/// The message that reports an error.
pub open spec fn error_message(e: InvocationError) -> Seq<char> {
    match e {
        InvocationError::TooManyTokens => "Too many items, expect an ident or a string literal."@,
        InvocationError::WrongTokenKind => "Expect an ident or a string literal"@,
        InvocationError::NotAStringLiteral => "Expect an ident or a string literal"@,
        InvocationError::InvalidIdent => "The converted text is not a valid identifier"@,
    }
}

impl InvocationError {
    /// The message reported for this error.
    pub fn message(&self) -> (r: &'static str)
        ensures
            r@ == error_message(*self),
    {
        match self {
            InvocationError::TooManyTokens => "Too many items, expect an ident or a string literal.",
            InvocationError::WrongTokenKind => "Expect an ident or a string literal",
            InvocationError::NotAStringLiteral => "Expect an ident or a string literal",
            InvocationError::InvalidIdent => "The converted text is not a valid identifier",
        }
    }
}

/// The result of a conversion: a token of kind `target` holding `text`, at
/// the position of the token it was made from.
pub struct Expansion<S> {
    pub target: Target,
    pub text: String,
    pub span: S,
}

/// An `Expansion` with its text as a sequence of characters.
pub struct ExpansionView<S> {
    pub target: Target,
    pub text: Seq<char>,
    pub span: S,
}

impl<S> View for Expansion<S> {
    type V = ExpansionView<S>;

    open spec fn view(&self) -> ExpansionView<S> {
        ExpansionView { target: self.target, text: self.text@, span: self.span }
    }
}

/// A conversion's result, with an expansion seen through its view.
pub open spec fn result_view<S>(r: Result<Expansion<S>, InvocationError>) -> Result<
    ExpansionView<S>,
    InvocationError,
> {
    match r {
        Ok(x) => Ok(x@),
        Err(e) => Err(e),
    }
}

} // verus!
