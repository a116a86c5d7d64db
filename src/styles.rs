//! One entry point per case and kind of result. Each takes the tokens it was
//! invoked with, and converts the single identifier or string literal among
//! them.

use crate::casing::Case;
use crate::expand::{expansion, ident_conv, strify};
use crate::token::{result_view, Expansion, InvocationError, Target, Token};
use vstd::prelude::*;

verus! {

/// Converts an identifier or a string literal to a `flatlowercase` string literal.
pub fn lower_strify<S>(input: Vec<Token<S>>) -> (r: Result<Expansion<S>, InvocationError>)
    ensures
        result_view(r) == expansion(input@, Case::Flat, Target::Str),
{
    strify(input, Case::Flat)
}

/// Converts an identifier or a string literal to a `FLATUPPERCASE` string literal.
pub fn upper_strify<S>(input: Vec<Token<S>>) -> (r: Result<Expansion<S>, InvocationError>)
    ensures
        result_view(r) == expansion(input@, Case::UpperFlat, Target::Str),
{
    strify(input, Case::UpperFlat)
}

/// Converts an identifier or a string literal to a `snake_case` string literal.
pub fn snake_strify<S>(input: Vec<Token<S>>) -> (r: Result<Expansion<S>, InvocationError>)
    ensures
        result_view(r) == expansion(input@, Case::Snake, Target::Str),
{
    strify(input, Case::Snake)
}

/// Converts an identifier or a string literal to an `UPPER_SNAKE_CASE` string literal.
pub fn usnake_strify<S>(input: Vec<Token<S>>) -> (r: Result<Expansion<S>, InvocationError>)
    ensures
        result_view(r) == expansion(input@, Case::UpperSnake, Target::Str),
{
    strify(input, Case::UpperSnake)
}

/// Converts an identifier or a string literal to a `camelCase` string literal.
pub fn camel_strify<S>(input: Vec<Token<S>>) -> (r: Result<Expansion<S>, InvocationError>)
    ensures
        result_view(r) == expansion(input@, Case::Camel, Target::Str),
{
    strify(input, Case::Camel)
}

/// Converts an identifier or a string literal to a `PascalCase` string literal.
pub fn pascal_strify<S>(input: Vec<Token<S>>) -> (r: Result<Expansion<S>, InvocationError>)
    ensures
        result_view(r) == expansion(input@, Case::Pascal, Target::Str),
{
    strify(input, Case::Pascal)
}

/// Converts an identifier or a string literal to a `kebab-case` string literal.
pub fn kebab_strify<S>(input: Vec<Token<S>>) -> (r: Result<Expansion<S>, InvocationError>)
    ensures
        result_view(r) == expansion(input@, Case::Kebab, Target::Str),
{
    strify(input, Case::Kebab)
}

/// Converts an identifier or a string literal to an `UPPER-KEBAB-CASE` string literal.
pub fn ukebab_strify<S>(input: Vec<Token<S>>) -> (r: Result<Expansion<S>, InvocationError>)
    ensures
        result_view(r) == expansion(input@, Case::UpperKebab, Target::Str),
{
    strify(input, Case::UpperKebab)
}

/// Converts an identifier or a string literal to a `Train-Case` string literal.
pub fn train_strify<S>(input: Vec<Token<S>>) -> (r: Result<Expansion<S>, InvocationError>)
    ensures
        result_view(r) == expansion(input@, Case::Train, Target::Str),
{
    strify(input, Case::Train)
}

/// Converts an identifier or a string literal to a `lower case` string literal.
pub fn english_lower<S>(input: Vec<Token<S>>) -> (r: Result<Expansion<S>, InvocationError>)
    ensures
        result_view(r) == expansion(input@, Case::Lower, Target::Str),
{
    strify(input, Case::Lower)
}

/// Converts an identifier or a string literal to an `UPPER CASE` string literal.
pub fn english_upper<S>(input: Vec<Token<S>>) -> (r: Result<Expansion<S>, InvocationError>)
    ensures
        result_view(r) == expansion(input@, Case::Upper, Target::Str),
{
    strify(input, Case::Upper)
}

/// Converts an identifier or a string literal to a `Title Case` string literal.
pub fn english_title<S>(input: Vec<Token<S>>) -> (r: Result<Expansion<S>, InvocationError>)
    ensures
        result_view(r) == expansion(input@, Case::Title, Target::Str),
{
    strify(input, Case::Title)
}

/// Converts an identifier or a string literal to a `flatlowercase` identifier.
pub fn lower<S>(input: Vec<Token<S>>) -> (r: Result<Expansion<S>, InvocationError>)
    ensures
        result_view(r) == expansion(input@, Case::Flat, Target::Ident),
{
    ident_conv(input, Case::Flat)
}

/// Converts an identifier or a string literal to a `FLATUPPERCASE` identifier.
pub fn upper<S>(input: Vec<Token<S>>) -> (r: Result<Expansion<S>, InvocationError>)
    ensures
        result_view(r) == expansion(input@, Case::UpperFlat, Target::Ident),
{
    ident_conv(input, Case::UpperFlat)
}

/// Converts an identifier or a string literal to a `snake_case` identifier.
pub fn snake<S>(input: Vec<Token<S>>) -> (r: Result<Expansion<S>, InvocationError>)
    ensures
        result_view(r) == expansion(input@, Case::Snake, Target::Ident),
{
    ident_conv(input, Case::Snake)
}

/// Converts an identifier or a string literal to an `UPPER_SNAKE_CASE` identifier.
pub fn usnake<S>(input: Vec<Token<S>>) -> (r: Result<Expansion<S>, InvocationError>)
    ensures
        result_view(r) == expansion(input@, Case::UpperSnake, Target::Ident),
{
    ident_conv(input, Case::UpperSnake)
}

/// Converts an identifier or a string literal to a `camelCase` identifier.
pub fn camel<S>(input: Vec<Token<S>>) -> (r: Result<Expansion<S>, InvocationError>)
    ensures
        result_view(r) == expansion(input@, Case::Camel, Target::Ident),
{
    ident_conv(input, Case::Camel)
}

/// Converts an identifier or a string literal to a `PascalCase` identifier.
pub fn pascal<S>(input: Vec<Token<S>>) -> (r: Result<Expansion<S>, InvocationError>)
    ensures
        result_view(r) == expansion(input@, Case::Pascal, Target::Ident),
{
    ident_conv(input, Case::Pascal)
}

} // verus!
