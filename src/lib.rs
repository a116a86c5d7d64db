//! Case conversion of single tokens: an identifier or a string literal is
//! turned into a string literal or an identifier in one of a fixed set of
//! naming conventions.

pub mod casing;
pub mod expand;
pub mod ident;
pub mod literal;
pub mod styles;
pub mod token;

pub use casing::{convert, Case};
pub use expand::{emit, expand, ident_conv, strify, token_text};
pub use ident::is_ident;
pub use literal::{is_parsable_text, string_value};
pub use styles::{
    camel, camel_strify, english_lower, english_title, english_upper, kebab_strify,
    lower, lower_strify, pascal, pascal_strify, snake, snake_strify, train_strify, ukebab_strify,
    upper, upper_strify, usnake, usnake_strify,
};
pub use token::{Expansion, InvocationError, Target, Token};
