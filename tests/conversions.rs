use case_tokens::{
    camel, camel_strify, convert, emit, english_lower, english_title, english_upper, expand,
    ident_conv, is_ident, is_parsable_text, kebab_strify, lower, lower_strify, pascal, pascal_strify, snake,
    snake_strify, string_value, strify, token_text, train_strify, ukebab_strify, upper,
    upper_strify, usnake, usnake_strify, Case, Expansion, InvocationError, Target, Token,
};

fn ident(text: &str) -> Vec<Token<u32>> {
    vec![Token::Ident { text: text.to_string(), span: 7 }]
}

fn literal(text: &str) -> Vec<Token<u32>> {
    vec![Token::Literal { text: text.to_string(), span: 9 }]
}

fn text_of(r: Result<Expansion<u32>, InvocationError>) -> String {
    r.unwrap().text
}

#[test]
fn flat_of_camel_ident() {
    assert_eq!(text_of(lower_strify(ident("fooBar"))), "foobar");
}

#[test]
fn snake_of_camel_ident() {
    assert_eq!(text_of(snake_strify(ident("fooBar"))), "foo_bar");
}

#[test]
fn upper_snake_of_camel_ident() {
    assert_eq!(text_of(usnake_strify(ident("fooBar"))), "FOO_BAR");
}

#[test]
fn pascal_of_snake_ident() {
    assert_eq!(text_of(pascal_strify(ident("foo_bar"))), "FooBar");
}

#[test]
fn kebab_of_string_literal() {
    assert_eq!(text_of(kebab_strify(literal("\"hello world\""))), "hello-world");
}

#[test]
fn snake_splits_acronym() {
    assert_eq!(text_of(snake_strify(ident("HTTPServer"))), "http_server");
}

#[test]
fn every_string_style() {
    assert_eq!(text_of(upper_strify(ident("fooBar"))), "FOOBAR");
    assert_eq!(text_of(camel_strify(ident("foo_bar"))), "fooBar");
    assert_eq!(text_of(ukebab_strify(ident("fooBar"))), "FOO-BAR");
    assert_eq!(text_of(train_strify(ident("fooBar"))), "Foo-Bar");
    assert_eq!(text_of(english_lower(ident("fooBar"))), "foo bar");
    assert_eq!(text_of(english_upper(ident("fooBar"))), "FOO BAR");
    assert_eq!(text_of(english_title(ident("fooBar"))), "Foo Bar");
}

#[test]
fn every_ident_style() {
    assert_eq!(text_of(lower(ident("fooBar"))), "foobar");
    assert_eq!(text_of(upper(ident("fooBar"))), "FOOBAR");
    assert_eq!(text_of(snake(ident("fooBar"))), "foo_bar");
    assert_eq!(text_of(usnake(ident("fooBar"))), "FOO_BAR");
    assert_eq!(text_of(camel(ident("FooBar"))), "fooBar");
    assert_eq!(text_of(pascal(literal("\"foo bar\""))), "FooBar");
}

#[test]
fn result_kind_and_position() {
    let s = snake_strify(ident("fooBar")).unwrap();
    assert_eq!(s.target, Target::Str);
    assert_eq!(s.span, 7);
    let i = snake(literal("\"fooBar\"")).unwrap();
    assert_eq!(i.target, Target::Ident);
    assert_eq!(i.span, 9);
}

#[test]
fn same_input_same_output() {
    for case in [Case::Snake, Case::Camel, Case::Title, Case::UpperKebab] {
        assert_eq!(convert("someHTTPValue2x", case), convert("someHTTPValue2x", case));
        let a = expand(ident("someHTTPValue2x"), case, Target::Str).unwrap();
        let b = expand(ident("someHTTPValue2x"), case, Target::Str).unwrap();
        assert_eq!(a.text, b.text);
    }
}

#[test]
fn text_already_in_case_is_kept() {
    assert_eq!(text_of(snake_strify(ident("foo_bar"))), "foo_bar");
    assert_eq!(text_of(pascal_strify(ident("FooBar"))), "FooBar");
    assert_eq!(text_of(camel(ident("fooBar"))), "fooBar");
    assert_eq!(text_of(kebab_strify(literal("\"foo-bar\""))), "foo-bar");
    assert_eq!(text_of(english_title(literal("\"Foo Bar\""))), "Foo Bar");
}

#[test]
fn other_case_does_not_round_trip() {
    let snake_text = text_of(snake_strify(ident("HTTPServer")));
    let back = text_of(pascal_strify(ident(&snake_text)));
    assert_eq!(back, "HttpServer");
    assert_ne!(back, "HTTPServer");
}

#[test]
fn literal_and_ident_carry_same_text() {
    for (name, case) in [("fooBar", Case::Snake), ("foo_bar", Case::Pascal), ("x_y_z", Case::Camel)] {
        let s = strify(ident(name), case).unwrap();
        let i = ident_conv(ident(name), case).unwrap();
        assert_eq!(s.text, i.text);
        assert_eq!(s.span, i.span);
    }
}

#[test]
fn two_tokens_are_refused() {
    let input = vec![
        Token::Ident { text: "foo".to_string(), span: 1u32 },
        Token::Ident { text: "bar".to_string(), span: 2u32 },
    ];
    assert_eq!(snake_strify(input).err(), Some(InvocationError::TooManyTokens));
    let input = vec![
        Token::Punct { ch: ',', span: 1u32 },
        Token::Ident { text: "bar".to_string(), span: 2u32 },
    ];
    assert_eq!(snake(input).err(), Some(InvocationError::TooManyTokens));
}

#[test]
fn punctuation_is_refused() {
    let input = vec![Token::Punct { ch: '+', span: 1u32 }];
    assert_eq!(snake_strify(input).err(), Some(InvocationError::WrongTokenKind));
}

#[test]
fn group_is_refused() {
    let input = vec![Token::Group { text: "(a)".to_string(), span: 1u32 }];
    assert_eq!(camel(input).err(), Some(InvocationError::WrongTokenKind));
}

#[test]
fn no_token_is_refused() {
    let input: Vec<Token<u32>> = Vec::new();
    assert_eq!(lower_strify(input).err(), Some(InvocationError::WrongTokenKind));
}

#[test]
fn leading_digit_ident_is_refused() {
    assert_eq!(snake(literal("\"123abc\"")).err(), Some(InvocationError::InvalidIdent));
    assert_eq!(text_of(snake_strify(literal("\"123abc\""))), "123_abc");
}

#[test]
fn empty_text_is_no_ident() {
    assert_eq!(text_of(snake_strify(literal("\"\""))), "");
    assert_eq!(snake(literal("\"\"")).err(), Some(InvocationError::InvalidIdent));
}

#[test]
fn non_string_literals_are_refused() {
    assert_eq!(snake_strify(literal("42")).err(), Some(InvocationError::NotAStringLiteral));
    assert_eq!(snake_strify(literal("b\"ab\"")).err(), Some(InvocationError::NotAStringLiteral));
    assert_eq!(snake(literal("'a'")).err(), Some(InvocationError::NotAStringLiteral));
    assert_eq!(snake_strify(literal("\"open")).err(), Some(InvocationError::NotAStringLiteral));
}

#[test]
fn literal_value_resolves_escapes() {
    assert_eq!(string_value("\"foo\\x42ar\"").unwrap(), "fooBar");
    assert_eq!(string_value("r#\"a \"b\"#").unwrap(), "a \"b");
    assert_eq!(text_of(snake_strify(literal("\"foo\\x42ar\""))), "foo_bar");
    assert_eq!(text_of(snake_strify(literal("r#\"Foo Bar\"#"))), "foo_bar");
}

#[test]
fn token_text_of_each_kind() {
    let (t, sp) = token_text(ident("fooBar")).unwrap();
    assert_eq!((t.as_str(), sp), ("fooBar", 7));
    let (t, sp) = token_text(literal("\"a b\"")).unwrap();
    assert_eq!((t.as_str(), sp), ("a b", 9));
}

#[test]
fn identifier_text_rules() {
    assert!(is_ident("foo_bar"));
    assert!(is_ident("_"));
    assert!(is_ident("_1"));
    assert!(is_ident("Ab9"));
    assert!(!is_ident(""));
    assert!(!is_ident("9a"));
    assert!(!is_ident("foo-bar"));
    assert!(!is_ident("foo bar"));
}

#[test]
fn non_ascii_identifier_text() {
    assert!(is_ident("caf\u{e9}"));
    assert!(is_ident("\u{e9}t\u{e9}"));
    assert!(is_ident("a\u{b7}"));
    assert!(!is_ident("\u{b7}a"));
    assert!(!is_ident("a\u{2014}b"));
}

#[test]
fn emit_checks_identifiers_only() {
    let s = emit("1 x".to_string(), 3u32, Target::Str).unwrap();
    assert_eq!((s.text.as_str(), s.span, s.target), ("1 x", 3, Target::Str));
    assert_eq!(emit("1 x".to_string(), 3u32, Target::Ident).err(), Some(InvocationError::InvalidIdent));
    let i = emit("x1".to_string(), 3u32, Target::Ident).unwrap();
    assert_eq!((i.text.as_str(), i.span, i.target), ("x1", 3, Target::Ident));
}

#[test]
fn convert_changes_text() {
    assert_eq!(convert("fooBar", Case::Kebab), "foo-bar");
    assert_eq!(convert("foo bar", Case::UpperSnake), "FOO_BAR");
}

#[test]
fn error_messages() {
    assert_eq!(
        InvocationError::TooManyTokens.message(),
        "Too many items, expect an ident or a string literal."
    );
    assert_eq!(InvocationError::WrongTokenKind.message(), "Expect an ident or a string literal");
    assert_eq!(InvocationError::NotAStringLiteral.message(), "Expect an ident or a string literal");
    assert_eq!(
        InvocationError::InvalidIdent.message(),
        "The converted text is not a valid identifier"
    );
}

#[test]
fn escape_before_non_ascii_end_is_refused() {
    assert_eq!(string_value("\"\\n\u{fc}").err(), Some(InvocationError::NotAStringLiteral));
    assert_eq!(string_value("\"\\n\"\u{e9}").err(), Some(InvocationError::NotAStringLiteral));
    assert_eq!(snake_strify(literal("\"\\n\u{fc}")).err(), Some(InvocationError::NotAStringLiteral));
    assert_eq!(snake(literal("\"\\n\"\u{e9}")).err(), Some(InvocationError::NotAStringLiteral));
}

#[test]
fn parsable_text_rules() {
    assert!(is_parsable_text(""));
    assert!(is_parsable_text("\"a\\nb\""));
    assert!(is_parsable_text("\"caf\u{e9}"));
    assert!(!is_parsable_text("\"\\n\u{fc}"));
}

#[test]
fn suffixed_literal_value() {
    assert_eq!(string_value("\"foo\"bar").unwrap(), "foo");
    assert_eq!(string_value("\"ab\"\u{e9}").unwrap(), "ab");
    assert_eq!(text_of(kebab_strify(literal("\"fooBar\"baz"))), "foo-bar");
}
