use macro_lab::other_attributes::{analyze, copy_range, StructWithComments};
use macro_lab::syntax::tokens_to_text;
use macro_lab::tokens::{Delim, LitKind, Token};

fn id(s: &str) -> Token {
    Token::Ident(s.to_string())
}

fn p(c: char) -> Token {
    Token::Punct(c, false)
}

fn g(d: Delim, ts: Vec<Token>) -> Token {
    Token::Group(d, ts)
}

fn doc(text: &str) -> Vec<Token> {
    vec![p('#'), g(Delim::Bracket, vec![id("doc"), p('='), Token::Str(text.to_string())])]
}

fn commented_struct() -> Vec<Token> {
    let mut ts = doc(" A comment");
    ts.push(id("struct"));
    ts.push(id("S"));
    ts.push(g(
        Delim::Brace,
        vec![
            p('#'),
            p('!'),
            g(Delim::Bracket, vec![id("allow"), g(Delim::Paren, vec![id("dead_code")])]),
            id("field"),
            p(':'),
            id("Vec"),
            p('<'),
            id("u8"),
            p('>'),
        ],
    ));
    ts
}

fn simple(body: Vec<Token>) -> Vec<Token> {
    vec![id("struct"), id("S"), g(Delim::Brace, body)]
}

#[test]
fn reads_a_struct_with_comments() {
    let ts = commented_struct();
    let s = StructWithComments::parse(&ts).unwrap();
    assert_eq!(s.ident, "S");
    assert_eq!(s.field_name, "field");
    assert_eq!(tokens_to_text(&s.field_type), "Vec < u8 > ");
    assert_eq!(s.outer_attributes.len(), 1);
    assert_eq!(tokens_to_text(&s.outer_attributes[0]), "# [doc = \" A comment\" ] ");
    assert_eq!(s.inner_attributes.len(), 1);
    assert_eq!(tokens_to_text(&s.inner_attributes[0]), "# ! [allow (dead_code ) ] ");
    assert!(analyze(&ts).unwrap().is_empty());
}

#[test]
fn what_was_read_makes_up_the_whole_input() {
    let ts = commented_struct();
    let s = StructWithComments::parse(&ts).unwrap();
    let mut whole = String::new();
    for a in &s.outer_attributes {
        whole.push_str(&tokens_to_text(a));
    }
    whole.push_str("struct S {");
    for a in &s.inner_attributes {
        whole.push_str(&tokens_to_text(a));
    }
    whole.push_str("field : ");
    whole.push_str(&tokens_to_text(&s.field_type));
    whole.push_str("} ");
    assert_eq!(whole, tokens_to_text(&ts));
}

#[test]
fn a_struct_without_body_is_an_error() {
    let e = analyze(&vec![id("struct"), id("S"), p(';')]).unwrap_err();
    assert_eq!(e.message, "expected curly braces");
    assert!(!e.fatal);
}

#[test]
fn a_second_field_is_left_over() {
    let e = analyze(&simple(vec![id("a"), p(':'), id("u8"), p(','), id("b"), p(':'), id("u8")])).unwrap_err();
    assert_eq!(e.message, "unexpected token, expected `}`");
    assert!(!e.fatal);
}

#[test]
fn tokens_after_the_body_are_left_over() {
    let mut ts = simple(vec![id("a"), p(':'), id("u8")]);
    ts.push(id("extra"));
    let e = analyze(&ts).unwrap_err();
    assert_eq!(e.message, "unexpected token");
    assert!(!e.fatal);
}

#[test]
fn the_first_leftover_is_reported() {
    let mut ts = vec![p('#'), g(Delim::Bracket, vec![id("doc"), p('='), Token::Str("x".to_string()), id("y")])];
    ts.extend(simple(vec![id("a"), p(':'), id("u8"), p(','), id("b")]));
    let e = analyze(&ts).unwrap_err();
    assert_eq!(e.message, "unexpected token, expected `]`");
    assert!(!e.fatal);
}

#[test]
fn what_cannot_be_read_aborts() {
    let unwrap = "called `Result::unwrap()` on an `Err` value";
    let not_struct = vec![id("enum"), id("S"), g(Delim::Brace, vec![])];
    let keyword_name = vec![id("struct"), id("struct"), g(Delim::Brace, vec![id("a"), p(':'), id("u8")])];
    let no_type = simple(vec![id("a"), p(':')]);
    let no_colon = simple(vec![id("a"), id("u8")]);
    let mut bad_attr = vec![p('#'), g(Delim::Bracket, vec![Token::Lit(LitKind::Int, "1".to_string())])];
    bad_attr.extend(simple(vec![id("a"), p(':'), id("u8")]));
    let mut not_attr = vec![p('#'), id("x")];
    not_attr.extend(simple(vec![id("a"), p(':'), id("u8")]));
    let cut_type = simple(vec![id("f"), p(':'), id("u8"), p('<')]);
    let mut empty_value = vec![p('#'), g(Delim::Bracket, vec![id("a"), p('=')])];
    empty_value.extend(simple(vec![id("a"), p(':'), id("u8")]));
    for ts in [not_struct, keyword_name, no_type, no_colon, bad_attr, not_attr, cut_type, empty_value] {
        let e = analyze(&ts).unwrap_err();
        assert!(e.message.starts_with(unwrap), "{}", e.message);
        assert!(e.fatal);
    }
    let e = analyze(&simple(vec![id("f"), p(':'), id("u8"), p('<')])).unwrap_err();
    assert!(e.message.starts_with("called `Result::unwrap()` on an `Err` value: Error(\""), "{}", e.message);
}

#[test]
fn a_type_with_commas_inside_is_read_whole() {
    let body = vec![id("m"), p(':'), id("HashMap"), p('<'), id("K"), p(','), id("V"), p('>')];
    let s = StructWithComments::parse(&simple(body)).unwrap();
    assert_eq!(tokens_to_text(&s.field_type), "HashMap < K , V > ");
}

#[test]
fn copy_range_copies_the_range() {
    let ts = vec![id("a"), id("b"), id("c"), id("d")];
    assert_eq!(tokens_to_text(&copy_range(&ts, 1, 3)), "b c ");
    assert_eq!(tokens_to_text(&copy_range(&ts, 2, 2)), "");
}

#[test]
fn a_type_in_an_invisible_group_is_read_as_its_content() {
    let ts = simple(vec![id("f"), p(':'), g(Delim::NoDelim, vec![id("u8")])]);
    let s = StructWithComments::parse(&ts).unwrap();
    assert_eq!(s.field_name, "f");
    assert_eq!(tokens_to_text(&s.field_type), "u8 ");
}
