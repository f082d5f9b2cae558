use macro_lab::config::{generate_annotation_struct, generate_config_struct, ConfigInput};
use macro_lab::item::ItemDef;
use macro_lab::syntax::tokens_to_text;
use macro_lab::tokens::{Delim, Token};

fn id(s: &str) -> Token {
    Token::Ident(s.to_string())
}

fn p(c: char) -> Token {
    Token::Punct(c, false)
}

fn pairs() -> Vec<(String, String)> {
    vec![("user".to_string(), "admin".to_string()), ("port".to_string(), "8080".to_string())]
}

#[test]
fn reads_the_config_input() {
    let none = ConfigInput::parse(&vec![]).unwrap();
    assert_eq!(none.path, None);
    assert!(!none.exclude_from);
    let path = ConfigInput::parse(&vec![id("path"), p('='), Token::Str("./config.yaml".to_string())]).unwrap();
    assert_eq!(path.path.as_deref(), Some("./config.yaml"));
    let ex = ConfigInput::parse(&vec![id("exclude"), p('='), Token::Str("from".to_string())]).unwrap();
    assert!(ex.exclude_from);
    assert_eq!(ex.path, None);
    let other = ConfigInput::parse(&vec![id("exclude"), p('='), Token::Str("to".to_string())]).unwrap();
    assert!(!other.exclude_from);
}

#[test]
fn errors_of_the_config_input() {
    let e = |ts: Vec<Token>| ConfigInput::parse(&ts).unwrap_err().message;
    assert_eq!(e(vec![id("path"), id("x")]), "expected '=' after 'path'");
    assert_eq!(e(vec![id("path"), p('=')]), "expected string literal after 'path'");
    assert_eq!(e(vec![id("exclude"), p(':')]), "expected '=' after 'exclude'");
    assert_eq!(e(vec![id("exclude"), p('='), id("from")]), "expected string literal after 'exclude'");
    assert_eq!(e(vec![id("file"), p('='), Token::Str("x".to_string())]), "config macro only allows for 'path' or 'exclude' input");
    assert_eq!(e(vec![id("path"), p('='), Token::Str("x".to_string()), p(',')]), "unexpected token");
}

#[test]
fn the_config_struct_holds_every_pair() {
    let out = generate_config_struct(&pairs());
    assert_eq!(
        tokens_to_text(&out),
        "pub struct Config (pub std :: collections :: HashMap < & 'static str , & 'static str > ) ; \
         impl Config {pub fn new () -> Self {let mut map = std :: collections :: HashMap :: new () ; \
         map . insert (\"user\" , \"admin\" ) ; map . insert (\"port\" , \"8080\" ) ; Config (map ) } } "
    );
}

#[test]
fn the_annotated_struct_gets_fields_constructor_and_conversion() {
    let item = ItemDef {
        attrs: vec![p('#'), Token::Group(Delim::Bracket, vec![id("derive"), Token::Group(Delim::Paren, vec![id("Debug")])])],
        vis: vec![],
        name: "ConfigObject".to_string(),
        generics: vec![],
        where_clause: vec![],
        fields: Some(vec![]),
    };
    let kvs = vec![("user".to_string(), "admin".to_string())];
    let excluded = generate_annotation_struct(&item, &kvs, true).unwrap();
    assert_eq!(
        tokens_to_text(&excluded),
        "# [derive (Debug ) ] pub struct ConfigObject {pub user : String , } impl ConfigObject \
         {pub fn new () -> Self {ConfigObject {user : \"admin\" . to_string () , } } } "
    );
    let with_from = generate_annotation_struct(&item, &kvs, false).unwrap();
    assert_eq!(
        tokens_to_text(&with_from),
        "# [derive (Debug ) ] pub struct ConfigObject {pub user : String , } impl ConfigObject \
         {pub fn new () -> Self {ConfigObject {user : \"admin\" . to_string () , } } } \
         impl From < ConfigObject > for std :: collections :: HashMap < String , String > \
         {fn from (value : ConfigObject ) -> Self {let mut map = std :: collections :: HashMap :: new () ; \
         map . insert (\"user\" . to_string () , value . user ) ; map } } "
    );
}

#[test]
fn suffixed_string_literals_are_read_by_their_value() {
    let ex = ConfigInput::parse(&vec![id("exclude"), p('='), Token::SuffixedStr("from".to_string(), "x".to_string())]).unwrap();
    assert!(ex.exclude_from);
    let path = ConfigInput::parse(&vec![id("path"), p('='), Token::SuffixedStr("cfg.yaml".to_string(), "x".to_string())]).unwrap();
    assert_eq!(path.path.as_deref(), Some("cfg.yaml"));
}

#[test]
fn a_key_that_is_not_an_identifier_aborts() {
    let item = ItemDef {
        attrs: vec![],
        vis: vec![],
        name: "C".to_string(),
        generics: vec![],
        where_clause: vec![],
        fields: Some(vec![]),
    };
    let cases = [
        ("9lives", "\"9lives\" is not a valid Ident"),
        ("two words", "\"two words\" is not a valid Ident"),
        ("", "Ident is not allowed to be empty; use Option<Ident>"),
        ("123", "Ident cannot be a number; use Literal instead"),
        ("a\u{2603}", "\"a\u{2603}\" is not a valid Ident"),
    ];
    for (bad, msg) in cases {
        let kvs = vec![("ok_key".to_string(), "v".to_string()), (bad.to_string(), "v".to_string())];
        let e = generate_annotation_struct(&item, &kvs, true).unwrap_err();
        assert_eq!(e.message, msg);
        assert!(e.fatal);
    }
    assert!(generate_annotation_struct(&item, &vec![("_x9".to_string(), "v".to_string())], true).is_ok());
    assert!(generate_annotation_struct(&item, &vec![("na\u{ef}ve".to_string(), "v".to_string())], true).is_ok());
}
