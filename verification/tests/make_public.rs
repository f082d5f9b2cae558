use macro_lab::item::{FieldDef, ItemDef};
use macro_lab::make_public::{finish_public, public, StructField};
use macro_lab::syntax::tokens_to_text;
use macro_lab::tokens::{Delim, Token};

fn id(s: &str) -> Token {
    Token::Ident(s.to_string())
}

fn p(c: char) -> Token {
    Token::Punct(c, false)
}

fn field(vis: Vec<Token>, name: &str, ty: Vec<Token>) -> FieldDef {
    FieldDef { attrs: vec![], vis, name: name.to_string(), ty }
}

fn item(attrs: Vec<Token>, name: &str, generics: Vec<Token>, where_clause: Vec<Token>, fields: Option<Vec<FieldDef>>) -> ItemDef {
    ItemDef { attrs, vis: vec![], name: name.to_string(), generics, where_clause, fields }
}

#[test]
fn struct_and_fields_become_public() {
    let it = item(
        vec![p('#'), Token::Group(Delim::Bracket, vec![id("derive"), Token::Group(Delim::Paren, vec![id("Debug")])])],
        "S",
        vec![],
        vec![],
        Some(vec![
            field(vec![], "a", vec![id("String")]),
            field(vec![id("pub")], "b", vec![id("Vec"), p('<'), id("u8"), p('>')]),
        ]),
    );
    let out = public(&it).unwrap();
    assert_eq!(tokens_to_text(&out), "# [derive (Debug ) ] pub struct S {pub a : String , pub b : Vec , } ");
}

#[test]
fn generics_and_where_clause_are_kept() {
    let it = item(
        vec![],
        "G",
        vec![p('<'), id("T"), p('>')],
        vec![id("where"), id("T"), p(':'), id("Clone")],
        Some(vec![field(vec![], "t", vec![id("T")])]),
    );
    let out = public(&it).unwrap();
    assert_eq!(tokens_to_text(&out), "pub struct G < T > where T : Clone {pub t : T , } ");
}

#[test]
fn applying_public_twice_changes_nothing() {
    let it = item(vec![], "S", vec![], vec![], Some(vec![field(vec![], "a", vec![id("String")])]));
    let once = public(&it).unwrap();
    let again = item(vec![], "S", vec![], vec![], Some(vec![field(vec![id("pub")], "a", vec![id("String")])]));
    let twice = public(&again).unwrap();
    assert_eq!(tokens_to_text(&once), tokens_to_text(&twice));
}

#[test]
fn only_structs_with_named_fields_are_accepted() {
    let e = public(&item(vec![], "E", vec![], vec![], None)).unwrap_err();
    assert_eq!(e.message, "not implemented: only works for structs with named fields");
    assert!(e.fatal);
}

#[test]
fn a_field_name_that_contains_pub_is_taken_for_a_visibility() {
    let it = item(vec![], "K", vec![], vec![], Some(vec![field(vec![], "public_key", vec![id("u8")])]));
    let e = public(&it).unwrap_err();
    assert_eq!(e.message, "called `Option::unwrap()` on a `None` value");
    assert!(e.fatal);
}

#[test]
fn a_field_type_cut_to_a_keyword_is_refused_by_syn() {
    let it = item(
        vec![],
        "F",
        vec![],
        vec![],
        Some(vec![field(vec![], "x", vec![id("fn"), Token::Group(Delim::Paren, vec![id("u8")])])]),
    );
    let e = public(&it).unwrap_err();
    assert!(e.message.starts_with("called `Result::unwrap()` on an `Err` value: Error("), "{}", e.message);
    assert!(e.fatal);
}

#[test]
fn empty_generics_and_where_are_not_written() {
    let it = item(
        vec![],
        "S",
        vec![p('<'), p('>')],
        vec![id("where")],
        Some(vec![field(vec![], "a", vec![id("u8")])]),
    );
    assert_eq!(tokens_to_text(&public(&it).unwrap()), "pub struct S {pub a : u8 , } ");
}

#[test]
fn finish_public_follows_the_answer_about_the_fields() {
    let it = item(vec![], "S", vec![], vec![], Some(vec![]));
    let g = Token::Group(Delim::Brace, vec![]);
    let ok = finish_public(&it, g, &None).unwrap();
    assert_eq!(tokens_to_text(&ok), "pub struct S {} ");
    let e = finish_public(&it, Token::Group(Delim::Brace, vec![]), &Some("Error(\"x\")".to_string())).unwrap_err();
    assert_eq!(e.message, "called `Result::unwrap()` on an `Err` value: Error(\"x\")");
}

#[test]
fn struct_field_reads_back_what_it_writes() {
    let f = StructField { name: "size".to_string(), ty: "usize".to_string() };
    let mut ts = vec![];
    f.to_tokens(&mut ts);
    assert_eq!(tokens_to_text(&ts), "pub size : usize ");
    let back = StructField::parse(&ts).unwrap();
    assert_eq!(back.name, "size");
    assert_eq!(back.ty, "usize");
}

#[test]
fn struct_field_reads_private_and_public_fields() {
    let private = vec![id("count"), p(':'), id("Vec"), p('<'), id("u8"), p('>')];
    let f = StructField::parse(&private).unwrap();
    assert_eq!((f.name.as_str(), f.ty.as_str()), ("count", "Vec"));
    let lifetime = vec![id("r"), p(':'), Token::Punct('\'', true), id("a")];
    assert!(StructField::parse(&lifetime).is_err());
    let attributed = vec![p('#'), Token::Group(Delim::Bracket, vec![id("x")]), id("a"), p(':'), id("u8")];
    assert!(StructField::parse(&attributed).is_err());
}
