use macro_lab::hello::hello;
use macro_lab::item::{FieldDef, ItemDef};
use macro_lab::private::{generate_private_struct, generated_methods, private};
use macro_lab::syntax::tokens_to_text;
use macro_lab::tokens::{Delim, Token};
use macro_lab::upper_case::uppercase;

fn id(s: &str) -> Token {
    Token::Ident(s.to_string())
}

fn field(name: &str, ty: Vec<Token>) -> FieldDef {
    FieldDef { attrs: vec![], vis: vec![Token::Ident("pub".to_string())], name: name.to_string(), ty }
}

fn item(name: &str, fields: Option<Vec<FieldDef>>) -> ItemDef {
    ItemDef { attrs: vec![], vis: vec![], name: name.to_string(), generics: vec![], where_clause: vec![], fields }
}

#[test]
fn hello_names_the_second_token() {
    let out = hello(&vec![id("struct"), id("Foo"), Token::Group(Delim::Brace, vec![])]).unwrap();
    assert_eq!(tokens_to_text(&out), "impl Foo {fn hello_world (& self ) {println ! (\"Hello world\" ) } } ");
    let pub_struct = hello(&vec![id("pub"), id("struct"), id("Foo")]).unwrap();
    assert_eq!(tokens_to_text(&pub_struct), "impl struct {fn hello_world (& self ) {println ! (\"Hello world\" ) } } ");
}

#[test]
fn hello_aborts_without_a_name() {
    let e = hello(&vec![id("struct")]).unwrap_err();
    assert_eq!(e.message, "called `Option::unwrap()` on a `None` value");
    assert!(e.fatal);
    let e2 = hello(&vec![id("struct"), Token::Group(Delim::Brace, vec![])]).unwrap_err();
    assert_eq!(e2.message, "no ident");
    assert!(e2.fatal);
}

#[test]
fn uppercase_prints_the_name() {
    let out = uppercase(&item("Foo", Some(vec![])));
    assert_eq!(
        tokens_to_text(&out),
        "impl Foo {fn uppercase (& self ) {println ! (\"Hello {}\" , stringify ! (Foo ) ) ; } \
         fn testing_testing () {println ! (\"One two three\" ) ; } } "
    );
}

#[test]
fn private_hides_the_fields_behind_getters() {
    let it = item("ExampleStruct", Some(vec![field("string_value", vec![id("String")]), field("number_value", vec![id("u32")])]));
    let out = private(&it).unwrap();
    assert_eq!(
        tokens_to_text(&out),
        "struct ExampleStruct {string_value : String , number_value : u32 } impl ExampleStruct {\
         fn get_string_value (& self ) -> & String {& self . string_value } \
         fn get_number_value (& self ) -> & u32 {& self . number_value } \
         pub fn new () -> Self {Self {string_value : \"Hello\" . to_string () , number_value : 1 , } } } "
    );
    let getters = generated_methods(&it).unwrap();
    assert_eq!(getters.len(), 2);
    let st = generate_private_struct(&"Other".to_string(), &it).unwrap();
    assert_eq!(tokens_to_text(&st), "struct Other {string_value : String , number_value : u32 } ");
}

#[test]
fn private_refusals() {
    let e = private(&item("E", None)).unwrap_err();
    assert_eq!(e.message, "not implemented: only works for structs with named fields");
    assert!(e.fatal);
    let raw = item("R", Some(vec![field("r#type", vec![id("u8")])]));
    let e2 = private(&raw).unwrap_err();
    assert_eq!(e2.message, "\"get_r#type\" is not a valid Ident");
    assert!(e2.fatal);
}
