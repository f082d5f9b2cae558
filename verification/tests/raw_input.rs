use macro_lab::builder::create_builder_tokens;
use macro_lab::derive_input::split_derive_exec;
use macro_lab::make_public::public_tokens;
use macro_lab::panic_to_result::{panic_to_result_tokens, split_fn_exec};
use macro_lab::private::private_tokens;
use macro_lab::syntax::tokens_to_text;
use macro_lab::tokens::{Delim, LitKind, Token};
use macro_lab::upper_case::uppercase_tokens;

fn id(s: &str) -> Token {
    Token::Ident(s.to_string())
}

fn p(c: char) -> Token {
    Token::Punct(c, false)
}

fn g(d: Delim, ts: Vec<Token>) -> Token {
    Token::Group(d, ts)
}

fn gleipnir() -> Vec<Token> {
    vec![
        id("struct"),
        id("Gleipnir"),
        g(
            Delim::Brace,
            vec![
                p('#'),
                g(Delim::Bracket, vec![id("rename"), g(Delim::Paren, vec![Token::Str("tops_of".to_string())])]),
                id("roots_of"),
                p(':'),
                id("String"),
            ],
        ),
    ]
}

#[test]
fn the_builder_is_read_from_raw_tokens() {
    let out = tokens_to_text(&create_builder_tokens(&gleipnir()).unwrap());
    assert!(out.contains("pub fn tops_of (mut self , input : String ) -> Self {self . roots_of = Some (input ) ; self } "));
    assert!(out.starts_with("struct GleipnirBuilder {roots_of : Option < String > , } "));
}

#[test]
fn what_syn_refuses_is_an_error() {
    let bad = vec![id("struct")];
    let e = create_builder_tokens(&bad).unwrap_err();
    assert!(e.message.starts_with("called `Result::unwrap()` on an `Err` value: Error("), "{}", e.message);
    assert!(e.fatal);
    let e2 = public_tokens(&bad).unwrap_err();
    assert!(!e2.fatal);
    assert!(!e2.message.is_empty());
    assert!(uppercase_tokens(&bad).is_err());
    assert!(private_tokens(&bad).is_err());
}

#[test]
fn an_enum_is_read_but_refused_by_the_builder() {
    let e = vec![id("enum"), id("E"), g(Delim::Brace, vec![id("A"), p(','), id("B")])];
    let err = create_builder_tokens(&e).unwrap_err();
    assert_eq!(err.message, "not implemented: only implemented for structs");
    assert!(err.fatal);
    let up = uppercase_tokens(&e).unwrap();
    assert!(tokens_to_text(&up).starts_with("impl E {fn uppercase"));
}

#[test]
fn a_definition_is_split_into_its_parts() {
    let ts = vec![
        p('#'),
        g(Delim::Bracket, vec![id("derive"), g(Delim::Paren, vec![id("Debug")])]),
        id("pub"),
        g(Delim::Paren, vec![id("crate")]),
        id("struct"),
        id("G"),
        p('<'),
        id("T"),
        p(':'),
        id("Into"),
        p('<'),
        id("Vec"),
        p('<'),
        id("u8"),
        Token::Punct('>', true),
        p('>'),
        p('>'),
        id("where"),
        id("T"),
        p(':'),
        id("Clone"),
        g(
            Delim::Brace,
            vec![
                id("pub"),
                id("t"),
                p(':'),
                id("T"),
                p(','),
                id("m"),
                p(':'),
                id("HashMap"),
                p('<'),
                id("K"),
                p(','),
                id("V"),
                p('>'),
                p(','),
            ],
        ),
    ];
    let it = split_derive_exec(&ts).unwrap();
    assert_eq!(tokens_to_text(&it.attrs), "# [derive (Debug ) ] ");
    assert_eq!(tokens_to_text(&it.vis), "pub (crate ) ");
    assert_eq!(it.name, "G");
    assert_eq!(tokens_to_text(&it.generics), "< T : Into < Vec < u8 >> > ");
    assert_eq!(tokens_to_text(&it.where_clause), "where T : Clone ");
    let fs = it.fields.unwrap();
    assert_eq!(fs.len(), 2);
    assert_eq!((fs[0].name.as_str(), tokens_to_text(&fs[0].vis)), ("t", "pub ".to_string()));
    assert_eq!(tokens_to_text(&fs[1].ty), "HashMap < K , V > ");
    let once = public_tokens(&ts).unwrap();
    let out = tokens_to_text(&once);
    assert_eq!(out, "# [derive (Debug ) ] pub struct G < T : Into < Vec < u8 >> > where T : Clone {pub t : T , pub m : HashMap , } ");
    let twice = public_tokens(&once).unwrap();
    assert_eq!(tokens_to_text(&twice), out);
}

#[test]
fn private_is_read_from_raw_tokens() {
    let ts = vec![
        id("struct"),
        id("ExampleStruct"),
        g(Delim::Brace, vec![id("string_value"), p(':'), id("String"), p(','), id("number_value"), p(':'), id("u32")]),
    ];
    let out = tokens_to_text(&private_tokens(&ts).unwrap());
    assert!(out.starts_with("struct ExampleStruct {string_value : String , number_value : u32 } impl ExampleStruct {"));
}

#[test]
fn a_function_is_read_from_raw_tokens() {
    let ts = vec![
        id("fn"),
        id("f"),
        g(Delim::Paren, vec![id("x"), p(':'), id("u8")]),
        Token::Punct('-', true),
        p('>'),
        id("u8"),
        id("where"),
        id("u8"),
        p(':'),
        id("Copy"),
        g(
            Delim::Brace,
            vec![
                id("if"),
                id("x"),
                p('>'),
                Token::Lit(LitKind::Int, "1".to_string()),
                g(Delim::Brace, vec![id("panic"), p('!'), g(Delim::Paren, vec![Token::Str("big".to_string())]), p(';')]),
                id("x"),
            ],
        ),
    ];
    let f = split_fn_exec(&ts).unwrap();
    assert_eq!(tokens_to_text(&f.sig), "fn f (x : u8 ) ");
    assert_eq!(tokens_to_text(f.output.as_ref().unwrap()), "u8 ");
    assert_eq!(tokens_to_text(&f.where_clause), "where u8 : Copy ");
    let out = tokens_to_text(&panic_to_result_tokens(&ts).unwrap());
    assert_eq!(
        out,
        "fn f (x : u8 ) -> Result < u8 , String > where u8 : Copy {Ok ({if x > 1 {return Err (format ! (\"big\" ) ) ; } x } ) } "
    );
    let e = panic_to_result_tokens(&vec![id("struct"), id("S")]).unwrap_err();
    assert!(e.fatal);
}

#[test]
fn tokens_between_generics_and_body_that_are_no_where_clause_are_unsupported() {
    let ts = vec![id("struct"), id("S"), id("oops"), g(Delim::Brace, vec![id("a"), p(':'), id("u8")])];
    assert!(split_derive_exec(&ts).is_none());
}

#[test]
fn invisible_groups_are_looked_through() {
    let ts = vec![
        g(Delim::NoDelim, vec![id("pub")]),
        id("struct"),
        id("S"),
        g(Delim::Brace, vec![id("a"), p(':'), g(Delim::NoDelim, vec![id("String")])]),
    ];
    let out = tokens_to_text(&public_tokens(&ts).unwrap());
    assert_eq!(out, "pub struct S {pub a : String , } ");
}
