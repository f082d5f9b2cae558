use macro_lab::panic_to_result::{is_result_type, panic_to_result, replace_panics, result_type_exec, FnDef};
use macro_lab::syntax::tokens_to_text;
use macro_lab::tokens::{Delim, LitKind, Token};

fn id(s: &str) -> Token {
    Token::Ident(s.to_string())
}

fn p(c: char) -> Token {
    Token::Punct(c, false)
}

fn g(d: Delim, ts: Vec<Token>) -> Token {
    Token::Group(d, ts)
}

fn s(v: &str) -> Token {
    Token::Str(v.to_string())
}

fn person_sig(name: &str) -> Vec<Token> {
    vec![
        id("fn"),
        id(name),
        g(Delim::Paren, vec![id("name"), p(':'), id("String"), p(','), id("age"), p(':'), id("u32")]),
    ]
}

fn person_body(panic_args: Vec<Token>) -> Vec<Token> {
    vec![
        id("if"),
        id("age"),
        p('>'),
        Token::Lit(LitKind::Int, "30".to_string()),
        g(Delim::Brace, vec![id("panic"), p('!'), g(Delim::Paren, panic_args), p(';')]),
        id("Person"),
        g(Delim::Brace, vec![id("name"), p(','), id("age"), p(',')]),
    ]
}

fn fn_def(sig: Vec<Token>, output: Option<Vec<Token>>, body: Vec<Token>) -> FnDef {
    FnDef { attrs: vec![], vis: vec![], sig, output, where_clause: vec![], body }
}

#[test]
fn panics_become_early_returns_of_their_message() {
    let f = fn_def(
        person_sig("create_person"),
        Some(vec![id("Person")]),
        person_body(vec![s("I hope I die before I get old")]),
    );
    let out = panic_to_result(&f);
    assert_eq!(
        tokens_to_text(&out),
        "fn create_person (name : String , age : u32 ) -> Result < Person , String > {Ok ({if age > 30 \
         {return Err (format ! (\"I hope I die before I get old\" ) ) ; } Person {name , age , } } ) } "
    );
}

#[test]
fn a_function_without_return_type_returns_a_unit_result() {
    let f = FnDef {
        attrs: vec![p('#'), g(Delim::Bracket, vec![id("inline")])],
        vis: vec![id("pub")],
        sig: vec![id("fn"), id("check"), g(Delim::Paren, vec![])],
        output: None,
        where_clause: vec![],
        body: vec![id("panic"), p('!'), g(Delim::Paren, vec![s("{} and {}"), p(','), id("a"), p(','), id("b")])],
    };
    let out = panic_to_result(&f);
    assert_eq!(
        tokens_to_text(&out),
        "# [inline ] pub fn check () -> Result < () , String > {Ok ({return Err (format ! \
         (\"{} and {}\" , a , b ) ) } ) } "
    );
}

#[test]
fn a_function_that_returns_a_result_is_left_as_it_is() {
    let body = vec![
        id("Ok"),
        g(Delim::Paren, vec![id("Person"), g(Delim::Brace, vec![id("name"), p(','), id("age")])]),
    ];
    let f = fn_def(
        person_sig("create_person_with_result"),
        Some(vec![id("Result"), p('<'), id("Person"), p(','), id("String"), p('>')]),
        body,
    );
    assert_eq!(
        tokens_to_text(&panic_to_result(&f)),
        "fn create_person_with_result (name : String , age : u32 ) -> Result < Person , String > \
         {Ok (Person {name , age } ) } "
    );
    let io = vec![id("io"), Token::Punct(':', true), p(':'), id("Result"), p('<'), g(Delim::Paren, vec![]), p('>')];
    assert!(is_result_type(&io));
}

#[test]
fn a_type_that_only_contains_a_result_is_rewritten() {
    let ty = vec![id("Option"), p('<'), id("Result"), p('<'), id("u8"), p(','), id("u8"), p('>'), p('>')];
    assert!(!is_result_type(&ty));
    let f = fn_def(
        vec![id("fn"), id("f"), g(Delim::Paren, vec![])],
        Some(ty),
        vec![id("panic"), p('!'), g(Delim::Paren, vec![s("m")])],
    );
    assert_eq!(
        tokens_to_text(&panic_to_result(&f)),
        "fn f () -> Result < Option < Result < u8 , u8 > > , String > {Ok ({return Err (format ! (\"m\" ) ) } ) } "
    );
}

#[test]
fn a_panic_without_message_is_kept() {
    let f = fn_def(person_sig("create_person_with_empty_panic"), Some(vec![id("Person")]), person_body(vec![]));
    assert_eq!(
        tokens_to_text(&panic_to_result(&f)),
        "fn create_person_with_empty_panic (name : String , age : u32 ) -> Result < Person , String > \
         {Ok ({if age > 30 {panic ! () ; } Person {name , age , } } ) } "
    );
}

#[test]
fn returned_values_are_wrapped_in_ok() {
    let body = vec![
        id("if"),
        id("x"),
        g(Delim::Brace, vec![id("return"), Token::Lit(LitKind::Int, "1".to_string()), p(';')]),
        id("if"),
        id("y"),
        g(Delim::Brace, vec![id("return")]),
        Token::Lit(LitKind::Int, "2".to_string()),
    ];
    assert_eq!(
        tokens_to_text(&replace_panics(&body)),
        "if x {return Ok (1 ) ; } if y {return Ok (() ) } 2 "
    );
}

#[test]
fn a_body_without_panic_or_return_is_kept() {
    let body = vec![id("let"), id("x"), p('='), g(Delim::Paren, vec![id("a"), p(','), id("b")]), p(';'), id("x")];
    assert_eq!(tokens_to_text(&replace_panics(&body)), tokens_to_text(&body));
    let words = vec![id("panic"), p('+'), id("panic")];
    assert_eq!(tokens_to_text(&replace_panics(&words)), "panic + panic ");
}

#[test]
fn applying_the_attribute_twice_changes_nothing() {
    let f = fn_def(
        person_sig("create_person"),
        Some(vec![id("Person")]),
        person_body(vec![s("I hope I die before I get old")]),
    );
    let once = panic_to_result(&f);
    let again = fn_def(
        person_sig("create_person"),
        Some(result_type_exec(&Some(vec![id("Person")]))),
        vec![id("Ok"), g(Delim::Paren, vec![g(Delim::Brace, replace_panics(&f.body))])],
    );
    assert_eq!(tokens_to_text(&panic_to_result(&again)), tokens_to_text(&once));
    assert_eq!(tokens_to_text(&result_type_exec(&None)), "Result < () , String > ");
}
