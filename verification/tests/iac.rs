use macro_lab::iac::{iac, parse_number, parse_u16, Bucket, IacInput, Lambda, LambdaProperty};
use macro_lab::tokens::{Delim, LitKind, Token};

fn id(s: &str) -> Token {
    Token::Ident(s.to_string())
}

fn p(c: char) -> Token {
    Token::Punct(c, false)
}

fn lit_int(v: &str) -> Token {
    Token::Lit(LitKind::Int, v.to_string())
}

fn parens(ts: Vec<Token>) -> Token {
    Token::Group(Delim::Paren, ts)
}

fn arrow() -> Vec<Token> {
    vec![Token::Punct('=', true), p('>')]
}

fn bucket(name: &str) -> Vec<Token> {
    vec![id("bucket"), parens(vec![id("name"), p('='), id(name)])]
}

fn lambda(props: Vec<Token>) -> Vec<Token> {
    vec![id("lambda"), parens(props)]
}

fn err_of(ts: Vec<Token>) -> String {
    iac(&ts).unwrap_err().message
}

#[test]
fn bucket_with_event_and_lambda() {
    let mut ts = bucket("b");
    ts.extend(arrow());
    ts.extend(lambda(vec![
        id("name"), p('='), id("l"), p(','), id("mem"), p('='), lit_int("1024"), p(','), id("time"), p('='), lit_int("15"),
    ]));
    let input = iac(&ts).unwrap();
    let b = input.bucket.unwrap();
    assert_eq!(b.name, "b");
    assert!(b.has_event);
    let l = input.lambda.unwrap();
    assert_eq!(l.name, "l");
    assert_eq!(l.memory, Some(1024));
    assert_eq!(l.time, Some(15));
}

#[test]
fn a_lambda_alone_and_a_bucket_alone() {
    let only_lambda = iac(&lambda(vec![id("name"), p('='), id("a_name")])).unwrap();
    assert!(only_lambda.bucket.is_none());
    let l = only_lambda.lambda.unwrap();
    assert_eq!(l.name, "a_name");
    assert_eq!(l.memory, None);
    assert_eq!(l.time, None);

    let only_bucket = iac(&bucket("uniquename")).unwrap();
    let b = only_bucket.bucket.unwrap();
    assert_eq!(b.name, "uniquename");
    assert!(!b.has_event);
    assert!(only_bucket.lambda.is_none());
}

#[test]
fn lambda_then_bucket_and_a_trailing_comma() {
    let mut ts = lambda(vec![id("name"), p('='), id("name"), p(',')]);
    ts.extend(bucket("uniquename"));
    let input = IacInput::parse(&ts).unwrap();
    assert_eq!(input.lambda.unwrap().name, "name");
    assert_eq!(input.bucket.unwrap().name, "uniquename");
}

#[test]
fn an_event_needs_a_lambda() {
    let mut ts = bucket("b");
    ts.extend(arrow());
    assert_eq!(err_of(ts), "a lambda is required for an event ('=>')");
}

#[test]
fn a_lambda_needs_a_name_and_takes_the_last_one() {
    assert_eq!(err_of(lambda(vec![id("mem"), p('='), lit_int("1")])), "name is required for lambda");
    let input = iac(&lambda(vec![id("name"), p('='), id("a"), p(','), id("name"), p('='), id("b")])).unwrap();
    assert_eq!(input.lambda.unwrap().name, "b");
}

#[test]
fn errors_of_the_grammar() {
    assert_eq!(err_of(vec![id("queue"), parens(vec![])]), "only 'bucket' and 'lambda' resources are supported");
    assert_eq!(
        err_of(lambda(vec![id("name"), p('='), id("x"), p(','), id("mem"), p('='), lit_int("70000")])),
        "memory needs a positive value <= 10240"
    );
    assert_eq!(
        err_of(lambda(vec![id("name"), p('='), id("x"), p(','), id("time"), p('='), p('-'), lit_int("1")])),
        "time needs a positive value <= 900"
    );
    assert_eq!(
        err_of(lambda(vec![id("name"), p('='), id("x"), p(','), id("mem"), p('='), Token::Lit(LitKind::Float, "1.5".to_string())])),
        "expected integer literal"
    );
    assert_eq!(err_of(lambda(vec![id("name"), p('='), id("x"), p(','), id("colour"), p('='), id("red")])), "unknown property for lambda");
    assert_eq!(err_of(lambda(vec![id("name"), id("x")])), "prop name and value should be separated by =");
    assert_eq!(err_of(lambda(vec![id("name"), p('='), id("x"), id("mem"), p('='), lit_int("1")])), "expected `,`");
    assert_eq!(err_of(vec![id("bucket"), parens(vec![id("name"), p('=')])]), "name property needs a value");
    assert_eq!(err_of(vec![id("bucket"), parens(vec![id("size"), p('='), lit_int("1")])]), "unknown property for bucket");
    assert_eq!(err_of(vec![id("bucket"), id("name")]), "expected parentheses");
    assert_eq!(err_of(vec![id("bucket"), parens(vec![id("name"), p('='), id("a"), p(','), id("b")])]), "unexpected token, expected `)`");
    assert_eq!(err_of(lambda(vec![id("name"), p('='), id("fn")])), "name property needs a value");
}

#[test]
fn numbers() {
    assert_eq!(parse_u16(&"65535".to_string()), Some(65535));
    assert_eq!(parse_u16(&"65536".to_string()), None);
    assert_eq!(parse_u16(&"0".to_string()), Some(0));
    assert_eq!(parse_u16(&"10u16".to_string()), None);
    assert_eq!(parse_u16(&"".to_string()), None);
    let ts = vec![id("mem"), p('='), lit_int("512")];
    assert_eq!(parse_number(&ts, 0, "bad").unwrap(), 512);
    assert_eq!(parse_number(&vec![id("mem"), p('='), lit_int("1_000")], 0, "bad").unwrap_err().message, "bad");
}

#[test]
fn properties_and_builder() {
    let ts = vec![id("time"), p('='), lit_int("900")];
    match LambdaProperty::parse(&ts, 0).unwrap() {
        LambdaProperty::Time(t) => assert_eq!(t, 900),
        other => panic!("unexpected property {:?}", other),
    }
    let l = Lambda::builder().memory(128).name("f".to_string()).time(3).build().unwrap();
    assert_eq!((l.name.as_str(), l.memory, l.time), ("f", Some(128), Some(3)));
    assert!(Lambda::builder().time(3).build().is_err());
    let (b, left) = Bucket::parse(&bucket("x"), 0).unwrap();
    assert_eq!(b.name, "x");
    assert!(!left);
    let l2 = Lambda::parse(&lambda(vec![id("name"), p('='), id("y")]), 0).unwrap();
    assert_eq!(l2.name, "y");
}

#[test]
fn a_later_resource_of_a_kind_wins_and_order_does_not_matter() {
    let mut two_buckets = bucket("a");
    two_buckets.extend(bucket("b"));
    let input = iac(&two_buckets).unwrap();
    assert_eq!(input.bucket.unwrap().name, "b");
    assert!(input.lambda.is_none());

    let mut two_lambdas = lambda(vec![id("name"), p('='), id("x")]);
    two_lambdas.extend(lambda(vec![id("name"), p('='), id("y")]));
    assert_eq!(iac(&two_lambdas).unwrap().lambda.unwrap().name, "y");

    let mut bl = bucket("b");
    bl.extend(lambda(vec![id("name"), p('='), id("l")]));
    let mut lb = lambda(vec![id("name"), p('='), id("l")]);
    lb.extend(bucket("b"));
    let x = iac(&bl).unwrap();
    let y = iac(&lb).unwrap();
    assert_eq!(x.bucket.unwrap().name, y.bucket.unwrap().name);
    assert_eq!(x.lambda.unwrap().name, y.lambda.unwrap().name);
}
