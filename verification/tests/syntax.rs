use macro_lab::syntax::tokens_to_text;
use macro_lab::tokens::{Delim, LitKind, Token};

#[test]
fn strings_are_written_with_escapes() {
    let ts = vec![Token::Str("a\"b\\c\rd\ne".to_string())];
    assert_eq!(tokens_to_text(&ts), "\"a\\\"b\\\\c\\rd\ne\" ");
}

#[test]
fn joined_punctuation_is_written_together() {
    let ts = vec![
        Token::Ident("a".to_string()),
        Token::Punct('-', true),
        Token::Punct('>', false),
        Token::Punct('\'', true),
        Token::Ident("b".to_string()),
        Token::Group(Delim::NoDelim, vec![Token::Lit(LitKind::Int, "7".to_string())]),
        Token::Group(Delim::Bracket, vec![]),
    ];
    assert_eq!(tokens_to_text(&ts), "a -> 'b 7  [] ");
}

#[test]
fn suffixed_strings_keep_their_suffix() {
    let ts = vec![Token::SuffixedStr("a\"b".to_string(), "x".to_string())];
    assert_eq!(tokens_to_text(&ts), "\"a\\\"b\"x ");
}
