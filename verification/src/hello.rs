//! The `Hello` derive: a type gets a method `hello_world` that prints `Hello world`.
use vstd::prelude::*;
use crate::tokens::{Token, Tok, Delim, ErrV, MacroError, abort, fatal, ident, punct, str_lit, group, unwrap_none_abort, unwrap_none_msg, lemma_group_view};

verus! {

broadcast use lemma_group_view;

/// `impl name { fn hello_world ( & self ) { println ! ( "Hello world" ) } }`
pub open spec fn hello_impl(name: Seq<char>) -> Seq<Tok> {
    seq![
        Tok::Ident("impl"@), Tok::Ident(name),
        Tok::Group(Delim::Brace, seq![
            Tok::Ident("fn"@), Tok::Ident("hello_world"@),
            Tok::Group(Delim::Paren, seq![Tok::Punct('&', false), Tok::Ident("self"@)]),
            Tok::Group(Delim::Brace, seq![
                Tok::Ident("println"@), Tok::Punct('!', false), Tok::Group(Delim::Paren, seq![Tok::Str("Hello world"@)]),
            ]),
        ]),
    ]
}

/// What the derive makes of its input: the type's name is the second token, which must be an
/// identifier (`struct Name ...`); with fewer tokens, or another second token, the derive aborts.
pub open spec fn hello_spec(ts: Seq<Tok>) -> Result<Seq<Tok>, ErrV> {
    if ts.len() < 2 {
        Err(abort(unwrap_none_msg()))
    } else {
        match ts[1] {
            Tok::Ident(name) => Ok(hello_impl(name)),
            _ => Err(abort("no ident"@)),
        }
    }
}

/// An `impl` of `hello_world` for the type named by the second token of the input.
pub fn hello(item: &Vec<Token>) -> (r: Result<Vec<Token>, MacroError>)
    ensures
        match r {
            Ok(ts) => hello_spec(item.deep_view()) == Ok::<Seq<Tok>, ErrV>(ts.deep_view()),
            Err(e) => hello_spec(item.deep_view()) == Err::<Seq<Tok>, ErrV>(e@),
        },
{
    if item.len() < 2 {
        return Err(unwrap_none_abort());
    }
    let name = match &item[1] {
        Token::Ident(s) => s.clone(),
        _ => {
            return Err(fatal("no ident"));
        },
    };
    let msg = vec![str_lit("Hello world")];
    assert(msg.deep_view() =~= seq![Tok::Str("Hello world"@)]);
    let print = vec![ident("println"), punct('!'), group(Delim::Paren, msg)];
    let ghost print_v = seq![
        Tok::Ident("println"@), Tok::Punct('!', false), Tok::Group(Delim::Paren, seq![Tok::Str("Hello world"@)]),
    ];
    assert(print.deep_view() =~= print_v);
    let self_ref = vec![punct('&'), ident("self")];
    let ghost self_ref_v = seq![Tok::Punct('&', false), Tok::Ident("self"@)];
    assert(self_ref.deep_view() =~= self_ref_v);
    let method = vec![ident("fn"), ident("hello_world"), group(Delim::Paren, self_ref), group(Delim::Brace, print)];
    let ghost method_v = seq![
        Tok::Ident("fn"@), Tok::Ident("hello_world"@), Tok::Group(Delim::Paren, self_ref_v), Tok::Group(Delim::Brace, print_v),
    ];
    assert(method.deep_view() =~= method_v);
    let r = vec![ident("impl"), Token::Ident(name), group(Delim::Brace, method)];
    assert(r.deep_view() =~= hello_impl(item.deep_view()[1]->Ident_0));
    Ok(r)
}

} // verus!
