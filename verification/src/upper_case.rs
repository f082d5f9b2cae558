//! The `UpperCaseName` derive: a type gets a method `uppercase` that prints its name, and a
//! function `testing_testing`.
use vstd::prelude::*;
use crate::derive_input::{read_derive_input, read_derive_input_exec};
use crate::tokens::{Token, Tok, Delim, ErrV, MacroError, err, ident, punct, str_lit, group, empty_group, lemma_group_view};
use crate::item::ItemDef;

verus! {

broadcast use lemma_group_view;

/// `impl name { fn uppercase ( & self ) { println ! ( "Hello {}" , stringify ! ( name ) ) ; }
/// fn testing_testing ( ) { println ! ( "One two three" ) ; } }`
pub open spec fn uppercase_impl(name: Seq<char>) -> Seq<Tok> {
    seq![
        Tok::Ident("impl"@), Tok::Ident(name),
        Tok::Group(Delim::Brace, seq![
            Tok::Ident("fn"@), Tok::Ident("uppercase"@),
            Tok::Group(Delim::Paren, seq![Tok::Punct('&', false), Tok::Ident("self"@)]),
            Tok::Group(Delim::Brace, seq![
                Tok::Ident("println"@), Tok::Punct('!', false),
                Tok::Group(Delim::Paren, seq![
                    Tok::Str("Hello {}"@), Tok::Punct(',', false), Tok::Ident("stringify"@), Tok::Punct('!', false),
                    Tok::Group(Delim::Paren, seq![Tok::Ident(name)]),
                ]),
                Tok::Punct(';', false),
            ]),
            Tok::Ident("fn"@), Tok::Ident("testing_testing"@), Tok::Group(Delim::Paren, seq![]),
            Tok::Group(Delim::Brace, seq![
                Tok::Ident("println"@), Tok::Punct('!', false), Tok::Group(Delim::Paren, seq![Tok::Str("One two three"@)]),
                Tok::Punct(';', false),
            ]),
        ]),
    ]
}

/// The `impl` of `uppercase` and `testing_testing` for the type.
pub fn uppercase(item: &ItemDef) -> (r: Vec<Token>)
    ensures
        r.deep_view() == uppercase_impl(item.name@),
{
    let name = &item.name;
    let arg = vec![Token::Ident(name.clone())];
    let ghost arg_v = seq![Tok::Ident(name@)];
    assert(arg.deep_view() =~= arg_v);
    let args = vec![str_lit("Hello {}"), punct(','), ident("stringify"), punct('!'), group(Delim::Paren, arg)];
    let ghost args_v = seq![
        Tok::Str("Hello {}"@), Tok::Punct(',', false), Tok::Ident("stringify"@), Tok::Punct('!', false),
        Tok::Group(Delim::Paren, arg_v),
    ];
    assert(args.deep_view() =~= args_v);
    let body1 = vec![ident("println"), punct('!'), group(Delim::Paren, args), punct(';')];
    let ghost body1_v = seq![Tok::Ident("println"@), Tok::Punct('!', false), Tok::Group(Delim::Paren, args_v), Tok::Punct(';', false)];
    assert(body1.deep_view() =~= body1_v);
    let msg = vec![str_lit("One two three")];
    let ghost msg_v = seq![Tok::Str("One two three"@)];
    assert(msg.deep_view() =~= msg_v);
    let body2 = vec![ident("println"), punct('!'), group(Delim::Paren, msg), punct(';')];
    let ghost body2_v = seq![Tok::Ident("println"@), Tok::Punct('!', false), Tok::Group(Delim::Paren, msg_v), Tok::Punct(';', false)];
    assert(body2.deep_view() =~= body2_v);
    let self_ref = vec![punct('&'), ident("self")];
    let ghost self_ref_v = seq![Tok::Punct('&', false), Tok::Ident("self"@)];
    assert(self_ref.deep_view() =~= self_ref_v);
    let methods = vec![
        ident("fn"), ident("uppercase"), group(Delim::Paren, self_ref), group(Delim::Brace, body1), ident("fn"),
        ident("testing_testing"), empty_group(Delim::Paren), group(Delim::Brace, body2),
    ];
    let ghost methods_v = seq![
        Tok::Ident("fn"@), Tok::Ident("uppercase"@), Tok::Group(Delim::Paren, self_ref_v), Tok::Group(Delim::Brace, body1_v),
        Tok::Ident("fn"@), Tok::Ident("testing_testing"@), Tok::Group(Delim::Paren, seq![]), Tok::Group(Delim::Brace, body2_v),
    ];
    assert(methods.deep_view() =~= methods_v);
    let r = vec![ident("impl"), Token::Ident(name.clone()), group(Delim::Brace, methods)];
    assert(r.deep_view() =~= uppercase_impl(name@));
    r
}


/// What the derive makes of its raw input: `syn`'s error when it does not read it as a type
/// definition, else the `impl` for the type's name.
pub open spec fn uppercase_tokens_spec(ts: Seq<Tok>) -> Result<Seq<Tok>, ErrV> {
    match read_derive_input(ts) {
        Err((m, _)) => Err(err(m)),
        Ok(it) => Ok(uppercase_impl(it.name)),
    }
}

/// The `impl` of `uppercase` and `testing_testing`, from the derive's raw input.
pub fn uppercase_tokens(ts: &Vec<Token>) -> (r: Result<Vec<Token>, MacroError>)
    ensures
        match r {
            Ok(o) => uppercase_tokens_spec(ts.deep_view()) == Ok::<Seq<Tok>, ErrV>(o.deep_view()),
            Err(e) => uppercase_tokens_spec(ts.deep_view()) == Err::<Seq<Tok>, ErrV>(e@),
        },
{
    match read_derive_input_exec(ts) {
        Err((m, _)) => Err(MacroError { message: m, fatal: false }),
        Ok(it) => Ok(uppercase(&it)),
    }
}

} // verus!
