//! The `private` macro: a struct with named fields is written again with private fields, a getter
//! `get_<field>` for each field, and a constructor `new`.
use vstd::prelude::*;
use crate::derive_input::{read_derive_input, read_derive_input_exec};
use crate::tokens::{
    Token, Tok, Delim, LitKind, ErrV, MacroError, err, abort, fatal, ident, punct, joint, str_lit, group, empty_group,
    copy_tokens, extend, push_tok, push_part, concat, lemma_group_view,
};
use crate::item::{FieldDef, FieldV, ItemDef, ItemV, concat_all, separated, append_all, append_separated};

verus! {

broadcast use lemma_group_view;

/// The name of the getter of a field.
pub open spec fn getter_name(field: Seq<char>) -> Seq<char> {
    "get_"@ + field
}

/// Whether the getter's name is an identifier: it is not when the field's name is a raw
/// identifier (`r#type`).
pub open spec fn getter_name_ok(field: Seq<char>) -> bool {
    !field.contains('#')
}

/// The abort for a getter whose name is not an identifier.
pub open spec fn bad_getter_msg(field: Seq<char>) -> Seq<char> {
    "\""@ + getter_name(field) + "\" is not a valid Ident"@
}

/// `fn get_f ( & self ) -> & T { & self . f }`
pub open spec fn getter(f: FieldV) -> Seq<Tok> {
    seq![
        Tok::Ident("fn"@), Tok::Ident(getter_name(f.name)),
        Tok::Group(Delim::Paren, seq![Tok::Punct('&', false), Tok::Ident("self"@)]), Tok::Punct('-', true),
        Tok::Punct('>', false), Tok::Punct('&', false),
    ] + f.ty + seq![
        Tok::Group(Delim::Brace, seq![Tok::Punct('&', false), Tok::Ident("self"@), Tok::Punct('.', false), Tok::Ident(f.name)]),
    ]
}

/// The index of the first field whose getter's name is not an identifier, if there is one.
pub open spec fn first_bad_getter(fs: Seq<FieldV>) -> Option<int> {
    if exists|i: int| 0 <= i < fs.len() && !getter_name_ok(#[trigger] fs[i].name) {
        Some(choose|i: int| 0 <= i < fs.len() && !getter_name_ok(#[trigger] fs[i].name)
            && forall|j: int| 0 <= j < i ==> getter_name_ok(#[trigger] fs[j].name))
    } else {
        None
    }
}

/// What the getters of a type definition are: one per field, or an abort for anything but a
/// struct with named fields, or for the first field whose getter's name is not an identifier.
pub open spec fn getters_spec(item: ItemV) -> Result<Seq<Seq<Tok>>, ErrV> {
    match item.fields {
        None => Err(abort("not implemented: only works for structs with named fields"@)),
        Some(fs) => match first_bad_getter(fs) {
            Some(i) => Err(abort(bad_getter_msg(fs[i].name))),
            None => Ok(Seq::new(fs.len(), |i: int| getter(fs[i]))),
        },
    }
}

/// `name : T`
pub open spec fn plain_field(f: FieldV) -> Seq<Tok> {
    seq![Tok::Ident(f.name), Tok::Punct(':', false)] + f.ty
}

/// `struct Name { a : A , b : B }`: the struct again, without visibility, generics or attributes,
/// and with private fields.
pub open spec fn private_struct(name: Seq<char>, fs: Seq<FieldV>) -> Seq<Tok> {
    seq![
        Tok::Ident("struct"@), Tok::Ident(name),
        Tok::Group(Delim::Brace, separated(Seq::new(fs.len(), |i: int| plain_field(fs[i])), Tok::Punct(',', false))),
    ]
}

/// `pub fn new ( ) -> Self { Self { string_value : "Hello" . to_string ( ) , number_value : 1 , } }`
pub open spec fn new_fn() -> Seq<Tok> {
    seq![
        Tok::Ident("pub"@), Tok::Ident("fn"@), Tok::Ident("new"@), Tok::Group(Delim::Paren, seq![]),
        Tok::Punct('-', true), Tok::Punct('>', false), Tok::Ident("Self"@),
        Tok::Group(Delim::Brace, seq![
            Tok::Ident("Self"@),
            Tok::Group(Delim::Brace, seq![
                Tok::Ident("string_value"@), Tok::Punct(':', false), Tok::Str("Hello"@), Tok::Punct('.', false),
                Tok::Ident("to_string"@), Tok::Group(Delim::Paren, seq![]), Tok::Punct(',', false),
                Tok::Ident("number_value"@), Tok::Punct(':', false), Tok::Lit(LitKind::Int, "1"@), Tok::Punct(',', false),
            ]),
        ]),
    ]
}

/// What `private` makes of a type definition: the struct with private fields, and an `impl` with
/// the getters and `new`.
pub open spec fn private_spec(item: ItemV) -> Result<Seq<Tok>, ErrV> {
    match getters_spec(item) {
        Err(e) => Err(e),
        Ok(getters) => Ok(private_struct(item.name, item.fields->Some_0) + seq![
            Tok::Ident("impl"@), Tok::Ident(item.name), Tok::Group(Delim::Brace, concat_all(getters) + new_fn()),
        ]),
    }
}

fn has_hash(s: &String) -> (r: bool)
    ensures
        r == s@.contains('#'),
{
    let n = s.as_str().unicode_len();
    let mut i: usize = 0;
    while i < n
        invariant
            n == s@.len(),
            i <= n,
            forall|j: int| 0 <= j < i ==> s@[j] != '#',
        decreases n - i,
    {
        if s.as_str().get_char(i) == '#' {
            return true;
        }
        i = i + 1;
    }
    false
}

fn getter_exec(f: &FieldDef) -> (r: Vec<Token>)
    ensures
        r.deep_view() == getter(f.deep_view()),
{
    let name = concat("get_", f.name.as_str());
    let self_ref = vec![punct('&'), ident("self")];
    let ghost self_ref_v = seq![Tok::Punct('&', false), Tok::Ident("self"@)];
    assert(self_ref.deep_view() =~= self_ref_v);
    let mut r = vec![ident("fn"), Token::Ident(name), group(Delim::Paren, self_ref), joint('-'), punct('>'), punct('&')];
    assert(r.deep_view() =~= seq![
        Tok::Ident("fn"@), Tok::Ident(getter_name(f.name@)), Tok::Group(Delim::Paren, self_ref_v), Tok::Punct('-', true),
        Tok::Punct('>', false), Tok::Punct('&', false),
    ]);
    extend(&mut r, copy_tokens(&f.ty));
    let body = vec![punct('&'), ident("self"), punct('.'), Token::Ident(f.name.clone())];
    let ghost body_v = seq![Tok::Punct('&', false), Tok::Ident("self"@), Tok::Punct('.', false), Tok::Ident(f.name@)];
    assert(body.deep_view() =~= body_v);
    push_tok(&mut r, group(Delim::Brace, body));
    assert(r.deep_view() =~= getter(f.deep_view()));
    r
}

/// The getters of a struct's fields: `fn get_f ( & self ) -> & T { & self . f }` for each field.
pub fn generated_methods(ast: &ItemDef) -> (r: Result<Vec<Vec<Token>>, MacroError>)
    ensures
        match r {
            Ok(ms) => getters_spec(ast.deep_view()) == Ok::<Seq<Seq<Tok>>, ErrV>(ms.deep_view()),
            Err(e) => getters_spec(ast.deep_view()) == Err::<Seq<Seq<Tok>>, ErrV>(e@),
        },
{
    let named_fields = match &ast.fields {
        Some(fs) => fs,
        None => {
            return Err(fatal("not implemented: only works for structs with named fields"));
        },
    };
    let ghost fs = named_fields.deep_view();
    assert(ast.deep_view().fields == Some(fs));
    let mut out: Vec<Vec<Token>> = Vec::new();
    let mut i: usize = 0;
    while i < named_fields.len()
        invariant
            i <= fs.len(),
            fs == named_fields.deep_view(),
            ast.deep_view().fields == Some(fs),
            forall|j: int| 0 <= j < i ==> getter_name_ok(#[trigger] fs[j].name),
            out.deep_view() =~= Seq::new(i as nat, |j: int| getter(fs[j])),
        decreases fs.len() - i,
    {
        let f = &named_fields[i];
        if has_hash(&f.name) {
            let m = concat("\"", concat("get_", f.name.as_str()).as_str());
            let m = concat(m.as_str(), "\" is not a valid Ident");
            assert(first_bad_getter(fs) == Some(i as int)) by {
                assert(!getter_name_ok(fs[i as int].name));
                let k = choose|k: int| 0 <= k < fs.len() && !getter_name_ok(#[trigger] fs[k].name)
                    && forall|j: int| 0 <= j < k ==> getter_name_ok(#[trigger] fs[j].name);
                if k < i {
                } else if k > i {
                    assert(getter_name_ok(fs[i as int].name));
                }
            }
            assert(m@ =~= bad_getter_msg(fs[i as int].name));
            return Err(MacroError { message: m, fatal: true });
        }
        let g = getter_exec(f);
        push_part(&mut out, g);
        i = i + 1;
    }
    assert(first_bad_getter(fs) is None);
    Ok(out)
}

/// The struct again with private fields: `struct Name { a : A , b : B }`.
pub fn generate_private_struct(name: &String, ast: &ItemDef) -> (r: Result<Vec<Token>, MacroError>)
    ensures
        match r {
            Ok(ts) => ast.deep_view().fields matches Some(fs) && ts.deep_view() == private_struct(name@, fs),
            Err(e) => ast.deep_view().fields is None
                && e@ == abort("not implemented: only works for structs with named fields"@),
        },
{
    let named_fields = match &ast.fields {
        Some(fs) => fs,
        None => {
            return Err(fatal("not implemented: only works for structs with named fields"));
        },
    };
    let ghost fs = named_fields.deep_view();
    let mut fields: Vec<Vec<Token>> = Vec::new();
    let mut i: usize = 0;
    while i < named_fields.len()
        invariant
            i <= fs.len(),
            fs == named_fields.deep_view(),
            fields.deep_view() =~= Seq::new(i as nat, |j: int| plain_field(fs[j])),
        decreases fs.len() - i,
    {
        let f = &named_fields[i];
        let mut part = vec![Token::Ident(f.name.clone()), punct(':')];
        assert(part.deep_view() =~= seq![Tok::Ident(f.name@), Tok::Punct(':', false)]);
        extend(&mut part, copy_tokens(&f.ty));
        push_part(&mut fields, part);
        i = i + 1;
    }
    let mut body: Vec<Token> = Vec::new();
    append_separated(&mut body, &fields, ',');
    let ghost body_v = separated(Seq::new(fs.len(), |j: int| plain_field(fs[j])), Tok::Punct(',', false));
    assert(body.deep_view() =~= body_v);
    let r = vec![ident("struct"), Token::Ident(name.clone()), group(Delim::Brace, body)];
    assert(r.deep_view() =~= private_struct(name@, fs));
    Ok(r)
}

fn new_fn_exec() -> (r: Vec<Token>)
    ensures
        r.deep_view() == new_fn(),
{
    let init = vec![
        ident("string_value"), punct(':'), str_lit("Hello"), punct('.'), ident("to_string"), empty_group(Delim::Paren),
        punct(','), ident("number_value"), punct(':'), Token::Lit(LitKind::Int, String::from_str("1")), punct(','),
    ];
    let ghost init_v = seq![
        Tok::Ident("string_value"@), Tok::Punct(':', false), Tok::Str("Hello"@), Tok::Punct('.', false),
        Tok::Ident("to_string"@), Tok::Group(Delim::Paren, seq![]), Tok::Punct(',', false),
        Tok::Ident("number_value"@), Tok::Punct(':', false), Tok::Lit(LitKind::Int, "1"@), Tok::Punct(',', false),
    ];
    assert(init.deep_view() =~= init_v);
    let value = vec![ident("Self"), group(Delim::Brace, init)];
    let ghost value_v = seq![Tok::Ident("Self"@), Tok::Group(Delim::Brace, init_v)];
    assert(value.deep_view() =~= value_v);
    let r = vec![
        ident("pub"), ident("fn"), ident("new"), empty_group(Delim::Paren), joint('-'), punct('>'), ident("Self"),
        group(Delim::Brace, value),
    ];
    assert(r.deep_view() =~= new_fn());
    r
}

/// The struct with private fields, its getters and `new`.
pub fn private(item: &ItemDef) -> (r: Result<Vec<Token>, MacroError>)
    ensures
        match r {
            Ok(ts) => private_spec(item.deep_view()) == Ok::<Seq<Tok>, ErrV>(ts.deep_view()),
            Err(e) => private_spec(item.deep_view()) == Err::<Seq<Tok>, ErrV>(e@),
        },
{
    let name = &item.name;
    let methods = match generated_methods(item) {
        Ok(ms) => ms,
        Err(e) => {
            return Err(e);
        },
    };
    let mut out = match generate_private_struct(name, item) {
        Ok(ts) => ts,
        Err(e) => {
            return Err(e);
        },
    };
    let ghost fs = item.deep_view().fields->Some_0;
    let mut body: Vec<Token> = Vec::new();
    append_all(&mut body, &methods);
    extend(&mut body, new_fn_exec());
    let ghost body_v = concat_all(methods.deep_view()) + new_fn();
    assert(body.deep_view() =~= body_v);
    let tail = vec![ident("impl"), Token::Ident(name.clone()), group(Delim::Brace, body)];
    assert(tail.deep_view() =~= seq![Tok::Ident("impl"@), Tok::Ident(name@), Tok::Group(Delim::Brace, body_v)]);
    extend(&mut out, tail);
    Ok(out)
}


/// What `private` makes of its raw input: `syn`'s error when it does not read it as a type
/// definition, else as `private_spec` says.
pub open spec fn private_tokens_spec(ts: Seq<Tok>) -> Result<Seq<Tok>, ErrV> {
    match read_derive_input(ts) {
        Err((m, _)) => Err(err(m)),
        Ok(it) => private_spec(it),
    }
}

/// The struct with private fields, its getters and `new`, from the macro's raw input.
pub fn private_tokens(ts: &Vec<Token>) -> (r: Result<Vec<Token>, MacroError>)
    ensures
        match r {
            Ok(o) => private_tokens_spec(ts.deep_view()) == Ok::<Seq<Tok>, ErrV>(o.deep_view()),
            Err(e) => private_tokens_spec(ts.deep_view()) == Err::<Seq<Tok>, ErrV>(e@),
        },
{
    match read_derive_input_exec(ts) {
        Err((m, _)) => Err(MacroError { message: m, fatal: false }),
        Ok(it) => private(&it),
    }
}

} // verus!
