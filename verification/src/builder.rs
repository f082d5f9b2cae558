//! The plain builder: a companion struct with an optional value per field, a setter per field
//! and `build`, which unwraps each value.
use vstd::prelude::*;
use crate::derive_input::{read_derive_input, read_derive_input_exec};
use crate::tokens::{
    Token, Tok, Delim, ErrV, MacroError, abort, fatal, unwrap_err_with, unwrap_err_abort_with, ident, punct, joint, group, empty_group, extend, is_ident,
    is_punct,
    lemma_group_view,
};
use crate::item::{FieldDef, FieldV, ItemDef, ItemV, concat_all, terminated, append_all, append_terminated};
use crate::builder_fields::{
    FieldTemplate, fields_code, fields_code_exec, builder_ident, build_method_using, build_method_using_exec,
    create_builder_ident, is_attr_named,
};

verus! {

broadcast use lemma_group_view;

/// The fields of the builder: `name : Option < type >` for each field of the struct.
pub fn builder_field_definitions(fields: &Vec<FieldDef>) -> (r: Vec<Vec<Token>>)
    ensures
        r.deep_view() == fields_code(FieldTemplate::OptionField, fields.deep_view(), seq![]),
{
    let none = String::new();
    fields_code_exec(&FieldTemplate::OptionField, fields, &none)
}

/// The initial values of the builder's fields: `name : None` for each field of the struct.
pub fn builder_init_values(fields: &Vec<FieldDef>) -> (r: Vec<Vec<Token>>)
    ensures
        r.deep_view() == fields_code(FieldTemplate::NoneInit, fields.deep_view(), seq![]),
{
    let none = String::new();
    fields_code_exec(&FieldTemplate::NoneInit, fields, &none)
}

/// The setters of the builder: `pub fn name ( mut self , input : type ) -> Self { self . name =
/// Some ( input ) ; self }` for each field of the struct.
pub fn builder_methods(fields: &Vec<FieldDef>) -> (r: Vec<Vec<Token>>)
    ensures
        r.deep_view() == fields_code(FieldTemplate::SimpleSetter, fields.deep_view(), seq![]),
{
    let none = String::new();
    fields_code_exec(&FieldTemplate::SimpleSetter, fields, &none)
}

/// The code of the plain builder of the struct `name` with the fields `fs`:
/// `struct B { f : Option < T > , ... } impl B { setters build } impl name { pub fn builder ( )
/// -> B { B { f : None , ... } } }`, where `B` is `name` followed by `Builder`; with `defaults`,
/// `build` gives a field never set its default value, else it aborts on it.
pub open spec fn plain_builder(name: Seq<char>, fs: Seq<FieldV>, defaults: bool) -> Seq<Tok> {
    let b = builder_ident(name);
    seq![
        Tok::Ident("struct"@), Tok::Ident(b),
        Tok::Group(Delim::Brace, terminated(fields_code(FieldTemplate::OptionField, fs, seq![]), Tok::Punct(',', false))),
        Tok::Ident("impl"@), Tok::Ident(b),
        Tok::Group(Delim::Brace, concat_all(fields_code(FieldTemplate::SimpleSetter, fs, seq![]))
            + build_method_using(name, fs, build_template(defaults))),
        Tok::Ident("impl"@), Tok::Ident(name),
        Tok::Group(Delim::Brace, seq![
            Tok::Ident("pub"@), Tok::Ident("fn"@), Tok::Ident("builder"@), Tok::Group(Delim::Paren, seq![]),
            Tok::Punct('-', true), Tok::Punct('>', false), Tok::Ident(b),
            Tok::Group(Delim::Brace, seq![
                Tok::Ident(b),
                Tok::Group(Delim::Brace, terminated(fields_code(FieldTemplate::NoneInit, fs, seq![]), Tok::Punct(',', false))),
            ]),
        ]),
    ]
}

/// How `build` sets a field: with its default value when the field was never set, or by
/// aborting then.
pub open spec fn build_template(defaults: bool) -> FieldTemplate {
    if defaults {
        FieldTemplate::DefaultSetter
    } else {
        FieldTemplate::Setter
    }
}

/// Whether the struct carries the attribute `builder_defaults`.
pub open spec fn has_defaults(attrs: Seq<Tok>) -> bool {
    exists|i: int| 0 <= i < attrs.len() && #[trigger] is_attr_named(attrs[i], "builder_defaults"@)
}

/// What the builder derive gives for a type definition: the plain builder of a struct with named
/// fields, its setters named as their `rename` attributes say and its `build` using default
/// values under `builder_defaults`. Anything but a struct with named fields aborts.
pub open spec fn create_builder_spec(item: ItemV) -> Result<Seq<Tok>, ErrV> {
    match item.fields {
        Some(fs) => Ok(plain_builder(item.name, fs, has_defaults(item.attrs))),
        None => Err(abort("not implemented: only implemented for structs"@)),
    }
}

/// Whether the attribute tokens hold `builder_defaults`.
fn has_defaults_exec(attrs: &Vec<Token>) -> (r: bool)
    ensures
        r == has_defaults(attrs.deep_view()),
{
    let ghost v = attrs.deep_view();
    let mut i: usize = 0;
    while i < attrs.len()
        invariant
            i <= v.len(),
            v == attrs.deep_view(),
            forall|j: int| 0 <= j < i ==> !#[trigger] is_attr_named(v[j], "builder_defaults"@),
        decreases v.len() - i,
    {
        match &attrs[i] {
            Token::Group(Delim::Bracket, c) => {
                proof {
                    lemma_group_view(Delim::Bracket, *c);
                }
                if c.len() > 0 && is_ident(&c[0], "builder_defaults") && !(c.len() > 1 && is_punct(&c[1], ':')) {
                    assert(is_attr_named(v[i as int], "builder_defaults"@));
                    return true;
                }
            },
            _ => {},
        }
        i = i + 1;
    }
    false
}

fn builder_constructor_exec(name: &String, b: &String, fields: &Vec<FieldDef>) -> (r: Vec<Token>)
    ensures
        r.deep_view() == seq![
            Tok::Ident("impl"@), Tok::Ident(name@),
            Tok::Group(Delim::Brace, seq![
                Tok::Ident("pub"@), Tok::Ident("fn"@), Tok::Ident("builder"@), Tok::Group(Delim::Paren, seq![]),
                Tok::Punct('-', true), Tok::Punct('>', false), Tok::Ident(b@),
                Tok::Group(Delim::Brace, seq![
                    Tok::Ident(b@),
                    Tok::Group(Delim::Brace, terminated(
                        fields_code(FieldTemplate::NoneInit, fields.deep_view(), seq![]),
                        Tok::Punct(',', false),
                    )),
                ]),
            ]),
        ],
{
    let inits = builder_init_values(fields);
    let mut init: Vec<Token> = Vec::new();
    append_terminated(&mut init, &inits, ',');
    let ghost init_v = terminated(fields_code(FieldTemplate::NoneInit, fields.deep_view(), seq![]), Tok::Punct(',', false));
    assert(init.deep_view() =~= init_v);
    let value = vec![Token::Ident(b.clone()), group(Delim::Brace, init)];
    let ghost value_v = seq![Tok::Ident(b@), Tok::Group(Delim::Brace, init_v)];
    assert(value.deep_view() =~= value_v);
    let method = vec![
        ident("pub"), ident("fn"), ident("builder"), empty_group(Delim::Paren), joint('-'), punct('>'),
        Token::Ident(b.clone()), group(Delim::Brace, value),
    ];
    let ghost method_v = seq![
        Tok::Ident("pub"@), Tok::Ident("fn"@), Tok::Ident("builder"@), Tok::Group(Delim::Paren, seq![]),
        Tok::Punct('-', true), Tok::Punct('>', false), Tok::Ident(b@), Tok::Group(Delim::Brace, value_v),
    ];
    assert(method.deep_view() =~= method_v);
    let r = vec![ident("impl"), Token::Ident(name.clone()), group(Delim::Brace, method)];
    assert(r.deep_view() =~= seq![Tok::Ident("impl"@), Tok::Ident(name@), Tok::Group(Delim::Brace, method_v)]);
    r
}

/// The plain builder of a struct with named fields; anything else aborts with
/// `not implemented: only implemented for structs`.
pub fn create_builder(item: &ItemDef) -> (r: Result<Vec<Token>, MacroError>)
    ensures
        match r {
            Ok(ts) => create_builder_spec(item.deep_view()) == Ok::<Seq<Tok>, ErrV>(ts.deep_view()),
            Err(e) => create_builder_spec(item.deep_view()) == Err::<Seq<Tok>, ErrV>(e@),
        },
{
    let fields = match &item.fields {
        Some(fs) => fs,
        None => {
            return Err(fatal("not implemented: only implemented for structs"));
        },
    };
    let ghost fs = fields.deep_view();
    assert(item.deep_view().fields == Some(fs));
    let defaults = has_defaults_exec(&item.attrs);
    let template = if defaults { FieldTemplate::DefaultSetter } else { FieldTemplate::Setter };
    let name = &item.name;
    let builder = create_builder_ident(name);
    let ghost b = builder@;

    let builder_fields = builder_field_definitions(fields);
    let mut struct_body: Vec<Token> = Vec::new();
    append_terminated(&mut struct_body, &builder_fields, ',');
    let ghost struct_body_v = terminated(fields_code(FieldTemplate::OptionField, fs, seq![]), Tok::Punct(',', false));
    assert(struct_body.deep_view() =~= struct_body_v);

    let setters = builder_methods(fields);
    let mut impl_body: Vec<Token> = Vec::new();
    append_all(&mut impl_body, &setters);
    extend(&mut impl_body, build_method_using_exec(name, fields, &template));
    let ghost impl_body_v = concat_all(fields_code(FieldTemplate::SimpleSetter, fs, seq![])) + build_method_using(
        name@,
        fs,
        build_template(defaults),
    );
    assert(impl_body.deep_view() =~= impl_body_v);

    let mut out = vec![
        ident("struct"), Token::Ident(builder.clone()), group(Delim::Brace, struct_body), ident("impl"),
        Token::Ident(builder.clone()), group(Delim::Brace, impl_body),
    ];
    assert(out.deep_view() =~= seq![
        Tok::Ident("struct"@), Tok::Ident(b), Tok::Group(Delim::Brace, struct_body_v), Tok::Ident("impl"@),
        Tok::Ident(b), Tok::Group(Delim::Brace, impl_body_v),
    ]);
    extend(&mut out, builder_constructor_exec(name, &builder, fields));
    assert(out.deep_view() =~= plain_builder(name@, fs, defaults));
    Ok(out)
}


/// What the builder derive makes of its raw input: an abort that shows `syn`'s error when `syn`
/// does not read it as a type definition (the derive unwraps the parse), else as
/// `create_builder_spec` says.
pub open spec fn create_builder_tokens_spec(ts: Seq<Tok>) -> Result<Seq<Tok>, ErrV> {
    match read_derive_input(ts) {
        Err((_, d)) => Err(abort(unwrap_err_with(d))),
        Ok(it) => create_builder_spec(it),
    }
}

/// The plain builder from the derive's raw input.
pub fn create_builder_tokens(ts: &Vec<Token>) -> (r: Result<Vec<Token>, MacroError>)
    ensures
        match r {
            Ok(o) => create_builder_tokens_spec(ts.deep_view()) == Ok::<Seq<Tok>, ErrV>(o.deep_view()),
            Err(e) => create_builder_tokens_spec(ts.deep_view()) == Err::<Seq<Tok>, ErrV>(e@),
        },
{
    match read_derive_input_exec(ts) {
        Err((_, d)) => Err(unwrap_err_abort_with(&d)),
        Ok(it) => create_builder(&it),
    }
}

/// An attribute `# [ builder_defaults ]`.
pub open spec fn defaults_attr() -> Seq<Tok> {
    seq![Tok::Punct('#', false), Tok::Group(Delim::Bracket, seq![Tok::Ident("builder_defaults"@)])]
}

/// Whether `build` falls back to default values is decided by all the struct's attributes alike:
/// attributes written one after the other use defaults exactly when one part of them does, a lone
/// token asks for defaults exactly when it is the bracketed `builder_defaults`, and no attributes
/// ask for none. So `builder_defaults` counts wherever it stands among the attributes.
pub proof fn law_defaults_wherever_written(a: Seq<Tok>, b: Seq<Tok>, t: Tok)
    ensures
        has_defaults(a + b) == (has_defaults(a) || has_defaults(b)),
        has_defaults(seq![t]) == is_attr_named(t, "builder_defaults"@),
        !has_defaults(Seq::<Tok>::empty()),
        has_defaults(defaults_attr()),
{
    let ab = a + b;
    if has_defaults(ab) {
        let i = choose|i: int| 0 <= i < ab.len() && #[trigger] is_attr_named(ab[i], "builder_defaults"@);
        if i < a.len() {
            assert(a[i] == ab[i]);
        } else {
            assert(b[i - a.len()] == ab[i]);
        }
    }
    if has_defaults(a) {
        let i = choose|i: int| 0 <= i < a.len() && #[trigger] is_attr_named(a[i], "builder_defaults"@);
        assert(ab[i] == a[i]);
    }
    if has_defaults(b) {
        let i = choose|i: int| 0 <= i < b.len() && #[trigger] is_attr_named(b[i], "builder_defaults"@);
        assert(ab[i + a.len()] == b[i]);
    }
    if is_attr_named(t, "builder_defaults"@) {
        assert(seq![t][0] == t);
    }
    let d = defaults_attr();
    assert(is_attr_named(d[1], "builder_defaults"@));
}

/// Attributes written before or after those of a struct, none of them `builder_defaults`, leave
/// its builder as it is: `builder_defaults` among the struct's own attributes is honoured wherever
/// it stands.
pub proof fn law_other_attributes_leave_the_builder(item: ItemV, pre: Seq<Tok>, post: Seq<Tok>)
    requires
        !has_defaults(pre),
        !has_defaults(post),
    ensures
        create_builder_spec(ItemV { attrs: pre + item.attrs + post, ..item }) == create_builder_spec(item),
{
    law_defaults_wherever_written(pre, item.attrs, Tok::Punct('#', false));
    law_defaults_wherever_written(pre + item.attrs, post, Tok::Punct('#', false));
}

} // verus!
