//! The typestate builder: a builder type with one marker type per field, whose setters must be
//! called in the order of the fields before `build` is available.
use vstd::prelude::*;
use crate::tokens::{
    Token, Tok, Delim, ident, punct, joint, str_lit, group, empty_group, copy_tokens, extend, push_tok,
    push_part, concat, push_char, is_ident, is_punct, is_punct_tok, str_value, str_value_of,
    lemma_group_view,
};
use crate::item::{FieldDef, FieldV, concat_all, terminated, append_all, append_terminated};

verus! {

broadcast use lemma_group_view;

// ---------------------------------------------------------------------------------------------
// Names
// ---------------------------------------------------------------------------------------------

/// A character in upper case, when it is an ASCII lower-case letter.
pub open spec fn ascii_upper(c: char) -> char {
    if 'a' <= c <= 'z' {
        ((c as u8) - 32) as u8 as char
    } else {
        c
    }
}

/// A snake-case name in Pascal case from the flag `cap` on: underscores are dropped and the
/// letter after each of them (and the first one, when `cap` holds) is put in upper case.
pub open spec fn pascal_from(s: Seq<char>, cap: bool) -> Seq<char>
    decreases s.len(),
{
    if s.len() == 0 {
        seq![]
    } else if s[0] == '_' {
        pascal_from(s.drop_first(), true)
    } else {
        seq![if cap { ascii_upper(s[0]) } else { s[0] }] + pascal_from(s.drop_first(), false)
    }
}

/// A snake-case name in Pascal case (`roots_of` becomes `RootsOf`).
pub open spec fn pascal(s: Seq<char>) -> Seq<char> {
    pascal_from(s, true)
}

/// The name of the builder of the struct `name`.
pub open spec fn builder_ident(name: Seq<char>) -> Seq<char> {
    name + "Builder"@
}

/// The name of the marker type of a field in a builder.
pub open spec fn field_struct_name(builder: Seq<char>, field: Seq<char>) -> Seq<char> {
    pascal(field) + builder
}

fn upper(c: char) -> (r: char)
    ensures
        r == ascii_upper(c),
{
    if 'a' <= c && c <= 'z' {
        let b = (c as u8) - 32;
        b as char
    } else {
        c
    }
}

/// A snake-case name in Pascal case.
pub fn to_pascal_case(s: &str) -> (r: String)
    ensures
        r@ == pascal(s@),
{
    let n = s.unicode_len();
    let mut out = String::new();
    let mut cap = true;
    let mut i: usize = 0;
    assert(s@.skip(0) =~= s@);
    while i < n
        invariant
            n == s@.len(),
            i <= n,
            pascal(s@) == out@ + pascal_from(s@.skip(i as int), cap),
        decreases n - i,
    {
        let c = s.get_char(i);
        assert(s@.skip(i as int)[0] == c);
        assert(s@.skip(i as int).drop_first() =~= s@.skip(i + 1));
        if c == '_' {
            cap = true;
        } else {
            let d = if cap { upper(c) } else { c };
            let ghost before = out@;
            push_char(&mut out, d);
            assert(before + (seq![d] + pascal_from(s@.skip(i + 1), false)) =~= out@ + pascal_from(
                s@.skip(i + 1),
                false,
            ));
            cap = false;
        }
        i = i + 1;
    }
    assert(s@.skip(n as int) =~= Seq::<char>::empty());
    assert(out@ + Seq::<char>::empty() =~= out@);
    out
}

/// The name of the builder of the struct `name`: `name` followed by `Builder`.
pub fn create_builder_ident(name: &String) -> (r: String)
    ensures
        r@ == builder_ident(name@),
{
    concat(name.as_str(), "Builder")
}

/// The name of the marker type of a field: the field's name in Pascal case followed by the
/// builder's name.
pub fn create_field_struct_name(builder: &String, field: &String) -> (r: String)
    ensures
        r@ == field_struct_name(builder@, field@),
{
    let p = to_pascal_case(field.as_str());
    concat(p.as_str(), builder.as_str())
}

// ---------------------------------------------------------------------------------------------
// Per-field code
// ---------------------------------------------------------------------------------------------

/// The code that the builders generate for each field.
pub enum FieldTemplate {
    /// `name : self . name`
    Assignment,
    /// `name : self . name . expect ( concat ! ( "field is not set: " , "name" ) )`
    Setter,
    /// `name : Option < type >`
    OptionField,
    /// `name : None`
    NoneInit,
    /// `pub fn setter ( mut self , input : type ) -> Self { self . name = Some ( input ) ; self }`,
    /// where the setter is named by the field's `rename` attribute, else after the field
    SimpleSetter,
    /// `name : self . name . unwrap_or_default ( )`
    DefaultSetter,
    /// `pub struct Marker { } impl MarkerTraitForBuilder for Marker { }`, the marker type of the
    /// field in the builder named by the argument.
    MarkerStruct,
}

/// `pub struct s { } impl MarkerTraitForBuilder for s { }`
pub open spec fn marker_struct(s: Seq<char>) -> Seq<Tok> {
    seq![
        Tok::Ident("pub"@), Tok::Ident("struct"@), Tok::Ident(s), Tok::Group(Delim::Brace, seq![]),
        Tok::Ident("impl"@), Tok::Ident("MarkerTraitForBuilder"@), Tok::Ident("for"@), Tok::Ident(s),
        Tok::Group(Delim::Brace, seq![]),
    ]
}

/// Whether an attribute's content has the single identifier `name` as its path (`name`,
/// `name ( ... )`, `name = ...`).
pub open spec fn attr_path_is(c: Seq<Tok>, name: Seq<char>) -> bool {
    c.len() > 0 && c[0] == Tok::Ident(name) && !(c.len() > 1 && is_punct_tok(c[1], ':'))
}

/// Whether the token is an attribute's bracketed content with the path `name`.
pub open spec fn is_attr_named(t: Tok, name: Seq<char>) -> bool {
    t matches Tok::Group(d, c) && d == Delim::Bracket && attr_path_is(c, name)
}

/// The new name that a `rename` attribute with the content `c` gives: from `rename ( "n" )` or
/// `rename = "n"`; any other form gives none.
pub open spec fn rename_value(c: Seq<Tok>) -> Option<Seq<char>> {
    if c.len() == 3 && is_punct_tok(c[1], '=') && str_value(c[2]) is Some {
        str_value(c[2])
    } else if c.len() == 2 && c[1] is Group && c[1]->Group_1.len() == 1 && str_value(c[1]->Group_1[0]) is Some {
        str_value(c[1]->Group_1[0])
    } else {
        None
    }
}

/// The new name that the first `rename` attribute among the attribute tokens from `i` on gives,
/// if there is such an attribute and it has a form that gives one.
pub open spec fn rename_from(attrs: Seq<Tok>, i: int) -> Option<Seq<char>>
    decreases attrs.len() - i,
{
    if i < 0 || i >= attrs.len() {
        None
    } else if is_attr_named(attrs[i], "rename"@) {
        rename_value(attrs[i]->Group_1)
    } else {
        rename_from(attrs, i + 1)
    }
}

/// The name of the setter of a field: the name its `rename` attribute gives, else its own.
pub open spec fn setter_name(f: FieldV) -> Seq<char> {
    match rename_from(f.attrs, 0) {
        Some(n) => n,
        None => f.name,
    }
}

/// The new name that the first `rename` attribute among attribute tokens gives, as `rename_from`
/// says.
pub fn rename_of(attrs: &Vec<Token>) -> (r: Option<String>)
    ensures
        match r {
            None => rename_from(attrs.deep_view(), 0) is None,
            Some(n) => rename_from(attrs.deep_view(), 0) == Some(n@),
        },
{
    let ghost v = attrs.deep_view();
    let mut i: usize = 0;
    while i < attrs.len()
        invariant
            i <= v.len(),
            v == attrs.deep_view(),
            rename_from(v, 0) == rename_from(v, i as int),
        decreases v.len() - i,
    {
        match &attrs[i] {
            Token::Group(Delim::Bracket, c) => {
                let ghost cv = c.deep_view();
                proof {
                    lemma_group_view(Delim::Bracket, *c);
                }
                assert(v[i as int] == Tok::Group(Delim::Bracket, cv));
                let named = c.len() > 0 && is_ident(&c[0], "rename") && !(c.len() > 1 && is_punct(&c[1], ':'));
                if named {
                    if c.len() == 3 && is_punct(&c[1], '=') {
                        return str_value_of(&c[2]);
                    }
                    if c.len() == 2 {
                        match &c[1] {
                            Token::Group(_, g) => {
                                assert(cv[1]->Group_1 == g.deep_view());
                                if g.len() == 1 {
                                    return str_value_of(&g[0]);
                                }
                            },
                            _ => {},
                        }
                    }
                    return None;
                }
            },
            _ => {},
        }
        i = i + 1;
    }
    None
}

/// The name of the setter of a field.
pub fn setter_name_exec(f: &FieldDef) -> (r: String)
    ensures
        r@ == setter_name(f.deep_view()),
{
    match rename_of(&f.attrs) {
        Some(n) => n,
        None => f.name.clone(),
    }
}

/// The code for the field `f`; `builder` names the builder of a marker type.
pub open spec fn field_code(t: FieldTemplate, f: FieldV, builder: Seq<char>) -> Seq<Tok> {
    match t {
        FieldTemplate::Assignment => seq![
            Tok::Ident(f.name), Tok::Punct(':', false), Tok::Ident("self"@), Tok::Punct('.', false), Tok::Ident(f.name),
        ],
        FieldTemplate::Setter => seq![
            Tok::Ident(f.name), Tok::Punct(':', false), Tok::Ident("self"@), Tok::Punct('.', false), Tok::Ident(f.name),
            Tok::Punct('.', false), Tok::Ident("expect"@),
            Tok::Group(Delim::Paren, seq![
                Tok::Ident("concat"@), Tok::Punct('!', false),
                Tok::Group(Delim::Paren, seq![Tok::Str("field is not set: "@), Tok::Punct(',', false), Tok::Str(f.name)]),
            ]),
        ],
        FieldTemplate::OptionField => seq![
            Tok::Ident(f.name), Tok::Punct(':', false), Tok::Ident("Option"@), Tok::Punct('<', false),
        ] + f.ty + seq![Tok::Punct('>', false)],
        FieldTemplate::NoneInit => seq![Tok::Ident(f.name), Tok::Punct(':', false), Tok::Ident("None"@)],
        FieldTemplate::DefaultSetter => seq![
            Tok::Ident(f.name), Tok::Punct(':', false), Tok::Ident("self"@), Tok::Punct('.', false), Tok::Ident(f.name),
            Tok::Punct('.', false), Tok::Ident("unwrap_or_default"@), Tok::Group(Delim::Paren, seq![]),
        ],
        FieldTemplate::SimpleSetter => seq![
            Tok::Ident("pub"@), Tok::Ident("fn"@), Tok::Ident(setter_name(f)),
            Tok::Group(Delim::Paren, seq![
                Tok::Ident("mut"@), Tok::Ident("self"@), Tok::Punct(',', false), Tok::Ident("input"@),
                Tok::Punct(':', false),
            ] + f.ty),
            Tok::Punct('-', true), Tok::Punct('>', false), Tok::Ident("Self"@),
            Tok::Group(Delim::Brace, seq![
                Tok::Ident("self"@), Tok::Punct('.', false), Tok::Ident(f.name), Tok::Punct('=', false),
                Tok::Ident("Some"@), Tok::Group(Delim::Paren, seq![Tok::Ident("input"@)]), Tok::Punct(';', false),
                Tok::Ident("self"@),
            ]),
        ],
        FieldTemplate::MarkerStruct => marker_struct(field_struct_name(builder, f.name)),
    }
}

/// The code for each field, in the order of the fields.
pub open spec fn fields_code(t: FieldTemplate, fs: Seq<FieldV>, builder: Seq<char>) -> Seq<Seq<Tok>> {
    Seq::new(fs.len(), |i: int| field_code(t, fs[i], builder))
}

/// `( mut self , input : type )`
fn self_input_params(ty: &Vec<Token>) -> (r: Token)
    ensures
        r@ == Tok::Group(Delim::Paren, seq![
            Tok::Ident("mut"@), Tok::Ident("self"@), Tok::Punct(',', false), Tok::Ident("input"@),
            Tok::Punct(':', false),
        ] + ty.deep_view()),
{
    let mut params = vec![ident("mut"), ident("self"), punct(','), ident("input"), punct(':')];
    assert(params.deep_view() =~= seq![
        Tok::Ident("mut"@), Tok::Ident("self"@), Tok::Punct(',', false), Tok::Ident("input"@), Tok::Punct(':', false),
    ]);
    extend(&mut params, copy_tokens(ty));
    group(Delim::Paren, params)
}

/// `self . name = Some ( input ) ;`
pub open spec fn store_input(name: Seq<char>) -> Seq<Tok> {
    seq![
        Tok::Ident("self"@), Tok::Punct('.', false), Tok::Ident(name), Tok::Punct('=', false), Tok::Ident("Some"@),
        Tok::Group(Delim::Paren, seq![Tok::Ident("input"@)]), Tok::Punct(';', false),
    ]
}

fn store_input_exec(name: &String) -> (r: Vec<Token>)
    ensures
        r.deep_view() == store_input(name@),
{
    let arg = vec![ident("input")];
    assert(arg.deep_view() =~= seq![Tok::Ident("input"@)]);
    let r = vec![
        ident("self"), punct('.'), Token::Ident(name.clone()), punct('='), ident("Some"), group(Delim::Paren, arg),
        punct(';'),
    ];
    assert(r.deep_view() =~= store_input(name@));
    r
}

/// The code for one field.
fn field_code_exec(t: &FieldTemplate, f: &FieldDef, builder: &String) -> (r: Vec<Token>)
    ensures
        r.deep_view() == field_code(*t, f.deep_view(), builder@),
{
    let name = &f.name;
    match t {
        FieldTemplate::Assignment => {
            let r = vec![Token::Ident(name.clone()), punct(':'), ident("self"), punct('.'), Token::Ident(name.clone())];
            assert(r.deep_view() =~= field_code(*t, f.deep_view(), builder@));
            r
        },
        FieldTemplate::Setter => {
            let msg = vec![str_lit("field is not set: "), punct(','), Token::Str(name.clone())];
            let ghost msg_v = seq![Tok::Str("field is not set: "@), Tok::Punct(',', false), Tok::Str(name@)];
            assert(msg.deep_view() =~= msg_v);
            let arg = vec![ident("concat"), punct('!'), group(Delim::Paren, msg)];
            let ghost arg_v = seq![Tok::Ident("concat"@), Tok::Punct('!', false), Tok::Group(Delim::Paren, msg_v)];
            assert(arg.deep_view() =~= arg_v);
            let r = vec![
                Token::Ident(name.clone()), punct(':'), ident("self"), punct('.'), Token::Ident(name.clone()), punct('.'),
                ident("expect"), group(Delim::Paren, arg),
            ];
            assert(r.deep_view() =~= field_code(*t, f.deep_view(), builder@));
            r
        },
        FieldTemplate::OptionField => {
            let mut r = vec![Token::Ident(name.clone()), punct(':'), ident("Option"), punct('<')];
            assert(r.deep_view() =~= seq![
                Tok::Ident(name@), Tok::Punct(':', false), Tok::Ident("Option"@), Tok::Punct('<', false),
            ]);
            extend(&mut r, copy_tokens(&f.ty));
            push_tok(&mut r, punct('>'));
            assert(r.deep_view() =~= field_code(*t, f.deep_view(), builder@));
            r
        },
        FieldTemplate::DefaultSetter => {
            let r = vec![
                Token::Ident(name.clone()), punct(':'), ident("self"), punct('.'), Token::Ident(name.clone()), punct('.'),
                ident("unwrap_or_default"), empty_group(Delim::Paren),
            ];
            assert(r.deep_view() =~= field_code(*t, f.deep_view(), builder@));
            r
        },
        FieldTemplate::NoneInit => {
            let r = vec![Token::Ident(name.clone()), punct(':'), ident("None")];
            assert(r.deep_view() =~= field_code(*t, f.deep_view(), builder@));
            r
        },
        FieldTemplate::SimpleSetter => {
            let mut body = store_input_exec(name);
            push_tok(&mut body, ident("self"));
            let ghost body_v = store_input(name@) + seq![Tok::Ident("self"@)];
            assert(body.deep_view() =~= body_v);
            assert(body_v =~= seq![
                Tok::Ident("self"@), Tok::Punct('.', false), Tok::Ident(name@), Tok::Punct('=', false),
                Tok::Ident("Some"@), Tok::Group(Delim::Paren, seq![Tok::Ident("input"@)]), Tok::Punct(';', false),
                Tok::Ident("self"@),
            ]);
            let r = vec![
                ident("pub"), ident("fn"), Token::Ident(setter_name_exec(f)), self_input_params(&f.ty), joint('-'),
                punct('>'), ident("Self"), group(Delim::Brace, body),
            ];
            assert(r.deep_view() =~= field_code(*t, f.deep_view(), builder@));
            r
        },
        FieldTemplate::MarkerStruct => {
            let s = create_field_struct_name(builder, name);
            let r = marker_struct_exec(&s);
            r
        },
    }
}

fn marker_struct_exec(s: &String) -> (r: Vec<Token>)
    ensures
        r.deep_view() == marker_struct(s@),
{
    let r = vec![
        ident("pub"), ident("struct"), Token::Ident(s.clone()), empty_group(Delim::Brace), ident("impl"),
        ident("MarkerTraitForBuilder"), ident("for"), Token::Ident(s.clone()), empty_group(Delim::Brace),
    ];
    assert(r.deep_view() =~= marker_struct(s@));
    r
}

/// The code for each field, in the order of the fields.
pub fn fields_code_exec(t: &FieldTemplate, fs: &Vec<FieldDef>, builder: &String) -> (r: Vec<Vec<Token>>)
    ensures
        r.deep_view() == fields_code(*t, fs.deep_view(), builder@),
{
    let mut r: Vec<Vec<Token>> = Vec::new();
    let mut i: usize = 0;
    while i < fs.len()
        invariant
            i <= fs@.len(),
            r.deep_view() == fields_code(*t, fs.deep_view(), builder@).take(i as int),
        decreases fs@.len() - i,
    {
        let part = field_code_exec(t, &fs[i], builder);
        push_part(&mut r, part);
        assert(fields_code(*t, fs.deep_view(), builder@).take(i + 1) =~= fields_code(*t, fs.deep_view(), builder@).take(
            i as int,
        ).push(field_code(*t, fs.deep_view()[i as int], builder@)));
        i = i + 1;
    }
    assert(fields_code(*t, fs.deep_view(), builder@).take(fs@.len() as int) =~= fields_code(
        *t,
        fs.deep_view(),
        builder@,
    ));
    r
}

/// The assignments `name : self . name` of all fields, which carry the builder's values over
/// into the next builder.
pub fn get_assignments_for_fields(fields: &Vec<FieldDef>) -> (r: Vec<Vec<Token>>)
    ensures
        r.deep_view() == fields_code(FieldTemplate::Assignment, fields.deep_view(), seq![]),
{
    let none = String::new();
    fields_code_exec(&FieldTemplate::Assignment, fields, &none)
}

/// The initializers of the struct's fields from the builder's: each unwraps the value that
/// was set, and aborts with `field is not set: name` when none was.
pub fn original_struct_setters(fields: &Vec<FieldDef>) -> (r: Vec<Vec<Token>>)
    ensures
        r.deep_view() == fields_code(FieldTemplate::Setter, fields.deep_view(), seq![]),
{
    let none = String::new();
    fields_code_exec(&FieldTemplate::Setter, fields, &none)
}

// ---------------------------------------------------------------------------------------------
// Builder code
// ---------------------------------------------------------------------------------------------

/// `marker : Default :: default ( ) ,`
pub open spec fn marker_default() -> Seq<Tok> {
    seq![
        Tok::Ident("marker"@), Tok::Punct(':', false), Tok::Ident("Default"@), Tok::Punct(':', true),
        Tok::Punct(':', false), Tok::Ident("default"@), Tok::Group(Delim::Paren, seq![]), Tok::Punct(',', false),
    ]
}

fn marker_default_exec() -> (r: Vec<Token>)
    ensures
        r.deep_view() == marker_default(),
{
    let r = vec![
        ident("marker"), punct(':'), ident("Default"), joint(':'), punct(':'), ident("default"),
        empty_group(Delim::Paren), punct(','),
    ];
    assert(r.deep_view() =~= marker_default());
    r
}

/// `impl B < Cur > { pub fn f ( mut self , input : T ) -> B < Next > { self . f = Some ( input ) ;
/// B { assignments , marker : Default :: default ( ) , } } }`: the setter of the field `f`,
/// available on the builder `b` in the state `cur`, which moves it to the state `next`.
pub open spec fn typestate_setter(b: Seq<char>, cur: Seq<char>, next: Seq<char>, f: FieldV, assigns: Seq<Seq<Tok>>) -> Seq<Tok> {
    seq![
        Tok::Ident("impl"@), Tok::Ident(b), Tok::Punct('<', false), Tok::Ident(cur), Tok::Punct('>', false),
        Tok::Group(Delim::Brace, seq![
            Tok::Ident("pub"@), Tok::Ident("fn"@), Tok::Ident(f.name),
            Tok::Group(Delim::Paren, seq![
                Tok::Ident("mut"@), Tok::Ident("self"@), Tok::Punct(',', false), Tok::Ident("input"@),
                Tok::Punct(':', false),
            ] + f.ty),
            Tok::Punct('-', true), Tok::Punct('>', false), Tok::Ident(b), Tok::Punct('<', false), Tok::Ident(next),
            Tok::Punct('>', false),
            Tok::Group(Delim::Brace, store_input(f.name) + seq![
                Tok::Ident(b),
                Tok::Group(Delim::Brace, terminated(assigns, Tok::Punct(',', false)) + marker_default()),
            ]),
        ]),
    ]
}

fn typestate_setter_exec(b: &String, cur: &String, next: &String, f: &FieldDef, assigns: &Vec<Vec<Token>>) -> (r: Vec<Token>)
    ensures
        r.deep_view() == typestate_setter(b@, cur@, next@, f.deep_view(), assigns.deep_view()),
{
    let mut init: Vec<Token> = Vec::new();
    append_terminated(&mut init, assigns, ',');
    extend(&mut init, marker_default_exec());
    let ghost init_v = terminated(assigns.deep_view(), Tok::Punct(',', false)) + marker_default();
    assert(init.deep_view() =~= init_v);
    let mut body = store_input_exec(&f.name);
    push_tok(&mut body, Token::Ident(b.clone()));
    push_tok(&mut body, group(Delim::Brace, init));
    let ghost body_v = store_input(f.name@) + seq![Tok::Ident(b@), Tok::Group(Delim::Brace, init_v)];
    assert(body.deep_view() =~= body_v);
    let method = vec![
        ident("pub"), ident("fn"), Token::Ident(f.name.clone()), self_input_params(&f.ty), joint('-'), punct('>'),
        Token::Ident(b.clone()), punct('<'), Token::Ident(next.clone()), punct('>'), group(Delim::Brace, body),
    ];
    let ghost method_v = seq![
        Tok::Ident("pub"@), Tok::Ident("fn"@), Tok::Ident(f.name@),
        Tok::Group(Delim::Paren, seq![
            Tok::Ident("mut"@), Tok::Ident("self"@), Tok::Punct(',', false), Tok::Ident("input"@),
            Tok::Punct(':', false),
        ] + f.ty.deep_view()),
        Tok::Punct('-', true), Tok::Punct('>', false), Tok::Ident(b@), Tok::Punct('<', false), Tok::Ident(next@),
        Tok::Punct('>', false), Tok::Group(Delim::Brace, body_v),
    ];
    assert(method.deep_view() =~= method_v);
    let r = vec![
        ident("impl"), Token::Ident(b.clone()), punct('<'), Token::Ident(cur.clone()), punct('>'),
        group(Delim::Brace, method),
    ];
    assert(r.deep_view() =~= typestate_setter(b@, cur@, next@, f.deep_view(), assigns.deep_view()));
    r
}

/// The setter of `current_field`, which moves the builder to the state of `next_field_in_list`.
pub fn builder_for_field(
    builder_name: &String,
    field_assignments: &Vec<Vec<Token>>,
    current_field: &FieldDef,
    next_field_in_list: &FieldDef,
) -> (r: Vec<Token>)
    ensures
        r.deep_view() == typestate_setter(
            builder_name@,
            field_struct_name(builder_name@, current_field.name@),
            field_struct_name(builder_name@, next_field_in_list.name@),
            current_field.deep_view(),
            field_assignments.deep_view(),
        ),
{
    let cur = create_field_struct_name(builder_name, &current_field.name);
    let next = create_field_struct_name(builder_name, &next_field_in_list.name);
    typestate_setter_exec(builder_name, &cur, &next, current_field, field_assignments)
}

/// The setter of the last field, which moves the builder to the state `FinalBuilder`.
pub fn builder_for_final_field(builder_name: &String, field_assignments: &Vec<Vec<Token>>, current_field: &FieldDef) -> (r: Vec<Token>)
    ensures
        r.deep_view() == typestate_setter(
            builder_name@,
            field_struct_name(builder_name@, current_field.name@),
            "FinalBuilder"@,
            current_field.deep_view(),
            field_assignments.deep_view(),
        ),
{
    let cur = create_field_struct_name(builder_name, &current_field.name);
    let fin = String::from_str("FinalBuilder");
    typestate_setter_exec(builder_name, &cur, &fin, current_field, field_assignments)
}

/// The setter of the field at `k` in the builder `b`: it leads to the marker of the next field,
/// or to `FinalBuilder` from the last one.
pub open spec fn setter_at(b: Seq<char>, fs: Seq<FieldV>, k: int) -> Seq<Tok> {
    typestate_setter(
        b,
        field_struct_name(b, fs[k].name),
        if k == fs.len() - 1 { "FinalBuilder"@ } else { field_struct_name(b, fs[k + 1].name) },
        fs[k],
        fields_code(FieldTemplate::Assignment, fs, seq![]),
    )
}

/// The setters of the typestate builder, from the last field's to the first's, and `build`
/// on the final state.
pub open spec fn typestate_methods(name: Seq<char>, fs: Seq<FieldV>) -> Seq<Tok> {
    let b = builder_ident(name);
    concat_all(Seq::new(fs.len(), |m: int| setter_at(b, fs, fs.len() - 1 - m))) + seq![
        Tok::Ident("impl"@), Tok::Ident(b), Tok::Punct('<', false), Tok::Ident("FinalBuilder"@), Tok::Punct('>', false),
        Tok::Group(Delim::Brace, seq![
            Tok::Ident("pub"@), Tok::Ident("fn"@), Tok::Ident("build"@), Tok::Group(Delim::Paren, seq![Tok::Ident("self"@)]),
            Tok::Punct('-', true), Tok::Punct('>', false), Tok::Ident(name),
            Tok::Group(Delim::Brace, seq![
                Tok::Ident(name),
                Tok::Group(Delim::Brace, terminated(fields_code(FieldTemplate::Setter, fs, seq![]), Tok::Punct(',', false))),
            ]),
        ]),
    ]
}

/// `pub fn build ( self ) -> name { name { values , } }`, each field's value written by `t`.
pub open spec fn build_method_using(name: Seq<char>, fs: Seq<FieldV>, t: FieldTemplate) -> Seq<Tok> {
    seq![
        Tok::Ident("pub"@), Tok::Ident("fn"@), Tok::Ident("build"@), Tok::Group(Delim::Paren, seq![Tok::Ident("self"@)]),
        Tok::Punct('-', true), Tok::Punct('>', false), Tok::Ident(name),
        Tok::Group(Delim::Brace, seq![
            Tok::Ident(name),
            Tok::Group(Delim::Brace, terminated(fields_code(t, fs, seq![]), Tok::Punct(',', false))),
        ]),
    ]
}

/// `pub fn build ( self ) -> name { name { setters , } }`, which aborts on a field not set.
pub open spec fn build_method(name: Seq<char>, fs: Seq<FieldV>) -> Seq<Tok> {
    build_method_using(name, fs, FieldTemplate::Setter)
}

/// `pub fn build ( self ) -> name { name { setters , } }`
pub fn build_method_exec(name: &String, fields: &Vec<FieldDef>) -> (r: Vec<Token>)
    ensures
        r.deep_view() == build_method(name@, fields.deep_view()),
{
    build_method_using_exec(name, fields, &FieldTemplate::Setter)
}

/// `pub fn build ( self ) -> name { name { values , } }`, each field's value written by `t`.
pub fn build_method_using_exec(name: &String, fields: &Vec<FieldDef>, t: &FieldTemplate) -> (r: Vec<Token>)
    ensures
        r.deep_view() == build_method_using(name@, fields.deep_view(), *t),
{
    let ghost fs = fields.deep_view();
    let none = String::new();
    let setters = fields_code_exec(t, fields, &none);
    let mut init: Vec<Token> = Vec::new();
    append_terminated(&mut init, &setters, ',');
    let ghost init_v = terminated(fields_code(*t, fs, seq![]), Tok::Punct(',', false));
    assert(init.deep_view() =~= init_v);
    let value = vec![Token::Ident(name.clone()), group(Delim::Brace, init)];
    let ghost value_v = seq![Tok::Ident(name@), Tok::Group(Delim::Brace, init_v)];
    assert(value.deep_view() =~= value_v);
    let self_param = vec![ident("self")];
    assert(self_param.deep_view() =~= seq![Tok::Ident("self"@)]);
    let r = vec![
        ident("pub"), ident("fn"), ident("build"), group(Delim::Paren, self_param), joint('-'), punct('>'),
        Token::Ident(name.clone()), group(Delim::Brace, value),
    ];
    assert(r.deep_view() =~= build_method_using(name@, fs, *t));
    r
}

/// The methods of the typestate builder of the struct `name`: one setter per field, from the
/// last field's to the first's, each available in the state of its field and leading to the
/// state of the next field (to `FinalBuilder` from the last field), and `build` in the state
/// `FinalBuilder`.
pub fn builder_methods(name: &String, fields: &Vec<FieldDef>) -> (r: Vec<Token>)
    ensures
        r.deep_view() == typestate_methods(name@, fields.deep_view()),
{
    let ghost fs = fields.deep_view();
    let builder_name = create_builder_ident(name);
    let ghost b = builder_name@;
    let assignments_for_all_fields = get_assignments_for_fields(fields);
    let ghost parts = Seq::new(fs.len(), |m: int| setter_at(b, fs, fs.len() - 1 - m));
    let mut out: Vec<Token> = Vec::new();
    let n = fields.len();
    let mut m: usize = 0;
    while m < n
        invariant
            n == fs.len(),
            fs == fields.deep_view(),
            b == builder_ident(name@),
            builder_name@ == b,
            assignments_for_all_fields.deep_view() == fields_code(FieldTemplate::Assignment, fs, seq![]),
            parts == Seq::new(fs.len(), |m: int| setter_at(b, fs, fs.len() - 1 - m)),
            m <= n,
            out.deep_view() == concat_all(parts.take(m as int)),
        decreases n - m,
    {
        let k = n - 1 - m;
        let method = if m == 0 {
            builder_for_final_field(&builder_name, &assignments_for_all_fields, &fields[k])
        } else {
            builder_for_field(&builder_name, &assignments_for_all_fields, &fields[k], &fields[k + 1])
        };
        assert(method.deep_view() == setter_at(b, fs, k as int));
        extend(&mut out, method);
        assert(parts.take(m + 1).drop_last() =~= parts.take(m as int));
        m = m + 1;
    }
    assert(parts.take(n as int) =~= parts);
    let build = build_method_exec(name, fields);
    let final_impl = vec![
        ident("impl"), Token::Ident(builder_name.clone()), punct('<'), ident("FinalBuilder"), punct('>'),
        group(Delim::Brace, build),
    ];
    assert(final_impl.deep_view() =~= seq![
        Tok::Ident("impl"@), Tok::Ident(b), Tok::Punct('<', false), Tok::Ident("FinalBuilder"@), Tok::Punct('>', false),
        Tok::Group(Delim::Brace, build_method(name@, fs)),
    ]);
    extend(&mut out, final_impl);
    assert(out.deep_view() =~= typestate_methods(name@, fs));
    out
}

/// `pub trait MarkerTraitForBuilder { }`, a marker type per field and `FinalBuilder`.
pub open spec fn marker_types(name: Seq<char>, fs: Seq<FieldV>) -> Seq<Tok> {
    seq![
        Tok::Ident("pub"@), Tok::Ident("trait"@), Tok::Ident("MarkerTraitForBuilder"@), Tok::Group(Delim::Brace, seq![]),
    ] + concat_all(fields_code(FieldTemplate::MarkerStruct, fs, builder_ident(name))) + marker_struct("FinalBuilder"@)
}

/// The marker trait of the builder's states, and a marker type for the state of each field and
/// for the final state.
pub fn marker_trait_and_structs(name: &String, fields: &Vec<FieldDef>) -> (r: Vec<Token>)
    ensures
        r.deep_view() == marker_types(name@, fields.deep_view()),
{
    let builder_name = create_builder_ident(name);
    let structs = fields_code_exec(&FieldTemplate::MarkerStruct, fields, &builder_name);
    let mut r = vec![ident("pub"), ident("trait"), ident("MarkerTraitForBuilder"), empty_group(Delim::Brace)];
    assert(r.deep_view() =~= seq![
        Tok::Ident("pub"@), Tok::Ident("trait"@), Tok::Ident("MarkerTraitForBuilder"@), Tok::Group(Delim::Brace, seq![]),
    ]);
    append_all(&mut r, &structs);
    let fin = String::from_str("FinalBuilder");
    extend(&mut r, marker_struct_exec(&fin));
    r
}

/// `pub struct B < T : MarkerTraitForBuilder > { marker : std :: marker :: PhantomData < T > ,
/// fields , }`: the builder, with an optional value per field.
pub open spec fn builder_struct(name: Seq<char>, fs: Seq<FieldV>) -> Seq<Tok> {
    seq![
        Tok::Ident("pub"@), Tok::Ident("struct"@), Tok::Ident(builder_ident(name)), Tok::Punct('<', false),
        Tok::Ident("T"@), Tok::Punct(':', false), Tok::Ident("MarkerTraitForBuilder"@), Tok::Punct('>', false),
        Tok::Group(Delim::Brace, seq![
            Tok::Ident("marker"@), Tok::Punct(':', false), Tok::Ident("std"@), Tok::Punct(':', true), Tok::Punct(':', false),
            Tok::Ident("marker"@), Tok::Punct(':', true), Tok::Punct(':', false), Tok::Ident("PhantomData"@),
            Tok::Punct('<', false), Tok::Ident("T"@), Tok::Punct('>', false), Tok::Punct(',', false),
        ] + terminated(fields_code(FieldTemplate::OptionField, fs, seq![]), Tok::Punct(',', false))),
    ]
}

/// The definition of the typestate builder.
pub fn builder_definition(name: &String, fields: &Vec<FieldDef>) -> (r: Vec<Token>)
    ensures
        r.deep_view() == builder_struct(name@, fields.deep_view()),
{
    let none = String::new();
    let builder_fields = fields_code_exec(&FieldTemplate::OptionField, fields, &none);
    let builder_name = create_builder_ident(name);
    let mut body = vec![
        ident("marker"), punct(':'), ident("std"), joint(':'), punct(':'), ident("marker"), joint(':'), punct(':'),
        ident("PhantomData"), punct('<'), ident("T"), punct('>'), punct(','),
    ];
    let ghost head = seq![
        Tok::Ident("marker"@), Tok::Punct(':', false), Tok::Ident("std"@), Tok::Punct(':', true), Tok::Punct(':', false),
        Tok::Ident("marker"@), Tok::Punct(':', true), Tok::Punct(':', false), Tok::Ident("PhantomData"@),
        Tok::Punct('<', false), Tok::Ident("T"@), Tok::Punct('>', false), Tok::Punct(',', false),
    ];
    assert(body.deep_view() =~= head);
    append_terminated(&mut body, &builder_fields, ',');
    let ghost body_v = head + terminated(fields_code(FieldTemplate::OptionField, fields.deep_view(), seq![]), Tok::Punct(',', false));
    assert(body.deep_view() =~= body_v);
    let r = vec![
        ident("pub"), ident("struct"), Token::Ident(builder_name), punct('<'), ident("T"), punct(':'),
        ident("MarkerTraitForBuilder"), punct('>'), group(Delim::Brace, body),
    ];
    assert(r.deep_view() =~= builder_struct(name@, fields.deep_view()));
    r
}

/// `impl name { pub fn builder ( ) -> B < First > { B { marker : Default :: default ( ) ,
/// f : None , ... } } }`: the builder of the struct, in the state of its first field.
pub open spec fn builder_constructor(name: Seq<char>, fs: Seq<FieldV>) -> Seq<Tok> {
    let b = builder_ident(name);
    seq![
        Tok::Ident("impl"@), Tok::Ident(name),
        Tok::Group(Delim::Brace, seq![
            Tok::Ident("pub"@), Tok::Ident("fn"@), Tok::Ident("builder"@), Tok::Group(Delim::Paren, seq![]),
            Tok::Punct('-', true), Tok::Punct('>', false), Tok::Ident(b), Tok::Punct('<', false),
            Tok::Ident(field_struct_name(b, fs[0].name)), Tok::Punct('>', false),
            Tok::Group(Delim::Brace, seq![
                Tok::Ident(b),
                Tok::Group(Delim::Brace, marker_default() + terminated(
                    fields_code(FieldTemplate::NoneInit, fs, seq![]),
                    Tok::Punct(',', false),
                )),
            ]),
        ]),
    ]
}

/// The constructor of the typestate builder on the struct; the struct needs a field.
pub fn builder_impl_for_struct(name: &String, fields: &Vec<FieldDef>) -> (r: Vec<Token>)
    requires
        fields@.len() > 0,
    ensures
        r.deep_view() == builder_constructor(name@, fields.deep_view()),
{
    let ghost fs = fields.deep_view();
    let none = String::new();
    let builder_inits = fields_code_exec(&FieldTemplate::NoneInit, fields, &none);
    let builder_name = create_builder_ident(name);
    let ghost b = builder_name@;
    let generic = create_field_struct_name(&builder_name, &fields[0].name);
    let mut init = marker_default_exec();
    append_terminated(&mut init, &builder_inits, ',');
    let ghost init_v = marker_default() + terminated(fields_code(FieldTemplate::NoneInit, fs, seq![]), Tok::Punct(',', false));
    assert(init.deep_view() =~= init_v);
    let value = vec![Token::Ident(builder_name.clone()), group(Delim::Brace, init)];
    let ghost value_v = seq![Tok::Ident(b), Tok::Group(Delim::Brace, init_v)];
    assert(value.deep_view() =~= value_v);
    let method = vec![
        ident("pub"), ident("fn"), ident("builder"), empty_group(Delim::Paren), joint('-'), punct('>'),
        Token::Ident(builder_name.clone()), punct('<'), Token::Ident(generic), punct('>'), group(Delim::Brace, value),
    ];
    let ghost method_v = seq![
        Tok::Ident("pub"@), Tok::Ident("fn"@), Tok::Ident("builder"@), Tok::Group(Delim::Paren, seq![]),
        Tok::Punct('-', true), Tok::Punct('>', false), Tok::Ident(b), Tok::Punct('<', false),
        Tok::Ident(field_struct_name(b, fs[0].name)), Tok::Punct('>', false), Tok::Group(Delim::Brace, value_v),
    ];
    assert(method.deep_view() =~= method_v);
    let r = vec![ident("impl"), Token::Ident(name.clone()), group(Delim::Brace, method)];
    assert(r.deep_view() =~= builder_constructor(name@, fs));
    r
}

/// The state of the typestate builder `b` before the setter of the field at `k`: the marker of
/// that field, and `FinalBuilder` after the last field.
pub open spec fn state_at(b: Seq<char>, fs: Seq<FieldV>, k: int) -> Seq<char> {
    if k < fs.len() {
        field_struct_name(b, fs[k].name)
    } else {
        "FinalBuilder"@
    }
}

/// The setters chain the fields in their order: `builder()` returns the builder in the state of
/// the first field; the setter of each field is available in that field's state and returns the
/// builder in the state of the next field, the last one in `FinalBuilder`; and `build` is
/// available in `FinalBuilder` alone.
pub proof fn law_typestate_chain(name: Seq<char>, fs: Seq<FieldV>)
    requires
        fs.len() > 0,
    ensures
        builder_constructor(name, fs)[2]->Group_1.subrange(6, 10) == seq![
            Tok::Ident(builder_ident(name)), Tok::Punct('<', false), Tok::Ident(state_at(builder_ident(name), fs, 0)),
            Tok::Punct('>', false),
        ],
        forall|k: int| 0 <= k < fs.len() ==> #[trigger] setter_at(builder_ident(name), fs, k) == typestate_setter(
            builder_ident(name),
            state_at(builder_ident(name), fs, k),
            state_at(builder_ident(name), fs, k + 1),
            fs[k],
            fields_code(FieldTemplate::Assignment, fs, seq![]),
        ),
        typestate_methods(name, fs) == concat_all(
            Seq::new(fs.len(), |m: int| setter_at(builder_ident(name), fs, fs.len() - 1 - m)),
        ) + seq![
            Tok::Ident("impl"@), Tok::Ident(builder_ident(name)), Tok::Punct('<', false), Tok::Ident("FinalBuilder"@),
            Tok::Punct('>', false), Tok::Group(Delim::Brace, build_method(name, fs)),
        ],
{
    let b = builder_ident(name);
    assert(builder_constructor(name, fs)[2]->Group_1.subrange(6, 10) =~= seq![
        Tok::Ident(b), Tok::Punct('<', false), Tok::Ident(state_at(b, fs, 0)), Tok::Punct('>', false),
    ]);
}

/// The characters of `s` other than underscores, in order.
pub open spec fn without_underscores(s: Seq<char>) -> Seq<char>
    decreases s.len(),
{
    if s.len() == 0 {
        seq![]
    } else if s[0] == '_' {
        without_underscores(s.drop_first())
    } else {
        seq![s[0]] + without_underscores(s.drop_first())
    }
}

/// Whether two names are the same up to the case of ASCII letters.
pub open spec fn same_but_case(a: Seq<char>, b: Seq<char>) -> bool {
    a.len() == b.len() && forall|i: int| 0 <= i < a.len() ==> ascii_upper(#[trigger] a[i]) == ascii_upper(b[i])
}

proof fn lemma_upper_twice(c: char)
    ensures
        ascii_upper(ascii_upper(c)) == ascii_upper(c),
{
}

proof fn lemma_pascal_from(s: Seq<char>, cap: bool)
    ensures
        same_but_case(pascal_from(s, cap), without_underscores(s)),
    decreases s.len(),
{
    if s.len() > 0 {
        lemma_pascal_from(s.drop_first(), true);
        lemma_pascal_from(s.drop_first(), false);
        if s[0] != '_' {
            lemma_upper_twice(s[0]);
            let p = pascal_from(s, cap);
            let w = without_underscores(s);
            let pt = pascal_from(s.drop_first(), false);
            let wt = without_underscores(s.drop_first());
            assert forall|i: int| 0 <= i < p.len() implies ascii_upper(#[trigger] p[i]) == ascii_upper(w[i]) by {
                if i > 0 {
                    assert(p[i] == pt[i - 1]);
                    assert(w[i] == wt[i - 1]);
                }
            }
        }
    }
}

/// Pascal case only drops the underscores of a name and changes the case of letters: what is
/// left is the name's other characters, in order, up to case. So names that differ in more than
/// underscores and letter case have different Pascal names, and their fields different marker
/// types.
pub proof fn law_pascal_keeps_all_but_underscores(s: Seq<char>, t: Seq<char>)
    ensures
        same_but_case(pascal(s), without_underscores(s)),
        pascal(s).len() == without_underscores(s).len(),
        !same_but_case(without_underscores(s), without_underscores(t)) ==> pascal(s) != pascal(t),
{
    lemma_pascal_from(s, true);
    lemma_pascal_from(t, true);
    let ws = without_underscores(s);
    let wt = without_underscores(t);
    if pascal(s) == pascal(t) {
        assert forall|i: int| 0 <= i < ws.len() implies ascii_upper(#[trigger] ws[i]) == ascii_upper(wt[i]) by {
            assert(ascii_upper(pascal(s)[i]) == ascii_upper(ws[i]));
            assert(ascii_upper(pascal(t)[i]) == ascii_upper(wt[i]));
        }
    }
}

} // verus!
