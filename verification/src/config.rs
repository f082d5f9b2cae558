//! The `config` macros: their input (`path = "..."` or `exclude = "..."`) and the code that
//! they generate from the key/value pairs of a configuration.
use vstd::prelude::*;
use crate::tokens::{
    Token, Tok, Delim, MacroError, ErrV, err, abort, error, concat, ident, punct, joint, group, empty_group, copy_tokens,
    extend, push_tok, push_part, ident_at, punct_at, str_value, str_value_of, lemma_group_view,
};
use crate::item::{ItemDef, ItemV, concat_all, terminated, append_all, append_terminated};
use crate::iac::{at_ident, at_punct, result_view};

verus! {

broadcast use lemma_group_view;

/// The input of the `config` macros.
#[derive(Debug)]
pub struct ConfigInput {
    /// The path of the configuration file, when one is given.
    pub path: Option<String>,
    /// Whether the `From` implementation is left out (`exclude = "from"`).
    pub exclude_from: bool,
}

pub struct ConfigV {
    pub path: Option<Seq<char>>,
    pub exclude_from: bool,
}

impl View for ConfigInput {
    type V = ConfigV;

    open spec fn view(&self) -> ConfigV {
        ConfigV {
            path: match self.path {
                Some(p) => Some(p@),
                None => None,
            },
            exclude_from: self.exclude_from,
        }
    }
}

/// `key = "string"`, the key at `0`: the string, or the error.
pub open spec fn parse_setting(ts: Seq<Tok>, eq_msg: Seq<char>, lit_msg: Seq<char>) -> Result<Seq<char>, ErrV> {
    if !at_punct(ts, 1, '=') {
        Err(err(eq_msg))
    } else if !(2 < ts.len() && str_value(ts[2]) is Some) {
        Err(err(lit_msg))
    } else if ts.len() > 3 {
        Err(err("unexpected token"@))
    } else {
        Ok(str_value(ts[2])->Some_0)
    }
}

/// What the `config` macros make of their whole input.
pub open spec fn parse_config_spec(ts: Seq<Tok>) -> Result<ConfigV, ErrV> {
    if ts.len() == 0 {
        Ok(ConfigV { path: None, exclude_from: false })
    } else if at_ident(ts, 0, "path"@) {
        match parse_setting(ts, "expected '=' after 'path'"@, "expected string literal after 'path'"@) {
            Ok(v) => Ok(ConfigV { path: Some(v), exclude_from: false }),
            Err(e) => Err(e),
        }
    } else if at_ident(ts, 0, "exclude"@) {
        match parse_setting(ts, "expected '=' after 'exclude'"@, "expected string literal after 'exclude'"@) {
            Ok(v) => Ok(ConfigV { path: None, exclude_from: v == "from"@ }),
            Err(e) => Err(e),
        }
    } else {
        Err(err("config macro only allows for 'path' or 'exclude' input"@))
    }
}

/// `key = "string"`, the key first: the string.
fn parse_setting_exec(ts: &Vec<Token>, eq_msg: &str, lit_msg: &str) -> (r: Result<String, MacroError>)
    ensures
        match r {
            Ok(v) => parse_setting(ts.deep_view(), eq_msg@, lit_msg@) == Ok::<Seq<char>, ErrV>(v@),
            Err(e) => parse_setting(ts.deep_view(), eq_msg@, lit_msg@) == Err::<Seq<char>, ErrV>(e@),
        },
{
    if !punct_at(ts, 0, 1, '=') {
        return Err(error(eq_msg));
    }
    if ts.len() <= 2 {
        return Err(error(lit_msg));
    }
    let value = match str_value_of(&ts[2]) {
        Some(v) => v,
        None => {
            return Err(error(lit_msg));
        },
    };
    if ts.len() > 3 {
        return Err(error("unexpected token"));
    }
    Ok(value)
}

impl ConfigInput {
    /// What the `config` macros make of their whole input: nothing, `path = "..."` or
    /// `exclude = "..."`.
    pub fn parse(ts: &Vec<Token>) -> (r: Result<ConfigInput, MacroError>)
        ensures
            result_view(r) == parse_config_spec(ts.deep_view()),
    {
        if ts.len() == 0 {
            return Ok(ConfigInput { path: None, exclude_from: false });
        }
        if ident_at(ts, 0, 0, "path") {
            match parse_setting_exec(ts, "expected '=' after 'path'", "expected string literal after 'path'") {
                Ok(v) => Ok(ConfigInput { path: Some(v), exclude_from: false }),
                Err(e) => Err(e),
            }
        } else if ident_at(ts, 0, 0, "exclude") {
            match parse_setting_exec(ts, "expected '=' after 'exclude'", "expected string literal after 'exclude'") {
                Ok(v) => {
                    let exclude_from = crate::tokens::text_is(&v, "from");
                    Ok(ConfigInput { path: None, exclude_from })
                },
                Err(e) => Err(e),
            }
        } else {
            Err(error("config macro only allows for 'path' or 'exclude' input"))
        }
    }
}

// ---------------------------------------------------------------------------------------------
// The generated code
// ---------------------------------------------------------------------------------------------

/// No key occurs twice among the pairs (they come from a map).
pub open spec fn distinct_keys(kvs: Seq<(Seq<char>, Seq<char>)>) -> bool {
    forall|i: int, j: int| 0 <= i < kvs.len() && 0 <= j < kvs.len() && i != j ==> kvs[i].0 != kvs[j].0
}

/// `std :: collections :: HashMap`
pub open spec fn hash_map_path() -> Seq<Tok> {
    seq![
        Tok::Ident("std"@), Tok::Punct(':', true), Tok::Punct(':', false), Tok::Ident("collections"@),
        Tok::Punct(':', true), Tok::Punct(':', false), Tok::Ident("HashMap"@),
    ]
}

fn hash_map_path_exec() -> (r: Vec<Token>)
    ensures
        r.deep_view() == hash_map_path(),
{
    let r = vec![
        ident("std"), joint(':'), punct(':'), ident("collections"), joint(':'), punct(':'), ident("HashMap"),
    ];
    assert(r.deep_view() =~= hash_map_path());
    r
}

/// `let mut map = std :: collections :: HashMap :: new ( ) ;`
pub open spec fn new_map_statement() -> Seq<Tok> {
    seq![Tok::Ident("let"@), Tok::Ident("mut"@), Tok::Ident("map"@), Tok::Punct('=', false)] + hash_map_path()
        + seq![
        Tok::Punct(':', true), Tok::Punct(':', false), Tok::Ident("new"@), Tok::Group(Delim::Paren, seq![]),
        Tok::Punct(';', false),
    ]
}

fn new_map_statement_exec() -> (r: Vec<Token>)
    ensures
        r.deep_view() == new_map_statement(),
{
    let mut r = vec![ident("let"), ident("mut"), ident("map"), punct('=')];
    assert(r.deep_view() =~= seq![Tok::Ident("let"@), Tok::Ident("mut"@), Tok::Ident("map"@), Tok::Punct('=', false)]);
    extend(&mut r, hash_map_path_exec());
    let tail = vec![joint(':'), punct(':'), ident("new"), empty_group(Delim::Paren), punct(';')];
    assert(tail.deep_view() =~= seq![
        Tok::Punct(':', true), Tok::Punct(':', false), Tok::Ident("new"@), Tok::Group(Delim::Paren, seq![]),
        Tok::Punct(';', false),
    ]);
    extend(&mut r, tail);
    r
}

/// `map . insert ( "key" , "value" ) ;`
pub open spec fn insert_statement(kv: (Seq<char>, Seq<char>)) -> Seq<Tok> {
    seq![
        Tok::Ident("map"@), Tok::Punct('.', false), Tok::Ident("insert"@),
        Tok::Group(Delim::Paren, seq![Tok::Str(kv.0), Tok::Punct(',', false), Tok::Str(kv.1)]),
        Tok::Punct(';', false),
    ]
}

/// The insert statements, one per pair, in the order of the pairs.
pub open spec fn inserts(kvs: Seq<(Seq<char>, Seq<char>)>) -> Seq<Seq<Tok>> {
    Seq::new(kvs.len(), |i: int| insert_statement(kvs[i]))
}

/// The statements that insert the pairs into `map`.
fn generate_inserts(yaml_values: &Vec<(String, String)>) -> (r: Vec<Vec<Token>>)
    ensures
        r.deep_view() == inserts(yaml_values.deep_view()),
{
    let mut r: Vec<Vec<Token>> = Vec::new();
    let mut i: usize = 0;
    while i < yaml_values.len()
        invariant
            i <= yaml_values@.len(),
            r.deep_view() == inserts(yaml_values.deep_view()).take(i as int),
        decreases yaml_values@.len() - i,
    {
        let (k, v) = &yaml_values[i];
        let args = vec![Token::Str(k.clone()), punct(','), Token::Str(v.clone())];
        assert(args.deep_view() =~= seq![Tok::Str(k@), Tok::Punct(',', false), Tok::Str(v@)]);
        let stmt = vec![ident("map"), punct('.'), ident("insert"), group(Delim::Paren, args), punct(';')];
        assert(stmt.deep_view() =~= insert_statement(yaml_values.deep_view()[i as int]));
        push_part(&mut r, stmt);
        assert(inserts(yaml_values.deep_view()).take(i + 1) =~= inserts(yaml_values.deep_view()).take(i as int).push(
            insert_statement(yaml_values.deep_view()[i as int]),
        ));
        i = i + 1;
    }
    assert(inserts(yaml_values.deep_view()).take(yaml_values@.len() as int) =~= inserts(yaml_values.deep_view()));
    r
}

/// The struct `Config` that holds the pairs in a map, and its constructor.
pub open spec fn config_struct(kvs: Seq<(Seq<char>, Seq<char>)>) -> Seq<Tok> {
    let static_str = seq![Tok::Punct('&', false), Tok::Punct('\'', true), Tok::Ident("static"@), Tok::Ident("str"@)];
    seq![
        Tok::Ident("pub"@), Tok::Ident("struct"@), Tok::Ident("Config"@),
        Tok::Group(Delim::Paren, seq![Tok::Ident("pub"@)] + hash_map_path() + seq![Tok::Punct('<', false)]
            + static_str + seq![Tok::Punct(',', false)] + static_str + seq![Tok::Punct('>', false)]),
        Tok::Punct(';', false),
        Tok::Ident("impl"@), Tok::Ident("Config"@),
        Tok::Group(Delim::Brace, seq![
            Tok::Ident("pub"@), Tok::Ident("fn"@), Tok::Ident("new"@), Tok::Group(Delim::Paren, seq![]),
            Tok::Punct('-', true), Tok::Punct('>', false), Tok::Ident("Self"@),
            Tok::Group(Delim::Brace, new_map_statement() + concat_all(inserts(kvs)) + seq![
                Tok::Ident("Config"@), Tok::Group(Delim::Paren, seq![Tok::Ident("map"@)]),
            ]),
        ]),
    ]
}

/// `& 'static str`
fn static_str_exec() -> (r: Vec<Token>)
    ensures
        r.deep_view() == seq![Tok::Punct('&', false), Tok::Punct('\'', true), Tok::Ident("static"@), Tok::Ident("str"@)],
{
    let r = vec![punct('&'), joint('\''), ident("static"), ident("str")];
    assert(r.deep_view() =~= seq![Tok::Punct('&', false), Tok::Punct('\'', true), Tok::Ident("static"@), Tok::Ident("str"@)]);
    r
}

/// The code of the `config` macro: a struct `Config` whose constructor fills a map with the
/// pairs.
pub fn generate_config_struct(yaml_values: &Vec<(String, String)>) -> (r: Vec<Token>)
    requires
        distinct_keys(yaml_values.deep_view()),
    ensures
        r.deep_view() == config_struct(yaml_values.deep_view()),
{
    let ghost kvs = yaml_values.deep_view();
    let inserts_tokens = generate_inserts(yaml_values);
    // pub std::collections::HashMap<&'static str, &'static str>
    let mut field = vec![ident("pub")];
    extend(&mut field, hash_map_path_exec());
    push_tok(&mut field, punct('<'));
    extend(&mut field, static_str_exec());
    push_tok(&mut field, punct(','));
    extend(&mut field, static_str_exec());
    push_tok(&mut field, punct('>'));
    // the body of new
    let mut body = new_map_statement_exec();
    append_all(&mut body, &inserts_tokens);
    let map_arg = vec![ident("map")];
    assert(map_arg.deep_view() =~= seq![Tok::Ident("map"@)]);
    push_tok(&mut body, ident("Config"));
    push_tok(&mut body, group(Delim::Paren, map_arg));
    assert(body.deep_view() =~= new_map_statement() + concat_all(inserts(kvs)) + seq![
        Tok::Ident("Config"@), Tok::Group(Delim::Paren, seq![Tok::Ident("map"@)]),
    ]);
    let new_fn = vec![
        ident("pub"), ident("fn"), ident("new"), empty_group(Delim::Paren), joint('-'), punct('>'),
        ident("Self"), group(Delim::Brace, body),
    ];
    let r = vec![
        ident("pub"), ident("struct"), ident("Config"), group(Delim::Paren, field), punct(';'),
        ident("impl"), ident("Config"), group(Delim::Brace, new_fn),
    ];
    let ghost static_str = seq![Tok::Punct('&', false), Tok::Punct('\'', true), Tok::Ident("static"@), Tok::Ident("str"@)];
    assert(field.deep_view() =~= seq![Tok::Ident("pub"@)] + hash_map_path() + seq![Tok::Punct('<', false)]
            + static_str + seq![Tok::Punct(',', false)] + static_str + seq![Tok::Punct('>', false)]);
    assert(new_fn.deep_view() =~= seq![
        Tok::Ident("pub"@), Tok::Ident("fn"@), Tok::Ident("new"@), Tok::Group(Delim::Paren, seq![]),
        Tok::Punct('-', true), Tok::Punct('>', false), Tok::Ident("Self"@),
        Tok::Group(Delim::Brace, new_map_statement() + concat_all(inserts(kvs)) + seq![
            Tok::Ident("Config"@), Tok::Group(Delim::Paren, seq![Tok::Ident("map"@)]),
        ]),
    ]);
    assert(r.deep_view() =~= config_struct(kvs));
    r
}

/// `pub key : String ,`
pub open spec fn field_decl(kv: (Seq<char>, Seq<char>)) -> Seq<Tok> {
    seq![Tok::Ident("pub"@), Tok::Ident(kv.0), Tok::Punct(':', false), Tok::Ident("String"@), Tok::Punct(',', false)]
}

/// `key : "value" . to_string ( )`
pub open spec fn field_init(kv: (Seq<char>, Seq<char>)) -> Seq<Tok> {
    seq![
        Tok::Ident(kv.0), Tok::Punct(':', false), Tok::Str(kv.1), Tok::Punct('.', false), Tok::Ident("to_string"@),
        Tok::Group(Delim::Paren, seq![]),
    ]
}

/// `map . insert ( "key" . to_string ( ) , value . key ) ;`
pub open spec fn insert_from_field(kv: (Seq<char>, Seq<char>)) -> Seq<Tok> {
    seq![
        Tok::Ident("map"@), Tok::Punct('.', false), Tok::Ident("insert"@),
        Tok::Group(Delim::Paren, seq![
            Tok::Str(kv.0), Tok::Punct('.', false), Tok::Ident("to_string"@), Tok::Group(Delim::Paren, seq![]),
            Tok::Punct(',', false), Tok::Ident("value"@), Tok::Punct('.', false), Tok::Ident(kv.0),
        ]),
        Tok::Punct(';', false),
    ]
}

pub open spec fn field_decls(kvs: Seq<(Seq<char>, Seq<char>)>) -> Seq<Seq<Tok>> {
    Seq::new(kvs.len(), |i: int| field_decl(kvs[i]))
}

pub open spec fn field_inits(kvs: Seq<(Seq<char>, Seq<char>)>) -> Seq<Seq<Tok>> {
    Seq::new(kvs.len(), |i: int| field_init(kvs[i]))
}

pub open spec fn inserts_from_fields(kvs: Seq<(Seq<char>, Seq<char>)>) -> Seq<Seq<Tok>> {
    Seq::new(kvs.len(), |i: int| insert_from_field(kvs[i]))
}

/// One field of type `String` per key.
fn generate_fields(yaml_values: &Vec<(String, String)>) -> (r: Vec<Vec<Token>>)
    ensures
        r.deep_view() == field_decls(yaml_values.deep_view()),
{
    let mut r: Vec<Vec<Token>> = Vec::new();
    let mut i: usize = 0;
    while i < yaml_values.len()
        invariant
            i <= yaml_values@.len(),
            r.deep_view() == field_decls(yaml_values.deep_view()).take(i as int),
        decreases yaml_values@.len() - i,
    {
        let (k, _) = &yaml_values[i];
        let part = vec![ident("pub"), Token::Ident(k.clone()), punct(':'), ident("String"), punct(',')];
        assert(part.deep_view() =~= field_decl(yaml_values.deep_view()[i as int]));
        push_part(&mut r, part);
        assert(field_decls(yaml_values.deep_view()).take(i + 1) =~= field_decls(yaml_values.deep_view()).take(i as int).push(
            field_decl(yaml_values.deep_view()[i as int]),
        ));
        i = i + 1;
    }
    assert(field_decls(yaml_values.deep_view()).take(yaml_values@.len() as int) =~= field_decls(yaml_values.deep_view()));
    r
}

/// One initializer per key, to its value.
fn generate_inits(yaml_values: &Vec<(String, String)>) -> (r: Vec<Vec<Token>>)
    ensures
        r.deep_view() == field_inits(yaml_values.deep_view()),
{
    let mut r: Vec<Vec<Token>> = Vec::new();
    let mut i: usize = 0;
    while i < yaml_values.len()
        invariant
            i <= yaml_values@.len(),
            r.deep_view() == field_inits(yaml_values.deep_view()).take(i as int),
        decreases yaml_values@.len() - i,
    {
        let (k, v) = &yaml_values[i];
        let part = vec![
            Token::Ident(k.clone()), punct(':'), Token::Str(v.clone()), punct('.'), ident("to_string"),
            empty_group(Delim::Paren),
        ];
        assert(part.deep_view() =~= field_init(yaml_values.deep_view()[i as int]));
        push_part(&mut r, part);
        assert(field_inits(yaml_values.deep_view()).take(i + 1) =~= field_inits(yaml_values.deep_view()).take(i as int).push(
            field_init(yaml_values.deep_view()[i as int]),
        ));
        i = i + 1;
    }
    assert(field_inits(yaml_values.deep_view()).take(yaml_values@.len() as int) =~= field_inits(yaml_values.deep_view()));
    r
}

/// One statement per key that inserts the field of that name into `map`.
#[allow(non_snake_case)]
fn generate__inserts_for_from(yaml_values: &Vec<(String, String)>) -> (r: Vec<Vec<Token>>)
    ensures
        r.deep_view() == inserts_from_fields(yaml_values.deep_view()),
{
    let mut r: Vec<Vec<Token>> = Vec::new();
    let mut i: usize = 0;
    while i < yaml_values.len()
        invariant
            i <= yaml_values@.len(),
            r.deep_view() == inserts_from_fields(yaml_values.deep_view()).take(i as int),
        decreases yaml_values@.len() - i,
    {
        let (k, _) = &yaml_values[i];
        let args = vec![
            Token::Str(k.clone()), punct('.'), ident("to_string"), empty_group(Delim::Paren), punct(','),
            ident("value"), punct('.'), Token::Ident(k.clone()),
        ];
        assert(args.deep_view() =~= seq![
            Tok::Str(k@), Tok::Punct('.', false), Tok::Ident("to_string"@), Tok::Group(Delim::Paren, seq![]),
            Tok::Punct(',', false), Tok::Ident("value"@), Tok::Punct('.', false), Tok::Ident(k@),
        ]);
        let part = vec![ident("map"), punct('.'), ident("insert"), group(Delim::Paren, args), punct(';')];
        assert(part.deep_view() =~= insert_from_field(yaml_values.deep_view()[i as int]));
        push_part(&mut r, part);
        assert(inserts_from_fields(yaml_values.deep_view()).take(i + 1) =~= inserts_from_fields(
            yaml_values.deep_view(),
        ).take(i as int).push(insert_from_field(yaml_values.deep_view()[i as int])));
        i = i + 1;
    }
    assert(inserts_from_fields(yaml_values.deep_view()).take(yaml_values@.len() as int) =~= inserts_from_fields(
        yaml_values.deep_view(),
    ));
    r
}

/// `impl From < Name > for std :: collections :: HashMap < String , String > { ... }`: the
/// conversion of the struct into a map from its field names to its field values.
pub open spec fn from_method(name: Seq<char>, kvs: Seq<(Seq<char>, Seq<char>)>) -> Seq<Tok> {
    seq![
        Tok::Ident("impl"@), Tok::Ident("From"@), Tok::Punct('<', false), Tok::Ident(name), Tok::Punct('>', false),
        Tok::Ident("for"@),
    ] + hash_map_path() + seq![
        Tok::Punct('<', false), Tok::Ident("String"@), Tok::Punct(',', false), Tok::Ident("String"@),
        Tok::Punct('>', false),
        Tok::Group(Delim::Brace, seq![
            Tok::Ident("fn"@), Tok::Ident("from"@),
            Tok::Group(Delim::Paren, seq![Tok::Ident("value"@), Tok::Punct(':', false), Tok::Ident(name)]),
            Tok::Punct('-', true), Tok::Punct('>', false), Tok::Ident("Self"@),
            Tok::Group(Delim::Brace, new_map_statement() + concat_all(inserts_from_fields(kvs)) + seq![Tok::Ident("map"@)]),
        ]),
    ]
}

/// The conversion of the generated struct into a map.
fn generate_from_method(name: &String, yaml_values: &Vec<(String, String)>) -> (r: Vec<Token>)
    ensures
        r.deep_view() == from_method(name@, yaml_values.deep_view()),
{
    let ghost kvs = yaml_values.deep_view();
    let inserts_tokens = generate__inserts_for_from(yaml_values);
    let mut body = new_map_statement_exec();
    append_all(&mut body, &inserts_tokens);
    push_tok(&mut body, ident("map"));
    assert(body.deep_view() =~= new_map_statement() + concat_all(inserts_from_fields(kvs)) + seq![Tok::Ident("map"@)]);
    let params = vec![ident("value"), punct(':'), Token::Ident(name.clone())];
    assert(params.deep_view() =~= seq![Tok::Ident("value"@), Tok::Punct(':', false), Tok::Ident(name@)]);
    let from_fn = vec![
        ident("fn"), ident("from"), group(Delim::Paren, params), joint('-'), punct('>'), ident("Self"),
        group(Delim::Brace, body),
    ];
    let ghost from_fn_v = seq![
        Tok::Ident("fn"@), Tok::Ident("from"@),
        Tok::Group(Delim::Paren, seq![Tok::Ident("value"@), Tok::Punct(':', false), Tok::Ident(name@)]),
        Tok::Punct('-', true), Tok::Punct('>', false), Tok::Ident("Self"@),
        Tok::Group(Delim::Brace, new_map_statement() + concat_all(inserts_from_fields(kvs)) + seq![Tok::Ident("map"@)]),
    ];
    assert(from_fn.deep_view() =~= from_fn_v);
    let mut r = vec![ident("impl"), ident("From"), punct('<'), Token::Ident(name.clone()), punct('>'), ident("for")];
    assert(r.deep_view() =~= seq![
        Tok::Ident("impl"@), Tok::Ident("From"@), Tok::Punct('<', false), Tok::Ident(name@), Tok::Punct('>', false),
        Tok::Ident("for"@),
    ]);
    extend(&mut r, hash_map_path_exec());
    let tail = vec![punct('<'), ident("String"), punct(','), ident("String"), punct('>'), group(Delim::Brace, from_fn)];
    assert(tail.deep_view() =~= seq![
        Tok::Punct('<', false), Tok::Ident("String"@), Tok::Punct(',', false), Tok::Ident("String"@),
        Tok::Punct('>', false), Tok::Group(Delim::Brace, from_fn_v),
    ]);
    extend(&mut r, tail);
    assert(r.deep_view() =~= from_method(name@, kvs));
    r
}

/// The code of the `config_struct` macro: the annotated struct, with its attributes, given
/// one `String` field per key, a constructor that sets each field to its value, and, unless
/// it is excluded, the conversion into a map.
pub open spec fn annotation_struct(item: ItemV, kvs: Seq<(Seq<char>, Seq<char>)>, exclude_from: bool) -> Seq<Tok> {
    item.attrs + seq![
        Tok::Ident("pub"@), Tok::Ident("struct"@), Tok::Ident(item.name),
        Tok::Group(Delim::Brace, concat_all(field_decls(kvs))),
        Tok::Ident("impl"@), Tok::Ident(item.name),
        Tok::Group(Delim::Brace, seq![
            Tok::Ident("pub"@), Tok::Ident("fn"@), Tok::Ident("new"@), Tok::Group(Delim::Paren, seq![]),
            Tok::Punct('-', true), Tok::Punct('>', false), Tok::Ident("Self"@),
            Tok::Group(Delim::Brace, seq![
                Tok::Ident(item.name),
                Tok::Group(Delim::Brace, terminated(field_inits(kvs), Tok::Punct(',', false))),
            ]),
        ]),
    ] + if exclude_from { seq![] } else { from_method(item.name, kvs) }
}

/// Whether the character has the Unicode property XID_Start (`unicode_ident::is_xid_start`).
pub uninterp spec fn xid_start(c: char) -> bool;

/// Whether the character has the Unicode property XID_Continue
/// (`unicode_ident::is_xid_continue`).
pub uninterp spec fn xid_continue(c: char) -> bool;

/// Asks `unicode_ident::is_xid_start` whether the character has the Unicode property XID_Start.
#[verifier::external_body]
fn is_xid_start(c: char) -> (r: bool)
    ensures
        r == xid_start(c),
{
    unicode_ident::is_xid_start(c)
}

/// Asks `unicode_ident::is_xid_continue` whether the character has the Unicode property
/// XID_Continue.
#[verifier::external_body]
fn is_xid_continue(c: char) -> (r: bool)
    ensures
        r == xid_continue(c),
{
    unicode_ident::is_xid_continue(c)
}

/// Whether the text is made of ASCII digits only.
pub open spec fn ascii_number(k: Seq<char>) -> bool {
    forall|i: int| 0 <= i < k.len() ==> '0' <= #[trigger] k[i] <= '9'
}

/// Whether the text is an identifier: its first character is `_` or XID_Start, the others
/// XID_Continue.
pub open spec fn ident_chars(k: Seq<char>) -> bool {
    k.len() > 0 && (k[0] == '_' || xid_start(k[0])) && forall|i: int| 1 <= i < k.len() ==> xid_continue(#[trigger] k[i])
}

/// Why a key cannot name a field, as the identifier check of `proc_macro2` words it; `None` when
/// it can.
pub open spec fn key_error(k: Seq<char>) -> Option<Seq<char>> {
    if k.len() == 0 {
        Some("Ident is not allowed to be empty; use Option<Ident>"@)
    } else if ascii_number(k) {
        Some("Ident cannot be a number; use Literal instead"@)
    } else if !ident_chars(k) {
        Some("\""@ + k + "\" is not a valid Ident"@)
    } else {
        None
    }
}

/// Whether a key can be the name of a field.
pub open spec fn key_ok(k: Seq<char>) -> bool {
    key_error(k) is None
}

/// The index of the first pair whose key is not an identifier, if there is one.
pub open spec fn first_bad_key(kvs: Seq<(Seq<char>, Seq<char>)>) -> Option<int> {
    if exists|i: int| 0 <= i < kvs.len() && !key_ok(#[trigger] kvs[i].0) {
        Some(choose|i: int| 0 <= i < kvs.len() && !key_ok(#[trigger] kvs[i].0) && forall|j: int| 0 <= j < i ==> key_ok(#[trigger] kvs[j].0))
    } else {
        None
    }
}

/// What the `config_struct` macro makes of the annotated item and the pairs: the annotated
/// struct, or an abort for the first key that is not an identifier.
pub open spec fn annotation_spec(item: ItemV, kvs: Seq<(Seq<char>, Seq<char>)>, exclude_from: bool) -> Result<Seq<Tok>, ErrV> {
    match first_bad_key(kvs) {
        Some(i) => Err(abort(key_error(kvs[i].0)->Some_0)),
        None => Ok(annotation_struct(item, kvs, exclude_from)),
    }
}

/// Why a key cannot name a field, as `key_error` says.
fn key_error_exec(k: &String) -> (r: Option<String>)
    ensures
        match r {
            None => key_error(k@) is None,
            Some(m) => key_error(k@) == Some(m@),
        },
{
    let n = k.as_str().unicode_len();
    if n == 0 {
        return Some(String::from_str("Ident is not allowed to be empty; use Option<Ident>"));
    }
    let mut number = true;
    let mut chars_ok = true;
    let mut i: usize = 0;
    while i < n
        invariant
            n == k@.len(),
            n > 0,
            i <= n,
            number == (forall|j: int| 0 <= j < i ==> '0' <= #[trigger] k@[j] <= '9'),
            chars_ok == ((i > 0 ==> (k@[0] == '_' || xid_start(k@[0]))) && forall|j: int| 1 <= j < i ==> xid_continue(#[trigger] k@[j])),
        decreases n - i,
    {
        let c = k.as_str().get_char(i);
        if !('0' <= c && c <= '9') {
            number = false;
        }
        let ok = if i == 0 { c == '_' || is_xid_start(c) } else { is_xid_continue(c) };
        if !ok {
            chars_ok = false;
        }
        i = i + 1;
    }
    if number {
        return Some(String::from_str("Ident cannot be a number; use Literal instead"));
    }
    if !chars_ok {
        let m = concat("\"", k.as_str());
        return Some(concat(m.as_str(), "\" is not a valid Ident"));
    }
    None
}

/// The code of the `config_struct` macro for the annotated item; a key that is not an
/// identifier aborts the macro.
pub fn generate_annotation_struct(input: &ItemDef, yaml_values: &Vec<(String, String)>, exclude_from_method: bool) -> (r: Result<Vec<Token>, MacroError>)
    requires
        distinct_keys(yaml_values.deep_view()),
    ensures
        match r {
            Ok(ts) => annotation_spec(input.deep_view(), yaml_values.deep_view(), exclude_from_method) == Ok::<Seq<Tok>, ErrV>(ts.deep_view()),
            Err(e) => annotation_spec(input.deep_view(), yaml_values.deep_view(), exclude_from_method) == Err::<Seq<Tok>, ErrV>(e@),
        },
{
    let ghost kvs = yaml_values.deep_view();
    let mut i: usize = 0;
    while i < yaml_values.len()
        invariant
            i <= kvs.len(),
            kvs == yaml_values.deep_view(),
            forall|j: int| 0 <= j < i ==> key_ok(#[trigger] kvs[j].0),
        decreases kvs.len() - i,
    {
        let k = &yaml_values[i].0;
        if let Some(m) = key_error_exec(k) {
            assert(first_bad_key(kvs) == Some(i as int)) by {
                assert(!key_ok(kvs[i as int].0));
                let c = choose|c: int| 0 <= c < kvs.len() && !key_ok(#[trigger] kvs[c].0) && forall|j: int| 0 <= j < c ==> key_ok(#[trigger] kvs[j].0);
                if c > i {
                    assert(key_ok(kvs[i as int].0));
                }
            }
            return Err(MacroError { message: m, fatal: true });
        }
        i = i + 1;
    }
    assert(first_bad_key(kvs) is None);
    Ok(annotation_tokens(input, yaml_values, exclude_from_method))
}

/// The code of the `config_struct` macro for the annotated item.
fn annotation_tokens(input: &ItemDef, yaml_values: &Vec<(String, String)>, exclude_from_method: bool) -> (r: Vec<Token>)
    requires
        distinct_keys(yaml_values.deep_view()),
    ensures
        r.deep_view() == annotation_struct(input.deep_view(), yaml_values.deep_view(), exclude_from_method),
{
    let ghost kvs = yaml_values.deep_view();
    let ghost name = input.name@;
    let fields = generate_fields(yaml_values);
    let inits = generate_inits(yaml_values);
    let mut fields_tokens: Vec<Token> = Vec::new();
    append_all(&mut fields_tokens, &fields);
    assert(fields_tokens.deep_view() =~= concat_all(field_decls(kvs)));
    let mut inits_tokens: Vec<Token> = Vec::new();
    append_terminated(&mut inits_tokens, &inits, ',');
    assert(inits_tokens.deep_view() =~= terminated(field_inits(kvs), Tok::Punct(',', false)));
    let ctor = vec![Token::Ident(input.name.clone()), group(Delim::Brace, inits_tokens)];
    let ghost ctor_v = seq![
        Tok::Ident(name),
        Tok::Group(Delim::Brace, terminated(field_inits(kvs), Tok::Punct(',', false))),
    ];
    assert(ctor.deep_view() =~= ctor_v);
    let new_fn = vec![
        ident("pub"), ident("fn"), ident("new"), empty_group(Delim::Paren), joint('-'), punct('>'), ident("Self"),
        group(Delim::Brace, ctor),
    ];
    let ghost new_fn_v = seq![
        Tok::Ident("pub"@), Tok::Ident("fn"@), Tok::Ident("new"@), Tok::Group(Delim::Paren, seq![]),
        Tok::Punct('-', true), Tok::Punct('>', false), Tok::Ident("Self"@), Tok::Group(Delim::Brace, ctor_v),
    ];
    assert(new_fn.deep_view() =~= new_fn_v);
    let mut r = copy_tokens(&input.attrs);
    let body = vec![
        ident("pub"), ident("struct"), Token::Ident(input.name.clone()), group(Delim::Brace, fields_tokens),
        ident("impl"), Token::Ident(input.name.clone()), group(Delim::Brace, new_fn),
    ];
    assert(body.deep_view() =~= seq![
        Tok::Ident("pub"@), Tok::Ident("struct"@), Tok::Ident(name),
        Tok::Group(Delim::Brace, concat_all(field_decls(kvs))),
        Tok::Ident("impl"@), Tok::Ident(name), Tok::Group(Delim::Brace, new_fn_v),
    ]);
    extend(&mut r, body);
    if !exclude_from_method {
        extend(&mut r, generate_from_method(&input.name, yaml_values));
    } else {
        assert(r.deep_view() =~= r.deep_view() + Seq::<Tok>::empty());
    }
    assert(r.deep_view() =~= annotation_struct(input.deep_view(), kvs, exclude_from_method));
    r
}

} // verus!
