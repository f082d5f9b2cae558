//! The `public` attribute: a struct with named fields becomes public, and so does each field.
use vstd::prelude::*;
use crate::derive_input::{
    read_derive_input, read_derive_input_exec, split_derive, skip_attrs, skip_vis, generics_end, angle_close, field_end,
    field_at, fields_from, where_form, lemma_scans, lemma_skip_attrs_same, lemma_angle_close_shift, flatten,
    plain_tok, lemma_flatten_plain, lemma_flatten_is_plain,
    syn_derive_input_error,
};
use crate::syntax::tokens_text;
use crate::tokens::{
    Token, Tok, Delim, ErrV, MacroError, err, abort, fatal, unwrap_none_msg, unwrap_none_abort, unwrap_err_with, unwrap_err_abort_with, is_punct, is_punct_tok, is_ident, ident, punct, group, copy_tokens, extend, push_tok, lemma_group_view,
};
use crate::item::{FieldV, ItemDef, ItemV, field_tokens, field_to_tokens, terminated, append_terminated};
use crate::syntax::{tok_text, syn_fields_named_error, push_tok_text, fields_named_error};

verus! {

broadcast use lemma_group_view;

/// A field as `public` reads it: its name and the first identifier of its type.
#[derive(Debug)]
pub struct StructField {
    pub name: String,
    pub ty: String,
}

impl View for StructField {
    type V = (Seq<char>, Seq<char>);

    open spec fn view(&self) -> (Seq<char>, Seq<char>) {
        (self.name@, self.ty@)
    }
}

/// The view of an optional text.
pub open spec fn opt_text(t: Option<String>) -> Option<Seq<char>> {
    match t {
        Some(s) => Some(s@),
        None => None,
    }
}

/// Whether the text contains `pub`.
pub open spec fn contains_pub(s: Seq<char>) -> bool {
    exists|k: int| 0 <= k && k + 3 <= s.len() && #[trigger] s.subrange(k, k + 3) == "pub"@
}

/// Whether a token is punctuation that a cursor takes as such (a `'` starts a lifetime).
pub open spec fn cursor_punct(t: Tok) -> bool {
    t matches Tok::Punct(c, _) && c != '\''
}

/// A field read from its tokens. When the first token is an identifier that contains `pub`, the
/// name is the identifier after it and the type the identifier after the punctuation that
/// follows; otherwise the first identifier is the name and the type is the identifier after the
/// punctuation that follows it. Any other shape gives `None`.
pub open spec fn parse_field_spec(ts: Seq<Tok>) -> Option<(Seq<char>, Seq<char>)> {
    if ts.len() >= 1 && ts[0] is Ident {
        if contains_pub(ts[0]->Ident_0) {
            if ts.len() >= 4 && ts[1] is Ident && cursor_punct(ts[2]) && ts[3] is Ident {
                Some((ts[1]->Ident_0, ts[3]->Ident_0))
            } else {
                None
            }
        } else if ts.len() >= 3 && cursor_punct(ts[1]) && ts[2] is Ident {
            Some((ts[0]->Ident_0, ts[2]->Ident_0))
        } else {
            None
        }
    } else {
        None
    }
}

/// `pub name : ty`
pub open spec fn pub_field(f: (Seq<char>, Seq<char>)) -> Seq<Tok> {
    seq![Tok::Ident("pub"@), Tok::Ident(f.0), Tok::Punct(':', false), Tok::Ident(f.1)]
}

fn contains_pub_exec(s: &String) -> (r: bool)
    ensures
        r == contains_pub(s@),
{
    proof {
        reveal_strlit("pub");
    }
    let n = s.as_str().unicode_len();
    if n < 3 {
        return false;
    }
    let mut k: usize = 0;
    while k < n - 2
        invariant
            n == s@.len(),
            n >= 3,
            k <= n - 2,
            forall|j: int| 0 <= j < k ==> #[trigger] s@.subrange(j, j + 3) != "pub"@,
        decreases n - k,
    {
        proof {
            reveal_strlit("pub");
        }
        if s.as_str().get_char(k) == 'p' && s.as_str().get_char(k + 1) == 'u' && s.as_str().get_char(k + 2) == 'b' {
            assert(s@.subrange(k as int, k + 3) =~= "pub"@);
            return true;
        }
        assert(s@.subrange(k as int, k + 3)[0] == s@[k as int]);
        assert(s@.subrange(k as int, k + 3)[1] == s@[k + 1]);
        assert(s@.subrange(k as int, k + 3)[2] == s@[k + 2]);
        k = k + 1;
    }
    false
}

fn ident_text(t: &Token) -> (r: Option<String>)
    ensures
        r matches Some(s) ==> t@ == Tok::Ident(s@),
        r is None ==> !(t@ is Ident),
{
    match t {
        Token::Ident(s) => Some(s.clone()),
        _ => None,
    }
}

fn is_cursor_punct(t: &Token) -> (r: bool)
    ensures
        r == cursor_punct(t@),
{
    match t {
        Token::Punct(c, _) => *c != '\'',
        _ => false,
    }
}

impl StructField {
    /// The field read from its tokens, as `parse_field_spec` says; a field of any other shape
    /// aborts the macro.
    pub fn parse(ts: &Vec<Token>) -> (r: Result<StructField, MacroError>)
        ensures
            match r {
                Ok(f) => parse_field_spec(ts.deep_view()) == Some(f@),
                Err(e) => parse_field_spec(ts.deep_view()) is None && e@ == abort(unwrap_none_msg()),
            },
    {
        let ghost v = ts.deep_view();
        if ts.len() < 1 {
            return Err(unwrap_none_abort());
        }
        let first = match ident_text(&ts[0]) {
            Some(s) => s,
            None => {
                return Err(unwrap_none_abort());
            },
        };
        if contains_pub_exec(&first) {
            if ts.len() < 4 || !is_cursor_punct(&ts[2]) {
                return Err(unwrap_none_abort());
            }
            match (ident_text(&ts[1]), ident_text(&ts[3])) {
                (Some(name), Some(ty)) => Ok(StructField { name, ty }),
                _ => Err(unwrap_none_abort()),
            }
        } else {
            if ts.len() < 3 || !is_cursor_punct(&ts[1]) {
                return Err(unwrap_none_abort());
            }
            match ident_text(&ts[2]) {
                Some(ty) => Ok(StructField { name: first, ty }),
                None => Err(unwrap_none_abort()),
            }
        }
    }

    /// Appends `pub name : ty`.
    pub fn to_tokens(&self, tokens: &mut Vec<Token>)
        ensures
            final(tokens).deep_view() == old(tokens).deep_view() + pub_field(self@),
    {
        let part = vec![ident("pub"), Token::Ident(self.name.clone()), punct(':'), Token::Ident(self.ty.clone())];
        assert(part.deep_view() =~= pub_field(self@));
        extend(tokens, part);
    }
}

/// The fields of a struct as `public` reads them, or `None` when one of them has another shape.
pub open spec fn parsed_fields(fs: Seq<FieldV>) -> Option<Seq<(Seq<char>, Seq<char>)>> {
    if forall|i: int| 0 <= i < fs.len() ==> (#[trigger] parse_field_spec(field_tokens(fs[i]))) is Some {
        Some(Seq::new(fs.len(), |i: int| parse_field_spec(field_tokens(fs[i]))->Some_0))
    } else {
        None
    }
}

/// `{ pub a : A , pub b : B , }`
pub open spec fn public_fields_group(pairs: Seq<(Seq<char>, Seq<char>)>) -> Tok {
    Tok::Group(Delim::Brace, terminated(Seq::new(pairs.len(), |i: int| pub_field(pairs[i])), Tok::Punct(',', false)))
}

/// Generic parameters as `syn` writes them back: nothing for an empty `< >`.
pub open spec fn shown_generics(g: Seq<Tok>) -> Seq<Tok> {
    if g.len() == 2 && is_punct_tok(g[0], '<') && is_punct_tok(g[1], '>') {
        seq![]
    } else {
        g
    }
}

/// A `where` clause as `syn` writes it back: nothing for a `where` without predicates.
pub open spec fn shown_where(w: Seq<Tok>) -> Seq<Tok> {
    if w.len() == 1 && w[0] == Tok::Ident("where"@) {
        seq![]
    } else {
        w
    }
}

/// `attrs pub struct Name generics where { fields }`
pub open spec fn public_item(item: ItemV, fields: Tok) -> Seq<Tok> {
    item.attrs + seq![Tok::Ident("pub"@), Tok::Ident("struct"@), Tok::Ident(item.name)] + shown_generics(
        item.generics,
    ) + shown_where(item.where_clause) + seq![fields]
}

/// The public struct, once `syn` has answered whether the braced fields are valid named fields:
/// `named_err` is the debug form of its error, when there is one, and the macro then aborts.
pub open spec fn finish_public_spec(item: ItemV, fields: Tok, named_err: Option<Seq<char>>) -> Result<Seq<Tok>, ErrV> {
    match named_err {
        None => Ok(public_item(item, fields)),
        Some(d) => Err(abort(unwrap_err_with(d))),
    }
}

/// The debug form of the error in `syn`'s answer, if there is one.
pub open spec fn error_debug(a: Option<(Seq<char>, Seq<char>)>) -> Option<Seq<char>> {
    match a {
        None => None,
        Some((_, d)) => Some(d),
    }
}

/// What `public` makes of a type definition: the struct and each of its fields made public, the
/// type of each field cut to its first identifier. Anything but a struct with named fields, or a
/// field that cannot be read, aborts the macro.
pub open spec fn public_spec(item: ItemV) -> Result<Seq<Tok>, ErrV> {
    match item.fields {
        None => Err(abort("not implemented: only works for structs with named fields"@)),
        Some(fs) => match parsed_fields(fs) {
            None => Err(abort(unwrap_none_msg())),
            Some(pairs) => {
                let g = public_fields_group(pairs);
                finish_public_spec(item, g, error_debug(syn_fields_named_error(tok_text(g))))
            },
        },
    }
}

fn is_empty_generics(g: &Vec<Token>) -> (r: bool)
    ensures
        r == (g.deep_view().len() == 2 && is_punct_tok(g.deep_view()[0], '<') && is_punct_tok(g.deep_view()[1], '>')),
{
    g.len() == 2 && is_punct(&g[0], '<') && is_punct(&g[1], '>')
}

fn is_empty_where(w: &Vec<Token>) -> (r: bool)
    ensures
        r == (w.deep_view().len() == 1 && w.deep_view()[0] == Tok::Ident("where"@)),
{
    w.len() == 1 && is_ident(&w[0], "where")
}

/// The public struct, given the debug form of `syn`'s error on its braced fields, if any.
pub fn finish_public(item: &ItemDef, fields: Token, named_err: &Option<String>) -> (r: Result<Vec<Token>, MacroError>)
    ensures
        match r {
            Ok(ts) => finish_public_spec(item.deep_view(), fields@, opt_text(*named_err)) == Ok::<Seq<Tok>, ErrV>(ts.deep_view()),
            Err(e) => finish_public_spec(item.deep_view(), fields@, opt_text(*named_err)) == Err::<Seq<Tok>, ErrV>(e@),
        },
{
    match named_err {
        Some(d) => {
            return Err(unwrap_err_abort_with(d));
        },
        None => {},
    }
    let ghost g = fields@;
    let mut out = copy_tokens(&item.attrs);
    push_tok(&mut out, ident("pub"));
    push_tok(&mut out, ident("struct"));
    push_tok(&mut out, Token::Ident(item.name.clone()));
    if !is_empty_generics(&item.generics) {
        extend(&mut out, copy_tokens(&item.generics));
    }
    if !is_empty_where(&item.where_clause) {
        extend(&mut out, copy_tokens(&item.where_clause));
    }
    push_tok(&mut out, fields);
    let ghost it = item.deep_view();
    assert(out.deep_view() =~= public_item(it, g));
    Ok(out)
}

/// The struct made public, with each of its fields made public.
pub fn public(item: &ItemDef) -> (r: Result<Vec<Token>, MacroError>)
    ensures
        match r {
            Ok(ts) => public_spec(item.deep_view()) == Ok::<Seq<Tok>, ErrV>(ts.deep_view()),
            Err(e) => public_spec(item.deep_view()) == Err::<Seq<Tok>, ErrV>(e@),
        },
{
    let fields = match &item.fields {
        Some(fs) => fs,
        None => {
            return Err(fatal("not implemented: only works for structs with named fields"));
        },
    };
    let ghost fs = fields.deep_view();
    assert(item.deep_view().fields == Some(fs));
    let mut parts: Vec<Vec<Token>> = Vec::new();
    let mut i: usize = 0;
    while i < fields.len()
        invariant
            i <= fs.len(),
            fs == fields.deep_view(),
            item.deep_view().fields == Some(fs),
            parts@.len() == i,
            forall|j: int| 0 <= j < i ==> (#[trigger] parse_field_spec(field_tokens(fs[j]))) is Some,
            forall|j: int| 0 <= j < i ==> #[trigger] parts.deep_view()[j] == pub_field(parse_field_spec(field_tokens(fs[j]))->Some_0),
        decreases fs.len() - i,
    {
        let f = StructField::parse(&field_to_tokens(&fields[i]));
        match f {
            Ok(sf) => {
                let mut part: Vec<Token> = Vec::new();
                sf.to_tokens(&mut part);
                assert(part.deep_view() =~= pub_field(sf@));
                let ghost before = parts.deep_view();
                parts.push(part);
                assert(parts.deep_view() =~= before.push(pub_field(sf@)));
            },
            Err(e) => {
                assert(parse_field_spec(field_tokens(fs[i as int])) is None);
                assert(parsed_fields(fs) is None);
                return Err(e);
            },
        }
        i = i + 1;
    }
    let ghost pairs = parsed_fields(fs)->Some_0;
    assert(parts.deep_view() =~= Seq::new(pairs.len(), |j: int| pub_field(pairs[j])));
    let mut body: Vec<Token> = Vec::new();
    append_terminated(&mut body, &parts, ',');
    let g = group(Delim::Brace, body);
    assert(g@ == public_fields_group(pairs));
    let mut text = String::new();
    push_tok_text(&mut text, &g);
    assert(text@ =~= tok_text(g@));
    let named_err = match fields_named_error(text.as_str()) {
        None => None,
        Some((_, d)) => Some(d),
    };
    finish_public(item, g, &named_err)
}

/// Reading back the tokens that `to_tokens` writes gives the same field.
pub proof fn law_struct_field_roundtrip(name: Seq<char>, ty: Seq<char>)
    ensures
        parse_field_spec(pub_field((name, ty))) == Some((name, ty)),
{
    reveal_strlit("pub");
    let k: int = 0;
    assert("pub"@.subrange(k, k + 3) =~= "pub"@);
    assert(contains_pub("pub"@));
}

/// The struct that `public` writes, read back as a type definition: the same attributes, name,
/// generics and `where` clause, made public, each field public with its name and its type.
pub open spec fn public_item_def(item: ItemV, pairs: Seq<(Seq<char>, Seq<char>)>) -> ItemV {
    ItemV {
        attrs: item.attrs,
        vis: seq![Tok::Ident("pub"@)],
        name: item.name,
        generics: item.generics,
        where_clause: item.where_clause,
        fields: Some(Seq::new(
            pairs.len(),
            |i: int| FieldV { attrs: seq![], vis: seq![Tok::Ident("pub"@)], name: pairs[i].0, ty: seq![Tok::Ident(pairs[i].1)] },
        )),
    }
}

/// Applying `public` to the struct that it wrote changes nothing: the result is the same code.
pub proof fn law_public_idempotent(item: ItemV)
    requires
        public_spec(item) is Ok,
    ensures
        public_spec(public_item_def(item, parsed_fields(item.fields->Some_0)->Some_0)) == public_spec(item),
{
    let fs = item.fields->Some_0;
    let pairs = parsed_fields(fs)->Some_0;
    let again = public_item_def(item, pairs);
    let fs2 = again.fields->Some_0;
    assert forall|i: int| 0 <= i < fs2.len() implies (#[trigger] parse_field_spec(field_tokens(fs2[i]))) == Some(pairs[i]) by {
        assert(field_tokens(fs2[i]) =~= pub_field(pairs[i]));
        law_struct_field_roundtrip(pairs[i].0, pairs[i].1);
    }
    assert(parsed_fields(fs2)->Some_0 =~= pairs);
    assert(public_item(again, public_fields_group(pairs)) =~= public_item(item, public_fields_group(pairs)));
}


/// What `public` makes of its raw input: `syn`'s error when it does not read it as a type
/// definition, else as `public_spec` says.
pub open spec fn public_tokens_spec(ts: Seq<Tok>) -> Result<Seq<Tok>, ErrV> {
    match read_derive_input(ts) {
        Err((m, _)) => Err(err(m)),
        Ok(it) => public_spec(it),
    }
}

/// The public struct from the attribute's raw input.
pub fn public_tokens(ts: &Vec<Token>) -> (r: Result<Vec<Token>, MacroError>)
    ensures
        match r {
            Ok(o) => public_tokens_spec(ts.deep_view()) == Ok::<Seq<Tok>, ErrV>(o.deep_view()),
            Err(e) => public_tokens_spec(ts.deep_view()) == Err::<Seq<Tok>, ErrV>(e@),
        },
{
    match read_derive_input_exec(ts) {
        Err((m, _)) => Err(MacroError { message: m, fatal: false }),
        Ok(it) => public(&it),
    }
}

proof fn lemma_terminated_index(parts: Seq<Seq<Tok>>, sep: Tok)
    requires
        forall|i: int| 0 <= i < parts.len() ==> (#[trigger] parts[i]).len() == 4,
    ensures
        terminated(parts, sep).len() == 5 * parts.len(),
        forall|k: int, j: int|
            0 <= k < parts.len() && 0 <= j < 4 ==> #[trigger] terminated(parts, sep)[5 * k + j] == parts[k][j],
        forall|k: int| 0 <= k < parts.len() ==> #[trigger] terminated(parts, sep)[5 * k + 4] == sep,
    decreases parts.len(),
{
    if parts.len() > 0 {
        let init = parts.drop_last();
        lemma_terminated_index(init, sep);
        let t = terminated(parts, sep);
        assert(t == terminated(init, sep) + parts.last() + seq![sep]);
        assert forall|k: int, j: int| 0 <= k < parts.len() && 0 <= j < 4 implies #[trigger] t[5 * k + j] == parts[k][j] by {
            if k < parts.len() - 1 {
                assert(init[k] == parts[k]);
                assert(terminated(init, sep)[5 * k + j] == init[k][j]);
            }
        }
        assert forall|k: int| 0 <= k < parts.len() implies #[trigger] t[5 * k + 4] == sep by {
            if k < parts.len() - 1 {
                assert(terminated(init, sep)[5 * k + 4] == sep);
            }
        }
    }
}

/// The field that `public` writes for the pair, read back: public, with the pair's name and type.
pub open spec fn pub_field_def(pair: (Seq<char>, Seq<char>)) -> FieldV {
    FieldV { attrs: seq![], vis: seq![Tok::Ident("pub"@)], name: pair.0, ty: seq![Tok::Ident(pair.1)] }
}

proof fn lemma_read_pub_fields(pairs: Seq<(Seq<char>, Seq<char>)>, k: int)
    requires
        0 <= k <= pairs.len(),
    ensures
        fields_from(
            public_fields_group(pairs)->Group_1,
            5 * k,
            Seq::new(k as nat, |i: int| pub_field_def(pairs[i])),
        ) == Some(Seq::new(pairs.len(), |i: int| pub_field_def(pairs[i]))),
    decreases pairs.len() - k,
{
    let parts = Seq::new(pairs.len(), |i: int| pub_field(pairs[i]));
    let c = public_fields_group(pairs)->Group_1;
    lemma_terminated_index(parts, Tok::Punct(',', false));
    let acc = Seq::new(k as nat, |i: int| pub_field_def(pairs[i]));
    if k == pairs.len() {
        assert(acc =~= Seq::new(pairs.len(), |i: int| pub_field_def(pairs[i])));
    } else {
        let b = 5 * k;
        assert(c[b + 0] == parts[k][0]);
        assert(c[b + 1] == parts[k][1]);
        assert(c[b + 2] == parts[k][2]);
        assert(c[b + 3] == parts[k][3]);
        assert(c[b + 4] == Tok::Punct(',', false));
        assert(c[b] == Tok::Ident("pub"@));
        assert(c[b + 1] == Tok::Ident(pairs[k].0));
        assert(c[b + 2] == Tok::Punct(':', false));
        assert(c[b + 3] == Tok::Ident(pairs[k].1));
        assert(field_end(c, b + 4, 0) == b + 4);
        assert(field_end(c, b + 3, 0) == b + 4);
        assert(field_end(c, b + 2, 0) == b + 4);
        assert(field_end(c, b + 1, 0) == b + 4);
        assert(field_end(c, b, 0) == b + 4);
        assert(skip_attrs(c, b) == b);
        assert(skip_vis(c, b) == b + 1);
        assert(c.subrange(b, b) =~= Seq::<Tok>::empty());
        assert(c.subrange(b, b + 1) =~= seq![Tok::Ident("pub"@)]);
        assert(c.subrange(b + 3, b + 4) =~= seq![Tok::Ident(pairs[k].1)]);
        assert(field_at(c, b, b + 4) == Some(pub_field_def(pairs[k])));
        lemma_read_pub_fields(pairs, k + 1);
        assert(acc.push(pub_field_def(pairs[k])) =~= Seq::new((k + 1) as nat, |i: int| pub_field_def(pairs[i])));
        assert(5 * (k + 1) == b + 5);
    }
}

/// Applying `public` to the code that it wrote, read back from that code's tokens, gives the same
/// code, when `syn` reads that code back as a type definition.
#[verifier::rlimit(80)]
#[verifier::spinoff_prover]
pub proof fn law_public_tokens_idempotent(ts: Seq<Tok>)
    requires
        public_tokens_spec(ts) is Ok,
        syn_derive_input_error(tokens_text(public_tokens_spec(ts)->Ok_0)) is None,
    ensures
        public_tokens_spec(public_tokens_spec(ts)->Ok_0) == public_tokens_spec(ts),
{
    let ts0 = ts;
    let ts = flatten(ts0);
    lemma_flatten_is_plain(ts0, 0);
    let it = split_derive(ts)->Some_0;
    let a = skip_attrs(ts, 0);
    let v0 = skip_vis(ts, a);
    lemma_scans(ts, 0, 0);
    lemma_scans(ts, a, 0);
    let g0 = generics_end(ts, v0 + 2);
    lemma_scans(ts, v0 + 2, 0);
    let last = ts.len() - 1;
    let fs = it.fields->Some_0;
    let pairs = parsed_fields(fs)->Some_0;
    let g = public_fields_group(pairs);
    let sg = shown_generics(it.generics);
    let sw = shown_where(it.where_clause);
    let out = public_item(it, g);
    assert(public_tokens_spec(ts0) == Ok::<Seq<Tok>, ErrV>(out));
    assert(it.attrs == ts.subrange(0, a));
    assert(it.generics == ts.subrange(v0 + 2, g0));
    assert(it.where_clause == ts.subrange(g0, last));
    assert(where_form(it.where_clause));
    // the parts of `out`
    let head = it.attrs + seq![Tok::Ident("pub"@), Tok::Ident("struct"@), Tok::Ident(it.name)];
    assert(out == head + sg + sw + seq![g]);
    assert(head.len() == a + 3);
    let last2 = out.len() - 1;
    assert(out[last2] == g);
    assert forall|i: int| 0 <= i < a implies out[i] == ts[i] by {
        assert(out[i] == head[i]);
    }
    assert(out[a] == Tok::Ident("pub"@));
    assert(out[a + 1] == Tok::Ident("struct"@));
    assert(out[a + 2] == Tok::Ident(it.name));
    lemma_skip_attrs_same(ts, out, 0);
    assert(skip_attrs(out, 0) == a);
    assert(skip_vis(out, a) == a + 1);
    // the generics of `out`
    let ge = a + 3 + sg.len();
    assert(forall|i: int| 0 <= i < sg.len() ==> out[a + 3 + i] == sg[i]);
    assert(forall|i: int| 0 <= i < sw.len() ==> out[ge + i] == sw[i]);
    assert(out[ge + sw.len()] == g);
    if sg.len() > 0 {
        assert(sg == it.generics);
        assert(is_punct_tok(ts[v0 + 2], '<'));
        assert(g0 == angle_close(ts, v0 + 3, 1));
        let off = (a + 3) - (v0 + 2);
        assert forall|i: int| v0 + 2 <= i < g0 implies out[i + off] == ts[i] by {
            assert(out[a + 3 + (i - (v0 + 2))] == sg[i - (v0 + 2)]);
        }
        lemma_angle_close_shift(ts, out, v0 + 3, 1, off);
        assert(generics_end(out, a + 3) == ge);
    } else {
        if sw.len() > 0 {
            assert(sw == it.where_clause);
            assert(out[a + 3] == Tok::Ident("where"@));
        } else {
            assert(out[a + 3] == g);
        }
        assert(generics_end(out, a + 3) == ge);
    }
    assert(out.subrange(0, a) =~= it.attrs);
    assert(out.subrange(a, a + 1) =~= seq![Tok::Ident("pub"@)]);
    assert(out.subrange(a + 3, ge) =~= sg);
    assert(out.subrange(ge, last2) =~= sw);
    assert(sw.len() == 0 || sw[0] == Tok::Ident("where"@));
    lemma_read_pub_fields(pairs, 0);
    assert(Seq::new(0nat, |i: int| pub_field_def(pairs[i])) =~= Seq::<FieldV>::empty());
    let fs2 = Seq::new(pairs.len(), |i: int| pub_field_def(pairs[i]));
    let it2 = ItemV {
        attrs: it.attrs,
        vis: seq![Tok::Ident("pub"@)],
        name: it.name,
        generics: sg,
        where_clause: sw,
        fields: Some(fs2),
    };
    assert(split_derive(out) == Some(it2));
    // `out` holds no invisible group, so reading it looks at `out` itself
    let c = g->Group_1;
    lemma_terminated_index(Seq::new(pairs.len(), |i: int| pub_field(pairs[i])), Tok::Punct(',', false));
    assert forall|j: int| 0 <= j < c.len() implies plain_tok(#[trigger] c[j]) by {
        let k = j / 5;
        let r = j % 5;
        assert(j == 5 * k + r);
        if r < 4 {
            assert(c[5 * k + r] == pub_field(pairs[k])[r]);
        }
    }
    lemma_flatten_plain(c, 0);
    assert(c.subrange(0, c.len() as int) =~= c);
    assert forall|j: int| 0 <= j < out.len() implies plain_tok(#[trigger] out[j]) by {
        if j < a {
            assert(out[j] == ts[j]);
        } else if a + 3 <= j < ge {
            assert(out[j] == sg[j - (a + 3)]);
            if sg.len() > 0 {
                assert(sg[j - (a + 3)] == ts[v0 + 2 + (j - (a + 3))]);
            }
        } else if ge <= j < last2 {
            assert(out[j] == sw[j - ge]);
            if sw.len() > 0 {
                assert(sw[j - ge] == ts[g0 + (j - ge)]);
            }
        }
    }
    lemma_flatten_plain(out, 0);
    assert(out.subrange(0, out.len() as int) =~= out);
    assert(flatten(out) == out);
    assert(read_derive_input(out) == Ok::<ItemV, (Seq<char>, Seq<char>)>(it2));
    assert forall|i: int| 0 <= i < fs2.len() implies (#[trigger] parse_field_spec(field_tokens(fs2[i]))) == Some(pairs[i]) by {
        assert(field_tokens(fs2[i]) =~= pub_field(pairs[i]));
        law_struct_field_roundtrip(pairs[i].0, pairs[i].1);
    }
    assert(parsed_fields(fs2)->Some_0 =~= pairs);
    assert(shown_generics(sg) == sg);
    assert(shown_where(sw) == sw);
    assert(public_item(it2, g) == out);
}

} // verus!
