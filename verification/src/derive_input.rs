//! The input of a derive or attribute macro on a type definition, read from its raw tokens: `syn`
//! decides whether the tokens are a type definition (`syn::DeriveInput`), and the definition is
//! then split into its parts.
use vstd::prelude::*;
use crate::tokens::{
    Token, Tok, Delim, is_ident, is_punct, is_punct_tok, is_group_tok, copy_token, extend, push_tok, lemma_group_view,
};
use crate::item::{FieldDef, FieldV, ItemDef, ItemV};
use crate::other_attributes::copy_range;
use crate::syntax::{tokens_text, tokens_to_text, SynAnswer, answer_view};

verus! {

broadcast use lemma_group_view;

/// `syn`'s answer on parsing the text as a type definition (`syn::parse_str::<syn::DeriveInput>`):
/// `None` when it is one, else its error's message and debug form.
pub uninterp spec fn syn_derive_input_error(text: Seq<char>) -> Option<(Seq<char>, Seq<char>)>;

/// Asks `syn::parse_str::<syn::DeriveInput>` about the text: nothing when it is a type
/// definition, else the error's message and debug form; the answer depends on the text alone.
#[verifier::external_body]
pub(crate) fn derive_input_error(text: &str) -> (r: SynAnswer)
    ensures
        answer_view(r) == syn_derive_input_error(text@),
{
    match syn::parse_str::<syn::DeriveInput>(text) {
        Ok(_) => None,
        Err(e) => Some((e.to_string(), format!("{:?}", e))),
    }
}

/// Whether the `>` at `p` ends an arrow `->`.
pub open spec fn arrow_head(s: Seq<Tok>, p: int) -> bool {
    0 < p < s.len() && s[p - 1] == Tok::Punct('-', true)
}

/// The position after the outer attributes (`# [ ... ]`) from `p`.
pub open spec fn skip_attrs(s: Seq<Tok>, p: int) -> int
    decreases s.len() - p,
{
    if 0 <= p && p + 1 < s.len() && is_punct_tok(s[p], '#') && is_group_tok(s[p + 1], Delim::Bracket) {
        skip_attrs(s, p + 2)
    } else {
        p
    }
}

/// The position after a visibility (`pub`, `pub ( ... )`) at `p`.
pub open spec fn skip_vis(s: Seq<Tok>, p: int) -> int {
    if 0 <= p < s.len() && s[p] == Tok::Ident("pub"@) {
        if p + 1 < s.len() && is_group_tok(s[p + 1], Delim::Paren) {
            p + 2
        } else {
            p + 1
        }
    } else {
        p
    }
}

/// The position after the `>` that closes the `depth` open angle brackets, scanning from `p`.
pub open spec fn angle_close(s: Seq<Tok>, p: int, depth: int) -> int
    decreases s.len() - p,
{
    if p < 0 || p >= s.len() {
        s.len() as int
    } else if is_punct_tok(s[p], '<') {
        angle_close(s, p + 1, depth + 1)
    } else if is_punct_tok(s[p], '>') && !arrow_head(s, p) {
        if depth <= 1 {
            p + 1
        } else {
            angle_close(s, p + 1, depth - 1)
        }
    } else {
        angle_close(s, p + 1, depth)
    }
}

/// The position after the generic parameters (`< ... >`) at `p`, if there are any.
pub open spec fn generics_end(s: Seq<Tok>, p: int) -> int {
    if 0 <= p < s.len() && is_punct_tok(s[p], '<') {
        angle_close(s, p + 1, 1)
    } else {
        p
    }
}

/// The position of the `,` that ends a field, outside angle brackets, scanning from `p` at the
/// angle depth `depth`; the end when there is none.
pub open spec fn field_end(s: Seq<Tok>, p: int, depth: int) -> int
    decreases s.len() - p,
{
    if p < 0 || p >= s.len() {
        s.len() as int
    } else if depth <= 0 && is_punct_tok(s[p], ',') {
        p
    } else if is_punct_tok(s[p], '<') {
        field_end(s, p + 1, depth + 1)
    } else if is_punct_tok(s[p], '>') && !arrow_head(s, p) && depth > 0 {
        field_end(s, p + 1, depth - 1)
    } else {
        field_end(s, p + 1, depth)
    }
}

/// The scans stay between where they start and the end.
pub proof fn lemma_scans(s: Seq<Tok>, p: int, depth: int)
    requires
        0 <= p <= s.len(),
    ensures
        p <= skip_attrs(s, p) <= s.len(),
        p <= skip_vis(s, p) <= s.len(),
        p <= angle_close(s, p, depth) <= s.len(),
        p <= generics_end(s, p) <= s.len(),
        p <= field_end(s, p, depth) <= s.len(),
    decreases s.len() - p,
{
    if p < s.len() {
        lemma_scans(s, p + 1, depth);
        lemma_scans(s, p + 1, depth + 1);
        lemma_scans(s, p + 1, depth - 1);
        lemma_scans(s, p + 1, 1);
        if p + 1 < s.len() {
            lemma_scans(s, p + 2, depth);
        }
    }
}

/// The field between `p` and its end `e`: attributes, visibility, name, `:` and type.
pub open spec fn field_at(c: Seq<Tok>, p: int, e: int) -> Option<FieldV> {
    let a = skip_attrs(c, p);
    let v = skip_vis(c, a);
    if v + 1 < e && e <= c.len() && c[v] is Ident && is_punct_tok(c[v + 1], ':') {
        Some(
            FieldV {
                attrs: c.subrange(p, a),
                vis: c.subrange(a, v),
                name: c[v]->Ident_0,
                ty: c.subrange(v + 2, e),
            },
        )
    } else {
        None
    }
}

/// The named fields in the braces' content `c` from `p`, after the fields `acc`, separated by
/// commas with an optional trailing one; `None` when one is not of the form of a field.
pub open spec fn fields_from(c: Seq<Tok>, p: int, acc: Seq<FieldV>) -> Option<Seq<FieldV>>
    decreases c.len() - p,
{
    if p < 0 || p >= c.len() {
        Some(acc)
    } else {
        proof {
            lemma_scans(c, p, 0);
        }
        let e = field_end(c, p, 0);
        match field_at(c, p, e) {
            None => None,
            Some(f) => if e >= c.len() {
                Some(acc.push(f))
            } else {
                fields_from(c, e + 1, acc.push(f))
            },
        }
    }
}

/// Whether tokens can be a `where` clause: none, or `where` and what follows.
pub open spec fn where_form(w: Seq<Tok>) -> bool {
    w.len() == 0 || w[0] == Tok::Ident("where"@)
}

/// The parts of a type definition: attributes, visibility, keyword and name, generics, and for a
/// struct with named fields its `where` clause and its fields. Another definition (an enum, a
/// union, a tuple or unit struct) keeps no `where` clause and no fields. `None` when the tokens
/// are not of these forms.
pub open spec fn split_derive(ts: Seq<Tok>) -> Option<ItemV> {
    let a = skip_attrs(ts, 0);
    let v = skip_vis(ts, a);
    if !(v + 1 < ts.len() && ts[v] is Ident && ts[v + 1] is Ident) {
        None
    } else {
        let g = generics_end(ts, v + 2);
        let last = ts.len() - 1;
        if ts[v] == Tok::Ident("struct"@) && g <= last && is_group_tok(ts[last], Delim::Brace) {
            match fields_from(ts[last]->Group_1, 0, seq![]) {
                None => None,
                Some(_) if !where_form(ts.subrange(g, last)) => None,
                Some(fs) => Some(
                    ItemV {
                        attrs: ts.subrange(0, a),
                        vis: ts.subrange(a, v),
                        name: ts[v + 1]->Ident_0,
                        generics: ts.subrange(v + 2, g),
                        where_clause: ts.subrange(g, last),
                        fields: Some(fs),
                    },
                ),
            }
        } else {
            Some(
                ItemV {
                    attrs: ts.subrange(0, a),
                    vis: ts.subrange(a, v),
                    name: ts[v + 1]->Ident_0,
                    generics: ts.subrange(v + 2, g),
                    where_clause: seq![],
                    fields: None,
                },
            )
        }
    }
}

/// The error (message and debug form) for tokens that `syn` takes for a type definition but that
/// are not of a form that the split knows.
pub open spec fn unsupported() -> (Seq<char>, Seq<char>) {
    ("unsupported type definition"@, "Error(\"unsupported type definition\")"@)
}

/// The token trees from `i` on, with each invisible group (as a macro's `$ty` leaves one) replaced
/// by its content, at any depth.
pub open spec fn flatten_from(ts: Seq<Tok>, i: int) -> Seq<Tok>
    decreases ts, ts.len() - i,
{
    if i < 0 || i >= ts.len() {
        seq![]
    } else {
        match ts[i] {
            Tok::Group(d, inner) => {
                proof {
                    assert(decreases_to!(ts => ts[i]));
                }
                (if d == Delim::NoDelim {
                    flatten_from(inner, 0)
                } else {
                    seq![Tok::Group(d, flatten_from(inner, 0))]
                }) + flatten_from(ts, i + 1)
            },
            _ => seq![ts[i]] + flatten_from(ts, i + 1),
        }
    }
}

/// The token trees with each invisible group replaced by its content, at any depth: what `syn`
/// reads when it looks through such groups.
pub open spec fn flatten(ts: Seq<Tok>) -> Seq<Tok> {
    flatten_from(ts, 0)
}

/// Whether a token tree holds no invisible group.
pub open spec fn plain_tok(t: Tok) -> bool {
    match t {
        Tok::Group(d, inner) => d != Delim::NoDelim && flatten(inner) == inner,
        _ => true,
    }
}

/// Token trees that hold no invisible group are kept by the flattening.
pub proof fn lemma_flatten_plain(s: Seq<Tok>, i: int)
    requires
        0 <= i <= s.len(),
        forall|j: int| i <= j < s.len() ==> plain_tok(#[trigger] s[j]),
    ensures
        flatten_from(s, i) == s.subrange(i, s.len() as int),
    decreases s.len() - i,
{
    if i < s.len() {
        lemma_flatten_plain(s, i + 1);
        assert(seq![s[i]] + s.subrange(i + 1, s.len() as int) =~= s.subrange(i, s.len() as int));
    }
}

/// The flattened token trees hold no invisible group.
pub proof fn lemma_flatten_is_plain(ts: Seq<Tok>, i: int)
    ensures
        forall|j: int| 0 <= j < flatten_from(ts, i).len() ==> plain_tok(#[trigger] flatten_from(ts, i)[j]),
    decreases ts, ts.len() - i,
{
    if 0 <= i < ts.len() {
        lemma_flatten_is_plain(ts, i + 1);
        let rest = flatten_from(ts, i + 1);
        match ts[i] {
            Tok::Group(d, inner) => {
                assert(decreases_to!(ts => ts[i]));
                lemma_flatten_is_plain(inner, 0);
                let fi = flatten_from(inner, 0);
                lemma_flatten_plain(fi, 0);
                assert(fi.subrange(0, fi.len() as int) =~= fi);
                let piece = if d == Delim::NoDelim { fi } else { seq![Tok::Group(d, fi)] };
                assert(flatten_from(ts, i) == piece + rest);
                assert forall|j: int| 0 <= j < (piece + rest).len() implies plain_tok(#[trigger] (piece + rest)[j]) by {
                    if j < piece.len() {
                        assert((piece + rest)[j] == piece[j]);
                    } else {
                        assert((piece + rest)[j] == rest[j - piece.len()]);
                    }
                }
            },
            _ => {
                assert forall|j: int| 0 <= j < (seq![ts[i]] + rest).len() implies plain_tok(
                    #[trigger] (seq![ts[i]] + rest)[j],
                ) by {
                    if j > 0 {
                        assert((seq![ts[i]] + rest)[j] == rest[j - 1]);
                    }
                }
            },
        }
    }
}

/// The token trees with each invisible group replaced by its content, as `flatten` says.
pub fn flatten_exec(ts: &Vec<Token>) -> (r: Vec<Token>)
    ensures
        r.deep_view() == flatten(ts.deep_view()),
    decreases ts,
{
    let ghost v = ts.deep_view();
    let mut out: Vec<Token> = Vec::new();
    let mut i: usize = 0;
    assert(out.deep_view() + flatten_from(v, 0) =~= flatten_from(v, 0));
    while i < ts.len()
        invariant
            i <= ts@.len(),
            v == ts.deep_view(),
            flatten_from(v, 0) == out.deep_view() + flatten_from(v, i as int),
        decreases ts@.len() - i,
    {
        let ghost o = out.deep_view();
        let t = &ts[i];
        let ghost tv = t@;
        match t {
            Token::Group(d, inner) => {
                proof {
                    assert(decreases_to!(ts => ts@));
                    assert(decreases_to!(ts@ => ts@[i as int]));
                    lemma_group_view(*d, *inner);
                }
                let f = flatten_exec(inner);
                let ghost fv = f.deep_view();
                match d {
                    Delim::NoDelim => {
                        extend(&mut out, f);
                        assert(o + (fv + flatten_from(v, i + 1)) =~= out.deep_view() + flatten_from(v, i + 1));
                    },
                    _ => {
                        push_tok(&mut out, Token::Group(*d, f));
                        proof {
                            assert(out.deep_view().last() == Tok::Group(*d, fv));
                        }
                        assert(o + (seq![Tok::Group(*d, fv)] + flatten_from(v, i + 1)) =~= out.deep_view()
                            + flatten_from(v, i + 1));
                    },
                }
            },
            _ => {
                push_tok(&mut out, copy_token(t));
                assert(o + (seq![tv] + flatten_from(v, i + 1)) =~= out.deep_view() + flatten_from(v, i + 1));
            },
        }
        i = i + 1;
    }
    assert(out.deep_view() + Seq::<Tok>::empty() =~= out.deep_view());
    out
}

/// The type definition read from raw tokens, looking through invisible groups: `syn`'s error
/// (message and debug form) when they are not one, else its parts.
pub open spec fn read_derive_input(ts: Seq<Tok>) -> Result<ItemV, (Seq<char>, Seq<char>)> {
    let ft = flatten(ts);
    match syn_derive_input_error(tokens_text(ft)) {
        Some(e) => Err(e),
        None => match split_derive(ft) {
            Some(it) => Ok(it),
            None => Err(unsupported()),
        },
    }
}

fn bracket_at(s: &Vec<Token>, q: usize) -> (r: bool)
    requires
        q < s@.len(),
    ensures
        r == is_group_tok(s.deep_view()[q as int], Delim::Bracket),
{
    match &s[q] {
        Token::Group(Delim::Bracket, _) => true,
        _ => false,
    }
}

fn attr_at(s: &Vec<Token>, q: usize) -> (r: bool)
    requires
        q <= s@.len(),
    ensures
        r == (q + 1 < s@.len() && is_punct_tok(s.deep_view()[q as int], '#') && is_group_tok(
            s.deep_view()[q + 1],
            Delim::Bracket,
        )),
{
    q < s.len() && s.len() - q > 1 && is_punct(&s[q], '#') && bracket_at(s, q + 1)
}

pub(crate) fn skip_attrs_exec(s: &Vec<Token>, p: usize) -> (r: usize)
    requires
        p <= s@.len(),
    ensures
        r == skip_attrs(s.deep_view(), p as int),
        r <= s@.len(),
{
    let ghost v = s.deep_view();
    let mut q = p;
    while attr_at(s, q)
        invariant
            p <= q <= s@.len(),
            v == s.deep_view(),
            skip_attrs(v, p as int) == skip_attrs(v, q as int),
        decreases s@.len() - q,
    {
        let n = s.len();
        assert(q + 1 < n);
        q = q + 2;
    }
    q
}

pub(crate) fn skip_vis_exec(s: &Vec<Token>, p: usize) -> (r: usize)
    requires
        p <= s@.len(),
    ensures
        r == skip_vis(s.deep_view(), p as int),
        r <= s@.len(),
{
    if p < s.len() && is_ident(&s[p], "pub") {
        if s.len() - p > 1 && match &s[p + 1] {
            Token::Group(Delim::Paren, _) => true,
            _ => false,
        } {
            p + 2
        } else {
            p + 1
        }
    } else {
        p
    }
}

fn arrow_head_exec(s: &Vec<Token>, p: usize) -> (r: bool)
    requires
        p < s@.len(),
    ensures
        r == arrow_head(s.deep_view(), p as int),
{
    p > 0 && match &s[p - 1] {
        Token::Punct(c, j) => *c == '-' && *j,
        _ => false,
    }
}

fn generics_end_exec(s: &Vec<Token>, p: usize) -> (r: usize)
    requires
        p <= s@.len(),
    ensures
        r == generics_end(s.deep_view(), p as int),
        p <= r <= s@.len(),
{
    let ghost v = s.deep_view();
    proof {
        lemma_scans(v, p as int, 0);
    }
    if !(p < s.len() && is_punct(&s[p], '<')) {
        return p;
    }
    let mut q: usize = p + 1;
    let mut depth: usize = 1;
    while q < s.len()
        invariant
            p < q <= s@.len(),
            1 <= depth <= q,
            v == s.deep_view(),
            generics_end(v, p as int) == angle_close(v, q as int, depth as int),
        decreases s@.len() - q,
    {
        if is_punct(&s[q], '<') {
            depth = depth + 1;
        } else if is_punct(&s[q], '>') && !arrow_head_exec(s, q) {
            if depth <= 1 {
                return q + 1;
            }
            depth = depth - 1;
        }
        q = q + 1;
    }
    q
}

fn field_end_exec(s: &Vec<Token>, p: usize) -> (r: usize)
    requires
        p <= s@.len(),
    ensures
        r == field_end(s.deep_view(), p as int, 0),
        p <= r <= s@.len(),
{
    let ghost v = s.deep_view();
    let mut q: usize = p;
    let mut depth: usize = 0;
    while q < s.len()
        invariant
            p <= q <= s@.len(),
            depth <= q,
            v == s.deep_view(),
            field_end(v, p as int, 0) == field_end(v, q as int, depth as int),
        decreases s@.len() - q,
    {
        if depth == 0 && is_punct(&s[q], ',') {
            return q;
        }
        if is_punct(&s[q], '<') {
            depth = depth + 1;
        } else if is_punct(&s[q], '>') && !arrow_head_exec(s, q) && depth > 0 {
            depth = depth - 1;
        }
        q = q + 1;
    }
    q
}

fn field_at_exec(c: &Vec<Token>, p: usize, e: usize) -> (r: Option<FieldDef>)
    requires
        p <= e <= c@.len(),
    ensures
        match r {
            Some(f) => field_at(c.deep_view(), p as int, e as int) == Some(f.deep_view()),
            None => field_at(c.deep_view(), p as int, e as int) is None,
        },
{
    let ghost cv = c.deep_view();
    let a = skip_attrs_exec(c, p);
    let v = skip_vis_exec(c, a);
    proof {
        lemma_scans(cv, p as int, 0);
        lemma_scans(cv, a as int, 0);
    }
    if !(v < e && e - v > 1 && is_punct(&c[v + 1], ':')) {
        return None;
    }
    let name = match &c[v] {
        Token::Ident(n) => n.clone(),
        _ => {
            return None;
        },
    };
    let f = FieldDef { attrs: copy_range(c, p, a), vis: copy_range(c, a, v), name, ty: copy_range(c, v + 2, e) };
    assert(f.deep_view() == field_at(cv, p as int, e as int)->Some_0);
    Some(f)
}

fn fields_exec(c: &Vec<Token>) -> (r: Option<Vec<FieldDef>>)
    ensures
        match r {
            Some(fs) => fields_from(c.deep_view(), 0, seq![]) == Some(fs.deep_view()),
            None => fields_from(c.deep_view(), 0, seq![]) is None,
        },
{
    let ghost cv = c.deep_view();
    let mut acc: Vec<FieldDef> = Vec::new();
    let mut p: usize = 0;
    assert(acc.deep_view() =~= Seq::<FieldV>::empty());
    while p < c.len()
        invariant
            p <= c@.len(),
            cv == c.deep_view(),
            fields_from(cv, 0, seq![]) == fields_from(cv, p as int, acc.deep_view()),
        decreases c@.len() - p,
    {
        let e = field_end_exec(c, p);
        match field_at_exec(c, p, e) {
            None => {
                return None;
            },
            Some(f) => {
                let ghost before = acc.deep_view();
                let ghost fv = f.deep_view();
                acc.push(f);
                assert(acc.deep_view() =~= before.push(fv));
            },
        }
        if e >= c.len() {
            return Some(acc);
        }
        p = e + 1;
    }
    Some(acc)
}

/// The parts of a type definition, as `split_derive` says.
pub fn split_derive_exec(ts: &Vec<Token>) -> (r: Option<ItemDef>)
    ensures
        match r {
            Some(it) => split_derive(ts.deep_view()) == Some(it.deep_view()),
            None => split_derive(ts.deep_view()) is None,
        },
{
    let ghost tv = ts.deep_view();
    let a = skip_attrs_exec(ts, 0);
    let v = skip_vis_exec(ts, a);
    proof {
        lemma_scans(tv, 0, 0);
        lemma_scans(tv, a as int, 0);
    }
    if !(v < ts.len() && ts.len() - v > 1) {
        return None;
    }
    let name = match (&ts[v], &ts[v + 1]) {
        (Token::Ident(_), Token::Ident(n)) => n.clone(),
        _ => {
            return None;
        },
    };
    let g = generics_end_exec(ts, v + 2);
    let last = ts.len() - 1;
    let named = is_ident(&ts[v], "struct") && g <= last && match &ts[last] {
        Token::Group(Delim::Brace, _) => true,
        _ => false,
    };
    if named {
        match &ts[last] {
            Token::Group(_, body) => {
                assert(tv[last as int]->Group_1 == body.deep_view());
                match fields_exec(body) {
                    None => {
                        return None;
                    },
                    Some(fs) => {
                        if !(g == last || is_ident(&ts[g], "where")) {
                            return None;
                        }
                        let it = ItemDef {
                            attrs: copy_range(ts, 0, a),
                            vis: copy_range(ts, a, v),
                            name,
                            generics: copy_range(ts, v + 2, g),
                            where_clause: copy_range(ts, g, last),
                            fields: Some(fs),
                        };
                        assert(it.deep_view() == split_derive(tv)->Some_0);
                        return Some(it);
                    },
                }
            },
            _ => {
                return None;
            },
        }
    }
    let it = ItemDef {
        attrs: copy_range(ts, 0, a),
        vis: copy_range(ts, a, v),
        name,
        generics: copy_range(ts, v + 2, g),
        where_clause: Vec::new(),
        fields: None,
    };
    assert(it.where_clause.deep_view() =~= Seq::<Tok>::empty());
    assert(it.deep_view() == split_derive(tv)->Some_0);
    Some(it)
}

/// The type definition read from raw tokens, as `read_derive_input` says: `syn`'s error (message
/// and debug form) when they are not one.
pub fn read_derive_input_exec(ts: &Vec<Token>) -> (r: Result<ItemDef, (String, String)>)
    ensures
        match r {
            Ok(it) => read_derive_input(ts.deep_view()) == Ok::<ItemV, (Seq<char>, Seq<char>)>(it.deep_view()),
            Err((m, d)) => read_derive_input(ts.deep_view()) == Err::<ItemV, (Seq<char>, Seq<char>)>((m@, d@)),
        },
{
    let ft = flatten_exec(ts);
    let text = tokens_to_text(&ft);
    match derive_input_error(text.as_str()) {
        Some(e) => Err(e),
        None => match split_derive_exec(&ft) {
            Some(it) => Ok(it),
            None => Err((
                String::from_str("unsupported type definition"),
                String::from_str("Error(\"unsupported type definition\")"),
            )),
        },
    }
}

/// Skipping attributes depends only on the tokens that it passes and the one where it stops.
pub proof fn lemma_skip_attrs_same(s1: Seq<Tok>, s2: Seq<Tok>, p: int)
    requires
        0 <= p <= s1.len(),
        skip_attrs(s1, p) < s2.len(),
        forall|i: int| p <= i < skip_attrs(s1, p) ==> s2[i] == s1[i],
        !is_punct_tok(s2[skip_attrs(s1, p)], '#'),
    ensures
        skip_attrs(s2, p) == skip_attrs(s1, p),
    decreases s1.len() - p,
{
    let a = skip_attrs(s1, p);
    if p + 1 < s1.len() && is_punct_tok(s1[p], '#') && is_group_tok(s1[p + 1], Delim::Bracket) {
        lemma_scans(s1, p + 2, 0);
        assert(s2[p] == s1[p] && s2[p + 1] == s1[p + 1]);
        lemma_skip_attrs_same(s1, s2, p + 2);
    }
}

proof fn lemma_angle_gt(s: Seq<Tok>, p: int, d: int)
    requires
        0 <= p < s.len(),
    ensures
        angle_close(s, p, d) > p,
{
    lemma_scans(s, p + 1, d);
    lemma_scans(s, p + 1, d + 1);
    lemma_scans(s, p + 1, d - 1);
}

/// Closing angle brackets depends only on the tokens that the scan passes, and on the one before
/// the first of them: the scan gives the same place in a sequence that holds them further on.
pub proof fn lemma_angle_close_shift(s1: Seq<Tok>, s2: Seq<Tok>, p: int, d: int, off: int)
    requires
        1 <= p,
        angle_close(s1, p, d) < s1.len(),
        1 <= p + off,
        angle_close(s1, p, d) + off <= s2.len(),
        forall|i: int| p - 1 <= i < angle_close(s1, p, d) ==> s2[i + off] == s1[i],
    ensures
        angle_close(s2, p + off, d) == angle_close(s1, p, d) + off,
    decreases s1.len() - p,
{
    let r = angle_close(s1, p, d);
    lemma_scans(s1, p, d);
    assert(p < s1.len());
    lemma_angle_gt(s1, p, d);
    assert(s2[p + off] == s1[p]);
    assert(s2[p - 1 + off] == s1[p - 1]);
    assert(arrow_head(s2, p + off) == arrow_head(s1, p));
    if is_punct_tok(s1[p], '<') {
        lemma_angle_gt(s1, p + 1, d + 1);
        lemma_angle_close_shift(s1, s2, p + 1, d + 1, off);
    } else if is_punct_tok(s1[p], '>') && !arrow_head(s1, p) {
        if d > 1 {
            lemma_angle_gt(s1, p + 1, d - 1);
            lemma_angle_close_shift(s1, s2, p + 1, d - 1, off);
        }
    } else {
        lemma_angle_gt(s1, p + 1, d);
        lemma_angle_close_shift(s1, s2, p + 1, d, off);
    }
}

} // verus!
