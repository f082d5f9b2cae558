//! The `panic_to_result` attribute: a function that panics becomes one that returns a `Result`,
//! each `panic!` with a message becoming an early return of that message as the error, and each
//! value that it returns being wrapped in `Ok`.
use vstd::prelude::*;
use crate::tokens::{
    Token, Tok, Delim, ident, punct, joint, group, empty_group, copy_token, copy_tokens, extend, push_tok, is_ident,
    is_punct, ident_at, punct_at, has_room, is_punct_tok, is_group_tok, ErrV, MacroError, abort, unwrap_err_msg,
    unwrap_err_with, unwrap_err_abort, unwrap_err_abort_with, lemma_group_view,
};
use crate::other_attributes::copy_range;
use crate::derive_input::{
    arrow_head, skip_attrs, skip_vis, lemma_scans, skip_attrs_exec, skip_vis_exec, flatten, flatten_exec,
};
use crate::syntax::{tokens_text, tokens_to_text, SynAnswer, answer_view};

verus! {

broadcast use lemma_group_view;

/// A function item, as the input of an attribute macro.
#[derive(Debug)]
pub struct FnDef {
    /// The tokens of its outer attributes.
    pub attrs: Vec<Token>,
    /// The tokens of its visibility.
    pub vis: Vec<Token>,
    /// The tokens of its signature from its qualifiers up to its parameters, both included.
    pub sig: Vec<Token>,
    /// The tokens of its return type, when it declares one.
    pub output: Option<Vec<Token>>,
    /// The tokens of its `where` clause (none when it has none).
    pub where_clause: Vec<Token>,
    /// The tokens of its body, inside the braces.
    pub body: Vec<Token>,
}

/// The value of a function item.
pub struct FnV {
    pub attrs: Seq<Tok>,
    pub vis: Seq<Tok>,
    pub sig: Seq<Tok>,
    pub output: Option<Seq<Tok>>,
    pub where_clause: Seq<Tok>,
    pub body: Seq<Tok>,
}

impl DeepView for FnDef {
    type V = FnV;

    open spec fn deep_view(&self) -> FnV {
        FnV {
            attrs: self.attrs.deep_view(),
            vis: self.vis.deep_view(),
            sig: self.sig.deep_view(),
            output: match self.output {
                Some(t) => Some(t.deep_view()),
                None => None,
            },
            where_clause: self.where_clause.deep_view(),
            body: self.body.deep_view(),
        }
    }
}

/// Whether `panic ! ( args )` (with any delimiter), with a message, starts at `i`.
pub open spec fn panic_at(ts: Seq<Tok>, i: int) -> bool {
    &&& 0 <= i
    &&& i + 2 < ts.len()
    &&& ts[i] == Tok::Ident("panic"@)
    &&& is_punct_tok(ts[i + 1], '!')
    &&& ts[i + 2] is Group
    &&& ts[i + 2]->Group_1.len() > 0
}

/// `return Err ( format ! ( args ) )`
pub open spec fn return_err(args: Seq<Tok>) -> Seq<Tok> {
    seq![
        Tok::Ident("return"@), Tok::Ident("Err"@),
        Tok::Group(Delim::Paren, seq![Tok::Ident("format"@), Tok::Punct('!', false), Tok::Group(Delim::Paren, args)]),
    ]
}

/// `return Ok ( value )`, and `return Ok ( ( ) )` for a `return` without value.
pub open spec fn return_ok(value: Seq<Tok>) -> Seq<Tok> {
    seq![
        Tok::Ident("return"@), Tok::Ident("Ok"@),
        Tok::Group(Delim::Paren, if value.len() == 0 { seq![Tok::Group(Delim::Paren, seq![])] } else { value }),
    ]
}

/// The position of the first `;` from `i` on, or the end.
pub open spec fn stmt_end(ts: Seq<Tok>, i: int) -> int
    decreases ts.len() - i,
{
    if i < 0 || i >= ts.len() || is_punct_tok(ts[i], ';') {
        i
    } else {
        stmt_end(ts, i + 1)
    }
}

/// The first `;` from `i` on lies between `i` and the end.
pub proof fn lemma_stmt_end(ts: Seq<Tok>, i: int)
    requires
        0 <= i <= ts.len(),
    ensures
        i <= stmt_end(ts, i) <= ts.len(),
    decreases ts.len() - i,
{
    if i < ts.len() && !is_punct_tok(ts[i], ';') {
        lemma_stmt_end(ts, i + 1);
    }
}

/// The tokens from `i` on, inside groups too, with each `panic ! ( args )` that has a message
/// replaced by `return Err ( format ! ( args ) )`, and each `return value` (up to the next `;`)
/// by `return Ok ( value )`.
pub open spec fn rewrite_from(ts: Seq<Tok>, i: int) -> Seq<Tok>
    decreases ts, ts.len() - i,
{
    if i < 0 || i >= ts.len() {
        seq![]
    } else if ts[i] == Tok::Ident("return"@) {
        proof {
            lemma_stmt_end(ts, i + 1);
        }
        let j = stmt_end(ts, i + 1);
        return_ok(ts.subrange(i + 1, j)) + rewrite_from(ts, j)
    } else if panic_at(ts, i) {
        return_err(ts[i + 2]->Group_1) + rewrite_from(ts, i + 3)
    } else {
        match ts[i] {
            Tok::Group(d, inner) => {
                proof {
                    assert(decreases_to!(ts => ts[i]));
                }
                seq![Tok::Group(d, rewrite_from(inner, 0))] + rewrite_from(ts, i + 1)
            },
            _ => seq![ts[i]] + rewrite_from(ts, i + 1),
        }
    }
}

/// The body with its panics turned into early returns of their message and its returned values
/// wrapped in `Ok`.
pub open spec fn rewrite_panics(ts: Seq<Tok>) -> Seq<Tok> {
    rewrite_from(ts, 0)
}

/// `Result < ( ) , String >`
pub open spec fn unit_result() -> Seq<Tok> {
    seq![
        Tok::Ident("Result"@), Tok::Punct('<', false), Tok::Group(Delim::Paren, seq![]), Tok::Punct(',', false),
        Tok::Ident("String"@), Tok::Punct('>', false),
    ]
}

/// The return type of the rewritten function: `Result < T , String >` for a function that returns
/// `T`, and `Result < ( ) , String >` for one that declares no return type.
pub open spec fn result_type(output: Option<Seq<Tok>>) -> Seq<Tok> {
    match output {
        None => unit_result(),
        Some(t) => seq![Tok::Ident("Result"@), Tok::Punct('<', false)] + t + seq![
            Tok::Punct(',', false), Tok::Ident("String"@), Tok::Punct('>', false),
        ],
    }
}

/// The position of the first `<` from `i` on, or the end.
pub open spec fn first_angle(t: Seq<Tok>, i: int) -> int
    decreases t.len() - i,
{
    if i < 0 || i >= t.len() || is_punct_tok(t[i], '<') {
        i
    } else {
        first_angle(t, i + 1)
    }
}

/// Whether a type is a `Result`: the last identifier of its path (before any `<`) is `Result`, as
/// in `Result < T , E >`, `io :: Result < T >` or `std :: result :: Result < T , E >`.
pub open spec fn returns_result(t: Seq<Tok>) -> bool {
    let k = first_angle(t, 0);
    0 < k <= t.len() && t[k - 1] == Tok::Ident("Result"@)
}

/// `{ Ok ( { body } ) }`
pub open spec fn ok_body(body: Seq<Tok>) -> Tok {
    Tok::Group(Delim::Brace, seq![Tok::Ident("Ok"@), Tok::Group(Delim::Paren, seq![Tok::Group(Delim::Brace, body)])])
}

/// `-> output`
pub open spec fn arrow() -> Seq<Tok> {
    seq![Tok::Punct('-', true), Tok::Punct('>', false)]
}

/// What the attribute makes of a function. A function that already returns a `Result` is left as
/// it is. Any other returns `Result<T, String>` (`Result<(), String>` when it declares no return
/// type): its panics with a message become early returns of that message as the error, the
/// values it returns with `return` are wrapped in `Ok`, and so is the value of its body.
pub open spec fn panic_to_result_spec(f: FnV) -> Seq<Tok> {
    if f.output matches Some(t) && returns_result(t) {
        f.attrs + f.vis + f.sig + arrow() + f.output->Some_0 + f.where_clause + seq![Tok::Group(Delim::Brace, f.body)]
    } else {
        f.attrs + f.vis + f.sig + arrow() + result_type(f.output) + f.where_clause + seq![ok_body(rewrite_panics(f.body))]
    }
}

fn panic_call_at(ts: &Vec<Token>, i: usize) -> (r: bool)
    ensures
        r == panic_at(ts.deep_view(), i as int),
{
    if ident_at(ts, i, 0, "panic") && punct_at(ts, i, 1, '!') && has_room(ts, i, 2) {
        match &ts[i + 2] {
            Token::Group(_, args) => {
                assert(ts.deep_view()[i + 2]->Group_1 == args.deep_view());
                args.len() > 0
            },
            _ => false,
        }
    } else {
        false
    }
}

fn return_err_exec(args: &Vec<Token>) -> (r: Vec<Token>)
    ensures
        r.deep_view() == return_err(args.deep_view()),
{
    let inner = vec![ident("format"), punct('!'), group(Delim::Paren, copy_tokens(args))];
    let ghost inner_v = seq![Tok::Ident("format"@), Tok::Punct('!', false), Tok::Group(Delim::Paren, args.deep_view())];
    assert(inner.deep_view() =~= inner_v);
    let r = vec![ident("return"), ident("Err"), group(Delim::Paren, inner)];
    assert(r.deep_view() =~= return_err(args.deep_view()));
    r
}

fn return_ok_exec(value: Vec<Token>) -> (r: Vec<Token>)
    ensures
        r.deep_view() == return_ok(value.deep_view()),
{
    let ghost v = value.deep_view();
    let arg = if value.len() == 0 {
        let unit = vec![empty_group(Delim::Paren)];
        assert(unit.deep_view() =~= seq![Tok::Group(Delim::Paren, seq![])]);
        unit
    } else {
        value
    };
    let r = vec![ident("return"), ident("Ok"), group(Delim::Paren, arg)];
    assert(r.deep_view() =~= return_ok(v));
    r
}

/// The body with its panics turned into early returns of their message and its returned values
/// wrapped in `Ok`, as `rewrite_panics` says.
pub fn replace_panics(ts: &Vec<Token>) -> (r: Vec<Token>)
    ensures
        r.deep_view() == rewrite_panics(ts.deep_view()),
    decreases ts,
{
    let ghost v = ts.deep_view();
    let mut out: Vec<Token> = Vec::new();
    let mut i: usize = 0;
    assert(out.deep_view() + rewrite_from(v, 0) =~= rewrite_from(v, 0));
    while i < ts.len()
        invariant
            i <= ts@.len(),
            v == ts.deep_view(),
            rewrite_from(v, 0) == out.deep_view() + rewrite_from(v, i as int),
        decreases ts@.len() - i,
    {
        let ghost o = out.deep_view();
        if is_ident(&ts[i], "return") {
            let mut j: usize = i + 1;
            proof {
                lemma_stmt_end(v, i + 1);
            }
            while j < ts.len() && !is_punct(&ts[j], ';')
                invariant
                    i + 1 <= j <= ts@.len(),
                    v == ts.deep_view(),
                    stmt_end(v, i + 1) == stmt_end(v, j as int),
                decreases ts@.len() - j,
            {
                j = j + 1;
            }
            assert(stmt_end(v, j as int) == j);
            let value = copy_range(ts, i + 1, j);
            extend(&mut out, return_ok_exec(value));
            assert(o + (return_ok(v.subrange(i + 1, j as int)) + rewrite_from(v, j as int)) =~= out.deep_view()
                + rewrite_from(v, j as int));
            i = j;
        } else if panic_call_at(ts, i) {
            match &ts[i + 2] {
                Token::Group(_, args) => {
                    let re = return_err_exec(args);
                    extend(&mut out, re);
                    assert(v[i + 2]->Group_1 == args.deep_view());
                    assert(o + (return_err(args.deep_view()) + rewrite_from(v, i + 3)) =~= out.deep_view()
                        + rewrite_from(v, i + 3));
                },
                _ => {},
            }
            i = i + 3;
        } else {
            let t = &ts[i];
            let ghost g = t@;
            match t {
                Token::Group(d, inner) => {
                    proof {
                        assert(decreases_to!(ts => ts@));
                        assert(decreases_to!(ts@ => ts@[i as int]));
                    }
                    let gv = replace_panics(inner);
                    let ghost gs = gv.deep_view();
                    push_tok(&mut out, group(*d, gv));
                    assert(o + (seq![Tok::Group(*d, gs)] + rewrite_from(v, i + 1)) =~= out.deep_view() + rewrite_from(
                        v,
                        i + 1,
                    ));
                },
                _ => {
                    push_tok(&mut out, copy_token(t));
                    assert(o + (seq![g] + rewrite_from(v, i + 1)) =~= out.deep_view() + rewrite_from(v, i + 1));
                },
            }
            i = i + 1;
        }
    }
    assert(out.deep_view() + Seq::<Tok>::empty() =~= out.deep_view());
    out
}

/// Whether a type is a `Result`, as `returns_result` says.
pub fn is_result_type(t: &Vec<Token>) -> (r: bool)
    ensures
        r == returns_result(t.deep_view()),
{
    let ghost v = t.deep_view();
    let mut k: usize = 0;
    while k < t.len() && !is_punct(&t[k], '<')
        invariant
            k <= t@.len(),
            v == t.deep_view(),
            first_angle(v, 0) == first_angle(v, k as int),
        decreases t@.len() - k,
    {
        k = k + 1;
    }
    assert(first_angle(v, k as int) == k);
    k > 0 && is_ident(&t[k - 1], "Result")
}

/// `Result < ( ) , String >`, or `Result < T , String >`.
pub fn result_type_exec(output: &Option<Vec<Token>>) -> (r: Vec<Token>)
    ensures
        r.deep_view() == result_type(match output {
            Some(t) => Some(t.deep_view()),
            None => None,
        }),
{
    match output {
        None => {
            let r = vec![ident("Result"), punct('<'), empty_group(Delim::Paren), punct(','), ident("String"), punct('>')];
            assert(r.deep_view() =~= unit_result());
            r
        },
        Some(t) => {
            let mut r = vec![ident("Result"), punct('<')];
            assert(r.deep_view() =~= seq![Tok::Ident("Result"@), Tok::Punct('<', false)]);
            extend(&mut r, copy_tokens(t));
            let tail = vec![punct(','), ident("String"), punct('>')];
            assert(tail.deep_view() =~= seq![Tok::Punct(',', false), Tok::Ident("String"@), Tok::Punct('>', false)]);
            extend(&mut r, tail);
            r
        },
    }
}

/// The function rewritten to return `Result<T, String>`, as `panic_to_result_spec` says; a function
/// that already returns a `Result` is left as it is.
pub fn panic_to_result(item: &FnDef) -> (r: Vec<Token>)
    ensures
        r.deep_view() == panic_to_result_spec(item.deep_view()),
{
    let ghost f = item.deep_view();
    let mut out = copy_tokens(&item.attrs);
    extend(&mut out, copy_tokens(&item.vis));
    extend(&mut out, copy_tokens(&item.sig));
    push_tok(&mut out, joint('-'));
    push_tok(&mut out, punct('>'));
    let keep = match &item.output {
        Some(t) => is_result_type(t),
        None => false,
    };
    if keep {
        match &item.output {
            Some(t) => extend(&mut out, copy_tokens(t)),
            None => {},
        }
        extend(&mut out, copy_tokens(&item.where_clause));
        push_tok(&mut out, group(Delim::Brace, copy_tokens(&item.body)));
        assert(out.deep_view() =~= panic_to_result_spec(f));
        return out;
    }
    extend(&mut out, result_type_exec(&item.output));
    extend(&mut out, copy_tokens(&item.where_clause));
    let body = replace_panics(&item.body);
    let ghost b = body.deep_view();
    let block = vec![group(Delim::Brace, body)];
    assert(block.deep_view() =~= seq![Tok::Group(Delim::Brace, b)]);
    let call = vec![ident("Ok"), group(Delim::Paren, block)];
    assert(call.deep_view() =~= seq![Tok::Ident("Ok"@), Tok::Group(Delim::Paren, seq![Tok::Group(Delim::Brace, b)])]);
    push_tok(&mut out, group(Delim::Brace, call));
    assert(out.deep_view() =~= panic_to_result_spec(f));
    out
}

/// Whether the tokens from `i` on never mention `panic` or `return`, inside groups neither.
pub open spec fn plain_from(ts: Seq<Tok>, i: int) -> bool
    decreases ts, ts.len() - i,
{
    if i < 0 || i >= ts.len() {
        true
    } else {
        &&& ts[i] != Tok::Ident("panic"@)
        &&& ts[i] != Tok::Ident("return"@)
        &&& match ts[i] {
            Tok::Group(_, inner) => {
                proof {
                    assert(decreases_to!(ts => ts[i]));
                }
                plain_from(inner, 0)
            },
            _ => true,
        }
        &&& plain_from(ts, i + 1)
    }
}

proof fn lemma_plain_kept(ts: Seq<Tok>, i: int)
    requires
        0 <= i <= ts.len(),
        plain_from(ts, i),
    ensures
        rewrite_from(ts, i) == ts.subrange(i, ts.len() as int),
    decreases ts, ts.len() - i,
{
    if i < ts.len() {
        lemma_plain_kept(ts, i + 1);
        match ts[i] {
            Tok::Group(d, inner) => {
                assert(decreases_to!(ts => ts[i]));
                lemma_plain_kept(inner, 0);
                assert(inner.subrange(0, inner.len() as int) =~= inner);
            },
            _ => {},
        }
        assert(seq![ts[i]] + ts.subrange(i + 1, ts.len() as int) =~= ts.subrange(i, ts.len() as int));
    }
}

/// A body that never mentions `panic` or `return` is kept as it is (the function only wraps its
/// value in `Ok`).
pub proof fn law_plain_body_kept(body: Seq<Tok>)
    requires
        plain_from(body, 0),
    ensures
        rewrite_panics(body) == body,
{
    lemma_plain_kept(body, 0);
    assert(body.subrange(0, body.len() as int) =~= body);
}

/// Applying the attribute to the function that it wrote changes nothing: that function returns a
/// `Result`, and is left as it is.
pub proof fn law_applied_twice(f: FnV)
    requires
        !(f.output matches Some(t) && returns_result(t)),
    ensures
        ({
            let again = FnV {
                attrs: f.attrs,
                vis: f.vis,
                sig: f.sig,
                output: Some(result_type(f.output)),
                where_clause: f.where_clause,
                body: ok_body(rewrite_panics(f.body))->Group_1,
            };
            panic_to_result_spec(again) == panic_to_result_spec(f)
        }),
{
    let rt = result_type(f.output);
    assert(first_angle(rt, 1) == 1);
    assert(first_angle(rt, 0) == 1);
    assert(returns_result(rt));
}

/// `syn`'s answer on parsing the text as a function item (`syn::parse_str::<syn::ItemFn>`): `None`
/// when it is one, else its error's message and debug form.
pub uninterp spec fn syn_item_fn_error(text: Seq<char>) -> Option<(Seq<char>, Seq<char>)>;

/// Asks `syn::parse_str::<syn::ItemFn>` about the text: nothing when it is a function item, else
/// the error's message and debug form; the answer depends on the text alone.
#[verifier::external_body]
pub(crate) fn item_fn_error(text: &str) -> (r: SynAnswer)
    ensures
        answer_view(r) == syn_item_fn_error(text@),
{
    match syn::parse_str::<syn::ItemFn>(text) {
        Ok(_) => None,
        Err(e) => Some((e.to_string(), format!("{:?}", e))),
    }
}

/// The position after the parameters of a signature: the first parenthesized group outside angle
/// brackets, scanning from `p` at the angle depth `depth`; the end when there is none.
pub open spec fn params_end(s: Seq<Tok>, p: int, depth: int) -> int
    decreases s.len() - p,
{
    if p < 0 || p >= s.len() {
        s.len() as int
    } else if depth <= 0 && is_group_tok(s[p], Delim::Paren) {
        p + 1
    } else if is_punct_tok(s[p], '<') {
        params_end(s, p + 1, depth + 1)
    } else if is_punct_tok(s[p], '>') && !arrow_head(s, p) && depth > 0 {
        params_end(s, p + 1, depth - 1)
    } else {
        params_end(s, p + 1, depth)
    }
}

/// The position of the first `where` from `p` on, or `end`.
pub open spec fn where_pos(s: Seq<Tok>, p: int, end: int) -> int
    decreases end - p,
{
    if p < 0 || p >= end || p >= s.len() || s[p] == Tok::Ident("where"@) {
        p
    } else {
        where_pos(s, p + 1, end)
    }
}

proof fn lemma_fn_scans(s: Seq<Tok>, p: int, depth: int, end: int)
    requires
        0 <= p <= end <= s.len(),
    ensures
        p <= params_end(s, p, depth) <= s.len(),
        p <= where_pos(s, p, end) <= end,
    decreases s.len() - p,
{
    if p < s.len() {
        lemma_fn_scans(s, p + 1, depth, if p < end { end } else { p + 1 });
        lemma_fn_scans(s, p + 1, depth + 1, if p < end { end } else { p + 1 });
        lemma_fn_scans(s, p + 1, depth - 1, if p < end { end } else { p + 1 });
    }
}

/// The parts of a function item: attributes, visibility, the signature up to its parameters, the
/// return type, the `where` clause and the body. `None` when the tokens are not of that form.
pub open spec fn split_fn(ts: Seq<Tok>) -> Option<FnV> {
    let a = skip_attrs(ts, 0);
    let v = skip_vis(ts, a);
    let q = params_end(ts, v, 0);
    let last = ts.len() - 1;
    if !(v < q <= last && is_group_tok(ts[last], Delim::Brace)) {
        None
    } else {
        let has_output = q + 1 < last && ts[q] == Tok::Punct('-', true) && is_punct_tok(ts[q + 1], '>');
        let w = if has_output { where_pos(ts, q + 2, last) } else { q };
        Some(
            FnV {
                attrs: ts.subrange(0, a),
                vis: ts.subrange(a, v),
                sig: ts.subrange(v, q),
                output: if has_output { Some(ts.subrange(q + 2, w)) } else { None },
                where_clause: ts.subrange(w, last),
                body: ts[last]->Group_1,
            },
        )
    }
}

/// What the attribute makes of its raw input: an abort that shows `syn`'s error when `syn` does not
/// read it as a function item (the attribute unwraps the parse), else as `panic_to_result_spec`
/// says; `syn` looks through invisible groups, and so does the split.
pub open spec fn panic_to_result_tokens_spec(ts: Seq<Tok>) -> Result<Seq<Tok>, ErrV> {
    let ft = flatten(ts);
    match syn_item_fn_error(tokens_text(ft)) {
        Some((_, d)) => Err(abort(unwrap_err_with(d))),
        None => match split_fn(ft) {
            Some(f) => Ok(panic_to_result_spec(f)),
            None => Err(abort(unwrap_err_msg())),
        },
    }
}

fn params_end_exec(s: &Vec<Token>, p: usize) -> (r: usize)
    requires
        p <= s@.len(),
    ensures
        r == params_end(s.deep_view(), p as int, 0),
{
    let ghost v = s.deep_view();
    let mut q: usize = p;
    let mut depth: usize = 0;
    while q < s.len()
        invariant
            p <= q <= s@.len(),
            depth <= q,
            v == s.deep_view(),
            params_end(v, p as int, 0) == params_end(v, q as int, depth as int),
        decreases s@.len() - q,
    {
        let paren = match &s[q] {
            Token::Group(Delim::Paren, _) => true,
            _ => false,
        };
        if depth == 0 && paren {
            return q + 1;
        }
        if is_punct(&s[q], '<') {
            depth = depth + 1;
        } else if is_punct(&s[q], '>') && !(q > 0 && match &s[q - 1] {
            Token::Punct(c, j) => *c == '-' && *j,
            _ => false,
        }) && depth > 0 {
            depth = depth - 1;
        }
        q = q + 1;
    }
    q
}

fn where_pos_exec(s: &Vec<Token>, p: usize, end: usize) -> (r: usize)
    requires
        p <= end <= s@.len(),
    ensures
        r == where_pos(s.deep_view(), p as int, end as int),
{
    let ghost v = s.deep_view();
    let mut q = p;
    while q < end && !is_ident(&s[q], "where")
        invariant
            p <= q <= end,
            end <= s@.len(),
            v == s.deep_view(),
            where_pos(v, p as int, end as int) == where_pos(v, q as int, end as int),
        decreases end - q,
    {
        q = q + 1;
    }
    q
}

/// The parts of a function item, as `split_fn` says.
pub fn split_fn_exec(ts: &Vec<Token>) -> (r: Option<FnDef>)
    ensures
        match r {
            Some(f) => split_fn(ts.deep_view()) == Some(f.deep_view()),
            None => split_fn(ts.deep_view()) is None,
        },
{
    let ghost tv = ts.deep_view();
    if ts.len() == 0 {
        return None;
    }
    let a = skip_attrs_exec(ts, 0);
    let v = skip_vis_exec(ts, a);
    let q = params_end_exec(ts, v);
    let last = ts.len() - 1;
    proof {
        lemma_scans(tv, 0, 0);
        lemma_scans(tv, a as int, 0);
        lemma_fn_scans(tv, v as int, 0, v as int);
    }
    if !(v < q && q <= last) {
        return None;
    }
    let body = match &ts[last] {
        Token::Group(Delim::Brace, b) => b,
        _ => {
            return None;
        },
    };
    proof {
        lemma_group_view(Delim::Brace, *body);
    }
    assert(tv[last as int] == Tok::Group(Delim::Brace, body.deep_view()));
    let has_output = q + 1 < last && match &ts[q] {
        Token::Punct(c, j) => *c == '-' && *j,
        _ => false,
    } && is_punct(&ts[q + 1], '>');
    let w = if has_output { where_pos_exec(ts, q + 2, last) } else { q };
    proof {
        if has_output {
            lemma_fn_scans(tv, q + 2, 0, last as int);
        }
    }
    let f = FnDef {
        attrs: copy_range(ts, 0, a),
        vis: copy_range(ts, a, v),
        sig: copy_range(ts, v, q),
        output: if has_output { Some(copy_range(ts, q + 2, w)) } else { None },
        where_clause: copy_range(ts, w, last),
        body: copy_tokens(body),
    };
    assert(f.deep_view() == split_fn(tv)->Some_0);
    Some(f)
}

/// The function rewritten to return `Result<T, String>`, from the attribute's raw input.
pub fn panic_to_result_tokens(ts: &Vec<Token>) -> (r: Result<Vec<Token>, MacroError>)
    ensures
        match r {
            Ok(o) => panic_to_result_tokens_spec(ts.deep_view()) == Ok::<Seq<Tok>, ErrV>(o.deep_view()),
            Err(e) => panic_to_result_tokens_spec(ts.deep_view()) == Err::<Seq<Tok>, ErrV>(e@),
        },
{
    let ft = flatten_exec(ts);
    let text = tokens_to_text(&ft);
    match item_fn_error(text.as_str()) {
        Some((_, d)) => Err(unwrap_err_abort_with(&d)),
        None => match split_fn_exec(&ft) {
            Some(f) => Ok(panic_to_result(&f)),
            None => Err(unwrap_err_abort()),
        },
    }
}

/// `panic ! ( args )` with the delimiter `d`.
pub open spec fn panic_call(d: Delim, args: Seq<Tok>) -> Seq<Tok> {
    seq![Tok::Ident("panic"@), Tok::Punct('!', false), Tok::Group(d, args)]
}

/// Whether the tokens can be rewritten apart from what follows them: they hold no `return` (which
/// reaches up to the next `;`), and they do not end in the middle of a `panic ! ( .. )`.
pub open spec fn ends_apart(x: Seq<Tok>) -> bool {
    &&& forall|j: int| 0 <= j < x.len() ==> #[trigger] x[j] != Tok::Ident("return"@)
    &&& !(x.len() >= 1 && x[x.len() - 1] == Tok::Ident("panic"@))
    &&& !(x.len() >= 2 && x[x.len() - 2] == Tok::Ident("panic"@) && is_punct_tok(x[x.len() - 1], '!'))
}

proof fn lemma_stmt_end_shift(x: Seq<Tok>, y: Seq<Tok>, k: int)
    requires
        0 <= k <= y.len(),
    ensures
        stmt_end(x + y, x.len() + k) == x.len() + stmt_end(y, k),
    decreases y.len() - k,
{
    if k < y.len() {
        assert((x + y)[x.len() + k] == y[k]);
        lemma_stmt_end_shift(x, y, k + 1);
    }
}

proof fn lemma_rewrite_shift(x: Seq<Tok>, y: Seq<Tok>, k: int)
    requires
        0 <= k <= y.len(),
    ensures
        rewrite_from(x + y, x.len() + k) == rewrite_from(y, k),
    decreases y.len() - k,
{
    let xy = x + y;
    let n = x.len();
    if k < y.len() {
        assert(xy[n + k] == y[k]);
        if y[k] == Tok::Ident("return"@) {
            lemma_stmt_end(y, k + 1);
            lemma_stmt_end_shift(x, y, k + 1);
            let j = stmt_end(y, k + 1);
            assert(xy.subrange(n + k + 1, n + j) =~= y.subrange(k + 1, j));
            lemma_rewrite_shift(x, y, j);
        } else {
            if k + 2 < y.len() {
                assert(xy[n + k + 1] == y[k + 1]);
                assert(xy[n + k + 2] == y[k + 2]);
            }
            assert(panic_at(xy, n + k) == panic_at(y, k));
            if panic_at(y, k) {
                lemma_rewrite_shift(x, y, k + 3);
            } else {
                lemma_rewrite_shift(x, y, k + 1);
            }
        }
    }
}

proof fn lemma_rewrite_prefix(x: Seq<Tok>, y: Seq<Tok>, i: int)
    requires
        0 <= i <= x.len(),
        ends_apart(x),
    ensures
        rewrite_from(x + y, i) == rewrite_from(x, i) + rewrite_from(y, 0),
    decreases x.len() - i,
{
    let xy = x + y;
    let n = x.len();
    if i == n {
        lemma_rewrite_shift(x, y, 0);
        assert(rewrite_from(x, i) + rewrite_from(y, 0) =~= rewrite_from(y, 0));
    } else {
        assert(xy[i] == x[i]);
        assert(x[i] != Tok::Ident("return"@));
        if i + 1 < n {
            assert(xy[i + 1] == x[i + 1]);
        }
        if i + 2 < n {
            assert(xy[i + 2] == x[i + 2]);
        }
        assert(panic_at(xy, i) == panic_at(x, i));
        if panic_at(x, i) {
            lemma_rewrite_prefix(x, y, i + 3);
            assert(xy[i + 2] == x[i + 2]);
            assert(return_err(x[i + 2]->Group_1) + rewrite_from(x, i + 3) + rewrite_from(y, 0) =~= return_err(
                x[i + 2]->Group_1,
            ) + (rewrite_from(x, i + 3) + rewrite_from(y, 0)));
        } else {
            lemma_rewrite_prefix(x, y, i + 1);
            match x[i] {
                Tok::Group(d, inner) => {
                    assert(seq![Tok::Group(d, rewrite_from(inner, 0))] + rewrite_from(x, i + 1) + rewrite_from(y, 0)
                        =~= seq![Tok::Group(d, rewrite_from(inner, 0))] + (rewrite_from(x, i + 1) + rewrite_from(y, 0)));
                },
                _ => {
                    assert(seq![x[i]] + rewrite_from(x, i + 1) + rewrite_from(y, 0) =~= seq![x[i]] + (rewrite_from(
                        x,
                        i + 1,
                    ) + rewrite_from(y, 0)));
                },
            }
        }
    }
}

/// The body is rewritten piece by piece, every panic in it alike: a part that holds no `return`
/// and does not end inside a `panic ! ( .. )` is rewritten as it would be alone, and what follows
/// it is rewritten as it would be alone too. In particular a `panic ! ( args )` with a message
/// becomes `return Err ( format ! ( args ) )` and the rest after it is rewritten in its turn.
pub proof fn law_rewrite_piecewise(x: Seq<Tok>, y: Seq<Tok>, d: Delim, args: Seq<Tok>)
    requires
        ends_apart(x),
        args.len() > 0,
    ensures
        rewrite_panics(x + y) == rewrite_panics(x) + rewrite_panics(y),
        rewrite_panics(panic_call(d, args) + y) == return_err(args) + rewrite_panics(y),
{
    lemma_rewrite_prefix(x, y, 0);
    let pc = panic_call(d, args);
    reveal_strlit("panic");
    reveal_strlit("return");
    assert("panic"@.len() != "return"@.len());
    assert(pc[0] != Tok::Ident("return"@));
    assert(ends_apart(pc));
    lemma_rewrite_prefix(pc, y, 0);
    assert(panic_at(pc, 0));
    assert(rewrite_from(pc, 3) =~= Seq::<Tok>::empty());
    assert(rewrite_panics(pc) =~= return_err(args));
}

} // verus!
