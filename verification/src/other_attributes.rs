//! The `analyze` macro: it reads a struct with one field, with its outer attributes (doc comments
//! among them) and the inner attributes of its body, and produces no code.
use vstd::prelude::*;
use crate::tokens::{
    Token, Tok, Delim, ErrV, MacroError, err, abort, error, text_is, unwrap_err_msg, unwrap_err_with, unwrap_err_abort, unwrap_err_abort_with, copy_token, push_tok, is_punct,
    is_punct_tok, is_group_tok, ident_at, lemma_group_view,
};
use crate::iac::{plain_ident_at, plain_ident};
use crate::item::concat_all;
use crate::derive_input::{flatten, flatten_exec};
use crate::syntax::{tokens_text, syn_meta_error, syn_type_error, tokens_to_text, meta_error, type_error, SynAnswer, answer_view};

verus! {

broadcast use lemma_group_view;

/// A struct with one field, as `analyze` reads it.
#[derive(Debug)]
pub struct StructWithComments {
    /// The struct's name.
    pub ident: String,
    /// The field's name.
    pub field_name: String,
    /// The tokens of the field's type.
    pub field_type: Vec<Token>,
    /// The outer attributes, each as its tokens `# [ ... ]`.
    pub outer_attributes: Vec<Vec<Token>>,
    /// The inner attributes of the body, each as its tokens `# ! [ ... ]`.
    pub inner_attributes: Vec<Vec<Token>>,
}

/// The value of a struct read by `analyze`.
pub struct CommentedV {
    pub ident: Seq<char>,
    pub field_name: Seq<char>,
    pub field_type: Seq<Tok>,
    pub outer_attributes: Seq<Seq<Tok>>,
    pub inner_attributes: Seq<Seq<Tok>>,
}

impl DeepView for StructWithComments {
    type V = CommentedV;

    open spec fn deep_view(&self) -> CommentedV {
        CommentedV {
            ident: self.ident@,
            field_name: self.field_name@,
            field_type: self.field_type.deep_view(),
            outer_attributes: self.outer_attributes.deep_view(),
            inner_attributes: self.inner_attributes.deep_view(),
        }
    }
}

/// The error for tokens left over inside brackets.
pub open spec fn left_in_brackets() -> Seq<char> {
    "unexpected token, expected `]`"@
}

/// The error for tokens left over inside braces.
pub open spec fn left_in_braces() -> Seq<char> {
    "unexpected token, expected `}`"@
}

/// Whether a `syn` error is one left over by a finished parse: tokens left after it in a
/// delimited group that it read.
pub open spec fn inner_leftover(m: Seq<char>) -> bool {
    m == "unexpected token, expected `)`"@ || m == left_in_braces() || m == left_in_brackets()
}

/// The first error to report, `u` when there is one already, else `m`.
pub open spec fn first_error(u: Option<Seq<char>>, m: Seq<char>) -> Option<Seq<char>> {
    if u is None {
        Some(m)
    } else {
        u
    }
}

/// What reading an attribute's content or a field's type from the rest of its group leaves, given
/// `syn`'s answer `e` on that whole rest, the first error `u` left for later, and the error
/// `scope_msg` for tokens left over in the group. When `syn`'s parse stops before the end
/// (`unexpected token`) the rest is left over in the group; when it leaves tokens inside a group
/// that it read, that error is left over; both are reported later, the first one only. Any other
/// error is the failure of the read, and `Err` holds its debug form.
pub open spec fn after_read(e: Option<(Seq<char>, Seq<char>)>, u: Option<Seq<char>>, scope_msg: Seq<char>) -> Result<
    Option<Seq<char>>,
    Seq<char>,
> {
    match e {
        None => Ok(u),
        Some((m, d)) => if m == "unexpected token"@ {
            Ok(first_error(u, scope_msg))
        } else if inner_leftover(m) {
            Ok(first_error(u, m))
        } else {
            Err(d)
        },
    }
}

/// Whether attributes of the kind `inner` (`# ! [ ... ]`, else `# [ ... ]`) start at `p`.
pub open spec fn attr_starts(s: Seq<Tok>, p: int, inner: bool) -> bool {
    if inner {
        0 <= p && p + 1 < s.len() && is_punct_tok(s[p], '#') && is_punct_tok(s[p + 1], '!')
    } else {
        0 <= p && p < s.len() && is_punct_tok(s[p], '#')
    }
}

/// The attributes from `p` on, after the attributes `acc`, with the first error `u` left for
/// later: the attributes, where they end, and the first error left for later. A `#` that is not
/// followed by a bracketed attribute aborts.
pub open spec fn attrs_from(s: Seq<Tok>, p: int, inner: bool, acc: Seq<Seq<Tok>>, u: Option<Seq<char>>) -> Result<
    (Seq<Seq<Tok>>, int, Option<Seq<char>>),
    ErrV,
>
    decreases s.len() - p,
{
    if !attr_starts(s, p, inner) {
        Ok((acc, p, u))
    } else {
        let b = if inner { p + 2 } else { p + 1 };
        if b < s.len() && is_group_tok(s[b], Delim::Bracket) {
            match after_read(syn_meta_error(tokens_text(s[b]->Group_1)), u, left_in_brackets()) {
                Err(d) => Err(abort(unwrap_err_with(d))),
                Ok(u2) => attrs_from(s, b + 1, inner, acc.push(s.subrange(p, b + 1)), u2),
            }
        } else {
            Err(abort(unwrap_err_msg()))
        }
    }
}

/// What `analyze` reads from its input: outer attributes, `struct`, a name, and a braced body with
/// inner attributes, a field name, `:` and a type; `syn` reads each attribute's content and the
/// type. A step that does not find what it reads aborts (the parse is unwrapped); a missing body
/// is the error `expected curly braces`; tokens left over inside an attribute, inside the body or
/// after it are errors too, the first one left over being reported.
pub open spec fn parse_commented_spec(ts: Seq<Tok>) -> Result<CommentedV, ErrV> {
    match attrs_from(ts, 0, false, seq![], None) {
        Err(e) => Err(e),
        Ok((outer, p, u)) => if !(0 <= p < ts.len() && ts[p] == Tok::Ident("struct"@)) {
            Err(abort(unwrap_err_msg()))
        } else {
            match plain_ident_at(ts, p + 1) {
                None => Err(abort(unwrap_err_msg())),
                Some(name) => if !(p + 2 < ts.len() && is_group_tok(ts[p + 2], Delim::Brace)) {
                    Err(err("expected curly braces"@))
                } else {
                    let c = ts[p + 2]->Group_1;
                    match attrs_from(c, 0, true, seq![], u) {
                        Err(e) => Err(e),
                        Ok((inner, q, u2)) => match plain_ident_at(c, q) {
                            None => Err(abort(unwrap_err_msg())),
                            Some(field) => if !(q + 1 < c.len() && is_punct_tok(c[q + 1], ':')) {
                                Err(abort(unwrap_err_msg()))
                            } else {
                                let rest = c.subrange(q + 2, c.len() as int);
                                match after_read(syn_type_error(tokens_text(rest)), u2, left_in_braces()) {
                                    Err(d) => Err(abort(unwrap_err_with(d))),
                                    Ok(Some(m)) => Err(err(m)),
                                    Ok(None) => if p + 3 < ts.len() {
                                        Err(err("unexpected token"@))
                                    } else {
                                        Ok(
                                            CommentedV {
                                                ident: name,
                                                field_name: field,
                                                field_type: rest,
                                                outer_attributes: outer,
                                                inner_attributes: inner,
                                            },
                                        )
                                    },
                                }
                            },
                        },
                    }
                },
            }
        },
    }
}

/// A copy of the tokens from `a` to `b`.
pub fn copy_range(ts: &Vec<Token>, a: usize, b: usize) -> (r: Vec<Token>)
    requires
        a <= b <= ts@.len(),
    ensures
        r.deep_view() == ts.deep_view().subrange(a as int, b as int),
{
    let mut out: Vec<Token> = Vec::new();
    let mut i: usize = a;
    while i < b
        invariant
            a <= i <= b,
            b <= ts@.len(),
            out.deep_view() =~= ts.deep_view().subrange(a as int, i as int),
        decreases b - i,
    {
        push_tok(&mut out, copy_token(&ts[i]));
        assert(ts.deep_view().subrange(a as int, i + 1) =~= ts.deep_view().subrange(a as int, i as int).push(
            ts@[i as int]@,
        ));
        i = i + 1;
    }
    out
}

/// What reading from the rest of a group leaves, as `after_read` says, given `syn`'s answer.
fn after_read_exec(e: SynAnswer, u: Option<String>, scope_msg: &str) -> (r: Result<Option<String>, String>)
    ensures
        match r {
            Ok(u2) => after_read(answer_view(e), opt_view(u), scope_msg@) == Ok::<Option<Seq<char>>, Seq<char>>(opt_view(u2)),
            Err(d) => after_read(answer_view(e), opt_view(u), scope_msg@) == Err::<Option<Seq<char>>, Seq<char>>(d@),
        },
{
    match e {
        None => Ok(u),
        Some((m, d)) => {
            let leftover = text_is(&m, "unexpected token");
            let inner = text_is(&m, "unexpected token, expected `)`") || text_is(&m, "unexpected token, expected `}`")
                || text_is(&m, "unexpected token, expected `]`");
            if leftover || inner {
                if u.is_none() {
                    if leftover {
                        Ok(Some(String::from_str(scope_msg)))
                    } else {
                        Ok(Some(m))
                    }
                } else {
                    Ok(u)
                }
            } else {
                Err(d)
            }
        },
    }
}

/// The view of an optional text.
pub open spec fn opt_view(u: Option<String>) -> Option<Seq<char>> {
    match u {
        Some(s) => Some(s@),
        None => None,
    }
}

/// Whether attributes of the kind `inner` start at `p`.
fn attr_starts_exec(s: &Vec<Token>, p: usize, inner: bool) -> (r: bool)
    ensures
        r == attr_starts(s.deep_view(), p as int, inner),
{
    if inner {
        p < s.len() && s.len() - p > 1 && is_punct(&s[p], '#') && is_punct(&s[p + 1], '!')
    } else {
        p < s.len() && is_punct(&s[p], '#')
    }
}

/// The attributes of the kind `inner` from `start` on, where they end, and the first error left
/// for later.
fn attrs_exec(s: &Vec<Token>, start: usize, inner: bool, pending: Option<String>) -> (r: Result<
    (Vec<Vec<Token>>, usize, Option<String>),
    MacroError,
>)
    requires
        start <= s@.len(),
    ensures
        match r {
            Ok((attrs, q, u2)) => attrs_from(s.deep_view(), start as int, inner, seq![], opt_view(pending)) == Ok::<
                (Seq<Seq<Tok>>, int, Option<Seq<char>>),
                ErrV,
            >((attrs.deep_view(), q as int, opt_view(u2))) && q <= s@.len(),
            Err(e) => attrs_from(s.deep_view(), start as int, inner, seq![], opt_view(pending)) == Err::<
                (Seq<Seq<Tok>>, int, Option<Seq<char>>),
                ErrV,
            >(e@),
        },
{
    let ghost v = s.deep_view();
    let ghost u0 = opt_view(pending);
    let mut acc: Vec<Vec<Token>> = Vec::new();
    let mut p: usize = start;
    let mut u = pending;
    assert(acc.deep_view() =~= Seq::<Seq<Tok>>::empty());
    while attr_starts_exec(s, p, inner)
        invariant
            v == s.deep_view(),
            u0 == opt_view(pending),
            p <= s@.len(),
            attrs_from(v, start as int, inner, seq![], u0) == attrs_from(v, p as int, inner, acc.deep_view(), opt_view(u)),
        decreases s@.len() - p,
    {
        let n = s.len();
        assert(v.len() == n);
        assert(p < n);
        assert(inner ==> p + 1 < n);
        let b = if inner { p + 2 } else { p + 1 };
        let is_attr = b < s.len() && match &s[b] {
            Token::Group(Delim::Bracket, _) => true,
            _ => false,
        };
        if !is_attr {
            return Err(unwrap_err_abort());
        }
        match &s[b] {
            Token::Group(_, content) => {
                assert(v[b as int]->Group_1 == content.deep_view());
                let text = tokens_to_text(content);
                match after_read_exec(meta_error(text.as_str()), u, "unexpected token, expected `]`") {
                    Err(d) => {
                        return Err(unwrap_err_abort_with(&d));
                    },
                    Ok(u2) => {
                        let ghost before = acc.deep_view();
                        let attr = copy_range(s, p, b + 1);
                        let ghost a = attr.deep_view();
                        acc.push(attr);
                        assert(acc.deep_view() =~= before.push(a));
                        u = u2;
                    },
                }
            },
            _ => {
                return Err(unwrap_err_abort());
            },
        }
        p = b + 1;
    }
    Ok((acc, p, u))
}

impl StructWithComments {
    /// The struct read from the macro's input, as `parse_commented_spec` says of it once its
    /// invisible groups are replaced by their content (`syn` looks through them).
    pub fn parse(ts: &Vec<Token>) -> (r: Result<StructWithComments, MacroError>)
        ensures
            match r {
                Ok(s) => parse_commented_spec(flatten(ts.deep_view())) == Ok::<CommentedV, ErrV>(s.deep_view()),
                Err(e) => parse_commented_spec(flatten(ts.deep_view())) == Err::<CommentedV, ErrV>(e@),
            },
    {
        Self::parse_flat(&flatten_exec(ts))
    }

    /// The struct read from tokens without invisible groups, as `parse_commented_spec` says.
    fn parse_flat(ts: &Vec<Token>) -> (r: Result<StructWithComments, MacroError>)
        ensures
            match r {
                Ok(s) => parse_commented_spec(ts.deep_view()) == Ok::<CommentedV, ErrV>(s.deep_view()),
                Err(e) => parse_commented_spec(ts.deep_view()) == Err::<CommentedV, ErrV>(e@),
            },
    {
        let ghost v = ts.deep_view();
        let (outer_attributes, p, u) = match attrs_exec(ts, 0, false, None) {
            Ok(x) => x,
            Err(e) => {
                return Err(e);
            },
        };
        if !ident_at(ts, p, 0, "struct") {
            return Err(unwrap_err_abort());
        }
        let ident = match plain_ident(ts, p, 1) {
            Some(s) => s,
            None => {
                return Err(unwrap_err_abort());
            },
        };
        let braced = p < ts.len() && ts.len() - p > 2 && match &ts[p + 2] {
            Token::Group(Delim::Brace, _) => true,
            _ => false,
        };
        if !braced {
            return Err(error("expected curly braces"));
        }
        let c = match &ts[p + 2] {
            Token::Group(_, c) => c,
            _ => {
                return Err(error("expected curly braces"));
            },
        };
        let ghost cv = c.deep_view();
        assert(v[p + 2]->Group_1 == cv);
        let (inner_attributes, q, u2) = match attrs_exec(c, 0, true, u) {
            Ok(x) => x,
            Err(e) => {
                return Err(e);
            },
        };
        let field_name = match plain_ident(c, q, 0) {
            Some(s) => s,
            None => {
                return Err(unwrap_err_abort());
            },
        };
        let colon = q < c.len() && c.len() - q > 1 && is_punct(&c[q + 1], ':');
        if !colon {
            return Err(unwrap_err_abort());
        }
        let field_type = copy_range(c, q + 2, c.len());
        let text = tokens_to_text(&field_type);
        match after_read_exec(type_error(text.as_str()), u2, "unexpected token, expected `}`") {
            Err(d) => {
                return Err(unwrap_err_abort_with(&d));
            },
            Ok(Some(m)) => {
                return Err(MacroError { message: m, fatal: false });
            },
            Ok(None) => {},
        }
        if ts.len() - p > 3 {
            return Err(error("unexpected token"));
        }
        Ok(StructWithComments { ident, field_name, field_type, outer_attributes, inner_attributes })
    }
}

/// `analyze` reads its input as a struct with comments and produces no code; what it cannot read
/// is reported as `parse_commented_spec` says.
pub fn analyze(item: &Vec<Token>) -> (r: Result<Vec<Token>, MacroError>)
    ensures
        match r {
            Ok(ts) => parse_commented_spec(flatten(item.deep_view())) is Ok && ts@.len() == 0,
            Err(e) => parse_commented_spec(flatten(item.deep_view())) == Err::<CommentedV, ErrV>(e@),
        },
{
    match StructWithComments::parse(item) {
        Ok(_) => Ok(Vec::new()),
        Err(e) => Err(e),
    }
}

proof fn lemma_concat_push(parts: Seq<Seq<Tok>>, x: Seq<Tok>)
    ensures
        concat_all(parts.push(x)) == concat_all(parts) + x,
{
    assert(parts.push(x).drop_last() =~= parts);
}

proof fn lemma_attrs_cover(s: Seq<Tok>, p: int, inner: bool, acc: Seq<Seq<Tok>>, u: Option<Seq<char>>)
    requires
        0 <= p <= s.len(),
        attrs_from(s, p, inner, acc, u) is Ok,
    ensures
        p <= attrs_from(s, p, inner, acc, u)->Ok_0.1 <= s.len(),
        concat_all(attrs_from(s, p, inner, acc, u)->Ok_0.0) == concat_all(acc) + s.subrange(
            p,
            attrs_from(s, p, inner, acc, u)->Ok_0.1,
        ),
    decreases s.len() - p,
{
    if !attr_starts(s, p, inner) {
        assert(concat_all(acc) + s.subrange(p, p) =~= concat_all(acc));
    } else {
        let b = if inner { p + 2 } else { p + 1 };
        let u2 = after_read(syn_meta_error(tokens_text(s[b]->Group_1)), u, left_in_brackets())->Ok_0;
        let x = s.subrange(p, b + 1);
        lemma_attrs_cover(s, b + 1, inner, acc.push(x), u2);
        lemma_concat_push(acc, x);
        let q = attrs_from(s, p, inner, acc, u)->Ok_0.1;
        assert(concat_all(acc) + x + s.subrange(b + 1, q) =~= concat_all(acc) + s.subrange(p, q));
    }
}

/// A struct that `analyze` accepts is made of exactly what it read: its outer attributes,
/// `struct`, its name, and its body of inner attributes, field name, `:` and field type.
pub proof fn law_analyze_reads_whole_input(ts: Seq<Tok>)
    requires
        parse_commented_spec(ts) is Ok,
    ensures
        exists|colon: Tok|
            is_punct_tok(colon, ':') && ts == concat_all(parse_commented_spec(ts)->Ok_0.outer_attributes) + seq![
                Tok::Ident("struct"@),
                Tok::Ident(parse_commented_spec(ts)->Ok_0.ident),
                Tok::Group(
                    Delim::Brace,
                    concat_all(parse_commented_spec(ts)->Ok_0.inner_attributes) + seq![
                        Tok::Ident(parse_commented_spec(ts)->Ok_0.field_name),
                        colon,
                    ] + parse_commented_spec(ts)->Ok_0.field_type,
                ),
            ],
{
    let v = parse_commented_spec(ts)->Ok_0;
    lemma_attrs_cover(ts, 0, false, seq![], None);
    let (outer, p, u) = attrs_from(ts, 0, false, seq![], None)->Ok_0;
    let c = ts[p + 2]->Group_1;
    lemma_attrs_cover(c, 0, true, seq![], u);
    let (inner, q, u2) = attrs_from(c, 0, true, seq![], u)->Ok_0;
    let colon = c[q + 1];
    assert(concat_all(seq![]) =~= Seq::<Tok>::empty());
    assert(c =~= c.subrange(0, q) + seq![c[q], c[q + 1]] + c.subrange(q + 2, c.len() as int));
    assert(ts[p + 2] == Tok::Group(Delim::Brace, c));
    assert(ts =~= ts.subrange(0, p) + seq![ts[p], ts[p + 1], ts[p + 2]]);
    assert(is_punct_tok(colon, ':'));
    assert(v.outer_attributes == outer);
    assert(v.inner_attributes == inner);
    assert(v.field_type == c.subrange(q + 2, c.len() as int));
    assert(ts[p] == Tok::Ident("struct"@));
    assert(ts[p + 1] == Tok::Ident(v.ident));
    assert(c[q] == Tok::Ident(v.field_name));
    assert(ts.len() == p + 3);
    let body = concat_all(v.inner_attributes) + seq![Tok::Ident(v.field_name), colon] + v.field_type;
    assert(body =~= c);
    assert(ts =~= concat_all(v.outer_attributes) + seq![Tok::Ident("struct"@), Tok::Ident(v.ident), Tok::Group(Delim::Brace, body)]);
}

/// An outer attribute `# [ c ]`.
pub open spec fn outer_attr(c: Seq<Tok>) -> Seq<Tok> {
    seq![Tok::Punct('#', false), Tok::Group(Delim::Bracket, c)]
}

proof fn lemma_attrs_shift(
    pre: Seq<Tok>,
    s: Seq<Tok>,
    p: int,
    inner: bool,
    pa: Seq<Seq<Tok>>,
    acc: Seq<Seq<Tok>>,
    u: Option<Seq<char>>,
)
    requires
        0 <= p,
    ensures
        attrs_from(pre + s, pre.len() + p, inner, pa + acc, u) == match attrs_from(s, p, inner, acc, u) {
            Ok((a, q, u2)) => Ok((pa + a, pre.len() + q, u2)),
            Err(e) => Err(e),
        },
    decreases s.len() - p,
{
    let t = pre + s;
    let n = pre.len();
    if p < s.len() {
        assert(t[n + p] == s[p]);
    }
    if p + 1 < s.len() {
        assert(t[n + p + 1] == s[p + 1]);
    }
    if p + 2 < s.len() {
        assert(t[n + p + 2] == s[p + 2]);
    }
    assert(attr_starts(t, n + p, inner) == attr_starts(s, p, inner));
    if attr_starts(s, p, inner) {
        let b = if inner { p + 2 } else { p + 1 };
        if b < s.len() && is_group_tok(s[b], Delim::Bracket) {
            assert(t.subrange(n + p, n + b + 1) =~= s.subrange(p, b + 1));
            assert((pa + acc).push(s.subrange(p, b + 1)) =~= pa + acc.push(s.subrange(p, b + 1)));
            assert(t[n + b] == s[b]);
            match after_read(syn_meta_error(tokens_text(s[b]->Group_1)), u, left_in_brackets()) {
                Ok(u2) => lemma_attrs_shift(pre, s, b + 1, inner, pa, acc.push(s.subrange(p, b + 1)), u2),
                Err(_) => {},
            }
        }
    }
}

/// One more outer attribute in front of a struct that `analyze` reads, one whose content `syn`
/// reads as an attribute, is read too: the struct is read as before, with that attribute first
/// among its outer attributes. So every outer attribute before `struct` is read, however many.
pub proof fn law_every_outer_attribute_read(ts: Seq<Tok>, c: Seq<Tok>)
    requires
        parse_commented_spec(ts) is Ok,
        syn_meta_error(tokens_text(c)) is None,
    ensures
        parse_commented_spec(outer_attr(c) + ts) == Ok::<CommentedV, ErrV>(
            CommentedV {
                outer_attributes: seq![outer_attr(c)] + parse_commented_spec(ts)->Ok_0.outer_attributes,
                ..parse_commented_spec(ts)->Ok_0
            },
        ),
{
    let a = outer_attr(c);
    let t = a + ts;
    assert(t[0] == a[0] && t[1] == a[1]);
    assert(t.subrange(0, 2) =~= a);
    assert(seq![].push(a) =~= seq![a]);
    assert(attrs_from(t, 0, false, seq![], None) == attrs_from(t, 2, false, seq![a], None));
    lemma_attrs_shift(a, ts, 0, false, seq![a], seq![], None);
    assert(seq![a] + Seq::<Seq<Tok>>::empty() =~= seq![a]);
    let (outer, p, u) = attrs_from(ts, 0, false, seq![], None)->Ok_0;
    assert(t[p + 2] == ts[p]);
    assert(t[p + 3] == ts[p + 1]);
    assert(t[p + 4] == ts[p + 2]);
}

} // verus!
