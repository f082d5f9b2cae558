//! The token trees that a procedural macro reads and writes, and the error it reports.
use vstd::prelude::*;

verus! {

/// How a group of tokens is delimited.
#[derive(Clone, Copy, Debug, PartialEq, Eq, Structural)]
pub enum Delim {
    /// `( ... )`
    Paren,
    /// `{ ... }`
    Brace,
    /// `[ ... ]`
    Bracket,
    /// An invisible group.
    NoDelim,
}

/// The kind of a literal other than a string literal.
#[derive(Clone, Copy, Debug, PartialEq, Eq, Structural)]
pub enum LitKind {
    ByteStr,
    CStr,
    Byte,
    Char,
    Int,
    Float,
    Other,
}

/// A token tree of Rust source.
#[derive(Debug)]
pub enum Token {
    /// An identifier or keyword, as written (a raw identifier keeps its `r#`).
    Ident(String),
    /// A punctuation character; the flag is set when it is joined to the next
    /// punctuation character (as the `-` of `->`).
    Punct(char, bool),
    /// A string literal, holding the string that it denotes.
    Str(String),
    /// A string literal with a suffix (`"a"x`): the string that it denotes, and the suffix.
    SuffixedStr(String, String),
    /// Any other literal: its kind and its source text.
    Lit(LitKind, String),
    /// A delimited group of token trees.
    Group(Delim, Vec<Token>),
}

/// The value of a token tree.
#[verifier::ext_equal]
pub enum Tok {
    Ident(Seq<char>),
    Punct(char, bool),
    Str(Seq<char>),
    SuffixedStr(Seq<char>, Seq<char>),
    Lit(LitKind, Seq<char>),
    Group(Delim, Seq<Tok>),
}

impl Token {
    pub open spec fn tok(self) -> Tok
        decreases self,
    {
        match self {
            Token::Ident(s) => Tok::Ident(s@),
            Token::Punct(c, j) => Tok::Punct(c, j),
            Token::Str(s) => Tok::Str(s@),
            Token::SuffixedStr(s, x) => Tok::SuffixedStr(s@, x@),
            Token::Lit(k, s) => Tok::Lit(k, s@),
            Token::Group(d, ts) => Tok::Group(
                d,
                Seq::new(
                    ts@.len(),
                    |i: int|
                        if 0 <= i < ts@.len() {
                            ts@[i].tok()
                        } else {
                            Tok::Punct(' ', false)
                        },
                ),
            ),
        }
    }
}

impl View for Token {
    type V = Tok;

    open spec fn view(&self) -> Tok {
        self.tok()
    }
}

impl DeepView for Token {
    type V = Tok;

    open spec fn deep_view(&self) -> Tok {
        self.tok()
    }
}

/// Whether a token is the punctuation character `c`, joined or not.
pub open spec fn is_punct_tok(t: Tok, c: char) -> bool {
    t matches Tok::Punct(x, _) && x == c
}

/// Whether a token is a group with the delimiter `d`.
pub open spec fn is_group_tok(t: Tok, d: Delim) -> bool {
    t matches Tok::Group(x, _) && x == d
}

/// Whether a token is a literal of the kind `k`.
pub open spec fn is_lit_tok(t: Tok, k: LitKind) -> bool {
    t matches Tok::Lit(x, _) && x == k
}

/// The string that a string literal denotes, with or without a suffix.
pub open spec fn str_value(t: Tok) -> Option<Seq<char>> {
    match t {
        Tok::Str(s) => Some(s),
        Tok::SuffixedStr(s, _) => Some(s),
        _ => None,
    }
}

/// The string that a string literal token denotes, with or without a suffix.
pub fn str_value_of(t: &Token) -> (r: Option<String>)
    ensures
        r matches Some(s) ==> str_value(t@) == Some(s@),
        r is None ==> str_value(t@) is None,
{
    match t {
        Token::Str(s) => Some(s.clone()),
        Token::SuffixedStr(s, _) => Some(s.clone()),
        _ => None,
    }
}

/// An error that a macro reports instead of producing code.
#[derive(Debug)]
pub struct MacroError {
    /// What the error says.
    pub message: String,
    /// Set when the macro aborts (panics) rather than reporting a compile error.
    pub fatal: bool,
}

/// The value of a macro error: its message and whether it aborts the macro.
pub struct ErrV {
    pub message: Seq<char>,
    pub fatal: bool,
}

impl View for MacroError {
    type V = ErrV;

    open spec fn view(&self) -> ErrV {
        ErrV { message: self.message@, fatal: self.fatal }
    }
}

/// A compile error with the given message.
pub open spec fn err(m: Seq<char>) -> ErrV {
    ErrV { message: m, fatal: false }
}

/// An abort of the macro with the given message.
pub open spec fn abort(m: Seq<char>) -> ErrV {
    ErrV { message: m, fatal: true }
}

/// A compile error.
pub fn error(m: &str) -> (e: MacroError)
    ensures
        e@ == err(m@),
{
    MacroError { message: String::from_str(m), fatal: false }
}

/// An abort.
pub fn fatal(m: &str) -> (e: MacroError)
    ensures
        e@ == abort(m@),
{
    MacroError { message: String::from_str(m), fatal: true }
}

/// The message of a panic on unwrapping `None`.
pub open spec fn unwrap_none_msg() -> Seq<char> {
    "called `Option::unwrap()` on a `None` value"@
}

/// The message of a panic on unwrapping an error.
pub open spec fn unwrap_err_msg() -> Seq<char> {
    "called `Result::unwrap()` on an `Err` value"@
}

/// The message of a panic on unwrapping the error whose debug form is `d`.
pub open spec fn unwrap_err_with(d: Seq<char>) -> Seq<char> {
    unwrap_err_msg() + ": "@ + d
}

/// The abort of a macro that unwraps the error whose debug form is `d`.
pub fn unwrap_err_abort_with(d: &String) -> (e: MacroError)
    ensures
        e@ == abort(unwrap_err_with(d@)),
{
    let m = concat("called `Result::unwrap()` on an `Err` value", ": ");
    MacroError { message: concat(m.as_str(), d.as_str()), fatal: true }
}

/// The abort of a macro that unwraps `None`.
pub fn unwrap_none_abort() -> (e: MacroError)
    ensures
        e@ == abort(unwrap_none_msg()),
{
    fatal("called `Option::unwrap()` on a `None` value")
}

/// The abort of a macro that unwraps an error.
pub fn unwrap_err_abort() -> (e: MacroError)
    ensures
        e@ == abort(unwrap_err_msg()),
{
    fatal("called `Result::unwrap()` on an `Err` value")
}

/// The value of a group token is the group of the values of its tokens.
pub broadcast proof fn lemma_group_view(d: Delim, ts: Vec<Token>)
    ensures
        #[trigger] Token::Group(d, ts)@ == Tok::Group(d, ts.deep_view()),
{
    let t = Token::Group(d, ts);
    assert(forall|i: int| 0 <= i < ts@.len() ==> ts.deep_view()[i] == ts@[i].tok());
    assert(t.tok()->Group_1 =~= ts.deep_view());
}

/// An identifier.
pub fn ident(s: &str) -> (t: Token)
    ensures
        t@ == Tok::Ident(s@),
{
    Token::Ident(String::from_str(s))
}

/// A punctuation character standing alone.
pub fn punct(c: char) -> (t: Token)
    ensures
        t@ == Tok::Punct(c, false),
{
    Token::Punct(c, false)
}

/// A punctuation character joined to the next one.
pub fn joint(c: char) -> (t: Token)
    ensures
        t@ == Tok::Punct(c, true),
{
    Token::Punct(c, true)
}

/// A string literal denoting `s`.
pub fn str_lit(s: &str) -> (t: Token)
    ensures
        t@ == Tok::Str(s@),
{
    Token::Str(String::from_str(s))
}

/// A group.
pub fn group(d: Delim, ts: Vec<Token>) -> (t: Token)
    ensures
        t@ == Tok::Group(d, ts.deep_view()),
{
    proof {
        lemma_group_view(d, ts);
    }
    Token::Group(d, ts)
}

/// An empty group.
pub fn empty_group(d: Delim) -> (t: Token)
    ensures
        t@ == Tok::Group(d, seq![]),
{
    let v: Vec<Token> = Vec::new();
    assert(v.deep_view() =~= Seq::<Tok>::empty());
    group(d, v)
}

/// A copy of a token tree.
pub fn copy_token(t: &Token) -> (r: Token)
    ensures
        r@ == t@,
    decreases t,
{
    match t {
        Token::Ident(s) => {
            let c = s.clone();
            assert(c@ == s@);
            Token::Ident(c)
        },
        Token::Punct(c, j) => Token::Punct(*c, *j),
        Token::Str(s) => Token::Str(s.clone()),
        Token::SuffixedStr(s, x) => Token::SuffixedStr(s.clone(), x.clone()),
        Token::Lit(k, s) => Token::Lit(*k, s.clone()),
        Token::Group(d, ts) => {
            let mut out: Vec<Token> = Vec::new();
            let mut i: usize = 0;
            while i < ts.len()
                invariant
                    i <= ts@.len(),
                    out.deep_view() =~= ts.deep_view().take(i as int),
                    decreases_to!(*t => ts),
                decreases ts@.len() - i,
            {
                proof {
                    assert(decreases_to!(ts => ts@[i as int]));
                }
                let c = copy_token(&ts[i]);
                push_tok(&mut out, c);
                assert(ts.deep_view().take(i + 1) =~= ts.deep_view().take(i as int).push(ts@[i as int]@));
                i = i + 1;
            }
            proof {
                lemma_group_view(*d, out);
                lemma_group_view(*d, *ts);
                assert(ts.deep_view().take(ts@.len() as int) =~= ts.deep_view());
            }
            Token::Group(*d, out)
        },
    }
}

/// A copy of a sequence of token trees.
pub fn copy_tokens(ts: &Vec<Token>) -> (r: Vec<Token>)
    ensures
        r.deep_view() == ts.deep_view(),
{
    let mut out: Vec<Token> = Vec::new();
    let mut i: usize = 0;
    while i < ts.len()
        invariant
            i <= ts@.len(),
            out.deep_view() =~= ts.deep_view().take(i as int),
        decreases ts@.len() - i,
    {
        let c = copy_token(&ts[i]);
        push_tok(&mut out, c);
        assert(ts.deep_view().take(i + 1) =~= ts.deep_view().take(i as int).push(ts@[i as int]@));
        i = i + 1;
    }
    assert(ts.deep_view().take(ts@.len() as int) =~= ts.deep_view());
    out
}

/// Appends a token.
pub fn push_tok(out: &mut Vec<Token>, t: Token)
    ensures
        final(out).deep_view() == old(out).deep_view().push(t@),
{
    out.push(t);
    assert(out.deep_view() =~= old(out).deep_view().push(t@));
}

/// Appends a token sequence to a list of them.
pub fn push_part(out: &mut Vec<Vec<Token>>, part: Vec<Token>)
    ensures
        final(out).deep_view() == old(out).deep_view().push(part.deep_view()),
{
    let ghost p = part.deep_view();
    out.push(part);
    assert(out.deep_view() =~= old(out).deep_view().push(p));
}

/// Appends a sequence of tokens.
pub fn extend(out: &mut Vec<Token>, more: Vec<Token>)
    ensures
        final(out).deep_view() == old(out).deep_view() + more.deep_view(),
{
    let ghost m = more.deep_view();
    let mut more = more;
    out.append(&mut more);
    assert(out.deep_view() =~= old(out).deep_view() + m);
}

/// Whether `s` is the text `kw`.
pub fn text_is(s: &String, kw: &str) -> (r: bool)
    ensures
        r == (s@ == kw@),
{
    *s == String::from_str(kw)
}

/// Whether a token is the identifier `kw`.
pub fn is_ident(t: &Token, kw: &str) -> (r: bool)
    ensures
        r == (t@ == Tok::Ident(kw@)),
{
    match t {
        Token::Ident(s) => text_is(s, kw),
        _ => false,
    }
}

/// Whether a token is the punctuation character `c`.
pub fn is_punct(t: &Token, c: char) -> (r: bool)
    ensures
        r == is_punct_tok(t@, c),
{
    match t {
        Token::Punct(x, _) => *x == c,
        _ => false,
    }
}

/// Whether the token `off` places after `pos` is the identifier `kw`.
pub fn ident_at(ts: &Vec<Token>, pos: usize, off: usize, kw: &str) -> (r: bool)
    ensures
        r == (pos + off < ts@.len() && ts.deep_view()[pos + off] == Tok::Ident(kw@)),
{
    pos < ts.len() && off < ts.len() - pos && is_ident(&ts[pos + off], kw)
}

/// Whether the token `off` places after `pos` is the punctuation character `c`.
pub fn punct_at(ts: &Vec<Token>, pos: usize, off: usize, c: char) -> (r: bool)
    ensures
        r == (pos + off < ts@.len() && is_punct_tok(ts.deep_view()[pos + off], c)),
{
    pos < ts.len() && off < ts.len() - pos && is_punct(&ts[pos + off], c)
}

/// Whether at least `k` tokens follow `pos`.
pub fn has_room(ts: &Vec<Token>, pos: usize, k: usize) -> (r: bool)
    ensures
        r == (pos + k < ts@.len()),
        r ==> pos + k < ts.len(),
{
    pos < ts.len() && k < ts.len() - pos
}

/// Appends a character to a string (`String::push`).
#[verifier::external_body]
pub(crate) fn push_char(s: &mut String, c: char)
    ensures
        final(s)@ == old(s)@.push(c),
{
    s.push(c);
}

/// Concatenation of two texts.
pub fn concat(a: &str, b: &str) -> (r: String)
    ensures
        r@ == a@ + b@,
{
    let mut r = String::from_str(a);
    r.append(b);
    r
}

} // verus!
