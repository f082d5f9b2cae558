//! The infrastructure-as-code language: a bucket and a lambda, as in
//! `bucket(name=b) => lambda(name=l, mem=1024, time=15)`.
use vstd::prelude::*;
use crate::tokens::{Token, Tok, LitKind, Delim, MacroError, ErrV, err, error, is_punct_tok, is_group_tok, is_lit_tok, text_is, ident_at, punct_at, has_room};

verus! {

/// A storage bucket, and whether an event of it calls the lambda (`=>`).
#[derive(Debug)]
pub struct Bucket {
    pub name: String,
    pub has_event: bool,
}

/// A function, with its memory and its time limit when they are given.
#[derive(Debug)]
pub struct Lambda {
    pub name: String,
    pub memory: Option<u16>,
    pub time: Option<u16>,
}

/// What the `iac` macro reads: at most one bucket and one lambda.
#[derive(Debug)]
pub struct IacInput {
    pub bucket: Option<Bucket>,
    pub lambda: Option<Lambda>,
}

/// One `key=value` property of a lambda.
#[derive(Debug)]
pub enum LambdaProperty {
    Name(String),
    Memory(u16),
    Time(u16),
}

/// Collects the properties of a lambda.
#[derive(Debug)]
pub struct LambdaBuilder {
    pub name: Option<String>,
    pub memory: Option<u16>,
    pub time: Option<u16>,
}

pub struct BucketV {
    pub name: Seq<char>,
    pub has_event: bool,
}

pub struct LambdaV {
    pub name: Seq<char>,
    pub memory: Option<u16>,
    pub time: Option<u16>,
}

pub struct IacV {
    pub bucket: Option<BucketV>,
    pub lambda: Option<LambdaV>,
}

pub enum PropertyV {
    Name(Seq<char>),
    Memory(u16),
    Time(u16),
}

pub struct LambdaBuilderV {
    pub name: Option<Seq<char>>,
    pub memory: Option<u16>,
    pub time: Option<u16>,
}

impl View for Bucket {
    type V = BucketV;

    open spec fn view(&self) -> BucketV {
        BucketV { name: self.name@, has_event: self.has_event }
    }
}

impl View for Lambda {
    type V = LambdaV;

    open spec fn view(&self) -> LambdaV {
        LambdaV { name: self.name@, memory: self.memory, time: self.time }
    }
}

impl View for IacInput {
    type V = IacV;

    open spec fn view(&self) -> IacV {
        IacV {
            bucket: match self.bucket {
                Some(b) => Some(b@),
                None => None,
            },
            lambda: match self.lambda {
                Some(l) => Some(l@),
                None => None,
            },
        }
    }
}

impl View for LambdaProperty {
    type V = PropertyV;

    open spec fn view(&self) -> PropertyV {
        match self {
            LambdaProperty::Name(s) => PropertyV::Name(s@),
            LambdaProperty::Memory(m) => PropertyV::Memory(*m),
            LambdaProperty::Time(t) => PropertyV::Time(*t),
        }
    }
}

impl View for LambdaBuilder {
    type V = LambdaBuilderV;

    open spec fn view(&self) -> LambdaBuilderV {
        LambdaBuilderV {
            name: match self.name {
                Some(s) => Some(s@),
                None => None,
            },
            memory: self.memory,
            time: self.time,
        }
    }
}

// ---------------------------------------------------------------------------------------------
// The grammar
// ---------------------------------------------------------------------------------------------

/// The words that cannot be an identifier value.
pub open spec fn is_keyword(s: Seq<char>) -> bool {
    ||| s == "_"@ ||| s == "abstract"@ ||| s == "as"@ ||| s == "async"@ ||| s == "await"@
    ||| s == "become"@ ||| s == "box"@ ||| s == "break"@ ||| s == "const"@ ||| s == "continue"@
    ||| s == "crate"@ ||| s == "do"@ ||| s == "dyn"@ ||| s == "else"@ ||| s == "enum"@
    ||| s == "extern"@ ||| s == "false"@ ||| s == "final"@ ||| s == "fn"@ ||| s == "for"@
    ||| s == "if"@ ||| s == "impl"@ ||| s == "in"@ ||| s == "let"@ ||| s == "loop"@
    ||| s == "macro"@ ||| s == "match"@ ||| s == "mod"@ ||| s == "move"@ ||| s == "mut"@
    ||| s == "override"@ ||| s == "priv"@ ||| s == "pub"@ ||| s == "ref"@ ||| s == "return"@
    ||| s == "Self"@ ||| s == "self"@ ||| s == "static"@ ||| s == "struct"@ ||| s == "super"@
    ||| s == "trait"@ ||| s == "true"@ ||| s == "try"@ ||| s == "type"@ ||| s == "typeof"@
    ||| s == "unsafe"@ ||| s == "unsized"@ ||| s == "use"@ ||| s == "virtual"@ ||| s == "where"@
    ||| s == "while"@ ||| s == "yield"@
}

/// The token at `p` is the identifier `kw`.
pub open spec fn at_ident(ts: Seq<Tok>, p: int, kw: Seq<char>) -> bool {
    0 <= p < ts.len() && ts[p] == Tok::Ident(kw)
}

/// The token at `p` is the punctuation character `c`.
pub open spec fn at_punct(ts: Seq<Tok>, p: int, c: char) -> bool {
    0 <= p < ts.len() && is_punct_tok(ts[p], c)
}

/// The tokens at `p` are `=>`.
pub open spec fn at_fat_arrow(ts: Seq<Tok>, p: int) -> bool {
    0 <= p && p + 1 < ts.len() && ts[p] == Tok::Punct('=', true) && is_punct_tok(ts[p + 1], '>')
}

/// The token at `p` is a parenthesized group.
pub open spec fn at_parens(ts: Seq<Tok>, p: int) -> bool {
    0 <= p < ts.len() && is_group_tok(ts[p], Delim::Paren)
}

/// The identifier at `p`, unless it is a keyword.
pub open spec fn plain_ident_at(ts: Seq<Tok>, p: int) -> Option<Seq<char>> {
    if 0 <= p < ts.len() && ts[p] is Ident && !is_keyword(ts[p]->Ident_0) {
        Some(ts[p]->Ident_0)
    } else {
        None
    }
}

/// The value of a sequence of decimal digits.
pub open spec fn digits_value(s: Seq<char>) -> nat
    decreases s.len(),
{
    if s.len() == 0 {
        0
    } else {
        digits_value(s.drop_last()) * 10 + (s.last() as nat - '0' as nat) as nat
    }
}

/// All characters of `s` are decimal digits.
pub open spec fn all_digits(s: Seq<char>) -> bool {
    forall|i: int| 0 <= i < s.len() ==> '0' <= #[trigger] s[i] <= '9'
}

/// The `u16` that the text `s` spells, if it spells one.
pub open spec fn decimal_u16(s: Seq<char>) -> Option<u16> {
    if s.len() > 0 && all_digits(s) && digits_value(s) <= 65535 {
        Some(digits_value(s) as u16)
    } else {
        None
    }
}

pub open spec fn separator_message() -> Seq<char> {
    "prop name and value should be separated by ="@
}

/// `kw = number`, the keyword at `p`: the number, or the error.
pub open spec fn parse_number_spec(ts: Seq<Tok>, p: int, msg: Seq<char>) -> Result<u16, ErrV> {
    if !at_punct(ts, p + 1, '=') {
        Err(err(separator_message()))
    } else if 0 <= p + 2 < ts.len() && is_lit_tok(ts[p + 2], LitKind::Int) {
        match decimal_u16(ts[p + 2]->Lit_1) {
            Some(v) => Ok(v),
            None => Err(err(msg)),
        }
    } else if at_punct(ts, p + 2, '-') && 0 <= p + 3 < ts.len() && is_lit_tok(ts[p + 3], LitKind::Int) {
        Err(err(msg))
    } else {
        Err(err("expected integer literal"@))
    }
}

/// One property of a lambda at `p`; when it is parsed, it has taken three tokens.
pub open spec fn parse_property_spec(ts: Seq<Tok>, p: int) -> Result<PropertyV, ErrV> {
    if at_ident(ts, p, "name"@) {
        if !at_punct(ts, p + 1, '=') {
            Err(err(separator_message()))
        } else {
            match plain_ident_at(ts, p + 2) {
                Some(n) => Ok(PropertyV::Name(n)),
                None => Err(err("name property needs a value"@)),
            }
        }
    } else if at_ident(ts, p, "mem"@) {
        match parse_number_spec(ts, p, "memory needs a positive value <= 10240"@) {
            Ok(v) => Ok(PropertyV::Memory(v)),
            Err(e) => Err(e),
        }
    } else if at_ident(ts, p, "time"@) {
        match parse_number_spec(ts, p, "time needs a positive value <= 900"@) {
            Ok(v) => Ok(PropertyV::Time(v)),
            Err(e) => Err(e),
        }
    } else {
        Err(err("unknown property for lambda"@))
    }
}

/// The properties from `p` to the end, separated by commas, with an optional trailing comma.
pub open spec fn parse_properties_spec(ts: Seq<Tok>, p: int) -> Result<Seq<PropertyV>, ErrV>
    decreases ts.len() - p,
{
    if p < 0 || p >= ts.len() {
        Ok(seq![])
    } else {
        match parse_property_spec(ts, p) {
            Err(e) => Err(e),
            Ok(prop) => if p + 3 >= ts.len() {
                Ok(seq![prop])
            } else if !at_punct(ts, p + 3, ',') {
                Err(err("expected `,`"@))
            } else {
                match parse_properties_spec(ts, p + 4) {
                    Ok(rest) => Ok(seq![prop] + rest),
                    Err(e) => Err(e),
                }
            },
        }
    }
}

/// A builder after one more property: a property given again replaces the earlier one.
pub open spec fn with_property(b: LambdaBuilderV, prop: PropertyV) -> LambdaBuilderV {
    match prop {
        PropertyV::Name(n) => LambdaBuilderV { name: Some(n), ..b },
        PropertyV::Memory(m) => LambdaBuilderV { memory: Some(m), ..b },
        PropertyV::Time(t) => LambdaBuilderV { time: Some(t), ..b },
    }
}

/// The builder after the properties, in order.
pub open spec fn fold_properties(b: LambdaBuilderV, props: Seq<PropertyV>) -> LambdaBuilderV
    decreases props.len(),
{
    if props.len() == 0 {
        b
    } else {
        with_property(fold_properties(b, props.drop_last()), props.last())
    }
}

pub open spec fn empty_builder() -> LambdaBuilderV {
    LambdaBuilderV { name: None, memory: None, time: None }
}

/// The lambda of a builder: its name is required.
pub open spec fn build_spec(b: LambdaBuilderV) -> Result<LambdaV, ErrV> {
    match b.name {
        Some(n) => Ok(LambdaV { name: n, memory: b.memory, time: b.time }),
        None => Err(err("name is required for lambda"@)),
    }
}

/// `bucket ( name = ident ) [=>]`, the keyword at `p`: the bucket, and whether tokens are left
/// in the parentheses. A bucket takes two tokens, four with `=>`.
pub open spec fn parse_bucket_spec(ts: Seq<Tok>, p: int) -> Result<(BucketV, bool), ErrV> {
    if !at_parens(ts, p + 1) {
        Err(err("expected parentheses"@))
    } else {
        let c = ts[p + 1]->Group_1;
        if at_ident(c, 0, "name"@) {
            if !at_punct(c, 1, '=') {
                Err(err(separator_message()))
            } else {
                match plain_ident_at(c, 2) {
                    Some(n) => Ok((BucketV { name: n, has_event: at_fat_arrow(ts, p + 2) }, c.len() > 3)),
                    None => Err(err("name property needs a value"@)),
                }
            }
        } else {
            Err(err("unknown property for bucket"@))
        }
    }
}

/// `lambda ( properties )`, the keyword at `p`; a lambda takes two tokens.
pub open spec fn parse_lambda_spec(ts: Seq<Tok>, p: int) -> Result<LambdaV, ErrV> {
    if !at_parens(ts, p + 1) {
        Err(err("expected parentheses"@))
    } else {
        match parse_properties_spec(ts[p + 1]->Group_1, 0) {
            Err(e) => Err(e),
            Ok(props) => build_spec(fold_properties(empty_builder(), props)),
        }
    }
}

/// The resources from `p` to the end, given those read so far; a later resource of a kind
/// replaces an earlier one.
pub open spec fn parse_iac_from(
    ts: Seq<Tok>,
    p: int,
    bucket: Option<BucketV>,
    lambda: Option<LambdaV>,
    unexpected: bool,
) -> Result<IacV, ErrV>
    decreases ts.len() - p,
{
    if p < 0 {
        Err(err("unexpected token"@))
    } else if at_ident(ts, p, "bucket"@) {
        match parse_bucket_spec(ts, p) {
            Err(e) => Err(e),
            Ok((b, left)) => parse_iac_from(
                ts,
                if b.has_event { p + 4 } else { p + 2 },
                Some(b),
                lambda,
                unexpected || left,
            ),
        }
    } else if at_ident(ts, p, "lambda"@) {
        match parse_lambda_spec(ts, p) {
            Err(e) => Err(e),
            Ok(l) => parse_iac_from(ts, p + 2, bucket, Some(l), unexpected),
        }
    } else if p < ts.len() {
        Err(err("only 'bucket' and 'lambda' resources are supported"@))
    } else if (bucket matches Some(b) && b.has_event) && lambda is None {
        Err(err("a lambda is required for an event ('=>')"@))
    } else if unexpected {
        Err(err("unexpected token, expected `)`"@))
    } else {
        Ok(IacV { bucket, lambda })
    }
}

/// What the `iac` macro makes of its whole input.
pub open spec fn parse_iac_spec(ts: Seq<Tok>) -> Result<IacV, ErrV> {
    parse_iac_from(ts, 0, None, None, false)
}

/// The view of a parse result.
pub open spec fn result_view<T: View>(r: Result<T, MacroError>) -> Result<T::V, ErrV> {
    match r {
        Ok(v) => Ok(v@),
        Err(e) => Err(e@),
    }
}

// ---------------------------------------------------------------------------------------------
// The parser
// ---------------------------------------------------------------------------------------------

/// Whether an identifier is a keyword.
pub fn is_keyword_text(s: &String) -> (r: bool)
    ensures
        r == is_keyword(s@),
{
    text_is(s, "_") || text_is(s, "abstract") || text_is(s, "as") || text_is(s, "async")
        || text_is(s, "await") || text_is(s, "become") || text_is(s, "box") || text_is(s, "break")
        || text_is(s, "const") || text_is(s, "continue") || text_is(s, "crate") || text_is(s, "do")
        || text_is(s, "dyn") || text_is(s, "else") || text_is(s, "enum") || text_is(s, "extern")
        || text_is(s, "false") || text_is(s, "final") || text_is(s, "fn") || text_is(s, "for")
        || text_is(s, "if") || text_is(s, "impl") || text_is(s, "in") || text_is(s, "let")
        || text_is(s, "loop") || text_is(s, "macro") || text_is(s, "match") || text_is(s, "mod")
        || text_is(s, "move") || text_is(s, "mut") || text_is(s, "override") || text_is(s, "priv")
        || text_is(s, "pub") || text_is(s, "ref") || text_is(s, "return") || text_is(s, "Self")
        || text_is(s, "self") || text_is(s, "static") || text_is(s, "struct") || text_is(s, "super")
        || text_is(s, "trait") || text_is(s, "true") || text_is(s, "try") || text_is(s, "type")
        || text_is(s, "typeof") || text_is(s, "unsafe") || text_is(s, "unsized") || text_is(s, "use")
        || text_is(s, "virtual") || text_is(s, "where") || text_is(s, "while") || text_is(s, "yield")
}

/// The identifier `off` places after `pos`, unless it is a keyword.
pub fn plain_ident(ts: &Vec<Token>, pos: usize, off: usize) -> (r: Option<String>)
    ensures
        r matches Some(s) ==> plain_ident_at(ts.deep_view(), pos + off) == Some(s@),
        r is None ==> plain_ident_at(ts.deep_view(), pos + off) is None,
{
    if has_room(ts, pos, off) {
        match &ts[pos + off] {
            Token::Ident(s) => {
                if is_keyword_text(s) {
                    None
                } else {
                    Some(s.clone())
                }
            },
            _ => None,
        }
    } else {
        None
    }
}

/// The `u16` that a text spells in decimal digits, if it spells one.
pub fn parse_u16(s: &String) -> (r: Option<u16>)
    ensures
        r == decimal_u16(s@),
{
    let text = s.as_str();
    let n = text.unicode_len();
    if n == 0 {
        return None;
    }
    let mut acc: u32 = 0;
    let mut i: usize = 0;
    while i < n
        invariant
            n == s@.len(),
            text@ == s@,
            i <= n,
            acc <= 65535,
            acc == digits_value(s@.take(i as int)),
            all_digits(s@.take(i as int)),
        decreases n - i,
    {
        let c = text.get_char(i);
        if c < '0' || c > '9' {
            assert(!all_digits(s@)) by {
                assert(s@[i as int] == c);
            }
            return None;
        }
        let d = (c as u32) - ('0' as u32);
        assert(s@.take(i + 1).drop_last() =~= s@.take(i as int));
        assert(s@.take(i + 1).last() == c);
        acc = acc * 10 + d;
        assert(acc == digits_value(s@.take(i + 1)));
        if acc > 65535 {
            proof {
                lemma_digits_prefix_le(s@, i + 1);
            }
            return None;
        }
        assert(all_digits(s@.take(i + 1))) by {
            assert forall|j: int| 0 <= j < i + 1 implies '0' <= #[trigger] s@.take(i + 1)[j] <= '9' by {
                if j < i {
                    assert(s@.take(i + 1)[j] == s@.take(i as int)[j]);
                }
            }
        }
        i = i + 1;
    }
    assert(s@.take(n as int) =~= s@);
    Some(acc as u16)
}

/// The value of digits is at least the value of any prefix of them.
proof fn lemma_digits_prefix_le(s: Seq<char>, k: int)
    requires
        0 <= k <= s.len(),
        all_digits(s.take(k)),
    ensures
        all_digits(s) ==> digits_value(s.take(k)) <= digits_value(s),
    decreases s.len() - k,
{
    if k < s.len() && all_digits(s) {
        assert(all_digits(s.take(k + 1)));
        lemma_digits_prefix_le(s, k + 1);
        assert(s.take(k + 1).drop_last() =~= s.take(k));
        assert('0' <= s.take(k + 1).last());
    } else if k == s.len() {
        assert(s.take(k) =~= s);
    }
}

/// `kw = number`, the keyword at `pos` (named for the error `msg`): the number, after which
/// the parse goes on at `pos + 3`.
pub fn parse_number(ts: &Vec<Token>, pos: usize, msg: &str) -> (r: Result<u16, MacroError>)
    requires
        pos < ts@.len(),
    ensures
        result_view_u16(r) == parse_number_spec(ts.deep_view(), pos as int, msg@),
{
    if !punct_at(ts, pos, 1, '=') {
        return Err(error("prop name and value should be separated by ="));
    }
    if has_room(ts, pos, 2) {
        if let Token::Lit(LitKind::Int, text) = &ts[pos + 2] {
            return match parse_u16(text) {
                Some(v) => Ok(v),
                None => Err(error(msg)),
            };
        }
    }
    if punct_at(ts, pos, 2, '-') && has_room(ts, pos, 3) {
        if let Token::Lit(LitKind::Int, _) = &ts[pos + 3] {
            return Err(error(msg));
        }
    }
    Err(error("expected integer literal"))
}

/// The view of a number parse.
pub open spec fn result_view_u16(r: Result<u16, MacroError>) -> Result<u16, ErrV> {
    match r {
        Ok(v) => Ok(v),
        Err(e) => Err(e@),
    }
}

impl LambdaProperty {
    /// One property of a lambda at `pos`; a parsed property takes three tokens.
    pub fn parse(ts: &Vec<Token>, pos: usize) -> (r: Result<LambdaProperty, MacroError>)
        requires
            pos < ts@.len(),
        ensures
            result_view(r) == parse_property_spec(ts.deep_view(), pos as int),
    {
        if ident_at(ts, pos, 0, "name") {
            if !punct_at(ts, pos, 1, '=') {
                return Err(error("prop name and value should be separated by ="));
            }
            match plain_ident(ts, pos, 2) {
                Some(n) => Ok(LambdaProperty::Name(n)),
                None => Err(error("name property needs a value")),
            }
        } else if ident_at(ts, pos, 0, "mem") {
            match parse_number(ts, pos, "memory needs a positive value <= 10240") {
                Ok(v) => Ok(LambdaProperty::Memory(v)),
                Err(e) => Err(e),
            }
        } else if ident_at(ts, pos, 0, "time") {
            match parse_number(ts, pos, "time needs a positive value <= 900") {
                Ok(v) => Ok(LambdaProperty::Time(v)),
                Err(e) => Err(e),
            }
        } else {
            Err(error("unknown property for lambda"))
        }
    }
}

impl LambdaBuilder {
    /// Sets the name.
    pub fn name(self, name: String) -> (r: LambdaBuilder)
        ensures
            r@ == with_property(self@, PropertyV::Name(name@)),
    {
        LambdaBuilder { name: Some(name), ..self }
    }

    /// Sets the memory.
    pub fn memory(self, memory: u16) -> (r: LambdaBuilder)
        ensures
            r@ == with_property(self@, PropertyV::Memory(memory)),
    {
        LambdaBuilder { memory: Some(memory), ..self }
    }

    /// Sets the time limit.
    pub fn time(self, time: u16) -> (r: LambdaBuilder)
        ensures
            r@ == with_property(self@, PropertyV::Time(time)),
    {
        LambdaBuilder { time: Some(time), ..self }
    }

    /// The lambda; its name is required.
    pub fn build(self) -> (r: Result<Lambda, MacroError>)
        ensures
            result_view(r) == build_spec(self@),
    {
        match self.name {
            Some(name) => Ok(Lambda { name, memory: self.memory, time: self.time }),
            None => Err(error("name is required for lambda")),
        }
    }
}

impl Lambda {
    /// A builder with no property set.
    pub fn builder() -> (r: LambdaBuilder)
        ensures
            r@ == empty_builder(),
    {
        LambdaBuilder { name: None, memory: None, time: None }
    }

    /// `lambda ( properties )`, the keyword at `pos`; a lambda takes two tokens.
    pub fn parse(ts: &Vec<Token>, pos: usize) -> (r: Result<Lambda, MacroError>)
        requires
            pos < ts@.len(),
        ensures
            result_view(r) == parse_lambda_spec(ts.deep_view(), pos as int),
            r is Ok ==> pos + 1 < ts.len(),
    {
        if !has_room(ts, pos, 1) {
            return Err(error("expected parentheses"));
        }
        let content = match &ts[pos + 1] {
            Token::Group(Delim::Paren, c) => c,
            _ => {
                return Err(error("expected parentheses"));
            },
        };
        proof {
            crate::tokens::lemma_group_view(Delim::Paren, *content);
        }
        let ghost c = content.deep_view();
        let mut builder = Lambda::builder();
        let mut p: usize = 0;
        let ghost mut props: Seq<PropertyV> = seq![];
        while p < content.len()
            invariant
                c == content.deep_view(),
                pos + 1 < ts@.len(),
                ts.deep_view()[pos + 1] == Tok::Group(Delim::Paren, c),
                p <= c.len() + 1,
                parse_properties_spec(c, 0) == match parse_properties_spec(c, p as int) {
                    Ok(rest) => Ok(props + rest),
                    Err(e) => Err(e),
                },
                builder@ == fold_properties(empty_builder(), props),
            decreases c.len() - p,
        {
            let prop = match LambdaProperty::parse(content, p) {
                Ok(prop) => prop,
                Err(e) => {
                    return Err(e);
                },
            };
            let ghost pv = prop@;
            builder = match prop {
                LambdaProperty::Name(n) => builder.name(n),
                LambdaProperty::Memory(m) => builder.memory(m),
                LambdaProperty::Time(t) => builder.time(t),
            };
            proof {
                assert((props + seq![pv]).drop_last() =~= props);
                props = props + seq![pv];
            }
            if !has_room(content, p, 3) {
                assert(props + seq![] =~= props);
                p = content.len();
            } else {
                if !punct_at(content, p, 3, ',') {
                    return Err(error("expected `,`"));
                }
                p = p + 4;
                proof {
                    if p as int >= c.len() {
                        assert(props + seq![] =~= props);
                    }
                    assert(forall|rest: Seq<PropertyV>| (props.drop_last() + (seq![pv] + rest)) =~= props + rest);
                }
            }
        }
        assert(props + seq![] =~= props);
        builder.build()
    }
}

impl Bucket {
    /// `bucket ( name = ident ) [=>]`, the keyword at `pos`: the bucket, and whether tokens are
    /// left in the parentheses.
    pub fn parse(ts: &Vec<Token>, pos: usize) -> (r: Result<(Bucket, bool), MacroError>)
        requires
            pos < ts@.len(),
        ensures
            match r {
                Ok((b, left)) => parse_bucket_spec(ts.deep_view(), pos as int) == Ok::<(BucketV, bool), ErrV>((b@, left)),
                Err(e) => parse_bucket_spec(ts.deep_view(), pos as int) == Err::<(BucketV, bool), ErrV>(e@),
            },
            r is Ok ==> pos + 1 < ts.len(),
            r matches Ok((b, _)) && b.has_event ==> pos + 3 < ts.len(),
    {
        if !has_room(ts, pos, 1) {
            return Err(error("expected parentheses"));
        }
        let content = match &ts[pos + 1] {
            Token::Group(Delim::Paren, c) => c,
            _ => {
                return Err(error("expected parentheses"));
            },
        };
        proof {
            crate::tokens::lemma_group_view(Delim::Paren, *content);
        }
        if !ident_at(content, 0, 0, "name") {
            return Err(error("unknown property for bucket"));
        }
        if !punct_at(content, 0, 1, '=') {
            return Err(error("prop name and value should be separated by ="));
        }
        let name = match plain_ident(content, 0, 2) {
            Some(n) => n,
            None => {
                return Err(error("name property needs a value"));
            },
        };
        let has_event = has_room(ts, pos, 3) && match &ts[pos + 2] {
            Token::Punct('=', true) => punct_at(ts, pos, 3, '>'),
            _ => false,
        };
        Ok((Bucket { name, has_event }, content.len() > 3))
    }
}

impl IacInput {
    /// What the `iac` macro makes of its whole input.
    pub fn parse(ts: &Vec<Token>) -> (r: Result<IacInput, MacroError>)
        ensures
            result_view(r) == parse_iac_spec(ts.deep_view()),
    {
        let ghost all = ts.deep_view();
        let mut bucket: Option<Bucket> = None;
        let mut lambda: Option<Lambda> = None;
        let mut unexpected = false;
        let mut p: usize = 0;
        loop
            invariant
                all == ts.deep_view(),
                p <= all.len(),
                parse_iac_spec(all) == parse_iac_from(
                    all,
                    p as int,
                    match bucket {
                        Some(b) => Some(b@),
                        None => None,
                    },
                    match lambda {
                        Some(l) => Some(l@),
                        None => None,
                    },
                    unexpected,
                ),
            ensures
                p == all.len(),
                parse_iac_spec(all) == parse_iac_from(
                    all,
                    p as int,
                    match bucket {
                        Some(b) => Some(b@),
                        None => None,
                    },
                    match lambda {
                        Some(l) => Some(l@),
                        None => None,
                    },
                    unexpected,
                ),
            decreases all.len() - p,
        {
            if ident_at(ts, p, 0, "bucket") {
                match Bucket::parse(ts, p) {
                    Ok((b, left)) => {
                        let step: usize = if b.has_event { 4 } else { 2 };
                        bucket = Some(b);
                        unexpected = unexpected || left;
                        p = p + step;
                    },
                    Err(e) => {
                        return Err(e);
                    },
                }
            } else if ident_at(ts, p, 0, "lambda") {
                match Lambda::parse(ts, p) {
                    Ok(l) => {
                        lambda = Some(l);
                        p = p + 2;
                    },
                    Err(e) => {
                        return Err(e);
                    },
                }
            } else if p < ts.len() {
                return Err(error("only 'bucket' and 'lambda' resources are supported"));
            } else {
                break;
            }
        }
        let event = match &bucket {
            Some(b) => b.has_event,
            None => false,
        };
        if event && lambda.is_none() {
            return Err(error("a lambda is required for an event ('=>')"));
        }
        if unexpected {
            return Err(error("unexpected token, expected `)`"));
        }
        Ok(IacInput { bucket, lambda })
    }
}

/// An event on a bucket always has a lambda to call: whatever the tokens, a parse that
/// succeeds with a bucket that has an event also has a lambda.
pub proof fn law_event_needs_lambda(ts: Seq<Tok>)
    ensures
        parse_iac_spec(ts) matches Ok(v) ==> (v.bucket matches Some(b) && b.has_event ==> v.lambda is Some),
{
    lemma_event_needs_lambda_from(ts, 0, None, None, false);
}

proof fn lemma_event_needs_lambda_from(
    ts: Seq<Tok>,
    p: int,
    bucket: Option<BucketV>,
    lambda: Option<LambdaV>,
    unexpected: bool,
)
    ensures
        parse_iac_from(ts, p, bucket, lambda, unexpected) matches Ok(v) ==> (v.bucket matches Some(b)
            && b.has_event ==> v.lambda is Some),
    decreases ts.len() - p,
{
    if p >= 0 && at_ident(ts, p, "bucket"@) {
        if let Ok((b, left)) = parse_bucket_spec(ts, p) {
            lemma_event_needs_lambda_from(ts, if b.has_event { p + 4 } else { p + 2 }, Some(b), lambda, unexpected || left);
        }
    } else if p >= 0 && at_ident(ts, p, "lambda"@) {
        if let Ok(l) = parse_lambda_spec(ts, p) {
            lemma_event_needs_lambda_from(ts, p + 2, bucket, Some(l), unexpected);
        }
    }
}

/// A lambda is built exactly when one of its properties names it, and then it has the
/// last name given.
pub proof fn law_lambda_needs_name(props: Seq<PropertyV>)
    ensures
        build_spec(fold_properties(empty_builder(), props)) is Ok <==> exists|i: int|
            0 <= i < props.len() && #[trigger] props[i] is Name,
        fold_properties(empty_builder(), props).name matches Some(n) ==> exists|i: int|
            0 <= i < props.len() && props[i] == PropertyV::Name(n),
    decreases props.len(),
{
    if props.len() > 0 {
        let init = props.drop_last();
        law_lambda_needs_name(init);
        if props.last() is Name {
            assert(props[props.len() - 1] is Name);
        } else {
            assert forall|i: int| 0 <= i < init.len() && #[trigger] init[i] is Name implies props[i] is Name by {
                assert(props[i] == init[i]);
            }
            assert forall|i: int| 0 <= i < props.len() && #[trigger] props[i] is Name implies init[i] is Name by {
                if i == props.len() - 1 {
                } else {
                    assert(props[i] == init[i]);
                }
            }
            if let Some(n) = fold_properties(empty_builder(), init).name {
                let i = choose|i: int| 0 <= i < init.len() && init[i] == PropertyV::Name(n);
                assert(props[i] == init[i]);
            }
        }
    }
}

/// `bucket ( content )`
pub open spec fn bucket_res(c: Seq<Tok>) -> Seq<Tok> {
    seq![Tok::Ident("bucket"@), Tok::Group(Delim::Paren, c)]
}

/// `lambda ( content )`
pub open spec fn lambda_res(c: Seq<Tok>) -> Seq<Tok> {
    seq![Tok::Ident("lambda"@), Tok::Group(Delim::Paren, c)]
}

/// A bucket without event and a lambda, each valid, give the same result in either order.
pub proof fn law_bucket_lambda_order(cb: Seq<Tok>, cl: Seq<Tok>)
    requires
        parse_bucket_spec(bucket_res(cb), 0) is Ok,
        parse_lambda_spec(lambda_res(cl), 0) is Ok,
    ensures
        parse_iac_spec(bucket_res(cb) + lambda_res(cl)) == parse_iac_spec(lambda_res(cl) + bucket_res(cb)),
{
    reveal_strlit("lambda");
    reveal_strlit("bucket");
    assert("lambda"@[0] != "bucket"@[0]);
    let bl = bucket_res(cb) + lambda_res(cl);
    let lb = lambda_res(cl) + bucket_res(cb);
    let (b, left) = parse_bucket_spec(bucket_res(cb), 0)->Ok_0;
    let l = parse_lambda_spec(lambda_res(cl), 0)->Ok_0;
    assert(bl[1] == Tok::Group(Delim::Paren, cb) && bl[3] == Tok::Group(Delim::Paren, cl));
    assert(bl[0] == Tok::Ident("bucket"@) && bl[2] == Tok::Ident("lambda"@) && bl.len() == 4);
    assert(lb[0] == Tok::Ident("lambda"@) && lb[2] == Tok::Ident("bucket"@) && lb.len() == 4);
    assert(at_ident(bl, 2, "lambda"@) && !at_ident(bl, 2, "bucket"@));
    assert(at_ident(lb, 2, "bucket"@) && at_ident(bl, 0, "bucket"@) && at_ident(lb, 0, "lambda"@));
    assert(!at_ident(lb, 0, "bucket"@));
    assert(lb[1] == Tok::Group(Delim::Paren, cl) && lb[3] == Tok::Group(Delim::Paren, cb));
    assert(!at_fat_arrow(bucket_res(cb), 2));
    assert(!at_fat_arrow(bl, 2));
    assert(!at_fat_arrow(lb, 4));
    assert(parse_bucket_spec(bl, 0) == parse_bucket_spec(bucket_res(cb), 0));
    assert(parse_bucket_spec(lb, 2) == parse_bucket_spec(bucket_res(cb), 0));
    assert(parse_lambda_spec(bl, 2) == parse_lambda_spec(lambda_res(cl), 0));
    assert(parse_lambda_spec(lb, 0) == parse_lambda_spec(lambda_res(cl), 0));
    assert(!b.has_event);
    assert(parse_iac_from(bl, 4, Some(b), Some(l), left) == parse_iac_from(lb, 4, Some(b), Some(l), left));
    assert(parse_iac_from(bl, 2, Some(b), None, left) == parse_iac_from(bl, 4, Some(b), Some(l), left));
    assert(parse_iac_from(lb, 2, None, Some(l), false) == parse_iac_from(lb, 4, Some(b), Some(l), false || left));
}

/// Of two buckets, the later one is the one kept, when the earlier is valid and leaves nothing in
/// its parentheses.
pub proof fn law_later_bucket_wins(c1: Seq<Tok>, c2: Seq<Tok>)
    requires
        parse_bucket_spec(bucket_res(c1), 0) matches Ok((_, left)) && !left,
    ensures
        parse_iac_spec(bucket_res(c1) + bucket_res(c2)) == parse_iac_spec(bucket_res(c2)),
{
    reveal_strlit("lambda");
    reveal_strlit("bucket");
    assert("lambda"@[0] != "bucket"@[0]);
    let t = bucket_res(c1) + bucket_res(c2);
    let b2 = bucket_res(c2);
    let (b1, _) = parse_bucket_spec(bucket_res(c1), 0)->Ok_0;
    assert(t[1] == Tok::Group(Delim::Paren, c1) && t[3] == Tok::Group(Delim::Paren, c2));
    assert(t[0] == Tok::Ident("bucket"@) && t[2] == Tok::Ident("bucket"@) && t.len() == 4);
    assert(at_ident(t, 0, "bucket"@) && at_ident(t, 2, "bucket"@) && at_ident(b2, 0, "bucket"@));
    assert(!at_fat_arrow(bucket_res(c1), 2));
    assert(!at_fat_arrow(t, 2));
    assert(!at_fat_arrow(t, 4));
    assert(!at_fat_arrow(b2, 2));
    assert(parse_bucket_spec(t, 0) == parse_bucket_spec(bucket_res(c1), 0));
    assert(parse_bucket_spec(t, 2) == parse_bucket_spec(b2, 0));
    match parse_bucket_spec(b2, 0) {
        Ok((b, left2)) => {
            assert(parse_iac_from(t, 4, Some(b), None, false || left2) == parse_iac_from(b2, 2, Some(b), None, false || left2));
        },
        Err(_) => {},
    }
    assert(parse_iac_from(t, 0, None, None, false) == parse_iac_from(t, 2, Some(b1), None, false));
}

/// Of two lambdas, the later one is the one kept, when the earlier is valid.
pub proof fn law_later_lambda_wins(c1: Seq<Tok>, c2: Seq<Tok>)
    requires
        parse_lambda_spec(lambda_res(c1), 0) is Ok,
    ensures
        parse_iac_spec(lambda_res(c1) + lambda_res(c2)) == parse_iac_spec(lambda_res(c2)),
{
    reveal_strlit("lambda");
    reveal_strlit("bucket");
    assert("lambda"@[0] != "bucket"@[0]);
    let t = lambda_res(c1) + lambda_res(c2);
    let l2 = lambda_res(c2);
    let l1 = parse_lambda_spec(lambda_res(c1), 0)->Ok_0;
    assert(t[1] == Tok::Group(Delim::Paren, c1) && t[3] == Tok::Group(Delim::Paren, c2));
    assert(t[0] == Tok::Ident("lambda"@) && t[2] == Tok::Ident("lambda"@) && t.len() == 4);
    assert(at_ident(t, 0, "lambda"@) && !at_ident(t, 0, "bucket"@));
    assert(at_ident(t, 2, "lambda"@) && !at_ident(t, 2, "bucket"@));
    assert(at_ident(l2, 0, "lambda"@) && !at_ident(l2, 0, "bucket"@));
    assert(parse_lambda_spec(t, 0) == parse_lambda_spec(lambda_res(c1), 0));
    assert(parse_lambda_spec(t, 2) == parse_lambda_spec(l2, 0));
    match parse_lambda_spec(l2, 0) {
        Ok(l) => {
            assert(parse_iac_from(t, 4, None, Some(l), false) == parse_iac_from(l2, 2, None, Some(l), false));
        },
        Err(_) => {},
    }
    assert(parse_iac_from(t, 0, None, None, false) == parse_iac_from(t, 2, None, Some(l1), false));
}

/// What the `iac` macro reads from its input; it emits no code.
pub fn iac(item: &Vec<Token>) -> (r: Result<IacInput, MacroError>)
    ensures
        result_view(r) == parse_iac_spec(item.deep_view()),
{
    IacInput::parse(item)
}

/// The name given last among the properties, if any.
pub open spec fn last_name(props: Seq<PropertyV>) -> Option<Seq<char>>
    decreases props.len(),
{
    if props.len() == 0 {
        None
    } else if let PropertyV::Name(n) = props.last() {
        Some(n)
    } else {
        last_name(props.drop_last())
    }
}

/// The memory given last among the properties, if any.
pub open spec fn last_memory(props: Seq<PropertyV>) -> Option<u16>
    decreases props.len(),
{
    if props.len() == 0 {
        None
    } else if let PropertyV::Memory(m) = props.last() {
        Some(m)
    } else {
        last_memory(props.drop_last())
    }
}

/// The time limit given last among the properties, if any.
pub open spec fn last_time(props: Seq<PropertyV>) -> Option<u16>
    decreases props.len(),
{
    if props.len() == 0 {
        None
    } else if let PropertyV::Time(t) = props.last() {
        Some(t)
    } else {
        last_time(props.drop_last())
    }
}

/// `a`, or `b` when `a` is none.
pub open spec fn or_else<T>(a: Option<T>, b: Option<T>) -> Option<T> {
    if a is Some {
        a
    } else {
        b
    }
}

/// Each property of a lambda is set by its own kind alone: after the properties, the name is the
/// last name given, the memory the last memory given and the time limit the last time given, each
/// kept from the builder when none of its kind was given, whatever the order of the kinds.
pub proof fn law_each_property_kept(b: LambdaBuilderV, props: Seq<PropertyV>)
    ensures
        fold_properties(b, props).name == or_else(last_name(props), b.name),
        fold_properties(b, props).memory == or_else(last_memory(props), b.memory),
        fold_properties(b, props).time == or_else(last_time(props), b.time),
    decreases props.len(),
{
    if props.len() > 0 {
        law_each_property_kept(b, props.drop_last());
    }
}

/// Setting two properties of different kinds gives the same builder in either order.
pub proof fn law_properties_commute(b: LambdaBuilderV, p: PropertyV, q: PropertyV)
    requires
        !(p is Name && q is Name),
        !(p is Memory && q is Memory),
        !(p is Time && q is Time),
    ensures
        with_property(with_property(b, p), q) == with_property(with_property(b, q), p),
{
}

} // verus!
