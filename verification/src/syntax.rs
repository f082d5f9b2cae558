//! Token trees written out as Rust source text, and the questions about that text that are left to
//! `syn`, Rust's syntax library: whether it is a type, an attribute's content, or a braced list of
//! named fields.
use vstd::prelude::*;
use crate::tokens::{Token, Tok, Delim, push_char, lemma_group_view};

verus! {

broadcast use lemma_group_view;

/// The opening delimiter of a group, as text.
pub open spec fn open_text(d: Delim) -> Seq<char> {
    match d {
        Delim::Paren => "("@,
        Delim::Brace => "{"@,
        Delim::Bracket => "["@,
        Delim::NoDelim => seq![],
    }
}

/// The closing delimiter of a group, as text.
pub open spec fn close_text(d: Delim) -> Seq<char> {
    match d {
        Delim::Paren => ")"@,
        Delim::Brace => "}"@,
        Delim::Bracket => "]"@,
        Delim::NoDelim => seq![],
    }
}

/// A character as it is written inside a string literal.
pub open spec fn escape_char(c: char) -> Seq<char> {
    if c == '"' {
        seq!['\\', '"']
    } else if c == '\\' {
        seq!['\\', '\\']
    } else if c == '\r' {
        seq!['\\', 'r']
    } else {
        seq![c]
    }
}

/// A string as it is written between the quotes of a string literal.
pub open spec fn escape(s: Seq<char>) -> Seq<char>
    decreases s.len(),
{
    if s.len() == 0 {
        seq![]
    } else {
        escape(s.drop_last()) + escape_char(s.last())
    }
}

/// The source text of a token tree, followed by a space unless it is a punctuation character
/// joined to the next one.
pub open spec fn tok_text(t: Tok) -> Seq<char>
    decreases t, 1int,
{
    match t {
        Tok::Ident(s) => s + " "@,
        Tok::Punct(c, joined) => if joined {
            seq![c]
        } else {
            seq![c, ' ']
        },
        Tok::Str(s) => seq!['"'] + escape(s) + seq!['"', ' '],
        Tok::SuffixedStr(s, x) => seq!['"'] + escape(s) + seq!['"'] + x + " "@,
        Tok::Lit(_, s) => s + " "@,
        Tok::Group(d, ts) => open_text(d) + tokens_text(ts) + close_text(d) + " "@,
    }
}

/// The source text of a sequence of token trees.
pub open spec fn tokens_text(ts: Seq<Tok>) -> Seq<char>
    decreases ts, 0int,
{
    if ts.len() == 0 {
        seq![]
    } else {
        proof {
            assert(decreases_to!(ts => ts[ts.len() - 1]));
            assert(decreases_to!(ts => ts.subrange(0, ts.len() - 1)));
        }
        tokens_text(ts.subrange(0, ts.len() - 1)) + tok_text(ts[ts.len() - 1])
    }
}

fn push_str(out: &mut String, s: &str)
    ensures
        final(out)@ == old(out)@ + s@,
{
    out.append(s);
}

/// Appends a string as it is written between the quotes of a string literal.
fn push_escaped(out: &mut String, s: &String)
    ensures
        final(out)@ == old(out)@ + escape(s@),
{
    let ghost start = out@;
    let n = s.as_str().unicode_len();
    let mut i: usize = 0;
    while i < n
        invariant
            n == s@.len(),
            i <= n,
            out@ == start + escape(s@.take(i as int)),
        decreases n - i,
    {
        let c = s.as_str().get_char(i);
        assert(s@.take(i + 1).drop_last() =~= s@.take(i as int));
        assert(s@.take(i + 1).last() == c);
        if c == '"' {
            push_str(out, "\\\"");
        } else if c == '\\' {
            push_str(out, "\\\\");
        } else if c == '\r' {
            push_str(out, "\\r");
        } else {
            push_char(out, c);
        }
        proof {
            reveal_strlit("\\\"");
            reveal_strlit("\\\\");
            reveal_strlit("\\r");
        }
        assert(out@ =~= start + escape(s@.take(i + 1)));
        i = i + 1;
    }
    assert(s@.take(n as int) =~= s@);
}

/// Appends the source text of a token tree.
pub fn push_tok_text(out: &mut String, t: &Token)
    ensures
        final(out)@ == old(out)@ + tok_text(t@),
    decreases t,
{
    let ghost start = out@;
    match t {
        Token::Ident(s) => {
            push_str(out, s.as_str());
            push_str(out, " ");
        },
        Token::Punct(c, joined) => {
            push_char(out, *c);
            if !*joined {
                push_char(out, ' ');
            }
        },
        Token::Str(s) => {
            push_char(out, '"');
            push_escaped(out, s);
            push_char(out, '"');
            push_char(out, ' ');
        },
        Token::SuffixedStr(s, x) => {
            push_char(out, '"');
            push_escaped(out, s);
            push_char(out, '"');
            push_str(out, x.as_str());
            push_str(out, " ");
        },
        Token::Lit(_, s) => {
            push_str(out, s.as_str());
            push_str(out, " ");
        },
        Token::Group(d, ts) => {
            match d {
                Delim::Paren => push_str(out, "("),
                Delim::Brace => push_str(out, "{"),
                Delim::Bracket => push_str(out, "["),
                Delim::NoDelim => {},
            }
            proof {
                reveal_strlit("(");
                reveal_strlit("{");
                reveal_strlit("[");
            }
            let ghost mid = out@;
            let mut i: usize = 0;
            while i < ts.len()
                invariant
                    i <= ts@.len(),
                    out@ == mid + tokens_text(ts.deep_view().take(i as int)),
                    decreases_to!(*t => ts),
                decreases ts@.len() - i,
            {
                proof {
                    assert(decreases_to!(ts => ts@[i as int]));
                }
                push_tok_text(out, &ts[i]);
                let ghost v = ts.deep_view();
                assert(v.take(i + 1).subrange(0, i as int) =~= v.take(i as int));
                assert(v.take(i + 1)[i as int] == ts@[i as int]@);
                i = i + 1;
            }
            assert(ts.deep_view().take(ts@.len() as int) =~= ts.deep_view());
            match d {
                Delim::Paren => push_str(out, ")"),
                Delim::Brace => push_str(out, "}"),
                Delim::Bracket => push_str(out, "]"),
                Delim::NoDelim => {},
            }
            proof {
                reveal_strlit(")");
                reveal_strlit("}");
                reveal_strlit("]");
            }
            push_str(out, " ");
            assert(out@ =~= start + (open_text(*d) + tokens_text(ts.deep_view()) + close_text(*d) + " "@));
        },
    }
    proof {
        reveal_strlit(" ");
    }
    assert(out@ =~= start + tok_text(t@));
}

/// The source text of a sequence of token trees.
pub fn tokens_to_text(ts: &Vec<Token>) -> (r: String)
    ensures
        r@ == tokens_text(ts.deep_view()),
{
    let mut out = String::new();
    let mut i: usize = 0;
    while i < ts.len()
        invariant
            i <= ts@.len(),
            out@ == tokens_text(ts.deep_view().take(i as int)),
        decreases ts@.len() - i,
    {
        push_tok_text(&mut out, &ts[i]);
        let ghost v = ts.deep_view();
        assert(v.take(i + 1).subrange(0, i as int) =~= v.take(i as int));
        assert(v.take(i + 1)[i as int] == ts@[i as int]@);
        i = i + 1;
    }
    assert(ts.deep_view().take(ts@.len() as int) =~= ts.deep_view());
    out
}

/// `syn`'s answer when it parses a text as a whole: `None` when it accepts it, else its error's
/// message and the error's debug form (`Error("...")`, as an unwrap prints it).
pub type SynAnswer = Option<(String, String)>;

/// The view of `syn`'s answer.
pub open spec fn answer_view(a: SynAnswer) -> Option<(Seq<char>, Seq<char>)> {
    match a {
        None => None,
        Some((m, d)) => Some((m@, d@)),
    }
}

/// `syn`'s answer on parsing the text as a Rust type (`syn::parse_str::<syn::Type>`).
pub uninterp spec fn syn_type_error(text: Seq<char>) -> Option<(Seq<char>, Seq<char>)>;

/// `syn`'s answer on parsing the text as an attribute's content (`syn::parse_str::<syn::Meta>`).
pub uninterp spec fn syn_meta_error(text: Seq<char>) -> Option<(Seq<char>, Seq<char>)>;

/// `syn`'s answer on parsing the text as a braced list of named fields
/// (`syn::parse_str::<syn::FieldsNamed>`).
pub uninterp spec fn syn_fields_named_error(text: Seq<char>) -> Option<(Seq<char>, Seq<char>)>;

/// Asks `syn::parse_str::<syn::Type>` about the text: nothing when it is a type, else the error's
/// message and debug form; the answer depends on the text alone.
#[verifier::external_body]
pub(crate) fn type_error(text: &str) -> (r: SynAnswer)
    ensures
        answer_view(r) == syn_type_error(text@),
{
    match syn::parse_str::<syn::Type>(text) {
        Ok(_) => None,
        Err(e) => Some((e.to_string(), format!("{:?}", e))),
    }
}

/// Asks `syn::parse_str::<syn::Meta>` about the text: nothing when it is an attribute's content,
/// else the error's message and debug form; the answer depends on the text alone.
#[verifier::external_body]
pub(crate) fn meta_error(text: &str) -> (r: SynAnswer)
    ensures
        answer_view(r) == syn_meta_error(text@),
{
    match syn::parse_str::<syn::Meta>(text) {
        Ok(_) => None,
        Err(e) => Some((e.to_string(), format!("{:?}", e))),
    }
}

/// Asks `syn::parse_str::<syn::FieldsNamed>` about the text: nothing when it is a braced list of
/// named fields, else the error's message and debug form; the answer depends on the text alone.
#[verifier::external_body]
pub(crate) fn fields_named_error(text: &str) -> (r: SynAnswer)
    ensures
        answer_view(r) == syn_fields_named_error(text@),
{
    match syn::parse_str::<syn::FieldsNamed>(text) {
        Ok(_) => None,
        Err(e) => Some((e.to_string(), format!("{:?}", e))),
    }
}

} // verus!
