//! The items that the derive-style macros read: a type definition and its named fields.
use vstd::prelude::*;
use crate::tokens::{Token, Tok, lemma_group_view, copy_tokens, extend, push_tok, punct};

verus! {

broadcast use lemma_group_view;

/// A named field of a struct.
#[derive(Debug)]
pub struct FieldDef {
    /// The tokens of its outer attributes (each `# [ ... ]`), one after the other.
    pub attrs: Vec<Token>,
    /// The tokens of its visibility (none for a private field).
    pub vis: Vec<Token>,
    /// Its name.
    pub name: String,
    /// The tokens of its type.
    pub ty: Vec<Token>,
}

/// The value of a field.
pub struct FieldV {
    pub attrs: Seq<Tok>,
    pub vis: Seq<Tok>,
    pub name: Seq<char>,
    pub ty: Seq<Tok>,
}

impl DeepView for FieldDef {
    type V = FieldV;

    open spec fn deep_view(&self) -> FieldV {
        FieldV {
            attrs: self.attrs.deep_view(),
            vis: self.vis.deep_view(),
            name: self.name@,
            ty: self.ty.deep_view(),
        }
    }
}

/// A type definition (struct, enum or union) as the input of a derive or attribute macro.
#[derive(Debug)]
pub struct ItemDef {
    /// The tokens of its outer attributes.
    pub attrs: Vec<Token>,
    /// The tokens of its visibility.
    pub vis: Vec<Token>,
    /// Its name.
    pub name: String,
    /// The tokens of its generic parameters, angle brackets included (none when it has none).
    pub generics: Vec<Token>,
    /// The tokens of its `where` clause (none when it has none).
    pub where_clause: Vec<Token>,
    /// Its fields, when it is a struct with named fields.
    pub fields: Option<Vec<FieldDef>>,
}

/// The value of a type definition.
pub struct ItemV {
    pub attrs: Seq<Tok>,
    pub vis: Seq<Tok>,
    pub name: Seq<char>,
    pub generics: Seq<Tok>,
    pub where_clause: Seq<Tok>,
    pub fields: Option<Seq<FieldV>>,
}

impl DeepView for ItemDef {
    type V = ItemV;

    open spec fn deep_view(&self) -> ItemV {
        ItemV {
            attrs: self.attrs.deep_view(),
            vis: self.vis.deep_view(),
            name: self.name@,
            generics: self.generics.deep_view(),
            where_clause: self.where_clause.deep_view(),
            fields: match self.fields {
                Some(fs) => Some(fs.deep_view()),
                None => None,
            },
        }
    }
}

/// The tokens of a field, as it is written in its struct: attributes, visibility, name, `:`, type.
pub open spec fn field_tokens(f: FieldV) -> Seq<Tok> {
    f.attrs + f.vis + seq![Tok::Ident(f.name), Tok::Punct(':', false)] + f.ty
}

/// The tokens of a field.
pub fn field_to_tokens(f: &FieldDef) -> (r: Vec<Token>)
    ensures
        r.deep_view() == field_tokens(f.deep_view()),
{
    let mut r = copy_tokens(&f.attrs);
    extend(&mut r, copy_tokens(&f.vis));
    push_tok(&mut r, Token::Ident(f.name.clone()));
    push_tok(&mut r, punct(':'));
    extend(&mut r, copy_tokens(&f.ty));
    r
}

/// Token sequences, one after the other.
pub open spec fn concat_all(parts: Seq<Seq<Tok>>) -> Seq<Tok>
    decreases parts.len(),
{
    if parts.len() == 0 {
        seq![]
    } else {
        concat_all(parts.drop_last()) + parts.last()
    }
}

/// Token sequences, each followed by the separator `sep`.
pub open spec fn terminated(parts: Seq<Seq<Tok>>, sep: Tok) -> Seq<Tok>
    decreases parts.len(),
{
    if parts.len() == 0 {
        seq![]
    } else {
        terminated(parts.drop_last(), sep) + parts.last() + seq![sep]
    }
}

/// Token sequences with the separator `sep` between them.
pub open spec fn separated(parts: Seq<Seq<Tok>>, sep: Tok) -> Seq<Tok>
    decreases parts.len(),
{
    if parts.len() == 0 {
        seq![]
    } else if parts.len() == 1 {
        parts[0]
    } else {
        separated(parts.drop_last(), sep) + seq![sep] + parts.last()
    }
}

/// Appends the token sequences, one after the other.
pub fn append_all(out: &mut Vec<Token>, parts: &Vec<Vec<Token>>)
    ensures
        final(out).deep_view() == old(out).deep_view() + concat_all(parts.deep_view()),
{
    let ghost start = out.deep_view();
    let mut i: usize = 0;
    while i < parts.len()
        invariant
            i <= parts@.len(),
            out.deep_view() == start + concat_all(parts.deep_view().take(i as int)),
        decreases parts@.len() - i,
    {
        extend(out, copy_tokens(&parts[i]));
        assert(parts.deep_view().take(i + 1).drop_last() =~= parts.deep_view().take(i as int));
        assert(out.deep_view() =~= start + concat_all(parts.deep_view().take(i + 1)));
        i = i + 1;
    }
    assert(parts.deep_view().take(parts@.len() as int) =~= parts.deep_view());
}

/// Appends the token sequences, each followed by the punctuation character `sep`.
pub fn append_terminated(out: &mut Vec<Token>, parts: &Vec<Vec<Token>>, sep: char)
    ensures
        final(out).deep_view() == old(out).deep_view() + terminated(parts.deep_view(), Tok::Punct(sep, false)),
{
    let ghost start = out.deep_view();
    let mut i: usize = 0;
    while i < parts.len()
        invariant
            i <= parts@.len(),
            out.deep_view() == start + terminated(parts.deep_view().take(i as int), Tok::Punct(sep, false)),
        decreases parts@.len() - i,
    {
        extend(out, copy_tokens(&parts[i]));
        push_tok(out, punct(sep));
        assert(parts.deep_view().take(i + 1).drop_last() =~= parts.deep_view().take(i as int));
        assert(out.deep_view() =~= start + terminated(parts.deep_view().take(i + 1), Tok::Punct(sep, false)));
        i = i + 1;
    }
    assert(parts.deep_view().take(parts@.len() as int) =~= parts.deep_view());
}

/// Appends the token sequences with the punctuation character `sep` between them.
pub fn append_separated(out: &mut Vec<Token>, parts: &Vec<Vec<Token>>, sep: char)
    ensures
        final(out).deep_view() == old(out).deep_view() + separated(parts.deep_view(), Tok::Punct(sep, false)),
{
    let ghost start = out.deep_view();
    let mut i: usize = 0;
    while i < parts.len()
        invariant
            i <= parts@.len(),
            out.deep_view() == start + separated(parts.deep_view().take(i as int), Tok::Punct(sep, false)),
        decreases parts@.len() - i,
    {
        if i > 0 {
            push_tok(out, punct(sep));
        }
        extend(out, copy_tokens(&parts[i]));
        assert(parts.deep_view().take(i + 1).drop_last() =~= parts.deep_view().take(i as int));
        assert(out.deep_view() =~= start + separated(parts.deep_view().take(i + 1), Tok::Punct(sep, false)));
        i = i + 1;
    }
    assert(parts.deep_view().take(parts@.len() as int) =~= parts.deep_view());
}

} // verus!
