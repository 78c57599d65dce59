//! A flat model of generated code: identifiers, punctuation, literals, and
//! delimiters, where a delimited group is an `Open` token, its contents, and
//! the matching `Close` token.
use vstd::prelude::*;

verus! {

/// The delimiter of a group of tokens.
#[derive(Clone, Copy, PartialEq, Eq, Debug)]
pub enum Delim {
    /// `( ... )`
    Paren,
    /// `{ ... }`
    Brace,
    /// `[ ... ]`
    Bracket,
    /// A group without visible delimiters.
    Invisible,
}

/// Whether a punctuation character is joined to the one that follows it.
#[derive(Clone, Copy, PartialEq, Eq, Debug)]
pub enum Spacing {
    Alone,
    Joint,
}

/// One token of a code fragment.
#[derive(Clone, Debug)]
pub enum TokenTree {
    /// An identifier or keyword.
    Ident(String),
    /// A punctuation character.
    Punct(char, Spacing),
    /// A literal, written as its source text (`0`, `'a'`, `"x"`).
    Lit(String),
    /// A string literal whose value is the given text.
    Str(String),
    /// Opens a group.
    Open(Delim),
    /// Closes a group.
    Close(Delim),
}

/// The mathematical value of a token.
pub enum Tok {
    Ident(Seq<char>),
    Punct(char, Spacing),
    Lit(Seq<char>),
    Str(Seq<char>),
    Open(Delim),
    Close(Delim),
}

impl View for TokenTree {
    type V = Tok;

    open spec fn view(&self) -> Tok {
        match self {
            TokenTree::Ident(s) => Tok::Ident(s@),
            TokenTree::Punct(c, sp) => Tok::Punct(*c, *sp),
            TokenTree::Lit(s) => Tok::Lit(s@),
            TokenTree::Str(s) => Tok::Str(s@),
            TokenTree::Open(d) => Tok::Open(*d),
            TokenTree::Close(d) => Tok::Close(*d),
        }
    }
}

/// The value of a sequence of tokens.
pub open spec fn toks(v: Seq<TokenTree>) -> Seq<Tok> {
    v.map_values(|t: TokenTree| t@)
}

/// The value of a token vector.
pub open spec fn frag(v: &Vec<TokenTree>) -> Seq<Tok> {
    toks(v@)
}

/// A punctuation character that stands alone.
pub open spec fn alone(c: char) -> Tok {
    Tok::Punct(c, Spacing::Alone)
}

/// `::`
pub open spec fn path_sep() -> Seq<Tok> {
    seq![Tok::Punct(':', Spacing::Joint), Tok::Punct(':', Spacing::Alone)]
}

/// `inner` enclosed in the delimiter `d`.
pub open spec fn group(d: Delim, inner: Seq<Tok>) -> Seq<Tok> {
    seq![Tok::Open(d)] + inner + seq![Tok::Close(d)]
}

/// `::seg`
pub open spec fn seg(s: Seq<char>) -> Seq<Tok> {
    path_sep().push(Tok::Ident(s))
}

/// The items joined by a `,` between each two.
pub open spec fn comma_sep(items: Seq<Seq<Tok>>) -> Seq<Tok>
    decreases items.len(),
{
    if items.len() == 0 {
        seq![]
    } else if items.len() == 1 {
        items[0]
    } else {
        comma_sep(items.drop_last()) + seq![alone(',')] + items.last()
    }
}

/// The items one after another.
pub open spec fn concat(items: Seq<Seq<Tok>>) -> Seq<Tok>
    decreases items.len(),
{
    if items.len() == 0 {
        seq![]
    } else {
        concat(items.drop_last()) + items.last()
    }
}

pub proof fn lemma_toks_push(v: Seq<TokenTree>, t: TokenTree)
    ensures
        toks(v.push(t)) == toks(v).push(t@),
{
    assert(toks(v.push(t)) =~= toks(v).push(t@));
}

pub proof fn lemma_toks_add(a: Seq<TokenTree>, b: Seq<TokenTree>)
    ensures
        toks(a + b) == toks(a) + toks(b),
{
    assert(toks(a + b) =~= toks(a) + toks(b));
}

/// Extending a list by one item extends its comma-joined form by a comma
/// (unless it was empty) and the item.
pub proof fn lemma_comma_sep_step(items: Seq<Seq<Tok>>, i: int)
    requires
        0 <= i < items.len(),
    ensures
        comma_sep(items.subrange(0, i + 1)) == if i == 0 {
            items[0]
        } else {
            comma_sep(items.subrange(0, i)) + seq![alone(',')] + items[i]
        },
{
    let next = items.subrange(0, i + 1);
    assert(next.drop_last() =~= items.subrange(0, i));
}

/// Extending a list by one item extends its concatenation by the item.
pub proof fn lemma_concat_step(items: Seq<Seq<Tok>>, i: int)
    requires
        0 <= i < items.len(),
    ensures
        concat(items.subrange(0, i + 1)) == concat(items.subrange(0, i)) + items[i],
{
    let next = items.subrange(0, i + 1);
    assert(next.drop_last() =~= items.subrange(0, i));
}

/// The concatenation of a list is that of its first `j` items followed by
/// that of the rest.
pub proof fn lemma_concat_split(items: Seq<Seq<Tok>>, j: int)
    requires
        0 <= j <= items.len(),
    ensures
        concat(items) == concat(items.subrange(0, j)) + concat(items.subrange(j, items.len() as int)),
    decreases items.len(),
{
    if j == items.len() {
        assert(items.subrange(0, j) =~= items);
        assert(items.subrange(j, items.len() as int) =~= Seq::<Seq<Tok>>::empty());
        assert(concat(items) + concat(Seq::<Seq<Tok>>::empty()) =~= concat(items));
    } else {
        let n = items.len() as int;
        lemma_concat_split(items.drop_last(), j);
        assert(items.drop_last().subrange(0, j) =~= items.subrange(0, j));
        let rest = items.subrange(j, n);
        assert(rest.drop_last() =~= items.drop_last().subrange(j, n - 1));
        assert(rest.last() == items.last());
        assert(concat(items) =~= concat(items.subrange(0, j)) + concat(rest));
    }
}

impl TokenTree {
    /// An identifier token.
    pub fn ident(s: &str) -> (r: TokenTree)
        ensures
            r@ == Tok::Ident(s@),
    {
        TokenTree::Ident(s.to_string())
    }

    /// A punctuation token that stands alone.
    pub fn punct(c: char) -> (r: TokenTree)
        ensures
            r@ == alone(c),
    {
        TokenTree::Punct(c, Spacing::Alone)
    }

    /// A token with the same value.
    pub fn duplicate(&self) -> (r: TokenTree)
        ensures
            r@ == self@,
    {
        match self {
            TokenTree::Ident(s) => TokenTree::Ident(s.clone()),
            TokenTree::Punct(c, sp) => TokenTree::Punct(*c, *sp),
            TokenTree::Lit(s) => TokenTree::Lit(s.clone()),
            TokenTree::Str(s) => TokenTree::Str(s.clone()),
            TokenTree::Open(d) => TokenTree::Open(*d),
            TokenTree::Close(d) => TokenTree::Close(*d),
        }
    }
}

/// Appends one token.
pub fn push_tok(out: &mut Vec<TokenTree>, t: TokenTree)
    ensures
        frag(final(out)) == frag(old(out)).push(t@),
{
    proof {
        lemma_toks_push(old(out)@, t);
    }
    out.push(t);
}

/// Appends an identifier.
pub fn push_ident(out: &mut Vec<TokenTree>, s: &str)
    ensures
        frag(final(out)) == frag(old(out)).push(Tok::Ident(s@)),
{
    push_tok(out, TokenTree::ident(s));
}

/// Appends a punctuation character that stands alone.
pub fn push_punct(out: &mut Vec<TokenTree>, c: char)
    ensures
        frag(final(out)) == frag(old(out)).push(alone(c)),
{
    push_tok(out, TokenTree::punct(c));
}

/// Appends `::`.
pub fn push_path_sep(out: &mut Vec<TokenTree>)
    ensures
        frag(final(out)) == frag(old(out)) + path_sep(),
{
    push_tok(out, TokenTree::Punct(':', Spacing::Joint));
    push_tok(out, TokenTree::Punct(':', Spacing::Alone));
    assert(frag(final(out)) =~= frag(old(out)) + path_sep());
}

/// Appends `::seg`.
pub fn push_seg(out: &mut Vec<TokenTree>, seg_name: &str)
    ensures
        frag(final(out)) == frag(old(out)) + seg(seg_name@),
{
    push_path_sep(out);
    push_ident(out, seg_name);
    assert(frag(final(out)) =~= frag(old(out)) + seg(seg_name@));
}

/// Appends the tokens of `inner` enclosed in the delimiter `d`.
pub fn push_group(out: &mut Vec<TokenTree>, d: Delim, inner: Vec<TokenTree>)
    ensures
        frag(final(out)) == frag(old(out)) + group(d, frag(&inner)),
{
    push_tok(out, TokenTree::Open(d));
    push_all(out, inner);
    push_tok(out, TokenTree::Close(d));
    assert(frag(final(out)) =~= frag(old(out)) + group(d, frag(&inner)));
}

/// Appends all tokens of `more`.
pub fn push_all(out: &mut Vec<TokenTree>, more: Vec<TokenTree>)
    ensures
        frag(final(out)) == frag(old(out)) + frag(&more),
{
    let mut more = more;
    proof {
        lemma_toks_add(old(out)@, more@);
    }
    out.append(&mut more);
}

/// Appends a copy of each token of `more`.
pub fn push_copies(out: &mut Vec<TokenTree>, more: &Vec<TokenTree>)
    ensures
        frag(final(out)) == frag(old(out)) + frag(more),
{
    let ghost start = frag(out);
    let mut i: usize = 0;
    while i < more.len()
        invariant
            0 <= i <= more.len(),
            frag(out) == start + toks(more@.subrange(0, i as int)),
        decreases more.len() - i,
    {
        push_tok(out, more[i].duplicate());
        proof {
            lemma_toks_push(more@.subrange(0, i as int), more@[i as int]);
            assert(more@.subrange(0, i as int).push(more@[i as int]) =~= more@.subrange(
                0,
                i + 1,
            ));
        }
        i = i + 1;
    }
    assert(more@.subrange(0, more.len() as int) =~= more@);
}

/// `#[automatically_derived]`
pub open spec fn auto_derived() -> Seq<Tok> {
    seq![alone('#')] + group(Delim::Bracket, seq![Tok::Ident("automatically_derived"@)])
}

/// `->`
pub open spec fn arrow() -> Seq<Tok> {
    seq![Tok::Punct('-', Spacing::Joint), alone('>')]
}

/// Appends `#[automatically_derived]`.
pub fn push_auto_derived(out: &mut Vec<TokenTree>)
    ensures
        frag(final(out)) == frag(old(out)) + auto_derived(),
{
    push_punct(out, '#');
    let mut inner: Vec<TokenTree> = Vec::new();
    push_ident(&mut inner, "automatically_derived");
    push_group(out, Delim::Bracket, inner);
    assert(frag(final(out)) =~= frag(old(out)) + auto_derived());
}

/// Appends `->`.
pub fn push_arrow(out: &mut Vec<TokenTree>)
    ensures
        frag(final(out)) == frag(old(out)) + arrow(),
{
    push_tok(out, TokenTree::Punct('-', Spacing::Joint));
    push_punct(out, '>');
    assert(frag(final(out)) =~= frag(old(out)) + arrow());
}

} // verus!
