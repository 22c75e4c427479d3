use vstd::prelude::*;
use vstd::string::StringExecFns;

verus! {

/// Whether a punctuation character is glued to the one that follows it.
#[derive(Clone, Copy, Debug, PartialEq, Eq)]
pub enum Spacing {
    Joint,
    Alone,
}

/// One lexical token of a macro invocation. A group is kept whole, as its text.
#[derive(Debug, PartialEq, Eq)]
pub enum Token {
    Punct(char, Spacing),
    Ident(String),
    Literal(String),
    Group(String),
}

/// The mathematical model of a `Token`.
pub enum TokenView {
    Punct(char, Spacing),
    Ident(Seq<char>),
    Literal(Seq<char>),
    Group(Seq<char>),
}

impl View for Token {
    type V = TokenView;

    open spec fn view(&self) -> TokenView {
        match self {
            Token::Punct(c, s) => TokenView::Punct(*c, *s),
            Token::Ident(s) => TokenView::Ident(s@),
            Token::Literal(s) => TokenView::Literal(s@),
            Token::Group(s) => TokenView::Group(s@),
        }
    }
}

/// The models of a sequence of tokens.
pub open spec fn tokens_view(v: Seq<Token>) -> Seq<TokenView> {
    v.map_values(|t: Token| t@)
}

/// The text of one token, as the compiler would print it.
pub open spec fn token_text(t: TokenView) -> Seq<char> {
    match t {
        TokenView::Punct(c, _) => seq![c],
        TokenView::Ident(s) => s,
        TokenView::Literal(s) => s,
        TokenView::Group(s) => s,
    }
}

/// The path `prefix :: name`.
pub open spec fn path_spec(prefix: Seq<TokenView>, name: Seq<char>) -> Seq<TokenView> {
    prefix + seq![
        TokenView::Punct(':', Spacing::Joint),
        TokenView::Punct(':', Spacing::Alone),
        TokenView::Ident(name),
    ]
}

impl Token {
    /// A copy of the token.
    pub fn copy(&self) -> (r: Token)
        ensures
            r@ == self@,
    {
        match self {
            Token::Punct(c, s) => Token::Punct(*c, *s),
            Token::Ident(s) => Token::Ident(s.clone()),
            Token::Literal(s) => Token::Literal(s.clone()),
            Token::Group(s) => Token::Group(s.clone()),
        }
    }

    /// The text of the token.
    pub fn text(&self) -> (r: String)
        ensures
            r@ == token_text(self@),
    {
        match self {
            Token::Punct(c, _) => char_string(*c),
            Token::Ident(s) => s.clone(),
            Token::Literal(s) => s.clone(),
            Token::Group(s) => s.clone(),
        }
    }
}

/// Relies on `char::to_string`: the string that holds just `c`.
#[verifier::external_body]
fn char_string(c: char) -> (r: String)
    ensures
        r@ == seq![c],
{
    c.to_string()
}

/// Appends a copy of each token of `src` to `dst`.
pub fn extend_tokens(dst: &mut Vec<Token>, src: &Vec<Token>)
    ensures
        tokens_view(final(dst)@) == tokens_view(old(dst)@) + tokens_view(src@),
{
    let ghost start = tokens_view(dst@);
    let mut i: usize = 0;
    while i < src.len()
        invariant
            i <= src.len(),
            tokens_view(dst@) == start + tokens_view(src@.subrange(0, i as int)),
        decreases src.len() - i,
    {
        let t = src[i].copy();
        let ghost before = dst@;
        dst.push(t);
        proof {
            assert(tokens_view(dst@) =~= tokens_view(before).push(t@));
            assert(tokens_view(src@.subrange(0, i + 1)) =~= tokens_view(src@.subrange(0, i as int)).push(src@[i as int]@));
            assert(tokens_view(dst@) =~= start + tokens_view(src@.subrange(0, i + 1)));
        }
        i = i + 1;
    }
    assert(src@.subrange(0, src.len() as int) =~= src@);
}

/// Appends the path `prefix :: name` to `dst`.
pub fn push_path(dst: &mut Vec<Token>, prefix: &Vec<Token>, name: &str)
    ensures
        tokens_view(final(dst)@) == tokens_view(old(dst)@) + path_spec(tokens_view(prefix@), name@),
{
    extend_tokens(dst, prefix);
    let ghost mid = tokens_view(dst@);
    dst.push(Token::Punct(':', Spacing::Joint));
    dst.push(Token::Punct(':', Spacing::Alone));
    dst.push(Token::Ident(String::from_str(name)));
    assert(tokens_view(dst@) =~= mid + seq![
        TokenView::Punct(':', Spacing::Joint),
        TokenView::Punct(':', Spacing::Alone),
        TokenView::Ident(name@),
    ]);
}

/// Appends one punctuation character that stands alone.
pub fn push_punct(dst: &mut Vec<Token>, c: char)
    ensures
        tokens_view(final(dst)@) == tokens_view(old(dst)@).push(TokenView::Punct(c, Spacing::Alone)),
{
    dst.push(Token::Punct(c, Spacing::Alone));
    assert(tokens_view(dst@) =~= tokens_view(old(dst)@).push(TokenView::Punct(c, Spacing::Alone)));
}

} // verus!
