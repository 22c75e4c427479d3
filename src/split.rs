use vstd::prelude::*;
use vstd::string::StringExecFns;
use crate::token::{tokens_view, Spacing, Token, TokenView};

verus! {

/// The token that ends the value segment: a `|` at the top level.
pub open spec fn is_separator(t: TokenView) -> bool {
    match t {
        TokenView::Punct(c, _) => c == '|',
        _ => false,
    }
}

/// The position of the first separator, or the length when there is none.
pub open spec fn first_separator(ts: Seq<TokenView>) -> nat
    decreases ts.len(),
{
    if ts.len() == 0 {
        0
    } else if is_separator(ts[0]) {
        0
    } else {
        1 + first_separator(ts.drop_first())
    }
}

/// The tokens before the first separator.
pub open spec fn value_segment(ts: Seq<TokenView>) -> Seq<TokenView> {
    ts.subrange(0, first_separator(ts) as int)
}

/// The path `::typenum`.
pub open spec fn default_prefix() -> Seq<TokenView> {
    seq![
        TokenView::Punct(':', Spacing::Joint),
        TokenView::Punct(':', Spacing::Alone),
        TokenView::Ident("typenum"@),
    ]
}

/// The tokens after the first separator, or `::typenum` where there are none.
pub open spec fn namespace_segment(ts: Seq<TokenView>) -> Seq<TokenView> {
    let n = first_separator(ts);
    if n + 1 < ts.len() {
        ts.subrange(n as int + 1, ts.len() as int)
    } else {
        default_prefix()
    }
}

proof fn lemma_first_separator_at(ts: Seq<TokenView>, i: nat)
    requires
        i <= ts.len(),
        forall|k: int| 0 <= k < i ==> !is_separator(#[trigger] ts[k]),
        i < ts.len() ==> is_separator(ts[i as int]),
    ensures
        first_separator(ts) == i,
    decreases i,
{
    if i > 0 {
        assert(!is_separator(ts[0]));
        let rest = ts.drop_first();
        assert forall|k: int| 0 <= k < i - 1 implies !is_separator(#[trigger] rest[k]) by {
            assert(rest[k] == ts[k + 1]);
        };
        if i < ts.len() {
            assert(rest[i - 1] == ts[i as int]);
        }
        lemma_first_separator_at(rest, (i - 1) as nat);
    }
}

fn is_separator_token(t: &Token) -> (r: bool)
    ensures
        r == is_separator(t@),
{
    match t {
        Token::Punct(c, _) => *c == '|',
        _ => false,
    }
}

/// Copies of the tokens of `src` from `lo` up to `hi`.
fn copy_range(src: &Vec<Token>, lo: usize, hi: usize) -> (r: Vec<Token>)
    requires
        lo <= hi <= src.len(),
    ensures
        tokens_view(r@) == tokens_view(src@).subrange(lo as int, hi as int),
{
    let mut r: Vec<Token> = Vec::new();
    let mut i: usize = lo;
    while i < hi
        invariant
            lo <= i <= hi <= src.len(),
            tokens_view(r@) =~= tokens_view(src@).subrange(lo as int, i as int),
        decreases hi - i,
    {
        let t = src[i].copy();
        let ghost before = r@;
        r.push(t);
        assert(tokens_view(r@) =~= tokens_view(before).push(t@));
        i = i + 1;
    }
    r
}

/// Splits the arguments of an invocation at the first `|`: the tokens before it,
/// and the namespace path after it, `::typenum` where none is given.
pub fn split_off_prefix(args: Vec<Token>) -> (r: (Vec<Token>, Vec<Token>))
    ensures
        tokens_view(r.0@) == value_segment(tokens_view(args@)),
        tokens_view(r.1@) == namespace_segment(tokens_view(args@)),
{
    let ghost ts = tokens_view(args@);
    let mut n: usize = 0;
    while n < args.len() && !is_separator_token(&args[n])
        invariant
            n <= args.len(),
            ts == tokens_view(args@),
            forall|k: int| 0 <= k < n ==> !is_separator(#[trigger] ts[k]),
        decreases args.len() - n,
    {
        n = n + 1;
    }
    proof {
        lemma_first_separator_at(ts, n as nat);
    }
    let local = copy_range(&args, 0, n);
    if n < args.len() && n + 1 < args.len() {
        let prefix = copy_range(&args, n + 1, args.len());
        (local, prefix)
    } else {
        let mut prefix: Vec<Token> = Vec::new();
        prefix.push(Token::Punct(':', Spacing::Joint));
        prefix.push(Token::Punct(':', Spacing::Alone));
        prefix.push(Token::Ident(String::from_str("typenum")));
        assert(tokens_view(prefix@) =~= default_prefix());
        (local, prefix)
    }
}

} // verus!
