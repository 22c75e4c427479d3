use vstd::prelude::*;
use crate::bits::{encode, TypenumUint};
use crate::token::{path_spec, push_path, push_punct, tokens_view, Spacing, Token, TokenView};

verus! {

/// The type expression for a bit-list, every name qualified by `ns`.
pub open spec fn emit(t: TypenumUint, ns: Seq<TokenView>) -> Seq<TokenView>
    decreases t,
{
    match t {
        TypenumUint::Term => path_spec(ns, "UTerm"@),
        TypenumUint::Lsb(high, bit) => path_spec(ns, "UInt"@) + seq![
            TokenView::Punct('<', Spacing::Alone),
        ] + emit(*high, ns) + seq![TokenView::Punct(',', Spacing::Alone)] + path_spec(
            ns,
            if bit {
                "B1"@
            } else {
                "B0"@
            },
        ) + seq![TokenView::Punct('>', Spacing::Alone)],
    }
}

/// One piece of an emitted expression: a point where the namespace path goes,
/// or a token that stands there whatever the namespace.
pub enum Piece {
    Qualifier,
    Fixed(TokenView),
}

/// The tokens of a sequence of pieces, with `ns` at every qualification point.
pub open spec fn fill(s: Seq<Piece>, ns: Seq<TokenView>) -> Seq<TokenView>
    decreases s.len(),
{
    if s.len() == 0 {
        seq![]
    } else {
        let first = match s[0] {
            Piece::Qualifier => ns,
            Piece::Fixed(t) => seq![t],
        };
        first + fill(s.drop_first(), ns)
    }
}

/// The pieces of `ns :: name`.
pub open spec fn path_skeleton(name: Seq<char>) -> Seq<Piece> {
    seq![
        Piece::Qualifier,
        Piece::Fixed(TokenView::Punct(':', Spacing::Joint)),
        Piece::Fixed(TokenView::Punct(':', Spacing::Alone)),
        Piece::Fixed(TokenView::Ident(name)),
    ]
}

/// The shape of the expression for a bit-list, which no namespace changes.
pub open spec fn skeleton(t: TypenumUint) -> Seq<Piece>
    decreases t,
{
    match t {
        TypenumUint::Term => path_skeleton("UTerm"@),
        TypenumUint::Lsb(high, bit) => path_skeleton("UInt"@) + seq![
            Piece::Fixed(TokenView::Punct('<', Spacing::Alone)),
        ] + skeleton(*high) + seq![Piece::Fixed(TokenView::Punct(',', Spacing::Alone))]
            + path_skeleton(
            if bit {
                "B1"@
            } else {
                "B0"@
            },
        ) + seq![Piece::Fixed(TokenView::Punct('>', Spacing::Alone))],
    }
}

proof fn lemma_fill_append(a: Seq<Piece>, b: Seq<Piece>, ns: Seq<TokenView>)
    ensures
        fill(a + b, ns) == fill(a, ns) + fill(b, ns),
    decreases a.len(),
{
    if a.len() == 0 {
        assert(a + b =~= b);
        assert(fill(a, ns) + fill(b, ns) =~= fill(b, ns));
    } else {
        assert((a + b).drop_first() =~= a.drop_first() + b);
        lemma_fill_append(a.drop_first(), b, ns);
        assert((a + b)[0] == a[0]);
        let first = match a[0] {
            Piece::Qualifier => ns,
            Piece::Fixed(t) => seq![t],
        };
        assert(fill(a + b, ns) =~= first + (fill(a.drop_first(), ns) + fill(b, ns)));
    }
}

proof fn lemma_fill_path(name: Seq<char>, ns: Seq<TokenView>)
    ensures
        fill(path_skeleton(name), ns) == path_spec(ns, name),
{
    let s = path_skeleton(name);
    let s1 = s.drop_first();
    let s2 = s1.drop_first();
    let s3 = s2.drop_first();
    let s4 = s3.drop_first();
    assert(s4 =~= Seq::<Piece>::empty());
    assert(fill(s4, ns) == Seq::<TokenView>::empty());
    assert(fill(s3, ns) == seq![TokenView::Ident(name)] + fill(s4, ns));
    assert(fill(s2, ns) == seq![TokenView::Punct(':', Spacing::Alone)] + fill(s3, ns));
    assert(fill(s1, ns) == seq![TokenView::Punct(':', Spacing::Joint)] + fill(s2, ns));
    assert(fill(s, ns) == ns + fill(s1, ns));
    assert(fill(s, ns) =~= path_spec(ns, name));
}

proof fn lemma_fill_fixed(t: TokenView, ns: Seq<TokenView>)
    ensures
        fill(seq![Piece::Fixed(t)], ns) == seq![t],
{
    let s = seq![Piece::Fixed(t)];
    assert(s.drop_first() =~= Seq::<Piece>::empty());
    assert(fill(s.drop_first(), ns) == Seq::<TokenView>::empty());
    assert(fill(s, ns) == seq![t] + fill(s.drop_first(), ns));
    assert(fill(s, ns) =~= seq![t]);
}

/// The namespace enters the emitted expression only at its qualification points:
/// for every namespace, the expression is the one fixed skeleton of the bit-list
/// with that namespace put at each such point.
pub proof fn lemma_namespace_only_at_qualifiers(t: TypenumUint, ns: Seq<TokenView>)
    ensures
        emit(t, ns) == fill(skeleton(t), ns),
    decreases t,
{
    match t {
        TypenumUint::Term => {
            lemma_fill_path("UTerm"@, ns);
        },
        TypenumUint::Lsb(high, bit) => {
            let name: Seq<char> = if bit {
                "B1"@
            } else {
                "B0"@
            };
            let lt = TokenView::Punct('<', Spacing::Alone);
            let comma = TokenView::Punct(',', Spacing::Alone);
            let gt = TokenView::Punct('>', Spacing::Alone);
            let s1 = path_skeleton("UInt"@);
            let s2 = seq![Piece::Fixed(lt)];
            let s3 = skeleton(*high);
            let s4 = seq![Piece::Fixed(comma)];
            let s5 = path_skeleton(name);
            let s6 = seq![Piece::Fixed(gt)];
            lemma_namespace_only_at_qualifiers(*high, ns);
            lemma_fill_path("UInt"@, ns);
            lemma_fill_path(name, ns);
            lemma_fill_fixed(lt, ns);
            lemma_fill_fixed(comma, ns);
            lemma_fill_fixed(gt, ns);
            lemma_fill_append(s1, s2, ns);
            lemma_fill_append(s1 + s2, s3, ns);
            lemma_fill_append(s1 + s2 + s3, s4, ns);
            lemma_fill_append(s1 + s2 + s3 + s4, s5, ns);
            lemma_fill_append(s1 + s2 + s3 + s4 + s5, s6, ns);
        },
    }
}

impl TypenumUint {
    /// Appends the type expression for `self` to `ts`, each name qualified by `prefix`.
    pub fn write_ts(&self, prefix: &Vec<Token>, ts: &mut Vec<Token>)
        ensures
            tokens_view(final(ts)@) == tokens_view(old(ts)@) + emit(*self, tokens_view(prefix@)),
        decreases self,
    {
        let ghost ns = tokens_view(prefix@);
        let ghost start = tokens_view(ts@);
        match self {
            TypenumUint::Term => {
                push_path(ts, prefix, "UTerm");
            },
            TypenumUint::Lsb(high, bit) => {
                push_path(ts, prefix, "UInt");
                push_punct(ts, '<');
                high.write_ts(prefix, ts);
                push_punct(ts, ',');
                if *bit {
                    push_path(ts, prefix, "B1");
                } else {
                    push_path(ts, prefix, "B0");
                }
                push_punct(ts, '>');
                assert(tokens_view(ts@) =~= start + emit(*self, ns));
            },
        }
    }
}

/// The type expression for the integer `x`, each name qualified by `prefix`.
pub fn uuid_to_tokenstream(x: u128, prefix: &Vec<Token>) -> (r: Vec<Token>)
    ensures
        tokens_view(r@) == emit(encode(x as nat), tokens_view(prefix@)),
{
    let mut result: Vec<Token> = Vec::new();
    TypenumUint::from_u128(x).write_ts(prefix, &mut result);
    assert(tokens_view(result@) =~= emit(encode(x as nat), tokens_view(prefix@)));
    result
}

} // verus!
