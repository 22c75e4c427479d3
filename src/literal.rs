use vstd::prelude::*;
use vstd::string::StrSliceExecFns;
use crate::outside::{is_whitespace, is_whitespace_char};
use crate::token::{token_text, tokens_view, Token, TokenView};

verus! {

/// `s` with its whitespace characters taken out.
pub open spec fn strip_whitespace(s: Seq<char>) -> Seq<char>
    decreases s.len(),
{
    if s.len() == 0 {
        seq![]
    } else if is_whitespace_char(s.last()) {
        strip_whitespace(s.drop_last())
    } else {
        strip_whitespace(s.drop_last()).push(s.last())
    }
}

/// The text of a token sequence with all whitespace taken out.
pub open spec fn literal_text(ts: Seq<TokenView>) -> Seq<char>
    decreases ts.len(),
{
    if ts.len() == 0 {
        seq![]
    } else {
        literal_text(ts.drop_last()) + strip_whitespace(token_text(ts.last()))
    }
}

/// The text of `tokens` with all whitespace taken out.
pub fn stripped_text(tokens: &Vec<Token>) -> (r: Vec<char>)
    ensures
        r@ == literal_text(tokens_view(tokens@)),
{
    let ghost ts = tokens_view(tokens@);
    let mut out: Vec<char> = Vec::new();
    let mut i: usize = 0;
    while i < tokens.len()
        invariant
            i <= tokens.len(),
            ts == tokens_view(tokens@),
            out@ == literal_text(ts.subrange(0, i as int)),
        decreases tokens.len() - i,
    {
        let text = tokens[i].text();
        let s = text.as_str();
        let n = s.unicode_len();
        let ghost done = out@;
        let mut j: usize = 0;
        while j < n
            invariant
                j <= n,
                n == s@.len(),
                s@ == token_text(ts[i as int]),
                out@ == done + strip_whitespace(s@.subrange(0, j as int)),
            decreases n - j,
        {
            let c = s.get_char(j);
            assert(s@.subrange(0, j + 1).drop_last() =~= s@.subrange(0, j as int));
            if !is_whitespace(c) {
                out.push(c);
            }
            j = j + 1;
        }
        assert(s@.subrange(0, n as int) =~= s@);
        assert(ts.subrange(0, i + 1).drop_last() =~= ts.subrange(0, i as int));
        i = i + 1;
    }
    assert(ts.subrange(0, tokens.len() as int) =~= ts);
    out
}

} // verus!
