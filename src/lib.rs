//! Type-level UUIDs: a 128-bit identifier written out as a nested
//! `typenum`-style unsigned type, least significant bit outermost.
//!
//! By default every name is qualified by `::typenum`; arguments may end in
//! `| path::to::typenum` to qualify them by that path instead.

pub mod bits;
pub mod emit;
pub mod literal;
pub mod outside;
pub mod split;
pub mod token;

use vstd::prelude::*;
use crate::bits::encode;
use crate::emit::{emit, uuid_to_tokenstream};
use crate::literal::{literal_text, stripped_text};
use crate::outside::{is_v4, new_v4_value, parse_uuid, parsed_uuid};
use crate::split::{namespace_segment, split_off_prefix, value_segment};
use crate::token::{tokens_view, Token, TokenView};

verus! {

/// Why an invocation produced no type.
#[derive(Debug)]
pub enum UuidError {
    /// A fresh UUID was asked for with arguments besides the namespace path.
    ArgumentCount,
    /// The literal is not a UUID; the parser's diagnostic is kept.
    Parse(uuid::Error),
}

/// What the literal generator gives for an invocation: the type of the parsed
/// UUID, or nothing where the literal does not parse.
pub open spec fn literal_result(args: Seq<TokenView>) -> Option<Seq<TokenView>> {
    match parsed_uuid(literal_text(value_segment(args))) {
        Some(x) => Some(emit(encode(x as nat), namespace_segment(args))),
        None => None,
    }
}

/// A fresh random (version 4) UUID as a type. The arguments may hold only a
/// namespace path after `|`.
pub fn uuid_new_v4(args: Vec<Token>) -> (r: Result<Vec<Token>, UuidError>)
    ensures
        r is Err <==> value_segment(tokens_view(args@)).len() > 0,
        r is Err ==> r->Err_0 is ArgumentCount,
        r is Ok ==> exists|x: u128|
            is_v4(x) && tokens_view(r->Ok_0@) == emit(
                encode(x as nat),
                namespace_segment(tokens_view(args@)),
            ),
{
    let (args, prefix) = split_off_prefix(args);
    if args.len() != 0 {
        return Err(UuidError::ArgumentCount);
    }
    let x = new_v4_value();
    let r = uuid_to_tokenstream(x, &prefix);
    assert(is_v4(x) && tokens_view(r@) == emit(encode(x as nat), tokens_view(prefix@)));
    Ok(r)
}

/// The UUID written in the arguments, as a type. Whitespace in the literal is
/// ignored; a namespace path may follow after `|`.
pub fn uuid(args: Vec<Token>) -> (r: Result<Vec<Token>, UuidError>)
    ensures
        match literal_result(tokens_view(args@)) {
            Some(ts) => r is Ok && tokens_view(r->Ok_0@) == ts,
            None => r is Err && r->Err_0 is Parse,
        },
{
    let (args, prefix) = split_off_prefix(args);
    let text = stripped_text(&args);
    match parse_uuid(&text) {
        Ok(x) => Ok(uuid_to_tokenstream(x, &prefix)),
        Err(e) => Err(UuidError::Parse(e)),
    }
}

/// The literal generator is a function of the literal's text without its
/// whitespace and of the namespace path: two invocations that agree on both,
/// such as the same literal given twice, give the same result.
pub proof fn lemma_literal_deterministic(a: Seq<TokenView>, b: Seq<TokenView>)
    requires
        literal_text(value_segment(a)) == literal_text(value_segment(b)),
        namespace_segment(a) == namespace_segment(b),
    ensures
        literal_result(a) == literal_result(b),
{
}

} // verus!
