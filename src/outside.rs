use vstd::prelude::*;

verus! {

#[verifier::external_type_specification]
#[verifier::external_body]
pub struct ExUuidError(uuid::Error);

/// The integer that `uuid`'s parser reads from a text, if it accepts the text.
pub uninterp spec fn parsed_uuid(s: Seq<char>) -> Option<u128>;

/// Whether a character has Unicode's `White_Space` property.
pub uninterp spec fn is_whitespace_char(c: char) -> bool;

/// A value that `Uuid::new_v4` can give: version nibble 4 and the RFC 4122 variant.
pub open spec fn is_v4(x: u128) -> bool {
    x & 0xF000_C000_0000_0000_0000u128 == 0x4000_8000_0000_0000_0000u128
}

/// Relies on `uuid::Uuid::parse_str` (read back with `Uuid::as_u128`): accepts
/// or refuses the text and reads the integer from it, a function of the text alone.
#[verifier::external_body]
pub(crate) fn parse_uuid(s: &Vec<char>) -> (r: Result<u128, uuid::Error>)
    ensures
        match r {
            Ok(x) => parsed_uuid(s@) == Some(x),
            Err(_) => parsed_uuid(s@) is None,
        },
{
    let text: String = s.iter().collect();
    uuid::Uuid::parse_str(&text).map(|u| u.as_u128())
}

/// Relies on `uuid::Uuid::new_v4` (read with `Uuid::as_u128`): random bits, with
/// the version and variant fields set as for every version 4 UUID.
#[verifier::external_body]
pub(crate) fn new_v4_value() -> (r: u128)
    ensures
        is_v4(r),
{
    uuid::Uuid::new_v4().as_u128()
}

/// Relies on `char::is_whitespace`: whether `c` has the `White_Space` property.
#[verifier::external_body]
pub(crate) fn is_whitespace(c: char) -> (r: bool)
    ensures
        r == is_whitespace_char(c),
{
    c.is_whitespace()
}

} // verus!
