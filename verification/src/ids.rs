//! Identifiers: every user, world, location, message and friendship is named
//! by a 128-bit UUID, held here as its big-endian `u128` value.

use vstd::prelude::*;

verus! {

/// What `uuid::Uuid::parse_str` makes of `text`: the UUID's value, or the
/// text of the parse error.
pub uninterp spec fn uuid_parse(text: Seq<char>) -> Result<u128, Seq<char>>;

/// Calls `uuid::Uuid::parse_str` (the `FromStr` of `Uuid`) and takes the
/// value by `Uuid::as_u128`; on failure, the error's `Display` text. The
/// contract claims that the outcome is a function of `text` alone.
#[verifier::external_body]
pub fn parse_id(text: &str) -> (r: Result<u128, String>)
    ensures
        match r {
            Ok(v) => uuid_parse(text@) == Ok::<u128, Seq<char>>(v),
            Err(m) => uuid_parse(text@) == Err::<u128, Seq<char>>(m@),
        },
{
    match uuid::Uuid::parse_str(text) {
        Ok(u) => Ok(u.as_u128()),
        Err(e) => Err(e.to_string()),
    }
}

/// Calls `uuid::Uuid::new_v4`, a random version-4 UUID. Nothing is claimed
/// of the value.
#[verifier::external_body]
pub fn fresh_id() -> (r: u128) {
    uuid::Uuid::new_v4().as_u128()
}

} // verus!
