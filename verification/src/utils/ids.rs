//! Identifiers for tasks, projects and tags.
use vstd::prelude::*;

verus! {

/// A hyphenated, lower-case UUID string of version 7: 36 characters with
/// hyphens at positions 8, 13, 18 and 23 and the version digit `7` at 14.
pub open spec fn uuid_v7_shaped(s: Seq<char>) -> bool {
    &&& s.len() == 36
    &&& s[8] == '-'
    &&& s[13] == '-'
    &&& s[14] == '7'
    &&& s[18] == '-'
    &&& s[23] == '-'
}

/// Generates a new time-ordered identifier with `uuid::Uuid::now_v7`,
/// written in its hyphenated lower-case form. Which identifier comes back
/// depends on the clock and on chance; only its shape is stated.
#[verifier::external_body]
pub fn generate_id() -> (r: String)
    ensures
        uuid_v7_shaped(r@),
{
    uuid::Uuid::now_v7().to_string()
}

} // verus!
