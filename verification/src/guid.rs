use vstd::prelude::*;

use crate::reply::ReplyGenerate;

verus! {

/// Relies on uuid::Uuid::new_v4 (a version-4 UUID drawn from the
/// process's random source) and Uuid::as_u64_pair (its upper 64 bits).
/// The identifier is random, so nothing is promised of its value.
#[verifier::external_body]
fn fresh_guid() -> u64 {
    uuid::Uuid::new_v4().as_u64_pair().0
}

/// The reply to a `generate` request: a freshly drawn identifier under
/// the `generate_ok` tag. Whatever identifier the draw yields, the reply
/// carries it under that tag.
pub fn generate_reply() -> (r: ReplyGenerate)
    ensures
        r.typ@ == "generate_ok"@,
{
    let guid = fresh_guid();
    ReplyGenerate::default().with_type("generate_ok").with_guid(guid)
}

} // verus!
