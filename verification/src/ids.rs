//! Fresh node-id generation, backed by random version-4 UUIDs.

use vstd::prelude::*;

use crate::{NodeId, NIL_NODE};

verus! {

/// Draw a fresh random node id.
///
/// Relies on `uuid::Uuid::new_v4`: it builds the UUID by OR-ing fixed
/// nonzero version/variant bits into 128 random bits, and `as_u128` is the
/// inverse of the `from_u128` it uses, so the returned value is never
/// zero (`NIL_NODE`). Nothing else can be promised of a random value.
#[verifier::external_body]
pub fn new_uuid() -> (r: NodeId)
    ensures
        r != NIL_NODE,
{
    uuid::Uuid::new_v4().as_u128()
}

} // verus!
