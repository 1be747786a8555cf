//! A placeholder node kind that is not part of any tree variant; stepping
//! it always fails.

use vstd::prelude::*;

use crate::nodes::NodeResult;
use crate::AnimTreeError;

verus! {

/// A node with no behaviour yet.
pub struct AnyNode {}

impl AnyNode {
    /// Always fails with `Unspecified`.
    pub fn execute(&self) -> (r: NodeResult)
        ensures
            r == NodeResult::Failed(AnimTreeError::Unspecified),
    {
        NodeResult::Failed(AnimTreeError::Unspecified)
    }
}

} // verus!
