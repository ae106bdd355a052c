//! Shapes documented for the service's callers.

use vstd::prelude::*;

verus! {

/// An example of the free-form metadata a device may carry.
#[derive(Clone, Debug)]
pub struct RandomMetadata {
    pub mymetadata: String,
}

} // verus!
