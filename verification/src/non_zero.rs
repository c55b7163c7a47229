use vstd::prelude::*;

use crate::ids::GenericTypeId;

verus! {

/// The generic identifier of the marker type that tags a value as statically
/// nonzero.
pub const NON_ZERO_TYPE_ID: u64 = 0;

/// The marker type wrapped around the second operand of division and modulo,
/// signalling to downstream code generation that the operand cannot be zero.
pub struct NonZeroType {}

impl NonZeroType {
    /// The generic type id under which a type context knows the marker.
    pub open spec fn spec_id() -> GenericTypeId {
        GenericTypeId { id: NON_ZERO_TYPE_ID }
    }

    pub fn id() -> (r: GenericTypeId)
        ensures
            r == Self::spec_id(),
    {
        GenericTypeId { id: NON_ZERO_TYPE_ID }
    }
}

} // verus!
