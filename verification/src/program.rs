use vstd::prelude::*;

use crate::ids::ConcreteTypeId;

verus! {

/// A compile-time argument handed to a generic library function at
/// specialization time.
#[derive(Clone, Copy, Debug, PartialEq, Eq, Structural)]
pub enum GenericArg {
    /// An integer literal, used to embed a constant operand.
    Value(i64),
    /// A type argument; the arithmetic library functions accept none.
    Type(ConcreteTypeId),
}

} // verus!
