use vstd::prelude::*;

verus! {

/// Identifier of a generic library function, as the surrounding registry
/// names it.
#[derive(Clone, Copy, Debug, PartialEq, Eq, Structural)]
pub struct GenericLibFuncId {
    pub id: u64,
}

/// Identifier of a generic type.
#[derive(Clone, Copy, Debug, PartialEq, Eq, Structural)]
pub struct GenericTypeId {
    pub id: u64,
}

/// Handle of a concrete, fully specialized type, as produced by a type
/// context.
#[derive(Clone, Copy, Debug, PartialEq, Eq, Structural)]
pub struct ConcreteTypeId {
    pub id: u64,
}

} // verus!
