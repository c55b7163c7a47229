use vstd::prelude::*;

use crate::ids::{ConcreteTypeId, GenericTypeId};
use crate::program::GenericArg;

verus! {

/// How downstream code generation references one output of a specialized
/// library function.
#[derive(Clone, Copy, Debug, PartialEq, Eq, Structural)]
pub enum OutputVarReferenceInfo {
    /// The output is computed at run time.
    Deferred,
    /// The output is a compile-time constant.
    Const,
}

/// One output slot of a specialized library function: its concrete type and
/// how it is referenced.
#[derive(Clone, Copy, Debug, PartialEq, Eq, Structural)]
pub struct OutputVarInfo {
    pub ty: ConcreteTypeId,
    pub ref_info: OutputVarReferenceInfo,
}

/// The resolved input/output signature of a specialized library function.
#[derive(Debug)]
pub struct LibFuncSignature {
    pub input_types: Vec<ConcreteTypeId>,
    pub outputs: Vec<OutputVarInfo>,
}

/// A failure to specialize. Type contexts report their own failures with the
/// same type, and the specializers propagate those verbatim.
#[derive(Clone, Copy, Debug, PartialEq, Eq, Structural)]
pub enum SpecializationError {
    /// The compile-time arguments do not fit the requested specialization:
    /// a shape other than "empty" or "exactly one integer", or a literal
    /// zero divisor for division or modulo.
    UnsupportedGenericArg,
    /// A type context could not resolve the requested identifier.
    UnsupportedId,
}

/// The type-resolution context a caller supplies to specialization. The two
/// spec functions fix what each resolution method returns, so every
/// implementation is held to its own stated resolution behaviour; a failed
/// resolution is propagated by the specializers without modification.
pub trait SignatureSpecializationContext {
    /// What `get_concrete_type` returns for a given identifier and argument
    /// list.
    spec fn type_of(&self, id: GenericTypeId, args: Seq<GenericArg>) -> Result<
        ConcreteTypeId,
        SpecializationError,
    >;

    /// What `get_wrapped_concrete_type` returns for a given marker and inner
    /// type.
    spec fn wrapped_type_of(&self, wrapper: GenericTypeId, ty: ConcreteTypeId) -> Result<
        ConcreteTypeId,
        SpecializationError,
    >;

    /// Resolve a generic type id, applied to the given type arguments, to a
    /// concrete type handle.
    fn get_concrete_type(&self, id: GenericTypeId, args: &Vec<GenericArg>) -> (r: Result<
        ConcreteTypeId,
        SpecializationError,
    >)
        ensures
            r == self.type_of(id, args@),
    ;

    /// Wrap a concrete type with the marker type named by `wrapper`.
    fn get_wrapped_concrete_type(&self, wrapper: GenericTypeId, ty: ConcreteTypeId) -> (r: Result<
        ConcreteTypeId,
        SpecializationError,
    >)
        ensures
            r == self.wrapped_type_of(wrapper, ty),
    ;
}

} // verus!
