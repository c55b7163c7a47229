use vstd::prelude::*;

use crate::ids::{ConcreteTypeId, GenericLibFuncId};
use crate::lib_func::{
    LibFuncSignature, OutputVarInfo, OutputVarReferenceInfo, SignatureSpecializationContext,
    SpecializationError,
};
use crate::non_zero::NonZeroType;
use crate::program::GenericArg;

verus! {

use crate::ids::GenericTypeId;

/// The arithmetic operators of a wrapping-integer family.
#[derive(Clone, Copy, Debug, PartialEq, Eq, Structural)]
pub enum Operator {
    Add,
    Sub,
    Mul,
    Div,
    Mod,
}

/// Whether the operator divides: division and modulo share the zero-divisor
/// rejection and the nonzero-marked second operand.
pub open spec fn is_div_or_mod(op: Operator) -> bool {
    op == Operator::Div || op == Operator::Mod
}

/// The binding of one wrapping-integer family: the registry id of each
/// arithmetic library function, of the constant library function, and of the
/// underlying wrapping-integer type. One such value exists per supported
/// width; it is never mutated.
#[derive(Clone, Copy, Debug, PartialEq, Eq, Structural)]
pub struct WrappingArithmeticTraits {
    pub add_id: GenericLibFuncId,
    pub sub_id: GenericLibFuncId,
    pub mul_id: GenericLibFuncId,
    pub div_id: GenericLibFuncId,
    pub mod_id: GenericLibFuncId,
    pub const_id: GenericLibFuncId,
    pub generic_type_id: GenericTypeId,
}

/// What the context resolves the family's own wrapping-integer type to.
pub open spec fn domain_type_of<C: SignatureSpecializationContext>(
    ctx: &C,
    traits: WrappingArithmeticTraits,
) -> Result<ConcreteTypeId, SpecializationError> {
    ctx.type_of(traits.generic_type_id, Seq::<GenericArg>::empty())
}

/// What the context resolves the nonzero-marked form of `ty` to.
pub open spec fn nonzero_wrapped_of<C: SignatureSpecializationContext>(
    ctx: &C,
    ty: ConcreteTypeId,
) -> Result<ConcreteTypeId, SpecializationError> {
    ctx.wrapped_type_of(NonZeroType::spec_id(), ty)
}

/// An output slot computed at run time.
pub open spec fn deferred_output(ty: ConcreteTypeId) -> OutputVarInfo {
    OutputVarInfo { ty, ref_info: OutputVarReferenceInfo::Deferred }
}

/// An output slot holding a compile-time constant.
pub open spec fn const_output(ty: ConcreteTypeId) -> OutputVarInfo {
    OutputVarInfo { ty, ref_info: OutputVarReferenceInfo::Const }
}

/// The signature of a binary operation: two inputs (the domain type and the
/// second-operand type) and one deferred output of the domain type.
pub open spec fn is_binary_signature(
    sig: LibFuncSignature,
    ty: ConcreteTypeId,
    rhs: ConcreteTypeId,
) -> bool {
    sig.input_types@ == seq![ty, rhs] && sig.outputs@ == seq![deferred_output(ty)]
}

/// The signature of an operation with an embedded constant: one input and one
/// deferred output, both the domain type.
pub open spec fn is_unary_signature(sig: LibFuncSignature, ty: ConcreteTypeId) -> bool {
    sig.input_types@ == seq![ty] && sig.outputs@ == seq![deferred_output(ty)]
}

/// The signature of a constant-producing operation: no input, one output of
/// the domain type marked as a compile-time constant.
pub open spec fn is_const_signature(sig: LibFuncSignature, ty: ConcreteTypeId) -> bool {
    sig.input_types@ == Seq::<ConcreteTypeId>::empty() && sig.outputs@ == seq![const_output(ty)]
}

/// The argument shapes an arithmetic operation accepts: no argument (binary
/// form) or exactly one integer (embedded-constant form).
pub open spec fn valid_arg_shape(args: Seq<GenericArg>) -> bool {
    args.len() == 0 || (args.len() == 1 && args[0] matches GenericArg::Value(_))
}

/// A generic arithmetic library function: one operator of one family, not yet
/// specialized.
#[derive(Clone, Copy, Debug)]
pub struct OperationLibFunc {
    pub operator: Operator,
    pub traits: WrappingArithmeticTraits,
}

impl OperationLibFunc {
    pub fn new(operator: Operator, traits: WrappingArithmeticTraits) -> (r: Self)
        ensures
            r.operator == operator,
            r.traits == traits,
    {
        Self { operator, traits }
    }

    /// The family member an incoming registry id names: the five operator ids
    /// are tried in a fixed order, the first match wins, and an id matching
    /// none is not of this family.
    pub open spec fn spec_by_id(
        id: GenericLibFuncId,
        traits: WrappingArithmeticTraits,
    ) -> Option<OperationLibFunc> {
        if id == traits.add_id {
            Some(OperationLibFunc { operator: Operator::Add, traits })
        } else if id == traits.sub_id {
            Some(OperationLibFunc { operator: Operator::Sub, traits })
        } else if id == traits.mul_id {
            Some(OperationLibFunc { operator: Operator::Mul, traits })
        } else if id == traits.div_id {
            Some(OperationLibFunc { operator: Operator::Div, traits })
        } else if id == traits.mod_id {
            Some(OperationLibFunc { operator: Operator::Mod, traits })
        } else {
            None
        }
    }

    /// Resolve a registry id against the family `traits`; `None` means "not
    /// this family", which callers answer by trying the next one.
    pub fn by_id(id: &GenericLibFuncId, traits: WrappingArithmeticTraits) -> (r: Option<Self>)
        ensures
            r == Self::spec_by_id(*id, traits),
    {
        if *id == traits.add_id {
            Some(Self::new(Operator::Add, traits))
        } else if *id == traits.sub_id {
            Some(Self::new(Operator::Sub, traits))
        } else if *id == traits.mul_id {
            Some(Self::new(Operator::Mul, traits))
        } else if *id == traits.div_id {
            Some(Self::new(Operator::Div, traits))
        } else if *id == traits.mod_id {
            Some(Self::new(Operator::Mod, traits))
        } else {
            None
        }
    }
}

/// What `OperationLibFunc::specialize_signature` returns, case by case: the
/// domain type is resolved first and a resolution failure is propagated
/// verbatim; then an empty argument list yields the binary signature (the
/// second operand carrying the nonzero marker for division and modulo), a
/// single integer yields the embedded-constant signature unless it is a zero
/// divisor, and every other shape is rejected.
pub open spec fn op_signature_result<C: SignatureSpecializationContext>(
    ctx: &C,
    traits: WrappingArithmeticTraits,
    op: Operator,
    args: Seq<GenericArg>,
    r: Result<LibFuncSignature, SpecializationError>,
) -> bool {
    match domain_type_of(ctx, traits) {
        Err(e) => r matches Err(e2) && e2 == e,
        Ok(ty) => if args.len() == 0 {
            if is_div_or_mod(op) {
                match nonzero_wrapped_of(ctx, ty) {
                    Err(e) => r matches Err(e2) && e2 == e,
                    Ok(nz) => r matches Ok(sig) && is_binary_signature(sig, ty, nz),
                }
            } else {
                r matches Ok(sig) && is_binary_signature(sig, ty, ty)
            }
        } else if args.len() == 1 {
            match args[0] {
                GenericArg::Value(c) => if is_div_or_mod(op) && c == 0 {
                    r matches Err(e) && e == SpecializationError::UnsupportedGenericArg
                } else {
                    r matches Ok(sig) && is_unary_signature(sig, ty)
                },
                _ => r matches Err(e) && e == SpecializationError::UnsupportedGenericArg,
            }
        } else {
            r matches Err(e) && e == SpecializationError::UnsupportedGenericArg
        },
    }
}

impl OperationLibFunc {
    /// Resolve the signature of this operator for the given compile-time
    /// arguments.
    pub fn specialize_signature<C: SignatureSpecializationContext>(
        &self,
        context: &C,
        args: &Vec<GenericArg>,
    ) -> (r: Result<LibFuncSignature, SpecializationError>)
        ensures
            op_signature_result(context, self.traits, self.operator, args@, r),
    {
        let no_type_args: Vec<GenericArg> = Vec::new();
        let ty = match context.get_concrete_type(self.traits.generic_type_id, &no_type_args) {
            Ok(t) => t,
            Err(e) => {
                return Err(e);
            },
        };
        let div_mod = matches!(self.operator, Operator::Div | Operator::Mod);
        if args.len() == 0 {
            let second = if div_mod {
                match context.get_wrapped_concrete_type(NonZeroType::id(), ty) {
                    Ok(t) => t,
                    Err(e) => {
                        return Err(e);
                    },
                }
            } else {
                ty
            };
            let mut input_types: Vec<ConcreteTypeId> = Vec::new();
            input_types.push(ty);
            input_types.push(second);
            let mut outputs: Vec<OutputVarInfo> = Vec::new();
            outputs.push(OutputVarInfo { ty, ref_info: OutputVarReferenceInfo::Deferred });
            let sig = LibFuncSignature { input_types, outputs };
            proof {
                assert(sig.input_types@ =~= seq![ty, second]);
                assert(sig.outputs@ =~= seq![deferred_output(ty)]);
            }
            Ok(sig)
        } else if args.len() == 1 {
            match args[0] {
                GenericArg::Value(c) => {
                    if div_mod && c == 0 {
                        Err(SpecializationError::UnsupportedGenericArg)
                    } else {
                        let mut input_types: Vec<ConcreteTypeId> = Vec::new();
                        input_types.push(ty);
                        let mut outputs: Vec<OutputVarInfo> = Vec::new();
                        outputs.push(
                            OutputVarInfo { ty, ref_info: OutputVarReferenceInfo::Deferred },
                        );
                        let sig = LibFuncSignature { input_types, outputs };
                        proof {
                            assert(sig.input_types@ =~= seq![ty]);
                            assert(sig.outputs@ =~= seq![deferred_output(ty)]);
                        }
                        Ok(sig)
                    }
                },
                _ => Err(SpecializationError::UnsupportedGenericArg),
            }
        } else {
            Err(SpecializationError::UnsupportedGenericArg)
        }
    }
}

/// A specialized binary operation: both operands arrive at run time.
#[derive(Debug)]
pub struct BinaryOperationConcreteLibFunc {
    pub operator: Operator,
    pub signature: LibFuncSignature,
}

impl BinaryOperationConcreteLibFunc {
    pub fn signature(&self) -> (r: &LibFuncSignature)
        ensures
            *r == self.signature,
    {
        &self.signature
    }
}

/// A specialized operation with an embedded constant second operand.
#[derive(Debug)]
pub struct OperationWithConstConcreteLibFunc {
    pub operator: Operator,
    pub c: i64,
    pub signature: LibFuncSignature,
}

impl OperationWithConstConcreteLibFunc {
    pub fn signature(&self) -> (r: &LibFuncSignature)
        ensures
            *r == self.signature,
    {
        &self.signature
    }
}

/// The result of specializing an arithmetic operation: its binary form, or
/// its form with an embedded constant.
#[derive(Debug)]
pub enum OperationConcreteLibFunc {
    Binary(BinaryOperationConcreteLibFunc),
    Const(OperationWithConstConcreteLibFunc),
}

impl OperationConcreteLibFunc {
    /// The signature of whichever variant this is.
    pub open spec fn spec_signature(&self) -> LibFuncSignature {
        match self {
            OperationConcreteLibFunc::Binary(f) => f.signature,
            OperationConcreteLibFunc::Const(f) => f.signature,
        }
    }

    pub fn signature(&self) -> (r: &LibFuncSignature)
        ensures
            *r == self.spec_signature(),
    {
        match self {
            OperationConcreteLibFunc::Binary(f) => &f.signature,
            OperationConcreteLibFunc::Const(f) => &f.signature,
        }
    }
}

/// What `OperationLibFunc::specialize` returns, case by case. Unlike
/// signature resolution, the argument shape is validated before the domain
/// type is resolved, so an invalid shape is rejected whatever the context
/// would say; a successful run yields the descriptor variant the shape
/// selects, carrying the signature that `op_signature_result` fixes.
pub open spec fn op_specialize_result<C: SignatureSpecializationContext>(
    ctx: &C,
    traits: WrappingArithmeticTraits,
    op: Operator,
    args: Seq<GenericArg>,
    r: Result<OperationConcreteLibFunc, SpecializationError>,
) -> bool {
    if args.len() == 0 {
        match domain_type_of(ctx, traits) {
            Err(e) => r matches Err(e2) && e2 == e,
            Ok(ty) => if is_div_or_mod(op) {
                match nonzero_wrapped_of(ctx, ty) {
                    Err(e) => r matches Err(e2) && e2 == e,
                    Ok(nz) => r matches Ok(OperationConcreteLibFunc::Binary(f)) && f.operator == op
                        && is_binary_signature(f.signature, ty, nz),
                }
            } else {
                r matches Ok(OperationConcreteLibFunc::Binary(f)) && f.operator == op
                    && is_binary_signature(f.signature, ty, ty)
            },
        }
    } else if args.len() == 1 {
        match args[0] {
            GenericArg::Value(c) => if is_div_or_mod(op) && c == 0 {
                r matches Err(e) && e == SpecializationError::UnsupportedGenericArg
            } else {
                match domain_type_of(ctx, traits) {
                    Err(e) => r matches Err(e2) && e2 == e,
                    Ok(ty) => r matches Ok(OperationConcreteLibFunc::Const(f)) && f.operator == op
                        && f.c == c && is_unary_signature(f.signature, ty),
                }
            },
            _ => r matches Err(e) && e == SpecializationError::UnsupportedGenericArg,
        }
    } else {
        r matches Err(e) && e == SpecializationError::UnsupportedGenericArg
    }
}

impl OperationLibFunc {
    /// Specialize this operator for the given compile-time arguments,
    /// producing the full concrete descriptor. The argument shape is
    /// validated here again rather than assumed from a prior signature call.
    pub fn specialize<C: SignatureSpecializationContext>(
        &self,
        context: &C,
        args: &Vec<GenericArg>,
    ) -> (r: Result<OperationConcreteLibFunc, SpecializationError>)
        ensures
            op_specialize_result(context, self.traits, self.operator, args@, r),
    {
        if args.len() == 0 {
            match self.specialize_signature(context, args) {
                Ok(signature) => Ok(
                    OperationConcreteLibFunc::Binary(
                        BinaryOperationConcreteLibFunc { operator: self.operator, signature },
                    ),
                ),
                Err(e) => Err(e),
            }
        } else if args.len() == 1 {
            match args[0] {
                GenericArg::Value(c) => {
                    let div_mod = matches!(self.operator, Operator::Div | Operator::Mod);
                    if div_mod && c == 0 {
                        Err(SpecializationError::UnsupportedGenericArg)
                    } else {
                        match self.specialize_signature(context, args) {
                            Ok(signature) => Ok(
                                OperationConcreteLibFunc::Const(
                                    OperationWithConstConcreteLibFunc {
                                        operator: self.operator,
                                        c,
                                        signature,
                                    },
                                ),
                            ),
                            Err(e) => Err(e),
                        }
                    }
                },
                _ => Err(SpecializationError::UnsupportedGenericArg),
            }
        } else {
            Err(SpecializationError::UnsupportedGenericArg)
        }
    }
}

/// What `ConstLibFunc::specialize_signature` returns: the constant signature
/// over the resolved domain type, with a resolution failure propagated
/// verbatim. The arguments play no part here.
pub open spec fn const_signature_result<C: SignatureSpecializationContext>(
    ctx: &C,
    traits: WrappingArithmeticTraits,
    r: Result<LibFuncSignature, SpecializationError>,
) -> bool {
    match domain_type_of(ctx, traits) {
        Err(e) => r matches Err(e2) && e2 == e,
        Ok(ty) => r matches Ok(sig) && is_const_signature(sig, ty),
    }
}

/// What `ConstLibFunc::specialize` returns: exactly one integer argument is
/// accepted — zero included, since the zero-divisor rule belongs to the
/// operation path alone — and every other shape is rejected before the
/// domain type is resolved.
pub open spec fn const_specialize_result<C: SignatureSpecializationContext>(
    ctx: &C,
    traits: WrappingArithmeticTraits,
    args: Seq<GenericArg>,
    r: Result<ConstConcreteLibFunc, SpecializationError>,
) -> bool {
    if args.len() == 1 {
        match args[0] {
            GenericArg::Value(c) => match domain_type_of(ctx, traits) {
                Err(e) => r matches Err(e2) && e2 == e,
                Ok(ty) => r matches Ok(f) && f.c == c && is_const_signature(f.signature, ty),
            },
            _ => r matches Err(e) && e == SpecializationError::UnsupportedGenericArg,
        }
    } else {
        r matches Err(e) && e == SpecializationError::UnsupportedGenericArg
    }
}

/// The generic constant-producing library function of one family.
#[derive(Clone, Copy, Debug)]
pub struct ConstLibFunc {
    pub traits: WrappingArithmeticTraits,
}

impl ConstLibFunc {
    pub fn new(traits: WrappingArithmeticTraits) -> (r: Self)
        ensures
            r.traits == traits,
    {
        Self { traits }
    }

    /// Resolve the constant signature: no input, one compile-time-constant
    /// output of the domain type. The arguments are ignored entirely.
    pub fn specialize_signature<C: SignatureSpecializationContext>(
        &self,
        context: &C,
        _args: &Vec<GenericArg>,
    ) -> (r: Result<LibFuncSignature, SpecializationError>)
        ensures
            const_signature_result(context, self.traits, r),
    {
        let no_type_args: Vec<GenericArg> = Vec::new();
        let ty = match context.get_concrete_type(self.traits.generic_type_id, &no_type_args) {
            Ok(t) => t,
            Err(e) => {
                return Err(e);
            },
        };
        let input_types: Vec<ConcreteTypeId> = Vec::new();
        let mut outputs: Vec<OutputVarInfo> = Vec::new();
        outputs.push(OutputVarInfo { ty, ref_info: OutputVarReferenceInfo::Const });
        let sig = LibFuncSignature { input_types, outputs };
        proof {
            assert(sig.input_types@ =~= Seq::<ConcreteTypeId>::empty());
            assert(sig.outputs@ =~= seq![const_output(ty)]);
        }
        Ok(sig)
    }

    /// Specialize the constant function: the one argument must be an integer
    /// literal, which the descriptor then embeds.
    pub fn specialize<C: SignatureSpecializationContext>(
        &self,
        context: &C,
        args: &Vec<GenericArg>,
    ) -> (r: Result<ConstConcreteLibFunc, SpecializationError>)
        ensures
            const_specialize_result(context, self.traits, args@, r),
    {
        if args.len() == 1 {
            match args[0] {
                GenericArg::Value(c) => match self.specialize_signature(context, args) {
                    Ok(signature) => Ok(ConstConcreteLibFunc { c, signature }),
                    Err(e) => Err(e),
                },
                _ => Err(SpecializationError::UnsupportedGenericArg),
            }
        } else {
            Err(SpecializationError::UnsupportedGenericArg)
        }
    }
}

/// A specialized constant-producing operation, carrying its literal value.
#[derive(Debug)]
pub struct ConstConcreteLibFunc {
    pub c: i64,
    pub signature: LibFuncSignature,
}

impl ConstConcreteLibFunc {
    pub fn signature(&self) -> (r: &LibFuncSignature)
        ensures
            *r == self.signature,
    {
        &self.signature
    }
}

} // verus!
