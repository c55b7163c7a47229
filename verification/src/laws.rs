use vstd::prelude::*;

use crate::arithmetic::{
    const_specialize_result, domain_type_of, is_const_signature, is_div_or_mod,
    is_unary_signature, nonzero_wrapped_of, op_signature_result, op_specialize_result,
    valid_arg_shape, ConstConcreteLibFunc, OperationConcreteLibFunc, Operator,
    WrappingArithmeticTraits,
};
use crate::ids::ConcreteTypeId;
use crate::lib_func::{LibFuncSignature, SignatureSpecializationContext, SpecializationError};
use crate::program::GenericArg;

verus! {

/// With an empty argument list, specialization never fails on account of the
/// argument shape: every failure is a context resolution failure passed
/// through verbatim, every success is a binary descriptor of the requested
/// operator with exactly two inputs and one output, and success is owed
/// whenever the context resolves what the binary form needs.
pub proof fn lemma_binary_form_never_shape_rejected<C: SignatureSpecializationContext>(
    ctx: &C,
    traits: WrappingArithmeticTraits,
    op: Operator,
    r: Result<OperationConcreteLibFunc, SpecializationError>,
)
    requires
        op_specialize_result(ctx, traits, op, Seq::<GenericArg>::empty(), r),
    ensures
        (match r {
            Ok(d) => match d {
                OperationConcreteLibFunc::Binary(f) => f.operator == op
                    && f.signature.input_types@.len() == 2 && f.signature.outputs@.len() == 1,
                OperationConcreteLibFunc::Const(_) => false,
            },
            Err(e) => match domain_type_of(ctx, traits) {
                Err(e2) => e2 == e,
                Ok(ty) => is_div_or_mod(op) && nonzero_wrapped_of(ctx, ty) == Err::<
                    ConcreteTypeId,
                    SpecializationError,
                >(e),
            },
        }),
        (domain_type_of(ctx, traits) matches Ok(ty) && (is_div_or_mod(op) ==> nonzero_wrapped_of(
            ctx,
            ty,
        ) is Ok)) ==> r is Ok,
{
}

/// For add, sub and mul, a single integer argument — zero and negative
/// values included — always specializes, short of a context resolution
/// failure, to a descriptor with that constant embedded.
pub proof fn lemma_add_sub_mul_any_constant<C: SignatureSpecializationContext>(
    ctx: &C,
    traits: WrappingArithmeticTraits,
    op: Operator,
    c: i64,
    r: Result<OperationConcreteLibFunc, SpecializationError>,
)
    requires
        op == Operator::Add || op == Operator::Sub || op == Operator::Mul,
        op_specialize_result(ctx, traits, op, seq![GenericArg::Value(c)], r),
    ensures
        (match domain_type_of(ctx, traits) {
            Ok(ty) => match r {
                Ok(OperationConcreteLibFunc::Const(f)) => f.operator == op && f.c == c
                    && is_unary_signature(f.signature, ty),
                _ => false,
            },
            Err(e) => r == Err::<OperationConcreteLibFunc, SpecializationError>(e),
        }),
{
}

/// For div and mod, the single argument zero is rejected as an unsupported
/// generic argument, whatever the context would have resolved.
pub proof fn lemma_div_mod_zero_rejected<C: SignatureSpecializationContext>(
    ctx: &C,
    traits: WrappingArithmeticTraits,
    op: Operator,
    r: Result<OperationConcreteLibFunc, SpecializationError>,
)
    requires
        is_div_or_mod(op),
        op_specialize_result(ctx, traits, op, seq![GenericArg::Value(0)], r),
    ensures
        r == Err::<OperationConcreteLibFunc, SpecializationError>(
            SpecializationError::UnsupportedGenericArg,
        ),
{
}

/// For div and mod, any nonzero single integer argument specializes, short
/// of a context resolution failure, to a descriptor with that constant
/// embedded.
pub proof fn lemma_div_mod_nonzero_accepted<C: SignatureSpecializationContext>(
    ctx: &C,
    traits: WrappingArithmeticTraits,
    op: Operator,
    c: i64,
    r: Result<OperationConcreteLibFunc, SpecializationError>,
)
    requires
        is_div_or_mod(op),
        c != 0,
        op_specialize_result(ctx, traits, op, seq![GenericArg::Value(c)], r),
    ensures
        (match domain_type_of(ctx, traits) {
            Ok(ty) => match r {
                Ok(OperationConcreteLibFunc::Const(f)) => f.operator == op && f.c == c
                    && is_unary_signature(f.signature, ty),
                _ => false,
            },
            Err(e) => r == Err::<OperationConcreteLibFunc, SpecializationError>(e),
        }),
{
}

/// Two or more arguments, or one argument that is not an integer, are
/// rejected by `specialize` as an unsupported generic argument, for every
/// operator and whatever the context would have resolved.
pub proof fn lemma_invalid_shape_rejected<C: SignatureSpecializationContext>(
    ctx: &C,
    traits: WrappingArithmeticTraits,
    op: Operator,
    args: Seq<GenericArg>,
    r: Result<OperationConcreteLibFunc, SpecializationError>,
)
    requires
        !valid_arg_shape(args),
        op_specialize_result(ctx, traits, op, args, r),
    ensures
        r == Err::<OperationConcreteLibFunc, SpecializationError>(
            SpecializationError::UnsupportedGenericArg,
        ),
{
}

/// Signature resolution rejects the same invalid shapes, for every operator,
/// once the domain type itself resolves; the hypothesis that it does cannot
/// be dropped, since the domain type is looked up before the arguments are
/// examined and its resolution failure is reported first.
pub proof fn lemma_invalid_shape_rejected_signature<C: SignatureSpecializationContext>(
    ctx: &C,
    traits: WrappingArithmeticTraits,
    op: Operator,
    args: Seq<GenericArg>,
    r: Result<LibFuncSignature, SpecializationError>,
)
    requires
        !valid_arg_shape(args),
        domain_type_of(ctx, traits) is Ok,
        op_signature_result(ctx, traits, op, args, r),
    ensures
        r matches Err(e) && e == SpecializationError::UnsupportedGenericArg,
{
}

/// The constant specializer accepts any single integer argument — zero
/// included — and embeds it, short of a context resolution failure.
pub proof fn lemma_const_any_integer_accepted<C: SignatureSpecializationContext>(
    ctx: &C,
    traits: WrappingArithmeticTraits,
    c: i64,
    r: Result<ConstConcreteLibFunc, SpecializationError>,
)
    requires
        const_specialize_result(ctx, traits, seq![GenericArg::Value(c)], r),
    ensures
        (match domain_type_of(ctx, traits) {
            Ok(ty) => match r {
                Ok(f) => f.c == c && is_const_signature(f.signature, ty),
                Err(_) => false,
            },
            Err(e) => r == Err::<ConstConcreteLibFunc, SpecializationError>(e),
        }),
{
}

/// The constant specializer rejects every argument list that is not exactly
/// one integer, whatever the context would have resolved.
pub proof fn lemma_const_invalid_shape_rejected<C: SignatureSpecializationContext>(
    ctx: &C,
    traits: WrappingArithmeticTraits,
    args: Seq<GenericArg>,
    r: Result<ConstConcreteLibFunc, SpecializationError>,
)
    requires
        args.len() != 1 || !(args[0] matches GenericArg::Value(_)),
        const_specialize_result(ctx, traits, args, r),
    ensures
        r == Err::<ConstConcreteLibFunc, SpecializationError>(
            SpecializationError::UnsupportedGenericArg,
        ),
{
}

/// Every descriptor a successful operation specialization returns carries
/// the input and output counts of its variant: two and one for the binary
/// form, one and one for the embedded-constant form.
pub proof fn lemma_descriptor_counts<C: SignatureSpecializationContext>(
    ctx: &C,
    traits: WrappingArithmeticTraits,
    op: Operator,
    args: Seq<GenericArg>,
    d: OperationConcreteLibFunc,
)
    requires
        op_specialize_result(ctx, traits, op, args, Ok(d)),
    ensures
        (match d {
            OperationConcreteLibFunc::Binary(f) => f.signature.input_types@.len() == 2
                && f.signature.outputs@.len() == 1,
            OperationConcreteLibFunc::Const(f) => f.signature.input_types@.len() == 1
                && f.signature.outputs@.len() == 1,
        }),
{
}

/// Every descriptor a successful constant specialization returns has no
/// input and exactly one output.
pub proof fn lemma_const_descriptor_counts<C: SignatureSpecializationContext>(
    ctx: &C,
    traits: WrappingArithmeticTraits,
    args: Seq<GenericArg>,
    f: ConstConcreteLibFunc,
)
    requires
        const_specialize_result(ctx, traits, args, Ok(f)),
    ensures
        f.signature.input_types@.len() == 0,
        f.signature.outputs@.len() == 1,
{
}

} // verus!
