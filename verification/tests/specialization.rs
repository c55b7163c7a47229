use wrapping_arithmetic::arithmetic::{
    ConstLibFunc, OperationConcreteLibFunc, OperationLibFunc, Operator, WrappingArithmeticTraits,
};
use wrapping_arithmetic::context::SimpleContext;
use wrapping_arithmetic::ids::{ConcreteTypeId, GenericLibFuncId, GenericTypeId};
use wrapping_arithmetic::lib_func::{OutputVarReferenceInfo, SpecializationError};
use wrapping_arithmetic::non_zero::NonZeroType;
use wrapping_arithmetic::program::GenericArg;

const WRAPPING_U32: u64 = 32;
const U32_HANDLE: u64 = 100;
const NONZERO_U32_HANDLE: u64 = 101;

fn family() -> WrappingArithmeticTraits {
    WrappingArithmeticTraits {
        add_id: GenericLibFuncId { id: 1 },
        sub_id: GenericLibFuncId { id: 2 },
        mul_id: GenericLibFuncId { id: 3 },
        div_id: GenericLibFuncId { id: 4 },
        mod_id: GenericLibFuncId { id: 5 },
        const_id: GenericLibFuncId { id: 6 },
        generic_type_id: GenericTypeId { id: WRAPPING_U32 },
    }
}

fn context() -> SimpleContext {
    let mut ctx = SimpleContext::new();
    ctx.declare_type(GenericTypeId { id: WRAPPING_U32 }, ConcreteTypeId { id: U32_HANDLE });
    ctx.declare_wrapped_type(
        NonZeroType::id(),
        ConcreteTypeId { id: U32_HANDLE },
        ConcreteTypeId { id: NONZERO_U32_HANDLE },
    );
    ctx
}

fn all_operators() -> Vec<Operator> {
    vec![Operator::Add, Operator::Sub, Operator::Mul, Operator::Div, Operator::Mod]
}

#[test]
fn binary_form_for_every_operator() {
    let ctx = context();
    for op in all_operators() {
        let f = OperationLibFunc::new(op, family());
        let r = f.specialize(&ctx, &vec![]).unwrap();
        match r {
            OperationConcreteLibFunc::Binary(b) => {
                assert_eq!(b.operator, op);
                assert_eq!(b.signature.input_types.len(), 2);
                assert_eq!(b.signature.outputs.len(), 1);
                assert_eq!(b.signature.input_types[0], ConcreteTypeId { id: U32_HANDLE });
                assert_eq!(b.signature.outputs[0].ty, ConcreteTypeId { id: U32_HANDLE });
                assert_eq!(b.signature.outputs[0].ref_info, OutputVarReferenceInfo::Deferred);
            }
            OperationConcreteLibFunc::Const(_) => panic!("expected the binary variant"),
        }
    }
}

#[test]
fn binary_second_operand_plain_for_add_sub_mul() {
    let ctx = context();
    for op in [Operator::Add, Operator::Sub, Operator::Mul] {
        let f = OperationLibFunc::new(op, family());
        match f.specialize(&ctx, &vec![]).unwrap() {
            OperationConcreteLibFunc::Binary(b) => {
                assert_eq!(b.signature.input_types[1], ConcreteTypeId { id: U32_HANDLE });
            }
            _ => panic!("expected the binary variant"),
        }
    }
}

#[test]
fn binary_second_operand_nonzero_marked_for_div_mod() {
    let ctx = context();
    for op in [Operator::Div, Operator::Mod] {
        let f = OperationLibFunc::new(op, family());
        match f.specialize(&ctx, &vec![]).unwrap() {
            OperationConcreteLibFunc::Binary(b) => {
                assert_eq!(b.signature.input_types[1], ConcreteTypeId { id: NONZERO_U32_HANDLE });
            }
            _ => panic!("expected the binary variant"),
        }
    }
}

#[test]
fn with_const_for_add_sub_mul_any_integer() {
    let ctx = context();
    for op in [Operator::Add, Operator::Sub, Operator::Mul] {
        for c in [0i64, 5, -7, i64::MIN, i64::MAX] {
            let f = OperationLibFunc::new(op, family());
            match f.specialize(&ctx, &vec![GenericArg::Value(c)]).unwrap() {
                OperationConcreteLibFunc::Const(wc) => {
                    assert_eq!(wc.operator, op);
                    assert_eq!(wc.c, c);
                    assert_eq!(wc.signature.input_types.len(), 1);
                    assert_eq!(wc.signature.input_types[0], ConcreteTypeId { id: U32_HANDLE });
                    assert_eq!(wc.signature.outputs.len(), 1);
                    assert_eq!(wc.signature.outputs[0].ref_info, OutputVarReferenceInfo::Deferred);
                }
                _ => panic!("expected the embedded-constant variant"),
            }
        }
    }
}

#[test]
fn div_mod_by_literal_zero_rejected() {
    let ctx = context();
    for op in [Operator::Div, Operator::Mod] {
        let f = OperationLibFunc::new(op, family());
        let r = f.specialize(&ctx, &vec![GenericArg::Value(0)]);
        assert_eq!(r.unwrap_err(), SpecializationError::UnsupportedGenericArg);
        let sig = f.specialize_signature(&ctx, &vec![GenericArg::Value(0)]);
        assert_eq!(sig.unwrap_err(), SpecializationError::UnsupportedGenericArg);
    }
}

#[test]
fn div_mod_by_nonzero_literal_accepted() {
    let ctx = context();
    for op in [Operator::Div, Operator::Mod] {
        for c in [1i64, -1, 42] {
            let f = OperationLibFunc::new(op, family());
            match f.specialize(&ctx, &vec![GenericArg::Value(c)]).unwrap() {
                OperationConcreteLibFunc::Const(wc) => {
                    assert_eq!(wc.operator, op);
                    assert_eq!(wc.c, c);
                }
                _ => panic!("expected the embedded-constant variant"),
            }
        }
    }
}

#[test]
fn two_or_more_arguments_rejected() {
    let ctx = context();
    for op in all_operators() {
        let f = OperationLibFunc::new(op, family());
        let r = f.specialize(&ctx, &vec![GenericArg::Value(1), GenericArg::Value(2)]);
        assert_eq!(r.unwrap_err(), SpecializationError::UnsupportedGenericArg);
        let sig = f.specialize_signature(&ctx, &vec![GenericArg::Value(1), GenericArg::Value(2)]);
        assert_eq!(sig.unwrap_err(), SpecializationError::UnsupportedGenericArg);
    }
}

#[test]
fn non_integer_argument_rejected() {
    let ctx = context();
    let ty_arg = GenericArg::Type(ConcreteTypeId { id: U32_HANDLE });
    for op in all_operators() {
        let f = OperationLibFunc::new(op, family());
        let r = f.specialize(&ctx, &vec![ty_arg]);
        assert_eq!(r.unwrap_err(), SpecializationError::UnsupportedGenericArg);
        let sig = f.specialize_signature(&ctx, &vec![ty_arg]);
        assert_eq!(sig.unwrap_err(), SpecializationError::UnsupportedGenericArg);
    }
}

#[test]
fn descriptor_signature_counts_match_variant() {
    let ctx = context();
    let f = OperationLibFunc::new(Operator::Add, family());
    let binary = f.specialize(&ctx, &vec![]).unwrap();
    assert_eq!(binary.signature().input_types.len(), 2);
    assert_eq!(binary.signature().outputs.len(), 1);
    let with_const = f.specialize(&ctx, &vec![GenericArg::Value(9)]).unwrap();
    assert_eq!(with_const.signature().input_types.len(), 1);
    assert_eq!(with_const.signature().outputs.len(), 1);
}

#[test]
fn unresolved_domain_type_error_propagated() {
    let empty_ctx = SimpleContext::new();
    let f = OperationLibFunc::new(Operator::Add, family());
    let r = f.specialize(&empty_ctx, &vec![]);
    assert_eq!(r.unwrap_err(), SpecializationError::UnsupportedId);
    let r = f.specialize(&empty_ctx, &vec![GenericArg::Value(3)]);
    assert_eq!(r.unwrap_err(), SpecializationError::UnsupportedId);
    let sig = f.specialize_signature(&empty_ctx, &vec![]);
    assert_eq!(sig.unwrap_err(), SpecializationError::UnsupportedId);
}

#[test]
fn shape_checked_before_resolution_in_specialize() {
    // With an unresolvable domain type, `specialize` still reports the bad
    // argument shape, while signature resolution reports the type first.
    let empty_ctx = SimpleContext::new();
    let f = OperationLibFunc::new(Operator::Mul, family());
    let two = vec![GenericArg::Value(1), GenericArg::Value(2)];
    let r = f.specialize(&empty_ctx, &two);
    assert_eq!(r.unwrap_err(), SpecializationError::UnsupportedGenericArg);
    let sig = f.specialize_signature(&empty_ctx, &two);
    assert_eq!(sig.unwrap_err(), SpecializationError::UnsupportedId);
}

#[test]
fn unresolved_nonzero_marker_error_propagated() {
    // Only the plain type is declared: the binary div form needs the wrapped
    // form too, and the add form does not.
    let mut ctx = SimpleContext::new();
    ctx.declare_type(GenericTypeId { id: WRAPPING_U32 }, ConcreteTypeId { id: U32_HANDLE });
    let div = OperationLibFunc::new(Operator::Div, family());
    let r = div.specialize(&ctx, &vec![]);
    assert_eq!(r.unwrap_err(), SpecializationError::UnsupportedId);
    let add = OperationLibFunc::new(Operator::Add, family());
    assert!(add.specialize(&ctx, &vec![]).is_ok());
}

#[test]
fn by_id_resolves_each_operator() {
    let traits = family();
    let cases = [
        (1u64, Operator::Add),
        (2, Operator::Sub),
        (3, Operator::Mul),
        (4, Operator::Div),
        (5, Operator::Mod),
    ];
    for (id, op) in cases {
        let f = OperationLibFunc::by_id(&GenericLibFuncId { id }, traits).unwrap();
        assert_eq!(f.operator, op);
        assert_eq!(f.traits, traits);
    }
}

#[test]
fn by_id_unknown_identifier_is_no_match() {
    let traits = family();
    assert!(OperationLibFunc::by_id(&GenericLibFuncId { id: 99 }, traits).is_none());
    // The constant function's id is not an operator id.
    assert!(OperationLibFunc::by_id(&GenericLibFuncId { id: 6 }, traits).is_none());
}

#[test]
fn constant_accepts_any_single_integer() {
    let ctx = context();
    let f = ConstLibFunc::new(family());
    for c in [0i64, 5, -3, i64::MIN, i64::MAX] {
        let d = f.specialize(&ctx, &vec![GenericArg::Value(c)]).unwrap();
        assert_eq!(d.c, c);
        assert_eq!(d.signature.input_types.len(), 0);
        assert_eq!(d.signature.outputs.len(), 1);
        assert_eq!(d.signature.outputs[0].ty, ConcreteTypeId { id: U32_HANDLE });
        assert_eq!(d.signature.outputs[0].ref_info, OutputVarReferenceInfo::Const);
        assert_eq!(d.signature().outputs.len(), 1);
    }
}

#[test]
fn constant_rejects_other_argument_shapes() {
    let ctx = context();
    let f = ConstLibFunc::new(family());
    let r = f.specialize(&ctx, &vec![]);
    assert_eq!(r.unwrap_err(), SpecializationError::UnsupportedGenericArg);
    let r = f.specialize(&ctx, &vec![GenericArg::Value(1), GenericArg::Value(2)]);
    assert_eq!(r.unwrap_err(), SpecializationError::UnsupportedGenericArg);
    let r = f.specialize(&ctx, &vec![GenericArg::Type(ConcreteTypeId { id: U32_HANDLE })]);
    assert_eq!(r.unwrap_err(), SpecializationError::UnsupportedGenericArg);
}

#[test]
fn constant_signature_ignores_arguments() {
    let ctx = context();
    let f = ConstLibFunc::new(family());
    for args in [
        vec![],
        vec![GenericArg::Value(0)],
        vec![GenericArg::Value(1), GenericArg::Value(2)],
    ] {
        let sig = f.specialize_signature(&ctx, &args).unwrap();
        assert_eq!(sig.input_types.len(), 0);
        assert_eq!(sig.outputs.len(), 1);
        assert_eq!(sig.outputs[0].ref_info, OutputVarReferenceInfo::Const);
    }
}

#[test]
fn constant_unresolved_type_error_propagated() {
    let empty_ctx = SimpleContext::new();
    let f = ConstLibFunc::new(family());
    let r = f.specialize(&empty_ctx, &vec![GenericArg::Value(1)]);
    assert_eq!(r.unwrap_err(), SpecializationError::UnsupportedId);
    let sig = f.specialize_signature(&empty_ctx, &vec![]);
    assert_eq!(sig.unwrap_err(), SpecializationError::UnsupportedId);
}

#[test]
fn context_first_declaration_wins() {
    let mut ctx = context();
    // A later, conflicting declaration for the same generic id is shadowed.
    ctx.declare_type(GenericTypeId { id: WRAPPING_U32 }, ConcreteTypeId { id: 999 });
    let f = OperationLibFunc::new(Operator::Add, family());
    match f.specialize(&ctx, &vec![]).unwrap() {
        OperationConcreteLibFunc::Binary(b) => {
            assert_eq!(b.signature.input_types[0], ConcreteTypeId { id: U32_HANDLE });
        }
        _ => panic!("expected the binary variant"),
    }
}

#[test]
fn thirty_two_bit_family_scenario() {
    // One family, one context, the four headline requests in order.
    let ctx = context();
    let traits = family();
    let div = OperationLibFunc::new(Operator::Div, traits);
    let r = div.specialize(&ctx, &vec![GenericArg::Value(0)]);
    assert_eq!(r.unwrap_err(), SpecializationError::UnsupportedGenericArg);

    match div.specialize(&ctx, &vec![]).unwrap() {
        OperationConcreteLibFunc::Binary(b) => {
            assert_eq!(b.signature.input_types[1], ConcreteTypeId { id: NONZERO_U32_HANDLE });
        }
        _ => panic!("expected the binary variant"),
    }

    let add = OperationLibFunc::new(Operator::Add, traits);
    match add.specialize(&ctx, &vec![GenericArg::Value(5)]).unwrap() {
        OperationConcreteLibFunc::Const(wc) => {
            assert_eq!(wc.c, 5);
            assert_eq!(wc.signature.input_types.len(), 1);
            assert_eq!(wc.signature.outputs.len(), 1);
        }
        _ => panic!("expected the embedded-constant variant"),
    }

    let konst = ConstLibFunc::new(traits);
    let d = konst.specialize(&ctx, &vec![GenericArg::Value(5)]).unwrap();
    assert_eq!(d.c, 5);
    assert_eq!(d.signature.input_types.len(), 0);
    assert_eq!(d.signature.outputs.len(), 1);
    assert_eq!(d.signature.outputs[0].ref_info, OutputVarReferenceInfo::Const);
}
