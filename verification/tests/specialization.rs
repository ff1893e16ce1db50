use sierra::big_value::BigValue;
use sierra::extensions::felt::{
    FeltConcrete, FeltConcreteType, FeltBinaryOperationConcreteLibFunc, FeltLibFunc,
    FeltOperationLibFunc, FeltOperator, FeltTraits, FeltType,
};
use sierra::extensions::integer::{
    get_uint128_comparison_branch_signatures, get_uint128_comparison_param_signatures,
    get_uint128_comparison_types, IntOperator, Uint128Concrete, Uint128ConstLibFunc,
    Uint128LessThanLibFunc, Uint128LessThanOrEqualLibFunc, Uint128LibFunc,
    Uint128OperationConcreteLibFunc, Uint128OperationLibFunc, Uint128ToFeltLibFunc,
    Uint128Traits, Uint128Type, Uint128sFromFeltLibFunc,
};
use sierra::extensions::jump_not_zero;
use sierra::extensions::lib_func::{
    BranchSignature, DeferredOutputKind, LibFuncSignature, OutputVarInfo,
    OutputVarReferenceInfo, ParamSignature, SierraApChange,
};
use sierra::extensions::registry::{
    specialize_libfunc, specialize_type, CoreConcreteLibFunc, CoreLibFunc, CoreTypeConcrete,
};
use sierra::extensions::types::{
    get_concrete_type, get_wrapped_concrete_type, type_info, NonZeroType, RangeCheckType,
    TypeInfo,
};
use sierra::extensions::SpecializationError;
use sierra::ids::{ConcreteTypeId, FunctionId, GenericLibFuncId, GenericTypeId};
use sierra::program::GenericArg;

fn value(x: u128) -> GenericArg {
    GenericArg::Value(BigValue::from_u128(x))
}

fn range_check_output() -> OutputVarInfo {
    OutputVarInfo {
        ty: ConcreteTypeId::RangeCheck,
        ref_info: OutputVarReferenceInfo::Deferred(DeferredOutputKind::AddConst { param_idx: 0 }),
    }
}

fn uint128_output(ref_info: OutputVarReferenceInfo) -> OutputVarInfo {
    OutputVarInfo { ty: ConcreteTypeId::Uint128, ref_info }
}

fn non_zero(ty: ConcreteTypeId) -> ConcreteTypeId {
    ConcreteTypeId::NonZero(Box::new(ty))
}

#[test]
fn const_divisor_zero_is_unsupported() {
    let id = GenericLibFuncId::new("uint128_safe_divmod");
    let result = specialize_libfunc(&id, &[value(0)]);
    assert!(matches!(result, Err(SpecializationError::UnsupportedGenericArg)));
    let id = GenericLibFuncId::new("felt_div");
    let result = specialize_libfunc(&id, &[value(0)]);
    assert!(matches!(result, Err(SpecializationError::UnsupportedGenericArg)));
    let id = GenericLibFuncId::new("felt_mod");
    let result = specialize_libfunc(&id, &[value(0)]);
    assert!(matches!(result, Err(SpecializationError::UnsupportedGenericArg)));
}

#[test]
fn const_divisor_other_than_zero_is_accepted() {
    let id = GenericLibFuncId::new("uint128_safe_divmod");
    match specialize_libfunc(&id, &[value(3)]) {
        Ok(CoreConcreteLibFunc::Uint128(Uint128Concrete::Operation(
            Uint128OperationConcreteLibFunc::Const(libfunc),
        ))) => {
            assert_eq!(libfunc.operator, IntOperator::DivMod);
            assert_eq!(libfunc.c, 3);
            assert_eq!(libfunc.signature().param_signatures.len(), 2);
            assert_eq!(libfunc.signature().branch_signatures.len(), 1);
        }
        _ => panic!("expected a division by a constant"),
    }
}

#[test]
fn unknown_name_is_unknown_id() {
    let id = GenericLibFuncId::new("uint128_no_such_thing");
    assert!(matches!(specialize_libfunc(&id, &[]), Err(SpecializationError::UnknownId)));
    let id = GenericLibFuncId::new("");
    assert!(matches!(specialize_libfunc(&id, &[]), Err(SpecializationError::UnknownId)));
    let id = GenericTypeId::new("felt252");
    assert!(matches!(specialize_type(&id, &[]), Err(SpecializationError::UnknownId)));
}

#[test]
fn wrong_number_of_arguments_is_unsupported() {
    for name in [
        "felt_add",
        "felt_const",
        "uint128_overflow_add",
        "uint128_safe_divmod",
        "uint128_const",
    ] {
        let id = GenericLibFuncId::new(name);
        let result = specialize_libfunc(&id, &[value(1), value(2)]);
        assert!(matches!(result, Err(SpecializationError::UnsupportedGenericArg)), "{}", name);
    }
    for name in [
        "felt_neg",
        "felt_ignore",
        "felt_dup",
        "felt_jump_nz",
        "uint128_lt",
        "uint128_le",
        "uint128s_from_felt",
        "uint128_to_felt",
        "uint128_jump_nz",
    ] {
        let id = GenericLibFuncId::new(name);
        let result = specialize_libfunc(&id, &[value(1)]);
        assert!(matches!(result, Err(SpecializationError::UnsupportedGenericArg)), "{}", name);
    }
    for name in ["felt_const", "uint128_const"] {
        let id = GenericLibFuncId::new(name);
        let result = specialize_libfunc(&id, &[]);
        assert!(matches!(result, Err(SpecializationError::UnsupportedGenericArg)), "{}", name);
    }
}

#[test]
fn wrong_kind_of_argument_is_unsupported() {
    for name in ["felt_add", "felt_const", "uint128_overflow_add", "uint128_const"] {
        let id = GenericLibFuncId::new(name);
        let result = specialize_libfunc(&id, &[GenericArg::Type(ConcreteTypeId::Felt)]);
        assert!(matches!(result, Err(SpecializationError::UnsupportedGenericArg)), "{}", name);
        let result = specialize_libfunc(&id, &[GenericArg::UserFunc(FunctionId { id: 1 })]);
        assert!(matches!(result, Err(SpecializationError::UnsupportedGenericArg)), "{}", name);
    }
}

#[test]
fn uint128_constant_must_be_a_uint128() {
    let id = GenericLibFuncId::new("uint128_const");
    let too_large = BigValue::from_u128(u128::MAX).add(&BigValue::from_u128(1));
    let result = specialize_libfunc(&id, &[GenericArg::Value(too_large)]);
    assert!(matches!(result, Err(SpecializationError::UnsupportedGenericArg)));
    let negative = BigValue::from_u128(0).sub(&BigValue::from_u128(1));
    let id = GenericLibFuncId::new("uint128_overflow_add");
    let result = specialize_libfunc(&id, &[GenericArg::Value(negative)]);
    assert!(matches!(result, Err(SpecializationError::UnsupportedGenericArg)));
    let id = GenericLibFuncId::new("uint128_const");
    match specialize_libfunc(&id, &[value(u128::MAX)]) {
        Ok(CoreConcreteLibFunc::Uint128(Uint128Concrete::Const(libfunc))) => {
            assert_eq!(libfunc.c, u128::MAX)
        }
        _ => panic!("expected a constant"),
    }
}

#[test]
fn specialization_is_deterministic() {
    for name in ["felt_add", "uint128_overflow_mul", "uint128_const", "felt_jump_nz"] {
        let first = specialize_libfunc(&GenericLibFuncId::new(name), &[value(7)]);
        let second = specialize_libfunc(&GenericLibFuncId::new(name), &[value(7)]);
        match (first, second) {
            (Ok(a), Ok(b)) => {
                assert_eq!(a.signature(), b.signature());
                assert_eq!(format!("{:?}", a), format!("{:?}", b));
            }
            (Err(a), Err(b)) => assert_eq!(a, b),
            _ => panic!("two specializations of {} differ", name),
        }
    }
    let first = get_concrete_type(&NonZeroType::id(), &[GenericArg::Type(ConcreteTypeId::Felt)]);
    let second = get_concrete_type(&NonZeroType::id(), &[GenericArg::Type(ConcreteTypeId::Felt)]);
    assert_eq!(first, second);
}

#[test]
fn uint128_overflow_signature_without_argument() {
    for operator in
        [IntOperator::OverflowingAdd, IntOperator::OverflowingSub, IntOperator::OverflowingMul]
    {
        let signature = Uint128OperationLibFunc::new(operator).specialize_signature(&[]).unwrap();
        let branch = BranchSignature {
            vars: vec![
                range_check_output(),
                uint128_output(OutputVarReferenceInfo::Deferred(DeferredOutputKind::Generic)),
            ],
            ap_change: SierraApChange::Known { new_vars_only: false },
        };
        let expected = LibFuncSignature {
            param_signatures: vec![
                ParamSignature::new(ConcreteTypeId::RangeCheck),
                ParamSignature::new(ConcreteTypeId::Uint128),
                ParamSignature::new(ConcreteTypeId::Uint128),
            ],
            branch_signatures: vec![
                branch,
                BranchSignature {
                    vars: vec![
                        range_check_output(),
                        uint128_output(OutputVarReferenceInfo::Deferred(
                            DeferredOutputKind::Generic,
                        )),
                    ],
                    ap_change: SierraApChange::Known { new_vars_only: false },
                },
            ],
            fallthrough: Some(0),
        };
        assert_eq!(signature, expected);
    }
}

#[test]
fn uint128_overflow_signature_with_constant() {
    let signature = Uint128OperationLibFunc::new(IntOperator::OverflowingSub)
        .specialize_signature(&[value(9)])
        .unwrap();
    assert_eq!(
        signature.param_signatures,
        vec![
            ParamSignature::new(ConcreteTypeId::RangeCheck),
            ParamSignature::new(ConcreteTypeId::Uint128),
        ]
    );
    assert_eq!(signature.branch_signatures.len(), 2);
    for branch in signature.branch_signatures.iter() {
        assert_eq!(branch.ap_change, SierraApChange::NotImplemented);
        assert_eq!(
            branch.vars,
            vec![
                range_check_output(),
                uint128_output(OutputVarReferenceInfo::Deferred(DeferredOutputKind::Generic)),
            ]
        );
    }
    assert_eq!(signature.fallthrough, Some(0));
}

#[test]
fn uint128_divmod_signatures() {
    let divmod = Uint128OperationLibFunc::new(IntOperator::DivMod);
    let outputs = vec![
        range_check_output(),
        uint128_output(OutputVarReferenceInfo::NewTempVar { idx: None }),
        uint128_output(OutputVarReferenceInfo::NewTempVar { idx: None }),
    ];
    let signature = divmod.specialize_signature(&[]).unwrap();
    assert_eq!(
        signature.param_signatures,
        vec![
            ParamSignature::new(ConcreteTypeId::RangeCheck),
            ParamSignature::new(ConcreteTypeId::Uint128),
            ParamSignature::new(non_zero(ConcreteTypeId::Uint128)),
        ]
    );
    assert_eq!(signature.branch_signatures.len(), 1);
    assert_eq!(signature.branch_signatures[0].vars, outputs);
    assert_eq!(
        signature.branch_signatures[0].ap_change,
        SierraApChange::Known { new_vars_only: false }
    );
    assert_eq!(signature.fallthrough, Some(0));

    let signature = divmod.specialize_signature(&[value(2)]).unwrap();
    assert_eq!(
        signature.param_signatures,
        vec![
            ParamSignature::new(ConcreteTypeId::RangeCheck),
            ParamSignature::new(ConcreteTypeId::Uint128),
        ]
    );
    assert_eq!(signature.branch_signatures.len(), 1);
    assert_eq!(signature.branch_signatures[0].vars, outputs);

    assert_eq!(
        divmod.specialize_signature(&[value(0)]),
        Err(SpecializationError::UnsupportedGenericArg)
    );
    assert_eq!(
        divmod.specialize_signature(&[value(1), value(2)]),
        Err(SpecializationError::UnsupportedGenericArg)
    );
}

#[test]
fn uint128_operation_by_id() {
    let operator = |name: &str| {
        Uint128OperationLibFunc::by_id(&GenericLibFuncId::new(name)).map(|f| f.operator)
    };
    assert_eq!(operator("uint128_overflow_add"), Some(IntOperator::OverflowingAdd));
    assert_eq!(operator("uint128_overflow_sub"), Some(IntOperator::OverflowingSub));
    assert_eq!(operator("uint128_overflow_mul"), Some(IntOperator::OverflowingMul));
    assert_eq!(operator("uint128_safe_divmod"), Some(IntOperator::DivMod));
    assert_eq!(operator("uint128_lt"), None);
    assert_eq!(operator("felt_add"), None);
}

#[test]
fn uint128_operation_specialize() {
    let add = Uint128OperationLibFunc::new(IntOperator::OverflowingAdd);
    match add.specialize(&[]) {
        Ok(Uint128OperationConcreteLibFunc::Binary(libfunc)) => {
            assert_eq!(libfunc.operator, IntOperator::OverflowingAdd);
            assert_eq!(libfunc.signature(), &add.specialize_signature(&[]).unwrap());
        }
        _ => panic!("expected an operation on two operands"),
    }
    match add.specialize(&[value(12)]) {
        Ok(Uint128OperationConcreteLibFunc::Const(libfunc)) => {
            assert_eq!(libfunc.operator, IntOperator::OverflowingAdd);
            assert_eq!(libfunc.c, 12);
            assert_eq!(libfunc.signature(), &add.specialize_signature(&[value(12)]).unwrap());
        }
        _ => panic!("expected an operation with a constant"),
    }
    assert!(matches!(
        add.specialize(&[GenericArg::Type(ConcreteTypeId::Felt)]),
        Err(SpecializationError::UnsupportedGenericArg)
    ));
}

#[test]
fn uint128_const_signature() {
    let family = Uint128ConstLibFunc {};
    let signature = family.specialize_signature(&[]).unwrap();
    assert_eq!(signature.param_signatures, vec![]);
    assert_eq!(signature.branch_signatures.len(), 1);
    assert_eq!(
        signature.branch_signatures[0].vars,
        vec![uint128_output(OutputVarReferenceInfo::Deferred(DeferredOutputKind::Const))]
    );
    assert_eq!(
        signature.branch_signatures[0].ap_change,
        SierraApChange::Known { new_vars_only: true }
    );
    let concrete = family.specialize(&[value(5)]).unwrap();
    assert_eq!(concrete.c, 5);
    assert_eq!(concrete.signature(), &signature);
    assert_eq!(Uint128ConstLibFunc::id(), GenericLibFuncId::new("uint128_const"));
}

#[test]
fn uint128_comparison_signatures() {
    assert_eq!(
        get_uint128_comparison_types(),
        Ok((ConcreteTypeId::Uint128, ConcreteTypeId::RangeCheck))
    );
    let params = get_uint128_comparison_param_signatures().unwrap();
    assert_eq!(
        params,
        vec![
            ParamSignature::new(ConcreteTypeId::RangeCheck),
            ParamSignature::new(ConcreteTypeId::Uint128),
            ParamSignature::new(ConcreteTypeId::Uint128),
        ]
    );
    let branches = get_uint128_comparison_branch_signatures().unwrap();
    assert_eq!(branches.len(), 2);
    for branch in branches.iter() {
        assert_eq!(branch.vars, vec![range_check_output()]);
        assert_eq!(branch.ap_change, SierraApChange::Known { new_vars_only: false });
    }
    let less_than = Uint128LessThanLibFunc {}.specialize_signature().unwrap();
    let less_or_equal = Uint128LessThanOrEqualLibFunc {}.specialize_signature().unwrap();
    assert_eq!(less_than, less_or_equal);
    assert_eq!(less_than.param_signatures, params);
    assert_eq!(less_than.branch_signatures, branches);
    assert_eq!(less_than.fallthrough, Some(0));
    assert_eq!(Uint128LessThanLibFunc::id(), GenericLibFuncId::new("uint128_lt"));
    assert_eq!(Uint128LessThanOrEqualLibFunc::id(), GenericLibFuncId::new("uint128_le"));
}

#[test]
fn uint128s_from_felt_signature() {
    let signature = Uint128sFromFeltLibFunc {}.specialize_signature().unwrap();
    assert_eq!(
        signature.param_signatures,
        vec![
            ParamSignature::new(ConcreteTypeId::RangeCheck),
            ParamSignature {
                ty: ConcreteTypeId::Felt,
                allow_deferred: false,
                allow_add_const: false,
                allow_const: true,
            },
        ]
    );
    assert_eq!(signature.branch_signatures.len(), 2);
    assert_eq!(
        signature.branch_signatures[0].vars,
        vec![
            range_check_output(),
            uint128_output(OutputVarReferenceInfo::SameAsParam { param_idx: 1 }),
        ]
    );
    assert_eq!(
        signature.branch_signatures[1].vars,
        vec![
            range_check_output(),
            uint128_output(OutputVarReferenceInfo::NewTempVar { idx: None }),
            uint128_output(OutputVarReferenceInfo::NewTempVar { idx: None }),
        ]
    );
    for branch in signature.branch_signatures.iter() {
        assert_eq!(branch.ap_change, SierraApChange::Known { new_vars_only: false });
    }
    assert_eq!(signature.fallthrough, Some(0));
    assert_eq!(Uint128sFromFeltLibFunc::id(), GenericLibFuncId::new("uint128s_from_felt"));
}

#[test]
fn uint128_to_felt_signature() {
    let signature = Uint128ToFeltLibFunc {}.specialize_signature().unwrap();
    assert_eq!(signature.param_signatures, vec![ParamSignature::new(ConcreteTypeId::Uint128)]);
    assert_eq!(signature.branch_signatures.len(), 1);
    assert_eq!(
        signature.branch_signatures[0].vars,
        vec![OutputVarInfo {
            ty: ConcreteTypeId::Felt,
            ref_info: OutputVarReferenceInfo::SameAsParam { param_idx: 0 },
        }]
    );
    assert_eq!(
        signature.branch_signatures[0].ap_change,
        SierraApChange::Known { new_vars_only: true }
    );
    assert_eq!(Uint128ToFeltLibFunc::id(), GenericLibFuncId::new("uint128_to_felt"));
}

#[test]
fn jump_not_zero_signature() {
    let signature = jump_not_zero::specialize_signature(ConcreteTypeId::Uint128).unwrap();
    assert_eq!(signature.param_signatures, vec![ParamSignature::new(ConcreteTypeId::Uint128)]);
    assert_eq!(signature.branch_signatures.len(), 2);
    assert_eq!(signature.branch_signatures[0].vars, vec![]);
    assert_eq!(
        signature.branch_signatures[1].vars,
        vec![OutputVarInfo {
            ty: non_zero(ConcreteTypeId::Uint128),
            ref_info: OutputVarReferenceInfo::SameAsParam { param_idx: 0 },
        }]
    );
    assert_eq!(signature.fallthrough, Some(0));
    let id = Uint128Traits::jump_not_zero();
    match specialize_libfunc(&id, &[]) {
        Ok(CoreConcreteLibFunc::Uint128(Uint128Concrete::JumpNotZero(libfunc))) => {
            assert_eq!(libfunc.signature, signature)
        }
        _ => panic!("expected the jump on uint128"),
    }
    match specialize_libfunc(&FeltTraits::jump_not_zero(), &[]) {
        Ok(CoreConcreteLibFunc::Felt(FeltConcrete::JumpNotZero(libfunc))) => assert_eq!(
            libfunc.signature,
            jump_not_zero::specialize_signature(ConcreteTypeId::Felt).unwrap()
        ),
        _ => panic!("expected the jump on felts"),
    }
}

#[test]
fn felt_operation_signatures() {
    let result = vec![OutputVarInfo {
        ty: ConcreteTypeId::Felt,
        ref_info: OutputVarReferenceInfo::Deferred(DeferredOutputKind::Generic),
    }];
    for (operator, second) in [
        (FeltOperator::Add, ConcreteTypeId::Felt),
        (FeltOperator::Sub, ConcreteTypeId::Felt),
        (FeltOperator::Mul, ConcreteTypeId::Felt),
        (FeltOperator::Div, non_zero(ConcreteTypeId::Felt)),
        (FeltOperator::Mod, non_zero(ConcreteTypeId::Felt)),
    ] {
        let family = FeltOperationLibFunc::new(operator);
        let signature = family.specialize_signature(&[]).unwrap();
        assert_eq!(
            signature.param_signatures,
            vec![ParamSignature::new(ConcreteTypeId::Felt), ParamSignature::new(second)]
        );
        assert_eq!(signature.branch_signatures.len(), 1);
        assert_eq!(signature.branch_signatures[0].vars, result);
        let signature = family.specialize_signature(&[value(3)]).unwrap();
        assert_eq!(signature.param_signatures, vec![ParamSignature::new(ConcreteTypeId::Felt)]);
        assert_eq!(signature.branch_signatures[0].vars, result);
    }
}

#[test]
fn felt_families_by_name() {
    assert_eq!(FeltTraits::add(), GenericLibFuncId::new("felt_add"));
    assert_eq!(FeltTraits::sub(), GenericLibFuncId::new("felt_sub"));
    assert_eq!(FeltTraits::mul(), GenericLibFuncId::new("felt_mul"));
    assert_eq!(FeltTraits::div(), GenericLibFuncId::new("felt_div"));
    assert_eq!(FeltTraits::modulo(), GenericLibFuncId::new("felt_mod"));
    assert_eq!(FeltTraits::constant(), GenericLibFuncId::new("felt_const"));
    assert_eq!(FeltTraits::ignore(), GenericLibFuncId::new("felt_ignore"));
    assert_eq!(FeltTraits::duplicate(), GenericLibFuncId::new("felt_dup"));
    assert_eq!(FeltTraits::jump_not_zero(), GenericLibFuncId::new("felt_jump_nz"));
    assert_eq!(FeltTraits::generic_type_id(), FeltType::id());
    assert_eq!(Uint128Traits::generic_type_id(), Uint128Type::id());
    assert!(matches!(FeltLibFunc::by_id(&FeltTraits::add()), Some(FeltLibFunc::Operation(_))));
    assert!(matches!(FeltLibFunc::by_id(&FeltTraits::constant()), Some(FeltLibFunc::Const(_))));
    assert!(matches!(FeltLibFunc::by_id(&FeltTraits::ignore()), Some(FeltLibFunc::Ignore(_))));
    assert!(matches!(
        FeltLibFunc::by_id(&FeltTraits::duplicate()),
        Some(FeltLibFunc::Duplicate(_))
    ));
    assert!(FeltLibFunc::by_id(&Uint128Traits::jump_not_zero()).is_none());
    assert!(matches!(
        Uint128LibFunc::by_id(&Uint128Traits::jump_not_zero()),
        Some(Uint128LibFunc::JumpNotZero(_))
    ));
    assert!(matches!(CoreLibFunc::by_id(&FeltTraits::mul()), Some(CoreLibFunc::Felt(_))));
    assert!(matches!(
        CoreLibFunc::by_id(&GenericLibFuncId::new("uint128_lt")),
        Some(CoreLibFunc::Uint128(_))
    ));
    assert!(CoreLibFunc::by_id(&GenericLibFuncId::new("felt")).is_none());
}

#[test]
fn felt_specializations() {
    match specialize_libfunc(&FeltTraits::sub(), &[value(4)]) {
        Ok(CoreConcreteLibFunc::Felt(FeltConcrete::BinaryOperation(
            FeltBinaryOperationConcreteLibFunc::Const(libfunc),
        ))) => {
            assert_eq!(libfunc.operator, FeltOperator::Sub);
            assert_eq!(libfunc.c.to_u128(), Some(4));
        }
        _ => panic!("expected a subtraction of a constant"),
    }
    match specialize_libfunc(&FeltTraits::constant(), &[value(11)]) {
        Ok(CoreConcreteLibFunc::Felt(FeltConcrete::Const(libfunc))) => {
            assert_eq!(libfunc.c.to_u128(), Some(11));
            assert_eq!(libfunc.signature.param_signatures, vec![]);
        }
        _ => panic!("expected a constant"),
    }
    match specialize_libfunc(&FeltTraits::ignore(), &[]) {
        Ok(CoreConcreteLibFunc::Drop(libfunc)) => {
            assert_eq!(libfunc.ty, ConcreteTypeId::Felt);
            assert_eq!(
                libfunc.signature.param_signatures,
                vec![ParamSignature::new(ConcreteTypeId::Felt)]
            );
            assert_eq!(libfunc.signature.branch_signatures[0].vars, vec![]);
        }
        _ => panic!("expected the drop of a felt"),
    }
    match specialize_libfunc(&FeltTraits::duplicate(), &[]) {
        Ok(CoreConcreteLibFunc::Dup(libfunc)) => {
            assert_eq!(libfunc.ty, ConcreteTypeId::Felt);
            let copy = || OutputVarInfo {
                ty: ConcreteTypeId::Felt,
                ref_info: OutputVarReferenceInfo::SameAsParam { param_idx: 0 },
            };
            assert_eq!(libfunc.signature.branch_signatures[0].vars, vec![copy(), copy()]);
        }
        _ => panic!("expected the duplication of a felt"),
    }
    assert!(matches!(
        specialize_libfunc(&GenericLibFuncId::new("felt_neg"), &[]),
        Ok(CoreConcreteLibFunc::Felt(FeltConcrete::UnaryOperation(_)))
    ));
}

#[test]
fn types_and_their_properties() {
    let plain = TypeInfo { storable: true, droppable: true, duplicatable: true, size: 1 };
    let builtin = TypeInfo { storable: true, droppable: false, duplicatable: false, size: 1 };
    match specialize_type(&FeltType::id(), &[]) {
        Ok(ty @ CoreTypeConcrete::Felt(_)) => {
            assert_eq!(ty.id(), ConcreteTypeId::Felt);
            assert_eq!(ty.info(), plain);
        }
        _ => panic!("expected the felt type"),
    }
    match specialize_type(&Uint128Type::id(), &[]) {
        Ok(ty @ CoreTypeConcrete::Uint128(_)) => {
            assert_eq!(ty.id(), ConcreteTypeId::Uint128);
            assert_eq!(ty.info(), plain);
        }
        _ => panic!("expected the uint128 type"),
    }
    match specialize_type(&RangeCheckType::id(), &[]) {
        Ok(ty @ CoreTypeConcrete::RangeCheck(_)) => {
            assert_eq!(ty.id(), ConcreteTypeId::RangeCheck);
            assert_eq!(ty.info(), builtin);
        }
        _ => panic!("expected the range check type"),
    }
    match specialize_type(&NonZeroType::id(), &[GenericArg::Type(ConcreteTypeId::RangeCheck)]) {
        Ok(ty @ CoreTypeConcrete::NonZero(_)) => {
            assert_eq!(ty.id(), non_zero(ConcreteTypeId::RangeCheck));
            assert_eq!(ty.info(), builtin);
        }
        _ => panic!("expected a wrapped type"),
    }
    assert_eq!(type_info(&non_zero(non_zero(ConcreteTypeId::Felt))), plain);
    assert_eq!(FeltConcreteType {}.info(), plain);
    assert_eq!(FeltType {}.specialize().id(), ConcreteTypeId::Felt);
    assert_eq!(Uint128Type {}.specialize().info, plain);
    assert_eq!(Uint128Type {}.specialize().id, ConcreteTypeId::Uint128);
}

#[test]
fn type_arguments_are_checked() {
    let unsupported = Err(SpecializationError::UnsupportedGenericArg);
    assert_eq!(get_concrete_type(&FeltType::id(), &[value(1)]), unsupported);
    assert_eq!(get_concrete_type(&Uint128Type::id(), &[value(1)]), unsupported);
    assert_eq!(get_concrete_type(&RangeCheckType::id(), &[value(1)]), unsupported);
    assert_eq!(get_concrete_type(&NonZeroType::id(), &[]), unsupported);
    assert_eq!(get_concrete_type(&NonZeroType::id(), &[value(1)]), unsupported);
    assert_eq!(
        get_concrete_type(
            &NonZeroType::id(),
            &[GenericArg::Type(ConcreteTypeId::Felt), GenericArg::Type(ConcreteTypeId::Felt)]
        ),
        unsupported
    );
    assert_eq!(
        get_wrapped_concrete_type(&NonZeroType::id(), ConcreteTypeId::Uint128),
        Ok(non_zero(ConcreteTypeId::Uint128))
    );
    assert_eq!(
        get_wrapped_concrete_type(&FeltType::id(), ConcreteTypeId::Uint128),
        Err(SpecializationError::UnsupportedGenericArg)
    );
    assert_eq!(
        get_concrete_type(&GenericTypeId::new("Array"), &[]),
        Err(SpecializationError::UnknownId)
    );
}

#[test]
fn concrete_type_ids_compare_and_copy() {
    let a = non_zero(ConcreteTypeId::Felt);
    assert!(a.same(&a.clone()));
    assert!(!a.same(&non_zero(ConcreteTypeId::Uint128)));
    assert!(!a.same(&ConcreteTypeId::Felt));
    assert!(ConcreteTypeId::RangeCheck.same(&ConcreteTypeId::RangeCheck));
}
