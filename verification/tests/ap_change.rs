use sierra::ap_change::{core_libfunc_ap_change, ApChange};
use sierra::big_value::BigValue;
use sierra::extensions::lib_func::{
    BranchSignature, LibFuncSignature, SierraApChange, SignatureOnlyConcreteLibFunc,
};
use sierra::extensions::registry::{
    specialize_libfunc, ArrayKind, BoxKind, CoreConcreteLibFunc, DictFeltToKind, EnumKind,
    FamilyConcreteLibFunc, FunctionCallConcreteLibFunc, GasKind, MemKind, StarkNetKind,
    StructKind,
};
use sierra::ids::{ConcreteTypeId, FunctionId, GenericLibFuncId};
use sierra::program::GenericArg;

fn signature_with_branches(count: usize) -> LibFuncSignature {
    let mut branch_signatures = vec![];
    for _ in 0..count {
        branch_signatures.push(BranchSignature {
            vars: vec![],
            ap_change: SierraApChange::Known { new_vars_only: false },
        });
    }
    LibFuncSignature { param_signatures: vec![], branch_signatures, fallthrough: Some(0) }
}

fn signature_only(count: usize) -> SignatureOnlyConcreteLibFunc {
    SignatureOnlyConcreteLibFunc { signature: signature_with_branches(count) }
}

fn family<K>(kind: K, count: usize) -> FamilyConcreteLibFunc<K> {
    FamilyConcreteLibFunc { kind, signature: signature_with_branches(count) }
}

fn specialized(name: &str, args: &[GenericArg]) -> CoreConcreteLibFunc {
    specialize_libfunc(&GenericLibFuncId::new(name), args).unwrap()
}

fn value(x: u128) -> GenericArg {
    GenericArg::Value(BigValue::from_u128(x))
}

fn known(changes: &[usize]) -> Vec<ApChange> {
    changes.iter().map(|n| ApChange::Known(*n)).collect()
}

#[test]
fn felt_instructions_leave_the_pointer() {
    for name in ["felt_add", "felt_sub", "felt_mul", "felt_div", "felt_mod", "felt_neg"] {
        assert_eq!(core_libfunc_ap_change(&specialized(name, &[])), known(&[0]), "{}", name);
    }
    assert_eq!(core_libfunc_ap_change(&specialized("felt_add", &[value(3)])), known(&[0]));
    assert_eq!(core_libfunc_ap_change(&specialized("felt_const", &[value(3)])), known(&[0]));
    assert_eq!(core_libfunc_ap_change(&specialized("felt_jump_nz", &[])), known(&[0, 0]));
    assert_eq!(core_libfunc_ap_change(&specialized("felt_ignore", &[])), known(&[0]));
    assert_eq!(core_libfunc_ap_change(&specialized("felt_dup", &[])), known(&[0]));
}

#[test]
fn uint128_instructions() {
    assert_eq!(core_libfunc_ap_change(&specialized("uint128_overflow_add", &[])), known(&[2, 3]));
    assert_eq!(core_libfunc_ap_change(&specialized("uint128_overflow_sub", &[])), known(&[2, 3]));
    assert_eq!(core_libfunc_ap_change(&specialized("uint128_safe_divmod", &[])), known(&[5]));
    assert_eq!(core_libfunc_ap_change(&specialized("uint128_lt", &[])), known(&[2, 3]));
    assert_eq!(core_libfunc_ap_change(&specialized("uint128_le", &[])), known(&[3, 2]));
    assert_eq!(core_libfunc_ap_change(&specialized("uint128s_from_felt", &[])), known(&[1, 6]));
    assert_eq!(core_libfunc_ap_change(&specialized("uint128_const", &[value(1)])), known(&[0]));
    assert_eq!(core_libfunc_ap_change(&specialized("uint128_to_felt", &[])), known(&[0]));
    assert_eq!(core_libfunc_ap_change(&specialized("uint128_jump_nz", &[])), known(&[0, 0]));
}

#[test]
fn instructions_without_a_worked_out_change_are_unknown_on_each_branch() {
    assert_eq!(
        core_libfunc_ap_change(&specialized("uint128_overflow_mul", &[])),
        vec![ApChange::Unknown, ApChange::Unknown]
    );
    for name in ["uint128_overflow_add", "uint128_overflow_sub", "uint128_overflow_mul"] {
        assert_eq!(
            core_libfunc_ap_change(&specialized(name, &[value(2)])),
            vec![ApChange::Unknown, ApChange::Unknown],
            "{}",
            name
        );
    }
    assert_eq!(
        core_libfunc_ap_change(&specialized("uint128_safe_divmod", &[value(2)])),
        vec![ApChange::Unknown]
    );
}

#[test]
fn one_change_for_each_branch_of_every_catalog_instruction() {
    let without_argument = [
        "felt_add",
        "felt_sub",
        "felt_mul",
        "felt_div",
        "felt_mod",
        "felt_neg",
        "felt_ignore",
        "felt_dup",
        "felt_jump_nz",
        "uint128_overflow_add",
        "uint128_overflow_sub",
        "uint128_overflow_mul",
        "uint128_safe_divmod",
        "uint128_lt",
        "uint128_le",
        "uint128s_from_felt",
        "uint128_to_felt",
        "uint128_jump_nz",
    ];
    for name in without_argument {
        let libfunc = specialized(name, &[]);
        assert_eq!(
            core_libfunc_ap_change(&libfunc).len(),
            libfunc.signature().branch_signatures.len(),
            "{}",
            name
        );
    }
    let with_constant = [
        "felt_add",
        "felt_sub",
        "felt_mul",
        "felt_div",
        "felt_mod",
        "felt_const",
        "uint128_overflow_add",
        "uint128_overflow_sub",
        "uint128_overflow_mul",
        "uint128_safe_divmod",
        "uint128_const",
    ];
    for name in with_constant {
        let libfunc = specialized(name, &[value(9)]);
        assert_eq!(
            core_libfunc_ap_change(&libfunc).len(),
            libfunc.signature().branch_signatures.len(),
            "{}",
            name
        );
    }
}

#[test]
fn arrays_boxes_and_gas() {
    let array = |kind| core_libfunc_ap_change(&CoreConcreteLibFunc::Array(family(kind, 1)));
    assert_eq!(array(ArrayKind::New), known(&[1]));
    assert_eq!(array(ArrayKind::Append), known(&[0]));
    assert_eq!(array(ArrayKind::Len), known(&[0]));
    assert_eq!(
        core_libfunc_ap_change(&CoreConcreteLibFunc::Array(family(ArrayKind::At, 2))),
        known(&[5, 3])
    );
    assert_eq!(
        core_libfunc_ap_change(&CoreConcreteLibFunc::Box(family(BoxKind::Into, 1))),
        known(&[0])
    );
    assert_eq!(
        core_libfunc_ap_change(&CoreConcreteLibFunc::Box(family(BoxKind::Unbox, 1))),
        known(&[0])
    );
    assert_eq!(
        core_libfunc_ap_change(&CoreConcreteLibFunc::BuiltinCost(signature_only(2))),
        known(&[2, 3])
    );
    assert_eq!(
        core_libfunc_ap_change(&CoreConcreteLibFunc::Gas(family(GasKind::GetGas, 2))),
        known(&[2, 3])
    );
    assert_eq!(
        core_libfunc_ap_change(&CoreConcreteLibFunc::Gas(family(GasKind::RefundGas, 1))),
        known(&[0])
    );
}

#[test]
fn memory_instructions() {
    let mem = |kind| core_libfunc_ap_change(&CoreConcreteLibFunc::Mem(family(kind, 1)));
    assert_eq!(
        mem(MemKind::StoreTemp(ConcreteTypeId::Uint128)),
        vec![ApChange::KnownByTypeSize(ConcreteTypeId::Uint128)]
    );
    assert_eq!(
        mem(MemKind::AlignTemps(ConcreteTypeId::NonZero(Box::new(ConcreteTypeId::Felt)))),
        vec![ApChange::KnownByTypeSize(ConcreteTypeId::NonZero(Box::new(ConcreteTypeId::Felt)))]
    );
    assert_eq!(mem(MemKind::StoreLocal), known(&[0]));
    assert_eq!(mem(MemKind::FinalizeLocals), vec![ApChange::FinalizeLocals]);
    assert_eq!(mem(MemKind::AllocLocal), known(&[0]));
    assert_eq!(mem(MemKind::Rename), known(&[0]));
}

#[test]
fn function_call_depends_on_the_callee() {
    let libfunc = CoreConcreteLibFunc::FunctionCall(FunctionCallConcreteLibFunc {
        function: FunctionId { id: 42 },
        signature: signature_with_branches(1),
    });
    assert_eq!(
        core_libfunc_ap_change(&libfunc),
        vec![ApChange::FunctionCall(FunctionId { id: 42 })]
    );
}

#[test]
fn enum_match_has_a_change_for_each_variant() {
    for count in [0usize, 1, 2, 7] {
        let libfunc = CoreConcreteLibFunc::Enum(family(EnumKind::Match, count));
        assert_eq!(core_libfunc_ap_change(&libfunc), vec![ApChange::Known(0); count]);
    }
    assert_eq!(
        core_libfunc_ap_change(&CoreConcreteLibFunc::Enum(family(EnumKind::Init, 1))),
        known(&[0])
    );
}

#[test]
fn the_remaining_families() {
    assert_eq!(
        core_libfunc_ap_change(&CoreConcreteLibFunc::ApTracking(signature_only(1))),
        vec![ApChange::Unknown]
    );
    assert_eq!(
        core_libfunc_ap_change(&CoreConcreteLibFunc::BranchAlign(signature_only(1))),
        known(&[0])
    );
    assert_eq!(
        core_libfunc_ap_change(&CoreConcreteLibFunc::UnwrapNonZero(signature_only(1))),
        known(&[0])
    );
    assert_eq!(
        core_libfunc_ap_change(&CoreConcreteLibFunc::UnconditionalJump(signature_only(1))),
        known(&[0])
    );
    assert_eq!(
        core_libfunc_ap_change(&CoreConcreteLibFunc::Pedersen(signature_only(1))),
        known(&[0])
    );
    for kind in [StructKind::Construct, StructKind::Deconstruct] {
        assert_eq!(
            core_libfunc_ap_change(&CoreConcreteLibFunc::Struct(family(kind, 1))),
            known(&[0])
        );
    }
    for kind in [DictFeltToKind::New, DictFeltToKind::Read, DictFeltToKind::Write] {
        assert_eq!(
            core_libfunc_ap_change(&CoreConcreteLibFunc::DictFeltTo(family(kind, 1))),
            known(&[1])
        );
    }
    assert_eq!(
        core_libfunc_ap_change(&CoreConcreteLibFunc::DictFeltTo(family(
            DictFeltToKind::Squash,
            1
        ))),
        vec![ApChange::Unknown]
    );
    assert_eq!(
        core_libfunc_ap_change(&CoreConcreteLibFunc::StarkNet(family(
            StarkNetKind::StorageRead,
            1
        ))),
        known(&[1])
    );
    assert_eq!(
        core_libfunc_ap_change(&CoreConcreteLibFunc::StarkNet(family(
            StarkNetKind::StorageAddressConst,
            1
        ))),
        known(&[0])
    );
}

#[test]
fn ap_change_clones_equal() {
    let change = ApChange::KnownByTypeSize(ConcreteTypeId::RangeCheck);
    assert_eq!(change.clone(), change);
    assert_ne!(ApChange::Known(1), ApChange::Known(2));
}
