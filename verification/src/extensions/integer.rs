//! The instructions on unsigned integers of 128 bits.

use crate::extensions::felt::FeltType;
use crate::extensions::jump_not_zero;
use crate::extensions::lib_func::{
    non_branch_signature, plain_param, signature_result_view, with_kind, BranchSignature,
    BranchSignatureView, ConcreteLibFuncView, DeferredOutputKind, LibFuncSignature,
    LibFuncSignatureView, OutputVarInfo, OutputVarReferenceInfo, ParamSignature, SierraApChange,
    SignatureOnlyConcreteLibFunc,
};
use crate::extensions::types::{
    get_concrete_type, get_wrapped_concrete_type, lemma_type_names_differ, InfoOnlyConcreteType,
    NonZeroType, RangeCheckType, TypeInfo,
};
use crate::extensions::SpecializationError;
use crate::ids::{ConcreteTypeId, GenericLibFuncId, GenericTypeId};
use crate::program::{GenericArg, GenericArgView};
use vstd::prelude::*;

verus! {

/// Type for uint128.
#[derive(Default)]
pub struct Uint128Type {}

impl Uint128Type {
    /// The name of the family.
    pub fn id() -> (id: GenericTypeId)
        ensures
            id@ == "uint128"@,
    {
        GenericTypeId::new("uint128")
    }

    /// The concrete type: a value takes one cell, and may be stored, dropped
    /// and duplicated.
    pub fn specialize(&self) -> (r: InfoOnlyConcreteType)
        ensures
            r.id == ConcreteTypeId::Uint128,
            r.info == (TypeInfo { storable: true, droppable: true, duplicatable: true, size: 1 }),
    {
        InfoOnlyConcreteType {
            id: ConcreteTypeId::Uint128,
            info: TypeInfo { storable: true, droppable: true, duplicatable: true, size: 1 },
        }
    }
}

/// The names that the shared families take for uint128.
#[derive(Default)]
pub struct Uint128Traits {}

impl Uint128Traits {
    /// The name of the jump on a value other than zero.
    pub fn jump_not_zero() -> (id: GenericLibFuncId)
        ensures
            id@ == "uint128_jump_nz"@,
    {
        GenericLibFuncId::new("uint128_jump_nz")
    }

    /// The name of the type family.
    pub fn generic_type_id() -> (id: GenericTypeId)
        ensures
            id@ == "uint128"@,
    {
        Uint128Type::id()
    }
}

/// Operators for integers.
#[derive(Copy, Clone, Debug, PartialEq, Eq, Structural)]
pub enum IntOperator {
    OverflowingAdd,
    OverflowingSub,
    OverflowingMul,
    DivMod,
}

/// The operation that the name stands for, if any.
pub open spec fn uint128_operation_by_name(name: Seq<char>) -> Option<Uint128OperationLibFunc> {
    if name == "uint128_overflow_add"@ {
        Some(Uint128OperationLibFunc { operator: IntOperator::OverflowingAdd })
    } else if name == "uint128_overflow_sub"@ {
        Some(Uint128OperationLibFunc { operator: IntOperator::OverflowingSub })
    } else if name == "uint128_overflow_mul"@ {
        Some(Uint128OperationLibFunc { operator: IntOperator::OverflowingMul })
    } else if name == "uint128_safe_divmod"@ {
        Some(Uint128OperationLibFunc { operator: IntOperator::DivMod })
    } else {
        None
    }
}

/// The output that hands on the range check builtin: the first parameter
/// plus a constant.
pub open spec fn range_check_output() -> OutputVarInfo {
    OutputVarInfo {
        ty: ConcreteTypeId::RangeCheck,
        ref_info: OutputVarReferenceInfo::Deferred(DeferredOutputKind::AddConst { param_idx: 0 }),
    }
}

/// An output of type uint128 that is stored as `ref_info` says.
pub open spec fn uint128_output(ref_info: OutputVarReferenceInfo) -> OutputVarInfo {
    OutputVarInfo { ty: ConcreteTypeId::Uint128, ref_info }
}

/// The outputs of a division: the range check builtin, the quotient and the
/// remainder, both in fresh temporary variables.
pub open spec fn divmod_outputs() -> Seq<OutputVarInfo> {
    seq![
        range_check_output(),
        uint128_output(OutputVarReferenceInfo::NewTempVar { idx: None }),
        uint128_output(OutputVarReferenceInfo::NewTempVar { idx: None }),
    ]
}

/// A branch of an operation that may overflow: the range check builtin and
/// the result.
pub open spec fn overflow_branch(ap_change: SierraApChange) -> BranchSignatureView {
    BranchSignatureView {
        vars: seq![
            range_check_output(),
            uint128_output(OutputVarReferenceInfo::Deferred(DeferredOutputKind::Generic)),
        ],
        ap_change,
    }
}

/// The signature of an operation that may overflow: the first branch is
/// taken, by falling through, where the result fits, the second where it
/// does not.
pub open spec fn overflow_signature(
    param_signatures: Seq<ParamSignature>,
    ap_change: SierraApChange,
) -> LibFuncSignatureView {
    LibFuncSignatureView {
        param_signatures,
        branch_signatures: seq![overflow_branch(ap_change), overflow_branch(ap_change)],
        fallthrough: Some(0usize),
    }
}

/// The signature of a uint128 operation. Without an argument both operands
/// are parameters; with one number as argument, that number is the second
/// operand, and it may not be zero where it divides.
pub open spec fn uint128_operation_signature(
    operator: IntOperator,
    args: Seq<GenericArgView>,
) -> Result<LibFuncSignatureView, SpecializationError> {
    let range_check = ConcreteTypeId::RangeCheck;
    let uint128 = ConcreteTypeId::Uint128;
    if args.len() == 0 {
        if operator is DivMod {
            Ok(
                non_branch_signature(
                    seq![range_check, uint128, ConcreteTypeId::NonZero(Box::new(uint128))],
                    divmod_outputs(),
                    SierraApChange::Known { new_vars_only: false },
                ),
            )
        } else {
            Ok(
                overflow_signature(
                    seq![plain_param(range_check), plain_param(uint128), plain_param(uint128)],
                    SierraApChange::Known { new_vars_only: false },
                ),
            )
        }
    } else if args.len() == 1 && args[0] is Value {
        if operator is DivMod {
            if args[0]->Value_0 != 0 {
                Ok(
                    non_branch_signature(
                        seq![range_check, uint128],
                        divmod_outputs(),
                        SierraApChange::Known { new_vars_only: false },
                    ),
                )
            } else {
                Err(SpecializationError::UnsupportedGenericArg)
            }
        } else {
            Ok(
                overflow_signature(
                    seq![plain_param(range_check), plain_param(uint128)],
                    SierraApChange::NotImplemented,
                ),
            )
        }
    } else {
        Err(SpecializationError::UnsupportedGenericArg)
    }
}

/// Libfunc for uint128 operations.
pub struct Uint128OperationLibFunc {
    pub operator: IntOperator,
}

impl Uint128OperationLibFunc {
    pub fn new(operator: IntOperator) -> (r: Self)
        ensures
            r.operator == operator,
    {
        Self { operator }
    }

    /// The operation that the identifier names, if any.
    pub fn by_id(id: &GenericLibFuncId) -> (r: Option<Self>)
        ensures
            r == uint128_operation_by_name(id@),
    {
        if id.is("uint128_overflow_add") {
            Some(Self::new(IntOperator::OverflowingAdd))
        } else if id.is("uint128_overflow_sub") {
            Some(Self::new(IntOperator::OverflowingSub))
        } else if id.is("uint128_overflow_mul") {
            Some(Self::new(IntOperator::OverflowingMul))
        } else if id.is("uint128_safe_divmod") {
            Some(Self::new(IntOperator::DivMod))
        } else {
            None
        }
    }

    /// The signature of the operation for the given arguments.
    pub fn specialize_signature(&self, args: &[GenericArg]) -> (r: Result<
        LibFuncSignature,
        SpecializationError,
    >)
        ensures
            signature_result_view(r) == uint128_operation_signature(
                self.operator,
                args.deep_view(),
            ),
    {
        let no_args: Vec<GenericArg> = Vec::new();
        let none = no_args.as_slice();
        proof {
            lemma_type_names_differ();
            assert(none.deep_view() =~= Seq::<GenericArgView>::empty());
        }
        let ty = get_concrete_type(&Uint128Type::id(), none)?;
        let range_check_type = get_concrete_type(&RangeCheckType::id(), none)?;
        if args.len() == 0 {
            match self.operator {
                IntOperator::DivMod => {
                    let input_types = vec![
                        range_check_type.clone(),
                        ty.clone(),
                        get_wrapped_concrete_type(&NonZeroType::id(), ty.clone())?,
                    ];
                    let output_info = vec![
                        OutputVarInfo {
                            ty: range_check_type,
                            ref_info: OutputVarReferenceInfo::Deferred(
                                DeferredOutputKind::AddConst { param_idx: 0 },
                            ),
                        },
                        OutputVarInfo {
                            ty: ty.clone(),
                            ref_info: OutputVarReferenceInfo::NewTempVar { idx: None },
                        },
                        OutputVarInfo {
                            ty,
                            ref_info: OutputVarReferenceInfo::NewTempVar { idx: None },
                        },
                    ];
                    assert(output_info@ =~= divmod_outputs());
                    assert(input_types@ =~= seq![
                        ConcreteTypeId::RangeCheck,
                        ConcreteTypeId::Uint128,
                        ConcreteTypeId::NonZero(Box::new(ConcreteTypeId::Uint128)),
                    ]);
                    Ok(
                        LibFuncSignature::new_non_branch(
                            input_types,
                            output_info,
                            SierraApChange::Known { new_vars_only: false },
                        ),
                    )
                },
                IntOperator::OverflowingAdd
                | IntOperator::OverflowingSub
                | IntOperator::OverflowingMul => {
                    let param_signatures = vec![
                        ParamSignature::new(range_check_type.clone()),
                        ParamSignature::new(ty.clone()),
                        ParamSignature::new(ty.clone()),
                    ];
                    Ok(
                        overflow_libfunc_signature(
                            param_signatures,
                            range_check_type,
                            ty,
                            SierraApChange::Known { new_vars_only: false },
                        ),
                    )
                },
            }
        } else if args.len() == 1 {
            match &args[0] {
                GenericArg::Value(c) => {
                    match self.operator {
                        IntOperator::DivMod => {
                            if c.is_zero() {
                                return Err(SpecializationError::UnsupportedGenericArg);
                            }
                            let input_types = vec![range_check_type.clone(), ty.clone()];
                            let output_info = vec![
                                OutputVarInfo {
                                    ty: range_check_type,
                                    ref_info: OutputVarReferenceInfo::Deferred(
                                        DeferredOutputKind::AddConst { param_idx: 0 },
                                    ),
                                },
                                OutputVarInfo {
                                    ty: ty.clone(),
                                    ref_info: OutputVarReferenceInfo::NewTempVar { idx: None },
                                },
                                OutputVarInfo {
                                    ty,
                                    ref_info: OutputVarReferenceInfo::NewTempVar { idx: None },
                                },
                            ];
                            assert(output_info@ =~= divmod_outputs());
                            assert(input_types@ =~= seq![
                                ConcreteTypeId::RangeCheck,
                                ConcreteTypeId::Uint128,
                            ]);
                            Ok(
                                LibFuncSignature::new_non_branch(
                                    input_types,
                                    output_info,
                                    SierraApChange::Known { new_vars_only: false },
                                ),
                            )
                        },
                        IntOperator::OverflowingAdd
                        | IntOperator::OverflowingSub
                        | IntOperator::OverflowingMul => {
                            let param_signatures = vec![
                                ParamSignature::new(range_check_type.clone()),
                                ParamSignature::new(ty.clone()),
                            ];
                            Ok(
                                overflow_libfunc_signature(
                                    param_signatures,
                                    range_check_type,
                                    ty,
                                    SierraApChange::NotImplemented,
                                ),
                            )
                        },
                    }
                },
                _ => Err(SpecializationError::UnsupportedGenericArg),
            }
        } else {
            Err(SpecializationError::UnsupportedGenericArg)
        }
    }

    /// The concrete operation for the given arguments.
    pub fn specialize(&self, args: &[GenericArg]) -> (r: Result<
        Uint128OperationConcreteLibFunc,
        SpecializationError,
    >)
        ensures
            uint128_operation_result_view(r) == uint128_operation_specialized(
                self.operator,
                args.deep_view(),
            ),
    {
        if args.len() == 0 {
            Ok(
                Uint128OperationConcreteLibFunc::Binary(
                    Uint128BinaryOperationConcreteLibFunc {
                        operator: self.operator,
                        signature: self.specialize_signature(args)?,
                    },
                ),
            )
        } else if args.len() == 1 {
            match &args[0] {
                GenericArg::Value(c) => {
                    if matches!(self.operator, IntOperator::DivMod) && c.is_zero() {
                        Err(SpecializationError::UnsupportedGenericArg)
                    } else {
                        match c.to_u128() {
                            Some(c) => Ok(
                                Uint128OperationConcreteLibFunc::Const(
                                    Uint128OperationWithConstConcreteLibFunc {
                                        operator: self.operator,
                                        c,
                                        signature: self.specialize_signature(args)?,
                                    },
                                ),
                            ),
                            None => Err(SpecializationError::UnsupportedGenericArg),
                        }
                    }
                },
                _ => Err(SpecializationError::UnsupportedGenericArg),
            }
        } else {
            Err(SpecializationError::UnsupportedGenericArg)
        }
    }
}

/// Which instruction on uint128 a concrete instruction is.
pub enum Uint128Kind {
    /// An operation on two operands.
    Operation(IntOperator),
    /// An operation on one operand and a constant.
    OperationWithConst(IntOperator, u128),
    LessThan,
    LessThanOrEqual,
    /// The constant with the given value.
    Const(u128),
    FromFelt,
    ToFelt,
    JumpNotZero,
}

/// The concrete uint128 operation for the given arguments: as its signature
/// says, and a constant operand must be a uint128.
pub open spec fn uint128_operation_specialized(
    operator: IntOperator,
    args: Seq<GenericArgView>,
) -> Result<ConcreteLibFuncView<Uint128Kind>, SpecializationError> {
    let signature = uint128_operation_signature(operator, args);
    if args.len() == 0 {
        with_kind(Uint128Kind::Operation(operator), signature)
    } else if args.len() == 1 && args[0] is Value && 0 <= args[0]->Value_0 <= u128::MAX {
        with_kind(
            Uint128Kind::OperationWithConst(operator, args[0]->Value_0 as u128),
            signature,
        )
    } else {
        Err(SpecializationError::UnsupportedGenericArg)
    }
}

/// The signature of an operation that may overflow, with the given
/// parameters: two branches that each hand on the range check builtin and
/// give a result of type `ty`.
fn overflow_libfunc_signature(
    param_signatures: Vec<ParamSignature>,
    range_check_type: ConcreteTypeId,
    ty: ConcreteTypeId,
    ap_change: SierraApChange,
) -> (r: LibFuncSignature)
    requires
        range_check_type == ConcreteTypeId::RangeCheck,
        ty == ConcreteTypeId::Uint128,
    ensures
        r@ == overflow_signature(param_signatures@, ap_change),
{
    let branch_signatures = vec![
        BranchSignature {
            vars: vec![
                OutputVarInfo {
                    ty: range_check_type.clone(),
                    ref_info: OutputVarReferenceInfo::Deferred(
                        DeferredOutputKind::AddConst { param_idx: 0 },
                    ),
                },
                OutputVarInfo {
                    ty: ty.clone(),
                    ref_info: OutputVarReferenceInfo::Deferred(DeferredOutputKind::Generic),
                },
            ],
            ap_change,
        },
        BranchSignature {
            vars: vec![
                OutputVarInfo {
                    ty: range_check_type,
                    ref_info: OutputVarReferenceInfo::Deferred(
                        DeferredOutputKind::AddConst { param_idx: 0 },
                    ),
                },
                OutputVarInfo {
                    ty,
                    ref_info: OutputVarReferenceInfo::Deferred(DeferredOutputKind::Generic),
                },
            ],
            ap_change,
        },
    ];
    let r = LibFuncSignature { param_signatures, branch_signatures, fallthrough: Some(0) };
    proof {
        let expected = overflow_signature(param_signatures@, ap_change);
        assert(r.branch_signatures@[0]@.vars =~= overflow_branch(ap_change).vars);
        assert(r.branch_signatures@[1]@.vars =~= overflow_branch(ap_change).vars);
        assert(r@.branch_signatures =~= expected.branch_signatures);
    }
    r
}

#[derive(Debug)]
pub struct Uint128BinaryOperationConcreteLibFunc {
    pub operator: IntOperator,
    pub signature: LibFuncSignature,
}

impl Uint128BinaryOperationConcreteLibFunc {
    pub fn signature(&self) -> (r: &LibFuncSignature)
        ensures
            *r == self.signature,
    {
        &self.signature
    }
}

/// uint128 operations with a const.
#[derive(Debug)]
pub struct Uint128OperationWithConstConcreteLibFunc {
    pub operator: IntOperator,
    pub c: u128,
    pub signature: LibFuncSignature,
}

impl Uint128OperationWithConstConcreteLibFunc {
    pub fn signature(&self) -> (r: &LibFuncSignature)
        ensures
            *r == self.signature,
    {
        &self.signature
    }
}

/// A concrete uint128 operation.
#[derive(Debug)]
pub enum Uint128OperationConcreteLibFunc {
    Binary(Uint128BinaryOperationConcreteLibFunc),
    Const(Uint128OperationWithConstConcreteLibFunc),
}

impl View for Uint128OperationConcreteLibFunc {
    type V = ConcreteLibFuncView<Uint128Kind>;

    open spec fn view(&self) -> ConcreteLibFuncView<Uint128Kind> {
        match *self {
            Uint128OperationConcreteLibFunc::Binary(f) => ConcreteLibFuncView {
                kind: Uint128Kind::Operation(f.operator),
                signature: f.signature@,
            },
            Uint128OperationConcreteLibFunc::Const(f) => ConcreteLibFuncView {
                kind: Uint128Kind::OperationWithConst(f.operator, f.c),
                signature: f.signature@,
            },
        }
    }
}

impl Uint128OperationConcreteLibFunc {
    pub fn signature(&self) -> (r: &LibFuncSignature)
        ensures
            r@ == self@.signature,
    {
        match self {
            Uint128OperationConcreteLibFunc::Binary(f) => f.signature(),
            Uint128OperationConcreteLibFunc::Const(f) => f.signature(),
        }
    }
}

/// What the result of specializing a uint128 operation stands for.
pub open spec fn uint128_operation_result_view(
    r: Result<Uint128OperationConcreteLibFunc, SpecializationError>,
) -> Result<ConcreteLibFuncView<Uint128Kind>, SpecializationError> {
    match r {
        Ok(libfunc) => Ok(libfunc@),
        Err(error) => Err(error),
    }
}

/// The signature of the constant: no parameter, and the constant as the one
/// output.
pub open spec fn uint128_const_signature() -> LibFuncSignatureView {
    non_branch_signature(
        seq![],
        seq![uint128_output(OutputVarReferenceInfo::Deferred(DeferredOutputKind::Const))],
        SierraApChange::Known { new_vars_only: true },
    )
}

/// The concrete constant for the given arguments: one number, which must be
/// a uint128.
pub open spec fn uint128_const_specialized(args: Seq<GenericArgView>) -> Result<
    ConcreteLibFuncView<Uint128Kind>,
    SpecializationError,
> {
    if args.len() == 1 && args[0] is Value && 0 <= args[0]->Value_0 <= u128::MAX {
        Ok(
            ConcreteLibFuncView {
                kind: Uint128Kind::Const(args[0]->Value_0 as u128),
                signature: uint128_const_signature(),
            },
        )
    } else {
        Err(SpecializationError::UnsupportedGenericArg)
    }
}

/// LibFunc for creating a constant uint128.
#[derive(Default)]
pub struct Uint128ConstLibFunc {}

impl Uint128ConstLibFunc {
    /// The name of the family.
    pub fn id() -> (id: GenericLibFuncId)
        ensures
            id@ == "uint128_const"@,
    {
        GenericLibFuncId::new("uint128_const")
    }

    /// The signature of the constant, whatever the arguments.
    pub fn specialize_signature(&self, _args: &[GenericArg]) -> (r: Result<
        LibFuncSignature,
        SpecializationError,
    >)
        ensures
            signature_result_view(r) == Ok::<_, SpecializationError>(uint128_const_signature()),
    {
        let no_args: Vec<GenericArg> = Vec::new();
        let none = no_args.as_slice();
        proof {
            lemma_type_names_differ();
            assert(none.deep_view() =~= Seq::<GenericArgView>::empty());
        }
        let output_info = vec![
            OutputVarInfo {
                ty: get_concrete_type(&Uint128Type::id(), none)?,
                ref_info: OutputVarReferenceInfo::Deferred(DeferredOutputKind::Const),
            },
        ];
        let input_types: Vec<ConcreteTypeId> = vec![];
        assert(output_info@ =~= uint128_const_signature().branch_signatures[0].vars);
        assert(input_types@ =~= Seq::<ConcreteTypeId>::empty());
        Ok(
            LibFuncSignature::new_non_branch(
                input_types,
                output_info,
                SierraApChange::Known { new_vars_only: true },
            ),
        )
    }

    /// The concrete constant for the given arguments.
    pub fn specialize(&self, args: &[GenericArg]) -> (r: Result<
        Uint128ConstConcreteLibFunc,
        SpecializationError,
    >)
        ensures
            match r {
                Ok(libfunc) => uint128_const_specialized(args.deep_view()) == Ok::<
                    _,
                    SpecializationError,
                >(
                    ConcreteLibFuncView {
                        kind: Uint128Kind::Const(libfunc.c),
                        signature: libfunc.signature@,
                    },
                ),
                Err(error) => uint128_const_specialized(args.deep_view()) == Err::<
                    ConcreteLibFuncView<Uint128Kind>,
                    _,
                >(error),
            },
    {
        if args.len() == 1 {
            match &args[0] {
                GenericArg::Value(c) => match c.to_u128() {
                    Some(c) => Ok(
                        Uint128ConstConcreteLibFunc {
                            c,
                            signature: self.specialize_signature(args)?,
                        },
                    ),
                    None => Err(SpecializationError::UnsupportedGenericArg),
                },
                _ => Err(SpecializationError::UnsupportedGenericArg),
            }
        } else {
            Err(SpecializationError::UnsupportedGenericArg)
        }
    }
}

#[derive(Debug)]
pub struct Uint128ConstConcreteLibFunc {
    pub c: u128,
    pub signature: LibFuncSignature,
}

impl Uint128ConstConcreteLibFunc {
    pub fn signature(&self) -> (r: &LibFuncSignature)
        ensures
            *r == self.signature,
    {
        &self.signature
    }
}

/// The uint128 type and the range check type, in this order.
pub fn get_uint128_comparison_types() -> (r: Result<
    (ConcreteTypeId, ConcreteTypeId),
    SpecializationError,
>)
    ensures
        r == Ok::<_, SpecializationError>((ConcreteTypeId::Uint128, ConcreteTypeId::RangeCheck)),
{
    let no_args: Vec<GenericArg> = Vec::new();
    let none = no_args.as_slice();
    proof {
        lemma_type_names_differ();
        assert(none.deep_view() =~= Seq::<GenericArgView>::empty());
    }
    Ok(
        (
            get_concrete_type(&Uint128Type::id(), none)?,
            get_concrete_type(&RangeCheckType::id(), none)?,
        ),
    )
}

/// A branch of a comparison: it hands on the range check builtin.
pub open spec fn comparison_branch() -> BranchSignatureView {
    BranchSignatureView {
        vars: seq![range_check_output()],
        ap_change: SierraApChange::Known { new_vars_only: false },
    }
}

/// The signature of a comparison of two uint128 values: the range check
/// builtin and the two values come in, and one of two branches is taken.
pub open spec fn uint128_comparison_signature() -> LibFuncSignatureView {
    LibFuncSignatureView {
        param_signatures: seq![
            plain_param(ConcreteTypeId::RangeCheck),
            plain_param(ConcreteTypeId::Uint128),
            plain_param(ConcreteTypeId::Uint128),
        ],
        branch_signatures: seq![comparison_branch(), comparison_branch()],
        fallthrough: Some(0usize),
    }
}

/// Utility method to output the two branches of uint128 comparison signatures.
pub fn get_uint128_comparison_branch_signatures() -> (r: Result<
    Vec<BranchSignature>,
    SpecializationError,
>)
    ensures
        r is Ok,
        r->Ok_0.deep_view() == seq![comparison_branch(), comparison_branch()],
{
    let (_, range_check_type) = get_uint128_comparison_types()?;
    let mut branches: Vec<BranchSignature> = Vec::new();
    let mut i: usize = 0;
    while i < 2
        invariant
            i <= 2,
            range_check_type == ConcreteTypeId::RangeCheck,
            branches@.len() == i,
            forall|k: int| 0 <= k < i ==> (#[trigger] branches@[k])@ == comparison_branch(),
        decreases 2 - i,
    {
        let branch = BranchSignature {
            vars: vec![
                OutputVarInfo {
                    ty: range_check_type.clone(),
                    ref_info: OutputVarReferenceInfo::Deferred(
                        DeferredOutputKind::AddConst { param_idx: 0 },
                    ),
                },
            ],
            ap_change: SierraApChange::Known { new_vars_only: false },
        };
        assert(branch@.vars =~= comparison_branch().vars);
        branches.push(branch);
        i += 1;
    }
    assert(branches.deep_view() =~= seq![comparison_branch(), comparison_branch()]);
    Ok(branches)
}

/// Utility method to output the parameter signatures of uint128 comparison signatures.
pub fn get_uint128_comparison_param_signatures() -> (r: Result<
    Vec<ParamSignature>,
    SpecializationError,
>)
    ensures
        r is Ok,
        r->Ok_0@ == uint128_comparison_signature().param_signatures,
{
    let (uint128_type, range_check_type) = get_uint128_comparison_types()?;
    let params = vec![
        ParamSignature::new(range_check_type),
        ParamSignature::new(uint128_type.clone()),
        ParamSignature::new(uint128_type),
    ];
    assert(params@ =~= uint128_comparison_signature().param_signatures);
    Ok(params)
}

/// LibFunc for comparing uint128s.
#[derive(Default)]
pub struct Uint128LessThanLibFunc {}

impl Uint128LessThanLibFunc {
    /// The name of the family.
    pub fn id() -> (id: GenericLibFuncId)
        ensures
            id@ == "uint128_lt"@,
    {
        GenericLibFuncId::new("uint128_lt")
    }

    /// The signature of the comparison.
    pub fn specialize_signature(&self) -> (r: Result<LibFuncSignature, SpecializationError>)
        ensures
            signature_result_view(r) == Ok::<_, SpecializationError>(
                uint128_comparison_signature(),
            ),
    {
        Ok(
            LibFuncSignature {
                param_signatures: get_uint128_comparison_param_signatures()?,
                branch_signatures: get_uint128_comparison_branch_signatures()?,
                fallthrough: Some(0),
            },
        )
    }
}

/// LibFunc for comparing uint128s.
#[derive(Default)]
pub struct Uint128LessThanOrEqualLibFunc {}

impl Uint128LessThanOrEqualLibFunc {
    /// The name of the family.
    pub fn id() -> (id: GenericLibFuncId)
        ensures
            id@ == "uint128_le"@,
    {
        GenericLibFuncId::new("uint128_le")
    }

    /// The signature of the comparison.
    pub fn specialize_signature(&self) -> (r: Result<LibFuncSignature, SpecializationError>)
        ensures
            signature_result_view(r) == Ok::<_, SpecializationError>(
                uint128_comparison_signature(),
            ),
    {
        Ok(
            LibFuncSignature {
                param_signatures: get_uint128_comparison_param_signatures()?,
                branch_signatures: get_uint128_comparison_branch_signatures()?,
                fallthrough: Some(0),
            },
        )
    }
}

/// The signature of the conversion of a felt: the range check builtin and
/// the felt come in, the felt also as a constant. The first branch, which
/// falls through, gives the value as one uint128, in the storage of the felt;
/// the second gives two uint128 values in fresh temporary variables.
pub open spec fn uint128s_from_felt_signature() -> LibFuncSignatureView {
    LibFuncSignatureView {
        param_signatures: seq![
            plain_param(ConcreteTypeId::RangeCheck),
            ParamSignature {
                ty: ConcreteTypeId::Felt,
                allow_deferred: false,
                allow_add_const: false,
                allow_const: true,
            },
        ],
        branch_signatures: seq![
            BranchSignatureView {
                vars: seq![
                    range_check_output(),
                    uint128_output(OutputVarReferenceInfo::SameAsParam { param_idx: 1 }),
                ],
                ap_change: SierraApChange::Known { new_vars_only: false },
            },
            BranchSignatureView {
                vars: seq![
                    range_check_output(),
                    uint128_output(OutputVarReferenceInfo::NewTempVar { idx: None }),
                    uint128_output(OutputVarReferenceInfo::NewTempVar { idx: None }),
                ],
                ap_change: SierraApChange::Known { new_vars_only: false },
            },
        ],
        fallthrough: Some(0usize),
    }
}

/// LibFunc for converting a felt into a uint128, or the number and the overflow in the case of
/// failure.
#[derive(Default)]
pub struct Uint128sFromFeltLibFunc {}

impl Uint128sFromFeltLibFunc {
    /// The name of the family.
    pub fn id() -> (id: GenericLibFuncId)
        ensures
            id@ == "uint128s_from_felt"@,
    {
        GenericLibFuncId::new("uint128s_from_felt")
    }

    /// The signature of the conversion.
    pub fn specialize_signature(&self) -> (r: Result<LibFuncSignature, SpecializationError>)
        ensures
            signature_result_view(r) == Ok::<_, SpecializationError>(
                uint128s_from_felt_signature(),
            ),
    {
        let no_args: Vec<GenericArg> = Vec::new();
        let none = no_args.as_slice();
        proof {
            lemma_type_names_differ();
            assert(none.deep_view() =~= Seq::<GenericArgView>::empty());
        }
        let range_check_type = get_concrete_type(&RangeCheckType::id(), none)?;
        let r = LibFuncSignature {
            param_signatures: vec![
                ParamSignature::new(range_check_type.clone()),
                ParamSignature {
                    ty: get_concrete_type(&FeltType::id(), none)?,
                    allow_deferred: false,
                    allow_add_const: false,
                    allow_const: true,
                },
            ],
            branch_signatures: vec![
                BranchSignature {
                    vars: vec![
                        OutputVarInfo {
                            ty: range_check_type.clone(),
                            ref_info: OutputVarReferenceInfo::Deferred(
                                DeferredOutputKind::AddConst { param_idx: 0 },
                            ),
                        },
                        OutputVarInfo {
                            ty: get_concrete_type(&Uint128Type::id(), none)?,
                            ref_info: OutputVarReferenceInfo::SameAsParam { param_idx: 1 },
                        },
                    ],
                    ap_change: SierraApChange::Known { new_vars_only: false },
                },
                BranchSignature {
                    vars: vec![
                        OutputVarInfo {
                            ty: range_check_type,
                            ref_info: OutputVarReferenceInfo::Deferred(
                                DeferredOutputKind::AddConst { param_idx: 0 },
                            ),
                        },
                        OutputVarInfo {
                            ty: get_concrete_type(&Uint128Type::id(), none)?,
                            ref_info: OutputVarReferenceInfo::NewTempVar { idx: None },
                        },
                        OutputVarInfo {
                            ty: get_concrete_type(&Uint128Type::id(), none)?,
                            ref_info: OutputVarReferenceInfo::NewTempVar { idx: None },
                        },
                    ],
                    ap_change: SierraApChange::Known { new_vars_only: false },
                },
            ],
            fallthrough: Some(0),
        };
        proof {
            let expected = uint128s_from_felt_signature();
            assert(r.branch_signatures@[0]@.vars =~= expected.branch_signatures[0].vars);
            assert(r.branch_signatures@[1]@.vars =~= expected.branch_signatures[1].vars);
            assert(r@.branch_signatures =~= expected.branch_signatures);
            assert(r@.param_signatures =~= expected.param_signatures);
        }
        Ok(r)
    }
}

/// The signature of the conversion to a felt: the uint128 comes in, and
/// comes out as a felt in the same storage.
pub open spec fn uint128_to_felt_signature() -> LibFuncSignatureView {
    non_branch_signature(
        seq![ConcreteTypeId::Uint128],
        seq![
            OutputVarInfo {
                ty: ConcreteTypeId::Felt,
                ref_info: OutputVarReferenceInfo::SameAsParam { param_idx: 0 },
            },
        ],
        SierraApChange::Known { new_vars_only: true },
    )
}

/// LibFunc for converting a uint128 into a felt.
#[derive(Default)]
pub struct Uint128ToFeltLibFunc {}

impl Uint128ToFeltLibFunc {
    /// The name of the family.
    pub fn id() -> (id: GenericLibFuncId)
        ensures
            id@ == "uint128_to_felt"@,
    {
        GenericLibFuncId::new("uint128_to_felt")
    }

    /// The signature of the conversion.
    pub fn specialize_signature(&self) -> (r: Result<LibFuncSignature, SpecializationError>)
        ensures
            signature_result_view(r) == Ok::<_, SpecializationError>(uint128_to_felt_signature()),
    {
        let no_args: Vec<GenericArg> = Vec::new();
        let none = no_args.as_slice();
        proof {
            lemma_type_names_differ();
            assert(none.deep_view() =~= Seq::<GenericArgView>::empty());
        }
        let input_types = vec![get_concrete_type(&Uint128Type::id(), none)?];
        let output_info = vec![
            OutputVarInfo {
                ty: get_concrete_type(&FeltType::id(), none)?,
                ref_info: OutputVarReferenceInfo::SameAsParam { param_idx: 0 },
            },
        ];
        assert(input_types@ =~= seq![ConcreteTypeId::Uint128]);
        assert(output_info@ =~= uint128_to_felt_signature().branch_signatures[0].vars);
        Ok(
            LibFuncSignature::new_non_branch(
                input_types,
                output_info,
                SierraApChange::Known { new_vars_only: true },
            ),
        )
    }
}

/// The jump that is taken where a uint128 is not zero.
#[derive(Default)]
pub struct Uint128JumpNotZeroLibFunc {}

/// The families of instructions on uint128.
pub enum Uint128LibFunc {
    Operation(Uint128OperationLibFunc),
    LessThan(Uint128LessThanLibFunc),
    LessThanOrEqual(Uint128LessThanOrEqualLibFunc),
    Const(Uint128ConstLibFunc),
    FromFelt(Uint128sFromFeltLibFunc),
    ToFelt(Uint128ToFeltLibFunc),
    JumpNotZero(Uint128JumpNotZeroLibFunc),
}

/// The family on uint128 that the name stands for, if any.
pub open spec fn uint128_libfunc_by_name(name: Seq<char>) -> Option<Uint128LibFunc> {
    if let Some(operation) = uint128_operation_by_name(name) {
        Some(Uint128LibFunc::Operation(operation))
    } else if name == "uint128_lt"@ {
        Some(Uint128LibFunc::LessThan(Uint128LessThanLibFunc {  }))
    } else if name == "uint128_le"@ {
        Some(Uint128LibFunc::LessThanOrEqual(Uint128LessThanOrEqualLibFunc {  }))
    } else if name == "uint128_const"@ {
        Some(Uint128LibFunc::Const(Uint128ConstLibFunc {  }))
    } else if name == "uint128s_from_felt"@ {
        Some(Uint128LibFunc::FromFelt(Uint128sFromFeltLibFunc {  }))
    } else if name == "uint128_to_felt"@ {
        Some(Uint128LibFunc::ToFelt(Uint128ToFeltLibFunc {  }))
    } else if name == "uint128_jump_nz"@ {
        Some(Uint128LibFunc::JumpNotZero(Uint128JumpNotZeroLibFunc {  }))
    } else {
        None
    }
}

/// The signature, or the error, of a family that takes no argument.
pub open spec fn without_args(
    args: Seq<GenericArgView>,
    signature: LibFuncSignatureView,
) -> Result<LibFuncSignatureView, SpecializationError> {
    if args.len() == 0 {
        Ok(signature)
    } else {
        Err(SpecializationError::UnsupportedGenericArg)
    }
}

/// The concrete instruction that a family on uint128 gives for the given
/// arguments. The comparisons, the conversions and the jump take none.
pub open spec fn uint128_specialized(family: Uint128LibFunc, args: Seq<GenericArgView>) -> Result<
    ConcreteLibFuncView<Uint128Kind>,
    SpecializationError,
> {
    match family {
        Uint128LibFunc::Operation(operation) => uint128_operation_specialized(
            operation.operator,
            args,
        ),
        Uint128LibFunc::LessThan(_) => with_kind(
            Uint128Kind::LessThan,
            without_args(args, uint128_comparison_signature()),
        ),
        Uint128LibFunc::LessThanOrEqual(_) => with_kind(
            Uint128Kind::LessThanOrEqual,
            without_args(args, uint128_comparison_signature()),
        ),
        Uint128LibFunc::Const(_) => uint128_const_specialized(args),
        Uint128LibFunc::FromFelt(_) => with_kind(
            Uint128Kind::FromFelt,
            without_args(args, uint128s_from_felt_signature()),
        ),
        Uint128LibFunc::ToFelt(_) => with_kind(
            Uint128Kind::ToFelt,
            without_args(args, uint128_to_felt_signature()),
        ),
        Uint128LibFunc::JumpNotZero(_) => with_kind(
            Uint128Kind::JumpNotZero,
            without_args(
                args,
                jump_not_zero::jump_not_zero_signature(ConcreteTypeId::Uint128),
            ),
        ),
    }
}

/// The concrete instructions on uint128.
#[derive(Debug)]
pub enum Uint128Concrete {
    Operation(Uint128OperationConcreteLibFunc),
    LessThan(SignatureOnlyConcreteLibFunc),
    LessThanOrEqual(SignatureOnlyConcreteLibFunc),
    Const(Uint128ConstConcreteLibFunc),
    FromFelt(SignatureOnlyConcreteLibFunc),
    ToFelt(SignatureOnlyConcreteLibFunc),
    JumpNotZero(SignatureOnlyConcreteLibFunc),
}

impl View for Uint128Concrete {
    type V = ConcreteLibFuncView<Uint128Kind>;

    open spec fn view(&self) -> ConcreteLibFuncView<Uint128Kind> {
        match *self {
            Uint128Concrete::Operation(f) => f@,
            Uint128Concrete::LessThan(f) => ConcreteLibFuncView {
                kind: Uint128Kind::LessThan,
                signature: f.signature@,
            },
            Uint128Concrete::LessThanOrEqual(f) => ConcreteLibFuncView {
                kind: Uint128Kind::LessThanOrEqual,
                signature: f.signature@,
            },
            Uint128Concrete::Const(f) => ConcreteLibFuncView {
                kind: Uint128Kind::Const(f.c),
                signature: f.signature@,
            },
            Uint128Concrete::FromFelt(f) => ConcreteLibFuncView {
                kind: Uint128Kind::FromFelt,
                signature: f.signature@,
            },
            Uint128Concrete::ToFelt(f) => ConcreteLibFuncView {
                kind: Uint128Kind::ToFelt,
                signature: f.signature@,
            },
            Uint128Concrete::JumpNotZero(f) => ConcreteLibFuncView {
                kind: Uint128Kind::JumpNotZero,
                signature: f.signature@,
            },
        }
    }
}

/// What the result of specializing a family on uint128 stands for.
pub open spec fn uint128_result_view(r: Result<Uint128Concrete, SpecializationError>) -> Result<
    ConcreteLibFuncView<Uint128Kind>,
    SpecializationError,
> {
    match r {
        Ok(libfunc) => Ok(libfunc@),
        Err(error) => Err(error),
    }
}

impl Uint128Concrete {
    pub fn signature(&self) -> (r: &LibFuncSignature)
        ensures
            r@ == self@.signature,
    {
        match self {
            Uint128Concrete::Operation(f) => f.signature(),
            Uint128Concrete::LessThan(f) => &f.signature,
            Uint128Concrete::LessThanOrEqual(f) => &f.signature,
            Uint128Concrete::Const(f) => f.signature(),
            Uint128Concrete::FromFelt(f) => &f.signature,
            Uint128Concrete::ToFelt(f) => &f.signature,
            Uint128Concrete::JumpNotZero(f) => &f.signature,
        }
    }
}

impl Uint128LibFunc {
    /// The family that the identifier names, if any.
    pub fn by_id(id: &GenericLibFuncId) -> (r: Option<Self>)
        ensures
            r == uint128_libfunc_by_name(id@),
    {
        if let Some(operation) = Uint128OperationLibFunc::by_id(id) {
            Some(Uint128LibFunc::Operation(operation))
        } else if id.is("uint128_lt") {
            Some(Uint128LibFunc::LessThan(Uint128LessThanLibFunc {  }))
        } else if id.is("uint128_le") {
            Some(Uint128LibFunc::LessThanOrEqual(Uint128LessThanOrEqualLibFunc {  }))
        } else if id.is("uint128_const") {
            Some(Uint128LibFunc::Const(Uint128ConstLibFunc {  }))
        } else if id.is("uint128s_from_felt") {
            Some(Uint128LibFunc::FromFelt(Uint128sFromFeltLibFunc {  }))
        } else if id.is("uint128_to_felt") {
            Some(Uint128LibFunc::ToFelt(Uint128ToFeltLibFunc {  }))
        } else if id.is("uint128_jump_nz") {
            Some(Uint128LibFunc::JumpNotZero(Uint128JumpNotZeroLibFunc {  }))
        } else {
            None
        }
    }

    /// The concrete instruction that the family gives for the given
    /// arguments.
    pub fn specialize(&self, args: &[GenericArg]) -> (r: Result<
        Uint128Concrete,
        SpecializationError,
    >)
        ensures
            uint128_result_view(r) == uint128_specialized(*self, args.deep_view()),
    {
        match self {
            Uint128LibFunc::Operation(operation) => Ok(
                Uint128Concrete::Operation(operation.specialize(args)?),
            ),
            Uint128LibFunc::Const(constant) => Ok(
                Uint128Concrete::Const(constant.specialize(args)?),
            ),
            _ => {
                if args.len() != 0 {
                    return Err(SpecializationError::UnsupportedGenericArg);
                }
                match self {
                    Uint128LibFunc::LessThan(family) => Ok(
                        Uint128Concrete::LessThan(
                            SignatureOnlyConcreteLibFunc {
                                signature: family.specialize_signature()?,
                            },
                        ),
                    ),
                    Uint128LibFunc::LessThanOrEqual(family) => Ok(
                        Uint128Concrete::LessThanOrEqual(
                            SignatureOnlyConcreteLibFunc {
                                signature: family.specialize_signature()?,
                            },
                        ),
                    ),
                    Uint128LibFunc::FromFelt(family) => Ok(
                        Uint128Concrete::FromFelt(
                            SignatureOnlyConcreteLibFunc {
                                signature: family.specialize_signature()?,
                            },
                        ),
                    ),
                    Uint128LibFunc::ToFelt(family) => Ok(
                        Uint128Concrete::ToFelt(
                            SignatureOnlyConcreteLibFunc {
                                signature: family.specialize_signature()?,
                            },
                        ),
                    ),
                    _ => Ok(
                        Uint128Concrete::JumpNotZero(
                            SignatureOnlyConcreteLibFunc {
                                signature: jump_not_zero::specialize_signature(
                                    ConcreteTypeId::Uint128,
                                )?,
                            },
                        ),
                    ),
                }
            },
        }
    }
}

} // verus!
