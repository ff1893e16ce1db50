//! The instructions on field elements.

use crate::big_value::BigValue;
use crate::extensions::lib_func::{
    non_branch_signature, signature_result_view, with_kind, ConcreteLibFuncView,
    DeferredOutputKind, LibFuncSignature, LibFuncSignatureView, OutputVarInfo,
    OutputVarReferenceInfo, SierraApChange, SignatureOnlyConcreteLibFunc,
};
use crate::extensions::types::{
    get_concrete_type, get_wrapped_concrete_type, lemma_type_names_differ, NonZeroType, TypeInfo,
};
use crate::extensions::SpecializationError;
use crate::ids::{ConcreteTypeId, GenericLibFuncId, GenericTypeId};
use crate::program::{GenericArg, GenericArgView};
use vstd::prelude::*;

verus! {

/// Type for felt.
/// The native type of the Cairo architecture.
#[derive(Default)]
pub struct FeltType {}

impl FeltType {
    /// The name of the family.
    pub fn id() -> (id: GenericTypeId)
        ensures
            id@ == "felt"@,
    {
        GenericTypeId::new("felt")
    }

    /// The concrete type.
    pub fn specialize(&self) -> FeltConcreteType {
        FeltConcreteType {  }
    }
}

#[derive(Default)]
pub struct FeltConcreteType {}

impl FeltConcreteType {
    /// The identity of the type.
    pub fn id(&self) -> (r: ConcreteTypeId)
        ensures
            r == ConcreteTypeId::Felt,
    {
        ConcreteTypeId::Felt
    }

    /// The properties of the type: a value takes one cell, and may be stored,
    /// dropped and duplicated.
    pub fn info(&self) -> (r: TypeInfo)
        ensures
            r == (TypeInfo { storable: true, droppable: true, duplicatable: true, size: 1 }),
    {
        TypeInfo { storable: true, droppable: true, duplicatable: true, size: 1 }
    }
}

/// The names that the shared families take for felt.
#[derive(Default)]
pub struct FeltTraits {}

impl FeltTraits {
    pub fn ignore() -> (id: GenericLibFuncId)
        ensures
            id@ == "felt_ignore"@,
    {
        GenericLibFuncId::new("felt_ignore")
    }

    pub fn duplicate() -> (id: GenericLibFuncId)
        ensures
            id@ == "felt_dup"@,
    {
        GenericLibFuncId::new("felt_dup")
    }

    pub fn add() -> (id: GenericLibFuncId)
        ensures
            id@ == "felt_add"@,
    {
        GenericLibFuncId::new("felt_add")
    }

    pub fn sub() -> (id: GenericLibFuncId)
        ensures
            id@ == "felt_sub"@,
    {
        GenericLibFuncId::new("felt_sub")
    }

    pub fn mul() -> (id: GenericLibFuncId)
        ensures
            id@ == "felt_mul"@,
    {
        GenericLibFuncId::new("felt_mul")
    }

    pub fn div() -> (id: GenericLibFuncId)
        ensures
            id@ == "felt_div"@,
    {
        GenericLibFuncId::new("felt_div")
    }

    /// Modulo operation for felt would always return 0, as felt division is not integer division.
    pub fn modulo() -> (id: GenericLibFuncId)
        ensures
            id@ == "felt_mod"@,
    {
        GenericLibFuncId::new("felt_mod")
    }

    pub fn constant() -> (id: GenericLibFuncId)
        ensures
            id@ == "felt_const"@,
    {
        GenericLibFuncId::new("felt_const")
    }

    pub fn jump_not_zero() -> (id: GenericLibFuncId)
        ensures
            id@ == "felt_jump_nz"@,
    {
        GenericLibFuncId::new("felt_jump_nz")
    }

    pub fn generic_type_id() -> (id: GenericTypeId)
        ensures
            id@ == "felt"@,
    {
        FeltType::id()
    }
}

/// The arithmetic operators on felts.
#[derive(Copy, Clone, Debug, PartialEq, Eq, Structural)]
pub enum FeltOperator {
    Add,
    Sub,
    Mul,
    Div,
    Mod,
}

/// Which instruction on felts a concrete instruction is.
pub enum FeltKind {
    /// An operation on two operands.
    Operation(FeltOperator),
    /// An operation on one operand and a constant.
    OperationWithConst(FeltOperator, int),
    /// The constant with the given value.
    Const(int),
    /// An operation on one operand.
    UnaryOperation(FeltUnaryOperator),
    JumpNotZero,
}

/// The operation that the name stands for, if any.
pub open spec fn felt_operation_by_name(name: Seq<char>) -> Option<FeltOperationLibFunc> {
    if name == "felt_add"@ {
        Some(FeltOperationLibFunc { operator: FeltOperator::Add })
    } else if name == "felt_sub"@ {
        Some(FeltOperationLibFunc { operator: FeltOperator::Sub })
    } else if name == "felt_mul"@ {
        Some(FeltOperationLibFunc { operator: FeltOperator::Mul })
    } else if name == "felt_div"@ {
        Some(FeltOperationLibFunc { operator: FeltOperator::Div })
    } else if name == "felt_mod"@ {
        Some(FeltOperationLibFunc { operator: FeltOperator::Mod })
    } else {
        None
    }
}

/// Whether the operator divides by its second operand.
pub open spec fn divides(operator: FeltOperator) -> bool {
    operator is Div || operator is Mod
}

/// The one output of an arithmetic instruction on felts.
pub open spec fn felt_result_outputs() -> Seq<OutputVarInfo> {
    seq![
        OutputVarInfo {
            ty: ConcreteTypeId::Felt,
            ref_info: OutputVarReferenceInfo::Deferred(DeferredOutputKind::Generic),
        },
    ]
}

/// The signature of a felt operation. Without an argument both operands are
/// parameters, the second known not to be zero where it divides; with one
/// number as argument, that number is the second operand, and it may not be
/// zero where it divides.
pub open spec fn felt_operation_signature(
    operator: FeltOperator,
    args: Seq<GenericArgView>,
) -> Result<LibFuncSignatureView, SpecializationError> {
    let felt = ConcreteTypeId::Felt;
    if args.len() == 0 {
        Ok(
            non_branch_signature(
                seq![
                    felt,
                    if divides(operator) {
                        ConcreteTypeId::NonZero(Box::new(felt))
                    } else {
                        felt
                    },
                ],
                felt_result_outputs(),
                SierraApChange::Known { new_vars_only: false },
            ),
        )
    } else if args.len() == 1 && args[0] is Value {
        if divides(operator) && args[0]->Value_0 == 0 {
            Err(SpecializationError::UnsupportedGenericArg)
        } else {
            Ok(
                non_branch_signature(
                    seq![felt],
                    felt_result_outputs(),
                    SierraApChange::Known { new_vars_only: false },
                ),
            )
        }
    } else {
        Err(SpecializationError::UnsupportedGenericArg)
    }
}

/// The concrete felt operation for the given arguments, as its signature
/// says.
pub open spec fn felt_operation_specialized(
    operator: FeltOperator,
    args: Seq<GenericArgView>,
) -> Result<ConcreteLibFuncView<FeltKind>, SpecializationError> {
    let signature = felt_operation_signature(operator, args);
    if args.len() == 0 {
        with_kind(FeltKind::Operation(operator), signature)
    } else if args.len() == 1 && args[0] is Value {
        with_kind(FeltKind::OperationWithConst(operator, args[0]->Value_0), signature)
    } else {
        Err(SpecializationError::UnsupportedGenericArg)
    }
}

/// Libfunc for felt operations.
pub struct FeltOperationLibFunc {
    pub operator: FeltOperator,
}

impl FeltOperationLibFunc {
    pub fn new(operator: FeltOperator) -> (r: Self)
        ensures
            r.operator == operator,
    {
        Self { operator }
    }

    /// The operation that the identifier names, if any.
    pub fn by_id(id: &GenericLibFuncId) -> (r: Option<Self>)
        ensures
            r == felt_operation_by_name(id@),
    {
        if id.is("felt_add") {
            Some(Self::new(FeltOperator::Add))
        } else if id.is("felt_sub") {
            Some(Self::new(FeltOperator::Sub))
        } else if id.is("felt_mul") {
            Some(Self::new(FeltOperator::Mul))
        } else if id.is("felt_div") {
            Some(Self::new(FeltOperator::Div))
        } else if id.is("felt_mod") {
            Some(Self::new(FeltOperator::Mod))
        } else {
            None
        }
    }

    /// The signature of the operation for the given arguments.
    pub fn specialize_signature(&self, args: &[GenericArg]) -> (r: Result<
        LibFuncSignature,
        SpecializationError,
    >)
        ensures
            signature_result_view(r) == felt_operation_signature(self.operator, args.deep_view()),
    {
        let no_args: Vec<GenericArg> = Vec::new();
        let none = no_args.as_slice();
        proof {
            lemma_type_names_differ();
            assert(none.deep_view() =~= Seq::<GenericArgView>::empty());
        }
        let ty = get_concrete_type(&FeltType::id(), none)?;
        let divides = matches!(self.operator, FeltOperator::Div | FeltOperator::Mod);
        if args.len() == 0 {
            let second = if divides {
                get_wrapped_concrete_type(&NonZeroType::id(), ty.clone())?
            } else {
                ty.clone()
            };
            let input_types = vec![ty.clone(), second];
            let output_info = vec![
                OutputVarInfo {
                    ty,
                    ref_info: OutputVarReferenceInfo::Deferred(DeferredOutputKind::Generic),
                },
            ];
            assert(output_info@ =~= felt_result_outputs());
            assert(input_types@ =~= seq![ConcreteTypeId::Felt, second]);
            Ok(
                LibFuncSignature::new_non_branch(
                    input_types,
                    output_info,
                    SierraApChange::Known { new_vars_only: false },
                ),
            )
        } else if args.len() == 1 {
            match &args[0] {
                GenericArg::Value(c) => {
                    if divides && c.is_zero() {
                        Err(SpecializationError::UnsupportedGenericArg)
                    } else {
                        let input_types = vec![ty.clone()];
                        let output_info = vec![
                            OutputVarInfo {
                                ty,
                                ref_info: OutputVarReferenceInfo::Deferred(
                                    DeferredOutputKind::Generic,
                                ),
                            },
                        ];
                        assert(output_info@ =~= felt_result_outputs());
                        assert(input_types@ =~= seq![ConcreteTypeId::Felt]);
                        Ok(
                            LibFuncSignature::new_non_branch(
                                input_types,
                                output_info,
                                SierraApChange::Known { new_vars_only: false },
                            ),
                        )
                    }
                },
                _ => Err(SpecializationError::UnsupportedGenericArg),
            }
        } else {
            Err(SpecializationError::UnsupportedGenericArg)
        }
    }

    /// The concrete operation for the given arguments.
    pub fn specialize(&self, args: &[GenericArg]) -> (r: Result<
        FeltBinaryOperationConcreteLibFunc,
        SpecializationError,
    >)
        ensures
            felt_operation_result_view(r) == felt_operation_specialized(
                self.operator,
                args.deep_view(),
            ),
    {
        if args.len() == 0 {
            Ok(
                FeltBinaryOperationConcreteLibFunc::Binary(
                    FeltBinaryOpConcreteLibFunc {
                        operator: self.operator,
                        signature: self.specialize_signature(args)?,
                    },
                ),
            )
        } else if args.len() == 1 {
            match &args[0] {
                GenericArg::Value(c) => Ok(
                    FeltBinaryOperationConcreteLibFunc::Const(
                        FeltOperationWithConstConcreteLibFunc {
                            operator: self.operator,
                            c: c.clone(),
                            signature: self.specialize_signature(args)?,
                        },
                    ),
                ),
                _ => Err(SpecializationError::UnsupportedGenericArg),
            }
        } else {
            Err(SpecializationError::UnsupportedGenericArg)
        }
    }
}

/// A felt operation on two operands.
#[derive(Debug)]
pub struct FeltBinaryOpConcreteLibFunc {
    pub operator: FeltOperator,
    pub signature: LibFuncSignature,
}

/// A felt operation on one operand and a constant.
#[derive(Debug)]
pub struct FeltOperationWithConstConcreteLibFunc {
    pub operator: FeltOperator,
    pub c: BigValue,
    pub signature: LibFuncSignature,
}

/// A concrete felt operation.
#[derive(Debug)]
pub enum FeltBinaryOperationConcreteLibFunc {
    Binary(FeltBinaryOpConcreteLibFunc),
    Const(FeltOperationWithConstConcreteLibFunc),
}

impl View for FeltBinaryOperationConcreteLibFunc {
    type V = ConcreteLibFuncView<FeltKind>;

    open spec fn view(&self) -> ConcreteLibFuncView<FeltKind> {
        match *self {
            FeltBinaryOperationConcreteLibFunc::Binary(f) => ConcreteLibFuncView {
                kind: FeltKind::Operation(f.operator),
                signature: f.signature@,
            },
            FeltBinaryOperationConcreteLibFunc::Const(f) => ConcreteLibFuncView {
                kind: FeltKind::OperationWithConst(f.operator, f.c@),
                signature: f.signature@,
            },
        }
    }
}

impl FeltBinaryOperationConcreteLibFunc {
    pub fn signature(&self) -> (r: &LibFuncSignature)
        ensures
            r@ == self@.signature,
    {
        match self {
            FeltBinaryOperationConcreteLibFunc::Binary(f) => &f.signature,
            FeltBinaryOperationConcreteLibFunc::Const(f) => &f.signature,
        }
    }
}

/// What the result of specializing a felt operation stands for.
pub open spec fn felt_operation_result_view(
    r: Result<FeltBinaryOperationConcreteLibFunc, SpecializationError>,
) -> Result<ConcreteLibFuncView<FeltKind>, SpecializationError> {
    match r {
        Ok(libfunc) => Ok(libfunc@),
        Err(error) => Err(error),
    }
}

/// The signature of the constant: no parameter, and the constant as the one
/// output.
pub open spec fn felt_const_signature() -> LibFuncSignatureView {
    non_branch_signature(
        seq![],
        seq![
            OutputVarInfo {
                ty: ConcreteTypeId::Felt,
                ref_info: OutputVarReferenceInfo::Deferred(DeferredOutputKind::Const),
            },
        ],
        SierraApChange::Known { new_vars_only: true },
    )
}

/// The concrete constant for the given arguments: one number.
pub open spec fn felt_const_specialized(args: Seq<GenericArgView>) -> Result<
    ConcreteLibFuncView<FeltKind>,
    SpecializationError,
> {
    if args.len() == 1 && args[0] is Value {
        Ok(
            ConcreteLibFuncView {
                kind: FeltKind::Const(args[0]->Value_0),
                signature: felt_const_signature(),
            },
        )
    } else {
        Err(SpecializationError::UnsupportedGenericArg)
    }
}

/// LibFunc for creating a constant felt.
#[derive(Default)]
pub struct FeltConstLibFunc {}

impl FeltConstLibFunc {
    /// The signature of the constant, whatever the arguments.
    pub fn specialize_signature(&self, _args: &[GenericArg]) -> (r: Result<
        LibFuncSignature,
        SpecializationError,
    >)
        ensures
            signature_result_view(r) == Ok::<_, SpecializationError>(felt_const_signature()),
    {
        let no_args: Vec<GenericArg> = Vec::new();
        let none = no_args.as_slice();
        proof {
            lemma_type_names_differ();
            assert(none.deep_view() =~= Seq::<GenericArgView>::empty());
        }
        let output_info = vec![
            OutputVarInfo {
                ty: get_concrete_type(&FeltType::id(), none)?,
                ref_info: OutputVarReferenceInfo::Deferred(DeferredOutputKind::Const),
            },
        ];
        let input_types: Vec<ConcreteTypeId> = vec![];
        assert(output_info@ =~= felt_const_signature().branch_signatures[0].vars);
        assert(input_types@ =~= Seq::<ConcreteTypeId>::empty());
        Ok(
            LibFuncSignature::new_non_branch(
                input_types,
                output_info,
                SierraApChange::Known { new_vars_only: true },
            ),
        )
    }

    /// The concrete constant for the given arguments.
    pub fn specialize(&self, args: &[GenericArg]) -> (r: Result<
        FeltConstConcreteLibFunc,
        SpecializationError,
    >)
        ensures
            match r {
                Ok(libfunc) => felt_const_specialized(args.deep_view()) == Ok::<
                    _,
                    SpecializationError,
                >(
                    ConcreteLibFuncView {
                        kind: FeltKind::Const(libfunc.c@),
                        signature: libfunc.signature@,
                    },
                ),
                Err(error) => felt_const_specialized(args.deep_view()) == Err::<
                    ConcreteLibFuncView<FeltKind>,
                    _,
                >(error),
            },
    {
        if args.len() == 1 {
            match &args[0] {
                GenericArg::Value(c) => Ok(
                    FeltConstConcreteLibFunc {
                        c: c.clone(),
                        signature: self.specialize_signature(args)?,
                    },
                ),
                _ => Err(SpecializationError::UnsupportedGenericArg),
            }
        } else {
            Err(SpecializationError::UnsupportedGenericArg)
        }
    }
}

/// The constant felt with the value `c`.
#[derive(Debug)]
pub struct FeltConstConcreteLibFunc {
    pub c: BigValue,
    pub signature: LibFuncSignature,
}

/// The operators on one felt.
#[derive(Copy, Clone, Debug, PartialEq, Eq, Structural)]
pub enum FeltUnaryOperator {
    Neg,
}

/// The signature of a felt operation on one operand.
pub open spec fn felt_unary_operation_signature() -> LibFuncSignatureView {
    non_branch_signature(
        seq![ConcreteTypeId::Felt],
        felt_result_outputs(),
        SierraApChange::Known { new_vars_only: false },
    )
}

/// Libfunc for felt operations on one operand.
pub struct FeltUnaryOperationLibFunc {
    pub operator: FeltUnaryOperator,
}

impl FeltUnaryOperationLibFunc {
    /// The operation that the identifier names, if any.
    pub fn by_id(id: &GenericLibFuncId) -> (r: Option<Self>)
        ensures
            r == (if id@ == "felt_neg"@ {
                Some(FeltUnaryOperationLibFunc { operator: FeltUnaryOperator::Neg })
            } else {
                None
            }),
    {
        if id.is("felt_neg") {
            Some(FeltUnaryOperationLibFunc { operator: FeltUnaryOperator::Neg })
        } else {
            None
        }
    }

    /// The signature of the operation.
    pub fn specialize_signature(&self) -> (r: Result<LibFuncSignature, SpecializationError>)
        ensures
            signature_result_view(r) == Ok::<_, SpecializationError>(
                felt_unary_operation_signature(),
            ),
    {
        let no_args: Vec<GenericArg> = Vec::new();
        let none = no_args.as_slice();
        proof {
            lemma_type_names_differ();
            assert(none.deep_view() =~= Seq::<GenericArgView>::empty());
        }
        let ty = get_concrete_type(&FeltType::id(), none)?;
        let input_types = vec![ty.clone()];
        let output_info = vec![
            OutputVarInfo {
                ty,
                ref_info: OutputVarReferenceInfo::Deferred(DeferredOutputKind::Generic),
            },
        ];
        assert(output_info@ =~= felt_result_outputs());
        assert(input_types@ =~= seq![ConcreteTypeId::Felt]);
        Ok(
            LibFuncSignature::new_non_branch(
                input_types,
                output_info,
                SierraApChange::Known { new_vars_only: false },
            ),
        )
    }
}

/// A felt operation on one operand.
#[derive(Debug)]
pub struct FeltUnaryOperationConcreteLibFunc {
    pub operator: FeltUnaryOperator,
    pub signature: LibFuncSignature,
}

/// The instruction that drops a felt.
#[derive(Default)]
pub struct FeltIgnoreLibFunc {}

/// The instruction that duplicates a felt.
#[derive(Default)]
pub struct FeltDuplicateLibFunc {}

/// The jump that is taken where a felt is not zero.
#[derive(Default)]
pub struct FeltJumpNotZeroLibFunc {}

/// The families of instructions on felts.
pub enum FeltLibFunc {
    Operation(FeltOperationLibFunc),
    UnaryOperation(FeltUnaryOperationLibFunc),
    Const(FeltConstLibFunc),
    Ignore(FeltIgnoreLibFunc),
    Duplicate(FeltDuplicateLibFunc),
    JumpNotZero(FeltJumpNotZeroLibFunc),
}

/// The family on felts that the name stands for, if any.
pub open spec fn felt_libfunc_by_name(name: Seq<char>) -> Option<FeltLibFunc> {
    if let Some(operation) = felt_operation_by_name(name) {
        Some(FeltLibFunc::Operation(operation))
    } else if name == "felt_neg"@ {
        Some(
            FeltLibFunc::UnaryOperation(
                FeltUnaryOperationLibFunc { operator: FeltUnaryOperator::Neg },
            ),
        )
    } else if name == "felt_const"@ {
        Some(FeltLibFunc::Const(FeltConstLibFunc {  }))
    } else if name == "felt_ignore"@ {
        Some(FeltLibFunc::Ignore(FeltIgnoreLibFunc {  }))
    } else if name == "felt_dup"@ {
        Some(FeltLibFunc::Duplicate(FeltDuplicateLibFunc {  }))
    } else if name == "felt_jump_nz"@ {
        Some(FeltLibFunc::JumpNotZero(FeltJumpNotZeroLibFunc {  }))
    } else {
        None
    }
}

impl FeltLibFunc {
    /// The family that the identifier names, if any.
    pub fn by_id(id: &GenericLibFuncId) -> (r: Option<Self>)
        ensures
            r == felt_libfunc_by_name(id@),
    {
        if let Some(operation) = FeltOperationLibFunc::by_id(id) {
            Some(FeltLibFunc::Operation(operation))
        } else if let Some(operation) = FeltUnaryOperationLibFunc::by_id(id) {
            Some(FeltLibFunc::UnaryOperation(operation))
        } else if id.is("felt_const") {
            Some(FeltLibFunc::Const(FeltConstLibFunc {  }))
        } else if id.is("felt_ignore") {
            Some(FeltLibFunc::Ignore(FeltIgnoreLibFunc {  }))
        } else if id.is("felt_dup") {
            Some(FeltLibFunc::Duplicate(FeltDuplicateLibFunc {  }))
        } else if id.is("felt_jump_nz") {
            Some(FeltLibFunc::JumpNotZero(FeltJumpNotZeroLibFunc {  }))
        } else {
            None
        }
    }
}

/// The concrete instructions on felts.
#[derive(Debug)]
pub enum FeltConcrete {
    BinaryOperation(FeltBinaryOperationConcreteLibFunc),
    Const(FeltConstConcreteLibFunc),
    UnaryOperation(FeltUnaryOperationConcreteLibFunc),
    JumpNotZero(SignatureOnlyConcreteLibFunc),
}

impl View for FeltConcrete {
    type V = ConcreteLibFuncView<FeltKind>;

    open spec fn view(&self) -> ConcreteLibFuncView<FeltKind> {
        match *self {
            FeltConcrete::BinaryOperation(f) => f@,
            FeltConcrete::Const(f) => ConcreteLibFuncView {
                kind: FeltKind::Const(f.c@),
                signature: f.signature@,
            },
            FeltConcrete::UnaryOperation(f) => ConcreteLibFuncView {
                kind: FeltKind::UnaryOperation(f.operator),
                signature: f.signature@,
            },
            FeltConcrete::JumpNotZero(f) => ConcreteLibFuncView {
                kind: FeltKind::JumpNotZero,
                signature: f.signature@,
            },
        }
    }
}

impl FeltConcrete {
    pub fn signature(&self) -> (r: &LibFuncSignature)
        ensures
            r@ == self@.signature,
    {
        match self {
            FeltConcrete::BinaryOperation(f) => f.signature(),
            FeltConcrete::Const(f) => &f.signature,
            FeltConcrete::UnaryOperation(f) => &f.signature,
            FeltConcrete::JumpNotZero(f) => &f.signature,
        }
    }
}

} // verus!
