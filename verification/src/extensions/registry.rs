//! The catalog of all families: from a name and arguments to the concrete
//! type or instruction.

use crate::extensions::felt::{
    felt_const_specialized, felt_libfunc_by_name, felt_operation_specialized,
    felt_unary_operation_signature, FeltConcrete, FeltConcreteType, FeltKind, FeltLibFunc,
    FeltType, FeltUnaryOperationConcreteLibFunc,
};
use crate::extensions::integer::{
    uint128_libfunc_by_name, uint128_specialized, without_args, Uint128Concrete, Uint128Kind,
    Uint128LibFunc, Uint128Type,
};
use crate::extensions::jump_not_zero;
use crate::extensions::lib_func::{
    with_kind, ConcreteLibFuncView, LibFuncSignature, LibFuncSignatureView,
    SignatureOnlyConcreteLibFunc,
};
use crate::extensions::pod::{
    duplicate_signature, ignore_signature, specialize_duplicate, specialize_ignore,
    SignatureAndTypeConcreteLibFunc,
};
use crate::extensions::types::{
    concrete_type_of, get_concrete_type, type_info, type_info_of, InfoOnlyConcreteType, TypeInfo,
};
use crate::extensions::SpecializationError;
use crate::ids::{ConcreteTypeId, FunctionId, GenericLibFuncId, GenericTypeId};
use crate::program::{GenericArg, GenericArgView};
use vstd::prelude::*;

verus! {

/// The concrete types.
pub enum CoreTypeConcrete {
    Felt(FeltConcreteType),
    Uint128(InfoOnlyConcreteType),
    RangeCheck(InfoOnlyConcreteType),
    NonZero(InfoOnlyConcreteType),
}

impl CoreTypeConcrete {
    /// The identity of the type.
    pub open spec fn type_id(self) -> ConcreteTypeId {
        match self {
            CoreTypeConcrete::Felt(_) => ConcreteTypeId::Felt,
            CoreTypeConcrete::Uint128(ty) => ty.id,
            CoreTypeConcrete::RangeCheck(ty) => ty.id,
            CoreTypeConcrete::NonZero(ty) => ty.id,
        }
    }

    /// The properties of the type.
    pub open spec fn type_info(self) -> TypeInfo {
        match self {
            CoreTypeConcrete::Felt(_) => type_info_of(ConcreteTypeId::Felt),
            CoreTypeConcrete::Uint128(ty) => ty.info,
            CoreTypeConcrete::RangeCheck(ty) => ty.info,
            CoreTypeConcrete::NonZero(ty) => ty.info,
        }
    }

    /// The identity of the type.
    pub fn id(&self) -> (r: ConcreteTypeId)
        ensures
            r == self.type_id(),
    {
        match self {
            CoreTypeConcrete::Felt(ty) => ty.id(),
            CoreTypeConcrete::Uint128(ty) => ty.id.clone(),
            CoreTypeConcrete::RangeCheck(ty) => ty.id.clone(),
            CoreTypeConcrete::NonZero(ty) => ty.id.clone(),
        }
    }

    /// The properties of the type.
    pub fn info(&self) -> (r: TypeInfo)
        ensures
            r == self.type_info(),
    {
        match self {
            CoreTypeConcrete::Felt(ty) => ty.info(),
            CoreTypeConcrete::Uint128(ty) => ty.info,
            CoreTypeConcrete::RangeCheck(ty) => ty.info,
            CoreTypeConcrete::NonZero(ty) => ty.info,
        }
    }
}

/// The concrete type that the family `id` gives for `args`, or why there is
/// none: `UnknownId` for a name that no family has, `UnsupportedGenericArg`
/// for arguments that the family does not take.
pub fn specialize_type(id: &GenericTypeId, args: &[GenericArg]) -> (r: Result<
    CoreTypeConcrete,
    SpecializationError,
>)
    ensures
        match r {
            Ok(ty) => concrete_type_of(id@, args.deep_view()) == Ok::<_, SpecializationError>(
                ty.type_id(),
            ) && ty.type_info() == type_info_of(ty.type_id()) && match ty.type_id() {
                ConcreteTypeId::Felt => ty is Felt,
                ConcreteTypeId::Uint128 => ty is Uint128,
                ConcreteTypeId::RangeCheck => ty is RangeCheck,
                ConcreteTypeId::NonZero(_) => ty is NonZero,
            },
            Err(error) => concrete_type_of(id@, args.deep_view()) == Err::<ConcreteTypeId, _>(
                error,
            ),
        },
{
    let ty = get_concrete_type(id, args)?;
    let info = type_info(&ty);
    match ty {
        ConcreteTypeId::Felt => Ok(CoreTypeConcrete::Felt(FeltType {  }.specialize())),
        ConcreteTypeId::Uint128 => Ok(CoreTypeConcrete::Uint128(Uint128Type {  }.specialize())),
        ConcreteTypeId::RangeCheck => Ok(
            CoreTypeConcrete::RangeCheck(InfoOnlyConcreteType { id: ty, info }),
        ),
        ConcreteTypeId::NonZero(_) => Ok(
            CoreTypeConcrete::NonZero(InfoOnlyConcreteType { id: ty, info }),
        ),
    }
}

/// Which instruction on arrays a concrete instruction is.
#[derive(Clone, Copy, Debug, PartialEq, Eq, Structural)]
pub enum ArrayKind {
    New,
    Append,
    At,
    Len,
}

/// Which instruction on boxes a concrete instruction is.
#[derive(Clone, Copy, Debug, PartialEq, Eq, Structural)]
pub enum BoxKind {
    Into,
    Unbox,
}

/// Which instruction on gas a concrete instruction is.
#[derive(Clone, Copy, Debug, PartialEq, Eq, Structural)]
pub enum GasKind {
    GetGas,
    RefundGas,
}

/// Which instruction on memory a concrete instruction is.
#[derive(Debug)]
pub enum MemKind {
    /// Stores a value of the given type in a temporary variable.
    StoreTemp(ConcreteTypeId),
    /// Moves the allocation pointer past a value of the given type.
    AlignTemps(ConcreteTypeId),
    StoreLocal,
    FinalizeLocals,
    AllocLocal,
    Rename,
}

/// Which instruction on enums a concrete instruction is.
#[derive(Clone, Copy, Debug, PartialEq, Eq, Structural)]
pub enum EnumKind {
    Init,
    Match,
}

/// Which instruction on structs a concrete instruction is.
#[derive(Clone, Copy, Debug, PartialEq, Eq, Structural)]
pub enum StructKind {
    Construct,
    Deconstruct,
}

/// Which instruction on dictionaries a concrete instruction is.
#[derive(Clone, Copy, Debug, PartialEq, Eq, Structural)]
pub enum DictFeltToKind {
    New,
    Read,
    Write,
    Squash,
}

/// Which instruction of StarkNet a concrete instruction is.
#[derive(Clone, Copy, Debug, PartialEq, Eq, Structural)]
pub enum StarkNetKind {
    StorageRead,
    StorageAddressConst,
}

/// A concrete instruction of a family: which one it is, and its signature.
#[derive(Debug)]
pub struct FamilyConcreteLibFunc<K> {
    pub kind: K,
    pub signature: LibFuncSignature,
}

pub type ArrayConcreteLibFunc = FamilyConcreteLibFunc<ArrayKind>;

pub type BoxConcreteLibFunc = FamilyConcreteLibFunc<BoxKind>;

pub type GasConcreteLibFunc = FamilyConcreteLibFunc<GasKind>;

pub type MemConcreteLibFunc = FamilyConcreteLibFunc<MemKind>;

pub type EnumConcreteLibFunc = FamilyConcreteLibFunc<EnumKind>;

pub type StructConcreteLibFunc = FamilyConcreteLibFunc<StructKind>;

pub type DictFeltToConcreteLibFunc = FamilyConcreteLibFunc<DictFeltToKind>;

pub type StarkNetConcreteLibFunc = FamilyConcreteLibFunc<StarkNetKind>;

/// The call of a user function.
#[derive(Debug)]
pub struct FunctionCallConcreteLibFunc {
    pub function: FunctionId,
    pub signature: LibFuncSignature,
}

/// The concrete instructions.
#[derive(Debug)]
pub enum CoreConcreteLibFunc {
    ApTracking(SignatureOnlyConcreteLibFunc),
    Array(ArrayConcreteLibFunc),
    BranchAlign(SignatureOnlyConcreteLibFunc),
    Box(BoxConcreteLibFunc),
    BuiltinCost(SignatureOnlyConcreteLibFunc),
    Drop(SignatureAndTypeConcreteLibFunc),
    Dup(SignatureAndTypeConcreteLibFunc),
    Felt(FeltConcrete),
    FunctionCall(FunctionCallConcreteLibFunc),
    Gas(GasConcreteLibFunc),
    Uint128(Uint128Concrete),
    Mem(MemConcreteLibFunc),
    UnwrapNonZero(SignatureOnlyConcreteLibFunc),
    UnconditionalJump(SignatureOnlyConcreteLibFunc),
    Enum(EnumConcreteLibFunc),
    Struct(StructConcreteLibFunc),
    DictFeltTo(DictFeltToConcreteLibFunc),
    Pedersen(SignatureOnlyConcreteLibFunc),
    StarkNet(StarkNetConcreteLibFunc),
}

/// Which instruction a concrete instruction is.
pub enum CoreLibFuncKind {
    ApTracking,
    Array(ArrayKind),
    BranchAlign,
    Box(BoxKind),
    BuiltinCost,
    Drop(ConcreteTypeId),
    Dup(ConcreteTypeId),
    Felt(FeltKind),
    FunctionCall(FunctionId),
    Gas(GasKind),
    Uint128(Uint128Kind),
    Mem(MemKind),
    UnwrapNonZero,
    UnconditionalJump,
    Enum(EnumKind),
    Struct(StructKind),
    DictFeltTo(DictFeltToKind),
    Pedersen,
    StarkNet(StarkNetKind),
}

impl CoreConcreteLibFunc {
    /// Which instruction this is.
    pub open spec fn kind(self) -> CoreLibFuncKind {
        match self {
            CoreConcreteLibFunc::ApTracking(_) => CoreLibFuncKind::ApTracking,
            CoreConcreteLibFunc::Array(f) => CoreLibFuncKind::Array(f.kind),
            CoreConcreteLibFunc::BranchAlign(_) => CoreLibFuncKind::BranchAlign,
            CoreConcreteLibFunc::Box(f) => CoreLibFuncKind::Box(f.kind),
            CoreConcreteLibFunc::BuiltinCost(_) => CoreLibFuncKind::BuiltinCost,
            CoreConcreteLibFunc::Drop(f) => CoreLibFuncKind::Drop(f.ty),
            CoreConcreteLibFunc::Dup(f) => CoreLibFuncKind::Dup(f.ty),
            CoreConcreteLibFunc::Felt(f) => CoreLibFuncKind::Felt(f@.kind),
            CoreConcreteLibFunc::FunctionCall(f) => CoreLibFuncKind::FunctionCall(f.function),
            CoreConcreteLibFunc::Gas(f) => CoreLibFuncKind::Gas(f.kind),
            CoreConcreteLibFunc::Uint128(f) => CoreLibFuncKind::Uint128(f@.kind),
            CoreConcreteLibFunc::Mem(f) => CoreLibFuncKind::Mem(f.kind),
            CoreConcreteLibFunc::UnwrapNonZero(_) => CoreLibFuncKind::UnwrapNonZero,
            CoreConcreteLibFunc::UnconditionalJump(_) => CoreLibFuncKind::UnconditionalJump,
            CoreConcreteLibFunc::Enum(f) => CoreLibFuncKind::Enum(f.kind),
            CoreConcreteLibFunc::Struct(f) => CoreLibFuncKind::Struct(f.kind),
            CoreConcreteLibFunc::DictFeltTo(f) => CoreLibFuncKind::DictFeltTo(f.kind),
            CoreConcreteLibFunc::Pedersen(_) => CoreLibFuncKind::Pedersen,
            CoreConcreteLibFunc::StarkNet(f) => CoreLibFuncKind::StarkNet(f.kind),
        }
    }

    /// What the signature of this instruction stands for.
    pub open spec fn signature_view(self) -> LibFuncSignatureView {
        match self {
            CoreConcreteLibFunc::ApTracking(f) => f.signature@,
            CoreConcreteLibFunc::Array(f) => f.signature@,
            CoreConcreteLibFunc::BranchAlign(f) => f.signature@,
            CoreConcreteLibFunc::Box(f) => f.signature@,
            CoreConcreteLibFunc::BuiltinCost(f) => f.signature@,
            CoreConcreteLibFunc::Drop(f) => f.signature@,
            CoreConcreteLibFunc::Dup(f) => f.signature@,
            CoreConcreteLibFunc::Felt(f) => f@.signature,
            CoreConcreteLibFunc::FunctionCall(f) => f.signature@,
            CoreConcreteLibFunc::Gas(f) => f.signature@,
            CoreConcreteLibFunc::Uint128(f) => f@.signature,
            CoreConcreteLibFunc::Mem(f) => f.signature@,
            CoreConcreteLibFunc::UnwrapNonZero(f) => f.signature@,
            CoreConcreteLibFunc::UnconditionalJump(f) => f.signature@,
            CoreConcreteLibFunc::Enum(f) => f.signature@,
            CoreConcreteLibFunc::Struct(f) => f.signature@,
            CoreConcreteLibFunc::DictFeltTo(f) => f.signature@,
            CoreConcreteLibFunc::Pedersen(f) => f.signature@,
            CoreConcreteLibFunc::StarkNet(f) => f.signature@,
        }
    }

    /// The signature of this instruction.
    pub fn signature(&self) -> (r: &LibFuncSignature)
        ensures
            r@ == self@.signature,
    {
        match self {
            CoreConcreteLibFunc::ApTracking(f) => &f.signature,
            CoreConcreteLibFunc::Array(f) => &f.signature,
            CoreConcreteLibFunc::BranchAlign(f) => &f.signature,
            CoreConcreteLibFunc::Box(f) => &f.signature,
            CoreConcreteLibFunc::BuiltinCost(f) => &f.signature,
            CoreConcreteLibFunc::Drop(f) => &f.signature,
            CoreConcreteLibFunc::Dup(f) => &f.signature,
            CoreConcreteLibFunc::Felt(f) => f.signature(),
            CoreConcreteLibFunc::FunctionCall(f) => &f.signature,
            CoreConcreteLibFunc::Gas(f) => &f.signature,
            CoreConcreteLibFunc::Uint128(f) => f.signature(),
            CoreConcreteLibFunc::Mem(f) => &f.signature,
            CoreConcreteLibFunc::UnwrapNonZero(f) => &f.signature,
            CoreConcreteLibFunc::UnconditionalJump(f) => &f.signature,
            CoreConcreteLibFunc::Enum(f) => &f.signature,
            CoreConcreteLibFunc::Struct(f) => &f.signature,
            CoreConcreteLibFunc::DictFeltTo(f) => &f.signature,
            CoreConcreteLibFunc::Pedersen(f) => &f.signature,
            CoreConcreteLibFunc::StarkNet(f) => &f.signature,
        }
    }
}

impl View for CoreConcreteLibFunc {
    type V = ConcreteLibFuncView<CoreLibFuncKind>;

    open spec fn view(&self) -> ConcreteLibFuncView<CoreLibFuncKind> {
        ConcreteLibFuncView { kind: self.kind(), signature: self.signature_view() }
    }
}

/// The families of instructions that the catalog holds.
pub enum CoreLibFunc {
    Felt(FeltLibFunc),
    Uint128(Uint128LibFunc),
}

/// The family that the name stands for, if any.
pub open spec fn core_libfunc_by_name(name: Seq<char>) -> Option<CoreLibFunc> {
    if let Some(family) = felt_libfunc_by_name(name) {
        Some(CoreLibFunc::Felt(family))
    } else if let Some(family) = uint128_libfunc_by_name(name) {
        Some(CoreLibFunc::Uint128(family))
    } else {
        None
    }
}

/// The concrete instruction of the kind `wrap(kind)`, where `specialized`
/// holds one of the kind `kind`.
pub open spec fn lifted<K>(
    specialized: Result<ConcreteLibFuncView<K>, SpecializationError>,
    wrap: spec_fn(K) -> CoreLibFuncKind,
) -> Result<ConcreteLibFuncView<CoreLibFuncKind>, SpecializationError> {
    match specialized {
        Ok(libfunc) => Ok(
            ConcreteLibFuncView { kind: wrap(libfunc.kind), signature: libfunc.signature },
        ),
        Err(error) => Err(error),
    }
}

/// The concrete instruction that a family on felts gives for the given
/// arguments. Only the operations on two operands and the constant take any.
pub open spec fn felt_specialized(family: FeltLibFunc, args: Seq<GenericArgView>) -> Result<
    ConcreteLibFuncView<CoreLibFuncKind>,
    SpecializationError,
> {
    let felt = |kind: FeltKind| CoreLibFuncKind::Felt(kind);
    match family {
        FeltLibFunc::Operation(operation) => lifted(
            felt_operation_specialized(operation.operator, args),
            felt,
        ),
        FeltLibFunc::UnaryOperation(operation) => with_kind(
            CoreLibFuncKind::Felt(FeltKind::UnaryOperation(operation.operator)),
            without_args(args, felt_unary_operation_signature()),
        ),
        FeltLibFunc::Const(_) => lifted(felt_const_specialized(args), felt),
        FeltLibFunc::Ignore(_) => with_kind(
            CoreLibFuncKind::Drop(ConcreteTypeId::Felt),
            without_args(args, ignore_signature(ConcreteTypeId::Felt)),
        ),
        FeltLibFunc::Duplicate(_) => with_kind(
            CoreLibFuncKind::Dup(ConcreteTypeId::Felt),
            without_args(args, duplicate_signature(ConcreteTypeId::Felt)),
        ),
        FeltLibFunc::JumpNotZero(_) => with_kind(
            CoreLibFuncKind::Felt(FeltKind::JumpNotZero),
            without_args(args, jump_not_zero::jump_not_zero_signature(ConcreteTypeId::Felt)),
        ),
    }
}

/// The concrete instruction that the family `name` gives for `args`:
/// `UnknownId` where no family has that name, else what the family says.
pub open spec fn libfunc_specialized(name: Seq<char>, args: Seq<GenericArgView>) -> Result<
    ConcreteLibFuncView<CoreLibFuncKind>,
    SpecializationError,
> {
    match core_libfunc_by_name(name) {
        None => Err(SpecializationError::UnknownId),
        Some(CoreLibFunc::Felt(family)) => felt_specialized(family, args),
        Some(CoreLibFunc::Uint128(family)) => lifted(
            uint128_specialized(family, args),
            |kind: Uint128Kind| CoreLibFuncKind::Uint128(kind),
        ),
    }
}

/// What the result of a specialization stands for.
pub open spec fn libfunc_result_view(
    r: Result<CoreConcreteLibFunc, SpecializationError>,
) -> Result<ConcreteLibFuncView<CoreLibFuncKind>, SpecializationError> {
    match r {
        Ok(libfunc) => Ok(libfunc@),
        Err(error) => Err(error),
    }
}

impl FeltLibFunc {
    /// The concrete instruction that the family gives for the given
    /// arguments.
    pub fn specialize(&self, args: &[GenericArg]) -> (r: Result<
        CoreConcreteLibFunc,
        SpecializationError,
    >)
        ensures
            libfunc_result_view(r) == felt_specialized(*self, args.deep_view()),
    {
        match self {
            FeltLibFunc::Operation(operation) => Ok(
                CoreConcreteLibFunc::Felt(
                    FeltConcrete::BinaryOperation(operation.specialize(args)?),
                ),
            ),
            FeltLibFunc::Const(constant) => Ok(
                CoreConcreteLibFunc::Felt(FeltConcrete::Const(constant.specialize(args)?)),
            ),
            FeltLibFunc::UnaryOperation(operation) => {
                if args.len() != 0 {
                    return Err(SpecializationError::UnsupportedGenericArg);
                }
                Ok(
                    CoreConcreteLibFunc::Felt(
                        FeltConcrete::UnaryOperation(
                            FeltUnaryOperationConcreteLibFunc {
                                operator: operation.operator,
                                signature: operation.specialize_signature()?,
                            },
                        ),
                    ),
                )
            },
            FeltLibFunc::Ignore(_) => {
                if args.len() != 0 {
                    return Err(SpecializationError::UnsupportedGenericArg);
                }
                Ok(CoreConcreteLibFunc::Drop(specialize_ignore(ConcreteTypeId::Felt)))
            },
            FeltLibFunc::Duplicate(_) => {
                if args.len() != 0 {
                    return Err(SpecializationError::UnsupportedGenericArg);
                }
                Ok(CoreConcreteLibFunc::Dup(specialize_duplicate(ConcreteTypeId::Felt)))
            },
            FeltLibFunc::JumpNotZero(_) => {
                if args.len() != 0 {
                    return Err(SpecializationError::UnsupportedGenericArg);
                }
                Ok(
                    CoreConcreteLibFunc::Felt(
                        FeltConcrete::JumpNotZero(
                            SignatureOnlyConcreteLibFunc {
                                signature: jump_not_zero::specialize_signature(
                                    ConcreteTypeId::Felt,
                                )?,
                            },
                        ),
                    ),
                )
            },
        }
    }
}

impl CoreLibFunc {
    /// The family that the identifier names, if any.
    pub fn by_id(id: &GenericLibFuncId) -> (r: Option<Self>)
        ensures
            r == core_libfunc_by_name(id@),
    {
        if let Some(family) = FeltLibFunc::by_id(id) {
            Some(CoreLibFunc::Felt(family))
        } else if let Some(family) = Uint128LibFunc::by_id(id) {
            Some(CoreLibFunc::Uint128(family))
        } else {
            None
        }
    }
}

/// The concrete instruction that the family `id` gives for `args`, or why
/// there is none: `UnknownId` for a name that no family has,
/// `UnsupportedGenericArg` for arguments that the family does not take.
pub fn specialize_libfunc(id: &GenericLibFuncId, args: &[GenericArg]) -> (r: Result<
    CoreConcreteLibFunc,
    SpecializationError,
>)
    ensures
        libfunc_result_view(r) == libfunc_specialized(id@, args.deep_view()),
{
    match CoreLibFunc::by_id(id) {
        None => Err(SpecializationError::UnknownId),
        Some(CoreLibFunc::Felt(family)) => family.specialize(args),
        Some(CoreLibFunc::Uint128(family)) => Ok(
            CoreConcreteLibFunc::Uint128(family.specialize(args)?),
        ),
    }
}

/// Specialization depends on the name and the arguments alone: two results
/// of `specialize_libfunc` for names and arguments that stand for the same
/// stand for the same concrete instruction, with the same signature, or are
/// the same error.
pub proof fn lemma_specialize_libfunc_twice(
    id: GenericLibFuncId,
    args: Seq<GenericArg>,
    first: Result<CoreConcreteLibFunc, SpecializationError>,
    other_id: GenericLibFuncId,
    other_args: Seq<GenericArg>,
    second: Result<CoreConcreteLibFunc, SpecializationError>,
)
    requires
        id@ == other_id@,
        args.len() == other_args.len(),
        forall|i: int| 0 <= i < args.len() ==> args[i]@ == other_args[i]@,
        libfunc_result_view(first) == libfunc_specialized(
            id@,
            Seq::new(args.len(), |i: int| args[i]@),
        ),
        libfunc_result_view(second) == libfunc_specialized(
            other_id@,
            Seq::new(other_args.len(), |i: int| other_args[i]@),
        ),
    ensures
        libfunc_result_view(first) == libfunc_result_view(second),
{
    assert(Seq::new(args.len(), |i: int| args[i]@) =~= Seq::new(
        other_args.len(),
        |i: int| other_args[i]@,
    ));
}

/// The identity of a concrete type depends on the name and the arguments
/// alone: two results of `get_concrete_type` for names and arguments that
/// stand for the same are the same.
pub proof fn lemma_get_concrete_type_twice(
    id: GenericTypeId,
    args: Seq<GenericArg>,
    first: Result<ConcreteTypeId, SpecializationError>,
    other_id: GenericTypeId,
    other_args: Seq<GenericArg>,
    second: Result<ConcreteTypeId, SpecializationError>,
)
    requires
        id@ == other_id@,
        args.len() == other_args.len(),
        forall|i: int| 0 <= i < args.len() ==> args[i]@ == other_args[i]@,
        first == concrete_type_of(id@, Seq::new(args.len(), |i: int| args[i]@)),
        second == concrete_type_of(
            other_id@,
            Seq::new(other_args.len(), |i: int| other_args[i]@),
        ),
    ensures
        first == second,
{
    assert(Seq::new(args.len(), |i: int| args[i]@) =~= Seq::new(
        other_args.len(),
        |i: int| other_args[i]@,
    ));
}

} // verus!
