//! How each instruction moves the allocation pointer, branch by branch.

use crate::extensions::felt::{FeltConcrete, FeltKind};
use crate::extensions::integer::{
    IntOperator, Uint128Concrete, Uint128Kind, Uint128OperationConcreteLibFunc,
};
use crate::extensions::registry::{
    libfunc_specialized, ArrayKind, CoreConcreteLibFunc, CoreLibFuncKind, DictFeltToKind,
    EnumKind, GasKind, MemKind, StarkNetKind,
};
use crate::ids::{ConcreteTypeId, FunctionId};
use crate::program::GenericArgView;
use vstd::prelude::*;

verus! {

/// The change of the allocation pointer over one branch of an instruction.
#[derive(Debug, PartialEq, Eq)]
pub enum ApChange {
    /// The pointer moves by the given number of cells.
    Known(usize),
    /// The pointer moves by the size of the given type.
    KnownByTypeSize(ConcreteTypeId),
    /// The pointer moves as the called function moves it.
    FunctionCall(FunctionId),
    /// The locals are finalized here.
    FinalizeLocals,
    /// The change is not known before the program runs.
    Unknown,
}

impl Clone for ApChange {
    fn clone(&self) -> (r: Self)
        ensures
            r == *self,
    {
        match self {
            ApChange::Known(n) => ApChange::Known(*n),
            ApChange::KnownByTypeSize(ty) => ApChange::KnownByTypeSize(ty.clone()),
            ApChange::FunctionCall(f) => ApChange::FunctionCall(*f),
            ApChange::FinalizeLocals => ApChange::FinalizeLocals,
            ApChange::Unknown => ApChange::Unknown,
        }
    }
}

/// The changes of the allocation pointer of an instruction of the given kind
/// whose signature has `branches` branches, one for each branch in their
/// order. Where the change of an instruction is not worked out, it is
/// `Unknown` on each of its branches.
pub open spec fn ap_change_of(kind: CoreLibFuncKind, branches: nat) -> Seq<ApChange> {
    match kind {
        CoreLibFuncKind::ApTracking => seq![ApChange::Unknown],
        CoreLibFuncKind::Array(ArrayKind::New) => seq![ApChange::Known(1)],
        CoreLibFuncKind::Array(ArrayKind::Append) => seq![ApChange::Known(0)],
        CoreLibFuncKind::Array(ArrayKind::At) => seq![ApChange::Known(5), ApChange::Known(3)],
        CoreLibFuncKind::Array(ArrayKind::Len) => seq![ApChange::Known(0)],
        CoreLibFuncKind::BranchAlign => seq![ApChange::Known(0)],
        CoreLibFuncKind::Box(_) => seq![ApChange::Known(0)],
        CoreLibFuncKind::BuiltinCost => seq![ApChange::Known(2), ApChange::Known(3)],
        CoreLibFuncKind::Drop(_) | CoreLibFuncKind::Dup(_) => seq![ApChange::Known(0)],
        CoreLibFuncKind::Felt(FeltKind::JumpNotZero) => seq![
            ApChange::Known(0),
            ApChange::Known(0),
        ],
        CoreLibFuncKind::Felt(_) => seq![ApChange::Known(0)],
        CoreLibFuncKind::FunctionCall(function) => seq![ApChange::FunctionCall(function)],
        CoreLibFuncKind::Gas(GasKind::GetGas) => seq![ApChange::Known(2), ApChange::Known(3)],
        CoreLibFuncKind::Gas(GasKind::RefundGas) => seq![ApChange::Known(0)],
        CoreLibFuncKind::Uint128(Uint128Kind::Operation(operator)) => match operator {
            IntOperator::OverflowingAdd | IntOperator::OverflowingSub => seq![
                ApChange::Known(2),
                ApChange::Known(3),
            ],
            IntOperator::OverflowingMul => seq![ApChange::Unknown, ApChange::Unknown],
            IntOperator::DivMod => seq![ApChange::Known(5)],
        },
        CoreLibFuncKind::Uint128(Uint128Kind::OperationWithConst(operator, _)) => match operator {
            IntOperator::DivMod => seq![ApChange::Unknown],
            _ => seq![ApChange::Unknown, ApChange::Unknown],
        },
        CoreLibFuncKind::Uint128(Uint128Kind::LessThan) => seq![
            ApChange::Known(2),
            ApChange::Known(3),
        ],
        CoreLibFuncKind::Uint128(Uint128Kind::LessThanOrEqual) => seq![
            ApChange::Known(3),
            ApChange::Known(2),
        ],
        CoreLibFuncKind::Uint128(Uint128Kind::FromFelt) => seq![
            ApChange::Known(1),
            ApChange::Known(6),
        ],
        CoreLibFuncKind::Uint128(Uint128Kind::Const(_))
        | CoreLibFuncKind::Uint128(Uint128Kind::ToFelt) => seq![ApChange::Known(0)],
        CoreLibFuncKind::Uint128(Uint128Kind::JumpNotZero) => seq![
            ApChange::Known(0),
            ApChange::Known(0),
        ],
        CoreLibFuncKind::Mem(MemKind::StoreTemp(ty)) => seq![ApChange::KnownByTypeSize(ty)],
        CoreLibFuncKind::Mem(MemKind::AlignTemps(ty)) => seq![ApChange::KnownByTypeSize(ty)],
        CoreLibFuncKind::Mem(MemKind::StoreLocal) => seq![ApChange::Known(0)],
        CoreLibFuncKind::Mem(MemKind::FinalizeLocals) => seq![ApChange::FinalizeLocals],
        CoreLibFuncKind::Mem(MemKind::AllocLocal) | CoreLibFuncKind::Mem(MemKind::Rename) => seq![
            ApChange::Known(0),
        ],
        CoreLibFuncKind::UnwrapNonZero => seq![ApChange::Known(0)],
        CoreLibFuncKind::UnconditionalJump => seq![ApChange::Known(0)],
        CoreLibFuncKind::Enum(EnumKind::Init) => seq![ApChange::Known(0)],
        CoreLibFuncKind::Enum(EnumKind::Match) => Seq::new(branches, |i: int| ApChange::Known(0)),
        CoreLibFuncKind::Struct(_) => seq![ApChange::Known(0)],
        CoreLibFuncKind::DictFeltTo(DictFeltToKind::New) => seq![ApChange::Known(1)],
        CoreLibFuncKind::DictFeltTo(DictFeltToKind::Read) => seq![ApChange::Known(1)],
        CoreLibFuncKind::DictFeltTo(DictFeltToKind::Write) => seq![ApChange::Known(1)],
        CoreLibFuncKind::DictFeltTo(DictFeltToKind::Squash) => seq![ApChange::Unknown],
        CoreLibFuncKind::Pedersen => seq![ApChange::Known(0)],
        CoreLibFuncKind::StarkNet(StarkNetKind::StorageRead) => seq![ApChange::Known(1)],
        CoreLibFuncKind::StarkNet(StarkNetKind::StorageAddressConst) => seq![ApChange::Known(0)],
    }
}

/// The number of branches that the signature of an instruction of the given
/// kind has. A match on an enum has as many as the enum has variants, which
/// the kind does not tell.
pub open spec fn declared_branches(kind: CoreLibFuncKind) -> Option<nat> {
    match kind {
        CoreLibFuncKind::Array(ArrayKind::At) => Some(2),
        CoreLibFuncKind::BuiltinCost => Some(2),
        CoreLibFuncKind::Felt(FeltKind::JumpNotZero) => Some(2),
        CoreLibFuncKind::Gas(GasKind::GetGas) => Some(2),
        CoreLibFuncKind::Uint128(Uint128Kind::Operation(operator)) => if operator is DivMod {
            Some(1)
        } else {
            Some(2)
        },
        CoreLibFuncKind::Uint128(Uint128Kind::OperationWithConst(operator, _)) => if operator
            is DivMod {
            Some(1)
        } else {
            Some(2)
        },
        CoreLibFuncKind::Uint128(Uint128Kind::LessThan) => Some(2),
        CoreLibFuncKind::Uint128(Uint128Kind::LessThanOrEqual) => Some(2),
        CoreLibFuncKind::Uint128(Uint128Kind::FromFelt) => Some(2),
        CoreLibFuncKind::Uint128(Uint128Kind::JumpNotZero) => Some(2),
        CoreLibFuncKind::Enum(EnumKind::Match) => None,
        _ => Some(1),
    }
}

/// Returns the ap change for a core libfunc, one entry for each branch.
pub fn core_libfunc_ap_change(libfunc: &CoreConcreteLibFunc) -> (r: Vec<ApChange>)
    ensures
        r@ == ap_change_of(libfunc@.kind, libfunc@.signature.branch_signatures.len()),
{
    let r = match libfunc {
        CoreConcreteLibFunc::ApTracking(_) => vec![ApChange::Unknown],
        CoreConcreteLibFunc::Array(libfunc) => match libfunc.kind {
            ArrayKind::New => vec![ApChange::Known(1)],
            ArrayKind::Append => vec![ApChange::Known(0)],
            ArrayKind::At => vec![ApChange::Known(5), ApChange::Known(3)],
            ArrayKind::Len => vec![ApChange::Known(0)],
        },
        CoreConcreteLibFunc::BranchAlign(_) => vec![ApChange::Known(0)],
        CoreConcreteLibFunc::Box(_) => vec![ApChange::Known(0)],
        CoreConcreteLibFunc::BuiltinCost(_) => vec![ApChange::Known(2), ApChange::Known(3)],
        CoreConcreteLibFunc::Drop(_) | CoreConcreteLibFunc::Dup(_) => vec![ApChange::Known(0)],
        CoreConcreteLibFunc::Felt(libfunc) => match libfunc {
            FeltConcrete::BinaryOperation(_)
            | FeltConcrete::Const(_)
            | FeltConcrete::UnaryOperation(_) => vec![ApChange::Known(0)],
            FeltConcrete::JumpNotZero(_) => vec![ApChange::Known(0), ApChange::Known(0)],
        },
        CoreConcreteLibFunc::FunctionCall(libfunc) => {
            vec![ApChange::FunctionCall(libfunc.function)]
        },
        CoreConcreteLibFunc::Gas(libfunc) => match libfunc.kind {
            GasKind::GetGas => vec![ApChange::Known(2), ApChange::Known(3)],
            GasKind::RefundGas => vec![ApChange::Known(0)],
        },
        CoreConcreteLibFunc::Uint128(libfunc) => match libfunc {
            Uint128Concrete::Operation(libfunc) => match libfunc {
                Uint128OperationConcreteLibFunc::Binary(libfunc) => match libfunc.operator {
                    IntOperator::OverflowingAdd | IntOperator::OverflowingSub => {
                        vec![ApChange::Known(2), ApChange::Known(3)]
                    },
                    IntOperator::OverflowingMul => vec![ApChange::Unknown, ApChange::Unknown],
                    IntOperator::DivMod => vec![ApChange::Known(5)],
                },
                Uint128OperationConcreteLibFunc::Const(libfunc) => match libfunc.operator {
                    IntOperator::DivMod => vec![ApChange::Unknown],
                    _ => vec![ApChange::Unknown, ApChange::Unknown],
                },
            },
            Uint128Concrete::LessThan(_) => vec![ApChange::Known(2), ApChange::Known(3)],
            Uint128Concrete::LessThanOrEqual(_) => vec![ApChange::Known(3), ApChange::Known(2)],
            Uint128Concrete::FromFelt(_) => vec![ApChange::Known(1), ApChange::Known(6)],
            Uint128Concrete::Const(_) | Uint128Concrete::ToFelt(_) => vec![ApChange::Known(0)],
            Uint128Concrete::JumpNotZero(_) => vec![ApChange::Known(0), ApChange::Known(0)],
        },
        CoreConcreteLibFunc::Mem(libfunc) => match &libfunc.kind {
            MemKind::StoreTemp(ty) => vec![ApChange::KnownByTypeSize(ty.clone())],
            MemKind::AlignTemps(ty) => vec![ApChange::KnownByTypeSize(ty.clone())],
            MemKind::StoreLocal => vec![ApChange::Known(0)],
            MemKind::FinalizeLocals => vec![ApChange::FinalizeLocals],
            MemKind::AllocLocal | MemKind::Rename => vec![ApChange::Known(0)],
        },
        CoreConcreteLibFunc::UnwrapNonZero(_) => vec![ApChange::Known(0)],
        CoreConcreteLibFunc::UnconditionalJump(_) => vec![ApChange::Known(0)],
        CoreConcreteLibFunc::Enum(libfunc) => match libfunc.kind {
            EnumKind::Init => vec![ApChange::Known(0)],
            EnumKind::Match => {
                let count = libfunc.signature.branch_signatures.len();
                let mut changes: Vec<ApChange> = Vec::new();
                while changes.len() < count
                    invariant
                        changes@.len() <= count,
                        forall|i: int| 0 <= i < changes@.len() ==> changes@[i] == ApChange::Known(0),
                    decreases count - changes@.len(),
                {
                    changes.push(ApChange::Known(0));
                }
                changes
            },
        },
        CoreConcreteLibFunc::Struct(_) => vec![ApChange::Known(0)],
        CoreConcreteLibFunc::DictFeltTo(libfunc) => match libfunc.kind {
            DictFeltToKind::New => vec![ApChange::Known(1)],
            DictFeltToKind::Read => vec![ApChange::Known(1)],
            DictFeltToKind::Write => vec![ApChange::Known(1)],
            DictFeltToKind::Squash => vec![ApChange::Unknown],
        },
        CoreConcreteLibFunc::Pedersen(_) => vec![ApChange::Known(0)],
        CoreConcreteLibFunc::StarkNet(libfunc) => match libfunc.kind {
            StarkNetKind::StorageRead => vec![ApChange::Known(1)],
            StarkNetKind::StorageAddressConst => vec![ApChange::Known(0)],
        },
    };
    assert(r@ =~= ap_change_of(libfunc@.kind, libfunc@.signature.branch_signatures.len()));
    r
}

/// Every kind of instruction has exactly one change of the allocation pointer
/// for each branch that its signature has: where the signature has the number
/// of branches that the kind declares, the changes are as many.
pub proof fn lemma_ap_change_per_branch(kind: CoreLibFuncKind, branches: nat)
    requires
        declared_branches(kind) matches Some(n) ==> n == branches,
    ensures
        ap_change_of(kind, branches).len() == branches,
{
}

/// Every instruction that the catalog gives has exactly one change of the
/// allocation pointer for each branch of its signature.
pub proof fn lemma_specialized_ap_change_per_branch(name: Seq<char>, args: Seq<GenericArgView>)
    ensures
        libfunc_specialized(name, args) matches Ok(libfunc) ==> ap_change_of(
            libfunc.kind,
            libfunc.signature.branch_signatures.len(),
        ).len() == libfunc.signature.branch_signatures.len(),
{
}

} // verus!
