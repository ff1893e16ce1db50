//! The instructions that drop and that duplicate a value.

use crate::extensions::lib_func::{
    non_branch_signature, LibFuncSignature, LibFuncSignatureView, OutputVarInfo,
    OutputVarReferenceInfo, SierraApChange,
};
use crate::ids::ConcreteTypeId;
use vstd::prelude::*;

verus! {

/// The signature of the instruction that drops a value of type `ty`: the
/// value comes in, nothing comes out.
pub open spec fn ignore_signature(ty: ConcreteTypeId) -> LibFuncSignatureView {
    non_branch_signature(seq![ty], seq![], SierraApChange::Known { new_vars_only: true })
}

/// The signature of the instruction that duplicates a value of type `ty`:
/// the value comes in, and comes out twice, both times in its own storage.
pub open spec fn duplicate_signature(ty: ConcreteTypeId) -> LibFuncSignatureView {
    non_branch_signature(
        seq![ty],
        seq![
            OutputVarInfo { ty, ref_info: OutputVarReferenceInfo::SameAsParam { param_idx: 0 } },
            OutputVarInfo { ty, ref_info: OutputVarReferenceInfo::SameAsParam { param_idx: 0 } },
        ],
        SierraApChange::Known { new_vars_only: true },
    )
}

/// A concrete instruction of which the signature and the type it works on are
/// kept.
#[derive(Debug)]
pub struct SignatureAndTypeConcreteLibFunc {
    pub ty: ConcreteTypeId,
    pub signature: LibFuncSignature,
}

/// The instruction that drops a value of the given type.
pub fn specialize_ignore(ty: ConcreteTypeId) -> (r: SignatureAndTypeConcreteLibFunc)
    ensures
        r.ty == ty,
        r.signature@ == ignore_signature(ty),
{
    let input_types = vec![ty.clone()];
    let output_info: Vec<OutputVarInfo> = vec![];
    assert(input_types@ =~= seq![ty]);
    assert(output_info@ =~= Seq::<OutputVarInfo>::empty());
    SignatureAndTypeConcreteLibFunc {
        ty,
        signature: LibFuncSignature::new_non_branch(
            input_types,
            output_info,
            SierraApChange::Known { new_vars_only: true },
        ),
    }
}

/// The instruction that duplicates a value of the given type.
pub fn specialize_duplicate(ty: ConcreteTypeId) -> (r: SignatureAndTypeConcreteLibFunc)
    ensures
        r.ty == ty,
        r.signature@ == duplicate_signature(ty),
{
    let input_types = vec![ty.clone()];
    let output_info = vec![
        OutputVarInfo {
            ty: ty.clone(),
            ref_info: OutputVarReferenceInfo::SameAsParam { param_idx: 0 },
        },
        OutputVarInfo {
            ty: ty.clone(),
            ref_info: OutputVarReferenceInfo::SameAsParam { param_idx: 0 },
        },
    ];
    assert(input_types@ =~= seq![ty]);
    assert(output_info@ =~= duplicate_signature(ty).branch_signatures[0].vars);
    SignatureAndTypeConcreteLibFunc {
        ty,
        signature: LibFuncSignature::new_non_branch(
            input_types,
            output_info,
            SierraApChange::Known { new_vars_only: true },
        ),
    }
}

} // verus!
