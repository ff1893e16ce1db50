//! The jump that is taken where a value is not zero.

use crate::extensions::lib_func::{
    plain_param, BranchSignature, BranchSignatureView, LibFuncSignature, LibFuncSignatureView,
    OutputVarInfo, OutputVarReferenceInfo, ParamSignature, SierraApChange,
};
use crate::extensions::types::{get_wrapped_concrete_type, lemma_type_names_differ, NonZeroType};
use crate::extensions::SpecializationError;
use crate::ids::ConcreteTypeId;
use vstd::prelude::*;

verus! {

/// The signature of the jump on a value of type `ty`: the first branch, which
/// falls through, is taken on zero and gives nothing; the second is taken on
/// another value, and gives that value, in its own storage, as one that is
/// known not to be zero.
pub open spec fn jump_not_zero_signature(ty: ConcreteTypeId) -> LibFuncSignatureView {
    LibFuncSignatureView {
        param_signatures: seq![plain_param(ty)],
        branch_signatures: seq![
            BranchSignatureView {
                vars: seq![],
                ap_change: SierraApChange::Known { new_vars_only: false },
            },
            BranchSignatureView {
                vars: seq![
                    OutputVarInfo {
                        ty: ConcreteTypeId::NonZero(Box::new(ty)),
                        ref_info: OutputVarReferenceInfo::SameAsParam { param_idx: 0 },
                    },
                ],
                ap_change: SierraApChange::Known { new_vars_only: false },
            },
        ],
        fallthrough: Some(0usize),
    }
}

/// The signature of the jump on a value of type `ty`.
pub fn specialize_signature(ty: ConcreteTypeId) -> (r: Result<
    LibFuncSignature,
    SpecializationError,
>)
    ensures
        r is Ok,
        r->Ok_0@ == jump_not_zero_signature(ty),
{
    proof {
        lemma_type_names_differ();
    }
    let non_zero = get_wrapped_concrete_type(&NonZeroType::id(), ty.clone())?;
    let r = LibFuncSignature {
        param_signatures: vec![ParamSignature::new(ty)],
        branch_signatures: vec![
            BranchSignature {
                vars: vec![],
                ap_change: SierraApChange::Known { new_vars_only: false },
            },
            BranchSignature {
                vars: vec![
                    OutputVarInfo {
                        ty: non_zero,
                        ref_info: OutputVarReferenceInfo::SameAsParam { param_idx: 0 },
                    },
                ],
                ap_change: SierraApChange::Known { new_vars_only: false },
            },
        ],
        fallthrough: Some(0),
    };
    proof {
        let expected = jump_not_zero_signature(ty);
        assert(r.branch_signatures@[0]@.vars =~= expected.branch_signatures[0].vars);
        assert(r.branch_signatures@[1]@.vars =~= expected.branch_signatures[1].vars);
        assert(r@.branch_signatures =~= expected.branch_signatures);
        assert(r@.param_signatures =~= expected.param_signatures);
    }
    Ok(r)
}

} // verus!
