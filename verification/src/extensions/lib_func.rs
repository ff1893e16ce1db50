//! The calling signature of an instruction.

use crate::extensions::SpecializationError;
use crate::ids::ConcreteTypeId;
use vstd::prelude::*;

verus! {

/// What is known, from the instruction alone, of how a branch moves the
/// allocation pointer.
#[derive(Clone, Copy, Debug, PartialEq, Eq, Structural)]
pub enum SierraApChange {
    /// The change is fixed. With `new_vars_only` it is exactly the size of
    /// the new temporary variables of the branch.
    Known { new_vars_only: bool },
    /// The change is not worked out for this instruction.
    NotImplemented,
}

/// How the value of a deferred output is obtained.
#[derive(Clone, Copy, Debug, PartialEq, Eq, Structural)]
pub enum DeferredOutputKind {
    /// The output is a constant.
    Const,
    /// The output is the parameter with the given index plus a constant.
    AddConst { param_idx: usize },
    /// The output is any other expression over the inputs.
    Generic,
}

/// Where an output of a branch is stored.
#[derive(Clone, Copy, Debug, PartialEq, Eq)]
pub enum OutputVarReferenceInfo {
    /// In the storage of the parameter with the given index.
    SameAsParam { param_idx: usize },
    /// In a fresh temporary variable.
    NewTempVar { idx: Option<usize> },
    /// Nowhere yet: the value is an expression that is stored later.
    Deferred(DeferredOutputKind),
}

/// The type of a parameter, and in which forms its argument may come.
#[derive(Debug, PartialEq, Eq)]
pub struct ParamSignature {
    pub ty: ConcreteTypeId,
    pub allow_deferred: bool,
    pub allow_add_const: bool,
    pub allow_const: bool,
}

impl DeepView for ParamSignature {
    type V = ParamSignature;

    open spec fn deep_view(&self) -> ParamSignature {
        *self
    }
}

/// The parameter of the given type that accepts none of the special forms.
pub open spec fn plain_param(ty: ConcreteTypeId) -> ParamSignature {
    ParamSignature { ty, allow_deferred: false, allow_add_const: false, allow_const: false }
}

impl ParamSignature {
    /// The parameter of the given type that accepts none of the special
    /// forms.
    pub fn new(ty: ConcreteTypeId) -> (r: Self)
        ensures
            r == plain_param(ty),
    {
        ParamSignature { ty, allow_deferred: false, allow_add_const: false, allow_const: false }
    }
}

/// The type of an output of a branch, and where it is stored.
#[derive(Debug, PartialEq, Eq)]
pub struct OutputVarInfo {
    pub ty: ConcreteTypeId,
    pub ref_info: OutputVarReferenceInfo,
}

impl DeepView for OutputVarInfo {
    type V = OutputVarInfo;

    open spec fn deep_view(&self) -> OutputVarInfo {
        *self
    }
}

/// One branch of a signature: its outputs and its hint on the allocation
/// pointer.
#[derive(Debug, PartialEq, Eq)]
pub struct BranchSignature {
    pub vars: Vec<OutputVarInfo>,
    pub ap_change: SierraApChange,
}

/// What a [`BranchSignature`] stands for.
pub struct BranchSignatureView {
    pub vars: Seq<OutputVarInfo>,
    pub ap_change: SierraApChange,
}

impl View for BranchSignature {
    type V = BranchSignatureView;

    open spec fn view(&self) -> BranchSignatureView {
        BranchSignatureView { vars: self.vars@, ap_change: self.ap_change }
    }
}

impl DeepView for BranchSignature {
    type V = BranchSignatureView;

    open spec fn deep_view(&self) -> BranchSignatureView {
        self@
    }
}

/// The signature of an instruction: its parameters, its branches, and the
/// branch, if any, that continues with the next statement.
#[derive(Debug, PartialEq, Eq)]
pub struct LibFuncSignature {
    pub param_signatures: Vec<ParamSignature>,
    pub branch_signatures: Vec<BranchSignature>,
    pub fallthrough: Option<usize>,
}

/// What a [`LibFuncSignature`] stands for.
pub struct LibFuncSignatureView {
    pub param_signatures: Seq<ParamSignature>,
    pub branch_signatures: Seq<BranchSignatureView>,
    pub fallthrough: Option<usize>,
}

impl View for LibFuncSignature {
    type V = LibFuncSignatureView;

    open spec fn view(&self) -> LibFuncSignatureView {
        LibFuncSignatureView {
            param_signatures: self.param_signatures@,
            branch_signatures: self.branch_signatures.deep_view(),
            fallthrough: self.fallthrough,
        }
    }
}

impl DeepView for LibFuncSignature {
    type V = LibFuncSignatureView;

    open spec fn deep_view(&self) -> LibFuncSignatureView {
        self@
    }
}

/// A concrete instruction of which only the signature is kept.
#[derive(Debug, PartialEq, Eq)]
pub struct SignatureOnlyConcreteLibFunc {
    pub signature: LibFuncSignature,
}

/// What a concrete instruction stands for: which instruction it is, and its
/// signature.
pub struct ConcreteLibFuncView<K> {
    pub kind: K,
    pub signature: LibFuncSignatureView,
}

/// What a result that holds a signature stands for.
pub open spec fn signature_result_view(
    r: Result<LibFuncSignature, SpecializationError>,
) -> Result<LibFuncSignatureView, SpecializationError> {
    match r {
        Ok(signature) => Ok(signature@),
        Err(error) => Err(error),
    }
}

/// The concrete instruction of the given kind, with the signature that
/// `signature` holds, or its error.
pub open spec fn with_kind<K>(
    kind: K,
    signature: Result<LibFuncSignatureView, SpecializationError>,
) -> Result<ConcreteLibFuncView<K>, SpecializationError> {
    match signature {
        Ok(signature) => Ok(ConcreteLibFuncView { kind, signature }),
        Err(error) => Err(error),
    }
}

/// The signature of an instruction with a single branch, which falls
/// through: plain parameters of the given types, and the given outputs.
pub open spec fn non_branch_signature(
    input_types: Seq<ConcreteTypeId>,
    output_info: Seq<OutputVarInfo>,
    ap_change: SierraApChange,
) -> LibFuncSignatureView {
    LibFuncSignatureView {
        param_signatures: input_types.map_values(|ty: ConcreteTypeId| plain_param(ty)),
        branch_signatures: seq![BranchSignatureView { vars: output_info, ap_change }],
        fallthrough: Some(0usize),
    }
}

impl LibFuncSignature {
    /// The signature of an instruction with a single branch, which falls
    /// through: plain parameters of the given types, and the given outputs.
    pub fn new_non_branch(
        input_types: Vec<ConcreteTypeId>,
        output_info: Vec<OutputVarInfo>,
        ap_change: SierraApChange,
    ) -> (r: Self)
        ensures
            r@ == non_branch_signature(input_types@, output_info@, ap_change),
    {
        let mut param_signatures: Vec<ParamSignature> = Vec::new();
        let mut i: usize = 0;
        while i < input_types.len()
            invariant
                i <= input_types@.len(),
                param_signatures@.len() == i,
                forall|k: int|
                    0 <= k < i ==> param_signatures@[k] == plain_param(input_types@[k]),
            decreases input_types@.len() - i,
        {
            param_signatures.push(ParamSignature::new(input_types[i].clone()));
            i += 1;
        }
        let branch = BranchSignature { vars: output_info, ap_change };
        let r = LibFuncSignature {
            param_signatures,
            branch_signatures: vec![branch],
            fallthrough: Some(0),
        };
        proof {
            let expected = non_branch_signature(input_types@, output_info@, ap_change);
            assert(r@.param_signatures =~= expected.param_signatures);
            assert(r@.branch_signatures =~= expected.branch_signatures);
        }
        r
    }
}

} // verus!
