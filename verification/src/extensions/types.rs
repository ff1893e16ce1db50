//! What is known of a concrete type.

use crate::extensions::SpecializationError;
use crate::ids::{ConcreteTypeId, GenericTypeId};
use crate::program::{GenericArg, GenericArgView};
use vstd::prelude::*;

verus! {

/// The properties of a concrete type.
#[derive(Clone, Copy, Debug, PartialEq, Eq, Structural)]
pub struct TypeInfo {
    /// Whether a value of the type can be stored in memory.
    pub storable: bool,
    /// Whether a value of the type may be left unused.
    pub droppable: bool,
    /// Whether a value of the type may be used more than once.
    pub duplicatable: bool,
    /// The number of memory cells that a value of the type occupies.
    pub size: usize,
}

/// The properties of the type with the given identity.
pub open spec fn type_info_of(ty: ConcreteTypeId) -> TypeInfo
    decreases ty,
{
    match ty {
        ConcreteTypeId::Felt | ConcreteTypeId::Uint128 => TypeInfo {
            storable: true,
            droppable: true,
            duplicatable: true,
            size: 1,
        },
        ConcreteTypeId::RangeCheck => TypeInfo {
            storable: true,
            droppable: false,
            duplicatable: false,
            size: 1,
        },
        ConcreteTypeId::NonZero(inner) => type_info_of(*inner),
    }
}

/// A concrete type of which only the properties are kept.
#[derive(Debug)]
pub struct InfoOnlyConcreteType {
    pub id: ConcreteTypeId,
    pub info: TypeInfo,
}

/// The family of the builtin that checks ranges.
#[derive(Default)]
pub struct RangeCheckType {}

impl RangeCheckType {
    /// The name of the family.
    pub fn id() -> (id: GenericTypeId)
        ensures
            id@ == "RangeCheck"@,
    {
        GenericTypeId::new("RangeCheck")
    }
}

/// The family of the types that wrap a type and hold its values other than
/// zero.
#[derive(Default)]
pub struct NonZeroType {}

impl NonZeroType {
    /// The name of the family.
    pub fn id() -> (id: GenericTypeId)
        ensures
            id@ == "NonZero"@,
    {
        GenericTypeId::new("NonZero")
    }
}

/// The identity of the type that the family `name` gives for `args`: `felt`,
/// `uint128` and `RangeCheck` take no argument, `NonZero` takes one type.
pub open spec fn concrete_type_of(name: Seq<char>, args: Seq<GenericArgView>) -> Result<
    ConcreteTypeId,
    SpecializationError,
> {
    if name == "felt"@ {
        if args.len() == 0 {
            Ok(ConcreteTypeId::Felt)
        } else {
            Err(SpecializationError::UnsupportedGenericArg)
        }
    } else if name == "uint128"@ {
        if args.len() == 0 {
            Ok(ConcreteTypeId::Uint128)
        } else {
            Err(SpecializationError::UnsupportedGenericArg)
        }
    } else if name == "RangeCheck"@ {
        if args.len() == 0 {
            Ok(ConcreteTypeId::RangeCheck)
        } else {
            Err(SpecializationError::UnsupportedGenericArg)
        }
    } else if name == "NonZero"@ {
        if args.len() == 1 && args[0] is Type {
            Ok(ConcreteTypeId::NonZero(Box::new(args[0]->Type_0)))
        } else {
            Err(SpecializationError::UnsupportedGenericArg)
        }
    } else {
        Err(SpecializationError::UnknownId)
    }
}

/// The names of the type families differ from each other.
pub proof fn lemma_type_names_differ()
    ensures
        "felt"@ != "uint128"@,
        "felt"@ != "RangeCheck"@,
        "felt"@ != "NonZero"@,
        "uint128"@ != "RangeCheck"@,
        "uint128"@ != "NonZero"@,
        "RangeCheck"@ != "NonZero"@,
{
    reveal_strlit("felt");
    reveal_strlit("uint128");
    reveal_strlit("RangeCheck");
    reveal_strlit("NonZero");
    assert("felt"@.len() == 4);
    assert("uint128"@.len() == 7);
    assert("RangeCheck"@.len() == 10);
    assert("NonZero"@.len() == 7);
    assert("uint128"@[0] != "NonZero"@[0]);
}

/// The identity of the type that the family `id` gives for `args`.
pub fn get_concrete_type(id: &GenericTypeId, args: &[GenericArg]) -> (r: Result<
    ConcreteTypeId,
    SpecializationError,
>)
    ensures
        r == concrete_type_of(id@, args.deep_view()),
{
    if id.is("felt") {
        if args.len() == 0 {
            Ok(ConcreteTypeId::Felt)
        } else {
            Err(SpecializationError::UnsupportedGenericArg)
        }
    } else if id.is("uint128") {
        if args.len() == 0 {
            Ok(ConcreteTypeId::Uint128)
        } else {
            Err(SpecializationError::UnsupportedGenericArg)
        }
    } else if id.is("RangeCheck") {
        if args.len() == 0 {
            Ok(ConcreteTypeId::RangeCheck)
        } else {
            Err(SpecializationError::UnsupportedGenericArg)
        }
    } else if id.is("NonZero") {
        if args.len() == 1 {
            match &args[0] {
                GenericArg::Type(ty) => Ok(ConcreteTypeId::NonZero(Box::new(ty.clone()))),
                _ => Err(SpecializationError::UnsupportedGenericArg),
            }
        } else {
            Err(SpecializationError::UnsupportedGenericArg)
        }
    } else {
        Err(SpecializationError::UnknownId)
    }
}

/// The identity of the type that the family `id` gives when it wraps `ty`.
pub fn get_wrapped_concrete_type(id: &GenericTypeId, ty: ConcreteTypeId) -> (r: Result<
    ConcreteTypeId,
    SpecializationError,
>)
    ensures
        r == concrete_type_of(id@, seq![GenericArgView::Type(ty)]),
{
    let args = vec![GenericArg::Type(ty)];
    assert(args.deep_view() =~= seq![GenericArgView::Type(ty)]);
    get_concrete_type(id, args.as_slice())
}

/// The properties of the type with the given identity.
pub fn type_info(ty: &ConcreteTypeId) -> (r: TypeInfo)
    ensures
        r == type_info_of(*ty),
    decreases *ty,
{
    match ty {
        ConcreteTypeId::Felt | ConcreteTypeId::Uint128 => TypeInfo {
            storable: true,
            droppable: true,
            duplicatable: true,
            size: 1,
        },
        ConcreteTypeId::RangeCheck => TypeInfo {
            storable: true,
            droppable: false,
            duplicatable: false,
            size: 1,
        },
        ConcreteTypeId::NonZero(inner) => type_info(&**inner),
    }
}

} // verus!
