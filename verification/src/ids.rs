//! Identifiers of the program model.

use vstd::prelude::*;

verus! {

/// The name of a family of types, such as `felt` or `uint128`.
#[derive(Debug, PartialEq, Eq)]
pub struct GenericTypeId {
    pub name: String,
}

impl View for GenericTypeId {
    type V = Seq<char>;

    open spec fn view(&self) -> Seq<char> {
        self.name@
    }
}

impl GenericTypeId {
    /// The identifier with the given name.
    pub fn new(name: &str) -> (id: Self)
        ensures
            id@ == name@,
    {
        GenericTypeId { name: String::from_str(name) }
    }

    /// Whether this identifier carries the given name.
    pub fn is(&self, name: &str) -> (r: bool)
        ensures
            r == (self@ == name@),
    {
        let other = String::from_str(name);
        self.name == other
    }
}

impl Clone for GenericTypeId {
    fn clone(&self) -> (r: Self)
        ensures
            r == *self,
    {
        GenericTypeId { name: self.name.clone() }
    }
}

/// The name of a family of instructions, such as `felt_add`.
#[derive(Debug, PartialEq, Eq)]
pub struct GenericLibFuncId {
    pub name: String,
}

impl View for GenericLibFuncId {
    type V = Seq<char>;

    open spec fn view(&self) -> Seq<char> {
        self.name@
    }
}

impl GenericLibFuncId {
    /// The identifier with the given name.
    pub fn new(name: &str) -> (id: Self)
        ensures
            id@ == name@,
    {
        GenericLibFuncId { name: String::from_str(name) }
    }

    /// Whether this identifier carries the given name.
    pub fn is(&self, name: &str) -> (r: bool)
        ensures
            r == (self@ == name@),
    {
        let other = String::from_str(name);
        self.name == other
    }
}

impl Clone for GenericLibFuncId {
    fn clone(&self) -> (r: Self)
        ensures
            r == *self,
    {
        GenericLibFuncId { name: self.name.clone() }
    }
}

/// The identity of a type after specialization. It is derived from the family
/// and its arguments alone, so equal inputs give equal identities.
#[derive(Debug, PartialEq, Eq)]
pub enum ConcreteTypeId {
    Felt,
    Uint128,
    RangeCheck,
    NonZero(Box<ConcreteTypeId>),
}

impl ConcreteTypeId {
    /// Whether two identities are the same.
    pub fn same(&self, other: &ConcreteTypeId) -> (r: bool)
        ensures
            r == (*self == *other),
        decreases *self,
    {
        match (self, other) {
            (ConcreteTypeId::Felt, ConcreteTypeId::Felt) => true,
            (ConcreteTypeId::Uint128, ConcreteTypeId::Uint128) => true,
            (ConcreteTypeId::RangeCheck, ConcreteTypeId::RangeCheck) => true,
            (ConcreteTypeId::NonZero(a), ConcreteTypeId::NonZero(b)) => a.same(b),
            _ => false,
        }
    }
}

impl Clone for ConcreteTypeId {
    fn clone(&self) -> (r: Self)
        ensures
            r == *self,
        decreases *self,
    {
        match self {
            ConcreteTypeId::Felt => ConcreteTypeId::Felt,
            ConcreteTypeId::Uint128 => ConcreteTypeId::Uint128,
            ConcreteTypeId::RangeCheck => ConcreteTypeId::RangeCheck,
            ConcreteTypeId::NonZero(inner) => ConcreteTypeId::NonZero(Box::new((&**inner).clone())),
        }
    }
}

/// The identifier of a user function of a program.
#[derive(Clone, Copy, Debug, PartialEq, Eq, Structural, Hash)]
pub struct FunctionId {
    pub id: u64,
}

/// The identifier of a variable: a single-assignment binding inside one
/// function body.
#[derive(Clone, Copy, Debug, PartialEq, Eq, Structural, Hash)]
pub struct VarId {
    pub id: u64,
}

/// The identifier of a label of the representation before lowering.
#[derive(Clone, Copy, Debug, PartialEq, Eq, Structural, Hash)]
pub struct LabelId {
    pub id: u64,
}

} // verus!
