//! A set of variables that keeps the order in which they came in.

use crate::ids::VarId;
use vstd::prelude::*;

verus! {

/// A set of variables in the order of their insertion. No variable occurs
/// twice, and what came first stays first.
#[derive(Debug)]
pub struct OrderedVarSet {
    items: Vec<VarId>,
}

/// The variables `acc` followed by `v`, unless `v` is among them already.
pub open spec fn inserted(acc: Seq<VarId>, v: VarId) -> Seq<VarId> {
    if acc.contains(v) {
        acc
    } else {
        acc.push(v)
    }
}

impl View for OrderedVarSet {
    type V = Seq<VarId>;

    closed spec fn view(&self) -> Seq<VarId> {
        self.items@
    }
}

impl OrderedVarSet {
    #[verifier::type_invariant]
    spec fn no_variable_twice(&self) -> bool {
        self.items@.no_duplicates()
    }

    /// The empty set.
    pub fn new() -> (r: Self)
        ensures
            r@ == Seq::<VarId>::empty(),
    {
        OrderedVarSet { items: Vec::new() }
    }

    /// The number of variables in the set.
    pub fn len(&self) -> (r: usize)
        ensures
            r == self@.len(),
            self@.no_duplicates(),
    {
        proof {
            use_type_invariant(self);
        }
        self.items.len()
    }

    /// Whether the set holds no variable.
    pub fn is_empty(&self) -> (r: bool)
        ensures
            r == (self@.len() == 0),
    {
        self.items.len() == 0
    }

    /// The variable at the given place in the order of insertion.
    pub fn get(&self, i: usize) -> (r: VarId)
        requires
            i < self@.len(),
        ensures
            r == self@[i as int],
    {
        self.items[i]
    }

    /// The variables of the set in the order of insertion.
    pub fn as_slice(&self) -> (r: &[VarId])
        ensures
            r@ == self@,
    {
        self.items.as_slice()
    }

    /// Whether the set holds the variable.
    pub fn contains(&self, v: &VarId) -> (r: bool)
        ensures
            r == self@.contains(*v),
    {
        contains_var(self.items.as_slice(), v)
    }

    /// Puts the variable into the set, behind the others, unless the set
    /// holds it already. Tells whether it was put in.
    pub fn insert(&mut self, v: VarId) -> (r: bool)
        ensures
            final(self)@ == inserted(old(self)@, v),
            r == !old(self)@.contains(v),
    {
        proof {
            use_type_invariant(&*self);
        }
        if contains_var(self.items.as_slice(), &v) {
            false
        } else {
            let mut items = self.to_vec();
            items.push(v);
            *self = OrderedVarSet { items };
            true
        }
    }

    /// The variables of the set in the order of insertion.
    pub fn to_vec(&self) -> (r: Vec<VarId>)
        ensures
            r@ == self@,
    {
        let mut r: Vec<VarId> = Vec::new();
        let mut i: usize = 0;
        while i < self.items.len()
            invariant
                i <= self.items@.len(),
                r@ == self.items@.take(i as int),
            decreases self.items@.len() - i,
        {
            r.push(self.items[i]);
            assert(r@ =~= self.items@.take(i + 1));
            i += 1;
        }
        assert(self.items@.take(i as int) =~= self.items@);
        r
    }
}

impl Clone for OrderedVarSet {
    fn clone(&self) -> (r: Self)
        ensures
            r@ == self@,
    {
        proof {
            use_type_invariant(self);
        }
        let items = self.to_vec();
        OrderedVarSet { items }
    }
}

/// Whether the variable is among `items`.
pub fn contains_var(items: &[VarId], v: &VarId) -> (r: bool)
    ensures
        r == items@.contains(*v),
{
    let mut i: usize = 0;
    while i < items.len()
        invariant
            i <= items@.len(),
            forall|k: int| 0 <= k < i ==> items@[k] != *v,
        decreases items@.len() - i,
    {
        if items[i].id == v.id {
            return true;
        }
        i += 1;
    }
    false
}

} // verus!
