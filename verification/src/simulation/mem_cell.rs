//! The unit of value of the interpreter.

use crate::big_value::BigValue;
use vstd::prelude::*;

verus! {

/// One machine word. A value of a type takes as many cells as the size of
/// the type says.
#[derive(Debug)]
pub struct MemCell {
    pub value: BigValue,
}

impl View for MemCell {
    type V = int;

    open spec fn view(&self) -> int {
        self.value@
    }
}

impl DeepView for MemCell {
    type V = int;

    open spec fn deep_view(&self) -> int {
        self.value@
    }
}

impl Clone for MemCell {
    fn clone(&self) -> (r: Self)
        ensures
            r@ == self@,
    {
        MemCell { value: self.value.clone() }
    }
}

impl MemCell {
    /// The cell that holds the given number.
    pub fn from_u128(x: u128) -> (r: MemCell)
        ensures
            r@ == x,
    {
        MemCell { value: BigValue::from_u128(x) }
    }

    /// The number in the cell as a `u128`, where it is one.
    pub fn to_u128(&self) -> (r: Option<u128>)
        ensures
            r == (if 0 <= self@ <= u128::MAX {
                Some(self@ as u128)
            } else {
                None
            }),
    {
        self.value.to_u128()
    }
}

/// A copy of a value: cells that hold the same numbers.
pub fn clone_value(cells: &Vec<MemCell>) -> (r: Vec<MemCell>)
    ensures
        r.deep_view() == cells.deep_view(),
{
    let mut r: Vec<MemCell> = Vec::new();
    let mut i: usize = 0;
    while i < cells.len()
        invariant
            i <= cells@.len(),
            r@.len() == i,
            forall|k: int| 0 <= k < i ==> r@[k]@ == cells@[k]@,
        decreases cells@.len() - i,
    {
        r.push(cells[i].clone());
        i += 1;
    }
    assert(r.deep_view() =~= cells.deep_view());
    r
}

} // verus!
