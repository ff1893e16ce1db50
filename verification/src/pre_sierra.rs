//! The representation before lowering: statements whose branches name
//! labels, and labels among the statements.

use crate::ids::LabelId;
use crate::program::GenStatement;
use vstd::prelude::*;

verus! {

/// A label: it names the statement that follows it, and does nothing.
#[derive(Debug)]
pub struct Label {
    pub id: LabelId,
}

/// A statement before lowering.
#[derive(Debug)]
pub enum Statement {
    /// A statement of the program, with labels as the targets of branches.
    Sierra(GenStatement<LabelId>),
    /// A label.
    Label(Label),
}

} // verus!
