//! The program model: functions and a flat sequence of statements.

use crate::big_value::BigValue;
use crate::ids::{ConcreteTypeId, FunctionId, GenericLibFuncId, VarId};
use vstd::prelude::*;

verus! {

/// An argument of a specialization: a number, or a reference to a type or to
/// a user function that is already known.
#[derive(Debug)]
pub enum GenericArg {
    Value(BigValue),
    Type(ConcreteTypeId),
    UserFunc(FunctionId),
}

/// What a [`GenericArg`] stands for.
pub enum GenericArgView {
    Value(int),
    Type(ConcreteTypeId),
    UserFunc(FunctionId),
}

impl View for GenericArg {
    type V = GenericArgView;

    open spec fn view(&self) -> GenericArgView {
        match *self {
            GenericArg::Value(v) => GenericArgView::Value(v@),
            GenericArg::Type(ty) => GenericArgView::Type(ty),
            GenericArg::UserFunc(f) => GenericArgView::UserFunc(f),
        }
    }
}

impl DeepView for GenericArg {
    type V = GenericArgView;

    open spec fn deep_view(&self) -> GenericArgView {
        self@
    }
}

impl Clone for GenericArg {
    fn clone(&self) -> (r: Self)
        ensures
            r@ == self@,
    {
        match self {
            GenericArg::Value(v) => GenericArg::Value(v.clone()),
            GenericArg::Type(ty) => GenericArg::Type(ty.clone()),
            GenericArg::UserFunc(f) => GenericArg::UserFunc(*f),
        }
    }
}

/// The identity of an instruction after specialization: the family and the
/// arguments it was specialized with.
#[derive(Debug)]
pub struct ConcreteLibFuncId {
    pub generic_id: GenericLibFuncId,
    pub generic_args: Vec<GenericArg>,
}

/// The index of a statement in the statement sequence of a program.
#[derive(Clone, Copy, Debug, PartialEq, Eq, Structural)]
pub struct StatementId(pub usize);

/// Where a branch of an invocation continues.
#[derive(Debug)]
pub enum GenBranchTarget<T> {
    /// The statement after the invocation.
    Fallthrough,
    /// The named statement.
    Statement(T),
}

/// One branch of an invocation: where it continues, and the variables that
/// receive what the instruction produces on this branch.
#[derive(Debug)]
pub struct GenBranchInfo<T> {
    pub target: GenBranchTarget<T>,
    pub results: Vec<VarId>,
}

/// The call of an instruction.
#[derive(Debug)]
pub struct GenInvocation<T> {
    pub libfunc_id: ConcreteLibFuncId,
    pub args: Vec<VarId>,
    pub branches: Vec<GenBranchInfo<T>>,
}

/// A statement of a program.
#[derive(Debug)]
pub enum GenStatement<T> {
    Invocation(GenInvocation<T>),
    Return(Vec<VarId>),
}

pub type BranchTarget = GenBranchTarget<StatementId>;

pub type BranchInfo = GenBranchInfo<StatementId>;

pub type Invocation = GenInvocation<StatementId>;

pub type Statement = GenStatement<StatementId>;

/// A parameter of a function.
#[derive(Debug)]
pub struct Param {
    pub id: VarId,
    pub ty: ConcreteTypeId,
}

/// A function of a program: its parameters and the statement it starts at.
#[derive(Debug)]
pub struct Function {
    pub id: FunctionId,
    pub params: Vec<Param>,
    pub entry: StatementId,
}

/// A program: its functions and its statements.
#[derive(Debug)]
pub struct Program {
    pub funcs: Vec<Function>,
    pub statements: Vec<Statement>,
}

/// The statement that follows the statement `current` on a branch with the
/// given target.
pub open spec fn next_statement(current: StatementId, target: BranchTarget) -> StatementId {
    match target {
        GenBranchTarget::Fallthrough => StatementId((current.0 + 1) as usize),
        GenBranchTarget::Statement(id) => id,
    }
}

impl StatementId {
    /// The statement that follows this one on a branch with the given target.
    pub fn next(&self, target: &BranchTarget) -> (r: StatementId)
        requires
            *target is Fallthrough ==> self.0 < usize::MAX,
        ensures
            r == next_statement(*self, *target),
    {
        match target {
            GenBranchTarget::Fallthrough => StatementId(self.0 + 1),
            GenBranchTarget::Statement(id) => *id,
        }
    }
}

/// The first function with the given identifier among `funcs`, as its index.
pub open spec fn find_function(funcs: Seq<Function>, id: FunctionId) -> Option<int>
    decreases funcs.len(),
{
    if funcs.len() == 0 {
        None
    } else if funcs[0].id == id {
        Some(0)
    } else {
        match find_function(funcs.drop_first(), id) {
            Some(i) => Some(i + 1),
            None => None,
        }
    }
}

impl Program {
    /// The statement with the given index, if the program has one.
    pub fn get_statement(&self, id: &StatementId) -> (r: Option<&Statement>)
        ensures
            r == (if id.0 < self.statements@.len() {
                Some(&self.statements@[id.0 as int])
            } else {
                None
            }),
    {
        if id.0 < self.statements.len() {
            Some(&self.statements[id.0])
        } else {
            None
        }
    }

    /// The first function with the given identifier, if the program has one.
    pub fn get_function(&self, id: &FunctionId) -> (r: Option<&Function>)
        ensures
            r == (match find_function(self.funcs@, *id) {
                Some(i) => Some(&self.funcs@[i]),
                None => None,
            }),
            find_function(self.funcs@, *id) matches Some(i) ==> 0 <= i < self.funcs@.len(),
    {
        let mut i: usize = 0;
        assert(self.funcs@.skip(0) =~= self.funcs@);
        while i < self.funcs.len()
            invariant
                i <= self.funcs@.len(),
                find_function(self.funcs@, *id) == (match find_function(
                    self.funcs@.skip(i as int),
                    *id,
                ) {
                    Some(k) => Some(k + i),
                    None => None,
                }),
            decreases self.funcs@.len() - i,
        {
            let ghost rest = self.funcs@.skip(i as int);
            assert(rest.len() > 0);
            assert(rest[0] == self.funcs@[i as int]);
            assert(rest.drop_first() =~= self.funcs@.skip(i + 1));
            if self.funcs[i].id == *id {
                return Some(&self.funcs[i]);
            }
            i += 1;
        }
        assert(self.funcs@.skip(i as int).len() == 0);
        None
    }
}

} // verus!
