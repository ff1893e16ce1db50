//! The variables that must be alive when a statement is entered, because a
//! later statement reads them.

use crate::ids::{LabelId, VarId};
use crate::ordered_var_set::{contains_var, inserted, OrderedVarSet};
use crate::pre_sierra::Statement;
use crate::program::{GenBranchInfo, GenBranchTarget, GenStatement};
use std::collections::HashMap;
use vstd::pervasive::unreached;
use vstd::prelude::*;

verus! {

broadcast use vstd::std_specs::hash::group_hash_axioms;

/// The place of each label among the statements. Where a label occurs more
/// than once, its last place counts.
pub open spec fn label_positions(statements: Seq<Statement>) -> Map<u64, usize>
    decreases statements.len(),
{
    if statements.len() == 0 {
        Map::empty()
    } else {
        let before = label_positions(statements.drop_last());
        match statements.last() {
            Statement::Label(label) => before.insert(
                label.id.id,
                (statements.len() - 1) as usize,
            ),
            Statement::Sierra(_) => before,
        }
    }
}

/// The index of the statement that a branch with the given target leads to
/// from the statement `index`: the next statement, or the place of the label.
pub open spec fn next_index(
    positions: Map<u64, usize>,
    index: usize,
    target: GenBranchTarget<LabelId>,
) -> usize {
    match target {
        GenBranchTarget::Fallthrough => (index + 1) as usize,
        GenBranchTarget::Statement(label) => positions[label.id],
    }
}

/// Helper to fetch the next statement index from a branch target.
pub struct NextStatementIndexFetch {
    label_to_statement: HashMap<u64, usize>,
}

impl View for NextStatementIndexFetch {
    type V = Map<u64, usize>;

    closed spec fn view(&self) -> Map<u64, usize> {
        self.label_to_statement@
    }
}

impl NextStatementIndexFetch {
    /// The helper for the given statements: it knows the place of each of
    /// their labels.
    pub fn new(statements: &[Statement]) -> (r: Self)
        ensures
            r@ == label_positions(statements@),
    {
        let mut label_to_statement: HashMap<u64, usize> = HashMap::new();
        let mut i: usize = 0;
        assert(statements@.take(0) =~= Seq::<Statement>::empty());
        while i < statements.len()
            invariant
                i <= statements@.len(),
                label_to_statement@ == label_positions(statements@.take(i as int)),
            decreases statements@.len() - i,
        {
            assert(statements@.take(i + 1).drop_last() =~= statements@.take(i as int));
            match &statements[i] {
                Statement::Sierra(_) => {},
                Statement::Label(label) => {
                    label_to_statement.insert(label.id.id, i);
                },
            }
            i += 1;
        }
        assert(statements@.take(i as int) =~= statements@);
        Self { label_to_statement }
    }

    /// The index of the statement that a branch with the given target leads
    /// to from the statement `index`.
    pub fn get(&self, index: usize, target: &GenBranchTarget<LabelId>) -> (r: usize)
        requires
            match *target {
                GenBranchTarget::Fallthrough => index < usize::MAX,
                GenBranchTarget::Statement(label) => self@.contains_key(label.id),
            },
        ensures
            r == next_index(self@, index, *target),
    {
        match target {
            GenBranchTarget::Fallthrough => index + 1,
            GenBranchTarget::Statement(label) => match self.label_to_statement.get(&label.id) {
                Some(position) => *position,
                None => unreached(),
            },
        }
    }

    /// Whether the helper knows the place of the label.
    pub fn knows(&self, label: &LabelId) -> (r: bool)
        ensures
            r == self@.contains_key(label.id),
    {
        self.label_to_statement.contains_key(&label.id)
    }
}

/// The variables `acc`, followed by those of `items` that are neither among
/// `excluded` nor there already, in their order.
pub open spec fn add_all_but(acc: Seq<VarId>, items: Seq<VarId>, excluded: Seq<VarId>) -> Seq<
    VarId,
>
    decreases items.len(),
{
    if items.len() == 0 {
        acc
    } else {
        add_all_but(
            if excluded.contains(items[0]) {
                acc
            } else {
                inserted(acc, items[0])
            },
            items.drop_first(),
            excluded,
        )
    }
}

/// What the analysis works on: the statements, the place of each label, and
/// the table of the variables required at each statement as far as it is
/// filled. A slot of the table that is empty counts as not filled.
pub struct Flow {
    pub statements: Seq<Statement>,
    pub positions: Map<u64, usize>,
    pub table: Seq<Seq<VarId>>,
}

/// The variables required at the statement `i`, for a flow that the schedule
/// `rank` admits: what the table holds there where the slot is filled, else
/// what the statement says.
///
/// A return requires the variables it returns. A label requires what the
/// next statement requires. An invocation requires, for each branch in
/// order, what the target of the branch requires without the results of the
/// branch, and then its own arguments.
pub open spec fn required(flow: Flow, rank: Map<int, nat>, i: int) -> Seq<VarId>
    decreases rank[i], 2nat, 0nat,
{
    if 0 <= i < flow.table.len() && flow.table[i].len() > 0 {
        flow.table[i]
    } else if !(0 <= i < flow.statements.len()) {
        Seq::empty()
    } else {
        match flow.statements[i] {
            Statement::Sierra(GenStatement::Return(ret_vars)) => add_all_but(
                Seq::empty(),
                ret_vars@,
                Seq::empty(),
            ),
            Statement::Label(_) => required_next(flow, rank, i, i + 1),
            Statement::Sierra(GenStatement::Invocation(invocation)) => add_all_but(
                required_of_branches(flow, rank, i, invocation.branches@, Seq::empty()),
                invocation.args@,
                Seq::empty(),
            ),
        }
    }
}

/// The variables required at the statement `s`, which follows the statement
/// `i`.
pub open spec fn required_next(flow: Flow, rank: Map<int, nat>, i: int, s: int) -> Seq<VarId>
    decreases rank[i], 0nat, 0nat,
{
    if 0 <= s < flow.table.len() && flow.table[s].len() > 0 {
        flow.table[s]
    } else if rank.dom().contains(i) && rank.dom().contains(s) && rank[s] < rank[i] {
        required(flow, rank, s)
    } else {
        Seq::empty()
    }
}

/// The variables `acc`, followed by what the given branches of the
/// statement `i` require: for each branch in order, what its target requires
/// without its results.
pub open spec fn required_of_branches(
    flow: Flow,
    rank: Map<int, nat>,
    i: int,
    branches: Seq<GenBranchInfo<LabelId>>,
    acc: Seq<VarId>,
) -> Seq<VarId>
    decreases rank[i], 1nat, branches.len(),
{
    if branches.len() == 0 {
        acc
    } else {
        let next = next_index(flow.positions, i as usize, branches[0].target) as int;
        required_of_branches(
            flow,
            rank,
            i,
            branches.drop_first(),
            add_all_but(acc, required_next(flow, rank, i, next), branches[0].results@),
        )
    }
}

/// Whether the statement `s` may follow the statement `i`: the schedule
/// holds it, and its slot is filled or it comes below `i` in the schedule.
pub open spec fn lower_or_known(flow: Flow, rank: Map<int, nat>, i: int, s: int) -> bool {
    rank.dom().contains(s) && (flow.table[s].len() > 0 || rank[s] < rank[i])
}

/// Whether a branch of the statement `i` leads somewhere: its label has a
/// place, and the statement there may follow `i`.
pub open spec fn branch_admitted(
    flow: Flow,
    rank: Map<int, nat>,
    i: int,
    branch: GenBranchInfo<LabelId>,
) -> bool {
    &&& match branch.target {
        GenBranchTarget::Fallthrough => i < usize::MAX,
        GenBranchTarget::Statement(label) => flow.positions.contains_key(label.id),
    }
    &&& lower_or_known(
        flow,
        rank,
        i,
        next_index(flow.positions, i as usize, branch.target) as int,
    )
}

/// Whether the schedule is in order at the statement `i`: the table has a
/// slot for it, and where the slot is not filled, the statement exists and
/// each statement that may come next may follow it.
pub open spec fn admits_at(flow: Flow, rank: Map<int, nat>, i: int) -> bool {
    &&& 0 <= i < flow.table.len()
    &&& flow.table[i].len() == 0 ==> {
        &&& i < flow.statements.len()
        &&& match flow.statements[i] {
            Statement::Sierra(GenStatement::Return(_)) => true,
            Statement::Label(_) => lower_or_known(flow, rank, i, i + 1),
            Statement::Sierra(GenStatement::Invocation(invocation)) => forall|k: int|
                0 <= k < invocation.branches@.len() ==> branch_admitted(
                    flow,
                    rank,
                    i,
                    #[trigger] invocation.branches@[k],
                ),
        }
    }
}

/// Whether the schedule `rank` admits the flow: it is in order at each
/// statement it holds. Then the control flow through the slots that are not
/// filled has no cycle among the statements of the schedule, and leaves
/// neither them nor the statements.
pub open spec fn admits(flow: Flow, rank: Map<int, nat>) -> bool {
    forall|i: int| rank.dom().contains(i) ==> #[trigger] admits_at(flow, rank, i)
}

/// The flow with another table.
pub open spec fn with_table(flow: Flow, table: Seq<Seq<VarId>>) -> Flow {
    Flow { statements: flow.statements, positions: flow.positions, table }
}

/// Whether `table` is the table of the flow with more slots filled in: each
/// slot is as it was, or was not filled and now holds what is required there.
pub open spec fn refines(flow: Flow, rank: Map<int, nat>, table: Seq<Seq<VarId>>) -> bool {
    &&& table.len() == flow.table.len()
    &&& forall|j: int|
        0 <= j < table.len() ==> #[trigger] table[j] == flow.table[j] || (flow.table[j].len() == 0
            && rank.dom().contains(j) && table[j] == required(flow, rank, j))
}

/// A schedule that admits a flow admits it with more slots filled in.
pub proof fn lemma_admits_preserved(flow: Flow, rank: Map<int, nat>, table: Seq<Seq<VarId>>)
    requires
        admits(flow, rank),
        refines(flow, rank, table),
    ensures
        admits(with_table(flow, table), rank),
{
    let flow2 = with_table(flow, table);
    assert forall|i: int| rank.dom().contains(i) implies #[trigger] admits_at(flow2, rank, i) by {
        assert(admits_at(flow, rank, i));
        assert(table[i] == flow.table[i] || flow.table[i].len() == 0);
        if table[i].len() == 0 {
            assert(flow.table[i].len() == 0);
            match flow.statements[i] {
                Statement::Sierra(GenStatement::Return(_)) => {},
                Statement::Label(_) => {
                    assert(admits_at(flow, rank, i + 1));
                    assert(table[i + 1] == flow.table[i + 1] || flow.table[i + 1].len() == 0);
                },
                Statement::Sierra(GenStatement::Invocation(invocation)) => {
                    assert forall|k: int| 0 <= k < invocation.branches@.len() implies branch_admitted(
                        flow2,
                        rank,
                        i,
                        #[trigger] invocation.branches@[k],
                    ) by {
                        let branch = invocation.branches@[k];
                        assert(branch_admitted(flow, rank, i, branch));
                        let s = next_index(flow.positions, i as usize, branch.target) as int;
                        assert(admits_at(flow, rank, s));
                        assert(table[s] == flow.table[s] || flow.table[s].len() == 0);
                    }
                },
            }
        }
    }
}

/// What is required at a statement is the same with more slots filled in,
/// and under every schedule that admits the flow.
pub proof fn lemma_required_stable(
    flow: Flow,
    rank: Map<int, nat>,
    table: Seq<Seq<VarId>>,
    other: Map<int, nat>,
    i: int,
)
    requires
        admits(flow, rank),
        refines(flow, rank, table),
        admits(with_table(flow, table), other),
        rank.dom().contains(i),
        other.dom().contains(i),
    ensures
        required(with_table(flow, table), other, i) == required(flow, rank, i),
    decreases rank[i], 2nat, 0nat,
{
    let flow2 = with_table(flow, table);
    assert(admits_at(flow, rank, i));
    assert(admits_at(flow2, other, i));
    assert(table[i] == flow.table[i] || (flow.table[i].len() == 0 && table[i] == required(
        flow,
        rank,
        i,
    )));
    if table[i].len() == 0 {
        assert(flow.table[i].len() == 0);
        match flow.statements[i] {
            Statement::Sierra(GenStatement::Return(_)) => {},
            Statement::Label(_) => {
                lemma_next_stable(flow, rank, table, other, i, i + 1);
            },
            Statement::Sierra(GenStatement::Invocation(invocation)) => {
                lemma_branches_stable(
                    flow,
                    rank,
                    table,
                    other,
                    i,
                    invocation.branches@,
                    Seq::empty(),
                );
            },
        }
    }
}

/// What is required at a statement that follows another is the same with
/// more slots filled in, and under every schedule that admits the flow.
pub proof fn lemma_next_stable(
    flow: Flow,
    rank: Map<int, nat>,
    table: Seq<Seq<VarId>>,
    other: Map<int, nat>,
    i: int,
    s: int,
)
    requires
        admits(flow, rank),
        refines(flow, rank, table),
        admits(with_table(flow, table), other),
        rank.dom().contains(i),
        other.dom().contains(i),
        lower_or_known(flow, rank, i, s),
        lower_or_known(with_table(flow, table), other, i, s),
    ensures
        required_next(with_table(flow, table), other, i, s) == required_next(flow, rank, i, s),
    decreases rank[i], 0nat, 0nat,
{
    let flow2 = with_table(flow, table);
    assert(admits_at(flow, rank, s));
    assert(admits_at(flow2, other, s));
    assert(table[s] == flow.table[s] || (flow.table[s].len() == 0 && table[s] == required(
        flow,
        rank,
        s,
    )));
    if table[s].len() == 0 {
        assert(flow.table[s].len() == 0);
        lemma_required_stable(flow, rank, table, other, s);
    }
}

/// What the branches of a statement require is the same with more slots
/// filled in, and under every schedule that admits the flow.
pub proof fn lemma_branches_stable(
    flow: Flow,
    rank: Map<int, nat>,
    table: Seq<Seq<VarId>>,
    other: Map<int, nat>,
    i: int,
    branches: Seq<GenBranchInfo<LabelId>>,
    acc: Seq<VarId>,
)
    requires
        admits(flow, rank),
        refines(flow, rank, table),
        admits(with_table(flow, table), other),
        rank.dom().contains(i),
        other.dom().contains(i),
        forall|k: int|
            0 <= k < branches.len() ==> branch_admitted(flow, rank, i, #[trigger] branches[k]),
        forall|k: int|
            0 <= k < branches.len() ==> branch_admitted(
                with_table(flow, table),
                other,
                i,
                #[trigger] branches[k],
            ),
    ensures
        required_of_branches(with_table(flow, table), other, i, branches, acc)
            == required_of_branches(flow, rank, i, branches, acc),
    decreases rank[i], 1nat, branches.len(),
{
    if branches.len() > 0 {
        let flow2 = with_table(flow, table);
        let next = next_index(flow.positions, i as usize, branches[0].target) as int;
        assert(branch_admitted(flow, rank, i, branches[0]));
        assert(branch_admitted(flow2, other, i, branches[0]));
        lemma_next_stable(flow, rank, table, other, i, next);
        let rest = branches.drop_first();
        assert forall|k: int| 0 <= k < rest.len() implies branch_admitted(
            flow,
            rank,
            i,
            #[trigger] rest[k],
        ) && branch_admitted(flow2, other, i, rest[k]) by {
            assert(rest[k] == branches[k + 1]);
        }
        lemma_branches_stable(
            flow,
            rank,
            table,
            other,
            i,
            rest,
            add_all_but(acc, required_next(flow, rank, i, next), branches[0].results@),
        );
    }
}

/// Whether the analysis at the statement `i` comes to the statement `j`:
/// `j` is `i` itself, or, where the slot of `i` is not filled, the analysis
/// at a statement that may come next comes to `j`. That is the statement
/// after a label, and the target of each branch of an invocation.
pub open spec fn visits(flow: Flow, rank: Map<int, nat>, i: int, j: int) -> bool
    decreases rank[i], 1nat,
{
    j == i || (0 <= i < flow.table.len() && flow.table[i].len() == 0 && i < flow.statements.len()
        && match flow.statements[i] {
        Statement::Sierra(GenStatement::Return(_)) => false,
        Statement::Label(_) => visits_next(flow, rank, i, i + 1, j),
        Statement::Sierra(GenStatement::Invocation(invocation)) => exists|k: int|
            0 <= k < invocation.branches@.len() && visits_next(
                flow,
                rank,
                i,
                next_index(
                    flow.positions,
                    i as usize,
                    (#[trigger] invocation.branches@[k]).target,
                ) as int,
                j,
            ),
    })
}

/// Whether the analysis at the statement `s`, which follows the statement
/// `i`, comes to the statement `j`. At a statement whose slot is filled it
/// stops.
pub open spec fn visits_next(flow: Flow, rank: Map<int, nat>, i: int, s: int, j: int) -> bool
    decreases rank[i], 0nat,
{
    if 0 <= s < flow.table.len() && flow.table[s].len() > 0 {
        j == s
    } else if rank.dom().contains(i) && rank.dom().contains(s) && rank[s] < rank[i] {
        visits(flow, rank, s, j)
    } else {
        j == s
    }
}

/// The statements that the analysis at the statement `index` comes to.
pub open spec fn visited(flow: Flow, rank: Map<int, nat>, index: int) -> Set<int> {
    Set::new(|j: int| visits(flow, rank, index, j))
}

/// The table of the flow after the analysis has come to the statements
/// `seen`: each of their slots that was not filled holds what is required
/// there, and every other slot is as it was.
pub open spec fn filled(flow: Flow, rank: Map<int, nat>, seen: Set<int>) -> Seq<Seq<VarId>> {
    Seq::new(
        flow.table.len(),
        |j: int|
            if flow.table[j].len() == 0 && seen.contains(j) {
                required(flow, rank, j)
            } else {
                flow.table[j]
            },
    )
}

/// Whether the analysis at a statement of `seen` comes to statements of
/// `seen` only.
pub open spec fn closed_under_visits(flow: Flow, rank: Map<int, nat>, seen: Set<int>) -> bool {
    forall|m: int, j: int|
        seen.contains(m) && #[trigger] visits(flow, rank, m, j) ==> seen.contains(j)
}

/// The analysis comes to statements of the schedule only.
pub proof fn lemma_visits_in_schedule(flow: Flow, rank: Map<int, nat>, i: int, j: int)
    requires
        admits(flow, rank),
        rank.dom().contains(i),
        visits(flow, rank, i, j),
    ensures
        rank.dom().contains(j),
        0 <= j < flow.table.len(),
    decreases rank[i],
{
    assert(admits_at(flow, rank, i));
    if j != i {
        match flow.statements[i] {
            Statement::Sierra(GenStatement::Return(_)) => {},
            Statement::Label(_) => {
                lemma_visits_next_in_schedule(flow, rank, i, i + 1, j);
            },
            Statement::Sierra(GenStatement::Invocation(invocation)) => {
                let k = choose|k: int|
                    0 <= k < invocation.branches@.len() && visits_next(
                        flow,
                        rank,
                        i,
                        next_index(
                            flow.positions,
                            i as usize,
                            (#[trigger] invocation.branches@[k]).target,
                        ) as int,
                        j,
                    );
                assert(branch_admitted(flow, rank, i, invocation.branches@[k]));
                lemma_visits_next_in_schedule(
                    flow,
                    rank,
                    i,
                    next_index(flow.positions, i as usize, invocation.branches@[k].target) as int,
                    j,
                );
            },
        }
    }
    assert(admits_at(flow, rank, j));
}

/// The analysis at a statement that may follow another comes to statements
/// of the schedule only.
pub proof fn lemma_visits_next_in_schedule(
    flow: Flow,
    rank: Map<int, nat>,
    i: int,
    s: int,
    j: int,
)
    requires
        admits(flow, rank),
        rank.dom().contains(i),
        flow.table[i].len() == 0,
        lower_or_known(flow, rank, i, s),
        visits_next(flow, rank, i, s, j),
    ensures
        rank.dom().contains(j),
    decreases rank[i], 0nat,
{
    assert(admits_at(flow, rank, s));
    if flow.table[s].len() == 0 {
        lemma_visits_in_schedule(flow, rank, s, j);
    }
}

/// Where the analysis at `i` comes to `m`, it comes to every statement that
/// the analysis at `m` comes to.
pub proof fn lemma_visits_onward(flow: Flow, rank: Map<int, nat>, i: int, m: int, j: int)
    requires
        admits(flow, rank),
        rank.dom().contains(i),
        visits(flow, rank, i, m),
        visits(flow, rank, m, j),
    ensures
        visits(flow, rank, i, j),
    decreases rank[i],
{
    assert(admits_at(flow, rank, i));
    if m != i {
        match flow.statements[i] {
            Statement::Sierra(GenStatement::Return(_)) => {},
            Statement::Label(_) => {
                lemma_visits_next_onward(flow, rank, i, i + 1, m, j);
            },
            Statement::Sierra(GenStatement::Invocation(invocation)) => {
                let k = choose|k: int|
                    0 <= k < invocation.branches@.len() && visits_next(
                        flow,
                        rank,
                        i,
                        next_index(
                            flow.positions,
                            i as usize,
                            (#[trigger] invocation.branches@[k]).target,
                        ) as int,
                        m,
                    );
                assert(branch_admitted(flow, rank, i, invocation.branches@[k]));
                lemma_visits_next_onward(
                    flow,
                    rank,
                    i,
                    next_index(flow.positions, i as usize, invocation.branches@[k].target) as int,
                    m,
                    j,
                );
            },
        }
    }
}

/// Where the analysis at `s`, which follows `i`, comes to `m`, it comes to
/// every statement that the analysis at `m` comes to.
pub proof fn lemma_visits_next_onward(
    flow: Flow,
    rank: Map<int, nat>,
    i: int,
    s: int,
    m: int,
    j: int,
)
    requires
        admits(flow, rank),
        rank.dom().contains(i),
        flow.table[i].len() == 0,
        lower_or_known(flow, rank, i, s),
        visits_next(flow, rank, i, s, m),
        visits(flow, rank, m, j),
    ensures
        visits_next(flow, rank, i, s, j),
    decreases rank[i], 0nat,
{
    assert(admits_at(flow, rank, s));
    if flow.table[s].len() == 0 {
        lemma_visits_onward(flow, rank, s, m, j);
    }
}

/// The analysis comes to the same statements under every schedule that
/// admits the flow.
pub proof fn lemma_visits_under_any_schedule(
    flow: Flow,
    rank: Map<int, nat>,
    other: Map<int, nat>,
    i: int,
    j: int,
)
    requires
        admits(flow, rank),
        admits(flow, other),
        rank.dom().contains(i),
        other.dom().contains(i),
    ensures
        visits(flow, rank, i, j) == visits(flow, other, i, j),
    decreases rank[i],
{
    assert(admits_at(flow, rank, i));
    assert(admits_at(flow, other, i));
    if j != i && flow.table[i].len() == 0 {
        match flow.statements[i] {
            Statement::Sierra(GenStatement::Return(_)) => {},
            Statement::Label(_) => {
                lemma_visits_next_under_any_schedule(flow, rank, other, i, i + 1, j);
            },
            Statement::Sierra(GenStatement::Invocation(invocation)) => {
                assert forall|k: int| 0 <= k < invocation.branches@.len() implies visits_next(
                    flow,
                    rank,
                    i,
                    next_index(
                        flow.positions,
                        i as usize,
                        (#[trigger] invocation.branches@[k]).target,
                    ) as int,
                    j,
                ) == visits_next(
                    flow,
                    other,
                    i,
                    next_index(flow.positions, i as usize, invocation.branches@[k].target) as int,
                    j,
                ) by {
                    assert(branch_admitted(flow, rank, i, invocation.branches@[k]));
                    assert(branch_admitted(flow, other, i, invocation.branches@[k]));
                    lemma_visits_next_under_any_schedule(
                        flow,
                        rank,
                        other,
                        i,
                        next_index(
                            flow.positions,
                            i as usize,
                            invocation.branches@[k].target,
                        ) as int,
                        j,
                    );
                }
            },
        }
    }
}

/// The analysis at a statement that follows another comes to the same
/// statements under every schedule that admits the flow.
pub proof fn lemma_visits_next_under_any_schedule(
    flow: Flow,
    rank: Map<int, nat>,
    other: Map<int, nat>,
    i: int,
    s: int,
    j: int,
)
    requires
        admits(flow, rank),
        admits(flow, other),
        rank.dom().contains(i),
        other.dom().contains(i),
        flow.table[i].len() == 0,
        lower_or_known(flow, rank, i, s),
        lower_or_known(flow, other, i, s),
    ensures
        visits_next(flow, rank, i, s, j) == visits_next(flow, other, i, s, j),
    decreases rank[i], 0nat,
{
    assert(admits_at(flow, rank, s));
    if flow.table[s].len() == 0 {
        lemma_visits_under_any_schedule(flow, rank, other, s, j);
    }
}

/// The statements that the analysis has come to, together with those that
/// the analysis at one more statement comes to, are again such that the
/// analysis does not leave them.
pub proof fn lemma_closed_with_visited(
    flow: Flow,
    rank: Map<int, nat>,
    seen: Set<int>,
    index: int,
)
    requires
        admits(flow, rank),
        rank.dom().contains(index),
        closed_under_visits(flow, rank, seen),
    ensures
        closed_under_visits(flow, rank, seen.union(visited(flow, rank, index))),
{
    let all = seen.union(visited(flow, rank, index));
    assert forall|m: int, j: int| all.contains(m) && #[trigger] visits(
        flow,
        rank,
        m,
        j,
    ) implies all.contains(j) by {
        if !seen.contains(m) {
            lemma_visits_onward(flow, rank, index, m, j);
        }
    }
}

/// What the table stands for: the variables of each slot in their order.
pub open spec fn table_view(table: Seq<OrderedVarSet>) -> Seq<Seq<VarId>> {
    Seq::new(table.len(), |j: int| table[j]@)
}

/// The flow of the given statements with the given table.
pub open spec fn flow_of(
    statements: Seq<Statement>,
    positions: Map<u64, usize>,
    table: Seq<OrderedVarSet>,
) -> Flow {
    Flow { statements, positions, table: table_view(table) }
}

/// How far the analysis is from the end at the statement `i`: nowhere where
/// the slot is filled, else as the schedule says.
pub open spec fn distance(flow: Flow, rank: Map<int, nat>, i: int) -> nat {
    if flow.table[i].len() > 0 {
        0
    } else {
        rank[i] + 1
    }
}

/// Puts those of `items` into the set that are not among `excluded`.
fn insert_all_but(set: &mut OrderedVarSet, items: &[VarId], excluded: &[VarId])
    ensures
        final(set)@ == add_all_but(old(set)@, items@, excluded@),
{
    let mut m: usize = 0;
    assert(items@.skip(0) =~= items@);
    while m < items.len()
        invariant
            m <= items@.len(),
            add_all_but(old(set)@, items@, excluded@) == add_all_but(
                set@,
                items@.skip(m as int),
                excluded@,
            ),
        decreases items@.len() - m,
    {
        let ghost rest = items@.skip(m as int);
        assert(rest.len() > 0 && rest[0] == items@[m as int]);
        assert(rest.drop_first() =~= items@.skip(m + 1));
        if !contains_var(excluded, &items[m]) {
            set.insert(items[m]);
        }
        m += 1;
    }
    assert(items@.skip(m as int).len() == 0);
}

/// Whether the analysis at one of the first `count` branches of the
/// statement `i` comes to the statement `j`.
pub open spec fn visits_through(
    flow: Flow,
    rank: Map<int, nat>,
    i: int,
    branches: Seq<GenBranchInfo<LabelId>>,
    count: int,
    j: int,
) -> bool {
    exists|k: int|
        0 <= k < count && visits_next(
            flow,
            rank,
            i,
            next_index(flow.positions, i as usize, (#[trigger] branches[k]).target) as int,
            j,
        )
}

/// Fills in the slot of the statement `index`, and those of the statements
/// that the analysis comes to from there, along the schedule `rank`. The
/// table started as `base`, and the analysis has come to the statements
/// `seen` already.
fn calculate_along(
    next_statement_index_fetch: &NextStatementIndexFetch,
    required_vars: &mut Vec<OrderedVarSet>,
    index: usize,
    statements: &[Statement],
    Ghost(rank): Ghost<Map<int, nat>>,
    Ghost(base): Ghost<Seq<Seq<VarId>>>,
    Ghost(seen): Ghost<Set<int>>,
)
    requires
        admits(
            Flow { statements: statements@, positions: next_statement_index_fetch@, table: base },
            rank,
        ),
        rank.dom().contains(index as int),
        closed_under_visits(
            Flow { statements: statements@, positions: next_statement_index_fetch@, table: base },
            rank,
            seen,
        ),
        table_view(old(required_vars)@) == filled(
            Flow { statements: statements@, positions: next_statement_index_fetch@, table: base },
            rank,
            seen,
        ),
    ensures
        table_view(final(required_vars)@) == filled(
            Flow { statements: statements@, positions: next_statement_index_fetch@, table: base },
            rank,
            seen.union(
                visited(
                    Flow {
                        statements: statements@,
                        positions: next_statement_index_fetch@,
                        table: base,
                    },
                    rank,
                    index as int,
                ),
            ),
        ),
    decreases
        distance(
            flow_of(statements@, next_statement_index_fetch@, old(required_vars)@),
            rank,
            index as int,
        ),
{
    let ghost flow = Flow {
        statements: statements@,
        positions: next_statement_index_fetch@,
        table: base,
    };
    let ghost start = table_view(required_vars@);
    assert(admits_at(flow, rank, index as int));
    assert(filled(flow, rank, seen).len() == base.len());
    assert(start.len() == required_vars@.len());
    assert(start[index as int] == required_vars@[index as int]@);
    if !required_vars[index].is_empty() {
        proof {
            let all = seen.union(visited(flow, rank, index as int));
            assert forall|j: int| 0 <= j < base.len() implies filled(flow, rank, all)[j] == filled(
                flow,
                rank,
                seen,
            )[j] by {
                if base[j].len() == 0 && visits(flow, rank, index as int, j) {
                    assert(seen.contains(index as int));
                }
            }
            assert(filled(flow, rank, all) =~= filled(flow, rank, seen));
        }
        return ;
    }
    assert(base[index as int].len() == 0);
    let ghost mut seen_now = seen;
    let value = match &statements[index] {
        Statement::Sierra(GenStatement::Invocation(invocation)) => {
            let mut set = OrderedVarSet::new();
            let mut k: usize = 0;
            assert(invocation.branches@.skip(0) =~= invocation.branches@);
            assert(seen_now =~= seen.union(
                Set::new(
                    |j: int| visits_through(flow, rank, index as int, invocation.branches@, 0, j),
                ),
            ));
            while k < invocation.branches.len()
                invariant
                    k <= invocation.branches@.len(),
                    flow == (Flow {
                        statements: statements@,
                        positions: next_statement_index_fetch@,
                        table: base,
                    }),
                    admits(flow, rank),
                    rank.dom().contains(index as int),
                    index < statements@.len(),
                    index < base.len(),
                    base[index as int].len() == 0,
                    required_vars@.len() == base.len(),
                    old(required_vars)@.len() == base.len(),
                    table_view(old(required_vars)@)[index as int].len() == 0,
                    flow.statements[index as int] == Statement::Sierra(
                        GenStatement::Invocation(*invocation),
                    ),
                    closed_under_visits(flow, rank, seen_now),
                    table_view(required_vars@) == filled(flow, rank, seen_now),
                    seen_now == seen.union(
                        Set::new(
                            |j: int|
                                visits_through(
                                    flow,
                                    rank,
                                    index as int,
                                    invocation.branches@,
                                    k as int,
                                    j,
                                ),
                        ),
                    ),
                    required_of_branches(
                        flow,
                        rank,
                        index as int,
                        invocation.branches@,
                        Seq::empty(),
                    ) == required_of_branches(
                        flow,
                        rank,
                        index as int,
                        invocation.branches@.skip(k as int),
                        set@,
                    ),
                decreases invocation.branches@.len() - k,
            {
                let branch = &invocation.branches[k];
                let ghost rest = invocation.branches@.skip(k as int);
                let ghost before = table_view(required_vars@);
                proof {
                    assert(admits_at(flow, rank, index as int));
                    assert(flow.statements[index as int] is Sierra);
                    assert(flow.statements[index as int]->Sierra_0 is Invocation);
                    assert(flow.statements[index as int]->Sierra_0->Invocation_0.branches@
                        == invocation.branches@);
                    assert(branch_admitted(flow, rank, index as int, invocation.branches@[k as int]));
                    assert(rest.len() > 0 && rest[0] == invocation.branches@[k as int]);
                    assert(rest.drop_first() =~= invocation.branches@.skip(k + 1));
                }
                let next_index = next_statement_index_fetch.get(index, &branch.target);
                proof {
                    assert(admits_at(flow, rank, next_index as int));
                    assert(before[next_index as int] == required_vars@[next_index as int]@);
                    assert(before[next_index as int].len() == 0 ==> base[next_index as int].len()
                        == 0);
                }
                calculate_along(
                    next_statement_index_fetch,
                    required_vars,
                    next_index,
                    statements,
                    Ghost(rank),
                    Ghost(base),
                    Ghost(seen_now),
                );
                proof {
                    let earlier = seen_now;
                    assert(filled(
                        flow,
                        rank,
                        earlier.union(visited(flow, rank, next_index as int)),
                    ).len() == base.len());
                    assert(table_view(required_vars@).len() == required_vars@.len());
                    lemma_closed_with_visited(flow, rank, earlier, next_index as int);
                    seen_now = earlier.union(visited(flow, rank, next_index as int));
                    assert forall|j: int|
                        visits_next(flow, rank, index as int, next_index as int, j) == visits(
                            flow,
                            rank,
                            next_index as int,
                            j,
                        ) by {}
                    assert forall|j: int|
                        visits_through(
                            flow,
                            rank,
                            index as int,
                            invocation.branches@,
                            k + 1,
                            j,
                        ) == (visits_through(
                            flow,
                            rank,
                            index as int,
                            invocation.branches@,
                            k as int,
                            j,
                        ) || visits(flow, rank, next_index as int, j)) by {
                        if visits_through(
                            flow,
                            rank,
                            index as int,
                            invocation.branches@,
                            k + 1,
                            j,
                        ) {
                            let at = choose|at: int|
                                0 <= at < k + 1 && visits_next(
                                    flow,
                                    rank,
                                    index as int,
                                    self::next_index(
                                        flow.positions,
                                        index,
                                        (#[trigger] invocation.branches@[at]).target,
                                    ) as int,
                                    j,
                                );
                            if at < k {
                                assert(visits_through(
                                    flow,
                                    rank,
                                    index as int,
                                    invocation.branches@,
                                    k as int,
                                    j,
                                ));
                            }
                        }
                        if visits(flow, rank, next_index as int, j) {
                            assert(visits_next(
                                flow,
                                rank,
                                index as int,
                                self::next_index(
                                    flow.positions,
                                    index,
                                    invocation.branches@[k as int].target,
                                ) as int,
                                j,
                            ));
                        }
                    }
                    assert(seen_now =~= seen.union(
                        Set::new(
                            |j: int|
                                visits_through(
                                    flow,
                                    rank,
                                    index as int,
                                    invocation.branches@,
                                    k + 1,
                                    j,
                                ),
                        ),
                    ));
                    let after = table_view(required_vars@);
                    assert(visits(flow, rank, next_index as int, next_index as int));
                    assert(after[next_index as int] == required_vars@[next_index as int]@);
                    assert(after[next_index as int] == required(flow, rank, next_index as int));
                    assert(required_next(flow, rank, index as int, next_index as int)
                        == required(flow, rank, next_index as int));
                }
                insert_all_but(
                    &mut set,
                    required_vars[next_index].as_slice(),
                    branch.results.as_slice(),
                );
                k += 1;
            }
            assert(invocation.branches@.skip(k as int).len() == 0);
            insert_all_but(&mut set, invocation.args.as_slice(), Vec::new().as_slice());
            proof {
                assert forall|j: int|
                    visits(flow, rank, index as int, j) == (j == index || visits_through(
                        flow,
                        rank,
                        index as int,
                        invocation.branches@,
                        invocation.branches@.len() as int,
                        j,
                    )) by {}
                assert(seen_now.insert(index as int) =~= seen.union(
                    visited(flow, rank, index as int),
                ));
            }
            set
        },
        Statement::Sierra(GenStatement::Return(ret_vars)) => {
            let mut set = OrderedVarSet::new();
            insert_all_but(&mut set, ret_vars.as_slice(), Vec::new().as_slice());
            proof {
                assert(seen_now.insert(index as int) =~= seen.union(
                    visited(flow, rank, index as int),
                ));
            }
            set
        },
        Statement::Label(_) => {
            proof {
                assert(admits_at(flow, rank, index + 1));
                assert(start[index + 1] == required_vars@[index + 1]@);
                assert(start[index + 1].len() == 0 ==> base[index + 1].len() == 0);
            }
            calculate_along(
                next_statement_index_fetch,
                required_vars,
                index + 1,
                statements,
                Ghost(rank),
                Ghost(base),
                Ghost(seen),
            );
            proof {
                seen_now = seen.union(visited(flow, rank, index + 1));
                let after = table_view(required_vars@);
                assert(filled(flow, rank, seen_now).len() == base.len());
                assert(after.len() == required_vars@.len());
                assert(visits(flow, rank, index + 1, index + 1));
                assert(after[index + 1] == required_vars@[index + 1]@);
                assert(after[index + 1] == required(flow, rank, index + 1));
                assert(required_next(flow, rank, index as int, index + 1) == required(
                    flow,
                    rank,
                    index + 1,
                ));
                assert forall|j: int|
                    visits(flow, rank, index as int, j) == (j == index || visits(
                        flow,
                        rank,
                        index + 1,
                        j,
                    )) by {}
                assert(seen_now.insert(index as int) =~= seen.union(
                    visited(flow, rank, index as int),
                ));
            }
            required_vars[index + 1].clone()
        },
    };
    let ghost before = table_view(required_vars@);
    assert(before == filled(flow, rank, seen_now));
    assert(before.len() == base.len() && before.len() == required_vars@.len());
    assert(value@ == required(flow, rank, index as int));
    required_vars[index] = value;
    proof {
        let after = table_view(required_vars@);
        let target = filled(flow, rank, seen_now.insert(index as int));
        assert(after[index as int] == value@);
        assert forall|j: int| 0 <= j < after.len() implies after[j] == target[j] by {
            if j != index {
                assert(after[j] == before[j]);
            }
        }
        assert(after =~= target);
    }
}

/// Whether `rank` is a schedule for the analysis at the statement `index`:
/// it admits the flow and holds the statement.
pub open spec fn schedule_for(flow: Flow, rank: Map<int, nat>, index: int) -> bool {
    admits(flow, rank) && rank.dom().contains(index)
}

/// Calculates the set of required existing variables per pre-Sierra statement.
///
/// The slot of the statement `index` is filled in, and with it the slots of
/// the statements that the analysis comes to from there: the statement after
/// a label and the targets of the branches of an invocation, as long as the
/// slots on the way are not filled. Each slot that was not filled then holds
/// what is required at its statement; a slot that is filled is never
/// calculated again, and every other slot stays as it was. The control flow
/// from `index` through the slots that are not filled may not come back to a
/// statement, nor leave the statements: there must be a schedule for it.
pub fn calculate_required_vars_per_statement(
    next_statement_index_fetch: &NextStatementIndexFetch,
    required_vars: &mut Vec<OrderedVarSet>,
    index: usize,
    statements: &[Statement],
)
    requires
        exists|rank: Map<int, nat>| #[trigger]
            schedule_for(
                flow_of(statements@, next_statement_index_fetch@, old(required_vars)@),
                rank,
                index as int,
            ),
    ensures
        final(required_vars)@.len() == old(required_vars)@.len(),
        forall|rank: Map<int, nat>| #[trigger]
            schedule_for(
                flow_of(statements@, next_statement_index_fetch@, old(required_vars)@),
                rank,
                index as int,
            ) ==> table_view(final(required_vars)@) == filled(
                flow_of(statements@, next_statement_index_fetch@, old(required_vars)@),
                rank,
                visited(
                    flow_of(statements@, next_statement_index_fetch@, old(required_vars)@),
                    rank,
                    index as int,
                ),
            ),
{
    let ghost flow = flow_of(statements@, next_statement_index_fetch@, required_vars@);
    let ghost chosen = choose|rank: Map<int, nat>| #[trigger]
        schedule_for(flow, rank, index as int);
    proof {
        assert(filled(flow, chosen, Set::empty()) =~= flow.table);
    }
    calculate_along(
        next_statement_index_fetch,
        required_vars,
        index,
        statements,
        Ghost(chosen),
        Ghost(flow.table),
        Ghost(Set::empty()),
    );
    proof {
        let after = table_view(required_vars@);
        assert(after.len() == required_vars@.len());
        assert(filled(flow, chosen, visited(flow, chosen, index as int)).len()
            == flow.table.len());
        assert(Set::<int>::empty().union(visited(flow, chosen, index as int)) =~= visited(
            flow,
            chosen,
            index as int,
        ));
        assert forall|rank: Map<int, nat>| #[trigger]
            schedule_for(flow, rank, index as int) implies after == filled(
            flow,
            rank,
            visited(flow, rank, index as int),
        ) by {
            lemma_filled_under_any_schedule(flow, chosen, rank, index as int);
        }
    }
}

/// The table after the analysis at a statement is the same under every
/// schedule for it.
pub proof fn lemma_filled_under_any_schedule(
    flow: Flow,
    rank: Map<int, nat>,
    other: Map<int, nat>,
    index: int,
)
    requires
        schedule_for(flow, rank, index),
        schedule_for(flow, other, index),
    ensures
        filled(flow, rank, visited(flow, rank, index)) == filled(
            flow,
            other,
            visited(flow, other, index),
        ),
{
    let first = filled(flow, rank, visited(flow, rank, index));
    let second = filled(flow, other, visited(flow, other, index));
    assert(with_table(flow, flow.table) == flow);
    assert forall|j: int| 0 <= j < flow.table.len() implies first[j] == second[j] by {
        lemma_visits_under_any_schedule(flow, rank, other, index, j);
        if visits(flow, rank, index, j) {
            lemma_visits_in_schedule(flow, rank, index, j);
            lemma_visits_in_schedule(flow, other, index, j);
            lemma_required_stable(flow, rank, flow.table, other, j);
        }
    }
    assert(first =~= second);
}

/// The table after the analysis at a statement is the table before it with
/// more slots filled in.
pub proof fn lemma_filled_refines(flow: Flow, rank: Map<int, nat>, index: int)
    requires
        schedule_for(flow, rank, index),
    ensures
        refines(flow, rank, filled(flow, rank, visited(flow, rank, index))),
{
    let table = filled(flow, rank, visited(flow, rank, index));
    assert forall|j: int| 0 <= j < table.len() implies #[trigger] table[j] == flow.table[j] || (
    flow.table[j].len() == 0 && rank.dom().contains(j) && table[j] == required(flow, rank, j)) by {
        if visits(flow, rank, index, j) {
            lemma_visits_in_schedule(flow, rank, index, j);
        }
    }
}

/// Each variable of `acc` is among the variables that `add_all_but` gives,
/// and so is each variable of `items` that is not among `excluded`.
pub proof fn lemma_add_all_but_holds(
    acc: Seq<VarId>,
    items: Seq<VarId>,
    excluded: Seq<VarId>,
    v: VarId,
)
    requires
        acc.contains(v) || (items.contains(v) && !excluded.contains(v)),
    ensures
        add_all_but(acc, items, excluded).contains(v),
    decreases items.len(),
{
    if items.len() > 0 {
        let next = if excluded.contains(items[0]) {
            acc
        } else {
            inserted(acc, items[0])
        };
        if acc.contains(v) {
            let at = choose|at: int| 0 <= at < acc.len() && acc[at] == v;
            assert(next[at] == v);
        } else if items[0] == v {
            if !acc.contains(v) {
                assert(next[acc.len() as int] == v);
            }
        } else {
            let at = choose|at: int| 0 <= at < items.len() && items[at] == v;
            assert(items.drop_first()[at - 1] == v);
        }
        lemma_add_all_but_holds(next, items.drop_first(), excluded, v);
    }
}

/// Each variable of `acc` is among what the branches give, and so is each
/// variable that the target of one of the branches requires and that is not
/// among the results of that branch.
pub proof fn lemma_branches_hold(
    flow: Flow,
    rank: Map<int, nat>,
    i: int,
    branches: Seq<GenBranchInfo<LabelId>>,
    acc: Seq<VarId>,
    v: VarId,
)
    requires
        acc.contains(v) || exists|k: int|
            0 <= k < branches.len() && required_next(
                flow,
                rank,
                i,
                next_index(flow.positions, i as usize, (#[trigger] branches[k]).target) as int,
            ).contains(v) && !branches[k].results@.contains(v),
    ensures
        required_of_branches(flow, rank, i, branches, acc).contains(v),
    decreases branches.len(),
{
    if branches.len() > 0 {
        let next = next_index(flow.positions, i as usize, branches[0].target) as int;
        let from_next = required_next(flow, rank, i, next);
        let grown = add_all_but(acc, from_next, branches[0].results@);
        let rest = branches.drop_first();
        if acc.contains(v) || (from_next.contains(v) && !branches[0].results@.contains(v)) {
            lemma_add_all_but_holds(acc, from_next, branches[0].results@, v);
        } else {
            let k = choose|k: int|
                0 <= k < branches.len() && required_next(
                    flow,
                    rank,
                    i,
                    next_index(flow.positions, i as usize, (#[trigger] branches[k]).target) as int,
                ).contains(v) && !branches[k].results@.contains(v);
            assert(rest[k - 1] == branches[k]);
        }
        lemma_branches_hold(flow, rank, i, rest, grown, v);
    }
}

/// A label requires what the statement after it requires, where its slot is
/// not filled.
pub proof fn lemma_label_requires_what_follows(flow: Flow, rank: Map<int, nat>, i: int)
    requires
        schedule_for(flow, rank, i),
        flow.table[i].len() == 0,
        flow.statements[i] is Label,
    ensures
        required(flow, rank, i) == required(flow, rank, i + 1),
{
    assert(admits_at(flow, rank, i));
    assert(admits_at(flow, rank, i + 1));
}

/// An invocation requires its arguments, and for each of its branches what
/// the target of the branch requires without the results of the branch,
/// where its slot is not filled.
pub proof fn lemma_invocation_requires(flow: Flow, rank: Map<int, nat>, i: int, k: int, v: VarId)
    requires
        schedule_for(flow, rank, i),
        flow.table[i].len() == 0,
        flow.statements[i] matches Statement::Sierra(GenStatement::Invocation(invocation))
            && 0 <= k < invocation.branches@.len(),
    ensures
        ({
            let invocation = flow.statements[i]->Sierra_0->Invocation_0;
            let branch = invocation.branches@[k];
            let target = next_index(flow.positions, i as usize, branch.target) as int;
            &&& invocation.args@.contains(v) ==> required(flow, rank, i).contains(v)
            &&& required(flow, rank, target).contains(v) && !branch.results@.contains(v)
                ==> required(flow, rank, i).contains(v)
        }),
{
    let invocation = flow.statements[i]->Sierra_0->Invocation_0;
    let branch = invocation.branches@[k];
    let target = next_index(flow.positions, i as usize, branch.target) as int;
    let from_branches = required_of_branches(flow, rank, i, invocation.branches@, Seq::empty());
    assert(admits_at(flow, rank, i));
    assert(branch_admitted(flow, rank, i, branch));
    assert(admits_at(flow, rank, target));
    assert(required_next(flow, rank, i, target) == required(flow, rank, target));
    if invocation.args@.contains(v) {
        lemma_add_all_but_holds(from_branches, invocation.args@, Seq::empty(), v);
    }
    if required(flow, rank, target).contains(v) && !branch.results@.contains(v) {
        lemma_branches_hold(flow, rank, i, invocation.branches@, Seq::empty(), v);
        lemma_add_all_but_holds(from_branches, invocation.args@, Seq::empty(), v);
    }
}

/// Each variable that `add_all_but` gives is among `acc`, or among `items`
/// and not among `excluded`.
pub proof fn lemma_add_all_but_holds_only(
    acc: Seq<VarId>,
    items: Seq<VarId>,
    excluded: Seq<VarId>,
    v: VarId,
)
    requires
        add_all_but(acc, items, excluded).contains(v),
    ensures
        acc.contains(v) || (items.contains(v) && !excluded.contains(v)),
    decreases items.len(),
{
    if items.len() > 0 {
        let next = if excluded.contains(items[0]) {
            acc
        } else {
            inserted(acc, items[0])
        };
        lemma_add_all_but_holds_only(next, items.drop_first(), excluded, v);
        if next.contains(v) {
            if !acc.contains(v) {
                let at = choose|at: int| 0 <= at < next.len() && next[at] == v;
                assert(at == acc.len());
                assert(items[0] == v);
            }
        } else {
            let at = choose|at: int|
                0 <= at < items.drop_first().len() && items.drop_first()[at] == v;
            assert(items[at + 1] == v);
        }
    }
}

/// Each variable among what the branches give is among `acc`, or is
/// required by the target of one of the branches and not among the results
/// of that branch.
pub proof fn lemma_branches_hold_only(
    flow: Flow,
    rank: Map<int, nat>,
    i: int,
    branches: Seq<GenBranchInfo<LabelId>>,
    acc: Seq<VarId>,
    v: VarId,
)
    requires
        required_of_branches(flow, rank, i, branches, acc).contains(v),
    ensures
        acc.contains(v) || exists|k: int|
            0 <= k < branches.len() && required_next(
                flow,
                rank,
                i,
                next_index(flow.positions, i as usize, (#[trigger] branches[k]).target) as int,
            ).contains(v) && !branches[k].results@.contains(v),
    decreases branches.len(),
{
    if branches.len() > 0 {
        let next = next_index(flow.positions, i as usize, branches[0].target) as int;
        let from_next = required_next(flow, rank, i, next);
        let grown = add_all_but(acc, from_next, branches[0].results@);
        let rest = branches.drop_first();
        lemma_branches_hold_only(flow, rank, i, rest, grown, v);
        if grown.contains(v) {
            lemma_add_all_but_holds_only(acc, from_next, branches[0].results@, v);
            if !acc.contains(v) {
                assert(required_next(
                    flow,
                    rank,
                    i,
                    next_index(flow.positions, i as usize, branches[0].target) as int,
                ).contains(v) && !branches[0].results@.contains(v));
            }
        } else {
            let k = choose|k: int|
                0 <= k < rest.len() && required_next(
                    flow,
                    rank,
                    i,
                    next_index(flow.positions, i as usize, (#[trigger] rest[k]).target) as int,
                ).contains(v) && !rest[k].results@.contains(v);
            assert(branches[k + 1] == rest[k]);
        }
    }
}

/// An invocation requires nothing but its arguments and, for each of its
/// branches, what the target of the branch requires without the results of
/// the branch, where its slot is not filled.
pub proof fn lemma_invocation_requires_only(flow: Flow, rank: Map<int, nat>, i: int, v: VarId)
    requires
        schedule_for(flow, rank, i),
        flow.table[i].len() == 0,
        flow.statements[i] matches Statement::Sierra(GenStatement::Invocation(_)),
        required(flow, rank, i).contains(v),
    ensures
        ({
            let invocation = flow.statements[i]->Sierra_0->Invocation_0;
            invocation.args@.contains(v) || exists|k: int|
                0 <= k < invocation.branches@.len() && required(
                    flow,
                    rank,
                    next_index(
                        flow.positions,
                        i as usize,
                        (#[trigger] invocation.branches@[k]).target,
                    ) as int,
                ).contains(v) && !invocation.branches@[k].results@.contains(v)
        }),
{
    let invocation = flow.statements[i]->Sierra_0->Invocation_0;
    let from_branches = required_of_branches(flow, rank, i, invocation.branches@, Seq::empty());
    assert(admits_at(flow, rank, i));
    lemma_add_all_but_holds_only(from_branches, invocation.args@, Seq::empty(), v);
    if !invocation.args@.contains(v) {
        lemma_branches_hold_only(flow, rank, i, invocation.branches@, Seq::empty(), v);
        let k = choose|k: int|
            0 <= k < invocation.branches@.len() && required_next(
                flow,
                rank,
                i,
                next_index(
                    flow.positions,
                    i as usize,
                    (#[trigger] invocation.branches@[k]).target,
                ) as int,
            ).contains(v) && !invocation.branches@[k].results@.contains(v);
        let target = next_index(flow.positions, i as usize, invocation.branches@[k].target) as int;
        assert(branch_admitted(flow, rank, i, invocation.branches@[k]));
        assert(admits_at(flow, rank, target));
        assert(required_next(flow, rank, i, target) == required(flow, rank, target));
    }
}

/// After the analysis at the statement `index`, the slot of each statement
/// that it came to holds what is required there, and every other slot is as
/// it was.
pub proof fn lemma_slots_after(flow: Flow, rank: Map<int, nat>, index: int, j: int)
    requires
        schedule_for(flow, rank, index),
        0 <= j < flow.table.len(),
    ensures
        filled(flow, rank, visited(flow, rank, index))[j] == (if visits(flow, rank, index, j) {
            required(flow, rank, j)
        } else {
            flow.table[j]
        }),
{
}

/// The analysis at a label whose slot is not filled comes to the statement
/// after it, so afterwards the two slots hold the same.
pub proof fn lemma_label_slot_after(flow: Flow, rank: Map<int, nat>, i: int)
    requires
        schedule_for(flow, rank, i),
        flow.table[i].len() == 0,
        flow.statements[i] is Label,
    ensures
        visits(flow, rank, i, i + 1),
        filled(flow, rank, visited(flow, rank, i))[i] == filled(
            flow,
            rank,
            visited(flow, rank, i),
        )[i + 1],
{
    assert(admits_at(flow, rank, i));
    assert(admits_at(flow, rank, i + 1));
    assert(visits(flow, rank, i + 1, i + 1));
    assert(visits_next(flow, rank, i, i + 1, i + 1));
    lemma_slots_after(flow, rank, i, i);
    lemma_slots_after(flow, rank, i, i + 1);
}

/// The analysis at an invocation whose slot is not filled comes to the
/// target of each of its branches, so afterwards the slot there holds what
/// is required there.
pub proof fn lemma_branch_target_slot_after(flow: Flow, rank: Map<int, nat>, i: int, k: int)
    requires
        schedule_for(flow, rank, i),
        flow.table[i].len() == 0,
        flow.statements[i] matches Statement::Sierra(GenStatement::Invocation(invocation))
            && 0 <= k < invocation.branches@.len(),
    ensures
        ({
            let branch = flow.statements[i]->Sierra_0->Invocation_0.branches@[k];
            let target = next_index(flow.positions, i as usize, branch.target) as int;
            &&& visits(flow, rank, i, target)
            &&& 0 <= target < flow.table.len()
            &&& filled(flow, rank, visited(flow, rank, i))[target] == required(flow, rank, target)
        }),
{
    let invocation = flow.statements[i]->Sierra_0->Invocation_0;
    let branch = invocation.branches@[k];
    let target = next_index(flow.positions, i as usize, branch.target) as int;
    assert(admits_at(flow, rank, i));
    assert(branch_admitted(flow, rank, i, branch));
    assert(admits_at(flow, rank, target));
    assert(visits(flow, rank, target, target));
    assert(visits_next(flow, rank, i, target, target));
    lemma_slots_after(flow, rank, i, target);
}

/// Whether a branch of the statement `i` leads to a later statement: its
/// label has a place, and the statement it leads to comes after `i`.
pub open spec fn branch_leads_forward(
    statements: Seq<Statement>,
    positions: Map<u64, usize>,
    i: int,
    branch: GenBranchInfo<LabelId>,
) -> bool {
    &&& match branch.target {
        GenBranchTarget::Fallthrough => true,
        GenBranchTarget::Statement(label) => positions.contains_key(label.id),
    }
    &&& i < next_index(positions, i as usize, branch.target) < statements.len()
}

/// Whether the statement `i` leads to later statements only.
pub open spec fn leads_forward(
    statements: Seq<Statement>,
    positions: Map<u64, usize>,
    i: int,
) -> bool {
    match statements[i] {
        Statement::Sierra(GenStatement::Return(_)) => true,
        Statement::Label(_) => i + 1 < statements.len(),
        Statement::Sierra(GenStatement::Invocation(invocation)) => forall|k: int|
            0 <= k < invocation.branches@.len() ==> branch_leads_forward(
                statements,
                positions,
                i,
                #[trigger] invocation.branches@[k],
            ),
    }
}

/// Whether each statement leads to later statements only.
pub open spec fn all_lead_forward(statements: Seq<Statement>, positions: Map<u64, usize>) -> bool {
    forall|i: int| 0 <= i < statements.len() ==> #[trigger] leads_forward(statements, positions, i)
}

/// The schedule in which each of `count` statements comes above the later
/// ones.
pub open spec fn forward_schedule(count: nat) -> Map<int, nat> {
    Map::new(|i: int| 0 <= i < count, |i: int| (count - i) as nat)
}

/// Where each statement leads to later statements only, there is a schedule
/// for the analysis at every statement, whatever the table holds.
pub proof fn lemma_forward_flow_has_schedule(flow: Flow)
    requires
        flow.table.len() == flow.statements.len(),
        all_lead_forward(flow.statements, flow.positions),
    ensures
        admits(flow, forward_schedule(flow.statements.len())),
        forall|i: int|
            0 <= i < flow.statements.len() ==> #[trigger] schedule_for(
                flow,
                forward_schedule(flow.statements.len()),
                i,
            ),
{
    let rank = forward_schedule(flow.statements.len());
    assert forall|i: int| rank.dom().contains(i) implies #[trigger] admits_at(flow, rank, i) by {
        assert(leads_forward(flow.statements, flow.positions, i));
        match flow.statements[i] {
            Statement::Sierra(GenStatement::Invocation(invocation)) => {
                assert forall|k: int| 0 <= k < invocation.branches@.len() implies branch_admitted(
                    flow,
                    rank,
                    i,
                    #[trigger] invocation.branches@[k],
                ) by {
                    assert(branch_leads_forward(
                        flow.statements,
                        flow.positions,
                        i,
                        invocation.branches@[k],
                    ));
                }
            },
            _ => {},
        }
    }
}

/// Whether each of the statements leads to later statements only.
pub fn leads_forward_only(
    next_statement_index_fetch: &NextStatementIndexFetch,
    statements: &[Statement],
) -> (r: bool)
    ensures
        r == all_lead_forward(statements@, next_statement_index_fetch@),
{
    let count = statements.len();
    let mut i: usize = 0;
    while i < count
        invariant
            count == statements@.len(),
            i <= statements@.len(),
            forall|j: int|
                0 <= j < i ==> #[trigger] leads_forward(
                    statements@,
                    next_statement_index_fetch@,
                    j,
                ),
        decreases statements@.len() - i,
    {
        match &statements[i] {
            Statement::Sierra(GenStatement::Return(_)) => {},
            Statement::Label(_) => {
                if i + 1 >= statements.len() {
                    assert(!leads_forward(statements@, next_statement_index_fetch@, i as int));
                    return false;
                }
            },
            Statement::Sierra(GenStatement::Invocation(invocation)) => {
                let mut k: usize = 0;
                while k < invocation.branches.len()
                    invariant
                        k <= invocation.branches@.len(),
                        i < count,
                        count == statements@.len(),
                        statements@[i as int] == Statement::Sierra(
                            GenStatement::Invocation(*invocation),
                        ),
                        forall|j: int|
                            0 <= j < k ==> branch_leads_forward(
                                statements@,
                                next_statement_index_fetch@,
                                i as int,
                                #[trigger] invocation.branches@[j],
                            ),
                    decreases invocation.branches@.len() - k,
                {
                    let branch = &invocation.branches[k];
                    proof {
                        assert(statements@[i as int] is Sierra);
                        assert(statements@[i as int]->Sierra_0 is Invocation);
                        assert(statements@[i as int]->Sierra_0->Invocation_0.branches@[k as int]
                            == invocation.branches@[k as int]);
                    }
                    let known = match &branch.target {
                        GenBranchTarget::Fallthrough => true,
                        GenBranchTarget::Statement(label) => next_statement_index_fetch.knows(
                            label,
                        ),
                    };
                    if !known {
                        assert(!branch_leads_forward(
                            statements@,
                            next_statement_index_fetch@,
                            i as int,
                            invocation.branches@[k as int],
                        ));
                        assert(!leads_forward(statements@, next_statement_index_fetch@, i as int));
                        return false;
                    }
                    let next = next_statement_index_fetch.get(i, &branch.target);
                    if next <= i || next >= statements.len() {
                        assert(!branch_leads_forward(
                            statements@,
                            next_statement_index_fetch@,
                            i as int,
                            invocation.branches@[k as int],
                        ));
                        assert(!leads_forward(statements@, next_statement_index_fetch@, i as int));
                        return false;
                    }
                    k += 1;
                }
            },
        }
        i += 1;
    }
    true
}

/// Whether the statement `s` may come after the statement `i` without a
/// schedule of its own: the table has a slot for it, and the slot is filled
/// or the statement comes later.
pub open spec fn filled_or_later(flow: Flow, i: int, s: int) -> bool {
    0 <= s < flow.table.len() && (flow.table[s].len() > 0 || i < s)
}

/// Whether a branch of the statement `i` leads to a filled slot or to a later
/// statement, and its label has a place.
pub open spec fn branch_leads_on(flow: Flow, i: int, branch: GenBranchInfo<LabelId>) -> bool {
    &&& match branch.target {
        GenBranchTarget::Fallthrough => i < usize::MAX,
        GenBranchTarget::Statement(label) => flow.positions.contains_key(label.id),
    }
    &&& filled_or_later(flow, i, next_index(flow.positions, i as usize, branch.target) as int)
}

/// Whether the statement `i` exists and leads to filled slots and later
/// statements only, unless its own slot is filled.
pub open spec fn leads_on(flow: Flow, i: int) -> bool {
    flow.table[i].len() == 0 ==> i < flow.statements.len() && match flow.statements[i] {
        Statement::Sierra(GenStatement::Return(_)) => true,
        Statement::Label(_) => filled_or_later(flow, i, i + 1),
        Statement::Sierra(GenStatement::Invocation(invocation)) => forall|k: int|
            0 <= k < invocation.branches@.len() ==> branch_leads_on(
                flow,
                i,
                #[trigger] invocation.branches@[k],
            ),
    }
}

/// Whether each statement that has a slot leads to filled slots and later
/// statements only.
pub open spec fn all_lead_on(flow: Flow) -> bool {
    forall|i: int| 0 <= i < flow.table.len() ==> #[trigger] leads_on(flow, i)
}

/// Where each statement leads to filled slots and later statements only,
/// there is a schedule for the analysis at every statement that has a slot.
pub proof fn lemma_flow_that_leads_on_has_schedule(flow: Flow)
    requires
        all_lead_on(flow),
    ensures
        admits(flow, forward_schedule(flow.table.len())),
        forall|i: int|
            0 <= i < flow.table.len() ==> #[trigger] schedule_for(
                flow,
                forward_schedule(flow.table.len()),
                i,
            ),
{
    let rank = forward_schedule(flow.table.len());
    assert forall|i: int| rank.dom().contains(i) implies #[trigger] admits_at(flow, rank, i) by {
        assert(leads_on(flow, i));
        if flow.table[i].len() == 0 {
            match flow.statements[i] {
                Statement::Sierra(GenStatement::Invocation(invocation)) => {
                    assert forall|k: int|
                        0 <= k < invocation.branches@.len() implies branch_admitted(
                        flow,
                        rank,
                        i,
                        #[trigger] invocation.branches@[k],
                    ) by {
                        assert(branch_leads_on(flow, i, invocation.branches@[k]));
                    }
                },
                _ => {},
            }
        }
    }
}

/// Whether each statement that has a slot in the table leads to filled slots
/// and later statements only.
pub fn leads_forward_or_to_filled(
    next_statement_index_fetch: &NextStatementIndexFetch,
    required_vars: &Vec<OrderedVarSet>,
    statements: &[Statement],
) -> (r: bool)
    ensures
        r == all_lead_on(flow_of(statements@, next_statement_index_fetch@, required_vars@)),
{
    let ghost flow = flow_of(statements@, next_statement_index_fetch@, required_vars@);
    let slots = required_vars.len();
    let count = statements.len();
    let mut i: usize = 0;
    while i < slots
        invariant
            slots == required_vars@.len(),
            count == statements@.len(),
            i <= slots,
            flow == flow_of(statements@, next_statement_index_fetch@, required_vars@),
            forall|j: int| 0 <= j < i ==> #[trigger] leads_on(flow, j),
        decreases slots - i,
    {
        assert(flow.table[i as int] == required_vars@[i as int]@);
        if required_vars[i].is_empty() {
            if i >= count {
                assert(!leads_on(flow, i as int));
                return false;
            }
            match &statements[i] {
                Statement::Sierra(GenStatement::Return(_)) => {},
                Statement::Label(_) => {
                    if i + 1 >= slots {
                        assert(!leads_on(flow, i as int));
                        return false;
                    }
                },
                Statement::Sierra(GenStatement::Invocation(invocation)) => {
                    let mut k: usize = 0;
                    while k < invocation.branches.len()
                        invariant
                            k <= invocation.branches@.len(),
                            i < count,
                            i < slots,
                            slots == required_vars@.len(),
                            count == statements@.len(),
                            flow == flow_of(
                                statements@,
                                next_statement_index_fetch@,
                                required_vars@,
                            ),
                            flow.table[i as int].len() == 0,
                            statements@[i as int] == Statement::Sierra(
                                GenStatement::Invocation(*invocation),
                            ),
                            forall|j: int|
                                0 <= j < k ==> branch_leads_on(
                                    flow,
                                    i as int,
                                    #[trigger] invocation.branches@[j],
                                ),
                        decreases invocation.branches@.len() - k,
                    {
                        let branch = &invocation.branches[k];
                        proof {
                            assert(statements@[i as int] is Sierra);
                            assert(statements@[i as int]->Sierra_0 is Invocation);
                            assert(statements@[i as int]->Sierra_0->Invocation_0.branches@[k as int]
                                == invocation.branches@[k as int]);
                        }
                        let known = match &branch.target {
                            GenBranchTarget::Fallthrough => true,
                            GenBranchTarget::Statement(label) => next_statement_index_fetch.knows(
                                label,
                            ),
                        };
                        if !known {
                            assert(!branch_leads_on(flow, i as int, invocation.branches@[k as int]));
                            assert(!leads_on(flow, i as int));
                            return false;
                        }
                        let next = next_statement_index_fetch.get(i, &branch.target);
                        if next >= slots {
                            assert(!branch_leads_on(flow, i as int, invocation.branches@[k as int]));
                            assert(!leads_on(flow, i as int));
                            return false;
                        }
                        assert(flow.table[next as int] == required_vars@[next as int]@);
                        if next <= i && required_vars[next].is_empty() {
                            assert(!branch_leads_on(flow, i as int, invocation.branches@[k as int]));
                            assert(!leads_on(flow, i as int));
                            return false;
                        }
                        k += 1;
                    }
                },
            }
        }
        i += 1;
    }
    true
}

/// The flow of the given statements with no slot of the table filled.
pub open spec fn unfilled_flow(statements: Seq<Statement>, positions: Map<u64, usize>) -> Flow {
    Flow {
        statements,
        positions,
        table: Seq::new(statements.len(), |j: int| Seq::<VarId>::empty()),
    }
}

/// Calculates the required variables of every statement, from the last
/// statement to the first and without recursion, where each statement leads
/// to later statements only. Else it gives nothing.
///
/// Each slot holds what the analysis that starts from an empty table
/// requires at its statement.
pub fn calculate_required_vars(
    next_statement_index_fetch: &NextStatementIndexFetch,
    statements: &[Statement],
) -> (r: Option<Vec<OrderedVarSet>>)
    ensures
        r is Some == all_lead_forward(statements@, next_statement_index_fetch@),
        r matches Some(table) ==> table@.len() == statements@.len() && forall|i: int|
            0 <= i < statements@.len() ==> (#[trigger] table@[i])@ == required(
                unfilled_flow(statements@, next_statement_index_fetch@),
                forward_schedule(statements@.len()),
                i,
            ),
{
    if !leads_forward_only(next_statement_index_fetch, statements) {
        return None;
    }
    let count = statements.len();
    let ghost flow = unfilled_flow(statements@, next_statement_index_fetch@);
    let ghost rank = forward_schedule(statements@.len());
    let mut table: Vec<OrderedVarSet> = Vec::new();
    while table.len() < count
        invariant
            table@.len() <= count,
        decreases count - table@.len(),
    {
        table.push(OrderedVarSet::new());
    }
    let mut index = count;
    while index > 0
        invariant
            index <= count,
            count == statements@.len(),
            table@.len() == count,
            flow == unfilled_flow(statements@, next_statement_index_fetch@),
            rank == forward_schedule(statements@.len()),
            all_lead_forward(statements@, next_statement_index_fetch@),
            forall|j: int|
                index <= j < count ==> (#[trigger] table@[j])@ == required(flow, rank, j),
        decreases index,
    {
        index -= 1;
        assert(leads_forward(statements@, next_statement_index_fetch@, index as int));
        let value = match &statements[index] {
            Statement::Sierra(GenStatement::Invocation(invocation)) => {
                let mut set = OrderedVarSet::new();
                let mut k: usize = 0;
                assert(invocation.branches@.skip(0) =~= invocation.branches@);
                while k < invocation.branches.len()
                    invariant
                        k <= invocation.branches@.len(),
                        index < count,
                        count == statements@.len(),
                        table@.len() == count,
                        flow == unfilled_flow(statements@, next_statement_index_fetch@),
                        rank == forward_schedule(statements@.len()),
                        leads_forward(statements@, next_statement_index_fetch@, index as int),
                        statements@[index as int] == Statement::Sierra(
                            GenStatement::Invocation(*invocation),
                        ),
                        forall|j: int|
                            index < j < count ==> (#[trigger] table@[j])@ == required(
                                flow,
                                rank,
                                j,
                            ),
                        required_of_branches(
                            flow,
                            rank,
                            index as int,
                            invocation.branches@,
                            Seq::empty(),
                        ) == required_of_branches(
                            flow,
                            rank,
                            index as int,
                            invocation.branches@.skip(k as int),
                            set@,
                        ),
                    decreases invocation.branches@.len() - k,
                {
                    let branch = &invocation.branches[k];
                    let ghost rest = invocation.branches@.skip(k as int);
                    proof {
                        assert(statements@[index as int] is Sierra);
                        assert(statements@[index as int]->Sierra_0 is Invocation);
                        assert(statements@[index as int]->Sierra_0->Invocation_0.branches@[k as int]
                            == invocation.branches@[k as int]);
                        assert(branch_leads_forward(
                            statements@,
                            next_statement_index_fetch@,
                            index as int,
                            invocation.branches@[k as int],
                        ));
                        assert(rest.len() > 0 && rest[0] == invocation.branches@[k as int]);
                        assert(rest.drop_first() =~= invocation.branches@.skip(k + 1));
                    }
                    let next_index = next_statement_index_fetch.get(index, &branch.target);
                    assert(required_next(flow, rank, index as int, next_index as int) == required(
                        flow,
                        rank,
                        next_index as int,
                    ));
                    insert_all_but(
                        &mut set,
                        table[next_index].as_slice(),
                        branch.results.as_slice(),
                    );
                    k += 1;
                }
                assert(invocation.branches@.skip(k as int).len() == 0);
                insert_all_but(&mut set, invocation.args.as_slice(), Vec::new().as_slice());
                set
            },
            Statement::Sierra(GenStatement::Return(ret_vars)) => {
                let mut set = OrderedVarSet::new();
                insert_all_but(&mut set, ret_vars.as_slice(), Vec::new().as_slice());
                set
            },
            Statement::Label(_) => {
                assert(required_next(flow, rank, index as int, index + 1) == required(
                    flow,
                    rank,
                    index + 1,
                ));
                table[index + 1].clone()
            },
        };
        assert(value@ == required(flow, rank, index as int));
        table[index] = value;
    }
    Some(table)
}

} // verus!
