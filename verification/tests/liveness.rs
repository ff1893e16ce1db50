use sierra::dup_and_ignore::{
    calculate_required_vars, calculate_required_vars_per_statement, leads_forward_only,
    leads_forward_or_to_filled, NextStatementIndexFetch,
};
use sierra::ids::{GenericLibFuncId, LabelId, VarId};
use sierra::ordered_var_set::{contains_var, OrderedVarSet};
use sierra::pre_sierra::{Label, Statement};
use sierra::program::{
    ConcreteLibFuncId, GenBranchInfo, GenBranchTarget, GenInvocation, GenStatement,
};

fn var(id: u64) -> VarId {
    VarId { id }
}

fn label(id: u64) -> Statement {
    Statement::Label(Label { id: LabelId { id } })
}

fn to_label(id: u64) -> GenBranchTarget<LabelId> {
    GenBranchTarget::Statement(LabelId { id })
}

fn invocation(args: &[u64], branches: Vec<(GenBranchTarget<LabelId>, Vec<u64>)>) -> Statement {
    Statement::Sierra(GenStatement::Invocation(GenInvocation {
        libfunc_id: ConcreteLibFuncId {
            generic_id: GenericLibFuncId::new("felt_add"),
            generic_args: vec![],
        },
        args: args.iter().map(|id| var(*id)).collect(),
        branches: branches
            .into_iter()
            .map(|(target, results)| GenBranchInfo {
                target,
                results: results.into_iter().map(var).collect(),
            })
            .collect(),
    }))
}

fn simple(args: &[u64], results: &[u64]) -> Statement {
    invocation(args, vec![(GenBranchTarget::Fallthrough, results.to_vec())])
}

fn ret(ids: &[u64]) -> Statement {
    Statement::Sierra(GenStatement::Return(ids.iter().map(|id| var(*id)).collect()))
}

fn empty_table(statements: &[Statement]) -> Vec<OrderedVarSet> {
    statements.iter().map(|_| OrderedVarSet::new()).collect()
}

fn ids(set: &OrderedVarSet) -> Vec<u64> {
    set.to_vec().iter().map(|v| v.id).collect()
}

fn set_of(values: &[u64]) -> OrderedVarSet {
    let mut set = OrderedVarSet::new();
    for id in values {
        set.insert(var(*id));
    }
    set
}

/// The required variables of every statement, each calculated in turn.
fn required(statements: &[Statement]) -> Vec<Vec<u64>> {
    let fetch = NextStatementIndexFetch::new(statements);
    assert!(leads_forward_only(&fetch, statements));
    let mut table = empty_table(statements);
    for index in 0..statements.len() {
        calculate_required_vars_per_statement(&fetch, &mut table, index, statements);
    }
    let all: Vec<Vec<u64>> = table.iter().map(ids).collect();
    // The analysis without recursion gives the same.
    let at_once = calculate_required_vars(&fetch, statements).unwrap();
    assert_eq!(at_once.iter().map(ids).collect::<Vec<_>>(), all);
    all
}

#[test]
fn straight_line_of_three_statements() {
    // Statement 1 reads y (1) and gives x (0); statement 2 returns x.
    let statements = vec![simple(&[], &[1]), simple(&[1], &[0]), ret(&[0])];
    let fetch = NextStatementIndexFetch::new(&statements);
    let mut table = empty_table(&statements);
    calculate_required_vars_per_statement(&fetch, &mut table, 1, &statements);
    assert_eq!(ids(&table[2]), vec![0]);
    assert_eq!(ids(&table[1]), vec![1]);
    assert_eq!(ids(&table[0]), vec![]);
    assert_eq!(required(&statements), vec![vec![], vec![1], vec![0]]);
}

#[test]
fn return_requires_what_it_returns() {
    assert_eq!(required(&[ret(&[4, 2, 4, 3])]), vec![vec![4, 2, 3]]);
    assert_eq!(required(&[ret(&[])]), vec![vec![]]);
}

#[test]
fn label_requires_what_follows() {
    let statements =
        vec![label(0), label(1), simple(&[5, 6], &[7]), label(2), ret(&[7, 8])];
    let all = required(&statements);
    assert_eq!(all[0], all[1]);
    assert_eq!(all[1], all[2]);
    assert_eq!(all[3], all[4]);
    assert_eq!(all[4], vec![7, 8]);
    assert_eq!(all[2], vec![8, 5, 6]);
}

#[test]
fn invocation_requires_its_arguments_and_what_its_branches_need() {
    let statements = vec![
        invocation(
            &[1, 2],
            vec![(GenBranchTarget::Fallthrough, vec![3]), (to_label(0), vec![4, 5])],
        ),
        ret(&[3, 9, 1]),
        label(0),
        ret(&[5, 8, 9, 4, 2]),
    ];
    let all = required(&statements);
    assert_eq!(all[1], vec![3, 9, 1]);
    assert_eq!(all[3], vec![5, 8, 9, 4, 2]);
    // First branch: 9, 1 (3 is its result). Second branch: 8, 2 (9 is there
    // already; 5 and 4 are its results). Then the arguments, both there.
    assert_eq!(all[0], vec![9, 1, 8, 2]);
    for argument in [1, 2] {
        assert!(all[0].contains(&argument));
    }
    for needed in all[1].iter().filter(|v| **v != 3) {
        assert!(all[0].contains(needed));
    }
    for needed in all[3].iter().filter(|v| **v != 4 && **v != 5) {
        assert!(all[0].contains(needed));
    }
}

#[test]
fn arguments_come_after_what_the_branches_need() {
    let statements = vec![simple(&[1, 2], &[3]), ret(&[3, 4])];
    assert_eq!(required(&statements), vec![vec![4, 1, 2], vec![3, 4]]);
}

#[test]
fn branches_that_meet_again() {
    let statements = vec![
        invocation(&[0], vec![(GenBranchTarget::Fallthrough, vec![]), (to_label(7), vec![1])]),
        simple(&[2], &[1]),
        label(7),
        ret(&[1, 3]),
    ];
    // Statement 0: its first branch needs 3 and 2, its second needs 3 again
    // (1 is its result), and 0 is its argument.
    assert_eq!(required(&statements), vec![vec![3, 2, 0], vec![3, 2], vec![1, 3], vec![1, 3]]);
}

#[test]
fn a_filled_slot_is_not_calculated_again() {
    let statements = vec![simple(&[1], &[0]), ret(&[0])];
    let fetch = NextStatementIndexFetch::new(&statements);
    let mut table = vec![OrderedVarSet::new(), set_of(&[0, 42])];
    calculate_required_vars_per_statement(&fetch, &mut table, 0, &statements);
    assert_eq!(ids(&table[1]), vec![0, 42]);
    assert_eq!(ids(&table[0]), vec![42, 1]);
    let mut table = vec![set_of(&[17]), OrderedVarSet::new()];
    calculate_required_vars_per_statement(&fetch, &mut table, 0, &statements);
    assert_eq!(ids(&table[0]), vec![17]);
    assert_eq!(ids(&table[1]), vec![]);
}

#[test]
fn a_jump_back_to_a_filled_slot() {
    // Statement 2 jumps back to the label at 0, whose slot is filled.
    let statements = vec![label(5), ret(&[1]), invocation(&[2], vec![(to_label(5), vec![1])])];
    let fetch = NextStatementIndexFetch::new(&statements);
    assert!(!leads_forward_only(&fetch, &statements));
    let mut table = empty_table(&statements);
    assert!(!leads_forward_or_to_filled(&fetch, &table, &statements));
    calculate_required_vars_per_statement(&fetch, &mut table, 0, &statements);
    assert_eq!(ids(&table[0]), vec![1]);
    // With the slot of the label filled, the jump back is in order.
    assert!(leads_forward_or_to_filled(&fetch, &table, &statements));
    calculate_required_vars_per_statement(&fetch, &mut table, 2, &statements);
    assert_eq!(ids(&table[2]), vec![2]);
}

#[test]
fn next_statement_index_fetch() {
    let statements = vec![label(10), ret(&[]), label(20), label(30), ret(&[])];
    let fetch = NextStatementIndexFetch::new(&statements);
    assert_eq!(fetch.get(0, &GenBranchTarget::Fallthrough), 1);
    assert_eq!(fetch.get(3, &GenBranchTarget::Fallthrough), 4);
    assert_eq!(fetch.get(0, &to_label(10)), 0);
    assert_eq!(fetch.get(4, &to_label(20)), 2);
    assert_eq!(fetch.get(1, &to_label(30)), 3);
    assert!(fetch.knows(&LabelId { id: 20 }));
    assert!(!fetch.knows(&LabelId { id: 21 }));
}

#[test]
fn the_last_place_of_a_label_counts() {
    let statements = vec![label(1), ret(&[]), label(1), ret(&[])];
    let fetch = NextStatementIndexFetch::new(&statements);
    assert_eq!(fetch.get(0, &to_label(1)), 2);
    let fetch = NextStatementIndexFetch::new(&[]);
    assert!(!fetch.knows(&LabelId { id: 1 }));
}

#[test]
fn leads_forward_only_checks_every_branch() {
    let check = |statements: &[Statement]| {
        leads_forward_only(&NextStatementIndexFetch::new(statements), statements)
    };
    assert!(check(&[]));
    assert!(check(&[simple(&[], &[]), ret(&[])]));
    assert!(check(&[invocation(&[], vec![(to_label(1), vec![])]), label(1), ret(&[])]));
    // Falls off the end.
    assert!(!check(&[simple(&[], &[])]));
    assert!(!check(&[ret(&[]), label(1)]));
    // Names a label that has no place.
    assert!(!check(&[invocation(&[], vec![(to_label(2), vec![])]), label(1), ret(&[])]));
    // Jumps back, or to itself.
    assert!(!check(&[label(1), invocation(&[], vec![(to_label(1), vec![])]), ret(&[])]));
    assert!(!check(&[
        invocation(
            &[],
            vec![(GenBranchTarget::Fallthrough, vec![]), (to_label(1), vec![])]
        ),
        ret(&[]),
        label(1),
        invocation(&[], vec![(to_label(1), vec![])]),
    ]));
}

#[test]
fn ordered_var_set_keeps_the_first_place() {
    let mut set = OrderedVarSet::new();
    assert!(set.is_empty());
    assert!(set.insert(var(3)));
    assert!(set.insert(var(1)));
    assert!(!set.insert(var(3)));
    assert!(set.insert(var(2)));
    assert_eq!(ids(&set), vec![3, 1, 2]);
    assert_eq!(set.len(), 3);
    assert!(!set.is_empty());
    assert_eq!(set.get(1), var(1));
    assert!(set.contains(&var(2)));
    assert!(!set.contains(&var(4)));
    assert_eq!(set.as_slice(), &[var(3), var(1), var(2)]);
    assert_eq!(ids(&set.clone()), vec![3, 1, 2]);
    assert!(contains_var(&[var(1), var(2)], &var(2)));
    assert!(!contains_var(&[], &var(2)));
}

#[test]
fn all_statements_at_once() {
    let statements = vec![
        invocation(&[0], vec![(GenBranchTarget::Fallthrough, vec![]), (to_label(7), vec![1])]),
        simple(&[2], &[1]),
        label(7),
        ret(&[1, 3]),
    ];
    let fetch = NextStatementIndexFetch::new(&statements);
    let table = calculate_required_vars(&fetch, &statements).unwrap();
    assert_eq!(
        table.iter().map(ids).collect::<Vec<_>>(),
        vec![vec![3, 2, 0], vec![3, 2], vec![1, 3], vec![1, 3]]
    );
    assert_eq!(calculate_required_vars(&NextStatementIndexFetch::new(&[]), &[]).unwrap().len(), 0);
}

#[test]
fn all_statements_at_once_needs_a_forward_flow() {
    let statements = vec![label(5), ret(&[1]), invocation(&[2], vec![(to_label(5), vec![1])])];
    let fetch = NextStatementIndexFetch::new(&statements);
    assert!(calculate_required_vars(&fetch, &statements).is_none());
    let statements = vec![simple(&[1], &[2])];
    let fetch = NextStatementIndexFetch::new(&statements);
    assert!(calculate_required_vars(&fetch, &statements).is_none());
}

fn table_ids(table: &[OrderedVarSet]) -> Vec<Vec<u64>> {
    table.iter().map(ids).collect()
}

#[test]
fn one_call_at_an_invocation_fills_the_slots_it_comes_to() {
    // c = 0, a = 1, b = 2, z = 3, w = 4
    let statements = vec![
        invocation(&[0], vec![(GenBranchTarget::Fallthrough, vec![1]), (to_label(9), vec![2])]),
        ret(&[1, 3]),
        label(9),
        ret(&[2, 4]),
    ];
    let fetch = NextStatementIndexFetch::new(&statements);
    let mut table = empty_table(&statements);
    calculate_required_vars_per_statement(&fetch, &mut table, 0, &statements);
    assert_eq!(table_ids(&table), vec![vec![3, 4, 0], vec![1, 3], vec![2, 4], vec![2, 4]]);
}

#[test]
fn one_call_leaves_the_slots_it_does_not_come_to() {
    let statements = vec![
        simple(&[7], &[1]),
        invocation(&[0], vec![(GenBranchTarget::Fallthrough, vec![1]), (to_label(9), vec![2])]),
        ret(&[1, 3]),
        label(9),
        ret(&[2, 4]),
    ];
    let fetch = NextStatementIndexFetch::new(&statements);
    // From the label on: the label and the return after it, nothing else.
    let mut table = empty_table(&statements);
    calculate_required_vars_per_statement(&fetch, &mut table, 3, &statements);
    assert_eq!(table_ids(&table), vec![vec![], vec![], vec![], vec![2, 4], vec![2, 4]]);
    // From the invocation on: all but the statement before it.
    let mut table = empty_table(&statements);
    calculate_required_vars_per_statement(&fetch, &mut table, 1, &statements);
    assert_eq!(
        table_ids(&table),
        vec![vec![], vec![3, 4, 0], vec![1, 3], vec![2, 4], vec![2, 4]]
    );
}

#[test]
fn one_call_at_a_label_fills_the_slot_after_it_with_the_same() {
    let statements = vec![ret(&[8]), label(1), label(2), simple(&[5], &[6]), ret(&[6, 7])];
    let fetch = NextStatementIndexFetch::new(&statements);
    let mut table = empty_table(&statements);
    calculate_required_vars_per_statement(&fetch, &mut table, 1, &statements);
    assert_eq!(ids(&table[1]), ids(&table[2]));
    assert_eq!(
        table_ids(&table),
        vec![vec![], vec![7, 5], vec![7, 5], vec![7, 5], vec![6, 7]]
    );
}

#[test]
fn one_call_at_a_return_changes_its_slot_only() {
    let statements = vec![simple(&[1], &[2]), ret(&[2, 3]), ret(&[4])];
    let fetch = NextStatementIndexFetch::new(&statements);
    let mut table = vec![OrderedVarSet::new(), OrderedVarSet::new(), set_of(&[9])];
    calculate_required_vars_per_statement(&fetch, &mut table, 1, &statements);
    assert_eq!(table_ids(&table), vec![vec![], vec![2, 3], vec![9]]);
}

#[test]
fn one_call_at_a_filled_slot_changes_nothing() {
    let statements = vec![simple(&[1], &[2]), label(3), ret(&[2, 3])];
    let fetch = NextStatementIndexFetch::new(&statements);
    let mut table = vec![set_of(&[5]), OrderedVarSet::new(), OrderedVarSet::new()];
    calculate_required_vars_per_statement(&fetch, &mut table, 0, &statements);
    assert_eq!(table_ids(&table), vec![vec![5], vec![], vec![]]);
}

#[test]
fn the_analysis_stops_at_a_filled_slot() {
    // The slot of the label is filled: the return after it is not come to.
    let statements = vec![simple(&[1], &[2]), label(3), ret(&[2, 3])];
    let fetch = NextStatementIndexFetch::new(&statements);
    let mut table = vec![OrderedVarSet::new(), set_of(&[2, 8]), OrderedVarSet::new()];
    calculate_required_vars_per_statement(&fetch, &mut table, 0, &statements);
    assert_eq!(table_ids(&table), vec![vec![8, 1], vec![2, 8], vec![]]);
}

#[test]
fn leads_forward_or_to_filled_looks_at_the_table() {
    let check = |statements: &[Statement], table: &Vec<OrderedVarSet>| {
        leads_forward_or_to_filled(&NextStatementIndexFetch::new(statements), table, statements)
    };
    let forward = vec![simple(&[1], &[2]), label(3), ret(&[2])];
    assert!(check(&forward, &empty_table(&forward)));
    assert!(check(&forward, &vec![]));
    // A slot without a statement must be filled.
    let mut longer = empty_table(&forward);
    longer.push(OrderedVarSet::new());
    assert!(!check(&forward, &longer));
    longer[3] = set_of(&[1]);
    assert!(check(&forward, &longer));
    // A statement whose successor has no slot must be filled itself.
    let short = vec![OrderedVarSet::new(), OrderedVarSet::new()];
    assert!(!check(&forward, &short));
    assert!(check(&forward, &vec![OrderedVarSet::new(), set_of(&[2])]));
    // A jump to itself is in order once the slot is filled.
    let turning = vec![label(1), invocation(&[1], vec![(to_label(1), vec![])])];
    assert!(!check(&turning, &empty_table(&turning)));
    assert!(check(&turning, &vec![set_of(&[1]), OrderedVarSet::new()]));
    assert!(check(&turning, &vec![OrderedVarSet::new(), set_of(&[1])]));
    // A label without a place is refused, unless the slot of the jump is filled.
    let lost = vec![invocation(&[1], vec![(to_label(4), vec![])]), ret(&[])];
    assert!(!check(&lost, &empty_table(&lost)));
    assert!(check(&lost, &vec![set_of(&[1]), OrderedVarSet::new()]));
}
