use sierra::edit_state::{put_results, take_args, EditStateError, VarState};
use sierra::ids::VarId;
use sierra::simulation::mem_cell::MemCell;

fn var(id: u64) -> VarId {
    VarId { id }
}

fn cells(numbers: &[u128]) -> Vec<MemCell> {
    numbers.iter().map(|x| MemCell::from_u128(*x)).collect()
}

fn read(value: &Vec<MemCell>) -> Vec<u128> {
    value.iter().map(|cell| cell.to_u128().unwrap()).collect()
}

fn state(entries: &[(u64, &[u128])]) -> VarState {
    let mut state = VarState::new();
    for (id, numbers) in entries {
        state.insert(*id, cells(numbers));
    }
    state
}

#[test]
fn take_args_removes_what_it_reads() {
    let start = state(&[(1, &[10]), (2, &[20, 21]), (3, &[30])]);
    let (rest, values) = take_args(start, &[var(3), var(1)]).unwrap();
    assert_eq!(values.iter().map(read).collect::<Vec<_>>(), vec![vec![30], vec![10]]);
    assert_eq!(rest.len(), 1);
    assert_eq!(read(&rest[&2]), vec![20, 21]);
}

#[test]
fn take_args_of_nothing_changes_nothing() {
    let (rest, values) = take_args(state(&[(1, &[10])]), &[]).unwrap();
    assert!(values.is_empty());
    assert_eq!(rest.len(), 1);
}

#[test]
fn take_args_names_the_first_missing_variable() {
    let result = take_args(state(&[(1, &[10])]), &[var(1), var(7), var(8)]);
    assert!(matches!(result, Err(EditStateError::MissingReference(VarId { id: 7 }))));
}

#[test]
fn take_args_reads_a_variable_once() {
    let result = take_args(state(&[(1, &[10])]), &[var(1), var(1)]);
    assert!(matches!(result, Err(EditStateError::MissingReference(VarId { id: 1 }))));
}

#[test]
fn put_results_binds_in_order() {
    let start = state(&[(1, &[10])]);
    let after = put_results(start, &[var(2), var(3)], &vec![cells(&[20]), cells(&[30, 31])]);
    let after = after.unwrap();
    assert_eq!(after.len(), 3);
    assert_eq!(read(&after[&1]), vec![10]);
    assert_eq!(read(&after[&2]), vec![20]);
    assert_eq!(read(&after[&3]), vec![30, 31]);
}

#[test]
fn put_results_refuses_to_overwrite() {
    let result = put_results(state(&[(1, &[10])]), &[var(2), var(1)], &vec![cells(&[1]), cells(&[2])]);
    assert!(matches!(result, Err(EditStateError::VariableOverride(VarId { id: 1 }))));
    let result = put_results(state(&[]), &[var(4), var(4)], &vec![cells(&[1]), cells(&[2])]);
    assert!(matches!(result, Err(EditStateError::VariableOverride(VarId { id: 4 }))));
}

#[test]
fn put_results_pairs_as_far_as_both_reach() {
    let after = put_results(state(&[]), &[var(1), var(2)], &vec![cells(&[5])]).unwrap();
    assert_eq!(after.len(), 1);
    assert_eq!(read(&after[&1]), vec![5]);
    let after = put_results(state(&[]), &[var(1)], &vec![cells(&[5]), cells(&[6])]).unwrap();
    assert_eq!(after.len(), 1);
}
