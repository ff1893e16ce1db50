//! The variables of a running function: reading a variable takes it out,
//! producing one puts it in.

use crate::ids::VarId;
use crate::simulation::mem_cell::{clone_value, MemCell};
use std::collections::HashMap;
use vstd::prelude::*;

verus! {

broadcast use vstd::std_specs::hash::group_hash_axioms;

/// Why the variables could not be edited.
#[derive(Clone, Copy, Debug, PartialEq, Eq, Structural)]
pub enum EditStateError {
    /// The variable is read but holds nothing.
    MissingReference(VarId),
    /// The variable is produced but holds something already.
    VariableOverride(VarId),
}

/// The variables that hold a value, each by the number of its identifier.
pub type VarState = HashMap<u64, Vec<MemCell>>;

/// What the variables stand for: the numbers that each one holds.
pub open spec fn state_view(state: Map<u64, Vec<MemCell>>) -> Map<u64, Seq<int>> {
    Map::new(|id: u64| state.contains_key(id), |id: u64| state[id].deep_view())
}

/// What taking the variables `ids`, in their order, out of `state` gives: the
/// variables that are left and the values taken, or the first variable that
/// held nothing when its turn came.
pub open spec fn taken(state: Map<u64, Seq<int>>, ids: Seq<VarId>) -> Result<
    (Map<u64, Seq<int>>, Seq<Seq<int>>),
    EditStateError,
>
    decreases ids.len(),
{
    if ids.len() == 0 {
        Ok((state, seq![]))
    } else if !state.contains_key(ids[0].id) {
        Err(EditStateError::MissingReference(ids[0]))
    } else {
        match taken(state.remove(ids[0].id), ids.drop_first()) {
            Ok((rest, values)) => Ok((rest, seq![state[ids[0].id]] + values)),
            Err(error) => Err(error),
        }
    }
}

/// What putting the values into the variables `ids`, pair by pair as far as
/// both reach, gives: the variables afterwards, or the first variable that
/// held something already when its turn came.
pub open spec fn put(
    state: Map<u64, Seq<int>>,
    ids: Seq<VarId>,
    values: Seq<Seq<int>>,
) -> Result<Map<u64, Seq<int>>, EditStateError>
    decreases ids.len(),
{
    if ids.len() == 0 || values.len() == 0 {
        Ok(state)
    } else if state.contains_key(ids[0].id) {
        Err(EditStateError::VariableOverride(ids[0]))
    } else {
        put(state.insert(ids[0].id, values[0]), ids.drop_first(), values.drop_first())
    }
}

/// What the result of taking variables stands for.
pub open spec fn taken_view(r: Result<(VarState, Vec<Vec<MemCell>>), EditStateError>) -> Result<
    (Map<u64, Seq<int>>, Seq<Seq<int>>),
    EditStateError,
> {
    match r {
        Ok((state, values)) => Ok((state_view(state@), values.deep_view())),
        Err(error) => Err(error),
    }
}

/// What the result of putting variables stands for.
pub open spec fn put_view(r: Result<VarState, EditStateError>) -> Result<
    Map<u64, Seq<int>>,
    EditStateError,
> {
    match r {
        Ok(state) => Ok(state_view(state@)),
        Err(error) => Err(error),
    }
}

/// Takes the variables `ids` out of `state`, in their order.
pub fn take_args(state: VarState, ids: &[VarId]) -> (r: Result<
    (VarState, Vec<Vec<MemCell>>),
    EditStateError,
>)
    ensures
        taken_view(r) == taken(state_view(state@), ids@),
{
    let ghost start = state_view(state@);
    let mut current = state;
    let mut vals: Vec<Vec<MemCell>> = Vec::new();
    let mut i: usize = 0;
    assert(ids@.skip(0) =~= ids@);
    assert(Seq::<Seq<int>>::empty() + taken(start, ids@)->Ok_0.1 =~= taken(start, ids@)->Ok_0.1);
    while i < ids.len()
        invariant
            i <= ids@.len(),
            start == state_view(state@),
            taken(start, ids@) == (match taken(state_view(current@), ids@.skip(i as int)) {
                Ok((rest, values)) => Ok((rest, vals.deep_view() + values)),
                Err(error) => Err(error),
            }),
        decreases ids@.len() - i,
    {
        let ghost before = state_view(current@);
        let ghost taken_so_far = vals.deep_view();
        let ghost rest_ids = ids@.skip(i as int);
        assert(rest_ids.len() > 0 && rest_ids[0] == ids@[i as int]);
        assert(rest_ids.drop_first() =~= ids@.skip(i + 1));
        let id = &ids[i];
        match current.remove(&id.id) {
            None => {
                assert(!before.contains_key(id.id));
                assert(taken(before, rest_ids) == Err::<
                    (Map<u64, Seq<int>>, Seq<Seq<int>>),
                    _,
                >(EditStateError::MissingReference(*id)));
                return Err(EditStateError::MissingReference(*id));
            },
            Some(v) => {
                assert(state_view(current@) =~= before.remove(id.id));
                let ghost value = v.deep_view();
                vals.push(v);
                assert(vals.deep_view() =~= taken_so_far + seq![value]);
                assert(value == before[id.id]);
                proof {
                    match taken(state_view(current@), ids@.skip(i + 1)) {
                        Ok((rest, values)) => {
                            assert(taken_so_far + (seq![value] + values) =~= (taken_so_far
                                + seq![value]) + values);
                        },
                        Err(_) => {},
                    }
                }
            },
        }
        i += 1;
    }
    assert(ids@.skip(i as int).len() == 0);
    assert(vals.deep_view() + Seq::<Seq<int>>::empty() =~= vals.deep_view());
    Ok((current, vals))
}

/// Puts the values into the variables `ids`, pair by pair as far as both
/// reach.
pub fn put_results(state: VarState, ids: &[VarId], values: &Vec<Vec<MemCell>>) -> (r: Result<
    VarState,
    EditStateError,
>)
    ensures
        put_view(r) == put(state_view(state@), ids@, values.deep_view()),
{
    let ghost start = state_view(state@);
    let mut current = state;
    let mut i: usize = 0;
    assert(ids@.skip(0) =~= ids@);
    assert(values.deep_view().skip(0) =~= values.deep_view());
    while i < ids.len() && i < values.len()
        invariant
            i <= ids@.len(),
            i <= values@.len(),
            start == state_view(state@),
            put(start, ids@, values.deep_view()) == put(
                state_view(current@),
                ids@.skip(i as int),
                values.deep_view().skip(i as int),
            ),
        decreases ids@.len() - i,
    {
        let ghost before = state_view(current@);
        let ghost rest_ids = ids@.skip(i as int);
        let ghost rest_values = values.deep_view().skip(i as int);
        assert(rest_ids.len() > 0 && rest_ids[0] == ids@[i as int]);
        assert(rest_ids.drop_first() =~= ids@.skip(i + 1));
        assert(rest_values.len() > 0 && rest_values[0] == values@[i as int].deep_view());
        assert(rest_values.drop_first() =~= values.deep_view().skip(i + 1));
        let id = &ids[i];
        let value = clone_value(&values[i]);
        if current.insert(id.id, value).is_some() {
            assert(before.contains_key(id.id));
            assert(put(before, rest_ids, rest_values) == Err::<Map<u64, Seq<int>>, _>(
                EditStateError::VariableOverride(*id),
            ));
            return Err(EditStateError::VariableOverride(*id));
        }
        assert(state_view(current@) =~= before.insert(id.id, rest_values[0]));
        i += 1;
    }
    assert(ids@.skip(i as int).len() == 0 || values.deep_view().skip(i as int).len() == 0);
    Ok(current)
}

} // verus!
