//! The interpreter: it runs a function of a program on given inputs.

use crate::edit_state::{
    put, put_results, state_view, take_args, taken, EditStateError, VarState,
};
use crate::extensions::registry::{libfunc_specialized, specialize_libfunc};
use crate::extensions::SpecializationError;
use crate::ids::{FunctionId, VarId};
use crate::program::{
    find_function, next_statement, GenStatement, Invocation, Param, Program, StatementId,
};
use crate::simulation::instructions::{
    lemma_specialized_is_simulated, simulate, simulated, simulation_view, Simulated,
};
use crate::simulation::mem_cell::{clone_value, MemCell};
use std::collections::HashMap;
use vstd::prelude::*;

pub mod instructions;
pub mod mem_cell;

verus! {

broadcast use vstd::std_specs::hash::group_hash_axioms;

/// Error occurring while simulating an extension.
#[derive(Clone, Copy, Debug, PartialEq, Eq, Structural)]
pub enum ExtensionSimulationError {
    /// Expected different number of arguments.
    WrongNumberOfArgs,
    /// Expected a different memory layout.
    MemoryLayoutMismatch,
}

/// Error from the catalog of instructions.
#[derive(Clone, Copy, Debug, PartialEq, Eq, Structural)]
pub enum ProgramRegistryError {
    /// The instruction that a statement names could not be specialized.
    LibFuncSpecialization(SpecializationError),
}

/// Error occurring while simulating a program function.
#[derive(Clone, Copy, Debug, PartialEq, Eq, Structural)]
pub enum SimulationError {
    /// Error from the program registry, at the given statement.
    ProgramRegistryError(ProgramRegistryError, StatementId),
    /// Error from editing a variable state.
    EditStateError(EditStateError, StatementId),
    /// Error from simulating an extension.
    ExtensionSimulationError(ExtensionSimulationError, StatementId),
    /// Could not find the function to call.
    MissingFunction,
    /// Jumped out of bounds during simulation: the statement does not exist,
    /// or it has no branch with the index that its instruction chose.
    StatementOutOfBounds(StatementId),
    /// Unexpected number of arguments to function.
    FunctionArgumentCountMismatch { function_id: FunctionId, expected: usize, actual: usize },
    /// Identifiers left at function return.
    FunctionDidNotConsumeAllArgs(FunctionId, StatementId),
    /// The allowed number of steps was taken, and the given statement would
    /// be next.
    StepLimitReached(StatementId),
}

/// What one step of the interpreter leads to.
pub enum StepOutcome {
    /// The function returned the given values.
    Done(Seq<Seq<int>>),
    /// The function goes on with the given variables at the given statement.
    Continue(Map<u64, Seq<int>>, StatementId),
    /// The function failed.
    Failed(SimulationError),
}

/// What a return of the function `function_id` at the statement `current`
/// leads to on the variables `state`: it takes the variables `ids`; if none is
/// left over, their values are the result, else the function fails with
/// `FunctionDidNotConsumeAllArgs`.
pub open spec fn return_outcome(
    function_id: FunctionId,
    state: Map<u64, Seq<int>>,
    current: StatementId,
    ids: Seq<VarId>,
) -> StepOutcome {
    match taken(state, ids) {
        Err(error) => StepOutcome::Failed(SimulationError::EditStateError(error, current)),
        Ok((remaining, outputs)) => if remaining.dom() =~= Set::<u64>::empty() {
            StepOutcome::Done(outputs)
        } else {
            StepOutcome::Failed(
                SimulationError::FunctionDidNotConsumeAllArgs(function_id, current),
            )
        },
    }
}

/// What an instruction that gave `simulation` leads to at the statement
/// `current`: what came out is put into the results of the chosen branch of
/// `invocation`, and the function goes on at the target of that branch.
pub open spec fn branch_outcome(
    invocation: Invocation,
    remaining: Map<u64, Seq<int>>,
    current: StatementId,
    simulation: Simulated,
) -> StepOutcome {
    match simulation {
        Err(error) => StepOutcome::Failed(
            SimulationError::ExtensionSimulationError(error, current),
        ),
        Ok((outputs, chosen_branch)) => if chosen_branch >= invocation.branches@.len() {
            StepOutcome::Failed(SimulationError::StatementOutOfBounds(current))
        } else {
            let branch_info = invocation.branches@[chosen_branch as int];
            match put(remaining, branch_info.results@, outputs) {
                Err(error) => StepOutcome::Failed(
                    SimulationError::EditStateError(error, current),
                ),
                Ok(next_state) => StepOutcome::Continue(
                    next_state,
                    next_statement(current, branch_info.target),
                ),
            }
        },
    }
}

/// What an invocation at the statement `current` leads to on the variables
/// `state`: it takes its arguments, specializes its instruction, runs it, and
/// goes on as the chosen branch says.
pub open spec fn invocation_outcome(
    invocation: Invocation,
    state: Map<u64, Seq<int>>,
    current: StatementId,
) -> StepOutcome {
    match taken(state, invocation.args@) {
        Err(error) => StepOutcome::Failed(SimulationError::EditStateError(error, current)),
        Ok((remaining, inputs)) => match libfunc_specialized(
            invocation.libfunc_id.generic_id@,
            invocation.libfunc_id.generic_args.deep_view(),
        ) {
            Err(error) => StepOutcome::Failed(
                SimulationError::ProgramRegistryError(
                    ProgramRegistryError::LibFuncSpecialization(error),
                    current,
                ),
            ),
            Ok(libfunc) => branch_outcome(
                invocation,
                remaining,
                current,
                simulated(libfunc.kind, inputs),
            ),
        },
    }
}

/// One step of the function `function_id` of `program`: the statement
/// `current` on the variables `state`. Each failure names the statement.
pub open spec fn step_outcome(
    program: Program,
    function_id: FunctionId,
    state: Map<u64, Seq<int>>,
    current: StatementId,
) -> StepOutcome {
    if current.0 >= program.statements@.len() {
        StepOutcome::Failed(SimulationError::StatementOutOfBounds(current))
    } else {
        match program.statements@[current.0 as int] {
            GenStatement::Return(ids) => return_outcome(function_id, state, current, ids@),
            GenStatement::Invocation(invocation) => invocation_outcome(
                invocation,
                state,
                current,
            ),
        }
    }
}

/// What running the function from the statement `current` on the variables
/// `state` gives within `steps` steps: the values it returns, the failure of
/// the first step that fails, or `StepLimitReached` where the steps run out.
pub open spec fn run_from(
    program: Program,
    function_id: FunctionId,
    state: Map<u64, Seq<int>>,
    current: StatementId,
    steps: nat,
) -> Result<Seq<Seq<int>>, SimulationError>
    decreases steps,
{
    if steps == 0 {
        Err(SimulationError::StepLimitReached(current))
    } else {
        match step_outcome(program, function_id, state, current) {
            StepOutcome::Done(outputs) => Ok(outputs),
            StepOutcome::Failed(error) => Err(error),
            StepOutcome::Continue(next_state, next) => run_from(
                program,
                function_id,
                next_state,
                next,
                (steps - 1) as nat,
            ),
        }
    }
}

/// The variables at the entry of a function: each parameter holds the input
/// at its place. Where two parameters have one identifier, the later one
/// counts.
pub open spec fn initial_state(params: Seq<Param>, inputs: Seq<Seq<int>>) -> Map<u64, Seq<int>>
    decreases params.len(),
{
    if params.len() == 0 || inputs.len() == 0 {
        Map::empty()
    } else {
        initial_state(params.drop_last(), inputs.drop_last()).insert(
            params.last().id.id,
            inputs.last(),
        )
    }
}

/// What running the function `entry_point` of `program` on `inputs` gives
/// within `max_steps` steps. The function is the first one of the program
/// with that identifier; without one the run fails with `MissingFunction`,
/// and with another number of inputs than the function has parameters, with
/// `FunctionArgumentCountMismatch`.
pub open spec fn run_result(
    program: Program,
    entry_point: FunctionId,
    inputs: Seq<Seq<int>>,
    max_steps: nat,
) -> Result<Seq<Seq<int>>, SimulationError> {
    match find_function(program.funcs@, entry_point) {
        None => Err(SimulationError::MissingFunction),
        Some(i) => {
            let func = program.funcs@[i];
            if func.params@.len() != inputs.len() {
                Err(
                    SimulationError::FunctionArgumentCountMismatch {
                        function_id: func.id,
                        expected: func.params@.len() as usize,
                        actual: inputs.len() as usize,
                    },
                )
            } else {
                run_from(
                    program,
                    func.id,
                    initial_state(func.params@, inputs),
                    func.entry,
                    max_steps,
                )
            }
        },
    }
}

/// Where one step of the interpreter led.
pub enum StepResult {
    /// The function returned the given values.
    Done(Vec<Vec<MemCell>>),
    /// The function goes on with the given variables at the given statement.
    Continue(VarState, StatementId),
    /// The function failed.
    Failed(SimulationError),
}

impl View for StepResult {
    type V = StepOutcome;

    open spec fn view(&self) -> StepOutcome {
        match *self {
            StepResult::Done(outputs) => StepOutcome::Done(outputs.deep_view()),
            StepResult::Continue(state, next) => StepOutcome::Continue(state_view(state@), next),
            StepResult::Failed(error) => StepOutcome::Failed(error),
        }
    }
}

/// Takes the step of a return of the function `function_id` at the statement
/// `current`.
fn step_return(
    function_id: &FunctionId,
    state: VarState,
    current: StatementId,
    ids: &Vec<VarId>,
) -> (r: StepResult)
    ensures
        r@ == return_outcome(*function_id, state_view(state@), current, ids@),
{
    let (remaining, outputs) = match take_args(state, ids.as_slice()) {
        Ok(taken) => taken,
        Err(error) => {
            return StepResult::Failed(SimulationError::EditStateError(error, current));
        },
    };
    assert(state_view(remaining@).dom() =~= remaining@.dom());
    if remaining.is_empty() {
        StepResult::Done(outputs)
    } else {
        StepResult::Failed(SimulationError::FunctionDidNotConsumeAllArgs(*function_id, current))
    }
}

/// Goes on from an instruction as its chosen branch says.
fn step_branch(
    invocation: &Invocation,
    remaining: VarState,
    current: StatementId,
    simulation: Result<(Vec<Vec<MemCell>>, usize), ExtensionSimulationError>,
) -> (r: StepResult)
    requires
        current.0 < usize::MAX,
    ensures
        r@ == branch_outcome(
            *invocation,
            state_view(remaining@),
            current,
            simulation_view(simulation),
        ),
{
    let (outputs, chosen_branch) = match simulation {
        Ok(simulated) => simulated,
        Err(error) => {
            return StepResult::Failed(SimulationError::ExtensionSimulationError(error, current));
        },
    };
    if chosen_branch >= invocation.branches.len() {
        return StepResult::Failed(SimulationError::StatementOutOfBounds(current));
    }
    let branch_info = &invocation.branches[chosen_branch];
    match put_results(remaining, branch_info.results.as_slice(), &outputs) {
        Ok(next_state) => StepResult::Continue(next_state, current.next(&branch_info.target)),
        Err(error) => StepResult::Failed(SimulationError::EditStateError(error, current)),
    }
}

/// Takes the step of an invocation at the statement `current`.
fn step_invocation(invocation: &Invocation, state: VarState, current: StatementId) -> (r:
    StepResult)
    requires
        current.0 < usize::MAX,
    ensures
        r@ == invocation_outcome(*invocation, state_view(state@), current),
{
    let (remaining, inputs) = match take_args(state, invocation.args.as_slice()) {
        Ok(taken) => taken,
        Err(error) => {
            return StepResult::Failed(SimulationError::EditStateError(error, current));
        },
    };
    let extension = match specialize_libfunc(
        &invocation.libfunc_id.generic_id,
        invocation.libfunc_id.generic_args.as_slice(),
    ) {
        Ok(extension) => extension,
        Err(error) => {
            return StepResult::Failed(
                SimulationError::ProgramRegistryError(
                    ProgramRegistryError::LibFuncSpecialization(error),
                    current,
                ),
            );
        },
    };
    proof {
        lemma_specialized_is_simulated(
            invocation.libfunc_id.generic_id@,
            invocation.libfunc_id.generic_args.deep_view(),
        );
    }
    let simulation = simulate(&extension, inputs);
    step_branch(invocation, remaining, current, simulation)
}

/// Takes one step of the function `function_id` of `program`: the statement
/// `current` on the variables `state`.
pub fn step(
    program: &Program,
    function_id: &FunctionId,
    state: VarState,
    current: StatementId,
) -> (r: StepResult)
    ensures
        r@ == step_outcome(*program, *function_id, state_view(state@), current),
{
    let count = program.statements.len();
    match program.get_statement(&current) {
        None => StepResult::Failed(SimulationError::StatementOutOfBounds(current)),
        Some(GenStatement::Return(ids)) => step_return(function_id, state, current, ids),
        Some(GenStatement::Invocation(invocation)) => {
            assert(current.0 < count);
            step_invocation(invocation, state, current)
        },
    }
}

/// What the result of a run stands for.
pub open spec fn run_view(r: Result<Vec<Vec<MemCell>>, SimulationError>) -> Result<
    Seq<Seq<int>>,
    SimulationError,
> {
    match r {
        Ok(outputs) => Ok(outputs.deep_view()),
        Err(error) => Err(error),
    }
}

/// Runs a function from the program with the given inputs, for at most
/// `max_steps` steps.
pub fn run(
    program: &Program,
    entry_point: &FunctionId,
    inputs: Vec<Vec<MemCell>>,
    max_steps: usize,
) -> (r: Result<Vec<Vec<MemCell>>, SimulationError>)
    ensures
        run_view(r) == run_result(*program, *entry_point, inputs.deep_view(), max_steps as nat),
{
    let func = match program.get_function(entry_point) {
        Some(func) => func,
        None => {
            return Err(SimulationError::MissingFunction);
        },
    };
    if func.params.len() != inputs.len() {
        return Err(
            SimulationError::FunctionArgumentCountMismatch {
                function_id: func.id,
                expected: func.params.len(),
                actual: inputs.len(),
            },
        );
    }
    let mut state: VarState = HashMap::new();
    let mut i: usize = 0;
    assert(state_view(state@) =~= initial_state(func.params@.take(0), inputs.deep_view().take(0)));
    while i < func.params.len()
        invariant
            i <= func.params@.len(),
            func.params@.len() == inputs@.len(),
            state_view(state@) == initial_state(
                func.params@.take(i as int),
                inputs.deep_view().take(i as int),
            ),
        decreases func.params@.len() - i,
    {
        let ghost before = state_view(state@);
        state.insert(func.params[i].id.id, clone_value(&inputs[i]));
        proof {
            let params = func.params@.take(i + 1);
            let values = inputs.deep_view().take(i + 1);
            assert(params.drop_last() =~= func.params@.take(i as int));
            assert(values.drop_last() =~= inputs.deep_view().take(i as int));
            assert(state_view(state@) =~= before.insert(params.last().id.id, values.last()));
        }
        i += 1;
    }
    assert(func.params@.take(i as int) =~= func.params@);
    assert(inputs.deep_view().take(i as int) =~= inputs.deep_view());
    let mut current_statement_id = func.entry;
    let mut steps_left = max_steps;
    while steps_left > 0
        invariant
            run_result(*program, *entry_point, inputs.deep_view(), max_steps as nat) == run_from(
                *program,
                func.id,
                state_view(state@),
                current_statement_id,
                steps_left as nat,
            ),
        decreases steps_left,
    {
        match step(program, &func.id, state, current_statement_id) {
            StepResult::Done(outputs) => {
                return Ok(outputs);
            },
            StepResult::Failed(error) => {
                return Err(error);
            },
            StepResult::Continue(next_state, next) => {
                state = next_state;
                current_statement_id = next;
            },
        }
        steps_left -= 1;
    }
    Err(SimulationError::StepLimitReached(current_statement_id))
}

/// A return succeeds only where no variable is left once those it names are
/// taken; where one is left, it fails with `FunctionDidNotConsumeAllArgs`.
pub proof fn lemma_return_leaves_nothing(
    program: Program,
    function_id: FunctionId,
    state: Map<u64, Seq<int>>,
    current: StatementId,
)
    requires
        current.0 < program.statements@.len(),
        program.statements@[current.0 as int] is Return,
    ensures
        step_outcome(program, function_id, state, current) is Done ==> (taken(
            state,
            program.statements@[current.0 as int]->Return_0@,
        ) matches Ok((remaining, _)) && remaining.dom() =~= Set::<u64>::empty()),
        taken(state, program.statements@[current.0 as int]->Return_0@) matches Ok(
            (remaining, _),
        ) ==> (!(remaining.dom() =~= Set::<u64>::empty()) ==> step_outcome(
            program,
            function_id,
            state,
            current,
        ) == StepOutcome::Failed(
            SimulationError::FunctionDidNotConsumeAllArgs(function_id, current),
        )),
{
}

} // verus!
