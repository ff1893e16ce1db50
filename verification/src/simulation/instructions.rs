//! What each instruction computes: from the values that come in to the
//! values that come out and the branch that is taken.

use crate::big_value::{bigint_div_floor, bigint_mod_floor, bigint_modinv, is_inverse, BigValue};
use crate::extensions::felt::{
    FeltBinaryOperationConcreteLibFunc, FeltConcrete, FeltKind, FeltOperator, FeltUnaryOperator,
};
use crate::extensions::integer::{
    IntOperator, Uint128Concrete, Uint128Kind, Uint128OperationConcreteLibFunc,
};
use crate::extensions::registry::{libfunc_specialized, CoreConcreteLibFunc, CoreLibFuncKind};
use crate::extensions::types::{type_info, type_info_of};
use crate::ids::ConcreteTypeId;
use crate::program::GenericArgView;
use crate::simulation::mem_cell::{clone_value, MemCell};
use crate::simulation::ExtensionSimulationError;
use vstd::arithmetic::div_mod::{lemma_mod_bound, lemma_mul_mod_noop_general, lemma_small_mod};
use vstd::arithmetic::mul::{lemma_mul_is_associative, lemma_mul_is_commutative};
use vstd::pervasive::unreached;
use vstd::prelude::*;

verus! {

/// The number of elements of the field of felts: 2^251 + 17 * 2^192 + 1.
pub open spec fn felt_prime() -> int {
    0x800000000000011000000000000000000000000000000000000000000000001int
}

/// 2^128, the first number that is no uint128.
pub open spec fn two_pow_128() -> int {
    0x1_0000_0000_0000_0000_0000_0000_0000_0000int
}

/// The number in a value of exactly one cell.
pub open spec fn single_cell(value: Seq<int>) -> Option<int> {
    if value.len() == 1 {
        Some(value[0])
    } else {
        None
    }
}

/// The number in a value of exactly one cell that holds a uint128.
pub open spec fn uint128_cell(value: Seq<int>) -> Option<int> {
    if value.len() == 1 && 0 <= value[0] < two_pow_128() {
        Some(value[0])
    } else {
        None
    }
}

/// The inverse of `b` in the field of felts, where it has one.
pub open spec fn felt_inverse(b: int) -> Option<int> {
    if exists|x: int| is_inverse(b, x, felt_prime()) {
        Some(choose|x: int| is_inverse(b, x, felt_prime()))
    } else {
        None
    }
}

/// The result of a felt operation, as an element of the field. There is none
/// where the second operand divides and is zero in the field. The remainder
/// of a division of felts is always zero, as that division is exact.
pub open spec fn felt_operation(operator: FeltOperator, a: int, b: int) -> Option<int> {
    let p = felt_prime();
    match operator {
        FeltOperator::Add => Some((a + b) % p),
        FeltOperator::Sub => Some((a - b) % p),
        FeltOperator::Mul => Some((a * b) % p),
        FeltOperator::Div => match felt_inverse(b) {
            Some(inverse) => Some((a * inverse) % p),
            None => None,
        },
        FeltOperator::Mod => if b % p == 0 {
            None
        } else {
            Some(0)
        },
    }
}

/// What an instruction gives: the values that come out and the index of the
/// branch that is taken, or why it could not run.
pub type Simulated = Result<(Seq<Seq<int>>, usize), ExtensionSimulationError>;

/// The outcome of an instruction that gives one value of one cell on its
/// only branch, where there is such a value.
pub open spec fn one_cell_outcome(result: Option<int>) -> Simulated {
    match result {
        Some(r) => Ok((seq![seq![r]], 0usize)),
        None => Err(ExtensionSimulationError::MemoryLayoutMismatch),
    }
}

/// What an instruction on felts gives. A felt is one cell, and is read as
/// the element of the field that its number stands for.
pub open spec fn simulated_felt(kind: FeltKind, inputs: Seq<Seq<int>>) -> Simulated {
    let p = felt_prime();
    match kind {
        FeltKind::Operation(operator) => if inputs.len() != 2 {
            Err(ExtensionSimulationError::WrongNumberOfArgs)
        } else {
            match (single_cell(inputs[0]), single_cell(inputs[1])) {
                (Some(a), Some(b)) => one_cell_outcome(felt_operation(operator, a, b)),
                _ => Err(ExtensionSimulationError::MemoryLayoutMismatch),
            }
        },
        FeltKind::OperationWithConst(operator, c) => if inputs.len() != 1 {
            Err(ExtensionSimulationError::WrongNumberOfArgs)
        } else {
            match single_cell(inputs[0]) {
                Some(a) => one_cell_outcome(felt_operation(operator, a, c)),
                None => Err(ExtensionSimulationError::MemoryLayoutMismatch),
            }
        },
        FeltKind::Const(c) => if inputs.len() != 0 {
            Err(ExtensionSimulationError::WrongNumberOfArgs)
        } else {
            Ok((seq![seq![c % p]], 0usize))
        },
        FeltKind::UnaryOperation(FeltUnaryOperator::Neg) => if inputs.len() != 1 {
            Err(ExtensionSimulationError::WrongNumberOfArgs)
        } else {
            match single_cell(inputs[0]) {
                Some(a) => Ok((seq![seq![(-a) % p]], 0usize)),
                None => Err(ExtensionSimulationError::MemoryLayoutMismatch),
            }
        },
        FeltKind::JumpNotZero => if inputs.len() != 1 {
            Err(ExtensionSimulationError::WrongNumberOfArgs)
        } else {
            match single_cell(inputs[0]) {
                Some(a) => if a % p == 0 {
                    Ok((seq![], 0usize))
                } else {
                    Ok((seq![inputs[0]], 1usize))
                },
                None => Err(ExtensionSimulationError::MemoryLayoutMismatch),
            }
        },
    }
}

/// What a uint128 operation gives on the operands `a` and `b`, both uint128.
/// The range check builtin is handed on as it came. Where the result of an
/// addition, subtraction or multiplication is a uint128, the first branch is
/// taken with it; where it is not, the second, with the result modulo 2^128.
/// A division gives the quotient and the remainder, and has no outcome for
/// the divisor zero.
pub open spec fn uint128_operation(
    operator: IntOperator,
    range_check: Seq<int>,
    a: int,
    b: int,
) -> Simulated {
    let exact = match operator {
        IntOperator::OverflowingAdd => a + b,
        IntOperator::OverflowingSub => a - b,
        IntOperator::OverflowingMul => a * b,
        IntOperator::DivMod => 0,
    };
    if operator is DivMod {
        if b == 0 {
            Err(ExtensionSimulationError::MemoryLayoutMismatch)
        } else {
            Ok((seq![range_check, seq![a / b], seq![a % b]], 0usize))
        }
    } else if 0 <= exact < two_pow_128() {
        Ok((seq![range_check, seq![exact]], 0usize))
    } else {
        Ok((seq![range_check, seq![exact % two_pow_128()]], 1usize))
    }
}

/// What an instruction on uint128 gives. A uint128 is one cell with a number
/// from 0 up to 2^128; the range check builtin is one cell.
pub open spec fn simulated_uint128(kind: Uint128Kind, inputs: Seq<Seq<int>>) -> Simulated {
    match kind {
        Uint128Kind::Operation(operator) => if inputs.len() != 3 {
            Err(ExtensionSimulationError::WrongNumberOfArgs)
        } else {
            match (single_cell(inputs[0]), uint128_cell(inputs[1]), uint128_cell(inputs[2])) {
                (Some(_), Some(a), Some(b)) => uint128_operation(operator, inputs[0], a, b),
                _ => Err(ExtensionSimulationError::MemoryLayoutMismatch),
            }
        },
        Uint128Kind::OperationWithConst(operator, c) => if inputs.len() != 2 {
            Err(ExtensionSimulationError::WrongNumberOfArgs)
        } else {
            match (single_cell(inputs[0]), uint128_cell(inputs[1])) {
                (Some(_), Some(a)) => uint128_operation(operator, inputs[0], a, c as int),
                _ => Err(ExtensionSimulationError::MemoryLayoutMismatch),
            }
        },
        Uint128Kind::LessThan => if inputs.len() != 3 {
            Err(ExtensionSimulationError::WrongNumberOfArgs)
        } else {
            match (single_cell(inputs[0]), uint128_cell(inputs[1]), uint128_cell(inputs[2])) {
                (Some(_), Some(a), Some(b)) => Ok(
                    (
                        seq![inputs[0]],
                        if a < b {
                            1usize
                        } else {
                            0usize
                        },
                    ),
                ),
                _ => Err(ExtensionSimulationError::MemoryLayoutMismatch),
            }
        },
        Uint128Kind::LessThanOrEqual => if inputs.len() != 3 {
            Err(ExtensionSimulationError::WrongNumberOfArgs)
        } else {
            match (single_cell(inputs[0]), uint128_cell(inputs[1]), uint128_cell(inputs[2])) {
                (Some(_), Some(a), Some(b)) => Ok(
                    (
                        seq![inputs[0]],
                        if a <= b {
                            1usize
                        } else {
                            0usize
                        },
                    ),
                ),
                _ => Err(ExtensionSimulationError::MemoryLayoutMismatch),
            }
        },
        Uint128Kind::Const(c) => if inputs.len() != 0 {
            Err(ExtensionSimulationError::WrongNumberOfArgs)
        } else {
            Ok((seq![seq![c as int]], 0usize))
        },
        Uint128Kind::FromFelt => if inputs.len() != 2 {
            Err(ExtensionSimulationError::WrongNumberOfArgs)
        } else {
            match (single_cell(inputs[0]), single_cell(inputs[1])) {
                (Some(_), Some(felt)) => {
                    let value = felt % felt_prime();
                    if value < two_pow_128() {
                        Ok((seq![inputs[0], seq![value]], 0usize))
                    } else {
                        Ok(
                            (
                                seq![
                                    inputs[0],
                                    seq![value / two_pow_128()],
                                    seq![value % two_pow_128()],
                                ],
                                1usize,
                            ),
                        )
                    }
                },
                _ => Err(ExtensionSimulationError::MemoryLayoutMismatch),
            }
        },
        Uint128Kind::ToFelt => if inputs.len() != 1 {
            Err(ExtensionSimulationError::WrongNumberOfArgs)
        } else {
            match uint128_cell(inputs[0]) {
                Some(a) => Ok((seq![seq![a]], 0usize)),
                None => Err(ExtensionSimulationError::MemoryLayoutMismatch),
            }
        },
        Uint128Kind::JumpNotZero => if inputs.len() != 1 {
            Err(ExtensionSimulationError::WrongNumberOfArgs)
        } else {
            match uint128_cell(inputs[0]) {
                Some(a) => if a == 0 {
                    Ok((seq![], 0usize))
                } else {
                    Ok((seq![inputs[0]], 1usize))
                },
                None => Err(ExtensionSimulationError::MemoryLayoutMismatch),
            }
        },
    }
}

/// Whether the interpreter runs instructions of the given kind: those that
/// the catalog gives.
pub open spec fn is_simulated(kind: CoreLibFuncKind) -> bool {
    kind is Drop || kind is Dup || kind is Felt || kind is Uint128
}

/// What an instruction gives on the values `inputs`. With the wrong number
/// of values it gives `WrongNumberOfArgs`; with a value that has not the
/// cells of its type, or holds a number that its type does not have,
/// `MemoryLayoutMismatch`. Of the kinds that the interpreter does not run
/// it says nothing.
pub open spec fn simulated(kind: CoreLibFuncKind, inputs: Seq<Seq<int>>) -> Simulated {
    match kind {
        CoreLibFuncKind::Drop(ty) => if inputs.len() != 1 {
            Err(ExtensionSimulationError::WrongNumberOfArgs)
        } else if inputs[0].len() != type_info_of(ty).size {
            Err(ExtensionSimulationError::MemoryLayoutMismatch)
        } else {
            Ok((seq![], 0usize))
        },
        CoreLibFuncKind::Dup(ty) => if inputs.len() != 1 {
            Err(ExtensionSimulationError::WrongNumberOfArgs)
        } else if inputs[0].len() != type_info_of(ty).size {
            Err(ExtensionSimulationError::MemoryLayoutMismatch)
        } else {
            Ok((seq![inputs[0], inputs[0]], 0usize))
        },
        CoreLibFuncKind::Felt(kind) => simulated_felt(kind, inputs),
        CoreLibFuncKind::Uint128(kind) => simulated_uint128(kind, inputs),
        _ => arbitrary(),
    }
}

/// What the result of running an instruction stands for.
pub open spec fn simulation_view(
    r: Result<(Vec<Vec<MemCell>>, usize), ExtensionSimulationError>,
) -> Simulated {
    match r {
        Ok((outputs, branch)) => Ok((outputs.deep_view(), branch)),
        Err(error) => Err(error),
    }
}

/// Every instruction that the catalog gives is one that the interpreter
/// runs.
pub proof fn lemma_specialized_is_simulated(name: Seq<char>, args: Seq<GenericArgView>)
    ensures
        libfunc_specialized(name, args) matches Ok(libfunc) ==> is_simulated(libfunc.kind),
{
}

/// A number has at most one inverse from 0 up to the modulus.
pub proof fn lemma_inverse_unique(a: int, x: int, y: int, m: int)
    requires
        is_inverse(a, x, m),
        is_inverse(a, y, m),
    ensures
        x == y,
{
    lemma_mul_mod_noop_general(x, a * y, m);
    lemma_mul_mod_noop_general(x, 1, m);
    lemma_mul_mod_noop_general(x * a, y, m);
    lemma_mul_mod_noop_general(1, y, m);
    lemma_mul_is_associative(x, a, y);
    lemma_mul_is_commutative(x, a);
    lemma_small_mod(x as nat, m as nat);
    lemma_small_mod(y as nat, m as nat);
    assert((x * (a * y)) % m == (x * ((a * y) % m)) % m);
    assert((x * (a * y)) % m == (x * 1) % m);
    assert(((x * a) * y) % m == (((x * a) % m) * y) % m);
    assert(((x * a) * y) % m == (1 * y) % m);
}

/// The number of elements of the field of felts.
fn felt_prime_value() -> (p: BigValue)
    ensures
        p@ == felt_prime(),
{
    let high = BigValue::from_u128(0x2000_0000_0000_0000_0000_0000_0000_0000).mul(
        &BigValue::from_u128(0x4000_0000_0000_0000_0000_0000_0000_0000),
    );
    let middle = BigValue::from_u128(0x11_0000_0000_0000_0000_0000_0000).mul(
        &BigValue::from_u128(0x1_0000_0000_0000_0000_0000_0000),
    );
    let p = high.add(&middle).add(&BigValue::from_u128(1));
    assert(0x2000_0000_0000_0000_0000_0000_0000_0000int
        * 0x4000_0000_0000_0000_0000_0000_0000_0000int
        == 0x800000000000000000000000000000000000000000000000000000000000000int);
    assert(0x11_0000_0000_0000_0000_0000_0000int * 0x1_0000_0000_0000_0000_0000_0000int
        == 0x11000000000000000000000000000000000000000000000000int);
    p
}

/// 2^128.
fn two_pow_128_value() -> (r: BigValue)
    ensures
        r@ == two_pow_128(),
{
    BigValue::from_u128(u128::MAX).add(&BigValue::from_u128(1))
}

/// The element of the field of felts that a number stands for.
fn reduce(value: &BigValue) -> (r: BigValue)
    ensures
        r@ == value@ % felt_prime(),
        0 <= r@ < felt_prime(),
{
    proof {
        lemma_mod_bound(value@, felt_prime());
    }
    bigint_mod_floor(value, &felt_prime_value())
}

/// The number in a value of exactly one cell.
fn single(value: &Vec<MemCell>) -> (r: Option<&BigValue>)
    ensures
        match r {
            Some(v) => single_cell(value.deep_view()) == Some(v@),
            None => single_cell(value.deep_view()) is None,
        },
{
    if value.len() == 1 {
        Some(&value[0].value)
    } else {
        None
    }
}

/// The number in a value of exactly one cell that holds a uint128.
fn single_uint128(value: &Vec<MemCell>) -> (r: Option<u128>)
    ensures
        match r {
            Some(v) => uint128_cell(value.deep_view()) == Some(v as int),
            None => uint128_cell(value.deep_view()) is None,
        },
{
    if value.len() == 1 {
        value[0].to_u128()
    } else {
        None
    }
}

/// The value of one cell that holds the given number.
fn one_cell(value: BigValue) -> (r: Vec<MemCell>)
    ensures
        r.deep_view() == seq![value@],
{
    let r = vec![MemCell { value }];
    assert(r.deep_view() =~= seq![value@]);
    r
}

/// The result of a felt operation.
fn felt_operation_value(operator: FeltOperator, a: &BigValue, b: &BigValue) -> (r: Option<
    BigValue,
>)
    ensures
        match r {
            Some(v) => felt_operation(operator, a@, b@) == Some(v@),
            None => felt_operation(operator, a@, b@) is None,
        },
{
    match operator {
        FeltOperator::Add => Some(reduce(&a.add(b))),
        FeltOperator::Sub => Some(reduce(&a.sub(b))),
        FeltOperator::Mul => Some(reduce(&a.mul(b))),
        FeltOperator::Div => match bigint_modinv(b, &felt_prime_value()) {
            Some(inverse) => {
                proof {
                    let chosen = choose|x: int| is_inverse(b@, x, felt_prime());
                    lemma_inverse_unique(b@, inverse@, chosen, felt_prime());
                }
                Some(reduce(&a.mul(&inverse)))
            },
            None => None,
        },
        FeltOperator::Mod => if reduce(b).is_zero() {
            None
        } else {
            Some(BigValue::from_u128(0))
        },
    }
}

/// The outcome of an instruction that gives one value of one cell on its
/// only branch, where there is such a value.
fn one_cell_result(result: Option<BigValue>) -> (r: Result<
    (Vec<Vec<MemCell>>, usize),
    ExtensionSimulationError,
>)
    ensures
        simulation_view(r) == one_cell_outcome(
            match result {
                Some(v) => Some(v@),
                None => None,
            },
        ),
{
    match result {
        Some(value) => {
            let outputs = vec![one_cell(value)];
            assert(outputs.deep_view() =~= seq![seq![value@]]);
            Ok((outputs, 0))
        },
        None => Err(ExtensionSimulationError::MemoryLayoutMismatch),
    }
}

/// Runs an instruction on felts.
fn simulate_felt_libfunc(libfunc: &FeltConcrete, inputs: &Vec<Vec<MemCell>>) -> (r: Result<
    (Vec<Vec<MemCell>>, usize),
    ExtensionSimulationError,
>)
    ensures
        simulation_view(r) == simulated_felt(libfunc@.kind, inputs.deep_view()),
{
    match libfunc {
        FeltConcrete::BinaryOperation(FeltBinaryOperationConcreteLibFunc::Binary(libfunc)) => {
            if inputs.len() != 2 {
                return Err(ExtensionSimulationError::WrongNumberOfArgs);
            }
            match (single(&inputs[0]), single(&inputs[1])) {
                (Some(a), Some(b)) => one_cell_result(
                    felt_operation_value(libfunc.operator, a, b),
                ),
                _ => Err(ExtensionSimulationError::MemoryLayoutMismatch),
            }
        },
        FeltConcrete::BinaryOperation(FeltBinaryOperationConcreteLibFunc::Const(libfunc)) => {
            if inputs.len() != 1 {
                return Err(ExtensionSimulationError::WrongNumberOfArgs);
            }
            match single(&inputs[0]) {
                Some(a) => one_cell_result(
                    felt_operation_value(libfunc.operator, a, &libfunc.c),
                ),
                None => Err(ExtensionSimulationError::MemoryLayoutMismatch),
            }
        },
        FeltConcrete::Const(libfunc) => {
            if inputs.len() != 0 {
                return Err(ExtensionSimulationError::WrongNumberOfArgs);
            }
            one_cell_result(Some(reduce(&libfunc.c)))
        },
        FeltConcrete::UnaryOperation(libfunc) => {
            if inputs.len() != 1 {
                return Err(ExtensionSimulationError::WrongNumberOfArgs);
            }
            match single(&inputs[0]) {
                Some(a) => match libfunc.operator {
                    FeltUnaryOperator::Neg => one_cell_result(
                        Some(reduce(&BigValue::from_u128(0).sub(a))),
                    ),
                },
                None => Err(ExtensionSimulationError::MemoryLayoutMismatch),
            }
        },
        FeltConcrete::JumpNotZero(_) => {
            if inputs.len() != 1 {
                return Err(ExtensionSimulationError::WrongNumberOfArgs);
            }
            match single(&inputs[0]) {
                Some(a) => {
                    if reduce(a).is_zero() {
                        let outputs: Vec<Vec<MemCell>> = vec![];
                        assert(outputs.deep_view() =~= Seq::<Seq<int>>::empty());
                        Ok((outputs, 0))
                    } else {
                        let outputs = vec![clone_value(&inputs[0])];
                        assert(outputs.deep_view() =~= seq![inputs.deep_view()[0]]);
                        Ok((outputs, 1))
                    }
                },
                None => Err(ExtensionSimulationError::MemoryLayoutMismatch),
            }
        },
    }
}

/// The value of one cell that holds the given uint128.
fn uint128_value(x: u128) -> (r: Vec<MemCell>)
    ensures
        r.deep_view() == seq![x as int],
{
    one_cell(BigValue::from_u128(x))
}

/// The outcome of an operation that may overflow: the range check builtin
/// and the result, on the given branch.
fn overflow_result(range_check: &Vec<MemCell>, result: Vec<MemCell>, branch: usize) -> (r: Result<
    (Vec<Vec<MemCell>>, usize),
    ExtensionSimulationError,
>)
    ensures
        simulation_view(r) == Ok::<_, ExtensionSimulationError>(
            (seq![range_check.deep_view(), result.deep_view()], branch),
        ),
{
    let outputs = vec![clone_value(range_check), result];
    assert(outputs.deep_view() =~= seq![range_check.deep_view(), result.deep_view()]);
    Ok((outputs, branch))
}

/// Runs a uint128 operation on the operands `a` and `b`.
fn simulate_uint128_operation(
    operator: IntOperator,
    range_check: &Vec<MemCell>,
    a: u128,
    b: u128,
) -> (r: Result<(Vec<Vec<MemCell>>, usize), ExtensionSimulationError>)
    ensures
        simulation_view(r) == uint128_operation(
            operator,
            range_check.deep_view(),
            a as int,
            b as int,
        ),
{
    match operator {
        IntOperator::OverflowingAdd => {
            if a <= u128::MAX - b {
                overflow_result(range_check, uint128_value(a + b), 0)
            } else {
                overflow_result(range_check, uint128_value(a - (u128::MAX - b) - 1), 1)
            }
        },
        IntOperator::OverflowingSub => {
            if a >= b {
                overflow_result(range_check, uint128_value(a - b), 0)
            } else {
                overflow_result(range_check, uint128_value(u128::MAX - (b - a) + 1), 1)
            }
        },
        IntOperator::OverflowingMul => {
            let product = BigValue::from_u128(a).mul(&BigValue::from_u128(b));
            assert(0 <= a * b) by (nonlinear_arith)
                requires
                    0 <= a,
                    0 <= b,
            ;
            match product.to_u128() {
                Some(exact) => overflow_result(range_check, uint128_value(exact), 0),
                None => {
                    proof {
                        lemma_mod_bound(product@, two_pow_128());
                    }
                    let wrapped = bigint_mod_floor(&product, &two_pow_128_value());
                    overflow_result(range_check, one_cell(wrapped), 1)
                },
            }
        },
        IntOperator::DivMod => {
            if b == 0 {
                Err(ExtensionSimulationError::MemoryLayoutMismatch)
            } else {
                let outputs = vec![
                    clone_value(range_check),
                    uint128_value(a / b),
                    uint128_value(a % b),
                ];
                assert(outputs.deep_view() =~= seq![
                    range_check.deep_view(),
                    seq![a as int / b as int],
                    seq![a as int % b as int],
                ]);
                Ok((outputs, 0))
            }
        },
    }
}

/// The outcome of a comparison: the range check builtin, on the second
/// branch where the comparison holds and on the first where it does not.
fn comparison_result(range_check: &Vec<MemCell>, holds: bool) -> (r: Result<
    (Vec<Vec<MemCell>>, usize),
    ExtensionSimulationError,
>)
    ensures
        simulation_view(r) == Ok::<_, ExtensionSimulationError>(
            (
                seq![range_check.deep_view()],
                if holds {
                    1usize
                } else {
                    0usize
                },
            ),
        ),
{
    let outputs = vec![clone_value(range_check)];
    assert(outputs.deep_view() =~= seq![range_check.deep_view()]);
    Ok(
        (
            outputs,
            if holds {
                1
            } else {
                0
            },
        ),
    )
}

/// Runs an instruction on uint128.
fn simulate_uint128_libfunc(libfunc: &Uint128Concrete, inputs: &Vec<Vec<MemCell>>) -> (r: Result<
    (Vec<Vec<MemCell>>, usize),
    ExtensionSimulationError,
>)
    ensures
        simulation_view(r) == simulated_uint128(libfunc@.kind, inputs.deep_view()),
{
    match libfunc {
        Uint128Concrete::Operation(Uint128OperationConcreteLibFunc::Binary(libfunc)) => {
            if inputs.len() != 3 {
                return Err(ExtensionSimulationError::WrongNumberOfArgs);
            }
            match (single(&inputs[0]), single_uint128(&inputs[1]), single_uint128(&inputs[2])) {
                (Some(_), Some(a), Some(b)) => simulate_uint128_operation(
                    libfunc.operator,
                    &inputs[0],
                    a,
                    b,
                ),
                _ => Err(ExtensionSimulationError::MemoryLayoutMismatch),
            }
        },
        Uint128Concrete::Operation(Uint128OperationConcreteLibFunc::Const(libfunc)) => {
            if inputs.len() != 2 {
                return Err(ExtensionSimulationError::WrongNumberOfArgs);
            }
            match (single(&inputs[0]), single_uint128(&inputs[1])) {
                (Some(_), Some(a)) => simulate_uint128_operation(
                    libfunc.operator,
                    &inputs[0],
                    a,
                    libfunc.c,
                ),
                _ => Err(ExtensionSimulationError::MemoryLayoutMismatch),
            }
        },
        Uint128Concrete::LessThan(_) => {
            if inputs.len() != 3 {
                return Err(ExtensionSimulationError::WrongNumberOfArgs);
            }
            match (single(&inputs[0]), single_uint128(&inputs[1]), single_uint128(&inputs[2])) {
                (Some(_), Some(a), Some(b)) => comparison_result(&inputs[0], a < b),
                _ => Err(ExtensionSimulationError::MemoryLayoutMismatch),
            }
        },
        Uint128Concrete::LessThanOrEqual(_) => {
            if inputs.len() != 3 {
                return Err(ExtensionSimulationError::WrongNumberOfArgs);
            }
            match (single(&inputs[0]), single_uint128(&inputs[1]), single_uint128(&inputs[2])) {
                (Some(_), Some(a), Some(b)) => comparison_result(&inputs[0], a <= b),
                _ => Err(ExtensionSimulationError::MemoryLayoutMismatch),
            }
        },
        Uint128Concrete::Const(libfunc) => {
            if inputs.len() != 0 {
                return Err(ExtensionSimulationError::WrongNumberOfArgs);
            }
            let outputs = vec![uint128_value(libfunc.c)];
            assert(outputs.deep_view() =~= seq![seq![libfunc.c as int]]);
            Ok((outputs, 0))
        },
        Uint128Concrete::FromFelt(_) => {
            if inputs.len() != 2 {
                return Err(ExtensionSimulationError::WrongNumberOfArgs);
            }
            match (single(&inputs[0]), single(&inputs[1])) {
                (Some(_), Some(felt)) => {
                    let value = reduce(felt);
                    match value.to_u128() {
                        Some(small) => overflow_result(&inputs[0], uint128_value(small), 0),
                        None => {
                            let modulus = two_pow_128_value();
                            let outputs = vec![
                                clone_value(&inputs[0]),
                                one_cell(bigint_div_floor(&value, &modulus)),
                                one_cell(bigint_mod_floor(&value, &modulus)),
                            ];
                            assert(outputs.deep_view() =~= seq![
                                inputs.deep_view()[0],
                                seq![value@ / two_pow_128()],
                                seq![value@ % two_pow_128()],
                            ]);
                            Ok((outputs, 1))
                        },
                    }
                },
                _ => Err(ExtensionSimulationError::MemoryLayoutMismatch),
            }
        },
        Uint128Concrete::ToFelt(_) => {
            if inputs.len() != 1 {
                return Err(ExtensionSimulationError::WrongNumberOfArgs);
            }
            match single_uint128(&inputs[0]) {
                Some(a) => {
                    let outputs = vec![uint128_value(a)];
                    assert(outputs.deep_view() =~= seq![seq![a as int]]);
                    Ok((outputs, 0))
                },
                None => Err(ExtensionSimulationError::MemoryLayoutMismatch),
            }
        },
        Uint128Concrete::JumpNotZero(_) => {
            if inputs.len() != 1 {
                return Err(ExtensionSimulationError::WrongNumberOfArgs);
            }
            match single_uint128(&inputs[0]) {
                Some(a) => {
                    if a == 0 {
                        let outputs: Vec<Vec<MemCell>> = vec![];
                        assert(outputs.deep_view() =~= Seq::<Seq<int>>::empty());
                        Ok((outputs, 0))
                    } else {
                        let outputs = vec![clone_value(&inputs[0])];
                        assert(outputs.deep_view() =~= seq![inputs.deep_view()[0]]);
                        Ok((outputs, 1))
                    }
                },
                None => Err(ExtensionSimulationError::MemoryLayoutMismatch),
            }
        },
    }
}

/// Runs the instruction that drops a value of type `ty`.
fn simulate_drop(ty: &ConcreteTypeId, inputs: &Vec<Vec<MemCell>>) -> (r: Result<
    (Vec<Vec<MemCell>>, usize),
    ExtensionSimulationError,
>)
    ensures
        simulation_view(r) == simulated(CoreLibFuncKind::Drop(*ty), inputs.deep_view()),
{
    if inputs.len() != 1 {
        return Err(ExtensionSimulationError::WrongNumberOfArgs);
    }
    if inputs[0].len() != type_info(ty).size {
        return Err(ExtensionSimulationError::MemoryLayoutMismatch);
    }
    let outputs: Vec<Vec<MemCell>> = vec![];
    assert(outputs.deep_view() =~= Seq::<Seq<int>>::empty());
    Ok((outputs, 0))
}

/// Runs the instruction that duplicates a value of type `ty`.
fn simulate_dup(ty: &ConcreteTypeId, inputs: &Vec<Vec<MemCell>>) -> (r: Result<
    (Vec<Vec<MemCell>>, usize),
    ExtensionSimulationError,
>)
    ensures
        simulation_view(r) == simulated(CoreLibFuncKind::Dup(*ty), inputs.deep_view()),
{
    if inputs.len() != 1 {
        return Err(ExtensionSimulationError::WrongNumberOfArgs);
    }
    if inputs[0].len() != type_info(ty).size {
        return Err(ExtensionSimulationError::MemoryLayoutMismatch);
    }
    let outputs = vec![clone_value(&inputs[0]), clone_value(&inputs[0])];
    assert(outputs.deep_view() =~= seq![inputs.deep_view()[0], inputs.deep_view()[0]]);
    Ok((outputs, 0))
}

/// Runs an instruction on the values `inputs`: it gives the values that come
/// out and the index of the branch that is taken.
pub fn simulate(libfunc: &CoreConcreteLibFunc, inputs: Vec<Vec<MemCell>>) -> (r: Result<
    (Vec<Vec<MemCell>>, usize),
    ExtensionSimulationError,
>)
    requires
        is_simulated(libfunc@.kind),
    ensures
        simulation_view(r) == simulated(libfunc@.kind, inputs.deep_view()),
{
    match libfunc {
        CoreConcreteLibFunc::Drop(libfunc) => simulate_drop(&libfunc.ty, &inputs),
        CoreConcreteLibFunc::Dup(libfunc) => simulate_dup(&libfunc.ty, &inputs),
        CoreConcreteLibFunc::Felt(libfunc) => simulate_felt_libfunc(libfunc, &inputs),
        CoreConcreteLibFunc::Uint128(libfunc) => simulate_uint128_libfunc(libfunc, &inputs),
        _ => unreached(),
    }
}

} // verus!
