//! The arithmetic unit.
//!
//! Every operation that rounds is carried out by a unit that the caller
//! supplies: a function from an [`Operation`] and two operands to a result,
//! all of them bit patterns. The library decides which operations are
//! performed, on what and in which order; what the unit answers is taken as
//! it comes. Nothing is assumed of a unit beyond [`unit_ready`]: it accepts
//! every request and answers the same request the same way.

use vstd::prelude::*;
use crate::ieee::{Double, Single};

verus! {

/// What a unit can be asked for. Operands and results are bit patterns, a
/// binary32 pattern in the low 32 bits; an operation of one operand ignores
/// the second.
#[derive(Clone, Copy, Debug, PartialEq, Eq, Structural)]
pub enum Operation {
    /// binary32 sum of the two operands.
    Add,
    /// binary32 difference, first operand minus second.
    Subtract,
    /// binary32 product.
    Multiply,
    /// binary32 quotient, first operand over second.
    Divide,
    /// binary32 square root of the first operand.
    SquareRoot,
    /// binary32 sine of the first operand, an angle in radians.
    Sine,
    /// binary32 cosine of the first operand, an angle in radians.
    Cosine,
    /// The binary64 value equal to the binary32 first operand.
    Widen,
    /// The binary32 value nearest to the binary64 first operand.
    Narrow,
    /// binary64 difference, first operand minus second.
    DoubleSubtract,
    /// The binary32 value nearest to the first operand read as an unsigned integer.
    CountToSingle,
    /// The binary64 value nearest to the first operand read as an unsigned integer.
    CountToDouble,
    /// The binary32 first operand cut to an unsigned integer: its whole part,
    /// 0 for a negative value or a NaN, the largest integer for a value beyond it.
    SingleToCount,
}

/// A unit is ready when it accepts every request and is a function of it.
pub open spec fn unit_ready<U: Fn(Operation, u64, u64) -> u64>(unit: &U) -> bool {
    &&& forall|op: Operation, a: u64, b: u64| #[trigger] unit.requires((op, a, b))
    &&& forall|op: Operation, a: u64, b: u64, r: u64, s: u64|
        #[trigger] unit.ensures((op, a, b), r) && #[trigger] unit.ensures((op, a, b), s) ==> r
            == s
}

/// What `unit` answers to the request `(op, a, b)`.
pub open spec fn answer<U: Fn(Operation, u64, u64) -> u64>(
    unit: &U,
    op: Operation,
    a: u64,
    b: u64,
) -> u64 {
    choose|r: u64| unit.ensures((op, a, b), r)
}

/// The low 32 bits of `raw` as a binary32 value.
pub open spec fn low_single(raw: u64) -> Single {
    Single { bits: (raw % 0x1_0000_0000) as u32 }
}

/// What `unit` answers to a binary32 operation on `a` and `b`.
pub open spec fn single_answer<U: Fn(Operation, u64, u64) -> u64>(
    unit: &U,
    op: Operation,
    a: Single,
    b: Single,
) -> Single {
    low_single(answer(unit, op, a.bits as u64, b.bits as u64))
}

/// `a + b` in binary32, as `unit` computes it.
pub open spec fn sum<U: Fn(Operation, u64, u64) -> u64>(unit: &U, a: Single, b: Single) -> Single {
    single_answer(unit, Operation::Add, a, b)
}

/// `a - b` in binary32, as `unit` computes it.
pub open spec fn difference<U: Fn(Operation, u64, u64) -> u64>(
    unit: &U,
    a: Single,
    b: Single,
) -> Single {
    single_answer(unit, Operation::Subtract, a, b)
}

/// `a * b` in binary32, as `unit` computes it.
pub open spec fn product<U: Fn(Operation, u64, u64) -> u64>(
    unit: &U,
    a: Single,
    b: Single,
) -> Single {
    single_answer(unit, Operation::Multiply, a, b)
}

/// `a / b` in binary32, as `unit` computes it.
pub open spec fn quotient<U: Fn(Operation, u64, u64) -> u64>(
    unit: &U,
    a: Single,
    b: Single,
) -> Single {
    single_answer(unit, Operation::Divide, a, b)
}

/// The binary32 square root of `a`, as `unit` computes it.
pub open spec fn root<U: Fn(Operation, u64, u64) -> u64>(unit: &U, a: Single) -> Single {
    low_single(answer(unit, Operation::SquareRoot, a.bits as u64, 0))
}

/// The binary32 sine of `a`, as `unit` computes it.
pub open spec fn sine<U: Fn(Operation, u64, u64) -> u64>(unit: &U, a: Single) -> Single {
    low_single(answer(unit, Operation::Sine, a.bits as u64, 0))
}

/// The binary32 cosine of `a`, as `unit` computes it.
pub open spec fn cosine<U: Fn(Operation, u64, u64) -> u64>(unit: &U, a: Single) -> Single {
    low_single(answer(unit, Operation::Cosine, a.bits as u64, 0))
}

/// `a` as a binary64 value, as `unit` converts it.
pub open spec fn widened<U: Fn(Operation, u64, u64) -> u64>(unit: &U, a: Single) -> Double {
    Double { bits: answer(unit, Operation::Widen, a.bits as u64, 0) }
}

/// `a` as a binary32 value, as `unit` converts it.
pub open spec fn narrowed<U: Fn(Operation, u64, u64) -> u64>(unit: &U, a: Double) -> Single {
    low_single(answer(unit, Operation::Narrow, a.bits, 0))
}

/// `a - b` in binary64, as `unit` computes it.
pub open spec fn double_difference<U: Fn(Operation, u64, u64) -> u64>(
    unit: &U,
    a: Double,
    b: Double,
) -> Double {
    Double { bits: answer(unit, Operation::DoubleSubtract, a.bits, b.bits) }
}

/// The count `n` as a binary32 value, as `unit` converts it.
pub open spec fn single_of_count<U: Fn(Operation, u64, u64) -> u64>(unit: &U, n: u64) -> Single {
    low_single(answer(unit, Operation::CountToSingle, n, 0))
}

/// The count `n` as a binary64 value, as `unit` converts it.
pub open spec fn double_of_count<U: Fn(Operation, u64, u64) -> u64>(unit: &U, n: u64) -> Double {
    Double { bits: answer(unit, Operation::CountToDouble, n, 0) }
}

/// `a` cut to a count, as `unit` converts it.
pub open spec fn count_of_single<U: Fn(Operation, u64, u64) -> u64>(unit: &U, a: Single) -> u64 {
    answer(unit, Operation::SingleToCount, a.bits as u64, 0)
}

/// Puts one request to the unit.
pub fn ask<U: Fn(Operation, u64, u64) -> u64>(unit: &U, op: Operation, a: u64, b: u64) -> (r: u64)
    requires
        unit_ready(unit),
    ensures
        r == answer(unit, op, a, b),
{
    unit(op, a, b)
}

fn single_from_raw(raw: u64) -> (r: Single)
    ensures
        r == low_single(raw),
{
    Single { bits: (raw % 0x1_0000_0000) as u32 }
}

/// `a + b` in binary32.
pub fn plus<U: Fn(Operation, u64, u64) -> u64>(unit: &U, a: Single, b: Single) -> (r: Single)
    requires
        unit_ready(unit),
    ensures
        r == sum(unit, a, b),
{
    single_from_raw(ask(unit, Operation::Add, a.bits as u64, b.bits as u64))
}

/// `a - b` in binary32.
pub fn minus<U: Fn(Operation, u64, u64) -> u64>(unit: &U, a: Single, b: Single) -> (r: Single)
    requires
        unit_ready(unit),
    ensures
        r == difference(unit, a, b),
{
    single_from_raw(ask(unit, Operation::Subtract, a.bits as u64, b.bits as u64))
}

/// `a * b` in binary32.
pub fn times<U: Fn(Operation, u64, u64) -> u64>(unit: &U, a: Single, b: Single) -> (r: Single)
    requires
        unit_ready(unit),
    ensures
        r == product(unit, a, b),
{
    single_from_raw(ask(unit, Operation::Multiply, a.bits as u64, b.bits as u64))
}

/// `a / b` in binary32.
pub fn over<U: Fn(Operation, u64, u64) -> u64>(unit: &U, a: Single, b: Single) -> (r: Single)
    requires
        unit_ready(unit),
    ensures
        r == quotient(unit, a, b),
{
    single_from_raw(ask(unit, Operation::Divide, a.bits as u64, b.bits as u64))
}

/// The binary32 square root of `a`.
pub fn sqrt<U: Fn(Operation, u64, u64) -> u64>(unit: &U, a: Single) -> (r: Single)
    requires
        unit_ready(unit),
    ensures
        r == root(unit, a),
{
    single_from_raw(ask(unit, Operation::SquareRoot, a.bits as u64, 0))
}

/// The binary32 sine of `a`.
pub fn sin<U: Fn(Operation, u64, u64) -> u64>(unit: &U, a: Single) -> (r: Single)
    requires
        unit_ready(unit),
    ensures
        r == sine(unit, a),
{
    single_from_raw(ask(unit, Operation::Sine, a.bits as u64, 0))
}

/// The binary32 cosine of `a`.
pub fn cos<U: Fn(Operation, u64, u64) -> u64>(unit: &U, a: Single) -> (r: Single)
    requires
        unit_ready(unit),
    ensures
        r == cosine(unit, a),
{
    single_from_raw(ask(unit, Operation::Cosine, a.bits as u64, 0))
}

/// `a` as a binary64 value.
pub fn widen<U: Fn(Operation, u64, u64) -> u64>(unit: &U, a: Single) -> (r: Double)
    requires
        unit_ready(unit),
    ensures
        r == widened(unit, a),
{
    Double { bits: ask(unit, Operation::Widen, a.bits as u64, 0) }
}

/// `a` as a binary32 value.
pub fn narrow<U: Fn(Operation, u64, u64) -> u64>(unit: &U, a: Double) -> (r: Single)
    requires
        unit_ready(unit),
    ensures
        r == narrowed(unit, a),
{
    single_from_raw(ask(unit, Operation::Narrow, a.bits, 0))
}

/// `a - b` in binary64.
pub fn double_minus<U: Fn(Operation, u64, u64) -> u64>(unit: &U, a: Double, b: Double) -> (r:
    Double)
    requires
        unit_ready(unit),
    ensures
        r == double_difference(unit, a, b),
{
    Double { bits: ask(unit, Operation::DoubleSubtract, a.bits, b.bits) }
}

/// The count `n` as a binary32 value.
pub fn count_to_single<U: Fn(Operation, u64, u64) -> u64>(unit: &U, n: u64) -> (r: Single)
    requires
        unit_ready(unit),
    ensures
        r == single_of_count(unit, n),
{
    single_from_raw(ask(unit, Operation::CountToSingle, n, 0))
}

/// The count `n` as a binary64 value.
pub fn count_to_double<U: Fn(Operation, u64, u64) -> u64>(unit: &U, n: u64) -> (r: Double)
    requires
        unit_ready(unit),
    ensures
        r == double_of_count(unit, n),
{
    Double { bits: ask(unit, Operation::CountToDouble, n, 0) }
}

/// `a` cut to a count.
pub fn single_to_count<U: Fn(Operation, u64, u64) -> u64>(unit: &U, a: Single) -> (r: u64)
    requires
        unit_ready(unit),
    ensures
        r == count_of_single(unit, a),
{
    ask(unit, Operation::SingleToCount, a.bits as u64, 0)
}

} // verus!
