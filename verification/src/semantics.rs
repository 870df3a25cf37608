//! The meaning of evaluation, as one recursive definition over the
//! expression model.
//!
//! `eval_at(e, answers, pos)` evaluates `e` depth-first and left to right.
//! Floating-point operations are not computed here: each one consumes the
//! next unused entry of `answers` (the bits the caller computed for it), and
//! when the list runs out the result is `Need(req)`, naming the one
//! operation whose answer is missing. Every function also returns the new
//! position in the answer list, so that argument evaluation threads the
//! answers left to right.

use crate::ast::EvalError;
use crate::ast::ExprModel;
use crate::ast::FloatBinary;
use crate::ast::FloatReq;
use crate::ast::FloatUnary;
use crate::ast::Kind;
use crate::ast::Number;
use crate::ast::Operator;
use crate::ast::OutcomeModel;
use crate::ast::ValueModel;
use crate::ast::kind_of;
use crate::ast::num_of;
use crate::ast::text_of;
use crate::text::replace_all;
use vstd::prelude::*;

verus! {

/// Whether the operator accepts any arity at or above its base arity.
pub open spec fn is_variadic(op: Operator) -> bool {
    op == Operator::Sum
}

/// The exact arity of a fixed-arity operator; the least arity of a variadic
/// one.
pub open spec fn base_arity(op: Operator) -> usize {
    match op {
        Operator::Sin | Operator::Cos | Operator::Tan => 1,
        Operator::StrReplace => 3,
        _ => 2,
    }
}

/// Whether `n` arguments satisfy the operator's arity contract.
pub open spec fn arity_ok(op: Operator, n: nat) -> bool {
    if is_variadic(op) {
        n >= base_arity(op)
    } else {
        n == base_arity(op)
    }
}

/// The kind every operand of the operator must have.
pub open spec fn operand_kind(op: Operator) -> Kind {
    if op == Operator::StrReplace {
        Kind::Text
    } else {
        Kind::Number
    }
}

/// The position of the first operand of the wrong kind, if any.
pub open spec fn first_bad_operand(vals: Seq<ValueModel>, want: Kind) -> Option<int>
    decreases vals,
{
    if vals.len() == 0 {
        None
    } else if kind_of(vals[0]) != want {
        Some(0)
    } else {
        match first_bad_operand(vals.drop_first(), want) {
            Some(j) => Some(j + 1),
            None => None,
        }
    }
}

/// The position of the first operand of the wrong kind, found by a scan.
pub proof fn lemma_first_bad_some(vals: Seq<ValueModel>, want: Kind, i: int)
    requires
        0 <= i < vals.len(),
        forall|k: int| 0 <= k < i ==> kind_of(#[trigger] vals[k]) == want,
        kind_of(vals[i]) != want,
    ensures
        first_bad_operand(vals, want) == Some(i),
    decreases i,
{
    if i > 0 {
        assert forall|k: int| 0 <= k < i - 1 implies kind_of(
            #[trigger] vals.drop_first()[k],
        ) == want by {
            assert(vals.drop_first()[k] == vals[k + 1]);
        }
        assert(vals.drop_first()[i - 1] == vals[i]);
        lemma_first_bad_some(vals.drop_first(), want, i - 1);
    }
}

/// With every operand of the right kind, the scan finds nothing.
pub proof fn lemma_first_bad_none(vals: Seq<ValueModel>, want: Kind)
    requires
        forall|k: int| 0 <= k < vals.len() ==> kind_of(#[trigger] vals[k]) == want,
    ensures
        first_bad_operand(vals, want) == None::<int>,
    decreases vals,
{
    if vals.len() > 0 {
        assert forall|k: int| 0 <= k < vals.drop_first().len() implies kind_of(
            #[trigger] vals.drop_first()[k],
        ) == want by {
            assert(vals.drop_first()[k] == vals[k + 1]);
        }
        lemma_first_bad_none(vals.drop_first(), want);
    }
}

/// One step of binary numeric coercion: the exact integer result, a
/// floating-point request, or exact division by zero.
#[derive(Clone, Copy, PartialEq, Eq, Structural, Debug)]
pub enum BinStep {
    /// Both operands are exact integers, the operation is closed over them,
    /// and the result is representable.
    Exact(i64),
    /// The operation must be done in floating point.
    Ask(FloatReq),
    /// Exact-integer division by exact zero.
    DivZero,
}

/// The exact result if it is representable, else a floating-point request.
pub open spec fn int_exact_or_ask(op: FloatBinary, x: i64, y: i64, r: int) -> BinStep {
    if i64::MIN <= r <= i64::MAX {
        BinStep::Exact(r as i64)
    } else {
        BinStep::Ask(FloatReq::Binary(op, Number::Int(x), Number::Int(y)))
    }
}

/// A binary operation on two exact integers. Addition, subtraction and
/// multiplication stay exact when representable; division stays exact when
/// the divisor is nonzero, divides exactly, and the quotient is
/// representable; everything else is promoted to floating point.
pub open spec fn int_step(op: FloatBinary, x: i64, y: i64) -> BinStep {
    match op {
        FloatBinary::Add => int_exact_or_ask(op, x, y, x + y),
        FloatBinary::Subtract => int_exact_or_ask(op, x, y, x - y),
        FloatBinary::Multiply => int_exact_or_ask(op, x, y, x * y),
        FloatBinary::Divide => if y == 0 {
            BinStep::DivZero
        } else if x as int % y as int == 0 {
            int_exact_or_ask(op, x, y, x as int / y as int)
        } else {
            BinStep::Ask(FloatReq::Binary(op, Number::Int(x), Number::Int(y)))
        },
        FloatBinary::Exponentiate | FloatBinary::ATan2 => BinStep::Ask(
            FloatReq::Binary(op, Number::Int(x), Number::Int(y)),
        ),
    }
}

/// A binary operation on two numbers: integer arithmetic only when both
/// operands are exact integers and the operation is closed over them; any
/// floating operand promotes the whole operation.
pub open spec fn bin_step(op: FloatBinary, a: Number, b: Number) -> BinStep {
    match (a, b) {
        (Number::Int(x), Number::Int(y)) => int_step(op, x, y),
        _ => BinStep::Ask(FloatReq::Binary(op, a, b)),
    }
}

/// A floating-point request is answered by the next unused answer; with no
/// answer left, evaluation stops and hands the request out.
pub open spec fn resolve(req: FloatReq, answers: Seq<u64>, pos: int) -> (OutcomeModel, int) {
    if pos < answers.len() {
        (OutcomeModel::Done(ValueModel::Num(Number::Float(answers[pos]))), pos + 1)
    } else {
        (OutcomeModel::Need(req), pos)
    }
}

/// A binary numeric operator applied to its two operands.
pub open spec fn bin_apply(
    operator: Operator,
    op: FloatBinary,
    a: Number,
    b: Number,
    answers: Seq<u64>,
    pos: int,
) -> (OutcomeModel, int) {
    match bin_step(op, a, b) {
        BinStep::Exact(i) => (OutcomeModel::Done(ValueModel::Num(Number::Int(i))), pos),
        BinStep::Ask(req) => resolve(req, answers, pos),
        BinStep::DivZero => (
            OutcomeModel::Fail(EvalError::DivisionByZero { operator }),
            pos,
        ),
    }
}

/// The strict left fold of `Sum`: `acc` plus each remaining operand in
/// order, one addition at a time, with no regrouping.
pub open spec fn sum_fold(acc: Number, rest: Seq<Number>, answers: Seq<u64>, pos: int) -> (
    OutcomeModel,
    int,
)
    decreases rest,
{
    if rest.len() == 0 {
        (OutcomeModel::Done(ValueModel::Num(acc)), pos)
    } else {
        match bin_step(FloatBinary::Add, acc, rest[0]) {
            BinStep::Exact(i) => sum_fold(Number::Int(i), rest.drop_first(), answers, pos),
            BinStep::Ask(req) => if pos < answers.len() {
                sum_fold(Number::Float(answers[pos]), rest.drop_first(), answers, pos + 1)
            } else {
                (OutcomeModel::Need(req), pos)
            },
            // Addition never divides; this arm keeps the match total.
            BinStep::DivZero => (
                OutcomeModel::Fail(EvalError::DivisionByZero { operator: Operator::Sum }),
                pos,
            ),
        }
    }
}

/// An operator applied to argument values whose arity and kinds have been
/// checked.
pub open spec fn apply_checked(
    op: Operator,
    vals: Seq<ValueModel>,
    answers: Seq<u64>,
    pos: int,
) -> (OutcomeModel, int) {
    match op {
        Operator::Add => bin_apply(
            op,
            FloatBinary::Add,
            num_of(vals[0]),
            num_of(vals[1]),
            answers,
            pos,
        ),
        Operator::Subtract => bin_apply(
            op,
            FloatBinary::Subtract,
            num_of(vals[0]),
            num_of(vals[1]),
            answers,
            pos,
        ),
        Operator::Multiply => bin_apply(
            op,
            FloatBinary::Multiply,
            num_of(vals[0]),
            num_of(vals[1]),
            answers,
            pos,
        ),
        Operator::Divide => bin_apply(
            op,
            FloatBinary::Divide,
            num_of(vals[0]),
            num_of(vals[1]),
            answers,
            pos,
        ),
        Operator::Exponentiate => bin_apply(
            op,
            FloatBinary::Exponentiate,
            num_of(vals[0]),
            num_of(vals[1]),
            answers,
            pos,
        ),
        Operator::ATan2 => bin_apply(
            op,
            FloatBinary::ATan2,
            num_of(vals[0]),
            num_of(vals[1]),
            answers,
            pos,
        ),
        Operator::Sin => resolve(FloatReq::Unary(FloatUnary::Sin, num_of(vals[0])), answers, pos),
        Operator::Cos => resolve(FloatReq::Unary(FloatUnary::Cos, num_of(vals[0])), answers, pos),
        Operator::Tan => resolve(FloatReq::Unary(FloatUnary::Tan, num_of(vals[0])), answers, pos),
        Operator::Sum => sum_fold(
            num_of(vals[0]),
            vals.drop_first().map_values(|v: ValueModel| num_of(v)),
            answers,
            pos,
        ),
        Operator::StrReplace => (
            OutcomeModel::Done(
                ValueModel::Text(replace_all(text_of(vals[0]), text_of(vals[1]), text_of(vals[2]))),
            ),
            pos,
        ),
    }
}

/// An operator applied to its argument values: the arity check, then the
/// kind check (first offending position wins), then the semantics.
pub open spec fn apply_at(op: Operator, vals: Seq<ValueModel>, answers: Seq<u64>, pos: int) -> (
    OutcomeModel,
    int,
) {
    if !arity_ok(op, vals.len()) {
        (
            OutcomeModel::Fail(
                EvalError::ArityMismatch {
                    operator: op,
                    expected: base_arity(op),
                    actual: vals.len() as usize,
                },
            ),
            pos,
        )
    } else {
        match first_bad_operand(vals, operand_kind(op)) {
            Some(i) => (
                OutcomeModel::Fail(
                    EvalError::TypeMismatch {
                        operator: op,
                        position: i as usize,
                        expected_kind: operand_kind(op),
                        actual_kind: kind_of(vals[i]),
                    },
                ),
                pos,
            ),
            None => apply_checked(op, vals, answers, pos),
        }
    }
}

/// What evaluating a list of arguments produced: all their values, or the
/// failure or request that stopped it.
pub enum ArgsOut {
    Vals(Seq<ValueModel>),
    Stop(OutcomeModel),
}

/// The arguments evaluated left to right. The first failure or missing
/// answer stops evaluation at once; later siblings are not evaluated.
pub open spec fn eval_args_at(args: Seq<ExprModel>, answers: Seq<u64>, pos: int) -> (ArgsOut, int)
    decreases args,
{
    if args.len() == 0 {
        (ArgsOut::Vals(Seq::empty()), pos)
    } else {
        let (first, p1) = eval_at(args[0], answers, pos);
        match first {
            OutcomeModel::Done(v) => {
                let (rest, p2) = eval_args_at(args.drop_first(), answers, p1);
                match rest {
                    ArgsOut::Vals(vs) => (ArgsOut::Vals(seq![v] + vs), p2),
                    ArgsOut::Stop(o) => (ArgsOut::Stop(o), p2),
                }
            },
            stop => (ArgsOut::Stop(stop), p1),
        }
    }
}

/// Depth-first, post-order evaluation: a literal is returned unchanged; a
/// call evaluates its arguments left to right and then applies the operator.
pub open spec fn eval_at(e: ExprModel, answers: Seq<u64>, pos: int) -> (OutcomeModel, int)
    decreases e,
{
    match e {
        ExprModel::Literal(v) => (OutcomeModel::Done(v), pos),
        ExprModel::Call(op, args) => {
            let (r, p) = eval_args_at(args, answers, pos);
            match r {
                ArgsOut::Vals(vs) => apply_at(op, vs, answers, p),
                ArgsOut::Stop(o) => (o, p),
            }
        },
    }
}

/// The outcome of evaluating `e` against the answer list, from its start.
pub open spec fn eval(e: ExprModel, answers: Seq<u64>) -> OutcomeModel {
    eval_at(e, answers, 0).0
}

} // verus!
