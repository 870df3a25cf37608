//! The executable evaluator, proved equal to the model in [`crate::semantics`].

use crate::ast::EvalError;
use crate::ast::ExprModel;
use crate::ast::Expr;
use crate::ast::FloatBinary;
use crate::ast::FloatReq;
use crate::ast::FloatUnary;
use crate::ast::Kind;
use crate::ast::Number;
use crate::ast::Operator;
use crate::ast::Outcome;
use crate::ast::Value;
use crate::ast::ValueModel;
use crate::ast::clone_value;
use crate::ast::exprs_model;
use crate::ast::kind_of;
use crate::ast::lemma_exprs_model;
use crate::ast::num_of;
use crate::ast::text_of;
use crate::ast::vals_model;
use crate::semantics::ArgsOut;
use crate::semantics::BinStep;
use crate::semantics::apply_at;
use crate::semantics::apply_checked;
use crate::semantics::arity_ok;
use crate::semantics::base_arity;
use crate::semantics::bin_apply;
use crate::semantics::bin_step;
use crate::semantics::eval;
use crate::semantics::eval_args_at;
use crate::semantics::eval_at;
use crate::semantics::first_bad_operand;
use crate::semantics::int_step;
use crate::semantics::is_variadic;
use crate::semantics::lemma_first_bad_none;
use crate::semantics::lemma_first_bad_some;
use crate::semantics::operand_kind;
use crate::semantics::resolve;
use crate::semantics::sum_fold;
use crate::text::chars_vec;
use crate::text::replace_chars;
use crate::text::string_from_chars;
use vstd::prelude::*;

verus! {

/// Whether the operator is variadic.
fn op_is_variadic(op: Operator) -> (b: bool)
    ensures
        b == is_variadic(op),
{
    op == Operator::Sum
}

/// The operator's exact (or least, when variadic) arity.
fn op_base_arity(op: Operator) -> (n: usize)
    ensures
        n == base_arity(op),
{
    match op {
        Operator::Sin | Operator::Cos | Operator::Tan => 1,
        Operator::StrReplace => 3,
        _ => 2,
    }
}

/// The kind every operand of the operator must have.
fn op_operand_kind(op: Operator) -> (k: Kind)
    ensures
        k == operand_kind(op),
{
    if op == Operator::StrReplace {
        Kind::Text
    } else {
        Kind::Number
    }
}

/// The number held by a numeric value.
fn num_of_value(v: &Value) -> (n: Number)
    ensures
        n == num_of(v@),
{
    match v {
        Value::Num(n) => *n,
        Value::Text(_) => Number::Int(0),
    }
}

/// The characters of a textual value.
fn text_chars(v: &Value) -> (r: Vec<char>)
    requires
        kind_of(v@) == Kind::Text,
    ensures
        r@ == text_of(v@),
{
    match v {
        Value::Text(s) => chars_vec(s.as_str()),
        Value::Num(_) => {
            proof {
                assert(false);
            }
            Vec::new()
        },
    }
}

/// A binary operation on two exact integers, by checked arithmetic.
fn int_bin_step(op: FloatBinary, x: i64, y: i64) -> (r: BinStep)
    ensures
        r == int_step(op, x, y),
{
    match op {
        FloatBinary::Add => match x.checked_add(y) {
            Some(s) => BinStep::Exact(s),
            None => BinStep::Ask(FloatReq::Binary(op, Number::Int(x), Number::Int(y))),
        },
        FloatBinary::Subtract => match x.checked_sub(y) {
            Some(s) => BinStep::Exact(s),
            None => BinStep::Ask(FloatReq::Binary(op, Number::Int(x), Number::Int(y))),
        },
        FloatBinary::Multiply => match x.checked_mul(y) {
            Some(s) => BinStep::Exact(s),
            None => BinStep::Ask(FloatReq::Binary(op, Number::Int(x), Number::Int(y))),
        },
        FloatBinary::Divide => {
            if y == 0 {
                BinStep::DivZero
            } else {
                match x.checked_rem_euclid(y) {
                    Some(r) => {
                        if r == 0 {
                            match x.checked_div_euclid(y) {
                                Some(q) => BinStep::Exact(q),
                                None => BinStep::Ask(
                                    FloatReq::Binary(op, Number::Int(x), Number::Int(y)),
                                ),
                            }
                        } else {
                            BinStep::Ask(FloatReq::Binary(op, Number::Int(x), Number::Int(y)))
                        }
                    },
                    // Only `i64::MIN % -1` is unrepresentable: the division is
                    // exact but the quotient overflows, so it is promoted.
                    None => BinStep::Ask(FloatReq::Binary(op, Number::Int(x), Number::Int(y))),
                }
            }
        },
        FloatBinary::Exponentiate | FloatBinary::ATan2 => BinStep::Ask(
            FloatReq::Binary(op, Number::Int(x), Number::Int(y)),
        ),
    }
}

/// A binary operation on two numbers.
fn bin_step_exec(op: FloatBinary, a: Number, b: Number) -> (r: BinStep)
    ensures
        r == bin_step(op, a, b),
{
    match (a, b) {
        (Number::Int(x), Number::Int(y)) => int_bin_step(op, x, y),
        _ => BinStep::Ask(FloatReq::Binary(op, a, b)),
    }
}

/// Answers a floating-point request from the answer list, or hands it out.
fn resolve_req(req: FloatReq, answers: &Vec<u64>, pos: usize) -> (r: (Outcome, usize))
    requires
        pos <= answers@.len(),
    ensures
        r.0@ == resolve(req, answers@, pos as int).0,
        r.1 as int == resolve(req, answers@, pos as int).1,
        pos <= r.1 <= answers@.len(),
{
    if pos < answers.len() {
        (Outcome::Done(Value::Num(Number::Float(answers[pos]))), pos + 1)
    } else {
        (Outcome::Need(req), pos)
    }
}

/// A fixed binary numeric operator applied to the first two values.
fn bin_dispatch(
    operator: Operator,
    op: FloatBinary,
    vals: &Vec<Value>,
    answers: &Vec<u64>,
    pos: usize,
) -> (r: (Outcome, usize))
    requires
        vals@.len() >= 2,
        pos <= answers@.len(),
    ensures
        r.0@ == bin_apply(
            operator,
            op,
            num_of(vals@[0]@),
            num_of(vals@[1]@),
            answers@,
            pos as int,
        ).0,
        r.1 as int == bin_apply(
            operator,
            op,
            num_of(vals@[0]@),
            num_of(vals@[1]@),
            answers@,
            pos as int,
        ).1,
        pos <= r.1 <= answers@.len(),
{
    let a = num_of_value(&vals[0]);
    let b = num_of_value(&vals[1]);
    match bin_step_exec(op, a, b) {
        BinStep::Exact(i) => (Outcome::Done(Value::Num(Number::Int(i))), pos),
        BinStep::Ask(req) => resolve_req(req, answers, pos),
        BinStep::DivZero => (Outcome::Fail(EvalError::DivisionByZero { operator }), pos),
    }
}

/// The strict left fold of `Sum` over the values, all of them numeric.
fn sum_values(vals: &Vec<Value>, answers: &Vec<u64>, pos: usize) -> (r: (Outcome, usize))
    requires
        vals@.len() >= 1,
        forall|k: int| 0 <= k < vals@.len() ==> kind_of(#[trigger] vals@[k]@) == Kind::Number,
        pos <= answers@.len(),
    ensures
        r.0@ == sum_fold(
            num_of(vals@[0]@),
            vals_model(vals@).drop_first().map_values(|v: ValueModel| num_of(v)),
            answers@,
            pos as int,
        ).0,
        r.1 as int == sum_fold(
            num_of(vals@[0]@),
            vals_model(vals@).drop_first().map_values(|v: ValueModel| num_of(v)),
            answers@,
            pos as int,
        ).1,
        pos <= r.1 <= answers@.len(),
{
    let ghost nums = vals_model(vals@).drop_first().map_values(|v: ValueModel| num_of(v));
    proof {
        assert(nums.len() == vals@.len() - 1);
        assert(nums.skip(0) =~= nums);
    }
    let mut acc: Number = num_of_value(&vals[0]);
    let mut cur: usize = pos;
    let mut i: usize = 1;
    while i < vals.len()
        invariant
            1 <= i <= vals@.len(),
            pos <= cur <= answers@.len(),
            nums == vals_model(vals@).drop_first().map_values(|v: ValueModel| num_of(v)),
            sum_fold(num_of(vals@[0]@), nums, answers@, pos as int) == sum_fold(
                acc,
                nums.skip(i - 1),
                answers@,
                cur as int,
            ),
        decreases vals@.len() - i,
    {
        let ghost rest = nums.skip(i - 1);
        proof {
            assert(rest.len() == nums.len() - (i - 1));
            assert(rest[0] == nums[i - 1]);
            assert(nums[i - 1] == num_of(vals@[i as int]@));
            assert(rest.drop_first() =~= nums.skip(i as int));
        }
        let b = num_of_value(&vals[i]);
        match bin_step_exec(FloatBinary::Add, acc, b) {
            BinStep::Exact(s) => {
                acc = Number::Int(s);
            },
            BinStep::Ask(req) => {
                if cur < answers.len() {
                    acc = Number::Float(answers[cur]);
                    cur += 1;
                } else {
                    return (Outcome::Need(req), cur);
                }
            },
            // Addition never divides; this arm keeps the match total.
            BinStep::DivZero => {
                return (
                    Outcome::Fail(EvalError::DivisionByZero { operator: Operator::Sum }),
                    cur,
                );
            },
        }
        i += 1;
    }
    proof {
        assert(nums.skip(i - 1) =~= Seq::<Number>::empty());
    }
    (Outcome::Done(Value::Num(acc)), cur)
}

/// An operator applied to its argument values: arity check, kind check,
/// then the operator's semantics.
fn apply_op(op: Operator, vals: &Vec<Value>, answers: &Vec<u64>, pos: usize) -> (r: (
    Outcome,
    usize,
))
    requires
        pos <= answers@.len(),
    ensures
        r.0@ == apply_at(op, vals_model(vals@), answers@, pos as int).0,
        r.1 as int == apply_at(op, vals_model(vals@), answers@, pos as int).1,
        pos <= r.1 <= answers@.len(),
{
    let ghost vm = vals_model(vals@);
    proof {
        assert(vm.len() == vals@.len());
        assert forall|k: int| 0 <= k < vals@.len() implies #[trigger] vm[k] == vals@[k]@ by {}
    }
    let n = vals.len();
    let expected = op_base_arity(op);
    let arity_fine = if op_is_variadic(op) {
        n >= expected
    } else {
        n == expected
    };
    if !arity_fine {
        return (
            Outcome::Fail(EvalError::ArityMismatch { operator: op, expected, actual: n }),
            pos,
        );
    }
    let want = op_operand_kind(op);
    let mut i: usize = 0;
    while i < n
        invariant
            0 <= i <= n,
            n == vals@.len(),
            vm == vals_model(vals@),
            want == operand_kind(op),
            pos <= answers@.len(),
            arity_ok(op, vals@.len()),
            forall|k: int| 0 <= k < i ==> kind_of(#[trigger] vm[k]) == want,
        decreases n - i,
    {
        let k = vals[i].kind();
        if k != want {
            proof {
                assert(vm[i as int] == vals@[i as int]@);
                lemma_first_bad_some(vm, want, i as int);
                assert(first_bad_operand(vals_model(vals@), operand_kind(op)) == Some(i as int));
            }
            return (
                Outcome::Fail(
                    EvalError::TypeMismatch {
                        operator: op,
                        position: i,
                        expected_kind: want,
                        actual_kind: k,
                    },
                ),
                pos,
            );
        }
        i += 1;
    }
    proof {
        lemma_first_bad_none(vm, want);
        assert(apply_at(op, vm, answers@, pos as int) == apply_checked(
            op,
            vm,
            answers@,
            pos as int,
        ));
        assert forall|k: int| 0 <= k < vals@.len() implies kind_of(#[trigger] vals@[k]@)
            == want by {
            assert(vm[k] == vals@[k]@);
        }
    }
    match op {
        Operator::Add => bin_dispatch(op, FloatBinary::Add, vals, answers, pos),
        Operator::Subtract => bin_dispatch(op, FloatBinary::Subtract, vals, answers, pos),
        Operator::Multiply => bin_dispatch(op, FloatBinary::Multiply, vals, answers, pos),
        Operator::Divide => bin_dispatch(op, FloatBinary::Divide, vals, answers, pos),
        Operator::Exponentiate => bin_dispatch(op, FloatBinary::Exponentiate, vals, answers, pos),
        Operator::ATan2 => bin_dispatch(op, FloatBinary::ATan2, vals, answers, pos),
        Operator::Sin => resolve_req(
            FloatReq::Unary(FloatUnary::Sin, num_of_value(&vals[0])),
            answers,
            pos,
        ),
        Operator::Cos => resolve_req(
            FloatReq::Unary(FloatUnary::Cos, num_of_value(&vals[0])),
            answers,
            pos,
        ),
        Operator::Tan => resolve_req(
            FloatReq::Unary(FloatUnary::Tan, num_of_value(&vals[0])),
            answers,
            pos,
        ),
        Operator::Sum => sum_values(vals, answers, pos),
        Operator::StrReplace => {
            let c0 = text_chars(&vals[0]);
            let c1 = text_chars(&vals[1]);
            let c2 = text_chars(&vals[2]);
            let rc = replace_chars(&c0, &c1, &c2);
            let rep = string_from_chars(&rc);
            (Outcome::Done(Value::Text(rep)), pos)
        },
    }
}

/// What evaluating an argument list produced: every value, or the failure
/// or request that stopped it.
pub enum ArgsRes {
    Vals(Vec<Value>),
    Stop(Outcome),
}

impl View for ArgsRes {
    type V = ArgsOut;

    open spec fn view(&self) -> ArgsOut {
        match self {
            ArgsRes::Vals(vs) => ArgsOut::Vals(vals_model(vs@)),
            ArgsRes::Stop(o) => ArgsOut::Stop(o@),
        }
    }
}

/// The arguments from `from` on, evaluated left to right, fail-fast.
fn eval_args(args: &Vec<Expr>, from: usize, answers: &Vec<u64>, pos: usize) -> (r: (
    ArgsRes,
    usize,
))
    requires
        from <= args@.len(),
        pos <= answers@.len(),
    ensures
        r.0@ == eval_args_at(exprs_model(args@).skip(from as int), answers@, pos as int).0,
        r.1 as int == eval_args_at(exprs_model(args@).skip(from as int), answers@, pos as int).1,
        pos <= r.1 <= answers@.len(),
    decreases *args, args@.len() - from,
{
    proof {
        lemma_exprs_model(args@);
    }
    let ghost ms = exprs_model(args@).skip(from as int);
    if from == args.len() {
        proof {
            assert(ms =~= Seq::<ExprModel>::empty());
            assert(vals_model(Seq::<Value>::empty()) =~= Seq::<ValueModel>::empty());
        }
        (ArgsRes::Vals(Vec::new()), pos)
    } else {
        proof {
            assert(ms[0] == exprs_model(args@)[from as int]);
            assert(ms[0] == args@[from as int]@);
            assert(ms.drop_first() =~= exprs_model(args@).skip(from + 1));
        }
        let (first, p1) = eval_expr(&args[from], answers, pos);
        match first {
            Outcome::Done(v) => {
                let (rest, p2) = eval_args(args, from + 1, answers, p1);
                match rest {
                    ArgsRes::Vals(mut vs) => {
                        let ghost tail = vs@;
                        vs.insert(0, v);
                        proof {
                            assert(vs@ =~= seq![v] + tail);
                            assert forall|k: int| 0 <= k < vs@.len() implies #[trigger] vals_model(
                                vs@,
                            )[k] == (seq![v@] + vals_model(tail))[k] by {
                                if k > 0 {
                                    assert(vals_model(vs@)[k] == vs@[k]@);
                                    assert(vs@[k] == tail[k - 1]);
                                }
                            }
                            assert(vals_model(vs@) =~= seq![v@] + vals_model(tail));
                        }
                        (ArgsRes::Vals(vs), p2)
                    },
                    ArgsRes::Stop(o) => (ArgsRes::Stop(o), p2),
                }
            },
            other => (ArgsRes::Stop(other), p1),
        }
    }
}

/// Depth-first, post-order evaluation of one expression.
fn eval_expr(e: &Expr, answers: &Vec<u64>, pos: usize) -> (r: (Outcome, usize))
    requires
        pos <= answers@.len(),
    ensures
        r.0@ == eval_at(e@, answers@, pos as int).0,
        r.1 as int == eval_at(e@, answers@, pos as int).1,
        pos <= r.1 <= answers@.len(),
    decreases *e, 0int,
{
    match e {
        Expr::Literal(v) => (Outcome::Done(clone_value(v)), pos),
        Expr::Call(op, args) => {
            proof {
                assert(exprs_model(args@).skip(0) =~= exprs_model(args@));
            }
            let (ar, p) = eval_args(args, 0, answers, pos);
            match ar {
                ArgsRes::Vals(vals) => apply_op(*op, &vals, answers, p),
                ArgsRes::Stop(o) => (o, p),
            }
        },
    }
}

/// Evaluates the expression against the answer list.
///
/// A literal is returned unchanged; a call evaluates its arguments left to
/// right (the first failure or missing floating-point answer stops it at
/// once) and then applies the operator, after checking its arity and the
/// operands' kinds. Each floating-point operation consumes the next unused
/// entry of `answers`; when the list runs out, the result is
/// `Outcome::Need(req)` for the one operation whose answer is missing, and
/// the caller appends the computed bits and calls again. With every needed
/// answer supplied the result is `Outcome::Done(value)` or
/// `Outcome::Fail(error)`, exactly as the model `eval` has it.
pub fn evaluate(expr: &Expr, answers: &Vec<u64>) -> (r: Outcome)
    ensures
        r@ == eval(expr@, answers@),
{
    let (o, _used) = eval_expr(expr, answers, 0);
    o
}

} // verus!
