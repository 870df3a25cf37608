//! The laws of the evaluator, proved from the model in [`crate::semantics`].

use crate::ast::EvalError;
use crate::ast::ExprModel;
use crate::ast::FloatBinary;
use crate::ast::FloatReq;
use crate::ast::FloatUnary;
use crate::ast::Kind;
use crate::ast::Number;
use crate::ast::float_lit;
use crate::ast::int_lit;
use crate::ast::kind_of;
use crate::ast::num_lit;
use crate::ast::num_of;
use crate::ast::Operator;
use crate::ast::OutcomeModel;
use crate::ast::ValueModel;
use crate::semantics::ArgsOut;
use crate::semantics::BinStep;
use crate::semantics::apply_at;
use crate::semantics::arity_ok;
use crate::semantics::bin_step;
use crate::semantics::operand_kind;
use crate::semantics::base_arity;
use crate::semantics::eval;
use crate::semantics::eval_args_at;
use crate::semantics::eval_at;
use crate::semantics::first_bad_operand;
use crate::semantics::lemma_first_bad_none;
use crate::semantics::sum_fold;
use vstd::prelude::*;

verus! {

/// The given values as literal expressions, in order.
pub open spec fn literals(vals: Seq<ValueModel>) -> Seq<ExprModel> {
    vals.map_values(|v: ValueModel| ExprModel::Literal(v))
}

/// Literal arguments evaluate to exactly their values and consume no
/// answers.
pub proof fn lemma_literals_evaluate(vals: Seq<ValueModel>, answers: Seq<u64>, pos: int)
    ensures
        eval_args_at(literals(vals), answers, pos) == (ArgsOut::Vals(vals), pos),
    decreases vals,
{
    if vals.len() == 0 {
        assert(literals(vals) =~= Seq::<ExprModel>::empty());
        assert(vals =~= Seq::<ValueModel>::empty());
    } else {
        lemma_literals_evaluate(vals.drop_first(), answers, pos);
        assert(literals(vals).drop_first() =~= literals(vals.drop_first()));
        assert(literals(vals)[0] == ExprModel::Literal(vals[0]));
        assert(eval_at(literals(vals)[0], answers, pos) == (
            OutcomeModel::Done(vals[0]),
            pos,
        ));
        assert(eval_args_at(literals(vals).drop_first(), answers, pos) == (
            ArgsOut::Vals(vals.drop_first()),
            pos,
        ));
        assert(seq![vals[0]] + vals.drop_first() =~= vals);
        assert(eval_args_at(literals(vals), answers, pos) == (
            ArgsOut::Vals(seq![vals[0]] + vals.drop_first()),
            pos,
        ));
    }
}

/// Adding two exact integers whose sum is representable gives exactly that
/// sum, with no precision loss, whatever answers are on hand.
pub proof fn lemma_integer_add_exact(a: i64, b: i64, answers: Seq<u64>)
    requires
        i64::MIN <= a + b <= i64::MAX,
    ensures
        eval(ExprModel::Call(Operator::Add, seq![int_lit(a), int_lit(b)]), answers)
            == OutcomeModel::Done(ValueModel::Num(Number::Int((a + b) as i64))),
{
    let vals = seq![ValueModel::Num(Number::Int(a)), ValueModel::Num(Number::Int(b))];
    assert(seq![int_lit(a), int_lit(b)] =~= literals(vals));
    lemma_literals_evaluate(vals, answers, 0);
    assert(first_bad_operand(vals, Kind::Number) == None::<int>) by {
        reveal_with_fuel(first_bad_operand, 4);
        assert(vals.drop_first() =~= seq![ValueModel::Num(Number::Int(b))]);
        assert(vals.drop_first().drop_first() =~= Seq::<ValueModel>::empty());
    }
}

/// A trigonometric call delegates: with no answer on hand it asks for
/// exactly the one standard-library call on its operand's bits, and it
/// returns the answered bits unchanged. The numeric result is therefore
/// bit-for-bit the standard library's.
pub proof fn lemma_trig_delegates(op: Operator, x: u64, r: u64)
    requires
        op == Operator::Sin || op == Operator::Cos || op == Operator::Tan,
    ensures
        op == Operator::Sin ==> eval(ExprModel::Call(op, seq![float_lit(x)]), Seq::<u64>::empty())
            == OutcomeModel::Need(FloatReq::Unary(FloatUnary::Sin, Number::Float(x))),
        op == Operator::Cos ==> eval(ExprModel::Call(op, seq![float_lit(x)]), Seq::<u64>::empty())
            == OutcomeModel::Need(FloatReq::Unary(FloatUnary::Cos, Number::Float(x))),
        op == Operator::Tan ==> eval(ExprModel::Call(op, seq![float_lit(x)]), Seq::<u64>::empty())
            == OutcomeModel::Need(FloatReq::Unary(FloatUnary::Tan, Number::Float(x))),
        eval(ExprModel::Call(op, seq![float_lit(x)]), seq![r])
            == OutcomeModel::Done(ValueModel::Num(Number::Float(r))),
{
    let vals = seq![ValueModel::Num(Number::Float(x))];
    assert(seq![float_lit(x)] =~= literals(vals));
    lemma_literals_evaluate(vals, Seq::<u64>::empty(), 0);
    lemma_literals_evaluate(vals, seq![r], 0);
    assert(first_bad_operand(vals, Kind::Number) == None::<int>) by {
        reveal_with_fuel(first_bad_operand, 3);
        assert(vals.drop_first() =~= Seq::<ValueModel>::empty());
    }
}

/// A binary numeric call with a floating operand delegates: it asks for
/// exactly the one floating-point operation on its operands, and returns the
/// answered bits unchanged. In particular a floating division by zero is no
/// error: its result is whatever IEEE-754 division produced.
pub proof fn lemma_float_binary_delegates(operator: Operator, op: FloatBinary, a: Number, b: Number, r: u64)
    requires
        (operator == Operator::Add && op == FloatBinary::Add)
            || (operator == Operator::Subtract && op == FloatBinary::Subtract)
            || (operator == Operator::Multiply && op == FloatBinary::Multiply)
            || (operator == Operator::Divide && op == FloatBinary::Divide)
            || (operator == Operator::Exponentiate && op == FloatBinary::Exponentiate)
            || (operator == Operator::ATan2 && op == FloatBinary::ATan2),
        (a matches Number::Float(_)) || (b matches Number::Float(_)),
    ensures
        eval(ExprModel::Call(operator, seq![num_lit(a), num_lit(b)]), Seq::<u64>::empty())
            == OutcomeModel::Need(FloatReq::Binary(op, a, b)),
        eval(ExprModel::Call(operator, seq![num_lit(a), num_lit(b)]), seq![r])
            == OutcomeModel::Done(ValueModel::Num(Number::Float(r))),
{
    let vals = seq![ValueModel::Num(a), ValueModel::Num(b)];
    assert(seq![num_lit(a), num_lit(b)] =~= literals(vals));
    lemma_literals_evaluate(vals, Seq::<u64>::empty(), 0);
    lemma_literals_evaluate(vals, seq![r], 0);
    assert(first_bad_operand(vals, Kind::Number) == None::<int>) by {
        reveal_with_fuel(first_bad_operand, 4);
        assert(vals.drop_first() =~= seq![ValueModel::Num(b)]);
        assert(vals.drop_first().drop_first() =~= Seq::<ValueModel>::empty());
    }
}

/// Dividing an exact integer by the exact integer zero fails with
/// `DivisionByZero`, whatever answers are on hand.
pub proof fn lemma_integer_divide_by_zero(x: i64, answers: Seq<u64>)
    ensures
        eval(ExprModel::Call(Operator::Divide, seq![int_lit(x), int_lit(0)]), answers)
            == OutcomeModel::Fail(EvalError::DivisionByZero { operator: Operator::Divide }),
{
    let vals = seq![ValueModel::Num(Number::Int(x)), ValueModel::Num(Number::Int(0))];
    assert(seq![int_lit(x), int_lit(0)] =~= literals(vals));
    lemma_literals_evaluate(vals, answers, 0);
    assert(first_bad_operand(vals, Kind::Number) == None::<int>) by {
        reveal_with_fuel(first_bad_operand, 4);
        assert(vals.drop_first() =~= seq![ValueModel::Num(Number::Int(0))]);
        assert(vals.drop_first().drop_first() =~= Seq::<ValueModel>::empty());
    }
}

/// `Sum` over floating operands is the strict left fold: it asks for
/// `a + b` first, then for the previous answer plus `c`, then for that
/// answer plus `d`, and returns the last answer — `((a + b) + c) + d`, in
/// exactly that grouping.
pub proof fn lemma_sum_left_fold(a: u64, b: u64, c: u64, d: u64, r1: u64, r2: u64, r3: u64)
    ensures
        eval(ExprModel::Call(Operator::Sum, seq![float_lit(a), float_lit(b), float_lit(c), float_lit(d)]), Seq::<u64>::empty())
            == OutcomeModel::Need(FloatReq::Binary(FloatBinary::Add, Number::Float(a), Number::Float(b))),
        eval(ExprModel::Call(Operator::Sum, seq![float_lit(a), float_lit(b), float_lit(c), float_lit(d)]), seq![r1])
            == OutcomeModel::Need(FloatReq::Binary(FloatBinary::Add, Number::Float(r1), Number::Float(c))),
        eval(ExprModel::Call(Operator::Sum, seq![float_lit(a), float_lit(b), float_lit(c), float_lit(d)]), seq![r1, r2])
            == OutcomeModel::Need(FloatReq::Binary(FloatBinary::Add, Number::Float(r2), Number::Float(d))),
        eval(ExprModel::Call(Operator::Sum, seq![float_lit(a), float_lit(b), float_lit(c), float_lit(d)]), seq![r1, r2, r3])
            == OutcomeModel::Done(ValueModel::Num(Number::Float(r3))),
{
    let vals = seq![ValueModel::Num(Number::Float(a)), ValueModel::Num(Number::Float(b)), ValueModel::Num(Number::Float(c)), ValueModel::Num(Number::Float(d))];
    assert(seq![float_lit(a), float_lit(b), float_lit(c), float_lit(d)] =~= literals(vals));
    let rest = vals.drop_first().map_values(|v: ValueModel| num_of(v));
    assert(rest =~= seq![Number::Float(b), Number::Float(c), Number::Float(d)]);
    assert(first_bad_operand(vals, Kind::Number) == None::<int>) by {
        reveal_with_fuel(first_bad_operand, 6);
        assert(vals.drop_first() =~= seq![ValueModel::Num(Number::Float(b)), ValueModel::Num(Number::Float(c)), ValueModel::Num(Number::Float(d))]);
        assert(vals.drop_first().drop_first() =~= seq![ValueModel::Num(Number::Float(c)), ValueModel::Num(Number::Float(d))]);
        assert(vals.drop_first().drop_first().drop_first() =~= seq![ValueModel::Num(Number::Float(d))]);
        assert(vals.drop_first().drop_first().drop_first().drop_first() =~= Seq::<ValueModel>::empty());
    }
    assert(rest.drop_first() =~= seq![Number::Float(c), Number::Float(d)]);
    assert(rest.drop_first().drop_first() =~= seq![Number::Float(d)]);
    assert(rest.drop_first().drop_first().drop_first() =~= Seq::<Number>::empty());
    lemma_literals_evaluate(vals, Seq::<u64>::empty(), 0);
    lemma_literals_evaluate(vals, seq![r1], 0);
    lemma_literals_evaluate(vals, seq![r1, r2], 0);
    lemma_literals_evaluate(vals, seq![r1, r2, r3], 0);
    reveal_with_fuel(sum_fold, 5);
}

/// Whether folding `acc` left to right through `xs` stays within exact
/// integers: every intermediate sum is representable.
pub open spec fn int_fold_fits(acc: int, xs: Seq<i64>) -> bool
    decreases xs,
{
    xs.len() == 0 || (i64::MIN <= acc + xs[0] <= i64::MAX && int_fold_fits(
        acc + xs[0],
        xs.drop_first(),
    ))
}

/// The mathematical sum of `acc` and every element of `xs`.
pub open spec fn int_fold_total(acc: int, xs: Seq<i64>) -> int
    decreases xs,
{
    if xs.len() == 0 {
        acc
    } else {
        int_fold_total(acc + xs[0], xs.drop_first())
    }
}

/// An exact-integer left fold of `Sum` never promotes and never consumes an
/// answer.
proof fn lemma_sum_fold_ints(acc: i64, xs: Seq<i64>, answers: Seq<u64>, pos: int)
    requires
        int_fold_fits(acc as int, xs),
    ensures
        sum_fold(Number::Int(acc), xs.map_values(|x: i64| Number::Int(x)), answers, pos) == (
            OutcomeModel::Done(ValueModel::Num(Number::Int(int_fold_total(acc as int, xs) as i64))),
            pos,
        ),
    decreases xs,
{
    let nums = xs.map_values(|x: i64| Number::Int(x));
    if xs.len() == 0 {
        assert(nums =~= Seq::<Number>::empty());
    } else {
        assert(nums[0] == Number::Int(xs[0]));
        assert(nums.drop_first() =~= xs.drop_first().map_values(|x: i64| Number::Int(x)));
        lemma_sum_fold_ints((acc + xs[0]) as i64, xs.drop_first(), answers, pos);
    }
}

/// `Sum` over exact integers accumulates exactly: when every intermediate
/// sum is representable, the result is the exact integer total, with no
/// precision loss and no floating-point work, whatever answers are on hand.
pub proof fn lemma_sum_integers_exact(xs: Seq<i64>, answers: Seq<u64>)
    requires
        2 <= xs.len() <= usize::MAX,
        int_fold_fits(xs[0] as int, xs.drop_first()),
    ensures
        eval(ExprModel::Call(Operator::Sum, xs.map_values(|x: i64| int_lit(x))), answers)
            == OutcomeModel::Done(
            ValueModel::Num(Number::Int(int_fold_total(xs[0] as int, xs.drop_first()) as i64)),
        ),
{
    let vals = xs.map_values(|x: i64| ValueModel::Num(Number::Int(x)));
    assert(xs.map_values(|x: i64| int_lit(x)) =~= literals(vals));
    lemma_literals_evaluate(vals, answers, 0);
    assert forall|k: int| 0 <= k < vals.len() implies kind_of(#[trigger] vals[k])
        == Kind::Number by {}
    lemma_first_bad_none(vals, Kind::Number);
    assert(num_of(vals[0]) == Number::Int(xs[0]));
    assert(vals.drop_first().map_values(|v: ValueModel| num_of(v)) =~= xs.drop_first().map_values(
        |x: i64| Number::Int(x),
    ));
    lemma_sum_fold_ints(xs[0], xs.drop_first(), answers, 0);
}

/// `sum_fold` keeps the answer position between `pos` and the list's end,
/// and stops exactly at the end when it hands a request out.
proof fn lemma_sum_fold_pos(acc: Number, rest: Seq<Number>, answers: Seq<u64>, pos: int)
    requires
        0 <= pos <= answers.len(),
    ensures
        pos <= sum_fold(acc, rest, answers, pos).1 <= answers.len(),
        (sum_fold(acc, rest, answers, pos).0 matches OutcomeModel::Need(_)) ==> sum_fold(
            acc,
            rest,
            answers,
            pos,
        ).1 == answers.len(),
    decreases rest,
{
    if rest.len() > 0 {
        match bin_step(FloatBinary::Add, acc, rest[0]) {
            BinStep::Exact(i) => {
                lemma_sum_fold_pos(Number::Int(i), rest.drop_first(), answers, pos);
            },
            BinStep::Ask(_) => {
                if pos < answers.len() {
                    lemma_sum_fold_pos(Number::Float(answers[pos]), rest.drop_first(), answers, pos + 1);
                }
            },
            BinStep::DivZero => {},
        }
    }
}

/// `apply_at` keeps the answer position between `pos` and the list's end,
/// and stops exactly at the end when it hands a request out.
proof fn lemma_apply_at_pos(op: Operator, vals: Seq<ValueModel>, answers: Seq<u64>, pos: int)
    requires
        0 <= pos <= answers.len(),
    ensures
        pos <= apply_at(op, vals, answers, pos).1 <= answers.len(),
        (apply_at(op, vals, answers, pos).0 matches OutcomeModel::Need(_)) ==> apply_at(
            op,
            vals,
            answers,
            pos,
        ).1 == answers.len(),
{
    if arity_ok(op, vals.len()) && (first_bad_operand(vals, operand_kind(op)) matches None)
        && op == Operator::Sum {
        lemma_sum_fold_pos(
            num_of(vals[0]),
            vals.drop_first().map_values(|v: ValueModel| num_of(v)),
            answers,
            pos,
        );
    }
}

/// Evaluation keeps the answer position between `pos` and the list's end,
/// and stops exactly at the end when it hands a request out.
pub proof fn lemma_eval_at_pos(e: ExprModel, answers: Seq<u64>, pos: int)
    requires
        0 <= pos <= answers.len(),
    ensures
        pos <= eval_at(e, answers, pos).1 <= answers.len(),
        (eval_at(e, answers, pos).0 matches OutcomeModel::Need(_)) ==> eval_at(
            e,
            answers,
            pos,
        ).1 == answers.len(),
    decreases e,
{
    match e {
        ExprModel::Literal(_) => {},
        ExprModel::Call(op, args) => {
            lemma_eval_args_at_pos(args, answers, pos);
            let (r, p) = eval_args_at(args, answers, pos);
            match r {
                ArgsOut::Vals(vs) => {
                    lemma_apply_at_pos(op, vs, answers, p);
                },
                ArgsOut::Stop(_) => {},
            }
        },
    }
}

/// Argument evaluation keeps the answer position between `pos` and the
/// list's end, and stops exactly at the end when it hands a request out.
proof fn lemma_eval_args_at_pos(args: Seq<ExprModel>, answers: Seq<u64>, pos: int)
    requires
        0 <= pos <= answers.len(),
    ensures
        pos <= eval_args_at(args, answers, pos).1 <= answers.len(),
        (eval_args_at(args, answers, pos).0 matches ArgsOut::Stop(o) && (
        o matches OutcomeModel::Need(_))) ==> eval_args_at(args, answers, pos).1
            == answers.len(),
    decreases args,
{
    if args.len() > 0 {
        lemma_eval_at_pos(args[0], answers, pos);
        let (first, p1) = eval_at(args[0], answers, pos);
        match first {
            OutcomeModel::Done(_) => {
                lemma_eval_args_at_pos(args.drop_first(), answers, p1);
            },
            _ => {},
        }
    }
}

/// `sum_fold` reads only the answers it consumes: appending answers changes
/// nothing once the fold finished without a request.
proof fn lemma_sum_fold_stable(
    acc: Number,
    rest: Seq<Number>,
    answers: Seq<u64>,
    more: Seq<u64>,
    pos: int,
)
    requires
        0 <= pos <= answers.len(),
        !(sum_fold(acc, rest, answers, pos).0 matches OutcomeModel::Need(_)),
    ensures
        sum_fold(acc, rest, answers + more, pos) == sum_fold(acc, rest, answers, pos),
    decreases rest,
{
    if rest.len() > 0 {
        match bin_step(FloatBinary::Add, acc, rest[0]) {
            BinStep::Exact(i) => {
                lemma_sum_fold_stable(Number::Int(i), rest.drop_first(), answers, more, pos);
            },
            BinStep::Ask(_) => {
                assert(pos < answers.len());
                assert((answers + more)[pos] == answers[pos]);
                lemma_sum_fold_stable(
                    Number::Float(answers[pos]),
                    rest.drop_first(),
                    answers,
                    more,
                    pos + 1,
                );
            },
            BinStep::DivZero => {},
        }
    }
}

/// `apply_at` reads only the answers it consumes.
proof fn lemma_apply_at_stable(
    op: Operator,
    vals: Seq<ValueModel>,
    answers: Seq<u64>,
    more: Seq<u64>,
    pos: int,
)
    requires
        0 <= pos <= answers.len(),
        !(apply_at(op, vals, answers, pos).0 matches OutcomeModel::Need(_)),
    ensures
        apply_at(op, vals, answers + more, pos) == apply_at(op, vals, answers, pos),
{
    if arity_ok(op, vals.len()) && (first_bad_operand(vals, operand_kind(op)) matches None) {
        if op == Operator::Sum {
            lemma_sum_fold_stable(
                num_of(vals[0]),
                vals.drop_first().map_values(|v: ValueModel| num_of(v)),
                answers,
                more,
                pos,
            );
        } else {
            if pos < answers.len() {
                assert((answers + more)[pos] == answers[pos]);
            }
        }
    }
}

/// Evaluation reads only the answers it consumes: once it finished with a
/// value or a failure, appending answers changes nothing. Together with
/// [`lemma_eval_at_pos`] this is what makes the driver loop sound: every
/// round keeps the answers already given and appends one, so the run so far
/// is replayed unchanged up to the answered request.
pub proof fn lemma_eval_at_stable(e: ExprModel, answers: Seq<u64>, more: Seq<u64>, pos: int)
    requires
        0 <= pos <= answers.len(),
        !(eval_at(e, answers, pos).0 matches OutcomeModel::Need(_)),
    ensures
        eval_at(e, answers + more, pos) == eval_at(e, answers, pos),
    decreases e,
{
    match e {
        ExprModel::Literal(_) => {},
        ExprModel::Call(op, args) => {
            lemma_eval_args_at_stable(args, answers, more, pos);
            lemma_eval_args_at_pos(args, answers, pos);
            let (r, p) = eval_args_at(args, answers, pos);
            match r {
                ArgsOut::Vals(vs) => {
                    lemma_apply_at_stable(op, vs, answers, more, p);
                },
                ArgsOut::Stop(_) => {},
            }
        },
    }
}

/// Argument evaluation reads only the answers it consumes.
proof fn lemma_eval_args_at_stable(
    args: Seq<ExprModel>,
    answers: Seq<u64>,
    more: Seq<u64>,
    pos: int,
)
    requires
        0 <= pos <= answers.len(),
        !(eval_args_at(args, answers, pos).0 matches ArgsOut::Stop(o) && (
        o matches OutcomeModel::Need(_))),
    ensures
        eval_args_at(args, answers + more, pos) == eval_args_at(args, answers, pos),
    decreases args,
{
    if args.len() > 0 {
        lemma_eval_at_pos(args[0], answers, pos);
        let (first, p1) = eval_at(args[0], answers, pos);
        match first {
            OutcomeModel::Done(_) => {
                lemma_eval_at_stable(args[0], answers, more, pos);
                lemma_eval_args_at_stable(args.drop_first(), answers, more, p1);
            },
            OutcomeModel::Fail(_) => {
                lemma_eval_at_stable(args[0], answers, more, pos);
            },
            OutcomeModel::Need(_) => {},
        }
    }
}

/// The driver's protocol is sound: an outcome that is a value or a failure
/// is final — supplying further answers cannot change it.
pub proof fn lemma_extra_answers_are_harmless(e: ExprModel, answers: Seq<u64>, more: Seq<u64>)
    requires
        !(eval(e, answers) matches OutcomeModel::Need(_)),
    ensures
        eval(e, answers + more) == eval(e, answers),
{
    lemma_eval_at_stable(e, answers, more, 0);
}

/// A request is handed out only once every answer on hand has been
/// consumed, so each request the driver sees is the next one in evaluation
/// order.
pub proof fn lemma_need_consumes_all_answers(e: ExprModel, answers: Seq<u64>)
    requires
        (eval(e, answers) matches OutcomeModel::Need(_)),
    ensures
        eval_at(e, answers, 0).1 == answers.len(),
{
    lemma_eval_at_pos(e, answers, 0);
}

/// A call with the wrong number of arguments fails with `ArityMismatch`
/// naming the operator, its declared arity, and the actual count — whatever
/// the argument values and answers are. Argument values are still
/// validated only after all of them evaluated, so literal arguments reach
/// the arity check unconditionally.
pub proof fn lemma_arity_mismatch(op: Operator, vals: Seq<ValueModel>, answers: Seq<u64>)
    requires
        !arity_ok(op, vals.len()),
        vals.len() <= usize::MAX,
    ensures
        eval(ExprModel::Call(op, literals(vals)), answers) == OutcomeModel::Fail(
            EvalError::ArityMismatch {
                operator: op,
                expected: base_arity(op),
                actual: vals.len() as usize,
            },
        ),
{
    lemma_literals_evaluate(vals, answers, 0);
}

} // verus!
