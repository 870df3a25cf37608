//! The expression model: values, operators, expression trees, evaluation
//! outcomes, and their mathematical models.

use vstd::prelude::*;

verus! {

/// A number: an exact machine integer, or an IEEE-754 double carried as its
/// bit pattern. The library never computes with the bits; it only decides
/// when a floating-point operation is called for and hands it out.
#[derive(Clone, Copy, PartialEq, Eq, Structural, Debug)]
pub enum Number {
    Int(i64),
    /// The bits of an IEEE-754 double (`f64::to_bits`).
    Float(u64),
}

/// The kind of a value, as the operator contracts see it.
#[derive(Clone, Copy, PartialEq, Eq, Structural, Debug)]
pub enum Kind {
    Number,
    Text,
}

/// A fully evaluated result: numeric or textual.
#[derive(Debug, PartialEq)]
pub enum Value {
    Num(Number),
    Text(String),
}

/// The mathematical model of a [`Value`]: text becomes a character sequence.
pub enum ValueModel {
    Num(Number),
    Text(Seq<char>),
}

impl View for Value {
    type V = ValueModel;

    open spec fn view(&self) -> ValueModel {
        match self {
            Value::Num(n) => ValueModel::Num(*n),
            Value::Text(s) => ValueModel::Text(s@),
        }
    }
}

/// The closed set of function symbols.
#[derive(Clone, Copy, PartialEq, Eq, Structural, Debug)]
pub enum Operator {
    Add,
    Subtract,
    Multiply,
    Divide,
    Exponentiate,
    Sin,
    Cos,
    Tan,
    ATan2,
    Sum,
    StrReplace,
}

/// An expression: a ground value, or a pending call over sub-expressions.
/// Arity and operand kinds are not validated at construction time; the
/// evaluator checks them and reports a typed error.
#[derive(Debug, PartialEq)]
pub enum Expr {
    Literal(Value),
    Call(Operator, Vec<Expr>),
}

/// The mathematical model of an [`Expr`].
pub enum ExprModel {
    Literal(ValueModel),
    Call(Operator, Seq<ExprModel>),
}

/// The model of an expression tree.
pub open spec fn expr_model(e: Expr) -> ExprModel
    decreases e,
{
    match e {
        Expr::Literal(v) => ExprModel::Literal(v@),
        Expr::Call(op, args) => ExprModel::Call(op, exprs_model(args@)),
    }
}

/// The models of a sequence of expressions, in order.
pub open spec fn exprs_model(es: Seq<Expr>) -> Seq<ExprModel>
    decreases es,
{
    if es.len() == 0 {
        Seq::empty()
    } else {
        seq![expr_model(es[0])] + exprs_model(es.drop_first())
    }
}

impl View for Expr {
    type V = ExprModel;

    open spec fn view(&self) -> ExprModel {
        expr_model(*self)
    }
}

/// `exprs_model` maps the sequence elementwise.
pub proof fn lemma_exprs_model(es: Seq<Expr>)
    ensures
        exprs_model(es).len() == es.len(),
        forall|i: int| 0 <= i < es.len() ==> #[trigger] exprs_model(es)[i] == es[i]@,
    decreases es,
{
    if es.len() > 0 {
        lemma_exprs_model(es.drop_first());
        assert forall|i: int| 0 <= i < es.len() implies #[trigger] exprs_model(es)[i]
            == es[i]@ by {
            if i > 0 {
                assert(exprs_model(es)[i] == exprs_model(es.drop_first())[i - 1]);
                assert(es.drop_first()[i - 1] == es[i]);
            }
        }
    }
}

/// The models of a sequence of values, in order.
pub open spec fn vals_model(vs: Seq<Value>) -> Seq<ValueModel> {
    vs.map_values(|v: Value| v@)
}

/// A typed evaluation failure. An unknown-operator case needs no variant:
/// [`Operator`] is a closed enumeration, so no other symbol can reach the
/// evaluator.
#[derive(Clone, Copy, PartialEq, Eq, Structural, Debug)]
pub enum EvalError {
    /// The operator was given the wrong number of arguments.
    ArityMismatch { operator: Operator, expected: usize, actual: usize },
    /// The argument at `position` (counted from zero) has the wrong kind.
    TypeMismatch { operator: Operator, position: usize, expected_kind: Kind, actual_kind: Kind },
    /// Exact-integer division by exact zero. Floating-point division by zero
    /// is not an error: it follows IEEE-754 and produces an infinity or NaN.
    DivisionByZero { operator: Operator },
}

/// A unary floating-point operation the caller is asked to perform.
#[derive(Clone, Copy, PartialEq, Eq, Structural, Debug)]
pub enum FloatUnary {
    Sin,
    Cos,
    Tan,
}

/// A binary floating-point operation the caller is asked to perform.
#[derive(Clone, Copy, PartialEq, Eq, Structural, Debug)]
pub enum FloatBinary {
    Add,
    Subtract,
    Multiply,
    Divide,
    Exponentiate,
    ATan2,
}

/// One floating-point operation, handed out by the evaluator. The caller
/// converts each operand to `f64` (an `Int` exactly as `i as f64`, a `Float`
/// by `f64::from_bits`), applies the operation, and answers with the result
/// of `f64::to_bits`.
#[derive(Clone, Copy, PartialEq, Eq, Structural, Debug)]
pub enum FloatReq {
    Unary(FloatUnary, Number),
    Binary(FloatBinary, Number, Number),
}

/// What one call of the evaluator produced: a value, a typed failure, or a
/// request for one floating-point operation whose answer is not yet in the
/// answer list.
#[derive(Debug, PartialEq)]
pub enum Outcome {
    Done(Value),
    Fail(EvalError),
    Need(FloatReq),
}

/// The mathematical model of an [`Outcome`].
pub enum OutcomeModel {
    Done(ValueModel),
    Fail(EvalError),
    Need(FloatReq),
}

impl View for Outcome {
    type V = OutcomeModel;

    open spec fn view(&self) -> OutcomeModel {
        match self {
            Outcome::Done(v) => OutcomeModel::Done(v@),
            Outcome::Fail(e) => OutcomeModel::Fail(*e),
            Outcome::Need(r) => OutcomeModel::Need(*r),
        }
    }
}

/// The kind of a value.
pub open spec fn kind_of(v: ValueModel) -> Kind {
    match v {
        ValueModel::Num(_) => Kind::Number,
        ValueModel::Text(_) => Kind::Text,
    }
}

/// The number held by a numeric value. Meaningful only when
/// `kind_of(v) == Kind::Number`; callers guard with the kind check.
pub open spec fn num_of(v: ValueModel) -> Number {
    match v {
        ValueModel::Num(n) => n,
        ValueModel::Text(_) => Number::Int(0),
    }
}

/// The character sequence held by a textual value. Meaningful only when
/// `kind_of(v) == Kind::Text`; callers guard with the kind check.
pub open spec fn text_of(v: ValueModel) -> Seq<char> {
    match v {
        ValueModel::Num(_) => Seq::empty(),
        ValueModel::Text(s) => s,
    }
}

impl Value {
    /// The kind of this value.
    pub fn kind(&self) -> (k: Kind)
        ensures
            k == kind_of(self@),
    {
        match self {
            Value::Num(_) => Kind::Number,
            Value::Text(_) => Kind::Text,
        }
    }
}

/// An owned copy of a value.
pub fn clone_value(v: &Value) -> (r: Value)
    ensures
        r == *v,
{
    match v {
        Value::Num(n) => Value::Num(*n),
        Value::Text(s) => Value::Text(s.clone()),
    }
}

/// A literal numeric expression, as a model.
pub open spec fn num_lit(n: Number) -> ExprModel {
    ExprModel::Literal(ValueModel::Num(n))
}

/// A literal integer expression, as a model.
pub open spec fn int_lit(i: i64) -> ExprModel {
    ExprModel::Literal(ValueModel::Num(Number::Int(i)))
}

/// A literal double expression (by its bits), as a model.
pub open spec fn float_lit(bits: u64) -> ExprModel {
    ExprModel::Literal(ValueModel::Num(Number::Float(bits)))
}

/// A literal text expression, as a model.
pub open spec fn text_lit(s: Seq<char>) -> ExprModel {
    ExprModel::Literal(ValueModel::Text(s))
}

impl Expr {
    /// A literal integer expression.
    pub fn literal_int(i: i64) -> (e: Expr)
        ensures
            e@ == int_lit(i),
    {
        Expr::Literal(Value::Num(Number::Int(i)))
    }

    /// A literal double expression, from the bits of an `f64`.
    pub fn literal_float_bits(bits: u64) -> (e: Expr)
        ensures
            e@ == float_lit(bits),
    {
        Expr::Literal(Value::Num(Number::Float(bits)))
    }

    /// A literal text expression.
    pub fn literal_text(s: String) -> (e: Expr)
        ensures
            e@ == text_lit(s@),
    {
        Expr::Literal(Value::Text(s))
    }

    /// A call node over the given arguments.
    pub fn call(op: Operator, args: Vec<Expr>) -> (e: Expr)
        ensures
            e@ == ExprModel::Call(op, exprs_model(args@)),
    {
        Expr::Call(op, args)
    }
}

} // verus!
