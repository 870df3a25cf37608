use evaluator::ast::EvalError;
use evaluator::ast::Expr;
use evaluator::ast::FloatBinary;
use evaluator::ast::FloatReq;
use evaluator::ast::FloatUnary;
use evaluator::ast::Kind;
use evaluator::ast::Number;
use evaluator::ast::Operator;
use evaluator::ast::Outcome;
use evaluator::ast::Value;
use evaluator::eval::evaluate;
use evaluator::text::replace_text;

fn num_to_f64(n: &Number) -> f64 {
    match n {
        Number::Int(i) => *i as f64,
        Number::Float(b) => f64::from_bits(*b),
    }
}

/// The floating-point unit of the driver loop: performs the one operation
/// the evaluator asked for.
fn compute(req: &FloatReq) -> u64 {
    match req {
        FloatReq::Unary(op, a) => {
            let x = num_to_f64(a);
            match op {
                FloatUnary::Sin => x.sin(),
                FloatUnary::Cos => x.cos(),
                FloatUnary::Tan => x.tan(),
            }
            .to_bits()
        }
        FloatReq::Binary(op, a, b) => {
            let x = num_to_f64(a);
            let y = num_to_f64(b);
            match op {
                FloatBinary::Add => x + y,
                FloatBinary::Subtract => x - y,
                FloatBinary::Multiply => x * y,
                FloatBinary::Divide => x / y,
                FloatBinary::Exponentiate => x.powf(y),
                FloatBinary::ATan2 => x.atan2(y),
            }
            .to_bits()
        }
    }
}

/// Runs the evaluator to completion, answering every floating-point
/// request.
fn run(e: &Expr) -> Result<Value, EvalError> {
    let mut answers: Vec<u64> = Vec::new();
    loop {
        match evaluate(e, &answers) {
            Outcome::Done(v) => return Ok(v),
            Outcome::Fail(err) => return Err(err),
            Outcome::Need(req) => answers.push(compute(&req)),
        }
    }
}

fn as_f64(v: &Value) -> f64 {
    match v {
        Value::Num(n) => num_to_f64(n),
        Value::Text(_) => panic!("expected a number"),
    }
}

fn ilit(i: i64) -> Expr {
    Expr::literal_int(i)
}

fn flit(x: f64) -> Expr {
    Expr::literal_float_bits(x.to_bits())
}

fn tlit(s: &str) -> Expr {
    Expr::literal_text(s.to_string())
}

fn call(op: Operator, args: Vec<Expr>) -> Expr {
    Expr::call(op, args)
}

#[test]
fn opstest() {
    // Test Some General Math Ops: (((1.3 + 2) * 3) + (7 - 4) / 10) ^ 2.5
    let c1 = call(Operator::Add, vec![flit(1.3), ilit(2)]); // C1 = 1.3 + 2
    let c2 = call(Operator::Multiply, vec![c1, ilit(3)]); // C2 = C1 * 3
    let c3 = call(Operator::Subtract, vec![ilit(7), ilit(4)]); // C3 = 7 - 4
    let c4 = call(Operator::Divide, vec![c3, ilit(10)]); // C4 = C3 / 10
    let c5 = call(Operator::Add, vec![c2, c4]); // C5 = C2 + C4
    let c6 = call(Operator::Exponentiate, vec![c5, flit(2.5)]); // C6 = C5 ^ 2.5
    let result = run(&c6).unwrap();
    assert_eq!(
        as_f64(&result),
        (((1.3f64 + 2f64) * 3f64) + (7f64 - 4f64) / 10f64).powf(2.5f64)
    );
}

#[test]
fn stringtest() {
    // Test a text replacement
    let c1 = call(Operator::StrReplace, vec![tlit("Hello World"), tlit("l"), tlit("q")]);
    let result = run(&c1).unwrap();
    match result {
        Value::Text(s) => assert_eq!(s, "Heqqo Worqd".to_string()),
        Value::Num(_) => panic!("expected text"),
    }
}

#[test]
fn trigtest() {
    let pi = std::f64::consts::PI;

    // sin
    let c1 = call(Operator::Sin, vec![flit(pi)]);
    let result = run(&c1).unwrap();
    assert_eq!(as_f64(&result), pi.sin());

    // cos
    let c1 = call(Operator::Cos, vec![flit(pi)]);
    let result = run(&c1).unwrap();
    assert_eq!(as_f64(&result), pi.cos());

    // tan
    let c1 = call(Operator::Tan, vec![flit(pi)]);
    let result = run(&c1).unwrap();
    assert_eq!(as_f64(&result), pi.tan());

    // atan2
    let c1 = call(Operator::ATan2, vec![flit(1.2), flit(2.3)]);
    let result = run(&c1).unwrap();
    assert_eq!(as_f64(&result), 1.2f64.atan2(2.3f64));
}

#[test]
fn bigmathtest() {
    let wa = 1.5;
    let ma = 2.3;
    let va = 11.3;
    let ga = 0.34;
    let mu = 1.50;
    let gd = 3.14;
    let g = 9.8;
    let wx = 0.04;
    let ps = 0.013;
    let rh = 1.74;

    let c1 = call(Operator::Sin, vec![flit(ga)]); // sin(ga)
    let c2 = call(Operator::Exponentiate, vec![c1, ilit(2)]); // sin(ga)^2
    let c3 = call(Operator::Multiply, vec![flit(wx), c2]); // wx*sin(ga)^2
    let c4 = call(Operator::Sin, vec![flit(ps)]); // sin(ps)
    let c5 = call(Operator::Multiply, vec![c3, c4]); // wx*sin(ga)^2*sin(ps)

    let c6 = call(Operator::Cos, vec![flit(ga)]); // cos(ga)
    let c7 = call(Operator::Multiply, vec![flit(g), c6]); // g*cos(ga)
    let c8 = call(Operator::Divide, vec![c7, flit(va)]); // g*cos(ga)/va
    let c9 = call(Operator::Add, vec![flit(gd), c8]); // gd+g*cos(ga)/va

    let c10 = call(Operator::Subtract, vec![c9, c5]); // (gd+g*cos(ga)/va) - (wx*sin(ga)^2*sin(ps))

    let c11 = call(Operator::Multiply, vec![flit(wa), flit(rh)]); // wa*rh
    let c12 = call(Operator::Multiply, vec![c11, flit(va)]); // wa*rh*va
    let c13 = call(Operator::Cos, vec![flit(mu)]); // cos(mu)
    let c14 = call(Operator::Multiply, vec![c12, c13]); // wa*rh*va*cos(mu)

    let c15 = call(Operator::Multiply, vec![ilit(2), flit(ma)]); // 2*ma

    let c16 = call(Operator::Divide, vec![c15, c14]); // 2*ma/wa*rh*va*cos(mu)

    let c17 = call(Operator::Multiply, vec![c16, c10]);

    let result = run(&c17).unwrap();

    assert_eq!(
        as_f64(&result),
        (2f64 * ma / (wa * rh * va * mu.cos())
            * (gd + g * ga.cos() / va - wx * (ga.sin().powf(2f64)) * ps.sin()))
    );
}

#[test]
fn int_add_is_exact() {
    let e = call(Operator::Add, vec![ilit(4611686018427387904), ilit(4611686018427387903)]);
    match run(&e).unwrap() {
        Value::Num(Number::Int(i)) => assert_eq!(i, 9223372036854775807),
        other => panic!("expected an exact integer, got {:?}", other),
    }
}

#[test]
fn int_add_overflow_promotes() {
    let e = call(Operator::Add, vec![ilit(i64::MAX), ilit(1)]);
    assert_eq!(as_f64(&run(&e).unwrap()), (i64::MAX as f64) + 1f64);
}

#[test]
fn int_division_exact_stays_integer() {
    let e = call(Operator::Divide, vec![ilit(10), ilit(2)]);
    // No floating-point request is needed: one call with no answers finishes.
    match evaluate(&e, &Vec::new()) {
        Outcome::Done(Value::Num(Number::Int(i))) => assert_eq!(i, 5),
        other => panic!("expected Done(5), got {:?}", other),
    }
    let e = call(Operator::Divide, vec![ilit(-10), ilit(2)]);
    match evaluate(&e, &Vec::new()) {
        Outcome::Done(Value::Num(Number::Int(i))) => assert_eq!(i, -5),
        other => panic!("expected Done(-5), got {:?}", other),
    }
}

#[test]
fn int_division_inexact_promotes() {
    let e = call(Operator::Divide, vec![ilit(3), ilit(10)]);
    assert_eq!(as_f64(&run(&e).unwrap()), 3f64 / 10f64);
    let e = call(Operator::Divide, vec![ilit(-7), ilit(2)]);
    assert_eq!(as_f64(&run(&e).unwrap()), -7f64 / 2f64);
}

#[test]
fn int_division_min_by_minus_one_promotes() {
    let e = call(Operator::Divide, vec![ilit(i64::MIN), ilit(-1)]);
    assert_eq!(as_f64(&run(&e).unwrap()), (i64::MIN as f64) / -1f64);
}

#[test]
fn int_division_by_zero_fails() {
    let e = call(Operator::Divide, vec![ilit(7), ilit(0)]);
    assert_eq!(
        run(&e).unwrap_err(),
        EvalError::DivisionByZero { operator: Operator::Divide }
    );
}

#[test]
fn float_division_by_zero_is_ieee() {
    let e = call(Operator::Divide, vec![flit(7.0), flit(0.0)]);
    assert_eq!(as_f64(&run(&e).unwrap()), f64::INFINITY);
    let e = call(Operator::Divide, vec![ilit(1), flit(0.0)]);
    assert_eq!(as_f64(&run(&e).unwrap()), f64::INFINITY);
    let e = call(Operator::Divide, vec![flit(-7.0), flit(0.0)]);
    assert_eq!(as_f64(&run(&e).unwrap()), f64::NEG_INFINITY);
    let e = call(Operator::Divide, vec![flit(0.0), flit(0.0)]);
    assert!(as_f64(&run(&e).unwrap()).is_nan());
}

#[test]
fn exponentiate_negative_base_gives_nan_value() {
    let e = call(Operator::Exponentiate, vec![flit(-8.0), flit(0.5)]);
    assert!(as_f64(&run(&e).unwrap()).is_nan());
}

#[test]
fn trig_promotes_integer_operand() {
    let e = call(Operator::Sin, vec![ilit(0)]);
    assert_eq!(as_f64(&run(&e).unwrap()), 0f64.sin());
    let e = call(Operator::Cos, vec![ilit(2)]);
    assert_eq!(as_f64(&run(&e).unwrap()), 2f64.cos());
}

#[test]
fn arity_mismatch_add_one_argument() {
    let e = call(Operator::Add, vec![ilit(1)]);
    assert_eq!(
        evaluate(&e, &Vec::new()),
        Outcome::Fail(EvalError::ArityMismatch { operator: Operator::Add, expected: 2, actual: 1 })
    );
}

#[test]
fn arity_mismatch_sum_needs_two() {
    let e = call(Operator::Sum, vec![ilit(1)]);
    assert_eq!(
        run(&e).unwrap_err(),
        EvalError::ArityMismatch { operator: Operator::Sum, expected: 2, actual: 1 }
    );
    let e = call(Operator::StrReplace, vec![tlit("a"), tlit("b")]);
    assert_eq!(
        run(&e).unwrap_err(),
        EvalError::ArityMismatch { operator: Operator::StrReplace, expected: 3, actual: 2 }
    );
}

#[test]
fn type_mismatch_names_first_offender() {
    let e = call(Operator::Add, vec![tlit("a"), ilit(1)]);
    assert_eq!(
        run(&e).unwrap_err(),
        EvalError::TypeMismatch {
            operator: Operator::Add,
            position: 0,
            expected_kind: Kind::Number,
            actual_kind: Kind::Text,
        }
    );
    let e = call(Operator::Add, vec![ilit(1), tlit("a")]);
    assert_eq!(
        run(&e).unwrap_err(),
        EvalError::TypeMismatch {
            operator: Operator::Add,
            position: 1,
            expected_kind: Kind::Number,
            actual_kind: Kind::Text,
        }
    );
    let e = call(Operator::StrReplace, vec![ilit(1), tlit("a"), tlit("b")]);
    assert_eq!(
        run(&e).unwrap_err(),
        EvalError::TypeMismatch {
            operator: Operator::StrReplace,
            position: 0,
            expected_kind: Kind::Text,
            actual_kind: Kind::Number,
        }
    );
}

#[test]
fn arguments_fail_fast_left_to_right() {
    let bad_left = call(Operator::Divide, vec![ilit(1), ilit(0)]);
    let bad_right = call(Operator::Sin, vec![tlit("x")]);
    let e = call(Operator::Add, vec![bad_left, bad_right]);
    // The left argument's failure wins; the right sibling is never reached.
    assert_eq!(
        run(&e).unwrap_err(),
        EvalError::DivisionByZero { operator: Operator::Divide }
    );
}

#[test]
fn sum_is_left_associative() {
    let e = call(Operator::Sum, vec![flit(0.1), flit(0.2), flit(0.3), flit(0.4)]);
    let got = as_f64(&run(&e).unwrap());
    assert_eq!(got, ((0.1f64 + 0.2f64) + 0.3f64) + 0.4f64);
    assert_ne!(got, 0.1f64 + (0.2f64 + (0.3f64 + 0.4f64)));
}

#[test]
fn sum_of_integers_is_exact() {
    let e = call(Operator::Sum, vec![ilit(1), ilit(2), ilit(3), ilit(4)]);
    match evaluate(&e, &Vec::new()) {
        Outcome::Done(Value::Num(Number::Int(i))) => assert_eq!(i, 10),
        other => panic!("expected Done(10), got {:?}", other),
    }
}

#[test]
fn sum_promotes_on_intermediate_overflow() {
    let e = call(Operator::Sum, vec![ilit(i64::MAX), ilit(1), ilit(1)]);
    assert_eq!(as_f64(&run(&e).unwrap()), ((i64::MAX as f64) + 1f64) + 1f64);
}

#[test]
fn sum_mixes_integers_and_floats() {
    let e = call(Operator::Sum, vec![ilit(3), ilit(2), flit(3.4), ilit(5), flit(6.7)]);
    assert_eq!(as_f64(&run(&e).unwrap()), (((5f64) + 3.4f64) + 5f64) + 6.7f64);
}

#[test]
fn evaluation_hands_out_the_exact_request() {
    let e = call(Operator::Sin, vec![flit(1.0)]);
    assert_eq!(
        evaluate(&e, &Vec::new()),
        Outcome::Need(FloatReq::Unary(FloatUnary::Sin, Number::Float(1.0f64.to_bits())))
    );
    let e = call(Operator::Divide, vec![flit(1.0), flit(0.0)]);
    assert_eq!(
        evaluate(&e, &Vec::new()),
        Outcome::Need(FloatReq::Binary(
            FloatBinary::Divide,
            Number::Float(1.0f64.to_bits()),
            Number::Float(0.0f64.to_bits())
        ))
    );
}

#[test]
fn literal_passes_through() {
    let e = tlit("unchanged");
    match run(&e).unwrap() {
        Value::Text(s) => assert_eq!(s, "unchanged"),
        Value::Num(_) => panic!("expected text"),
    }
}

#[test]
fn replace_matches_standard_library() {
    assert_eq!(replace_text("banana", "an", "o"), "banana".replace("an", "o"));
    assert_eq!(replace_text("aaaa", "aa", "b"), "aaaa".replace("aa", "b"));
    assert_eq!(replace_text("ab", "", "-"), "ab".replace("", "-"));
    assert_eq!(replace_text("", "", "-"), "".replace("", "-"));
    assert_eq!(replace_text("abc", "xyz", "-"), "abc".replace("xyz", "-"));
    assert_eq!(replace_text("", "a", "-"), "".replace("a", "-"));
}
