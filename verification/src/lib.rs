//! A small recursive expression-evaluation engine.
//!
//! An expression is a tree of literal values and function-call nodes
//! ([`ast::Expr`]). Evaluation walks the tree depth-first, resolves every
//! argument to a concrete value, checks the operator's arity and operand
//! kinds, and applies the operator ([`eval::evaluate`]).
//!
//! Numbers are either exact machine integers or IEEE-754 doubles. A double
//! is carried as its bit pattern (`u64`); the evaluator itself performs no
//! floating-point arithmetic. Whenever an operation must be done in floating
//! point — an operand is already a double, an integer operation overflows or
//! divides inexactly, or the operator is inherently non-integral — the
//! evaluator stops and hands the caller a [`ast::FloatReq`] describing the
//! one operation it needs. The caller computes it (a few lines of `f64`
//! arithmetic), appends the result bits to the answer list, and calls again.
//! All decisions — evaluation order, coercion, arity and kind checking,
//! error reporting, exact integer arithmetic, text replacement — stay inside
//! the verified library, and the delegation order itself is part of the
//! proved contracts.

pub mod ast;
pub mod eval;
pub mod laws;
pub mod semantics;
pub mod text;
