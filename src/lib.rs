//! A small evaluator for closed arithmetic and boolean expression trees.

pub mod ast;
pub mod eval;
pub mod laws;

pub use ast::{ArithCmpOp, ArithExpr, BinArithOp, BinLogicOp, BoolExpr, EvalError, Expr, Value};
pub use eval::{eval, eval_arith_expr, eval_bool_expr};
