//! Meaning of an expression tree, and the evaluators that compute it.
//!
//! Evaluation is strict and post-order: both children of a node are reduced,
//! left before right, before its operator is applied. The first failure met
//! in that order ends the evaluation of the whole tree.

use vstd::prelude::*;

use crate::ast::{ArithCmpOp, ArithExpr, BinArithOp, BinLogicOp, BoolExpr, EvalError, Expr, Value};

verus! {

/// Whether a mathematical integer can be held in an `i64`.
pub open spec fn fits_i64(v: int) -> bool {
    i64::MIN <= v <= i64::MAX
}

/// Quotient of `x` by a nonzero `d`, rounded toward zero.
pub open spec fn truncated_quotient(x: int, d: int) -> int
    recommends
        d != 0,
{
    let q: int = vstd::math::abs(x) as int / vstd::math::abs(d) as int;
    if (x < 0) == (d < 0) {
        q
    } else {
        -q
    }
}

/// An exact integer result, or overflow when it leaves the `i64` range.
pub open spec fn within_range(v: int) -> Result<i64, EvalError> {
    if fits_i64(v) {
        Ok(v as i64)
    } else {
        Err(EvalError::ArithmeticOverflow)
    }
}

/// What `op` makes of two integer operands.
pub open spec fn arith_op_value(op: BinArithOp, l: i64, r: i64) -> Result<i64, EvalError> {
    match op {
        BinArithOp::AddOp => within_range(l + r),
        BinArithOp::SubOp => within_range(l - r),
        BinArithOp::MulOp => within_range(l * r),
        BinArithOp::IntDivOp => if r == 0 {
            Err(EvalError::DivisionByZero)
        } else {
            within_range(truncated_quotient(l as int, r as int))
        },
    }
}

/// What `op` makes of two integers compared.
pub open spec fn cmp_op_value(op: ArithCmpOp, l: i64, r: i64) -> bool {
    match op {
        ArithCmpOp::LtOp => l < r,
        ArithCmpOp::LteOp => l <= r,
        ArithCmpOp::GtOp => l > r,
        ArithCmpOp::GteOp => l >= r,
        ArithCmpOp::ArithEqOp => l == r,
        ArithCmpOp::ArithNeqOp => l != r,
    }
}

/// What `op` makes of two booleans.
pub open spec fn logic_op_value(op: BinLogicOp, l: bool, r: bool) -> bool {
    match op {
        BinLogicOp::AndOp => l && r,
        BinLogicOp::OrOp => l || r,
        BinLogicOp::BoolEqOp => l == r,
        BinLogicOp::BoolNeqOp => l != r,
    }
}

/// The meaning of an arithmetic tree: its integer, or the first failure met
/// when reducing the left child before the right one.
pub open spec fn arith_value(e: ArithExpr) -> Result<i64, EvalError>
    decreases e,
{
    match e {
        ArithExpr::IntLit(n) => Ok(n),
        ArithExpr::BinArithExpr { left, right, op } => match arith_value(*left) {
            Err(k) => Err(k),
            Ok(l) => match arith_value(*right) {
                Err(k) => Err(k),
                Ok(r) => arith_op_value(op, l, r),
            },
        },
    }
}

/// The meaning of a boolean tree. Both operands of every binary node are
/// reduced, whatever the first of them is, so a failure on either side
/// is never skipped.
pub open spec fn bool_value(e: BoolExpr) -> Result<bool, EvalError>
    decreases e,
{
    match e {
        BoolExpr::BoolLit(b) => Ok(b),
        BoolExpr::NotExpr(inner) => match bool_value(*inner) {
            Err(k) => Err(k),
            Ok(b) => Ok(!b),
        },
        BoolExpr::ArithCmpExpr { left, right, op } => match arith_value(*left) {
            Err(k) => Err(k),
            Ok(l) => match arith_value(*right) {
                Err(k) => Err(k),
                Ok(r) => Ok(cmp_op_value(op, l, r)),
            },
        },
        BoolExpr::BinBoolExpr { left, right, op } => match bool_value(*left) {
            Err(k) => Err(k),
            Ok(l) => match bool_value(*right) {
                Err(k) => Err(k),
                Ok(r) => Ok(logic_op_value(op, l, r)),
            },
        },
    }
}

/// The meaning of an expression of either sort, tagged with its sort.
pub open spec fn expr_value(e: Expr) -> Result<Value, EvalError> {
    match e {
        Expr::ArithExpr(a) => match arith_value(a) {
            Err(k) => Err(k),
            Ok(n) => Ok(Value::IntValue(n)),
        },
        Expr::BoolExpr(b) => match bool_value(b) {
            Err(k) => Err(k),
            Ok(v) => Ok(Value::BoolValue(v)),
        },
    }
}

/// Applies an integer operator, reporting overflow and division by zero.
fn apply_arith_op(op: BinArithOp, l: i64, r: i64) -> (res: Result<i64, EvalError>)
    ensures
        res == arith_op_value(op, l, r),
{
    let checked = match op {
        BinArithOp::AddOp => l.checked_add(r),
        BinArithOp::SubOp => l.checked_sub(r),
        BinArithOp::MulOp => l.checked_mul(r),
        BinArithOp::IntDivOp => {
            if r == 0 {
                return Err(EvalError::DivisionByZero);
            }
            l.checked_div(r)
        },
    };
    match checked {
        Some(v) => Ok(v),
        None => Err(EvalError::ArithmeticOverflow),
    }
}

/// Compares two integers.
fn apply_cmp_op(op: ArithCmpOp, l: i64, r: i64) -> (res: bool)
    ensures
        res == cmp_op_value(op, l, r),
{
    match op {
        ArithCmpOp::LtOp => l < r,
        ArithCmpOp::LteOp => l <= r,
        ArithCmpOp::GtOp => l > r,
        ArithCmpOp::GteOp => l >= r,
        ArithCmpOp::ArithEqOp => l == r,
        ArithCmpOp::ArithNeqOp => l != r,
    }
}

/// Combines two booleans.
fn apply_logic_op(op: BinLogicOp, l: bool, r: bool) -> (res: bool)
    ensures
        res == logic_op_value(op, l, r),
{
    match op {
        BinLogicOp::AndOp => l && r,
        BinLogicOp::OrOp => l || r,
        BinLogicOp::BoolEqOp => l == r,
        BinLogicOp::BoolNeqOp => l != r,
    }
}

/// Reduces an arithmetic tree to its integer, or to the first failure met.
pub fn eval_arith_expr(arith_expr: ArithExpr) -> (res: Result<i64, EvalError>)
    ensures
        res == arith_value(arith_expr),
    decreases arith_expr,
{
    match arith_expr {
        ArithExpr::BinArithExpr { left, right, op } => {
            let l = eval_arith_expr(*left)?;
            let r = eval_arith_expr(*right)?;
            apply_arith_op(op, l, r)
        },
        ArithExpr::IntLit(num) => Ok(num),
    }
}

/// Reduces a boolean tree to its truth value, or to the first failure met.
/// Both operands of a logical operator are always reduced.
pub fn eval_bool_expr(bool_expr: BoolExpr) -> (res: Result<bool, EvalError>)
    ensures
        res == bool_value(bool_expr),
    decreases bool_expr,
{
    match bool_expr {
        BoolExpr::ArithCmpExpr { left, right, op } => {
            let l = eval_arith_expr(*left)?;
            let r = eval_arith_expr(*right)?;
            Ok(apply_cmp_op(op, l, r))
        },
        BoolExpr::BinBoolExpr { left, right, op } => {
            let l = eval_bool_expr(*left)?;
            let r = eval_bool_expr(*right)?;
            Ok(apply_logic_op(op, l, r))
        },
        BoolExpr::NotExpr(inner) => {
            let b = eval_bool_expr(*inner)?;
            Ok(!b)
        },
        BoolExpr::BoolLit(boolean) => Ok(boolean),
    }
}

/// Reduces an expression of either sort to a value of the same sort.
pub fn eval(expr: Expr) -> (res: Result<Value, EvalError>)
    ensures
        res == expr_value(expr),
        res matches Ok(v) ==> (v is IntValue <==> expr is ArithExpr),
{
    match expr {
        Expr::ArithExpr(e) => {
            let n = eval_arith_expr(e)?;
            Ok(Value::IntValue(n))
        },
        Expr::BoolExpr(e) => {
            let b = eval_bool_expr(e)?;
            Ok(Value::BoolValue(b))
        },
    }
}

} // verus!
