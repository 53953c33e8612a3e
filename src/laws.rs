//! Laws that hold of every evaluation, stated over the meaning of trees.

use vstd::prelude::*;

use crate::ast::{ArithCmpOp, ArithExpr, BinArithOp, BinLogicOp, BoolExpr, EvalError, Expr};
use crate::eval::{
    arith_value, bool_value, cmp_op_value, expr_value, fits_i64, logic_op_value,
    truncated_quotient, within_range,
};

verus! {

/// The tree `l op r` over two integer literals.
pub open spec fn arith_of_literals(l: i64, r: i64, op: BinArithOp) -> ArithExpr {
    ArithExpr::BinArithExpr {
        left: Box::new(ArithExpr::IntLit(l)),
        right: Box::new(ArithExpr::IntLit(r)),
        op,
    }
}

/// An integer literal evaluates to its own value.
pub proof fn lemma_int_lit_value(n: i64)
    ensures
        arith_value(ArithExpr::IntLit(n)) == Ok::<i64, EvalError>(n),
{
}

/// A boolean literal evaluates to its own value.
pub proof fn lemma_bool_lit_value(b: bool)
    ensures
        bool_value(BoolExpr::BoolLit(b)) == Ok::<bool, EvalError>(b),
{
}

/// Negating a literal yields the opposite truth value.
pub proof fn lemma_not_lit_value(b: bool)
    ensures
        bool_value(BoolExpr::NotExpr(Box::new(BoolExpr::BoolLit(b)))) == Ok::<bool, EvalError>(!b),
{
    reveal_with_fuel(bool_value, 2);
}

/// Negating a tree twice gives the tree's own meaning, failures included.
pub proof fn lemma_double_negation(e: BoolExpr)
    ensures
        bool_value(BoolExpr::NotExpr(Box::new(BoolExpr::NotExpr(Box::new(e))))) == bool_value(e),
{
    reveal_with_fuel(bool_value, 3);
}

/// Addition, subtraction and multiplication of two literals give the exact
/// mathematical result when it fits in an `i64`, and overflow otherwise.
pub proof fn lemma_native_arith(l: i64, r: i64)
    ensures
        arith_value(arith_of_literals(l, r, BinArithOp::AddOp)) == within_range(l + r),
        arith_value(arith_of_literals(l, r, BinArithOp::SubOp)) == within_range(l - r),
        arith_value(arith_of_literals(l, r, BinArithOp::MulOp)) == within_range(l * r),
        fits_i64(l + r) <==> arith_value(arith_of_literals(l, r, BinArithOp::AddOp)) is Ok,
        fits_i64(l - r) <==> arith_value(arith_of_literals(l, r, BinArithOp::SubOp)) is Ok,
        fits_i64(l * r) <==> arith_value(arith_of_literals(l, r, BinArithOp::MulOp)) is Ok,
{
    reveal_with_fuel(arith_value, 2);
}

/// Dividing by a right operand that evaluates to zero fails with
/// `DivisionByZero`, unless the left operand has already failed.
pub proof fn lemma_division_by_zero(left: ArithExpr, right: ArithExpr)
    requires
        arith_value(right) == Ok::<i64, EvalError>(0),
    ensures
        arith_value(ArithExpr::BinArithExpr { left: Box::new(left), right: Box::new(right), op: BinArithOp::IntDivOp })
            == match arith_value(left) {
                Err(k) => Err(k),
                Ok(_) => Err::<i64, EvalError>(EvalError::DivisionByZero),
            },
{
}

/// Division of two literals rounds toward zero: the quotient `q` leaves a
/// remainder `l - q * r` smaller in size than `r` and never of the opposite
/// sign to `l`. Only `i64::MIN / -1` overflows.
pub proof fn lemma_truncating_division(l: i64, r: i64)
    requires
        r != 0,
    ensures
        (l == i64::MIN && r == -1) <==> arith_value(arith_of_literals(l, r, BinArithOp::IntDivOp))
            == Err::<i64, EvalError>(EvalError::ArithmeticOverflow),
        !(l == i64::MIN && r == -1) <==> arith_value(arith_of_literals(l, r, BinArithOp::IntDivOp)) is Ok,
        arith_value(arith_of_literals(l, r, BinArithOp::IntDivOp)) matches Ok(q) ==> ({
            let rem = l - q * r;
            &&& vstd::math::abs(rem) < vstd::math::abs(r as int)
            &&& (rem == 0 || (rem < 0) == (l < 0))
        }),
{
    reveal_with_fuel(arith_value, 2);
    lemma_truncated_quotient_remainder(l as int, r as int);
    let q = truncated_quotient(l as int, r as int);
    if l == i64::MIN && r == -1 {
        assert(q == -(l as int));
    }
    if !(l == i64::MIN && r == -1) {
        assert(fits_i64(q)) by {
            lemma_truncated_quotient_bounded(l as int, r as int);
        }
    }
}

/// The remainder left by a truncated quotient.
proof fn lemma_truncated_quotient_remainder(x: int, d: int)
    requires
        d != 0,
    ensures
        ({
            let rem = x - truncated_quotient(x, d) * d;
            &&& vstd::math::abs(rem) < vstd::math::abs(d)
            &&& (rem == 0 || (rem < 0) == (x < 0))
        }),
{
    let ax = vstd::math::abs(x) as int;
    let ad = vstd::math::abs(d) as int;
    let q = ax / ad;
    vstd::arithmetic::div_mod::lemma_fundamental_div_mod(ax, ad);
    assert(0 <= ax % ad < ad) by {
        vstd::arithmetic::div_mod::lemma_mod_bound(ax, ad);
    }
    if x >= 0 && d > 0 {
        assert(x - q * d == ax % ad);
    } else if x >= 0 && d < 0 {
        assert(x - (-q) * d == ax % ad) by (nonlinear_arith)
            requires ax == x, ad == -d, ax == ad * q + ax % ad;
    } else if x < 0 && d > 0 {
        assert(x - (-q) * d == -(ax % ad)) by (nonlinear_arith)
            requires ax == -x, ad == d, ax == ad * q + ax % ad;
    } else {
        assert(x - q * d == -(ax % ad)) by (nonlinear_arith)
            requires ax == -x, ad == -d, ax == ad * q + ax % ad;
    }
}

/// A truncated quotient is no larger in size than the dividend.
proof fn lemma_truncated_quotient_bounded(x: int, d: int)
    requires
        d != 0,
    ensures
        vstd::math::abs(truncated_quotient(x, d)) <= vstd::math::abs(x),
{
    let ax = vstd::math::abs(x) as int;
    let ad = vstd::math::abs(d) as int;
    vstd::arithmetic::div_mod::lemma_div_is_ordered_by_denominator(ax, 1, ad);
    vstd::arithmetic::div_mod::lemma_div_basics(ax);
    vstd::arithmetic::div_mod::lemma_div_pos_is_pos(ax, ad);
}

/// Comparing two literals agrees with the native comparisons of `i64`.
pub proof fn lemma_native_comparisons(l: i64, r: i64)
    ensures
        bool_value(cmp_of_literals(l, r, ArithCmpOp::LtOp)) == Ok::<bool, EvalError>(l < r),
        bool_value(cmp_of_literals(l, r, ArithCmpOp::LteOp)) == Ok::<bool, EvalError>(l <= r),
        bool_value(cmp_of_literals(l, r, ArithCmpOp::GtOp)) == Ok::<bool, EvalError>(l > r),
        bool_value(cmp_of_literals(l, r, ArithCmpOp::GteOp)) == Ok::<bool, EvalError>(l >= r),
        bool_value(cmp_of_literals(l, r, ArithCmpOp::ArithEqOp)) == Ok::<bool, EvalError>(l == r),
        bool_value(cmp_of_literals(l, r, ArithCmpOp::ArithNeqOp)) == Ok::<bool, EvalError>(l != r),
{
    reveal_with_fuel(arith_value, 2);
}

/// The comparison `l op r` of two integer literals.
pub open spec fn cmp_of_literals(l: i64, r: i64, op: ArithCmpOp) -> BoolExpr {
    BoolExpr::ArithCmpExpr {
        left: Box::new(ArithExpr::IntLit(l)),
        right: Box::new(ArithExpr::IntLit(r)),
        op,
    }
}

/// Logical operators do not short-circuit: both operands are evaluated, so a
/// failing right operand makes the whole node fail even where the left one
/// alone would settle the truth value (`false` for `AndOp`, `true` for `OrOp`).
/// When both succeed the node combines them.
pub proof fn lemma_no_short_circuit(left: BoolExpr, right: BoolExpr, op: BinLogicOp)
    ensures
        ({
            let node = BoolExpr::BinBoolExpr { left: Box::new(left), right: Box::new(right), op };
            &&& (bool_value(left) matches Err(k) ==> bool_value(node) == Err::<bool, EvalError>(k))
            &&& (bool_value(left) is Ok ==> (bool_value(right) matches Err(k) ==> bool_value(node)
                == Err::<bool, EvalError>(k)))
            &&& (bool_value(left) matches Ok(a) ==> (bool_value(right) matches Ok(b) ==> bool_value(
                node) == Ok::<bool, EvalError>(logic_op_value(op, a, b))))
        }),
{
}

/// Evaluation is a function of the tree alone: two equal trees, such as the
/// same tree built twice, always give the same result.
pub proof fn lemma_evaluation_deterministic(e1: Expr, e2: Expr)
    requires
        e1 == e2,
    ensures
        expr_value(e1) == expr_value(e2),
{
}

} // verus!
