//! The expression trees, their operators and the values they reduce to.

use vstd::prelude::*;

verus! {

/// Root of an expression: either sort of tree.
#[derive(Debug)]
pub enum Expr {
    ArithExpr(ArithExpr),
    BoolExpr(BoolExpr),
}

/// An integer-valued expression tree.
#[derive(Debug)]
pub enum ArithExpr {
    BinArithExpr { left: Box<ArithExpr>, right: Box<ArithExpr>, op: BinArithOp },
    IntLit(i64),
}

/// A boolean-valued expression tree; comparisons take integer subtrees.
#[derive(Debug)]
#[allow(inconsistent_fields)]
pub enum BoolExpr {
    ArithCmpExpr { left: Box<ArithExpr>, right: Box<ArithExpr>, op: ArithCmpOp },
    BinBoolExpr { left: Box<BoolExpr>, right: Box<BoolExpr>, op: BinLogicOp },
    NotExpr(Box<BoolExpr>),
    BoolLit(bool),
}

/// Binary operators on integers.
#[derive(Clone, Copy, Debug, PartialEq, Eq, Structural)]
pub enum BinArithOp {
    AddOp,
    SubOp,
    MulOp,
    /// Division rounding toward zero.
    IntDivOp,
}

/// Comparisons of two integers.
#[derive(Clone, Copy, Debug, PartialEq, Eq, Structural)]
pub enum ArithCmpOp {
    LtOp,
    LteOp,
    GtOp,
    GteOp,
    ArithEqOp,
    ArithNeqOp,
}

/// Binary operators on booleans.
#[derive(Clone, Copy, Debug, PartialEq, Eq, Structural)]
pub enum BinLogicOp {
    AndOp,
    OrOp,
    BoolEqOp,
    BoolNeqOp,
}

/// The scalar that an expression reduces to.
#[derive(Clone, Copy, Debug, PartialEq, Eq, Structural)]
pub enum Value {
    BoolValue(bool),
    IntValue(i64),
}

/// Why an evaluation was abandoned.
#[derive(Clone, Copy, Debug, PartialEq, Eq, Structural)]
pub enum EvalError {
    /// The right operand of an integer division was zero.
    DivisionByZero,
    /// A result fell outside the range of `i64`.
    ArithmeticOverflow,
}

} // verus!
