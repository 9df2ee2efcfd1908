use vstd::prelude::*;

use crate::datavalues::{DataType, DataValueArithmeticOperator};

verus! {

/// The errors of expression evaluation and of building processors.
#[derive(Clone, Debug, PartialEq, Eq)]
pub enum FuseQueryError {
    /// A function's result was read before any successful evaluation.
    Unevaluated,
    /// A projection was given an aggregate expression; holds the function's name.
    AggregateInProjection(String),
    /// The arithmetic kernel got operands of types it cannot combine.
    TypeMismatch(DataValueArithmeticOperator, DataType, DataType),
    /// Some row overflowed or divided by zero.
    ArithmeticFailure(DataValueArithmeticOperator),
    /// A column had another row count than the one asked for (expected, actual).
    ShapeMismatch(usize, usize),
    /// A column reference beyond the batch's columns.
    ColumnOutOfRange(usize),
    /// A batch was built with another number of columns than its schema has
    /// (columns, fields).
    ColumnCountMismatch(usize, usize),
    /// A batch was built from columns of different row counts.
    RowCountMismatch,
    /// A binary function was built from fewer than two arguments.
    NotEnoughArguments(usize),
}

} // verus!
