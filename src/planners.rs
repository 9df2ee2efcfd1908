use vstd::prelude::*;

use crate::datavalues::{DataValue, DataValueArithmeticOperator};
use crate::functions::{ArithmeticFunction, Function};

verus! {

/// A typed expression node of a query plan.
#[derive(Debug)]
pub enum ExpressionPlan {
    /// The input column at the given position.
    Field(usize),
    /// A constant.
    Constant(DataValue),
    /// An arithmetic operator over two sub-expressions.
    BinaryExpression {
        op: DataValueArithmeticOperator,
        left: Box<ExpressionPlan>,
        right: Box<ExpressionPlan>,
    },
    /// The row count aggregate.
    Count,
}

impl ExpressionPlan {
    /// The function tree that the node compiles to, with every saved slot empty.
    pub open spec fn to_function_spec(self) -> Function
        decreases self,
    {
        match self {
            ExpressionPlan::Field(index) => Function::Column { index, saved: None },
            ExpressionPlan::Constant(value) => Function::Literal { value, saved: None },
            ExpressionPlan::BinaryExpression { op, left, right } => Function::Arithmetic(
                ArithmeticFunction {
                    op,
                    left: Box::new(left.to_function_spec()),
                    right: Box::new(right.to_function_spec()),
                    saved: None,
                },
            ),
            ExpressionPlan::Count => Function::Count { saved: None },
        }
    }

    /// Compiles the node into a function tree.
    pub fn to_function(&self) -> (r: Function)
        ensures
            r == self.to_function_spec(),
            r.reset() == r,
        decreases self,
    {
        let r = match self {
            ExpressionPlan::Field(index) => Function::Column { index: *index, saved: None },
            ExpressionPlan::Constant(value) => Function::Literal { value: *value, saved: None },
            ExpressionPlan::BinaryExpression { op, left, right } => Function::Arithmetic(
                ArithmeticFunction {
                    op: *op,
                    left: Box::new(left.to_function()),
                    right: Box::new(right.to_function()),
                    saved: None,
                },
            ),
            ExpressionPlan::Count => Function::Count { saved: None },
        };
        r
    }
}

} // verus!
