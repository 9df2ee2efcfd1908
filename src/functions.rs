use vstd::prelude::*;

use crate::datablocks::{BlockModel, DataBlock, DataSchema, FieldModel};
use crate::datavalues::{
    broadcast, columnar_op, columnar_result_view, data_array_arithmetic_op, ColumnarModel, DataColumnarValue,
    DataType, DataValue, DataValueArithmeticOperator,
};
use crate::error::FuseQueryError;

verus! {

/// A node of a compiled scalar-expression tree. Each node keeps, in `saved`, the value
/// of its most recent successful evaluation.
#[derive(Debug)]
pub enum Function {
    /// The batch's column at `index`.
    Column { index: usize, saved: Option<DataColumnarValue> },
    /// A constant, broadcast to every row.
    Literal { value: DataValue, saved: Option<DataColumnarValue> },
    /// An arithmetic operator over two child expressions.
    Arithmetic(ArithmeticFunction),
    /// The aggregate that counts the rows of a batch.
    Count { saved: Option<DataColumnarValue> },
}

/// An arithmetic operator applied to two child expressions.
#[derive(Debug)]
pub struct ArithmeticFunction {
    pub op: DataValueArithmeticOperator,
    pub left: Box<Function>,
    pub right: Box<Function>,
    pub saved: Option<DataColumnarValue>,
}

/// The diagnostic label of an arithmetic operator.
pub open spec fn arithmetic_name(op: DataValueArithmeticOperator) -> Seq<char> {
    match op {
        DataValueArithmeticOperator::Add => "AddFunction"@,
        DataValueArithmeticOperator::Sub => "SubFunction"@,
        DataValueArithmeticOperator::Mul => "MulFunction"@,
        DataValueArithmeticOperator::Div => "DivFunction"@,
    }
}

/// The view of an optional saved value.
pub open spec fn saved_model(s: Option<DataColumnarValue>) -> Option<ColumnarModel> {
    match s {
        Some(v) => Some(v@),
        None => None,
    }
}

impl Function {
    /// The same tree with every saved slot empty.
    pub open spec fn reset(self) -> Function
        decreases self,
    {
        match self {
            Function::Column { index, .. } => Function::Column { index, saved: None },
            Function::Literal { value, .. } => Function::Literal { value, saved: None },
            Function::Arithmetic(a) => Function::Arithmetic(
                ArithmeticFunction {
                    op: a.op,
                    left: Box::new(a.left.reset()),
                    right: Box::new(a.right.reset()),
                    saved: None,
                },
            ),
            Function::Count { .. } => Function::Count { saved: None },
        }
    }

    /// The value saved by the node's last successful evaluation, if any.
    pub open spec fn saved(self) -> Option<ColumnarModel> {
        match self {
            Function::Column { saved, .. } => saved_model(saved),
            Function::Literal { saved, .. } => saved_model(saved),
            Function::Arithmetic(a) => saved_model(a.saved),
            Function::Count { saved } => saved_model(saved),
        }
    }

    /// What evaluating the tree against a batch gives: children first, left before
    /// right, the first error aborting the whole tree.
    pub open spec fn eval_spec(self, b: BlockModel) -> Result<ColumnarModel, FuseQueryError>
        decreases self,
    {
        match self {
            Function::Column { index, .. } => if index < b.columns.len() {
                Ok(ColumnarModel::Array(b.columns[index as int]))
            } else {
                Err(FuseQueryError::ColumnOutOfRange(index))
            },
            Function::Literal { value, .. } => Ok(ColumnarModel::Constant(value)),
            Function::Arithmetic(a) => match a.left.eval_spec(b) {
                Err(e) => Err(e),
                Ok(l) => match a.right.eval_spec(b) {
                    Err(e) => Err(e),
                    Ok(r) => columnar_op(a.op, l, r),
                },
            },
            Function::Count { .. } => Ok(
                ColumnarModel::Constant(DataValue::UInt64(b.num_rows() as u64)),
            ),
        }
    }

    /// The node's output type against an input schema; an arithmetic node takes the
    /// type of its left child.
    pub open spec fn return_type_spec(self, schema: Seq<FieldModel>) -> Result<
        DataType,
        FuseQueryError,
    >
        decreases self,
    {
        match self {
            Function::Column { index, .. } => if index < schema.len() {
                Ok(schema[index as int].data_type)
            } else {
                Err(FuseQueryError::ColumnOutOfRange(index))
            },
            Function::Literal { value, .. } => Ok(value.spec_data_type()),
            Function::Arithmetic(a) => a.left.return_type_spec(schema),
            Function::Count { .. } => Ok(DataType::UInt64),
        }
    }

    /// Whether the node's output may hold nulls; only a column reference may.
    pub open spec fn nullable_spec(self, schema: Seq<FieldModel>) -> Result<bool, FuseQueryError> {
        match self {
            Function::Column { index, .. } => if index < schema.len() {
                Ok(schema[index as int].nullable)
            } else {
                Err(FuseQueryError::ColumnOutOfRange(index))
            },
            _ => Ok(false),
        }
    }

    /// Whether the tree holds an aggregate anywhere.
    pub open spec fn spec_is_aggregator(self) -> bool
        decreases self,
    {
        match self {
            Function::Arithmetic(a) => a.left.spec_is_aggregator()
                || a.right.spec_is_aggregator(),
            Function::Count { .. } => true,
            _ => false,
        }
    }

    /// The node's diagnostic label.
    pub open spec fn spec_name(self) -> Seq<char> {
        match self {
            Function::Column { .. } => "ColumnFunction"@,
            Function::Literal { .. } => "LiteralFunction"@,
            Function::Arithmetic(a) => arithmetic_name(a.op),
            Function::Count { .. } => "CountFunction"@,
        }
    }
}

/// The view of the outcome of reading a saved value.
pub open spec fn result_spec(saved: Option<ColumnarModel>) -> Result<ColumnarModel, FuseQueryError> {
    match saved {
        Some(v) => Ok(v),
        None => Err(FuseQueryError::Unevaluated),
    }
}

/// The unit result that stands for an evaluation's outcome.
pub open spec fn eval_outcome(r: Result<ColumnarModel, FuseQueryError>) -> Result<(), FuseQueryError> {
    match r {
        Ok(_) => Ok(()),
        Err(e) => Err(e),
    }
}

impl Function {
    /// An independent copy of the tree, with every saved slot empty.
    pub fn fresh_copy(&self) -> (r: Function)
        ensures
            r == self.reset(),
        decreases self,
    {
        match self {
            Function::Column { index, .. } => Function::Column { index: *index, saved: None },
            Function::Literal { value, .. } => Function::Literal { value: *value, saved: None },
            Function::Arithmetic(a) => Function::Arithmetic(a.fresh_copy()),
            Function::Count { .. } => Function::Count { saved: None },
        }
    }

    /// Evaluates the tree against a batch, children first, and saves each node's value.
    pub fn eval(&mut self, block: &DataBlock) -> (r: Result<(), FuseQueryError>)
        ensures
            final(self).reset() == old(self).reset(),
            r == eval_outcome(old(self).eval_spec(block@)),
            r is Ok ==> final(self).saved() == Some(old(self).eval_spec(block@)->Ok_0),
        decreases *old(self),
    {
        match self {
            Function::Column { index, saved } => {
                if *index < block.num_columns() {
                    *saved = Some(DataColumnarValue::Array(block.column(*index).duplicate()));
                    Ok(())
                } else {
                    Err(FuseQueryError::ColumnOutOfRange(*index))
                }
            },
            Function::Literal { value, saved } => {
                *saved = Some(DataColumnarValue::Constant(*value));
                Ok(())
            },
            Function::Arithmetic(a) => a.eval(block),
            Function::Count { saved } => {
                let n = block.num_rows();
                *saved = Some(DataColumnarValue::Constant(DataValue::UInt64(n as u64)));
                Ok(())
            },
        }
    }

    /// The value of the last successful evaluation; `Unevaluated` if there was none.
    pub fn result(&self) -> (r: Result<DataColumnarValue, FuseQueryError>)
        ensures
            columnar_result_view(r) == result_spec(self.saved()),
    {
        let saved = match self {
            Function::Column { saved, .. } => saved,
            Function::Literal { saved, .. } => saved,
            Function::Arithmetic(a) => &a.saved,
            Function::Count { saved } => saved,
        };
        match saved {
            Some(v) => Ok(v.duplicate()),
            None => Err(FuseQueryError::Unevaluated),
        }
    }

    /// The node's output type against an input schema.
    pub fn return_type(&self, input_schema: &DataSchema) -> (r: Result<DataType, FuseQueryError>)
        ensures
            r == self.return_type_spec(input_schema@),
        decreases self,
    {
        match self {
            Function::Column { index, .. } => {
                if *index < input_schema.fields.len() {
                    Ok(input_schema.fields[*index].data_type)
                } else {
                    Err(FuseQueryError::ColumnOutOfRange(*index))
                }
            },
            Function::Literal { value, .. } => Ok(value.data_type()),
            Function::Arithmetic(a) => a.return_type(input_schema),
            Function::Count { .. } => Ok(DataType::UInt64),
        }
    }

    /// Whether the node's output may hold nulls.
    pub fn nullable(&self, input_schema: &DataSchema) -> (r: Result<bool, FuseQueryError>)
        ensures
            r == self.nullable_spec(input_schema@),
    {
        match self {
            Function::Column { index, .. } => {
                if *index < input_schema.fields.len() {
                    Ok(input_schema.fields[*index].nullable)
                } else {
                    Err(FuseQueryError::ColumnOutOfRange(*index))
                }
            },
            Function::Arithmetic(a) => a.nullable(input_schema),
            _ => Ok(false),
        }
    }

    /// Whether the tree holds an aggregate anywhere.
    pub fn is_aggregator(&self) -> (r: bool)
        ensures
            r == self.spec_is_aggregator(),
        decreases self,
    {
        match self {
            Function::Arithmetic(a) => a.left.is_aggregator() || a.right.is_aggregator(),
            Function::Count { .. } => true,
            _ => false,
        }
    }

    /// The node's diagnostic label.
    pub fn name(&self) -> (r: &'static str)
        ensures
            r@ == self.spec_name(),
    {
        match self {
            Function::Column { .. } => "ColumnFunction",
            Function::Literal { .. } => "LiteralFunction",
            Function::Arithmetic(a) => a.name(),
            Function::Count { .. } => "CountFunction",
        }
    }
}

impl ArithmeticFunction {
    /// Builds the node `args[0] op args[1]` from fresh copies of the first two
    /// arguments; fails with fewer than two.
    pub fn try_create(op: DataValueArithmeticOperator, args: &[Function]) -> (r: Result<
        Function,
        FuseQueryError,
    >)
        ensures
            args@.len() < 2 ==> r == Err::<Function, FuseQueryError>(
                FuseQueryError::NotEnoughArguments(args@.len() as usize),
            ),
            args@.len() >= 2 ==> r == Ok::<Function, FuseQueryError>(
                Function::Arithmetic(
                    (ArithmeticFunction {
                        op,
                        left: Box::new(args@[0].reset()),
                        right: Box::new(args@[1].reset()),
                        saved: None,
                    }),
                ),
            ),
    {
        if args.len() < 2 {
            return Err(FuseQueryError::NotEnoughArguments(args.len()));
        }
        Ok(
            Function::Arithmetic(
                ArithmeticFunction {
                    op,
                    left: Box::new(args[0].fresh_copy()),
                    right: Box::new(args[1].fresh_copy()),
                    saved: None,
                },
            ),
        )
    }

    /// An independent copy, with every saved slot empty.
    pub fn fresh_copy(&self) -> (r: ArithmeticFunction)
        ensures
            Function::Arithmetic(r) == Function::Arithmetic(*self).reset(),
        decreases self,
    {
        ArithmeticFunction {
            op: self.op,
            left: Box::new(self.left.fresh_copy()),
            right: Box::new(self.right.fresh_copy()),
            saved: None,
        }
    }

    /// The operator's diagnostic label.
    pub fn name(&self) -> (r: &'static str)
        ensures
            r@ == arithmetic_name(self.op),
    {
        match self.op {
            DataValueArithmeticOperator::Add => "AddFunction",
            DataValueArithmeticOperator::Sub => "SubFunction",
            DataValueArithmeticOperator::Mul => "MulFunction",
            DataValueArithmeticOperator::Div => "DivFunction",
        }
    }

    /// The output type: that of the left child.
    pub fn return_type(&self, input_schema: &DataSchema) -> (r: Result<DataType, FuseQueryError>)
        ensures
            r == self.left.return_type_spec(input_schema@),
        decreases self,
    {
        self.left.return_type(input_schema)
    }

    /// Arithmetic output holds no nulls.
    pub fn nullable(&self, _input_schema: &DataSchema) -> (r: Result<bool, FuseQueryError>)
        ensures
            r == Ok::<bool, FuseQueryError>(false),
    {
        Ok(false)
    }

    /// Evaluates both children against the batch, left first, then applies the
    /// operator to their values and saves the outcome.
    pub fn eval(&mut self, block: &DataBlock) -> (r: Result<(), FuseQueryError>)
        ensures
            Function::Arithmetic(*final(self)).reset() == Function::Arithmetic(*old(self)).reset(),
            r == eval_outcome(Function::Arithmetic(*old(self)).eval_spec(block@)),
            r is Ok ==> saved_model(final(self).saved) == Some(
                Function::Arithmetic(*old(self)).eval_spec(block@)->Ok_0,
            ),
        decreases *old(self),
    {
        match self.left.eval(block) {
            Ok(()) => {},
            Err(e) => return Err(e),
        }
        match self.right.eval(block) {
            Ok(()) => {},
            Err(e) => return Err(e),
        }
        let l = match self.left.result() {
            Ok(v) => v,
            Err(e) => return Err(e),
        };
        let r = match self.right.result() {
            Ok(v) => v,
            Err(e) => return Err(e),
        };
        match data_array_arithmetic_op(self.op, &l, &r) {
            Ok(v) => {
                self.saved = Some(v);
                Ok(())
            },
            Err(e) => Err(e),
        }
    }

    /// The value of the last successful evaluation; `Unevaluated` if there was none.
    pub fn result(&self) -> (r: Result<DataColumnarValue, FuseQueryError>)
        ensures
            columnar_result_view(r) == result_spec(saved_model(self.saved)),
    {
        match &self.saved {
            Some(v) => Ok(v.duplicate()),
            None => Err(FuseQueryError::Unevaluated),
        }
    }
}

/// A column value that stands for `n` rows: a constant, or an array of `n` rows.
pub open spec fn fits_rows(v: ColumnarModel, n: nat) -> bool {
    match v {
        ColumnarModel::Constant(_) => true,
        ColumnarModel::Array(a) => a.len() == n,
    }
}

proof fn lemma_columnar_op_fits(
    op: DataValueArithmeticOperator,
    l: ColumnarModel,
    r: ColumnarModel,
    n: nat,
)
    requires
        fits_rows(l, n),
        fits_rows(r, n),
        columnar_op(op, l, r) is Ok,
    ensures
        fits_rows(columnar_op(op, l, r)->Ok_0, n),
{
}

/// A freshly built or copied tree has nothing saved, so reading its result fails
/// with `Unevaluated`.
pub proof fn lemma_fresh_is_unevaluated(f: Function)
    ensures
        f.reset().saved() is None,
        result_spec(f.reset().saved()) == Err::<ColumnarModel, FuseQueryError>(
            FuseQueryError::Unevaluated,
        ),
{
}

/// After a successful evaluation against a well-formed batch, the value converts to
/// an array of exactly the batch's row count.
pub proof fn lemma_eval_fits_rows(f: Function, b: BlockModel)
    requires
        b.wf(),
        f.eval_spec(b) is Ok,
    ensures
        fits_rows(f.eval_spec(b)->Ok_0, b.num_rows()),
        f.eval_spec(b)->Ok_0.to_array(b.num_rows()) is Ok,
        f.eval_spec(b)->Ok_0.to_array(b.num_rows())->Ok_0.len() == b.num_rows(),
    decreases f,
{
    match f {
        Function::Arithmetic(a) => {
            lemma_eval_fits_rows(*a.left, b);
            lemma_eval_fits_rows(*a.right, b);
            lemma_columnar_op_fits(
                a.op,
                a.left.eval_spec(b)->Ok_0,
                a.right.eval_spec(b)->Ok_0,
                b.num_rows(),
            );
        },
        _ => {},
    }
    let v = f.eval_spec(b)->Ok_0;
    match v {
        ColumnarModel::Constant(c) => {
            let a = broadcast(c, b.num_rows());
            assert(a.len() == b.num_rows());
        },
        _ => {},
    }
}

/// Evaluation depends on the tree alone, never on what its nodes saved before.
pub proof fn lemma_eval_ignores_saved(f: Function, b: BlockModel)
    ensures
        f.reset().eval_spec(b) == f.eval_spec(b),
    decreases f,
{
    match f {
        Function::Arithmetic(a) => {
            lemma_eval_ignores_saved(*a.left, b);
            lemma_eval_ignores_saved(*a.right, b);
        },
        _ => {},
    }
}

/// Emptying the saved slots twice is emptying them once.
pub proof fn lemma_reset_idempotent(f: Function)
    ensures
        f.reset().reset() == f.reset(),
    decreases f,
{
    match f {
        Function::Arithmetic(a) => {
            lemma_reset_idempotent(*a.left);
            lemma_reset_idempotent(*a.right);
        },
        _ => {},
    }
}

} // verus!
