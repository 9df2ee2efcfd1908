use fusequery::datablocks::{DataBlock, DataField, DataSchema};
use fusequery::datavalues::{
    DataArray, DataColumnarValue, DataType, DataValue, DataValueArithmeticOperator,
};
use fusequery::error::FuseQueryError;
use fusequery::functions::{ArithmeticFunction, Function};

fn block(a: Vec<i64>, b: Vec<i64>) -> DataBlock {
    let schema = DataSchema::new(vec![
        DataField::new("a".to_string(), DataType::Int64, false),
        DataField::new("b".to_string(), DataType::Int64, true),
    ]);
    DataBlock::create(schema, vec![DataArray::Int64(a), DataArray::Int64(b)]).unwrap()
}

fn column(index: usize) -> Function {
    Function::Column { index, saved: None }
}

fn literal(v: DataValue) -> Function {
    Function::Literal { value: v, saved: None }
}

fn arith(op: DataValueArithmeticOperator, l: Function, r: Function) -> Function {
    ArithmeticFunction::try_create(op, &[l, r]).unwrap()
}

fn as_arith(f: &mut Function) -> &mut ArithmeticFunction {
    match f {
        Function::Arithmetic(a) => a,
        _ => panic!("not an arithmetic node"),
    }
}

#[test]
fn result_before_eval_is_unevaluated() {
    let mut f = arith(DataValueArithmeticOperator::Add, column(0), column(1));
    assert_eq!(f.result(), Err(FuseQueryError::Unevaluated));
    assert_eq!(as_arith(&mut f).result(), Err(FuseQueryError::Unevaluated));
}

#[test]
fn eval_then_result_has_batch_rows() {
    let b = block(vec![1, 2, 3], vec![10, 20, 30]);
    let mut f = arith(DataValueArithmeticOperator::Sub, column(1), column(0));
    assert_eq!(f.eval(&b), Ok(()));
    let v = f.result().unwrap();
    assert_eq!(v, DataColumnarValue::Array(DataArray::Int64(vec![9, 18, 27])));
    assert_eq!(v.to_array(b.num_rows()).unwrap().len(), 3);
}

#[test]
fn constant_result_broadcasts_to_rows() {
    let b = block(vec![1, 2], vec![3, 4]);
    let mut f = arith(
        DataValueArithmeticOperator::Mul,
        literal(DataValue::Int64(6)),
        literal(DataValue::Int64(7)),
    );
    f.eval(&b).unwrap();
    let v = f.result().unwrap();
    assert_eq!(v, DataColumnarValue::Constant(DataValue::Int64(42)));
    assert_eq!(v.to_array(2), Ok(DataArray::Int64(vec![42, 42])));
}

#[test]
fn saved_is_overwritten_by_each_eval() {
    let mut f = arith(DataValueArithmeticOperator::Add, column(0), literal(DataValue::Int64(1)));
    f.eval(&block(vec![1], vec![0])).unwrap();
    f.eval(&block(vec![5, 6], vec![0, 0])).unwrap();
    assert_eq!(f.result(), Ok(DataColumnarValue::Array(DataArray::Int64(vec![6, 7]))));
}

#[test]
fn copies_start_unevaluated() {
    let mut f = arith(DataValueArithmeticOperator::Add, column(0), column(1));
    f.eval(&block(vec![1], vec![2])).unwrap();
    let copy = f.fresh_copy();
    assert_eq!(copy.result(), Err(FuseQueryError::Unevaluated));
    assert_eq!(f.result(), Ok(DataColumnarValue::Array(DataArray::Int64(vec![3]))));
    // building from an evaluated child takes a fresh copy of it
    let g = arith(DataValueArithmeticOperator::Div, f, column(0));
    match g {
        Function::Arithmetic(a) => assert_eq!(a.left.result(), Err(FuseQueryError::Unevaluated)),
        _ => panic!("not an arithmetic node"),
    }
}

#[test]
fn eval_division_truncates_and_fails_on_zero() {
    let mut f = arith(DataValueArithmeticOperator::Div, column(0), column(1));
    f.eval(&block(vec![7, -7], vec![2, 2])).unwrap();
    assert_eq!(f.result(), Ok(DataColumnarValue::Array(DataArray::Int64(vec![3, -3]))));
    let r = f.eval(&block(vec![1, 2], vec![1, 0]));
    assert_eq!(r, Err(FuseQueryError::ArithmeticFailure(DataValueArithmeticOperator::Div)));
}

#[test]
fn eval_child_error_propagates() {
    let mut f = arith(
        DataValueArithmeticOperator::Add,
        column(0),
        arith(DataValueArithmeticOperator::Mul, column(9), column(0)),
    );
    assert_eq!(f.eval(&block(vec![1], vec![1])), Err(FuseQueryError::ColumnOutOfRange(9)));
}

#[test]
fn arithmetic_try_create_needs_two_arguments() {
    let r = ArithmeticFunction::try_create(DataValueArithmeticOperator::Add, &[column(0)]);
    assert!(matches!(r, Err(FuseQueryError::NotEnoughArguments(1))));
}

#[test]
fn arithmetic_names() {
    let ops = [
        (DataValueArithmeticOperator::Add, "AddFunction"),
        (DataValueArithmeticOperator::Sub, "SubFunction"),
        (DataValueArithmeticOperator::Mul, "MulFunction"),
        (DataValueArithmeticOperator::Div, "DivFunction"),
    ];
    for (op, name) in ops {
        let mut f = arith(op, column(0), column(1));
        assert_eq!(f.name(), name);
        assert_eq!(as_arith(&mut f).name(), name);
    }
    assert_eq!(column(0).name(), "ColumnFunction");
    assert_eq!(literal(DataValue::Boolean(true)).name(), "LiteralFunction");
    assert_eq!(Function::Count { saved: None }.name(), "CountFunction");
}

#[test]
fn return_type_follows_left_child() {
    let b = block(vec![1], vec![2]);
    let mut f = arith(DataValueArithmeticOperator::Add, literal(DataValue::UInt64(1)), column(0));
    assert_eq!(f.return_type(b.schema()), Ok(DataType::UInt64));
    assert_eq!(as_arith(&mut f).return_type(b.schema()), Ok(DataType::UInt64));
    assert_eq!(column(1).return_type(b.schema()), Ok(DataType::Int64));
    assert_eq!(column(5).return_type(b.schema()), Err(FuseQueryError::ColumnOutOfRange(5)));
}

#[test]
fn arithmetic_is_never_nullable() {
    let b = block(vec![1], vec![2]);
    let mut f = arith(DataValueArithmeticOperator::Add, column(1), column(1));
    assert_eq!(column(1).nullable(b.schema()), Ok(true));
    assert_eq!(f.nullable(b.schema()), Ok(false));
    assert_eq!(as_arith(&mut f).nullable(b.schema()), Ok(false));
}

#[test]
fn aggregator_classification() {
    assert!(Function::Count { saved: None }.is_aggregator());
    assert!(!column(0).is_aggregator());
    let f = arith(DataValueArithmeticOperator::Add, column(0), Function::Count { saved: None });
    assert!(f.is_aggregator());
}

#[test]
fn count_gives_row_count() {
    let mut f = Function::Count { saved: None };
    f.eval(&block(vec![1, 2, 3, 4], vec![0, 0, 0, 0])).unwrap();
    assert_eq!(f.result(), Ok(DataColumnarValue::Constant(DataValue::UInt64(4))));
}
