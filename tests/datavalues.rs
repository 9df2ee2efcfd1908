use fusequery::datablocks::{DataBlock, DataField, DataSchema};
use fusequery::datavalues::{
    data_array_arithmetic_op, DataArray, DataColumnarValue, DataType, DataValue,
    DataValueArithmeticOperator,
};
use fusequery::error::FuseQueryError;
use fusequery::flights::{flight_result_to_str, FlightResult};

use DataValueArithmeticOperator::{Add, Div, Mul, Sub};

fn arr(v: Vec<i64>) -> DataColumnarValue {
    DataColumnarValue::Array(DataArray::Int64(v))
}

fn schema(n: usize) -> DataSchema {
    DataSchema::new((0..n).map(|i| DataField::new(format!("c{}", i), DataType::Int64, false)).collect())
}

#[test]
fn block_create_succeeds_on_matching_shape() {
    let b = DataBlock::create(
        schema(2),
        vec![DataArray::Int64(vec![1, 2]), DataArray::UInt64(vec![3, 4])],
    )
    .unwrap();
    assert_eq!(b.num_rows(), 2);
    assert_eq!(b.num_columns(), 2);
    let empty = DataBlock::create(schema(0), vec![]).unwrap();
    assert_eq!(empty.num_rows(), 0);
}

#[test]
fn block_create_column_count_mismatch() {
    let r = DataBlock::create(schema(2), vec![DataArray::Int64(vec![1])]);
    assert_eq!(r, Err(FuseQueryError::ColumnCountMismatch(1, 2)));
}

#[test]
fn block_create_row_count_mismatch() {
    let r = DataBlock::create(
        schema(2),
        vec![DataArray::Int64(vec![1, 2]), DataArray::Int64(vec![1])],
    );
    assert_eq!(r, Err(FuseQueryError::RowCountMismatch));
}

#[test]
fn kernel_each_operator() {
    let l = arr(vec![12, -7]);
    let r = arr(vec![5, 2]);
    assert_eq!(data_array_arithmetic_op(Add, &l, &r), Ok(arr(vec![17, -5])));
    assert_eq!(data_array_arithmetic_op(Sub, &l, &r), Ok(arr(vec![7, -9])));
    assert_eq!(data_array_arithmetic_op(Mul, &l, &r), Ok(arr(vec![60, -14])));
    assert_eq!(data_array_arithmetic_op(Div, &l, &r), Ok(arr(vec![2, -3])));
}

#[test]
fn kernel_unsigned_and_underflow() {
    let l = DataColumnarValue::Array(DataArray::UInt64(vec![5, 1]));
    let r = DataColumnarValue::Constant(DataValue::UInt64(1));
    assert_eq!(
        data_array_arithmetic_op(Sub, &l, &r),
        Ok(DataColumnarValue::Array(DataArray::UInt64(vec![4, 0])))
    );
    let two = DataColumnarValue::Constant(DataValue::UInt64(2));
    assert_eq!(data_array_arithmetic_op(Sub, &l, &two), Err(FuseQueryError::ArithmeticFailure(Sub)));
}

#[test]
fn kernel_constant_on_the_left() {
    let l = DataColumnarValue::Constant(DataValue::Int64(100));
    let r = arr(vec![1, 3]);
    assert_eq!(data_array_arithmetic_op(Sub, &l, &r), Ok(arr(vec![99, 97])));
}

#[test]
fn kernel_overflow_fails() {
    let l = arr(vec![i64::MAX]);
    let r = arr(vec![2]);
    assert_eq!(data_array_arithmetic_op(Mul, &l, &r), Err(FuseQueryError::ArithmeticFailure(Mul)));
    let min = arr(vec![i64::MIN]);
    let neg = arr(vec![-1]);
    assert_eq!(data_array_arithmetic_op(Div, &min, &neg), Err(FuseQueryError::ArithmeticFailure(Div)));
}

#[test]
fn kernel_type_mismatch() {
    let l = arr(vec![1]);
    let r = DataColumnarValue::Array(DataArray::UInt64(vec![1]));
    assert_eq!(
        data_array_arithmetic_op(Add, &l, &r),
        Err(FuseQueryError::TypeMismatch(Add, DataType::Int64, DataType::UInt64))
    );
    let t = DataColumnarValue::Constant(DataValue::Boolean(true));
    assert_eq!(
        data_array_arithmetic_op(Add, &t, &t),
        Err(FuseQueryError::TypeMismatch(Add, DataType::Boolean, DataType::Boolean))
    );
}

#[test]
fn kernel_length_mismatch() {
    let l = arr(vec![1, 2]);
    let r = arr(vec![1, 2, 3]);
    assert_eq!(data_array_arithmetic_op(Add, &l, &r), Err(FuseQueryError::ShapeMismatch(2, 3)));
}

#[test]
fn to_array_broadcasts_and_checks_length() {
    let c = DataColumnarValue::Constant(DataValue::Boolean(false));
    assert_eq!(c.to_array(3), Ok(DataArray::Boolean(vec![false, false, false])));
    assert_eq!(c.to_array(0), Ok(DataArray::Boolean(vec![])));
    let a = arr(vec![1, 2]);
    assert_eq!(a.to_array(2), Ok(DataArray::Int64(vec![1, 2])));
    assert_eq!(a.to_array(3), Err(FuseQueryError::ShapeMismatch(3, 2)));
}

#[test]
fn flight_result_valid_utf8_is_text() {
    let r = FlightResult { body: "héllo".as_bytes().to_vec() };
    assert_eq!(flight_result_to_str(&r), "héllo".to_string());
}

#[test]
fn flight_result_invalid_utf8_is_debug_bytes() {
    let r = FlightResult { body: vec![0xff, 0x00, 65] };
    assert_eq!(flight_result_to_str(&r), "[255, 0, 65]".to_string());
}
