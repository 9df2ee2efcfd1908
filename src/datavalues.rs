use vstd::prelude::*;

use crate::error::FuseQueryError;

verus! {

/// The logical type of a column or of a scalar value.
#[derive(Clone, Copy, Debug, PartialEq, Eq, Structural)]
pub enum DataType {
    Int64,
    UInt64,
    Boolean,
}

/// A single scalar value.
#[derive(Clone, Copy, Debug, PartialEq, Eq, Structural)]
pub enum DataValue {
    Int64(i64),
    UInt64(u64),
    Boolean(bool),
}

/// The four arithmetic operators.
#[derive(Clone, Copy, Debug, PartialEq, Eq, Structural)]
pub enum DataValueArithmeticOperator {
    Add,
    Sub,
    Mul,
    Div,
}

impl DataValue {
    pub open spec fn spec_data_type(&self) -> DataType {
        match self {
            DataValue::Int64(_) => DataType::Int64,
            DataValue::UInt64(_) => DataType::UInt64,
            DataValue::Boolean(_) => DataType::Boolean,
        }
    }

    #[verifier::when_used_as_spec(spec_data_type)]
    pub fn data_type(&self) -> (r: DataType)
        ensures
            r == self.spec_data_type(),
    {
        match self {
            DataValue::Int64(_) => DataType::Int64,
            DataValue::UInt64(_) => DataType::UInt64,
            DataValue::Boolean(_) => DataType::Boolean,
        }
    }
}

/// A materialised column: one typed vector of values.
#[derive(Clone, Debug, PartialEq, Eq)]
pub enum DataArray {
    Int64(Vec<i64>),
    UInt64(Vec<u64>),
    Boolean(Vec<bool>),
}

/// The mathematical content of a `DataArray`.
pub enum ArrayModel {
    Int64(Seq<i64>),
    UInt64(Seq<u64>),
    Boolean(Seq<bool>),
}

impl ArrayModel {
    pub open spec fn len(self) -> nat {
        match self {
            ArrayModel::Int64(s) => s.len(),
            ArrayModel::UInt64(s) => s.len(),
            ArrayModel::Boolean(s) => s.len(),
        }
    }

    pub open spec fn data_type(self) -> DataType {
        match self {
            ArrayModel::Int64(_) => DataType::Int64,
            ArrayModel::UInt64(_) => DataType::UInt64,
            ArrayModel::Boolean(_) => DataType::Boolean,
        }
    }
}

impl View for DataArray {
    type V = ArrayModel;

    open spec fn view(&self) -> ArrayModel {
        match self {
            DataArray::Int64(v) => ArrayModel::Int64(v@),
            DataArray::UInt64(v) => ArrayModel::UInt64(v@),
            DataArray::Boolean(v) => ArrayModel::Boolean(v@),
        }
    }
}

/// A column value: either a scalar broadcast to every row, or a materialised array.
#[derive(Clone, Debug, PartialEq, Eq)]
pub enum DataColumnarValue {
    Array(DataArray),
    Constant(DataValue),
}

/// The mathematical content of a `DataColumnarValue`.
pub enum ColumnarModel {
    Array(ArrayModel),
    Constant(DataValue),
}

impl View for DataColumnarValue {
    type V = ColumnarModel;

    open spec fn view(&self) -> ColumnarModel {
        match self {
            DataColumnarValue::Array(a) => ColumnarModel::Array(a@),
            DataColumnarValue::Constant(v) => ColumnarModel::Constant(*v),
        }
    }
}

/// The array of `n` rows that holds `v` in every row.
pub open spec fn broadcast(v: DataValue, n: nat) -> ArrayModel {
    match v {
        DataValue::Int64(x) => ArrayModel::Int64(Seq::new(n, |i: int| x)),
        DataValue::UInt64(x) => ArrayModel::UInt64(Seq::new(n, |i: int| x)),
        DataValue::Boolean(x) => ArrayModel::Boolean(Seq::new(n, |i: int| x)),
    }
}

impl ColumnarModel {
    /// The value as an array of `n` rows: a constant is broadcast, an array must
    /// already have `n` rows.
    pub open spec fn to_array(self, n: nat) -> Result<ArrayModel, FuseQueryError> {
        match self {
            ColumnarModel::Constant(v) => Ok(broadcast(v, n)),
            ColumnarModel::Array(a) => if a.len() == n {
                Ok(a)
            } else {
                Err(FuseQueryError::ShapeMismatch(n as usize, a.len() as usize))
            },
        }
    }
}

/// `x op y` on signed 64-bit integers; `None` on overflow or division by zero.
pub open spec fn i64_op(op: DataValueArithmeticOperator, x: i64, y: i64) -> Option<i64> {
    match op {
        DataValueArithmeticOperator::Add => x.checked_add(y),
        DataValueArithmeticOperator::Sub => x.checked_sub(y),
        DataValueArithmeticOperator::Mul => x.checked_mul(y),
        DataValueArithmeticOperator::Div => x.checked_div(y),
    }
}

/// `x op y` on unsigned 64-bit integers; `None` on overflow, underflow or division by zero.
pub open spec fn u64_op(op: DataValueArithmeticOperator, x: u64, y: u64) -> Option<u64> {
    match op {
        DataValueArithmeticOperator::Add => x.checked_add(y),
        DataValueArithmeticOperator::Sub => x.checked_sub(y),
        DataValueArithmeticOperator::Mul => x.checked_mul(y),
        DataValueArithmeticOperator::Div => x.checked_div(y),
    }
}

/// The operator applied to two scalars. Both must be integers of one type.
pub open spec fn value_op(op: DataValueArithmeticOperator, x: DataValue, y: DataValue) -> Result<
    DataValue,
    FuseQueryError,
> {
    match (x, y) {
        (DataValue::Int64(a), DataValue::Int64(b)) => match i64_op(op, a, b) {
            Some(c) => Ok(DataValue::Int64(c)),
            None => Err(FuseQueryError::ArithmeticFailure(op)),
        },
        (DataValue::UInt64(a), DataValue::UInt64(b)) => match u64_op(op, a, b) {
            Some(c) => Ok(DataValue::UInt64(c)),
            None => Err(FuseQueryError::ArithmeticFailure(op)),
        },
        _ => Err(FuseQueryError::TypeMismatch(op, x.spec_data_type(), y.spec_data_type())),
    }
}

/// The operator applied row by row to two arrays. Both must be integer arrays of one
/// type and of one length; the whole result fails if any row fails.
pub open spec fn array_op(op: DataValueArithmeticOperator, a: ArrayModel, b: ArrayModel) -> Result<
    ArrayModel,
    FuseQueryError,
> {
    match (a, b) {
        (ArrayModel::Int64(x), ArrayModel::Int64(y)) => if x.len() != y.len() {
            Err(FuseQueryError::ShapeMismatch(x.len() as usize, y.len() as usize))
        } else if forall|i: int| 0 <= i < x.len() ==> (#[trigger] i64_op(op, x[i], y[i])) is Some {
            Ok(ArrayModel::Int64(Seq::new(x.len(), |i: int| i64_op(op, x[i], y[i])->0)))
        } else {
            Err(FuseQueryError::ArithmeticFailure(op))
        },
        (ArrayModel::UInt64(x), ArrayModel::UInt64(y)) => if x.len() != y.len() {
            Err(FuseQueryError::ShapeMismatch(x.len() as usize, y.len() as usize))
        } else if forall|i: int| 0 <= i < x.len() ==> (#[trigger] u64_op(op, x[i], y[i])) is Some {
            Ok(ArrayModel::UInt64(Seq::new(x.len(), |i: int| u64_op(op, x[i], y[i])->0)))
        } else {
            Err(FuseQueryError::ArithmeticFailure(op))
        },
        _ => Err(FuseQueryError::TypeMismatch(op, a.data_type(), b.data_type())),
    }
}

/// The operator applied to two column values; a constant beside an array is broadcast
/// to the array's length.
pub open spec fn columnar_op(
    op: DataValueArithmeticOperator,
    l: ColumnarModel,
    r: ColumnarModel,
) -> Result<ColumnarModel, FuseQueryError> {
    match (l, r) {
        (ColumnarModel::Constant(x), ColumnarModel::Constant(y)) => match value_op(op, x, y) {
            Ok(v) => Ok(ColumnarModel::Constant(v)),
            Err(e) => Err(e),
        },
        (ColumnarModel::Array(a), ColumnarModel::Constant(y)) => match array_op(
            op,
            a,
            broadcast(y, a.len()),
        ) {
            Ok(v) => Ok(ColumnarModel::Array(v)),
            Err(e) => Err(e),
        },
        (ColumnarModel::Constant(x), ColumnarModel::Array(b)) => match array_op(
            op,
            broadcast(x, b.len()),
            b,
        ) {
            Ok(v) => Ok(ColumnarModel::Array(v)),
            Err(e) => Err(e),
        },
        (ColumnarModel::Array(a), ColumnarModel::Array(b)) => match array_op(op, a, b) {
            Ok(v) => Ok(ColumnarModel::Array(v)),
            Err(e) => Err(e),
        },
    }
}

/// The view of a result that holds a column value.
pub open spec fn columnar_result_view(r: Result<DataColumnarValue, FuseQueryError>) -> Result<
    ColumnarModel,
    FuseQueryError,
> {
    match r {
        Ok(v) => Ok(v@),
        Err(e) => Err(e),
    }
}

/// The view of a result that holds an array.
pub open spec fn array_result_view(r: Result<DataArray, FuseQueryError>) -> Result<
    ArrayModel,
    FuseQueryError,
> {
    match r {
        Ok(v) => Ok(v@),
        Err(e) => Err(e),
    }
}

fn i64_exec(op: DataValueArithmeticOperator, x: i64, y: i64) -> (r: Option<i64>)
    ensures
        r == i64_op(op, x, y),
{
    match op {
        DataValueArithmeticOperator::Add => x.checked_add(y),
        DataValueArithmeticOperator::Sub => x.checked_sub(y),
        DataValueArithmeticOperator::Mul => x.checked_mul(y),
        DataValueArithmeticOperator::Div => x.checked_div(y),
    }
}

fn u64_exec(op: DataValueArithmeticOperator, x: u64, y: u64) -> (r: Option<u64>)
    ensures
        r == u64_op(op, x, y),
{
    match op {
        DataValueArithmeticOperator::Add => x.checked_add(y),
        DataValueArithmeticOperator::Sub => x.checked_sub(y),
        DataValueArithmeticOperator::Mul => x.checked_mul(y),
        DataValueArithmeticOperator::Div => x.checked_div(y),
    }
}

fn i64_rows(op: DataValueArithmeticOperator, x: &Vec<i64>, y: &Vec<i64>) -> (r: Result<
    DataArray,
    FuseQueryError,
>)
    ensures
        array_result_view(r) == array_op(op, ArrayModel::Int64(x@), ArrayModel::Int64(y@)),
{
    if x.len() != y.len() {
        return Err(FuseQueryError::ShapeMismatch(x.len(), y.len()));
    }
    let mut out: Vec<i64> = Vec::new();
    let mut i: usize = 0;
    while i < x.len()
        invariant
            x.len() == y.len(),
            i <= x.len(),
            out@.len() == i,
            forall|j: int| 0 <= j < i ==> (#[trigger] i64_op(op, x@[j], y@[j])) is Some,
            forall|j: int| 0 <= j < i ==> out@[j] == i64_op(op, x@[j], y@[j])->0,
        decreases x.len() - i,
    {
        match i64_exec(op, x[i], y[i]) {
            Some(c) => out.push(c),
            None => return Err(FuseQueryError::ArithmeticFailure(op)),
        }
        i = i + 1;
    }
    let ghost want = Seq::new(x@.len(), |j: int| i64_op(op, x@[j], y@[j])->0);
    assert(out@ =~= want);
    Ok(DataArray::Int64(out))
}

fn u64_rows(op: DataValueArithmeticOperator, x: &Vec<u64>, y: &Vec<u64>) -> (r: Result<
    DataArray,
    FuseQueryError,
>)
    ensures
        array_result_view(r) == array_op(op, ArrayModel::UInt64(x@), ArrayModel::UInt64(y@)),
{
    if x.len() != y.len() {
        return Err(FuseQueryError::ShapeMismatch(x.len(), y.len()));
    }
    let mut out: Vec<u64> = Vec::new();
    let mut i: usize = 0;
    while i < x.len()
        invariant
            x.len() == y.len(),
            i <= x.len(),
            out@.len() == i,
            forall|j: int| 0 <= j < i ==> (#[trigger] u64_op(op, x@[j], y@[j])) is Some,
            forall|j: int| 0 <= j < i ==> out@[j] == u64_op(op, x@[j], y@[j])->0,
        decreases x.len() - i,
    {
        match u64_exec(op, x[i], y[i]) {
            Some(c) => out.push(c),
            None => return Err(FuseQueryError::ArithmeticFailure(op)),
        }
        i = i + 1;
    }
    let ghost want = Seq::new(x@.len(), |j: int| u64_op(op, x@[j], y@[j])->0);
    assert(out@ =~= want);
    Ok(DataArray::UInt64(out))
}

/// The operator applied row by row to two arrays (see `array_op`).
pub fn data_array_op(op: DataValueArithmeticOperator, a: &DataArray, b: &DataArray) -> (r: Result<
    DataArray,
    FuseQueryError,
>)
    ensures
        array_result_view(r) == array_op(op, a@, b@),
{
    match (a, b) {
        (DataArray::Int64(x), DataArray::Int64(y)) => i64_rows(op, x, y),
        (DataArray::UInt64(x), DataArray::UInt64(y)) => u64_rows(op, x, y),
        _ => Err(FuseQueryError::TypeMismatch(op, a.data_type(), b.data_type())),
    }
}

/// The operator applied to two scalars (see `value_op`).
pub fn data_value_op(op: DataValueArithmeticOperator, x: DataValue, y: DataValue) -> (r: Result<
    DataValue,
    FuseQueryError,
>)
    ensures
        r == value_op(op, x, y),
{
    match (x, y) {
        (DataValue::Int64(a), DataValue::Int64(b)) => match i64_exec(op, a, b) {
            Some(c) => Ok(DataValue::Int64(c)),
            None => Err(FuseQueryError::ArithmeticFailure(op)),
        },
        (DataValue::UInt64(a), DataValue::UInt64(b)) => match u64_exec(op, a, b) {
            Some(c) => Ok(DataValue::UInt64(c)),
            None => Err(FuseQueryError::ArithmeticFailure(op)),
        },
        _ => Err(FuseQueryError::TypeMismatch(op, x.data_type(), y.data_type())),
    }
}

/// The arithmetic kernel: the operator applied to two column values (see `columnar_op`).
pub fn data_array_arithmetic_op(
    op: DataValueArithmeticOperator,
    left: &DataColumnarValue,
    right: &DataColumnarValue,
) -> (r: Result<DataColumnarValue, FuseQueryError>)
    ensures
        columnar_result_view(r) == columnar_op(op, left@, right@),
{
    match (left, right) {
        (DataColumnarValue::Constant(x), DataColumnarValue::Constant(y)) => {
            match data_value_op(op, *x, *y) {
                Ok(v) => Ok(DataColumnarValue::Constant(v)),
                Err(e) => Err(e),
            }
        },
        (DataColumnarValue::Array(a), DataColumnarValue::Constant(y)) => {
            let b = DataArray::broadcast(*y, a.len());
            match data_array_op(op, a, &b) {
                Ok(v) => Ok(DataColumnarValue::Array(v)),
                Err(e) => Err(e),
            }
        },
        (DataColumnarValue::Constant(x), DataColumnarValue::Array(b)) => {
            let a = DataArray::broadcast(*x, b.len());
            match data_array_op(op, &a, b) {
                Ok(v) => Ok(DataColumnarValue::Array(v)),
                Err(e) => Err(e),
            }
        },
        (DataColumnarValue::Array(a), DataColumnarValue::Array(b)) => {
            match data_array_op(op, a, b) {
                Ok(v) => Ok(DataColumnarValue::Array(v)),
                Err(e) => Err(e),
            }
        },
    }
}

impl DataArray {
    pub fn len(&self) -> (r: usize)
        ensures
            r == self@.len(),
    {
        match self {
            DataArray::Int64(v) => v.len(),
            DataArray::UInt64(v) => v.len(),
            DataArray::Boolean(v) => v.len(),
        }
    }

    pub fn data_type(&self) -> (r: DataType)
        ensures
            r == self@.data_type(),
    {
        match self {
            DataArray::Int64(_) => DataType::Int64,
            DataArray::UInt64(_) => DataType::UInt64,
            DataArray::Boolean(_) => DataType::Boolean,
        }
    }

    /// The array of `n` rows that holds `v` in every row.
    pub fn broadcast(v: DataValue, n: usize) -> (r: DataArray)
        ensures
            r@ == broadcast(v, n as nat),
    {
        match v {
            DataValue::Int64(x) => {
                let mut out: Vec<i64> = Vec::new();
                let mut i: usize = 0;
                while i < n
                    invariant
                        i <= n,
                        out@ =~= Seq::new(i as nat, |j: int| x),
                    decreases n - i,
                {
                    out.push(x);
                    i = i + 1;
                }
                DataArray::Int64(out)
            },
            DataValue::UInt64(x) => {
                let mut out: Vec<u64> = Vec::new();
                let mut i: usize = 0;
                while i < n
                    invariant
                        i <= n,
                        out@ =~= Seq::new(i as nat, |j: int| x),
                    decreases n - i,
                {
                    out.push(x);
                    i = i + 1;
                }
                DataArray::UInt64(out)
            },
            DataValue::Boolean(x) => {
                let mut out: Vec<bool> = Vec::new();
                let mut i: usize = 0;
                while i < n
                    invariant
                        i <= n,
                        out@ =~= Seq::new(i as nat, |j: int| x),
                    decreases n - i,
                {
                    out.push(x);
                    i = i + 1;
                }
                DataArray::Boolean(out)
            },
        }
    }

    /// An independent copy with the same rows.
    pub fn duplicate(&self) -> (r: DataArray)
        ensures
            r@ == self@,
    {
        match self {
            DataArray::Int64(v) => {
                let mut out: Vec<i64> = Vec::new();
                let mut i: usize = 0;
                while i < v.len()
                    invariant
                        i <= v.len(),
                        out@ =~= v@.subrange(0, i as int),
                    decreases v.len() - i,
                {
                    out.push(v[i]);
                    i = i + 1;
                }
                assert(out@ =~= v@);
                DataArray::Int64(out)
            },
            DataArray::UInt64(v) => {
                let mut out: Vec<u64> = Vec::new();
                let mut i: usize = 0;
                while i < v.len()
                    invariant
                        i <= v.len(),
                        out@ =~= v@.subrange(0, i as int),
                    decreases v.len() - i,
                {
                    out.push(v[i]);
                    i = i + 1;
                }
                assert(out@ =~= v@);
                DataArray::UInt64(out)
            },
            DataArray::Boolean(v) => {
                let mut out: Vec<bool> = Vec::new();
                let mut i: usize = 0;
                while i < v.len()
                    invariant
                        i <= v.len(),
                        out@ =~= v@.subrange(0, i as int),
                    decreases v.len() - i,
                {
                    out.push(v[i]);
                    i = i + 1;
                }
                assert(out@ =~= v@);
                DataArray::Boolean(out)
            },
        }
    }
}

impl DataColumnarValue {
    /// An independent copy with the same content.
    pub fn duplicate(&self) -> (r: DataColumnarValue)
        ensures
            r@ == self@,
    {
        match self {
            DataColumnarValue::Array(a) => DataColumnarValue::Array(a.duplicate()),
            DataColumnarValue::Constant(v) => DataColumnarValue::Constant(*v),
        }
    }

    /// The value as an array of `num_rows` rows: a constant is broadcast; an array
    /// of another length is a shape mismatch.
    pub fn to_array(&self, num_rows: usize) -> (r: Result<DataArray, FuseQueryError>)
        ensures
            array_result_view(r) == self@.to_array(num_rows as nat),
    {
        match self {
            DataColumnarValue::Constant(v) => Ok(DataArray::broadcast(*v, num_rows)),
            DataColumnarValue::Array(a) => {
                let n = a.len();
                if n == num_rows {
                    Ok(a.duplicate())
                } else {
                    Err(FuseQueryError::ShapeMismatch(num_rows, n))
                }
            },
        }
    }
}

} // verus!
