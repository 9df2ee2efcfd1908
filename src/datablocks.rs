use vstd::prelude::*;

use crate::datavalues::{ArrayModel, DataArray, DataType};
use crate::error::FuseQueryError;

verus! {

/// One column descriptor of a schema.
#[derive(Clone, Debug, PartialEq, Eq)]
pub struct DataField {
    pub name: String,
    pub data_type: DataType,
    pub nullable: bool,
}

/// The mathematical content of a `DataField`.
pub struct FieldModel {
    pub name: Seq<char>,
    pub data_type: DataType,
    pub nullable: bool,
}

impl View for DataField {
    type V = FieldModel;

    open spec fn view(&self) -> FieldModel {
        FieldModel { name: self.name@, data_type: self.data_type, nullable: self.nullable }
    }
}

impl DataField {
    pub fn new(name: String, data_type: DataType, nullable: bool) -> (r: DataField)
        ensures
            r@ == (FieldModel { name: name@, data_type, nullable }),
    {
        DataField { name, data_type, nullable }
    }

    /// An independent copy with the same content.
    pub fn duplicate(&self) -> (r: DataField)
        ensures
            r@ == self@,
    {
        DataField { name: self.name.clone(), data_type: self.data_type, nullable: self.nullable }
    }
}

/// An ordered sequence of field descriptors.
#[derive(Clone, Debug, PartialEq, Eq)]
pub struct DataSchema {
    pub fields: Vec<DataField>,
}

impl View for DataSchema {
    type V = Seq<FieldModel>;

    open spec fn view(&self) -> Seq<FieldModel> {
        self.fields@.map_values(|f: DataField| f@)
    }
}

impl DataSchema {
    pub fn new(fields: Vec<DataField>) -> (r: DataSchema)
        ensures
            r@ == fields@.map_values(|f: DataField| f@),
    {
        DataSchema { fields }
    }

    /// An independent copy with the same fields.
    pub fn duplicate(&self) -> (r: DataSchema)
        ensures
            r@ == self@,
    {
        let mut out: Vec<DataField> = Vec::new();
        let mut i: usize = 0;
        while i < self.fields.len()
            invariant
                i <= self.fields.len(),
                out@.map_values(|f: DataField| f@) =~= self@.subrange(0, i as int),
            decreases self.fields.len() - i,
        {
            let f = self.fields[i].duplicate();
            let ghost prev = out@;
            out.push(f);
            assert(out@.map_values(|f: DataField| f@) =~= prev.map_values(|f: DataField| f@).push(
                self@[i as int],
            ));
            i = i + 1;
        }
        assert(self@.subrange(0, self.fields.len() as int) =~= self@);
        DataSchema { fields: out }
    }
}

/// The mathematical content of a `DataBlock`.
pub struct BlockModel {
    pub schema: Seq<FieldModel>,
    pub columns: Seq<ArrayModel>,
}

impl BlockModel {
    /// The row count: that of the first column, or zero without columns.
    pub open spec fn num_rows(self) -> nat {
        if self.columns.len() == 0 {
            0
        } else {
            self.columns[0].len()
        }
    }

    /// As many columns as fields, and one row count for all columns.
    pub open spec fn wf(self) -> bool {
        &&& self.columns.len() == self.schema.len()
        &&& forall|i: int| 0 <= i < self.columns.len() ==> #[trigger] self.columns[i].len() == self.num_rows()
    }
}

/// The outcome of building a batch from a schema and columns: a batch exactly when
/// there are as many columns as fields and all columns have one row count.
pub open spec fn create_block(schema: Seq<FieldModel>, columns: Seq<ArrayModel>) -> Result<
    BlockModel,
    FuseQueryError,
> {
    let b = BlockModel { schema, columns };
    if columns.len() != schema.len() {
        Err(FuseQueryError::ColumnCountMismatch(columns.len() as usize, schema.len() as usize))
    } else if !b.wf() {
        Err(FuseQueryError::RowCountMismatch)
    } else {
        Ok(b)
    }
}

/// The view of a result that holds a batch.
pub open spec fn block_result_view(r: Result<DataBlock, FuseQueryError>) -> Result<
    BlockModel,
    FuseQueryError,
> {
    match r {
        Ok(b) => Ok(b@),
        Err(e) => Err(e),
    }
}

/// An immutable table fragment: a schema and one array per field.
#[derive(Clone, Debug, PartialEq, Eq)]
pub struct DataBlock {
    schema: DataSchema,
    columns: Vec<DataArray>,
}

impl View for DataBlock {
    type V = BlockModel;

    closed spec fn view(&self) -> BlockModel {
        BlockModel {
            schema: self.schema@,
            columns: self.columns@.map_values(|c: DataArray| c@),
        }
    }
}

impl DataBlock {
    /// Builds a batch; fails unless there are as many columns as fields and all
    /// columns have one row count.
    pub fn create(schema: DataSchema, columns: Vec<DataArray>) -> (r: Result<
        DataBlock,
        FuseQueryError,
    >)
        ensures
            block_result_view(r) == create_block(schema@, columns@.map_values(|c: DataArray| c@)),
            r is Ok ==> r->Ok_0@.wf(),
    {
        let ghost cols = columns@.map_values(|c: DataArray| c@);
        if columns.len() != schema.fields.len() {
            return Err(FuseQueryError::ColumnCountMismatch(columns.len(), schema.fields.len()));
        }
        if columns.len() > 0 {
            let rows = columns[0].len();
            let mut i: usize = 1;
            while i < columns.len()
                invariant
                    1 <= i <= columns.len(),
                    columns.len() == schema.fields.len(),
                    cols == columns@.map_values(|c: DataArray| c@),
                    rows == cols[0].len(),
                    forall|j: int| 0 <= j < i ==> #[trigger] cols[j].len() == rows,
                decreases columns.len() - i,
            {
                if columns[i].len() != rows {
                    let ghost b = BlockModel { schema: schema@, columns: cols };
                    assert(cols[i as int] == columns@[i as int]@);
                    assert(b.columns[i as int].len() != b.num_rows());
                    assert(!b.wf());
                    return Err(FuseQueryError::RowCountMismatch);
                }
                i = i + 1;
            }
        }
        let r = DataBlock { schema, columns };
        assert(r@.wf());
        Ok(r)
    }

    pub fn num_rows(&self) -> (r: usize)
        ensures
            r == self@.num_rows(),
    {
        if self.columns.len() == 0 {
            0
        } else {
            self.columns[0].len()
        }
    }

    pub fn num_columns(&self) -> (r: usize)
        ensures
            r == self@.columns.len(),
    {
        self.columns.len()
    }

    pub fn schema(&self) -> (r: &DataSchema)
        ensures
            r@ == self@.schema,
    {
        &self.schema
    }

    /// The column at `index`.
    pub fn column(&self, index: usize) -> (r: &DataArray)
        requires
            index < self@.columns.len(),
        ensures
            r@ == self@.columns[index as int],
    {
        &self.columns[index]
    }
}

} // verus!
