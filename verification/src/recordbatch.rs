//! Record batches: equal-length vectors under a schema.

use vstd::prelude::*;
use vstd::string::*;
use crate::error::Error;
use crate::schema::{same_columns, ColumnSchema, SchemaRef};
use crate::shared::share;
use crate::vectors::VectorRef;

verus! {

/// Whether `columns` are as many as `schema` has columns and each has the
/// type that the schema gives it.
pub open spec fn columns_match(schema: Seq<ColumnSchema>, columns: Seq<VectorRef>) -> bool {
    &&& schema.len() == columns.len()
    &&& forall|i: int|
        0 <= i < columns.len() ==> (#[trigger] columns[i]).spec_data_type() == schema[i].data_type
}

/// Whether all of `columns` have as many rows as the first of them.
pub open spec fn equal_lengths(columns: Seq<VectorRef>) -> bool {
    forall|i: int| 0 <= i < columns.len() ==> (#[trigger] columns[i])@.len() == columns[0]@.len()
}

/// Whether `columns` under `schema` make up a batch.
pub open spec fn is_batch(schema: Seq<ColumnSchema>, columns: Seq<VectorRef>) -> bool {
    columns_match(schema, columns) && equal_lengths(columns)
}

/// The message of the error for columns that are not as many as the schema
/// has, or not of its types.
pub open spec fn schema_mismatch_message() -> Seq<char> {
    "columns do not match the schema"@
}

/// The message of the error for columns that differ in length.
pub open spec fn length_mismatch_message() -> Seq<char> {
    "columns differ in length"@
}

/// Named vectors of one length. A batch is built once and never changed.
#[derive(Debug, PartialEq, Eq)]
pub struct RecordBatch {
    schema: SchemaRef,
    columns: Vec<VectorRef>,
}

impl RecordBatch {
    #[verifier::type_invariant]
    spec fn well_formed(self) -> bool {
        is_batch(self.schema@, self.columns@)
    }

    pub closed spec fn spec_schema(&self) -> SchemaRef {
        self.schema
    }

    pub closed spec fn spec_columns(&self) -> Seq<VectorRef> {
        self.columns@
    }

    /// The number of rows: the length of every column, and 0 without columns.
    pub open spec fn spec_num_rows(&self) -> nat {
        if self.spec_columns().len() == 0 {
            0
        } else {
            self.spec_columns()[0]@.len()
        }
    }

    /// The batch of `columns` under `schema`. It exists where the columns are
    /// as many as the schema has, each of the type that the schema gives it,
    /// and all of one length.
    pub fn new(schema: SchemaRef, columns: Vec<VectorRef>) -> (r: Result<RecordBatch, Error>)
        ensures
            r is Ok <==> is_batch(schema@, columns@),
            r matches Ok(batch) ==> batch.spec_schema() == schema && batch.spec_columns()
                == columns@,
            !columns_match(schema@, columns@) ==> (r matches Err(Error::InvalidRecordBatch { msg })
                && msg@ == schema_mismatch_message()),
            columns_match(schema@, columns@) && !equal_lengths(columns@) ==> (r matches Err(
                Error::InvalidRecordBatch { msg },
            ) && msg@ == length_mismatch_message()),
    {
        if schema.num_columns() != columns.len() {
            return Err(
                Error::InvalidRecordBatch {
                    msg: String::from_str("columns do not match the schema"),
                },
            );
        }
        let mut i: usize = 0;
        while i < columns.len()
            invariant
                i <= columns.len(),
                schema@.len() == columns@.len(),
                forall|j: int|
                    0 <= j < i ==> (#[trigger] columns@[j]).spec_data_type() == schema@[j].data_type,
            decreases columns.len() - i,
        {
            if columns[i].data_type() != schema.column_schemas()[i].data_type {
                return Err(
                    Error::InvalidRecordBatch {
                        msg: String::from_str("columns do not match the schema"),
                    },
                );
            }
            i += 1;
        }
        let mut k: usize = 0;
        while k < columns.len()
            invariant
                k <= columns.len(),
                columns_match(schema@, columns@),
                forall|j: int|
                    0 <= j < k ==> (#[trigger] columns@[j])@.len() == columns@[0]@.len(),
            decreases columns.len() - k,
        {
            if columns[k].len() != columns[0].len() {
                return Err(
                    Error::InvalidRecordBatch { msg: String::from_str("columns differ in length") },
                );
            }
            k += 1;
        }
        Ok(RecordBatch { schema, columns })
    }

    pub fn schema(&self) -> (schema: &SchemaRef)
        ensures
            *schema == self.spec_schema(),
    {
        &self.schema
    }

    /// The columns, which match the schema and have one length.
    pub fn columns(&self) -> (columns: &Vec<VectorRef>)
        ensures
            columns@ == self.spec_columns(),
            is_batch(self.spec_schema()@, columns@),
    {
        proof {
            use_type_invariant(self);
        }
        &self.columns
    }

    pub fn column(&self, index: usize) -> (column: &VectorRef)
        requires
            index < self.spec_columns().len(),
        ensures
            *column == self.spec_columns()[index as int],
            column@.len() == self.spec_num_rows(),
    {
        proof {
            use_type_invariant(self);
        }
        &self.columns[index]
    }

    pub fn num_columns(&self) -> (n: usize)
        ensures
            n == self.spec_columns().len(),
    {
        self.columns.len()
    }

    pub fn num_rows(&self) -> (n: usize)
        ensures
            n == self.spec_num_rows(),
    {
        if self.columns.len() == 0 {
            0
        } else {
            self.columns[0].len()
        }
    }
}

/// Whether every one of `batches` carries the columns of `schema`.
pub open spec fn share_schema(schema: Seq<ColumnSchema>, batches: Seq<RecordBatch>) -> bool {
    forall|i: int|
        0 <= i < batches.len() ==> same_columns((#[trigger] batches[i]).spec_schema()@, schema)
}

/// The message of the error for a batch that carries other columns than the
/// batches it is put with.
pub open spec fn foreign_schema_message() -> Seq<char> {
    "batches do not share the schema"@
}

/// Batches that share one schema, held in memory.
#[derive(Debug, PartialEq, Eq)]
pub struct RecordBatches {
    schema: SchemaRef,
    batches: Vec<RecordBatch>,
}

impl RecordBatches {
    #[verifier::type_invariant]
    spec fn well_formed(self) -> bool {
        share_schema(self.schema@, self.batches@)
    }

    pub closed spec fn spec_schema(&self) -> SchemaRef {
        self.schema
    }

    pub closed spec fn spec_batches(&self) -> Seq<RecordBatch> {
        self.batches@
    }

    /// The given batches under `schema`, where each of them carries the
    /// columns of `schema`.
    pub fn try_new(schema: SchemaRef, batches: Vec<RecordBatch>) -> (r: Result<
        RecordBatches,
        Error,
    >)
        ensures
            r is Ok <==> share_schema(schema@, batches@),
            r matches Ok(all) ==> all.spec_schema() == schema && all.spec_batches() == batches@,
            r matches Err(e) ==> (e matches Error::InvalidRecordBatch { msg } && msg@
                == foreign_schema_message()),
    {
        let mut i: usize = 0;
        while i < batches.len()
            invariant
                i <= batches@.len(),
                forall|j: int|
                    0 <= j < i ==> same_columns((#[trigger] batches@[j]).spec_schema()@, schema@),
            decreases batches.len() - i,
        {
            if !batches[i].schema().same_as(&schema) {
                return Err(
                    Error::InvalidRecordBatch {
                        msg: String::from_str("batches do not share the schema"),
                    },
                );
            }
            i += 1;
        }
        Ok(RecordBatches { schema, batches })
    }

    /// The one batch `batch` under its own schema.
    pub fn single(batch: RecordBatch) -> (all: RecordBatches)
        ensures
            all.spec_schema() == batch.spec_schema(),
            all.spec_batches() == seq![batch],
    {
        let schema = share(batch.schema());
        let mut batches: Vec<RecordBatch> = Vec::new();
        batches.push(batch);
        RecordBatches { schema, batches }
    }

    pub fn schema(&self) -> (schema: &SchemaRef)
        ensures
            *schema == self.spec_schema(),
    {
        &self.schema
    }

    /// The batches, each of which carries the columns of the schema.
    pub fn batches(&self) -> (batches: &Vec<RecordBatch>)
        ensures
            batches@ == self.spec_batches(),
            share_schema(self.spec_schema()@, batches@),
    {
        proof {
            use_type_invariant(self);
        }
        &self.batches
    }

    pub fn take(self) -> (batches: Vec<RecordBatch>)
        ensures
            batches@ == self.spec_batches(),
    {
        self.batches
    }
}

} // verus!
