//! Column and batch schemas.

use std::sync::Arc;
use vstd::prelude::*;
use crate::datatypes::ConcreteDataType;

verus! {

/// The name, type and nullability of one column.
#[derive(Clone, Debug, PartialEq, Eq)]
pub struct ColumnSchema {
    pub name: String,
    pub data_type: ConcreteDataType,
    pub is_nullable: bool,
}

impl ColumnSchema {
    pub fn new(name: String, data_type: ConcreteDataType, is_nullable: bool) -> (column: Self)
        ensures
            column == (ColumnSchema { name, data_type, is_nullable }),
    {
        ColumnSchema { name, data_type, is_nullable }
    }
}

/// The columns of a batch, in order.
#[derive(Clone, Debug, PartialEq, Eq)]
pub struct Schema {
    column_schemas: Vec<ColumnSchema>,
}

/// A schema shared between the batches that carry it.
pub type SchemaRef = Arc<Schema>;

impl View for Schema {
    type V = Seq<ColumnSchema>;

    closed spec fn view(&self) -> Seq<ColumnSchema> {
        self.column_schemas@
    }
}

/// Whether two schemas list columns of the same names, types and
/// nullability, in the same order.
pub open spec fn same_columns(a: Seq<ColumnSchema>, b: Seq<ColumnSchema>) -> bool {
    &&& a.len() == b.len()
    &&& forall|i: int|
        0 <= i < a.len() ==> {
            &&& (#[trigger] a[i]).name@ == b[i].name@
            &&& a[i].data_type == b[i].data_type
            &&& a[i].is_nullable == b[i].is_nullable
        }
}

impl Schema {
    /// Whether `other` lists the same columns as this schema.
    pub fn same_as(&self, other: &Schema) -> (same: bool)
        ensures
            same == same_columns(self@, other@),
    {
        if self.column_schemas.len() != other.column_schemas.len() {
            return false;
        }
        let mut i: usize = 0;
        while i < self.column_schemas.len()
            invariant
                i <= self.column_schemas@.len(),
                self.column_schemas@.len() == other.column_schemas@.len(),
                same_columns(
                    self.column_schemas@.subrange(0, i as int),
                    other.column_schemas@.subrange(0, i as int),
                ),
            decreases self.column_schemas.len() - i,
        {
            let a = &self.column_schemas[i];
            let b = &other.column_schemas[i];
            if a.name != b.name || a.data_type != b.data_type || a.is_nullable != b.is_nullable {
                return false;
            }
            i += 1;
        }
        assert(self.column_schemas@.subrange(0, i as int) == self.column_schemas@);
        true
    }

    pub fn new(column_schemas: Vec<ColumnSchema>) -> (schema: Self)
        ensures
            schema@ == column_schemas@,
    {
        Schema { column_schemas }
    }

    pub fn column_schemas(&self) -> (columns: &Vec<ColumnSchema>)
        ensures
            columns@ == self@,
    {
        &self.column_schemas
    }

    pub fn num_columns(&self) -> (n: usize)
        ensures
            n == self@.len(),
    {
        self.column_schemas.len()
    }
}

} // verus!
