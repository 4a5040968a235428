//! Typed columnar vectors.

use std::sync::Arc;
use vstd::prelude::*;
use crate::datatypes::{ConcreteDataType, Value};

verus! {

/// A homogeneous column: every cell is null or a value of the column's type.
/// A vector is not changed once it is built.
#[derive(Debug, PartialEq, Eq)]
pub struct Vector {
    data_type: ConcreteDataType,
    values: Vec<Value>,
}

/// A vector shared between the batches and evaluations that read it.
pub type VectorRef = Arc<Vector>;

impl View for Vector {
    type V = Seq<Value>;

    closed spec fn view(&self) -> Seq<Value> {
        self.values@
    }
}

/// Whether every value of `values` may stand in a column of type `data_type`.
pub open spec fn all_fit(values: Seq<Value>, data_type: ConcreteDataType) -> bool {
    forall|i: int| 0 <= i < values.len() ==> (#[trigger] values[i]).fits(data_type)
}

impl Vector {
    #[verifier::type_invariant]
    spec fn well_typed(self) -> bool {
        all_fit(self.values@, self.data_type)
    }

    pub closed spec fn spec_data_type(&self) -> ConcreteDataType {
        self.data_type
    }

    pub open spec fn spec_len(&self) -> usize {
        self@.len() as usize
    }

    /// A vector of the given type and cells, if every cell fits the type.
    pub fn try_new(data_type: ConcreteDataType, values: Vec<Value>) -> (r: Option<Vector>)
        ensures
            r is Some <==> all_fit(values@, data_type),
            r matches Some(v) ==> v@ == values@ && v.spec_data_type() == data_type,
    {
        let mut i: usize = 0;
        while i < values.len()
            invariant
                i <= values.len(),
                all_fit(values@.subrange(0, i as int), data_type),
            decreases values.len() - i,
        {
            let fits = values[i].is_null() || values[i].data_type() == data_type;
            if !fits {
                return None;
            }
            i += 1;
        }
        assert(values@.subrange(0, i as int) == values@);
        Some(Vector { data_type, values })
    }

    /// The null-typed vector of `len` null cells.
    pub fn new_null(len: usize) -> (v: Vector)
        ensures
            v.spec_data_type() == ConcreteDataType::Null,
            v@ == Seq::new(len as nat, |i: int| Value::Null),
    {
        Vector::from_value(&Value::Null, len)
    }

    /// The vector that holds `len` copies of `value` and has the type of
    /// `value`.
    pub fn from_value(value: &Value, len: usize) -> (v: Vector)
        ensures
            v.spec_data_type() == value.spec_data_type(),
            v@ == Seq::new(len as nat, |i: int| *value),
    {
        let mut values: Vec<Value> = Vec::new();
        let mut i: usize = 0;
        while i < len
            invariant
                i <= len,
                values@ == Seq::new(i as nat, |k: int| *value),
            decreases len - i,
        {
            values.push(value.duplicate());
            i += 1;
        }
        Vector { data_type: value.data_type(), values }
    }

    #[verifier::when_used_as_spec(spec_data_type)]
    pub fn data_type(&self) -> (ty: ConcreteDataType)
        ensures
            ty == self.spec_data_type(),
    {
        self.data_type
    }

    #[verifier::when_used_as_spec(spec_len)]
    pub fn len(&self) -> (n: usize)
        ensures
            n == self@.len(),
            n == self.spec_len(),
    {
        self.values.len()
    }

    pub fn is_empty(&self) -> (b: bool)
        ensures
            b == (self@.len() == 0),
    {
        self.values.len() == 0
    }

    /// The cell at `index`, which fits the type of the vector.
    pub fn get(&self, index: usize) -> (v: Value)
        requires
            index < self@.len(),
        ensures
            v == self@[index as int],
            v.fits(self.spec_data_type()),
    {
        proof {
            use_type_invariant(self);
        }
        self.values[index].duplicate()
    }
}

} // verus!
