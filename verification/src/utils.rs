//! From the values of a dynamic language to typed vectors and errors.

use std::sync::Arc;
use vstd::prelude::*;
use vstd::string::*;
use crate::datatypes::{ConcreteDataType, Value};
use crate::error::Error;
use crate::shared::share;
use crate::vectors::{all_fit, Vector, VectorRef};

verus! {

/// What a script hands back: a closed set of kinds, each with its own rule
/// of coercion. A float is held as the bits of its IEEE 754 encoding. What
/// belongs to none of the accepted kinds is `Other`, with a description of
/// what was found.
#[derive(Debug, PartialEq, Eq)]
pub enum PyValue {
    Vector(VectorRef),
    Int(i64),
    Float(u64),
    Bool(bool),
    Str(String),
    List(Vec<PyValue>),
    Other(String),
}

impl PyValue {
    /// The cell that a scalar stands for; `None` for what is no scalar.
    pub open spec fn scalar(self) -> Option<Value> {
        match self {
            PyValue::Int(n) => Some(Value::Int64(n)),
            PyValue::Float(bits) => Some(Value::Float64(bits)),
            PyValue::Bool(b) => Some(Value::Boolean(b)),
            PyValue::Str(s) => Some(Value::String(s)),
            _ => None,
        }
    }
}

/// Whether `items` are scalars that all stand for cells of one type.
pub open spec fn homogeneous(items: Seq<PyValue>) -> bool {
    forall|i: int|
        0 <= i < items.len() ==> {
            &&& (#[trigger] items[i]).scalar() is Some
            &&& items[i].scalar().unwrap().spec_data_type()
                == items[0].scalar().unwrap().spec_data_type()
        }
}

/// The cells that a list of scalars stands for, in the order of the list.
pub open spec fn list_cells(items: Seq<PyValue>) -> Seq<Value> {
    Seq::new(items.len(), |i: int| items[i].scalar().unwrap())
}

/// The type and the cells of the vector that `obj` is coerced to at length
/// `len`, for every kind but a vector: a scalar gives `len` copies of itself,
/// an empty list no cell at all of the null type, a list of scalars of one
/// type its cells. `None` where there is no such vector.
pub open spec fn coerced_cells(obj: PyValue, len: nat) -> Option<(ConcreteDataType, Seq<Value>)> {
    match obj {
        PyValue::Vector(_) => None,
        PyValue::List(items) => if items@.len() == 0 {
            Some((ConcreteDataType::Null, Seq::empty()))
        } else if homogeneous(items@) {
            Some((items@[0].scalar().unwrap().spec_data_type(), list_cells(items@)))
        } else {
            None
        },
        PyValue::Other(_) => None,
        _ => Some(
            (obj.scalar().unwrap().spec_data_type(), Seq::new(len, |i: int| obj.scalar().unwrap())),
        ),
    }
}

/// The message of the error for a value of no accepted kind.
pub open spec fn unsupported_message(found: Seq<char>) -> Seq<char> {
    "Expect a vector or a constant, found "@ + found
}

/// The message of the error for a list that holds something other than
/// scalars of one type.
pub open spec fn mixed_list_message() -> Seq<char> {
    "Expect a list of scalars that all have the same type"@
}

/// The message of the error for an exception that could not be written out.
pub open spec fn unwritten_exception_message(reason: Seq<char>) -> Seq<char> {
    "Failed to write exception msg, err: "@ + reason
}

fn scalar_of(obj: &PyValue) -> (cell: Option<Value>)
    ensures
        cell == obj.scalar(),
{
    match obj {
        PyValue::Int(n) => Some(Value::Int64(*n)),
        PyValue::Float(bits) => Some(Value::Float64(*bits)),
        PyValue::Bool(b) => Some(Value::Boolean(*b)),
        PyValue::Str(s) => Some(Value::String(s.clone())),
        _ => None,
    }
}

/// The type and the cells of a list, if its items are scalars of one type.
fn cells_of_list(items: &Vec<PyValue>) -> (cells: Option<(ConcreteDataType, Vec<Value>)>)
    requires
        items@.len() > 0,
    ensures
        cells is Some <==> homogeneous(items@),
        cells matches Some((ty, c)) ==> {
            &&& ty == items@[0].scalar().unwrap().spec_data_type()
            &&& c@ == list_cells(items@)
            &&& all_fit(c@, ty)
        },
{
    let first = match scalar_of(&items[0]) {
        Some(cell) => cell.data_type(),
        None => {
            return None;
        },
    };
    let mut cells: Vec<Value> = Vec::new();
    let mut i: usize = 0;
    while i < items.len()
        invariant
            i <= items.len(),
            items@.len() > 0,
            items@[0].scalar() is Some,
            first == items@[0].scalar().unwrap().spec_data_type(),
            homogeneous(items@.subrange(0, i as int)),
            cells@ == list_cells(items@.subrange(0, i as int)),
        decreases items.len() - i,
    {
        match scalar_of(&items[i]) {
            Some(cell) => {
                if cell.data_type() != first {
                    return None;
                }
                cells.push(cell);
            },
            None => {
                return None;
            },
        }
        i += 1;
    }
    assert(items@.subrange(0, i as int) == items@);
    Some((first, cells))
}

/// Turns what a script returned into a vector of `col_len` rows.
///
/// A vector is handed back as it is, shared and whatever its length. An
/// integer, float, boolean or string becomes `col_len` copies of itself. An
/// empty list becomes the null-typed vector of no rows, a list of scalars of
/// one type the vector of these scalars; neither looks at `col_len`. Anything
/// else is refused with `Error::Coercion`.
pub fn py_vec_obj_to_array(obj: &PyValue, col_len: usize) -> (r: Result<VectorRef, Error>)
    ensures
        *obj matches PyValue::Vector(v) ==> r == Ok::<VectorRef, Error>(v),
        obj.scalar() matches Some(cell) ==> (r matches Ok(v) && {
            &&& v.spec_data_type() == cell.spec_data_type()
            &&& v@.len() == col_len
            &&& forall|i: int| 0 <= i < col_len ==> v@[i] == cell
        }),
        *obj matches PyValue::List(items) ==> (items@.len() == 0 ==> (r matches Ok(v) && {
            &&& v.spec_data_type() == ConcreteDataType::Null
            &&& v@.len() == 0
        })),
        *obj is Other ==> (r matches Err(e) && e is Coercion),
        !(*obj is Vector) ==> (r is Ok <==> coerced_cells(*obj, col_len as nat) is Some),
        !(*obj is Vector) ==> (r matches Ok(v) ==> {
            &&& v.spec_data_type() == coerced_cells(*obj, col_len as nat).unwrap().0
            &&& v@ == coerced_cells(*obj, col_len as nat).unwrap().1
        }),
        *obj matches PyValue::Other(found) ==> (r matches Err(Error::Coercion { msg }) && msg@
            == unsupported_message(found@)),
        *obj is List ==> (r matches Err(e) ==> (e matches Error::Coercion { msg } && msg@
            == mixed_list_message())),
{
    match obj {
        PyValue::Vector(v) => Ok(share(v)),
        PyValue::List(items) => {
            if items.len() == 0 {
                let v = Vector::new_null(0);
                Ok(Arc::new(v))
            } else {
                match cells_of_list(items) {
                    Some((ty, cells)) => Ok(Arc::new(Vector::try_new(ty, cells).unwrap())),
                    None => Err(
                        Error::Coercion {
                            msg: String::from_str(
                                "Expect a list of scalars that all have the same type",
                            ),
                        },
                    ),
                }
            }
        },
        PyValue::Other(found) => Err(
            Error::Coercion {
                msg: String::from_str("Expect a vector or a constant, found ").concat(
                    found.as_str(),
                ),
            },
        ),
        _ => {
            let cell = scalar_of(obj).unwrap();
            Ok(Arc::new(Vector::from_value(&cell, col_len)))
        },
    }
}

/// The error that reports an exception raised by a script. `written` is the
/// text of the exception as the interpreter wrote it out, or the reason why
/// it could not be written.
pub fn format_py_error(written: Result<String, String>) -> (e: Error)
    ensures
        written matches Ok(text) ==> e == (Error::Execution { msg: text }),
        written matches Err(reason) ==> (e matches Error::Execution { msg } && msg@
            == unwritten_exception_message(reason@)),
{
    match written {
        Ok(text) => Error::Execution { msg: text },
        Err(reason) => Error::Execution {
            msg: String::from_str("Failed to write exception msg, err: ").concat(reason.as_str()),
        },
    }
}

} // verus!
