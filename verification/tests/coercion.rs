use std::sync::Arc;

use script::datatypes::{ConcreteDataType, Value};
use script::error::Error;
use script::utils::{format_py_error, py_vec_obj_to_array, PyValue};
use script::vectors::{Vector, VectorRef};

fn cells(vector: &VectorRef) -> Vec<Value> {
    (0..vector.len()).map(|i| vector.get(i)).collect()
}

#[test]
fn int_is_broadcast_to_the_requested_length() {
    let vector = py_vec_obj_to_array(&PyValue::Int(7), 3).unwrap();
    assert_eq!(vector.data_type(), ConcreteDataType::Int64);
    assert_eq!(
        cells(&vector),
        vec![Value::Int64(7), Value::Int64(7), Value::Int64(7)]
    );
}

#[test]
fn float_is_broadcast_bit_for_bit() {
    let bits = 2.5f64.to_bits();
    let vector = py_vec_obj_to_array(&PyValue::Float(bits), 2).unwrap();
    assert_eq!(vector.data_type(), ConcreteDataType::Float64);
    assert_eq!(
        cells(&vector),
        vec![Value::Float64(bits), Value::Float64(bits)]
    );
    match vector.get(1) {
        Value::Float64(found) => assert_eq!(f64::from_bits(found), 2.5),
        other => panic!("unexpected cell {other:?}"),
    }
}

#[test]
fn bool_is_broadcast_as_a_boolean() {
    let vector = py_vec_obj_to_array(&PyValue::Bool(true), 4).unwrap();
    assert_eq!(vector.data_type(), ConcreteDataType::Boolean);
    assert_eq!(cells(&vector), vec![Value::Boolean(true); 4]);
}

#[test]
fn string_is_broadcast() {
    let vector = py_vec_obj_to_array(&PyValue::Str("ab".to_string()), 2).unwrap();
    assert_eq!(vector.data_type(), ConcreteDataType::String);
    assert_eq!(
        cells(&vector),
        vec![
            Value::String("ab".to_string()),
            Value::String("ab".to_string())
        ]
    );
}

#[test]
fn scalar_at_length_zero_gives_an_empty_typed_vector() {
    let vector = py_vec_obj_to_array(&PyValue::Int(1), 0).unwrap();
    assert_eq!(vector.data_type(), ConcreteDataType::Int64);
    assert_eq!(vector.len(), 0);
    assert!(vector.is_empty());
}

#[test]
fn scalar_length_is_exactly_the_requested_one() {
    for len in [0usize, 1, 2, 17, 100] {
        for scalar in [
            PyValue::Int(-3),
            PyValue::Float(0.25f64.to_bits()),
            PyValue::Bool(false),
            PyValue::Str("x".to_string()),
        ] {
            let vector = py_vec_obj_to_array(&scalar, len).unwrap();
            assert_eq!(vector.len(), len);
            for i in 0..len {
                assert_eq!(vector.get(i), vector.get(0));
            }
        }
    }
}

#[test]
fn vector_is_handed_back_shared() {
    let native: VectorRef = Arc::new(
        Vector::try_new(
            ConcreteDataType::UInt32,
            vec![Value::UInt32(1), Value::Null, Value::UInt32(3)],
        )
        .unwrap(),
    );
    let returned = PyValue::Vector(native.clone());
    let vector = py_vec_obj_to_array(&returned, 10).unwrap();
    assert!(Arc::ptr_eq(&vector, &native));
    assert_eq!(vector.len(), 3);
    assert_eq!(Arc::strong_count(&native), 3);
}

#[test]
fn empty_list_gives_no_rows_whatever_the_length() {
    for len in [0usize, 1, 5, 1000] {
        let vector = py_vec_obj_to_array(&PyValue::List(vec![]), len).unwrap();
        assert_eq!(vector.len(), 0);
        assert_eq!(vector.data_type(), ConcreteDataType::Null);
    }
}

#[test]
fn list_of_ints_becomes_its_cells() {
    let list = PyValue::List(vec![
        PyValue::Int(1),
        PyValue::Int(2),
        PyValue::Int(2),
        PyValue::Int(3),
    ]);
    let vector = py_vec_obj_to_array(&list, 1).unwrap();
    assert_eq!(vector.data_type(), ConcreteDataType::Int64);
    assert_eq!(
        cells(&vector),
        vec![
            Value::Int64(1),
            Value::Int64(2),
            Value::Int64(2),
            Value::Int64(3)
        ]
    );
}

#[test]
fn list_of_strings_becomes_its_cells() {
    let list = PyValue::List(vec![
        PyValue::Str("a".to_string()),
        PyValue::Str("b".to_string()),
    ]);
    let vector = py_vec_obj_to_array(&list, 7).unwrap();
    assert_eq!(vector.data_type(), ConcreteDataType::String);
    assert_eq!(
        cells(&vector),
        vec![Value::String("a".to_string()), Value::String("b".to_string())]
    );
}

#[test]
fn list_of_mixed_scalars_is_refused() {
    let list = PyValue::List(vec![PyValue::Int(1), PyValue::Bool(true)]);
    assert_eq!(
        py_vec_obj_to_array(&list, 2).unwrap_err(),
        Error::Coercion {
            msg: "Expect a list of scalars that all have the same type".to_string()
        }
    );
    let list = PyValue::List(vec![PyValue::Float(0), PyValue::Float(1), PyValue::Int(1)]);
    assert!(matches!(
        py_vec_obj_to_array(&list, 3),
        Err(Error::Coercion { .. })
    ));
}

#[test]
fn list_that_holds_no_scalar_is_refused() {
    let native: VectorRef = Arc::new(Vector::new_null(2));
    for item in [
        PyValue::Vector(native),
        PyValue::List(vec![PyValue::Int(1)]),
        PyValue::Other("<dict>".to_string()),
    ] {
        let first = PyValue::List(vec![item]);
        assert!(matches!(
            py_vec_obj_to_array(&first, 1),
            Err(Error::Coercion { .. })
        ));
    }
    let later = PyValue::List(vec![PyValue::Int(1), PyValue::Other("None".to_string())]);
    assert!(matches!(
        py_vec_obj_to_array(&later, 1),
        Err(Error::Coercion { .. })
    ));
}

#[test]
fn unsupported_kind_is_refused_by_name() {
    let found = PyValue::Other("<dict object>".to_string());
    for len in [0usize, 3] {
        assert_eq!(
            py_vec_obj_to_array(&found, len).unwrap_err(),
            Error::Coercion {
                msg: "Expect a vector or a constant, found <dict object>".to_string()
            }
        );
    }
}

#[test]
fn distinct_count_wrapped_in_a_list_gives_one_row() {
    let values = [1i64, 2, 2, 3];
    let mut distinct: Vec<i64> = values.to_vec();
    distinct.sort();
    distinct.dedup();
    let returned = PyValue::List(vec![PyValue::Int(distinct.len() as i64)]);
    let vector = py_vec_obj_to_array(&returned, values.len()).unwrap();
    assert_eq!(cells(&vector), vec![Value::Int64(3)]);
}

#[test]
fn written_exception_becomes_the_message() {
    assert_eq!(
        format_py_error(Ok("ZeroDivisionError: division by zero".to_string())),
        Error::Execution {
            msg: "ZeroDivisionError: division by zero".to_string()
        }
    );
}

#[test]
fn unwritten_exception_reports_the_reason() {
    assert_eq!(
        format_py_error(Err("an error occurred when formatting".to_string())),
        Error::Execution {
            msg: "Failed to write exception msg, err: an error occurred when formatting"
                .to_string()
        }
    );
}
