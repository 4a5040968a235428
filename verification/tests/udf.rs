use std::sync::Arc;

use script::copr::{AnnotationInfo, Coprocessor, CoprocessorRef, DecoratorArgs};
use script::datatypes::{ConcreteDataType, Value};
use script::engine::PyUDF;
use script::error::Error;
use script::recordbatch::RecordBatch;
use script::schema::{ColumnSchema, Schema};
use script::signature::{Signature, TypeSignature, Volatility};
use script::vectors::{Vector, VectorRef};

fn typed(ty: ConcreteDataType) -> Option<AnnotationInfo> {
    Some(AnnotationInfo {
        datatype: Some(ty),
        is_nullable: false,
    })
}

fn untyped() -> Option<AnnotationInfo> {
    Some(AnnotationInfo {
        datatype: None,
        is_nullable: true,
    })
}

fn copr(
    name: &str,
    arg_names: Option<&[&str]>,
    arg_types: Vec<Option<AnnotationInfo>>,
    return_types: Vec<Option<AnnotationInfo>>,
) -> CoprocessorRef {
    Arc::new(Coprocessor {
        name: name.to_string(),
        deco_args: DecoratorArgs {
            arg_names: arg_names.map(|names| names.iter().map(|n| n.to_string()).collect()),
            ret_names: vec!["r".to_string()],
            sql: None,
        },
        arg_types,
        return_types,
        script: String::new(),
    })
}

fn floats(values: &[f64]) -> VectorRef {
    Arc::new(
        Vector::try_new(
            ConcreteDataType::Float64,
            values.iter().map(|x| Value::Float64(x.to_bits())).collect(),
        )
        .unwrap(),
    )
}

fn ints(values: &[i64]) -> VectorRef {
    Arc::new(
        Vector::try_new(
            ConcreteDataType::Int64,
            values.iter().map(|n| Value::Int64(*n)).collect(),
        )
        .unwrap(),
    )
}

fn float_at(vector: &VectorRef, index: usize) -> f64 {
    match vector.get(index) {
        Value::Float64(bits) => f64::from_bits(bits),
        other => panic!("unexpected cell {other:?}"),
    }
}

fn batch_of(columns: Vec<(&str, VectorRef)>) -> RecordBatch {
    let schema = Schema::new(
        columns
            .iter()
            .map(|(name, column)| ColumnSchema::new(name.to_string(), column.data_type(), true))
            .collect(),
    );
    RecordBatch::new(
        Arc::new(schema),
        columns.into_iter().map(|(_, column)| column).collect(),
    )
    .unwrap()
}

#[test]
fn name_is_the_name_of_the_coprocessor() {
    let descriptor = copr("test", None, vec![], vec![]);
    let udf = PyUDF::from_copr(descriptor.clone());
    assert_eq!(udf.name(), "test");
    assert!(Arc::ptr_eq(udf.copr(), &descriptor));
}

#[test]
fn written_out_with_its_arguments() {
    let udf = PyUDF::from_copr(copr("test", Some(&["a", "b", "c"]), vec![], vec![]));
    assert_eq!(udf.to_string(), "test(a,b,c)->");
    let udf = PyUDF::from_copr(copr("one", Some(&["number"]), vec![], vec![]));
    assert_eq!(udf.to_string(), "one(number)->");
    let udf = PyUDF::from_copr(copr("none", None, vec![], vec![]));
    assert_eq!(udf.to_string(), "none()->");
    let udf = PyUDF::from_copr(copr("empty", Some(&[]), vec![], vec![]));
    assert_eq!(udf.to_string(), "empty()->");
}

#[test]
fn return_type_is_the_declared_one() {
    let udf = PyUDF::from_copr(copr(
        "test",
        None,
        vec![],
        vec![typed(ConcreteDataType::UInt32)],
    ));
    assert_eq!(udf.return_type(&[]), Ok(ConcreteDataType::UInt32));
    assert_eq!(
        udf.return_type(&[ConcreteDataType::String, ConcreteDataType::Boolean]),
        Ok(ConcreteDataType::UInt32)
    );
}

#[test]
fn return_type_is_that_of_the_first_typed_slot() {
    let udf = PyUDF::from_copr(copr(
        "test",
        None,
        vec![],
        vec![
            None,
            untyped(),
            typed(ConcreteDataType::Float64),
            typed(ConcreteDataType::Int64),
        ],
    ));
    assert_eq!(udf.return_type(&[]), Ok(ConcreteDataType::Float64));
}

#[test]
fn return_type_is_missing_without_a_typed_slot() {
    for return_types in [vec![], vec![None], vec![untyped(), None]] {
        let udf = PyUDF::from_copr(copr("untyped", None, vec![], return_types));
        assert_eq!(
            udf.return_type(&[ConcreteDataType::Int64]),
            Err(Error::MissingReturnType {
                name: "untyped".to_string()
            })
        );
    }
}

#[test]
fn signature_lists_the_types_when_all_are_declared() {
    let udf = PyUDF::from_copr(copr(
        "test",
        Some(&["a", "b"]),
        vec![
            typed(ConcreteDataType::Int64),
            typed(ConcreteDataType::String),
        ],
        vec![],
    ));
    assert_eq!(
        *udf.signature(),
        Signature {
            type_signature: TypeSignature::Variadic(vec![
                ConcreteDataType::Int64,
                ConcreteDataType::String
            ]),
            volatility: Volatility::Immutable,
        }
    );
    assert!(std::ptr::eq(udf.signature(), udf.signature()));
}

#[test]
fn signature_counts_the_arguments_when_a_type_is_open() {
    for arg_types in [
        vec![typed(ConcreteDataType::Int64), None, typed(ConcreteDataType::Int64)],
        vec![untyped(), typed(ConcreteDataType::Int64), typed(ConcreteDataType::Int64)],
        vec![typed(ConcreteDataType::Int64), typed(ConcreteDataType::Int64), untyped()],
    ] {
        let udf = PyUDF::from_copr(copr("test", Some(&["a", "b", "c"]), arg_types, vec![]));
        assert_eq!(
            *udf.signature(),
            Signature::any(3, Volatility::Immutable)
        );
    }
}

#[test]
fn signature_without_arguments_lists_no_type() {
    let udf = PyUDF::from_copr(copr("test", None, vec![], vec![]));
    assert_eq!(
        *udf.signature(),
        Signature::variadic(vec![], Volatility::Immutable)
    );
}

#[test]
fn schema_binds_names_to_columns_in_order() {
    let udf = PyUDF::from_copr(copr("test", Some(&["a", "b", "c"]), vec![], vec![]));
    let schema = udf.fake_schema(&[floats(&[1.0]), ints(&[1])]);
    assert_eq!(
        schema.column_schemas(),
        &vec![
            ColumnSchema::new("a".to_string(), ConcreteDataType::Float64, true),
            ColumnSchema::new("b".to_string(), ConcreteDataType::Int64, true),
        ]
    );
    assert_eq!(udf.fake_schema(&[]).num_columns(), 0);
}

#[test]
fn eval_hands_the_script_one_batch_and_no_parameter() {
    let udf = PyUDF::from_copr(copr("test", Some(&["a", "b"]), vec![], vec![]));
    let a = floats(&[1.0, 2.0, 3.0]);
    let b = ints(&[4, 5, 6]);
    let call = udf.eval(&[a.clone(), b.clone()]).unwrap();
    assert!(call.params.is_empty());
    let batch = call.batch.unwrap();
    assert_eq!(batch.num_columns(), 2);
    assert_eq!(batch.num_rows(), 3);
    assert!(Arc::ptr_eq(batch.column(0), &a));
    assert!(Arc::ptr_eq(batch.column(1), &b));
    assert_eq!(batch.schema().column_schemas()[0].name, "a");
    assert_eq!(batch.schema().column_schemas()[1].name, "b");
    assert_eq!(
        batch.schema().column_schemas()[1].data_type,
        ConcreteDataType::Int64
    );
}

#[test]
fn eval_refuses_columns_of_different_lengths() {
    let udf = PyUDF::from_copr(copr("test", Some(&["a", "b"]), vec![], vec![]));
    assert_eq!(
        udf.eval(&[ints(&[1, 2]), ints(&[1])]).unwrap_err(),
        Error::InvalidRecordBatch {
            msg: "columns differ in length".to_string()
        }
    );
}

#[test]
fn eval_without_columns_hands_over_an_empty_batch() {
    let udf = PyUDF::from_copr(copr("test", None, vec![], vec![]));
    let call = udf.eval(&[]).unwrap();
    assert_eq!(call.batch.unwrap().num_columns(), 0);
}

#[test]
fn eval_output_is_the_first_column() {
    let udf = PyUDF::from_copr(copr("test", None, vec![], vec![]));
    let first = ints(&[1, 2]);
    let output = batch_of(vec![("r", first.clone()), ("s", floats(&[0.5, 1.5]))]);
    let column = udf.eval_output(Ok(output)).unwrap();
    assert!(Arc::ptr_eq(&column, &first));
}

#[test]
fn eval_output_without_columns_is_a_failure() {
    let udf = PyUDF::from_copr(copr("test", None, vec![], vec![]));
    assert_eq!(
        udf.eval_output(Ok(batch_of(vec![]))),
        Err(Error::ZeroColumnOutput)
    );
}

#[test]
fn eval_output_hands_a_failure_on() {
    let udf = PyUDF::from_copr(copr("test", None, vec![], vec![]));
    let fault = Error::Execution {
        msg: "NameError: name 'x' is not defined".to_string(),
    };
    assert_eq!(udf.eval_output(Err(fault.clone())), Err(fault));
}

/// Stands for the script `ret = a + 3.0; ret = ret * 2.0; ret = ret / 2.0;
/// ret = ret - 3.0; ret`.
fn arithmetic(batch: &RecordBatch) -> RecordBatch {
    let a = batch.column(0);
    let ret: Vec<f64> = (0..a.len())
        .map(|i| (((float_at(a, i) + 3.0) * 2.0) / 2.0) - 3.0)
        .collect();
    batch_of(vec![("ret", floats(&ret))])
}

#[test]
fn elementwise_script_keeps_the_length() {
    let udf = PyUDF::from_copr(copr("test", Some(&["a"]), vec![], vec![]));
    let call = udf.eval(&[floats(&[1.0, 2.0, 3.0])]).unwrap();
    let output = arithmetic(call.batch.as_ref().unwrap());
    let column = udf.eval_output(Ok(output)).unwrap();
    assert_eq!(column.len(), 3);
    assert_eq!(float_at(&column, 0), 1.0);
    assert_eq!(float_at(&column, 1), 2.0);
    assert_eq!(float_at(&column, 2), 3.0);
}

#[test]
fn reducing_script_gives_one_row() {
    let udf = PyUDF::from_copr(copr("test", Some(&["values"]), vec![], vec![]));
    let values: Vec<f64> = (1..=10).map(|n| n as f64).collect();
    let call = udf.eval(&[floats(&values)]).unwrap();
    let input = call.batch.unwrap();
    let sum: f64 = (0..input.num_rows())
        .map(|i| float_at(input.column(0), i))
        .sum();
    let column = udf
        .eval_output(Ok(batch_of(vec![("ret", floats(&[sum]))])))
        .unwrap();
    assert_eq!(column.len(), 1);
    assert_eq!(float_at(&column, 0), 55.0);
}
