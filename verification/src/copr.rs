//! The coprocessor: what the compiler of scripts hands over.

use std::sync::Arc;
use vstd::prelude::*;
use crate::datatypes::ConcreteDataType;

verus! {

/// What a script declares of one argument or return value. The type is
/// `None` where the script leaves it open.
#[derive(Clone, Copy, Debug, PartialEq, Eq)]
pub struct AnnotationInfo {
    pub datatype: Option<ConcreteDataType>,
    pub is_nullable: bool,
}

/// The arguments of the decorator that marks a function as a coprocessor.
#[derive(Clone, Debug, PartialEq, Eq)]
pub struct DecoratorArgs {
    /// The names of the arguments, in order.
    pub arg_names: Option<Vec<String>>,
    /// The names of the returned columns, in order.
    pub ret_names: Vec<String>,
    /// The query whose result the coprocessor transforms.
    pub sql: Option<String>,
}

/// A compiled script. It is not changed after compilation, and all
/// executions of the script share it.
#[derive(Clone, Debug, PartialEq, Eq)]
pub struct Coprocessor {
    pub name: String,
    pub deco_args: DecoratorArgs,
    /// One entry for each argument, `None` where nothing is declared.
    pub arg_types: Vec<Option<AnnotationInfo>>,
    /// One entry for each return value, `None` where nothing is declared.
    pub return_types: Vec<Option<AnnotationInfo>>,
    pub script: String,
}

pub type CoprocessorRef = Arc<Coprocessor>;

/// The concrete type that a slot declares, if it declares one.
pub open spec fn declared_type(slot: Option<AnnotationInfo>) -> Option<ConcreteDataType> {
    match slot {
        Some(info) => info.datatype,
        None => None,
    }
}

/// Whether every slot declares a concrete type.
pub open spec fn all_declared(slots: Seq<Option<AnnotationInfo>>) -> bool {
    forall|i: int| 0 <= i < slots.len() ==> declared_type(#[trigger] slots[i]) is Some
}

/// The concrete types of the slots, in order, where every slot declares one.
pub open spec fn declared_types(slots: Seq<Option<AnnotationInfo>>) -> Seq<ConcreteDataType> {
    Seq::new(slots.len(), |i: int| declared_type(slots[i]).unwrap())
}

/// Whether `index` is the first slot that declares a concrete type.
pub open spec fn is_first_declared(slots: Seq<Option<AnnotationInfo>>, index: int) -> bool {
    &&& 0 <= index < slots.len()
    &&& declared_type(slots[index]) is Some
    &&& forall|j: int| 0 <= j < index ==> declared_type(#[trigger] slots[j]) is None
}

/// Whether no slot declares a concrete type.
pub open spec fn none_declared(slots: Seq<Option<AnnotationInfo>>) -> bool {
    forall|i: int| 0 <= i < slots.len() ==> declared_type(#[trigger] slots[i]) is None
}

impl Coprocessor {
    /// The names of the arguments; none where the decorator names none.
    pub open spec fn spec_arg_names(&self) -> Seq<String> {
        match self.deco_args.arg_names {
            Some(names) => names@,
            None => Seq::empty(),
        }
    }

    pub fn num_arg_names(&self) -> (n: usize)
        ensures
            n == self.spec_arg_names().len(),
    {
        match &self.deco_args.arg_names {
            Some(names) => names.len(),
            None => 0,
        }
    }
}

} // verus!
