//! The signature under which a scalar function is offered to queries.

use vstd::prelude::*;
use crate::datatypes::ConcreteDataType;

verus! {

/// How the result of a function depends on when it is called.
#[derive(Clone, Copy, Debug, PartialEq, Eq, Structural)]
pub enum Volatility {
    /// Equal arguments always give an equal result.
    Immutable,
    /// Equal arguments give an equal result within one query.
    Stable,
    /// The result may change from call to call.
    Volatile,
}

/// The arguments that a function accepts.
#[derive(Clone, Debug, PartialEq, Eq)]
pub enum TypeSignature {
    /// Arguments of exactly the listed types.
    Variadic(Vec<ConcreteDataType>),
    /// The given number of arguments, of any type.
    Any(usize),
}

#[derive(Clone, Debug, PartialEq, Eq)]
pub struct Signature {
    pub type_signature: TypeSignature,
    pub volatility: Volatility,
}

impl Signature {
    pub fn variadic(valid_types: Vec<ConcreteDataType>, volatility: Volatility) -> (sig: Self)
        ensures
            sig == (Signature { type_signature: TypeSignature::Variadic(valid_types), volatility }),
    {
        Signature { type_signature: TypeSignature::Variadic(valid_types), volatility }
    }

    pub fn any(arg_count: usize, volatility: Volatility) -> (sig: Self)
        ensures
            sig == (Signature { type_signature: TypeSignature::Any(arg_count), volatility }),
    {
        Signature { type_signature: TypeSignature::Any(arg_count), volatility }
    }
}

} // verus!
