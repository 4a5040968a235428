//! Scripts as user-defined functions over typed columnar batches.
//!
//! A compiled script (a coprocessor) carries a name, declared argument and
//! return types and, optionally, a query whose result it transforms. This
//! crate holds the rules that adapt such a coprocessor to a query stack: how
//! a dynamic value becomes a typed vector, which signature and return type a
//! scalar function built from a coprocessor reports, how one execution
//! proceeds from its parameters to its output, and how a stream of batches is
//! transformed batch by batch. Running the script itself, parsing and running
//! a query, and polling a stream are left to the caller, who hands their
//! results to the functions here.

pub mod copr;
pub mod datatypes;
pub mod engine;
pub mod error;
pub mod recordbatch;
pub mod registry;
pub mod schema;
pub mod shared;
pub mod signature;
pub mod utils;
pub mod vectors;
