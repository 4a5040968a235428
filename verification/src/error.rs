//! The failures that the adapter layer reports.

use vstd::prelude::*;
use vstd::string::*;

verus! {

/// Every failure surfaces to the nearest caller under one of these kinds and
/// is never turned into another kind on its way.
#[derive(Clone, Debug, PartialEq, Eq)]
pub enum Error {
    /// The script could not be compiled into a coprocessor.
    Compile { msg: String },
    /// A dynamic value has no representation as a typed vector.
    Coercion { msg: String },
    /// The query attached to a coprocessor is not a pure read statement.
    UnsupportedSql { sql: String },
    /// The script failed while it ran.
    Execution { msg: String },
    /// Columns and schema do not make up a record batch.
    InvalidRecordBatch { msg: String },
    /// A script that serves as a scalar function returned no column.
    ZeroColumnOutput,
    /// The coprocessor declares no concrete type for what it returns.
    MissingReturnType { name: String },
    /// A collaborator broke its contract, such as a query engine that answers
    /// a read statement with something other than a stream.
    InternalContractViolation { msg: String },
}

impl Error {
    /// The failure in words: what kind it is of, then what it carries.
    pub open spec fn spec_text(&self) -> Seq<char> {
        match *self {
            Error::Compile { msg } => "Failed to compile script: "@ + msg@,
            Error::Coercion { msg } => "Failed to coerce value: "@ + msg@,
            Error::UnsupportedSql { sql } => "Unsupported sql in coprocessor: "@ + sql@,
            Error::Execution { msg } => "Python runtime error: "@ + msg@,
            Error::InvalidRecordBatch { msg } => "Failed to create record batch: "@ + msg@,
            Error::ZeroColumnOutput => "Python UDF should return exactly one column, found zero column"@,
            Error::MissingReturnType { name } => "Can't find return type for python UDF "@
                + name@,
            Error::InternalContractViolation { msg } => "Unexpected: "@ + msg@,
        }
    }

    pub fn to_string(&self) -> (text: String)
        ensures
            text@ == self.spec_text(),
    {
        match self {
            Error::Compile { msg } => String::from_str("Failed to compile script: ").concat(
                msg.as_str(),
            ),
            Error::Coercion { msg } => String::from_str("Failed to coerce value: ").concat(
                msg.as_str(),
            ),
            Error::UnsupportedSql { sql } => String::from_str(
                "Unsupported sql in coprocessor: ",
            ).concat(sql.as_str()),
            Error::Execution { msg } => String::from_str("Python runtime error: ").concat(
                msg.as_str(),
            ),
            Error::InvalidRecordBatch { msg } => String::from_str(
                "Failed to create record batch: ",
            ).concat(msg.as_str()),
            Error::ZeroColumnOutput => String::from_str(
                "Python UDF should return exactly one column, found zero column",
            ),
            Error::MissingReturnType { name } => String::from_str(
                "Can't find return type for python UDF ",
            ).concat(name.as_str()),
            Error::InternalContractViolation { msg } => String::from_str("Unexpected: ").concat(
                msg.as_str(),
            ),
        }
    }
}

} // verus!
