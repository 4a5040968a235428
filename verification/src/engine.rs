//! A coprocessor as a scalar function, as a unit of execution, and as a
//! transform of a stream of batches.
//!
//! Nothing here runs a script, a query or a stream. Each operation is cut at
//! the points where such work is due: one function says what is to be run,
//! the caller runs it, and the next function takes what came back.

use std::collections::HashMap;
use std::sync::Arc;
use vstd::prelude::*;
use vstd::string::*;
use crate::copr::{
    all_declared, declared_type, declared_types, is_first_declared, none_declared, AnnotationInfo,
    Coprocessor, CoprocessorRef,
};
use crate::datatypes::ConcreteDataType;
use crate::error::Error;
use crate::recordbatch::{equal_lengths, length_mismatch_message, RecordBatch, RecordBatches};
use crate::registry::FunctionRegistry;
use crate::schema::{ColumnSchema, Schema, SchemaRef};
use crate::shared::share;
use crate::signature::{Signature, TypeSignature, Volatility};
use crate::vectors::VectorRef;

verus! {

/// One run of a script that the caller is to make: the coprocessor on
/// `batch`, if there is one, with `params`.
#[derive(Debug)]
pub struct ScriptCall {
    pub batch: Option<RecordBatch>,
    pub params: Arc<HashMap<String, String>>,
}

/// The schema that gives column `i` the name `names[i]` and the type of
/// `columns[i]`, and lets every column hold nulls.
pub open spec fn bound_schema(names: Seq<String>, columns: Seq<VectorRef>) -> Seq<ColumnSchema> {
    Seq::new(
        columns.len(),
        |i: int|
            ColumnSchema {
                name: names[i],
                data_type: columns[i].spec_data_type(),
                is_nullable: true,
            },
    )
}

/// The names, in order, with a comma between each two of them.
pub open spec fn comma_separated(names: Seq<String>) -> Seq<char>
    decreases names.len(),
{
    if names.len() == 0 {
        Seq::empty()
    } else if names.len() == 1 {
        names[0]@
    } else {
        comma_separated(names.drop_last()) + ","@ + names.last()@
    }
}

/// How a scalar function made of a coprocessor named `name`, with arguments
/// named `arg_names`, is written out.
pub open spec fn udf_text(name: Seq<char>, arg_names: Seq<String>) -> Seq<char> {
    name + "("@ + comma_separated(arg_names) + ")->"@
}

/// Whether `sig` is the signature of a function whose arguments are declared
/// as `arg_types`: the declared types, in order, where every argument
/// declares one, and otherwise only the number of arguments. Equal arguments
/// always give an equal result.
pub open spec fn is_signature_of(arg_types: Seq<Option<AnnotationInfo>>, sig: Signature) -> bool {
    &&& sig.volatility == Volatility::Immutable
    &&& all_declared(arg_types) ==> (sig.type_signature matches TypeSignature::Variadic(types)
        && types@ == declared_types(arg_types))
    &&& !all_declared(arg_types) ==> sig.type_signature == TypeSignature::Any(
        arg_types.len() as usize,
    )
}

/// A coprocessor offered to queries as a scalar function. Its signature is
/// worked out when the function is made and kept with it.
#[derive(Debug)]
pub struct PyUDF {
    copr: CoprocessorRef,
    signature: Signature,
}

impl PyUDF {
    #[verifier::type_invariant]
    spec fn well_formed(self) -> bool {
        is_signature_of(self.copr.arg_types@, self.signature)
    }

    pub closed spec fn spec_copr(&self) -> CoprocessorRef {
        self.copr
    }

    pub fn from_copr(copr: CoprocessorRef) -> (udf: Arc<Self>)
        ensures
            udf.spec_copr() == copr,
    {
        let signature = signature_of(&copr.arg_types);
        Arc::new(PyUDF { copr, signature })
    }

    pub fn copr(&self) -> (copr: &CoprocessorRef)
        ensures
            *copr == self.spec_copr(),
    {
        &self.copr
    }

    /// The key under which the function is registered: the name of the
    /// coprocessor.
    pub fn name(&self) -> (name: &str)
        ensures
            name@ == self.spec_copr().name@,
    {
        self.copr.name.as_str()
    }

    /// The function written out: its name, then the names of its arguments in
    /// brackets, then an arrow.
    pub fn to_string(&self) -> (text: String)
        ensures
            text@ == udf_text(self.spec_copr().name@, self.spec_copr().spec_arg_names()),
    {
        let mut text = self.copr.name.clone();
        text.append("(");
        match &self.copr.deco_args.arg_names {
            Some(arg_names) => {
                let mut i: usize = 0;
                while i < arg_names.len()
                    invariant
                        i <= arg_names@.len(),
                        text@ == self.copr.name@ + "("@ + comma_separated(
                            arg_names@.subrange(0, i as int),
                        ),
                    decreases arg_names.len() - i,
                {
                    let ghost head = arg_names@.subrange(0, i as int);
                    let ghost next = arg_names@.subrange(0, i + 1);
                    if i > 0 {
                        text.append(",");
                    }
                    text.append(arg_names[i].as_str());
                    proof {
                        assert(next.drop_last() == head);
                        if i > 0 {
                            assert(text@ =~= self.copr.name@ + "("@ + (comma_separated(head) + ","@
                                + arg_names@[i as int]@));
                        }
                    }
                    i += 1;
                }
                assert(arg_names@.subrange(0, i as int) == arg_names@);
            },
            None => {
            },
        }
        text.append(")->");
        text
    }

    /// The type of what the function returns: the type of the first return
    /// slot that declares one, whatever the types of the arguments are.
    /// Without such a slot there is no type to report, and none is guessed.
    pub fn return_type(&self, _input_types: &[ConcreteDataType]) -> (r: Result<
        ConcreteDataType,
        Error,
    >)
        ensures
            r is Err <==> none_declared(self.spec_copr().return_types@),
            r matches Ok(ty) ==> exists|i: int|
                is_first_declared(self.spec_copr().return_types@, i) && declared_type(
                    #[trigger] self.spec_copr().return_types@[i],
                ) == Some(ty),
            r matches Err(e) ==> e == (Error::MissingReturnType { name: self.spec_copr().name }),
    {
        let mut i: usize = 0;
        while i < self.copr.return_types.len()
            invariant
                i <= self.copr.return_types@.len(),
                forall|j: int|
                    0 <= j < i ==> declared_type(#[trigger] self.copr.return_types@[j]) is None,
            decreases self.copr.return_types.len() - i,
        {
            match &self.copr.return_types[i] {
                Some(AnnotationInfo { datatype: Some(ty), .. }) => {
                    return Ok(*ty);
                },
                _ => {},
            }
            i += 1;
        }
        Err(Error::MissingReturnType { name: self.copr.name.clone() })
    }

    /// The signature of the function: the declared types, in order, where
    /// every argument declares one, and otherwise only the number of
    /// arguments.
    pub fn signature(&self) -> (sig: &Signature)
        ensures
            is_signature_of(self.spec_copr().arg_types@, *sig),
    {
        proof {
            use_type_invariant(self);
        }
        &self.signature
    }

    /// The schema of the batch that one evaluation hands to the script:
    /// column `i` bears the name of argument `i` and the type of
    /// `columns[i]`.
    pub fn fake_schema(&self, columns: &[VectorRef]) -> (schema: SchemaRef)
        requires
            columns@.len() <= self.spec_copr().spec_arg_names().len(),
        ensures
            schema@ == bound_schema(self.spec_copr().spec_arg_names(), columns@),
    {
        let mut col_sch: Vec<ColumnSchema> = Vec::new();
        match &self.copr.deco_args.arg_names {
            Some(arg_names) => {
                let mut i: usize = 0;
                while i < columns.len()
                    invariant
                        i <= columns@.len(),
                        columns@.len() <= arg_names@.len(),
                        col_sch@ == bound_schema(arg_names@, columns@.subrange(0, i as int)),
                    decreases columns.len() - i,
                {
                    col_sch.push(
                        ColumnSchema::new(arg_names[i].clone(), columns[i].data_type(), true),
                    );
                    i += 1;
                }
            },
            None => {
            },
        }
        Arc::new(Schema::new(col_sch))
    }

    /// The first step of one evaluation on `columns`: the run of the script
    /// that the caller is to make. Argument `i` is bound to `columns[i]`, no
    /// query is attached and no parameter is given. Columns of different
    /// lengths make no batch and are refused.
    pub fn eval(&self, columns: &[VectorRef]) -> (r: Result<ScriptCall, Error>)
        requires
            columns@.len() <= self.spec_copr().spec_arg_names().len(),
        ensures
            r is Ok <==> equal_lengths(columns@),
            r matches Ok(call) ==> {
                &&& call.params@ == Map::<String, String>::empty()
                &&& call.batch matches Some(batch)
                &&& batch.spec_columns() == columns@
                &&& batch.spec_schema()@ == bound_schema(
                    self.spec_copr().spec_arg_names(),
                    columns@,
                )
            },
            r matches Err(e) ==> (e matches Error::InvalidRecordBatch { msg } && msg@
                == length_mismatch_message()),
    {
        let schema = self.fake_schema(columns);
        let mut shared: Vec<VectorRef> = Vec::new();
        let mut i: usize = 0;
        while i < columns.len()
            invariant
                i <= columns@.len(),
                shared@ == columns@.subrange(0, i as int),
            decreases columns.len() - i,
        {
            shared.push(share(&columns[i]));
            i += 1;
        }
        assert(columns@.subrange(0, i as int) == columns@);
        let batch = RecordBatch::new(schema, shared)?;
        Ok(ScriptCall { batch: Some(batch), params: Arc::new(HashMap::new()) })
    }

    /// The last step of one evaluation: the first column of what the script
    /// returned. Further columns are dropped. A script that returned no
    /// column is a failure, and a failure of the script is handed on as it
    /// is.
    pub fn eval_output(&self, output: Result<RecordBatch, Error>) -> (r: Result<VectorRef, Error>)
        ensures
            output matches Err(e) ==> r == Err::<VectorRef, Error>(e),
            output matches Ok(batch) ==> (if batch.spec_columns().len() == 0 {
                r == Err::<VectorRef, Error>(Error::ZeroColumnOutput)
            } else {
                &&& r == Ok::<VectorRef, Error>(batch.spec_columns()[0])
                &&& r->Ok_0@.len() == batch.spec_num_rows()
            }),
    {
        match output {
            Ok(batch) => {
                if batch.num_columns() == 0 {
                    Err(Error::ZeroColumnOutput)
                } else {
                    Ok(share(batch.column(0)))
                }
            },
            Err(e) => Err(e),
        }
    }
}

/// The signature for arguments that are declared as `arg_types`.
fn signature_of(arg_types: &Vec<Option<AnnotationInfo>>) -> (sig: Signature)
    ensures
        is_signature_of(arg_types@, sig),
{
    let mut types: Vec<ConcreteDataType> = Vec::new();
    let mut i: usize = 0;
    while i < arg_types.len()
        invariant
            i <= arg_types@.len(),
            all_declared(arg_types@.subrange(0, i as int)),
            types@ == declared_types(arg_types@.subrange(0, i as int)),
        decreases arg_types.len() - i,
    {
        match &arg_types[i] {
            Some(AnnotationInfo { datatype: Some(ty), .. }) => {
                types.push(*ty);
            },
            _ => {
                return Signature::any(arg_types.len(), Volatility::Immutable);
            },
        }
        i += 1;
    }
    assert(arg_types@.subrange(0, i as int) == arg_types@);
    Signature::variadic(types, Volatility::Immutable)
}

/// The kind of a parsed statement.
#[derive(Clone, Copy, Debug, PartialEq, Eq, Structural)]
pub enum StatementKind {
    /// A pure read.
    Query,
    Insert,
    Delete,
    CreateDatabase,
    CreateTable,
    DropTable,
    Alter,
    ShowDatabases,
    ShowTables,
    ShowCreateTable,
    DescribeTable,
    Explain,
    Use,
    CopyTable,
}

/// What a query engine or the execution of a script gives back. `S` is the
/// type of a stream of batches.
#[derive(Debug)]
pub enum Output<S> {
    AffectedRows(usize),
    RecordBatches(RecordBatches),
    Stream(S),
}

/// What the caller of `PyScript::execute` is to do next.
#[derive(Debug)]
pub enum ExecuteStep {
    /// Parse `sql`, have `check_statement` accept its kind, plan and run it
    /// under a fresh default context, and hand the result with `params` to
    /// `PyScript::query_output`.
    Query { sql: String, params: Arc<HashMap<String, String>> },
    /// Run the script and hand the result to `PyScript::script_output`.
    Script(ScriptCall),
}

/// The message of the error for a query engine that answers a read
/// statement with something other than a stream.
pub open spec fn not_a_stream_message() -> Seq<char> {
    "the query engine did not answer a query with a stream"@
}

/// Accepts the statement that the attached query `sql` was parsed to if it
/// is a pure read, and refuses every other kind with the text of the query.
/// The query is planned and run only once it is accepted.
pub fn check_statement(sql: &str, kind: StatementKind) -> (r: Result<(), Error>)
    ensures
        kind is Query <==> r is Ok,
        r matches Err(e) ==> (e matches Error::UnsupportedSql { sql: text } && text@ == sql@),
{
    match kind {
        StatementKind::Query => Ok(()),
        _ => Err(Error::UnsupportedSql { sql: String::from_str(sql) }),
    }
}

/// A coprocessor bound to the query engine that runs its attached query.
/// `Q` is the type of the query engine.
#[derive(Debug)]
pub struct PyScript<Q> {
    query_engine: Arc<Q>,
    copr: CoprocessorRef,
}

impl<Q> PyScript<Q> {
    pub closed spec fn spec_copr(&self) -> CoprocessorRef {
        self.copr
    }

    pub closed spec fn spec_query_engine(&self) -> Arc<Q> {
        self.query_engine
    }

    pub fn new(query_engine: Arc<Q>, copr: CoprocessorRef) -> (script: Self)
        ensures
            script.spec_query_engine() == query_engine,
            script.spec_copr() == copr,
    {
        PyScript { query_engine, copr }
    }

    pub fn copr(&self) -> (copr: &CoprocessorRef)
        ensures
            *copr == self.spec_copr(),
    {
        &self.copr
    }

    pub fn query_engine(&self) -> (query_engine: &Arc<Q>)
        ensures
            *query_engine == self.spec_query_engine(),
    {
        &self.query_engine
    }

    pub fn engine_name(&self) -> (name: &'static str)
        ensures
            name@ == "python"@,
    {
        "python"
    }

    /// Registers the script as a scalar function under its own name, in the
    /// general table `functions` and in the table `engine_functions` of the
    /// query engine. Both tables receive the same function, which is handed
    /// back; in each it replaces what stood under the name.
    pub fn register_udf(
        &self,
        functions: &mut FunctionRegistry,
        engine_functions: &mut FunctionRegistry,
    ) -> (udf: Arc<PyUDF>)
        ensures
            udf.spec_copr() == self.spec_copr(),
            final(functions)@ == old(functions)@.insert(self.spec_copr().name@, udf),
            final(engine_functions)@ == old(engine_functions)@.insert(
                self.spec_copr().name@,
                udf,
            ),
    {
        let udf = PyUDF::from_copr(share(&self.copr));
        functions.register(share(&udf));
        engine_functions.register(share(&udf));
        udf
    }

    /// The first step of one execution with `params`. With an attached query
    /// the query comes first, and the coprocessor will transform its result;
    /// without one the script runs at once, on no batch.
    pub fn execute(&self, params: HashMap<String, String>) -> (step: ExecuteStep)
        ensures
            self.spec_copr().deco_args.sql matches Some(sql) ==> (step
                matches ExecuteStep::Query { sql: text, params: kept } && text == sql && *kept
                == params),
            self.spec_copr().deco_args.sql is None ==> (step matches ExecuteStep::Script(call)
                && call.batch is None && *call.params == params),
    {
        match &self.copr.deco_args.sql {
            Some(sql) => ExecuteStep::Query { sql: sql.clone(), params: Arc::new(params) },
            None => ExecuteStep::Script(ScriptCall { batch: None, params: Arc::new(params) }),
        }
    }

    /// The output of an execution whose attached query gave `output`: the
    /// stream of the query, to be transformed batch by batch by this
    /// coprocessor with `params`. A query engine that answers a read
    /// statement with anything but a stream has broken its contract.
    pub fn query_output<S>(&self, params: Arc<HashMap<String, String>>, output: Output<S>) -> (r:
        Result<Output<CoprStream<S>>, Error>)
        ensures
            output matches Output::Stream(stream) ==> (r matches Ok(Output::Stream(wrapped)) && {
                &&& wrapped.spec_stream() == stream
                &&& wrapped.spec_copr() == self.spec_copr()
                &&& wrapped.spec_params() == params
            }),
            !(output is Stream) ==> (r matches Err(Error::InternalContractViolation { msg })
                && msg@ == not_a_stream_message()),
    {
        match output {
            Output::Stream(stream) => Ok(
                Output::Stream(CoprStream::new(stream, share(&self.copr), params)),
            ),
            _ => Err(
                Error::InternalContractViolation {
                    msg: String::from_str("the query engine did not answer a query with a stream"),
                },
            ),
        }
    }

    /// The output of an execution without an attached query, whose script
    /// gave `result`: the one batch, held in memory under its own schema. A
    /// failure of the script is handed on as it is.
    pub fn script_output<S>(&self, result: Result<RecordBatch, Error>) -> (r: Result<
        Output<CoprStream<S>>,
        Error,
    >)
        ensures
            result matches Ok(batch) ==> (r matches Ok(Output::RecordBatches(all)) && {
                &&& all.spec_schema() == batch.spec_schema()
                &&& all.spec_batches() == seq![batch]
            }),
            result matches Err(e) ==> (r matches Err(f) && f == e),
    {
        match result {
            Ok(batch) => Ok(Output::RecordBatches(RecordBatches::single(batch))),
            Err(e) => Err(e),
        }
    }
}

/// What one poll of a stream of batches yields: nothing yet, the next batch,
/// a failure in its place, or the end of the stream.
#[derive(Debug)]
pub enum StreamPoll {
    Pending,
    Ready(Option<Result<RecordBatch, Error>>),
}

/// What `CoprStream::poll_next` decides on one poll of the upstream.
#[derive(Debug)]
pub enum StreamStep {
    /// Yield this; no script is run.
    Yield(StreamPoll),
    /// Run the script and yield what `CoprStream::poll_output` makes of the
    /// result.
    Transform(ScriptCall),
}

/// The decision on one poll of the upstream: a batch is to be transformed
/// with `params`, everything else is yielded as it came.
pub open spec fn stream_step(upstream: StreamPoll, params: Arc<HashMap<String, String>>) -> StreamStep {
    match upstream {
        StreamPoll::Ready(Some(Ok(batch))) => StreamStep::Transform(
            ScriptCall { batch: Some(batch), params },
        ),
        _ => StreamStep::Yield(upstream),
    }
}

/// What is yielded for a batch on which the script gave `output`.
pub open spec fn stream_output(output: Result<RecordBatch, Error>) -> StreamPoll {
    StreamPoll::Ready(Some(output))
}

/// What the transformed stream yields on one poll of the upstream, where
/// `transform` stands for running the script.
pub open spec fn stream_poll(
    upstream: StreamPoll,
    params: Arc<HashMap<String, String>>,
    transform: spec_fn(ScriptCall) -> Result<RecordBatch, Error>,
) -> StreamPoll {
    match stream_step(upstream, params) {
        StreamStep::Yield(poll) => poll,
        StreamStep::Transform(call) => stream_output(transform(call)),
    }
}

/// What the transformed stream yields, poll by poll, for the polls of the
/// upstream.
pub open spec fn stream_polls(
    upstream: Seq<StreamPoll>,
    params: Arc<HashMap<String, String>>,
    transform: spec_fn(ScriptCall) -> Result<RecordBatch, Error>,
) -> Seq<StreamPoll> {
    Seq::new(upstream.len(), |k: int| stream_poll(upstream[k], params, transform))
}

/// A stream of batches, each replaced by what the coprocessor makes of it.
/// The parameters are fixed when the stream is made and serve every batch.
#[derive(Debug)]
pub struct CoprStream<S> {
    stream: S,
    copr: CoprocessorRef,
    params: Arc<HashMap<String, String>>,
}

impl<S> CoprStream<S> {
    /// The stream that is transformed.
    pub closed spec fn spec_stream(&self) -> S {
        self.stream
    }

    pub closed spec fn spec_copr(&self) -> CoprocessorRef {
        self.copr
    }

    pub closed spec fn spec_params(&self) -> Arc<HashMap<String, String>> {
        self.params
    }

    pub fn new(stream: S, copr: CoprocessorRef, params: Arc<HashMap<String, String>>) -> (wrapped:
        Self)
        ensures
            wrapped.spec_stream() == stream,
            wrapped.spec_copr() == copr,
            wrapped.spec_params() == params,
    {
        CoprStream { stream, copr, params }
    }

    pub fn stream(&self) -> (stream: &S)
        ensures
            *stream == self.spec_stream(),
    {
        &self.stream
    }

    /// The upstream, to be polled. Coprocessor and parameters stay as they
    /// are, whatever is done to the upstream.
    pub fn stream_mut(&mut self) -> (stream: &mut S)
        ensures
            *stream == old(self).spec_stream(),
            final(self).spec_stream() == *final(stream),
            final(self).spec_copr() == old(self).spec_copr(),
            final(self).spec_params() == old(self).spec_params(),
    {
        &mut self.stream
    }

    pub fn copr(&self) -> (copr: &CoprocessorRef)
        ensures
            *copr == self.spec_copr(),
    {
        &self.copr
    }

    pub fn params(&self) -> (params: &Arc<HashMap<String, String>>)
        ensures
            *params == self.spec_params(),
    {
        &self.params
    }

    /// The schema that the stream reports: that of its upstream, taken as it
    /// is. The batches that the script returns may have another one.
    pub fn schema(&self, upstream: SchemaRef) -> (schema: SchemaRef)
        ensures
            schema == upstream,
    {
        upstream
    }

    /// The hint on the number of batches still to come: that of the
    /// upstream, taken as it is.
    pub fn size_hint(&self, upstream: (usize, Option<usize>)) -> (hint: (usize, Option<usize>))
        ensures
            hint == upstream,
    {
        upstream
    }

    /// Decides on one poll of the upstream. A batch is to be run through the
    /// script, with the parameters of the stream. Everything else is yielded
    /// as it came, and no script is run: that the upstream is not ready, that
    /// it failed, that it ended.
    pub fn poll_next(&self, upstream: StreamPoll) -> (step: StreamStep)
        ensures
            step == stream_step(upstream, self.spec_params()),
    {
        match upstream {
            StreamPoll::Ready(Some(Ok(batch))) => StreamStep::Transform(
                ScriptCall { batch: Some(batch), params: share(&self.params) },
            ),
            other => StreamStep::Yield(other),
        }
    }

    /// What the stream yields for a batch on which the script gave `output`:
    /// the batch that the script returned, or its failure in the place of the
    /// batch.
    pub fn poll_output(&self, output: Result<RecordBatch, Error>) -> (poll: StreamPoll)
        ensures
            poll == stream_output(output),
    {
        StreamPoll::Ready(Some(output))
    }
}

/// Poll by poll, the transformed stream follows its upstream. Where the
/// upstream yields a batch, the stream yields what the script makes of that
/// batch with the parameters of the stream, be it a batch or a failure. Where
/// the upstream is not ready, fails or ends, the stream yields the same and
/// runs no script. So batches come out transformed in the order in which they
/// went in, and a failure of the upstream comes out at its own place.
pub proof fn lemma_stream_follows_upstream(
    upstream: Seq<StreamPoll>,
    params: Arc<HashMap<String, String>>,
    transform: spec_fn(ScriptCall) -> Result<RecordBatch, Error>,
)
    ensures
        stream_polls(upstream, params, transform).len() == upstream.len(),
        forall|k: int|
            0 <= k < upstream.len() ==> match #[trigger] upstream[k] {
                StreamPoll::Ready(Some(Ok(batch))) => {
                    &&& stream_step(upstream[k], params) == StreamStep::Transform(
                        ScriptCall { batch: Some(batch), params },
                    )
                    &&& stream_polls(upstream, params, transform)[k] == StreamPoll::Ready(
                        Some(transform(ScriptCall { batch: Some(batch), params })),
                    )
                },
                _ => {
                    &&& stream_step(upstream[k], params) == StreamStep::Yield(upstream[k])
                    &&& stream_polls(upstream, params, transform)[k] == upstream[k]
                },
            },
{
}

/// The engine that turns scripts into units of execution, all bound to one
/// query engine. It holds nothing else.
#[derive(Debug)]
pub struct PyEngine<Q> {
    query_engine: Arc<Q>,
}

impl<Q> PyEngine<Q> {
    pub closed spec fn spec_query_engine(&self) -> Arc<Q> {
        self.query_engine
    }

    pub fn new(query_engine: Arc<Q>) -> (engine: Self)
        ensures
            engine.spec_query_engine() == query_engine,
    {
        PyEngine { query_engine }
    }

    pub fn query_engine(&self) -> (query_engine: &Arc<Q>)
        ensures
            *query_engine == self.spec_query_engine(),
    {
        &self.query_engine
    }

    pub fn name(&self) -> (name: &'static str)
        ensures
            name@ == "python"@,
    {
        "python"
    }

    /// The unit of execution for what the compiler made of a script: the
    /// coprocessor, bound to the query engine of this engine. A failure of
    /// the compiler is handed on as it is.
    pub fn compile(&self, compiled: Result<Coprocessor, Error>) -> (r: Result<PyScript<Q>, Error>)
        ensures
            compiled matches Ok(copr) ==> (r matches Ok(script) && {
                &&& *script.spec_copr() == copr
                &&& script.spec_query_engine() == self.spec_query_engine()
            }),
            compiled matches Err(e) ==> (r matches Err(f) && f == e),
    {
        match compiled {
            Ok(copr) => Ok(PyScript::new(share(&self.query_engine), Arc::new(copr))),
            Err(e) => Err(e),
        }
    }
}

} // verus!
