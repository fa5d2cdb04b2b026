use vstd::prelude::*;
use crate::node_id::{
    IdentifierModel, NodeId, NS0, NS0_BOOLEAN, NS0_INT32, NS0_STRING, NS0_UINT32,
};
use crate::status::{
    StatusCode, BAD_INTERNAL_ERROR, BAD_NOT_SUPPORTED, BAD_NO_DATA, BAD_TYPE_MISMATCH, GOOD,
};

verus! {

/// A value of one of the protocol's built-in data types.
#[derive(Clone, Debug, PartialEq, Eq)]
pub enum Variant {
    Boolean(bool),
    Int32(i32),
    UInt32(u32),
    String(String),
}

/// Numeric identifier, in the built-in namespace, of the data type of a value.
pub open spec fn spec_type_id(v: Variant) -> u32 {
    match v {
        Variant::Boolean(_) => NS0_BOOLEAN,
        Variant::Int32(_) => NS0_INT32,
        Variant::UInt32(_) => NS0_UINT32,
        Variant::String(_) => NS0_STRING,
    }
}

/// Whether a value is of the data type that `data_type` identifies.
pub open spec fn spec_has_type(v: Variant, data_type: NodeId) -> bool {
    data_type@.namespace == NS0 && data_type@.identifier == IdentifierModel::Numeric(
        spec_type_id(v),
    )
}

impl Variant {
    /// Returns the numeric identifier of the value's data type in the built-in namespace.
    pub fn type_id(&self) -> (r: u32)
        ensures
            r == spec_type_id(*self),
    {
        match self {
            Variant::Boolean(_) => NS0_BOOLEAN,
            Variant::Int32(_) => NS0_INT32,
            Variant::UInt32(_) => NS0_UINT32,
            Variant::String(_) => NS0_STRING,
        }
    }

    /// Tells whether the value is of the data type that `data_type` identifies.
    pub fn has_type(&self, data_type: &NodeId) -> (r: bool)
        ensures
            r == spec_has_type(*self, *data_type),
    {
        data_type.is_ns0(self.type_id())
    }
}

/// Failure that a data source reports for one read or write.
#[derive(Clone, Copy, Debug, PartialEq, Eq, Structural)]
pub enum DataSourceError {
    /// The operation is not supported, such as a write to a read-only source.
    NotSupported,
    /// An unexpected failure, such as a value that could not be built.
    InternalError,
    /// A specific native status code.
    StatusCode(StatusCode),
}

/// Outcome of one read or write of a data source.
pub type DataSourceResult = Result<(), DataSourceError>;

/// The native status code that a data-source failure is reported as. A failure that
/// carries the good code breaks the bridge's invariant and becomes an internal error.
pub open spec fn spec_error_status(e: DataSourceError) -> StatusCode {
    match e {
        DataSourceError::NotSupported => StatusCode { code: BAD_NOT_SUPPORTED },
        DataSourceError::InternalError => StatusCode { code: BAD_INTERNAL_ERROR },
        DataSourceError::StatusCode(s) => if s.code == GOOD {
            StatusCode { code: BAD_INTERNAL_ERROR }
        } else {
            s
        },
    }
}

/// The native status code that the outcome of a callback is reported as; `None` stands
/// for a callback that terminated abnormally.
pub open spec fn spec_outcome_status(outcome: Option<DataSourceResult>) -> StatusCode {
    match outcome {
        Some(Ok(())) => StatusCode { code: GOOD },
        Some(Err(e)) => spec_error_status(e),
        None => StatusCode { code: BAD_INTERNAL_ERROR },
    }
}

impl DataSourceError {
    /// Returns the native status code this failure is reported as.
    pub fn into_status_code(self) -> (r: StatusCode)
        ensures
            r == spec_error_status(self),
            r.code != GOOD,
    {
        match self {
            DataSourceError::NotSupported => StatusCode::bad_not_supported(),
            DataSourceError::InternalError => StatusCode::bad_internal_error(),
            DataSourceError::StatusCode(s) => {
                if s.is_good() {
                    StatusCode::bad_internal_error()
                } else {
                    s
                }
            },
        }
    }
}

/// Resolves the outcome of a data-source callback to exactly one native status code.
/// `None` stands for a callback that terminated abnormally, which must not cross the
/// native call boundary and becomes an internal error.
pub fn outcome_status(outcome: Option<DataSourceResult>) -> (r: StatusCode)
    ensures
        r == spec_outcome_status(outcome),
        outcome matches Some(Err(_)) ==> r.code != GOOD,
        r.code == GOOD <==> outcome matches Some(Ok(_)),
{
    match outcome {
        Some(Ok(())) => StatusCode::good(),
        Some(Err(e)) => e.into_status_code(),
        None => StatusCode::bad_internal_error(),
    }
}

/// Request-scoped view of one read: the variable's configured data type, and the value
/// that the data source publishes back.
pub struct DataSourceReadContext {
    data_type: NodeId,
    value: Option<Variant>,
}

impl DataSourceReadContext {
    /// The configured data type of the variable being read.
    pub closed spec fn spec_data_type(&self) -> NodeId {
        self.data_type
    }

    /// The value published so far, if any.
    pub closed spec fn spec_value(&self) -> Option<Variant> {
        self.value
    }

    /// Opens a read of a variable whose configured data type is `data_type`.
    pub fn new(data_type: NodeId) -> (r: DataSourceReadContext)
        ensures
            r.spec_data_type() == data_type,
            r.spec_value() == None::<Variant>,
    {
        DataSourceReadContext { data_type, value: None }
    }

    /// Returns the configured data type of the variable being read.
    pub fn data_type(&self) -> (r: &NodeId)
        ensures
            *r == self.spec_data_type(),
    {
        &self.data_type
    }

    /// Publishes a value as the result of the read, replacing one published before.
    pub fn set_variant(&mut self, value: Variant)
        ensures
            final(self).spec_data_type() == old(self).spec_data_type(),
            final(self).spec_value() == Some(value),
    {
        self.value = Some(value);
    }
}

/// What a read hands back to the native caller: a status and, on success only, a value.
pub struct ReadOutcome {
    pub status: StatusCode,
    pub value: Option<Variant>,
}

/// The outcome of a read, from the callback's outcome (`None`: it terminated abnormally)
/// and what it published: good with the value only where the callback succeeded and
/// published a value of the configured data type.
pub open spec fn spec_read_outcome(
    outcome: Option<DataSourceResult>,
    data_type: NodeId,
    value: Option<Variant>,
) -> ReadOutcome {
    match outcome {
        Some(Ok(())) => match value {
            Some(v) => if spec_has_type(v, data_type) {
                ReadOutcome { status: StatusCode { code: GOOD }, value: Some(v) }
            } else {
                ReadOutcome { status: StatusCode { code: BAD_TYPE_MISMATCH }, value: None }
            },
            None => ReadOutcome { status: StatusCode { code: BAD_NO_DATA }, value: None },
        },
        _ => ReadOutcome { status: spec_outcome_status(outcome), value: None },
    }
}

/// Completes a read once the callback has run: turns its outcome and the context it
/// filled into what the native caller receives. A failed read hands back no value.
pub fn complete_read(outcome: Option<DataSourceResult>, context: DataSourceReadContext) -> (r:
    ReadOutcome)
    ensures
        r == spec_read_outcome(outcome, context.spec_data_type(), context.spec_value()),
        r.status.code == GOOD ==> (r.value matches Some(v) && spec_has_type(
            v,
            context.spec_data_type(),
        )),
        r.status.code != GOOD ==> r.value is None,
        !(outcome matches Some(Ok(_))) ==> r.status.code != GOOD,
{
    match outcome {
        Some(Ok(())) => match context.value {
            Some(v) => {
                if v.has_type(&context.data_type) {
                    ReadOutcome { status: StatusCode::good(), value: Some(v) }
                } else {
                    ReadOutcome { status: StatusCode::bad_type_mismatch(), value: None }
                }
            },
            None => ReadOutcome { status: StatusCode::new(BAD_NO_DATA), value: None },
        },
        _ => ReadOutcome { status: outcome_status(outcome), value: None },
    }
}

/// A read is handed back as good only with a value of the variable's configured data
/// type; a read whose callback failed or terminated abnormally is never handed back as
/// good, and carries no value.
pub proof fn read_outcome_is_typed(
    outcome: Option<DataSourceResult>,
    data_type: NodeId,
    value: Option<Variant>,
)
    ensures
        spec_read_outcome(outcome, data_type, value).status.code == GOOD ==> (spec_read_outcome(
            outcome,
            data_type,
            value,
        ).value matches Some(v) && spec_has_type(v, data_type)),
        spec_read_outcome(outcome, data_type, value).status.code != GOOD ==> spec_read_outcome(
            outcome,
            data_type,
            value,
        ).value is None,
        !(outcome matches Some(Ok(_))) ==> spec_read_outcome(
            outcome,
            data_type,
            value,
        ).status.code != GOOD,
        !(outcome matches Some(Ok(_))) ==> spec_read_outcome(
            outcome,
            data_type,
            value,
        ).value is None,
{
}

/// Request-scoped view of one write: the incoming value.
pub struct DataSourceWriteContext {
    value: Option<Variant>,
}

impl DataSourceWriteContext {
    /// The incoming value, if the request carries one.
    pub closed spec fn spec_value(&self) -> Option<Variant> {
        self.value
    }

    /// Opens a write of the given incoming value.
    pub fn new(value: Option<Variant>) -> (r: DataSourceWriteContext)
        ensures
            r.spec_value() == value,
    {
        DataSourceWriteContext { value }
    }

    /// Returns the incoming value.
    pub fn value(&self) -> (r: &Option<Variant>)
        ensures
            *r == self.spec_value(),
    {
        &self.value
    }
}

/// Read and write capability of a variable backed by application logic. The server
/// calls it synchronously on every access of the variable.
pub trait DataSource {
    /// Publishes the variable's current value through the context.
    fn read(&mut self, context: &mut DataSourceReadContext) -> DataSourceResult;

    /// Takes a new value for the variable from the context.
    fn write(&mut self, context: &mut DataSourceWriteContext) -> DataSourceResult;
}

/// A data source with only a read capability: every write is refused as not supported
/// and leaves the wrapped source untouched.
pub struct ReadOnly<D> {
    source: D,
}

impl<D: DataSource> ReadOnly<D> {
    /// The wrapped read capability.
    pub closed spec fn spec_source(&self) -> D {
        self.source
    }

    /// Wraps a source, of which only the read capability will be used.
    pub fn new(source: D) -> (r: ReadOnly<D>)
        ensures
            r.spec_source() == source,
    {
        ReadOnly { source }
    }

    /// Returns the wrapped read capability.
    pub fn source(&self) -> (r: &D)
        ensures
            *r == self.spec_source(),
    {
        &self.source
    }

    /// Refuses a write: the outcome is always "not supported", the native status is
    /// always the not-supported code, and nothing changes.
    pub fn reject_write(&self, context: &DataSourceWriteContext) -> (r: (DataSourceResult, StatusCode))
        ensures
            r.0 == Err::<(), DataSourceError>(DataSourceError::NotSupported),
            r.1 == spec_outcome_status(Some(r.0)),
            r.1.code == BAD_NOT_SUPPORTED,
    {
        let outcome: DataSourceResult = Err(DataSourceError::NotSupported);
        (outcome, outcome_status(Some(outcome)))
    }
}

impl<D: DataSource> DataSource for ReadOnly<D> {
    fn read(&mut self, context: &mut DataSourceReadContext) -> DataSourceResult {
        self.source.read(context)
    }

    fn write(&mut self, context: &mut DataSourceWriteContext) -> DataSourceResult {
        self.reject_write(context).0
    }
}

} // verus!
