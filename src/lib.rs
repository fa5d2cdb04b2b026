//! Safe, verified core of an OPC UA binding: status codes, node identifiers and
//! attributes, the logger bridge, the data-source bridge and the client lifecycle.

pub mod attributes;
pub mod client;
pub mod data_source;
pub mod delete_monitored_items_request;
pub mod logger;
pub mod node_id;
pub mod server;
pub mod status;

pub use attributes::{AccessLevel, VariableAttributes};
pub use client::{AsyncClient, Client, ClientBuilder, ClientConfig, SetupStep};
pub use data_source::{
    DataSource, DataSourceError, DataSourceReadContext, DataSourceResult, DataSourceWriteContext,
    ReadOnly, ReadOutcome, Variant,
};
pub use delete_monitored_items_request::{DeleteMonitoredItemsRequest, MonitoredItemId};
pub use logger::{LogLevel, LogSink, LoggerConfig, Severity};
pub use node_id::{Identifier, NodeId, QualifiedName};
pub use server::{ObjectAttributes, ObjectNode, Runner, RunnerAction, RunnerPhase, VariableNode};
pub use status::{Error, StatusCode};
