use open62541::client::has_nul;
use open62541::data_source::{complete_read, outcome_status};
use open62541::logger::{forward_severity, LOG_LEVEL_FATAL};
use open62541::node_id::{NS0_FOLDER_TYPE, NS0_OBJECTS_FOLDER, NS0_ORGANIZES, NS0_STRING, NS0_UINT32};
use open62541::server::status_result;
use open62541::status::{
    BAD_INTERNAL_ERROR, BAD_NODE_ID_EXISTS, BAD_NOT_SUPPORTED, BAD_NO_DATA, BAD_TYPE_MISMATCH, GOOD,
};
use open62541::{
    AccessLevel, Client, ClientBuilder, DataSource, DataSourceError, DataSourceReadContext,
    DataSourceResult, DataSourceWriteContext, DeleteMonitoredItemsRequest, Identifier, LogLevel,
    LogSink, LoggerConfig, MonitoredItemId, NodeId, ObjectAttributes, ObjectNode, QualifiedName,
    ReadOnly, Runner, RunnerAction, RunnerPhase, SetupStep, Severity,
    StatusCode, Variant, VariableAttributes,
};

#[test]
fn numeric_node_id_round_trip() {
    let n = NodeId::numeric(1, 4711);
    assert_eq!(n.namespace_index(), 1);
    assert_eq!(n.identifier(), Identifier::Numeric(4711));
    assert_eq!(n.as_numeric(), Some(4711));
}

#[test]
fn string_node_id_round_trip() {
    let n = NodeId::string(1, "Controller");
    assert_eq!(n.namespace_index(), 1);
    assert_eq!(n.identifier(), Identifier::String("Controller".to_string()));
    assert_eq!(n.as_numeric(), None);
    assert_eq!(n.duplicate(), n);
}

#[test]
fn ns0_node_id_is_built_in() {
    let n = NodeId::ns0(NS0_OBJECTS_FOLDER);
    assert_eq!(n.namespace_index(), 0);
    assert!(n.is_ns0(85));
    assert!(!NodeId::numeric(1, 85).is_ns0(85));
    assert!(!NodeId::string(0, "85").is_ns0(85));
}

#[test]
fn qualified_name_keeps_parts() {
    let q = QualifiedName::new(1, "temperature");
    assert_eq!(q.namespace_index, 1);
    assert_eq!(q.name, "temperature");
}

#[test]
fn every_native_level_maps_to_its_severity() {
    assert_eq!(forward_severity(100), Some(Severity::Trace));
    assert_eq!(forward_severity(200), Some(Severity::Debug));
    assert_eq!(forward_severity(300), Some(Severity::Info));
    assert_eq!(forward_severity(400), Some(Severity::Warn));
    assert_eq!(forward_severity(500), Some(Severity::Error));
    assert_eq!(forward_severity(LOG_LEVEL_FATAL), Some(Severity::Error));
    assert_eq!(LogLevel::Fatal.severity(), Severity::Error);
}

#[test]
fn unknown_native_level_is_dropped() {
    assert_eq!(forward_severity(0), None);
    assert_eq!(forward_severity(700), None);
    assert_eq!(LogLevel::from_code(250), None);
}

#[test]
fn level_codes_round_trip() {
    for level in [
        LogLevel::Trace,
        LogLevel::Debug,
        LogLevel::Info,
        LogLevel::Warning,
        LogLevel::Error,
        LogLevel::Fatal,
    ] {
        assert_eq!(LogLevel::from_code(level.code()), Some(level));
    }
}

#[test]
fn bridge_replaces_previous_logger() {
    let mut c = LoggerConfig { sink: LogSink::NativeDefault, has_clear: true, has_context: true };
    assert!(c.install_bridge());
    assert_eq!(c, LoggerConfig { sink: LogSink::Bridge, has_clear: false, has_context: false });
    c.apply_defaults();
    assert_eq!(c.sink, LogSink::Bridge);
}

#[test]
fn defaults_alone_install_native_logger() {
    let mut c = LoggerConfig::unset();
    c.apply_defaults();
    assert_eq!(c.sink, LogSink::NativeDefault);
}

#[test]
fn default_builder_installs_bridge_before_defaults() {
    let b = ClientBuilder::default();
    assert_eq!(
        b.setup_steps(),
        vec![
            SetupStep::ClearPreviousLogger,
            SetupStep::InstallLoggerBridge,
            SetupStep::ApplyDefaults
        ]
    );
    assert_eq!(
        b.config().logger,
        LoggerConfig { sink: LogSink::Bridge, has_clear: false, has_context: false }
    );
    assert!(b.config().defaults_applied);
}

#[test]
fn builder_clears_previous_logger_first() {
    let logger = LoggerConfig { sink: LogSink::NativeDefault, has_clear: true, has_context: true };
    let b = ClientBuilder::from_logger_config(logger);
    assert_eq!(
        b.setup_steps(),
        vec![
            SetupStep::ClearPreviousLogger,
            SetupStep::InstallLoggerBridge,
            SetupStep::ApplyDefaults
        ]
    );
    assert_eq!(b.config().logger.sink, LogSink::Bridge);
}

#[test]
fn connect_succeeds_on_good_status() {
    let c = Client::new("opc.tcp://localhost:4840", StatusCode::new(GOOD)).unwrap();
    assert_eq!(c.endpoint_url(), "opc.tcp://localhost:4840");
    assert_eq!(c.config().logger.sink, LogSink::Bridge);
    let a = c.into_async();
    assert_eq!(a.client().endpoint_url(), "opc.tcp://localhost:4840");
}

#[test]
fn connect_fails_with_native_status() {
    let bad = StatusCode::new(0x8005_0000);
    let e = ClientBuilder::default().connect("opc.tcp://nowhere:4840", bad).err().unwrap();
    assert_eq!(e.status_code(), bad);
}

#[test]
fn connect_refuses_url_with_nul() {
    let e = Client::new("opc.tcp://a\0b", StatusCode::new(GOOD)).err().unwrap();
    assert_eq!(e.status_code().code(), BAD_INTERNAL_ERROR);
    assert!(has_nul("\0"));
    assert!(!has_nul(""));
    assert!(!has_nul("opc.tcp://localhost"));
}

#[test]
fn data_source_errors_map_to_status_codes() {
    assert_eq!(DataSourceError::NotSupported.into_status_code().code(), BAD_NOT_SUPPORTED);
    assert_eq!(DataSourceError::InternalError.into_status_code().code(), BAD_INTERNAL_ERROR);
    let s = StatusCode::new(BAD_NO_DATA);
    assert_eq!(DataSourceError::StatusCode(s).into_status_code(), s);
    assert_eq!(outcome_status(Some(Ok(()))).code(), GOOD);
    assert_eq!(outcome_status(None).code(), BAD_INTERNAL_ERROR);
}

struct Counter {
    reads: u32,
}

impl DataSource for Counter {
    fn read(&mut self, context: &mut DataSourceReadContext) -> DataSourceResult {
        self.reads += 1;
        context.set_variant(Variant::UInt32(self.reads));
        Ok(())
    }

    fn write(&mut self, _context: &mut DataSourceWriteContext) -> DataSourceResult {
        self.reads = 0;
        Ok(())
    }
}

fn read_value<D: DataSource>(source: &mut D) -> Option<Variant> {
    let mut context = DataSourceReadContext::new(NodeId::ns0(NS0_UINT32));
    let outcome = source.read(&mut context);
    complete_read(Some(outcome), context).value
}

#[test]
fn read_only_source_refuses_every_write() {
    let mut source = ReadOnly::new(Counter { reads: 0 });
    assert_eq!(read_value(&mut source), Some(Variant::UInt32(1)));
    let mut write = DataSourceWriteContext::new(Some(Variant::UInt32(7)));
    for _ in 0..3 {
        assert_eq!(source.write(&mut write), Err(DataSourceError::NotSupported));
        let (outcome, status) = source.reject_write(&write);
        assert_eq!(outcome, Err(DataSourceError::NotSupported));
        assert_eq!(status.code(), BAD_NOT_SUPPORTED);
    }
    assert_eq!(source.source().reads, 1);
    assert_eq!(read_value(&mut source), Some(Variant::UInt32(2)));
}

#[test]
fn successful_read_is_good_and_typed() {
    let mut context = DataSourceReadContext::new(NodeId::ns0(NS0_STRING));
    context.set_variant(Variant::String("39.00".to_string()));
    let r = complete_read(Some(Ok(())), context);
    assert_eq!(r.status.code(), GOOD);
    assert_eq!(r.value, Some(Variant::String("39.00".to_string())));
}

#[test]
fn read_of_wrong_type_is_refused() {
    let mut context = DataSourceReadContext::new(NodeId::ns0(NS0_STRING));
    context.set_variant(Variant::Int32(39));
    let r = complete_read(Some(Ok(())), context);
    assert_eq!(r.status.code(), BAD_TYPE_MISMATCH);
    assert_eq!(r.value, None);
}

#[test]
fn failed_read_hands_back_no_value() {
    let mut context = DataSourceReadContext::new(NodeId::ns0(NS0_STRING));
    context.set_variant(Variant::String("39.10".to_string()));
    let r = complete_read(Some(Err(DataSourceError::InternalError)), context);
    assert_eq!(r.status.code(), BAD_INTERNAL_ERROR);
    assert_eq!(r.value, None);
    let empty = DataSourceReadContext::new(NodeId::ns0(NS0_STRING));
    assert_eq!(complete_read(Some(Ok(())), empty).status.code(), BAD_NO_DATA);
    let aborted = DataSourceReadContext::new(NodeId::ns0(NS0_STRING));
    assert_eq!(complete_read(None, aborted).status.code(), BAD_INTERNAL_ERROR);
}

#[test]
fn access_level_bits() {
    let a = AccessLevel::none().with_current_read(true).with_current_write(true);
    assert_eq!(a.bits, 3);
    assert!(a.current_read() && a.current_write());
    let b = a.with_current_read(false);
    assert_eq!(b.bits, 2);
    assert!(!b.current_read() && b.current_write());
}

#[test]
fn variable_attributes_builder() {
    let attrs = VariableAttributes::new()
        .with_data_type(&NodeId::ns0(NS0_STRING))
        .with_access_level(&AccessLevel::none().with_current_read(true));
    assert_eq!(attrs.data_type(), Some(NodeId::ns0(12)));
    assert_eq!(attrs.access_level().bits, 1);
}

#[test]
fn delete_request_takes_item_ids_in_order() {
    let ids = [MonitoredItemId::new(3), MonitoredItemId::new(1), MonitoredItemId::new(2)];
    let r = DeleteMonitoredItemsRequest::new()
        .with_subscription_id(9)
        .with_monitored_item_ids(&ids);
    assert_eq!(r.subscription_id(), 9);
    assert_eq!(r.monitored_item_ids(), &[3, 1, 2]);
    let r = r.with_monitored_item_ids(&[]);
    assert!(r.monitored_item_ids().is_empty());
}

#[test]
fn node_status_resolves_to_result() {
    assert_eq!(status_result(StatusCode::new(GOOD)), Ok(()));
    let bad = StatusCode::new(BAD_NODE_ID_EXISTS);
    assert_eq!(status_result(bad).err().unwrap().status_code(), bad);
}

#[test]
fn runner_starts_iterates_and_stops() {
    let mut r = Runner::new();
    assert_eq!(r.phase(), RunnerPhase::Idle);
    assert_eq!(r.step(false), RunnerAction::Startup);
    assert_eq!(r.step(false), RunnerAction::Iterate);
    assert_eq!(r.step(false), RunnerAction::Iterate);
    assert_eq!(r.step(true), RunnerAction::Shutdown);
    assert_eq!(r.phase(), RunnerPhase::Stopped);
    assert_eq!(r.step(false), RunnerAction::Done);
}

#[test]
fn object_node_descriptor_holds_its_parts() {
    let node = ObjectNode {
        requested_new_node_id: NodeId::string(1, "Controller"),
        parent_node_id: NodeId::ns0(NS0_OBJECTS_FOLDER),
        reference_type_id: NodeId::ns0(NS0_ORGANIZES),
        browse_name: QualifiedName::new(1, "Controller"),
        type_definition: NodeId::ns0(NS0_FOLDER_TYPE),
        attributes: ObjectAttributes::new(),
    };
    assert_eq!(node.requested_new_node_id.identifier(), Identifier::String("Controller".to_string()));
    assert!(node.parent_node_id.is_ns0(85));
}

#[test]
fn defaults_are_empty() {
    assert!(VariableAttributes::default().data_type().is_none());
    assert_eq!(VariableAttributes::default().access_level().bits, 0);
    assert_eq!(ObjectAttributes::default(), ObjectAttributes::new());
    let r = DeleteMonitoredItemsRequest::default();
    assert_eq!(r.subscription_id(), 0);
    assert!(r.monitored_item_ids().is_empty());
}

#[test]
fn failure_carrying_good_becomes_internal_error() {
    let good = DataSourceError::StatusCode(StatusCode::new(GOOD));
    assert_eq!(good.into_status_code().code(), BAD_INTERNAL_ERROR);
    assert_eq!(outcome_status(Some(Err(good))).code(), BAD_INTERNAL_ERROR);
    let mut context = DataSourceReadContext::new(NodeId::ns0(NS0_STRING));
    context.set_variant(Variant::String("39.00".to_string()));
    let r = complete_read(Some(Err(good)), context);
    assert_eq!(r.status.code(), BAD_INTERNAL_ERROR);
    assert_eq!(r.value, None);
}
