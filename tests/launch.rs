use multiview_frame::launch::{
    exit_code, plan_data_source, ws_port_conflict, CallSource, DataSource, PythonVersion, RunOutcome,
    DEFAULT_WS_SERVER_PORT,
};

#[test]
fn call_source_python() {
    let py = CallSource::Python(PythonVersion { major: 3, minor: 11, patch: 2, suffix: String::new() });
    assert!(py.is_python());
    assert!(!CallSource::Cli.is_python());
}

#[test]
fn rrd_path_is_a_recording_file() {
    assert_eq!(plan_data_source(Some("data/run.rrd"), false), DataSource::RecordingFile);
    assert_eq!(plan_data_source(Some("existing_file"), true), DataSource::RecordingFile);
}

#[test]
fn address_without_scheme_gets_one() {
    assert_eq!(plan_data_source(Some("127.0.0.1:9877"), false), DataSource::WebSocket { add_scheme: true });
    assert_eq!(plan_data_source(Some("ws://127.0.0.1:9877"), false), DataSource::WebSocket { add_scheme: false });
    assert_eq!(plan_data_source(Some("rrd"), false), DataSource::WebSocket { add_scheme: true });
}

#[test]
fn no_address_hosts_a_server() {
    assert_eq!(plan_data_source(None, false), DataSource::HostedServer);
}

#[test]
fn web_viewer_port_conflict() {
    assert!(ws_port_conflict(false, DEFAULT_WS_SERVER_PORT));
    assert!(!ws_port_conflict(true, DEFAULT_WS_SERVER_PORT));
    assert!(!ws_port_conflict(false, 9876));
}

#[test]
fn exit_codes() {
    assert_eq!(exit_code(RunOutcome::Success), Some(0));
    assert_eq!(exit_code(RunOutcome::AddressInUse), Some(1));
    assert_eq!(exit_code(RunOutcome::Failure), None);
}
