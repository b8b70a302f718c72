use node_supervisor::errors::Error;
use node_supervisor::rpc::{decode_rpc_body, RPC_REQUEST_ID, RPC_URL};
use node_supervisor::supervisor::{Process, ProcessOption};

#[test]
fn decode_non_json_is_parse_failure() {
    let r = decode_rpc_body("plainly not json");
    assert!(matches!(r, Err(Error::RpcParseFailure(_))));
}

#[test]
fn decode_json_that_is_no_envelope_is_parse_failure() {
    let r = decode_rpc_body(r#"{"hello": 5}"#);
    assert!(matches!(r, Err(Error::RpcParseFailure(_))));
}

#[test]
fn decode_success_envelope_round_trips() {
    let body = r#"{"jsonrpc":"2.0","result":5,"id":1}"#;
    let v = decode_rpc_body(body).unwrap();
    let expected: serde_json::Value = serde_json::from_str(body).unwrap();
    assert_eq!(v, expected);
}

#[test]
fn decode_error_envelope_passes_through() {
    let body = r#"{"jsonrpc":"2.0","error":{"code":-32601,"message":"Method not found"},"id":1}"#;
    let v = decode_rpc_body(body).unwrap();
    let expected: serde_json::Value = serde_json::from_str(body).unwrap();
    assert_eq!(v, expected);
}

#[test]
fn call_rpc_with_nothing_listening_is_transport_failure() {
    let mut p = Process::new(ProcessOption {
        codechain_dir: ".".to_string(),
        log_file_path: "/tmp/node_supervisor_rpc_test.log".to_string(),
    });
    let r = p.call_rpc("ping".to_string(), vec![]);
    assert!(matches!(r, Err(Error::RpcTransportFailure(_))));
}

#[test]
fn endpoint_constants() {
    assert_eq!(RPC_URL, "http://127.0.0.1:8080/");
    assert_eq!(RPC_REQUEST_ID, 1);
}
