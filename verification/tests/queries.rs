use narwhal_evm::abci_engine;
use narwhal_evm::error::EngineError;
use narwhal_evm::rpc::{abci_query_value, reply_bytes, Forward, JsonRpcRequest, Reply, client_request, handle_rpc_query, EthQuery, ParamsSource, QueryDecision, ResponseKind};
use narwhal_evm::shim_engine::Engine;
use narwhal_evm::shim_server::{BroadcastTxQuery, RpcShim};
use narwhal_evm::text::contains_str;

#[test]
fn supported_methods_are_forwarded() {
    let f = client_request(EthQuery::ChainId).ok().unwrap();
    assert!(matches!(f.kind, ResponseKind::Text));
    assert!(matches!(f.params, ParamsSource::Empty));
    let f = client_request(EthQuery::Accounts).ok().unwrap();
    assert!(matches!(f.kind, ResponseKind::Addresses));
    let f = client_request(EthQuery::BlockNumber).ok().unwrap();
    assert!(matches!(f.kind, ResponseKind::Number));
    let f = client_request(EthQuery::GetBalance).ok().unwrap();
    assert!(matches!((f.kind, f.params), (ResponseKind::Quantity, ParamsSource::AsGiven)));
    let f = client_request(EthQuery::GetTransactionCount).ok().unwrap();
    assert!(matches!(f.kind, ResponseKind::Quantity));
    let f = client_request(EthQuery::Sign).ok().unwrap();
    assert!(matches!(f.kind, ResponseKind::Hash));
    let f = client_request(EthQuery::GetLogs).ok().unwrap();
    assert!(matches!((f.kind, f.params), (ResponseKind::Hash, ParamsSource::AsGiven)));
}

#[test]
fn other_methods_are_not_implemented() {
    assert!(matches!(client_request(EthQuery::Other), Err(EngineError::NotImplemented)));
    assert!(matches!(handle_rpc_query(Ok(EthQuery::Other)), QueryDecision::Fail(EngineError::NotImplemented)));
}

#[test]
fn refused_query_is_answered_with_the_reason() {
    let reason = "unknown variant `eth_foo`, expected one of ...".to_string();
    match handle_rpc_query(Err(reason.clone())) {
        QueryDecision::Reply { value, unknown_method } => {
            assert_eq!(value, reason.into_bytes());
            assert!(unknown_method);
        }
        _ => panic!("expected a reply"),
    }
    match handle_rpc_query(Err("invalid type: string".to_string())) {
        QueryDecision::Reply { value, unknown_method } => {
            assert_eq!(value, b"invalid type: string".to_vec());
            assert!(!unknown_method);
        }
        _ => panic!("expected a reply"),
    }
}

#[test]
fn shim_engine_decides_queries() {
    let engine = Engine::new("127.0.0.1:8545".to_string(), "db-0");
    assert!(matches!(engine.handle_rpc_query(Ok(EthQuery::GetBalance)), QueryDecision::Forward(_)));
}

#[test]
fn text_search() {
    assert!(contains_str("abcabd", "abd"));
    assert!(contains_str("abc", ""));
    assert!(!contains_str("ab", "abc"));
    assert!(!contains_str("unknown varian", "unknown variant"));
}

#[test]
fn abci_reply_is_a_json_string() {
    assert_eq!(abci_query_value(Ok("0x1".to_string())), b"\"0x1\"".to_vec());
    assert_eq!(abci_query_value(Ok("a\"b\n".to_string())), b"\"a\\\"b\\n\"".to_vec());
    assert_eq!(abci_query_value(Err("connection refused".to_string())), b"\"error\"".to_vec());
    let engine = abci_engine::Engine::new("127.0.0.1:26658".to_string(), "db-0", 0);
    assert_eq!(engine.handle_abci_query(Err("x".to_string())), b"\"error\"".to_vec());
}

#[test]
fn broadcast_frame_is_the_transaction_text() {
    let q = BroadcastTxQuery { tx: "{\"to\":\"0x1\"}".to_string() };
    assert_eq!(q.frame(), b"{\"to\":\"0x1\"}".to_vec());
}

#[test]
fn broadcast_replies() {
    let shim = RpcShim::new("127.0.0.1:4003".to_string());
    let q = BroadcastTxQuery { tx: "abc".to_string() };
    assert_eq!(q.debug(), "BroadcastTxQuery { tx: \"abc\" }");
    assert_eq!(shim.broadcast_reply(&q, Ok(())), "broadcast_tx: BroadcastTxQuery { tx: \"abc\" }");
    assert_eq!(
        shim.broadcast_reply(&q, Err("broken pipe".to_string())),
        "ERROR IN: broadcast_tx: BroadcastTxQuery { tx: \"abc\" }. Err: broken pipe"
    );
    let q = BroadcastTxQuery { tx: "a\"b".to_string() };
    assert_eq!(q.debug(), "BroadcastTxQuery { tx: \"a\\\"b\" }");
    assert_eq!(shim.connect_failure(), "ROUTE_BROADCAST_TX failed to connect to 127.0.0.1:4003");
}

#[test]
fn query_params_must_be_json() {
    let ok = JsonRpcRequest { method: "eth_getBalance".to_string(), params: "[\"0x01\",\"latest\"]".to_string() };
    let v = ok.params_value().ok().unwrap();
    assert_eq!(v, serde_json::Value::Array(vec![
        serde_json::Value::String("0x01".to_string()),
        serde_json::Value::String("latest".to_string()),
    ]));
    let bad = JsonRpcRequest { method: "eth_chainId".to_string(), params: "[1,".to_string() };
    let expected = serde_json::from_str::<serde_json::Value>("[1,").unwrap_err().to_string();
    match bad.params_value() {
        Err(EngineError::InvalidParams(m)) => assert_eq!(m, expected),
        _ => panic!("expected the parser's message"),
    }
}

#[test]
fn forwarded_replies_are_written_as_json() {
    let f = client_request(EthQuery::GetBalance).ok().unwrap();
    assert_eq!(reply_bytes(&f, Reply::Quantity([100, 0, 0, 0])), br#""0x64""#.to_vec());
    let f = client_request(EthQuery::ChainId).ok().unwrap();
    assert_eq!(reply_bytes(&f, Reply::Text("0x7a69".to_string())), br#""0x7a69""#.to_vec());
    let f = client_request(EthQuery::BlockNumber).ok().unwrap();
    assert_eq!(reply_bytes(&f, Reply::Number(1234)), b"1234".to_vec());
    let f = client_request(EthQuery::Accounts).ok().unwrap();
    assert_eq!(
        reply_bytes(&f, Reply::Addresses(vec![[1u8; 20]])),
        br#"["0x0101010101010101010101010101010101010101"]"#.to_vec()
    );
    let f = Forward { kind: ResponseKind::Hash, params: ParamsSource::AsGiven };
    let mut h = [0u8; 32];
    h[31] = 0xff;
    assert_eq!(
        reply_bytes(&f, Reply::Hash(h)),
        br#""0x00000000000000000000000000000000000000000000000000000000000000ff""#.to_vec()
    );
}

#[test]
fn json_string_escapes_controls() {
    assert_eq!(abci_query_value(Ok("\u{1}\t\\".to_string())), b"\"\\u0001\\t\\\\\"".to_vec());
}

#[test]
fn zero_quantity_and_empty_address_list() {
    let f = client_request(EthQuery::GetBalance).ok().unwrap();
    assert_eq!(reply_bytes(&f, Reply::Quantity([0, 0, 0, 0])), br#""0x0""#.to_vec());
    let f = client_request(EthQuery::Accounts).ok().unwrap();
    assert_eq!(reply_bytes(&f, Reply::Addresses(vec![])), b"[]".to_vec());
    assert_eq!(
        reply_bytes(&f, Reply::Addresses(vec![[0xab; 20], [0; 20]])),
        br#"["0xabababababababababababababababababababab","0x0000000000000000000000000000000000000000"]"#.to_vec()
    );
}
