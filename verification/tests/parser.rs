use gas_estimator::rpc_data_model::{
    parse_eth_estimate_gas_response, parse_generic_response, RpcResponseError,
};

#[test]
fn parses_result_hex_value() {
    let r = parse_eth_estimate_gas_response(r#"{"id":0,"jsonrpc":"2.0","result":"0x5208"}"#);
    assert_eq!(r.map(|g| g.value).ok(), Some(21000));
}

#[test]
fn error_value_is_reported_verbatim() {
    let body = r#"{"id":0,"jsonrpc":"2.0","error":{"code":-32000,"message":"insufficient funds"}}"#;
    match parse_eth_estimate_gas_response(body) {
        Err(RpcResponseError::NodeRpcError(raw)) => {
            assert_eq!(raw, r#"{"code":-32000,"message":"insufficient funds"}"#);
        },
        _ => panic!("expected a node error"),
    }
    match parse_eth_estimate_gas_response(body) {
        Err(e) => {
            let m = e.message();
            assert!(m.contains(r#"{"code":-32000,"message":"insufficient funds"}"#));
            assert!(m.starts_with("RPC node error: "));
        },
        Ok(_) => panic!("expected a node error"),
    }
}

#[test]
fn missing_result_and_error_is_malformed() {
    match parse_eth_estimate_gas_response(r#"{"id":0,"jsonrpc":"2.0"}"#) {
        Err(e @ RpcResponseError::MalformedResponseError) => {
            assert_eq!(e.message(), "Expected error or result fields");
        },
        _ => panic!("expected a malformed-response error"),
    }
}

#[test]
fn null_members_count_as_absent() {
    let r = parse_eth_estimate_gas_response(
        r#"{"id":0,"jsonrpc":"2.0","error":null,"result":"0x1"}"#,
    );
    assert_eq!(r.map(|g| g.value).ok(), Some(1));
    match parse_eth_estimate_gas_response(r#"{"id":0,"jsonrpc":"2.0","result":null}"#) {
        Err(RpcResponseError::MalformedResponseError) => {},
        _ => panic!("expected a malformed-response error"),
    }
}

#[test]
fn error_takes_precedence_over_result() {
    match parse_eth_estimate_gas_response(
        r#"{"id":0,"jsonrpc":"2.0","error":{"code":1},"result":"0x1"}"#,
    ) {
        Err(RpcResponseError::NodeRpcError(raw)) => assert_eq!(raw, r#"{"code":1}"#),
        _ => panic!("expected a node error"),
    }
}

#[test]
fn non_string_result_is_rejected() {
    match parse_eth_estimate_gas_response(r#"{"id":0,"jsonrpc":"2.0","result":21000}"#) {
        Err(e @ RpcResponseError::UnexpectedTypeError) => {
            assert_eq!(e.message(), "Expected json string");
        },
        _ => panic!("expected a type error"),
    }
}

#[test]
fn malformed_json_is_rejected() {
    for body in [
        "",
        "{",
        r#"{"id":0,"jsonrpc":"2.0""#,
        r#"{"id":0 "jsonrpc":"2.0"}"#,
        r#"{"id":0,"jsonrpc":"2.0",}"#,
        r#"{"id":0,"jsonrpc":"2.0"} x"#,
        "[]",
        "null",
        r#"{"id":true,"jsonrpc":"2.0"}"#,
        r#"{"id":-1,"jsonrpc":"2.0"}"#,
        r#"{"id":1.5,"jsonrpc":"2.0"}"#,
        r#"{"id":0,"jsonrpc":2.0}"#,
        r#"{"jsonrpc":"2.0","result":"0x1"}"#,
        r#"{"id":0,"result":"0x1"}"#,
        r#"{"id":0,"id":1,"jsonrpc":"2.0"}"#,
    ] {
        match parse_eth_estimate_gas_response(body) {
            Err(RpcResponseError::ParseError) => {},
            _ => panic!("accepted a malformed body: {}", body),
        }
    }
}

#[test]
fn hex_decoding_failures() {
    for body in [
        r#"{"id":0,"jsonrpc":"2.0","result":"0xzz"}"#,
        r#"{"id":0,"jsonrpc":"2.0","result":""}"#,
        r#"{"id":0,"jsonrpc":"2.0","result":"0x"}"#,
        r#"{"id":0,"jsonrpc":"2.0","result":"0x10000000000000000"}"#,
    ] {
        match parse_eth_estimate_gas_response(body) {
            Err(e @ RpcResponseError::HexDecodeError) => {
                assert_eq!(e.message(), "Invalid hex value in result");
            },
            _ => panic!("expected a hex decode error: {}", body),
        }
    }
}

#[test]
fn prefix_is_optional_and_case_insensitive() {
    let r = parse_eth_estimate_gas_response(r#"{"id":0,"jsonrpc":"2.0","result":"0X5208"}"#);
    assert_eq!(r.map(|g| g.value).ok(), Some(21000));
    let r = parse_eth_estimate_gas_response(r#"{"id":0,"jsonrpc":"2.0","result":"21"}"#);
    assert_eq!(r.map(|g| g.value).ok(), Some(0x21));
    let r = parse_eth_estimate_gas_response(r#"{"id":0,"jsonrpc":"2.0","result":"0xFFFFFFFFFFFFFFFF"}"#);
    assert_eq!(r.map(|g| g.value).ok(), Some(u64::MAX));
}

#[test]
fn escaped_result_string_is_decoded() {
    // the unicode escape decodes to the digit 5
    let r = parse_eth_estimate_gas_response(r#"{"id":0,"jsonrpc":"2.0","result":"0x\u0035"}"#);
    assert_eq!(r.map(|g| g.value).ok(), Some(5));
    // simple escapes decode too; a tab is not a hex digit, so this fails
    let r = parse_eth_estimate_gas_response(r#"{"id":0,"jsonrpc":"2.0","result":"0x\t1"}"#);
    assert!(matches!(r, Err(RpcResponseError::HexDecodeError)));
}

#[test]
fn whitespace_and_unknown_members_are_tolerated() {
    let body = " {\t\"seen\": [true, null, -1.5e3],\n\"id\" : 7 , \"jsonrpc\" : \"2.0\" ,\r\n\"result\" : \"0x2\"} ";
    let r = parse_eth_estimate_gas_response(body);
    assert_eq!(r.map(|g| g.value).ok(), Some(2));
}

#[test]
fn envelope_fields_are_kept() {
    let g = parse_generic_response(r#"{"id":42,"jsonrpc":"2.0","result":"0x1"}"#).unwrap();
    assert_eq!(g.id, 42);
    assert_eq!(g.jsonrpc, "2.0");
    assert_eq!(g.result.as_deref(), Some("\"0x1\""));
    assert!(g.error.is_none());
}
