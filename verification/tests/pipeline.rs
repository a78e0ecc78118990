use gas_estimator::app::{estimate_gas_outcome, estimate_reply, estimate_request,
    validation_reply, AppError, RpcOutcome};

fn run(body: &str, node_reply: &str) -> (u16, String) {
    match estimate_request(body) {
        Err(e) => validation_reply(&e),
        Ok(_rpc_body) => {
            let res = estimate_gas_outcome(RpcOutcome::Body(node_reply.to_string()));
            estimate_reply(res)
        },
    }
}

#[test]
fn estimate_succeeds_end_to_end() {
    let (code, text) = run(
        r#"{"to":"0xabc1234567890abc1234567890abc1234567890f"}"#,
        r#"{"id":0,"jsonrpc":"2.0","result":"0x1"}"#,
    );
    assert_eq!(code, 200);
    assert_eq!(text, "1");
}

#[test]
fn empty_to_is_rejected_with_400() {
    let (code, text) = run(r#"{"to":""}"#, r#"{"id":0,"jsonrpc":"2.0","result":"0x1"}"#);
    assert_eq!(code, 400);
    assert!(text.contains("to"));
    assert_eq!(text, "missing required field: to");
}

#[test]
fn identical_requests_give_identical_replies() {
    let body = r#"{"to":"0xabc1234567890abc1234567890abc1234567890f","value":"0x1"}"#;
    let node = r#"{"id":0,"jsonrpc":"2.0","result":"0x5208"}"#;
    let first = run(body, node);
    let second = run(body, node);
    let third = run(body, node);
    assert_eq!(first, second);
    assert_eq!(first, third);
    assert_eq!(first, (200, "21000".to_string()));
}

#[test]
fn request_body_is_framed_for_the_node() {
    let b = estimate_request(r#"{"to":"0xb2","block":"0x10"}"#).unwrap();
    assert_eq!(
        b,
        r#"{"id":0,"jsonrpc":"2.0","method":"eth_estimateGas","params":[{"to":"0xb2"},"0x10"]}"#
    );
}

#[test]
fn transport_failures_map_to_messages() {
    match estimate_gas_outcome(RpcOutcome::SendFailed("connection refused".to_string())) {
        Err(e @ AppError::EstimateSendFailed(_)) => {
            assert_eq!(
                e.message(),
                "Estimate RPC send failed with an error: `connection refused`"
            );
        },
        _ => panic!("expected a send failure"),
    }
    match estimate_gas_outcome(RpcOutcome::HttpError("502 Bad Gateway".to_string())) {
        Err(e @ AppError::EstimateFailed(_)) => {
            assert_eq!(e.message(), "Estimate call failed with an error: `502 Bad Gateway`");
        },
        _ => panic!("expected an http failure"),
    }
    match estimate_gas_outcome(RpcOutcome::BodyUnreadable("closed".to_string())) {
        Err(e @ AppError::EstimateResponseBodyFailed(_)) => {
            assert_eq!(
                e.message(),
                "Estimate RPC response getting message body failed an with error: `closed`"
            );
        },
        _ => panic!("expected a body failure"),
    }
}

#[test]
fn node_errors_become_400_replies() {
    let (code, text) = run(
        r#"{"to":"0xb2"}"#,
        r#"{"id":0,"jsonrpc":"2.0","error":{"code":-32000,"message":"insufficient funds"}}"#,
    );
    assert_eq!(code, 400);
    assert!(text.contains("insufficient funds"));
    assert!(text.starts_with("Estimate RPC response call failed with an error: `RPC node error: "));
}

#[test]
fn large_gas_values_render_in_decimal() {
    let res = estimate_gas_outcome(RpcOutcome::Body(
        r#"{"id":0,"jsonrpc":"2.0","result":"0xffffffffffffffff"}"#.to_string(),
    ));
    let (code, text) = estimate_reply(res);
    assert_eq!(code, 200);
    assert_eq!(text, "18446744073709551615");
}

#[test]
fn zero_gas_renders_as_zero() {
    let res = estimate_gas_outcome(RpcOutcome::Body(
        r#"{"id":0,"jsonrpc":"2.0","result":"0x0"}"#.to_string(),
    ));
    assert_eq!(estimate_reply(res), (200, "0".to_string()));
}
