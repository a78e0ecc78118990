use gas_estimator::domain_data_model::EstimateGas;
use gas_estimator::rpc_data_model::{prepare_eth_estimate_gas_body, BlockParam, GenericMessage};

fn request(
    from: Option<&str>,
    to: &str,
    value: Option<&str>,
    data: Option<&str>,
    block: Option<&str>,
) -> EstimateGas {
    EstimateGas {
        from: from.map(str::to_string),
        to: to.to_string(),
        value: value.map(str::to_string),
        data: data.map(str::to_string),
        block: block.map(str::to_string),
    }
}

#[test]
fn body_defaults_block_to_latest() {
    let g = request(None, "0xabc1234567890abc1234567890abc1234567890f", None, None, None);
    let body = prepare_eth_estimate_gas_body(&g);
    assert_eq!(
        body,
        r#"{"id":0,"jsonrpc":"2.0","method":"eth_estimateGas","params":[{"to":"0xabc1234567890abc1234567890abc1234567890f"},"latest"]}"#
    );
}

#[test]
fn block_param_defaults_to_latest() {
    let g = request(None, "0x1", None, None, None);
    assert_eq!(BlockParam::from_domain(&g).0, "latest");
    let g = request(None, "0x1", None, None, Some("0x10"));
    assert_eq!(BlockParam::from_domain(&g).0, "0x10");
}

#[test]
fn body_carries_all_present_fields_in_order() {
    let g = request(Some("0xa"), "0xb", Some("0x1"), Some("0xd0e30db0"), Some("pending"));
    let body = prepare_eth_estimate_gas_body(&g);
    assert_eq!(
        body,
        r#"{"id":0,"jsonrpc":"2.0","method":"eth_estimateGas","params":[{"from":"0xa","to":"0xb","value":"0x1","data":"0xd0e30db0"},"pending"]}"#
    );
}

#[test]
fn body_omits_absent_fields() {
    let g = request(None, "0xb", Some("0x1"), None, None);
    let body = prepare_eth_estimate_gas_body(&g);
    assert!(!body.contains("from"));
    assert!(!body.contains("data"));
    assert!(body.contains(r#"{"to":"0xb","value":"0x1"}"#));
}

#[test]
fn body_escapes_field_text() {
    // the validator only checks the prefix and the length, so a field can
    // hold characters that JSON must escape
    let g = request(None, "0x\"\\\n", None, None, None);
    let body = prepare_eth_estimate_gas_body(&g);
    assert_eq!(
        body,
        "{\"id\":0,\"jsonrpc\":\"2.0\",\"method\":\"eth_estimateGas\",\"params\":[{\"to\":\"0x\\\"\\\\\\n\"},\"latest\"]}"
    );
}

#[test]
fn default_message_constants() {
    let m = GenericMessage::default();
    assert_eq!(m.id, 0);
    assert_eq!(m.jsonrpc, "2.0");
    assert_eq!(m.method, "eth_estimateGas");
    assert!(m.params.is_empty());
}
