use gas_estimator::api::{parse_estimate_input, validate_block, validate_hex, EstimateInputData,
    ValidationError};

#[test]
fn accepts_strict_hex_unchanged() {
    for s in [
        "0x1",
        "0X1",
        "0xabc1234567890abc1234567890abc1234567890f",
        "0XABCDEF0123456789",
        "0x0",
    ] {
        assert_eq!(validate_hex(s), Ok(s.to_string()));
    }
}

#[test]
fn rejects_missing_prefix() {
    for s in ["", "abc", "1234", "x0", "0yff", " 0x1"] {
        assert_eq!(validate_hex(s), Err("Invalid format - missing 0x prefix"));
    }
}

#[test]
fn rejects_bare_prefix() {
    assert_eq!(validate_hex("0x"), Err("Invalid format - value too short"));
    assert_eq!(validate_hex("0X"), Err("Invalid format - value too short"));
}

#[test]
fn block_accepts_tags_case_insensitive() {
    for s in ["earliest", "finalized", "safe", "latest", "pending", "LATEST", "Pending", "sAfE"] {
        assert_eq!(validate_block(s), Ok(s.to_string()));
    }
}

#[test]
fn block_accepts_hex() {
    assert_eq!(validate_block("0x1572338"), Ok("0x1572338".to_string()));
}

#[test]
fn block_rejects_other_words() {
    assert_eq!(validate_block("soon"), Err("Invalid format - missing 0x prefix"));
    assert_eq!(validate_block("0x"), Err("Invalid format - value too short"));
}

#[test]
fn validate_requires_to() {
    let r = EstimateInputData::validate(None, None, None, None, None);
    match r {
        Err(e) => assert_eq!(e.message(), "missing required field: to"),
        Ok(_) => panic!("accepted a request without to"),
    }
}

#[test]
fn validate_treats_empty_to_as_missing() {
    let r = EstimateInputData::validate(None, Some(String::new()), None, None, None);
    match r {
        Err(e) => assert_eq!(e.message(), "missing required field: to"),
        Ok(_) => panic!("accepted an empty to"),
    }
}

#[test]
fn validate_normalizes_empty_optionals() {
    let r = EstimateInputData::validate(
        Some(String::new()),
        Some("0x1".to_string()),
        Some(String::new()),
        Some(String::new()),
        Some(String::new()),
    )
    .unwrap();
    assert!(r.from.is_none());
    assert_eq!(r.to, "0x1");
    assert!(r.value.is_none());
    assert!(r.data.is_none());
    assert!(r.block.is_none());
}

#[test]
fn validate_names_the_bad_field() {
    let r = EstimateInputData::validate(Some("abc".to_string()), Some("0x1".to_string()), None,
        None, None);
    match r {
        Err(e) => assert_eq!(e.message(), "from: Invalid format - missing 0x prefix"),
        Ok(_) => panic!("accepted a bad from"),
    }
    let r = EstimateInputData::validate(None, Some("0x1".to_string()), None, None,
        Some("soon".to_string()));
    match r {
        Err(e) => assert_eq!(e.message(), "block: Invalid format - missing 0x prefix"),
        Ok(_) => panic!("accepted a bad block"),
    }
}

#[test]
fn parse_body_full_request() {
    let body = r#"{"from":"0xa1","to":"0xb2","value":"0x1","data":"0xd0e30db0","block":"pending"}"#;
    let d = parse_estimate_input(body).unwrap();
    assert_eq!(d.from.as_deref(), Some("0xa1"));
    assert_eq!(d.to, "0xb2");
    assert_eq!(d.value.as_deref(), Some("0x1"));
    assert_eq!(d.data.as_deref(), Some("0xd0e30db0"));
    assert_eq!(d.block.as_deref(), Some("pending"));
}

#[test]
fn parse_body_ignores_unknown_fields() {
    let body = r#"{"gasPrice":"0x9","to":"0xb2","extra":[1,2,{"x":true}]}"#;
    let d = parse_estimate_input(body).unwrap();
    assert_eq!(d.to, "0xb2");
    assert!(d.from.is_none());
}

#[test]
fn parse_body_null_is_absent() {
    let body = r#"{"to":"0xb2","from":null,"block":null}"#;
    let d = parse_estimate_input(body).unwrap();
    assert_eq!(d.to, "0xb2");
    assert!(d.from.is_none());
    assert!(d.block.is_none());
}

#[test]
fn parse_body_rejects_wrong_type() {
    let body = r#"{"to":5}"#;
    match parse_estimate_input(body) {
        Err(ValidationError::InvalidFieldType(f)) => assert_eq!(f, "to"),
        _ => panic!("accepted a numeric to"),
    }
}

#[test]
fn parse_body_rejects_duplicate_field() {
    let body = r#"{"to":"0x1","to":"0x2"}"#;
    match parse_estimate_input(body) {
        Err(ValidationError::DuplicateField(f)) => assert_eq!(f, "to"),
        _ => panic!("accepted a duplicated to"),
    }
}

#[test]
fn parse_body_rejects_non_object() {
    for body in ["[]", "\"x\"", "17", "", "   ", "{\"to\":\"0x1\"} trailing"] {
        match parse_estimate_input(body) {
            Err(ValidationError::MalformedBody) => {},
            _ => panic!("accepted a malformed body: {}", body),
        }
    }
}

#[test]
fn parse_body_accepts_whitespace() {
    let body = " {\n\t\"to\" :  \"0x1\" ,\r\n \"block\" : \"latest\" } \n";
    let d = parse_estimate_input(body).unwrap();
    assert_eq!(d.to, "0x1");
    assert_eq!(d.block.as_deref(), Some("latest"));
}

#[test]
fn into_domain_keeps_fields() {
    let d = parse_estimate_input(r#"{"to":"0xb2","value":"0x1"}"#).unwrap();
    let g = d.into_domain();
    assert_eq!(g.to, "0xb2");
    assert_eq!(g.value.as_deref(), Some("0x1"));
    assert!(g.from.is_none());
    assert!(g.data.is_none());
    assert!(g.block.is_none());
}
