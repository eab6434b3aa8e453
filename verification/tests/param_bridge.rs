use waifudex::param_bridge::{extract_available_params, extract_payload, ParamBridgeError, INP_MAGIC};

fn inp(payload: &str) -> Vec<u8> {
    let mut bytes = b"TRNSRTS\0".to_vec();
    bytes.extend_from_slice(&(payload.len() as u32).to_be_bytes());
    bytes.extend_from_slice(payload.as_bytes());
    bytes.extend_from_slice(b"TEX_SECT");
    bytes
}

#[test]
fn the_payload_follows_the_magic_and_its_length() {
    assert_eq!(&INP_MAGIC, b"TRNSRTS\0");
    assert_eq!(extract_payload(&inp("{}")).unwrap(), b"{}".to_vec());
    assert!(matches!(extract_payload(b"TRNSRTS"), Err(ParamBridgeError::Io(_))));
    assert!(matches!(extract_payload(b"NOTMAGIC\0\0\0\0"), Err(ParamBridgeError::InvalidMagic)));
    let mut short = b"TRNSRTS\0".to_vec();
    short.extend_from_slice(&[0, 0, 1, 0]);
    short.extend_from_slice(b"{}");
    assert!(matches!(extract_payload(&short), Err(ParamBridgeError::Io(_))));
}

#[test]
fn parameters_are_read_from_the_param_list() {
    let bytes = inp(r#"{"param":[{"name":"ParamAngleX","is_vec2":false,"min":[-30,0],"max":[30.5,0],"defaults":[0,0]}]}"#);
    let params = extract_available_params(&bytes).expect("valid params");
    assert_eq!(params.len(), 1);
    assert_eq!(params[0].name, "ParamAngleX");
    assert!(!params[0].is_vec2);
    assert_eq!(params[0].min.x, "-30");
    assert_eq!(params[0].max.x, "30.5");
    assert_eq!(params[0].defaults.y, "0");
}

#[test]
fn a_document_without_a_param_list_has_no_parameters() {
    assert!(extract_available_params(&inp(r#"{"nodes":[]}"#)).unwrap().is_empty());
}

#[test]
fn the_first_invalid_field_is_reported() {
    let bytes = inp(r#"{"param":[{"name":"A","is_vec2":true,"min":[0,0],"max":[1,1],"defaults":[0,0]},{"name":"B","is_vec2":"no"}]}"#);
    match extract_available_params(&bytes) {
        Err(ParamBridgeError::InvalidParamField { index, field }) => {
            assert_eq!(index, 1);
            assert_eq!(field, "is_vec2");
        }
        other => panic!("expected an invalid field, got {other:?}"),
    }
    match extract_available_params(&inp(r#"{"param":[3]}"#)) {
        Err(ParamBridgeError::InvalidParamField { index, field }) => assert_eq!((index, field), (0, "param")),
        other => panic!("expected an invalid entry, got {other:?}"),
    }
    match extract_available_params(&inp(r#"{"param":[{"name":"C","is_vec2":false,"min":[0],"max":[1,1],"defaults":[0,0]}]}"#)) {
        Err(ParamBridgeError::InvalidParamField { field, .. }) => assert_eq!(field, "min"),
        other => panic!("expected an invalid range, got {other:?}"),
    }
}

#[test]
fn a_payload_that_is_not_json_is_a_json_error() {
    assert!(matches!(extract_available_params(&inp("{oops")), Err(ParamBridgeError::Json(_))));
}
