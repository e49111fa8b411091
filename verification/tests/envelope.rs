//! Envelope unwrapping: the data / message / unreachable precedence.

use rnaapi::NaApiError;
use rnaapi::envelope::Envelope;
use rnaapi::envelope::data_from_body;
use rnaapi::envelope::unwrap_envelope;

fn json(s: &str) -> serde_json::Value {
    serde_json::from_str(s).unwrap()
}

#[test]
fn data_wins_over_message() {
    let env = Envelope {
        data: Some(json("{\"id\":1}")),
        message: Some("ignored".to_owned()),
        code: Some(422),
    };
    let v = unwrap_envelope(env, "cloud/servers").unwrap();
    assert_eq!(v, json("{\"id\":1}"));
}

#[test]
fn message_without_data_is_rejection() {
    let env = Envelope {
        data: None,
        message: Some("invalid mbpkgid".to_owned()),
        code: Some(422),
    };
    let e = unwrap_envelope(env, "cloud/server?mbpkgid=0").unwrap_err();
    match e {
        NaApiError::APIKeyInvalid(t) => assert_eq!(t, "422: invalid mbpkgid"),
        other => panic!("expected APIKeyInvalid, got {:?}", other),
    }
}

#[test]
fn neither_data_nor_message_names_the_path() {
    let env = Envelope { data: None, message: None, code: Some(200) };
    let e = unwrap_envelope(env, "cloud/servers").unwrap_err();
    match e {
        NaApiError::UnknownError(t) => assert_eq!(t, "Could not reach: cloud/servers"),
        other => panic!("expected UnknownError, got {:?}", other),
    }
}

#[test]
fn message_without_code_is_outside_the_envelope_shape() {
    let env = Envelope { data: None, message: Some("hm".to_owned()), code: None };
    let e = unwrap_envelope(env, "p").unwrap_err();
    match e {
        NaApiError::UnknownError(t) => assert_eq!(t, "Could not reach: p"),
        other => panic!("expected UnknownError, got {:?}", other),
    }
}

#[test]
fn body_with_data_yields_the_data_value() {
    let body = "{\"code\":200,\"result\":\"success\",\"data\":{\"status\":\"up\"}}";
    let v = data_from_body(body, "cloud/status/42").unwrap();
    assert_eq!(v, json("{\"status\":\"up\"}"));
}

#[test]
fn body_with_list_data_keeps_input_order() {
    let body = "{\"code\":200,\"data\":[{\"id\":1},{\"id\":2}]}";
    let v = data_from_body(body, "cloud/servers").unwrap();
    let items = v.as_array().unwrap();
    assert_eq!(items.len(), 2);
    assert_eq!(items[0], json("{\"id\":1}"));
    assert_eq!(items[1], json("{\"id\":2}"));
}

#[test]
fn rejection_body_formats_code_and_message() {
    let body = "{\"code\":422,\"message\":\"invalid mbpkgid\"}";
    let e = data_from_body(body, "cloud/server?mbpkgid=0").unwrap_err();
    match e {
        NaApiError::APIKeyInvalid(t) => assert_eq!(t, "422: invalid mbpkgid"),
        other => panic!("expected APIKeyInvalid, got {:?}", other),
    }
}

#[test]
fn empty_object_body_is_unreachable() {
    let e = data_from_body("{}", "locations").unwrap_err();
    match e {
        NaApiError::UnknownError(t) => assert_eq!(t, "Could not reach: locations"),
        other => panic!("expected UnknownError, got {:?}", other),
    }
}

#[test]
fn malformed_body_is_transport_failure() {
    let e = data_from_body("not json at all", "cloud/servers").unwrap_err();
    match e {
        NaApiError::UnknownError(t) => {
            assert!(t.starts_with("Failed to finish request with error: "), "got: {t}")
        },
        other => panic!("expected UnknownError, got {:?}", other),
    }
}

#[test]
fn body_with_data_and_message_still_yields_data() {
    let body = "{\"code\":422,\"message\":\"noise\",\"data\":[7]}";
    let v = data_from_body(body, "p").unwrap();
    assert_eq!(v, json("[7]"));
}

#[test]
fn non_string_message_counts_as_absent() {
    let body = "{\"code\":422,\"message\":5}";
    let e = data_from_body(body, "p").unwrap_err();
    match e {
        NaApiError::UnknownError(t) => assert_eq!(t, "Could not reach: p"),
        other => panic!("expected UnknownError, got {:?}", other),
    }
}

#[test]
fn non_integer_code_counts_as_absent() {
    let body = "{\"code\":\"422\",\"message\":\"no\"}";
    let e = data_from_body(body, "p").unwrap_err();
    match e {
        NaApiError::UnknownError(t) => assert_eq!(t, "Could not reach: p"),
        other => panic!("expected UnknownError, got {:?}", other),
    }
}

#[test]
fn identical_bodies_decode_identically() {
    let body = "{\"code\":200,\"data\":[{\"id\":1},{\"id\":2}]}";
    let a = data_from_body(body, "cloud/servers").unwrap();
    let b = data_from_body(body, "cloud/servers").unwrap();
    assert_eq!(a, b);
}

#[test]
fn one_failing_body_leaves_the_others_intact() {
    // Independent results of a fanned-out batch are delivered one by one:
    // a transport failure in one does not disturb its siblings.
    let bodies = [
        "{\"code\":200,\"data\":{\"status\":\"up\"}}",
        "garbage",
        "{\"code\":200,\"data\":[{\"id\":3}]}",
    ];
    let results: Vec<_> = bodies.iter().map(|b| data_from_body(b, "p")).collect();
    assert!(results[0].is_ok());
    assert!(results[1].is_err());
    assert!(results[2].is_ok());
    assert_eq!(results[0].as_ref().unwrap(), &json("{\"status\":\"up\"}"));
    assert_eq!(results[2].as_ref().unwrap(), &json("[{\"id\":3}]"));
}
