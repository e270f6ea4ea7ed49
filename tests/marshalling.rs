use momento::cache::{GetResponse, SetResponse};
use momento::{MomentoError, MomentoErrorCode};
use momento_protosocket_ffi::{
    get_outcome, outcome_of_get, outcome_of_set, set_outcome, Outcome, ProtosocketResponseType,
    ProtosocketResult,
};

fn service_error(message: &str) -> MomentoError {
    MomentoError {
        message: message.to_string(),
        error_code: MomentoErrorCode::UnknownError,
        inner_error: None,
    }
}

#[test]
fn response_type_names() {
    assert_eq!(ProtosocketResponseType::SetSuccess.name(), "SetSuccess");
    assert_eq!(ProtosocketResponseType::GetHit.name(), "GetHit");
    assert_eq!(ProtosocketResponseType::GetMiss.name(), "GetMiss");
    assert_eq!(ProtosocketResponseType::Error.name(), "Error");
}

#[test]
fn set_success_record_is_empty() {
    let r = ProtosocketResult::from_outcome(Outcome::SetSuccess);
    assert_eq!(r.response_type, ProtosocketResponseType::SetSuccess);
    assert!(r.value.is_none());
    assert!(r.error_message.is_none());
}

#[test]
fn hit_record_carries_the_bytes() {
    let r = ProtosocketResult::from_outcome(Outcome::GetHit { value: vec![0u8, 255, 7] });
    assert_eq!(r.response_type, ProtosocketResponseType::GetHit);
    let b = r.value.expect("value");
    assert_eq!(b.data, vec![0u8, 255, 7]);
    assert_eq!(b.length(), 3);
    assert!(r.error_message.is_none());
}

#[test]
fn empty_hit_still_carries_a_value() {
    let r = ProtosocketResult::from_outcome(Outcome::GetHit { value: Vec::new() });
    assert_eq!(r.response_type, ProtosocketResponseType::GetHit);
    assert_eq!(r.value.expect("value").length(), 0);
}

#[test]
fn error_record_carries_the_message() {
    let r = ProtosocketResult::error("boom".to_string());
    assert_eq!(r.response_type, ProtosocketResponseType::Error);
    assert!(r.value.is_none());
    assert_eq!(r.error_message.as_deref(), Some("boom"));
}

#[test]
fn plain_results_translate_exactly() {
    assert!(matches!(outcome_of_set(Ok(())), Outcome::SetSuccess));
    assert!(matches!(outcome_of_get(Ok(None)), Outcome::GetMiss));
    match outcome_of_get(Ok(Some(b"v".to_vec()))) {
        Outcome::GetHit { value } => assert_eq!(value, b"v".to_vec()),
        other => panic!("unexpected {:?}", other),
    }
    match outcome_of_get(Err("down".to_string())) {
        Outcome::Error { message } => assert_eq!(message, "down"),
        other => panic!("unexpected {:?}", other),
    }
}

#[test]
fn client_set_success_becomes_set_success() {
    assert!(matches!(set_outcome(Ok(SetResponse {})), Outcome::SetSuccess));
}

#[test]
fn client_set_failure_carries_the_error_text() {
    match set_outcome(Err(service_error("cache not found"))) {
        Outcome::Error { message } => assert_eq!(message, "cache not found"),
        other => panic!("unexpected {:?}", other),
    }
}

#[test]
fn client_get_hit_carries_the_stored_bytes() {
    match get_outcome(Ok(GetResponse::from("v1"))) {
        Outcome::GetHit { value } => assert_eq!(value, b"v1".to_vec()),
        other => panic!("unexpected {:?}", other),
    }
}

#[test]
fn client_get_miss_becomes_miss() {
    assert!(matches!(get_outcome(Ok(GetResponse::Miss)), Outcome::GetMiss));
}

#[test]
fn client_get_failure_carries_the_error_text() {
    match get_outcome(Err(service_error("timed out"))) {
        Outcome::Error { message } => assert_eq!(message, "timed out"),
        other => panic!("unexpected {:?}", other),
    }
}
