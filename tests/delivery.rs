use momento_protosocket_ffi::{
    outcome_of_get, outcome_of_set, submit_get, submit_set, Accumulator, CompletionEnvelope,
    OperationIdAllocator, Outcome, ProtosocketResponseType,
};

#[test]
fn round_trip_set_then_get_hits() {
    let mut ids = OperationIdAllocator::new();
    let mut acc = Accumulator::new();

    let set = submit_set(&mut ids, Some("cache"), Some(b"k1".as_slice()), Some(b"v1".as_slice()))
        .expect("accepted");
    let handle = set.handle();
    assert!(acc.complete(set.complete(outcome_of_set(Ok(())))));
    let r = acc.poll(handle.operation_id).expect("set finished");
    assert_eq!(r.response_type, ProtosocketResponseType::SetSuccess);
    assert!(r.value.is_none());
    assert!(r.error_message.is_none());

    let get = submit_get(&mut ids, Some("cache"), Some(b"k1".as_slice())).expect("accepted");
    let handle = get.handle();
    assert_ne!(handle.operation_id, set.operation_id);
    assert!(acc.complete(get.complete(outcome_of_get(Ok(Some(b"v1".to_vec()))))));
    let r = acc.poll(handle.operation_id).expect("get finished");
    assert_eq!(r.response_type, ProtosocketResponseType::GetHit);
    let value = r.value.expect("a hit carries its value");
    assert_eq!(value.data, b"v1".to_vec());
    assert_eq!(value.length(), 2);
    assert!(r.error_message.is_none());
}

#[test]
fn miss_has_no_value() {
    let mut ids = OperationIdAllocator::new();
    let mut acc = Accumulator::new();
    let get = submit_get(&mut ids, Some("cache"), Some(b"never-set-key".as_slice()))
        .expect("accepted");
    assert!(acc.complete(get.complete(outcome_of_get(Ok(None)))));
    let r = acc.poll(get.operation_id).expect("get finished");
    assert_eq!(r.response_type, ProtosocketResponseType::GetMiss);
    assert!(r.value.is_none());
    assert!(r.error_message.is_none());
}

#[test]
fn second_poll_is_absent() {
    let mut acc = Accumulator::new();
    let env = CompletionEnvelope { outcome: Outcome::SetSuccess, operation_id: 9 };
    assert!(acc.complete(env));
    assert_eq!(acc.pending_count(), 1);
    assert!(acc.poll(9).is_some());
    assert!(acc.poll(9).is_none());
    assert_eq!(acc.pending_count(), 0);
}

#[test]
fn poll_before_completion_is_absent() {
    let mut acc = Accumulator::new();
    assert!(acc.poll(0).is_none());
    assert!(acc.complete(CompletionEnvelope { outcome: Outcome::GetMiss, operation_id: 0 }));
    assert_eq!(
        acc.poll(0).expect("finished").response_type,
        ProtosocketResponseType::GetMiss
    );
}

#[test]
fn waiting_result_is_never_overwritten() {
    let mut acc = Accumulator::new();
    assert!(acc.complete(CompletionEnvelope {
        outcome: Outcome::GetHit { value: b"first".to_vec() },
        operation_id: 3,
    }));
    assert!(!acc.complete(CompletionEnvelope { outcome: Outcome::GetMiss, operation_id: 3 }));
    assert_eq!(acc.pending_count(), 1);
    let r = acc.poll(3).expect("finished");
    assert_eq!(r.response_type, ProtosocketResponseType::GetHit);
    assert_eq!(r.value.expect("hit").data, b"first".to_vec());
}

#[test]
fn results_are_kept_apart_by_id() {
    let mut acc = Accumulator::new();
    for id in [5u64, 1, 8] {
        assert!(acc.complete(CompletionEnvelope {
            outcome: Outcome::GetHit { value: vec![id as u8] },
            operation_id: id,
        }));
    }
    assert_eq!(acc.pending_count(), 3);
    assert_eq!(acc.poll(1).expect("1").value.expect("hit").data, vec![1u8]);
    assert_eq!(acc.poll(8).expect("8").value.expect("hit").data, vec![8u8]);
    assert!(acc.poll(1).is_none());
    assert_eq!(acc.poll(5).expect("5").value.expect("hit").data, vec![5u8]);
    assert_eq!(acc.pending_count(), 0);
}

#[test]
fn failed_operation_is_delivered_as_error() {
    let mut acc = Accumulator::new();
    let outcome = outcome_of_set(Err("timed out".to_string()));
    assert!(acc.complete(CompletionEnvelope { outcome, operation_id: 12 }));
    let r = acc.poll(12).expect("finished");
    assert_eq!(r.response_type, ProtosocketResponseType::Error);
    assert!(r.value.is_none());
    assert_eq!(r.error_message.as_deref(), Some("timed out"));
}
