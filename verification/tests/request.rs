use steam_bridge::error::BridgeError;
use steam_bridge::request::{Completion, Delivery, PendingRequest};

fn completion(key: u64, result: Result<Vec<u8>, i32>) -> Completion<Vec<u8>> {
    Completion { key, result }
}

#[test]
fn pending_request_listens_under_its_key() {
    let request: PendingRequest<Vec<u8>> = PendingRequest::begin(Ok(7));
    assert_eq!(request.key(), 7);
    assert!(!request.is_completed());
    assert!(request.is_listening());
}

#[test]
fn matching_completion_resolves_and_is_delivered_once() {
    let mut request = PendingRequest::begin(Ok(7));
    assert_eq!(request.take(), None);
    assert_eq!(
        request.on_completion(completion(7, Ok(vec![1, 2, 3]))),
        Delivery::Resolved
    );
    assert!(request.is_completed());
    assert!(!request.is_listening());
    assert_eq!(request.take(), Some(Ok(vec![1, 2, 3])));
    assert_eq!(request.take(), None);
    assert!(request.is_completed());
}

#[test]
fn unrelated_completions_never_resolve() {
    let mut request = PendingRequest::begin(Ok(7));
    for key in [0u64, 1, 6, 8, u64::MAX] {
        assert_eq!(
            request.on_completion(completion(key, Ok(vec![9]))),
            Delivery::Mismatch
        );
        assert!(!request.is_completed());
        assert!(request.is_listening());
    }
    assert_eq!(request.take(), None);
}

#[test]
fn interleaved_completions_resolve_exactly_once_by_the_first_match() {
    let mut request = PendingRequest::begin(Ok(7));
    let keys = [1u64, 2, 7, 3, 7, 7, 4];
    let mut deliveries = Vec::new();
    for (i, key) in keys.iter().enumerate() {
        deliveries.push(request.on_completion(completion(*key, Ok(vec![i as u8]))));
    }
    assert_eq!(
        deliveries,
        vec![
            Delivery::Mismatch,
            Delivery::Mismatch,
            Delivery::Resolved,
            Delivery::Mismatch,
            Delivery::Late,
            Delivery::Late,
            Delivery::Mismatch,
        ]
    );
    let resolved = deliveries.iter().filter(|d| **d == Delivery::Resolved).count();
    assert_eq!(resolved, 1);
    assert_eq!(request.take(), Some(Ok(vec![2])));
}

#[test]
fn late_completion_does_not_overwrite_the_slot() {
    let mut request = PendingRequest::begin(Ok(5));
    assert_eq!(request.on_completion(completion(5, Ok(vec![1]))), Delivery::Resolved);
    assert_eq!(request.on_completion(completion(5, Ok(vec![2]))), Delivery::Late);
    assert_eq!(request.on_completion(completion(5, Err(15))), Delivery::Late);
    assert_eq!(request.take(), Some(Ok(vec![1])));
}

#[test]
fn completion_after_take_is_still_discarded() {
    let mut request = PendingRequest::begin(Ok(5));
    request.on_completion(completion(5, Ok(vec![1])));
    assert_eq!(request.take(), Some(Ok(vec![1])));
    assert_eq!(request.on_completion(completion(5, Ok(vec![2]))), Delivery::Late);
    assert_eq!(request.take(), None);
}

#[test]
fn native_failure_is_translated() {
    let mut request: PendingRequest<Vec<u8>> = PendingRequest::begin(Ok(5));
    assert_eq!(request.on_completion(completion(5, Err(15))), Delivery::Resolved);
    assert_eq!(request.take(), Some(Err(BridgeError::NativeFailure(15))));
}

#[test]
fn unknown_native_code_becomes_generic_failure() {
    for code in [0, 1, -3] {
        let mut request: PendingRequest<Vec<u8>> = PendingRequest::begin(Ok(5));
        request.on_completion(completion(5, Err(code)));
        assert_eq!(request.take(), Some(Err(BridgeError::NativeFailure(2))));
    }
}

#[test]
fn failed_launch_is_resolved_at_once_without_listener() {
    let mut request: PendingRequest<Vec<u8>> = PendingRequest::begin(Err(8));
    assert!(request.is_completed());
    assert!(!request.is_listening());
    assert_eq!(request.on_completion(completion(3, Ok(vec![1]))), Delivery::Mismatch);
    assert_eq!(request.on_completion(completion(0, Ok(vec![1]))), Delivery::Late);
    assert_eq!(request.take(), Some(Err(BridgeError::LaunchFailure)));
    assert_eq!(request.take(), None);
}

#[test]
fn fail_resolves_only_a_pending_request() {
    let mut request: PendingRequest<Vec<u8>> = PendingRequest::begin(Ok(5));
    assert!(request.fail(BridgeError::Timeout));
    assert!(!request.fail(BridgeError::AlreadyDisposed));
    assert_eq!(request.on_completion(completion(5, Ok(vec![1]))), Delivery::Late);
    assert_eq!(request.take(), Some(Err(BridgeError::Timeout)));
}

#[test]
fn fail_after_completion_changes_nothing() {
    let mut request = PendingRequest::begin(Ok(5));
    request.on_completion(completion(5, Ok(vec![4])));
    assert!(!request.fail(BridgeError::Timeout));
    assert_eq!(request.take(), Some(Ok(vec![4])));
}

#[test]
fn two_requests_on_one_channel_each_get_their_own_completion() {
    let mut first = PendingRequest::begin(Ok(11));
    let mut second = PendingRequest::begin(Ok(22));
    let announced: [(u64, u8); 3] = [(22, 2), (33, 3), (11, 1)];
    for (key, byte) in announced {
        first.on_completion(completion(key, Ok(vec![byte])));
        second.on_completion(completion(key, Ok(vec![byte])));
    }
    assert_eq!(first.take(), Some(Ok(vec![1])));
    assert_eq!(second.take(), Some(Ok(vec![2])));
}

#[test]
fn request_carries_any_payload() {
    let mut request: PendingRequest<(u64, bool)> = PendingRequest::begin(Ok(1));
    request.on_completion(Completion { key: 1, result: Ok((99, true)) });
    assert_eq!(request.take(), Some(Ok((99, true))));
}
