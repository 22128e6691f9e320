use steam_bridge::error::BridgeError;
use steam_bridge::steamuser::{
    get_auth_session_ticket, get_auth_ticket_for_web_api, Ticket, TicketAction, TicketEvent,
    TicketForWebApiResponse,
};

const QUIET: TicketAction = TicketAction {
    release_listener: false,
    stop_timer: false,
    cancel_ticket: None,
};

fn web_response(handle: u32, result: Result<(), i32>, len: i32, ticket: Vec<u8>) -> TicketForWebApiResponse {
    TicketForWebApiResponse { ticket_handle: handle, result, ticket_len: len, ticket }
}

#[test]
fn ticket_cancel_is_idempotent() {
    let mut ticket = Ticket::new(vec![1, 2, 3], 42);
    assert_eq!(ticket.handle(), 42);
    assert!(!ticket.is_cancelled());
    assert_eq!(ticket.cancel(), Some(42));
    assert!(ticket.is_cancelled());
    assert_eq!(ticket.cancel(), None);
    assert_eq!(ticket.cancel(), None);
    assert!(ticket.is_cancelled());
}

#[test]
fn ticket_bytes_are_copied_out() {
    let mut ticket = Ticket::new(vec![9, 8, 7], 1);
    assert_eq!(ticket.get_bytes(), vec![9, 8, 7]);
    ticket.cancel();
    assert_eq!(ticket.get_bytes(), vec![9, 8, 7]);
    assert_eq!(Ticket::new(Vec::new(), 1).get_bytes(), Vec::<u8>::new());
}

#[test]
fn ticket_request_times_out_after_ten_seconds_by_default_and_cancels() {
    let mut request = get_auth_session_ticket(77, vec![1, 2], None);
    assert_eq!(request.timeout_seconds(), 10);
    assert_eq!(request.handle(), 77);
    assert!(request.is_pending());
    assert_eq!(request.finish(), None);
    let action = request.on_timer();
    assert_eq!(
        action,
        TicketAction { release_listener: true, stop_timer: false, cancel_ticket: Some(77) }
    );
    assert!(!request.is_pending());
    assert_eq!(request.finish(), None);
    request.cancel_attempted();
    assert_eq!(request.finish(), Some(Err(BridgeError::Timeout)));
    assert_eq!(request.finish(), None);
}

#[test]
fn confirmed_session_ticket_is_handed_out_uncancelled() {
    let mut request = get_auth_session_ticket(77, vec![1, 2, 3], Some(5));
    assert_eq!(request.timeout_seconds(), 5);
    let action = request.on_session_response(77, Ok(()));
    assert_eq!(
        action,
        TicketAction { release_listener: true, stop_timer: true, cancel_ticket: None }
    );
    assert_eq!(request.on_timer(), QUIET);
    let ticket = request.finish().unwrap().unwrap();
    assert_eq!(ticket, Ticket::new(vec![1, 2, 3], 77));
    assert_eq!(ticket.handle(), 77);
    assert!(!ticket.is_cancelled());
    assert_eq!(request.finish(), None);
}

#[test]
fn refused_session_ticket_is_cancelled_before_the_error() {
    let mut request = get_auth_session_ticket(77, vec![1], None);
    let action = request.on_session_response(77, Err(15));
    assert_eq!(
        action,
        TicketAction { release_listener: true, stop_timer: true, cancel_ticket: Some(77) }
    );
    assert_eq!(request.finish(), None);
    request.cancel_attempted();
    assert_eq!(request.finish(), Some(Err(BridgeError::NativeFailure(15))));
}

#[test]
fn response_for_another_ticket_is_ignored() {
    let mut request = get_auth_session_ticket(77, vec![1], None);
    assert_eq!(request.on_session_response(78, Ok(())), QUIET);
    assert_eq!(request.on_session_response(76, Err(2)), QUIET);
    assert!(request.is_pending());
    assert_eq!(request.finish(), None);
}

#[test]
fn confirmation_after_timeout_hands_out_no_ticket() {
    let mut request = get_auth_session_ticket(77, vec![1], None);
    request.on_timer();
    assert_eq!(request.on_session_response(77, Ok(())), QUIET);
    request.cancel_attempted();
    assert_eq!(request.finish(), Some(Err(BridgeError::Timeout)));
}

#[test]
fn abandoned_request_cancels_the_ticket() {
    let mut request = get_auth_session_ticket(77, vec![1], None);
    assert_eq!(
        request.abandon(),
        TicketAction { release_listener: true, stop_timer: true, cancel_ticket: Some(77) }
    );
    assert_eq!(request.abandon(), QUIET);
    assert_eq!(request.finish(), None);
    request.cancel_attempted();
    assert_eq!(request.finish(), Some(Err(BridgeError::AlreadyDisposed)));
}

#[test]
fn web_api_ticket_is_cut_to_its_length() {
    let mut request = get_auth_ticket_for_web_api(5, None);
    let action = request.on_web_api_response(web_response(5, Ok(()), 3, vec![1, 2, 3, 0, 0]));
    assert_eq!(
        action,
        TicketAction { release_listener: true, stop_timer: true, cancel_ticket: None }
    );
    let ticket = request.finish().unwrap().unwrap();
    assert_eq!(ticket.get_bytes(), vec![1, 2, 3]);
    assert_eq!(ticket.handle(), 5);
}

#[test]
fn web_api_ticket_length_at_the_edges() {
    let cases: [(i32, Vec<u8>); 5] = [
        (0, vec![]),
        (4, vec![1, 2, 3, 4]),
        (5, vec![1, 2, 3, 4]),
        (-1, vec![1, 2, 3, 4]),
        (i32::MAX, vec![1, 2, 3, 4]),
    ];
    for (len, expected) in cases {
        let mut request = get_auth_ticket_for_web_api(5, None);
        request.on_web_api_response(web_response(5, Ok(()), len, vec![1, 2, 3, 4]));
        assert_eq!(request.finish().unwrap().unwrap().get_bytes(), expected);
    }
}

#[test]
fn refused_web_api_ticket_is_cancelled() {
    let mut request = get_auth_ticket_for_web_api(5, None);
    let action = request.on_web_api_response(web_response(5, Err(25), 2, vec![1, 2]));
    assert_eq!(
        action,
        TicketAction { release_listener: true, stop_timer: true, cancel_ticket: Some(5) }
    );
    assert_eq!(request.step(TicketEvent::CancelAttempted), QUIET);
    assert_eq!(request.finish(), Some(Err(BridgeError::NativeFailure(25))));
}

#[test]
fn concurrent_ticket_requests_each_get_their_own_ticket() {
    let mut first = get_auth_ticket_for_web_api(100, None);
    let mut second = get_auth_ticket_for_web_api(200, None);
    let announced: [(u32, Vec<u8>); 2] = [(200, vec![2, 2, 2]), (100, vec![1, 1])];
    for (handle, bytes) in announced {
        let len = bytes.len() as i32;
        let a = first.on_web_api_response(web_response(handle, Ok(()), len, bytes.clone()));
        let b = second.on_web_api_response(web_response(handle, Ok(()), len, bytes));
        assert_eq!(a.release_listener, handle == 100);
        assert_eq!(b.release_listener, handle == 200);
        assert_eq!(a.cancel_ticket, None);
        assert_eq!(b.cancel_ticket, None);
    }
    let one = first.finish().unwrap().unwrap();
    let two = second.finish().unwrap().unwrap();
    assert_eq!(one.get_bytes(), vec![1, 1]);
    assert_eq!(one.handle(), 100);
    assert_eq!(two.get_bytes(), vec![2, 2, 2]);
    assert_eq!(two.handle(), 200);
}

#[test]
fn late_web_api_response_does_not_replace_the_ticket() {
    let mut request = get_auth_ticket_for_web_api(5, None);
    request.on_web_api_response(web_response(5, Ok(()), 2, vec![1, 2]));
    assert_eq!(
        request.on_web_api_response(web_response(5, Ok(()), 2, vec![8, 9])),
        QUIET
    );
    assert_eq!(request.finish().unwrap().unwrap().get_bytes(), vec![1, 2]);
}

#[test]
fn ticket_request_takes_events() {
    let mut request = get_auth_session_ticket(9, vec![4], None);
    assert_eq!(
        request.step(TicketEvent::SessionResponse { ticket_handle: 1, result: Ok(()) }),
        QUIET
    );
    assert_eq!(
        request.step(TicketEvent::WebApiResponse(web_response(2, Ok(()), 1, vec![7]))),
        QUIET
    );
    assert_eq!(
        request.step(TicketEvent::SessionResponse { ticket_handle: 9, result: Ok(()) }),
        TicketAction { release_listener: true, stop_timer: true, cancel_ticket: None }
    );
    assert_eq!(request.step(TicketEvent::TimerFired), QUIET);
    assert_eq!(request.step(TicketEvent::Abandoned), QUIET);
    assert_eq!(request.step(TicketEvent::CancelAttempted), QUIET);
    assert_eq!(request.finish().unwrap().unwrap().get_bytes(), vec![4]);
}
