//! Authentication tickets.
//!
//! A ticket is asked for with a native call that returns its handle at once;
//! whether the ticket is good is announced later, on the channel that all
//! ticket requests share. A [`TicketRequest`] follows one such request under a
//! deadline. It hands out a [`Ticket`] only where the native layer has
//! confirmed it. Where the request ends in an error it asks for the
//! cancellation of the ticket in the same step, and it keeps the error back
//! until the cancellation was attempted, so that a ticket is never both
//! refused to the caller and kept alive on the native side.

use vstd::prelude::*;
use crate::deadline::{DeadlineGuard, GuardAction, GuardEvent, GuardState};
use crate::error::BridgeError;
use crate::request::{Completion, PendingRequest, RequestState};

verus! {

/// The mathematical state of a ticket.
pub struct TicketState {
    /// The bytes to send to whoever wants to authenticate the user.
    pub data: Seq<u8>,
    /// The native handle of the ticket.
    pub handle: u32,
    /// Whether the ticket has been cancelled.
    pub cancelled: bool,
}

/// An authentication ticket that the native layer has confirmed.
#[derive(Debug, PartialEq, Eq)]
pub struct Ticket {
    data: Vec<u8>,
    handle: u32,
    cancelled: bool,
}

impl View for Ticket {
    type V = TicketState;

    closed spec fn view(&self) -> TicketState {
        TicketState { data: self.data@, handle: self.handle, cancelled: self.cancelled }
    }
}

impl Ticket {
    /// The ticket with the given bytes and native handle, not cancelled.
    pub fn new(data: Vec<u8>, handle: u32) -> (ticket: Self)
        ensures
            ticket@ == (TicketState { data: data@, handle, cancelled: false }),
    {
        Ticket { data, handle, cancelled: false }
    }

    /// The native handle of the ticket.
    pub fn handle(&self) -> (handle: u32)
        ensures
            handle == self@.handle,
    {
        self.handle
    }

    /// Whether the ticket has been cancelled.
    pub fn is_cancelled(&self) -> (cancelled: bool)
        ensures
            cancelled == self@.cancelled,
    {
        self.cancelled
    }

    /// Cancels the ticket. The first call hands out the native handle that
    /// is to be cancelled; every later call hands out nothing and is no
    /// fault.
    pub fn cancel(&mut self) -> (handle: Option<u32>)
        ensures
            final(self)@ == (TicketState { cancelled: true, ..old(self)@ }),
            handle == (if old(self)@.cancelled {
                None
            } else {
                Some(old(self)@.handle)
            }),
    {
        if self.cancelled {
            None
        } else {
            self.cancelled = true;
            Some(self.handle)
        }
    }

    /// A copy of the bytes of the ticket.
    pub fn get_bytes(&self) -> (bytes: Vec<u8>)
        ensures
            bytes@ == self@.data,
    {
        self.data.clone()
    }
}

/// What the native layer announces when a ticket for a web service is ready.
#[derive(Debug, PartialEq, Eq)]
pub struct TicketForWebApiResponse {
    /// The handle of the ticket that the announcement is about.
    pub ticket_handle: u32,
    /// Whether the ticket was issued, or the failure code.
    pub result: Result<(), i32>,
    /// The number of bytes of `ticket` that belong to the ticket.
    pub ticket_len: i32,
    /// The buffer that holds the ticket.
    pub ticket: Vec<u8>,
}

/// The first `len` bytes of `buffer`, or all of it where `len` is negative or
/// beyond its end.
pub open spec fn ticket_bytes(buffer: Seq<u8>, len: i32) -> Seq<u8> {
    if 0 <= len < buffer.len() {
        buffer.take(len as int)
    } else {
        buffer
    }
}

/// What can happen to a ticket request.
#[derive(Debug, PartialEq, Eq)]
pub enum TicketEvent {
    /// The native layer announced that the session ticket with
    /// `ticket_handle` was confirmed or refused.
    SessionResponse { ticket_handle: u32, result: Result<(), i32> },
    /// The native layer announced a ticket for a web service.
    WebApiResponse(TicketForWebApiResponse),
    /// The timer of the request ran out.
    TimerFired,
    /// The confirmation can no longer arrive: its listener is gone.
    Abandoned,
    /// The driver has cancelled the ticket, or has tried to.
    CancelAttempted,
}

impl TicketEvent {
    /// What the event is to the guard of a request.
    pub open spec fn guard_event(self) -> GuardEvent<()> {
        match self {
            TicketEvent::SessionResponse { ticket_handle, result } => GuardEvent::Completion(
                Completion { key: ticket_handle as u64, result },
            ),
            TicketEvent::WebApiResponse(response) => GuardEvent::Completion(
                Completion { key: response.ticket_handle as u64, result: response.result },
            ),
            TicketEvent::TimerFired => GuardEvent::TimerFired,
            TicketEvent::Abandoned => GuardEvent::Abandoned,
            TicketEvent::CancelAttempted => GuardEvent::CancelAttempted,
        }
    }
}

/// What the driver of a ticket request has to do after an event.
#[derive(Clone, Copy, Debug, PartialEq, Eq, Structural)]
pub struct TicketAction {
    /// The request was resolved by this event: release its listener and wake
    /// the waiter.
    pub release_listener: bool,
    /// Stop the timer: the request was resolved by something else.
    pub stop_timer: bool,
    /// The handle of the ticket to cancel on the native side, before the
    /// waiter is woken.
    pub cancel_ticket: Option<u32>,
}

/// The mathematical state of a ticket request.
pub struct TicketRequestState {
    /// The request for the confirmation, under its deadline.
    pub guard: GuardState<()>,
    /// The native handle of the ticket.
    pub handle: u32,
    /// The bytes of the ticket, as far as they are known.
    pub data: Seq<u8>,
}

impl TicketRequestState {
    /// The state of a request for the ticket with `handle`, whose bytes are
    /// `data` so far.
    pub open spec fn started(handle: u32, data: Seq<u8>, timeout_seconds: Option<u32>) -> Self {
        TicketRequestState {
            guard: GuardState::guarding(RequestState::pending(handle as u64), timeout_seconds),
            handle,
            data,
        }
    }

    /// Whether `event` settles a request in this state.
    pub open spec fn resolves(self, event: TicketEvent) -> bool {
        self.guard.resolves(event.guard_event())
    }

    /// The state after `event`. The bytes of a ticket for a web service are
    /// taken from the announcement that confirms the ticket of this request,
    /// while it is pending; no other event touches the bytes.
    pub open spec fn step(self, event: TicketEvent) -> Self {
        TicketRequestState {
            guard: self.guard.step(event.guard_event()),
            handle: self.handle,
            data: match event {
                TicketEvent::WebApiResponse(response) => if self.resolves(event)
                    && response.result is Ok {
                    ticket_bytes(response.ticket@, response.ticket_len)
                } else {
                    self.data
                },
                _ => self.data,
            },
        }
    }

    /// What the driver is asked to do after `event`: what the guard asks
    /// for, with the handle of the ticket where the guard asks for the
    /// cancellation.
    pub open spec fn action(self, event: TicketEvent) -> TicketAction {
        let action = self.guard.action(event.guard_event());
        TicketAction {
            release_listener: action.release_listener,
            stop_timer: action.stop_timer,
            cancel_ticket: if action.cancel_operation {
                Some(self.handle)
            } else {
                None
            },
        }
    }

    /// The state after all of `events`, in order.
    pub open spec fn run(self, events: Seq<TicketEvent>) -> Self
        decreases events.len(),
    {
        if events.len() == 0 {
            self
        } else {
            self.run(events.drop_last()).step(events.last())
        }
    }

    /// How many of `events` asked for the cancellation of the ticket.
    pub open spec fn cancellations(self, events: Seq<TicketEvent>) -> nat
        decreases events.len(),
    {
        if events.len() == 0 {
            0
        } else {
            let last: nat = if self.run(events.drop_last()).action(events.last()).cancel_ticket
                is Some {
                1
            } else {
                0
            };
            self.cancellations(events.drop_last()) + last
        }
    }

    /// What the waiter is handed: nothing as long as the request is pending,
    /// as long as the cancellation of a refused ticket is awaited, or once
    /// the result was taken; else the confirmed ticket or the error.
    pub open spec fn outcome(self) -> Option<Result<TicketState, BridgeError>> {
        match self.guard.available() {
            None => None,
            Some(Ok(())) => Some(
                Ok(TicketState { data: self.data, handle: self.handle, cancelled: false }),
            ),
            Some(Err(error)) => Some(Err(error)),
        }
    }

    /// The state after the waiter took the outcome.
    pub open spec fn taken(self) -> Self {
        TicketRequestState {
            guard: self.guard.taken(),
            handle: self.handle,
            data: if self.guard.available() matches Some(Ok(_)) {
                Seq::empty()
            } else {
                self.data
            },
        }
    }
}

/// One request for an authentication ticket, under its deadline.
#[derive(Debug)]
pub struct TicketRequest {
    guard: DeadlineGuard<()>,
    handle: u32,
    data: Vec<u8>,
}

impl View for TicketRequest {
    type V = TicketRequestState;

    closed spec fn view(&self) -> TicketRequestState {
        TicketRequestState { guard: self.guard@, handle: self.handle, data: self.data@ }
    }
}

/// Starts to follow a request for a session ticket. The native call has
/// returned the handle `ticket_handle` and the bytes `ticket`; what is awaited
/// is the confirmation. The deadline is `timeout_seconds`, or ten seconds.
pub fn get_auth_session_ticket(
    ticket_handle: u32,
    ticket: Vec<u8>,
    timeout_seconds: Option<u32>,
) -> (request: TicketRequest)
    ensures
        request@ == TicketRequestState::started(ticket_handle, ticket@, timeout_seconds),
{
    let pending = PendingRequest::begin(Ok(ticket_handle as u64));
    TicketRequest {
        guard: DeadlineGuard::with_timeout(pending, timeout_seconds),
        handle: ticket_handle,
        data: ticket,
    }
}

/// Starts to follow a request for a ticket for a web service. The native
/// call has returned the handle `ticket_handle`; the bytes come with the
/// confirmation. The deadline is `timeout_seconds`, or ten seconds.
pub fn get_auth_ticket_for_web_api(ticket_handle: u32, timeout_seconds: Option<u32>) -> (request:
    TicketRequest)
    ensures
        request@ == TicketRequestState::started(ticket_handle, Seq::empty(), timeout_seconds),
{
    let pending = PendingRequest::begin(Ok(ticket_handle as u64));
    TicketRequest {
        guard: DeadlineGuard::with_timeout(pending, timeout_seconds),
        handle: ticket_handle,
        data: Vec::new(),
    }
}

impl TicketRequest {
    /// The native handle of the ticket.
    pub fn handle(&self) -> (handle: u32)
        ensures
            handle == self@.handle,
    {
        self.handle
    }

    /// The deadline, in seconds from the launch.
    pub fn timeout_seconds(&self) -> (seconds: u64)
        ensures
            seconds == self@.guard.timeout_seconds,
    {
        self.guard.timeout_seconds()
    }

    /// Whether the request is still pending.
    pub fn is_pending(&self) -> (pending: bool)
        ensures
            pending == !self@.guard.request.completed,
    {
        self.guard.timer_armed()
    }

    fn ticket_action(&self, action: GuardAction) -> (ticket_action: TicketAction)
        ensures
            ticket_action == (TicketAction {
                release_listener: action.release_listener,
                stop_timer: action.stop_timer,
                cancel_ticket: if action.cancel_operation {
                    Some(self@.handle)
                } else {
                    None
                },
            }),
    {
        TicketAction {
            release_listener: action.release_listener,
            stop_timer: action.stop_timer,
            cancel_ticket: if action.cancel_operation {
                Some(self.handle)
            } else {
                None
            },
        }
    }

    /// Takes in the announcement that the session ticket with `ticket_handle`
    /// was confirmed or refused. An announcement about another ticket changes
    /// nothing.
    pub fn on_session_response(&mut self, ticket_handle: u32, result: Result<(), i32>) -> (action:
        TicketAction)
        ensures
            final(self)@ == old(self)@.step(
                TicketEvent::SessionResponse { ticket_handle, result },
            ),
            action == old(self)@.action(TicketEvent::SessionResponse { ticket_handle, result }),
    {
        let action = self.guard.on_completion(Completion { key: ticket_handle as u64, result });
        self.ticket_action(action)
    }

    /// Takes in the announcement of a ticket for a web service. Where it
    /// confirms the ticket of this request, the bytes of the ticket are the
    /// first `ticket_len` bytes of the buffer that came with it.
    pub fn on_web_api_response(&mut self, response: TicketForWebApiResponse) -> (action:
        TicketAction)
        ensures
            final(self)@ == old(self)@.step(TicketEvent::WebApiResponse(response)),
            action == old(self)@.action(TicketEvent::WebApiResponse(response)),
    {
        let TicketForWebApiResponse { ticket_handle, result, ticket_len, ticket } = response;
        let confirmed = result.is_ok();
        let action = self.guard.on_completion(Completion { key: ticket_handle as u64, result });
        if action.release_listener && confirmed {
            let mut bytes = ticket;
            if ticket_len >= 0 {
                bytes.truncate(ticket_len as usize);
            }
            assert(bytes@ =~= ticket_bytes(response.ticket@, response.ticket_len));
            self.data = bytes;
        }
        assert(self@.data =~= old(self)@.step(TicketEvent::WebApiResponse(response)).data);
        self.ticket_action(action)
    }

    /// Takes in the expiry of the timer. A pending request ends with
    /// [`BridgeError::Timeout`], and its ticket is to be cancelled.
    pub fn on_timer(&mut self) -> (action: TicketAction)
        ensures
            final(self)@ == old(self)@.step(TicketEvent::TimerFired),
            action == old(self)@.action(TicketEvent::TimerFired),
    {
        let action = self.guard.on_timer();
        self.ticket_action(action)
    }

    /// Gives the request up: the confirmation can no longer arrive. A
    /// pending request ends with [`BridgeError::AlreadyDisposed`], and its
    /// ticket is to be cancelled.
    pub fn abandon(&mut self) -> (action: TicketAction)
        ensures
            final(self)@ == old(self)@.step(TicketEvent::Abandoned),
            action == old(self)@.action(TicketEvent::Abandoned),
    {
        let action = self.guard.abandon();
        self.ticket_action(action)
    }

    /// Takes in the report that the ticket was cancelled, or that the
    /// attempt failed: either way the error of the request can now be handed
    /// out.
    pub fn cancel_attempted(&mut self)
        ensures
            final(self)@ == old(self)@.step(TicketEvent::CancelAttempted),
    {
        self.guard.cancel_attempted();
    }

    /// Takes in any event.
    pub fn step(&mut self, event: TicketEvent) -> (action: TicketAction)
        ensures
            final(self)@ == old(self)@.step(event),
            action == old(self)@.action(event),
    {
        match event {
            TicketEvent::SessionResponse { ticket_handle, result } => self.on_session_response(
                ticket_handle,
                result,
            ),
            TicketEvent::WebApiResponse(response) => self.on_web_api_response(response),
            TicketEvent::TimerFired => self.on_timer(),
            TicketEvent::Abandoned => self.abandon(),
            TicketEvent::CancelAttempted => {
                self.cancel_attempted();
                TicketAction { release_listener: false, stop_timer: false, cancel_ticket: None }
            },
        }
    }

    /// Hands the outcome to the waiter: the ticket if it was confirmed, the
    /// error if the request ended otherwise. Gives `Some` once, after the
    /// request has ended and, for an error, after the cancellation of the
    /// ticket was attempted, and `None` before that and ever after.
    pub fn finish(&mut self) -> (outcome: Option<Result<Ticket, BridgeError>>)
        ensures
            final(self)@ == old(self)@.taken(),
            !old(self)@.guard.request.completed ==> outcome is None,
            match outcome {
                None => old(self)@.outcome() is None,
                Some(Ok(ticket)) => old(self)@.outcome() == Some(
                    Ok::<TicketState, BridgeError>(ticket@),
                ),
                Some(Err(error)) => old(self)@.outcome() == Some(
                    Err::<TicketState, BridgeError>(error),
                ),
            },
    {
        match self.guard.take() {
            None => None,
            Some(Ok(())) => {
                let mut data: Vec<u8> = Vec::new();
                core::mem::swap(&mut data, &mut self.data);
                assert(self@.data =~= old(self)@.taken().data);
                Some(Ok(Ticket::new(data, self.handle)))
            },
            Some(Err(error)) => Some(Err(error)),
        }
    }
}

/// Whether the attempt to cancel the ticket was reported at some place of
/// `events` before which the request had asked for the cancellation.
pub open spec fn cancel_reported(state: TicketRequestState, events: Seq<TicketEvent>) -> bool {
    exists|i: int|
        0 <= i < events.len() && #[trigger] events[i] is CancelAttempted && state.cancellations(
            events.take(i),
        ) == 1
}

/// A request that follows a ticket from its launch ends in one of two ways,
/// whatever happens to it and in whatever order. Either the waiter is handed
/// the ticket: then the ticket carries the handle of the request, is not
/// cancelled, and no cancellation was ever asked for. Or the waiter is handed
/// an error: then the cancellation of the ticket was asked for once, by the
/// step that stored the error, and its attempt was reported before the error
/// was handed out. As long as the request is pending, nothing is cancelled.
pub proof fn lemma_ticket_confirmed_or_cancelled(
    state: TicketRequestState,
    events: Seq<TicketEvent>,
)
    requires
        !state.guard.request.completed,
        state.guard.request.slot is None,
        !state.guard.awaiting_cancel,
    ensures
        state.run(events).handle == state.handle,
        state.run(events).guard.request.completed == (state.run(events).guard.request.slot
            is Some),
        state.run(events).guard.awaiting_cancel ==> state.run(events).guard.request.slot
            matches Some(Err(_)),
        !state.run(events).guard.request.completed ==> state.cancellations(events) == 0,
        match state.run(events).outcome() {
            None => true,
            Some(Ok(ticket)) => ticket.handle == state.handle && !ticket.cancelled
                && state.cancellations(events) == 0,
            Some(Err(_)) => state.cancellations(events) == 1 && cancel_reported(state, events),
        },
        state.run(events).guard.request.slot matches Some(Ok(_)) ==> state.cancellations(events)
            == 0,
        state.run(events).guard.request.slot matches Some(Err(_)) ==> state.cancellations(events)
            == 1,
    decreases events.len(),
{
    if events.len() > 0 {
        let before = events.drop_last();
        lemma_ticket_confirmed_or_cancelled(state, before);
        let end = state.run(events);
        if end.outcome() matches Some(Err(_)) {
            if events.last() is CancelAttempted {
                assert(events.take(events.len() - 1) == before);
                assert(events[events.len() - 1] is CancelAttempted);
            } else {
                assert(state.run(before).outcome() matches Some(Err(_)));
                let i = choose|i: int|
                    0 <= i < before.len() && #[trigger] before[i] is CancelAttempted
                        && state.cancellations(before.take(i)) == 1;
                assert(events.take(i) == before.take(i));
                assert(events[i] is CancelAttempted);
            }
        }
    }
}

} // verus!
