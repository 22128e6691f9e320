//! A request raced against a timer.
//!
//! The native layer has no timeouts: an operation whose completion never
//! arrives would keep its waiter forever. A [`DeadlineGuard`] puts a deadline
//! on a [`PendingRequest`]. Whichever of the two, the completion or the
//! timer, reaches the guard first decides the result; the other one finds the
//! guard settled and changes nothing.
//!
//! Whenever the result is an error, the guard asks for the operation's
//! cancellation routine in the same step that stores the error, so that no
//! failed operation stays alive on the native side. The error itself is
//! withheld from the waiter until the driver reports that the cancellation
//! was attempted, whether it succeeded or not.
//!
//! Each step takes the guard by exclusive reference: the test whether the
//! guard is still pending and the write that settles it are one step, which
//! no other step can come between.

use vstd::prelude::*;
use crate::error::{BridgeError, Condition, error_of, translate_condition};
use crate::request::{Completion, Delivery, PendingRequest, RequestState, outcome_of};

verus! {

/// The number of seconds that a request may take where the caller names none.
pub const DEFAULT_TIMEOUT_SECONDS: u32 = 10;

/// The deadline for a request, in seconds: the caller's, or the default.
pub open spec fn effective_timeout_spec(timeout_seconds: Option<u32>) -> u64 {
    match timeout_seconds {
        Some(seconds) => seconds as u64,
        None => DEFAULT_TIMEOUT_SECONDS as u64,
    }
}

/// The deadline for a request, in seconds: the caller's, or the default.
pub fn effective_timeout(timeout_seconds: Option<u32>) -> (seconds: u64)
    ensures
        seconds == effective_timeout_spec(timeout_seconds),
{
    match timeout_seconds {
        Some(seconds) => seconds as u64,
        None => DEFAULT_TIMEOUT_SECONDS as u64,
    }
}

/// What can happen to a guarded request.
#[derive(Debug, PartialEq, Eq)]
pub enum GuardEvent<T> {
    /// The native layer announced a completion on the shared channel.
    Completion(Completion<T>),
    /// The timer of the guard ran out.
    TimerFired,
    /// The owner gave the request up.
    Abandoned,
    /// The driver has run the cancellation routine that the guard asked for.
    CancelAttempted,
}

/// What the driver of a guard has to do after an event. All three are
/// `false` where the event changed nothing.
#[derive(Clone, Copy, Debug, PartialEq, Eq, Structural)]
pub struct GuardAction {
    /// The request was resolved by this event: release its listener and wake
    /// the waiter.
    pub release_listener: bool,
    /// Stop the timer: the request was resolved by something else.
    pub stop_timer: bool,
    /// Run the cancellation routine of the operation and report the attempt,
    /// before the waiter is woken.
    pub cancel_operation: bool,
}

impl GuardAction {
    /// The action that asks for nothing.
    pub open spec fn nothing() -> GuardAction {
        GuardAction { release_listener: false, stop_timer: false, cancel_operation: false }
    }
}

/// The mathematical state of a guard.
pub struct GuardState<T> {
    /// The guarded request.
    pub request: RequestState<T>,
    /// The deadline, in seconds from the launch.
    pub timeout_seconds: u64,
    /// Whether a cancellation was asked for and its attempt has not been
    /// reported yet.
    pub awaiting_cancel: bool,
}

impl<T> GuardState<T> {
    /// The state of a guard that was just put on `request`.
    pub open spec fn guarding(request: RequestState<T>, timeout_seconds: Option<u32>) -> Self {
        GuardState {
            request,
            timeout_seconds: effective_timeout_spec(timeout_seconds),
            awaiting_cancel: false,
        }
    }

    /// Whether the timer is running: as long as the request is pending.
    pub open spec fn timer_armed(self) -> bool {
        !self.request.completed
    }

    /// The result that `event` stores where it settles the guard: that of a
    /// completion, a timeout for the timer, and for a request that was given
    /// up the error that says so. The report of a cancellation stores none.
    pub open spec fn verdict(event: GuardEvent<T>) -> Option<Result<T, BridgeError>> {
        match event {
            GuardEvent::Completion(completion) => Some(outcome_of(completion.result)),
            GuardEvent::TimerFired => Some(Err(error_of(Condition::DeadlinePassed))),
            GuardEvent::Abandoned => Some(Err(error_of(Condition::Disposed))),
            GuardEvent::CancelAttempted => None,
        }
    }

    /// Whether `event` settles a guard in this state: the guard is pending,
    /// and the event is the timer, the owner, or a completion with the key of
    /// the request.
    pub open spec fn resolves(self, event: GuardEvent<T>) -> bool {
        &&& !self.request.completed
        &&& !(event is CancelAttempted)
        &&& event matches GuardEvent::Completion(completion) ==> completion.key
            == self.request.key
    }

    /// The state after `event`. An event that settles the guard stores its
    /// verdict, and where that is an error the guard waits for the
    /// cancellation to be attempted. The report of the attempt ends that
    /// wait. Every other event leaves the guard as it is.
    pub open spec fn step(self, event: GuardEvent<T>) -> Self {
        if event is CancelAttempted {
            GuardState { awaiting_cancel: false, ..self }
        } else if self.resolves(event) {
            GuardState {
                request: self.request.resolve(Self::verdict(event)->0),
                timeout_seconds: self.timeout_seconds,
                awaiting_cancel: Self::verdict(event)->0 is Err,
            }
        } else {
            self
        }
    }

    /// What the driver is asked to do after `event`. An event that settles
    /// the guard releases the listener; the timer is stopped unless it is the
    /// timer that fired; the operation is cancelled exactly when the stored
    /// result is an error.
    pub open spec fn action(self, event: GuardEvent<T>) -> GuardAction {
        if self.resolves(event) {
            GuardAction {
                release_listener: true,
                stop_timer: !(event is TimerFired),
                cancel_operation: Self::verdict(event)->0 is Err,
            }
        } else {
            GuardAction::nothing()
        }
    }

    /// What the waiter can be handed: nothing as long as a cancellation is
    /// awaited, else what the slot of the request holds.
    pub open spec fn available(self) -> Option<Result<T, BridgeError>> {
        if self.awaiting_cancel {
            None
        } else {
            self.request.slot
        }
    }

    /// The state after the waiter was handed what was available.
    pub open spec fn taken(self) -> Self {
        if self.awaiting_cancel {
            self
        } else {
            GuardState { request: self.request.taken(), ..self }
        }
    }

    /// The state after all of `events`, in order.
    pub open spec fn run(self, events: Seq<GuardEvent<T>>) -> Self
        decreases events.len(),
    {
        if events.len() == 0 {
            self
        } else {
            self.run(events.drop_last()).step(events.last())
        }
    }

    /// The action that the event at `index` of `events` brought about.
    pub open spec fn action_at(self, events: Seq<GuardEvent<T>>, index: int) -> GuardAction
        recommends
            0 <= index < events.len(),
    {
        self.run(events.take(index)).action(events[index])
    }

    /// How many of `events` settled the guard.
    pub open spec fn resolutions(self, events: Seq<GuardEvent<T>>) -> nat
        decreases events.len(),
    {
        if events.len() == 0 {
            0
        } else {
            let last: nat = if self.run(events.drop_last()).action(events.last()).release_listener {
                1
            } else {
                0
            };
            self.resolutions(events.drop_last()) + last
        }
    }

    /// How many of `events` asked for the cancellation routine.
    pub open spec fn cancellations(self, events: Seq<GuardEvent<T>>) -> nat
        decreases events.len(),
    {
        if events.len() == 0 {
            0
        } else {
            let last: nat = if self.run(events.drop_last()).action(events.last()).cancel_operation {
                1
            } else {
                0
            };
            self.cancellations(events.drop_last()) + last
        }
    }
}

/// A request with a deadline.
#[derive(Debug)]
pub struct DeadlineGuard<T> {
    request: PendingRequest<T>,
    timeout_seconds: u64,
    awaiting_cancel: bool,
}

impl<T> View for DeadlineGuard<T> {
    type V = GuardState<T>;

    closed spec fn view(&self) -> GuardState<T> {
        GuardState {
            request: self.request@,
            timeout_seconds: self.timeout_seconds,
            awaiting_cancel: self.awaiting_cancel,
        }
    }
}

impl<T> DeadlineGuard<T> {
    /// Puts a deadline on `request`: the caller's number of seconds, or the
    /// default. The request itself is taken over as it is.
    pub fn with_timeout(request: PendingRequest<T>, timeout_seconds: Option<u32>) -> (guard: Self)
        ensures
            guard@ == GuardState::guarding(request@, timeout_seconds),
    {
        DeadlineGuard {
            request,
            timeout_seconds: effective_timeout(timeout_seconds),
            awaiting_cancel: false,
        }
    }

    /// The deadline, in seconds from the launch.
    pub fn timeout_seconds(&self) -> (seconds: u64)
        ensures
            seconds == self@.timeout_seconds,
    {
        self.timeout_seconds
    }

    /// Whether the timer has to run: as long as the request is pending.
    pub fn timer_armed(&self) -> (armed: bool)
        ensures
            armed == self@.timer_armed(),
    {
        !self.request.is_completed()
    }

    /// Whether a cancellation was asked for and its attempt has not been
    /// reported yet.
    pub fn is_awaiting_cancel(&self) -> (awaiting: bool)
        ensures
            awaiting == self@.awaiting_cancel,
    {
        self.awaiting_cancel
    }

    /// Takes in a completion that the native layer announced. The first one
    /// that carries the key of the request settles the guard with its result,
    /// unless the timer or the owner came first.
    pub fn on_completion(&mut self, event: Completion<T>) -> (action: GuardAction)
        ensures
            final(self)@ == old(self)@.step(GuardEvent::Completion(event)),
            action == old(self)@.action(GuardEvent::Completion(event)),
    {
        let failed = event.result.is_err();
        match self.request.on_completion(event) {
            Delivery::Resolved => {
                self.awaiting_cancel = failed;
                GuardAction { release_listener: true, stop_timer: true, cancel_operation: failed }
            },
            _ => GuardAction {
                release_listener: false,
                stop_timer: false,
                cancel_operation: false,
            },
        }
    }

    /// Takes in the expiry of the timer. A pending request is resolved with
    /// [`BridgeError::Timeout`] and its operation is to be cancelled; a
    /// settled guard stays as it is and asks for nothing.
    pub fn on_timer(&mut self) -> (action: GuardAction)
        ensures
            final(self)@ == old(self)@.step(GuardEvent::TimerFired),
            action == old(self)@.action(GuardEvent::TimerFired),
    {
        let resolved = self.request.fail(translate_condition(Condition::DeadlinePassed));
        if resolved {
            self.awaiting_cancel = true;
        }
        GuardAction { release_listener: resolved, stop_timer: false, cancel_operation: resolved }
    }

    /// Gives the request up on behalf of its owner. A pending request is
    /// resolved with [`BridgeError::AlreadyDisposed`] and its operation is to
    /// be cancelled; a settled guard stays as it is and asks for nothing.
    pub fn abandon(&mut self) -> (action: GuardAction)
        ensures
            final(self)@ == old(self)@.step(GuardEvent::Abandoned),
            action == old(self)@.action(GuardEvent::Abandoned),
    {
        let resolved = self.request.fail(translate_condition(Condition::Disposed));
        if resolved {
            self.awaiting_cancel = true;
        }
        GuardAction { release_listener: resolved, stop_timer: resolved, cancel_operation: resolved }
    }

    /// Takes in the report that the cancellation routine has run. Whether it
    /// succeeded is of no account: the stored error stays what it is and can
    /// now be handed out.
    pub fn cancel_attempted(&mut self)
        ensures
            final(self)@ == old(self)@.step(GuardEvent::CancelAttempted),
    {
        self.awaiting_cancel = false;
    }

    /// Takes in any event.
    pub fn step(&mut self, event: GuardEvent<T>) -> (action: GuardAction)
        ensures
            final(self)@ == old(self)@.step(event),
            action == old(self)@.action(event),
    {
        match event {
            GuardEvent::Completion(completion) => self.on_completion(completion),
            GuardEvent::TimerFired => self.on_timer(),
            GuardEvent::Abandoned => self.abandon(),
            GuardEvent::CancelAttempted => {
                self.cancel_attempted();
                GuardAction { release_listener: false, stop_timer: false, cancel_operation: false }
            },
        }
    }

    /// Hands the result to the waiter. Gives `Some` once, after the guard
    /// was settled and, for an error, after the cancellation was attempted,
    /// and `None` before that and ever after.
    pub fn take(&mut self) -> (result: Option<Result<T, BridgeError>>)
        ensures
            result == old(self)@.available(),
            !old(self)@.request.completed ==> result is None,
            final(self)@ == old(self)@.taken(),
    {
        if self.awaiting_cancel {
            None
        } else {
            self.request.take()
        }
    }
}

/// Whether every one of `events` is a completion of some other operation
/// than the one with `key`.
pub open spec fn all_unrelated<T>(events: Seq<GuardEvent<T>>, key: u64) -> bool {
    forall|i: int|
        0 <= i < events.len() ==> (#[trigger] events[i] matches GuardEvent::Completion(completion)
            && completion.key != key)
}

/// Running one sequence of events after another is running the two joined.
pub proof fn lemma_run_joined<T>(
    state: GuardState<T>,
    first: Seq<GuardEvent<T>>,
    second: Seq<GuardEvent<T>>,
)
    ensures
        state.run(first + second) == state.run(first).run(second),
        state.resolutions(first + second) == state.resolutions(first) + state.run(
            first,
        ).resolutions(second),
        state.cancellations(first + second) == state.cancellations(first) + state.run(
            first,
        ).cancellations(second),
    decreases second.len(),
{
    if second.len() == 0 {
        assert(first + second == first);
    } else {
        assert((first + second).drop_last() == first + second.drop_last());
        lemma_run_joined(state, first, second.drop_last());
    }
}

/// Completions of other operations leave a guard as it is and ask for
/// nothing.
pub proof fn lemma_unrelated_completions_leave_guard<T>(
    state: GuardState<T>,
    events: Seq<GuardEvent<T>>,
)
    requires
        all_unrelated(events, state.request.key),
    ensures
        state.run(events) == state,
        state.resolutions(events) == 0,
        state.cancellations(events) == 0,
    decreases events.len(),
{
    if events.len() > 0 {
        let before = events.drop_last();
        assert forall|i: int| 0 <= i < before.len() implies (#[trigger] before[i] matches GuardEvent::Completion(
            completion,
        ) && completion.key != state.request.key) by {
            assert(before[i] == events[i]);
        }
        lemma_unrelated_completions_leave_guard(state, before);
        assert(events[events.len() - 1] is Completion);
    }
}

/// A settled guard keeps its result under every sequence of events, and none
/// of them asks for anything: no listener is released a second time, and
/// nothing is cancelled.
pub proof fn lemma_settled_guard_is_silent<T>(state: GuardState<T>, events: Seq<GuardEvent<T>>)
    requires
        state.request.completed,
    ensures
        state.run(events).request == state.request,
        state.run(events).timeout_seconds == state.timeout_seconds,
        state.resolutions(events) == 0,
        state.cancellations(events) == 0,
        forall|i: int|
            0 <= i < events.len() ==> #[trigger] state.action_at(events, i)
                == GuardAction::nothing(),
    decreases events.len(),
{
    if events.len() > 0 {
        lemma_settled_guard_is_silent(state, events.drop_last());
        assert forall|i: int| 0 <= i < events.len() implies #[trigger] state.action_at(events, i)
            == GuardAction::nothing() by {
            lemma_settled_guard_is_silent(state, events.take(i));
        }
    }
}

/// Where no completion with the key of the request arrives before the timer
/// runs out, the guard is settled with [`BridgeError::Timeout`], and the step
/// that stores this error is the one that asks for the cancellation routine.
/// The waiter is handed nothing until the attempt is reported, and the
/// timeout after that.
pub proof fn lemma_timeout_without_completion<T>(
    state: GuardState<T>,
    before: Seq<GuardEvent<T>>,
)
    requires
        !state.request.completed,
        all_unrelated(before, state.request.key),
    ensures
        ({
            let events = before.push(GuardEvent::TimerFired);
            &&& state.run(events).request == (RequestState::<T> {
                key: state.request.key,
                completed: true,
                slot: Some(Err(BridgeError::Timeout)),
            })
            &&& state.action_at(events, before.len() as int) == (GuardAction {
                release_listener: true,
                stop_timer: false,
                cancel_operation: true,
            })
            &&& state.resolutions(events) == 1
            &&& state.cancellations(events) == 1
            &&& state.run(events).available() is None
            &&& state.run(events.push(GuardEvent::CancelAttempted)).available() == Some(
                Err::<T, BridgeError>(BridgeError::Timeout),
            )
        }),
{
    let events = before.push(GuardEvent::TimerFired);
    lemma_unrelated_completions_leave_guard(state, before);
    assert(events.drop_last() == before);
    assert(events.take(before.len() as int) == before);
    assert(events.push(GuardEvent::CancelAttempted).drop_last() == events);
}

/// A guard that waits for no cancellation does not come to wait for one
/// without asking for one.
pub proof fn lemma_no_wait_without_cancellation<T>(
    state: GuardState<T>,
    events: Seq<GuardEvent<T>>,
)
    requires
        !state.awaiting_cancel,
        state.cancellations(events) == 0,
    ensures
        !state.run(events).awaiting_cancel,
    decreases events.len(),
{
    if events.len() > 0 {
        lemma_no_wait_without_cancellation(state, events.drop_last());
    }
}

/// Where the completion of the request arrives before the timer runs out,
/// the guard is settled with the result of that completion, whatever comes
/// after it. No later event, the timer included, asks for anything; the
/// cancellation routine is asked for once if the result is a failure, and
/// never if it is a success, and a success can be handed out at once.
pub proof fn lemma_result_before_deadline<T>(
    state: GuardState<T>,
    before: Seq<GuardEvent<T>>,
    completion: Completion<T>,
    after: Seq<GuardEvent<T>>,
)
    requires
        !state.request.completed,
        all_unrelated(before, state.request.key),
        completion.key == state.request.key,
    ensures
        ({
            let arrived = before.push(GuardEvent::Completion(completion));
            let events = arrived + after;
            &&& state.run(events).request == (RequestState {
                key: state.request.key,
                completed: true,
                slot: Some(outcome_of(completion.result)),
            })
            &&& state.action_at(events, before.len() as int) == (GuardAction {
                release_listener: true,
                stop_timer: true,
                cancel_operation: completion.result is Err,
            })
            &&& forall|i: int|
                arrived.len() <= i < events.len() ==> #[trigger] state.action_at(events, i)
                    == GuardAction::nothing()
            &&& state.resolutions(events) == 1
            &&& state.cancellations(events) == (if completion.result is Err {
                1nat
            } else {
                0nat
            })
            &&& completion.result is Ok ==> state.run(events).available() == Some(
                outcome_of(completion.result),
            )
        }),
{
    let arrived = before.push(GuardEvent::Completion(completion));
    let events = arrived + after;
    lemma_unrelated_completions_leave_guard(state, before);
    assert(arrived.drop_last() == before);
    let settled = state.run(arrived);
    lemma_run_joined(state, arrived, after);
    lemma_settled_guard_is_silent(settled, after);
    assert(events.take(before.len() as int) == before);
    assert forall|i: int| arrived.len() <= i < events.len() implies #[trigger] state.action_at(
        events,
        i,
    ) == GuardAction::nothing() by {
        let done = after.take(i - arrived.len());
        assert(events.take(i) == arrived + done);
        lemma_run_joined(state, arrived, done);
        lemma_settled_guard_is_silent(settled, done);
        assert(events[i] == after[i - arrived.len()]);
    }
    if completion.result is Ok {
        lemma_no_wait_without_cancellation(settled, after);
    }
}

/// Under every sequence of events a guard is settled at most once, asks for
/// the cancellation routine at most once, and only in the step that settles
/// it: a waiter never gets a result and a timeout both.
pub proof fn lemma_settled_at_most_once<T>(state: GuardState<T>, events: Seq<GuardEvent<T>>)
    ensures
        state.resolutions(events) <= 1,
        state.cancellations(events) <= state.resolutions(events),
        state.resolutions(events) == 1 ==> state.run(events).request.completed,
        state.request.completed ==> state.resolutions(events) == 0,
        state.run(events).timeout_seconds == state.timeout_seconds,
        state.run(events).request.key == state.request.key,
    decreases events.len(),
{
    if events.len() > 0 {
        lemma_settled_at_most_once(state, events.drop_last());
        if state.request.completed {
            lemma_settled_guard_is_silent(state, events);
        }
    }
}

/// No request outlives its deadline: once the timer has run out, the guard
/// is settled, whatever else happened before or happens after.
pub proof fn lemma_deadline_always_settles<T>(
    state: GuardState<T>,
    before: Seq<GuardEvent<T>>,
    after: Seq<GuardEvent<T>>,
)
    ensures
        state.run(before.push(GuardEvent::TimerFired) + after).request.completed,
{
    let fired = before.push(GuardEvent::TimerFired);
    assert(fired.drop_last() == before);
    let settled = state.run(fired);
    lemma_run_joined(state, fired, after);
    lemma_settled_guard_is_silent(settled, after);
}

/// Whether the attempt of a cancellation was reported at some place of
/// `events` before which the guard had asked for the cancellation.
pub open spec fn attempt_reported<T>(state: GuardState<T>, events: Seq<GuardEvent<T>>) -> bool {
    exists|i: int|
        0 <= i < events.len() && #[trigger] events[i] is CancelAttempted && state.cancellations(
            events.take(i),
        ) == 1
}

/// A guard that starts pending asks for the cancellation routine exactly
/// when it is settled with an error, and then in the step that stores the
/// error: never for a result, never while it is pending, and never twice.
/// And the error reaches the waiter only after the attempt of that
/// cancellation was reported.
pub proof fn lemma_cancelled_exactly_on_error<T>(state: GuardState<T>, events: Seq<GuardEvent<T>>)
    requires
        !state.request.completed,
        state.request.slot is None,
        !state.awaiting_cancel,
    ensures
        state.run(events).request.completed == (state.run(events).request.slot is Some),
        match state.run(events).request.slot {
            None => state.resolutions(events) == 0 && state.cancellations(events) == 0,
            Some(Ok(_)) => state.resolutions(events) == 1 && state.cancellations(events) == 0,
            Some(Err(_)) => state.resolutions(events) == 1 && state.cancellations(events) == 1,
        },
        state.run(events).available() matches Some(Ok(_)) ==> state.cancellations(events) == 0,
        state.run(events).available() matches Some(Err(_)) ==> attempt_reported(state, events),
        state.run(events).awaiting_cancel ==> state.run(events).request.slot matches Some(Err(_)),
    decreases events.len(),
{
    if events.len() > 0 {
        let before = events.drop_last();
        lemma_cancelled_exactly_on_error(state, before);
        let end = state.run(events);
        if end.available() matches Some(Err(_)) {
            if events.last() is CancelAttempted {
                assert(events.take(events.len() - 1) == before);
                assert(events[events.len() - 1] is CancelAttempted);
            } else {
                assert(state.run(before).available() matches Some(Err(_)));
                let i = choose|i: int|
                    0 <= i < before.len() && #[trigger] before[i] is CancelAttempted
                        && state.cancellations(before.take(i)) == 1;
                assert(events.take(i) == before.take(i));
                assert(events[i] is CancelAttempted);
            }
        }
    }
}

} // verus!
