//! Correlation of one native one-shot operation with one result.
//!
//! A native operation is launched with a call that returns a correlation key.
//! Its completion is announced later, once, on a channel that every operation
//! of the same category shares, so each announcement has to be compared with
//! the key of the request that waits. A [`PendingRequest`] keeps the key and a
//! result slot that is written at most once: whoever writes first wins, and
//! every later writer is dropped.

use vstd::prelude::*;
use crate::error::{BridgeError, Condition, error_of, translate_condition, translate_spec};

verus! {

/// A completion as the native layer announces it: the key of the operation
/// that ended, and its payload or its failure code.
#[derive(Debug, PartialEq, Eq)]
pub struct Completion<T> {
    pub key: u64,
    pub result: Result<T, i32>,
}

/// What an announced completion meant to one request.
#[derive(Clone, Copy, Debug, PartialEq, Eq, Structural)]
pub enum Delivery {
    /// The completion belongs to this request and filled its slot. The
    /// listener of the request is to be released and its waiter woken.
    Resolved,
    /// The completion carries another key: it belongs to some other operation
    /// on the same channel. Nothing changed, and nothing is reported to the
    /// waiter.
    Mismatch,
    /// The completion carries this request's key, but the request had been
    /// resolved before. The completion was discarded.
    Late,
}

/// The mathematical state of a request.
pub struct RequestState<T> {
    /// The correlation key that the launch returned.
    pub key: u64,
    /// Whether the request has been resolved.
    pub completed: bool,
    /// The result, from the moment the request is resolved until the waiter
    /// takes it.
    pub slot: Option<Result<T, BridgeError>>,
}

/// The result that a request stores for a native result: the payload as it
/// is, a failure code translated.
pub open spec fn outcome_of<T>(result: Result<T, i32>) -> Result<T, BridgeError> {
    match result {
        Ok(value) => Ok(value),
        Err(code) => Err(translate_spec(code)),
    }
}

impl<T> RequestState<T> {
    /// A slot is only ever filled by the step that resolves the request.
    pub open spec fn wf(self) -> bool {
        self.slot is Some ==> self.completed
    }

    /// The state of a request whose operation was launched with `key`.
    pub open spec fn pending(key: u64) -> Self {
        RequestState { key, completed: false, slot: None }
    }

    /// The state of a request whose launch failed with `code`: resolved from
    /// the start, with no operation in flight.
    pub open spec fn launch_failed(code: i32) -> Self {
        RequestState { key: 0, completed: true, slot: Some(Err(error_of(Condition::Launch(code)))) }
    }

    /// Whether a listener is registered for the request: from the launch
    /// until the request is resolved.
    pub open spec fn listening(self) -> bool {
        !self.completed
    }

    /// What `event` means to a request in this state.
    pub open spec fn delivery(self, event: Completion<T>) -> Delivery {
        if event.key != self.key {
            Delivery::Mismatch
        } else if self.completed {
            Delivery::Late
        } else {
            Delivery::Resolved
        }
    }

    /// The state resolved with `outcome`, if it was not resolved before.
    pub open spec fn resolve(self, outcome: Result<T, BridgeError>) -> Self {
        if self.completed {
            self
        } else {
            RequestState { key: self.key, completed: true, slot: Some(outcome) }
        }
    }

    /// The state after `event` was announced.
    pub open spec fn on_completion(self, event: Completion<T>) -> Self {
        if event.key == self.key {
            self.resolve(outcome_of(event.result))
        } else {
            self
        }
    }

    /// The state after the waiter took what the slot held.
    pub open spec fn taken(self) -> Self {
        RequestState { key: self.key, completed: self.completed, slot: None }
    }

    /// The state after all of `events` were announced, in order.
    pub open spec fn run(self, events: Seq<Completion<T>>) -> Self
        decreases events.len(),
    {
        if events.len() == 0 {
            self
        } else {
            self.run(events.drop_last()).on_completion(events.last())
        }
    }

    /// How many of `events`, announced in order, resolved the request.
    pub open spec fn resolutions(self, events: Seq<Completion<T>>) -> nat
        decreases events.len(),
    {
        if events.len() == 0 {
            0
        } else {
            let before = self.run(events.drop_last());
            let last: nat = if before.delivery(events.last()) == Delivery::Resolved {
                1
            } else {
                0
            };
            self.resolutions(events.drop_last()) + last
        }
    }
}

/// One native operation in flight, or its result.
#[derive(Debug)]
pub struct PendingRequest<T> {
    key: u64,
    completed: bool,
    slot: Option<Result<T, BridgeError>>,
}

impl<T> View for PendingRequest<T> {
    type V = RequestState<T>;

    closed spec fn view(&self) -> RequestState<T> {
        RequestState { key: self.key, completed: self.completed, slot: self.slot }
    }
}

impl<T> PendingRequest<T> {
    #[verifier::type_invariant]
    spec fn inv(self) -> bool {
        self.slot is Some ==> self.completed
    }

    /// Starts to track an operation from what its launch returned. A launch
    /// that returned a key leaves the request pending under that key, with a
    /// listener to register. A launch that failed gives a request that is
    /// resolved with [`BridgeError::LaunchFailure`] and asks for no listener.
    pub fn begin(launched: Result<u64, i32>) -> (request: Self)
        ensures
            request@ == (match launched {
                Ok(key) => RequestState::<T>::pending(key),
                Err(code) => RequestState::<T>::launch_failed(code),
            }),
            request@.wf(),
    {
        match launched {
            Ok(key) => PendingRequest { key, completed: false, slot: None },
            Err(code) => PendingRequest {
                key: 0,
                completed: true,
                slot: Some(Err(translate_condition(Condition::Launch(code)))),
            },
        }
    }

    /// The correlation key of the operation.
    pub fn key(&self) -> (key: u64)
        ensures
            key == self@.key,
            self@.wf(),
    {
        proof {
            use_type_invariant(self);
        }
        self.key
    }

    /// Whether the request has been resolved.
    pub fn is_completed(&self) -> (completed: bool)
        ensures
            completed == self@.completed,
            self@.wf(),
    {
        proof {
            use_type_invariant(self);
        }
        self.completed
    }

    /// Whether the request still needs its listener.
    pub fn is_listening(&self) -> (listening: bool)
        ensures
            listening == self@.listening(),
            self@.wf(),
    {
        proof {
            use_type_invariant(self);
        }
        !self.completed
    }

    /// Takes in a completion that the native layer announced on the shared
    /// channel. A completion with the key of this request resolves it, if it
    /// is still pending, with the payload or the translated failure. Any
    /// other completion, and any completion after the first that matched,
    /// leaves the request as it was.
    pub fn on_completion(&mut self, event: Completion<T>) -> (delivery: Delivery)
        ensures
            final(self)@ == old(self)@.on_completion(event),
            delivery == old(self)@.delivery(event),
            final(self)@.wf(),
    {
        proof {
            use_type_invariant(&*self);
        }
        if event.key != self.key {
            return Delivery::Mismatch;
        }
        if self.completed {
            return Delivery::Late;
        }
        let outcome = match event.result {
            Ok(value) => Ok(value),
            Err(code) => Err(translate_condition(Condition::Completion(code))),
        };
        self.completed = true;
        self.slot = Some(outcome);
        Delivery::Resolved
    }

    /// Resolves the request with `error` unless it is resolved already.
    /// Returns whether this call resolved it.
    pub fn fail(&mut self, error: BridgeError) -> (resolved: bool)
        ensures
            final(self)@ == old(self)@.resolve(Err(error)),
            resolved == !old(self)@.completed,
            final(self)@.wf(),
    {
        proof {
            use_type_invariant(&*self);
        }
        if self.completed {
            return false;
        }
        self.completed = true;
        self.slot = Some(Err(error));
        true
    }

    /// Hands the result to the waiter. Gives `Some` once, after the request
    /// was resolved, and `None` before that and ever after.
    pub fn take(&mut self) -> (result: Option<Result<T, BridgeError>>)
        ensures
            result == old(self)@.slot,
            !old(self)@.completed ==> result is None,
            final(self)@ == old(self)@.taken(),
            final(self)@.wf(),
    {
        proof {
            use_type_invariant(&*self);
        }
        let mut result: Option<Result<T, BridgeError>> = None;
        core::mem::swap(&mut self.slot, &mut result);
        result
    }
}

/// Completions of other operations leave a request as it is, however many
/// of them are announced.
pub proof fn lemma_unrelated_completions_ignored<T>(
    state: RequestState<T>,
    events: Seq<Completion<T>>,
)
    requires
        forall|i: int| 0 <= i < events.len() ==> events[i].key != state.key,
    ensures
        state.run(events) == state,
        state.resolutions(events) == 0,
    decreases events.len(),
{
    if events.len() > 0 {
        lemma_unrelated_completions_ignored(state, events.drop_last());
    }
}

/// A request that is resolved stays as it is under every sequence of
/// completions, and none of them resolves it again.
pub proof fn lemma_completed_is_final<T>(state: RequestState<T>, events: Seq<Completion<T>>)
    requires
        state.completed,
    ensures
        state.run(events) == state,
        state.resolutions(events) == 0,
    decreases events.len(),
{
    if events.len() > 0 {
        lemma_completed_is_final(state, events.drop_last());
    }
}

/// Whatever completions are announced for other operations, before, between
/// and after those of the tracked one, a pending request is resolved exactly
/// once: by the first completion that carries its key, and with the result
/// of that completion.
pub proof fn lemma_resolved_once_by_first_match<T>(
    key: u64,
    events: Seq<Completion<T>>,
    first: int,
)
    requires
        0 <= first < events.len(),
        events[first].key == key,
        forall|i: int| 0 <= i < first ==> events[i].key != key,
    ensures
        RequestState::<T>::pending(key).run(events) == (RequestState {
            key,
            completed: true,
            slot: Some(outcome_of(events[first].result)),
        }),
        RequestState::<T>::pending(key).resolutions(events) == 1,
    decreases events.len(),
{
    let start = RequestState::<T>::pending(key);
    let before = events.drop_last();
    if first == events.len() - 1 {
        lemma_unrelated_completions_ignored(start, before);
    } else {
        lemma_resolved_once_by_first_match(key, before, first);
    }
}

/// No sequence of completions resolves a request more than once, and one
/// that holds no completion with the request's key does not resolve it.
pub proof fn lemma_at_most_one_resolution<T>(state: RequestState<T>, events: Seq<Completion<T>>)
    ensures
        state.resolutions(events) <= 1,
        state.resolutions(events) == 1 ==> !state.completed && state.run(events).completed
            && exists|i: int| 0 <= i < events.len() && events[i].key == state.key,
        state.run(events).key == state.key,
        state.completed ==> state.run(events) == state,
    decreases events.len(),
{
    if events.len() > 0 {
        let before = events.drop_last();
        lemma_at_most_one_resolution(state, before);
        if state.run(before).delivery(events.last()) == Delivery::Resolved {
            assert(events[events.len() - 1].key == state.key);
            if state.resolutions(before) == 1 {
                assert(state.run(before).completed);
            }
        } else if state.resolutions(before) == 1 {
            let i = choose|i: int| 0 <= i < before.len() && before[i].key == state.key;
            assert(events[i].key == state.key);
        }
    }
}

/// A result is handed to the waiter once: after it was taken, the slot stays
/// empty whatever is announced.
pub proof fn lemma_result_handed_out_once<T>(state: RequestState<T>, events: Seq<Completion<T>>)
    requires
        state.completed,
    ensures
        state.taken().run(events).slot is None,
        state.taken().run(events).completed,
{
    lemma_completed_is_final(state.taken(), events);
}

/// The completions among `events` that carry `key`, in their order.
pub open spec fn completions_of<T>(events: Seq<Completion<T>>, key: u64) -> Seq<Completion<T>>
    decreases events.len(),
{
    if events.len() == 0 {
        events
    } else if events.last().key == key {
        completions_of(events.drop_last(), key).push(events.last())
    } else {
        completions_of(events.drop_last(), key)
    }
}

/// A request sees nothing of the completions of other operations on the
/// channel: it ends as if only the completions with its own key had been
/// announced.
pub proof fn lemma_other_completions_unseen<T>(state: RequestState<T>, events: Seq<Completion<T>>)
    ensures
        state.run(events) == state.run(completions_of(events, state.key)),
        state.resolutions(events) == state.resolutions(completions_of(events, state.key)),
    decreases events.len(),
{
    if events.len() > 0 {
        lemma_other_completions_unseen(state, events.drop_last());
        lemma_at_most_one_resolution(state, events.drop_last());
        if events.last().key == state.key {
            let own = completions_of(events, state.key);
            assert(own.drop_last() == completions_of(events.drop_last(), state.key));
            assert(own.last() == events.last());
        }
    }
}

/// Well-formedness is kept by every step of a request.
pub proof fn lemma_steps_keep_wf<T>(
    state: RequestState<T>,
    event: Completion<T>,
    outcome: Result<T, BridgeError>,
)
    requires
        state.wf(),
    ensures
        state.on_completion(event).wf(),
        state.resolve(outcome).wf(),
        state.taken().wf(),
        RequestState::<T>::pending(state.key).wf(),
        forall|code: i32| #[trigger] RequestState::<T>::launch_failed(code).wf(),
{
}

} // verus!
