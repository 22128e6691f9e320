//! Subscriptions to native events.
//!
//! A subscriber names one category of native events and gets a [`Handle`].
//! The native listener behind it stays registered until the handle is
//! disconnected, and it is released exactly once however often that is asked
//! for. A [`CallbackRegistry`] keeps the book of the registrations that are
//! active: which categories they listen to, and in which order they were
//! made.

use vstd::prelude::*;

verus! {

/// The categories of native events that can be subscribed to.
#[derive(Clone, Copy, Debug, PartialEq, Eq, Structural)]
pub enum SteamApiCallback {
    /// A friend's state has changed.
    PersonaStateChange,
    /// A connection to the servers has been made.
    SteamServersConnected,
    /// The connection to the servers has been lost.
    SteamServersDisconnected,
    /// An attempt to connect to the servers has failed.
    SteamServerConnectFailure,
    /// The metadata of a lobby have changed.
    LobbyDataUpdate,
    /// Someone has joined or left a lobby.
    LobbyChatUpdate,
    /// The user asks to join a lobby, from the friends list or an invitation.
    GameLobbyJoinRequested,
    /// A user asks to talk to this one peer to peer.
    P2PSessionRequest,
    /// Packets could not be delivered to a user.
    P2PSessionConnectFail,
    /// The user has answered a request to authorise a microtransaction.
    MicroTxnAuthorizationResponse,
}

/// The token of one active subscription. It owns one native registration: the
/// view is the registration as long as the handle is connected, and `None`
/// once it has been disconnected.
#[derive(Debug, PartialEq, Eq)]
pub struct Handle {
    handle: Option<u64>,
}

impl View for Handle {
    type V = Option<u64>;

    closed spec fn view(&self) -> Option<u64> {
        self.handle
    }
}

impl Handle {
    /// The registration that the handle owns, if it is still connected.
    pub fn registration(&self) -> (token: Option<u64>)
        ensures
            token == self@,
    {
        self.handle
    }

    /// Whether the handle still owns its registration.
    pub fn is_connected(&self) -> (connected: bool)
        ensures
            connected == (self@ is Some),
    {
        self.handle.is_some()
    }

    /// Gives the registration up. The first call hands out the registration
    /// that is to be released; every later call hands out nothing and is no
    /// fault. The release of the native listener is the caller's to perform
    /// with what is handed out, after any handler that is running has
    /// returned.
    pub fn disconnect(&mut self) -> (released: Option<u64>)
        ensures
            released == old(self)@,
            final(self)@ is None,
    {
        self.handle.take()
    }
}

/// How many registrations `calls` calls of [`Handle::disconnect`] in a row
/// hand out for release, on a handle whose view is `handle` before the first.
pub open spec fn releases(handle: Option<u64>, calls: nat) -> nat
    decreases calls,
{
    if calls == 0 {
        0
    } else {
        let first: nat = if handle is Some {
            1
        } else {
            0
        };
        first + releases(None, (calls - 1) as nat)
    }
}

/// However often a handle is disconnected, its registration is released
/// once if the handle was connected, and never if it was not.
pub proof fn lemma_disconnect_releases_once(handle: Option<u64>, calls: nat)
    ensures
        handle is Some && calls >= 1 ==> releases(handle, calls) == 1,
        handle is None ==> releases(handle, calls) == 0,
    decreases calls,
{
    if calls > 0 {
        lemma_disconnect_releases_once(None, (calls - 1) as nat);
    }
}

/// One active registration.
#[derive(Clone, Copy, Debug, PartialEq, Eq, Structural)]
pub struct Registration {
    /// The token that the handle of the subscription holds.
    pub token: u64,
    /// The category of events that the subscription listens to.
    pub category: SteamApiCallback,
}

/// The registrations among `active` that carry another token than `token`,
/// in their order.
pub open spec fn without(active: Seq<Registration>, token: u64) -> Seq<Registration>
    decreases active.len(),
{
    if active.len() == 0 {
        active
    } else if active.last().token == token {
        without(active.drop_last(), token)
    } else {
        without(active.drop_last(), token).push(active.last())
    }
}

/// The tokens of the registrations among `active` that listen to `category`,
/// in the order in which they were made.
pub open spec fn listeners_of(active: Seq<Registration>, category: SteamApiCallback) -> Seq<u64>
    decreases active.len(),
{
    if active.len() == 0 {
        Seq::empty()
    } else if active.last().category == category {
        listeners_of(active.drop_last(), category).push(active.last().token)
    } else {
        listeners_of(active.drop_last(), category)
    }
}

/// Whether a registration among `active` carries `token`.
pub open spec fn holds(active: Seq<Registration>, token: u64) -> bool {
    exists|i: int| 0 <= i < active.len() && (#[trigger] active[i]).token == token
}

/// The mathematical state of a registry.
pub struct RegistryState {
    /// The token that the next subscription gets.
    pub next_token: u64,
    /// The active registrations, in the order in which they were made.
    pub active: Seq<Registration>,
}

impl RegistryState {
    /// Every token in use was handed out before.
    pub open spec fn wf(self) -> bool {
        forall|i: int| 0 <= i < self.active.len() ==> (#[trigger] self.active[i]).token
            < self.next_token
    }
}

/// The book of the active registrations.
#[derive(Debug)]
pub struct CallbackRegistry {
    next_token: u64,
    active: Vec<Registration>,
}

impl View for CallbackRegistry {
    type V = RegistryState;

    closed spec fn view(&self) -> RegistryState {
        RegistryState { next_token: self.next_token, active: self.active@ }
    }
}

impl CallbackRegistry {
    #[verifier::type_invariant]
    spec fn inv(self) -> bool {
        forall|i: int| 0 <= i < self.active@.len() ==> (#[trigger] self.active@[i]).token
            < self.next_token
    }

    /// A registry without registrations.
    pub fn new() -> (registry: Self)
        ensures
            registry@ == (RegistryState { next_token: 0, active: Seq::empty() }),
            registry@.wf(),
    {
        CallbackRegistry { next_token: 0, active: Vec::new() }
    }

    /// Whether the registry can hand out one more token.
    pub fn has_room(&self) -> (room: bool)
        ensures
            room == (self@.next_token < u64::MAX),
            self@.wf(),
    {
        proof {
            use_type_invariant(self);
        }
        self.next_token < u64::MAX
    }

    /// Subscribes to `category`. The registration is entered behind all
    /// earlier ones, under a token that no registration carries or has
    /// carried, and the handle that owns it is returned.
    pub fn subscribe(&mut self, category: SteamApiCallback) -> (handle: Handle)
        requires
            old(self)@.next_token < u64::MAX,
        ensures
            handle@ == Some(old(self)@.next_token),
            !holds(old(self)@.active, old(self)@.next_token),
            final(self)@.active == old(self)@.active.push(
                Registration { token: old(self)@.next_token, category },
            ),
            final(self)@.next_token == old(self)@.next_token + 1,
            final(self)@.wf(),
    {
        proof {
            use_type_invariant(&*self);
        }
        let token = self.next_token;
        let mut active: Vec<Registration> = Vec::new();
        core::mem::swap(&mut active, &mut self.active);
        active.push(Registration { token, category });
        self.next_token = token + 1;
        self.active = active;
        handle_of(token)
    }

    /// Whether the registration with `token` is active.
    pub fn is_active(&self, token: u64) -> (active: bool)
        ensures
            active == holds(self@.active, token),
    {
        let mut i: usize = 0;
        while i < self.active.len()
            invariant
                i <= self.active@.len(),
                forall|j: int| 0 <= j < i ==> (#[trigger] self.active@[j]).token != token,
            decreases self.active@.len() - i,
        {
            if self.active[i].token == token {
                return true;
            }
            i = i + 1;
        }
        false
    }

    /// Releases the registration with `token`. The other registrations stay,
    /// in their order. Returns whether there was such a registration: a
    /// second release of the same token finds none and changes nothing.
    pub fn release(&mut self, token: u64) -> (was_active: bool)
        ensures
            final(self)@.active == without(old(self)@.active, token),
            final(self)@.next_token == old(self)@.next_token,
            was_active == holds(old(self)@.active, token),
            final(self)@.wf(),
    {
        proof {
            use_type_invariant(&*self);
        }
        let mut kept: Vec<Registration> = Vec::new();
        let mut found = false;
        let mut i: usize = 0;
        while i < self.active.len()
            invariant
                i <= self.active@.len(),
                self.active@ == old(self)@.active,
                self.next_token == old(self)@.next_token,
                kept@ == without(self.active@.take(i as int), token),
                found == holds(self.active@.take(i as int), token),
                forall|j: int| 0 <= j < kept@.len() ==> (#[trigger] kept@[j]).token
                    < self.next_token,
                forall|j: int| 0 <= j < self.active@.len() ==> (#[trigger] self.active@[j]).token
                    < self.next_token,
            decreases self.active@.len() - i,
        {
            let registration = self.active[i];
            proof {
                let longer = self.active@.take(i + 1);
                assert(longer.drop_last() == self.active@.take(i as int));
                assert(longer.last() == registration);
                if registration.token == token {
                    assert(longer[i as int].token == token);
                } else if holds(longer, token) {
                    let j = choose|j: int| 0 <= j < longer.len() && (#[trigger] longer[j]).token
                        == token;
                    assert(self.active@.take(i as int)[j].token == token);
                } else if holds(self.active@.take(i as int), token) {
                    let j = choose|j: int|
                        0 <= j < i && (#[trigger] self.active@.take(i as int)[j]).token == token;
                    assert(longer[j].token == token);
                }
            }
            if registration.token == token {
                found = true;
            } else {
                kept.push(registration);
            }
            i = i + 1;
        }
        proof {
            assert(self.active@.take(i as int) == self.active@);
        }
        self.active = kept;
        found
    }

    /// Releases every registration, as the teardown of the owner does, and
    /// returns their tokens in the order in which they were made.
    pub fn release_all(&mut self) -> (tokens: Vec<u64>)
        ensures
            tokens@ == old(self)@.active.map_values(|registration: Registration| registration.token),
            final(self)@.active == Seq::<Registration>::empty(),
            final(self)@.next_token == old(self)@.next_token,
            final(self)@.wf(),
    {
        let mut released: Vec<Registration> = Vec::new();
        core::mem::swap(&mut released, &mut self.active);
        let mut tokens: Vec<u64> = Vec::new();
        let mut i: usize = 0;
        while i < released.len()
            invariant
                i <= released@.len(),
                tokens@ == released@.take(i as int).map_values(
                    |registration: Registration| registration.token,
                ),
            decreases released@.len() - i,
        {
            tokens.push(released[i].token);
            assert(released@.take(i + 1).drop_last() == released@.take(i as int));
            i = i + 1;
        }
        assert(released@.take(i as int) == released@);
        tokens
    }

    /// The tokens of the subscriptions that an event of `category` is to be
    /// handed to, each once, in the order in which they were made. The list
    /// is a copy: a subscription that is released while the list is walked
    /// does not disturb the walk.
    pub fn listeners(&self, category: SteamApiCallback) -> (tokens: Vec<u64>)
        ensures
            tokens@ == listeners_of(self@.active, category),
    {
        let mut tokens: Vec<u64> = Vec::new();
        let mut i: usize = 0;
        while i < self.active.len()
            invariant
                i <= self.active@.len(),
                tokens@ == listeners_of(self.active@.take(i as int), category),
            decreases self.active@.len() - i,
        {
            let registration = self.active[i];
            proof {
                let longer = self.active@.take(i + 1);
                assert(longer.drop_last() == self.active@.take(i as int));
                assert(longer.last() == registration);
            }
            if registration.category == category {
                tokens.push(registration.token);
            }
            i = i + 1;
        }
        proof {
            assert(self.active@.take(i as int) == self.active@);
        }
        tokens
    }
}

/// A registration that was released is gone, so that a second release of
/// its token finds nothing to release and changes nothing; every other
/// registration is still there.
pub proof fn lemma_released_is_gone(active: Seq<Registration>, token: u64)
    ensures
        !holds(without(active, token), token),
        without(without(active, token), token) == without(active, token),
        forall|other: u64|
            other != token ==> #[trigger] holds(without(active, token), other) == holds(
                active,
                other,
            ),
        !holds(active, token) ==> without(active, token) == active,
    decreases active.len(),
{
    if active.len() > 0 {
        let before = active.drop_last();
        let last = active.last();
        lemma_released_is_gone(before, token);
        let kept = without(before, token);
        if last.token == token {
            assert(holds(active, token)) by {
                assert(active[active.len() - 1].token == token);
            }
            assert forall|other: u64| other != token implies holds(without(active, token), other)
                == holds(active, other) by {
                if holds(active, other) {
                    let i = choose|i: int| 0 <= i < active.len() && (#[trigger] active[i]).token
                        == other;
                    assert(before[i].token == other);
                }
                if holds(before, other) {
                    let i = choose|i: int| 0 <= i < before.len() && (#[trigger] before[i]).token
                        == other;
                    assert(active[i].token == other);
                }
            }
        } else {
            let longer = kept.push(last);
            assert(longer.drop_last() == kept);
            assert(!holds(longer, token)) by {
                if holds(longer, token) {
                    let i = choose|i: int| 0 <= i < longer.len() && (#[trigger] longer[i]).token
                        == token;
                    assert(kept[i].token == token);
                }
            }
            assert forall|other: u64| other != token implies holds(longer, other) == holds(
                active,
                other,
            ) by {
                if holds(longer, other) {
                    let i = choose|i: int| 0 <= i < longer.len() && (#[trigger] longer[i]).token
                        == other;
                    if i < kept.len() {
                        assert(kept[i].token == other);
                        assert(holds(kept, other));
                        assert(holds(before, other));
                        let j = choose|j: int| 0 <= j < before.len() && (#[trigger] before[j]).token
                            == other;
                        assert(active[j].token == other);
                    } else {
                        assert(active[active.len() - 1].token == other);
                    }
                }
                if holds(active, other) {
                    let i = choose|i: int| 0 <= i < active.len() && (#[trigger] active[i]).token
                        == other;
                    if i < before.len() {
                        assert(before[i].token == other);
                        assert(holds(before, other));
                        assert(holds(kept, other));
                        let j = choose|j: int| 0 <= j < kept.len() && (#[trigger] kept[j]).token
                            == other;
                        assert(longer[j].token == other);
                    } else {
                        assert(longer[longer.len() - 1].token == other);
                    }
                }
            }
            if !holds(active, token) {
                if holds(before, token) {
                    let i = choose|i: int| 0 <= i < before.len() && (#[trigger] before[i]).token
                        == token;
                    assert(active[i].token == token);
                }
                assert(longer == active);
            }
        }
    }
}

/// The handle that owns the registration with `token`.
fn handle_of(token: u64) -> (handle: Handle)
    ensures
        handle@ == Some(token),
{
    Handle { handle: Some(token) }
}

/// Subscribes to the events of the category `steam_callback` and returns the
/// handle of the subscription.
pub fn register_callback(registry: &mut CallbackRegistry, steam_callback: SteamApiCallback) -> (handle:
    Handle)
    requires
        old(registry)@.next_token < u64::MAX,
    ensures
        handle@ == Some(old(registry)@.next_token),
        !holds(old(registry)@.active, old(registry)@.next_token),
        final(registry)@.active == old(registry)@.active.push(
            Registration { token: old(registry)@.next_token, category: steam_callback },
        ),
        final(registry)@.next_token == old(registry)@.next_token + 1,
        final(registry)@.wf(),
{
    registry.subscribe(steam_callback)
}

} // verus!
