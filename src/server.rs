use vstd::prelude::*;
use crate::api::{ApiError, Request, Response, COUNTER_CHANGED_TOPIC, COUNTER_KEY};
use crate::bus::{
    published, received, subscriber_index, unsubscribed, NotificationBus, SubscriberState,
};
use crate::store::{increment_result, incremented, value_in, CounterStore};

verus! {

/// What a request may do, as decided by the authorization gate in front of
/// the server.
#[derive(Debug, Clone, Copy, PartialEq, Eq, Structural)]
pub struct Permissions {
    pub increment_allowed: bool,
}

impl Permissions {
    /// Every action is permitted.
    pub fn allow_all() -> (r: Permissions)
        ensures
            r.increment_allowed,
    {
        Permissions { increment_allowed: true }
    }

    /// No action is permitted.
    pub fn deny_all() -> (r: Permissions)
        ensures
            !r.increment_allowed,
    {
        Permissions { increment_allowed: false }
    }
}

/// The server's state: the counter store, and the subscriptions of the bus.
pub type ServerState = (Map<Seq<char>, u64>, Seq<SubscriberState>);

/// The shared counter's value in a server state.
pub open spec fn counter_value(s: ServerState) -> u64 {
    value_in(s.0, COUNTER_KEY@)
}

/// Every subscriber of the counter topic that has values waiting has the
/// stored counter value as the newest of them: once it has taken all of
/// them, it has seen the value the store holds.
pub open spec fn consistent(s: ServerState) -> bool {
    forall|i: int|
        0 <= i < s.1.len() && s.1[i].1 == COUNTER_CHANGED_TOPIC@ && #[trigger] s.1[i].2.len() > 0
            ==> s.1[i].2.last() == counter_value(s)
}

/// The outcome of handling one request under the given permission, and the
/// server state after it.
///
/// A denied request changes nothing. Otherwise the counter is incremented
/// first, and only a committed value is then published on the counter topic
/// and returned; a counter that cannot grow further changes nothing.
pub open spec fn handled(s: ServerState, request: Request, allowed: bool) -> (
    Result<Response, ApiError>,
    ServerState,
) {
    match request {
        Request::IncrementCounter => {
            if !allowed {
                (Err(ApiError::PermissionDenied), s)
            } else {
                match increment_result(s.0, COUNTER_KEY@) {
                    Some(v) => (
                        Ok(Response::CounterIncremented(v)),
                        (incremented(s.0, COUNTER_KEY@), published(s.1, COUNTER_CHANGED_TOPIC@, v)),
                    ),
                    None => (Err(ApiError::CounterOverflow), s),
                }
            }
        },
    }
}

/// A denied request fails with `PermissionDenied` and leaves the stored
/// counter and every subscriber's queue exactly as they were.
pub proof fn lemma_denied_changes_nothing(s: ServerState, request: Request)
    ensures
        handled(s, request, false) == (Err::<Response, ApiError>(ApiError::PermissionDenied), s),
{
}

/// Handling any request keeps a consistent server state consistent.
pub proof fn lemma_handled_consistent(s: ServerState, request: Request, allowed: bool)
    requires
        consistent(s),
    ensures
        consistent(handled(s, request, allowed).1),
{
    let t = handled(s, request, allowed).1;
    if allowed {
        if let Some(v) = increment_result(s.0, COUNTER_KEY@) {
            assert forall|i: int|
                0 <= i < t.1.len() && t.1[i].1 == COUNTER_CHANGED_TOPIC@ && #[trigger] t.1[i].2.len()
                    > 0 implies t.1[i].2.last() == counter_value(t) by {
                assert(t.1[i].2 == s.1[i].2.push(v));
            }
        }
    }
}

/// The server side of the counter: it routes each request to its handler,
/// and holds the store and the bus the handler works on.
pub struct CounterServer {
    store: CounterStore,
    bus: NotificationBus,
}

impl View for CounterServer {
    type V = ServerState;

    closed spec fn view(&self) -> ServerState {
        (self.store@, self.bus@)
    }
}

impl CounterServer {
    pub closed spec fn wf(&self) -> bool {
        &&& self.store.wf()
        &&& self.bus.wf()
        &&& consistent(self@)
    }

    /// Every subscription id has been handed out.
    pub closed spec fn exhausted(&self) -> bool {
        self.bus.exhausted()
    }

    /// A server whose counter was never set and that has no subscribers.
    pub fn new() -> (r: CounterServer)
        ensures
            r.wf(),
            !r.exhausted(),
            r@.0 == Map::<Seq<char>, u64>::empty(),
            r@.1 == Seq::<SubscriberState>::empty(),
    {
        CounterServer { store: CounterStore::new(), bus: NotificationBus::new() }
    }

    /// A server over a store that already holds data, with no subscribers.
    pub fn open(store: CounterStore) -> (r: CounterServer)
        requires
            store.wf(),
        ensures
            r.wf(),
            !r.exhausted(),
            r@.0 == store@,
            r@.1 == Seq::<SubscriberState>::empty(),
    {
        CounterServer { store, bus: NotificationBus::new() }
    }

    /// Routes `request` to the one handler of its variant and returns that
    /// handler's result.
    pub fn dispatch(&mut self, request: Request, permissions: &Permissions) -> (r: Result<
        Response,
        ApiError,
    >)
        requires
            old(self).wf(),
        ensures
            final(self).wf(),
            (r, final(self)@) == handled(old(self)@, request, permissions.increment_allowed),
            final(self).exhausted() == old(self).exhausted(),
    {
        match request {
            Request::IncrementCounter => self.increment_counter(permissions),
        }
    }

    /// Handles `IncrementCounter`: checks the permission, increments the
    /// stored counter, publishes the new value on the counter topic, and
    /// returns it.
    pub fn increment_counter(&mut self, permissions: &Permissions) -> (r: Result<
        Response,
        ApiError,
    >)
        requires
            old(self).wf(),
        ensures
            final(self).wf(),
            (r, final(self)@) == handled(
                old(self)@,
                Request::IncrementCounter,
                permissions.increment_allowed,
            ),
            final(self).exhausted() == old(self).exhausted(),
    {
        if !permissions.increment_allowed {
            return Err(ApiError::PermissionDenied);
        }
        match self.store.increment(COUNTER_KEY) {
            Some(v) => {
                self.bus.publish(COUNTER_CHANGED_TOPIC, v);
                proof {
                    lemma_handled_consistent(
                        old(self)@,
                        Request::IncrementCounter,
                        permissions.increment_allowed,
                    );
                }
                Ok(Response::CounterIncremented(v))
            },
            None => Err(ApiError::CounterOverflow),
        }
    }

    /// The counter's current value; zero before the first increment.
    pub fn current_count(&self) -> (r: u64)
        requires
            self.wf(),
        ensures
            r == counter_value(self@),
    {
        self.store.get(COUNTER_KEY)
    }

    /// Opens a subscription on `topic` for a client session.
    pub fn subscribe(&mut self, topic: &str) -> (r: Option<u64>)
        requires
            old(self).wf(),
        ensures
            final(self).wf(),
            final(self)@.0 == old(self)@.0,
            r is None <==> old(self).exhausted(),
            match r {
                Some(id) => {
                    &&& final(self)@.1 == old(self)@.1.push((id, topic@, Seq::<u64>::empty()))
                    &&& forall|i: int| 0 <= i < old(self)@.1.len() ==> old(self)@.1[i].0 != id
                },
                None => final(self)@.1 == old(self)@.1,
            },
    {
        let r = self.bus.subscribe(topic);
        assert forall|i: int|
            0 <= i < self@.1.len() && self@.1[i].1 == COUNTER_CHANGED_TOPIC@
                && #[trigger] self@.1[i].2.len() > 0 implies self@.1[i].2.last() == counter_value(
            self@,
        ) by {
            assert(i < old(self)@.1.len());
            assert(self@.1[i] == old(self)@.1[i]);
        }
        r
    }

    /// Ends subscription `id` when a session disconnects or unsubscribes.
    pub fn unsubscribe(&mut self, id: u64) -> (r: bool)
        requires
            old(self).wf(),
        ensures
            final(self).wf(),
            final(self)@.0 == old(self)@.0,
            r == (subscriber_index(old(self)@.1, id) >= 0),
            final(self)@.1 == unsubscribed(old(self)@.1, id),
            !old(self).exhausted() ==> !final(self).exhausted(),
    {
        let ghost k = subscriber_index(old(self)@.1, id);
        let r = self.bus.unsubscribe(id);
        assert forall|i: int|
            0 <= i < self@.1.len() && self@.1[i].1 == COUNTER_CHANGED_TOPIC@
                && #[trigger] self@.1[i].2.len() > 0 implies self@.1[i].2.last() == counter_value(
            self@,
        ) by {
            if k >= 0 && i >= k {
                assert(self@.1[i] == old(self)@.1[i + 1]);
            } else {
                assert(self@.1[i] == old(self)@.1[i]);
            }
        }
        r
    }

    /// Takes the oldest value waiting for subscription `id`.
    pub fn receive(&mut self, id: u64) -> (r: Option<u64>)
        requires
            old(self).wf(),
        ensures
            final(self).wf(),
            final(self)@.0 == old(self)@.0,
            (r, final(self)@.1) == received(old(self)@.1, id),
            final(self).exhausted() == old(self).exhausted(),
    {
        let ghost k = subscriber_index(old(self)@.1, id);
        let r = self.bus.receive(id);
        assert forall|i: int|
            0 <= i < self@.1.len() && self@.1[i].1 == COUNTER_CHANGED_TOPIC@
                && #[trigger] self@.1[i].2.len() > 0 implies self@.1[i].2.last() == counter_value(
            self@,
        ) by {
            if i == k && r is Some {
                assert(old(self)@.1[i].2.len() > 0);
                assert(self@.1[i].2.last() == old(self)@.1[i].2.last());
            } else {
                assert(self@.1[i] == old(self)@.1[i]);
            }
        }
        r
    }
}

} // verus!
