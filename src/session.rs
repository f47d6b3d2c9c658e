use vstd::prelude::*;
use crate::api::{Response, COUNTER_CHANGED_TOPIC};
use crate::server::{consistent, counter_value, ServerState};

verus! {

/// Where a client session stands in its lifecycle.
#[derive(Debug, Clone, Copy, PartialEq, Eq, Structural)]
pub enum SessionState {
    /// Not connected yet.
    Uninitialized,
    /// Connected; the subscription is not confirmed yet.
    Connected,
    /// Subscribed and serving requests.
    Active,
    /// The transport failed. The session stays here.
    Disconnected,
}

/// Something that happened to a client session.
#[derive(Debug, Clone, Copy, PartialEq, Eq, Structural)]
pub enum SessionEvent {
    /// The connection to the server is open.
    Connect,
    /// The subscription to the counter topic was acknowledged.
    Subscribed,
    /// The user asked for an increment.
    IncrementRequested,
    /// An increment request was answered.
    IncrementSucceeded(Response),
    /// An increment request failed, on the server or in transport.
    IncrementFailed,
    /// A new counter value arrived on the subscription.
    Notified(u64),
    /// The connection was lost.
    TransportFailed,
}

/// What the session asks its surroundings to do after an event.
#[derive(Debug, Clone, Copy, PartialEq, Eq, Structural)]
pub enum SessionAction {
    /// Nothing to do.
    Nothing,
    /// Subscribe to the counter topic.
    Subscribe,
    /// Send an `IncrementCounter` request.
    SendIncrement,
    /// Show this value.
    Display(u64),
    /// Tell the user that a request failed.
    ReportError,
}

/// A session as a value: its lifecycle state and the cached display value
/// (`None` until the first value is known).
pub type SessionView = (SessionState, Option<u64>);

/// The session is connected, whether or not its subscription is confirmed.
pub open spec fn is_live(state: SessionState) -> bool {
    state == SessionState::Connected || state == SessionState::Active
}

/// One transition of the client session: the next session and the action.
///
/// The cached value changes only on a successful response or a notification,
/// and then to the value carried, whichever arrives last. A failure leaves it
/// as it was; so does a lost connection, after which nothing changes.
pub open spec fn session_step(s: SessionView, event: SessionEvent) -> (SessionView, SessionAction) {
    let (state, display) = s;
    if state == SessionState::Disconnected {
        (s, SessionAction::Nothing)
    } else {
        match event {
            SessionEvent::TransportFailed => (
                (SessionState::Disconnected, display),
                SessionAction::Nothing,
            ),
            SessionEvent::Connect => if state == SessionState::Uninitialized {
                ((SessionState::Connected, display), SessionAction::Subscribe)
            } else {
                (s, SessionAction::Nothing)
            },
            SessionEvent::Subscribed => if state == SessionState::Connected {
                ((SessionState::Active, display), SessionAction::Nothing)
            } else {
                (s, SessionAction::Nothing)
            },
            SessionEvent::IncrementRequested => if is_live(state) {
                (s, SessionAction::SendIncrement)
            } else {
                (s, SessionAction::Nothing)
            },
            SessionEvent::IncrementSucceeded(Response::CounterIncremented(v)) => if is_live(
                state,
            ) {
                ((SessionState::Active, Some(v)), SessionAction::Display(v))
            } else {
                (s, SessionAction::Nothing)
            },
            SessionEvent::IncrementFailed => if is_live(state) {
                (s, SessionAction::ReportError)
            } else {
                (s, SessionAction::Nothing)
            },
            SessionEvent::Notified(v) => if is_live(state) {
                ((SessionState::Active, Some(v)), SessionAction::Display(v))
            } else {
                (s, SessionAction::Nothing)
            },
        }
    }
}

/// The session after the notifications `values` arrive, in order.
pub open spec fn notified_all(s: SessionView, values: Seq<u64>) -> SessionView
    decreases values.len(),
{
    if values.len() == 0 {
        s
    } else {
        session_step(notified_all(s, values.drop_last()), SessionEvent::Notified(values.last())).0
    }
}

/// A live session that receives a non-empty run of notifications is active
/// and displays the last of them.
pub proof fn lemma_notified_shows_last(s: SessionView, values: Seq<u64>)
    requires
        is_live(s.0),
        values.len() > 0,
    ensures
        notified_all(s, values) == (SessionState::Active, Some(values.last())),
    decreases values.len(),
{
    let prefix = values.drop_last();
    if values.len() > 1 {
        lemma_notified_shows_last(s, prefix);
    } else {
        assert(prefix.len() == 0);
    }
    assert(is_live(notified_all(s, prefix).0));
}

/// Convergence: in a consistent server state, a live session that takes
/// every value waiting on its counter-topic subscription ends up displaying
/// the value the store holds.
pub proof fn lemma_convergence(srv: ServerState, i: int, s: SessionView)
    requires
        consistent(srv),
        0 <= i < srv.1.len(),
        srv.1[i].1 == COUNTER_CHANGED_TOPIC@,
        srv.1[i].2.len() > 0,
        is_live(s.0),
    ensures
        notified_all(s, srv.1[i].2) == (SessionState::Active, Some(counter_value(srv))),
{
    lemma_notified_shows_last(s, srv.1[i].2);
}

/// One client's view of the shared counter. Responses and notifications
/// both go through `handle`, the single place where the cached value is
/// written.
pub struct ClientSession {
    state: SessionState,
    display: Option<u64>,
}

impl View for ClientSession {
    type V = SessionView;

    closed spec fn view(&self) -> SessionView {
        (self.state, self.display)
    }
}

impl ClientSession {
    /// A session that is not connected and knows no value yet.
    pub fn new() -> (r: ClientSession)
        ensures
            r@ == (SessionState::Uninitialized, None::<u64>),
    {
        ClientSession { state: SessionState::Uninitialized, display: None }
    }

    /// The lifecycle state.
    pub fn state(&self) -> (r: SessionState)
        ensures
            r == self@.0,
    {
        self.state
    }

    /// The value to display, once one is known.
    pub fn display(&self) -> (r: Option<u64>)
        ensures
            r == self@.1,
    {
        self.display
    }

    /// Applies `event` and returns what the surroundings should do next.
    pub fn handle(&mut self, event: SessionEvent) -> (r: SessionAction)
        ensures
            (final(self)@, r) == session_step(old(self)@, event),
    {
        if self.state == SessionState::Disconnected {
            return SessionAction::Nothing;
        }
        let live = self.state == SessionState::Connected || self.state == SessionState::Active;
        match event {
            SessionEvent::TransportFailed => {
                self.state = SessionState::Disconnected;
                SessionAction::Nothing
            },
            SessionEvent::Connect => {
                if self.state == SessionState::Uninitialized {
                    self.state = SessionState::Connected;
                    SessionAction::Subscribe
                } else {
                    SessionAction::Nothing
                }
            },
            SessionEvent::Subscribed => {
                if self.state == SessionState::Connected {
                    self.state = SessionState::Active;
                }
                SessionAction::Nothing
            },
            SessionEvent::IncrementRequested => {
                if live {
                    SessionAction::SendIncrement
                } else {
                    SessionAction::Nothing
                }
            },
            SessionEvent::IncrementSucceeded(Response::CounterIncremented(v)) => {
                if live {
                    self.state = SessionState::Active;
                    self.display = Some(v);
                    SessionAction::Display(v)
                } else {
                    SessionAction::Nothing
                }
            },
            SessionEvent::IncrementFailed => {
                if live {
                    SessionAction::ReportError
                } else {
                    SessionAction::Nothing
                }
            },
            SessionEvent::Notified(v) => {
                if live {
                    self.state = SessionState::Active;
                    self.display = Some(v);
                    SessionAction::Display(v)
                } else {
                    SessionAction::Nothing
                }
            },
        }
    }
}

} // verus!
