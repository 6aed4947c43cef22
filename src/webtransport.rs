//! The session manager: connection establishment, lifecycle tracking and
//! the single close request of a session.

use vstd::prelude::*;
use crate::lifecycle::{
    apply_signal, is_terminal_status, lemma_nothing_after_terminal, lemma_opened_once_and_first,
    lemma_run_push, option_seq, run, SessionState, TransportSignal, WebTransportStatus,
};

verus! {

/// An error encountered by a WebTransport.
#[derive(Clone, Debug, PartialEq, Eq)]
pub enum WebTransportError {
    /// An error encountered when creating the WebTransport.
    CreationError(String),
}

/// The text of a creation error, given the diagnostic of the failed creation.
pub open spec fn creation_message(detail: Seq<char>) -> Seq<char> {
    "Failed to create WebTransport: "@ + detail
}

impl WebTransportError {
    pub open spec fn text(self) -> Seq<char> {
        match self {
            WebTransportError::CreationError(m) => m@,
        }
    }

    /// The human-readable text of the error.
    pub fn message(&self) -> (r: String)
        ensures
            r@ == self.text(),
    {
        match self {
            WebTransportError::CreationError(m) => m.clone(),
        }
    }
}

/// What a session is, abstractly.
pub struct SessionView {
    pub address: Seq<char>,
    pub state: SessionState,
    pub close_requested: bool,
    /// Every lifecycle signal handed to the session, in order.
    pub signals: Seq<TransportSignal>,
    /// Every notification the session emitted, in order.
    pub notifications: Seq<WebTransportStatus>,
}

/// A handle to control the WebTransport connection.
///
/// It holds the lifecycle state of one session and remembers whether the
/// transport was already asked to close, so that at most one close request
/// is ever issued.
pub struct WebTransportTask {
    address: String,
    state: SessionState,
    close_requested: bool,
    signals: Ghost<Seq<TransportSignal>>,
    notifications: Ghost<Seq<WebTransportStatus>>,
}

impl View for WebTransportTask {
    type V = SessionView;

    closed spec fn view(&self) -> SessionView {
        SessionView {
            address: self.address@,
            state: self.state,
            close_requested: self.close_requested,
            signals: self.signals@,
            notifications: self.notifications@,
        }
    }
}

impl WebTransportTask {
    /// The state and the notifications are those of running every signal
    /// received so far from a new session.
    pub open spec fn wf(&self) -> bool {
        run(SessionState::Connecting, self@.signals) == (self@.state, self@.notifications)
    }

    fn new(address: String) -> (r: WebTransportTask)
        ensures
            r@.address == address@,
            r@.state == SessionState::Connecting,
            !r@.close_requested,
            r@.signals == Seq::<TransportSignal>::empty(),
            r@.notifications == Seq::<WebTransportStatus>::empty(),
            r.wf(),
    {
        WebTransportTask {
            address,
            state: SessionState::Connecting,
            close_requested: false,
            signals: Ghost(Seq::empty()),
            notifications: Ghost(Seq::empty()),
        }
    }

    /// The address the session was opened to.
    pub fn address(&self) -> (r: &str)
        ensures
            r@ == self@.address,
    {
        self.address.as_str()
    }

    /// The current lifecycle state.
    pub fn state(&self) -> (r: &SessionState)
        ensures
            *r == self@.state,
    {
        &self.state
    }

    /// Whether a close of the transport has been requested.
    pub fn close_requested(&self) -> (r: bool)
        ensures
            r == self@.close_requested,
    {
        self.close_requested
    }

    /// Hands a lifecycle signal of the transport to the session; returns the
    /// notification to emit, if any.
    pub fn on_signal(&mut self, sig: TransportSignal) -> (r: Option<WebTransportStatus>)
        requires
            old(self).wf(),
        ensures
            final(self).wf(),
            (final(self)@.state, r) == crate::lifecycle::transition(old(self)@.state, sig),
            final(self)@.signals == old(self)@.signals.push(sig),
            final(self)@.notifications == old(self)@.notifications + option_seq(r),
            final(self)@.address == old(self)@.address,
            final(self)@.close_requested == old(self)@.close_requested,
    {
        proof {
            lemma_run_push(SessionState::Connecting, self.signals@, sig);
        }
        let ghost sig_ghost = sig;
        let (next, note) = apply_signal(&self.state, sig);
        self.state = next;
        self.signals = Ghost(self.signals@.push(sig_ghost));
        self.notifications = Ghost(self.notifications@ + option_seq(note));
        note
    }

    /// Requests that the transport close. Returns true when the caller must
    /// issue the close: the transport is still connecting or open and no
    /// close was requested before. Any later request is a no-op.
    pub fn disconnect(&mut self) -> (r: bool)
        requires
            old(self).wf(),
        ensures
            final(self).wf(),
            r == (!old(self)@.state.is_terminal() && !old(self)@.close_requested),
            final(self)@.close_requested == (old(self)@.close_requested || r),
            final(self)@.state == old(self)@.state,
            final(self)@.signals == old(self)@.signals,
            final(self)@.notifications == old(self)@.notifications,
            final(self)@.address == old(self)@.address,
    {
        if self.close_requested || !self.state.is_active() {
            false
        } else {
            self.close_requested = true;
            true
        }
    }
}

/// Of every session, the notifications emitted so far hold `Opened` at most
/// once and only first, exactly when readiness was the first signal, and
/// nothing after a terminal notification.
pub proof fn lemma_session_notifications(task: &WebTransportTask)
    requires
        task.wf(),
    ensures
        forall|i: int| 0 <= i < task@.notifications.len() && #[trigger] task@.notifications[i] is Opened ==> i == 0,
        (task@.notifications.len() > 0 && task@.notifications[0] is Opened)
            <==> (task@.signals.len() > 0 && task@.signals[0] is Ready),
        forall|i: int|
            0 <= i < task@.notifications.len() && is_terminal_status(#[trigger] task@.notifications[i])
                ==> i == task@.notifications.len() - 1,
{
    lemma_opened_once_and_first(task@.signals);
    lemma_nothing_after_terminal(task@.signals);
}

/// A WebTransport service attached to a user context.
#[derive(Debug, Default)]
pub struct WebTransportService {}

impl WebTransportService {
    /// Decides the outcome of a connection attempt to `url`, given the
    /// outcome of creating the transport (its diagnostic text on failure).
    /// On success the session starts connecting, with no close requested.
    pub fn connect(url: &str, created: Result<(), String>) -> (r: Result<WebTransportTask, WebTransportError>)
        ensures
            match created {
                Ok(_) => r matches Ok(task) && task.wf() && task@.address == url@
                    && task@.state == SessionState::Connecting && !task@.close_requested
                    && task@.signals.len() == 0 && task@.notifications.len() == 0,
                Err(e) => r matches Err(err) && err.text() == creation_message(e@),
            },
    {
        match created {
            Ok(_) => Ok(WebTransportTask::new(url.to_string())),
            Err(e) => {
                let mut m = String::from_str("Failed to create WebTransport: ");
                m.append(e.as_str());
                Err(WebTransportError::CreationError(m))
            },
        }
    }
}

} // verus!
