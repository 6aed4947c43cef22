//! Lifecycle of one session and the status notifications it emits.

use vstd::prelude::*;

verus! {

/// Where a session stands in its life.
#[derive(Clone, Debug, PartialEq, Eq)]
pub enum SessionState {
    /// The transport was created and is not ready yet.
    Connecting,
    /// The readiness signal has fired.
    Open,
    /// The transport closed gracefully; the reason is kept for logging.
    Closed(String),
    /// Creation, readiness or the transport itself failed.
    Errored(String),
}

/// A lifecycle signal of the transport, as the host observed it.
#[derive(Clone, Debug, PartialEq, Eq)]
pub enum TransportSignal {
    /// The transport became ready.
    Ready,
    /// The readiness signal was rejected.
    ReadyFailed(String),
    /// The transport reported a graceful close.
    Closed(String),
    /// The transport reported a failure.
    Failed(String),
}

/// The status of a WebTransport connection. Used for status notifications.
#[derive(Clone, Debug, PartialEq, Eq)]
pub enum WebTransportStatus {
    /// Fired when a WebTransport connection has opened.
    Opened,
    /// Fired when a WebTransport connection has closed.
    Closed(String),
    /// Fired when a WebTransport connection has failed.
    Error(String),
}

impl SessionState {
    pub open spec fn is_terminal(self) -> bool {
        self is Closed || self is Errored
    }

    /// True while the transport may still be closed by a request.
    pub fn is_active(&self) -> (r: bool)
        ensures
            r == !self.is_terminal(),
    {
        match self {
            SessionState::Connecting => true,
            SessionState::Open => true,
            _ => false,
        }
    }
}

pub open spec fn is_terminal_status(s: WebTransportStatus) -> bool {
    s is Closed || s is Error
}

/// One lifecycle transition: the next state and the notification it emits.
///
/// Any terminal signal before readiness is a failure to connect. A terminal
/// state never changes again, and readiness cannot fire twice.
pub open spec fn transition(s: SessionState, sig: TransportSignal) -> (SessionState, Option<WebTransportStatus>) {
    match s {
        SessionState::Connecting => match sig {
            TransportSignal::Ready => (SessionState::Open, Some(WebTransportStatus::Opened)),
            TransportSignal::ReadyFailed(r) => (SessionState::Errored(r), Some(WebTransportStatus::Error(r))),
            TransportSignal::Closed(r) => (SessionState::Errored(r), Some(WebTransportStatus::Error(r))),
            TransportSignal::Failed(r) => (SessionState::Errored(r), Some(WebTransportStatus::Error(r))),
        },
        SessionState::Open => match sig {
            TransportSignal::Closed(r) => (SessionState::Closed(r), Some(WebTransportStatus::Closed(r))),
            TransportSignal::Failed(r) => (SessionState::Errored(r), Some(WebTransportStatus::Error(r))),
            _ => (s, None),
        },
        _ => (s, None),
    }
}

pub open spec fn option_seq(o: Option<WebTransportStatus>) -> Seq<WebTransportStatus> {
    match o {
        Some(x) => seq![x],
        None => seq![],
    }
}

/// The state reached from `s` through `sigs`, and every notification emitted
/// on the way, in order.
pub open spec fn run(s: SessionState, sigs: Seq<TransportSignal>) -> (SessionState, Seq<WebTransportStatus>)
    decreases sigs.len(),
{
    if sigs.len() == 0 {
        (s, seq![])
    } else {
        let (s1, o) = transition(s, sigs[0]);
        let (s2, rest) = run(s1, sigs.drop_first());
        (s2, option_seq(o) + rest)
    }
}

/// Computes one lifecycle transition.
pub fn apply_signal(s: &SessionState, sig: TransportSignal) -> (r: (SessionState, Option<WebTransportStatus>))
    ensures
        r == transition(*s, sig),
{
    match s {
        SessionState::Connecting => match sig {
            TransportSignal::Ready => (SessionState::Open, Some(WebTransportStatus::Opened)),
            TransportSignal::ReadyFailed(r) => {
                let n = r.clone();
                (SessionState::Errored(r), Some(WebTransportStatus::Error(n)))
            },
            TransportSignal::Closed(r) => {
                let n = r.clone();
                (SessionState::Errored(r), Some(WebTransportStatus::Error(n)))
            },
            TransportSignal::Failed(r) => {
                let n = r.clone();
                (SessionState::Errored(r), Some(WebTransportStatus::Error(n)))
            },
        },
        SessionState::Open => match sig {
            TransportSignal::Closed(r) => {
                let n = r.clone();
                (SessionState::Closed(r), Some(WebTransportStatus::Closed(n)))
            },
            TransportSignal::Failed(r) => {
                let n = r.clone();
                (SessionState::Errored(r), Some(WebTransportStatus::Error(n)))
            },
            _ => (SessionState::Open, None),
        },
        SessionState::Closed(r) => (SessionState::Closed(r.clone()), None),
        SessionState::Errored(r) => (SessionState::Errored(r.clone()), None),
    }
}

/// A terminal state absorbs every later signal and emits nothing.
pub proof fn lemma_terminal_absorbs(s: SessionState, sigs: Seq<TransportSignal>)
    requires
        s.is_terminal(),
    ensures
        run(s, sigs) == (s, Seq::<WebTransportStatus>::empty()),
    decreases sigs.len(),
{
    if sigs.len() > 0 {
        lemma_terminal_absorbs(s, sigs.drop_first());
    }
}

/// From an open session, at most one notification follows, and it is terminal.
proof fn lemma_open_emits_one_terminal(sigs: Seq<TransportSignal>)
    ensures
        run(SessionState::Open, sigs).1.len() <= 1,
        run(SessionState::Open, sigs).1.len() == 1 ==> is_terminal_status(run(SessionState::Open, sigs).1[0]),
    decreases sigs.len(),
{
    if sigs.len() > 0 {
        let (s1, o) = transition(SessionState::Open, sigs[0]);
        if s1 is Open {
            lemma_open_emits_one_terminal(sigs.drop_first());
        } else {
            lemma_terminal_absorbs(s1, sigs.drop_first());
        }
    }
}

/// Running one more signal extends the run by one transition.
pub proof fn lemma_run_push(s: SessionState, sigs: Seq<TransportSignal>, sig: TransportSignal)
    ensures
        run(s, sigs.push(sig)).0 == transition(run(s, sigs).0, sig).0,
        run(s, sigs.push(sig)).1 == run(s, sigs).1 + option_seq(transition(run(s, sigs).0, sig).1),
    decreases sigs.len(),
{
    let longer = sigs.push(sig);
    reveal_with_fuel(run, 2);
    if sigs.len() == 0 {
        let o = transition(s, sig).1;
        assert(longer[0] == sig);
        assert(longer.drop_first() =~= Seq::<TransportSignal>::empty());
        assert(option_seq(o) + Seq::<WebTransportStatus>::empty() =~= Seq::<WebTransportStatus>::empty() + option_seq(o));
    } else {
        let (s1, o) = transition(s, sigs[0]);
        assert(longer[0] == sigs[0]);
        assert(longer.drop_first() =~= sigs.drop_first().push(sig));
        lemma_run_push(s1, sigs.drop_first(), sig);
        let mid = run(s1, sigs.drop_first()).0;
        let rest = run(s1, sigs.drop_first()).1;
        let o2 = transition(mid, sig).1;
        assert(option_seq(o) + (rest + option_seq(o2)) =~= (option_seq(o) + rest) + option_seq(o2));
    }
}

/// From a new session, `Opened` is emitted at most once and before any other
/// notification, and it is emitted exactly when the first signal is readiness.
pub proof fn lemma_opened_once_and_first(sigs: Seq<TransportSignal>)
    ensures
        forall|i: int|
            0 <= i < run(SessionState::Connecting, sigs).1.len()
                && #[trigger] run(SessionState::Connecting, sigs).1[i] is Opened ==> i == 0,
        (run(SessionState::Connecting, sigs).1.len() > 0 && run(SessionState::Connecting, sigs).1[0] is Opened)
            <==> (sigs.len() > 0 && sigs[0] is Ready),
{
    if sigs.len() > 0 {
        let (s1, o) = transition(SessionState::Connecting, sigs[0]);
        if s1 is Open {
            lemma_open_emits_one_terminal(sigs.drop_first());
        } else {
            lemma_terminal_absorbs(s1, sigs.drop_first());
        }
    }
}

/// Once a terminal notification has been emitted, nothing follows it: in
/// particular no `Opened`.
pub proof fn lemma_nothing_after_terminal(sigs: Seq<TransportSignal>)
    ensures
        forall|i: int|
            0 <= i < run(SessionState::Connecting, sigs).1.len()
                && is_terminal_status(#[trigger] run(SessionState::Connecting, sigs).1[i])
                ==> i == run(SessionState::Connecting, sigs).1.len() - 1,
        run(SessionState::Connecting, sigs).1.len() <= 2,
{
    if sigs.len() > 0 {
        let (s1, o) = transition(SessionState::Connecting, sigs[0]);
        if s1 is Open {
            lemma_open_emits_one_terminal(sigs.drop_first());
        } else {
            lemma_terminal_absorbs(s1, sigs.drop_first());
        }
    }
}

} // verus!
