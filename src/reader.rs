//! Channel readers: the decisions of the loops that pump inbound data.
//!
//! One reader runs per channel kind (datagrams, incoming unidirectional
//! streams, incoming bidirectional streams), and one per stream whose data
//! is drained. The host performs each read and hands its outcome to
//! [`ChannelReader::step`], which says what to do with it.

use vstd::prelude::*;
use crate::webtransport::WebTransportTask;

verus! {

/// What a reader pulls from.
#[derive(Clone, Copy, Debug, PartialEq, Eq)]
pub enum ReaderKind {
    /// The datagram-receive queue.
    Datagrams,
    /// The queue of incoming unidirectional streams.
    UnidirectionalStreams,
    /// The queue of incoming bidirectional streams.
    BidirectionalStreams,
    /// The data of one stream, read until it is done.
    StreamData,
}

/// The outcome of one read, as the host observed it.
#[derive(Clone, Debug, PartialEq, Eq)]
pub enum ReadOutcome<V> {
    /// The read failed, with the diagnostic text of the failure.
    Failed(String),
    /// The read returned; `done` says that no more items will come.
    Item { done: bool, value: Option<V> },
}

/// What the host does after a read.
#[derive(Clone, Debug, PartialEq, Eq)]
pub enum ReaderAction<V> {
    /// Hand the value to the reader's callback and read again.
    Deliver(V),
    /// Stop reading; the transport stays as it is.
    Stop,
    /// Close the transport with the given reason, and stop reading.
    CloseTransport(String),
}

pub open spec fn reason_prefix(kind: ReaderKind) -> Seq<char> {
    match kind {
        ReaderKind::Datagrams => "Failed to read incoming datagrams: "@,
        ReaderKind::UnidirectionalStreams => "Failed to read incoming unidirectional streams: "@,
        ReaderKind::BidirectionalStreams => "Failed to read incoming bidirectional streams: "@,
        ReaderKind::StreamData => "Failed to read incoming stream: "@,
    }
}

/// The reason given when a read of `kind` fails with `detail`.
pub open spec fn close_reason(kind: ReaderKind, detail: Seq<char>) -> Seq<char> {
    reason_prefix(kind) + detail
}

/// A read outcome that carries a value and leaves the reader running.
pub open spec fn delivers<V>(o: ReadOutcome<V>) -> bool {
    o matches ReadOutcome::Item { done: false, value: Some(_) }
}

/// The values a new reader delivers when fed `outcomes` in order: those of
/// the leading outcomes that carry a value, up to the first that stops it.
pub open spec fn delivered<V>(outcomes: Seq<ReadOutcome<V>>) -> Seq<V>
    decreases outcomes.len(),
{
    if outcomes.len() == 0 {
        Seq::empty()
    } else if let ReadOutcome::Item { done: false, value: Some(v) } = outcomes[0] {
        seq![v] + delivered(outcomes.drop_first())
    } else {
        Seq::empty()
    }
}

/// A new reader fed `outcomes` is still running.
pub open spec fn still_running<V>(outcomes: Seq<ReadOutcome<V>>) -> bool {
    forall|i: int| 0 <= i < outcomes.len() ==> delivers(#[trigger] outcomes[i])
}

proof fn lemma_delivered_push<V>(outcomes: Seq<ReadOutcome<V>>, o: ReadOutcome<V>)
    ensures
        still_running(outcomes) ==> still_running(outcomes.push(o)) == delivers(o),
        !still_running(outcomes) ==> !still_running(outcomes.push(o)),
        still_running(outcomes) && delivers(o) ==> delivered(outcomes.push(o))
            == delivered(outcomes).push(o->Item_value->Some_0),
        !(still_running(outcomes) && delivers(o)) ==> delivered(outcomes.push(o)) == delivered(outcomes),
    decreases outcomes.len(),
{
    let longer = outcomes.push(o);
    reveal_with_fuel(delivered, 2);
    if !still_running(outcomes) {
        let i = choose|i: int| 0 <= i < outcomes.len() && !delivers(#[trigger] outcomes[i]);
        assert(longer[i] == outcomes[i]);
    }
    if still_running(outcomes) && !delivers(o) {
        assert(longer[outcomes.len() as int] == o);
    }
    if still_running(outcomes) && delivers(o) {
        assert forall|i: int| 0 <= i < longer.len() implies delivers(#[trigger] longer[i]) by {
            if i < outcomes.len() {
                assert(longer[i] == outcomes[i]);
            }
        }
    }
    if outcomes.len() == 0 {
        assert(longer[0] == o);
        assert(longer.drop_first() =~= Seq::<ReadOutcome<V>>::empty());
        if delivers(o) {
            assert(seq![o->Item_value->Some_0] + Seq::<V>::empty() =~= Seq::<V>::empty().push(o->Item_value->Some_0));
        }
    } else {
        assert(longer[0] == outcomes[0]);
        assert(longer.drop_first() =~= outcomes.drop_first().push(o));
        let rest = outcomes.drop_first();
        if still_running(outcomes) {
            assert forall|i: int| 0 <= i < rest.len() implies delivers(#[trigger] rest[i]) by {
                assert(rest[i] == outcomes[i + 1]);
            }
        } else if delivers(outcomes[0]) {
            let i = choose|i: int| 0 <= i < outcomes.len() && !delivers(#[trigger] outcomes[i]);
            assert(i > 0);
            assert(rest[i - 1] == outcomes[i]);
        }
        lemma_delivered_push(rest, o);
        if delivers(outcomes[0]) {
            let v = outcomes[0]->Item_value->Some_0;
            if still_running(outcomes) && delivers(o) {
                assert(seq![v] + delivered(rest).push(o->Item_value->Some_0)
                    =~= (seq![v] + delivered(rest)).push(o->Item_value->Some_0));
            }
        }
    }
}

/// Values read in order, each before the next read, are delivered in the
/// order they were read, all of them, and the reader keeps running.
pub proof fn lemma_delivered_in_order<V>(values: Seq<V>)
    ensures
        delivered(values.map_values(|v: V| ReadOutcome::Item { done: false, value: Some(v) })) == values,
        still_running(values.map_values(|v: V| ReadOutcome::Item { done: false, value: Some(v) })),
    decreases values.len(),
{
    let outcomes = values.map_values(|v: V| ReadOutcome::Item { done: false, value: Some(v) });
    if values.len() > 0 {
        let rest = values.drop_first();
        lemma_delivered_in_order(rest);
        assert(outcomes.drop_first() =~= rest.map_values(|v: V| ReadOutcome::Item { done: false, value: Some(v) }));
        assert(seq![values[0]] + rest =~= values);
    } else {
        assert(delivered(outcomes) =~= values);
    }
}

/// What a reader is, abstractly.
pub struct ReaderView<V> {
    pub kind: ReaderKind,
    pub running: bool,
    /// Every outcome handed to the reader, in order.
    pub fed: Seq<ReadOutcome<V>>,
    /// Every value the reader delivered, in order.
    pub delivered: Seq<V>,
}

/// The decisions of one read loop.
pub struct ChannelReader<V> {
    kind: ReaderKind,
    running: bool,
    fed: Ghost<Seq<ReadOutcome<V>>>,
    delivered: Ghost<Seq<V>>,
}

impl<V> View for ChannelReader<V> {
    type V = ReaderView<V>;

    closed spec fn view(&self) -> ReaderView<V> {
        ReaderView {
            kind: self.kind,
            running: self.running,
            fed: self.fed@,
            delivered: self.delivered@,
        }
    }
}

impl<V> ChannelReader<V> {
    /// The reader runs while every outcome fed to it delivered a value, and
    /// it has delivered exactly those values, in order.
    pub open spec fn wf(&self) -> bool {
        &&& self@.running == still_running(self@.fed)
        &&& self@.delivered == delivered(self@.fed)
    }

    /// A new, running reader of `kind`.
    pub fn new(kind: ReaderKind) -> (r: ChannelReader<V>)
        ensures
            r.wf(),
            r@.kind == kind,
            r@.running,
            r@.fed.len() == 0,
            r@.delivered.len() == 0,
    {
        ChannelReader { kind, running: true, fed: Ghost(Seq::empty()), delivered: Ghost(Seq::empty()) }
    }

    pub fn kind(&self) -> (r: ReaderKind)
        ensures
            r == self@.kind,
    {
        self.kind
    }

    /// Whether the loop is still reading.
    pub fn is_running(&self) -> (r: bool)
        ensures
            r == self@.running,
    {
        self.running
    }

    /// Decides what to do with the outcome of one read.
    ///
    /// A value is delivered and reading goes on. The end of the queue, or a
    /// read without a value, stops this reader and leaves the transport
    /// alone. A failed read stops this reader and asks the session to close
    /// the transport: the close is issued only if it is the session's first
    /// request while the transport is active. A stopped reader delivers
    /// nothing more.
    pub fn step(&mut self, session: &mut WebTransportTask, outcome: ReadOutcome<V>) -> (r: ReaderAction<V>)
        requires
            old(self).wf(),
            old(session).wf(),
        ensures
            final(self).wf(),
            final(session).wf(),
            final(self)@.kind == old(self)@.kind,
            final(self)@.fed == old(self)@.fed.push(outcome),
            final(self)@.running == (old(self)@.running && delivers(outcome)),
            r is Deliver ==> final(self)@.delivered == old(self)@.delivered.push(r->Deliver_0),
            !(r is Deliver) ==> final(self)@.delivered == old(self)@.delivered,
            !old(self)@.running ==> r is Stop,
            old(self)@.running ==> match outcome {
                ReadOutcome::Item { done: false, value: Some(v) } => r == ReaderAction::Deliver(v),
                ReadOutcome::Item { .. } => r is Stop,
                ReadOutcome::Failed(e) => {
                    let first = !old(session)@.state.is_terminal() && !old(session)@.close_requested;
                    &&& first ==> (r matches ReaderAction::CloseTransport(m) && m@ == close_reason(old(self)@.kind, e@))
                    &&& !first ==> r is Stop
                },
            },
            final(session)@.close_requested == (old(session)@.close_requested || r is CloseTransport),
            final(session)@.state == old(session)@.state,
            final(session)@.signals == old(session)@.signals,
            final(session)@.notifications == old(session)@.notifications,
            final(session)@.address == old(session)@.address,
    {
        proof {
            lemma_delivered_push(self.fed@, outcome);
        }
        let ghost before = outcome;
        self.fed = Ghost(self.fed@.push(before));
        if !self.running {
            return ReaderAction::Stop;
        }
        match outcome {
            ReadOutcome::Item { done: false, value: Some(v) } => {
                self.delivered = Ghost(self.delivered@.push(v));
                ReaderAction::Deliver(v)
            },
            ReadOutcome::Item { .. } => {
                self.running = false;
                ReaderAction::Stop
            },
            ReadOutcome::Failed(e) => {
                self.running = false;
                if session.disconnect() {
                    let mut m = self.reason_text();
                    m.append(e.as_str());
                    ReaderAction::CloseTransport(m)
                } else {
                    ReaderAction::Stop
                }
            },
        }
    }

    fn reason_text(&self) -> (r: String)
        ensures
            r@ == reason_prefix(self.kind),
    {
        match self.kind {
            ReaderKind::Datagrams => String::from_str("Failed to read incoming datagrams: "),
            ReaderKind::UnidirectionalStreams => String::from_str("Failed to read incoming unidirectional streams: "),
            ReaderKind::BidirectionalStreams => String::from_str("Failed to read incoming bidirectional streams: "),
            ReaderKind::StreamData => String::from_str("Failed to read incoming stream: "),
        }
    }
}

} // verus!
