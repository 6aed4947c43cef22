//! The three senders, as plans of steps that the host performs in order.
//!
//! A send operation says which step comes next; the host performs it on the
//! transport and reports how it went. Sends share no state beyond the
//! transport, so each call gets an operation of its own.

use vstd::prelude::*;
use crate::webtransport::WebTransportTask;

verus! {

/// The channel a payload is sent on.
#[derive(Clone, Copy, Debug, PartialEq, Eq)]
pub enum SendKind {
    Datagram,
    UnidirectionalStream,
    BidirectionalStream,
}

/// One step of a send, performed by the host.
#[derive(Clone, Copy, Debug, PartialEq, Eq)]
pub enum SendStep {
    /// Open a new outgoing stream of the operation's kind.
    OpenStream,
    /// Start draining the response half of the new stream.
    StartResponseDrain,
    /// Acquire the write capability of the channel.
    AcquireWriter,
    /// Write the whole payload as one chunk.
    WritePayload,
    /// Release the write capability.
    ReleaseWriter,
    /// Close the outgoing stream.
    CloseStream,
    /// Close the write half through the writer.
    CloseWriter,
    /// Wait until the response drain has seen the end of the response.
    AwaitResponseDrain,
}

/// A step that failed, with the diagnostic text of the failure.
#[derive(Debug, PartialEq, Eq)]
pub struct SendError {
    pub step: SendStep,
    pub detail: String,
}

/// The steps of a send of `kind`, in the order they are performed.
pub open spec fn plan(kind: SendKind) -> Seq<SendStep> {
    match kind {
        SendKind::Datagram => seq![SendStep::AcquireWriter, SendStep::WritePayload, SendStep::ReleaseWriter],
        SendKind::UnidirectionalStream => seq![
            SendStep::OpenStream,
            SendStep::AcquireWriter,
            SendStep::WritePayload,
            SendStep::ReleaseWriter,
            SendStep::CloseStream,
        ],
        SendKind::BidirectionalStream => seq![
            SendStep::OpenStream,
            SendStep::StartResponseDrain,
            SendStep::AcquireWriter,
            SendStep::WritePayload,
            SendStep::CloseWriter,
            SendStep::AwaitResponseDrain,
        ],
    }
}

/// The steps still performed after `failed` failed: the datagram writer is
/// released whatever the write did; every other failure ends the send.
pub open spec fn cleanup(kind: SendKind, failed: SendStep) -> Seq<SendStep> {
    if kind == SendKind::Datagram && failed == SendStep::WritePayload {
        seq![SendStep::ReleaseWriter]
    } else {
        Seq::empty()
    }
}

/// What a send operation is, abstractly.
pub struct SendView {
    pub kind: SendKind,
    pub payload: Seq<u8>,
    /// The steps performed so far, in order.
    pub performed: Seq<SendStep>,
    /// The steps still to perform, in order.
    pub remaining: Seq<SendStep>,
    /// The first failure, if any step failed.
    pub error: Option<(SendStep, Seq<char>)>,
}

/// One send in progress.
pub struct SendOperation {
    kind: SendKind,
    payload: Vec<u8>,
    steps: Vec<SendStep>,
    next: usize,
    error: Option<SendError>,
    performed: Ghost<Seq<SendStep>>,
}

impl View for SendOperation {
    type V = SendView;

    closed spec fn view(&self) -> SendView {
        SendView {
            kind: self.kind,
            payload: self.payload@,
            performed: self.performed@,
            remaining: self.steps@.skip(self.next as int),
            error: match self.error {
                Some(e) => Some((e.step, e.detail@)),
                None => None,
            },
        }
    }
}

fn plan_steps(kind: SendKind) -> (r: Vec<SendStep>)
    ensures
        r@ == plan(kind),
{
    match kind {
        SendKind::Datagram => vec![SendStep::AcquireWriter, SendStep::WritePayload, SendStep::ReleaseWriter],
        SendKind::UnidirectionalStream => vec![
            SendStep::OpenStream,
            SendStep::AcquireWriter,
            SendStep::WritePayload,
            SendStep::ReleaseWriter,
            SendStep::CloseStream,
        ],
        SendKind::BidirectionalStream => vec![
            SendStep::OpenStream,
            SendStep::StartResponseDrain,
            SendStep::AcquireWriter,
            SendStep::WritePayload,
            SendStep::CloseWriter,
            SendStep::AwaitResponseDrain,
        ],
    }
}

impl SendOperation {
    /// Without a failure, the steps performed and those remaining make up
    /// the plan of the operation's kind.
    pub closed spec fn wf(&self) -> bool {
        &&& self.next <= self.steps@.len()
        &&& self.error is None ==> self@.performed + self@.remaining == plan(self.kind)
    }

    /// A new send of `payload` on a channel of `kind`, with no step performed.
    pub fn new(kind: SendKind, payload: Vec<u8>) -> (r: SendOperation)
        ensures
            r.wf(),
            r@.kind == kind,
            r@.payload == payload@,
            r@.performed.len() == 0,
            r@.remaining == plan(kind),
            r@.error is None,
    {
        let op = SendOperation {
            kind,
            payload,
            steps: plan_steps(kind),
            next: 0,
            error: None,
            performed: Ghost(Seq::empty()),
        };
        assert(op@.remaining =~= plan(kind));
        assert(op@.performed + op@.remaining =~= plan(kind));
        op
    }

    /// The channel the payload goes on.
    pub fn kind(&self) -> (r: SendKind)
        ensures
            r == self@.kind,
    {
        self.kind
    }

    /// The payload to write.
    pub fn payload(&self) -> (r: &Vec<u8>)
        ensures
            r@ == self@.payload,
    {
        &self.payload
    }

    /// The step to perform now, or `None` once the send has finished.
    pub fn next_step(&self) -> (r: Option<SendStep>)
        requires
            self.wf(),
        ensures
            self@.remaining.len() == 0 ==> r is None,
            self@.remaining.len() > 0 ==> r == Some(self@.remaining[0]),
    {
        if self.next < self.steps.len() {
            Some(self.steps[self.next])
        } else {
            None
        }
    }

    /// Records how the step returned by [`SendOperation::next_step`] went.
    ///
    /// On success the send moves to its next step. The first failure is
    /// kept and ends the send, but for the release of a datagram writer,
    /// which still follows a failed write.
    pub fn complete_step(&mut self, result: Result<(), String>)
        requires
            old(self).wf(),
            old(self)@.remaining.len() > 0,
        ensures
            final(self).wf(),
            final(self)@.kind == old(self)@.kind,
            final(self)@.payload == old(self)@.payload,
            final(self)@.performed == old(self)@.performed.push(old(self)@.remaining[0]),
            match result {
                Ok(_) => final(self)@.remaining == old(self)@.remaining.drop_first()
                    && final(self)@.error == old(self)@.error,
                Err(e) => if old(self)@.error is None {
                    &&& final(self)@.error == Some((old(self)@.remaining[0], e@))
                    &&& final(self)@.remaining == cleanup(old(self)@.kind, old(self)@.remaining[0])
                } else {
                    &&& final(self)@.error == old(self)@.error
                    &&& final(self)@.remaining == old(self)@.remaining.drop_first()
                },
            },
    {
        let count = self.steps.len();
        let step = self.steps[self.next];
        proof {
            assert(self.steps@.skip(self.next as int)[0] == step);
            assert(self.steps@.skip(self.next as int + 1) =~= self.steps@.skip(self.next as int).drop_first());
        }
        self.performed = Ghost(self.performed@.push(step));
        match result {
            Ok(_) => {
                self.next = self.next + 1;
                proof {
                    if self.error is None {
                        let before = old(self)@;
                        assert(before.performed + before.remaining == plan(self.kind));
                        assert(before.performed + before.remaining =~= before.performed.push(step) + before.remaining.drop_first());
                        assert(self@.performed + self@.remaining =~= plan(self.kind));
                    }
                }
            },
            Err(e) => {
                if self.error.is_none() {
                    self.error = Some(SendError { step, detail: e });
                    if matches!(self.kind, SendKind::Datagram) && matches!(step, SendStep::WritePayload) {
                        self.steps = vec![SendStep::ReleaseWriter];
                    } else {
                        self.steps = Vec::new();
                    }
                    self.next = 0;
                    proof {
                        assert(self@.remaining =~= cleanup(self.kind, step));
                    }
                } else {
                    self.next = self.next + 1;
                }
            },
        }
    }

    /// The result of the send once every step is done: `Ok` exactly when
    /// no step failed, in which case every step of the plan was performed
    /// in order. `None` while a step remains.
    pub fn outcome(&self) -> (r: Option<Result<(), SendError>>)
        requires
            self.wf(),
        ensures
            self@.remaining.len() > 0 ==> r is None,
            self@.remaining.len() == 0 ==> match self@.error {
                None => r == Some(Ok::<(), SendError>(())) && self@.performed == plan(self@.kind),
                Some((step, detail)) => r matches Some(Err(e)) && e.step == step && e.detail@ == detail,
            },
    {
        if self.next < self.steps.len() {
            None
        } else {
            match &self.error {
                None => {
                    assert(self@.performed + self@.remaining =~= self@.performed);
                    Some(Ok(()))
                },
                Some(e) => Some(Err(SendError { step: e.step, detail: e.detail.clone() })),
            }
        }
    }
}

impl WebTransportTask {
    /// Sends data as one datagram.
    pub fn send_datagram(data: Vec<u8>) -> (r: SendOperation)
        ensures
            r.wf(),
            r@.kind == SendKind::Datagram,
            r@.payload == data@,
            r@.performed.len() == 0,
            r@.remaining == plan(SendKind::Datagram),
            r@.error is None,
    {
        SendOperation::new(SendKind::Datagram, data)
    }

    /// Sends data on a new unidirectional stream, which is then closed.
    pub fn send_unidirectional_stream(data: Vec<u8>) -> (r: SendOperation)
        ensures
            r.wf(),
            r@.kind == SendKind::UnidirectionalStream,
            r@.payload == data@,
            r@.performed.len() == 0,
            r@.remaining == plan(SendKind::UnidirectionalStream),
            r@.error is None,
    {
        SendOperation::new(SendKind::UnidirectionalStream, data)
    }

    /// Sends data on a new bidirectional stream and drains the response.
    pub fn send_bidirectional_stream(data: Vec<u8>) -> (r: SendOperation)
        ensures
            r.wf(),
            r@.kind == SendKind::BidirectionalStream,
            r@.payload == data@,
            r@.performed.len() == 0,
            r@.remaining == plan(SendKind::BidirectionalStream),
            r@.error is None,
    {
        SendOperation::new(SendKind::BidirectionalStream, data)
    }
}

} // verus!
