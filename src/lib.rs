//! A client-side session layer for WebTransport connections.
//!
//! The library holds the decisions of a session: its lifecycle and the
//! status notifications it emits, the channel readers that pump inbound
//! data, the step plans of the three senders, and the text/binary payload
//! checks of the codec boundary. The host drives the real transport and
//! hands each outcome back to these state machines.

pub mod format;
pub mod lifecycle;
pub mod webtransport;
pub mod reader;
pub mod send;

pub use format::{FormatError, Json, Payload};
pub use lifecycle::{SessionState, TransportSignal, WebTransportStatus};
pub use reader::{ChannelReader, ReadOutcome, ReaderAction, ReaderKind};
pub use send::{SendError, SendKind, SendOperation, SendStep};
pub use webtransport::{WebTransportError, WebTransportService, WebTransportTask};
