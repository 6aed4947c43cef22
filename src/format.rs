//! The codec boundary: payloads that travel as text or as binary, and the
//! errors of decoding one kind as the other.
//!
//! Serialisation itself (e.g. JSON) is left to the host; the library only
//! checks that a payload has the kind its reader expects.

use vstd::prelude::*;

verus! {

/// Represents formatting errors.
#[derive(Clone, Copy, Debug, PartialEq, Eq)]
pub enum FormatError {
    /// Received text for a binary format, e.g. someone sending text
    /// on a WebTransport that is using a binary serialization format, like Cbor.
    ReceivedTextForBinary,
    /// Received binary for a text format, e.g. someone sending binary
    /// on a WebTransport that is using a text serialization format, like Json.
    ReceivedBinaryForText,
    /// Trying to encode a binary format as text, e.g., trying to
    /// store a Cbor encoded value in a String.
    CantEncodeBinaryAsText,
}

pub open spec fn format_error_text(e: FormatError) -> Seq<char> {
    match e {
        FormatError::ReceivedTextForBinary => "received text for a binary format"@,
        FormatError::ReceivedBinaryForText => "received binary for a text format"@,
        FormatError::CantEncodeBinaryAsText => "trying to encode a binary format as Text"@,
    }
}

impl FormatError {
    /// The human-readable text of the error.
    pub fn message(&self) -> (r: String)
        ensures
            r@ == format_error_text(*self),
    {
        match self {
            FormatError::ReceivedTextForBinary => String::from_str("received text for a binary format"),
            FormatError::ReceivedBinaryForText => String::from_str("received binary for a text format"),
            FormatError::CantEncodeBinaryAsText => String::from_str("trying to encode a binary format as Text"),
        }
    }
}

/// A value in the JSON format; the host encodes and decodes it.
#[derive(Debug)]
pub struct Json<T>(pub T);

/// A payload as it travels: as text or as binary.
#[derive(Clone, Debug, PartialEq, Eq)]
pub enum Payload {
    Text(String),
    Binary(Vec<u8>),
}

/// What a reader that decodes text gets from a payload.
pub open spec fn text_of(p: Payload) -> Result<Seq<char>, FormatError> {
    match p {
        Payload::Text(s) => Ok(s@),
        Payload::Binary(_) => Err(FormatError::ReceivedBinaryForText),
    }
}

/// What a reader that decodes binary gets from a payload.
pub open spec fn binary_of(p: Payload) -> Result<Seq<u8>, FormatError> {
    match p {
        Payload::Binary(b) => Ok(b@),
        Payload::Text(_) => Err(FormatError::ReceivedTextForBinary),
    }
}

impl Payload {
    /// The text of a received payload; binary is refused.
    pub fn into_text(self) -> (r: Result<String, FormatError>)
        ensures
            match text_of(self) {
                Ok(s) => r matches Ok(t) && t@ == s,
                Err(e) => r == Err::<String, FormatError>(e),
            },
    {
        match self {
            Payload::Text(s) => Ok(s),
            Payload::Binary(_) => Err(FormatError::ReceivedBinaryForText),
        }
    }

    /// The bytes of a received payload; text is refused.
    pub fn into_binary(self) -> (r: Result<Vec<u8>, FormatError>)
        ensures
            match binary_of(self) {
                Ok(b) => r matches Ok(v) && v@ == b,
                Err(e) => r == Err::<Vec<u8>, FormatError>(e),
            },
    {
        match self {
            Payload::Binary(b) => Ok(b),
            Payload::Text(_) => Err(FormatError::ReceivedTextForBinary),
        }
    }

    /// The text to send for an encoded payload; the output of a binary
    /// format cannot be sent as text.
    pub fn encode_as_text(self) -> (r: Result<String, FormatError>)
        ensures
            match self {
                Payload::Text(s) => r matches Ok(t) && t@ == s@,
                Payload::Binary(_) => r == Err::<String, FormatError>(FormatError::CantEncodeBinaryAsText),
            },
    {
        match self {
            Payload::Text(s) => Ok(s),
            Payload::Binary(_) => Err(FormatError::CantEncodeBinaryAsText),
        }
    }
}

/// Encoding a value as a payload of either kind and decoding it with a
/// reader of the same kind gives back the value.
pub proof fn lemma_round_trip(p: Payload)
    ensures
        p matches Payload::Text(s) ==> text_of(p) == Ok::<Seq<char>, FormatError>(s@),
        p matches Payload::Binary(b) ==> binary_of(p) == Ok::<Seq<u8>, FormatError>(b@),
{
}

/// A binary payload handed to a reader that decodes text is refused with
/// `ReceivedBinaryForText`, and text handed to a binary reader with
/// `ReceivedTextForBinary`.
pub proof fn lemma_kind_mismatch(p: Payload)
    ensures
        p is Binary ==> text_of(p) == Err::<Seq<char>, FormatError>(FormatError::ReceivedBinaryForText),
        p is Text ==> binary_of(p) == Err::<Seq<u8>, FormatError>(FormatError::ReceivedTextForBinary),
{
}

} // verus!
