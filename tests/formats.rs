use yew_webtransport::{FormatError, Json, Payload};

#[test]
fn text_round_trip() {
    let p = Payload::Text("{\"a\":1}".to_string());
    assert_eq!(p.into_text(), Ok("{\"a\":1}".to_string()));
}

#[test]
fn binary_round_trip() {
    let p = Payload::Binary(vec![0, 255, 7]);
    assert_eq!(p.into_binary(), Ok(vec![0, 255, 7]));
}

#[test]
fn binary_for_text_reader_is_refused() {
    let p = Payload::Binary(b"ping".to_vec());
    assert_eq!(p.into_text(), Err(FormatError::ReceivedBinaryForText));
}

#[test]
fn text_for_binary_reader_is_refused() {
    let p = Payload::Text("ping".to_string());
    assert_eq!(p.into_binary(), Err(FormatError::ReceivedTextForBinary));
}

#[test]
fn binary_cannot_be_encoded_as_text() {
    assert_eq!(
        Payload::Binary(vec![1]).encode_as_text(),
        Err(FormatError::CantEncodeBinaryAsText)
    );
    assert_eq!(Payload::Text("t".to_string()).encode_as_text(), Ok("t".to_string()));
}

#[test]
fn format_error_messages() {
    assert_eq!(FormatError::ReceivedTextForBinary.message(), "received text for a binary format");
    assert_eq!(FormatError::ReceivedBinaryForText.message(), "received binary for a text format");
    assert_eq!(
        FormatError::CantEncodeBinaryAsText.message(),
        "trying to encode a binary format as Text"
    );
}

#[test]
fn json_wraps_a_value() {
    let j = Json(5u8);
    assert_eq!(j.0, 5);
}
