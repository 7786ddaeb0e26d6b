use morse_chat::network::{decode, encode, DecodeError, NetworkMessage};

fn text(s: &str) -> Vec<char> {
    s.chars().collect()
}

#[test]
fn round_trip_text() {
    let m = NetworkMessage::Text(text("SOS"));
    assert_eq!(decode(&encode(&m)), Ok(m));
}

#[test]
fn round_trip_empty_text() {
    let m = NetworkMessage::Text(Vec::new());
    assert_eq!(decode(&encode(&m)), Ok(m));
}

#[test]
fn round_trip_longest_text() {
    let m = NetworkMessage::Text(text("ABCDEFGHIJKLMNOP"));
    assert_eq!(decode(&encode(&m)), Ok(m));
}

#[test]
fn round_trip_typing() {
    let t = NetworkMessage::Typing(true);
    assert_eq!(decode(&encode(&t)), Ok(t));
    let f = NetworkMessage::Typing(false);
    assert_eq!(decode(&encode(&f)), Ok(f));
}

#[test]
fn round_trip_presence() {
    assert_eq!(decode(&encode(&NetworkMessage::Ping)), Ok(NetworkMessage::Ping));
    assert_eq!(decode(&encode(&NetworkMessage::Pong)), Ok(NetworkMessage::Pong));
}

#[test]
fn exact_wire_bytes() {
    assert_eq!(encode(&NetworkMessage::Text(text("HI"))), vec![0u8, 2, b'H', b'I']);
    assert_eq!(encode(&NetworkMessage::Typing(true)), vec![1u8, 1]);
    assert_eq!(encode(&NetworkMessage::Typing(false)), vec![1u8, 0]);
    assert_eq!(encode(&NetworkMessage::Ping), vec![2u8]);
    assert_eq!(encode(&NetworkMessage::Pong), vec![3u8]);
}

#[test]
fn malformed_frames_are_rejected() {
    let bad: [&[u8]; 9] = [
        &[],              // empty
        &[9],             // unknown tag
        &[0],             // text without a length
        &[0, 3, b'A'],    // length beyond the frame
        &[0, 1, b'A', b'B'],  // trailing byte after the payload
        &[0, 17, 0, 0, 0, 0, 0, 0, 0, 0, 0, 0, 0, 0, 0, 0, 0, 0, 0],  // length over the cap
        &[0, 1, 200],     // non-ASCII payload byte
        &[1, 2],          // typing with a byte that is no boolean
        &[2, 0],          // ping with a trailing byte
    ];
    for frame in bad {
        assert_eq!(decode(frame), Err(DecodeError::MalformedFrame));
    }
}

#[test]
fn decoded_text_is_exact() {
    match decode(&[0, 3, b'S', b'O', b'S']) {
        Ok(NetworkMessage::Text(t)) => assert_eq!(t, text("SOS")),
        other => panic!("expected a text message, got {:?}", other),
    }
}
