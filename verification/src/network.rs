//! Network protocol: the message variants exchanged with peers and their
//! compact, self-describing binary encoding. The first byte tags the variant;
//! a text payload follows as a length byte and that many ASCII bytes.

use vstd::prelude::*;

use crate::chat::MAX_TEXT_LEN;

verus! {

/// A message exchanged with peers: a chat text of at most sixteen ASCII
/// characters, a typing-state change, or one side of the presence handshake.
#[derive(PartialEq, Eq, Debug)]
pub enum NetworkMessage {
    Text(Vec<char>),
    Typing(bool),
    Ping,
    Pong,
}

/// Decoding failure: the frame is truncated, has an unknown tag, or carries
/// an out-of-bounds or non-ASCII payload.
#[derive(Clone, Copy, PartialEq, Eq, Structural, Debug)]
pub enum DecodeError {
    MalformedFrame,
}

/// The abstract value of a network message.
pub enum MessageView {
    Text(Seq<char>),
    Typing(bool),
    Ping,
    Pong,
}

impl View for NetworkMessage {
    type V = MessageView;

    open spec fn view(&self) -> MessageView {
        match self {
            NetworkMessage::Text(t) => MessageView::Text(t@),
            NetworkMessage::Typing(b) => MessageView::Typing(*b),
            NetworkMessage::Ping => MessageView::Ping,
            NetworkMessage::Pong => MessageView::Pong,
        }
    }
}

/// A transportable text: at most sixteen characters, all ASCII.
pub open spec fn text_wf(t: Seq<char>) -> bool {
    &&& t.len() <= MAX_TEXT_LEN
    &&& forall|i: int| 0 <= i < t.len() ==> (#[trigger] t[i] as u32) < 128
}

/// A constructible message: its payload, if any, is transportable.
pub open spec fn message_wf(m: MessageView) -> bool {
    match m {
        MessageView::Text(t) => text_wf(t),
        _ => true,
    }
}

/// The encoding of a message: a tag byte, then for a text its length and its
/// characters as bytes, for a typing change one boolean byte.
pub open spec fn encoding(m: MessageView) -> Seq<u8> {
    match m {
        MessageView::Text(t) => seq![0u8, t.len() as u8] + t.map_values(|c: char| (c as u32) as u8),
        MessageView::Typing(b) => seq![
            1u8,
            if b {
                1u8
            } else {
                0u8
            },
        ],
        MessageView::Ping => seq![2u8],
        MessageView::Pong => seq![3u8],
    }
}

/// The message a byte sequence stands for, or nothing when it is no exact
/// encoding of any constructible message.
pub open spec fn decoded(bytes: Seq<u8>) -> Option<MessageView> {
    if bytes.len() == 0 {
        None
    } else if bytes[0] == 0 {
        if 2 <= bytes.len() && bytes[1] <= MAX_TEXT_LEN && bytes.len() == 2 + bytes[1] && (
        forall|j: int| 2 <= j < bytes.len() ==> (#[trigger] bytes[j]) < 128) {
            Some(
                MessageView::Text(
                    bytes.subrange(2, bytes.len() as int).map_values(|b: u8| b as char),
                ),
            )
        } else {
            None
        }
    } else if bytes[0] == 1 {
        if bytes.len() == 2 && (bytes[1] == 0 || bytes[1] == 1) {
            Some(MessageView::Typing(bytes[1] == 1))
        } else {
            None
        }
    } else if bytes[0] == 2 {
        if bytes.len() == 1 {
            Some(MessageView::Ping)
        } else {
            None
        }
    } else if bytes[0] == 3 {
        if bytes.len() == 1 {
            Some(MessageView::Pong)
        } else {
            None
        }
    } else {
        None
    }
}

/// Serializes a constructible message; the result is exactly `encoding`.
pub fn encode(m: &NetworkMessage) -> (r: Vec<u8>)
    requires
        message_wf(m@),
    ensures
        r@ == encoding(m@),
{
    let mut r: Vec<u8> = Vec::new();
    match m {
        NetworkMessage::Text(t) => {
            r.push(0u8);
            r.push(t.len() as u8);
            let n = t.len();
            let mut i: usize = 0;
            while i < n
                invariant
                    0 <= i <= n,
                    n == t@.len(),
                    text_wf(t@),
                    r@ == seq![0u8, t@.len() as u8] + t@.take(i as int).map_values(
                        |c: char| (c as u32) as u8,
                    ),
                decreases n - i,
            {
                let c = t[i];
                r.push((c as u32) as u8);
                proof {
                    assert(t@.take(i + 1).map_values(|c: char| (c as u32) as u8) =~= t@.take(
                        i as int,
                    ).map_values(|c: char| (c as u32) as u8).push((t@[i as int] as u32) as u8));
                }
                i += 1;
            }
            proof {
                assert(t@.take(n as int) =~= t@);
            }
        },
        NetworkMessage::Typing(b) => {
            r.push(1u8);
            r.push(
                if *b {
                    1u8
                } else {
                    0u8
                },
            );
            proof {
                assert(r@ =~= encoding(m@));
            }
        },
        NetworkMessage::Ping => {
            r.push(2u8);
            proof {
                assert(r@ =~= encoding(m@));
            }
        },
        NetworkMessage::Pong => {
            r.push(3u8);
            proof {
                assert(r@ =~= encoding(m@));
            }
        },
    }
    r
}

/// Deserializes a frame; succeeds with the message the bytes stand for
/// exactly when they are a valid encoding, and reports a malformed frame
/// otherwise.
pub fn decode(bytes: &[u8]) -> (r: Result<NetworkMessage, DecodeError>)
    ensures
        match r {
            Ok(m) => decoded(bytes@) == Some(m@) && message_wf(m@) && encoding(m@) == bytes@,
            Err(e) => decoded(bytes@) is None && e == DecodeError::MalformedFrame,
        },
{
    if bytes.len() == 0 {
        return Err(DecodeError::MalformedFrame);
    }
    let tag = bytes[0];
    if tag == 0 {
        if bytes.len() < 2 {
            return Err(DecodeError::MalformedFrame);
        }
        let len = bytes[1] as usize;
        if len > MAX_TEXT_LEN || bytes.len() != 2 + len {
            return Err(DecodeError::MalformedFrame);
        }
        let mut text: Vec<char> = Vec::new();
        let mut i: usize = 0;
        while i < len
            invariant
                0 <= i <= len,
                len == bytes@[1],
                len <= MAX_TEXT_LEN,
                bytes@.len() == 2 + len,
                bytes@[0] == 0,
                forall|j: int| 2 <= j < 2 + i ==> (#[trigger] bytes@[j]) < 128,
                text@ == bytes@.subrange(2, 2 + i as int).map_values(|b: u8| b as char),
                text_wf(text@),
            decreases len - i,
        {
            let b = bytes[2 + i];
            if b >= 128 {
                return Err(DecodeError::MalformedFrame);
            }
            text.push(b as char);
            proof {
                assert(bytes@.subrange(2, 2 + (i + 1 as int)).map_values(|b: u8| b as char)
                    =~= bytes@.subrange(2, 2 + i as int).map_values(|b: u8| b as char).push(
                    bytes@[2 + i as int] as char,
                ));
            }
            i += 1;
        }
        let m = NetworkMessage::Text(text);
        proof {
            assert(bytes@.subrange(2, bytes@.len() as int) =~= bytes@.subrange(2, 2 + len as int));
            assert(encoding(m@) =~= bytes@);
        }
        Ok(m)
    } else if tag == 1 {
        if bytes.len() != 2 {
            return Err(DecodeError::MalformedFrame);
        }
        let b = bytes[1];
        if b == 0 {
            let m = NetworkMessage::Typing(false);
            proof {
                assert(encoding(m@) =~= bytes@);
            }
            Ok(m)
        } else if b == 1 {
            let m = NetworkMessage::Typing(true);
            proof {
                assert(encoding(m@) =~= bytes@);
            }
            Ok(m)
        } else {
            Err(DecodeError::MalformedFrame)
        }
    } else if tag == 2 {
        if bytes.len() == 1 {
            let m = NetworkMessage::Ping;
            proof {
                assert(encoding(m@) =~= bytes@);
            }
            Ok(m)
        } else {
            Err(DecodeError::MalformedFrame)
        }
    } else if tag == 3 {
        if bytes.len() == 1 {
            let m = NetworkMessage::Pong;
            proof {
                assert(encoding(m@) =~= bytes@);
            }
            Ok(m)
        } else {
            Err(DecodeError::MalformedFrame)
        }
    } else {
        Err(DecodeError::MalformedFrame)
    }
}

/// An ASCII character survives the trip through its byte.
proof fn lemma_ascii_byte_char(c: char)
    requires
        (c as u32) < 128,
    ensures
        ((c as u32) as u8) as char == c,
{
}

/// Round trip: every constructible message comes back unchanged from its own
/// encoding.
pub proof fn lemma_round_trip(m: MessageView)
    requires
        message_wf(m),
    ensures
        decoded(encoding(m)) == Some(m),
{
    let bytes = encoding(m);
    match m {
        MessageView::Text(t) => {
            assert(bytes.len() == 2 + t.len());
            assert forall|j: int| 2 <= j < bytes.len() implies (#[trigger] bytes[j]) < 128 by {
                assert((t[j - 2] as u32) < 128);
                assert(bytes[j] == (t[j - 2] as u32) as u8);
            }
            assert(bytes[1] == t.len());
            let back = bytes.subrange(2, bytes.len() as int).map_values(|b: u8| b as char);
            assert forall|i: int| 0 <= i < t.len() implies back[i] == t[i] by {
                assert(bytes.subrange(2, bytes.len() as int)[i] == bytes[2 + i]);
                assert(back[i] == bytes[2 + i] as char);
                assert(bytes[2 + i] == (t[i] as u32) as u8);
                assert((t[i] as u32) < 128);
                lemma_ascii_byte_char(t[i]);
            }
            assert(back =~= t);
        },
        _ => {
        },
    }
}

/// Exactness: a frame that decodes at all is the encoding of the decoded
/// message, which is itself constructible.
pub proof fn lemma_decoded_frames_are_encodings(bytes: Seq<u8>, m: MessageView)
    requires
        decoded(bytes) == Some(m),
    ensures
        message_wf(m),
        encoding(m) == bytes,
{
    if bytes[0] == 0 {
        let t = bytes.subrange(2, bytes.len() as int).map_values(|b: u8| b as char);
        assert forall|i: int| 0 <= i < t.len() implies (#[trigger] t[i] as u32) < 128 by {
            assert(bytes[2 + i] < 128);
        }
        assert(encoding(m) =~= bytes);
    } else {
        assert(encoding(m) =~= bytes);
    }
}

} // verus!
