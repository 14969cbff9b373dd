//! The wire format of the board protocol.
//!
//! Every message starts with a one-byte tag that fixes its length, so a
//! receiver can tell an incomplete message from a malformed one:
//!
//! | message       | bytes                                   |
//! |---------------|-----------------------------------------|
//! | `InitBoard`   | `0`                                     |
//! | `Ping`        | `1`, sequence (u32, little endian)      |
//! | `ButtonPress` | `2`, button id, millis (u32, little endian) |
//! | `LedUpdate`   | `3`, button id, `0` (off) or `1` (on)   |
//! | `InitReactionGame` | `4`, configuration (u32, little endian) |
//!
//! Integers are fixed-width. This is the board's own format: it is not
//! postcard's serde encoding (which writes integers as varints), so the peer
//! must speak this format.
use vstd::prelude::*;

verus! {

/// The largest number of bytes an encoded message may take.
pub const MAX_MESSAGE_LEN: usize = 30;

pub const TAG_INIT_BOARD: u8 = 0;
pub const TAG_PING: u8 = 1;
pub const TAG_BUTTON_PRESS: u8 = 2;
pub const TAG_LED_UPDATE: u8 = 3;
pub const TAG_INIT_REACTION_GAME: u8 = 4;

/// A button press reported to the game controller, timed relative to the
/// last board reset.
#[derive(Clone, Copy, Debug, PartialEq, Eq, Structural)]
pub struct ButtonPress {
    pub button_id: u8,
    pub millis_since_init: u32,
}

/// A command from the game controller to switch one LED.
#[derive(Clone, Copy, Debug, PartialEq, Eq, Structural)]
pub struct LedUpdate {
    pub button_id: u8,
    pub on: bool,
}

#[derive(Clone, Copy, Debug, PartialEq, Eq, Structural)]
pub enum Message {
    /// Reset of the board: the game clock starts anew.
    InitBoard,
    /// Liveness probe carrying a counter.
    Ping(u32),
    /// Sent by the board only.
    ButtonPress(ButtonPress),
    /// Received by the board only.
    LedUpdate(LedUpdate),
    /// Reset of the board for a reaction game; the configuration word is
    /// carried as it is and not read by the board.
    InitReactionGame(u32),
}

#[derive(Clone, Copy, Debug, PartialEq, Eq, Structural)]
pub enum DecodeError {
    /// The bytes are a strict prefix of a message: more are needed.
    Incomplete,
    /// The first byte is not the tag of any message.
    UnknownTag,
    /// A field holds a value that its type does not have.
    InvalidValue,
}

/// The four bytes of `x`, least significant first.
pub open spec fn le_bytes(x: u32) -> Seq<u8> {
    seq![
        (x & 0xff) as u8,
        ((x >> 8u32) & 0xff) as u8,
        ((x >> 16u32) & 0xff) as u8,
        ((x >> 24u32) & 0xff) as u8,
    ]
}

/// The `u32` whose little-endian bytes are `b0 .. b3`.
pub open spec fn from_le(b0: u8, b1: u8, b2: u8, b3: u8) -> u32 {
    (b0 as u32) | ((b1 as u32) << 8u32) | ((b2 as u32) << 16u32) | ((b3 as u32) << 24u32)
}

/// The bytes that stand for `m` on the wire.
pub open spec fn encoding(m: Message) -> Seq<u8> {
    match m {
        Message::InitBoard => seq![TAG_INIT_BOARD],
        Message::Ping(n) => seq![TAG_PING] + le_bytes(n),
        Message::ButtonPress(p) => seq![TAG_BUTTON_PRESS, p.button_id] + le_bytes(
            p.millis_since_init,
        ),
        Message::LedUpdate(u) => seq![TAG_LED_UPDATE, u.button_id, if u.on { 1u8 } else { 0u8 }],
        Message::InitReactionGame(c) => seq![TAG_INIT_REACTION_GAME] + le_bytes(c),
    }
}

/// What `decode` makes of the bytes `s`: the message at the front of `s`
/// (bytes after it are not looked at), or why there is none.
pub open spec fn decoded(s: Seq<u8>) -> Result<Message, DecodeError> {
    if s.len() == 0 {
        Err(DecodeError::Incomplete)
    } else if s[0] == TAG_INIT_BOARD {
        Ok(Message::InitBoard)
    } else if s[0] == TAG_PING {
        if s.len() < 5 {
            Err(DecodeError::Incomplete)
        } else {
            Ok(Message::Ping(from_le(s[1], s[2], s[3], s[4])))
        }
    } else if s[0] == TAG_BUTTON_PRESS {
        if s.len() < 6 {
            Err(DecodeError::Incomplete)
        } else {
            Ok(
                Message::ButtonPress(
                    ButtonPress { button_id: s[1], millis_since_init: from_le(s[2], s[3], s[4], s[5]) },
                ),
            )
        }
    } else if s[0] == TAG_LED_UPDATE {
        if s.len() < 3 {
            Err(DecodeError::Incomplete)
        } else if s[2] == 0 {
            Ok(Message::LedUpdate(LedUpdate { button_id: s[1], on: false }))
        } else if s[2] == 1 {
            Ok(Message::LedUpdate(LedUpdate { button_id: s[1], on: true }))
        } else {
            Err(DecodeError::InvalidValue)
        }
    } else if s[0] == TAG_INIT_REACTION_GAME {
        if s.len() < 5 {
            Err(DecodeError::Incomplete)
        } else {
            Ok(Message::InitReactionGame(from_le(s[1], s[2], s[3], s[4])))
        }
    } else {
        Err(DecodeError::UnknownTag)
    }
}

proof fn lemma_le_bytes_inverse(x: u32)
    ensures
        from_le(
            (x & 0xff) as u8,
            ((x >> 8u32) & 0xff) as u8,
            ((x >> 16u32) & 0xff) as u8,
            ((x >> 24u32) & 0xff) as u8,
        ) == x,
{
    assert(((((x & 0xff) as u8) as u32) | (((((x >> 8u32) & 0xff) as u8) as u32) << 8u32) | (((((x
        >> 16u32) & 0xff) as u8) as u32) << 16u32) | (((((x >> 24u32) & 0xff) as u8) as u32)
        << 24u32)) == x) by (bit_vector);
}

/// Encodings have a bounded length.
pub proof fn lemma_encoding_len(m: Message)
    ensures
        1 <= encoding(m).len() <= 6,
        encoding(m).len() <= MAX_MESSAGE_LEN,
{
}

/// Decoding ignores whatever follows a complete message: an encoding
/// followed by any bytes decodes to the encoded message.
pub proof fn lemma_decode_encoding_then(m: Message, rest: Seq<u8>)
    ensures
        decoded(encoding(m) + rest) == Ok::<Message, DecodeError>(m),
{
    let s = encoding(m) + rest;
    match m {
        Message::InitBoard => {},
        Message::Ping(n) => {
            lemma_le_bytes_inverse(n);
            assert(s[1] == le_bytes(n)[0] && s[2] == le_bytes(n)[1] && s[3] == le_bytes(n)[2]
                && s[4] == le_bytes(n)[3]);
        },
        Message::ButtonPress(p) => {
            lemma_le_bytes_inverse(p.millis_since_init);
            let b = le_bytes(p.millis_since_init);
            assert(s[1] == p.button_id);
            assert(s[2] == b[0] && s[3] == b[1] && s[4] == b[2] && s[5] == b[3]);
        },
        Message::LedUpdate(u) => {
            assert(s[1] == u.button_id);
        },
        Message::InitReactionGame(c) => {
            lemma_le_bytes_inverse(c);
            assert(s[1] == le_bytes(c)[0] && s[2] == le_bytes(c)[1] && s[3] == le_bytes(c)[2]
                && s[4] == le_bytes(c)[3]);
        },
    }
}

/// Round trip: decoding the encoding of any message gives that message back.
pub proof fn lemma_round_trip(m: Message)
    ensures
        decoded(encoding(m)) == Ok::<Message, DecodeError>(m),
{
    lemma_decode_encoding_then(m, Seq::empty());
    assert(encoding(m) + Seq::<u8>::empty() =~= encoding(m));
}

/// Prefix safety: every strict prefix of an encoding decodes to
/// `Incomplete`, never to a message.
pub proof fn lemma_strict_prefix_incomplete(m: Message, n: nat)
    requires
        n < encoding(m).len(),
    ensures
        decoded(encoding(m).take(n as int)) == Err::<Message, DecodeError>(DecodeError::Incomplete),
{
    let p = encoding(m).take(n as int);
    if n > 0 {
        assert(p[0] == encoding(m)[0]);
    }
}

/// Writes the little-endian bytes of `x` at the end of `out`.
fn push_le(out: &mut Vec<u8>, x: u32)
    ensures
        final(out)@ == old(out)@ + le_bytes(x),
{
    out.push((x & 0xff) as u8);
    out.push(((x >> 8u32) & 0xff) as u8);
    out.push(((x >> 16u32) & 0xff) as u8);
    out.push(((x >> 24u32) & 0xff) as u8);
    assert(final(out)@ =~= old(out)@ + le_bytes(x));
}

/// Encodes `m` for the wire.
pub fn encode(m: &Message) -> (r: Vec<u8>)
    ensures
        r@ == encoding(*m),
        r@.len() <= MAX_MESSAGE_LEN,
{
    let mut out: Vec<u8> = Vec::new();
    match m {
        Message::InitBoard => {
            out.push(TAG_INIT_BOARD);
        },
        Message::Ping(n) => {
            out.push(TAG_PING);
            push_le(&mut out, *n);
        },
        Message::ButtonPress(p) => {
            out.push(TAG_BUTTON_PRESS);
            out.push(p.button_id);
            push_le(&mut out, p.millis_since_init);
        },
        Message::LedUpdate(u) => {
            out.push(TAG_LED_UPDATE);
            out.push(u.button_id);
            out.push(if u.on { 1u8 } else { 0u8 });
        },
        Message::InitReactionGame(c) => {
            out.push(TAG_INIT_REACTION_GAME);
            push_le(&mut out, *c);
        },
    }
    assert(out@ =~= encoding(*m));
    out
}

fn read_le(b0: u8, b1: u8, b2: u8, b3: u8) -> (r: u32)
    ensures
        r == from_le(b0, b1, b2, b3),
{
    (b0 as u32) | ((b1 as u32) << 8u32) | ((b2 as u32) << 16u32) | ((b3 as u32) << 24u32)
}

/// Decodes the message at the front of `bytes`. Bytes after a complete
/// message are ignored; a strict prefix of a message is `Incomplete`.
pub fn decode(bytes: &[u8]) -> (r: Result<Message, DecodeError>)
    ensures
        r == decoded(bytes@),
{
    let len = bytes.len();
    if len == 0 {
        return Err(DecodeError::Incomplete);
    }
    let tag = bytes[0];
    if tag == TAG_INIT_BOARD {
        Ok(Message::InitBoard)
    } else if tag == TAG_PING {
        if len < 5 {
            Err(DecodeError::Incomplete)
        } else {
            Ok(Message::Ping(read_le(bytes[1], bytes[2], bytes[3], bytes[4])))
        }
    } else if tag == TAG_BUTTON_PRESS {
        if len < 6 {
            Err(DecodeError::Incomplete)
        } else {
            Ok(
                Message::ButtonPress(
                    ButtonPress {
                        button_id: bytes[1],
                        millis_since_init: read_le(bytes[2], bytes[3], bytes[4], bytes[5]),
                    },
                ),
            )
        }
    } else if tag == TAG_LED_UPDATE {
        if len < 3 {
            Err(DecodeError::Incomplete)
        } else if bytes[2] == 0 {
            Ok(Message::LedUpdate(LedUpdate { button_id: bytes[1], on: false }))
        } else if bytes[2] == 1 {
            Ok(Message::LedUpdate(LedUpdate { button_id: bytes[1], on: true }))
        } else {
            Err(DecodeError::InvalidValue)
        }
    } else if tag == TAG_INIT_REACTION_GAME {
        if len < 5 {
            Err(DecodeError::Incomplete)
        } else {
            Ok(Message::InitReactionGame(read_le(bytes[1], bytes[2], bytes[3], bytes[4])))
        }
    } else {
        Err(DecodeError::UnknownTag)
    }
}

} // verus!
