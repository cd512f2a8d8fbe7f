//! The messages the two peers exchange, and their byte encoding: a tag byte
//! (0 move, 1 acknowledge, 2 reject), then for a move four bytes: from file,
//! from rank, to file, to rank.
use vstd::prelude::*;
use crate::board::BoardPosition;

verus! {

/// A message between the peers: a proposed move, or the answer to one.
#[derive(Clone, Copy, Debug, PartialEq, Eq, Structural)]
pub enum Packet {
    Move(BoardPosition, BoardPosition),
    AckMove,
    RejMove,
}

/// Why bytes do not decode to a packet.
#[derive(Clone, Copy, Debug, PartialEq, Eq, Structural)]
pub enum BadPacketError {
    /// The first byte is none of the three tags.
    UnknownTag(u8),
    /// The bytes end before the message does.
    Truncated,
}

/// Every coordinate of the packet fits in one byte.
pub open spec fn fits_wire(p: Packet) -> bool {
    match p {
        Packet::Move(a, b) => a.0 < 256 && a.1 < 256 && b.0 < 256 && b.1 < 256,
        _ => true,
    }
}

/// The bytes of a packet: its tag, then for a move the four coordinates.
pub open spec fn encode(p: Packet) -> Seq<u8> {
    match p {
        Packet::Move(a, b) => seq![0u8, a.0 as u8, a.1 as u8, b.0 as u8, b.1 as u8],
        Packet::AckMove => seq![1u8],
        Packet::RejMove => seq![2u8],
    }
}

/// The number of bytes that follow the tag byte `tag`, if it is a tag.
pub open spec fn payload_len_of(tag: u8) -> Option<usize> {
    if tag == 0 {
        Some(4)
    } else if tag == 1 || tag == 2 {
        Some(0)
    } else {
        None
    }
}

/// The packet at the front of `b`, with the number of bytes it takes.
pub open spec fn decode(b: Seq<u8>) -> Result<(Packet, usize), BadPacketError> {
    if b.len() == 0 {
        Err(BadPacketError::Truncated)
    } else if b[0] == 0 {
        if b.len() < 5 {
            Err(BadPacketError::Truncated)
        } else {
            Ok(
                (
                    Packet::Move(
                        BoardPosition(b[1] as usize, b[2] as usize),
                        BoardPosition(b[3] as usize, b[4] as usize),
                    ),
                    5,
                ),
            )
        }
    } else if b[0] == 1 {
        Ok((Packet::AckMove, 1))
    } else if b[0] == 2 {
        Ok((Packet::RejMove, 1))
    } else {
        Err(BadPacketError::UnknownTag(b[0]))
    }
}

impl Packet {
    /// The bytes that carry the packet.
    pub fn serialize(&self) -> (r: Vec<u8>)
        requires
            fits_wire(*self),
        ensures
            r@ == encode(*self),
    {
        match self {
            Packet::Move(a, b) => vec![0u8, a.0 as u8, a.1 as u8, b.0 as u8, b.1 as u8],
            Packet::AckMove => vec![1u8],
            Packet::RejMove => vec![2u8],
        }
    }

    /// Reads the packet at the front of `bytes`; bytes after it are left alone.
    pub fn deserialize(bytes: &[u8]) -> (r: Result<(Packet, usize), BadPacketError>)
        ensures
            r == decode(bytes@),
    {
        if bytes.len() == 0 {
            return Err(BadPacketError::Truncated);
        }
        let tag = bytes[0];
        if tag == 0 {
            if bytes.len() < 5 {
                Err(BadPacketError::Truncated)
            } else {
                Ok(
                    (
                        Packet::Move(
                            BoardPosition(bytes[1] as usize, bytes[2] as usize),
                            BoardPosition(bytes[3] as usize, bytes[4] as usize),
                        ),
                        5,
                    ),
                )
            }
        } else if tag == 1 {
            Ok((Packet::AckMove, 1))
        } else if tag == 2 {
            Ok((Packet::RejMove, 1))
        } else {
            Err(BadPacketError::UnknownTag(tag))
        }
    }

    /// How many bytes follow the tag byte `tag`; `None` if it is no tag.
    pub fn payload_len(tag: u8) -> (r: Option<usize>)
        ensures
            r == payload_len_of(tag),
    {
        if tag == 0 {
            Some(4)
        } else if tag == 1 || tag == 2 {
            Some(0)
        } else {
            None
        }
    }
}

/// Decoding the encoding of a packet gives the packet back and consumes
/// exactly its bytes, whatever follows them.
pub proof fn lemma_round_trip(p: Packet, rest: Seq<u8>)
    requires
        fits_wire(p),
    ensures
        decode(encode(p) + rest) == Ok::<(Packet, usize), BadPacketError>(
            (p, encode(p).len() as usize),
        ),
{
    let b = encode(p) + rest;
    match p {
        Packet::Move(x, y) => {
            assert(b[0] == 0 && b[1] == x.0 as u8 && b[2] == x.1 as u8);
            assert(b[3] == y.0 as u8 && b[4] == y.1 as u8);
        },
        _ => {
            assert(b[0] == encode(p)[0]);
        },
    }
}

/// Every packet that decodes was framed by its own encoding: the bytes
/// consumed are exactly the encoding of the packet read, and a tag announces
/// the length of what follows it.
pub proof fn lemma_decode_frames(b: Seq<u8>)
    requires
        decode(b) is Ok,
    ensures
        fits_wire(decode(b)->Ok_0.0),
        b.take(decode(b)->Ok_0.1 as int) == encode(decode(b)->Ok_0.0),
        payload_len_of(b[0]) == Some((decode(b)->Ok_0.1 - 1) as usize),
{
    let n = decode(b)->Ok_0.1 as int;
    assert(b.take(n) =~= encode(decode(b)->Ok_0.0));
}

} // verus!
