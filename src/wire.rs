//! The frame that carries one committed move to the peer: a MessagePack
//! array of two unsigned integers, origin then destination.
use vstd::prelude::*;

verus! {

/// A committed move: origin and destination positions.
#[derive(Clone, Copy, PartialEq, Eq, Debug, Structural)]
pub struct ClientMsg {
    pub from: usize,
    pub to: usize,
}

/// Why a frame could not be produced or accepted.
#[derive(Clone, Copy, PartialEq, Eq, Debug, Structural)]
pub enum WireError {
    /// The move could not be serialised.
    Encode,
    /// The frame is not a MessagePack pair of unsigned integers.
    Decode,
    /// The frame decodes, but a field is not a board position.
    OutOfRange,
    /// The session already failed on an earlier frame.
    Closed,
}

#[verifier::external_type_specification]
#[verifier::external_body]
pub struct ExEncodeError(rmp_serde::encode::Error);

#[verifier::external_type_specification]
#[verifier::external_body]
pub struct ExDecodeError(rmp_serde::decode::Error);

/// First byte of a MessagePack array of two elements.
pub const PAIR_MARKER: u8 = 0x92;

/// The MessagePack bytes of the pair `(from, to)`, both below 128, each
/// written as a positive fixint.
pub open spec fn pair_frame(from: u8, to: u8) -> Seq<u8> {
    seq![PAIR_MARKER, from, to]
}

/// A frame of three bytes that is the MessagePack pair of two positions.
pub open spec fn is_position_frame(frame: Seq<u8>) -> bool {
    frame.len() == 3 && frame[0] == PAIR_MARKER && frame[1] < 25 && frame[2] < 25
}

/// A frame of three bytes that is the MessagePack pair of two integers below 128.
pub open spec fn is_small_pair_frame(frame: Seq<u8>) -> bool {
    frame.len() == 3 && frame[0] == PAIR_MARKER && frame[1] < 128 && frame[2] < 128
}

/// Relies on `rmp_serde::to_vec`: a tuple is written as an array with its
/// length in the marker (0x92 for two), and an unsigned integer below 128 as
/// a single positive fixint byte. It fails only when the buffer cannot grow.
#[verifier::external_body]
fn msgpack_pair(from: usize, to: usize) -> (r: Result<Vec<u8>, rmp_serde::encode::Error>)
    ensures
        r is Ok && from < 128 && to < 128 ==> r->Ok_0@ == pair_frame(from as u8, to as u8),
{
    rmp_serde::to_vec(&(from, to))
}

/// Relies on `rmp_serde::from_slice` for the pair `(usize, usize)`: a fixarray
/// of two positive fixints decodes to those two integers.
#[verifier::external_body]
fn msgpack_unpair(frame: &[u8]) -> (r: Result<(usize, usize), rmp_serde::decode::Error>)
    ensures
        is_small_pair_frame(frame@) ==> r is Ok && r->Ok_0 == (
            frame@[1] as usize,
            frame@[2] as usize,
        ),
{
    rmp_serde::from_slice::<(usize, usize)>(frame)
}

/// The frame announcing `msg` to the peer.
pub fn encode_move(msg: ClientMsg) -> (r: Result<Vec<u8>, WireError>)
    requires
        msg.from < 25,
        msg.to < 25,
    ensures
        match r {
            Ok(v) => v@ == pair_frame(msg.from as u8, msg.to as u8),
            Err(e) => e == WireError::Encode,
        },
{
    match msgpack_pair(msg.from, msg.to) {
        Ok(v) => Ok(v),
        Err(_) => Err(WireError::Encode),
    }
}

/// The move named by two decoded fields, provided both are board positions.
pub fn move_from_fields(from: usize, to: usize) -> (r: Result<ClientMsg, WireError>)
    ensures
        from < 25 && to < 25 ==> r == Ok::<ClientMsg, WireError>(ClientMsg { from, to }),
        !(from < 25 && to < 25) ==> r == Err::<ClientMsg, WireError>(WireError::OutOfRange),
{
    if from < 25 && to < 25 {
        Ok(ClientMsg { from, to })
    } else {
        Err(WireError::OutOfRange)
    }
}

/// The move that an inbound frame carries.
///
/// A frame that is the MessagePack pair of two positions always decodes to
/// that move; whatever is returned in `Ok` names two positions.
pub fn decode_move(frame: &[u8]) -> (r: Result<ClientMsg, WireError>)
    ensures
        r matches Ok(m) ==> m.from < 25 && m.to < 25,
        r matches Err(e) ==> e == WireError::Decode || e == WireError::OutOfRange,
        is_position_frame(frame@) ==> r == Ok::<ClientMsg, WireError>(
            ClientMsg { from: frame@[1] as usize, to: frame@[2] as usize },
        ),
        is_small_pair_frame(frame@) && !is_position_frame(frame@) ==> r == Err::<
            ClientMsg,
            WireError,
        >(WireError::OutOfRange),
{
    match msgpack_unpair(frame) {
        Ok((from, to)) => move_from_fields(from, to),
        Err(_) => Err(WireError::Decode),
    }
}

} // verus!
