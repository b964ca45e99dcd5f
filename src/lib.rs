//! Rules engine of a two-player card-driven board game on a 5×5 board:
//! square geometry, movement cards, the selection and turn state machine,
//! and the binary frames that carry a move to the peer.
pub mod game;
pub mod geometry;
pub mod wire;

pub use game::{Game, Overlay, Piece, PieceKind, Player};
pub use geometry::{get_offset, in_card, Card};
pub use wire::{decode_move, encode_move, move_from_fields, ClientMsg, WireError};
