//! Board, selection and turn of one game session, the overlay that shows
//! the legal destinations of the selected piece, and the click state
//! machine that selects, deselects and commits moves.
//!
//! The local player is White; the peer plays Black. Moves of the peer come
//! in as frames and are applied without a legality check.
use vstd::prelude::*;

use crate::geometry::{get_offset, in_card, offset_of, Card, SQUARES, ZERO_OFFSET};
use crate::wire::{decode_move, is_position_frame, ClientMsg, WireError};

verus! {

#[derive(Clone, Copy, PartialEq, Eq, Debug, Structural)]
pub enum PieceKind {
    Pawn,
    King,
}

#[derive(Clone, Copy, PartialEq, Eq, Debug, Structural)]
pub enum Player {
    Black,
    White,
}

/// A piece: its owner and its kind.
#[derive(Clone, Copy, PartialEq, Eq, Debug, Structural)]
pub struct Piece(pub Player, pub PieceKind);

/// Marker drawn on a square: `Highlight` on the selected square, `Dot` on a
/// legal destination.
#[derive(Clone, Copy, PartialEq, Eq, Debug, Structural)]
pub enum Overlay {
    Highlight,
    Dot,
}

/// The mathematical content of a session.
pub struct GameState {
    pub board: Seq<Option<Piece>>,
    pub card1: Seq<usize>,
    pub card2: Seq<usize>,
    pub selected: Option<usize>,
    pub turn: Player,
    pub failed: bool,
}

/// One game session: 25 squares, the two cards in hand, the selected
/// square, whose turn it is, and whether the link to the peer has failed.
pub struct Game {
    board: Vec<Option<Piece>>,
    card1: Card,
    card2: Card,
    selected: Option<usize>,
    turn: Player,
    failed: bool,
}

impl View for Game {
    type V = GameState;

    closed spec fn view(&self) -> GameState {
        GameState {
            board: self.board@,
            card1: self.card1.offsets@,
            card2: self.card2.offsets@,
            selected: self.selected,
            turn: self.turn,
            failed: self.failed,
        }
    }
}

/// The square holds a piece of the local player.
pub open spec fn own_piece(square: Option<Piece>) -> bool {
    square is Some && (square->0).0 == Player::White
}

/// One of the two cards in hand enables the offset.
pub open spec fn card_enables(s: GameState, offset: usize) -> bool {
    s.card1.contains(offset) || s.card2.contains(offset)
}

/// The overlay of square `pos`.
pub open spec fn overlay_at(s: GameState, pos: usize) -> Option<Overlay> {
    match s.selected {
        None => None,
        Some(sel) => match offset_of(pos as int, sel as int) {
            None => None,
            Some(offset) => if offset == ZERO_OFFSET {
                Some(Overlay::Highlight)
            } else if card_enables(s, offset) && !own_piece(s.board[pos as int]) {
                Some(Overlay::Dot)
            } else {
                None
            },
        },
    }
}

/// The board after the piece on `from` moves to `to`, replacing what stood there.
pub open spec fn move_piece(board: Seq<Option<Piece>>, from: usize, to: usize) -> Seq<
    Option<Piece>,
> {
    board.update(to as int, board[from as int]).update(from as int, None)
}

/// Local clicks take effect: the session is live and it is White's turn.
pub open spec fn accepts_clicks(s: GameState) -> bool {
    !s.failed && s.turn == Player::White
}

/// A click on `pos` selects it: it holds an own piece and is not already selected.
pub open spec fn click_selects(s: GameState, pos: usize) -> bool {
    s.selected != Some(pos) && own_piece(s.board[pos as int])
}

/// A click on `pos` commits the selected piece's move there.
pub open spec fn click_commits(s: GameState, pos: usize) -> bool {
    accepts_clicks(s) && !click_selects(s, pos) && overlay_at(s, pos) == Some(Overlay::Dot)
}

/// The state after a click on `pos`.
pub open spec fn click_next(s: GameState, pos: usize) -> GameState {
    if !accepts_clicks(s) {
        s
    } else if click_selects(s, pos) {
        GameState { selected: Some(pos), ..s }
    } else if overlay_at(s, pos) == Some(Overlay::Dot) {
        GameState {
            board: move_piece(s.board, s.selected->0, pos),
            selected: None,
            turn: Player::Black,
            ..s
        }
    } else {
        GameState { selected: None, ..s }
    }
}

/// The move that a click on `pos` sends to the peer, if it commits one.
pub open spec fn click_emits(s: GameState, pos: usize) -> Option<ClientMsg> {
    if click_commits(s, pos) {
        Some(ClientMsg { from: s.selected->0, to: pos })
    } else {
        None
    }
}

/// The state after the peer's move `msg` is applied: the piece moves and
/// the turn comes back to White.
pub open spec fn remote_next(s: GameState, msg: ClientMsg) -> GameState {
    GameState { board: move_piece(s.board, msg.from, msg.to), turn: Player::White, ..s }
}

/// The state of a session that has failed.
pub open spec fn failed_state(s: GameState) -> GameState {
    GameState { failed: true, ..s }
}

fn is_own_piece(square: Option<Piece>) -> (r: bool)
    ensures
        r == own_piece(square),
{
    match square {
        Some(piece) => piece.0 == Player::White,
        None => false,
    }
}

impl Game {
    /// Board of 25 squares and a selection, if any, on one of them.
    pub open spec fn wf(&self) -> bool {
        &&& self@.board.len() == SQUARES
        &&& self@.selected matches Some(p) ==> p < SQUARES
    }

    /// A live session with nothing selected, or `None` when `board` does not
    /// have 25 squares.
    pub fn new(board: Vec<Option<Piece>>, card1: Card, card2: Card, turn: Player) -> (r: Option<
        Game,
    >)
        ensures
            board@.len() != SQUARES ==> r is None,
            board@.len() == SQUARES ==> r is Some && r->0.wf() && r->0@ == (GameState {
                board: board@,
                card1: card1.offsets@,
                card2: card2.offsets@,
                selected: None,
                turn,
                failed: false,
            }),
    {
        if board.len() != SQUARES {
            return None;
        }
        Some(Game { board, card1, card2, selected: None, turn, failed: false })
    }

    /// Overlay of square `pos`, from the selection, the cards and the board.
    pub fn calculate_overlay(&self, pos: usize) -> (r: Option<Overlay>)
        requires
            self.wf(),
            pos < SQUARES,
        ensures
            r == overlay_at(self@, pos),
    {
        let selected = match self.selected {
            Some(p) => p,
            None => return None,
        };
        let offset = match get_offset(pos, selected) {
            Some(o) => o,
            None => return None,
        };
        let possible = in_card(offset, &self.card1) || in_card(offset, &self.card2);
        if offset == ZERO_OFFSET {
            Some(Overlay::Highlight)
        } else if possible && !is_own_piece(self.board[pos]) {
            Some(Overlay::Dot)
        } else {
            None
        }
    }

    /// Handles a local click on `pos` and returns the move to send to the
    /// peer when the click commits one.
    pub fn click(&mut self, pos: usize) -> (r: Option<ClientMsg>)
        requires
            old(self).wf(),
            pos < SQUARES,
        ensures
            final(self).wf(),
            final(self)@ == click_next(old(self)@, pos),
            r == click_emits(old(self)@, pos),
    {
        if self.failed || self.turn == Player::Black {
            return None;
        }
        let reselect = match self.selected {
            Some(p) => p != pos,
            None => true,
        };
        if reselect && is_own_piece(self.board[pos]) {
            self.selected = Some(pos);
            return None;
        }
        let overlay = self.calculate_overlay(pos);
        match (overlay, self.selected) {
            (Some(Overlay::Dot), Some(from)) => {
                let piece = self.board[from];
                self.board.set(pos, piece);
                self.board.set(from, None);
                self.turn = Player::Black;
                self.selected = None;
                Some(ClientMsg { from, to: pos })
            },
            _ => {
                self.selected = None;
                None
            },
        }
    }

    /// Applies the peer's move and hands the turn back to White.
    pub fn apply_remote(&mut self, msg: ClientMsg)
        requires
            old(self).wf(),
            msg.from < SQUARES,
            msg.to < SQUARES,
        ensures
            final(self).wf(),
            final(self)@ == remote_next(old(self)@, msg),
    {
        let piece = self.board[msg.from];
        self.board.set(msg.to, piece);
        self.board.set(msg.from, None);
        self.turn = Player::White;
    }

    /// Takes the result of decoding a frame from the peer. A move on two
    /// positions is applied; anything else ends the session, which then
    /// ignores clicks and frames.
    pub fn accept(&mut self, decoded: Result<ClientMsg, WireError>) -> (r: Result<
        ClientMsg,
        WireError,
    >)
        requires
            old(self).wf(),
        ensures
            final(self).wf(),
            old(self)@.failed ==> final(self)@ == old(self)@ && r == Err::<ClientMsg, WireError>(
                WireError::Closed,
            ),
            !old(self)@.failed ==> match decoded {
                Ok(m) => if m.from < SQUARES && m.to < SQUARES {
                    final(self)@ == remote_next(old(self)@, m) && r == decoded
                } else {
                    final(self)@ == failed_state(old(self)@) && r == Err::<ClientMsg, WireError>(
                        WireError::OutOfRange,
                    )
                },
                Err(e) => final(self)@ == failed_state(old(self)@) && r == decoded,
            },
    {
        if self.failed {
            return Err(WireError::Closed);
        }
        match decoded {
            Ok(m) => {
                if m.from < SQUARES && m.to < SQUARES {
                    self.apply_remote(m);
                    Ok(m)
                } else {
                    self.failed = true;
                    Err(WireError::OutOfRange)
                }
            },
            Err(e) => {
                self.failed = true;
                Err(e)
            },
        }
    }

    /// Decodes a frame from the peer and applies the move it carries. A
    /// frame that does not decode to a move on two positions ends the
    /// session with the board untouched.
    pub fn receive(&mut self, frame: &[u8]) -> (r: Result<ClientMsg, WireError>)
        requires
            old(self).wf(),
        ensures
            final(self).wf(),
            old(self)@.failed ==> final(self)@ == old(self)@ && r == Err::<ClientMsg, WireError>(
                WireError::Closed,
            ),
            !old(self)@.failed ==> match r {
                Ok(m) => m.from < SQUARES && m.to < SQUARES && final(self)@ == remote_next(
                    old(self)@,
                    m,
                ),
                Err(e) => e != WireError::Closed && final(self)@ == failed_state(old(self)@),
            },
            !old(self)@.failed && is_position_frame(frame@) ==> r == Ok::<ClientMsg, WireError>(
                ClientMsg { from: frame@[1] as usize, to: frame@[2] as usize },
            ),
    {
        if self.failed {
            return Err(WireError::Closed);
        }
        let decoded = decode_move(frame);
        self.accept(decoded)
    }
    /// The piece on square `pos`, if any.
    pub fn occupant(&self, pos: usize) -> (r: Option<Piece>)
        requires
            self.wf(),
            pos < SQUARES,
        ensures
            r == self@.board[pos as int],
    {
        self.board[pos]
    }

    /// The selected square, if any.
    pub fn selected(&self) -> (r: Option<usize>)
        ensures
            r == self@.selected,
    {
        self.selected
    }

    /// Sets the selected square; nothing else changes.
    pub fn set_selected(&mut self, pos: Option<usize>)
        requires
            old(self).wf(),
            pos matches Some(p) ==> p < SQUARES,
        ensures
            final(self).wf(),
            final(self)@ == (GameState { selected: pos, ..old(self)@ }),
    {
        self.selected = pos;
    }

    /// Whose turn it is.
    pub fn turn(&self) -> (r: Player)
        ensures
            r == self@.turn,
    {
        self.turn
    }

    /// Sets whose turn it is; nothing else changes.
    pub fn set_turn(&mut self, turn: Player)
        requires
            old(self).wf(),
        ensures
            final(self).wf(),
            final(self)@ == (GameState { turn, ..old(self)@ }),
    {
        self.turn = turn;
    }

    /// Whether the session has failed on a bad frame.
    pub fn is_failed(&self) -> (r: bool)
        ensures
            r == self@.failed,
    {
        self.failed
    }
}

/// With nothing selected, a click on an empty square or on a Black piece
/// leaves the session as it was: still nothing selected, the board
/// unchanged, nothing sent.
pub proof fn lemma_idle_click_elsewhere(s: GameState, pos: usize)
    requires
        s.board.len() == SQUARES,
        pos < SQUARES,
        s.selected is None,
        s.board[pos as int] is None || (s.board[pos as int]->0).0 == Player::Black,
    ensures
        click_next(s, pos) == s,
        click_emits(s, pos) is None,
{
}

/// With `a` selected on White's turn, a click on a square `b` that shows a
/// dot moves the piece from `a` to `b`, replacing whatever stood on `b`,
/// empties `a`, leaves every other square as it was, clears the selection,
/// hands the turn to Black and sends the move from `a` to `b`.
pub proof fn lemma_commit_moves_piece(s: GameState, a: usize, b: usize)
    requires
        s.board.len() == SQUARES,
        a < SQUARES,
        b < SQUARES,
        s.selected == Some(a),
        accepts_clicks(s),
        overlay_at(s, b) == Some(Overlay::Dot),
    ensures
        a != b,
        click_next(s, b).selected is None,
        click_next(s, b).board.len() == SQUARES,
        click_next(s, b).board[a as int] is None,
        click_next(s, b).board[b as int] == s.board[a as int],
        forall|i: int|
            0 <= i < SQUARES && i != a && i != b ==> click_next(s, b).board[i] == s.board[i],
        click_next(s, b).turn == Player::Black,
        click_emits(s, b) == Some(ClientMsg { from: a, to: b }),
{
    crate::geometry::lemma_offset_to_self(a as int);
}

/// With `a` selected on White's turn, a second click on `a` clears the
/// selection and changes nothing else.
pub proof fn lemma_reclick_deselects(s: GameState, a: usize)
    requires
        s.board.len() == SQUARES,
        a < SQUARES,
        s.selected == Some(a),
        accepts_clicks(s),
    ensures
        click_next(s, a) == (GameState { selected: None, ..s }),
        click_emits(s, a) is None,
{
    crate::geometry::lemma_offset_to_self(a as int);
}

/// A click sends a move only on White's turn, and then hands the turn to
/// Black; a click that sends nothing leaves the turn as it was. On Black's
/// turn a click changes nothing, until the peer's move gives the turn back.
pub proof fn lemma_turn_flips_once(s: GameState, pos: usize, msg: ClientMsg)
    requires
        s.board.len() == SQUARES,
        pos < SQUARES,
    ensures
        click_emits(s, pos) is Some ==> s.turn == Player::White && click_next(s, pos).turn
            == Player::Black,
        click_emits(s, pos) is None ==> click_next(s, pos).turn == s.turn,
        s.turn == Player::Black ==> click_next(s, pos) == s && click_emits(s, pos) is None,
        remote_next(s, msg).turn == Player::White,
{
}

} // verus!
