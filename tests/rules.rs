use duel_board::{
    decode_move, encode_move, get_offset, in_card, move_from_fields, Card, ClientMsg, Game,
    Overlay, Piece, PieceKind, Player, WireError,
};

fn forward_card() -> Card {
    // one step towards Black: drow = -1, dcol = 0
    Card::new(1, vec![7])
}

fn empty_board() -> Vec<Option<Piece>> {
    vec![None; 25]
}

fn pawn_game() -> Game {
    let mut board = empty_board();
    board[22] = Some(Piece(Player::White, PieceKind::Pawn));
    Game::new(board, forward_card(), Card::new(2, vec![]), Player::White).unwrap()
}

fn squares(g: &Game) -> Vec<Option<Piece>> {
    (0..25).map(|p| g.occupant(p)).collect()
}

#[test]
fn offset_encodes_displacement() {
    for origin in 0..25usize {
        for target in 0..25usize {
            let dr = (target / 5) as i64 - (origin / 5) as i64;
            let dc = (target % 5) as i64 - (origin % 5) as i64;
            let got = get_offset(target, origin);
            if dr.abs() <= 2 && dc.abs() <= 2 {
                let o = got.unwrap() as i64;
                assert_eq!(o, (dr + 2) * 5 + (dc + 2));
                assert_eq!(origin as i64 + 5 * (o / 5 - 2) + (o % 5 - 2), target as i64);
            } else {
                assert_eq!(got, None);
            }
        }
    }
}

#[test]
fn offset_examples() {
    assert_eq!(get_offset(17, 22), Some(7));
    assert_eq!(get_offset(0, 24), None);
    assert_eq!(get_offset(24, 12), Some(24));
    assert_eq!(get_offset(0, 12), Some(0));
    assert_eq!(get_offset(4, 0), None);
}

#[test]
fn offset_to_self_is_zero() {
    for p in 0..25usize {
        assert_eq!(get_offset(p, p), Some(12));
    }
}

#[test]
fn in_card_is_membership() {
    let card = Card::new(3, vec![7, 11, 13]);
    assert!(in_card(7, &card));
    assert!(in_card(13, &card));
    assert!(!in_card(12, &card));
    assert!(!in_card(2, &card));
    assert_eq!(in_card(11, &card), in_card(11, &card));
    assert!(!in_card(7, &Card::new(4, vec![])));
}

#[test]
fn new_rejects_wrong_size() {
    assert!(Game::new(vec![None; 24], forward_card(), forward_card(), Player::White).is_none());
    assert!(Game::new(vec![None; 26], forward_card(), forward_card(), Player::White).is_none());
    let g = Game::new(empty_board(), forward_card(), forward_card(), Player::Black).unwrap();
    assert_eq!(g.selected(), None);
    assert_eq!(g.turn(), Player::Black);
    assert!(!g.is_failed());
}

#[test]
fn idle_click_on_empty_or_opponent_stays_idle() {
    let mut g = pawn_game();
    let mut board = squares(&g);
    board[2] = Some(Piece(Player::Black, PieceKind::King));
    g = Game::new(board.clone(), forward_card(), Card::new(2, vec![]), Player::White).unwrap();
    assert_eq!(g.click(2), None);
    assert_eq!(g.selected(), None);
    assert_eq!(g.click(10), None);
    assert_eq!(g.selected(), None);
    assert_eq!(squares(&g), board);
    assert_eq!(g.turn(), Player::White);
}

#[test]
fn select_move_and_flip_turn() {
    let mut g = pawn_game();
    assert_eq!(g.click(22), None);
    assert_eq!(g.selected(), Some(22));
    assert_eq!(g.calculate_overlay(22), Some(Overlay::Highlight));
    assert_eq!(g.calculate_overlay(17), Some(Overlay::Dot));
    assert_eq!(g.calculate_overlay(12), None);
    assert_eq!(g.calculate_overlay(21), None);
    assert_eq!(g.calculate_overlay(0), None);
    assert_eq!(g.click(17), Some(ClientMsg { from: 22, to: 17 }));
    assert_eq!(g.occupant(22), None);
    assert_eq!(g.occupant(17), Some(Piece(Player::White, PieceKind::Pawn)));
    assert_eq!(g.selected(), None);
    assert_eq!(g.turn(), Player::Black);
}

#[test]
fn reclick_deselects() {
    let mut g = pawn_game();
    let before = squares(&g);
    assert_eq!(g.click(22), None);
    assert_eq!(g.click(22), None);
    assert_eq!(g.selected(), None);
    assert_eq!(squares(&g), before);
    assert_eq!(g.turn(), Player::White);
}

#[test]
fn click_on_illegal_square_deselects() {
    let mut g = pawn_game();
    g.click(22);
    assert_eq!(g.click(12), None);
    assert_eq!(g.selected(), None);
    assert_eq!(g.occupant(22), Some(Piece(Player::White, PieceKind::Pawn)));
}

#[test]
fn capture_replaces_opponent() {
    let mut board = empty_board();
    board[22] = Some(Piece(Player::White, PieceKind::King));
    board[17] = Some(Piece(Player::Black, PieceKind::Pawn));
    let mut g = Game::new(board, forward_card(), Card::new(2, vec![]), Player::White).unwrap();
    g.click(22);
    assert_eq!(g.calculate_overlay(17), Some(Overlay::Dot));
    assert_eq!(g.click(17), Some(ClientMsg { from: 22, to: 17 }));
    assert_eq!(g.occupant(17), Some(Piece(Player::White, PieceKind::King)));
    assert_eq!(g.occupant(22), None);
}

#[test]
fn own_piece_blocks_and_reselects() {
    let mut board = empty_board();
    board[22] = Some(Piece(Player::White, PieceKind::Pawn));
    board[17] = Some(Piece(Player::White, PieceKind::King));
    let mut g = Game::new(board.clone(), forward_card(), Card::new(2, vec![]), Player::White).unwrap();
    g.click(22);
    assert_eq!(g.calculate_overlay(17), None);
    assert_eq!(g.click(17), None);
    assert_eq!(g.selected(), Some(17));
    assert_eq!(squares(&g), board);
}

#[test]
fn second_card_enables_moves() {
    let mut g = Game::new(
        {
            let mut b = empty_board();
            b[12] = Some(Piece(Player::White, PieceKind::Pawn));
            b
        },
        Card::new(1, vec![]),
        Card::new(2, vec![0, 24]),
        Player::White,
    )
    .unwrap();
    g.click(12);
    assert_eq!(g.calculate_overlay(0), Some(Overlay::Dot));
    assert_eq!(g.calculate_overlay(24), Some(Overlay::Dot));
    assert_eq!(g.calculate_overlay(6), None);
}

#[test]
fn black_turn_ignores_clicks() {
    let mut g = pawn_game();
    g.click(22);
    g.click(17);
    let before = squares(&g);
    assert_eq!(g.click(17), None);
    assert_eq!(g.selected(), None);
    assert_eq!(squares(&g), before);
    assert_eq!(g.turn(), Player::Black);
}

#[test]
fn remote_move_gives_turn_back() {
    let mut g = pawn_game();
    let mut board = squares(&g);
    board[2] = Some(Piece(Player::Black, PieceKind::Pawn));
    g = Game::new(board, forward_card(), Card::new(2, vec![]), Player::White).unwrap();
    g.click(22);
    g.click(17);
    assert_eq!(g.receive(&[0x92, 2, 7]), Ok(ClientMsg { from: 2, to: 7 }));
    assert_eq!(g.occupant(2), None);
    assert_eq!(g.occupant(7), Some(Piece(Player::Black, PieceKind::Pawn)));
    assert_eq!(g.turn(), Player::White);
    assert_eq!(g.click(17), None);
    assert_eq!(g.selected(), Some(17));
}

#[test]
fn malformed_frame_ends_session() {
    let mut g = pawn_game();
    let before = squares(&g);
    assert_eq!(g.receive(&[0x91, 3]), Err(WireError::Decode));
    assert!(g.is_failed());
    assert_eq!(squares(&g), before);
    assert_eq!(g.receive(&[0x92, 2, 7]), Err(WireError::Closed));
    assert_eq!(squares(&g), before);
    assert_eq!(g.click(22), None);
    assert_eq!(g.selected(), None);
}

#[test]
fn frame_with_wrong_field_type_ends_session() {
    let mut g = pawn_game();
    let before = squares(&g);
    assert_eq!(g.receive(&[0x92, 0xa1, b'x', 2]), Err(WireError::Decode));
    assert!(g.is_failed());
    assert_eq!(squares(&g), before);
}

#[test]
fn frame_off_the_board_ends_session() {
    let mut g = pawn_game();
    let before = squares(&g);
    assert_eq!(g.receive(&[0x92, 30, 2]), Err(WireError::OutOfRange));
    assert!(g.is_failed());
    assert_eq!(squares(&g), before);
}

#[test]
fn encode_move_bytes() {
    assert_eq!(encode_move(ClientMsg { from: 22, to: 17 }), Ok(vec![0x92, 22, 17]));
    assert_eq!(encode_move(ClientMsg { from: 0, to: 24 }), Ok(vec![0x92, 0, 24]));
}

#[test]
fn decode_move_round_trip() {
    for from in 0..25usize {
        for to in 0..25usize {
            let bytes = encode_move(ClientMsg { from, to }).unwrap();
            assert_eq!(decode_move(&bytes), Ok(ClientMsg { from, to }));
        }
    }
    assert_eq!(decode_move(&[]), Err(WireError::Decode));
    assert_eq!(decode_move(&[0x92, 100, 1]), Err(WireError::OutOfRange));
}

#[test]
fn fields_must_be_positions() {
    assert_eq!(move_from_fields(3, 24), Ok(ClientMsg { from: 3, to: 24 }));
    assert_eq!(move_from_fields(25, 0), Err(WireError::OutOfRange));
    assert_eq!(move_from_fields(0, 25), Err(WireError::OutOfRange));
}

#[test]
fn accept_applies_or_fails() {
    let mut g = pawn_game();
    assert_eq!(g.accept(Ok(ClientMsg { from: 22, to: 21 })), Ok(ClientMsg { from: 22, to: 21 }));
    assert_eq!(g.occupant(21), Some(Piece(Player::White, PieceKind::Pawn)));
    assert_eq!(g.accept(Ok(ClientMsg { from: 40, to: 21 })), Err(WireError::OutOfRange));
    assert!(g.is_failed());
    assert_eq!(g.accept(Ok(ClientMsg { from: 21, to: 20 })), Err(WireError::Closed));
    assert_eq!(g.occupant(21), Some(Piece(Player::White, PieceKind::Pawn)));
}

#[test]
fn setters_change_one_field() {
    let mut g = pawn_game();
    g.set_selected(Some(3));
    assert_eq!(g.selected(), Some(3));
    g.set_turn(Player::Black);
    assert_eq!(g.turn(), Player::Black);
    assert_eq!(g.selected(), Some(3));
    g.set_selected(None);
    assert_eq!(g.selected(), None);
}
