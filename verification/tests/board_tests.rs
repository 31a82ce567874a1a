use cardmate::board::apply::MoveApplier;
use cardmate::board::checks::CheckAnalyzer;
use cardmate::board::moves::MoveCalculator;
use cardmate::board::types::{Color, Piece, PieceModifier, PieceType, Square};
use cardmate::board::utils::{index_to_square, square_add, square_to_index};
use cardmate::board::Board;
use cardmate::cards::effects::CardEffectApplier;
use cardmate::cards::types::{CardId, CardTarget};

fn square(file: u8, rank: u8) -> Square {
    Square { file, rank }
}

fn place(board: &mut Board, sq: Square, piece_type: PieceType, color: Color) {
    board.squares[square_to_index(sq)].piece = Some(Piece::new(piece_type, color));
}

fn empty_board() -> Board {
    let mut board = Board::default();
    for cell in board.squares.iter_mut() {
        cell.piece = None;
    }
    board
}

#[test]
fn test_veteran_knight_extra_moves() {
    let mut board = Board::default();
    for cell in board.squares.iter_mut() {
        cell.piece = None;
    }
    let e4 = square(5, 4);
    place(&mut board, e4, PieceType::Knight, Color::White);

    board.compute_allowed_moves();
    let idx = square_to_index(e4);
    let normal_count = board.squares[idx].as_ref().unwrap().move_set.allowed.len();

    board.squares[idx]
        .as_mut()
        .unwrap()
        .set_modifier(PieceModifier::VeteranKnight { rarity: Some(0) });
    board.compute_allowed_moves();
    let vet_count = board.squares[idx].as_ref().unwrap().move_set.allowed.len();

    assert!(vet_count > normal_count, "veteran knight should have more moves");
}

#[test]
fn test_anihilation_removes_pawn() {
    let mut board = Board::default();
    let target = square(4, 7);
    place(&mut board, target, PieceType::Pawn, Color::Black);

    let result = board.apply_card_effect(CardId::Annihilation, 0, Color::White, CardTarget::Square(target));
    assert!(result.is_ok());
    assert!(board.squares[square_to_index(target)].is_none(), "pawn should be removed");
}

#[test]
fn test_ninja_traversable() {
    let mut board = Board::default();
    for cell in board.squares.iter_mut() {
        cell.piece = None;
    }
    let rook = square(1, 1);
    place(&mut board, rook, PieceType::Rook, Color::White);
    let ninja_sq = square(1, 4);
    place(&mut board, ninja_sq, PieceType::Pawn, Color::Black);
    board.card_state.ninja = Some((ninja_sq, Color::Black));

    board.compute_allowed_moves();
    let idx = square_to_index(rook);
    let moves = board.squares[idx].as_ref().unwrap().move_set.allowed.clone();
    assert!(moves.contains(&square(1, 8)), "rook should pass through ninja piece");
}

#[test]
fn test_sauvetage_king_move() {
    let mut board = Board::default();
    for cell in board.squares.iter_mut() {
        cell.piece = None;
    }
    let king = square(5, 1);
    place(&mut board, king, PieceType::King, Color::White);
    let free = square(3, 1);
    place(&mut board, square(5, 8), PieceType::King, Color::Black);

    let result = board.apply_card_effect(CardId::DesperateRescue, 0, Color::White, CardTarget::Square(free));
    assert!(result.is_ok());
    assert!(board.squares[square_to_index(free)].is_some(), "king should move");
}

#[test]
fn test_traitor_pawn_captures_own_side() {
    let mut board = Board::default();
    for cell in board.squares.iter_mut() {
        cell.piece = None;
    }

    let pawn = square(4, 2);
    place(&mut board, pawn, PieceType::Pawn, Color::White);
    place(&mut board, square(3, 3), PieceType::Bishop, Color::White);

    let bpawn = square(5, 7);
    place(&mut board, bpawn, PieceType::Pawn, Color::Black);
    place(&mut board, square(4, 6), PieceType::Rook, Color::Black);
    board.card_state.traitor = Some(Color::White);

    board.compute_allowed_moves();
    let idx = square_to_index(bpawn);
    let moves = board.squares[idx].as_ref().unwrap().move_set.allowed.clone();
    assert!(moves.contains(&square(4, 6)), "traitor pawn should capture own-side piece");
}

#[test]
fn test_bastion_saves_allied_piece() {
    let mut board = Board::default();
    for cell in board.squares.iter_mut() {
        cell.piece = None;
    }

    let bastion_sq = square(5, 4);
    place(&mut board, bastion_sq, PieceType::Rook, Color::White);
    let pawn_sq = square(4, 4);
    place(&mut board, pawn_sq, PieceType::Pawn, Color::White);
    let rook_sq = square(4, 8);
    place(&mut board, rook_sq, PieceType::Rook, Color::Black);

    board.card_state.bastion = Some((bastion_sq, Color::White));

    let result = board.apply_move(rook_sq, pawn_sq, None);
    assert!(result.is_ok());

    assert!(
        board.squares[square_to_index(bastion_sq)]
            .as_ref()
            .map_or(false, |p| p.piece_type == PieceType::Pawn),
        "captured pawn should be saved onto the bastion square"
    );

    assert!(
        board.squares[square_to_index(pawn_sq)]
            .as_ref()
            .map_or(false, |p| p.piece_type == PieceType::Rook && p.color == Color::Black),
        "attacker should occupy the pawn square"
    );
}

#[test]
fn opening_position_has_twenty_moves_for_white() {
    let mut board = Board::default();
    board.compute_allowed_moves();
    let mut total = 0;
    for cell in board.squares.iter() {
        if let Some(p) = cell.as_ref() {
            if p.color == Color::White {
                total += p.move_set.allowed.len();
            }
        }
    }
    assert_eq!(total, 20);
    assert!(board.has_legal_moves(Color::Black));
    assert!(!board.is_in_check(Color::White));
    assert!(!board.is_checkmate(Color::White));
}

#[test]
fn pinned_piece_may_not_expose_its_king() {
    let mut board = empty_board();
    place(&mut board, square(5, 1), PieceType::King, Color::White);
    place(&mut board, square(5, 2), PieceType::Rook, Color::White);
    place(&mut board, square(5, 8), PieceType::Rook, Color::Black);
    place(&mut board, square(1, 8), PieceType::King, Color::Black);
    board.compute_allowed_moves();
    let rook = board.squares[square_to_index(square(5, 2))].as_ref().unwrap();
    assert!(rook.move_set.current.contains(&square(1, 2)));
    assert!(!rook.move_set.allowed.contains(&square(1, 2)));
    assert!(rook.move_set.allowed.contains(&square(5, 8)));
}

#[test]
fn back_rank_mate_is_checkmate() {
    let mut board = empty_board();
    place(&mut board, square(7, 1), PieceType::King, Color::White);
    place(&mut board, square(6, 2), PieceType::Pawn, Color::White);
    place(&mut board, square(7, 2), PieceType::Pawn, Color::White);
    place(&mut board, square(8, 2), PieceType::Pawn, Color::White);
    place(&mut board, square(1, 1), PieceType::Rook, Color::Black);
    place(&mut board, square(1, 8), PieceType::King, Color::Black);
    board.compute_allowed_moves();
    assert!(board.is_in_check(Color::White));
    assert!(board.is_checkmate(Color::White));
    assert!(!board.has_legal_moves(Color::White));
    assert_eq!(board.find_king(Color::White), Some(square(7, 1)));
}

#[test]
fn square_helpers_agree() {
    for i in 0..64usize {
        let sq = index_to_square(i);
        assert_eq!(square_to_index(sq), i);
        assert_eq!(Square::from_coord(&sq.to_coord()), Some(sq));
    }
    assert_eq!(Square::from_coord("e4"), Some(square(5, 4)));
    assert_eq!(Square::from_coord("i4"), None);
    assert_eq!(Square::from_coord("e9"), None);
    assert_eq!(Square::from_coord("e44"), None);
    assert_eq!(square(5, 4).to_coord(), "e4");
    assert_eq!(square_add(square(1, 1), -1, 0), None);
    assert_eq!(square_add(square(1, 1), 1, 2), Some(square(2, 3)));
    assert_eq!(Color::White.other(), Color::Black);
    assert_eq!(Color::White.other().other(), Color::White);
}

#[test]
fn promotion_names_in_any_case() {
    assert_eq!(PieceType::from_promotion_str("Queen"), Some(PieceType::Queen));
    assert_eq!(PieceType::from_promotion_str("n"), Some(PieceType::Knight));
    assert_eq!(PieceType::from_promotion_str("R"), Some(PieceType::Rook));
    assert_eq!(PieceType::from_promotion_str("king"), None);
}

#[test]
fn pawn_reaching_last_rank_promotes() {
    let mut board = empty_board();
    place(&mut board, square(1, 7), PieceType::Pawn, Color::White);
    place(&mut board, square(5, 1), PieceType::King, Color::White);
    place(&mut board, square(8, 8), PieceType::King, Color::Black);
    assert!(board.apply_move(square(1, 7), square(1, 8), Some(PieceType::Knight)).is_ok());
    let p = board.squares[square_to_index(square(1, 8))].as_ref().unwrap();
    assert_eq!(p.piece_type, PieceType::Knight);
    assert!(board.squares[square_to_index(square(1, 7))].is_none());
}

#[test]
fn moving_from_an_empty_square_is_refused() {
    let mut board = empty_board();
    assert_eq!(board.apply_move(square(1, 1), square(1, 2), None), Err("no piece at source square"));
}

#[test]
fn castling_moves_the_rook() {
    let mut board = empty_board();
    place(&mut board, square(5, 1), PieceType::King, Color::White);
    place(&mut board, square(8, 1), PieceType::Rook, Color::White);
    place(&mut board, square(5, 8), PieceType::King, Color::Black);
    board.compute_allowed_moves();
    let king = board.squares[square_to_index(square(5, 1))].as_ref().unwrap();
    assert!(king.move_set.allowed.contains(&square(7, 1)));
    assert!(board.apply_move(square(5, 1), square(7, 1), None).is_ok());
    assert!(board.squares[square_to_index(square(6, 1))].as_ref().map_or(false, |p| p.piece_type == PieceType::Rook));
    assert!(board.squares[square_to_index(square(8, 1))].is_none());
    assert!(!board.castling_rights.white_king_side);
}
