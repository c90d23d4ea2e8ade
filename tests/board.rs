use chess::board::{Board, CastlingRights};
use chess::field::Field;
use chess::piece::{Color, Figure, Piece};

fn at(file: char, rank: u8) -> Field {
    Field::new(file, rank).unwrap()
}

fn piece(white: bool, c: char) -> Piece {
    Piece::new(white, c).unwrap()
}

fn sorted(mut v: Vec<Field>) -> Vec<(char, u8)> {
    let mut out: Vec<(char, u8)> = v.drain(..).map(|f| (f.file, f.rank)).collect();
    out.sort();
    out
}

fn all_rights() -> CastlingRights {
    CastlingRights {
        white_kingside: true,
        white_queenside: true,
        black_kingside: true,
        black_queenside: true,
    }
}

#[test]
fn valid_board_creation_initial_pawn_move() {
    let mut board = Board::new();
    board.initial_position();

    match board.get_figure_at_position('b', 2) {
        None => panic!("supposed to be pawn at this position"),
        Some(piece) => {
            assert_eq!(piece.color, Color::White);
            assert_eq!(piece.figure, Figure::Pawn)
        }
    }

    let possible_moves = board.get_possible_moves_at_position('b', 2);
    assert_eq!(possible_moves, [Field { file: 'B', rank: 3 }, Field { file: 'B', rank: 4 }]);

    // move pawn to b3
    let field_origin = Field::new('b', 2).unwrap();
    let field_dest = Field::new('b', 3).unwrap();
    board.move_piece(field_origin, field_dest);
}

#[test]
fn pawn_move_updates_occupancy_and_history() {
    let mut board = Board::new();
    board.initial_position();
    assert!(board.move_piece(at('b', 2), at('b', 3)));
    assert!(board.get_figure_at_position('b', 2).is_none());
    assert_eq!(
        board.get_figure_at_position('B', 3),
        Some(&Piece { color: Color::White, figure: Figure::Pawn })
    );
    assert_eq!(board.move_history(), &vec![(at('b', 2), at('b', 3))]);
    assert!(board.en_passant_targets().is_empty());
}

#[test]
fn new_board_is_empty_with_all_rights() {
    let board = Board::new();
    for file in ['a', 'b', 'c', 'd', 'e', 'f', 'g', 'h'] {
        for rank in 1u8..=8 {
            assert!(board.get_figure_at_position(file, rank).is_none());
            assert!(board.get_possible_moves_at_position(file, rank).is_empty());
        }
    }
    assert!(board.move_history().is_empty());
    assert_eq!(board.castling_rights(), all_rights());
}

#[test]
fn initial_layout() {
    let mut board = Board::new();
    board.add_piece(at('d', 4), piece(true, 'q'));
    board.move_piece(at('d', 4), at('d', 5));
    board.initial_position();
    let back = ['r', 'n', 'b', 'q', 'k', 'b', 'n', 'r'];
    let files = ['a', 'b', 'c', 'd', 'e', 'f', 'g', 'h'];
    for i in 0..8 {
        assert_eq!(board.get_figure_at_position(files[i], 1), Some(&piece(true, back[i])));
        assert_eq!(board.get_figure_at_position(files[i], 2), Some(&piece(true, 'p')));
        assert_eq!(board.get_figure_at_position(files[i], 7), Some(&piece(false, 'p')));
        assert_eq!(board.get_figure_at_position(files[i], 8), Some(&piece(false, back[i])));
        for rank in 3u8..=6 {
            assert!(board.get_figure_at_position(files[i], rank).is_none());
        }
    }
    assert!(board.move_history().is_empty());
    assert!(board.en_passant_targets().is_empty());
    assert_eq!(board.castling_rights(), all_rights());
}

#[test]
fn invalid_coordinates_give_nothing() {
    let mut board = Board::new();
    board.initial_position();
    assert!(board.get_figure_at_position('i', 2).is_none());
    assert!(board.get_figure_at_position('a', 0).is_none());
    assert!(board.get_possible_moves_at_position('a', 9).is_empty());
    assert!(board.get_possible_moves(Field { file: 'Z', rank: 2 }).is_empty());
    let (p, f) = board.get_figure_at_field(Field { file: 'b', rank: 2 });
    assert!(p.is_none());
    assert_eq!(f, Field { file: 'b', rank: 2 });
    let (p, f) = board.get_figure_at_field(at('b', 1));
    assert_eq!(p, Some(&piece(true, 'n')));
    assert_eq!(f, at('b', 1));
}

#[test]
fn knight_in_the_centre() {
    let mut board = Board::new();
    board.add_piece(at('d', 4), piece(true, 'n'));
    let moves = board.get_possible_moves(at('d', 4));
    assert_eq!(
        sorted(moves.clone()),
        vec![('B', 3), ('B', 5), ('C', 2), ('C', 6), ('E', 2), ('E', 6), ('F', 3), ('F', 5)]
    );
    assert_eq!(
        moves,
        vec![at('e', 6), at('f', 5), at('f', 3), at('e', 2), at('c', 2), at('b', 3), at('b', 5), at('c', 6)]
    );
}

#[test]
fn knight_respects_edges_and_colors() {
    let mut board = Board::new();
    board.initial_position();
    assert_eq!(board.get_possible_moves(at('b', 1)), vec![at('c', 3), at('a', 3)]);
    let mut board = Board::new();
    board.add_piece(at('a', 1), piece(false, 'n'));
    board.add_piece(at('b', 3), piece(false, 'p'));
    board.add_piece(at('c', 2), piece(true, 'p'));
    assert_eq!(board.get_possible_moves(at('a', 1)), vec![at('c', 2)]);
}

#[test]
fn rook_in_the_centre() {
    let mut board = Board::new();
    board.add_piece(at('d', 4), piece(true, 'r'));
    let moves = board.get_possible_moves(at('d', 4));
    assert_eq!(moves.len(), 14);
    assert_eq!(
        sorted(moves),
        vec![
            ('A', 4), ('B', 4), ('C', 4), ('D', 1), ('D', 2), ('D', 3), ('D', 5),
            ('D', 6), ('D', 7), ('D', 8), ('E', 4), ('F', 4), ('G', 4), ('H', 4)
        ]
    );
}

#[test]
fn rook_ray_stops_at_opponent() {
    let mut board = Board::new();
    board.add_piece(at('d', 4), piece(true, 'r'));
    board.add_piece(at('d', 6), piece(false, 'p'));
    let moves = board.get_possible_moves(at('d', 4));
    assert_eq!(moves.len(), 12);
    assert!(moves.contains(&at('d', 5)));
    assert!(moves.contains(&at('d', 6)));
    assert!(!moves.contains(&at('d', 7)));
    assert!(!moves.contains(&at('d', 8)));
    assert_eq!(moves[0..2].to_vec(), vec![at('d', 5), at('d', 6)]);
}

#[test]
fn rook_ray_stops_before_own_piece() {
    let mut board = Board::new();
    board.add_piece(at('d', 4), piece(true, 'r'));
    board.add_piece(at('d', 6), piece(true, 'p'));
    let moves = board.get_possible_moves(at('d', 4));
    assert_eq!(moves.len(), 11);
    assert!(moves.contains(&at('d', 5)));
    assert!(!moves.contains(&at('d', 6)));
    assert!(!moves.contains(&at('d', 7)));
    assert!(!moves.contains(&at('d', 8)));
}

#[test]
fn bishop_and_queen_in_the_centre() {
    let mut board = Board::new();
    board.add_piece(at('d', 4), piece(false, 'b'));
    let moves = board.get_possible_moves(at('d', 4));
    assert_eq!(
        sorted(moves),
        vec![
            ('A', 1), ('A', 7), ('B', 2), ('B', 6), ('C', 3), ('C', 5), ('E', 3),
            ('E', 5), ('F', 2), ('F', 6), ('G', 1), ('G', 7), ('H', 8)
        ]
    );
    board.add_piece(at('d', 4), piece(false, 'q'));
    assert_eq!(board.get_possible_moves(at('d', 4)).len(), 27);
    board.add_piece(at('f', 6), piece(true, 'p'));
    board.add_piece(at('b', 2), piece(false, 'p'));
    let moves = board.get_possible_moves(at('d', 4));
    assert_eq!(moves.len(), 27 - 2 - 2);
    assert!(moves.contains(&at('f', 6)));
    assert!(!moves.contains(&at('b', 2)));
}

#[test]
fn queen_blocked_in_opening() {
    let mut board = Board::new();
    board.initial_position();
    assert!(board.get_possible_moves(at('d', 1)).is_empty());
    assert!(board.get_possible_moves(at('c', 8)).is_empty());
    assert!(board.get_possible_moves(at('h', 1)).is_empty());
}

#[test]
fn king_steps_in_the_centre() {
    let mut board = Board::new();
    board.add_piece(at('d', 4), piece(true, 'k'));
    board.add_piece(at('d', 5), piece(true, 'p'));
    board.add_piece(at('e', 5), piece(false, 'p'));
    let moves = board.get_possible_moves(at('d', 4));
    assert_eq!(
        moves,
        vec![at('e', 5), at('e', 4), at('e', 3), at('d', 3), at('c', 3), at('c', 4), at('c', 5)]
    );
}

#[test]
fn black_pawn_moves_down() {
    let mut board = Board::new();
    board.initial_position();
    assert_eq!(board.get_possible_moves_at_position('e', 7), vec![at('e', 6), at('e', 5)]);
    let mut board = Board::new();
    board.add_piece(at('e', 6), piece(false, 'p'));
    assert_eq!(board.get_possible_moves(at('e', 6)), vec![at('e', 5)]);
}

#[test]
fn pawn_captures_and_blocking() {
    let mut board = Board::new();
    board.add_piece(at('e', 4), piece(true, 'p'));
    board.add_piece(at('d', 5), piece(false, 'p'));
    board.add_piece(at('f', 5), piece(true, 'p'));
    assert_eq!(board.get_possible_moves(at('e', 4)), vec![at('e', 5), at('d', 5)]);
    board.add_piece(at('e', 5), piece(false, 'n'));
    assert_eq!(board.get_possible_moves(at('e', 4)), vec![at('d', 5)]);

    let mut board = Board::new();
    board.add_piece(at('c', 2), piece(true, 'p'));
    board.add_piece(at('c', 3), piece(false, 'p'));
    assert!(board.get_possible_moves(at('c', 2)).is_empty());
    board.clear_field(at('c', 3));
    board.add_piece(at('c', 4), piece(false, 'p'));
    assert_eq!(board.get_possible_moves(at('c', 2)), vec![at('c', 3)]);
}

#[test]
fn pawn_on_last_rank_has_no_moves() {
    let mut board = Board::new();
    board.add_piece(at('a', 8), piece(true, 'p'));
    board.add_piece(at('h', 1), piece(false, 'p'));
    assert!(board.get_possible_moves(at('a', 8)).is_empty());
    assert!(board.get_possible_moves(at('h', 1)).is_empty());
    board.add_piece(at('b', 7), piece(true, 'p'));
    assert_eq!(board.get_possible_moves(at('b', 7)), vec![at('b', 8)]);
}

#[test]
fn double_step_opens_en_passant() {
    let mut board = Board::new();
    board.add_piece(at('e', 5), piece(true, 'p'));
    board.add_piece(at('d', 7), piece(false, 'p'));
    assert!(board.move_piece(at('d', 7), at('d', 5)));
    assert_eq!(board.en_passant_targets(), &vec![at('d', 6)]);
    assert_eq!(board.get_possible_moves(at('e', 5)), vec![at('e', 6), at('d', 6)]);
    assert!(board.move_piece(at('e', 5), at('e', 6)));
    assert!(board.en_passant_targets().is_empty());

    let mut board = Board::new();
    board.add_piece(at('g', 2), piece(true, 'p'));
    assert!(board.move_piece(at('g', 2), at('g', 4)));
    assert_eq!(board.en_passant_targets(), &vec![at('g', 3)]);
    board.add_piece(at('g', 3), piece(true, 'r'));
    assert!(board.move_piece(at('g', 3), at('g', 5)));
    assert!(board.en_passant_targets().is_empty());
}

#[test]
fn move_from_empty_field_changes_nothing() {
    let mut board = Board::new();
    board.initial_position();
    assert!(board.move_piece(at('g', 1), at('f', 3)));
    let before: Vec<Option<Piece>> = (1u8..=8)
        .flat_map(|r| ['a', 'b', 'c', 'd', 'e', 'f', 'g', 'h'].map(|c| (c, r)))
        .map(|(c, r)| board.get_figure_at_position(c, r).copied())
        .collect();
    let rights = board.castling_rights();
    assert!(!board.move_piece(at('e', 4), at('e', 5)));
    let after: Vec<Option<Piece>> = (1u8..=8)
        .flat_map(|r| ['a', 'b', 'c', 'd', 'e', 'f', 'g', 'h'].map(|c| (c, r)))
        .map(|(c, r)| board.get_figure_at_position(c, r).copied())
        .collect();
    assert_eq!(before, after);
    assert_eq!(board.move_history(), &vec![(at('g', 1), at('f', 3))]);
    assert_eq!(board.castling_rights(), rights);
    assert!(board.en_passant_targets().is_empty());
}

#[test]
fn capture_replaces_occupant() {
    let mut board = Board::new();
    board.add_piece(at('c', 3), piece(true, 'b'));
    board.add_piece(at('f', 6), piece(false, 'n'));
    assert!(board.move_piece(at('c', 3), at('f', 6)));
    assert_eq!(board.get_figure_at_position('f', 6), Some(&piece(true, 'b')));
    assert!(board.get_figure_at_position('c', 3).is_none());
}

#[test]
fn castling_destinations_follow_rights_and_emptiness() {
    let mut board = Board::new();
    board.add_piece(at('e', 1), piece(true, 'k'));
    board.add_piece(at('a', 1), piece(true, 'r'));
    board.add_piece(at('h', 1), piece(true, 'r'));
    assert_eq!(
        board.get_possible_moves(at('e', 1)),
        vec![at('e', 2), at('f', 2), at('f', 1), at('d', 1), at('d', 2), at('g', 1), at('c', 1)]
    );
    board.add_piece(at('b', 1), piece(false, 'n'));
    let moves = board.get_possible_moves(at('e', 1));
    assert!(moves.contains(&at('g', 1)));
    assert!(!moves.contains(&at('c', 1)));

    assert!(board.move_piece(at('h', 1), at('h', 2)));
    let rights = board.castling_rights();
    assert!(!rights.white_kingside);
    assert!(rights.white_queenside);
    assert!(rights.black_kingside && rights.black_queenside);
    assert!(!board.get_possible_moves(at('e', 1)).contains(&at('g', 1)));
}

#[test]
fn king_and_rook_moves_end_rights() {
    let mut board = Board::new();
    board.initial_position();
    assert!(board.move_piece(at('e', 8), at('e', 7)));
    let rights = board.castling_rights();
    assert!(!rights.black_kingside && !rights.black_queenside);
    assert!(rights.white_kingside && rights.white_queenside);

    board.add_piece(at('b', 3), piece(false, 'b'));
    assert!(board.move_piece(at('b', 3), at('a', 1)));
    let rights = board.castling_rights();
    assert!(!rights.white_queenside);
    assert!(rights.white_kingside);

    board.initial_position();
    assert_eq!(board.castling_rights(), all_rights());
    assert!(board.get_possible_moves(at('e', 1)).is_empty());
}

#[test]
fn clear_field_and_overwrite() {
    let mut board = Board::new();
    board.add_piece(at('a', 1), piece(true, 'p'));
    board.add_piece(at('a', 1), piece(true, 'q'));
    assert_eq!(board.get_figure_at_position('a', 1), Some(&piece(true, 'q')));
    board.clear_field(at('a', 1));
    assert!(board.get_figure_at_position('a', 1).is_none());
    board.clear_field(at('a', 1));
    assert!(board.get_figure_at_position('a', 1).is_none());
}

#[test]
fn rights_follow_the_king_and_rooks_not_squares() {
    let mut board = Board::new();
    board.add_piece(at('e', 1), piece(true, 'q'));
    assert!(board.move_piece(at('e', 1), at('e', 4)));
    assert_eq!(board.castling_rights(), all_rights());

    board.add_piece(at('d', 1), piece(true, 'k'));
    assert!(board.move_piece(at('d', 1), at('d', 2)));
    let rights = board.castling_rights();
    assert!(!rights.white_kingside && !rights.white_queenside);
    assert!(rights.black_kingside && rights.black_queenside);
}

#[test]
fn rook_capture_on_corner_ends_right() {
    let mut board = Board::new();
    board.initial_position();
    board.add_piece(at('g', 6), piece(true, 'b'));
    board.clear_field(at('g', 7));
    assert!(board.move_piece(at('g', 6), at('h', 7)));
    assert_eq!(board.castling_rights(), all_rights());
    assert!(board.move_piece(at('h', 7), at('h', 8)));
    let rights = board.castling_rights();
    assert!(!rights.black_kingside);
    assert!(rights.black_queenside && rights.white_kingside && rights.white_queenside);

    board.add_piece(at('a', 3), piece(true, 'n'));
    assert!(board.move_piece(at('a', 3), at('b', 5)));
    board.add_piece(at('a', 1), piece(true, 'q'));
    assert!(board.move_piece(at('a', 1), at('a', 2)));
    assert!(board.castling_rights().white_queenside);
}
