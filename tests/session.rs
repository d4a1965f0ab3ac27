use chess_contracts::game::{
    apply_outcome, contains_move, has_king, has_lone_wide_ep_field, initialize_game, make_move, ChessError, GameAccount, GameState,
    InitializeGame, MakeMove,
};
use chess_contracts::identity::Pubkey;
use chess_contracts::oracle::Outcome;
use std::str::FromStr;

const START: &str = "rnbqkbnr/pppppppp/8/8/8/8/PPPPPPPP/RNBQKBNR w KQkq - 0 1";

fn key(b: u8) -> Pubkey {
    Pubkey::new_from_array([b; 32])
}

fn admin() -> Pubkey {
    key(1)
}

fn white() -> Pubkey {
    key(2)
}

fn black() -> Pubkey {
    key(3)
}

fn new_session() -> MakeMove {
    let game = initialize_game(&InitializeGame { admin: admin() }, white(), black());
    MakeMove { game, admin: admin() }
}

fn session_at(fen: &str, turn: Pubkey) -> MakeMove {
    let mut s = new_session();
    s.game.board = fen.to_string();
    s.game.turn = turn;
    s
}

fn play(s: &mut MakeMove, from: &str, to: &str) -> Result<(), ChessError> {
    make_move(s, from.to_string(), to.to_string())
}

fn same_game(a: &GameAccount, b: &GameAccount) -> bool {
    a.admin == b.admin
        && a.player_1 == b.player_1
        && a.player_2 == b.player_2
        && a.board == b.board
        && a.turn == b.turn
        && a.state == b.state
        && a.winner == b.winner
}

#[test]
fn initialize_sets_starting_state() {
    let s = new_session();
    assert_eq!(s.game.admin, admin());
    assert_eq!(s.game.player_1, white());
    assert_eq!(s.game.player_2, black());
    assert_eq!(s.game.turn, white());
    assert_eq!(s.game.state, GameState::Ongoing);
    assert_eq!(s.game.winner, None);
    assert_eq!(s.game.board, START);
}

#[test]
fn initialize_allows_same_player_twice() {
    let g = initialize_game(&InitializeGame { admin: admin() }, white(), white());
    assert_eq!(g.player_1, g.player_2);
    assert_eq!(g.state, GameState::Ongoing);
}

#[test]
fn legal_opening_move_passes_turn() {
    let mut s = new_session();
    assert_eq!(play(&mut s, "e2", "e4"), Ok(()));
    assert_eq!(s.game.turn, black());
    assert_eq!(s.game.state, GameState::Ongoing);
    assert_eq!(s.game.winner, None);
    assert_eq!(s.game.board, "rnbqkbnr/pppppppp/8/8/4P3/8/PPPP1PPP/RNBQKBNR b KQkq - 0 1");
}

#[test]
fn illegal_pawn_move_rejected() {
    let mut s = new_session();
    let before = s.game.clone();
    assert_eq!(play(&mut s, "e2", "e5"), Err(ChessError::InvalidMove));
    assert!(same_game(&before, &s.game));
}

#[test]
fn moving_the_wrong_colour_rejected() {
    let mut s = new_session();
    let before = s.game.clone();
    assert_eq!(play(&mut s, "e7", "e5"), Err(ChessError::InvalidMove));
    assert!(same_game(&before, &s.game));
}

#[test]
fn non_admin_rejected() {
    let mut s = new_session();
    s.admin = white();
    let before = s.game.clone();
    assert_eq!(play(&mut s, "e2", "e4"), Err(ChessError::Unauthorized));
    assert!(same_game(&before, &s.game));
}

#[test]
fn malformed_squares_rejected() {
    let mut s = new_session();
    let before = s.game.clone();
    assert_eq!(play(&mut s, "z9", "e4"), Err(ChessError::InvalidMove));
    assert_eq!(play(&mut s, "e2", "e"), Err(ChessError::InvalidMove));
    assert_eq!(play(&mut s, "", "e4"), Err(ChessError::InvalidMove));
    assert_eq!(play(&mut s, "\u{e9}", "e4"), Err(ChessError::InvalidMove));
    assert_eq!(play(&mut s, "e2", "i4"), Err(ChessError::InvalidMove));
    assert!(same_game(&before, &s.game));
}

#[test]
fn square_text_beyond_two_characters_ignored() {
    let mut s = new_session();
    assert_eq!(play(&mut s, "e2xx", "e4!"), Ok(()));
    assert_eq!(s.game.turn, black());
}

#[test]
fn corrupted_board_rejected() {
    let mut s = session_at("not a position", white());
    assert_eq!(play(&mut s, "e2", "e4"), Err(ChessError::InvalidMove));
    assert_eq!(s.game.board, "not a position");
}

#[test]
fn turn_of_neither_player_rejected() {
    let mut s = new_session();
    s.game.turn = key(9);
    assert_eq!(play(&mut s, "e2", "e4"), Err(ChessError::InvalidMove));
    assert_eq!(s.game.turn, key(9));
}

#[test]
fn mating_move_wins_for_black() {
    let mut s = new_session();
    assert_eq!(play(&mut s, "f2", "f3"), Ok(()));
    assert_eq!(play(&mut s, "e7", "e5"), Ok(()));
    assert_eq!(play(&mut s, "g2", "g4"), Ok(()));
    assert_eq!(s.game.turn, black());
    assert_eq!(play(&mut s, "d8", "h4"), Ok(()));
    assert_eq!(s.game.state, GameState::BlackWon);
    assert_eq!(s.game.winner, Some(black()));
    assert_eq!(s.game.turn, black());
    let before = s.game.clone();
    assert_eq!(play(&mut s, "a2", "a3"), Err(ChessError::GameFinished));
    assert!(same_game(&before, &s.game));
}

#[test]
fn mating_move_wins_for_white() {
    let mut s = new_session();
    for (from, to) in [("e2", "e4"), ("e7", "e5"), ("f1", "c4"), ("b8", "c6"), ("d1", "h5"), ("g8", "f6")] {
        assert_eq!(play(&mut s, from, to), Ok(()));
        assert_eq!(s.game.state, GameState::Ongoing);
    }
    assert_eq!(play(&mut s, "h5", "f7"), Ok(()));
    assert_eq!(s.game.state, GameState::WhiteWon);
    assert_eq!(s.game.winner, Some(white()));
    assert_eq!(play(&mut s, "a7", "a6"), Err(ChessError::GameFinished));
}

#[test]
fn stalemating_move_draws() {
    let mut s = session_at("7k/4Q3/6K1/8/8/8/8/8 w - - 0 1", white());
    assert_eq!(play(&mut s, "e7", "f7"), Ok(()));
    assert_eq!(s.game.state, GameState::Draw);
    assert_eq!(s.game.winner, None);
    assert_eq!(s.game.board, "7k/5Q2/6K1/8/8/8/8/8 b - - 0 1");
    assert_eq!(play(&mut s, "h8", "g8"), Err(ChessError::GameFinished));
}

#[test]
fn promotion_without_piece_rejected() {
    let mut s = session_at("7k/P7/8/8/8/8/8/K7 w - - 0 1", white());
    assert_eq!(play(&mut s, "a7", "a8"), Err(ChessError::InvalidMove));
    assert_eq!(s.game.state, GameState::Ongoing);
}

#[test]
fn finished_game_absorbs_any_move() {
    for state in [GameState::Draw, GameState::WhiteWon, GameState::BlackWon, GameState::Canceled] {
        let mut s = new_session();
        s.game.state = state;
        assert_eq!(play(&mut s, "e2", "e4"), Err(ChessError::GameFinished));
        s.admin = key(7);
        assert_eq!(play(&mut s, "zz", ""), Err(ChessError::GameFinished));
        assert_eq!(s.game.board, START);
    }
}

#[test]
fn turn_alternates_over_accepted_moves() {
    let mut s = new_session();
    let moves = [("e2", "e4"), ("e7", "e5"), ("g1", "f3"), ("b8", "c6"), ("f1", "b5")];
    for (i, (from, to)) in moves.iter().enumerate() {
        assert_eq!(play(&mut s, from, to), Ok(()));
        let expected = if i % 2 == 0 { black() } else { white() };
        assert_eq!(s.game.turn, expected);
    }
}

#[test]
fn winner_set_only_on_decisive_result() {
    let mut s = new_session();
    for (from, to) in [("f2", "f3"), ("e7", "e5"), ("g2", "g4")] {
        assert_eq!(play(&mut s, from, to), Ok(()));
        assert_eq!(s.game.winner, None);
    }
    assert_eq!(play(&mut s, "d8", "h4"), Ok(()));
    assert_eq!(s.game.winner, Some(black()));
}

#[test]
fn stored_position_round_trips() {
    let mut s = new_session();
    for (from, to) in [("e2", "e4"), ("d7", "d5"), ("e4", "e5"), ("f7", "f5")] {
        assert_eq!(play(&mut s, from, to), Ok(()));
        let board = chess::Board::from_str(&s.game.board).unwrap();
        assert_eq!(board.to_string(), s.game.board);
    }
}

#[test]
fn contains_move_finds_exact_triple() {
    let moves = vec![(12u8, 28u8, false), (48u8, 56u8, true)];
    assert!(contains_move(&moves, (12, 28, false)));
    assert!(!contains_move(&moves, (12, 28, true)));
    assert!(!contains_move(&moves, (48, 56, false)));
    assert!(!contains_move(&Vec::new(), (0, 1, false)));
}

#[test]
fn apply_outcome_cases() {
    let mut g = new_session().game;
    apply_outcome(&mut g, "x".to_string(), Outcome::Normal);
    assert_eq!(g.turn, black());
    assert_eq!(g.board, "x");
    assert_eq!(g.state, GameState::Ongoing);
    let mut mate = g.clone();
    apply_outcome(&mut mate, "y".to_string(), Outcome::Checkmate);
    assert_eq!(mate.state, GameState::BlackWon);
    assert_eq!(mate.winner, Some(black()));
    assert_eq!(mate.turn, black());
    let mut draw = g.clone();
    apply_outcome(&mut draw, "z".to_string(), Outcome::Stalemate);
    assert_eq!(draw.state, GameState::Draw);
    assert_eq!(draw.winner, None);
    assert_eq!(draw.turn, black());
}

#[test]
fn error_messages() {
    assert_eq!(ChessError::GameFinished.message(), "The game is already finished.");
    assert_eq!(ChessError::Unauthorized.message(), "Only the admin can make moves.");
    assert_eq!(ChessError::InvalidMove.message(), "Invalid move.");
}

#[test]
fn pubkey_equality_by_bytes() {
    let mut b = [5u8; 32];
    assert_eq!(Pubkey::new_from_array(b), key(5));
    b[31] = 6;
    assert_ne!(Pubkey::new_from_array(b), key(5));
    assert_eq!(Pubkey::new_from_array(b).to_bytes(), b);
}

#[test]
fn board_without_king_to_move_rejected() {
    let mut s = session_at("7k/8/8/8/8/8/8/8 w - - 0 1", white());
    let before = s.game.clone();
    assert_eq!(play(&mut s, "h8", "g8"), Err(ChessError::InvalidMove));
    assert!(same_game(&before, &s.game));
}

#[test]
fn board_with_too_many_pieces_rejected() {
    let mut s = session_at("7k/8/8/8/NNNNNNNN/NNNNNNNN/NNNNNNNN/K7 w - - 0 1", white());
    let before = s.game.clone();
    assert_eq!(play(&mut s, "b2", "c4"), Err(ChessError::InvalidMove));
    assert!(same_game(&before, &s.game));
}

#[test]
fn non_ascii_board_rejected() {
    let mut s = session_at("7k/8/8/8/8/8/8/K7 w - \u{e9} 0 1", white());
    let before = s.game.clone();
    assert_eq!(play(&mut s, "a1", "a2"), Err(ChessError::InvalidMove));
    assert!(same_game(&before, &s.game));
}

#[test]
fn sparse_legal_board_accepted() {
    let mut s = session_at("7k/8/8/8/8/8/8/K7 w - - 0 1", white());
    assert_eq!(play(&mut s, "a1", "a2"), Ok(()));
    assert_eq!(s.game.board, "7k/8/8/8/8/8/K7/8 b - - 0 1");
    assert_eq!(s.game.turn, black());
}

#[test]
fn initial_board_round_trips() {
    let s = new_session();
    assert_eq!(chess::Board::from_str(&s.game.board).unwrap(), chess::Board::default());
}

#[test]
fn non_ascii_outside_ep_field_accepted() {
    for fen in [
        "7k/8/8/8/8/8/8/K7 w - - 0 1 \u{e9}",
        "7k/8/8/8/8/8/8/K7 w -\u{e9} - 0 1",
        "7k/8/8/8/8/8/8/K7 w - \u{e9}\u{e9} 0 1",
    ] {
        let mut s = session_at(fen, white());
        assert_eq!(play(&mut s, "a1", "a2"), Ok(()));
        assert_eq!(s.game.board, "7k/8/8/8/8/8/K7/8 b - - 0 1");
    }
}

#[test]
fn lone_wide_ep_field_detection() {
    assert!(has_lone_wide_ep_field("a b c \u{e9}"));
    assert!(has_lone_wide_ep_field("a b c \u{e9} 0 1"));
    assert!(!has_lone_wide_ep_field("a b c \u{e9}\u{e9} 0 1"));
    assert!(!has_lone_wide_ep_field("a b c e3 \u{e9}"));
    assert!(!has_lone_wide_ep_field("a b \u{e9} -"));
    assert!(!has_lone_wide_ep_field("a b c - 0 1"));
    assert!(!has_lone_wide_ep_field(""));
    assert!(!has_lone_wide_ep_field("\u{e9}"));
}

#[test]
fn king_detection() {
    let mut squares = vec![None; 64];
    assert!(!has_king(&squares, true));
    squares[63] = Some((5u8, false));
    assert!(has_king(&squares, false));
    assert!(!has_king(&squares, true));
    squares[0] = Some((4u8, true));
    assert!(!has_king(&squares, true));
}
