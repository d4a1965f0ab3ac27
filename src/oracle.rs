//! The move-legality oracle: the `chess` crate, reached through trusted
//! wrappers whose results are named by the spec functions below.
use vstd::prelude::*;
use std::str::FromStr;

verus! {

/// The `chess` crate's `Board`, carried opaquely between the wrappers below.
#[verifier::external_type_specification]
#[verifier::external_body]
pub struct ExBoard(chess::Board);

/// The `chess` crate's `BoardBuilder`: a parsed FEN layout, not yet checked.
#[verifier::external_type_specification]
#[verifier::external_body]
pub struct ExBoardBuilder(chess::BoardBuilder);

/// How a position stands for the side to move.
#[derive(Clone, Copy, Debug, PartialEq, Eq, Structural)]
pub enum Outcome {
    Normal,
    Checkmate,
    Stalemate,
}

/// A legal move as plain values: source square index, destination square
/// index (rank * 8 + file, both from zero), and whether it names a promotion.
pub type PlainMove = (u8, u8, bool);

/// The board that a FEN text parses to, if any.
pub uninterp spec fn parsed_board(fen: Seq<char>) -> Option<chess::Board>;

/// The layout that a FEN text parses to, if any.
pub uninterp spec fn parsed_layout(fen: Seq<char>) -> Option<chess::BoardBuilder>;

/// The 64 squares of a layout by index: the piece kind (pawn 0, knight 1,
/// bishop 2, rook 3, queen 4, king 5) and whether it is White's.
pub uninterp spec fn layout_squares(l: chess::BoardBuilder) -> Seq<Option<(u8, bool)>>;

/// Whether White is to move in a layout.
pub uninterp spec fn layout_white(l: chess::BoardBuilder) -> bool;

/// How many pieces of one colour (White if `white`) stand on a board.
pub uninterp spec fn pieces_of_colour(b: chess::Board, white: bool) -> u32;

/// The piece kind of a king in `layout_squares`.
pub const KING: u8 = 5;

/// The move generator keeps one entry per piece of the side to move in a
/// fixed list of 18; at most 16 pieces a side keeps it within that list.
pub const MAX_PIECES: u32 = 16;

/// The number of spaces in `s`.
pub open spec fn spaces(s: Seq<char>) -> nat
    decreases s.len(),
{
    if s.len() == 0 {
        0
    } else {
        spaces(s.drop_last()) + if s.last() == ' ' {
            1nat
        } else {
            0nat
        }
    }
}

/// Whether the fourth field of `s`, split at single spaces (the en passant
/// field of a FEN text), is one character outside ASCII.
pub open spec fn lone_wide_ep_field(s: Seq<char>) -> bool {
    exists|i: int|
        1 <= i < s.len() && '\u{7f}' < #[trigger] s[i] && s[i - 1] == ' ' && spaces(s.subrange(0, i))
            == 3 && (i + 1 == s.len() || s[i + 1] == ' ')
}

/// Whether the layout's squares hold a king of the side to move.
pub open spec fn king_present(squares: Seq<Option<(u8, bool)>>, white: bool) -> bool {
    exists|i: int| 0 <= i < squares.len() && squares[i] == Some((KING, white))
}

/// Whether neither colour has more pieces than the move generator can list.
pub open spec fn within_limits(b: chess::Board) -> bool {
    pieces_of_colour(b, true) <= MAX_PIECES && pieces_of_colour(b, false) <= MAX_PIECES
}

/// The FEN text of a board.
pub uninterp spec fn fen_of(b: chess::Board) -> Seq<char>;

/// The legal moves of a board, in the order the move generator yields them.
pub uninterp spec fn legal_moves_of(b: chess::Board) -> Seq<PlainMove>;

/// The board after a move without promotion from `from` to `to`.
pub uninterp spec fn board_after(b: chess::Board, from: u8, to: u8) -> chess::Board;

/// The status of a board.
pub uninterp spec fn outcome_of(b: chess::Board) -> Outcome;

/// The standard starting layout in FEN.
pub open spec fn start_fen() -> Seq<char> {
    "rnbqkbnr/pppppppp/8/8/8/8/PPPPPPPP/RNBQKBNR w KQkq - 0 1"@
}

/// The square index that a coordinate text such as "e4" names: a file letter
/// 'a'..='h' and a rank digit '1'..='8' as its first two characters; what
/// follows them is ignored.
pub open spec fn square_of(s: Seq<char>) -> Option<u8> {
    if s.len() >= 2 && 'a' <= s[0] && s[0] <= 'h' && '1' <= s[1] && s[1] <= '8' {
        Some(((s[1] as int - '1' as int) * 8 + (s[0] as int - 'a' as int)) as u8)
    } else {
        None
    }
}

/// Relies on `Board::default`, which parses the standard starting FEN, and
/// on `Board`'s `Display`, which writes that text back.
#[verifier::external_body]
pub(crate) fn starting_board() -> (r: chess::Board)
    ensures
        parsed_board(start_fen()) == Some(r),
        fen_of(r) == start_fen(),
{
    chess::Board::default()
}

/// Relies on `BoardBuilder::from_str` (FEN parsing); an error becomes
/// `None`. The en passant field goes to `Square::from_str`, which indexes two
/// characters after checking only the byte length, so it must not be a lone
/// character outside ASCII.
#[verifier::external_body]
pub(crate) fn parse_layout(fen: &str) -> (r: Option<chess::BoardBuilder>)
    requires
        !lone_wide_ep_field(fen@),
    ensures
        r == parsed_layout(fen@),
{
    chess::BoardBuilder::from_str(fen).ok()
}

/// Relies on `BoardBuilder`'s `Index<Square>`, read for every square in
/// index order.
#[verifier::external_body]
pub(crate) fn layout_pieces(l: &chess::BoardBuilder) -> (r: Vec<Option<(u8, bool)>>)
    ensures
        r@ == layout_squares(*l),
        r@.len() == 64,
{
    chess::ALL_SQUARES
        .iter()
        .map(|q| l[*q].map(|(p, c)| (p.to_index() as u8, c == chess::Color::White)))
        .collect()
}

/// Relies on `BoardBuilder::get_side_to_move`.
#[verifier::external_body]
pub(crate) fn layout_white_to_move(l: &chess::BoardBuilder) -> (r: bool)
    ensures
        r == layout_white(*l),
{
    l.get_side_to_move() == chess::Color::White
}

/// Relies on `Board::from_str` (FEN parsing); an error becomes `None`. It
/// parses the text with `BoardBuilder::from_str` and then places the king of
/// the side to move before it checks the board, so that king must be there.
/// A board it returns is sane, and its `Display` text parses back to it.
#[verifier::external_body]
pub(crate) fn parse_board(fen: &str) -> (r: Option<chess::Board>)
    requires
        !lone_wide_ep_field(fen@),
        parsed_layout(fen@) matches Some(l) && king_present(layout_squares(l), layout_white(l)),
    ensures
        r == parsed_board(fen@),
        r matches Some(b) ==> parsed_board(fen_of(b)) == Some(b),
{
    chess::Board::from_str(fen).ok()
}

/// Relies on `Board::color_combined` and `BitBoard::popcnt`.
#[verifier::external_body]
pub(crate) fn colour_count(b: &chess::Board, white: bool) -> (r: u32)
    ensures
        r == pieces_of_colour(*b, white),
{
    let c = if white {
        chess::Color::White
    } else {
        chess::Color::Black
    };
    b.color_combined(c).popcnt()
}

/// Relies on `Board`'s `Display`, which writes the board as FEN through
/// `BoardBuilder`.
#[verifier::external_body]
pub(crate) fn board_to_fen(b: &chess::Board) -> (r: String)
    ensures
        r@ == fen_of(*b),
{
    b.to_string()
}

/// Relies on `Square::from_str` and `Square::to_index`. The text must hold
/// two characters: `from_str` checks the byte length and then indexes the
/// first two characters.
#[verifier::external_body]
pub(crate) fn parse_square(s: &str) -> (r: Option<u8>)
    requires
        s@.len() >= 2,
    ensures
        r == square_of(s@),
{
    chess::Square::from_str(s).ok().map(|q| q.to_index() as u8)
}

/// Relies on `MoveGen::new_legal`, the generator of all legal moves; its
/// fixed list of 18 entries, one per piece that can move, bounds the pieces,
/// and it reads its tables at the king's square, so the board must be one
/// that `Board::from_str` gives (a sane one).
#[verifier::external_body]
pub(crate) fn legal_moves(b: &chess::Board) -> (r: Vec<PlainMove>)
    requires
        within_limits(*b),
        parsed_board(fen_of(*b)) == Some(*b),
    ensures
        r@ == legal_moves_of(*b),
{
    chess::MoveGen::new_legal(b)
        .map(|m| (m.get_source().to_index() as u8, m.get_dest().to_index() as u8, m.get_promotion().is_some()))
        .collect()
}

/// Relies on `Board::make_move_new`, given a legal move without promotion:
/// it moves, captures or removes pieces and never adds one, and from a board
/// whose text parses back to it, it makes another such board.
#[verifier::external_body]
pub(crate) fn make_move_new(b: &chess::Board, from: u8, to: u8) -> (r: chess::Board)
    requires
        from < 64,
        to < 64,
        legal_moves_of(*b).contains((from, to, false)),
    ensures
        r == board_after(*b, from, to),
        pieces_of_colour(r, true) <= pieces_of_colour(*b, true),
        pieces_of_colour(r, false) <= pieces_of_colour(*b, false),
        parsed_board(fen_of(*b)) == Some(*b) ==> parsed_board(fen_of(r)) == Some(r),
{
    let m = chess::ChessMove::new(chess::ALL_SQUARES[from as usize], chess::ALL_SQUARES[to as usize], None);
    b.make_move_new(m)
}

/// Relies on `Board::status`, which runs the legal move generator on a board
/// that `Board::from_str` gives (a sane one).
#[verifier::external_body]
pub(crate) fn board_status(b: &chess::Board) -> (r: Outcome)
    requires
        within_limits(*b),
        parsed_board(fen_of(*b)) == Some(*b),
    ensures
        r == outcome_of(*b),
{
    match b.status() {
        chess::BoardStatus::Ongoing => Outcome::Normal,
        chess::BoardStatus::Checkmate => Outcome::Checkmate,
        chess::BoardStatus::Stalemate => Outcome::Stalemate,
    }
}

} // verus!
