//! The session record and its state machine: creation, and the transition
//! that one submitted move makes.
use vstd::prelude::*;
use vstd::string::StrSliceExecFns;
use crate::identity::Pubkey;
use crate::oracle::{
    Outcome, PlainMove, KING, MAX_PIECES, parsed_board, parsed_layout, layout_squares,
    layout_white, fen_of, legal_moves_of, board_after, outcome_of, start_fen, square_of,
    king_present, within_limits, lone_wide_ep_field, spaces, starting_board, parse_layout, layout_pieces,
    layout_white_to_move, parse_board, colour_count, board_to_fen, parse_square, legal_moves,
    make_move_new, board_status,
};

verus! {

/// Where a session stands.
#[derive(Clone, Copy, Debug, PartialEq, Eq, Structural)]
pub enum GameState {
    Ongoing,
    Draw,
    WhiteWon,
    BlackWon,
    Canceled,
}

/// Why a submitted move was refused.
#[derive(Clone, Copy, Debug, PartialEq, Eq, Structural)]
pub enum ChessError {
    GameFinished,
    Unauthorized,
    InvalidMove,
}

impl ChessError {
    /// The message shown to the submitter.
    pub fn message(&self) -> (r: &'static str)
        ensures
            *self == ChessError::GameFinished ==> r@ == "The game is already finished."@,
            *self == ChessError::Unauthorized ==> r@ == "Only the admin can make moves."@,
            *self == ChessError::InvalidMove ==> r@ == "Invalid move."@,
    {
        match self {
            ChessError::GameFinished => "The game is already finished.",
            ChessError::Unauthorized => "Only the admin can make moves.",
            ChessError::InvalidMove => "Invalid move.",
        }
    }
}

/// One game's record. `player_1` plays White and `player_2` Black; `board`
/// is the position in FEN; `admin` is the one identity that may submit moves.
#[derive(Clone, Debug)]
pub struct GameAccount {
    pub admin: Pubkey,
    pub player_1: Pubkey,
    pub player_2: Pubkey,
    pub board: String,
    pub turn: Pubkey,
    pub state: GameState,
    pub winner: Option<Pubkey>,
}

/// A game record with its position as a character sequence.
pub struct GameModel {
    pub admin: Pubkey,
    pub player_1: Pubkey,
    pub player_2: Pubkey,
    pub board: Seq<char>,
    pub turn: Pubkey,
    pub state: GameState,
    pub winner: Option<Pubkey>,
}

impl View for GameAccount {
    type V = GameModel;

    open spec fn view(&self) -> GameModel {
        GameModel {
            admin: self.admin,
            player_1: self.player_1,
            player_2: self.player_2,
            board: self.board@,
            turn: self.turn,
            state: self.state,
            winner: self.winner,
        }
    }
}

/// The accounts of a game's creation: the identity that creates it and
/// becomes its admin.
pub struct InitializeGame {
    pub admin: Pubkey,
}

/// The accounts of a move submission: the game record and the identity that
/// signed the submission.
pub struct MakeMove {
    pub game: GameAccount,
    pub admin: Pubkey,
}

impl GameState {
    pub open spec fn is_decisive(self) -> bool {
        self == GameState::WhiteWon || self == GameState::BlackWon
    }
}

impl GameModel {
    /// A winner is recorded exactly on a decisive result, and it is the
    /// player of the winning colour; while the game goes on, the turn belongs
    /// to one of the two players.
    pub open spec fn wf(self) -> bool {
        &&& (self.winner is Some <==> self.state.is_decisive())
        &&& (self.state == GameState::WhiteWon ==> self.winner == Some(self.player_1))
        &&& (self.state == GameState::BlackWon ==> self.winner == Some(self.player_2))
        &&& (self.state == GameState::Ongoing ==> (self.turn == self.player_1 || self.turn
            == self.player_2))
    }

    /// The player who is not to move.
    pub open spec fn other_player(self) -> Pubkey {
        if self.turn == self.player_1 {
            self.player_2
        } else {
            self.player_1
        }
    }
}

/// A fresh game: White to move from the starting layout, no winner.
pub open spec fn initial_game(admin: Pubkey, player_1: Pubkey, player_2: Pubkey) -> GameModel {
    GameModel {
        admin,
        player_1,
        player_2,
        board: start_fen(),
        turn: player_1,
        state: GameState::Ongoing,
        winner: None,
    }
}

/// The record after an accepted move has left the board at `fen`, whose
/// status is `o`: mate decides for the player who moved, stalemate draws,
/// and otherwise the turn passes.
pub open spec fn settled(g: GameModel, fen: Seq<char>, o: Outcome) -> GameModel {
    let white = g.turn == g.player_1;
    match o {
        Outcome::Checkmate => GameModel {
            board: fen,
            state: if white {
                GameState::WhiteWon
            } else {
                GameState::BlackWon
            },
            winner: Some(
                if white {
                    g.player_1
                } else {
                    g.player_2
                },
            ),
            ..g
        },
        Outcome::Stalemate => GameModel { board: fen, state: GameState::Draw, winner: None, ..g },
        Outcome::Normal => GameModel { board: fen, turn: g.other_player(), ..g },
    }
}

/// The board that a stored FEN text stands for: its en passant field is not
/// a lone character outside ASCII, its layout parses and holds a king of the side to move, it parses to a board,
/// and neither colour has more than the move generator can list. Anything
/// else is a corrupted record.
pub open spec fn board_of_text(fen: Seq<char>) -> Option<chess::Board> {
    if lone_wide_ep_field(fen) {
        None
    } else {
        match parsed_layout(fen) {
            Some(l) => if king_present(layout_squares(l), layout_white(l)) {
                match parsed_board(fen) {
                    Some(b) => if within_limits(b) {
                        Some(b)
                    } else {
                        None
                    },
                    None => None,
                }
            } else {
                None
            },
            None => None,
        }
    }
}

/// The move that `from` and `to` name on the record's board, if the board
/// is usable, both squares parse and the move (without promotion) is legal.
pub open spec fn requested_move(g: GameModel, from: Seq<char>, to: Seq<char>) -> Option<
    (chess::Board, u8, u8),
> {
    match (board_of_text(g.board), square_of(from), square_of(to)) {
        (Some(b), Some(f), Some(t)) => if legal_moves_of(b).contains((f, t, false)) {
            Some((b, f, t))
        } else {
            None
        },
        _ => None,
    }
}

/// What submitting `from`-`to`, signed by `signer`, makes of the record.
pub open spec fn move_result(g: GameModel, signer: Pubkey, from: Seq<char>, to: Seq<char>) -> Result<
    GameModel,
    ChessError,
> {
    if g.state != GameState::Ongoing {
        Err(ChessError::GameFinished)
    } else if signer != g.admin {
        Err(ChessError::Unauthorized)
    } else if g.turn != g.player_1 && g.turn != g.player_2 {
        Err(ChessError::InvalidMove)
    } else {
        match requested_move(g, from, to) {
            Some((b, f, t)) => {
                let nb = board_after(b, f, t);
                Ok(settled(g, fen_of(nb), outcome_of(nb)))
            },
            None => Err(ChessError::InvalidMove),
        }
    }
}

proof fn lemma_square_bound(s: Seq<char>)
    ensures
        square_of(s) matches Some(q) ==> q < 64,
{
}

/// Creates a game between `player_1` (White) and `player_2` (Black), run by
/// the creating identity.
pub fn initialize_game(ctx: &InitializeGame, player_1: Pubkey, player_2: Pubkey) -> (r: GameAccount)
    ensures
        r@ == initial_game(ctx.admin, player_1, player_2),
        r@.wf(),
        parsed_board(r.board@) matches Some(b) && fen_of(b) == r.board@,
{
    let b = starting_board();
    GameAccount {
        admin: ctx.admin,
        player_1,
        player_2,
        board: board_to_fen(&b),
        turn: player_1,
        state: GameState::Ongoing,
        winner: None,
    }
}

/// Whether the en passant field of `text` (its fourth, split at single
/// spaces) is one character outside ASCII.
pub fn has_lone_wide_ep_field(text: &str) -> (r: bool)
    ensures
        r == lone_wide_ep_field(text@),
{
    let n = text.unicode_len();
    let mut count: usize = 0;
    let mut i: usize = 0;
    while i < n
        invariant
            n == text@.len(),
            0 <= i <= n,
            count == spaces(text@.subrange(0, i as int)),
            count <= i,
            forall|j: int|
                1 <= j < i ==> !('\u{7f}' < #[trigger] text@[j] && text@[j - 1] == ' ' && spaces(
                    text@.subrange(0, j),
                ) == 3 && (j + 1 == n || text@[j + 1] == ' ')),
        decreases n - i,
    {
        let c = text.get_char(i);
        if i >= 1 && c > '\u{7f}' && count == 3 && text.get_char(i - 1) == ' ' && (i + 1 == n
            || text.get_char(i + 1) == ' ') {
            return true;
        }
        assert(text@.subrange(0, i + 1).drop_last() =~= text@.subrange(0, i as int));
        if c == ' ' {
            count = count + 1;
        }
        i = i + 1;
    }
    false
}

/// Whether a layout's squares hold a king of the side given by `white`.
pub fn has_king(squares: &Vec<Option<(u8, bool)>>, white: bool) -> (r: bool)
    ensures
        r == king_present(squares@, white),
{
    let mut i: usize = 0;
    while i < squares.len()
        invariant
            0 <= i <= squares@.len(),
            forall|j: int| 0 <= j < i ==> squares@[j] != Some((KING, white)),
        decreases squares@.len() - i,
    {
        if let Some((kind, w)) = squares[i] {
            if kind == KING && w == white {
                return true;
            }
        }
        i = i + 1;
    }
    false
}

/// Whether `m` is among `moves`.
pub fn contains_move(moves: &Vec<PlainMove>, m: PlainMove) -> (r: bool)
    ensures
        r == moves@.contains(m),
{
    let mut i: usize = 0;
    while i < moves.len()
        invariant
            0 <= i <= moves@.len(),
            forall|j: int| 0 <= j < i ==> moves@[j] != m,
        decreases moves@.len() - i,
    {
        let (a, b, c) = moves[i];
        if a == m.0 && b == m.1 && c == m.2 {
            assert(moves@[i as int] == m);
            return true;
        }
        i = i + 1;
    }
    false
}

/// Records an accepted move that left the board at `board`, whose status is
/// `outcome`.
pub fn apply_outcome(game: &mut GameAccount, board: String, outcome: Outcome)
    ensures
        final(game)@ == settled(old(game)@, board@, outcome),
{
    let white = game.turn == game.player_1;
    game.board = board;
    match outcome {
        Outcome::Checkmate => {
            if white {
                game.state = GameState::WhiteWon;
                game.winner = Some(game.player_1);
            } else {
                game.state = GameState::BlackWon;
                game.winner = Some(game.player_2);
            }
        },
        Outcome::Stalemate => {
            game.state = GameState::Draw;
            game.winner = None;
        },
        Outcome::Normal => {
            if white {
                game.turn = game.player_2;
            } else {
                game.turn = game.player_1;
            }
        },
    }
}

/// Submits the move `from`-`to` (squares such as "e2", "e4") to the game,
/// signed by `ctx.admin`. On success the record holds the position after the
/// move and the status that follows; on failure it is left as it was.
pub fn make_move(ctx: &mut MakeMove, from: String, to: String) -> (r: Result<(), ChessError>)
    ensures
        final(ctx).admin == old(ctx).admin,
        match move_result(old(ctx).game@, old(ctx).admin, from@, to@) {
            Ok(g) => r is Ok && final(ctx).game@ == g,
            Err(e) => r == Err::<(), ChessError>(e) && final(ctx).game == old(ctx).game,
        },
        old(ctx).game@.wf() ==> final(ctx).game@.wf(),
        r is Ok ==> (requested_move(old(ctx).game@, from@, to@) matches Some((b, f, t))
            && parsed_board(final(ctx).game.board@) == Some(board_after(b, f, t))),
{
    if ctx.game.state != GameState::Ongoing {
        return Err(ChessError::GameFinished);
    }
    if ctx.admin != ctx.game.admin {
        return Err(ChessError::Unauthorized);
    }
    if !(ctx.game.turn == ctx.game.player_1) && !(ctx.game.turn == ctx.game.player_2) {
        return Err(ChessError::InvalidMove);
    }
    let text = ctx.game.board.as_str();
    if has_lone_wide_ep_field(text) {
        return Err(ChessError::InvalidMove);
    }
    let layout = match parse_layout(text) {
        Some(l) => l,
        None => return Err(ChessError::InvalidMove),
    };
    if !has_king(&layout_pieces(&layout), layout_white_to_move(&layout)) {
        return Err(ChessError::InvalidMove);
    }
    let board = match parse_board(text) {
        Some(b) => b,
        None => return Err(ChessError::InvalidMove),
    };
    if colour_count(&board, true) > MAX_PIECES || colour_count(&board, false) > MAX_PIECES {
        return Err(ChessError::InvalidMove);
    }
    // A square needs a file and a rank character; shorter text names none.
    if from.as_str().unicode_len() < 2 || to.as_str().unicode_len() < 2 {
        return Err(ChessError::InvalidMove);
    }
    let f = match parse_square(from.as_str()) {
        Some(q) => q,
        None => return Err(ChessError::InvalidMove),
    };
    let t = match parse_square(to.as_str()) {
        Some(q) => q,
        None => return Err(ChessError::InvalidMove),
    };
    proof {
        lemma_square_bound(from@);
        lemma_square_bound(to@);
    }
    let moves = legal_moves(&board);
    if !contains_move(&moves, (f, t, false)) {
        return Err(ChessError::InvalidMove);
    }
    let next = make_move_new(&board, f, t);
    let fen = board_to_fen(&next);
    let outcome = board_status(&next);
    apply_outcome(&mut ctx.game, fen, outcome);
    Ok(())
}

} // verus!
