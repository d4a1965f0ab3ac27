//! Properties of the session state machine that span several moves.
use vstd::prelude::*;
use crate::identity::Pubkey;
use crate::game::{GameModel, GameState, ChessError, move_result, requested_move, initial_game};

verus! {

/// A submitted move: the signing identity, then the source and destination
/// square texts.
pub type Submission = (Pubkey, Seq<char>, Seq<char>);

/// The record after submitting `subs` in order, or the error of the first
/// refused submission.
pub open spec fn play(g: GameModel, subs: Seq<Submission>) -> Result<GameModel, ChessError>
    decreases subs.len(),
{
    if subs.len() == 0 {
        Ok(g)
    } else {
        match move_result(g, subs[0].0, subs[0].1, subs[0].2) {
            Ok(g1) => play(g1, subs.drop_first()),
            Err(e) => Err(e),
        }
    }
}

/// A move that does not name a legal move on the record's board is refused,
/// and on a running game with the right signer it is refused as invalid.
pub proof fn lemma_illegal_move_rejected(g: GameModel, signer: Pubkey, from: Seq<char>, to: Seq<char>)
    requires
        requested_move(g, from, to) is None,
    ensures
        move_result(g, signer, from, to) is Err,
        g.state == GameState::Ongoing && signer == g.admin ==> move_result(g, signer, from, to)
            == Err::<GameModel, ChessError>(ChessError::InvalidMove),
{
}

/// An accepted move keeps the admin and both players.
pub proof fn lemma_move_keeps_players(g: GameModel, signer: Pubkey, from: Seq<char>, to: Seq<char>)
    ensures
        move_result(g, signer, from, to) matches Ok(g1) ==> g1.admin == g.admin && g1.player_1
            == g.player_1 && g1.player_2 == g.player_2,
{
}

/// An accepted move after which the game goes on hands the turn to the other
/// player.
pub proof fn lemma_turn_passes(g: GameModel, signer: Pubkey, from: Seq<char>, to: Seq<char>)
    ensures
        move_result(g, signer, from, to) matches Ok(g1) ==> (g1.state == GameState::Ongoing
            ==> g1.turn == g.other_player()),
{
}

/// Over any run of accepted moves that leaves the game going, the turn
/// alternates: after an even number of moves it
/// is back with the player who was to move, after an odd number it is with
/// the other one.
pub proof fn lemma_turn_alternation(g: GameModel, subs: Seq<Submission>)
    ensures
        play(g, subs) matches Ok(g2) ==> (g2.state == GameState::Ongoing ==> g2.turn == if subs.len()
            % 2 == 0 {
            g.turn
        } else {
            g.other_player()
        }),
    decreases subs.len(),
{
    if subs.len() > 0 {
        if let Ok(g1) = move_result(g, subs[0].0, subs[0].1, subs[0].2) {
            let rest = subs.drop_first();
            if rest.len() > 0 && g1.state != GameState::Ongoing {
                lemma_finished_game_absorbs(g1, rest);
            }
            lemma_turn_alternation(g1, rest);
        }
    }
}

/// Once the game has left `Ongoing`, every submission is refused with
/// `GameFinished`, whatever it holds, and so is every non-empty run of them.
pub proof fn lemma_finished_game_absorbs(g: GameModel, subs: Seq<Submission>)
    requires
        g.state != GameState::Ongoing,
    ensures
        forall|signer: Pubkey, from: Seq<char>, to: Seq<char>|
            #[trigger] move_result(g, signer, from, to) == Err::<GameModel, ChessError>(
                ChessError::GameFinished,
            ),
        subs.len() > 0 ==> play(g, subs) == Err::<GameModel, ChessError>(ChessError::GameFinished),
{
}

/// A fresh game is well formed, and every accepted move keeps it so: a
/// winner is recorded exactly on a decisive result, and it is the player who
/// delivered mate.
pub proof fn lemma_winner_consistency(g: GameModel, signer: Pubkey, from: Seq<char>, to: Seq<char>)
    requires
        g.wf(),
    ensures
        initial_game(g.admin, g.player_1, g.player_2).wf(),
        move_result(g, signer, from, to) matches Ok(g1) ==> g1.wf() && (g1.state.is_decisive()
            ==> g1.winner == Some(g.turn)),
{
}

/// Every run of accepted moves from a well-formed record ends well formed.
pub proof fn lemma_play_keeps_wf(g: GameModel, subs: Seq<Submission>)
    requires
        g.wf(),
    ensures
        play(g, subs) matches Ok(g2) ==> g2.wf(),
    decreases subs.len(),
{
    if subs.len() > 0 {
        if let Ok(g1) = move_result(g, subs[0].0, subs[0].1, subs[0].2) {
            lemma_winner_consistency(g, subs[0].0, subs[0].1, subs[0].2);
            lemma_play_keeps_wf(g1, subs.drop_first());
        }
    }
}

} // verus!
