//! Opponent strategies: a strategy looks at the board and proposes a move
//! for the player whose turn it is.

use rand::Rng;
use vstd::prelude::*;

use crate::tic_tac_toe::count_empty;
use crate::tic_tac_toe::lemma_count_empty_take_step;
use crate::tic_tac_toe::Board;
use crate::tic_tac_toe::GameError;
use crate::tic_tac_toe::Move;

verus! {

/// Relies on rand::Rng::gen_range on rand::thread_rng: a uniform sample from
/// the half-open range 0..n, so the result is below n. The call panics on an
/// empty range, which n > 0 rules out.
#[verifier::external_body]
fn random_index(n: usize) -> (r: usize)
    requires
        n > 0,
    ensures
        r < n,
{
    rand::thread_rng().gen_range(0..n)
}

/// An opponent strategy: given a board, produce a move or fail.
pub trait TicTacToeBrain {
    /// Proposes a valid move for the player whose turn it is. Fails with
    /// `NoAvailableMoves` exactly when the board has no empty cell left.
    fn make_move(&self, board: &Board) -> (r: Result<Move, GameError>)
        requires
            board.wf(),
        ensures
            r matches Ok(m) ==> m.wf() && board.spec_valid_move(m),
            r is Err <==> count_empty(board@) == 0,
            r is Err ==> r == Err::<Move, GameError>(GameError::NoAvailableMoves),
    ;
}

/// The simplest opponent: it picks uniformly at random among the empty cells.
pub struct BrainLevelOne;

impl TicTacToeBrain for BrainLevelOne {
    fn make_move(&self, board: &Board) -> (r: Result<Move, GameError>) {
        let mut empty_positions: Vec<usize> = Vec::new();
        let mut position: usize = 1;
        while position <= 9
            invariant
                board.wf(),
                1 <= position <= 10,
                forall|k: int|
                    0 <= k < empty_positions@.len() ==> {
                        &&& 1 <= empty_positions@[k] <= 9
                        &&& board@[empty_positions@[k] - 1] is None
                    },
                empty_positions@.len() == count_empty(board@.take(position - 1)),
            decreases 10 - position,
        {
            proof {
                lemma_count_empty_take_step(board@, position - 1);
            }
            if board.is_slot_empty(position) {
                empty_positions.push(position);
            }
            position = position + 1;
        }
        proof {
            assert(board@.take(9) =~= board@);
        }
        if empty_positions.len() < 1 {
            return Err(GameError::NoAvailableMoves);
        }
        let index: usize = random_index(empty_positions.len());
        let chosen_position: usize = empty_positions[index];
        match Move::create(chosen_position, board.get_next_player()) {
            Ok(player_move) => Ok(player_move),
            Err(_) => {
                proof {
                    assert(false);
                }
                Err(GameError::NoAvailableMoves)
            },
        }
    }
}

} // verus!
