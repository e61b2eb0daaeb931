//! The tic-tac-toe game state machine: players, moves, the board, and the
//! rules for applying a move and detecting a finished game.

use vstd::prelude::*;

verus! {

/// Width (and height) of the square board.
pub const BOARD_SIZE: usize = 3;

/// One of the two players.
#[derive(Eq, PartialEq, Structural, Debug, Clone, Copy)]
pub enum Player {
    O,
    X,
}

/// Why a request was rejected.
#[derive(Eq, PartialEq, Structural, Debug, Clone, Copy)]
pub enum GameError {
    /// A move was requested at a position outside 1..=9; carries the
    /// offending value.
    InvalidPosition(usize),
    /// A move was out of turn or aimed at an occupied cell.
    InvalidMove,
    /// A move was requested although a player has already won.
    GameAlreadyEnded,
    /// An opponent strategy was asked to move on a full board.
    NoAvailableMoves,
}

/// The opponent of `p`.
pub open spec fn other_player(p: Player) -> Player {
    match p {
        Player::O => Player::X,
        Player::X => Player::O,
    }
}

impl Player {
    /// Returns the character representation of the player.
    pub fn get_player_char_from_enum(player: &Player) -> (c: char)
        ensures
            c == (match player {
                Player::O => 'O',
                Player::X => 'X',
            }),
    {
        match player {
            Player::O => 'O',
            Player::X => 'X',
        }
    }

    /// Converts a character to a player enum, accepting either case.
    /// Returns `Some(Player)` for 'X' or 'O', and `None` for other characters.
    pub fn get_player_enum_from_char(c: char) -> (r: Option<Player>)
        ensures
            r == (if c == 'O' || c == 'o' {
                Some(Player::O)
            } else if c == 'X' || c == 'x' {
                Some(Player::X)
            } else {
                None::<Player>
            }),
    {
        if c == 'O' || c == 'o' {
            Some(Player::O)
        } else if c == 'X' || c == 'x' {
            Some(Player::X)
        } else {
            None
        }
    }
}

/// A move: a board position paired with the player making it. The position
/// is checked to lie in 1..=9 when the move is created, so every `Move`
/// value aims at a real cell.
#[derive(Eq, PartialEq, Structural, Debug, Clone, Copy)]
pub struct Move {
    position: usize,
    player: Player,
}

impl Move {
    /// The 1-based board position this move aims at.
    pub closed spec fn spec_position(self) -> usize {
        self.position
    }

    /// The player making this move.
    pub closed spec fn spec_player(self) -> Player {
        self.player
    }

    /// Every move that can be constructed aims inside the board.
    pub open spec fn wf(self) -> bool {
        1 <= self.spec_position() <= 9
    }

    /// Creates a new move.
    /// Succeeds exactly when the position lies in 1..=9; otherwise reports
    /// `InvalidPosition` with the offending value.
    pub fn create(position: usize, player: Player) -> (r: Result<Self, GameError>)
        ensures
            1 <= position <= 9 <==> r is Ok,
            r matches Ok(m) ==> m.spec_position() == position && m.spec_player() == player
                && m.wf(),
            !(1 <= position <= 9) ==> r == Err::<Move, GameError>(
                GameError::InvalidPosition(position),
            ),
    {
        if position > 0 && position <= 9 {
            Ok(Move { position, player })
        } else {
            Err(GameError::InvalidPosition(position))
        }
    }

    /// The 1-based board position this move aims at.
    pub fn position(&self) -> (r: usize)
        ensures
            r == self.spec_position(),
    {
        self.position
    }

    /// The player making this move.
    pub fn player(&self) -> (r: Player)
        ensures
            r == self.spec_player(),
    {
        self.player
    }
}

/// The possible states of the game after a move.
#[derive(Eq, PartialEq, Debug, Clone, Copy)]
pub enum BoardState {
    /// The game has ended. If `Some(Player)`, the indicated player has won.
    /// If `None`, the game ended in a tie.
    Ended(Option<Player>),
    /// The game is still ongoing.
    Ongoing,
}

/// How many cells of the grid are empty.
pub open spec fn count_empty(s: Seq<Option<Player>>) -> nat
    decreases s.len(),
{
    if s.len() == 0 {
        0
    } else {
        count_empty(s.drop_last()) + (if s.last() is None {
            1nat
        } else {
            0nat
        })
    }
}

/// The verdict of one line of three cells: the mark they share, if all
/// three hold the same mark, and no winner otherwise.
pub open spec fn line_winner(s: Seq<Option<Player>>, a: int, b: int, c: int) -> Option<Player>
    recommends
        0 <= a < s.len(),
        0 <= b < s.len(),
        0 <= c < s.len(),
{
    if s[a] is Some && s[b] == s[a] && s[c] == s[a] {
        s[a]
    } else {
        None
    }
}

/// Whether (a, b, c) is one of the eight winning lines of the grid:
/// three rows, three columns, and two diagonals, in that canonical order.
pub open spec fn is_line(a: int, b: int, c: int) -> bool {
    ||| (a == 0 && b == 1 && c == 2)
    ||| (a == 3 && b == 4 && c == 5)
    ||| (a == 6 && b == 7 && c == 8)
    ||| (a == 0 && b == 3 && c == 6)
    ||| (a == 1 && b == 4 && c == 7)
    ||| (a == 2 && b == 5 && c == 8)
    ||| (a == 0 && b == 4 && c == 8)
    ||| (a == 2 && b == 4 && c == 6)
}

/// The first winning row, scanning top to bottom.
pub open spec fn rows_winner(s: Seq<Option<Player>>) -> Option<Player> {
    if line_winner(s, 0, 1, 2) is Some {
        line_winner(s, 0, 1, 2)
    } else if line_winner(s, 3, 4, 5) is Some {
        line_winner(s, 3, 4, 5)
    } else {
        line_winner(s, 6, 7, 8)
    }
}

/// The first winning column, scanning left to right.
pub open spec fn columns_winner(s: Seq<Option<Player>>) -> Option<Player> {
    if line_winner(s, 0, 3, 6) is Some {
        line_winner(s, 0, 3, 6)
    } else if line_winner(s, 1, 4, 7) is Some {
        line_winner(s, 1, 4, 7)
    } else {
        line_winner(s, 2, 5, 8)
    }
}

/// The first winning diagonal, the main diagonal before the anti-diagonal.
pub open spec fn diagonals_winner(s: Seq<Option<Player>>) -> Option<Player> {
    if line_winner(s, 0, 4, 8) is Some {
        line_winner(s, 0, 4, 8)
    } else {
        line_winner(s, 2, 4, 6)
    }
}

/// The winner of the grid: the first winning line found, examining rows,
/// then columns, then diagonals.
pub open spec fn winner_of(s: Seq<Option<Player>>) -> Option<Player> {
    if rows_winner(s) is Some {
        rows_winner(s)
    } else if columns_winner(s) is Some {
        columns_winner(s)
    } else {
        diagonals_winner(s)
    }
}

/// Extending a scanned prefix by one cell adds that cell's contribution.
pub(crate) proof fn lemma_count_empty_take_step(s: Seq<Option<Player>>, i: int)
    requires
        0 <= i < s.len(),
    ensures
        count_empty(s.take(i + 1)) == count_empty(s.take(i)) + (if s[i] is None {
            1nat
        } else {
            0nat
        }),
{
    assert(s.take(i + 1).drop_last() =~= s.take(i));
    assert(s.take(i + 1).last() == s[i]);
}

/// A grid of empty cells has as many empty cells as cells.
proof fn lemma_count_empty_all_none(s: Seq<Option<Player>>)
    requires
        forall|i: int| 0 <= i < s.len() ==> s[i] is None,
    ensures
        count_empty(s) == s.len(),
    decreases s.len(),
{
    if s.len() > 0 {
        assert(forall|i: int| 0 <= i < s.drop_last().len() ==> s.drop_last()[i] is None);
        lemma_count_empty_all_none(s.drop_last());
    }
}

/// Marking an empty cell reduces the number of empty cells by one.
proof fn lemma_count_empty_update(s: Seq<Option<Player>>, i: int, p: Player)
    requires
        0 <= i < s.len(),
        s[i] is None,
    ensures
        count_empty(s.update(i, Some(p))) + 1 == count_empty(s),
    decreases s.len(),
{
    let s2 = s.update(i, Some(p));
    if i == s.len() - 1 {
        assert(s2.drop_last() =~= s.drop_last());
    } else {
        assert(s2.drop_last() =~= s.drop_last().update(i, Some(p)));
        lemma_count_empty_update(s.drop_last(), i, p);
    }
}

/// Law: the grid shows a winner exactly when one of the eight lines is
/// complete, i.e. all three of its cells hold the same mark. In particular a
/// full grid with no complete line has no winner, and a move that fills it
/// ties the game.
pub proof fn lemma_winner_iff_complete_line(s: Seq<Option<Player>>)
    ensures
        winner_of(s) is Some <==> exists|a: int, b: int, c: int|
            is_line(a, b, c) && line_winner(s, a, b, c) is Some,
{
    if winner_of(s) is Some {
        if line_winner(s, 0, 1, 2) is Some {
            assert(is_line(0, 1, 2) && line_winner(s, 0, 1, 2) is Some);
        } else if line_winner(s, 3, 4, 5) is Some {
            assert(is_line(3, 4, 5) && line_winner(s, 3, 4, 5) is Some);
        } else if line_winner(s, 6, 7, 8) is Some {
            assert(is_line(6, 7, 8) && line_winner(s, 6, 7, 8) is Some);
        } else if line_winner(s, 0, 3, 6) is Some {
            assert(is_line(0, 3, 6) && line_winner(s, 0, 3, 6) is Some);
        } else if line_winner(s, 1, 4, 7) is Some {
            assert(is_line(1, 4, 7) && line_winner(s, 1, 4, 7) is Some);
        } else if line_winner(s, 2, 5, 8) is Some {
            assert(is_line(2, 5, 8) && line_winner(s, 2, 5, 8) is Some);
        } else if line_winner(s, 0, 4, 8) is Some {
            assert(is_line(0, 4, 8) && line_winner(s, 0, 4, 8) is Some);
        } else {
            assert(is_line(2, 4, 6) && line_winner(s, 2, 4, 6) is Some);
        }
    }
}

/// Law: a move that completes a row, column, or diagonal wins the game for
/// the player who made it. On a grid with no winner yet, if marking the empty
/// cell `pos` for player `p` completes the line (a, b, c), the new grid's
/// winner is exactly `p` — no line of the other player can be complete, since
/// every complete line must run through the cell that was just marked.
pub proof fn lemma_completing_line_wins(
    s: Seq<Option<Player>>,
    pos: int,
    p: Player,
    a: int,
    b: int,
    c: int,
)
    requires
        s.len() == 9,
        winner_of(s) is None,
        0 <= pos < 9,
        s[pos] is None,
        is_line(a, b, c),
        line_winner(s.update(pos, Some(p)), a, b, c) is Some,
    ensures
        winner_of(s.update(pos, Some(p))) == Some(p),
{
    let s2 = s.update(pos, Some(p));
    assert forall|x: int, y: int, z: int|
        is_line(x, y, z) implies line_winner(s2, x, y, z) is None || line_winner(s2, x, y, z)
        == Some(p) by {
        if x != pos && y != pos && z != pos {
            assert(line_winner(s2, x, y, z) == line_winner(s, x, y, z));
        }
    }
    assert(line_winner(s2, a, b, c) == Some(p));
}

/// The tic-tac-toe game board: a 3x3 grid of cells, each empty or holding a
/// player's mark, together with the player designated to move first.
#[derive(Debug)]
pub struct Board {
    cells: Vec<Option<Player>>,
    player_1: Player,
}

impl View for Board {
    type V = Seq<Option<Player>>;

    /// The grid as a sequence of nine cells in row-major order.
    closed spec fn view(&self) -> Seq<Option<Player>> {
        self.cells@
    }
}

impl Board {
    /// The player designated to move first.
    pub closed spec fn spec_first_player(self) -> Player {
        self.player_1
    }

    /// The grid always holds exactly nine cells.
    pub open spec fn wf(self) -> bool {
        self@.len() == 9
    }

    /// Whose turn it is: turn order is derived from the parity of the number
    /// of empty cells, starting from the designated first mover on the empty
    /// grid (nine empty cells, odd).
    pub open spec fn next_player_spec(self) -> Player {
        if count_empty(self@) % 2 == 1 {
            self.spec_first_player()
        } else {
            other_player(self.spec_first_player())
        }
    }

    /// A move is valid for the current grid when it is that player's turn
    /// and the cell it aims at is empty.
    pub open spec fn spec_valid_move(self, m: Move) -> bool {
        &&& m.spec_player() == self.next_player_spec()
        &&& self@[m.spec_position() - 1] is None
    }

    /// The winner shown by the current grid, if any line is complete.
    pub open spec fn winner_spec(self) -> Option<Player> {
        winner_of(self@)
    }

    /// Creates a new board with all nine cells empty; `player_1` moves first.
    pub fn new(player_1: Player) -> (r: Board)
        ensures
            r.wf(),
            forall|i: int| 0 <= i < 9 ==> r@[i] is None,
            r.spec_first_player() == player_1,
            r.next_player_spec() == player_1,
    {
        let mut cells: Vec<Option<Player>> = Vec::new();
        let mut i: usize = 0;
        while i < 9
            invariant
                i <= 9,
                cells@.len() == i,
                forall|j: int| 0 <= j < i ==> cells@[j] is None,
            decreases 9 - i,
        {
            cells.push(None);
            i = i + 1;
        }
        let board = Board { cells, player_1 };
        proof {
            lemma_count_empty_all_none(board@);
        }
        board
    }

    /// Number of rows in the grid.
    pub fn row_count(&self) -> (r: usize)
        requires
            self.wf(),
        ensures
            r == BOARD_SIZE,
    {
        BOARD_SIZE
    }

    /// Number of columns in the grid.
    pub fn column_count(&self) -> (r: usize)
        requires
            self.wf(),
        ensures
            r == BOARD_SIZE,
    {
        BOARD_SIZE
    }

    /// Returns the total number of empty cells on the board.
    pub fn get_number_of_open_slots(&self) -> (total: usize)
        requires
            self.wf(),
        ensures
            total == count_empty(self@),
    {
        let mut total: usize = 0;
        let mut i: usize = 0;
        while i < self.cells.len()
            invariant
                self@.len() == 9,
                i <= 9,
                total <= i,
                total == count_empty(self@.take(i as int)),
            decreases 9 - i,
        {
            proof {
                lemma_count_empty_take_step(self@, i as int);
            }
            if self.cells[i].is_none() {
                total = total + 1;
            }
            i = i + 1;
        }
        proof {
            assert(self@.take(9) =~= self@);
        }
        total
    }

    /// Returns whether the cell at the given 1-based position is empty.
    /// Positions outside the grid are rejected outright rather than scanned
    /// past, so no out-of-range position can pass as vacuously empty.
    pub fn is_slot_empty(&self, position: usize) -> (r: bool)
        requires
            self.wf(),
            1 <= position <= 9,
        ensures
            r == (self@[position - 1] is None),
    {
        self.cells[position - 1].is_none()
    }

    /// Returns the mark at the given 1-based position, if any: read-only
    /// access to cell contents, for rendering the grid.
    pub fn cell(&self, position: usize) -> (r: Option<Player>)
        requires
            self.wf(),
            1 <= position <= 9,
        ensures
            r == self@[position - 1],
    {
        self.cells[position - 1]
    }

    /// Returns the player whose turn it is, derived from the parity of the
    /// number of empty cells: the first mover acts when that number is odd.
    pub fn get_next_player(&self) -> (r: Player)
        requires
            self.wf(),
        ensures
            r == self.next_player_spec(),
    {
        let player_1: Player;
        let player_2: Player;
        match self.player_1 {
            Player::O => {
                player_1 = Player::O;
                player_2 = Player::X;
            },
            Player::X => {
                player_1 = Player::X;
                player_2 = Player::O;
            },
        }
        if (self.get_number_of_open_slots() % 2) == 0 {
            player_2
        } else {
            player_1
        }
    }

    /// Returns whether a move is valid for the current grid: it is that
    /// player's turn, and the cell it aims at is empty.
    pub fn check_valid_move(&self, player_move: &Move) -> (r: bool)
        requires
            self.wf(),
            player_move.wf(),
        ensures
            r == self.spec_valid_move(*player_move),
    {
        let mut valid_move = true;
        if player_move.player != self.get_next_player() {
            valid_move = false;
        }
        if !self.is_slot_empty(player_move.position) {
            valid_move = false;
        }
        valid_move
    }

    /// Returns the verdict of the line of cells at positions `a`, `b`, `c`:
    /// the shared mark if all three are equal and occupied, else no winner.
    pub fn check_equal_cells(&self, a: usize, b: usize, c: usize) -> (r: Option<Player>)
        requires
            self.wf(),
            a < 9,
            b < 9,
            c < 9,
        ensures
            r == line_winner(self@, a as int, b as int, c as int),
    {
        match self.cells[a] {
            None => None,
            Some(first) => {
                match (self.cells[b], self.cells[c]) {
                    (Some(vb), Some(vc)) => if vb == first && vc == first {
                        Some(first)
                    } else {
                        None
                    },
                    _ => None,
                }
            },
        }
    }

    /// Checks the three rows for a winner, top to bottom.
    pub fn check_rows(&self) -> (r: Option<Player>)
        requires
            self.wf(),
        ensures
            r == rows_winner(self@),
    {
        if let Some(player) = self.check_equal_cells(0, 1, 2) {
            return Some(player);
        }
        if let Some(player) = self.check_equal_cells(3, 4, 5) {
            return Some(player);
        }
        self.check_equal_cells(6, 7, 8)
    }

    /// Checks the three columns for a winner, left to right.
    pub fn check_columns(&self) -> (r: Option<Player>)
        requires
            self.wf(),
        ensures
            r == columns_winner(self@),
    {
        if let Some(player) = self.check_equal_cells(0, 3, 6) {
            return Some(player);
        }
        if let Some(player) = self.check_equal_cells(1, 4, 7) {
            return Some(player);
        }
        self.check_equal_cells(2, 5, 8)
    }

    /// Checks both diagonals for a winner, the main diagonal first.
    pub fn check_diagonals(&self) -> (r: Option<Player>)
        requires
            self.wf(),
        ensures
            r == diagonals_winner(self@),
    {
        if let Some(player) = self.check_equal_cells(0, 4, 8) {
            return Some(player);
        }
        self.check_equal_cells(2, 4, 6)
    }

    /// Determines the winner of the game, if any: the first winning line
    /// found, examining rows, then columns, then diagonals.
    pub fn game_winner(&self) -> (r: Option<Player>)
        requires
            self.wf(),
        ensures
            r == self.winner_spec(),
    {
        if let Some(player) = self.check_rows() {
            return Some(player);
        }
        if let Some(player) = self.check_columns() {
            return Some(player);
        }
        self.check_diagonals()
    }

    /// Applies a move to the board: the core state transition.
    ///
    /// A move on a board that already shows a winner is rejected with
    /// `GameAlreadyEnded`; an out-of-turn move or one aimed at an occupied
    /// cell is rejected with `InvalidMove`; either rejection leaves the board
    /// unchanged. A valid move places exactly one mark and reports the
    /// resulting state: `Ended(Some(winner))` if a line is now complete,
    /// `Ended(None)` if the grid is full with no winner, `Ongoing` otherwise.
    /// After a valid move the turn passes to the other player.
    pub fn make_move(&mut self, player_move: Move) -> (r: Result<BoardState, GameError>)
        requires
            old(self).wf(),
            player_move.wf(),
        ensures
            final(self).wf(),
            final(self).spec_first_player() == old(self).spec_first_player(),
            old(self).winner_spec() is Some ==> r == Err::<BoardState, GameError>(
                GameError::GameAlreadyEnded,
            ),
            (old(self).winner_spec() is None && !old(self).spec_valid_move(player_move)) ==> r
                == Err::<BoardState, GameError>(GameError::InvalidMove),
            (old(self).winner_spec() is None && old(self)@[player_move.spec_position() - 1]
                is Some) ==> r == Err::<BoardState, GameError>(GameError::InvalidMove),
            (old(self).winner_spec() is None && player_move.spec_player() != old(
                self,
            ).next_player_spec()) ==> r == Err::<BoardState, GameError>(GameError::InvalidMove),
            r is Err ==> *final(self) == *old(self),
            (old(self).winner_spec() is None && old(self).spec_valid_move(player_move)) ==> r is Ok
                && final(self)@ == old(self)@.update(
                player_move.spec_position() - 1,
                Some(player_move.spec_player()),
            ),
            r matches Ok(state) ==> state == (if final(self).winner_spec() is Some {
                BoardState::Ended(final(self).winner_spec())
            } else if count_empty(final(self)@) == 0 {
                BoardState::Ended(None)
            } else {
                BoardState::Ongoing
            }),
            r is Ok ==> final(self).next_player_spec() == other_player(player_move.spec_player()),
    {
        if self.game_winner().is_some() {
            return Err(GameError::GameAlreadyEnded);
        }
        if !self.check_valid_move(&player_move) {
            return Err(GameError::InvalidMove);
        }
        let idx: usize = player_move.position - 1;
        proof {
            lemma_count_empty_update(self@, idx as int, player_move.player);
        }
        self.cells.set(idx, Some(player_move.player));
        match self.game_winner() {
            Some(winner) => Ok(BoardState::Ended(Some(winner))),
            None => {
                if self.get_number_of_open_slots() == 0 {
                    Ok(BoardState::Ended(None))
                } else {
                    Ok(BoardState::Ongoing)
                }
            },
        }
    }
}

} // verus!
