use tic_tac_toe::brains::BrainLevelOne;
use tic_tac_toe::brains::TicTacToeBrain;
use tic_tac_toe::tic_tac_toe::Board;
use tic_tac_toe::tic_tac_toe::BoardState;
use tic_tac_toe::tic_tac_toe::GameError;
use tic_tac_toe::tic_tac_toe::Move;
use tic_tac_toe::tic_tac_toe::Player;

#[test]
fn test_first_mover_is_initial_next_player() {
    let board_x = Board::new(Player::X);
    assert_eq!(board_x.get_next_player(), Player::X);
    let board_o = Board::new(Player::O);
    assert_eq!(board_o.get_next_player(), Player::O);
}

#[test]
fn test_next_player_alternates_after_each_move() {
    let mut board = Board::new(Player::X);
    let moves = vec![
        (1, Player::X),
        (4, Player::O),
        (2, Player::X),
        (5, Player::O),
    ];
    for (position, player) in moves {
        let player_move = Move::create(position, player).unwrap();
        board.make_move(player_move).unwrap();
        assert_ne!(board.get_next_player(), player);
    }
}

#[test]
fn test_occupied_slot_rejected_for_either_player() {
    let mut board = Board::new(Player::X);
    board
        .make_move(Move::create(5, Player::X).unwrap())
        .unwrap();

    // O aims at the occupied cell: rejected
    let o_move = Move::create(5, Player::O).unwrap();
    assert_eq!(board.make_move(o_move), Err(GameError::InvalidMove));
    // the rejection changed nothing, O is still to move
    assert_eq!(board.get_next_player(), Player::O);
    board
        .make_move(Move::create(1, Player::O).unwrap())
        .unwrap();

    // X aims at the occupied cell: rejected as well
    let x_move = Move::create(5, Player::X).unwrap();
    assert_eq!(board.make_move(x_move), Err(GameError::InvalidMove));
    assert_eq!(board.get_number_of_open_slots(), 7);
}

#[test]
fn test_out_of_turn_move_rejected() {
    let mut board = Board::new(Player::X);

    // O may not open the game when X is the first mover
    let o_move = Move::create(1, Player::O).unwrap();
    assert_eq!(board.make_move(o_move), Err(GameError::InvalidMove));

    board
        .make_move(Move::create(1, Player::X).unwrap())
        .unwrap();

    // X may not move twice in a row
    let x_move = Move::create(2, Player::X).unwrap();
    assert_eq!(board.make_move(x_move), Err(GameError::InvalidMove));
    assert_eq!(board.get_number_of_open_slots(), 8);
}

#[test]
fn test_top_row_win_on_completing_move() {
    let mut board = Board::new(Player::X);
    let moves = vec![
        (1, Player::X),
        (4, Player::O),
        (2, Player::X),
        (5, Player::O),
    ];
    for (position, player) in moves {
        let state = board
            .make_move(Move::create(position, player).unwrap())
            .unwrap();
        assert_eq!(state, BoardState::Ongoing);
    }
    // X completes the top row
    let state = board
        .make_move(Move::create(3, Player::X).unwrap())
        .unwrap();
    assert_eq!(state, BoardState::Ended(Some(Player::X)));
}

#[test]
fn test_column_win_on_completing_move() {
    let mut board = Board::new(Player::O);
    let moves = vec![
        (2, Player::O),
        (1, Player::X),
        (5, Player::O),
        (3, Player::X),
    ];
    for (position, player) in moves {
        let state = board
            .make_move(Move::create(position, player).unwrap())
            .unwrap();
        assert_eq!(state, BoardState::Ongoing);
    }
    // O completes the middle column
    let state = board
        .make_move(Move::create(8, Player::O).unwrap())
        .unwrap();
    assert_eq!(state, BoardState::Ended(Some(Player::O)));
}

#[test]
fn test_diagonal_win_on_completing_move() {
    let mut board = Board::new(Player::O);
    let moves = vec![
        (1, Player::O),
        (2, Player::X),
        (5, Player::O),
        (3, Player::X),
    ];
    for (position, player) in moves {
        let state = board
            .make_move(Move::create(position, player).unwrap())
            .unwrap();
        assert_eq!(state, BoardState::Ongoing);
    }
    // O completes the main diagonal
    let state = board
        .make_move(Move::create(9, Player::O).unwrap())
        .unwrap();
    assert_eq!(state, BoardState::Ended(Some(Player::O)));
}

#[test]
fn test_tie_reported_on_final_move() {
    let mut board = Board::new(Player::O);
    let moves = vec![
        (1, Player::O),
        (2, Player::X),
        (3, Player::O),
        (4, Player::X),
        (6, Player::O),
        (5, Player::X),
        (8, Player::O),
        (9, Player::X),
    ];
    for (position, player) in moves {
        let state = board
            .make_move(Move::create(position, player).unwrap())
            .unwrap();
        assert_eq!(state, BoardState::Ongoing);
    }
    // O fills the last cell; no line is complete, so the game is tied
    let state = board
        .make_move(Move::create(7, Player::O).unwrap())
        .unwrap();
    assert_eq!(state, BoardState::Ended(None));
}

#[test]
fn test_no_moves_accepted_after_game_ended() {
    let mut board = Board::new(Player::X);
    for (position, player) in vec![
        (1, Player::X),
        (4, Player::O),
        (2, Player::X),
        (5, Player::O),
        (3, Player::X),
    ] {
        board
            .make_move(Move::create(position, player).unwrap())
            .unwrap();
    }
    assert_eq!(board.game_winner(), Some(Player::X));

    // every further move is rejected and the board stays as it was
    let late_move = Move::create(7, Player::O).unwrap();
    assert_eq!(board.make_move(late_move), Err(GameError::GameAlreadyEnded));
    assert_eq!(board.game_winner(), Some(Player::X));
    assert_eq!(board.get_number_of_open_slots(), 4);
    let late_x_move = Move::create(8, Player::X).unwrap();
    assert_eq!(
        board.make_move(late_x_move),
        Err(GameError::GameAlreadyEnded)
    );
    assert_eq!(board.get_number_of_open_slots(), 4);
}

#[test]
fn test_move_position_bounds() {
    assert_eq!(
        Move::create(0, Player::X),
        Err(GameError::InvalidPosition(0))
    );
    assert_eq!(
        Move::create(10, Player::O),
        Err(GameError::InvalidPosition(10))
    );

    let low = Move::create(1, Player::X).unwrap();
    assert_eq!(low.position(), 1);
    assert_eq!(low.player(), Player::X);
    let high = Move::create(9, Player::O).unwrap();
    assert_eq!(high.position(), 9);
    assert_eq!(high.player(), Player::O);
}

#[test]
fn test_player_char_conversions() {
    assert_eq!(Player::get_player_char_from_enum(&Player::X), 'X');
    assert_eq!(Player::get_player_char_from_enum(&Player::O), 'O');

    assert_eq!(Player::get_player_enum_from_char('x'), Some(Player::X));
    assert_eq!(Player::get_player_enum_from_char('X'), Some(Player::X));
    assert_eq!(Player::get_player_enum_from_char('o'), Some(Player::O));
    assert_eq!(Player::get_player_enum_from_char('O'), Some(Player::O));
    assert_eq!(Player::get_player_enum_from_char('a'), None);
    assert_eq!(Player::get_player_enum_from_char('1'), None);
}

#[test]
fn test_brain_proposes_valid_moves() {
    let brain = BrainLevelOne;
    let mut board = Board::new(Player::X);

    // drive a whole game with the random strategy: every proposed move must
    // be accepted by the board
    loop {
        let player_move = brain.make_move(&board).unwrap();
        assert!(board.check_valid_move(&player_move));
        match board.make_move(player_move).unwrap() {
            BoardState::Ended(_) => break,
            BoardState::Ongoing => {}
        }
    }
}

#[test]
fn test_brain_takes_the_last_empty_cell() {
    let mut board = Board::new(Player::O);
    for (position, player) in vec![
        (1, Player::O),
        (2, Player::X),
        (3, Player::O),
        (4, Player::X),
        (6, Player::O),
        (5, Player::X),
        (8, Player::O),
        (9, Player::X),
    ] {
        board
            .make_move(Move::create(position, player).unwrap())
            .unwrap();
    }

    // only position 7 is empty, so the random choice has no freedom left
    let brain = BrainLevelOne;
    let player_move = brain.make_move(&board).unwrap();
    assert_eq!(player_move.position(), 7);
    assert_eq!(player_move.player(), Player::O);
}

#[test]
fn test_brain_fails_on_full_board() {
    let mut board = Board::new(Player::O);
    for (position, player) in vec![
        (1, Player::O),
        (2, Player::X),
        (3, Player::O),
        (4, Player::X),
        (6, Player::O),
        (5, Player::X),
        (8, Player::O),
        (9, Player::X),
        (7, Player::O),
    ] {
        board
            .make_move(Move::create(position, player).unwrap())
            .unwrap();
    }

    let brain = BrainLevelOne;
    assert_eq!(brain.make_move(&board), Err(GameError::NoAvailableMoves));
}
