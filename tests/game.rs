use sha2::Digest;
use tic_tac_toe::contract::{
    accept_game_invite, execute_play_game, instantiate, instantiate_game, querry_current_player,
    querry_free_cells, querry_game, querry_game_count,
};
use tic_tac_toe::error::ContractError;
use tic_tac_toe::state::{
    choice_from_digest, Board, Cell, Choice, Game, GameCount, GameStatus, Winner,
};

const A: &str = "player_a";
const B: &str = "player_b";

fn started_game() -> Game {
    let mut count = instantiate();
    let (_, mut game) = instantiate_game(&mut count, A.to_string(), B.to_string(), true).unwrap();
    assert!(accept_game_invite(&mut game, &B.to_string()));
    game
}

fn cell(game: &Game, row: usize, col: usize) -> Choice {
    game.board.get(row, col).unwrap()
}

fn board_with(points: &[(usize, usize)], sym: Choice) -> Board {
    let mut board = Board::new();
    for &(r, c) in points {
        assert_eq!(board.claim(r, c, sym), Ok(true));
    }
    board
}

#[test]
fn assignment_gives_each_side_a_different_mark() {
    let game = started_game();
    let a = game.determine_player_choice(&A.to_string()).unwrap();
    let b = game.determine_player_choice(&B.to_string()).unwrap();
    assert!(a == Choice::X || a == Choice::O);
    assert!(b == Choice::X || b == Choice::O);
    assert_ne!(a, b);
}

#[test]
fn assignment_is_repeatable_in_any_order() {
    let game = started_game();
    let b1 = game.determine_player_choice(&B.to_string()).unwrap();
    let a1 = game.determine_player_choice(&A.to_string()).unwrap();
    let a2 = game.determine_player_choice(&A.to_string()).unwrap();
    let b2 = game.determine_player_choice(&B.to_string()).unwrap();
    assert_eq!(a1, a2);
    assert_eq!(b1, b2);
}

#[test]
fn assignment_follows_first_digest_byte() {
    let digest = sha2::Sha256::digest(format!("{}{}", A, B).as_bytes());
    let game = started_game();
    let a = game.determine_player_choice(&A.to_string()).unwrap();
    if digest[0] == 0 {
        assert_eq!(a, Choice::O);
    } else {
        assert_eq!(a, Choice::X);
    }
}

#[test]
fn initiator_plays_o_when_digest_starts_with_zero() {
    let mut found = false;
    for i in 0..5000u32 {
        let initiator = format!("init{}", i);
        let digest = sha2::Sha256::digest(format!("{}{}", initiator, B).as_bytes());
        if digest[0] == 0 {
            let mut count = instantiate();
            let (_, game) =
                instantiate_game(&mut count, initiator.clone(), B.to_string(), true).unwrap();
            assert_eq!(game.determine_player_choice(&initiator), Ok(Choice::O));
            assert_eq!(game.determine_player_choice(&B.to_string()), Ok(Choice::X));
            found = true;
            break;
        }
    }
    assert!(found);
}

#[test]
fn choice_from_digest_values() {
    assert_eq!(choice_from_digest(&[0, 5], true), Choice::O);
    assert_eq!(choice_from_digest(&[0, 5], false), Choice::X);
    assert_eq!(choice_from_digest(&[7, 0], true), Choice::X);
    assert_eq!(choice_from_digest(&[7, 0], false), Choice::O);
    assert_eq!(choice_from_digest(&[], true), Choice::X);
}

#[test]
fn stranger_has_no_mark() {
    let game = started_game();
    assert_eq!(
        game.determine_player_choice(&"someone".to_string()),
        Err(ContractError::NotAParticipant)
    );
}

#[test]
fn is_allowed_player_values() {
    let game = started_game();
    assert_eq!(game.is_allowed_player(A.to_string()), Ok(0));
    assert_eq!(game.is_allowed_player(B.to_string()), Ok(0));
    assert_eq!(game.is_allowed_player("someone".to_string()), Ok(1));
}

#[test]
fn fresh_board_is_empty() {
    let board = Board::new();
    for r in 0..3 {
        for c in 0..3 {
            assert_eq!(board.get(r, c), Ok(Choice::Empty));
        }
    }
    assert_eq!(
        board.empty_cells(),
        vec![(0, 0), (0, 1), (0, 2), (1, 0), (1, 1), (1, 2), (2, 0), (2, 1), (2, 2)]
    );
}

#[test]
fn get_out_of_range() {
    let board = Board::new();
    assert_eq!(board.get(3, 0), Err(ContractError::OutOfRange));
    assert_eq!(board.get(0, 3), Err(ContractError::OutOfRange));
}

#[test]
fn claim_twice_keeps_first_symbol() {
    let mut board = Board::new();
    assert_eq!(board.claim(0, 0, Choice::X), Ok(true));
    assert_eq!(board.claim(0, 0, Choice::O), Ok(false));
    assert_eq!(board.get(0, 0), Ok(Choice::X));
    assert_eq!(board.claim(2, 3, Choice::O), Err(ContractError::OutOfRange));
}

#[test]
fn make_choice_keeps_first_symbol() {
    let mut c = Cell { choice: Choice::Empty };
    assert_eq!(c.make_choice(Choice::O), Ok(&Choice::O));
    assert_eq!(c.make_choice(Choice::X), Ok(&Choice::O));
    assert_eq!(c.choice, Choice::O);
}

#[test]
fn empty_cells_after_moves() {
    let mut board = Board::new();
    board.claim(0, 1, Choice::X).unwrap();
    board.claim(2, 2, Choice::O).unwrap();
    assert_eq!(
        board.empty_cells(),
        vec![(0, 0), (0, 2), (1, 0), (1, 1), (1, 2), (2, 0), (2, 1)]
    );
}

#[test]
fn top_row_win_detected() {
    let mut board = board_with(&[(0, 0), (0, 1), (0, 2)], Choice::X);
    assert_eq!(board.evaluate(Choice::X), Some(1));
    assert_eq!(board.evaluate(Choice::O), None);
    let r = board.check_winning_row(1, Cell { choice: Choice::X });
    assert_eq!(r.roww, vec![(0, 0), (0, 1), (0, 2)]);
    let r = board.check_winning_row(1, Cell { choice: Choice::O });
    assert_eq!(r.roww, vec![(0, 0), (0, 0), (0, 0)]);
}

#[test]
fn column_win_detected() {
    let mut board = board_with(&[(0, 1), (1, 1), (2, 1)], Choice::O);
    assert_eq!(board.evaluate(Choice::O), Some(5));
    let r = board.check_winning_row(5, Cell { choice: Choice::O });
    assert_eq!(r.roww, vec![(2, 1), (1, 1), (0, 1)]);
}

#[test]
fn diagonal_wins_detected() {
    let mut falling = board_with(&[(0, 0), (1, 1), (2, 2)], Choice::X);
    assert_eq!(falling.evaluate(Choice::X), Some(8));
    let r = falling.check_winning_row(8, Cell { choice: Choice::X });
    assert_eq!(r.roww, vec![(0, 0), (1, 1), (2, 2)]);
    let mut rising = board_with(&[(0, 2), (1, 1), (2, 0)], Choice::X);
    assert_eq!(rising.evaluate(Choice::X), Some(7));
    let r = rising.check_winning_row(7, Cell { choice: Choice::X });
    assert_eq!(r.roww, vec![(0, 2), (1, 1), (2, 0)]);
}

#[test]
fn empty_line_is_not_won() {
    let mut board = Board::new();
    assert_eq!(board.evaluate(Choice::Empty), None);
    let r = board.check_winning_row(1, Cell { choice: Choice::Empty });
    assert_eq!(r.roww, vec![(0, 0), (0, 0), (0, 0)]);
    let r = board.check_winning_row(9, Cell { choice: Choice::X });
    assert_eq!(r.roww, vec![(0, 0), (0, 0), (0, 0)]);
}

#[test]
fn create_accept_and_win_a_row() {
    let mut count = instantiate();
    assert_eq!(querry_game_count(&count), 1);
    let (id, mut game) =
        instantiate_game(&mut count, A.to_string(), B.to_string(), true).unwrap();
    assert_eq!(id, 1);
    assert_eq!(game.status, GameStatus::INSTANTIATED);
    assert_eq!(game.player_turn, 0);
    assert_eq!(game.game_result, Winner::NONE);
    assert!(accept_game_invite(&mut game, &B.to_string()));
    assert_eq!(game.status, GameStatus::PROGRESSING);
    assert_eq!(querry_current_player(&game), 1);

    let a = A.to_string();
    let b = B.to_string();
    let b_mark = game.determine_player_choice(&b).unwrap();
    assert_eq!(execute_play_game(&mut game, &b, (0, 0)), Ok(()));
    assert_eq!(cell(&game, 0, 0), b_mark);
    assert_eq!(game.player_turn, 0);
    assert_eq!(execute_play_game(&mut game, &a, (1, 0)), Ok(()));
    assert_eq!(game.player_turn, 1);
    assert_eq!(execute_play_game(&mut game, &b, (0, 1)), Ok(()));
    assert_eq!(execute_play_game(&mut game, &a, (1, 1)), Ok(()));
    assert_eq!(execute_play_game(&mut game, &b, (0, 2)), Ok(()));
    assert_eq!(game.status, GameStatus::ENDED);
    assert_eq!(game.game_result, Winner::PLAYERTWO);
    assert_eq!(
        execute_play_game(&mut game, &a, (2, 2)),
        Err(ContractError::GameEndedOrUnaccepted)
    );
    let info = querry_game(game);
    assert_eq!(info.game_info.status, GameStatus::ENDED);
}

#[test]
fn initiator_wins_as_player_one() {
    let mut game = started_game();
    let a = A.to_string();
    let b = B.to_string();
    execute_play_game(&mut game, &b, (0, 0)).unwrap();
    execute_play_game(&mut game, &a, (2, 0)).unwrap();
    execute_play_game(&mut game, &b, (0, 1)).unwrap();
    execute_play_game(&mut game, &a, (2, 1)).unwrap();
    execute_play_game(&mut game, &b, (1, 2)).unwrap();
    execute_play_game(&mut game, &a, (2, 2)).unwrap();
    assert_eq!(game.status, GameStatus::ENDED);
    assert_eq!(game.game_result, Winner::PLAYERONE);
}

#[test]
fn full_board_without_line_is_a_draw() {
    let mut game = started_game();
    let a = A.to_string();
    let b = B.to_string();
    let moves = [
        (&b, (0, 0)),
        (&a, (0, 1)),
        (&b, (0, 2)),
        (&a, (1, 1)),
        (&b, (1, 0)),
        (&a, (1, 2)),
        (&b, (2, 1)),
        (&a, (2, 0)),
    ];
    for (who, at) in moves.iter() {
        assert_eq!(execute_play_game(&mut game, who, *at), Ok(()));
        assert_eq!(game.status, GameStatus::PROGRESSING);
    }
    assert_eq!(execute_play_game(&mut game, &b, (2, 2)), Ok(()));
    assert_eq!(game.status, GameStatus::ENDED);
    assert_eq!(game.game_result, Winner::DRAW);
    assert_eq!(game.board.empty_cells(), vec![]);
}

#[test]
fn move_onto_taken_cell_is_dropped_but_turn_passes() {
    let mut game = started_game();
    let a = A.to_string();
    let b = B.to_string();
    let b_mark = game.determine_player_choice(&b).unwrap();
    execute_play_game(&mut game, &b, (1, 1)).unwrap();
    assert_eq!(game.player_turn, 0);
    assert_eq!(execute_play_game(&mut game, &a, (1, 1)), Ok(()));
    assert_eq!(cell(&game, 1, 1), b_mark);
    assert_eq!(game.player_turn, 1);
}

#[test]
fn play_before_accept_is_refused() {
    let mut count = instantiate();
    let (_, mut game) = instantiate_game(&mut count, A.to_string(), B.to_string(), true).unwrap();
    assert_eq!(
        execute_play_game(&mut game, &B.to_string(), (0, 0)),
        Err(ContractError::GameEndedOrUnaccepted)
    );
}

#[test]
fn accept_by_other_than_invitee_is_ignored() {
    let mut count = instantiate();
    let (_, mut game) = instantiate_game(&mut count, A.to_string(), B.to_string(), true).unwrap();
    assert!(!accept_game_invite(&mut game, &A.to_string()));
    assert_eq!(game.status, GameStatus::INSTANTIATED);
    assert_eq!(game.player_turn, 0);
}

#[test]
fn stranger_cannot_play() {
    let mut game = started_game();
    assert_eq!(
        execute_play_game(&mut game, &"someone".to_string(), (0, 0)),
        Err(ContractError::NotAParticipant)
    );
    assert_eq!(game.board.empty_cells().len(), 9);
}

#[test]
fn move_off_the_board_is_refused() {
    let mut game = started_game();
    assert_eq!(
        execute_play_game(&mut game, &B.to_string(), (3, 0)),
        Err(ContractError::OutOfRange)
    );
    assert_eq!(
        execute_play_game(&mut game, &B.to_string(), (0, 7)),
        Err(ContractError::OutOfRange)
    );
    assert_eq!(game.player_turn, 1);
}

#[test]
fn invalid_invitee_is_refused() {
    let mut count = instantiate();
    let r = instantiate_game(&mut count, A.to_string(), "bad".to_string(), false);
    assert_eq!(r.err(), Some(ContractError::InvalidAddress));
    assert_eq!(count.current_count, 1);
}

#[test]
fn counter_exhausted_is_refused() {
    let mut count = GameCount { current_count: u32::MAX };
    let r = instantiate_game(&mut count, A.to_string(), B.to_string(), true);
    assert_eq!(r.err(), Some(ContractError::CountOverflow));
    assert_eq!(count.current_count, u32::MAX);
}

#[test]
fn count_after_creations() {
    let mut count = instantiate();
    for n in 1..=5u32 {
        let (id, _) = instantiate_game(&mut count, A.to_string(), B.to_string(), true).unwrap();
        assert_eq!(id, n);
        assert_eq!(querry_game_count(&count), n + 1);
    }
}

#[test]
fn free_cells_by_row() {
    let mut game = started_game();
    execute_play_game(&mut game, &B.to_string(), (0, 2)).unwrap();
    execute_play_game(&mut game, &A.to_string(), (2, 0)).unwrap();
    let view = querry_free_cells(&game);
    assert_eq!(view.column_0, vec![(0, 0), (0, 1)]);
    assert_eq!(view.column_1, vec![(1, 0), (1, 1), (1, 2)]);
    assert_eq!(view.column_2, vec![(2, 1), (2, 2)]);
    let same = game.free_cels();
    assert_eq!(same.column_2, view.column_2);
    assert_eq!(game.status(), Ok(&GameStatus::PROGRESSING));
}

#[test]
fn accept_on_ended_game_changes_nothing() {
    let mut game = started_game();
    let a = A.to_string();
    let b = B.to_string();
    execute_play_game(&mut game, &b, (0, 0)).unwrap();
    execute_play_game(&mut game, &a, (1, 0)).unwrap();
    execute_play_game(&mut game, &b, (0, 1)).unwrap();
    execute_play_game(&mut game, &a, (1, 1)).unwrap();
    execute_play_game(&mut game, &b, (0, 2)).unwrap();
    assert_eq!(game.status, GameStatus::ENDED);
    assert!(!accept_game_invite(&mut game, &b));
    assert_eq!(game.status, GameStatus::ENDED);
    assert_eq!(game.game_result, Winner::PLAYERTWO);
    assert_eq!(game.player_turn, 1);
}

#[test]
fn accept_during_play_keeps_the_turn() {
    let mut game = started_game();
    let b = B.to_string();
    execute_play_game(&mut game, &b, (0, 0)).unwrap();
    assert_eq!(game.player_turn, 0);
    assert!(!accept_game_invite(&mut game, &b));
    assert_eq!(game.status, GameStatus::PROGRESSING);
    assert_eq!(game.player_turn, 0);
}

#[test]
fn result_stays_none_while_in_progress() {
    let mut game = started_game();
    execute_play_game(&mut game, &B.to_string(), (1, 1)).unwrap();
    assert_eq!(game.status, GameStatus::PROGRESSING);
    assert_eq!(game.game_result, Winner::NONE);
}
