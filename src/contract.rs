use vstd::prelude::*;

use crate::error::ContractError;
use crate::msg::GameInfor;
use crate::state::{
    claimed, has_won_line, is_full, toggled, Board, Choice, Game, GameCount, GameStatus,
    VectorVeiw, Winner,
};

verus! {

/// `g` is the game that `initiator` has just opened against `invitee`: both
/// bound in that order, an empty board, waiting for the invitee, turn 0, no
/// result.
pub open spec fn fresh_game(g: Game, initiator: Seq<char>, invitee: Seq<char>) -> bool {
    &&& g.wf()
    &&& g.status == GameStatus::INSTANTIATED
    &&& g.player_turn == 0
    &&& g.game_result == Winner::NONE
    &&& g.players@[0]@ == initiator
    &&& g.players@[1]@ == invitee
    &&& forall|r: int, c: int| 0 <= r < 3 && 0 <= c < 3 ==> g.board@[r][c] == Choice::Empty
}

/// One successful creation moves the counter from `before` to `after`.
pub open spec fn advanced(before: GameCount, after: GameCount) -> bool {
    after.current_count == before.current_count + 1
}

/// The result a game records when `sender` completes a line: the side of the
/// initiator or of the invitee.
pub open spec fn winner_for(g: Game, sender: Seq<char>) -> Winner {
    if sender == g.players@[0]@ {
        Winner::PLAYERONE
    } else {
        Winner::PLAYERTWO
    }
}

/// `after` is `before` once `sender`, a participant, has played at
/// (`row`, `col`): the mark is claimed (kept out of a taken cell); a line
/// filled with that mark ends the game in the sender's favour, a full board
/// without one ends it in a draw, and otherwise the turn passes.
pub open spec fn played(before: Game, after: Game, sender: Seq<char>, row: int, col: int) -> bool {
    let sym = before.choice_of(sender);
    let b = claimed(before.board@, row, col, sym);
    &&& after.wf()
    &&& after.players == before.players
    &&& after.board@ == b
    &&& if has_won_line(b, sym) {
        &&& after.status == GameStatus::ENDED
        &&& after.game_result == winner_for(before, sender)
        &&& after.player_turn == before.player_turn
    } else if is_full(b) {
        &&& after.status == GameStatus::ENDED
        &&& after.game_result == Winner::DRAW
        &&& after.player_turn == before.player_turn
    } else {
        &&& after.status == GameStatus::PROGRESSING
        &&& after.game_result == Winner::NONE
        &&& after.player_turn == toggled(before.player_turn)
    }
}

/// The counter starts at 1 and each successful creation advances it by one:
/// after the `n` creations recorded in `counts` (its first element is the
/// initial counter) it holds `n + 1`.
pub proof fn lemma_count_after_creations(counts: Seq<GameCount>)
    requires
        counts.len() >= 1,
        counts[0].current_count == 1,
        forall|i: int| 0 <= i < counts.len() - 1 ==> advanced(#[trigger] counts[i], counts[i + 1]),
    ensures
        counts.last().current_count == counts.len(),
    decreases counts.len(),
{
    if counts.len() > 1 {
        let prefix = counts.drop_last();
        assert forall|i: int| 0 <= i < prefix.len() - 1 implies advanced(
            #[trigger] prefix[i],
            prefix[i + 1],
        ) by {
            assert(advanced(counts[i], counts[i + 1]));
        }
        lemma_count_after_creations(prefix);
        assert(advanced(counts[counts.len() - 2], counts[counts.len() - 1]));
    }
}

/// The counter of a new store: the first game gets id 1.
pub fn instantiate() -> (r: GameCount)
    ensures
        r.current_count == 1,
{
    GameCount { current_count: 1 }
}

fn new_game(initiator: String, invitee: String) -> (g: Game)
    ensures
        fresh_game(g, initiator@, invitee@),
{
    let mut users: Vec<String> = Vec::new();
    users.push(initiator);
    users.push(invitee);
    Game {
        status: GameStatus::INSTANTIATED,
        player_turn: 0,
        players: users,
        board: Board::new(),
        game_result: Winner::NONE,
    }
}

/// Opens a game of `sender` against `second`. `second_is_valid` is what the
/// host's identity validation said of `second`: when it failed the result is
/// `InvalidAddress`. Otherwise the new game takes the counter's id and the
/// counter advances by one; `CountOverflow` when no id is left.
pub fn instantiate_game(
    count: &mut GameCount,
    sender: String,
    second: String,
    second_is_valid: bool,
) -> (r: Result<(u32, Game), ContractError>)
    ensures
        !second_is_valid ==> r == Err::<(u32, Game), ContractError>(ContractError::InvalidAddress)
            && *final(count) == *old(count),
        second_is_valid && old(count).current_count == u32::MAX ==> r == Err::<
            (u32, Game),
            ContractError,
        >(ContractError::CountOverflow) && *final(count) == *old(count),
        second_is_valid && old(count).current_count < u32::MAX ==> (r matches Ok((id, g)) && id
            == old(count).current_count && fresh_game(g, sender@, second@) && advanced(
            *old(count),
            *final(count),
        )),
{
    if !second_is_valid {
        return Err(ContractError::InvalidAddress);
    }
    if count.current_count == u32::MAX {
        return Err(ContractError::CountOverflow);
    }
    let id = count.current_count;
    count.current_count = id + 1;
    Ok((id, new_game(sender, second)))
}

/// The invitee accepts a game that waits for it: the game moves to
/// `PROGRESSING` with the invitee to play first. A call by anyone else, or on
/// a game that is already under way or ended, changes nothing. Returns
/// whether the acceptance took effect.
pub fn accept_game_invite(game: &mut Game, sender: &String) -> (applied: bool)
    requires
        old(game).wf(),
    ensures
        applied == (old(game).status == GameStatus::INSTANTIATED && sender@ == old(
            game,
        ).players@[1]@),
        applied ==> final(game).status == GameStatus::PROGRESSING && final(game).player_turn == 1
            && final(game).game_result == Winner::NONE && final(game).players == old(
            game,
        ).players && final(game).board == old(game).board,
        !applied ==> *final(game) == *old(game),
        final(game).wf(),
{
    if game.status == GameStatus::INSTANTIATED && sender.eq(&game.players[1]) {
        game.status = GameStatus::PROGRESSING;
        game.player_turn = 1;
        game.game_result = Winner::NONE;
        true
    } else {
        false
    }
}

/// `sender` plays at `cell` (row, column). Fails, leaving the game as it
/// was, with `GameEndedOrUnaccepted` outside `PROGRESSING`, then with
/// `NotAParticipant` for a stranger, then with `OutOfRange` for a cell off
/// the board. Otherwise the move is applied as `played` describes; a move
/// onto a taken cell leaves the board as it was and still passes the turn.
pub fn execute_play_game(game: &mut Game, sender: &String, cell: (usize, usize)) -> (r: Result<
    (),
    ContractError,
>)
    requires
        old(game).wf(),
    ensures
        final(game).wf(),
        old(game).status != GameStatus::PROGRESSING ==> r == Err::<(), ContractError>(
            ContractError::GameEndedOrUnaccepted,
        ) && *final(game) == *old(game),
        old(game).status == GameStatus::PROGRESSING && !old(game).is_participant(sender@) ==> r
            == Err::<(), ContractError>(ContractError::NotAParticipant) && *final(game) == *old(
            game,
        ),
        old(game).status == GameStatus::PROGRESSING && old(game).is_participant(sender@) && !(
        cell.0 < 3 && cell.1 < 3) ==> r == Err::<(), ContractError>(ContractError::OutOfRange)
            && *final(game) == *old(game),
        old(game).status == GameStatus::PROGRESSING && old(game).is_participant(sender@) && cell.0
            < 3 && cell.1 < 3 ==> r == Ok::<(), ContractError>(()) && played(
            *old(game),
            *final(game),
            sender@,
            cell.0 as int,
            cell.1 as int,
        ),
{
    if game.status != GameStatus::PROGRESSING {
        return Err(ContractError::GameEndedOrUnaccepted);
    }
    let player_choice = match game.determine_player_choice(sender) {
        Ok(c) => c,
        Err(e) => return Err(e),
    };
    let (row, column) = cell;
    if !(row < 3 && column < 3) {
        return Err(ContractError::OutOfRange);
    }
    let _ = game.board.claim(row, column, player_choice);
    if game.board.evaluate(player_choice).is_some() {
        game.game_result = if sender.eq(&game.players[0]) {
            Winner::PLAYERONE
        } else {
            Winner::PLAYERTWO
        };
        game.status = GameStatus::ENDED;
    } else if game.board.is_full() {
        game.game_result = Winner::DRAW;
        game.status = GameStatus::ENDED;
    } else {
        game.player_turn = if game.player_turn == 0 {
            1
        } else {
            0
        };
    }
    Ok(())
}

/// Whose turn it is: 0 for the initiator, 1 for the invitee.
pub fn querry_current_player(game: &Game) -> (r: u8)
    ensures
        r == game.player_turn,
{
    game.player_turn
}

/// The game as a whole.
pub fn querry_game(game: Game) -> (r: GameInfor)
    ensures
        r.game_info == game,
{
    GameInfor { game_info: game }
}

/// The id that the next created game will receive.
pub fn querry_game_count(count: &GameCount) -> (r: u32)
    ensures
        r == count.current_count,
{
    count.current_count
}

/// The empty cells of each row of the game's board.
pub fn querry_free_cells(game: &Game) -> (r: VectorVeiw)
    requires
        game.wf(),
    ensures
        r.column_0@ == crate::state::free_in_row(game.board@, 0),
        r.column_1@ == crate::state::free_in_row(game.board@, 1),
        r.column_2@ == crate::state::free_in_row(game.board@, 2),
{
    game.free_cels()
}

} // verus!
