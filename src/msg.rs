use vstd::prelude::*;

use crate::state::Game;

verus! {

/// Sets up a new store.
#[derive(Clone, Copy, Debug, PartialEq, Eq, Structural)]
pub struct InstantiateMsg {}

/// Requests that change games.
#[derive(Debug)]
pub enum ExecuteMsg {
    /// Open a game against `other_player`.
    InstantiateGame { other_player: String },
    /// Accept the invitation to game `game_id`.
    AcceptGame { game_id: u32 },
    /// Play at `cell`, (row, column), in game `game_id`.
    PlayGame { game_id: u32, cell: (usize, usize) },
}

/// Read-only requests.
#[derive(Clone, Copy, Debug, PartialEq, Eq, Structural)]
pub enum QueryMsg {
    GetGameInfor { game_id: u32 },
    GameCount {},
    EmptyCells { game_id: u32 },
    NextPlayer { game_id: u32 },
}

/// A game as answered to `GetGameInfor`.
#[derive(Clone, Debug)]
pub struct GameInfor {
    pub game_info: Game,
}

} // verus!
