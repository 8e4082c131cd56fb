use vstd::prelude::*;

use sha2::Digest;

use crate::error::ContractError;

verus! {

/// The mark a participant places; `Empty` marks an empty cell.
#[derive(Clone, Copy, Debug, PartialEq, Eq, Structural)]
pub enum Choice {
    X,
    O,
    Empty,
}

/// One square of the board.
#[derive(Clone, Copy, Debug, PartialEq, Eq, Structural)]
pub struct Cell {
    pub choice: Choice,
}

impl Cell {
    /// Places `selection` only when the cell is still empty; an occupied cell
    /// keeps its mark. Returns the mark the cell holds afterwards.
    pub fn make_choice(&mut self, selection: Choice) -> (r: Result<&Choice, ContractError>)
        ensures
            final(self).choice == (if old(self).choice == Choice::Empty {
                selection
            } else {
                old(self).choice
            }),
            r matches Ok(c) && *c == final(self).choice,
    {
        if self.choice == Choice::Empty {
            self.choice = selection;
        }
        Ok(&self.choice)
    }
}

/// The grid as three rows of three symbols: `view()[r][c]` is the cell at
/// row `r`, column `c`.
pub type BoardView = Seq<Seq<Choice>>;

/// The symbols held by a sequence of cells.
pub open spec fn choices_of(cells: Seq<Cell>) -> Seq<Choice> {
    cells.map_values(|c: Cell| c.choice)
}

/// The cells of line `k` (1 to 8): three rows, three columns, the diagonal
/// rising from the bottom-left corner, then the one falling from the top-left.
pub open spec fn line_coords(k: int) -> Seq<(i32, i32)> {
    if k == 1 {
        seq![(0, 0), (0, 1), (0, 2)]
    } else if k == 2 {
        seq![(1, 0), (1, 1), (1, 2)]
    } else if k == 3 {
        seq![(2, 0), (2, 1), (2, 2)]
    } else if k == 4 {
        seq![(2, 0), (1, 0), (0, 0)]
    } else if k == 5 {
        seq![(2, 1), (1, 1), (0, 1)]
    } else if k == 6 {
        seq![(2, 2), (1, 2), (0, 2)]
    } else if k == 7 {
        seq![(0, 2), (1, 1), (2, 0)]
    } else {
        seq![(0, 0), (1, 1), (2, 2)]
    }
}

/// What `check_winning_row` reports for a line that is not won.
pub open spec fn losing_coords() -> Seq<(i32, i32)> {
    seq![(0, 0), (0, 0), (0, 0)]
}

pub open spec fn cell_of(b: BoardView, p: (i32, i32)) -> Choice {
    b[p.0 as int][p.1 as int]
}

/// Line `k` is won by `sym`: `sym` is a mark and fills all three cells.
pub open spec fn line_won(b: BoardView, k: int, sym: Choice) -> bool {
    &&& 1 <= k <= 8
    &&& sym != Choice::Empty
    &&& cell_of(b, line_coords(k)[0]) == sym
    &&& cell_of(b, line_coords(k)[1]) == sym
    &&& cell_of(b, line_coords(k)[2]) == sym
}

/// Some line of the board is won by `sym`.
pub open spec fn has_won_line(b: BoardView, sym: Choice) -> bool {
    exists|k: int| 1 <= k <= 8 && line_won(b, k, sym)
}

/// The empty cells of row `r`, as (row, column), left to right.
pub open spec fn free_in_row(b: BoardView, r: int) -> Seq<(i32, i32)> {
    (if b[r][0] == Choice::Empty { seq![(r as i32, 0i32)] } else { seq![] })
        + (if b[r][1] == Choice::Empty { seq![(r as i32, 1i32)] } else { seq![] })
        + (if b[r][2] == Choice::Empty { seq![(r as i32, 2i32)] } else { seq![] })
}

/// Every empty cell of the board, row by row.
pub open spec fn free_cells_of(b: BoardView) -> Seq<(i32, i32)> {
    free_in_row(b, 0) + free_in_row(b, 1) + free_in_row(b, 2)
}

/// The board has no empty cell.
pub open spec fn is_full(b: BoardView) -> bool {
    forall|r: int, c: int| 0 <= r < 3 && 0 <= c < 3 ==> b[r][c] != Choice::Empty
}

/// The board after `sym` is claimed at (`r`, `c`): only an empty cell takes it.
pub open spec fn claimed(b: BoardView, r: int, c: int, sym: Choice) -> BoardView {
    if b[r][c] == Choice::Empty {
        b.update(r, b[r].update(c, sym))
    } else {
        b
    }
}

/// A 3x3 grid; `column_k` holds the three cells of row `k`, by column.
#[derive(Clone, Debug)]
pub struct Board {
    pub column_0: Vec<Cell>,
    pub column_1: Vec<Cell>,
    pub column_2: Vec<Cell>,
}

impl View for Board {
    type V = BoardView;

    open spec fn view(&self) -> BoardView {
        seq![choices_of(self.column_0@), choices_of(self.column_1@), choices_of(self.column_2@)]
    }
}

/// The cells of a won line, or `losing_coords()`.
#[derive(Clone, Debug)]
pub struct WinningRow {
    pub roww: Vec<(i32, i32)>,
}

/// A line index chosen by a caller.
#[derive(Clone, Copy, Debug, PartialEq, Eq, Structural)]
pub struct Row {
    pub row_selected: u8,
}

/// The empty cells of each row of a board.
#[derive(Clone, Debug)]
pub struct VectorVeiw {
    pub column_0: Vec<(i32, i32)>,
    pub column_1: Vec<(i32, i32)>,
    pub column_2: Vec<(i32, i32)>,
}

/// The coordinates of line `k`.
fn line_points(k: u8) -> (r: Vec<(i32, i32)>)
    requires
        1 <= k <= 8,
    ensures
        r@ == line_coords(k as int),
{
    let v = if k == 1 {
        vec![(0, 0), (0, 1), (0, 2)]
    } else if k == 2 {
        vec![(1, 0), (1, 1), (1, 2)]
    } else if k == 3 {
        vec![(2, 0), (2, 1), (2, 2)]
    } else if k == 4 {
        vec![(2, 0), (1, 0), (0, 0)]
    } else if k == 5 {
        vec![(2, 1), (1, 1), (0, 1)]
    } else if k == 6 {
        vec![(2, 2), (1, 2), (0, 2)]
    } else if k == 7 {
        vec![(0, 2), (1, 1), (2, 0)]
    } else {
        vec![(0, 0), (1, 1), (2, 2)]
    };
    assert(v@ =~= line_coords(k as int));
    v
}

impl Board {
    /// Every row holds exactly three cells.
    pub open spec fn wf(&self) -> bool {
        &&& self.column_0@.len() == 3
        &&& self.column_1@.len() == 3
        &&& self.column_2@.len() == 3
    }

    /// A board whose nine cells are all empty.
    pub fn new() -> (r: Board)
        ensures
            r.wf(),
            forall|i: int, j: int| 0 <= i < 3 && 0 <= j < 3 ==> r@[i][j] == Choice::Empty,
    {
        let e = Cell { choice: Choice::Empty };
        Board { column_0: vec![e, e, e], column_1: vec![e, e, e], column_2: vec![e, e, e] }
    }

    fn cell(&self, row: usize, col: usize) -> (r: Choice)
        requires
            self.wf(),
            row < 3,
            col < 3,
        ensures
            r == self@[row as int][col as int],
    {
        if row == 0 {
            self.column_0[col].choice
        } else if row == 1 {
            self.column_1[col].choice
        } else {
            self.column_2[col].choice
        }
    }

    /// The symbol at (`row`, `col`); `OutOfRange` when either lies outside 0..=2.
    pub fn get(&self, row: usize, col: usize) -> (r: Result<Choice, ContractError>)
        requires
            self.wf(),
        ensures
            row < 3 && col < 3 ==> r == Ok::<Choice, ContractError>(self@[row as int][col as int]),
            !(row < 3 && col < 3) ==> r == Err::<Choice, ContractError>(ContractError::OutOfRange),
    {
        if row < 3 && col < 3 {
            Ok(self.cell(row, col))
        } else {
            Err(ContractError::OutOfRange)
        }
    }

    /// Whether line `k` is filled with `sym`, a mark.
    fn line_filled(&self, k: u8, sym: Choice) -> (r: bool)
        requires
            self.wf(),
            1 <= k <= 8,
        ensures
            r == line_won(self@, k as int, sym),
    {
        if sym == Choice::Empty {
            return false;
        }
        let pts = line_points(k);
        let mut i: usize = 0;
        while i < 3
            invariant
                self.wf(),
                pts@ == line_coords(k as int),
                1 <= k <= 8,
                0 <= i <= 3,
                forall|j: int| 0 <= j < i ==> cell_of(self@, line_coords(k as int)[j]) == sym,
            decreases 3 - i,
        {
            let p = pts[i];
            if self.cell(p.0 as usize, p.1 as usize) != sym {
                return false;
            }
            i = i + 1;
        }
        true
    }

    /// Checks line `row` (1 to 8) against `player_choice`: the line's
    /// coordinates when all three of its cells hold that mark, otherwise
    /// `losing_coords()`. Any other index gives `losing_coords()`.
    pub fn check_winning_row(&mut self, row: u8, player_choice: Cell) -> (r: WinningRow)
        requires
            old(self).wf(),
        ensures
            *final(self) == *old(self),
            line_won(old(self)@, row as int, player_choice.choice) ==> r.roww@ == line_coords(
                row as int,
            ),
            !line_won(old(self)@, row as int, player_choice.choice) ==> r.roww@
                == losing_coords(),
    {
        if 1 <= row && row <= 8 && self.line_filled(row, player_choice.choice) {
            WinningRow { roww: line_points(row) }
        } else {
            let losing = vec![(0, 0), (0, 0), (0, 0)];
            assert(losing@ =~= losing_coords());
            WinningRow { roww: losing }
        }
    }

    /// The first line (1 to 8) that `symbol` fills, or `None`.
    pub fn evaluate(&self, symbol: Choice) -> (r: Option<u8>)
        requires
            self.wf(),
        ensures
            r matches Some(k) ==> line_won(self@, k as int, symbol) && forall|j: int|
                1 <= j < k ==> !line_won(self@, j, symbol),
            r is None <==> !has_won_line(self@, symbol),
    {
        let mut k: u8 = 1;
        while k <= 8
            invariant
                self.wf(),
                1 <= k <= 9,
                forall|j: int| 1 <= j < k ==> !line_won(self@, j, symbol),
            decreases 9 - k,
        {
            if self.line_filled(k, symbol) {
                return Some(k);
            }
            k = k + 1;
        }
        None
    }

    /// Places `symbol` at (`row`, `col`) when that cell is empty: `Ok(true)`
    /// when it was placed, `Ok(false)` when the cell was taken and the board
    /// is left as it was, `OutOfRange` when either index lies outside 0..=2.
    pub fn claim(&mut self, row: usize, col: usize, symbol: Choice) -> (r: Result<
        bool,
        ContractError,
    >)
        requires
            old(self).wf(),
        ensures
            final(self).wf(),
            !(row < 3 && col < 3) ==> r == Err::<bool, ContractError>(ContractError::OutOfRange)
                && final(self)@ == old(self)@,
            row < 3 && col < 3 ==> r == Ok::<bool, ContractError>(
                old(self)@[row as int][col as int] == Choice::Empty,
            ) && final(self)@ == claimed(old(self)@, row as int, col as int, symbol),
    {
        if !(row < 3 && col < 3) {
            return Err(ContractError::OutOfRange);
        }
        let was_empty = self.cell(row, col) == Choice::Empty;
        let ghost before = self@;
        if row == 0 {
            let mut c = self.column_0[col];
            let _ = c.make_choice(symbol);
            self.column_0.set(col, c);
        } else if row == 1 {
            let mut c = self.column_1[col];
            let _ = c.make_choice(symbol);
            self.column_1.set(col, c);
        } else {
            let mut c = self.column_2[col];
            let _ = c.make_choice(symbol);
            self.column_2.set(col, c);
        }
        assert(self@ =~~= claimed(before, row as int, col as int, symbol));
        Ok(was_empty)
    }

    fn free_in(&self, row: usize) -> (r: Vec<(i32, i32)>)
        requires
            self.wf(),
            row < 3,
        ensures
            r@ == free_in_row(self@, row as int),
    {
        let mut v: Vec<(i32, i32)> = Vec::new();
        if self.cell(row, 0) == Choice::Empty {
            v.push((row as i32, 0));
        }
        let ghost v0 = v@;
        if self.cell(row, 1) == Choice::Empty {
            v.push((row as i32, 1));
        }
        let ghost v1 = v@;
        if self.cell(row, 2) == Choice::Empty {
            v.push((row as i32, 2));
        }
        let ghost b = self@;
        let ghost r = row as int;
        assert(v0 =~= (if b[r][0] == Choice::Empty { seq![(r as i32, 0i32)] } else { seq![] }));
        assert(v1 =~= v0 + (if b[r][1] == Choice::Empty { seq![(r as i32, 1i32)] } else { seq![] }));
        assert(v@ =~= free_in_row(b, r));
        v
    }

    /// Every empty cell as (row, column), row by row and left to right.
    pub fn empty_cells(&self) -> (r: Vec<(i32, i32)>)
        requires
            self.wf(),
        ensures
            r@ == free_cells_of(self@),
    {
        let mut all = self.free_in(0);
        let mut second = self.free_in(1);
        let mut third = self.free_in(2);
        all.append(&mut second);
        all.append(&mut third);
        all
    }

    /// Whether no cell is empty.
    pub fn is_full(&self) -> (r: bool)
        requires
            self.wf(),
        ensures
            r == is_full(self@),
    {
        let mut row: usize = 0;
        while row < 3
            invariant
                self.wf(),
                0 <= row <= 3,
                forall|i: int, j: int| 0 <= i < row && 0 <= j < 3 ==> self@[i][j] != Choice::Empty,
            decreases 3 - row,
        {
            let mut col: usize = 0;
            while col < 3
                invariant
                    self.wf(),
                    0 <= row < 3,
                    0 <= col <= 3,
                    forall|i: int, j: int|
                        0 <= i < row && 0 <= j < 3 ==> self@[i][j] != Choice::Empty,
                    forall|j: int| 0 <= j < col ==> self@[row as int][j] != Choice::Empty,
                decreases 3 - col,
            {
                if self.cell(row, col) == Choice::Empty {
                    return false;
                }
                col = col + 1;
            }
            row = row + 1;
        }
        true
    }
}

/// Phase of a game's lifecycle.
#[derive(Clone, Copy, Debug, PartialEq, Eq, Structural)]
pub enum GameStatus {
    PROGRESSING,
    ENDED,
    INSTANTIATED,
}

/// Result of a game; `NONE` until it has ended.
#[derive(Clone, Copy, Debug, PartialEq, Eq, Structural)]
pub enum Winner {
    PLAYERONE,
    PLAYERTWO,
    DRAW,
    NONE,
}

/// The id that the next created game receives.
#[derive(Clone, Copy, Debug, PartialEq, Eq, Structural)]
pub struct GameCount {
    pub current_count: u32,
}

/// One game: its phase, whose turn it is (an index into `players`), the
/// initiator and the invitee in that order, the board and the result.
#[derive(Clone, Debug)]
pub struct Game {
    pub status: GameStatus,
    pub player_turn: u8,
    pub players: Vec<String>,
    pub board: Board,
    pub game_result: Winner,
}

/// The SHA-256 digest of the UTF-8 encoding of a string.
pub uninterp spec fn sha256_of(s: Seq<char>) -> Seq<u8>;

/// Relies on `sha2::Sha256::digest`: the 32-byte SHA-256 digest of the bytes
/// it is given, here the UTF-8 bytes of `s`.
#[verifier::external_body]
fn sha256_digest(s: &str) -> (r: Vec<u8>)
    ensures
        r@ == sha256_of(s@),
        r@.len() == 32,
{
    sha2::Sha256::digest(s.as_bytes()).to_vec()
}

/// The digest begins with a zero byte.
pub open spec fn starts_with_zero(d: Seq<u8>) -> bool {
    d.len() > 0 && d[0] == 0
}

/// The mark of the initiator (`is_initiator`) or of the invitee: when the
/// pair's digest begins with a zero byte the initiator plays `O` and the
/// invitee `X`, otherwise the other way round.
pub open spec fn role_choice(digest_starts_with_zero: bool, is_initiator: bool) -> Choice {
    if digest_starts_with_zero == is_initiator {
        Choice::O
    } else {
        Choice::X
    }
}

/// The mark that `sender` plays in the game between `initiator` and
/// `invitee`, from the digest of the two identifiers written one after the
/// other.
pub open spec fn assigned_choice(initiator: Seq<char>, invitee: Seq<char>, sender: Seq<char>) -> Choice {
    role_choice(starts_with_zero(sha256_of(initiator + invitee)), sender == initiator)
}

/// The mark for one side of a pair, given the digest of the pair.
pub fn choice_from_digest(digest: &[u8], is_initiator: bool) -> (r: Choice)
    ensures
        r == role_choice(starts_with_zero(digest@), is_initiator),
{
    let zero = digest.len() > 0 && digest[0] == 0;
    if zero == is_initiator {
        Choice::O
    } else {
        Choice::X
    }
}

/// For two distinct identifiers, each side of the pair is assigned one of
/// the two marks, and never the same one as the other side.
pub proof fn lemma_assignment_distinct(initiator: Seq<char>, invitee: Seq<char>)
    requires
        initiator != invitee,
    ensures
        assigned_choice(initiator, invitee, initiator) == Choice::X || assigned_choice(
            initiator,
            invitee,
            initiator,
        ) == Choice::O,
        assigned_choice(initiator, invitee, invitee) == Choice::X || assigned_choice(
            initiator,
            invitee,
            invitee,
        ) == Choice::O,
        assigned_choice(initiator, invitee, initiator) != assigned_choice(
            initiator,
            invitee,
            invitee,
        ),
{
}

/// The mark of a participant depends on the two identifiers alone: two games
/// between the same pair assign every sender the same mark, whatever else
/// they hold and whenever it is asked.
pub proof fn lemma_assignment_pure(g1: Game, g2: Game, sender: Seq<char>)
    requires
        g1.wf(),
        g2.wf(),
        g1.players@[0]@ == g2.players@[0]@,
        g1.players@[1]@ == g2.players@[1]@,
    ensures
        g1.choice_of(sender) == g2.choice_of(sender),
{
}

/// On a board whose nine cells are empty, every cell is listed as free, row
/// by row.
pub proof fn lemma_empty_board_all_free(b: BoardView)
    requires
        forall|r: int, c: int| 0 <= r < 3 && 0 <= c < 3 ==> b[r][c] == Choice::Empty,
    ensures
        free_cells_of(b) == seq![
            (0i32, 0i32),
            (0i32, 1i32),
            (0i32, 2i32),
            (1i32, 0i32),
            (1i32, 1i32),
            (1i32, 2i32),
            (2i32, 0i32),
            (2i32, 1i32),
            (2i32, 2i32),
        ],
{
    assert(b[0][0] == Choice::Empty && b[0][1] == Choice::Empty && b[0][2] == Choice::Empty);
    assert(b[1][0] == Choice::Empty && b[1][1] == Choice::Empty && b[1][2] == Choice::Empty);
    assert(b[2][0] == Choice::Empty && b[2][1] == Choice::Empty && b[2][2] == Choice::Empty);
    assert(free_cells_of(b) =~= seq![
        (0i32, 0i32),
        (0i32, 1i32),
        (0i32, 2i32),
        (1i32, 0i32),
        (1i32, 1i32),
        (1i32, 2i32),
        (2i32, 0i32),
        (2i32, 1i32),
        (2i32, 2i32),
    ]);
}

/// Once a cell holds a mark, a second claim on it changes nothing: the first
/// mark stays.
pub proof fn lemma_claim_keeps_first(b: BoardView, r: int, c: int, first: Choice, second: Choice)
    requires
        b.len() == 3,
        0 <= r < 3,
        0 <= c < 3,
        b[r].len() == 3,
        first != Choice::Empty,
    ensures
        b[r][c] == Choice::Empty ==> claimed(b, r, c, first)[r][c] == first,
        claimed(claimed(b, r, c, first), r, c, second) == claimed(b, r, c, first),
{
}

/// Next turn index: 0 and 1 alternate.
pub open spec fn toggled(t: u8) -> u8 {
    if t == 0 {
        1
    } else {
        0
    }
}

impl Game {
    /// Two participants, a well-formed board, a turn index of 0 or 1, and no
    /// result recorded before the game has ended.
    pub open spec fn wf(&self) -> bool {
        &&& self.players@.len() == 2
        &&& self.board.wf()
        &&& self.player_turn <= 1
        &&& self.status != GameStatus::ENDED ==> self.game_result == Winner::NONE
    }

    /// `sender` is one of the two participants.
    pub open spec fn is_participant(&self, sender: Seq<char>) -> bool {
        exists|i: int| 0 <= i < self.players@.len() && self.players@[i]@ == sender
    }

    /// The mark `sender` plays in this game.
    pub open spec fn choice_of(&self, sender: Seq<char>) -> Choice {
        assigned_choice(self.players@[0]@, self.players@[1]@, sender)
    }

    /// The mark that `sender` plays, or `NotAParticipant` when `sender` is
    /// neither participant.
    pub fn determine_player_choice(&self, sender: &String) -> (r: Result<Choice, ContractError>)
        requires
            self.wf(),
        ensures
            self.is_participant(sender@) ==> r == Ok::<Choice, ContractError>(
                self.choice_of(sender@),
            ),
            !self.is_participant(sender@) ==> r == Err::<Choice, ContractError>(
                ContractError::NotAParticipant,
            ),
    {
        let initiator = &self.players[0];
        let invitee = &self.players[1];
        let is_initiator = sender.eq(initiator);
        if !(is_initiator || sender.eq(invitee)) {
            assert(forall|i: int| 0 <= i < 2 ==> #[trigger] self.players@[i]@ != sender@);
            return Err(ContractError::NotAParticipant);
        }
        if is_initiator {
            assert(self.players@[0]@ == sender@);
        } else {
            assert(self.players@[1]@ == sender@);
        }
        let full_string = initiator.clone().concat(invitee.as_str());
        let digest = sha256_digest(full_string.as_str());
        Ok(choice_from_digest(digest.as_slice(), is_initiator))
    }

    /// `Ok(0)` when `checked_address` is one of the participants, `Ok(1)`
    /// otherwise.
    pub fn is_allowed_player(&self, checked_address: String) -> (r: Result<u8, ContractError>)
        ensures
            r == Ok::<u8, ContractError>(
                if self.is_participant(checked_address@) {
                    0u8
                } else {
                    1u8
                },
            ),
    {
        let mut i: usize = 0;
        while i < self.players.len()
            invariant
                0 <= i <= self.players@.len(),
                forall|j: int| 0 <= j < i ==> self.players@[j]@ != checked_address@,
            decreases self.players@.len() - i,
        {
            if self.players[i].eq(&checked_address) {
                return Ok(0);
            }
            i = i + 1;
        }
        Ok(1)
    }

    /// The game's phase.
    pub fn status(&self) -> (r: Result<&GameStatus, ContractError>)
        ensures
            r matches Ok(s) && *s == self.status,
    {
        Ok(&self.status)
    }

    /// The empty cells of each row of the board.
    pub fn free_cels(&self) -> (r: VectorVeiw)
        requires
            self.wf(),
        ensures
            r.column_0@ == free_in_row(self.board@, 0),
            r.column_1@ == free_in_row(self.board@, 1),
            r.column_2@ == free_in_row(self.board@, 2),
    {
        VectorVeiw {
            column_0: self.board.free_in(0),
            column_1: self.board.free_in(1),
            column_2: self.board.free_in(2),
        }
    }
}

} // verus!
