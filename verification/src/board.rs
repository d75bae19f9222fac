//! The 3×3 board, the marks on it, and the classification of a position.

use vstd::prelude::*;

verus! {

/// What a cell holds: the mark of one of the two players, or nothing.
#[derive(Clone, Copy, Debug, PartialEq, Eq, Structural)]
pub enum BoardState {
    X,
    O,
    Blank,
}

/// The classification of a position.
#[derive(Clone, Copy, Debug, PartialEq, Eq, Structural)]
pub enum GameState {
    InProgress,
    Winner(BoardState),
    Draw,
}

/// Why a move was refused.
#[derive(Clone, Copy, Debug, PartialEq, Eq, Structural)]
pub enum MoveError {
    /// The row or the column is not one of 0, 1, 2.
    OutOfBounds,
    /// The target cell already holds a mark.
    CellOccupied,
}

/// A 3×3 grid of cells, row-major, rows and columns numbered 0 to 2.
#[derive(Clone, Copy, Debug, PartialEq, Eq)]
pub struct Board {
    grid: [[BoardState; 3]; 3],
}

/// Whether `(row, col)` names a cell of the board.
pub open spec fn on_board(row: int, col: int) -> bool {
    0 <= row < 3 && 0 <= col < 3
}

/// The mark that moves after `current`.
pub open spec fn opponent(current: BoardState) -> BoardState {
    match current {
        BoardState::X => BoardState::O,
        BoardState::O => BoardState::X,
        BoardState::Blank => BoardState::Blank,
    }
}

impl BoardState {
    /// The character that stands for this mark in a drawn board.
    pub open spec fn glyph(self) -> char {
        match self {
            BoardState::X => 'X',
            BoardState::O => 'O',
            BoardState::Blank => '.',
        }
    }

    /// The character that stands for this mark in text.
    pub fn symbol(self) -> (c: char)
        ensures
            c == self.glyph(),
    {
        match self {
            BoardState::X => 'X',
            BoardState::O => 'O',
            BoardState::Blank => '.',
        }
    }

    /// The mark's character as a string of its own.
    pub(crate) fn letter(self) -> (text: &'static str)
        ensures
            text@ == seq![self.glyph()],
    {
        proof {
            reveal_strlit("X");
            reveal_strlit("O");
            reveal_strlit(".");
        }
        let text = match self {
            BoardState::X => "X",
            BoardState::O => "O",
            BoardState::Blank => ".",
        };
        assert(text@ =~= seq![self.glyph()]);
        text
    }

    /// The mark's character followed by a space, as a drawn row holds it.
    fn padded(self) -> (text: &'static str)
        ensures
            text@ == seq![self.glyph(), ' '],
    {
        proof {
            reveal_strlit("X ");
            reveal_strlit("O ");
            reveal_strlit(". ");
        }
        let text = match self {
            BoardState::X => "X ",
            BoardState::O => "O ",
            BoardState::Blank => ". ",
        };
        assert(text@ =~= seq![self.glyph(), ' ']);
        text
    }
}

impl MoveError {
    /// What a player is told when a move is refused.
    pub open spec fn message_text(self) -> Seq<char> {
        match self {
            MoveError::OutOfBounds => "Invalid coordinates"@,
            MoveError::CellOccupied => "This square is already filled"@,
        }
    }

    /// What to tell the player whose move was refused.
    pub fn message(self) -> (text: &'static str)
        ensures
            text@ == self.message_text(),
    {
        match self {
            MoveError::OutOfBounds => "Invalid coordinates",
            MoveError::CellOccupied => "This square is already filled",
        }
    }
}

impl GameState {
    /// The line that announces how a finished game ended.
    pub open spec fn summary_text(self) -> Seq<char> {
        match self {
            GameState::Winner(mark) => "Player "@ + seq![mark.glyph()] + " wins!"@,
            _ => "Game ends in draw"@,
        }
    }

    /// Announces how the game ended. A game in progress has no ending to
    /// announce.
    pub fn summary(self) -> (text: String)
        requires
            self != GameState::InProgress,
        ensures
            text@ == self.summary_text(),
    {
        match self {
            GameState::Winner(mark) => {
                let mut text = String::from_str("Player ");
                text.append(mark.letter());
                text.append(" wins!");
                text
            },
            _ => String::from_str("Game ends in draw"),
        }
    }
}

/// The decimal digit that names row or column `index`.
pub open spec fn index_digit(index: int) -> char {
    if index == 0 {
        '0'
    } else if index == 1 {
        '1'
    } else {
        '2'
    }
}

/// The digit of a row followed by a space, as a drawn row starts.
fn row_label(row: usize) -> (text: &'static str)
    requires
        row < 3,
    ensures
        text@ == seq![index_digit(row as int), ' '],
{
    proof {
        reveal_strlit("0 ");
        reveal_strlit("1 ");
        reveal_strlit("2 ");
    }
    let text = if row == 0 {
        "0 "
    } else if row == 1 {
        "1 "
    } else {
        "2 "
    };
    assert(text@ =~= seq![index_digit(row as int), ' ']);
    text
}

/// The first line of a drawn board: the column numbers.
pub open spec fn header_line() -> Seq<char> {
    seq![' ', ' ', '0', ' ', '1', ' ', '2', '\n']
}

/// Hands the turn to the other player.
pub fn next_turn(current: BoardState) -> (next: BoardState)
    requires
        current != BoardState::Blank,
    ensures
        next == opponent(current),
        next != BoardState::Blank,
        next != current,
{
    match current {
        BoardState::X => BoardState::O,
        _ => BoardState::X,
    }
}

impl Board {
    /// The mark at `(row, col)`.
    pub closed spec fn cell(&self, row: int, col: int) -> BoardState {
        self.grid[row][col]
    }

    /// Whether every cell is blank.
    pub open spec fn is_empty(&self) -> bool {
        forall|row: int, col: int|
            on_board(row, col) ==> #[trigger] self.cell(row, col) == BoardState::Blank
    }

    /// A board on which nobody has moved yet.
    pub fn new() -> (board: Board)
        ensures
            board.is_empty(),
    {
        Board { grid: [[BoardState::Blank; 3]; 3] }
    }

    /// A board that holds the given marks, row by row. It need not be one
    /// that a game could reach.
    pub fn from_cells(cells: [[BoardState; 3]; 3]) -> (board: Board)
        ensures
            forall|row: int, col: int|
                on_board(row, col) ==> #[trigger] board.cell(row, col) == cells[row][col],
    {
        Board { grid: cells }
    }

    /// Reads the mark at `(row, col)`.
    pub fn get(&self, row: usize, col: usize) -> (mark: BoardState)
        requires
            on_board(row as int, col as int),
        ensures
            mark == self.cell(row as int, col as int),
    {
        self.grid[row][col]
    }

    /// Whether row `row` holds `mark` in each of its three cells.
    pub open spec fn row_full(&self, row: int, mark: BoardState) -> bool {
        self.cell(row, 0) == mark && self.cell(row, 1) == mark && self.cell(row, 2) == mark
    }

    /// Whether column `col` holds `mark` in each of its three cells.
    pub open spec fn col_full(&self, col: int, mark: BoardState) -> bool {
        self.cell(0, col) == mark && self.cell(1, col) == mark && self.cell(2, col) == mark
    }

    /// Whether the diagonal from (0,0) to (2,2) holds `mark` throughout.
    pub open spec fn diagonal_full(&self, mark: BoardState) -> bool {
        self.cell(0, 0) == mark && self.cell(1, 1) == mark && self.cell(2, 2) == mark
    }

    /// Whether the diagonal from (0,2) to (2,0) holds `mark` throughout.
    pub open spec fn anti_diagonal_full(&self, mark: BoardState) -> bool {
        self.cell(0, 2) == mark && self.cell(1, 1) == mark && self.cell(2, 0) == mark
    }

    /// Whether some row, column or diagonal holds `mark` throughout.
    pub open spec fn has_line(&self, mark: BoardState) -> bool {
        ||| exists|k: int| 0 <= k < 3 && #[trigger] self.row_full(k, mark)
        ||| exists|k: int| 0 <= k < 3 && #[trigger] self.col_full(k, mark)
        ||| self.diagonal_full(mark)
        ||| self.anti_diagonal_full(mark)
    }

    /// Whether some cell is still blank.
    pub open spec fn has_blank(&self) -> bool {
        exists|row: int, col: int|
            on_board(row, col) && #[trigger] self.cell(row, col) == BoardState::Blank
    }

    /// The classification of this position. A line of X is looked for before
    /// a line of O, so X wins a board on which both have one.
    pub open spec fn outcome(&self) -> GameState {
        if self.has_line(BoardState::X) {
            GameState::Winner(BoardState::X)
        } else if self.has_line(BoardState::O) {
            GameState::Winner(BoardState::O)
        } else if self.has_blank() {
            GameState::InProgress
        } else {
            GameState::Draw
        }
    }

    /// Looks for a full row, column or diagonal of `player`.
    fn find_line(&self, player: BoardState) -> (found: bool)
        ensures
            found == self.has_line(player),
    {
        let mut k: usize = 0;
        while k < 3
            invariant
                k <= 3,
                forall|j: int| 0 <= j < k ==> !self.row_full(j, player),
                forall|j: int| 0 <= j < k ==> !self.col_full(j, player),
            decreases 3 - k,
        {
            if self.grid[k][0] == player && self.grid[k][1] == player && self.grid[k][2]
                == player {
                assert(self.row_full(k as int, player));
                return true;
            }
            if self.grid[0][k] == player && self.grid[1][k] == player && self.grid[2][k]
                == player {
                assert(self.col_full(k as int, player));
                return true;
            }
            k += 1;
        }
        let diagonal = self.grid[0][0] == player && self.grid[1][1] == player && self.grid[2][2]
            == player;
        let anti_diagonal = self.grid[0][2] == player && self.grid[1][1] == player
            && self.grid[2][0] == player;
        diagonal || anti_diagonal
    }

    /// Looks for a blank cell.
    fn find_blank(&self) -> (found: bool)
        ensures
            found == self.has_blank(),
    {
        let mut row: usize = 0;
        while row < 3
            invariant
                row <= 3,
                forall|r: int, c: int|
                    0 <= r < row && 0 <= c < 3 ==> self.cell(r, c) != BoardState::Blank,
            decreases 3 - row,
        {
            let mut col: usize = 0;
            while col < 3
                invariant
                    row < 3,
                    col <= 3,
                    forall|r: int, c: int|
                        0 <= r < row && 0 <= c < 3 ==> self.cell(r, c) != BoardState::Blank,
                    forall|c: int| 0 <= c < col ==> self.cell(row as int, c) != BoardState::Blank,
                decreases 3 - col,
            {
                if self.grid[row][col] == BoardState::Blank {
                    assert(on_board(row as int, col as int) && self.cell(row as int, col as int)
                        == BoardState::Blank);
                    return true;
                }
                col += 1;
            }
            row += 1;
        }
        false
    }

    /// Classifies the position: won, drawn, or still in progress.
    pub fn check_game_state(&self) -> (state: GameState)
        ensures
            state == self.outcome(),
    {
        if self.find_line(BoardState::X) {
            return GameState::Winner(BoardState::X);
        }
        if self.find_line(BoardState::O) {
            return GameState::Winner(BoardState::O);
        }
        if self.find_blank() {
            return GameState::InProgress;
        }
        GameState::Draw
    }

    /// One drawn row: its number, then its three cells, each followed by a
    /// space, then a line feed.
    pub open spec fn row_line(&self, row: int) -> Seq<char> {
        seq![
            index_digit(row),
            ' ',
            self.cell(row, 0).glyph(),
            ' ',
            self.cell(row, 1).glyph(),
            ' ',
            self.cell(row, 2).glyph(),
            ' ',
            '\n',
        ]
    }

    /// The drawn board: the header, then the three rows from the top.
    pub open spec fn drawing(&self) -> Seq<char> {
        header_line() + self.row_line(0) + self.row_line(1) + self.row_line(2)
    }

    /// Appends the drawn row `row` to `text`.
    fn draw_row(&self, row: usize, text: &mut String)
        requires
            row < 3,
        ensures
            final(text)@ == old(text)@ + self.row_line(row as int),
    {
        proof {
            reveal_strlit("\n");
        }
        text.append(row_label(row));
        text.append(self.grid[row][0].padded());
        text.append(self.grid[row][1].padded());
        text.append(self.grid[row][2].padded());
        text.append("\n");
        assert(text@ =~= old(text)@ + self.row_line(row as int));
    }

    /// Draws the board as text, for a console to print.
    pub fn draw(&self) -> (text: String)
        ensures
            text@ == self.drawing(),
    {
        proof {
            reveal_strlit("  0 1 2\n");
        }
        let mut text = String::from_str("  0 1 2\n");
        assert(text@ =~= header_line());
        self.draw_row(0, &mut text);
        self.draw_row(1, &mut text);
        self.draw_row(2, &mut text);
        text
    }

    /// Places `player` at `(row, col)` if that cell exists and is blank.
    pub fn make_move(&mut self, row: usize, col: usize, player: BoardState) -> (res: Result<
        (),
        MoveError,
    >)
        ensures
            !on_board(row as int, col as int) ==> res == Err::<(), MoveError>(MoveError::OutOfBounds),
            on_board(row as int, col as int) && old(self).cell(row as int, col as int)
                != BoardState::Blank ==> res == Err::<(), MoveError>(MoveError::CellOccupied),
            on_board(row as int, col as int) && old(self).cell(row as int, col as int)
                == BoardState::Blank ==> res == Ok::<(), MoveError>(()),
            res is Err ==> *final(self) == *old(self),
            res is Ok ==> final(self).cell(row as int, col as int) == player,
            res is Ok ==> forall|r: int, c: int|
                on_board(r, c) && !(r == row && c == col) ==> #[trigger] final(self).cell(r, c)
                    == old(self).cell(r, c),
    {
        if row >= 3 || col >= 3 {
            return Err(MoveError::OutOfBounds);
        }
        if self.grid[row][col] != BoardState::Blank {
            return Err(MoveError::CellOccupied);
        }
        self.grid[row][col] = player;
        Ok(())
    }
}

/// The nine cells are all there is to a board: two boards that agree on
/// each of them are equal.
pub proof fn cells_determine_board(a: Board, b: Board)
    requires
        forall|row: int, col: int|
            on_board(row, col) ==> #[trigger] a.cell(row, col) == b.cell(row, col),
    ensures
        a == b,
{
    assert forall|row: int| 0 <= row < 3 implies a.grid[row] == b.grid[row] by {
        assert forall|col: int| 0 <= col < 3 implies a.grid[row][col] == b.grid[row][col] by {
            assert(on_board(row, col));
            assert(a.cell(row, col) == b.cell(row, col));
        }
        assert(a.grid[row] =~= b.grid[row]);
    }
    assert(a.grid =~= b.grid);
}

/// Every position falls in exactly one class. It has a winner exactly when
/// a player has a full line, and the winner is such a player, never a blank.
/// It is in progress exactly when no player has a line and a cell is blank,
/// and drawn exactly when no player has a line and no cell is blank.
pub proof fn outcome_is_one_class(board: Board)
    ensures
        board.outcome() is Winner <==> board.has_line(BoardState::X) || board.has_line(
            BoardState::O,
        ),
        board.outcome() is InProgress <==> !board.has_line(BoardState::X) && !board.has_line(
            BoardState::O,
        ) && board.has_blank(),
        board.outcome() is Draw <==> !board.has_line(BoardState::X) && !board.has_line(
            BoardState::O,
        ) && !board.has_blank(),
        forall|mark: BoardState|
            board.outcome() == GameState::Winner(mark) ==> mark != BoardState::Blank
                && board.has_line(mark),
        (if board.outcome() is Winner { 1int } else { 0 }) + (if board.outcome() is InProgress {
            1int
        } else {
            0
        }) + (if board.outcome() is Draw { 1int } else { 0 }) == 1,
{
}

/// Where both players have a line, the position goes to X.
pub proof fn x_takes_priority(board: Board)
    requires
        board.has_line(BoardState::X),
    ensures
        board.outcome() == GameState::Winner(BoardState::X),
{
}

/// A board on which nobody has moved is in progress.
pub proof fn empty_board_in_progress(board: Board)
    requires
        board.is_empty(),
    ensures
        board.outcome() == GameState::InProgress,
{
    assert(on_board(0, 0) && board.cell(0, 0) == BoardState::Blank);
    assert(on_board(1, 1) && board.cell(1, 1) == BoardState::Blank);
    assert forall|k: int, mark: BoardState|
        0 <= k < 3 && mark != BoardState::Blank implies !board.row_full(k, mark)
        && !board.col_full(k, mark) by {
        assert(on_board(k, 0) && board.cell(k, 0) == BoardState::Blank);
        assert(on_board(0, k) && board.cell(0, k) == BoardState::Blank);
    }
}

/// The turn goes back and forth: the player after the next is the same again.
pub proof fn turn_alternates(current: BoardState)
    requires
        current != BoardState::Blank,
    ensures
        opponent(current) != current,
        opponent(current) != BoardState::Blank,
        opponent(opponent(current)) == current,
{
}

} // verus!
