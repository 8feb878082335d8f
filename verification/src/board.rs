//! Tetris game board data structure

use vstd::prelude::*;

use vstd::string::StringExecFns;

use crate::graphics::colors::BlockColor;

verus! {

/// Represents a single cell on the game board
#[derive(Debug, Clone, Copy, PartialEq, Eq, Structural)]
pub enum Cell {
    /// Empty cell
    Empty,
    /// Filled cell with a specific color
    Filled(BlockColor),
}

impl Cell {
    /// Check if the cell is empty
    pub fn is_empty(self) -> (b: bool)
        ensures
            b == (self is Empty),
    {
        matches!(self, Cell::Empty)
    }

    /// Check if the cell is filled
    pub fn is_filled(self) -> (b: bool)
        ensures
            b == (self is Filled),
    {
        matches!(self, Cell::Filled(_))
    }

    /// Get the color of the cell if it's filled
    pub fn color(self) -> (c: Option<BlockColor>)
        ensures
            c == (match self {
                Cell::Empty => None,
                Cell::Filled(color) => Some(color),
            }),
    {
        match self {
            Cell::Empty => None,
            Cell::Filled(color) => Some(color),
        }
    }
}

/// A row of empty cells.
pub open spec fn empty_row() -> Seq<Cell> {
    Seq::new(10, |x: int| Cell::Empty)
}

/// A grid of empty rows.
pub open spec fn empty_rows(n: nat) -> Seq<Seq<Cell>> {
    Seq::new(n, |y: int| empty_row())
}

/// Every cell of the row is filled.
pub open spec fn row_full(row: Seq<Cell>) -> bool {
    forall|x: int| 0 <= x < row.len() ==> #[trigger] row[x] is Filled
}

/// Every cell of the row is empty.
pub open spec fn row_empty(row: Seq<Cell>) -> bool {
    forall|x: int| 0 <= x < row.len() ==> #[trigger] row[x] is Empty
}

/// A cell of the grid: column `x` of the 10, row `y` of the 24 (buffer rows first).
pub open spec fn in_bounds(x: int, y: int) -> bool {
    0 <= x < 10 && 0 <= y < 24
}

/// A block may stand at (x, y) of a grid: inside the side walls and above the
/// floor, and either above the grid or on an empty cell.
pub open spec fn rows_valid(rows: Seq<Seq<Cell>>, x: int, y: int) -> bool {
    0 <= x < 10 && (y < 0 || (y < 24 && rows[y][x] is Empty))
}

/// Blocks with the given offsets around (cx, cy) may all stand on the grid.
#[verifier::opaque]
pub open spec fn rows_fit(rows: Seq<Seq<Cell>>, blocks: Seq<(i32, i32)>, cx: int, cy: int) -> bool {
    forall|i: int|
        0 <= i < blocks.len() ==> rows_valid(rows, cx + #[trigger] blocks[i].0, cy + blocks[i].1)
}

/// The cell (x, y) is on the grid and filled.
pub open spec fn rows_filled(rows: Seq<Seq<Cell>>, x: int, y: int) -> bool {
    in_bounds(x, y) && rows[y][x] is Filled
}

/// Some cell of the four buffer rows is filled.
pub open spec fn rows_game_over(rows: Seq<Seq<Cell>>) -> bool {
    exists|x: int, y: int| 0 <= y < 4 && 0 <= x < 10 && #[trigger] rows_filled(rows, x, y)
}

/// The grid with the cell (x, y) replaced, when it is on the grid.
pub open spec fn set_rows(rows: Seq<Seq<Cell>>, x: int, y: int, cell: Cell) -> Seq<Seq<Cell>> {
    if in_bounds(x, y) {
        rows.update(y, rows[y].update(x, cell))
    } else {
        rows
    }
}

/// The indices below `n` of the full rows, in ascending order.
pub open spec fn full_lines(rows: Seq<Seq<Cell>>, n: int) -> Seq<usize>
    decreases n,
{
    if n <= 0 {
        seq![]
    } else {
        let prev = full_lines(rows, n - 1);
        if row_full(rows[n - 1]) {
            prev.push((n - 1) as usize)
        } else {
            prev
        }
    }
}

/// The rows below `n` whose index is not listed, top to bottom.
pub open spec fn rows_kept(rows: Seq<Seq<Cell>>, lines: Seq<usize>, n: int) -> Seq<Seq<Cell>>
    decreases n,
{
    if n <= 0 {
        seq![]
    } else {
        let prev = rows_kept(rows, lines, n - 1);
        if lines.contains((n - 1) as usize) {
            prev
        } else {
            prev.push(rows[n - 1])
        }
    }
}

/// The grid after the listed rows are removed: the other rows keep their
/// order and fall to the bottom, and empty rows fill the top.
pub open spec fn rows_after_clear(rows: Seq<Seq<Cell>>, lines: Seq<usize>) -> Seq<Seq<Cell>> {
    let kept = rows_kept(rows, lines, 24);
    empty_rows((24 - kept.len()) as nat) + kept
}

/// How a cell shows in the debugging text.
pub open spec fn cell_char(cell: Cell) -> char {
    match cell {
        Cell::Empty => ' ',
        Cell::Filled(_) => '#',
    }
}

/// A row of the debugging text: the ten cells between bars, then a newline.
pub open spec fn row_text(row: Seq<Cell>) -> Seq<char> {
    seq!['|'] + Seq::new(10, |x: int| cell_char(row[x])) + seq!['|', '\n']
}

/// The text of the visible rows from the top down to row `y`.
pub open spec fn rows_text(rows: Seq<Seq<Cell>>, y: int) -> Seq<char>
    decreases y,
{
    if y <= 4 {
        seq![]
    } else {
        rows_text(rows, y - 1) + row_text(rows[y - 1])
    }
}

/// The debugging text of a grid: its visible rows, then a bottom border.
pub open spec fn debug_text(rows: Seq<Seq<Cell>>) -> Seq<char> {
    rows_text(rows, 24) + seq!['+'] + Seq::new(10, |i: int| '-') + seq!['+']
}

/// Number of filled cells among the first `n` of a row.
pub open spec fn count_filled_row(row: Seq<Cell>, n: int) -> nat
    decreases n,
{
    if n <= 0 {
        0
    } else {
        count_filled_row(row, n - 1) + if row[n - 1] is Filled {
            1nat
        } else {
            0nat
        }
    }
}

/// Number of filled cells in the first `n` rows.
pub open spec fn count_filled(rows: Seq<Seq<Cell>>, n: int) -> nat
    decreases n,
{
    if n <= 0 {
        0
    } else {
        count_filled(rows, n - 1) + count_filled_row(rows[n - 1], 10)
    }
}

/// The main Tetris game board
#[derive(Debug)]
pub struct Board {
    /// The game grid - includes buffer rows above visible area
    grid: Vec<Vec<Cell>>,
    /// Lines cleared this game
    lines_cleared: u32,
    /// Current level
    level: u32,
}

/// A fresh row of empty cells.
fn new_empty_row() -> (row: Vec<Cell>)
    ensures
        row@ == empty_row(),
{
    let mut row: Vec<Cell> = Vec::new();
    for x in 0..10usize
        invariant
            row@ == Seq::new(x as nat, |i: int| Cell::Empty),
    {
        row.push(Cell::Empty);
        assert(row@ =~= Seq::new((x + 1) as nat, |i: int| Cell::Empty));
    }
    row
}

/// A copy of a row.
fn copy_row(row: &Vec<Cell>) -> (copy: Vec<Cell>)
    ensures
        copy@ == row@,
{
    let mut copy: Vec<Cell> = Vec::new();
    for x in 0..row.len()
        invariant
            copy@ == row@.take(x as int),
    {
        copy.push(row[x]);
        assert(row@.take(x + 1) =~= row@.take(x as int).push(row@[x as int]));
    }
    assert(row@.take(row@.len() as int) =~= row@);
    copy
}

/// Whether a list of row indices holds the index `y`.
fn lines_contain(lines: &[usize], y: usize) -> (b: bool)
    ensures
        b == lines@.contains(y),
{
    for i in 0..lines.len()
        invariant
            forall|j: int| 0 <= j < i ==> lines@[j] != y,
    {
        if lines[i] == y {
            return true;
        }
    }
    false
}

pub proof fn lemma_rows_kept_len(rows: Seq<Seq<Cell>>, lines: Seq<usize>, n: int)
    requires
        0 <= n,
    ensures
        rows_kept(rows, lines, n).len() <= n,
    decreases n,
{
    if n > 0 {
        lemma_rows_kept_len(rows, lines, n - 1);
    }
}

pub proof fn lemma_count_filled_row_bound(row: Seq<Cell>, n: int)
    requires
        0 <= n,
    ensures
        count_filled_row(row, n) <= n,
    decreases n,
{
    if n > 0 {
        lemma_count_filled_row_bound(row, n - 1);
    }
}

pub proof fn lemma_count_filled_bound(rows: Seq<Seq<Cell>>, n: int)
    requires
        0 <= n,
    ensures
        count_filled(rows, n) <= 10 * n,
    decreases n,
{
    if n > 0 {
        lemma_count_filled_bound(rows, n - 1);
        lemma_count_filled_row_bound(rows[n - 1], 10);
    }
}

/// A row index is listed by `full_lines(rows, n)` exactly when it is below
/// `n` and its row is full; the list is strictly ascending.
pub proof fn lemma_full_lines(rows: Seq<Seq<Cell>>, n: int)
    requires
        0 <= n <= 24,
    ensures
        forall|y: usize| #[trigger]
            full_lines(rows, n).contains(y) <==> (y < n && row_full(rows[y as int])),
        forall|i: int, j: int|
            0 <= i < j < full_lines(rows, n).len() ==> full_lines(rows, n)[i] < full_lines(
                rows,
                n,
            )[j],
        forall|i: int|
            0 <= i < full_lines(rows, n).len() ==> #[trigger] full_lines(rows, n)[i] < n,
        full_lines(rows, n).len() <= n,
    decreases n,
{
    if n > 0 {
        lemma_full_lines(rows, n - 1);
        let prev = full_lines(rows, n - 1);
        if row_full(rows[n - 1]) {
            assert forall|y: usize| #[trigger]
                full_lines(rows, n).contains(y) <==> (y < n && row_full(rows[y as int])) by {
                if y == n - 1 {
                    assert(full_lines(rows, n)[prev.len() as int] == y);
                }
                if full_lines(rows, n).contains(y) && y != n - 1 {
                    let k = choose|k: int|
                        0 <= k < full_lines(rows, n).len() && full_lines(rows, n)[k] == y;
                    assert(prev[k] == y);
                }
                if prev.contains(y) {
                    let k = choose|k: int| 0 <= k < prev.len() && prev[k] == y;
                    assert(full_lines(rows, n)[k] == y);
                }
            }
        }
    }
}

/// Number of filled cells of a list of rows.
pub open spec fn count_cells(rows: Seq<Seq<Cell>>) -> nat
    decreases rows.len(),
{
    if rows.len() == 0 {
        0
    } else {
        count_cells(rows.drop_last()) + count_filled_row(rows.last(), 10)
    }
}

/// The filled cells of the first `n` rows are those of the list of those rows.
pub proof fn lemma_count_filled_is_count_cells(rows: Seq<Seq<Cell>>, n: int)
    requires
        0 <= n <= rows.len(),
    ensures
        count_filled(rows, n) == count_cells(rows.take(n)),
    decreases n,
{
    if n > 0 {
        lemma_count_filled_is_count_cells(rows, n - 1);
        assert(rows.take(n).drop_last() =~= rows.take(n - 1));
    }
}

/// Counting the cells of two lists one after the other adds up.
pub proof fn lemma_count_cells_append(a: Seq<Seq<Cell>>, b: Seq<Seq<Cell>>)
    ensures
        count_cells(a + b) == count_cells(a) + count_cells(b),
    decreases b.len(),
{
    if b.len() == 0 {
        assert(a + b =~= a);
    } else {
        lemma_count_cells_append(a, b.drop_last());
        assert((a + b).drop_last() =~= a + b.drop_last());
        assert((a + b).last() == b.last());
    }
}

/// A row whose first `n` cells are all filled, or all empty, counts `n`, or
/// no, filled cells among them.
pub proof fn lemma_count_filled_row_uniform(row: Seq<Cell>, n: int)
    requires
        0 <= n <= row.len(),
    ensures
        (forall|x: int| 0 <= x < n ==> #[trigger] row[x] is Filled) ==> count_filled_row(row, n)
            == n,
        (forall|x: int| 0 <= x < n ==> #[trigger] row[x] is Empty) ==> count_filled_row(row, n)
            == 0,
    decreases n,
{
    if n > 0 {
        lemma_count_filled_row_uniform(row, n - 1);
    }
}

/// Empty rows hold no filled cell.
pub proof fn lemma_count_cells_empty(k: nat)
    ensures
        count_cells(empty_rows(k)) == 0,
    decreases k,
{
    if k > 0 {
        lemma_count_cells_empty((k - 1) as nat);
        assert(empty_rows(k).drop_last() =~= empty_rows((k - 1) as nat));
        lemma_count_filled_row_uniform(empty_row(), 10);
    }
}

/// The rows kept below `n` hold the filled cells of the first `n` rows but
/// for ten for each full one among them.
pub proof fn lemma_count_cells_kept(rows: Seq<Seq<Cell>>, n: int)
    requires
        0 <= n <= 24,
        rows.len() == 24,
        forall|y: int| 0 <= y < 24 ==> #[trigger] rows[y].len() == 10,
    ensures
        count_cells(rows_kept(rows, full_lines(rows, 24), n)) + 10 * full_lines(rows, n).len()
            == count_filled(rows, n),
    decreases n,
{
    if n > 0 {
        lemma_count_cells_kept(rows, n - 1);
        lemma_full_lines(rows, 24);
        let lines = full_lines(rows, 24);
        let prev = rows_kept(rows, lines, n - 1);
        assert(lines.contains((n - 1) as usize) <==> row_full(rows[n - 1]));
        lemma_count_filled_row_uniform(rows[n - 1], 10);
        if !row_full(rows[n - 1]) {
            assert(prev.push(rows[n - 1]).drop_last() =~= prev);
        }
    }
}

/// Clearing the full rows of a grid removes exactly their cells: ten filled
/// cells for each full row, and every other filled cell stays.
pub proof fn law_clearing_full_rows_removes_their_cells(rows: Seq<Seq<Cell>>)
    requires
        rows.len() == 24,
        forall|y: int| 0 <= y < 24 ==> #[trigger] rows[y].len() == 10,
    ensures
        count_filled(rows_after_clear(rows, full_lines(rows, 24)), 24) + 10 * full_lines(
            rows,
            24,
        ).len() == count_filled(rows, 24),
{
    let lines = full_lines(rows, 24);
    let kept = rows_kept(rows, lines, 24);
    lemma_rows_kept_len(rows, lines, 24);
    let after = rows_after_clear(rows, lines);
    lemma_count_cells_kept(rows, 24);
    lemma_count_filled_is_count_cells(after, 24);
    assert(after.take(24) =~= after);
    lemma_count_cells_append(empty_rows((24 - kept.len()) as nat), kept);
    lemma_count_cells_empty((24 - kept.len()) as nat);
}

/// How many of the rows `0..k` the list names.
pub open spec fn count_listed(lines: Seq<usize>, k: int) -> int
    decreases k,
{
    if k <= 0 {
        0
    } else {
        count_listed(lines, k - 1) + if lines.contains((k - 1) as usize) {
            1int
        } else {
            0int
        }
    }
}

/// Of the first `k` rows, the kept ones are those the list does not name.
pub proof fn lemma_rows_kept_len_exact(rows: Seq<Seq<Cell>>, lines: Seq<usize>, k: int)
    requires
        0 <= k,
    ensures
        rows_kept(rows, lines, k).len() == k - count_listed(lines, k),
    decreases k,
{
    if k > 0 {
        lemma_rows_kept_len_exact(rows, lines, k - 1);
    }
}

/// Naming one more row, not named before, adds one to the count of the rows
/// below `k` that are named exactly when that row is below `k`.
pub proof fn lemma_count_listed_push(lines: Seq<usize>, x: usize, k: int)
    requires
        !lines.contains(x),
        0 <= k <= 24,
    ensures
        count_listed(lines.push(x), k) == count_listed(lines, k) + if x < k {
            1int
        } else {
            0int
        },
    decreases k,
{
    if k > 0 {
        lemma_count_listed_push(lines, x, k - 1);
        let j = (k - 1) as usize;
        let more = lines.push(x);
        if lines.contains(j) {
            let i = choose|i: int| 0 <= i < lines.len() && lines[i] == j;
            assert(more[i] == j);
            assert(more.contains(j));
        }
        if j == x {
            assert(more[lines.len() as int] == j);
            assert(more.contains(j));
        }
        if more.contains(j) {
            let i = choose|i: int| 0 <= i < more.len() && more[i] == j;
            if i < lines.len() {
                assert(lines[i] == j);
                assert(lines.contains(j));
            }
        }
    }
}

/// A list of distinct rows of the grid names exactly as many of its 24 rows
/// as it has entries.
pub proof fn lemma_count_listed_distinct(lines: Seq<usize>)
    requires
        lines.no_duplicates(),
        forall|i: int| 0 <= i < lines.len() ==> #[trigger] lines[i] < 24,
    ensures
        count_listed(lines, 24) == lines.len(),
    decreases lines.len(),
{
    if lines.len() == 0 {
        lemma_count_listed_none(lines, 24);
    } else {
        let init = lines.drop_last();
        let x = lines.last();
        assert(init.push(x) =~= lines);
        assert forall|i: int, j: int| 0 <= i < init.len() && 0 <= j < init.len() && i != j implies init[i]
            != init[j] by {
            assert(lines[i] != lines[j]);
        }
        assert forall|i: int| 0 <= i < init.len() implies #[trigger] init[i] < 24 by {
            assert(lines[i] < 24);
        }
        lemma_count_listed_distinct(init);
        if init.contains(x) {
            let i = choose|i: int| 0 <= i < init.len() && init[i] == x;
            assert(lines[i] == lines[lines.len() - 1]);
        }
        assert(lines[lines.len() - 1] < 24);
        lemma_count_listed_push(init, x, 24);
    }
}

/// An empty list names no row.
proof fn lemma_count_listed_none(lines: Seq<usize>, k: int)
    requires
        lines.len() == 0,
        0 <= k,
    ensures
        count_listed(lines, k) == 0,
    decreases k,
{
    if k > 0 {
        lemma_count_listed_none(lines, k - 1);
    }
}

/// Clearing `n` distinct rows of the grid keeps exactly the other `24 - n`
/// rows, in their order, under `n` new empty rows.
pub proof fn law_clear_keeps_the_other_rows(rows: Seq<Seq<Cell>>, lines: Seq<usize>)
    requires
        lines.no_duplicates(),
        forall|i: int| 0 <= i < lines.len() ==> #[trigger] lines[i] < 24,
    ensures
        rows_kept(rows, lines, 24).len() == 24 - lines.len(),
        rows_after_clear(rows, lines) == empty_rows(lines.len()) + rows_kept(rows, lines, 24),
        rows_after_clear(rows, lines).len() == 24,
{
    lemma_rows_kept_len_exact(rows, lines, 24);
    lemma_count_listed_distinct(lines);
}

/// The game ends exactly when a block stands in one of the `BUFFER_HEIGHT`
/// buffer rows above the visible area, the lowest of them included: any
/// filled cell in rows 0 to 3 means game over, and a grid whose filled cells
/// all lie in the visible rows is not over.
pub proof fn law_game_over_is_a_block_in_the_buffer(rows: Seq<Seq<Cell>>)
    requires
        rows.len() == 24,
        forall|y: int| 0 <= y < 24 ==> #[trigger] rows[y].len() == 10,
    ensures
        forall|x: int, y: int|
            0 <= x < 10 && 0 <= y < crate::game::config::BUFFER_HEIGHT && #[trigger] rows[y][x] is Filled
                ==> rows_game_over(rows),
        (forall|x: int, y: int|
            0 <= x < 10 && 0 <= y < 24 && #[trigger] rows[y][x] is Filled ==> y
                >= crate::game::config::BUFFER_HEIGHT) ==> !rows_game_over(rows),
{
    assert forall|x: int, y: int|
        0 <= x < 10 && 0 <= y < crate::game::config::BUFFER_HEIGHT && #[trigger] rows[y][x] is Filled implies rows_game_over(rows) by {
        assert(rows_filled(rows, x, y));
    }
}

impl Board {
    /// The grid as rows of cells, buffer rows first.
    pub closed spec fn rows(self) -> Seq<Seq<Cell>> {
        self.grid@.map_values(|r: Vec<Cell>| r@)
    }

    /// Lines cleared so far.
    pub closed spec fn spec_lines_cleared(self) -> u32 {
        self.lines_cleared
    }

    /// Current level.
    pub closed spec fn spec_level(self) -> u32 {
        self.level
    }

    /// 24 rows of 10 cells, and the level follows from the lines cleared.
    pub open spec fn wf(self) -> bool {
        &&& self.rows().len() == 24
        &&& forall|y: int| 0 <= y < 24 ==> #[trigger] self.rows()[y].len() == 10
        &&& self.spec_level() == self.spec_lines_cleared() / 10 + 1
    }

    /// The cell at column `x`, row `y`.
    pub open spec fn cell(self, x: int, y: int) -> Cell {
        self.rows()[y][x]
    }

    /// The cell at column `x`, row `y` is on the grid and filled.
    pub open spec fn filled(self, x: int, y: int) -> bool {
        rows_filled(self.rows(), x, y)
    }

    /// A block may stand at (x, y): inside the side walls and above the floor,
    /// and either above the grid or on an empty cell.
    pub open spec fn spec_position_valid(self, x: int, y: int) -> bool {
        rows_valid(self.rows(), x, y)
    }

    /// Create a new empty board
    pub fn new() -> (board: Board)
        ensures
            board.wf(),
            board.rows() == empty_rows(24),
            board.spec_lines_cleared() == 0,
            board.spec_level() == 1,
    {
        let mut grid: Vec<Vec<Cell>> = Vec::new();
        for y in 0..24usize
            invariant
                grid@.map_values(|r: Vec<Cell>| r@) == empty_rows(y as nat),
        {
            let row = new_empty_row();
            let ghost before = grid@;
            grid.push(row);
            assert(grid@.map_values(|r: Vec<Cell>| r@) =~= before.map_values(|r: Vec<Cell>| r@).push(
                empty_row(),
            ));
            assert(grid@.map_values(|r: Vec<Cell>| r@) =~= empty_rows((y + 1) as nat));
        }
        Board { grid, lines_cleared: 0, level: 1 }
    }

    /// A board made of a grid (buffer rows first), the lines cleared and the
    /// level, as a board keeps them: `None` unless the grid has 24 rows of 10
    /// cells and the level is the one the lines cleared give.
    pub fn from_parts(grid: Vec<Vec<Cell>>, lines_cleared: u32, level: u32) -> (board: Option<Board>)
        ensures
            match board {
                Some(b) => {
                    &&& b.wf()
                    &&& b.rows() == grid@.map_values(|r: Vec<Cell>| r@)
                    &&& b.spec_lines_cleared() == lines_cleared
                    &&& b.spec_level() == level
                },
                None => !{
                    &&& grid@.len() == 24
                    &&& forall|y: int| 0 <= y < 24 ==> #[trigger] grid@[y]@.len() == 10
                    &&& level == lines_cleared / 10 + 1
                },
            },
    {
        if grid.len() != 24 || level != lines_cleared / 10 + 1 {
            return None;
        }
        for y in 0..24usize
            invariant
                grid@.len() == 24,
                forall|i: int| 0 <= i < y ==> #[trigger] grid@[i]@.len() == 10,
        {
            if grid[y].len() != 10 {
                return None;
            }
        }
        let board = Board { grid, lines_cleared, level };
        assert forall|y: int| 0 <= y < 24 implies #[trigger] board.rows()[y].len() == 10 by {
            assert(board.rows()[y] == board.grid@[y]@);
        }
        Some(board)
    }

    /// Whether the grid has 24 rows of 10 cells and the level is the one the
    /// lines cleared give.
    pub fn is_well_formed(&self) -> (ok: bool)
        ensures
            ok == self.wf(),
    {
        if self.grid.len() != 24 || self.level != self.lines_cleared / 10 + 1 {
            return false;
        }
        for y in 0..24usize
            invariant
                self.grid@.len() == 24,
                forall|i: int| 0 <= i < y ==> #[trigger] self.grid@[i]@.len() == 10,
        {
            if self.grid[y].len() != 10 {
                assert(self.rows()[y as int] == self.grid@[y as int]@);
                return false;
            }
        }
        assert forall|y: int| 0 <= y < 24 implies #[trigger] self.rows()[y].len() == 10 by {
            assert(self.rows()[y] == self.grid@[y]@);
        }
        true
    }

    /// The grid's rows, buffer rows first.
    pub fn grid_rows(&self) -> (rows: Vec<Vec<Cell>>)
        ensures
            rows@.map_values(|r: Vec<Cell>| r@) == self.rows(),
    {
        let mut rows: Vec<Vec<Cell>> = Vec::new();
        for y in 0..self.grid.len()
            invariant
                rows@.map_values(|r: Vec<Cell>| r@) == self.rows().take(y as int),
                self.rows().len() == self.grid@.len(),
        {
            let row = copy_row(&self.grid[y]);
            assert(self.rows()[y as int] == self.grid@[y as int]@);
            let ghost before = rows@;
            rows.push(row);
            assert(rows@.map_values(|r: Vec<Cell>| r@) =~= before.map_values(|r: Vec<Cell>| r@).push(
                row@,
            ));
            assert(rows@.map_values(|r: Vec<Cell>| r@) =~= self.rows().take(y + 1));
        }
        assert(self.rows().take(self.grid@.len() as int) =~= self.rows());
        rows
    }

    /// Get the cell at the specified position
    /// Returns None if coordinates are out of bounds
    pub fn get_cell(&self, x: i32, y: i32) -> (c: Option<Cell>)
        requires
            self.wf(),
        ensures
            c == (if in_bounds(x as int, y as int) {
                Some(self.cell(x as int, y as int))
            } else {
                None
            }),
    {
        if x < 0 || y < 0 {
            return None;
        }
        let x = x as usize;
        let y = y as usize;
        if x >= 10 || y >= 24 {
            return None;
        }
        assert(self.grid@[y as int]@ == self.rows()[y as int]);
        Some(self.grid[y][x])
    }

    /// Set the cell at the specified position
    /// Returns false if coordinates are out of bounds
    pub fn set_cell(&mut self, x: i32, y: i32, cell: Cell) -> (done: bool)
        requires
            old(self).wf(),
        ensures
            final(self).wf(),
            done == in_bounds(x as int, y as int),
            final(self).rows() == set_rows(old(self).rows(), x as int, y as int, cell),
            final(self).spec_lines_cleared() == old(self).spec_lines_cleared(),
            final(self).spec_level() == old(self).spec_level(),
    {
        if x < 0 || y < 0 {
            return false;
        }
        let x = x as usize;
        let y = y as usize;
        if x >= 10 || y >= 24 {
            return false;
        }
        let ghost old_rows = self.rows();
        assert(self.grid@[y as int]@ == old_rows[y as int]);
        let mut row = copy_row(&self.grid[y]);
        row.set(x, cell);
        self.grid.set(y, row);
        assert(self.rows() =~= old_rows.update(y as int, old_rows[y as int].update(x as int, cell)));
        true
    }

    /// Check if a position is valid and empty
    pub fn is_position_valid(&self, x: i32, y: i32) -> (valid: bool)
        requires
            self.wf(),
        ensures
            valid == self.spec_position_valid(x as int, y as int),
    {
        // Check bounds
        if x < 0 || x >= 10 {
            return false;
        }
        // Allow pieces to spawn above the visible area
        if y < 0 {
            return true;
        }
        if y >= 24 {
            return false;
        }
        // Check if cell is empty
        match self.get_cell(x, y) {
            Some(Cell::Empty) => true,
            _ => false,
        }
    }

    /// Check if a line is completely filled
    pub fn is_line_full(&self, y: usize) -> (full: bool)
        requires
            self.wf(),
        ensures
            full == (y < 24 && row_full(self.rows()[y as int])),
    {
        if y >= 24 {
            return false;
        }
        assert(self.grid@[y as int]@ == self.rows()[y as int]);
        let row = &self.grid[y];
        for x in 0..10usize
            invariant
                row@ == self.rows()[y as int],
                row@.len() == 10,
                forall|i: int| 0 <= i < x ==> #[trigger] row@[i] is Filled,
        {
            if !row[x].is_filled() {
                return false;
            }
        }
        true
    }

    /// Check if a line is completely empty
    pub fn is_line_empty(&self, y: usize) -> (empty: bool)
        requires
            self.wf(),
        ensures
            empty == (y < 24 && row_empty(self.rows()[y as int])),
    {
        if y >= 24 {
            return false;
        }
        assert(self.grid@[y as int]@ == self.rows()[y as int]);
        let row = &self.grid[y];
        for x in 0..10usize
            invariant
                row@ == self.rows()[y as int],
                row@.len() == 10,
                forall|i: int| 0 <= i < x ==> #[trigger] row@[i] is Empty,
        {
            if !row[x].is_empty() {
                return false;
            }
        }
        true
    }

    /// Find all complete lines that need to be cleared
    pub fn find_complete_lines(&self) -> (lines: Vec<usize>)
        requires
            self.wf(),
        ensures
            lines@ == full_lines(self.rows(), 24),
    {
        let mut complete_lines: Vec<usize> = Vec::new();
        // Only check visible area and buffer
        for y in 0..24usize
            invariant
                self.wf(),
                complete_lines@ == full_lines(self.rows(), y as int),
        {
            if self.is_line_full(y) {
                complete_lines.push(y);
            }
        }
        complete_lines
    }

    /// Clear the specified lines and drop rows above
    pub fn clear_lines(&mut self, lines_to_clear: &[usize]) -> (count: u32)
        requires
            old(self).wf(),
            old(self).spec_lines_cleared() + lines_to_clear@.len() <= u32::MAX,
        ensures
            final(self).wf(),
            count == lines_to_clear@.len(),
            lines_to_clear@.len() == 0 ==> final(self).rows() == old(self).rows(),
            lines_to_clear@.len() > 0 ==> final(self).rows() == rows_after_clear(
                old(self).rows(),
                lines_to_clear@,
            ),
            final(self).spec_lines_cleared() == old(self).spec_lines_cleared() + count,
    {
        if lines_to_clear.len() == 0 {
            return 0;
        }
        let lines_cleared_count = lines_to_clear.len() as u32;
        let ghost rows = self.rows();
        // Collect the rows that stay, top to bottom
        let mut kept: Vec<Vec<Cell>> = Vec::new();
        for y in 0..24usize
            invariant
                self.wf(),
                rows == self.rows(),
                kept@.map_values(|r: Vec<Cell>| r@) == rows_kept(rows, lines_to_clear@, y as int),
                kept@.len() <= y,
        {
            proof {
                lemma_rows_kept_len(rows, lines_to_clear@, y as int);
            }
            if !lines_contain(lines_to_clear, y) {
                assert(self.grid@[y as int]@ == rows[y as int]);
                let row = copy_row(&self.grid[y]);
                let ghost before = kept@;
                kept.push(row);
                assert(kept@.map_values(|r: Vec<Cell>| r@) =~= before.map_values(
                    |r: Vec<Cell>| r@,
                ).push(rows[y as int]));
            }
        }
        let ghost kept_rows = rows_kept(rows, lines_to_clear@, 24);
        let empties = 24 - kept.len();
        // Empty rows on top, then the kept rows
        let mut new_grid: Vec<Vec<Cell>> = Vec::new();
        for i in 0..empties
            invariant
                new_grid@.map_values(|r: Vec<Cell>| r@) == empty_rows(i as nat),
        {
            let row = new_empty_row();
            let ghost before = new_grid@;
            new_grid.push(row);
            assert(new_grid@.map_values(|r: Vec<Cell>| r@) =~= before.map_values(|r: Vec<Cell>| r@).push(
                empty_row(),
            ));
            assert(new_grid@.map_values(|r: Vec<Cell>| r@) =~= empty_rows((i + 1) as nat));
        }
        let n_kept = kept.len();
        for i in 0..n_kept
            invariant
                n_kept == kept@.len(),
                kept@.map_values(|r: Vec<Cell>| r@) == kept_rows,
                new_grid@.map_values(|r: Vec<Cell>| r@) == empty_rows(empties as nat)
                    + kept_rows.take(i as int),
        {
            assert(kept@[i as int]@ == kept_rows[i as int]);
            let row = copy_row(&kept[i]);
            let ghost before = new_grid@;
            new_grid.push(row);
            assert(new_grid@.map_values(|r: Vec<Cell>| r@) =~= before.map_values(|r: Vec<Cell>| r@).push(
                kept_rows[i as int],
            ));
            assert(kept_rows.take(i + 1) =~= kept_rows.take(i as int).push(kept_rows[i as int]));
            assert(new_grid@.map_values(|r: Vec<Cell>| r@) =~= empty_rows(empties as nat)
                + kept_rows.take(i + 1));
        }
        assert(kept_rows.take(n_kept as int) =~= kept_rows);
        let new_lines = self.lines_cleared + lines_cleared_count;
        *self = Board { grid: new_grid, lines_cleared: new_lines, level: new_lines / 10 + 1 };
        proof {
            let after = self.rows();
            assert(after == rows_after_clear(rows, lines_to_clear@));
            assert forall|y: int| 0 <= y < 24 implies #[trigger] after[y].len() == 10 by {
                if y < empties {
                } else {
                    assert(after[y] == kept_rows[y - empties]);
                    lemma_rows_kept_rows_wide(rows, lines_to_clear@, 24, y - empties);
                }
            }
        }
        lines_cleared_count
    }

    /// Get the current level
    pub fn level(&self) -> (level: u32)
        ensures
            level == self.spec_level(),
    {
        self.level
    }

    /// Get the total number of lines cleared
    pub fn lines_cleared(&self) -> (lines: u32)
        ensures
            lines == self.spec_lines_cleared(),
    {
        self.lines_cleared
    }

    /// Check if the game is over (pieces have reached the top)
    pub fn is_game_over(&self) -> (over: bool)
        requires
            self.wf(),
        ensures
            over == rows_game_over(self.rows()),
    {
        // Check if any cells in the spawn area (buffer zone) are filled
        for y in 0..4usize
            invariant
                self.wf(),
                forall|i: int, j: int|
                    0 <= j < y && 0 <= i < 10 ==> !#[trigger] rows_filled(self.rows(), i, j),
        {
            assert(self.grid@[y as int]@ == self.rows()[y as int]);
            for x in 0..10usize
                invariant
                    self.wf(),
                    y < 4,
                    forall|i: int, j: int|
                        0 <= j < y && 0 <= i < 10 ==> !#[trigger] rows_filled(self.rows(), i, j),
                    forall|i: int| 0 <= i < x ==> !#[trigger] rows_filled(self.rows(), i, y as int),
            {
                assert(self.grid@[y as int]@ == self.rows()[y as int]);
                if self.grid[y][x].is_filled() {
                    assert(rows_filled(self.rows(), x as int, y as int));
                    return true;
                }
            }
        }
        false
    }

    /// Clear the entire board
    pub fn clear(&mut self)
        ensures
            final(self).wf(),
            final(self).rows() == empty_rows(24),
            final(self).spec_lines_cleared() == 0,
            final(self).spec_level() == 1,
    {
        *self = Board::new();
    }

    /// Get the height of the highest filled cell in a column
    pub fn column_height(&self, x: usize) -> (height: usize)
        requires
            self.wf(),
        ensures
            height <= 24,
            x >= 10 ==> height == 0,
            x < 10 && height == 0 ==> forall|y: int| 0 <= y < 24 ==> !#[trigger] self.filled(x as int, y),
            height > 0 ==> x < 10 && self.filled(x as int, 24 - height) && forall|y: int|
                0 <= y < 24 - height ==> !#[trigger] self.filled(x as int, y),
    {
        if x >= 10 {
            return 0;
        }
        for y in 0..24usize
            invariant
                self.wf(),
                x < 10,
                forall|j: int| 0 <= j < y ==> !#[trigger] self.filled(x as int, j),
        {
            assert(self.grid@[y as int]@ == self.rows()[y as int]);
            if self.grid[y][x].is_filled() {
                return 24 - y;
            }
        }
        0  // Column is empty
    }

    /// Simple text representation for debugging
    pub fn debug_string(&self) -> (text: String)
        requires
            self.wf(),
        ensures
            text@ == debug_text(self.rows()),
    {
        let mut result = String::new();
        assert(rows_text(self.rows(), 4) =~= Seq::<char>::empty());
        // Only show visible area for debugging
        for y in 4..24usize
            invariant
                self.wf(),
                result@ == rows_text(self.rows(), y as int),
        {
            let ghost start = result@;
            proof {
                reveal_strlit("|");
                reveal_strlit("|\n");
            }
            result.append("|");
            assert(self.grid@[y as int]@ == self.rows()[y as int]);
            let row = &self.grid[y];
            for x in 0..10usize
                invariant
                    row@.len() == 10,
                    result@ == start + seq!['|'] + Seq::new(x as nat, |i: int| cell_char(row@[i])),
            {
                proof {
                    reveal_strlit(" ");
                    reveal_strlit("#");
                }
                match row[x] {
                    Cell::Empty => result.append(" "),
                    Cell::Filled(_) => result.append("#"),
                }
                assert(result@ =~= start + seq!['|'] + Seq::new(
                    (x + 1) as nat,
                    |i: int| cell_char(row@[i]),
                ));
            }
            result.append("|\n");
            assert(result@ =~= rows_text(self.rows(), y + 1));
        }
        // Add bottom border
        proof {
            reveal_strlit("+");
        }
        result.append("+");
        let ghost border_start = result@;
        for x in 0..10usize
            invariant
                result@ == border_start + Seq::new(x as nat, |i: int| '-'),
        {
            proof {
                reveal_strlit("-");
            }
            result.append("-");
            assert(result@ =~= border_start + Seq::new((x + 1) as nat, |i: int| '-'));
        }
        proof {
            reveal_strlit("+");
        }
        result.append("+");
        assert(result@ =~= debug_text(self.rows()));
        result
    }

    /// Get the total number of filled cells
    pub fn filled_cells_count(&self) -> (count: usize)
        requires
            self.wf(),
        ensures
            count == count_filled(self.rows(), 24),
    {
        let mut count: usize = 0;
        for y in 0..24usize
            invariant
                self.wf(),
                count == count_filled(self.rows(), y as int),
                count <= 10 * y,
        {
            assert(self.grid@[y as int]@ == self.rows()[y as int]);
            let row = &self.grid[y];
            let ghost base = count;
            for x in 0..10usize
                invariant
                    self.wf(),
                    y < 24,
                    row@ == self.rows()[y as int],
                    count == base + count_filled_row(row@, x as int),
                    base <= 10 * y,
                    count <= base + x,
            {
                if row[x].is_filled() {
                    count = count + 1;
                }
            }
        }
        count
    }
}

/// Every row kept by a clear is a row of the grid, hence 10 cells wide.
pub proof fn lemma_rows_kept_rows_wide(rows: Seq<Seq<Cell>>, lines: Seq<usize>, n: int, i: int)
    requires
        0 <= n <= rows.len(),
        forall|y: int| 0 <= y < rows.len() ==> #[trigger] rows[y].len() == 10,
        0 <= i < rows_kept(rows, lines, n).len(),
    ensures
        rows_kept(rows, lines, n)[i].len() == 10,
    decreases n,
{
    if n > 0 {
        let prev = rows_kept(rows, lines, n - 1);
        if i < prev.len() {
            lemma_rows_kept_rows_wide(rows, lines, n - 1, i);
        }
    }
}

impl Clone for Board {
    fn clone(&self) -> (copy: Self)
        ensures
            copy.rows() == self.rows(),
            copy.spec_lines_cleared() == self.spec_lines_cleared(),
            copy.spec_level() == self.spec_level(),
    {
        Board { grid: self.grid_rows(), lines_cleared: self.lines_cleared, level: self.level }
    }
}

impl Default for Board {
    fn default() -> (board: Self)
        ensures
            board.wf(),
            board.rows() == empty_rows(24),
            board.spec_lines_cleared() == 0,
            board.spec_level() == 1,
    {
        Self::new()
    }
}

} // verus!
