use vstd::prelude::*;
use crate::tetromino::{Point, TetrominoType};

verus! {

/// Columns of the board.
pub const WIDTH: usize = 10;

/// Rows of the board; row 0 is the top.
pub const HEIGHT: usize = 20;

/// Cells of the board.
pub const FIELD_SIZE: usize = 200;

/// The board, row-major: the cell at column `x` of row `y` is at `x + y * WIDTH`.
pub type GameField = [TetrominoType; FIELD_SIZE];

/// Whether a block is present (not the empty marker).
pub open spec fn is_block(t: TetrominoType) -> bool {
    t != TetrominoType::E
}

/// Index of the cell at column `x` of row `y`.
pub open spec fn cell_index(x: int, y: int) -> int {
    x + y * WIDTH
}

/// Whether the on-board cell at column `x` of row `y` holds a block.
pub open spec fn occupied(f: Seq<TetrominoType>, x: int, y: int) -> bool {
    is_block(f[cell_index(x, y)])
}

/// Whether a piece cell at column `x` of row `y` collides: cells above the
/// board (`y < 0`) never do; cells left, right or below the board always do;
/// a cell on the board does when it is occupied.
pub open spec fn blocked(f: Seq<TetrominoType>, x: int, y: int) -> bool {
    y >= 0 && (x < 0 || x >= WIDTH || y >= HEIGHT || occupied(f, x, y))
}

/// Whether the cells `cells`, placed relative to `pos`, collide with the board.
pub open spec fn collides(f: Seq<TetrominoType>, pos: Point, cells: Seq<Point>) -> bool {
    exists|i: int| 0 <= i < cells.len() && #[trigger] blocked(f, pos.x + cells[i].x, pos.y + cells[i].y)
}

/// Every absolute cell of the placement fits an `i32`.
pub open spec fn placement_in_range(pos: Point, cells: Seq<Point>) -> bool {
    forall|i: int| 0 <= i < cells.len() ==> i32::MIN <= pos.x + #[trigger] cells[i].x <= i32::MAX
        && i32::MIN <= pos.y + cells[i].y <= i32::MAX
}

/// Whether the point at column `x` of row `y` lies on the board.
pub open spec fn on_board(x: int, y: int) -> bool {
    0 <= x < WIDTH && 0 <= y < HEIGHT
}

/// Whether some cell of the placement lands on board cell `j`.
pub open spec fn covers(pos: Point, cells: Seq<Point>, j: int) -> bool {
    exists|i: int| 0 <= i < cells.len() && on_board(pos.x + cells[i].x, pos.y + cells[i].y)
        && #[trigger] cell_index(pos.x + cells[i].x, pos.y + cells[i].y) == j
}

/// The board after the placement is merged into it: each covered cell holds a block.
pub open spec fn merged(f: Seq<TetrominoType>, pos: Point, cells: Seq<Point>) -> Seq<TetrominoType> {
    Seq::new(f.len(), |j: int| if covers(pos, cells, j) { TetrominoType::O } else { f[j] })
}

/// Whether every cell of row `row` holds a block.
pub open spec fn row_full(f: Seq<TetrominoType>, row: int) -> bool {
    forall|c: int| 0 <= c < WIDTH ==> #[trigger] is_block(f[cell_index(c, row)])
}

/// The number of empty cells.
pub open spec fn count_empty(f: Seq<TetrominoType>) -> nat
    decreases f.len(),
{
    if f.len() == 0 {
        0
    } else {
        count_empty(f.drop_last()) + if f.last() == TetrominoType::E {
            1nat
        } else {
            0nat
        }
    }
}

pub proof fn lemma_count_empty_bound(f: Seq<TetrominoType>)
    ensures
        count_empty(f) <= f.len(),
    decreases f.len(),
{
    if f.len() > 0 {
        lemma_count_empty_bound(f.drop_last());
    }
}

pub proof fn lemma_count_empty_update(f: Seq<TetrominoType>, j: int, v: TetrominoType)
    requires
        0 <= j < f.len(),
    ensures
        count_empty(f.update(j, v)) + (if f[j] == TetrominoType::E { 1int } else { 0int }) == count_empty(f) + (if v
            == TetrominoType::E {
            1int
        } else {
            0int
        }),
    decreases f.len(),
{
    if j == f.len() - 1 {
        assert(f.update(j, v).drop_last() =~= f.drop_last());
    } else {
        lemma_count_empty_update(f.drop_last(), j, v);
        assert(f.update(j, v).drop_last() =~= f.drop_last().update(j, v));
    }
}

/// A board whose empty cells include those of another has at least as many,
/// and more when it empties one more cell.
pub proof fn lemma_count_empty_more(f1: Seq<TetrominoType>, f2: Seq<TetrominoType>, k: int)
    requires
        f1.len() == f2.len(),
        forall|j: int| 0 <= j < f1.len() && f1[j] == TetrominoType::E ==> f2[j] == TetrominoType::E,
    ensures
        count_empty(f2) >= count_empty(f1),
        0 <= k < f1.len() && f1[k] != TetrominoType::E && f2[k] == TetrominoType::E ==> count_empty(f2) > count_empty(f1),
    decreases f1.len(),
{
    if f1.len() > 0 {
        lemma_count_empty_more(f1.drop_last(), f2.drop_last(), k);
    }
}

/// Collision at the edges: a placement whose cells all lie above the board
/// never collides, whatever the board holds; one with a cell at or below the
/// top row in column -1 or in column `WIDTH`, or with a cell in row
/// `HEIGHT`, always collides.
pub proof fn collision_edges(f: Seq<TetrominoType>, pos: Point, cells: Seq<Point>, i: int)
    ensures
        (forall|k: int| 0 <= k < cells.len() ==> pos.y + #[trigger] cells[k].y < 0) ==> !collides(f, pos, cells),
        0 <= i < cells.len() && pos.y + cells[i].y >= 0 && (pos.x + cells[i].x == -1 || pos.x + cells[i].x == WIDTH)
            ==> collides(f, pos, cells),
        0 <= i < cells.len() && pos.y + cells[i].y == HEIGHT ==> collides(f, pos, cells),
{
    if 0 <= i < cells.len() && pos.y + cells[i].y >= 0 && (pos.x + cells[i].x == -1 || pos.x + cells[i].x == WIDTH || pos.y
        + cells[i].y == HEIGHT) {
        assert(blocked(f, pos.x + cells[i].x, pos.y + cells[i].y));
    }
    if forall|k: int| 0 <= k < cells.len() ==> pos.y + #[trigger] cells[k].y < 0 {
        assert forall|k: int| 0 <= k < cells.len() implies !#[trigger] blocked(f, pos.x + cells[k].x, pos.y + cells[k].y) by {
            assert(pos.y + cells[k].y < 0);
        }
    }
}

/// An empty board.
pub fn empty_field() -> (r: GameField)
    ensures
        forall|i: int| 0 <= i < FIELD_SIZE ==> r@[i] == TetrominoType::E,
{
    let mut r: GameField = [TetrominoType::E; FIELD_SIZE];
    let mut i: usize = 0;
    while i < FIELD_SIZE
        invariant
            i <= FIELD_SIZE,
            forall|j: int| 0 <= j < i ==> r@[j] == TetrominoType::E,
        decreases FIELD_SIZE - i,
    {
        r[i] = TetrominoType::E;
        i = i + 1;
    }
    r
}

/// Whether a block is present (not the empty marker).
pub fn valid_block(block: &TetrominoType) -> (r: bool)
    ensures
        r == is_block(*block),
{
    match block {
        TetrominoType::E => false,
        _ => true,
    }
}

/// Whether the cells `sequence`, placed relative to `position`, collide with the board.
pub fn check_for_collision(position: &Point, sequence: &[Point], game_field: &GameField) -> (r: bool)
    requires
        placement_in_range(*position, sequence@),
    ensures
        r == collides(game_field@, *position, sequence@),
{
    let mut i: usize = 0;
    while i < sequence.len()
        invariant
            i <= sequence@.len(),
            placement_in_range(*position, sequence@),
            forall|k: int| 0 <= k < i ==> !#[trigger] blocked(game_field@, position.x + sequence@[k].x, position.y + sequence@[k].y),
        decreases sequence@.len() - i,
    {
        let element = sequence[i];
        let new_position = position.add(&element);
        assert(new_position.x == position.x + sequence@[i as int].x);
        assert(new_position.y == position.y + sequence@[i as int].y);
        if new_position.y >= 0 {
            if new_position.x < 0 || new_position.x >= WIDTH as i32 {
                assert(blocked(game_field@, position.x + sequence@[i as int].x, position.y + sequence@[i as int].y));
                return true;
            }
            if new_position.y >= HEIGHT as i32 {
                assert(blocked(game_field@, position.x + sequence@[i as int].x, position.y + sequence@[i as int].y));
                return true;
            }
            let index = new_position.x as usize + (new_position.y as usize) * WIDTH;
            if valid_block(&game_field[index]) {
                assert(blocked(game_field@, position.x + sequence@[i as int].x, position.y + sequence@[i as int].y));
                return true;
            }
        }
        i = i + 1;
    }
    false
}

/// Merges the placement into the board: writes a block into every absolute
/// cell that lies on the board; cells above it (or, out of bounds, beside or
/// below it) are dropped.
pub fn fill_field(position: &Point, sequence: &[Point], game_field: &mut GameField)
    requires
        placement_in_range(*position, sequence@),
    ensures
        final(game_field)@ == merged(old(game_field)@, *position, sequence@),
        count_empty(final(game_field)@) + sequence@.len() >= count_empty(old(game_field)@),
{
    let ghost f0 = game_field@;
    let mut i: usize = 0;
    while i < sequence.len()
        invariant
            i <= sequence@.len(),
            f0.len() == FIELD_SIZE,
            placement_in_range(*position, sequence@),
            game_field@ == merged(f0, *position, sequence@.subrange(0, i as int)),
            count_empty(game_field@) + i >= count_empty(f0),
        decreases sequence@.len() - i,
    {
        let ghost before = game_field@;
        let element = sequence[i];
        let element_position = position.add(&element);
        let ghost cur = sequence@.subrange(0, i as int);
        let ghost next = sequence@.subrange(0, i + 1);
        if element_position.y >= 0 && element_position.y < HEIGHT as i32 && element_position.x >= 0 && element_position.x
            < WIDTH as i32 {
            let index = element_position.x as usize + (element_position.y as usize) * WIDTH;
            proof {
                lemma_count_empty_update(game_field@, index as int, TetrominoType::O);
            }
            game_field[index] = TetrominoType::O;
            assert forall|j: int| 0 <= j < FIELD_SIZE implies #[trigger] covers(*position, next, j) == (covers(*position, cur, j) || j == index) by {
                if covers(*position, cur, j) {
                    let k = choose|k: int| 0 <= k < cur.len() && on_board(position.x + cur[k].x, position.y + cur[k].y)
                        && #[trigger] cell_index(position.x + cur[k].x, position.y + cur[k].y) == j;
                    assert(next[k] == cur[k]);
                }
                if j == index {
                    assert(next[i as int] == element);
                    assert(cell_index(position.x + next[i as int].x, position.y + next[i as int].y) == j);
                }
                if covers(*position, next, j) {
                    let k = choose|k: int| 0 <= k < next.len() && on_board(position.x + next[k].x, position.y + next[k].y)
                        && #[trigger] cell_index(position.x + next[k].x, position.y + next[k].y) == j;
                    if k < i {
                        assert(cur[k] == next[k]);
                    }
                }
            }
        } else {
            assert forall|j: int| 0 <= j < FIELD_SIZE implies #[trigger] covers(*position, next, j) == covers(*position, cur, j) by {
                if covers(*position, cur, j) {
                    let k = choose|k: int| 0 <= k < cur.len() && on_board(position.x + cur[k].x, position.y + cur[k].y)
                        && #[trigger] cell_index(position.x + cur[k].x, position.y + cur[k].y) == j;
                    assert(next[k] == cur[k]);
                }
                if covers(*position, next, j) {
                    let k = choose|k: int| 0 <= k < next.len() && on_board(position.x + next[k].x, position.y + next[k].y)
                        && #[trigger] cell_index(position.x + next[k].x, position.y + next[k].y) == j;
                    if k < i {
                        assert(cur[k] == next[k]);
                    }
                }
            }
        }
        assert(game_field@ =~= merged(f0, *position, next));
        i = i + 1;
    }
    assert(sequence@.subrange(0, sequence@.len() as int) =~= sequence@);
}

/// The full rows of the board, top to bottom.
pub fn find_filled_lines(play_table: &GameField) -> (lines: Vec<usize>)
    ensures
        forall|k: int| 0 <= k < lines@.len() ==> #[trigger] lines@[k] < HEIGHT && row_full(play_table@, lines@[k] as int),
        forall|a: int, b: int| 0 <= a < b < lines@.len() ==> lines@[a] < lines@[b],
        forall|row: int| 0 <= row < HEIGHT && row_full(play_table@, row) ==> lines@.contains(row as usize),
        lines@.len() <= HEIGHT,
{
    let mut lines: Vec<usize> = Vec::new();
    let mut row: usize = 0;
    while row < HEIGHT
        invariant
            row <= HEIGHT,
            forall|k: int| 0 <= k < lines@.len() ==> #[trigger] lines@[k] < row && row_full(play_table@, lines@[k] as int),
            forall|a: int, b: int| 0 <= a < b < lines@.len() ==> lines@[a] < lines@[b],
            forall|r: int| 0 <= r < row && row_full(play_table@, r) ==> lines@.contains(r as usize),
            lines@.len() <= row,
        decreases HEIGHT - row,
    {
        let mut line = true;
        let mut column: usize = 0;
        while column < WIDTH
            invariant
                row < HEIGHT,
                column <= WIDTH,
                line == (forall|c: int| 0 <= c < column ==> #[trigger] is_block(play_table@[cell_index(c, row as int)])),
            decreases WIDTH - column,
        {
            let index = row * WIDTH + column;
            assert(index as int == cell_index(column as int, row as int));
            if !valid_block(&play_table[index]) {
                line = false;
            }
            assert(line == (forall|c: int| 0 <= c < column + 1 ==> #[trigger] is_block(play_table@[cell_index(c, row as int)])));
            column = column + 1;
        }
        if line {
            let ghost old_lines = lines@;
            lines.push(row);
            assert forall|r: int| 0 <= r < row + 1 && row_full(play_table@, r) implies lines@.contains(r as usize) by {
                if r < row {
                    let k = choose|k: int| 0 <= k < old_lines.len() && old_lines[k] == r as usize;
                    assert(lines@[k] == r as usize);
                } else {
                    assert(lines@[old_lines.len() as int] == row);
                }
            }
        } else {
            assert(!row_full(play_table@, row as int));
        }
        row = row + 1;
    }
    lines
}

/// Empties every cell of the given rows.
pub fn clear_play_table(play_table: &mut GameField, lines: Vec<usize>)
    requires
        forall|k: int| 0 <= k < lines@.len() ==> #[trigger] lines@[k] < HEIGHT,
    ensures
        forall|j: int| 0 <= j < FIELD_SIZE ==> #[trigger] final(play_table)@[j] == if lines@.contains((j / WIDTH as int) as usize) {
            TetrominoType::E
        } else {
            old(play_table)@[j]
        },
{
    let ghost f0 = play_table@;
    let mut n: usize = 0;
    while n < lines.len()
        invariant
            n <= lines@.len(),
            forall|k: int| 0 <= k < lines@.len() ==> #[trigger] lines@[k] < HEIGHT,
            forall|j: int| 0 <= j < FIELD_SIZE ==> #[trigger] play_table@[j] == if lines@.subrange(0, n as int).contains((j / WIDTH as int) as usize) {
                TetrominoType::E
            } else {
                f0[j]
            },
        decreases lines@.len() - n,
    {
        let line = lines[n];
        let ghost before = play_table@;
        let mut element: usize = 0;
        while element < WIDTH
            invariant
                line < HEIGHT,
                element <= WIDTH,
                forall|j: int| 0 <= j < FIELD_SIZE ==> #[trigger] play_table@[j] == if ((j / WIDTH as int) == line && (j % WIDTH as int) < element) {
                    TetrominoType::E
                } else {
                    before[j]
                },
            decreases WIDTH - element,
        {
            play_table[line * WIDTH + element] = TetrominoType::E;
            element = element + 1;
        }
        let ghost pre = lines@.subrange(0, n as int);
        let ghost post = lines@.subrange(0, n + 1);
        assert forall|j: int| 0 <= j < FIELD_SIZE implies #[trigger] play_table@[j] == if post.contains((j / WIDTH as int) as usize) {
            TetrominoType::E
        } else {
            f0[j]
        } by {
            let r = (j / WIDTH as int) as usize;
            if pre.contains(r) {
                let k = choose|k: int| 0 <= k < pre.len() && #[trigger] pre[k] == r;
                assert(post[k] == r);
            }
            if r == line {
                assert(post[n as int] == r);
            }
            if post.contains(r) {
                let k = choose|k: int| 0 <= k < post.len() && #[trigger] post[k] == r;
                if k < n {
                    assert(pre[k] == r);
                }
            }
        }
        n = n + 1;
    }
    assert(lines@.subrange(0, lines@.len() as int) =~= lines@);
}

} // verus!
