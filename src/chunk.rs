use vstd::prelude::*;
use crate::field::{
    cell_index, check_for_collision, count_empty, lemma_count_empty_update, collides, fill_field, is_block, merged, on_board, valid_block, GameField, FIELD_SIZE,
    HEIGHT, WIDTH,
};
use crate::tetromino::{Point, TetrominoType};

verus! {

/// Whether cells `a` and `b` of a sub-board of `size` cells (rows `0..size / WIDTH`)
/// are left/right or up/down neighbours.
pub open spec fn adjacent(a: int, b: int, size: int) -> bool {
    &&& 0 <= a < size
    &&& 0 <= b < size
    &&& {
        ||| (b == a - 1 && a % (WIDTH as int) != 0)
        ||| (b == a + 1 && a % (WIDTH as int) != WIDTH - 1)
        ||| b == a - WIDTH
        ||| b == a + WIDTH
    }
}

/// The board coordinates of cell `j`.
pub open spec fn point_of(j: int) -> Point {
    Point { x: (j % (WIDTH as int)) as i32, y: (j / (WIDTH as int)) as i32 }
}

/// The cell at a board point.
pub open spec fn index_of(p: Point) -> int {
    cell_index(p.x as int, p.y as int)
}

/// Whether every cell of the list after the first neighbours an earlier one
/// (so that the cells form one connected group).
pub open spec fn linked(cells: Seq<Point>, size: int) -> bool {
    forall|p: int| 0 < p < cells.len() ==> #[trigger] neighbours_earlier(cells, p, size)
}

/// Whether the `p`-th cell of the list neighbours an earlier one.
pub open spec fn neighbours_earlier(cells: Seq<Point>, p: int, size: int) -> bool {
    exists|q: int| 0 <= q < p && #[trigger] adjacent(index_of(cells[q]), index_of(cells[p]), size)
}

/// Whether cell `j` neighbours a cell of the list.
pub open spec fn neighbours_one_of(cells: Seq<Point>, j: int, size: int) -> bool {
    exists|p: int| 0 <= p < cells.len() && #[trigger] adjacent(index_of(cells[p]), j, size)
}

/// Whether `chunks` are the chunks of the first `size` cells of board `f0`,
/// and `f1` is `f0` with those cells emptied: every chunk is non-empty and
/// lists occupied cells of the sub-board; every occupied cell of the
/// sub-board is listed exactly once; neighbouring occupied cells are listed
/// in the same chunk; each chunk is connected, listed so that every cell after
/// the first neighbours an earlier one.
pub open spec fn chunks_of(f0: Seq<TetrominoType>, f1: Seq<TetrominoType>, size: int, chunks: Seq<Seq<Point>>) -> bool {
    &&& forall|j: int| 0 <= j < size ==> #[trigger] f1[j] == TetrominoType::E
    &&& forall|j: int| size <= j < FIELD_SIZE ==> #[trigger] f1[j] == f0[j]
    &&& forall|k: int| 0 <= k < chunks.len() ==> #[trigger] chunks[k].len() > 0
    &&& forall|k: int, p: int|
        0 <= k < chunks.len() && 0 <= p < chunks[k].len() ==> {
            let j = index_of(#[trigger] chunks[k][p]);
            &&& 0 <= j < size
            &&& chunks[k][p] == point_of(j)
            &&& is_block(f0[j])
        }
    &&& forall|j: int|
        0 <= j < size && #[trigger] is_block(f0[j]) ==> exists|k: int, p: int|
            0 <= k < chunks.len() && 0 <= p < chunks[k].len() && #[trigger] chunks[k][p] == point_of(j)
    &&& forall|k1: int, p1: int, k2: int, p2: int|
        0 <= k1 < chunks.len() && 0 <= p1 < chunks[k1].len() && 0 <= k2 < chunks.len() && 0 <= p2 < chunks[k2].len()
            && #[trigger] chunks[k1][p1] == #[trigger] chunks[k2][p2] ==> k1 == k2 && p1 == p2
    &&& forall|k1: int, p1: int, k2: int, p2: int|
        0 <= k1 < chunks.len() && 0 <= p1 < chunks[k1].len() && 0 <= k2 < chunks.len() && 0 <= p2 < chunks[k2].len()
            && adjacent(index_of(#[trigger] chunks[k1][p1]), index_of(#[trigger] chunks[k2][p2]), size) ==> k1 == k2
    &&& forall|k: int| 0 <= k < chunks.len() ==> linked(#[trigger] chunks[k], size)
}

/// The number of cells of the sub-board `(HEIGHT - begin) * WIDTH` that a search from `begin` covers.
pub open spec fn sub_board_size(begin: int) -> int {
    (HEIGHT - begin) * WIDTH
}

/// The views of a list of point lists.
pub open spec fn point_lists(v: Seq<Vec<Point>>) -> Seq<Seq<Point>> {
    Seq::new(v.len(), |k: int| v[k]@)
}

/// The number of points over all lists.
pub open spec fn total_len(cs: Seq<Seq<Point>>) -> nat
    decreases cs.len(),
{
    if cs.len() == 0 {
        0
    } else {
        total_len(cs.drop_last()) + cs.last().len()
    }
}

/// The number of unset flags.
pub open spec fn count_unset(s: Seq<bool>) -> nat
    decreases s.len(),
{
    if s.len() == 0 {
        0
    } else {
        count_unset(s.drop_last()) + if s.last() {
            0nat
        } else {
            1nat
        }
    }
}

proof fn lemma_count_unset_set(s: Seq<bool>, j: int)
    requires
        0 <= j < s.len(),
        !s[j],
    ensures
        count_unset(s.update(j, true)) + 1 == count_unset(s),
    decreases s.len(),
{
    if j == s.len() - 1 {
        assert(s.update(j, true).drop_last() =~= s.drop_last());
    } else {
        lemma_count_unset_set(s.drop_last(), j);
        assert(s.update(j, true).drop_last() =~= s.drop_last().update(j, true));
    }
}

proof fn lemma_point_of(j: int)
    requires
        0 <= j < FIELD_SIZE,
    ensures
        index_of(point_of(j)) == j,
        0 <= point_of(j).x < WIDTH,
        0 <= point_of(j).y < HEIGHT,
{
    vstd::arithmetic::div_mod::lemma_fundamental_div_mod(j, WIDTH as int);
}

proof fn lemma_adjacent_symmetric(a: int, b: int, size: int)
    requires
        adjacent(a, b, size),
    ensures
        adjacent(b, a, size),
{
    vstd::arithmetic::div_mod::lemma_fundamental_div_mod(a, WIDTH as int);
    vstd::arithmetic::div_mod::lemma_fundamental_div_mod(b, WIDTH as int);
}

/// The neighbour of cell `index` in direction `d` (left, right, up, down),
/// when it lies on the sub-board of `size` cells.
pub open spec fn neighbour(index: int, size: int, d: int) -> Option<int> {
    if d == 0 {
        if index % (WIDTH as int) != 0 { Some(index - 1) } else { None }
    } else if d == 1 {
        if index % (WIDTH as int) != WIDTH - 1 && index + 1 < size { Some(index + 1) } else { None }
    } else if d == 2 {
        if index >= WIDTH { Some(index - WIDTH) } else { None }
    } else {
        if index + WIDTH < size { Some(index + WIDTH) } else { None }
    }
}

/// Whether `b` is the neighbour of `index` in one of the first `upto` directions.
pub open spec fn considered(index: int, size: int, b: int, upto: int) -> bool {
    exists|d: int| 0 <= d < upto && #[trigger] neighbour(index, size, d) == Some(b)
}

/// The state of a neighbour search after `upto` directions: those neighbours
/// are visited, and the unvisited occupied ones among them are listed once.
pub open spec fn search_state(
    v0: Seq<bool>,
    v: Seq<bool>,
    r: Seq<usize>,
    f: Seq<TetrominoType>,
    index: int,
    upto: int,
) -> bool {
    &&& v.len() == v0.len()
    &&& forall|b: int| 0 <= b < v0.len() ==> #[trigger] v[b] == (v0[b] || considered(index, v0.len() as int, b, upto))
    &&& forall|b: int|
        0 <= b < v0.len() ==> (#[trigger] r.contains(b as usize) <==> (considered(index, v0.len() as int, b, upto) && !v0[b]
            && is_block(f[b])))
    &&& forall|q1: int, q2: int| 0 <= q1 < q2 < r.len() ==> r[q1] != r[q2]
    &&& forall|q: int| 0 <= q < r.len() ==> #[trigger] r[q] < v0.len()
}

proof fn lemma_considered_step(index: int, size: int, b: int, upto: int)
    requires
        0 <= upto,
    ensures
        considered(index, size, b, upto + 1) == (considered(index, size, b, upto) || neighbour(index, size, upto) == Some(b)),
{
    if considered(index, size, b, upto + 1) {
        let d = choose|d: int| 0 <= d < upto + 1 && #[trigger] neighbour(index, size, d) == Some(b);
        if d < upto {
            assert(considered(index, size, b, upto));
        }
    }
    if considered(index, size, b, upto) {
        let d = choose|d: int| 0 <= d < upto && #[trigger] neighbour(index, size, d) == Some(b);
        assert(0 <= d < upto + 1);
    }
    if neighbour(index, size, upto) == Some(b) {
        assert(0 <= upto < upto + 1);
    }
}

proof fn lemma_search_step(
    v0: Seq<bool>,
    vb: Seq<bool>,
    va: Seq<bool>,
    rb: Seq<usize>,
    ra: Seq<usize>,
    f: Seq<TetrominoType>,
    index: int,
    upto: int,
)
    requires
        0 <= upto < 4,
        0 <= index < v0.len(),
        v0.len() <= f.len(),
        v0.len() <= FIELD_SIZE,
        search_state(v0, vb, rb, f, index, upto),
        neighbour(index, v0.len() as int, upto) is None ==> va == vb && ra == rb,
        neighbour(index, v0.len() as int, upto) matches Some(c) ==> 0 <= c < v0.len() && va == vb.update(c, true)
            && ra == if !vb[c] && is_block(f[c]) {
            rb.push(c as usize)
        } else {
            rb
        },
    ensures
        search_state(v0, va, ra, f, index, upto + 1),
{
    let size = v0.len() as int;
    assert forall|b: int| 0 <= b < size implies #[trigger] va[b] == (v0[b] || considered(index, size, b, upto + 1)) by {
        lemma_considered_step(index, size, b, upto);
    }
    if let Some(c) = neighbour(index, size, upto) {
        assert(!considered(index, size, c, upto)) by {
            if considered(index, size, c, upto) {
                let d = choose|d: int| 0 <= d < upto && #[trigger] neighbour(index, size, d) == Some(c);
            }
        }
        assert(vb[c] == v0[c]);
        assert forall|b: int| 0 <= b < size implies (#[trigger] ra.contains(b as usize) <==> (considered(index, size, b, upto + 1) && !v0[b]
            && is_block(f[b]))) by {
            lemma_considered_step(index, size, b, upto);
            if ra.contains(b as usize) {
                let q = choose|q: int| 0 <= q < ra.len() && ra[q] == b as usize;
                if q < rb.len() {
                    assert(rb[q] == b as usize);
                    assert(rb.contains(b as usize));
                    assert(considered(index, size, b, upto) && !v0[b] && is_block(f[b]));
                } else {
                    assert(ra.len() != rb.len());
                    assert(!vb[c] && is_block(f[c]));
                    assert(b == c);
                    lemma_considered_step(index, size, b, upto);
                }
            }
            if considered(index, size, b, upto) && !v0[b] && is_block(f[b]) {
                assert(rb.contains(b as usize));
                let q = choose|q: int| 0 <= q < rb.len() && rb[q] == b as usize;
                assert(ra[q] == b as usize);
            }
            if b == c && !v0[b] && is_block(f[b]) {
                assert(ra[ra.len() - 1] == b as usize);
            }
        }
        assert forall|q1: int, q2: int| 0 <= q1 < q2 < ra.len() implies ra[q1] != ra[q2] by {
            if q2 == rb.len() && ra.len() > rb.len() {
                assert(rb[q1] == ra[q1]);
                assert(rb.contains(ra[q1]));
            }
        }
        assert(search_state(v0, va, ra, f, index, upto + 1));
    } else {
        assert(ra == rb);
        assert forall|b: int| 0 <= b < size implies (#[trigger] ra.contains(b as usize) <==> (considered(index, size, b, upto + 1) && !v0[b]
            && is_block(f[b]))) by {
            lemma_considered_step(index, size, b, upto);
            if ra.contains(b as usize) {
                assert(rb.contains(b as usize));
            }
        }
        assert(search_state(v0, va, ra, f, index, upto + 1));
    }
}

/// Visits cell `new_index`: marks it visited and, when it was unvisited and
/// holds a block, lists it.
fn visit(visited: &mut Vec<bool>, game_field: &GameField, new_index: usize, result: &mut Vec<usize>)
    requires
        new_index < old(visited)@.len(),
        new_index < FIELD_SIZE,
    ensures
        final(visited)@ == old(visited)@.update(new_index as int, true),
        final(result)@ == if !old(visited)@[new_index as int] && is_block(game_field@[new_index as int]) {
            old(result)@.push(new_index)
        } else {
            old(result)@
        },
{
    if !visited[new_index] {
        visited.set(new_index, true);
        if valid_block(&game_field[new_index]) {
            result.push(new_index);
        }
    } else {
        assert(old(visited)@.update(new_index as int, true) =~= old(visited)@);
    }
}

/// Marks the unvisited neighbours of `index` (within the rows above `HEIGHT - offset`)
/// visited, and returns those among them that hold a block.
fn find_neighbours(visited: &mut Vec<bool>, game_field: &GameField, index: usize, offset: usize) -> (result: Vec<usize>)
    requires
        offset < HEIGHT,
        old(visited)@.len() == sub_board_size(offset as int),
        index < sub_board_size(offset as int),
    ensures
        search_state(old(visited)@, final(visited)@, result@, game_field@, index as int, 4),
{
    let ghost v0 = visited@;
    let ghost size = v0.len() as int;
    let row = index / WIDTH;
    let collumn = index % WIDTH;
    let mut result: Vec<usize> = Vec::new();
    proof {
        vstd::arithmetic::div_mod::lemma_fundamental_div_mod(index as int, WIDTH as int);
        assert(search_state(v0, visited@, result@, game_field@, index as int, 0));
    }
    let ghost vb = visited@;
    let ghost rb = result@;
    if collumn > 0 {
        visit(visited, game_field, index - 1, &mut result);
    }
    proof { lemma_search_step(v0, vb, visited@, rb, result@, game_field@, index as int, 0); }
    let ghost vb = visited@;
    let ghost rb = result@;
    if collumn < WIDTH - 1 && index + 1 < visited.len() {
        visit(visited, game_field, index + 1, &mut result);
    }
    proof { lemma_search_step(v0, vb, visited@, rb, result@, game_field@, index as int, 1); }
    let ghost vb = visited@;
    let ghost rb = result@;
    if row > 0 {
        visit(visited, game_field, index - WIDTH, &mut result);
    }
    proof { lemma_search_step(v0, vb, visited@, rb, result@, game_field@, index as int, 2); }
    let ghost vb = visited@;
    let ghost rb = result@;
    if row < HEIGHT - offset - 1 {
        visit(visited, game_field, index + WIDTH, &mut result);
    }
    proof { lemma_search_step(v0, vb, visited@, rb, result@, game_field@, index as int, 3); }
    result
}

proof fn lemma_considered_adjacent(index: int, size: int, b: int)
    requires
        0 <= index < size,
        0 <= b < size,
    ensures
        considered(index, size, b, 4) == adjacent(index, b, size),
{
    if adjacent(index, b, size) {
        if b == index - 1 && index % (WIDTH as int) != 0 {
            assert(neighbour(index, size, 0) == Some(b));
        } else if b == index + 1 && index % (WIDTH as int) != WIDTH - 1 {
            assert(neighbour(index, size, 1) == Some(b));
        } else if b == index - WIDTH {
            assert(neighbour(index, size, 2) == Some(b));
        } else {
            assert(neighbour(index, size, 3) == Some(b));
        }
    }
    if considered(index, size, b, 4) {
        let d = choose|d: int| 0 <= d < 4 && #[trigger] neighbour(index, size, d) == Some(b);
    }
}

/// Facts that hold throughout the flood fill of the first `size` cells of
/// `f0`: `field` is `f0` with the placed cells emptied; unvisited and empty
/// cells belong to no chunk; each placed cell of a finished chunk is listed
/// there at its slot, and every listed point is such a cell; finished
/// chunks are closed under neighbouring occupied cells.
pub open spec fn fill_base(
    f0: Seq<TetrominoType>,
    field: Seq<TetrominoType>,
    size: int,
    visited: Seq<bool>,
    comp: Seq<int>,
    slot: Seq<int>,
    placed: Seq<bool>,
    result: Seq<Seq<Point>>,
) -> bool {
    &&& f0.len() == FIELD_SIZE
    &&& field.len() == FIELD_SIZE
    &&& 0 <= size <= FIELD_SIZE
    &&& visited.len() == size
    &&& comp.len() == size
    &&& slot.len() == size
    &&& placed.len() == size
    &&& forall|j: int| 0 <= j < size ==> #[trigger] field[j] == if placed[j] {
        TetrominoType::E
    } else {
        f0[j]
    }
    &&& forall|j: int| size <= j < FIELD_SIZE ==> #[trigger] field[j] == f0[j]
    &&& forall|j: int| 0 <= j < size && !(#[trigger] visited[j]) ==> comp[j] == -1 && !placed[j]
    &&& forall|j: int| 0 <= j < size && visited[j] && !is_block(#[trigger] f0[j]) ==> comp[j] == -1 && !placed[j]
    &&& forall|j: int|
        0 <= j < size && #[trigger] placed[j] && comp[j] < result.len() ==> 0 <= comp[j] && 0 <= slot[j] < result[comp[j]].len()
            && result[comp[j]][slot[j]] == point_of(j)
    &&& forall|k: int, p: int|
        0 <= k < result.len() && 0 <= p < result[k].len() ==> {
            let j = index_of(#[trigger] result[k][p]);
            &&& 0 <= j < size
            &&& placed[j]
            &&& comp[j] == k
            &&& slot[j] == p
            &&& result[k][p] == point_of(j)
        }
    &&& forall|k: int| 0 <= k < result.len() ==> #[trigger] result[k].len() > 0
    &&& forall|a: int, b: int|
        0 <= a < size && placed[a] && comp[a] < result.len() && #[trigger] adjacent(a, b, size) && is_block(f0[b])
            ==> comp[b] == comp[a]
    &&& forall|k: int| 0 <= k < result.len() ==> linked(#[trigger] result[k], size)
}

/// Between two chunks: every visited occupied cell is placed in a finished chunk.
pub open spec fn fill_outer(
    f0: Seq<TetrominoType>,
    size: int,
    index: int,
    visited: Seq<bool>,
    comp: Seq<int>,
    placed: Seq<bool>,
    result: Seq<Seq<Point>>,
) -> bool {
    &&& forall|j: int| 0 <= j < size && #[trigger] visited[j] && is_block(f0[j]) ==> placed[j] && 0 <= comp[j] < result.len()
    &&& forall|j: int| 0 <= j < index ==> #[trigger] visited[j]
    &&& 0 <= index <= size
}

/// While a chunk grows: the chunk under construction (number `result.len()`)
/// holds the placed cells of that number, the stack holds its other cells,
/// each once, and every neighbour of a placed cell of it is visited and, when
/// occupied, of the same chunk.
pub open spec fn fill_inner(
    f0: Seq<TetrominoType>,
    size: int,
    index: int,
    visited: Seq<bool>,
    comp: Seq<int>,
    slot: Seq<int>,
    placed: Seq<bool>,
    result: Seq<Seq<Point>>,
    chunk: Seq<Point>,
    stack: Seq<usize>,
) -> bool {
    let cur = result.len() as int;
    &&& forall|j: int|
        0 <= j < size && #[trigger] visited[j] && is_block(f0[j]) ==> 0 <= comp[j] <= cur && (placed[j] || stack.contains(
            j as usize,
        ))
    &&& forall|q: int|
        0 <= q < stack.len() ==> {
            let j = #[trigger] stack[q] as int;
            &&& 0 <= j < size
            &&& visited[j]
            &&& is_block(f0[j])
            &&& !placed[j]
            &&& comp[j] == cur
        }
    &&& forall|q1: int, q2: int| 0 <= q1 < q2 < stack.len() ==> stack[q1] != stack[q2]
    &&& forall|j: int|
        0 <= j < size && #[trigger] placed[j] && comp[j] == cur ==> 0 <= slot[j] < chunk.len() && chunk[slot[j]] == point_of(j)
    &&& forall|p: int|
        0 <= p < chunk.len() ==> {
            let j = index_of(#[trigger] chunk[p]);
            &&& 0 <= j < size
            &&& placed[j]
            &&& comp[j] == cur
            &&& slot[j] == p
            &&& chunk[p] == point_of(j)
        }
    &&& forall|a: int, b: int|
        0 <= a < size && placed[a] && comp[a] == cur && #[trigger] adjacent(a, b, size) ==> visited[b] && (is_block(f0[b])
            ==> comp[b] == cur)
    &&& chunk.len() > 0 || stack.len() > 0
    &&& forall|j: int| 0 <= j <= index ==> #[trigger] visited[j]
    &&& 0 <= index < size
    &&& linked(chunk, size)
    &&& chunk.len() == 0 ==> stack == seq![index as usize]
    &&& chunk.len() > 0 ==> forall|q: int| 0 <= q < stack.len() ==> neighbours_one_of(chunk, #[trigger] stack[q] as int, size)
}

proof fn lemma_fill_start(
    f0: Seq<TetrominoType>,
    field: Seq<TetrominoType>,
    size: int,
    index: int,
    v0: Seq<bool>,
    comp0: Seq<int>,
    slot: Seq<int>,
    placed: Seq<bool>,
    result: Seq<Seq<Point>>,
)
    requires
        fill_base(f0, field, size, v0, comp0, slot, placed, result),
        fill_outer(f0, size, index, v0, comp0, placed, result),
        0 <= index < size,
        !v0[index],
        is_block(field[index]),
    ensures
        fill_base(f0, field, size, v0.update(index, true), comp0.update(index, result.len() as int), slot, placed, result),
        fill_inner(f0, size, index, v0.update(index, true), comp0.update(index, result.len() as int), slot, placed, result,
            Seq::empty(), seq![index as usize]),
{
    let v = v0.update(index, true);
    let comp = comp0.update(index, result.len() as int);
    let stack = seq![index as usize];
    assert(stack[0] == index as usize);
    assert forall|a: int, b: int|
        0 <= a < size && placed[a] && comp[a] < result.len() && #[trigger] adjacent(a, b, size) && is_block(f0[b]) implies comp[b]
        == comp[a] by {
        assert(comp0[b] == comp0[a]);
        if b == index {
            assert(comp0[index] == -1);
        }
    }
    assert forall|j: int| 0 <= j < size && #[trigger] placed[j] implies comp[j] != result.len() by {
        assert(v0[j]);
        assert(is_block(f0[j]));
    }
    assert forall|j: int| 0 <= j < size && #[trigger] v[j] && is_block(f0[j]) implies 0 <= comp[j] <= result.len() && (placed[j]
        || stack.contains(j as usize)) by {
        if j == index {
            assert(stack[0] == j as usize);
        }
    }
}

proof fn lemma_fill_finish(
    f0: Seq<TetrominoType>,
    field: Seq<TetrominoType>,
    size: int,
    index: int,
    v: Seq<bool>,
    comp: Seq<int>,
    slot: Seq<int>,
    placed: Seq<bool>,
    result: Seq<Seq<Point>>,
    chunk: Seq<Point>,
)
    requires
        fill_base(f0, field, size, v, comp, slot, placed, result),
        fill_inner(f0, size, index, v, comp, slot, placed, result, chunk, Seq::empty()),
    ensures
        chunk.len() > 0,
        fill_base(f0, field, size, v, comp, slot, placed, result.push(chunk)),
        fill_outer(f0, size, index + 1, v, comp, placed, result.push(chunk)),
{
    let r2 = result.push(chunk);
    let cur = result.len() as int;
    assert forall|j: int| 0 <= j < size && #[trigger] placed[j] && comp[j] < r2.len() implies 0 <= comp[j] && 0 <= slot[j] < r2[comp[j]].len()
        && r2[comp[j]][slot[j]] == point_of(j) by {
        if comp[j] < cur {
        } else {
            assert(r2[cur] == chunk);
        }
    }
    assert forall|k: int, p: int| 0 <= k < r2.len() && 0 <= p < r2[k].len() implies {
        let j = index_of(#[trigger] r2[k][p]);
        &&& 0 <= j < size
        &&& placed[j]
        &&& comp[j] == k
        &&& slot[j] == p
        &&& r2[k][p] == point_of(j)
    } by {
        if k < cur {
            assert(r2[k] == result[k]);
            assert(r2[k][p] == result[k][p]);
        } else {
            assert(r2[k] == chunk);
            assert(r2[k][p] == chunk[p]);
        }
    }
    assert forall|k: int| 0 <= k < r2.len() implies #[trigger] r2[k].len() > 0 by {
        if k < cur {
            assert(r2[k] == result[k]);
        }
    }
    assert forall|k: int| 0 <= k < r2.len() implies linked(#[trigger] r2[k], size) by {
        if k < cur {
            assert(r2[k] == result[k]);
        } else {
            assert(r2[k] == chunk);
        }
    }
    assert forall|j: int| 0 <= j < size && #[trigger] v[j] && is_block(f0[j]) implies placed[j] && 0 <= comp[j] < r2.len() by {
        let e: Seq<usize> = Seq::empty();
        assert(!e.contains(j as usize));
    }
}

proof fn lemma_fill_step_linked(
    size: int,
    index: int,
    j: int,
    chunkb: Seq<Point>,
    chunka: Seq<Point>,
    stackb: Seq<usize>,
    stacka: Seq<usize>,
    nbrs: Seq<usize>,
)
    requires
        stackb.len() > 0,
        j == stackb.last() as int,
        0 <= j < FIELD_SIZE,
        chunka == chunkb.push(point_of(j)),
        stacka == stackb.drop_last() + nbrs,
        linked(chunkb, size),
        chunkb.len() == 0 ==> stackb == seq![index as usize],
        chunkb.len() > 0 ==> forall|q: int| 0 <= q < stackb.len() ==> neighbours_one_of(chunkb, #[trigger] stackb[q] as int, size),
        forall|b: int| 0 <= b < nbrs.len() ==> adjacent(j, #[trigger] nbrs[b] as int, size),
    ensures
        linked(chunka, size),
        forall|q: int| 0 <= q < stacka.len() ==> neighbours_one_of(chunka, #[trigger] stacka[q] as int, size),
{
    let mid = stackb.drop_last();
    let last = chunkb.len() as int;
    lemma_point_of(j);
    assert(index_of(chunka[last]) == j);
    assert forall|p: int| 0 < p < chunka.len() implies #[trigger] neighbours_earlier(chunka, p, size) by {
        if p < last {
            assert(chunka[p] == chunkb[p]);
            assert(neighbours_earlier(chunkb, p, size));
            let q = choose|q: int| 0 <= q < p && #[trigger] adjacent(index_of(chunkb[q]), index_of(chunkb[p]), size);
            assert(chunka[q] == chunkb[q]);
            assert(adjacent(index_of(chunka[q]), index_of(chunka[p]), size));
        } else {
            assert(stackb[stackb.len() - 1] == j as usize);
            assert(neighbours_one_of(chunkb, stackb[stackb.len() - 1] as int, size));
            let q = choose|q: int| 0 <= q < chunkb.len() && #[trigger] adjacent(index_of(chunkb[q]), j, size);
            assert(chunka[q] == chunkb[q]);
            assert(adjacent(index_of(chunka[q]), index_of(chunka[p]), size));
        }
    }
    assert forall|q: int| 0 <= q < stacka.len() implies neighbours_one_of(chunka, #[trigger] stacka[q] as int, size) by {
        if q < mid.len() {
            assert(stacka[q] == stackb[q]);
            if chunkb.len() == 0 {
                assert(stackb.len() == 1);
            }
            assert(neighbours_one_of(chunkb, stackb[q] as int, size));
            let p = choose|p: int| 0 <= p < chunkb.len() && #[trigger] adjacent(index_of(chunkb[p]), stackb[q] as int, size);
            assert(chunka[p] == chunkb[p]);
            assert(adjacent(index_of(chunka[p]), stacka[q] as int, size));
        } else {
            assert(stacka[q] == nbrs[q - mid.len()]);
            assert(adjacent(index_of(chunka[last]), stacka[q] as int, size));
        }
    }
}

proof fn lemma_fill_step(
    f0: Seq<TetrominoType>,
    fb: Seq<TetrominoType>,
    fa: Seq<TetrominoType>,
    size: int,
    index: int,
    vb: Seq<bool>,
    va: Seq<bool>,
    compb: Seq<int>,
    compa: Seq<int>,
    slotb: Seq<int>,
    slota: Seq<int>,
    placedb: Seq<bool>,
    placeda: Seq<bool>,
    result: Seq<Seq<Point>>,
    chunkb: Seq<Point>,
    chunka: Seq<Point>,
    stackb: Seq<usize>,
    stacka: Seq<usize>,
    nbrs: Seq<usize>,
)
    requires
        fill_base(f0, fb, size, vb, compb, slotb, placedb, result),
        fill_inner(f0, size, index, vb, compb, slotb, placedb, result, chunkb, stackb),
        stackb.len() > 0,
        ({
            let j = stackb.last() as int;
            &&& chunka == chunkb.push(point_of(j))
            &&& slota == slotb.update(j, chunkb.len() as int)
            &&& placeda == placedb.update(j, true)
            &&& fa == fb.update(j, TetrominoType::E)
            &&& search_state(vb, va, nbrs, fa, j, 4)
            &&& compa == Seq::new(size as nat, |b: int| if nbrs.contains(b as usize) {
                result.len() as int
            } else {
                compb[b]
            })
            &&& stacka == stackb.drop_last() + nbrs
        }),
    ensures
        fill_base(f0, fa, size, va, compa, slota, placeda, result),
        fill_inner(f0, size, index, va, compa, slota, placeda, result, chunka, stacka),
        count_unset(placeda) < count_unset(placedb),
{
    let j = stackb.last() as int;
    let cur = result.len() as int;
    let mid = stackb.drop_last();
    assert(stackb[stackb.len() - 1] == j as usize);
    assert(0 <= j < size && vb[j] && is_block(f0[j]) && !placedb[j] && compb[j] == cur);
    lemma_count_unset_set(placedb, j);
    lemma_point_of(j);
    // neighbours: newly listed cells are unvisited, occupied, adjacent to j
    assert forall|b: int| 0 <= b < size implies (#[trigger] nbrs.contains(b as usize) <==> (adjacent(j, b, size) && !vb[b]
        && is_block(f0[b]))) by {
        lemma_considered_adjacent(j, size, b);
        if !vb[b] {
            assert(!placedb[b]);
            assert(fa[b] == fb[b]);
        }
    }
    assert forall|b: int| 0 <= b < size implies #[trigger] va[b] == (vb[b] || adjacent(j, b, size)) by {
        lemma_considered_adjacent(j, size, b);
    }
    assert forall|q: int| 0 <= q < nbrs.len() implies !vb[#[trigger] nbrs[q] as int] && is_block(f0[nbrs[q] as int])
        && compa[nbrs[q] as int] == cur && 0 <= nbrs[q] < size by {
        let b = nbrs[q] as int;
        assert(nbrs.contains(b as usize));
    }
    // base facts
    assert forall|j2: int| 0 <= j2 < size && !(#[trigger] va[j2]) implies compa[j2] == -1 && !placeda[j2] by {
        if nbrs.contains(j2 as usize) {
        }
    }
    assert forall|j2: int| 0 <= j2 < size && va[j2] && !is_block(#[trigger] f0[j2]) implies compa[j2] == -1 && !placeda[j2] by {
        if nbrs.contains(j2 as usize) {
        }
        if !vb[j2] {
        }
    }
    assert forall|j2: int|
        0 <= j2 < size && #[trigger] placeda[j2] && compa[j2] < result.len() implies 0 <= compa[j2] && 0 <= slota[j2]
        < result[compa[j2]].len() && result[compa[j2]][slota[j2]] == point_of(j2) by {
        if nbrs.contains(j2 as usize) {
        }
    }
    assert forall|k: int, p: int| 0 <= k < result.len() && 0 <= p < result[k].len() implies {
        let j2 = index_of(#[trigger] result[k][p]);
        &&& 0 <= j2 < size
        &&& placeda[j2]
        &&& compa[j2] == k
        &&& slota[j2] == p
        &&& result[k][p] == point_of(j2)
    } by {
        let j2 = index_of(result[k][p]);
        if nbrs.contains(j2 as usize) {
        }
    }
    assert forall|a: int, b: int|
        0 <= a < size && placeda[a] && compa[a] < result.len() && #[trigger] adjacent(a, b, size) && is_block(f0[b]) implies compa[b]
        == compa[a] by {
        if nbrs.contains(a as usize) {
        }
        if nbrs.contains(b as usize) {
            assert(compb[b] == compb[a]);
        }
    }
    // inner facts
    assert forall|j2: int| 0 <= j2 < size && #[trigger] va[j2] && is_block(f0[j2]) implies 0 <= compa[j2] <= cur && (placeda[j2]
        || stacka.contains(j2 as usize)) by {
        if nbrs.contains(j2 as usize) {
            let q = choose|q: int| 0 <= q < nbrs.len() && nbrs[q] == j2 as usize;
            assert(stacka[mid.len() + q] == j2 as usize);
        } else if vb[j2] {
            if !placedb[j2] {
                assert(stackb.contains(j2 as usize));
                let q = choose|q: int| 0 <= q < stackb.len() && stackb[q] == j2 as usize;
                if q < mid.len() {
                    assert(stacka[q] == j2 as usize);
                }
            }
        }
    }
    assert forall|q: int| 0 <= q < stacka.len() implies {
        let j2 = #[trigger] stacka[q] as int;
        &&& 0 <= j2 < size
        &&& va[j2]
        &&& is_block(f0[j2])
        &&& !placeda[j2]
        &&& compa[j2] == cur
    } by {
        if q < mid.len() {
            assert(stacka[q] == stackb[q]);
            assert(stackb[q] != stackb[stackb.len() - 1]);
            let j2 = stackb[q] as int;
            if nbrs.contains(j2 as usize) {
            }
        } else {
            assert(stacka[q] == nbrs[q - mid.len()]);
        }
    }
    assert forall|q1: int, q2: int| 0 <= q1 < q2 < stacka.len() implies stacka[q1] != stacka[q2] by {
        if q2 < mid.len() {
            assert(stacka[q1] == stackb[q1]);
            assert(stacka[q2] == stackb[q2]);
        } else if q1 < mid.len() {
            assert(stacka[q1] == stackb[q1]);
            assert(stacka[q2] == nbrs[q2 - mid.len()]);
        } else {
            assert(stacka[q1] == nbrs[q1 - mid.len()]);
            assert(stacka[q2] == nbrs[q2 - mid.len()]);
        }
    }
    assert forall|j2: int| 0 <= j2 < size && #[trigger] placeda[j2] && compa[j2] == cur implies 0 <= slota[j2] < chunka.len()
        && chunka[slota[j2]] == point_of(j2) by {
        if nbrs.contains(j2 as usize) {
        }
    }
    assert forall|p: int| 0 <= p < chunka.len() implies {
        let j2 = index_of(#[trigger] chunka[p]);
        &&& 0 <= j2 < size
        &&& placeda[j2]
        &&& compa[j2] == cur
        &&& slota[j2] == p
        &&& chunka[p] == point_of(j2)
    } by {
        if p < chunkb.len() {
            assert(chunka[p] == chunkb[p]);
            let j2 = index_of(chunkb[p]);
            if nbrs.contains(j2 as usize) {
            }
        } else {
            assert(chunka[p] == point_of(j));
        }
    }
    assert forall|a: int, b: int|
        0 <= a < size && placeda[a] && compa[a] == cur && #[trigger] adjacent(a, b, size) implies va[b] && (is_block(f0[b])
        ==> compa[b] == cur) by {
        if a == j {
            if is_block(f0[b]) && vb[b] && !nbrs.contains(b as usize) {
                if compb[b] < cur {
                    lemma_adjacent_symmetric(a, b, size);
                    assert(placedb[b]);
                    assert(compb[j] == compb[b]);
                }
            }
        } else {
            if nbrs.contains(a as usize) {
            }
        }
    }
    assert forall|j2: int| 0 <= j2 <= index implies #[trigger] va[j2] by {
        assert(vb[j2]);
    }
    assert forall|b: int| 0 <= b < nbrs.len() implies adjacent(j, #[trigger] nbrs[b] as int, size) by {
        assert(nbrs.contains(nbrs[b]));
        lemma_considered_adjacent(j, size, nbrs[b] as int);
    }
    lemma_fill_step_linked(size, index, j, chunkb, chunka, stackb, stacka, nbrs);
}

/// Splits the occupied cells of the first `(HEIGHT - begin)` rows into
/// chunks of neighbouring cells, by a depth-first search with an explicit
/// stack, and empties those cells. Each chunk lists its cells as board points.
pub fn flood_field(game_field: &mut GameField, begin: usize) -> (result: Vec<Vec<Point>>)
    requires
        begin <= HEIGHT,
    ensures
        chunks_of(old(game_field)@, final(game_field)@, sub_board_size(begin as int), point_lists(result@)),
        count_empty(final(game_field)@) == count_empty(old(game_field)@) + total_len(point_lists(result@)),
{
    let ghost f0 = game_field@;
    let mut result: Vec<Vec<Point>> = Vec::new();
    let size: usize = (HEIGHT - begin) * WIDTH;
    let mut visited: Vec<bool> = Vec::new();
    while visited.len() < size
        invariant
            visited@.len() <= size,
            forall|j: int| 0 <= j < visited@.len() ==> !(#[trigger] visited@[j]),
        decreases size - visited@.len(),
    {
        visited.push(false);
    }
    let ghost mut comp: Seq<int> = Seq::new(size as nat, |j: int| -1int);
    let ghost mut slot: Seq<int> = Seq::new(size as nat, |j: int| 0int);
    let ghost mut placed: Seq<bool> = Seq::new(size as nat, |j: int| false);
    assert(point_lists(result@) =~= Seq::<Seq<Point>>::empty());
    let mut index: usize = 0;
    while index < size
        invariant
            begin <= HEIGHT,
            size == sub_board_size(begin as int),
            fill_base(f0, game_field@, size as int, visited@, comp, slot, placed, point_lists(result@)),
            fill_outer(f0, size as int, index as int, visited@, comp, placed, point_lists(result@)),
            count_empty(game_field@) == count_empty(f0) + total_len(point_lists(result@)),
        decreases size - index,
    {
        if !visited[index] {
            if !valid_block(&game_field[index]) {
                visited.set(index, true);
            } else {
                proof {
                    lemma_fill_start(f0, game_field@, size as int, index as int, visited@, comp, slot, placed, point_lists(result@));
                    comp = comp.update(index as int, result@.len() as int);
                }
                visited.set(index, true);
                let mut stack: Vec<usize> = Vec::new();
                stack.push(index);
                let mut chunk_array: Vec<Point> = Vec::new();
                assert(stack@ =~= seq![index]);
                while stack.len() > 0
                    invariant
                        begin < HEIGHT,
                        size == sub_board_size(begin as int),
                        fill_base(f0, game_field@, size as int, visited@, comp, slot, placed, point_lists(result@)),
                        fill_inner(f0, size as int, index as int, visited@, comp, slot, placed, point_lists(result@), chunk_array@, stack@),
                        count_empty(game_field@) == count_empty(f0) + total_len(point_lists(result@)) + chunk_array@.len(),
                    decreases count_unset(placed),
                {
                    let ghost fb = game_field@;
                    let ghost vb = visited@;
                    let ghost compb = comp;
                    let ghost slotb = slot;
                    let ghost placedb = placed;
                    let ghost chunkb = chunk_array@;
                    let ghost stackb = stack@;
                    let current = stack.pop().unwrap();
                    proof {
                        assert(stackb[stackb.len() - 1] == current);
                        lemma_point_of(current as int);
                    }
                    chunk_array.push(Point { x: (current % WIDTH) as i32, y: (current / WIDTH) as i32 });
                    proof {
                        let q = stackb.len() - 1;
                        assert(stackb[q] as int == current as int);
                        assert(!placedb[current as int] && is_block(f0[current as int]));
                        lemma_count_empty_update(game_field@, current as int, TetrominoType::E);
                    }
                    game_field[current] = TetrominoType::E;
                    proof {
                        slot = slot.update(current as int, chunkb.len() as int);
                        placed = placed.update(current as int, true);
                    }
                    let ghost fa = game_field@;
                    let mut neighbours = find_neighbours(&mut visited, game_field, current, begin);
                    let ghost nbrs = neighbours@;
                    proof {
                        let cur = point_lists(result@).len() as int;
                        comp = Seq::new(size as nat, |b: int| if nbrs.contains(b as usize) {
                            cur
                        } else {
                            compb[b]
                        });
                    }
                    stack.append(&mut neighbours);
                    proof {
                        assert(chunk_array@ == chunkb.push(point_of(current as int)));
                        assert(stack@ =~= stackb.drop_last() + nbrs);
                        lemma_fill_step(f0, fb, fa, size as int, index as int, vb, visited@, compb, comp, slotb, slot, placedb, placed,
                            point_lists(result@), chunkb, chunk_array@, stackb, stack@, nbrs);
                    }
                }
                proof {
                    assert(stack@ =~= Seq::<usize>::empty());
                    lemma_fill_finish(f0, game_field@, size as int, index as int, visited@, comp, slot, placed, point_lists(result@),
                        chunk_array@);
                }
                if chunk_array.len() > 0 {
                    let ghost before = point_lists(result@);
                    let ghost ch = chunk_array@;
                    result.push(chunk_array);
                    assert(before.push(ch).drop_last() =~= before);
                    assert(point_lists(result@) =~= before.push(ch));
                }
            }
        }
        index = index + 1;
    }
    proof {
        let chunks = point_lists(result@);
        let sz = size as int;
        assert forall|j: int| 0 <= j < sz && #[trigger] is_block(f0[j]) implies exists|k: int, p: int|
            0 <= k < chunks.len() && 0 <= p < chunks[k].len() && #[trigger] chunks[k][p] == point_of(j) by {
            assert(visited@[j]);
            assert(chunks[comp[j]][slot[j]] == point_of(j));
        }
        assert forall|j: int| 0 <= j < sz implies #[trigger] game_field@[j] == TetrominoType::E by {
            assert(visited@[j]);
        }
        assert forall|k1: int, p1: int, k2: int, p2: int|
            0 <= k1 < chunks.len() && 0 <= p1 < chunks[k1].len() && 0 <= k2 < chunks.len() && 0 <= p2 < chunks[k2].len()
                && #[trigger] chunks[k1][p1] == #[trigger] chunks[k2][p2] implies k1 == k2 && p1 == p2 by {
            let j1 = index_of(chunks[k1][p1]);
        }
        assert forall|k1: int, p1: int, k2: int, p2: int|
            0 <= k1 < chunks.len() && 0 <= p1 < chunks[k1].len() && 0 <= k2 < chunks.len() && 0 <= p2 < chunks[k2].len()
                && adjacent(index_of(#[trigger] chunks[k1][p1]), index_of(#[trigger] chunks[k2][p2]), sz) implies k1 == k2 by {
            let a = index_of(chunks[k1][p1]);
            let b = index_of(chunks[k2][p2]);
            assert(visited@[a]);
            assert(comp[b] == comp[a]);
        }
    }
    result
}

/// A group of neighbouring blocks that falls as one body: its offset and its
/// cells as board points relative to that offset.
pub struct Chunk {
    pub position: Point,
    pub elements: Vec<Point>,
}

/// The cell lists of a list of chunks.
pub open spec fn chunk_views(cs: Seq<Chunk>) -> Seq<Seq<Point>> {
    Seq::new(cs.len(), |k: int| cs[k].elements@)
}

impl Chunk {
    /// A chunk as extraction makes it: at offset zero, non-empty, each cell on the board.
    pub open spec fn wf(&self) -> bool {
        &&& self.position == Point { x: 0, y: 0 }
        &&& self.elements@.len() > 0
        &&& forall|p: int| 0 <= p < self.elements@.len() ==> on_board((#[trigger] self.elements@[p]).x as int, self.elements@[p].y as int)
    }

    pub fn new(data: Vec<Point>) -> (r: Chunk)
        ensures
            r.position == (Point { x: 0, y: 0 }),
            r.elements@ == data@,
    {
        Chunk { position: Point { x: 0, y: 0 }, elements: data }
    }

    /// The cells of the chunk, in order.
    pub fn iterator(&self) -> (r: &[Point])
        ensures
            r@ == self.elements@,
    {
        self.elements.as_slice()
    }
}

/// Walks the cells of a chunk in order.
pub struct ChunkIterator<'a> {
    pub index: usize,
    pub payload: &'a Chunk,
}

impl<'a> ChunkIterator<'a> {
    pub fn new(payload: &'a Chunk) -> (r: ChunkIterator<'a>)
        ensures
            r.index == 0,
            r.payload == payload,
    {
        ChunkIterator { index: 0, payload }
    }

    /// The next cell, or `None` once all have been handed out.
    pub fn next(&mut self) -> (r: Option<Point>)
        ensures
            final(self).payload == old(self).payload,
            old(self).index < old(self).payload.elements@.len() ==> r == Some(old(self).payload.elements@[old(self).index as int])
                && final(self).index == old(self).index + 1,
            old(self).index >= old(self).payload.elements@.len() ==> r.is_none() && final(self).index == old(self).index,
    {
        if self.index < self.payload.elements.len() {
            let result = self.payload.elements[self.index];
            self.index = self.index + 1;
            Some(result)
        } else {
            None
        }
    }
}

proof fn lemma_chunks_on_board(f0: Seq<TetrominoType>, f1: Seq<TetrominoType>, size: int, chunks: Seq<Seq<Point>>)
    requires
        chunks_of(f0, f1, size, chunks),
        size <= FIELD_SIZE,
    ensures
        forall|k: int, p: int| 0 <= k < chunks.len() && 0 <= p < chunks[k].len() ==> on_board(#[trigger] chunks[k][p].x as int, chunks[k][p].y as int),
{
    assert forall|k: int, p: int| 0 <= k < chunks.len() && 0 <= p < chunks[k].len() implies on_board(#[trigger] chunks[k][p].x as int, chunks[k][p].y as int) by {
        lemma_point_of(index_of(chunks[k][p]));
    }
}

/// Extracts the chunks of the rows above `HEIGHT - begin` (see `flood_field`),
/// each at offset zero, and empties their cells.
pub fn find_chunks(game_field: &mut GameField, begin: usize) -> (result: Vec<Chunk>)
    requires
        begin <= HEIGHT,
    ensures
        chunks_of(old(game_field)@, final(game_field)@, sub_board_size(begin as int), chunk_views(result@)),
        forall|k: int| 0 <= k < result@.len() ==> (#[trigger] result@[k]).wf(),
        count_empty(final(game_field)@) == count_empty(old(game_field)@) + total_len(chunk_views(result@)),
{
    let ghost f0 = game_field@;
    let chunks_data = flood_field(game_field, begin);
    let ghost views = point_lists(chunks_data@);
    proof {
        lemma_chunks_on_board(f0, game_field@, sub_board_size(begin as int), views);
    }
    let mut result: Vec<Chunk> = Vec::new();
    let mut i: usize = 0;
    while i < chunks_data.len()
        invariant
            i <= chunks_data@.len(),
            views == point_lists(chunks_data@),
            result@.len() == i,
            forall|k: int| 0 <= k < i ==> (#[trigger] result@[k]).elements@ == views[k],
            forall|k: int| 0 <= k < i ==> (#[trigger] result@[k]).position == (Point { x: 0, y: 0 }),
        decreases chunks_data@.len() - i,
    {
        let mut data: Vec<Point> = Vec::new();
        let mut p: usize = 0;
        while p < chunks_data[i].len()
            invariant
                i < chunks_data@.len(),
                p <= chunks_data@[i as int]@.len(),
                data@ == chunks_data@[i as int]@.subrange(0, p as int),
            decreases chunks_data@[i as int]@.len() - p,
        {
            data.push(chunks_data[i][p]);
            p = p + 1;
            assert(data@ =~= chunks_data@[i as int]@.subrange(0, p as int));
        }
        assert(data@ =~= chunks_data@[i as int]@);
        result.push(Chunk::new(data));
        i = i + 1;
    }
    assert(chunk_views(result@) =~= views);
    result
}

/// One fall step of the floating chunks, in order, at fall distance `it`:
/// each chunk that would collide one row further down is merged into the
/// board at distance `it` and dropped; the others are kept.
pub open spec fn settle(cs: Seq<Seq<Point>>, it: int, f: Seq<TetrominoType>) -> (Seq<Seq<Point>>, Seq<TetrominoType>)
    decreases cs.len(),
{
    if cs.len() == 0 {
        (Seq::empty(), f)
    } else {
        let (kept, f1) = settle(cs.drop_last(), it, f);
        let c = cs.last();
        if collides(f1, Point { x: 0, y: (it + 1) as i32 }, c) {
            (kept, merged(f1, Point { x: 0, y: it as i32 }, c))
        } else {
            (kept.push(c), f1)
        }
    }
}

/// Advances the floating chunks by one row (see `settle`); returns those still floating.
pub fn settle_step(chunks: Vec<Chunk>, iteration: i32, play_table: &mut GameField) -> (kept: Vec<Chunk>)
    requires
        0 <= iteration < HEIGHT,
        forall|k: int| 0 <= k < chunks@.len() ==> (#[trigger] chunks@[k]).wf(),
    ensures
        (chunk_views(kept@), final(play_table)@) == settle(chunk_views(chunks@), iteration as int, old(play_table)@),
        forall|k: int| 0 <= k < kept@.len() ==> (#[trigger] kept@[k]).wf(),
        count_empty(final(play_table)@) + total_len(chunk_views(chunks@)) >= count_empty(old(play_table)@) + total_len(
            chunk_views(kept@),
        ),
{
    let ghost f0 = play_table@;
    let ghost all = chunk_views(chunks@);
    let total = chunks.len();
    let ghost n = total as int;
    let mut pending = chunks;
    let mut kept: Vec<Chunk> = Vec::new();
    let mut i: usize = 0;
    proof {
        assert(all.subrange(0, 0) =~= Seq::<Seq<Point>>::empty());
        assert(chunk_views(kept@) =~= Seq::<Seq<Point>>::empty());
    }
    while pending.len() > 0
        invariant
            0 <= iteration < HEIGHT,
            0 <= i <= n,
            n <= usize::MAX,
            all.len() == n,
            pending@.len() == n - i,
            forall|k: int| 0 <= k < n - i ==> (#[trigger] pending@[k]).wf() && pending@[k].elements@ == all[i + k],
            forall|k: int| 0 <= k < kept@.len() ==> (#[trigger] kept@[k]).wf(),
            (chunk_views(kept@), play_table@) == settle(all.subrange(0, i as int), iteration as int, f0),
            count_empty(play_table@) + total_len(all.subrange(0, i as int)) >= count_empty(f0) + total_len(chunk_views(kept@)),
        decreases pending@.len(),
    {
        let ghost before = chunk_views(kept@);
        let ghost fb = play_table@;
        let chunk = pending.remove(0);
        assert(chunk.elements@ == all[i as int]);
        let ghost c = chunk.elements@;
        let ghost pre = all.subrange(0, i as int);
        let ghost post = all.subrange(0, i + 1);
        assert(post.drop_last() =~= pre);
        assert(post.last() == c);
        let position = Point { x: chunk.position.x, y: chunk.position.y + iteration + 1 };
        if check_for_collision(&position, chunk.elements.as_slice(), play_table) {
            let position = Point { x: chunk.position.x, y: chunk.position.y + iteration };
            fill_field(&position, chunk.elements.as_slice(), play_table);
        } else {
            kept.push(chunk);
            assert(chunk_views(kept@) =~= before.push(c));
            assert(before.push(c).drop_last() =~= before);
        }
        i = i + 1;
        assert forall|k: int| 0 <= k < n - i implies (#[trigger] pending@[k]).wf() && pending@[k].elements@ == all[i + k] by {
        }
    }
    assert(all.subrange(0, n) =~= all);
    assert(chunk_views(chunks@) == all);
    kept
}

pub proof fn lemma_settle_kept(cs: Seq<Seq<Point>>, it: int, f: Seq<TetrominoType>)
    requires
        0 <= it < HEIGHT,
        forall|k: int, p: int| 0 <= k < cs.len() && 0 <= p < cs[k].len() ==> on_board(#[trigger] cs[k][p].x as int, cs[k][p].y as int),
    ensures
        forall|k: int, p: int| 0 <= k < settle(cs, it, f).0.len() && 0 <= p < settle(cs, it, f).0[k].len()
            ==> #[trigger] settle(cs, it, f).0[k][p].y + it + 1 < HEIGHT,
    decreases cs.len(),
{
    if cs.len() > 0 {
        let rest = cs.drop_last();
        lemma_settle_kept(rest, it, f);
        let (kept, f1) = settle(rest, it, f);
        let c = cs.last();
        if !collides(f1, Point { x: 0, y: (it + 1) as i32 }, c) {
            let k2 = kept.push(c);
            assert forall|k: int, p: int| 0 <= k < k2.len() && 0 <= p < k2[k].len() implies #[trigger] k2[k][p].y + it + 1 < HEIGHT by {
                if k == kept.len() {
                    assert(k2[k] == c);
                    assert(c == cs[cs.len() - 1]);
                    assert(on_board(c[p].x as int, c[p].y as int));
                    let pos = Point { x: 0, y: (it + 1) as i32 };
                    assert(!crate::field::blocked(f1, pos.x + c[p].x, pos.y + c[p].y));
                } else {
                    assert(k2[k] == kept[k]);
                }
            }
        }
    }
}

/// The board once the floating chunks `cs`, at fall distance `it`, have all
/// landed: one `settle` step per row, until none is left.
pub open spec fn land_all(cs: Seq<Seq<Point>>, it: int, f: Seq<TetrominoType>) -> Seq<TetrominoType>
    decreases HEIGHT + 1 - it,
{
    if cs.len() == 0 || it < 0 || it > HEIGHT {
        f
    } else {
        let (kept, f1) = settle(cs, it, f);
        land_all(kept, it + 1, f1)
    }
}

/// Whether no point is listed by two different lists.
pub open spec fn disjoint_lists(cs: Seq<Seq<Point>>) -> bool {
    forall|k1: int, k2: int, p1: int, p2: int|
        0 <= k1 < cs.len() && 0 <= k2 < cs.len() && k1 != k2 && 0 <= p1 < cs[k1].len() && 0 <= p2 < cs[k2].len()
            ==> #[trigger] cs[k1][p1] != #[trigger] cs[k2][p2]
}

/// The chunks still floating after a `settle` step are among those before
/// it, so they stay pairwise disjoint.
pub proof fn lemma_settle_disjoint(cs: Seq<Seq<Point>>, it: int, f: Seq<TetrominoType>)
    requires
        disjoint_lists(cs),
    ensures
        forall|k: int| 0 <= k < settle(cs, it, f).0.len() ==> exists|j: int| 0 <= j < cs.len() && #[trigger] settle(cs, it, f).0[k] == cs[j],
        disjoint_lists(settle(cs, it, f).0),
    decreases cs.len(),
{
    if cs.len() > 0 {
        let rest = cs.drop_last();
        assert(disjoint_lists(rest)) by {
            assert forall|k1: int, k2: int, p1: int, p2: int|
                0 <= k1 < rest.len() && 0 <= k2 < rest.len() && k1 != k2 && 0 <= p1 < rest[k1].len() && 0 <= p2 < rest[k2].len()
                    implies #[trigger] rest[k1][p1] != #[trigger] rest[k2][p2] by {
                assert(rest[k1] == cs[k1] && rest[k2] == cs[k2]);
            }
        }
        lemma_settle_disjoint(rest, it, f);
        let (kept, f1) = settle(rest, it, f);
        let c = cs.last();
        assert forall|k: int| 0 <= k < kept.len() implies exists|j: int| 0 <= j < cs.len() - 1 && #[trigger] kept[k] == cs[j] by {
            let j = choose|j: int| 0 <= j < rest.len() && #[trigger] kept[k] == rest[j];
            assert(rest[j] == cs[j]);
        }
        if !collides(f1, Point { x: 0, y: (it + 1) as i32 }, c) {
            let k2s = kept.push(c);
            assert forall|k: int| 0 <= k < k2s.len() implies exists|j: int| 0 <= j < cs.len() && #[trigger] k2s[k] == cs[j] by {
                if k < kept.len() {
                    assert(k2s[k] == kept[k]);
                    let j = choose|j: int| 0 <= j < cs.len() - 1 && #[trigger] kept[k] == cs[j];
                } else {
                    assert(k2s[k] == cs[cs.len() - 1]);
                }
            }
            assert forall|k1: int, k2: int, p1: int, p2: int|
                0 <= k1 < k2s.len() && 0 <= k2 < k2s.len() && k1 != k2 && 0 <= p1 < k2s[k1].len() && 0 <= p2 < k2s[k2].len()
                    implies #[trigger] k2s[k1][p1] != #[trigger] k2s[k2][p2] by {
                if k1 < kept.len() && k2 < kept.len() {
                    assert(k2s[k1] == kept[k1] && k2s[k2] == kept[k2]);
                } else if k1 < kept.len() {
                    let j = choose|j: int| 0 <= j < cs.len() - 1 && #[trigger] kept[k1] == cs[j];
                    assert(k2s[k1] == cs[j] && k2s[k2] == cs[cs.len() - 1]);
                } else {
                    let j = choose|j: int| 0 <= j < cs.len() - 1 && #[trigger] kept[k2] == cs[j];
                    assert(k2s[k2] == cs[j] && k2s[k1] == cs[cs.len() - 1]);
                }
            }
        }
    }
}

/// Extracts the chunks above the row `begin` (the rows `0..begin`) and lets
/// them all fall until each has landed.
pub fn land_flying_chunks(play_table: &mut GameField, begin: usize)
    requires
        begin <= HEIGHT,
    ensures
        exists|cs: Seq<Seq<Point>>, f1: Seq<TetrominoType>|
            #[trigger] chunks_of(old(play_table)@, f1, sub_board_size((HEIGHT - begin) as int), cs) && final(play_table)@ == land_all(
                cs,
                0,
                f1,
            ),
        count_empty(final(play_table)@) >= count_empty(old(play_table)@),
{
    let ghost f0 = play_table@;
    let mut chunks = find_chunks(play_table, HEIGHT - begin);
    let ghost cs0 = chunk_views(chunks@);
    let ghost f1 = play_table@;
    let mut iteration: i32 = 0;
    assert forall|k: int, p: int| 0 <= k < chunks@.len() && 0 <= p < chunks@[k].elements@.len()
            implies #[trigger] chunks@[k].elements@[p].y + iteration < HEIGHT by {
        assert(chunks@[k].wf());
    }
    while chunks.len() > 0
        invariant
            0 <= iteration <= HEIGHT,
            forall|k: int| 0 <= k < chunks@.len() ==> (#[trigger] chunks@[k]).wf(),
            forall|k: int, p: int| 0 <= k < chunks@.len() && 0 <= p < chunks@[k].elements@.len()
                ==> #[trigger] chunks@[k].elements@[p].y + iteration < HEIGHT,
            chunks_of(f0, f1, sub_board_size((HEIGHT - begin) as int), cs0),
            land_all(cs0, 0, f1) == land_all(chunk_views(chunks@), iteration as int, play_table@),
            count_empty(play_table@) >= count_empty(f0) + total_len(chunk_views(chunks@)),
        decreases HEIGHT - iteration,
    {
        assert(chunks@[0].wf());
        assert(chunks@[0].elements@[0].y + iteration < HEIGHT);
        let ghost views = chunk_views(chunks@);
        let ghost f = play_table@;
        let ghost it0 = iteration as int;
        proof {
            assert forall|k: int, p: int| 0 <= k < views.len() && 0 <= p < views[k].len() implies on_board(#[trigger] views[k][p].x as int, views[k][p].y as int) by {
                assert(chunks@[k].wf());
            }
            lemma_settle_kept(views, it0, f);
        }
        chunks = settle_step(chunks, iteration, play_table);
        iteration = iteration + 1;
        assert forall|k: int, p: int| 0 <= k < chunks@.len() && 0 <= p < chunks@[k].elements@.len()
                implies #[trigger] chunks@[k].elements@[p].y + iteration < HEIGHT by {
            assert(chunk_views(chunks@)[k] == chunks@[k].elements@);
            assert(settle(views, it0, f).0[k][p].y + it0 + 1 < HEIGHT);
        }
    }
    assert(land_all(chunk_views(chunks@), iteration as int, play_table@) == play_table@);
}

} // verus!
