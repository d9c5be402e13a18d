use vstd::prelude::*;
use rand::Rng;
use crate::field::{check_for_collision, collides, empty_field, GameField, FIELD_SIZE};
use crate::tetromino::{
    catalog_wf, initialize_tetraminoes_data, small, Point, RotationCollisionTable, TetraminoesData, Tetramino, TetrominoRotation,
    TetrominoType, TETRAMINOS_COUNT, TETRAMINO_POINTS_COUNT,
};

verus! {

/// Highest difficulty tier: the tier of the largest score.
pub const MAX_TIER: u32 = 15;

/// Bound on the pivot coordinates of the active piece; moves beyond it are refused.
pub const POSITION_LIMIT: i32 = 1000000;

/// Whether a pivot lies within `POSITION_LIMIT` of the origin.
pub open spec fn within_limits(p: Point) -> bool {
    -POSITION_LIMIT <= p.x <= POSITION_LIMIT && -POSITION_LIMIT <= p.y <= POSITION_LIMIT
}

/// The difficulty tier of a score: `floor(ln(score / 500))`, and 0 below
/// `500 * e`. The tier is `t` from the least integer score at or above
/// `500 * e^t` on.
pub open spec fn tier_of(score: int) -> int {
    if score >= 1634508687 {
        15
    } else if score >= 601302143 {
        14
    } else if score >= 221206697 {
        13
    } else if score >= 81377396 {
        12
    } else if score >= 29937071 {
        11
    } else if score >= 11013233 {
        10
    } else if score >= 4051542 {
        9
    } else if score >= 1490479 {
        8
    } else if score >= 548317 {
        7
    } else if score >= 201715 {
        6
    } else if score >= 74207 {
        5
    } else if score >= 27300 {
        4
    } else if score >= 10043 {
        3
    } else if score >= 3695 {
        2
    } else if score >= 1360 {
        1
    } else {
        0
    }
}

/// `10^n`.
pub open spec fn pow10(n: nat) -> nat
    decreases n,
{
    if n == 0 {
        1
    } else {
        10 * pow10((n - 1) as nat)
    }
}

/// `2^n`.
pub open spec fn pow2(n: nat) -> nat
    decreases n,
{
    if n == 0 {
        1
    } else {
        2 * pow2((n - 1) as nat)
    }
}

/// The score multiplier of a tier: 1, 2 or 5 (repeating every three tiers),
/// times ten for each group of three tiers, times 100.
pub open spec fn tier_multiplier(tier: nat) -> nat {
    let base: nat = if tier % 3 == 0 {
        1
    } else if tier % 3 == 1 {
        2
    } else {
        5
    };
    base * pow10(tier / 3) * 100
}

/// The score for clearing `n` lines at multiplier `m`: `2^(n-1)*m + n*(n+1)*m`, and 0 for no line.
pub open spec fn line_bonus(n: nat, m: nat) -> nat {
    if n == 0 {
        0
    } else {
        pow2((n - 1) as nat) * m + n * (n + 1) * m
    }
}

/// A score raised by `s`, held at the largest `u32`.
pub open spec fn raised(score: int, s: int) -> int {
    if score + s > u32::MAX {
        u32::MAX as int
    } else {
        score + s
    }
}

/// A time interval shortened by the factor 1.2 (to five sixths, rounded
/// down) once for each tier.
pub open spec fn shrink(base: nat, tier: nat) -> nat
    decreases tier,
{
    if tier == 0 {
        base
    } else {
        shrink(base, (tier - 1) as nat) * 5 / 6
    }
}

/// A larger score never has a lower tier.
pub proof fn tier_monotone(s1: int, s2: int)
    requires
        s1 <= s2,
    ensures
        tier_of(s1) <= tier_of(s2),
{
}

/// Relies on rand::thread_rng and rand::Rng::gen_range(low, high): a value in `low..high`.
#[verifier::external_body]
fn random_below(high: usize) -> (r: usize)
    requires
        0 < high,
    ensures
        r < high,
{
    rand::thread_rng().gen_range(0, high)
}

/// The tier of a score (see `tier_of`).
pub fn tier_of_score(score: u32) -> (r: u32)
    ensures
        r == tier_of(score as int),
        r <= MAX_TIER,
{
    if score >= 1634508687 {
        15
    } else if score >= 601302143 {
        14
    } else if score >= 221206697 {
        13
    } else if score >= 81377396 {
        12
    } else if score >= 29937071 {
        11
    } else if score >= 11013233 {
        10
    } else if score >= 4051542 {
        9
    } else if score >= 1490479 {
        8
    } else if score >= 548317 {
        7
    } else if score >= 201715 {
        6
    } else if score >= 74207 {
        5
    } else if score >= 27300 {
        4
    } else if score >= 10043 {
        3
    } else if score >= 3695 {
        2
    } else if score >= 1360 {
        1
    } else {
        0
    }
}

/// A time interval (in microseconds) at a tier (see `shrink`).
pub fn scaled_interval(base: u64, tier: u32) -> (r: u64)
    ensures
        r == shrink(base as nat, tier as nat),
        r <= base,
{
    let mut interval: u64 = base;
    let mut i: u32 = 0;
    while i < tier
        invariant
            i <= tier,
            interval == shrink(base as nat, i as nat),
            interval <= base,
        decreases tier - i,
    {
        interval = interval / 6 * 5 + interval % 6 * 5 / 6;
        assert(interval == shrink(base as nat, i as nat) * 5 / 6) by (nonlinear_arith)
            requires
                interval == shrink(base as nat, i as nat) / 6 * 5 + shrink(base as nat, i as nat) % 6 * 5 / 6,
        {
            let x = shrink(base as nat, i as nat) as int;
            assert(x == 6 * (x / 6) + x % 6);
        }
        i = i + 1;
    }
    interval
}

/// `p` translated by `d`.
pub open spec fn offset_by(p: Point, d: Point) -> Point {
    Point { x: (p.x + d.x) as i32, y: (p.y + d.y) as i32 }
}

/// The session: the board, the active piece and the next kind, the
/// catalogs, the score, the difficulty tier and the line counter.
pub struct GameData {
    pub running: bool,
    pub score: u32,
    pub next_figure: usize,
    pub current_figure: Tetramino,
    pub tetraminoes_data: TetraminoesData,
    pub play_table: GameField,
    pub collision_table: RotationCollisionTable,
    pub highest_level: usize,
    pub lines: usize,
    pub dificulty: u32,
}

impl GameData {
    /// The session's invariant: kinds and rotation states in range, catalogs
    /// as built, the tier that of the score, the pivot within its limits.
    pub open spec fn wf(&self) -> bool {
        &&& self.next_figure < TETRAMINOS_COUNT
        &&& self.current_figure.wf()
        &&& catalog_wf(self.tetraminoes_data)
        &&& self.collision_table.wf()
        &&& self.dificulty == tier_of(self.score as int)
        &&& within_limits(self.current_figure.position)
    }

    /// The rotation state of the active piece.
    pub open spec fn piece_rotation(&self) -> TetrominoRotation {
        self.tetraminoes_data@[self.current_figure.tetramino_type_index as int].rotations@[self.current_figure.rotation_index as int]
    }

    /// The cells of the active piece relative to its pivot.
    pub open spec fn piece_cells(&self) -> Seq<Point> {
        self.piece_rotation().cells()
    }

    /// A fresh session: empty board, score 0, tier 0, random active and next kinds.
    pub fn new() -> (r: GameData)
        ensures
            r.wf(),
            r.running,
            r.score == 0,
            r.dificulty == 0,
            r.lines == 0,
            r.highest_level == 0,
            r.current_figure.position == (Point { x: 5, y: 0 }),
            r.current_figure.rotation_index == 0,
            forall|i: int| 0 <= i < FIELD_SIZE ==> r.play_table@[i] == TetrominoType::E,
    {
        let play_table = empty_field();
        let next_figure = GameData::random_tetramino_index();
        let current_figure = Tetramino::new(GameData::random_tetramino_index());
        GameData {
            running: true,
            score: 0,
            next_figure,
            current_figure,
            tetraminoes_data: initialize_tetraminoes_data(),
            play_table,
            collision_table: RotationCollisionTable::new(),
            highest_level: 0,
            lines: 0,
            dificulty: 0,
        }
    }

    /// The cells of the next kind in its first rotation state, for the preview.
    pub fn tetramino_preview_sequence(&self) -> (r: [Point; TETRAMINO_POINTS_COUNT])
        requires
            self.next_figure < TETRAMINOS_COUNT,
        ensures
            r == self.tetraminoes_data@[self.next_figure as int].rotations@[0].sequence,
    {
        self.tetraminoes_data[self.next_figure].rotations[0].sequence
    }

    /// The preview offset of the next kind.
    pub fn tetramino_preview_offset(&self) -> (r: Point)
        requires
            self.next_figure < TETRAMINOS_COUNT,
        ensures
            r == self.tetraminoes_data@[self.next_figure as int].offset,
    {
        self.tetraminoes_data[self.next_figure].offset
    }

    /// The alignment offset of the active piece's rotation state.
    pub fn tetramino_rotation_offset(&self) -> (r: Point)
        requires
            self.current_figure.wf(),
        ensures
            r == self.piece_rotation().offset,
    {
        self.tetraminoes_data[self.current_figure.get_type()].rotations[self.current_figure.get_rotation()].offset
    }

    /// A kind drawn at random.
    pub fn random_tetramino_index() -> (r: usize)
        ensures
            r < TETRAMINOS_COUNT,
    {
        random_below(TETRAMINOS_COUNT)
    }

    /// The score multiplier of the current tier (it fits a `u32` up to tier 22).
    pub fn score_multiplier(&self) -> (r: u32)
        requires
            self.dificulty <= 22,
        ensures
            r == tier_multiplier(self.dificulty as nat),
            100 <= r,
            self.dificulty <= MAX_TIER ==> r <= 50000000,
    {
        let base: u32 = if self.dificulty % 3 == 0 {
            1
        } else if self.dificulty % 3 == 1 {
            2
        } else {
            5
        };
        let power = self.dificulty / 3;
        let mut scale: u32 = 1;
        let mut i: u32 = 0;
        while i < power
            invariant
                i <= power <= 7,
                scale == pow10(i as nat),
            decreases power - i,
        {
            proof {
                lemma_pow10_small(i as nat);
            }
            scale = scale * 10;
            i = i + 1;
        }
        proof {
            lemma_pow10_small(i as nat);
            lemma_pow10_positive(i as nat);
        }
        if power <= 5 {
            assert(base * scale * 100 <= 50000000) by (nonlinear_arith)
                requires
                    base <= 5,
                    scale <= 100000,
            ;
        }
        if power <= 6 {
            assert(base * scale * 100 <= 500000000) by (nonlinear_arith)
                requires
                    base <= 5,
                    scale <= 1000000,
            ;
        } else {
            assert(base * scale * 100 <= 2000000000) by (nonlinear_arith)
                requires
                    base <= 2,
                    scale <= 10000000,
            ;
        }
        assert(base * scale * 100 >= 100) by (nonlinear_arith)
            requires
                base >= 1,
                scale >= 1,
        ;
        base * scale * 100
    }

    /// Adds `score` (held at the largest `u32`) and derives the tier anew.
    pub fn add_score(&mut self, score: u64)
        ensures
            final(self).score == raised(old(self).score as int, score as int),
            final(self).dificulty == tier_of(final(self).score as int),
            old(self).dificulty == tier_of(old(self).score as int) ==> final(self).dificulty >= old(self).dificulty,
            final(self).running == old(self).running,
            final(self).next_figure == old(self).next_figure,
            final(self).current_figure == old(self).current_figure,
            final(self).tetraminoes_data == old(self).tetraminoes_data,
            final(self).play_table == old(self).play_table,
            final(self).collision_table == old(self).collision_table,
            final(self).highest_level == old(self).highest_level,
            final(self).lines == old(self).lines,
    {
        let limit: u64 = 4294967295;
        let total: u64 = if score > limit {
            limit
        } else {
            let t: u64 = self.score as u64 + score;
            if t > limit {
                limit
            } else {
                t
            }
        };
        self.score = total as u32;
        self.dificulty = tier_of_score(self.score);
    }

    /// Awards the score for clearing `count` lines at multiplier `multiplier`.
    pub fn award_lines(&mut self, count: usize, multiplier: u32)
        requires
            count <= crate::field::HEIGHT,
            multiplier <= 50000000,
        ensures
            final(self).score == raised(old(self).score as int, line_bonus(count as nat, multiplier as nat) as int),
            final(self).dificulty == tier_of(final(self).score as int),
            final(self).running == old(self).running,
            final(self).next_figure == old(self).next_figure,
            final(self).current_figure == old(self).current_figure,
            final(self).tetraminoes_data == old(self).tetraminoes_data,
            final(self).play_table == old(self).play_table,
            final(self).collision_table == old(self).collision_table,
            final(self).highest_level == old(self).highest_level,
            final(self).lines == old(self).lines,
    {
        let m = multiplier as u64;
        let n = count as u64;
        let ghost s0 = self.score as int;
        let ghost first: int = 0;
        if count != 0 {
            let mut p: u64 = 1;
            let mut i: u64 = 0;
            while i < n - 1
                invariant
                    n <= 20,
                    i <= n - 1,
                    p == pow2(i as nat),
                    p <= 524288,
                decreases n - 1 - i,
            {
                assert(p <= 262144) by {
                    lemma_pow2_bound(i as nat);
                }
                p = p * 2;
                i = i + 1;
            }
            assert(p * m <= 524288 * 50000000) by (nonlinear_arith)
                requires
                    p <= 524288,
                    m <= 50000000,
            ;
            proof {
                first = (p * m) as int;
                assert(first == pow2((count - 1) as nat) * multiplier);
            }
            self.add_score(p * m);
        }
        assert(n * (n + 1) <= 420) by (nonlinear_arith)
            requires
                n <= 20,
        ;
        assert(n * (n + 1) * m <= 420 * 50000000) by (nonlinear_arith)
            requires
                n * (n + 1) <= 420,
                m <= 50000000,
        ;
        let second = n * (n + 1) * m;
        proof {
            let c = count as nat;
            let mm = multiplier as nat;
            assert(second == c * (c + 1) * mm);
            if count == 0 {
                assert(c * (c + 1) * mm == 0) by (nonlinear_arith)
                    requires
                        c == 0,
                ;
            }
            assert(first + second == line_bonus(c, mm));
        }
        self.add_score(second);
    }

    /// Whether the active piece fits with pivot `pos` in rotation state
    /// `rot`: the pivot is within its limits and no cell collides.
    pub open spec fn fits_at(&self, pos: Point, rot: int) -> bool {
        within_limits(pos) && !collides(
            self.play_table@,
            pos,
            self.tetraminoes_data@[self.current_figure.tetramino_type_index as int].rotations@[rot].cells(),
        )
    }

    /// The `k`-th wall-kick candidate pivot for a rotation of the active piece to state `next`.
    pub open spec fn kick_candidate(&self, next: int, k: int) -> Point {
        offset_by(
            self.current_figure.position,
            self.collision_table.candidates(
                self.current_figure.rotation_index as int,
                next,
                self.current_figure.tetramino_type_index as int,
            )@[k],
        )
    }

    /// The first wall-kick candidate, from the `k`-th on, at which the rotated piece fits.
    pub open spec fn first_fit(&self, next: int, k: int) -> Option<int>
        decreases 5 - k,
    {
        if k >= 5 || k < 0 {
            None
        } else if self.fits_at(self.kick_candidate(next, k), next) {
            Some(k)
        } else {
            self.first_fit(next, k + 1)
        }
    }

    /// The active piece after an attempt to rotate it to state `next`: moved
    /// to the first candidate at which it fits and set to `next`, or left as
    /// it is when no candidate fits.
    pub open spec fn rotated(&self, next: int) -> Tetramino {
        match self.first_fit(next, 0) {
            Some(k) => Tetramino {
                position: self.kick_candidate(next, k),
                rotation_index: next as usize,
                ..self.current_figure
            },
            None => self.current_figure,
        }
    }

    /// Tries to rotate the active piece to state `next` with wall kicks.
    pub fn try_rotate(&mut self, next: usize)
        requires
            old(self).wf(),
            next < crate::tetromino::ROTATION_COUNT,
        ensures
            final(self).wf(),
            *final(self) == (GameData { current_figure: old(self).rotated(next as int), ..*old(self) }),
    {
        let kind = self.current_figure.get_type();
        let rotation_index = self.current_figure.get_rotation();
        let position = *self.current_figure.get_position();
        let rotation = self.tetraminoes_data[kind].rotations[next];
        proof {
            assert(self.tetraminoes_data@[kind as int].wf());
        }
        let cells = rotation.points();
        let sequence = self.collision_table.collision_sequence(rotation_index, next, kind);
        let mut k: usize = 0;
        while k < 5
            invariant
                k <= 5,
                kind < TETRAMINOS_COUNT,
                next < crate::tetromino::ROTATION_COUNT,
                self.wf(),
                *self == *old(self),
                position == self.current_figure.position,
                cells@ == rotation.cells(),
                rotation == self.tetraminoes_data@[kind as int].rotations@[next as int],
                kind == self.current_figure.tetramino_type_index,
                rotation_index == self.current_figure.rotation_index,
                sequence == self.collision_table.candidates(rotation_index as int, next as int, kind as int),
                forall|i: int| 0 <= i < 4 ==> -2 <= #[trigger] cells@[i].x <= 3 && -2 <= cells@[i].y <= 3,
                self.first_fit(next as int, 0) == self.first_fit(next as int, k as int),
            decreases 5 - k,
        {
            let offset = sequence[k];
            proof {
                let g = self.collision_table.tetramino_maping@[kind as int] as int;
                assert(0 <= g < 3);
                assert(small(self.collision_table.collision_table@[g]@[crate::tetromino::kick_slot(rotation_index as int, next as int)]@[k as int]));
            }
            let candidate = position.add(&offset);
            assert(candidate == self.kick_candidate(next as int, k as int));
            let limit = POSITION_LIMIT;
            if candidate.x >= -limit && candidate.x <= limit && candidate.y >= -limit && candidate.y <= limit {
                if !check_for_collision(&candidate, &cells, &self.play_table) {
                    assert(self.fits_at(candidate, next as int));
                    self.current_figure.move_it(&offset);
                    self.current_figure.set_rotation(next);
                    assert(self.current_figure.position == candidate);
                    assert(within_limits(candidate));
                    return;
                }
            }
            k = k + 1;
        }
    }
}

/// `2^n`.
pub fn power_of_two(n: usize) -> (r: u64)
    requires
        n < 20,
    ensures
        r == pow2(n as nat),
        r <= 524288,
{
    let mut p: u64 = 1;
    let mut i: usize = 0;
    while i < n
        invariant
            n < 20,
            i <= n,
            p == pow2(i as nat),
            p <= 524288,
        decreases n - i,
    {
        assert(p <= 262144) by {
            lemma_pow2_bound(i as nat);
        }
        p = p * 2;
        i = i + 1;
    }
    p
}

/// Wall-kick idempotence: when the rotated piece fits at none of the
/// candidate pivots, an attempt to rotate leaves the active piece, its
/// rotation state and its pivot as they were.
pub proof fn wall_kick_idempotent(d: GameData, next: int)
    requires
        forall|k: int| 0 <= k < 5 ==> !d.fits_at(#[trigger] d.kick_candidate(next, k), next),
    ensures
        d.rotated(next) == d.current_figure,
{
    lemma_no_fit_from(d, next, 0);
}

proof fn lemma_no_fit_from(d: GameData, next: int, k: int)
    requires
        0 <= k <= 5,
        forall|j: int| 0 <= j < 5 ==> !d.fits_at(#[trigger] d.kick_candidate(next, j), next),
    ensures
        d.first_fit(next, k) is None,
    decreases 5 - k,
{
    if k < 5 {
        lemma_no_fit_from(d, next, k + 1);
        assert(!d.fits_at(d.kick_candidate(next, k), next));
    }
}

proof fn lemma_pow10_small(n: nat)
    requires
        n <= 7,
    ensures
        n <= 5 ==> pow10(n) <= 100000,
        n <= 6 ==> pow10(n) <= 1000000,
        pow10(n) <= 10000000,
{
    reveal_with_fuel(pow10, 8);
}

proof fn lemma_pow10_positive(n: nat)
    ensures
        pow10(n) >= 1,
    decreases n,
{
    if n > 0 {
        lemma_pow10_positive((n - 1) as nat);
    }
}

proof fn lemma_pow2_bound(i: nat)
    requires
        i < 19,
    ensures
        pow2(i) <= 262144,
        pow2(i) <= pow2(18),
    decreases i,
{
    reveal_with_fuel(pow2, 20);
    if i > 0 {
        lemma_pow2_bound((i - 1) as nat);
    }
}

} // verus!
