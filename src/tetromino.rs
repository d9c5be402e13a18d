use vstd::prelude::*;

verus! {

/// Number of tetromino kinds in the catalog.
pub const TETRAMINOS_COUNT: usize = 7;

/// The kind of a block: one of the seven tetrominoes, or `E` for an empty cell.
#[derive(Copy, Clone, Debug, PartialEq, Eq, Structural)]
pub enum TetrominoType {
    I,
    O,
    T,
    S,
    Z,
    J,
    L,
    E,
}

/// A point on the board, or an offset between two points.
#[derive(Copy, Clone, Debug, PartialEq, Eq, Structural)]
pub struct Point {
    pub x: i32,
    pub y: i32,
}

impl Point {
    /// Translation of `self` by `rhs`.
    pub fn add(&self, rhs: &Point) -> (r: Point)
        requires
            i32::MIN <= self.x + rhs.x <= i32::MAX,
            i32::MIN <= self.y + rhs.y <= i32::MAX,
        ensures
            r.x == self.x + rhs.x,
            r.y == self.y + rhs.y,
    {
        Point { x: self.x + rhs.x, y: self.y + rhs.y }
    }
}


/// Number of rotation states of every tetromino.
pub const ROTATION_COUNT: usize = 4;

/// Number of cells of every tetromino.
pub const TETRAMINO_POINTS_COUNT: usize = 4;

/// A point whose coordinates lie in `-2..=2`: every cell offset and every
/// wall-kick offset of the catalog is one.
pub open spec fn small(p: Point) -> bool {
    -2 <= p.x <= 2 && -2 <= p.y <= 2
}

/// One rotation state: four cell offsets relative to the pivot, and an
/// alignment offset added to each of them.
#[derive(Copy, Clone, Debug)]
pub struct TetrominoRotation {
    pub offset: Point,
    pub sequence: [Point; TETRAMINO_POINTS_COUNT],
}

impl TetrominoRotation {
    /// The catalog's bound on a rotation state: small cells, an offset in `0..=1`.
    pub open spec fn wf(&self) -> bool {
        &&& 0 <= self.offset.x <= 1
        &&& 0 <= self.offset.y <= 1
        &&& forall|i: int| 0 <= i < TETRAMINO_POINTS_COUNT ==> small(#[trigger] self.sequence@[i])
    }

    /// The `i`-th cell of the state, alignment offset included.
    pub open spec fn cell(&self, i: int) -> Point {
        Point {
            x: (self.sequence@[i].x + self.offset.x) as i32,
            y: (self.sequence@[i].y + self.offset.y) as i32,
        }
    }

    /// The four cells of the state, alignment offset included.
    pub open spec fn cells(&self) -> Seq<Point> {
        Seq::new(TETRAMINO_POINTS_COUNT as nat, |i: int| self.cell(i))
    }

    /// The four cells of the state, alignment offset included.
    pub fn points(&self) -> (r: [Point; TETRAMINO_POINTS_COUNT])
        requires
            self.wf(),
        ensures
            r@ == self.cells(),
            forall|i: int| 0 <= i < TETRAMINO_POINTS_COUNT ==> -2 <= #[trigger] r@[i].x <= 3 && -2 <= r@[i].y <= 3,
    {
        let r = [
            self.sequence[0].add(&self.offset),
            self.sequence[1].add(&self.offset),
            self.sequence[2].add(&self.offset),
            self.sequence[3].add(&self.offset),
        ];
        assert(r@ =~= self.cells());
        r
    }

    /// Walks the four cells of the state in order.
    pub fn iter(&self) -> (r: TetrominoRotationIterator)
        ensures
            r.index == 0,
            r.payload == *self,
    {
        TetrominoRotationIterator { index: 0, payload: *self }
    }
}

/// Walks the cells of a rotation state, alignment offset included.
pub struct TetrominoRotationIterator {
    pub index: usize,
    pub payload: TetrominoRotation,
}

impl TetrominoRotationIterator {
    /// The next cell, or `None` once the four have been handed out.
    pub fn next(&mut self) -> (r: Option<Point>)
        requires
            old(self).payload.wf(),
        ensures
            final(self).payload == old(self).payload,
            old(self).index < TETRAMINO_POINTS_COUNT ==> r == Some(old(self).payload.cell(old(self).index as int))
                && final(self).index == old(self).index + 1,
            old(self).index >= TETRAMINO_POINTS_COUNT ==> r.is_none() && final(self).index == old(self).index,
    {
        if self.index < TETRAMINO_POINTS_COUNT {
            let result = self.payload.sequence[self.index].add(&self.payload.offset);
            self.index = self.index + 1;
            Some(result)
        } else {
            None
        }
    }
}

/// The four rotation states of one tetromino kind.
#[derive(Copy, Clone, Debug)]
pub struct TetrominoData {
    pub rotations: [TetrominoRotation; ROTATION_COUNT],
    pub termino_type: TetrominoType,
    pub offset: Point,
}

impl TetrominoData {
    pub open spec fn wf(&self) -> bool {
        &&& forall|r: int| 0 <= r < ROTATION_COUNT ==> (#[trigger] self.rotations@[r]).wf()
        &&& self.offset == Point { x: 0, y: 0 }
    }

    pub fn new(rotations: [TetrominoRotation; ROTATION_COUNT], termino_type: TetrominoType) -> (r: TetrominoData)
        ensures
            r.rotations == rotations,
            r.termino_type == termino_type,
            r.offset == (Point { x: 0, y: 0 }),
    {
        TetrominoData { rotations, termino_type, offset: Point { x: 0, y: 0 } }
    }
}

/// The catalog: the data of each kind, indexed by kind.
pub type TetraminoesData = [TetrominoData; TETRAMINOS_COUNT];

/// The kind at a catalog index.
pub open spec fn kind_at(i: int) -> TetrominoType {
    if i == 0 {
        TetrominoType::I
    } else if i == 1 {
        TetrominoType::O
    } else if i == 2 {
        TetrominoType::T
    } else if i == 3 {
        TetrominoType::S
    } else if i == 4 {
        TetrominoType::Z
    } else if i == 5 {
        TetrominoType::J
    } else {
        TetrominoType::L
    }
}

/// A catalog that holds the seven kinds in order, each with bounded states.
pub open spec fn catalog_wf(c: TetraminoesData) -> bool {
    forall|k: int| 0 <= k < TETRAMINOS_COUNT ==> (#[trigger] c@[k]).wf() && c@[k].termino_type == kind_at(k)
}

/// The piece under the player's control: its kind (a catalog index), its
/// rotation state and its pivot.
#[derive(Copy, Clone, Debug)]
pub struct Tetramino {
    pub position: Point,
    pub tetramino_type_index: usize,
    pub rotation_index: usize,
}

/// The rotation state one step to the right of `r`.
pub open spec fn right_of(r: int) -> int {
    (r + 1) % (ROTATION_COUNT as int)
}

/// The rotation state one step to the left of `r`.
pub open spec fn left_of(r: int) -> int {
    (r + ROTATION_COUNT - 1) % (ROTATION_COUNT as int)
}

impl Tetramino {
    pub open spec fn wf(&self) -> bool {
        self.tetramino_type_index < TETRAMINOS_COUNT && self.rotation_index < ROTATION_COUNT
    }

    /// A fresh piece of the given kind at the spawn point.
    pub fn new(tetramino_type_index: usize) -> (r: Tetramino)
        ensures
            r.position == (Point { x: 5, y: 0 }),
            r.tetramino_type_index == tetramino_type_index,
            r.rotation_index == 0,
    {
        Tetramino { position: Point { x: 5, y: 0 }, tetramino_type_index, rotation_index: 0 }
    }

    pub fn get_type(&self) -> (r: usize)
        ensures
            r == self.tetramino_type_index,
    {
        self.tetramino_type_index
    }

    pub fn get_rotation(&self) -> (r: usize)
        ensures
            r == self.rotation_index,
    {
        self.rotation_index
    }

    pub fn get_position(&self) -> (r: &Point)
        ensures
            *r == self.position,
    {
        &self.position
    }

    pub fn rotate_left(&mut self)
        requires
            old(self).rotation_index < ROTATION_COUNT,
        ensures
            *final(self) == (Tetramino { rotation_index: left_of(old(self).rotation_index as int) as usize, ..*old(self) }),
    {
        self.rotation_index = self.peek_left_rotation();
    }

    pub fn rotate_right(&mut self)
        requires
            old(self).rotation_index < ROTATION_COUNT,
        ensures
            *final(self) == (Tetramino { rotation_index: right_of(old(self).rotation_index as int) as usize, ..*old(self) }),
    {
        self.rotation_index = self.peek_right_rotation();
    }

    pub fn set_rotation(&mut self, rotation: usize)
        ensures
            *final(self) == (Tetramino { rotation_index: rotation, ..*old(self) }),
    {
        self.rotation_index = rotation;
    }

    /// Translates the pivot by `delata`.
    pub fn move_it(&mut self, delata: &Point)
        requires
            i32::MIN <= old(self).position.x + delata.x <= i32::MAX,
            i32::MIN <= old(self).position.y + delata.y <= i32::MAX,
        ensures
            final(self).position.x == old(self).position.x + delata.x,
            final(self).position.y == old(self).position.y + delata.y,
            final(self).tetramino_type_index == old(self).tetramino_type_index,
            final(self).rotation_index == old(self).rotation_index,
    {
        self.position = self.position.add(delata);
    }

    pub fn set_position(&mut self, new: Point)
        ensures
            *final(self) == (Tetramino { position: new, ..*old(self) }),
    {
        self.position = new;
    }

    pub fn peek_right_rotation(&self) -> (r: usize)
        requires
            self.rotation_index < ROTATION_COUNT,
        ensures
            r == right_of(self.rotation_index as int),
    {
        (self.rotation_index + 1) % ROTATION_COUNT
    }

    pub fn peek_left_rotation(&self) -> (r: usize)
        requires
            self.rotation_index < ROTATION_COUNT,
        ensures
            r == left_of(self.rotation_index as int),
    {
        (self.rotation_index + ROTATION_COUNT - 1) % ROTATION_COUNT
    }
}

/// The slot of the wall-kick table that a rotation from state `i` to state `j` uses.
/// Several pairs share slot 0, the slot of the plain rotation.
pub open spec fn kick_slot(i: int, j: int) -> int {
    if i == 0 && j == 3 {
        7
    } else if i == 1 && j == 0 {
        1
    } else if i == 1 && j == 2 {
        2
    } else if i == 2 && j == 1 {
        3
    } else if i == 2 && j == 3 {
        4
    } else if i == 3 && j == 0 {
        6
    } else if i == 3 && j == 2 {
        5
    } else {
        0
    }
}

/// The kick group of each kind (`I` has its own, `O` a table of zero
/// offsets, the others share one), and for each group and slot the ordered
/// candidate offsets of a rotation.
pub struct RotationCollisionTable {
    pub tetramino_maping: [usize; TETRAMINOS_COUNT],
    pub collision_table: [[[Point; 5]; 8]; 3],
}

/// The candidate offsets of each kick group and slot, in order.
pub open spec fn kick_table() -> Seq<Seq<Seq<Point>>> {
    seq![
        seq![
            seq![Point { x: 0, y: 0 }, Point { x: -1i32, y: 0 }, Point { x: -1i32, y: 1 }, Point { x: 0, y: -2i32 }, Point { x: -1i32, y: -2i32 }],
            seq![Point { x: 0, y: 0 }, Point { x: 1, y: 0 }, Point { x: 1, y: -1i32 }, Point { x: 0, y: 2 }, Point { x: 1, y: 2 }],
            seq![Point { x: 0, y: 0 }, Point { x: 1, y: 0 }, Point { x: 1, y: 1 }, Point { x: 0, y: -2i32 }, Point { x: 1, y: -2i32 }],
            seq![Point { x: 0, y: 0 }, Point { x: -1i32, y: 0 }, Point { x: -1i32, y: -1i32 }, Point { x: 0, y: 2 }, Point { x: -1i32, y: 2 }],
            seq![Point { x: 0, y: 0 }, Point { x: 1, y: 0 }, Point { x: 1, y: -1i32 }, Point { x: 0, y: 2 }, Point { x: 1, y: 2 }],
            seq![Point { x: 0, y: 0 }, Point { x: -1i32, y: 0 }, Point { x: -1i32, y: 1 }, Point { x: 0, y: -2i32 }, Point { x: -1i32, y: -2i32 }],
            seq![Point { x: 0, y: 0 }, Point { x: -1i32, y: 0 }, Point { x: -1i32, y: -1i32 }, Point { x: 0, y: 2 }, Point { x: -1i32, y: 2 }],
            seq![Point { x: 0, y: 0 }, Point { x: 1, y: 0 }, Point { x: 1, y: 1 }, Point { x: 0, y: -2i32 }, Point { x: 1, y: -2i32 }],
        ],
        seq![
            seq![Point { x: 0, y: 0 }, Point { x: -2i32, y: 0 }, Point { x: 1, y: 0 }, Point { x: -2i32, y: -1i32 }, Point { x: 1, y: 2 }],
            seq![Point { x: 0, y: 0 }, Point { x: -1i32, y: 0 }, Point { x: 2, y: 0 }, Point { x: -1i32, y: 2 }, Point { x: 2, y: -1i32 }],
            seq![Point { x: 0, y: 0 }, Point { x: 2, y: 0 }, Point { x: -1i32, y: 0 }, Point { x: 2, y: 1 }, Point { x: -1i32, y: -2i32 }],
            seq![Point { x: 0, y: 0 }, Point { x: 1, y: 0 }, Point { x: -2i32, y: 0 }, Point { x: 1, y: -2i32 }, Point { x: -2i32, y: 1 }],
            seq![Point { x: 0, y: 0 }, Point { x: 2, y: 0 }, Point { x: -1i32, y: 0 }, Point { x: 2, y: 1 }, Point { x: -1i32, y: -2i32 }],
            seq![Point { x: 0, y: 0 }, Point { x: 1, y: 0 }, Point { x: -2i32, y: 0 }, Point { x: 1, y: -2i32 }, Point { x: -2i32, y: 1 }],
            seq![Point { x: 0, y: 0 }, Point { x: -2i32, y: 0 }, Point { x: 1, y: 0 }, Point { x: -2i32, y: -1i32 }, Point { x: 1, y: 2 }],
            seq![Point { x: 0, y: 0 }, Point { x: -1i32, y: 0 }, Point { x: 2, y: 0 }, Point { x: -1i32, y: 2 }, Point { x: 2, y: -1i32 }],
        ],
        seq![
            seq![Point { x: 0, y: 0 }, Point { x: 0, y: 0 }, Point { x: 0, y: 0 }, Point { x: 0, y: 0 }, Point { x: 0, y: 0 }],
            seq![Point { x: 0, y: 0 }, Point { x: 0, y: 0 }, Point { x: 0, y: 0 }, Point { x: 0, y: 0 }, Point { x: 0, y: 0 }],
            seq![Point { x: 0, y: 0 }, Point { x: 0, y: 0 }, Point { x: 0, y: 0 }, Point { x: 0, y: 0 }, Point { x: 0, y: 0 }],
            seq![Point { x: 0, y: 0 }, Point { x: 0, y: 0 }, Point { x: 0, y: 0 }, Point { x: 0, y: 0 }, Point { x: 0, y: 0 }],
            seq![Point { x: 0, y: 0 }, Point { x: 0, y: 0 }, Point { x: 0, y: 0 }, Point { x: 0, y: 0 }, Point { x: 0, y: 0 }],
            seq![Point { x: 0, y: 0 }, Point { x: 0, y: 0 }, Point { x: 0, y: 0 }, Point { x: 0, y: 0 }, Point { x: 0, y: 0 }],
            seq![Point { x: 0, y: 0 }, Point { x: 0, y: 0 }, Point { x: 0, y: 0 }, Point { x: 0, y: 0 }, Point { x: 0, y: 0 }],
            seq![Point { x: 0, y: 0 }, Point { x: 0, y: 0 }, Point { x: 0, y: 0 }, Point { x: 0, y: 0 }, Point { x: 0, y: 0 }],
        ],
    ]
}

/// The kick group of a kind.
pub open spec fn kick_group(kind: int) -> int {
    if kind == 0 {
        1
    } else if kind == 1 {
        2
    } else {
        0
    }
}

impl RotationCollisionTable {
    /// The table's shape: each kind maps to its group, each candidate offset
    /// is small, every list starts with the zero offset, and the group of `O`
    /// holds zero offsets alone.
    pub open spec fn wf(&self) -> bool {
        &&& forall|k: int| 0 <= k < TETRAMINOS_COUNT ==> #[trigger] self.tetramino_maping@[k] == kick_group(k)
        &&& forall|g: int, s: int, c: int| 0 <= g < 3 && 0 <= s < 8 && 0 <= c < 5
                ==> small(#[trigger] self.collision_table@[g]@[s]@[c])
        &&& forall|g: int, s: int| 0 <= g < 3 && 0 <= s < 8
                ==> #[trigger] self.collision_table@[g]@[s]@[0] == Point { x: 0, y: 0 }
        &&& forall|s: int, c: int| 0 <= s < 8 && 0 <= c < 5
                ==> #[trigger] self.collision_table@[2]@[s]@[c] == Point { x: 0, y: 0 }
    }

    /// The candidate offsets for a rotation of kind `kind` from state `i` to state `j`.
    pub open spec fn candidates(&self, i: int, j: int, kind: int) -> [Point; 5] {
        self.collision_table@[self.tetramino_maping@[kind] as int]@[kick_slot(i, j)]
    }

    #[verifier::rlimit(50)]
    pub fn new() -> (r: RotationCollisionTable)
        ensures
            r.wf(),
            forall|g: int, s: int| 0 <= g < 3 && 0 <= s < 8 ==> (#[trigger] r.collision_table@[g]@[s])@ == kick_table()[g][s],
    {
        let tetramino_maping: [usize; 7] = [1, 2, 0, 0, 0, 0, 0];
        let collision_table: [[[Point; 5]; 8]; 3] = [
            [
                [
                    Point { x: 0, y: 0 },
                    Point { x: -1, y: 0 },
                    Point { x: -1, y: 1 },
                    Point { x: 0, y: -2 },
                    Point { x: -1, y: -2 },
                ],
                [
                    Point { x: 0, y: 0 },
                    Point { x: 1, y: 0 },
                    Point { x: 1, y: -1 },
                    Point { x: 0, y: 2 },
                    Point { x: 1, y: 2 },
                ],
                [
                    Point { x: 0, y: 0 },
                    Point { x: 1, y: 0 },
                    Point { x: 1, y: 1 },
                    Point { x: 0, y: -2 },
                    Point { x: 1, y: -2 },
                ],
                [
                    Point { x: 0, y: 0 },
                    Point { x: -1, y: 0 },
                    Point { x: -1, y: -1 },
                    Point { x: 0, y: 2 },
                    Point { x: -1, y: 2 },
                ],
                [
                    Point { x: 0, y: 0 },
                    Point { x: 1, y: 0 },
                    Point { x: 1, y: -1 },
                    Point { x: 0, y: 2 },
                    Point { x: 1, y: 2 },
                ],
                [
                    Point { x: 0, y: 0 },
                    Point { x: -1, y: 0 },
                    Point { x: -1, y: 1 },
                    Point { x: 0, y: -2 },
                    Point { x: -1, y: -2 },
                ],
                [
                    Point { x: 0, y: 0 },
                    Point { x: -1, y: 0 },
                    Point { x: -1, y: -1 },
                    Point { x: 0, y: 2 },
                    Point { x: -1, y: 2 },
                ],
                [
                    Point { x: 0, y: 0 },
                    Point { x: 1, y: 0 },
                    Point { x: 1, y: 1 },
                    Point { x: 0, y: -2 },
                    Point { x: 1, y: -2 },
                ],
            ],
            [
                [
                    Point { x: 0, y: 0 },
                    Point { x: -2, y: 0 },
                    Point { x: 1, y: 0 },
                    Point { x: -2, y: -1 },
                    Point { x: 1, y: 2 },
                ],
                [
                    Point { x: 0, y: 0 },
                    Point { x: -1, y: 0 },
                    Point { x: 2, y: 0 },
                    Point { x: -1, y: 2 },
                    Point { x: 2, y: -1 },
                ],
                [
                    Point { x: 0, y: 0 },
                    Point { x: 2, y: 0 },
                    Point { x: -1, y: 0 },
                    Point { x: 2, y: 1 },
                    Point { x: -1, y: -2 },
                ],
                [
                    Point { x: 0, y: 0 },
                    Point { x: 1, y: 0 },
                    Point { x: -2, y: 0 },
                    Point { x: 1, y: -2 },
                    Point { x: -2, y: 1 },
                ],
                [
                    Point { x: 0, y: 0 },
                    Point { x: 2, y: 0 },
                    Point { x: -1, y: 0 },
                    Point { x: 2, y: 1 },
                    Point { x: -1, y: -2 },
                ],
                [
                    Point { x: 0, y: 0 },
                    Point { x: 1, y: 0 },
                    Point { x: -2, y: 0 },
                    Point { x: 1, y: -2 },
                    Point { x: -2, y: 1 },
                ],
                [
                    Point { x: 0, y: 0 },
                    Point { x: -2, y: 0 },
                    Point { x: 1, y: 0 },
                    Point { x: -2, y: -1 },
                    Point { x: 1, y: 2 },
                ],
                [
                    Point { x: 0, y: 0 },
                    Point { x: -1, y: 0 },
                    Point { x: 2, y: 0 },
                    Point { x: -1, y: 2 },
                    Point { x: 2, y: -1 },
                ],
            ],
            [
                [
                    Point { x: 0, y: 0 },
                    Point { x: 0, y: 0 },
                    Point { x: 0, y: 0 },
                    Point { x: 0, y: 0 },
                    Point { x: 0, y: 0 },
                ],
                [
                    Point { x: 0, y: 0 },
                    Point { x: 0, y: 0 },
                    Point { x: 0, y: 0 },
                    Point { x: 0, y: 0 },
                    Point { x: 0, y: 0 },
                ],
                [
                    Point { x: 0, y: 0 },
                    Point { x: 0, y: 0 },
                    Point { x: 0, y: 0 },
                    Point { x: 0, y: 0 },
                    Point { x: 0, y: 0 },
                ],
                [
                    Point { x: 0, y: 0 },
                    Point { x: 0, y: 0 },
                    Point { x: 0, y: 0 },
                    Point { x: 0, y: 0 },
                    Point { x: 0, y: 0 },
                ],
                [
                    Point { x: 0, y: 0 },
                    Point { x: 0, y: 0 },
                    Point { x: 0, y: 0 },
                    Point { x: 0, y: 0 },
                    Point { x: 0, y: 0 },
                ],
                [
                    Point { x: 0, y: 0 },
                    Point { x: 0, y: 0 },
                    Point { x: 0, y: 0 },
                    Point { x: 0, y: 0 },
                    Point { x: 0, y: 0 },
                ],
                [
                    Point { x: 0, y: 0 },
                    Point { x: 0, y: 0 },
                    Point { x: 0, y: 0 },
                    Point { x: 0, y: 0 },
                    Point { x: 0, y: 0 },
                ],
                [
                    Point { x: 0, y: 0 },
                    Point { x: 0, y: 0 },
                    Point { x: 0, y: 0 },
                    Point { x: 0, y: 0 },
                    Point { x: 0, y: 0 },
                ],
            ],
        ];
        let r = RotationCollisionTable {
            tetramino_maping,
            collision_table,
        };
        r
    }


    /// The ordered candidate offsets for a rotation of the given kind from state `i` to state `j`.
    pub fn collision_sequence(&self, i: usize, j: usize, tetramino_type: usize) -> (r: [Point; 5])
        requires
            self.wf(),
            i < ROTATION_COUNT,
            j < ROTATION_COUNT,
            tetramino_type < TETRAMINOS_COUNT,
        ensures
            r == self.candidates(i as int, j as int, tetramino_type as int),
    {
        let rotation_index = RotationCollisionTable::rotation_collision_table_index(i, j);
        let tetramino_index = self.tetramino_maping[tetramino_type];
        self.collision_table[tetramino_index][rotation_index]
    }

    /// The wall-kick slot of a rotation from state `i` to state `j`.
    pub fn rotation_collision_table_index(i: usize, j: usize) -> (r: usize)
        requires
            i < ROTATION_COUNT,
            j < ROTATION_COUNT,
        ensures
            r == kick_slot(i as int, j as int),
    {
        let table: [[usize; 4]; 4] = [[0, 0, 0, 7], [1, 0, 2, 0], [0, 3, 0, 4], [6, 0, 5, 0]];
        table[i][j]
    }
}

/// The alignment offset and the cells of each kind's rotation states, in order.
pub open spec fn catalog_table() -> Seq<Seq<(Point, Seq<Point>)>> {
    seq![
        seq![
            (Point { x: 0, y: 0 }, seq![Point { x: -1i32, y: 0 }, Point { x: 0, y: 0 }, Point { x: 1, y: 0 }, Point { x: 2, y: 0 }]),
            (Point { x: 1, y: 0 }, seq![Point { x: 0, y: -1i32 }, Point { x: 0, y: 0 }, Point { x: 0, y: 1 }, Point { x: 0, y: 2 }]),
            (Point { x: 1, y: 1 }, seq![Point { x: 1, y: 0 }, Point { x: 0, y: 0 }, Point { x: -1i32, y: 0 }, Point { x: -2i32, y: 0 }]),
            (Point { x: 0, y: 1 }, seq![Point { x: 0, y: 1 }, Point { x: 0, y: 0 }, Point { x: 0, y: -1i32 }, Point { x: 0, y: -2i32 }]),
        ],
        seq![
            (Point { x: 0, y: 0 }, seq![Point { x: 0, y: 0 }, Point { x: 1, y: 0 }, Point { x: 1, y: 1 }, Point { x: 0, y: 1 }]),
            (Point { x: 0, y: 0 }, seq![Point { x: 0, y: 0 }, Point { x: 1, y: 0 }, Point { x: 1, y: 1 }, Point { x: 0, y: 1 }]),
            (Point { x: 0, y: 0 }, seq![Point { x: 0, y: 0 }, Point { x: 1, y: 0 }, Point { x: 1, y: 1 }, Point { x: 0, y: 1 }]),
            (Point { x: 0, y: 0 }, seq![Point { x: 0, y: 0 }, Point { x: 1, y: 0 }, Point { x: 1, y: 1 }, Point { x: 0, y: 1 }]),
        ],
        seq![
            (Point { x: 0, y: 0 }, seq![Point { x: -1i32, y: 0 }, Point { x: 0, y: 0 }, Point { x: 1, y: 0 }, Point { x: 0, y: -1i32 }]),
            (Point { x: 0, y: 0 }, seq![Point { x: 0, y: -1i32 }, Point { x: 0, y: 0 }, Point { x: 0, y: 1 }, Point { x: 1, y: 0 }]),
            (Point { x: 0, y: 0 }, seq![Point { x: 1, y: 0 }, Point { x: 0, y: 0 }, Point { x: -1i32, y: 0 }, Point { x: 0, y: 1 }]),
            (Point { x: 0, y: 0 }, seq![Point { x: 0, y: 1 }, Point { x: 0, y: 0 }, Point { x: 0, y: -1i32 }, Point { x: -1i32, y: 0 }]),
        ],
        seq![
            (Point { x: 0, y: 0 }, seq![Point { x: -1i32, y: 0 }, Point { x: 0, y: 0 }, Point { x: 0, y: -1i32 }, Point { x: 1, y: -1i32 }]),
            (Point { x: 0, y: 0 }, seq![Point { x: 0, y: -1i32 }, Point { x: 0, y: 0 }, Point { x: 1, y: 0 }, Point { x: 1, y: 1 }]),
            (Point { x: 0, y: 0 }, seq![Point { x: 1, y: 0 }, Point { x: 0, y: 0 }, Point { x: 0, y: 1 }, Point { x: -1i32, y: 1 }]),
            (Point { x: 0, y: 0 }, seq![Point { x: 0, y: 1 }, Point { x: 0, y: 0 }, Point { x: -1i32, y: 0 }, Point { x: -1i32, y: -1i32 }]),
        ],
        seq![
            (Point { x: 0, y: 0 }, seq![Point { x: -1i32, y: -1i32 }, Point { x: 0, y: -1i32 }, Point { x: 0, y: 0 }, Point { x: 1, y: 0 }]),
            (Point { x: 0, y: 0 }, seq![Point { x: 1, y: -1i32 }, Point { x: 1, y: 0 }, Point { x: 0, y: 0 }, Point { x: 0, y: 1 }]),
            (Point { x: 0, y: 0 }, seq![Point { x: 1, y: 1 }, Point { x: 0, y: 1 }, Point { x: 0, y: 0 }, Point { x: -1i32, y: 0 }]),
            (Point { x: 0, y: 0 }, seq![Point { x: -1i32, y: 1 }, Point { x: -1i32, y: 0 }, Point { x: 0, y: 0 }, Point { x: 0, y: -1i32 }]),
        ],
        seq![
            (Point { x: 0, y: 0 }, seq![Point { x: -1i32, y: -1i32 }, Point { x: -1i32, y: 0 }, Point { x: 0, y: 0 }, Point { x: 1, y: 0 }]),
            (Point { x: 0, y: 0 }, seq![Point { x: 1, y: -1i32 }, Point { x: 0, y: -1i32 }, Point { x: 0, y: 0 }, Point { x: 0, y: 1 }]),
            (Point { x: 0, y: 0 }, seq![Point { x: 1, y: 1 }, Point { x: 1, y: 0 }, Point { x: 0, y: 0 }, Point { x: -1i32, y: 0 }]),
            (Point { x: 0, y: 0 }, seq![Point { x: -1i32, y: 1 }, Point { x: 0, y: 1 }, Point { x: 0, y: 0 }, Point { x: 0, y: -1i32 }]),
        ],
        seq![
            (Point { x: 0, y: 0 }, seq![Point { x: -1i32, y: 0 }, Point { x: 0, y: 0 }, Point { x: 1, y: 0 }, Point { x: 1, y: -1i32 }]),
            (Point { x: 0, y: 0 }, seq![Point { x: 0, y: -1i32 }, Point { x: 0, y: 0 }, Point { x: 0, y: 1 }, Point { x: 1, y: 1 }]),
            (Point { x: 0, y: 0 }, seq![Point { x: 1, y: 0 }, Point { x: 0, y: 0 }, Point { x: -1i32, y: 0 }, Point { x: -1i32, y: 1 }]),
            (Point { x: 0, y: 0 }, seq![Point { x: 0, y: 1 }, Point { x: 0, y: 0 }, Point { x: 0, y: -1i32 }, Point { x: -1i32, y: -1i32 }]),
        ],
    ]
}

/// The seven kinds with their hand-authored rotation states.
#[verifier::rlimit(50)]
pub fn initialize_tetraminoes_data() -> (r: TetraminoesData)
    ensures
        catalog_wf(r),
        forall|k: int, q: int|
            0 <= k < TETRAMINOS_COUNT && 0 <= q < ROTATION_COUNT ==> (#[trigger] r@[k].rotations@[q]).offset == catalog_table()[k][q].0
                && r@[k].rotations@[q].sequence@ == catalog_table()[k][q].1,
{
    let r: TetraminoesData = [
        TetrominoData::new(
            [
                TetrominoRotation {
                    offset: Point { x: 0, y: 0 },
                    sequence: [
                        Point { x: -1, y: 0 },
                        Point { x: 0, y: 0 },
                        Point { x: 1, y: 0 },
                        Point { x: 2, y: 0 },
                    ],
                },
                TetrominoRotation {
                    offset: Point { x: 1, y: 0 },
                    sequence: [
                        Point { x: 0, y: -1 },
                        Point { x: 0, y: 0 },
                        Point { x: 0, y: 1 },
                        Point { x: 0, y: 2 },
                    ],
                },
                TetrominoRotation {
                    offset: Point { x: 1, y: 1 },
                    sequence: [
                        Point { x: 1, y: 0 },
                        Point { x: 0, y: 0 },
                        Point { x: -1, y: 0 },
                        Point { x: -2, y: 0 },
                    ],
                },
                TetrominoRotation {
                    offset: Point { x: 0, y: 1 },
                    sequence: [
                        Point { x: 0, y: 1 },
                        Point { x: 0, y: 0 },
                        Point { x: 0, y: -1 },
                        Point { x: 0, y: -2 },
                    ],
                },
            ],
            TetrominoType::I,
        ),
        TetrominoData::new(
            [
                TetrominoRotation {
                    offset: Point { x: 0, y: 0 },
                    sequence: [
                        Point { x: 0, y: 0 },
                        Point { x: 1, y: 0 },
                        Point { x: 1, y: 1 },
                        Point { x: 0, y: 1 },
                    ],
                },
                TetrominoRotation {
                    offset: Point { x: 0, y: 0 },
                    sequence: [
                        Point { x: 0, y: 0 },
                        Point { x: 1, y: 0 },
                        Point { x: 1, y: 1 },
                        Point { x: 0, y: 1 },
                    ],
                },
                TetrominoRotation {
                    offset: Point { x: 0, y: 0 },
                    sequence: [
                        Point { x: 0, y: 0 },
                        Point { x: 1, y: 0 },
                        Point { x: 1, y: 1 },
                        Point { x: 0, y: 1 },
                    ],
                },
                TetrominoRotation {
                    offset: Point { x: 0, y: 0 },
                    sequence: [
                        Point { x: 0, y: 0 },
                        Point { x: 1, y: 0 },
                        Point { x: 1, y: 1 },
                        Point { x: 0, y: 1 },
                    ],
                },
            ],
            TetrominoType::O,
        ),
        TetrominoData::new(
            [
                TetrominoRotation {
                    offset: Point { x: 0, y: 0 },
                    sequence: [
                        Point { x: -1, y: 0 },
                        Point { x: 0, y: 0 },
                        Point { x: 1, y: 0 },
                        Point { x: 0, y: -1 },
                    ],
                },
                TetrominoRotation {
                    offset: Point { x: 0, y: 0 },
                    sequence: [
                        Point { x: 0, y: -1 },
                        Point { x: 0, y: 0 },
                        Point { x: 0, y: 1 },
                        Point { x: 1, y: 0 },
                    ],
                },
                TetrominoRotation {
                    offset: Point { x: 0, y: 0 },
                    sequence: [
                        Point { x: 1, y: 0 },
                        Point { x: 0, y: 0 },
                        Point { x: -1, y: 0 },
                        Point { x: 0, y: 1 },
                    ],
                },
                TetrominoRotation {
                    offset: Point { x: 0, y: 0 },
                    sequence: [
                        Point { x: 0, y: 1 },
                        Point { x: 0, y: 0 },
                        Point { x: 0, y: -1 },
                        Point { x: -1, y: 0 },
                    ],
                },
            ],
            TetrominoType::T,
        ),
        TetrominoData::new(
            [
                TetrominoRotation {
                    offset: Point { x: 0, y: 0 },
                    sequence: [
                        Point { x: -1, y: 0 },
                        Point { x: 0, y: 0 },
                        Point { x: 0, y: -1 },
                        Point { x: 1, y: -1 },
                    ],
                },
                TetrominoRotation {
                    offset: Point { x: 0, y: 0 },
                    sequence: [
                        Point { x: 0, y: -1 },
                        Point { x: 0, y: 0 },
                        Point { x: 1, y: 0 },
                        Point { x: 1, y: 1 },
                    ],
                },
                TetrominoRotation {
                    offset: Point { x: 0, y: 0 },
                    sequence: [
                        Point { x: 1, y: 0 },
                        Point { x: 0, y: 0 },
                        Point { x: 0, y: 1 },
                        Point { x: -1, y: 1 },
                    ],
                },
                TetrominoRotation {
                    offset: Point { x: 0, y: 0 },
                    sequence: [
                        Point { x: 0, y: 1 },
                        Point { x: 0, y: 0 },
                        Point { x: -1, y: 0 },
                        Point { x: -1, y: -1 },
                    ],
                },
            ],
            TetrominoType::S,
        ),
        TetrominoData::new(
            [
                TetrominoRotation {
                    offset: Point { x: 0, y: 0 },
                    sequence: [
                        Point { x: -1, y: -1 },
                        Point { x: 0, y: -1 },
                        Point { x: 0, y: 0 },
                        Point { x: 1, y: 0 },
                    ],
                },
                TetrominoRotation {
                    offset: Point { x: 0, y: 0 },
                    sequence: [
                        Point { x: 1, y: -1 },
                        Point { x: 1, y: 0 },
                        Point { x: 0, y: 0 },
                        Point { x: 0, y: 1 },
                    ],
                },
                TetrominoRotation {
                    offset: Point { x: 0, y: 0 },
                    sequence: [
                        Point { x: 1, y: 1 },
                        Point { x: 0, y: 1 },
                        Point { x: 0, y: 0 },
                        Point { x: -1, y: 0 },
                    ],
                },
                TetrominoRotation {
                    offset: Point { x: 0, y: 0 },
                    sequence: [
                        Point { x: -1, y: 1 },
                        Point { x: -1, y: 0 },
                        Point { x: 0, y: 0 },
                        Point { x: 0, y: -1 },
                    ],
                },
            ],
            TetrominoType::Z,
        ),
        TetrominoData::new(
            [
                TetrominoRotation {
                    offset: Point { x: 0, y: 0 },
                    sequence: [
                        Point { x: -1, y: -1 },
                        Point { x: -1, y: 0 },
                        Point { x: 0, y: 0 },
                        Point { x: 1, y: 0 },
                    ],
                },
                TetrominoRotation {
                    offset: Point { x: 0, y: 0 },
                    sequence: [
                        Point { x: 1, y: -1 },
                        Point { x: 0, y: -1 },
                        Point { x: 0, y: 0 },
                        Point { x: 0, y: 1 },
                    ],
                },
                TetrominoRotation {
                    offset: Point { x: 0, y: 0 },
                    sequence: [
                        Point { x: 1, y: 1 },
                        Point { x: 1, y: 0 },
                        Point { x: 0, y: 0 },
                        Point { x: -1, y: 0 },
                    ],
                },
                TetrominoRotation {
                    offset: Point { x: 0, y: 0 },
                    sequence: [
                        Point { x: -1, y: 1 },
                        Point { x: 0, y: 1 },
                        Point { x: 0, y: 0 },
                        Point { x: 0, y: -1 },
                    ],
                },
            ],
            TetrominoType::J,
        ),
        TetrominoData::new(
            [
                TetrominoRotation {
                    offset: Point { x: 0, y: 0 },
                    sequence: [
                        Point { x: -1, y: 0 },
                        Point { x: 0, y: 0 },
                        Point { x: 1, y: 0 },
                        Point { x: 1, y: -1 },
                    ],
                },
                TetrominoRotation {
                    offset: Point { x: 0, y: 0 },
                    sequence: [
                        Point { x: 0, y: -1 },
                        Point { x: 0, y: 0 },
                        Point { x: 0, y: 1 },
                        Point { x: 1, y: 1 },
                    ],
                },
                TetrominoRotation {
                    offset: Point { x: 0, y: 0 },
                    sequence: [
                        Point { x: 1, y: 0 },
                        Point { x: 0, y: 0 },
                        Point { x: -1, y: 0 },
                        Point { x: -1, y: 1 },
                    ],
                },
                TetrominoRotation {
                    offset: Point { x: 0, y: 0 },
                    sequence: [
                        Point { x: 0, y: 1 },
                        Point { x: 0, y: 0 },
                        Point { x: 0, y: -1 },
                        Point { x: -1, y: -1 },
                    ],
                },
            ],
            TetrominoType::L,
        ),
    ];
    r
}

} // verus!
