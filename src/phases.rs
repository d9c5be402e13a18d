use vstd::prelude::*;
use crate::chunk::{chunk_views, chunks_of, disjoint_lists, lemma_settle_disjoint, find_chunks, land_flying_chunks, settle, settle_step, sub_board_size, Chunk};
use crate::field::{
    blocked, cell_index, check_for_collision, clear_play_table, collides, count_empty, fill_field, find_filled_lines, merged,
    row_full, FIELD_SIZE, HEIGHT, WIDTH,
};
use crate::machine::{InputEvent, LogicalKey, State, StateTransition};
use crate::session::{
    pow2, power_of_two, raised, scaled_interval, shrink, tier_multiplier, within_limits, GameData,
    POSITION_LIMIT,
};
use crate::tetromino::{left_of, right_of, Point, Tetramino};

verus! {

/// Gravity interval of the falling piece at tier 0, in microseconds.
pub const FALL_INTERVAL: u64 = 330000;

/// Repeat interval of horizontal movement, in microseconds.
pub const CONTROL_INTERVAL: u64 = 100000;

/// Gravity interval of a dropped piece at tier 0, in microseconds.
pub const FAST_FALL_INTERVAL: u64 = 30000;

/// Interval of the blink of cleared rows, in microseconds.
pub const BLINK_INTERVAL: u64 = 100000;

/// Number of blink intervals before the chunks fall.
pub const MAX_ITERATIONS: u32 = 5;

/// Fall interval of the chunks at tier 0, in microseconds.
pub const CHUNK_FALL_INTERVAL: u64 = 30000;

/// Columns moved by one horizontal step.
pub const MOVEMENT_SPEED: i32 = 1;

/// A time accumulator after `dt` more microseconds, held at the largest `u64`.
pub open spec fn accumulate(t: u64, dt: u64) -> u64 {
    if t + dt > u64::MAX {
        u64::MAX
    } else {
        (t + dt) as u64
    }
}

/// The point one row below `p`.
pub open spec fn below(p: Point) -> Point {
    Point { x: p.x, y: (p.y + 1) as i32 }
}

/// Whether the active piece would collide one row further down.
pub open spec fn blocked_below(d: GameData) -> bool {
    collides(d.play_table@, below(d.current_figure.position), d.piece_cells())
}

/// The session with the active piece's pivot set to `p`.
pub open spec fn with_position(d: GameData, p: Point) -> GameData {
    GameData { current_figure: Tetramino { position: p, ..d.current_figure }, ..d }
}

/// Whether `d2` is `d` with the active piece merged into the board at its pivot.
pub open spec fn locked_into(d: GameData, d2: GameData) -> bool {
    &&& d2.play_table@ == merged(d.play_table@, d.current_figure.position, d.piece_cells())
    &&& d2 == GameData { play_table: d2.play_table, ..d }
}

proof fn lemma_fits_within_limits(d: GameData, p: Point)
    requires
        d.wf(),
        -POSITION_LIMIT <= p.y,
        -POSITION_LIMIT <= p.x <= POSITION_LIMIT,
        !collides(d.play_table@, p, d.piece_cells()),
    ensures
        within_limits(p),
{
    let r = d.piece_rotation();
    assert(d.tetraminoes_data@[d.current_figure.tetramino_type_index as int].wf());
    assert(r.wf());
    let c = d.piece_cells()[0];
    assert(crate::tetromino::small(r.sequence@[0]));
    assert(!blocked(d.play_table@, p.x + c.x, p.y + c.y));
}

/// The active piece falls one row each gravity interval, moves left and
/// right, rotates, and locks when it cannot fall further.
pub struct FallingState {
    pub fall_time: u64,
    pub horizontal_time: u64,
    pub horizontal_movement: i32,
    pub left_stroke: bool,
    pub right_stroke: bool,
    pub left_pressed: bool,
    pub right_pressed: bool,
    pub rotate_left: bool,
    pub rotate_right: bool,
    pub down_pressed: bool,
}

/// The horizontal step of a control tick: the held direction, or else the
/// pending single strokes.
pub open spec fn horizontal_delta(s: FallingState) -> int {
    if s.horizontal_movement == 0 {
        (if s.right_stroke {
            1int
        } else {
            0int
        }) - (if s.left_stroke {
            1int
        } else {
            0int
        })
    } else {
        s.horizontal_movement as int
    }
}

/// The gravity step of the falling piece, from `(s, d)` to `(s2, d2)` with result `t`.
pub open spec fn fall_post(s: FallingState, d: GameData, dt: u64, s2: FallingState, d2: GameData, t: StateTransition<GamePhase>) -> bool {
    let ft = accumulate(s.fall_time, dt);
    let iv = shrink(FALL_INTERVAL as nat, d.dificulty as nat);
    if ft < iv {
        s2 == FallingState { fall_time: ft, ..s } && d2 == d && t is Hold
    } else {
        &&& s2 == FallingState { fall_time: (ft - iv) as u64, ..s }
        &&& !blocked_below(d) ==> t is Hold && d2 == with_position(d, below(d.current_figure.position))
        &&& blocked_below(d) && d.current_figure.position.y <= 0 ==> t is Pop && d2 == d
        &&& blocked_below(d) && d.current_figure.position.y > 0 ==> locked_into(d, d2) && (t matches StateTransition::Push(
            GamePhase::LineClearing(lc),
        ) && lc.fresh())
    }
}

/// The horizontal step of the falling piece.
pub open spec fn horizontal_post(s: FallingState, d: GameData, dt: u64, s2: FallingState, d2: GameData) -> bool {
    let ht = accumulate(s.horizontal_time, dt);
    let p = d.current_figure.position;
    let target = Point { x: (p.x + horizontal_delta(s)) as i32, y: p.y };
    if ht < CONTROL_INTERVAL {
        s2 == FallingState { horizontal_time: ht, ..s } && d2 == d
    } else {
        &&& s2 == FallingState { horizontal_time: (ht - CONTROL_INTERVAL) as u64, left_stroke: false, right_stroke: false, ..s }
        &&& d2 == if d.fits_at(target, d.current_figure.rotation_index as int) {
            with_position(d, target)
        } else {
            d
        }
    }
}

/// The rotation step of the falling piece: a pending right rotation wins
/// over a pending left one; without either the piece is checked in place.
pub open spec fn rotation_post(s: FallingState, d: GameData, s2: FallingState, d2: GameData) -> bool {
    let r = d.current_figure.rotation_index as int;
    let next = if s.rotate_right {
        right_of(r)
    } else if s.rotate_left {
        left_of(r)
    } else {
        r
    };
    &&& s2 == FallingState { rotate_left: false, rotate_right: false, ..s }
    &&& d2 == GameData { current_figure: d.rotated(next), ..d }
}

impl FallingState {
    /// The held-direction counter stays in `-1..=1` and is non-zero only
    /// while its key is held.
    pub open spec fn inv(&self) -> bool {
        &&& -1 <= self.horizontal_movement <= 1
        &&& self.horizontal_movement == -1 ==> self.left_pressed
        &&& self.horizontal_movement == 1 ==> self.right_pressed
    }

    pub open spec fn fresh(&self) -> bool {
        *self == FallingState {
            fall_time: 0,
            horizontal_time: 0,
            horizontal_movement: 0,
            left_stroke: false,
            right_stroke: false,
            left_pressed: false,
            right_pressed: false,
            rotate_left: false,
            rotate_right: false,
            down_pressed: false,
        }
    }

    pub fn new() -> (r: FallingState)
        ensures
            r.fresh(),
            r.inv(),
    {
        FallingState {
            fall_time: 0,
            horizontal_time: 0,
            horizontal_movement: 0,
            left_stroke: false,
            right_stroke: false,
            left_pressed: false,
            right_pressed: false,
            rotate_left: false,
            rotate_right: false,
            down_pressed: false,
        }
    }

    /// Gravity: once the accumulated time reaches the interval of the
    /// current tier, the piece moves one row down, or locks when it cannot.
    /// A piece that locks at or above the spawn row ends the session (`Pop`);
    /// any other lock starts the line clearing (`Push`).
    pub fn handle_fall(&mut self, dt: u64, data: &mut GameData) -> (t: StateTransition<GamePhase>)
        requires
            old(data).wf(),
        ensures
            final(data).wf(),
            fall_post(*old(self), *old(data), dt, *final(self), *final(data), t),
    {
        self.fall_time = self.fall_time.saturating_add(dt);
        let time_interval = scaled_interval(FALL_INTERVAL, data.dificulty);
        if self.fall_time >= time_interval {
            self.fall_time = self.fall_time - time_interval;
            let kind = data.current_figure.get_type();
            let rotation = data.current_figure.get_rotation();
            let position = *data.current_figure.get_position();
            let new_position = Point { x: position.x, y: position.y + 1 };
            proof {
                assert(data.tetraminoes_data@[kind as int].wf());
            }
            let cells = data.tetraminoes_data[kind].rotations[rotation].points();
            if check_for_collision(&new_position, &cells, &data.play_table) {
                if position.y <= 0 {
                    return StateTransition::Pop;
                }
                fill_field(&position, &cells, &mut data.play_table);
                return StateTransition::Push(GamePhase::LineClearing(LineClearing::new()));
            } else {
                proof {
                    lemma_fits_within_limits(*data, new_position);
                }
                data.current_figure.set_position(new_position);
            }
        }
        StateTransition::Hold
    }

    /// Consumes the pending rotation requests with the wall-kick procedure.
    pub fn handle_rotation(&mut self, data: &mut GameData)
        requires
            old(data).wf(),
        ensures
            final(data).wf(),
            rotation_post(*old(self), *old(data), *final(self), *final(data)),
    {
        let rotation_index = data.current_figure.get_rotation();
        let mut next_rotation_index = rotation_index;
        if self.rotate_left {
            self.rotate_left = false;
            next_rotation_index = data.current_figure.peek_left_rotation();
        }
        if self.rotate_right {
            self.rotate_right = false;
            next_rotation_index = data.current_figure.peek_right_rotation();
        }
        data.try_rotate(next_rotation_index);
    }

    /// Horizontal movement: each control interval the piece moves by the
    /// held direction, or by the strokes pressed since the last tick, when
    /// it fits there.
    pub fn handle_horizontal_movement(&mut self, dt: u64, data: &mut GameData)
        requires
            old(self).inv(),
            old(data).wf(),
        ensures
            final(self).inv(),
            final(data).wf(),
            horizontal_post(*old(self), *old(data), dt, *final(self), *final(data)),
    {
        self.horizontal_time = self.horizontal_time.saturating_add(dt);
        if self.horizontal_time >= CONTROL_INTERVAL {
            self.horizontal_time = self.horizontal_time - CONTROL_INTERVAL;
            let kind = data.current_figure.get_type();
            let rotation = data.current_figure.get_rotation();
            let position = *data.current_figure.get_position();
            let mut new_position = position;
            if self.horizontal_movement == 0 {
                if self.left_stroke {
                    new_position.x = new_position.x - MOVEMENT_SPEED;
                }
                if self.right_stroke {
                    new_position.x = new_position.x + MOVEMENT_SPEED;
                }
            } else {
                new_position.x = new_position.x + self.horizontal_movement;
            }
            self.left_stroke = false;
            self.right_stroke = false;
            proof {
                assert(data.tetraminoes_data@[kind as int].wf());
            }
            let cells = data.tetraminoes_data[kind].rotations[rotation].points();
            let limit = POSITION_LIMIT;
            if new_position.x >= -limit && new_position.x <= limit && new_position.y >= -limit && new_position.y <= limit {
                if !check_for_collision(&new_position, &cells, &data.play_table) {
                    data.current_figure.set_position(new_position);
                }
            }
        }
    }

    /// What `handle_input` does.
    pub open spec fn input_post(s: FallingState, event: InputEvent, s2: FallingState) -> bool {
        ({
            match event.key {
                LogicalKey::Left => if event.pressed {
                    s2 == if !s.left_pressed {
                        FallingState {
                            horizontal_movement: (s.horizontal_movement - MOVEMENT_SPEED) as i32,
                            left_stroke: true,
                            left_pressed: true,
                            ..s
                        }
                    } else {
                        s
                    }
                } else {
                    s2 == FallingState { horizontal_movement: 0, left_pressed: false, ..s }
                },
                LogicalKey::Right => if event.pressed {
                    s2 == if !s.right_pressed {
                        FallingState {
                            horizontal_movement: (s.horizontal_movement + MOVEMENT_SPEED) as i32,
                            right_stroke: true,
                            right_pressed: true,
                            ..s
                        }
                    } else {
                        s
                    }
                } else {
                    s2 == FallingState { horizontal_movement: 0, right_pressed: false, ..s }
                },
                LogicalKey::RotateCCW => s2 == if event.pressed {
                    FallingState { rotate_left: true, ..s }
                } else {
                    s
                },
                LogicalKey::RotateCW => s2 == if event.pressed {
                    FallingState { rotate_right: true, ..s }
                } else {
                    s
                },
                LogicalKey::HardDrop | LogicalKey::SoftDrop => s2 == if event.pressed {
                    FallingState { down_pressed: true, ..s }
                } else {
                    s
                },
                _ => s2 == s,
            }
        })
    }

    /// Records key presses and releases: a first press of a direction moves
    /// once at the next control tick and holds the direction; a release
    /// clears the held direction; rotation and drop keys set one-shot requests.
    pub fn handle_input(&mut self, event: InputEvent)
        requires
            old(self).inv(),
        ensures
            final(self).inv(),
            FallingState::input_post(*old(self), event, *final(self)),
    {
        match event.key {
            LogicalKey::Left => {
                if event.pressed {
                    if !self.left_pressed {
                        self.horizontal_movement = self.horizontal_movement - MOVEMENT_SPEED;
                        self.left_stroke = true;
                        self.left_pressed = true;
                    }
                } else {
                    self.horizontal_movement = 0;
                    self.left_pressed = false;
                }
            },
            LogicalKey::Right => {
                if event.pressed {
                    if !self.right_pressed {
                        self.horizontal_movement = self.horizontal_movement + MOVEMENT_SPEED;
                        self.right_pressed = true;
                        self.right_stroke = true;
                    }
                } else {
                    self.horizontal_movement = 0;
                    self.right_pressed = false;
                }
            },
            LogicalKey::RotateCCW => {
                if event.pressed {
                    self.rotate_left = true;
                }
            },
            LogicalKey::RotateCW => {
                if event.pressed {
                    self.rotate_right = true;
                }
            },
            LogicalKey::HardDrop | LogicalKey::SoftDrop => {
                if event.pressed {
                    self.down_pressed = true;
                }
            },
            _ => {},
        }
    }

    /// What `update` does.
    pub open spec fn update_post(s: FallingState, d: GameData, dt: u64, s2: FallingState, d2: GameData, t: StateTransition<GamePhase>) -> bool {
        &&& exists|s1: FallingState, d1: GameData, t1: StateTransition<GamePhase>|
            #[trigger] fall_post(s, d, dt, s1, d1, t1) && {
                &&& !(t1 is Hold) ==> t == t1 && s2 == s1 && d2 == d1
                &&& t1 is Hold && s1.down_pressed ==> (t matches StateTransition::Push(GamePhase::FastFall(f))
                    && f.fresh()) && s2 == (FallingState { down_pressed: false, ..s1 }) && d2 == d1
                &&& t1 is Hold && !s1.down_pressed ==> t is Hold && exists|s3: FallingState, d3: GameData|
                    #[trigger] horizontal_post(s1, d1, dt, s3, d3) && rotation_post(s3, d3, s2, d2)
            }
    }

    /// One tick: gravity first (a lock or the end of the session is
    /// returned at once), then a pending drop (which pushes the fast fall),
    /// then horizontal movement and rotation.
    pub fn update(&mut self, data: &mut GameData, dt: u64) -> (t: StateTransition<GamePhase>)
        requires
            old(self).inv(),
            old(data).wf(),
        ensures
            final(self).inv(),
            final(data).wf(),
            FallingState::update_post(*old(self), *old(data), dt, *final(self), *final(data), t),
    {
        let state = self.handle_fall(dt, data);
        let ghost s1 = *self;
        let ghost d1 = *data;
        match state {
            StateTransition::Hold => {},
            _ => {
                return state;
            },
        }
        if self.down_pressed {
            self.down_pressed = false;
            return StateTransition::Push(GamePhase::FastFall(FastFallingState::new()));
        }
        self.handle_horizontal_movement(dt, data);
        let ghost s2 = *self;
        let ghost d2 = *data;
        self.handle_rotation(data);
        assert(horizontal_post(s1, d1, dt, s2, d2));
        StateTransition::Hold
    }

    /// On resuming after a drop, the held direction and the strokes are cleared.
    pub fn resume(&mut self)
        ensures
            *final(self) == (FallingState {
                horizontal_movement: 0,
                right_stroke: false,
                left_stroke: false,
                ..*old(self)
            }),
    {
        self.horizontal_movement = 0;
        self.right_stroke = false;
        self.left_stroke = false;
    }
}

/// A dropped piece falls at a much shorter interval until it cannot fall
/// further; then control returns to the state beneath, which locks it.
pub struct FastFallingState {
    pub fall_time: u64,
}

impl FastFallingState {
    pub open spec fn fresh(&self) -> bool {
        self.fall_time == 0
    }

    pub fn new() -> (r: FastFallingState)
        ensures
            r.fresh(),
    {
        FastFallingState { fall_time: 0 }
    }

    /// What `handle_fall` does.
    pub open spec fn drop_post(s: FastFallingState, d: GameData, dt: u64, s2: FastFallingState, d2: GameData, t: StateTransition<GamePhase>) -> bool {
        ({
            let ft = accumulate(s.fall_time, dt);
            let iv = shrink(FAST_FALL_INTERVAL as nat, d.dificulty as nat);
            if ft < iv {
                s2.fall_time == ft && d2 == d && t is Hold
            } else {
                &&& s2.fall_time == ft - iv
                &&& blocked_below(d) ==> t is Pop && d2 == d
                &&& !blocked_below(d) ==> t is Hold && d2 == with_position(
                    d,
                    below(d.current_figure.position),
                )
            }
        })
    }

    /// Gravity at the drop interval: moves the piece one row down, or pops
    /// when it cannot fall further.
    pub fn handle_fall(&mut self, dt: u64, data: &mut GameData) -> (t: StateTransition<GamePhase>)
        requires
            old(data).wf(),
        ensures
            final(data).wf(),
            FastFallingState::drop_post(*old(self), *old(data), dt, *final(self), *final(data), t),
    {
        self.fall_time = self.fall_time.saturating_add(dt);
        let time_interval = scaled_interval(FAST_FALL_INTERVAL, data.dificulty);
        if self.fall_time >= time_interval {
            self.fall_time = self.fall_time - time_interval;
            let kind = data.current_figure.get_type();
            let rotation = data.current_figure.get_rotation();
            let position = *data.current_figure.get_position();
            let new_position = Point { x: position.x, y: position.y + 1 };
            proof {
                assert(data.tetraminoes_data@[kind as int].wf());
            }
            let cells = data.tetraminoes_data[kind].rotations[rotation].points();
            if check_for_collision(&new_position, &cells, &data.play_table) {
                return StateTransition::Pop;
            } else {
                proof {
                    lemma_fits_within_limits(*data, new_position);
                }
                data.current_figure.set_position(new_position);
            }
        }
        StateTransition::Hold
    }
}

/// Whether `lines` lists the full rows of board `f`, top to bottom.
pub open spec fn are_filled_rows(f: Seq<crate::tetromino::TetrominoType>, lines: Seq<usize>) -> bool {
    &&& forall|k: int| 0 <= k < lines.len() ==> #[trigger] lines[k] < HEIGHT && row_full(f, lines[k] as int)
    &&& forall|a: int, b: int| 0 <= a < b < lines.len() ==> lines[a] < lines[b]
    &&& forall|row: int| 0 <= row < HEIGHT && row_full(f, row) ==> lines.contains(row as usize)
    &&& lines.len() <= HEIGHT
}

/// Board `f` with every cell of the rows in `lines` emptied.
pub open spec fn cleared(f: Seq<crate::tetromino::TetrominoType>, lines: Seq<usize>) -> Seq<crate::tetromino::TetrominoType> {
    Seq::new(f.len(), |j: int| if lines.contains((j / WIDTH as int) as usize) {
        crate::tetromino::TetrominoType::E
    } else {
        f[j]
    })
}

fn copy_lines(lines: &Vec<usize>) -> (r: Vec<usize>)
    ensures
        r@ == lines@,
{
    let mut r: Vec<usize> = Vec::new();
    let mut i: usize = 0;
    while i < lines.len()
        invariant
            i <= lines@.len(),
            r@ == lines@.subrange(0, i as int),
        decreases lines@.len() - i,
    {
        r.push(lines[i]);
        i = i + 1;
        assert(r@ =~= lines@.subrange(0, i as int));
    }
    assert(lines@.subrange(0, lines@.len() as int) =~= lines@);
    r
}

/// The full rows blink for a while; then the rows are cleared, scored, and
/// the blocks above fall as chunks. Entered with no full row, it awards the
/// bonus of the running line counter, spawns the next piece and returns.
pub struct LineClearing {
    pub min_line: usize,
    pub max_line: usize,
    pub line_count: usize,
    pub iterations: u32,
    pub time_passed: u64,
    pub lines: Vec<usize>,
}

impl LineClearing {
    pub open spec fn inv(&self) -> bool {
        &&& self.line_count <= HEIGHT
        &&& self.min_line < HEIGHT
        &&& self.max_line < HEIGHT
        &&& self.iterations <= MAX_ITERATIONS
        &&& self.lines@.len() <= HEIGHT
        &&& forall|k: int| 0 <= k < self.lines@.len() ==> #[trigger] self.lines@[k] < HEIGHT
    }

    pub open spec fn fresh(&self) -> bool {
        &&& self.min_line == 0
        &&& self.max_line == 0
        &&& self.line_count == 0
        &&& self.iterations == 0
        &&& self.time_passed == 0
        &&& self.lines@.len() == 0
    }

    /// What `enter` does: records the full rows, their top and bottom and
    /// their number, and adds that number to the session's running line counter.
    pub open spec fn entered(s: LineClearing, d: GameData, s2: LineClearing, d2: GameData) -> bool {
        let n = s2.lines@.len();
        &&& are_filled_rows(d.play_table@, s2.lines@)
        &&& d2 == GameData { lines: if d.lines + n > usize::MAX {
            usize::MAX
        } else {
            (d.lines + n) as usize
        }, ..d }
        &&& s2.iterations == s.iterations
        &&& s2.time_passed == s.time_passed
        &&& n == 0 ==> s2.min_line == s.min_line && s2.max_line == s.max_line && s2.line_count == s.line_count
        &&& n > 0 ==> s2.max_line == s2.lines@[0] && s2.min_line == s2.lines@[n - 1] && s2.line_count == n
    }

    /// What `exit` does: clears the recorded rows (when there are any),
    /// awards the line bonus at the current tier's multiplier and resets the
    /// running line counter.
    pub open spec fn exited(s: LineClearing, d: GameData, s2: LineClearing, d2: GameData) -> bool {
        &&& s2 == s
        &&& d2.play_table@ == if s.line_count != 0 {
            cleared(d.play_table@, s.lines@)
        } else {
            d.play_table@
        }
        &&& d2.score == raised(d.score as int, crate::session::line_bonus(s.line_count as nat, tier_multiplier(d.dificulty as nat)) as int)
        &&& d2.lines == 0
        &&& d2 == GameData { play_table: d2.play_table, score: d2.score, dificulty: d2.dificulty, lines: 0, ..d }
    }

    pub fn new() -> (r: LineClearing)
        ensures
            r.fresh(),
            r.inv(),
    {
        LineClearing { min_line: 0, max_line: 0, line_count: 0, iterations: 0, time_passed: 0, lines: Vec::new() }
    }

    pub fn enter(&mut self, data: &mut GameData)
        requires
            old(self).inv(),
            old(data).wf(),
        ensures
            final(self).inv(),
            final(data).wf(),
            LineClearing::entered(*old(self), *old(data), *final(self), *final(data)),
    {
        self.lines = find_filled_lines(&data.play_table);
        let count = self.lines.len();
        data.lines = data.lines.saturating_add(count);
        if count != 0 {
            self.max_line = self.lines[0];
            self.min_line = self.lines[count - 1];
            self.line_count = count;
        }
    }

    /// What `update` does.
    pub open spec fn update_post(s: LineClearing, d: GameData, dt: u64, s2: LineClearing, d2: GameData, t: StateTransition<GamePhase>) -> bool {
        &&& s.line_count == 0 ==> {
            &&& t is Pop
            &&& s2 == s
            &&& d2.score == raised(
                d.score as int,
                d.lines * (d.lines + 1) * tier_multiplier(d.dificulty as nat),
            )
            &&& d2.lines == 0
            &&& d2.current_figure == (Tetramino {
                position: Point { x: 5, y: 0 },
                tetramino_type_index: d.next_figure,
                rotation_index: 0,
            })
            &&& d2 == (GameData {
                score: d2.score,
                dificulty: d2.dificulty,
                lines: 0,
                current_figure: d2.current_figure,
                next_figure: d2.next_figure,
                ..d
            })
        }
        &&& s.line_count != 0 ==> {
            let tp = accumulate(s.time_passed, dt);
            let it = if s.iterations < MAX_ITERATIONS {
                s.iterations + 1
            } else {
                s.iterations as int
            };
            &&& d2 == d
            &&& tp < BLINK_INTERVAL ==> t is Hold && s2 == (LineClearing { time_passed: tp, ..s })
            &&& tp >= BLINK_INTERVAL ==> s2 == (LineClearing {
                time_passed: (tp - BLINK_INTERVAL) as u64,
                iterations: it as u32,
                ..s
            }) && (it >= MAX_ITERATIONS ==> (t matches StateTransition::Transition(GamePhase::ChunkFall(c))
                && c.fresh_at(s.max_line as int))) && (it < MAX_ITERATIONS ==> t is Hold)
        }
    }

    /// With no full row: awards `lines * (lines + 1)` times the multiplier
    /// for the running counter, resets it, spawns the next kind at the spawn
    /// point, draws a new next kind and pops. Otherwise: counts blink
    /// intervals and, after the last, hands over to the chunk fall seeded
    /// with the top full row.
    pub fn update(&mut self, data: &mut GameData, dt: u64) -> (t: StateTransition<GamePhase>)
        requires
            old(self).inv(),
            old(data).wf(),
        ensures
            final(self).inv(),
            final(data).wf(),
            LineClearing::update_post(*old(self), *old(data), dt, *final(self), *final(data), t),
    {
        if self.line_count == 0 {
            let overall_lines = data.lines;
            let score_multiplier = data.score_multiplier();
            let m = score_multiplier as u64;
            let bonus: u64 = if overall_lines <= 100000 {
                let o = overall_lines as u64;
                assert(o * (o + 1) <= 100000 * 100001) by (nonlinear_arith)
                    requires
                        o <= 100000,
                ;
                assert(o * (o + 1) * m <= 100000 * 100001 * 50000000) by (nonlinear_arith)
                    requires
                        o * (o + 1) <= 100000 * 100001,
                        m <= 50000000,
                ;
                o * (o + 1) * m
            } else if m == 0 {
                assert(overall_lines * (overall_lines + 1) * m == 0) by (nonlinear_arith)
                    requires
                        m == 0,
                ;
                0
            } else {
                assert(overall_lines * (overall_lines + 1) * m > 4294967295) by (nonlinear_arith)
                    requires
                        overall_lines > 100000,
                        m >= 1,
                ;
                4294967295
            };
            data.add_score(bonus);
            data.lines = 0;
            data.current_figure = Tetramino::new(data.next_figure);
            data.next_figure = GameData::random_tetramino_index();
            return StateTransition::Pop;
        }
        self.time_passed = self.time_passed.saturating_add(dt);
        if self.time_passed >= BLINK_INTERVAL {
            self.time_passed = self.time_passed - BLINK_INTERVAL;
            if self.iterations < MAX_ITERATIONS {
                self.iterations = self.iterations + 1;
            }
            if self.iterations >= MAX_ITERATIONS {
                return StateTransition::Transition(GamePhase::ChunkFall(ChunkFall::new(self.max_line)));
            }
        }
        StateTransition::Hold
    }

    pub fn exit(&mut self, data: &mut GameData)
        requires
            old(self).inv(),
            old(data).wf(),
        ensures
            final(self).inv(),
            final(data).wf(),
            LineClearing::exited(*old(self), *old(data), *final(self), *final(data)),
    {
        let lines_count = self.line_count;
        let score_multiplier = data.score_multiplier();
        if lines_count != 0 {
            let lines = copy_lines(&self.lines);
            clear_play_table(&mut data.play_table, lines);
            assert(data.play_table@ =~= cleared(old(data).play_table@, self.lines@));
        }
        data.award_lines(lines_count, score_multiplier);
        data.lines = 0;
    }
}

/// The chunks above the cleared rows fall, one row per interval, each
/// until it lands; then the line clearing runs again.
pub struct ChunkFall {
    pub chunks: Vec<Chunk>,
    pub iteration: i32,
    pub fall_time: u64,
    pub begin: usize,
}

impl ChunkFall {
    pub open spec fn inv(&self) -> bool {
        &&& self.begin <= HEIGHT
        &&& 0 <= self.iteration <= HEIGHT
        &&& forall|k: int| 0 <= k < self.chunks@.len() ==> (#[trigger] self.chunks@[k]).wf()
        &&& forall|k: int, p: int|
            0 <= k < self.chunks@.len() && 0 <= p < self.chunks@[k].elements@.len() ==> #[trigger] self.chunks@[k].elements@[p].y
                + self.iteration < HEIGHT
        &&& disjoint_lists(chunk_views(self.chunks@))
    }

    pub open spec fn fresh_at(&self, begin: int) -> bool {
        self.chunks@.len() == 0 && self.iteration == 0 && self.fall_time == 0 && self.begin == begin
    }

    /// What `enter` does: extracts the chunks of the rows above `begin`,
    /// emptying their cells, and starts the fall at distance zero.
    pub open spec fn entered(s: ChunkFall, d: GameData, s2: ChunkFall, d2: GameData) -> bool {
        &&& chunks_of(d.play_table@, d2.play_table@, sub_board_size(HEIGHT - s.begin), chunk_views(s2.chunks@))
        &&& s2.iteration == 0
        &&& s2.fall_time == s.fall_time
        &&& s2.begin == s.begin
        &&& d2 == GameData { play_table: d2.play_table, ..d }
    }

    pub fn new(begin: usize) -> (r: ChunkFall)
        requires
            begin <= HEIGHT,
        ensures
            r.fresh_at(begin as int),
            r.inv(),
    {
        ChunkFall { chunks: Vec::new(), iteration: 0, fall_time: 0, begin }
    }

    pub fn enter(&mut self, data: &mut GameData)
        requires
            old(self).inv(),
            old(data).wf(),
        ensures
            final(self).inv(),
            final(data).wf(),
            ChunkFall::entered(*old(self), *old(data), *final(self), *final(data)),
    {
        self.chunks = find_chunks(&mut data.play_table, HEIGHT - self.begin);
        self.iteration = 0;
        assert forall|k: int, p: int|
            0 <= k < self.chunks@.len() && 0 <= p < self.chunks@[k].elements@.len() implies #[trigger] self.chunks@[k].elements@[p].y
            + self.iteration < HEIGHT by {
            assert(self.chunks@[k].wf());
        }
    }

    /// What `update` does.
    pub open spec fn update_post(s: ChunkFall, d: GameData, dt: u64, s2: ChunkFall, d2: GameData, t: StateTransition<GamePhase>) -> bool {
        &&& s.chunks@.len() == 0 ==> (t matches StateTransition::Transition(GamePhase::LineClearing(lc)) && lc.fresh())
            && s2 == s && d2 == d
        &&& s.chunks@.len() > 0 ==> {
            let ft = accumulate(s.fall_time, dt);
            let iv = shrink(CHUNK_FALL_INTERVAL as nat, d.dificulty as nat);
            &&& t is Hold
            &&& ft < iv ==> s2 == (ChunkFall { fall_time: ft, ..s }) && d2 == d
            &&& ft >= iv ==> {
                &&& (chunk_views(s2.chunks@), d2.play_table@) == settle(
                    chunk_views(s.chunks@),
                    s.iteration as int,
                    d.play_table@,
                )
                &&& s2.iteration == s.iteration + 1
                &&& s2.fall_time == ft - iv
                &&& s2.begin == s.begin
                &&& d2 == (GameData { play_table: d2.play_table, ..d })
            }
        }
    }

    /// With no chunk left: back to the line clearing. Otherwise, once the
    /// accumulated time reaches the interval of the current tier, every
    /// chunk falls one row or lands (see `settle`).
    pub fn update(&mut self, data: &mut GameData, dt: u64) -> (t: StateTransition<GamePhase>)
        requires
            old(self).inv(),
            old(data).wf(),
        ensures
            final(self).inv(),
            final(data).wf(),
            ChunkFall::update_post(*old(self), *old(data), dt, *final(self), *final(data), t),
    {
        if self.chunks.len() == 0 {
            return StateTransition::Transition(GamePhase::LineClearing(LineClearing::new()));
        }
        self.fall_time = self.fall_time.saturating_add(dt);
        let time_interval = scaled_interval(CHUNK_FALL_INTERVAL, data.dificulty);
        if self.fall_time >= time_interval {
            self.fall_time = self.fall_time - time_interval;
            let ghost views = chunk_views(self.chunks@);
            let ghost f = data.play_table@;
            let ghost it0 = self.iteration as int;
            proof {
                assert(self.chunks@[0].wf());
                assert(self.chunks@[0].elements@[0].y + self.iteration < HEIGHT);
                assert forall|k: int, p: int| 0 <= k < views.len() && 0 <= p < views[k].len() implies crate::field::on_board(
                    #[trigger] views[k][p].x as int,
                    views[k][p].y as int,
                ) by {
                    assert(self.chunks@[k].wf());
                }
                crate::chunk::lemma_settle_kept(views, it0, f);
                lemma_settle_disjoint(views, it0, f);
            }
            let mut chunks: Vec<Chunk> = Vec::new();
            std::mem::swap(&mut chunks, &mut self.chunks);
            self.chunks = settle_step(chunks, self.iteration, &mut data.play_table);
            self.iteration = self.iteration + 1;
            assert forall|k: int, p: int|
                0 <= k < self.chunks@.len() && 0 <= p < self.chunks@[k].elements@.len() implies #[trigger] self.chunks@[k].elements@[p].y
                + self.iteration < HEIGHT by {
                assert(chunk_views(self.chunks@)[k] == self.chunks@[k].elements@);
                assert(settle(views, it0, f).0[k][p].y + it0 + 1 < HEIGHT);
            }
        }
        StateTransition::Hold
    }
}

/// The bonus of a cascade's passes at multiplier `m`: `2^(c-1) * m` for each
/// pass that cleared `c` rows.
pub open spec fn pass_bonus(counts: Seq<nat>, m: nat) -> nat
    decreases counts.len(),
{
    if counts.len() == 0 {
        0
    } else {
        pass_bonus(counts.drop_last(), m) + pow2((counts.last() - 1) as nat) * m
    }
}

/// The rows cleared over a cascade's passes.
pub open spec fn count_sum(counts: Seq<nat>) -> nat
    decreases counts.len(),
{
    if counts.len() == 0 {
        0
    } else {
        count_sum(counts.drop_last()) + counts.last()
    }
}

/// The whole clearing cascade at once: while the board has full rows,
/// clears them, lets the blocks above the bottom one fall as chunks, and
/// awards `2^(c-1)` times the multiplier for the `c` rows of the pass; then
/// awards `L * (L + 1)` times the multiplier for all `L` cleared rows. The
/// multiplier is that of the tier at the start. It ends with no full row;
/// each pass empties at least a row's cells and the fall of the chunks never
/// fills more than it emptied, so it does end.
pub fn score(data: &mut GameData)
    requires
        old(data).wf(),
    ensures
        final(data).wf(),
        forall|row: int| 0 <= row < HEIGHT ==> !row_full(final(data).play_table@, row),
        exists|counts: Seq<nat>|
            #![trigger count_sum(counts)]
            (forall|k: int| 0 <= k < counts.len() ==> 1 <= #[trigger] counts[k] <= HEIGHT) && (counts.len() > 0 <==> exists|row: int|
                0 <= row < HEIGHT && row_full(old(data).play_table@, row)) && (counts.len() == 0 ==> final(data).play_table
                == old(data).play_table) && final(data).score == raised(
                old(data).score as int,
                (pass_bonus(counts, tier_multiplier(old(data).dificulty as nat)) + count_sum(counts) * (count_sum(counts) + 1)
                    * tier_multiplier(old(data).dificulty as nat)) as int,
            ),
        *final(data) == (GameData {
            play_table: final(data).play_table,
            score: final(data).score,
            dificulty: final(data).dificulty,
            ..*old(data)
        }),
{
    let ghost d0 = *data;
    let ghost m = tier_multiplier(d0.dificulty as nat);
    let score_multiplier = data.score_multiplier();
    let multiplier = score_multiplier as u64;
    let mut lines_count: usize = 0;
    let ghost mut counts: Seq<nat> = Seq::empty();
    proof {
        crate::field::lemma_count_empty_bound(data.play_table@);
    }
    loop
        invariant
            data.wf(),
            multiplier == m,
            m <= 50000000,
            forall|k: int| 0 <= k < counts.len() ==> 1 <= #[trigger] counts[k] <= HEIGHT,
            lines_count == count_sum(counts),
            lines_count <= counts.len() * HEIGHT,
            counts.len() + count_empty(d0.play_table@) <= count_empty(data.play_table@),
            count_empty(data.play_table@) <= FIELD_SIZE,
            counts.len() == 0 ==> data.play_table == d0.play_table,
            counts.len() > 0 ==> exists|row: int| 0 <= row < HEIGHT && row_full(d0.play_table@, row),
            data.score == raised(d0.score as int, pass_bonus(counts, m) as int),
            *data == (GameData { play_table: data.play_table, score: data.score, dificulty: data.dificulty, ..d0 }),
        ensures
            forall|row: int| 0 <= row < HEIGHT ==> !row_full(data.play_table@, row),
        decreases FIELD_SIZE - count_empty(data.play_table@),
    {
        let lines = find_filled_lines(&data.play_table);
        let count = lines.len();
        if count == 0 {
            break;
        }
        let chunk_begin = lines[count - 1];
        let ghost top = lines@[0] as int;
        let ghost before = data.play_table@;
        proof {
            if counts.len() == 0 {
                assert(row_full(d0.play_table@, top));
            }
        }
        lines_count = lines_count + count;
        let ghost listed = lines@;
        clear_play_table(&mut data.play_table, lines);
        proof {
            let k = cell_index(0, top);
            assert(crate::field::is_block(before[k]));
            assert(listed.contains((k / WIDTH as int) as usize)) by {
                assert(listed[0] as int == top);
            }
            crate::field::lemma_count_empty_more(before, data.play_table@, k);
        }
        land_flying_chunks(&mut data.play_table, chunk_begin);
        proof {
            crate::field::lemma_count_empty_bound(data.play_table@);
        }
        let p = power_of_two(count - 1);
        assert(p * multiplier <= 524288 * 50000000) by (nonlinear_arith)
            requires
                p <= 524288,
                multiplier <= 50000000,
        ;
        data.add_score(p * multiplier);
        proof {
            let old_counts = counts;
            counts = counts.push(count as nat);
            assert(counts.drop_last() =~= old_counts);
        }
    }
    assert(lines_count <= 4000) by (nonlinear_arith)
        requires
            lines_count <= counts.len() * 20,
            counts.len() <= 200,
    ;
    assert(lines_count * (lines_count + 1) <= 4000 * 4001) by (nonlinear_arith)
        requires
            lines_count <= 4000,
    ;
    assert(lines_count * (lines_count + 1) * multiplier <= 4000 * 4001 * 50000000) by (nonlinear_arith)
        requires
            lines_count * (lines_count + 1) <= 4000 * 4001,
            multiplier <= 50000000,
    ;
    let l = lines_count as u64;
    data.add_score(l * (l + 1) * multiplier);
    assert(l * (l + 1) * multiplier == count_sum(counts) * (count_sum(counts) + 1) * m);
}

/// The phases of play, on the play state's own stack.
pub enum GamePhase {
    Falling(FallingState),
    FastFall(FastFallingState),
    LineClearing(LineClearing),
    ChunkFall(ChunkFall),
}

impl State for GamePhase {
    open spec fn inv(&self) -> bool {
        match self {
            GamePhase::Falling(s) => s.inv(),
            GamePhase::FastFall(_) => true,
            GamePhase::LineClearing(s) => s.inv(),
            GamePhase::ChunkFall(s) => s.inv(),
        }
    }

    open spec fn entered(self, data: GameData, s2: Self, d2: GameData) -> bool {
        match self {
            GamePhase::LineClearing(s) => s2 matches GamePhase::LineClearing(t) && LineClearing::entered(s, data, t, d2),
            GamePhase::ChunkFall(s) => s2 matches GamePhase::ChunkFall(t) && ChunkFall::entered(s, data, t, d2),
            _ => s2 == self && d2 == data,
        }
    }

    open spec fn exited(self, data: GameData, s2: Self, d2: GameData) -> bool {
        match self {
            GamePhase::LineClearing(s) => s2 matches GamePhase::LineClearing(t) && LineClearing::exited(s, data, t, d2),
            _ => s2 == self && d2 == data,
        }
    }

    open spec fn resumed(self, data: GameData, s2: Self, d2: GameData) -> bool {
        match self {
            GamePhase::Falling(s) => s2 == GamePhase::Falling(
                FallingState { horizontal_movement: 0, right_stroke: false, left_stroke: false, ..s },
            ) && d2 == data,
            _ => s2 == self && d2 == data,
        }
    }

    open spec fn updated(self, data: GameData, dt: u64, s2: Self, d2: GameData, t: StateTransition<Self>) -> bool {
        match self {
            GamePhase::Falling(s) => s2 matches GamePhase::Falling(u) && FallingState::update_post(s, data, dt, u, d2, t),
            GamePhase::FastFall(s) => s2 matches GamePhase::FastFall(u) && FastFallingState::drop_post(s, data, dt, u, d2, t),
            GamePhase::LineClearing(s) => s2 matches GamePhase::LineClearing(u) && LineClearing::update_post(
                s,
                data,
                dt,
                u,
                d2,
                t,
            ),
            GamePhase::ChunkFall(s) => s2 matches GamePhase::ChunkFall(u) && ChunkFall::update_post(s, data, dt, u, d2, t),
        }
    }

    open spec fn handled(self, data: GameData, event: InputEvent, s2: Self, d2: GameData) -> bool {
        match self {
            GamePhase::Falling(s) => s2 matches GamePhase::Falling(u) && FallingState::input_post(s, event, u) && d2 == data,
            _ => s2 == self && d2 == data,
        }
    }

    fn update(&mut self, data: &mut GameData, dt: u64) -> (t: StateTransition<GamePhase>) {
        match self {
            GamePhase::Falling(s) => s.update(data, dt),
            GamePhase::FastFall(s) => s.handle_fall(dt, data),
            GamePhase::LineClearing(s) => s.update(data, dt),
            GamePhase::ChunkFall(s) => s.update(data, dt),
        }
    }

    fn handle_input(&mut self, event: InputEvent, data: &mut GameData) {
        match self {
            GamePhase::Falling(s) => s.handle_input(event),
            _ => {},
        }
    }

    fn enter(&mut self, data: &mut GameData) {
        match self {
            GamePhase::LineClearing(s) => s.enter(data),
            GamePhase::ChunkFall(s) => s.enter(data),
            _ => {},
        }
    }

    fn exit(&mut self, data: &mut GameData) {
        match self {
            GamePhase::LineClearing(s) => s.exit(data),
            _ => {},
        }
    }

    fn resume(&mut self, data: &mut GameData) {
        match self {
            GamePhase::Falling(s) => s.resume(),
            _ => {},
        }
    }
}

} // verus!
