//! A game session: the playfield, the falling piece and the one after it,
//! the sideways-movement timing and the score, driven by a clock that the
//! caller supplies. Time is counted in microseconds since the session began.

use crate::das::{ACTIVATION_DELAY, DAS, NEW_PIECE_GRACE, REPEAT_PERIOD};
use crate::grid::{
    full_rows, row_cleared, row_collapsed, Grid, GRID_COLS, GRID_ROWS, MAX_FULL_ROWS,
};
use crate::shapes::{is_table_shape, lemma_table_shapes_valid, Blocks, ROTATIONS};
use crate::tetromino::{spawn_column, Point, Tetromino};
use vstd::prelude::*;

verus! {

/// The numbers a session is tuned by.
#[derive(Clone, Copy, Debug, PartialEq, Eq)]
pub struct Config {
    /// Base of the time between two gravity steps, in microseconds.
    /// Default 60000.
    pub fall_delay: u32,
    /// Divider of the level in normal fall, in tenths. Default 80, that is
    /// 8.0: at level 1 a gravity step is due after 480000 microseconds.
    pub normal_divider_tenths: u32,
    /// Divider of the level while fast drop is on, in tenths. Default 3,
    /// that is 0.3: at level 1 a gravity step is due after 18000
    /// microseconds.
    pub fast_divider_tenths: u32,
    /// Time between two ticks of the sideways-movement timing, in
    /// microseconds. Default 5000.
    pub das_update_delay: u32,
    /// Ticks a direction is held before auto-repeat starts. Default 37.
    pub activation_delay: i32,
    /// Ticks between two auto-repeated moves. Default 8.
    pub repeat_period: i32,
    /// Gravity steps after a spawn in which the charge of a held direction
    /// is kept. Default 5.
    pub new_piece_grace: u8,
}

impl Config {
    /// Whether the periods can be counted down: none is negative, and the
    /// grace fits its counter.
    pub open spec fn valid(self) -> bool {
        &&& 0 <= self.activation_delay
        &&& 0 <= self.repeat_period
        &&& self.new_piece_grace <= i8::MAX
    }

    /// The default configuration.
    pub open spec fn defaults() -> Config {
        Config {
            fall_delay: 60000,
            normal_divider_tenths: 80,
            fast_divider_tenths: 3,
            das_update_delay: 5000,
            activation_delay: ACTIVATION_DELAY,
            repeat_period: REPEAT_PERIOD,
            new_piece_grace: NEW_PIECE_GRACE,
        }
    }
}

impl Default for Config {
    fn default() -> (config: Config)
        ensures
            config == Config::defaults(),
            config.valid(),
    {
        Config {
            fall_delay: 60000,
            normal_divider_tenths: 80,
            fast_divider_tenths: 3,
            das_update_delay: 5000,
            activation_delay: ACTIVATION_DELAY,
            repeat_period: REPEAT_PERIOD,
            new_piece_grace: NEW_PIECE_GRACE,
        }
    }
}

/// What one gravity step did.
#[derive(Clone, Copy, Debug, PartialEq, Eq)]
pub struct FallReport {
    /// The piece was locked into the grid and a new one spawned.
    pub locked: bool,
    /// Number of rows cleared after the step.
    pub cleared: usize,
    /// The grid held more full rows than one step clears. The rows beyond
    /// the limit are still in the grid.
    pub overflow: bool,
}

/// The state of a session.
#[derive(Clone, Copy, Debug, PartialEq, Eq)]
pub struct Game {
    pub grid: Grid,
    /// The falling piece.
    pub tetr: Tetromino,
    /// The piece that falls next; only its shape is used.
    pub next_tetr: Tetromino,
    pub das: DAS,
    pub level: u16,
    /// Rows cleared so far.
    pub lines: u16,
    pub config: Config,
    /// The divider in use, in tenths: the normal one, or the fast one while
    /// fast drop is on.
    pub fall_divider_tenths: u32,
    /// The fast-drop control is held.
    pub pressed_down: bool,
    /// The left control is held.
    pub left_pressed: bool,
    /// The right control is held.
    pub right_pressed: bool,
    /// Microseconds since the last tick of the sideways-movement timing.
    pub das_elapsed: u64,
    /// Microseconds since the last gravity step.
    pub fall_elapsed: u64,
    /// The whole screen is to be drawn again.
    pub need_redraw_all: bool,
}

/// A session as a value: the grid as the set of its occupied cells, and the
/// other fields as they are.
#[verifier::ext_equal]
pub struct GameView {
    pub cells: Set<(int, int)>,
    pub tetr: Tetromino,
    pub next_tetr: Tetromino,
    pub das: DAS,
    pub level: u16,
    pub lines: u16,
    pub config: Config,
    pub fall_divider_tenths: u32,
    pub pressed_down: bool,
    pub left_pressed: bool,
    pub right_pressed: bool,
    pub das_elapsed: u64,
    pub fall_elapsed: u64,
    pub need_redraw_all: bool,
}

/// The level after a row is cleared, `lines` counting that row: the level
/// goes up by one when the count is even and its half has reached the level.
pub open spec fn level_after(level: int, lines: int) -> int {
    if lines / 2 >= level && lines % 2 == 0 {
        level + 1
    } else {
        level
    }
}

/// A piece of shape `blocks` as it spawns.
pub open spec fn spawned_piece(blocks: Blocks) -> Tetromino {
    Tetromino { pos: Point { x: spawn_column() as i32, y: 0 }, blocks: blocks, rotation: 0 }
}

impl GameView {
    /// What holds of every session: the falling piece is well formed, has a
    /// shape of the table, and is on the playfield and not above it, the
    /// next piece is a spawned piece of a shape of the table, the timing
    /// state is well formed, and the level is at least 1 and no more than
    /// the cleared rows account for.
    pub open spec fn wf(self) -> bool {
        &&& self.tetr.wf()
        &&& is_table_shape(self.tetr.blocks)
        &&& self.tetr.in_bounds()
        &&& 0 <= self.tetr.pos.y
        &&& self.next_tetr.is_spawned()
        &&& self.das.wf()
        &&& 1 <= self.level <= self.lines / 2 + 1
    }

    /// Microseconds between two gravity steps: the base delay divided by the
    /// quotient of the level and the divider.
    pub open spec fn fall_delay(self) -> int {
        (self.config.fall_delay * self.fall_divider_tenths) / (self.level * 10)
    }

    /// The session after `row` is emptied and counted: one more line, and
    /// the level that the new count gives.
    pub open spec fn with_row_cleared(self, row: int) -> GameView {
        GameView {
            cells: row_cleared(self.cells, row),
            lines: (self.lines + 1) as u16,
            level: level_after(self.level as int, self.lines + 1) as u16,
            ..self
        }
    }

    /// The session after `row` is emptied, counted, and covered by the rows
    /// above it.
    pub open spec fn with_row_collapsed(self, row: int) -> GameView {
        GameView { cells: row_collapsed(self.cells, row), ..self.with_row_cleared(row) }
    }

    /// The session after the first `n` rows of `rows` are collapsed, one
    /// after the other, in the order listed.
    pub open spec fn with_rows_collapsed(self, rows: Seq<int>, n: int) -> GameView
        decreases n,
    {
        if n <= 0 {
            self
        } else {
            self.with_rows_collapsed(rows, n - 1).with_row_collapsed(rows[n - 1])
        }
    }

    /// The full rows of the grid, from the top down.
    pub open spec fn full_rows(self) -> Seq<int> {
        full_rows(self.cells, GRID_ROWS as int)
    }

    /// Number of rows that one pass clears: the full rows, but no more than
    /// `MAX_FULL_ROWS`.
    pub open spec fn clear_count(self) -> int {
        if self.full_rows().len() <= MAX_FULL_ROWS {
            self.full_rows().len() as int
        } else {
            MAX_FULL_ROWS as int
        }
    }

    /// The session after one pass over the full rows: the topmost
    /// `clear_count` of them are collapsed, from the top down.
    pub open spec fn with_full_rows_cleared(self) -> GameView {
        self.with_rows_collapsed(self.full_rows(), self.clear_count())
    }

    /// The session after one tick of the sideways-movement timing: the
    /// controller ticks, and if a move is due the piece tries it. A move
    /// that was made is no longer due; one that was blocked stays due.
    pub open spec fn das_stepped(self) -> GameView {
        let das = self.das.ticked();
        if !das.need_move {
            GameView { das: das, ..self }
        } else if self.tetr.fits(self.cells, self.tetr.rotation as int, das.side as int, 0) {
            GameView {
                das: DAS { moved: true, need_move: false, ..das },
                tetr: Tetromino {
                    pos: Point { x: (self.tetr.pos.x + das.side) as i32, y: self.tetr.pos.y },
                    ..self.tetr
                },
                ..self
            }
        } else {
            GameView { das: DAS { moved: false, ..das }, ..self }
        }
    }

    /// Whether the falling piece can go one row down.
    pub open spec fn can_fall(self) -> bool {
        self.tetr.fits(self.cells, self.tetr.rotation as int, 0, 1)
    }

    /// The session after the falling piece is locked, before any row is
    /// cleared: the piece is stamped into the grid, the next piece takes its
    /// place, a piece of shape `upcoming` becomes the next one, the
    /// sideways-movement timing is told of the spawn, fast drop ends, and the
    /// screen is to be drawn again.
    pub open spec fn locked(self, upcoming: Blocks) -> GameView {
        GameView {
            cells: self.cells.union(self.tetr@),
            tetr: spawned_piece(self.next_tetr.blocks),
            next_tetr: spawned_piece(upcoming),
            das: self.das.spawned(),
            fall_divider_tenths: self.config.normal_divider_tenths,
            need_redraw_all: true,
            ..self
        }
    }

    /// The session after one gravity step. A piece that can fall goes one
    /// row down, and the grace of the sideways-movement timing advances. A
    /// piece that cannot is locked, and then the full rows are cleared.
    pub open spec fn fall_stepped(self, upcoming: Blocks) -> GameView {
        if self.can_fall() {
            GameView {
                tetr: Tetromino {
                    pos: Point { x: self.tetr.pos.x, y: (self.tetr.pos.y + 1) as i32 },
                    ..self.tetr
                },
                das: self.das.fallen(),
                ..self
            }
        } else {
            self.locked(upcoming).with_full_rows_cleared()
        }
    }

    /// What a gravity step reports: whether the piece was locked, and if so
    /// how many rows were cleared and whether full rows were left over.
    pub open spec fn fall_report(self, upcoming: Blocks) -> FallReport {
        if self.can_fall() {
            FallReport { locked: false, cleared: 0, overflow: false }
        } else {
            FallReport {
                locked: true,
                cleared: self.locked(upcoming).clear_count() as usize,
                overflow: self.locked(upcoming).full_rows().len() > MAX_FULL_ROWS,
            }
        }
    }

    /// Whether a tick of the sideways-movement timing is due once `elapsed`
    /// more microseconds have passed: more than the tick interval has then
    /// passed since the last tick.
    pub open spec fn das_due(self, elapsed: u64) -> bool {
        self.das_elapsed + elapsed > self.config.das_update_delay
    }

    /// Whether a gravity step is due once `elapsed` more microseconds have
    /// passed: more than the fall delay has then passed since the last step.
    pub open spec fn fall_due(self, elapsed: u64) -> bool {
        self.fall_elapsed + elapsed > self.fall_delay()
    }

    /// The session after `elapsed` microseconds as far as the sideways
    /// movement goes: its tick is made if it is due, and the time since the
    /// last tick starts again; else that time grows by `elapsed`.
    pub open spec fn das_advanced(self, elapsed: u64) -> GameView {
        if self.das_due(elapsed) {
            GameView { das_elapsed: 0, ..self.das_stepped() }
        } else {
            GameView { das_elapsed: (self.das_elapsed + elapsed) as u64, ..self }
        }
    }

    /// The session after `elapsed` microseconds: first the sideways
    /// movement, if its tick is due, then gravity, if its step is due.
    /// `upcoming` is the shape of the next piece should one be needed.
    pub open spec fn advanced(self, elapsed: u64, upcoming: Blocks) -> GameView {
        let moved = self.das_advanced(elapsed);
        if self.fall_due(elapsed) {
            (GameView { fall_elapsed: 0, ..moved }).fall_stepped(upcoming)
        } else {
            GameView { fall_elapsed: (self.fall_elapsed + elapsed) as u64, ..moved }
        }
    }

    /// Collapsing rows changes the cells and the score and nothing else:
    /// each row adds one line, the level never goes down, and a session that
    /// was well formed stays so.
    pub proof fn lemma_rows_collapsed(self, rows: Seq<int>, n: int)
        requires
            0 <= n,
            self.lines + n <= u16::MAX,
            1 <= self.level <= self.lines / 2 + 1,
        ensures
            self.with_rows_collapsed(rows, n) == (GameView {
                cells: self.with_rows_collapsed(rows, n).cells,
                lines: (self.lines + n) as u16,
                level: self.with_rows_collapsed(rows, n).level,
                ..self
            }),
            self.level <= self.with_rows_collapsed(rows, n).level <= (self.lines + n) / 2 + 1,
            self.wf() ==> self.with_rows_collapsed(rows, n).wf(),
        decreases n,
    {
        if n > 0 {
            self.lemma_rows_collapsed(rows, n - 1);
        }
    }

    /// The session after direction `dir` is pressed. A press while no
    /// direction is held asks for a move at once.
    pub open spec fn direction_pressed(self, dir: i8) -> GameView {
        let held = if dir == -1 {
            self.left_pressed
        } else {
            self.right_pressed
        };
        if dir != -1 && dir != 1 {
            self
        } else {
            let asked = DAS { need_move: self.das.need_move || !self.das.moving, ..self.das };
            let das = if held {
                asked
            } else {
                asked.pressed(dir)
            };
            GameView {
                das: das,
                left_pressed: self.left_pressed || dir == -1,
                right_pressed: self.right_pressed || dir == 1,
                ..self
            }
        }
    }

    /// The session after direction `dir` is released.
    pub open spec fn direction_released(self, dir: i8) -> GameView {
        if dir != -1 && dir != 1 {
            self
        } else {
            GameView {
                das: self.das.released(),
                left_pressed: self.left_pressed && dir != -1,
                right_pressed: self.right_pressed && dir != 1,
                ..self
            }
        }
    }

    /// The session after the fast-drop control is pressed.
    pub open spec fn fast_drop_pressed(self) -> GameView {
        if self.pressed_down {
            self
        } else {
            GameView {
                fall_divider_tenths: self.config.fast_divider_tenths,
                pressed_down: true,
                ..self
            }
        }
    }

    /// The session after the fast-drop control is released.
    pub open spec fn fast_drop_released(self) -> GameView {
        GameView {
            fall_divider_tenths: self.config.normal_divider_tenths,
            pressed_down: false,
            ..self
        }
    }
}

impl View for Game {
    type V = GameView;

    open spec fn view(&self) -> GameView {
        GameView {
            cells: self.grid@,
            tetr: self.tetr,
            next_tetr: self.next_tetr,
            das: self.das,
            level: self.level,
            lines: self.lines,
            config: self.config,
            fall_divider_tenths: self.fall_divider_tenths,
            pressed_down: self.pressed_down,
            left_pressed: self.left_pressed,
            right_pressed: self.right_pressed,
            das_elapsed: self.das_elapsed,
            fall_elapsed: self.fall_elapsed,
            need_redraw_all: self.need_redraw_all,
        }
    }
}

impl Game {
    /// A new session with the default configuration.
    pub fn new() -> (game: Game)
        ensures
            game@.wf(),
            is_table_shape(game.tetr.blocks),
            is_table_shape(game.next_tetr.blocks),
            game@ == Game::initial(Config::defaults(), game.tetr.blocks, game.next_tetr.blocks),
    {
        Game::with_config(Config::default())
    }

    /// The first state of a session tuned by `config`, with a falling piece
    /// of shape `first` and a next piece of shape `second`.
    pub open spec fn initial(config: Config, first: Blocks, second: Blocks) -> GameView {
        GameView {
            cells: Set::empty(),
            tetr: spawned_piece(first),
            next_tetr: spawned_piece(second),
            das: DAS {
                ticks_to_activate: config.activation_delay,
                ticks_left_to_activate: config.activation_delay,
                ticks_to_move: config.repeat_period,
                ticks_left_to_move: config.repeat_period,
                new_tetromino_falls: config.new_piece_grace,
                active: false,
                activating: false,
                moving: false,
                moved: false,
                need_move: false,
                side: 0,
                new_tetromino: false,
                new_tetromino_falls_left: 0,
            },
            level: 1,
            lines: 0,
            config: config,
            fall_divider_tenths: config.normal_divider_tenths,
            pressed_down: false,
            left_pressed: false,
            right_pressed: false,
            das_elapsed: 0,
            fall_elapsed: 0,
            need_redraw_all: true,
        }
    }

    /// A new session tuned by `config`: an empty grid, two pieces of random
    /// shapes, level 1 and no row cleared.
    pub fn with_config(config: Config) -> (game: Game)
        requires
            config.valid(),
        ensures
            game@.wf(),
            is_table_shape(game.tetr.blocks),
            is_table_shape(game.next_tetr.blocks),
            game@ == Game::initial(config, game.tetr.blocks, game.next_tetr.blocks),
    {
        let mut das = DAS::new();
        das.ticks_to_activate = config.activation_delay;
        das.ticks_left_to_activate = config.activation_delay;
        das.ticks_to_move = config.repeat_period;
        das.ticks_left_to_move = config.repeat_period;
        das.new_tetromino_falls = config.new_piece_grace;
        Game {
            grid: Grid::new(),
            tetr: Tetromino::new(),
            next_tetr: Tetromino::new(),
            das,
            level: 1,
            lines: 0,
            config,
            fall_divider_tenths: config.normal_divider_tenths,
            pressed_down: false,
            left_pressed: false,
            right_pressed: false,
            das_elapsed: 0,
            fall_elapsed: 0,
            need_redraw_all: true,
        }
    }

    /// Whether the session is well formed. The steps of a session keep it so;
    /// a caller that has written to the fields can test it here before the
    /// next step.
    pub fn is_valid(&self) -> (valid: bool)
        ensures
            valid == self@.wf(),
    {
        proof {
            if is_table_shape(self.tetr.blocks) {
                lemma_table_shapes_valid(self.tetr.blocks);
            }
        }
        self.tetr.rotation < ROTATIONS && self.tetr.has_table_shape() && self.tetr.is_in_bounds()
            && 0 <= self.tetr.pos.y && self.next_tetr.rotation == 0 && self.next_tetr.pos.x == (
        GRID_COLS / 2 - 1) as i32 && self.next_tetr.pos.y == 0 && self.next_tetr.has_table_shape()
            && self.das.is_wf() && 1 <= self.level && self.level <= self.lines / 2 + 1
    }

    /// Microseconds between two gravity steps at the current level and
    /// divider.
    pub fn fall_delay(&self) -> (delay: u64)
        requires
            self.level >= 1,
        ensures
            delay == self@.fall_delay(),
            delay < u64::MAX,
    {
        let base = self.config.fall_delay as u64;
        let divider = self.fall_divider_tenths as u64;
        assert(base * divider <= 0xffff_ffff * 0xffff_ffff) by (nonlinear_arith)
            requires
                base <= 0xffff_ffff,
                divider <= 0xffff_ffff,
        ;
        (base * divider) / (self.level as u64 * 10)
    }

    /// Empties `row` and counts it: the number of cleared rows goes up by
    /// one, and the level goes up by one when the new number is even and its
    /// half has reached the level.
    pub fn clear_row(&mut self, row: usize)
        requires
            row < GRID_ROWS,
            old(self).lines < u16::MAX,
            old(self).level < u16::MAX,
        ensures
            final(self)@ == old(self)@.with_row_cleared(row as int),
    {
        self.grid.clear_row(row);
        self.lines += 1;
        if self.lines / 2 >= self.level && self.lines % 2 == 0 {
            self.level += 1;
        }
    }

    /// Scans the grid for full rows and clears each one found, from the top
    /// down: the row is emptied and counted, and the rows above it are
    /// lowered onto it. One pass clears at most `MAX_FULL_ROWS` rows.
    /// Returns how many rows were cleared, and whether full rows were left
    /// over.
    pub fn clear_full_rows(&mut self) -> (done: (usize, bool))
        requires
            old(self).lines + MAX_FULL_ROWS <= u16::MAX,
            old(self).level + MAX_FULL_ROWS <= u16::MAX,
        ensures
            final(self)@ == old(self)@.with_full_rows_cleared(),
            done.0 == old(self)@.clear_count(),
            done.1 == (old(self)@.full_rows().len() > MAX_FULL_ROWS),
    {
        let found = self.grid.check_rows();
        let ghost start = self@;
        let ghost full = start.full_rows();
        let mut i: usize = 0;
        while i < found.rows.len()
            invariant
                i <= found.rows@.len() <= MAX_FULL_ROWS,
                forall|j: int| 0 <= j < found.rows@.len() ==> #[trigger] found.rows@[j] < GRID_ROWS,
                forall|j: int|
                    0 <= j < found.rows@.len() ==> #[trigger] found.rows@[j] as int == full[j],
                self@ == start.with_rows_collapsed(full, i as int),
                self.lines <= start.lines + i,
                self.level <= start.level + i,
                start.lines + MAX_FULL_ROWS <= u16::MAX,
                start.level + MAX_FULL_ROWS <= u16::MAX,
            decreases found.rows@.len() - i,
        {
            let row = found.rows[i];
            self.clear_row(row);
            self.grid.lower_above(row);
            i += 1;
        }
        (found.rows.len(), found.overflow)
    }

    /// One tick of the sideways-movement timing: the controller ticks, and
    /// if it asks for a move the piece tries it. The request is dropped only
    /// when the move was made; a blocked move is tried again at the next
    /// tick.
    pub fn das_step(&mut self)
        requires
            old(self)@.wf(),
        ensures
            final(self)@ == old(self)@.das_stepped(),
            final(self)@.wf(),
    {
        self.das.tick();
        if self.das.need_move {
            self.das.moved = self.tetr.move_tetromino(&mut self.grid, self.das.side);
            if self.das.moved {
                self.das.need_move = false;
            }
        }
    }

    /// One gravity step. The piece falls by a row, or is locked: then the
    /// next piece takes its place, a piece of a random shape becomes the
    /// next one, the sideways-movement timing is told of the spawn, and the
    /// full rows are cleared.
    pub fn fall_step(&mut self) -> (report: FallReport)
        requires
            old(self)@.wf(),
            old(self).lines + MAX_FULL_ROWS <= u16::MAX,
        ensures
            final(self)@ == old(self)@.fall_stepped(final(self).next_tetr.blocks),
            report == old(self)@.fall_report(final(self).next_tetr.blocks),
            is_table_shape(final(self).next_tetr.blocks),
            final(self)@.wf(),
    {
        if self.tetr.fall(&mut self.grid) {
            self.das.new_tetromino();
            self.fall_divider_tenths = self.config.normal_divider_tenths;
            self.need_redraw_all = true;
            self.tetr.blocks = self.next_tetr.blocks;
            self.next_tetr.reset();
            proof {
                self.tetr.lemma_spawned_wf();
                let locked = self@;
                assert(locked == old(self)@.locked(self.next_tetr.blocks));
                locked.lemma_rows_collapsed(locked.full_rows(), locked.clear_count());
            }
            let (cleared, overflow) = self.clear_full_rows();
            FallReport { locked: true, cleared, overflow }
        } else {
            self.das.fall();
            FallReport { locked: false, cleared: 0, overflow: false }
        }
    }

    /// Lets `elapsed` microseconds pass. A tick of the sideways-movement
    /// timing is made if more than the tick interval has passed since the
    /// last one, and then a gravity step if more than the fall delay has
    /// passed since the last one. Returns what the gravity step did, if there
    /// was one.
    pub fn advance(&mut self, elapsed: u64) -> (report: Option<FallReport>)
        requires
            old(self)@.wf(),
            old(self).lines + MAX_FULL_ROWS <= u16::MAX,
        ensures
            final(self)@ == old(self)@.advanced(elapsed, final(self).next_tetr.blocks),
            report == if old(self)@.fall_due(elapsed) {
                Some(
                    (GameView { fall_elapsed: 0, ..old(self)@.das_advanced(elapsed) }).fall_report(
                        final(self).next_tetr.blocks,
                    ),
                )
            } else {
                None
            },
            is_table_shape(final(self).next_tetr.blocks),
            final(self)@.wf(),
    {
        let fall_delay = self.fall_delay();
        self.das_elapsed = self.das_elapsed.saturating_add(elapsed);
        self.fall_elapsed = self.fall_elapsed.saturating_add(elapsed);
        if self.das_elapsed > self.config.das_update_delay as u64 {
            self.das_step();
            self.das_elapsed = 0;
        }
        if self.fall_elapsed > fall_delay {
            self.fall_elapsed = 0;
            Some(self.fall_step())
        } else {
            None
        }
    }

    /// Takes the press of a direction control: -1 is left, 1 is right, any
    /// other value is ignored. A press while no direction is held asks for a
    /// move at once; a control that was not held before also starts the
    /// sideways-movement timing in its direction.
    pub fn direction_pressed(&mut self, dir: i8)
        ensures
            final(self)@ == old(self)@.direction_pressed(dir),            old(self)@.wf() ==> final(self)@.wf(),
    {
        if dir == -1 {
            if !self.das.moving {
                self.das.need_move = true;
            }
            if !self.left_pressed {
                self.das.start_moving(-1);
            }
            self.left_pressed = true;
        } else if dir == 1 {
            if !self.das.moving {
                self.das.need_move = true;
            }
            if !self.right_pressed {
                self.das.start_moving(1);
            }
            self.right_pressed = true;
        }
    }

    /// Takes the release of a direction control: -1 is left, 1 is right, any
    /// other value is ignored. The sideways-movement timing stops.
    pub fn direction_released(&mut self, dir: i8)
        ensures
            final(self)@ == old(self)@.direction_released(dir),            old(self)@.wf() ==> final(self)@.wf(),
    {
        if dir == -1 {
            self.das.stop_moving();
            self.left_pressed = false;
        } else if dir == 1 {
            self.das.stop_moving();
            self.right_pressed = false;
        }
    }

    /// Turns the falling piece by `dir` (-1 or 1) if it has room.
    pub fn rotate(&mut self, dir: i8)
        requires
            old(self).tetr.wf(),
        ensures
            final(self)@ == (GameView { tetr: final(self).tetr, ..old(self)@ }),
            final(self).tetr.pos == old(self).tetr.pos,
            final(self).tetr.blocks == old(self).tetr.blocks,
            final(self).tetr.rotation == if old(self).tetr.fits(
                old(self).grid@,
                old(self).tetr.turned(dir as int),
                0,
                0,
            ) {
                old(self).tetr.turned(dir as int)
            } else {
                old(self).tetr.rotation as int
            },
            old(self)@.wf() ==> final(self)@.wf(),
    {
        self.tetr.rotate(&self.grid, dir);
    }

    /// Takes the press of the fast-drop control: gravity switches to the
    /// fast divider until the control is released or a piece is locked.
    pub fn fast_drop_pressed(&mut self)
        ensures
            final(self)@ == old(self)@.fast_drop_pressed(),            old(self)@.wf() ==> final(self)@.wf(),
    {
        if !self.pressed_down {
            self.fall_divider_tenths = self.config.fast_divider_tenths;
            self.pressed_down = true;
        }
    }

    /// Takes the release of the fast-drop control: gravity switches back to
    /// the normal divider.
    pub fn fast_drop_released(&mut self)
        ensures
            final(self)@ == old(self)@.fast_drop_released(),            old(self)@.wf() ==> final(self)@.wf(),
    {
        self.fall_divider_tenths = self.config.normal_divider_tenths;
        self.pressed_down = false;
    }
}

} // verus!
