//! Delayed auto shift: the timing of sideways movement while a direction is
//! held. A press starts an activation delay; once it has run out, the
//! controller asks for a move each time a shorter repeat period runs out.
//! For a few gravity steps after a new piece has spawned the charge of a held
//! direction is kept; if no direction is held when they are over, it is lost.
//!
//! All waiting is counted in ticks. The defaults are an activation delay of
//! 37 ticks, a repeat period of 8 ticks and a grace of 5 gravity steps.

use vstd::prelude::*;

verus! {

/// Default number of ticks a direction is held before auto-repeat starts.
pub const ACTIVATION_DELAY: i32 = 37;

/// Default number of ticks between two auto-repeated moves.
pub const REPEAT_PERIOD: i32 = 8;

/// Default number of gravity steps after a spawn in which the charge is kept.
pub const NEW_PIECE_GRACE: u8 = 5;

/// The state of the controller.
#[allow(non_camel_case_types)]
#[derive(Clone, Copy, Debug, PartialEq, Eq)]
pub struct DAS {
    /// The activation delay has run out: auto-repeat is charged.
    pub active: bool,
    /// The activation delay is running.
    pub activating: bool,
    /// A direction is held.
    pub moving: bool,
    /// Whether the last requested move was made.
    pub moved: bool,
    /// The activation delay, in ticks.
    pub ticks_to_activate: i32,
    /// Ticks left of the activation delay.
    pub ticks_left_to_activate: i32,
    /// The repeat period, in ticks.
    pub ticks_to_move: i32,
    /// Ticks left of the running repeat period.
    pub ticks_left_to_move: i32,
    /// A move is due and has not been made yet.
    pub need_move: bool,
    /// The direction last pressed: -1 left, 1 right, 0 none yet.
    pub side: i8,
    /// The grace after a spawn is running.
    pub new_tetromino: bool,
    /// The grace after a spawn, in gravity steps.
    pub new_tetromino_falls: u8,
    /// Gravity steps left of the running grace.
    pub new_tetromino_falls_left: i8,
}

impl DAS {
    /// The state after the charge is dropped: both countdowns are back at
    /// their full periods and the controller is not active.
    pub open spec fn deactivated(self) -> DAS {
        DAS {
            active: false,
            ticks_left_to_activate: self.ticks_to_activate,
            ticks_left_to_move: self.ticks_to_move,
            ..self
        }
    }

    /// The first half of a tick: the activation delay counts down, and when
    /// it goes below zero the controller becomes active with a full repeat
    /// period ahead.
    pub open spec fn activation_ticked(self) -> DAS {
        if !self.activating {
            self
        } else if self.ticks_left_to_activate - 1 < 0 {
            DAS {
                active: true,
                activating: false,
                ticks_left_to_activate: (self.ticks_left_to_activate - 1) as i32,
                ticks_left_to_move: self.ticks_to_move,
                ..self
            }
        } else {
            DAS { ticks_left_to_activate: (self.ticks_left_to_activate - 1) as i32, ..self }
        }
    }

    /// The second half of a tick: while active with a direction held, the
    /// repeat period counts down, and when it goes below zero a move is due
    /// and the period starts again.
    pub open spec fn repeat_ticked(self) -> DAS {
        if !(self.active && self.moving) {
            self
        } else if self.ticks_left_to_move - 1 < 0 {
            DAS { need_move: true, ticks_left_to_move: self.ticks_to_move, ..self }
        } else {
            DAS { ticks_left_to_move: (self.ticks_left_to_move - 1) as i32, ..self }
        }
    }

    /// The state after one tick.
    pub open spec fn ticked(self) -> DAS {
        self.activation_ticked().repeat_ticked()
    }

    /// The state after `n` ticks.
    pub open spec fn ticked_n(self, n: nat) -> DAS
        decreases n,
    {
        if n == 0 {
            self
        } else {
            self.ticked_n((n - 1) as nat).ticked()
        }
    }

    /// The state after one gravity step in which no piece was locked.
    pub open spec fn fallen(self) -> DAS {
        if !self.new_tetromino {
            self
        } else if self.new_tetromino_falls_left - 1 > 0 {
            DAS { new_tetromino_falls_left: (self.new_tetromino_falls_left - 1) as i8, ..self }
        } else {
            let ended = DAS { new_tetromino_falls_left: 0, new_tetromino: false, ..self };
            if self.moving {
                ended
            } else {
                ended.deactivated()
            }
        }
    }

    /// Whether a press of `side` drops the charge first: it does when the
    /// side differs from the one last pressed and either a direction is held
    /// or no grace is running. A press of the side last pressed never drops
    /// the charge.
    pub open spec fn press_deactivates(self, side: i8) -> bool {
        self.side != side && (self.moving || !self.new_tetromino)
    }

    /// The state after direction `side` is pressed.
    pub open spec fn pressed(self, side: i8) -> DAS {
        let start = if self.press_deactivates(side) {
            self.deactivated()
        } else {
            self
        };
        DAS { side: side, activating: start.activating || !start.active, moving: true, ..start }
    }

    /// The state after the held direction is released.
    pub open spec fn released(self) -> DAS {
        DAS { activating: false, moving: false, need_move: false, ..self }
    }

    /// The state after a new piece has spawned.
    pub open spec fn spawned(self) -> DAS {
        DAS {
            new_tetromino: true,
            new_tetromino_falls_left: self.new_tetromino_falls as i8,
            ..self
        }
    }

    /// What holds of every state that the controller reaches from `new`:
    /// the periods are not negative, the countdowns are within them, and the
    /// activation delay runs only while the controller is not active.
    pub open spec fn wf(self) -> bool {
        &&& 0 <= self.ticks_to_activate
        &&& 0 <= self.ticks_to_move
        &&& -1 <= self.ticks_left_to_activate <= self.ticks_to_activate
        &&& 0 <= self.ticks_left_to_move <= self.ticks_to_move
        &&& !self.active ==> 0 <= self.ticks_left_to_activate
        &&& self.activating ==> !self.active
        &&& self.new_tetromino_falls <= i8::MAX
        &&& 0 <= self.new_tetromino_falls_left <= self.new_tetromino_falls
    }

    /// Whether a press of `side` leaves the whole activation delay ahead:
    /// the press drops the charge, or the controller is not active and its
    /// countdown stands at the full delay.
    pub open spec fn press_starts_in_full(self, side: i8) -> bool {
        self.press_deactivates(side) || (!self.active && self.ticks_left_to_activate
            == self.ticks_to_activate)
    }

    /// After a press that leaves the whole activation delay ahead, the delay
    /// runs in full: for as many ticks as the delay counts, the controller
    /// is charging, is not active, and asks for no move.
    pub proof fn lemma_activation_runs(self, side: i8, n: nat)
        requires
            self.press_starts_in_full(side),
            !self.need_move,
            0 <= self.ticks_to_activate,
            n <= self.ticks_to_activate,
        ensures
            !self.pressed(side).ticked_n(n).need_move,
            !self.pressed(side).ticked_n(n).active,
            self.pressed(side).ticked_n(n).activating,
            self.pressed(side).ticked_n(n).moving,
            self.pressed(side).ticked_n(n).ticks_left_to_activate == self.ticks_to_activate - n,
            self.pressed(side).ticked_n(n) == (DAS {
                ticks_left_to_activate: (self.ticks_to_activate - n) as i32,
                ..self.pressed(side)
            }),
        decreases n,
    {
        if n > 0 {
            self.lemma_activation_runs(side, (n - 1) as nat);
        }
    }

    /// One tick after the activation delay has run in full, the controller
    /// is active and the repeat period has begun: its first tick is counted,
    /// and a move is due at once only if the period is zero.
    pub proof fn lemma_activation_completes(self, side: i8)
        requires
            self.press_starts_in_full(side),
            !self.need_move,
            0 <= self.ticks_to_activate,
            0 <= self.ticks_to_move,
        ensures
            self.pressed(side).ticked_n((self.ticks_to_activate + 1) as nat).active,
            !self.pressed(side).ticked_n((self.ticks_to_activate + 1) as nat).activating,
            self.pressed(side).ticked_n((self.ticks_to_activate + 1) as nat).need_move == (
            self.ticks_to_move == 0),
            self.pressed(side).ticked_n((self.ticks_to_activate + 1) as nat).ticks_left_to_move
                == if self.ticks_to_move == 0 {
                0
            } else {
                self.ticks_to_move - 1
            },
    {
        self.lemma_activation_runs(side, self.ticks_to_activate as nat);
    }

    /// A release while the activation delay is running leaves the controller
    /// not active, with the countdown where it stood. The next press goes on
    /// with that countdown, unless it is of another side while no grace is
    /// running: only then does the delay start in full again.
    pub proof fn lemma_release_before_activation(self, side: i8, n: nat, next: i8)
        requires
            self.press_starts_in_full(side),
            !self.need_move,
            0 <= self.ticks_to_activate,
            n <= self.ticks_to_activate,
        ensures
            self.pressed(side).ticked_n(n).released() == (DAS {
                activating: false,
                moving: false,
                ticks_left_to_activate: (self.ticks_to_activate - n) as i32,
                ..self.pressed(side)
            }),
            !self.pressed(side).ticked_n(n).released().active,
            self.pressed(side).ticked_n(n).released().pressed(next) == (DAS {
                side: next,
                ticks_left_to_activate: if next != side && !self.pressed(side).new_tetromino {
                    self.ticks_to_activate
                } else {
                    (self.ticks_to_activate - n) as i32
                },
                ticks_left_to_move: if next != side && !self.pressed(side).new_tetromino {
                    self.ticks_to_move
                } else {
                    self.pressed(side).ticks_left_to_move
                },
                ..self.pressed(side)
            }),
    {
        self.lemma_activation_runs(side, n);
    }

    /// A press after a release finds the controller as the release left it,
    /// unless the side has changed while no grace is running: when it is
    /// still active it stays active and the activation delay is skipped, and
    /// both countdowns go on from where they stood.
    pub proof fn lemma_press_after_release(self, side: i8)
        requires
            !self.moving,
            !self.activating,
            side == self.side || self.new_tetromino,
        ensures
            self.pressed(side) == (DAS {
                side: side,
                moving: true,
                activating: !self.active,
                ..self
            }),
    {
    }

    /// A press of another side drops the charge whenever a direction is
    /// held, and after a release whenever no grace is running: the
    /// controller is not active and both countdowns are at their full
    /// periods.
    pub proof fn lemma_press_of_another_side(self, side: i8)
        requires
            side != self.side,
            self.moving || !self.new_tetromino,
        ensures
            self.pressed(side) == (DAS {
                side: side,
                moving: true,
                activating: true,
                active: false,
                ticks_left_to_activate: self.ticks_to_activate,
                ticks_left_to_move: self.ticks_to_move,
                ..self
            }),
    {
    }

    /// When the grace after a spawn ends with no direction held, the charge
    /// is dropped: the next press, of any side, has the whole activation
    /// delay ahead.
    pub proof fn lemma_grace_end_drops_charge(self, side: i8)
        requires
            self.new_tetromino,
            !self.moving,
            self.new_tetromino_falls_left <= 1,
        ensures
            !self.fallen().new_tetromino,
            !self.fallen().active,
            self.fallen().ticks_left_to_activate == self.ticks_to_activate,
            self.fallen().ticks_left_to_move == self.ticks_to_move,
            self.fallen().press_starts_in_full(side),
    {
    }

    /// While the controller is active with a direction held, a move is due
    /// every `ticks_to_move + 1` ticks: the tick on which the countdown goes
    /// below zero asks for the move and starts the period again.
    pub proof fn lemma_repeat_period(self, n: nat)
        requires
            self.active,
            self.moving,
            !self.activating,
            !self.need_move,
            0 <= self.ticks_left_to_move,
            n <= self.ticks_left_to_move,
        ensures
            self.ticked_n(n) == (DAS {
                ticks_left_to_move: (self.ticks_left_to_move - n) as i32,
                ..self
            }),
            n == self.ticks_left_to_move ==> self.ticked_n(n).ticked() == (DAS {
                need_move: true,
                ticks_left_to_move: self.ticks_to_move,
                ..self
            }),
        decreases n,
    {
        if n > 0 {
            self.lemma_repeat_period((n - 1) as nat);
        }
    }

    /// Every step of the controller keeps it well formed.
    pub proof fn lemma_wf_preserved(self, side: i8)
        requires
            self.wf(),
        ensures
            self.ticked().wf(),
            self.fallen().wf(),
            self.pressed(side).wf(),
            self.released().wf(),
            self.deactivated().wf(),
            self.spawned().wf(),
    {
    }

    /// An idle controller with the default periods.
    pub fn new() -> (das: DAS)
        ensures
            das == (DAS {
                active: false,
                activating: false,
                moving: false,
                moved: false,
                ticks_to_activate: ACTIVATION_DELAY,
                ticks_left_to_activate: ACTIVATION_DELAY,
                ticks_to_move: REPEAT_PERIOD,
                ticks_left_to_move: REPEAT_PERIOD,
                need_move: false,
                side: 0,
                new_tetromino: false,
                new_tetromino_falls: NEW_PIECE_GRACE,
                new_tetromino_falls_left: 0,
            }),
            das.wf(),
    {
        DAS {
            active: false,
            activating: false,
            moving: false,
            moved: false,
            ticks_to_activate: ACTIVATION_DELAY,
            ticks_left_to_activate: ACTIVATION_DELAY,
            ticks_to_move: REPEAT_PERIOD,
            ticks_left_to_move: REPEAT_PERIOD,
            need_move: false,
            side: 0,
            new_tetromino: false,
            new_tetromino_falls: NEW_PIECE_GRACE,
            new_tetromino_falls_left: 0,
        }
    }

    /// Whether the controller is well formed.
    pub fn is_wf(&self) -> (well_formed: bool)
        ensures
            well_formed == self.wf(),
    {
        0 <= self.ticks_to_activate && 0 <= self.ticks_to_move && -1
            <= self.ticks_left_to_activate && self.ticks_left_to_activate
            <= self.ticks_to_activate && 0 <= self.ticks_left_to_move && self.ticks_left_to_move
            <= self.ticks_to_move && (self.active || 0 <= self.ticks_left_to_activate) && !(
        self.activating && self.active) && self.new_tetromino_falls <= 127 && 0
            <= self.new_tetromino_falls_left && self.new_tetromino_falls_left as i16
            <= self.new_tetromino_falls as i16
    }

    /// Advances the controller by one tick of its own cadence.
    pub fn tick(&mut self)
        requires
            old(self).activating ==> old(self).ticks_left_to_activate > i32::MIN,
            old(self).activation_ticked().active && old(self).moving ==> old(
                self,
            ).activation_ticked().ticks_left_to_move > i32::MIN,
        ensures
            *final(self) == old(self).ticked(),
            old(self).wf() ==> final(self).wf(),
    {
        if self.activating {
            self.ticks_left_to_activate -= 1;
            if self.ticks_left_to_activate < 0 {
                self.active = true;
                self.activating = false;
                self.ticks_left_to_move = self.ticks_to_move;
            }
        }
        if self.active && self.moving {
            self.ticks_left_to_move -= 1;
            if self.ticks_left_to_move < 0 {
                self.need_move = true;
                self.ticks_left_to_move = self.ticks_to_move;
            }
        }
    }

    /// Advances the grace after a spawn by one gravity step. When the grace
    /// ends with no direction held, the charge is dropped.
    pub fn fall(&mut self)
        requires
            old(self).new_tetromino ==> old(self).new_tetromino_falls_left > i8::MIN,
        ensures
            *final(self) == old(self).fallen(),
            old(self).wf() ==> final(self).wf(),
    {
        if self.new_tetromino {
            self.new_tetromino_falls_left -= 1;
            if self.new_tetromino_falls_left <= 0 {
                self.new_tetromino_falls_left = 0;
                self.new_tetromino = false;
                if !self.moving {
                    self.deactivate();
                }
            }
        }
    }

    /// Takes the press of direction `side` (-1 left, 1 right). The charge is
    /// dropped first if the side differs from the one last pressed and either
    /// a direction is held or no grace is running. Then the direction is
    /// recorded as held, and unless the controller is active the activation
    /// delay runs. A press of the side last pressed finds the charge and both
    /// countdowns as they were left: while the controller is still active
    /// the activation delay is skipped.
    pub fn start_moving(&mut self, side: i8)
        ensures
            *final(self) == old(self).pressed(side),
            old(self).wf() ==> final(self).wf(),
    {
        if self.side != side && (self.moving || !self.new_tetromino) {
            self.deactivate();
        }
        self.side = side;
        if !self.active {
            self.activating = true;
        }
        self.moving = true;
    }

    /// Takes the release of the held direction. The countdowns stay where
    /// they are and an active controller stays active.
    pub fn stop_moving(&mut self)
        ensures
            *final(self) == old(self).released(),
            old(self).wf() ==> final(self).wf(),
    {
        self.activating = false;
        self.moving = false;
        self.need_move = false;
    }

    /// Drops the charge: both countdowns go back to their full periods and
    /// the controller is no longer active.
    pub fn deactivate(&mut self)
        ensures
            *final(self) == old(self).deactivated(),
            old(self).wf() ==> final(self).wf(),
    {
        self.active = false;
        self.ticks_left_to_activate = self.ticks_to_activate;
        self.ticks_left_to_move = self.ticks_to_move;
    }

    /// Takes note that a new piece has spawned: the grace starts.
    pub fn new_tetromino(&mut self)
        requires
            old(self).new_tetromino_falls <= i8::MAX,
        ensures
            *final(self) == old(self).spawned(),
            old(self).wf() ==> final(self).wf(),
    {
        self.new_tetromino = true;
        self.new_tetromino_falls_left = self.new_tetromino_falls as i8;
    }
}

/// Colours that show the state of a controller on screen.
#[allow(non_camel_case_types)]
pub struct DAS_DEBUG {}

impl DAS_DEBUG {
    /// The colour of the marker, as red, green and blue: green is lit while
    /// the grace after a spawn is running.
    pub fn debug_color(das: &DAS) -> (color: (u8, u8, u8))
        ensures
            color == (200u8, if das.new_tetromino { 255u8 } else { 0u8 }, 0u8),
    {
        let red: u8 = 200;
        let mut green: u8 = 0;
        if das.new_tetromino {
            green = 255;
        }
        let blue: u8 = 0;
        (red, green, blue)
    }
}

} // verus!
