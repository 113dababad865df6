//! Position tracking and homing for a step-generator stepper (the Z lift
//! and X jar axes).
//!
//! The tracker decides; the caller drives the hardware. Each decision
//! queues the commands the step generator must carry out (`take_commands`
//! hands them over), and each update is given what the hardware reports:
//! the endstop level and whether, and how fast, the generator is stepping.

use vstd::prelude::*;

verus! {

/// A command for the step generator
#[derive(Debug, Clone, Copy, PartialEq, Eq, Structural)]
pub enum StepperCommand {
    /// Enable the driver
    Enable,
    /// Disable the driver
    Disable,
    /// Stop pulse generation
    Stop,
    /// Set the stepper direction (true = clockwise)
    SetDirection(bool),
    /// Step at this frequency (Hz)
    SetFrequency(u32),
}

/// Position stepper configuration
#[derive(Debug, Clone, Copy, PartialEq, Eq, Structural)]
pub struct PositionStepperConfig {
    /// Steps per millimeter of travel
    pub steps_per_mm: u32,
    /// Minimum position in mm (can be negative)
    pub position_min_mm: i32,
    /// Maximum position in mm
    pub position_max_mm: i32,
    /// Position at endstop after homing
    pub position_endstop_mm: i32,
    /// Homing speed in mm/s
    pub homing_speed_mm_s: u16,
    /// Distance to retract after hitting endstop
    pub homing_retract_mm: u16,
    /// Normal move speed in mm/s
    pub move_speed_mm_s: u16,
    /// Endstop is active low (normally high, goes low when triggered)
    pub endstop_active_low: bool,
    /// Home toward max position (true) or min position (false)
    pub home_to_max: bool,
}

impl Default for PositionStepperConfig {
    /// 80 steps/mm (GT2 belt, 20T pulley), 0..200 mm, endstop at 0 homing
    /// toward it at 10 mm/s with a 5 mm retract, moves at 50 mm/s
    fn default() -> (r: Self)
        ensures
            r == (PositionStepperConfig {
                steps_per_mm: 80,
                position_min_mm: 0,
                position_max_mm: 200,
                position_endstop_mm: 0,
                homing_speed_mm_s: 10,
                homing_retract_mm: 5,
                move_speed_mm_s: 50,
                endstop_active_low: true,
                home_to_max: false,
            }),
    {
        PositionStepperConfig {
            steps_per_mm: 80,
            position_min_mm: 0,
            position_max_mm: 200,
            position_endstop_mm: 0,
            homing_speed_mm_s: 10,
            homing_retract_mm: 5,
            move_speed_mm_s: 50,
            endstop_active_low: true,
            home_to_max: false,
        }
    }
}

/// The configuration's positions lie within 1000 m of zero in order, and
/// its step frequencies fit in a `u32`.
pub open spec fn config_ok(c: PositionStepperConfig) -> bool {
    &&& -1_000_000 <= c.position_min_mm <= c.position_max_mm <= 1_000_000
    &&& -1_000_000 <= c.position_endstop_mm <= 1_000_000
    &&& c.homing_speed_mm_s * c.steps_per_mm <= u32::MAX
    &&& c.move_speed_mm_s * c.steps_per_mm <= u32::MAX
}

/// Position stepper state
#[derive(Debug, Clone, Copy, PartialEq, Eq, Structural)]
pub enum PositionState {
    /// Not homed, position unknown
    NotHomed,
    /// Homing in progress - moving toward endstop
    HomingSeek,
    /// Homing in progress - retracting from endstop
    HomingRetract,
    /// Homed and idle at known position
    Idle,
    /// Moving to target position
    Moving,
}

/// Position stepper errors
#[derive(Debug, Clone, Copy, PartialEq, Eq, Structural)]
pub enum PositionError {
    /// Target position is out of configured bounds
    OutOfBounds,
    /// Motor has not been homed
    NotHomed,
    /// Endstop not triggered during homing
    HomingFailed,
    /// Move timed out
    Timeout,
}

/// Position-tracking stepper: estimates the position from time and step
/// rate, homes on an endstop switch, and makes absolute moves.
#[derive(Debug)]
pub struct PositionStepper {
    config: PositionStepperConfig,
    position_um: i32,
    target_um: i32,
    state: PositionState,
    move_start_ms: u64,
    direction_positive: bool,
    commands: Vec<StepperCommand>,
}

/// The tracker as values.
#[verifier::ext_equal]
pub struct PositionView {
    pub config: PositionStepperConfig,
    pub position_um: i32,
    pub target_um: i32,
    pub state: PositionState,
    pub move_start_ms: u64,
    pub direction_positive: bool,
    pub commands: Seq<StepperCommand>,
}

/// Homed: not in one of the unhomed or homing states.
pub open spec fn homed(s: PositionState) -> bool {
    !(s == PositionState::NotHomed || s == PositionState::HomingSeek || s == PositionState::HomingRetract)
}

/// Moving: homing or making a move.
pub open spec fn moving(s: PositionState) -> bool {
    s == PositionState::Moving || s == PositionState::HomingSeek || s == PositionState::HomingRetract
}

/// The invariant the tracker keeps: a sound configuration, and position
/// and target within reach of it.
pub open spec fn tracker_inv(v: PositionView) -> bool {
    &&& config_ok(v.config)
    &&& -1_065_535_000 <= v.position_um <= 1_065_535_000
    &&& -1_065_535_000 <= v.target_um <= 1_065_535_000
}

/// How far the axis moves, in micrometres, stepping at `freq_hz` for
/// `delta_ms` milliseconds.
pub open spec fn travel_um(freq_hz: u32, delta_ms: u32, steps_per_mm: u32) -> int {
    (freq_hz * delta_ms * 1000) / (steps_per_mm * 1000)
}

/// `x` limited to `lo..=hi`.
pub open spec fn clamp_i(x: int, lo: int, hi: int) -> int {
    if x < lo {
        lo
    } else if x > hi {
        hi
    } else {
        x
    }
}

/// The position estimate after `delta_ms` of stepping: moved by the travel
/// in the current direction and kept within the configured range; no
/// change when the generator is stopped or has no rate.
pub open spec fn estimate_spec(v: PositionView, delta_ms: u32, running: bool, freq_hz: u32) -> i32 {
    if !running || freq_hz == 0 || v.config.steps_per_mm == 0 {
        v.position_um
    } else {
        let d = travel_um(freq_hz, delta_ms, v.config.steps_per_mm);
        let p = if v.direction_positive {
            v.position_um + d
        } else {
            v.position_um - d
        };
        clamp_i(p, v.config.position_min_mm * 1000, v.config.position_max_mm * 1000) as i32
    }
}

/// The estimate does not overflow.
pub open spec fn estimate_fits(v: PositionView, delta_ms: u32, freq_hz: u32) -> bool {
    &&& freq_hz * delta_ms * 1000 <= i64::MAX
    &&& v.config.steps_per_mm > 0 ==> travel_um(freq_hz, delta_ms, v.config.steps_per_mm) <= 1_000_000_000
}

/// An update's inputs keep the arithmetic in range: the travel is within
/// 1000 m and the clock has not gone backwards since a retract started.
pub open spec fn update_fits(v: PositionView, delta_ms: u32, current_ms: u64, freq_hz: u32) -> bool {
    &&& estimate_fits(v, delta_ms, freq_hz)
    &&& v.state == PositionState::HomingRetract ==> current_ms >= v.move_start_ms
}

/// Whether the endstop reads as triggered for this pin level.
pub open spec fn triggered(c: PositionStepperConfig, level_high: bool) -> bool {
    if c.endstop_active_low {
        !level_high
    } else {
        level_high
    }
}

/// Within 0.1 mm.
pub open spec fn arrived(target_um: int, position_um: int) -> bool {
    -100 < target_um - position_um < 100
}

/// One update (see `PositionStepper::update`); `Ok(true)` when homing or
/// a move has completed.
pub open spec fn update_spec(
    v: PositionView,
    delta_ms: u32,
    current_ms: u64,
    endstop_high: bool,
    running: bool,
    freq_hz: u32,
) -> (PositionView, Result<bool, PositionError>) {
    match v.state {
        PositionState::NotHomed | PositionState::Idle => (v, Ok(false)),
        PositionState::HomingSeek => if triggered(v.config, endstop_high) {
            let dir = !v.direction_positive;
            let retract = v.config.homing_retract_mm * 1000;
            let end = v.config.position_endstop_mm * 1000;
            (
                PositionView {
                    direction_positive: dir,
                    target_um: (if v.config.home_to_max { end - retract } else { end + retract }) as i32,
                    position_um: end as i32,
                    move_start_ms: current_ms,
                    state: PositionState::HomingRetract,
                    commands: v.commands + seq![
                        StepperCommand::Stop,
                        StepperCommand::SetDirection(!dir),
                        StepperCommand::SetFrequency((v.config.homing_speed_mm_s * v.config.steps_per_mm) as u32),
                    ],
                    ..v
                },
                Ok(false),
            )
        } else {
            (v, Ok(false))
        },
        PositionState::HomingRetract => {
            let p = estimate_spec(v, delta_ms, running, freq_hz);
            let v1 = PositionView { position_um: p, ..v };
            if arrived(v.target_um as int, p as int) {
                (
                    PositionView {
                        position_um: v.target_um,
                        state: PositionState::Idle,
                        commands: v.commands.push(StepperCommand::Stop),
                        ..v1
                    },
                    Ok(true),
                )
            } else if current_ms - v.move_start_ms > 5000 {
                (PositionView { commands: v.commands.push(StepperCommand::Stop), ..v1 }, Err(PositionError::HomingFailed))
            } else {
                (v1, Ok(false))
            }
        },
        PositionState::Moving => {
            let p = estimate_spec(v, delta_ms, running, freq_hz);
            let v1 = PositionView { position_um: p, ..v };
            if arrived(v.target_um as int, p as int) {
                (
                    PositionView {
                        position_um: v.target_um,
                        state: PositionState::Idle,
                        commands: v.commands.push(StepperCommand::Stop),
                        ..v1
                    },
                    Ok(true),
                )
            } else if triggered(v.config, endstop_high) {
                (
                    PositionView {
                        position_um: (v.config.position_endstop_mm * 1000) as i32,
                        state: PositionState::Idle,
                        commands: v.commands.push(StepperCommand::Stop),
                        ..v1
                    },
                    Ok(true),
                )
            } else {
                (v1, Ok(false))
            }
        },
    }
}

impl PositionStepper {
    /// The tracker as values.
    pub closed spec fn view(&self) -> PositionView {
        PositionView {
            config: self.config,
            position_um: self.position_um,
            target_um: self.target_um,
            state: self.state,
            move_start_ms: self.move_start_ms,
            direction_positive: self.direction_positive,
            commands: self.commands@,
        }
    }

    /// A tracker that is not homed, at position 0, with no command queued
    pub fn new(config: PositionStepperConfig) -> (r: Self)
        requires
            config_ok(config),
        ensures
            r.view() == (PositionView {
                config,
                position_um: 0,
                target_um: 0,
                state: PositionState::NotHomed,
                move_start_ms: 0,
                direction_positive: true,
                commands: Seq::empty(),
            }),
            tracker_inv(r.view()),
    {
        let r = PositionStepper {
            config,
            position_um: 0,
            target_um: 0,
            state: PositionState::NotHomed,
            move_start_ms: 0,
            direction_positive: true,
            commands: Vec::new(),
        };
        assert(r.view().commands =~= Seq::<StepperCommand>::empty());
        r
    }

    /// Hand over the queued commands, oldest first
    pub fn take_commands(&mut self) -> (r: Vec<StepperCommand>)
        ensures
            r@ == old(self).view().commands,
            final(self).view() == (PositionView { commands: Seq::empty(), ..old(self).view() }),
    {
        let mut r = Vec::new();
        std::mem::swap(&mut r, &mut self.commands);
        proof {
            assert(self.view() =~= PositionView { commands: Seq::empty(), ..old(self).view() });
        }
        r
    }

    /// Get current state
    pub fn state(&self) -> (r: PositionState)
        ensures
            r == self.view().state,
    {
        self.state
    }

    /// Whether homed (not unhomed and not homing)
    pub fn is_homed(&self) -> (r: bool)
        ensures
            r == homed(self.view().state),
    {
        !(self.state == PositionState::NotHomed || self.state == PositionState::HomingSeek || self.state
            == PositionState::HomingRetract)
    }

    /// Whether moving (homing or making a move)
    pub fn is_moving(&self) -> (r: bool)
        ensures
            r == moving(self.view().state),
    {
        self.state == PositionState::Moving || self.state == PositionState::HomingSeek || self.state
            == PositionState::HomingRetract
    }

    /// Whether idle (homed and not moving)
    pub fn is_idle(&self) -> (r: bool)
        ensures
            r == (self.view().state == PositionState::Idle),
    {
        self.state == PositionState::Idle
    }

    /// Current position in mm (micrometres divided by 1000, toward zero)
    pub fn position_mm(&self) -> (r: i32)
        ensures
            r == crate::math::div_toward_zero(self.view().position_um as int, 1000),
    {
        self.position_um / 1000
    }

    /// Current position in micrometers
    pub fn position_um(&self) -> (r: i32)
        ensures
            r == self.view().position_um,
    {
        self.position_um
    }

    /// Whether the endstop, at this pin level, reads as triggered
    pub fn endstop_triggered(&self, level_high: bool) -> (r: bool)
        ensures
            r == triggered(self.view().config, level_high),
    {
        if self.config.endstop_active_low {
            !level_high
        } else {
            level_high
        }
    }

    /// Whether a position (mm) is within the configured range
    pub fn is_in_bounds(&self, position_mm: i32) -> (r: bool)
        ensures
            r == (self.view().config.position_min_mm <= position_mm <= self.view().config.position_max_mm),
    {
        position_mm >= self.config.position_min_mm && position_mm <= self.config.position_max_mm
    }

    /// Enable the motor
    pub fn enable(&mut self)
        ensures
            final(self).view() == (PositionView {
                commands: old(self).view().commands.push(StepperCommand::Enable),
                ..old(self).view()
            }),
    {
        self.commands.push(StepperCommand::Enable);
        proof {
            assert(self.view() =~= PositionView {
                commands: old(self).view().commands.push(StepperCommand::Enable),
                ..old(self).view()
            });
        }
    }

    /// Disable the motor
    pub fn disable(&mut self)
        ensures
            final(self).view() == (PositionView {
                commands: old(self).view().commands.push(StepperCommand::Disable),
                ..old(self).view()
            }),
    {
        self.commands.push(StepperCommand::Disable);
        proof {
            assert(self.view() =~= PositionView {
                commands: old(self).view().commands.push(StepperCommand::Disable),
                ..old(self).view()
            });
        }
    }

    /// Start homing: fails while moving; otherwise enables the driver and
    /// seeks the endstop at homing speed
    pub fn start_homing(&mut self) -> (r: Result<(), PositionError>)
        requires
            tracker_inv(old(self).view()),
        ensures
            tracker_inv(final(self).view()),
            moving(old(self).view().state) ==> r == Err::<(), PositionError>(PositionError::NotHomed)
                && final(self).view() == old(self).view(),
            !moving(old(self).view().state) ==> r is Ok && final(self).view() == (PositionView {
                state: PositionState::HomingSeek,
                direction_positive: old(self).view().config.home_to_max,
                commands: old(self).view().commands + seq![
                    StepperCommand::Enable,
                    StepperCommand::SetDirection(!old(self).view().config.home_to_max),
                    StepperCommand::SetFrequency(
                        (old(self).view().config.homing_speed_mm_s * old(self).view().config.steps_per_mm) as u32,
                    ),
                ],
                ..old(self).view()
            }),
    {
        if self.is_moving() {
            return Err(PositionError::NotHomed);
        }
        let ghost v = self.view();
        self.enable();
        self.state = PositionState::HomingSeek;
        let direction = self.config.home_to_max;
        self.direction_positive = direction;
        self.commands.push(StepperCommand::SetDirection(!direction));
        let freq_hz = (self.config.homing_speed_mm_s as u32) * self.config.steps_per_mm;
        self.commands.push(StepperCommand::SetFrequency(freq_hz));
        proof {
            assert(self.view() =~= PositionView {
                state: PositionState::HomingSeek,
                direction_positive: v.config.home_to_max,
                commands: v.commands + seq![
                    StepperCommand::Enable,
                    StepperCommand::SetDirection(!v.config.home_to_max),
                    StepperCommand::SetFrequency((v.config.homing_speed_mm_s * v.config.steps_per_mm) as u32),
                ],
                ..v
            });
        }
        Ok(())
    }

    /// Start a move to an absolute position (mm): fails when not homed or
    /// out of bounds; at the target already, nothing happens
    pub fn move_to(&mut self, position_mm: i32) -> (r: Result<(), PositionError>)
        requires
            tracker_inv(old(self).view()),
        ensures
            tracker_inv(final(self).view()),
            ({
                let v = old(self).view();
                let t = position_mm * 1000;
                if !homed(v.state) {
                    r == Err::<(), PositionError>(PositionError::NotHomed) && final(self).view() == v
                } else if !(v.config.position_min_mm <= position_mm <= v.config.position_max_mm) {
                    r == Err::<(), PositionError>(PositionError::OutOfBounds) && final(self).view() == v
                } else if t == v.position_um {
                    r is Ok && final(self).view() == v
                } else {
                    r is Ok && final(self).view() == (PositionView {
                        target_um: t as i32,
                        state: PositionState::Moving,
                        direction_positive: t > v.position_um,
                        commands: v.commands + seq![
                            StepperCommand::SetDirection(!(t > v.position_um)),
                            StepperCommand::SetFrequency((v.config.move_speed_mm_s * v.config.steps_per_mm) as u32),
                        ],
                        ..v
                    })
                }
            }),
    {
        if !self.is_homed() {
            return Err(PositionError::NotHomed);
        }
        if !self.is_in_bounds(position_mm) {
            return Err(PositionError::OutOfBounds);
        }
        let target_um = position_mm * 1000;
        if target_um == self.position_um {
            return Ok(());
        }
        let ghost v = self.view();
        self.target_um = target_um;
        self.state = PositionState::Moving;
        let direction = target_um > self.position_um;
        self.direction_positive = direction;
        self.commands.push(StepperCommand::SetDirection(!direction));
        let freq_hz = (self.config.move_speed_mm_s as u32) * self.config.steps_per_mm;
        self.commands.push(StepperCommand::SetFrequency(freq_hz));
        proof {
            assert(self.view() =~= PositionView {
                target_um: target_um,
                state: PositionState::Moving,
                direction_positive: direction,
                commands: v.commands + seq![
                    StepperCommand::SetDirection(!direction),
                    StepperCommand::SetFrequency((v.config.move_speed_mm_s * v.config.steps_per_mm) as u32),
                ],
                ..v
            });
        }
        Ok(())
    }

    /// Stop the motor; a homed move ends idle where it stands
    pub fn stop(&mut self)
        ensures
            final(self).view() == (PositionView {
                state: if moving(old(self).view().state) && homed(old(self).view().state) {
                    PositionState::Idle
                } else {
                    old(self).view().state
                },
                commands: old(self).view().commands.push(StepperCommand::Stop),
                ..old(self).view()
            }),
    {
        let ghost v = self.view();
        self.commands.push(StepperCommand::Stop);
        if self.is_moving() && self.is_homed() {
            self.state = PositionState::Idle;
        }
        proof {
            assert(self.view() =~= PositionView {
                state: if moving(v.state) && homed(v.state) { PositionState::Idle } else { v.state },
                commands: v.commands.push(StepperCommand::Stop),
                ..v
            });
        }
    }

    /// Emergency stop: stop and disable, keeping the state (the position
    /// may be unknown)
    pub fn emergency_stop(&mut self)
        ensures
            final(self).view() == (PositionView {
                commands: old(self).view().commands + seq![StepperCommand::Stop, StepperCommand::Disable],
                ..old(self).view()
            }),
    {
        let ghost v = self.view();
        self.commands.push(StepperCommand::Stop);
        self.commands.push(StepperCommand::Disable);
        proof {
            assert(self.view() =~= PositionView {
                commands: v.commands + seq![StepperCommand::Stop, StepperCommand::Disable],
                ..v
            });
        }
    }

    /// Update the position estimate and the state machine; call
    /// periodically (e.g. every 10 ms) with the time since the last update,
    /// the current time, the endstop pin level and what the step generator
    /// reports. `Ok(true)` when homing or a move has completed,
    /// `Ok(false)` while under way, `Err` on a failed homing retract.
    pub fn update(
        &mut self,
        delta_ms: u32,
        current_ms: u64,
        endstop_high: bool,
        stepper_running: bool,
        stepper_freq_hz: u32,
    ) -> (r: Result<bool, PositionError>)
        requires
            tracker_inv(old(self).view()),
            update_fits(old(self).view(), delta_ms, current_ms, stepper_freq_hz),
        ensures
            tracker_inv(final(self).view()),
            (final(self).view(), r) == update_spec(
                old(self).view(),
                delta_ms,
                current_ms,
                endstop_high,
                stepper_running,
                stepper_freq_hz,
            ),
    {
        let ghost v = self.view();
        match self.state {
            PositionState::NotHomed | PositionState::Idle => Ok(false),
            PositionState::HomingSeek => {
                if self.endstop_triggered(endstop_high) {
                    self.commands.push(StepperCommand::Stop);
                    self.direction_positive = !self.direction_positive;
                    // The stepper turns opposite to the position direction.
                    self.commands.push(StepperCommand::SetDirection(!self.direction_positive));
                    let freq_hz = (self.config.homing_speed_mm_s as u32) * self.config.steps_per_mm;
                    self.commands.push(StepperCommand::SetFrequency(freq_hz));
                    let retract_um = (self.config.homing_retract_mm as i32) * 1000;
                    self.target_um = if self.config.home_to_max {
                        self.config.position_endstop_mm * 1000 - retract_um
                    } else {
                        self.config.position_endstop_mm * 1000 + retract_um
                    };
                    self.position_um = self.config.position_endstop_mm * 1000;
                    self.move_start_ms = current_ms;
                    self.state = PositionState::HomingRetract;
                    proof {
                        assert(self.view() =~= update_spec(
                            v,
                            delta_ms,
                            current_ms,
                            endstop_high,
                            stepper_running,
                            stepper_freq_hz,
                        ).0);
                    }
                }
                Ok(false)
            },
            PositionState::HomingRetract => {
                self.update_position(delta_ms, stepper_running, stepper_freq_hz);
                let distance = self.target_um - self.position_um;
                if -100 < distance && distance < 100 {
                    self.commands.push(StepperCommand::Stop);
                    self.position_um = self.target_um;
                    self.state = PositionState::Idle;
                    proof {
                        assert(self.view() =~= update_spec(
                            v,
                            delta_ms,
                            current_ms,
                            endstop_high,
                            stepper_running,
                            stepper_freq_hz,
                        ).0);
                    }
                    return Ok(true);
                }
                if current_ms - self.move_start_ms > 5000 {
                    self.commands.push(StepperCommand::Stop);
                    proof {
                        assert(self.view() =~= update_spec(
                            v,
                            delta_ms,
                            current_ms,
                            endstop_high,
                            stepper_running,
                            stepper_freq_hz,
                        ).0);
                    }
                    return Err(PositionError::HomingFailed);
                }
                Ok(false)
            },
            PositionState::Moving => {
                self.update_position(delta_ms, stepper_running, stepper_freq_hz);
                let distance = self.target_um - self.position_um;
                if -100 < distance && distance < 100 {
                    self.commands.push(StepperCommand::Stop);
                    self.position_um = self.target_um;
                    self.state = PositionState::Idle;
                    proof {
                        assert(self.view() =~= update_spec(
                            v,
                            delta_ms,
                            current_ms,
                            endstop_high,
                            stepper_running,
                            stepper_freq_hz,
                        ).0);
                    }
                    return Ok(true);
                }
                if self.endstop_triggered(endstop_high) {
                    self.commands.push(StepperCommand::Stop);
                    self.position_um = self.config.position_endstop_mm * 1000;
                    self.state = PositionState::Idle;
                    proof {
                        assert(self.view() =~= update_spec(
                            v,
                            delta_ms,
                            current_ms,
                            endstop_high,
                            stepper_running,
                            stepper_freq_hz,
                        ).0);
                    }
                    return Ok(true);
                }
                Ok(false)
            },
        }
    }

    /// Update the position estimate from elapsed time and step rate
    fn update_position(&mut self, delta_ms: u32, running: bool, freq_hz: u32)
        requires
            tracker_inv(old(self).view()),
            estimate_fits(old(self).view(), delta_ms, freq_hz),
        ensures
            tracker_inv(final(self).view()),
            final(self).view() == (PositionView {
                position_um: estimate_spec(old(self).view(), delta_ms, running, freq_hz),
                ..old(self).view()
            }),
    {
        let ghost v = self.view();
        if !running {
            assert(self.view() =~= PositionView { position_um: estimate_spec(v, delta_ms, running, freq_hz), ..v });
            return;
        }
        if freq_hz == 0 || self.config.steps_per_mm == 0 {
            assert(self.view() =~= PositionView { position_um: estimate_spec(v, delta_ms, running, freq_hz), ..v });
            return;
        }
        assert(0 <= (freq_hz as i64) * (delta_ms as i64) * 1000 <= i64::MAX);
        let distance_um: i64 = ((freq_hz as i64) * (delta_ms as i64) * 1000) / ((self.config.steps_per_mm as i64)
            * 1000);
        let d = distance_um as i32;
        let p: i32 = if self.direction_positive {
            self.position_um + d
        } else {
            self.position_um - d
        };
        let min_um = self.config.position_min_mm * 1000;
        let max_um = self.config.position_max_mm * 1000;
        self.position_um = if p < min_um {
            min_um
        } else if p > max_um {
            max_um
        } else {
            p
        };
        proof {
            assert(self.view() =~= PositionView { position_um: estimate_spec(v, delta_ms, running, freq_hz), ..v });
        }
    }

    /// Get configuration reference
    pub fn config(&self) -> (r: &PositionStepperConfig)
        ensures
            *r == self.view().config,
    {
        &self.config
    }
}

/// A completed move leaves the axis idle at its target, and the tracker
/// stops the generator whenever an update reports completion or failure.
pub proof fn lemma_completion_stops_motor(
    v: PositionView,
    delta_ms: u32,
    current_ms: u64,
    endstop_high: bool,
    running: bool,
    freq_hz: u32,
)
    requires
        v.state == PositionState::Moving || v.state == PositionState::HomingRetract,
    ensures
        ({
            let (w, r) = update_spec(v, delta_ms, current_ms, endstop_high, running, freq_hz);
            &&& r != Ok::<bool, PositionError>(false) ==> w.commands == v.commands.push(StepperCommand::Stop)
            &&& r == Ok::<bool, PositionError>(true) ==> w.state == PositionState::Idle && homed(w.state)
        }),
{
}

/// Homing only ever completes through the retract phase: from seeking the
/// endstop an update never reports completion.
pub proof fn lemma_seek_never_completes(
    v: PositionView,
    delta_ms: u32,
    current_ms: u64,
    endstop_high: bool,
    running: bool,
    freq_hz: u32,
)
    requires
        v.state == PositionState::HomingSeek,
    ensures
        update_spec(v, delta_ms, current_ms, endstop_high, running, freq_hz).1 == Ok::<bool, PositionError>(false),
        !homed(update_spec(v, delta_ms, current_ms, endstop_high, running, freq_hz).0.state),
{
}

/// The retract leaves the endstop: seeking turns the stepper with
/// `SetDirection(!home_to_max)` (the stepper runs opposite to the position
/// direction), and on the endstop hit the update turns it back with
/// `SetDirection(home_to_max)`.
pub proof fn lemma_retract_reverses_seek(
    v: PositionView,
    delta_ms: u32,
    current_ms: u64,
    endstop_high: bool,
    running: bool,
    freq_hz: u32,
)
    requires
        v.state == PositionState::HomingSeek,
        v.direction_positive == v.config.home_to_max,
        triggered(v.config, endstop_high),
    ensures
        ({
            let after = update_spec(v, delta_ms, current_ms, endstop_high, running, freq_hz).0;
            &&& after.state == PositionState::HomingRetract
            &&& after.commands[v.commands.len() + 1int] == StepperCommand::SetDirection(v.config.home_to_max)
            &&& !after.direction_positive == v.config.home_to_max
        }),
{
}

} // verus!
