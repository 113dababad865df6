//! Motion planner for acceleration/deceleration profiles.
//!
//! Provides smooth speed transitions to minimize fluid shock and vortex
//! formation.

use vstd::prelude::*;

verus! {

/// Default acceleration rate in RPM per second
pub const DEFAULT_ACCEL_RPM_PER_S: u16 = 50;

/// Maximum acceleration rate in RPM per second
pub const MAX_ACCEL_RPM_PER_S: u16 = 100;

/// Current motion state
#[derive(Debug, Clone, Copy, PartialEq, Eq, Structural)]
pub enum MotionState {
    /// Motor is stopped
    Stopped,
    /// Motor is accelerating toward target
    Accelerating,
    /// Motor is at target speed
    AtSpeed,
    /// Motor is decelerating toward stop
    Decelerating,
}

/// The motion state that a current speed and a target speed (both in
/// tenths of an RPM) describe.
pub open spec fn state_for(current_x10: int, target_x10: int) -> MotionState {
    if current_x10 == 0 && target_x10 == 0 {
        MotionState::Stopped
    } else if current_x10 < target_x10 {
        MotionState::Accelerating
    } else if current_x10 > target_x10 {
        MotionState::Decelerating
    } else {
        MotionState::AtSpeed
    }
}

/// The speed (in tenths of an RPM) after moving from `current_x10` toward
/// `target_x10` by at most `step_x10`, never passing the target.
pub open spec fn ramp_toward(current_x10: int, target_x10: int, step_x10: int) -> int {
    if current_x10 < target_x10 {
        if current_x10 + step_x10 < target_x10 { current_x10 + step_x10 } else { target_x10 }
    } else {
        if current_x10 - step_x10 > target_x10 { current_x10 - step_x10 } else { target_x10 }
    }
}

/// The speed change, in tenths of an RPM, that `accel_rpm_per_s` allows in
/// `delta_ms` milliseconds.
pub open spec fn ramp_step_x10(accel_rpm_per_s: int, delta_ms: int) -> int {
    accel_rpm_per_s * 10 * delta_ms / 1000
}

/// Motion planner for smooth speed transitions
///
/// This planner calculates the current RPM based on target RPM and
/// acceleration parameters. It handles ramping up and down smoothly.
#[derive(Debug, Clone)]
pub struct MotionPlanner {
    /// Current actual RPM (fixed point: RPM * 10 for 0.1 RPM resolution)
    current_rpm_x10: u32,
    /// Target RPM
    target_rpm: u16,
    /// Acceleration rate in RPM/s
    accel_rpm_per_s: u16,
    /// Current motion state
    state: MotionState,
}

impl MotionPlanner {
    /// Current speed in tenths of an RPM.
    pub closed spec fn current_x10(&self) -> int {
        self.current_rpm_x10 as int
    }

    /// Target speed in RPM.
    pub closed spec fn target(&self) -> int {
        self.target_rpm as int
    }

    /// Acceleration rate in RPM per second.
    pub closed spec fn accel(&self) -> int {
        self.accel_rpm_per_s as int
    }

    /// The recorded motion state.
    pub closed spec fn motion_state(&self) -> MotionState {
        self.state
    }

    /// The planner's invariant: the acceleration is within its limit, the
    /// current speed fits a `u16` RPM, and the recorded state describes the
    /// current and target speed.
    pub closed spec fn wf(&self) -> bool {
        &&& self.accel_rpm_per_s <= MAX_ACCEL_RPM_PER_S
        &&& self.current_rpm_x10 <= 655350
        &&& self.state == state_for(self.current_rpm_x10 as int, self.target_rpm * 10)
    }

    /// Create a new motion planner with default acceleration
    pub fn new() -> (r: Self)
        ensures
            r.wf(),
            r.current_x10() == 0,
            r.target() == 0,
            r.accel() == DEFAULT_ACCEL_RPM_PER_S,
            r.motion_state() == MotionState::Stopped,
    {
        MotionPlanner {
            current_rpm_x10: 0,
            target_rpm: 0,
            accel_rpm_per_s: DEFAULT_ACCEL_RPM_PER_S,
            state: MotionState::Stopped,
        }
    }

    /// Create a motion planner with custom acceleration
    pub fn with_acceleration(accel_rpm_per_s: u16) -> (r: Self)
        ensures
            r.wf(),
            r.current_x10() == 0,
            r.target() == 0,
            r.accel() == if accel_rpm_per_s < MAX_ACCEL_RPM_PER_S {
                accel_rpm_per_s
            } else {
                MAX_ACCEL_RPM_PER_S
            },
            r.motion_state() == MotionState::Stopped,
    {
        let accel = if accel_rpm_per_s < MAX_ACCEL_RPM_PER_S {
            accel_rpm_per_s
        } else {
            MAX_ACCEL_RPM_PER_S
        };
        MotionPlanner {
            current_rpm_x10: 0,
            target_rpm: 0,
            accel_rpm_per_s: accel,
            state: MotionState::Stopped,
        }
    }

    /// Set the target RPM
    pub fn set_target(&mut self, rpm: u16)
        requires
            old(self).wf(),
        ensures
            final(self).wf(),
            final(self).target() == rpm,
            final(self).current_x10() == old(self).current_x10(),
            final(self).accel() == old(self).accel(),
            final(self).motion_state() == state_for(old(self).current_x10(), rpm * 10),
    {
        self.target_rpm = rpm;
        self.update_state();
    }

    /// Get the target RPM
    pub fn get_target(&self) -> (r: u16)
        ensures
            r == self.target(),
    {
        self.target_rpm
    }

    /// Get the current actual RPM (may be ramping)
    pub fn get_current(&self) -> (r: u16)
        requires
            self.wf(),
        ensures
            r == self.current_x10() / 10,
    {
        (self.current_rpm_x10 / 10) as u16
    }

    /// Get the current motion state
    pub fn get_state(&self) -> (r: MotionState)
        ensures
            r == self.motion_state(),
    {
        self.state
    }

    /// Check if at target speed
    pub fn is_at_target(&self) -> (r: bool)
        ensures
            r == (self.motion_state() == MotionState::AtSpeed || self.motion_state()
                == MotionState::Stopped),
    {
        self.state == MotionState::AtSpeed || self.state == MotionState::Stopped
    }

    /// Check if stopped
    pub fn is_stopped(&self) -> (r: bool)
        ensures
            r == (self.motion_state() == MotionState::Stopped && self.current_x10() == 0),
    {
        self.state == MotionState::Stopped && self.current_rpm_x10 == 0
    }

    /// Update the planner with elapsed time
    ///
    /// Call this periodically (e.g., every 10ms) to update the current RPM.
    /// `delta_ms` is the time elapsed since the last update; the result is
    /// the current RPM after the update.
    pub fn update(&mut self, delta_ms: u32) -> (r: u16)
        requires
            old(self).wf(),
            old(self).accel() * 10 * delta_ms <= u32::MAX,
        ensures
            final(self).wf(),
            final(self).target() == old(self).target(),
            final(self).accel() == old(self).accel(),
            final(self).current_x10() == ramp_toward(
                old(self).current_x10(),
                old(self).target() * 10,
                ramp_step_x10(old(self).accel(), delta_ms as int),
            ),
            r == final(self).current_x10() / 10,
            final(self).motion_state() == state_for(final(self).current_x10(), final(self).target() * 10),
    {
        let target_x10 = (self.target_rpm as u32) * 10;

        if self.current_rpm_x10 == target_x10 {
            self.update_state();
            return self.get_current();
        }
        // accel_rpm_per_s * 10 * delta_ms / 1000 = delta_rpm_x10

        let delta_x10 = (self.accel_rpm_per_s as u32) * 10 * delta_ms / 1000;

        if self.current_rpm_x10 < target_x10 {
            // Accelerating
            let sum = self.current_rpm_x10 + delta_x10;
            self.current_rpm_x10 = if sum < target_x10 { sum } else { target_x10 };
        } else {
            // Decelerating
            if delta_x10 >= self.current_rpm_x10 {
                self.current_rpm_x10 = 0;
            } else {
                self.current_rpm_x10 = self.current_rpm_x10 - delta_x10;
            }
            if self.current_rpm_x10 < target_x10 {
                self.current_rpm_x10 = target_x10;
            }
        }

        self.update_state();
        self.get_current()
    }

    /// Immediately stop (emergency stop)
    pub fn emergency_stop(&mut self)
        requires
            old(self).wf(),
        ensures
            final(self).wf(),
            final(self).target() == 0,
            final(self).current_x10() == 0,
            final(self).accel() == old(self).accel(),
            final(self).motion_state() == MotionState::Stopped,
    {
        self.target_rpm = 0;
        self.current_rpm_x10 = 0;
        self.state = MotionState::Stopped;
    }

    /// Update the motion state based on current/target RPM
    fn update_state(&mut self)
        ensures
            final(self).state == state_for(
                final(self).current_rpm_x10 as int,
                final(self).target_rpm * 10,
            ),
            final(self).current_rpm_x10 == old(self).current_rpm_x10,
            final(self).target_rpm == old(self).target_rpm,
            final(self).accel_rpm_per_s == old(self).accel_rpm_per_s,
    {
        let target_x10 = (self.target_rpm as u32) * 10;

        if self.current_rpm_x10 == 0 && target_x10 == 0 {
            self.state = MotionState::Stopped;
        } else if self.current_rpm_x10 < target_x10 {
            self.state = MotionState::Accelerating;
        } else if self.current_rpm_x10 > target_x10 {
            self.state = MotionState::Decelerating;
        } else {
            self.state = MotionState::AtSpeed;
        }
    }

    /// Calculate time to reach target from current speed
    ///
    /// Returns time in milliseconds, or `u32::MAX` when the acceleration is
    /// zero.
    pub fn time_to_target(&self) -> (r: u32)
        requires
            self.wf(),
        ensures
            self.accel() == 0 ==> r == u32::MAX,
            self.accel() != 0 ==> r == (if self.current_x10() < self.target() * 10 {
                self.target() * 10 - self.current_x10()
            } else {
                self.current_x10() - self.target() * 10
            }) * 100 / self.accel(),
    {
        let target_x10 = (self.target_rpm as u32) * 10;
        let diff = if self.current_rpm_x10 < target_x10 {
            target_x10 - self.current_rpm_x10
        } else {
            self.current_rpm_x10 - target_x10
        };

        // time_ms = diff / (accel * 10 / 1000) = diff * 1000 / (accel * 10)
        if self.accel_rpm_per_s == 0 {
            return u32::MAX;
        }
        diff * 100 / (self.accel_rpm_per_s as u32)
    }
}

impl Default for MotionPlanner {
    fn default() -> (r: Self)
        ensures
            r.wf(),
            r.current_x10() == 0,
            r.target() == 0,
            r.accel() == DEFAULT_ACCEL_RPM_PER_S,
            r.motion_state() == MotionState::Stopped,
    {
        Self::new()
    }
}

/// Each update moves the speed toward the target without passing it, and
/// reaches the target once the allowed step covers the remaining distance.
pub proof fn lemma_ramp_never_overshoots(current_x10: int, target_x10: int, step_x10: int)
    requires
        step_x10 >= 0,
    ensures
        current_x10 <= target_x10 ==> current_x10 <= ramp_toward(current_x10, target_x10, step_x10)
            <= target_x10,
        current_x10 >= target_x10 ==> target_x10 <= ramp_toward(current_x10, target_x10, step_x10)
            <= current_x10,
        (current_x10 - target_x10 <= step_x10 && target_x10 - current_x10 <= step_x10)
            ==> ramp_toward(current_x10, target_x10, step_x10) == target_x10,
{
}

} // verus!
