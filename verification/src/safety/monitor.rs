//! Safety monitor implementation.
//!
//! Monitors temperature, motor stall, and communication link health.

use vstd::prelude::*;

use crate::math::div_toward_zero;
use crate::state::machine::ErrorKind;

verus! {

/// Maximum safe temperature in whole degrees Celsius
pub const MAX_TEMPERATURE_C: i16 = 55;

/// Time without a heartbeat after which one heartbeat counts as missed
pub const HEARTBEAT_TIMEOUT_MS: u32 = 3000;

/// Number of missed heartbeats after which the link counts as lost
pub const MAX_MISSED_HEARTBEATS: u8 = 3;

/// Safety condition status
#[derive(Debug, Clone, Copy, PartialEq, Eq, Structural)]
pub enum SafetyStatus {
    /// All conditions normal
    Nominal,
    /// Safety condition violated
    Fault(ErrorKind),
}

/// The status that the monitored conditions give, checked in order of
/// priority: sensor fault, over-temperature, motor stall, lost link.
pub open spec fn safety_status(
    temp_x10: Option<i16>,
    sensor_valid: bool,
    stalled: bool,
    missed: u8,
) -> SafetyStatus {
    if !sensor_valid {
        SafetyStatus::Fault(ErrorKind::ThermistorFault)
    } else if temp_x10 is Some && temp_x10->0 > MAX_TEMPERATURE_C * 10 {
        SafetyStatus::Fault(ErrorKind::OverTemperature)
    } else if stalled {
        SafetyStatus::Fault(ErrorKind::MotorStall)
    } else if missed >= MAX_MISSED_HEARTBEATS {
        SafetyStatus::Fault(ErrorKind::LinkLost)
    } else {
        SafetyStatus::Nominal
    }
}

/// The missed-heartbeat count and heartbeat clock after `delta_ms` more
/// milliseconds without a heartbeat: when the clock (saturating at
/// `u32::MAX`) reaches the timeout, one more heartbeat counts as missed
/// (saturating at 255) and the clock restarts.
pub open spec fn heartbeat_clock(missed: u8, since_ms: u32, delta_ms: u32) -> (u8, u32) {
    let t = if since_ms + delta_ms > u32::MAX { u32::MAX as int } else { since_ms + delta_ms };
    if t >= HEARTBEAT_TIMEOUT_MS {
        (if missed == u8::MAX { u8::MAX } else { (missed + 1) as u8 }, 0u32)
    } else {
        (missed, t as u32)
    }
}

/// Safety monitor for fault detection
///
/// This struct tracks safety-related state and determines
/// when to trigger error conditions.
#[derive(Debug, Clone)]
pub struct SafetyMonitor {
    /// Current temperature reading (×10 for 0.1°C resolution)
    last_temp_x10: Option<i16>,
    /// Temperature sensor valid
    temp_sensor_valid: bool,
    /// Motor stall detected
    motor_stalled: bool,
    /// Missed heartbeat count
    missed_heartbeats: u8,
    /// Time since last heartbeat (ms)
    time_since_heartbeat_ms: u32,
}

impl SafetyMonitor {
    /// The last temperature reading, in tenths of a degree.
    pub closed spec fn temp_x10(&self) -> Option<i16> {
        self.last_temp_x10
    }

    /// Whether the last temperature reading succeeded.
    pub closed spec fn sensor_valid(&self) -> bool {
        self.temp_sensor_valid
    }

    /// Whether a motor stall is reported.
    pub closed spec fn stalled(&self) -> bool {
        self.motor_stalled
    }

    /// The number of heartbeats missed since the last one received.
    pub closed spec fn missed(&self) -> u8 {
        self.missed_heartbeats
    }

    /// Milliseconds since the last heartbeat or the last missed one.
    pub closed spec fn since_heartbeat_ms(&self) -> u32 {
        self.time_since_heartbeat_ms
    }

    /// The monitor's invariant: the heartbeat clock stays below one timeout.
    pub closed spec fn wf(&self) -> bool {
        self.time_since_heartbeat_ms < HEARTBEAT_TIMEOUT_MS
    }

    /// Create a new safety monitor
    pub fn new() -> (r: Self)
        ensures
            r.wf(),
            r.temp_x10() is None,
            r.sensor_valid(),
            !r.stalled(),
            r.missed() == 0,
            r.since_heartbeat_ms() == 0,
    {
        SafetyMonitor {
            last_temp_x10: None,
            temp_sensor_valid: true,
            motor_stalled: false,
            missed_heartbeats: 0,
            time_since_heartbeat_ms: 0,
        }
    }

    /// Update temperature reading, in 0.1°C units, or None on a sensor fault
    pub fn update_temperature(&mut self, temp_x10: Option<i16>)
        ensures
            final(self).temp_x10() == temp_x10,
            final(self).sensor_valid() == (temp_x10 is Some),
            final(self).stalled() == old(self).stalled(),
            final(self).missed() == old(self).missed(),
            final(self).since_heartbeat_ms() == old(self).since_heartbeat_ms(),
    {
        self.last_temp_x10 = temp_x10;
        self.temp_sensor_valid = temp_x10.is_some();
    }

    /// Update motor stall status
    pub fn update_motor_stall(&mut self, stalled: bool)
        ensures
            final(self).stalled() == stalled,
            final(self).temp_x10() == old(self).temp_x10(),
            final(self).sensor_valid() == old(self).sensor_valid(),
            final(self).missed() == old(self).missed(),
            final(self).since_heartbeat_ms() == old(self).since_heartbeat_ms(),
    {
        self.motor_stalled = stalled;
    }

    /// Record a heartbeat received
    pub fn heartbeat_received(&mut self)
        ensures
            final(self).wf(),
            final(self).missed() == 0,
            final(self).since_heartbeat_ms() == 0,
            final(self).temp_x10() == old(self).temp_x10(),
            final(self).sensor_valid() == old(self).sensor_valid(),
            final(self).stalled() == old(self).stalled(),
    {
        self.missed_heartbeats = 0;
        self.time_since_heartbeat_ms = 0;
    }

    /// Update time tracking with the time elapsed since the last update
    ///
    /// Each time the heartbeat clock reaches the timeout, one more heartbeat
    /// counts as missed (saturating at 255) and the clock restarts.
    pub fn update_time(&mut self, delta_ms: u32)
        ensures
            (final(self).missed(), final(self).since_heartbeat_ms()) == heartbeat_clock(
                old(self).missed(),
                old(self).since_heartbeat_ms(),
                delta_ms,
            ),
            final(self).wf(),
            final(self).temp_x10() == old(self).temp_x10(),
            final(self).sensor_valid() == old(self).sensor_valid(),
            final(self).stalled() == old(self).stalled(),
    {
        self.time_since_heartbeat_ms = self.time_since_heartbeat_ms.saturating_add(delta_ms);

        if self.time_since_heartbeat_ms >= HEARTBEAT_TIMEOUT_MS {
            self.missed_heartbeats = self.missed_heartbeats.saturating_add(1);
            self.time_since_heartbeat_ms = 0;
        }
    }

    /// Check all safety conditions
    ///
    /// Returns the first fault detected, or Ok if all conditions are normal.
    pub fn check(&self) -> (r: SafetyStatus)
        ensures
            r == safety_status(self.temp_x10(), self.sensor_valid(), self.stalled(), self.missed()),
    {
        if !self.temp_sensor_valid {
            return SafetyStatus::Fault(ErrorKind::ThermistorFault);
        }
        if let Some(temp_x10) = self.last_temp_x10 {
            if temp_x10 > MAX_TEMPERATURE_C * 10 {
                return SafetyStatus::Fault(ErrorKind::OverTemperature);
            }
        }
        if self.motor_stalled {
            return SafetyStatus::Fault(ErrorKind::MotorStall);
        }
        if self.missed_heartbeats >= MAX_MISSED_HEARTBEATS {
            return SafetyStatus::Fault(ErrorKind::LinkLost);
        }
        SafetyStatus::Nominal
    }

    /// Get current temperature in whole degrees Celsius
    pub fn get_temperature(&self) -> (r: Option<i16>)
        ensures
            r == match self.temp_x10() {
                Some(t) => Some(div_toward_zero(t as int, 10) as i16),
                None => None,
            },
    {
        match self.last_temp_x10 {
            Some(t) => Some(t / 10),
            None => None,
        }
    }

    /// Check if link is healthy
    pub fn is_link_healthy(&self) -> (r: bool)
        ensures
            r == (self.missed() < MAX_MISSED_HEARTBEATS),
    {
        self.missed_heartbeats < MAX_MISSED_HEARTBEATS
    }

    /// Get number of missed heartbeats
    pub fn get_missed_heartbeats(&self) -> (r: u8)
        ensures
            r == self.missed(),
    {
        self.missed_heartbeats
    }
}

impl Default for SafetyMonitor {
    fn default() -> (r: Self)
        ensures
            r.wf(),
            r.temp_x10() is None,
            r.sensor_valid(),
            !r.stalled(),
            r.missed() == 0,
            r.since_heartbeat_ms() == 0,
    {
        Self::new()
    }
}

/// The monitor reports Ok exactly when no fault condition holds: the sensor
/// reads, the temperature is at most the limit, the motor runs free and
/// fewer than the allowed number of heartbeats were missed.
pub proof fn lemma_ok_iff_no_fault(temp_x10: Option<i16>, valid: bool, stalled: bool, missed: u8)
    ensures
        (safety_status(temp_x10, valid, stalled, missed) == SafetyStatus::Nominal) <==> (valid && !(
        temp_x10 is Some && temp_x10->0 > MAX_TEMPERATURE_C * 10) && !stalled && missed
            < MAX_MISSED_HEARTBEATS),
{
}

/// Starting from a heartbeat, three full timeouts without a heartbeat
/// lose the link, while two do not; a heartbeat restores it.
pub proof fn lemma_three_timeouts_lose_link()
    ensures
        ({
            let one = heartbeat_clock(0, 0, HEARTBEAT_TIMEOUT_MS);
            let two = heartbeat_clock(one.0, one.1, HEARTBEAT_TIMEOUT_MS);
            let three = heartbeat_clock(two.0, two.1, HEARTBEAT_TIMEOUT_MS);
            &&& two.0 < MAX_MISSED_HEARTBEATS
            &&& three.0 >= MAX_MISSED_HEARTBEATS
        }),
{
}

/// Time alone never reduces the count of missed heartbeats.
pub proof fn lemma_missed_never_decreases(missed: u8, since_ms: u32, delta_ms: u32)
    ensures
        heartbeat_clock(missed, since_ms, delta_ms).0 >= missed,
{
}

} // verus!
