//! PID autotune by the relay method of Åström and Hägglund: the heater is
//! switched on and off around a setpoint, the resulting temperature
//! oscillation is measured, and PID gains follow from the Ziegler-Nichols
//! rules.

use vstd::prelude::*;

use crate::bounded::{peak_list, peak_list_as_slice, peak_list_clear, peak_list_new, peak_list_push};
use crate::heater::fixed::{wrap_i32, Fixed32};
use crate::heater::pid::{clamp_int, PidCoefficients};
use crate::math::div_toward_zero;
use crate::traits::heater::{HeaterOutput, SensorError, TemperatureSensor};

verus! {

/// Minimum number of oscillation peaks required for reliable tuning
pub const MIN_PEAKS: usize = 12;

/// Maximum peaks to collect (limits memory usage)
pub const MAX_PEAKS: usize = 24;

/// Maximum autotune duration in ticks (20 minutes at 500 ms per tick)
pub const MAX_TICKS: u32 = 2400;

/// Autotune error types
#[derive(Debug, Clone, Copy, PartialEq, Eq, Structural)]
pub enum AutotuneError {
    /// Exceeded maximum temperature
    OverTemp,
    /// Took too long to complete
    Timeout,
    /// Temperature sensor error
    SensorFault,
    /// Oscillation too small to measure
    NoOscillation,
    /// User cancelled
    Cancelled,
}

/// Autotune state machine
#[derive(Debug, Clone, Copy, PartialEq, Eq, Structural)]
pub enum AutotuneState {
    /// Not running
    Idle,
    /// Initial heating to reach target temperature zone
    Heating,
    /// Oscillating around setpoint, collecting peaks
    Cycling,
    /// Successfully completed, coefficients available
    Complete,
    /// Failed (timeout, sensor error, etc.)
    Failed(AutotuneError),
}

/// Kind of a temperature peak
#[derive(Debug, Clone, Copy, PartialEq, Eq, Structural)]
pub enum PeakType {
    High,
    Low,
}

/// A recorded temperature peak
#[derive(Debug, Clone, Copy, PartialEq, Eq, Structural)]
pub struct Peak {
    /// Temperature at peak (x10)
    pub temp_x10: i16,
    /// Tick count when peak occurred
    pub tick: u32,
    /// Type of peak
    pub peak_type: PeakType,
}

/// Autotune configuration
#[derive(Debug, Clone, Copy, PartialEq, Eq, Structural)]
pub struct AutotuneConfig {
    /// Target temperature for tuning (degrees C x 10)
    pub target_x10: i16,
    /// Maximum allowed temperature (degrees C x 10)
    pub max_temp_x10: i16,
    /// Hysteresis for relay switching (degrees C x 10): the relay turns on
    /// below target - hysteresis and off above target + hysteresis
    pub hysteresis_x10: i16,
    /// Relay output level (0-255), typically 255 (full power)
    pub relay_output: u8,
}

impl Default for AutotuneConfig {
    /// Tune at 45.0 C, give up at 55.0 C, switch 0.5 C either side, full power
    fn default() -> (r: Self)
        ensures
            r == (AutotuneConfig { target_x10: 450, max_temp_x10: 550, hysteresis_x10: 5, relay_output: 255 }),
    {
        AutotuneConfig { target_x10: 450, max_temp_x10: 550, hysteresis_x10: 5, relay_output: 255 }
    }
}

/// Autotune result with calculated coefficients
#[derive(Debug, Clone, Copy)]
pub struct AutotuneResult {
    /// Calculated PID coefficients
    pub coefficients: PidCoefficients,
    /// Ultimate gain (Ku x 100)
    pub ku_x100: i32,
    /// Ultimate period in ticks (Tu)
    pub tu_ticks: u32,
    /// Average oscillation amplitude (degrees C x 10)
    pub amplitude_x10: i16,
}

impl AutotuneResult {
    /// The coefficients as Q16.16 numbers (Kp, Ki, Kd)
    pub fn to_fixed_coefficients(&self) -> (r: (Fixed32, Fixed32, Fixed32))
        ensures
            r == (self.coefficients.kp, self.coefficients.ki, self.coefficients.kd),
    {
        (self.coefficients.kp, self.coefficients.ki, self.coefficients.kd)
    }
}

// ---------------------------------------------------------------------
// Peak analysis and the Ziegler-Nichols rules
// ---------------------------------------------------------------------

/// The peaks of one kind, in the order they were recorded.
pub open spec fn peaks_of(ps: Seq<Peak>, t: PeakType) -> Seq<Peak>
    decreases ps.len(),
{
    if ps.len() == 0 {
        Seq::empty()
    } else {
        let r = peaks_of(ps.drop_last(), t);
        if ps.last().peak_type == t {
            r.push(ps.last())
        } else {
            r
        }
    }
}

/// The sum of the peaks' temperatures.
pub open spec fn sum_temps(ps: Seq<Peak>) -> int
    decreases ps.len(),
{
    if ps.len() == 0 {
        0
    } else {
        sum_temps(ps.drop_last()) + ps.last().temp_x10
    }
}

/// Average amplitude and period of the recorded oscillation: the
/// amplitude is half the difference of the average high and low peak
/// temperatures, the period the average distance between consecutive
/// peaks of the same kind. `None` with fewer than four peaks or fewer
/// than two of either kind.
pub open spec fn analyze_spec(ps: Seq<Peak>) -> Option<(i16, u32)> {
    let h = peaks_of(ps, PeakType::High);
    let l = peaks_of(ps, PeakType::Low);
    if ps.len() < 4 || h.len() < 2 || l.len() < 2 {
        None
    } else {
        let avg_high = div_toward_zero(sum_temps(h), h.len() as int);
        let avg_low = div_toward_zero(sum_temps(l), l.len() as int);
        let span = (h.last().tick - h[0].tick) + (l.last().tick - l[0].tick);
        let count = (h.len() - 1) + (l.len() - 1);
        Some((div_toward_zero(avg_high - avg_low, 2) as i16, (span / count) as u32))
    }
}

/// Ultimate gain Ku = 4 d / (pi a), as Ku x 100 with pi taken as 3.14.
pub open spec fn ultimate_gain_x100(relay_output: u8, amplitude_x10: i16) -> int {
    (4 * relay_output * 10000) / (314 * amplitude_x10)
}

/// Ziegler-Nichols Kp = 0.6 Ku (x 100), limited to 0..=i16::MAX.
pub open spec fn zn_kp_x100(ku_x100: int) -> int {
    clamp_int((60 * ku_x100) / 100, 0, 0x7fff)
}

/// Ziegler-Nichols Ki = 1.2 Ku / Tu (x 100), limited to 0..=i16::MAX.
pub open spec fn zn_ki_x100(ku_x100: int, tu_ticks: int) -> int {
    clamp_int((120 * ku_x100) / (100 * tu_ticks), 0, 0x7fff)
}

/// Ziegler-Nichols Kd = 0.075 Ku Tu, computed as 75 Ku Tu / 10000 on the
/// x 100 gain, limited to 0..=i16::MAX.
pub open spec fn zn_kd_x100(ku_x100: int, tu_ticks: int) -> int {
    clamp_int((75 * ku_x100 * tu_ticks) / 10000, 0, 0x7fff)
}

/// The tuning result for an oscillation of this amplitude and period,
/// or `None` when it is too small to measure (amplitude under 0.5 C or
/// period under 4 ticks).
pub open spec fn tune_spec(relay_output: u8, amplitude_x10: i16, tu_ticks: u32) -> Option<(int, int, int, int)> {
    if amplitude_x10 < 5 || tu_ticks < 4 {
        None
    } else {
        let ku = ultimate_gain_x100(relay_output, amplitude_x10);
        Some((ku, zn_kp_x100(ku), zn_ki_x100(ku, tu_ticks as int), zn_kd_x100(ku, tu_ticks as int)))
    }
}

/// A gain (x 100) as a Q16.16 number, as `Fixed32::from_scaled_100` makes it.
pub open spec fn fixed_from_x100(k: int) -> Fixed32 {
    Fixed32(div_toward_zero(wrap_i32(k * 65536), 100) as i32)
}

/// The result of tuning on an oscillation of this amplitude and period.
pub open spec fn tuned_result(relay_output: u8, amplitude_x10: i16, tu_ticks: u32) -> AutotuneResult {
    let ku = ultimate_gain_x100(relay_output, amplitude_x10);
    AutotuneResult {
        coefficients: PidCoefficients {
            kp: fixed_from_x100(zn_kp_x100(ku)),
            ki: fixed_from_x100(zn_ki_x100(ku, tu_ticks as int)),
            kd: fixed_from_x100(zn_kd_x100(ku, tu_ticks as int)),
        },
        ku_x100: ku as i32,
        tu_ticks,
        amplitude_x10,
    }
}

// ---------------------------------------------------------------------
// The autotuner's behaviour, over values
// ---------------------------------------------------------------------

/// The autotuner as values (without its sensor and heater).
#[verifier::ext_equal]
pub struct AutotuneView {
    pub config: AutotuneConfig,
    pub state: AutotuneState,
    pub tick_count: u32,
    pub peaks: Seq<Peak>,
    pub last_temp_x10: i16,
    pub prev_temp_x10: i16,
    pub heater_on: bool,
    pub result: Option<AutotuneResult>,
}

/// Whether the tuner is heating or cycling.
pub open spec fn is_active(s: AutotuneState) -> bool {
    s == AutotuneState::Heating || s == AutotuneState::Cycling
}

/// The heater is commanded off whenever tuning is not under way.
pub open spec fn heater_safe(v: AutotuneView) -> bool {
    !is_active(v.state) ==> !v.heater_on
}

/// The invariant the tuner keeps: its peaks are in tick order and older
/// than the current tick, there are at most `MAX_PEAKS` of them, the tick
/// count never passes `MAX_TICKS`, and the heater is off unless tuning.
pub open spec fn tuner_inv(v: AutotuneView) -> bool {
    &&& v.peaks.len() <= MAX_PEAKS
    &&& v.tick_count <= MAX_TICKS
    &&& is_active(v.state) ==> v.tick_count < MAX_TICKS
    &&& forall|i: int, j: int| 0 <= i < j < v.peaks.len() ==> v.peaks[i].tick < v.peaks[j].tick
    &&& forall|i: int| 0 <= i < v.peaks.len() ==> #[trigger] v.peaks[i].tick < v.tick_count
    &&& heater_safe(v)
}

/// The switching thresholds fit in an `i16`.
pub open spec fn config_fits(c: AutotuneConfig) -> bool {
    i16::MIN <= c.target_x10 - c.hysteresis_x10 <= i16::MAX && i16::MIN <= c.target_x10 + c.hysteresis_x10
        <= i16::MAX
}

/// Computing the result: the heater goes off; the state becomes complete
/// with the tuned gains, or failed when the oscillation is unusable.
pub open spec fn calculate_spec(v: AutotuneView) -> AutotuneView {
    let off = AutotuneView { heater_on: false, ..v };
    match analyze_spec(v.peaks) {
        None => AutotuneView { state: AutotuneState::Failed(AutotuneError::NoOscillation), ..off },
        Some((amp, period)) => if tune_spec(v.config.relay_output, amp, period) is None {
            AutotuneView { state: AutotuneState::Failed(AutotuneError::NoOscillation), ..off }
        } else {
            AutotuneView {
                state: AutotuneState::Complete,
                result: Some(tuned_result(v.config.relay_output, amp, period)),
                ..off
            }
        },
    }
}

/// Recording a peak at the previous sample when the temperature turned
/// (a high peak when it rose then fell, a low peak when it fell then
/// rose), unless the peak list is full; a full list is analysed.
pub open spec fn detect_spec(v: AutotuneView, t: i16) -> AutotuneView {
    let tick = (v.tick_count - 1) as u32;
    let peaks = if v.last_temp_x10 > v.prev_temp_x10 && v.last_temp_x10 > t {
        if v.peaks.len() < MAX_PEAKS {
            v.peaks.push(Peak { temp_x10: v.last_temp_x10, tick, peak_type: PeakType::High })
        } else {
            v.peaks
        }
    } else if v.last_temp_x10 < v.prev_temp_x10 && v.last_temp_x10 < t {
        if v.peaks.len() < MAX_PEAKS {
            v.peaks.push(Peak { temp_x10: v.last_temp_x10, tick, peak_type: PeakType::Low })
        } else {
            v.peaks
        }
    } else {
        v.peaks
    };
    let v1 = AutotuneView { peaks, ..v };
    if peaks.len() >= MAX_PEAKS {
        calculate_spec(v1)
    } else {
        v1
    }
}

/// One cycling step: relay switching with hysteresis, peak detection from
/// the third tick on, and analysis once enough peaks are recorded.
pub open spec fn cycling_spec(v: AutotuneView, t: i16) -> AutotuneView {
    let high = v.config.target_x10 + v.config.hysteresis_x10;
    let low = v.config.target_x10 - v.config.hysteresis_x10;
    let on = if t >= high && v.heater_on {
        false
    } else if t <= low && !v.heater_on {
        true
    } else {
        v.heater_on
    };
    let v1 = AutotuneView { heater_on: on, ..v };
    let v2 = if v.tick_count >= 3 {
        detect_spec(v1, t)
    } else {
        v1
    };
    if v2.peaks.len() >= MIN_PEAKS {
        calculate_spec(v2)
    } else {
        v2
    }
}

/// One heating step: on reaching the band below the target, switch the
/// heater off and start cycling.
pub open spec fn heating_spec(v: AutotuneView, t: i16) -> AutotuneView {
    if t >= v.config.target_x10 - v.config.hysteresis_x10 {
        AutotuneView { state: AutotuneState::Cycling, heater_on: false, ..v }
    } else {
        v
    }
}

/// One update on a temperature reading `t`.
pub open spec fn update_spec(v: AutotuneView, t: i16) -> AutotuneView {
    if !is_active(v.state) {
        v
    } else if t >= v.config.max_temp_x10 {
        AutotuneView { heater_on: false, state: AutotuneState::Failed(AutotuneError::OverTemp), ..v }
    } else {
        let tick = (v.tick_count + 1) as u32;
        let v1 = AutotuneView { tick_count: tick, ..v };
        if tick >= MAX_TICKS {
            AutotuneView { heater_on: false, state: AutotuneState::Failed(AutotuneError::Timeout), ..v1 }
        } else {
            let v2 = if v.state == AutotuneState::Heating {
                heating_spec(v1, t)
            } else {
                cycling_spec(v1, t)
            };
            AutotuneView { prev_temp_x10: v2.last_temp_x10, last_temp_x10: t, ..v2 }
        }
    }
}

proof fn lemma_peaks_of_ticks_below(s: Seq<Peak>, t: PeakType, b: int)
    requires
        forall|j: int| 0 <= j < s.len() ==> #[trigger] s[j].tick < b,
    ensures
        forall|k: int| 0 <= k < peaks_of(s, t).len() ==> #[trigger] peaks_of(s, t)[k].tick < b,
        peaks_of(s, t).len() <= s.len(),
    decreases s.len(),
{
    if s.len() > 0 {
        let d = s.drop_last();
        assert forall|j: int| 0 <= j < d.len() implies #[trigger] d[j].tick < b by {
            assert(d[j] == s[j]);
        }
        lemma_peaks_of_ticks_below(d, t, b);
    }
}

proof fn lemma_sum_temps_push(s: Seq<Peak>, x: Peak)
    ensures
        sum_temps(s.push(x)) == sum_temps(s) + x.temp_x10,
{
    assert(s.push(x).drop_last() =~= s);
}

proof fn lemma_sum_temps_bound(s: Seq<Peak>)
    ensures
        -32768 * s.len() <= sum_temps(s) <= 32767 * s.len(),
    decreases s.len(),
{
    if s.len() > 0 {
        lemma_sum_temps_bound(s.drop_last());
    }
}

/// Autotuner state machine, driving a heater from a temperature sensor
pub struct Autotuner<S, H> {
    sensor: S,
    heater: H,
    config: AutotuneConfig,
    state: AutotuneState,
    tick_count: u32,
    peaks: heapless::Vec<Peak, 24>,
    last_temp_x10: i16,
    prev_temp_x10: i16,
    heater_on: bool,
    result: Option<AutotuneResult>,
}

impl<S: TemperatureSensor, H: HeaterOutput> Autotuner<S, H> {
    /// The tuner as values.
    pub closed spec fn view(&self) -> AutotuneView {
        AutotuneView {
            config: self.config,
            state: self.state,
            tick_count: self.tick_count,
            peaks: peak_list(self.peaks),
            last_temp_x10: self.last_temp_x10,
            prev_temp_x10: self.prev_temp_x10,
            heater_on: self.heater_on,
            result: self.result,
        }
    }

    /// The temperature sensor.
    pub closed spec fn sensor_spec(&self) -> S {
        self.sensor
    }

    /// The heater output.
    pub closed spec fn heater_spec(&self) -> H {
        self.heater
    }

    /// Whether the heater is on exactly when the tuner commands it on.
    pub open spec fn heater_synced(&self) -> bool {
        self.heater_spec().on_spec() == self.view().heater_on
    }

    /// Create an idle autotuner
    pub fn new(sensor: S, heater: H, config: AutotuneConfig) -> (r: Self)
        ensures
            r.view() == (AutotuneView {
                config,
                state: AutotuneState::Idle,
                tick_count: 0,
                peaks: Seq::empty(),
                last_temp_x10: 0,
                prev_temp_x10: 0,
                heater_on: false,
                result: None,
            }),
            tuner_inv(r.view()),
            r.sensor_spec() == sensor,
            r.heater_spec() == heater,
    {
        Autotuner {
            sensor,
            heater,
            config,
            state: AutotuneState::Idle,
            tick_count: 0,
            peaks: peak_list_new(),
            last_temp_x10: 0,
            prev_temp_x10: 0,
            heater_on: false,
            result: None,
        }
    }

    /// Start autotuning: heater on, heating toward the target
    pub fn start(&mut self)
        ensures
            final(self).view() == (AutotuneView {
                config: old(self).view().config,
                state: AutotuneState::Heating,
                tick_count: 0,
                peaks: Seq::empty(),
                last_temp_x10: 0,
                prev_temp_x10: 0,
                heater_on: true,
                result: None,
            }),
            tuner_inv(final(self).view()),
            final(self).sensor_spec() == old(self).sensor_spec(),
            final(self).heater_synced(),
            final(self).heater_spec().on_spec(),
    {
        self.state = AutotuneState::Heating;
        self.tick_count = 0;
        peak_list_clear(&mut self.peaks);
        self.last_temp_x10 = 0;
        self.prev_temp_x10 = 0;
        self.heater_on = true;
        self.heater.set_on(true);
        self.result = None;
    }

    /// Cancel autotuning: heater off, failed as cancelled
    pub fn cancel(&mut self)
        requires
            tuner_inv(old(self).view()),
        ensures
            final(self).view() == (AutotuneView {
                heater_on: false,
                state: AutotuneState::Failed(AutotuneError::Cancelled),
                ..old(self).view()
            }),
            tuner_inv(final(self).view()),
            final(self).sensor_spec() == old(self).sensor_spec(),
            !final(self).heater_spec().on_spec(),
            final(self).heater_synced(),
    {
        self.heater.set_on(false);
        self.heater_on = false;
        self.state = AutotuneState::Failed(AutotuneError::Cancelled);
    }

    /// Get current state
    pub fn state(&self) -> (r: AutotuneState)
        ensures
            r == self.view().state,
    {
        self.state
    }

    /// Get peak count
    pub fn peak_count(&self) -> (r: usize)
        ensures
            r == self.view().peaks.len(),
    {
        peak_list_as_slice(&self.peaks).len()
    }

    /// Get elapsed ticks
    pub fn elapsed_ticks(&self) -> (r: u32)
        ensures
            r == self.view().tick_count,
    {
        self.tick_count
    }

    /// Get result (if complete)
    pub fn result(&self) -> (r: Option<&AutotuneResult>)
        ensures
            r is Some <==> self.view().result is Some,
            r is Some ==> *r->0 == self.view().result->0,
    {
        match &self.result {
            Some(res) => Some(res),
            None => None,
        }
    }

    /// Get access to sensor
    pub fn sensor(&self) -> (r: &S)
        ensures
            *r == self.sensor_spec(),
    {
        &self.sensor
    }

    /// Get access to heater
    pub fn heater(&self) -> (r: &H)
        ensures
            *r == self.heater_spec(),
    {
        &self.heater
    }

    /// Update the state machine: call at the control loop rate (e.g.
    /// every 500 ms). Reads the sensor only while tuning; a sensor error
    /// is returned and changes nothing.
    pub fn update(&mut self) -> (r: Result<(), SensorError>)
        requires
            tuner_inv(old(self).view()),
            config_fits(old(self).view().config),
        ensures
            tuner_inv(final(self).view()),
            !is_active(old(self).view().state) ==> r is Ok && final(self).view() == old(self).view(),
            r is Err ==> final(self).view() == old(self).view(),
            is_active(old(self).view().state) && r is Ok ==> exists|t: i16|
                final(self).view() == update_spec(old(self).view(), t),
            old(self).heater_synced() ==> final(self).heater_synced(),
            is_active(old(self).view().state) && !is_active(final(self).view().state)
                ==> !final(self).heater_spec().on_spec(),
            r is Err || !is_active(old(self).view().state) ==> final(self).heater_spec()
                == old(self).heater_spec(),
    {
        if !(self.state == AutotuneState::Heating || self.state == AutotuneState::Cycling) {
            return Ok(());
        }
        let reading = self.sensor.read_celsius_x10();
        self.update_with_reading(reading)
    }

    /// One update on a sensor reading (see `update_spec`); a failed
    /// reading while tuning is returned unchanged and changes nothing.
    pub fn update_with_reading(&mut self, reading: Result<i16, SensorError>) -> (r: Result<(), SensorError>)
        requires
            tuner_inv(old(self).view()),
            config_fits(old(self).view().config),
        ensures
            tuner_inv(final(self).view()),
            !is_active(old(self).view().state) ==> r is Ok && final(self).view() == old(self).view(),
            is_active(old(self).view().state) ==> r == (match reading {
                Ok(_) => Ok(()),
                Err(e) => Err(e),
            }),
            is_active(old(self).view().state) && reading is Err ==> final(self).view() == old(self).view(),
            is_active(old(self).view().state) && reading is Ok ==> final(self).view() == update_spec(
                old(self).view(),
                reading->Ok_0,
            ),
            final(self).sensor_spec() == old(self).sensor_spec(),
            old(self).heater_synced() ==> final(self).heater_synced(),
            is_active(old(self).view().state) && !is_active(final(self).view().state)
                ==> !final(self).heater_spec().on_spec(),
            !is_active(old(self).view().state) || reading is Err ==> final(self).heater_spec()
                == old(self).heater_spec(),
    {
        if !(self.state == AutotuneState::Heating || self.state == AutotuneState::Cycling) {
            return Ok(());
        }
        let temp_x10 = match reading {
            Ok(t) => t,
            Err(e) => {
                return Err(e);
            },
        };
        let ghost v = self.view();
        if temp_x10 >= self.config.max_temp_x10 {
            self.heater.set_on(false);
            self.heater_on = false;
            self.state = AutotuneState::Failed(AutotuneError::OverTemp);
            proof {
                assert(self.view() =~= update_spec(v, temp_x10));
            }
            return Ok(());
        }
        self.tick_count = self.tick_count + 1;
        if self.tick_count >= MAX_TICKS {
            self.heater.set_on(false);
            self.heater_on = false;
            self.state = AutotuneState::Failed(AutotuneError::Timeout);
            proof {
                assert(self.view() =~= update_spec(v, temp_x10));
            }
            return Ok(());
        }
        if self.state == AutotuneState::Heating {
            self.run_heating(temp_x10);
        } else {
            self.run_cycling(temp_x10);
        }
        self.prev_temp_x10 = self.last_temp_x10;
        self.last_temp_x10 = temp_x10;
        proof {
            assert(self.view() =~= update_spec(v, temp_x10));
        }
        Ok(())
    }

    fn run_heating(&mut self, temp_x10: i16)
        requires
            config_fits(old(self).view().config),
        ensures
            final(self).view() == heating_spec(old(self).view(), temp_x10),
            final(self).sensor_spec() == old(self).sensor_spec(),
            old(self).heater_synced() ==> final(self).heater_synced(),
    {
        let ghost v = self.view();
        let target_low = self.config.target_x10 - self.config.hysteresis_x10;
        if temp_x10 >= target_low {
            self.state = AutotuneState::Cycling;
            self.heater.set_on(false);
            self.heater_on = false;
        }
        proof {
            assert(self.view() =~= heating_spec(v, temp_x10));
        }
    }

    fn run_cycling(&mut self, temp_x10: i16)
        requires
            config_fits(old(self).view().config),
            old(self).view().tick_count >= 1,
            old(self).view().tick_count < MAX_TICKS,
            old(self).view().peaks.len() <= MAX_PEAKS,
            forall|i: int, j: int|
                0 <= i < j < old(self).view().peaks.len() ==> old(self).view().peaks[i].tick < old(
                    self,
                ).view().peaks[j].tick,
            forall|i: int|
                0 <= i < old(self).view().peaks.len() ==> #[trigger] old(self).view().peaks[i].tick
                    < old(self).view().tick_count - 1,
        ensures
            final(self).view() == cycling_spec(old(self).view(), temp_x10),
            final(self).sensor_spec() == old(self).sensor_spec(),
            old(self).heater_synced() ==> final(self).heater_synced(),
            final(self).view().state != old(self).view().state ==> !final(self).heater_spec().on_spec(),
    {
        let ghost v = self.view();
        let target_high = self.config.target_x10 + self.config.hysteresis_x10;
        let target_low = self.config.target_x10 - self.config.hysteresis_x10;
        if temp_x10 >= target_high && self.heater_on {
            self.heater.set_on(false);
            self.heater_on = false;
        } else if temp_x10 <= target_low && !self.heater_on {
            self.heater.set_on(true);
            self.heater_on = true;
        }
        let ghost v1 = self.view();
        if self.tick_count >= 3 {
            self.detect_peak(temp_x10);
        }
        let ghost v2 = self.view();
        if peak_list_as_slice(&self.peaks).len() >= MIN_PEAKS {
            self.calculate_result();
        }
        proof {
            assert(v1 =~= AutotuneView { heater_on: v1.heater_on, ..v });
        }
    }

    fn detect_peak(&mut self, temp_x10: i16)
        requires
            old(self).view().tick_count >= 1,
            old(self).view().tick_count < MAX_TICKS,
            old(self).view().peaks.len() <= MAX_PEAKS,
            forall|i: int, j: int|
                0 <= i < j < old(self).view().peaks.len() ==> old(self).view().peaks[i].tick < old(
                    self,
                ).view().peaks[j].tick,
            forall|i: int|
                0 <= i < old(self).view().peaks.len() ==> #[trigger] old(self).view().peaks[i].tick
                    < old(self).view().tick_count - 1,
        ensures
            final(self).view() == detect_spec(old(self).view(), temp_x10),
            final(self).sensor_spec() == old(self).sensor_spec(),
            old(self).heater_synced() ==> final(self).heater_synced(),
            final(self).view().state != old(self).view().state ==> !final(self).heater_spec().on_spec(),
    {
        let ghost v = self.view();
        if self.last_temp_x10 > self.prev_temp_x10 && self.last_temp_x10 > temp_x10 {
            let peak = Peak { temp_x10: self.last_temp_x10, tick: self.tick_count - 1, peak_type: PeakType::High };
            let _ = peak_list_push(&mut self.peaks, peak);
        } else if self.last_temp_x10 < self.prev_temp_x10 && self.last_temp_x10 < temp_x10 {
            let peak = Peak { temp_x10: self.last_temp_x10, tick: self.tick_count - 1, peak_type: PeakType::Low };
            let _ = peak_list_push(&mut self.peaks, peak);
        }
        let ghost v1 = self.view();
        proof {
            assert(v1 =~= AutotuneView { peaks: v1.peaks, ..v });
        }
        if peak_list_as_slice(&self.peaks).len() >= MAX_PEAKS {
            self.calculate_result();
        }
    }

    fn calculate_result(&mut self)
        requires
            old(self).view().peaks.len() <= MAX_PEAKS,
            forall|i: int, j: int|
                0 <= i < j < old(self).view().peaks.len() ==> old(self).view().peaks[i].tick < old(
                    self,
                ).view().peaks[j].tick,
            forall|i: int|
                0 <= i < old(self).view().peaks.len() ==> #[trigger] old(self).view().peaks[i].tick
                    < MAX_TICKS,
        ensures
            final(self).view() == calculate_spec(old(self).view()),
            final(self).sensor_spec() == old(self).sensor_spec(),
            !final(self).heater_spec().on_spec(),
    {
        let ghost v = self.view();
        self.heater.set_on(false);
        self.heater_on = false;
        let (amplitude_x10, period_ticks) = match self.analyze_peaks() {
            Some(values) => values,
            None => {
                self.state = AutotuneState::Failed(AutotuneError::NoOscillation);
                proof {
                    assert(self.view() =~= calculate_spec(v));
                }
                return;
            },
        };
        if amplitude_x10 < 5 || period_ticks < 4 {
            self.state = AutotuneState::Failed(AutotuneError::NoOscillation);
            proof {
                assert(self.view() =~= calculate_spec(v));
            }
            return;
        }
        let d = self.config.relay_output as i32;
        assert(0 <= 4 * d * 10000 / (314 * amplitude_x10) <= 6497) by (nonlinear_arith)
            requires
                0 <= d <= 255,
                5 <= amplitude_x10,
        ;
        let ku_x100: i32 = (4 * d * 10000) / (314 * amplitude_x10 as i32);
        let tu_ticks = period_ticks;
        let tu = tu_ticks as i32;
        assert(0 <= 75 * ku_x100 * tu <= 75 * 6497 * 2400) by (nonlinear_arith)
            requires
                0 <= ku_x100 <= 6497,
                4 <= tu <= 2400,
        ;
        let kp_raw: i32 = (60 * ku_x100) / 100;
        let ki_raw: i32 = (120 * ku_x100) / (100 * tu);
        let kd_raw: i32 = (75 * ku_x100 * tu) / 10000;
        let kp_x100: i32 = if kp_raw < 0 { 0 } else if kp_raw > 0x7fff { 0x7fff } else { kp_raw };
        let ki_x100: i32 = if ki_raw < 0 { 0 } else if ki_raw > 0x7fff { 0x7fff } else { ki_raw };
        let kd_x100: i32 = if kd_raw < 0 { 0 } else if kd_raw > 0x7fff { 0x7fff } else { kd_raw };
        let coefficients = PidCoefficients::from_scaled_100(kp_x100, ki_x100, kd_x100);
        self.result = Some(AutotuneResult { coefficients, ku_x100, tu_ticks, amplitude_x10 });
        self.state = AutotuneState::Complete;
        proof {
            assert(self.view() =~= calculate_spec(v));
        }
    }

    /// Average amplitude and period of the recorded peaks (see `analyze_spec`)
    fn analyze_peaks(&self) -> (r: Option<(i16, u32)>)
        requires
            self.view().peaks.len() <= MAX_PEAKS,
            forall|i: int, j: int|
                0 <= i < j < self.view().peaks.len() ==> self.view().peaks[i].tick < self.view().peaks[j].tick,
            forall|i: int| 0 <= i < self.view().peaks.len() ==> #[trigger] self.view().peaks[i].tick < MAX_TICKS,
        ensures
            r == analyze_spec(self.view().peaks),
            r matches Some((a, p)) ==> p < MAX_TICKS,
    {
        let ps = peak_list_as_slice(&self.peaks);
        let n = ps.len();
        if n < 4 {
            return None;
        }
        let mut high_count: u32 = 0;
        let mut high_sum: i32 = 0;
        let mut high_first: u32 = 0;
        let mut high_last: u32 = 0;
        let mut low_count: u32 = 0;
        let mut low_sum: i32 = 0;
        let mut low_first: u32 = 0;
        let mut low_last: u32 = 0;
        let mut i: usize = 0;
        while i < n
            invariant
                n == ps@.len(),
                n <= MAX_PEAKS,
                i <= n,
                ps@ == self.view().peaks,
                forall|a: int, b: int| 0 <= a < b < ps@.len() ==> ps@[a].tick < ps@[b].tick,
                forall|a: int| 0 <= a < ps@.len() ==> #[trigger] ps@[a].tick < MAX_TICKS,
                high_count == peaks_of(ps@.take(i as int), PeakType::High).len(),
                high_sum == sum_temps(peaks_of(ps@.take(i as int), PeakType::High)),
                high_count > 0 ==> high_first == peaks_of(ps@.take(i as int), PeakType::High)[0].tick
                    && high_last == peaks_of(ps@.take(i as int), PeakType::High).last().tick
                    && high_first <= high_last,
                low_count == peaks_of(ps@.take(i as int), PeakType::Low).len(),
                low_sum == sum_temps(peaks_of(ps@.take(i as int), PeakType::Low)),
                low_count > 0 ==> low_first == peaks_of(ps@.take(i as int), PeakType::Low)[0].tick
                    && low_last == peaks_of(ps@.take(i as int), PeakType::Low).last().tick
                    && low_first <= low_last,
            decreases n - i,
        {
            let p = ps[i];
            let ghost pre = ps@.take(i as int);
            proof {
                assert(ps@.take(i + 1).drop_last() =~= pre);
                assert(ps@.take(i + 1).last() == p);
                assert forall|j: int| 0 <= j < pre.len() implies #[trigger] pre[j].tick < p.tick by {
                    assert(pre[j] == ps@[j]);
                }
                lemma_peaks_of_ticks_below(pre, PeakType::High, p.tick as int);
                lemma_peaks_of_ticks_below(pre, PeakType::Low, p.tick as int);
                lemma_sum_temps_bound(peaks_of(pre, PeakType::High));
                lemma_sum_temps_bound(peaks_of(pre, PeakType::Low));
                lemma_sum_temps_push(peaks_of(pre, PeakType::High), p);
                lemma_sum_temps_push(peaks_of(pre, PeakType::Low), p);
            }
            match p.peak_type {
                PeakType::High => {
                    if high_count == 0 {
                        high_first = p.tick;
                    }
                    high_last = p.tick;
                    high_sum = high_sum + p.temp_x10 as i32;
                    high_count = high_count + 1;
                },
                PeakType::Low => {
                    if low_count == 0 {
                        low_first = p.tick;
                    }
                    low_last = p.tick;
                    low_sum = low_sum + p.temp_x10 as i32;
                    low_count = low_count + 1;
                },
            }
            i = i + 1;
        }
        proof {
            assert(ps@.take(n as int) =~= ps@);
        }
        if high_count < 2 || low_count < 2 {
            return None;
        }
        proof {
            lemma_sum_temps_bound(peaks_of(ps@, PeakType::High));
            lemma_sum_temps_bound(peaks_of(ps@, PeakType::Low));
            lemma_peaks_of_ticks_below(ps@, PeakType::High, MAX_TICKS as int);
            lemma_peaks_of_ticks_below(ps@, PeakType::Low, MAX_TICKS as int);
        }
        let avg_high: i32 = high_sum / (high_count as i32);
        let avg_low: i32 = low_sum / (low_count as i32);
        assert(-32768 <= avg_high <= 32767) by (nonlinear_arith)
            requires
                -32768 * high_count <= high_sum <= 32767 * high_count,
                high_count >= 2,
                avg_high == div_toward_zero(high_sum as int, high_count as int),
        {
        }
        assert(-32768 <= avg_low <= 32767) by (nonlinear_arith)
            requires
                -32768 * low_count <= low_sum <= 32767 * low_count,
                low_count >= 2,
                avg_low == div_toward_zero(low_sum as int, low_count as int),
        {
        }
        let amplitude_x10 = ((avg_high - avg_low) / 2) as i16;
        let span: u32 = (high_last - high_first) + (low_last - low_first);
        let count: u32 = (high_count - 1) + (low_count - 1);
        let avg_period = span / count;
        assert(avg_period < MAX_TICKS) by (nonlinear_arith)
            requires
                span <= 2 * (MAX_TICKS - 1),
                count >= 2,
                avg_period == span / count,
        ;
        Some((amplitude_x10, avg_period))
    }
}

/// Tuning never leaves the heater on: once tuning is not under way (idle,
/// complete or failed) the heater is commanded off, and every update keeps
/// it so.
pub proof fn lemma_update_keeps_heater_safe(v: AutotuneView, t: i16)
    requires
        tuner_inv(v),
    ensures
        heater_safe(update_spec(v, t)),
        update_spec(v, t).tick_count <= MAX_TICKS,
        t >= v.config.max_temp_x10 && is_active(v.state) ==> update_spec(v, t).state
            == AutotuneState::Failed(AutotuneError::OverTemp) && !update_spec(v, t).heater_on,
{
}

/// A tuner whose heater follows its command (as after `start`, and kept so
/// by every update) has its heater off whenever tuning is not under way.
pub proof fn lemma_synced_heater_off_when_not_tuning<S: TemperatureSensor, H: HeaterOutput>(
    a: Autotuner<S, H>,
)
    requires
        tuner_inv(a.view()),
        a.heater_synced(),
        !is_active(a.view().state),
    ensures
        !a.heater_spec().on_spec(),
{
}

} // verus!
