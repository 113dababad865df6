//! NTC 100K thermistor sensor, the common thermistor of 3D printing, read
//! through a lookup table with integer-only interpolation.

use vstd::prelude::*;

use crate::traits::heater::{SensorError, TemperatureSensor};

verus! {

/// Number of entries in the thermistor table.
pub const TEMP_TABLE_LEN: usize = 18;

/// The thermistor table entry `i`: (resistance in ohms, temperature in
/// tenths of a degree), generated from the beta equation with R0 = 100 kΩ at
/// T0 = 25°C and beta = 3950 K, from -20°C to 150°C, by decreasing
/// resistance.
pub open spec fn temp_table(i: int) -> (int, int) {
    if i == 0 {
        (1_750_000, -200)
    } else if i == 1 {
        (1_000_000, -100)
    } else if i == 2 {
        (600_000, 0)
    } else if i == 3 {
        (350_000, 100)
    } else if i == 4 {
        (200_000, 200)
    } else if i == 5 {
        (100_000, 250)
    } else if i == 6 {
        (80_000, 300)
    } else if i == 7 {
        (55_000, 400)
    } else if i == 8 {
        (40_000, 450)
    } else if i == 9 {
        (30_000, 500)
    } else if i == 10 {
        (25_000, 550)
    } else if i == 11 {
        (18_000, 600)
    } else if i == 12 {
        (12_000, 700)
    } else if i == 13 {
        (8_000, 800)
    } else if i == 14 {
        (5_500, 900)
    } else if i == 15 {
        (4_000, 1000)
    } else if i == 16 {
        (2_000, 1200)
    } else {
        (1_000, 1500)
    }
}

/// Entry `i` of the thermistor table.
fn temp_table_entry(i: usize) -> (r: (u32, i16))
    requires
        i < TEMP_TABLE_LEN,
    ensures
        r.0 == temp_table(i as int).0,
        r.1 == temp_table(i as int).1,
{
    match i {
        0 => (1_750_000, -200),
        1 => (1_000_000, -100),
        2 => (600_000, 0),
        3 => (350_000, 100),
        4 => (200_000, 200),
        5 => (100_000, 250),
        6 => (80_000, 300),
        7 => (55_000, 400),
        8 => (40_000, 450),
        9 => (30_000, 500),
        10 => (25_000, 550),
        11 => (18_000, 600),
        12 => (12_000, 700),
        13 => (8_000, 800),
        14 => (5_500, 900),
        15 => (4_000, 1000),
        16 => (2_000, 1200),
        _ => (1_000, 1500),
    }
}

/// Linear interpolation on segment `i` of the table (between entries `i`
/// and `i + 1`), rounding toward zero.
pub open spec fn interpolate(i: int, resistance: int) -> int {
    let (r_high, t_low) = temp_table(i);
    let (r_low, t_high) = temp_table(i + 1);
    t_low + (t_high - t_low) * (r_high - resistance) / (r_high - r_low)
}

/// Whether table segment `i` covers `resistance`.
pub open spec fn in_segment(i: int, resistance: int) -> bool {
    temp_table(i + 1).0 <= resistance <= temp_table(i).0
}

/// The temperature for a resistance, searching the segments from `i` on
/// and interpolating on the first that covers it.
pub open spec fn lookup_from(i: int, resistance: int) -> Option<int>
    decreases TEMP_TABLE_LEN - i,
{
    if i < 0 || i >= TEMP_TABLE_LEN - 1 {
        None
    } else if in_segment(i, resistance) {
        Some(interpolate(i, resistance))
    } else {
        lookup_from(i + 1, resistance)
    }
}

/// The temperature in tenths of a degree for a thermistor resistance, or
/// `OutOfRange` outside the table.
pub open spec fn resistance_temp(resistance: int) -> Result<i16, SensorError> {
    if resistance > temp_table(0).0 || resistance < temp_table(TEMP_TABLE_LEN - 1).0 {
        Err(SensorError::OutOfRange)
    } else {
        match lookup_from(0, resistance) {
            Some(t) => Ok(t as i16),
            None => Err(SensorError::OutOfRange),
        }
    }
}

/// The resistance that a 12-bit ADC reading gives with pull-up
/// `pullup_ohms` (VCC -- pullup -- ADC pin -- NTC -- GND), truncated to
/// 32 bits; an open circuit at the top of the range and a short at the
/// bottom.
pub open spec fn adc_resistance(pullup_ohms: u32, adc_value: u16, adc_max: u16) -> Result<
    u32,
    SensorError,
> {
    if adc_value >= adc_max - 10 {
        Err(SensorError::OpenCircuit)
    } else if adc_value < 10 {
        Err(SensorError::ShortCircuit)
    } else {
        Ok(((pullup_ohms * adc_value) / (adc_max - adc_value)) as u32)
    }
}

/// A reading within 10 counts of full scale is an open thermistor, and one
/// below 10 counts a short.
pub proof fn lemma_adc_resistance_faults(pullup_ohms: u32, v: u16)
    ensures
        v >= ADC_MAX - 10 ==> adc_resistance(pullup_ohms, v, ADC_MAX) == Err::<u32, SensorError>(
            SensorError::OpenCircuit,
        ),
        v < 10 ==> adc_resistance(pullup_ohms, v, ADC_MAX) == Err::<u32, SensorError>(
            SensorError::ShortCircuit,
        ),
{
}

/// The voltage divider: for an in-range reading `v` the resistance `r`
/// solves Rp · v = r · (4096 − v) up to rounding down, that is
/// r · (4096 − v) ≤ Rp · v < (r + 1) · (4096 − v), whenever it fits 32 bits.
pub proof fn lemma_adc_resistance_divider(pullup_ohms: u32, v: u16)
    requires
        10 <= v < ADC_MAX - 10,
        (pullup_ohms * v) / (ADC_MAX - v) <= u32::MAX,
    ensures
        adc_resistance(pullup_ohms, v, ADC_MAX) is Ok,
        ({
            let r = adc_resistance(pullup_ohms, v, ADC_MAX)->Ok_0;
            r * (4096 - v) <= pullup_ohms * v < (r + 1) * (4096 - v)
        }),
{
    let n = pullup_ohms * v;
    let d = 4096 - v;
    assert(n >= 0) by (nonlinear_arith)
        requires
            n == pullup_ohms * v,
    ;
    assert((n / d) * d <= n < (n / d + 1) * d) by (nonlinear_arith)
        requires
            d > 0,
            n >= 0,
    ;
    let r = adc_resistance(pullup_ohms, v, ADC_MAX)->Ok_0;
    assert(r == n / d);
}

/// A higher divider voltage means a higher thermistor resistance: the
/// resistance never decreases as the reading rises.
pub proof fn lemma_adc_resistance_monotonic(pullup_ohms: u32, v1: u16, v2: u16)
    requires
        10 <= v1 <= v2 < ADC_MAX - 10,
        (pullup_ohms * v2) / (ADC_MAX - v2) <= u32::MAX,
    ensures
        adc_resistance(pullup_ohms, v1, ADC_MAX) is Ok,
        adc_resistance(pullup_ohms, v2, ADC_MAX) is Ok,
        adc_resistance(pullup_ohms, v1, ADC_MAX)->Ok_0 <= adc_resistance(pullup_ohms, v2, ADC_MAX)->Ok_0,
{
    let (n1, d1) = (pullup_ohms * v1, 4096 - v1);
    let (n2, d2) = (pullup_ohms * v2, 4096 - v2);
    assert(0 <= n1 <= n2) by (nonlinear_arith)
        requires
            n1 == pullup_ohms * v1,
            n2 == pullup_ohms * v2,
            0 <= v1 <= v2,
            pullup_ohms >= 0,
    ;
    assert(n1 / d1 <= n2 / d2) by (nonlinear_arith)
        requires
            0 <= n1 <= n2,
            0 < d2 <= d1,
    {
        vstd::arithmetic::div_mod::lemma_div_is_ordered_by_denominator(n1, d2, d1);
        vstd::arithmetic::div_mod::lemma_div_is_ordered(n1, n2, d2);
    }
    lemma_adc_resistance_divider(pullup_ohms, v1);
    lemma_adc_resistance_divider(pullup_ohms, v2);
}

/// ADC reading trait for platform abstraction
pub trait AdcReader {
    /// Read ADC value (12-bit, 0-4095)
    #[allow(clippy::result_unit_err)]
    fn read(&mut self) -> Result<u16, ()>;
}

/// ADC that always reads a fixed value, for testing
pub struct DummyAdc(pub u16);

impl AdcReader for DummyAdc {
    fn read(&mut self) -> (r: Result<u16, ()>)
        ensures
            r == Ok::<u16, ()>(old(self).0),
    {
        Ok(self.0)
    }
}

/// NTC 100K thermistor with B=3950
///
/// Uses lookup table with linear interpolation for temperature calculation.
pub struct Ntc100kSensor<ADC> {
    adc: ADC,
    /// ADC reference voltage in mV (kept for the circuit description)
    #[allow(dead_code)]
    vref_mv: u16,
    /// Pull-up resistor value in ohms
    pullup_ohms: u32,
}

/// ADC resolution: a 12-bit ADC counts to 4096
pub const ADC_MAX: u16 = 4096;

impl<ADC> Ntc100kSensor<ADC> {
    /// The pull-up resistance in ohms.
    pub closed spec fn pullup(&self) -> u32 {
        self.pullup_ohms
    }


    /// Create a new NTC sensor with reference voltage `vref_mv` (typically
    /// 3300) and pull-up `pullup_ohms` (typically 4700 for 3.3V systems)
    pub fn new(adc: ADC, vref_mv: u16, pullup_ohms: u32) -> (r: Self)
        ensures
            r.pullup() == pullup_ohms,
    {
        Ntc100kSensor { adc, vref_mv, pullup_ohms }
    }

    /// Convert ADC reading to resistance:
    /// R_ntc = R_pullup * adc_value / (adc_max - adc_value)
    pub fn adc_to_resistance(&self, adc_value: u16) -> (r: Result<u32, SensorError>)
        ensures
            r == adc_resistance(self.pullup(), adc_value, ADC_MAX),
    {
        if adc_value >= ADC_MAX - 10 {
            return Err(SensorError::OpenCircuit);
        }
        if adc_value < 10 {
            return Err(SensorError::ShortCircuit);
        }
        let a = self.pullup_ohms as u64;
        let b = adc_value as u64;
        assert(a * b <= 0xffff_ffff * 0xffff) by (nonlinear_arith)
            requires
                a <= 0xffff_ffff,
                b <= 0xffff,
        ;
        let numerator = a * b;
        let denominator = (ADC_MAX - adc_value) as u64;
        Ok((numerator / denominator) as u32)
    }

    /// Calculate temperature from resistance using the lookup table, in
    /// 0.1°C units (250 = 25.0°C), interpolating linearly between entries.
    pub fn resistance_to_temp_x10(resistance: u32) -> (r: Result<i16, SensorError>)
        ensures
            r == resistance_temp(resistance as int),
    {
        if resistance > 1_750_000 {
            // Resistance too high = too cold or open
            return Err(SensorError::OutOfRange);
        }
        if resistance < 1_000 {
            // Resistance too low = too hot or shorted
            return Err(SensorError::OutOfRange);
        }
        // The table is sorted by decreasing resistance

        let mut i: usize = 0;
        while i < TEMP_TABLE_LEN - 1
            invariant
                i <= TEMP_TABLE_LEN - 1,
                1_000 <= resistance <= 1_750_000,
                lookup_from(0, resistance as int) == lookup_from(i as int, resistance as int),
            decreases TEMP_TABLE_LEN - 1 - i,
        {
            let (r_high, t_low) = temp_table_entry(i);
            let (r_low, t_high) = temp_table_entry(i + 1);

            if resistance <= r_high && resistance >= r_low {
                proof {
                    lemma_segment_bounds(i as int, resistance as int);
                }
                let r_range = r_high - r_low;
                let t_range = t_high - t_low;
                let r_offset = r_high - resistance;
                assert(0 <= t_range * r_offset <= 300 * 750_000) by (nonlinear_arith)
                    requires
                        0 < t_range <= 300,
                        0 <= r_offset <= 750_000,
                ;
                let prod = t_range as i32 * r_offset as i32;
                let temp = t_low + (prod / r_range as i32) as i16;
                return Ok(temp);
            }
            i = i + 1;
        }
        Err(SensorError::OutOfRange)
    }
}

/// On each segment the table's resistances decrease and its temperatures
/// increase, by at most 300, across at most 750 kΩ, so the interpolated
/// temperature lies between the segment's two temperatures.
pub proof fn lemma_segment_bounds(i: int, resistance: int)
    requires
        0 <= i < TEMP_TABLE_LEN - 1,
        in_segment(i, resistance),
    ensures
        temp_table(i + 1).0 < temp_table(i).0,
        temp_table(i).0 - temp_table(i + 1).0 <= 750_000,
        temp_table(i).0 <= 1_750_000,
        0 < temp_table(i + 1).1 - temp_table(i).1 <= 300,
        temp_table(i).1 <= interpolate(i, resistance) <= temp_table(i + 1).1,
{
    let (r_high, t_low) = temp_table(i);
    let (r_low, t_high) = temp_table(i + 1);
    assert(0 <= (t_high - t_low) * (r_high - resistance) / (r_high - r_low) <= t_high - t_low)
        by (nonlinear_arith)
        requires
            r_low <= resistance <= r_high,
            r_low < r_high,
            t_low < t_high,
    ;
}

/// The table's resistances strictly decrease.
proof fn lemma_table_decreasing(j: int)
    requires
        0 <= j < TEMP_TABLE_LEN - 1,
    ensures
        temp_table(j + 1).0 < temp_table(j).0,
        temp_table(j).1 < temp_table(j + 1).1,
{
}

/// Searching for a table resistance skips every segment before the one
/// that ends at it.
proof fn lemma_lookup_reaches(j: int, k: int)
    requires
        0 <= j <= k - 1,
        k < TEMP_TABLE_LEN,
    ensures
        lookup_from(j, temp_table(k).0) == lookup_from(k - 1, temp_table(k).0),
    decreases k - 1 - j,
{
    if j < k - 1 {
        lemma_table_below(j + 1, k);
        lemma_lookup_reaches(j + 1, k);
    }
}

/// A later table resistance is below every earlier one.
proof fn lemma_table_below(j: int, k: int)
    requires
        0 <= j < k,
        k < TEMP_TABLE_LEN,
    ensures
        temp_table(k).0 < temp_table(j).0,
    decreases k - j,
{
    lemma_table_decreasing(k - 1);
    if j < k - 1 {
        lemma_table_below(j, k - 1);
    }
}

/// Later table temperatures are higher.
proof fn lemma_table_temps_increase(j: int, k: int)
    requires
        0 <= j <= k < TEMP_TABLE_LEN,
    ensures
        temp_table(j).1 <= temp_table(k).1,
    decreases k - j,
{
    if j < k {
        lemma_table_decreasing(k - 1);
        lemma_table_temps_increase(j, k - 1);
    }
}

/// The segment on which the search from `j` settles for a resistance
/// within the table: the first that covers it.
proof fn lemma_lookup_finds(j: int, resistance: int) -> (i: int)
    requires
        0 <= j < TEMP_TABLE_LEN - 1,
        temp_table(TEMP_TABLE_LEN - 1).0 <= resistance <= temp_table(j).0,
    ensures
        j <= i < TEMP_TABLE_LEN - 1,
        in_segment(i, resistance),
        lookup_from(j, resistance) == Some(interpolate(i, resistance)),
        i > j ==> resistance < temp_table(i).0,
    decreases TEMP_TABLE_LEN - j,
{
    if in_segment(j, resistance) {
        j
    } else {
        lemma_table_decreasing(j);
        if j + 1 == TEMP_TABLE_LEN - 1 {
            assert(false);
        }
        lemma_lookup_finds(j + 1, resistance)
    }
}

/// On one segment, a lower resistance interpolates to a temperature at
/// least as high.
proof fn lemma_interpolate_monotonic(i: int, r1: int, r2: int)
    requires
        0 <= i < TEMP_TABLE_LEN - 1,
        in_segment(i, r1),
        in_segment(i, r2),
        r2 <= r1,
    ensures
        interpolate(i, r1) <= interpolate(i, r2),
{
    lemma_segment_bounds(i, r1);
    let (r_high, t_low) = temp_table(i);
    let (r_low, t_high) = temp_table(i + 1);
    assert((t_high - t_low) * (r_high - r1) <= (t_high - t_low) * (r_high - r2)) by (nonlinear_arith)
        requires
            t_high - t_low > 0,
            r_high - r1 <= r_high - r2,
    ;
    vstd::arithmetic::div_mod::lemma_div_is_ordered(
        (t_high - t_low) * (r_high - r1),
        (t_high - t_low) * (r_high - r2),
        r_high - r_low,
    );
}

/// Temperature is monotonic in resistance: across the table's whole range
/// both resistances read, and the lower one never reads colder.
pub proof fn lemma_temperature_monotonic(r1: int, r2: int)
    requires
        temp_table(TEMP_TABLE_LEN - 1).0 <= r2 <= r1 <= temp_table(0).0,
    ensures
        resistance_temp(r1) is Ok,
        resistance_temp(r2) is Ok,
        resistance_temp(r1)->Ok_0 <= resistance_temp(r2)->Ok_0,
{
    let i = lemma_lookup_finds(0, r1);
    let k = lemma_lookup_finds(0, r2);
    lemma_segment_bounds(i, r1);
    lemma_segment_bounds(k, r2);
    lemma_table_temps_increase(0, i);
    lemma_table_temps_increase(i + 1, TEMP_TABLE_LEN - 1);
    lemma_table_temps_increase(0, k);
    lemma_table_temps_increase(k + 1, TEMP_TABLE_LEN - 1);
    if i == k {
        lemma_interpolate_monotonic(i, r1, r2);
    } else if i < k {
        lemma_table_temps_increase(i + 1, k);
    } else {
        lemma_table_below(k + 1, i);
        assert(false);
    }
}

/// At each table resistance the temperature is exactly the table's.
pub proof fn lemma_table_points_exact(k: int)
    requires
        0 <= k < TEMP_TABLE_LEN,
    ensures
        resistance_temp(temp_table(k).0) == Ok::<i16, SensorError>(temp_table(k).1 as i16),
{
    let r = temp_table(k).0;
    if k == 0 {
        lemma_table_decreasing(0);
        assert(in_segment(0, r));
        assert(interpolate(0, r) == temp_table(0).1);
    } else {
        lemma_lookup_reaches(0, k);
        lemma_table_decreasing(k - 1);
        assert(in_segment(k - 1, r));
        let (r_high, t_low) = temp_table(k - 1);
        let (r_low, t_high) = temp_table(k);
        assert((t_high - t_low) * (r_high - r_low) / (r_high - r_low) == t_high - t_low) by (
        nonlinear_arith)
            requires
                r_high - r_low > 0,
        ;
        assert(interpolate(k - 1, r) == temp_table(k).1);
        if k == TEMP_TABLE_LEN - 1 {
            lemma_table_below(0, k);
        } else {
            lemma_table_below(0, k);
            lemma_table_below(k, TEMP_TABLE_LEN - 1);
        }
    }
}

/// The temperature, in tenths of a degree, for a raw ADC result through a
/// pull-up of `pullup_ohms`: a failed conversion, an open or shorted
/// thermistor, or a resistance outside the table are errors.
pub open spec fn reading_temperature(pullup_ohms: u32, reading: Result<u16, ()>) -> Result<i16, SensorError> {
    match reading {
        Err(_) => Err(SensorError::ConversionError),
        Ok(v) => match adc_resistance(pullup_ohms, v, ADC_MAX) {
            Err(e) => Err(e),
            Ok(res) => resistance_temp(res as int),
        },
    }
}

impl<ADC: AdcReader> Ntc100kSensor<ADC> {
    /// The temperature for a raw ADC result: a failed conversion, an open
    /// or shorted thermistor, or a resistance outside the table are errors.
    pub fn temperature_from_reading(&self, reading: Result<u16, ()>) -> (r: Result<i16, SensorError>)
        ensures
            r == match reading {
                Err(_) => Err(SensorError::ConversionError),
                Ok(v) => match adc_resistance(self.pullup(), v, ADC_MAX) {
                    Err(e) => Err(e),
                    Ok(res) => resistance_temp(res as int),
                },
            },
    {
        let adc_value = match reading {
            Ok(v) => v,
            Err(_) => {
                return Err(SensorError::ConversionError);
            },
        };
        let resistance = match self.adc_to_resistance(adc_value) {
            Ok(res) => res,
            Err(e) => {
                return Err(e);
            },
        };
        Self::resistance_to_temp_x10(resistance)
    }
}

impl<ADC: AdcReader> TemperatureSensor for Ntc100kSensor<ADC> {
    /// Read the ADC once and convert what it gave: the result is the
    /// temperature of that reading, whatever the ADC returned
    fn read_celsius_x10(&mut self) -> (r: Result<i16, SensorError>)
        ensures
            final(self).pullup() == old(self).pullup(),
            exists|reading: Result<u16, ()>| #[trigger] reading_temperature(old(self).pullup(), reading) == r,
    {
        let reading = self.adc.read();
        let r = self.temperature_from_reading(reading);
        assert(reading_temperature(old(self).pullup(), reading) == r);
        r
    }
}

} // verus!
