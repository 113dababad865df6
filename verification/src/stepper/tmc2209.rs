//! TMC2209 stepper driver (UART mode).
//!
//! The TMC2209 is a stepper motor driver with a single-wire UART
//! configuration interface (115200 baud, 8N1), StealthChop (quiet
//! operation) and StallGuard (stall detection). A datagram is a sync byte
//! (0x05), the slave address (0-3, set by the MS1/MS2 pins), the register
//! address with the write bit, four data bytes big-endian, and a CRC8.

pub mod reg;

use vstd::prelude::*;

use crate::traits::stepper::{Direction, StepperDriver};

verus! {

/// UART sync byte for TMC2209
pub const SYNC_BYTE: u8 = 0x05;

/// One bit of the TMC2209 CRC8 (polynomial x^8 + x^2 + x + 1): the CRC and
/// the remaining bits of the current byte, which the TMC2209 feeds least
/// significant bit first.
pub open spec fn crc8_step(crc: u8, current: u8) -> (u8, u8) {
    (
        if ((crc >> 7u8) ^ (current & 1u8)) != 0 {
            ((crc << 1u8) ^ 0x07u8) as u8
        } else {
            (crc << 1u8) as u8
        },
        current >> 1u8,
    )
}

/// The CRC state after `n` bits of `current`, starting from `crc`.
pub open spec fn crc8_rounds(crc: u8, current: u8, n: nat) -> (u8, u8)
    decreases n,
{
    if n == 0 {
        (crc, current)
    } else {
        let (c, b) = crc8_rounds(crc, current, (n - 1) as nat);
        crc8_step(c, b)
    }
}

/// The TMC2209 CRC8 of a byte sequence, with initial value 0.
pub open spec fn crc8_spec(data: Seq<u8>) -> u8
    decreases data.len(),
{
    if data.len() == 0 {
        0
    } else {
        crc8_rounds(crc8_spec(data.drop_last()), data.last(), 8).0
    }
}

/// The big-endian 32-bit value of four bytes.
pub open spec fn be32(b0: u8, b1: u8, b2: u8, b3: u8) -> u32 {
    ((b0 as u32) << 24u32) | ((b1 as u32) << 16u32) | ((b2 as u32) << 8u32) | (b3 as u32)
}

/// The eight bytes of a write datagram: sync, slave address, register with
/// the write bit, the data big-endian, and the CRC of the first seven.
pub open spec fn write_datagram(addr: u8, reg: u8, data: u32) -> Seq<u8> {
    let head = seq![
        SYNC_BYTE,
        addr,
        reg | 0x80u8,
        (data >> 24u32) as u8,
        (data >> 16u32) as u8,
        (data >> 8u32) as u8,
        data as u8,
    ];
    head.push(crc8_spec(head))
}

/// The four bytes of a read request: sync, slave address, register without
/// the write bit, and the CRC of the first three.
pub open spec fn read_request(addr: u8, reg: u8) -> Seq<u8> {
    let head = seq![SYNC_BYTE, addr, reg];
    head.push(crc8_spec(head))
}

/// CRC8 calculation for TMC2209 UART, with polynomial 0x07
/// (x^8 + x^2 + x + 1) and each byte fed least significant bit first, as
/// the TMC2209 specifies (05 00 00 gives 0x48).
pub fn crc8(data: &[u8]) -> (r: u8)
    ensures
        r == crc8_spec(data@),
{
    let mut crc = 0u8;
    let n = data.len();
    let mut i: usize = 0;
    while i < n
        invariant
            n == data@.len(),
            i <= n,
            crc == crc8_spec(data@.subrange(0, i as int)),
        decreases n - i,
    {
        let byte = data[i];
        let mut current = byte;
        let ghost start = crc;
        let mut k: u32 = 0;
        while k < 8
            invariant
                k <= 8,
                (crc, current) == crc8_rounds(start, byte, k as nat),
            decreases 8 - k,
        {
            if ((crc >> 7u8) ^ (current & 1u8)) != 0 {
                crc = (crc << 1u8) ^ 0x07;
            } else {
                crc = crc << 1u8;
            }
            current = current >> 1u8;
            k = k + 1;
        }
        assert(data@.subrange(0, i + 1).drop_last() =~= data@.subrange(0, i as int));
        i = i + 1;
    }
    assert(data@.subrange(0, n as int) =~= data@);
    crc
}

/// Build a write datagram for TMC2209
pub fn build_write_datagram(addr: u8, reg: u8, data: u32) -> (r: [u8; 8])
    ensures
        r@ == write_datagram(addr, reg, data),
{
    let mut datagram = [0u8; 8];
    datagram[0] = SYNC_BYTE;
    datagram[1] = addr;
    datagram[2] = reg | 0x80;
    datagram[3] = (data >> 24u32) as u8;
    datagram[4] = (data >> 16u32) as u8;
    datagram[5] = (data >> 8u32) as u8;
    datagram[6] = data as u8;
    let ghost head = seq![
        SYNC_BYTE,
        addr,
        reg | 0x80u8,
        (data >> 24u32) as u8,
        (data >> 16u32) as u8,
        (data >> 8u32) as u8,
        data as u8,
    ];
    assert(datagram@.subrange(0, 7) =~= head);
    let c = crc8(vstd::slice::slice_subrange(datagram.as_slice(), 0, 7));
    datagram[7] = c;
    assert(datagram@ =~= head.push(c));
    datagram
}

/// Build a read request datagram for TMC2209
pub fn build_read_request(addr: u8, reg: u8) -> (r: [u8; 4])
    ensures
        r@ == read_request(addr, reg),
{
    let mut datagram = [0u8; 4];
    datagram[0] = SYNC_BYTE;
    datagram[1] = addr;
    datagram[2] = reg;
    let ghost head = seq![SYNC_BYTE, addr, reg];
    assert(datagram@.subrange(0, 3) =~= head);
    let c = crc8(vstd::slice::slice_subrange(datagram.as_slice(), 0, 3));
    datagram[3] = c;
    assert(datagram@ =~= head.push(c));
    datagram
}

/// TMC2209 communication errors
#[derive(Debug, Clone, Copy, PartialEq, Eq, Structural)]
pub enum Tmc2209Error {
    /// Invalid sync byte in response
    InvalidSync,
    /// CRC mismatch
    CrcMismatch,
    /// Communication timeout
    Timeout,
}

/// The outcome of parsing an 8-byte read response: the sync byte must be
/// 0x05 and the last byte the CRC of the first seven; the data is bytes 3-6
/// big-endian.
pub open spec fn parse_response(r: Seq<u8>) -> Result<u32, Tmc2209Error> {
    if r[0] != SYNC_BYTE {
        Err(Tmc2209Error::InvalidSync)
    } else if r[7] != crc8_spec(r.subrange(0, 7)) {
        Err(Tmc2209Error::CrcMismatch)
    } else {
        Ok(be32(r[3], r[4], r[5], r[6]))
    }
}

/// Parse a read response from TMC2209: sync (0x05), master address (0xFF),
/// register address, 4 data bytes (big-endian), CRC8.
pub fn parse_read_response(response: &[u8; 8]) -> (r: Result<u32, Tmc2209Error>)
    ensures
        r == parse_response(response@),
{
    if response[0] != SYNC_BYTE {
        return Err(Tmc2209Error::InvalidSync);
    }
    let expected_crc = crc8(vstd::slice::slice_subrange(response.as_slice(), 0, 7));
    if response[7] != expected_crc {
        return Err(Tmc2209Error::CrcMismatch);
    }
    let data = ((response[3] as u32) << 24u32) | ((response[4] as u32) << 16u32) | ((
    response[5] as u32) << 8u32) | (response[6] as u32);

    Ok(data)
}

/// A datagram's data survives the trip: parsing the bytes that a write
/// datagram carries gives back its data, and any corruption of its CRC byte
/// is detected.
pub proof fn lemma_datagram_round_trip(addr: u8, reg: u8, data: u32, bad_crc: u8)
    ensures
        parse_response(write_datagram(addr, reg, data)) == Ok::<u32, Tmc2209Error>(data),
        bad_crc != write_datagram(addr, reg, data)[7] ==> parse_response(
            write_datagram(addr, reg, data).update(7, bad_crc),
        ) == Err::<u32, Tmc2209Error>(Tmc2209Error::CrcMismatch),
{
    let d = write_datagram(addr, reg, data);
    assert(d.subrange(0, 7) =~= seq![
        SYNC_BYTE,
        addr,
        reg | 0x80u8,
        (data >> 24u32) as u8,
        (data >> 16u32) as u8,
        (data >> 8u32) as u8,
        data as u8,
    ]);
    assert(d.update(7, bad_crc).subrange(0, 7) =~= d.subrange(0, 7));
    let b0 = (data >> 24u32) as u8;
    let b1 = (data >> 16u32) as u8;
    let b2 = (data >> 8u32) as u8;
    let b3 = data as u8;
    assert(be32(b0, b1, b2, b3) == data) by (bit_vector)
        requires
            b0 == (data >> 24u32) as u8,
            b1 == (data >> 16u32) as u8,
            b2 == (data >> 8u32) as u8,
            b3 == data as u8,
    ;
}

/// TMC2209 driver configuration
#[derive(Debug, Clone)]
pub struct Tmc2209Config {
    /// UART address (0-3, set by MS1/MS2 pins)
    pub uart_address: u8,
    /// Run current in mA (100-2000)
    pub run_current_ma: u16,
    /// Hold current in mA (typically 50% of run current)
    pub hold_current_ma: u16,
    /// Enable StealthChop mode (quiet operation)
    pub stealthchop: bool,
    /// StallGuard threshold (0-255, lower = more sensitive)
    pub stallguard_threshold: u8,
    /// Microstepping (1, 2, 4, 8, 16, 32, 64, 128, 256)
    pub microsteps: u16,
}

impl Default for Tmc2209Config {
    fn default() -> (r: Self)
        ensures
            r.uart_address == 0,
            r.run_current_ma == 800,
            r.hold_current_ma == 400,
            r.stealthchop,
            r.stallguard_threshold == 80,
            r.microsteps == 16,
    {
        Tmc2209Config {
            uart_address: 0,
            run_current_ma: 800,
            hold_current_ma: 400,
            stealthchop: true,
            stallguard_threshold: 80,
            microsteps: 16,
        }
    }
}

/// The MRES register value for a microstep setting: 256 gives 0, halving
/// adds one, down to 1 giving 8; any other setting means 16 microsteps.
pub open spec fn mres_spec(microsteps: u16) -> u8 {
    if microsteps == 256 {
        0
    } else if microsteps == 128 {
        1
    } else if microsteps == 64 {
        2
    } else if microsteps == 32 {
        3
    } else if microsteps == 16 {
        4
    } else if microsteps == 8 {
        5
    } else if microsteps == 4 {
        6
    } else if microsteps == 2 {
        7
    } else if microsteps == 1 {
        8
    } else {
        4
    }
}

/// The IRUN/IHOLD current scale (0-31) for an RMS current in mA, with
/// Rsense = 0.11 ohm: CS = I·32·1.41·Rsense / 0.325 V - 1 ≈ I·15.34 - 1.
pub open spec fn current_cs(current_ma: u16) -> u8 {
    let cs = if current_ma * 1534 / 100000 >= 1 {
        current_ma * 1534 / 100000 - 1
    } else {
        0
    };
    if cs < 31 {
        cs as u8
    } else {
        31
    }
}

impl Tmc2209Config {
    /// Convert microsteps to MRES register value
    pub fn mres(&self) -> (r: u8)
        ensures
            r == mres_spec(self.microsteps),
    {
        match self.microsteps {
            256 => 0,
            128 => 1,
            64 => 2,
            32 => 3,
            16 => 4,
            8 => 5,
            4 => 6,
            2 => 7,
            1 => 8,
            _ => 4,
        }
    }

    /// Convert current in mA to IRUN/IHOLD register value (0-31), based on
    /// Rsense = 0.11 ohm (typical for TMC2209 breakout boards)
    pub fn current_to_cs(current_ma: u16) -> (r: u8)
        ensures
            r == current_cs(current_ma),
            r <= 31,
    {
        let cs = ((current_ma as u32) * 1534 / 100000).saturating_sub(1);
        if cs < 31 {
            cs as u8
        } else {
            31
        }
    }
}

/// Parsed DRV_STATUS register
#[derive(Debug, Clone, Copy, Default)]
pub struct DrvStatus {
    /// StallGuard result (0-510)
    pub sg_result: u16,
    /// Motor standstill indicator
    pub standstill: bool,
    /// Overtemperature pre-warning (120°C)
    pub ot_prewarning: bool,
    /// Overtemperature shutdown (150°C)
    pub ot_shutdown: bool,
    /// Short to ground on phase A
    pub s2ga: bool,
    /// Short to ground on phase B
    pub s2gb: bool,
    /// Short to supply on phase A
    pub s2vsa: bool,
    /// Short to supply on phase B
    pub s2vsb: bool,
    /// Open load on phase A
    pub ola: bool,
    /// Open load on phase B
    pub olb: bool,
    /// StealthChop active
    pub stealth: bool,
    /// Current scaling (0-31)
    pub cs_actual: u8,
}

/// Whether bit `n` of `value` is set.
pub open spec fn bit(value: u32, n: u32) -> bool {
    (value & (1u32 << n)) != 0
}

impl DrvStatus {
    /// Parse from raw DRV_STATUS register value
    pub fn from_register(value: u32) -> (r: Self)
        ensures
            r.sg_result == value & 0x3FF,
            r.standstill == bit(value, 31),
            r.ot_prewarning == bit(value, 26),
            r.ot_shutdown == bit(value, 25),
            r.s2ga == bit(value, 24),
            r.s2gb == bit(value, 23),
            r.s2vsa == bit(value, 12),
            r.s2vsb == bit(value, 11),
            r.ola == bit(value, 29),
            r.olb == bit(value, 30),
            r.stealth == bit(value, 14),
            r.cs_actual == (value >> 16u32) & 0x1F,
    {
        let sg = value & 0x3FF;
        assert(sg <= 0x3FF) by (bit_vector)
            requires
                sg == value & 0x3FF,
        ;
        let cs = (value >> 16u32) & 0x1F;
        assert(cs <= 0x1F) by (bit_vector)
            requires
                cs == (value >> 16u32) & 0x1F,
        ;
        DrvStatus {
            sg_result: sg as u16,
            standstill: (value & (1u32 << 31u32)) != 0,
            ot_prewarning: (value & (1u32 << 26u32)) != 0,
            ot_shutdown: (value & (1u32 << 25u32)) != 0,
            s2ga: (value & (1u32 << 24u32)) != 0,
            s2gb: (value & (1u32 << 23u32)) != 0,
            s2vsa: (value & (1u32 << 12u32)) != 0,
            s2vsb: (value & (1u32 << 11u32)) != 0,
            ola: (value & (1u32 << 29u32)) != 0,
            olb: (value & (1u32 << 30u32)) != 0,
            stealth: (value & (1u32 << 14u32)) != 0,
            cs_actual: cs as u8,
        }
    }

    /// Check if any fault condition is present
    pub fn has_fault(&self) -> (r: bool)
        ensures
            r == (self.ot_shutdown || self.s2ga || self.s2gb || self.s2vsa || self.s2vsb),
    {
        self.ot_shutdown || self.s2ga || self.s2gb || self.s2vsa || self.s2vsb
    }

    /// Check if driver is in warning state
    pub fn has_warning(&self) -> (r: bool)
        ensures
            r == (self.ot_prewarning || self.ola || self.olb),
    {
        self.ot_prewarning || self.ola || self.olb
    }
}

/// The GCONF value: spreadCycle unless StealthChop, PDN_UART input disabled,
/// microsteps from the MSTEP register, step pulses filtered.
pub open spec fn gconf_value(stealthchop: bool) -> u32 {
    if stealthchop {
        0x1C0
    } else {
        0x1C4
    }
}

/// GCONF selects the chopper by bit 2, en_spreadcycle: set exactly when
/// StealthChop is off; bits 6, 7 and 8 (pdn_disable, mstep_reg_select,
/// multistep_filt) are always set, and no other bit.
pub proof fn lemma_gconf_bits(stealthchop: bool)
    ensures
        ((gconf_value(stealthchop) >> 2u32) & 1u32 == 1u32) <==> !stealthchop,
        gconf_value(stealthchop) & 0x1C0u32 == 0x1C0u32,
        gconf_value(stealthchop) & !0x1C4u32 == 0u32,
{
    assert((0x1C0u32 >> 2u32) & 1u32 == 0u32) by (bit_vector);
    assert((0x1C4u32 >> 2u32) & 1u32 == 1u32) by (bit_vector);
    assert(0x1C0u32 & 0x1C0u32 == 0x1C0u32) by (bit_vector);
    assert(0x1C4u32 & 0x1C0u32 == 0x1C0u32) by (bit_vector);
    assert(0x1C0u32 & !0x1C4u32 == 0u32) by (bit_vector);
    assert(0x1C4u32 & !0x1C4u32 == 0u32) by (bit_vector);
}

/// The CHOPCONF value: TOFF = 5, HSTRT = 4, TBL = 2, the microstep
/// resolution, and interpolation to 256 microsteps.
pub open spec fn chopconf_value(mres: u8) -> u32 {
    (0x1001_0045 + mres * 0x100_0000) as u32
}

/// The IHOLD_IRUN value: hold and run current scales and a hold delay of 6.
pub open spec fn ihold_irun_value(hold_ma: u16, run_ma: u16) -> u32 {
    (6 * 0x1_0000 + current_cs(run_ma) * 0x100 + current_cs(hold_ma)) as u32
}

/// The PWMCONF value for StealthChop: PWM_OFS = 36, PWM_GRAD = 14,
/// PWM_FREQ = 1 (23.4kHz), autoscale and autograd on, PWM_REG = 4,
/// PWM_LIM = 12.
pub open spec fn pwmconf_value() -> u32 {
    0xC40D_0E24
}

/// The IHOLD_IRUN register value for hold and run currents.
fn ihold_irun(hold_ma: u16, run_ma: u16) -> (r: u32)
    ensures
        r == ihold_irun_value(hold_ma, run_ma),
{
    let ihold = Tmc2209Config::current_to_cs(hold_ma) as u32;
    let irun = Tmc2209Config::current_to_cs(run_ma) as u32;
    let iholddelay = 6u32;
    let v = ((iholddelay & 0x0F) << 16u32) | ((irun & 0x1F) << 8u32) | (ihold & 0x1F);
    assert(v == 6 * 0x1_0000 + irun * 0x100 + ihold) by (bit_vector)
        requires
            v == ((iholddelay & 0x0F) << 16u32) | ((irun & 0x1F) << 8u32) | (ihold & 0x1F),
            iholddelay == 6,
            irun <= 31,
            ihold <= 31,
    ;
    v
}

/// TMC2209 driver state
///
/// This struct manages the driver state and provides the datagrams that
/// configure the TMC2209 over UART.
pub struct Tmc2209Driver {
    config: Tmc2209Config,
    current_rpm: u16,
    target_rpm: u16,
    direction: Direction,
    enabled: bool,
    stalled: bool,
    initialized: bool,
}

impl Tmc2209Driver {
    /// The configuration.
    pub closed spec fn config_spec(&self) -> Tmc2209Config {
        self.config
    }

    /// The speed that the acceleration has reached.
    pub closed spec fn current_rpm(&self) -> u16 {
        self.current_rpm
    }

    /// The target speed.
    pub closed spec fn target_rpm(&self) -> u16 {
        self.target_rpm
    }

    /// The direction.
    pub closed spec fn direction(&self) -> Direction {
        self.direction
    }

    /// Whether the driver is enabled.
    pub closed spec fn enabled(&self) -> bool {
        self.enabled
    }

    /// Whether a stall is flagged.
    pub closed spec fn stalled(&self) -> bool {
        self.stalled
    }

    /// Whether initialization was recorded.
    pub closed spec fn initialized(&self) -> bool {
        self.initialized
    }

    /// Create a new TMC2209 driver: stopped, clockwise, disabled
    pub fn new(config: Tmc2209Config) -> (r: Self)
        ensures
            r.config_spec() == config,
            r.current_rpm() == 0,
            r.target_rpm() == 0,
            r.direction() == Direction::Clockwise,
            !r.enabled(),
            !r.stalled(),
            !r.initialized(),
    {
        Tmc2209Driver {
            config,
            current_rpm: 0,
            target_rpm: 0,
            direction: Direction::Clockwise,
            enabled: false,
            stalled: false,
            initialized: false,
        }
    }

    /// Get the configuration
    pub fn config(&self) -> (r: &Tmc2209Config)
        ensures
            *r == self.config_spec(),
    {
        &self.config
    }

    /// Build GCONF register value
    fn build_gconf(&self) -> (r: u32)
        ensures
            r == gconf_value(self.config.stealthchop),
    {
        let mut gconf = 0u32;
        // en_spreadcycle (bit 2) unless StealthChop
        if !self.config.stealthchop {
            gconf = gconf | (1u32 << 2u32);
        }
        // pdn_disable (bit 6), mstep_reg_select (bit 7), multistep_filt (bit 8)

        gconf = gconf | (1u32 << 6u32);
        gconf = gconf | (1u32 << 7u32);
        gconf = gconf | (1u32 << 8u32);
        assert(((0u32 | (1u32 << 2u32)) | (1u32 << 6u32) | (1u32 << 7u32) | (1u32 << 8u32))
            == 0x1C4u32) by (bit_vector);
        assert((0u32 | (1u32 << 6u32) | (1u32 << 7u32) | (1u32 << 8u32)) == 0x1C0u32)
            by (bit_vector);
        gconf
    }

    /// Build CHOPCONF register value
    fn build_chopconf(&self) -> (r: u32)
        ensures
            r == chopconf_value(mres_spec(self.config.microsteps)),
    {
        let mres = self.config.mres() as u32;
        // TOFF = 5 (must be > 0 for the driver to work), HSTRT = 4, HEND = 0,
        // TBL = 2, MRES, intpol = 1; dedge, diss2g, diss2vs = 0
        let chopconf = 5u32 | (4u32 << 4u32) | (2u32 << 15u32) | (mres << 24u32) | (1u32 << 28u32);
        assert(chopconf == 0x1001_0045 + mres * 0x100_0000) by (bit_vector)
            requires
                chopconf == 5u32 | (4u32 << 4u32) | (2u32 << 15u32) | (mres << 24u32) | (1u32
                    << 28u32),
                mres <= 8,
        ;
        chopconf
    }

    /// Build IHOLD_IRUN register value from the configured currents
    fn build_ihold_irun(&self) -> (r: u32)
        ensures
            r == ihold_irun_value(self.config.hold_current_ma, self.config.run_current_ma),
    {
        ihold_irun(self.config.hold_current_ma, self.config.run_current_ma)
    }

    /// Build PWMCONF register value for StealthChop
    fn build_pwmconf(&self) -> (r: u32)
        ensures
            r == pwmconf_value(),
    {
        let pwmconf = 36u32 | (14u32 << 8u32) | (1u32 << 16u32) | (1u32 << 18u32) | (1u32
            << 19u32) | (4u32 << 24u32) | (12u32 << 28u32);
        assert(36u32 | (14u32 << 8u32) | (1u32 << 16u32) | (1u32 << 18u32) | (1u32 << 19u32) | (4u32
            << 24u32) | (12u32 << 28u32) == 0xC40D_0E24u32) by (bit_vector);
        pwmconf
    }

    /// Get register write datagrams for initialization, to send over UART:
    /// GCONF, CHOPCONF, IHOLD_IRUN, TPOWERDOWN (20), PWMCONF and SGTHRS.
    pub fn init_datagrams(&self) -> (r: [[u8; 8]; 6])
        ensures
            ({
                let c = self.config_spec();
                let a = c.uart_address;
                &&& r@[0]@ == write_datagram(a, reg::GCONF, gconf_value(c.stealthchop))
                &&& r@[1]@ == write_datagram(
                    a,
                    reg::CHOPCONF,
                    chopconf_value(mres_spec(c.microsteps)),
                )
                &&& r@[2]@ == write_datagram(
                    a,
                    reg::IHOLD_IRUN,
                    ihold_irun_value(c.hold_current_ma, c.run_current_ma),
                )
                &&& r@[3]@ == write_datagram(a, reg::TPOWERDOWN, 20)
                &&& r@[4]@ == write_datagram(a, reg::PWMCONF, pwmconf_value())
                &&& r@[5]@ == write_datagram(a, reg::SGTHRS, c.stallguard_threshold as u32)
            }),
    {
        let addr = self.config.uart_address;
        [
            build_write_datagram(addr, reg::GCONF, self.build_gconf()),
            build_write_datagram(addr, reg::CHOPCONF, self.build_chopconf()),
            build_write_datagram(addr, reg::IHOLD_IRUN, self.build_ihold_irun()),
            build_write_datagram(addr, reg::TPOWERDOWN, 20),
            build_write_datagram(addr, reg::PWMCONF, self.build_pwmconf()),
            build_write_datagram(addr, reg::SGTHRS, self.config.stallguard_threshold as u32),
        ]
    }

    /// Mark as initialized
    pub fn set_initialized(&mut self)
        ensures
            final(self).initialized(),
            final(self).config_spec() == old(self).config_spec(),
            final(self).current_rpm() == old(self).current_rpm(),
            final(self).target_rpm() == old(self).target_rpm(),
            final(self).direction() == old(self).direction(),
            final(self).enabled() == old(self).enabled(),
            final(self).stalled() == old(self).stalled(),
    {
        self.initialized = true;
    }

    /// Check if initialized
    pub fn is_initialized(&self) -> (r: bool)
        ensures
            r == self.initialized(),
    {
        self.initialized
    }

    /// Update stall status
    pub fn set_stalled(&mut self, stalled: bool)
        ensures
            final(self).stalled() == stalled,
            final(self).config_spec() == old(self).config_spec(),
            final(self).current_rpm() == old(self).current_rpm(),
            final(self).target_rpm() == old(self).target_rpm(),
            final(self).direction() == old(self).direction(),
            final(self).enabled() == old(self).enabled(),
            final(self).initialized() == old(self).initialized(),
    {
        self.stalled = stalled;
    }

    /// Sync current RPM with target (called when acceleration complete)
    pub fn sync_rpm(&mut self)
        ensures
            final(self).current_rpm() == old(self).target_rpm(),
            final(self).target_rpm() == old(self).target_rpm(),
            final(self).config_spec() == old(self).config_spec(),
            final(self).direction() == old(self).direction(),
            final(self).enabled() == old(self).enabled(),
            final(self).stalled() == old(self).stalled(),
            final(self).initialized() == old(self).initialized(),
    {
        self.current_rpm = self.target_rpm;
    }

    /// Get read request for DRV_STATUS register
    pub fn read_status_request(&self) -> (r: [u8; 4])
        ensures
            r@ == read_request(self.config_spec().uart_address, reg::DRV_STATUS),
    {
        build_read_request(self.config.uart_address, reg::DRV_STATUS)
    }

    /// Get read request for TSTEP register (measures actual step rate)
    pub fn read_tstep_request(&self) -> (r: [u8; 4])
        ensures
            r@ == read_request(self.config_spec().uart_address, reg::TSTEP),
    {
        build_read_request(self.config.uart_address, reg::TSTEP)
    }

    /// Get read request for IFCNT register (interface counter)
    pub fn read_ifcnt_request(&self) -> (r: [u8; 4])
        ensures
            r@ == read_request(self.config_spec().uart_address, reg::IFCNT),
    {
        build_read_request(self.config.uart_address, reg::IFCNT)
    }

    /// Build a datagram to update run and hold current
    pub fn set_current_datagram(&self, run_ma: u16, hold_ma: u16) -> (r: [u8; 8])
        ensures
            r@ == write_datagram(
                self.config_spec().uart_address,
                reg::IHOLD_IRUN,
                ihold_irun_value(hold_ma, run_ma),
            ),
    {
        build_write_datagram(self.config.uart_address, reg::IHOLD_IRUN, ihold_irun(hold_ma, run_ma))
    }

    /// Build a datagram to update StallGuard threshold
    pub fn set_stallguard_datagram(&self, threshold: u8) -> (r: [u8; 8])
        ensures
            r@ == write_datagram(self.config_spec().uart_address, reg::SGTHRS, threshold as u32),
    {
        build_write_datagram(self.config.uart_address, reg::SGTHRS, threshold as u32)
    }
}

impl StepperDriver for Tmc2209Driver {
    open spec fn rpm_setting(&self) -> u16 {
        self.target_rpm()
    }

    open spec fn speed_reached(&self) -> bool {
        self.current_rpm() == self.target_rpm()
    }

    fn set_rpm(&mut self, rpm: u16)
        ensures
            final(self).target_rpm() == rpm,
            final(self).current_rpm() == old(self).current_rpm(),
            final(self).config_spec() == old(self).config_spec(),
            final(self).direction() == old(self).direction(),
            final(self).enabled() == old(self).enabled(),
            final(self).stalled() == old(self).stalled(),
            final(self).initialized() == old(self).initialized(),
    {
        self.target_rpm = rpm;
    }

    fn get_rpm(&self) -> (r: u16)
        ensures
            r == self.target_rpm(),
    {
        self.target_rpm
    }

    fn set_direction(&mut self, dir: Direction)
        ensures
            final(self).direction() == dir,
            final(self).target_rpm() == old(self).target_rpm(),
            final(self).current_rpm() == old(self).current_rpm(),
            final(self).config_spec() == old(self).config_spec(),
            final(self).enabled() == old(self).enabled(),
            final(self).stalled() == old(self).stalled(),
            final(self).initialized() == old(self).initialized(),
    {
        self.direction = dir;
    }

    fn get_direction(&self) -> (r: Direction)
        ensures
            r == self.direction(),
    {
        self.direction
    }

    fn enable(&mut self, enabled: bool)
        ensures
            final(self).enabled() == enabled,
            final(self).direction() == old(self).direction(),
            final(self).target_rpm() == old(self).target_rpm(),
            final(self).current_rpm() == old(self).current_rpm(),
            final(self).config_spec() == old(self).config_spec(),
            final(self).stalled() == old(self).stalled(),
            final(self).initialized() == old(self).initialized(),
    {
        self.enabled = enabled;
    }

    fn is_enabled(&self) -> (r: bool)
        ensures
            r == self.enabled(),
    {
        self.enabled
    }

    fn is_stalled(&self) -> (r: bool)
        ensures
            r == self.stalled(),
    {
        self.stalled
    }

    fn clear_stall(&mut self)
        ensures
            !final(self).stalled(),
            final(self).enabled() == old(self).enabled(),
            final(self).direction() == old(self).direction(),
            final(self).target_rpm() == old(self).target_rpm(),
            final(self).current_rpm() == old(self).current_rpm(),
            final(self).config_spec() == old(self).config_spec(),
            final(self).initialized() == old(self).initialized(),
    {
        self.stalled = false;
    }

    fn is_at_speed(&self) -> (r: bool)
        ensures
            r == (self.current_rpm() == self.target_rpm()),
    {
        self.current_rpm == self.target_rpm
    }
}

} // verus!
