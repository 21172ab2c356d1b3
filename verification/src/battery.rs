//! Battery telemetry: INA219 bus voltage and 3S LiPo charge estimate.
use vstd::prelude::*;

verus! {

/// I2C address of the INA219.
pub const INA219_ADDR: u8 = 0x42;

/// Its bus voltage register.
pub const INA219_REG_BUS_VOLTAGE: u8 = 0x02;

/// A cached battery reading.
#[derive(Debug, Clone, Copy, PartialEq, Eq, Structural)]
pub struct BatteryReading {
    /// Bus voltage in millivolts.
    pub mv: u16,
    /// Estimated charge in percent.
    pub pct: u8,
}

impl Default for BatteryReading {
    fn default() -> (r: BatteryReading)
        ensures
            r.mv == 0 && r.pct == 0,
    {
        BatteryReading { mv: 0, pct: 0 }
    }
}

/// Millivolts of a bus voltage register: bits 15..=3 count steps of 4 mV.
pub open spec fn register_mv(hi: u8, lo: u8) -> int {
    ((hi * 256 + lo) / 8) * 4
}

/// The line through `(v_lo, p_lo)` and `(v_hi, p_hi)` at `mv`, rounded down.
#[verifier::inline]
pub open spec fn on_line(mv: int, v_lo: int, p_lo: int, v_hi: int, p_hi: int) -> int {
    p_lo + (mv - v_lo) * (p_hi - p_lo) / (v_hi - v_lo)
}

/// Piecewise-linear discharge curve of a 3S LiPo: 12.6 V is full, 9.0 V is
/// empty.
pub open spec fn charge(mv: int) -> int {
    if mv >= 12600 {
        100
    } else if mv >= 12000 {
        on_line(mv, 12000, 80, 12600, 100)
    } else if mv >= 11400 {
        on_line(mv, 11400, 50, 12000, 80)
    } else if mv >= 10800 {
        on_line(mv, 10800, 20, 11400, 50)
    } else if mv >= 10200 {
        on_line(mv, 10200, 5, 10800, 20)
    } else if mv >= 9000 {
        on_line(mv, 9000, 0, 10200, 5)
    } else {
        0
    }
}

/// Estimated charge of a 3S LiPo in percent.
pub fn battery_percentage_3s(mv: u16) -> (r: u8)
    ensures
        r == charge(mv as int),
{
    let v: u32 = mv as u32;
    if v >= 12600 {
        100
    } else if v >= 12000 {
        (80 + (v - 12000) * 20 / 600) as u8
    } else if v >= 11400 {
        (50 + (v - 11400) * 30 / 600) as u8
    } else if v >= 10800 {
        (20 + (v - 10800) * 30 / 600) as u8
    } else if v >= 10200 {
        (5 + (v - 10200) * 15 / 600) as u8
    } else if v >= 9000 {
        ((v - 9000) * 5 / 1200) as u8
    } else {
        0
    }
}

/// The reading that the two bytes of the bus voltage register stand for, most
/// significant byte first.
pub fn decode_bus_voltage(hi: u8, lo: u8) -> (r: BatteryReading)
    ensures
        r.mv == register_mv(hi, lo),
        r.pct == charge(register_mv(hi, lo)),
{
    let raw: u16 = hi as u16 * 256 + lo as u16;
    let mv: u16 = raw / 8 * 4;
    BatteryReading { mv, pct: battery_percentage_3s(mv) }
}

/// The estimate is a percentage, 9.0 V and less is empty, 12.6 V and more is
/// full, and more voltage never means less charge.
pub proof fn law_charge_is_monotone(a: int, b: int)
    requires
        a <= b,
    ensures
        0 <= charge(a) <= charge(b) <= 100,
        b <= 9000 ==> charge(b) == 0,
        a >= 12600 ==> charge(a) == 100,
{
}

} // verus!
