//! Motor driver abstractions: what a power level means on the pins of an
//! H-bridge and of a TB6612.
use vstd::prelude::*;

verus! {

/// PWM frequency for motor control. 1 kHz provides fast, responsive control.
pub const MOTOR_FREQ_HZ: u32 = 1000;

/// Duty resolution (14-bit = 16384 steps).
pub const DUTY_RESOLUTION: u32 = 16384;

/// `power` brought into `-100..=100`.
pub open spec fn clamped(power: int) -> int {
    if power > 100 {
        100
    } else if power < -100 {
        -100
    } else {
        power
    }
}

/// Duty steps of `percent` of full power.
pub open spec fn duty_steps(percent: int) -> int {
    percent * DUTY_RESOLUTION / 100
}

fn clamp(power: i8) -> (r: i8)
    ensures
        r == clamped(power as int),
{
    if power > 100 {
        100
    } else if power < -100 {
        -100
    } else {
        power
    }
}

/// Common trait for motor control.
pub trait MotorControl {
    /// Whether the outputs are those of `power`, from -100 (full reverse) to
    /// 100 (full forward).
    spec fn drives(&self, power: int) -> bool;

    /// Set power and direction; values beyond full power mean full power.
    fn set_power(&mut self, power: i8)
        ensures
            final(self).drives(clamped(power as int)),
    ;

    /// Emergency stop.
    fn stop(&mut self)
        ensures
            final(self).drives(0),
    ;
}

/// H-bridge motor driven by two PWM channels:
/// - Forward: `channel_a` = duty, `channel_b` = 0
/// - Reverse: `channel_a` = 0, `channel_b` = duty
/// - Brake: both 0
#[derive(Debug, Clone, Copy, PartialEq, Eq)]
pub struct BrushlessMotor {
    /// Duty of the forward channel.
    pub channel_a: u32,
    /// Duty of the reverse channel.
    pub channel_b: u32,
    /// Name for logging.
    pub name: &'static str,
}

impl BrushlessMotor {
    /// A motor at rest.
    pub fn new(name: &'static str) -> (r: BrushlessMotor)
        ensures
            r.drives(0),
            r.name == name,
    {
        BrushlessMotor { channel_a: 0, channel_b: 0, name }
    }

    /// Set motor power and direction.
    pub fn set_power(&mut self, power: i8)
        ensures
            final(self).channel_a == (if power > 0 { duty_steps(clamped(power as int)) } else { 0 }),
            final(self).channel_b == (if power < 0 { duty_steps(-clamped(power as int)) } else { 0 }),
            final(self).name == old(self).name,
    {
        let power: i8 = clamp(power);
        if power > 0 {
            self.channel_a = (power as u32 * DUTY_RESOLUTION) / 100;
            self.channel_b = 0;
        } else if power < 0 {
            self.channel_a = 0;
            self.channel_b = ((-power) as u32 * DUTY_RESOLUTION) / 100;
        } else {
            self.channel_a = 0;
            self.channel_b = 0;
        }
    }

    /// Emergency stop: both channels to 0 at once.
    pub fn stop(&mut self)
        ensures
            final(self).channel_a == 0,
            final(self).channel_b == 0,
            final(self).name == old(self).name,
    {
        self.channel_a = 0;
        self.channel_b = 0;
    }
}

impl MotorControl for BrushlessMotor {
    open spec fn drives(&self, power: int) -> bool {
        &&& self.channel_a == (if power > 0 { duty_steps(power) } else { 0 })
        &&& self.channel_b == (if power < 0 { duty_steps(-power) } else { 0 })
    }

    fn set_power(&mut self, power: i8) {
        BrushlessMotor::set_power(self, power);
    }

    fn stop(&mut self) {
        BrushlessMotor::stop(self);
    }
}

/// TB6612FNG motor driver: a PWM input for the speed and two digital inputs
/// for the direction.
/// - Forward: IN1 high, IN2 low, PWM = duty
/// - Reverse: IN1 low, IN2 high, PWM = duty
/// - Stop: IN1 low, IN2 low, PWM = 0
#[derive(Debug, Clone, Copy, PartialEq, Eq)]
pub struct TB6612Motor {
    pub in1: bool,
    pub in2: bool,
    pub duty: u32,
    /// Name for logging.
    pub name: &'static str,
}

impl TB6612Motor {
    /// A motor at rest.
    pub fn new(name: &'static str) -> (r: TB6612Motor)
        ensures
            r.drives(0),
            r.name == name,
    {
        TB6612Motor { in1: false, in2: false, duty: 0, name }
    }

    /// Set motor power and direction.
    pub fn set_power(&mut self, power: i8)
        ensures
            final(self).in1 == (power > 0),
            final(self).in2 == (power < 0),
            final(self).duty == (if power >= 0 {
                duty_steps(clamped(power as int))
            } else {
                duty_steps(-clamped(power as int))
            }),
            final(self).name == old(self).name,
    {
        let power: i8 = clamp(power);
        if power > 0 {
            self.in1 = true;
            self.in2 = false;
            self.duty = (power as u32 * DUTY_RESOLUTION) / 100;
        } else if power < 0 {
            self.in1 = false;
            self.in2 = true;
            self.duty = ((-power) as u32 * DUTY_RESOLUTION) / 100;
        } else {
            self.in1 = false;
            self.in2 = false;
            self.duty = 0;
        }
    }

    /// Emergency stop.
    pub fn stop(&mut self)
        ensures
            !final(self).in1,
            !final(self).in2,
            final(self).duty == 0,
            final(self).name == old(self).name,
    {
        self.in1 = false;
        self.in2 = false;
        self.duty = 0;
    }
}

impl MotorControl for TB6612Motor {
    open spec fn drives(&self, power: int) -> bool {
        &&& self.in1 == (power > 0)
        &&& self.in2 == (power < 0)
        &&& self.duty == (if power >= 0 { duty_steps(power) } else { duty_steps(-power) })
    }

    fn set_power(&mut self, power: i8) {
        TB6612Motor::set_power(self, power);
    }

    fn stop(&mut self) {
        TB6612Motor::stop(self);
    }
}

/// An H-bridge is never driven in both directions at once, its duty stays
/// within the resolution, and its outputs tell its power.
pub proof fn law_h_bridge_outputs(m: BrushlessMotor, p: int, q: int)
    requires
        -100 <= p <= 100,
        -100 <= q <= 100,
        m.drives(p),
    ensures
        m.channel_a == 0 || m.channel_b == 0,
        m.channel_a <= DUTY_RESOLUTION,
        m.channel_b <= DUTY_RESOLUTION,
        m.drives(q) ==> p == q,
{
}

/// A TB6612 never has both direction inputs high, its duty stays within the
/// resolution, and its outputs tell its power.
pub proof fn law_tb6612_outputs(m: TB6612Motor, p: int, q: int)
    requires
        -100 <= p <= 100,
        -100 <= q <= 100,
        m.drives(p),
    ensures
        !(m.in1 && m.in2),
        m.duty <= DUTY_RESOLUTION,
        m.duty == 0 <==> p == 0,
        m.drives(q) ==> p == q,
{
}

/// Reverse is the mirror image of forward.
pub proof fn law_reverse_mirrors_forward(a: BrushlessMotor, b: BrushlessMotor, p: int)
    requires
        -100 <= p <= 100,
        a.drives(p),
        b.drives(-p),
    ensures
        a.channel_a == b.channel_b,
        a.channel_b == b.channel_a,
{
}

} // verus!
