//! Unified command channel for actuator control.
//!
//! All input sources (HTTP, serial, BLE) send commands through a single
//! channel, which the main loop consumes to drive servos and motors.
use crate::bounded::MAX_SERVOS;
use embassy_sync::blocking_mutex::raw::CriticalSectionRawMutex;
use embassy_sync::channel::Channel;
use embassy_sync::channel::TrySendError;
use vstd::prelude::*;

verus! {

/// Number of motors that are driven.
pub const MOTOR_COUNT: usize = 2;

/// Commands that fit into the channel.
pub const QUEUE_DEPTH: usize = 8;

/// Motor identifier.
#[derive(Debug, Clone, Copy, PartialEq, Eq, Structural)]
pub enum MotorId {
    A,
    B,
}

impl MotorId {
    /// Position of the motor in a list of all motors.
    pub open spec fn position(self) -> int {
        match self {
            MotorId::A => 0,
            MotorId::B => 1,
        }
    }

    /// Position of the motor in a list of all motors.
    pub fn index(self) -> (r: usize)
        ensures
            r == self.position(),
            r < MOTOR_COUNT,
    {
        match self {
            MotorId::A => 0,
            MotorId::B => 1,
        }
    }
}

/// A command sent from any input source to control an actuator.
#[derive(Debug, Clone, Copy)]
pub enum Command {
    /// Set a single motor's power (-100 to +100).
    Motor(MotorId, i8),
    /// Set all motors at once.
    MotorsAll([i8; MOTOR_COUNT]),
    /// Move a single ST3215 bus servo.
    St3215Move { id: u8, pos: u16, speed: u16, acc: u8 },
    /// Atomic multi-servo move: the first `count` entries of `moves`, with
    /// speed and acceleration shared across all.
    St3215MoveAll { count: u8, moves: [(u8, u16); MAX_SERVOS], speed: u16, acc: u8 },
    /// Enable or disable torque on a single servo.
    St3215Torque { id: u8, enable: bool },
    /// Change a servo's ID (EEPROM write). Triggers a rescan on success.
    St3215SetId { current: u8, new: u8 },
    /// Ping a single servo and log the result.
    St3215Ping { id: u8 },
    /// Re-scan the bus and refresh the shared servo list.
    St3215Rescan { from: u8, to: u8 },
    /// Make the current physical position of a servo its zero position.
    St3215Zero { id: u8 },
    /// Rotate a servo continuously.
    St3215Wheel { id: u8, wheel_speed: i16, acc: u8 },
    /// Return a servo to position control.
    St3215ServoMode { id: u8 },
}

/// Model of a [`Command`]: of a multi-servo move only the valid entries count.
#[verifier::ext_equal]
pub enum CommandView {
    Motor(MotorId, i8),
    MotorsAll(Seq<i8>),
    Move { id: u8, pos: u16, speed: u16, acc: u8 },
    MoveAll { moves: Seq<(u8, u16)>, speed: u16, acc: u8 },
    Torque { id: u8, enable: bool },
    SetId { current: u8, new: u8 },
    Ping { id: u8 },
    Rescan { from: u8, to: u8 },
    Zero { id: u8 },
    Wheel { id: u8, wheel_speed: i16, acc: u8 },
    ServoMode { id: u8 },
}

impl View for Command {
    type V = CommandView;

    open spec fn view(&self) -> CommandView {
        match *self {
            Command::Motor(id, power) => CommandView::Motor(id, power),
            Command::MotorsAll(powers) => CommandView::MotorsAll(powers@),
            Command::St3215Move { id, pos, speed, acc } => CommandView::Move {
                id,
                pos,
                speed,
                acc,
            },
            Command::St3215MoveAll { count, moves, speed, acc } => CommandView::MoveAll {
                moves: moves@.take(
                    if count <= MAX_SERVOS {
                        count as int
                    } else {
                        MAX_SERVOS as int
                    },
                ),
                speed,
                acc,
            },
            Command::St3215Torque { id, enable } => CommandView::Torque { id, enable },
            Command::St3215SetId { current, new } => CommandView::SetId { current, new },
            Command::St3215Ping { id } => CommandView::Ping { id },
            Command::St3215Rescan { from, to } => CommandView::Rescan { from, to },
            Command::St3215Zero { id } => CommandView::Zero { id },
            Command::St3215Wheel { id, wheel_speed, acc } => CommandView::Wheel {
                id,
                wheel_speed,
                acc,
            },
            Command::St3215ServoMode { id } => CommandView::ServoMode { id },
        }
    }
}

/// Whether a multi-servo move counts no more entries than there are, and is
/// zero behind the last valid one. Of any other command there is nothing to say.
pub open spec fn no_spare_entries(cmd: Command) -> bool {
    cmd matches Command::St3215MoveAll { count, moves, .. } ==> count <= MAX_SERVOS && forall|i: int|
        count <= i < MAX_SERVOS ==> #[trigger] moves@[i] == (0u8, 0u16)
}

/// Whether `id` belongs to one servo.
pub open spec fn valid_servo_id(id: int) -> bool {
    1 <= id <= 253
}

/// Whether the values of a command lie within the documented ranges: powers
/// within -100..=100, IDs within 1..=253, positions and speeds within
/// 0..=4095, wheel speeds within -4095..=4095.
pub open spec fn in_range(cmd: CommandView) -> bool {
    match cmd {
        CommandView::Motor(_, p) => -100 <= p <= 100,
        CommandView::MotorsAll(ps) => forall|k: int|
            0 <= k < ps.len() ==> -100 <= #[trigger] ps[k] <= 100,
        CommandView::Move { id, pos, speed, .. } => valid_servo_id(id as int) && pos <= 4095
            && speed <= 4095,
        CommandView::MoveAll { moves, speed, .. } => speed <= 4095 && forall|k: int|
            0 <= k < moves.len() ==> valid_servo_id((#[trigger] moves[k]).0 as int) && moves[k].1
                <= 4095,
        CommandView::Torque { id, .. } => valid_servo_id(id as int),
        CommandView::SetId { current, new } => valid_servo_id(current as int) && valid_servo_id(
            new as int,
        ),
        CommandView::Ping { id } => valid_servo_id(id as int),
        CommandView::Rescan { from, to } => valid_servo_id(from as int) && valid_servo_id(
            to as int,
        ) && from <= to,
        CommandView::Zero { id } => valid_servo_id(id as int),
        CommandView::Wheel { id, wheel_speed, .. } => valid_servo_id(id as int) && -4095
            <= wheel_speed <= 4095,
        CommandView::ServoMode { id } => valid_servo_id(id as int),
    }
}

/// The command channel: all input tasks send here, the main loop receives.
/// The depth gives plenty of headroom without wasting RAM.
#[verifier::external_body]
pub struct CommandQueue {
    channel: Channel<CriticalSectionRawMutex, Command, QUEUE_DEPTH>,
}

/// The commands waiting in a queue, oldest first.
pub uninterp spec fn queued(queue: CommandQueue) -> Seq<Command>;

/// `embassy_sync::channel::Channel::new`: an empty channel.
#[verifier::external_body]
fn channel_new() -> (r: CommandQueue)
    ensures
        queued(r) == Seq::<Command>::empty(),
{
    CommandQueue { channel: Channel::new() }
}

/// `embassy_sync::channel::Channel::try_receive`: takes the oldest command, if
/// there is one.
#[verifier::external_body]
fn channel_try_receive(queue: &mut CommandQueue) -> (r: Option<Command>)
    ensures
        match r {
            Some(cmd) => queued(*old(queue)).len() > 0 && cmd == queued(*old(queue))[0] && queued(*final(queue)) == queued(*old(queue)).skip(1),
            None => queued(*old(queue)).len() == 0 && queued(*final(queue)) == queued(*old(queue)),
        },
{
    queue.channel.try_receive().ok()
}

/// `embassy_sync::channel::Channel::try_send`: appends the command while there
/// is room; a full channel is left as it is and the command is handed back.
#[verifier::external_body]
fn channel_try_send(queue: &mut CommandQueue, cmd: Command) -> (r: Result<(), Command>)
    ensures
        match r {
            Ok(_) => queued(*old(queue)).len() < QUEUE_DEPTH && queued(*final(queue)) == queued(*old(queue)).push(cmd),
            Err(back) => queued(*old(queue)).len() >= QUEUE_DEPTH && back == cmd && queued(*final(queue)) == queued(*old(queue)),
        },
{
    match queue.channel.try_send(cmd) {
        Ok(()) => Ok(()),
        Err(TrySendError::Full(back)) => Err(back),
    }
}

impl CommandQueue {
    /// An empty queue.
    pub fn new() -> (r: CommandQueue)
        ensures
            queued(r) == Seq::<Command>::empty(),
    {
        channel_new()
    }

    /// Take the oldest command.
    pub fn receive(&mut self) -> (r: Option<Command>)
        ensures
            match r {
                Some(cmd) => queued(*old(self)).len() > 0 && cmd == queued(*old(self))[0] && queued(
                    *final(self),
                ) == queued(*old(self)).skip(1),
                None => queued(*old(self)).len() == 0 && queued(*final(self)) == queued(*old(self)),
            },
    {
        channel_try_receive(self)
    }
}

/// Send a command, draining any stale queued commands first so only the
/// latest value is delivered.
pub fn send_command(queue: &mut CommandQueue, cmd: Command)
    ensures
        queued(*final(queue)) == seq![cmd],
{
    while channel_try_receive(queue).is_some()
        decreases queued(*queue).len(),
    {
    }
    let _ = channel_try_send(queue, cmd);
    assert(queued(*queue) =~= seq![cmd]);
}

// -- Battery samples ---------------------------------------------------------

/// Counters that tie a request for a battery sample to the sample that answers
/// it. Both wrap around.
#[derive(Debug, Clone, Copy, PartialEq, Eq, Structural)]
pub struct BatterySampling {
    /// Samples requested so far.
    pub requests: u16,
    /// Value of `requests` when the last sample was taken.
    pub completions: u16,
}

impl Default for BatterySampling {
    fn default() -> (r: BatterySampling)
        ensures
            r.requests == 0 && r.completions == 0,
    {
        BatterySampling { requests: 0, completions: 0 }
    }
}

/// How far the wrapping counter value `current` is ahead of `target`.
pub open spec fn generations_ahead(current: u16, target: u16) -> int {
    (current - target) % 0x10000
}

/// Whether the wrapping counter value `current` is not behind `target`: at
/// most half the counter's range ahead of it.
pub fn generation_reached(current: u16, target: u16) -> (r: bool)
    ensures
        r == (generations_ahead(current, target) < 0x8000),
{
    current == target || current.wrapping_sub(target) < 0x8000
}

/// Count a request for a fresh battery sample. The result is what
/// [`battery_sample_ready`] has to be asked for.
pub fn request_battery_sample(state: &mut BatterySampling) -> (target: u16)
    ensures
        target == (old(state).requests + 1) % 0x10000,
        *final(state) == (BatterySampling {
            requests: target,
            completions: old(state).completions,
        }),
{
    state.requests = state.requests.wrapping_add(1);
    state.requests
}

/// Mark all currently requested battery samples complete.
pub fn complete_battery_sample_request(state: &mut BatterySampling)
    ensures
        *final(state) == (BatterySampling {
            requests: old(state).requests,
            completions: old(state).requests,
        }),
{
    state.completions = state.requests;
}

/// Whether the sample requested as `target` has been taken.
pub fn battery_sample_ready(state: &BatterySampling, target: u16) -> (r: bool)
    ensures
        r == (generations_ahead(state.completions, target) < 0x8000),
{
    generation_reached(state.completions, target)
}

/// A request is open until a sample completes it: where nothing was open
/// before, the new target is not reached; the next completion reaches it, and
/// so does every completion while fewer than half the counter's range of
/// further requests have come in.
pub proof fn law_completion_reaches_the_request(before: u16, later: int)
    requires
        0 <= later < 0x8000,
    ensures
        ({
            let target = ((before + 1) % 0x10000) as u16;
            let completed = ((target + later) % 0x10000) as u16;
            &&& generations_ahead(before, target) >= 0x8000
            &&& generations_ahead(completed, target) == later
        }),
{
}

} // verus!
