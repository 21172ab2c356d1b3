//! The command loop: drives motors and hands work to the ST3215 bus.
//!
//! Motors are watchdogged at 500 ms (stopped if no motor command comes).
//! ST3215 servos hold position by themselves and are exempt.
use crate::bounded;
use crate::bounded::{Move, MoveList, ServoList, MAX_SERVOS};
use crate::brushless;
use crate::brushless::MotorControl;
use crate::commands::{Command, MOTOR_COUNT};
use crate::display;
use crate::display::DisplayState;
use crate::st3215;
use crate::st3215::{BusAction, BusView, RequestView, St3215Bus, St3215Error};
use crate::text;
use vstd::prelude::*;
use vstd::string::*;

verus! {

/// Time without a motor command after which the motors are stopped.
pub const WATCHDOG_US: u64 = 500_000;

/// Longest pause between two looks at the watchdog.
pub const CHECK_MS: u64 = 50;

/// First ID of a scan that nobody gave a range for.
pub const SCAN_FROM: u8 = 1;

/// Last ID of a scan that nobody gave a range for.
pub const SCAN_TO: u8 = 20;

/// One operation on the bus.
#[derive(Debug)]
pub enum BusJob {
    Move { id: u8, pos: u16, speed: u16, acc: u8 },
    MoveAll { moves: MoveList, speed: u16, acc: u8 },
    Torque { id: u8, enable: bool },
    SetId { current: u8, new: u8 },
    Ping { id: u8 },
    Zero { id: u8 },
    Wheel { id: u8, wheel_speed: i16, acc: u8 },
    ServoMode { id: u8 },
}

/// Model of a [`BusJob`].
#[verifier::ext_equal]
pub enum BusJobView {
    Move { id: u8, pos: u16, speed: u16, acc: u8 },
    MoveAll { moves: Seq<Move>, speed: u16, acc: u8 },
    Torque { id: u8, enable: bool },
    SetId { current: u8, new: u8 },
    Ping { id: u8 },
    Zero { id: u8 },
    Wheel { id: u8, wheel_speed: i16, acc: u8 },
    ServoMode { id: u8 },
}

impl View for BusJob {
    type V = BusJobView;

    open spec fn view(&self) -> BusJobView {
        match *self {
            BusJob::Move { id, pos, speed, acc } => BusJobView::Move { id, pos, speed, acc },
            BusJob::MoveAll { moves, speed, acc } => BusJobView::MoveAll {
                moves: bounded::move_items(moves),
                speed,
                acc,
            },
            BusJob::Torque { id, enable } => BusJobView::Torque { id, enable },
            BusJob::SetId { current, new } => BusJobView::SetId { current, new },
            BusJob::Ping { id } => BusJobView::Ping { id },
            BusJob::Zero { id } => BusJobView::Zero { id },
            BusJob::Wheel { id, wheel_speed, acc } => BusJobView::Wheel { id, wheel_speed, acc },
            BusJob::ServoMode { id } => BusJobView::ServoMode { id },
        }
    }
}

/// What is left to do for a command.
#[derive(Debug)]
pub enum LoopAction {
    Nothing,
    Bus(BusJob),
    Rescan { from: u8, to: u8 },
}

/// The first `count` of `moves`, at most `MAX_SERVOS`, with shared speed and
/// acceleration.
pub open spec fn shared_moves(count: u8, moves: Seq<(u8, u16)>, speed: u16, acc: u8) -> Seq<Move> {
    Seq::new(
        (if count < MAX_SERVOS { count as nat } else { MAX_SERVOS as nat }),
        |i: int| (moves[i].0, moves[i].1, speed, acc),
    )
}

/// Whether `action` is what `cmd` leaves to do.
pub open spec fn action_of(cmd: Command, action: LoopAction) -> bool {
    match cmd {
        Command::Motor(_, _) => action is Nothing,
        Command::MotorsAll(_) => action is Nothing,
        Command::St3215Move { id, pos, speed, acc } => action == LoopAction::Bus(
            BusJob::Move { id, pos, speed, acc },
        ),
        Command::St3215MoveAll { count, moves, speed, acc } => {
            action matches LoopAction::Bus(BusJob::MoveAll { moves: list, speed: s, acc: a })
                && bounded::move_items(list) == shared_moves(count, moves@, speed, acc) && s == speed
                && a == acc
        },
        Command::St3215Torque { id, enable } => action == LoopAction::Bus(
            BusJob::Torque { id, enable },
        ),
        Command::St3215SetId { current, new } => action == LoopAction::Bus(
            BusJob::SetId { current, new },
        ),
        Command::St3215Ping { id } => action == LoopAction::Bus(BusJob::Ping { id }),
        Command::St3215Rescan { from, to } => action == (LoopAction::Rescan { from, to }),
        Command::St3215Zero { id } => action == LoopAction::Bus(BusJob::Zero { id }),
        Command::St3215Wheel { id, wheel_speed, acc } => action == LoopAction::Bus(
            BusJob::Wheel { id, wheel_speed, acc },
        ),
        Command::St3215ServoMode { id } => action == LoopAction::Bus(BusJob::ServoMode { id }),
    }
}

/// The powers after `cmd`.
pub open spec fn powers_after(powers: Seq<i8>, cmd: Command) -> Seq<i8> {
    match cmd {
        Command::Motor(id, power) => powers.update(id.position(), power),
        Command::MotorsAll(all) => all@,
        _ => powers,
    }
}

/// Whether `cmd` is addressed to the motors.
pub open spec fn is_motor_command(cmd: Command) -> bool {
    cmd is Motor || cmd is MotorsAll
}

/// The display with the powers of all motors replaced.
pub open spec fn showing(shown: Option<DisplayState>, powers: Seq<i8>) -> Option<DisplayState> {
    match shown {
        None => None,
        Some(s) => Some(
            display::with_motor(display::with_motor(s, 0, powers[0]), 1, powers[1]),
        ),
    }
}

/// The display after `cmd`.
pub open spec fn display_after(shown: Option<DisplayState>, cmd: Command) -> Option<DisplayState> {
    match (shown, cmd) {
        (Some(s), Command::Motor(id, power)) => Some(display::with_motor(s, id.position(), power)),
        (_, Command::MotorsAll(all)) => showing(shown, all@),
        _ => shown,
    }
}

/// Whether some motor has power.
pub open spec fn any_power(powers: Seq<i8>) -> bool {
    powers[0] != 0 || powers[1] != 0
}

/// Whether the motors have to be stopped at `now_us`.
pub open spec fn watchdog_due(powers: Seq<i8>, last_us: int, now_us: int) -> bool {
    any_power(powers) && now_us - last_us >= WATCHDOG_US
}

/// Model of what the command loop remembers: the powers last set, and the time
/// of the last motor command.
#[verifier::ext_equal]
pub struct LoopView {
    pub powers: Seq<i8>,
    pub last_us: int,
}

impl LoopView {
    /// Whether the motors are stopped when `cmd` comes, or nothing for a while:
    /// they are overdue, and `cmd` is none for them.
    pub open spec fn stops(self, cmd: Option<Command>, now_us: int) -> bool {
        &&& cmd matches Some(c) ==> !is_motor_command(c)
        &&& watchdog_due(self.powers, self.last_us, now_us)
    }

    /// Where the loop stands after `cmd`, or after nothing for a while.
    pub open spec fn after(self, cmd: Option<Command>, now_us: int) -> LoopView {
        if self.stops(cmd, now_us) {
            LoopView { powers: seq![0i8, 0i8], ..self }
        } else {
            match cmd {
                Some(c) => LoopView {
                    powers: powers_after(self.powers, c),
                    last_us: if is_motor_command(c) {
                        now_us
                    } else {
                        self.last_us
                    },
                },
                None => self,
            }
        }
    }

    /// Where the loop stands after several commands and pauses, each with its
    /// time.
    pub open spec fn after_all(self, events: Seq<(Option<Command>, int)>) -> LoopView
        decreases events.len(),
    {
        if events.len() == 0 {
            self
        } else {
            self.after_all(events.drop_last()).after(events.last().0, events.last().1)
        }
    }
}

/// What the command loop remembers.
#[derive(Debug, Clone, Copy)]
pub struct CommandLoop {
    /// Powers last set.
    pub last_powers: [i8; MOTOR_COUNT],
    /// Time of the last motor command.
    pub last_motor_cmd_us: u64,
}

impl View for CommandLoop {
    type V = LoopView;

    open spec fn view(&self) -> LoopView {
        LoopView { powers: self.last_powers@, last_us: self.last_motor_cmd_us as int }
    }
}

impl CommandLoop {
    /// All motors are at rest.
    pub fn new(now_us: u64) -> (r: CommandLoop)
        ensures
            r.last_powers@ == seq![0i8, 0i8],
            r.last_motor_cmd_us == now_us,
    {
        CommandLoop { last_powers: [0; MOTOR_COUNT], last_motor_cmd_us: now_us }
    }

    /// Carry out `cmd` as far as the motors and the display go, and say what is
    /// left to do on the bus. A command that is not for the motors does not hold
    /// off the watchdog: motors that are overdue are stopped.
    pub fn handle<M: MotorControl>(
        &mut self,
        motors: &mut [M; MOTOR_COUNT],
        shown: &mut Option<DisplayState>,
        cmd: Command,
        now_us: u64,
    ) -> (r: LoopAction)
        ensures
            action_of(cmd, r),
            final(self)@ == old(self)@.after(Some(cmd), now_us as int),
            *final(shown) == (if old(self)@.stops(Some(cmd), now_us as int) {
                showing(*old(shown), seq![0i8, 0i8])
            } else {
                display_after(*old(shown), cmd)
            }),
            match cmd {
                Command::Motor(id, power) => {
                    &&& final(motors)@[id.position()].drives(brushless::clamped(power as int))
                    &&& forall|i: int|
                        0 <= i < MOTOR_COUNT && i != id.position() ==> final(motors)@[i] == old(motors)@[i]
                },
                Command::MotorsAll(all) => forall|i: int|
                    0 <= i < MOTOR_COUNT ==> (#[trigger] final(motors)@[i]).drives(
                        brushless::clamped(all@[i] as int),
                    ),
                _ => if old(self)@.stops(Some(cmd), now_us as int) {
                    forall|i: int|
                        0 <= i < MOTOR_COUNT ==> (#[trigger] final(motors)@[i]).drives(0)
                } else {
                    final(motors)@ == old(motors)@
                },
            },
    {
        match cmd {
            Command::Motor(_, _) => {},
            Command::MotorsAll(_) => {},
            _ => {
                let _ = self.tick(motors, shown, now_us);
            },
        }
        match cmd {
            Command::Motor(id, power) => {
                self.last_motor_cmd_us = now_us;
                let idx: usize = id.index();
                motors[idx].set_power(power);
                display::update_motor(shown, idx, power);
                self.last_powers[idx] = power;
                LoopAction::Nothing
            },
            Command::MotorsAll(powers) => {
                self.last_motor_cmd_us = now_us;
                set_all(motors, shown, powers);
                self.last_powers = powers;
                LoopAction::Nothing
            },
            Command::St3215Move { id, pos, speed, acc } => LoopAction::Bus(
                BusJob::Move { id, pos, speed, acc },
            ),
            Command::St3215MoveAll { count, moves, speed, acc } => {
                let n: usize = if (count as usize) < MAX_SERVOS {
                    count as usize
                } else {
                    MAX_SERVOS
                };
                let mut list = bounded::move_list_new();
                let mut i: usize = 0;
                while i < n
                    invariant
                        i <= n <= MAX_SERVOS,
                        n == shared_moves(count, moves@, speed, acc).len(),
                        bounded::move_items(list) == shared_moves(count, moves@, speed, acc).take(
                            i as int,
                        ),
                    decreases n - i,
                {
                    let (id, pos) = moves[i];
                    let _ = bounded::move_list_push(&mut list, (id, pos, speed, acc));
                    assert(bounded::move_items(list) =~= shared_moves(
                        count,
                        moves@,
                        speed,
                        acc,
                    ).take(i + 1));
                    i = i + 1;
                }
                assert(bounded::move_items(list) =~= shared_moves(count, moves@, speed, acc));
                LoopAction::Bus(BusJob::MoveAll { moves: list, speed, acc })
            },
            Command::St3215Torque { id, enable } => LoopAction::Bus(BusJob::Torque { id, enable }),
            Command::St3215SetId { current, new } => LoopAction::Bus(
                BusJob::SetId { current, new },
            ),
            Command::St3215Ping { id } => LoopAction::Bus(BusJob::Ping { id }),
            Command::St3215Rescan { from, to } => LoopAction::Rescan { from, to },
            Command::St3215Zero { id } => LoopAction::Bus(BusJob::Zero { id }),
            Command::St3215Wheel { id, wheel_speed, acc } => LoopAction::Bus(
                BusJob::Wheel { id, wheel_speed, acc },
            ),
            Command::St3215ServoMode { id } => LoopAction::Bus(BusJob::ServoMode { id }),
        }
    }
}

fn set_all<M: MotorControl>(
    motors: &mut [M; MOTOR_COUNT],
    shown: &mut Option<DisplayState>,
    powers: [i8; MOTOR_COUNT],
)
    ensures
        forall|i: int|
            0 <= i < MOTOR_COUNT ==> (#[trigger] final(motors)@[i]).drives(
                brushless::clamped(powers@[i] as int),
            ),
        *final(shown) == showing(*old(shown), powers@),
{
    motors[0].set_power(powers[0]);
    display::update_motor(shown, 0, powers[0]);
    motors[1].set_power(powers[1]);
    display::update_motor(shown, 1, powers[1]);
}

// -- Watchdog ----------------------------------------------------------------

impl CommandLoop {
    /// The periodic check: stop all motors when no motor command has come for
    /// too long. Says whether it did.
    pub fn tick<M: MotorControl>(
        &mut self,
        motors: &mut [M; MOTOR_COUNT],
        shown: &mut Option<DisplayState>,
        now_us: u64,
    ) -> (stopped: bool)
        ensures
            stopped == old(self)@.stops(None, now_us as int),
            final(self)@ == old(self)@.after(None, now_us as int),
            stopped ==> forall|i: int|
                0 <= i < MOTOR_COUNT ==> (#[trigger] final(motors)@[i]).drives(0),
            stopped ==> *final(shown) == showing(*old(shown), seq![0i8, 0i8]),
            !stopped ==> final(motors)@ == old(motors)@,
            !stopped ==> *final(shown) == *old(shown),
    {
        if (self.last_powers[0] != 0 || self.last_powers[1] != 0) && now_us.saturating_sub(
            self.last_motor_cmd_us,
        ) >= WATCHDOG_US {
            let rest: [i8; MOTOR_COUNT] = [0; MOTOR_COUNT];
            set_all(motors, shown, rest);
            self.last_powers = rest;
            true
        } else {
            false
        }
    }
}

/// Whether none of `events` is a motor command.
pub open spec fn no_motor_commands(events: Seq<(Option<Command>, int)>) -> bool {
    forall|k: int|
        0 <= k < events.len() ==> ((#[trigger] events[k]).0 matches Some(c) ==> !is_motor_command(
            c,
        ))
}

/// A motor command keeps the watchdog away for 500 ms, and no longer: whatever
/// servo commands and pauses follow, the powers stay while all of them come
/// before that time, and are zero as soon as one of them comes later. So servo
/// commands neither feed the watchdog nor hold it off.
pub proof fn law_watchdog(
    v: LoopView,
    cmd: Command,
    cmd_us: int,
    events: Seq<(Option<Command>, int)>,
)
    requires
        v.powers.len() == MOTOR_COUNT,
        is_motor_command(cmd),
        no_motor_commands(events),
    ensures
        ({
            let w = v.after(Some(cmd), cmd_us);
            &&& w == (LoopView { powers: powers_after(v.powers, cmd), last_us: cmd_us })
            &&& (forall|k: int| 0 <= k < events.len() ==> (#[trigger] events[k]).1 < cmd_us + WATCHDOG_US)
                ==> w.after_all(events) == w
            &&& (exists|k: int| 0 <= k < events.len() && (#[trigger] events[k]).1 >= cmd_us + WATCHDOG_US)
                ==> w.after_all(events) == (LoopView { powers: seq![0i8, 0i8], last_us: cmd_us })
        }),
{
    lemma_servo_traffic(v.after(Some(cmd), cmd_us), events);
}

proof fn lemma_servo_traffic(w: LoopView, events: Seq<(Option<Command>, int)>)
    requires
        w.powers.len() == MOTOR_COUNT,
        no_motor_commands(events),
    ensures
        w.after_all(events) == (if exists|k: int|
            0 <= k < events.len() && (#[trigger] events[k]).1 >= w.last_us + WATCHDOG_US {
            LoopView { powers: seq![0i8, 0i8], ..w }
        } else {
            w
        }),
    decreases events.len(),
{
    if events.len() > 0 {
        let front = events.drop_last();
        assert forall|k: int| 0 <= k < front.len() implies ((#[trigger] front[k]).0 matches Some(c)
            ==> !is_motor_command(c)) by {
            assert(front[k] == events[k]);
        }
        lemma_servo_traffic(w, front);
        assert(events[events.len() - 1] == events.last());
        assert forall|k: int| 0 <= k < front.len() implies front[k] == #[trigger] events[k] by {}
        if !any_power(w.powers) {
            assert(w.powers =~= seq![0i8, 0i8]);
        }
    }
}

// -- Bus jobs ----------------------------------------------------------------

/// The requests that a job puts on the bus.
pub open spec fn job_requests(job: BusJob) -> Seq<RequestView> {
    match job {
        BusJob::Move { id, pos, speed, acc } => st3215::write_pos_requests(id, pos, speed, acc),
        BusJob::MoveAll { moves, .. } => st3215::sync_write_pos_requests(
            bounded::move_items(moves),
        ),
        BusJob::Torque { id, enable } => st3215::set_torque_requests(id, enable),
        BusJob::SetId { current, new } => st3215::write_id_requests(current, new),
        BusJob::Ping { id } => st3215::ping_requests(id),
        BusJob::Zero { id } => st3215::calibrate_zero_requests(id),
        BusJob::Wheel { id, wheel_speed, acc } => st3215::write_wheel_speed_requests(
            id,
            wheel_speed,
            acc,
        ),
        BusJob::ServoMode { id } => st3215::set_servo_mode_requests(id),
    }
}

/// Begin with a job.
pub fn start_job(bus: &mut St3215Bus, job: &BusJob) -> (r: BusAction)
    requires
        job matches BusJob::Wheel { wheel_speed, .. } ==> wheel_speed != i16::MIN,
    ensures
        final(bus).wf(),
        final(bus)@ == BusView::started(job_requests(*job)),
        final(bus)@.asks_for(r),
{
    match job {
        BusJob::Move { id, pos, speed, acc } => bus.write_pos(*id, *pos, *speed, *acc),
        BusJob::MoveAll { moves, .. } => bus.sync_write_pos(bounded::move_list_as_slice(moves)),
        BusJob::Torque { id, enable } => bus.set_torque(*id, *enable),
        BusJob::SetId { current, new } => bus.write_id(*current, *new),
        BusJob::Ping { id } => bus.ping(*id),
        BusJob::Zero { id } => bus.calibrate_zero(*id),
        BusJob::Wheel { id, wheel_speed, acc } => bus.write_wheel_speed(*id, *wheel_speed, *acc),
        BusJob::ServoMode { id } => bus.set_servo_mode(*id),
    }
}

/// The scan that has to follow a job: an ID change that succeeded makes the
/// list of servos stale.
pub fn follow_up(job: &BusJob, succeeded: bool) -> (r: Option<(u8, u8)>)
    ensures
        r == (if job is SetId && succeeded {
            Some((SCAN_FROM, SCAN_TO))
        } else {
            None
        }),
{
    match job {
        BusJob::SetId { .. } if succeeded => Some((SCAN_FROM, SCAN_TO)),
        _ => None,
    }
}

/// What a job that succeeded is logged as.
pub open spec fn success_text(job: BusJob) -> Seq<char> {
    match job {
        BusJob::Move { id, pos, speed, acc } => "ST3215["@ + text::dec(id as nat) + "] -> pos="@
            + text::dec(pos as nat) + " speed="@ + text::dec(speed as nat) + " acc="@ + text::dec(
            acc as nat,
        ),
        BusJob::MoveAll { moves, speed, acc } => "ST3215 sync_write "@ + text::dec(
            bounded::move_items(moves).len(),
        ) + " servos @ speed="@ + text::dec(speed as nat) + " acc="@ + text::dec(acc as nat),
        BusJob::Torque { id, enable } => "ST3215["@ + text::dec(id as nat) + "] torque="@
            + text::bool_text(enable),
        BusJob::SetId { current, new } => "ST3215 id "@ + text::dec(current as nat) + " -> "@
            + text::dec(new as nat),
        BusJob::Ping { id } => "ST3215["@ + text::dec(id as nat) + "] ping OK"@,
        BusJob::Zero { id } => "ST3215["@ + text::dec(id as nat) + "] zero OK"@,
        BusJob::Wheel { id, wheel_speed, acc } => "ST3215["@ + text::dec(id as nat)
            + "] wheel speed="@ + text::dec_int(wheel_speed as int) + " acc="@ + text::dec(
            acc as nat,
        ),
        BusJob::ServoMode { id } => "ST3215["@ + text::dec(id as nat) + "] servo mode"@,
    }
}

/// What the failure of a job is logged as, up to the error.
pub open spec fn failure_text(job: BusJob) -> Seq<char> {
    match job {
        BusJob::Move { id, .. } => "ST3215["@ + text::dec(id as nat) + "] move error: "@,
        BusJob::MoveAll { .. } => "ST3215 sync_write error: "@,
        BusJob::Torque { id, .. } => "ST3215["@ + text::dec(id as nat) + "] torque error: "@,
        BusJob::SetId { .. } => "ST3215 set_id error: "@,
        BusJob::Ping { id } => "ST3215["@ + text::dec(id as nat) + "] ping error: "@,
        BusJob::Zero { id } => "ST3215["@ + text::dec(id as nat) + "] zero error: "@,
        BusJob::Wheel { id, .. } => "ST3215["@ + text::dec(id as nat) + "] wheel error: "@,
        BusJob::ServoMode { id } => "ST3215["@ + text::dec(id as nat) + "] servo mode error: "@,
    }
}

fn servo_tag(id: u8, rest: &str) -> (r: String)
    ensures
        r@ == "ST3215["@ + text::dec(id as nat) + rest@,
{
    let mut out: String = String::from_str("ST3215[");
    text::push_dec(&mut out, id as u32);
    out.append(rest);
    out
}

/// The log line of a job.
pub fn job_report(job: &BusJob, outcome: Result<(), St3215Error>) -> (r: String)
    ensures
        match outcome {
            Ok(_) => r@ == success_text(*job),
            Err(e) => r@ == failure_text(*job) + st3215::error_name(e),
        },
{
    match outcome {
        Ok(_) => match job {
            BusJob::Move { id, pos, speed, acc } => {
                let mut out: String = servo_tag(*id, "] -> pos=");
                text::push_dec(&mut out, *pos as u32);
                out.append(" speed=");
                text::push_dec(&mut out, *speed as u32);
                out.append(" acc=");
                text::push_dec(&mut out, *acc as u32);
                out
            },
            BusJob::MoveAll { moves, speed, acc } => {
                let mut out: String = String::from_str("ST3215 sync_write ");
                text::push_dec(&mut out, bounded::move_list_as_slice(moves).len() as u32);
                out.append(" servos @ speed=");
                text::push_dec(&mut out, *speed as u32);
                out.append(" acc=");
                text::push_dec(&mut out, *acc as u32);
                out
            },
            BusJob::Torque { id, enable } => {
                let mut out: String = servo_tag(*id, "] torque=");
                text::push_bool(&mut out, *enable);
                out
            },
            BusJob::SetId { current, new } => {
                let mut out: String = String::from_str("ST3215 id ");
                text::push_dec(&mut out, *current as u32);
                out.append(" -> ");
                text::push_dec(&mut out, *new as u32);
                out
            },
            BusJob::Ping { id } => servo_tag(*id, "] ping OK"),
            BusJob::Zero { id } => servo_tag(*id, "] zero OK"),
            BusJob::Wheel { id, wheel_speed, acc } => {
                let mut out: String = servo_tag(*id, "] wheel speed=");
                text::push_dec_int(&mut out, *wheel_speed as i32);
                out.append(" acc=");
                text::push_dec(&mut out, *acc as u32);
                out
            },
            BusJob::ServoMode { id } => servo_tag(*id, "] servo mode"),
        },
        Err(e) => {
            let mut out: String = match job {
                BusJob::Move { id, .. } => servo_tag(*id, "] move error: "),
                BusJob::MoveAll { .. } => String::from_str("ST3215 sync_write error: "),
                BusJob::Torque { id, .. } => servo_tag(*id, "] torque error: "),
                BusJob::SetId { .. } => String::from_str("ST3215 set_id error: "),
                BusJob::Ping { id } => servo_tag(*id, "] ping error: "),
                BusJob::Zero { id } => servo_tag(*id, "] zero error: "),
                BusJob::Wheel { id, .. } => servo_tag(*id, "] wheel error: "),
                BusJob::ServoMode { id } => servo_tag(*id, "] servo mode error: "),
            };
            let name: String = e.name();
            out.append(name.as_str());
            out
        },
    }
}

/// The log line of a scan.
pub open spec fn scan_text(from: u8, to: u8, ids: Seq<u8>) -> Seq<char> {
    if ids.len() == 0 {
        "ST3215 scan ("@ + text::dec(from as nat) + "..="@ + text::dec(to as nat)
            + "): no servos found"@
    } else {
        "ST3215 servos found ("@ + text::dec(ids.len()) + "): ["@ + text::joined(ids, ", "@)
            + "]"@
    }
}

/// The log line of a scan that has left `list`.
pub fn print_servo_list(from: u8, to: u8, list: &ServoList) -> (r: String)
    ensures
        r@ == scan_text(from, to, bounded::servo_ids(*list)),
{
    let ids = bounded::servo_list_as_slice(list);
    if ids.len() == 0 {
        let mut out: String = String::from_str("ST3215 scan (");
        text::push_dec(&mut out, from as u32);
        out.append("..=");
        text::push_dec(&mut out, to as u32);
        out.append("): no servos found");
        out
    } else {
        let mut out: String = String::from_str("ST3215 servos found (");
        text::push_dec(&mut out, ids.len() as u32);
        out.append("): [");
        text::push_joined(&mut out, ids, ", ");
        out.append("]");
        out
    }
}

} // verus!
