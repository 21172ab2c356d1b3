//! What the motors, the battery and the command loop do, in numbers.
use crate::battery;
use crate::bounded;
use crate::brushless;
use crate::brushless::{BrushlessMotor, MotorControl, TB6612Motor};
use crate::commands;
use crate::commands::{Command, CommandView, MotorId};
use crate::control;
use crate::control::{BusJob, BusJobView, LoopAction, LoopView};
use crate::display::DisplayState;
use crate::st3215;
use crate::st3215::St3215Error;
use crate::text;
use vstd::prelude::*;

verus! {

// -- Motors ------------------------------------------------------------------

/// The duty is that part of 16384 steps that the power is of 100, rounded down.
pub proof fn law_duty_is_proportional(p: int)
    requires
        0 <= p <= 100,
    ensures
        100 * brushless::duty_steps(p) <= 16384 * p < 100 * (brushless::duty_steps(p) + 1),
{
}

/// Powers beyond full power mean full power; all others mean themselves.
pub proof fn law_powers_are_clamped(p: int)
    ensures
        -100 <= p <= 100 ==> brushless::clamped(p) == p,
        p >= 100 ==> brushless::clamped(p) == 100,
        p <= -100 ==> brushless::clamped(p) == -100,
{
}

/// A TB6612 drives forward with IN1 high, in reverse with IN2 high, and stands
/// still with both low; the duty is that part of 16384 steps that the power is
/// of 100.
pub proof fn law_tb6612_pins(m: TB6612Motor, p: int)
    requires
        -100 <= p <= 100,
        m.drives(p),
    ensures
        m.in1 == (p > 0),
        m.in2 == (p < 0),
        p >= 0 ==> 100 * m.duty <= 16384 * p < 100 * (m.duty + 1),
        p <= 0 ==> 100 * m.duty <= -16384 * p < 100 * (m.duty + 1),
{
}

/// An H-bridge drives forward on its first channel and in reverse on its
/// second; the other one stands at zero.
pub proof fn law_h_bridge_channels(m: BrushlessMotor, p: int)
    requires
        -100 <= p <= 100,
        m.drives(p),
    ensures
        p >= 0 ==> m.channel_b == 0 && 100 * m.channel_a <= 16384 * p < 100 * (m.channel_a + 1),
        p <= 0 ==> m.channel_a == 0 && 100 * m.channel_b <= -16384 * p < 100 * (m.channel_b + 1),
{
}

// -- Battery -----------------------------------------------------------------

/// The bus voltage register counts steps of 4 mV above its three low bits.
pub proof fn law_voltage_register(hi: u8, lo: u8, steps: int, low: int)
    requires
        256 * hi + lo == 8 * steps + low,
        0 <= low < 8,
    ensures
        battery::register_mv(hi, lo) == 4 * steps,
{
}

/// Whether the charge at `mv` lies on the line from `p_lo` percent at `v_lo`
/// to `p_hi` percent at `v_hi`, rounded down.
pub open spec fn on_the_line(mv: int, v_lo: int, p_lo: int, v_hi: int, p_hi: int) -> bool {
    let c = battery::charge(mv);
    (v_hi - v_lo) * (c - p_lo) <= (mv - v_lo) * (p_hi - p_lo) < (v_hi - v_lo) * (c + 1 - p_lo)
}

/// The charge of a 3S LiPo goes in straight lines between 9.0 V (0 %), 10.2 V
/// (5 %), 10.8 V (20 %), 11.4 V (50 %), 12.0 V (80 %) and 12.6 V (100 %).
pub proof fn law_charge_curve(mv: int)
    ensures
        battery::charge(9000) == 0 && battery::charge(10200) == 5 && battery::charge(10800) == 20
            && battery::charge(11400) == 50 && battery::charge(12000) == 80 && battery::charge(12600)
            == 100,
        mv <= 9000 ==> battery::charge(mv) == 0,
        9000 <= mv < 10200 ==> on_the_line(mv, 9000, 0, 10200, 5),
        10200 <= mv < 10800 ==> on_the_line(mv, 10200, 5, 10800, 20),
        10800 <= mv < 11400 ==> on_the_line(mv, 10800, 20, 11400, 50),
        11400 <= mv < 12000 ==> on_the_line(mv, 11400, 50, 12000, 80),
        12000 <= mv < 12600 ==> on_the_line(mv, 12000, 80, 12600, 100),
        mv >= 12600 ==> battery::charge(mv) == 100,
{
}

/// How far one counter value is ahead of another is what has to be counted up
/// from the one, through zero if need be, to get to the other.
pub proof fn law_counters_wrap(current: u16, target: u16)
    ensures
        0 <= commands::generations_ahead(current, target) < 65536,
        (target + commands::generations_ahead(current, target)) % 65536 == current as int,
        current >= target ==> commands::generations_ahead(current, target) == current - target,
        current < target ==> commands::generations_ahead(current, target) == 65536 + current
            - target,
{
}

// -- Commands ----------------------------------------------------------------

/// The model of a command keeps every field of it: two commands with one model
/// mean the same.
pub proof fn law_command_models(
    id: u8,
    other: u8,
    m: MotorId,
    p: i8,
    all: [i8; 2],
    pos: u16,
    speed: u16,
    acc: u8,
    on: bool,
    w: i16,
)
    ensures
        Command::Motor(m, p)@ == CommandView::Motor(m, p),
        Command::MotorsAll(all)@ == CommandView::MotorsAll(all@),
        (Command::St3215Move { id, pos, speed, acc })@ == (CommandView::Move { id, pos, speed, acc }),
        (Command::St3215Torque { id, enable: on })@ == (CommandView::Torque { id, enable: on }),
        (Command::St3215SetId { current: id, new: other })@ == (CommandView::SetId {
            current: id,
            new: other,
        }),
        (Command::St3215Ping { id })@ == (CommandView::Ping { id }),
        (Command::St3215Rescan { from: id, to: other })@ == (CommandView::Rescan {
            from: id,
            to: other,
        }),
        (Command::St3215Zero { id })@ == (CommandView::Zero { id }),
        (Command::St3215Wheel { id, wheel_speed: w, acc })@ == (CommandView::Wheel {
            id,
            wheel_speed: w,
            acc,
        }),
        (Command::St3215ServoMode { id })@ == (CommandView::ServoMode { id }),
{
}

/// The model of a multi-servo move holds its first `count` entries, in order.
pub proof fn law_move_all_model(count: u8, moves: [(u8, u16); 16], speed: u16, acc: u8, i: int)
    requires
        count <= 16,
        0 <= i < count,
    ensures
        match (Command::St3215MoveAll { count, moves, speed, acc })@ {
            CommandView::MoveAll { moves: ms, speed: s, acc: a } => ms.len() == count && ms[i]
                == moves@[i] && s == speed && a == acc,
            _ => false,
        },
{
}

/// Behind its last target a multi-servo move holds nothing but zeros.
pub proof fn law_spare_entries(cmd: Command, i: int)
    requires
        commands::no_spare_entries(cmd),
    ensures
        cmd matches Command::St3215MoveAll { count, moves, .. } ==> count <= 16 && (count <= i < 16
            ==> moves@[i].0 == 0 && moves@[i].1 == 0),
{
    if let Command::St3215MoveAll { count, moves, .. } = cmd {
        assert(count <= i < 16 ==> moves@[i] == (0u8, 0u16));
    }
}

/// A servo has an ID within 1..=253.
pub proof fn law_servo_ids(id: int)
    ensures
        commands::valid_servo_id(id) <==> 1 <= id <= 253,
{
}

/// The model of a job keeps every field of it.
pub proof fn law_job_models(
    id: u8,
    other: u8,
    pos: u16,
    speed: u16,
    acc: u8,
    on: bool,
    w: i16,
    moves: bounded::MoveList,
)
    ensures
        (BusJob::Move { id, pos, speed, acc })@ == (BusJobView::Move { id, pos, speed, acc }),
        (BusJob::MoveAll { moves, speed, acc })@ == (BusJobView::MoveAll {
            moves: bounded::move_items(moves),
            speed,
            acc,
        }),
        (BusJob::Torque { id, enable: on })@ == (BusJobView::Torque { id, enable: on }),
        (BusJob::SetId { current: id, new: other })@ == (BusJobView::SetId {
            current: id,
            new: other,
        }),
        (BusJob::Ping { id })@ == (BusJobView::Ping { id }),
        (BusJob::Zero { id })@ == (BusJobView::Zero { id }),
        (BusJob::Wheel { id, wheel_speed: w, acc })@ == (BusJobView::Wheel {
            id,
            wheel_speed: w,
            acc,
        }),
        (BusJob::ServoMode { id })@ == (BusJobView::ServoMode { id }),
{
}

// -- The command loop --------------------------------------------------------

/// A motor command leaves nothing to do on the bus; a servo command leaves its
/// own job, with the values that it came with.
pub proof fn law_servo_commands_become_jobs(cmd: Command, action: LoopAction)
    requires
        control::action_of(cmd, action),
    ensures
        match cmd {
            Command::Motor(_, _) => action is Nothing,
            Command::MotorsAll(_) => action is Nothing,
            Command::St3215Move { id, pos, speed, acc } => action == LoopAction::Bus(
                BusJob::Move { id, pos, speed, acc },
            ),
            Command::St3215MoveAll { count, moves, speed, acc } => match action {
                LoopAction::Bus(BusJob::MoveAll { moves: list, speed: s, acc: a }) => {
                    let items = bounded::move_items(list);
                    &&& s == speed && a == acc
                    &&& items.len() == (if count <= 16 { count as int } else { 16 })
                    &&& forall|i: int|
                        0 <= i < items.len() ==> #[trigger] items[i] == (
                            moves@[i].0,
                            moves@[i].1,
                            speed,
                            acc,
                        )
                },
                _ => false,
            },
            Command::St3215Torque { id, enable } => action == LoopAction::Bus(
                BusJob::Torque { id, enable },
            ),
            Command::St3215SetId { current, new } => action == LoopAction::Bus(
                BusJob::SetId { current, new },
            ),
            Command::St3215Ping { id } => action == LoopAction::Bus(BusJob::Ping { id }),
            Command::St3215Rescan { from, to } => action == (LoopAction::Rescan { from, to }),
            Command::St3215Zero { id } => action == LoopAction::Bus(BusJob::Zero { id }),
            Command::St3215Wheel { id, wheel_speed, acc } => action == LoopAction::Bus(
                BusJob::Wheel { id, wheel_speed, acc },
            ),
            Command::St3215ServoMode { id } => action == LoopAction::Bus(BusJob::ServoMode { id }),
        },
{
}

/// Each job puts its own operation on the bus, with the values that it holds.
pub proof fn law_jobs_go_to_the_bus(
    id: u8,
    other: u8,
    pos: u16,
    speed: u16,
    acc: u8,
    on: bool,
    w: i16,
    moves: bounded::MoveList,
)
    ensures
        control::job_requests(BusJob::Move { id, pos, speed, acc }) == st3215::write_pos_requests(
            id,
            pos,
            speed,
            acc,
        ),
        control::job_requests(BusJob::MoveAll { moves, speed, acc })
            == st3215::sync_write_pos_requests(bounded::move_items(moves)),
        control::job_requests(BusJob::Torque { id, enable: on }) == st3215::set_torque_requests(
            id,
            on,
        ),
        control::job_requests(BusJob::SetId { current: id, new: other })
            == st3215::write_id_requests(id, other),
        control::job_requests(BusJob::Ping { id }) == st3215::ping_requests(id),
        control::job_requests(BusJob::Zero { id }) == st3215::calibrate_zero_requests(id),
        control::job_requests(BusJob::Wheel { id, wheel_speed: w, acc })
            == st3215::write_wheel_speed_requests(id, w, acc),
        control::job_requests(BusJob::ServoMode { id }) == st3215::set_servo_mode_requests(id),
{
}

/// What a motor command leaves of the powers, and what it shows: the motor that
/// it names has its power, the other one keeps its own.
pub proof fn law_motor_commands_set_powers(a: i8, b: i8, p: i8, all: [i8; 2], s: DisplayState)
    ensures
        control::powers_after(seq![a, b], Command::Motor(MotorId::A, p)) == seq![p, b],
        control::powers_after(seq![a, b], Command::Motor(MotorId::B, p)) == seq![a, p],
        control::powers_after(seq![a, b], Command::MotorsAll(all)) == all@,
        control::display_after(Some(s), Command::Motor(MotorId::A, p)) == Some(
            DisplayState { motor_a: p, ..s },
        ),
        control::display_after(Some(s), Command::Motor(MotorId::B, p)) == Some(
            DisplayState { motor_b: p, ..s },
        ),
        control::display_after(Some(s), Command::MotorsAll(all)) == Some(
            DisplayState { motor_a: all@[0], motor_b: all@[1], ..s },
        ),
        control::showing(Some(s), seq![a, b]) == Some(DisplayState { motor_a: a, motor_b: b, ..s }),
        control::showing(None, seq![a, b]) is None,
        control::display_after(None, Command::MotorsAll(all)) is None,
        control::display_after(None, Command::Motor(MotorId::A, p)) is None,
        MotorId::A.position() == 0 && MotorId::B.position() == 1,
{
    assert(control::powers_after(seq![a, b], Command::Motor(MotorId::A, p)) =~= seq![p, b]);
    assert(control::powers_after(seq![a, b], Command::Motor(MotorId::B, p)) =~= seq![a, p]);
}

/// Whether `cmd` is one for the servos.
pub open spec fn for_servos(cmd: Command) -> bool {
    match cmd {
        Command::Motor(_, _) => false,
        Command::MotorsAll(_) => false,
        _ => true,
    }
}

/// A command for the servos leaves the powers, their time and the display, as
/// a pause does, unless half a second has gone by since the last motor command:
/// then the motors stop. A motor command sets its powers and its time.
pub proof fn law_loop_steps(v: LoopView, cmd: Command, now_us: int, shown: Option<DisplayState>)
    requires
        v.powers.len() == 2,
    ensures
        ({
            let due = (v.powers[0] != 0 || v.powers[1] != 0) && now_us >= v.last_us + 500_000;
            let zero = LoopView { powers: seq![0i8, 0i8], last_us: v.last_us };
            &&& v.stops(None, now_us) == due
            &&& v.after(None, now_us) == (if due { zero } else { v })
            &&& for_servos(cmd) ==> v.stops(Some(cmd), now_us) == due
            &&& for_servos(cmd) ==> v.after(Some(cmd), now_us) == (if due { zero } else { v })
            &&& for_servos(cmd) ==> control::display_after(shown, cmd) == shown
            &&& !for_servos(cmd) ==> !v.stops(Some(cmd), now_us)
            &&& !for_servos(cmd) ==> v.after(Some(cmd), now_us) == (LoopView {
                powers: control::powers_after(v.powers, cmd),
                last_us: now_us,
            })
        }),
{
}

// -- Reports -----------------------------------------------------------------

/// Servo `id`, as the log names it.
pub open spec fn tag(id: u8) -> Seq<char> {
    "ST3215["@ + text::dec_int(id as int) + "]"@
}

/// The log of a job that went well names the servo and every value.
pub proof fn law_success_is_reported(
    id: u8,
    other: u8,
    pos: u16,
    speed: u16,
    acc: u8,
    on: bool,
    w: i16,
    moves: bounded::MoveList,
)
    ensures
        control::success_text(BusJob::Move { id, pos, speed, acc }) == tag(id) + " -> pos="@
            + text::dec_int(pos as int) + " speed="@ + text::dec_int(speed as int) + " acc="@
            + text::dec_int(acc as int),
        control::success_text(BusJob::MoveAll { moves, speed, acc }) == "ST3215 sync_write "@
            + text::dec_int(bounded::move_items(moves).len() as int) + " servos @ speed="@
            + text::dec_int(speed as int) + " acc="@ + text::dec_int(acc as int),
        control::success_text(BusJob::Torque { id, enable: on }) == tag(id) + " torque="@ + (if on {
            "true"@
        } else {
            "false"@
        }),
        control::success_text(BusJob::SetId { current: id, new: other }) == "ST3215 id "@
            + text::dec_int(id as int) + " -> "@ + text::dec_int(other as int),
        control::success_text(BusJob::Ping { id }) == tag(id) + " ping OK"@,
        control::success_text(BusJob::Zero { id }) == tag(id) + " zero OK"@,
        control::success_text(BusJob::Wheel { id, wheel_speed: w, acc }) == tag(id)
            + " wheel speed="@ + text::dec_int(w as int) + " acc="@ + text::dec_int(acc as int),
        control::success_text(BusJob::ServoMode { id }) == tag(id) + " servo mode"@,
{
    lemma_tag(id);
    reveal_strlit("] -> pos=");
    reveal_strlit(" -> pos=");
    reveal_strlit("] torque=");
    reveal_strlit(" torque=");
    reveal_strlit("] ping OK");
    reveal_strlit(" ping OK");
    reveal_strlit("] zero OK");
    reveal_strlit(" zero OK");
    reveal_strlit("] wheel speed=");
    reveal_strlit(" wheel speed=");
    reveal_strlit("] servo mode");
    reveal_strlit(" servo mode");
    reveal_strlit("]");
    assert("] -> pos="@ =~= "]"@ + " -> pos="@);
    assert("] torque="@ =~= "]"@ + " torque="@);
    assert("] ping OK"@ =~= "]"@ + " ping OK"@);
    assert("] zero OK"@ =~= "]"@ + " zero OK"@);
    assert("] wheel speed="@ =~= "]"@ + " wheel speed="@);
    assert("] servo mode"@ =~= "]"@ + " servo mode"@);
    let f = "ST3215["@ + text::dec(id as nat);
    assert(f + ("]"@ + " -> pos="@) =~= tag(id) + " -> pos="@);
    assert(f + ("]"@ + " torque="@) =~= tag(id) + " torque="@);
    assert(f + ("]"@ + " ping OK"@) =~= tag(id) + " ping OK"@);
    assert(f + ("]"@ + " zero OK"@) =~= tag(id) + " zero OK"@);
    assert(f + ("]"@ + " wheel speed="@) =~= tag(id) + " wheel speed="@);
    assert(f + ("]"@ + " servo mode"@) =~= tag(id) + " servo mode"@);
}

proof fn lemma_tag(id: u8)
    ensures
        tag(id) == "ST3215["@ + text::dec(id as nat) + "]"@,
{
}

/// The log of a job that failed names the servo; the error follows.
pub proof fn law_failure_is_reported(
    id: u8,
    other: u8,
    pos: u16,
    speed: u16,
    acc: u8,
    on: bool,
    w: i16,
    moves: bounded::MoveList,
)
    ensures
        control::failure_text(BusJob::Move { id, pos, speed, acc }) == "ST3215["@ + text::dec_int(
            id as int,
        ) + "] move error: "@,
        control::failure_text(BusJob::MoveAll { moves, speed, acc })
            == "ST3215 sync_write error: "@,
        control::failure_text(BusJob::Torque { id, enable: on }) == "ST3215["@ + text::dec_int(
            id as int,
        ) + "] torque error: "@,
        control::failure_text(BusJob::SetId { current: id, new: other })
            == "ST3215 set_id error: "@,
        control::failure_text(BusJob::Ping { id }) == "ST3215["@ + text::dec_int(id as int)
            + "] ping error: "@,
        control::failure_text(BusJob::Zero { id }) == "ST3215["@ + text::dec_int(id as int)
            + "] zero error: "@,
        control::failure_text(BusJob::Wheel { id, wheel_speed: w, acc }) == "ST3215["@
            + text::dec_int(id as int) + "] wheel error: "@,
        control::failure_text(BusJob::ServoMode { id }) == "ST3215["@ + text::dec_int(id as int)
            + "] servo mode error: "@,
{
}

/// Errors have their own names; a failed status packet shows its error byte.
pub proof fn law_error_names(code: u8)
    ensures
        st3215::error_name(St3215Error::Timeout) == "Timeout"@,
        st3215::error_name(St3215Error::BadHeader) == "BadHeader"@,
        st3215::error_name(St3215Error::BadChecksum) == "BadChecksum"@,
        st3215::error_name(St3215Error::BadLength) == "BadLength"@,
        st3215::error_name(St3215Error::UartTx) == "UartTx"@,
        st3215::error_name(St3215Error::UartRx) == "UartRx"@,
        st3215::error_name(St3215Error::Status(code)) == "Status("@ + text::dec_int(code as int)
            + ")"@,
{
}

/// The log of a scan counts and lists the servos, or names the range that held
/// none.
pub proof fn law_scan_is_reported(from: u8, to: u8, ids: Seq<u8>)
    ensures
        ids.len() > 0 ==> control::scan_text(from, to, ids) == "ST3215 servos found ("@
            + text::dec_int(ids.len() as int) + "): ["@ + text::joined(ids, ", "@) + "]"@,
        ids.len() == 0 ==> control::scan_text(from, to, ids) == "ST3215 scan ("@ + text::dec_int(
            from as int,
        ) + "..="@ + text::dec_int(to as int) + "): no servos found"@,
{
}

} // verus!
