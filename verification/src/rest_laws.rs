//! What the REST API answers to every request, and what it turns down.
use crate::battery::BatteryReading;
use crate::bounded::Move;
use crate::commands::{Command, CommandView, MotorId};
use crate::control::{BusJob, BusJobView};
use crate::http_laws;
use crate::http_server;
use crate::http_server::{JsonResponse, JsonView, Plan, PlanView, Route, RouteView, StatusCode};
use crate::st3215;
use crate::st3215::{ServoState, St3215Error};
use crate::text;
use crate::wifi_config::RadioMode;
use vstd::prelude::*;
use vstd::string::*;

verus! {

/// Whether `plan` answers with `number` and `body`, and does nothing else.
pub open spec fn answers(plan: PlanView, number: int, body: Seq<char>) -> bool {
    plan matches PlanView::Respond(response) && response.status.number() == number && response.body
        == body && response.header == ("Access-Control-Allow-Origin"@, "*"@)
}

/// Whether `plan` sends `cmd` and answers with 200 and `body`.
pub open spec fn sends_and_answers(plan: PlanView, cmd: CommandView, body: Seq<char>) -> bool {
    plan matches PlanView::Send(c, response) && c == cmd && response.status.number() == 200
        && response.body == body && response.header == ("Access-Control-Allow-Origin"@, "*"@)
}

/// The body of an error.
pub open spec fn error_body(message: Seq<char>) -> Seq<char> {
    r#"{"ok":false,"error":""#@ + message + r#""}"#@
}

// -- Queries -----------------------------------------------------------------

/// The first part with the name that is asked for has the value; parts with
/// other names, and parts without a value, are passed over.
pub proof fn law_lookup(
    key: Seq<char>,
    value: Seq<char>,
    bare: Seq<char>,
    rest: Seq<Seq<char>>,
    name: Seq<char>,
)
    requires
        forall|i: int| 0 <= i < key.len() ==> key[i] != '=',
        forall|i: int| 0 <= i < bare.len() ==> bare[i] != '=',
    ensures
        http_server::lookup(seq![key + (seq!['='] + value)] + rest, key) == Some(value),
        name != key ==> http_server::lookup(seq![key + (seq!['='] + value)] + rest, name)
            == http_server::lookup(rest, name),
        http_server::lookup(seq![bare] + rest, name) == http_server::lookup(rest, name),
        http_server::lookup(Seq::empty(), name) is None,
{
    text::lemma_pieces_cons(key, value, '=');
    text::lemma_pieces_cons(bare, value, '=');
    let parts = seq![key + (seq!['='] + value)] + rest;
    let other = seq![bare] + rest;
    assert(parts[0] == key + (seq!['='] + value));
    assert(parts.skip(1) =~= rest);
    assert(other[0] == bare);
    assert(other.skip(1) =~= rest);
}

/// The parts of a query are set apart by `&`; without a query there are none.
pub proof fn law_query_parts(query: &str)
    ensures
        http_server::query_parts(Some(query)) == text::pieces(query@, '&'),
        http_server::query_parts(None).len() == 0,
{
}

/// A number in a path or query is read as what it spells; of one that cannot be
/// in any range it is only known that it is too large, or too small. An
/// unsigned number has no sign, not even in front of a zero.
pub proof fn law_path_numbers(n: int)
    ensures
        -1_000_000 <= n <= 1_000_000 ==> http_server::signed_numeral(text::dec_int(n)) == Some(n),
        n > 1_000_000 ==> http_server::signed_numeral(text::dec_int(n)) == Some(1_000_000int)
            && http_server::unsigned_numeral(text::dec_int(n)) == Some(1_000_000int),
        n < -1_000_000 ==> http_server::signed_numeral(text::dec_int(n)) == Some(-1_000_000int),
        0 <= n <= 1_000_000 ==> http_server::unsigned_numeral(text::dec_int(n)) == Some(n),
        n < 0 ==> (http_server::unsigned_numeral(text::dec_int(n)) matches Some(m) && m < 0),
        n >= 0 ==> (http_server::unsigned_numeral(seq!['-'] + text::dec_int(n)) matches Some(m) ==> m
            < 0),
{
    text::law_written_number_reads_back(n);
    if n >= 0 {
        text::lemma_dec_digits(n as nat);
        assert(text::is_digit(text::dec_int(n)[0]));
        if n > 0 {
            text::law_written_number_reads_back(-n);
            assert(text::dec_int(-n) =~= seq!['-'] + text::dec_int(n));
        } else {
            let s = seq!['-'] + text::dec_int(0);
            assert(s[0] == '-');
            assert(s.skip(1) =~= text::dec_int(0));
            text::lemma_dec_digits(0);
        }
    }
}

// -- Motors ------------------------------------------------------------------

/// `a` and `b` are motors, with powers within -100..=100; nothing else is. What
/// is turned down sends nothing.
pub proof fn law_motor_plans(segment: Seq<char>, power: int)
    ensures
        segment == seq!['a'] && -100 <= power <= 100 ==> sends_and_answers(
            http_server::motor_plan(segment, power),
            CommandView::Motor(MotorId::A, power as i8),
            r#"{"motor": ""#@ + seq!['a'] + r#"", "power": "#@ + text::dec_int(power) + "}"@,
        ),
        segment == seq!['b'] && -100 <= power <= 100 ==> sends_and_answers(
            http_server::motor_plan(segment, power),
            CommandView::Motor(MotorId::B, power as i8),
            r#"{"motor": ""#@ + seq!['b'] + r#"", "power": "#@ + text::dec_int(power) + "}"@,
        ),
        segment != seq!['a'] && segment != seq!['b'] ==> answers(
            http_server::motor_plan(segment, power),
            400,
            error_body("Unknown motor id"@),
        ),
        (segment == seq!['a'] || segment == seq!['b']) && !(-100 <= power <= 100) ==> answers(
            http_server::motor_plan(segment, power),
            400,
            error_body("Power must be between -100 and 100"@),
        ),
{
    if segment.len() == 1 {
        assert(segment =~= seq![segment[0]]);
    }
}

/// `/motor/<id>?power=<p>` is `/motor/<id>/<p>`, for every power that fits into
/// a byte; without such a power it is turned down.
pub proof fn law_motor_queries(
    segment: Seq<char>,
    power: i8,
    rest: Seq<Seq<char>>,
    parts: Seq<Seq<char>>,
)
    ensures
        http_server::motor_query_plan(
            segment,
            seq![http_laws::part("power"@, power as int)] + rest,
        ) == http_server::motor_plan(segment, power as int),
        http_server::lookup(parts, "power"@) is None || text::numeral_within(
            http_server::lookup(parts, "power"@).unwrap(),
            -128,
            127,
        ) is None ==> answers(
            http_server::motor_query_plan(segment, parts),
            400,
            error_body(
                "Missing or invalid power parameter. Use /motor/a/50 or /motor/a?power=50"@,
            ),
        ),
{
    reveal_strlit("power");
    text::lemma_number(power as int, -128, 127);
    law_lookup("power"@, text::dec_int(power as int), Seq::empty(), rest, "power"@);
}

/// Each part of a batch sets its motor, and the last one counts; other parts
/// change nothing.
pub proof fn law_batches(parts: Seq<Seq<char>>, power: int, key: Seq<char>, bare: Seq<char>)
    requires
        -100 <= power <= 100,
        http_laws::is_key(key),
        key != "a"@ && key != "b"@,
        forall|i: int| 0 <= i < bare.len() ==> bare[i] != '=',
    ensures
        http_server::batch(parts.push(http_laws::part("a"@, power))) == (
            Some(power as i8),
            http_server::batch(parts).1,
        ),
        http_server::batch(parts.push(http_laws::part("b"@, power))) == (
            http_server::batch(parts).0,
            Some(power as i8),
        ),
        http_server::batch(parts.push(http_laws::part(key, power))) == http_server::batch(parts),
        http_server::batch(parts.push(bare)) == http_server::batch(parts),
        http_server::batch(Seq::empty()) == (None::<i8>, None::<i8>),
{
    reveal_strlit("a");
    reveal_strlit("b");
    assert("a"@[0] == 'a' && "b"@[0] == 'b');
    http_laws::lemma_part("a"@, power);
    http_laws::lemma_part("b"@, power);
    http_laws::lemma_part(key, power);
    text::lemma_pieces_cons(bare, bare, '=');
    text::lemma_number(power, -100, 100);
    assert(parts.push(http_laws::part("a"@, power)).drop_last() =~= parts);
    assert(parts.push(http_laws::part("b"@, power)).drop_last() =~= parts);
    assert(parts.push(http_laws::part(key, power)).drop_last() =~= parts);
    assert(parts.push(bare).drop_last() =~= parts);
}

/// A part whose value is no power changes nothing either.
pub proof fn law_batches_pass_over(parts: Seq<Seq<char>>, key: Seq<char>, value: Seq<char>)
    requires
        http_laws::is_key(key),
        text::numeral_within(value, -100, 100) is None,
    ensures
        http_server::batch(parts.push(key + (seq!['='] + value))) == http_server::batch(parts),
{
    text::lemma_pieces_cons(key, value, '=');
    assert(parts.push(key + (seq!['='] + value)).drop_last() =~= parts);
}

/// One power beyond 100 in either direction has the whole batch turned down.
pub proof fn law_excess_power_in_a_batch(
    parts: Seq<Seq<char>>,
    i: int,
    key: Seq<char>,
    value: Seq<char>,
    power: int,
)
    requires
        0 <= i < parts.len(),
        key == "a"@ || key == "b"@,
        parts[i] == key + (seq!['='] + value),
        text::numeral(value) == Some(power),
        power < -100 || 100 < power,
    ensures
        answers(
            http_server::motors_plan(parts),
            400,
            error_body("Power must be between -100 and 100"@),
        ),
{
    reveal_strlit("a");
    reveal_strlit("b");
    assert("a"@[0] == 'a' && "b"@[0] == 'b');
    text::lemma_pieces_cons(key, value, '=');
    assert(http_server::excessive_power(parts[i]));
}

/// Nothing else is an excess: neither a power within -100..=100, nor what is no
/// number, nor any other part.
pub proof fn law_no_excess(key: Seq<char>, value: Seq<char>, bare: Seq<char>)
    requires
        http_laws::is_key(key),
        forall|i: int| 0 <= i < bare.len() ==> bare[i] != '=',
    ensures
        !http_server::excessive_power(bare),
        key != "a"@ && key != "b"@ ==> !http_server::excessive_power(key + (seq!['='] + value)),
        text::numeral(value) is None ==> !http_server::excessive_power(key + (seq!['='] + value)),
        text::numeral_within(value, -100, 100) is Some ==> !http_server::excessive_power(
            key + (seq!['='] + value),
        ),
{
    text::lemma_pieces_cons(key, value, '=');
    text::lemma_pieces_cons(bare, value, '=');
}

/// A batch without a power is turned down; the answer to any other names the
/// powers, and `null` for a motor that is not named and stops.
pub proof fn law_batch_answers(parts: Seq<Seq<char>>, p: i8, q: i8)
    requires
        forall|i: int| 0 <= i < parts.len() ==> !http_server::excessive_power(#[trigger] parts[i]),
    ensures
        http_server::batch(parts) == (Some(p), Some(q)) ==> sends_and_answers(
            http_server::motors_plan(parts),
            CommandView::MotorsAll(seq![p, q]),
            r#"{"a":"#@ + text::dec_int(p as int) + r#","b":"#@ + text::dec_int(q as int) + "}"@,
        ),
        http_server::batch(parts) == (Some(p), None::<i8>) ==> sends_and_answers(
            http_server::motors_plan(parts),
            CommandView::MotorsAll(seq![p, 0]),
            r#"{"a":"#@ + text::dec_int(p as int) + r#","b":"#@ + "null"@ + "}"@,
        ),
        http_server::batch(parts) == (None::<i8>, Some(q)) ==> sends_and_answers(
            http_server::motors_plan(parts),
            CommandView::MotorsAll(seq![0, q]),
            r#"{"a":"#@ + "null"@ + r#","b":"#@ + text::dec_int(q as int) + "}"@,
        ),
        http_server::batch(parts) == (None::<i8>, None::<i8>) ==> answers(
            http_server::motors_plan(parts),
            400,
            error_body("Provide at least one motor param: /motors?a=50&b=-30"@),
        ),
{
}

// -- Angles ------------------------------------------------------------------

/// Half a turn of 180 degrees takes 4095 steps; a position is rounded down.
pub proof fn law_angles(angle: int)
    requires
        0 <= angle <= 180,
    ensures
        180 * http_server::angle_position(angle) <= 4095 * angle < 180 * (
        http_server::angle_position(angle) + 1),
        sends_and_answers(
            http_server::angle_plan(angle),
            CommandView::Move {
                id: 1,
                pos: http_server::angle_position(angle) as u16,
                speed: 1000,
                acc: 50,
            },
            r#"{"angle": "#@ + text::dec_int(angle) + "}"@,
        ),
{
}

/// Other angles are turned down.
pub proof fn law_excess_angles(angle: int)
    requires
        angle < 0 || 180 < angle,
    ensures
        answers(
            http_server::angle_plan(angle),
            400,
            r#"{"error":""#@ + "Angle must be between 0 and 180"@ + r#""}"#@,
        ),
{
}

/// `/servo?angle=<a>` is `/servo/<a>`, for every angle that fits into a byte;
/// without such an angle it is turned down.
pub proof fn law_angle_queries(angle: u8, rest: Seq<Seq<char>>, parts: Seq<Seq<char>>)
    ensures
        http_server::angle_query_plan(seq![http_laws::part("angle"@, angle as int)] + rest)
            == http_server::angle_plan(angle as int),
        http_server::lookup(parts, "angle"@) is None || text::numeral_within(
            http_server::lookup(parts, "angle"@).unwrap(),
            0,
            255,
        ) is None ==> answers(
            http_server::angle_query_plan(parts),
            400,
            r#"{"error":""#@
                + "Missing or invalid angle parameter. Use /servo/90 or /servo?angle=90"@
                + r#""}"#@,
        ),
{
    reveal_strlit("angle");
    text::lemma_number(angle as int, 0, 255);
    law_lookup("angle"@, text::dec_int(angle as int), Seq::empty(), rest, "angle"@);
}

// -- Servos ------------------------------------------------------------------

/// What is put on the bus, and 503 while there is no bus.
pub open spec fn on_the_bus(plan: PlanView, job: BusJobView, bus_ready: bool) -> bool {
    if bus_ready {
        plan == PlanView::Bus(job)
    } else {
        answers(plan, 503, error_body("ST3215 bus not initialized"@))
    }
}

/// A query names speed and acceleration of a move; the defaults are 2000 and
/// 50.
pub proof fn law_query_options(speed: int, acc: u8, rest: Seq<Seq<char>>, parts: Seq<Seq<char>>)
    requires
        0 <= speed <= 1_000_000,
    ensures
        http_server::query_speed(seq![http_laws::part("speed"@, speed)] + rest) == speed,
        http_server::query_acc(seq![http_laws::part("acc"@, acc as int)] + rest) == acc,
        http_server::lookup(parts, "speed"@) is None || http_server::unsigned_numeral(
            http_server::lookup(parts, "speed"@).unwrap(),
        ) is None ==> http_server::query_speed(parts) == 2000,
        http_server::lookup(parts, "acc"@) is None || text::numeral_within(
            http_server::lookup(parts, "acc"@).unwrap(),
            0,
            255,
        ) is None ==> http_server::query_acc(parts) == 50,
{
    reveal_strlit("speed");
    reveal_strlit("acc");
    law_path_numbers(speed);
    text::lemma_number(acc as int, 0, 255);
    law_lookup("speed"@, text::dec_int(speed), Seq::empty(), rest, "speed"@);
    law_lookup("acc"@, text::dec_int(acc as int), Seq::empty(), rest, "acc"@);
}

/// A move takes IDs within 1..=253 and positions and speeds within 0..=4095.
pub proof fn law_move_plans(id: int, pos: int, parts: Seq<Seq<char>>, bus_ready: bool)
    ensures
        ({
            let plan = http_server::st_move_plan(id, pos, parts, bus_ready);
            let speed = http_server::query_speed(parts);
            if !(1 <= id <= 253) || !(0 <= pos <= 4095) {
                answers(plan, 400, error_body("Servo ID must be 1-253 and position 0-4095"@))
            } else if !(0 <= speed <= 4095) {
                answers(plan, 400, error_body("Speed must be between 0 and 4095"@))
            } else {
                on_the_bus(
                    plan,
                    BusJobView::Move {
                        id: id as u8,
                        pos: pos as u16,
                        speed: speed as u16,
                        acc: http_server::query_acc(parts),
                    },
                    bus_ready,
                )
            }
        }),
{
}

/// Torque is 0 or 1.
pub proof fn law_torque_plans(id: int, enable: int, bus_ready: bool)
    ensures
        ({
            let plan = http_server::st_torque_plan(id, enable, bus_ready);
            &&& enable != 0 && enable != 1 ==> answers(
                plan,
                400,
                error_body("Torque value must be 0 or 1"@),
            )
            &&& (enable == 0 || enable == 1) && !(1 <= id <= 253) ==> answers(
                plan,
                400,
                error_body("Servo ID must be 1-253"@),
            )
            &&& enable == 1 && 1 <= id <= 253 ==> on_the_bus(
                plan,
                BusJobView::Torque { id: id as u8, enable: true },
                bus_ready,
            )
            &&& enable == 0 && 1 <= id <= 253 ==> on_the_bus(
                plan,
                BusJobView::Torque { id: id as u8, enable: false },
                bus_ready,
            )
        }),
{
}

/// A wheel speed lies within -4095..=4095.
pub proof fn law_wheel_plans(id: int, speed: int, parts: Seq<Seq<char>>, bus_ready: bool)
    ensures
        ({
            let plan = http_server::st_wheel_plan(id, speed, parts, bus_ready);
            if 1 <= id <= 253 && -4095 <= speed <= 4095 {
                on_the_bus(
                    plan,
                    BusJobView::Wheel {
                        id: id as u8,
                        wheel_speed: speed as i16,
                        acc: http_server::query_acc(parts),
                    },
                    bus_ready,
                )
            } else {
                answers(
                    plan,
                    400,
                    error_body("Servo ID must be 1-253 and wheel speed -4095..=4095"@),
                )
            }
        }),
{
}

/// The requests that take nothing but an ID.
pub proof fn law_plain_plans(id: int, bus_ready: bool)
    ensures
        ({
            let zero = http_server::st_zero_plan(id, bus_ready);
            let mode = http_server::st_servo_mode_plan(id, bus_ready);
            let ping = http_server::st_ping_plan(id, bus_ready);
            if 1 <= id <= 253 {
                &&& on_the_bus(zero, BusJobView::Zero { id: id as u8 }, bus_ready)
                &&& on_the_bus(mode, BusJobView::ServoMode { id: id as u8 }, bus_ready)
                &&& on_the_bus(ping, BusJobView::Ping { id: id as u8 }, bus_ready)
            } else {
                &&& answers(zero, 400, error_body("Servo ID must be 1-253"@))
                &&& answers(mode, 400, error_body("Servo ID must be 1-253"@))
                &&& answers(ping, 400, error_body("Servo ID must be 1-253"@))
            }
        }),
{
}

/// A change of ID needs the list of servos too.
pub proof fn law_id_change_plans(current: int, new: int, bus_ready: bool, list_ready: bool)
    ensures
        ({
            let plan = http_server::st_set_id_plan(current, new, bus_ready, list_ready);
            if !(1 <= current <= 253) || !(1 <= new <= 253) {
                answers(plan, 400, error_body("Servo IDs must be 1-253"@))
            } else if bus_ready && !list_ready {
                answers(plan, 503, error_body("ST3215 list not initialized"@))
            } else {
                on_the_bus(
                    plan,
                    BusJobView::SetId { current: current as u8, new: new as u8 },
                    bus_ready,
                )
            }
        }),
{
}

/// A scan goes from 1 to 20 where it names no range, and never beyond 1..=253.
pub proof fn law_scan_plans(parts: Seq<Seq<char>>, bus_ready: bool, list_ready: bool)
    ensures
        ({
            let plan = http_server::st_scan_plan(parts, bus_ready, list_ready);
            let from = http_server::lookup_unsigned(parts, "from"@, 1);
            let to = http_server::lookup_unsigned(parts, "to"@, 20);
            if from < 1 || to < from || 253 < to {
                answers(
                    plan,
                    400,
                    r#"{"error":"Scan range must satisfy 1 <= from <= to <= 253"}"#@,
                )
            } else if !bus_ready {
                answers(plan, 503, r#"{"error":"ST3215 bus not initialized"}"#@)
            } else if !list_ready {
                answers(plan, 503, r#"{"error":"ST3215 list not initialized"}"#@)
            } else {
                plan == (PlanView::Scan { from: from as u8, to: to as u8 })
            }
        }),
{
}

/// A number that a query names is taken, another one in its absence.
pub proof fn law_named_numbers(
    key: Seq<char>,
    value: Seq<char>,
    n: int,
    rest: Seq<Seq<char>>,
    parts: Seq<Seq<char>>,
    default: int,
)
    requires
        http_laws::is_key(key),
    ensures
        http_server::unsigned_numeral(value) == Some(n) ==> http_server::lookup_unsigned(
            seq![key + (seq!['='] + value)] + rest,
            key,
            default,
        ) == n,
        http_server::unsigned_numeral(value) is None ==> http_server::lookup_unsigned(
            seq![key + (seq!['='] + value)] + rest,
            key,
            default,
        ) == default,
        http_server::lookup(parts, key) is None ==> http_server::lookup_unsigned(parts, key, default)
            == default,
{
    law_lookup(key, value, Seq::empty(), rest, key);
}

/// The states are read once there are a bus and a list.
pub proof fn law_state_plans(bus_ready: bool, list_ready: bool)
    ensures
        ({
            let plan = http_server::st_state_plan(bus_ready, list_ready);
            &&& !bus_ready ==> answers(plan, 503, error_body("ST3215 bus not initialized"@))
            &&& bus_ready && !list_ready ==> answers(
                plan,
                503,
                error_body("ST3215 list not initialized"@),
            )
            &&& bus_ready && list_ready ==> plan is ReadStates
        }),
{
}

/// A part names a target where both of its sides are numbers; the options are
/// no targets.
pub proof fn law_query_targets(
    key: Seq<char>,
    value: Seq<char>,
    id: int,
    pos: int,
    bare: Seq<char>,
)
    requires
        http_laws::is_key(key),
        forall|i: int| 0 <= i < bare.len() ==> bare[i] != '=',
    ensures
        http_server::unsigned_numeral(key) == Some(id) && http_server::unsigned_numeral(value) == Some(
            pos,
        ) ==> http_server::query_target(key + (seq!['='] + value)) == Some((id, pos))
            && http_server::wild_target(key + (seq!['='] + value)) == (id < 1 || 253 < id || pos < 0
            || 4095 < pos),
        http_server::unsigned_numeral(key) is None || http_server::unsigned_numeral(value) is None
            ==> http_server::query_target(key + (seq!['='] + value)) is None,
        http_server::query_target("speed"@ + (seq!['='] + value)) is None,
        http_server::query_target("acc"@ + (seq!['='] + value)) is None,
        http_server::query_target(bare) is None,
{
    reveal_strlit("speed");
    reveal_strlit("acc");
    text::lemma_pieces_cons(key, value, '=');
    text::lemma_pieces_cons("speed"@, value, '=');
    text::lemma_pieces_cons("acc"@, value, '=');
    text::lemma_pieces_cons(bare, value, '=');
    assert("speed"@[0] == 's' && "acc"@[0] == 'a');
    if http_server::unsigned_numeral(key) is Some {
        assert(!text::is_digit('s') && !text::is_digit('a'));
        assert(key.len() > 0);
        assert(text::is_digit(key[0]) || key[0] == '-' || key[0] == '+');
    }
}

/// The targets of a multi-servo move stand in the order of the query, at most
/// sixteen of them, all with one speed and acceleration.
pub proof fn law_query_moves(
    parts: Seq<Seq<char>>,
    id: u8,
    pos: u16,
    other: Seq<char>,
    speed: u16,
    acc: u8,
)
    requires
        1 <= id <= 253,
        pos <= 4095,
        http_server::query_target(other) is None,
    ensures
        ({
            let before = http_server::query_moves(parts, speed, acc);
            let part = http_laws::part(text::dec_int(id as int), pos as int);
            &&& before.len() < 16 ==> http_server::query_moves(parts.push(part), speed, acc)
                == before.push((id, pos, speed, acc))
            &&& before.len() >= 16 ==> http_server::query_moves(parts.push(part), speed, acc)
                == before
            &&& http_server::query_moves(parts.push(other), speed, acc) == before
            &&& http_server::query_moves(Seq::empty(), speed, acc) == Seq::<Move>::empty()
        }),
{
    http_laws::lemma_target_part(id, pos);
    assert(parts.push(http_laws::part(text::dec_int(id as int), pos as int)).drop_last() =~= parts);
    assert(parts.push(other).drop_last() =~= parts);
}

/// A multi-servo move takes the speed and the acceleration that the query names;
/// one bad target has all of it turned down.
pub proof fn law_move_all_plans(parts: Seq<Seq<char>>, bus_ready: bool)
    ensures
        ({
            let plan = http_server::st_all_plan(parts, bus_ready);
            let speed = http_server::query_speed(parts);
            let acc = http_server::query_acc(parts);
            let moves = http_server::query_moves(parts, speed as u16, acc);
            let wild = exists|i: int|
                0 <= i < parts.len() && http_server::wild_target(#[trigger] parts[i]);
            if !(0 <= speed <= 4095) {
                answers(plan, 400, error_body("Speed must be between 0 and 4095"@))
            } else if wild {
                answers(plan, 400, error_body("Servo ID must be 1-253 and position 0-4095"@))
            } else if moves.len() == 0 {
                answers(
                    plan,
                    400,
                    error_body("Provide at least one servo position, e.g. /st/all?1=2048"@),
                )
            } else {
                on_the_bus(plan, BusJobView::MoveAll { moves, speed: speed as u16, acc }, bus_ready)
            }
        }),
{
}

// -- Bodies ------------------------------------------------------------------

/// The battery's voltage is written in volts with two decimals, rounded down,
/// and in millivolts.
pub proof fn law_battery_body(b: BatteryReading, volts: int, hundredths: int, rest: int)
    requires
        b.mv == 1000 * volts + 10 * hundredths + rest,
        0 <= volts,
        0 <= hundredths < 100,
        0 <= rest < 10,
    ensures
        http_server::battery_body(b) == r#"{"voltage":""#@ + text::dec_int(volts) + "."@
            + text::dec2(hundredths as nat) + r#"","voltage_mv":"#@ + text::dec_int(b.mv as int)
            + r#","percentage":"#@ + text::dec_int(b.pct as int) + "}"@,
{
}

/// The list of servos is an array of their IDs.
pub proof fn law_list_body(ids: Seq<u8>)
    ensures
        http_server::list_body(ids) == r#"{"ids":["#@ + text::joined(ids, ","@) + "]}"@,
{
}

/// The state of a servo names every value; a servo that did not answer has an
/// error instead.
pub proof fn law_state_entry(id: u8, st: ServoState, e: St3215Error)
    ensures
        http_server::state_entry(id, Ok(st)) == r#"{"id":"#@ + text::dec_int(id as int)
            + r#","pos":"#@ + text::dec_int(st.pos as int) + r#","speed":"#@ + text::dec_int(
            st.speed as int,
        ) + r#","load":"#@ + text::dec_int(st.load as int) + r#","voltage":"#@ + text::dec_int(
            st.voltage as int,
        ) + r#","temp":"#@ + text::dec_int(st.temp as int) + "}"@,
        http_server::state_entry(id, Err(e)) == r#"{"id":"#@ + text::dec_int(id as int)
            + r#","error":""#@ + st3215::error_name(e) + r#""}"#@,
{
}

/// Commas set the states apart, in the order in which they were read.
pub proof fn law_state_entries(
    reads: Seq<(u8, Result<ServoState, St3215Error>)>,
    id: u8,
    read: Result<ServoState, St3215Error>,
)
    ensures
        http_server::state_entries(Seq::empty()).len() == 0,
        http_server::state_entries(seq![(id, read)]) == http_server::state_entry(id, read),
        reads.len() > 0 ==> http_server::state_entries(reads.push((id, read)))
            == http_server::state_entries(reads) + ","@ + http_server::state_entry(id, read),
{
    assert(reads.push((id, read)).drop_last() =~= reads);
}

/// The answer to a job that went well names the servo and every value.
pub proof fn law_job_bodies(
    id: u8,
    other: u8,
    pos: u16,
    speed: u16,
    acc: u8,
    on: bool,
    w: i16,
    moves: Seq<Move>,
)
    ensures
        ({
            let front = r#"{"ok":true,"id":"#@ + text::dec_int(id as int);
            &&& http_server::job_body(BusJobView::Move { id, pos, speed, acc }) == front
                + r#","pos":"#@ + text::dec_int(pos as int) + r#","speed":"#@ + text::dec_int(
                speed as int,
            ) + r#","acc":"#@ + text::dec_int(acc as int) + "}"@
            &&& http_server::job_body(BusJobView::MoveAll { moves, speed, acc })
                == r#"{"ok":true,"count":"#@ + text::dec_int(moves.len() as int) + "}"@
            &&& http_server::job_body(BusJobView::Torque { id, enable: on }) == front
                + r#","torque":"#@ + (if on { "true"@ } else { "false"@ }) + "}"@
            &&& http_server::job_body(BusJobView::SetId { current: id, new: other })
                == r#"{"ok":true,"current":"#@ + text::dec_int(id as int) + r#","new":"#@
                + text::dec_int(other as int) + "}"@
            &&& http_server::job_body(BusJobView::Ping { id }) == front + "}"@
            &&& http_server::job_body(BusJobView::Zero { id }) == front + r#","zero":true}"#@
            &&& http_server::job_body(BusJobView::Wheel { id, wheel_speed: w, acc }) == front
                + r#","wheel_speed":"#@ + text::dec_int(w as int) + r#","acc":"#@ + text::dec_int(
                acc as int,
            ) + "}"@
            &&& http_server::job_body(BusJobView::ServoMode { id }) == front
                + r#","mode":"servo"}"#@
        }),
{
}

/// The answer to a job that failed names the servo, where there is only one, and
/// the error.
pub proof fn law_job_failure_bodies(job: BusJobView, e: St3215Error)
    ensures
        ({
            let back = st3215::error_name(e) + r#""}"#@;
            let body = http_server::job_failure_body(job, e);
            match job {
                BusJobView::Move { id, .. } => body == failure_front(id) + back,
                BusJobView::MoveAll { .. } => body == r#"{"ok":false,"error":""#@ + back,
                BusJobView::Torque { id, .. } => body == failure_front(id) + back,
                BusJobView::SetId { current, .. } => body == failure_front(current) + back,
                BusJobView::Ping { id } => body == failure_front(id) + back,
                BusJobView::Zero { id } => body == failure_front(id) + back,
                BusJobView::Wheel { id, .. } => body == failure_front(id) + back,
                BusJobView::ServoMode { id } => body == failure_front(id) + back,
            }
        }),
{
    let back = st3215::error_name(e) + r#""}"#@;
    match http_server::job_servo(job) {
        Some(id) => {
            assert(http_server::job_failure_body(job, e) =~= failure_front(id) + back);
        },
        None => {
            assert(http_server::job_failure_body(job, e) =~= r#"{"ok":false,"error":""#@ + back);
        },
    }
}

/// The front of an answer that names servo `id` and an error.
pub open spec fn failure_front(id: u8) -> Seq<char> {
    r#"{"ok":false,"id":"#@ + text::dec_int(id as int) + r#","error":""#@
}

/// Responses have the numbers that HTTP gives them.
pub proof fn law_status_numbers(s: StatusCode)
    ensures
        s.number() == match s {
            StatusCode::Success => 200u16,
            StatusCode::BadRequest => 400u16,
            StatusCode::BadGateway => 502u16,
            StatusCode::ServiceUnavailable => 503u16,
        },
{
}

/// Every response allows requests from any origin.
pub proof fn law_responses(status: StatusCode, body: Seq<char>)
    ensures
        http_server::json(status, body) == (JsonView {
            status,
            header: ("Access-Control-Allow-Origin"@, "*"@),
            body,
        }),
        http_server::json_failure(status, body) == (JsonView {
            status,
            header: ("Access-Control-Allow-Origin"@, "*"@),
            body: error_body(body),
        }),
{
}

// -- Models ------------------------------------------------------------------

/// The model of a route keeps what it holds.
pub proof fn law_route_models(id: i32, value: i32, motor: String)
    ensures
        (Route::Motor { motor })@ == (RouteView::Motor { motor: motor@ }),
        (Route::MotorPower { motor, power: value })@ == (RouteView::MotorPower {
            motor: motor@,
            power: value as int,
        }),
        (Route::ServoAngle { angle: value })@ == (RouteView::ServoAngle { angle: value as int }),
        (Route::StMove { id, pos: value })@ == (RouteView::StMove {
            id: id as int,
            pos: value as int,
        }),
        (Route::StTorque { id, enable: value })@ == (RouteView::StTorque {
            id: id as int,
            enable: value as int,
        }),
        (Route::StZero { id })@ == (RouteView::StZero { id: id as int }),
        (Route::StWheel { id, wheel_speed: value })@ == (RouteView::StWheel {
            id: id as int,
            wheel_speed: value as int,
        }),
        (Route::StServoMode { id })@ == (RouteView::StServoMode { id: id as int }),
        (Route::StPing { id })@ == (RouteView::StPing { id: id as int }),
        (Route::StSetId { current: id, new: value })@ == (RouteView::StSetId {
            current: id as int,
            new: value as int,
        }),
{
}

/// The model of a plan keeps what it holds.
pub proof fn law_plan_models(
    cmd: Command,
    job: BusJob,
    mode: RadioMode,
    response: JsonResponse,
    from: u8,
    to: u8,
)
    ensures
        Plan::Respond(response)@ == PlanView::Respond(response@),
        Plan::Send(cmd, response)@ == PlanView::Send(cmd@, response@),
        Plan::Radio(mode, response)@ == PlanView::Radio(mode, response@),
        (Plan::Scan { from, to })@ == (PlanView::Scan { from, to }),
        Plan::Bus(job)@ == PlanView::Bus(job@),
        response@.status == response.status,
        response@.body == response.body@,
        response@.header == (response.header.0@, response.header.1@),
{
}

} // verus!
