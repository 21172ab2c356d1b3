//! What the REST API makes of the requests that its reference describes, for
//! every number in them.
use crate::bounded::{Move, MAX_SERVOS};
use crate::commands;
use crate::commands::{CommandView, MotorId};
use crate::control::BusJobView;
use crate::http_server;
use crate::http_server::{PlanView, RouteView, StatusCode, ST_DEFAULT_ACC, ST_DEFAULT_SPEED, ST_MAX};
use crate::text;
use vstd::prelude::*;
use vstd::string::*;

verus! {

/// A number in a path or query reads back.
proof fn lemma_value(n: int)
    requires
        -65535 <= n <= 65535,
    ensures
        http_server::signed_numeral(text::dec_int(n)) == Some(n),
        n >= 0 ==> http_server::unsigned_numeral(text::dec_int(n)) == Some(n),
        forall|i: int|
            0 <= i < text::dec_int(n).len() ==> #[trigger] text::dec_int(n)[i] != '=' && text::dec_int(
                n,
            )[i] != '&',
{
    let d = text::dec_int(n);
    text::law_written_number_reads_back(n);
    if n >= 0 {
        text::lemma_dec_digits(n as nat);
        assert(text::is_digit(d[0]));
        assert forall|i: int| 0 <= i < d.len() implies #[trigger] d[i] != '=' && d[i] != '&' by {
            assert(text::is_digit(d[i]));
        }
    } else {
        text::lemma_dec_digits((-n) as nat);
        assert forall|i: int| 0 <= i < d.len() implies #[trigger] d[i] != '=' && d[i] != '&' by {
            assert(i > 0 ==> text::is_digit(text::dec((-n) as nat)[i - 1]));
        }
    }
}

/// Whether a request sends `cmd` and is answered by 200.
pub open spec fn sends(plan: PlanView, cmd: CommandView) -> bool {
    plan matches PlanView::Send(c, response) && c == cmd && response.status
        == StatusCode::Success
}

/// `/motor/<id>/<power>` sets one motor, for every power within -100..=100.
pub proof fn law_motor_path(p: int, parts: Seq<Seq<char>>, bus_ready: bool, list_ready: bool)
    requires
        -100 <= p <= 100,
    ensures
        sends(
            http_server::planned(
                http_server::routed(seq!["motor"@, "a"@, text::dec_int(p)]),
                parts,
                bus_ready,
                list_ready,
            ),
            CommandView::Motor(MotorId::A, p as i8),
        ),
        sends(
            http_server::planned(
                http_server::routed(seq!["motor"@, "b"@, text::dec_int(p)]),
                parts,
                bus_ready,
                list_ready,
            ),
            CommandView::Motor(MotorId::B, p as i8),
        ),
{
    lemma_value(p);
    reveal_strlit("a");
    reveal_strlit("b");
    assert("a"@[0] == 'a' && "b"@[0] == 'b');
}

/// The part `<key>=<value>` of a query.
pub open spec fn part(key: Seq<char>, value: int) -> Seq<char> {
    key + (seq!['='] + text::dec_int(value))
}

/// Whether `key` can be the key of a part.
pub open spec fn is_key(key: Seq<char>) -> bool {
    forall|i: int| 0 <= i < key.len() ==> key[i] != '=' && key[i] != '&'
}

pub(crate) proof fn lemma_part(key: Seq<char>, value: int)
    requires
        is_key(key),
        -65535 <= value <= 65535,
    ensures
        text::cut(part(key, value), '=') == Some((key, text::dec_int(value))),
        forall|i: int| 0 <= i < part(key, value).len() ==> part(key, value)[i] != '&',
{
    lemma_value(value);
    text::lemma_pieces_cons(key, text::dec_int(value), '=');
}

/// The query `<k>=<v>&<l>=<w>`.
pub open spec fn query2(k: Seq<char>, v: int, l: Seq<char>, w: int) -> Seq<char> {
    part(k, v) + (seq!['&'] + part(l, w))
}

proof fn lemma_query2(k: Seq<char>, v: int, l: Seq<char>, w: int)
    requires
        is_key(k),
        is_key(l),
        -65535 <= v <= 65535,
        -65535 <= w <= 65535,
    ensures
        text::pieces(query2(k, v, l, w), '&') == seq![part(k, v), part(l, w)],
{
    lemma_part(k, v);
    lemma_part(l, w);
    text::lemma_pieces_cons(part(k, v), part(l, w), '&');
    text::lemma_pieces_cons(part(l, w), Seq::empty(), '&');
    assert(text::pieces(query2(k, v, l, w), '&') =~= seq![part(k, v), part(l, w)]);
}

/// `/motors?a=<power>&b=<power>` sets both motors at once.
pub proof fn law_motors_query(p: int, q: int)
    requires
        -100 <= p <= 100,
        -100 <= q <= 100,
    ensures
        sends(
            http_server::motors_plan(text::pieces(query2("a"@, p, "b"@, q), '&')),
            CommandView::MotorsAll(seq![p as i8, q as i8]),
        ),
{
    reveal_strlit("a");
    reveal_strlit("b");
    assert("a"@[0] == 'a' && "b"@[0] == 'b');
    lemma_query2("a"@, p, "b"@, q);
    lemma_part("a"@, p);
    lemma_part("b"@, q);
    text::lemma_number(p, -100, 100);
    text::lemma_number(q, -100, 100);
    let parts = seq![part("a"@, p), part("b"@, q)];
    let one = parts.drop_last();
    assert(one =~= seq![part("a"@, p)]);
    assert(one.drop_last() =~= Seq::empty());
    assert(http_server::batch(one.drop_last()) == (None::<i8>, None::<i8>));
    assert(http_server::batch(one) == (Some(p as i8), None::<i8>));
    assert(http_server::batch(parts) == (Some(p as i8), Some(q as i8)));
    assert forall|i: int| 0 <= i < parts.len() implies !http_server::excessive_power(
        #[trigger] parts[i],
    ) by {
        assert(parts[i] == part("a"@, p) || parts[i] == part("b"@, q));
    }
}

/// `/motors?a=<power>` sets motor A and stops the other.
pub proof fn law_motors_query_of_one(p: int)
    requires
        -100 <= p <= 100,
    ensures
        sends(
            http_server::motors_plan(text::pieces(part("a"@, p), '&')),
            CommandView::MotorsAll(seq![p as i8, 0i8]),
        ),
{
    reveal_strlit("a");
    reveal_strlit("b");
    assert("a"@[0] == 'a' && "b"@[0] == 'b');
    lemma_part("a"@, p);
    text::lemma_pieces_cons(part("a"@, p), Seq::empty(), '&');
    text::lemma_number(p, -100, 100);
    let parts = seq![part("a"@, p)];
    assert(parts.drop_last() =~= Seq::empty());
    assert(http_server::batch(parts.drop_last()) == (None::<i8>, None::<i8>));
    assert(http_server::batch(parts) == (Some(p as i8), None::<i8>));
    assert forall|i: int| 0 <= i < parts.len() implies !http_server::excessive_power(
        #[trigger] parts[i],
    ) by {
        assert(parts[i] == part("a"@, p));
    }
}

/// The segments `st`, `<id>`, `<op>`, `<value>`.
pub open spec fn st_path(id: int, op: Seq<char>, value: int) -> Seq<Seq<char>> {
    seq!["st"@, text::dec_int(id), op, text::dec_int(value)]
}

proof fn lemma_lookup2(k: Seq<char>, v: int, l: Seq<char>, w: int, name: Seq<char>)
    requires
        is_key(k),
        is_key(l),
        -65535 <= v <= 65535,
        -65535 <= w <= 65535,
    ensures
        http_server::lookup(seq![part(k, v), part(l, w)], name) == (if name == k {
            Some(text::dec_int(v))
        } else if name == l {
            Some(text::dec_int(w))
        } else {
            None
        }),
{
    lemma_part(k, v);
    lemma_part(l, w);
    let parts = seq![part(k, v), part(l, w)];
    assert(parts.skip(1) =~= seq![part(l, w)]);
    assert(parts.skip(1).skip(1) =~= Seq::empty());
    assert(http_server::lookup(parts.skip(1).skip(1), name) is None);
    assert(parts.skip(1)[0] == part(l, w));
    assert(http_server::lookup(parts.skip(1), name) == (if name == l {
        Some(text::dec_int(w))
    } else {
        None
    }));
    assert(parts[0] == part(k, v));
}

/// `/st/<id>/pos/<pos>?speed=<s>&acc=<a>` moves a servo, for every ID, position
/// and speed in range, once the bus is there.
pub proof fn law_move_path_with_options(id: int, pos: int, speed: int, acc: u8, list_ready: bool)
    requires
        commands::valid_servo_id(id),
        0 <= pos <= ST_MAX,
        0 <= speed <= ST_MAX,
    ensures
        http_server::planned(
            http_server::routed(st_path(id, "pos"@, pos)),
            text::pieces(query2("speed"@, speed, "acc"@, acc as int), '&'),
            true,
            list_ready,
        ) == PlanView::Bus(
            BusJobView::Move { id: id as u8, pos: pos as u16, speed: speed as u16, acc },
        ),
{
    reveal_strlit("speed");
    reveal_strlit("acc");
    assert("speed"@.len() == 5 && "acc"@.len() == 3);
    lemma_value(id);
    lemma_value(pos);
    lemma_value(speed);
    lemma_query2("speed"@, speed, "acc"@, acc as int);
    lemma_lookup2("speed"@, speed, "acc"@, acc as int, "speed"@);
    lemma_lookup2("speed"@, speed, "acc"@, acc as int, "acc"@);
    text::lemma_number(acc as int, 0, 255);
    let s = st_path(id, "pos"@, pos);
    assert(s[0] == "st"@ && s[1] == text::dec_int(id) && s[2] == "pos"@ && s[3] == text::dec_int(
        pos,
    ));
    assert(http_server::routed(s) == (RouteView::StMove { id, pos }));
}

/// `/st/<id>/pos/<pos>` moves a servo with the default speed and acceleration.
pub proof fn law_move_path(id: int, pos: int, list_ready: bool)
    requires
        commands::valid_servo_id(id),
        0 <= pos <= ST_MAX,
    ensures
        http_server::planned(
            http_server::routed(st_path(id, "pos"@, pos)),
            Seq::empty(),
            true,
            list_ready,
        ) == PlanView::Bus(
            BusJobView::Move {
                id: id as u8,
                pos: pos as u16,
                speed: ST_DEFAULT_SPEED,
                acc: ST_DEFAULT_ACC,
            },
        ),
{
    lemma_value(id);
    lemma_value(pos);
    let s = st_path(id, "pos"@, pos);
    assert(s[0] == "st"@ && s[1] == text::dec_int(id) && s[2] == "pos"@ && s[3] == text::dec_int(
        pos,
    ));
    assert(http_server::routed(s) == (RouteView::StMove { id, pos }));
}

/// `/st/<id>/wheel/<speed>` rotates a servo, `/st/<id>/torque/<0|1>` switches
/// its torque, `/st/<id>/id/<new>` renames it.
pub proof fn law_servo_paths(id: int, wheel_speed: int, enable: bool, new: int)
    requires
        commands::valid_servo_id(id),
        commands::valid_servo_id(new),
        -ST_MAX <= wheel_speed <= ST_MAX,
    ensures
        http_server::planned(
            http_server::routed(st_path(id, "wheel"@, wheel_speed)),
            Seq::empty(),
            true,
            true,
        ) == PlanView::Bus(
            BusJobView::Wheel {
                id: id as u8,
                wheel_speed: wheel_speed as i16,
                acc: ST_DEFAULT_ACC,
            },
        ),
        http_server::planned(
            http_server::routed(st_path(id, "torque"@, if enable { 1 } else { 0 })),
            Seq::empty(),
            true,
            true,
        ) == PlanView::Bus(BusJobView::Torque { id: id as u8, enable }),
        http_server::planned(
            http_server::routed(st_path(id, "id"@, new)),
            Seq::empty(),
            true,
            true,
        ) == PlanView::Bus(BusJobView::SetId { current: id as u8, new: new as u8 }),
{
    lemma_value(id);
    lemma_value(wheel_speed);
    lemma_value(new);
    lemma_value(1);
    lemma_value(0);
    reveal_strlit("wheel");
    reveal_strlit("torque");
    reveal_strlit("id");
    reveal_strlit("pos");
    reveal_strlit("mode");
    assert("wheel"@.len() == 5 && "torque"@.len() == 6 && "id"@.len() == 2 && "pos"@.len() == 3
        && "mode"@.len() == 4);
    let value: int = if enable { 1 } else { 0 };
    assert(http_server::routed(st_path(id, "wheel"@, wheel_speed)) == (RouteView::StWheel {
        id,
        wheel_speed,
    })) by {
        let s = st_path(id, "wheel"@, wheel_speed);
        assert(s[0] == "st"@ && s[1] == text::dec_int(id) && s[2] == "wheel"@ && s[3]
            == text::dec_int(wheel_speed));
    }
    assert(http_server::routed(st_path(id, "torque"@, value)) == (RouteView::StTorque {
        id,
        enable: value,
    })) by {
        let s = st_path(id, "torque"@, value);
        assert(s[0] == "st"@ && s[1] == text::dec_int(id) && s[2] == "torque"@ && s[3]
            == text::dec_int(value));
    }
    assert(http_server::routed(st_path(id, "id"@, new)) == (RouteView::StSetId {
        current: id,
        new,
    })) by {
        let s = st_path(id, "id"@, new);
        assert(s[0] == "st"@ && s[1] == text::dec_int(id) && s[2] == "id"@ && s[3]
            == text::dec_int(new));
    }
}

/// `/servo/<angle>` moves servo 1, for every angle within 0..=180.
pub proof fn law_angle_path(angle: int, parts: Seq<Seq<char>>, bus_ready: bool, list_ready: bool)
    requires
        0 <= angle <= 180,
    ensures
        sends(
            http_server::planned(
                http_server::routed(seq!["servo"@, text::dec_int(angle)]),
                parts,
                bus_ready,
                list_ready,
            ),
            CommandView::Move {
                id: 1,
                pos: http_server::angle_position(angle) as u16,
                speed: 1000,
                acc: 50,
            },
        ),
{
    lemma_value(angle);
    reveal_strlit("servo");
    reveal_strlit("radio");
    reveal_strlit("motor");
    let s = seq!["servo"@, text::dec_int(angle)];
    assert("servo"@[0] == 's' && "radio"@[0] == 'r' && "motor"@[0] == 'm');
    assert(s[0] == "servo"@ && s[1] == text::dec_int(angle));
    assert(http_server::routed(s) == (RouteView::ServoAngle { angle }));
}

/// The parts `<id>=<pos>` of a query.
pub open spec fn target_parts(moves: Seq<(u8, u16)>) -> Seq<Seq<char>> {
    moves.map_values(|m: (u8, u16)| part(text::dec_int(m.0 as int), m.1 as int))
}

pub(crate) proof fn lemma_target_part(id: u8, pos: u16)
    requires
        commands::valid_servo_id(id as int),
        pos <= ST_MAX,
    ensures
        http_server::query_target(part(text::dec_int(id as int), pos as int)) == Some(
            (id as int, pos as int),
        ),
        text::cut(part(text::dec_int(id as int), pos as int), '=') == Some(
            (text::dec_int(id as int), text::dec_int(pos as int)),
        ),
        text::dec_int(id as int) != "speed"@,
        text::dec_int(id as int) != "acc"@,
{
    let key = text::dec_int(id as int);
    lemma_value(id as int);
    lemma_value(pos as int);
    lemma_part(key, pos as int);
    text::lemma_dec_digits(id as nat);
    assert(text::is_digit(key[0]));
    reveal_strlit("speed");
    reveal_strlit("acc");
    assert("speed"@[0] == 's' && "acc"@[0] == 'a');
}

proof fn lemma_no_option(moves: Seq<(u8, u16)>, name: Seq<char>)
    requires
        name == "speed"@ || name == "acc"@,
        forall|i: int|
            0 <= i < moves.len() ==> commands::valid_servo_id((#[trigger] moves[i]).0 as int)
                && moves[i].1 <= ST_MAX,
    ensures
        http_server::lookup(target_parts(moves), name) is None,
    decreases moves.len(),
{
    if moves.len() > 0 {
        let rest = moves.skip(1);
        assert forall|i: int| 0 <= i < rest.len() implies commands::valid_servo_id(
            (#[trigger] rest[i]).0 as int,
        ) && rest[i].1 <= ST_MAX by {
            assert(rest[i] == moves[i + 1]);
        }
        lemma_no_option(rest, name);
        lemma_target_part(moves[0].0, moves[0].1);
        assert(target_parts(moves).skip(1) =~= target_parts(rest));
        assert(target_parts(moves)[0] == part(text::dec_int(moves[0].0 as int), moves[0].1 as int));
    }
}

proof fn lemma_moves(moves: Seq<(u8, u16)>, speed: u16, acc: u8)
    requires
        moves.len() <= MAX_SERVOS,
        forall|i: int|
            0 <= i < moves.len() ==> commands::valid_servo_id((#[trigger] moves[i]).0 as int)
                && moves[i].1 <= ST_MAX,
    ensures
        http_server::query_moves(target_parts(moves), speed, acc) == moves.map_values(
            |m: (u8, u16)| (m.0, m.1, speed, acc),
        ),
        forall|i: int|
            0 <= i < target_parts(moves).len() ==> !http_server::wild_target(
                #[trigger] target_parts(moves)[i],
            ),
    decreases moves.len(),
{
    let parts = target_parts(moves);
    let all = moves.map_values(|m: (u8, u16)| (m.0, m.1, speed, acc));
    if moves.len() > 0 {
        let front = moves.drop_last();
        assert forall|i: int| 0 <= i < front.len() implies commands::valid_servo_id(
            (#[trigger] front[i]).0 as int,
        ) && front[i].1 <= ST_MAX by {
            assert(front[i] == moves[i]);
        }
        lemma_moves(front, speed, acc);
        let last = moves[moves.len() - 1];
        lemma_target_part(last.0, last.1);
        assert(parts.drop_last() =~= target_parts(front));
        assert(parts.last() == part(text::dec_int(last.0 as int), last.1 as int));
        let front_all = front.map_values(|m: (u8, u16)| (m.0, m.1, speed, acc));
        assert(all =~= front_all.push((last.0, last.1, speed, acc)));
        assert forall|i: int| 0 <= i < parts.len() implies !http_server::wild_target(
            #[trigger] parts[i],
        ) by {
            if i < front.len() {
                assert(parts[i] == target_parts(front)[i]);
            } else {
                assert(parts[i] == parts.last());
            }
        }
    } else {
        assert(all =~= Seq::<Move>::empty());
    }
}

/// `/st/all?<id>=<pos>&...` moves exactly the servos that it names, for one to
/// sixteen of them, once the bus is there.
pub proof fn law_move_all_query(moves: Seq<(u8, u16)>)
    requires
        1 <= moves.len() <= MAX_SERVOS,
        forall|i: int|
            0 <= i < moves.len() ==> commands::valid_servo_id((#[trigger] moves[i]).0 as int)
                && moves[i].1 <= ST_MAX,
    ensures
        http_server::st_all_plan(target_parts(moves), true) == PlanView::Bus(
            BusJobView::MoveAll {
                moves: moves.map_values(
                    |m: (u8, u16)| (m.0, m.1, ST_DEFAULT_SPEED, ST_DEFAULT_ACC),
                ),
                speed: ST_DEFAULT_SPEED,
                acc: ST_DEFAULT_ACC,
            },
        ),
{
    lemma_no_option(moves, "speed"@);
    lemma_no_option(moves, "acc"@);
    lemma_moves(moves, ST_DEFAULT_SPEED, ST_DEFAULT_ACC);
}

} // verus!
