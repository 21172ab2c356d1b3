//! What the console makes of the lines that its grammar describes, for every
//! number in them.
use crate::commands::{CommandView, MotorId};
use crate::serial_cmd;
use crate::serial_cmd::{Intent, ST_DEFAULT_ACC, ST_DEFAULT_SPEED, ST_MAX_POS, ST_MAX_WHEEL_SPEED};
use crate::bounded::{MAX_SERVOS, MAX_WORDS};
use crate::text;
use crate::wifi_config;
use vstd::prelude::*;
use vstd::string::*;
use vstd::utf8::*;

verus! {

/// A line that begins like a motor command is none of the radio commands.
proof fn lemma_motor_line(front: Seq<char>, p: int)
    requires
        -100 <= p <= 100,
        front.len() >= 2,
        front[0] == 'm',
    ensures
        ({
            let line = front + text::dec_int(p);
            &&& text::trimmed(line) == line
            &&& line != "wi"@
            &&& line != "ble"@
            &&& text::after_prefix(line, "wifi "@) is None
        }),
{
    let line = front + text::dec_int(p);
    text::lemma_number(p, -100, 100);
    let d = text::dec_int(p);
    assert(line.last() == d[d.len() - 1]);
    assert(!text::is_space(line.last()));
    text::lemma_not_trimmed(line);
    reveal_strlit("wi");
    reveal_strlit("ble");
    reveal_strlit("wifi ");
    assert(line[0] == 'm');
    assert("wi"@[0] == 'w' && "ble"@[0] == 'b' && "wifi "@[0] == 'w');
}

pub(crate) proof fn lemma_strip(front: Seq<char>, rest: Seq<char>)
    ensures
        text::after_prefix(front + rest, front) == Some(rest),
{
    assert(front.is_prefix_of(front + rest));
    assert((front + rest).skip(front.len() as int) =~= rest);
}

pub(crate) proof fn lemma_no_prefix(line: Seq<char>, prefix: Seq<char>, i: int)
    requires
        0 <= i < prefix.len(),
        i < line.len() ==> line[i] != prefix[i],
    ensures
        text::after_prefix(line, prefix) is None,
{
}

/// What a line means whose motor command is `motor` and `p`.
proof fn lemma_motor_reply(front: Seq<char>, p: int, motor: char)
    requires
        -100 <= p <= 100,
        front.len() >= 2,
        front[0] == 'm',
        serial_cmd::motor_token(front + text::dec_int(p)) == Some((motor, p)),
    ensures
        serial_cmd::line_reply(front + text::dec_int(p)) == serial_cmd::motor_reply(motor, p),
{
    lemma_motor_line(front, p);
}

proof fn lemma_short_form(p: int)
    requires
        -100 <= p <= 100,
    ensures
        serial_cmd::motor_token("m "@ + text::dec_int(p)) == Some(('*', p)),
        serial_cmd::motor_token("ma "@ + text::dec_int(p)) == Some(('a', p)),
        serial_cmd::motor_token("mb "@ + text::dec_int(p)) == Some(('b', p)),
{
    let d = text::dec_int(p);
    text::lemma_number(p, -100, 100);
    reveal_strlit("m ");
    reveal_strlit("ma ");
    reveal_strlit("mb ");
    lemma_motor_line("m "@, p);
    lemma_strip("m "@, d);
    lemma_motor_line("ma "@, p);
    lemma_strip("ma "@, d);
    lemma_no_prefix("ma "@ + d, "m "@, 1);
    lemma_motor_line("mb "@, p);
    lemma_strip("mb "@, d);
    lemma_no_prefix("mb "@ + d, "m "@, 1);
    lemma_no_prefix("mb "@ + d, "ma "@, 1);
}

proof fn lemma_verbose_form(front: Seq<char>, inner: Seq<char>, p: int)
    requires
        -100 <= p <= 100,
        inner.len() == 2,
        inner[0] == 'a' || inner[0] == 'b',
        inner[1] == ' ',
        front == "motor "@ + inner,
    ensures
        serial_cmd::motor_token(front + text::dec_int(p)) == Some((inner[0], p)),
        front.len() >= 2,
        front[0] == 'm',
{
    let d = text::dec_int(p);
    let line = front + d;
    text::lemma_number(p, -100, 100);
    reveal_strlit("m ");
    reveal_strlit("ma ");
    reveal_strlit("mb ");
    reveal_strlit("motor ");
    reveal_strlit("a ");
    reveal_strlit("b ");
    lemma_motor_line(front, p);
    lemma_no_prefix(line, "m "@, 1);
    lemma_no_prefix(line, "ma "@, 1);
    lemma_no_prefix(line, "mb "@, 1);
    assert(line =~= "motor "@ + (inner + d));
    lemma_strip("motor "@, inner + d);
    assert((inner + d).last() == d[d.len() - 1]);
    assert(!text::is_space((inner + d)[0]));
    text::lemma_not_trimmed(inner + d);
    lemma_strip(inner, d);
    if inner[0] == 'a' {
        assert(inner =~= "a "@);
    } else {
        assert(inner =~= "b "@);
        lemma_no_prefix(inner + d, "a "@, 0);
    }
}

pub(crate) proof fn lemma_short_lines(p: int)
    requires
        -100 <= p <= 100,
    ensures
        serial_cmd::line_reply("ma "@ + text::dec_int(p)) == serial_cmd::motor_reply('a', p),
        serial_cmd::line_reply("mb "@ + text::dec_int(p)) == serial_cmd::motor_reply('b', p),
        serial_cmd::line_reply("m "@ + text::dec_int(p)) == serial_cmd::motor_reply('*', p),
{
    lemma_short_form(p);
    assert("ma "@.len() >= 2 && "ma "@[0] == 'm') by {
        reveal_strlit("ma ");
    }
    assert("mb "@.len() >= 2 && "mb "@[0] == 'm') by {
        reveal_strlit("mb ");
    }
    assert("m "@.len() >= 2 && "m "@[0] == 'm') by {
        reveal_strlit("m ");
    }
    lemma_motor_reply("ma "@, p, 'a');
    lemma_motor_reply("mb "@, p, 'b');
    lemma_motor_reply("m "@, p, '*');
}

proof fn lemma_verbose_lines(p: int)
    requires
        -100 <= p <= 100,
    ensures
        serial_cmd::line_reply("motor a "@ + text::dec_int(p)) == serial_cmd::motor_reply('a', p),
        serial_cmd::line_reply("motor b "@ + text::dec_int(p)) == serial_cmd::motor_reply('b', p),
{
    assert("motor a "@ == "motor "@ + seq!['a', ' ']) by {
        reveal_strlit("motor ");
        reveal_strlit("motor a ");
        assert("motor a "@ =~= "motor "@ + seq!['a', ' ']);
    }
    assert("motor b "@ == "motor "@ + seq!['b', ' ']) by {
        reveal_strlit("motor ");
        reveal_strlit("motor b ");
        assert("motor b "@ =~= "motor "@ + seq!['b', ' ']);
    }
    lemma_verbose_form("motor a "@, seq!['a', ' '], p);
    lemma_verbose_form("motor b "@, seq!['b', ' '], p);
    lemma_motor_reply("motor a "@, p, 'a');
    lemma_motor_reply("motor b "@, p, 'b');
}

/// `ma <power>` and `mb <power>` set one motor, `m <power>` sets all of them,
/// for every power within -100..=100; so do the verbose forms.
pub proof fn law_motor_lines(p: int)
    requires
        -100 <= p <= 100,
    ensures
        serial_cmd::line_reply("ma "@ + text::dec_int(p)).intent == Intent::Send(
            CommandView::Motor(MotorId::A, p as i8),
        ),
        serial_cmd::line_reply("mb "@ + text::dec_int(p)).intent == Intent::Send(
            CommandView::Motor(MotorId::B, p as i8),
        ),
        serial_cmd::line_reply("m "@ + text::dec_int(p)).intent == Intent::Send(
            CommandView::MotorsAll(seq![p as i8, p as i8]),
        ),
        serial_cmd::line_reply("motor a "@ + text::dec_int(p)).intent == Intent::Send(
            CommandView::Motor(MotorId::A, p as i8),
        ),
        serial_cmd::line_reply("motor b "@ + text::dec_int(p)).intent == Intent::Send(
            CommandView::Motor(MotorId::B, p as i8),
        ),
{
    lemma_short_lines(p);
    lemma_verbose_lines(p);
}

/// The line `st <id> <op>`.
pub open spec fn line2(id: u8, op: Seq<char>) -> Seq<char> {
    "st "@ + text::dec_int(id as int) + " "@ + op
}

/// The line `st <id> <op> <arg>`.
pub open spec fn line3(id: u8, op: Seq<char>, arg: Seq<char>) -> Seq<char> {
    line2(id, op) + " "@ + arg
}

/// A line that begins with `st ` is a servo command with the words behind it.
proof fn lemma_st_line(rest: Seq<char>)
    requires
        rest.len() > 0,
        !text::is_space(rest[0]),
        !text::is_space(rest.last()),
        text::words(rest).len() <= 32,
    ensures
        ({
            let line = "st "@ + rest;
            &&& text::trimmed(line) == line
            &&& serial_cmd::line_reply(line) == serial_cmd::st_reply(text::words(rest))
        }),
{
    let line = "st "@ + rest;
    reveal_strlit("st ");
    reveal_strlit("st");
    reveal_strlit("wi");
    reveal_strlit("ble");
    reveal_strlit("wifi ");
    reveal_strlit("m ");
    reveal_strlit("ma ");
    reveal_strlit("mb ");
    reveal_strlit("motor ");
    assert(line[0] == 's');
    assert(line.last() == rest.last());
    text::lemma_not_trimmed(line);
    assert("wi"@[0] == 'w' && "ble"@[0] == 'b');
    lemma_no_prefix(line, "wifi "@, 0);
    lemma_no_prefix(line, "m "@, 0);
    lemma_no_prefix(line, "ma "@, 0);
    lemma_no_prefix(line, "mb "@, 0);
    lemma_no_prefix(line, "motor "@, 0);
    assert(line =~= "st"@ + (seq![' '] + rest));
    lemma_strip("st"@, seq![' '] + rest);
    text::lemma_words_skip_blank(rest);
    assert(text::trim_start(rest) == rest);
    assert(text::trim_end(rest) == rest);
    assert(text::trimmed(seq![' '] + rest) == rest);
}

proof fn lemma_blank()
    ensures
        " "@ == seq![' '],
{
    reveal_strlit(" ");
    assert(" "@ =~= seq![' ']);
}

/// An ID is none of the words that name a command.
pub(crate) proof fn lemma_id_word(id: u8)
    ensures
        ({
            let d = text::dec_int(id as int);
            d != "list"@ && d != "scan"@ && d != "all"@
        }),
{
    text::lemma_number(id as int, 0, 255);
    reveal_strlit("list");
    reveal_strlit("scan");
    reveal_strlit("all");
    assert("list"@[0] == 'l' && "scan"@[0] == 's' && "all"@[0] == 'a');
}

pub(crate) proof fn lemma_line2(id: u8, op: Seq<char>)
    requires
        text::is_word(op),
    ensures
        serial_cmd::line_reply(line2(id, op)) == serial_cmd::servo_reply(
            id,
            seq![text::dec_int(id as int), op],
        ),
{
    let d = text::dec_int(id as int);
    text::lemma_number(id as int, 0, 255);
    lemma_id_word(id);
    lemma_blank();
    let rest = d + (seq![' '] + op);
    assert(line2(id, op) =~= "st "@ + rest);
    text::lemma_words_one(op);
    text::lemma_words_cons(d, op);
    assert(text::words(rest) =~= seq![d, op]);
    assert(!text::is_space(d[0]));
    assert(rest.last() == op[op.len() - 1]);
    lemma_st_line(rest);
}

pub(crate) proof fn lemma_line3(id: u8, op: Seq<char>, arg: Seq<char>)
    requires
        text::is_word(op),
        text::is_word(arg),
    ensures
        serial_cmd::line_reply(line3(id, op, arg)) == serial_cmd::servo_reply(
            id,
            seq![text::dec_int(id as int), op, arg],
        ),
{
    let d = text::dec_int(id as int);
    text::lemma_number(id as int, 0, 255);
    lemma_id_word(id);
    lemma_blank();
    let tail = op + (seq![' '] + arg);
    let rest = d + (seq![' '] + tail);
    assert(line3(id, op, arg) =~= "st "@ + rest);
    text::lemma_words_one(arg);
    text::lemma_words_cons(op, arg);
    text::lemma_words_cons(d, tail);
    assert(text::words(rest) =~= seq![d, op, arg]);
    assert(!text::is_space(d[0]));
    assert(rest.last() == arg[arg.len() - 1]);
    lemma_st_line(rest);
}

/// The words that name an operation on one servo are words, and no two of them
/// are the same.
pub(crate) proof fn lemma_op_words()
    ensures
        text::is_word("pos"@) && text::is_word("torque"@) && text::is_word("setid"@),
        text::is_word("zero"@) && text::is_word("wheel"@) && text::is_word("servo"@),
        text::is_word("ping"@),
        "torque"@ != "pos"@ && "torque"@ != "p"@,
        "setid"@ != "pos"@ && "setid"@ != "p"@ && "setid"@ != "torque"@ && "setid"@ != "t"@,
        "zero"@ != "pos"@ && "zero"@ != "p"@ && "zero"@ != "torque"@ && "zero"@ != "t"@ && "zero"@
            != "setid"@,
        "wheel"@ != "pos"@ && "wheel"@ != "p"@ && "wheel"@ != "torque"@ && "wheel"@ != "t"@
            && "wheel"@ != "setid"@ && "wheel"@ != "zero"@,
        "servo"@ != "pos"@ && "servo"@ != "p"@ && "servo"@ != "torque"@ && "servo"@ != "t"@
            && "servo"@ != "setid"@ && "servo"@ != "zero"@ && "servo"@ != "wheel"@,
        "ping"@ != "pos"@ && "ping"@ != "p"@ && "ping"@ != "torque"@ && "ping"@ != "t"@ && "ping"@
            != "setid"@ && "ping"@ != "zero"@ && "ping"@ != "wheel"@ && "ping"@ != "servo"@,
{
    reveal_strlit("pos");
    reveal_strlit("p");
    reveal_strlit("torque");
    reveal_strlit("t");
    reveal_strlit("setid");
    reveal_strlit("zero");
    reveal_strlit("wheel");
    reveal_strlit("servo");
    reveal_strlit("ping");
    assert("pos"@.len() == 3 && "p"@.len() == 1 && "torque"@.len() == 6 && "t"@.len() == 1);
    assert("setid"@.len() == 5 && "zero"@.len() == 4 && "wheel"@.len() == 5);
    assert("servo"@.len() == 5 && "ping"@.len() == 4);
    assert("setid"@[2] == 't' && "servo"@[2] == 'r');
    assert("zero"@[0] == 'z' && "ping"@[0] == 'p' && "wheel"@[0] == 'w');
    assert("setid"@[0] == 's' && "servo"@[0] == 's');
}

/// `st <id> pos <v>` moves a servo to `v`, for every position within
/// 0..=4095.
pub proof fn law_move_line(id: u8, pos: int)
    requires
        0 <= pos <= ST_MAX_POS,
    ensures
        serial_cmd::line_reply(line3(id, "pos"@, text::dec_int(pos))).intent == Intent::Send(
            CommandView::Move {
                id,
                pos: pos as u16,
                speed: ST_DEFAULT_SPEED,
                acc: ST_DEFAULT_ACC,
            },
        ),
{
    lemma_op_words();
    text::lemma_number(pos, 0, 65535);
    lemma_line3(id, "pos"@, text::dec_int(pos));
}

/// The words of a move with options.
proof fn lemma_option_words(d: Seq<char>, p: Seq<char>, s: Seq<char>, a: Seq<char>)
    requires
        text::is_word(d),
        text::is_word(p),
        text::is_word(s),
        text::is_word(a),
    ensures
        ({
            let rest = d + " "@ + "pos"@ + " "@ + p + " speed "@ + s + " acc "@ + a;
            &&& text::words(rest) == seq![d, "pos"@, p, "speed"@, s, "acc"@, a]
            &&& rest.len() > 0
            &&& rest[0] == d[0]
            &&& rest.last() == a.last()
        }),
{
    let rest = d + " "@ + "pos"@ + " "@ + p + " speed "@ + s + " acc "@ + a;
    lemma_blank();
    reveal_strlit("pos");
    reveal_strlit(" speed ");
    reveal_strlit(" acc ");
    reveal_strlit("speed");
    reveal_strlit("acc");
    let t4 = "acc"@ + (seq![' '] + a);
    let t3 = s + (seq![' '] + t4);
    let t2 = "speed"@ + (seq![' '] + t3);
    let t1 = p + (seq![' '] + t2);
    let t0 = "pos"@ + (seq![' '] + t1);
    assert(rest =~= d + (seq![' '] + t0));
    text::lemma_words_one(a);
    text::lemma_words_cons("acc"@, a);
    text::lemma_words_cons(s, t4);
    text::lemma_words_cons("speed"@, t3);
    text::lemma_words_cons(p, t2);
    text::lemma_words_cons("pos"@, t1);
    text::lemma_words_cons(d, t0);
    assert(text::words(rest) =~= seq![d, "pos"@, p, "speed"@, s, "acc"@, a]);
}

proof fn lemma_read_options(ws: Seq<Seq<char>>, speed: u16, acc: u8)
    requires
        ws.len() == 7,
        ws[3] == "speed"@,
        ws[4] == text::dec_int(speed as int),
        ws[5] == "acc"@,
        ws[6] == text::dec_int(acc as int),
    ensures
        serial_cmd::move_options(ws, 3, ST_DEFAULT_SPEED, ST_DEFAULT_ACC) == (speed, acc),
{
    text::lemma_number(speed as int, 0, 65535);
    text::lemma_number(acc as int, 0, 255);
    reveal_strlit("speed");
    reveal_strlit("acc");
    assert("speed"@.len() != "acc"@.len());
    assert(serial_cmd::move_options(ws, 7, speed, acc) == (speed, acc));
    assert(serial_cmd::word_within(ws, 6, 0, 255) == Some(acc as int));
    assert(serial_cmd::move_options(ws, 5, speed, ST_DEFAULT_ACC) == (speed, acc));
    assert(serial_cmd::word_within(ws, 4, 0, 65535) == Some(speed as int));
}

/// `st <id> pos <v> speed <s> acc <a>` moves a servo to `v` with that speed and
/// acceleration.
pub proof fn law_move_line_with_options(id: u8, pos: int, speed: u16, acc: u8)
    requires
        0 <= pos <= ST_MAX_POS,
    ensures
        serial_cmd::line_reply(
            line3(id, "pos"@, text::dec_int(pos)) + " speed "@ + text::dec_int(speed as int)
                + " acc "@ + text::dec_int(acc as int),
        ).intent == Intent::Send(CommandView::Move { id, pos: pos as u16, speed, acc }),
{
    let d = text::dec_int(id as int);
    let p = text::dec_int(pos);
    let s = text::dec_int(speed as int);
    let a = text::dec_int(acc as int);
    text::lemma_number(id as int, 0, 255);
    text::lemma_number(pos, 0, 65535);
    text::lemma_number(speed as int, 0, 65535);
    text::lemma_number(acc as int, 0, 255);
    lemma_id_word(id);
    lemma_option_words(d, p, s, a);
    let rest = d + " "@ + "pos"@ + " "@ + p + " speed "@ + s + " acc "@ + a;
    assert(line3(id, "pos"@, p) + " speed "@ + s + " acc "@ + a =~= "st "@ + rest);
    let ws = seq![d, "pos"@, p, "speed"@, s, "acc"@, a];
    assert(!text::is_space(a[a.len() - 1]));
    lemma_st_line(rest);
    lemma_read_options(ws, speed, acc);
    assert(serial_cmd::st_reply(ws) == serial_cmd::servo_reply(id, ws));
    assert(serial_cmd::servo_reply(id, ws) == serial_cmd::pos_reply(id, ws));
}

proof fn lemma_torque_lines(id: u8)
    ensures
        serial_cmd::line_reply(line3(id, "torque"@, "1"@)).intent == Intent::Send(
            CommandView::Torque { id, enable: true },
        ),
        serial_cmd::line_reply(line3(id, "torque"@, "0"@)).intent == Intent::Send(
            CommandView::Torque { id, enable: false },
        ),
{
    lemma_op_words();
    reveal_strlit("1");
    reveal_strlit("0");
    reveal_strlit("on");
    reveal_strlit("true");
    assert("0"@[0] == '0' && "1"@[0] == '1');
    lemma_line3(id, "torque"@, "1"@);
    lemma_line3(id, "torque"@, "0"@);
}

proof fn lemma_bare_lines(id: u8)
    ensures
        serial_cmd::line_reply(line2(id, "zero"@)).intent == Intent::Send(CommandView::Zero { id }),
        serial_cmd::line_reply(line2(id, "servo"@)).intent == Intent::Send(
            CommandView::ServoMode { id },
        ),
        serial_cmd::line_reply(line2(id, "ping"@)).intent == Intent::Send(CommandView::Ping { id }),
{
    lemma_op_words();
    lemma_line2(id, "zero"@);
    lemma_line2(id, "servo"@);
    lemma_line2(id, "ping"@);
}

proof fn lemma_number_lines(id: u8, new: int, wheel_speed: int)
    requires
        1 <= new <= 253,
        -ST_MAX_WHEEL_SPEED <= wheel_speed <= ST_MAX_WHEEL_SPEED,
    ensures
        serial_cmd::line_reply(line3(id, "setid"@, text::dec_int(new))).intent == Intent::Send(
            CommandView::SetId { current: id, new: new as u8 },
        ),
        serial_cmd::line_reply(line3(id, "wheel"@, text::dec_int(wheel_speed))).intent
            == Intent::Send(
            CommandView::Wheel { id, wheel_speed: wheel_speed as i16, acc: ST_DEFAULT_ACC },
        ),
{
    lemma_op_words();
    text::lemma_number(new, 0, 255);
    text::lemma_number(wheel_speed, -32768, 32767);
    lemma_line3(id, "setid"@, text::dec_int(new));
    lemma_line3(id, "wheel"@, text::dec_int(wheel_speed));
}

/// The other operations on one servo.
pub proof fn law_servo_lines(id: u8, new: int, wheel_speed: int)
    requires
        1 <= new <= 253,
        -ST_MAX_WHEEL_SPEED <= wheel_speed <= ST_MAX_WHEEL_SPEED,
    ensures
        serial_cmd::line_reply(line3(id, "torque"@, "1"@)).intent == Intent::Send(
            CommandView::Torque { id, enable: true },
        ),
        serial_cmd::line_reply(line3(id, "torque"@, "0"@)).intent == Intent::Send(
            CommandView::Torque { id, enable: false },
        ),
        serial_cmd::line_reply(line3(id, "setid"@, text::dec_int(new))).intent == Intent::Send(
            CommandView::SetId { current: id, new: new as u8 },
        ),
        serial_cmd::line_reply(line2(id, "zero"@)).intent == Intent::Send(CommandView::Zero { id }),
        serial_cmd::line_reply(line3(id, "wheel"@, text::dec_int(wheel_speed))).intent
            == Intent::Send(
            CommandView::Wheel { id, wheel_speed: wheel_speed as i16, acc: ST_DEFAULT_ACC },
        ),
        serial_cmd::line_reply(line2(id, "servo"@)).intent == Intent::Send(
            CommandView::ServoMode { id },
        ),
        serial_cmd::line_reply(line2(id, "ping"@)).intent == Intent::Send(CommandView::Ping { id }),
{
    lemma_torque_lines(id);
    lemma_bare_lines(id);
    lemma_number_lines(id, new, wheel_speed);
}

/// `st scan <from> <to>` scans that range.
pub proof fn law_scan_line(from: u8, to: u8)
    ensures
        serial_cmd::line_reply(
            "st scan "@ + text::dec_int(from as int) + " "@ + text::dec_int(to as int),
        ).intent == Intent::Send(CommandView::Rescan { from, to }),
{
    let f = text::dec_int(from as int);
    let t = text::dec_int(to as int);
    text::lemma_number(from as int, 0, 255);
    text::lemma_number(to as int, 0, 255);
    lemma_blank();
    reveal_strlit("st scan ");
    reveal_strlit("st ");
    reveal_strlit("scan");
    reveal_strlit("list");
    let tail = f + (seq![' '] + t);
    let rest = "scan"@ + (seq![' '] + tail);
    assert("st scan "@ + f + " "@ + t =~= "st "@ + rest);
    text::lemma_words_one(t);
    text::lemma_words_cons(f, t);
    text::lemma_words_cons("scan"@, tail);
    let ws = seq!["scan"@, f, t];
    assert(text::words(rest) =~= ws);
    assert(rest.last() == t[t.len() - 1]);
    lemma_st_line(rest);
    assert("scan"@[0] == 's' && "list"@[0] == 'l');
    assert(serial_cmd::word_within(ws, 1, 0, 255) == Some(from as int));
    assert(serial_cmd::word_within(ws, 2, 0, 255) == Some(to as int));
}

/// `wifi <ssid> <password>` stores exactly these credentials, where both are
/// single words that are not too long.
pub proof fn law_wifi_line(ssid: Seq<char>, password: Seq<char>)
    requires
        text::is_word(ssid),
        text::is_word(password),
        encode_utf8(ssid).len() <= wifi_config::MAX_SSID_LEN,
        encode_utf8(password).len() <= wifi_config::MAX_PASSWORD_LEN,
    ensures
        serial_cmd::line_reply("wifi "@ + ssid + " "@ + password).intent == Intent::Store(
            (ssid, password),
        ),
{
    let rest = ssid + (seq![' '] + password);
    let line = "wifi "@ + ssid + " "@ + password;
    lemma_blank();
    reveal_strlit("wifi ");
    reveal_strlit("wi");
    reveal_strlit("ble");
    assert(line =~= "wifi "@ + rest);
    assert(line[0] == 'w');
    assert(line.last() == password[password.len() - 1]);
    text::lemma_not_trimmed(line);
    assert("wi"@.len() == 2 && "ble"@.len() == 3 && line.len() > 5);
    lemma_strip("wifi "@, rest);
    text::lemma_words_one(password);
    text::lemma_words_cons(ssid, password);
    assert(text::words(rest) =~= seq![ssid, password]);
}

/// The word `<id>=<pos>`.
pub open spec fn target_word(id: u8, pos: u16) -> Seq<char> {
    text::dec_int(id as int) + (seq!['='] + text::dec_int(pos as int))
}

/// The words `all <id>=<pos> ... speed <s> acc <a>`.
pub open spec fn all_words(moves: Seq<(u8, u16)>, speed: u16, acc: u8) -> Seq<Seq<char>> {
    seq!["all"@] + moves.map_values(|m: (u8, u16)| target_word(m.0, m.1)) + seq![
        "speed"@,
        text::dec_int(speed as int),
        "acc"@,
        text::dec_int(acc as int),
    ]
}

pub(crate) proof fn lemma_target_word(id: u8, pos: u16)
    requires
        pos <= ST_MAX_POS,
    ensures
        serial_cmd::target(target_word(id, pos)) == Some((id, pos)),
        target_word(id, pos) != "speed"@,
        target_word(id, pos) != "acc"@,
{
    let d = text::dec_int(id as int);
    text::lemma_number(id as int, 0, 255);
    text::lemma_number(pos as int, 0, ST_MAX_POS as int);
    text::lemma_dec_digits(id as nat);
    assert forall|i: int| 0 <= i < d.len() implies d[i] != '=' by {
        assert(text::is_digit(d[i]));
    }
    text::lemma_pieces_cons(d, text::dec_int(pos as int), '=');
    reveal_strlit("speed");
    reveal_strlit("acc");
    assert(target_word(id, pos)[0] == d[0]);
    assert("speed"@[0] == 's' && "acc"@[0] == 'a');
}

proof fn lemma_all_targets(moves: Seq<(u8, u16)>, speed: u16, acc: u8, k: int)
    requires
        0 <= k <= moves.len() <= MAX_SERVOS,
        forall|i: int| 0 <= i < moves.len() ==> (#[trigger] moves[i]).1 <= ST_MAX_POS,
    ensures
        serial_cmd::all_options(
            all_words(moves, speed, acc),
            k + 1,
            moves.take(k),
            ST_DEFAULT_SPEED,
            ST_DEFAULT_ACC,
        ) == (moves, speed, acc),
    decreases moves.len() - k,
{
    let ws = all_words(moves, speed, acc);
    if k < moves.len() {
        lemma_all_targets(moves, speed, acc, k + 1);
        assert(ws[k + 1] == target_word(moves[k].0, moves[k].1));
        lemma_target_word(moves[k].0, moves[k].1);
        assert(moves.take(k).push(moves[k]) =~= moves.take(k + 1));
    } else {
        let n = moves.len() as int;
        assert(moves.take(k) =~= moves);
        text::lemma_number(speed as int, 0, 65535);
        text::lemma_number(acc as int, 0, 255);
        reveal_strlit("speed");
        reveal_strlit("acc");
        assert("speed"@.len() != "acc"@.len());
        assert(ws[n + 1] == "speed"@ && ws[n + 2] == text::dec_int(speed as int));
        assert(ws[n + 3] == "acc"@ && ws[n + 4] == text::dec_int(acc as int));
        assert(ws.len() == n + 5);
        assert(serial_cmd::all_options(ws, n + 5, moves, speed, acc) == (moves, speed, acc));
        assert(serial_cmd::word_within(ws, n + 4, 0, 255) == Some(acc as int));
        assert(serial_cmd::all_options(ws, n + 3, moves, speed, ST_DEFAULT_ACC) == (
            moves,
            speed,
            acc,
        ));
        assert(serial_cmd::word_within(ws, n + 2, 0, 65535) == Some(speed as int));
    }
}

/// `st all <id>=<pos> ... speed <s> acc <a>` moves exactly the servos that it
/// names, for one to sixteen of them.
pub proof fn law_move_all_words(moves: Seq<(u8, u16)>, speed: u16, acc: u8)
    requires
        1 <= moves.len() <= MAX_SERVOS,
        forall|i: int| 0 <= i < moves.len() ==> (#[trigger] moves[i]).1 <= ST_MAX_POS,
    ensures
        all_words(moves, speed, acc).len() <= MAX_WORDS,
        serial_cmd::st_reply(all_words(moves, speed, acc)).intent == Intent::Send(
            CommandView::MoveAll { moves, speed, acc },
        ),
{
    let ws = all_words(moves, speed, acc);
    lemma_all_targets(moves, speed, acc, 0);
    assert(moves.take(0) =~= Seq::empty());
    assert(ws[0] == "all"@);
    reveal_strlit("all");
    reveal_strlit("list");
    reveal_strlit("scan");
    assert("all"@.len() == 3 && "list"@.len() == 4 && "scan"@.len() == 4);
}

} // verus!
