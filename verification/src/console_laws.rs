//! What the console answers to every line, and what it turns down.
use crate::commands::{Command, CommandView};
use crate::serial_cmd;
use crate::serial_cmd::{Intent, ReplyView, SerialAction, SerialReply};
use crate::serial_laws;
use crate::text;
use crate::text_laws;
use crate::wifi_config::{RadioMode, WifiCredentials};
use vstd::prelude::*;
use vstd::string::*;
use vstd::utf8::*;

verus! {

// -- Lines -------------------------------------------------------------------

/// White space around a line does not matter.
pub proof fn law_blanks_around_a_line(a: Seq<char>, line: Seq<char>, b: Seq<char>)
    requires
        text_laws::is_blank(a),
        text_laws::is_blank(b),
        line.len() > 0 ==> !text::is_space(line[0]) && !text::is_space(line.last()),
    ensures
        serial_cmd::line_reply(a + line + b) == serial_cmd::line_reply(line),
{
    text_laws::law_trimming(a, line, b);
    text_laws::law_trimming(Seq::empty(), line, Seq::empty());
    assert(Seq::<char>::empty() + line + Seq::<char>::empty() =~= line);
}

/// A line of nothing but white space does nothing and is not answered.
pub proof fn law_blank_lines(a: Seq<char>)
    requires
        text_laws::is_blank(a),
    ensures
        serial_cmd::line_reply(a).intent is Nothing,
        serial_cmd::line_reply(a).text.len() == 0,
{
    text_laws::law_trimming(a, Seq::empty(), Seq::empty());
    assert(a + Seq::<char>::empty() + Seq::<char>::empty() =~= a);
}

/// `wi` and `ble`, with any white space around them, store the radio to boot
/// with.
pub proof fn law_radio_lines(a: Seq<char>, b: Seq<char>)
    requires
        text_laws::is_blank(a),
        text_laws::is_blank(b),
    ensures
        serial_cmd::line_reply(a + "wi"@ + b).intent == Intent::Radio(RadioMode::Wifi),
        serial_cmd::line_reply(a + "ble"@ + b).intent == Intent::Radio(RadioMode::Ble),
        serial_cmd::line_reply(a + "wi"@ + b).text == "\nSerial: saving WiFi mode and rebooting"@,
        serial_cmd::line_reply(a + "ble"@ + b).text == "\nSerial: saving BLE mode and rebooting"@,
{
    reveal_strlit("wi");
    reveal_strlit("ble");
    assert("wi"@.len() == 2 && "ble"@.len() == 3);
    text_laws::law_trimming(a, "wi"@, b);
    text_laws::law_trimming(a, "ble"@, b);
}

/// A line that begins like none of the commands does nothing; the answer quotes
/// it.
pub proof fn law_unknown_lines(line: Seq<char>)
    requires
        line.len() > 0,
        !text::is_space(line[0]),
        !text::is_space(line.last()),
        line[0] != 'w' && line[0] != 'b' && line[0] != 'm' && line[0] != 's',
    ensures
        serial_cmd::line_reply(line).intent is Nothing,
        ("\nUnknown command: '"@ + line + "'\n"@).is_prefix_of(serial_cmd::line_reply(line).text),
{
    lemma_other_line(line);
}

proof fn lemma_other_line(line: Seq<char>)
    requires
        line.len() > 0,
        !text::is_space(line[0]),
        !text::is_space(line.last()),
        line[0] != 'w' && line[0] != 'b' && line[0] != 'm' && line[0] != 's',
    ensures
        serial_cmd::line_reply(line) == serial_cmd::say(
            "\nUnknown command: '"@ + line + "'\n"@ + serial_cmd::help_text(),
        ),
{
    reveal_strlit("wi");
    reveal_strlit("ble");
    reveal_strlit("wifi ");
    reveal_strlit("m ");
    reveal_strlit("ma ");
    reveal_strlit("mb ");
    reveal_strlit("motor ");
    reveal_strlit("st");
    text::lemma_not_trimmed(line);
    assert("wi"@[0] == 'w' && "ble"@[0] == 'b');
    serial_laws::lemma_no_prefix(line, "wifi "@, 0);
    serial_laws::lemma_no_prefix(line, "m "@, 0);
    serial_laws::lemma_no_prefix(line, "ma "@, 0);
    serial_laws::lemma_no_prefix(line, "mb "@, 0);
    serial_laws::lemma_no_prefix(line, "motor "@, 0);
    serial_laws::lemma_no_prefix(line, "st"@, 0);
}

/// A power beyond 100 in either direction moves no motor.
pub proof fn law_excess_power_is_turned_down(p: int)
    requires
        p < -100 || p > 100,
    ensures
        serial_cmd::line_reply("ma "@ + text::dec_int(p)).intent is Nothing,
        serial_cmd::line_reply("mb "@ + text::dec_int(p)).intent is Nothing,
        serial_cmd::line_reply("m "@ + text::dec_int(p)).intent is Nothing,
{
    reveal_strlit("m ");
    reveal_strlit("ma ");
    reveal_strlit("mb ");
    lemma_excess(p, "m "@);
    lemma_excess(p, "ma "@);
    lemma_excess(p, "mb "@);
}

proof fn lemma_excess(p: int, front: Seq<char>)
    requires
        p < -100 || p > 100,
        front == "m "@ || front == "ma "@ || front == "mb "@,
    ensures
        serial_cmd::line_reply(front + text::dec_int(p)).intent is Nothing,
{
    let d = text::dec_int(p);
    let line = front + d;
    reveal_strlit("wi");
    reveal_strlit("ble");
    reveal_strlit("wifi ");
    reveal_strlit("m ");
    reveal_strlit("ma ");
    reveal_strlit("mb ");
    reveal_strlit("motor ");
    reveal_strlit("st");
    text::lemma_dec_is_word(p);
    text::law_written_number_reads_back(p);
    assert(!text::is_space(d[0]));
    assert(!text::is_space(d[d.len() - 1]));
    text::lemma_not_trimmed(d);
    assert(line[0] == 'm');
    assert(line.last() == d.last());
    text::lemma_not_trimmed(line);
    assert("wi"@[0] == 'w' && "ble"@[0] == 'b');
    serial_laws::lemma_no_prefix(line, "wifi "@, 0);
    serial_laws::lemma_no_prefix(line, "st"@, 0);
    serial_laws::lemma_no_prefix(line, "motor "@, 1);
    serial_laws::lemma_strip(front, d);
    if front == "m "@ {
        serial_laws::lemma_no_prefix(line, "ma "@, 1);
        serial_laws::lemma_no_prefix(line, "mb "@, 1);
    } else if front == "ma "@ {
        serial_laws::lemma_no_prefix(line, "m "@, 1);
        serial_laws::lemma_no_prefix(line, "mb "@, 1);
    } else {
        serial_laws::lemma_no_prefix(line, "m "@, 1);
        serial_laws::lemma_no_prefix(line, "ma "@, 1);
    }
}

/// White space before a power does not matter.
pub proof fn law_blanks_before_a_power(a: Seq<char>, p: int)
    requires
        text_laws::is_blank(a),
        -100 <= p <= 100,
    ensures
        serial_cmd::prefixed_power("ma "@ + (a + text::dec_int(p)), "ma "@) == Some(p),
        serial_cmd::prefixed_power("mb "@ + (a + text::dec_int(p)), "mb "@) == Some(p),
        serial_cmd::prefixed_power("m "@ + (a + text::dec_int(p)), "m "@) == Some(p),
{
    let d = text::dec_int(p);
    text::lemma_number(p, -100, 100);
    assert(!text::is_space(d[0]));
    assert(!text::is_space(d[d.len() - 1]));
    text_laws::law_trimming(a, d, Seq::empty());
    assert(a + d + Seq::<char>::empty() =~= a + d);
    serial_laws::lemma_strip("ma "@, a + d);
    serial_laws::lemma_strip("mb "@, a + d);
    serial_laws::lemma_strip("m "@, a + d);
}

/// The console says which motor has which power.
pub proof fn law_motor_answers(p: int)
    requires
        -100 <= p <= 100,
    ensures
        serial_cmd::line_reply("ma "@ + text::dec_int(p)).text == "\nSerial: Motor A = "@
            + text::dec_int(p) + "%"@,
        serial_cmd::line_reply("mb "@ + text::dec_int(p)).text == "\nSerial: Motor B = "@
            + text::dec_int(p) + "%"@,
        serial_cmd::line_reply("m "@ + text::dec_int(p)).text == "\nSerial: All motors = "@
            + text::dec_int(p) + "%"@,
{
    serial_laws::lemma_short_lines(p);
}

// -- Servo commands ----------------------------------------------------------

/// A position beyond 4095 is turned down.
pub proof fn law_excess_position_is_turned_down(id: u8, pos: int)
    requires
        4095 < pos,
    ensures
        ({
            let reply = serial_cmd::line_reply(serial_laws::line3(id, "pos"@, text::dec_int(pos)));
            reply.intent is Nothing && (pos <= 65535 ==> reply.text == "pos must be 0..=4095"@)
        }),
{
    serial_laws::lemma_op_words();
    text::lemma_dec_is_word(pos);
    text::law_written_number_reads_back(pos);
    serial_laws::lemma_line3(id, "pos"@, text::dec_int(pos));
}

/// A wheel speed beyond 4095 in either direction is turned down.
pub proof fn law_excess_wheel_speed_is_turned_down(id: u8, wheel_speed: int)
    requires
        wheel_speed < -4095 || 4095 < wheel_speed,
    ensures
        ({
            let reply = serial_cmd::line_reply(
                serial_laws::line3(id, "wheel"@, text::dec_int(wheel_speed)),
            );
            reply.intent is Nothing && (-32768 <= wheel_speed <= 32767 ==> reply.text
                == "wheel speed must be -4095..=4095"@)
        }),
{
    serial_laws::lemma_op_words();
    text::lemma_dec_is_word(wheel_speed);
    text::law_written_number_reads_back(wheel_speed);
    serial_laws::lemma_line3(id, "wheel"@, text::dec_int(wheel_speed));
}

/// A new ID that is not within 1..=253 is turned down.
pub proof fn law_bad_new_id_is_turned_down(id: u8, new: int)
    requires
        new < 1 || 253 < new,
    ensures
        ({
            let reply = serial_cmd::line_reply(serial_laws::line3(id, "setid"@, text::dec_int(new)));
            reply.intent is Nothing && (0 <= new <= 255 ==> reply.text == "new id must be 1..=253"@)
        }),
{
    serial_laws::lemma_op_words();
    text::lemma_dec_is_word(new);
    text::law_written_number_reads_back(new);
    serial_laws::lemma_line3(id, "setid"@, text::dec_int(new));
}

/// A value that is no number, or is missing, makes nothing happen.
pub proof fn law_bad_values_are_turned_down(id: u8, ws: Seq<Seq<char>>)
    requires
        ws.len() >= 2,
        ws.len() == 2 || text::numeral(ws[2]) is None,
    ensures
        ws[1] == "pos"@ || ws[1] == "p"@ || ws[1] == "setid"@ || ws[1] == "wheel"@
            ==> serial_cmd::servo_reply(id, ws).intent is Nothing,
        (ws[1] == "torque"@ || ws[1] == "t"@) && ws.len() == 2 ==> serial_cmd::servo_reply(
            id,
            ws,
        ).intent is Nothing,
{
    serial_laws::lemma_op_words();
    reveal_strlit("t");
    reveal_strlit("p");
    reveal_strlit("pos");
    assert("t"@[0] == 't' && "p"@[0] == 'p' && "pos"@[0] == 'p');
}

/// A move goes where its third word says, with the options behind it.
pub proof fn law_move_words(id: u8, ws: Seq<Seq<char>>, pos: int)
    requires
        0 <= pos <= 4095,
        ws.len() >= 3,
        text::numeral_within(ws[2], 0, 4095) == Some(pos),
    ensures
        serial_cmd::pos_reply(id, ws).intent == Intent::Send(
            CommandView::Move {
                id,
                pos: pos as u16,
                speed: serial_cmd::move_options(ws, 3, 1500, 50).0,
                acc: serial_cmd::move_options(ws, 3, 1500, 50).1,
            },
        ),
{
}

/// `p` is short for `pos`, `t` for `torque`, whatever follows them.
pub proof fn law_short_operations(id: u8, arg: Seq<char>)
    requires
        text::is_word(arg),
    ensures
        serial_cmd::line_reply(serial_laws::line3(id, "p"@, arg)) == serial_cmd::line_reply(
            serial_laws::line3(id, "pos"@, arg),
        ),
        serial_cmd::line_reply(serial_laws::line3(id, "t"@, arg)) == serial_cmd::line_reply(
            serial_laws::line3(id, "torque"@, arg),
        ),
{
    serial_laws::lemma_op_words();
    reveal_strlit("p");
    reveal_strlit("t");
    reveal_strlit("pos");
    assert("p"@[0] == 'p' && "t"@[0] == 't' && "p"@.len() == 1 && "t"@.len() == 1 && "pos"@.len()
        == 3);
    serial_laws::lemma_line3(id, "p"@, arg);
    serial_laws::lemma_line3(id, "pos"@, arg);
    serial_laws::lemma_line3(id, "t"@, arg);
    serial_laws::lemma_line3(id, "torque"@, arg);
    let d = text::dec_int(id as int);
    assert(seq![d, "p"@, arg][2] == arg && seq![d, "pos"@, arg][2] == arg);
    assert(serial_cmd::move_options(seq![d, "p"@, arg], 3, 1500, 50) == (1500u16, 50u8));
    assert(serial_cmd::move_options(seq![d, "pos"@, arg], 3, 1500, 50) == (1500u16, 50u8));
}

/// A servo holds its position after `1`, `on` and `true`; after every other
/// word it is let go.
pub proof fn law_torque_words(id: u8, arg: Seq<char>)
    requires
        text::is_word(arg),
    ensures
        ({
            let on = arg == "1"@ || arg == "on"@ || arg == "true"@;
            serial_cmd::line_reply(serial_laws::line3(id, "torque"@, arg)) == (ReplyView {
                intent: Intent::Send(CommandView::Torque { id, enable: on }),
                text: "Serial: st "@ + text::dec_int(id as int) + " torque="@ + (if on {
                    "true"@
                } else {
                    "false"@
                }),
            })
        }),
{
    serial_laws::lemma_op_words();
    serial_laws::lemma_line3(id, "torque"@, arg);
    text_laws::law_truth_values();
}

/// `st <id> state` asks the servo for a sign of life.
pub proof fn law_state_line(id: u8)
    ensures
        serial_cmd::line_reply(serial_laws::line2(id, "state"@)).intent == Intent::Send(
            CommandView::Ping { id },
        ),
{
    lemma_state_word();
    serial_laws::lemma_line2(id, "state"@);
}

proof fn lemma_state_word()
    ensures
        text::is_word("state"@),
        "state"@ != "pos"@ && "state"@ != "p"@ && "state"@ != "torque"@ && "state"@ != "t"@
            && "state"@ != "setid"@ && "state"@ != "zero"@ && "state"@ != "wheel"@ && "state"@
            != "servo"@ && "state"@ != "ping"@,
{
    reveal_strlit("state");
    reveal_strlit("pos");
    reveal_strlit("p");
    reveal_strlit("torque");
    reveal_strlit("t");
    reveal_strlit("setid");
    reveal_strlit("zero");
    reveal_strlit("wheel");
    reveal_strlit("servo");
    reveal_strlit("ping");
    assert("state"@.len() == 5 && "state"@[0] == 's' && "state"@[1] == 't');
    assert("setid"@[1] == 'e' && "servo"@[1] == 'e' && "wheel"@[0] == 'w');
    assert("pos"@.len() == 3 && "p"@.len() == 1 && "torque"@.len() == 6 && "t"@.len() == 1
        && "zero"@.len() == 4 && "ping"@.len() == 4);
}

/// A word that names no operation makes nothing happen; the answer quotes it.
pub proof fn law_unknown_operations(id: u8, op: Seq<char>)
    requires
        text::is_word(op),
        op != "pos"@ && op != "p"@ && op != "torque"@ && op != "t"@ && op != "zero"@ && op
            != "wheel"@ && op != "servo"@ && op != "setid"@ && op != "ping"@ && op != "state"@,
    ensures
        serial_cmd::line_reply(serial_laws::line2(id, op)).intent is Nothing,
        serial_cmd::line_reply(serial_laws::line2(id, op)).text == "Unknown st op: '"@ + op + "'"@,
{
    serial_laws::lemma_line2(id, op);
}

/// A word behind `st` that is neither a command nor an ID makes nothing happen;
/// the answer quotes it.
pub proof fn law_unknown_subcommands(ws: Seq<Seq<char>>)
    requires
        ws.len() > 0,
        ws[0] != "list"@ && ws[0] != "scan"@ && ws[0] != "all"@,
        text::numeral_within(ws[0], 0, 255) is None,
    ensures
        serial_cmd::st_reply(ws).intent is Nothing,
        serial_cmd::st_reply(ws).text == "Unknown st subcommand: '"@ + ws[0] + "'"@,
{
}

/// A line that stops too early makes nothing happen.
pub proof fn law_missing_words(id: u8)
    ensures
        serial_cmd::st_reply(Seq::empty()).intent is Nothing,
        serial_cmd::st_reply(seq![text::dec_int(id as int)]).intent is Nothing,
        serial_cmd::st_reply(seq!["all"@]).intent is Nothing,
{
    serial_laws::lemma_id_word(id);
    text::lemma_number(id as int, 0, 255);
    reveal_strlit("all");
    reveal_strlit("list");
    reveal_strlit("scan");
    assert("all"@.len() == 3 && "list"@.len() == 4 && "scan"@.len() == 4);
    let one = seq![text::dec_int(id as int)];
    assert(one[0] == text::dec_int(id as int));
    let all = seq!["all"@];
    assert(all[0] == "all"@);
}

/// A move without options goes at speed 1500 with acceleration 50.
pub proof fn law_move_answer(id: u8, pos: int)
    requires
        0 <= pos <= 4095,
    ensures
        serial_cmd::line_reply(serial_laws::line3(id, "pos"@, text::dec_int(pos))) == (ReplyView {
            intent: Intent::Send(CommandView::Move { id, pos: pos as u16, speed: 1500, acc: 50 }),
            text: "Serial: st "@ + text::dec_int(id as int) + " pos="@ + text::dec_int(pos)
                + " speed="@ + text::dec_int(1500) + " acc="@ + text::dec_int(50),
        }),
{
    serial_laws::lemma_op_words();
    text::lemma_number(pos, 0, 65535);
    serial_laws::lemma_line3(id, "pos"@, text::dec_int(pos));
}

/// A change of ID names both of them.
pub proof fn law_id_change_answer(id: u8, new: int)
    requires
        1 <= new <= 253,
    ensures
        serial_cmd::line_reply(serial_laws::line3(id, "setid"@, text::dec_int(new))) == (ReplyView {
            intent: Intent::Send(CommandView::SetId { current: id, new: new as u8 }),
            text: "Serial: st "@ + text::dec_int(id as int) + " setid "@ + text::dec_int(new)
                + " (rescan will follow)"@,
        }),
{
    serial_laws::lemma_op_words();
    text::lemma_number(new, 0, 255);
    serial_laws::lemma_line3(id, "setid"@, text::dec_int(new));
}

/// A wheel without options accelerates by 50.
pub proof fn law_wheel_answer(id: u8, wheel_speed: int)
    requires
        -4095 <= wheel_speed <= 4095,
    ensures
        serial_cmd::line_reply(serial_laws::line3(id, "wheel"@, text::dec_int(wheel_speed))) == (
        ReplyView {
            intent: Intent::Send(
                CommandView::Wheel { id, wheel_speed: wheel_speed as i16, acc: 50 },
            ),
            text: "Serial: st "@ + text::dec_int(id as int) + " wheel="@ + text::dec_int(
                wheel_speed,
            ) + " acc="@ + text::dec_int(50),
        }),
{
    serial_laws::lemma_op_words();
    text::lemma_number(wheel_speed, -32768, 32767);
    serial_laws::lemma_line3(id, "wheel"@, text::dec_int(wheel_speed));
}

/// The operations without a value are named in the answer.
pub proof fn law_plain_answers(id: u8)
    ensures
        serial_cmd::line_reply(serial_laws::line2(id, "zero"@)).text == "Serial: st "@
            + text::dec_int(id as int) + " zero"@,
        serial_cmd::line_reply(serial_laws::line2(id, "servo"@)).text == "Serial: st "@
            + text::dec_int(id as int) + " servo"@,
        serial_cmd::line_reply(serial_laws::line2(id, "ping"@)).text == "Serial: st "@
            + text::dec_int(id as int) + " ping"@,
{
    serial_laws::lemma_op_words();
    serial_laws::lemma_line2(id, "zero"@);
    serial_laws::lemma_line2(id, "servo"@);
    serial_laws::lemma_line2(id, "ping"@);
}

/// The options of a move may come in any order, and the last of each counts; a
/// value that is no number, or too large, leaves what was set before; words
/// that mean nothing are passed over.
pub proof fn law_move_options(ws: Seq<Seq<char>>, i: int, speed: u16, acc: u8, n: u16, m: u8)
    requires
        0 <= i < ws.len(),
    ensures
        serial_cmd::move_options(ws, ws.len() as int, speed, acc) == (speed, acc),
        i + 1 < ws.len() && ws[i] == "speed"@ && ws[i + 1] == text::dec_int(n as int)
            ==> serial_cmd::move_options(ws, i, speed, acc) == serial_cmd::move_options(
            ws,
            i + 2,
            n,
            acc,
        ),
        i + 1 < ws.len() && ws[i] == "acc"@ && ws[i + 1] == text::dec_int(m as int)
            ==> serial_cmd::move_options(ws, i, speed, acc) == serial_cmd::move_options(
            ws,
            i + 2,
            speed,
            m,
        ),
        i + 1 < ws.len() && ws[i] == "speed"@ && text::numeral_within(ws[i + 1], 0, 65535) is None
            ==> serial_cmd::move_options(ws, i, speed, acc) == serial_cmd::move_options(
            ws,
            i + 2,
            speed,
            acc,
        ),
        i + 1 < ws.len() && ws[i] == "acc"@ && text::numeral_within(ws[i + 1], 0, 255) is None
            ==> serial_cmd::move_options(ws, i, speed, acc) == serial_cmd::move_options(
            ws,
            i + 2,
            speed,
            acc,
        ),
        ws[i] != "speed"@ && ws[i] != "acc"@ ==> serial_cmd::move_options(ws, i, speed, acc)
            == serial_cmd::move_options(ws, i + 1, speed, acc),
{
    text::lemma_number(n as int, 0, 65535);
    text::lemma_number(m as int, 0, 255);
    reveal_strlit("speed");
    reveal_strlit("acc");
    assert("speed"@.len() == 5 && "acc"@.len() == 3);
}

/// A wheel takes an acceleration too; a speed option does not concern it.
pub proof fn law_wheel_options(id: u8, ws: Seq<Seq<char>>, wheel_speed: int)
    requires
        -4095 <= wheel_speed <= 4095,
        ws.len() >= 3,
        ws[2] == text::dec_int(wheel_speed),
    ensures
        serial_cmd::wheel_reply(id, ws).intent == Intent::Send(
            CommandView::Wheel {
                id,
                wheel_speed: wheel_speed as i16,
                acc: serial_cmd::move_options(ws, 3, 1500, 50).1,
            },
        ),
{
    text::lemma_number(wheel_speed, -32768, 32767);
}

/// A target needs an ID within 0..=255 and a position within 0..=4095 on either
/// side of its first `=`.
pub proof fn law_targets(word: Seq<char>, id: u8, pos: u16)
    ensures
        serial_cmd::target(word) == Some((id, pos)) ==> (text::cut(word, '=') matches Some((a, b))
            && text::numeral(a) == Some(id as int) && text::numeral(b) == Some(pos as int) && pos
            <= 4095),
        pos <= 4095 ==> serial_cmd::target(serial_laws::target_word(id, pos)) == Some((id, pos)),
        pos > 4095 ==> serial_cmd::target(serial_laws::target_word(id, pos)) is None,
{
    let d = text::dec_int(id as int);
    text::lemma_number(id as int, 0, 255);
    text::law_written_number_reads_back(pos as int);
    text::lemma_dec_digits(id as nat);
    assert forall|i: int| 0 <= i < d.len() implies d[i] != '=' by {
        assert(text::is_digit(d[i]));
    }
    text::lemma_pieces_cons(d, text::dec_int(pos as int), '=');
}

/// A multi-servo move takes the words one by one: a speed, an acceleration, a
/// target while there are fewer than sixteen; anything else is passed over.
pub proof fn law_move_all_options(
    ws: Seq<Seq<char>>,
    i: int,
    moves: Seq<(u8, u16)>,
    speed: u16,
    acc: u8,
    n: u16,
    m: u8,
    id: u8,
    pos: u16,
)
    requires
        0 <= i < ws.len(),
        pos <= 4095,
    ensures
        serial_cmd::all_options(ws, ws.len() as int, moves, speed, acc) == (moves, speed, acc),
        i + 1 < ws.len() && ws[i] == "speed"@ && ws[i + 1] == text::dec_int(n as int)
            ==> serial_cmd::all_options(ws, i, moves, speed, acc) == serial_cmd::all_options(
            ws,
            i + 2,
            moves,
            n,
            acc,
        ),
        i + 1 < ws.len() && ws[i] == "acc"@ && ws[i + 1] == text::dec_int(m as int)
            ==> serial_cmd::all_options(ws, i, moves, speed, acc) == serial_cmd::all_options(
            ws,
            i + 2,
            moves,
            speed,
            m,
        ),
        ws[i] == serial_laws::target_word(id, pos) && moves.len() < 16 ==> serial_cmd::all_options(
            ws,
            i,
            moves,
            speed,
            acc,
        ) == serial_cmd::all_options(ws, i + 1, moves.push((id, pos)), speed, acc),
        ws[i] == serial_laws::target_word(id, pos) && moves.len() >= 16 ==> serial_cmd::all_options(
            ws,
            i,
            moves,
            speed,
            acc,
        ) == serial_cmd::all_options(ws, i + 1, moves, speed, acc),
        ws[i] != "speed"@ && ws[i] != "acc"@ && text::cut(ws[i], '=') is None
            ==> serial_cmd::all_options(ws, i, moves, speed, acc) == serial_cmd::all_options(
            ws,
            i + 1,
            moves,
            speed,
            acc,
        ),
{
    text::lemma_number(n as int, 0, 65535);
    text::lemma_number(m as int, 0, 255);
    reveal_strlit("speed");
    reveal_strlit("acc");
    assert("speed"@.len() == 5 && "acc"@.len() == 3);
    serial_laws::lemma_target_word(id, pos);
}

/// What a multi-servo move sends is what its words add up to, from speed 1500
/// and acceleration 50 on; the answer counts the targets.
pub proof fn law_move_all_sends(ws: Seq<Seq<char>>)
    requires
        ws.len() > 0,
        ws[0] == "all"@,
    ensures
        ({
            let (moves, speed, acc) = serial_cmd::all_options(ws, 1, Seq::empty(), 1500, 50);
            moves.len() > 0 ==> serial_cmd::st_reply(ws) == (ReplyView {
                intent: Intent::Send(CommandView::MoveAll { moves, speed, acc }),
                text: "Serial: st all "@ + text::dec_int(moves.len() as int) + " moves @ speed="@
                    + text::dec_int(speed as int) + " acc="@ + text::dec_int(acc as int),
            })
        }),
{
    reveal_strlit("all");
    reveal_strlit("list");
    reveal_strlit("scan");
    assert("all"@.len() == 3 && "list"@.len() == 4 && "scan"@.len() == 4);
}

/// A scan that names no range, or no numbers, goes from 1 to 20, and so does
/// `st list`, whatever follows it.
pub proof fn law_scan_defaults(ws: Seq<Seq<char>>, from: u8, to: u8)
    requires
        ws.len() > 0,
    ensures
        ws[0] == "list"@ ==> serial_cmd::st_reply(ws).intent == Intent::Send(
            CommandView::Rescan { from: 1, to: 20 },
        ),
        ws[0] == "scan"@ && ws.len() == 1 ==> serial_cmd::st_reply(ws).intent == Intent::Send(
            CommandView::Rescan { from: 1, to: 20 },
        ),
        ws[0] == "scan"@ && ws.len() == 2 && ws[1] == text::dec_int(from as int)
            ==> serial_cmd::st_reply(ws).intent == Intent::Send(
            CommandView::Rescan { from, to: 20 },
        ),
        ws[0] == "scan"@ && ws.len() >= 3 && text::numeral_within(ws[1], 0, 255) is None && ws[2]
            == text::dec_int(to as int) ==> serial_cmd::st_reply(ws).intent == Intent::Send(
            CommandView::Rescan { from: 1, to },
        ),
        ws[0] == "scan"@ && ws.len() >= 3 && ws[1] == text::dec_int(from as int) && ws[2]
            == text::dec_int(to as int) ==> serial_cmd::st_reply(ws) == (ReplyView {
            intent: Intent::Send(CommandView::Rescan { from, to }),
            text: "Serial: scan "@ + text::dec_int(from as int) + "..="@ + text::dec_int(to as int),
        }),
{
    text::lemma_number(from as int, 0, 255);
    text::lemma_number(to as int, 0, 255);
    reveal_strlit("list");
    reveal_strlit("scan");
    assert("list"@[0] == 'l' && "scan"@[0] == 's');
}

/// Of the words behind `st` the first 32 count.
pub proof fn law_kept_words(s: Seq<char>)
    ensures
        serial_cmd::kept_words(s).is_prefix_of(text::words(s)),
        text::words(s).len() <= 32 ==> serial_cmd::kept_words(s).len() == text::words(s).len(),
        text::words(s).len() > 32 ==> serial_cmd::kept_words(s).len() == 32,
{
}

/// What follows `st` need not be set apart from it.
pub proof fn law_servo_line_words(rest: Seq<char>)
    requires
        rest.len() > 0,
        !text::is_space(rest[0]),
        !text::is_space(rest.last()),
    ensures
        serial_cmd::st_words("st"@ + rest) == Some(serial_cmd::kept_words(rest)),
        serial_cmd::st_words("st"@ + (seq![' '] + rest)) == Some(serial_cmd::kept_words(rest)),
{
    reveal_strlit("st");
    let line = "st"@ + rest;
    let spaced = "st"@ + (seq![' '] + rest);
    assert(line.last() == rest.last() && spaced.last() == rest.last());
    text::lemma_not_trimmed(line);
    text::lemma_not_trimmed(spaced);
    serial_laws::lemma_strip("st"@, rest);
    serial_laws::lemma_strip("st"@, seq![' '] + rest);
    text::lemma_not_trimmed(rest);
    text::lemma_words_skip_blank(rest);
    text_laws::law_trimming(seq![' '], rest, Seq::empty());
    assert(seq![' '] + rest + Seq::<char>::empty() =~= seq![' '] + rest);
}

// -- Credentials -------------------------------------------------------------

/// A network name of more than 32 bytes, or a password of more than 64, is
/// stored no more than a line with too few or too many words.
pub proof fn law_bad_credentials(ws: Seq<Seq<char>>)
    ensures
        ws.len() != 2 ==> serial_cmd::wifi_reply(ws).intent is Nothing,
        ws.len() == 2 && encode_utf8(ws[0]).len() > 32 ==> serial_cmd::wifi_reply(ws).intent
            is Nothing,
        ws.len() == 2 && encode_utf8(ws[1]).len() > 64 ==> serial_cmd::wifi_reply(ws).intent
            is Nothing,
        ws.len() == 2 && encode_utf8(ws[0]).len() <= 32 && encode_utf8(ws[1]).len() <= 64
            ==> serial_cmd::wifi_reply(ws).intent == Intent::Store((ws[0], ws[1])),
{
}

// -- Keys --------------------------------------------------------------------

/// Return and line feed start a new line; every other key stands at the end of
/// the line, where there is room for 127.
pub proof fn law_keys(line: Seq<u8>, key: u8)
    ensures
        key == 13 || key == 10 ==> serial_cmd::line_after(line, key).len() == 0,
        key != 13 && key != 10 && line.len() < 127 ==> serial_cmd::line_after(line, key)
            == line.push(key),
        key != 13 && key != 10 && line.len() >= 127 ==> serial_cmd::line_after(line, key) == line,
{
}

// -- Models ------------------------------------------------------------------

/// The model of a reply keeps what it holds.
pub proof fn law_reply_models(cmd: Command, mode: RadioMode, creds: WifiCredentials, r: SerialReply)
    ensures
        SerialAction::Nothing@ == Intent::Nothing,
        SerialAction::Send(cmd)@ == Intent::Send(cmd@),
        SerialAction::Radio(mode)@ == Intent::Radio(mode),
        SerialAction::Store(creds)@ == Intent::Store(creds@),
        r@.intent == r.action@,
        r@.text == r.text@,
{
}

} // verus!
