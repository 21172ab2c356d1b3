//! Serial console command interface.
//!
//! Grammar:
//!   m <power>                      - set ALL motors to power
//!   ma <power> | mb <power>        - set Motor A / B (-100..=100)
//!   motor <a|b> <power>            - verbose form
//!   st list                        - scan and print servo IDs
//!   st scan [from to]              - re-scan the bus
//!   st all <id>=<pos> ...          - atomic move of several servos
//!     [speed <s>] [acc <a>]
//!   st <id> pos <v>                - move servo to pos 0..=4095
//!     [speed <s>] [acc <a>]          (alias: st <id> p <v>)
//!   st <id> torque <0|1>           - enable/disable torque (alias t)
//!   st <id> zero                   - make the current position zero
//!   st <id> wheel <s> [acc <a>]    - continuous rotation, -4095..=4095
//!   st <id> servo                  - return to position control
//!   st <id> setid <new>            - change servo ID (rescans)
//!   st <id> ping                   - ping a single servo
//!   st <id> state                  - ping; the full state comes over HTTP
//!   wifi <ssid> <password>         - save WiFi credentials
//!   wi | ble                       - store the boot radio and reboot
use crate::bounded;
use crate::bounded::{MAX_SERVOS, MAX_WORDS};
use crate::commands;
use crate::commands::{Command, CommandView, MotorId, MOTOR_COUNT};
use crate::control;
use crate::text;
use crate::wifi;
use crate::wifi_config;
use crate::wifi_config::{RadioMode, WifiCredentials};
use vstd::prelude::*;
use vstd::string::*;
use vstd::utf8::*;

verus! {

/// Speed of a move that names none.
pub const ST_DEFAULT_SPEED: u16 = 1500;

/// Acceleration of a move that names none.
pub const ST_DEFAULT_ACC: u8 = 50;

/// Largest position.
pub const ST_MAX_POS: u16 = 4095;

/// Largest wheel speed in either direction.
pub const ST_MAX_WHEEL_SPEED: i16 = 4095;

/// Bytes kept of a line.
pub const MAX_LINE: usize = 127;

// -- Motor commands ----------------------------------------------------------

/// The power that follows `prefix` in `s`.
pub open spec fn prefixed_power(s: Seq<char>, prefix: Seq<char>) -> Option<int> {
    match text::after_prefix(s, prefix) {
        Some(rest) => text::numeral_within(text::trimmed(rest), -100, 100),
        None => None,
    }
}

/// Motor (`*` for all) and power of a motor command.
pub open spec fn motor_token(s: Seq<char>) -> Option<(char, int)> {
    let t = text::trimmed(s);
    let verbose = match text::after_prefix(t, "motor "@) {
        Some(rest) => Some(text::trimmed(rest)),
        None => None,
    };
    if prefixed_power(t, "m "@) is Some {
        Some(('*', prefixed_power(t, "m "@).unwrap()))
    } else if prefixed_power(t, "ma "@) is Some {
        Some(('a', prefixed_power(t, "ma "@).unwrap()))
    } else if prefixed_power(t, "mb "@) is Some {
        Some(('b', prefixed_power(t, "mb "@).unwrap()))
    } else if verbose is None {
        None
    } else if prefixed_power(verbose.unwrap(), "a "@) is Some {
        Some(('a', prefixed_power(verbose.unwrap(), "a "@).unwrap()))
    } else if prefixed_power(verbose.unwrap(), "b "@) is Some {
        Some(('b', prefixed_power(verbose.unwrap(), "b "@).unwrap()))
    } else {
        None
    }
}

fn power_after(input: &str, prefix: &str) -> (r: Option<i8>)
    ensures
        match r {
            Some(p) => prefixed_power(input@, prefix@) == Some(p as int),
            None => prefixed_power(input@, prefix@) is None,
        },
{
    match text::strip_prefix(input, prefix) {
        Some(rest) => match text::parse_within(text::trim(rest), -100, 100) {
            Some(p) => Some(p as i8),
            None => None,
        },
        None => None,
    }
}

/// Parse a motor command into motor (`*` for all) and power.
pub fn parse_motor_token(input: &str) -> (r: Option<(char, i8)>)
    ensures
        match r {
            Some((motor, power)) => motor_token(input@) == Some((motor, power as int)),
            None => motor_token(input@) is None,
        },
{
    let input = text::trim(input);
    if let Some(power) = power_after(input, "m ") {
        return Some(('*', power));
    }
    if let Some(power) = power_after(input, "ma ") {
        return Some(('a', power));
    }
    if let Some(power) = power_after(input, "mb ") {
        return Some(('b', power));
    }
    if let Some(rest) = text::strip_prefix(input, "motor ") {
        let rest = text::trim(rest);
        if let Some(power) = power_after(rest, "a ") {
            return Some(('a', power));
        }
        if let Some(power) = power_after(rest, "b ") {
            return Some(('b', power));
        }
    }
    None
}

// -- Words -------------------------------------------------------------------

/// The words of a line, as far as they are kept.
pub open spec fn kept_words(s: Seq<char>) -> Seq<Seq<char>> {
    let all = text::words(s);
    if all.len() <= MAX_WORDS {
        all
    } else {
        all.take(MAX_WORDS as int)
    }
}

/// Tokenize on whitespace, at most [`MAX_WORDS`] tokens.
fn tokens(input: &str) -> (r: heapless::Vec<&str, MAX_WORDS>)
    ensures
        bounded::word_texts(r) == kept_words(input@),
{
    let mut v = bounded::words_new();
    let mut rest = input;
    let ghost all = text::words(input@);
    assert(all =~= bounded::word_texts(v) + text::words(rest@));
    loop
        invariant
            all == text::words(input@),
            all == bounded::word_texts(v) + text::words(rest@),
            bounded::word_texts(v).len() <= MAX_WORDS,
        decreases rest@.len(),
    {
        let ghost before = bounded::word_texts(v);
        match text::next_word(rest) {
            None => {
                assert(all =~= bounded::word_texts(v));
                return v;
            },
            Some((word, behind)) => {
                if bounded::words_push(&mut v, word).is_err() {
                    assert(all.take(MAX_WORDS as int) =~= before);
                    return v;
                }
                assert(before + (seq![word@] + text::words(behind@)) =~= before.push(word@)
                    + text::words(behind@));
                rest = behind;
            },
        }
    }
}

// -- Servo commands ----------------------------------------------------------

/// What a line makes the firmware do.
#[derive(Debug)]
pub enum SerialAction {
    Nothing,
    /// Send a command to the main loop.
    Send(Command),
    /// Store the radio to boot with, and reboot.
    Radio(RadioMode),
    /// Store credentials.
    Store(WifiCredentials),
}

/// Model of a [`SerialAction`].
#[verifier::ext_equal]
pub enum Intent {
    Nothing,
    Send(CommandView),
    Radio(RadioMode),
    Store(wifi::Login),
}

impl View for SerialAction {
    type V = Intent;

    open spec fn view(&self) -> Intent {
        match self {
            SerialAction::Nothing => Intent::Nothing,
            SerialAction::Send(cmd) => Intent::Send(cmd@),
            SerialAction::Radio(mode) => Intent::Radio(*mode),
            SerialAction::Store(creds) => Intent::Store(creds@),
        }
    }
}

/// The answer to a line: what to do, and what to print.
#[derive(Debug)]
pub struct SerialReply {
    pub action: SerialAction,
    pub text: String,
}

/// Model of a [`SerialReply`].
#[verifier::ext_equal]
pub struct ReplyView {
    pub intent: Intent,
    pub text: Seq<char>,
}

impl View for SerialReply {
    type V = ReplyView;

    open spec fn view(&self) -> ReplyView {
        ReplyView { intent: self.action@, text: self.text@ }
    }
}

impl SerialReply {
    /// Whether a multi-servo move that is sent holds nothing but its targets.
    pub open spec fn no_spare_entries(self) -> bool {
        self.action matches SerialAction::Send(cmd) ==> commands::no_spare_entries(cmd)
    }
}

/// Nothing but a text.
pub open spec fn say(text: Seq<char>) -> ReplyView {
    ReplyView { intent: Intent::Nothing, text }
}

/// A command and a text.
pub open spec fn order(cmd: CommandView, text: Seq<char>) -> ReplyView {
    ReplyView { intent: Intent::Send(cmd), text }
}

/// The number that the word at `i` spells, where there is such a word.
pub open spec fn word_within(ws: Seq<Seq<char>>, i: int, min: int, max: int) -> Option<int> {
    if 0 <= i < ws.len() {
        text::numeral_within(ws[i], min, max)
    } else {
        None
    }
}

/// `v`, or `default` where there is none.
pub open spec fn or_u16(v: Option<int>, default: u16) -> u16 {
    match v {
        Some(n) => n as u16,
        None => default,
    }
}

/// `v`, or `default` where there is none.
pub open spec fn or_u8(v: Option<int>, default: u8) -> u8 {
    match v {
        Some(n) => n as u8,
        None => default,
    }
}

/// Speed and acceleration of a move: the words from `i` on may name them. A
/// value that is no number leaves the one before.
pub open spec fn move_options(ws: Seq<Seq<char>>, i: int, speed: u16, acc: u8) -> (u16, u8)
    decreases ws.len() + 2 - i,
{
    if i >= ws.len() || i < 0 {
        (speed, acc)
    } else if ws[i] == "speed"@ {
        move_options(ws, i + 2, or_u16(word_within(ws, i + 1, 0, 65535), speed), acc)
    } else if ws[i] == "acc"@ {
        move_options(ws, i + 2, speed, or_u8(word_within(ws, i + 1, 0, 255), acc))
    } else {
        move_options(ws, i + 1, speed, acc)
    }
}

/// The target that a word `<id>=<pos>` names.
pub open spec fn target(word: Seq<char>) -> Option<(u8, u16)> {
    match text::cut(word, '=') {
        Some((a, b)) => match (
            text::numeral_within(a, 0, 255),
            text::numeral_within(b, 0, ST_MAX_POS as int),
        ) {
            (Some(id), Some(pos)) => Some((id as u8, pos as u16)),
            _ => None,
        },
        None => None,
    }
}

/// Targets, speed and acceleration of a multi-servo move: what the words from
/// `i` on add to what was named before. Words that mean nothing are passed
/// over, and so are targets beyond the last servo.
pub open spec fn all_options(
    ws: Seq<Seq<char>>,
    i: int,
    moves: Seq<(u8, u16)>,
    speed: u16,
    acc: u8,
) -> (Seq<(u8, u16)>, u16, u8)
    decreases ws.len() + 2 - i,
{
    if i >= ws.len() || i < 0 {
        (moves, speed, acc)
    } else if ws[i] == "speed"@ && word_within(ws, i + 1, 0, 65535) is Some {
        all_options(ws, i + 2, moves, or_u16(word_within(ws, i + 1, 0, 65535), speed), acc)
    } else if ws[i] == "acc"@ && word_within(ws, i + 1, 0, 255) is Some {
        all_options(ws, i + 2, moves, speed, or_u8(word_within(ws, i + 1, 0, 255), acc))
    } else if ws[i] != "speed"@ && ws[i] != "acc"@ && target(ws[i]) is Some && moves.len()
        < MAX_SERVOS {
        all_options(ws, i + 1, moves.push(target(ws[i]).unwrap()), speed, acc)
    } else {
        all_options(ws, i + 1, moves, speed, acc)
    }
}

/// What `st all ...` means.
pub open spec fn all_reply(ws: Seq<Seq<char>>) -> ReplyView {
    let (moves, speed, acc) = all_options(ws, 1, Seq::empty(), ST_DEFAULT_SPEED, ST_DEFAULT_ACC);
    if moves.len() == 0 {
        say("usage: st all <id>=<pos> ... [speed <s>] [acc <a>]"@)
    } else {
        order(
            CommandView::MoveAll { moves, speed, acc },
            "Serial: st all "@ + text::dec(moves.len()) + " moves @ speed="@ + text::dec(
                speed as nat,
            ) + " acc="@ + text::dec(acc as nat),
        )
    }
}

/// What `st <id> pos ...` means.
pub open spec fn pos_reply(id: u8, ws: Seq<Seq<char>>) -> ReplyView {
    match word_within(ws, 2, 0, 65535) {
        None => say("usage: st <id> pos <0..=4095> [speed <s>] [acc <a>]"@),
        Some(pos) => if pos > ST_MAX_POS {
            say("pos must be 0..=4095"@)
        } else {
            let (speed, acc) = move_options(ws, 3, ST_DEFAULT_SPEED, ST_DEFAULT_ACC);
            order(
                CommandView::Move { id, pos: pos as u16, speed, acc },
                "Serial: st "@ + text::dec(id as nat) + " pos="@ + text::dec(pos as nat)
                    + " speed="@ + text::dec(speed as nat) + " acc="@ + text::dec(acc as nat),
            )
        },
    }
}

/// What `st <id> wheel ...` means.
pub open spec fn wheel_reply(id: u8, ws: Seq<Seq<char>>) -> ReplyView {
    match word_within(ws, 2, -32768, 32767) {
        None => say("usage: st <id> wheel <-4095..=4095> [acc <a>]"@),
        Some(speed) => if speed < -ST_MAX_WHEEL_SPEED || speed > ST_MAX_WHEEL_SPEED {
            say("wheel speed must be -4095..=4095"@)
        } else {
            let acc = move_options(ws, 3, ST_DEFAULT_SPEED, ST_DEFAULT_ACC).1;
            order(
                CommandView::Wheel { id, wheel_speed: speed as i16, acc },
                "Serial: st "@ + text::dec(id as nat) + " wheel="@ + text::dec_int(speed)
                    + " acc="@ + text::dec(acc as nat),
            )
        },
    }
}

/// What `st <id> torque ...` means.
pub open spec fn torque_reply(id: u8, ws: Seq<Seq<char>>) -> ReplyView {
    if ws.len() <= 2 {
        say("usage: st <id> torque <0|1>"@)
    } else {
        let enable = ws[2] == "1"@ || ws[2] == "on"@ || ws[2] == "true"@;
        order(
            CommandView::Torque { id, enable },
            "Serial: st "@ + text::dec(id as nat) + " torque="@ + text::bool_text(enable),
        )
    }
}

/// What `st <id> setid ...` means.
pub open spec fn setid_reply(id: u8, ws: Seq<Seq<char>>) -> ReplyView {
    match word_within(ws, 2, 0, 255) {
        None => say("usage: st <id> setid <new>"@),
        Some(new) => if new < 1 || new > 253 {
            say("new id must be 1..=253"@)
        } else {
            order(
                CommandView::SetId { current: id, new: new as u8 },
                "Serial: st "@ + text::dec(id as nat) + " setid "@ + text::dec(new as nat)
                    + " (rescan will follow)"@,
            )
        },
    }
}

/// What `st <id> <op> ...` means.
pub open spec fn servo_reply(id: u8, ws: Seq<Seq<char>>) -> ReplyView {
    let tag = "Serial: st "@ + text::dec(id as nat);
    if ws.len() < 2 {
        say("usage: st <id> <pos|p|torque|t|zero|wheel|servo|setid|ping|state> ..."@)
    } else if ws[1] == "pos"@ || ws[1] == "p"@ {
        pos_reply(id, ws)
    } else if ws[1] == "torque"@ || ws[1] == "t"@ {
        torque_reply(id, ws)
    } else if ws[1] == "setid"@ {
        setid_reply(id, ws)
    } else if ws[1] == "zero"@ {
        order(CommandView::Zero { id }, tag + " zero"@)
    } else if ws[1] == "wheel"@ {
        wheel_reply(id, ws)
    } else if ws[1] == "servo"@ {
        order(CommandView::ServoMode { id }, tag + " servo"@)
    } else if ws[1] == "ping"@ {
        order(CommandView::Ping { id }, tag + " ping"@)
    } else if ws[1] == "state"@ {
        order(CommandView::Ping { id }, tag + " ping (use HTTP /st/state for full state)"@)
    } else {
        say("Unknown st op: '"@ + ws[1] + "'"@)
    }
}

/// What the words behind `st` mean.
pub open spec fn st_reply(ws: Seq<Seq<char>>) -> ReplyView {
    if ws.len() == 0 {
        say("usage: st list | scan [from to] | all <id>=<pos> ... | <id> <op> ..."@)
    } else if ws[0] == "list"@ {
        order(
            CommandView::Rescan { from: control::SCAN_FROM, to: control::SCAN_TO },
            "Serial: rescanning bus (list will print in main loop)"@,
        )
    } else if ws[0] == "scan"@ {
        let from = or_u8(word_within(ws, 1, 0, 255), control::SCAN_FROM);
        let to = or_u8(word_within(ws, 2, 0, 255), control::SCAN_TO);
        order(
            CommandView::Rescan { from, to },
            "Serial: scan "@ + text::dec(from as nat) + "..="@ + text::dec(to as nat),
        )
    } else if ws[0] == "all"@ {
        all_reply(ws)
    } else {
        match word_within(ws, 0, 0, 255) {
            None => say("Unknown st subcommand: '"@ + ws[0] + "'"@),
            Some(id) => servo_reply(id as u8, ws),
        }
    }
}

fn saying(text: &str) -> (r: SerialReply)
    ensures
        r@ == say(text@),
{
    SerialReply { action: SerialAction::Nothing, text: text.to_owned() }
}

fn sending(cmd: Command, text: String) -> (r: SerialReply)
    ensures
        r@ == order(cmd@, text@),
        r.action == SerialAction::Send(cmd),
{
    SerialReply { action: SerialAction::Send(cmd), text }
}

/// `Serial: st <id>` and what follows.
fn st_tag(id: u8, rest: &str) -> (r: String)
    ensures
        r@ == "Serial: st "@ + text::dec(id as nat) + rest@,
{
    let mut out: String = String::from_str("Serial: st ");
    text::push_dec(&mut out, id as u32);
    out.append(rest);
    out
}

/// The number that the word at `i` spells.
fn number_at(ws: &[&str], i: usize, min: i32, max: i32) -> (r: Option<i32>)
    requires
        -text::NUMERAL_CAP < min <= max < text::NUMERAL_CAP,
    ensures
        match r {
            Some(v) => word_within(text::texts(ws@), i as int, min as int, max as int) == Some(
                v as int,
            ) && min <= v <= max,
            None => word_within(text::texts(ws@), i as int, min as int, max as int) is None,
        },
{
    if i < ws.len() {
        text::parse_within(ws[i], min, max)
    } else {
        None
    }
}

fn read_move_options(ws: &[&str], from: usize) -> (r: (u16, u8))
    requires
        ws@.len() <= MAX_WORDS,
        from <= 3,
    ensures
        r == move_options(text::texts(ws@), from as int, ST_DEFAULT_SPEED, ST_DEFAULT_ACC),
{
    let ghost all = move_options(text::texts(ws@), from as int, ST_DEFAULT_SPEED, ST_DEFAULT_ACC);
    let mut speed: u16 = ST_DEFAULT_SPEED;
    let mut acc: u8 = ST_DEFAULT_ACC;
    let mut i: usize = from;
    while i < ws.len()
        invariant
            ws@.len() <= MAX_WORDS,
            i <= ws@.len() + 3,
            move_options(text::texts(ws@), i as int, speed, acc) == all,
        decreases ws@.len() + 3 - i,
    {
        if text::same(ws[i], "speed") {
            if let Some(v) = number_at(ws, i + 1, 0, 65535) {
                speed = v as u16;
            }
            i = i + 2;
        } else if text::same(ws[i], "acc") {
            if let Some(v) = number_at(ws, i + 1, 0, 255) {
                acc = v as u8;
            }
            i = i + 2;
        } else {
            i = i + 1;
        }
    }
    (speed, acc)
}

fn read_target(word: &str) -> (r: Option<(u8, u16)>)
    ensures
        r == target(word@),
{
    match text::split_once(word, '=') {
        Some((a, b)) => match (
            text::parse_within(a, 0, 255),
            text::parse_within(b, 0, ST_MAX_POS as i32),
        ) {
            (Some(id), Some(pos)) => Some((id as u8, pos as u16)),
            _ => None,
        },
        None => None,
    }
}

fn st_all(ws: &[&str]) -> (r: SerialReply)
    requires
        1 <= ws@.len() <= MAX_WORDS,
    ensures
        r@ == all_reply(text::texts(ws@)),
        r.no_spare_entries(),
{
    let ghost t = text::texts(ws@);
    let ghost all = all_options(t, 1, Seq::empty(), ST_DEFAULT_SPEED, ST_DEFAULT_ACC);
    let mut moves: [(u8, u16); MAX_SERVOS] = [(0, 0); MAX_SERVOS];
    let mut count: usize = 0;
    let mut speed: u16 = ST_DEFAULT_SPEED;
    let mut acc: u8 = ST_DEFAULT_ACC;
    let mut i: usize = 1;
    assert(moves@.take(0) =~= Seq::empty());
    while i < ws.len()
        invariant
            t == text::texts(ws@),
            1 <= ws@.len() <= MAX_WORDS,
            1 <= i <= ws@.len() + 2,
            count <= MAX_SERVOS,
            forall|k: int| count <= k < MAX_SERVOS ==> #[trigger] moves@[k] == (0u8, 0u16),
            all_options(t, i as int, moves@.take(count as int), speed, acc) == all,
        decreases ws@.len() + 2 - i,
    {
        let word = ws[i];
        let ghost before = moves@.take(count as int);
        if text::same(word, "speed") {
            if let Some(v) = number_at(ws, i + 1, 0, 65535) {
                speed = v as u16;
                i = i + 1;
            }
        } else if text::same(word, "acc") {
            if let Some(v) = number_at(ws, i + 1, 0, 255) {
                acc = v as u8;
                i = i + 1;
            }
        } else if let Some((id, pos)) = read_target(word) {
            if count < MAX_SERVOS {
                moves[count] = (id, pos);
                count = count + 1;
                assert(moves@.take(count as int) =~= before.push((id, pos)));
            }
        }
        i = i + 1;
    }
    if count == 0 {
        return saying("usage: st all <id>=<pos> ... [speed <s>] [acc <a>]");
    }
    let mut out: String = String::from_str("Serial: st all ");
    text::push_dec(&mut out, count as u32);
    out.append(" moves @ speed=");
    text::push_dec(&mut out, speed as u32);
    out.append(" acc=");
    text::push_dec(&mut out, acc as u32);
    sending(Command::St3215MoveAll { count: count as u8, moves, speed, acc }, out)
}

fn st_pos(id: u8, ws: &[&str]) -> (r: SerialReply)
    requires
        ws@.len() <= MAX_WORDS,
    ensures
        r@ == pos_reply(id, text::texts(ws@)),
{
    match number_at(ws, 2, 0, 65535) {
        None => saying("usage: st <id> pos <0..=4095> [speed <s>] [acc <a>]"),
        Some(pos) => {
            if pos > ST_MAX_POS as i32 {
                return saying("pos must be 0..=4095");
            }
            let (speed, acc) = read_move_options(ws, 3);
            let mut out: String = st_tag(id, " pos=");
            text::push_dec(&mut out, pos as u32);
            out.append(" speed=");
            text::push_dec(&mut out, speed as u32);
            out.append(" acc=");
            text::push_dec(&mut out, acc as u32);
            sending(Command::St3215Move { id, pos: pos as u16, speed, acc }, out)
        },
    }
}

fn st_wheel(id: u8, ws: &[&str]) -> (r: SerialReply)
    requires
        ws@.len() <= MAX_WORDS,
    ensures
        r@ == wheel_reply(id, text::texts(ws@)),
{
    match number_at(ws, 2, -32768, 32767) {
        None => saying("usage: st <id> wheel <-4095..=4095> [acc <a>]"),
        Some(speed) => {
            if speed < -(ST_MAX_WHEEL_SPEED as i32) || speed > ST_MAX_WHEEL_SPEED as i32 {
                return saying("wheel speed must be -4095..=4095");
            }
            let (_, acc) = read_move_options(ws, 3);
            let mut out: String = st_tag(id, " wheel=");
            text::push_dec_int(&mut out, speed);
            out.append(" acc=");
            text::push_dec(&mut out, acc as u32);
            sending(Command::St3215Wheel { id, wheel_speed: speed as i16, acc }, out)
        },
    }
}

fn st_torque(id: u8, ws: &[&str]) -> (r: SerialReply)
    ensures
        r@ == torque_reply(id, text::texts(ws@)),
{
    if ws.len() <= 2 {
        return saying("usage: st <id> torque <0|1>");
    }
    let enable: bool = text::same(ws[2], "1") || text::same(ws[2], "on") || text::same(
        ws[2],
        "true",
    );
    let mut out: String = st_tag(id, " torque=");
    text::push_bool(&mut out, enable);
    sending(Command::St3215Torque { id, enable }, out)
}

fn st_setid(id: u8, ws: &[&str]) -> (r: SerialReply)
    ensures
        r@ == setid_reply(id, text::texts(ws@)),
{
    match number_at(ws, 2, 0, 255) {
        None => saying("usage: st <id> setid <new>"),
        Some(new) => {
            if new < 1 || new > 253 {
                return saying("new id must be 1..=253");
            }
            let mut out: String = st_tag(id, " setid ");
            text::push_dec(&mut out, new as u32);
            out.append(" (rescan will follow)");
            sending(Command::St3215SetId { current: id, new: new as u8 }, out)
        },
    }
}

fn quoting(front: &str, word: &str) -> (r: SerialReply)
    ensures
        r@ == say(front@ + word@ + "'"@),
{
    let mut out: String = String::from_str(front);
    out.append(word);
    out.append("'");
    SerialReply { action: SerialAction::Nothing, text: out }
}

fn st_servo(id: u8, ws: &[&str]) -> (r: SerialReply)
    requires
        ws@.len() <= MAX_WORDS,
    ensures
        r@ == servo_reply(id, text::texts(ws@)),
{
    if ws.len() < 2 {
        return saying("usage: st <id> <pos|p|torque|t|zero|wheel|servo|setid|ping|state> ...");
    }
    let op = ws[1];
    if text::same(op, "pos") || text::same(op, "p") {
        st_pos(id, ws)
    } else if text::same(op, "torque") || text::same(op, "t") {
        st_torque(id, ws)
    } else if text::same(op, "setid") {
        st_setid(id, ws)
    } else if text::same(op, "zero") {
        sending(Command::St3215Zero { id }, st_tag(id, " zero"))
    } else if text::same(op, "wheel") {
        st_wheel(id, ws)
    } else if text::same(op, "servo") {
        sending(Command::St3215ServoMode { id }, st_tag(id, " servo"))
    } else if text::same(op, "ping") {
        sending(Command::St3215Ping { id }, st_tag(id, " ping"))
    } else if text::same(op, "state") {
        sending(
            Command::St3215Ping { id },
            st_tag(id, " ping (use HTTP /st/state for full state)"),
        )
    } else {
        quoting("Unknown st op: '", op)
    }
}

/// The words of a servo command, where `s` is one.
pub open spec fn st_words(s: Seq<char>) -> Option<Seq<Seq<char>>> {
    match text::after_prefix(text::trimmed(s), "st"@) {
        Some(rest) => Some(kept_words(text::trimmed(rest))),
        None => None,
    }
}

/// Parse an `st ...` command. `None` where it is none.
pub fn parse_st(input: &str) -> (r: Option<SerialReply>)
    ensures
        match st_words(input@) {
            Some(ws) => r matches Some(reply) && reply@ == st_reply(ws)
                && reply.no_spare_entries(),
            None => r is None,
        },
{
    let rest = match text::strip_prefix(text::trim(input), "st") {
        Some(rest) => text::trim(rest),
        None => return None,
    };
    let toks = tokens(rest);
    let ws = bounded::words_as_slice(&toks);
    let ghost t = text::texts(ws@);
    assert(t == kept_words(rest@));
    if ws.len() == 0 {
        return Some(
            saying("usage: st list | scan [from to] | all <id>=<pos> ... | <id> <op> ..."),
        );
    }
    if text::same(ws[0], "list") {
        return Some(
            sending(
                Command::St3215Rescan { from: control::SCAN_FROM, to: control::SCAN_TO },
                String::from_str("Serial: rescanning bus (list will print in main loop)"),
            ),
        );
    }
    if text::same(ws[0], "scan") {
        let from: u8 = match number_at(ws, 1, 0, 255) {
            Some(v) => v as u8,
            None => control::SCAN_FROM,
        };
        let to: u8 = match number_at(ws, 2, 0, 255) {
            Some(v) => v as u8,
            None => control::SCAN_TO,
        };
        let mut out: String = String::from_str("Serial: scan ");
        text::push_dec(&mut out, from as u32);
        out.append("..=");
        text::push_dec(&mut out, to as u32);
        return Some(sending(Command::St3215Rescan { from, to }, out));
    }
    if text::same(ws[0], "all") {
        return Some(st_all(ws));
    }
    match number_at(ws, 0, 0, 255) {
        Some(id) => Some(st_servo(id as u8, ws)),
        None => Some(quoting("Unknown st subcommand: '", ws[0])),
    }
}

// -- Lines -------------------------------------------------------------------

/// Summary of the commands.
pub open spec fn help_text() -> Seq<char> {
    "  Motors: m <p>, ma/mb <p>\n"@
        + "  Servos: st list | st scan | st all <id>=<pos> ... | st <id> pos <v> | st <id> torque <0|1> | st <id> zero | st <id> wheel <s> | st <id> servo | st <id> setid <new> | st <id> ping\n"@
        + "  Radio: wifi <ssid> <password> | wi | ble"@
}

/// Summary of the commands.
pub fn help() -> (r: String)
    ensures
        r@ == help_text(),
{
    let mut out: String = String::from_str("  Motors: m <p>, ma/mb <p>\n");
    out.append(
        "  Servos: st list | st scan | st all <id>=<pos> ... | st <id> pos <v> | st <id> torque <0|1> | st <id> zero | st <id> wheel <s> | st <id> servo | st <id> setid <new> | st <id> ping\n",
    );
    out.append("  Radio: wifi <ssid> <password> | wi | ble");
    out
}

/// What `wifi ...` means, given the words behind it.
pub open spec fn wifi_reply(ws: Seq<Seq<char>>) -> ReplyView {
    if ws.len() != 2 {
        say("usage: wifi <ssid> <password>"@)
    } else if encode_utf8(ws[0]).len() > wifi_config::MAX_SSID_LEN {
        say("WiFi SSID too long (max 32 bytes)"@)
    } else if encode_utf8(ws[1]).len() > wifi_config::MAX_PASSWORD_LEN {
        say("WiFi password too long (max 64 bytes)"@)
    } else {
        ReplyView {
            intent: Intent::Store((ws[0], ws[1])),
            text: "\nSerial: WiFi credentials queued"@,
        }
    }
}

/// What a motor command means.
pub open spec fn motor_reply(motor: char, power: int) -> ReplyView {
    if motor == 'a' {
        order(
            CommandView::Motor(MotorId::A, power as i8),
            "\nSerial: Motor A = "@ + text::dec_int(power) + "%"@,
        )
    } else if motor == 'b' {
        order(
            CommandView::Motor(MotorId::B, power as i8),
            "\nSerial: Motor B = "@ + text::dec_int(power) + "%"@,
        )
    } else {
        order(
            CommandView::MotorsAll(seq![power as i8, power as i8]),
            "\nSerial: All motors = "@ + text::dec_int(power) + "%"@,
        )
    }
}

/// What a line means.
pub open spec fn line_reply(line: Seq<char>) -> ReplyView {
    let cmd = text::trimmed(line);
    if cmd.len() == 0 {
        say(Seq::empty())
    } else if cmd == "wi"@ {
        ReplyView {
            intent: Intent::Radio(RadioMode::Wifi),
            text: "\nSerial: saving WiFi mode and rebooting"@,
        }
    } else if cmd == "ble"@ {
        ReplyView {
            intent: Intent::Radio(RadioMode::Ble),
            text: "\nSerial: saving BLE mode and rebooting"@,
        }
    } else if text::after_prefix(cmd, "wifi "@) is Some {
        wifi_reply(text::words(text::after_prefix(cmd, "wifi "@).unwrap()))
    } else if motor_token(cmd) is Some {
        motor_reply(motor_token(cmd).unwrap().0, motor_token(cmd).unwrap().1)
    } else if st_words(cmd) is Some {
        st_reply(st_words(cmd).unwrap())
    } else {
        say("\nUnknown command: '"@ + cmd + "'\n"@ + help_text())
    }
}

fn store_wifi(rest: &str) -> (r: SerialReply)
    ensures
        r@ == wifi_reply(text::words(rest@)),
{
    let ghost ws = text::words(rest@);
    let (ssid_part, behind) = match text::next_word(rest) {
        Some(pair) => pair,
        None => {
            assert(ws.len() == 0);
            return saying("usage: wifi <ssid> <password>");
        },
    };
    assert(ws == seq![ssid_part@] + text::words(behind@));
    let (password_part, last) = match text::next_word(behind) {
        Some(pair) => pair,
        None => {
            assert(text::words(behind@).len() == 0);
            assert(ws.len() == 1);
            return saying("usage: wifi <ssid> <password>");
        },
    };
    assert(text::words(behind@) == seq![password_part@] + text::words(last@));
    if text::next_word(last).is_some() {
        assert(text::words(last@).len() >= 1);
        assert(ws.len() >= 3);
        return saying("usage: wifi <ssid> <password>");
    }
    assert(text::words(last@).len() == 0);
    assert(ws.len() == 2);
    assert(ws[0] == ssid_part@ && ws[1] == password_part@);
    let ssid = match wifi_config::ssid_from(ssid_part) {
        Some(s) => s,
        None => return saying("WiFi SSID too long (max 32 bytes)"),
    };
    let password = match wifi_config::password_from(password_part) {
        Some(p) => p,
        None => return saying("WiFi password too long (max 64 bytes)"),
    };
    SerialReply {
        action: SerialAction::Store(WifiCredentials { ssid, password }),
        text: String::from_str("\nSerial: WiFi credentials queued"),
    }
}

/// Dispatch a line.
pub fn dispatch(line: &str) -> (r: SerialReply)
    ensures
        r@ == line_reply(line@),
        r.no_spare_entries(),
{
    let cmd = text::trim(line);
    if cmd.is_empty() {
        assert(Seq::<char>::empty() =~= line_reply(line@).text);
        return SerialReply { action: SerialAction::Nothing, text: String::new() };
    }
    if text::same(cmd, "wi") {
        return SerialReply {
            action: SerialAction::Radio(RadioMode::Wifi),
            text: String::from_str("\nSerial: saving WiFi mode and rebooting"),
        };
    }
    if text::same(cmd, "ble") {
        return SerialReply {
            action: SerialAction::Radio(RadioMode::Ble),
            text: String::from_str("\nSerial: saving BLE mode and rebooting"),
        };
    }
    if let Some(rest) = text::strip_prefix(cmd, "wifi ") {
        return store_wifi(rest);
    }
    if let Some((motor, power)) = parse_motor_token(cmd) {
        if motor == 'a' {
            let mut out: String = String::from_str("\nSerial: Motor A = ");
            text::push_dec_int(&mut out, power as i32);
            out.append("%");
            return sending(Command::Motor(MotorId::A, power), out);
        }
        if motor == 'b' {
            let mut out: String = String::from_str("\nSerial: Motor B = ");
            text::push_dec_int(&mut out, power as i32);
            out.append("%");
            return sending(Command::Motor(MotorId::B, power), out);
        }
        let mut out: String = String::from_str("\nSerial: All motors = ");
        text::push_dec_int(&mut out, power as i32);
        out.append("%");
        let powers: [i8; MOTOR_COUNT] = [power; MOTOR_COUNT];
        assert(powers@ =~= seq![power, power]);
        return sending(Command::MotorsAll(powers), out);
    }
    if let Some(reply) = parse_st(cmd) {
        return reply;
    }
    let mut out: String = String::from_str("\nUnknown command: '");
    out.append(cmd);
    out.append("'\n");
    out.append(help().as_str());
    SerialReply { action: SerialAction::Nothing, text: out }
}

/// A multi-servo move names no more targets than there are servos, and only
/// positions within `0..=ST_MAX_POS`.
proof fn lemma_all_options(
    ws: Seq<Seq<char>>,
    i: int,
    moves: Seq<(u8, u16)>,
    speed: u16,
    acc: u8,
)
    requires
        moves.len() <= MAX_SERVOS,
        forall|k: int| 0 <= k < moves.len() ==> (#[trigger] moves[k]).1 <= ST_MAX_POS,
    ensures
        ({
            let out = all_options(ws, i, moves, speed, acc).0;
            &&& out.len() <= MAX_SERVOS
            &&& forall|k: int| 0 <= k < out.len() ==> (#[trigger] out[k]).1 <= ST_MAX_POS
        }),
    decreases ws.len() + 2 - i,
{
    if i >= ws.len() || i < 0 {
    } else if ws[i] == "speed"@ && word_within(ws, i + 1, 0, 65535) is Some {
        lemma_all_options(
            ws,
            i + 2,
            moves,
            or_u16(word_within(ws, i + 1, 0, 65535), speed),
            acc,
        );
    } else if ws[i] == "acc"@ && word_within(ws, i + 1, 0, 255) is Some {
        lemma_all_options(ws, i + 2, moves, speed, or_u8(word_within(ws, i + 1, 0, 255), acc));
    } else if ws[i] != "speed"@ && ws[i] != "acc"@ && target(ws[i]) is Some && moves.len()
        < MAX_SERVOS {
        lemma_all_options(ws, i + 1, moves.push(target(ws[i]).unwrap()), speed, acc);
    } else {
        lemma_all_options(ws, i + 1, moves, speed, acc);
    }
}

/// Whether the values of a command lie within what motors and servos accept:
/// powers within -100..=100, positions within 0..=4095, wheel speeds within
/// -4095..=4095, new IDs within 1..=253, one to sixteen servos moved at once.
pub open spec fn console_range(cmd: CommandView) -> bool {
    match cmd {
        CommandView::Motor(_, p) => -100 <= p <= 100,
        CommandView::MotorsAll(ps) => forall|k: int|
            0 <= k < ps.len() ==> -100 <= #[trigger] ps[k] <= 100,
        CommandView::Move { pos, .. } => pos <= ST_MAX_POS,
        CommandView::MoveAll { moves, .. } => 1 <= moves.len() <= MAX_SERVOS && forall|k: int|
            0 <= k < moves.len() ==> (#[trigger] moves[k]).1 <= ST_MAX_POS,
        CommandView::SetId { new, .. } => 1 <= new <= 253,
        CommandView::Wheel { wheel_speed, .. } => -ST_MAX_WHEEL_SPEED <= wheel_speed
            <= ST_MAX_WHEEL_SPEED,
        _ => true,
    }
}

/// No line makes the console send a command that is out of range.
pub proof fn law_console_commands_are_in_range(line: Seq<char>)
    ensures
        line_reply(line).intent matches Intent::Send(cmd) ==> console_range(cmd),
{
    let cmd = text::trimmed(line);
    if st_words(cmd) is Some {
        let ws = st_words(cmd).unwrap();
        lemma_all_options(ws, 1, Seq::empty(), ST_DEFAULT_SPEED, ST_DEFAULT_ACC);
    }
}

/// The bytes of the line after one more key.
pub open spec fn line_after(line: Seq<u8>, key: u8) -> Seq<u8> {
    if key == 13 || key == 10 {
        Seq::empty()
    } else if line.len() < MAX_LINE {
        line.push(key)
    } else {
        line
    }
}

/// Collects the bytes of a line.
pub struct LineEditor {
    buffer: Vec<u8>,
}

impl View for LineEditor {
    type V = Seq<u8>;

    closed spec fn view(&self) -> Seq<u8> {
        self.buffer@
    }
}

impl LineEditor {
    /// An empty line.
    pub fn new() -> (r: LineEditor)
        ensures
            r@ == Seq::<u8>::empty(),
    {
        LineEditor { buffer: Vec::new() }
    }

    /// Take one key. Carriage return and line feed end the line: it is handed
    /// out when there is one and it is UTF-8. Keys that do not fit are dropped.
    pub fn feed(&mut self, key: u8) -> (r: Option<String>)
        ensures
            final(self)@ == line_after(old(self)@, key),
            match r {
                Some(line) => (key == 13 || key == 10) && old(self)@.len() > 0 && valid_utf8(
                    old(self)@,
                ) && line@ == decode_utf8(old(self)@),
                None => !(key == 13 || key == 10) || old(self)@.len() == 0 || !valid_utf8(
                    old(self)@,
                ),
            },
    {
        broadcast use encode_utf8_decode_utf8;

        if key == 13 || key == 10 {
            let line: Option<String> = if self.buffer.len() > 0 {
                match text::from_utf8(self.buffer.as_slice()) {
                    Some(t) => Some(t.to_owned()),
                    None => None,
                }
            } else {
                None
            };
            self.buffer.clear();
            line
        } else {
            if self.buffer.len() < MAX_LINE {
                self.buffer.push(key);
            }
            None
        }
    }
}

/// The line after several keys.
pub open spec fn line_after_keys(line: Seq<u8>, keys: Seq<u8>) -> Seq<u8>
    decreases keys.len(),
{
    if keys.len() == 0 {
        line
    } else {
        line_after(line_after_keys(line, keys.drop_last()), keys.last())
    }
}

/// A line is what was typed since the last one, up to its capacity.
pub proof fn law_line_is_what_was_typed(keys: Seq<u8>)
    requires
        forall|i: int| 0 <= i < keys.len() ==> keys[i] != 13 && keys[i] != 10,
    ensures
        line_after_keys(Seq::empty(), keys) == (if keys.len() <= MAX_LINE {
            keys
        } else {
            keys.take(MAX_LINE as int)
        }),
    decreases keys.len(),
{
    if keys.len() > 0 {
        let front = keys.drop_last();
        assert forall|i: int| 0 <= i < front.len() implies front[i] != 13 && front[i] != 10 by {
            assert(front[i] == keys[i]);
        }
        law_line_is_what_was_typed(front);
        let now = line_after_keys(Seq::empty(), keys);
        if keys.len() <= MAX_LINE {
            assert(now =~= keys);
        } else {
            assert(now =~= keys.take(MAX_LINE as int));
        }
    }
}

} // verus!
