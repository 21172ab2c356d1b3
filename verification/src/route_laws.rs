//! Where the paths of the REST API lead.
use crate::http_server;
use crate::http_server::{PlanView, RouteView, StatusCode};
use crate::rest_laws;
use crate::text;
use crate::wifi_config::RadioMode;
use vstd::prelude::*;
use vstd::string::*;
use vstd::utf8::*;

verus! {

// -- Routes ------------------------------------------------------------------

/// Paths of one segment.
pub proof fn law_single_segments(name: Seq<char>)
    ensures
        ({
            let route = http_server::routed(seq![name]);
            &&& route is Index <==> name.len() == 0
            &&& route is Favicon <==> name == "favicon.ico"@
            &&& route is Health <==> name == "health"@
            &&& route is Battery <==> name == "battery"@
            &&& route is Config <==> name == "config"@
            &&& route is Motors <==> name == "motors"@
            &&& route is Servo <==> name == "servo"@
            &&& route is Index || route is Favicon || route is Health || route is Battery
                || route is Config || route is Motors || route is Servo || route is Unknown
        }),
{
    reveal_strlit("");
    reveal_strlit("favicon.ico");
    reveal_strlit("health");
    reveal_strlit("battery");
    reveal_strlit("config");
    reveal_strlit("motors");
    reveal_strlit("servo");
    assert("favicon.ico"@.len() == 11 && "health"@.len() == 6 && "battery"@.len() == 7
        && "config"@.len() == 6 && "motors"@.len() == 6 && "servo"@.len() == 5);
    assert("health"@[0] == 'h' && "config"@[0] == 'c' && "motors"@[0] == 'm');
    if name.len() == 0 {
        assert(name =~= ""@);
    }
    assert(seq![name][0] == name);
}

/// Paths of two segments: a radio, a motor, an angle, or something about all
/// servos. An angle that is no number is none at all.
pub proof fn law_two_segments(name: Seq<char>)
    ensures
        http_server::routed(seq!["radio"@, "ble"@]) is RadioBle,
        http_server::routed(seq!["motor"@, name]) == (RouteView::Motor { motor: name }),
        http_server::routed(seq!["servo"@, name]) matches RouteView::ServoAngle { angle } && match (
        http_server::unsigned_numeral(name)) {
            Some(n) => angle == n,
            None => angle < 0,
        },
        http_server::routed(seq!["st"@, name]) is StList <==> name == "list"@,
        http_server::routed(seq!["st"@, name]) is StScan <==> name == "scan"@,
        http_server::routed(seq!["st"@, name]) is StAll <==> name == "all"@,
        http_server::routed(seq!["st"@, name]) is StState <==> name == "state"@,
        name != "list"@ && name != "scan"@ && name != "all"@ && name != "state"@
            ==> http_server::routed(seq!["st"@, name]) is Unknown,
        name != "ble"@ ==> http_server::routed(seq!["radio"@, name]) is Unknown,
{
    lemma_first_words();
    let a = seq!["radio"@, "ble"@];
    assert(a[0] == "radio"@ && a[1] == "ble"@);
    let b = seq!["motor"@, name];
    assert(b[0] == "motor"@ && b[1] == name);
    let d = seq!["servo"@, name];
    assert(d[0] == "servo"@ && d[1] == name);
    let e = seq!["st"@, name];
    assert(e[0] == "st"@ && e[1] == name);
    let f = seq!["radio"@, name];
    assert(f[0] == "radio"@ && f[1] == name);
}

proof fn lemma_first_words()
    ensures
        "radio"@ != "motor"@ && "radio"@ != "servo"@ && "radio"@ != "st"@,
        "motor"@ != "servo"@ && "motor"@ != "st"@ && "servo"@ != "st"@,
        "list"@ != "scan"@ && "list"@ != "all"@ && "list"@ != "state"@,
        "scan"@ != "all"@ && "scan"@ != "state"@ && "all"@ != "state"@,
        "zero"@ != "ping"@,
{
    reveal_strlit("radio");
    reveal_strlit("motor");
    reveal_strlit("servo");
    reveal_strlit("st");
    reveal_strlit("list");
    reveal_strlit("scan");
    reveal_strlit("all");
    reveal_strlit("state");
    reveal_strlit("zero");
    reveal_strlit("ping");
    assert("radio"@[0] == 'r' && "motor"@[0] == 'm' && "servo"@[0] == 's' && "servo"@.len() == 5
        && "st"@.len() == 2);
    assert("list"@[0] == 'l' && "scan"@[0] == 's' && "list"@.len() == 4 && "scan"@.len() == 4
        && "all"@.len() == 3 && "state"@.len() == 5);
    assert("zero"@[0] == 'z' && "ping"@[0] == 'p');
}

/// Paths of three segments: a motor and its power, or a servo and what it is to
/// do.
pub proof fn law_three_segments(d: Seq<char>, id: int, power: int, name: Seq<char>, op: Seq<char>)
    requires
        http_server::unsigned_numeral(d) == Some(id),
    ensures
        http_server::signed_numeral(op) == Some(power) ==> http_server::routed(
            seq!["motor"@, name, op],
        ) == (RouteView::MotorPower { motor: name, power }),
        text::numeral(op) is None ==> http_server::routed(seq!["motor"@, name, op]) is Unknown,
        http_server::routed(seq!["st"@, d, "zero"@]) == (RouteView::StZero { id }),
        http_server::routed(seq!["st"@, d, "ping"@]) == (RouteView::StPing { id }),
        op != "zero"@ && op != "ping"@ ==> http_server::routed(seq!["st"@, d, op]) is Unknown,
        http_server::unsigned_numeral(name) is None ==> http_server::routed(
            seq!["st"@, name, op],
        ) is Unknown,
{
    lemma_first_words();
    let b = seq!["motor"@, name, op];
    assert(b[0] == "motor"@ && b[1] == name && b[2] == op);
    let c = seq!["st"@, d, "zero"@];
    assert(c[0] == "st"@ && c[1] == d && c[2] == "zero"@);
    let g = seq!["st"@, d, "ping"@];
    assert(g[0] == "st"@ && g[1] == d && g[2] == "ping"@);
    let e = seq!["st"@, d, op];
    assert(e[0] == "st"@ && e[1] == d && e[2] == op);
    let f = seq!["st"@, name, op];
    assert(f[0] == "st"@ && f[1] == name && f[2] == op);
}

proof fn lemma_ops()
    ensures
        "pos"@ != "torque"@ && "pos"@ != "wheel"@ && "pos"@ != "mode"@ && "pos"@ != "id"@,
        "torque"@ != "wheel"@ && "torque"@ != "mode"@ && "torque"@ != "id"@,
        "wheel"@ != "mode"@ && "wheel"@ != "id"@ && "mode"@ != "id"@,
{
    reveal_strlit("pos");
    reveal_strlit("torque");
    reveal_strlit("wheel");
    reveal_strlit("mode");
    reveal_strlit("id");
    assert("pos"@.len() == 3 && "torque"@.len() == 6 && "wheel"@.len() == 5 && "mode"@.len() == 4
        && "id"@.len() == 2);
}

/// Paths of four segments: a servo, what it is to do, and a value.
pub proof fn law_four_segments(d: Seq<char>, id: int, v: Seq<char>, value: int, speed: int)
    requires
        http_server::unsigned_numeral(d) == Some(id),
    ensures
        http_server::unsigned_numeral(v) == Some(value) ==> http_server::routed(
            seq!["st"@, d, "pos"@, v],
        ) == (RouteView::StMove { id, pos: value }),
        http_server::unsigned_numeral(v) == Some(value) ==> http_server::routed(
            seq!["st"@, d, "torque"@, v],
        ) == (RouteView::StTorque { id, enable: value }),
        http_server::unsigned_numeral(v) == Some(value) ==> http_server::routed(
            seq!["st"@, d, "id"@, v],
        ) == (RouteView::StSetId { current: id, new: value }),
        http_server::signed_numeral(v) == Some(speed) ==> http_server::routed(
            seq!["st"@, d, "wheel"@, v],
        ) == (RouteView::StWheel { id, wheel_speed: speed }),
        http_server::routed(seq!["st"@, d, "mode"@, "servo"@]) == (RouteView::StServoMode { id }),
{
    lemma_ops();
    let a = seq!["st"@, d, "pos"@, v];
    assert(a[0] == "st"@ && a[1] == d && a[2] == "pos"@ && a[3] == v);
    let b = seq!["st"@, d, "torque"@, v];
    assert(b[0] == "st"@ && b[1] == d && b[2] == "torque"@ && b[3] == v);
    let c = seq!["st"@, d, "wheel"@, v];
    assert(c[0] == "st"@ && c[1] == d && c[2] == "wheel"@ && c[3] == v);
    let e = seq!["st"@, d, "id"@, v];
    assert(e[0] == "st"@ && e[1] == d && e[2] == "id"@ && e[3] == v);
    let f = seq!["st"@, d, "mode"@, "servo"@];
    assert(f[0] == "st"@ && f[1] == d && f[2] == "mode"@ && f[3] == "servo"@);
}

/// Other paths of four segments lead nowhere.
pub proof fn law_other_four_segments(
    first: Seq<char>,
    d: Seq<char>,
    op: Seq<char>,
    last: Seq<char>,
)
    ensures
        last != "servo"@ ==> http_server::routed(seq!["st"@, d, "mode"@, last]) is Unknown,
        op != "pos"@ && op != "torque"@ && op != "wheel"@ && op != "mode"@ && op != "id"@
            ==> http_server::routed(seq!["st"@, d, op, last]) is Unknown,
        op != "mode"@ && text::numeral(last) is None ==> http_server::routed(
            seq!["st"@, d, op, last],
        ) is Unknown,
        op != "mode"@ && op != "wheel"@ && http_server::unsigned_numeral(last) is None
            ==> http_server::routed(seq!["st"@, d, op, last]) is Unknown,
        first != "st"@ ==> http_server::routed(seq![first, d, op, last]) is Unknown,
        http_server::unsigned_numeral(d) is None ==> http_server::routed(
            seq!["st"@, d, op, last],
        ) is Unknown,
{
    lemma_ops();
    let c = seq!["st"@, d, "mode"@, last];
    assert(c[0] == "st"@ && c[1] == d && c[2] == "mode"@ && c[3] == last);
    let e = seq!["st"@, d, op, last];
    assert(e[0] == "st"@ && e[1] == d && e[2] == op && e[3] == last);
    let f = seq![first, d, op, last];
    assert(f[0] == first);
}

/// Longer paths, and paths of two or three segments about anything else, lead
/// nowhere.
pub proof fn law_other_paths(s: Seq<Seq<char>>)
    requires
        s.len() == 0 || s.len() > 4 || (s.len() == 2 && s[0] != "radio"@ && s[0] != "motor"@ && s[0]
            != "servo"@ && s[0] != "st"@) || (s.len() == 3 && s[0] != "motor"@ && s[0] != "st"@),
    ensures
        http_server::routed(s) is Unknown,
{
}

// -- Requests ----------------------------------------------------------------

/// A path that leads nowhere, or that cannot be decoded, is not found, whatever
/// the method; every other path allows nothing but `GET`.
pub proof fn law_methods(
    method: Seq<char>,
    s: Seq<Seq<char>>,
    parts: Seq<Seq<char>>,
    bus_ready: bool,
    list_ready: bool,
)
    ensures
        http_server::handled(method, None, parts, bus_ready, list_ready) is NotFound,
        http_server::routed(s) is Unknown ==> http_server::handled(
            method,
            Some(s),
            parts,
            bus_ready,
            list_ready,
        ) is NotFound,
        !(http_server::routed(s) is Unknown) && method != "GET"@ ==> http_server::handled(
            method,
            Some(s),
            parts,
            bus_ready,
            list_ready,
        ) is MethodNotAllowed,
        !(http_server::routed(s) is Unknown) ==> http_server::handled(
            "GET"@,
            Some(s),
            parts,
            bus_ready,
            list_ready,
        ) == http_server::planned(http_server::routed(s), parts, bus_ready, list_ready),
{
}

/// The requests that are answered without a look at query, bus and list.
pub proof fn law_constant_answers(parts: Seq<Seq<char>>, bus_ready: bool, list_ready: bool)
    ensures
        http_server::planned(RouteView::Index, parts, bus_ready, list_ready) is Page,
        http_server::planned(RouteView::Favicon, parts, bus_ready, list_ready) is NoContent,
        rest_laws::answers(
            http_server::planned(RouteView::Health, parts, bus_ready, list_ready),
            200,
            r#"{"healthy": true}"#@,
        ),
        http_server::planned(RouteView::Battery, parts, bus_ready, list_ready) is SampleBattery,
        rest_laws::answers(
            http_server::planned(RouteView::Config, parts, bus_ready, list_ready),
            200,
            r#"{"motor_mode":"two_motor","motor_count":2,"motors":["a","b"]}"#@,
        ),
        http_server::planned(RouteView::RadioBle, parts, bus_ready, list_ready) matches PlanView::Radio(
            mode,
            response,
        ) && mode == RadioMode::Ble && response.status == StatusCode::Success && response.body
            == r#"{"ok":true,"mode":"ble","rebooting":true}"#@,
        http_server::planned(RouteView::StList, parts, bus_ready, list_ready) is List,
        http_server::planned(RouteView::Unknown, parts, bus_ready, list_ready) is NotFound,
{
}

/// Every other route asks the request that it is named after, with the values
/// that it holds.
pub proof fn law_requests_follow_routes(
    a: int,
    b: int,
    motor: Seq<char>,
    parts: Seq<Seq<char>>,
    bus: bool,
    list: bool,
)
    ensures
        http_server::planned(RouteView::Motors, parts, bus, list) == http_server::motors_plan(parts),
        http_server::planned(RouteView::Motor { motor }, parts, bus, list)
            == http_server::motor_query_plan(motor, parts),
        http_server::planned(RouteView::MotorPower { motor, power: a }, parts, bus, list)
            == http_server::motor_plan(motor, a),
        http_server::planned(RouteView::Servo, parts, bus, list) == http_server::angle_query_plan(
            parts,
        ),
        http_server::planned(RouteView::ServoAngle { angle: a }, parts, bus, list)
            == http_server::angle_plan(a),
        http_server::planned(RouteView::StScan, parts, bus, list) == http_server::st_scan_plan(
            parts,
            bus,
            list,
        ),
        http_server::planned(RouteView::StAll, parts, bus, list) == http_server::st_all_plan(
            parts,
            bus,
        ),
        http_server::planned(RouteView::StState, parts, bus, list) == http_server::st_state_plan(
            bus,
            list,
        ),
        http_server::planned(RouteView::StMove { id: a, pos: b }, parts, bus, list)
            == http_server::st_move_plan(a, b, parts, bus),
        http_server::planned(RouteView::StTorque { id: a, enable: b }, parts, bus, list)
            == http_server::st_torque_plan(a, b, bus),
        http_server::planned(RouteView::StZero { id: a }, parts, bus, list)
            == http_server::st_zero_plan(a, bus),
        http_server::planned(RouteView::StWheel { id: a, wheel_speed: b }, parts, bus, list)
            == http_server::st_wheel_plan(a, b, parts, bus),
        http_server::planned(RouteView::StServoMode { id: a }, parts, bus, list)
            == http_server::st_servo_mode_plan(a, bus),
        http_server::planned(RouteView::StPing { id: a }, parts, bus, list)
            == http_server::st_ping_plan(a, bus),
        http_server::planned(RouteView::StSetId { current: a, new: b }, parts, bus, list)
            == http_server::st_set_id_plan(a, b, bus, list),
{
}

// -- Segments ----------------------------------------------------------------

/// A segment that escapes the byte 0xFF, in whatever case and place, stands for
/// nothing.
pub proof fn law_escaped_ff(a: Seq<char>, x: char, y: char, b: Seq<char>)
    requires
        x == 'f' || x == 'F',
        y == 'f' || y == 'F',
    ensures
        http_server::decoded(a + seq!['%', x, y] + b) is None,
{
    let s = a + seq!['%', x, y] + b;
    let i = a.len() as int;
    assert(s[i] == '%' && s[i + 1] == x && s[i + 2] == y);
    assert(http_server::escapes_ff(s));
}

/// Every other segment stands for what it decodes into.
pub proof fn law_other_escapes(s: Seq<char>)
    requires
        forall|i: int|
            0 <= i < s.len() - 2 && #[trigger] s[i] == '%' ==> !((s[i + 1] == 'f' || s[i + 1] == 'F')
                && (s[i + 2] == 'f' || s[i + 2] == 'F')),
    ensures
        http_server::decoded(s) == http_server::url_decoded(s),
{
}

/// A segment stands for itself where it holds neither `%` nor `+`, up to 128
/// bytes.
pub proof fn law_plain_segments(s: Seq<char>)
    ensures
        http_server::is_plain(s) <==> encode_utf8(s).len() <= 128 && forall|i: int|
            0 <= i < s.len() ==> #[trigger] s[i] != '%' && s[i] != '+',
{
}

/// A path stands for itself where every segment does.
pub proof fn law_plain_paths(rest: Seq<char>, i: int)
    requires
        0 <= i < text::pieces(rest, '/').len(),
    ensures
        http_server::is_plain_path(seq!['/'] + rest) ==> http_server::is_plain(
            text::pieces(rest, '/')[i],
        ),
{
    reveal_strlit("/");
    assert("/"@ =~= seq!['/']);
    let whole = seq!['/'] + rest;
    assert("/"@.is_prefix_of(whole));
    assert(whole.skip(1) =~= rest);
    if http_server::is_plain_path(whole) {
        let behind = text::after_prefix(whole, "/"@).unwrap();
        assert(behind == rest);
        assert(http_server::is_plain(text::pieces(behind, '/')[i]));
    }
}

/// The segments of a path are decoded one by one; where one of them stands for
/// nothing, so does the path.
pub proof fn law_segments_are_decoded(raw: Seq<Seq<char>>, i: int)
    requires
        0 <= i < raw.len(),
    ensures
        http_server::decoded(raw[i]) is None ==> http_server::all_decoded(raw) is None,
        http_server::all_decoded(raw) matches Some(all) ==> all.len() == raw.len() && Some(all[i])
            == http_server::decoded(raw[i]),
    decreases raw.len(),
{
    if i < raw.len() - 1 {
        law_segments_are_decoded(raw.drop_last(), i);
    }
    if raw.len() > 1 {
        law_segments_are_decoded(raw.drop_last(), 0);
    }
}

/// A path of segments that all stand for something does so, too.
pub proof fn law_decodable_paths(raw: Seq<Seq<char>>)
    requires
        forall|i: int| 0 <= i < raw.len() ==> http_server::decoded(#[trigger] raw[i]) is Some,
    ensures
        http_server::all_decoded(raw) is Some,
    decreases raw.len(),
{
    if raw.len() > 0 {
        let front = raw.drop_last();
        assert forall|i: int| 0 <= i < front.len() implies http_server::decoded(
            #[trigger] front[i],
        ) is Some by {
            assert(front[i] == raw[i]);
        }
        law_decodable_paths(front);
        assert(http_server::decoded(raw[raw.len() - 1]) is Some);
    }
}

/// A path begins with `/`; what follows is set apart by `/`.
pub proof fn law_path_segments(rest: Seq<char>, path: Seq<char>)
    ensures
        http_server::path_segments(seq!['/'] + rest) == http_server::all_decoded(
            text::pieces(rest, '/'),
        ),
        http_server::plain_segments(seq!['/'] + rest) == text::pieces(rest, '/'),
        path.len() == 0 || path[0] != '/' ==> http_server::path_segments(path) is None,
        path.len() == 0 || path[0] != '/' ==> !http_server::is_plain_path(path),
{
    reveal_strlit("/");
    assert("/"@ =~= seq!['/']);
    let whole = seq!['/'] + rest;
    assert("/"@.is_prefix_of(whole));
    assert(whole.skip(1) =~= rest);
    if path.len() > 0 && path[0] != '/' {
        assert("/"@[0] == '/');
        assert(!"/"@.is_prefix_of(path));
    }
}

} // verus!
