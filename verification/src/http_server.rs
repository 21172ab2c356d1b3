//! REST API: which request means what, and what is answered.
use crate::battery::BatteryReading;
use crate::bounded;
use crate::bounded::{Move, MoveList, ServoList, MAX_SERVOS};
use crate::commands;
use crate::commands::{Command, CommandView, MotorId, MOTOR_COUNT};
use crate::control;
use crate::control::{BusJob, BusJobView};
use crate::st3215;
use crate::st3215::{ServoState, St3215Error};
use crate::text;
use crate::wifi_config::RadioMode;
use picoserve::url_encoded::UrlEncodedString;
use vstd::prelude::*;
use vstd::string::*;
use vstd::utf8::*;

verus! {

/// Connections served at the same time.
pub const WEB_TASK_POOL_SIZE: usize = 3;

/// Largest position and speed of a servo.
pub const ST_MAX: i32 = 4095;

/// Speed of a move that names none.
pub const ST_DEFAULT_SPEED: u16 = 2000;

/// Acceleration of a move that names none.
pub const ST_DEFAULT_ACC: u8 = 50;

/// Longest path segment, decoded.
pub const MAX_SEGMENT: usize = 128;

/// HTTP status of an answer.
#[derive(Debug, Clone, Copy, PartialEq, Eq, Structural)]
pub enum StatusCode {
    Success,
    BadRequest,
    BadGateway,
    ServiceUnavailable,
}

impl StatusCode {
    /// The number on the wire.
    pub open spec fn number(self) -> u16 {
        match self {
            StatusCode::Success => 200,
            StatusCode::BadRequest => 400,
            StatusCode::BadGateway => 502,
            StatusCode::ServiceUnavailable => 503,
        }
    }

    /// The number on the wire.
    pub fn as_u16(self) -> (r: u16)
        ensures
            r == self.number(),
    {
        match self {
            StatusCode::Success => 200,
            StatusCode::BadRequest => 400,
            StatusCode::BadGateway => 502,
            StatusCode::ServiceUnavailable => 503,
        }
    }
}

/// A JSON answer with one extra header.
#[derive(Debug)]
pub struct JsonResponse {
    pub status: StatusCode,
    pub header: (&'static str, &'static str),
    pub body: String,
}

/// Model of a [`JsonResponse`].
#[verifier::ext_equal]
pub struct JsonView {
    pub status: StatusCode,
    pub header: (Seq<char>, Seq<char>),
    pub body: Seq<char>,
}

impl View for JsonResponse {
    type V = JsonView;

    open spec fn view(&self) -> JsonView {
        JsonView {
            status: self.status,
            header: (self.header.0@, self.header.1@),
            body: self.body@,
        }
    }
}

/// An answer that any page may use.
pub open spec fn json(status: StatusCode, body: Seq<char>) -> JsonView {
    JsonView { status, header: ("Access-Control-Allow-Origin"@, "*"@), body }
}

/// An error answer.
pub open spec fn json_failure(status: StatusCode, message: Seq<char>) -> JsonView {
    json(status, r#"{"ok":false,"error":""#@ + message + r#""}"#@)
}

fn json_response(status: StatusCode, body: String) -> (r: JsonResponse)
    ensures
        r@ == json(status, body@),
{
    JsonResponse { status, header: ("Access-Control-Allow-Origin", "*"), body }
}

fn json_ok(body: &str) -> (r: JsonResponse)
    ensures
        r@ == json(StatusCode::Success, body@),
{
    json_response(StatusCode::Success, body.to_owned())
}

fn json_error(status: StatusCode, message: &str) -> (r: JsonResponse)
    ensures
        r@ == json_failure(status, message@),
{
    let mut body: String = String::from_str(r#"{"ok":false,"error":""#);
    body.append(message);
    body.append(r#""}"#);
    json_response(status, body)
}

// -- Queries -----------------------------------------------------------------

/// The value of the first parameter called `name` among the parts of a query.
pub open spec fn lookup(parts: Seq<Seq<char>>, name: Seq<char>) -> Option<Seq<char>>
    decreases parts.len(),
{
    if parts.len() == 0 {
        None
    } else {
        match text::cut(parts[0], '=') {
            Some((key, value)) => if key == name {
                Some(value)
            } else {
                lookup(parts.skip(1), name)
            },
            None => lookup(parts.skip(1), name),
        }
    }
}

/// The parts of a query.
pub open spec fn query_parts(query: Option<&str>) -> Seq<Seq<char>> {
    match query {
        Some(q) => text::pieces(q@, '&'),
        None => Seq::empty(),
    }
}

/// The parts of a query.
fn parts_of(query: Option<&str>) -> (r: Vec<&str>)
    ensures
        text::texts(r@) == query_parts(query),
{
    match query {
        Some(q) => text::split(q, '&'),
        None => {
            let none: Vec<&str> = Vec::new();
            assert(text::texts(none@) =~= Seq::empty());
            none
        },
    }
}

/// The value of the first parameter called `name`.
pub fn query_value<'a>(query: Option<&'a str>, name: &str) -> (r: Option<&'a str>)
    ensures
        match r {
            Some(v) => lookup(query_parts(query), name@) == Some(v@),
            None => lookup(query_parts(query), name@) is None,
        },
{
    let parts: Vec<&'a str> = parts_of(query);
    let ghost all = query_parts(query);
    let mut i: usize = 0;
    assert(all.skip(0) =~= all);
    while i < parts.len()
        invariant
            i <= parts@.len(),
            all == query_parts(query),
            text::texts(parts@) == all,
            lookup(all.skip(i as int), name@) == lookup(all, name@),
        decreases parts@.len() - i,
    {
        let part = parts[i];
        assert(all.skip(i as int)[0] == part@);
        assert(all.skip(i as int).skip(1) =~= all.skip(i + 1));
        if let Some((key, value)) = text::split_once(part, '=') {
            if text::same(key, name) {
                return Some(value);
            }
        }
        i = i + 1;
    }
    assert(all.skip(i as int) =~= Seq::empty());
    None
}

/// The number that the parameter called `name` holds, within `min..=max`.
pub open spec fn lookup_within(
    parts: Seq<Seq<char>>,
    name: Seq<char>,
    min: int,
    max: int,
) -> Option<int> {
    match lookup(parts, name) {
        Some(v) => text::numeral_within(v, min, max),
        None => None,
    }
}

/// The parameter called `name`, read as a `u8`.
pub fn query_u8(query: Option<&str>, name: &str) -> (r: Option<u8>)
    ensures
        match r {
            Some(v) => lookup_within(query_parts(query), name@, 0, 255) == Some(v as int),
            None => lookup_within(query_parts(query), name@, 0, 255) is None,
        },
{
    match query_value(query, name) {
        Some(v) => text::parse_u8(v),
        None => None,
    }
}

/// The number that a text spells where an unsigned one is wanted, capped. A
/// negative one lies below every range; zero takes no minus sign.
pub open spec fn unsigned_numeral(s: Seq<char>) -> Option<int> {
    match text::numeral(s) {
        Some(n) => if n == 0 && s[0] == '-' {
            None
        } else {
            Some(text::capped(n))
        },
        None => None,
    }
}

/// The number that a text spells, capped.
pub open spec fn signed_numeral(s: Seq<char>) -> Option<int> {
    match text::numeral(s) {
        Some(n) => Some(text::capped(n)),
        None => None,
    }
}

fn read_unsigned(s: &str) -> (r: Option<i32>)
    ensures
        match r {
            Some(v) => unsigned_numeral(s@) == Some(v as int),
            None => unsigned_numeral(s@) is None,
        },
{
    match text::read_numeral(s) {
        Some(v) => {
            if v == 0 && s.get_char(0) == '-' {
                None
            } else {
                Some(v)
            }
        },
        None => None,
    }
}

fn read_signed(s: &str) -> (r: Option<i32>)
    ensures
        match r {
            Some(v) => signed_numeral(s@) == Some(v as int),
            None => signed_numeral(s@) is None,
        },
{
    text::read_numeral(s)
}

/// The unsigned number that the parameter called `name` spells, or `default`.
pub open spec fn lookup_unsigned(parts: Seq<Seq<char>>, name: Seq<char>, default: int) -> int {
    match lookup(parts, name) {
        Some(v) => match unsigned_numeral(v) {
            Some(n) => n,
            None => default,
        },
        None => default,
    }
}

fn query_unsigned(query: Option<&str>, name: &str, default: i32) -> (r: i32)
    ensures
        r == lookup_unsigned(query_parts(query), name@, default as int),
{
    match query_value(query, name) {
        Some(v) => match read_unsigned(v) {
            Some(n) => n,
            None => default,
        },
        None => default,
    }
}

// -- Plans -------------------------------------------------------------------

/// What a request leads to.
#[derive(Debug)]
pub enum Plan {
    /// The embedded controller page.
    Page,
    /// An empty answer.
    NoContent,
    NotFound,
    MethodNotAllowed,
    Respond(JsonResponse),
    /// Send a command to the main loop, and answer.
    Send(Command, JsonResponse),
    /// Store the radio to boot with, reboot, and answer.
    Radio(RadioMode, JsonResponse),
    /// Request a battery sample, then answer by [`battery_response`].
    SampleBattery,
    /// Answer by [`st_list_response`].
    List,
    /// Scan the bus, then answer by [`st_list_response`].
    Scan { from: u8, to: u8 },
    /// Read the state of every discovered servo, then answer by
    /// [`st_state_response`].
    ReadStates,
    /// Carry out a job, then answer by [`st_job_response`].
    Bus(BusJob),
}

/// Model of a [`Plan`].
#[verifier::ext_equal]
pub enum PlanView {
    Page,
    NoContent,
    NotFound,
    MethodNotAllowed,
    Respond(JsonView),
    Send(CommandView, JsonView),
    Radio(RadioMode, JsonView),
    SampleBattery,
    List,
    Scan { from: u8, to: u8 },
    ReadStates,
    Bus(BusJobView),
}

impl View for Plan {
    type V = PlanView;

    open spec fn view(&self) -> PlanView {
        match self {
            Plan::Page => PlanView::Page,
            Plan::NoContent => PlanView::NoContent,
            Plan::NotFound => PlanView::NotFound,
            Plan::MethodNotAllowed => PlanView::MethodNotAllowed,
            Plan::Respond(response) => PlanView::Respond(response@),
            Plan::Send(cmd, response) => PlanView::Send(cmd@, response@),
            Plan::Radio(mode, response) => PlanView::Radio(*mode, response@),
            Plan::SampleBattery => PlanView::SampleBattery,
            Plan::List => PlanView::List,
            Plan::Scan { from, to } => PlanView::Scan { from: *from, to: *to },
            Plan::ReadStates => PlanView::ReadStates,
            Plan::Bus(job) => PlanView::Bus(job@),
        }
    }
}

/// A request that is refused.
pub open spec fn refused(message: Seq<char>) -> PlanView {
    PlanView::Respond(json_failure(StatusCode::BadRequest, message))
}

/// A request that cannot be served yet.
pub open spec fn unavailable(message: Seq<char>) -> PlanView {
    PlanView::Respond(json_failure(StatusCode::ServiceUnavailable, message))
}

fn refuse(message: &str) -> (r: Plan)
    ensures
        r@ == refused(message@),
{
    Plan::Respond(json_error(StatusCode::BadRequest, message))
}

/// A job, where the bus is there to carry it out.
pub open spec fn on_bus(job: BusJobView, bus_ready: bool) -> PlanView {
    if bus_ready {
        PlanView::Bus(job)
    } else {
        unavailable("ST3215 bus not initialized"@)
    }
}

fn with_bus(job: BusJob, bus_ready: bool) -> (r: Plan)
    ensures
        r@ == on_bus(job@, bus_ready),
{
    if bus_ready {
        Plan::Bus(job)
    } else {
        Plan::Respond(json_error(StatusCode::ServiceUnavailable, "ST3215 bus not initialized"))
    }
}

// -- Motors ------------------------------------------------------------------

/// Whether `c` names a motor.
pub fn is_valid_motor_id(c: char) -> (r: bool)
    ensures
        r == (c == 'a' || c == 'b'),
{
    c == 'a' || c == 'b'
}

/// The motor that `c` names.
pub open spec fn motor_named(c: char) -> Option<MotorId> {
    if c == 'a' {
        Some(MotorId::A)
    } else if c == 'b' {
        Some(MotorId::B)
    } else {
        None
    }
}

/// The motor that `motor_id` names.
pub fn motor_id_from_char(motor_id: char) -> (r: Option<MotorId>)
    ensures
        r == motor_named(motor_id),
{
    if motor_id == 'a' {
        Some(MotorId::A)
    } else if motor_id == 'b' {
        Some(MotorId::B)
    } else {
        None
    }
}

/// The single character of a path segment.
pub open spec fn only_char(s: Seq<char>) -> Option<char> {
    if s.len() == 1 {
        Some(s[0])
    } else {
        None
    }
}

/// The motor that a path segment names.
pub open spec fn motor_of(segment: Seq<char>) -> Option<MotorId> {
    match only_char(segment) {
        Some(c) => motor_named(c),
        None => None,
    }
}

/// What setting one motor leads to.
pub open spec fn motor_plan(segment: Seq<char>, power: int) -> PlanView {
    match motor_of(segment) {
        None => refused("Unknown motor id"@),
        Some(id) => if -100 <= power <= 100 {
            PlanView::Send(
                CommandView::Motor(id, power as i8),
                json(
                    StatusCode::Success,
                    r#"{"motor": ""#@ + segment + r#"", "power": "#@ + text::dec_int(power)
                        + "}"@,
                ),
            )
        } else {
            refused("Power must be between -100 and 100"@)
        },
    }
}

/// Set one motor.
pub fn set_motor_power(segment: &str, power: i32) -> (r: Plan)
    ensures
        r@ == motor_plan(segment@, power as int),
{
    if segment.unicode_len() != 1 || !is_valid_motor_id(segment.get_char(0)) {
        return refuse("Unknown motor id");
    }
    if power < -100 || power > 100 {
        return refuse("Power must be between -100 and 100");
    }
    let id: MotorId = match motor_id_from_char(segment.get_char(0)) {
        Some(id) => id,
        None => return refuse("Unknown motor id"),
    };
    let mut body: String = String::from_str(r#"{"motor": ""#);
    body.append(segment);
    body.append(r#"", "power": "#);
    text::push_dec_int(&mut body, power);
    body.append("}");
    Plan::Send(
        Command::Motor(id, power as i8),
        json_response(StatusCode::Success, body),
    )
}

/// What `/motor/<id>?power=<power>` leads to.
pub open spec fn motor_query_plan(segment: Seq<char>, parts: Seq<Seq<char>>) -> PlanView {
    match lookup_within(parts, "power"@, -128, 127) {
        Some(power) => motor_plan(segment, power),
        None => refused(
            "Missing or invalid power parameter. Use /motor/a/50 or /motor/a?power=50"@,
        ),
    }
}

/// Set one motor by query.
pub fn motor_query(segment: &str, query: Option<&str>) -> (r: Plan)
    ensures
        r@ == motor_query_plan(segment@, query_parts(query)),
{
    let power: Option<i8> = match query_value(query, "power") {
        Some(v) => text::parse_i8(v),
        None => None,
    };
    match power {
        Some(power) => set_motor_power(segment, power as i32),
        None => refuse("Missing or invalid power parameter. Use /motor/a/50 or /motor/a?power=50"),
    }
}

/// The powers that the parts of a query name, later ones before earlier ones.
pub open spec fn batch(parts: Seq<Seq<char>>) -> (Option<i8>, Option<i8>)
    decreases parts.len(),
{
    if parts.len() == 0 {
        (None, None)
    } else {
        let before = batch(parts.drop_last());
        match text::cut(parts.last(), '=') {
            Some((key, value)) => match text::numeral_within(value, -100, 100) {
                Some(power) => if key == "a"@ {
                    (Some(power as i8), before.1)
                } else if key == "b"@ {
                    (before.0, Some(power as i8))
                } else {
                    before
                },
                None => before,
            },
            None => before,
        }
    }
}

/// The powers that a query names, if any.
pub fn parse_motors_batch(query: Option<&str>) -> (r: Option<[Option<i8>; MOTOR_COUNT]>)
    ensures
        ({
            let named = batch(query_parts(query));
            match r {
                Some(powers) => (named.0 is Some || named.1 is Some) && powers@ == seq![
                    named.0,
                    named.1,
                ],
                None => named.0 is None && named.1 is None,
            }
        }),
{
    let parts: Vec<&str> = parts_of(query);
    let ghost all = query_parts(query);
    let mut a: Option<i8> = None;
    let mut b: Option<i8> = None;
    let mut i: usize = 0;
    assert(all.take(0) =~= Seq::empty());
    while i < parts.len()
        invariant
            i <= parts@.len(),
            text::texts(parts@) == all,
            (a, b) == batch(all.take(i as int)),
        decreases parts@.len() - i,
    {
        let part = parts[i];
        assert(all.take(i + 1).drop_last() =~= all.take(i as int));
        assert(all.take(i + 1).last() == part@);
        if let Some((key, value)) = text::split_once(part, '=') {
            if let Some(power) = text::parse_within(value, -100, 100) {
                if text::same(key, "a") {
                    a = Some(power as i8);
                } else if text::same(key, "b") {
                    b = Some(power as i8);
                }
            }
        }
        i = i + 1;
    }
    assert(all.take(i as int) =~= all);
    if a.is_none() && b.is_none() {
        return None;
    }
    let powers: [Option<i8>; MOTOR_COUNT] = [a, b];
    assert(powers@ =~= seq![a, b]);
    Some(powers)
}

/// Whether a part names a motor with a power beyond full power.
pub open spec fn excessive_power(part: Seq<char>) -> bool {
    text::cut(part, '=') matches Some((key, value)) && (key == "a"@ || key == "b"@)
        && text::numeral(value) is Some && text::numeral_within(value, -100, 100) is None
}

/// Whether a query names a motor with a power beyond full power.
pub fn has_excessive_power(query: Option<&str>) -> (r: bool)
    ensures
        r == exists|i: int|
            0 <= i < query_parts(query).len() && excessive_power(#[trigger] query_parts(query)[i]),
{
    let parts: Vec<&str> = parts_of(query);
    let ghost all = query_parts(query);
    let mut i: usize = 0;
    while i < parts.len()
        invariant
            i <= parts@.len(),
            all == query_parts(query),
            text::texts(parts@) == all,
            forall|j: int| 0 <= j < i ==> !excessive_power(#[trigger] all[j]),
        decreases parts@.len() - i,
    {
        let part = parts[i];
        assert(all[i as int] == part@);
        if let Some((key, value)) = text::split_once(part, '=') {
            if (text::same(key, "a") || text::same(key, "b")) && text::read_numeral(
                value,
            ).is_some() && text::parse_within(value, -100, 100).is_none() {
                return true;
            }
        }
        i = i + 1;
    }
    false
}

/// A power, or `null` where there is none.
pub open spec fn power_or_null(power: Option<i8>) -> Seq<char> {
    match power {
        Some(p) => text::dec_int(p as int),
        None => "null"@,
    }
}

/// A power, or zero where there is none.
pub open spec fn power_or_zero(power: Option<i8>) -> i8 {
    match power {
        Some(p) => p,
        None => 0,
    }
}

/// What `/motors?...` leads to: motors that are not named stop.
pub open spec fn motors_plan(parts: Seq<Seq<char>>) -> PlanView {
    let (a, b) = batch(parts);
    if exists|i: int| 0 <= i < parts.len() && excessive_power(#[trigger] parts[i]) {
        refused("Power must be between -100 and 100"@)
    } else if a is None && b is None {
        refused("Provide at least one motor param: /motors?a=50&b=-30"@)
    } else {
        PlanView::Send(
            CommandView::MotorsAll(seq![power_or_zero(a), power_or_zero(b)]),
            json(
                StatusCode::Success,
                r#"{"a":"#@ + power_or_null(a) + r#","b":"#@ + power_or_null(b) + "}"@,
            ),
        )
    }
}

fn push_power(out: &mut String, power: Option<i8>)
    ensures
        final(out)@ == old(out)@ + power_or_null(power),
{
    match power {
        Some(p) => text::push_dec_int(out, p as i32),
        None => out.append("null"),
    }
}

/// Set several motors.
pub fn motors(query: Option<&str>) -> (r: Plan)
    ensures
        r@ == motors_plan(query_parts(query)),
{
    if has_excessive_power(query) {
        return refuse("Power must be between -100 and 100");
    }
    match parse_motors_batch(query) {
        Some(parsed) => {
            let a: i8 = match parsed[0] {
                Some(p) => p,
                None => 0,
            };
            let b: i8 = match parsed[1] {
                Some(p) => p,
                None => 0,
            };
            let powers: [i8; MOTOR_COUNT] = [a, b];
            assert(powers@ =~= seq![a, b]);
            let mut body: String = String::from_str(r#"{"a":"#);
            push_power(&mut body, parsed[0]);
            body.append(r#","b":"#);
            push_power(&mut body, parsed[1]);
            body.append("}");
            Plan::Send(Command::MotorsAll(powers), json_response(StatusCode::Success, body))
        },
        None => refuse("Provide at least one motor param: /motors?a=50&b=-30"),
    }
}

// -- Angle -------------------------------------------------------------------

/// Position of an angle: 0 to 180 degrees span 0 to 4095.
pub open spec fn angle_position(angle: int) -> int {
    angle * 4095 / 180
}

/// The answer to a bad angle: an error and nothing else.
pub open spec fn angle_refused(message: Seq<char>) -> PlanView {
    PlanView::Respond(json(StatusCode::BadRequest, r#"{"error":""#@ + message + r#""}"#@))
}

fn refuse_angle(message: &str) -> (r: Plan)
    ensures
        r@ == angle_refused(message@),
{
    let mut body: String = String::from_str(r#"{"error":""#);
    body.append(message);
    body.append(r#""}"#);
    Plan::Respond(json_response(StatusCode::BadRequest, body))
}

/// What setting the angle of servo 1 leads to.
pub open spec fn angle_plan(angle: int) -> PlanView {
    if 0 <= angle <= 180 {
        PlanView::Send(
            CommandView::Move {
                id: 1,
                pos: angle_position(angle) as u16,
                speed: 1000,
                acc: 50,
            },
            json(StatusCode::Success, r#"{"angle": "#@ + text::dec(angle as nat) + "}"@),
        )
    } else {
        angle_refused("Angle must be between 0 and 180"@)
    }
}

/// Set the angle of servo 1.
pub fn set_servo_angle(angle: i32) -> (r: Plan)
    ensures
        r@ == angle_plan(angle as int),
{
    if angle >= 0 && angle <= 180 {
        let pos: u16 = ((angle as u32 * 4095) / 180) as u16;
        let mut body: String = String::from_str(r#"{"angle": "#);
        text::push_dec(&mut body, angle as u32);
        body.append("}");
        Plan::Send(
            Command::St3215Move { id: 1, pos, speed: 1000, acc: 50 },
            json_response(StatusCode::Success, body),
        )
    } else {
        refuse_angle("Angle must be between 0 and 180")
    }
}

/// What `/servo?angle=<angle>` leads to.
pub open spec fn angle_query_plan(parts: Seq<Seq<char>>) -> PlanView {
    match lookup_within(parts, "angle"@, 0, 255) {
        Some(angle) => angle_plan(angle),
        None => angle_refused(
            "Missing or invalid angle parameter. Use /servo/90 or /servo?angle=90"@,
        ),
    }
}

/// Set the angle of servo 1 by query.
pub fn servo_query(query: Option<&str>) -> (r: Plan)
    ensures
        r@ == angle_query_plan(query_parts(query)),
{
    match query_u8(query, "angle") {
        Some(angle) => set_servo_angle(angle as i32),
        None => refuse_angle("Missing or invalid angle parameter. Use /servo/90 or /servo?angle=90"),
    }
}

/// The angles map onto the positions in order, from end to end.
pub proof fn law_angles_span_the_positions(a: int, b: int)
    requires
        0 <= a <= b <= 180,
    ensures
        0 <= angle_position(a) <= angle_position(b) <= 4095,
        angle_position(0) == 0,
        angle_position(180) == 4095,
        a < b ==> angle_position(a) < angle_position(b),
{
}

// -- Servo requests ----------------------------------------------------------

/// Whether `id` belongs to one servo.
pub fn validate_st_id(id: u8) -> (r: bool)
    ensures
        r == commands::valid_servo_id(id as int),
{
    id >= 1 && id <= 253
}

/// The servo ID that a path segment names.
fn servo_id(id: i32) -> (r: Option<u8>)
    ensures
        match r {
            Some(v) => commands::valid_servo_id(id as int) && v == id,
            None => !commands::valid_servo_id(id as int),
        },
{
    if id >= 0 && id <= 255 && validate_st_id(id as u8) {
        Some(id as u8)
    } else {
        None
    }
}

/// Acceleration that a query names.
pub open spec fn query_acc(parts: Seq<Seq<char>>) -> u8 {
    match lookup_within(parts, "acc"@, 0, 255) {
        Some(a) => a as u8,
        None => ST_DEFAULT_ACC,
    }
}

fn acc_of(query: Option<&str>) -> (r: u8)
    ensures
        r == query_acc(query_parts(query)),
{
    match query_u8(query, "acc") {
        Some(a) => a,
        None => ST_DEFAULT_ACC,
    }
}

/// Speed that a query names.
pub open spec fn query_speed(parts: Seq<Seq<char>>) -> int {
    lookup_unsigned(parts, "speed"@, ST_DEFAULT_SPEED as int)
}

/// What `/st/<id>/pos/<pos>` leads to.
pub open spec fn st_move_plan(
    id: int,
    pos: int,
    parts: Seq<Seq<char>>,
    bus_ready: bool,
) -> PlanView {
    if !commands::valid_servo_id(id) || !(0 <= pos <= ST_MAX) {
        refused("Servo ID must be 1-253 and position 0-4095"@)
    } else if !(0 <= query_speed(parts) <= ST_MAX) {
        refused("Speed must be between 0 and 4095"@)
    } else {
        on_bus(
            BusJobView::Move {
                id: id as u8,
                pos: pos as u16,
                speed: query_speed(parts) as u16,
                acc: query_acc(parts),
            },
            bus_ready,
        )
    }
}

/// Move one servo.
pub fn st_move_request(id: i32, pos: i32, query: Option<&str>, bus_ready: bool) -> (r: Plan)
    ensures
        r@ == st_move_plan(id as int, pos as int, query_parts(query), bus_ready),
{
    let id: u8 = match servo_id(id) {
        Some(id) => id,
        None => return refuse("Servo ID must be 1-253 and position 0-4095"),
    };
    if pos < 0 || pos > ST_MAX {
        return refuse("Servo ID must be 1-253 and position 0-4095");
    }
    let speed: i32 = query_unsigned(query, "speed", ST_DEFAULT_SPEED as i32);
    if speed < 0 || speed > ST_MAX {
        return refuse("Speed must be between 0 and 4095");
    }
    with_bus(
        BusJob::Move { id, pos: pos as u16, speed: speed as u16, acc: acc_of(query) },
        bus_ready,
    )
}

/// What `/st/<id>/torque/<enable>` leads to.
pub open spec fn st_torque_plan(id: int, enable: int, bus_ready: bool) -> PlanView {
    if enable != 0 && enable != 1 {
        refused("Torque value must be 0 or 1"@)
    } else if !commands::valid_servo_id(id) {
        refused("Servo ID must be 1-253"@)
    } else {
        on_bus(BusJobView::Torque { id: id as u8, enable: enable == 1 }, bus_ready)
    }
}

/// Switch the torque of one servo.
pub fn st_torque_request(id: i32, enable: i32, bus_ready: bool) -> (r: Plan)
    ensures
        r@ == st_torque_plan(id as int, enable as int, bus_ready),
{
    if enable != 0 && enable != 1 {
        return refuse("Torque value must be 0 or 1");
    }
    match servo_id(id) {
        Some(id) => with_bus(BusJob::Torque { id, enable: enable == 1 }, bus_ready),
        None => refuse("Servo ID must be 1-253"),
    }
}

/// What `/st/<id>/zero` leads to.
pub open spec fn st_zero_plan(id: int, bus_ready: bool) -> PlanView {
    if commands::valid_servo_id(id) {
        on_bus(BusJobView::Zero { id: id as u8 }, bus_ready)
    } else {
        refused("Servo ID must be 1-253"@)
    }
}

/// Calibrate the zero position of one servo.
pub fn st_zero_request(id: i32, bus_ready: bool) -> (r: Plan)
    ensures
        r@ == st_zero_plan(id as int, bus_ready),
{
    match servo_id(id) {
        Some(id) => with_bus(BusJob::Zero { id }, bus_ready),
        None => refuse("Servo ID must be 1-253"),
    }
}

/// What `/st/<id>/wheel/<speed>` leads to.
pub open spec fn st_wheel_plan(
    id: int,
    speed: int,
    parts: Seq<Seq<char>>,
    bus_ready: bool,
) -> PlanView {
    if !commands::valid_servo_id(id) || !(-ST_MAX <= speed <= ST_MAX) {
        refused("Servo ID must be 1-253 and wheel speed -4095..=4095"@)
    } else {
        on_bus(
            BusJobView::Wheel { id: id as u8, wheel_speed: speed as i16, acc: query_acc(parts) },
            bus_ready,
        )
    }
}

/// Rotate one servo continuously.
pub fn st_wheel_request(id: i32, speed: i32, query: Option<&str>, bus_ready: bool) -> (r: Plan)
    ensures
        r@ == st_wheel_plan(id as int, speed as int, query_parts(query), bus_ready),
{
    match servo_id(id) {
        Some(id) => {
            if speed < -ST_MAX || speed > ST_MAX {
                return refuse("Servo ID must be 1-253 and wheel speed -4095..=4095");
            }
            with_bus(
                BusJob::Wheel { id, wheel_speed: speed as i16, acc: acc_of(query) },
                bus_ready,
            )
        },
        None => refuse("Servo ID must be 1-253 and wheel speed -4095..=4095"),
    }
}

/// What `/st/<id>/mode/servo` leads to.
pub open spec fn st_servo_mode_plan(id: int, bus_ready: bool) -> PlanView {
    if commands::valid_servo_id(id) {
        on_bus(BusJobView::ServoMode { id: id as u8 }, bus_ready)
    } else {
        refused("Servo ID must be 1-253"@)
    }
}

/// Return one servo to position control.
pub fn st_servo_mode_request(id: i32, bus_ready: bool) -> (r: Plan)
    ensures
        r@ == st_servo_mode_plan(id as int, bus_ready),
{
    match servo_id(id) {
        Some(id) => with_bus(BusJob::ServoMode { id }, bus_ready),
        None => refuse("Servo ID must be 1-253"),
    }
}

/// What `/st/<id>/ping` leads to.
pub open spec fn st_ping_plan(id: int, bus_ready: bool) -> PlanView {
    if commands::valid_servo_id(id) {
        on_bus(BusJobView::Ping { id: id as u8 }, bus_ready)
    } else {
        refused("Servo ID must be 1-253"@)
    }
}

/// Ping one servo.
pub fn st_ping_request(id: i32, bus_ready: bool) -> (r: Plan)
    ensures
        r@ == st_ping_plan(id as int, bus_ready),
{
    match servo_id(id) {
        Some(id) => with_bus(BusJob::Ping { id }, bus_ready),
        None => refuse("Servo ID must be 1-253"),
    }
}

/// What `/st/<current>/id/<new>` leads to. The list is needed for the scan that
/// follows.
pub open spec fn st_set_id_plan(
    current: int,
    new: int,
    bus_ready: bool,
    list_ready: bool,
) -> PlanView {
    if !commands::valid_servo_id(current) || !commands::valid_servo_id(new) {
        refused("Servo IDs must be 1-253"@)
    } else if bus_ready && !list_ready {
        unavailable("ST3215 list not initialized"@)
    } else {
        on_bus(BusJobView::SetId { current: current as u8, new: new as u8 }, bus_ready)
    }
}

/// Change the ID of one servo.
pub fn st_set_id_request(current: i32, new: i32, bus_ready: bool, list_ready: bool) -> (r: Plan)
    ensures
        r@ == st_set_id_plan(current as int, new as int, bus_ready, list_ready),
{
    match (servo_id(current), servo_id(new)) {
        (Some(current), Some(new)) => {
            if bus_ready && !list_ready {
                return Plan::Respond(
                    json_error(StatusCode::ServiceUnavailable, "ST3215 list not initialized"),
                );
            }
            with_bus(BusJob::SetId { current, new }, bus_ready)
        },
        _ => refuse("Servo IDs must be 1-253"),
    }
}

/// What `/st/scan` leads to.
pub open spec fn st_scan_plan(
    parts: Seq<Seq<char>>,
    bus_ready: bool,
    list_ready: bool,
) -> PlanView {
    let from = lookup_unsigned(parts, "from"@, control::SCAN_FROM as int);
    let to = lookup_unsigned(parts, "to"@, control::SCAN_TO as int);
    if !(1 <= from <= to <= 253) {
        PlanView::Respond(
            json(
                StatusCode::BadRequest,
                r#"{"error":"Scan range must satisfy 1 <= from <= to <= 253"}"#@,
            ),
        )
    } else if !bus_ready {
        PlanView::Respond(
            json(
                StatusCode::ServiceUnavailable,
                r#"{"error":"ST3215 bus not initialized"}"#@,
            ),
        )
    } else if !list_ready {
        PlanView::Respond(
            json(
                StatusCode::ServiceUnavailable,
                r#"{"error":"ST3215 list not initialized"}"#@,
            ),
        )
    } else {
        PlanView::Scan { from: from as u8, to: to as u8 }
    }
}

/// Scan a range of servo IDs.
pub fn st_scan_request(query: Option<&str>, bus_ready: bool, list_ready: bool) -> (r: Plan)
    ensures
        r@ == st_scan_plan(query_parts(query), bus_ready, list_ready),
{
    let from: i32 = query_unsigned(query, "from", control::SCAN_FROM as i32);
    let to: i32 = query_unsigned(query, "to", control::SCAN_TO as i32);
    if from < 1 || from > to || to > 253 {
        return Plan::Respond(
            json_response(
                StatusCode::BadRequest,
                String::from_str(r#"{"error":"Scan range must satisfy 1 <= from <= to <= 253"}"#),
            ),
        );
    }
    if !bus_ready {
        return Plan::Respond(
            json_response(
                StatusCode::ServiceUnavailable,
                String::from_str(r#"{"error":"ST3215 bus not initialized"}"#),
            ),
        );
    }
    if !list_ready {
        return Plan::Respond(
            json_response(
                StatusCode::ServiceUnavailable,
                String::from_str(r#"{"error":"ST3215 list not initialized"}"#),
            ),
        );
    }
    Plan::Scan { from: from as u8, to: to as u8 }
}

/// What `/st/state` leads to.
pub open spec fn st_state_plan(bus_ready: bool, list_ready: bool) -> PlanView {
    if !bus_ready {
        unavailable("ST3215 bus not initialized"@)
    } else if !list_ready {
        unavailable("ST3215 list not initialized"@)
    } else {
        PlanView::ReadStates
    }
}

/// Read the state of every discovered servo.
pub fn st_state_request(bus_ready: bool, list_ready: bool) -> (r: Plan)
    ensures
        r@ == st_state_plan(bus_ready, list_ready),
{
    if !bus_ready {
        return Plan::Respond(
            json_error(StatusCode::ServiceUnavailable, "ST3215 bus not initialized"),
        );
    }
    if !list_ready {
        return Plan::Respond(
            json_error(StatusCode::ServiceUnavailable, "ST3215 list not initialized"),
        );
    }
    Plan::ReadStates
}

/// The target that a part `<id>=<pos>` of a query names: both are numbers, and
/// the part is not one of the options.
pub open spec fn query_target(part: Seq<char>) -> Option<(int, int)> {
    match text::cut(part, '=') {
        Some((key, value)) => if key == "speed"@ || key == "acc"@ {
            None
        } else {
            match (unsigned_numeral(key), unsigned_numeral(value)) {
                (Some(id), Some(pos)) => Some((id, pos)),
                _ => None,
            }
        },
        None => None,
    }
}

/// Whether a part names a target out of range.
pub open spec fn wild_target(part: Seq<char>) -> bool {
    query_target(part) matches Some((id, pos)) && !(commands::valid_servo_id(id) && 0 <= pos <= ST_MAX)
}

/// The targets that the parts of a query name, at most `MAX_SERVOS`.
pub open spec fn query_moves(parts: Seq<Seq<char>>, speed: u16, acc: u8) -> Seq<Move>
    decreases parts.len(),
{
    if parts.len() == 0 {
        Seq::empty()
    } else {
        let before = query_moves(parts.drop_last(), speed, acc);
        match query_target(parts.last()) {
            Some((id, pos)) => if before.len() < MAX_SERVOS {
                before.push((id as u8, pos as u16, speed, acc))
            } else {
                before
            },
            None => before,
        }
    }
}

/// What `/st/all?<id>=<pos>&...` leads to.
pub open spec fn st_all_plan(parts: Seq<Seq<char>>, bus_ready: bool) -> PlanView {
    let speed = query_speed(parts);
    let acc = query_acc(parts);
    if !(0 <= speed <= ST_MAX) {
        refused("Speed must be between 0 and 4095"@)
    } else if exists|i: int| 0 <= i < parts.len() && wild_target(#[trigger] parts[i]) {
        refused("Servo ID must be 1-253 and position 0-4095"@)
    } else {
        let moves = query_moves(parts, speed as u16, acc);
        if moves.len() == 0 {
            refused("Provide at least one servo position, e.g. /st/all?1=2048"@)
        } else {
            on_bus(BusJobView::MoveAll { moves, speed: speed as u16, acc }, bus_ready)
        }
    }
}

fn read_query_target(part: &str) -> (r: Option<(i32, i32)>)
    ensures
        match r {
            Some((id, pos)) => query_target(part@) == Some((id as int, pos as int)),
            None => query_target(part@) is None,
        },
{
    match text::split_once(part, '=') {
        Some((key, value)) => {
            if text::same(key, "speed") || text::same(key, "acc") {
                return None;
            }
            match (read_unsigned(key), read_unsigned(value)) {
                (Some(id), Some(pos)) => Some((id, pos)),
                _ => None,
            }
        },
        None => None,
    }
}

/// Move several servos at once.
pub fn st_all_request(query: Option<&str>, bus_ready: bool) -> (r: Plan)
    ensures
        r@ == st_all_plan(query_parts(query), bus_ready),
{
    let speed: i32 = query_unsigned(query, "speed", ST_DEFAULT_SPEED as i32);
    let acc: u8 = acc_of(query);
    if speed < 0 || speed > ST_MAX {
        return refuse("Speed must be between 0 and 4095");
    }
    let parts: Vec<&str> = parts_of(query);
    let ghost all = query_parts(query);
    let mut moves: MoveList = bounded::move_list_new();
    let mut count: usize = 0;
    let mut i: usize = 0;
    assert(all.take(0) =~= Seq::empty());
    while i < parts.len()
        invariant
            i <= parts@.len(),
            all == query_parts(query),
            text::texts(parts@) == all,
            0 <= speed <= ST_MAX,
            speed == query_speed(all),
            forall|j: int| 0 <= j < i ==> !wild_target(#[trigger] all[j]),
            bounded::move_items(moves) == query_moves(all.take(i as int), speed as u16, acc),
            count == bounded::move_items(moves).len(),
            count <= MAX_SERVOS,
        decreases parts@.len() - i,
    {
        let part = parts[i];
        assert(all[i as int] == part@);
        assert(all.take(i + 1).drop_last() =~= all.take(i as int));
        assert(all.take(i + 1).last() == part@);
        if let Some((id, pos)) = read_query_target(part) {
            match servo_id(id) {
                Some(id) if pos >= 0 && pos <= ST_MAX => {
                    if bounded::move_list_push(&mut moves, (id, pos as u16, speed as u16, acc)).is_ok() {
                        count = count + 1;
                    }
                },
                _ => {
                    assert(wild_target(all[i as int]));
                    return refuse("Servo ID must be 1-253 and position 0-4095");
                },
            }
        }
        i = i + 1;
    }
    assert(all.take(i as int) =~= all);
    if count == 0 {
        return refuse("Provide at least one servo position, e.g. /st/all?1=2048");
    }
    with_bus(BusJob::MoveAll { moves, speed: speed as u16, acc }, bus_ready)
}

// -- Answers -----------------------------------------------------------------

/// The answer to `/health`.
pub fn health_response() -> (r: JsonResponse)
    ensures
        r@ == json(StatusCode::Success, r#"{"healthy": true}"#@),
{
    json_ok(r#"{"healthy": true}"#)
}

/// The answer to `/config`.
pub fn config_response() -> (r: JsonResponse)
    ensures
        r@ == json(
            StatusCode::Success,
            r#"{"motor_mode":"two_motor","motor_count":2,"motors":["a","b"]}"#@,
        ),
{
    json_ok(r#"{"motor_mode":"two_motor","motor_count":2,"motors":["a","b"]}"#)
}

/// Volts with two decimals, millivolts and percentage.
pub open spec fn battery_body(b: BatteryReading) -> Seq<char> {
    r#"{"voltage":""#@ + text::dec((b.mv / 1000) as nat) + "."@ + text::dec2(
        ((b.mv % 1000) / 10) as nat,
    ) + r#"","voltage_mv":"#@ + text::dec(b.mv as nat) + r#","percentage":"#@ + text::dec(
        b.pct as nat,
    ) + "}"@
}

/// The answer to `/battery`.
pub fn battery_response(b: BatteryReading) -> (r: JsonResponse)
    ensures
        r@ == json(StatusCode::Success, battery_body(b)),
{
    let mut body: String = String::from_str(r#"{"voltage":""#);
    text::push_dec(&mut body, b.mv as u32 / 1000);
    body.append(".");
    text::push_dec2(&mut body, (b.mv as u32 % 1000) / 10);
    body.append(r#"","voltage_mv":"#);
    text::push_dec(&mut body, b.mv as u32);
    body.append(r#","percentage":"#);
    text::push_dec(&mut body, b.pct as u32);
    body.append("}");
    json_response(StatusCode::Success, body)
}

/// What `/radio/ble` leads to.
pub fn radio_ble_request() -> (r: Plan)
    ensures
        r@ == PlanView::Radio(
            RadioMode::Ble,
            json(StatusCode::Success, r#"{"ok":true,"mode":"ble","rebooting":true}"#@),
        ),
{
    Plan::Radio(RadioMode::Ble, json_ok(r#"{"ok":true,"mode":"ble","rebooting":true}"#))
}

/// A list of servo IDs.
pub open spec fn list_body(ids: Seq<u8>) -> Seq<char> {
    r#"{"ids":["#@ + text::joined(ids, ","@) + "]}"@
}

/// A list of servo IDs.
pub fn st_list_body(ids: &[u8]) -> (r: String)
    ensures
        r@ == list_body(ids@),
{
    let mut body: String = String::from_str(r#"{"ids":["#);
    text::push_joined(&mut body, ids, ",");
    body.append("]}");
    body
}

/// The answer to `/st/list`, and to `/st/scan` after the scan.
pub fn st_list_response(list: Option<&ServoList>) -> (r: JsonResponse)
    ensures
        r@ == (match list {
            Some(l) => json(StatusCode::Success, list_body(bounded::servo_ids(*l))),
            None => json(
                StatusCode::ServiceUnavailable,
                r#"{"error":"ST3215 list not initialized"}"#@,
            ),
        }),
{
    match list {
        Some(l) => json_response(
            StatusCode::Success,
            st_list_body(bounded::servo_list_as_slice(l)),
        ),
        None => json_response(
            StatusCode::ServiceUnavailable,
            String::from_str(r#"{"error":"ST3215 list not initialized"}"#),
        ),
    }
}

/// The state of one servo, or why it could not be read.
pub open spec fn state_entry(id: u8, read: Result<ServoState, St3215Error>) -> Seq<char> {
    match read {
        Ok(st) => r#"{"id":"#@ + text::dec(id as nat) + r#","pos":"#@ + text::dec_int(
            st.pos as int,
        ) + r#","speed":"#@ + text::dec_int(st.speed as int) + r#","load":"#@ + text::dec_int(
            st.load as int,
        ) + r#","voltage":"#@ + text::dec(st.voltage as nat) + r#","temp":"#@ + text::dec(
            st.temp as nat,
        ) + "}"@,
        Err(e) => r#"{"id":"#@ + text::dec(id as nat) + r#","error":""#@ + st3215::error_name(e)
            + r#""}"#@,
    }
}

/// The states of several servos, separated by commas.
pub open spec fn state_entries(
    reads: Seq<(u8, Result<ServoState, St3215Error>)>,
) -> Seq<char>
    decreases reads.len(),
{
    if reads.len() == 0 {
        Seq::empty()
    } else if reads.len() == 1 {
        state_entry(reads[0].0, reads[0].1)
    } else {
        state_entries(reads.drop_last()) + ","@ + state_entry(reads.last().0, reads.last().1)
    }
}

fn push_state_entry(out: &mut String, id: u8, read: &Result<ServoState, St3215Error>)
    ensures
        final(out)@ == old(out)@ + state_entry(id, *read),
{
    out.append(r#"{"id":"#);
    text::push_dec(out, id as u32);
    match read {
        Ok(st) => {
            out.append(r#","pos":"#);
            text::push_dec_int(out, st.pos as i32);
            out.append(r#","speed":"#);
            text::push_dec_int(out, st.speed as i32);
            out.append(r#","load":"#);
            text::push_dec_int(out, st.load as i32);
            out.append(r#","voltage":"#);
            text::push_dec(out, st.voltage as u32);
            out.append(r#","temp":"#);
            text::push_dec(out, st.temp as u32);
            out.append("}");
        },
        Err(e) => {
            out.append(r#","error":""#);
            let name: String = e.name();
            out.append(name.as_str());
            out.append(r#""}"#);
        },
    }
    assert(out@ =~= old(out)@ + state_entry(id, *read));
}

/// The answer to `/st/state`, once every servo has been read.
pub fn st_state_response(reads: &[(u8, Result<ServoState, St3215Error>)]) -> (r: JsonResponse)
    ensures
        r@ == json(
            StatusCode::Success,
            r#"{"servos":["#@ + state_entries(reads@) + "]}"@,
        ),
{
    let mut body: String = String::from_str(r#"{"servos":["#);
    let ghost front = body@;
    let mut i: usize = 0;
    assert(reads@.take(0) =~= Seq::empty());
    assert(body@ =~= front + state_entries(reads@.take(0)));
    while i < reads.len()
        invariant
            i <= reads@.len(),
            body@ == front + state_entries(reads@.take(i as int)),
        decreases reads@.len() - i,
    {
        let ghost head = reads@.take(i + 1);
        assert(head.drop_last() =~= reads@.take(i as int));
        if i > 0 {
            body.append(",");
        }
        push_state_entry(&mut body, reads[i].0, &reads[i].1);
        assert(body@ =~= front + state_entries(head));
        i = i + 1;
    }
    assert(reads@.take(reads@.len() as int) =~= reads@);
    body.append("]}");
    json_response(StatusCode::Success, body)
}

/// The answer to a job that succeeded.
pub open spec fn job_body(job: BusJobView) -> Seq<char> {
    match job {
        BusJobView::Move { id, pos, speed, acc } => r#"{"ok":true,"id":"#@ + text::dec(id as nat)
            + r#","pos":"#@ + text::dec(pos as nat) + r#","speed":"#@ + text::dec(speed as nat)
            + r#","acc":"#@ + text::dec(acc as nat) + "}"@,
        BusJobView::MoveAll { moves, .. } => r#"{"ok":true,"count":"#@ + text::dec(moves.len())
            + "}"@,
        BusJobView::Torque { id, enable } => r#"{"ok":true,"id":"#@ + text::dec(id as nat)
            + r#","torque":"#@ + text::bool_text(enable) + "}"@,
        BusJobView::SetId { current, new } => r#"{"ok":true,"current":"#@ + text::dec(
            current as nat,
        ) + r#","new":"#@ + text::dec(new as nat) + "}"@,
        BusJobView::Ping { id } => r#"{"ok":true,"id":"#@ + text::dec(id as nat) + "}"@,
        BusJobView::Zero { id } => r#"{"ok":true,"id":"#@ + text::dec(id as nat)
            + r#","zero":true}"#@,
        BusJobView::Wheel { id, wheel_speed, acc } => r#"{"ok":true,"id":"#@ + text::dec(id as nat)
            + r#","wheel_speed":"#@ + text::dec_int(wheel_speed as int) + r#","acc":"#@ + text::dec(
            acc as nat,
        ) + "}"@,
        BusJobView::ServoMode { id } => r#"{"ok":true,"id":"#@ + text::dec(id as nat)
            + r#","mode":"servo"}"#@,
    }
}

/// The servo that a job is about, if it is about one.
pub open spec fn job_servo(job: BusJobView) -> Option<u8> {
    match job {
        BusJobView::Move { id, .. } => Some(id),
        BusJobView::MoveAll { .. } => None,
        BusJobView::Torque { id, .. } => Some(id),
        BusJobView::SetId { current, .. } => Some(current),
        BusJobView::Ping { id } => Some(id),
        BusJobView::Zero { id } => Some(id),
        BusJobView::Wheel { id, .. } => Some(id),
        BusJobView::ServoMode { id } => Some(id),
    }
}

/// The answer to a job that failed.
pub open spec fn job_failure_body(job: BusJobView, e: St3215Error) -> Seq<char> {
    match job_servo(job) {
        Some(id) => r#"{"ok":false,"id":"#@ + text::dec(id as nat) + r#","error":""#@
            + st3215::error_name(e) + r#""}"#@,
        None => r#"{"ok":false,"error":""#@ + st3215::error_name(e) + r#""}"#@,
    }
}

fn servo_of(job: &BusJob) -> (r: Option<u8>)
    ensures
        r == job_servo(job@),
{
    match job {
        BusJob::Move { id, .. } => Some(*id),
        BusJob::MoveAll { .. } => None,
        BusJob::Torque { id, .. } => Some(*id),
        BusJob::SetId { current, .. } => Some(*current),
        BusJob::Ping { id } => Some(*id),
        BusJob::Zero { id } => Some(*id),
        BusJob::Wheel { id, .. } => Some(*id),
        BusJob::ServoMode { id } => Some(*id),
    }
}

fn ok_with_id(id: u8, rest: &str) -> (r: String)
    ensures
        r@ == r#"{"ok":true,"id":"#@ + text::dec(id as nat) + rest@,
{
    let mut body: String = String::from_str(r#"{"ok":true,"id":"#);
    text::push_dec(&mut body, id as u32);
    body.append(rest);
    body
}

fn success_body(job: &BusJob) -> (r: String)
    ensures
        r@ == job_body(job@),
{
    match job {
        BusJob::Move { id, pos, speed, acc } => {
            let mut body: String = ok_with_id(*id, r#","pos":"#);
            text::push_dec(&mut body, *pos as u32);
            body.append(r#","speed":"#);
            text::push_dec(&mut body, *speed as u32);
            body.append(r#","acc":"#);
            text::push_dec(&mut body, *acc as u32);
            body.append("}");
            body
        },
        BusJob::MoveAll { moves, .. } => {
            let mut body: String = String::from_str(r#"{"ok":true,"count":"#);
            text::push_dec(&mut body, bounded::move_list_as_slice(moves).len() as u32);
            body.append("}");
            body
        },
        BusJob::Torque { id, enable } => {
            let mut body: String = ok_with_id(*id, r#","torque":"#);
            text::push_bool(&mut body, *enable);
            body.append("}");
            body
        },
        BusJob::SetId { current, new } => {
            let mut body: String = String::from_str(r#"{"ok":true,"current":"#);
            text::push_dec(&mut body, *current as u32);
            body.append(r#","new":"#);
            text::push_dec(&mut body, *new as u32);
            body.append("}");
            body
        },
        BusJob::Ping { id } => ok_with_id(*id, "}"),
        BusJob::Zero { id } => ok_with_id(*id, r#","zero":true}"#),
        BusJob::Wheel { id, wheel_speed, acc } => {
            let mut body: String = ok_with_id(*id, r#","wheel_speed":"#);
            text::push_dec_int(&mut body, *wheel_speed as i32);
            body.append(r#","acc":"#);
            text::push_dec(&mut body, *acc as u32);
            body.append("}");
            body
        },
        BusJob::ServoMode { id } => ok_with_id(*id, r#","mode":"servo"}"#),
    }
}

/// The answer to a job: a failure on the bus is the gateway's.
pub fn st_job_response(job: &BusJob, outcome: Result<(), St3215Error>) -> (r: JsonResponse)
    ensures
        r@ == (match outcome {
            Ok(_) => json(StatusCode::Success, job_body(job@)),
            Err(e) => json(StatusCode::BadGateway, job_failure_body(job@, e)),
        }),
{
    match outcome {
        Ok(_) => json_response(StatusCode::Success, success_body(job)),
        Err(e) => {
            let name: String = e.name();
            let mut body: String = match servo_of(job) {
                Some(id) => {
                    let mut body: String = String::from_str(r#"{"ok":false,"id":"#);
                    text::push_dec(&mut body, id as u32);
                    body.append(r#","error":""#);
                    body
                },
                None => String::from_str(r#"{"ok":false,"error":""#),
            };
            body.append(name.as_str());
            body.append(r#""}"#);
            json_response(StatusCode::BadGateway, body)
        },
    }
}

// -- Routing -----------------------------------------------------------------

/// What a path segment decodes to: `+` stands for a blank and `%` introduces a
/// byte in hexadecimal. `None` where it does not decode or is too long. Nothing
/// is said of a segment that escapes the byte 0xFF.
pub uninterp spec fn url_decoded(segment: Seq<char>) -> Option<Seq<char>>;

/// Whether a path segment stands for itself.
pub open spec fn is_plain(segment: Seq<char>) -> bool {
    &&& forall|i: int| 0 <= i < segment.len() ==> segment[i] != '%' && segment[i] != '+'
    &&& encode_utf8(segment).len() <= MAX_SEGMENT
}

/// Whether `c` is the hexadecimal digit F.
pub open spec fn is_f(c: char) -> bool {
    c == 'f' || c == 'F'
}

/// Whether a path segment escapes the byte 0xFF, which occurs in no text.
pub open spec fn escapes_ff(segment: Seq<char>) -> bool {
    exists|i: int|
        0 <= i < segment.len() - 2 && (#[trigger] segment[i]) == '%' && is_f(segment[i + 1])
            && is_f(segment[i + 2])
}

/// Whether the segment escapes the byte 0xFF.
fn has_ff_escape(segment: &str) -> (r: bool)
    ensures
        r == escapes_ff(segment@),
{
    let n: usize = segment.unicode_len();
    let mut i: usize = 0;
    while i + 2 < n
        invariant
            n == segment@.len(),
            i <= n,
            i + 2 <= usize::MAX,
            forall|j: int|
                0 <= j < i && j < n - 2 && (#[trigger] segment@[j]) == '%' ==> !(is_f(segment@[j + 1])
                    && is_f(segment@[j + 2])),
        decreases n - i,
    {
        if segment.get_char(i) == '%' {
            let a: char = segment.get_char(i + 1);
            let b: char = segment.get_char(i + 2);
            if (a == 'f' || a == 'F') && (b == 'f' || b == 'F') {
                return true;
            }
        }
        i = i + 1;
    }
    false
}

/// `picoserve::url_encoded::UrlEncodedString::try_into_string`: the decoded
/// text, where the segment decodes into at most [`MAX_SEGMENT`] bytes. A
/// segment without `%` and `+` that is short enough decodes into itself. The
/// byte 0xFF, escaped, would be shifted by its own width.
#[verifier::external_body]
fn url_decode(segment: &str) -> (r: Option<String>)
    requires
        !escapes_ff(segment@),
    ensures
        match r {
            Some(t) => url_decoded(segment@) == Some(t@),
            None => url_decoded(segment@) is None,
        },
        is_plain(segment@) ==> r is Some && r.unwrap()@ == segment@,
{
    UrlEncodedString(segment).try_into_string::<MAX_SEGMENT>().ok().map(|t| String::from(t.as_str()))
}

/// What a path segment stands for, if anything.
pub open spec fn decoded(segment: Seq<char>) -> Option<Seq<char>> {
    if escapes_ff(segment) {
        None
    } else {
        url_decoded(segment)
    }
}

/// What a path segment stands for, if anything.
fn decode_segment(segment: &str) -> (r: Option<String>)
    ensures
        match r {
            Some(t) => decoded(segment@) == Some(t@),
            None => decoded(segment@) is None,
        },
        is_plain(segment@) ==> r is Some && r.unwrap()@ == segment@,
{
    if has_ff_escape(segment) {
        return None;
    }
    url_decode(segment)
}

/// The texts of a list of strings.
pub open spec fn strings(list: Seq<String>) -> Seq<Seq<char>> {
    list.map_values(|t: String| t@)
}

/// The decoded forms of several path segments, where all of them decode.
pub open spec fn all_decoded(raw: Seq<Seq<char>>) -> Option<Seq<Seq<char>>>
    decreases raw.len(),
{
    if raw.len() == 0 {
        Some(Seq::empty())
    } else {
        match (all_decoded(raw.drop_last()), decoded(raw.last())) {
            (Some(front), Some(last)) => Some(front.push(last)),
            _ => None,
        }
    }
}

/// The decoded segments of a path.
pub open spec fn path_segments(path: Seq<char>) -> Option<Seq<Seq<char>>> {
    match text::after_prefix(path, "/"@) {
        Some(rest) => all_decoded(text::pieces(rest, '/')),
        None => None,
    }
}

/// Whether every segment of a path stands for itself.
pub open spec fn is_plain_path(path: Seq<char>) -> bool {
    text::after_prefix(path, "/"@) matches Some(rest) && forall|i: int|
        0 <= i < text::pieces(rest, '/').len() ==> is_plain(#[trigger] text::pieces(rest, '/')[i])
}

/// The segments of a path as they are written.
pub open spec fn plain_segments(path: Seq<char>) -> Seq<Seq<char>> {
    text::pieces(text::after_prefix(path, "/"@).unwrap(), '/')
}

proof fn lemma_undecodable(raw: Seq<Seq<char>>, i: int)
    requires
        0 < i <= raw.len(),
        decoded(raw[i - 1]) is None,
    ensures
        all_decoded(raw) is None,
    decreases raw.len(),
{
    if i < raw.len() {
        lemma_undecodable(raw.drop_last(), i);
    }
}

/// The decoded segments of a path.
fn decode_path(path: &str) -> (r: Option<Vec<String>>)
    ensures
        match r {
            Some(v) => path_segments(path@) == Some(strings(v@)),
            None => path_segments(path@) is None,
        },
        is_plain_path(path@) ==> r is Some && path_segments(path@) == Some(plain_segments(path@)),
{
    let rest = match text::strip_prefix(path, "/") {
        Some(rest) => rest,
        None => return None,
    };
    let raw: Vec<&str> = text::split(rest, '/');
    let ghost all = text::pieces(rest@, '/');
    let mut out: Vec<String> = Vec::new();
    let mut i: usize = 0;
    assert(all.take(0) =~= Seq::empty());
    assert(strings(out@) =~= Seq::empty());
    while i < raw.len()
        invariant
            i <= raw@.len(),
            text::texts(raw@) == all,
            text::after_prefix(path@, "/"@) is Some,
            all == plain_segments(path@),
            all_decoded(all.take(i as int)) == Some(strings(out@)),
            path_segments(path@) == all_decoded(all),
            is_plain_path(path@) ==> strings(out@) == all.take(i as int),
        decreases raw@.len() - i,
    {
        assert(all[i as int] == raw@[i as int]@);
        match decode_segment(raw[i]) {
            Some(t) => {
                let ghost before = strings(out@);
                out.push(t);
                assert(strings(out@) =~= before.push(t@));
                assert(all.take(i + 1).drop_last() =~= all.take(i as int));
                assert(all.take(i + 1).last() == all[i as int]);
                assert(is_plain_path(path@) ==> strings(out@) =~= all.take(i + 1));
            },
            None => {
                proof {
                    lemma_undecodable(all, i + 1);
                }
                return None;
            },
        }
        i = i + 1;
    }
    assert(all.take(i as int) =~= all);
    Some(out)
}

/// What a path is about.
#[derive(Debug)]
pub enum Route {
    Index,
    Favicon,
    Health,
    Battery,
    Config,
    RadioBle,
    Motors,
    Motor { motor: String },
    MotorPower { motor: String, power: i32 },
    Servo,
    ServoAngle { angle: i32 },
    StList,
    StScan,
    StAll,
    StState,
    StMove { id: i32, pos: i32 },
    StTorque { id: i32, enable: i32 },
    StZero { id: i32 },
    StWheel { id: i32, wheel_speed: i32 },
    StServoMode { id: i32 },
    StPing { id: i32 },
    StSetId { current: i32, new: i32 },
    Unknown,
}

/// Model of a [`Route`].
#[verifier::ext_equal]
pub enum RouteView {
    Index,
    Favicon,
    Health,
    Battery,
    Config,
    RadioBle,
    Motors,
    Motor { motor: Seq<char> },
    MotorPower { motor: Seq<char>, power: int },
    Servo,
    ServoAngle { angle: int },
    StList,
    StScan,
    StAll,
    StState,
    StMove { id: int, pos: int },
    StTorque { id: int, enable: int },
    StZero { id: int },
    StWheel { id: int, wheel_speed: int },
    StServoMode { id: int },
    StPing { id: int },
    StSetId { current: int, new: int },
    Unknown,
}

impl View for Route {
    type V = RouteView;

    open spec fn view(&self) -> RouteView {
        match self {
            Route::Index => RouteView::Index,
            Route::Favicon => RouteView::Favicon,
            Route::Health => RouteView::Health,
            Route::Battery => RouteView::Battery,
            Route::Config => RouteView::Config,
            Route::RadioBle => RouteView::RadioBle,
            Route::Motors => RouteView::Motors,
            Route::Motor { motor } => RouteView::Motor { motor: motor@ },
            Route::MotorPower { motor, power } => RouteView::MotorPower {
                motor: motor@,
                power: *power as int,
            },
            Route::Servo => RouteView::Servo,
            Route::ServoAngle { angle } => RouteView::ServoAngle { angle: *angle as int },
            Route::StList => RouteView::StList,
            Route::StScan => RouteView::StScan,
            Route::StAll => RouteView::StAll,
            Route::StState => RouteView::StState,
            Route::StMove { id, pos } => RouteView::StMove { id: *id as int, pos: *pos as int },
            Route::StTorque { id, enable } => RouteView::StTorque {
                id: *id as int,
                enable: *enable as int,
            },
            Route::StZero { id } => RouteView::StZero { id: *id as int },
            Route::StWheel { id, wheel_speed } => RouteView::StWheel {
                id: *id as int,
                wheel_speed: *wheel_speed as int,
            },
            Route::StServoMode { id } => RouteView::StServoMode { id: *id as int },
            Route::StPing { id } => RouteView::StPing { id: *id as int },
            Route::StSetId { current, new } => RouteView::StSetId {
                current: *current as int,
                new: *new as int,
            },
            Route::Unknown => RouteView::Unknown,
        }
    }
}

/// What a path of one segment is about.
pub open spec fn route1(s: Seq<Seq<char>>) -> RouteView {
    if s[0] == ""@ {
        RouteView::Index
    } else if s[0] == "favicon.ico"@ {
        RouteView::Favicon
    } else if s[0] == "health"@ {
        RouteView::Health
    } else if s[0] == "battery"@ {
        RouteView::Battery
    } else if s[0] == "config"@ {
        RouteView::Config
    } else if s[0] == "motors"@ {
        RouteView::Motors
    } else if s[0] == "servo"@ {
        RouteView::Servo
    } else {
        RouteView::Unknown
    }
}

/// What a path of two segments is about. An angle that is no number is out of
/// range.
pub open spec fn route2(s: Seq<Seq<char>>) -> RouteView {
    if s[0] == "radio"@ && s[1] == "ble"@ {
        RouteView::RadioBle
    } else if s[0] == "motor"@ {
        RouteView::Motor { motor: s[1] }
    } else if s[0] == "servo"@ {
        RouteView::ServoAngle {
            angle: match unsigned_numeral(s[1]) {
                Some(angle) => angle,
                None => -1,
            },
        }
    } else if s[0] == "st"@ && s[1] == "list"@ {
        RouteView::StList
    } else if s[0] == "st"@ && s[1] == "scan"@ {
        RouteView::StScan
    } else if s[0] == "st"@ && s[1] == "all"@ {
        RouteView::StAll
    } else if s[0] == "st"@ && s[1] == "state"@ {
        RouteView::StState
    } else {
        RouteView::Unknown
    }
}

/// What a path of three segments is about.
pub open spec fn route3(s: Seq<Seq<char>>) -> RouteView {
    if s[0] == "motor"@ && signed_numeral(s[2]) is Some {
        RouteView::MotorPower { motor: s[1], power: signed_numeral(s[2]).unwrap() }
    } else if s[0] == "st"@ && unsigned_numeral(s[1]) is Some && s[2] == "zero"@ {
        RouteView::StZero { id: unsigned_numeral(s[1]).unwrap() }
    } else if s[0] == "st"@ && unsigned_numeral(s[1]) is Some && s[2] == "ping"@ {
        RouteView::StPing { id: unsigned_numeral(s[1]).unwrap() }
    } else {
        RouteView::Unknown
    }
}

/// What a path of four segments is about.
pub open spec fn route4(s: Seq<Seq<char>>) -> RouteView {
    let id = unsigned_numeral(s[1]);
    let value = unsigned_numeral(s[3]);
    if s[0] != "st"@ || id is None {
        RouteView::Unknown
    } else if s[2] == "pos"@ && value is Some {
        RouteView::StMove { id: id.unwrap(), pos: value.unwrap() }
    } else if s[2] == "torque"@ && value is Some {
        RouteView::StTorque { id: id.unwrap(), enable: value.unwrap() }
    } else if s[2] == "wheel"@ && signed_numeral(s[3]) is Some {
        RouteView::StWheel { id: id.unwrap(), wheel_speed: signed_numeral(s[3]).unwrap() }
    } else if s[2] == "mode"@ && s[3] == "servo"@ {
        RouteView::StServoMode { id: id.unwrap() }
    } else if s[2] == "id"@ && value is Some {
        RouteView::StSetId { current: id.unwrap(), new: value.unwrap() }
    } else {
        RouteView::Unknown
    }
}

/// What a path is about, given its decoded segments.
pub open spec fn routed(s: Seq<Seq<char>>) -> RouteView {
    if s.len() == 1 {
        route1(s)
    } else if s.len() == 2 {
        route2(s)
    } else if s.len() == 3 {
        route3(s)
    } else if s.len() == 4 {
        route4(s)
    } else {
        RouteView::Unknown
    }
}

fn equals(s: &String, name: &str) -> (r: bool)
    ensures
        r == (s@ == name@),
{
    text::same(s.as_str(), name)
}

/// What a path is about, given its decoded segments.
pub fn route(s: &[String]) -> (r: Route)
    ensures
        r@ == routed(strings(s@)),
{
    if s.len() == 1 {
        if equals(&s[0], "") {
            Route::Index
        } else if equals(&s[0], "favicon.ico") {
            Route::Favicon
        } else if equals(&s[0], "health") {
            Route::Health
        } else if equals(&s[0], "battery") {
            Route::Battery
        } else if equals(&s[0], "config") {
            Route::Config
        } else if equals(&s[0], "motors") {
            Route::Motors
        } else if equals(&s[0], "servo") {
            Route::Servo
        } else {
            Route::Unknown
        }
    } else if s.len() == 2 {
        if equals(&s[0], "radio") && equals(&s[1], "ble") {
            Route::RadioBle
        } else if equals(&s[0], "motor") {
            Route::Motor { motor: s[1].clone() }
        } else if equals(&s[0], "servo") {
            Route::ServoAngle {
                angle: match read_unsigned(s[1].as_str()) {
                    Some(angle) => angle,
                    None => -1,
                },
            }
        } else if equals(&s[0], "st") && equals(&s[1], "list") {
            Route::StList
        } else if equals(&s[0], "st") && equals(&s[1], "scan") {
            Route::StScan
        } else if equals(&s[0], "st") && equals(&s[1], "all") {
            Route::StAll
        } else if equals(&s[0], "st") && equals(&s[1], "state") {
            Route::StState
        } else {
            Route::Unknown
        }
    } else if s.len() == 3 {
        if equals(&s[0], "motor") {
            if let Some(power) = read_signed(s[2].as_str()) {
                return Route::MotorPower { motor: s[1].clone(), power };
            }
        }
        if equals(&s[0], "st") {
            if let Some(id) = read_unsigned(s[1].as_str()) {
                if equals(&s[2], "zero") {
                    return Route::StZero { id };
                }
                if equals(&s[2], "ping") {
                    return Route::StPing { id };
                }
            }
        }
        Route::Unknown
    } else if s.len() == 4 {
        if !equals(&s[0], "st") {
            return Route::Unknown;
        }
        let id: i32 = match read_unsigned(s[1].as_str()) {
            Some(id) => id,
            None => return Route::Unknown,
        };
        let value: Option<i32> = read_unsigned(s[3].as_str());
        if equals(&s[2], "pos") {
            if let Some(pos) = value {
                return Route::StMove { id, pos };
            }
        }
        if equals(&s[2], "torque") {
            if let Some(enable) = value {
                return Route::StTorque { id, enable };
            }
        }
        if equals(&s[2], "wheel") {
            if let Some(wheel_speed) = read_signed(s[3].as_str()) {
                return Route::StWheel { id, wheel_speed };
            }
        }
        if equals(&s[2], "mode") && equals(&s[3], "servo") {
            return Route::StServoMode { id };
        }
        if equals(&s[2], "id") {
            if let Some(new) = value {
                return Route::StSetId { current: id, new };
            }
        }
        Route::Unknown
    } else {
        Route::Unknown
    }
}

/// What a request about `route` leads to. Battery, list and state are known only
/// once they have been asked for.
pub open spec fn planned(
    route: RouteView,
    parts: Seq<Seq<char>>,
    bus_ready: bool,
    list_ready: bool,
) -> PlanView {
    match route {
        RouteView::Index => PlanView::Page,
        RouteView::Favicon => PlanView::NoContent,
        RouteView::Health => PlanView::Respond(
            json(StatusCode::Success, r#"{"healthy": true}"#@),
        ),
        RouteView::Battery => PlanView::SampleBattery,
        RouteView::Config => PlanView::Respond(
            json(
                StatusCode::Success,
                r#"{"motor_mode":"two_motor","motor_count":2,"motors":["a","b"]}"#@,
            ),
        ),
        RouteView::RadioBle => PlanView::Radio(
            RadioMode::Ble,
            json(StatusCode::Success, r#"{"ok":true,"mode":"ble","rebooting":true}"#@),
        ),
        RouteView::Motors => motors_plan(parts),
        RouteView::Motor { motor } => motor_query_plan(motor, parts),
        RouteView::MotorPower { motor, power } => motor_plan(motor, power),
        RouteView::Servo => angle_query_plan(parts),
        RouteView::ServoAngle { angle } => angle_plan(angle),
        RouteView::StList => PlanView::List,
        RouteView::StScan => st_scan_plan(parts, bus_ready, list_ready),
        RouteView::StAll => st_all_plan(parts, bus_ready),
        RouteView::StState => st_state_plan(bus_ready, list_ready),
        RouteView::StMove { id, pos } => st_move_plan(id, pos, parts, bus_ready),
        RouteView::StTorque { id, enable } => st_torque_plan(id, enable, bus_ready),
        RouteView::StZero { id } => st_zero_plan(id, bus_ready),
        RouteView::StWheel { id, wheel_speed } => st_wheel_plan(id, wheel_speed, parts, bus_ready),
        RouteView::StServoMode { id } => st_servo_mode_plan(id, bus_ready),
        RouteView::StPing { id } => st_ping_plan(id, bus_ready),
        RouteView::StSetId { current, new } => st_set_id_plan(current, new, bus_ready, list_ready),
        RouteView::Unknown => PlanView::NotFound,
    }
}

/// What a request about `route` leads to.
pub fn plan(route: &Route, query: Option<&str>, bus_ready: bool, list_ready: bool) -> (r: Plan)
    ensures
        r@ == planned(route@, query_parts(query), bus_ready, list_ready),
{
    match route {
        Route::Index => Plan::Page,
        Route::Favicon => Plan::NoContent,
        Route::Health => Plan::Respond(health_response()),
        Route::Battery => Plan::SampleBattery,
        Route::Config => Plan::Respond(config_response()),
        Route::RadioBle => radio_ble_request(),
        Route::Motors => motors(query),
        Route::Motor { motor } => motor_query(motor.as_str(), query),
        Route::MotorPower { motor, power } => set_motor_power(motor.as_str(), *power),
        Route::Servo => servo_query(query),
        Route::ServoAngle { angle } => set_servo_angle(*angle),
        Route::StList => Plan::List,
        Route::StScan => st_scan_request(query, bus_ready, list_ready),
        Route::StAll => st_all_request(query, bus_ready),
        Route::StState => st_state_request(bus_ready, list_ready),
        Route::StMove { id, pos } => st_move_request(*id, *pos, query, bus_ready),
        Route::StTorque { id, enable } => st_torque_request(*id, *enable, bus_ready),
        Route::StZero { id } => st_zero_request(*id, bus_ready),
        Route::StWheel { id, wheel_speed } => st_wheel_request(*id, *wheel_speed, query, bus_ready),
        Route::StServoMode { id } => st_servo_mode_request(*id, bus_ready),
        Route::StPing { id } => st_ping_request(*id, bus_ready),
        Route::StSetId { current, new } => st_set_id_request(*current, *new, bus_ready, list_ready),
        Route::Unknown => Plan::NotFound,
    }
}

/// What a request leads to, given the decoded segments of its path: an unknown
/// path is not found, and a known one only takes `GET`.
pub open spec fn handled(
    method: Seq<char>,
    segments: Option<Seq<Seq<char>>>,
    parts: Seq<Seq<char>>,
    bus_ready: bool,
    list_ready: bool,
) -> PlanView {
    match segments {
        None => PlanView::NotFound,
        Some(s) => if routed(s) is Unknown {
            PlanView::NotFound
        } else if method != "GET"@ {
            PlanView::MethodNotAllowed
        } else {
            planned(routed(s), parts, bus_ready, list_ready)
        },
    }
}

/// The web application.
#[derive(Debug, Clone, Copy, PartialEq, Eq)]
pub struct Application;

impl Application {
    /// What a request leads to.
    pub fn handle(
        &self,
        method: &str,
        path: &str,
        query: Option<&str>,
        bus_ready: bool,
        list_ready: bool,
    ) -> (r: Plan)
        ensures
            r@ == handled(
                method@,
                path_segments(path@),
                query_parts(query),
                bus_ready,
                list_ready,
            ),
            is_plain_path(path@) ==> r@ == handled(
                method@,
                Some(plain_segments(path@)),
                query_parts(query),
                bus_ready,
                list_ready,
            ),
    {
        match decode_path(path) {
            None => Plan::NotFound,
            Some(segments) => self.handle_segments(
                method,
                segments.as_slice(),
                query,
                bus_ready,
                list_ready,
            ),
        }
    }

    /// What a request leads to, given the decoded segments of its path.
    pub fn handle_segments(
        &self,
        method: &str,
        segments: &[String],
        query: Option<&str>,
        bus_ready: bool,
        list_ready: bool,
    ) -> (r: Plan)
        ensures
            r@ == handled(
                method@,
                Some(strings(segments@)),
                query_parts(query),
                bus_ready,
                list_ready,
            ),
    {
        let route: Route = route(segments);
        match route {
            Route::Unknown => Plan::NotFound,
            _ => {
                if !text::same(method, "GET") {
                    return Plan::MethodNotAllowed;
                }
                plan(&route, query, bus_ready, list_ready)
            },
        }
    }
}

/// Whether the values of a job lie within the documented ranges.
pub open spec fn job_in_range(job: BusJobView) -> bool {
    match job {
        BusJobView::Move { id, pos, speed, .. } => commands::valid_servo_id(id as int) && pos
            <= ST_MAX && speed <= ST_MAX,
        BusJobView::MoveAll { moves, speed, .. } => 1 <= moves.len() <= MAX_SERVOS && speed
            <= ST_MAX && forall|k: int|
            0 <= k < moves.len() ==> commands::valid_servo_id((#[trigger] moves[k]).0 as int)
                && moves[k].1 <= ST_MAX && moves[k].2 == speed,
        BusJobView::Torque { id, .. } => commands::valid_servo_id(id as int),
        BusJobView::SetId { current, new } => commands::valid_servo_id(current as int)
            && commands::valid_servo_id(new as int),
        BusJobView::Ping { id } => commands::valid_servo_id(id as int),
        BusJobView::Zero { id } => commands::valid_servo_id(id as int),
        BusJobView::Wheel { id, wheel_speed, .. } => commands::valid_servo_id(id as int)
            && -ST_MAX <= wheel_speed <= ST_MAX,
        BusJobView::ServoMode { id } => commands::valid_servo_id(id as int),
    }
}

proof fn lemma_query_moves(parts: Seq<Seq<char>>, speed: u16, acc: u8)
    requires
        forall|i: int| 0 <= i < parts.len() ==> !wild_target(#[trigger] parts[i]),
    ensures
        ({
            let moves = query_moves(parts, speed, acc);
            &&& moves.len() <= MAX_SERVOS
            &&& forall|k: int|
                0 <= k < moves.len() ==> commands::valid_servo_id((#[trigger] moves[k]).0 as int)
                    && moves[k].1 <= ST_MAX && moves[k].2 == speed
        }),
    decreases parts.len(),
{
    if parts.len() > 0 {
        let front = parts.drop_last();
        assert forall|i: int| 0 <= i < front.len() implies !wild_target(#[trigger] front[i]) by {
            assert(front[i] == parts[i]);
        }
        lemma_query_moves(front, speed, acc);
        assert(!wild_target(parts[parts.len() - 1]));
    }
}

proof fn lemma_batch(parts: Seq<Seq<char>>)
    ensures
        batch(parts).0 matches Some(p) ==> -100 <= p <= 100,
        batch(parts).1 matches Some(p) ==> -100 <= p <= 100,
    decreases parts.len(),
{
    if parts.len() > 0 {
        lemma_batch(parts.drop_last());
    }
}

/// No request makes a motor or servo do anything out of range: neither by a
/// command, nor by a job on the bus, nor by a scan.
pub proof fn law_requests_are_in_range(
    route: RouteView,
    parts: Seq<Seq<char>>,
    bus_ready: bool,
    list_ready: bool,
)
    ensures
        planned(route, parts, bus_ready, list_ready) matches PlanView::Send(cmd, _)
            ==> commands::in_range(cmd),
        planned(route, parts, bus_ready, list_ready) matches PlanView::Bus(job) ==> bus_ready
            && job_in_range(job),
        planned(route, parts, bus_ready, list_ready) matches PlanView::Scan { from, to }
            ==> bus_ready && list_ready && 1 <= from <= to <= 253,
{
    lemma_batch(parts);
    if route is StAll && 0 <= query_speed(parts) <= ST_MAX && !(exists|i: int|
        0 <= i < parts.len() && wild_target(#[trigger] parts[i])) {
        lemma_query_moves(parts, query_speed(parts) as u16, query_acc(parts));
    }
}

/// Whether a request is refused.
pub open spec fn is_refused(plan: PlanView) -> bool {
    plan matches PlanView::Respond(response) && response.status == StatusCode::BadRequest
}

/// A value out of range is answered by 400: a power beyond 100, an angle beyond
/// 180, a servo ID outside 1..=253, a position or speed outside 0..=4095, a
/// wheel speed outside -4095..=4095, a torque other than 0 and 1.
pub proof fn law_out_of_range_is_refused(
    a: int,
    b: int,
    motor: Seq<char>,
    parts: Seq<Seq<char>>,
    bus_ready: bool,
    list_ready: bool,
)
    ensures
        !(-100 <= a <= 100) ==> is_refused(
            planned(RouteView::MotorPower { motor, power: a }, parts, bus_ready, list_ready),
        ),
        !(0 <= a <= 180) ==> is_refused(
            planned(RouteView::ServoAngle { angle: a }, parts, bus_ready, list_ready),
        ),
        !(commands::valid_servo_id(a) && 0 <= b <= ST_MAX && 0 <= query_speed(parts) <= ST_MAX)
            ==> is_refused(
            planned(RouteView::StMove { id: a, pos: b }, parts, bus_ready, list_ready),
        ),
        !(commands::valid_servo_id(a) && -ST_MAX <= b <= ST_MAX) ==> is_refused(
            planned(RouteView::StWheel { id: a, wheel_speed: b }, parts, bus_ready, list_ready),
        ),
        !(commands::valid_servo_id(a) && 0 <= b <= 1) ==> is_refused(
            planned(RouteView::StTorque { id: a, enable: b }, parts, bus_ready, list_ready),
        ),
        !(commands::valid_servo_id(a) && commands::valid_servo_id(b)) ==> is_refused(
            planned(RouteView::StSetId { current: a, new: b }, parts, bus_ready, list_ready),
        ),
        !commands::valid_servo_id(a) ==> is_refused(
            planned(RouteView::StZero { id: a }, parts, bus_ready, list_ready),
        ) && is_refused(planned(RouteView::StPing { id: a }, parts, bus_ready, list_ready))
            && is_refused(planned(RouteView::StServoMode { id: a }, parts, bus_ready, list_ready)),
        motor_of(motor) is None ==> is_refused(
            planned(RouteView::MotorPower { motor, power: a }, parts, bus_ready, list_ready),
        ) && is_refused(planned(RouteView::Motor { motor }, parts, bus_ready, list_ready)),
{
}

} // verus!
