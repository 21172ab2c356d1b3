//! BLE GATT service for motor and ST3215 bus servo control: what reads answer,
//! what writes mean, and what is advertised.
//!
//! Service:     e3910040-4567-4321-abcd-abcdef012345
//! Motors:      e3910003-4567-4321-abcd-abcdef012345
//! WiFi Config: e3910004-4567-4321-abcd-abcdef012345
//! Battery:     e3910006-4567-4321-abcd-abcdef012345
//! ST List:     e3910011-4567-4321-abcd-abcdef012345 (read+notify, 16 IDs)
//! ST Cmd:      e3910012-4567-4321-abcd-abcdef012345 (write, 6 bytes)
//! ST State:    e3910013-4567-4321-abcd-abcdef012345 (read, 8 bytes)
use crate::battery::BatteryReading;
use crate::bounded;
use crate::bounded::{ServoList, MAX_SERVOS};
use crate::commands;
use crate::commands::{Command, CommandView, MOTOR_COUNT};
use crate::control;
use crate::st3215;
use crate::st3215::{ServoState, St3215Error};
use crate::text;
use crate::wifi;
use crate::wifi_config;
use crate::wifi_config::WifiCredentials;
use trouble_host::advertise::AdStructure;
use vstd::prelude::*;
use vstd::utf8::*;

verus! {

/// Acceleration of moves that name none.
pub const BLE_DEFAULT_ACC: u8 = 50;

/// Largest position and speed of a servo.
pub const ST_MAX: u16 = 4095;

/// Largest wheel speed in either direction.
pub const ST_MAX_WHEEL_SPEED: i16 = 4095;

/// Length of a servo command frame.
pub const ST_FRAME_LEN: usize = 6;

/// Bytes of an advertisement.
pub const ADVERTISEMENT_LEN: usize = 31;

// -- Values that are read ----------------------------------------------------

/// A list of servo IDs, zero-padded.
pub open spec fn padded_ids(ids: Seq<u8>) -> Seq<u8> {
    Seq::new(MAX_SERVOS as nat, |i: int| if i < ids.len() { ids[i] } else { 0u8 })
}

/// The servo list as a characteristic, zero-padded; all zero without a list.
pub fn snapshot_list(list: Option<&ServoList>) -> (r: [u8; MAX_SERVOS])
    ensures
        r@ == padded_ids(match list {
            Some(l) => bounded::servo_ids(*l),
            None => Seq::empty(),
        }),
{
    let mut out: [u8; MAX_SERVOS] = [0; MAX_SERVOS];
    if let Some(l) = list {
        let ids = bounded::servo_list_as_slice(l);
        let mut i: usize = 0;
        while i < ids.len()
            invariant
                i <= ids@.len() <= MAX_SERVOS,
                out@.len() == MAX_SERVOS,
                forall|j: int| 0 <= j < i ==> out@[j] == ids@[j],
                forall|j: int| i <= j < MAX_SERVOS ==> out@[j] == 0,
            decreases ids@.len() - i,
        {
            out[i] = ids[i];
            i = i + 1;
        }
        assert(out@ =~= padded_ids(ids@));
    } else {
        assert(out@ =~= padded_ids(Seq::empty()));
    }
    out
}

/// Two's complement of a signed value.
pub open spec fn twos_complement(v: int) -> u16 {
    (if v < 0 { v + 0x10000 } else { v }) as u16
}

fn unsigned(v: i16) -> (r: u16)
    ensures
        r == twos_complement(v as int),
{
    if v < 0 {
        (v as i32 + 0x10000) as u16
    } else {
        v as u16
    }
}

/// What the servo state characteristic holds after a read of servo `id`: ID,
/// error, position, load, voltage, temperature.
pub open spec fn state_frame(id: u8, st: Option<ServoState>) -> Seq<u8> {
    match st {
        Some(s) => {
            let pos = twos_complement(s.pos as int);
            let load = twos_complement(s.load as int);
            seq![
                id,
                0u8,
                st3215::low_byte(pos),
                st3215::high_byte(pos),
                st3215::low_byte(load),
                st3215::high_byte(load),
                s.voltage,
                s.temp,
            ]
        },
        None => seq![id, 0xFFu8, 0u8, 0u8, 0u8, 0u8, 0u8, 0u8],
    }
}

/// The value of the servo state characteristic after a read of servo `id`.
pub fn state_payload(id: u8, read: Result<ServoState, St3215Error>) -> (r: [u8; 8])
    ensures
        r@ == state_frame(
            id,
            match read {
                Ok(st) => Some(st),
                Err(_) => None,
            },
        ),
{
    match read {
        Ok(st) => {
            let pos: u16 = unsigned(st.pos);
            let load: u16 = unsigned(st.load);
            let out: [u8; 8] = [
                id,
                0,
                st3215::lo(pos),
                st3215::hi(pos),
                st3215::lo(load),
                st3215::hi(load),
                st.voltage,
                st.temp,
            ];
            assert(out@ =~= state_frame(id, Some(st)));
            out
        },
        Err(_) => {
            let out: [u8; 8] = [id, 0xFF, 0, 0, 0, 0, 0, 0];
            assert(out@ =~= state_frame(id, None));
            out
        },
    }
}

/// What a client reads back of a state frame.
pub open spec fn frame_value(lo: u8, hi: u8) -> int {
    let raw = st3215::from_bytes(lo, hi) as int;
    if raw >= 0x8000 {
        raw - 0x10000
    } else {
        raw
    }
}

/// A client reconstructs position and load from a state frame.
pub proof fn law_state_frame_is_read_back(id: u8, st: ServoState)
    ensures
        ({
            let f = state_frame(id, Some(st));
            &&& f.len() == 8
            &&& f[0] == id && f[1] == 0
            &&& frame_value(f[2], f[3]) == st.pos
            &&& frame_value(f[4], f[5]) == st.load
            &&& f[6] == st.voltage && f[7] == st.temp
        }),
{
}

/// Percentage and voltage, high byte first.
pub open spec fn battery_frame(b: BatteryReading) -> Seq<u8> {
    seq![b.pct, st3215::high_byte(b.mv), st3215::low_byte(b.mv)]
}

/// The value of the battery characteristic.
pub fn battery_payload(b: BatteryReading) -> (r: [u8; 3])
    ensures
        r@ == battery_frame(b),
{
    let out: [u8; 3] = [b.pct, st3215::hi(b.mv), st3215::lo(b.mv)];
    assert(out@ =~= battery_frame(b));
    out
}

/// A client reconstructs the voltage from the battery value.
pub proof fn law_battery_voltage_is_reconstructed(b: BatteryReading)
    ensures
        battery_frame(b)[1] * 256 + battery_frame(b)[2] == b.mv,
        battery_frame(b)[0] == b.pct,
{
}

/// The signed byte that `b` is.
pub open spec fn signed_byte(b: u8) -> int {
    if b >= 128 {
        b - 256
    } else {
        b as int
    }
}

fn signed(b: u8) -> (r: i8)
    ensures
        r == signed_byte(b),
{
    if b >= 128 {
        (b as i16 - 256) as i8
    } else {
        b as i8
    }
}

/// The byte that holds `power`.
pub open spec fn power_byte(power: i8) -> u8 {
    (if power < 0 { power + 256 } else { power as int }) as u8
}

/// The motors characteristic: four bytes, of which those behind the last motor
/// are zero.
pub open spec fn motors_frame(powers: Seq<i8>) -> Seq<u8> {
    seq![power_byte(powers[0]), power_byte(powers[1]), 0u8, 0u8]
}

fn unsigned_byte(power: i8) -> (r: u8)
    ensures
        r == power_byte(power),
{
    if power < 0 {
        (power as i16 + 256) as u8
    } else {
        power as u8
    }
}

/// The value of the motors characteristic: the powers last set.
pub fn motors_payload(powers: [i8; MOTOR_COUNT]) -> (r: [u8; 4])
    ensures
        r@ == motors_frame(powers@),
{
    let out: [u8; 4] = [unsigned_byte(powers[0]), unsigned_byte(powers[1]), 0, 0];
    assert(out@ =~= motors_frame(powers@));
    out
}

// -- Values that are written -------------------------------------------------

/// The powers that a write to the motors characteristic sets, where it has
/// enough bytes and each lies within -100..=100.
pub open spec fn motors_written(data: Seq<u8>) -> Option<CommandView> {
    if data.len() >= MOTOR_COUNT && -100 <= signed_byte(data[0]) <= 100 && -100 <= signed_byte(
        data[1],
    ) <= 100 {
        Some(CommandView::MotorsAll(seq![signed_byte(data[0]) as i8, signed_byte(data[1]) as i8]))
    } else {
        None
    }
}

/// The command of a write to the motors characteristic. All powers are set at
/// once; a write that is too short or out of range is rejected.
pub fn motors_command(data: &[u8]) -> (r: Option<Command>)
    ensures
        match r {
            Some(cmd) => motors_written(data@) == Some(cmd@),
            None => motors_written(data@) is None,
        },
{
    if data.len() < MOTOR_COUNT {
        return None;
    }
    let a: i8 = signed(data[0]);
    let b: i8 = signed(data[1]);
    if a < -100 || a > 100 || b < -100 || b > 100 {
        return None;
    }
    let powers: [i8; MOTOR_COUNT] = [a, b];
    assert(powers@ =~= seq![a, b]);
    Some(Command::MotorsAll(powers))
}

/// What has been written to the motors characteristic is read back.
pub proof fn law_motor_powers_are_read_back(data: Seq<u8>, powers: Seq<i8>)
    requires
        motors_written(data) == Some(CommandView::MotorsAll(powers)),
    ensures
        motors_frame(powers)[0] == data[0],
        motors_frame(powers)[1] == data[1],
{
    assert(powers =~= seq![signed_byte(data[0]) as i8, signed_byte(data[1]) as i8]);
}

/// Position of the first zero byte; the length where there is none.
pub open spec fn null_at(data: Seq<u8>) -> int
    decreases data.len(),
{
    if data.len() == 0 || data[0] == 0 {
        0
    } else {
        1 + null_at(data.skip(1))
    }
}

/// The credentials that a write to the WiFi characteristic holds: SSID, zero
/// byte, password, both UTF-8.
pub open spec fn login_written(data: Seq<u8>) -> Option<wifi::Login> {
    let k = null_at(data);
    let ssid = data.take(k);
    let password = data.skip(k + 1);
    if k >= data.len() || !valid_utf8(ssid) || !valid_utf8(password) || ssid.len() == 0
        || ssid.len() > wifi_config::MAX_SSID_LEN || password.len()
        > wifi_config::MAX_PASSWORD_LEN {
        None
    } else {
        Some((decode_utf8(ssid), decode_utf8(password)))
    }
}

/// The credentials that a write to the WiFi characteristic holds.
pub fn wifi_credentials(data: &[u8]) -> (r: Option<WifiCredentials>)
    ensures
        match r {
            Some(c) => login_written(data@) == Some(c@),
            None => login_written(data@) is None,
        },
{
    broadcast use encode_utf8_decode_utf8;

    let mut k: usize = 0;
    assert(data@.skip(0) =~= data@);
    while k < data.len() && data[k] != 0
        invariant
            k <= data@.len(),
            null_at(data@) == k + null_at(data@.skip(k as int)),
        decreases data@.len() - k,
    {
        assert(data@.skip(k as int).skip(1) =~= data@.skip(k + 1));
        k = k + 1;
    }
    assert(null_at(data@) == k);
    if k >= data.len() {
        return None;
    }
    let ssid_bytes = vstd::slice::slice_subrange(data, 0, k);
    let password_bytes = vstd::slice::slice_subrange(data, k + 1, data.len());
    assert(ssid_bytes@ =~= data@.take(k as int));
    assert(password_bytes@ =~= data@.skip(k + 1));
    match (text::from_utf8(ssid_bytes), text::from_utf8(password_bytes)) {
        (Some(ssid), Some(password)) => {
            if ssid_bytes.len() == 0 {
                None
            } else {
                WifiCredentials::new(ssid, password)
            }
        },
        _ => None,
    }
}

/// A null-separated pair of SSID and password is taken over as it is, where the
/// SSID holds no null character and neither is too long.
pub proof fn law_provisioning_takes_the_login_over(ssid: Seq<u8>, password: Seq<u8>)
    requires
        valid_utf8(ssid),
        valid_utf8(password),
        1 <= ssid.len() <= wifi_config::MAX_SSID_LEN,
        password.len() <= wifi_config::MAX_PASSWORD_LEN,
        forall|i: int| 0 <= i < ssid.len() ==> ssid[i] != 0,
    ensures
        login_written(ssid + seq![0u8] + password) == Some(
            (decode_utf8(ssid), decode_utf8(password)),
        ),
{
    let data = ssid + seq![0u8] + password;
    lemma_null_at(data, ssid.len() as int);
    assert(data.take(ssid.len() as int) =~= ssid);
    assert(data.skip(ssid.len() as int + 1) =~= password);
}

proof fn lemma_null_at(data: Seq<u8>, k: int)
    requires
        0 <= k < data.len(),
        data[k] == 0,
        forall|i: int| 0 <= i < k ==> data[i] != 0,
    ensures
        null_at(data) == k,
    decreases k,
{
    if k > 0 {
        let rest = data.skip(1);
        assert forall|i: int| 0 <= i < k - 1 implies rest[i] != 0 by {
            assert(rest[i] == data[i + 1]);
        }
        lemma_null_at(rest, k - 1);
    }
}

// -- Servo commands ----------------------------------------------------------

/// Why a servo command frame is rejected.
#[derive(Debug, Clone, Copy, PartialEq, Eq, Structural)]
pub enum Rejection {
    /// It does not have six bytes.
    Malformed,
    /// Its opcode means nothing.
    UnknownOpcode(u8),
    /// An ID, position, speed or range is out of range.
    OutOfRange,
    /// All servos are addressed, and none has been discovered.
    NoServos,
}

/// What a servo command frame makes the firmware do.
#[derive(Debug)]
pub enum StAction {
    Reject(Rejection),
    /// Send a command to the main loop.
    Send(Command),
    /// Read the state of a servo into the state characteristic.
    RefreshState { id: u8 },
    /// Scan the bus and refresh the list characteristic before the write
    /// returns.
    Rescan { from: u8, to: u8 },
}

/// Model of an [`StAction`].
#[verifier::ext_equal]
pub enum StActionView {
    Reject(Rejection),
    Send(CommandView),
    RefreshState { id: u8 },
    Rescan { from: u8, to: u8 },
}

impl View for StAction {
    type V = StActionView;

    open spec fn view(&self) -> StActionView {
        match self {
            StAction::Reject(why) => StActionView::Reject(*why),
            StAction::Send(cmd) => StActionView::Send(cmd@),
            StAction::RefreshState { id } => StActionView::RefreshState { id: *id },
            StAction::Rescan { from, to } => StActionView::Rescan { from: *from, to: *to },
        }
    }
}

/// Whether `id` belongs to one servo.
pub open spec fn valid_id(id: u8) -> bool {
    commands::valid_servo_id(id as int)
}

/// `action` where `ok`, a rejection otherwise.
pub open spec fn checked(ok: bool, action: StActionView) -> StActionView {
    if ok {
        action
    } else {
        StActionView::Reject(Rejection::OutOfRange)
    }
}

/// What a servo command frame means, given the discovered servos.
pub open spec fn frame_meaning(d: Seq<u8>, ids: Seq<u8>) -> StActionView {
    if d.len() != ST_FRAME_LEN {
        StActionView::Reject(Rejection::Malformed)
    } else if d[0] == 0x01 {
        let pos = st3215::from_bytes(d[2], d[3]);
        let speed = st3215::from_bytes(d[4], d[5]);
        checked(
            valid_id(d[1]) && pos <= ST_MAX && speed <= ST_MAX,
            StActionView::Send(CommandView::Move { id: d[1], pos, speed, acc: BLE_DEFAULT_ACC }),
        )
    } else if d[0] == 0x02 {
        checked(
            valid_id(d[1]),
            StActionView::Send(CommandView::Torque { id: d[1], enable: d[2] != 0 }),
        )
    } else if d[0] == 0x03 {
        checked(
            valid_id(d[1]) && valid_id(d[2]),
            StActionView::Send(CommandView::SetId { current: d[1], new: d[2] }),
        )
    } else if d[0] == 0x04 {
        checked(valid_id(d[1]), StActionView::Send(CommandView::Ping { id: d[1] }))
    } else if d[0] == 0x05 {
        checked(valid_id(d[1]), StActionView::RefreshState { id: d[1] })
    } else if d[0] == 0x06 {
        let from = if d[1] == 0 { control::SCAN_FROM } else { d[1] };
        let to = if d[2] == 0 { control::SCAN_TO } else { d[2] };
        checked(from <= to && valid_id(to), StActionView::Rescan { from, to })
    } else if d[0] == 0x07 {
        let pos = st3215::from_bytes(d[1], d[2]);
        let speed = st3215::from_bytes(d[3], d[4]);
        if pos > ST_MAX || speed > ST_MAX {
            StActionView::Reject(Rejection::OutOfRange)
        } else if ids.len() == 0 {
            StActionView::Reject(Rejection::NoServos)
        } else {
            StActionView::Send(
                CommandView::MoveAll {
                    moves: ids.map_values(|id: u8| (id, pos)),
                    speed,
                    acc: d[5],
                },
            )
        }
    } else if d[0] == 0x08 {
        checked(valid_id(d[1]), StActionView::Send(CommandView::Zero { id: d[1] }))
    } else if d[0] == 0x09 {
        let speed = frame_value(d[2], d[3]);
        checked(
            valid_id(d[1]) && -ST_MAX_WHEEL_SPEED <= speed <= ST_MAX_WHEEL_SPEED,
            StActionView::Send(
                CommandView::Wheel { id: d[1], wheel_speed: speed as i16, acc: d[4] },
            ),
        )
    } else if d[0] == 0x0A {
        checked(valid_id(d[1]), StActionView::Send(CommandView::ServoMode { id: d[1] }))
    } else {
        StActionView::Reject(Rejection::UnknownOpcode(d[0]))
    }
}

fn is_valid_id(id: u8) -> (r: bool)
    ensures
        r == valid_id(id),
{
    id >= 1 && id <= 253
}

fn send_checked(ok: bool, cmd: Command) -> (r: StAction)
    ensures
        r@ == checked(ok, StActionView::Send(cmd@)),
{
    if ok {
        StAction::Send(cmd)
    } else {
        StAction::Reject(Rejection::OutOfRange)
    }
}

/// Move all discovered servos to one position.
fn move_discovered(ids: &[u8], pos: u16, speed: u16, acc: u8) -> (r: Command)
    requires
        ids@.len() <= MAX_SERVOS,
    ensures
        r@ == (CommandView::MoveAll {
            moves: ids@.map_values(|id: u8| (id, pos)),
            speed,
            acc,
        }),
        commands::no_spare_entries(r),
{
    let ghost all = ids@.map_values(|id: u8| (id, pos));
    let mut moves: [(u8, u16); MAX_SERVOS] = [(0, 0); MAX_SERVOS];
    let mut i: usize = 0;
    while i < ids.len()
        invariant
            i <= ids@.len() <= MAX_SERVOS,
            all == ids@.map_values(|id: u8| (id, pos)),
            moves@.len() == MAX_SERVOS,
            forall|j: int| 0 <= j < i ==> moves@[j] == all[j],
            forall|j: int| i <= j < MAX_SERVOS ==> #[trigger] moves@[j] == (0u8, 0u16),
        decreases ids@.len() - i,
    {
        moves[i] = (ids[i], pos);
        i = i + 1;
    }
    assert(moves@.take(ids@.len() as int) =~= all);
    Command::St3215MoveAll { count: ids.len() as u8, moves, speed, acc }
}

/// Dispatch a servo command frame.
pub fn handle_st_cmd(data: &[u8], list: &ServoList) -> (r: StAction)
    ensures
        r@ == frame_meaning(data@, bounded::servo_ids(*list)),
        r matches StAction::Send(cmd) ==> commands::no_spare_entries(cmd),
{
    if data.len() != ST_FRAME_LEN {
        return StAction::Reject(Rejection::Malformed);
    }
    let op: u8 = data[0];
    let id: u8 = data[1];
    match op {
        0x01 => {
            let pos: u16 = st3215::word(data[2], data[3]);
            let speed: u16 = st3215::word(data[4], data[5]);
            send_checked(
                is_valid_id(id) && pos <= ST_MAX && speed <= ST_MAX,
                Command::St3215Move { id, pos, speed, acc: BLE_DEFAULT_ACC },
            )
        },
        0x02 => send_checked(
            is_valid_id(id),
            Command::St3215Torque { id, enable: data[2] != 0 },
        ),
        0x03 => send_checked(
            is_valid_id(id) && is_valid_id(data[2]),
            Command::St3215SetId { current: id, new: data[2] },
        ),
        0x04 => send_checked(is_valid_id(id), Command::St3215Ping { id }),
        0x05 => {
            if is_valid_id(id) {
                StAction::RefreshState { id }
            } else {
                StAction::Reject(Rejection::OutOfRange)
            }
        },
        0x06 => {
            let from: u8 = if data[1] == 0 { control::SCAN_FROM } else { data[1] };
            let to: u8 = if data[2] == 0 { control::SCAN_TO } else { data[2] };
            if from <= to && is_valid_id(to) {
                StAction::Rescan { from, to }
            } else {
                StAction::Reject(Rejection::OutOfRange)
            }
        },
        0x07 => {
            let pos: u16 = st3215::word(data[1], data[2]);
            let speed: u16 = st3215::word(data[3], data[4]);
            let ids = bounded::servo_list_as_slice(list);
            if pos > ST_MAX || speed > ST_MAX {
                StAction::Reject(Rejection::OutOfRange)
            } else if ids.len() == 0 {
                StAction::Reject(Rejection::NoServos)
            } else {
                StAction::Send(move_discovered(ids, pos, speed, data[5]))
            }
        },
        0x08 => send_checked(is_valid_id(id), Command::St3215Zero { id }),
        0x09 => {
            let raw: u16 = st3215::word(data[2], data[3]);
            let speed: i16 = if raw >= 0x8000 {
                (raw as i32 - 0x10000) as i16
            } else {
                raw as i16
            };
            send_checked(
                is_valid_id(id) && speed >= -ST_MAX_WHEEL_SPEED && speed <= ST_MAX_WHEEL_SPEED,
                Command::St3215Wheel { id, wheel_speed: speed, acc: data[4] },
            )
        },
        0x0A => send_checked(is_valid_id(id), Command::St3215ServoMode { id }),
        _ => StAction::Reject(Rejection::UnknownOpcode(op)),
    }
}

/// No write sends a command with a value out of range. A move of all servos
/// addresses the discovered ones, so their IDs have to be in range.
pub proof fn law_writes_are_in_range(d: Seq<u8>, ids: Seq<u8>)
    ensures
        frame_meaning(d, ids) matches StActionView::Send(cmd) ==> (cmd is MoveAll ==> forall|i: int|
            0 <= i < ids.len() ==> valid_id(#[trigger] ids[i])) ==> commands::in_range(cmd),
        frame_meaning(d, ids) matches StActionView::RefreshState { id } ==> valid_id(id),
        frame_meaning(d, ids) matches StActionView::Rescan { from, to } ==> valid_id(from)
            && valid_id(to) && from <= to,
        motors_written(d) matches Some(cmd) ==> commands::in_range(cmd),
{
}

/// A client's frames for a move, a move of all servos and continuous rotation
/// mean what went into them, for every value in range.
pub proof fn law_frames_mean_what_they_hold(
    id: u8,
    pos: u16,
    speed: u16,
    acc: u8,
    wheel_speed: int,
    ids: Seq<u8>,
)
    requires
        valid_id(id),
        pos <= ST_MAX,
        speed <= ST_MAX,
        -ST_MAX_WHEEL_SPEED <= wheel_speed <= ST_MAX_WHEEL_SPEED,
        ids.len() > 0,
    ensures
        ({
            let pos_lo = st3215::low_byte(pos);
            let pos_hi = st3215::high_byte(pos);
            let speed_lo = st3215::low_byte(speed);
            let speed_hi = st3215::high_byte(speed);
            let wheel_lo = st3215::low_byte(twos_complement(wheel_speed));
            let wheel_hi = st3215::high_byte(twos_complement(wheel_speed));
            &&& frame_meaning(seq![0x01u8, id, pos_lo, pos_hi, speed_lo, speed_hi], ids)
                == StActionView::Send(CommandView::Move { id, pos, speed, acc: BLE_DEFAULT_ACC })
            &&& frame_meaning(seq![0x07u8, pos_lo, pos_hi, speed_lo, speed_hi, acc], ids)
                == StActionView::Send(
                CommandView::MoveAll { moves: ids.map_values(|i: u8| (i, pos)), speed, acc },
            )
            &&& frame_meaning(seq![0x09u8, id, wheel_lo, wheel_hi, acc, 0u8], ids)
                == StActionView::Send(
                CommandView::Wheel { id, wheel_speed: wheel_speed as i16, acc },
            )
        }),
{
    assert(st3215::from_bytes(st3215::low_byte(pos), st3215::high_byte(pos)) == pos);
    assert(st3215::from_bytes(st3215::low_byte(speed), st3215::high_byte(speed)) == speed);
    let w = twos_complement(wheel_speed);
    assert(st3215::from_bytes(st3215::low_byte(w), st3215::high_byte(w)) == w);
    let moves = ids.map_values(|i: u8| (i, pos));
    assert(ids.map_values(|id: u8| (id, pos)) =~= moves);
}

// -- Dispatch ----------------------------------------------------------------

/// The characteristics of the service.
#[derive(Debug, Clone, Copy, PartialEq, Eq, Structural)]
pub enum Characteristic {
    Motors,
    WifiConfig,
    Battery,
    StList,
    StCmd,
    StState,
    /// A handle of another service.
    Other,
}

/// What a write makes the firmware do.
#[derive(Debug)]
pub enum GattWrite {
    /// It is malformed, out of range or addressed to nobody.
    Ignore,
    /// Send a command to the main loop.
    Send(Command),
    /// Store credentials.
    Store(WifiCredentials),
    /// Carry out a servo command frame.
    St(StAction),
}

/// Dispatch a write.
pub fn gatt_write(target: Characteristic, data: &[u8], list: &ServoList) -> (r: GattWrite)
    ensures
        match target {
            Characteristic::Motors => match motors_written(data@) {
                Some(cmd) => r matches GattWrite::Send(c) && c@ == cmd,
                None => r is Ignore,
            },
            Characteristic::WifiConfig => match login_written(data@) {
                Some(login) => r matches GattWrite::Store(c) && c@ == login,
                None => r is Ignore,
            },
            Characteristic::StCmd => r matches GattWrite::St(action) && action@ == frame_meaning(
                data@,
                bounded::servo_ids(*list),
            ),
            _ => r is Ignore,
        },
        r matches GattWrite::Send(cmd) ==> commands::no_spare_entries(cmd),
        r matches GattWrite::St(StAction::Send(cmd)) ==> commands::no_spare_entries(cmd),
{
    match target {
        Characteristic::Motors => match motors_command(data) {
            Some(cmd) => GattWrite::Send(cmd),
            None => GattWrite::Ignore,
        },
        Characteristic::WifiConfig => match wifi_credentials(data) {
            Some(creds) => GattWrite::Store(creds),
            None => GattWrite::Ignore,
        },
        Characteristic::StCmd => GattWrite::St(handle_st_cmd(data, list)),
        _ => GattWrite::Ignore,
    }
}

/// The value that a characteristic is given before it is read, where it is not
/// kept up to date otherwise.
pub fn gatt_read(
    target: Characteristic,
    battery: BatteryReading,
    list: Option<&ServoList>,
    powers: [i8; MOTOR_COUNT],
) -> (r: Option<Vec<u8>>)
    ensures
        match target {
            Characteristic::Motors => r matches Some(v) && v@ == motors_frame(powers@),
            Characteristic::Battery => r matches Some(v) && v@ == battery_frame(battery),
            Characteristic::StList => r matches Some(v) && v@ == padded_ids(
                match list {
                    Some(l) => bounded::servo_ids(*l),
                    None => Seq::empty(),
                },
            ),
            _ => r is None,
        },
{
    match target {
        Characteristic::Motors => {
            let v: [u8; 4] = motors_payload(powers);
            Some(vstd::slice::slice_to_vec(v.as_slice()))
        },
        Characteristic::Battery => {
            let v: [u8; 3] = battery_payload(battery);
            Some(vstd::slice::slice_to_vec(v.as_slice()))
        },
        Characteristic::StList => {
            let v: [u8; MAX_SERVOS] = snapshot_list(list);
            Some(vstd::slice::slice_to_vec(v.as_slice()))
        },
        _ => None,
    }
}

// -- Advertising -------------------------------------------------------------

/// LE General Discoverable, BR/EDR not supported.
pub const ADVERTISING_FLAGS: u8 = 0x06;

/// The service UUID in little-endian byte order.
pub open spec fn service_uuid() -> Seq<u8> {
    seq![
        0x45u8, 0x23u8, 0x01u8, 0xefu8, 0xcdu8, 0xabu8, 0xcdu8, 0xabu8, 0x21u8, 0x43u8, 0x67u8,
        0x45u8, 0x40u8, 0x00u8, 0x91u8, 0xe3u8,
    ]
}

/// Flags and complete local name as an advertisement carries them.
pub open spec fn name_structures(flags: u8, name: Seq<u8>) -> Seq<u8> {
    seq![2u8, 1u8, flags, (name.len() + 1) as u8, 9u8] + name
}

/// One 128-bit service UUID as an advertisement carries it.
pub open spec fn uuid_structure(uuid: Seq<u8>) -> Seq<u8> {
    seq![17u8, 7u8] + uuid
}

/// `trouble_host::advertise::AdStructure::encode_slice` on flags and a complete
/// local name: writes both structures to the front of `dest` and returns their
/// length, or fails when they do not fit.
#[verifier::external_body]
fn encode_name(flags: u8, name: &[u8], dest: &mut [u8]) -> (r: Option<usize>)
    requires
        name@.len() < 255,
    ensures
        match r {
            Some(n) => n == name@.len() + 5 && n <= old(dest)@.len() && final(dest)@ == name_structures(flags, name@) + old(dest)@.skip(n as int),
            None => name@.len() + 5 > old(dest)@.len() && final(dest)@.len() == old(dest)@.len(),
        },
{
    AdStructure::encode_slice(
        &[AdStructure::Flags(flags), AdStructure::CompleteLocalName(name)],
        dest,
    ).ok()
}

/// `trouble_host::advertise::AdStructure::encode_slice` on one 128-bit service
/// UUID: writes the structure to the front of `dest` and returns its length, or
/// fails when it does not fit.
#[verifier::external_body]
fn encode_uuid(uuid: [u8; 16], dest: &mut [u8]) -> (r: Option<usize>)
    ensures
        match r {
            Some(n) => n == 18 && n <= old(dest)@.len() && final(dest)@ == uuid_structure(uuid@) + old(dest)@.skip(n as int),
            None => 18 > old(dest)@.len() && final(dest)@.len() == old(dest)@.len(),
        },
{
    AdStructure::encode_slice(&[AdStructure::ServiceUuids128(&[uuid])], dest).ok()
}

/// The advertisement for a device name, where it fits.
pub fn advertising_data(name: &str) -> (r: Option<Vec<u8>>)
    ensures
        match r {
            Some(v) => encode_utf8(name@).len() + 5 <= ADVERTISEMENT_LEN && v@ == name_structures(
                ADVERTISING_FLAGS,
                encode_utf8(name@),
            ),
            None => encode_utf8(name@).len() + 5 > ADVERTISEMENT_LEN,
        },
{
    let bytes = name.as_bytes();
    if bytes.len() >= 255 {
        return None;
    }
    let mut data: Vec<u8> = Vec::new();
    data.resize(ADVERTISEMENT_LEN, 0);
    match encode_name(ADVERTISING_FLAGS, bytes, data.as_mut_slice()) {
        Some(n) => {
            data.truncate(n);
            assert(data@ =~= name_structures(ADVERTISING_FLAGS, bytes@));
            Some(data)
        },
        None => None,
    }
}

/// The scan response: the service UUID.
pub fn scan_response_data() -> (r: Vec<u8>)
    ensures
        r@ == uuid_structure(service_uuid()),
{
    let uuid: [u8; 16] = [
        0x45, 0x23, 0x01, 0xef, 0xcd, 0xab, 0xcd, 0xab, 0x21, 0x43, 0x67, 0x45, 0x40, 0x00, 0x91,
        0xe3,
    ];
    assert(uuid@ =~= service_uuid());
    let mut data: Vec<u8> = Vec::new();
    data.resize(ADVERTISEMENT_LEN, 0);
    if let Some(n) = encode_uuid(uuid, data.as_mut_slice()) {
        data.truncate(n);
        assert(data@ =~= uuid_structure(service_uuid()));
    }
    data
}

} // verus!
