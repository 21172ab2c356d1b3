//! What a BLE client writes and reads, byte by byte.
use crate::battery::BatteryReading;
use crate::ble;
use crate::ble::{Rejection, StActionView};
use crate::commands::CommandView;
use crate::st3215::ServoState;
use vstd::prelude::*;
use vstd::utf8::*;

verus! {

// -- Servo command frames ----------------------------------------------------

/// `[1, id, pos, speed]` moves one servo: position and speed come as two bytes
/// each, low byte first. What is out of range is rejected.
pub proof fn law_move_frame(id: u8, pos: u16, speed: u16, b: Seq<u8>, ids: Seq<u8>)
    requires
        b.len() == 4,
        b[0] + 256 * b[1] == pos,
        b[2] + 256 * b[3] == speed,
    ensures
        ble::frame_meaning(seq![1u8, id, b[0], b[1], b[2], b[3]], ids) == (if 1 <= id <= 253 && pos
            <= 4095 && speed <= 4095 {
            StActionView::Send(CommandView::Move { id, pos, speed, acc: 50 })
        } else {
            StActionView::Reject(Rejection::OutOfRange)
        }),
{
}

/// `[7, pos, speed, acc]` moves every discovered servo to the same position.
pub proof fn law_move_all_frame(pos: u16, speed: u16, acc: u8, b: Seq<u8>, ids: Seq<u8>)
    requires
        b.len() == 4,
        b[0] + 256 * b[1] == pos,
        b[2] + 256 * b[3] == speed,
    ensures
        match ble::frame_meaning(seq![7u8, b[0], b[1], b[2], b[3], acc], ids) {
            StActionView::Send(CommandView::MoveAll { moves, speed: s, acc: a }) => {
                &&& pos <= 4095 && speed <= 4095 && ids.len() > 0
                &&& s == speed && a == acc
                &&& moves.len() == ids.len()
                &&& forall|i: int| 0 <= i < ids.len() ==> #[trigger] moves[i] == (ids[i], pos)
            },
            StActionView::Reject(Rejection::OutOfRange) => pos > 4095 || speed > 4095,
            StActionView::Reject(Rejection::NoServos) => pos <= 4095 && speed <= 4095 && ids.len()
                == 0,
            _ => false,
        },
{
}

/// `[2, id, e]` switches the torque of one servo: it enables exactly when `e`
/// is not zero. The bytes behind do not matter.
pub proof fn law_torque_frame(id: u8, e: u8, rest: Seq<u8>, ids: Seq<u8>)
    requires
        rest.len() == 3,
        1 <= id <= 253,
    ensures
        e != 0 ==> ble::frame_meaning(seq![2u8, id, e] + rest, ids) == StActionView::Send(
            CommandView::Torque { id, enable: true },
        ),
        e == 0 ==> ble::frame_meaning(seq![2u8, id, e] + rest, ids) == StActionView::Send(
            CommandView::Torque { id, enable: false },
        ),
{
}

/// `[3, id, new]` changes an ID, `[4, id]` pings, `[5, id]` reads the state,
/// `[8, id]` calibrates zero and `[10, id]` returns to position control. The
/// bytes behind do not matter.
pub proof fn law_servo_frames(id: u8, new: u8, rest: Seq<u8>, ids: Seq<u8>)
    requires
        rest.len() == 3,
        1 <= id <= 253,
    ensures
        1 <= new <= 253 ==> ble::frame_meaning(seq![3u8, id, new] + rest, ids)
            == StActionView::Send(CommandView::SetId { current: id, new }),
        new == 0 || new > 253 ==> ble::frame_meaning(seq![3u8, id, new] + rest, ids)
            == StActionView::Reject(Rejection::OutOfRange),
        ble::frame_meaning(seq![4u8, id, new] + rest, ids) == StActionView::Send(
            CommandView::Ping { id },
        ),
        ble::frame_meaning(seq![5u8, id, new] + rest, ids) == (StActionView::RefreshState { id }),
        ble::frame_meaning(seq![8u8, id, new] + rest, ids) == StActionView::Send(
            CommandView::Zero { id },
        ),
        ble::frame_meaning(seq![10u8, id, new] + rest, ids) == StActionView::Send(
            CommandView::ServoMode { id },
        ),
{
}

/// A frame that addresses one servo is rejected where no servo has that ID.
pub proof fn law_bad_ids_are_rejected(op: u8, id: u8, rest: Seq<u8>, ids: Seq<u8>)
    requires
        1 <= op <= 5 || 8 <= op <= 10,
        id == 0 || id > 253,
        rest.len() == 4,
    ensures
        ble::frame_meaning(seq![op, id] + rest, ids) == StActionView::Reject(Rejection::OutOfRange),
{
}

/// `[6, from, to]` scans that range; zero stands for 1 and for 20. A range that
/// is empty or goes beyond 253 is rejected.
pub proof fn law_rescan_frame(from: u8, to: u8, rest: Seq<u8>, ids: Seq<u8>)
    requires
        rest.len() == 3,
    ensures
        ({
            let first = if from == 0 { 1 } else { from };
            let last = if to == 0 { 20 } else { to };
            ble::frame_meaning(seq![6u8, from, to] + rest, ids) == (if first <= last && last <= 253 {
                StActionView::Rescan { from: first, to: last }
            } else {
                StActionView::Reject(Rejection::OutOfRange)
            })
        }),
{
}

/// `[9, id, speed, acc]` rotates one servo: the speed comes as two bytes, low
/// byte first, in two's complement.
pub proof fn law_wheel_frame(id: u8, speed: i16, lo: u8, hi: u8, acc: u8, pad: u8, ids: Seq<u8>)
    requires
        lo + 256 * hi == (if speed < 0 { speed + 65536 } else { speed as int }),
    ensures
        ble::frame_meaning(seq![9u8, id, lo, hi, acc, pad], ids) == (if 1 <= id <= 253 && -4095
            <= speed <= 4095 {
            StActionView::Send(CommandView::Wheel { id, wheel_speed: speed, acc })
        } else {
            StActionView::Reject(Rejection::OutOfRange)
        }),
{
}

/// A frame of any length but six, and one with any other opcode, is rejected.
pub proof fn law_other_frames_are_rejected(d: Seq<u8>, ids: Seq<u8>)
    ensures
        d.len() != 6 ==> ble::frame_meaning(d, ids) == StActionView::Reject(Rejection::Malformed),
        d.len() == 6 && (d[0] == 0 || d[0] > 10) ==> ble::frame_meaning(d, ids)
            == StActionView::Reject(Rejection::UnknownOpcode(d[0])),
{
}

// -- Values ------------------------------------------------------------------

/// The state characteristic: ID, zero, position and load in two's complement,
/// low byte first, voltage and temperature. After a failed read: ID, 255, and
/// zero.
pub proof fn law_state_characteristic(id: u8, st: ServoState, i: int)
    requires
        2 <= i < 8,
    ensures
        ({
            let f = ble::state_frame(id, Some(st));
            &&& f.len() == 8
            &&& f[0] == id && f[1] == 0
            &&& f[2] + 256 * f[3] == (if st.pos < 0 { st.pos + 65536 } else { st.pos as int })
            &&& f[4] + 256 * f[5] == (if st.load < 0 { st.load + 65536 } else { st.load as int })
            &&& f[6] == st.voltage && f[7] == st.temp
        }),
        ({
            let f = ble::state_frame(id, None);
            &&& f.len() == 8
            &&& f[0] == id && f[1] == 255
            &&& f[i] == 0
        }),
{
}

/// The list characteristic: the servo IDs in order, and zero behind the last.
pub proof fn law_list_characteristic(ids: Seq<u8>, i: int)
    requires
        0 <= i < 16,
    ensures
        ble::padded_ids(ids).len() == 16,
        i < ids.len() ==> ble::padded_ids(ids)[i] == ids[i],
        i >= ids.len() ==> ble::padded_ids(ids)[i] == 0,
{
}

/// The battery characteristic has three bytes: percentage, then millivolts,
/// high byte first.
pub proof fn law_battery_characteristic(b: BatteryReading)
    ensures
        ble::battery_frame(b).len() == 3,
        ble::battery_frame(b)[0] == b.pct,
        256 * ble::battery_frame(b)[1] + ble::battery_frame(b)[2] == b.mv,
{
}

/// The motors characteristic reads as four signed bytes: the powers, and zero
/// behind the last motor.
pub proof fn law_motors_are_read(a: i8, b: i8)
    ensures
        ({
            let f = ble::motors_frame(seq![a, b]);
            &&& f.len() == 4
            &&& f[0] == (if a < 0 { a + 256 } else { a as int })
            &&& f[1] == (if b < 0 { b + 256 } else { b as int })
            &&& f[2] == 0 && f[3] == 0
        }),
{
}

/// A write of signed bytes sets the powers of both motors, where each lies
/// within -100..=100; bytes behind the second do not matter. Anything else sets
/// nothing.
pub proof fn law_motors_are_written(a: i8, b: i8, data: Seq<u8>)
    ensures
        data.len() >= 2 && data[0] == (if a < 0 { a + 256 } else { a as int }) && data[1] == (if b < 0 {
            b + 256
        } else {
            b as int
        }) ==> ble::motors_written(data) == (if -100 <= a <= 100 && -100 <= b <= 100 {
            Some(CommandView::MotorsAll(seq![a, b]))
        } else {
            None
        }),
        data.len() < 2 ==> ble::motors_written(data) is None,
{
}

/// Credentials that a write holds are all of it: SSID, one zero byte, password.
pub proof fn law_provisioned_credentials(data: Seq<u8>)
    ensures
        match ble::login_written(data) {
            Some((ssid, password)) => {
                &&& data == encode_utf8(ssid) + seq![0u8] + encode_utf8(password)
                &&& 1 <= encode_utf8(ssid).len() <= 32
                &&& encode_utf8(password).len() <= 64
            },
            None => true,
        },
{
    broadcast use decode_utf8_encode_utf8;

    lemma_null_at(data);
    let k = ble::null_at(data);
    if ble::login_written(data) is Some {
        assert(data =~= data.take(k) + seq![0u8] + data.skip(k + 1));
    }
}

/// Credentials are taken over from every write that holds them.
pub proof fn law_provisioning_accepts(ssid: Seq<char>, password: Seq<char>)
    requires
        1 <= encode_utf8(ssid).len() <= 32,
        encode_utf8(password).len() <= 64,
        forall|i: int| 0 <= i < encode_utf8(ssid).len() ==> encode_utf8(ssid)[i] != 0,
    ensures
        ble::login_written(encode_utf8(ssid) + seq![0u8] + encode_utf8(password)) == Some(
            (ssid, password),
        ),
{
    encode_utf8_valid_utf8(ssid);
    encode_utf8_valid_utf8(password);
    encode_utf8_decode_utf8(ssid);
    encode_utf8_decode_utf8(password);
    ble::law_provisioning_takes_the_login_over(encode_utf8(ssid), encode_utf8(password));
}

proof fn lemma_null_at(data: Seq<u8>)
    ensures
        0 <= ble::null_at(data) <= data.len(),
        ble::null_at(data) < data.len() ==> data[ble::null_at(data)] == 0,
    decreases data.len(),
{
    if data.len() > 0 && data[0] != 0 {
        lemma_null_at(data.skip(1));
    }
}

/// What is advertised: flags 6, the complete name, and, in the scan response,
/// the service UUID e3910040-4567-4321-abcd-abcdef012345, last byte first.
pub proof fn law_advertised_bytes(name: Seq<u8>)
    requires
        name.len() <= 26,
    ensures
        ble::name_structures(ble::ADVERTISING_FLAGS, name) == seq![
            2u8,
            1u8,
            6u8,
            (name.len() + 1) as u8,
            9u8,
        ] + name,
        ble::uuid_structure(ble::service_uuid()) == seq![
            17u8, 7u8, 0x45u8, 0x23u8, 0x01u8, 0xefu8, 0xcdu8, 0xabu8, 0xcdu8, 0xabu8, 0x21u8,
            0x43u8, 0x67u8, 0x45u8, 0x40u8, 0x00u8, 0x91u8, 0xe3u8,
        ],
        ble::ADVERTISEMENT_LEN == 31,
{
    assert(ble::uuid_structure(ble::service_uuid()) =~= seq![
        17u8, 7u8, 0x45u8, 0x23u8, 0x01u8, 0xefu8, 0xcdu8, 0xabu8, 0xcdu8, 0xabu8, 0x21u8,
        0x43u8, 0x67u8, 0x45u8, 0x40u8, 0x00u8, 0x91u8, 0xe3u8,
    ]);
}

} // verus!
