//! What the servo bus promises on the wire, in numbers: every frame, every
//! register and every step of an operation.
use crate::bounded::Move;
use crate::st3215;
use crate::st3215::{
    Awaited, BusAction, BusEvent, BusView, Outcome, Phase, Received, Request, RequestView, ScanView,
    ServoState, St3215Error,
};
use vstd::prelude::*;

verus! {

// -- Checksums and frames ----------------------------------------------------

/// The byte sum counts every byte exactly once.
pub proof fn law_byte_sum_is_additive(a: Seq<u8>, b: Seq<u8>, x: u8)
    ensures
        st3215::byte_sum(seq![x]) == x,
        st3215::byte_sum(a + b) == st3215::byte_sum(a) + st3215::byte_sum(b),
    decreases b.len(),
{
    assert(seq![x].drop_last() =~= Seq::empty());
    assert(st3215::byte_sum(Seq::empty()) == 0);
    if b.len() == 0 {
        assert(a + b =~= a);
    } else {
        assert((a + b).drop_last() =~= a + b.drop_last());
        law_byte_sum_is_additive(a, b.drop_last(), x);
    }
}

proof fn lemma_sum_update(s: Seq<u8>, i: int, b: u8)
    requires
        0 <= i < s.len(),
    ensures
        st3215::byte_sum(s.update(i, b)) + s[i] == st3215::byte_sum(s) + b,
    decreases s.len(),
{
    if i == s.len() - 1 {
        assert(s.update(i, b).drop_last() =~= s.drop_last());
    } else {
        lemma_sum_update(s.drop_last(), i, b);
        assert(s.update(i, b).drop_last() =~= s.drop_last().update(i, b));
    }
}

/// A checksum and everything that it covers add up to 255, modulo 256.
pub proof fn law_checksum_completes_the_sum(id: u8, len: u8, code: u8, params: Seq<u8>)
    ensures
        (id + len + code + st3215::byte_sum(params) + st3215::checksum_of(id, len, code, params))
            % 256 == 255,
{
    let sum = id + len + code + st3215::byte_sum(params);
    let c = st3215::checksum_of(id, len, code, params);
    assert(c == 255 - sum % 256);
    assert((sum + c) % 256 == 255);
}

/// The checksum depends on every parameter: whatever one of them grows by, the
/// checksum shrinks by, modulo 256.
pub proof fn law_checksum_covers_every_parameter(
    id: u8,
    len: u8,
    code: u8,
    params: Seq<u8>,
    i: int,
    b: u8,
)
    requires
        0 <= i < params.len(),
    ensures
        (st3215::checksum_of(id, len, code, params.update(i, b)) + b) % 256 == (st3215::checksum_of(
            id,
            len,
            code,
            params,
        ) + params[i]) % 256,
{
    lemma_sum_update(params, i, b);
    let s = id + len + code + st3215::byte_sum(params);
    let t = id + len + code + st3215::byte_sum(params.update(i, b));
    assert(t + params[i] == s + b);
}

/// A frame is `FF FF id len code params checksum`: each byte is at its place,
/// and all of them behind the header add up to 255, modulo 256.
pub proof fn law_frame_layout(id: u8, code: u8, params: Seq<u8>)
    requires
        params.len() <= 253,
    ensures
        ({
            let f = st3215::frame_of(id, code, params);
            &&& f.len() == params.len() + 6
            &&& f[0] == 255 && f[1] == 255
            &&& f[2] == id
            &&& f[3] == params.len() + 2
            &&& f[4] == code
            &&& f.subrange(5, params.len() + 5int) == params
            &&& st3215::byte_sum(f.skip(2)) % 256 == 255
        }),
{
    let f = st3215::frame_of(id, code, params);
    let len = (params.len() + 2) as u8;
    let sum = st3215::checksum_of(id, len, code, params);
    assert(f.skip(2) =~= seq![id] + (seq![len] + (seq![code] + (params + seq![sum]))));
    law_byte_sum_is_additive(seq![id], seq![len] + (seq![code] + (params + seq![sum])), id);
    law_byte_sum_is_additive(seq![len], seq![code] + (params + seq![sum]), len);
    law_byte_sum_is_additive(seq![code], params + seq![sum], code);
    law_byte_sum_is_additive(params, seq![sum], sum);
    law_checksum_completes_the_sum(id, len, code, params);
}

// -- Status packets ----------------------------------------------------------

/// A stream that is no more than the front of a frame, or of noise, decides
/// nothing.
pub proof fn law_incomplete_frames_decide_nothing(
    a: Awaited,
    id: u8,
    code: u8,
    params: Seq<u8>,
    n: int,
)
    requires
        params.len() <= 253,
        0 <= n < params.len() + 6,
    ensures
        st3215::outcome(a, st3215::frame_of(id, code, params).take(n)) is Pending,
{
    let s = st3215::frame_of(id, code, params).take(n);
    law_frame_layout(id, code, params);
    if n >= 5 {
        assert(s.skip(2)[1] == params.len() + 2);
    }
}

/// A status packet of the addressed servo with the wrong number of parameters
/// fails the command, whatever its code; the echo is left out.
pub proof fn law_wrong_length_is_reported(a: Awaited, id: u8, code: u8, params: Seq<u8>, t: Seq<u8>)
    requires
        id == a.id || a.id == 0xFE,
        params.len() <= 253,
        params.len() != a.params,
        !(id == a.id && code == a.instr && a.len == params.len() + 2),
    ensures
        st3215::outcome(a, st3215::frame_of(id, code, params) + t) == Outcome::Failed(
            St3215Error::BadLength,
        ),
{
    st3215::lemma_frame(id, code, params, t);
    let len = (params.len() + 2) as u8;
    st3215::lemma_packet_first(a, id, code, params, st3215::checksum_of(id, len, code, params), t);
}

/// A length byte below two fails the command.
pub proof fn law_impossible_length_is_reported(a: Awaited, id: u8, len: u8, code: u8, t: Seq<u8>)
    requires
        len < 2,
    ensures
        st3215::outcome(a, seq![255u8, 255u8, id, len, code] + t) == Outcome::Failed(
            St3215Error::BadLength,
        ),
{
    let s = seq![255u8, 255u8, id, len, code] + t;
    assert(s.skip(2)[1] == len);
}

/// Only a reply of the addressed servo succeeds: parameters come from a frame
/// in the stream that carries code zero and their exact number.
pub proof fn law_success_comes_from_a_reply(a: Awaited, s: Seq<u8>)
    requires
        st3215::outcome(a, s) is Ready,
    ensures
        ({
            let params = st3215::outcome(a, s)->Ready_0;
            &&& params.len() == a.params
            &&& exists|k: int, id: u8|
                #![trigger st3215::frame_of(id, 0, params), s.skip(k)]
                0 <= k <= s.len() && (id == a.id || a.id == 0xFE) && params.len() <= 253
                    && st3215::frame_of(id, 0, params).is_prefix_of(s.skip(k))
        }),
    decreases s.len(),
{
    if s.len() < 2 {
    } else if s[0] != 0xFF || s[1] != 0xFF {
        law_success_comes_from_a_reply(a, s.skip(1));
        let params = st3215::outcome(a, s)->Ready_0;
        let (k, id) = choose|k: int, id: u8|
            #![trigger st3215::frame_of(id, 0, params), s.skip(1).skip(k)]
            0 <= k <= s.skip(1).len() && (id == a.id || a.id == 0xFE) && params.len() <= 253
                && st3215::frame_of(id, 0, params).is_prefix_of(s.skip(1).skip(k));
        assert(s.skip(1).skip(k) =~= s.skip(1 + k));
        assert(st3215::frame_of(id, 0, params).is_prefix_of(s.skip(1 + k)));
    } else {
        let f = s.skip(2);
        let params = st3215::outcome(a, s)->Ready_0;
        let n = f[1] + 2;
        let g = f.take(n);
        if st3215::verdict(a, g) is None {
            law_success_comes_from_a_reply(a, f.skip(n));
            let (k, id) = choose|k: int, id: u8|
                #![trigger st3215::frame_of(id, 0, params), f.skip(n).skip(k)]
                0 <= k <= f.skip(n).len() && (id == a.id || a.id == 0xFE) && params.len() <= 253
                    && st3215::frame_of(id, 0, params).is_prefix_of(f.skip(n).skip(k));
            assert(f.skip(n).skip(k) =~= s.skip(2 + n + k));
            assert(st3215::frame_of(id, 0, params).is_prefix_of(s.skip(2 + n + k)));
        } else {
            let id = f[0];
            assert(params =~= g.subrange(3, n - 1));
            assert(g.last() == st3215::checksum_of(id, f[1], 0, params));
            assert(f[1] == params.len() + 2);
            let fr = st3215::frame_of(id, 0, params);
            assert(fr =~= s.take(n + 2)) by {
                assert forall|i: int| 0 <= i < n + 2 implies fr[i] == #[trigger] s[i] by {
                    if i >= 5 && i < n + 1 {
                        assert(params[i - 5] == g[i - 2]);
                    }
                }
            }
            assert(s.skip(0) =~= s);
            assert(fr.is_prefix_of(s.skip(0)));
        }
    }
}

// -- Registers ---------------------------------------------------------------

/// Two bytes, low byte first, stand for one register value and the other way
/// round.
pub proof fn law_register_bytes(v: u16, lo: u8, hi: u8)
    ensures
        st3215::low_byte(v) + 256 * st3215::high_byte(v) == v,
        st3215::from_bytes(lo, hi) == lo + 256 * hi,
        st3215::from_bytes(st3215::low_byte(v), st3215::high_byte(v)) == v,
{
}

/// A register with bit 15 as its sign holds every magnitude up to 32767 in
/// either direction.
pub proof fn law_signed_15_reads_back(m: u16)
    requires
        m <= 0x7FFF,
    ensures
        st3215::signed_15(m) == m,
        st3215::signed_15((m + 0x8000) as u16) == -m,
{
}

/// A register with bit 10 as its sign holds every magnitude up to 1023 in
/// either direction, whatever stands above that bit.
pub proof fn law_signed_10_reads_back(m: u16, above: u16)
    requires
        m <= 0x3FF,
        above <= 31,
    ensures
        st3215::signed_10((m + 0x800 * above) as u16) == m,
        st3215::signed_10((m + 0x400 + 0x800 * above) as u16) == -m,
{
    let r = m + 0x800 * above;
    assert(r % 0x400 == m && (r / 0x400) % 2 == 0);
    let q = m + 0x400 + 0x800 * above;
    assert(q % 0x400 == m && (q / 0x400) % 2 == 1);
}

/// A wheel speed is written as its magnitude, with bit 15 set in reverse.
pub proof fn law_wheel_register(speed: int)
    requires
        0 <= speed <= 0x7FFF,
    ensures
        st3215::wheel_register(speed) == speed,
        speed > 0 ==> st3215::wheel_register(-speed) == 0x8000 + speed,
{
}

/// A state read reports what a servo keeps in its registers: position and
/// speed with bit 15 as the sign, load with bit 10 as the sign, voltage and
/// temperature as they are. Each is magnitude `m` or its negative.
pub proof fn law_state_registers_are_reported(
    pos: u16,
    pos_back: bool,
    speed: u16,
    speed_back: bool,
    load: u16,
    load_back: bool,
    b: Seq<u8>,
    st: ServoState,
)
    requires
        pos <= 0x7FFF,
        speed <= 0x7FFF,
        load <= 0x3FF,
        b.len() >= 8,
        b[0] + 256 * b[1] == pos + (if pos_back { 0x8000int } else { 0 }),
        b[2] + 256 * b[3] == speed + (if speed_back { 0x8000int } else { 0 }),
        b[4] + 256 * b[5] == load + (if load_back { 0x400int } else { 0 }),
        st3215::state_of(b, st),
    ensures
        st.pos == (if pos_back { -pos } else { pos as int }),
        st.speed == (if speed_back { -speed } else { speed as int }),
        st.load == (if load_back { -load } else { load as int }),
        st.voltage == b[6],
        st.temp == b[7],
{
    law_signed_10_reads_back(load, 0);
}

// -- Operations --------------------------------------------------------------

/// Whether `r` writes `values` to the registers of servo `id` from `reg` on and
/// has the write acknowledged within 15 ms.
pub open spec fn writes(r: RequestView, id: u8, reg: u8, values: Seq<u8>) -> bool {
    let f = r.frame();
    &&& f.len() == values.len() + 7
    &&& f[0] == 255 && f[1] == 255
    &&& f[2] == id
    &&& f[3] == values.len() + 3
    &&& f[4] == 3
    &&& f[5] == reg
    &&& f.subrange(6, values.len() + 6int) == values
    &&& st3215::byte_sum(f.skip(2)) % 256 == 255
    &&& r.reply == Some(0usize)
    &&& r.timeout_ms == 15
    &&& r.settle_ms == 0
}

proof fn lemma_writes(r: RequestView, id: u8, reg: u8, values: Seq<u8>)
    requires
        values.len() <= 252,
        r.id == id,
        r.instr == 3,
        r.params == seq![reg] + values,
        r.reply == Some(0usize),
        r.timeout_ms == 15,
        r.settle_ms == 0,
    ensures
        writes(r, id, reg, values),
{
    law_frame_layout(id, 3, r.params);
    let f = r.frame();
    let p = f.subrange(5, r.params.len() + 5int);
    assert(p[0] == f[5]);
    assert(f.subrange(6, values.len() + 6int) =~= p.skip(1));
    assert(r.params.skip(1) =~= values);
}

/// A move writes acceleration, position, a goal time of zero and speed to the
/// registers from 41 on: what a servo reads there, low byte first, is what was
/// asked for.
pub proof fn law_move_reaches_the_goal_registers(id: u8, pos: u16, speed: u16, acc: u8)
    ensures
        ({
            let rs = st3215::write_pos_requests(id, pos, speed, acc);
            let f = rs[0].frame();
            &&& rs.len() == 1
            &&& f.len() == 14
            &&& writes(rs[0], id, 41, f.subrange(6, 13))
            &&& f[6] == acc
            &&& f[7] + 256 * f[8] == pos
            &&& f[9] == 0 && f[10] == 0
            &&& f[11] + 256 * f[12] == speed
        }),
{
    let rs = st3215::write_pos_requests(id, pos, speed, acc);
    let g = st3215::goal_bytes(pos, speed, acc);
    lemma_writes(rs[0], id, 41, g);
    let f = rs[0].frame();
    let h = f.subrange(6, 13);
    assert(h == g);
    assert(f[6] == h[0] && f[7] == h[1] && f[8] == h[2] && f[9] == h[3] && f[10] == h[4] && f[11]
        == h[5] && f[12] == h[6]);
    law_register_bytes(pos, 0, 0);
    law_register_bytes(speed, 0, 0);
}

/// Two moves put the same frame on the bus only if they are the same move.
pub proof fn law_moves_are_told_apart(
    id: u8,
    pos: u16,
    speed: u16,
    acc: u8,
    id2: u8,
    pos2: u16,
    speed2: u16,
    acc2: u8,
)
    ensures
        st3215::write_pos_requests(id, pos, speed, acc)[0].frame() == st3215::write_pos_requests(
            id2,
            pos2,
            speed2,
            acc2,
        )[0].frame() <==> id == id2 && pos == pos2 && speed == speed2 && acc == acc2,
{
    law_move_reaches_the_goal_registers(id, pos, speed, acc);
    law_move_reaches_the_goal_registers(id2, pos2, speed2, acc2);
}

/// A synchronous move is one broadcast without an answer: seven bytes from
/// register 41 on for each of the first sixteen servos. What the `i`-th servo
/// reads in its entry, low byte first, is what was asked for it.
pub proof fn law_sync_move_reaches_the_goal_registers(moves: Seq<Move>, i: int)
    requires
        0 <= i < moves.len(),
        i < 16,
    ensures
        ({
            let rs = st3215::sync_write_pos_requests(moves);
            let n = if moves.len() <= 16 { moves.len() as int } else { 16 };
            let f = rs[0].frame();
            let e = 7 + 8 * i;
            &&& rs.len() == 1
            &&& rs[0].reply is None && rs[0].timeout_ms == 0 && rs[0].settle_ms == 0
            &&& f.len() == 8 + 8 * n
            &&& f[0] == 255 && f[1] == 255 && f[2] == 0xFE && f[3] == 8 * n + 4 && f[4] == 0x83
            &&& f[5] == 41 && f[6] == 7
            &&& f[e] == moves[i].0
            &&& f[e + 1] == moves[i].3
            &&& f[e + 2] + 256 * f[e + 3] == moves[i].1
            &&& f[e + 4] == 0 && f[e + 5] == 0
            &&& f[e + 6] + 256 * f[e + 7] == moves[i].2
            &&& st3215::byte_sum(f.skip(2)) % 256 == 255
        }),
{
    let rs = st3215::sync_write_pos_requests(moves);
    let lead = st3215::leading_moves(moves);
    let bytes = st3215::sync_goal_bytes(lead);
    st3215::law_sync_write_layout(lead, i);
    let p = rs[0].params;
    law_frame_layout(0xFE, 0x83, p);
    let f = rs[0].frame();
    assert(p =~= seq![41u8, 7u8] + bytes);
    let q = f.subrange(5, p.len() + 5int);
    assert(q == p);
    assert(f[5] == q[0] && f[6] == q[1]);
    let g = bytes.subrange(8 * i, 8 * i + 8);
    assert forall|k: int| 0 <= k < 8 implies f[7 + 8 * i + k] == #[trigger] g[k] by {
        assert(q[2 + 8 * i + k] == bytes[8 * i + k]);
    }
    let e = 7 + 8 * i;
    assert(f[e] == g[0] && f[e + 1] == g[1] && f[e + 2] == g[2] && f[e + 3] == g[3] && f[e + 4]
        == g[4] && f[e + 5] == g[5] && f[e + 6] == g[6] && f[e + 7] == g[7]);
    assert(lead[i] == moves[i]);
    assert(g == seq![lead[i].0] + st3215::goal_bytes(lead[i].1, lead[i].2, lead[i].3));
    law_register_bytes(lead[i].1, 0, 0);
    law_register_bytes(lead[i].2, 0, 0);
}

/// Nothing is sent where there is nothing to move.
pub proof fn law_empty_sync_move_is_over_at_once()
    ensures
        BusView::started(st3215::sync_write_pos_requests(Seq::empty())).phase == Phase::Done(
            Ok(Seq::empty()),
        ),
{
}

/// A ping is an empty instruction 1, answered without parameters within 50 ms.
pub proof fn law_ping_frame(id: u8)
    ensures
        ({
            let rs = st3215::ping_requests(id);
            let f = rs[0].frame();
            &&& rs.len() == 1
            &&& f.len() == 6
            &&& f[0] == 255 && f[1] == 255 && f[2] == id && f[3] == 2 && f[4] == 1
            &&& (id + 3 + f[5]) % 256 == 255
            &&& rs[0].reply == Some(0usize) && rs[0].timeout_ms == 50 && rs[0].settle_ms == 0
        }),
{
    law_frame_layout(id, 1, Seq::empty());
    law_checksum_completes_the_sum(id, 2, 1, Seq::empty());
}

/// A state read asks for the eight registers from 56 on within 15 ms.
pub proof fn law_state_read_frame(id: u8)
    ensures
        ({
            let rs = st3215::read_state_requests(id);
            let f = rs[0].frame();
            &&& rs.len() == 1
            &&& f.len() == 8
            &&& f[0] == 255 && f[1] == 255 && f[2] == id && f[3] == 4 && f[4] == 2
            &&& f[5] == 56 && f[6] == 8
            &&& st3215::byte_sum(f.skip(2)) % 256 == 255
            &&& rs[0].reply == Some(8usize) && rs[0].timeout_ms == 15 && rs[0].settle_ms == 0
        }),
{
    let p = st3215::read_state_requests(id)[0].params;
    law_frame_layout(id, 2, p);
    let f = st3215::read_state_requests(id)[0].frame();
    let q = f.subrange(5, 7);
    assert(q[0] == f[5] && q[1] == f[6]);
}

/// The switches of one servo: torque on and off, zero calibration, and the
/// return to position control, each one acknowledged register write.
pub proof fn law_servo_switches(id: u8)
    ensures
        st3215::set_torque_requests(id, true).len() == 1,
        writes(st3215::set_torque_requests(id, true)[0], id, 40, seq![1u8]),
        st3215::set_torque_requests(id, false).len() == 1,
        writes(st3215::set_torque_requests(id, false)[0], id, 40, seq![0u8]),
        st3215::calibrate_zero_requests(id).len() == 1,
        writes(st3215::calibrate_zero_requests(id)[0], id, 40, seq![128u8]),
        st3215::set_servo_mode_requests(id).len() == 1,
        writes(st3215::set_servo_mode_requests(id)[0], id, 33, seq![0u8]),
{
    assert(seq![40u8, 1u8] =~= seq![40u8] + seq![1u8]);
    assert(seq![40u8, 0u8] =~= seq![40u8] + seq![0u8]);
    assert(seq![40u8, 128u8] =~= seq![40u8] + seq![128u8]);
    assert(seq![33u8, 0u8] =~= seq![33u8] + seq![0u8]);
    lemma_writes(st3215::set_torque_requests(id, true)[0], id, 40, seq![1u8]);
    lemma_writes(st3215::set_torque_requests(id, false)[0], id, 40, seq![0u8]);
    lemma_writes(st3215::calibrate_zero_requests(id)[0], id, 40, seq![128u8]);
    lemma_writes(st3215::set_servo_mode_requests(id)[0], id, 33, seq![0u8]);
}

/// Rotation switches to wheel mode, then sets the acceleration, then the speed:
/// its magnitude low byte first, and bit 15 in reverse.
pub proof fn law_wheel_frames(id: u8, speed: i16, acc: u8)
    requires
        speed != i16::MIN,
    ensures
        ({
            let rs = st3215::write_wheel_speed_requests(id, speed, acc);
            let f = rs[2].frame();
            &&& rs.len() == 3
            &&& writes(rs[0], id, 33, seq![1u8])
            &&& writes(rs[1], id, 41, seq![acc])
            &&& f.len() == 9
            &&& writes(rs[2], id, 46, seq![f[6], f[7]])
            &&& f[6] + 256 * f[7] == (if speed < 0 { 0x8000 - speed } else { speed as int })
        }),
{
    let rs = st3215::write_wheel_speed_requests(id, speed, acc);
    let raw = st3215::wheel_register(speed as int);
    let lo = st3215::low_byte(raw);
    let hi = st3215::high_byte(raw);
    assert(seq![33u8, 1u8] =~= seq![33u8] + seq![1u8]);
    assert(seq![41u8, acc] =~= seq![41u8] + seq![acc]);
    assert(seq![46u8, lo, hi] =~= seq![46u8] + seq![lo, hi]);
    lemma_writes(rs[0], id, 33, seq![1u8]);
    lemma_writes(rs[1], id, 41, seq![acc]);
    lemma_writes(rs[2], id, 46, seq![lo, hi]);
    let f = rs[2].frame();
    let q = f.subrange(6, 8);
    assert(q[0] == f[6] && q[1] == f[7]);
    law_register_bytes(raw, 0, 0);
}

/// An ID change unlocks the EEPROM of the old ID, writes the new one without
/// waiting for an answer, pauses for 20 ms, and locks the EEPROM of the new ID.
pub proof fn law_id_change_frames(current: u8, new: u8)
    ensures
        ({
            let rs = st3215::write_id_requests(current, new);
            let f = rs[1].frame();
            &&& rs.len() == 3
            &&& writes(rs[0], current, 55, seq![0u8])
            &&& f.len() == 8
            &&& f[0] == 255 && f[1] == 255 && f[2] == current && f[3] == 4 && f[4] == 3
            &&& f[5] == 5 && f[6] == new
            &&& st3215::byte_sum(f.skip(2)) % 256 == 255
            &&& rs[1].reply is None && rs[1].timeout_ms == 15 && rs[1].settle_ms == 20
            &&& writes(rs[2], new, 55, seq![1u8])
        }),
{
    let rs = st3215::write_id_requests(current, new);
    assert(seq![55u8, 0u8] =~= seq![55u8] + seq![0u8]);
    assert(seq![55u8, 1u8] =~= seq![55u8] + seq![1u8]);
    lemma_writes(rs[0], current, 55, seq![0u8]);
    lemma_writes(rs[2], new, 55, seq![1u8]);
    let p = rs[1].params;
    law_frame_layout(current, 3, p);
    let f = rs[1].frame();
    let q = f.subrange(5, 7);
    assert(q[0] == f[5] && q[1] == f[6]);
}

// -- Transactions ------------------------------------------------------------

/// What an operation asks for is what its first pending request needs: its
/// frame, its answer within its time, its pause, or nothing any more.
pub proof fn law_operation_asks_for_its_request(v: BusView, action: BusAction)
    requires
        v.asks_for(action),
    ensures
        match action {
            BusAction::Send { packet, expects_reply, timeout_ms } => v.phase is Sending && packet@
                == st3215::frame_of(v.todo[0].id, v.todo[0].instr, v.todo[0].params)
                && expects_reply == (v.todo[0].reply is Some) && timeout_ms == v.todo[0].timeout_ms,
            BusAction::Receive => v.phase is Receiving,
            BusAction::Sleep { ms } => v.phase is Settling && ms == v.todo[0].settle_ms,
            BusAction::Finished(Ok(params)) => v.phase == Phase::Done(Ok(params@)),
            BusAction::Finished(Err(e)) => v.phase == Phase::Done(Err(e)),
        },
{
}

/// What a reader hands out is what the bytes amount to.
pub proof fn law_readings_are_outcomes(r: Received, o: Outcome)
    requires
        r.is_outcome(o),
    ensures
        match o {
            Outcome::Pending => r is Pending,
            Outcome::Ready(params) => r matches Received::Ready(p) && p@ == params,
            Outcome::Failed(e) => r == Received::Failed(e),
        },
{
}

/// The model of a request keeps every field of it.
pub proof fn law_request_models(r: Request)
    ensures
        r@.id == r.id,
        r@.instr == r.instr,
        r@.params == r.params@,
        r@.reply == r.reply,
        r@.timeout_ms == r.timeout_ms,
        r@.settle_ms == r.settle_ms,
        r@.frame() == st3215::frame_of(r.id, r.instr, r.params@),
{
}

/// An operation begins with the frame of its first request.
pub proof fn law_operation_begins_with_its_first_request(rs: Seq<RequestView>)
    requires
        rs.len() > 0,
    ensures
        BusView::started(rs).todo == rs,
        BusView::started(rs).phase is Sending,
{
}

/// A failure on the UART, a timeout and a failed status packet each end the
/// operation at once, with their own error.
pub proof fn law_failures_end_the_operation(v: BusView, b: u8)
    ensures
        v.phase is Sending ==> v.after(BusEvent::SendFailed).phase == Phase::Done(
            Err(St3215Error::UartTx),
        ),
        v.phase is Receiving ==> v.after(BusEvent::ReceiveFailed).phase == Phase::Done(
            Err(St3215Error::UartRx),
        ),
        v.phase is Receiving ==> v.after(BusEvent::TimedOut).phase == Phase::Done(
            Err(St3215Error::Timeout),
        ),
        v.phase matches Phase::Receiving(s) ==> (st3215::outcome(v.todo[0].awaited(), s.push(b))
            matches Outcome::Failed(e) ==> v.after(BusEvent::Byte(b)).phase == Phase::Done(Err(e))),
{
}

/// Whether the rest of an operation behind its first request is what is left.
pub open spec fn goes_on(v: BusView, w: BusView, params: Seq<u8>) -> bool {
    if v.todo.len() <= 1 {
        w.phase == Phase::Done(Ok(params))
    } else {
        w.phase is Sending && w.todo == v.todo.skip(1)
    }
}

/// A request without an answer is over once it is sent, and one with an answer
/// once that has come, after its pause where it has one. Then the next request
/// follows, or the operation ends with the parameters that came last.
pub proof fn law_requests_follow_each_other(v: BusView, b: u8)
    ensures
        v.phase is Sending && v.todo[0].reply is None && v.todo[0].settle_ms == 0 ==> goes_on(
            v,
            v.after(BusEvent::Sent),
            Seq::empty(),
        ),
        v.phase is Sending && v.todo[0].reply is None && v.todo[0].settle_ms > 0 ==> v.after(
            BusEvent::Sent,
        ).phase is Settling && v.after(BusEvent::Sent).todo == v.todo,
        v.phase is Sending && v.todo[0].reply is Some ==> v.after(BusEvent::Sent).phase
            == Phase::Receiving(Seq::empty()) && v.after(BusEvent::Sent).todo == v.todo,
        v.phase is Settling ==> goes_on(v, v.after(BusEvent::Slept), Seq::empty()),
        v.phase matches Phase::Receiving(s) ==> match st3215::outcome(
            v.todo[0].awaited(),
            s.push(b),
        ) {
            Outcome::Pending => v.after(BusEvent::Byte(b)).phase == Phase::Receiving(s.push(b))
                && v.after(BusEvent::Byte(b)).todo == v.todo,
            Outcome::Ready(params) => if v.todo[0].settle_ms > 0 {
                v.after(BusEvent::Byte(b)).phase is Settling && v.after(BusEvent::Byte(b)).todo
                    == v.todo
            } else {
                goes_on(v, v.after(BusEvent::Byte(b)), params)
            },
            Outcome::Failed(_) => true,
        },
{
}

/// The answer to a request is told by its servo, its instruction and its
/// length.
pub proof fn law_awaited_answer(r: RequestView, n: usize)
    requires
        r.params.len() <= 253,
        r.reply == Some(n),
    ensures
        r.awaited().id == r.id,
        r.awaited().instr == r.instr,
        r.awaited().len == r.params.len() + 2,
        r.awaited().params == n,
{
}

/// An event that does not answer the pending action changes nothing.
pub proof fn law_stray_events_change_nothing(v: BusView, event: BusEvent)
    requires
        match v.phase {
            Phase::Sending => event != BusEvent::Sent && event != BusEvent::SendFailed,
            Phase::Receiving(_) => !(event is Byte) && event != BusEvent::ReceiveFailed && event
                != BusEvent::TimedOut,
            Phase::Settling => event != BusEvent::Slept,
            Phase::Done(_) => true,
        },
    ensures
        v.after(event) == v,
{
}

// -- Scans -------------------------------------------------------------------

/// A scan looks at the IDs of its range one after the other, without 254, until
/// sixteen servos are found. Whoever answers is appended.
pub proof fn law_scan_goes_through_its_range(v: ScanView, responded: bool)
    requires
        0 <= v.next <= 256,
        v.to <= 255,
    ensures
        match v.target() {
            Some(id) => {
                &&& v.found.len() < 16
                &&& v.next <= id <= v.to
                &&& id != 254
                &&& id == v.next || v.next == 254 && id == 255
                &&& v.after(responded).next == id + 1
                &&& v.after(responded).to == v.to
                &&& v.after(responded).found == (if responded {
                    v.found + seq![id]
                } else {
                    v.found
                })
            },
            None => v.found.len() >= 16 || v.to < v.next || v.next == 254 && v.to == 254,
        },
{
    if v.target() is Some && responded {
        assert(v.after(responded).found =~= v.found + seq![v.target().unwrap()]);
    }
}

/// Where a scan ends: the servos found lie in its range, answered, and are in
/// ascending order; nobody who answers is left out before the sixteenth.
pub proof fn law_scan_leaves_nobody_out(v: ScanView, alive: Set<u8>, id: u8)
    requires
        0 <= v.next <= 256,
        v.to <= 255,
        v.found.len() <= 16,
    ensures
        ({
            let found = v.run(alive).found;
            &&& v.found.is_prefix_of(found)
            &&& found.len() <= 16
            &&& forall|k: int|
                v.found.len() <= k < found.len() ==> v.next <= #[trigger] found[k] <= v.to && found[k]
                    != 254 && alive.contains(found[k])
            &&& forall|j: int, k: int|
                v.found.len() <= j < k < found.len() ==> (#[trigger] found[j]) < (#[trigger] found[k])
            &&& v.next <= id <= v.to && id != 254 && alive.contains(id) ==> found.skip(
                v.found.len() as int,
            ).contains(id) || found.len() == 16 && (v.found.len() == 16 || found.last() < id)
        }),
    decreases v.to - v.next + 1,
{
    let found = v.run(alive).found;
    match v.target() {
        None => {
            assert(found.skip(v.found.len() as int) =~= Seq::empty());
        },
        Some(t) => {
            let w = v.after(alive.contains(t));
            law_scan_leaves_nobody_out(w, alive, id);
            let old = v.found.len() as int;
            if alive.contains(t) {
                assert(w.found[old] == t);
                assert(found[old] == t);
                assert(found.skip(old)[0] == t);
                let rest = found.skip(old + 1);
                if rest.contains(id) {
                    let k = choose|k: int| 0 <= k < rest.len() && rest[k] == id;
                    assert(found.skip(old)[k + 1] == id);
                }
                if found.len() == 16 && w.found.len() == 16 {
                    assert(found.last() == t);
                }
                assert(v.found.is_prefix_of(found)) by {
                    assert(v.found.is_prefix_of(w.found));
                }
            }
        },
    }
}

} // verus!
