//! ST3215 serial bus servo driver (Feetech `SMS_STS` protocol).
//!
//! Half-duplex UART at 1 Mbps, 8N1. Depending on the transceiver path,
//! transmitted bytes may echo on RX; receive parsing treats echoes as optional
//! and scans for a valid status packet.
//!
//! Only the STS series (LSB-first register encoding) is supported here.
//!
//! The driver does no I/O. [`St3215Bus`] says what to do next with the UART
//! ([`BusAction`]) and is told what came of it ([`BusEvent`]).
use crate::bounded;
pub use crate::bounded::{Move, ServoList, MAX_SERVOS};
use crate::text;
use vstd::prelude::*;
use vstd::string::*;

verus! {

pub const BROADCAST_ID: u8 = 0xFE;

// Instructions
pub const INST_PING: u8 = 0x01;

pub const INST_READ: u8 = 0x02;

pub const INST_WRITE: u8 = 0x03;

pub const INST_SYNC_WRITE: u8 = 0x83;

// SRAM / EEPROM register addresses (ST series)
pub const REG_ID: u8 = 5;

pub const REG_MODE: u8 = 33;

pub const REG_TORQUE_ENABLE: u8 = 40;

// 41..=47 covers acc, goal_pos, goal_time, goal_speed
pub const REG_ACC: u8 = 41;

pub const REG_GOAL_SPEED: u8 = 46;

pub const REG_LOCK: u8 = 55;

// 56..=63 covers pos, speed, load, voltage, temp
pub const REG_PRESENT_POS: u8 = 56;

/// Sum of all bytes of `s`.
pub open spec fn byte_sum(s: Seq<u8>) -> nat
    decreases s.len(),
{
    if s.len() == 0 {
        0
    } else {
        byte_sum(s.drop_last()) + s.last() as nat
    }
}

/// The checksum byte of a frame: the ones' complement of the low byte of the
/// sum of everything between the header and the checksum itself.
pub open spec fn checksum_of(id: u8, len: u8, code: u8, params: Seq<u8>) -> u8 {
    (255 - (id + len + code + byte_sum(params)) % 256) as u8
}

/// A complete frame: `FF FF id len code params.. checksum`, with
/// `len = params + 2`. Commands and status replies share this layout; `code`
/// is the instruction of a command and the error byte of a reply.
pub open spec fn frame_of(id: u8, code: u8, params: Seq<u8>) -> Seq<u8> {
    let len = (params.len() + 2) as u8;
    seq![0xFFu8, 0xFFu8, id, len, code] + params + seq![checksum_of(id, len, code, params)]
}

/// The checksum byte of a frame.
pub fn checksum(id: u8, len: u8, instr: u8, params: &[u8]) -> (r: u8)
    ensures
        r == checksum_of(id, len, instr, params@),
{
    let mut sum: u32 = id as u32 + len as u32 + instr as u32;
    let mut i: usize = 0;
    assert(params@.take(0) =~= Seq::<u8>::empty());
    while i < params.len()
        invariant
            i <= params@.len(),
            sum as int % 256 == (id + len + instr + byte_sum(params@.take(i as int))) % 256,
        decreases params@.len() - i,
    {
        assert(params@.take(i + 1).drop_last() =~= params@.take(i as int));
        sum = sum.wrapping_add(params[i] as u32);
        i = i + 1;
    }
    assert(params@.take(params@.len() as int) =~= params@);
    let low: u8 = sum as u8;
    assert(low as int == sum as int % 256 && !low == 255 - low) by {
        assert(sum as u8 == sum % 256) by (bit_vector);
        assert(!low == 255u8 - low) by (bit_vector);
    }
    !low
}

/// Build a packet into `buf` and return its length.
pub fn build_packet(buf: &mut [u8], id: u8, instr: u8, params: &[u8]) -> (n: usize)
    requires
        params@.len() <= 253,
        old(buf)@.len() >= params@.len() + 6,
    ensures
        n == params@.len() + 6,
        final(buf)@ == frame_of(id, instr, params@) + old(buf)@.skip(n as int),
{
    let len: u8 = params.len() as u8 + 2;
    buf[0] = 0xFF;
    buf[1] = 0xFF;
    buf[2] = id;
    buf[3] = len;
    buf[4] = instr;
    let mut i: usize = 0;
    while i < params.len()
        invariant
            i <= params@.len() <= 253,
            old(buf)@.len() >= params@.len() + 6,
            buf@ == seq![0xFFu8, 0xFFu8, id, len, instr] + params@.take(i as int) + old(buf)@.skip(5 + i),
        decreases params@.len() - i,
    {
        buf[5 + i] = params[i];
        i = i + 1;
    }
    buf[5 + params.len()] = checksum(id, len, instr, params);
    6 + params.len()
}

/// What went wrong on the bus.
#[derive(Debug, Clone, Copy, PartialEq, Eq, Structural)]
pub enum St3215Error {
    Timeout,
    BadHeader,
    BadChecksum,
    BadLength,
    UartTx,
    UartRx,
    /// Status packet's error byte was non-zero.
    Status(u8),
}

/// The name of an error, with the error byte of a failed status packet.
pub open spec fn error_name(e: St3215Error) -> Seq<char> {
    match e {
        St3215Error::Timeout => "Timeout"@,
        St3215Error::BadHeader => "BadHeader"@,
        St3215Error::BadChecksum => "BadChecksum"@,
        St3215Error::BadLength => "BadLength"@,
        St3215Error::UartTx => "UartTx"@,
        St3215Error::UartRx => "UartRx"@,
        St3215Error::Status(code) => "Status("@ + text::dec(code as nat) + ")"@,
    }
}

impl St3215Error {
    /// The name of the error.
    pub fn name(&self) -> (r: String)
        ensures
            r@ == error_name(*self),
    {
        match self {
            St3215Error::Timeout => String::from_str("Timeout"),
            St3215Error::BadHeader => String::from_str("BadHeader"),
            St3215Error::BadChecksum => String::from_str("BadChecksum"),
            St3215Error::BadLength => String::from_str("BadLength"),
            St3215Error::UartTx => String::from_str("UartTx"),
            St3215Error::UartRx => String::from_str("UartRx"),
            St3215Error::Status(code) => {
                let mut out: String = String::from_str("Status(");
                text::push_dec(&mut out, *code as u32);
                out.append(")");
                out
            },
        }
    }
}

/// The command a status packet is awaited for.
#[derive(Debug, Clone, Copy, PartialEq, Eq, Structural)]
pub struct Awaited {
    /// Addressed servo.
    pub id: u8,
    /// Length byte of the command frame.
    pub len: u8,
    /// Instruction byte of the command frame.
    pub instr: u8,
    /// Parameter bytes the status packet has to carry.
    pub params: usize,
}

/// What a stream of received bytes says about an awaited status packet.
pub enum Outcome {
    /// No packet in it decides yet.
    Pending,
    /// The status packet is there, with these parameters.
    Ready(Seq<u8>),
    /// The stream holds a packet that fails the command.
    Failed(St3215Error),
}

/// Whether `f` (the bytes behind a header: id, length, code, parameters,
/// checksum) ends in the checksum of what precedes it.
pub open spec fn checksum_holds(f: Seq<u8>) -> bool
    recommends
        f.len() >= 4,
{
    f.last() == checksum_of(f[0], f[1], f[2], f.subrange(3, f.len() - 1))
}

/// What one complete packet `f` (without its header) means for the awaited
/// command: `None` when it is to be passed over, because its checksum is
/// wrong, because it is the echo of the command itself, or because another
/// servo sent it.
pub open spec fn verdict(a: Awaited, f: Seq<u8>) -> Option<Outcome> {
    let params = f.subrange(3, f.len() - 1);
    if !checksum_holds(f) {
        None
    } else if f[0] == a.id && f[1] == a.len && f[2] == a.instr {
        None
    } else if f[0] != a.id && a.id != BROADCAST_ID {
        None
    } else if params.len() != a.params {
        Some(Outcome::Failed(St3215Error::BadLength))
    } else if f[2] != 0 {
        Some(Outcome::Failed(St3215Error::Status(f[2])))
    } else {
        Some(Outcome::Ready(params))
    }
}

/// What the received bytes `s` say about the awaited status packet: packets
/// are cut out of the stream one behind the other, each behind the next
/// `FF FF`, until one of them decides.
pub open spec fn outcome(a: Awaited, s: Seq<u8>) -> Outcome
    decreases s.len(),
{
    if s.len() < 2 {
        Outcome::Pending
    } else if s[0] != 0xFF || s[1] != 0xFF {
        outcome(a, s.skip(1))
    } else {
        let f = s.skip(2);
        if f.len() < 3 {
            Outcome::Pending
        } else if f[1] < 2 {
            Outcome::Failed(St3215Error::BadLength)
        } else if f.len() < f[1] + 2 {
            Outcome::Pending
        } else {
            match verdict(a, f.take(f[1] + 2)) {
                Some(v) => v,
                None => outcome(a, f.skip(f[1] + 2)),
            }
        }
    }
}

/// Answer of [`StatusReader::feed`].
#[derive(Debug)]
pub enum Received {
    /// More bytes are needed.
    Pending,
    /// The awaited status packet, reduced to its parameters.
    Ready(Vec<u8>),
    /// The command failed.
    Failed(St3215Error),
}

impl Received {
    pub open spec fn is_outcome(self, o: Outcome) -> bool {
        match self {
            Received::Pending => o is Pending,
            Received::Ready(params) => o == Outcome::Ready(params@),
            Received::Failed(e) => o == Outcome::Failed(e),
        }
    }
}

/// Reads the next well-formed status packet out of a stream of bytes,
/// skipping line noise, damaged packets, packets of other servos and the
/// optional echo of the command.
pub struct StatusReader {
    awaited: Awaited,
    /// Whether a header has been seen and `frame` is being filled.
    synced: bool,
    /// Byte before the next one, while no header has been seen.
    prev: u8,
    /// Bytes behind the header so far.
    frame: Vec<u8>,
    seen: Ghost<Seq<u8>>,
}

impl StatusReader {
    /// The command whose status packet is awaited.
    pub closed spec fn awaited(self) -> Awaited {
        self.awaited
    }

    /// All bytes fed so far.
    pub closed spec fn seen(self) -> Seq<u8> {
        self.seen@
    }

    /// The bytes that still matter: all of `seen` before them has been passed
    /// over.
    spec fn kept(self) -> Seq<u8> {
        if self.synced {
            seq![0xFFu8, 0xFFu8] + self.frame@
        } else if self.prev == 0xFF {
            seq![0xFFu8]
        } else {
            Seq::empty()
        }
    }

    pub closed spec fn wf(self) -> bool {
        &&& self.synced ==> self.frame@.len() >= 3 ==> self.frame@[1] >= 2 && self.frame@.len()
            < self.frame@[1] + 2
        &&& forall|t: Seq<u8>|
            outcome(self.awaited, #[trigger] (self.seen@ + t)) == outcome(
                self.awaited,
                self.kept() + t,
            )
    }

    /// A reader that has seen nothing yet.
    pub fn new(awaited: Awaited) -> (r: StatusReader)
        ensures
            r.wf(),
            r.awaited() == awaited,
            r.seen() == Seq::<u8>::empty(),
    {
        StatusReader {
            awaited,
            synced: false,
            prev: 0,
            frame: Vec::new(),
            seen: Ghost(Seq::empty()),
        }
    }

    /// Take one more byte. The answer is what all bytes so far say; once it is
    /// not `Pending` the reader is done.
    pub fn feed(&mut self, byte: u8) -> (r: Received)
        requires
            old(self).wf(),
        ensures
            final(self).awaited() == old(self).awaited(),
            final(self).seen() == old(self).seen().push(byte),
            r.is_outcome(outcome(final(self).awaited(), final(self).seen())),
            r is Pending ==> final(self).wf(),
    {
        let ghost before = self.kept();
        let ghost a = self.awaited;
        let ghost now = before.push(byte);
        proof {
            assert forall|t: Seq<u8>|
                outcome(a, #[trigger] (self.seen@.push(byte) + t)) == outcome(a, now + t) by {
                assert(self.seen@.push(byte) + t =~= self.seen@ + (seq![byte] + t));
                assert(now + t =~= before + (seq![byte] + t));
            }
            assert(self.seen@.push(byte) + Seq::empty() =~= self.seen@.push(byte));
            assert(now + Seq::empty() =~= now);
        }
        self.seen = Ghost(self.seen@.push(byte));
        if !self.synced {
            if self.prev == 0xFF && byte == 0xFF {
                self.synced = true;
                self.frame = Vec::new();
                assert(self.kept() =~= now);
            } else {
                self.prev = byte;
                assert forall|t: Seq<u8>| outcome(a, #[trigger] (now + t)) == outcome(a, self.kept() + t) by {
                    assert((now + t).skip(1) =~= if now.len() == 2 { seq![byte] + t } else { t });
                    if byte != 0xFF {
                        lemma_noise(a, byte, t);
                    }
                    assert(seq![byte] + t =~= self.kept() + t || byte != 0xFF);
                    assert(Seq::empty() + t =~= t);
                    assert(now =~= seq![byte] || now =~= seq![0xFFu8, byte]);
                }
            }
            return Received::Pending;
        }
        self.frame.push(byte);
        let ghost f = self.frame@;
        assert(self.kept() =~= now);
        assert(now.skip(2) =~= f);
        let n: usize = self.frame.len();
        if n < 3 {
            return Received::Pending;
        }
        let len: u8 = self.frame[1];
        if len < 2 {
            return Received::Failed(St3215Error::BadLength);
        }
        if n < len as usize + 2 {
            return Received::Pending;
        }
        assert(f.take(f[1] + 2) =~= f);
        assert(f.skip(f[1] + 2) =~= Seq::empty());
        let id: u8 = self.frame[0];
        let code: u8 = self.frame[2];
        let body: &[u8] = vstd::slice::slice_subrange(self.frame.as_slice(), 3, n - 1);
        let echo: bool = id == self.awaited.id && len == self.awaited.len && code
            == self.awaited.instr;
        let foreign: bool = id != self.awaited.id && self.awaited.id != BROADCAST_ID;
        if self.frame[n - 1] != checksum(id, len, code, body) || echo || foreign {
            self.synced = false;
            self.prev = 0;
            assert forall|t: Seq<u8>| outcome(a, #[trigger] (now + t)) == outcome(a, self.kept() + t) by {
                let g = (now + t).skip(2);
                assert(g =~= f + t);
                assert(g.take(g[1] + 2) =~= f);
                assert(g.skip(g[1] + 2) =~= self.kept() + t);
            }
            return Received::Pending;
        }
        if body.len() != self.awaited.params {
            return Received::Failed(St3215Error::BadLength);
        }
        if code != 0 {
            return Received::Failed(St3215Error::Status(code));
        }
        Received::Ready(vstd::slice::slice_to_vec(body))
    }
}

/// A byte other than `FF` in front of a stream does not matter.
proof fn lemma_noise(a: Awaited, byte: u8, t: Seq<u8>)
    requires
        byte != 0xFF,
    ensures
        outcome(a, seq![byte] + t) == outcome(a, t),
{
    assert((seq![byte] + t).skip(1) =~= t);
}

/// How a stream that starts with one packet is judged.
pub(crate) proof fn lemma_packet_first(a: Awaited, id: u8, code: u8, params: Seq<u8>, sum: u8, t: Seq<u8>)
    requires
        params.len() <= 253,
    ensures
        ({
            let len = (params.len() + 2) as u8;
            let f = seq![id, len, code] + params + seq![sum];
            &&& f.subrange(3, f.len() - 1) == params
            &&& f.last() == sum
            &&& outcome(a, seq![0xFFu8, 0xFFu8] + f + t) == match verdict(a, f) {
                Some(v) => v,
                None => outcome(a, t),
            }
        }),
{
    let len = (params.len() + 2) as u8;
    let f = seq![id, len, code] + params + seq![sum];
    let s = seq![0xFFu8, 0xFFu8] + f + t;
    let g = s.skip(2);
    assert(g =~= f + t);
    assert(g.take(g[1] + 2) =~= f);
    assert(g.skip(g[1] + 2) =~= t);
    assert(f.subrange(3, f.len() - 1) =~= params);
}

/// A frame is its header followed by the bytes that the checksum closes.
pub(crate) proof fn lemma_frame(id: u8, code: u8, params: Seq<u8>, t: Seq<u8>)
    ensures
        ({
            let len = (params.len() + 2) as u8;
            let f = seq![id, len, code] + params + seq![checksum_of(id, len, code, params)];
            frame_of(id, code, params) + t == seq![0xFFu8, 0xFFu8] + f + t
        }),
{
    let len = (params.len() + 2) as u8;
    let f = seq![id, len, code] + params + seq![checksum_of(id, len, code, params)];
    assert(frame_of(id, code, params) + t =~= seq![0xFFu8, 0xFFu8] + f + t);
}

/// The echo of the command is optional: with or without it in front, a stream
/// means the same.
pub proof fn law_echo_is_optional(a: Awaited, params: Seq<u8>, t: Seq<u8>)
    requires
        params.len() <= 253,
        a.len == params.len() + 2,
    ensures
        outcome(a, frame_of(a.id, a.instr, params) + t) == outcome(a, t),
{
    lemma_frame(a.id, a.instr, params, t);
    lemma_packet_first(a, a.id, a.instr, params, checksum_of(a.id, a.len, a.instr, params), t);
}

/// A status packet without an error gives back exactly the parameters that
/// the servo put into it, whatever follows. The one packet that cannot be told
/// from an echo is left out.
pub proof fn law_reply_is_read_back(a: Awaited, id: u8, params: Seq<u8>, t: Seq<u8>)
    requires
        id == a.id || a.id == BROADCAST_ID,
        params.len() <= 253,
        params.len() == a.params,
        !(id == a.id && a.instr == 0 && a.len == params.len() + 2),
    ensures
        outcome(a, frame_of(id, 0, params) + t) == Outcome::Ready(params),
{
    let len = (params.len() + 2) as u8;
    lemma_frame(id, 0, params, t);
    lemma_packet_first(a, id, 0, params, checksum_of(id, len, 0, params), t);
}

/// A status packet with an error byte fails the command with that byte. The
/// one packet that cannot be told from an echo is left out: the error byte
/// equals the instruction and the length equals the command's.
pub proof fn law_error_status_is_reported(
    a: Awaited,
    id: u8,
    code: u8,
    params: Seq<u8>,
    t: Seq<u8>,
)
    requires
        id == a.id || a.id == BROADCAST_ID,
        params.len() <= 253,
        params.len() == a.params,
        code != 0,
        !(id == a.id && code == a.instr && a.len == params.len() + 2),
    ensures
        outcome(a, frame_of(id, code, params) + t) == Outcome::Failed(St3215Error::Status(code)),
{
    let len = (params.len() + 2) as u8;
    lemma_frame(id, code, params, t);
    lemma_packet_first(a, id, code, params, checksum_of(id, len, code, params), t);
}

/// Packets of other servos are passed over, unless everybody was addressed.
pub proof fn law_other_servos_are_ignored(
    a: Awaited,
    id: u8,
    code: u8,
    params: Seq<u8>,
    t: Seq<u8>,
)
    requires
        id != a.id,
        a.id != BROADCAST_ID,
        params.len() <= 253,
    ensures
        outcome(a, frame_of(id, code, params) + t) == outcome(a, t),
{
    let len = (params.len() + 2) as u8;
    lemma_frame(id, code, params, t);
    lemma_packet_first(a, id, code, params, checksum_of(id, len, code, params), t);
}

/// A packet whose checksum is wrong is passed over.
pub proof fn law_damaged_packets_are_ignored(
    a: Awaited,
    id: u8,
    code: u8,
    params: Seq<u8>,
    sum: u8,
    t: Seq<u8>,
)
    requires
        params.len() <= 253,
        sum != checksum_of(id, (params.len() + 2) as u8, code, params),
    ensures
        outcome(
            a,
            seq![0xFFu8, 0xFFu8] + (seq![id, (params.len() + 2) as u8, code] + params + seq![sum])
                + t,
        ) == outcome(a, t),
{
    lemma_packet_first(a, id, code, params, sum, t);
}

/// Line noise in front of a stream is passed over. It must not look like the
/// head of a packet: it neither holds `FF FF` nor ends in `FF`.
pub proof fn law_noise_is_ignored(a: Awaited, noise: Seq<u8>, t: Seq<u8>)
    requires
        forall|i: int| 0 < i < noise.len() ==> noise[i - 1] != 0xFF || (#[trigger] noise[i]) != 0xFF,
        noise.len() > 0 ==> noise.last() != 0xFF,
    ensures
        outcome(a, noise + t) == outcome(a, t),
    decreases noise.len(),
{
    if noise.len() == 0 {
        assert(noise + t =~= t);
    } else {
        let rest = noise.skip(1);
        assert forall|i: int| 0 < i < rest.len() implies rest[i - 1] != 0xFF || (#[trigger] rest[i])
            != 0xFF by {
            assert(rest[i] == noise[i + 1]);
        }
        law_noise_is_ignored(a, rest, t);
        assert((noise + t).skip(1) =~= rest + t);
        if noise.len() > 1 {
            assert((noise + t)[1] == noise[1]);
        }
    }
}

/// Once a stream has decided, later bytes do not change the answer.
pub proof fn law_decision_is_final(a: Awaited, s: Seq<u8>, t: Seq<u8>)
    requires
        !(outcome(a, s) is Pending),
    ensures
        outcome(a, s + t) == outcome(a, s),
    decreases s.len(),
{
    if s.len() < 2 {
    } else if s[0] != 0xFF || s[1] != 0xFF {
        law_decision_is_final(a, s.skip(1), t);
        assert((s + t).skip(1) =~= s.skip(1) + t);
    } else {
        let f = s.skip(2);
        assert((s + t).skip(2) =~= f + t);
        if f.len() >= 3 && f[1] >= 2 && f.len() >= f[1] + 2 {
            assert((f + t).take(f[1] + 2) =~= f.take(f[1] + 2));
            assert((f + t).skip(f[1] + 2) =~= f.skip(f[1] + 2) + t);
            if verdict(a, f.take(f[1] + 2)) is None {
                law_decision_is_final(a, f.skip(f[1] + 2), t);
            }
        }
    }
}

/// Every frame carries the checksum and the length that a receiver expects.
pub proof fn law_frames_check(id: u8, code: u8, params: Seq<u8>)
    requires
        params.len() <= 253,
    ensures
        ({
            let f = frame_of(id, code, params);
            &&& f.len() == params.len() + 6
            &&& f[0] == 0xFF && f[1] == 0xFF && f[2] == id && f[4] == code
            &&& f[3] == f.len() - 4
            &&& checksum_holds(f.skip(2))
        }),
{
    let f = frame_of(id, code, params).skip(2);
    assert(f.subrange(3, f.len() - 1) =~= params);
}

// -- Register encodings ------------------------------------------------------

/// Low byte of a register value.
pub open spec fn low_byte(v: u16) -> u8 {
    (v % 256) as u8
}

/// High byte of a register value.
pub open spec fn high_byte(v: u16) -> u8 {
    (v / 256) as u8
}

/// The value of two bytes, low byte first.
pub open spec fn from_bytes(lo: u8, hi: u8) -> u16 {
    (lo + 256 * hi) as u16
}

pub(crate) fn lo(v: u16) -> (r: u8)
    ensures
        r == low_byte(v),
{
    (v % 256) as u8
}

pub(crate) fn hi(v: u16) -> (r: u8)
    ensures
        r == high_byte(v),
{
    (v / 256) as u8
}

pub(crate) fn word(lo: u8, hi: u8) -> (r: u16)
    ensures
        r == from_bytes(lo, hi),
{
    lo as u16 + 256 * hi as u16
}

/// Value of a register whose bit 15 is the sign of its other 15 bits.
pub open spec fn signed_15(raw: u16) -> int {
    if raw >= 0x8000 {
        0x8000 - raw
    } else {
        raw as int
    }
}

/// Value of a register whose bit 10 is the sign of its low 10 bits.
pub open spec fn signed_10(raw: u16) -> int {
    let mag = raw as int % 0x400;
    if (raw as int / 0x400) % 2 == 1 {
        -mag
    } else {
        mag
    }
}

/// Feetech "TO_HOST" conversion: bit 15 acts as a sign bit for some
/// 12-bit registers (position, speed).
pub fn to_signed_15(raw: u16) -> (r: i16)
    ensures
        r == signed_15(raw),
{
    if raw >= 0x8000 {
        -((raw - 0x8000) as i16)
    } else {
        raw as i16
    }
}

/// Load is encoded with bit 10 as the sign (low 10 bits = per mille).
pub fn to_signed_10(raw: u16) -> (r: i16)
    ensures
        r == signed_10(raw),
{
    let mag: i16 = (raw % 0x400) as i16;
    if (raw / 0x400) % 2 == 1 {
        -mag
    } else {
        mag
    }
}

/// Register value of a signed wheel speed: the magnitude, with bit 15 set when
/// the speed is negative.
pub open spec fn wheel_register(speed: int) -> u16 {
    if speed < 0 {
        (0x8000 - speed) as u16
    } else {
        speed as u16
    }
}

/// What is written for a wheel speed reads back as that speed.
pub proof fn law_wheel_speed_reads_back(speed: int)
    requires
        -0x8000 < speed < 0x8000,
    ensures
        signed_15(
            from_bytes(low_byte(wheel_register(speed)), high_byte(wheel_register(speed))),
        ) == speed,
{
}

/// Readings of one servo.
#[derive(Debug, Clone, Copy, PartialEq, Eq, Structural)]
pub struct ServoState {
    pub pos: i16,
    pub speed: i16,
    pub load: i16,
    /// Tenths of a volt.
    pub voltage: u8,
    /// Degrees Celsius.
    pub temp: u8,
}

impl Default for ServoState {
    fn default() -> (r: ServoState)
        ensures
            r.pos == 0 && r.speed == 0 && r.load == 0 && r.voltage == 0 && r.temp == 0,
    {
        ServoState { pos: 0, speed: 0, load: 0, voltage: 0, temp: 0 }
    }
}

/// Whether `st` is what the eight bytes from register 56 on say.
pub open spec fn state_of(b: Seq<u8>, st: ServoState) -> bool {
    &&& st.pos == signed_15(from_bytes(b[0], b[1]))
    &&& st.speed == signed_15(from_bytes(b[2], b[3]))
    &&& st.load == signed_10(from_bytes(b[4], b[5]))
    &&& st.voltage == b[6]
    &&& st.temp == b[7]
}

/// Decode the parameters of the answer to [`St3215Bus::read_state`].
pub fn decode_state(params: &[u8]) -> (r: Result<ServoState, St3215Error>)
    ensures
        match r {
            Ok(st) => params@.len() >= 8 && state_of(params@, st),
            Err(e) => params@.len() < 8 && e == St3215Error::BadLength,
        },
{
    if params.len() < 8 {
        return Err(St3215Error::BadLength);
    }
    Ok(
        ServoState {
            pos: to_signed_15(word(params[0], params[1])),
            speed: to_signed_15(word(params[2], params[3])),
            load: to_signed_10(word(params[4], params[5])),
            voltage: params[6],
            temp: params[7],
        },
    )
}

// -- Bus transactions --------------------------------------------------------

/// One command frame and what is expected back.
#[derive(Debug)]
pub struct Request {
    pub id: u8,
    pub instr: u8,
    pub params: Vec<u8>,
    /// Parameter bytes of the status packet, or `None` when none is awaited.
    pub reply: Option<usize>,
    /// Time allowed for the status packet.
    pub timeout_ms: u32,
    /// Pause after the command has succeeded.
    pub settle_ms: u32,
}

/// Model of a [`Request`].
#[verifier::ext_equal]
pub struct RequestView {
    pub id: u8,
    pub instr: u8,
    pub params: Seq<u8>,
    pub reply: Option<usize>,
    pub timeout_ms: u32,
    pub settle_ms: u32,
}

impl View for Request {
    type V = RequestView;

    open spec fn view(&self) -> RequestView {
        RequestView {
            id: self.id,
            instr: self.instr,
            params: self.params@,
            reply: self.reply,
            timeout_ms: self.timeout_ms,
            settle_ms: self.settle_ms,
        }
    }
}

impl RequestView {
    /// The bytes put on the wire.
    pub open spec fn frame(self) -> Seq<u8> {
        frame_of(self.id, self.instr, self.params)
    }

    /// What the status packet of this request is recognised by.
    pub open spec fn awaited(self) -> Awaited {
        Awaited {
            id: self.id,
            len: (self.params.len() + 2) as u8,
            instr: self.instr,
            params: self.reply.unwrap(),
        }
    }
}

/// What the driver asks for next.
#[derive(Debug)]
pub enum BusAction {
    /// Drain the receiver, send `packet` and flush. When no reply is expected
    /// drain the receiver once more; otherwise bytes are awaited for
    /// `timeout_ms` from here on.
    Send { packet: Vec<u8>, expects_reply: bool, timeout_ms: u32 },
    /// Receive one more byte before the deadline.
    Receive,
    /// Pause.
    Sleep { ms: u32 },
    /// The operation is over.
    Finished(Result<Vec<u8>, St3215Error>),
}

/// What came of a [`BusAction`].
#[derive(Debug, Clone, Copy, PartialEq, Eq, Structural)]
pub enum BusEvent {
    Sent,
    SendFailed,
    Byte(u8),
    ReceiveFailed,
    TimedOut,
    Slept,
}

/// Model of where an operation stands.
pub enum Phase {
    /// The frame of the first request in `todo` is to be sent.
    Sending,
    /// Its status packet is awaited; these bytes have come since.
    Receiving(Seq<u8>),
    /// Its pause is to be kept.
    Settling,
    /// Nothing is left to do.
    Done(Result<Seq<u8>, St3215Error>),
}

/// Model of [`St3215Bus`]: the requests not yet answered, and how far the
/// first of them has got.
#[verifier::ext_equal]
pub struct BusView {
    pub todo: Seq<RequestView>,
    pub phase: Phase,
}

impl BusView {
    /// An operation that sends `requests` one after the other and stops at the
    /// first that fails.
    pub open spec fn started(requests: Seq<RequestView>) -> BusView {
        if requests.len() == 0 {
            BusView { todo: requests, phase: Phase::Done(Ok(Seq::empty())) }
        } else {
            BusView { todo: requests, phase: Phase::Sending }
        }
    }

    /// An operation that is over.
    pub open spec fn finished(r: Result<Seq<u8>, St3215Error>) -> BusView {
        BusView { todo: Seq::empty(), phase: Phase::Done(r) }
    }

    /// The first request is dealt with; `params` came back for it.
    pub open spec fn next(self, params: Seq<u8>) -> BusView {
        if self.todo.len() <= 1 {
            Self::finished(Ok(params))
        } else {
            BusView { todo: self.todo.skip(1), phase: Phase::Sending }
        }
    }

    /// The first request has succeeded; `params` came back for it.
    pub open spec fn succeeded(self, params: Seq<u8>) -> BusView {
        if self.todo[0].settle_ms > 0 {
            BusView { todo: self.todo, phase: Phase::Settling }
        } else {
            self.next(params)
        }
    }

    /// Where `event` leads. An event that does not answer the pending action
    /// changes nothing.
    pub open spec fn after(self, event: BusEvent) -> BusView {
        match (self.phase, event) {
            (Phase::Sending, BusEvent::SendFailed) => Self::finished(Err(St3215Error::UartTx)),
            (Phase::Sending, BusEvent::Sent) => if self.todo[0].reply is None {
                self.succeeded(Seq::empty())
            } else {
                BusView { todo: self.todo, phase: Phase::Receiving(Seq::empty()) }
            },
            (Phase::Receiving(s), BusEvent::Byte(b)) => match outcome(
                self.todo[0].awaited(),
                s.push(b),
            ) {
                Outcome::Pending => BusView {
                    todo: self.todo,
                    phase: Phase::Receiving(s.push(b)),
                },
                Outcome::Ready(params) => self.succeeded(params),
                Outcome::Failed(e) => Self::finished(Err(e)),
            },
            (Phase::Receiving(_), BusEvent::ReceiveFailed) => Self::finished(
                Err(St3215Error::UartRx),
            ),
            (Phase::Receiving(_), BusEvent::TimedOut) => Self::finished(Err(St3215Error::Timeout)),
            (Phase::Settling, BusEvent::Slept) => self.next(Seq::empty()),
            _ => self,
        }
    }

    /// Whether `action` is what is to be done now.
    pub open spec fn asks_for(self, action: BusAction) -> bool {
        match self.phase {
            Phase::Sending => action matches BusAction::Send { packet, expects_reply, timeout_ms }
                && packet@ == self.todo[0].frame() && expects_reply == (self.todo[0].reply is Some)
                && timeout_ms == self.todo[0].timeout_ms,
            Phase::Receiving(_) => action is Receive,
            Phase::Settling => action == (BusAction::Sleep { ms: self.todo[0].settle_ms }),
            Phase::Done(Ok(params)) => action matches BusAction::Finished(Ok(p)) && p@ == params,
            Phase::Done(Err(e)) => action == BusAction::Finished(Err(e)),
        }
    }
}

enum BusPhase {
    Sending,
    Receiving(StatusReader),
    Settling,
    Done(Result<Vec<u8>, St3215Error>),
}

/// The bus driver.
pub struct St3215Bus {
    requests: Vec<Request>,
    /// Requests already dealt with.
    at: usize,
    phase: BusPhase,
}

/// The models of `requests` from `at` on.
pub open spec fn views(requests: Seq<Request>, at: int) -> Seq<RequestView> {
    Seq::new((requests.len() - at) as nat, |i: int| requests[at + i]@)
}

impl View for St3215Bus {
    type V = BusView;

    closed spec fn view(&self) -> BusView {
        match self.phase {
            BusPhase::Sending => BusView {
                todo: views(self.requests@, self.at as int),
                phase: Phase::Sending,
            },
            BusPhase::Receiving(reader) => BusView {
                todo: views(self.requests@, self.at as int),
                phase: Phase::Receiving(reader.seen()),
            },
            BusPhase::Settling => BusView {
                todo: views(self.requests@, self.at as int),
                phase: Phase::Settling,
            },
            BusPhase::Done(Ok(params)) => BusView::finished(Ok(params@)),
            BusPhase::Done(Err(e)) => BusView::finished(Err(e)),
        }
    }
}

impl St3215Bus {
    /// Every pending request fits into a frame, and the reader waits for the
    /// current one.
    pub closed spec fn wf(self) -> bool {
        &&& !(self.phase is Done) ==> self.at < self.requests@.len()
        &&& forall|i: int|
            0 <= i < self.requests@.len() ==> (#[trigger] self.requests@[i]).params@.len() <= 253
        &&& self.phase matches BusPhase::Receiving(reader) ==> reader.wf() && reader.awaited()
            == self.requests@[self.at as int]@.awaited() && self.requests@[self.at as int].reply is Some
    }

    /// A driver with nothing to do.
    pub fn new() -> (r: St3215Bus)
        ensures
            r.wf(),
            r@ == BusView::finished(Ok(Seq::empty())),
    {
        St3215Bus { requests: Vec::new(), at: 0, phase: BusPhase::Done(Ok(Vec::new())) }
    }

    /// The pending action.
    pub fn action(&self) -> (r: BusAction)
        requires
            self.wf(),
        ensures
            self@.asks_for(r),
    {
        match &self.phase {
            BusPhase::Sending => {
                let request = &self.requests[self.at];
                let n: usize = request.params.len() + 6;
                let mut packet: Vec<u8> = Vec::new();
                packet.resize(n, 0);
                let len: usize = build_packet(
                    packet.as_mut_slice(),
                    request.id,
                    request.instr,
                    request.params.as_slice(),
                );
                assert(packet@ =~= request@.frame());
                BusAction::Send {
                    packet,
                    expects_reply: request.reply.is_some(),
                    timeout_ms: request.timeout_ms,
                }
            },
            BusPhase::Receiving(_) => BusAction::Receive,
            BusPhase::Settling => BusAction::Sleep { ms: self.requests[self.at].settle_ms },
            BusPhase::Done(Ok(params)) => BusAction::Finished(
                Ok(vstd::slice::slice_to_vec(params.as_slice())),
            ),
            BusPhase::Done(Err(e)) => BusAction::Finished(Err(*e)),
        }
    }
}

impl St3215Bus {
    /// Deal with the current request: `params` came back for it.
    fn next(&mut self, params: Vec<u8>)
        requires
            old(self).wf(),
            !(old(self)@.phase is Done),
        ensures
            final(self).wf(),
            final(self)@ == old(self)@.next(params@),
    {
        if self.requests.len() - self.at > 1 {
            self.at = self.at + 1;
            self.phase = BusPhase::Sending;
            assert(self@.todo =~= old(self)@.todo.skip(1));
        } else {
            self.phase = BusPhase::Done(Ok(params));
        }
    }

    fn succeeded(&mut self, params: Vec<u8>)
        requires
            old(self).wf(),
            !(old(self)@.phase is Done),
        ensures
            final(self).wf(),
            final(self)@ == old(self)@.succeeded(params@),
    {
        if self.requests[self.at].settle_ms > 0 {
            self.phase = BusPhase::Settling;
        } else {
            self.next(params);
        }
    }

    /// Report what came of the pending action, and get the next one.
    pub fn resume(&mut self, event: BusEvent) -> (r: BusAction)
        requires
            old(self).wf(),
        ensures
            final(self).wf(),
            final(self)@ == old(self)@.after(event),
            final(self)@.asks_for(r),
    {
        match (&mut self.phase, event) {
            (BusPhase::Sending, BusEvent::SendFailed) => {
                self.phase = BusPhase::Done(Err(St3215Error::UartTx));
            },
            (BusPhase::Sending, BusEvent::Sent) => {
                let request = &self.requests[self.at];
                match request.reply {
                    None => {
                        self.succeeded(Vec::new());
                    },
                    Some(n) => {
                        let awaited = Awaited {
                            id: request.id,
                            len: request.params.len() as u8 + 2,
                            instr: request.instr,
                            params: n,
                        };
                        self.phase = BusPhase::Receiving(StatusReader::new(awaited));
                    },
                }
            },
            (BusPhase::Receiving(reader), BusEvent::Byte(b)) => {
                match reader.feed(b) {
                    Received::Pending => {},
                    Received::Ready(params) => {
                        self.phase = BusPhase::Sending;
                        self.succeeded(params);
                    },
                    Received::Failed(e) => {
                        self.phase = BusPhase::Done(Err(e));
                    },
                }
            },
            (BusPhase::Receiving(_), BusEvent::ReceiveFailed) => {
                self.phase = BusPhase::Done(Err(St3215Error::UartRx));
            },
            (BusPhase::Receiving(_), BusEvent::TimedOut) => {
                self.phase = BusPhase::Done(Err(St3215Error::Timeout));
            },
            (BusPhase::Settling, BusEvent::Slept) => {
                self.next(Vec::new());
            },
            _ => {},
        }
        self.action()
    }
}

// -- Operations --------------------------------------------------------------

/// A register write that the servo acknowledges within 15 ms.
pub open spec fn acknowledged_write(id: u8, params: Seq<u8>) -> RequestView {
    RequestView { id, instr: INST_WRITE, params, reply: Some(0), timeout_ms: 15, settle_ms: 0 }
}

/// The requests of a ping.
pub open spec fn ping_requests(id: u8) -> Seq<RequestView> {
    seq![
        RequestView {
            id,
            instr: INST_PING,
            params: Seq::empty(),
            reply: Some(0),
            timeout_ms: 50,
            settle_ms: 0,
        },
    ]
}

/// Acceleration, goal position, goal time (zero) and goal speed as they lie
/// from register 41 on.
pub open spec fn goal_bytes(pos: u16, speed: u16, acc: u8) -> Seq<u8> {
    seq![
        acc,
        low_byte(pos),
        high_byte(pos),
        0u8,
        0u8,
        low_byte(speed),
        high_byte(speed),
    ]
}

/// The requests of a single move.
pub open spec fn write_pos_requests(id: u8, pos: u16, speed: u16, acc: u8) -> Seq<RequestView> {
    seq![acknowledged_write(id, seq![REG_ACC] + goal_bytes(pos, speed, acc))]
}

/// The goals of several servos, each behind its ID.
pub open spec fn sync_goal_bytes(moves: Seq<Move>) -> Seq<u8>
    decreases moves.len(),
{
    if moves.len() == 0 {
        Seq::empty()
    } else {
        let (id, pos, speed, acc) = moves.last();
        sync_goal_bytes(moves.drop_last()) + seq![id] + goal_bytes(pos, speed, acc)
    }
}

/// The first `MAX_SERVOS` of `moves`.
pub open spec fn leading_moves(moves: Seq<Move>) -> Seq<Move> {
    if moves.len() <= MAX_SERVOS {
        moves
    } else {
        moves.take(MAX_SERVOS as int)
    }
}

/// The requests of a synchronous move: one broadcast that nobody answers, or
/// nothing at all when there is nothing to move.
pub open spec fn sync_write_pos_requests(moves: Seq<Move>) -> Seq<RequestView> {
    if moves.len() == 0 {
        Seq::empty()
    } else {
        seq![
            RequestView {
                id: BROADCAST_ID,
                instr: INST_SYNC_WRITE,
                params: seq![REG_ACC, 7u8] + sync_goal_bytes(leading_moves(moves)),
                reply: None,
                timeout_ms: 0,
                settle_ms: 0,
            },
        ]
    }
}

/// The requests of a torque switch.
pub open spec fn set_torque_requests(id: u8, on: bool) -> Seq<RequestView> {
    seq![acknowledged_write(id, seq![REG_TORQUE_ENABLE, if on { 1u8 } else { 0u8 }])]
}

/// The requests of an ID change: unlock the EEPROM, write the ID without
/// waiting for an answer, pause, lock the EEPROM under the new ID.
pub open spec fn write_id_requests(current: u8, new: u8) -> Seq<RequestView> {
    seq![
        acknowledged_write(current, seq![REG_LOCK, 0u8]),
        RequestView {
            id: current,
            instr: INST_WRITE,
            params: seq![REG_ID, new],
            reply: None,
            timeout_ms: 15,
            settle_ms: 20,
        },
        acknowledged_write(new, seq![REG_LOCK, 1u8]),
    ]
}

/// The requests of a state read.
pub open spec fn read_state_requests(id: u8) -> Seq<RequestView> {
    seq![
        RequestView {
            id,
            instr: INST_READ,
            params: seq![REG_PRESENT_POS, 8u8],
            reply: Some(8),
            timeout_ms: 15,
            settle_ms: 0,
        },
    ]
}

/// The requests of a zero calibration: the STS calibration command is the
/// value 128 in the torque register.
pub open spec fn calibrate_zero_requests(id: u8) -> Seq<RequestView> {
    seq![acknowledged_write(id, seq![REG_TORQUE_ENABLE, 128u8])]
}

/// The requests of continuous rotation: wheel mode, then acceleration, then
/// the signed speed.
pub open spec fn write_wheel_speed_requests(id: u8, speed: i16, acc: u8) -> Seq<RequestView> {
    let raw = wheel_register(speed as int);
    seq![
        acknowledged_write(id, seq![REG_MODE, 1u8]),
        acknowledged_write(id, seq![REG_ACC, acc]),
        acknowledged_write(id, seq![REG_GOAL_SPEED, low_byte(raw), high_byte(raw)]),
    ]
}

/// The requests of the return to position control.
pub open spec fn set_servo_mode_requests(id: u8) -> Seq<RequestView> {
    seq![acknowledged_write(id, seq![REG_MODE, 0u8])]
}

/// In a synchronous write the entry of the `i`-th servo stands at its place: ID,
/// then what a single move would write.
pub proof fn law_sync_write_layout(moves: Seq<Move>, i: int)
    requires
        0 <= i < moves.len(),
    ensures
        sync_goal_bytes(moves).len() == 8 * moves.len(),
        sync_goal_bytes(moves).subrange(8 * i, 8 * i + 8) == seq![moves[i].0] + goal_bytes(
            moves[i].1,
            moves[i].2,
            moves[i].3,
        ),
    decreases moves.len(),
{
    let front = moves.drop_last();
    lemma_sync_len(front);
    if i < front.len() {
        law_sync_write_layout(front, i);
        assert(sync_goal_bytes(moves).subrange(8 * i, 8 * i + 8) =~= sync_goal_bytes(front).subrange(
            8 * i,
            8 * i + 8,
        ));
    } else {
        let (id, pos, speed, acc) = moves.last();
        assert(sync_goal_bytes(moves).subrange(8 * i, 8 * i + 8) =~= seq![id] + goal_bytes(
            pos,
            speed,
            acc,
        ));
    }
}

proof fn lemma_sync_len(moves: Seq<Move>)
    ensures
        sync_goal_bytes(moves).len() == 8 * moves.len(),
    decreases moves.len(),
{
    if moves.len() > 0 {
        lemma_sync_len(moves.drop_last());
    }
}

fn acknowledged(id: u8, params: Vec<u8>) -> (r: Request)
    ensures
        r@ == acknowledged_write(id, params@),
{
    Request { id, instr: INST_WRITE, params, reply: Some(0), timeout_ms: 15, settle_ms: 0 }
}

impl St3215Bus {
    /// Drop whatever was under way and begin with the first of `requests`.
    fn start(&mut self, requests: Vec<Request>) -> (r: BusAction)
        requires
            forall|i: int|
                0 <= i < requests@.len() ==> (#[trigger] requests@[i]).params@.len() <= 253,
        ensures
            final(self).wf(),
            final(self)@ == BusView::started(views(requests@, 0)),
            final(self)@.asks_for(r),
    {
        if requests.len() == 0 {
            self.phase = BusPhase::Done(Ok(Vec::new()));
            assert(views(requests@, 0) =~= Seq::empty());
        } else {
            self.phase = BusPhase::Sending;
        }
        self.requests = requests;
        self.at = 0;
        self.action()
    }

    /// Ping a single servo. Short timeout so scans stay fast.
    pub fn ping(&mut self, id: u8) -> (r: BusAction)
        ensures
            final(self).wf(),
            final(self)@ == BusView::started(ping_requests(id)),
            final(self)@.asks_for(r),
    {
        let mut requests: Vec<Request> = Vec::new();
        requests.push(
            Request {
                id,
                instr: INST_PING,
                params: Vec::new(),
                reply: Some(0),
                timeout_ms: 50,
                settle_ms: 0,
            },
        );
        assert(views(requests@, 0) =~= ping_requests(id));
        self.start(requests)
    }

    /// Write acceleration, position and speed to registers 41..=47 at once.
    /// The move starts immediately.
    pub fn write_pos(&mut self, id: u8, pos: u16, speed: u16, acc: u8) -> (r: BusAction)
        ensures
            final(self).wf(),
            final(self)@ == BusView::started(write_pos_requests(id, pos, speed, acc)),
            final(self)@.asks_for(r),
    {
        let params: Vec<u8> = vec![REG_ACC, acc, lo(pos), hi(pos), 0, 0, lo(speed), hi(speed)];
        assert(params@ =~= seq![REG_ACC] + goal_bytes(pos, speed, acc));
        let mut requests: Vec<Request> = Vec::new();
        requests.push(acknowledged(id, params));
        assert(views(requests@, 0) =~= write_pos_requests(id, pos, speed, acc));
        self.start(requests)
    }

    /// Write the same layout to many servos in one broadcast packet. At most
    /// `MAX_SERVOS` of the moves are made. No status response.
    pub fn sync_write_pos(&mut self, moves: &[Move]) -> (r: BusAction)
        ensures
            final(self).wf(),
            final(self)@ == BusView::started(sync_write_pos_requests(moves@)),
            final(self)@.asks_for(r),
    {
        let mut requests: Vec<Request> = Vec::new();
        if moves.is_empty() {
            assert(views(requests@, 0) =~= Seq::empty());
            return self.start(requests);
        }
        let mut params = bounded::params_new();
        let _ = bounded::params_push(&mut params, REG_ACC);
        let _ = bounded::params_push(&mut params, 7);
        let mut i: usize = 0;
        assert(bounded::param_bytes(params) =~= seq![REG_ACC, 7u8] + sync_goal_bytes(moves@.take(0)));
        while i < moves.len() && i < MAX_SERVOS
            invariant
                i <= moves@.len(),
                i <= MAX_SERVOS,
                bounded::param_bytes(params) == seq![REG_ACC, 7u8] + sync_goal_bytes(
                    moves@.take(i as int),
                ),
                bounded::param_bytes(params).len() == 2 + 8 * i,
            decreases MAX_SERVOS - i,
        {
            let (id, pos, speed, acc) = moves[i];
            let _ = bounded::params_push(&mut params, id);
            let _ = bounded::params_push(&mut params, acc);
            let _ = bounded::params_push(&mut params, lo(pos));
            let _ = bounded::params_push(&mut params, hi(pos));
            let _ = bounded::params_push(&mut params, 0);
            let _ = bounded::params_push(&mut params, 0);
            let _ = bounded::params_push(&mut params, lo(speed));
            let _ = bounded::params_push(&mut params, hi(speed));
            assert(moves@.take(i + 1).drop_last() =~= moves@.take(i as int));
            assert(bounded::param_bytes(params) =~= seq![REG_ACC, 7u8] + sync_goal_bytes(
                moves@.take(i + 1),
            ));
            i = i + 1;
        }
        assert(moves@.take(i as int) =~= leading_moves(moves@));
        requests.push(
            Request {
                id: BROADCAST_ID,
                instr: INST_SYNC_WRITE,
                params: vstd::slice::slice_to_vec(bounded::params_as_slice(&params)),
                reply: None,
                timeout_ms: 0,
                settle_ms: 0,
            },
        );
        assert(views(requests@, 0) =~= sync_write_pos_requests(moves@));
        self.start(requests)
    }

    pub fn set_torque(&mut self, id: u8, on: bool) -> (r: BusAction)
        ensures
            final(self).wf(),
            final(self)@ == BusView::started(set_torque_requests(id, on)),
            final(self)@.asks_for(r),
    {
        let params: Vec<u8> = vec![REG_TORQUE_ENABLE, if on { 1 } else { 0 }];
        assert(params@ =~= seq![REG_TORQUE_ENABLE, if on { 1u8 } else { 0u8 }]);
        let mut requests: Vec<Request> = Vec::new();
        requests.push(acknowledged(id, params));
        assert(views(requests@, 0) =~= set_torque_requests(id, on));
        self.start(requests)
    }

    /// Change a servo's ID. Unlocks EEPROM (reg 55 = 0), writes the new ID
    /// (reg 5), re-locks EEPROM (reg 55 = 1). The answer to the second write
    /// would come from the new ID, so it is not awaited.
    pub fn write_id(&mut self, current: u8, new: u8) -> (r: BusAction)
        ensures
            final(self).wf(),
            final(self)@ == BusView::started(write_id_requests(current, new)),
            final(self)@.asks_for(r),
    {
        let unlock: Vec<u8> = vec![REG_LOCK, 0];
        let rename: Vec<u8> = vec![REG_ID, new];
        let lock: Vec<u8> = vec![REG_LOCK, 1];
        assert(unlock@ =~= seq![REG_LOCK, 0u8]);
        assert(rename@ =~= seq![REG_ID, new]);
        assert(lock@ =~= seq![REG_LOCK, 1u8]);
        let mut requests: Vec<Request> = Vec::new();
        requests.push(acknowledged(current, unlock));
        requests.push(
            Request {
                id: current,
                instr: INST_WRITE,
                params: rename,
                reply: None,
                timeout_ms: 15,
                settle_ms: 20,
            },
        );
        requests.push(acknowledged(new, lock));
        assert(views(requests@, 0) =~= write_id_requests(current, new));
        self.start(requests)
    }

    /// Bulk read of position, speed, load, voltage and temperature. The
    /// parameters that come back are for [`decode_state`].
    pub fn read_state(&mut self, id: u8) -> (r: BusAction)
        ensures
            final(self).wf(),
            final(self)@ == BusView::started(read_state_requests(id)),
            final(self)@.asks_for(r),
    {
        let params: Vec<u8> = vec![REG_PRESENT_POS, 8];
        assert(params@ =~= seq![REG_PRESENT_POS, 8u8]);
        let mut requests: Vec<Request> = Vec::new();
        requests.push(
            Request { id, instr: INST_READ, params, reply: Some(8), timeout_ms: 15, settle_ms: 0 },
        );
        assert(views(requests@, 0) =~= read_state_requests(id));
        self.start(requests)
    }

    /// Make the current physical position the zero position, for good.
    pub fn calibrate_zero(&mut self, id: u8) -> (r: BusAction)
        ensures
            final(self).wf(),
            final(self)@ == BusView::started(calibrate_zero_requests(id)),
            final(self)@.asks_for(r),
    {
        let params: Vec<u8> = vec![REG_TORQUE_ENABLE, 128];
        assert(params@ =~= seq![REG_TORQUE_ENABLE, 128u8]);
        let mut requests: Vec<Request> = Vec::new();
        requests.push(acknowledged(id, params));
        assert(views(requests@, 0) =~= calibrate_zero_requests(id));
        self.start(requests)
    }

    /// Rotate continuously; speed zero stops.
    pub fn write_wheel_speed(&mut self, id: u8, speed: i16, acc: u8) -> (r: BusAction)
        requires
            speed != i16::MIN,
        ensures
            final(self).wf(),
            final(self)@ == BusView::started(write_wheel_speed_requests(id, speed, acc)),
            final(self)@.asks_for(r),
    {
        let raw: u16 = if speed < 0 { 0x8000 + (-speed) as u16 } else { speed as u16 };
        let mode: Vec<u8> = vec![REG_MODE, 1];
        let ramp: Vec<u8> = vec![REG_ACC, acc];
        let goal: Vec<u8> = vec![REG_GOAL_SPEED, lo(raw), hi(raw)];
        assert(mode@ =~= seq![REG_MODE, 1u8]);
        assert(ramp@ =~= seq![REG_ACC, acc]);
        assert(goal@ =~= seq![REG_GOAL_SPEED, low_byte(raw), high_byte(raw)]);
        let mut requests: Vec<Request> = Vec::new();
        requests.push(acknowledged(id, mode));
        requests.push(acknowledged(id, ramp));
        requests.push(acknowledged(id, goal));
        assert(views(requests@, 0) =~= write_wheel_speed_requests(id, speed, acc));
        self.start(requests)
    }

    /// Return to position control.
    pub fn set_servo_mode(&mut self, id: u8) -> (r: BusAction)
        ensures
            final(self).wf(),
            final(self)@ == BusView::started(set_servo_mode_requests(id)),
            final(self)@.asks_for(r),
    {
        let params: Vec<u8> = vec![REG_MODE, 0];
        assert(params@ =~= seq![REG_MODE, 0u8]);
        let mut requests: Vec<Request> = Vec::new();
        requests.push(acknowledged(id, params));
        assert(views(requests@, 0) =~= set_servo_mode_requests(id));
        self.start(requests)
    }
}

// -- Whole transactions ------------------------------------------------------

impl BusView {
    /// Where receiving `bytes` one by one leads.
    pub open spec fn fed(self, bytes: Seq<u8>) -> BusView
        decreases bytes.len(),
    {
        if bytes.len() == 0 {
            self
        } else {
            self.fed(bytes.drop_last()).after(BusEvent::Byte(bytes.last()))
        }
    }

    /// Where the bytes `s`, received for the first request, lead.
    pub open spec fn decided(self, s: Seq<u8>) -> BusView {
        match outcome(self.todo[0].awaited(), s) {
            Outcome::Pending => BusView { todo: self.todo, phase: Phase::Receiving(s) },
            Outcome::Ready(params) => self.succeeded(params),
            Outcome::Failed(e) => Self::finished(Err(e)),
        }
    }
}

/// Receiving byte by byte comes to what the whole stream says.
proof fn lemma_fed(v: BusView, bytes: Seq<u8>)
    requires
        v.phase == Phase::Receiving(Seq::empty()),
    ensures
        v.fed(bytes) == v.decided(bytes),
    decreases bytes.len(),
{
    if bytes.len() == 0 {
        assert(bytes =~= Seq::empty());
    } else {
        let front = bytes.drop_last();
        lemma_fed(v, front);
        assert(front.push(bytes.last()) =~= bytes);
        assert(front + seq![bytes.last()] =~= bytes);
        if !(outcome(v.todo[0].awaited(), front) is Pending) {
            law_decision_is_final(v.todo[0].awaited(), front, seq![bytes.last()]);
        }
    }
}

/// A request that has been sent and is answered in time, with or without an
/// echo of it before the answer, succeeds with the answer's parameters.
pub proof fn law_answered_request_succeeds(v: BusView, params: Seq<u8>, echo: bool)
    requires
        v.phase is Sending,
        v.todo[0].params.len() <= 253,
        v.todo[0].instr != 0,
        params.len() <= 253,
        v.todo[0].reply == Some(params.len() as usize),
    ensures
        ({
            let answer = frame_of(v.todo[0].id, 0, params);
            let stream = if echo { v.todo[0].frame() + answer } else { answer };
            v.after(BusEvent::Sent).fed(stream) == v.succeeded(params)
        }),
{
    let a = v.todo[0].awaited();
    let answer = frame_of(v.todo[0].id, 0, params);
    let stream = if echo { v.todo[0].frame() + answer } else { answer };
    lemma_fed(v.after(BusEvent::Sent), stream);
    law_reply_is_read_back(a, a.id, params, Seq::empty());
    assert(answer + Seq::empty() =~= answer);
    if echo {
        law_echo_is_optional(a, v.todo[0].params, answer);
    }
}

/// What a servo puts into its answer to a state read is what the operation
/// ends with.
pub proof fn law_state_read_returns_the_registers(id: u8, registers: Seq<u8>, echo: bool)
    requires
        registers.len() == 8,
    ensures
        ({
            let v = BusView::started(read_state_requests(id));
            let answer = frame_of(id, 0, registers);
            let stream = if echo { v.todo[0].frame() + answer } else { answer };
            v.after(BusEvent::Sent).fed(stream) == BusView::finished(Ok(registers))
        }),
{
    law_answered_request_succeeds(BusView::started(read_state_requests(id)), registers, echo);
}

/// An ID change whose two acknowledgements come in goes through all of its
/// steps: the last frame sent locks the EEPROM under the new ID.
pub proof fn law_id_change_locks_under_the_new_id(current: u8, new: u8, echo: bool)
    ensures
        ({
            let v0 = BusView::started(write_id_requests(current, new));
            let ack0 = frame_of(current, 0, Seq::empty());
            let s0 = if echo { v0.todo[0].frame() + ack0 } else { ack0 };
            let v1 = v0.after(BusEvent::Sent).fed(s0);
            let v2 = v1.after(BusEvent::Sent);
            let v3 = v2.after(BusEvent::Slept);
            let ack3 = frame_of(new, 0, Seq::empty());
            let s3 = if echo { v3.todo[0].frame() + ack3 } else { ack3 };
            &&& v0.todo[0].frame() == frame_of(current, INST_WRITE, seq![REG_LOCK, 0u8])
            &&& v1.phase is Sending && v1.todo[0].frame() == frame_of(
                current,
                INST_WRITE,
                seq![REG_ID, new],
            )
            &&& v2.phase is Settling
            &&& v3.phase is Sending && v3.todo[0].frame() == frame_of(
                new,
                INST_WRITE,
                seq![REG_LOCK, 1u8],
            )
            &&& v3.after(BusEvent::Sent).fed(s3) == BusView::finished(Ok(Seq::empty()))
        }),
{
    let v0 = BusView::started(write_id_requests(current, new));
    law_answered_request_succeeds(v0, Seq::empty(), echo);
    let v1 = v0.succeeded(Seq::empty());
    assert(v1.todo[0] == write_id_requests(current, new)[1]);
    let v3 = v1.after(BusEvent::Sent).after(BusEvent::Slept);
    assert(v3.todo[0] == write_id_requests(current, new)[2]);
    law_answered_request_succeeds(v3, Seq::empty(), echo);
}

/// An operation that has failed asks for nothing more: no event makes it send
/// another frame.
pub proof fn law_failure_ends_the_operation(v: BusView, event: BusEvent)
    requires
        v.phase is Done,
    ensures
        v.after(event) == v,
{
}

// -- Scanning ----------------------------------------------------------------

/// Model of a scan: the next ID to look at, the last one, and who answered.
#[verifier::ext_equal]
pub struct ScanView {
    pub next: int,
    pub to: int,
    pub found: Seq<u8>,
}

impl ScanView {
    /// The next ID to ping: the broadcast ID is left out.
    pub open spec fn target(self) -> Option<u8> {
        let id = if self.next == BROADCAST_ID { self.next + 1 } else { self.next };
        if self.found.len() >= MAX_SERVOS || id > self.to {
            None
        } else {
            Some(id as u8)
        }
    }

    /// Where the answer to the ping of `target` leads.
    pub open spec fn after(self, responded: bool) -> ScanView {
        let id = self.target().unwrap();
        ScanView {
            next: id + 1,
            to: self.to,
            found: if responded {
                self.found.push(id)
            } else {
                self.found
            },
        }
    }

    /// Where the scan ends when exactly the IDs in `alive` answer.
    pub open spec fn run(self, alive: Set<u8>) -> ScanView
        decreases self.to - self.next + 1,
    {
        match self.target() {
            None => self,
            Some(id) => if self.next >= 0 && self.to <= 255 {
                self.after(alive.contains(id)).run(alive)
            } else {
                self
            },
        }
    }
}

/// A scan of a range of IDs that collects responders into a list.
pub struct Scan {
    next: u16,
    to: u8,
}

impl Scan {
    /// The model of a scan that collects into `out`.
    pub closed spec fn state(self, out: ServoList) -> ScanView {
        ScanView { next: self.next as int, to: self.to as int, found: bounded::servo_ids(out) }
    }

    pub closed spec fn wf(self) -> bool {
        self.next <= 256
    }

    /// The next servo to ping, or `None` when the scan is over.
    pub fn target(&self, out: &ServoList) -> (r: Option<u8>)
        requires
            self.wf(),
        ensures
            r == self.state(*out).target(),
    {
        let id: u16 = if self.next == BROADCAST_ID as u16 { self.next + 1 } else { self.next };
        if bounded::servo_list_is_full(out) || id > self.to as u16 {
            None
        } else {
            Some(id as u8)
        }
    }

    /// Report whether the servo pinged last has answered.
    pub fn report(&mut self, out: &mut ServoList, responded: bool)
        requires
            old(self).wf(),
            old(self).state(*old(out)).target() is Some,
        ensures
            final(self).wf(),
            final(self).state(*final(out)) == old(self).state(*old(out)).after(responded),
    {
        let id: u16 = if self.next == BROADCAST_ID as u16 { self.next + 1 } else { self.next };
        if responded {
            let _ = bounded::servo_list_push(out, id as u8);
        }
        self.next = id + 1;
    }
}

impl St3215Bus {
    /// Begin a scan of the IDs from `from` to `to` that collects responders
    /// into `out` (cleared first). Each ID is looked at by a
    /// [`ping`](St3215Bus::ping).
    pub fn scan(&self, from: u8, to: u8, out: &mut ServoList) -> (r: Scan)
        ensures
            r.wf(),
            r.state(*final(out)) == (ScanView {
                next: from as int,
                to: to as int,
                found: Seq::empty(),
            }),
            bounded::servo_ids(*final(out)) == Seq::<u8>::empty(),
    {
        bounded::servo_list_clear(out);
        Scan { next: from as u16, to }
    }
}

/// The IDs from `from` to `to`, in ascending order.
pub open spec fn id_range(from: int, to: int) -> Seq<u8> {
    Seq::new((if to >= from { to - from + 1 } else { 0 }) as nat, |i: int| (from + i) as u8)
}

/// Those of the IDs from `from` to `to` that are `alive`, in ascending order.
/// The broadcast ID belongs to nobody.
pub open spec fn responders(from: int, to: int, alive: Set<u8>) -> Seq<u8> {
    id_range(from, to).filter(|id: u8| id != BROADCAST_ID && alive.contains(id))
}

/// The first `MAX_SERVOS` of `ids`.
pub open spec fn tracked_ids(ids: Seq<u8>) -> Seq<u8> {
    if ids.len() <= MAX_SERVOS {
        ids
    } else {
        ids.take(MAX_SERVOS as int)
    }
}

proof fn lemma_responders_step(from: int, to: int, alive: Set<u8>)
    requires
        0 <= from <= to <= 255,
    ensures
        responders(from, to, alive) == (if from != BROADCAST_ID && alive.contains(from as u8) {
            seq![from as u8]
        } else {
            Seq::empty()
        }) + responders(from + 1, to, alive),
{
    let pred = |id: u8| id != BROADCAST_ID && alive.contains(id);
    let first = seq![from as u8];
    assert(id_range(from, to) =~= first + id_range(from + 1, to));
    Seq::filter_distributes_over_add(first, id_range(from + 1, to), pred);
    assert(first.filter(pred) =~= if pred(from as u8) {
        first
    } else {
        Seq::empty()
    }) by {
        reveal(Seq::filter);
        assert(first.drop_last() =~= Seq::empty());
        assert(first.drop_last().filter(pred) =~= Seq::empty());
    }
}

proof fn lemma_scan_run(v: ScanView, alive: Set<u8>)
    requires
        0 <= v.next <= 256,
        v.to <= 255,
        v.found.len() <= MAX_SERVOS,
    ensures
        v.run(alive).found == tracked_ids(v.found + responders(v.next, v.to, alive)),
        v.run(alive).target() is None,
    decreases v.to - v.next + 1,
{
    let all = v.found + responders(v.next, v.to, alive);
    match v.target() {
        None => {
            if v.found.len() < MAX_SERVOS {
                if v.next == BROADCAST_ID && v.next <= v.to {
                    lemma_responders_step(v.next, v.to, alive);
                    assert(id_range(v.next + 1, v.to) =~= Seq::empty());
                    reveal(Seq::filter);
                } else {
                    assert(id_range(v.next, v.to) =~= Seq::empty());
                    reveal(Seq::filter);
                }
                assert(all =~= v.found);
            } else {
                assert(tracked_ids(all) =~= v.found);
            }
        },
        Some(id) => {
            let w = v.after(alive.contains(id));
            if v.next == BROADCAST_ID {
                lemma_responders_step(v.next, v.to, alive);
                assert(responders(v.next, v.to, alive) =~= responders(v.next + 1, v.to, alive));
            }
            lemma_responders_step(id as int, v.to, alive);
            assert(w.found + responders(w.next, w.to, alive) =~= all);
            lemma_scan_run(w, alive);
        },
    }
}

/// A scan ends with the first `MAX_SERVOS` servos of the range that answer, in
/// ascending order of their IDs.
pub proof fn law_scan_finds_the_responders(from: u8, to: u8, alive: Set<u8>)
    ensures
        ({
            let v = ScanView { next: from as int, to: to as int, found: Seq::empty() };
            &&& v.run(alive).target() is None
            &&& v.run(alive).found == tracked_ids(responders(from as int, to as int, alive))
        }),
{
    let v = ScanView { next: from as int, to: to as int, found: Seq::empty() };
    lemma_scan_run(v, alive);
    assert(v.found + responders(v.next, v.to, alive) =~= responders(from as int, to as int, alive));
}

} // verus!
