//! OLED display for a 128x64 SSD1306: what is shown of WiFi network, IP
//! address and motor power levels.
use crate::text;
use vstd::prelude::*;
use vstd::string::*;
use vstd::utf8::*;

verus! {

/// Width of the display in pixels.
pub const SCREEN_WIDTH: i32 = 128;

/// Width of one character in pixels.
pub const CHAR_WIDTH: i32 = 6;

/// Baseline of the first line.
pub const LINE1_Y: i32 = 10;

/// Baseline of the second line.
pub const LINE2_Y: i32 = 24;

/// Baseline of the third line.
pub const LINE3_Y: i32 = 42;

/// Top of the banner.
pub const BANNER_Y: i32 = 24;

/// Height of the banner.
pub const BANNER_HEIGHT: u32 = 16;

/// Baseline of the banner's text.
pub const BANNER_TEXT_Y: i32 = 34;

/// Display cycles of a temporary message: six of half a second each.
pub const MESSAGE_TICKS: u8 = 6;

/// Bytes of the network name that are shown.
pub const SHOWN_SSID_BYTES: usize = 15;

/// WiFi connection status for display.
#[derive(Debug, Clone, Copy, PartialEq, Eq, Structural)]
pub enum WifiStatus {
    Connecting,
    GettingIP,
    Connected,
}

impl Default for WifiStatus {
    fn default() -> (r: WifiStatus)
        ensures
            r == WifiStatus::Connecting,
    {
        WifiStatus::Connecting
    }
}

/// Display state containing motor powers and IP address.
#[derive(Debug, Clone, Copy)]
pub struct DisplayState {
    pub motor_a: i8,
    pub motor_b: i8,
    pub ip: [u8; 4],
    pub status: WifiStatus,
    pub dots: u8,
    /// Current WiFi SSID to display.
    pub ssid: [u8; 32],
    pub ssid_len: u8,
    /// Temporary text in place of line 1.
    pub line1_override: [u8; 21],
    pub line1_override_len: u8,
    /// Remaining display cycles of the text in place of line 1.
    pub line1_ticks: u8,
    /// Temporary message over the middle of the screen.
    pub flash_message: [u8; 20],
    pub flash_message_len: u8,
    /// Remaining display cycles of the message.
    pub flash_ticks: u8,
}

impl DisplayState {
    /// The lengths lie within their buffers.
    pub open spec fn wf(self) -> bool {
        &&& self.ssid_len <= 32
        &&& self.line1_override_len <= 21
        &&& self.flash_message_len <= 20
    }

    /// The stored network name.
    pub open spec fn ssid_bytes(self) -> Seq<u8> {
        self.ssid@.take(self.ssid_len as int)
    }

    /// The stored replacement of line 1.
    pub open spec fn override_bytes(self) -> Seq<u8> {
        self.line1_override@.take(self.line1_override_len as int)
    }

    /// The stored message.
    pub open spec fn flash_bytes(self) -> Seq<u8> {
        self.flash_message@.take(self.flash_message_len as int)
    }
}

/// `n` bytes of zero.
pub open spec fn zeros(n: nat) -> Seq<u8> {
    Seq::new(n, |i: int| 0u8)
}

impl Default for DisplayState {
    fn default() -> (r: DisplayState)
        ensures
            r.wf(),
            r.motor_a == 0 && r.motor_b == 0,
            r.ip@ == seq![0u8, 0u8, 0u8, 0u8],
            r.status == WifiStatus::Connecting,
            r.dots == 0,
            r.ssid_len == 0,
            r.ssid@ == zeros(32),
            r.line1_override_len == 0,
            r.line1_override@ == zeros(21),
            r.line1_ticks == 0,
            r.flash_message_len == 0,
            r.flash_message@ == zeros(20),
            r.flash_ticks == 0,
    {
        DisplayState {
            motor_a: 0,
            motor_b: 0,
            ip: [0; 4],
            status: WifiStatus::Connecting,
            dots: 0,
            ssid: [0; 32],
            ssid_len: 0,
            line1_override: [0; 21],
            line1_override_len: 0,
            line1_ticks: 0,
            flash_message: [0; 20],
            flash_message_len: 0,
            flash_ticks: 0,
        }
    }
}

/// The first `n` bytes of `b`, or all where there are fewer.
pub open spec fn at_most(b: Seq<u8>, n: int) -> Seq<u8> {
    if b.len() <= n {
        b
    } else {
        b.take(n)
    }
}

/// Copy what fits of `bytes` to the front of `dst`.
fn fill<const N: usize>(dst: &mut [u8; N], bytes: &[u8]) -> (len: usize)
    ensures
        len == at_most(bytes@, N as int).len(),
        len <= N,
        final(dst)@.take(len as int) == at_most(bytes@, N as int),
        final(dst)@.skip(len as int) == old(dst)@.skip(len as int),
{
    let len: usize = if bytes.len() < N { bytes.len() } else { N };
    let mut i: usize = 0;
    while i < len
        invariant
            i <= len <= bytes@.len(),
            len <= N,
            forall|j: int| 0 <= j < i ==> dst@[j] == bytes@[j],
            forall|j: int| i <= j < N ==> dst@[j] == old(dst)@[j],
        decreases len - i,
    {
        dst[i] = bytes[i];
        i = i + 1;
    }
    assert(dst@.take(len as int) =~= at_most(bytes@, N as int));
    assert(dst@.skip(len as int) =~= old(dst)@.skip(len as int));
    len
}

/// The state shown first, with an initial network name.
pub fn init_display_state(initial_ssid: &str) -> (r: DisplayState)
    ensures
        r.wf(),
        r.ssid_bytes() == at_most(encode_utf8(initial_ssid@), 32),
        r.ssid@.skip(r.ssid_len as int) == zeros((32 - r.ssid_len) as nat),
        r.motor_a == 0 && r.motor_b == 0,
        r.ip@ == seq![0u8, 0u8, 0u8, 0u8],
        r.status == WifiStatus::Connecting,
        r.dots == 0,
        r.line1_ticks == 0,
        r.flash_ticks == 0,
        r.line1_override_len == 0,
        r.line1_override@ == zeros(21),
        r.flash_message_len == 0,
        r.flash_message@ == zeros(20),
{
    let mut state: DisplayState = DisplayState::default();
    let len: usize = fill(&mut state.ssid, initial_ssid.as_bytes());
    state.ssid_len = len as u8;
    state
}

/// Update the WiFi SSID in the display state. The bytes behind its end stay.
pub fn update_ssid(display: &mut Option<DisplayState>, ssid: &str)
    requires
        *old(display) matches Some(s) ==> s.wf(),
    ensures
        match *old(display) {
            None => *final(display) is None,
            Some(s) => *final(display) matches Some(t) && t.wf() && t.ssid_bytes() == at_most(
                encode_utf8(ssid@),
                32,
            ) && t.ssid@.skip(t.ssid_len as int) == s.ssid@.skip(t.ssid_len as int) && t == (
            DisplayState { ssid: t.ssid, ssid_len: t.ssid_len, ..s }),
        },
{
    if let Some(s) = display {
        let len: usize = fill(&mut s.ssid, ssid.as_bytes());
        s.ssid_len = len as u8;
    }
}

/// Update motor A power in the display state.
pub fn update_motor_a(display: &mut Option<DisplayState>, power: i8)
    ensures
        match *old(display) {
            None => *final(display) is None,
            Some(s) => *final(display) == Some(DisplayState { motor_a: power, ..s }),
        },
{
    if let Some(s) = display {
        s.motor_a = power;
    }
}

/// Update motor B power in the display state.
pub fn update_motor_b(display: &mut Option<DisplayState>, power: i8)
    ensures
        match *old(display) {
            None => *final(display) is None,
            Some(s) => *final(display) == Some(DisplayState { motor_b: power, ..s }),
        },
{
    if let Some(s) = display {
        s.motor_b = power;
    }
}

/// `s` with the power of the motor at `index` replaced; there is nothing to
/// replace behind the last motor.
pub open spec fn with_motor(s: DisplayState, index: int, power: i8) -> DisplayState {
    if index == 0 {
        DisplayState { motor_a: power, ..s }
    } else if index == 1 {
        DisplayState { motor_b: power, ..s }
    } else {
        s
    }
}

/// Update a motor's power by index (0 = A, 1 = B).
pub fn update_motor(display: &mut Option<DisplayState>, index: usize, power: i8)
    ensures
        match *old(display) {
            None => *final(display) is None,
            Some(s) => *final(display) == Some(with_motor(s, index as int, power)),
        },
{
    if let Some(s) = display {
        match index {
            0 => s.motor_a = power,
            1 => s.motor_b = power,
            _ => {},
        }
    }
}

/// Update the IP address in the display state; it means that the link is up.
pub fn update_ip(display: &mut Option<DisplayState>, ip: [u8; 4])
    ensures
        match *old(display) {
            None => *final(display) is None,
            Some(s) => *final(display) == Some(DisplayState { ip, status: WifiStatus::Connected, ..s }),
        },
{
    if let Some(s) = display {
        s.ip = ip;
        s.status = WifiStatus::Connected;
    }
}

/// Update the WiFi status in the display state.
pub fn update_status(display: &mut Option<DisplayState>, status: WifiStatus)
    ensures
        match *old(display) {
            None => *final(display) is None,
            Some(s) => *final(display) == Some(DisplayState { status, ..s }),
        },
{
    if let Some(s) = display {
        s.status = status;
    }
}

/// Update the animated dots count (0-3) in the display state.
pub fn update_dots(display: &mut Option<DisplayState>, dots: u8)
    ensures
        match *old(display) {
            None => *final(display) is None,
            Some(s) => *final(display) == Some(DisplayState { dots, ..s }),
        },
{
    if let Some(s) = display {
        s.dots = dots;
    }
}

/// Show a temporary message on the display for about three seconds.
pub fn flash_message(display: &mut Option<DisplayState>, msg: &str)
    requires
        *old(display) matches Some(s) ==> s.wf(),
    ensures
        match *old(display) {
            None => *final(display) is None,
            Some(s) => *final(display) matches Some(t) && t.wf() && t.flash_bytes() == at_most(
                encode_utf8(msg@),
                20,
            ) && t.flash_message@.skip(t.flash_message_len as int) == s.flash_message@.skip(
                t.flash_message_len as int,
            ) && t == (DisplayState {
                flash_message: t.flash_message,
                flash_message_len: t.flash_message_len,
                flash_ticks: MESSAGE_TICKS,
                ..s
            }),
        },
{
    if let Some(s) = display {
        let len: usize = fill(&mut s.flash_message, msg.as_bytes());
        s.flash_message_len = len as u8;
        s.flash_ticks = MESSAGE_TICKS;
    }
}

/// Replace line 1 for about three seconds.
pub fn set_line1_override(display: &mut Option<DisplayState>, msg: &str)
    requires
        *old(display) matches Some(s) ==> s.wf(),
    ensures
        match *old(display) {
            None => *final(display) is None,
            Some(s) => *final(display) matches Some(t) && t.wf() && t.override_bytes() == at_most(
                encode_utf8(msg@),
                21,
            ) && t.line1_override@.skip(t.line1_override_len as int) == s.line1_override@.skip(
                t.line1_override_len as int,
            ) && t == (DisplayState {
                line1_override: t.line1_override,
                line1_override_len: t.line1_override_len,
                line1_ticks: MESSAGE_TICKS,
                ..s
            }),
        },
{
    if let Some(s) = display {
        let len: usize = fill(&mut s.line1_override, msg.as_bytes());
        s.line1_override_len = len as u8;
        s.line1_ticks = MESSAGE_TICKS;
    }
}

// -- Frames ------------------------------------------------------------------

/// The text of `bytes`, or nothing where they are not UTF-8.
pub open spec fn shown(bytes: Seq<u8>) -> Seq<char> {
    if valid_utf8(bytes) {
        decode_utf8(bytes)
    } else {
        Seq::empty()
    }
}

/// The network name as far as it is shown.
pub open spec fn shown_ssid(bytes: Seq<u8>) -> Seq<char> {
    if valid_utf8(bytes) && bytes.len() > SHOWN_SSID_BYTES {
        decode_utf8(bytes.take(SHOWN_SSID_BYTES as int))
    } else {
        shown(bytes)
    }
}

/// Line 1: the temporary text while it lasts, the network name otherwise.
pub open spec fn line1_text(s: DisplayState) -> Seq<char> {
    if s.line1_ticks > 0 {
        shown(s.override_bytes())
    } else {
        "WiFi: "@ + shown_ssid(s.ssid_bytes())
    }
}

/// No to three dots, in turn.
pub open spec fn dots_text(n: int) -> Seq<char> {
    if n % 4 == 1 {
        "."@
    } else if n % 4 == 2 {
        ".."@
    } else if n % 4 == 3 {
        "..."@
    } else {
        ""@
    }
}

/// Line 2: the IP address once there is one, the progress until then.
pub open spec fn line2_text(s: DisplayState) -> Seq<char> {
    match s.status {
        WifiStatus::Connected => "IP: "@ + text::dec(s.ip@[0] as nat) + "."@ + text::dec(
            s.ip@[1] as nat,
        ) + "."@ + text::dec(s.ip@[2] as nat) + "."@ + text::dec(s.ip@[3] as nat),
        WifiStatus::Connecting => "Connecting"@ + dots_text(s.dots as int),
        WifiStatus::GettingIP => "Getting IP"@ + dots_text(s.dots as int),
    }
}

/// A power level with its sign, padded with blanks to four characters.
pub open spec fn power_text(power: int) -> Seq<char> {
    let digits = text::dec((if power < 0 { -power } else { power }) as nat);
    let pad = if digits.len() == 1 {
        "  "@
    } else if digits.len() == 2 {
        " "@
    } else {
        ""@
    };
    pad + (if power < 0 { "-"@ } else { "+"@ }) + digits
}

/// Line 3: the motor powers.
pub open spec fn line3_text(s: DisplayState) -> Seq<char> {
    "A:"@ + power_text(s.motor_a as int) + "% B:"@ + power_text(s.motor_b as int) + "%"@
}

/// A message in an inverted box, centered over a blanked band.
#[derive(Debug)]
pub struct Banner {
    pub text: String,
    /// Left end of the text.
    pub x: i32,
    /// Left end of the box.
    pub box_x: i32,
    /// Width of the box.
    pub box_width: u32,
}

/// One frame.
#[derive(Debug)]
pub struct Screen {
    pub line1: String,
    pub line2: String,
    pub line3: String,
    pub banner: Option<Banner>,
}

/// Whether `b` shows the message `bytes`: each byte is one character wide, the
/// box stands out by two pixels on either side.
pub open spec fn is_banner(b: Banner, bytes: Seq<u8>) -> bool {
    let n = if valid_utf8(bytes) { bytes.len() as int } else { 0 };
    &&& b.text@ == shown(bytes)
    &&& b.x == (SCREEN_WIDTH - n * CHAR_WIDTH) / 2
    &&& b.box_x == b.x - 2
    &&& b.box_width == n * CHAR_WIDTH + 4
}

fn text_of(bytes: &[u8]) -> (r: &str)
    ensures
        r@ == shown(bytes@),
        r.spec_bytes() == (if valid_utf8(bytes@) { bytes@ } else { Seq::empty() }),
{
    broadcast use encode_utf8_decode_utf8;

    match text::from_utf8(bytes) {
        Some(t) => t,
        None => {
            proof {
                reveal_strlit("");
            }
            assert(""@ =~= Seq::empty());
            ""
        },
    }
}

fn push_power(out: &mut String, power: i8)
    ensures
        final(out)@ == old(out)@ + power_text(power as int),
{
    let ghost mag = (if power < 0 { -power } else { power as int }) as nat;
    let n: u32 = if power < 0 { (-(power as i32)) as u32 } else { power as u32 };
    proof {
        lemma_dec_len(mag);
        reveal_strlit("");
    }
    if n < 10 {
        out.append("  ");
    } else if n < 100 {
        out.append(" ");
    } else {
        out.append("");
    }
    out.append(if power < 0 { "-" } else { "+" });
    text::push_dec(out, n);
    assert(out@ =~= old(out)@ + power_text(power as int));
}

pub(crate) proof fn lemma_dec_len(n: nat)
    requires
        n < 1000,
    ensures
        text::dec(n).len() == (if n < 10 { 1int } else if n < 100 { 2 } else { 3 }),
{
    reveal_with_fuel(text::dec, 3);
}

/// The frame that shows `state`. The network name has to be cut at a character.
pub fn render(state: &DisplayState) -> (r: Screen)
    requires
        state.wf(),
        state.line1_ticks == 0 && valid_utf8(state.ssid_bytes()) && state.ssid_len
            > SHOWN_SSID_BYTES ==> is_char_boundary(state.ssid_bytes(), SHOWN_SSID_BYTES as int),
    ensures
        r.line1@ == line1_text(*state),
        r.line2@ == line2_text(*state),
        r.line3@ == line3_text(*state),
        match r.banner {
            Some(b) => state.flash_ticks > 0 && is_banner(b, state.flash_bytes()),
            None => state.flash_ticks == 0,
        },
{
    broadcast use encode_utf8_decode_utf8;

    let line1: String = if state.line1_ticks > 0 {
        let bytes = vstd::slice::slice_subrange(
            state.line1_override.as_slice(),
            0,
            state.line1_override_len as usize,
        );
        assert(bytes@ =~= state.override_bytes());
        String::from_str(text_of(bytes))
    } else {
        let bytes = vstd::slice::slice_subrange(
            state.ssid.as_slice(),
            0,
            state.ssid_len as usize,
        );
        assert(bytes@ =~= state.ssid_bytes());
        let ssid = text_of(bytes);
        let short = if ssid.as_bytes().len() > SHOWN_SSID_BYTES {
            let head = ssid.split_at(SHOWN_SSID_BYTES).0;
            assert(head.spec_bytes() =~= state.ssid_bytes().take(SHOWN_SSID_BYTES as int));
            head
        } else {
            ssid
        };
        let mut line: String = String::from_str("WiFi: ");
        line.append(short);
        line
    };
    let line2: String = match state.status {
        WifiStatus::Connected => {
            let mut line: String = String::from_str("IP: ");
            text::push_dec(&mut line, state.ip[0] as u32);
            line.append(".");
            text::push_dec(&mut line, state.ip[1] as u32);
            line.append(".");
            text::push_dec(&mut line, state.ip[2] as u32);
            line.append(".");
            text::push_dec(&mut line, state.ip[3] as u32);
            line
        },
        _ => {
            let dots = match state.dots % 4 {
                1 => ".",
                2 => "..",
                3 => "...",
                _ => "",
            };
            let mut line: String = String::from_str(
                match state.status {
                    WifiStatus::Connecting => "Connecting",
                    _ => "Getting IP",
                },
            );
            line.append(dots);
            line
        },
    };
    let mut line3: String = String::from_str("A:");
    push_power(&mut line3, state.motor_a);
    line3.append("% B:");
    push_power(&mut line3, state.motor_b);
    line3.append("%");
    let banner: Option<Banner> = if state.flash_ticks > 0 {
        let bytes = vstd::slice::slice_subrange(
            state.flash_message.as_slice(),
            0,
            state.flash_message_len as usize,
        );
        assert(bytes@ =~= state.flash_bytes());
        let msg = text_of(bytes);
        let n: i32 = msg.as_bytes().len() as i32;
        let x: i32 = (SCREEN_WIDTH - n * CHAR_WIDTH) / 2;
        Some(
            Banner {
                text: String::from_str(msg),
                x,
                box_x: x - 2,
                box_width: (n * CHAR_WIDTH) as u32 + 4,
            },
        )
    } else {
        None
    };
    Screen { line1, line2, line3, banner }
}

/// Count down the temporary texts that a frame of `drawn` has shown.
pub fn count_down(display: &mut Option<DisplayState>, drawn: &DisplayState)
    ensures
        match *old(display) {
            None => *final(display) is None,
            Some(s) => *final(display) == Some(
                DisplayState {
                    line1_ticks: if drawn.line1_ticks > 0 && s.line1_ticks > 0 {
                        (s.line1_ticks - 1) as u8
                    } else {
                        s.line1_ticks
                    },
                    flash_ticks: if drawn.flash_ticks > 0 && s.flash_ticks > 0 {
                        (s.flash_ticks - 1) as u8
                    } else {
                        s.flash_ticks
                    },
                    ..s
                },
            ),
        },
        *old(display) == Some(*drawn) ==> *final(display) == Some(counted(*drawn)),
{
    if let Some(s) = display {
        if drawn.line1_ticks > 0 {
            s.line1_ticks = s.line1_ticks.saturating_sub(1);
        }
        if drawn.flash_ticks > 0 {
            s.flash_ticks = s.flash_ticks.saturating_sub(1);
        }
    }
}

// -- Laws --------------------------------------------------------------------

/// The state after the texts of one frame have been counted down.
pub open spec fn counted(s: DisplayState) -> DisplayState {
    DisplayState {
        line1_ticks: if s.line1_ticks > 0 {
            (s.line1_ticks - 1) as u8
        } else {
            0
        },
        flash_ticks: if s.flash_ticks > 0 {
            (s.flash_ticks - 1) as u8
        } else {
            0
        },
        ..s
    }
}

/// The state after `n` frames.
pub open spec fn after_frames(s: DisplayState, n: nat) -> DisplayState
    decreases n,
{
    if n == 0 {
        s
    } else {
        counted(after_frames(s, (n - 1) as nat))
    }
}

/// A temporary text takes the place of line 1 for as many frames as it has
/// ticks; then the network name is back. A message goes the same way.
pub proof fn law_messages_expire(s: DisplayState, n: nat)
    ensures
        line1_text(after_frames(s, n)) == (if n < s.line1_ticks {
            shown(s.override_bytes())
        } else {
            "WiFi: "@ + shown_ssid(s.ssid_bytes())
        }),
        after_frames(s, n).flash_ticks > 0 <==> n < s.flash_ticks,
{
    lemma_after_frames(s, n);
}

pub(crate) proof fn lemma_after_frames(s: DisplayState, n: nat)
    ensures
        after_frames(s, n) == (DisplayState {
            line1_ticks: (if n < s.line1_ticks { s.line1_ticks - n } else { 0 }) as u8,
            flash_ticks: (if n < s.flash_ticks { s.flash_ticks - n } else { 0 }) as u8,
            ..s
        }),
    decreases n,
{
    if n > 0 {
        lemma_after_frames(s, (n - 1) as nat);
    }
}

proof fn lemma_dec_ascii(n: nat)
    ensures
        is_ascii_chars(text::dec(n)),
    decreases n,
{
    if n >= 10 {
        lemma_dec_ascii(n / 10);
    }
}

proof fn lemma_power_text(power: int)
    requires
        -128 <= power <= 127,
    ensures
        power_text(power).len() == 4,
        is_ascii_chars(power_text(power)),
{
    let mag = (if power < 0 { -power } else { power }) as nat;
    lemma_dec_len(mag);
    lemma_dec_ascii(mag);
    reveal_strlit("  ");
    reveal_strlit(" ");
    reveal_strlit("");
    reveal_strlit("-");
    reveal_strlit("+");
}

/// Every line fits into 32 bytes.
pub proof fn law_lines_fit(s: DisplayState)
    requires
        s.wf(),
        s.line1_ticks == 0 && valid_utf8(s.ssid_bytes()) && s.ssid_len > SHOWN_SSID_BYTES
            ==> is_char_boundary(s.ssid_bytes(), SHOWN_SSID_BYTES as int),
    ensures
        encode_utf8(line1_text(s)).len() <= 32,
        encode_utf8(line2_text(s)).len() <= 32,
        encode_utf8(line3_text(s)).len() <= 32,
{
    broadcast use decode_utf8_encode_utf8;

    // line 1
    assert(encode_utf8(Seq::empty()) =~= Seq::empty());
    if s.line1_ticks == 0 {
        let name = shown_ssid(s.ssid_bytes());
        let bytes = s.ssid_bytes();
        if valid_utf8(bytes) && bytes.len() > SHOWN_SSID_BYTES {
            valid_utf8_split(bytes, SHOWN_SSID_BYTES as int);
            assert(bytes.subrange(0, SHOWN_SSID_BYTES as int) =~= bytes.take(
                SHOWN_SSID_BYTES as int,
            ));
        }
        assert(encode_utf8(name).len() <= SHOWN_SSID_BYTES);
        reveal_strlit("WiFi: ");
        is_ascii_chars_encode_utf8("WiFi: "@);
        text::lemma_encode_concat("WiFi: "@, name);
    }
    // line 2

    lemma_dec_len(s.ip@[0] as nat);
    lemma_dec_len(s.ip@[1] as nat);
    lemma_dec_len(s.ip@[2] as nat);
    lemma_dec_len(s.ip@[3] as nat);
    lemma_dec_ascii(s.ip@[0] as nat);
    lemma_dec_ascii(s.ip@[1] as nat);
    lemma_dec_ascii(s.ip@[2] as nat);
    lemma_dec_ascii(s.ip@[3] as nat);
    reveal_strlit("IP: ");
    reveal_strlit("Connecting");
    reveal_strlit("Getting IP");
    reveal_strlit("");
    reveal_strlit(".");
    reveal_strlit("..");
    reveal_strlit("...");
    is_ascii_chars_encode_utf8(line2_text(s));
    // line 3
    lemma_power_text(s.motor_a as int);
    lemma_power_text(s.motor_b as int);
    reveal_strlit("A:");
    reveal_strlit("% B:");
    reveal_strlit("%");
    is_ascii_chars_encode_utf8(line3_text(s));
}

} // verus!
