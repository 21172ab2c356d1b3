//! What the display shows, character by character.
use crate::display;
use crate::display::{Banner, DisplayState, WifiStatus};
use crate::text;
use vstd::prelude::*;
use vstd::string::*;
use vstd::utf8::*;

verus! {

/// A power takes four characters: its digits at the right end, its sign before
/// them, blanks before that.
pub proof fn law_power_is_shown(power: i8)
    ensures
        ({
            let shown = display::power_text(power as int);
            let digits = text::dec_int(if power < 0 { -power } else { power as int });
            &&& shown.len() == 4
            &&& 1 <= digits.len() <= 3
            &&& shown.skip(4 - digits.len()) == digits
            &&& shown[3 - digits.len()] == (if power < 0 { '-' } else { '+' })
            &&& forall|i: int| 0 <= i < 3 - digits.len() ==> #[trigger] shown[i] == ' '
        }),
{
    let mag = (if power < 0 { -power } else { power as int }) as nat;
    let shown = display::power_text(power as int);
    display::lemma_dec_len(mag);
    reveal_strlit("  ");
    reveal_strlit(" ");
    reveal_strlit("");
    reveal_strlit("-");
    reveal_strlit("+");
    assert(shown.skip(4 - text::dec(mag).len()) =~= text::dec(mag));
}

/// Line 3 names motor A and its power, then motor B and its power.
pub proof fn law_both_powers_are_shown(s: DisplayState)
    ensures
        ({
            let line = display::line3_text(s);
            &&& line.len() == 15
            &&& line.subrange(0, 2) == seq!['A', ':']
            &&& line.subrange(2, 6) == display::power_text(s.motor_a as int)
            &&& line.subrange(6, 10) == seq!['%', ' ', 'B', ':']
            &&& line.subrange(10, 14) == display::power_text(s.motor_b as int)
            &&& line[14] == '%'
        }),
{
    let line = display::line3_text(s);
    law_power_is_shown(s.motor_a);
    law_power_is_shown(s.motor_b);
    reveal_strlit("A:");
    reveal_strlit("% B:");
    reveal_strlit("%");
    assert(line.subrange(0, 2) =~= seq!['A', ':']);
    assert(line.subrange(2, 6) =~= display::power_text(s.motor_a as int));
    assert(line.subrange(6, 10) =~= seq!['%', ' ', 'B', ':']);
    assert(line.subrange(10, 14) =~= display::power_text(s.motor_b as int));
}

/// Before there is an address line 2 names the stage, and as many dots follow
/// as the counter shows, four values going round.
pub proof fn law_progress_is_shown(s: DisplayState, i: int)
    requires
        0 <= i < s.dots % 4,
    ensures
        s.status == WifiStatus::Connecting ==> display::line2_text(s).len() == 10 + s.dots % 4
            && display::line2_text(s).take(10) == "Connecting"@ && display::line2_text(s)[10 + i]
            == '.',
        s.status == WifiStatus::GettingIP ==> display::line2_text(s).len() == 10 + s.dots % 4
            && display::line2_text(s).take(10) == "Getting IP"@ && display::line2_text(s)[10 + i]
            == '.',
{
    reveal_strlit("Connecting");
    reveal_strlit("Getting IP");
    reveal_strlit("");
    reveal_strlit(".");
    reveal_strlit("..");
    reveal_strlit("...");
    let line = display::line2_text(s);
    assert(s.status == WifiStatus::Connecting ==> line.take(10) =~= "Connecting"@);
    assert(s.status == WifiStatus::GettingIP ==> line.take(10) =~= "Getting IP"@);
}

/// Every fourth count shows no dot at all.
pub proof fn law_progress_starts_over(s: DisplayState)
    requires
        s.dots % 4 == 0,
    ensures
        s.status == WifiStatus::Connecting ==> display::line2_text(s) == "Connecting"@,
        s.status == WifiStatus::GettingIP ==> display::line2_text(s) == "Getting IP"@,
{
    reveal_strlit("");
    assert("Connecting"@ + ""@ =~= "Connecting"@);
    assert("Getting IP"@ + ""@ =~= "Getting IP"@);
}

/// Once there is an address, the dots in line 2 set its four numbers apart.
pub proof fn law_address_is_shown(s: DisplayState)
    requires
        s.status == WifiStatus::Connected,
    ensures
        text::after_prefix(display::line2_text(s), "IP: "@) matches Some(address) && text::pieces(
            address,
            '.',
        ) == seq![
            text::dec_int(s.ip@[0] as int),
            text::dec_int(s.ip@[1] as int),
            text::dec_int(s.ip@[2] as int),
            text::dec_int(s.ip@[3] as int),
        ],
{
    let a = text::dec(s.ip@[0] as nat);
    let b = text::dec(s.ip@[1] as nat);
    let c = text::dec(s.ip@[2] as nat);
    let d = text::dec(s.ip@[3] as nat);
    lemma_no_dot(s.ip@[0] as nat);
    lemma_no_dot(s.ip@[1] as nat);
    lemma_no_dot(s.ip@[2] as nat);
    lemma_no_dot(s.ip@[3] as nat);
    reveal_strlit(".");
    reveal_strlit("IP: ");
    let t2 = c + (seq!['.'] + d);
    let t1 = b + (seq!['.'] + t2);
    let t0 = a + (seq!['.'] + t1);
    let line = display::line2_text(s);
    assert(line =~= "IP: "@ + t0);
    assert("IP: "@.is_prefix_of(line));
    assert(line.skip("IP: "@.len() as int) =~= t0);
    text::lemma_pieces_cons(a, t1, '.');
    text::lemma_pieces_cons(b, t2, '.');
    text::lemma_pieces_cons(c, d, '.');
    text::lemma_pieces_cons(d, Seq::empty(), '.');
    assert(text::pieces(t0, '.') =~= seq![a, b, c, d]);
}

proof fn lemma_no_dot(n: nat)
    ensures
        forall|i: int| 0 <= i < text::dec(n).len() ==> #[trigger] text::dec(n)[i] != '.',
{
    text::lemma_dec_digits(n);
    assert forall|i: int| 0 <= i < text::dec(n).len() implies #[trigger] text::dec(n)[i] != '.' by {
        assert(text::is_digit(text::dec(n)[i]));
    }
}

/// While nothing takes its place, line 1 shows the network: all of a name of up
/// to 15 bytes, the first 15 bytes of a longer one, nothing of what is no text.
pub proof fn law_network_is_shown(s: DisplayState)
    requires
        s.wf(),
        s.line1_ticks == 0,
        valid_utf8(s.ssid_bytes()) && s.ssid_len > 15 ==> is_char_boundary(s.ssid_bytes(), 15),
    ensures
        ({
            let name = s.ssid@.take(s.ssid_len as int);
            let line = display::line1_text(s);
            &&& text::after_prefix(line, "WiFi: "@) matches Some(rest) && encode_utf8(rest) == (
            if !valid_utf8(name) {
                Seq::empty()
            } else if name.len() <= 15 {
                name
            } else {
                name.take(15)
            })
        }),
{
    broadcast use decode_utf8_encode_utf8;

    let name = s.ssid@.take(s.ssid_len as int);
    let line = display::line1_text(s);
    let rest = display::shown_ssid(name);
    assert(s.ssid_bytes() == name);
    assert("WiFi: "@.is_prefix_of(line));
    assert(line.skip("WiFi: "@.len() as int) =~= rest);
    assert(encode_utf8(Seq::empty()) =~= Seq::empty());
    if valid_utf8(name) && name.len() > 15 {
        valid_utf8_split(name, 15);
        assert(name.subrange(0, 15) =~= name.take(15));
    }
}

/// A temporary text stands alone in line 1, and is shown as it was stored.
pub proof fn law_temporary_text_is_shown(s: DisplayState)
    requires
        s.wf(),
        s.line1_ticks > 0,
        valid_utf8(s.line1_override@.take(s.line1_override_len as int)),
    ensures
        encode_utf8(display::line1_text(s)) == s.line1_override@.take(s.line1_override_len as int),
{
    broadcast use decode_utf8_encode_utf8;

    assert(s.override_bytes() == s.line1_override@.take(s.line1_override_len as int));
}

/// A message is shown as it was stored. Its box is centered on a screen of 128
/// pixels: two pixels wider than the text on either side, six pixels for each
/// byte.
pub proof fn law_message_is_centered(b: Banner, bytes: Seq<u8>)
    requires
        valid_utf8(bytes),
        display::is_banner(b, bytes),
    ensures
        encode_utf8(b.text@) == bytes,
        b.x + b.x + 6 * bytes.len() == 128,
        b.box_x + b.box_x + b.box_width == 128,
        b.box_width == 6 * bytes.len() + 4,
{
    broadcast use decode_utf8_encode_utf8;

}

/// Of what is no text an empty box is left in the middle.
pub proof fn law_broken_message_is_empty(b: Banner, bytes: Seq<u8>)
    requires
        !valid_utf8(bytes),
        display::is_banner(b, bytes),
    ensures
        b.text@.len() == 0,
        b.x == 64,
        b.box_x == 62,
        b.box_width == 4,
{
}

/// Of a text that does not fit the first bytes are kept.
pub proof fn law_long_texts_are_cut(bytes: Seq<u8>, n: int)
    requires
        0 <= n,
    ensures
        display::at_most(bytes, n).is_prefix_of(bytes),
        bytes.len() <= n ==> display::at_most(bytes, n).len() == bytes.len(),
        bytes.len() > n ==> display::at_most(bytes, n).len() == n,
{
}

/// A frame takes one tick from each text that lasts, and changes nothing else.
pub proof fn law_frames_count_down(s: DisplayState)
    ensures
        ({
            let t = display::counted(s);
            &&& s.line1_ticks > 0 ==> t.line1_ticks == s.line1_ticks - 1
            &&& s.line1_ticks == 0 ==> t.line1_ticks == 0
            &&& s.flash_ticks > 0 ==> t.flash_ticks == s.flash_ticks - 1
            &&& s.flash_ticks == 0 ==> t.flash_ticks == 0
            &&& t == (DisplayState {
                line1_ticks: t.line1_ticks,
                flash_ticks: t.flash_ticks,
                ..s
            })
        }),
{
}

/// A text that was just set lasts for six frames.
pub proof fn law_texts_last_six_frames(s: DisplayState, n: nat)
    ensures
        s.line1_ticks == display::MESSAGE_TICKS ==> (display::after_frames(s, n).line1_ticks > 0
            <==> n < 6),
        s.flash_ticks == display::MESSAGE_TICKS ==> (display::after_frames(s, n).flash_ticks > 0
            <==> n < 6),
{
    display::lemma_after_frames(s, n);
}

/// A buffer of zeros holds nothing else.
pub proof fn law_zeros(n: nat, i: int)
    requires
        0 <= i < n,
    ensures
        display::zeros(n).len() == n,
        display::zeros(n)[i] == 0,
{
}

/// Setting a motor's power shows it and leaves everything else.
pub proof fn law_shown_motors_are_told_apart(s: DisplayState, index: int, power: i8)
    ensures
        ({
            let t = display::with_motor(s, index, power);
            &&& t.motor_a == (if index == 0 { power } else { s.motor_a })
            &&& t.motor_b == (if index == 1 { power } else { s.motor_b })
            &&& t == (DisplayState { motor_a: t.motor_a, motor_b: t.motor_b, ..s })
        }),
{
}

} // verus!
