//! WiFi credentials and radio mode as they are stored in flash.
//!
//! Each has a flash sector of its own, so that saving one keeps the other.
use crate::text;
use vstd::prelude::*;
use vstd::string::*;
use vstd::utf8::*;

verus! {

/// Flash offset of the credentials, in the upper flash region.
pub const FLASH_OFFSET: u32 = 0x3F0000;

/// Flash offset of the radio mode.
pub const RADIO_FLASH_OFFSET: u32 = 0x3F1000;

/// Maximum SSID length (WiFi allows 32 bytes).
pub const MAX_SSID_LEN: usize = 32;

/// Maximum password length (WPA2 allows 63 characters).
pub const MAX_PASSWORD_LEN: usize = 64;

/// One flash sector; flash is erased in sectors.
pub const STORAGE_SIZE: usize = 4096;

/// Bytes read back of a sector.
pub const READ_SIZE: usize = 128;

#[verifier::external_type_specification]
#[verifier::external_body]
pub struct ExHeaplessString<const N: usize>(heapless::String<N>);

/// A network name.
pub type Ssid = heapless::String<MAX_SSID_LEN>;

/// A network password.
pub type Password = heapless::String<MAX_PASSWORD_LEN>;

/// The text of a network name.
pub uninterp spec fn ssid_text(s: Ssid) -> Seq<char>;

/// The text of a network password.
pub uninterp spec fn password_text(s: Password) -> Seq<char>;

/// `<heapless::String as TryFrom<&str>>::try_from`: the same text, exactly when
/// its bytes fit.
#[verifier::external_body]
pub(crate) fn ssid_from(s: &str) -> (r: Option<Ssid>)
    ensures
        match r {
            Some(t) => encode_utf8(s@).len() <= MAX_SSID_LEN && ssid_text(t) == s@,
            None => encode_utf8(s@).len() > MAX_SSID_LEN,
        },
{
    heapless::String::try_from(s).ok()
}

/// `<heapless::String as TryFrom<&str>>::try_from`: the same text, exactly when
/// its bytes fit.
#[verifier::external_body]
pub(crate) fn password_from(s: &str) -> (r: Option<Password>)
    ensures
        match r {
            Some(t) => encode_utf8(s@).len() <= MAX_PASSWORD_LEN && password_text(t) == s@,
            None => encode_utf8(s@).len() > MAX_PASSWORD_LEN,
        },
{
    heapless::String::try_from(s).ok()
}

/// `heapless::String::as_str`: the text, never longer than the capacity.
#[verifier::external_body]
pub(crate) fn ssid_as_str(s: &Ssid) -> (r: &str)
    ensures
        r@ == ssid_text(*s),
        r.spec_bytes().len() <= MAX_SSID_LEN,
{
    s.as_str()
}

/// `heapless::String::as_str`: the text, never longer than the capacity.
#[verifier::external_body]
pub(crate) fn password_as_str(s: &Password) -> (r: &str)
    ensures
        r@ == password_text(*s),
        r.spec_bytes().len() <= MAX_PASSWORD_LEN,
{
    s.as_str()
}

/// `heapless::String::new`: the empty text.
#[verifier::external_body]
pub(crate) fn ssid_empty() -> (r: Ssid)
    ensures
        ssid_text(r) == Seq::<char>::empty(),
{
    heapless::String::new()
}

/// `heapless::String::new`: the empty text.
#[verifier::external_body]
pub(crate) fn password_empty() -> (r: Password)
    ensures
        password_text(r) == Seq::<char>::empty(),
{
    heapless::String::new()
}

/// `<heapless::String as Clone>::clone`: the same text.
#[verifier::external_body]
fn ssid_clone(s: &Ssid) -> (r: Ssid)
    ensures
        ssid_text(r) == ssid_text(*s),
{
    s.clone()
}

/// `<heapless::String as Clone>::clone`: the same text.
#[verifier::external_body]
fn password_clone(s: &Password) -> (r: Password)
    ensures
        password_text(r) == password_text(*s),
{
    s.clone()
}

/// WiFi credentials.
#[derive(Debug)]
pub struct WifiCredentials {
    pub ssid: Ssid,
    pub password: Password,
}

impl View for WifiCredentials {
    type V = (Seq<char>, Seq<char>);

    open spec fn view(&self) -> (Seq<char>, Seq<char>) {
        (ssid_text(self.ssid), password_text(self.password))
    }
}

impl Clone for WifiCredentials {
    fn clone(&self) -> (r: WifiCredentials)
        ensures
            r@ == self@,
    {
        WifiCredentials { ssid: ssid_clone(&self.ssid), password: password_clone(&self.password) }
    }
}

impl WifiCredentials {
    /// Credentials, where both texts fit.
    pub fn new(ssid: &str, password: &str) -> (r: Option<WifiCredentials>)
        ensures
            match r {
                Some(c) => c@ == (ssid@, password@) && encode_utf8(ssid@).len() <= MAX_SSID_LEN
                    && encode_utf8(password@).len() <= MAX_PASSWORD_LEN,
                None => encode_utf8(ssid@).len() > MAX_SSID_LEN || encode_utf8(password@).len()
                    > MAX_PASSWORD_LEN,
            },
    {
        match (ssid_from(ssid), password_from(password)) {
            (Some(ssid), Some(password)) => Some(WifiCredentials { ssid, password }),
            _ => None,
        }
    }

    /// The network name.
    pub fn ssid_str(&self) -> (r: &str)
        ensures
            r@ == self@.0,
            r.spec_bytes().len() <= MAX_SSID_LEN,
    {
        ssid_as_str(&self.ssid)
    }

    /// The password.
    pub fn password_str(&self) -> (r: &str)
        ensures
            r@ == self@.1,
            r.spec_bytes().len() <= MAX_PASSWORD_LEN,
    {
        password_as_str(&self.password)
    }
}

// -- Flash image of the credentials ------------------------------------------

/// Magic bytes that identify stored credentials.
pub open spec fn magic() -> Seq<u8> {
    seq![0xCAu8, 0xFEu8, 0xBEu8, 0xEFu8]
}

/// `b` filled up with the erased state of flash to `n` bytes.
pub open spec fn padded(b: Seq<u8>, n: int) -> Seq<u8> {
    b + Seq::new((n - b.len()) as nat, |i: int| 0xFFu8)
}

/// The sector that holds credentials: magic, SSID length, SSID in 32 bytes,
/// password length, password, erased flash.
pub open spec fn credential_record(ssid: Seq<u8>, password: Seq<u8>) -> Seq<u8> {
    magic() + seq![ssid.len() as u8] + padded(ssid, MAX_SSID_LEN as int) + seq![
        password.len() as u8,
    ] + padded(password, STORAGE_SIZE - 6 - MAX_SSID_LEN)
}

/// The credentials that the bytes at the front of a sector hold.
pub open spec fn stored_credentials(b: Seq<u8>) -> Option<(Seq<char>, Seq<char>)> {
    let ssid_len = b[4] as int;
    let ssid = b.subrange(5, 5 + ssid_len);
    let pass_len = b[37] as int;
    let pass = b.subrange(38, 38 + pass_len);
    if b.take(4) != magic() || ssid_len == 0 || ssid_len > MAX_SSID_LEN || !valid_utf8(ssid)
        || pass_len > MAX_PASSWORD_LEN || !valid_utf8(pass) {
        None
    } else {
        Some((decode_utf8(ssid), decode_utf8(pass)))
    }
}

/// Decode WiFi credentials from the front of their sector.
pub fn read_wifi_credentials(buffer: &[u8; READ_SIZE]) -> (r: Option<WifiCredentials>)
    ensures
        match r {
            Some(c) => stored_credentials(buffer@) == Some(c@),
            None => stored_credentials(buffer@) is None,
        },
{
    broadcast use encode_utf8_decode_utf8;

    let b = buffer.as_slice();
    if b[0] != 0xCA || b[1] != 0xFE || b[2] != 0xBE || b[3] != 0xEF {
        assert(buffer@.take(4)[0] != 0xCA || buffer@.take(4)[1] != 0xFE || buffer@.take(4)[2] != 0xBE
            || buffer@.take(4)[3] != 0xEF);
        return None;
    }
    assert(buffer@.take(4) =~= magic());
    let ssid_len: usize = b[4] as usize;
    if ssid_len == 0 || ssid_len > MAX_SSID_LEN {
        return None;
    }
    let ssid_bytes = vstd::slice::slice_subrange(b, 5, 5 + ssid_len);
    let ssid = match text::from_utf8(ssid_bytes) {
        Some(t) => t,
        None => return None,
    };
    let pass_len: usize = b[37] as usize;
    if pass_len > MAX_PASSWORD_LEN {
        return None;
    }
    let pass_bytes = vstd::slice::slice_subrange(b, 38, 38 + pass_len);
    let password = match text::from_utf8(pass_bytes) {
        Some(t) => t,
        None => return None,
    };
    WifiCredentials::new(ssid, password)
}

/// Append `b` and erased flash, `n` bytes together.
fn push_padded(out: &mut Vec<u8>, b: &[u8], n: usize)
    requires
        b@.len() <= n,
    ensures
        final(out)@ == old(out)@ + padded(b@, n as int),
{
    let mut i: usize = 0;
    while i < n
        invariant
            i <= n,
            b@.len() <= n,
            out@ == old(out)@ + padded(b@, n as int).take(i as int),
        decreases n - i,
    {
        if i < b.len() {
            out.push(b[i]);
        } else {
            out.push(0xFF);
        }
        assert(out@ =~= old(out)@ + padded(b@, n as int).take(i + 1));
        i = i + 1;
    }
    assert(padded(b@, n as int).take(n as int) =~= padded(b@, n as int));
}

/// The sector image that stores WiFi credentials.
pub fn write_wifi_credentials(ssid: &str, password: &str) -> (r: Result<Vec<u8>, &'static str>)
    ensures
        match r {
            Ok(image) => 1 <= encode_utf8(ssid@).len() <= MAX_SSID_LEN && encode_utf8(
                password@,
            ).len() <= MAX_PASSWORD_LEN && image@ == credential_record(
                encode_utf8(ssid@),
                encode_utf8(password@),
            ) && image@.len() == STORAGE_SIZE,
            Err(e) => if 1 <= encode_utf8(ssid@).len() <= MAX_SSID_LEN {
                encode_utf8(password@).len() > MAX_PASSWORD_LEN && e@
                    == "Password must be 0-64 bytes"@
            } else {
                e@ == "SSID must be 1-32 bytes"@
            },
        },
{
    let s = ssid.as_bytes();
    let p = password.as_bytes();
    if s.len() == 0 || s.len() > MAX_SSID_LEN {
        return Err("SSID must be 1-32 bytes");
    }
    if p.len() > MAX_PASSWORD_LEN {
        return Err("Password must be 0-64 bytes");
    }
    let mut image: Vec<u8> = vec![0xCA, 0xFE, 0xBE, 0xEF];
    assert(image@ =~= magic());
    image.push(s.len() as u8);
    assert(image@ =~= magic() + seq![s@.len() as u8]);
    push_padded(&mut image, s, MAX_SSID_LEN);
    let ghost head = image@;
    image.push(p.len() as u8);
    assert(image@ =~= head + seq![p@.len() as u8]);
    push_padded(&mut image, p, STORAGE_SIZE - 6 - MAX_SSID_LEN);
    Ok(image)
}

/// What came of storing a sector: it is erased first, then written.
pub fn saved(erased: bool, written: bool) -> (r: Result<(), &'static str>)
    ensures
        match r {
            Ok(_) => erased && written,
            Err(e) => if erased {
                !written && e@ == "Flash write failed"@
            } else {
                e@ == "Flash erase failed"@
            },
        },
{
    if !erased {
        Err("Flash erase failed")
    } else if !written {
        Err("Flash write failed")
    } else {
        Ok(())
    }
}

/// What came of clearing the stored credentials, which is to erase their
/// sector.
pub fn clear_wifi_credentials(erased: bool) -> (r: Result<(), &'static str>)
    ensures
        match r {
            Ok(_) => erased,
            Err(e) => !erased && e@ == "Flash erase failed"@,
        },
{
    if erased {
        Ok(())
    } else {
        Err("Flash erase failed")
    }
}

/// Credentials that have been stored are read back as they were.
pub proof fn law_stored_credentials_are_read_back(ssid: Seq<char>, password: Seq<char>)
    requires
        1 <= encode_utf8(ssid).len() <= MAX_SSID_LEN,
        encode_utf8(password).len() <= MAX_PASSWORD_LEN,
    ensures
        stored_credentials(
            credential_record(encode_utf8(ssid), encode_utf8(password)).take(READ_SIZE as int),
        ) == Some((ssid, password)),
{
    let s = encode_utf8(ssid);
    let p = encode_utf8(password);
    let b = credential_record(s, p).take(READ_SIZE as int);
    assert(b.take(4) =~= magic());
    assert(b.subrange(5, 5 + s.len() as int) =~= s);
    assert(b.subrange(38, 38 + p.len() as int) =~= p);
    encode_utf8_valid_utf8(ssid);
    encode_utf8_valid_utf8(password);
    encode_utf8_decode_utf8(ssid);
    encode_utf8_decode_utf8(password);
}

/// A cleared sector holds no credentials.
pub proof fn law_cleared_sector_holds_no_credentials(b: Seq<u8>)
    requires
        b.len() == READ_SIZE,
        forall|i: int| 0 <= i < b.len() ==> b[i] == 0xFF,
    ensures
        stored_credentials(b) is None,
{
    assert(b.take(4)[0] == 0xFF);
}

// -- Radio mode --------------------------------------------------------------

/// Which radio is used after boot.
#[derive(Debug, Clone, Copy, PartialEq, Eq, Structural)]
pub enum RadioMode {
    Ble,
    Wifi,
}

impl Default for RadioMode {
    fn default() -> (r: RadioMode)
        ensures
            r == RadioMode::Ble,
    {
        RadioMode::Ble
    }
}

/// The front of the sector that holds the radio mode.
pub open spec fn radio_header(mode: RadioMode) -> Seq<u8> {
    seq![
        0x52u8,
        0x4Du8,
        0x4Fu8,
        0x44u8,
        if mode == RadioMode::Wifi {
            2u8
        } else {
            1u8
        },
    ]
}

/// The radio mode that the bytes at the front of a sector hold: BLE unless
/// they say WiFi.
pub open spec fn stored_radio_mode(b: Seq<u8>) -> RadioMode {
    if b.take(5) == radio_header(RadioMode::Wifi) {
        RadioMode::Wifi
    } else {
        RadioMode::Ble
    }
}

/// Decode the radio mode from the front of its sector.
pub fn read_radio_mode(buffer: &[u8; READ_SIZE]) -> (r: RadioMode)
    ensures
        r == stored_radio_mode(buffer@),
{
    let b = buffer.as_slice();
    if b[0] == 0x52 && b[1] == 0x4D && b[2] == 0x4F && b[3] == 0x44 && b[4] == 2 {
        assert(buffer@.take(5) =~= radio_header(RadioMode::Wifi));
        RadioMode::Wifi
    } else {
        assert(buffer@.take(5) != radio_header(RadioMode::Wifi)) by {
            let h = radio_header(RadioMode::Wifi);
            let f = buffer@.take(5);
            assert(f[0] != h[0] || f[1] != h[1] || f[2] != h[2] || f[3] != h[3] || f[4] != h[4]);
        }
        RadioMode::Ble
    }
}

/// The sector image that stores a radio mode.
pub fn write_radio_mode(mode: RadioMode) -> (image: Vec<u8>)
    ensures
        image@ == padded(radio_header(mode), STORAGE_SIZE as int),
        image@.len() == STORAGE_SIZE,
{
    let header: Vec<u8> = vec![
        0x52,
        0x4D,
        0x4F,
        0x44,
        if mode == RadioMode::Wifi {
            2
        } else {
            1
        },
    ];
    assert(header@ =~= radio_header(mode));
    let mut image: Vec<u8> = Vec::new();
    push_padded(&mut image, header.as_slice(), STORAGE_SIZE);
    assert(image@ =~= padded(radio_header(mode), STORAGE_SIZE as int));
    image
}

/// A radio mode that has been stored is read back, and without one the mode is
/// BLE.
pub proof fn law_stored_radio_mode_is_read_back(mode: RadioMode, erased: Seq<u8>)
    requires
        erased.len() == READ_SIZE,
        forall|i: int| 0 <= i < erased.len() ==> erased[i] == 0xFF,
    ensures
        stored_radio_mode(
            padded(radio_header(mode), STORAGE_SIZE as int).take(READ_SIZE as int),
        ) == mode,
        stored_radio_mode(erased) == RadioMode::Ble,
{
    let b = padded(radio_header(mode), STORAGE_SIZE as int).take(READ_SIZE as int);
    assert(b.take(5) =~= radio_header(mode));
    assert(radio_header(RadioMode::Ble)[4] != radio_header(RadioMode::Wifi)[4]);
    assert(erased.take(5)[0] != radio_header(RadioMode::Wifi)[0]);
}

/// The sectors of the credentials and of the radio mode do not overlap, so
/// that storing one keeps the other.
pub proof fn law_sectors_are_disjoint(i: int, j: int)
    requires
        0 <= i < STORAGE_SIZE,
        0 <= j < STORAGE_SIZE,
    ensures
        FLASH_OFFSET + i != RADIO_FLASH_OFFSET + j,
{
}

} // verus!
