use esp32_http_servo::display::{init_display_state, render, DisplayState, WifiStatus};
use esp32_http_servo::wifi::{
    boots_ble, credentials_stored, default_ssid, show_stored_credentials, LinkAction, LinkEvent,
    ReadyStage, ReadyStep, WifiDefaults, WifiLink, WifiReady,
};
use esp32_http_servo::wifi_config::{
    clear_wifi_credentials, read_radio_mode, read_wifi_credentials, saved, write_radio_mode,
    write_wifi_credentials, RadioMode, WifiCredentials, FLASH_OFFSET, RADIO_FLASH_OFFSET,
    READ_SIZE, STORAGE_SIZE,
};

const DEFAULTS: WifiDefaults = WifiDefaults { ssid: "home", password: "pw" };

fn creds(ssid: &str, password: &str) -> WifiCredentials {
    WifiCredentials::new(ssid, password).unwrap()
}

fn front(image: &[u8]) -> [u8; READ_SIZE] {
    image[..READ_SIZE].try_into().unwrap()
}

// -- Storage -----------------------------------------------------------------

#[test]
fn credentials_have_limits() {
    assert!(WifiCredentials::new(&"s".repeat(32), &"p".repeat(64)).is_some());
    assert!(WifiCredentials::new(&"s".repeat(33), "").is_none());
    assert!(WifiCredentials::new("", &"p".repeat(65)).is_none());
    // the limits count bytes
    assert!(WifiCredentials::new(&"é".repeat(17), "").is_none());
}

#[test]
fn a_copy_holds_the_same_credentials() {
    let copy = creds("lab", "secret").clone();
    assert_eq!((copy.ssid_str(), copy.password_str()), ("lab", "secret"));
}

#[test]
fn credential_image() {
    let image = write_wifi_credentials("MyNetwork", "secret123").unwrap();
    assert_eq!(image.len(), STORAGE_SIZE);
    assert_eq!(image[..5], [0xCA, 0xFE, 0xBE, 0xEF, 9]);
    assert_eq!(&image[5..14], b"MyNetwork");
    assert!(image[14..37].iter().all(|b| *b == 0xFF));
    assert_eq!(image[37], 9);
    assert_eq!(&image[38..47], b"secret123");
    assert!(image[47..].iter().all(|b| *b == 0xFF));
}

#[test]
fn credentials_are_read_back() {
    for (s, p) in [("MyNetwork", "secret123"), ("é", ""), ("My Net", "with blanks")] {
        let image = write_wifi_credentials(s, p).unwrap();
        let c = read_wifi_credentials(&front(&image)).unwrap();
        assert_eq!((c.ssid_str(), c.password_str()), (s, p));
    }
    let (s, p) = ("s".repeat(32), "p".repeat(64));
    let image = write_wifi_credentials(&s, &p).unwrap();
    let c = read_wifi_credentials(&front(&image)).unwrap();
    assert_eq!((c.ssid_str(), c.password_str()), (s.as_str(), p.as_str()));
}

#[test]
fn credentials_that_cannot_be_stored() {
    assert_eq!(write_wifi_credentials("", "p"), Err("SSID must be 1-32 bytes"));
    assert_eq!(write_wifi_credentials(&"s".repeat(33), "p"), Err("SSID must be 1-32 bytes"));
    assert_eq!(write_wifi_credentials("s", &"p".repeat(65)), Err("Password must be 0-64 bytes"));
}

#[test]
fn sectors_without_credentials() {
    assert!(read_wifi_credentials(&[0xFF; READ_SIZE]).is_none());
    let image = write_wifi_credentials("net", "pw").unwrap();
    for (at, value) in [(0, 0), (3, 0), (4, 0), (4, 33), (5, 0xFF), (37, 65), (38, 0xFF)] {
        let mut b = front(&image);
        b[at] = value;
        assert!(read_wifi_credentials(&b).is_none(), "{} {}", at, value);
    }
}

#[test]
fn flash_outcomes() {
    assert_eq!(saved(true, true), Ok(()));
    assert_eq!(saved(false, false), Err("Flash erase failed"));
    assert_eq!(saved(true, false), Err("Flash write failed"));
    assert_eq!(clear_wifi_credentials(true), Ok(()));
    assert_eq!(clear_wifi_credentials(false), Err("Flash erase failed"));
}

#[test]
fn radio_mode_is_read_back() {
    for mode in [RadioMode::Ble, RadioMode::Wifi] {
        let image = write_radio_mode(mode);
        assert_eq!(image.len(), STORAGE_SIZE);
        assert_eq!(read_radio_mode(&front(&image)), mode);
    }
    assert_eq!(read_radio_mode(&[0xFF; READ_SIZE]), RadioMode::Ble);
    assert_eq!(read_radio_mode(&[0; READ_SIZE]), RadioMode::Ble);
    assert_eq!(RadioMode::default(), RadioMode::Ble);
    assert!(FLASH_OFFSET + STORAGE_SIZE as u32 <= RADIO_FLASH_OFFSET);
    assert!(boots_ble(RadioMode::Ble) && !boots_ble(RadioMode::Wifi));
}

// -- Connection --------------------------------------------------------------

fn next(link: &mut WifiLink, event: LinkEvent) -> LinkAction {
    link.next(event, &mut None)
}

fn configured(action: LinkAction) -> (String, String) {
    match action {
        LinkAction::Configure { ssid, password } => (ssid, password),
        other => panic!("{:?}", other),
    }
}

/// A link that has just begun to connect with the default credentials.
fn connecting() -> WifiLink {
    let mut link = WifiLink::new(&DEFAULTS);
    assert!(matches!(link.action(), LinkAction::AwaitCredentials { ms: 500 }));
    assert!(matches!(next(&mut link, LinkEvent::Elapsed), LinkAction::PollCredentials));
    assert!(matches!(next(&mut link, LinkEvent::NoCredentials), LinkAction::QueryConnected));
    let action = next(&mut link, LinkEvent::Answer(false));
    assert_eq!(configured(action), ("home".into(), "pw".into()));
    assert!(matches!(next(&mut link, LinkEvent::Done), LinkAction::Start));
    assert!(matches!(next(&mut link, LinkEvent::Done), LinkAction::Connect { ms: 1000 }));
    link
}

/// A link that is connected with the default credentials.
fn connected() -> WifiLink {
    let mut link = connecting();
    assert!(matches!(next(&mut link, LinkEvent::ConnectOk), LinkAction::PollCredentials));
    assert!(matches!(next(&mut link, LinkEvent::NoCredentials), LinkAction::QueryConnected));
    assert!(matches!(next(&mut link, LinkEvent::Answer(true)), LinkAction::AwaitChange));
    link
}

#[test]
fn stored_credentials_come_first() {
    let mut link = WifiLink::new(&DEFAULTS);
    next(&mut link, LinkEvent::Credentials(creds("stored", "x")));
    next(&mut link, LinkEvent::NoCredentials);
    assert_eq!(configured(next(&mut link, LinkEvent::Answer(false))), ("stored".into(), "x".into()));
}

#[test]
fn defaults_that_do_not_fit_are_dropped() {
    let long: &'static str = "0123456789012345678901234567890123";
    let mut link = WifiLink::new(&WifiDefaults { ssid: long, password: "pw" });
    next(&mut link, LinkEvent::Elapsed);
    next(&mut link, LinkEvent::NoCredentials);
    assert_eq!(configured(next(&mut link, LinkEvent::Answer(false))), ("".into(), "pw".into()));
    assert_eq!(default_ssid(&DEFAULTS), "home");
}

#[test]
fn lost_link_reconnects_after_a_pause() {
    let mut link = connected();
    assert!(matches!(next(&mut link, LinkEvent::LinkLost), LinkAction::Sleep { ms: 5000 }));
    assert!(matches!(next(&mut link, LinkEvent::Elapsed), LinkAction::QueryStarted));
    assert!(matches!(next(&mut link, LinkEvent::Answer(true)), LinkAction::Connect { ms: 1000 }));
}

#[test]
fn stopped_radio_is_configured_again() {
    let mut link = connected();
    next(&mut link, LinkEvent::LinkLost);
    next(&mut link, LinkEvent::Elapsed);
    assert_eq!(configured(next(&mut link, LinkEvent::Answer(false))), ("home".into(), "pw".into()));
}

#[test]
fn failed_attempt_is_repeated_after_a_pause() {
    let mut link = connecting();
    assert!(matches!(next(&mut link, LinkEvent::ConnectFailed), LinkAction::Sleep { ms: 5000 }));
    assert!(matches!(next(&mut link, LinkEvent::Elapsed), LinkAction::PollCredentials));
}

#[test]
fn new_credentials_while_connected() {
    let mut link = connected();
    let action = next(&mut link, LinkEvent::Credentials(creds("new", "y")));
    assert!(matches!(action, LinkAction::Disconnect));
    assert!(matches!(next(&mut link, LinkEvent::Done), LinkAction::Sleep { ms: 1000 }));
    assert!(matches!(next(&mut link, LinkEvent::Elapsed), LinkAction::QueryStarted));
    assert!(matches!(next(&mut link, LinkEvent::Answer(true)), LinkAction::Stop));
    assert!(matches!(next(&mut link, LinkEvent::Done), LinkAction::Sleep { ms: 500 }));
    assert_eq!(configured(next(&mut link, LinkEvent::Elapsed)), ("new".into(), "y".into()));
}

#[test]
fn same_credentials_while_connected() {
    let mut link = connected();
    let action = next(&mut link, LinkEvent::Credentials(creds("home", "pw")));
    assert!(matches!(action, LinkAction::QueryStarted));
}

#[test]
fn new_credentials_at_the_top_of_the_loop() {
    let mut link = connecting();
    next(&mut link, LinkEvent::ConnectOk);
    let action = next(&mut link, LinkEvent::Credentials(creds("home", "other")));
    assert!(matches!(action, LinkAction::QueryConnected));
    assert!(matches!(next(&mut link, LinkEvent::Answer(true)), LinkAction::Disconnect));
    next(&mut link, LinkEvent::Done);
    assert!(matches!(next(&mut link, LinkEvent::Elapsed), LinkAction::QueryStarted));
    assert!(matches!(next(&mut link, LinkEvent::Answer(false)), LinkAction::QueryConnected));
    assert_eq!(
        configured(next(&mut link, LinkEvent::Answer(false))),
        ("home".into(), "other".into())
    );
}

#[test]
fn new_credentials_during_an_attempt() {
    let mut link = connecting();
    let mut shown: Option<DisplayState> = Some(init_display_state("x"));
    let action = link.next(LinkEvent::Elapsed, &mut shown);
    assert!(matches!(action, LinkAction::CheckPending));
    for dots in [1, 2, 3, 0, 1] {
        let action = link.next(LinkEvent::Answer(false), &mut shown);
        assert!(matches!(action, LinkAction::KeepConnecting { ms: 1000 }));
        assert_eq!(shown.unwrap().dots, dots);
        let action = link.next(LinkEvent::Elapsed, &mut shown);
        assert!(matches!(action, LinkAction::CheckPending));
    }
    let action = link.next(LinkEvent::Answer(true), &mut shown);
    assert!(matches!(action, LinkAction::PollCredentials));
}

#[test]
fn link_events_out_of_turn_change_nothing() {
    let mut link = connecting();
    assert!(matches!(next(&mut link, LinkEvent::LinkLost), LinkAction::Connect { ms: 1000 }));
    assert!(matches!(next(&mut link, LinkEvent::NoCredentials), LinkAction::Connect { ms: 1000 }));
}

// -- Readiness ---------------------------------------------------------------

#[test]
fn readiness_goes_from_link_to_address() {
    let mut ready = WifiReady::new();
    let mut shown = Some(init_display_state("x"));
    let wait = ReadyStep { serve: false, start_ble: false };
    assert_eq!(ready.poll(false, None, &mut shown), wait);
    assert_eq!(render(&shown.unwrap()).line2, "Connecting.");
    assert_eq!(ready.poll(true, None, &mut shown), wait);
    assert_eq!(shown.unwrap().status, WifiStatus::GettingIP);
    assert_eq!(render(&shown.unwrap()).line2, "Getting IP.");
    let step = ready.poll(true, Some([10, 0, 0, 7]), &mut shown);
    assert_eq!(step, ReadyStep { serve: true, start_ble: false });
    assert_eq!(render(&shown.unwrap()).line2, "IP: 10.0.0.7");
    assert_eq!(ready.stage, ReadyStage::Ready);
}

#[test]
fn link_and_address_at_once() {
    let mut ready = WifiReady::new();
    let mut shown = Some(init_display_state("x"));
    assert!(ready.poll(true, Some([1, 2, 3, 4]), &mut shown).serve);
    assert_eq!(shown.unwrap().status, WifiStatus::Connected);
}

#[test]
fn ble_starts_after_ten_seconds_without_an_address() {
    let mut ready = WifiReady::new();
    for second in 0..30 {
        let step = ready.poll(second > 4, None, &mut None);
        assert!(!step.serve);
        assert_eq!(step.start_ble, second == 10, "{}", second);
    }
    assert!(ready.poll(true, Some([1, 2, 3, 4]), &mut None).serve);
}

// -- Provisioning ------------------------------------------------------------

#[test]
fn storing_credentials_is_shown() {
    let mut shown = Some(init_display_state("x"));
    show_stored_credentials(&creds("stored", ""), &mut shown);
    assert_eq!(render(&shown.unwrap()).line1, "WiFi: stored");
    assert!(credentials_stored(&creds("new", "pw"), Ok(()), &mut shown));
    let mut state = shown.unwrap();
    assert_eq!(render(&state).line1, "WiFi Saved!");
    state.line1_ticks = 0;
    assert_eq!(render(&state).line1, "WiFi: new");
    assert!(!credentials_stored(&creds("other", "pw"), Err("Flash write failed"), &mut shown));
    let mut state = shown.unwrap();
    assert_eq!(render(&state).line1, "Save Failed!");
    state.line1_ticks = 0;
    assert_eq!(render(&state).line1, "WiFi: new");
}
