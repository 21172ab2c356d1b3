use esp32_http_servo::battery::BatteryReading;
use esp32_http_servo::ble::{
    advertising_data, battery_payload, gatt_read, gatt_write, handle_st_cmd, motors_command,
    motors_payload, scan_response_data, snapshot_list, state_payload, wifi_credentials,
    Characteristic, GattWrite, Rejection, StAction,
};
use esp32_http_servo::bounded::ServoList;
use esp32_http_servo::commands::Command;
use esp32_http_servo::st3215::{ServoState, St3215Error};

fn list(ids: &[u8]) -> ServoList {
    heapless::Vec::from_slice(ids).unwrap()
}

#[test]
fn servo_list_is_zero_padded() {
    let mut expected = [0u8; 16];
    expected[0] = 4;
    expected[1] = 9;
    assert_eq!(snapshot_list(Some(&list(&[4, 9]))), expected);
    assert_eq!(snapshot_list(None), [0u8; 16]);
    let full: Vec<u8> = (1..=16).collect();
    assert_eq!(snapshot_list(Some(&list(&full))).to_vec(), full);
}

#[test]
fn state_frames() {
    let st = ServoState { pos: -2, speed: 7, load: 300, voltage: 121, temp: 35 };
    assert_eq!(state_payload(5, Ok(st)), [5, 0, 0xFE, 0xFF, 0x2C, 0x01, 121, 35]);
    assert_eq!(state_payload(5, Err(St3215Error::Timeout)), [5, 0xFF, 0, 0, 0, 0, 0, 0]);
}

#[test]
fn battery_frame_is_big_endian() {
    assert_eq!(battery_payload(BatteryReading { mv: 11720, pct: 66 }), [66, 0x2D, 0xC8]);
}

#[test]
fn motor_writes() {
    assert!(matches!(motors_command(&[60, 196, 1, 2]), Some(Command::MotorsAll([60, -60]))));
    assert!(matches!(motors_command(&[100, 156]), Some(Command::MotorsAll([100, -100]))));
    assert!(motors_command(&[60]).is_none());
    assert!(motors_command(&[101, 0]).is_none());
    assert!(motors_command(&[0, 155]).is_none());
    assert_eq!(motors_payload([60, -60]), [60, 196, 0, 0]);
}

#[test]
fn wifi_writes() {
    let creds = wifi_credentials(b"MyNetwork\0secret123").unwrap();
    assert_eq!((creds.ssid_str(), creds.password_str()), ("MyNetwork", "secret123"));
    let creds = wifi_credentials(b"My Net\0").unwrap();
    assert_eq!((creds.ssid_str(), creds.password_str()), ("My Net", ""));
    let creds = wifi_credentials(b"a\0b\0c").unwrap();
    assert_eq!((creds.ssid_str(), creds.password_str()), ("a", "b\0c"));
    assert!(wifi_credentials(b"MyNetwork").is_none());
    assert!(wifi_credentials(b"\0secret").is_none());
    assert!(wifi_credentials(b"").is_none());
    assert!(wifi_credentials(&[0xFF, 0, b'x']).is_none());
    assert!(wifi_credentials(&[b'x', 0, 0xFF]).is_none());
    let mut long = vec![b'x'; 32];
    long.push(0);
    long.extend([b'y'; 64]);
    assert!(wifi_credentials(&long).is_some());
    long.push(b'y');
    assert!(wifi_credentials(&long).is_none());
    assert!(wifi_credentials(&[[b'x'; 33].as_slice(), &[0]].concat()).is_none());
}

fn st(data: &[u8]) -> StAction {
    handle_st_cmd(data, &list(&[3, 8]))
}

fn cmd(data: &[u8]) -> Command {
    match st(data) {
        StAction::Send(c) => c,
        other => panic!("{:?}", other),
    }
}

fn rejected(data: &[u8]) -> Rejection {
    match st(data) {
        StAction::Reject(r) => r,
        other => panic!("{:?}", other),
    }
}

#[test]
fn servo_frames() {
    assert!(matches!(
        cmd(&[0x01, 1, 0x00, 0x08, 0xDC, 0x05]),
        Command::St3215Move { id: 1, pos: 2048, speed: 1500, acc: 50 }
    ));
    assert!(matches!(cmd(&[0x02, 1, 9, 0, 0, 0]), Command::St3215Torque { id: 1, enable: true }));
    assert!(matches!(cmd(&[0x02, 1, 0, 0, 0, 0]), Command::St3215Torque { id: 1, enable: false }));
    assert!(matches!(cmd(&[0x03, 1, 2, 0, 0, 0]), Command::St3215SetId { current: 1, new: 2 }));
    assert!(matches!(cmd(&[0x04, 1, 0, 0, 0, 0]), Command::St3215Ping { id: 1 }));
    assert!(matches!(st(&[0x05, 1, 0, 0, 0, 0]), StAction::RefreshState { id: 1 }));
    assert!(matches!(st(&[0x06, 0, 0, 0, 0, 0]), StAction::Rescan { from: 1, to: 20 }));
    assert!(matches!(st(&[0x06, 5, 40, 0, 0, 0]), StAction::Rescan { from: 5, to: 40 }));
    assert!(matches!(cmd(&[0x08, 1, 0, 0, 0, 0]), Command::St3215Zero { id: 1 }));
    assert!(matches!(
        cmd(&[0x09, 1, 0x50, 0xFB, 50, 0]),
        Command::St3215Wheel { id: 1, wheel_speed: -1200, acc: 50 }
    ));
    assert!(matches!(cmd(&[0x0A, 1, 0, 0, 0, 0]), Command::St3215ServoMode { id: 1 }));
}

#[test]
fn move_of_all_discovered_servos() {
    match cmd(&[0x07, 0x00, 0x08, 0xDC, 0x05, 60]) {
        Command::St3215MoveAll { count, moves, speed, acc } => {
            assert_eq!((count, speed, acc), (2, 1500, 60));
            assert_eq!(&moves[..2], &[(3, 2048), (8, 2048)]);
            assert_eq!(&moves[2..], &[(0, 0); 14]);
        }
        other => panic!("{:?}", other),
    }
    let full: Vec<u8> = (1..=16).collect();
    match handle_st_cmd(&[0x07, 1, 0, 2, 0, 3], &list(&full)) {
        StAction::Send(Command::St3215MoveAll { count, moves, speed, acc }) => {
            assert_eq!((count, speed, acc), (16, 2, 3));
            assert!(moves.iter().zip(1..).all(|(m, id)| *m == (id, 1)));
        }
        other => panic!("{:?}", other),
    }
    assert!(matches!(
        handle_st_cmd(&[0x07, 0, 0, 0, 0, 0], &list(&[])),
        StAction::Reject(Rejection::NoServos)
    ));
}

#[test]
fn servo_frames_are_validated() {
    assert_eq!(rejected(&[0x01, 1, 0, 0, 0]), Rejection::Malformed);
    assert_eq!(rejected(&[0x01, 1, 0, 0, 0, 0, 0]), Rejection::Malformed);
    assert_eq!(rejected(&[0x0B, 1, 0, 0, 0, 0]), Rejection::UnknownOpcode(0x0B));
    assert_eq!(rejected(&[0x00, 0, 0, 0, 0, 0]), Rejection::UnknownOpcode(0));
    for op in [0x01, 0x02, 0x03, 0x04, 0x05, 0x08, 0x09, 0x0A] {
        assert_eq!(rejected(&[op, 0, 1, 0, 0, 0]), Rejection::OutOfRange);
        assert_eq!(rejected(&[op, 254, 1, 0, 0, 0]), Rejection::OutOfRange);
    }
    assert_eq!(rejected(&[0x01, 1, 0x00, 0x10, 0, 0]), Rejection::OutOfRange);
    assert_eq!(rejected(&[0x01, 1, 0, 0, 0x00, 0x10]), Rejection::OutOfRange);
    assert_eq!(rejected(&[0x03, 1, 0, 0, 0, 0]), Rejection::OutOfRange);
    assert_eq!(rejected(&[0x06, 30, 20, 0, 0, 0]), Rejection::OutOfRange);
    assert_eq!(rejected(&[0x06, 1, 254, 0, 0, 0]), Rejection::OutOfRange);
    assert_eq!(rejected(&[0x07, 0x00, 0x10, 0, 0, 0]), Rejection::OutOfRange);
    assert_eq!(rejected(&[0x07, 0, 0, 0x00, 0x10, 0]), Rejection::OutOfRange);
    assert_eq!(rejected(&[0x09, 1, 0x00, 0x10, 0, 0]), Rejection::OutOfRange);
    assert_eq!(rejected(&[0x09, 1, 0x00, 0xF0, 0, 0]), Rejection::OutOfRange);
}

#[test]
fn writes_are_dispatched() {
    let l = list(&[1]);
    assert!(matches!(
        gatt_write(Characteristic::Motors, &[1, 2], &l),
        GattWrite::Send(Command::MotorsAll([1, 2]))
    ));
    assert!(matches!(gatt_write(Characteristic::Motors, &[1], &l), GattWrite::Ignore));
    assert!(matches!(gatt_write(Characteristic::WifiConfig, b"a\0b", &l), GattWrite::Store(_)));
    assert!(matches!(gatt_write(Characteristic::WifiConfig, b"a", &l), GattWrite::Ignore));
    assert!(matches!(
        gatt_write(Characteristic::StCmd, &[0x04, 1, 0, 0, 0, 0], &l),
        GattWrite::St(StAction::Send(Command::St3215Ping { id: 1 }))
    ));
    assert!(matches!(gatt_write(Characteristic::Battery, &[1, 2], &l), GattWrite::Ignore));
    assert!(matches!(gatt_write(Characteristic::Other, &[1, 2], &l), GattWrite::Ignore));
}

#[test]
fn reads_are_refreshed() {
    let battery = BatteryReading { mv: 258, pct: 3 };
    let l = list(&[1]);
    let read = |c| gatt_read(c, battery, Some(&l), [5, -5]);
    assert_eq!(read(Characteristic::Motors), Some(vec![5, 251, 0, 0]));
    assert_eq!(read(Characteristic::Battery), Some(vec![3, 1, 2]));
    assert_eq!(read(Characteristic::StList).unwrap()[..2], [1, 0]);
    assert_eq!(read(Characteristic::StState), None);
    assert_eq!(read(Characteristic::StCmd), None);
    assert_eq!(read(Characteristic::WifiConfig), None);
    assert_eq!(read(Characteristic::Other), None);
}

#[test]
fn advertisement_bytes() {
    let mut expected = vec![2, 1, 6, 12, 9];
    expected.extend(b"ESP32 Motor");
    assert_eq!(advertising_data("ESP32 Motor"), Some(expected));
    assert!(advertising_data(&"x".repeat(26)).is_some());
    assert_eq!(advertising_data(&"x".repeat(27)), None);
    assert_eq!(advertising_data(&"x".repeat(300)), None);
    assert_eq!(
        scan_response_data(),
        vec![
            17, 7, 0x45, 0x23, 0x01, 0xef, 0xcd, 0xab, 0xcd, 0xab, 0x21, 0x43, 0x67, 0x45, 0x40,
            0x00, 0x91, 0xe3
        ]
    );
}
