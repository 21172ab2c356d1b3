use esp32_http_servo::commands::{Command, MotorId};
use esp32_http_servo::serial_cmd::{
    dispatch, help, parse_motor_token, parse_st, LineEditor, SerialAction,
};
use esp32_http_servo::wifi_config::RadioMode;

fn sent(line: &str) -> (Command, String) {
    let reply = dispatch(line);
    match reply.action {
        SerialAction::Send(cmd) => (cmd, reply.text),
        other => panic!("{:?} {}", other, reply.text),
    }
}

fn said(line: &str) -> String {
    let reply = dispatch(line);
    assert!(matches!(reply.action, SerialAction::Nothing));
    reply.text
}

#[test]
fn motor_tokens() {
    assert_eq!(parse_motor_token("m 0"), Some(('*', 0)));
    assert_eq!(parse_motor_token(" ma 50 "), Some(('a', 50)));
    assert_eq!(parse_motor_token("mb -75"), Some(('b', -75)));
    assert_eq!(parse_motor_token("mb  +75"), Some(('b', 75)));
    assert_eq!(parse_motor_token("motor a 80"), Some(('a', 80)));
    assert_eq!(parse_motor_token("motor   b  -100"), Some(('b', -100)));
    assert_eq!(parse_motor_token("ma 101"), None);
    assert_eq!(parse_motor_token("mc 10"), None);
    assert_eq!(parse_motor_token("motor c 10"), None);
    assert_eq!(parse_motor_token("ma"), None);
    assert_eq!(parse_motor_token("ma x"), None);
}

#[test]
fn motor_lines() {
    let (cmd, text) = sent("ma 50");
    assert!(matches!(cmd, Command::Motor(MotorId::A, 50)));
    assert_eq!(text, "\nSerial: Motor A = 50%");
    let (cmd, text) = sent("mb -75\r");
    assert!(matches!(cmd, Command::Motor(MotorId::B, -75)));
    assert_eq!(text, "\nSerial: Motor B = -75%");
    let (cmd, text) = sent("m 0");
    assert!(matches!(cmd, Command::MotorsAll([0, 0])));
    assert_eq!(text, "\nSerial: All motors = 0%");
}

#[test]
fn servo_move_lines() {
    let (cmd, text) = sent("st 1 pos 2048 speed 1500 acc 50");
    assert!(matches!(cmd, Command::St3215Move { id: 1, pos: 2048, speed: 1500, acc: 50 }));
    assert_eq!(text, "Serial: st 1 pos=2048 speed=1500 acc=50");
    let (cmd, _) = sent("st 7 p 4095");
    assert!(matches!(cmd, Command::St3215Move { id: 7, pos: 4095, speed: 1500, acc: 50 }));
    let (cmd, _) = sent("st 7 p 1 acc 9 junk speed 100");
    assert!(matches!(cmd, Command::St3215Move { id: 7, pos: 1, speed: 100, acc: 9 }));
    let (cmd, _) = sent("st 7 p 1 speed x acc 9");
    assert!(matches!(cmd, Command::St3215Move { id: 7, pos: 1, speed: 1500, acc: 9 }));
    assert_eq!(said("st 1 pos 4096"), "pos must be 0..=4095");
    assert_eq!(said("st 1 pos"), "usage: st <id> pos <0..=4095> [speed <s>] [acc <a>]");
    assert_eq!(said("st 1 pos -1"), "usage: st <id> pos <0..=4095> [speed <s>] [acc <a>]");
}

#[test]
fn move_all_lines() {
    let (cmd, text) = sent("st all 1=2048 2=1024 speed 1500 acc 60");
    match cmd {
        Command::St3215MoveAll { count, moves, speed, acc } => {
            assert_eq!((count, speed, acc), (2, 1500, 60));
            assert_eq!(&moves[..2], &[(1, 2048), (2, 1024)]);
            assert_eq!(&moves[2..], &[(0, 0); 14]);
        }
        other => panic!("{:?}", other),
    }
    assert_eq!(text, "Serial: st all 2 moves @ speed=1500 acc=60");
    let (cmd, _) = sent("st all speed 3=5 1=4096 x=1 4=7 acc");
    match cmd {
        Command::St3215MoveAll { count, moves, speed, acc } => {
            assert_eq!((count, speed, acc), (2, 1500, 50));
            assert_eq!(&moves[..2], &[(3, 5), (4, 7)]);
        }
        other => panic!("{:?}", other),
    }
    let (cmd, _) = sent("st all 1=5000 2=1024 speed 900");
    match cmd {
        Command::St3215MoveAll { count, moves, speed, acc } => {
            assert_eq!((count, speed, acc), (1, 900, 50));
            assert_eq!(moves[0], (2, 1024));
            assert_eq!(&moves[1..], &[(0, 0); 15]);
        }
        other => panic!("{:?}", other),
    }
    assert_eq!(said("st all"), "usage: st all <id>=<pos> ... [speed <s>] [acc <a>]");
    let many: Vec<String> = (1..=20).map(|i| format!("{}=1", i)).collect();
    let (cmd, _) = sent(&format!("st all {}", many.join(" ")));
    assert!(matches!(cmd, Command::St3215MoveAll { count: 16, .. }));
}

#[test]
fn words_beyond_the_thirty_second_are_dropped() {
    let mut line = String::from("st 1 pos 7");
    for _ in 0..29 {
        line.push_str(" x");
    }
    // the option stands behind the last word that is kept
    let (cmd, _) = sent(&format!("{} speed 9", line));
    assert!(matches!(cmd, Command::St3215Move { speed: 1500, .. }));
}

#[test]
fn scan_lines() {
    let (cmd, text) = sent("st list");
    assert!(matches!(cmd, Command::St3215Rescan { from: 1, to: 20 }));
    assert_eq!(text, "Serial: rescanning bus (list will print in main loop)");
    let (cmd, text) = sent("st scan 1 40");
    assert!(matches!(cmd, Command::St3215Rescan { from: 1, to: 40 }));
    assert_eq!(text, "Serial: scan 1..=40");
    let (cmd, _) = sent("st scan");
    assert!(matches!(cmd, Command::St3215Rescan { from: 1, to: 20 }));
    let (cmd, _) = sent("st scan 300 7");
    assert!(matches!(cmd, Command::St3215Rescan { from: 1, to: 7 }));
}

#[test]
fn servo_maintenance_lines() {
    let (cmd, text) = sent("st 1 torque 1");
    assert!(matches!(cmd, Command::St3215Torque { id: 1, enable: true }));
    assert_eq!(text, "Serial: st 1 torque=true");
    assert!(matches!(sent("st 1 t on").0, Command::St3215Torque { enable: true, .. }));
    assert!(matches!(sent("st 1 t true").0, Command::St3215Torque { enable: true, .. }));
    assert!(matches!(sent("st 1 t 0").0, Command::St3215Torque { enable: false, .. }));
    assert!(matches!(sent("st 1 t 2").0, Command::St3215Torque { enable: false, .. }));
    assert_eq!(said("st 1 torque"), "usage: st <id> torque <0|1>");
    let (cmd, text) = sent("st 1 setid 2");
    assert!(matches!(cmd, Command::St3215SetId { current: 1, new: 2 }));
    assert_eq!(text, "Serial: st 1 setid 2 (rescan will follow)");
    assert_eq!(said("st 1 setid 254"), "new id must be 1..=253");
    assert_eq!(said("st 1 setid 0"), "new id must be 1..=253");
    assert_eq!(said("st 1 setid x"), "usage: st <id> setid <new>");
    assert!(matches!(sent("st 1 ping").0, Command::St3215Ping { id: 1 }));
    let (cmd, text) = sent("st 1 state");
    assert!(matches!(cmd, Command::St3215Ping { id: 1 }));
    assert_eq!(text, "Serial: st 1 ping (use HTTP /st/state for full state)");
    assert!(matches!(sent("st 1 zero").0, Command::St3215Zero { id: 1 }));
    assert!(matches!(sent("st 1 servo").0, Command::St3215ServoMode { id: 1 }));
}

#[test]
fn wheel_lines() {
    let (cmd, text) = sent("st 1 wheel -1200 acc 50");
    assert!(matches!(cmd, Command::St3215Wheel { id: 1, wheel_speed: -1200, acc: 50 }));
    assert_eq!(text, "Serial: st 1 wheel=-1200 acc=50");
    assert!(matches!(
        sent("st 2 wheel 4095").0,
        Command::St3215Wheel { id: 2, wheel_speed: 4095, acc: 50 }
    ));
    assert_eq!(said("st 1 wheel 4096"), "wheel speed must be -4095..=4095");
    assert_eq!(said("st 1 wheel"), "usage: st <id> wheel <-4095..=4095> [acc <a>]");
}

#[test]
fn unknown_servo_lines() {
    assert_eq!(said("st"), "usage: st list | scan [from to] | all <id>=<pos> ... | <id> <op> ...");
    assert_eq!(said("st x"), "Unknown st subcommand: 'x'");
    assert_eq!(said("stop"), "Unknown st subcommand: 'op'");
    assert_eq!(said("st 256 ping"), "Unknown st subcommand: '256'");
    assert_eq!(said("st 1 fly"), "Unknown st op: 'fly'");
    assert_eq!(
        said("st 1"),
        "usage: st <id> <pos|p|torque|t|zero|wheel|servo|setid|ping|state> ..."
    );
    assert!(parse_st("motor").is_none());
}

#[test]
fn radio_lines() {
    let reply = dispatch("wi");
    assert!(matches!(reply.action, SerialAction::Radio(RadioMode::Wifi)));
    assert_eq!(reply.text, "\nSerial: saving WiFi mode and rebooting");
    let reply = dispatch(" ble ");
    assert!(matches!(reply.action, SerialAction::Radio(RadioMode::Ble)));
    assert_eq!(reply.text, "\nSerial: saving BLE mode and rebooting");
}

#[test]
fn wifi_lines() {
    let reply = dispatch("wifi  MyNetwork   secret123 ");
    match reply.action {
        SerialAction::Store(creds) => {
            assert_eq!(creds.ssid_str(), "MyNetwork");
            assert_eq!(creds.password_str(), "secret123");
        }
        other => panic!("{:?}", other),
    }
    assert_eq!(reply.text, "\nSerial: WiFi credentials queued");
    assert_eq!(said("wifi one"), "usage: wifi <ssid> <password>");
    assert_eq!(said("wifi one two three"), "usage: wifi <ssid> <password>");
    let long = "x".repeat(33);
    assert_eq!(said(&format!("wifi {} p", long)), "WiFi SSID too long (max 32 bytes)");
    let longer = "x".repeat(65);
    assert_eq!(said(&format!("wifi s {}", longer)), "WiFi password too long (max 64 bytes)");
}

#[test]
fn unknown_and_empty_lines() {
    assert_eq!(said("   "), "");
    assert_eq!(said("fly"), format!("\nUnknown command: 'fly'\n{}", help()));
    assert_eq!(said("wifi"), format!("\nUnknown command: 'wifi'\n{}", help()));
    assert_eq!(help().lines().count(), 3);
}

fn type_in(editor: &mut LineEditor, keys: &[u8]) -> Vec<String> {
    keys.iter().filter_map(|k| editor.feed(*k)).collect()
}

#[test]
fn lines_end_at_return() {
    let mut editor = LineEditor::new();
    assert_eq!(type_in(&mut editor, b"m 0\r\nma 5\n\n\r"), vec!["m 0", "ma 5"]);
}

#[test]
fn long_lines_are_cut() {
    let mut editor = LineEditor::new();
    let mut keys = vec![b'x'; 200];
    keys.push(b'\n');
    let lines = type_in(&mut editor, &keys);
    assert_eq!(lines, vec!["x".repeat(127)]);
    assert_eq!(type_in(&mut editor, b"y\n"), vec!["y"]);
}

#[test]
fn lines_that_are_not_utf8_are_dropped() {
    let mut editor = LineEditor::new();
    assert_eq!(type_in(&mut editor, &[0xFF, b'\n', b'a', b'\n']), vec!["a"]);
}
