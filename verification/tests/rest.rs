use esp32_http_servo::battery::BatteryReading;
use esp32_http_servo::bounded::ServoList;
use esp32_http_servo::commands::{Command, MotorId};
use esp32_http_servo::control::BusJob;
use esp32_http_servo::http_server::{
    battery_response, config_response, has_excessive_power, health_response, is_valid_motor_id,
    motor_id_from_char, parse_motors_batch, query_u8, query_value, st_job_response, st_list_body,
    st_list_response, st_state_response, validate_st_id, Application, JsonResponse, Plan,
    StatusCode,
};
use esp32_http_servo::st3215::{ServoState, St3215Error};
use esp32_http_servo::wifi_config::RadioMode;

fn get(target: &str) -> Plan {
    let (path, query) = match target.split_once('?') {
        Some((p, q)) => (p, Some(q)),
        None => (target, None),
    };
    Application.handle("GET", path, query, true, true)
}

fn response(plan: Plan) -> (u16, String) {
    match plan {
        Plan::Respond(r) => (r.status.as_u16(), r.body),
        other => panic!("{:?}", other),
    }
}

fn error(message: &str) -> String {
    format!(r#"{{"ok":false,"error":"{}"}}"#, message)
}

fn refused(target: &str) -> String {
    let (status, body) = response(get(target));
    assert_eq!(status, 400);
    body
}

fn sent(target: &str) -> (Command, String) {
    match get(target) {
        Plan::Send(cmd, r) => {
            assert_eq!(r.status, StatusCode::Success);
            (cmd, r.body)
        }
        other => panic!("{:?}", other),
    }
}

fn job(target: &str) -> BusJob {
    match get(target) {
        Plan::Bus(job) => job,
        other => panic!("{:?}", other),
    }
}

#[test]
fn fixed_answers() {
    assert!(matches!(get("/"), Plan::Page));
    assert!(matches!(get("/favicon.ico"), Plan::NoContent));
    assert_eq!(response(get("/health")), (200, r#"{"healthy": true}"#.to_string()));
    assert_eq!(
        response(get("/config")),
        (200, r#"{"motor_mode":"two_motor","motor_count":2,"motors":["a","b"]}"#.to_string())
    );
    assert!(matches!(get("/battery"), Plan::SampleBattery));
    assert!(matches!(get("/st/list"), Plan::List));
    assert!(matches!(get("/st/state"), Plan::ReadStates));
    match get("/radio/ble") {
        Plan::Radio(RadioMode::Ble, r) => {
            assert_eq!(r.body, r#"{"ok":true,"mode":"ble","rebooting":true}"#)
        }
        other => panic!("{:?}", other),
    }
    let r: JsonResponse = health_response();
    assert_eq!(r.header, ("Access-Control-Allow-Origin", "*"));
    assert_eq!(config_response().status, StatusCode::Success);
}

#[test]
fn unknown_paths_and_methods() {
    for path in [
        "", "health", "/nope", "/health/", "/motor/a/50/x", "/motor/a/fast", "/st/1", "/st/x/ping",
        "/st/1/pos", "/st/1/pos/x", "/st/1/mode/wheel", "/st//ping", "//", "/radio/wifi",
        "/he%ZZlth", "/he%FFlth", "/%ff", "/motor/%C3%fF/5",
        "/st/1/pos/-0", "/st/-0/ping", "/st/1/torque/-00",
    ] {
        assert!(matches!(get(path), Plan::NotFound), "{}", path);
    }
    let post = Application.handle("POST", "/health", None, true, true);
    assert!(matches!(post, Plan::MethodNotAllowed));
    let head = Application.handle("HEAD", "/motor/a/50", None, true, true);
    assert!(matches!(head, Plan::MethodNotAllowed));
    let post = Application.handle("POST", "/nope", None, true, true);
    assert!(matches!(post, Plan::NotFound));
}

#[test]
fn paths_are_decoded() {
    assert!(matches!(get("/he%61lth"), Plan::Respond(_)));
    assert!(matches!(sent("/motor/%61/5%30").0, Command::Motor(MotorId::A, 50)));
    // an encoded slash does not separate
    assert!(matches!(get("/st%2Flist"), Plan::NotFound));
    // a plus sign stands for a blank
    assert!(matches!(get("/motor/a/+50"), Plan::NotFound));
    assert!(matches!(sent("/motor/a/%2B50").0, Command::Motor(MotorId::A, 50)));
    // segments decode into at most 128 bytes
    assert!(matches!(get(&format!("/motor/{}", "x".repeat(129))), Plan::NotFound));
    assert!(matches!(get(&format!("/motor/{}", "x".repeat(128))), Plan::Respond(_)));
}

#[test]
fn decoded_segments_are_routed() {
    let segments = ["st".to_string(), "1".to_string(), "ping".to_string()];
    let plan = Application.handle_segments("GET", &segments, None, true, true);
    assert!(matches!(plan, Plan::Bus(BusJob::Ping { id: 1 })));
}

#[test]
fn one_motor() {
    let (cmd, body) = sent("/motor/a/75");
    assert!(matches!(cmd, Command::Motor(MotorId::A, 75)));
    assert_eq!(body, r#"{"motor": "a", "power": 75}"#);
    let (cmd, body) = sent("/motor/b/-50");
    assert!(matches!(cmd, Command::Motor(MotorId::B, -50)));
    assert_eq!(body, r#"{"motor": "b", "power": -50}"#);
    assert!(matches!(sent("/motor/a?power=80").0, Command::Motor(MotorId::A, 80)));
    assert_eq!(refused("/motor/a/101"), error("Power must be between -100 and 100"));
    assert_eq!(refused("/motor/a/-101"), error("Power must be between -100 and 100"));
    assert_eq!(refused("/motor/a/200"), error("Power must be between -100 and 100"));
    assert_eq!(refused("/motor/a?power=101"), error("Power must be between -100 and 100"));
    assert_eq!(refused("/motor/x/50"), error("Unknown motor id"));
    assert_eq!(refused("/motor/ab/50"), error("Unknown motor id"));
    assert_eq!(refused("/motor/c?power=50"), error("Unknown motor id"));
    let missing =
        error("Missing or invalid power parameter. Use /motor/a/50 or /motor/a?power=50");
    assert_eq!(refused("/motor/a"), missing);
    assert_eq!(refused("/motor/a?power="), missing);
    assert_eq!(refused("/motor/a?power=fast"), missing);
}

#[test]
fn several_motors() {
    let (cmd, body) = sent("/motors?a=75&b=-50");
    assert!(matches!(cmd, Command::MotorsAll([75, -50])));
    assert_eq!(body, r#"{"a":75,"b":-50}"#);
    let (cmd, body) = sent("/motors?a=60");
    assert!(matches!(cmd, Command::MotorsAll([60, 0])));
    assert_eq!(body, r#"{"a":60,"b":null}"#);
    let (cmd, _) = sent("/motors?b=1&c=2&junk&b=3&a=x");
    assert!(matches!(cmd, Command::MotorsAll([0, 3])));
    let none = error("Provide at least one motor param: /motors?a=50&b=-30");
    assert_eq!(refused("/motors"), none);
    assert_eq!(refused("/motors?c=5"), none);
    assert_eq!(refused("/motors?a=1&b=101"), error("Power must be between -100 and 100"));
    assert_eq!(refused("/motors?a=-999"), error("Power must be between -100 and 100"));
}

#[test]
fn motor_helpers() {
    assert!(is_valid_motor_id('a') && is_valid_motor_id('b') && !is_valid_motor_id('c'));
    assert_eq!(motor_id_from_char('a'), Some(MotorId::A));
    assert_eq!(motor_id_from_char('b'), Some(MotorId::B));
    assert_eq!(motor_id_from_char('A'), None);
    assert_eq!(parse_motors_batch(Some("a=5")), Some([Some(5), None]));
    assert_eq!(parse_motors_batch(Some("a=101")), None);
    assert_eq!(parse_motors_batch(None), None);
    assert!(has_excessive_power(Some("b=101")));
    assert!(!has_excessive_power(Some("b=100&c=101&a=x")));
    assert!(validate_st_id(1) && validate_st_id(253));
    assert!(!validate_st_id(0) && !validate_st_id(254));
}

#[test]
fn query_parameters() {
    assert_eq!(query_value(Some("a=1&b=2&a=3"), "a"), Some("1"));
    assert_eq!(query_value(Some("a=1&b=2=3"), "b"), Some("2=3"));
    assert_eq!(query_value(Some("a&b="), "a"), None);
    assert_eq!(query_value(Some("a&b="), "b"), Some(""));
    assert_eq!(query_value(None, "a"), None);
    assert_eq!(query_u8(Some("a=255"), "a"), Some(255));
    assert_eq!(query_u8(Some("a=256"), "a"), None);
}

#[test]
fn angles() {
    let (cmd, body) = sent("/servo/90");
    assert!(matches!(cmd, Command::St3215Move { id: 1, pos: 2047, speed: 1000, acc: 50 }));
    assert_eq!(body, r#"{"angle": 90}"#);
    assert!(matches!(sent("/servo/0").0, Command::St3215Move { pos: 0, .. }));
    assert!(matches!(sent("/servo/180").0, Command::St3215Move { pos: 4095, .. }));
    assert!(matches!(sent("/servo?angle=45").0, Command::St3215Move { pos: 1023, .. }));
    for bad in ["/servo/181", "/servo/999", "/servo/-1", "/servo/-0", "/servo/abc", "/servo/", "/servo?angle=200"]
    {
        assert_eq!(refused(bad), r#"{"error":"Angle must be between 0 and 180"}"#, "{}", bad);
    }
    let missing =
        r#"{"error":"Missing or invalid angle parameter. Use /servo/90 or /servo?angle=90"}"#;
    assert_eq!(refused("/servo"), missing);
    assert_eq!(refused("/servo?angle=x"), missing);
}

#[test]
fn servo_moves() {
    assert!(matches!(
        job("/st/1/pos/2048?speed=1500&acc=60"),
        BusJob::Move { id: 1, pos: 2048, speed: 1500, acc: 60 }
    ));
    assert!(matches!(
        job("/st/253/pos/4095"),
        BusJob::Move { id: 253, pos: 4095, speed: 2000, acc: 50 }
    ));
    assert!(matches!(
        job("/st/1/pos/0?speed=x&acc=300"),
        BusJob::Move { speed: 2000, acc: 50, .. }
    ));
    // zero takes no minus sign
    assert!(matches!(job("/st/1/pos/2048?speed=-0"), BusJob::Move { speed: 2000, .. }));
    assert!(matches!(job("/st/1/wheel/-0"), BusJob::Wheel { wheel_speed: 0, .. }));
    let range = error("Servo ID must be 1-253 and position 0-4095");
    for bad in
        ["/st/0/pos/1", "/st/254/pos/1", "/st/300/pos/1", "/st/1/pos/4096", "/st/1/pos/70000", "/st/1/pos/-1"]
    {
        assert_eq!(refused(bad), range, "{}", bad);
    }
    assert_eq!(refused("/st/1/pos/1?speed=4096"), error("Speed must be between 0 and 4095"));
    assert_eq!(refused("/st/1/pos/1?speed=-1"), error("Speed must be between 0 and 4095"));
}

#[test]
fn servo_operations() {
    assert!(matches!(job("/st/1/torque/1"), BusJob::Torque { id: 1, enable: true }));
    assert!(matches!(job("/st/1/torque/0"), BusJob::Torque { id: 1, enable: false }));
    assert_eq!(refused("/st/1/torque/2"), error("Torque value must be 0 or 1"));
    assert_eq!(refused("/st/0/torque/1"), error("Servo ID must be 1-253"));
    assert!(matches!(job("/st/1/zero"), BusJob::Zero { id: 1 }));
    assert_eq!(refused("/st/254/zero"), error("Servo ID must be 1-253"));
    assert!(matches!(
        job("/st/1/wheel/-1200?acc=50"),
        BusJob::Wheel { id: 1, wheel_speed: -1200, acc: 50 }
    ));
    assert_eq!(
        refused("/st/1/wheel/4096"),
        error("Servo ID must be 1-253 and wheel speed -4095..=4095")
    );
    assert_eq!(
        refused("/st/0/wheel/1"),
        error("Servo ID must be 1-253 and wheel speed -4095..=4095")
    );
    assert!(matches!(job("/st/1/mode/servo"), BusJob::ServoMode { id: 1 }));
    assert_eq!(refused("/st/0/mode/servo"), error("Servo ID must be 1-253"));
    assert!(matches!(job("/st/1/ping"), BusJob::Ping { id: 1 }));
    assert_eq!(refused("/st/0/ping"), error("Servo ID must be 1-253"));
    assert!(matches!(job("/st/1/id/2"), BusJob::SetId { current: 1, new: 2 }));
    assert_eq!(refused("/st/1/id/254"), error("Servo IDs must be 1-253"));
    assert_eq!(refused("/st/0/id/2"), error("Servo IDs must be 1-253"));
}

#[test]
fn moves_of_several_servos() {
    match job("/st/all?1=2048&2=1024&speed=1500&acc=60&junk&x=1") {
        BusJob::MoveAll { moves, speed, acc } => {
            assert_eq!(moves.as_slice(), &[(1, 2048, 1500, 60), (2, 1024, 1500, 60)]);
            assert_eq!((speed, acc), (1500, 60));
        }
        other => panic!("{:?}", other),
    }
    match job("/st/all?1=-0&2=7&-0=9") {
        BusJob::MoveAll { moves, .. } => assert_eq!(moves.as_slice(), &[(2, 7, 2000, 50)]),
        other => panic!("{:?}", other),
    }
    let many: Vec<String> = (1..=20).map(|i| format!("{}=1", i)).collect();
    match job(&format!("/st/all?{}", many.join("&"))) {
        BusJob::MoveAll { moves, .. } => assert_eq!(moves.len(), 16),
        other => panic!("{:?}", other),
    }
    let none = error("Provide at least one servo position, e.g. /st/all?1=2048");
    assert_eq!(refused("/st/all"), none);
    assert_eq!(refused("/st/all?speed=5"), none);
    let range = error("Servo ID must be 1-253 and position 0-4095");
    assert_eq!(refused("/st/all?1=1&2=4096"), range);
    assert_eq!(refused("/st/all?254=1"), range);
    assert_eq!(refused("/st/all?1=1&speed=9999"), error("Speed must be between 0 and 4095"));
}

#[test]
fn scans() {
    assert!(matches!(get("/st/scan"), Plan::Scan { from: 1, to: 20 }));
    assert!(matches!(get("/st/scan?from=5&to=9"), Plan::Scan { from: 5, to: 9 }));
    for bad in ["from=0", "to=0", "from=9&to=5", "to=254", "from=300", "from=-1"] {
        assert_eq!(
            refused(&format!("/st/scan?{}", bad)),
            r#"{"error":"Scan range must satisfy 1 <= from <= to <= 253"}"#
        );
    }
}

#[test]
fn servos_may_not_be_there_yet() {
    let handle = |path, bus, list| response(Application.handle("GET", path, None, bus, list));
    let no_bus = (503, error("ST3215 bus not initialized"));
    let no_list = (503, error("ST3215 list not initialized"));
    for path in ["/st/1/pos/1", "/st/1/torque/1", "/st/1/zero", "/st/1/wheel/1", "/st/1/ping"] {
        assert_eq!(handle(path, false, true), no_bus);
    }
    assert_eq!(handle("/st/1/mode/servo", false, true), no_bus);
    assert_eq!(handle("/st/1/id/2", false, false), no_bus);
    assert_eq!(handle("/st/1/id/2", true, false), no_list);
    assert_eq!(handle("/st/state", false, true), no_bus);
    assert_eq!(handle("/st/state", true, false), no_list);
    let all = Application.handle("GET", "/st/all", Some("1=1"), false, true);
    assert_eq!(response(all), no_bus);
    assert_eq!(
        handle("/st/scan", false, true),
        (503, r#"{"error":"ST3215 bus not initialized"}"#.to_string())
    );
    assert_eq!(
        handle("/st/scan", true, false),
        (503, r#"{"error":"ST3215 list not initialized"}"#.to_string())
    );
    let r = st_list_response(None);
    assert_eq!(r.status.as_u16(), 503);
    assert_eq!(r.body, r#"{"error":"ST3215 list not initialized"}"#);
}

#[test]
fn lists() {
    assert_eq!(st_list_body(&[]), r#"{"ids":[]}"#);
    assert_eq!(st_list_body(&[1, 12, 200]), r#"{"ids":[1,12,200]}"#);
    let l: ServoList = heapless::Vec::from_slice(&[7]).unwrap();
    assert_eq!(st_list_response(Some(&l)).body, r#"{"ids":[7]}"#);
}

#[test]
fn battery_answer() {
    let r = battery_response(BatteryReading { mv: 11720, pct: 66 });
    assert_eq!(r.body, r#"{"voltage":"11.72","voltage_mv":11720,"percentage":66}"#);
    let r = battery_response(BatteryReading { mv: 9056, pct: 0 });
    assert_eq!(r.body, r#"{"voltage":"9.05","voltage_mv":9056,"percentage":0}"#);
}

#[test]
fn job_answers() {
    let ok = |job: BusJob| {
        let r = st_job_response(&job, Ok(()));
        assert_eq!(r.status, StatusCode::Success);
        r.body
    };
    assert_eq!(
        ok(BusJob::Move { id: 1, pos: 2, speed: 3, acc: 4 }),
        r#"{"ok":true,"id":1,"pos":2,"speed":3,"acc":4}"#
    );
    assert_eq!(ok(BusJob::Torque { id: 1, enable: false }), r#"{"ok":true,"id":1,"torque":false}"#);
    assert_eq!(ok(BusJob::SetId { current: 1, new: 2 }), r#"{"ok":true,"current":1,"new":2}"#);
    assert_eq!(ok(BusJob::Ping { id: 1 }), r#"{"ok":true,"id":1}"#);
    assert_eq!(ok(BusJob::Zero { id: 1 }), r#"{"ok":true,"id":1,"zero":true}"#);
    assert_eq!(
        ok(BusJob::Wheel { id: 1, wheel_speed: -9, acc: 2 }),
        r#"{"ok":true,"id":1,"wheel_speed":-9,"acc":2}"#
    );
    assert_eq!(ok(BusJob::ServoMode { id: 1 }), r#"{"ok":true,"id":1,"mode":"servo"}"#);
    let moves = heapless::Vec::from_slice(&[(1, 2, 3, 4), (2, 2, 3, 4)]).unwrap();
    let all = BusJob::MoveAll { moves, speed: 3, acc: 4 };
    let r = st_job_response(&all, Err(St3215Error::UartTx));
    assert_eq!((r.status.as_u16(), r.body.as_str()), (502, r#"{"ok":false,"error":"UartTx"}"#));
    assert_eq!(ok(all), r#"{"ok":true,"count":2}"#);
    let set = BusJob::SetId { current: 7, new: 2 };
    let r = st_job_response(&set, Err(St3215Error::Status(4)));
    assert_eq!(
        (r.status.as_u16(), r.body.as_str()),
        (502, r#"{"ok":false,"id":7,"error":"Status(4)"}"#)
    );
    let r = st_job_response(&BusJob::Ping { id: 7 }, Err(St3215Error::Timeout));
    assert_eq!(
        (r.status.as_u16(), r.body.as_str()),
        (502, r#"{"ok":false,"id":7,"error":"Timeout"}"#)
    );
}

#[test]
fn state_answers() {
    let st = ServoState { pos: 2048, speed: -3, load: -40, voltage: 121, temp: 35 };
    let reads = [(1, Ok(st)), (2, Err(St3215Error::Timeout))];
    assert_eq!(
        st_state_response(&reads).body,
        concat_str(&[
            r#"{"servos":[{"id":1,"pos":2048,"speed":-3,"load":-40,"voltage":121,"temp":35},"#,
            r#"{"id":2,"error":"Timeout"}]}"#,
        ])
    );
    assert_eq!(st_state_response(&[]).body, r#"{"servos":[]}"#);
}

fn concat_str(parts: &[&str]) -> String {
    parts.concat()
}
