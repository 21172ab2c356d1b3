use esp32_http_servo::battery::{battery_percentage_3s, decode_bus_voltage, BatteryReading};
use esp32_http_servo::bounded::{ServoList, MAX_SERVOS};
use esp32_http_servo::brushless::{BrushlessMotor, MotorControl, TB6612Motor};
use esp32_http_servo::commands::{
    battery_sample_ready, complete_battery_sample_request, generation_reached,
    request_battery_sample, send_command, BatterySampling, Command, CommandQueue, MotorId,
};
use esp32_http_servo::control::{
    follow_up, job_report, print_servo_list, start_job, BusJob, CommandLoop, LoopAction,
    CHECK_MS,
};
use esp32_http_servo::display::{
    count_down, flash_message, init_display_state, render, set_line1_override, update_dots,
    update_ip, update_motor, update_motor_a, update_motor_b, update_ssid, update_status,
    DisplayState, WifiStatus,
};
use esp32_http_servo::st3215::{BusAction, St3215Bus, St3215Error};
use esp32_http_servo::text;

// -- Text --------------------------------------------------------------------

#[test]
fn trimming() {
    assert_eq!(text::trim("  a b\t\r\n"), "a b");
    assert_eq!(text::trim("\u{3000}x\u{a0}"), "x");
    assert_eq!(text::trim("   "), "");
    assert_eq!(text::trim(""), "");
}

#[test]
fn white_space_is_what_std_says() {
    for n in 0..0x3100u32 {
        if let Some(c) = char::from_u32(n) {
            let s: String = [c].iter().collect();
            assert_eq!(text::trim(&s).is_empty(), c.is_whitespace(), "{:x}", n);
        }
    }
}

#[test]
fn splitting() {
    assert_eq!(text::split("a=1&b=2", '&'), vec!["a=1", "b=2"]);
    assert_eq!(text::split("", '&'), vec![""]);
    assert_eq!(text::split("&", '&'), vec!["", ""]);
    assert_eq!(text::split_once("a=b=c", '='), Some(("a", "b=c")));
    assert_eq!(text::split_once("abc", '='), None);
    assert_eq!(text::strip_prefix("wifi x", "wifi "), Some("x"));
    assert_eq!(text::strip_prefix("wif", "wifi "), None);
    assert_eq!(text::next_word("  ab cd"), Some(("ab", " cd")));
    assert_eq!(text::next_word(" \t"), None);
}

#[test]
fn numbers_read_as_std_reads_them() {
    let samples = [
        "", "+", "-", "0", "-0", "+0", "7", "+7", "-7", "007", "255", "256", "65535", "65536", "127",
        "128", "-128", "-129", "1a", "a1", " 1", "1 ", "--1", "+-1", "99999999999999999999", "1_0",
        "٣",
    ];
    for s in samples {
        assert_eq!(text::parse_u8(s), s.parse::<u8>().ok(), "{:?}", s);
        let wide = s.parse::<u16>().ok().map(|v| v as i32);
        assert_eq!(text::parse_within(s, 0, 65535), wide, "{:?}", s);
        assert_eq!(text::parse_i8(s), s.parse::<i8>().ok(), "{:?}", s);
    }
    assert_eq!(text::read_numeral("99999999999999999999"), Some(1_000_000));
    assert_eq!(text::read_numeral("-99999999999999999999"), Some(-1_000_000));
}

#[test]
fn written_numbers_read_back() {
    for n in [-4095, -128, -1, 0, 1, 9, 10, 99, 100, 4095, 65535] {
        let mut s = String::new();
        text::push_dec_int(&mut s, n);
        assert_eq!(s, n.to_string());
        assert_eq!(text::read_numeral(&s), Some(n));
    }
    let mut s = String::from("x");
    text::push_dec2(&mut s, 7);
    text::push_dec2(&mut s, 42);
    assert_eq!(s, "x0742");
}

// -- Commands ----------------------------------------------------------------

#[test]
fn only_the_latest_command_is_delivered() {
    let mut queue = CommandQueue::new();
    for id in 0..20 {
        send_command(&mut queue, Command::St3215Ping { id });
    }
    assert!(matches!(queue.receive(), Some(Command::St3215Ping { id: 19 })));
    assert!(queue.receive().is_none());
}

#[test]
fn generations_wrap_around() {
    assert!(generation_reached(5, 5));
    assert!(generation_reached(6, 5));
    assert!(!generation_reached(4, 5));
    assert!(generation_reached(2, 0xFFFF));
    assert!(!generation_reached(0xFFFF, 2));
    assert!(generation_reached(0x7FFF, 0));
    assert!(!generation_reached(0x8000, 0));
}

#[test]
fn completion_answers_every_open_request() {
    let mut state = BatterySampling { requests: 0xFFFE, completions: 0xFFFE };
    let first = request_battery_sample(&mut state);
    let second = request_battery_sample(&mut state);
    assert_eq!((first, second), (0xFFFF, 0));
    assert!(!battery_sample_ready(&state, first));
    assert!(!battery_sample_ready(&state, second));
    complete_battery_sample_request(&mut state);
    assert!(battery_sample_ready(&state, first));
    assert!(battery_sample_ready(&state, second));
    assert_eq!(BatterySampling::default(), BatterySampling { requests: 0, completions: 0 });
}

// -- Battery -----------------------------------------------------------------

#[test]
fn discharge_curve() {
    let expected = [
        (0, 0),
        (9000, 0),
        (9240, 1),
        (10200, 5),
        (10799, 19),
        (10800, 20),
        (11100, 35),
        (11400, 50),
        (11720, 66),
        (12000, 80),
        (12300, 90),
        (12599, 99),
        (12600, 100),
        (65535, 100),
    ];
    for (mv, pct) in expected {
        assert_eq!(battery_percentage_3s(mv), pct, "{}", mv);
    }
    for mv in 0..20000 {
        assert!(battery_percentage_3s(mv) <= battery_percentage_3s(mv + 1));
    }
}

#[test]
fn bus_voltage_register() {
    // 11720 mV are 2930 steps of 4 mV, in bits 15..=3
    let raw: u16 = 2930 << 3;
    let [hi, lo] = raw.to_be_bytes();
    assert_eq!(decode_bus_voltage(hi, lo), BatteryReading { mv: 11720, pct: 66 });
    assert_eq!(decode_bus_voltage(hi, lo | 7), BatteryReading { mv: 11720, pct: 66 });
    assert_eq!(BatteryReading::default(), BatteryReading { mv: 0, pct: 0 });
}

// -- Motors ------------------------------------------------------------------

#[test]
fn h_bridge_duties() {
    let mut m = BrushlessMotor::new("Motor A");
    assert_eq!((m.channel_a, m.channel_b), (0, 0));
    m.set_power(50);
    assert_eq!((m.channel_a, m.channel_b), (8192, 0));
    m.set_power(-75);
    assert_eq!((m.channel_a, m.channel_b), (0, 12288));
    m.set_power(127);
    assert_eq!((m.channel_a, m.channel_b), (16384, 0));
    m.set_power(-128);
    assert_eq!((m.channel_a, m.channel_b), (0, 16384));
    m.set_power(0);
    assert_eq!((m.channel_a, m.channel_b), (0, 0));
    m.set_power(1);
    assert_eq!((m.channel_a, m.channel_b), (163, 0));
    m.stop();
    assert_eq!((m.channel_a, m.channel_b, m.name), (0, 0, "Motor A"));
}

#[test]
fn tb6612_truth_table() {
    let mut m = TB6612Motor::new("Motor B");
    MotorControl::set_power(&mut m, 100);
    assert_eq!((m.in1, m.in2, m.duty), (true, false, 16384));
    MotorControl::set_power(&mut m, -30);
    assert_eq!((m.in1, m.in2, m.duty), (false, true, 4915));
    MotorControl::stop(&mut m);
    assert_eq!((m.in1, m.in2, m.duty), (false, false, 0));
    MotorControl::set_power(&mut m, 0);
    assert_eq!((m.in1, m.in2, m.duty, m.name), (false, false, 0, "Motor B"));
}

// -- Command loop ------------------------------------------------------------

fn motors() -> [TB6612Motor; 2] {
    [TB6612Motor::new("Motor A"), TB6612Motor::new("Motor B")]
}

#[test]
fn motor_commands_drive_and_show() {
    let mut state = CommandLoop::new(0);
    let mut m = motors();
    let mut shown = Some(DisplayState::default());
    let r = state.handle(&mut m, &mut shown, Command::Motor(MotorId::B, -40), 1_000);
    assert!(matches!(r, LoopAction::Nothing));
    assert_eq!((m[0].duty, m[1].in2, m[1].duty), (0, true, 6553));
    assert_eq!(shown.unwrap().motor_b, -40);
    assert_eq!((state.last_powers, state.last_motor_cmd_us), ([0, -40], 1_000));
    state.handle(&mut m, &mut shown, Command::MotorsAll([10, 20]), 2_000);
    assert_eq!((m[0].duty, m[1].duty), (1638, 3276));
    assert_eq!((shown.unwrap().motor_a, shown.unwrap().motor_b), (10, 20));
    assert_eq!((state.last_powers, state.last_motor_cmd_us), ([10, 20], 2_000));
}

#[test]
fn watchdog_stops_motors_after_half_a_second() {
    let mut state = CommandLoop::new(0);
    let mut m = motors();
    let mut shown = Some(DisplayState::default());
    state.handle(&mut m, &mut shown, Command::MotorsAll([10, 0]), 1_000_000);
    assert!(!state.tick(&mut m, &mut shown, 1_499_999));
    assert!(m[0].duty > 0);
    // a servo command does not feed the watchdog
    state.handle(&mut m, &mut shown, Command::St3215Ping { id: 1 }, 1_499_999);
    assert!(state.tick(&mut m, &mut shown, 1_500_000));
    assert_eq!((m[0].duty, shown.unwrap().motor_a, state.last_powers), (0, 0, [0, 0]));
    // nothing left to stop
    assert!(!state.tick(&mut m, &mut shown, 9_000_000));
}

#[test]
fn servo_commands_do_not_hold_off_the_watchdog() {
    let mut state = CommandLoop::new(0);
    let mut m = motors();
    let mut shown = Some(DisplayState::default());
    state.handle(&mut m, &mut shown, Command::Motor(MotorId::A, 50), 0);
    for now in (40_000..500_000).step_by(40_000) {
        state.handle(&mut m, &mut shown, Command::St3215Ping { id: 1 }, now);
        assert_eq!((m[0].duty, state.last_powers), (8192, [50, 0]));
    }
    let r = state.handle(&mut m, &mut shown, Command::St3215Ping { id: 1 }, 520_000);
    assert!(matches!(r, LoopAction::Bus(BusJob::Ping { id: 1 })));
    assert_eq!((m[0].duty, shown.unwrap().motor_a, state.last_powers), (0, 0, [0, 0]));
    assert_eq!(state.last_motor_cmd_us, 0);
    assert_eq!(CHECK_MS, 50);
}

#[test]
fn servo_commands_become_jobs() {
    let mut state = CommandLoop::new(5);
    let mut m = motors();
    let mut shown = None;
    let mut moves = [(0, 0); MAX_SERVOS];
    moves[0] = (1, 2048);
    moves[1] = (2, 1024);
    let r = state.handle(
        &mut m,
        &mut shown,
        Command::St3215MoveAll { count: 2, moves, speed: 1500, acc: 50 },
        9,
    );
    match r {
        LoopAction::Bus(job @ BusJob::MoveAll { .. }) => {
            assert_eq!(
                job_report(&job, Ok(())),
                "ST3215 sync_write 2 servos @ speed=1500 acc=50"
            );
            let mut bus = St3215Bus::new();
            match start_job(&mut bus, &job) {
                BusAction::Send { packet, .. } => {
                    assert_eq!(&packet[4..9], &[0x83, 41, 7, 1, 50]);
                    assert_eq!(packet.len(), 6 + 2 + 16);
                }
                other => panic!("{:?}", other),
            }
        }
        other => panic!("{:?}", other),
    }
    assert_eq!(state.last_motor_cmd_us, 5);
    let r = state.handle(&mut m, &mut shown, Command::St3215Rescan { from: 1, to: 20 }, 9);
    assert!(matches!(r, LoopAction::Rescan { from: 1, to: 20 }));
    let r = state.handle(&mut m, &mut shown, Command::St3215Zero { id: 3 }, 9);
    assert!(matches!(r, LoopAction::Bus(BusJob::Zero { id: 3 })));
    let r = state.handle(
        &mut m,
        &mut shown,
        Command::St3215Wheel { id: 3, wheel_speed: -7, acc: 1 },
        9,
    );
    assert!(matches!(r, LoopAction::Bus(BusJob::Wheel { id: 3, wheel_speed: -7, acc: 1 })));
    let r = state.handle(&mut m, &mut shown, Command::St3215ServoMode { id: 3 }, 9);
    assert!(matches!(r, LoopAction::Bus(BusJob::ServoMode { id: 3 })));
    let r = state.handle(&mut m, &mut shown, Command::St3215Torque { id: 3, enable: true }, 9);
    assert!(matches!(r, LoopAction::Bus(BusJob::Torque { id: 3, enable: true })));
    let r = state.handle(&mut m, &mut shown, Command::St3215SetId { current: 3, new: 4 }, 9);
    assert!(matches!(r, LoopAction::Bus(BusJob::SetId { current: 3, new: 4 })));
    let r = state.handle(
        &mut m,
        &mut shown,
        Command::St3215Move { id: 3, pos: 4, speed: 5, acc: 6 },
        9,
    );
    assert!(matches!(r, LoopAction::Bus(BusJob::Move { id: 3, pos: 4, speed: 5, acc: 6 })));
    assert!(shown.is_none());
}

#[test]
fn move_all_takes_at_most_sixteen() {
    let mut state = CommandLoop::new(0);
    let mut m = motors();
    let r = state.handle(
        &mut m,
        &mut None,
        Command::St3215MoveAll { count: 200, moves: [(9, 9); MAX_SERVOS], speed: 1, acc: 1 },
        0,
    );
    match r {
        LoopAction::Bus(BusJob::MoveAll { moves, .. }) => assert_eq!(moves.len(), 16),
        other => panic!("{:?}", other),
    }
}

#[test]
fn id_change_is_followed_by_a_scan() {
    let set = BusJob::SetId { current: 1, new: 2 };
    assert_eq!(follow_up(&set, true), Some((1, 20)));
    assert_eq!(follow_up(&set, false), None);
    assert_eq!(follow_up(&BusJob::Ping { id: 1 }, true), None);
}

#[test]
fn job_reports() {
    let ok: Result<(), St3215Error> = Ok(());
    let err: Result<(), St3215Error> = Err(St3215Error::Timeout);
    let job = BusJob::Move { id: 1, pos: 2, speed: 3, acc: 4 };
    assert_eq!(job_report(&job, ok), "ST3215[1] -> pos=2 speed=3 acc=4");
    assert_eq!(job_report(&job, err), "ST3215[1] move error: Timeout");
    let job = BusJob::Torque { id: 1, enable: true };
    assert_eq!(job_report(&job, ok), "ST3215[1] torque=true");
    assert_eq!(job_report(&job, err), "ST3215[1] torque error: Timeout");
    let job = BusJob::SetId { current: 1, new: 2 };
    assert_eq!(job_report(&job, ok), "ST3215 id 1 -> 2");
    assert_eq!(job_report(&job, err), "ST3215 set_id error: Timeout");
    let job = BusJob::Ping { id: 200 };
    assert_eq!(job_report(&job, ok), "ST3215[200] ping OK");
    assert_eq!(job_report(&job, Err(St3215Error::Status(8))), "ST3215[200] ping error: Status(8)");
    let job = BusJob::Wheel { id: 1, wheel_speed: -5, acc: 6 };
    assert_eq!(job_report(&job, ok), "ST3215[1] wheel speed=-5 acc=6");
    assert_eq!(job_report(&job, err), "ST3215[1] wheel error: Timeout");
    assert_eq!(job_report(&BusJob::Zero { id: 1 }, ok), "ST3215[1] zero OK");
    assert_eq!(job_report(&BusJob::ServoMode { id: 1 }, ok), "ST3215[1] servo mode");
}

#[test]
fn scan_reports() {
    let mut list: ServoList = heapless::Vec::new();
    assert_eq!(print_servo_list(1, 20, &list), "ST3215 scan (1..=20): no servos found");
    list.push(3).unwrap();
    list.push(12).unwrap();
    assert_eq!(print_servo_list(1, 20, &list), "ST3215 servos found (2): [3, 12]");
}

// -- Display -----------------------------------------------------------------

#[test]
fn first_screen() {
    let state = init_display_state("BLE Ready");
    let screen = render(&state);
    assert_eq!(screen.line1, "WiFi: BLE Ready");
    assert_eq!(screen.line2, "Connecting");
    assert_eq!(screen.line3, "A:  +0% B:  +0%");
    assert!(screen.banner.is_none());
}

#[test]
fn screen_follows_the_updates() {
    let mut shown = Some(init_display_state(""));
    update_ssid(&mut shown, "A rather long network name");
    update_motor_a(&mut shown, 100);
    update_motor_b(&mut shown, -75);
    update_dots(&mut shown, 3);
    update_status(&mut shown, WifiStatus::GettingIP);
    let screen = render(&shown.unwrap());
    assert_eq!(screen.line1, "WiFi: A rather long n");
    assert_eq!(screen.line2, "Getting IP...");
    assert_eq!(screen.line3, "A:+100% B: -75%");
    update_ip(&mut shown, [192, 168, 1, 100]);
    assert_eq!(render(&shown.unwrap()).line2, "IP: 192.168.1.100");
    update_motor(&mut shown, 0, 5);
    update_motor(&mut shown, 1, -128);
    update_motor(&mut shown, 2, 9);
    assert_eq!(render(&shown.unwrap()).line3, "A:  +5% B:-128%");
    update_status(&mut shown, WifiStatus::Connecting);
    update_dots(&mut shown, 6);
    assert_eq!(render(&shown.unwrap()).line2, "Connecting..");
}

#[test]
fn nothing_is_shown_without_a_state() {
    let mut shown = None;
    update_ssid(&mut shown, "x");
    update_motor(&mut shown, 0, 1);
    set_line1_override(&mut shown, "x");
    flash_message(&mut shown, "x");
    assert!(shown.is_none());
}

#[test]
fn line_one_is_replaced_for_six_frames() {
    let mut shown = Some(init_display_state("Net"));
    set_line1_override(&mut shown, "BLE: Connected");
    for _ in 0..6 {
        let state = shown.unwrap();
        assert_eq!(render(&state).line1, "BLE: Connected");
        count_down(&mut shown, &state);
    }
    assert_eq!(render(&shown.unwrap()).line1, "WiFi: Net");
}

#[test]
fn banner_is_centered() {
    let mut shown = Some(init_display_state("Net"));
    flash_message(&mut shown, "BLE Connected");
    let state = shown.unwrap();
    let banner = render(&state).banner.unwrap();
    assert_eq!((banner.text.as_str(), banner.x), ("BLE Connected", 25));
    assert_eq!((banner.box_x, banner.box_width), (23, 82));
    flash_message(&mut shown, "0123456789012345678901234567");
    let banner = render(&shown.unwrap()).banner.unwrap();
    assert_eq!((banner.text.as_str(), banner.x, banner.box_width), ("01234567890123456789", 4, 124));
    for _ in 0..6 {
        let state = shown.unwrap();
        count_down(&mut shown, &state);
    }
    assert!(render(&shown.unwrap()).banner.is_none());
}

#[test]
fn text_that_is_cut_within_a_character_is_not_shown() {
    let mut shown = Some(init_display_state("Net"));
    // 21 bytes end in the middle of the last character
    set_line1_override(&mut shown, "12345678901234567890é");
    assert_eq!(render(&shown.unwrap()).line1, "");
}
