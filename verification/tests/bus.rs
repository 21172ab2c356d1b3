use esp32_http_servo::bounded::{Move, ServoList};
use esp32_http_servo::st3215::{
    build_packet, checksum, decode_state, to_signed_10, to_signed_15, Awaited, BusAction, BusEvent,
    Received, ServoState, St3215Bus, St3215Error, StatusReader, BROADCAST_ID,
};

fn frame(id: u8, code: u8, params: &[u8]) -> Vec<u8> {
    let mut buf = [0u8; 256];
    let n = build_packet(&mut buf, id, code, params);
    buf[..n].to_vec()
}

fn awaited() -> Awaited {
    Awaited { id: 1, len: 4, instr: 2, params: 2 }
}

/// Feed all bytes; the last answer counts.
fn feed(bytes: &[u8]) -> Received {
    let mut reader = StatusReader::new(awaited());
    let mut last = Received::Pending;
    for b in bytes {
        last = reader.feed(*b);
        if !matches!(last, Received::Pending) {
            return last;
        }
    }
    last
}

fn ready(r: Received) -> Vec<u8> {
    match r {
        Received::Ready(v) => v,
        other => panic!("{:?}", other),
    }
}

#[test]
fn ping_frame_bytes() {
    assert_eq!(frame(1, 1, &[]), vec![0xFF, 0xFF, 0x01, 0x02, 0x01, 0xFB]);
    assert_eq!(checksum(1, 2, 1, &[]), 0xFB);
}

#[test]
fn packet_leaves_the_rest_of_the_buffer() {
    let mut buf = [7u8; 10];
    let n = build_packet(&mut buf, 1, 3, &[40, 1]);
    assert_eq!(n, 8);
    assert_eq!(buf, [0xFF, 0xFF, 1, 4, 3, 40, 1, !(1 + 4 + 3 + 40 + 1), 7, 7]);
}

#[test]
fn checksum_wraps() {
    assert_eq!(checksum(0xFE, 0x04, 0x83, &[0xFF, 0xFF]), !((0xFEu32 + 4 + 0x83 + 0xFF + 0xFF) as u8));
}

#[test]
fn reply_is_read_back() {
    assert_eq!(ready(feed(&frame(1, 0, &[5, 6]))), vec![5, 6]);
}

#[test]
fn echo_is_skipped() {
    let mut s = frame(1, 2, &[56, 8]);
    s.extend(frame(1, 0, &[5, 6]));
    assert_eq!(ready(feed(&s)), vec![5, 6]);
}

#[test]
fn noise_and_damage_are_skipped() {
    let mut s = vec![0x00, 0xFF, 0x13, 0x37];
    let mut damaged = frame(1, 0, &[9, 9]);
    let n = damaged.len();
    damaged[n - 1] ^= 0x10;
    s.extend(damaged);
    s.extend(frame(1, 0, &[5, 6]));
    assert_eq!(ready(feed(&s)), vec![5, 6]);
}

#[test]
fn other_servos_are_skipped() {
    let mut s = frame(2, 0, &[9, 9]);
    s.extend(frame(1, 0, &[5, 6]));
    assert_eq!(ready(feed(&s)), vec![5, 6]);
}

#[test]
fn broadcast_takes_any_servo() {
    let mut reader = StatusReader::new(Awaited { id: BROADCAST_ID, len: 2, instr: 1, params: 0 });
    let mut last = Received::Pending;
    for b in frame(9, 0, &[]) {
        last = reader.feed(b);
    }
    assert_eq!(ready(last), Vec::<u8>::new());
}

#[test]
fn error_status_is_reported() {
    assert!(matches!(feed(&frame(1, 4, &[5, 6])), Received::Failed(St3215Error::Status(4))));
}

#[test]
fn error_that_looks_like_the_echo_is_skipped() {
    assert!(matches!(feed(&frame(1, 2, &[5, 6])), Received::Pending));
}

#[test]
fn wrong_parameter_count_is_bad_length() {
    assert!(matches!(feed(&frame(1, 0, &[5])), Received::Failed(St3215Error::BadLength)));
}

#[test]
fn length_below_two_is_bad_length() {
    assert!(matches!(feed(&[0xFF, 0xFF, 1, 1, 0]), Received::Failed(St3215Error::BadLength)));
}

#[test]
fn incomplete_packet_is_pending() {
    let s = frame(1, 0, &[5, 6]);
    assert!(matches!(feed(&s[..s.len() - 1]), Received::Pending));
}

#[test]
fn signed_registers() {
    assert_eq!(to_signed_15(100), 100);
    assert_eq!(to_signed_15(0x8000 | 100), -100);
    assert_eq!(to_signed_15(0xFFFF), -0x7FFF);
    assert_eq!(to_signed_10(5), 5);
    assert_eq!(to_signed_10(0x0400 | 5), -5);
    assert_eq!(to_signed_10(0x0800 | 5), 5);
}

#[test]
fn state_is_decoded() {
    let b = [0x00, 0x08, 0x64, 0x80, 0x05, 0x04, 121, 35];
    assert_eq!(
        decode_state(&b).unwrap(),
        ServoState { pos: 2048, speed: -100, load: -5, voltage: 121, temp: 35 }
    );
    assert_eq!(decode_state(&b[..7]), Err(St3215Error::BadLength));
    let zero = ServoState::default();
    assert_eq!(zero, ServoState { pos: 0, speed: 0, load: 0, voltage: 0, temp: 0 });
}

fn sent(action: BusAction) -> (Vec<u8>, bool, u32) {
    match action {
        BusAction::Send { packet, expects_reply, timeout_ms } => (packet, expects_reply, timeout_ms),
        other => panic!("{:?}", other),
    }
}

/// Report the frame as sent and feed the answer.
fn answer(bus: &mut St3215Bus, bytes: &[u8]) -> BusAction {
    let mut action = bus.resume(BusEvent::Sent);
    for b in bytes {
        assert!(matches!(action, BusAction::Receive));
        action = bus.resume(BusEvent::Byte(*b));
    }
    action
}

fn finished(action: BusAction) -> Result<Vec<u8>, St3215Error> {
    match action {
        BusAction::Finished(r) => r,
        other => panic!("{:?}", other),
    }
}

#[test]
fn ping_transaction() {
    let mut bus = St3215Bus::new();
    assert_eq!(finished(bus.action()), Ok(vec![]));
    let action = bus.ping(7);
    assert_eq!(sent(action), (frame(7, 1, &[]), true, 50));
    let done = answer(&mut bus, &frame(7, 0, &[]));
    assert_eq!(finished(done), Ok(vec![]));
}

#[test]
fn bus_errors() {
    let mut bus = St3215Bus::new();
    bus.ping(7);
    assert_eq!(finished(bus.resume(BusEvent::SendFailed)), Err(St3215Error::UartTx));
    bus.ping(7);
    bus.resume(BusEvent::Sent);
    assert_eq!(finished(bus.resume(BusEvent::TimedOut)), Err(St3215Error::Timeout));
    bus.ping(7);
    bus.resume(BusEvent::Sent);
    assert_eq!(finished(bus.resume(BusEvent::ReceiveFailed)), Err(St3215Error::UartRx));
    // a finished operation stays finished
    assert_eq!(finished(bus.resume(BusEvent::Sent)), Err(St3215Error::UartRx));
}

#[test]
fn events_out_of_turn_change_nothing() {
    let mut bus = St3215Bus::new();
    bus.ping(7);
    assert_eq!(sent(bus.resume(BusEvent::Byte(0xFF))).0, frame(7, 1, &[]));
    assert_eq!(sent(bus.resume(BusEvent::TimedOut)).0, frame(7, 1, &[]));
}

#[test]
fn position_write_frame() {
    let mut bus = St3215Bus::new();
    let action = bus.write_pos(1, 2048, 1500, 50);
    assert_eq!(
        sent(action),
        (frame(1, 3, &[41, 50, 0x00, 0x08, 0, 0, 0xDC, 0x05]), true, 15)
    );
}

#[test]
fn sync_write_frame() {
    let mut bus = St3215Bus::new();
    let moves: Vec<Move> = vec![(1, 2048, 1500, 50), (2, 1024, 1500, 50)];
    let (packet, expects_reply, _) = sent(bus.sync_write_pos(&moves));
    assert!(!expects_reply);
    assert_eq!(
        packet,
        frame(
            0xFE,
            0x83,
            &[
                41, 7, 1, 50, 0x00, 0x08, 0, 0, 0xDC, 0x05, 2, 50, 0x00, 0x04, 0, 0, 0xDC, 0x05
            ]
        )
    );
    assert_eq!(finished(bus.resume(BusEvent::Sent)), Ok(vec![]));
}

#[test]
fn sync_write_of_nothing_is_done_at_once() {
    let mut bus = St3215Bus::new();
    assert_eq!(finished(bus.sync_write_pos(&[])), Ok(vec![]));
}

#[test]
fn sync_write_takes_sixteen() {
    let mut bus = St3215Bus::new();
    let moves: Vec<Move> = (1..=20).map(|i| (i, 0, 0, 0)).collect();
    let (packet, _, _) = sent(bus.sync_write_pos(&moves));
    assert_eq!(packet.len(), 6 + 2 + 16 * 8);
}

#[test]
fn torque_frames() {
    let mut bus = St3215Bus::new();
    assert_eq!(sent(bus.set_torque(3, true)).0, frame(3, 3, &[40, 1]));
    assert_eq!(sent(bus.set_torque(3, false)).0, frame(3, 3, &[40, 0]));
}

#[test]
fn id_change_sequence() {
    let mut bus = St3215Bus::new();
    assert_eq!(sent(bus.write_id(1, 2)).0, frame(1, 3, &[55, 0]));
    let action = answer(&mut bus, &frame(1, 0, &[]));
    let (packet, expects_reply, _) = sent(action);
    assert_eq!(packet, frame(1, 3, &[5, 2]));
    assert!(!expects_reply);
    assert!(matches!(bus.resume(BusEvent::Sent), BusAction::Sleep { ms: 20 }));
    assert_eq!(sent(bus.resume(BusEvent::Slept)), (frame(2, 3, &[55, 1]), true, 15));
    let done = answer(&mut bus, &frame(2, 0, &[]));
    assert_eq!(finished(done), Ok(vec![]));
}

#[test]
fn id_change_stops_at_the_first_failure() {
    let mut bus = St3215Bus::new();
    bus.write_id(1, 2);
    bus.resume(BusEvent::Sent);
    assert_eq!(finished(bus.resume(BusEvent::TimedOut)), Err(St3215Error::Timeout));
}

#[test]
fn state_read_transaction() {
    let mut bus = St3215Bus::new();
    assert_eq!(sent(bus.read_state(4)), (frame(4, 2, &[56, 8]), true, 15));
    let registers = [0x00, 0x08, 1, 0, 2, 0, 120, 30];
    let mut stream = frame(4, 2, &[56, 8]);
    stream.extend(frame(4, 0, &registers));
    assert_eq!(finished(answer(&mut bus, &stream)), Ok(registers.to_vec()));
}

#[test]
fn zero_wheel_and_mode_frames() {
    let mut bus = St3215Bus::new();
    assert_eq!(sent(bus.calibrate_zero(5)).0, frame(5, 3, &[40, 128]));
    assert_eq!(sent(bus.set_servo_mode(5)).0, frame(5, 3, &[33, 0]));
    assert_eq!(sent(bus.write_wheel_speed(5, -1200, 50)).0, frame(5, 3, &[33, 1]));
    let ack = frame(5, 0, &[]);
    assert_eq!(sent(answer(&mut bus, &ack)).0, frame(5, 3, &[41, 50]));
    assert_eq!(sent(answer(&mut bus, &ack)).0, frame(5, 3, &[46, 0xB0, 0x84]));
    assert_eq!(finished(answer(&mut bus, &ack)), Ok(vec![]));
    assert_eq!(to_signed_15(0x84B0), -1200);
}

fn run_scan(from: u8, to: u8, alive: &[u8]) -> (Vec<u8>, Vec<u8>) {
    let mut list: ServoList = heapless::Vec::new();
    list.push(99).unwrap();
    let mut scan = St3215Bus::new().scan(from, to, &mut list);
    assert!(list.is_empty());
    let mut asked = Vec::new();
    while let Some(id) = scan.target(&list) {
        asked.push(id);
        scan.report(&mut list, alive.contains(&id));
    }
    (asked, list.iter().copied().collect())
}

#[test]
fn scan_collects_responders_in_order() {
    let (asked, found) = run_scan(1, 6, &[5, 2]);
    assert_eq!(asked, vec![1, 2, 3, 4, 5, 6]);
    assert_eq!(found, vec![2, 5]);
}

#[test]
fn scan_leaves_out_the_broadcast_id() {
    let (asked, found) = run_scan(252, 255, &[252, 253, 254, 255]);
    assert_eq!(asked, vec![252, 253, 255]);
    assert_eq!(found, vec![252, 253, 255]);
}

#[test]
fn scan_stops_when_the_list_is_full() {
    let alive: Vec<u8> = (1..=40).collect();
    let (asked, found) = run_scan(1, 40, &alive);
    assert_eq!(asked.len(), 16);
    assert_eq!(found, (1..=16).collect::<Vec<u8>>());
}

#[test]
fn scan_of_an_empty_range() {
    assert_eq!(run_scan(9, 3, &[5]), (vec![], vec![]));
}

#[test]
fn error_names() {
    assert_eq!(St3215Error::Timeout.name(), "Timeout");
    assert_eq!(St3215Error::BadHeader.name(), "BadHeader");
    assert_eq!(St3215Error::BadChecksum.name(), "BadChecksum");
    assert_eq!(St3215Error::BadLength.name(), "BadLength");
    assert_eq!(St3215Error::UartTx.name(), "UartTx");
    assert_eq!(St3215Error::UartRx.name(), "UartRx");
    assert_eq!(St3215Error::Status(32).name(), "Status(32)");
    assert_eq!(format!("{:?}", St3215Error::Status(32)), "Status(32)");
}
