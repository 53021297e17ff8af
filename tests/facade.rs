use qmk_hid::discovery::{find_devices, parse_hex_id, select_device, DeviceRecord, QMK_INTERFACE};
use qmk_hid::facade::{
    breathing_from_byte, byte_from_breathing, byte_from_percent, color_to_write, named_color_setting,
    percent_from_byte, Action, DeviceIndication, Event, GatedCommand, IndicationPhase, SetRgbColor,
    PULSE_COUNT, PULSE_PAUSE_MS,
};
use qmk_hid::raw_hid::{
    Console, ConsoleEvent, ConsoleOutput, CONSOLE_PAUSE_MS, CONSOLE_USAGE_PAGE, RAW_USAGE_PAGE,
    RECONNECT_PAUSE_MS,
};
use qmk_hid::via::{Command, FirmwareProfile};
use qmk_hid::{Color, ErrorKind, QmkError};

fn transaction(a: &Action) -> (u8, Vec<u8>, usize) {
    match a {
        Action::Transact(req) => (req.opcode, req.payload.clone(), req.response_len),
        _ => panic!("expected a transaction"),
    }
}

fn failure(a: &Action) -> ErrorKind {
    match a {
        Action::Finish(Err(e)) => e.kind,
        _ => panic!("expected a failure"),
    }
}

fn ok() -> Event {
    Event::Replied(Ok(vec![]))
}

fn err(kind: ErrorKind) -> Event {
    Event::Replied(Err(QmkError::new(kind)))
}

#[test]
fn percent_round_trip_within_one() {
    for b in 0..=255u8 {
        let p = percent_from_byte(b);
        assert!(p <= 100);
        let back = byte_from_percent(p).unwrap() as i32;
        assert!((back - b as i32).abs() <= 1, "byte {b} came back as {back}");
    }
}

#[test]
fn percent_values() {
    assert_eq!(byte_from_percent(0).unwrap(), 0);
    assert_eq!(byte_from_percent(10).unwrap(), 26);
    assert_eq!(byte_from_percent(50).unwrap(), 128);
    assert_eq!(byte_from_percent(100).unwrap(), 255);
    assert_eq!(byte_from_percent(101).unwrap_err().kind, ErrorKind::InvalidInput);
    assert_eq!(percent_from_byte(0), 0);
    assert_eq!(percent_from_byte(128), 50);
    assert_eq!(percent_from_byte(255), 100);
    assert_eq!(percent_from_byte(1), 0);
    assert_eq!(percent_from_byte(2), 1);
}

#[test]
fn breathing_flag() {
    assert!(breathing_from_byte(1));
    assert!(!breathing_from_byte(0));
    assert!(!breathing_from_byte(2));
    assert_eq!(byte_from_breathing(true), 1);
    assert_eq!(byte_from_breathing(false), 0);
}

#[test]
fn named_colors() {
    assert_eq!(named_color_setting(Color::White), (None, Some(0)));
    assert_eq!(named_color_setting(Color::Blue), (Some(170), Some(255)));
}

#[test]
fn hue_change_keeps_saturation() {
    let mut op = SetRgbColor::new(Some(50), None);
    let first = op.step(Event::Begin);
    assert_eq!(transaction(&first), (0x08, vec![3, 4], 4));
    let write = op.step(Event::Replied(Ok(vec![3, 4, 10, 200])));
    assert_eq!(transaction(&write), (0x07, vec![3, 4, 50, 200], 0));
    assert!(matches!(op.step(ok()), Action::Finish(Ok(_))));
    assert_eq!(color_to_write(Some(50), None, (10, 200)), (50, 200));
    assert_eq!(color_to_write(None, Some(7), (10, 200)), (10, 7));
}

#[test]
fn full_color_needs_no_read() {
    let mut op = SetRgbColor::new(Some(85), Some(255));
    let first = op.step(Event::Begin);
    assert_eq!(transaction(&first), (0x07, vec![3, 4, 85, 255], 0));
    assert_eq!(failure(&op.step(err(ErrorKind::Write))), ErrorKind::Write);
}

#[test]
fn color_read_failures() {
    let mut op = SetRgbColor::new(None, Some(0));
    op.step(Event::Begin);
    assert_eq!(failure(&op.step(err(ErrorKind::Timeout))), ErrorKind::Timeout);
    let mut op = SetRgbColor::new(None, Some(0));
    op.step(Event::Begin);
    assert_eq!(failure(&op.step(Event::Replied(Ok(vec![3, 4])))), ErrorKind::Malformed);
}

fn start_indication(effect: u8) -> DeviceIndication {
    let mut op = DeviceIndication::new();
    let read = op.step(Event::Begin);
    assert_eq!(transaction(&read), (0x08, vec![3, 2], 3));
    let solid = op.step(Event::Replied(Ok(vec![3, 2, effect])));
    assert_eq!(transaction(&solid), (0x07, vec![3, 2, 1], 0));
    op
}

#[test]
fn indication_full_sequence() {
    let mut op = start_indication(9);
    let mut action = op.step(ok());
    for _ in 0..PULSE_COUNT {
        assert_eq!(transaction(&action), (0x03, vec![0x05, 0], 0));
        let pause = op.step(ok());
        assert!(matches!(pause, Action::Pause(ms) if ms == PULSE_PAUSE_MS));
        action = op.step(Event::Paused);
    }
    assert_eq!(transaction(&action), (0x07, vec![3, 2, 9], 0));
    assert!(matches!(op.step(ok()), Action::Finish(Ok(_))));
    assert_eq!(op.phase, IndicationPhase::Done);
}

#[test]
fn indication_restores_after_third_pulse_fails() {
    let mut op = start_indication(42);
    let mut action = op.step(ok());
    for _ in 0..2 {
        assert_eq!(transaction(&action), (0x03, vec![0x05, 0], 0));
        op.step(ok());
        action = op.step(Event::Paused);
    }
    assert_eq!(transaction(&action), (0x03, vec![0x05, 0], 0));
    let restore = op.step(err(ErrorKind::Write));
    assert_eq!(transaction(&restore), (0x07, vec![3, 2, 42], 0));
    assert_eq!(failure(&op.step(ok())), ErrorKind::Write);
}

#[test]
fn indication_restores_after_solid_fails() {
    let mut op = start_indication(5);
    let restore = op.step(err(ErrorKind::Timeout));
    assert_eq!(transaction(&restore), (0x07, vec![3, 2, 5], 0));
    assert_eq!(failure(&op.step(err(ErrorKind::Write))), ErrorKind::Timeout);
}

#[test]
fn indication_read_failure_sends_nothing_more() {
    let mut op = DeviceIndication::new();
    op.step(Event::Begin);
    assert_eq!(failure(&op.step(err(ErrorKind::Read))), ErrorKind::Read);
}

#[test]
fn eeprom_reset_gated_by_version() {
    let mut older = GatedCommand::new(Command::EepromReset, FirmwareProfile::Standard).unwrap();
    assert_eq!(transaction(&older.step(Event::Begin)), (0x01, vec![], 2));
    let refused = older.step(Event::Replied(Ok(vec![0x00, 0x0A])));
    assert_eq!(failure(&refused), ErrorKind::UnsupportedByFirmware);

    let mut newer = GatedCommand::new(Command::EepromReset, FirmwareProfile::Standard).unwrap();
    newer.step(Event::Begin);
    let send = newer.step(Event::Replied(Ok(vec![0x00, 0x0B])));
    assert_eq!(transaction(&send), (0x0A, vec![], 0));
    assert!(matches!(newer.step(ok()), Action::Finish(Ok(_))));
}

#[test]
fn gated_command_refused_by_profile() {
    let r = GatedCommand::new(Command::BootloaderJump, FirmwareProfile::Factory);
    assert_eq!(r.err().unwrap().kind, ErrorKind::UnsupportedByFirmware);
}

fn dev(vendor_id: u16, product_id: u16, interface_number: i32, usage_page: u16) -> DeviceRecord {
    DeviceRecord { vendor_id, product_id, interface_number, usage_page }
}

#[test]
fn discovery_keeps_protocol_pages() {
    let list = vec![
        dev(0x32AC, 0x0012, QMK_INTERFACE, RAW_USAGE_PAGE),
        dev(0x32AC, 0x0012, 2, CONSOLE_USAGE_PAGE),
        dev(0x32AC, 0x0012, 0, 0x0001),
        dev(0x32AC, 0x0012, 3, 0x000C),
    ];
    let found = find_devices(&list, None, None);
    assert_eq!(found.raw_usages, vec![0]);
    assert_eq!(found.console_usages, vec![1]);
    assert!(found.misconfigured.is_empty());

    let reversed: Vec<DeviceRecord> = list.iter().rev().cloned().collect();
    let found = find_devices(&reversed, None, None);
    assert_eq!(found.raw_usages, vec![3]);
    assert_eq!(found.console_usages, vec![2]);
}

#[test]
fn raw_page_on_wrong_interface_is_reported() {
    let list = vec![dev(0x3434, 0x0100, 0, RAW_USAGE_PAGE)];
    let found = find_devices(&list, None, None);
    assert!(found.raw_usages.is_empty());
    assert_eq!(found.misconfigured, vec![0]);
}

#[test]
fn ambiguity_and_narrowing() {
    let list = vec![
        dev(0x32AC, 0x0012, QMK_INTERFACE, RAW_USAGE_PAGE),
        dev(0x32AC, 0x0013, QMK_INTERFACE, RAW_USAGE_PAGE),
    ];
    let found = find_devices(&list, None, None);
    assert_eq!(select_device(&found.raw_usages).unwrap_err().kind, ErrorKind::AmbiguousSelection);
    let pid = parse_hex_id("0013").unwrap();
    let found = find_devices(&list, None, Some(pid));
    assert_eq!(select_device(&found.raw_usages).unwrap(), 1);
    let found = find_devices(&list, Some(0x1234), None);
    assert_eq!(select_device(&found.raw_usages).unwrap_err().kind, ErrorKind::NotFound);
}

#[test]
fn hex_ids() {
    assert_eq!(parse_hex_id("32ac").unwrap(), 0x32AC);
    assert_eq!(parse_hex_id("32AC").unwrap(), 0x32AC);
    assert_eq!(parse_hex_id("FFFF").unwrap(), 0xFFFF);
    assert_eq!(parse_hex_id("0000ff").unwrap(), 0xFF);
    assert_eq!(parse_hex_id("").unwrap_err().kind, ErrorKind::InvalidInput);
    assert_eq!(parse_hex_id("12g4").unwrap_err().kind, ErrorKind::InvalidInput);
    assert_eq!(parse_hex_id("10000").unwrap_err().kind, ErrorKind::InvalidInput);
}

#[test]
fn console_text_and_reconnect() {
    let mut console = Console::new();
    let mut data = b"hi\xFFx".to_vec();
    data.resize(32, 0);
    let step = console.step(ConsoleEvent::Received { data: data.clone(), count: 2 });
    assert!(matches!(&step.output, ConsoleOutput::Text(t) if t == "hi"));
    assert_eq!(step.pause_ms, CONSOLE_PAUSE_MS);
    let step = console.step(ConsoleEvent::Received { data, count: 4 });
    assert!(matches!(&step.output, ConsoleOutput::Text(t) if t == "hi\u{FFFD}x"));

    let step = console.step(ConsoleEvent::Failed { message: "Input/output error".to_string() });
    assert!(matches!(step.output, ConsoleOutput::Disconnected));
    assert_eq!(step.pause_ms, RECONNECT_PAUSE_MS);
    let step = console.step(ConsoleEvent::Failed { message: "other".to_string() });
    assert!(matches!(&step.output, ConsoleOutput::ReadError(m) if m == "other"));
    let step = console.step(ConsoleEvent::Received { data: vec![0; 32], count: 0 });
    assert!(matches!(step.output, ConsoleOutput::Idle));
}

#[test]
fn console_stays_stopped() {
    let mut console = Console::new();
    assert!(matches!(console.step(ConsoleEvent::Cancelled).output, ConsoleOutput::Stopped));
    let step = console.step(ConsoleEvent::Received { data: b"late".to_vec(), count: 4 });
    assert!(matches!(step.output, ConsoleOutput::Stopped));
    assert!(console.stopped);
}
