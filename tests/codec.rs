use qmk_hid::factory::{factory_emulate_key, factory_light_led};
use qmk_hid::raw_hid::{
    after_read, after_write, frame, unframe, ReadOutcome, Request, PADDING_BYTE, RAW_HID_BUFFER_SIZE,
};
use qmk_hid::via::{
    build_request, check_supported, encode, parse_custom_u8, parse_keyboard_value,
    parse_protocol_version, parse_rgb_color, Command, FirmwareProfile, ViaChannelId, ViaCommandId,
    ViaKeyboardValueId, ViaRgbMatrixValue,
};
use qmk_hid::{color_as_hue, format_bcd, Color, ErrorKind};

#[test]
fn frame_layout() {
    let payload = [0x03u8, 0x04, 50, 200];
    let report = frame(0x07, &payload).unwrap();
    assert_eq!(report.len(), RAW_HID_BUFFER_SIZE);
    assert_eq!(report[0], 0);
    assert_eq!(report[1], 0x07);
    assert_eq!(&report[2..6], &payload[..]);
    assert!(report[6..].iter().all(|b| *b == PADDING_BYTE));
}

#[test]
fn frame_every_payload_length() {
    for len in 0..=30usize {
        let payload: Vec<u8> = (0..len).map(|i| i as u8 + 1).collect();
        for op in [0x01u8, 0x0B, 0xFF] {
            let report = frame(op, &payload).unwrap();
            assert_eq!(report.len(), RAW_HID_BUFFER_SIZE);
            assert_eq!(report[1], op);
            assert_eq!(&report[2..2 + len], &payload[..]);
        }
    }
}

#[test]
fn frame_too_long_payload() {
    let payload = [0u8; 31];
    assert_eq!(frame(0x01, &payload).unwrap_err().kind, ErrorKind::InvalidInput);
}

#[test]
fn unframe_skips_first_byte() {
    let raw = [0x01u8, 0x00, 0x0B, 0xFE];
    assert_eq!(unframe(&raw, 2).unwrap(), vec![0x00, 0x0B]);
    assert_eq!(unframe(&raw, 3).unwrap(), vec![0x00, 0x0B, 0xFE]);
    assert_eq!(unframe(&raw, 4).unwrap_err().kind, ErrorKind::Malformed);
    assert_eq!(unframe(&[], 0).unwrap_err().kind, ErrorKind::Malformed);
}

#[test]
fn version_decode() {
    let mut raw = vec![0xAAu8; RAW_HID_BUFFER_SIZE];
    raw[1] = 0x00;
    raw[2] = 0x0B;
    let req = build_request(Command::GetProtocolVersion);
    let reply = after_read(&req, ReadOutcome::Received { data: raw, count: RAW_HID_BUFFER_SIZE }).unwrap();
    assert_eq!(reply, vec![0x00, 0x0B]);
    assert_eq!(parse_protocol_version(&reply).unwrap(), 0x000B);
    assert_eq!(parse_protocol_version(&vec![0x12, 0x34]).unwrap(), 0x1234);
    assert_eq!(parse_protocol_version(&vec![0x12]).unwrap_err().kind, ErrorKind::Malformed);
}

#[test]
fn write_outcomes() {
    let fire = build_request(Command::BootloaderJump);
    let query = build_request(Command::GetProtocolVersion);
    assert_eq!(after_write(&fire, false).unwrap_err().kind, ErrorKind::Write);
    assert_eq!(after_write(&fire, true).unwrap(), false);
    assert_eq!(after_write(&query, true).unwrap(), true);
}

#[test]
fn read_outcomes() {
    let req = build_request(Command::GetRgbColor);
    assert_eq!(after_read(&req, ReadOutcome::Failed).unwrap_err().kind, ErrorKind::Read);
    let timeout = ReadOutcome::Received { data: vec![0; 32], count: 0 };
    assert_eq!(after_read(&req, timeout).unwrap_err().kind, ErrorKind::Timeout);
    let short = ReadOutcome::Received { data: vec![0; 32], count: 4 };
    assert_eq!(after_read(&req, short).unwrap_err().kind, ErrorKind::Malformed);
    let overlong = ReadOutcome::Received { data: vec![0; 4], count: 8 };
    assert_eq!(after_read(&req, overlong).unwrap_err().kind, ErrorKind::Malformed);
    let ok = ReadOutcome::Received { data: vec![0x08, 3, 4, 10, 200, 0xFE], count: 5 };
    assert_eq!(after_read(&req, ok).unwrap(), vec![3, 4, 10, 200]);
}

#[test]
fn opcode_table() {
    assert_eq!(ViaCommandId::GetProtocolVersion.code(), 0x01);
    assert_eq!(ViaCommandId::CustomSave.code(), 0x09);
    assert_eq!(ViaCommandId::BootloaderJump.code(), 0x0B);
    assert_eq!(ViaCommandId::from_code(0x0A), Some(ViaCommandId::EepromReset));
    assert_eq!(ViaCommandId::from_code(0x04), None);
    assert_eq!(ViaKeyboardValueId::DeviceIndication.code(), 0x05);
    assert_eq!(ViaChannelId::RgbMatrixChannel.code(), 3);
    assert_eq!(ViaRgbMatrixValue::Color.code(), 4);
}

fn parts(req: &Request) -> (u8, Vec<u8>, usize) {
    (req.opcode, req.payload.clone(), req.response_len)
}

#[test]
fn requests_of_commands() {
    let std = FirmwareProfile::Standard;
    let get = encode(Command::GetKeyboardValue { id: ViaKeyboardValueId::Uptime }, std).unwrap();
    assert_eq!(parts(&get), (0x02, vec![0x01], 5));
    let set = encode(Command::SetKeyboardValue { id: ViaKeyboardValueId::DeviceIndication, value: 0 }, std)
        .unwrap();
    assert_eq!(parts(&set), (0x03, vec![0x05, 0], 0));
    let custom = encode(
        Command::CustomSetValue { channel: ViaChannelId::BacklightChannel, value_id: 1, data: 128 },
        std,
    )
    .unwrap();
    assert_eq!(parts(&custom), (0x07, vec![1, 1, 128], 0));
    let read = encode(Command::CustomGetValue { channel: ViaChannelId::RgbMatrixChannel, value_id: 2 }, std)
        .unwrap();
    assert_eq!(parts(&read), (0x08, vec![3, 2], 3));
    assert_eq!(parts(&encode(Command::GetRgbColor, std).unwrap()), (0x08, vec![3, 4], 4));
    let save = encode(Command::CustomSave { channel: ViaChannelId::RgbMatrixChannel }, std).unwrap();
    assert_eq!(parts(&save), (0x09, vec![3], 0));
    assert_eq!(parts(&encode(Command::EepromReset, std).unwrap()), (0x0A, vec![], 0));
    assert_eq!(parts(&encode(Command::BootloaderJump, std).unwrap()), (0x0B, vec![], 0));
}

#[test]
fn keyboard_value_above_a_byte_is_refused() {
    let cmd = Command::SetKeyboardValue { id: ViaKeyboardValueId::DeviceIndication, value: 256 };
    assert_eq!(encode(cmd, FirmwareProfile::Standard).unwrap_err().kind, ErrorKind::InvalidInput);
    let cmd = Command::SetKeyboardValue { id: ViaKeyboardValueId::DeviceIndication, value: 255 };
    assert!(encode(cmd, FirmwareProfile::Standard).is_ok());
}

#[test]
fn factory_and_bootloader_share_an_opcode_only() {
    let led = factory_light_led(7);
    let req = encode(led, FirmwareProfile::Factory).unwrap();
    assert_eq!(parts(&req), (0x0B, vec![0x02, 7], 0));
    let key = encode(factory_emulate_key(0x04), FirmwareProfile::Factory).unwrap();
    assert_eq!(parts(&key), (0x0B, vec![0x01, 0x04], 0));
    assert_eq!(
        encode(led, FirmwareProfile::Standard).unwrap_err().kind,
        ErrorKind::UnsupportedByFirmware
    );
    assert_eq!(
        encode(Command::BootloaderJump, FirmwareProfile::Factory).unwrap_err().kind,
        ErrorKind::UnsupportedByFirmware
    );
}

#[test]
fn protocol_version_gate() {
    assert_eq!(check_supported(Command::EepromReset, 0x000A).unwrap_err().kind, ErrorKind::UnsupportedByFirmware);
    assert!(check_supported(Command::EepromReset, 0x000B).is_ok());
    assert!(check_supported(Command::GetProtocolVersion, 0).is_ok());
    assert!(check_supported(Command::BootloaderJump, 0x0001).is_ok());
}

#[test]
fn response_parsers() {
    assert_eq!(parse_keyboard_value(&vec![0x01, 0x00, 0x01, 0x02, 0x03]).unwrap(), 0x0001_0203);
    assert_eq!(parse_keyboard_value(&vec![0x01, 0xFF, 0xFF, 0xFF, 0xFF]).unwrap(), u32::MAX);
    assert_eq!(parse_keyboard_value(&vec![0x01, 0x00]).unwrap_err().kind, ErrorKind::Malformed);
    assert_eq!(parse_custom_u8(&vec![3, 1, 77]).unwrap(), 77);
    assert_eq!(parse_custom_u8(&vec![3, 1]).unwrap_err().kind, ErrorKind::Malformed);
    assert_eq!(parse_rgb_color(&vec![3, 4, 10, 200]).unwrap(), (10, 200));
    assert_eq!(parse_rgb_color(&vec![3, 4, 10]).unwrap_err().kind, ErrorKind::Malformed);
}

#[test]
fn bcd_formatting() {
    assert_eq!(format_bcd(0x0213), "2.1.3");
    assert_eq!(format_bcd(0x0000), "0.0.0");
    assert_eq!(format_bcd(0xFFFF), "255.15.15");
    assert_eq!(format_bcd(0x0A5C), "10.5.12");
}

#[test]
fn named_color_hues() {
    assert_eq!(color_as_hue(Color::Red), 0);
    assert_eq!(color_as_hue(Color::Yellow), 43);
    assert_eq!(color_as_hue(Color::Green), 85);
    assert_eq!(color_as_hue(Color::Cyan), 125);
    assert_eq!(color_as_hue(Color::Blue), 170);
    assert_eq!(color_as_hue(Color::Purple), 213);
    assert_eq!(color_as_hue(Color::White), 0);
}
