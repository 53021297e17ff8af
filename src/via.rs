//! The VIA protocol supported by QMK keyboard firmware: opcode and
//! sub-id tables, request building and response parsing. No I/O here.
use crate::raw_hid::{Request, MAX_PAYLOAD_LEN, RAW_HID_BUFFER_SIZE};
use crate::{ErrorKind, QmkError};
use vstd::prelude::*;

verus! {

/// The transaction kinds (opcodes) that this library issues.
#[derive(Clone, Copy, Debug, PartialEq, Eq, Structural)]
pub enum ViaCommandId {
    GetProtocolVersion,
    GetKeyboardValue,
    SetKeyboardValue,
    CustomSetValue,
    CustomGetValue,
    CustomSave,
    EepromReset,
    BootloaderJump,
}

/// The opcode table.
pub open spec fn spec_command_code(id: ViaCommandId) -> u8 {
    match id {
        ViaCommandId::GetProtocolVersion => 0x01,
        ViaCommandId::GetKeyboardValue => 0x02,
        ViaCommandId::SetKeyboardValue => 0x03,
        ViaCommandId::CustomSetValue => 0x07,
        ViaCommandId::CustomGetValue => 0x08,
        ViaCommandId::CustomSave => 0x09,
        ViaCommandId::EepromReset => 0x0A,
        ViaCommandId::BootloaderJump => 0x0B,
    }
}

impl ViaCommandId {
    pub fn code(self) -> (r: u8)
        ensures
            r == spec_command_code(self),
    {
        match self {
            ViaCommandId::GetProtocolVersion => 0x01,
            ViaCommandId::GetKeyboardValue => 0x02,
            ViaCommandId::SetKeyboardValue => 0x03,
            ViaCommandId::CustomSetValue => 0x07,
            ViaCommandId::CustomGetValue => 0x08,
            ViaCommandId::CustomSave => 0x09,
            ViaCommandId::EepromReset => 0x0A,
            ViaCommandId::BootloaderJump => 0x0B,
        }
    }

    /// The transaction kind of an opcode, if it is one of the table.
    pub fn from_code(code: u8) -> (r: Option<ViaCommandId>)
        ensures
            r matches Some(id) ==> spec_command_code(id) == code,
            r is None ==> forall|id: ViaCommandId| spec_command_code(id) != code,
    {
        match code {
            0x01 => Some(ViaCommandId::GetProtocolVersion),
            0x02 => Some(ViaCommandId::GetKeyboardValue),
            0x03 => Some(ViaCommandId::SetKeyboardValue),
            0x07 => Some(ViaCommandId::CustomSetValue),
            0x08 => Some(ViaCommandId::CustomGetValue),
            0x09 => Some(ViaCommandId::CustomSave),
            0x0A => Some(ViaCommandId::EepromReset),
            0x0B => Some(ViaCommandId::BootloaderJump),
            _ => None,
        }
    }
}

/// Sub-ids of the get/set keyboard value transactions.
#[derive(Clone, Copy, Debug, PartialEq, Eq, Structural)]
pub enum ViaKeyboardValueId {
    Uptime,
    LayoutOptions,
    SwitchMatrixState,
    FirmwareVersion,
    DeviceIndication,
}

pub open spec fn spec_keyboard_value_code(id: ViaKeyboardValueId) -> u8 {
    match id {
        ViaKeyboardValueId::Uptime => 0x01,
        ViaKeyboardValueId::LayoutOptions => 0x02,
        ViaKeyboardValueId::SwitchMatrixState => 0x03,
        ViaKeyboardValueId::FirmwareVersion => 0x04,
        ViaKeyboardValueId::DeviceIndication => 0x05,
    }
}

impl ViaKeyboardValueId {
    pub fn code(self) -> (r: u8)
        ensures
            r == spec_keyboard_value_code(self),
    {
        match self {
            ViaKeyboardValueId::Uptime => 0x01,
            ViaKeyboardValueId::LayoutOptions => 0x02,
            ViaKeyboardValueId::SwitchMatrixState => 0x03,
            ViaKeyboardValueId::FirmwareVersion => 0x04,
            ViaKeyboardValueId::DeviceIndication => 0x05,
        }
    }
}

/// Channels of the custom get/set transactions.
#[derive(Clone, Copy, Debug, PartialEq, Eq, Structural)]
pub enum ViaChannelId {
    BacklightChannel,
    RgbMatrixChannel,
}

pub open spec fn spec_channel_code(id: ViaChannelId) -> u8 {
    match id {
        ViaChannelId::BacklightChannel => 1,
        ViaChannelId::RgbMatrixChannel => 3,
    }
}

impl ViaChannelId {
    pub fn code(self) -> (r: u8)
        ensures
            r == spec_channel_code(self),
    {
        match self {
            ViaChannelId::BacklightChannel => 1,
            ViaChannelId::RgbMatrixChannel => 3,
        }
    }
}

/// Values of the backlight channel.
#[derive(Clone, Copy, Debug, PartialEq, Eq, Structural)]
pub enum ViaBacklightValue {
    Brightness,
    Effect,
}

pub open spec fn spec_backlight_value_code(v: ViaBacklightValue) -> u8 {
    match v {
        ViaBacklightValue::Brightness => 1,
        ViaBacklightValue::Effect => 2,
    }
}

impl ViaBacklightValue {
    pub fn code(self) -> (r: u8)
        ensures
            r == spec_backlight_value_code(self),
    {
        match self {
            ViaBacklightValue::Brightness => 1,
            ViaBacklightValue::Effect => 2,
        }
    }
}

/// Values of the RGB matrix channel.
#[derive(Clone, Copy, Debug, PartialEq, Eq, Structural)]
pub enum ViaRgbMatrixValue {
    Brightness,
    Effect,
    EffectSpeed,
    Color,
}

pub open spec fn spec_rgb_value_code(v: ViaRgbMatrixValue) -> u8 {
    match v {
        ViaRgbMatrixValue::Brightness => 1,
        ViaRgbMatrixValue::Effect => 2,
        ViaRgbMatrixValue::EffectSpeed => 3,
        ViaRgbMatrixValue::Color => 4,
    }
}

impl ViaRgbMatrixValue {
    pub fn code(self) -> (r: u8)
        ensures
            r == spec_rgb_value_code(self),
    {
        match self {
            ViaRgbMatrixValue::Brightness => 1,
            ViaRgbMatrixValue::Effect => 2,
            ViaRgbMatrixValue::EffectSpeed => 3,
            ViaRgbMatrixValue::Color => 4,
        }
    }
}

/// RGB matrix effect that lights every key in one color.
pub const SOLID_EFFECT: u8 = 1;

/// Protocol version of the firmware generation with custom value channels.
pub const CUSTOM_VALUES_PROTOCOL_VERSION: u16 = 0x000B;

/// Which firmware variant is addressed. The factory variant reads the
/// bootloader-jump opcode as a factory command.
#[derive(Clone, Copy, Debug, PartialEq, Eq, Structural)]
pub enum FirmwareProfile {
    Standard,
    Factory,
}

/// A semantic command. `BootloaderJump` and `FactoryCommand` share an
/// opcode and are still two commands: which one applies depends on the
/// firmware profile.
#[derive(Clone, Copy, Debug, PartialEq, Eq, Structural)]
pub enum Command {
    GetProtocolVersion,
    GetKeyboardValue { id: ViaKeyboardValueId },
    /// Only values below 256 can be sent.
    SetKeyboardValue { id: ViaKeyboardValueId, value: u32 },
    CustomGetValue { channel: ViaChannelId, value_id: u8 },
    CustomSetValue { channel: ViaChannelId, value_id: u8, data: u8 },
    GetRgbColor,
    SetRgbColor { hue: u8, saturation: u8 },
    CustomSave { channel: ViaChannelId },
    EepromReset,
    BootloaderJump,
    FactoryCommand { sub_command: u8, value: u8 },
}

pub open spec fn spec_opcode(cmd: Command) -> u8 {
    match cmd {
        Command::GetProtocolVersion => spec_command_code(ViaCommandId::GetProtocolVersion),
        Command::GetKeyboardValue { .. } => spec_command_code(ViaCommandId::GetKeyboardValue),
        Command::SetKeyboardValue { .. } => spec_command_code(ViaCommandId::SetKeyboardValue),
        Command::CustomGetValue { .. } => spec_command_code(ViaCommandId::CustomGetValue),
        Command::CustomSetValue { .. } => spec_command_code(ViaCommandId::CustomSetValue),
        Command::GetRgbColor => spec_command_code(ViaCommandId::CustomGetValue),
        Command::SetRgbColor { .. } => spec_command_code(ViaCommandId::CustomSetValue),
        Command::CustomSave { .. } => spec_command_code(ViaCommandId::CustomSave),
        Command::EepromReset => spec_command_code(ViaCommandId::EepromReset),
        Command::BootloaderJump => spec_command_code(ViaCommandId::BootloaderJump),
        Command::FactoryCommand { .. } => spec_command_code(ViaCommandId::BootloaderJump),
    }
}

pub open spec fn rgb_channel() -> u8 {
    spec_channel_code(ViaChannelId::RgbMatrixChannel)
}

pub open spec fn color_value() -> u8 {
    spec_rgb_value_code(ViaRgbMatrixValue::Color)
}

pub open spec fn spec_payload(cmd: Command) -> Seq<u8> {
    match cmd {
        Command::GetProtocolVersion => seq![],
        Command::GetKeyboardValue { id } => seq![spec_keyboard_value_code(id)],
        Command::SetKeyboardValue { id, value } => seq![spec_keyboard_value_code(id), value as u8],
        Command::CustomGetValue { channel, value_id } => seq![spec_channel_code(channel), value_id],
        Command::CustomSetValue { channel, value_id, data } => seq![
            spec_channel_code(channel),
            value_id,
            data,
        ],
        Command::GetRgbColor => seq![rgb_channel(), color_value()],
        Command::SetRgbColor { hue, saturation } => seq![
            rgb_channel(),
            color_value(),
            hue,
            saturation,
        ],
        Command::CustomSave { channel } => seq![spec_channel_code(channel)],
        Command::EepromReset => seq![],
        Command::BootloaderJump => seq![],
        Command::FactoryCommand { sub_command, value } => seq![sub_command, value],
    }
}

/// Response bytes after the first byte of the report: sub-id or channel
/// echoes, then the value. 0: nothing is read.
pub open spec fn spec_response_len(cmd: Command) -> nat {
    match cmd {
        Command::GetProtocolVersion => 2,
        Command::GetKeyboardValue { .. } => 5,
        Command::CustomGetValue { .. } => 3,
        Command::GetRgbColor => 4,
        _ => 0,
    }
}

/// Whether the command's values can be put on the wire.
pub open spec fn encodable(cmd: Command) -> bool {
    match cmd {
        Command::SetKeyboardValue { value, .. } => value < 256,
        _ => true,
    }
}

/// Whether the firmware profile offers the command.
pub open spec fn offered_by(cmd: Command, profile: FirmwareProfile) -> bool {
    match cmd {
        Command::BootloaderJump => profile == FirmwareProfile::Standard,
        Command::FactoryCommand { .. } => profile == FirmwareProfile::Factory,
        _ => true,
    }
}

/// The request of a command.
pub open spec fn is_request_of(req: Request, cmd: Command) -> bool {
    &&& req.opcode == spec_opcode(cmd)
    &&& req.payload@ == spec_payload(cmd)
    &&& req.response_len == spec_response_len(cmd)
}

/// The request of a command whose values fit the wire.
pub fn build_request(cmd: Command) -> (r: Request)
    requires
        encodable(cmd),
    ensures
        is_request_of(r, cmd),
        r.payload@.len() <= MAX_PAYLOAD_LEN,
        r.response_len < RAW_HID_BUFFER_SIZE,
{
    let get = ViaCommandId::CustomGetValue.code();
    let set = ViaCommandId::CustomSetValue.code();
    let rgb = ViaChannelId::RgbMatrixChannel.code();
    let color = ViaRgbMatrixValue::Color.code();
    let (opcode, payload, response_len): (u8, Vec<u8>, usize) = match cmd {
        Command::GetProtocolVersion => (ViaCommandId::GetProtocolVersion.code(), vec![], 2),
        Command::GetKeyboardValue { id } => (
            ViaCommandId::GetKeyboardValue.code(),
            vec![id.code()],
            5,
        ),
        Command::SetKeyboardValue { id, value } => (
            ViaCommandId::SetKeyboardValue.code(),
            vec![id.code(), value as u8],
            0,
        ),
        Command::CustomGetValue { channel, value_id } => (get, vec![channel.code(), value_id], 3),
        Command::CustomSetValue { channel, value_id, data } => (
            set,
            vec![channel.code(), value_id, data],
            0,
        ),
        Command::GetRgbColor => (get, vec![rgb, color], 4),
        Command::SetRgbColor { hue, saturation } => (set, vec![rgb, color, hue, saturation], 0),
        Command::CustomSave { channel } => (ViaCommandId::CustomSave.code(), vec![channel.code()], 0),
        Command::EepromReset => (ViaCommandId::EepromReset.code(), vec![], 0),
        Command::BootloaderJump => (ViaCommandId::BootloaderJump.code(), vec![], 0),
        Command::FactoryCommand { sub_command, value } => (
            ViaCommandId::BootloaderJump.code(),
            vec![sub_command, value],
            0,
        ),
    };
    let r = Request { opcode, payload, response_len };
    assert(r.payload@ =~= spec_payload(cmd));
    r
}

/// The request of a command under a firmware profile. A value that does not
/// fit the wire is the caller's error; a command of the other profile is
/// refused before anything is sent.
pub fn encode(cmd: Command, profile: FirmwareProfile) -> (r: Result<Request, QmkError>)
    ensures
        r is Ok <==> encodable(cmd) && offered_by(cmd, profile),
        r matches Ok(req) ==> is_request_of(req, cmd),
        r matches Err(e) ==> (!encodable(cmd) ==> e.kind == ErrorKind::InvalidInput),
        r matches Err(e) ==> (encodable(cmd) ==> e.kind == ErrorKind::UnsupportedByFirmware),
{
    let offered = match cmd {
        Command::BootloaderJump => profile == FirmwareProfile::Standard,
        Command::FactoryCommand { .. } => profile == FirmwareProfile::Factory,
        _ => true,
    };
    if let Command::SetKeyboardValue { value, .. } = cmd {
        if value >= 256 {
            return Err(QmkError::new(ErrorKind::InvalidInput));
        }
    }
    if !offered {
        return Err(QmkError::new(ErrorKind::UnsupportedByFirmware));
    }
    Ok(build_request(cmd))
}

/// Oldest protocol version that offers the command. The custom value
/// commands came with protocol 0x000B; EEPROM reset is only sent to
/// firmware of that generation or newer.
pub open spec fn spec_min_protocol_version(cmd: Command) -> u16 {
    match cmd {
        Command::CustomGetValue { .. } => CUSTOM_VALUES_PROTOCOL_VERSION,
        Command::CustomSetValue { .. } => CUSTOM_VALUES_PROTOCOL_VERSION,
        Command::GetRgbColor => CUSTOM_VALUES_PROTOCOL_VERSION,
        Command::SetRgbColor { .. } => CUSTOM_VALUES_PROTOCOL_VERSION,
        Command::CustomSave { .. } => CUSTOM_VALUES_PROTOCOL_VERSION,
        Command::EepromReset => CUSTOM_VALUES_PROTOCOL_VERSION,
        _ => 0,
    }
}

/// Refuses a command that firmware of the given protocol version does not offer.
pub fn check_supported(cmd: Command, protocol_version: u16) -> (r: Result<(), QmkError>)
    ensures
        r is Ok <==> protocol_version >= spec_min_protocol_version(cmd),
        r matches Err(e) ==> e.kind == ErrorKind::UnsupportedByFirmware,
{
    let min: u16 = match cmd {
        Command::CustomGetValue { .. } => CUSTOM_VALUES_PROTOCOL_VERSION,
        Command::CustomSetValue { .. } => CUSTOM_VALUES_PROTOCOL_VERSION,
        Command::GetRgbColor => CUSTOM_VALUES_PROTOCOL_VERSION,
        Command::SetRgbColor { .. } => CUSTOM_VALUES_PROTOCOL_VERSION,
        Command::CustomSave { .. } => CUSTOM_VALUES_PROTOCOL_VERSION,
        Command::EepromReset => CUSTOM_VALUES_PROTOCOL_VERSION,
        _ => 0,
    };
    if protocol_version >= min {
        Ok(())
    } else {
        Err(QmkError::new(ErrorKind::UnsupportedByFirmware))
    }
}

/// Big-endian value of two bytes.
pub open spec fn be16(hi: u8, lo: u8) -> int {
    hi as int * 256 + lo as int
}

/// Big-endian value of four bytes.
pub open spec fn be32(b0: u8, b1: u8, b2: u8, b3: u8) -> int {
    ((b0 as int * 256 + b1 as int) * 256 + b2 as int) * 256 + b3 as int
}

/// The protocol version out of the response `[hi, lo]`.
pub fn parse_protocol_version(reply: &Vec<u8>) -> (r: Result<u16, QmkError>)
    ensures
        r is Ok <==> reply@.len() == 2,
        r matches Err(e) ==> e.kind == ErrorKind::Malformed,
        r matches Ok(v) ==> v as int == be16(reply@[0], reply@[1]),
{
    if reply.len() != 2 {
        return Err(QmkError::new(ErrorKind::Malformed));
    }
    Ok(reply[0] as u16 * 256 + reply[1] as u16)
}

/// The value out of the response `[sub-id echo, b0, b1, b2, b3]`, big-endian.
pub fn parse_keyboard_value(reply: &Vec<u8>) -> (r: Result<u32, QmkError>)
    ensures
        r is Ok <==> reply@.len() == 5,
        r matches Err(e) ==> e.kind == ErrorKind::Malformed,
        r matches Ok(v) ==> v as int == be32(reply@[1], reply@[2], reply@[3], reply@[4]),
{
    if reply.len() != 5 {
        return Err(QmkError::new(ErrorKind::Malformed));
    }
    let b0 = reply[1] as u32;
    let b1 = reply[2] as u32;
    let b2 = reply[3] as u32;
    let b3 = reply[4] as u32;
    Ok(((b0 * 256 + b1) * 256 + b2) * 256 + b3)
}

/// The value out of the response `[channel echo, value-id echo, data]`.
pub fn parse_custom_u8(reply: &Vec<u8>) -> (r: Result<u8, QmkError>)
    ensures
        r is Ok <==> reply@.len() == 3,
        r matches Err(e) ==> e.kind == ErrorKind::Malformed,
        r matches Ok(v) ==> v == reply@[2],
{
    if reply.len() != 3 {
        return Err(QmkError::new(ErrorKind::Malformed));
    }
    Ok(reply[2])
}

/// `(hue, saturation)` out of the response `[channel echo, value-id echo, hue, saturation]`.
pub fn parse_rgb_color(reply: &Vec<u8>) -> (r: Result<(u8, u8), QmkError>)
    ensures
        r is Ok <==> reply@.len() == 4,
        r matches Err(e) ==> e.kind == ErrorKind::Malformed,
        r matches Ok(c) ==> c == (reply@[2], reply@[3]),
{
    if reply.len() != 4 {
        return Err(QmkError::new(ErrorKind::Malformed));
    }
    Ok((reply[2], reply[3]))
}

} // verus!
