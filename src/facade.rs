//! Operations built on the codec: percent scaling, named colors, and the
//! multi-step command sequences. Each sequence is a state machine: it is
//! handed what the device answered and says which transaction, pause or
//! result comes next, so that the caller only performs the I/O.
use crate::raw_hid::Request;
use crate::via::{
    build_request, check_supported, encodable, encode, is_request_of, offered_by, parse_custom_u8,
    parse_protocol_version, parse_rgb_color, spec_min_protocol_version, spec_rgb_value_code, Command,
    FirmwareProfile, ViaChannelId, ViaKeyboardValueId, ViaRgbMatrixValue, SOLID_EFFECT,
};
use crate::{spec_color_hue, Color, ErrorKind, QmkError};
use vstd::prelude::*;

verus! {

/// `round(255 * percent / 100)`, halves rounded up.
pub open spec fn spec_byte_from_percent(percent: u8) -> int {
    (255 * percent as int + 50) / 100
}

/// `round(100 * byte / 255)`, halves rounded up.
pub open spec fn spec_percent_from_byte(byte: u8) -> int {
    (200 * byte as int + 255) / 510
}

/// The wire byte (0-255) of a percentage (0-100).
pub fn byte_from_percent(percent: u8) -> (r: Result<u8, QmkError>)
    ensures
        r is Ok <==> percent <= 100,
        r matches Err(e) ==> e.kind == ErrorKind::InvalidInput,
        r matches Ok(b) ==> b as int == spec_byte_from_percent(percent),
{
    if percent > 100 {
        return Err(QmkError::new(ErrorKind::InvalidInput));
    }
    let scaled: u32 = (255 * percent as u32 + 50) / 100;
    Ok(scaled as u8)
}

/// The percentage (0-100) of a wire byte (0-255).
pub fn percent_from_byte(byte: u8) -> (r: u8)
    ensures
        r as int == spec_percent_from_byte(byte),
        r <= 100,
{
    ((200 * byte as u32 + 255) / 510) as u8
}

/// Scaling a byte to a percentage and back lands within one of the byte.
pub proof fn lemma_percent_round_trip(b: u8)
    ensures
        0 <= spec_percent_from_byte(b) <= 100,
        b - 1 <= spec_byte_from_percent(spec_percent_from_byte(b) as u8) <= b + 1,
{
    let p = spec_percent_from_byte(b);
    let y = spec_byte_from_percent(p as u8);
    assert(510 * p <= 200 * b + 255 < 510 * p + 510);
    assert(100 * y <= 255 * p + 50 < 100 * y + 100);
}

/// The hue and saturation to set for a named color: white keeps the hue
/// and sets saturation 0, the others set their hue at full saturation.
pub fn named_color_setting(color: Color) -> (r: (Option<u8>, Option<u8>))
    ensures
        color == Color::White ==> r == (None::<u8>, Some(0u8)),
        color != Color::White ==> r == (Some(spec_color_hue(color)), Some(255u8)),
{
    match color {
        Color::White => (None, Some(0)),
        _ => (Some(crate::color_as_hue(color)), Some(255)),
    }
}

/// Backlight breathing is on when the backlight effect value is 1.
pub fn breathing_from_byte(byte: u8) -> (r: bool)
    ensures
        r == (byte == 1),
{
    byte == 1
}

/// The backlight effect value of breathing on or off.
pub fn byte_from_breathing(on: bool) -> (r: u8)
    ensures
        r == (if on { 1u8 } else { 0u8 }),
{
    if on {
        1
    } else {
        0
    }
}

/// What the device, or the clock, answered to the last action.
pub enum Event {
    /// Starts the sequence.
    Begin,
    /// The transaction completed with these response bytes, or failed.
    Replied(Result<Vec<u8>, QmkError>),
    /// The pause is over.
    Paused,
}

/// What the caller performs next.
pub enum Action {
    /// Performs one transaction and answers `Event::Replied`.
    Transact(Request),
    /// Waits this many milliseconds and answers `Event::Paused`.
    Pause(u64),
    /// The sequence is over, with the response bytes of its last
    /// transaction or its error.
    Finish(Result<Vec<u8>, QmkError>),
}

/// The action is the transaction of `cmd`.
pub open spec fn transacts(a: Action, cmd: Command) -> bool {
    a matches Action::Transact(req) && is_request_of(req, cmd)
}

/// The action ends the sequence with the error `e`.
pub open spec fn fails_with(a: Action, e: QmkError) -> bool {
    a matches Action::Finish(Err(x)) && x == e
}

/// The action ends the sequence successfully.
pub open spec fn succeeds(a: Action) -> bool {
    a matches Action::Finish(Ok(_))
}

/// The error that an event stands for when it is not the awaited success:
/// the transaction's own error, or a misuse of the sequence by its driver.
pub open spec fn event_error(ev: Event) -> QmkError {
    match ev {
        Event::Replied(Err(e)) => e,
        _ => QmkError { kind: ErrorKind::InvalidInput },
    }
}

fn error_of(ev: &Event) -> (r: QmkError)
    ensures
        r == event_error(*ev),
{
    match ev {
        Event::Replied(Err(e)) => *e,
        _ => QmkError::new(ErrorKind::InvalidInput),
    }
}

/// The request of a command whose values fit the wire, as an action.
fn transact(cmd: Command) -> (r: Action)
    requires
        encodable(cmd),
    ensures
        transacts(r, cmd),
{
    Action::Transact(build_request(cmd))
}

/// The `(hue, saturation)` written by a color change: each component that
/// is not given keeps its current value.
pub open spec fn spec_color_to_write(hue: Option<u8>, saturation: Option<u8>, current: (u8, u8)) -> (
    u8,
    u8,
) {
    (
        match hue {
            Some(h) => h,
            None => current.0,
        },
        match saturation {
            Some(s) => s,
            None => current.1,
        },
    )
}

/// The `(hue, saturation)` written by a color change from the current color.
pub fn color_to_write(hue: Option<u8>, saturation: Option<u8>, current: (u8, u8)) -> (r: (u8, u8))
    ensures
        r == spec_color_to_write(hue, saturation, current),
{
    let h = match hue {
        Some(h) => h,
        None => current.0,
    };
    let s = match saturation {
        Some(s) => s,
        None => current.1,
    };
    (h, s)
}

#[derive(Clone, Copy, Debug, PartialEq, Eq, Structural)]
pub enum ColorPhase {
    Start,
    Reading,
    Writing,
    Done,
}

/// Sets the RGB color. When a component is not given, the current color
/// is read first, so that the write keeps that component as it was.
pub struct SetRgbColor {
    pub hue: Option<u8>,
    pub saturation: Option<u8>,
    pub phase: ColorPhase,
}

pub open spec fn set_color_step(s: SetRgbColor, ev: Event, t: SetRgbColor, a: Action) -> bool {
    &&& t.hue == s.hue
    &&& t.saturation == s.saturation
    &&& match (s.phase, ev) {
        (ColorPhase::Start, Event::Begin) => match (s.hue, s.saturation) {
            (Some(h), Some(sat)) => t.phase == ColorPhase::Writing && transacts(
                a,
                Command::SetRgbColor { hue: h, saturation: sat },
            ),
            _ => t.phase == ColorPhase::Reading && transacts(a, Command::GetRgbColor),
        },
        (ColorPhase::Reading, Event::Replied(Ok(b))) => if b@.len() == 4 {
            let c = spec_color_to_write(s.hue, s.saturation, (b@[2], b@[3]));
            t.phase == ColorPhase::Writing && transacts(
                a,
                Command::SetRgbColor { hue: c.0, saturation: c.1 },
            )
        } else {
            t.phase == ColorPhase::Done && fails_with(a, QmkError { kind: ErrorKind::Malformed })
        },
        (ColorPhase::Writing, Event::Replied(Ok(_))) => t.phase == ColorPhase::Done && succeeds(a),
        _ => t.phase == ColorPhase::Done && fails_with(a, event_error(ev)),
    }
}

impl SetRgbColor {
    pub fn new(hue: Option<u8>, saturation: Option<u8>) -> (r: SetRgbColor)
        ensures
            r.hue == hue,
            r.saturation == saturation,
            r.phase == ColorPhase::Start,
    {
        SetRgbColor { hue, saturation, phase: ColorPhase::Start }
    }

    pub fn step(&mut self, event: Event) -> (r: Action)
        ensures
            set_color_step(*old(self), event, *final(self), r),
    {
        match (self.phase, &event) {
            (ColorPhase::Start, Event::Begin) => {
                match (self.hue, self.saturation) {
                    (Some(h), Some(sat)) => {
                        self.phase = ColorPhase::Writing;
                        transact(Command::SetRgbColor { hue: h, saturation: sat })
                    },
                    _ => {
                        self.phase = ColorPhase::Reading;
                        transact(Command::GetRgbColor)
                    },
                }
            },
            (ColorPhase::Reading, Event::Replied(Ok(b))) => {
                match parse_rgb_color(b) {
                    Ok(current) => {
                        let c = color_to_write(self.hue, self.saturation, current);
                        self.phase = ColorPhase::Writing;
                        transact(Command::SetRgbColor { hue: c.0, saturation: c.1 })
                    },
                    Err(e) => {
                        self.phase = ColorPhase::Done;
                        Action::Finish(Err(e))
                    },
                }
            },
            (ColorPhase::Writing, Event::Replied(Ok(b))) => {
                self.phase = ColorPhase::Done;
                Action::Finish(Ok(b.clone()))
            },
            _ => {
                self.phase = ColorPhase::Done;
                Action::Finish(Err(error_of(&event)))
            },
        }
    }
}

/// Device indication pulses sent in one indication sequence.
pub const PULSE_COUNT: u8 = 6;

/// Pause after each device indication pulse, in milliseconds.
pub const PULSE_PAUSE_MS: u64 = 200;

pub open spec fn read_effect_cmd() -> Command {
    Command::CustomGetValue {
        channel: ViaChannelId::RgbMatrixChannel,
        value_id: spec_rgb_value_code(ViaRgbMatrixValue::Effect),
    }
}

pub open spec fn set_effect_cmd(effect: u8) -> Command {
    Command::CustomSetValue {
        channel: ViaChannelId::RgbMatrixChannel,
        value_id: spec_rgb_value_code(ViaRgbMatrixValue::Effect),
        data: effect,
    }
}

pub open spec fn pulse_cmd() -> Command {
    Command::SetKeyboardValue { id: ViaKeyboardValueId::DeviceIndication, value: 0 }
}

#[derive(Clone, Copy, Debug, PartialEq, Eq, Structural)]
pub enum IndicationPhase {
    Start,
    ReadingEffect,
    SettingSolid,
    Pulsing,
    Pausing,
    Restoring,
    Done,
}

/// Flashes the device indication: reads the RGB effect, switches to the
/// solid effect, sends the pulse `PULSE_COUNT` times with a pause after
/// each, and sets the effect that was read back. Once the effect was read,
/// every way out of the sequence goes through that restore, failures
/// included; the first failure is what the sequence finishes with.
#[derive(Clone, Copy, Debug)]
pub struct DeviceIndication {
    pub phase: IndicationPhase,
    pub original_effect: u8,
    pub pulses_sent: u8,
    pub failure: Option<QmkError>,
}

/// The phases in which the solid effect may have replaced the original one.
pub open spec fn effect_changed(phase: IndicationPhase) -> bool {
    phase == IndicationPhase::SettingSolid || phase == IndicationPhase::Pulsing || phase
        == IndicationPhase::Pausing
}

/// The event that lets the sequence go on from a phase of `effect_changed`.
pub open spec fn awaited(phase: IndicationPhase, ev: Event) -> bool {
    match phase {
        IndicationPhase::Pausing => ev is Paused,
        _ => ev matches Event::Replied(Ok(_)),
    }
}

impl DeviceIndication {
    pub open spec fn wf(self) -> bool {
        &&& self.pulses_sent <= PULSE_COUNT
        &&& self.phase == IndicationPhase::Pulsing ==> self.pulses_sent < PULSE_COUNT
        &&& self.phase == IndicationPhase::Pausing ==> self.pulses_sent >= 1
        &&& (self.phase != IndicationPhase::Restoring && self.phase != IndicationPhase::Done)
            ==> self.failure is None
    }
}

pub open spec fn indication_step(s: DeviceIndication, ev: Event, t: DeviceIndication, a: Action) -> bool {
    match s.phase {
        IndicationPhase::Start => if ev is Begin {
            t.phase == IndicationPhase::ReadingEffect && t.failure is None && transacts(
                a,
                read_effect_cmd(),
            )
        } else {
            t.phase == IndicationPhase::Done && fails_with(a, event_error(ev))
        },
        IndicationPhase::ReadingEffect => match ev {
            Event::Replied(Ok(b)) => if b@.len() == 3 {
                &&& t.phase == IndicationPhase::SettingSolid
                &&& t.original_effect == b@[2]
                &&& t.failure is None
                &&& transacts(a, set_effect_cmd(SOLID_EFFECT))
            } else {
                t.phase == IndicationPhase::Done && fails_with(
                    a,
                    QmkError { kind: ErrorKind::Malformed },
                )
            },
            _ => t.phase == IndicationPhase::Done && fails_with(a, event_error(ev)),
        },
        IndicationPhase::SettingSolid | IndicationPhase::Pulsing | IndicationPhase::Pausing => {
            &&& t.original_effect == s.original_effect
            &&& if !awaited(s.phase, ev) {
                &&& t.phase == IndicationPhase::Restoring
                &&& t.failure == Some(event_error(ev))
                &&& transacts(a, set_effect_cmd(s.original_effect))
            } else if s.phase == IndicationPhase::SettingSolid {
                t.phase == IndicationPhase::Pulsing && t.pulses_sent == 0 && t.failure is None
                    && transacts(a, pulse_cmd())
            } else if s.phase == IndicationPhase::Pulsing {
                &&& t.phase == IndicationPhase::Pausing
                &&& t.pulses_sent == s.pulses_sent + 1
                &&& t.failure is None
                &&& a == Action::Pause(PULSE_PAUSE_MS)
            } else if s.pulses_sent < PULSE_COUNT {
                t.phase == IndicationPhase::Pulsing && t.pulses_sent == s.pulses_sent
                    && t.failure is None && transacts(a, pulse_cmd())
            } else {
                t.phase == IndicationPhase::Restoring && t.failure is None && transacts(
                    a,
                    set_effect_cmd(s.original_effect),
                )
            }
        },
        IndicationPhase::Restoring => {
            &&& t.phase == IndicationPhase::Done
            &&& match s.failure {
                Some(e) => fails_with(a, e),
                None => match ev {
                    Event::Replied(Ok(_)) => succeeds(a),
                    _ => fails_with(a, event_error(ev)),
                },
            }
        },
        IndicationPhase::Done => t.phase == IndicationPhase::Done && fails_with(a, event_error(ev)),
    }
}

impl DeviceIndication {
    pub fn new() -> (r: DeviceIndication)
        ensures
            r.phase == IndicationPhase::Start,
            r.wf(),
    {
        DeviceIndication {
            phase: IndicationPhase::Start,
            original_effect: 0,
            pulses_sent: 0,
            failure: None,
        }
    }

    pub fn step(&mut self, event: Event) -> (r: Action)
        requires
            old(self).wf(),
        ensures
            final(self).wf(),
            indication_step(*old(self), event, *final(self), r),
    {
        let effect = ViaRgbMatrixValue::Effect.code();
        let rgb = ViaChannelId::RgbMatrixChannel;
        match self.phase {
            IndicationPhase::Start => {
                if let Event::Begin = event {
                    self.phase = IndicationPhase::ReadingEffect;
                    transact(Command::CustomGetValue { channel: rgb, value_id: effect })
                } else {
                    self.phase = IndicationPhase::Done;
                    Action::Finish(Err(error_of(&event)))
                }
            },
            IndicationPhase::ReadingEffect => {
                if let Event::Replied(Ok(b)) = &event {
                    match parse_custom_u8(b) {
                        Ok(e) => {
                            self.original_effect = e;
                            self.phase = IndicationPhase::SettingSolid;
                            transact(
                                Command::CustomSetValue {
                                    channel: rgb,
                                    value_id: effect,
                                    data: SOLID_EFFECT,
                                },
                            )
                        },
                        Err(e) => {
                            self.phase = IndicationPhase::Done;
                            Action::Finish(Err(e))
                        },
                    }
                } else {
                    self.phase = IndicationPhase::Done;
                    Action::Finish(Err(error_of(&event)))
                }
            },
            IndicationPhase::SettingSolid | IndicationPhase::Pulsing | IndicationPhase::Pausing => {
                let ok = match (self.phase, &event) {
                    (IndicationPhase::Pausing, Event::Paused) => true,
                    (IndicationPhase::Pausing, _) => false,
                    (_, Event::Replied(Ok(_))) => true,
                    _ => false,
                };
                let restore = Command::CustomSetValue {
                    channel: rgb,
                    value_id: effect,
                    data: self.original_effect,
                };
                if !ok {
                    self.failure = Some(error_of(&event));
                    self.phase = IndicationPhase::Restoring;
                    transact(restore)
                } else if self.phase == IndicationPhase::SettingSolid {
                    self.phase = IndicationPhase::Pulsing;
                    self.pulses_sent = 0;
                    transact(
                        Command::SetKeyboardValue { id: ViaKeyboardValueId::DeviceIndication, value: 0 },
                    )
                } else if self.phase == IndicationPhase::Pulsing {
                    self.phase = IndicationPhase::Pausing;
                    self.pulses_sent = self.pulses_sent + 1;
                    Action::Pause(PULSE_PAUSE_MS)
                } else if self.pulses_sent < PULSE_COUNT {
                    self.phase = IndicationPhase::Pulsing;
                    transact(
                        Command::SetKeyboardValue { id: ViaKeyboardValueId::DeviceIndication, value: 0 },
                    )
                } else {
                    self.phase = IndicationPhase::Restoring;
                    transact(restore)
                }
            },
            IndicationPhase::Restoring => {
                self.phase = IndicationPhase::Done;
                match self.failure {
                    Some(e) => Action::Finish(Err(e)),
                    None => match event {
                        Event::Replied(Ok(b)) => Action::Finish(Ok(b)),
                        _ => Action::Finish(Err(error_of(&event))),
                    },
                }
            },
            IndicationPhase::Done => Action::Finish(Err(error_of(&event))),
        }
    }
}

/// Once the solid effect may have replaced the original one, a step that
/// gets anything but the awaited success sends the original effect back,
/// and the step after that ends the sequence with the error of the
/// failing step, whatever the restore itself gave.
pub proof fn lemma_failure_restores_effect(
    s: DeviceIndication,
    ev: Event,
    t: DeviceIndication,
    a: Action,
    ev2: Event,
    u: DeviceIndication,
    a2: Action,
)
    requires
        s.wf(),
        effect_changed(s.phase),
        !awaited(s.phase, ev),
        indication_step(s, ev, t, a),
        indication_step(t, ev2, u, a2),
    ensures
        transacts(a, set_effect_cmd(s.original_effect)),
        fails_with(a2, event_error(ev)),
        u.phase == IndicationPhase::Done,
{
}

#[derive(Clone, Copy, Debug, PartialEq, Eq, Structural)]
pub enum GatePhase {
    Start,
    Querying,
    Sending,
    Done,
}

/// Sends a command only after the protocol version of the firmware shows
/// that it offers the command; otherwise the command is refused locally,
/// before anything is sent.
pub struct GatedCommand {
    pub command: Command,
    pub request: Request,
    pub phase: GatePhase,
}

pub open spec fn gated_step(s: GatedCommand, ev: Event, t: GatedCommand, a: Action) -> bool {
    &&& t.command == s.command
    &&& is_request_of(t.request, t.command)
    &&& match (s.phase, ev) {
        (GatePhase::Start, Event::Begin) => t.phase == GatePhase::Querying && transacts(
            a,
            Command::GetProtocolVersion,
        ),
        (GatePhase::Querying, Event::Replied(Ok(b))) => if b@.len() != 2 {
            t.phase == GatePhase::Done && fails_with(a, QmkError { kind: ErrorKind::Malformed })
        } else if b@[0] as int * 256 + b@[1] as int >= spec_min_protocol_version(s.command) {
            t.phase == GatePhase::Sending && transacts(a, s.command)
        } else {
            t.phase == GatePhase::Done && fails_with(
                a,
                QmkError { kind: ErrorKind::UnsupportedByFirmware },
            )
        },
        (GatePhase::Sending, Event::Replied(Ok(b))) => t.phase == GatePhase::Done && (a matches Action::Finish(Ok(x)) && x@ == b@),
        _ => t.phase == GatePhase::Done && fails_with(a, event_error(ev)),
    }
}

impl GatedCommand {
    /// The sequence for `command` under `profile`; refused as `encode`
    /// refuses the command.
    pub fn new(command: Command, profile: FirmwareProfile) -> (r: Result<GatedCommand, QmkError>)
        ensures
            r is Ok <==> encodable(command) && offered_by(command, profile),
            r matches Err(e) ==> (!encodable(command) ==> e.kind == ErrorKind::InvalidInput),
            r matches Err(e) ==> (encodable(command) ==> e.kind
                == ErrorKind::UnsupportedByFirmware),
            r matches Ok(g) ==> g.command == command && g.phase == GatePhase::Start
                && is_request_of(g.request, command),
    {
        match encode(command, profile) {
            Ok(request) => Ok(GatedCommand { command, request, phase: GatePhase::Start }),
            Err(e) => Err(e),
        }
    }

    pub fn step(&mut self, event: Event) -> (r: Action)
        requires
            is_request_of(old(self).request, old(self).command),
        ensures
            gated_step(*old(self), event, *final(self), r),
    {
        match (self.phase, &event) {
            (GatePhase::Start, Event::Begin) => {
                self.phase = GatePhase::Querying;
                transact(Command::GetProtocolVersion)
            },
            (GatePhase::Querying, Event::Replied(Ok(b))) => {
                match parse_protocol_version(b) {
                    Ok(version) => match check_supported(self.command, version) {
                        Ok(()) => {
                            self.phase = GatePhase::Sending;
                            Action::Transact(self.request.duplicate())
                        },
                        Err(e) => {
                            self.phase = GatePhase::Done;
                            Action::Finish(Err(e))
                        },
                    },
                    Err(e) => {
                        self.phase = GatePhase::Done;
                        Action::Finish(Err(e))
                    },
                }
            },
            (GatePhase::Sending, Event::Replied(Ok(b))) => {
                self.phase = GatePhase::Done;
                Action::Finish(Ok(b.clone()))
            },
            _ => {
                self.phase = GatePhase::Done;
                Action::Finish(Err(error_of(&event)))
            },
        }
    }
}

} // verus!
