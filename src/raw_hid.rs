//! The raw HID report: framing of requests, unframing of responses, the
//! decisions of one write/read transaction, and the console stream.
use crate::{ErrorKind, QmkError};
use vstd::prelude::*;
use vstd::string::StringExecFns;

verus! {

/// Size of every report exchanged with the device.
pub const RAW_HID_BUFFER_SIZE: usize = 32;

/// Byte written into the unused tail of a request. The peer never reads it.
pub const PADDING_BYTE: u8 = 0xFE;

pub const RAW_USAGE_PAGE: u16 = 0xFF60;

pub const CONSOLE_USAGE_PAGE: u16 = 0xFF31;

/// Generic Desktop
pub const G_DESK_USAGE_PAGE: u16 = 0x01;

pub const CONSUMER_USAGE_PAGE: u16 = 0x0C;

/// Longest payload that fits a report after the report id and the opcode.
pub const MAX_PAYLOAD_LEN: usize = 30;

/// Pause between two console reads, in milliseconds.
pub const CONSOLE_PAUSE_MS: u64 = 100;

/// Pause before reading again from a console that went away, in milliseconds.
pub const RECONNECT_PAUSE_MS: u64 = 200;

/// The request report: report id 0, the opcode, the payload, then padding.
pub open spec fn spec_frame(opcode: u8, payload: Seq<u8>) -> Seq<u8> {
    Seq::new(
        RAW_HID_BUFFER_SIZE as nat,
        |i: int|
            if i == 0 {
                0u8
            } else if i == 1 {
                opcode
            } else if i < 2 + payload.len() {
                payload[i - 2]
            } else {
                PADDING_BYTE
            },
    )
}

/// Builds the request report for `opcode` and `payload`.
pub fn frame(opcode: u8, payload: &[u8]) -> (r: Result<Vec<u8>, QmkError>)
    ensures
        r is Err <==> payload@.len() > MAX_PAYLOAD_LEN,
        r matches Err(e) ==> e.kind == ErrorKind::InvalidInput,
        r matches Ok(v) ==> {
            &&& v@ == spec_frame(opcode, payload@)
            &&& v@.len() == RAW_HID_BUFFER_SIZE
            &&& v@[0] == 0
            &&& v@[1] == opcode
            &&& v@.subrange(2, 2 + payload@.len() as int) == payload@
        },
{
    if payload.len() > MAX_PAYLOAD_LEN {
        return Err(QmkError::new(ErrorKind::InvalidInput));
    }
    let mut v: Vec<u8> = Vec::new();
    v.push(0);
    v.push(opcode);
    let mut i: usize = 0;
    while i < payload.len()
        invariant
            payload@.len() <= MAX_PAYLOAD_LEN,
            i <= payload@.len(),
            v@.len() == 2 + i,
            forall|k: int| 0 <= k < v@.len() ==> v@[k] == spec_frame(opcode, payload@)[k],
        decreases payload@.len() - i,
    {
        v.push(payload[i]);
        i += 1;
    }
    while v.len() < RAW_HID_BUFFER_SIZE
        invariant
            payload@.len() <= MAX_PAYLOAD_LEN,
            2 + payload@.len() <= v@.len() <= RAW_HID_BUFFER_SIZE,
            forall|k: int| 0 <= k < v@.len() ==> v@[k] == spec_frame(opcode, payload@)[k],
        decreases RAW_HID_BUFFER_SIZE - v@.len(),
    {
        v.push(PADDING_BYTE);
    }
    assert(v@ =~= spec_frame(opcode, payload@));
    assert(v@.subrange(2, 2 + payload@.len() as int) =~= payload@);
    Ok(v)
}

/// Takes `expected_len` bytes of a response report, after its first byte.
pub fn unframe(raw: &[u8], expected_len: usize) -> (r: Result<Vec<u8>, QmkError>)
    ensures
        r is Err <==> raw@.len() < 1 + expected_len,
        r matches Err(e) ==> e.kind == ErrorKind::Malformed,
        r matches Ok(v) ==> v@ == raw@.subrange(1, 1 + expected_len),
{
    if raw.len() < 1 || raw.len() - 1 < expected_len {
        return Err(QmkError::new(ErrorKind::Malformed));
    }
    let mut v: Vec<u8> = Vec::new();
    let mut i: usize = 0;
    while i < expected_len
        invariant
            1 + expected_len <= raw@.len(),
            i <= expected_len,
            v@ == raw@.subrange(1, 1 + i),
        decreases expected_len - i,
    {
        v.push(raw[i + 1]);
        i += 1;
        assert(v@ =~= raw@.subrange(1, 1 + i));
    }
    Ok(v)
}

/// One transaction on the wire: the request report to write and how many
/// response bytes to read back (0: nothing is read).
#[derive(Debug)]
pub struct Request {
    pub opcode: u8,
    pub payload: Vec<u8>,
    pub response_len: usize,
}

impl Request {
    /// A copy of the request.
    pub fn duplicate(&self) -> (r: Request)
        ensures
            r.opcode == self.opcode,
            r.payload@ == self.payload@,
            r.response_len == self.response_len,
    {
        let mut payload: Vec<u8> = Vec::new();
        let mut i: usize = 0;
        while i < self.payload.len()
            invariant
                i <= self.payload@.len(),
                payload@ == self.payload@.subrange(0, i as int),
            decreases self.payload@.len() - i,
        {
            payload.push(self.payload[i]);
            i += 1;
            assert(payload@ =~= self.payload@.subrange(0, i as int));
        }
        assert(payload@ =~= self.payload@);
        Request { opcode: self.opcode, payload, response_len: self.response_len }
    }
}

/// What came of reading one response report.
pub enum ReadOutcome {
    /// The read returned `count` bytes into `data`; 0 means that the wait ran out.
    Received { data: Vec<u8>, count: usize },
    /// The read failed.
    Failed,
}

/// Decides what follows the write of a request: an error when the write
/// failed, else whether a response must be read (`Ok(true)`) or the
/// transaction is complete with an empty result (`Ok(false)`).
pub fn after_write(req: &Request, written: bool) -> (r: Result<bool, QmkError>)
    ensures
        r is Err <==> !written,
        r matches Err(e) ==> e.kind == ErrorKind::Write,
        r matches Ok(read) ==> read == (req.response_len > 0),
{
    if !written {
        Err(QmkError::new(ErrorKind::Write))
    } else {
        Ok(req.response_len > 0)
    }
}

/// The response bytes of a transaction, out of what the single read gave.
pub fn after_read(req: &Request, outcome: ReadOutcome) -> (r: Result<Vec<u8>, QmkError>)
    ensures
        outcome is Failed ==> (r matches Err(e) && e.kind == ErrorKind::Read),
        outcome matches ReadOutcome::Received { data, count } ==> {
            &&& count == 0 ==> (r matches Err(e) && e.kind == ErrorKind::Timeout)
            &&& (count > 0 && (count > data@.len() || count < 1 + req.response_len)) ==> (r matches Err(e)
                && e.kind == ErrorKind::Malformed)
            &&& (count > 0 && count <= data@.len() && count >= 1 + req.response_len) ==> (r matches Ok(v)
                && v@ == data@.subrange(1, 1 + req.response_len))
        },
{
    match outcome {
        ReadOutcome::Failed => Err(QmkError::new(ErrorKind::Read)),
        ReadOutcome::Received { data, count } => {
            if count == 0 {
                Err(QmkError::new(ErrorKind::Timeout))
            } else if count > data.len() {
                Err(QmkError::new(ErrorKind::Malformed))
            } else {
                let received = vstd::slice::slice_subrange(data.as_slice(), 0, count);
                unframe(received, req.response_len)
            }
        },
    }
}

/// The text of bytes decoded as UTF-8, each invalid sequence replaced by U+FFFD.
pub uninterp spec fn utf8_lossy(b: Seq<u8>) -> Seq<char>;

pub open spec fn is_ascii_bytes(b: Seq<u8>) -> bool {
    forall|i: int| 0 <= i < b.len() ==> b[i] < 128
}

pub open spec fn ascii_chars(b: Seq<u8>) -> Seq<char> {
    b.map_values(|x: u8| x as char)
}

/// Relies on `String::from_utf8_lossy`: valid UTF-8 (ASCII in particular)
/// is kept as it is, other sequences are replaced.
#[verifier::external_body]
fn text_from_bytes(b: &[u8]) -> (r: String)
    ensures
        r@ == utf8_lossy(b@),
        is_ascii_bytes(b@) ==> r@ == ascii_chars(b@),
{
    String::from_utf8_lossy(b).into_owned()
}

/// What the console stream observed.
pub enum ConsoleEvent {
    /// A read returned `count` bytes into `data`; 0 means that nothing arrived in time.
    Received { data: Vec<u8>, count: usize },
    /// A read failed with this message.
    Failed { message: String },
    /// The caller asked the stream to stop.
    Cancelled,
}

/// What the console stream hands to its reader.
pub enum ConsoleOutput {
    /// Text that the device printed.
    Text(String),
    /// Nothing arrived.
    Idle,
    /// The device went away; the stream waits and reads again.
    Disconnected,
    /// A read failed for another reason, with its message; the stream goes on.
    ReadError(String),
    /// The stream has ended.
    Stopped,
}

/// One step of the console stream: what to show, then how long to wait
/// before the next read.
pub struct ConsoleStep {
    pub output: ConsoleOutput,
    pub pause_ms: u64,
}

/// The message hidapi gives for a read from a device that went away.
pub open spec fn disconnect_message() -> Seq<char> {
    "Input/output error"@
}

/// The console stream. Once cancelled it stays stopped: a new stream is
/// needed to read again.
pub struct Console {
    pub stopped: bool,
}

impl Console {
    pub fn new() -> (r: Console)
        ensures
            !r.stopped,
    {
        Console { stopped: false }
    }

    pub fn step(&mut self, event: ConsoleEvent) -> (r: ConsoleStep)
        ensures
            final(self).stopped == (old(self).stopped || event is Cancelled),
            final(self).stopped ==> r.output is Stopped && r.pause_ms == 0,
            !final(self).stopped ==> match event {
                ConsoleEvent::Received { data, count } => {
                    &&& count == 0 ==> r.output is Idle && r.pause_ms == 0
                    &&& count > data@.len() ==> r.output is ReadError && r.pause_ms
                        == CONSOLE_PAUSE_MS
                    &&& 0 < count <= data@.len() ==> (r.output matches ConsoleOutput::Text(t)
                        && t@ == utf8_lossy(data@.subrange(0, count as int)) && r.pause_ms
                        == CONSOLE_PAUSE_MS)
                },
                ConsoleEvent::Failed { message } => {
                    &&& message@ == disconnect_message() ==> r.output is Disconnected
                        && r.pause_ms == RECONNECT_PAUSE_MS
                    &&& message@ != disconnect_message() ==> (r.output matches ConsoleOutput::ReadError(m)
                        && m@ == message@ && r.pause_ms == CONSOLE_PAUSE_MS)
                },
                ConsoleEvent::Cancelled => false,
            },
    {
        if self.stopped {
            return ConsoleStep { output: ConsoleOutput::Stopped, pause_ms: 0 };
        }
        match event {
            ConsoleEvent::Cancelled => {
                self.stopped = true;
                ConsoleStep { output: ConsoleOutput::Stopped, pause_ms: 0 }
            },
            ConsoleEvent::Received { data, count } => {
                if count == 0 {
                    ConsoleStep { output: ConsoleOutput::Idle, pause_ms: 0 }
                } else if count > data.len() {
                    proof {
                        reveal_strlit("short read");
                    }
                    ConsoleStep {
                        output: ConsoleOutput::ReadError(String::from_str("short read")),
                        pause_ms: CONSOLE_PAUSE_MS,
                    }
                } else {
                    let received = vstd::slice::slice_subrange(data.as_slice(), 0, count);
                    ConsoleStep {
                        output: ConsoleOutput::Text(text_from_bytes(received)),
                        pause_ms: CONSOLE_PAUSE_MS,
                    }
                }
            },
            ConsoleEvent::Failed { message } => {
                let expected = String::from_str("Input/output error");
                if message == expected {
                    ConsoleStep { output: ConsoleOutput::Disconnected, pause_ms: RECONNECT_PAUSE_MS }
                } else {
                    ConsoleStep { output: ConsoleOutput::ReadError(message), pause_ms: CONSOLE_PAUSE_MS }
                }
            },
        }
    }
}

} // verus!
