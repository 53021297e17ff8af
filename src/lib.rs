//! Host side of the VIA raw-HID protocol spoken by QMK keyboard firmware:
//! report framing, the command codec, the multi-step command sequences,
//! and the selection of a device out of an enumeration snapshot.
pub mod discovery;
pub mod facade;
pub mod factory;
pub mod raw_hid;
pub mod via;

use vstd::prelude::*;
use vstd::string::StringExecFns;

verus! {

/// What went wrong in a command invocation.
#[derive(Clone, Copy, Debug, PartialEq, Eq, Structural)]
pub enum ErrorKind {
    /// The caller broke a contract: payload too long, value out of range, bad hex filter.
    InvalidInput,
    /// Writing the request report failed.
    Write,
    /// Reading the response report failed.
    Read,
    /// The response report was shorter than the transaction needs.
    Malformed,
    /// No response arrived within the bounded wait.
    Timeout,
    /// No device matched the selection.
    NotFound,
    /// More than one device matched the selection.
    AmbiguousSelection,
    /// The connected firmware does not offer the command.
    UnsupportedByFirmware,
}

/// The error of every fallible operation of this library.
#[derive(Clone, Copy, Debug, PartialEq, Eq, Structural)]
pub struct QmkError {
    pub kind: ErrorKind,
}

impl QmkError {
    pub fn new(kind: ErrorKind) -> (r: QmkError)
        ensures
            r.kind == kind,
    {
        QmkError { kind }
    }

}

/// The named colors of the RGB palette.
#[derive(Clone, Copy, Debug, PartialEq, Eq, Structural)]
pub enum Color {
    /// 0° and 255° => 0
    Red,
    /// Yellow (60°) => 43
    Yellow,
    /// Green (120°) => 85
    Green,
    /// Cyan (180°) => 125
    Cyan,
    /// Blue (240°) => 170
    Blue,
    /// Purple (300°) => 213
    Purple,
    /// Saturation 0
    White,
}

pub open spec fn spec_color_hue(color: Color) -> u8 {
    match color {
        Color::Red => 0,
        Color::Yellow => 43,
        Color::Green => 85,
        Color::Cyan => 125,
        Color::Blue => 170,
        Color::Purple => 213,
        Color::White => 0,
    }
}

/// The hue byte of a named color (white only needs saturation 0, its hue is 0).
pub fn color_as_hue(color: Color) -> (r: u8)
    ensures
        r == spec_color_hue(color),
{
    match color {
        Color::Red => 0,
        Color::Yellow => 43,
        Color::Green => 85,
        Color::Cyan => 125,
        Color::Blue => 170,
        Color::Purple => 213,
        Color::White => 0,
    }
}

pub open spec fn digit_char(d: nat) -> char
    recommends
        d < 10,
{
    if d == 0 {
        '0'
    } else if d == 1 {
        '1'
    } else if d == 2 {
        '2'
    } else if d == 3 {
        '3'
    } else if d == 4 {
        '4'
    } else if d == 5 {
        '5'
    } else if d == 6 {
        '6'
    } else if d == 7 {
        '7'
    } else if d == 8 {
        '8'
    } else {
        '9'
    }
}

/// The decimal digits of `n`, without leading zeros.
pub open spec fn decimal(n: nat) -> Seq<char>
    decreases n,
{
    if n < 10 {
        seq![digit_char(n)]
    } else {
        decimal(n / 10).push(digit_char(n % 10))
    }
}

/// `major.minor.patch` of a packed BCD release number: the major number is
/// the high byte, minor and patch are the two nibbles of the low byte.
pub open spec fn bcd_text(bcd: u16) -> Seq<char> {
    let major = (bcd / 256) as nat;
    let minor = ((bcd % 256) / 16) as nat;
    let patch = (bcd % 16) as nat;
    decimal(major) + seq!['.'] + decimal(minor) + seq!['.'] + decimal(patch)
}

fn digit_str(d: u8) -> (r: &'static str)
    requires
        d < 10,
    ensures
        r@ == seq![digit_char(d as nat)],
{
    proof {
        reveal_strlit("0");
        reveal_strlit("1");
        reveal_strlit("2");
        reveal_strlit("3");
        reveal_strlit("4");
        reveal_strlit("5");
        reveal_strlit("6");
        reveal_strlit("7");
        reveal_strlit("8");
        reveal_strlit("9");
    }
    match d {
        0 => "0",
        1 => "1",
        2 => "2",
        3 => "3",
        4 => "4",
        5 => "5",
        6 => "6",
        7 => "7",
        8 => "8",
        _ => "9",
    }
}

fn push_decimal(s: &mut String, n: u8)
    ensures
        final(s)@ == old(s)@ + decimal(n as nat),
{
    if n >= 100 {
        s.append(digit_str(n / 100));
        s.append(digit_str((n / 10) % 10));
        s.append(digit_str(n % 10));
        let tens = n / 10;
        assert(tens / 10 == n / 100);
        assert(decimal(tens as nat) == decimal((n / 100) as nat).push(digit_char((tens % 10) as nat)));
        assert(decimal(n as nat) == decimal(tens as nat).push(digit_char((n % 10) as nat)));
    } else if n >= 10 {
        s.append(digit_str(n / 10));
        s.append(digit_str(n % 10));
        assert(decimal(n as nat) == decimal((n / 10) as nat).push(digit_char((n % 10) as nat)));
    } else {
        s.append(digit_str(n));
    }
}

/// Formats a packed BCD firmware release number, `0x0213` as `2.1.3`.
pub fn format_bcd(bcd: u16) -> (r: String)
    ensures
        r@ == bcd_text(bcd),
{
    let major = (bcd / 256) as u8;
    let minor = ((bcd % 256) / 16) as u8;
    let patch = (bcd % 16) as u8;
    proof {
        reveal_strlit(".");
    }
    let mut s = String::new();
    push_decimal(&mut s, major);
    s.append(".");
    push_decimal(&mut s, minor);
    s.append(".");
    push_decimal(&mut s, patch);
    s
}

} // verus!
