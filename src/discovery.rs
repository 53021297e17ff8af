//! Classification of an enumeration snapshot of HID interfaces into the
//! ones that take commands and the ones that carry the console, and the
//! selection of a single device out of them.
use crate::raw_hid::{CONSOLE_USAGE_PAGE, RAW_USAGE_PAGE};
use crate::{ErrorKind, QmkError};
use vstd::prelude::*;
use vstd::string::StrSliceExecFns;

verus! {

/// Interface number on which the firmware takes commands.
pub const QMK_INTERFACE: i32 = 0x01;

/// What the classification reads of one enumerated HID interface.
#[derive(Clone, Copy, Debug, PartialEq, Eq, Structural)]
pub struct DeviceRecord {
    pub vendor_id: u16,
    pub product_id: u16,
    pub interface_number: i32,
    pub usage_page: u16,
}

/// The classes of the discovery result.
#[derive(Clone, Copy, Debug, PartialEq, Eq, Structural)]
pub enum DeviceClass {
    /// Raw usage page on the command interface.
    CommandCapable,
    /// Console usage page.
    ConsoleCapable,
    /// Raw usage page on another interface: a configuration inconsistency.
    Misconfigured,
}

pub open spec fn passes_filter(d: DeviceRecord, vid: Option<u16>, pid: Option<u16>) -> bool {
    &&& vid matches Some(v) ==> d.vendor_id == v
    &&& pid matches Some(p) ==> d.product_id == p
}

pub open spec fn has_class(d: DeviceRecord, class: DeviceClass) -> bool {
    match class {
        DeviceClass::CommandCapable => d.usage_page == RAW_USAGE_PAGE && d.interface_number
            == QMK_INTERFACE,
        DeviceClass::ConsoleCapable => d.usage_page == CONSOLE_USAGE_PAGE,
        DeviceClass::Misconfigured => d.usage_page == RAW_USAGE_PAGE && d.interface_number
            != QMK_INTERFACE,
    }
}

pub open spec fn selected(d: DeviceRecord, class: DeviceClass, vid: Option<u16>, pid: Option<u16>) -> bool {
    has_class(d, class) && passes_filter(d, vid, pid)
}

/// The positions, in enumeration order, of the devices of `class` that pass the filters.
pub open spec fn positions(
    devs: Seq<DeviceRecord>,
    class: DeviceClass,
    vid: Option<u16>,
    pid: Option<u16>,
) -> Seq<usize>
    decreases devs.len(),
{
    if devs.len() == 0 {
        seq![]
    } else {
        let prev = positions(devs.drop_last(), class, vid, pid);
        if selected(devs.last(), class, vid, pid) {
            prev.push((devs.len() - 1) as usize)
        } else {
            prev
        }
    }
}

/// The result of discovery: positions in the enumeration snapshot.
pub struct Found {
    pub raw_usages: Vec<usize>,
    pub console_usages: Vec<usize>,
    /// Raw-usage devices on the wrong interface, to be reported.
    pub misconfigured: Vec<usize>,
}

/// The class of a device, if it has one.
pub fn classify(d: &DeviceRecord) -> (r: Option<DeviceClass>)
    ensures
        r matches Some(c) ==> has_class(*d, c),
        r is None ==> forall|c: DeviceClass| !has_class(*d, c),
{
    if d.usage_page == RAW_USAGE_PAGE {
        if d.interface_number == QMK_INTERFACE {
            Some(DeviceClass::CommandCapable)
        } else {
            Some(DeviceClass::Misconfigured)
        }
    } else if d.usage_page == CONSOLE_USAGE_PAGE {
        Some(DeviceClass::ConsoleCapable)
    } else {
        None
    }
}

/// Sorts the enumerated devices into the discovery classes, keeping
/// enumeration order and only the devices that pass the filters.
pub fn find_devices(devices: &Vec<DeviceRecord>, vid: Option<u16>, pid: Option<u16>) -> (r: Found)
    ensures
        r.raw_usages@ == positions(devices@, DeviceClass::CommandCapable, vid, pid),
        r.console_usages@ == positions(devices@, DeviceClass::ConsoleCapable, vid, pid),
        r.misconfigured@ == positions(devices@, DeviceClass::Misconfigured, vid, pid),
{
    let mut found = Found { raw_usages: Vec::new(), console_usages: Vec::new(), misconfigured: Vec::new() };
    let mut i: usize = 0;
    while i < devices.len()
        invariant
            i <= devices@.len(),
            found.raw_usages@ == positions(devices@.take(i as int), DeviceClass::CommandCapable, vid, pid),
            found.console_usages@ == positions(devices@.take(i as int), DeviceClass::ConsoleCapable, vid, pid),
            found.misconfigured@ == positions(devices@.take(i as int), DeviceClass::Misconfigured, vid, pid),
        decreases devices@.len() - i,
    {
        let d = devices[i];
        let ghost before = devices@.take(i as int);
        let ghost after = devices@.take(i + 1);
        assert(after.drop_last() =~= before);
        assert(after.last() == d);
        let vid_ok = match vid {
            Some(v) => d.vendor_id == v,
            None => true,
        };
        let pid_ok = match pid {
            Some(p) => d.product_id == p,
            None => true,
        };
        if vid_ok && pid_ok {
            match classify(&d) {
                Some(DeviceClass::CommandCapable) => found.raw_usages.push(i),
                Some(DeviceClass::ConsoleCapable) => found.console_usages.push(i),
                Some(DeviceClass::Misconfigured) => found.misconfigured.push(i),
                None => {},
            }
        }
        i += 1;
    }
    assert(devices@.take(devices@.len() as int) =~= devices@);
    found
}

/// Each position of a class holds a device of that class that passes the
/// filters, and each such device is listed.
proof fn lemma_positions(devs: Seq<DeviceRecord>, class: DeviceClass, vid: Option<u16>, pid: Option<u16>)
    requires
        devs.len() <= usize::MAX,
    ensures
        forall|j: int|
            0 <= j < positions(devs, class, vid, pid).len() ==> {
                let k = #[trigger] positions(devs, class, vid, pid)[j];
                k < devs.len() && selected(devs[k as int], class, vid, pid)
            },
        forall|k: int|
            0 <= k < devs.len() && selected(devs[k], class, vid, pid) ==> positions(
                devs,
                class,
                vid,
                pid,
            ).contains(k as usize),
    decreases devs.len(),
{
    if devs.len() > 0 {
        let prev = devs.drop_last();
        lemma_positions(prev, class, vid, pid);
        let p = positions(prev, class, vid, pid);
        assert forall|k: int|
            0 <= k < devs.len() && selected(devs[k], class, vid, pid) implies positions(
                devs,
                class,
                vid,
                pid,
            ).contains(k as usize) by {
            if k < devs.len() - 1 {
                assert(prev[k] == devs[k]);
                let j = choose|j: int| 0 <= j < p.len() && p[j] == k as usize;
                if selected(devs.last(), class, vid, pid) {
                    assert(p.push((devs.len() - 1) as usize)[j] == k as usize);
                }
            } else {
                assert(p.push((devs.len() - 1) as usize).last() == k as usize);
            }
        }
    }
}

/// Discovery keeps exactly the command-capable and console-capable
/// interfaces that pass the filters: raw usage page on the command
/// interface, and console usage page. Devices of any other usage page are
/// in neither list, wherever they stand in the enumeration.
pub proof fn lemma_discovery_classes(devs: Seq<DeviceRecord>, vid: Option<u16>, pid: Option<u16>)
    requires
        devs.len() <= usize::MAX,
    ensures
        forall|k: int|
            0 <= k < devs.len() ==> (positions(devs, DeviceClass::CommandCapable, vid, pid).contains(
                k as usize,
            ) <==> (devs[k].usage_page == RAW_USAGE_PAGE && devs[k].interface_number
                == QMK_INTERFACE && passes_filter(devs[k], vid, pid))),
        forall|k: int|
            0 <= k < devs.len() ==> (positions(devs, DeviceClass::ConsoleCapable, vid, pid).contains(
                k as usize,
            ) <==> (devs[k].usage_page == CONSOLE_USAGE_PAGE && passes_filter(devs[k], vid, pid))),
        forall|k: usize|
            #[trigger] positions(devs, DeviceClass::CommandCapable, vid, pid).contains(k) ==> k
                < devs.len() && devs[k as int].usage_page == RAW_USAGE_PAGE,
        forall|k: usize|
            #[trigger] positions(devs, DeviceClass::ConsoleCapable, vid, pid).contains(k) ==> k
                < devs.len() && devs[k as int].usage_page == CONSOLE_USAGE_PAGE,
{
    lemma_positions(devs, DeviceClass::CommandCapable, vid, pid);
    lemma_positions(devs, DeviceClass::ConsoleCapable, vid, pid);
}

/// Picks the one device of a discovery list: none is `NotFound`, more than
/// one is `AmbiguousSelection`.
pub fn select_device(candidates: &Vec<usize>) -> (r: Result<usize, QmkError>)
    ensures
        candidates@.len() == 1 <==> r is Ok,
        r matches Ok(k) ==> k == candidates@[0],
        candidates@.len() == 0 ==> (r matches Err(e) && e.kind == ErrorKind::NotFound),
        candidates@.len() > 1 ==> (r matches Err(e) && e.kind == ErrorKind::AmbiguousSelection),
{
    if candidates.len() == 0 {
        Err(QmkError::new(ErrorKind::NotFound))
    } else if candidates.len() == 1 {
        Ok(candidates[0])
    } else {
        Err(QmkError::new(ErrorKind::AmbiguousSelection))
    }
}

/// Value of a hex digit, either case; -1 for any other character.
pub open spec fn hex_digit(c: char) -> int {
    if '0' <= c && c <= '9' {
        c as int - '0' as int
    } else if 'a' <= c && c <= 'f' {
        c as int - 'a' as int + 10
    } else if 'A' <= c && c <= 'F' {
        c as int - 'A' as int + 10
    } else {
        -1
    }
}

pub open spec fn all_hex(s: Seq<char>) -> bool {
    forall|i: int| 0 <= i < s.len() ==> hex_digit(#[trigger] s[i]) >= 0
}

/// The number that a string of hex digits writes.
pub open spec fn hex_value(s: Seq<char>) -> int
    decreases s.len(),
{
    if s.len() == 0 {
        0
    } else {
        hex_value(s.drop_last()) * 16 + hex_digit(s.last())
    }
}

fn digit_value(c: char) -> (r: Option<u32>)
    ensures
        r matches Some(v) ==> hex_digit(c) >= 0 && v == hex_digit(c),
        r is None ==> hex_digit(c) < 0,
{
    if '0' <= c && c <= '9' {
        Some(c as u32 - '0' as u32)
    } else if 'a' <= c && c <= 'f' {
        Some(c as u32 - 'a' as u32 + 10)
    } else if 'A' <= c && c <= 'F' {
        Some(c as u32 - 'A' as u32 + 10)
    } else {
        None
    }
}

/// A vendor or product id written in hex digits of either case.
pub fn parse_hex_id(s: &str) -> (r: Result<u16, QmkError>)
    ensures
        r is Ok <==> s@.len() > 0 && all_hex(s@) && hex_value(s@) <= u16::MAX,
        r matches Ok(v) ==> v == hex_value(s@),
        r matches Err(e) ==> e.kind == ErrorKind::InvalidInput,
{
    let n = s.unicode_len();
    if n == 0 {
        return Err(QmkError::new(ErrorKind::InvalidInput));
    }
    let mut acc: u32 = 0;
    let mut too_large = false;
    let mut i: usize = 0;
    while i < n
        invariant
            n == s@.len(),
            i <= n,
            all_hex(s@.take(i as int)),
            hex_value(s@.take(i as int)) >= 0,
            !too_large ==> acc == hex_value(s@.take(i as int)) && acc <= u16::MAX,
            too_large ==> hex_value(s@.take(i as int)) > u16::MAX,
        decreases n - i,
    {
        let c = s.get_char(i);
        let ghost prefix = s@.take(i as int);
        let ghost next = s@.take(i + 1);
        assert(next.drop_last() =~= prefix);
        assert(next.last() == c);
        match digit_value(c) {
            None => {
                assert(!all_hex(s@)) by {
                    assert(hex_digit(s@[i as int]) < 0);
                }
                return Err(QmkError::new(ErrorKind::InvalidInput));
            },
            Some(d) => {
                if !too_large {
                    acc = acc * 16 + d;
                    if acc > 0xFFFF {
                        too_large = true;
                    }
                }
            },
        }
        i += 1;
        assert forall|k: int| 0 <= k < next.len() implies hex_digit(#[trigger] next[k]) >= 0 by {
            if k < i - 1 {
                assert(next[k] == prefix[k]);
            }
        }
    }
    assert(s@.take(n as int) =~= s@);
    if too_large {
        Err(QmkError::new(ErrorKind::InvalidInput))
    } else {
        Ok(acc as u16)
    }
}

} // verus!
