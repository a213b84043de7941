use vstd::prelude::*;
use vstd::string::*;
use crate::decimal::{append_decimal, decimal_digits};
use crate::hardware::device::DeviceConnectionStatus;
use crate::hardware::usb::UsbDeviceInfo;
use crate::nzxt::transfer::hid_report;
use crate::text::same_text;

verus! {

/// NZXT's USB vendor id.
pub const NZXT_VID: u16 = 0x1E71;

/// The product ids of the Kraken coolers this program drives.
pub const KRAKEN_PIDS: [u16; 5] = [
    0x1707,  // Kraken X52/X62/X72
    0x2007,  // Kraken X53/X63/X73
    0x3008,  // Kraken Z53/Z63/Z73 (320x320 LCD)
    0x300c,  // Kraken 2023 (240x240 LCD)
    0x300e,  // Kraken Elite 2023 (640x640 LCD)
];

/// The model name shown for product id `pid`.
pub open spec fn model_name(pid: u16) -> Seq<char> {
    if pid == 0x1707 {
        "NZXT Kraken X62/X72"@
    } else if pid == 0x2007 {
        "NZXT Kraken X53/X63/X73"@
    } else if pid == 0x3008 {
        "NZXT Kraken Z73"@
    } else if pid == 0x300c {
        "NZXT Kraken 360"@
    } else if pid == 0x300e {
        "NZXT Kraken 2023 (Base)"@
    } else {
        "NZXT Kraken AIO"@
    }
}

pub fn identify_model(pid: u16) -> (name: &'static str)
    ensures
        name@ == model_name(pid),
{
    if pid == 0x1707 {
        "NZXT Kraken X62/X72"
    } else if pid == 0x2007 {
        "NZXT Kraken X53/X63/X73"
    } else if pid == 0x3008 {
        "NZXT Kraken Z73"
    } else if pid == 0x300c {
        "NZXT Kraken 360"
    } else if pid == 0x300e {
        "NZXT Kraken 2023 (Base)"
    } else {
        "NZXT Kraken AIO"
    }
}

/// Which of the matching interfaces to open: the first one on interface 1 (where composite
/// Krakens expose HID), or else the first one.
pub fn select_target_device(found: &Vec<UsbDeviceInfo>) -> (r: Option<usize>)
    ensures
        match r {
            Some(i) => {
                &&& 0 <= i < found@.len()
                &&& (found@[i as int].interface_number == 1 && forall|j: int| 0 <= j < i ==> found@[j].interface_number != 1)
                    || (i == 0 && forall|j: int| 0 <= j < found@.len() ==> found@[j].interface_number != 1)
            },
            None => found@.len() == 0,
        },
{
    let n = found.len();
    let mut i: usize = 0;
    while i < n
        invariant
            n == found@.len(),
            i <= n,
            forall|j: int| 0 <= j < i ==> found@[j].interface_number != 1,
        decreases n - i,
    {
        if found[i].interface_number == 1 {
            return Some(i);
        }
        i = i + 1;
    }
    if n > 0 {
        Some(0)
    } else {
        None
    }
}

/// The state a connection attempt leaves the cooler in: connected when a Kraken was found and
/// opened, and simulated otherwise (not found, or held by another program).
pub open spec fn connect_outcome(target_found: bool, opened: bool) -> DeviceConnectionStatus {
    if target_found && opened {
        DeviceConnectionStatus::Connected
    } else {
        DeviceConnectionStatus::Simulated
    }
}

pub fn status_after_connect(target_found: bool, opened: bool) -> (s: DeviceConnectionStatus)
    ensures
        s == connect_outcome(target_found, opened),
{
    if target_found && opened {
        DeviceConnectionStatus::Connected
    } else {
        DeviceConnectionStatus::Simulated
    }
}

/// Connecting never fails: without a usable Kraken the program falls back to simulated
/// telemetry, so a device counts as connected after every attempt.
pub proof fn lemma_connect_falls_back_to_simulation(target_found: bool, opened: bool)
    ensures
        connect_outcome(target_found, opened) != DeviceConnectionStatus::Disconnected,
        crate::hardware::device::counts_as_connected(connect_outcome(target_found, opened)),
{
}

/// The HID report that asks the cooler for its firmware version.
pub fn firmware_query_report() -> (r: Vec<u8>)
    ensures
        r@ == hid_report(seq![0x10u8, 0x01]),
{
    let mut r = vec![0u8; 64];
    r.set(0, 0x10);
    r.set(1, 0x01);
    assert(r@ =~= hid_report(seq![0x10u8, 0x01]));
    r
}

/// The text `a.b.c` with each part in decimal.
pub open spec fn version_text(a: u8, b: u8, c: u8) -> Seq<char> {
    decimal_digits(a as nat) + seq!['.'] + decimal_digits(b as nat) + seq!['.'] + decimal_digits(c as nat)
}

/// Whether the first `n` bytes read into `buf` are a firmware-version reply.
pub open spec fn is_firmware_reply(buf: Seq<u8>, n: usize) -> bool {
    n >= 20 && buf[0] == 0x11 && buf[1] == 0x01
}

/// The firmware version in a reply of `n` bytes to the firmware query, read from bytes 17 to 19
/// as `major.minor.patch`; none when the reply is not one.
pub fn parse_firmware_version(buf: &[u8; 64], n: usize) -> (v: Option<String>)
    ensures
        is_firmware_reply(buf@, n) ==> (v matches Some(s) && s@ == version_text(buf@[17], buf@[18], buf@[19])),
        !is_firmware_reply(buf@, n) ==> v is None,
{
    if n >= 20 && buf[0] == 0x11 && buf[1] == 0x01 {
        proof { reveal_strlit("."); }
        let mut text = String::new();
        append_decimal(&mut text, buf[17] as u32);
        text.append(".");
        append_decimal(&mut text, buf[18] as u32);
        text.append(".");
        append_decimal(&mut text, buf[19] as u32);
        assert(text@ =~= version_text(buf@[17], buf@[18], buf@[19]));
        Some(text)
    } else {
        None
    }
}

/// Liquid temperature, pump and fan speeds from the cooler's status report; the liquid
/// temperature is `liquid_whole + liquid_tenths / 10` degrees Celsius.
#[derive(Debug, Clone, Copy, PartialEq, Eq, Structural)]
pub struct KrakenReport {
    pub liquid_whole: u8,
    pub liquid_tenths: u8,
    pub pump_rpm: u16,
    pub fan_rpm: u16,
}

/// Whether the first `n` bytes read into `buf` are a status report.
pub open spec fn is_status_report(buf: Seq<u8>, n: usize) -> bool {
    n >= 25 && buf[0] == 0x75 && buf[1] == 0x02
}

/// The little-endian `u16` in bytes `lo` and `hi`.
pub open spec fn le_u16(lo: u8, hi: u8) -> u16 {
    (lo as nat + hi as nat * 256) as u16
}

/// The readings of a status report of `n` bytes: liquid temperature from bytes 15 and 16,
/// pump speed from bytes 17 and 18, fan speed from bytes 23 and 24. Without a report the
/// readings are 32.0 °C, 2200 RPM and 750 RPM.
pub fn parse_status_report(buf: &[u8; 64], n: usize) -> (r: KrakenReport)
    ensures
        r == if is_status_report(buf@, n) {
            KrakenReport {
                liquid_whole: buf@[15],
                liquid_tenths: buf@[16],
                pump_rpm: le_u16(buf@[17], buf@[18]),
                fan_rpm: le_u16(buf@[23], buf@[24]),
            }
        } else {
            KrakenReport { liquid_whole: 32, liquid_tenths: 0, pump_rpm: 2200, fan_rpm: 750 }
        },
{
    if n >= 25 && buf[0] == 0x75 && buf[1] == 0x02 {
        KrakenReport {
            liquid_whole: buf[15],
            liquid_tenths: buf[16],
            pump_rpm: (buf[17] as u16) + (buf[18] as u16) * 256,
            fan_rpm: (buf[23] as u16) + (buf[24] as u16) * 256,
        }
    } else {
        KrakenReport { liquid_whole: 32, liquid_tenths: 0, pump_rpm: 2200, fan_rpm: 750 }
    }
}

/// The firmware version a connected cooler reports with its telemetry: the one read when it
/// was connected, or `2.0.0` when none could be read (the stored text is then `Unknown`).
pub fn reported_firmware_version(stored: &str) -> (v: String)
    ensures
        v@ == if stored@ == "Unknown"@ { "2.0.0"@ } else { stored@ },
{
    if same_text(stored, "Unknown") {
        String::from_str("2.0.0")
    } else {
        String::from_str(stored)
    }
}

/// The serial number a connected cooler reports: the one its USB descriptor gave, or a fixed
/// placeholder when it gave none.
pub fn reported_serial_number(serial: Option<&str>) -> (s: String)
    ensures
        s@ == match serial {
            Some(t) => t@,
            None => "NZXT-KRK-360-SN001"@,
        },
{
    match serial {
        Some(t) => String::from_str(t),
        None => String::from_str("NZXT-KRK-360-SN001"),
    }
}

/// Only a reply that starts 0x11, 0x01 and has at least 20 bytes carries a firmware version; for
/// any other reply, whatever its second byte, the version stays unknown. `v` is what
/// `parse_firmware_version` returns for `buf` and `n`.
pub proof fn lemma_firmware_reply_is_recognised(buf: Seq<u8>, n: usize, v: Option<String>)
    requires
        buf.len() == 64,
        is_firmware_reply(buf, n) ==> (v matches Some(s) && s@ == version_text(buf[17], buf[18], buf[19])),
        !is_firmware_reply(buf, n) ==> v is None,
    ensures
        (n < 20 || buf[0] != 0x11 || buf[1] != 0x01) ==> v is None,
        (n >= 20 && buf[0] == 0x11 && buf[1] == 0x01) ==> v is Some,
        v matches Some(s) ==> s@ == decimal_digits(buf[17] as nat) + seq!['.'] + decimal_digits(buf[18] as nat)
            + seq!['.'] + decimal_digits(buf[19] as nat),
{
}

/// A status report is decoded only when it starts 0x75, 0x02 and has at least 25 bytes: the
/// liquid temperature comes from bytes 15 (degrees) and 16 (tenths), the pump speed from bytes
/// 17 and 18 and the fan speed from bytes 23 and 24, low byte first. Any other reply, whatever
/// its length, gives the fallback readings of 32.0 °C, 2200 RPM and 750 RPM. `r` is what
/// `parse_status_report` returns for `buf` and `n`.
pub proof fn lemma_status_report_fields(buf: Seq<u8>, n: usize, r: KrakenReport)
    requires
        buf.len() == 64,
        r == if is_status_report(buf, n) {
            KrakenReport {
                liquid_whole: buf[15],
                liquid_tenths: buf[16],
                pump_rpm: le_u16(buf[17], buf[18]),
                fan_rpm: le_u16(buf[23], buf[24]),
            }
        } else {
            KrakenReport { liquid_whole: 32, liquid_tenths: 0, pump_rpm: 2200, fan_rpm: 750 }
        },
    ensures
        (n < 25 || buf[0] != 0x75 || buf[1] != 0x02) ==> r.liquid_whole == 32 && r.liquid_tenths == 0
            && r.pump_rpm == 2200 && r.fan_rpm == 750,
        (n >= 25 && buf[0] == 0x75 && buf[1] == 0x02) ==> {
            &&& r.liquid_whole == buf[15]
            &&& r.liquid_tenths == buf[16]
            &&& r.pump_rpm == buf[17] + 256 * buf[18]
            &&& r.fan_rpm == buf[23] + 256 * buf[24]
        },
{
}

} // verus!
