use vstd::prelude::*;
use vstd::string::*;
use crate::hardware::device::DeviceConnectionStatus;
use crate::nzxt::lcd::{infographic_name, InfographicType};
use crate::windows::tray::WM_TRAYICON;

verus! {

/// The window messages the main window handles (values from WinUser.h).
pub const WM_DESTROY: u32 = 0x0002;
pub const WM_SIZE: u32 = 0x0005;
pub const WM_PAINT: u32 = 0x000F;
pub const WM_CLOSE: u32 = 0x0010;
pub const WM_GETMINMAXINFO: u32 = 0x0024;
pub const WM_LBUTTONUP: u32 = 0x0202;
pub const WM_LBUTTONDBLCLK: u32 = 0x0203;
pub const WM_DPICHANGED: u32 = 0x02E0;
/// First message number free for the application's own use.
pub const WM_APP: u32 = 0x8000;
/// Posted by the worker threads when new telemetry is ready to be painted.
pub const WM_APP_UPDATE: u32 = WM_APP + 2;

/// The low 16 bits of a message parameter (`LOWORD`).
pub open spec fn low_word(v: u64) -> u32 {
    (v & 0xffff) as u32
}

/// Bits 16 to 31 of a message parameter (`HIWORD`).
pub open spec fn high_word(v: u64) -> u32 {
    ((v >> 16) & 0xffff) as u32
}

/// What the main window does with a message.
#[derive(Debug, Clone, Copy, PartialEq, Eq, Structural)]
pub enum WindowAction {
    /// Paint the dashboard between `BeginPaint` and `EndPaint`.
    Paint,
    /// Resize the render target to the new client area, then repaint.
    Resize { width: u32, height: u32 },
    /// Report the minimum window size, scaled to the window's DPI.
    LimitMinimumSize,
    /// Adopt the new DPI, move to the rectangle Windows suggests, then repaint.
    ChangeDpi { dpi: u32 },
    /// Repaint.
    Invalidate,
    /// Restore the window and bring it to the foreground.
    Restore,
    /// Hide the window; the program keeps running in the notification area.
    Hide,
    /// Destroy the window.
    Destroy,
    /// Stop the workers, remove the notification icon and leave the message loop.
    Quit,
    /// Handled, with nothing to do.
    Ignore,
    /// Not handled: pass to `DefWindowProc`.
    Default,
}

/// The action for message `msg` with parameters `wparam` and `lparam` (taken as 64-bit
/// words). `attached` says whether the window's state is attached to it yet; before that every
/// message goes to `DefWindowProc`. `minimize_to_tray` is the setting, `None` when the shared
/// state could not be read: closing then hides the window.
pub open spec fn window_action(
    attached: bool,
    msg: u32,
    wparam: u64,
    lparam: u64,
    minimize_to_tray: Option<bool>,
) -> WindowAction {
    if !attached {
        WindowAction::Default
    } else if msg == WM_PAINT {
        WindowAction::Paint
    } else if msg == WM_SIZE {
        WindowAction::Resize { width: low_word(lparam), height: high_word(lparam) }
    } else if msg == WM_GETMINMAXINFO {
        WindowAction::LimitMinimumSize
    } else if msg == WM_DPICHANGED {
        WindowAction::ChangeDpi { dpi: low_word(wparam) }
    } else if msg == WM_APP_UPDATE {
        WindowAction::Invalidate
    } else if msg == WM_TRAYICON {
        let event = low_word(lparam);
        if event == WM_LBUTTONUP || event == WM_LBUTTONDBLCLK {
            WindowAction::Restore
        } else {
            WindowAction::Ignore
        }
    } else if msg == WM_CLOSE {
        match minimize_to_tray {
            Some(false) => WindowAction::Destroy,
            _ => WindowAction::Hide,
        }
    } else if msg == WM_DESTROY {
        WindowAction::Quit
    } else {
        WindowAction::Default
    }
}

pub fn action_for_message(
    attached: bool,
    msg: u32,
    wparam: u64,
    lparam: u64,
    minimize_to_tray: Option<bool>,
) -> (a: WindowAction)
    ensures
        a == window_action(attached, msg, wparam, lparam, minimize_to_tray),
{
    if !attached {
        WindowAction::Default
    } else if msg == WM_PAINT {
        WindowAction::Paint
    } else if msg == WM_SIZE {
        WindowAction::Resize { width: (lparam & 0xffff) as u32, height: ((lparam >> 16) & 0xffff) as u32 }
    } else if msg == WM_GETMINMAXINFO {
        WindowAction::LimitMinimumSize
    } else if msg == WM_DPICHANGED {
        WindowAction::ChangeDpi { dpi: (wparam & 0xffff) as u32 }
    } else if msg == WM_APP_UPDATE {
        WindowAction::Invalidate
    } else if msg == WM_TRAYICON {
        let event = (lparam & 0xffff) as u32;
        if event == WM_LBUTTONUP || event == WM_LBUTTONDBLCLK {
            WindowAction::Restore
        } else {
            WindowAction::Ignore
        }
    } else if msg == WM_CLOSE {
        match minimize_to_tray {
            Some(false) => WindowAction::Destroy,
            _ => WindowAction::Hide,
        }
    } else if msg == WM_DESTROY {
        WindowAction::Quit
    } else {
        WindowAction::Default
    }
}

/// Closing the window never ends the program unless the user turned minimizing to the
/// notification area off; a click on the notification icon brings the window back.
pub proof fn lemma_close_keeps_running_in_tray(wparam: u64, lparam: u64, minimize_to_tray: Option<bool>)
    requires
        minimize_to_tray != Some(false),
    ensures
        window_action(true, WM_CLOSE, wparam, lparam, minimize_to_tray) == WindowAction::Hide,
        window_action(true, WM_TRAYICON, wparam, WM_LBUTTONDBLCLK as u64, minimize_to_tray)
            == WindowAction::Restore,
{
    assert(low_word(WM_LBUTTONDBLCLK as u64) == WM_LBUTTONDBLCLK) by (bit_vector);
}

/// The accent the connection pill is drawn in.
#[derive(Debug, Clone, Copy, PartialEq, Eq, Structural)]
pub enum StatusAccent {
    Green,
    Cyan,
    Red,
}

/// The text and accent of the connection pill in the window's header.
pub open spec fn status_pill_spec(status: DeviceConnectionStatus) -> (Seq<char>, StatusAccent) {
    match status {
        DeviceConnectionStatus::Connected => ("● Kraken 360 Connected"@, StatusAccent::Green),
        DeviceConnectionStatus::Simulated => ("● Kraken 360 (Simulated)"@, StatusAccent::Cyan),
        DeviceConnectionStatus::Disconnected => ("● Kraken Disconnected"@, StatusAccent::Red),
    }
}

pub fn status_pill(status: DeviceConnectionStatus) -> (r: (&'static str, StatusAccent))
    ensures
        (r.0@, r.1) == status_pill_spec(status),
{
    match status {
        DeviceConnectionStatus::Connected => ("● Kraken 360 Connected", StatusAccent::Green),
        DeviceConnectionStatus::Simulated => ("● Kraken 360 (Simulated)", StatusAccent::Cyan),
        DeviceConnectionStatus::Disconnected => ("● Kraken Disconnected", StatusAccent::Red),
    }
}

/// The title of the GPU card: the GPU's name follows when it is known.
pub fn gpu_card_title(gpu_name: &str) -> (t: String)
    ensures
        t@ == if gpu_name@.len() == 0 {
            "GPU Telemetry"@
        } else {
            "GPU Telemetry • "@ + gpu_name@
        },
{
    if gpu_name.unicode_len() == 0 {
        String::from_str("GPU Telemetry")
    } else {
        let mut t = String::from_str("GPU Telemetry • ");
        t.append(gpu_name);
        t
    }
}

/// The footer line with the cooler's firmware version and serial number.
pub fn footer_text(firmware_version: &str, serial_number: &str) -> (t: String)
    ensures
        t@ == "NZXT VID: 0x1E71 • Firmware: "@ + firmware_version@ + " • Serial: "@ + serial_number@
            + " • Direct2D Accelerated"@,
{
    let mut t = String::from_str("NZXT VID: 0x1E71 • Firmware: ");
    t.append(firmware_version);
    t.append(" • Serial: ");
    t.append(serial_number);
    t.append(" • Direct2D Accelerated");
    t
}

/// The subtitle of the LCD preview card, naming the infographic on the display.
pub fn lcd_preview_subtitle(active: InfographicType) -> (t: String)
    ensures
        t@ == "Active: "@ + infographic_name(active) + " • 5s Rotation Cycle"@,
{
    let mut t = String::from_str("Active: ");
    t.append(active.name());
    t.append(" • 5s Rotation Cycle");
    t
}

/// Whether the LCD preview buffer holds a picture worth drawing: it is not empty and not all
/// zero.
pub fn preview_has_content(buffer: &Vec<u8>) -> (b: bool)
    ensures
        b == exists|i: int| 0 <= i < buffer@.len() && buffer@[i] != 0,
{
    let mut i: usize = 0;
    while i < buffer.len()
        invariant
            i <= buffer@.len(),
            forall|k: int| 0 <= k < i ==> buffer@[k] == 0,
        decreases buffer@.len() - i,
    {
        if buffer[i] != 0 {
            return true;
        }
        i = i + 1;
    }
    false
}

} // verus!
