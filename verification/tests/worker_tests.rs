use aio_pulse::app::scheduler::LcdScheduler;
use aio_pulse::hardware::device::DeviceConnectionStatus;
use aio_pulse::nzxt::kraken::{reported_firmware_version, reported_serial_number, status_after_connect};
use aio_pulse::text::same_text;
use aio_pulse::nzxt::lcd::InfographicType;
use aio_pulse::nzxt::transfer::LcdLink;
use aio_pulse::windows::tray::tooltip_units;
use aio_pulse::windows::tray::WM_TRAYICON;
use aio_pulse::windows::window::{
    action_for_message, WindowAction, WM_APP_UPDATE, WM_CLOSE, WM_DESTROY, WM_DPICHANGED, WM_GETMINMAXINFO,
    WM_LBUTTONDBLCLK, WM_LBUTTONUP, WM_PAINT, WM_SIZE,
};
use aio_pulse::windows::window::{
    footer_text, gpu_card_title, lcd_preview_subtitle, preview_has_content, status_pill, StatusAccent,
};
use aio_pulse::monitoring::sensors::{sensor_field, SensorField, SensorSource};
use aio_pulse::nzxt::lcd::{Display, SimulatedDisplay};
use aio_pulse::nzxt::transfer::{bulk_header, bulk_writes, is_lcd_control_interface};
use aio_pulse::rendering::lcd_renderer::{lcd_text_format, LcdTextFormat, LcdTextRole, ParagraphAlign, TextAlign};
use aio_pulse::rendering::directwrite::{text_style, TextStyle, TypographyRole};

const T0: u64 = 1_000_000;

#[test]
fn scheduler_renders_first_pass_then_waits() {
    let mut s = LcdScheduler::new(T0);
    assert_eq!(s.current(), InfographicType::CpuGpuLoad);
    // First pass: no sensor render yet, so a frame is due.
    assert_eq!(s.step(T0, None, Some(0)), Some(InfographicType::CpuGpuLoad));
    // Nothing changed and the refresh interval has not passed.
    assert_eq!(s.step(T0 + 500, None, Some(0)), None);
    // A new sensor sample makes a frame due.
    assert_eq!(s.step(T0 + 600, None, Some(1)), Some(InfographicType::CpuGpuLoad));
    // One second after the last sensor render a refresh is due.
    assert_eq!(s.step(T0 + 1599, None, Some(1)), None);
    assert_eq!(s.step(T0 + 1600, None, Some(1)), Some(InfographicType::CpuGpuLoad));
}

#[test]
fn scheduler_rotates_after_five_seconds() {
    let mut s = LcdScheduler::new(T0);
    assert_eq!(s.step(T0, None, None), Some(InfographicType::CpuGpuLoad));
    assert_eq!(s.step(T0 + 5000, None, None), Some(InfographicType::CpuGpuTemperature));
    assert_eq!(s.current(), InfographicType::CpuGpuTemperature);
    assert_eq!(s.step(T0 + 10_000, None, None), Some(InfographicType::CpuGpuLoad));
}

#[test]
fn scheduler_shows_a_request_at_once() {
    let mut s = LcdScheduler::new(T0);
    assert_eq!(s.step(T0, None, Some(0)), Some(InfographicType::CpuGpuLoad));
    assert_eq!(
        s.step(T0 + 100, Some(InfographicType::CpuGpuTemperature), Some(0)),
        Some(InfographicType::CpuGpuTemperature)
    );
    // The request restarted the rotation timer.
    assert_eq!(s.step(T0 + 5000, Some(InfographicType::CpuGpuTemperature), Some(0)), Some(InfographicType::CpuGpuTemperature));
    assert_eq!(s.current(), InfographicType::CpuGpuTemperature);
    assert_eq!(s.step(T0 + 5100, None, Some(0)), Some(InfographicType::CpuGpuLoad));
}

#[test]
fn link_retries_every_five_seconds_and_doubles_first_frame() {
    let mut link = LcdLink::new();
    assert!(!link.is_connected());
    assert!(link.connect_due(T0));
    assert!(!link.connect_due(T0 + 4999));
    assert!(link.connect_due(T0 + 5000));
    link.set_connected(true);
    assert!(link.is_connected());
    assert!(!link.connect_due(T0 + 20_000));
    assert!(link.frame_sent());
    assert!(!link.frame_sent());
    assert!(!link.frame_sent());
}

#[test]
fn connection_outcomes() {
    assert_eq!(status_after_connect(true, true), DeviceConnectionStatus::Connected);
    assert_eq!(status_after_connect(true, false), DeviceConnectionStatus::Simulated);
    assert_eq!(status_after_connect(false, false), DeviceConnectionStatus::Simulated);
}

#[test]
fn tooltip_is_utf16_truncated_and_zero_filled() {
    let field = tooltip_units("AIPulse");
    assert_eq!(field.len(), 128);
    let expected: Vec<u16> = "AIPulse".encode_utf16().collect();
    assert_eq!(&field[..7], &expected[..]);
    assert!(field[7..].iter().all(|&u| u == 0));

    let emoji = tooltip_units("a\u{1F600}");
    assert_eq!(&emoji[..3], &[0x61, 0xD83D, 0xDE00]);
    assert_eq!(emoji[3], 0);

    let long = "x".repeat(200);
    let field = tooltip_units(&long);
    assert_eq!(field.len(), 128);
    assert!(field[..127].iter().all(|&u| u == 0x78));
    assert_eq!(field[127], 0);
}

#[test]
fn window_messages_map_to_actions() {
    assert_eq!(action_for_message(true, WM_PAINT, 0, 0, Some(true)), WindowAction::Paint);
    assert_eq!(
        action_for_message(true, WM_SIZE, 0, (600 << 16) | 800, Some(true)),
        WindowAction::Resize { width: 800, height: 600 }
    );
    assert_eq!(action_for_message(true, WM_GETMINMAXINFO, 0, 0, None), WindowAction::LimitMinimumSize);
    assert_eq!(
        action_for_message(true, WM_DPICHANGED, 0x0078_0078, 0, None),
        WindowAction::ChangeDpi { dpi: 120 }
    );
    assert_eq!(action_for_message(true, WM_APP_UPDATE, 0, 0, None), WindowAction::Invalidate);
    assert_eq!(action_for_message(true, WM_TRAYICON, 0, WM_LBUTTONUP as u64, None), WindowAction::Restore);
    assert_eq!(action_for_message(true, WM_TRAYICON, 0, WM_LBUTTONDBLCLK as u64, None), WindowAction::Restore);
    assert_eq!(action_for_message(true, WM_TRAYICON, 0, 0x0200, None), WindowAction::Ignore);
    assert_eq!(action_for_message(true, WM_CLOSE, 0, 0, None), WindowAction::Hide);
    assert_eq!(action_for_message(true, WM_CLOSE, 0, 0, Some(true)), WindowAction::Hide);
    assert_eq!(action_for_message(true, WM_CLOSE, 0, 0, Some(false)), WindowAction::Destroy);
    assert_eq!(action_for_message(true, WM_DESTROY, 0, 0, None), WindowAction::Quit);
    assert_eq!(action_for_message(true, 0x0100, 0, 0, None), WindowAction::Default);
    assert_eq!(action_for_message(false, WM_PAINT, 0, 0, None), WindowAction::Default);
    assert_eq!(WM_TRAYICON, 0x8001);
    assert_eq!(WM_APP_UPDATE, 0x8002);
}

#[test]
fn window_texts() {
    assert_eq!(status_pill(DeviceConnectionStatus::Connected), ("● Kraken 360 Connected", StatusAccent::Green));
    assert_eq!(status_pill(DeviceConnectionStatus::Simulated), ("● Kraken 360 (Simulated)", StatusAccent::Cyan));
    assert_eq!(status_pill(DeviceConnectionStatus::Disconnected), ("● Kraken Disconnected", StatusAccent::Red));
    assert_eq!(gpu_card_title(""), "GPU Telemetry");
    assert_eq!(gpu_card_title("NVIDIA GeForce RTX 5080"), "GPU Telemetry • NVIDIA GeForce RTX 5080");
    assert_eq!(
        footer_text("2.10.3", "ABC123"),
        "NZXT VID: 0x1E71 • Firmware: 2.10.3 • Serial: ABC123 • Direct2D Accelerated"
    );
    assert_eq!(lcd_preview_subtitle(InfographicType::CpuGpuLoad), "Active: CPU/GPU Load • 5s Rotation Cycle");
    assert_eq!(
        lcd_preview_subtitle(InfographicType::CpuGpuTemperature),
        "Active: CPU/GPU Temperature • 5s Rotation Cycle"
    );
    assert!(!preview_has_content(&Vec::new()));
    assert!(!preview_has_content(&vec![0u8; 16]));
    let mut buf = vec![0u8; 16];
    buf[9] = 1;
    assert!(preview_has_content(&buf));
}

#[test]
fn lcd_control_interface_filter() {
    assert!(is_lcd_control_interface(0x1E71, 0x300E, 1));
    assert!(is_lcd_control_interface(0x1E71, 0x300C, 1));
    assert!(!is_lcd_control_interface(0x1E71, 0x300E, 0));
    assert!(!is_lcd_control_interface(0x1E71, 0x3008, 1));
    assert!(!is_lcd_control_interface(0x046D, 0x300E, 1));
}

#[test]
fn typography_table() {
    assert_eq!(
        text_style(TypographyRole::AppTitle),
        TextStyle { family: "Segoe UI", weight: 700, size: 20, centered: false }
    );
    assert_eq!(
        text_style(TypographyRole::CardHeader),
        TextStyle { family: "Segoe UI", weight: 600, size: 13, centered: false }
    );
    assert_eq!(
        text_style(TypographyRole::Monospace),
        TextStyle { family: "Consolas", weight: 400, size: 11, centered: false }
    );
    assert_eq!(
        text_style(TypographyRole::LcdCenterBig),
        TextStyle { family: "Segoe UI", weight: 700, size: 24, centered: true }
    );
    assert_eq!(text_style(TypographyRole::Caption).size, 10);
}

#[test]
fn reported_identity_fallbacks() {
    assert_eq!(reported_firmware_version("Unknown"), "2.0.0");
    assert_eq!(reported_firmware_version("2.10.3"), "2.10.3");
    assert_eq!(reported_serial_number(None), "NZXT-KRK-360-SN001");
    assert_eq!(reported_serial_number(Some("ABC")), "ABC");
    assert!(same_text("Kraken", "Kraken"));
    assert!(!same_text("Kraken", "Krake"));
    assert!(!same_text("Kraken", "Krakan"));
}

#[test]
fn bulk_writes_are_header_then_pieces() {
    let payload: Vec<u8> = (0..10_000u32).map(|i| (i % 251) as u8).collect();
    let writes = bulk_writes(&payload);
    assert_eq!(writes.len(), 4);
    assert_eq!(writes[0], bulk_header(10_000));
    assert_eq!(writes[1], payload[..4096].to_vec());
    assert_eq!(writes[2], payload[4096..8192].to_vec());
    assert_eq!(writes[3], payload[8192..].to_vec());
    assert_eq!(writes[3].len(), 1808);

    assert_eq!(bulk_writes(&[]).len(), 1);
    assert_eq!(bulk_writes(&vec![0u8; 8192]).len(), 3);
}

#[test]
fn sensor_readings_go_to_their_fields() {
    assert_eq!(sensor_field(SensorSource::Cpu, "CPU Temperature"), Some(SensorField::CpuTemperature));
    assert_eq!(sensor_field(SensorSource::Cpu, "CPU Usage"), Some(SensorField::CpuUsage));
    assert_eq!(sensor_field(SensorSource::Cpu, "CPU Clock"), Some(SensorField::CpuClock));
    assert_eq!(sensor_field(SensorSource::Gpu, "GPU Temperature"), Some(SensorField::GpuTemperature));
    assert_eq!(sensor_field(SensorSource::Gpu, "GPU Usage"), Some(SensorField::GpuUsage));
    assert_eq!(sensor_field(SensorSource::Gpu, "GPU VRAM"), Some(SensorField::GpuVram));
    assert_eq!(sensor_field(SensorSource::Memory, "RAM Usage"), Some(SensorField::RamUsage));
    assert_eq!(sensor_field(SensorSource::Cpu, "GPU Usage"), None);
    assert_eq!(sensor_field(SensorSource::Memory, "RAM usage"), None);
}

#[test]
fn lcd_text_formats() {
    assert_eq!(
        lcd_text_format(LcdTextRole::LabelTop),
        LcdTextFormat { size: 15, align: TextAlign::Leading, paragraph: ParagraphAlign::Far }
    );
    assert_eq!(
        lcd_text_format(LcdTextRole::BottomMetric),
        LcdTextFormat { size: 62, align: TextAlign::Trailing, paragraph: ParagraphAlign::Near }
    );
    assert_eq!(
        lcd_text_format(LcdTextRole::TemperaturePrimary),
        LcdTextFormat { size: 46, align: TextAlign::Center, paragraph: ParagraphAlign::Center }
    );
    assert_eq!(lcd_text_format(LcdTextRole::TemperatureBrand).size, 13);
}

#[test]
fn simulated_display_clears_to_black() {
    let (mut display, buffer) = SimulatedDisplay::new(8, 4);
    assert!(display.clear_screen().is_ok());
    let held = buffer.read().unwrap();
    assert_eq!(held.len(), 8 * 4 * 4);
    assert!(held.chunks(4).all(|c| c == [0, 0, 0, 255]));
}
