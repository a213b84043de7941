use aio_pulse::app::state::LcdState;
use aio_pulse::config::settings::{AppConfig, CoolingProfile, LcdDisplayMode};
use aio_pulse::decimal::decimal_chars;
use aio_pulse::hardware::device::{is_connected_status, DeviceConnectionStatus};
use aio_pulse::hardware::usb::{UsbDeviceInfo, UsbScanner};
use aio_pulse::monitoring::cpu::{filetime_to_u64, jitter_bucket, CpuMonitor, CpuTimeDelta};
use aio_pulse::monitoring::gpu::{contains_5080, select_gpu};
use aio_pulse::monitoring::memory::MemoryMonitor;
use aio_pulse::monitoring::sensors::SensorUnit;
use aio_pulse::nzxt::fans::{FanMode, FanState};
use aio_pulse::nzxt::kraken::{
    firmware_query_report, identify_model, parse_firmware_version, parse_status_report, select_target_device,
    KrakenReport, KRAKEN_PIDS, NZXT_VID,
};
use aio_pulse::nzxt::lcd::{
    blank_frame, BarReading, Display, InfographicRotationManager, InfographicType, LcdError, LcdFramebuffer,
    SimulatedDisplay,
};
use aio_pulse::nzxt::pump::{PumpMode, PumpState};
use aio_pulse::nzxt::rgb::{RgbColor, RgbEffect, RgbState};
use aio_pulse::nzxt::transfer::{
    bulk_header, end_transfer_report, kraken_frame_payload, rgba_to_rgb565, should_retry_connect,
    start_transfer_report,
};
use aio_pulse::windows::dpi::DpiContext;

fn px(fb: &LcdFramebuffer, x: u32, y: u32) -> [u8; 4] {
    let i = ((y * fb.width + x) * 4) as usize;
    [fb.pixels[i], fb.pixels[i + 1], fb.pixels[i + 2], fb.pixels[i + 3]]
}

fn device(pid: u16, vid: u16, iface: i32, path: &str) -> UsbDeviceInfo {
    UsbDeviceInfo {
        vendor_id: vid,
        product_id: pid,
        manufacturer: None,
        product_name: None,
        serial_number: None,
        interface_number: iface,
        path: path.to_string(),
    }
}

#[test]
fn set_pixel_writes_inside_and_ignores_outside() {
    let mut fb = LcdFramebuffer::new(4, 3);
    fb.set_pixel(2, 1, 1, 2, 3, 4);
    assert_eq!(px(&fb, 2, 1), [1, 2, 3, 4]);
    let before = fb.pixels.clone();
    fb.set_pixel(4, 0, 9, 9, 9, 9);
    fb.set_pixel(0, 3, 9, 9, 9, 9);
    assert_eq!(fb.pixels, before);
    assert_eq!(fb.pixels.iter().filter(|&&b| b != 0).count(), 4);
}

#[test]
fn clear_paints_every_pixel_and_keeps_trailing_bytes() {
    let mut fb = LcdFramebuffer { width: 1, height: 1, pixels: vec![7u8; 6] };
    fb.clear(1, 2, 3);
    assert_eq!(fb.pixels, vec![1, 2, 3, 255, 7, 7]);
}

#[test]
fn draw_char_lights_exactly_the_glyph_dots() {
    let mut fb = LcdFramebuffer::new(20, 20);
    fb.clear_screen();
    // '!' is column 2 = 0x5F: rows 0..=4 and 6 lit.
    fb.draw_char('!', 3, 4, 2, 255, 0, 0);
    for y in 0..20u32 {
        for x in 0..20u32 {
            let lit = x >= 3 + 4 && x < 3 + 6 && y >= 4 && y < 4 + 14 && {
                let row = (y - 4) / 2;
                (0x5Fu8 >> row) & 1 == 1
            };
            let expected = if lit { [255, 0, 0, 255] } else { [0, 0, 0, 255] };
            assert_eq!(px(&fb, x, y), expected, "pixel ({}, {})", x, y);
        }
    }
}

#[test]
fn draw_char_without_glyph_or_scale_draws_nothing() {
    let mut fb = LcdFramebuffer::new(10, 10);
    let before = fb.pixels.clone();
    fb.draw_char('\u{263A}', 0, 0, 1, 255, 255, 255);
    fb.draw_char('A', 0, 0, 0, 255, 255, 255);
    assert_eq!(fb.pixels, before);
}

#[test]
fn load_bars_have_exact_colors() {
    let mut fb = LcdFramebuffer::new(240, 240);
    let r = BarReading { fill: 50, value: Some(42) };
    fb.render_load(r, BarReading { fill: 10, value: Some(7) });
    // upper bar: purple for 50 pixels, then grey track
    assert_eq!(px(&fb, 71, 110), [106, 0, 223, 255]);
    assert_eq!(px(&fb, 120, 110), [106, 0, 223, 255]);
    assert_eq!(px(&fb, 121, 110), [137, 137, 137, 255]);
    assert_eq!(px(&fb, 168, 116), [137, 137, 137, 255]);
    assert_eq!(px(&fb, 169, 116), [0, 0, 0, 255]);
    // lower bar: magenta for 10 pixels
    assert_eq!(px(&fb, 80, 125), [215, 0, 192, 255]);
    assert_eq!(px(&fb, 81, 125), [137, 137, 137, 255]);
    // background
    assert_eq!(px(&fb, 0, 0), [0, 0, 0, 255]);
    // the 'C' of "CPU" at (73, 96): column 0 of 'C' is 0x3E, so row 1 is lit
    assert_eq!(px(&fb, 73, 97), [255, 255, 255, 255]);
    assert_eq!(px(&fb, 73, 96), [0, 0, 0, 255]);
}

#[test]
fn overfull_reading_is_capped() {
    let mut a = LcdFramebuffer::new(240, 240);
    let mut b = LcdFramebuffer::new(240, 240);
    a.render_load(BarReading { fill: 500, value: Some(250) }, BarReading { fill: 0, value: None });
    b.render_load(BarReading { fill: 98, value: Some(100) }, BarReading { fill: 0, value: None });
    assert_eq!(a.pixels, b.pixels);
    assert_eq!(px(&a, 168, 110), [106, 0, 223, 255]);
}

#[test]
fn simulated_display_clear_screen_sends_black_frame() {
    let (mut display, buffer) = SimulatedDisplay::new(2, 2);
    assert!(display.submit_frame(&vec![9u8; 16]).is_ok());
    assert!(display.clear_screen().is_ok());
    assert_eq!(*buffer.read().unwrap(), vec![0, 0, 0, 255, 0, 0, 0, 255, 0, 0, 0, 255, 0, 0, 0, 255]);
}

#[test]
fn simulated_display_reports_mismatch() {
    let (mut display, _buffer) = SimulatedDisplay::new(3, 2);
    match display.submit_frame(&[0u8; 5]) {
        Err(LcdError::BufferMismatch { expected, actual }) => {
            assert_eq!(expected, 24);
            assert_eq!(actual, 5);
        },
        _ => panic!("expected a buffer mismatch"),
    }
}

#[test]
fn blank_frame_is_opaque_black() {
    assert_eq!(blank_frame(1, 2), vec![0, 0, 0, 255, 0, 0, 0, 255]);
    assert_eq!(blank_frame(0, 5).len(), 0);
}

#[test]
fn infographic_names_and_alternation() {
    assert_eq!(InfographicType::CpuGpuLoad.name(), "CPU/GPU Load");
    assert_eq!(InfographicType::CpuGpuTemperature.name(), "CPU/GPU Temperature");
    for t in InfographicType::ALL {
        assert_eq!(t.next().next(), t);
        assert_ne!(t.next(), t);
    }
}

#[test]
fn rotation_manager_durations_and_manual_selection() {
    let mut mgr = InfographicRotationManager::with_duration(InfographicType::CpuGpuTemperature, 1_000, 50);
    assert_eq!(mgr.rotation_duration(), 1_000);
    assert_eq!(mgr.time_remaining(300), 750);
    assert_eq!(mgr.time_remaining(5_000), 0);
    assert_eq!(mgr.elapsed(10), 0);
    // choosing what is shown already keeps the timer
    mgr.set_current(InfographicType::CpuGpuTemperature, 900);
    assert_eq!(mgr.elapsed(900), 850);
    mgr.set_rotation_duration(2_000);
    assert!(!mgr.tick(1_500));
    assert!(mgr.tick(2_050));
    assert_eq!(mgr.current(), InfographicType::CpuGpuLoad);
    assert_eq!(mgr.time_remaining(2_050), 2_000);
    assert_eq!(InfographicRotationManager::DEFAULT_ROTATION_SECS, 5);
    assert_eq!(InfographicRotationManager::CLEAR_TRANSITION_MS, 100);
}

#[test]
fn rgb565_conversion_values() {
    let rgba = [0xFFu8, 0xFF, 0xFF, 0xFF, 0xF8, 0x00, 0x00, 0x00, 0x00, 0xFC, 0x00, 0x00, 0x12, 0x34, 0x56, 0x78, 1, 2];
    let out = rgba_to_rgb565(&rgba, 2, 2);
    assert_eq!(out, vec![0xFF, 0xFF, 0xF8, 0x00, 0x07, 0xE0, 0x11, 0xAA]);
}

#[test]
fn bulk_header_layout() {
    let h = bulk_header(0x1C200);
    assert_eq!(
        h,
        vec![0x12, 0xFA, 0x01, 0xE8, 0xAB, 0xCD, 0xEF, 0x98, 0x76, 0x54, 0x32, 0x10, 0x06, 0, 0, 0, 0x00, 0xC2, 0x01, 0x00]
    );
}

#[test]
fn transfer_reports() {
    let start = start_transfer_report();
    assert_eq!(start.len(), 64);
    assert_eq!(&start[..6], &[0x36, 0x01, 0x00, 0x01, 0x06, 0x00]);
    assert!(start[5..].iter().all(|&b| b == 0));
    let end = end_transfer_report();
    assert_eq!(&end[..3], &[0x36, 0x02, 0x00]);
    assert!(end[2..].iter().all(|&b| b == 0));
    let fw = firmware_query_report();
    assert_eq!(&fw[..3], &[0x10, 0x01, 0x00]);
    assert_eq!(fw.len(), 64);
}

#[test]
fn connect_retry_policy() {
    assert!(should_retry_connect(None, 0));
    assert!(!should_retry_connect(Some(10_000), 14_999));
    assert!(should_retry_connect(Some(10_000), 15_000));
    assert!(!should_retry_connect(Some(10_000), 3));
}

#[test]
fn kraken_frame_payload_checks_size() {
    let frame = vec![0xFFu8; 2 * 2 * 4];
    let payload = kraken_frame_payload(2, 2, &frame).unwrap();
    assert_eq!(payload, vec![0xFF; 8]);
    match kraken_frame_payload(2, 2, &frame[..15]) {
        Err(LcdError::BufferMismatch { expected, actual }) => {
            assert_eq!(expected, 16);
            assert_eq!(actual, 15);
        },
        _ => panic!("expected a buffer mismatch"),
    }
}

#[test]
fn usb_filter_keeps_order_of_matches() {
    let devices = vec![
        device(0x300e, NZXT_VID, 0, "a"),
        device(0x1234, NZXT_VID, 1, "b"),
        device(0x300c, 0x046d, 1, "c"),
        device(0x1707, NZXT_VID, 1, "d"),
    ];
    let found = UsbScanner::find_by_vid_pid(devices, NZXT_VID, &KRAKEN_PIDS);
    let paths: Vec<&str> = found.iter().map(|d| d.path.as_str()).collect();
    assert_eq!(paths, vec!["a", "d"]);
    assert_eq!(select_target_device(&found), Some(1));
    assert_eq!(select_target_device(&found[..1].to_vec()), Some(0));
    assert_eq!(select_target_device(&Vec::new()), None);
}

#[test]
fn model_names() {
    assert_eq!(identify_model(0x300c), "NZXT Kraken 360");
    assert_eq!(identify_model(0x3008), "NZXT Kraken Z73");
    assert_eq!(identify_model(0x1707), "NZXT Kraken X62/X72");
    assert_eq!(identify_model(0x2007), "NZXT Kraken X53/X63/X73");
    assert_eq!(identify_model(0x300e), "NZXT Kraken 2023 (Base)");
    assert_eq!(identify_model(0x0001), "NZXT Kraken AIO");
}

#[test]
fn firmware_and_status_replies() {
    let mut buf = [0u8; 64];
    buf[0] = 0x11;
    buf[1] = 0x01;
    buf[17] = 2;
    buf[18] = 10;
    buf[19] = 255;
    assert_eq!(parse_firmware_version(&buf, 20), Some("2.10.255".to_string()));
    assert_eq!(parse_firmware_version(&buf, 19), None);
    buf[1] = 0x02;
    assert_eq!(parse_firmware_version(&buf, 64), None);

    let mut rep = [0u8; 64];
    rep[0] = 0x75;
    rep[1] = 0x02;
    rep[15] = 31;
    rep[16] = 7;
    rep[17] = 0x98;
    rep[18] = 0x08;
    rep[23] = 0xEE;
    rep[24] = 0x02;
    assert_eq!(
        parse_status_report(&rep, 25),
        KrakenReport { liquid_whole: 31, liquid_tenths: 7, pump_rpm: 2200, fan_rpm: 750 }
    );
    rep[17] = 0x01;
    assert_eq!(parse_status_report(&rep, 64).pump_rpm, 0x0801);
    assert_eq!(
        parse_status_report(&rep, 24),
        KrakenReport { liquid_whole: 32, liquid_tenths: 0, pump_rpm: 2200, fan_rpm: 750 }
    );
}

#[test]
fn decimal_numerals() {
    assert_eq!(decimal_chars(0), vec!['0']);
    assert_eq!(decimal_chars(100), vec!['1', '0', '0']);
    assert_eq!(decimal_chars(4294967295).iter().collect::<String>(), "4294967295");
}

#[test]
fn cpu_counters() {
    assert_eq!(filetime_to_u64(1, 2), 0x1_0000_0002);
    let mut mon = CpuMonitor::new();
    assert_eq!(mon.record_system_times(100, 300, 200), None);
    assert_eq!(mon.record_system_times(150, 400, 250), Some(CpuTimeDelta { idle: 50, system: 150 }));
    assert_eq!(mon.record_system_times(150, 400, 250), None);
    assert_eq!(mon.record_system_times(10, 500, 250), Some(CpuTimeDelta { idle: 0, system: 100 }));
    assert!(mon.delta_fits(u64::MAX, 250));
    assert!(!mon.delta_fits(u64::MAX, u64::MAX));
    assert_eq!(jitter_bucket(3, 2654435761), (3u64 * 2654435761) % 100);
    assert_eq!(jitter_bucket(u64::MAX, 2246822519), u64::MAX.wrapping_mul(2246822519) % 100);
}

#[test]
fn gpu_selection() {
    assert!(contains_5080("NVIDIA GeForce RTX 5080"));
    assert!(!contains_5080("NVIDIA GeForce RTX 4090"));
    assert!(!contains_5080("508"));
    let names = vec![None, Some("RTX 4090".to_string()), Some("RTX 5080".to_string())];
    assert_eq!(select_gpu(&names), Some(2));
    let names = vec![None, Some("RTX 4090".to_string()), Some("RTX 3080".to_string())];
    assert_eq!(select_gpu(&names), Some(1));
    assert_eq!(select_gpu(&vec![None, None]), None);
}

#[test]
fn defaults() {
    let c = AppConfig::default();
    assert_eq!(c.version, 1);
    assert!(!c.start_in_tray);
    assert!(c.minimize_to_tray);
    assert_eq!(c.polling_interval_ms, 1000);
    assert_eq!(c.lcd_mode, LcdDisplayMode::CpuGpuLoad);
    assert_eq!(c.lcd_brightness, 80);
    assert_eq!(c.pump_profile, CoolingProfile::Silent);
    assert_eq!(c.fan_profile, CoolingProfile::Silent);
    assert_eq!(LcdDisplayMode::default(), LcdDisplayMode::CpuGpuLoad);
    assert_eq!(CoolingProfile::default(), CoolingProfile::Silent);

    let f = FanState::default();
    assert_eq!((f.current_rpm, f.target_duty_percent, f.mode), (1200, 50, FanMode::Silent));
    let p = PumpState::default();
    assert_eq!((p.current_rpm, p.target_duty_percent, p.mode), (2400, 60, PumpMode::Silent));
    let s = RgbState::default();
    assert_eq!(s.effect, RgbEffect::Static);
    assert_eq!(s.primary_color, RgbColor { r: 0, g: 210, b: 255 });
    assert_eq!(s.secondary_color, RgbColor { r: 16, g: 185, b: 129 });
    assert_eq!((s.speed, s.brightness), (50, 80));

    let l = LcdState::default();
    assert_eq!((l.width, l.height, l.brightness), (240, 240, 80));
    assert_eq!(l.active_infographic, InfographicType::CpuGpuLoad);
    assert!(!l.is_clearing);
    assert_eq!(l.preview_buffer.len(), 240 * 240 * 4);
    assert!(l.preview_buffer.iter().all(|&b| b == 0));
}

#[test]
fn small_helpers() {
    assert_eq!(SensorUnit::Celsius.symbol(), "\u{00B0}");
    assert_eq!(SensorUnit::Percent.symbol(), "%");
    assert_eq!(SensorUnit::Rpm.symbol(), "RPM");
    assert_eq!(SensorUnit::Megahertz.symbol(), "MHz");
    assert_eq!(SensorUnit::Megabytes.symbol(), "MB");
    assert_eq!(SensorUnit::Watts.symbol(), "W");
    assert_eq!(SensorUnit::Fps.symbol(), "FPS");
    assert_eq!(DpiContext::effective_dpi(0), 96);
    assert_eq!(DpiContext::effective_dpi(144), 144);
    assert!(is_connected_status(DeviceConnectionStatus::Connected));
    assert!(is_connected_status(DeviceConnectionStatus::Simulated));
    assert!(!is_connected_status(DeviceConnectionStatus::Disconnected));
    let m = MemoryMonitor::new(1_000);
    assert_eq!(m.elapsed(4_500), 3_500);
    assert_eq!(m.elapsed(10), 0);
}
