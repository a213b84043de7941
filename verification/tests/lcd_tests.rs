use aio_pulse::nzxt::lcd::{
    BarReading, Display, InfographicRotationManager, InfographicType, LcdFramebuffer, SimulatedDisplay,
    BAR_WIDTH, FONT_5X7,
};

/// The reading the LCD shows for a sensor value, computed the way the application computes it
/// from floating point.
fn reading(v: f32) -> BarReading {
    let fill = ((v / 100.0).clamp(0.0, 1.0) * BAR_WIDTH as f32) as u32;
    let value = if v.is_nan() {
        None
    } else {
        Some(format!("{:.0}", v.clamp(0.0, 100.0)).parse::<u32>().unwrap())
    };
    BarReading { fill, value }
}

#[test]
fn test_framebuffer_lifecycle() {
    let mut fb = LcdFramebuffer::new(240, 240);
    assert_eq!(fb.pixels.len(), 240 * 240 * 4);

    fb.clear(10, 20, 30);
    assert_eq!(fb.pixels[0], 10);
    assert_eq!(fb.pixels[1], 20);
    assert_eq!(fb.pixels[2], 30);
    assert_eq!(fb.pixels[3], 255);

    fb.render_infographic(reading(45.0), reading(55.0), reading(32.0));
    assert_eq!(fb.pixels.len(), 240 * 240 * 4);
}

#[test]
fn test_simulated_display() {
    let (mut display, buffer) = SimulatedDisplay::new(64, 64);
    assert_eq!(display.width(), 64);
    assert_eq!(display.height(), 64);

    let test_frame = vec![128u8; 64 * 64 * 4];
    assert!(display.submit_frame(&test_frame).is_ok());

    let read_buf = buffer.read().unwrap();
    assert_eq!(read_buf[0], 128);

    let invalid_frame = vec![0u8; 100];
    assert!(display.submit_frame(&invalid_frame).is_err());
}

#[test]
fn test_degree_symbol_glyph_and_render() {
    let mut fb = LcdFramebuffer::new(240, 240);

    assert_eq!(FONT_5X7.len(), 96);
    let deg_glyph = FONT_5X7[95];
    let bit_count: u32 = deg_glyph.iter().map(|b| b.count_ones()).sum();
    assert!(bit_count > 0, "Degree glyph at index 95 must contain active pixels");

    fb.clear(0, 0, 0);

    let text = "42\u{00B0}C";
    fb.draw_string_centered(text, 100, 4, 255, 255, 255);

    let scale = 4u32;
    let char_w = 6 * scale;
    let total_w = (text.chars().count() as u32) * char_w;
    let start_x = (240 - total_w) / 2;

    let x_4 = start_x;
    let x_2 = start_x + char_w;
    let x_deg = start_x + 2 * char_w;
    let x_c = start_x + 3 * char_w;

    let count_pixels_in_x_range = |x_start: u32, x_end: u32| -> usize {
        let mut count = 0;
        for y in 100..(100 + 7 * scale) {
            for x in x_start..x_end {
                let idx = ((y * 240 + x) * 4) as usize;
                if fb.pixels[idx] == 255 && fb.pixels[idx + 1] == 255 && fb.pixels[idx + 2] == 255 {
                    count += 1;
                }
            }
        }
        count
    };

    let px_4 = count_pixels_in_x_range(x_4, x_2);
    let px_2 = count_pixels_in_x_range(x_2, x_deg);
    let px_deg = count_pixels_in_x_range(x_deg, x_c);
    let px_c = count_pixels_in_x_range(x_c, x_c + char_w);

    assert!(px_4 > 0, "Digit '4' must be rendered");
    assert!(px_2 > 0, "Digit '2' must be rendered");
    assert!(px_deg > 0, "Degree symbol must be rendered");
    assert!(px_c > 0, "Letter 'C' must be rendered");

    assert!(x_deg < x_c, "Degree symbol must precede 'C' horizontally");
}

#[test]
fn test_infographic_rotation_cycle_order() {
    assert_eq!(InfographicType::ALL.len(), 2);
    assert_eq!(InfographicType::ALL[0], InfographicType::CpuGpuLoad);
    assert_eq!(InfographicType::ALL[1], InfographicType::CpuGpuTemperature);

    let initial = InfographicType::CpuGpuLoad;
    let next1 = initial.next();
    assert_eq!(next1, InfographicType::CpuGpuTemperature);
    let next2 = next1.next();
    assert_eq!(next2, InfographicType::CpuGpuLoad);

    let mut cur = InfographicType::CpuGpuLoad;
    for _ in 0..10 {
        cur = cur.next();
        assert_eq!(cur, InfographicType::CpuGpuTemperature);
        cur = cur.next();
        assert_eq!(cur, InfographicType::CpuGpuLoad);
    }
}

#[test]
fn test_infographic_rotation_manager_5_second_timer() {
    // Times are milliseconds on a monotonic clock.
    let t0: u64 = 1_000_000;
    let mut mgr = InfographicRotationManager::new(InfographicType::CpuGpuLoad, t0);
    mgr.reset_timer(t0);

    assert_eq!(mgr.current(), InfographicType::CpuGpuLoad);
    assert_eq!(mgr.rotation_duration(), 5_000);

    let t_2s = t0 + 2_000;
    assert!(!mgr.tick(t_2s));
    assert_eq!(mgr.current(), InfographicType::CpuGpuLoad);
    assert_eq!(mgr.elapsed(t_2s), 2_000);

    let t_4_9s = t0 + 4_900;
    assert!(!mgr.tick(t_4_9s));
    assert_eq!(mgr.current(), InfographicType::CpuGpuLoad);

    let t_5s = t0 + 5_000;
    assert!(mgr.tick(t_5s));
    assert_eq!(mgr.current(), InfographicType::CpuGpuTemperature);
    assert_eq!(mgr.elapsed(t_5s), 0);

    let t_7s = t0 + 7_000;
    assert!(!mgr.tick(t_7s));
    assert_eq!(mgr.current(), InfographicType::CpuGpuTemperature);
    assert_eq!(mgr.elapsed(t_7s), 2_000);

    let t_10s = t0 + 10_000;
    assert!(mgr.tick(t_10s));
    assert_eq!(mgr.current(), InfographicType::CpuGpuLoad);
    assert_eq!(mgr.elapsed(t_10s), 0);

    let t_12s = t0 + 12_000;
    mgr.set_current(InfographicType::CpuGpuTemperature, t_12s);
    assert_eq!(mgr.current(), InfographicType::CpuGpuTemperature);
    assert_eq!(mgr.elapsed(t_12s), 0);

    let t_16s = t0 + 16_000;
    assert!(!mgr.tick(t_16s));
    assert_eq!(mgr.current(), InfographicType::CpuGpuTemperature);

    let t_17s = t0 + 17_000;
    assert!(mgr.tick(t_17s));
    assert_eq!(mgr.current(), InfographicType::CpuGpuLoad);
}

#[test]
fn test_independent_sensor_updates_within_rotation_cycle() {
    let mut fb = LcdFramebuffer::new(240, 240);
    let t0: u64 = 1_000_000;
    let mut mgr = InfographicRotationManager::new(InfographicType::CpuGpuLoad, t0);
    mgr.reset_timer(t0);

    let sensor_refresh_interval: u64 = 1_000;
    let mut last_sensor_refresh = t0;

    let mut sensor_render_count = 0;
    let mut rotation_count = 0;

    for tick_idx in 1..=200u64 {
        let now = t0 + tick_idx * 100;

        if mgr.tick(now) {
            rotation_count += 1;
        }

        if now - last_sensor_refresh >= sensor_refresh_interval {
            sensor_render_count += 1;
            last_sensor_refresh = now;

            let simulated_cpu = 20.0 + (tick_idx as f32 * 0.1);
            let simulated_gpu = 40.0 + (tick_idx as f32 * 0.1);
            fb.render_active_infographic(
                mgr.current(),
                reading(simulated_cpu),
                reading(simulated_gpu),
                reading(simulated_cpu + 15.0),
                reading(simulated_gpu + 10.0),
                reading(32.0),
            );
            assert_eq!(fb.pixels.len(), 240 * 240 * 4);
        }
    }

    assert_eq!(rotation_count, 4, "Should rotate exactly 4 times in 20 seconds (5s cycle)");
    assert_eq!(sensor_render_count, 20, "Should refresh sensors exactly 20 times in 20 seconds (1s interval)");
    assert_eq!(mgr.current(), InfographicType::CpuGpuLoad);
}

#[test]
fn test_temperature_infographic_contains_degree_symbol_c() {
    let mut fb = LcdFramebuffer::new(240, 240);
    fb.render_infographic(reading(42.0), reading(56.0), reading(32.0));

    let non_zero_pixels = fb.pixels.chunks_exact(4).filter(|p| p[0] != 0 || p[1] != 0 || p[2] != 0).count();
    assert!(non_zero_pixels > 2000, "Temperature infographic must render graphics and text");

    let has_purple = fb.pixels.chunks_exact(4).any(|p| p[0] == 106 && p[1] == 0 && p[2] == 223);
    let has_magenta = fb.pixels.chunks_exact(4).any(|p| p[0] == 215 && p[1] == 0 && p[2] == 192);
    assert!(has_purple, "Should render purple CPU bar fill pixels");
    assert!(has_magenta, "Should render magenta GPU bar fill pixels");
}

#[test]
fn test_clear_screen_before_infographic_jump() {
    let mut fb = LcdFramebuffer::new(240, 240);
    let t0: u64 = 1_000_000;
    let mut mgr = InfographicRotationManager::new(InfographicType::CpuGpuLoad, t0);
    mgr.reset_timer(t0);

    fb.render_load(reading(45.0), reading(60.0));
    let non_zero_load = fb.pixels.chunks_exact(4).filter(|p| p[0] != 0 || p[1] != 0 || p[2] != 0).count();
    assert!(non_zero_load > 1000, "Initial load infographic has drawn pixels");

    let t_5s = t0 + 5_000;
    assert!(mgr.tick(t_5s), "5s elapsed, should rotate");
    assert_eq!(mgr.current(), InfographicType::CpuGpuTemperature);

    fb.clear_screen();
    for chunk in fb.pixels.chunks_exact(4) {
        assert_eq!(chunk, [0, 0, 0, 255], "Screen must be cleared to pure black before jump");
    }

    fb.render_infographic(reading(42.0), reading(56.0), reading(32.0));
    let non_zero_temp = fb.pixels.chunks_exact(4).filter(|p| p[0] != 0 || p[1] != 0 || p[2] != 0).count();
    assert!(non_zero_temp > 1000, "New temperature infographic has drawn pixels");
}

#[test]
fn test_bar_fill_geometry_proportions() {
    let total_bar_w: f32 = 134.0;
    let test_cases: [(f32, f32); 5] = [(0.0, 0.0), (25.0, 33.5), (50.0, 67.0), (75.0, 100.5), (100.0, 134.0)];

    for (pct, expected_w) in test_cases {
        let fill_w = total_bar_w * (pct / 100.0).clamp(0.0, 1.0);
        assert!((fill_w - expected_w).abs() < 1e-4, "Mismatch for {}%", pct);
    }
}

#[test]
fn dual_bars_with_a_custom_unit() {
    let mut fb = LcdFramebuffer::new(240, 240);
    fb.render_dual_bars(reading(50.0), reading(100.0), "RPM");
    let px = |x: u32, y: u32| {
        let i = ((y * 240 + x) * 4) as usize;
        [fb.pixels[i], fb.pixels[i + 1], fb.pixels[i + 2], fb.pixels[i + 3]]
    };
    // Half of the upper track is filled purple, the rest stays grey.
    assert_eq!(px(81, 108), [106, 0, 223, 255]);
    assert_eq!(px(131, 108), [137, 137, 137, 255]);
    // The lower bar is full.
    assert_eq!(px(160, 123), [215, 0, 192, 255]);
    // Outside the layout the screen is black.
    assert_eq!(px(5, 5), [0, 0, 0, 255]);
}

#[test]
fn centered_string_equals_its_characters_drawn_in_turn() {
    let mut whole = LcdFramebuffer::new(120, 40);
    whole.set_pixel(3, 3, 9, 9, 9, 255);
    let mut steps = LcdFramebuffer { width: whole.width, height: whole.height, pixels: whole.pixels.clone() };
    whole.draw_string_centered("42\u{00B0}C", 10, 2, 255, 255, 255);
    // 4 characters, 12 pixels each at scale 2: the line starts at (120 - 48) / 2.
    let x0 = (120 - 4 * 6 * 2) / 2;
    for (i, c) in "42\u{00B0}C".chars().enumerate() {
        steps.draw_char(c, x0 + (i as u32) * 12, 10, 2, 255, 255, 255);
    }
    assert_eq!(steps.pixels, whole.pixels);

    let before = whole.pixels.clone();
    whole.draw_string_centered("", 10, 2, 1, 2, 3);
    assert_eq!(whole.pixels, before);
}

#[test]
fn framebuffer_keeps_its_size_through_any_calls() {
    let mut fb = LcdFramebuffer::new(240, 240);
    fb.clear(1, 2, 3);
    fb.set_pixel(500, 500, 1, 1, 1, 1);
    fb.draw_char('A', 230, 230, 4, 255, 0, 0);
    fb.draw_string_centered("HELLO WORLD", 235, 9, 0, 255, 0);
    fb.render_load(reading(42.0), reading(67.0));
    fb.render_infographic(reading(42.0), reading(56.0), reading(32.0));
    fb.render_dual_bars(reading(f32::NAN), reading(150.0), "%");
    fb.clear_screen();
    assert_eq!((fb.width, fb.height, fb.pixels.len()), (240, 240, 240 * 240 * 4));
}
