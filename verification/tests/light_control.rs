use secluso::light_control::{
    als_new_data, als_raw20, day_sequence, night_sequence, temp_raw12, CoilStep, LightController,
    Mode, ModeSwitch, Pin, TEMP_THRESHOLD_RAW,
};

#[test]
fn three_dark_cool_readings_switch_to_night() {
    let mut c = LightController::new();
    assert_eq!(c.step(10, 400), ModeSwitch::Stay);
    assert_eq!(c.step(10, 400), ModeSwitch::Stay);
    assert_eq!(c.step(10, 400), ModeSwitch::ToNight);
    assert_eq!(c.mode, Mode::Night);
    assert_eq!(c.below_cnt, 0);
}

#[test]
fn bright_reading_resets_dark_count() {
    let mut c = LightController::new();
    c.step(10, 400);
    c.step(10, 400);
    assert_eq!(c.step(40, 400), ModeSwitch::Stay);
    assert_eq!(c.below_cnt, 0);
    assert_eq!(c.step(39, 400), ModeSwitch::Stay);
    assert_eq!(c.mode, Mode::Day);
}

#[test]
fn hot_camera_stays_in_day_mode() {
    let mut c = LightController::new();
    for _ in 0..10 {
        assert_eq!(c.step(0, TEMP_THRESHOLD_RAW), ModeSwitch::Stay);
    }
    assert_eq!(c.mode, Mode::Day);
    assert_eq!(c.step(0, TEMP_THRESHOLD_RAW - 1), ModeSwitch::ToNight);
}

#[test]
fn night_mode_uses_offset_and_returns_to_day() {
    let mut c = LightController::new();
    for _ in 0..3 {
        c.step(0, 0);
    }
    c.set_night_offset(100);
    assert_eq!(c.step(139, 0), ModeSwitch::Stay);
    assert_eq!(c.step(140, 0), ModeSwitch::Stay);
    assert_eq!(c.step(140, 0), ModeSwitch::Stay);
    assert_eq!(c.step(140, 0), ModeSwitch::ToDay { bright_enough: true, too_hot: false });
    assert_eq!(c.mode, Mode::Day);
    assert_eq!(c.light_threshold_offset, 0);
}

#[test]
fn overheating_at_night_switches_to_day_at_once() {
    let mut c = LightController::new();
    for _ in 0..3 {
        c.step(0, 0);
    }
    assert_eq!(c.step(0, TEMP_THRESHOLD_RAW), ModeSwitch::Stay);
    assert_eq!(c.step(0, TEMP_THRESHOLD_RAW + 1), ModeSwitch::ToDay { bright_enough: false, too_hot: true });
}

#[test]
fn counters_saturate() {
    let mut c = LightController::new();
    for _ in 0..300 {
        c.step(0, i16::MAX);
    }
    assert_eq!(c.below_cnt, 255);
}

#[test]
fn temperature_threshold_matches_celsius() {
    for raw in [-2048i16, -1, 0, 1439, 1440, 1441, 2047] {
        let celsius = raw as f32 / 16.0;
        assert_eq!(raw < TEMP_THRESHOLD_RAW, celsius < 90.0);
        assert_eq!(raw > TEMP_THRESHOLD_RAW, celsius > 90.0);
    }
}

#[test]
fn sensor_decoding() {
    for (b0, b1, b2) in [(0u8, 0u8, 0u8), (0xff, 0xff, 0xff), (0x12, 0x34, 0x56), (1, 0, 0x10)] {
        let expected = (b0 as u32) | ((b1 as u32) << 8) | (((b2 as u32) & 0x0F) << 16);
        assert_eq!(als_raw20(b0, b1, b2), expected);
    }
    for (msb, lsb) in [(0u8, 0u8), (0x7f, 0xf0), (0x80, 0x00), (0xff, 0xf0), (0xff, 0xff), (0x19, 0x00), (0xe7, 0x00)] {
        assert_eq!(temp_raw12(msb, lsb), i16::from_be_bytes([msb, lsb]) >> 4);
    }
    assert!(als_new_data(0x08));
    assert!(als_new_data(0xff));
    assert!(!als_new_data(0xf7));
}

#[test]
fn ir_cut_sequences() {
    let night = night_sequence();
    assert_eq!(night.len(), 11);
    assert_eq!(night[0], CoilStep::Drive { pin: Pin::Ir, high: true });
    assert_eq!(night[6], CoilStep::Drive { pin: Pin::In2, high: true });
    assert_eq!(night[7], CoilStep::WaitMs { ms: 120 });
    let day = day_sequence();
    assert_eq!(day[4], CoilStep::Drive { pin: Pin::In1, high: true });
    assert_eq!(day[10], CoilStep::Drive { pin: Pin::Ir, high: false });
}

#[test]
fn sequences_leave_coil_released() {
    for (seq, ir_after) in [(night_sequence(), true), (day_sequence(), false)] {
        let mut levels = [true; 4];
        for step in &seq {
            if let CoilStep::Drive { pin, high } = *step {
                let idx = match pin {
                    Pin::In1 => 0,
                    Pin::In2 => 1,
                    Pin::Sleep => 2,
                    Pin::Ir => 3,
                };
                levels[idx] = high;
            }
        }
        assert_eq!(levels, [false, false, false, ir_after]);
    }
}
