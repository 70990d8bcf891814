use terrarium_control::config::{LEDSettings, LightPresetConfig};
use terrarium_control::led_control::{
    calculate_natural_light, update_leds, LEDController, LedAction, LedError,
};
use terrarium_control::models::{LightPreset, Schedule, RGBWW};

fn lerp(a: u8, b: u8, num: u64, den: u64) -> u8 {
    let k = if num > den { den } else { num };
    ((a as u64 * (den - k) + b as u64 * k) / den) as u8
}

fn ready_controller() -> LEDController {
    let mut c = LEDController::new();
    c.initialize();
    c
}

fn settings(enabled: bool, override_natural: bool) -> LEDSettings {
    LEDSettings {
        enabled,
        override_natural,
        season_weight_permille: 0,
        manual_color: LightPresetConfig { r: 9, g: 8, b: 7, ww: 6, cw: 5 },
    }
}

fn schedule_row() -> Schedule {
    Schedule {
        week_number: 1,
        uv1_start: String::from("08:00"),
        uv1_end: String::from("18:00"),
        uv2_start: String::from("08:00"),
        uv2_end: String::from("18:00"),
        heat_start: String::from("08:00"),
        heat_end: String::from("18:00"),
        led_start: String::from("07:00"),
        led_end: String::from("21:00"),
        led_r: 300,
        led_g: 20,
        led_b: 30,
        led_cw: 40,
        led_ww: 50,
    }
}

#[test]
fn fresh_controller_is_off() {
    let c = LEDController::new();
    assert!(!c.is_powered_on());
    assert_eq!(c.current_color(), RGBWW::off());
}

#[test]
fn initialize_powers_then_settles_then_acquires() {
    let mut c = LEDController::new();
    let acts = c.initialize();
    assert_eq!(
        acts,
        vec![LedAction::SetPower(true), LedAction::Hold(100), LedAction::InitEncoder]
    );
    assert!(c.is_powered_on());
}

#[test]
fn power_off_transmits_zero_before_deassert() {
    let mut c = ready_controller();
    c.set_color(RGBWW { r: 1, g: 2, b: 3, ww: 4, cw: 5 }).unwrap();
    let acts = c.power_off();
    // record the action order and check the all-zero transmit comes
    // strictly before the relay deassert
    let transmit_zero = acts
        .iter()
        .position(|a| *a == LedAction::Transmit(RGBWW::off()))
        .unwrap();
    let deassert = acts
        .iter()
        .position(|a| *a == LedAction::SetPower(false))
        .unwrap();
    assert!(transmit_zero < deassert);
    assert_eq!(acts, vec![
        LedAction::Transmit(RGBWW::off()),
        LedAction::SetPower(false),
    ]);
    assert!(!c.is_powered_on());
}

#[test]
fn set_color_when_powered_only_transmits() {
    let mut c = ready_controller();
    let color = RGBWW { r: 10, g: 20, b: 30, ww: 40, cw: 50 };
    let acts = c.set_color(color).unwrap();
    assert_eq!(acts, vec![LedAction::Transmit(color)]);
    assert_eq!(c.current_color(), color);
}

#[test]
fn set_color_powers_on_and_acquires_first() {
    let mut c = LEDController::new();
    let color = RGBWW { r: 1, g: 1, b: 1, ww: 1, cw: 1 };
    let acts = c.set_color(color).unwrap();
    assert_eq!(
        acts,
        vec![LedAction::SetPower(true), LedAction::InitEncoder, LedAction::Transmit(color)]
    );
    assert!(c.is_powered_on());
}

#[test]
fn set_color_refused_when_powered_without_encoder() {
    let mut c = LEDController::new();
    c.power_on();
    let r = c.set_color(RGBWW::off());
    assert_eq!(r.unwrap_err(), LedError::NotInitialized);
}

#[test]
fn set_rgbww_matches_set_color() {
    let mut c = ready_controller();
    let acts = c.set_rgbww(5, 4, 3, 2, 1).unwrap();
    assert_eq!(acts, vec![LedAction::Transmit(RGBWW { r: 5, g: 4, b: 3, ww: 2, cw: 1 })]);
}

#[test]
fn set_color_from_str_parses_then_transmits() {
    let mut c = ready_controller();
    let acts = c.set_color_from_str("1,2,3,4,5").unwrap();
    assert_eq!(acts, vec![LedAction::Transmit(RGBWW { r: 1, g: 2, b: 3, ww: 4, cw: 5 })]);
    assert_eq!(
        c.set_color_from_str("1,2,3").unwrap_err(),
        LedError::InvalidColor
    );
}

#[test]
fn fade_to_interpolates_every_frame() {
    let mut c = ready_controller();
    let from = RGBWW { r: 0, g: 100, b: 255, ww: 10, cw: 20 };
    let to = RGBWW { r: 200, g: 0, b: 55, ww: 10, cw: 120 };
    c.set_color(from).unwrap();
    let acts = c.fade_to(to, 10, 5);
    assert_eq!(acts.len(), 12);
    for k in 0..=5u64 {
        let expected = RGBWW {
            r: lerp(from.r, to.r, k, 5),
            g: lerp(from.g, to.g, k, 5),
            b: lerp(from.b, to.b, k, 5),
            ww: lerp(from.ww, to.ww, k, 5),
            cw: lerp(from.cw, to.cw, k, 5),
        };
        assert_eq!(acts[2 * k as usize], LedAction::Transmit(expected));
        assert_eq!(acts[2 * k as usize + 1], LedAction::Hold(2000));
    }
    assert_eq!(c.current_color(), to);
    assert!(c.is_powered_on());
}

#[test]
fn fade_to_powers_on_first_when_off() {
    let mut c = ready_controller();
    c.power_off();
    let acts = c.fade_to(RGBWW { r: 8, g: 8, b: 8, ww: 8, cw: 8 }, 1, 1);
    assert_eq!(acts[0], LedAction::SetPower(true));
    assert_eq!(acts.len(), 5);
}

#[test]
fn fade_out_ends_with_zero_transmit_then_deassert() {
    let mut c = ready_controller();
    c.set_color(RGBWW { r: 50, g: 50, b: 50, ww: 50, cw: 50 }).unwrap();
    let acts = c.fade_out(4, 2);
    assert_eq!(acts.len(), 8);
    assert_eq!(acts[acts.len() - 2], LedAction::Transmit(RGBWW::off()));
    assert_eq!(acts[acts.len() - 1], LedAction::SetPower(false));
    assert!(!c.is_powered_on());
    assert_eq!(c.current_color(), RGBWW::off());
}

#[test]
fn fade_in_powers_on_then_fades() {
    let mut c = ready_controller();
    c.power_off();
    let to = RGBWW { r: 100, g: 0, b: 0, ww: 0, cw: 0 };
    let acts = c.fade_in(to, 2, 2);
    assert_eq!(acts[0], LedAction::SetPower(true));
    assert_eq!(acts.len(), 7);
    assert_eq!(c.current_color(), to);
}

#[test]
fn natural_light_blends_morning_window() {
    // morning 07:00, noon 12:00, evening 19:00; at 09:30 the factor is
    // 150 / 300 and the season weight zero leaves the base untouched
    let a = LightPreset::new(1, 3, 5, 7, 9);
    let b = LightPreset::new(2, 4, 6, 8, 10);
    let c = LightPreset::new(200, 200, 200, 200, 200);
    let season = LightPreset::new(255, 255, 255, 255, 255);
    let got = calculate_natural_light("09:30", "07:00", "12:00", "19:00", &a, &b, &c, &season, 0)
        .unwrap();
    let expected = RGBWW {
        r: lerp(1, 2, 150, 300),
        g: lerp(3, 4, 150, 300),
        b: lerp(5, 6, 150, 300),
        ww: lerp(7, 8, 150, 300),
        cw: lerp(9, 10, 150, 300),
    };
    assert_eq!(got, expected);
    // the half-way blend truncates down to the first preset here
    assert_eq!(got, RGBWW { r: 1, g: 3, b: 5, ww: 7, cw: 9 });
}

#[test]
fn natural_light_outside_span_is_evening_preset() {
    let a = LightPreset::new(10, 10, 10, 10, 10);
    let b = LightPreset::new(20, 20, 20, 20, 20);
    let c = LightPreset::new(30, 31, 32, 33, 34);
    let season = LightPreset::new(0, 0, 0, 0, 0);
    for now in ["06:59", "19:00", "23:59", "00:00"] {
        let got =
            calculate_natural_light(now, "07:00", "12:00", "19:00", &a, &b, &c, &season, 0)
                .unwrap();
        assert_eq!(got, RGBWW { r: 30, g: 31, b: 32, ww: 33, cw: 34 });
    }
}

#[test]
fn natural_light_full_season_weight_is_season_preset() {
    let a = LightPreset::new(10, 10, 10, 10, 10);
    let b = LightPreset::new(20, 20, 20, 20, 20);
    let c = LightPreset::new(30, 30, 30, 30, 30);
    let season = LightPreset::new(77, 66, 55, 44, 33);
    let got = calculate_natural_light("09:30", "07:00", "12:00", "19:00", &a, &b, &c, &season, 1000)
        .unwrap();
    assert_eq!(got, RGBWW { r: 77, g: 66, b: 55, ww: 44, cw: 33 });
}

#[test]
fn natural_light_rejects_malformed_times() {
    let p = LightPreset::new(0, 0, 0, 0, 0);
    let r = calculate_natural_light("9:30", "07:00", "12:00", "19:00", &p, &p, &p, &p, 0);
    assert_eq!(r.unwrap_err(), LedError::BadTimeFormat);
    let r = calculate_natural_light("09:30", "07:00", "25:00", "19:00", &p, &p, &p, &p, 0);
    assert_eq!(r.unwrap_err(), LedError::BadTimeFormat);
}

#[test]
fn tick_manual_override_enabled_sets_manual_color() {
    let mut c = ready_controller();
    let acts = update_leds(&mut c, &settings(true, true), Some(&schedule_row()), RGBWW::off(), "12:00")
        .unwrap();
    assert_eq!(acts, vec![LedAction::Transmit(RGBWW { r: 9, g: 8, b: 7, ww: 6, cw: 5 })]);
}

#[test]
fn tick_manual_override_disabled_powers_off() {
    let mut c = ready_controller();
    let acts = update_leds(&mut c, &settings(false, true), Some(&schedule_row()), RGBWW::off(), "12:00")
        .unwrap();
    assert_eq!(acts, vec![LedAction::Transmit(RGBWW::off()), LedAction::SetPower(false)]);
    assert!(!c.is_powered_on());
}

#[test]
fn tick_schedule_window_sets_schedule_color() {
    let mut c = ready_controller();
    let acts = update_leds(&mut c, &settings(true, false), Some(&schedule_row()), RGBWW::off(), "12:00")
        .unwrap();
    // the stored 300 truncates to a byte exactly as the actuation does
    assert_eq!(
        acts,
        vec![LedAction::Transmit(RGBWW { r: 44, g: 20, b: 30, ww: 50, cw: 40 })]
    );
}

#[test]
fn tick_outside_schedule_window_powers_off() {
    let mut c = ready_controller();
    let acts = update_leds(&mut c, &settings(true, false), Some(&schedule_row()), RGBWW::off(), "22:00")
        .unwrap();
    assert_eq!(acts, vec![LedAction::Transmit(RGBWW::off()), LedAction::SetPower(false)]);
}

#[test]
fn tick_without_schedule_uses_default_color() {
    let mut c = ready_controller();
    let default_color = RGBWW { r: 3, g: 6, b: 9, ww: 12, cw: 15 };
    let acts = update_leds(&mut c, &settings(true, false), None, default_color, "03:00").unwrap();
    assert_eq!(acts, vec![LedAction::Transmit(default_color)]);
}
