use terrarium_control::api::{map_db_error, ApiError};
use terrarium_control::config::{
    get_ic_count, Config, ConfigError, GetDataConfig, GpioConfig, LEDSettings, LedConfig,
    LightControlConfig, LightPresetConfig, MainConfig, ScheduleConfig, WebConfig,
};

fn good_gpio() -> GpioConfig {
    GpioConfig {
        uv_relay1: 17,
        uv_relay2: 27,
        heat_relay: 22,
        led_relay: 5,
        ic_count: Some(16),
        ds18b20_bus: Some(4),
        dht22_pin: Some(18),
    }
}

fn good_schedule() -> ScheduleConfig {
    ScheduleConfig {
        def_uv1_start: String::from("08:00"),
        def_uv1_end: String::from("18:00"),
        def_uv2_start: String::from("10:00"),
        def_uv2_end: String::from("16:00"),
        def_heat_start: String::from("07:00"),
        def_heat_end: String::from("19:00"),
        def_led_R: 100,
        def_led_G: 100,
        def_led_B: 100,
        def_led_WW: 100,
        def_led_CW: 100,
    }
}

fn good_led() -> LedConfig {
    LedConfig {
        default_mode: String::from("natural"),
        default_brightness: 80,
        fade_duration: 5,
        fade_steps: 50,
        morning: LightPresetConfig { r: 255, g: 180, b: 120, ww: 200, cw: 50 },
        noon: LightPresetConfig { r: 255, g: 255, b: 255, ww: 100, cw: 255 },
        evening: LightPresetConfig { r: 255, g: 120, b: 50, ww: 255, cw: 20 },
    }
}

fn good_config() -> Config {
    Config {
        main: MainConfig { debug: false },
        gpio: good_gpio(),
        db: good_schedule(),
        web: WebConfig { address: String::from("127.0.0.1"), port: 8080 },
        light_control: LightControlConfig { overheat_temp: 35, overheat_time: 900 },
        get_data: GetDataConfig {
            retry: 3,
            interval: Some(60),
            backup_sensor: true,
            storage_days: Some(30),
        },
        led: good_led(),
    }
}

#[test]
fn good_configuration_is_accepted() {
    assert_eq!(good_config().validate(), Ok(()));
}

#[test]
fn gpio_rejects_pin_above_27() {
    let mut g = good_gpio();
    g.heat_relay = 28;
    assert_eq!(g.validate(), Err(ConfigError::PinOutOfRange(28)));
}

#[test]
fn gpio_rejects_conflicting_pins() {
    let mut g = good_gpio();
    g.uv_relay2 = 17;
    assert_eq!(g.validate(), Err(ConfigError::PinConflict(17)));
    let mut g = good_gpio();
    g.led_relay = 22;
    assert_eq!(g.validate(), Err(ConfigError::PinConflict(22)));
}

#[test]
fn ic_count_defaults_to_sixteen() {
    let mut g = good_gpio();
    assert_eq!(get_ic_count(&g), 16);
    g.ic_count = Some(3);
    assert_eq!(get_ic_count(&g), 3);
    g.ic_count = None;
    assert_eq!(get_ic_count(&g), 16);
}

#[test]
fn light_control_rejects_threshold_above_60() {
    let c = LightControlConfig { overheat_temp: 61, overheat_time: 900 };
    assert_eq!(c.validate(), Err(ConfigError::OverheatTempOutOfRange(61)));
}

#[test]
fn light_control_rejects_short_cooldown() {
    let c = LightControlConfig { overheat_temp: 35, overheat_time: 899 };
    assert_eq!(c.validate(), Err(ConfigError::CooldownTooShort(899)));
}

#[test]
fn schedule_rejects_bad_time_fields_in_order() {
    let mut s = good_schedule();
    s.def_uv2_end = String::from("25:00");
    assert_eq!(s.validate(), Err(ConfigError::BadScheduleTime(3)));
    s.def_uv1_start = String::from("8:00");
    assert_eq!(s.validate(), Err(ConfigError::BadScheduleTime(0)));
}

#[test]
fn schedule_rejects_led_values_out_of_range() {
    let mut s = good_schedule();
    s.def_led_B = 256;
    assert_eq!(s.validate(), Err(ConfigError::ScheduleLedOutOfRange(2)));
    let mut s = good_schedule();
    s.def_led_R = -1;
    assert_eq!(s.validate(), Err(ConfigError::ScheduleLedOutOfRange(0)));
}

#[test]
fn web_rejects_empty_address_and_zero_port() {
    let w = WebConfig { address: String::new(), port: 8080 };
    assert_eq!(w.validate(), Err(ConfigError::EmptyAddress));
    let w = WebConfig { address: String::from("0.0.0.0"), port: 0 };
    assert_eq!(w.validate(), Err(ConfigError::BadPort));
}

#[test]
fn get_data_rejects_bad_values() {
    let base = GetDataConfig { retry: 3, interval: None, backup_sensor: false, storage_days: None };
    assert_eq!(base.validate(), Ok(()));
    let c = GetDataConfig { retry: 0, ..base };
    assert_eq!(c.validate(), Err(ConfigError::RetryZero));
    let c = GetDataConfig { interval: Some(9), ..base };
    assert_eq!(c.validate(), Err(ConfigError::IntervalTooShort(9)));
    let c = GetDataConfig { storage_days: Some(0), ..base };
    assert_eq!(c.validate(), Err(ConfigError::StorageDaysZero));
}

#[test]
fn led_config_rejects_unknown_mode() {
    let mut l = good_led();
    l.default_mode = String::from("auto");
    assert_eq!(l.validate(), Err(ConfigError::BadLedMode));
}

#[test]
fn led_config_rejects_bad_fade_settings() {
    let mut l = good_led();
    l.default_brightness = 101;
    assert_eq!(l.validate(), Err(ConfigError::BadBrightness(101)));
    let mut l = good_led();
    l.fade_duration = 0;
    assert_eq!(l.validate(), Err(ConfigError::FadeDurationZero));
    let mut l = good_led();
    l.fade_steps = 0;
    assert_eq!(l.validate(), Err(ConfigError::FadeStepsZero));
    let mut l = good_led();
    l.fade_steps = 256;
    assert_eq!(l.validate(), Err(ConfigError::FadeStepsTooMany(256)));
}

#[test]
fn led_settings_reject_season_weight_above_one() {
    let s = LEDSettings {
        enabled: true,
        override_natural: false,
        season_weight_permille: 1001,
        manual_color: LightPresetConfig { r: 0, g: 0, b: 0, ww: 0, cw: 0 },
    };
    assert_eq!(s.validate(), Err(ConfigError::SeasonWeightOutOfRange(1001)));
    let s = LEDSettings { season_weight_permille: 1000, ..s };
    assert_eq!(s.validate(), Ok(()));
}

#[test]
fn whole_config_reports_first_failing_group() {
    let mut c = good_config();
    c.get_data.retry = 0;
    c.led.fade_steps = 0;
    assert_eq!(c.validate(), Err(ConfigError::RetryZero));
}

#[test]
fn whole_config_rejects_conflicting_relay_pins() {
    let mut c = good_config();
    c.gpio.uv_relay2 = c.gpio.uv_relay1;
    assert_eq!(c.validate(), Err(ConfigError::PinConflict(17)));
}

#[test]
fn whole_config_checks_gpio_before_the_later_groups() {
    let mut c = good_config();
    c.gpio.heat_relay = 99;
    c.get_data.retry = 0;
    assert_eq!(c.validate(), Err(ConfigError::PinOutOfRange(99)));
}

#[test]
fn db_error_keeps_its_description() {
    let e = map_db_error("no such table: schedule");
    match &e {
        ApiError::InternalError(m) => {
            assert_eq!(m, "Database error: no such table: schedule");
        },
        _ => panic!("wrong classification"),
    }
    assert_eq!(e.message(), "Database error: no such table: schedule");
}
