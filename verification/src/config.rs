//! Configuration types for the controller and their validation rules.
//!
//! Reading and deserialising the configuration file is boundary work
//! that happens outside this crate; the structures arrive here as plain
//! values and every rule that accepts or rejects them is stated and
//! checked in this module.

use vstd::prelude::*;
use crate::timing::{parse_hhmm, str_eq, valid_hhmm};

verus! {

/// Why a configuration was rejected.  Index payloads count the fields
/// of the rejected group in declaration order.
#[derive(Debug, Clone, Copy, PartialEq, Eq, Structural)]
pub enum ConfigError {
    /// A relay GPIO pin number above 27.
    PinOutOfRange(u8),
    /// The same GPIO pin assigned to two relays.
    PinConflict(u8),
    /// An overheat threshold outside 0-60 degrees Celsius.
    OverheatTempOutOfRange(u8),
    /// An overheat cooldown shorter than 900 seconds.
    CooldownTooShort(u64),
    /// A default schedule window bound that is not a valid `HH:MM` time.
    BadScheduleTime(u8),
    /// A default LED channel value outside 0-255.
    ScheduleLedOutOfRange(u8),
    /// An empty web server address.
    EmptyAddress,
    /// A zero web server port.
    BadPort,
    /// A zero sensor retry count.
    RetryZero,
    /// A sensor poll interval shorter than 10 seconds.
    IntervalTooShort(u64),
    /// A zero history retention period.
    StorageDaysZero,
    /// An LED mode other than `manual` or `natural`.
    BadLedMode,
    /// A default brightness above 100 percent.
    BadBrightness(u8),
    /// A zero fade duration.
    FadeDurationZero,
    /// A zero fade step count.
    FadeStepsZero,
    /// A fade step count above 255.
    FadeStepsTooMany(u32),
    /// A season weight above one (stated in thousandths).
    SeasonWeightOutOfRange(u32),
}

/// Top-level flags.
pub struct MainConfig {
    pub debug: bool,
}

impl MainConfig {
    /// A boolean flag needs no checking.
    pub fn validate(&self) -> (r: Result<(), ConfigError>)
        ensures
            r is Ok,
    {
        Ok(())
    }
}

/// GPIO pin assignments for the relays and sensors, and the LED chain
/// length.
pub struct GpioConfig {
    pub uv_relay1: u8,
    pub uv_relay2: u8,
    pub heat_relay: u8,
    pub led_relay: u8,
    pub ic_count: Option<usize>,
    pub ds18b20_bus: Option<u8>,
    pub dht22_pin: Option<u8>,
}

/// The outcome of checking a `GpioConfig`: each relay pin must be a
/// valid GPIO number (0-27) and no pin may drive two relays, reported
/// in declaration order.
pub open spec fn gpio_validate_spec(c: GpioConfig) -> Result<(), ConfigError> {
    if c.uv_relay1 > 27 {
        Err(ConfigError::PinOutOfRange(c.uv_relay1))
    } else if c.uv_relay2 > 27 {
        Err(ConfigError::PinOutOfRange(c.uv_relay2))
    } else if c.heat_relay > 27 {
        Err(ConfigError::PinOutOfRange(c.heat_relay))
    } else if c.led_relay > 27 {
        Err(ConfigError::PinOutOfRange(c.led_relay))
    } else if c.uv_relay1 == c.uv_relay2 || c.uv_relay1 == c.heat_relay || c.uv_relay1
        == c.led_relay {
        Err(ConfigError::PinConflict(c.uv_relay1))
    } else if c.uv_relay2 == c.heat_relay || c.uv_relay2 == c.led_relay {
        Err(ConfigError::PinConflict(c.uv_relay2))
    } else if c.heat_relay == c.led_relay {
        Err(ConfigError::PinConflict(c.heat_relay))
    } else {
        Ok(())
    }
}

impl GpioConfig {
    /// Checks the pin assignments: accepted exactly when every relay
    /// pin is 0-27 and all four are distinct.
    pub fn validate(&self) -> (r: Result<(), ConfigError>)
        ensures
            r == gpio_validate_spec(*self),
            r is Ok <==> {
                &&& self.uv_relay1 <= 27
                &&& self.uv_relay2 <= 27
                &&& self.heat_relay <= 27
                &&& self.led_relay <= 27
                &&& self.uv_relay1 != self.uv_relay2
                &&& self.uv_relay1 != self.heat_relay
                &&& self.uv_relay1 != self.led_relay
                &&& self.uv_relay2 != self.heat_relay
                &&& self.uv_relay2 != self.led_relay
                &&& self.heat_relay != self.led_relay
            },
    {
        if self.uv_relay1 > 27 {
            return Err(ConfigError::PinOutOfRange(self.uv_relay1));
        }
        if self.uv_relay2 > 27 {
            return Err(ConfigError::PinOutOfRange(self.uv_relay2));
        }
        if self.heat_relay > 27 {
            return Err(ConfigError::PinOutOfRange(self.heat_relay));
        }
        if self.led_relay > 27 {
            return Err(ConfigError::PinOutOfRange(self.led_relay));
        }
        if self.uv_relay1 == self.uv_relay2 || self.uv_relay1 == self.heat_relay || self.uv_relay1
            == self.led_relay {
            return Err(ConfigError::PinConflict(self.uv_relay1));
        }
        if self.uv_relay2 == self.heat_relay || self.uv_relay2 == self.led_relay {
            return Err(ConfigError::PinConflict(self.uv_relay2));
        }
        if self.heat_relay == self.led_relay {
            return Err(ConfigError::PinConflict(self.heat_relay));
        }
        Ok(())
    }
}

/// The number of ICs in the LED chain, defaulting to 16 where the
/// configuration leaves it unset.
pub fn get_ic_count(config: &GpioConfig) -> (n: usize)
    ensures
        n == if config.ic_count is Some {
            config.ic_count->Some_0
        } else {
            16usize
        },
{
    match config.ic_count {
        Some(c) => c,
        None => 16,
    }
}

/// Overheat protection parameters for the heat lamp.
pub struct LightControlConfig {
    pub overheat_temp: u8,
    pub overheat_time: u64,
}

/// The outcome of checking a `LightControlConfig`: the threshold must
/// be 0-60 degrees Celsius and the cooldown at least 900 seconds.
pub open spec fn light_control_validate_spec(c: LightControlConfig) -> Result<(), ConfigError> {
    if c.overheat_temp > 60 {
        Err(ConfigError::OverheatTempOutOfRange(c.overheat_temp))
    } else if c.overheat_time < 900 {
        Err(ConfigError::CooldownTooShort(c.overheat_time))
    } else {
        Ok(())
    }
}

impl LightControlConfig {
    /// Checks the overheat parameters.
    pub fn validate(&self) -> (r: Result<(), ConfigError>)
        ensures
            r == light_control_validate_spec(*self),
            r is Ok <==> self.overheat_temp <= 60 && self.overheat_time >= 900,
    {
        if self.overheat_temp > 60 {
            return Err(ConfigError::OverheatTempOutOfRange(self.overheat_temp));
        }
        if self.overheat_time < 900 {
            return Err(ConfigError::CooldownTooShort(self.overheat_time));
        }
        Ok(())
    }
}

/// Sensor polling parameters.
pub struct GetDataConfig {
    pub retry: u8,
    pub interval: Option<u64>,
    pub backup_sensor: bool,
    pub storage_days: Option<u32>,
}

/// The outcome of checking a `GetDataConfig`: at least one retry, a
/// poll interval of at least 10 seconds where set, and a nonzero
/// retention period where set.
pub open spec fn get_data_validate_spec(c: GetDataConfig) -> Result<(), ConfigError> {
    if c.retry == 0 {
        Err(ConfigError::RetryZero)
    } else if c.interval is Some && c.interval->Some_0 < 10 {
        Err(ConfigError::IntervalTooShort(c.interval->Some_0))
    } else if c.storage_days is Some && c.storage_days->Some_0 < 1 {
        Err(ConfigError::StorageDaysZero)
    } else {
        Ok(())
    }
}

impl GetDataConfig {
    /// Checks the polling parameters.
    pub fn validate(&self) -> (r: Result<(), ConfigError>)
        ensures
            r == get_data_validate_spec(*self),
    {
        if self.retry == 0 {
            return Err(ConfigError::RetryZero);
        }
        match self.interval {
            Some(interval) => {
                if interval < 10 {
                    return Err(ConfigError::IntervalTooShort(interval));
                }
            },
            None => {},
        }
        match self.storage_days {
            Some(days) => {
                if days < 1 {
                    return Err(ConfigError::StorageDaysZero);
                }
            },
            None => {},
        }
        Ok(())
    }
}

/// Where the control interface listens.
pub struct WebConfig {
    pub address: String,
    pub port: u16,
}

/// The outcome of checking a `WebConfig`: a nonempty address and a
/// nonzero port.
pub open spec fn web_validate_spec(c: WebConfig) -> Result<(), ConfigError> {
    if c.address@.len() == 0 {
        Err(ConfigError::EmptyAddress)
    } else if c.port == 0 {
        Err(ConfigError::BadPort)
    } else {
        Ok(())
    }
}

impl WebConfig {
    /// Checks the listen address and port.
    pub fn validate(&self) -> (r: Result<(), ConfigError>)
        ensures
            r == web_validate_spec(*self),
            r is Ok <==> self.address@.len() > 0 && self.port != 0,
    {
        if self.address.as_str().is_empty() {
            return Err(ConfigError::EmptyAddress);
        }
        if self.port == 0 {
            return Err(ConfigError::BadPort);
        }
        Ok(())
    }
}

/// Default schedule windows and LED channel values, used when no
/// stored schedule row covers the current week.
#[allow(non_snake_case)]
pub struct ScheduleConfig {
    pub def_uv1_start: String,
    pub def_uv1_end: String,
    pub def_uv2_start: String,
    pub def_uv2_end: String,
    pub def_heat_start: String,
    pub def_heat_end: String,
    pub def_led_R: i32,
    pub def_led_G: i32,
    pub def_led_B: i32,
    pub def_led_WW: i32,
    pub def_led_CW: i32,
}

/// The outcome of checking a `ScheduleConfig`: the six window bounds
/// must be valid `HH:MM` times and the five default LED channel values
/// must lie in 0-255, reported in declaration order.
pub open spec fn schedule_validate_spec(c: ScheduleConfig) -> Result<(), ConfigError> {
    if !valid_hhmm(c.def_uv1_start@) {
        Err(ConfigError::BadScheduleTime(0))
    } else if !valid_hhmm(c.def_uv1_end@) {
        Err(ConfigError::BadScheduleTime(1))
    } else if !valid_hhmm(c.def_uv2_start@) {
        Err(ConfigError::BadScheduleTime(2))
    } else if !valid_hhmm(c.def_uv2_end@) {
        Err(ConfigError::BadScheduleTime(3))
    } else if !valid_hhmm(c.def_heat_start@) {
        Err(ConfigError::BadScheduleTime(4))
    } else if !valid_hhmm(c.def_heat_end@) {
        Err(ConfigError::BadScheduleTime(5))
    } else if !(0 <= c.def_led_R <= 255) {
        Err(ConfigError::ScheduleLedOutOfRange(0))
    } else if !(0 <= c.def_led_G <= 255) {
        Err(ConfigError::ScheduleLedOutOfRange(1))
    } else if !(0 <= c.def_led_B <= 255) {
        Err(ConfigError::ScheduleLedOutOfRange(2))
    } else if !(0 <= c.def_led_WW <= 255) {
        Err(ConfigError::ScheduleLedOutOfRange(3))
    } else if !(0 <= c.def_led_CW <= 255) {
        Err(ConfigError::ScheduleLedOutOfRange(4))
    } else {
        Ok(())
    }
}

impl ScheduleConfig {
    /// Checks the default windows and LED values.
    pub fn validate(&self) -> (r: Result<(), ConfigError>)
        ensures
            r == schedule_validate_spec(*self),
    {
        if parse_hhmm(self.def_uv1_start.as_str()).is_none() {
            return Err(ConfigError::BadScheduleTime(0));
        }
        if parse_hhmm(self.def_uv1_end.as_str()).is_none() {
            return Err(ConfigError::BadScheduleTime(1));
        }
        if parse_hhmm(self.def_uv2_start.as_str()).is_none() {
            return Err(ConfigError::BadScheduleTime(2));
        }
        if parse_hhmm(self.def_uv2_end.as_str()).is_none() {
            return Err(ConfigError::BadScheduleTime(3));
        }
        if parse_hhmm(self.def_heat_start.as_str()).is_none() {
            return Err(ConfigError::BadScheduleTime(4));
        }
        if parse_hhmm(self.def_heat_end.as_str()).is_none() {
            return Err(ConfigError::BadScheduleTime(5));
        }
        if self.def_led_R < 0 || self.def_led_R > 255 {
            return Err(ConfigError::ScheduleLedOutOfRange(0));
        }
        if self.def_led_G < 0 || self.def_led_G > 255 {
            return Err(ConfigError::ScheduleLedOutOfRange(1));
        }
        if self.def_led_B < 0 || self.def_led_B > 255 {
            return Err(ConfigError::ScheduleLedOutOfRange(2));
        }
        if self.def_led_WW < 0 || self.def_led_WW > 255 {
            return Err(ConfigError::ScheduleLedOutOfRange(3));
        }
        if self.def_led_CW < 0 || self.def_led_CW > 255 {
            return Err(ConfigError::ScheduleLedOutOfRange(4));
        }
        Ok(())
    }
}

/// One anchor color in the configuration file.
#[derive(Debug, Clone, Copy, PartialEq, Eq, Structural)]
pub struct LightPresetConfig {
    pub r: u8,
    pub g: u8,
    pub b: u8,
    pub ww: u8,
    pub cw: u8,
}

/// Static LED parameters: mode, brightness, fades, and the three
/// natural-light anchor presets.
pub struct LedConfig {
    pub default_mode: String,
    pub default_brightness: u8,
    pub fade_duration: u32,
    pub fade_steps: u32,
    pub morning: LightPresetConfig,
    pub noon: LightPresetConfig,
    pub evening: LightPresetConfig,
}

/// The outcome of checking a `LedConfig`: the mode must be `manual` or
/// `natural`, the brightness at most 100, the fade duration nonzero,
/// and the fade step count 1-255.  The anchor presets are byte-valued
/// and need no range check.
pub open spec fn led_validate_spec(c: LedConfig) -> Result<(), ConfigError> {
    if !(c.default_mode@ =~= "manual"@) && !(c.default_mode@ =~= "natural"@) {
        Err(ConfigError::BadLedMode)
    } else if c.default_brightness > 100 {
        Err(ConfigError::BadBrightness(c.default_brightness))
    } else if c.fade_duration == 0 {
        Err(ConfigError::FadeDurationZero)
    } else if c.fade_steps == 0 {
        Err(ConfigError::FadeStepsZero)
    } else if c.fade_steps > 255 {
        Err(ConfigError::FadeStepsTooMany(c.fade_steps))
    } else {
        Ok(())
    }
}

impl LedConfig {
    /// Checks the LED parameters.
    pub fn validate(&self) -> (r: Result<(), ConfigError>)
        ensures
            r == led_validate_spec(*self),
    {
        let manual = str_eq(self.default_mode.as_str(), "manual");
        let natural = str_eq(self.default_mode.as_str(), "natural");
        if !manual && !natural {
            return Err(ConfigError::BadLedMode);
        }
        if self.default_brightness > 100 {
            return Err(ConfigError::BadBrightness(self.default_brightness));
        }
        if self.fade_duration == 0 {
            return Err(ConfigError::FadeDurationZero);
        }
        if self.fade_steps == 0 {
            return Err(ConfigError::FadeStepsZero);
        }
        if self.fade_steps > 255 {
            return Err(ConfigError::FadeStepsTooMany(self.fade_steps));
        }
        Ok(())
    }
}

/// Runtime LED settings, as stored by the control interface.  The
/// season weight is a fraction of one, stated in thousandths.
pub struct LEDSettings {
    pub enabled: bool,
    pub override_natural: bool,
    pub season_weight_permille: u32,
    pub manual_color: LightPresetConfig,
}

impl LEDSettings {
    /// Checks the stored settings: accepted exactly when the season
    /// weight is at most one.  The manual color is byte-valued and
    /// needs no range check.
    pub fn validate(&self) -> (r: Result<(), ConfigError>)
        ensures
            r is Ok <==> self.season_weight_permille <= 1000,
            r is Err ==> r == Err::<(), ConfigError>(
                ConfigError::SeasonWeightOutOfRange(self.season_weight_permille),
            ),
    {
        if self.season_weight_permille > 1000 {
            return Err(ConfigError::SeasonWeightOutOfRange(self.season_weight_permille));
        }
        Ok(())
    }
}

/// The whole configuration file.
pub struct Config {
    pub main: MainConfig,
    pub gpio: GpioConfig,
    pub db: ScheduleConfig,
    pub web: WebConfig,
    pub light_control: LightControlConfig,
    pub get_data: GetDataConfig,
    pub led: LedConfig,
}

/// The outcome of checking a whole `Config`: the groups are checked in
/// the order main, GPIO pins, sensors, schedule defaults, web,
/// overheat, LED, and the first failure wins.
pub open spec fn config_validate_spec(c: Config) -> Result<(), ConfigError> {
    if gpio_validate_spec(c.gpio) is Err {
        gpio_validate_spec(c.gpio)
    } else if get_data_validate_spec(c.get_data) is Err {
        get_data_validate_spec(c.get_data)
    } else if schedule_validate_spec(c.db) is Err {
        schedule_validate_spec(c.db)
    } else if web_validate_spec(c.web) is Err {
        web_validate_spec(c.web)
    } else if light_control_validate_spec(c.light_control) is Err {
        light_control_validate_spec(c.light_control)
    } else if led_validate_spec(c.led) is Err {
        led_validate_spec(c.led)
    } else {
        Ok(())
    }
}

impl Config {
    /// Checks every group of the configuration and reports the first
    /// failure.
    pub fn validate(&self) -> (r: Result<(), ConfigError>)
        ensures
            r == config_validate_spec(*self),
    {
        match self.main.validate() {
            Err(e) => {
                return Err(e);
            },
            Ok(()) => {},
        }
        match self.gpio.validate() {
            Err(e) => {
                return Err(e);
            },
            Ok(()) => {},
        }
        match self.get_data.validate() {
            Err(e) => {
                return Err(e);
            },
            Ok(()) => {},
        }
        match self.db.validate() {
            Err(e) => {
                return Err(e);
            },
            Ok(()) => {},
        }
        match self.web.validate() {
            Err(e) => {
                return Err(e);
            },
            Ok(()) => {},
        }
        match self.light_control.validate() {
            Err(e) => {
                return Err(e);
            },
            Ok(()) => {},
        }
        match self.led.validate() {
            Err(e) => {
                return Err(e);
            },
            Ok(()) => {},
        }
        Ok(())
    }
}

} // verus!
