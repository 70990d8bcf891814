//! The LED strip supervisor: power sequencing, color commands, fades,
//! and the natural-light engine.
//!
//! The supervisor decides; the caller that owns the power relay, the
//! bus encoder and the clock performs.  Every command returns the exact
//! sequence of hardware steps to carry out, in order, as `LedAction`
//! values.  That makes the power-off ordering a theorem: the all-zero
//! transmit always stands strictly before the relay deassert, so the IC
//! chain can never latch stale state across a power cycle.

use vstd::prelude::*;
use crate::config::{LEDSettings, LightPresetConfig};
use crate::models::{
    interpolate_spec, lemma_interpolate_endpoints, preset_of, rgbww_from_str_spec, rgbww_of,
    rgbww_off, LightPreset, Schedule, RGBWW,
};
use crate::light_control::window_contains;
use crate::timing::{is_time_between, parse_hhmm, valid_hhmm, hhmm_minutes};

verus! {

/// One hardware step of an LED command, to be performed in sequence.
#[derive(Debug, Clone, Copy, PartialEq, Eq, Structural)]
pub enum LedAction {
    /// Command the LED power relay to the given level.
    SetPower(bool),
    /// Acquire the bus encoder.
    InitEncoder,
    /// Encode the color on every IC of the chain, write the frame to
    /// the bus, and hold the inter-frame reset delay.
    Transmit(RGBWW),
    /// Hold for the given number of milliseconds.
    Hold(u64),
}

/// Why an LED command was refused.
#[derive(Debug, Clone, Copy, PartialEq, Eq, Structural)]
pub enum LedError {
    /// The strip is powered but its encoder was never acquired.
    NotInitialized,
    /// A color string that is not five comma-separated byte values.
    InvalidColor,
    /// A time string that is not a valid `HH:MM` time of day.
    BadTimeFormat,
}

/// The hardware steps of a power-off: transmit the all-zero frame,
/// then deassert the power relay.
pub open spec fn power_off_actions() -> Seq<LedAction> {
    seq![LedAction::Transmit(rgbww_off()), LedAction::SetPower(false)]
}

/// The hardware steps of a color command, given the supervisor state
/// it starts from: power on first if needed, acquire the encoder if it
/// was never acquired, then transmit.
pub open spec fn set_color_actions(was_powered: bool, was_ready: bool, color: RGBWW) -> Seq<
    LedAction,
> {
    if was_powered {
        seq![LedAction::Transmit(color)]
    } else if was_ready {
        seq![LedAction::SetPower(true), LedAction::Transmit(color)]
    } else {
        seq![LedAction::SetPower(true), LedAction::InitEncoder, LedAction::Transmit(color)]
    }
}

/// A color blended toward another by the factor `num / den`, channel
/// by channel with truncation.
pub open spec fn color_lerp(a: RGBWW, b: RGBWW, num: int, den: int) -> RGBWW {
    rgbww_of(interpolate_spec(preset_of(a), preset_of(b), num, den))
}

/// The per-step hold of a fade over `duration_secs`, in milliseconds.
pub open spec fn fade_step_ms(duration_secs: u32, steps: u32) -> u64 {
    ((duration_secs as int) * 1000 / (steps as int)) as u64
}

/// The transmit/hold pairs of a fade: frame `k` of `steps + 1` carries
/// the blend of `from` toward `to` at factor `k / steps`.
pub open spec fn fade_frames(from: RGBWW, to: RGBWW, steps: int, step_ms: u64) -> Seq<LedAction> {
    Seq::new(
        (2 * (steps + 1)) as nat,
        |i: int|
            if i % 2 == 0 {
                LedAction::Transmit(color_lerp(from, to, i / 2, steps))
            } else {
                LedAction::Hold(step_ms)
            },
    )
}

/// The LED strip supervisor's state: whether the power relay is
/// asserted, whether the bus encoder has been acquired, and the color
/// last transmitted.
#[derive(PartialEq, Eq, Structural)]
pub struct LEDController {
    power_state: bool,
    encoder_ready: bool,
    current_color: RGBWW,
}

impl LEDController {
    /// Whether the power relay is commanded on.
    pub closed spec fn spec_powered(&self) -> bool {
        self.power_state
    }

    /// Whether the bus encoder has been acquired.
    pub closed spec fn spec_encoder_ready(&self) -> bool {
        self.encoder_ready
    }

    /// The color last transmitted (all-zero before any transmit).
    pub closed spec fn spec_current_color(&self) -> RGBWW {
        self.current_color
    }

    /// A fresh supervisor: unpowered, no encoder, all channels zero.
    pub fn new() -> (c: LEDController)
        ensures
            !c.spec_powered(),
            !c.spec_encoder_ready(),
            c.spec_current_color() == rgbww_off(),
    {
        LEDController { power_state: false, encoder_ready: false, current_color: RGBWW::off() }
    }

    /// Brings the strip up: power on, a settling hold, then the
    /// encoder acquisition.
    pub fn initialize(&mut self) -> (acts: Vec<LedAction>)
        ensures
            final(self).spec_powered(),
            final(self).spec_encoder_ready(),
            final(self).spec_current_color() == old(self).spec_current_color(),
            acts@ =~= seq![
                LedAction::SetPower(true),
                LedAction::Hold(100u64),
                LedAction::InitEncoder,
            ],
    {
        self.power_state = true;
        self.encoder_ready = true;
        let mut acts: Vec<LedAction> = Vec::new();
        acts.push(LedAction::SetPower(true));
        acts.push(LedAction::Hold(100));
        acts.push(LedAction::InitEncoder);
        acts
    }

    /// Asserts the power relay.
    pub fn power_on(&mut self) -> (acts: Vec<LedAction>)
        ensures
            final(self).spec_powered(),
            final(self).spec_encoder_ready() == old(self).spec_encoder_ready(),
            final(self).spec_current_color() == old(self).spec_current_color(),
            acts@ =~= seq![LedAction::SetPower(true)],
    {
        self.power_state = true;
        let mut acts: Vec<LedAction> = Vec::new();
        acts.push(LedAction::SetPower(true));
        acts
    }

    /// Shuts the strip down: always transmits the all-zero frame
    /// strictly before deasserting the power relay, so the IC chain
    /// cannot latch stale channel state across the power cycle.
    pub fn power_off(&mut self) -> (acts: Vec<LedAction>)
        ensures
            !final(self).spec_powered(),
            final(self).spec_encoder_ready() == old(self).spec_encoder_ready(),
            final(self).spec_current_color() == rgbww_off(),
            acts@ =~= power_off_actions(),
    {
        self.power_state = false;
        self.current_color = RGBWW::off();
        let mut acts: Vec<LedAction> = Vec::new();
        acts.push(LedAction::Transmit(RGBWW::off()));
        acts.push(LedAction::SetPower(false));
        acts
    }

    /// Commands a color: powers on first if the strip was off (and
    /// acquires the encoder if it was never acquired), then transmits.
    /// Refused only when the strip is powered but its encoder was
    /// never acquired.
    pub fn set_color(&mut self, color: RGBWW) -> (r: Result<Vec<LedAction>, LedError>)
        ensures
            r is Ok <==> !(old(self).spec_powered() && !old(self).spec_encoder_ready()),
            r is Ok ==> {
                &&& final(self).spec_powered()
                &&& final(self).spec_encoder_ready()
                &&& final(self).spec_current_color() == color
                &&& r->Ok_0@ =~= set_color_actions(
                    old(self).spec_powered(),
                    old(self).spec_encoder_ready(),
                    color,
                )
            },
            r is Err ==> {
                &&& *final(self) == *old(self)
                &&& r == Err::<Vec<LedAction>, LedError>(LedError::NotInitialized)
            },
    {
        let mut acts: Vec<LedAction> = Vec::new();
        if self.power_state {
            if !self.encoder_ready {
                return Err(LedError::NotInitialized);
            }
        } else {
            acts.push(LedAction::SetPower(true));
            if !self.encoder_ready {
                acts.push(LedAction::InitEncoder);
                self.encoder_ready = true;
            }
            self.power_state = true;
        }
        acts.push(LedAction::Transmit(color));
        self.current_color = color;
        Ok(acts)
    }

    /// Commands a color given as its five channel values.
    pub fn set_rgbww(&mut self, r: u8, g: u8, b: u8, ww: u8, cw: u8) -> (res: Result<
        Vec<LedAction>,
        LedError,
    >)
        ensures
            res is Ok <==> !(old(self).spec_powered() && !old(self).spec_encoder_ready()),
            res is Ok ==> {
                &&& final(self).spec_powered()
                &&& final(self).spec_encoder_ready()
                &&& final(self).spec_current_color() == (RGBWW { r, g, b, ww, cw })
                &&& res->Ok_0@ =~= set_color_actions(
                    old(self).spec_powered(),
                    old(self).spec_encoder_ready(),
                    RGBWW { r, g, b, ww, cw },
                )
            },
            res is Err ==> {
                &&& *final(self) == *old(self)
                &&& res == Err::<Vec<LedAction>, LedError>(LedError::NotInitialized)
            },
    {
        self.set_color(RGBWW { r, g, b, ww, cw })
    }

    /// Commands a color given as an `"R,G,B,WW,CW"` string.  A
    /// malformed string is refused and changes nothing.
    pub fn set_color_from_str(&mut self, color_str: &str) -> (r: Result<Vec<LedAction>, LedError>)
        ensures
            match rgbww_from_str_spec(color_str@) {
                Some(c) => {
                    &&& (r is Ok <==> !(old(self).spec_powered() && !old(
                        self,
                    ).spec_encoder_ready()))
                    &&& r is Ok ==> {
                        &&& final(self).spec_powered()
                        &&& final(self).spec_encoder_ready()
                        &&& final(self).spec_current_color() == c
                        &&& r->Ok_0@ =~= set_color_actions(
                            old(self).spec_powered(),
                            old(self).spec_encoder_ready(),
                            c,
                        )
                    }
                    &&& r is Err ==> {
                        &&& *final(self) == *old(self)
                        &&& r == Err::<Vec<LedAction>, LedError>(LedError::NotInitialized)
                    }
                },
                None => {
                    &&& *final(self) == *old(self)
                    &&& r == Err::<Vec<LedAction>, LedError>(LedError::InvalidColor)
                },
            },
    {
        match RGBWW::from_str(color_str) {
            Ok(c) => self.set_color(c),
            Err(_) => Err(LedError::InvalidColor),
        }
    }

    /// Whether the power relay is commanded on.
    pub fn is_powered_on(&self) -> (r: bool)
        ensures
            r == self.spec_powered(),
    {
        self.power_state
    }

    /// The color last transmitted.
    pub fn current_color(&self) -> (c: RGBWW)
        ensures
            c == self.spec_current_color(),
    {
        self.current_color
    }

    /// Fades from the color last transmitted to `target` over
    /// `duration_secs`, transmitting `steps + 1` frames each held for
    /// `duration_secs / steps`.  Powers the strip on first if it was
    /// off.
    pub fn fade_to(&mut self, target: RGBWW, duration_secs: u32, steps: u32) -> (acts: Vec<
        LedAction,
    >)
        requires
            steps >= 1,
        ensures
            final(self).spec_powered(),
            final(self).spec_encoder_ready() == old(self).spec_encoder_ready(),
            final(self).spec_current_color() == target,
            acts@ =~= (if old(self).spec_powered() {
                Seq::<LedAction>::empty()
            } else {
                seq![LedAction::SetPower(true)]
            }) + fade_frames(
                old(self).spec_current_color(),
                target,
                steps as int,
                fade_step_ms(duration_secs, steps),
            ),
    {
        let ghost start = self.current_color;
        let mut acts: Vec<LedAction> = Vec::new();
        let pl: usize = if self.power_state {
            0
        } else {
            acts.push(LedAction::SetPower(true));
            self.power_state = true;
            1
        };
        let step_ms: u64 = (duration_secs as u64) * 1000 / (steps as u64);
        let ghost frames = fade_frames(start, target, steps as int, step_ms);
        let start_preset = LightPreset::from_rgbww(&self.current_color);
        let target_preset = LightPreset::from_rgbww(&target);
        let mut k: u64 = 0;
        while k <= steps as u64
            invariant
                steps >= 1,
                k <= steps as u64 + 1,
                pl == if old(self).spec_powered() {
                    0int
                } else {
                    1int
                },
                pl == 1 ==> acts@[0] == LedAction::SetPower(true),
                acts@.len() == pl + 2 * k,
                frames == fade_frames(start, target, steps as int, step_ms),
                frames.len() == 2 * (steps as int + 1),
                start_preset == preset_of(start),
                target_preset == preset_of(target),
                forall|i: int| pl <= i < acts@.len() ==> #[trigger] acts@[i] == frames[i - pl],
                self.power_state,
                self.encoder_ready == old(self).spec_encoder_ready(),
                self.current_color == if k == 0 {
                    start
                } else {
                    color_lerp(start, target, k - 1, steps as int)
                },
            decreases steps as u64 - k + 1,
        {
            let frame_color = start_preset.interpolate(&target_preset, k as u32, steps).to_rgbww();
            proof {
                assert((2 * k as int) % 2 == 0 && (2 * k as int) / 2 == k as int);
                assert((2 * k as int + 1) % 2 == 1);
            }
            acts.push(LedAction::Transmit(frame_color));
            acts.push(LedAction::Hold(step_ms));
            self.current_color = frame_color;
            k = k + 1;
        }
        proof {
            lemma_interpolate_endpoints(preset_of(start), preset_of(target), steps as int);
            assert(acts@ =~= (if old(self).spec_powered() {
                Seq::<LedAction>::empty()
            } else {
                seq![LedAction::SetPower(true)]
            }) + frames);
        }
        acts
    }

    /// Fades to all channels off, then powers the strip down with the
    /// usual zero-transmit-then-deassert ordering.
    pub fn fade_out(&mut self, duration_secs: u32, steps: u32) -> (acts: Vec<LedAction>)
        requires
            steps >= 1,
        ensures
            !final(self).spec_powered(),
            final(self).spec_encoder_ready() == old(self).spec_encoder_ready(),
            final(self).spec_current_color() == rgbww_off(),
            acts@ =~= (if old(self).spec_powered() {
                Seq::<LedAction>::empty()
            } else {
                seq![LedAction::SetPower(true)]
            }) + fade_frames(
                old(self).spec_current_color(),
                rgbww_off(),
                steps as int,
                fade_step_ms(duration_secs, steps),
            ) + power_off_actions(),
    {
        let mut acts = self.fade_to(RGBWW::off(), duration_secs, steps);
        let mut tail = self.power_off();
        acts.append(&mut tail);
        acts
    }

    /// Powers the strip on and fades from the color last transmitted
    /// to `target`.
    pub fn fade_in(&mut self, target: RGBWW, duration_secs: u32, steps: u32) -> (acts: Vec<
        LedAction,
    >)
        requires
            steps >= 1,
        ensures
            final(self).spec_powered(),
            final(self).spec_encoder_ready() == old(self).spec_encoder_ready(),
            final(self).spec_current_color() == target,
            acts@ =~= seq![LedAction::SetPower(true)] + fade_frames(
                old(self).spec_current_color(),
                target,
                steps as int,
                fade_step_ms(duration_secs, steps),
            ),
    {
        let mut acts = self.power_on();
        let mut tail = self.fade_to(target, duration_secs, steps);
        acts.append(&mut tail);
        acts
    }
}

/// The time-of-day base color: between morning and noon the blend of
/// the morning and noon presets, between noon and evening the blend of
/// the noon and evening presets, and the evening preset verbatim
/// before morning or from evening on.  Times are minutes since
/// midnight; each blend factor is the exact position inside its
/// window.
pub open spec fn natural_base_spec(
    now: int,
    morning: int,
    noon: int,
    evening: int,
    morning_preset: LightPreset,
    noon_preset: LightPreset,
    evening_preset: LightPreset,
) -> LightPreset {
    if morning <= now < noon {
        interpolate_spec(morning_preset, noon_preset, now - morning, noon - morning)
    } else if noon <= now < evening {
        interpolate_spec(noon_preset, evening_preset, now - noon, evening - noon)
    } else {
        evening_preset
    }
}

/// The natural-light color: the time-of-day base blended toward the
/// season preset by the season weight, stated in thousandths.
pub open spec fn natural_light_spec(
    now: int,
    morning: int,
    noon: int,
    evening: int,
    morning_preset: LightPreset,
    noon_preset: LightPreset,
    evening_preset: LightPreset,
    season_preset: LightPreset,
    season_weight_permille: int,
) -> RGBWW {
    rgbww_of(
        interpolate_spec(
            natural_base_spec(now, morning, noon, evening, morning_preset, noon_preset,
            evening_preset),
            season_preset,
            season_weight_permille,
            1000,
        ),
    )
}

/// Computes the natural-light color for a time of day from the three
/// anchor presets and the season blend.  All four times must be valid
/// `HH:MM` strings; malformed times are the only failure.
pub fn calculate_natural_light(
    current_time: &str,
    morning_time: &str,
    noon_time: &str,
    evening_time: &str,
    morning_preset: &LightPreset,
    noon_preset: &LightPreset,
    evening_preset: &LightPreset,
    season_preset: &LightPreset,
    season_weight_permille: u32,
) -> (r: Result<RGBWW, LedError>)
    ensures
        r is Ok <==> {
            &&& valid_hhmm(current_time@)
            &&& valid_hhmm(morning_time@)
            &&& valid_hhmm(noon_time@)
            &&& valid_hhmm(evening_time@)
        },
        r is Ok ==> r->Ok_0 == natural_light_spec(
            hhmm_minutes(current_time@),
            hhmm_minutes(morning_time@),
            hhmm_minutes(noon_time@),
            hhmm_minutes(evening_time@),
            *morning_preset,
            *noon_preset,
            *evening_preset,
            *season_preset,
            season_weight_permille as int,
        ),
        r is Err ==> r == Err::<RGBWW, LedError>(LedError::BadTimeFormat),
{
    let now = match parse_hhmm(current_time) {
        Some(m) => m,
        None => {
            return Err(LedError::BadTimeFormat);
        },
    };
    let morning = match parse_hhmm(morning_time) {
        Some(m) => m,
        None => {
            return Err(LedError::BadTimeFormat);
        },
    };
    let noon = match parse_hhmm(noon_time) {
        Some(m) => m,
        None => {
            return Err(LedError::BadTimeFormat);
        },
    };
    let evening = match parse_hhmm(evening_time) {
        Some(m) => m,
        None => {
            return Err(LedError::BadTimeFormat);
        },
    };
    let base: LightPreset = if morning <= now && now < noon {
        morning_preset.interpolate(noon_preset, (now - morning) as u32, (noon - morning) as u32)
    } else if noon <= now && now < evening {
        noon_preset.interpolate(evening_preset, (now - noon) as u32, (evening - noon) as u32)
    } else {
        *evening_preset
    };
    let blended = base.interpolate(season_preset, season_weight_permille, 1000);
    Ok(blended.to_rgbww())
}

/// The color a scheduled LED tick should show, or `None` where the
/// strip should power down: a manual override wins and shows its color
/// only while enabled; otherwise a schedule row shows its color inside
/// its window; with no row the configured default color holds
/// around the clock.
pub open spec fn led_tick_color(
    settings: LEDSettings,
    schedule: Option<&Schedule>,
    default_color: RGBWW,
    now: Seq<char>,
) -> Option<RGBWW> {
    if settings.override_natural {
        if settings.enabled {
            Some(manual_rgbww(settings.manual_color))
        } else {
            None
        }
    } else {
        match schedule {
            Some(s) => if window_contains(s.led_start@, s.led_end@, now) {
                Some(schedule_led_rgbww(*s))
            } else {
                None
            },
            None => Some(default_color),
        }
    }
}

/// A stored manual color as a color command.
pub open spec fn manual_rgbww(c: LightPresetConfig) -> RGBWW {
    RGBWW { r: c.r, g: c.g, b: c.b, ww: c.ww, cw: c.cw }
}

/// A schedule row's LED color as a color command, each stored channel
/// truncated to a byte.
pub open spec fn schedule_led_rgbww(s: Schedule) -> RGBWW {
    RGBWW {
        r: s.led_r as u8,
        g: s.led_g as u8,
        b: s.led_b as u8,
        ww: s.led_ww as u8,
        cw: s.led_cw as u8,
    }
}

/// One LED tick: applies the manual override, the schedule row for the
/// current week, or the configured default, and powers the strip down
/// outside the scheduled window or while the override is disabled.
/// Refused only where a color command is due and the strip is powered
/// with its encoder never acquired.
pub fn update_leds(
    controller: &mut LEDController,
    settings: &LEDSettings,
    schedule: Option<&Schedule>,
    default_color: RGBWW,
    current_time: &str,
) -> (r: Result<Vec<LedAction>, LedError>)
    ensures
        match led_tick_color(*settings, schedule, default_color, current_time@) {
            Some(c) => {
                &&& (r is Ok <==> !(old(controller).spec_powered() && !old(
                    controller,
                ).spec_encoder_ready()))
                &&& r is Ok ==> {
                    &&& final(controller).spec_powered()
                    &&& final(controller).spec_encoder_ready()
                    &&& final(controller).spec_current_color() == c
                    &&& r->Ok_0@ =~= set_color_actions(
                        old(controller).spec_powered(),
                        old(controller).spec_encoder_ready(),
                        c,
                    )
                }
                &&& r is Err ==> {
                    &&& *final(controller) == *old(controller)
                    &&& r == Err::<Vec<LedAction>, LedError>(LedError::NotInitialized)
                }
            },
            None => {
                &&& r is Ok
                &&& r->Ok_0@ =~= power_off_actions()
                &&& !final(controller).spec_powered()
                &&& final(controller).spec_encoder_ready() == old(
                    controller,
                ).spec_encoder_ready()
                &&& final(controller).spec_current_color() == rgbww_off()
            },
        },
{
    if settings.override_natural {
        if settings.enabled {
            let c = RGBWW {
                r: settings.manual_color.r,
                g: settings.manual_color.g,
                b: settings.manual_color.b,
                ww: settings.manual_color.ww,
                cw: settings.manual_color.cw,
            };
            controller.set_color(c)
        } else {
            Ok(controller.power_off())
        }
    } else {
        match schedule {
            Some(s) => {
                if is_time_between(current_time, s.led_start.as_str(), s.led_end.as_str()) {
                    let c = s.led_color();
                    controller.set_color(c)
                } else {
                    Ok(controller.power_off())
                }
            },
            None => controller.set_color(default_color),
        }
    }
}

/// Law: in every power-off sequence, each relay deassert is strictly
/// preceded by the all-zero transmit.
pub proof fn lemma_power_off_ordering(acts: Seq<LedAction>)
    requires
        acts =~= power_off_actions(),
    ensures
        forall|j: int|
            0 <= j < acts.len() && acts[j] == LedAction::SetPower(false) ==> exists|i: int|
                0 <= i < j && acts[i] == LedAction::Transmit(rgbww_off()),
{
    assert forall|j: int|
        0 <= j < acts.len() && acts[j] == LedAction::SetPower(false) implies exists|i: int|
        0 <= i < j && acts[i] == LedAction::Transmit(rgbww_off()) by {
        assert(acts[0] == LedAction::Transmit(rgbww_off()));
        assert(j == 1);
        assert(0 <= 0 < j && acts[0] == LedAction::Transmit(rgbww_off()));
    }
}

} // verus!
