//! The lamp supervisor: UV switching and the heat-lamp safety state
//! machine.
//!
//! The heat lamp may never be commanded on while the enclosure is at or
//! above the overheat threshold, nor before a mandatory cooldown after
//! a trip has elapsed.  The machine works on plain values: temperatures
//! arrive in tenths of a degree Celsius and the clock as seconds of a
//! monotonic counter, both supplied by the caller that owns the sensors
//! and the clock.  Every transition returns the relay level it decided,
//! and safety transitions are infallible: no error path can skip them.

use vstd::prelude::*;
use crate::config::LightControlConfig;
use crate::models::Schedule;
use crate::timing::{hhmm_minutes, is_time_between, lemma_hhmm_lex_minutes, lex_le, valid_hhmm};

verus! {

/// Seconds elapsed from `t0` to `now` on a monotonic clock, saturating
/// at zero.
pub open spec fn elapsed_secs(t0: u64, now: u64) -> int {
    if now >= t0 {
        now - t0
    } else {
        0
    }
}

/// Whether `time` lies in the inclusive window from `start` to `end`,
/// all three compared as fixed-width `HH:MM` strings.
pub open spec fn window_contains(start: Seq<char>, end: Seq<char>, time: Seq<char>) -> bool {
    lex_le(start, time) && lex_le(time, end)
}

/// Law: on valid fixed-width `HH:MM` strings, window membership is
/// exactly the inclusive interval test on minutes since midnight.
pub proof fn lemma_window_membership(start: Seq<char>, end: Seq<char>, time: Seq<char>)
    requires
        valid_hhmm(start),
        valid_hhmm(end),
        valid_hhmm(time),
    ensures
        window_contains(start, end, time) <==> (hhmm_minutes(start) <= hhmm_minutes(time)
            && hhmm_minutes(time) <= hhmm_minutes(end)),
{
    lemma_hhmm_lex_minutes(start, time);
    lemma_hhmm_lex_minutes(time, end);
}

/// The heat level the safety machine decides for a request: forced off
/// at or above the threshold and during a pending cooldown, the
/// request itself otherwise.
pub open spec fn heat_decision(s: LightController, requested: bool, now: u64) -> bool {
    if s.spec_too_hot() {
        false
    } else if s.spec_cooling_down(now) {
        false
    } else {
        requested
    }
}

/// Law: the safety machine never decides to power the heat lamp while
/// the recorded temperature is at or above the overheat threshold, nor
/// while a trip is still inside its cooldown — whatever was requested.
pub proof fn lemma_heat_interlock(s: LightController, requested: bool, now: u64)
    ensures
        s.spec_too_hot() ==> !heat_decision(s, requested, now),
        s.spec_cooling_down(now) ==> !heat_decision(s, requested, now),
{
}

/// Law: once the cooldown has elapsed, the safety machine honours the
/// request — the release looks at elapsed time alone.  The one premise
/// beyond validity is that the recorded temperature stands below the
/// threshold: a recording still at or above it re-trips instead of
/// releasing.
pub proof fn lemma_cooldown_release(s: LightController, requested: bool, now: u64)
    requires
        !s.spec_too_hot(),
        s.spec_last_overheat() matches Some(t0) && elapsed_secs(t0, now)
            >= s.spec_overheat_time() as int,
    ensures
        !s.spec_cooling_down(now),
        heat_decision(s, requested, now) == requested,
{
}

/// The lamp supervisor's state: commanded UV and heat levels, the
/// overheat parameters, the last recorded temperature (tenths of a
/// degree Celsius), and the trip marker of the safety machine.
pub struct LightController {
    uv1_on: bool,
    uv2_on: bool,
    heat_on: bool,
    overheat_temp: u8,
    overheat_time: u64,
    last_overheat: Option<u64>,
    current_temp: i32,
    overheating: bool,
}

impl LightController {
    /// The commanded level of the first UV lamp relay.
    pub closed spec fn spec_uv1_on(&self) -> bool {
        self.uv1_on
    }

    /// The commanded level of the second UV lamp relay.
    pub closed spec fn spec_uv2_on(&self) -> bool {
        self.uv2_on
    }

    /// The commanded level of the heat lamp relay.
    pub closed spec fn spec_heat_on(&self) -> bool {
        self.heat_on
    }

    /// The overheat threshold in whole degrees Celsius.
    pub closed spec fn spec_overheat_temp(&self) -> u8 {
        self.overheat_temp
    }

    /// The mandatory cooldown after a trip, in seconds.
    pub closed spec fn spec_overheat_time(&self) -> u64 {
        self.overheat_time
    }

    /// The clock reading at the last trip, while one is pending.
    pub closed spec fn spec_last_overheat(&self) -> Option<u64> {
        self.last_overheat
    }

    /// The last recorded temperature, in tenths of a degree Celsius.
    pub closed spec fn spec_current_temp(&self) -> i32 {
        self.current_temp
    }

    /// The published overheat flag.
    pub closed spec fn spec_overheating(&self) -> bool {
        self.overheating
    }

    /// The overheat flag mirrors the trip marker: it is set exactly
    /// while a trip is pending.
    pub open spec fn wf(&self) -> bool {
        self.spec_overheating() <==> self.spec_last_overheat() is Some
    }

    /// Whether the last recorded temperature has reached the overheat
    /// threshold.
    pub open spec fn spec_too_hot(&self) -> bool {
        self.spec_current_temp() as int >= self.spec_overheat_temp() as int * 10
    }

    /// Whether a pending trip is still inside its cooldown at `now`.
    pub open spec fn spec_cooling_down(&self, now: u64) -> bool {
        &&& self.spec_last_overheat() is Some
        &&& elapsed_secs(self.spec_last_overheat()->Some_0, now) < self.spec_overheat_time() as int
    }

    /// A fresh supervisor: lamps off, no trip pending, temperature
    /// zero, thresholds taken from the configuration.
    pub fn new(config: &LightControlConfig) -> (c: LightController)
        ensures
            c.wf(),
            !c.spec_uv1_on(),
            !c.spec_uv2_on(),
            !c.spec_heat_on(),
            c.spec_overheat_temp() == config.overheat_temp,
            c.spec_overheat_time() == config.overheat_time,
            c.spec_last_overheat() is None,
            c.spec_current_temp() == 0i32,
            !c.spec_overheating(),
    {
        LightController {
            uv1_on: false,
            uv2_on: false,
            heat_on: false,
            overheat_temp: config.overheat_temp,
            overheat_time: config.overheat_time,
            last_overheat: None,
            current_temp: 0,
            overheating: false,
        }
    }

    /// Commands the first UV lamp.
    pub fn set_uv1(&mut self, state: bool)
        ensures
            final(self).spec_uv1_on() == state,
            unchanged_but_uv1(*old(self), *final(self)),
    {
        self.uv1_on = state;
    }

    /// Commands the second UV lamp.
    pub fn set_uv2(&mut self, state: bool)
        ensures
            final(self).spec_uv2_on() == state,
            unchanged_but_uv2(*old(self), *final(self)),
    {
        self.uv2_on = state;
    }

    /// Records a new temperature reading.  A reading at or above the
    /// threshold trips the safety machine: the heat relay is forced off
    /// at once, the trip instant is recorded, and the returned command
    /// says so; a cooler reading changes nothing but the record.
    pub fn update_temperature(&mut self, temp: i32, now: u64) -> (cmd: Option<bool>)
        requires
            old(self).wf(),
        ensures
            final(self).wf(),
            final(self).spec_current_temp() == temp,
            same_parameters(*old(self), *final(self)),
            final(self).spec_uv1_on() == old(self).spec_uv1_on(),
            final(self).spec_uv2_on() == old(self).spec_uv2_on(),
            temp as int >= old(self).spec_overheat_temp() as int * 10 ==> {
                &&& !final(self).spec_heat_on()
                &&& final(self).spec_overheating()
                &&& final(self).spec_last_overheat() == Some(now)
                &&& cmd == Some(false)
            },
            (temp as int) < old(self).spec_overheat_temp() as int * 10 ==> {
                &&& final(self).spec_heat_on() == old(self).spec_heat_on()
                &&& final(self).spec_overheating() == old(self).spec_overheating()
                &&& final(self).spec_last_overheat() == old(self).spec_last_overheat()
                &&& cmd is None
            },
    {
        self.current_temp = temp;
        if temp >= (self.overheat_temp as i32) * 10 {
            self.overheating = true;
            self.heat_on = false;
            self.last_overheat = Some(now);
            Some(false)
        } else {
            None
        }
    }

    /// Applies a requested heat level through the safety machine and
    /// returns the level actually commanded.  At or above the threshold
    /// the lamp is forced off and the trip instant refreshed; during a
    /// pending cooldown the request is ignored and the lamp held off;
    /// once the cooldown has elapsed the trip is cleared and the
    /// request applied; otherwise the request is applied directly.
    /// The release checks elapsed time only, not the temperature, but a
    /// recorded temperature still at the threshold re-trips first.
    pub fn control_heat(&mut self, requested: bool, now: u64) -> (level: bool)
        requires
            old(self).wf(),
        ensures
            final(self).wf(),
            level == heat_decision(*old(self), requested, now),
            level == final(self).spec_heat_on(),
            same_parameters(*old(self), *final(self)),
            final(self).spec_uv1_on() == old(self).spec_uv1_on(),
            final(self).spec_uv2_on() == old(self).spec_uv2_on(),
            final(self).spec_current_temp() == old(self).spec_current_temp(),
            old(self).spec_too_hot() ==> {
                &&& !level
                &&& final(self).spec_overheating()
                &&& final(self).spec_last_overheat() == Some(now)
            },
            !old(self).spec_too_hot() && old(self).spec_cooling_down(now) ==> {
                &&& !level
                &&& final(self).spec_overheating()
                &&& final(self).spec_last_overheat() == old(self).spec_last_overheat()
            },
            !old(self).spec_too_hot() && !old(self).spec_cooling_down(now) ==> {
                &&& level == requested
                &&& !final(self).spec_overheating()
                &&& final(self).spec_last_overheat() is None
            },
    {
        if self.current_temp >= (self.overheat_temp as i32) * 10 {
            self.overheating = true;
            self.heat_on = false;
            self.last_overheat = Some(now);
            return false;
        }
        match self.last_overheat {
            Some(t0) => {
                let elapsed: u64 = if now >= t0 {
                    now - t0
                } else {
                    0
                };
                if elapsed >= self.overheat_time {
                    self.last_overheat = None;
                    self.overheating = false;
                    self.heat_on = requested;
                    requested
                } else {
                    self.heat_on = false;
                    false
                }
            },
            None => {
                self.heat_on = requested;
                requested
            },
        }
    }

    /// Reads the published overheat flag.
    pub fn is_overheating(&self) -> (r: bool)
        ensures
            r == self.spec_overheating(),
    {
        self.overheating
    }

    /// Reads the last recorded temperature, in tenths of a degree
    /// Celsius.
    pub fn get_temperature(&self) -> (t: i32)
        ensures
            t == self.spec_current_temp(),
    {
        self.current_temp
    }

    /// Reads how many seconds of a pending cooldown remain at `now`,
    /// or `None` while no trip is pending.
    pub fn get_overheat_cooldown_remaining(&self, now: u64) -> (r: Option<u64>)
        ensures
            match self.spec_last_overheat() {
                Some(t0) => r == Some(
                    (if elapsed_secs(t0, now) >= self.spec_overheat_time() as int {
                        0u64
                    } else {
                        (self.spec_overheat_time() as int - elapsed_secs(t0, now)) as u64
                    }),
                ),
                None => r is None,
            },
    {
        match self.last_overheat {
            Some(t0) => {
                let elapsed: u64 = if now >= t0 {
                    now - t0
                } else {
                    0
                };
                if elapsed >= self.overheat_time {
                    Some(0)
                } else {
                    Some(self.overheat_time - elapsed)
                }
            },
            None => None,
        }
    }

    /// Reads the commanded heat relay level.
    pub fn heat_is_on(&self) -> (r: bool)
        ensures
            r == self.spec_heat_on(),
    {
        self.heat_on
    }

    /// Reads the commanded level of the first UV relay.
    pub fn uv1_is_on(&self) -> (r: bool)
        ensures
            r == self.spec_uv1_on(),
    {
        self.uv1_on
    }

    /// Reads the commanded level of the second UV relay.
    pub fn uv2_is_on(&self) -> (r: bool)
        ensures
            r == self.spec_uv2_on(),
    {
        self.uv2_on
    }
}

/// The overheat parameters never change after construction.
pub open spec fn same_parameters(a: LightController, b: LightController) -> bool {
    &&& b.spec_overheat_temp() == a.spec_overheat_temp()
    &&& b.spec_overheat_time() == a.spec_overheat_time()
}

/// Everything except the first UV level is unchanged.
pub open spec fn unchanged_but_uv1(a: LightController, b: LightController) -> bool {
    &&& b.spec_uv2_on() == a.spec_uv2_on()
    &&& b.spec_heat_on() == a.spec_heat_on()
    &&& same_parameters(a, b)
    &&& b.spec_last_overheat() == a.spec_last_overheat()
    &&& b.spec_current_temp() == a.spec_current_temp()
    &&& b.spec_overheating() == a.spec_overheating()
}

/// Everything except the second UV level is unchanged.
pub open spec fn unchanged_but_uv2(a: LightController, b: LightController) -> bool {
    &&& b.spec_uv1_on() == a.spec_uv1_on()
    &&& b.spec_heat_on() == a.spec_heat_on()
    &&& same_parameters(a, b)
    &&& b.spec_last_overheat() == a.spec_last_overheat()
    &&& b.spec_current_temp() == a.spec_current_temp()
    &&& b.spec_overheating() == a.spec_overheating()
}

/// One schedule tick: applies the resolved windows for `current_time`.
/// The UV relays follow their windows directly; the heat window's
/// request goes through the safety machine, never to the relay
/// directly.  Returns the heat level actually commanded.
pub fn update_lights(
    controller: &mut LightController,
    schedule: &Schedule,
    current_time: &str,
    now: u64,
) -> (heat_level: bool)
    requires
        old(controller).wf(),
    ensures
        final(controller).wf(),
        same_parameters(*old(controller), *final(controller)),
        final(controller).spec_current_temp() == old(controller).spec_current_temp(),
        final(controller).spec_uv1_on() == window_contains(
            schedule.uv1_start@,
            schedule.uv1_end@,
            current_time@,
        ),
        final(controller).spec_uv2_on() == window_contains(
            schedule.uv2_start@,
            schedule.uv2_end@,
            current_time@,
        ),
        heat_level == final(controller).spec_heat_on(),
        heat_level == heat_decision(
            *old(controller),
            window_contains(schedule.heat_start@, schedule.heat_end@, current_time@),
            now,
        ),
        old(controller).spec_too_hot() ==> {
            &&& !heat_level
            &&& final(controller).spec_last_overheat() == Some(now)
        },
        !old(controller).spec_too_hot() && old(controller).spec_cooling_down(now) ==> {
            &&& !heat_level
            &&& final(controller).spec_last_overheat() == old(controller).spec_last_overheat()
        },
        !old(controller).spec_too_hot() && !old(controller).spec_cooling_down(now) ==> {
            &&& heat_level == window_contains(
                schedule.heat_start@,
                schedule.heat_end@,
                current_time@,
            )
            &&& final(controller).spec_last_overheat() is None
        },
{
    let uv1_active = is_time_between(
        current_time,
        schedule.uv1_start.as_str(),
        schedule.uv1_end.as_str(),
    );
    let uv2_active = is_time_between(
        current_time,
        schedule.uv2_start.as_str(),
        schedule.uv2_end.as_str(),
    );
    let heat_active = is_time_between(
        current_time,
        schedule.heat_start.as_str(),
        schedule.heat_end.as_str(),
    );
    controller.set_uv1(uv1_active);
    controller.set_uv2(uv2_active);
    controller.control_heat(heat_active, now)
}

} // verus!
