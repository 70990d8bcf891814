//! The relay bank: commanded levels of the four switched circuits.
//!
//! This is the single software model of what each relay output should
//! be.  The caller that owns the physical output lines performs exactly
//! one digital write per method call, at the level this model records.

use vstd::prelude::*;

verus! {

/// The four relay-switched circuits.
#[derive(Debug, Clone, Copy, PartialEq, Eq, Structural)]
pub enum RelayType {
    UV1,
    UV2,
    Heat,
    LED,
}

/// Commanded levels of the four relay outputs, all initially off.
pub struct RelayController {
    uv1: bool,
    uv2: bool,
    heat: bool,
    led: bool,
}

impl RelayController {
    /// The commanded level of one relay.
    pub closed spec fn spec_level(&self, relay_type: RelayType) -> bool {
        match relay_type {
            RelayType::UV1 => self.uv1,
            RelayType::UV2 => self.uv2,
            RelayType::Heat => self.heat,
            RelayType::LED => self.led,
        }
    }

    /// All four relays start deasserted.
    pub fn new() -> (c: RelayController)
        ensures
            forall|t: RelayType| !c.spec_level(t),
    {
        RelayController { uv1: false, uv2: false, heat: false, led: false }
    }

    /// Commands one relay to `state` and leaves the other three as they
    /// were.
    pub fn set_relay(&mut self, relay_type: RelayType, state: bool)
        ensures
            forall|t: RelayType|
                final(self).spec_level(t) == if t == relay_type {
                    state
                } else {
                    old(self).spec_level(t)
                },
    {
        match relay_type {
            RelayType::UV1 => {
                self.uv1 = state;
            },
            RelayType::UV2 => {
                self.uv2 = state;
            },
            RelayType::Heat => {
                self.heat = state;
            },
            RelayType::LED => {
                self.led = state;
            },
        }
    }

    /// Commands one relay on.
    pub fn turn_on(&mut self, relay_type: RelayType)
        ensures
            forall|t: RelayType|
                final(self).spec_level(t) == if t == relay_type {
                    true
                } else {
                    old(self).spec_level(t)
                },
    {
        self.set_relay(relay_type, true);
    }

    /// Commands one relay off.
    pub fn turn_off(&mut self, relay_type: RelayType)
        ensures
            forall|t: RelayType|
                final(self).spec_level(t) == if t == relay_type {
                    false
                } else {
                    old(self).spec_level(t)
                },
    {
        self.set_relay(relay_type, false);
    }

    /// Commands every relay off.
    pub fn turn_all_off(&mut self)
        ensures
            forall|t: RelayType| !final(self).spec_level(t),
    {
        self.uv1 = false;
        self.uv2 = false;
        self.heat = false;
        self.led = false;
    }

    /// Commands every relay on.
    pub fn turn_all_on(&mut self)
        ensures
            forall|t: RelayType| final(self).spec_level(t),
    {
        self.uv1 = true;
        self.uv2 = true;
        self.heat = true;
        self.led = true;
    }

    /// Reads the commanded level of one relay.
    pub fn level(&self, relay_type: RelayType) -> (r: bool)
        ensures
            r == self.spec_level(relay_type),
    {
        match relay_type {
            RelayType::UV1 => self.uv1,
            RelayType::UV2 => self.uv2,
            RelayType::Heat => self.heat,
            RelayType::LED => self.led,
        }
    }
}

} // verus!
