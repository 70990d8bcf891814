//! Verified core of a terrarium climate and lighting controller.
//!
//! This crate holds the hardware-facing logic that must be exact: the
//! five-channel color model and its interpolation, the bit-level encoder
//! for the addressable LED chain, the heat-lamp safety state machine with
//! its overheat cooldown, schedule window membership on fixed-width
//! `HH:MM` times, and the supervisors that decide which relay writes and
//! LED frames a control tick must issue.  Everything that touches real
//! hardware, files, clocks or sockets lives outside this crate and only
//! executes the decisions made here.

pub mod api;
pub mod config;
pub mod led_control;
pub mod light_control;
pub mod models;
pub mod relay;
pub mod strip;
pub mod timing;

pub use models::RGBWW;
