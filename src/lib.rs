//! Core of a dead-man's switch: the persisted check-in lifecycle, the typed
//! channel configuration, and the delivery and detection algorithms that the
//! surrounding program drives against real notification channels.

pub mod text;
pub mod timestamp;
pub mod duration;
pub mod state;
pub mod delivery;
pub mod detector;
pub mod settings;
pub mod outputs;
pub mod config;
pub mod message;
pub mod activity;
pub mod oauth;
pub mod schedule;
