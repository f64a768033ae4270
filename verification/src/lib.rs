//! Core of a reconfigurable input device: the event types that flow between
//! its components, a bounded broadcast bus with per-subscriber cursors, a
//! debounced matrix scanner, a layered keymap resolver, a report aggregator,
//! and the dispatch rules that route events to output sinks.
//!
//! Everything here is plain state-machine logic over plain values. The
//! hardware edges (pin reads, transport writes, timers) live outside: they
//! hand raw readings in and carry finished reports out.
use vstd::prelude::*;

pub mod analog;
pub mod ble_consts;
pub mod bus;
pub mod config_types;
pub mod dispatch;
pub mod gpio;
pub mod joystick_6dof_mid;
pub mod keyboard_report_mid;
pub mod keycode;
pub mod keymap_mid;
pub mod matrix;
pub mod reactor_event;
pub mod report;

