//! A thermal-aware CPU frequency governor.
//!
//! The library holds the governor's decisions: reading numeric sensor text,
//! the control law that turns a temperature into a frequency adjustment, the
//! shared frequency cell with its best-effort exclusive access, and the text
//! written to each CPU's frequency-ceiling control file. Reading and writing
//! files, timers and threads are left to the program around it.
use vstd::prelude::*;

pub mod decimal;
pub mod error;
pub mod bounds;
pub mod control;
pub mod state;
pub mod sensor;
pub mod actuator;
pub mod config;
pub mod governor;
