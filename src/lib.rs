//! Current and short-range forecast weather for a named place, rendered as
//! terminal or status-bar text.

pub mod condition;
pub mod config;
pub mod error;
pub mod text;
pub mod timestamp;
pub mod model;
pub mod present;
