//! Host-side core for a 9-key, 3-encoder, RGB-LED control pad.
//!
//! The crate covers the three parts of the driver that are worth specifying
//! precisely: the binary wire protocol between host and device
//! ([`protocol`]), the application state machines advanced by decoded events
//! ([`trading_state`], [`app_state`]), and the throttled, minimal-diff LED
//! synchronization engine ([`app_state`]). Device discovery, threads and the
//! actual reads and writes live outside this crate; they exchange plain
//! events and commands with it.

pub mod app_state;
pub mod config;
pub mod hid;
pub mod midi;
pub mod mock;
pub mod protocol;
pub mod trading_state;

pub use config::Config;
pub use hid::Pad;
pub use protocol::{PadCommand, PadError, PadEvent, Rgb};
