//! Control core of a single RGB status LED: the colour state and its owner,
//! the channels that carry commands in and state changes out, and the
//! decisions of the network adapters that sit around them.

pub mod broadcast;
pub mod bytes;
pub mod color;
pub mod config;
pub mod decimal;
pub mod discovery;
pub mod led_writer;
pub mod mailbox;
pub mod network;
pub mod protocol;
pub mod session;
pub mod state_owner;
pub mod telemetry;
pub mod text;
pub mod types;
pub mod wifi;
pub mod wire;

pub use color::{rotate_color, Rgb8};
pub use led_writer::{LedError, MockLedWriter, SmartLedWriter};
pub use types::{led_command_from_name, LedColorMessage, LedCommand};
