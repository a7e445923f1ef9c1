//! Cross-platform battery information with a dimensionally-typed unit system.
//!
//! Every measurement carries its physical dimension and is stored in a
//! canonical micro-SI magnitude, so readings taken from heterogeneous
//! platform sources (property dictionaries, ioctl status structures,
//! kernel sensor tables) are reduced to one invariant-preserving model.

pub mod device;
pub mod errors;
pub mod platform;
pub mod state;
pub mod technology;
pub mod text;
pub mod units;

pub use device::BatteryDevice;
pub use errors::{Error, ErrorKind, Result};
pub use state::State;
pub use technology::Technology;
