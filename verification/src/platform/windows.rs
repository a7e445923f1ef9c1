//! Adapter for the ioctl platform: each battery is read through fixed
//! binary information and status structures filled by device control
//! calls.

pub mod device;
pub mod ioctl;
pub mod iterator;
pub mod manager;

pub use device::{DeviceReading, PowerDevice};
pub use ioctl::{BatteryInformation, BatteryStatus};
pub use iterator::PowerIterator;
pub use manager::PowerManager;
