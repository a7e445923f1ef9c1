//! Adapter for the kernel sensor-table platform: batteries appear as
//! `envsys` sensor arrays keyed by driver name in one whole-fleet
//! property-list snapshot.

pub mod device;
pub mod iterator;
pub mod manager;
pub mod utils;
pub mod values;

pub use device::{EnvSysDevice, SysMonDevice};
pub use iterator::SysMonIterator;
pub use manager::SysMonManager;
