//! Platform adapters: one per supported OS family, each owning the
//! mapping from its raw snapshot shape to the canonical device model and
//! the platform-specific charge-state classification.

pub mod darwin;
pub mod netbsd;
pub mod windows;
