//! Qualcomm Adreno GPUs, queried through the KGSL driver.
use vstd::prelude::*;

pub mod database;
pub mod ioctl;
pub mod ioctl_detect;
pub mod ioctl_impl;
pub mod parser;
pub mod query;
pub mod strategy;

pub use database::{find_adreno_specs, AdrenoArch, AdrenoSpecs, SpecConfidence};
pub use ioctl::{KgslDeviceInfo, KgslPropertyType};

verus! {

/// Operation mode for Adreno GPUs.
#[derive(Debug, Clone, Copy, PartialEq, Eq, Structural)]
pub enum Mode {
    /// Lenient: the existing best-effort behaviour.
    Parity,
    /// Full validation.
    Extended,
}

impl Default for Mode {
    fn default() -> (r: Self)
        ensures
            r == Mode::Parity,
    {
        Mode::Parity
    }
}

} // verus!
