//! Identification of ARM Mali and Qualcomm Adreno GPUs from what their
//! kernel drivers report.
//!
//! The library decodes the drivers' answers (a tag-length-value property
//! stream for Mali, a fixed-layout device-info record for Adreno), resolves
//! the decoded identifiers against static hardware tables, and assembles a
//! capability descriptor under one of two strictness modes. Opening the
//! device and issuing the control calls is left to the caller, which hands
//! the raw answers in.
use vstd::prelude::*;

pub mod adreno;
pub mod detect;
pub mod error;
pub mod info;
pub mod mali;
pub mod text;

pub use error::{Errno, GpuError, GpuResult, IoErrorKind, IoFailure};
pub use info::{AdrenoData, GpuInfo, GpuInfoBuilder, GpuVendor, MaliData};

verus! {

/// How strict a query is.
#[derive(Debug, Clone, Copy, PartialEq, Eq, Structural)]
pub enum Mode {
    /// Best effort: malformed driver data is tolerated and gaps are zero.
    Parity,
    /// Full validation: malformed or incomplete data is an error.
    Extended,
}

} // verus!
