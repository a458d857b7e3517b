//! Discovery of the KGSL request numbers in use on a device.
use vstd::prelude::*;
use crate::adreno::ioctl_impl::{IoctlOutcome, ProbeStep, KGSL_IOCTL_GETPROPERTY};
use crate::error::{Errno, GpuError, GpuResult};

verus! {

/// The KGSL request numbers found on a device.
#[derive(Debug, Clone, Copy, PartialEq, Eq, Structural)]
pub struct KgslIoctls {
    pub get_property: u64,
    pub version: u64,
}

/// The standard version request.
pub const KGSL_IOCTL_VERSION: u64 = 0x8004A001;

impl KgslIoctls {
    pub open spec fn spec_default() -> KgslIoctls {
        KgslIoctls { get_property: KGSL_IOCTL_GETPROPERTY, version: KGSL_IOCTL_VERSION }
    }
}

impl Default for KgslIoctls {
    fn default() -> (r: Self)
        ensures
            r == KgslIoctls::spec_default(),
    {
        KgslIoctls { get_property: KGSL_IOCTL_GETPROPERTY, version: KGSL_IOCTL_VERSION }
    }
}

/// Number of request bases tried.
pub const DETECT_COUNT: usize = 7;

pub open spec fn spec_detect_base(i: usize) -> u64 {
    match i {
        0 => 0x2000,
        1 => 0x6715,
        2 => 0x6738,
        3 => 0x6739,
        4 => 0x673a,
        5 => 0x6740,
        _ => 0x6741,
    }
}

/// The read-direction request built from base number `i`.
pub open spec fn spec_detect_request(i: usize) -> u64 {
    0x80000000u64 | (spec_detect_base(i) << 2u64)
}

/// The request tried at step `i`: the read direction of base `i`.
pub fn detect_request(i: usize) -> (r: u64)
    requires
        i < DETECT_COUNT,
    ensures
        r == spec_detect_request(i),
{
    let base: u64 = match i {
        0 => 0x2000,
        1 => 0x6715,
        2 => 0x6738,
        3 => 0x6739,
        4 => 0x673a,
        5 => 0x6740,
        _ => 0x6741,
    };
    0x80000000u64 | (base << 2u64)
}

/// Whether `r` is the verdict on a test call of `request` that ended with
/// `outcome`.
pub open spec fn is_test_verdict(request: u64, outcome: IoctlOutcome, r: GpuResult<()>) -> bool {
    match outcome {
        IoctlOutcome::Accepted => r is Ok,
        IoctlOutcome::Failed(f) => match f.errno {
            Some(Errno::NotTty) => r == Err::<(), GpuError>(GpuError::DriverNotSupported),
            Some(Errno::NotPermitted) | Some(Errno::AccessDenied) => r == Err::<(), GpuError>(
                GpuError::PermissionDenied,
            ),
            Some(Errno::InvalidArgument) => r is Ok,
            _ => r == Err::<(), GpuError>(GpuError::IoctlFailed { request, source: f }),
        },
    }
}

/// The verdict on a test call: the request exists when the call returned
/// zero or rejected only its argument.
pub fn test_ioctl(request: u64, outcome: IoctlOutcome) -> (r: GpuResult<()>)
    ensures
        is_test_verdict(request, outcome, r),
{
    match outcome {
        IoctlOutcome::Accepted => Ok(()),
        IoctlOutcome::Failed(f) => match f.errno {
            Some(Errno::NotTty) => Err(GpuError::DriverNotSupported),
            Some(Errno::NotPermitted) | Some(Errno::AccessDenied) => Err(GpuError::PermissionDenied),
            Some(Errno::InvalidArgument) => Ok(()),
            _ => Err(GpuError::IoctlFailed { request, source: f }),
        },
    }
}

impl KgslIoctls {
    /// Decides what follows the test call at step `index`: the first request
    /// that exists becomes the get-property request; when the last candidate
    /// fails too, the driver does not support the call: `DriverNotSupported`.
    pub fn detect_next(self, index: usize, outcome: IoctlOutcome) -> (r: ProbeStep<KgslIoctls>)
        requires
            index < DETECT_COUNT,
        ensures
            ({
                let request = spec_detect_request(index);
                if outcome == IoctlOutcome::Accepted || (outcome matches IoctlOutcome::Failed(f)
                    && f.errno == Some(Errno::InvalidArgument)) {
                    r == ProbeStep::Done(
                        Ok::<KgslIoctls, GpuError>(KgslIoctls { get_property: request, ..self }),
                    )
                } else if index + 1 < DETECT_COUNT {
                    r == ProbeStep::<KgslIoctls>::TryNext((index + 1) as usize)
                } else {
                    r == ProbeStep::Done(Err::<KgslIoctls, GpuError>(GpuError::DriverNotSupported))
                }
            }),
    {
        let request = detect_request(index);
        if test_ioctl(request, outcome).is_ok() {
            ProbeStep::Done(Ok(KgslIoctls { get_property: request, ..self }))
        } else if index + 1 < DETECT_COUNT {
            ProbeStep::TryNext(index + 1)
        } else {
            ProbeStep::Done(Err(GpuError::DriverNotSupported))
        }
    }
}

} // verus!
