//! The decisions of the KGSL request-code search. The request code that
//! reaches the device-info property is not stable across kernel builds, so
//! the caller tries candidates in a fixed order; these functions say, from
//! the outcome of each call, what to try next and when to stop.
use vstd::prelude::*;
use vstd::string::StringExecFns;
use crate::adreno::ioctl::{KgslDeviceInfo, KgslPropertyType};
use crate::adreno::parser::is_invalid_data;
use crate::error::{Errno, GpuError, GpuResult, IoFailure};

verus! {

/// The standard KGSL get-property request.
pub const KGSL_IOCTL_GETPROPERTY: u64 = 0x80020000;

/// How a control call ended, as far as the search reads it.
#[derive(Debug, Clone, Copy, PartialEq, Eq, Structural)]
pub enum IoctlOutcome {
    /// The call returned zero.
    Accepted,
    /// The call failed with this error.
    Failed(IoFailure),
}

/// Number of alternative device-info requests tried after the standard one.
pub const ALTERNATIVE_COUNT: usize = 8;

pub open spec fn spec_alternative_request(i: usize) -> u64 {
    match i {
        0 => 0x80006738,
        1 => 0x80006739,
        2 => 0x8000673a,
        3 => 0x80006740,
        4 => 0xc0006738,
        5 => 0xc0006739,
        6 => 0xc000673a,
        _ => 0xc0006740,
    }
}

/// The alternative device-info request number `i`, read then read-write variants.
#[verifier::when_used_as_spec(spec_alternative_request)]
pub fn alternative_request(i: usize) -> (r: u64)
    requires
        i < ALTERNATIVE_COUNT,
    ensures
        r == spec_alternative_request(i),
{
    match i {
        0 => 0x80006738,
        1 => 0x80006739,
        2 => 0x8000673a,
        3 => 0x80006740,
        4 => 0xc0006738,
        5 => 0xc0006739,
        6 => 0xc000673a,
        _ => 0xc0006740,
    }
}

/// The request issued at stage `stage` of the device-info search: the
/// standard request, then each alternative in order.
pub open spec fn spec_device_info_request(stage: usize) -> Option<u64> {
    if stage == 0 {
        Some(KGSL_IOCTL_GETPROPERTY)
    } else if stage <= ALTERNATIVE_COUNT {
        Some(spec_alternative_request((stage - 1) as usize))
    } else {
        None
    }
}

/// The request to issue at stage `stage` of the device-info search.
pub fn device_info_request(stage: usize) -> (r: Option<u64>)
    ensures
        r == spec_device_info_request(stage),
{
    if stage == 0 {
        Some(KGSL_IOCTL_GETPROPERTY)
    } else if stage <= ALTERNATIVE_COUNT {
        Some(alternative_request(stage - 1))
    } else {
        None
    }
}

/// Whether `e` is the error a failed device-info call with `request`
/// reports for `f`.
pub open spec fn is_call_error(request: u64, f: IoFailure, e: GpuError) -> bool {
    match f.errno {
        Some(Errno::NotTty) => e == GpuError::DriverNotSupported,
        Some(Errno::InvalidArgument) => e is InvalidData,
        Some(Errno::NotPermitted) | Some(Errno::AccessDenied) => e == GpuError::PermissionDenied,
        Some(Errno::NoDevice) => e == GpuError::DeviceNotFound,
        _ => e == GpuError::IoctlFailed { request, source: f },
    }
}

/// The error of a failed device-info call: unknown request, rejected
/// argument, refused permission, missing device, or any other failure.
pub fn call_error(request: u64, f: IoFailure) -> (r: GpuError)
    ensures
        is_call_error(request, f, r),
{
    match f.errno {
        Some(Errno::NotTty) => GpuError::DriverNotSupported,
        Some(Errno::InvalidArgument) => {
            if request == KGSL_IOCTL_GETPROPERTY {
                GpuError::InvalidData(String::from_str("Invalid argument to ioctl"))
            } else {
                GpuError::InvalidData(String::from_str("Invalid argument"))
            }
        },
        Some(Errno::NotPermitted) | Some(Errno::AccessDenied) => GpuError::PermissionDenied,
        Some(Errno::NoDevice) => GpuError::DeviceNotFound,
        _ => GpuError::IoctlFailed { request, source: f },
    }
}

/// What follows one call of the device-info search.
#[derive(Debug, Clone, PartialEq, Eq)]
pub enum DeviceInfoStep {
    /// The search is over with this record.
    Found(KgslDeviceInfo),
    /// The call failed with this error; issue the request of the given stage.
    Retry(usize, GpuError),
    /// The search is over with this error.
    Fail(GpuError),
}

/// Decides what follows the call issued at `stage`, which ended with
/// `outcome` (the record the driver filled, or the failure). The standard
/// request falls back to the alternatives only when the driver does not know
/// it or it failed otherwise than by a known cause; an alternative counts
/// only with a non-zero chip id; the last alternative's error ends the search.
pub fn device_info_next(stage: usize, outcome: Result<KgslDeviceInfo, IoFailure>) -> (r: DeviceInfoStep)
    requires
        stage <= ALTERNATIVE_COUNT,
    ensures
        stage == 0 ==> match outcome {
            Ok(info) => r == DeviceInfoStep::Found(info),
            Err(f) => match r {
                DeviceInfoStep::Retry(next, e) => next == 1 && is_call_error(
                    KGSL_IOCTL_GETPROPERTY,
                    f,
                    e,
                ) && (e is IoctlFailed || e is DriverNotSupported),
                DeviceInfoStep::Fail(e) => is_call_error(KGSL_IOCTL_GETPROPERTY, f, e) && !(
                e is IoctlFailed || e is DriverNotSupported),
                DeviceInfoStep::Found(_) => false,
            },
        },
        stage > 0 ==> {
            let request = spec_alternative_request((stage - 1) as usize);
            match outcome {
                Ok(info) if info.chip_id != 0 => r == DeviceInfoStep::Found(info),
                _ => {
                    let failed = |e: GpuError|
                        match outcome {
                            Ok(_) => is_invalid_data(e, "Chip ID is zero"@),
                            Err(f) => is_call_error(request, f, e),
                        };
                    match r {
                        DeviceInfoStep::Retry(next, e) => stage < ALTERNATIVE_COUNT && next == stage
                            + 1 && failed(e),
                        DeviceInfoStep::Fail(e) => stage == ALTERNATIVE_COUNT && failed(e),
                        DeviceInfoStep::Found(_) => false,
                    }
                },
            }
        },
{
    if stage == 0 {
        return match outcome {
            Ok(info) => DeviceInfoStep::Found(info),
            Err(f) => {
                let e = call_error(KGSL_IOCTL_GETPROPERTY, f);
                if matches!(e, GpuError::IoctlFailed { .. }) || matches!(
                    e,
                    GpuError::DriverNotSupported
                ) {
                    DeviceInfoStep::Retry(1, e)
                } else {
                    DeviceInfoStep::Fail(e)
                }
            },
        };
    }
    let request = alternative_request(stage - 1);
    let e = match outcome {
        Ok(info) => {
            if info.chip_id != 0 {
                return DeviceInfoStep::Found(info);
            }
            GpuError::InvalidData(String::from_str("Chip ID is zero"))
        },
        Err(f) => call_error(request, f),
    };
    if stage < ALTERNATIVE_COUNT {
        DeviceInfoStep::Retry(stage + 1, e)
    } else {
        DeviceInfoStep::Fail(e)
    }
}

/// Number of request codes tried to find a working one.
pub const PROBE_COUNT: usize = 5;

pub open spec fn spec_probe_request(i: usize) -> u64 {
    match i {
        0 => KGSL_IOCTL_GETPROPERTY,
        1 => 0x80006738,
        2 => 0x80006739,
        3 => 0x8000673a,
        _ => 0x80006740,
    }
}

/// Candidate request `i`, the standard one first.
#[verifier::when_used_as_spec(spec_probe_request)]
pub fn probe_request(i: usize) -> (r: u64)
    requires
        i < PROBE_COUNT,
    ensures
        r == spec_probe_request(i),
{
    match i {
        0 => KGSL_IOCTL_GETPROPERTY,
        1 => 0x80006738,
        2 => 0x80006739,
        3 => 0x8000673a,
        _ => 0x80006740,
    }
}

/// What follows one call of a candidate search.
#[derive(Debug, PartialEq, Eq)]
pub enum ProbeStep<T> {
    /// The search is over with this result.
    Done(GpuResult<T>),
    /// Issue candidate number `i` next.
    TryNext(usize),
}

/// Whether a call recognised its request: it returned zero, or it failed
/// only because its argument was rejected.
pub open spec fn recognised(outcome: IoctlOutcome) -> bool {
    outcome == IoctlOutcome::Accepted || (outcome matches IoctlOutcome::Failed(f) && f.errno
        == Some(Errno::InvalidArgument))
}

/// Decides what follows probing candidate `index`: a recognised request is
/// the working one; otherwise the next candidate, and `DriverNotSupported`
/// once the list is exhausted.
pub fn detect_working_ioctl_next(index: usize, outcome: IoctlOutcome) -> (r: ProbeStep<u64>)
    requires
        index < PROBE_COUNT,
    ensures
        recognised(outcome) ==> r == ProbeStep::Done(Ok::<u64, GpuError>(spec_probe_request(index))),
        !recognised(outcome) && index + 1 < PROBE_COUNT ==> r == ProbeStep::<u64>::TryNext(
            (index + 1) as usize,
        ),
        !recognised(outcome) && index + 1 == PROBE_COUNT ==> r == ProbeStep::Done(
            Err::<u64, GpuError>(GpuError::DriverNotSupported),
        ),
{
    let found = match outcome {
        IoctlOutcome::Accepted => true,
        IoctlOutcome::Failed(f) => matches!(f.errno, Some(Errno::InvalidArgument)),
    };
    if found {
        ProbeStep::Done(Ok(probe_request(index)))
    } else if index + 1 < PROBE_COUNT {
        ProbeStep::TryNext(index + 1)
    } else {
        ProbeStep::Done(Err(GpuError::DriverNotSupported))
    }
}

/// Decides what follows a property request with candidate `index`: success
/// ends the search; only an unknown request moves on to the next candidate;
/// any other failure is reported with the property; `DriverNotSupported`
/// once the list is exhausted.
pub fn get_property_next(
    index: usize,
    property_type: KgslPropertyType,
    outcome: IoctlOutcome,
) -> (r: ProbeStep<()>)
    requires
        index < PROBE_COUNT,
    ensures
        match outcome {
            IoctlOutcome::Accepted => r == ProbeStep::Done(Ok::<(), GpuError>(())),
            IoctlOutcome::Failed(f) => if f.errno == Some(Errno::NotTty) {
                if index + 1 < PROBE_COUNT {
                    r == ProbeStep::<()>::TryNext((index + 1) as usize)
                } else {
                    r == ProbeStep::Done(Err::<(), GpuError>(GpuError::DriverNotSupported))
                }
            } else {
                r == ProbeStep::Done(
                    Err::<(), GpuError>(GpuError::AdrenoPropertyError { property: 1, source: f }),
                )
            },
        },
{
    match outcome {
        IoctlOutcome::Accepted => ProbeStep::Done(Ok(())),
        IoctlOutcome::Failed(f) => {
            if matches!(f.errno, Some(Errno::NotTty)) {
                if index + 1 < PROBE_COUNT {
                    ProbeStep::TryNext(index + 1)
                } else {
                    ProbeStep::Done(Err(GpuError::DriverNotSupported))
                }
            } else {
                ProbeStep::Done(
                    Err(GpuError::AdrenoPropertyError { property: property_type.code(), source: f }),
                )
            }
        },
    }
}

} // verus!
