//! The closed set of failures shared by every stage: device access, the
//! driver calls, decoding and resolution.
use vstd::prelude::*;

verus! {

/// What an operating-system error says about its cause, as far as the
/// library tells causes apart.
#[derive(Debug, Clone, Copy, PartialEq, Eq, Structural)]
pub enum IoErrorKind {
    NotFound,
    PermissionDenied,
    Other,
}

/// The error number a failed driver call left behind, as far as the probing
/// rules tell them apart.
#[derive(Debug, Clone, Copy, PartialEq, Eq, Structural)]
pub enum Errno {
    /// The control request is not known to the driver (`ENOTTY`).
    NotTty,
    /// The request is known but its argument was rejected (`EINVAL`).
    InvalidArgument,
    /// The operation is not permitted (`EPERM`).
    NotPermitted,
    /// Access was denied (`EACCES`).
    AccessDenied,
    /// The device is gone (`ENODEV`).
    NoDevice,
    /// Any other error number.
    Other(i32),
}

/// An operating-system error, reduced to the parts the library reads.
#[derive(Debug, Clone, Copy, PartialEq, Eq, Structural)]
pub struct IoFailure {
    pub kind: IoErrorKind,
    /// The raw error number, where the error came from the operating system.
    pub errno: Option<Errno>,
}

/// Error type for GPU information queries.
#[derive(Debug, Clone, PartialEq, Eq)]
pub enum GpuError {
    /// I/O error (file not found, permission denied, ...).
    Io(IoFailure),
    /// A control call was recognised but failed.
    IoctlFailed { request: u64, source: IoFailure },
    /// The identifier matched no specification at any tier.
    UnsupportedGpu { id: u32, cores: u32 },
    /// Invalid or malformed data received from the driver.
    InvalidData(String),
    /// Device not found or inaccessible.
    DeviceNotFound,
    /// Operation not supported on this platform.
    UnsupportedPlatform,
    /// Version mismatch with the driver.
    VersionMismatch { required: String, found: String },
    /// A property record announced a width that does not exist.
    InvalidPropertySize(u32),
    /// The buffer ended before a record or a mandatory field was complete.
    BufferTooSmall { expected: usize, actual: usize },
    /// The driver returned invalid GPU properties.
    InvalidGpuProperties(String),
    /// The command-stream-frontend version check failed.
    CsfVersionCheck(String),
    /// Permission denied when accessing the device.
    PermissionDenied,
    /// The driver does not know the control call.
    DriverNotSupported,
    /// An optional control call failed.
    OptionalIoctlFailed { request: &'static str, source: IoFailure },
    /// Resolution succeeded, but only at a confidence the caller refuses.
    InsufficientData { chip_id: u32, details: String },
    /// The architecture encoded in the chip id is outside the accepted range.
    UnsupportedArchitecture { chip_id: u32, architecture: String },
    /// A property request of the Adreno driver failed.
    AdrenoPropertyError { property: u32, source: IoFailure },
}

/// Convenience alias for results of this library.
pub type GpuResult<T> = Result<T, GpuError>;

impl GpuError {
    /// The operating-system error this error carries, if any.
    pub open spec fn io_failure(&self) -> Option<IoFailure> {
        match self {
            GpuError::Io(e) => Some(*e),
            GpuError::IoctlFailed { source, .. } => Some(*source),
            GpuError::OptionalIoctlFailed { source, .. } => Some(*source),
            GpuError::AdrenoPropertyError { source, .. } => Some(*source),
            _ => None,
        }
    }

    /// Whether the device was not found.
    pub fn is_device_not_found(&self) -> (r: bool)
        ensures
            r == (*self is DeviceNotFound),
    {
        matches!(self, GpuError::DeviceNotFound)
    }

    /// Whether no specification matched the GPU.
    pub fn is_unsupported_gpu(&self) -> (r: bool)
        ensures
            r == (*self is UnsupportedGpu),
    {
        matches!(self, GpuError::UnsupportedGpu { .. })
    }

    /// Whether this is a plain I/O error.
    pub fn is_io_error(&self) -> (r: bool)
        ensures
            r == (*self is Io),
    {
        matches!(self, GpuError::Io(_))
    }

    /// Whether a recognised control call failed.
    pub fn is_ioctl_error(&self) -> (r: bool)
        ensures
            r == (*self is IoctlFailed),
    {
        matches!(self, GpuError::IoctlFailed { .. })
    }

    /// The underlying operating-system error, where there is one.
    pub fn as_io_error(&self) -> (r: Option<&IoFailure>)
        ensures
            match r {
                Some(f) => self.io_failure() == Some(*f),
                None => self.io_failure() is None,
            },
    {
        match self {
            GpuError::Io(e) => Some(e),
            GpuError::IoctlFailed { source, .. } => Some(source),
            GpuError::OptionalIoctlFailed { source, .. } => Some(source),
            GpuError::AdrenoPropertyError { source, .. } => Some(source),
            _ => None,
        }
    }

    /// Whether the error comes from missing permissions.
    pub fn is_permission_error(&self) -> (r: bool)
        ensures
            r == (*self is PermissionDenied || (self.io_failure() matches Some(f)
                && f.kind == IoErrorKind::PermissionDenied)),
    {
        if matches!(self, GpuError::PermissionDenied) {
            return true;
        }
        match self.as_io_error() {
            Some(f) => matches!(f.kind, IoErrorKind::PermissionDenied),
            None => false,
        }
    }

    /// Whether the error says that the device does not exist.
    pub fn is_not_found_error(&self) -> (r: bool)
        ensures
            r == (*self is DeviceNotFound || (self.io_failure() matches Some(f) && f.kind
                == IoErrorKind::NotFound)),
    {
        if matches!(self, GpuError::DeviceNotFound) {
            return true;
        }
        match self.as_io_error() {
            Some(f) => matches!(f.kind, IoErrorKind::NotFound),
            None => false,
        }
    }

    /// Whether the driver returned invalid GPU properties.
    pub fn is_invalid_properties(&self) -> (r: bool)
        ensures
            r == (*self is InvalidGpuProperties),
    {
        matches!(self, GpuError::InvalidGpuProperties(_))
    }

    /// Whether the driver does not support the control call.
    pub fn is_driver_not_supported(&self) -> (r: bool)
        ensures
            r == (*self is DriverNotSupported),
    {
        matches!(self, GpuError::DriverNotSupported)
    }
}

} // verus!
