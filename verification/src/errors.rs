//! The errors that can come up while asking which extensions are supported.
use vstd::prelude::*;

verus! {

/// A result code of a Vulkan call that reports an error.
#[derive(Clone, Copy, Debug, PartialEq, Eq, Structural)]
pub enum Error {
    /// There is no memory available on the host.
    OutOfHostMemory,
    /// There is no memory available on the device.
    OutOfDeviceMemory,
    /// The object could not be initialized.
    InitializationFailed,
    /// The device was lost.
    DeviceLost,
    /// Mapping memory failed.
    MemoryMapFailed,
    /// A requested layer is not present.
    LayerNotPresent,
    /// A requested extension is not present.
    ExtensionNotPresent,
    /// A requested feature is not supported.
    FeatureNotPresent,
    /// The driver is not compatible.
    IncompatibleDriver,
    /// Too many objects of the type have been created.
    TooManyObjects,
    /// The requested format is not supported.
    FormatNotSupported,
    /// The surface is no longer available.
    SurfaceLost,
    /// The window is already in use.
    NativeWindowInUse,
    /// The surface has changed and the swapchain no longer matches it.
    OutOfDate,
    /// The display is not compatible with the swapchain.
    IncompatibleDisplay,
    /// A validation layer reported an error.
    ValidationFailed,
    /// A descriptor pool has no memory left.
    OutOfPoolMemory,
}

/// Not enough memory.
#[derive(Clone, Copy, Debug, PartialEq, Eq, Structural)]
pub enum OomError {
    /// There is no memory available on the host (ie. the CPU, RAM, etc.).
    OutOfHostMemory,
    /// There is no memory available on the device (ie. video memory).
    OutOfDeviceMemory,
}

/// Error that can happen when loading the Vulkan library.
#[derive(Clone, Debug, PartialEq, Eq)]
pub enum LoadingError {
    /// Failed to load the Vulkan shared library; the text says why.
    LibraryLoadFailure(String),
    /// One of the entry points required of a Vulkan implementation is
    /// missing; the text names it.
    MissingEntryPoint(String),
}

/// Error that can happen when loading the list of supported extensions.
#[derive(Clone, Debug)]
pub enum SupportedExtensionsError {
    /// Failed to load the Vulkan shared library.
    LoadingError(LoadingError),
    /// Not enough memory.
    OomError(OomError),
}

/// The error that caused a `SupportedExtensionsError`.
#[derive(Clone, Copy, Debug)]
pub enum ErrorCause<'a> {
    /// The loading error.
    Loading(&'a LoadingError),
    /// The out-of-memory error.
    Oom(&'a OomError),
}

/// The out-of-memory error that stands for the result code `err`, which is
/// one of the two out-of-memory codes.
pub open spec fn oom_of(err: Error) -> OomError
    recommends
        err is OutOfHostMemory || err is OutOfDeviceMemory,
{
    if err is OutOfHostMemory {
        OomError::OutOfHostMemory
    } else {
        OomError::OutOfDeviceMemory
    }
}

impl SupportedExtensionsError {
    /// A short description of the error.
    pub fn description(&self) -> (text: &'static str)
        ensures
            text@ == (match self {
                SupportedExtensionsError::LoadingError(_) => "failed to load the Vulkan shared library"@,
                SupportedExtensionsError::OomError(_) => "not enough memory available"@,
            }),
    {
        match self {
            SupportedExtensionsError::LoadingError(_) => "failed to load the Vulkan shared library",
            SupportedExtensionsError::OomError(_) => "not enough memory available",
        }
    }

    /// The error that caused this one: always the error that it holds.
    pub fn cause(&self) -> (c: Option<ErrorCause<'_>>)
        ensures
            c == (match self {
                SupportedExtensionsError::LoadingError(e) => Some(ErrorCause::Loading(e)),
                SupportedExtensionsError::OomError(e) => Some(ErrorCause::Oom(e)),
            }),
    {
        match self {
            SupportedExtensionsError::LoadingError(e) => Some(ErrorCause::Loading(e)),
            SupportedExtensionsError::OomError(e) => Some(ErrorCause::Oom(e)),
        }
    }

    /// The error for a failed Vulkan call. Only the two out-of-memory codes
    /// can come up there; any other code is a broken driver.
    pub fn from_error(err: Error) -> (r: Self)
        requires
            err is OutOfHostMemory || err is OutOfDeviceMemory,
        ensures
            r == SupportedExtensionsError::OomError(oom_of(err)),
    {
        match err {
            Error::OutOfHostMemory => SupportedExtensionsError::OomError(OomError::OutOfHostMemory),
            _ => SupportedExtensionsError::OomError(OomError::OutOfDeviceMemory),
        }
    }
}

impl From<OomError> for SupportedExtensionsError {
    fn from(err: OomError) -> (r: Self) {
        SupportedExtensionsError::OomError(err)
    }
}

impl vstd::std_specs::convert::FromSpecImpl<OomError> for SupportedExtensionsError {
    open spec fn obeys_from_spec() -> bool {
        true
    }

    open spec fn from_spec(err: OomError) -> Self {
        SupportedExtensionsError::OomError(err)
    }
}

impl From<LoadingError> for SupportedExtensionsError {
    fn from(err: LoadingError) -> (r: Self) {
        SupportedExtensionsError::LoadingError(err)
    }
}

impl vstd::std_specs::convert::FromSpecImpl<LoadingError> for SupportedExtensionsError {
    open spec fn obeys_from_spec() -> bool {
        true
    }

    open spec fn from_spec(err: LoadingError) -> Self {
        SupportedExtensionsError::LoadingError(err)
    }
}

/// What asking the core driver for its extensions gives back, once the
/// out-of-memory case is ruled out: the extensions, or the loading error.
/// An out-of-memory error there is a broken driver.
pub fn supported_by_core_result<T>(r: Result<T, SupportedExtensionsError>) -> (out: Result<
    T,
    LoadingError,
>)
    requires
        !(r matches Err(SupportedExtensionsError::OomError(_))),
    ensures
        match r {
            Ok(l) => out == Ok::<T, LoadingError>(l),
            Err(SupportedExtensionsError::LoadingError(e)) => out == Err::<T, LoadingError>(e),
            Err(SupportedExtensionsError::OomError(_)) => false,
        },
{
    match r {
        Ok(l) => Ok(l),
        Err(SupportedExtensionsError::LoadingError(e)) => Err(e),
        Err(SupportedExtensionsError::OomError(_)) => {
            proof {
                assert(false);
            }
            Err(LoadingError::LibraryLoadFailure(String::new()))
        },
    }
}

/// What asking a physical device for its extensions gives back: loading the
/// library cannot fail there, and an out-of-memory error is a broken driver,
/// so the extensions are all that is left.
pub fn supported_by_device_result<T>(r: Result<T, SupportedExtensionsError>) -> (out: T)
    requires
        r is Ok,
    ensures
        r == Ok::<T, SupportedExtensionsError>(out),
{
    r.unwrap()
}

} // verus!
