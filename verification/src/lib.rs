//! Lists of Vulkan extensions: fixed lists of the instance and device
//! extensions this library knows, held as flags, and open-ended sets of
//! extension names.
use vstd::prelude::*;

pub mod device;
pub mod errors;
pub mod instance;
pub mod known;
pub mod name_set;

pub use device::{DeviceExtensions, RawDeviceExtensions};
pub use errors::{Error, LoadingError, OomError, SupportedExtensionsError};
pub use instance::{InstanceExtensions, RawInstanceExtensions};

verus! {

/// A value that only this library can build. Every flag list carries one,
/// so that new extensions can be added without breaking code that builds
/// flag lists by hand: such code must start from a value of the library and
/// use the struct update syntax.
#[derive(Debug, Copy, Clone, PartialEq, Eq)]
pub struct Unbuildable(());

/// The one value of `Unbuildable`.
pub closed spec fn unbuildable_value() -> Unbuildable {
    Unbuildable(())
}

/// `Unbuildable` has a single value.
pub proof fn lemma_unbuildable_unique(a: Unbuildable, b: Unbuildable)
    ensures
        a == b,
{
    assert(a.0 == b.0);
}

impl Unbuildable {
    /// The one value of this type.
    pub(crate) fn new() -> (u: Unbuildable)
        ensures
            u == unbuildable_value(),
    {
        Unbuildable(())
    }
}

} // verus!
