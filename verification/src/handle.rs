//! Handles that the driver gives out, kept as the plain addresses they are.

use vstd::prelude::*;

verus! {

/// Device type mask that selects the GPU devices of a platform
/// (`CL_DEVICE_TYPE_GPU`).
pub const DEVICE_TYPE_GPU: u64 = 4;

/// A platform of the driver (`cl_platform_id`), by its address.
#[derive(Clone, Copy, Debug, PartialEq, Eq, Structural)]
pub struct PlatformId {
    pub addr: usize,
}

/// A device of a platform (`cl_device_id`), by its address.
#[derive(Clone, Copy, Debug, PartialEq, Eq, Structural)]
pub struct DeviceId {
    pub addr: usize,
}

/// A context object of the driver (`cl_context`), by its address.
#[derive(Clone, Copy, Debug, PartialEq, Eq, Structural)]
pub struct ContextHandle {
    pub addr: usize,
}

} // verus!
