//! The error taxonomy of the descriptor pool: a pure, total classification of
//! native failure codes into the small set of allocation errors that callers
//! are allowed to see, plus the verdict on codes reported by the defensive
//! operations (free, reset), for which every failure is fatal.

use vstd::prelude::*;

verus! {

/// The native result code that reports success.
pub const NATIVE_SUCCESS: i32 = 0;

/// The native result code for host (CPU-side) memory exhaustion.
pub const NATIVE_ERROR_OUT_OF_HOST_MEMORY: i32 = -1;

/// The native result code for device (GPU-side) memory exhaustion.
pub const NATIVE_ERROR_OUT_OF_DEVICE_MEMORY: i32 = -2;

/// A recoverable descriptor-set allocation failure, as reported to callers.
///
/// `OutOfPoolMemory` is reserved and currently unused: the native interface in
/// use does not yet expose a dedicated pool-memory-exhaustion code, so that
/// condition is folded into the `FragmentedPool` catch-all.
#[derive(Clone, Copy, Debug, Hash, PartialEq, Eq, Structural)]
pub enum AllocationError {
    OutOfHostMemory,
    OutOfDeviceMemory,
    OutOfPoolMemory,
    FragmentedPool,
}

/// The classification a native failure code falls under: the two
/// memory-exhaustion codes map to their own classifications and every other
/// code collapses to `FragmentedPool`.
pub open spec fn classification(code: i32) -> AllocationError {
    if code == NATIVE_ERROR_OUT_OF_HOST_MEMORY {
        AllocationError::OutOfHostMemory
    } else if code == NATIVE_ERROR_OUT_OF_DEVICE_MEMORY {
        AllocationError::OutOfDeviceMemory
    } else {
        AllocationError::FragmentedPool
    }
}

/// Classifies a native allocation-failure code. Total: any unrecognized code,
/// present or future, maps to `FragmentedPool`; the raw native code never
/// escapes this layer and no code can make this panic.
pub fn classify_device_error(code: i32) -> (r: AllocationError)
    ensures
        r == classification(code),
{
    if code == NATIVE_ERROR_OUT_OF_HOST_MEMORY {
        AllocationError::OutOfHostMemory
    } else if code == NATIVE_ERROR_OUT_OF_DEVICE_MEMORY {
        AllocationError::OutOfDeviceMemory
    } else {
        AllocationError::FragmentedPool
    }
}

/// The verdict on a native code reported by the defensive-only operations
/// (freeing sets, resetting the pool): those define no recoverable error
/// channel, so anything but success is a contract violation the caller must
/// treat as fatal.
pub fn fatal_device_failure(code: i32) -> (r: bool)
    ensures
        r == (code != NATIVE_SUCCESS),
{
    code != NATIVE_SUCCESS
}

} // verus!
