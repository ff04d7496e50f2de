use vstd::prelude::*;

verus! {

/// Status code with which every native primitive reports success.
pub const STATUS_SUCCESS: u32 = 0;

/// Status code: the native library was not initialized before use.
pub const STATUS_NOT_INITIALIZED: u32 = 1;

/// Status code: resource allocation failed inside the native library.
pub const STATUS_ALLOC_FAILED: u32 = 3;

/// Status code: the hardware architecture cannot satisfy the request.
pub const STATUS_ARCH_MISMATCH: u32 = 8;

/// Native encoding of the pointer mode that expects scalars on the host.
/// It is also the mode the native library gives a freshly created context.
pub const POINTER_MODE_HOST: u32 = 0;

/// Native encoding of the pointer mode that expects scalars on the device.
pub const POINTER_MODE_DEVICE: u32 = 1;

} // verus!
