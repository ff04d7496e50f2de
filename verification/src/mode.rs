use vstd::prelude::*;

use crate::native::{POINTER_MODE_DEVICE, POINTER_MODE_HOST};

verus! {

/// Where scalar arguments of subsequent operations are expected to reside.
///
/// The mode is session-scoped state held inside the native library, not
/// mirrored locally: every read goes through the native get-mode primitive.
/// This layer only translates between this enumeration and the native
/// two-valued encoding.
#[derive(Clone, Copy, Debug, PartialEq, Eq, Structural)]
pub enum PointerMode {
    /// Scalar arguments reside in host memory.
    Host,
    /// Scalar arguments reside in device memory.
    Device,
}

impl PointerMode {
    /// The native encoding of this mode.
    pub open spec fn as_c_spec(self) -> u32 {
        match self {
            PointerMode::Host => POINTER_MODE_HOST,
            PointerMode::Device => POINTER_MODE_DEVICE,
        }
    }

    /// Encode this mode as the value the native set-mode primitive takes.
    pub fn as_c(self) -> (c: u32)
        ensures
            c == self.as_c_spec(),
    {
        match self {
            PointerMode::Host => POINTER_MODE_HOST,
            PointerMode::Device => POINTER_MODE_DEVICE,
        }
    }

    /// The mode a native encoding denotes, if it denotes one.
    pub open spec fn from_c_spec(c: u32) -> Option<PointerMode> {
        if c == POINTER_MODE_HOST {
            Some(PointerMode::Host)
        } else if c == POINTER_MODE_DEVICE {
            Some(PointerMode::Device)
        } else {
            None
        }
    }

    /// Decode the value the native get-mode primitive returned.
    pub fn from_c(c: u32) -> (mode: Option<PointerMode>)
        ensures
            mode == Self::from_c_spec(c),
    {
        if c == POINTER_MODE_HOST {
            Some(PointerMode::Host)
        } else if c == POINTER_MODE_DEVICE {
            Some(PointerMode::Device)
        } else {
            None
        }
    }
}

} // verus!
