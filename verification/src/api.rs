use vstd::prelude::*;

use crate::context::{Context, ContextKind};
use crate::error::Error;
use crate::mode::PointerMode;
use crate::native::{
    STATUS_ALLOC_FAILED, STATUS_ARCH_MISMATCH, STATUS_NOT_INITIALIZED, STATUS_SUCCESS,
};
use crate::registry::{Handle, HandleRegistry};

verus! {

/// The sole boundary across which the process talks to the native library.
///
/// Each function takes what the corresponding native primitive reported —
/// its status code and, where it has one, its output value — translates
/// the full status-code space into the [`Error`] taxonomy, and touches the
/// registry at exactly the two points where handle validity changes:
/// create and destroy.
pub struct API;

impl API {
    /// The error a failed create is translated to, by native status code.
    pub open spec fn create_error_spec(status: u32) -> Error
        recommends
            status != STATUS_SUCCESS,
    {
        if status == STATUS_NOT_INITIALIZED {
            Error::NotInitialized
        } else if status == STATUS_ARCH_MISMATCH {
            Error::ArchMismatch
        } else if status == STATUS_ALLOC_FAILED {
            Error::AllocFailed
        } else {
            Error::Unknown("Unable to create the cuBLAS context/resources.")
        }
    }

    /// The error a failed destroy is translated to, by native status code.
    pub open spec fn destroy_error_spec(status: u32) -> Error
        recommends
            status != STATUS_SUCCESS,
    {
        if status == STATUS_NOT_INITIALIZED {
            Error::NotInitialized
        } else {
            Error::Unknown("Unable to destroy the cuBLAS context/resources.")
        }
    }

    /// The error a failed get-mode or set-mode is translated to, by native
    /// status code.
    pub open spec fn mode_error_spec(status: u32) -> Error
        recommends
            status != STATUS_SUCCESS,
    {
        if status == STATUS_NOT_INITIALIZED {
            Error::NotInitialized
        } else {
            Error::Unknown("Unable to access the cuBLAS pointer mode.")
        }
    }

    /// Conclude a native create call: on success, register the returned
    /// handle as live and wrap it in a new [`Context`]; on failure,
    /// translate the status code and track nothing.
    ///
    /// `status` and `handle` are what the native create primitive reported.
    /// A successful create never returns a handle that is already live;
    /// such a reuse would be a fault of the native library, excluded by
    /// precondition rather than handled as a recoverable error.
    pub fn create(
        registry: &mut HandleRegistry<ContextKind>,
        status: u32,
        handle: Handle,
    ) -> (r: Result<Context, Error>)
        requires
            status == STATUS_SUCCESS ==> !old(registry)@.contains(handle),
        ensures
            r is Ok <==> status == STATUS_SUCCESS,
            status == STATUS_SUCCESS ==> final(registry)@ == old(registry)@.insert(handle),
            status != STATUS_SUCCESS ==> final(registry)@ == old(registry)@,
            r matches Ok(context) ==> context@ == Some(handle),
            r matches Err(e) ==> e == Self::create_error_spec(status),
    {
        if status == STATUS_SUCCESS {
            registry.track(handle);
            Ok(Context::from_c(handle))
        } else if status == STATUS_NOT_INITIALIZED {
            Err(Error::NotInitialized)
        } else if status == STATUS_ARCH_MISMATCH {
            Err(Error::ArchMismatch)
        } else if status == STATUS_ALLOC_FAILED {
            Err(Error::AllocFailed)
        } else {
            Err(Error::Unknown("Unable to create the cuBLAS context/resources."))
        }
    }

    /// Conclude a native destroy call: unregister the context's handle and
    /// clear the context, then translate the status code.
    ///
    /// The handle is untracked and the context cleared even when the native
    /// destroy failed, so that the handle is never considered valid again —
    /// fail-safe toward "already gone" rather than toward "still usable".
    pub fn destroy(
        registry: &mut HandleRegistry<ContextKind>,
        context: &mut Context,
        status: u32,
    ) -> (r: Result<(), Error>)
        requires
            old(context)@ is Some,
            old(registry)@.contains(old(context)@->0),
        ensures
            final(registry)@ == old(registry)@.remove(old(context)@->0),
            final(context)@ is None,
            r is Ok <==> status == STATUS_SUCCESS,
            r matches Err(e) ==> e == Self::destroy_error_spec(status),
    {
        let handle = context.id_c();
        registry.untrack(handle);
        context.clear();
        if status == STATUS_SUCCESS {
            Ok(())
        } else if status == STATUS_NOT_INITIALIZED {
            Err(Error::NotInitialized)
        } else {
            Err(Error::Unknown("Unable to destroy the cuBLAS context/resources."))
        }
    }

    /// Conclude a native get-mode call: translate its output encoding into
    /// a [`PointerMode`], or its failing status code into an error.
    ///
    /// The context's handle must be live in the registry: issuing a
    /// get-mode against an untracked handle is caller misuse, excluded by
    /// precondition, not a recoverable error path.  On success the native
    /// primitive's output is a value of its two-valued mode enumeration.
    pub fn get_pointer_mode(
        registry: &HandleRegistry<ContextKind>,
        context: &Context,
        status: u32,
        mode_c: u32,
    ) -> (r: Result<PointerMode, Error>)
        requires
            context@ is Some,
            registry@.contains(context@->0),
            status == STATUS_SUCCESS ==> PointerMode::from_c_spec(mode_c) is Some,
        ensures
            r is Ok <==> status == STATUS_SUCCESS,
            status == STATUS_SUCCESS ==> (r matches Ok(mode) && Some(mode)
                == PointerMode::from_c_spec(mode_c)),
            r matches Err(e) ==> e == Self::mode_error_spec(status),
    {
        if status == STATUS_SUCCESS {
            match PointerMode::from_c(mode_c) {
                Some(mode) => Ok(mode),
                None => Err(Error::Unknown("Unable to access the cuBLAS pointer mode.")),
            }
        } else if status == STATUS_NOT_INITIALIZED {
            Err(Error::NotInitialized)
        } else {
            Err(Error::Unknown("Unable to access the cuBLAS pointer mode."))
        }
    }

    /// Conclude a native set-mode call: translate its status code.
    ///
    /// The encoding handed to the native primitive is [`PointerMode::as_c`]
    /// of `mode`; the mode itself is session state held inside the native
    /// library, so nothing of this layer's state changes.
    pub fn set_pointer_mode(
        registry: &HandleRegistry<ContextKind>,
        context: &mut Context,
        mode: PointerMode,
        status: u32,
    ) -> (r: Result<(), Error>)
        requires
            old(context)@ is Some,
            registry@.contains(old(context)@->0),
        ensures
            final(context)@ == old(context)@,
            r is Ok <==> status == STATUS_SUCCESS,
            r matches Err(e) ==> e == Self::mode_error_spec(status),
    {
        let _ = mode;
        if status == STATUS_SUCCESS {
            Ok(())
        } else if status == STATUS_NOT_INITIALIZED {
            Err(Error::NotInitialized)
        } else {
            Err(Error::Unknown("Unable to access the cuBLAS pointer mode."))
        }
    }
}

} // verus!
