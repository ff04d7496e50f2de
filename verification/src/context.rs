use vstd::prelude::*;

use crate::api::API;
use crate::error::Error;
use crate::mode::PointerMode;
use crate::native::STATUS_SUCCESS;
use crate::registry::{Handle, HandleRegistry};

verus! {

/// The resource kind of compute-context handles, scoping their registry
/// so that a future second handle kind can never collide with them.
pub struct ContextKind;

/// Exclusive owner of one live native context handle.
///
/// A context is created only through [`API::create`], which tracks the
/// handle, and torn down exactly once through [`API::destroy`] (or
/// [`Context::close`]), which untracks it and clears the owned handle so
/// that no later operation can reach the native library through this
/// context again.  Its view is `Some(handle)` while it owns its handle
/// and `None` once it has been destroyed.  A context is never copied;
/// it may be moved.
pub struct Context {
    id: Option<u64>,
}

impl View for Context {
    type V = Option<u64>;

    closed spec fn view(&self) -> Option<u64> {
        self.id
    }
}

impl Context {
    /// Wrap a raw handle just produced by the native create primitive.
    pub fn from_c(handle: Handle) -> (context: Context)
        ensures
            context@ == Some(handle),
    {
        Context { id: Some(handle) }
    }

    /// The owned raw handle, for handing to a native primitive.
    pub fn id_c(&self) -> (handle: Handle)
        requires
            self@ is Some,
        ensures
            handle == self@->0,
    {
        self.id.unwrap()
    }

    /// Whether this context still owns its handle, that is, has not been
    /// destroyed.  The fail-fast guard a caller tests before issuing any
    /// further operation through this context.
    pub fn is_live(&self) -> (live: bool)
        ensures
            live == (self@ is Some),
    {
        self.id.is_some()
    }

    /// Clear the owned handle, so the context is permanently unusable.
    pub(crate) fn clear(&mut self)
        ensures
            final(self)@ is None,
    {
        self.id = None;
    }

    /// Session-level read of the pointer mode: a thin pass-through to
    /// [`API::get_pointer_mode`] with the owned handle.
    pub fn pointer_mode(
        &self,
        registry: &HandleRegistry<ContextKind>,
        status: u32,
        mode_c: u32,
    ) -> (r: Result<PointerMode, Error>)
        requires
            self@ is Some,
            registry@.contains(self@->0),
            status == STATUS_SUCCESS ==> PointerMode::from_c_spec(mode_c) is Some,
        ensures
            r is Ok <==> status == STATUS_SUCCESS,
            status == STATUS_SUCCESS ==> (r matches Ok(mode) && Some(mode)
                == PointerMode::from_c_spec(mode_c)),
            r matches Err(e) ==> e == API::mode_error_spec(status),
    {
        API::get_pointer_mode(registry, self, status, mode_c)
    }

    /// Session-level write of the pointer mode: a thin pass-through to
    /// [`API::set_pointer_mode`] with the owned handle.
    pub fn set_pointer_mode(
        &mut self,
        registry: &HandleRegistry<ContextKind>,
        mode: PointerMode,
        status: u32,
    ) -> (r: Result<(), Error>)
        requires
            old(self)@ is Some,
            registry@.contains(old(self)@->0),
        ensures
            final(self)@ == old(self)@,
            r is Ok <==> status == STATUS_SUCCESS,
            r matches Err(e) ==> e == API::mode_error_spec(status),
    {
        API::set_pointer_mode(registry, self, mode, status)
    }

    /// Scoped release: destroy the owned handle exactly once.
    ///
    /// The handle is untracked and the context cleared whatever the native
    /// status says, so a failed native destroy still leaves the handle
    /// unusable rather than apparently still valid.
    pub fn close(
        &mut self,
        registry: &mut HandleRegistry<ContextKind>,
        status: u32,
    ) -> (r: Result<(), Error>)
        requires
            old(self)@ is Some,
            old(registry)@.contains(old(self)@->0),
        ensures
            final(registry)@ == old(registry)@.remove(old(self)@->0),
            final(self)@ is None,
            r is Ok <==> status == STATUS_SUCCESS,
            r matches Err(e) ==> e == API::destroy_error_spec(status),
    {
        API::destroy(registry, self, status)
    }
}

} // verus!
