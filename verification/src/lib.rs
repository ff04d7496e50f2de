//! A safety layer over an opaque, handle-based native session library:
//! a registry of the handles that are currently live, translation of
//! native status codes into a structured error taxonomy, and an owned
//! context object that guards against use of a handle after it has been
//! invalidated.
//!
//! The native primitives themselves (create, destroy, get-mode, set-mode)
//! are outside collaborators: the caller invokes them and hands their
//! status codes and output values to this layer, which does all the
//! bookkeeping and translation and is verified to do it exactly.

pub mod api;
pub mod context;
pub mod error;
pub mod laws;
pub mod mode;
pub mod native;
pub mod registry;

pub use api::API;
pub use context::{Context, ContextKind};
pub use error::Error;
pub use mode::PointerMode;
pub use registry::{Handle, HandleRegistry};
