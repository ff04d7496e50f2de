use vstd::prelude::*;

verus! {

/// The error taxonomy into which every native status code is translated.
///
/// Every native call site maps its full status-code space exhaustively:
/// codes that are not otherwise classified fall into `Unknown` rather than
/// being silently ignored.  No error is retried; all are surfaced to the
/// caller at once.
#[derive(Clone, Copy, Debug)]
pub enum Error {
    /// The native library or session was not properly initialized before use.
    NotInitialized,
    /// The hardware architecture is incompatible with the requested
    /// operation (context creation only).
    ArchMismatch,
    /// Resource allocation failed while creating a context.
    AllocFailed,
    /// Any native status code not otherwise classified; the reason is a
    /// short descriptive string fixed per call site.
    Unknown(&'static str),
}

} // verus!
