use vstd::prelude::*;

use crate::mode::PointerMode;
use crate::native::POINTER_MODE_HOST;

verus! {

/// Law: decoding the native encoding of a pointer mode yields that mode
/// again, for both `Host` and `Device`.
///
/// [`API::set_pointer_mode`] hands the native library `mode.as_c_spec()`
/// and [`API::get_pointer_mode`] returns the decoding of what the native
/// library reports, so a set followed immediately by a get returns the
/// mode that was set whenever the native library reports back the
/// encoding it was given.
pub proof fn lemma_mode_round_trip(mode: PointerMode)
    ensures
        PointerMode::from_c_spec(mode.as_c_spec()) == Some(mode),
{
}

/// Law: the encoding the native library gives a freshly created context —
/// `POINTER_MODE_HOST`, its documented default — decodes to `Host`, so a
/// fresh context's first mode read returns `Host`.
pub proof fn lemma_default_mode_is_host()
    ensures
        PointerMode::from_c_spec(POINTER_MODE_HOST) == Some(PointerMode::Host),
{
}

/// Law: destroying a handle removes it from the live set, so the liveness
/// precondition of a second destroy of the same handle value can no longer
/// hold — a destroy never silently succeeds twice.
pub proof fn lemma_no_double_destroy(live: Set<u64>, handle: u64)
    ensures
        !live.remove(handle).contains(handle),
{
}

/// Law: registry bookkeeping for one handle is isolated from every other:
/// tracking or untracking one handle never changes whether a different
/// handle is live.
pub proof fn lemma_registry_isolation(live: Set<u64>, tracked_handle: u64, other: u64)
    requires
        tracked_handle != other,
    ensures
        live.insert(tracked_handle).contains(other) == live.contains(other),
        live.remove(tracked_handle).contains(other) == live.contains(other),
{
}

/// Law: a create followed by the destroy of the same handle restores the
/// live set exactly — no leaked entry and no duplicate entry remains, and
/// repeating the cycle any number of times keeps the registry consistent.
pub proof fn lemma_create_destroy_restores_registry(live: Set<u64>, handle: u64)
    requires
        !live.contains(handle),
    ensures
        live.insert(handle).remove(handle) == live,
{
    assert(live.insert(handle).remove(handle) =~= live);
}

} // verus!
