//! The legacy global-singleton loading discipline.
//!
//! The legacy design guards one process-wide load behind a three-state
//! register — uninitialized, loading, active — advanced only by atomic
//! compare-and-swap, never by a blocking lock, so a racing caller gets an
//! immediate answer instead of waiting.  The register itself lives in the
//! platform glue; every decision about it is made here, from the observed
//! raw value, so the whole transition discipline is stated and proved.
//!
//! There is no transition out of active: once a load succeeds the library
//! stays for the life of the process, and only a failed attempt resets the
//! register to uninitialized for a later retry.

use vstd::prelude::*;

use crate::errors::XInputLoadingFailure;

verus! {

/// Raw register value: no load was attempted, or the last attempt failed.
pub const STATUS_UNINITIALIZED: u32 = 0;

/// Raw register value: a load is in flight on some thread.
pub const STATUS_LOADING: u32 = 1;

/// Raw register value: a load completed successfully.
pub const STATUS_ACTIVE: u32 = 2;

/// What a load attempt that observes the given register value must do:
/// the new register value to store, and `Ok` exactly when this attempt
/// has claimed the load and may proceed to resolve and bind.
pub open spec fn begin_load_spec(status: u32) -> (u32, Result<(), XInputLoadingFailure>) {
    if status == STATUS_UNINITIALIZED {
        (STATUS_LOADING, Ok(()))
    } else if status == STATUS_LOADING {
        (STATUS_LOADING, Err(XInputLoadingFailure::AlreadyLoading))
    } else if status == STATUS_ACTIVE {
        (STATUS_ACTIVE, Err(XInputLoadingFailure::AlreadyActive))
    } else {
        (status, Err(XInputLoadingFailure::UnknownState))
    }
}

/// The register value a claimed load must store when it completes: active
/// on success, back to uninitialized on failure, so that a later attempt
/// may retry.
pub open spec fn complete_load_spec(succeeded: bool) -> u32 {
    if succeeded {
        STATUS_ACTIVE
    } else {
        STATUS_UNINITIALIZED
    }
}

/// Decides a load attempt from the observed register value.  Only the
/// attempt that observes the register uninitialized claims the load; an
/// attempt during another thread's load is answered `AlreadyLoading`
/// without blocking; one after a successful load, `AlreadyActive`; any
/// other register value indicates corruption and is left untouched.
pub fn begin_load(status: u32) -> (r: (u32, Result<(), XInputLoadingFailure>))
    ensures
        r == begin_load_spec(status),
{
    if status == STATUS_UNINITIALIZED {
        (STATUS_LOADING, Ok(()))
    } else if status == STATUS_LOADING {
        (STATUS_LOADING, Err(XInputLoadingFailure::AlreadyLoading))
    } else if status == STATUS_ACTIVE {
        (STATUS_ACTIVE, Err(XInputLoadingFailure::AlreadyActive))
    } else {
        (status, Err(XInputLoadingFailure::UnknownState))
    }
}

/// The register value to store when a claimed load completes.
pub fn complete_load(succeeded: bool) -> (r: u32)
    ensures
        r == complete_load_spec(succeeded),
{
    if succeeded {
        STATUS_ACTIVE
    } else {
        STATUS_UNINITIALIZED
    }
}

/// The race discipline of the legacy singleton.  When two load attempts
/// race, exactly one observes the register uninitialized and claims the
/// load; while that load is in flight the register reads loading, so the
/// losing attempt is answered `AlreadyLoading` — never `AlreadyActive` —
/// and keeps the register as it found it; after the winner completes
/// successfully the register reads active, so any later attempt is
/// answered `AlreadyActive`; and a failed winner resets the register to
/// uninitialized, after which a new attempt claims the load again.
pub proof fn lemma_load_race_discipline()
    ensures
        begin_load_spec(STATUS_UNINITIALIZED) == (STATUS_LOADING, Ok::<
            (),
            XInputLoadingFailure,
        >(())),
        begin_load_spec(STATUS_LOADING) == (STATUS_LOADING, Err::<(), XInputLoadingFailure>(
            XInputLoadingFailure::AlreadyLoading,
        )),
        complete_load_spec(true) == STATUS_ACTIVE,
        begin_load_spec(STATUS_ACTIVE) == (STATUS_ACTIVE, Err::<(), XInputLoadingFailure>(
            XInputLoadingFailure::AlreadyActive,
        )),
        complete_load_spec(false) == STATUS_UNINITIALIZED,
{
}

/// The register never moves out of active: whatever a later load attempt
/// observes there, it leaves the register active and claims nothing.
pub proof fn lemma_active_is_final(status: u32)
    requires
        status == STATUS_ACTIVE,
    ensures
        begin_load_spec(status).0 == STATUS_ACTIVE,
        begin_load_spec(status).1 is Err,
{
}

} // verus!
