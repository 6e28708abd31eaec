//! The CPU-affinity binding step: a one-shot, irreversible, process-wide
//! setting, attempted only when a core index was requested, and attempted
//! before any FIFO interaction. The operating-system calls are reached
//! through trusted wrappers around the `core_affinity` crate; the selection
//! of the requested core among the available ones is verified.

use vstd::prelude::*;

verus! {

/// Capacity of the fixed-size cpu set that the pinning call fills: core
/// identifiers at or beyond it cannot be pinned.
pub const CPU_SET_CAPACITY: usize = 1024;

/// Why the affinity step failed. Every failure here is fatal for the run
/// and must happen before the FIFO is touched.
#[derive(Debug, Clone, Copy, PartialEq, Eq, Structural)]
pub enum AffinityError {
    /// The requested index matches no available core identifier.
    CoreNotFound,
    /// The set of available cores could not be determined at all.
    CoresUnknown,
}

impl AffinityError {
    /// The human-readable description printed to standard error.
    pub fn message(&self) -> (r: &'static str)
        ensures
            self is CoreNotFound ==> r@ == "Core not found"@,
            self is CoresUnknown ==> r@ == "Could not determine available cores"@,
    {
        match self {
            AffinityError::CoreNotFound => "Core not found",
            AffinityError::CoresUnknown => "Could not determine available cores",
        }
    }
}

/// Relies on `core_affinity::get_core_ids`: the identifiers of the cores the
/// current process is allowed to run on, or `None` when they cannot be
/// determined. The set depends on the machine and the moment, so nothing is
/// promised of the outcome.
#[verifier::external_body]
fn available_core_ids() -> (r: Option<Vec<usize>>) {
    core_affinity::get_core_ids().map(|ids| ids.into_iter().map(|c| c.id).collect())
}

/// Relies on `core_affinity::set_for_current`: restricts the current
/// process's scheduling to the given core, returning whether the underlying
/// call succeeded. The call marks the core in a cpu set of fixed capacity,
/// so the identifier must lie below that capacity.
#[verifier::external_body]
fn pin_current_to(core: usize) -> (r: bool)
    requires
        core < CPU_SET_CAPACITY,
{
    core_affinity::set_for_current(core_affinity::CoreId { id: core })
}

/// Picks the requested core out of the available identifiers: the result is
/// the requested index exactly when it occurs in the list, and nothing
/// otherwise.
pub fn select_core(available: &Vec<usize>, requested: usize) -> (r: Option<usize>)
    ensures
        r is Some <==> available@.contains(requested),
        r matches Some(c) ==> c == requested,
{
    let mut i: usize = 0;
    while i < available.len()
        invariant
            i <= available@.len(),
            forall|j: int| 0 <= j < i as int ==> available@[j] != requested,
        decreases available@.len() - i,
    {
        if available[i] == requested {
            return Some(requested);
        }
        i = i + 1;
    }
    None
}

/// Binds the current process to the requested core: enumerates the
/// available cores, fails when they cannot be determined or when the
/// requested index is not among them, and otherwise restricts scheduling to
/// that core. On success the bound core is exactly the requested one.
pub fn bind_to_core(requested: usize) -> (r: Result<usize, AffinityError>)
    ensures
        r matches Ok(c) ==> c == requested && requested < CPU_SET_CAPACITY,
{
    match available_core_ids() {
        None => Err(AffinityError::CoresUnknown),
        Some(ids) => match select_core(&ids, requested) {
            None => Err(AffinityError::CoreNotFound),
            Some(c) => {
                if c < CPU_SET_CAPACITY {
                    let _pinned = pin_current_to(c);
                    Ok(c)
                } else {
                    Err(AffinityError::CoreNotFound)
                }
            },
        },
    }
}

} // verus!
