//! The FIFO acquisition decision: whether the node at the configured path
//! must be created before it is opened for writing, and the permission bits
//! a newly created FIFO receives. The filesystem calls themselves (creating
//! the node, the blocking open for write) are performed by the caller.

use vstd::prelude::*;

verus! {

/// Permission bits of a newly created FIFO: owner read, write and execute.
pub const FIFO_MODE: u32 = 0o700;

/// What the acquisition step must do at the configured path.
#[derive(Debug, Clone, Copy, PartialEq, Eq, Structural)]
pub enum AcquirePlan {
    /// No entry exists at the path: create a FIFO there, then open it.
    CreateThenOpen,
    /// An entry already exists: reuse it and open it directly, with no
    /// check of its type.
    OpenExisting,
}

/// Decides the acquisition step from whether an entry exists at the path:
/// a FIFO is created exactly when nothing is there, and an existing node is
/// reused as it stands.
pub fn acquire_plan(exists: bool) -> (r: AcquirePlan)
    ensures
        r is CreateThenOpen <==> !exists,
        r is OpenExisting <==> exists,
{
    if exists {
        AcquirePlan::OpenExisting
    } else {
        AcquirePlan::CreateThenOpen
    }
}

} // verus!
