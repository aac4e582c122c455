//! The message capability: a structural contract that a value must satisfy to
//! be eligible for mailbox delivery. Ownership of a message moves from the
//! sender into the mailbox and then into the actor, so no synchronization is
//! needed to read it after delivery.

use vstd::prelude::*;

verus! {

/// Marker capability for values that can be delivered through a mailbox.
/// It carries no operations: satisfying it is a compile-time contract.
pub trait Message: Sized {}

} // verus!
