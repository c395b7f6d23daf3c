//! What a sentence asks the host to do when the player reaches it.

use vstd::prelude::*;

verus! {

/// Names one effect of the host. The engine decides when an action is due
/// and hands its identifier over; what it does is the host's affair.
#[derive(Clone, Copy, Debug, PartialEq, Eq, Structural, Hash)]
pub struct ActionId(pub u64);

} // verus!
