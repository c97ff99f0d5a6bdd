//! The outcome of a node, by which a flow picks the node that follows.

use vstd::prelude::*;

verus! {

/// The status with which a node ends; an enum as a rule. Its default is the
/// status of a node that ran well.
pub trait Status: Send + Sync + Default + PartialEq {
    /// The status of a node that failed.
    fn failed() -> Self;
}

} // verus!
