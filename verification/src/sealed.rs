//! Keeps the set of lifecycle states closed.

use vstd::prelude::*;

verus! {

/// Implemented by the two lifecycle states and by nothing else.
pub trait Sealed {
    /// Whether a handle in this state stands for a sensor that is sampling.
    spec fn sampling() -> bool;
}

} // verus!
