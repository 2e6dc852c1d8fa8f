//! The two lifecycle states of a handle.

use vstd::prelude::*;
use crate::sealed::Sealed;

verus! {

/// State of a handle whose sensor has been brought up and is sampling.
pub struct Enabled;

/// State of a handle of which nothing is known: a new one, or one whose
/// sensor has been reset.
pub struct Disabled;

impl Sealed for Enabled {
    open spec fn sampling() -> bool {
        true
    }
}

impl Sealed for Disabled {
    open spec fn sampling() -> bool {
        false
    }
}

} // verus!
