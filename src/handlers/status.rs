//! The status mode: fetch the commit status of a reference and report it.
use vstd::prelude::*;

verus! {

/// Reports the commit status of a reference.
pub struct StatusHandler;

} // verus!
