//! The logging hook; the printing of each event is left to the caller.
use vstd::prelude::*;
use std::sync::Arc;

verus! {

/// A hook that prints every engine event it receives.
pub struct LogHook;

impl LogHook {
    pub fn new() -> (r: Arc<Self>) {
        Arc::new(LogHook)
    }
}

} // verus!
