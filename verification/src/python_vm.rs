//! The handle on the Python interpreter that runs user code line by line.
use vstd::prelude::*;

verus! {

/// The Python interpreter of the notebook.
pub struct PythonVM {}

impl PythonVM {
    /// A new interpreter handle.
    pub fn new() -> (vm: Self)
        ensures
            vm == (PythonVM {}),
    {
        PythonVM {}
    }

    /// Runs `code` one line at a time. Stepping does not change the handle
    /// and yields nothing yet.
    pub fn step_execute(&self, code: &str) {
    }
}

} // verus!
