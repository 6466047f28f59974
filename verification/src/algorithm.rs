//! The interface of a steppable algorithm and the states it reports.
use vstd::prelude::*;

verus! {

/// Where a stepped algorithm stands.
pub enum AlgorithmState {
    Initial,
    Stepping(usize),
    Finished,
}

/// An algorithm that can be run one step at a time and report where it stands.
pub trait Algorithm {
    /// Runs one step.
    fn step(&mut self);

    /// Where the algorithm stands now.
    fn get_state(&self) -> &AlgorithmState;
}

} // verus!
