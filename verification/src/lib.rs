//! The verified core of an interactive workspace for studying algorithms:
//! the reliable message protocol between the editor and its worker, the
//! sortedness check run on an algorithm's output, and the builder of
//! animation state machines driven by user scripts.
pub mod algorithm;
pub mod builder;
pub mod editor;
pub mod hegel;
pub mod protocol;
pub mod python_vm;
pub mod state_machine;
pub mod text;

use vstd::prelude::*;

verus! {

} // verus!
