//! Values that a running program hands to a debug window, and that a person at
//! the window may override: the program's side of the exchange, the state of
//! the debug window, and the choices the window makes for each parameter.

use vstd::prelude::*;

pub mod param;
pub mod storage;
pub mod ui;
pub mod viewer;

pub use param::AsDebuggableParam;
pub use viewer::AViewerFn;

verus! {

/// Adds two sizes; the sum must fit in a `usize`.
pub fn add(left: usize, right: usize) -> (sum: usize)
    requires
        left + right <= usize::MAX,
    ensures
        sum == left + right,
{
    left + right
}

} // verus!
