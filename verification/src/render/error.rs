//! Failures that the renderer reports to its caller.

use vstd::prelude::*;

verus! {

/// Why an operation of the renderer did not go through.
#[derive(Clone, Copy, Debug, PartialEq, Eq)]
pub enum RenderError {
    /// No usable device or drawable surface could be had at start-up.
    DeviceAcquisition,
    /// The device could not create a buffer.
    Allocation,
    /// More models are stored than the transform buffer has slots.
    CapacityExceeded { models: usize, capacity: usize },
}

} // verus!
