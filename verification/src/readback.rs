//! Readback stage: turns what the caller observed while mapping the staging
//! buffer into the pipeline's result. The caller copies the output resource
//! into a host-visible staging buffer, waits until the device signals that
//! the copy and the mapping are complete, and only then hands the mapped
//! bytes here; the padding the backend required of the staging rows is
//! stripped, reconstructing a tightly packed image buffer.

use vstd::prelude::*;
use crate::error::GpuError;
use crate::rows::{packed_rows, strip_row_padding};

verus! {

/// What the caller observed while waiting for the readback mapping.
#[derive(Clone, Copy, Debug, PartialEq, Eq, Structural)]
pub enum MapOutcome {
    /// The device signalled that the copy and the mapping completed.
    Mapped,
    /// The device never signalled completion within the waiting bound.
    TimedOut,
    /// The device became unavailable mid-operation.
    DeviceLost,
}

/// Completes a readback of a `width` by `height` image. `staging` holds the
/// mapped staging bytes, one row of `row_stride` bytes per image row;
/// `outcome` reports how the wait for the mapping ended. On a completed
/// mapping the result is the tightly packed image; a timeout or a lost
/// device is reported as the corresponding error.
pub fn complete_read_back(
    outcome: MapOutcome,
    staging: &Vec<u8>,
    width: u32,
    height: u32,
    row_stride: usize,
) -> (r: Result<Vec<u8>, GpuError>)
    requires
        width > 0,
        4 * width <= row_stride,
        staging@.len() == height * row_stride,
    ensures
        outcome == MapOutcome::TimedOut ==> r == Err::<Vec<u8>, GpuError>(GpuError::MapTimeout),
        outcome == MapOutcome::DeviceLost ==> r == Err::<Vec<u8>, GpuError>(GpuError::DeviceLost),
        outcome == MapOutcome::Mapped ==> (r matches Ok(bytes) && bytes@ == packed_rows(
            staging@,
            4 * width as int,
            row_stride as int,
            height as int,
        )),
{
    match outcome {
        MapOutcome::TimedOut => Err(GpuError::MapTimeout),
        MapOutcome::DeviceLost => Err(GpuError::DeviceLost),
        MapOutcome::Mapped => Ok(strip_row_padding(staging, width, height, row_stride)),
    }
}

} // verus!
