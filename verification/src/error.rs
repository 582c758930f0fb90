//! Error taxonomy for the dispatch pipeline. Every component-level operation
//! returns either a value or exactly one of these; the orchestration
//! propagates them without local recovery.

use vstd::prelude::*;

verus! {

/// One failure of a pipeline stage. Device-level failures are fatal to the
/// run; the validation variants are raised before any device state is
/// touched.
#[derive(Clone, Debug, PartialEq, Eq)]
pub enum GpuError {
    /// No compute-capable accelerator satisfies the request.
    NoSuitableDevice,
    /// The selected accelerator could not be initialized.
    DeviceCreation,
    /// The device cannot satisfy a requested size/usage combination.
    Allocation,
    /// The shader source failed to compile or the entry point was not found;
    /// carries the compiler's diagnostic text.
    ShaderCompilation(String),
    /// The resources supplied for a binding set do not match the pipeline's
    /// declared layout.
    BindingLayoutMismatch,
    /// The device never signalled completion of a readback mapping.
    MapTimeout,
    /// The device became unavailable mid-operation.
    DeviceLost,
    /// An image dimension was zero.
    InvalidDimensions,
    /// A host buffer's length does not match the declared row layout.
    BufferLengthMismatch,
}

impl GpuError {
    /// A descriptive message identifying which stage failed, fixed per
    /// variant.
    pub fn message(&self) -> (r: &'static str)
        ensures
            r@.len() > 0,
            self matches GpuError::NoSuitableDevice ==> r@
                == "no suitable compute device is available"@,
            self matches GpuError::DeviceCreation ==> r@
                == "the selected device could not be initialized"@,
            self matches GpuError::Allocation ==> r@
                == "the device cannot allocate the requested resource"@,
            self matches GpuError::ShaderCompilation(_) ==> r@
                == "the shader program failed to compile"@,
            self matches GpuError::BindingLayoutMismatch ==> r@
                == "the resources do not match the pipeline's binding layout"@,
            self matches GpuError::MapTimeout ==> r@
                == "the readback mapping never signalled completion"@,
            self matches GpuError::DeviceLost ==> r@ == "the device was lost mid-operation"@,
            self matches GpuError::InvalidDimensions ==> r@
                == "image dimensions must be positive"@,
            self matches GpuError::BufferLengthMismatch ==> r@
                == "the pixel buffer does not match the declared row layout"@,
    {
        let r: &'static str = match self {
            GpuError::NoSuitableDevice => "no suitable compute device is available",
            GpuError::DeviceCreation => "the selected device could not be initialized",
            GpuError::Allocation => "the device cannot allocate the requested resource",
            GpuError::ShaderCompilation(_) => "the shader program failed to compile",
            GpuError::BindingLayoutMismatch => "the resources do not match the pipeline's binding layout",
            GpuError::MapTimeout => "the readback mapping never signalled completion",
            GpuError::DeviceLost => "the device was lost mid-operation",
            GpuError::InvalidDimensions => "image dimensions must be positive",
            GpuError::BufferLengthMismatch => "the pixel buffer does not match the declared row layout",
        };
        proof {
            reveal_strlit("no suitable compute device is available");
            reveal_strlit("the selected device could not be initialized");
            reveal_strlit("the device cannot allocate the requested resource");
            reveal_strlit("the shader program failed to compile");
            reveal_strlit("the resources do not match the pipeline's binding layout");
            reveal_strlit("the readback mapping never signalled completion");
            reveal_strlit("the device was lost mid-operation");
            reveal_strlit("image dimensions must be positive");
            reveal_strlit("the pixel buffer does not match the declared row layout");
        }
        r
    }
}

} // verus!
