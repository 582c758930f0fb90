//! Pipeline builder: the host-side mirror of a compiled compute pipeline's
//! declared binding layout, and the validation that a concrete set of image
//! resources matches that layout slot for slot.

use vstd::prelude::*;
use crate::device::{Device, Usage};
use crate::error::GpuError;

verus! {

/// The kind of resource a shader binding slot declares.
#[derive(Clone, Copy, Debug, PartialEq, Eq, Structural)]
pub enum BindingKind {
    /// The shader samples or reads the image bound at this slot.
    ReadableImage,
    /// The shader writes the image bound at this slot.
    WritableImage,
}

/// A compiled compute pipeline as the host sees it: the ordered binding
/// layout the shader program declares, and the workgroup tile size its entry
/// point was written for. Immutable after creation.
pub struct Pipeline {
    pub bindings: Vec<BindingKind>,
    pub tile_width: u32,
    pub tile_height: u32,
}

impl Pipeline {
    pub open spec fn wf(self) -> bool {
        self.tile_width > 0 && self.tile_height > 0
    }
}

/// Builds the executable pipeline from the outcome of compiling a shader
/// program. The caller compiles the source on the device; `compile_failure`
/// carries the compiler's diagnostic text when the module failed to compile
/// or the entry point was not found, and `bindings` mirrors, slot by slot,
/// the resource bindings the shader declares. The tile size must match the
/// shader's declared workgroup size.
pub fn build_pipeline(
    compile_failure: Option<String>,
    bindings: Vec<BindingKind>,
    tile_width: u32,
    tile_height: u32,
) -> (r: Result<Pipeline, GpuError>)
    requires
        tile_width > 0,
        tile_height > 0,
    ensures
        compile_failure matches Some(diagnostic) ==> r == Err::<Pipeline, GpuError>(
            GpuError::ShaderCompilation(diagnostic),
        ),
        compile_failure is None ==> (r matches Ok(p) && p.wf() && p.bindings@ == bindings@
            && p.tile_width == tile_width && p.tile_height == tile_height),
{
    match compile_failure {
        Some(diagnostic) => Err(GpuError::ShaderCompilation(diagnostic)),
        None => Ok(Pipeline { bindings, tile_width, tile_height }),
    }
}

/// A concrete association of a pipeline's declared slots with image
/// resources, one resource per slot in slot order. It is valid only for the
/// layout it was built against; `slots` records that layout.
pub struct BindingSet {
    pub slots: Vec<BindingKind>,
    pub resources: Vec<usize>,
}

/// Whether a resource with capabilities `usage` can serve a slot declared as
/// `kind`: a readable slot needs a shader-readable resource, a writable slot
/// a shader-writable one.
pub open spec fn slot_satisfied(kind: BindingKind, usage: Usage) -> bool {
    match kind {
        BindingKind::ReadableImage => usage.shader_readable,
        BindingKind::WritableImage => usage.shader_writable,
    }
}

/// Whether the resources named by `ids` match `layout` exactly: same count,
/// and each resource's capabilities satisfy its slot's declared kind.
pub open spec fn layout_accepts(
    layout: Seq<BindingKind>,
    resources: Seq<crate::device::ImageResource>,
    ids: Seq<usize>,
) -> bool {
    &&& ids.len() == layout.len()
    &&& forall|k: int|
        0 <= k < ids.len() ==> slot_satisfied(layout[k], resources[#[trigger] ids[k] as int].usage)
}

/// Associates the pipeline's declared slots with the device resources named
/// by `resource_ids`, in slot order. Succeeds exactly when the resources
/// match the pipeline's layout: same count and matching resource kinds;
/// any mismatch is rejected before anything is recorded or submitted.
pub fn build_binding_set(device: &Device, pipeline: &Pipeline, resource_ids: &Vec<usize>) -> (r:
    Result<BindingSet, GpuError>)
    requires
        device.wf(),
        forall|i: int|
            0 <= i < resource_ids@.len() ==> #[trigger] resource_ids@[i]
                < device.resource_seq().len(),
    ensures
        resource_ids@.len() != pipeline.bindings@.len() ==> r == Err::<BindingSet, GpuError>(
            GpuError::BindingLayoutMismatch,
        ),
        layout_accepts(pipeline.bindings@, device.resource_seq(), resource_ids@) ==> (r matches Ok(
            bs,
        ) && bs.slots@ == pipeline.bindings@ && bs.resources@ == resource_ids@),
        !layout_accepts(pipeline.bindings@, device.resource_seq(), resource_ids@) ==> r == Err::<
            BindingSet,
            GpuError,
        >(GpuError::BindingLayoutMismatch),
{
    let n: usize = resource_ids.len();
    if n != pipeline.bindings.len() {
        return Err(GpuError::BindingLayoutMismatch);
    }
    let mut slots: Vec<BindingKind> = Vec::new();
    let mut ids: Vec<usize> = Vec::new();
    let mut i: usize = 0;
    while i < n
        invariant
            device.wf(),
            forall|j: int|
                0 <= j < resource_ids@.len() ==> #[trigger] resource_ids@[j]
                    < device.resource_seq().len(),
            n == resource_ids@.len(),
            n == pipeline.bindings@.len(),
            i <= n,
            slots@.len() == i,
            ids@.len() == i,
            forall|k: int| 0 <= k < i ==> slots@[k] == pipeline.bindings@[k],
            forall|k: int| 0 <= k < i ==> ids@[k] == resource_ids@[k],
            forall|k: int|
                0 <= k < i ==> slot_satisfied(
                    pipeline.bindings@[k],
                    device.resource_seq()[#[trigger] resource_ids@[k] as int].usage,
                ),
        decreases n - i,
    {
        let id: usize = resource_ids[i];
        let kind: BindingKind = pipeline.bindings[i];
        let usage: Usage = device.resource(id).usage;
        let ok: bool = match kind {
            BindingKind::ReadableImage => usage.shader_readable,
            BindingKind::WritableImage => usage.shader_writable,
        };
        if !ok {
            return Err(GpuError::BindingLayoutMismatch);
        }
        slots.push(kind);
        ids.push(id);
        i = i + 1;
    }
    proof {
        assert(slots@ =~= pipeline.bindings@);
        assert(ids@ =~= resource_ids@);
    }
    Ok(BindingSet { slots, resources: ids })
}

} // verus!
