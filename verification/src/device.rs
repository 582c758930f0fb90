//! Device context and resource provisioner: the model of the accelerator the
//! orchestration drives. The device owns the GPU image resources created for
//! a run; the caller performs the actual accelerator operations and feeds
//! their plain-value outcomes through these functions, which decide, in
//! verified code, what each stage returns and how the device state changes.

use vstd::prelude::*;
use vstd::arithmetic::div_mod::{
    lemma_fundamental_div_mod,
    lemma_fundamental_div_mod_converse,
    lemma_mod_bound,
};
use crate::dispatch::Queue;
use crate::error::GpuError;
use crate::rows::{packed_rows, strip_row_padding, lemma_packed_rows_tight};

verus! {

/// The capabilities a GPU image resource is created with.
#[derive(Clone, Copy, Debug, PartialEq, Eq, Structural)]
pub struct Usage {
    /// The shader may sample or read the resource.
    pub shader_readable: bool,
    /// The shader may write the resource.
    pub shader_writable: bool,
    /// The resource may be the source of a copy (readback).
    pub copy_src: bool,
    /// The resource may be the destination of a copy (upload).
    pub copy_dst: bool,
}

impl Usage {
    /// Whether at least one capability is declared.
    pub open spec fn declares_any(self) -> bool {
        self.shader_readable || self.shader_writable || self.copy_src || self.copy_dst
    }

    /// The usage of an input resource: read by the shader, filled from the
    /// host.
    pub fn input() -> (u: Usage)
        ensures
            u == (Usage {
                shader_readable: true,
                shader_writable: false,
                copy_src: false,
                copy_dst: true,
            }),
    {
        Usage { shader_readable: true, shader_writable: false, copy_src: false, copy_dst: true }
    }

    /// The usage of an output resource: written by the shader, copied back to
    /// the host.
    pub fn output() -> (u: Usage)
        ensures
            u == (Usage {
                shader_readable: false,
                shader_writable: true,
                copy_src: true,
                copy_dst: false,
            }),
    {
        Usage { shader_readable: false, shader_writable: true, copy_src: true, copy_dst: false }
    }
}

/// A GPU-resident image resource: a four-channel, eight-bit image of
/// `width` by `height` pixels with the capabilities it was created with.
/// `data` models the resource's device-side memory; the orchestration
/// reaches it only through upload and readback.
pub struct ImageResource {
    pub width: u32,
    pub height: u32,
    pub usage: Usage,
    pub data: Vec<u8>,
}

impl ImageResource {
    /// The bytes the resource holds device-side, tightly packed row by row
    /// at four bytes per pixel.
    pub open spec fn contents(self) -> Seq<u8> {
        self.data@
    }

    pub open spec fn wf(self) -> bool {
        &&& self.width > 0
        &&& self.height > 0
        &&& self.usage.declares_any()
        &&& self.contents().len() == 4 * self.width * self.height
    }
}

/// The preference hint for selecting among the available accelerators.
#[derive(Clone, Copy, Debug, PartialEq, Eq, Structural)]
pub enum PowerPreference {
    /// Favor the highest-throughput accelerator.
    HighPerformance,
    /// Favor the lowest-power accelerator.
    LowPower,
}

/// The logical device handle: the accelerator selected for the run. It owns
/// every image resource created on it, addressed by the index its creation
/// returned.
pub struct Device {
    preference: PowerPreference,
    resources: Vec<ImageResource>,
}

impl Device {
    /// The resources the device owns, in creation order.
    pub closed spec fn resource_seq(self) -> Seq<ImageResource> {
        self.resources@
    }

    /// The preference the context was acquired with.
    pub closed spec fn preference_spec(self) -> PowerPreference {
        self.preference
    }

    pub open spec fn wf(self) -> bool {
        forall|i: int|
            0 <= i < self.resource_seq().len() ==> (#[trigger] self.resource_seq()[i]).wf()
    }

    /// How many resources the device owns.
    pub fn resource_count(&self) -> (n: usize)
        ensures
            n == self.resource_seq().len(),
    {
        self.resources.len()
    }

    /// The resource created as number `id`.
    pub fn resource(&self, id: usize) -> (r: &ImageResource)
        requires
            id < self.resource_seq().len(),
        ensures
            *r == self.resource_seq()[id as int],
    {
        &self.resources[id]
    }
}

/// Establishes the device context from the outcome of enumerating the
/// accelerators. The caller enumerates compute-capable accelerators with the
/// given preference and reports whether one was found (`adapter_found`) and
/// whether it could be initialized (`device_ok`); exactly one context is
/// acquired per run. Fails with `NoSuitableDevice` when no accelerator
/// satisfies the request, and with `DeviceCreation` when the selected one
/// cannot be initialized.
pub fn acquire_context(preference: PowerPreference, adapter_found: bool, device_ok: bool) -> (r:
    Result<(Device, Queue), GpuError>)
    ensures
        !adapter_found ==> r == Err::<(Device, Queue), GpuError>(GpuError::NoSuitableDevice),
        adapter_found && !device_ok ==> r == Err::<(Device, Queue), GpuError>(
            GpuError::DeviceCreation,
        ),
        adapter_found && device_ok ==> (r matches Ok(dq) && dq.0.wf() && dq.0.resource_seq().len()
            == 0 && dq.0.preference_spec() == preference && dq.1.wf() && dq.1.log().len() == 0),
{
    if !adapter_found {
        return Err(GpuError::NoSuitableDevice);
    }
    if !device_ok {
        return Err(GpuError::DeviceCreation);
    }
    let device = Device { preference, resources: Vec::new() };
    let queue = Queue::empty();
    Ok((device, queue))
}

/// A vector of `n` zero bytes.
fn zero_bytes(n: usize) -> (r: Vec<u8>)
    ensures
        r@.len() == n,
        forall|i: int| 0 <= i < n ==> r@[i] == 0u8,
{
    let mut out: Vec<u8> = Vec::new();
    let mut j: usize = 0;
    while j < n
        invariant
            j <= n,
            out@.len() == j,
            forall|i: int| 0 <= i < j ==> out@[i] == 0u8,
        decreases n - j,
    {
        out.push(0u8);
        j = j + 1;
    }
    out
}

impl Device {
    /// Allocates a `width` by `height` image resource with the given
    /// capabilities and returns its number. Zero dimensions are rejected with
    /// `InvalidDimensions` before anything is allocated. A size or usage
    /// combination the device cannot satisfy is rejected with `Allocation`:
    /// no capability declared, a byte length beyond the host's address space,
    /// or a backing allocation the device itself refused, which the caller
    /// reports through `alloc_ok`. A fresh resource holds all-zero bytes
    /// until it is uploaded to or written by a dispatch.
    pub fn create_image_resource(&mut self, width: u32, height: u32, usage: Usage, alloc_ok: bool) -> (r: Result<
        usize,
        GpuError,
    >)
        requires
            old(self).wf(),
        ensures
            final(self).wf(),
            final(self).preference_spec() == old(self).preference_spec(),
            (width == 0 || height == 0) ==> (r == Err::<usize, GpuError>(GpuError::InvalidDimensions)
                && *final(self) == *old(self)),
            (width > 0 && height > 0 && !(usage.declares_any() && 4 * width * height
                <= usize::MAX && alloc_ok)) ==> (r == Err::<usize, GpuError>(GpuError::Allocation)
                && *final(self) == *old(self)),
            (width > 0 && height > 0 && usage.declares_any() && 4 * width * height
                <= usize::MAX && alloc_ok) ==> ({
                &&& (r matches Ok(id) && id == old(self).resource_seq().len())
                &&& final(self).resource_seq().len() == old(self).resource_seq().len() + 1
                &&& forall|i: int|
                    0 <= i < old(self).resource_seq().len() ==> final(self).resource_seq()[i]
                        == old(self).resource_seq()[i]
                &&& ({
                    let res = final(self).resource_seq()[old(self).resource_seq().len() as int];
                    &&& res.width == width
                    &&& res.height == height
                    &&& res.usage == usage
                    &&& res.contents().len() == 4 * width * height
                    &&& forall|i: int| 0 <= i < res.contents().len() ==> res.contents()[i] == 0u8
                })
            }),
    {
        if width == 0 || height == 0 {
            return Err(GpuError::InvalidDimensions);
        }
        if !(usage.shader_readable || usage.shader_writable || usage.copy_src || usage.copy_dst) {
            return Err(GpuError::Allocation);
        }
        if !alloc_ok {
            return Err(GpuError::Allocation);
        }
        proof {
            assert((width as int) * (height as int) <= (u32::MAX as int) * (u32::MAX as int))
                by (nonlinear_arith)
                requires
                    width <= u32::MAX,
                    height <= u32::MAX,
            ;
        }
        let pixels: u64 = (width as u64) * (height as u64);
        let quarter: u64 = (usize::MAX as u64) / 4;
        proof {
            lemma_fundamental_div_mod(usize::MAX as int, 4);
            lemma_mod_bound(usize::MAX as int, 4);
            assert(4 * (width as int) * (height as int) == 4 * ((width as int) * (height as int)))
                by (nonlinear_arith);
        }
        if pixels > quarter {
            proof {
                assert(4 * pixels > usize::MAX);
            }
            return Err(GpuError::Allocation);
        }
        proof {
            assert(4 * pixels <= usize::MAX);
        }
        let byte_len: usize = (4 * pixels) as usize;
        let data = zero_bytes(byte_len);
        let id: usize = self.resources.len();
        self.resources.push(ImageResource { width, height, usage, data });
        Ok(id)
    }

    /// Uploads host pixel data into resource `id`, which must be a copy
    /// destination. `pixel_bytes` holds one row of `row_stride` bytes per
    /// image row, of which the first four bytes per pixel are data; the
    /// stride padding is stripped transparently, so after an upload the
    /// resource holds a byte-exact copy of the host pixels. A buffer whose
    /// length does not equal `height * row_stride`, or a stride shorter than
    /// four bytes per pixel times the width, is rejected with
    /// `BufferLengthMismatch` before the resource is touched.
    pub fn upload(&mut self, id: usize, pixel_bytes: &Vec<u8>, row_stride: usize) -> (r: Result<
        (),
        GpuError,
    >)
        requires
            old(self).wf(),
            id < old(self).resource_seq().len(),
            old(self).resource_seq()[id as int].usage.copy_dst,
        ensures
            final(self).wf(),
            final(self).preference_spec() == old(self).preference_spec(),
            final(self).resource_seq().len() == old(self).resource_seq().len(),
            forall|i: int|
                0 <= i < old(self).resource_seq().len() && i != id
                    ==> final(self).resource_seq()[i] == old(self).resource_seq()[i],
            ({
                let res = old(self).resource_seq()[id as int];
                let upd = final(self).resource_seq()[id as int];
                &&& upd.width == res.width
                &&& upd.height == res.height
                &&& upd.usage == res.usage
                &&& if pixel_bytes@.len() == res.height * row_stride && row_stride >= 4
                    * res.width {
                    &&& r == Ok::<(), GpuError>(())
                    &&& upd.contents() == packed_rows(
                        pixel_bytes@,
                        4 * res.width as int,
                        row_stride as int,
                        res.height as int,
                    )
                } else {
                    &&& r == Err::<(), GpuError>(GpuError::BufferLengthMismatch)
                    &&& upd == res
                }
            }),
    {
        let width: u32 = self.resources[id].width;
        let height: u32 = self.resources[id].height;
        let stride_wide: bool = (row_stride as u64) >= 4 * (width as u64);
        let len_right: bool = buffer_len_matches(pixel_bytes.len(), height, row_stride);
        if !(stride_wide && len_right) {
            return Err(GpuError::BufferLengthMismatch);
        }
        let stripped = strip_row_padding(pixel_bytes, width, height, row_stride);
        proof {
            assert((height as int) * (4 * width as int) == 4 * (width as int) * (height as int))
                by (nonlinear_arith);
        }
        self.resources[id].data = stripped;
        Ok(())
    }

    /// Copies the bytes of resource `id` back to host memory, tightly
    /// packed. The copy reflects what the host has placed in the resource:
    /// zeros after creation, the uploaded pixels after an upload. Bytes that
    /// a shader wrote on the real device reach the caller through the
    /// staging-buffer readback instead.
    pub fn read_back(&self, id: usize) -> (r: Vec<u8>)
        requires
            self.wf(),
            id < self.resource_seq().len(),
        ensures
            r@ == self.resource_seq()[id as int].contents(),
    {
        let res = &self.resources[id];
        let n: usize = res.data.len();
        let mut out: Vec<u8> = Vec::new();
        let mut j: usize = 0;
        while j < n
            invariant
                n == res.data@.len(),
                j <= n,
                out@.len() == j,
                forall|i: int| 0 <= i < j ==> out@[i] == res.data@[i],
            decreases n - j,
        {
            let b: u8 = res.data[j];
            out.push(b);
            j = j + 1;
        }
        proof {
            assert(out@ =~= res.data@);
        }
        out
    }
}

/// Whether `len` equals `height * stride`, without overflowing.
fn buffer_len_matches(len: usize, height: u32, stride: usize) -> (r: bool)
    ensures
        r <==> len == height * stride,
{
    if height == 0 || stride == 0 {
        proof {
            assert((height as int) * (stride as int) == 0) by (nonlinear_arith)
                requires
                    height as int == 0 || stride as int == 0,
            ;
        }
        return len == 0;
    }
    let q: usize = len / stride;
    let m: usize = len % stride;
    proof {
        lemma_fundamental_div_mod(len as int, stride as int);
        lemma_mod_bound(len as int, stride as int);
        assert((stride as int) * (height as int) == (height as int) * (stride as int))
            by (nonlinear_arith);
        if len == height * stride {
            lemma_fundamental_div_mod_converse(
                len as int,
                stride as int,
                height as int,
                0,
            );
        }
    }
    m == 0 && q == height as usize
}

/// Law: a resource filled by uploading a tightly packed host buffer (a row
/// stride of exactly four bytes per pixel times the width) holds that buffer
/// byte for byte, so reading it back immediately, with no dispatch in
/// between, returns data byte-identical to the original buffer.
pub proof fn lemma_upload_read_back_round_trip(res: ImageResource, bytes: Seq<u8>)
    requires
        res.width > 0,
        bytes.len() == res.height * (4 * res.width),
        res.contents() == packed_rows(bytes, 4 * res.width as int, 4 * res.width as int, res.height as int),
    ensures
        res.contents() == bytes,
{
    lemma_packed_rows_tight(bytes, 4 * res.width as int, res.height as int);
}

} // verus!
