//! The high-level flows of the engine: render a frame and read it back,
//! and the double-buffered iterative compute driver.
//!
//! Each flow records one command sequence, submits it, drives the
//! readback protocol to completion, and returns the frame with its row
//! padding stripped. The iterative driver alternates its two grid slots
//! with the ping-pong controller, so each pass reads what the previous
//! one wrote.

use vstd::prelude::*;
use crate::backend;
use crate::desc::{padded_bytes_per_row, unpadded_bytes_per_row, TextureDesc, MAX_DIMENSION};
use crate::device::DeviceContext;
use crate::error::Error;
use crate::format::{PixelFormat, TextureUsage};
use crate::pingpong::{ObservePolicy, PingPong, Slot};
use crate::pipeline::{
    grid_pair_shape, GpuBindGroup, GpuComputePipeline, GpuRenderPipeline, IndexKind,
};
use crate::pixels::strip_row_padding;
use crate::protocol::MapState;
use crate::readback::StagingBuffer;
use crate::resources::{create_texture, GpuBuffer, GpuTexture};
use crate::sequence;

verus! {

/// The static compatibility of a clear-and-draw flow: the pipeline wants
/// no bindings or depth, the target is a renderable copy source of the
/// pipeline's format, and the staging buffer is unmapped and exactly the
/// target's derived staging size.
pub open spec fn spec_render_ready(
    pipeline: GpuRenderPipeline,
    target: GpuTexture,
    staging: StagingBuffer,
) -> bool {
    &&& pipeline.bindings@.len() == 0
    &&& !pipeline.has_depth
    &&& target.desc.usage.render_attachment
    &&& target.desc.usage.copy_src
    &&& target.desc.format == pipeline.color_format
    &&& target.desc.size_ok()
    &&& staging.spec_state() == MapState::Unmapped
    &&& staging.size == target.desc.spec_staging_size()
}

/// Reads one rendered frame back to the host: maps the staging buffer,
/// waits for the device to confirm, snapshots the bytes, releases the
/// mapping, and strips the row padding down to the texture's exact
/// rows.
fn read_back_frame(
    ctx: &DeviceContext,
    staging: &mut StagingBuffer,
    desc: &TextureDesc,
) -> (r: Result<Vec<u8>, Error>)
    requires
        old(staging).spec_state() == MapState::Unmapped,
        old(staging).size == desc.spec_staging_size(),
        desc.size_ok(),
        desc.format.spec_texel_size() == 4,
    ensures
        final(staging).spec_state() == MapState::Unmapped,
        final(staging).size == old(staging).size,
        final(staging).handle == old(staging).handle,
        r is Ok || r == Result::<Vec<u8>, Error>::Err(Error::DeviceLost),
        r matches Ok(frame) ==> frame@.len() == desc.spec_content_bytes(),
{
    proof {
        crate::desc::lemma_staging_size_wf(*desc);
    }
    let map_res = staging.request_map();
    proof {
        assert(map_res is Ok);
    }
    match staging.wait_mapped(ctx) {
        Ok(_) => {},
        Err(_) => {
            // The device was lost mid-map; the buffer is left unmapped.
            return Err(Error::DeviceLost);
        },
    }
    let bytes = match staging.read() {
        Ok(b) => b,
        Err(_) => {
            // The snapshot was the wrong length: the transfer failed.
            let rel = staging.release();
            proof {
                assert(rel is Ok);
            }
            return Err(Error::DeviceLost);
        },
    };
    let rel = staging.release();
    proof {
        assert(rel is Ok);
    }
    let padded: u32 = padded_bytes_per_row(desc);
    let unpadded: u32 = unpadded_bytes_per_row(desc);
    let rows: usize = desc.height as usize;
    proof {
        assert(bytes@.len() == padded as int * rows as int);
        assert(unpadded as int * rows as int <= 16 * MAX_DIMENSION * MAX_DIMENSION) by (
        nonlinear_arith)
            requires
                unpadded <= 16 * MAX_DIMENSION,
                rows <= MAX_DIMENSION,
                MAX_DIMENSION == 8192,
        ;
    }
    let frame = strip_row_padding(&bytes, padded as usize, unpadded as usize, rows);
    proof {
        assert(frame@.len() == desc.spec_content_bytes()) by (nonlinear_arith)
            requires
                frame@.len() == unpadded as int * rows as int,
                unpadded == desc.spec_unpadded_bytes_per_row(),
                rows == desc.height,
                desc.spec_content_bytes() == desc.spec_unpadded_bytes_per_row() * desc.height,
        ;
    }
    Ok(frame)
}

/// Renders one frame and reads it back: records a pass that clears the
/// target and draws `vertices` vertices without vertex buffers, copies
/// the target into the staging buffer, submits, and waits the readback
/// protocol through. When the flow is statically compatible, the only
/// possible failure is a lost device; the frame is the target's exact
/// bytes, row padding stripped.
pub fn render_to_frame(
    ctx: &DeviceContext,
    pipeline: &GpuRenderPipeline,
    target: &GpuTexture,
    staging: &mut StagingBuffer,
    clear: wgpu::Color,
    vertices: u32,
) -> (r: Result<Vec<u8>, Error>)
    requires
        target.desc.format.spec_texel_size() == 4,
    ensures
        final(staging).size == old(staging).size,
        final(staging).handle == old(staging).handle,
        r matches Ok(frame) ==> frame@.len() == target.desc.spec_content_bytes()
            && final(staging).spec_state() == MapState::Unmapped,
        spec_render_ready(*pipeline, *target, *old(staging)) ==> (r is Ok || r == Result::<
            Vec<u8>,
            Error,
        >::Err(Error::DeviceLost)) && final(staging).spec_state() == MapState::Unmapped,
        !spec_render_ready(*pipeline, *target, *old(staging)) ==> r is Err,
{
    let mut builder = sequence::begin(ctx);
    match builder.add_clear_draw(pipeline, target, clear, vertices) {
        Ok(_) => {},
        Err(e) => {
            return Err(e);
        },
    }
    match builder.add_copy_to_staging(target, staging) {
        Ok(_) => {},
        Err(e) => {
            return Err(e);
        },
    }
    sequence::submit(ctx, builder.finish());
    read_back_frame(ctx, staging, &target.desc)
}

/// Renders one frame from vertex and index buffers and reads it back:
/// as `render_to_frame`, with an indexed draw of `indices` indices.
pub fn render_indexed_to_frame(
    ctx: &DeviceContext,
    pipeline: &GpuRenderPipeline,
    target: &GpuTexture,
    staging: &mut StagingBuffer,
    clear: wgpu::Color,
    vertex_buffer: &GpuBuffer,
    index_buffer: &GpuBuffer,
    index_kind: IndexKind,
    indices: u32,
) -> (r: Result<Vec<u8>, Error>)
    requires
        target.desc.format.spec_texel_size() == 4,
    ensures
        final(staging).size == old(staging).size,
        final(staging).handle == old(staging).handle,
        r matches Ok(frame) ==> frame@.len() == target.desc.spec_content_bytes()
            && final(staging).spec_state() == MapState::Unmapped,
        spec_render_ready(*pipeline, *target, *old(staging)) && vertex_buffer.desc.usage.vertex
            && index_buffer.desc.usage.index && indices * index_kind.spec_byte_size()
            <= index_buffer.desc.size ==> (r is Ok || r == Result::<Vec<u8>, Error>::Err(
            Error::DeviceLost,
        )) && final(staging).spec_state() == MapState::Unmapped,
        !(spec_render_ready(*pipeline, *target, *old(staging))
            && vertex_buffer.desc.usage.vertex && index_buffer.desc.usage.index && indices
            * index_kind.spec_byte_size() <= index_buffer.desc.size) ==> r is Err,
{
    let mut builder = sequence::begin(ctx);
    match builder.add_clear_draw_indexed(
        pipeline,
        target,
        clear,
        vertex_buffer,
        index_buffer,
        index_kind,
        indices,
    ) {
        Ok(_) => {},
        Err(e) => {
            return Err(e);
        },
    }
    match builder.add_copy_to_staging(target, staging) {
        Ok(_) => {},
        Err(e) => {
            return Err(e);
        },
    }
    sequence::submit(ctx, builder.finish());
    read_back_frame(ctx, staging, &target.desc)
}

/// Initializes a buffer with `contents`, copies the whole buffer into a
/// staging buffer of the same size, submits, and reads the staging
/// bytes back. By the copy model this snapshot is exactly the initial
/// contents — `crate::pixels::lemma_full_copy_is_identity` — and a test
/// against a live device can hold the transfer to it. The contents must
/// be non-empty, within the device limit, and a whole number of
/// four-byte words; then the only possible failure is a lost device.
pub fn buffer_roundtrip(ctx: &DeviceContext, contents: &Vec<u8>) -> (r: Result<Vec<u8>, Error>)
    ensures
        r matches Ok(bytes) ==> bytes@.len() == contents@.len(),
        0 < contents@.len() <= crate::desc::MAX_BUFFER_SIZE && contents@.len() % 4 == 0 ==> (r
            is Ok || r == Result::<Vec<u8>, Error>::Err(Error::DeviceLost)),
{
    let usage = crate::format::BufferUsage {
        copy_src: true,
        copy_dst: false,
        map_read: false,
        vertex: false,
        index: false,
        uniform: false,
    };
    let len: u64 = contents.len() as u64;
    let buffer = match crate::resources::create_buffer_with_contents(
        ctx,
        len,
        1,
        usage,
        contents,
    ) {
        Ok(b) => b,
        Err(e) => {
            proof {
                assert(contents@.len() * 1 == contents@.len()) by (nonlinear_arith);
            }
            return Err(e);
        },
    };
    proof {
        assert(contents@.len() * 1 == contents@.len()) by (nonlinear_arith);
    }
    let mut staging = match StagingBuffer::with_size(ctx, buffer.desc.size) {
        Ok(s) => s,
        Err(e) => {
            // The contents are not a whole number of four-byte words.
            return Err(e);
        },
    };
    let mut builder = sequence::begin(ctx);
    match builder.add_copy_buffer_to_staging(&buffer, &staging) {
        Ok(_) => {},
        Err(e) => {
            return Err(e);
        },
    }
    sequence::submit(ctx, builder.finish());
    let map_res = staging.request_map();
    proof {
        assert(map_res is Ok);
    }
    match staging.wait_mapped(ctx) {
        Ok(_) => {},
        Err(_) => {
            // The device was lost mid-map; the buffer is left unmapped.
            return Err(Error::DeviceLost);
        },
    }
    let bytes = match staging.read() {
        Ok(b) => b,
        Err(_) => {
            let rel = staging.release();
            proof {
                assert(rel is Ok);
            }
            return Err(Error::DeviceLost);
        },
    };
    let rel = staging.release();
    proof {
        assert(rel is Ok);
    }
    Ok(bytes)
}

/// The descriptor of one grid slot of the iterative driver.
pub open spec fn spec_grid_desc(width: u32, height: u32) -> TextureDesc {
    TextureDesc {
        width,
        height,
        format: PixelFormat::R32Uint,
        usage: TextureUsage::spec_compute_grid(),
    }
}

/// The double-buffered iterative compute driver: two grid slots, the
/// bind group for each role assignment precomputed, one staging buffer
/// for observation, and the ping-pong controller that alternates the
/// roles.
pub struct LifeEngine {
    pub slot_a: GpuTexture,
    pub slot_b: GpuTexture,
    pub reads_a: GpuBindGroup,
    pub reads_b: GpuBindGroup,
    pub staging: StagingBuffer,
    pub pipeline: GpuComputePipeline,
    pub controller: PingPong,
    pub observe: ObservePolicy,
    pub width: u32,
    pub height: u32,
}

impl LifeEngine {
    /// Between steps the driver is consistent: both slots are grids of
    /// the same validated descriptor, each bind group matches the
    /// pipeline's shape, the staging buffer is unmapped and sized for
    /// one grid, and the controller's role follows its law.
    pub open spec fn wf(self) -> bool {
        &&& self.slot_a.desc == spec_grid_desc(self.width, self.height)
        &&& self.slot_b.desc == spec_grid_desc(self.width, self.height)
        &&& self.slot_a.desc.valid()
        &&& self.pipeline.bindings@ == seq![
            crate::pipeline::BindingKind::SampledTexture,
            crate::pipeline::BindingKind::StorageTextureWrite,
        ]
        &&& self.reads_a.shape@ == self.pipeline.bindings@
        &&& self.reads_b.shape@ == self.pipeline.bindings@
        &&& self.staging.wf()
        &&& self.staging.spec_state() == MapState::Unmapped
        &&& self.staging.size == self.slot_a.desc.spec_staging_size()
        &&& self.controller.wf()
    }

    /// Builds the driver: two grid textures, the compute pipeline over
    /// `module` and `entry_point`, one bind group per role assignment,
    /// and a staging buffer for observation. Slot A is the seed: the
    /// first iteration reads it. Dimensions of zero or over the device
    /// limit are a `SizeMismatch`.
    pub fn create(
        ctx: &DeviceContext,
        module: &wgpu::ShaderModule,
        entry_point: &str,
        width: u32,
        height: u32,
        observe: ObservePolicy,
    ) -> (r: Result<LifeEngine, Error>)
        ensures
            !(0 < width <= MAX_DIMENSION && 0 < height <= MAX_DIMENSION) ==> r == Result::<
                LifeEngine,
                Error,
            >::Err(Error::SizeMismatch),
            r is Err ==> r == Result::<LifeEngine, Error>::Err(Error::SizeMismatch) || r
                == Result::<LifeEngine, Error>::Err(Error::IncompatibleBinding),
            r matches Ok(e) ==> e.wf() && e.width == width && e.height == height
                && e.controller.spec_iterations() == 0 && e.controller.spec_input() == Slot::A
                && e.observe == observe,
    {
        let desc = TextureDesc {
            width,
            height,
            format: PixelFormat::R32Uint,
            usage: TextureUsage::compute_grid(),
        };
        if width == 0 || width > MAX_DIMENSION || height == 0 || height > MAX_DIMENSION {
            return Err(Error::SizeMismatch);
        }
        proof {
            assert(desc.valid());
        }
        let slot_a = match create_texture(ctx, desc) {
            Ok(t) => t,
            Err(_) => {
                proof {
                    assert(false);
                }
                return Err(Error::SizeMismatch);
            },
        };
        let slot_b = match create_texture(ctx, desc) {
            Ok(t) => t,
            Err(_) => {
                proof {
                    assert(false);
                }
                return Err(Error::SizeMismatch);
            },
        };
        let pipeline = match crate::pipeline::build_compute_pipeline(
            ctx,
            module,
            entry_point,
            grid_pair_shape(),
        ) {
            Ok(p) => p,
            Err(e) => {
                // The backend rejected the module or entry point.
                return Err(e);
            },
        };
        let reads_a = match crate::pipeline::create_grid_bind_group(
            ctx,
            &pipeline,
            &slot_a,
            &slot_b,
        ) {
            Ok(g) => g,
            Err(e) => {
                // The shader's reflected layout rejected the binding.
                return Err(e);
            },
        };
        let reads_b = match crate::pipeline::create_grid_bind_group(
            ctx,
            &pipeline,
            &slot_b,
            &slot_a,
        ) {
            Ok(g) => g,
            Err(e) => {
                return Err(e);
            },
        };
        let staging = match StagingBuffer::for_texture(ctx, &desc) {
            Ok(s) => s,
            Err(_) => {
                proof {
                    assert(false);
                }
                return Err(Error::SizeMismatch);
            },
        };
        Ok(
            LifeEngine {
                slot_a,
                slot_b,
                reads_a,
                reads_b,
                staging,
                pipeline,
                controller: PingPong::new(),
                observe,
                width,
                height,
            },
        )
    }

    /// Uploads a whole grid of 32-bit texels into the slot the next
    /// iteration reads. The byte length must be exactly four bytes per
    /// cell; anything else is a `SizeMismatch` and nothing is uploaded.
    pub fn upload_input_grid(&self, ctx: &DeviceContext, data: &Vec<u8>) -> (r: Result<(), Error>)
        requires
            self.wf(),
        ensures
            r is Ok <==> data@.len() == 4 * self.width * self.height,
            r is Err ==> r == Result::<(), Error>::Err(Error::SizeMismatch),
    {
        proof {
            assert(4 * (self.width as int) * (self.height as int) == (4 * self.width as int) * (
            self.height as int)) by (nonlinear_arith);
            assert(4 * (self.width as int) * (self.height as int) <= 4 * 8192 * 8192) by (
            nonlinear_arith)
                requires
                    self.width <= 8192,
                    self.height <= 8192,
            ;
        }
        let row_bytes: u64 = 4 * (self.width as u64);
        let expected: u64 = row_bytes * (self.height as u64);
        if (data.len() as u64) != expected {
            return Err(Error::SizeMismatch);
        }
        let target = match self.controller.input_slot() {
            Slot::A => &self.slot_a,
            Slot::B => &self.slot_b,
        };
        backend::write_texture_raw(
            &ctx.queue,
            &target.handle,
            data,
            4 * self.width,
            self.height,
            self.width,
            self.height,
        );
        Ok(())
    }

    /// Runs one iteration: dispatches the kernel reading the current
    /// input slot and writing the output slot, copies the observed slot
    /// into the staging buffer, submits, reads the observation back, and
    /// flips the roles. The frame is the observed grid's exact bytes,
    /// four per cell, row padding stripped. The only possible failure is
    /// a lost device, after which the roles are left unflipped.
    pub fn step(&mut self, ctx: &DeviceContext) -> (r: Result<Vec<u8>, Error>)
        requires
            old(self).wf(),
            old(self).controller.spec_iterations() < u64::MAX,
        ensures
            final(self).wf(),
            final(self).width == old(self).width,
            final(self).height == old(self).height,
            final(self).observe == old(self).observe,
            r matches Ok(frame) ==> frame@.len() == 4 * old(self).width * old(self).height,
            r is Ok ==> final(self).controller.spec_iterations()
                == old(self).controller.spec_iterations() + 1,
            r is Ok ==> final(self).controller.spec_input()
                == old(self).controller.spec_input().spec_other(),
            r is Err ==> r == Result::<Vec<u8>, Error>::Err(Error::DeviceLost),
            r is Err ==> final(self).controller == old(self).controller,
    {
        let mut builder = sequence::begin(ctx);
        let bind_group = match self.controller.input_slot() {
            Slot::A => &self.reads_a,
            Slot::B => &self.reads_b,
        };
        let compute_res = builder.add_compute_pass(
            &self.pipeline,
            bind_group,
            self.width,
            self.height,
        );
        proof {
            assert(compute_res is Ok);
        }
        let observed_slot = self.controller.observed_slot(self.observe);
        let observed = match observed_slot {
            Slot::A => &self.slot_a,
            Slot::B => &self.slot_b,
        };
        let copy_res = builder.add_copy_to_staging(observed, &self.staging);
        proof {
            assert(copy_res is Ok);
        }
        sequence::submit(ctx, builder.finish());
        let desc = TextureDesc {
            width: self.width,
            height: self.height,
            format: PixelFormat::R32Uint,
            usage: TextureUsage::compute_grid(),
        };
        let frame = match read_back_frame(ctx, &mut self.staging, &desc) {
            Ok(f) => f,
            Err(_) => {
                return Err(Error::DeviceLost);
            },
        };
        self.controller.step();
        proof {
            let w = old(self).width as int;
            let h = old(self).height as int;
            assert(frame@.len() == 4 * w * h) by (nonlinear_arith)
                requires
                    frame@.len() == (4 * w) * h,
            ;
        }
        Ok(frame)
    }
}

/// Draws the random seed state of a grid: for every byte position, one
/// draw of the generator decides, and only the first byte of each
/// four-byte texel can be live, so every texel holds zero or one. This
/// mirrors the upload layout of `upload_input_grid`.
pub fn random_seed_bytes(width: u32, height: u32, rng: &mut rand::rngs::ThreadRng) -> (r: Vec<u8>)
    requires
        0 < width <= MAX_DIMENSION,
        0 < height <= MAX_DIMENSION,
    ensures
        r@.len() == 4 * width * height,
        forall|j: int| 0 <= j < r@.len() ==> (r@[j] == 0 || r@[j] == 1),
        forall|j: int| 0 <= j < r@.len() && j % 4 != 0 ==> r@[j] == 0,
{
    proof {
        assert((width as int) * (height as int) <= 8192 * 8192) by (nonlinear_arith)
            requires
                width <= 8192,
                height <= 8192,
        ;
    }
    let texels: usize = (width as usize) * (height as usize);
    let total: usize = 4 * texels;
    let mut out: Vec<u8> = Vec::new();
    let mut j: usize = 0;
    while j < total
        invariant
            0 <= j <= total,
            out@.len() == j,
            forall|k: int| 0 <= k < j ==> (out@[k] == 0 || out@[k] == 1),
            forall|k: int| 0 <= k < j && k % 4 != 0 ==> out@[k] == 0,
        decreases total - j,
    {
        let sample = backend::random_byte(rng);
        if sample > 200 && j % 4 == 0 {
            out.push(1);
        } else {
            out.push(0);
        }
        j = j + 1;
    }
    proof {
        assert(4 * ((width as int) * height) == 4 * (width as int) * height) by (nonlinear_arith);
    }
    out
}

} // verus!
