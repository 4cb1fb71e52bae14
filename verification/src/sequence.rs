//! The command sequencer: records passes in order and submits them
//! atomically.
//!
//! A builder accumulates render passes, compute passes and copies into
//! one encoder; the ghost view of the builder is the exact sequence of
//! recorded passes, in program order. Finishing seals the recording into
//! a single-use sequence — ownership makes resubmission impossible — and
//! submission hands it to the queue, where sequences execute in
//! submission order.
//!
//! The builder borrows every staging buffer it records a copy into, and
//! the sealed sequence keeps those borrows until submission consumes it.
//! A staging buffer therefore cannot be mapped between the moment it is
//! assigned as a copy destination and the moment the sequence is
//! submitted: the exclusion spans recording to submission, not just the
//! recording call.

use vstd::prelude::*;
use crate::backend;
use crate::desc::ROW_ALIGNMENT;
use crate::device::DeviceContext;
use crate::dispatch::{spec_cover_count, workgroup_counts, WORKGROUP_DIM};
use crate::error::Error;
use crate::pipeline::{GpuBindGroup, GpuComputePipeline, GpuRenderPipeline, IndexKind};
use crate::protocol::{spec_allows, MapOp};
use crate::readback::{MapSlot, StagingBuffer};
use crate::resources::{GpuBuffer, GpuTexture};

verus! {

/// One recorded pass, as the ghost view of a sequence remembers it.
#[derive(Clone, Copy, Debug, PartialEq, Eq, Structural)]
pub enum PassRecord {
    /// A render pass that clears its target and draws `vertices`
    /// vertices without vertex buffers.
    ClearDraw { vertices: u32 },
    /// A render pass that clears its target and draws `indices` indices
    /// from a vertex and an index buffer.
    ClearDrawIndexed { indices: u32 },
    /// A compute pass dispatched over a workgroup grid.
    Compute { x: u32, y: u32, z: u32 },
    /// A copy of a whole texture into a staging buffer, row-aligned.
    CopyToStaging { bytes_per_row: u32, rows: u32 },
    /// A copy of a whole buffer into a staging buffer.
    CopyBufferToStaging { bytes: u64 },
}

/// Records passes in program order into one command sequence, borrowing
/// each staging destination until the sequence is submitted.
pub struct SequenceBuilder<'a> {
    pub encoder: wgpu::CommandEncoder,
    pub passes: Ghost<Seq<PassRecord>>,
    pub destinations: Vec<&'a StagingBuffer>,
}

/// A sealed, single-use command sequence. Submission consumes it, so it
/// can never be submitted twice or mutated after sealing, and only then
/// does it release the borrows of its staging destinations.
pub struct CommandSequence<'a> {
    pub commands: wgpu::CommandBuffer,
    pub passes: Ghost<Seq<PassRecord>>,
    pub destinations: Vec<&'a StagingBuffer>,
}

/// Opens a fresh, empty sequence.
pub fn begin<'a>(ctx: &DeviceContext) -> (r: SequenceBuilder<'a>)
    ensures
        r.passes@ == Seq::<PassRecord>::empty(),
{
    SequenceBuilder {
        encoder: backend::create_command_encoder_raw(&ctx.device),
        passes: Ghost(Seq::empty()),
        destinations: Vec::new(),
    }
}

impl<'a> SequenceBuilder<'a> {
    /// Records a render pass that clears `target` to `clear` and draws
    /// `vertices` vertices without vertex buffers. The pipeline must
    /// expect no bindings, and `target` must be a renderable texture of
    /// the pipeline's color format; otherwise nothing is recorded and
    /// the mismatch is an `IncompatibleBinding`.
    pub fn add_clear_draw(
        &mut self,
        pipeline: &GpuRenderPipeline,
        target: &GpuTexture,
        clear: wgpu::Color,
        vertices: u32,
    ) -> (r: Result<(), Error>)
        ensures
            r is Ok <==> pipeline.bindings@.len() == 0 && !pipeline.has_depth
                && target.desc.usage.render_attachment && target.desc.format
                == pipeline.color_format,
            r is Err ==> r == Result::<(), Error>::Err(Error::IncompatibleBinding)
                && final(self).passes@ == old(self).passes@,
            r is Ok ==> final(self).passes@ == old(self).passes@.push(
                PassRecord::ClearDraw { vertices },
            ),
    {
        if pipeline.bindings.len() != 0 || pipeline.has_depth
            || !target.desc.usage.render_attachment || target.desc.format
            != pipeline.color_format {
            return Err(Error::IncompatibleBinding);
        }
        backend::record_clear_draw_raw(
            &mut self.encoder,
            &pipeline.handle,
            &target.view,
            clear,
            vertices,
        );
        proof {
            self.passes@ = self.passes@.push(PassRecord::ClearDraw { vertices });
        }
        Ok(())
    }

    /// Records a render pass that clears `target` to `clear` and draws
    /// `indices` indices from `vertex_buffer` and `index_buffer`. The
    /// pipeline must expect no bindings; the buffers must carry the
    /// vertex and index usages — otherwise the mismatch is an
    /// `IncompatibleBinding` — and the indices drawn must fit in the
    /// index buffer, else the overrun is a `SizeMismatch`.
    pub fn add_clear_draw_indexed(
        &mut self,
        pipeline: &GpuRenderPipeline,
        target: &GpuTexture,
        clear: wgpu::Color,
        vertex_buffer: &GpuBuffer,
        index_buffer: &GpuBuffer,
        index_kind: IndexKind,
        indices: u32,
    ) -> (r: Result<(), Error>)
        ensures
            r is Ok <==> pipeline.bindings@.len() == 0 && !pipeline.has_depth
                && target.desc.usage.render_attachment && target.desc.format
                == pipeline.color_format && vertex_buffer.desc.usage.vertex
                && index_buffer.desc.usage.index && indices * index_kind.spec_byte_size()
                <= index_buffer.desc.size,
            r is Err ==> final(self).passes@ == old(self).passes@,
            r is Ok ==> final(self).passes@ == old(self).passes@.push(
                PassRecord::ClearDrawIndexed { indices },
            ),
            !(pipeline.bindings@.len() == 0 && !pipeline.has_depth
                && target.desc.usage.render_attachment && target.desc.format
                == pipeline.color_format && vertex_buffer.desc.usage.vertex
                && index_buffer.desc.usage.index) ==> r == Result::<(), Error>::Err(
                Error::IncompatibleBinding,
            ),
            (pipeline.bindings@.len() == 0 && !pipeline.has_depth
                && target.desc.usage.render_attachment && target.desc.format
                == pipeline.color_format && vertex_buffer.desc.usage.vertex
                && index_buffer.desc.usage.index && indices * index_kind.spec_byte_size()
                > index_buffer.desc.size) ==> r == Result::<(), Error>::Err(Error::SizeMismatch),
    {
        if pipeline.bindings.len() != 0 || pipeline.has_depth
            || !target.desc.usage.render_attachment || target.desc.format
            != pipeline.color_format || !vertex_buffer.desc.usage.vertex
            || !index_buffer.desc.usage.index {
            return Err(Error::IncompatibleBinding);
        }
        let index_bytes: u64 = (indices as u64) * index_kind.byte_size();
        proof {
            assert((indices as int) * index_kind.spec_byte_size() <= u32::MAX as int * 4) by (
            nonlinear_arith)
                requires
                    indices <= u32::MAX,
                    index_kind.spec_byte_size() <= 4,
                    indices >= 0,
                    index_kind.spec_byte_size() >= 0,
            ;
        }
        if index_bytes > index_buffer.desc.size {
            return Err(Error::SizeMismatch);
        }
        let fmt = match index_kind {
            IndexKind::U16 => backend::index_format_u16(),
            IndexKind::U32 => backend::index_format_u32(),
        };
        backend::record_clear_draw_indexed_raw(
            &mut self.encoder,
            &pipeline.handle,
            &target.view,
            clear,
            &vertex_buffer.handle,
            &index_buffer.handle,
            fmt,
            indices,
        );
        proof {
            self.passes@ = self.passes@.push(PassRecord::ClearDrawIndexed { indices });
        }
        Ok(())
    }

    /// Records a compute pass of `pipeline` with `bind_group`, dispatched
    /// over the least workgroup grid that covers a `width` by `height`
    /// domain with the engine's fixed workgroup footprint. A bind group
    /// whose shape disagrees with the pipeline's is an
    /// `IncompatibleBinding`; a domain side beyond what the device can
    /// launch in one dispatch is a `SizeMismatch`. Either way nothing is
    /// recorded.
    pub fn add_compute_pass(
        &mut self,
        pipeline: &GpuComputePipeline,
        bind_group: &GpuBindGroup,
        width: u32,
        height: u32,
    ) -> (r: Result<(), Error>)
        ensures
            r is Ok <==> bind_group.shape@ == pipeline.bindings@ && width
                <= crate::dispatch::MAX_DISPATCH_DOMAIN && height
                <= crate::dispatch::MAX_DISPATCH_DOMAIN,
            bind_group.shape@ != pipeline.bindings@ ==> r == Result::<(), Error>::Err(
                Error::IncompatibleBinding,
            ),
            bind_group.shape@ == pipeline.bindings@ && !(width
                <= crate::dispatch::MAX_DISPATCH_DOMAIN && height
                <= crate::dispatch::MAX_DISPATCH_DOMAIN) ==> r == Result::<(), Error>::Err(
                Error::SizeMismatch,
            ),
            r is Err ==> final(self).passes@ == old(self).passes@,
            r is Ok ==> final(self).passes@ == old(self).passes@.push(
                PassRecord::Compute {
                    x: spec_cover_count(width as int, WORKGROUP_DIM as int) as u32,
                    y: spec_cover_count(height as int, WORKGROUP_DIM as int) as u32,
                    z: 1,
                },
            ),
    {
        if !crate::pipeline::shapes_match(&bind_group.shape, &pipeline.bindings) {
            return Err(Error::IncompatibleBinding);
        }
        if width > crate::dispatch::MAX_DISPATCH_DOMAIN || height
            > crate::dispatch::MAX_DISPATCH_DOMAIN {
            return Err(Error::SizeMismatch);
        }
        let counts = workgroup_counts(width, height);
        backend::record_compute_pass_raw(
            &mut self.encoder,
            &pipeline.handle,
            &bind_group.handle,
            counts.0,
            counts.1,
            counts.2,
        );
        proof {
            self.passes@ = self.passes@.push(
                PassRecord::Compute { x: counts.0, y: counts.1, z: 1 },
            );
        }
        Ok(())
    }

    /// Records a copy of the whole of `src` into `dst`, one aligned row
    /// stride per texture row. The texture must be a copy source, else
    /// the mismatch is an `IncompatibleBinding`; the staging buffer must
    /// be exactly the derived staging size, else the mismatch is a
    /// `SizeMismatch`; and it must be unmapped — assigning a
    /// host-visible buffer as a copy destination is the protocol
    /// violation `BufferBusy`. The builder borrows `dst` until
    /// submission, so it stays unmapped for the whole window the device
    /// requires.
    pub fn add_copy_to_staging(
        &mut self,
        src: &GpuTexture,
        dst: &'a StagingBuffer,
    ) -> (r: Result<(), Error>)
        requires
            src.desc.format.spec_texel_size() == 4,
        ensures
            r is Ok <==> spec_allows(dst.spec_state(), MapOp::AssignCopyDest) && src.desc.usage.copy_src
                && src.desc.size_ok() && dst.size == src.desc.spec_staging_size(),
            !spec_allows(dst.spec_state(), MapOp::AssignCopyDest) ==> r == Result::<(), Error>::Err(
                Error::BufferBusy,
            ),
            spec_allows(dst.spec_state(), MapOp::AssignCopyDest) && !(src.desc.usage.copy_src
                && src.desc.size_ok()) ==> r == Result::<(), Error>::Err(
                Error::IncompatibleBinding,
            ),
            spec_allows(dst.spec_state(), MapOp::AssignCopyDest) && src.desc.usage.copy_src
                && src.desc.size_ok() && dst.size != src.desc.spec_staging_size() ==> r
                == Result::<(), Error>::Err(Error::SizeMismatch),
            r is Err ==> final(self).passes@ == old(self).passes@,
            r is Ok ==> final(self).passes@ == old(self).passes@.push(
                PassRecord::CopyToStaging {
                    bytes_per_row: src.desc.spec_padded_bytes_per_row() as u32,
                    rows: src.desc.height,
                },
            ),
    {
        match &dst.slot {
            MapSlot::Unmapped => {},
            _ => {
                return Err(Error::BufferBusy);
            },
        }
        if !src.desc.usage.copy_src || src.desc.width == 0 || src.desc.width
            > crate::desc::MAX_DIMENSION || src.desc.height == 0 || src.desc.height
            > crate::desc::MAX_DIMENSION {
            return Err(Error::IncompatibleBinding);
        }
        let row: u32 = crate::desc::padded_bytes_per_row(&src.desc);
        proof {
            assert(row as int * src.desc.height as int == src.desc.spec_staging_size());
            assert(row as int * src.desc.height as int <= 33024 * 8192) by (nonlinear_arith)
                requires
                    row <= 33024,
                    src.desc.height <= 8192,
            ;
        }
        let expected: u64 = (row as u64) * (src.desc.height as u64);
        if dst.size != expected {
            return Err(Error::SizeMismatch);
        }
        backend::record_copy_texture_to_buffer_raw(
            &mut self.encoder,
            &src.handle,
            &dst.handle,
            row,
            src.desc.height,
            src.desc.width,
            src.desc.height,
        );
        self.destinations.push(dst);
        proof {
            self.passes@ = self.passes@.push(
                PassRecord::CopyToStaging { bytes_per_row: row, rows: src.desc.height },
            );
        }
        Ok(())
    }

    /// Records a copy of the whole of `src` into `dst`. The staging
    /// buffer must be unmapped — assigning a host-visible buffer as a
    /// copy destination is the protocol violation `BufferBusy` — and the
    /// builder borrows it until submission, so it stays unmapped for the
    /// whole window the device requires. The source must carry the
    /// copy-source usage, else an `IncompatibleBinding`; and the sizes
    /// must agree exactly and be a whole number of four-byte words, as
    /// the device requires of buffer copies, else a `SizeMismatch`.
    pub fn add_copy_buffer_to_staging(
        &mut self,
        src: &GpuBuffer,
        dst: &'a StagingBuffer,
    ) -> (r: Result<(), Error>)
        ensures
            r is Ok <==> spec_allows(dst.spec_state(), MapOp::AssignCopyDest) && src.desc.usage.copy_src
                && dst.size == src.desc.size && src.desc.size % 4 == 0,
            !spec_allows(dst.spec_state(), MapOp::AssignCopyDest) ==> r == Result::<(), Error>::Err(
                Error::BufferBusy,
            ),
            spec_allows(dst.spec_state(), MapOp::AssignCopyDest) && !src.desc.usage.copy_src ==> r
                == Result::<(), Error>::Err(Error::IncompatibleBinding),
            spec_allows(dst.spec_state(), MapOp::AssignCopyDest) && src.desc.usage.copy_src && !(dst.size
                == src.desc.size && src.desc.size % 4 == 0) ==> r == Result::<(), Error>::Err(
                Error::SizeMismatch,
            ),
            r is Err ==> final(self).passes@ == old(self).passes@,
            r is Ok ==> final(self).passes@ == old(self).passes@.push(
                PassRecord::CopyBufferToStaging { bytes: src.desc.size },
            ),
    {
        match &dst.slot {
            MapSlot::Unmapped => {},
            _ => {
                return Err(Error::BufferBusy);
            },
        }
        if !src.desc.usage.copy_src {
            return Err(Error::IncompatibleBinding);
        }
        if dst.size != src.desc.size || src.desc.size % 4 != 0 {
            return Err(Error::SizeMismatch);
        }
        backend::record_copy_buffer_to_buffer_raw(
            &mut self.encoder,
            &src.handle,
            &dst.handle,
            src.desc.size,
        );
        self.destinations.push(dst);
        proof {
            self.passes@ = self.passes@.push(
                PassRecord::CopyBufferToStaging { bytes: src.desc.size },
            );
        }
        Ok(())
    }

    /// Seals the recording. The sequence keeps the recorded passes, in
    /// order, holds on to the borrows of its staging destinations, and
    /// can be submitted exactly once.
    pub fn finish(self) -> (r: CommandSequence<'a>)
        ensures
            r.passes@ == self.passes@,
    {
        CommandSequence {
            commands: backend::finish_encoder_raw(self.encoder),
            passes: self.passes,
            destinations: self.destinations,
        }
    }
}

/// Submits one sealed sequence to the queue. Submission is
/// fire-and-forget: sequences begin executing in submission order, and
/// completion is observed only through the readback synchronizer.
/// Consuming the sequence here releases the borrows of its staging
/// destinations, so only now may they be mapped — every destination was
/// unmapped when its copy was recorded and could not change since.
pub fn submit(ctx: &DeviceContext, sequence: CommandSequence<'_>) {
    backend::queue_submit_one(&ctx.queue, sequence.commands);
}

} // verus!
