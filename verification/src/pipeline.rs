//! Pipeline construction and bind-group validation.
//!
//! A pipeline pairs a shader module with fixed-function state. Its
//! binding shape — the kinds of resources the shader declares, in slot
//! order — is recorded at build time, and every bind group created
//! against the pipeline is checked against that shape, so a disagreement
//! surfaces as `IncompatibleBinding` at construction rather than at
//! submission.

use vstd::prelude::*;
use crate::backend;
use crate::device::DeviceContext;
use crate::error::Error;
use crate::format::PixelFormat;
use crate::resources::{GpuBuffer, GpuTexture};

verus! {

/// The kind of resource one binding slot expects.
#[derive(Clone, Copy, Debug, PartialEq, Eq, Structural)]
pub enum BindingKind {
    /// A uniform buffer, read by the shader.
    UniformBuffer,
    /// A texture view, read by the shader.
    SampledTexture,
    /// A storage texture view, written by the shader.
    StorageTextureWrite,
}

/// Which faces a render pipeline culls.
#[derive(Clone, Copy, Debug, PartialEq, Eq, Structural)]
pub enum CullMode {
    NoCulling,
    Back,
    Front,
}

/// The vertex-buffer layout a render pipeline expects.
#[derive(Clone, Copy, Debug, PartialEq, Eq, Structural)]
pub enum VertexLayoutKind {
    /// No vertex buffers; the shader derives positions itself.
    NoBuffers,
    /// One attribute of three 32-bit floats: a position.
    Pos3,
    /// Two attributes of three 32-bit floats: a position and a color.
    Pos3Color3,
}

impl VertexLayoutKind {
    /// The byte stride between consecutive vertices: twelve bytes per
    /// attribute of three 32-bit floats.
    pub open spec fn spec_stride(self) -> u64 {
        match self {
            VertexLayoutKind::NoBuffers => 0,
            VertexLayoutKind::Pos3 => 12,
            VertexLayoutKind::Pos3Color3 => 24,
        }
    }

    /// The byte stride between consecutive vertices.
    pub fn stride(self) -> (r: u64)
        ensures
            r == self.spec_stride(),
    {
        match self {
            VertexLayoutKind::NoBuffers => 0,
            VertexLayoutKind::Pos3 => 12,
            VertexLayoutKind::Pos3Color3 => 24,
        }
    }
}

/// The width of the indices in an index buffer.
#[derive(Clone, Copy, Debug, PartialEq, Eq, Structural)]
pub enum IndexKind {
    U16,
    U32,
}

impl IndexKind {
    /// The byte size of one index.
    pub open spec fn spec_byte_size(self) -> u64 {
        match self {
            IndexKind::U16 => 2,
            IndexKind::U32 => 4,
        }
    }

    /// The byte size of one index.
    pub fn byte_size(self) -> (r: u64)
        ensures
            r == self.spec_byte_size(),
    {
        match self {
            IndexKind::U16 => 2,
            IndexKind::U32 => 4,
        }
    }
}

/// Whether two binding shapes agree slot by slot.
pub fn shapes_match(a: &Vec<BindingKind>, b: &Vec<BindingKind>) -> (r: bool)
    ensures
        r <==> a@ == b@,
{
    if a.len() != b.len() {
        proof {
            assert(a@.len() != b@.len());
        }
        return false;
    }
    let mut i: usize = 0;
    while i < a.len()
        invariant
            0 <= i <= a@.len(),
            a@.len() == b@.len(),
            forall|j: int| 0 <= j < i ==> a@[j] == b@[j],
        decreases a@.len() - i,
    {
        if a[i] != b[i] {
            return false;
        }
        i = i + 1;
    }
    proof {
        assert(a@ =~= b@);
    }
    true
}

/// A built render pipeline: the device handle, the binding shape its
/// shader declares, and the fixed-function state the engine checks
/// against targets.
pub struct GpuRenderPipeline {
    pub handle: wgpu::RenderPipeline,
    pub bindings: Vec<BindingKind>,
    pub color_format: PixelFormat,
    pub vertex_layout: VertexLayoutKind,
    pub has_depth: bool,
}

/// A built compute pipeline: the device handle and the binding shape its
/// shader declares.
pub struct GpuComputePipeline {
    pub handle: wgpu::ComputePipeline,
    pub bindings: Vec<BindingKind>,
}

/// A bind group, stamped with the shape it was validated against.
pub struct GpuBindGroup {
    pub handle: wgpu::BindGroup,
    pub shape: Vec<BindingKind>,
}

/// Compiles one WGSL source text into a shader module on the context's
/// device, under a validation scope: a source the backend rejects is an
/// `IncompatibleBinding` instead of a fatal device error. The module is
/// an opaque compiled handle; nothing more is stated of it.
pub fn load_shader_module(ctx: &DeviceContext, source: &str) -> (r: Result<
    wgpu::ShaderModule,
    Error,
>)
    ensures
        r is Err ==> r == Result::<wgpu::ShaderModule, Error>::Err(Error::IncompatibleBinding),
{
    backend::push_validation_scope(&ctx.device);
    let module = backend::create_shader_module_raw(&ctx.device, source);
    if backend::pop_validation_scope(&ctx.device) {
        return Err(Error::IncompatibleBinding);
    }
    Ok(module)
}

/// Builds a render pipeline over `module` with the engine's fixed
/// defaults: triangle-list topology, counter-clockwise front face, fill
/// mode, replace blending; with depth testing that keeps the nearer
/// fragment when `with_depth` is set. A color format that cannot be
/// rendered to is an `IncompatibleBinding`, as is a module, entry point
/// or state the backend's validation rejects — the build runs under a
/// validation scope. `bindings` is recorded as the pipeline's binding
/// shape: it is the caller's statement of what the shader declares in
/// its first bind group, which the backend offers no way to inspect.
pub fn build_render_pipeline(
    ctx: &DeviceContext,
    module: &wgpu::ShaderModule,
    vs_entry: &str,
    fs_entry: &str,
    color_format: PixelFormat,
    vertex_layout: VertexLayoutKind,
    cull: CullMode,
    with_depth: bool,
    bindings: Vec<BindingKind>,
) -> (r: Result<GpuRenderPipeline, Error>)
    ensures
        !color_format.spec_supports_render_attachment() ==> r is Err,
        r is Err ==> r == Result::<GpuRenderPipeline, Error>::Err(Error::IncompatibleBinding),
        r matches Ok(p) ==> p.bindings == bindings && p.color_format == color_format
            && p.vertex_layout == vertex_layout && p.has_depth == with_depth
            && color_format.spec_supports_render_attachment(),
{
    if !color_format.supports_render_attachment() {
        return Err(Error::IncompatibleBinding);
    }
    let mut layouts: Vec<wgpu::VertexBufferLayout<'static>> = Vec::new();
    match vertex_layout {
        VertexLayoutKind::NoBuffers => {},
        VertexLayoutKind::Pos3 => {
            layouts.push(backend::vertex_layout_pos3());
        },
        VertexLayoutKind::Pos3Color3 => {
            layouts.push(backend::vertex_layout_pos3_color3());
        },
    }
    let cull_mode: Option<wgpu::Face> = match cull {
        CullMode::NoCulling => None,
        CullMode::Back => Some(backend::face_back()),
        CullMode::Front => Some(backend::face_front()),
    };
    let depth_stencil: Option<wgpu::DepthStencilState> = if with_depth {
        Some(backend::depth_keep_nearer_state())
    } else {
        None
    };
    backend::push_validation_scope(&ctx.device);
    let handle = backend::create_render_pipeline_raw(
        &ctx.device,
        module,
        vs_entry,
        fs_entry,
        backend::to_backend_format(color_format),
        &layouts,
        cull_mode,
        depth_stencil,
    );
    if backend::pop_validation_scope(&ctx.device) {
        return Err(Error::IncompatibleBinding);
    }
    Ok(
        GpuRenderPipeline {
            handle,
            bindings,
            color_format,
            vertex_layout,
            has_depth: with_depth,
        },
    )
}

/// Builds a compute pipeline over `module` and `entry_point` under a
/// validation scope: a module or entry point the backend rejects is an
/// `IncompatibleBinding` instead of a fatal device error. `bindings` is
/// recorded as the pipeline's binding shape: it is the caller's
/// statement of what the shader declares in its first bind group, which
/// the backend offers no way to inspect.
pub fn build_compute_pipeline(
    ctx: &DeviceContext,
    module: &wgpu::ShaderModule,
    entry_point: &str,
    bindings: Vec<BindingKind>,
) -> (r: Result<GpuComputePipeline, Error>)
    ensures
        r is Err ==> r == Result::<GpuComputePipeline, Error>::Err(Error::IncompatibleBinding),
        r matches Ok(p) ==> p.bindings == bindings,
{
    backend::push_validation_scope(&ctx.device);
    let handle = backend::create_compute_pipeline_raw(&ctx.device, module, entry_point);
    if backend::pop_validation_scope(&ctx.device) {
        return Err(Error::IncompatibleBinding);
    }
    Ok(GpuComputePipeline { handle, bindings })
}

/// The binding shape of a pipeline that reads one uniform buffer.
pub fn uniform_shape() -> (r: Vec<BindingKind>)
    ensures
        r@ == seq![BindingKind::UniformBuffer],
{
    let mut v: Vec<BindingKind> = Vec::new();
    v.push(BindingKind::UniformBuffer);
    proof {
        assert(v@ =~= seq![BindingKind::UniformBuffer]);
    }
    v
}

/// The binding shape of a kernel that reads one grid texture and writes
/// another.
pub fn grid_pair_shape() -> (r: Vec<BindingKind>)
    ensures
        r@ == seq![BindingKind::SampledTexture, BindingKind::StorageTextureWrite],
{
    let mut v: Vec<BindingKind> = Vec::new();
    v.push(BindingKind::SampledTexture);
    v.push(BindingKind::StorageTextureWrite);
    proof {
        assert(v@ =~= seq![BindingKind::SampledTexture, BindingKind::StorageTextureWrite]);
    }
    v
}

/// Creates the bind group that hands one whole uniform buffer to a
/// render pipeline's first group. The pipeline must expect exactly one
/// uniform-buffer slot and the buffer must carry the uniform usage;
/// anything else is an `IncompatibleBinding`, as is a binding the
/// shader's reflected layout rejects — creation runs under a validation
/// scope. The pipeline's shader must declare a first bind group at all:
/// that much is the caller's recorded claim, which reflection cannot
/// check.
pub fn create_uniform_bind_group(
    ctx: &DeviceContext,
    pipeline: &GpuRenderPipeline,
    buffer: &GpuBuffer,
) -> (r: Result<GpuBindGroup, Error>)
    ensures
        !(pipeline.bindings@ == seq![BindingKind::UniformBuffer] && buffer.desc.usage.uniform)
            ==> r is Err,
        r is Err ==> r == Result::<GpuBindGroup, Error>::Err(Error::IncompatibleBinding),
        r matches Ok(g) ==> g.shape@ == pipeline.bindings@,
{
    let expected = uniform_shape();
    if !shapes_match(&pipeline.bindings, &expected) || !buffer.desc.usage.uniform {
        return Err(Error::IncompatibleBinding);
    }
    let layout = backend::render_bind_group_layout(&pipeline.handle, 0);
    backend::push_validation_scope(&ctx.device);
    let handle = backend::create_bind_group_uniform_raw(&ctx.device, &layout, &buffer.handle);
    if backend::pop_validation_scope(&ctx.device) {
        return Err(Error::IncompatibleBinding);
    }
    Ok(GpuBindGroup { handle, shape: expected })
}

/// Creates the bind group that binds `read` as the kernel's input grid
/// and `written` as its output grid. The pipeline must expect a sampled
/// texture then a storage texture; `read` must carry the texture
/// binding, `written` the storage binding, and the two grids must have
/// the same dimensions and format. Anything else is an
/// `IncompatibleBinding`, as is a binding the shader's reflected layout
/// rejects — creation runs under a validation scope. The pipeline's
/// shader must declare a first bind group at all: that much is the
/// caller's recorded claim, which reflection cannot check.
pub fn create_grid_bind_group(
    ctx: &DeviceContext,
    pipeline: &GpuComputePipeline,
    read: &GpuTexture,
    written: &GpuTexture,
) -> (r: Result<GpuBindGroup, Error>)
    ensures
        !(pipeline.bindings@ == seq![
            BindingKind::SampledTexture,
            BindingKind::StorageTextureWrite,
        ] && read.desc.usage.texture_binding && written.desc.usage.storage_binding
            && read.desc.width == written.desc.width && read.desc.height == written.desc.height
            && read.desc.format == written.desc.format) ==> r is Err,
        r is Err ==> r == Result::<GpuBindGroup, Error>::Err(Error::IncompatibleBinding),
        r matches Ok(g) ==> g.shape@ == pipeline.bindings@,
{
    let expected = grid_pair_shape();
    if !shapes_match(&pipeline.bindings, &expected) || !read.desc.usage.texture_binding
        || !written.desc.usage.storage_binding || read.desc.width != written.desc.width
        || read.desc.height != written.desc.height || read.desc.format != written.desc.format {
        return Err(Error::IncompatibleBinding);
    }
    let layout = backend::compute_bind_group_layout(&pipeline.handle, 0);
    backend::push_validation_scope(&ctx.device);
    let handle = backend::create_bind_group_texture_pair_raw(
        &ctx.device,
        &layout,
        &read.view,
        &written.view,
    );
    if backend::pop_validation_scope(&ctx.device) {
        return Err(Error::IncompatibleBinding);
    }
    Ok(GpuBindGroup { handle, shape: expected })
}

} // verus!
