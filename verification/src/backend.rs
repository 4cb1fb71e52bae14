//! Trusted bindings to the device backend.
//!
//! Everything in this module is a declaration of an outside type or a
//! thin wrapper around one outside call. The wrappers convert between the
//! engine's plain values and the backend's descriptor structs and do
//! nothing else; all sizing, validation and protocol logic around them is
//! verified elsewhere in the crate.

use vstd::prelude::*;
use wgpu::util::DeviceExt;
use rand::Rng;

verus! {

#[verifier::external_type_specification]
#[verifier::external_body]
pub struct ExInstance(wgpu::Instance);

#[verifier::external_type_specification]
#[verifier::external_body]
pub struct ExAdapter(wgpu::Adapter);

#[verifier::external_type_specification]
#[verifier::external_body]
pub struct ExDevice(wgpu::Device);

#[verifier::external_type_specification]
#[verifier::external_body]
pub struct ExQueue(wgpu::Queue);

#[verifier::external_type_specification]
#[verifier::external_body]
pub struct ExTexture(wgpu::Texture);

#[verifier::external_type_specification]
#[verifier::external_body]
pub struct ExTextureView(wgpu::TextureView);

#[verifier::external_type_specification]
#[verifier::external_body]
pub struct ExBuffer(wgpu::Buffer);

#[verifier::external_type_specification]
#[verifier::external_body]
pub struct ExShaderModule(wgpu::ShaderModule);

#[verifier::external_type_specification]
#[verifier::external_body]
pub struct ExRenderPipeline(wgpu::RenderPipeline);

#[verifier::external_type_specification]
#[verifier::external_body]
pub struct ExComputePipeline(wgpu::ComputePipeline);

#[verifier::external_type_specification]
#[verifier::external_body]
pub struct ExBindGroup(wgpu::BindGroup);

#[verifier::external_type_specification]
#[verifier::external_body]
pub struct ExBindGroupLayout(wgpu::BindGroupLayout);

#[verifier::external_type_specification]
#[verifier::external_body]
pub struct ExCommandEncoder(wgpu::CommandEncoder);

#[verifier::external_type_specification]
#[verifier::external_body]
pub struct ExCommandBuffer(wgpu::CommandBuffer);

#[verifier::external_type_specification]
#[verifier::external_body]
pub struct ExWgpuTextureFormat(wgpu::TextureFormat);

#[verifier::external_type_specification]
#[verifier::external_body]
pub struct ExFace(wgpu::Face);

#[verifier::external_type_specification]
#[verifier::external_body]
pub struct ExIndexFormat(wgpu::IndexFormat);

#[verifier::external_type_specification]
#[verifier::external_body]
pub struct ExColor(wgpu::Color);

#[verifier::external_type_specification]
#[verifier::external_body]
pub struct ExDepthStencilState(wgpu::DepthStencilState);

#[verifier::external_type_specification]
#[verifier::external_body]
pub struct ExVertexBufferLayout<'a>(wgpu::VertexBufferLayout<'a>);

#[verifier::external_type_specification]
#[verifier::external_body]
pub struct ExThreadRng(rand::rngs::ThreadRng);

#[verifier::external_type_specification]
#[verifier::external_body]
#[verifier::reject_recursive_types(T)]
pub struct ExOneshotReceiver<T>(oneshot::Receiver<T>);

#[verifier::external_type_specification]
#[verifier::external_body]
pub struct ExOneshotRecvError(oneshot::RecvError);

/// Relies on wgpu::Instance::new: the context for the backend, probing
/// every available driver.
#[verifier::external_body]
pub(crate) fn new_instance() -> wgpu::Instance {
    wgpu::Instance::new(wgpu::InstanceDescriptor { backends: wgpu::Backends::all(), ..Default::default() })
}

/// Relies on wgpu::Instance::request_adapter, driven to completion by
/// pollster::block_on: a handle to a physical device under the default
/// power preference, or `None` when no adapter is compatible.
#[verifier::external_body]
pub(crate) fn request_adapter(instance: &wgpu::Instance) -> Option<wgpu::Adapter> {
    pollster::block_on(instance.request_adapter(&wgpu::RequestAdapterOptions {
        power_preference: wgpu::PowerPreference::default(),
        compatible_surface: None,
        force_fallback_adapter: false,
    }))
}

/// Relies on wgpu::Adapter::request_device, driven to completion by
/// pollster::block_on: a logical device and its queue under the default
/// feature and limit set, or `None` when the negotiation fails.
#[verifier::external_body]
pub(crate) fn request_device(adapter: &wgpu::Adapter) -> Option<(wgpu::Device, wgpu::Queue)> {
    pollster::block_on(adapter.request_device(&Default::default(), None)).ok()
}

/// Relies on wgpu::Device::poll with Maintain::Wait: blocks until the
/// queue is empty, by when the device has run every pending map callback.
#[verifier::external_body]
pub(crate) fn device_poll_wait(device: &wgpu::Device) {
    let _ = device.poll(wgpu::Maintain::Wait);
}

/// Relies on wgpu::Queue::submit: schedules one finished command buffer
/// for execution in submission order. The device rejects a submission
/// whose copy destination is still host-visible; the sequence layer
/// makes that unreachable by borrowing every staging destination from
/// recording until submission.
#[verifier::external_body]
pub(crate) fn queue_submit_one(queue: &wgpu::Queue, commands: wgpu::CommandBuffer) {
    queue.submit(Some(commands));
}

/// Relies on the bit encoding of wgpu::TextureUsages, read back by
/// from_bits_truncate: each documented flag bit of `usage_bits` is set on
/// the created texture's usage.
#[verifier::external_body]
pub(crate) fn create_texture_raw(
    device: &wgpu::Device,
    width: u32,
    height: u32,
    format: wgpu::TextureFormat,
    usage_bits: u32,
) -> wgpu::Texture
    requires
        0 < width <= 8192,
        0 < height <= 8192,
        usage_bits != 0,
{
    device.create_texture(&wgpu::TextureDescriptor {
        label: None,
        size: wgpu::Extent3d { width, height, depth_or_array_layers: 1 },
        mip_level_count: 1,
        sample_count: 1,
        dimension: wgpu::TextureDimension::D2,
        format,
        usage: wgpu::TextureUsages::from_bits_truncate(usage_bits),
        view_formats: &[],
    })
}

/// Relies on wgpu::Device::create_buffer and the documented bit encoding
/// of wgpu::BufferUsages.
#[verifier::external_body]
pub(crate) fn create_buffer_raw(
    device: &wgpu::Device,
    size: u64,
    usage_bits: u32,
    mapped_at_creation: bool,
) -> wgpu::Buffer
    requires
        0 < size <= 268435456,
        usage_bits != 0,
{
    device.create_buffer(&wgpu::BufferDescriptor {
        label: None,
        size,
        usage: wgpu::BufferUsages::from_bits_truncate(usage_bits),
        mapped_at_creation,
    })
}

/// Relies on wgpu::util::DeviceExt::create_buffer_init: a buffer holding
/// `contents` at its start, of that byte length rounded up to the next
/// whole four-byte word (the padding, if any, is zero).
#[verifier::external_body]
pub(crate) fn create_buffer_init_raw(
    device: &wgpu::Device,
    contents: &Vec<u8>,
    usage_bits: u32,
) -> wgpu::Buffer
    requires
        0 < contents@.len() <= 268435456,
        usage_bits != 0,
{
    device.create_buffer_init(&wgpu::util::BufferInitDescriptor {
        label: None,
        contents: contents.as_slice(),
        usage: wgpu::BufferUsages::from_bits_truncate(usage_bits),
    })
}

/// Relies on wgpu::Texture::create_view with the default descriptor: a
/// view of the whole texture.
#[verifier::external_body]
pub(crate) fn create_view_raw(texture: &wgpu::Texture) -> wgpu::TextureView {
    texture.create_view(&Default::default())
}

/// Relies on wgpu::Device::create_shader_module: compiles one WGSL
/// source text into a module. A source the backend rejects raises a
/// validation error on the device; the caller must have a validation
/// scope open to receive it, as `load_shader_module` does.
#[verifier::external_body]
pub(crate) fn create_shader_module_raw(device: &wgpu::Device, source: &str) -> wgpu::ShaderModule {
    device.create_shader_module(wgpu::ShaderModuleDescriptor {
        label: None,
        source: wgpu::ShaderSource::Wgsl(source.into()),
    })
}

/// Relies on wgpu::Queue::write_texture: uploads `data` row by row into
/// the origin-anchored `width` by `height` region of the texture, which
/// must be a copy destination of four-byte texels with at least those
/// dimensions — the engine uploads only into grids it created from a
/// validated descriptor of exactly this shape.
#[verifier::external_body]
pub(crate) fn write_texture_raw(
    queue: &wgpu::Queue,
    texture: &wgpu::Texture,
    data: &Vec<u8>,
    bytes_per_row: u32,
    rows_per_image: u32,
    width: u32,
    height: u32,
)
    requires
        0 < width,
        0 < height,
        bytes_per_row >= 4 * width,
        rows_per_image == height,
        data@.len() == bytes_per_row * rows_per_image,
{
    let origin = wgpu::Origin3d::ZERO;
    let aspect = wgpu::TextureAspect::All;
    queue.write_texture(
        wgpu::ImageCopyTexture { texture, mip_level: 0, origin, aspect },
        data.as_slice(),
        wgpu::ImageDataLayout {
            offset: 0,
            bytes_per_row: Some(bytes_per_row),
            rows_per_image: Some(rows_per_image),
        },
        wgpu::Extent3d { width, height, depth_or_array_layers: 1 },
    );
}

/// Converts the engine's texture format to the backend's.
#[verifier::external_body]
pub(crate) fn to_backend_format(format: crate::format::PixelFormat) -> wgpu::TextureFormat {
    match format {
        crate::format::PixelFormat::Rgba8Unorm => wgpu::TextureFormat::Rgba8Unorm,
        crate::format::PixelFormat::Depth32Float => wgpu::TextureFormat::Depth32Float,
        crate::format::PixelFormat::R32Uint => wgpu::TextureFormat::R32Uint,
    }
}

/// Relies on wgpu::Device::create_compute_pipeline with an automatically
/// derived layout, as the backend reflects it from the shader. A module
/// or entry point the backend rejects raises a validation error; the
/// caller must have a validation scope open to receive it, as
/// `build_compute_pipeline` does.
#[verifier::external_body]
pub(crate) fn create_compute_pipeline_raw(
    device: &wgpu::Device,
    module: &wgpu::ShaderModule,
    entry_point: &str,
) -> wgpu::ComputePipeline {
    device.create_compute_pipeline(&wgpu::ComputePipelineDescriptor {
        label: None,
        layout: None,
        module,
        entry_point,
    })
}

/// Relies on wgpu::Device::create_render_pipeline with an automatically
/// derived layout: triangle-list topology, counter-clockwise front face,
/// fill mode, replace blending, single-sample. A module, entry point or
/// state the backend rejects raises a validation error; the caller must
/// have a validation scope open to receive it, as
/// `build_render_pipeline` does.
#[verifier::external_body]
pub(crate) fn create_render_pipeline_raw(
    device: &wgpu::Device,
    module: &wgpu::ShaderModule,
    vs_entry: &str,
    fs_entry: &str,
    color_format: wgpu::TextureFormat,
    vertex_layouts: &Vec<wgpu::VertexBufferLayout<'static>>,
    cull_mode: Option<wgpu::Face>,
    depth_stencil: Option<wgpu::DepthStencilState>,
) -> wgpu::RenderPipeline {
    let blend = Some(wgpu::BlendState::REPLACE);
    let target = wgpu::ColorTargetState { format: color_format, blend, write_mask: wgpu::ColorWrites::ALL };
    device.create_render_pipeline(&wgpu::RenderPipelineDescriptor {
        label: None,
        layout: None,
        vertex: wgpu::VertexState { module, entry_point: vs_entry, buffers: vertex_layouts.as_slice() },
        fragment: Some(wgpu::FragmentState { module, entry_point: fs_entry, targets: &[Some(target)] }),
        primitive: wgpu::PrimitiveState { cull_mode, ..Default::default() },
        depth_stencil,
        multisample: wgpu::MultisampleState::default(),
        multiview: None,
    })
}

/// Relies on wgpu's VertexBufferLayout: one attribute of three 32-bit
/// floats at shader location zero, so the stride is twelve bytes.
#[verifier::external_body]
pub(crate) fn vertex_layout_pos3() -> wgpu::VertexBufferLayout<'static> {
    wgpu::VertexBufferLayout {
        array_stride: 12,
        step_mode: wgpu::VertexStepMode::Vertex,
        attributes: &[wgpu::VertexAttribute {
            offset: 0,
            shader_location: 0,
            format: wgpu::VertexFormat::Float32x3,
        }],
    }
}

/// Relies on wgpu's VertexBufferLayout: a position and a color attribute
/// of three 32-bit floats each, at shader locations zero and one, so the
/// color offset and the stride are twelve and twenty-four bytes.
#[verifier::external_body]
pub(crate) fn vertex_layout_pos3_color3() -> wgpu::VertexBufferLayout<'static> {
    wgpu::VertexBufferLayout {
        array_stride: 24,
        step_mode: wgpu::VertexStepMode::Vertex,
        attributes: &[
            wgpu::VertexAttribute { offset: 0, shader_location: 0, format: wgpu::VertexFormat::Float32x3 },
            wgpu::VertexAttribute { offset: 12, shader_location: 1, format: wgpu::VertexFormat::Float32x3 },
        ],
    }
}

/// Relies on wgpu's DepthStencilState: depth testing that keeps the
/// nearer fragment and writes the resolved depth back to the target.
#[verifier::external_body]
pub(crate) fn depth_keep_nearer_state() -> wgpu::DepthStencilState {
    wgpu::DepthStencilState {
        format: wgpu::TextureFormat::Depth32Float,
        depth_write_enabled: true,
        depth_compare: wgpu::CompareFunction::Less,
        stencil: wgpu::StencilState::default(),
        bias: wgpu::DepthBiasState::default(),
    }
}

/// The backend's back-face culling mode.
#[verifier::external_body]
pub(crate) fn face_back() -> wgpu::Face {
    wgpu::Face::Back
}

/// The backend's front-face culling mode.
#[verifier::external_body]
pub(crate) fn face_front() -> wgpu::Face {
    wgpu::Face::Front
}

/// The backend's 16-bit index format.
#[verifier::external_body]
pub(crate) fn index_format_u16() -> wgpu::IndexFormat {
    wgpu::IndexFormat::Uint16
}

/// The backend's 32-bit index format.
#[verifier::external_body]
pub(crate) fn index_format_u32() -> wgpu::IndexFormat {
    wgpu::IndexFormat::Uint32
}

/// Relies on wgpu::RenderPipeline::get_bind_group_layout: the reflected
/// layout of one bind group slot of the pipeline. The pipeline's shader
/// must declare a bind group at `index`: reflection of a missing group
/// is a hard panic in the backend that no error scope receives, so the
/// recorded binding shape is the caller's obligation to match the
/// shader (the backend offers no way to inspect it).
#[verifier::external_body]
pub(crate) fn render_bind_group_layout(
    pipeline: &wgpu::RenderPipeline,
    index: u32,
) -> wgpu::BindGroupLayout {
    pipeline.get_bind_group_layout(index)
}

/// Relies on wgpu::ComputePipeline::get_bind_group_layout: the reflected
/// layout of one bind group slot of the pipeline. As for the render
/// form, the shader must declare a bind group at `index`; a missing
/// group is a hard panic that no error scope receives.
#[verifier::external_body]
pub(crate) fn compute_bind_group_layout(
    pipeline: &wgpu::ComputePipeline,
    index: u32,
) -> wgpu::BindGroupLayout {
    pipeline.get_bind_group_layout(index)
}

/// Relies on wgpu::Device::create_bind_group: binds one uniform buffer,
/// whole, at binding slot zero. A binding the layout rejects raises a
/// validation error; the caller must have a validation scope open to
/// receive it, as `create_uniform_bind_group` does.
#[verifier::external_body]
pub(crate) fn create_bind_group_uniform_raw(
    device: &wgpu::Device,
    layout: &wgpu::BindGroupLayout,
    buffer: &wgpu::Buffer,
) -> wgpu::BindGroup {
    let binding = wgpu::BufferBinding { buffer, offset: 0, size: None };
    device.create_bind_group(&wgpu::BindGroupDescriptor {
        label: None,
        layout,
        entries: &[wgpu::BindGroupEntry {
            binding: 0,
            resource: wgpu::BindingResource::Buffer(binding),
        }],
    })
}

/// Relies on wgpu::Device::create_bind_group: binds `read` at binding
/// slot zero and `written` at binding slot one. A binding the layout
/// rejects raises a validation error; the caller must have a validation
/// scope open to receive it, as `create_grid_bind_group` does.
#[verifier::external_body]
pub(crate) fn create_bind_group_texture_pair_raw(
    device: &wgpu::Device,
    layout: &wgpu::BindGroupLayout,
    read: &wgpu::TextureView,
    written: &wgpu::TextureView,
) -> wgpu::BindGroup {
    let r = wgpu::BindGroupEntry { binding: 0, resource: wgpu::BindingResource::TextureView(read) };
    let w = wgpu::BindGroupEntry { binding: 1, resource: wgpu::BindingResource::TextureView(written) };
    device.create_bind_group(&wgpu::BindGroupDescriptor { label: None, layout, entries: &[r, w] })
}

/// Relies on wgpu::Device::create_command_encoder with the default
/// descriptor.
#[verifier::external_body]
pub(crate) fn create_command_encoder_raw(device: &wgpu::Device) -> wgpu::CommandEncoder {
    device.create_command_encoder(&Default::default())
}

/// Relies on wgpu::CommandEncoder::finish: seals the recording into a
/// single-use command buffer. Invalid recorded commands surface here,
/// so the encoder must only ever have received the recordings below,
/// each under the checks its verified caller makes.
#[verifier::external_body]
pub(crate) fn finish_encoder_raw(encoder: wgpu::CommandEncoder) -> wgpu::CommandBuffer {
    encoder.finish()
}

/// Relies on wgpu::CommandEncoder::begin_render_pass and RenderPass:
/// records one pass that clears `target` to `clear` and draws `vertices`
/// vertices of the pipeline without vertex buffers. The view must be a
/// renderable attachment of the pipeline's color format; the sequencer
/// establishes this from the descriptor model before calling.
#[verifier::external_body]
pub(crate) fn record_clear_draw_raw(
    encoder: &mut wgpu::CommandEncoder,
    pipeline: &wgpu::RenderPipeline,
    target: &wgpu::TextureView,
    clear: wgpu::Color,
    vertices: u32,
) {
    let ops = wgpu::Operations { load: wgpu::LoadOp::Clear(clear), store: wgpu::StoreOp::Store };
    let attachment = wgpu::RenderPassColorAttachment { view: target, resolve_target: None, ops };
    let mut pass = encoder.begin_render_pass(&wgpu::RenderPassDescriptor {
        label: None,
        color_attachments: &[Some(attachment)],
        ..Default::default()
    });
    pass.set_pipeline(pipeline);
    pass.draw(0..vertices, 0..1);
}

/// Relies on wgpu::CommandEncoder::begin_render_pass and RenderPass:
/// records one pass that clears `target` to `clear` and draws `indices`
/// indices of the pipeline from the given vertex and index buffers. The
/// view must be a renderable attachment of the pipeline's color format,
/// the buffers must carry the vertex and index usages, and the drawn
/// indices must fit in the index buffer; the sequencer establishes all
/// of this from the descriptor model before calling.
#[verifier::external_body]
pub(crate) fn record_clear_draw_indexed_raw(
    encoder: &mut wgpu::CommandEncoder,
    pipeline: &wgpu::RenderPipeline,
    target: &wgpu::TextureView,
    clear: wgpu::Color,
    vertex_buffer: &wgpu::Buffer,
    index_buffer: &wgpu::Buffer,
    index_format: wgpu::IndexFormat,
    indices: u32,
) {
    let ops = wgpu::Operations { load: wgpu::LoadOp::Clear(clear), store: wgpu::StoreOp::Store };
    let attachment = wgpu::RenderPassColorAttachment { view: target, resolve_target: None, ops };
    let mut pass = encoder.begin_render_pass(&wgpu::RenderPassDescriptor {
        label: None,
        color_attachments: &[Some(attachment)],
        ..Default::default()
    });
    pass.set_pipeline(pipeline);
    pass.set_vertex_buffer(0, vertex_buffer.slice(..));
    pass.set_index_buffer(index_buffer.slice(..), index_format);
    pass.draw_indexed(0..indices, 0, 0..1);
}

/// Relies on wgpu::CommandEncoder::begin_compute_pass and ComputePass:
/// records one pass of the pipeline with one bind group, dispatched over
/// an `x` by `y` by `z` grid of workgroups.
#[verifier::external_body]
pub(crate) fn record_compute_pass_raw(
    encoder: &mut wgpu::CommandEncoder,
    pipeline: &wgpu::ComputePipeline,
    bind_group: &wgpu::BindGroup,
    x: u32,
    y: u32,
    z: u32,
)
    requires
        x <= 65535,
        y <= 65535,
        z <= 65535,
{
    let desc = wgpu::ComputePassDescriptor { label: None, timestamp_writes: None };
    let mut pass = encoder.begin_compute_pass(&desc);
    pass.set_pipeline(pipeline);
    pass.set_bind_group(0, bind_group, &[]);
    pass.dispatch_workgroups(x, y, z);
}

/// Relies on wgpu::CommandEncoder::copy_texture_to_buffer: records a copy
/// of the whole `width` by `height` texture into the buffer, laid out
/// with the given row stride. The texture must be a copy source of
/// four-byte texels with exactly those dimensions and the buffer a copy
/// destination of at least one stride per row; the sequencer
/// establishes both from the descriptor model before calling.
#[verifier::external_body]
pub(crate) fn record_copy_texture_to_buffer_raw(
    encoder: &mut wgpu::CommandEncoder,
    texture: &wgpu::Texture,
    buffer: &wgpu::Buffer,
    bytes_per_row: u32,
    rows_per_image: u32,
    width: u32,
    height: u32,
)
    requires
        0 < width <= 8192,
        0 < height <= 8192,
        bytes_per_row % 256 == 0,
        bytes_per_row >= 4 * width,
        rows_per_image == height,
{
    let origin = wgpu::Origin3d::ZERO;
    let aspect = wgpu::TextureAspect::All;
    let layout = wgpu::ImageDataLayout {
        offset: 0,
        bytes_per_row: Some(bytes_per_row),
        rows_per_image: Some(rows_per_image),
    };
    encoder.copy_texture_to_buffer(
        wgpu::ImageCopyTexture { texture, mip_level: 0, origin, aspect },
        wgpu::ImageCopyBuffer { buffer, layout },
        wgpu::Extent3d { width, height, depth_or_array_layers: 1 },
    );
}

/// Relies on wgpu::CommandEncoder::copy_buffer_to_buffer: records a
/// copy of `size` bytes from the start of `src` to the start of `dst`.
/// Both buffers must hold at least `size` bytes and carry the copy
/// source and destination usages; the sequencer establishes this from
/// the descriptor model before calling.
#[verifier::external_body]
pub(crate) fn record_copy_buffer_to_buffer_raw(
    encoder: &mut wgpu::CommandEncoder,
    src: &wgpu::Buffer,
    dst: &wgpu::Buffer,
    size: u64,
)
    requires
        size % 4 == 0,
{
    encoder.copy_buffer_to_buffer(src, 0, dst, 0, size);
}

/// Relies on wgpu::BufferSlice::map_async in read mode over the whole
/// buffer: registers the map request and returns immediately, handing
/// back the receiving end of a channel that the completion callback
/// answers with whether the mapping was committed. The buffer must be
/// host readable, a whole number of four-byte words, and neither mapped
/// nor awaiting a map — a second request is a hard panic — all of which
/// the synchronizer guarantees from its unmapped state.
#[verifier::external_body]
pub(crate) fn request_map_raw(buffer: &wgpu::Buffer) -> oneshot::Receiver<bool> {
    let (tx, rx) = oneshot::channel();
    buffer.slice(..).map_async(wgpu::MapMode::Read, move |outcome| {
        let _ = tx.send(outcome.is_ok());
    });
    rx
}

/// Relies on oneshot::Receiver::recv: the completion callback's answer —
/// whether the mapping was committed. A closed channel means the
/// callback was dropped unanswered, which is treated as a failed map.
#[verifier::external_body]
pub(crate) fn recv_map_result(receiver: oneshot::Receiver<bool>) -> bool {
    receiver.recv().unwrap_or(false)
}

/// Relies on wgpu::BufferSlice::get_mapped_range over the whole buffer:
/// a snapshot of the mapped bytes. The mapping must be committed —
/// reading an unmapped buffer is a hard panic — which the synchronizer
/// guarantees by reaching its mapped state only through a confirmed map
/// request. A committed whole-buffer mapping spans exactly the buffer's
/// size.
#[verifier::external_body]
pub(crate) fn read_mapped_bytes(buffer: &wgpu::Buffer) -> Vec<u8> {
    let view = buffer.slice(..).get_mapped_range();
    view.to_vec()
}

/// Relies on wgpu::Buffer::unmap: flushes pending writes and makes the
/// buffer available to the device again. The mapping must be committed,
/// which the synchronizer guarantees as for `read_mapped_bytes`.
#[verifier::external_body]
pub(crate) fn unmap_buffer(buffer: &wgpu::Buffer) {
    buffer.unmap();
}

/// Relies on wgpu::Device::push_error_scope: opens a scope that catches
/// the device's validation errors in place of the fatal default
/// handler, until the matching pop.
#[verifier::external_body]
pub(crate) fn push_validation_scope(device: &wgpu::Device) {
    device.push_error_scope(wgpu::ErrorFilter::Validation);
}

/// Relies on wgpu::Device::pop_error_scope, driven to completion by
/// pollster::block_on: whether the innermost scope caught a validation
/// error. A scope must be open.
#[verifier::external_body]
pub(crate) fn pop_validation_scope(device: &wgpu::Device) -> bool {
    pollster::block_on(device.pop_error_scope()).is_some()
}

/// Relies on rand::Rng::gen: one byte of the generator's output; nothing
/// is promised of its value.
#[verifier::external_body]
pub(crate) fn random_byte(rng: &mut rand::rngs::ThreadRng) -> u8 {
    rng.gen()
}

} // verus!
