//! End-to-end scenarios against a live device.
//!
//! Device acquisition enumerates real adapters, so these tests first try
//! to acquire one. Where the host has no compatible adapter, acquisition
//! must fail with exactly `NoCompatibleDevice` and the scenarios are
//! vacuous; where one exists, the scenarios run in full.

use gpu_submission::device::{acquire, DeviceContext};
use gpu_submission::engine::{buffer_roundtrip, render_indexed_to_frame, LifeEngine};
use gpu_submission::error::Error;
use gpu_submission::format::{BufferUsage, PixelFormat, TextureUsage};
use gpu_submission::desc::TextureDesc;
use gpu_submission::pingpong::{ObservePolicy, Slot};
use gpu_submission::pipeline::{
    build_render_pipeline, load_shader_module, CullMode, IndexKind, VertexLayoutKind,
};
use gpu_submission::pixels::{decode_u32_texels, pixel_at};
use gpu_submission::readback::StagingBuffer;
use gpu_submission::resources::{create_buffer_with_contents, create_texture};

const TRIANGLE_SHADER: &str = "
struct VertexInput {
    @location(0) position: vec3<f32>,
    @location(1) color: vec3<f32>,
};
struct VertexOutput {
    @builtin(position) clip_position: vec4<f32>,
    @location(0) color: vec3<f32>,
};
@vertex
fn vertex_main(in: VertexInput) -> VertexOutput {
    var out: VertexOutput;
    out.clip_position = vec4<f32>(in.position, 1.0);
    out.color = in.color;
    return out;
}
@fragment
fn fragment_main(in: VertexOutput) -> @location(0) vec4<f32> {
    return vec4<f32>(in.color, 1.0);
}
";

const LIFE_SHADER: &str = "
@group(0) @binding(0) var input_grid: texture_2d<u32>;
@group(0) @binding(1) var output_grid: texture_storage_2d<r32uint, write>;

fn cell(x: i32, y: i32, dims: vec2<i32>) -> u32 {
    let xx = (x + dims.x) % dims.x;
    let yy = (y + dims.y) % dims.y;
    return min(textureLoad(input_grid, vec2<i32>(xx, yy), 0).r, 1u);
}

@compute @workgroup_size(16, 16)
fn step(@builtin(global_invocation_id) gid: vec3<u32>) {
    let dims = vec2<i32>(textureDimensions(input_grid));
    let x = i32(gid.x);
    let y = i32(gid.y);
    if (x >= dims.x || y >= dims.y) {
        return;
    }
    var n: u32 = 0u;
    n = n + cell(x - 1, y - 1, dims) + cell(x, y - 1, dims) + cell(x + 1, y - 1, dims);
    n = n + cell(x - 1, y, dims) + cell(x + 1, y, dims);
    n = n + cell(x - 1, y + 1, dims) + cell(x, y + 1, dims) + cell(x + 1, y + 1, dims);
    let alive = cell(x, y, dims) > 0u;
    var next: u32 = 0u;
    if (n == 3u || (alive && n == 2u)) {
        next = 1u;
    }
    textureStore(output_grid, vec2<i32>(x, y), vec4<u32>(next, 0u, 0u, 0u));
}
";

fn triangle_vertex_bytes() -> Vec<u8> {
    // Three vertices of position then color, three 32-bit floats each.
    let floats: [f32; 18] = [
        0.0, 0.5, 0.0, 1.0, 0.0, 0.0, //
        -0.5, -0.5, 0.0, 0.0, 1.0, 0.0, //
        0.5, -0.5, 0.0, 0.0, 0.0, 1.0,
    ];
    let mut bytes = Vec::new();
    for f in floats {
        bytes.extend_from_slice(&f.to_le_bytes());
    }
    bytes
}

fn index_bytes() -> Vec<u8> {
    let indices: [u16; 3] = [0, 1, 2];
    let mut bytes = Vec::new();
    for i in indices {
        bytes.extend_from_slice(&i.to_le_bytes());
    }
    bytes
}

fn close(a: u8, b: u8) -> bool {
    a.abs_diff(b) <= 1
}

fn scenario_buffer_roundtrip(ctx: &DeviceContext) {
    let contents: Vec<u8> = (0u16..256).map(|v| v as u8).collect();
    let bytes = buffer_roundtrip(ctx, &contents).unwrap();
    assert_eq!(bytes, contents);
}

fn scenario_triangle(ctx: &DeviceContext) {
    let module = load_shader_module(ctx, TRIANGLE_SHADER).unwrap();
    let pipeline = build_render_pipeline(
        ctx,
        &module,
        "vertex_main",
        "fragment_main",
        PixelFormat::Rgba8Unorm,
        VertexLayoutKind::Pos3Color3,
        CullMode::Back,
        false,
        Vec::new(),
    )
    .unwrap();
    let desc = TextureDesc {
        width: 256,
        height: 256,
        format: PixelFormat::Rgba8Unorm,
        usage: TextureUsage::render_target(),
    };
    let target = create_texture(ctx, desc).unwrap();
    let mut staging = StagingBuffer::for_texture(ctx, &desc).unwrap();
    let vertices = triangle_vertex_bytes();
    let vertex_buffer =
        create_buffer_with_contents(ctx, 3, 24, BufferUsage::vertex(), &vertices).unwrap();
    let indices = index_bytes();
    let index_buffer =
        create_buffer_with_contents(ctx, 3, 2, BufferUsage::index(), &indices).unwrap();
    let clear = wgpu::Color { r: 0.1, g: 0.2, b: 0.3, a: 1.0 };
    let frame = render_indexed_to_frame(
        ctx,
        &pipeline,
        &target,
        &mut staging,
        clear,
        &vertex_buffer,
        &index_buffer,
        IndexKind::U16,
        3,
    )
    .unwrap();
    assert_eq!(frame.len(), 4 * 256 * 256);
    // The corners lie outside the triangle: they hold the clear color.
    let expected = (26u8, 51u8, 77u8, 255u8);
    for (x, y) in [(0, 0), (255, 0), (0, 255), (255, 255)] {
        let (r, g, b, a) = pixel_at(&frame, 256, 256, x, y);
        assert!(close(r, expected.0), "corner red {r}");
        assert!(close(g, expected.1), "corner green {g}");
        assert!(close(b, expected.2), "corner blue {b}");
        assert_eq!(a, expected.3);
    }
    // The center lies inside the triangle: it is not the background.
    let center = pixel_at(&frame, 256, 256, 128, 128);
    assert!(
        !(close(center.0, expected.0) && close(center.1, expected.1) && close(center.2, expected.2)),
        "center pixel {center:?} still holds the clear color"
    );
}

fn scenario_all_dead_grid(ctx: &DeviceContext) {
    let module = load_shader_module(ctx, LIFE_SHADER).unwrap();
    let mut engine =
        LifeEngine::create(ctx, &module, "step", 64, 64, ObservePolicy::CurrentState).unwrap();
    let zeros = vec![0u8; 4 * 64 * 64];
    engine.upload_input_grid(ctx, &zeros).unwrap();
    let frame = engine.step(ctx).unwrap();
    let texels = decode_u32_texels(&frame).unwrap();
    assert_eq!(texels.len(), 64 * 64);
    assert!(texels.iter().all(|&t| t == 0), "an all-dead grid must stay all-dead");
}

fn scenario_two_iterations(ctx: &DeviceContext) {
    let module = load_shader_module(ctx, LIFE_SHADER).unwrap();
    let mut engine =
        LifeEngine::create(ctx, &module, "step", 64, 64, ObservePolicy::PreviousState).unwrap();
    let zeros = vec![0u8; 4 * 64 * 64];
    engine.upload_input_grid(ctx, &zeros).unwrap();
    engine.step(ctx).unwrap();
    // The second iteration writes slot A again.
    assert_eq!(engine.controller.output_slot(), Slot::A);
    engine.step(ctx).unwrap();
    assert_eq!(engine.controller.input_slot(), Slot::A);
    assert_eq!(engine.controller.iterations(), 2);
}

#[test]
fn acquisition_fails_cleanly_or_scenarios_pass() {
    match acquire() {
        Err(e) => {
            // Without a compatible adapter the failure is exactly this.
            assert_eq!(e, Error::NoCompatibleDevice);
        }
        Ok(ctx) => {
            scenario_buffer_roundtrip(&ctx);
            scenario_triangle(&ctx);
            scenario_all_dead_grid(&ctx);
            scenario_two_iterations(&ctx);
        }
    }
}
