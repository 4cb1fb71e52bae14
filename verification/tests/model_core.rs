//! Tests of the engine's host-side model: descriptor validation, staging
//! derivation, dispatch sizing, and the pixel and grid conversions.

use gpu_submission::desc::{
    pad_to_row_alignment, padded_bytes_per_row, staging_buffer_desc, unpadded_bytes_per_row,
    BufferDesc, TextureDesc, MAX_BUFFER_SIZE,
};
use gpu_submission::dispatch::{workgroup_counts, MAX_DISPATCH_DIMENSION, MAX_DISPATCH_DOMAIN};
use gpu_submission::error::Error;
use gpu_submission::format::{BufferUsage, PixelFormat, TextureUsage};
use gpu_submission::life::step_grid;
use gpu_submission::pixels::{
    copy_region, decode_u32_texels, pixel_at, solid_frame, strip_row_padding, threshold_palette,
    u32_from_le,
};

fn render_target_desc(width: u32, height: u32) -> TextureDesc {
    TextureDesc {
        width,
        height,
        format: PixelFormat::Rgba8Unorm,
        usage: TextureUsage::render_target(),
    }
}

#[test]
fn valid_render_target_descriptor_passes() {
    let desc = render_target_desc(256, 256);
    assert_eq!(desc.validate(), Ok(()));
}

#[test]
fn zero_width_descriptor_is_size_mismatch() {
    let desc = render_target_desc(0, 256);
    assert_eq!(desc.validate(), Err(Error::SizeMismatch));
}

#[test]
fn oversized_descriptor_is_size_mismatch() {
    let desc = render_target_desc(8193, 256);
    assert_eq!(desc.validate(), Err(Error::SizeMismatch));
}

#[test]
fn storage_without_read_binding_is_incompatible() {
    let desc = TextureDesc {
        width: 64,
        height: 64,
        format: PixelFormat::R32Uint,
        usage: TextureUsage {
            render_attachment: false,
            copy_src: true,
            copy_dst: true,
            storage_binding: true,
            texture_binding: false,
        },
    };
    assert_eq!(desc.validate(), Err(Error::IncompatibleBinding));
}

#[test]
fn storage_on_color_format_is_incompatible() {
    let desc = TextureDesc {
        width: 64,
        height: 64,
        format: PixelFormat::Rgba8Unorm,
        usage: TextureUsage::compute_grid(),
    };
    assert_eq!(desc.validate(), Err(Error::IncompatibleBinding));
}

#[test]
fn render_attachment_on_storage_format_is_incompatible() {
    let desc = TextureDesc {
        width: 64,
        height: 64,
        format: PixelFormat::R32Uint,
        usage: TextureUsage::render_target(),
    };
    assert_eq!(desc.validate(), Err(Error::IncompatibleBinding));
}

#[test]
fn grid_descriptor_passes() {
    let desc = TextureDesc {
        width: 256,
        height: 256,
        format: PixelFormat::R32Uint,
        usage: TextureUsage::compute_grid(),
    };
    assert_eq!(desc.validate(), Ok(()));
}

#[test]
fn empty_texture_usage_is_incompatible() {
    let desc = TextureDesc {
        width: 64,
        height: 64,
        format: PixelFormat::Rgba8Unorm,
        usage: TextureUsage {
            render_attachment: false,
            copy_src: false,
            copy_dst: false,
            storage_binding: false,
            texture_binding: false,
        },
    };
    assert_eq!(desc.validate(), Err(Error::IncompatibleBinding));
}

#[test]
fn empty_buffer_usage_is_incompatible() {
    let desc = BufferDesc {
        size: 16,
        usage: BufferUsage {
            copy_src: false,
            copy_dst: false,
            map_read: false,
            vertex: false,
            index: false,
            uniform: false,
        },
        mapped_at_creation: false,
    };
    assert_eq!(desc.validate(), Err(Error::IncompatibleBinding));
}

#[test]
fn zero_size_buffer_is_size_mismatch() {
    let desc = BufferDesc { size: 0, usage: BufferUsage::staging(), mapped_at_creation: false };
    assert_eq!(desc.validate(), Err(Error::SizeMismatch));
    let desc = BufferDesc {
        size: MAX_BUFFER_SIZE + 1,
        usage: BufferUsage::staging(),
        mapped_at_creation: false,
    };
    assert_eq!(desc.validate(), Err(Error::SizeMismatch));
    let desc = BufferDesc { size: 4, usage: BufferUsage::staging(), mapped_at_creation: false };
    assert_eq!(desc.validate(), Ok(()));
}

#[test]
fn row_alignment_rounds_up_to_256() {
    assert_eq!(pad_to_row_alignment(0), 0);
    assert_eq!(pad_to_row_alignment(1), 256);
    assert_eq!(pad_to_row_alignment(256), 256);
    assert_eq!(pad_to_row_alignment(257), 512);
    assert_eq!(pad_to_row_alignment(1000), 1024);
    assert_eq!(pad_to_row_alignment(1024), 1024);
}

#[test]
fn staging_descriptor_for_aligned_width() {
    let desc = render_target_desc(256, 256);
    assert_eq!(unpadded_bytes_per_row(&desc), 1024);
    assert_eq!(padded_bytes_per_row(&desc), 1024);
    let staging = staging_buffer_desc(&desc);
    assert_eq!(staging.size, 1024 * 256);
    assert_eq!(staging.usage, BufferUsage::staging());
    assert!(!staging.mapped_at_creation);
}

#[test]
fn staging_descriptor_pads_unaligned_width() {
    let desc = render_target_desc(250, 10);
    assert_eq!(unpadded_bytes_per_row(&desc), 1000);
    assert_eq!(padded_bytes_per_row(&desc), 1024);
    let staging = staging_buffer_desc(&desc);
    assert_eq!(staging.size, 1024 * 10);
}

#[test]
fn dispatch_covers_exact_multiple() {
    assert_eq!(workgroup_counts(256, 256), (16, 16, 1));
}

#[test]
fn dispatch_rounds_up_for_non_multiple() {
    assert_eq!(workgroup_counts(260, 256), (17, 16, 1));
    assert_eq!(workgroup_counts(1, 1), (1, 1, 1));
    assert_eq!(workgroup_counts(16, 17), (1, 2, 1));
}

#[test]
fn dispatch_of_empty_domain_is_empty() {
    assert_eq!(workgroup_counts(0, 0), (0, 0, 1));
}

#[test]
fn dispatch_at_the_device_limit_fits() {
    let (x, y, z) = workgroup_counts(MAX_DISPATCH_DOMAIN, MAX_DISPATCH_DOMAIN);
    assert_eq!((x, y, z), (MAX_DISPATCH_DIMENSION, MAX_DISPATCH_DIMENSION, 1));
}

#[test]
fn little_endian_word_decoding() {
    assert_eq!(u32_from_le(0x78, 0x56, 0x34, 0x12), 0x12345678);
    assert_eq!(u32_from_le(0, 0, 0, 0), 0);
    assert_eq!(u32_from_le(255, 255, 255, 255), u32::MAX);
}

#[test]
fn texel_buffer_decodes_word_by_word() {
    let bytes = vec![1, 0, 0, 0, 0, 1, 0, 0, 0xff, 0xff, 0xff, 0xff];
    let texels = decode_u32_texels(&bytes).unwrap();
    assert_eq!(texels, vec![1, 256, u32::MAX]);
}

#[test]
fn ragged_texel_buffer_is_size_mismatch() {
    let bytes = vec![1, 2, 3];
    assert_eq!(decode_u32_texels(&bytes), Err(Error::SizeMismatch));
}

#[test]
fn palette_maps_live_to_zero_dead_to_one() {
    let cells = vec![0, 1, 2, 0, u32::MAX];
    assert_eq!(threshold_palette(&cells), vec![1, 0, 0, 1, 0]);
}

#[test]
fn solid_frame_holds_the_clear_color_everywhere() {
    let frame = solid_frame(4, 3, 26, 51, 77, 255);
    assert_eq!(frame.len(), 4 * 4 * 3);
    for texel in frame.chunks(4) {
        assert_eq!(texel, [26, 51, 77, 255]);
    }
    assert_eq!(pixel_at(&frame, 4, 3, 0, 0), (26, 51, 77, 255));
    assert_eq!(pixel_at(&frame, 4, 3, 3, 2), (26, 51, 77, 255));
}

#[test]
fn pixel_accessor_reads_row_major() {
    let mut frame = solid_frame(2, 2, 0, 0, 0, 0);
    // Overwrite the pixel at column 1, row 1.
    let src = vec![9, 8, 7, 6];
    copy_region(&mut frame, &src, 0, 4 * (1 * 2 + 1), 4);
    assert_eq!(pixel_at(&frame, 2, 2, 1, 1), (9, 8, 7, 6));
    assert_eq!(pixel_at(&frame, 2, 2, 0, 1), (0, 0, 0, 0));
}

#[test]
fn full_copy_reproduces_the_source() {
    let src: Vec<u8> = (0..=255).collect();
    let mut dst = vec![0u8; 256];
    copy_region(&mut dst, &src, 0, 0, 256);
    assert_eq!(dst, src);
}

#[test]
fn partial_copy_leaves_the_rest_untouched() {
    let src = vec![1, 2, 3, 4];
    let mut dst = vec![9u8; 8];
    copy_region(&mut dst, &src, 1, 2, 3);
    assert_eq!(dst, vec![9, 9, 2, 3, 4, 9, 9, 9]);
}

#[test]
fn stripping_removes_row_padding() {
    // Two rows of 6 bytes, each padded to 8.
    let bytes = vec![1, 2, 3, 4, 5, 6, 0, 0, 7, 8, 9, 10, 11, 12, 0, 0];
    let stripped = strip_row_padding(&bytes, 8, 6, 2);
    assert_eq!(stripped, vec![1, 2, 3, 4, 5, 6, 7, 8, 9, 10, 11, 12]);
}

#[test]
fn all_dead_grid_is_a_fixed_point() {
    let cells = vec![0u32; 16 * 16];
    let next = step_grid(&cells, 16, 16);
    assert_eq!(next, cells);
}

#[test]
fn block_still_life_survives() {
    let mut cells = vec![0u32; 6 * 6];
    for (x, y) in [(2, 2), (3, 2), (2, 3), (3, 3)] {
        cells[y * 6 + x] = 1;
    }
    let next = step_grid(&cells, 6, 6);
    assert_eq!(next, cells);
}

#[test]
fn blinker_oscillates() {
    let mut cells = vec![0u32; 5 * 5];
    // A vertical blinker in the middle.
    for (x, y) in [(2, 1), (2, 2), (2, 3)] {
        cells[y * 5 + x] = 1;
    }
    let next = step_grid(&cells, 5, 5);
    let mut horizontal = vec![0u32; 5 * 5];
    for (x, y) in [(1, 2), (2, 2), (3, 2)] {
        horizontal[y * 5 + x] = 1;
    }
    assert_eq!(next, horizontal);
    let back = step_grid(&next, 5, 5);
    assert_eq!(back, cells);
}

#[test]
fn lone_cell_dies() {
    let mut cells = vec![0u32; 4 * 4];
    cells[1 * 4 + 1] = 1;
    let next = step_grid(&cells, 4, 4);
    assert_eq!(next, vec![0u32; 4 * 4]);
}

#[test]
fn random_seed_layout_is_one_byte_per_texel() {
    let mut rng = rand::thread_rng();
    let seed = gpu_submission::engine::random_seed_bytes(32, 16, &mut rng);
    assert_eq!(seed.len(), 4 * 32 * 16);
    for (j, &b) in seed.iter().enumerate() {
        assert!(b == 0 || b == 1);
        if j % 4 != 0 {
            assert_eq!(b, 0);
        }
    }
}
