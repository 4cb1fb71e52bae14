//! Validated construction of device resources.
//!
//! Every texture and buffer is created from a descriptor that has passed
//! validation; the created handle carries its descriptor, so later
//! recording steps can check sizes and usages against it.

use vstd::prelude::*;
use crate::backend;
use crate::desc::{BufferDesc, TextureDesc, MAX_BUFFER_SIZE};
use crate::device::DeviceContext;
use crate::error::Error;
use crate::format::{BufferUsage, TextureUsage};

verus! {

/// The backend's documented flag bit for each texture usage, summed over
/// the set flags of `u`.
pub open spec fn spec_texture_usage_bits(u: TextureUsage) -> u32 {
    ((if u.copy_src {
        1int
    } else {
        0int
    }) + (if u.copy_dst {
        2int
    } else {
        0int
    }) + (if u.texture_binding {
        4int
    } else {
        0int
    }) + (if u.storage_binding {
        8int
    } else {
        0int
    }) + (if u.render_attachment {
        16int
    } else {
        0int
    })) as u32
}

/// Encodes a texture usage set in the backend's documented flag bits:
/// copy source, copy destination, texture binding, storage binding and
/// render attachment are bits zero to four.
pub fn texture_usage_bits(u: TextureUsage) -> (r: u32)
    ensures
        r == spec_texture_usage_bits(u),
{
    let mut bits: u32 = 0;
    if u.copy_src {
        bits = bits + 1;
    }
    if u.copy_dst {
        bits = bits + 2;
    }
    if u.texture_binding {
        bits = bits + 4;
    }
    if u.storage_binding {
        bits = bits + 8;
    }
    if u.render_attachment {
        bits = bits + 16;
    }
    bits
}

/// The backend's documented flag bit for each buffer usage, summed over
/// the set flags of `u`.
pub open spec fn spec_buffer_usage_bits(u: BufferUsage) -> u32 {
    ((if u.map_read {
        1int
    } else {
        0int
    }) + (if u.copy_src {
        4int
    } else {
        0int
    }) + (if u.copy_dst {
        8int
    } else {
        0int
    }) + (if u.index {
        16int
    } else {
        0int
    }) + (if u.vertex {
        32int
    } else {
        0int
    }) + (if u.uniform {
        64int
    } else {
        0int
    })) as u32
}

/// Encodes a buffer usage set in the backend's documented flag bits:
/// map-read is bit zero, copy source bit two, copy destination bit
/// three, index, vertex and uniform bits four to six.
pub fn buffer_usage_bits(u: BufferUsage) -> (r: u32)
    ensures
        r == spec_buffer_usage_bits(u),
{
    let mut bits: u32 = 0;
    if u.map_read {
        bits = bits + 1;
    }
    if u.copy_src {
        bits = bits + 4;
    }
    if u.copy_dst {
        bits = bits + 8;
    }
    if u.index {
        bits = bits + 16;
    }
    if u.vertex {
        bits = bits + 32;
    }
    if u.uniform {
        bits = bits + 64;
    }
    bits
}

/// A texture usage set with any flag set encodes to nonzero bits.
proof fn lemma_texture_bits_nonzero(u: TextureUsage)
    requires
        u.spec_any(),
    ensures
        spec_texture_usage_bits(u) != 0,
{
}

/// A buffer usage set with any flag set encodes to nonzero bits.
proof fn lemma_buffer_bits_nonzero(u: BufferUsage)
    requires
        u.spec_any(),
    ensures
        spec_buffer_usage_bits(u) != 0,
{
}

/// A created texture: the device handle, a whole-texture view, and the
/// descriptor it was created from.
pub struct GpuTexture {
    pub handle: wgpu::Texture,
    pub view: wgpu::TextureView,
    pub desc: TextureDesc,
}

/// A created buffer: the device handle and the descriptor it was created
/// from.
pub struct GpuBuffer {
    pub handle: wgpu::Buffer,
    pub desc: BufferDesc,
}

/// Creates a texture from a validated descriptor, together with a view
/// of the whole texture. An invalid descriptor is rejected exactly as
/// `TextureDesc::validate` reports it.
pub fn create_texture(ctx: &DeviceContext, desc: TextureDesc) -> (r: Result<GpuTexture, Error>)
    ensures
        r is Ok <==> desc.valid(),
        r matches Ok(t) ==> t.desc == desc,
        !desc.size_ok() ==> r == Result::<GpuTexture, Error>::Err(Error::SizeMismatch),
        desc.size_ok() && !desc.usage_ok() ==> r == Result::<GpuTexture, Error>::Err(
            Error::IncompatibleBinding,
        ),
{
    match desc.validate() {
        Ok(_) => {},
        Err(e) => {
            return Err(e);
        },
    }
    let bits = texture_usage_bits(desc.usage);
    proof {
        lemma_texture_bits_nonzero(desc.usage);
    }
    let handle = backend::create_texture_raw(
        &ctx.device,
        desc.width,
        desc.height,
        backend::to_backend_format(desc.format),
        bits,
    );
    let view = backend::create_view_raw(&handle);
    Ok(GpuTexture { handle, view, desc })
}

/// Creates an empty buffer from a validated descriptor. An invalid
/// descriptor is rejected exactly as `BufferDesc::validate` reports it.
pub fn create_buffer(ctx: &DeviceContext, desc: BufferDesc) -> (r: Result<GpuBuffer, Error>)
    ensures
        r is Ok <==> desc.valid(),
        r matches Ok(b) ==> b.desc == desc,
        !desc.size_ok() ==> r == Result::<GpuBuffer, Error>::Err(Error::SizeMismatch),
        desc.size_ok() && !desc.usage.spec_any() ==> r == Result::<GpuBuffer, Error>::Err(
            Error::IncompatibleBinding,
        ),
{
    match desc.validate() {
        Ok(_) => {},
        Err(e) => {
            return Err(e);
        },
    }
    let bits = buffer_usage_bits(desc.usage);
    proof {
        lemma_buffer_bits_nonzero(desc.usage);
    }
    let handle = backend::create_buffer_raw(&ctx.device, desc.size, bits, desc.mapped_at_creation);
    Ok(GpuBuffer { handle, desc })
}

/// Creates a buffer holding `contents`, checking that the byte length
/// matches the product of element count and element stride exactly; a
/// mismatch, an empty buffer, or one over the device limit is a
/// `SizeMismatch`, and an empty usage set an `IncompatibleBinding`.
/// The recorded descriptor keeps the exact requested length; the device
/// may pad its allocation up to a whole four-byte word, and the
/// operations that depend on agreement — whole-buffer copies — accept
/// only word-aligned sizes, where the two coincide.
pub fn create_buffer_with_contents(
    ctx: &DeviceContext,
    element_count: u64,
    element_stride: u64,
    usage: BufferUsage,
    contents: &Vec<u8>,
) -> (r: Result<GpuBuffer, Error>)
    ensures
        r is Ok <==> contents@.len() == element_count * element_stride && 0 < contents@.len()
            <= MAX_BUFFER_SIZE && usage.spec_any(),
        !(contents@.len() == element_count * element_stride && 0 < contents@.len()
            <= MAX_BUFFER_SIZE) ==> r == Result::<GpuBuffer, Error>::Err(Error::SizeMismatch),
        contents@.len() == element_count * element_stride && 0 < contents@.len()
            <= MAX_BUFFER_SIZE && !usage.spec_any() ==> r == Result::<GpuBuffer, Error>::Err(
            Error::IncompatibleBinding,
        ),
        r matches Ok(b) ==> b.desc == (BufferDesc {
            size: contents@.len() as u64,
            usage,
            mapped_at_creation: false,
        }),
{
    let len: usize = contents.len();
    if element_stride != 0 && element_count > u64::MAX / element_stride {
        // The product exceeds every byte length a buffer can have.
        proof {
            let c = element_count as int;
            let s = element_stride as int;
            let m = u64::MAX as int;
            vstd::arithmetic::div_mod::lemma_fundamental_div_mod(m, s);
            assert(c * s >= (m / s + 1) * s) by (nonlinear_arith)
                requires
                    c >= m / s + 1,
                    s > 0,
            ;
            assert((m / s + 1) * s == (m / s) * s + s) by (nonlinear_arith);
            assert(c * s > m);
        }
        return Err(Error::SizeMismatch);
    }
    proof {
        let c = element_count as int;
        let s = element_stride as int;
        let m = u64::MAX as int;
        if s > 0 {
            vstd::arithmetic::div_mod::lemma_fundamental_div_mod(m, s);
            assert(c * s <= (m / s) * s) by (nonlinear_arith)
                requires
                    c <= m / s,
                    s > 0,
            ;
        } else {
            assert(c * s == 0) by (nonlinear_arith)
                requires
                    s == 0,
            ;
        }
    }
    let expected: u64 = element_count * element_stride;
    if (len as u64) != expected || len == 0 || (len as u64) > MAX_BUFFER_SIZE {
        return Err(Error::SizeMismatch);
    }
    if !usage.any() {
        return Err(Error::IncompatibleBinding);
    }
    let bits = buffer_usage_bits(usage);
    proof {
        lemma_buffer_bits_nonzero(usage);
    }
    let handle = backend::create_buffer_init_raw(&ctx.device, contents, bits);
    Ok(
        GpuBuffer {
            handle,
            desc: BufferDesc { size: len as u64, usage, mapped_at_creation: false },
        },
    )
}

} // verus!
