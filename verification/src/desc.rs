//! Resource descriptors and their validated construction rules.
//!
//! A descriptor is an immutable value describing a texture or buffer. The
//! engine validates every descriptor before a device resource is created
//! from it, and derives the matching staging-buffer descriptor for any
//! texture that will require host readback.

use vstd::prelude::*;
use crate::error::Error;
use crate::format::{BufferUsage, PixelFormat, TextureUsage};

verus! {

/// The largest texture side length the engine accepts, matching the
/// device limit it requests.
pub const MAX_DIMENSION: u32 = 8192;

/// The largest buffer size the engine accepts, matching the device limit
/// it requests.
pub const MAX_BUFFER_SIZE: u64 = 268435456;

/// Every row of a texture-to-buffer copy must start at a multiple of this
/// alignment, so staging rows are padded up to it.
pub const ROW_ALIGNMENT: u32 = 256;

/// An immutable description of a two-dimensional texture.
#[derive(Clone, Copy, Debug, PartialEq, Eq, Structural)]
pub struct TextureDesc {
    pub width: u32,
    pub height: u32,
    pub format: PixelFormat,
    pub usage: TextureUsage,
}

impl TextureDesc {
    /// The dimensions are positive and within the device limit.
    pub open spec fn size_ok(self) -> bool {
        &&& 0 < self.width <= MAX_DIMENSION
        &&& 0 < self.height <= MAX_DIMENSION
    }

    /// The usage set is not empty and the format supports every
    /// requested usage: a storage-written texture must have a format
    /// that supports storage binding and must also declare the read
    /// binding, and a render attachment must have a renderable format.
    pub open spec fn usage_ok(self) -> bool {
        &&& self.usage.spec_any()
        &&& self.usage.storage_binding ==> self.format.spec_supports_storage()
            && self.usage.texture_binding
        &&& self.usage.render_attachment ==> self.format.spec_supports_render_attachment()
    }

    /// A descriptor is valid when its size and its usage combination are.
    pub open spec fn valid(self) -> bool {
        self.size_ok() && self.usage_ok()
    }

    /// Checks this descriptor, reporting exactly which rule is broken:
    /// a size violation as `SizeMismatch`, a format/usage incompatibility
    /// as `IncompatibleBinding`.
    pub fn validate(&self) -> (r: Result<(), Error>)
        ensures
            r is Ok <==> self.valid(),
            !self.size_ok() ==> r == Result::<(), Error>::Err(Error::SizeMismatch),
            self.size_ok() && !self.usage_ok() ==> r == Result::<(), Error>::Err(
                Error::IncompatibleBinding,
            ),
    {
        if self.width == 0 || self.width > MAX_DIMENSION || self.height == 0 || self.height
            > MAX_DIMENSION {
            return Err(Error::SizeMismatch);
        }
        if !self.usage.any() {
            return Err(Error::IncompatibleBinding);
        }
        if self.usage.storage_binding && !(self.format.supports_storage()
            && self.usage.texture_binding) {
            return Err(Error::IncompatibleBinding);
        }
        if self.usage.render_attachment && !self.format.supports_render_attachment() {
            return Err(Error::IncompatibleBinding);
        }
        Ok(())
    }

    /// The exact number of bytes of one texel row, before alignment.
    pub open spec fn spec_unpadded_bytes_per_row(self) -> int {
        self.format.spec_texel_size() * self.width
    }

    /// The row stride of a host-readback copy: the exact row size rounded
    /// up to the row alignment.
    pub open spec fn spec_padded_bytes_per_row(self) -> int {
        let u = self.spec_unpadded_bytes_per_row();
        u + ((ROW_ALIGNMENT - u % (ROW_ALIGNMENT as int)) % (ROW_ALIGNMENT as int))
    }

    /// The exact number of bytes the texture holds, before row alignment.
    pub open spec fn spec_content_bytes(self) -> int {
        self.spec_unpadded_bytes_per_row() * self.height
    }

    /// The size of the staging buffer that a readback of this texture
    /// needs: one aligned row stride per texture row.
    pub open spec fn spec_staging_size(self) -> int {
        self.spec_padded_bytes_per_row() * self.height
    }
}

/// An immutable description of a linear buffer.
#[derive(Clone, Copy, Debug, PartialEq, Eq, Structural)]
pub struct BufferDesc {
    pub size: u64,
    pub usage: BufferUsage,
    pub mapped_at_creation: bool,
}

impl BufferDesc {
    /// The size is positive and within the device limit.
    pub open spec fn size_ok(self) -> bool {
        0 < self.size <= MAX_BUFFER_SIZE
    }

    /// A buffer descriptor is valid when its size is in range and it
    /// declares at least one usage.
    pub open spec fn valid(self) -> bool {
        self.size_ok() && self.usage.spec_any()
    }

    /// Checks this descriptor: a size violation is a `SizeMismatch`, an
    /// empty usage set an `IncompatibleBinding`.
    pub fn validate(&self) -> (r: Result<(), Error>)
        ensures
            r is Ok <==> self.valid(),
            !self.size_ok() ==> r == Result::<(), Error>::Err(Error::SizeMismatch),
            self.size_ok() && !self.usage.spec_any() ==> r == Result::<(), Error>::Err(
                Error::IncompatibleBinding,
            ),
    {
        if self.size == 0 || self.size > MAX_BUFFER_SIZE {
            Err(Error::SizeMismatch)
        } else if !self.usage.any() {
            Err(Error::IncompatibleBinding)
        } else {
            Ok(())
        }
    }
}

/// The bytes of one row of `desc`, before alignment.
pub fn unpadded_bytes_per_row(desc: &TextureDesc) -> (r: u32)
    requires
        desc.size_ok(),
    ensures
        r == desc.spec_unpadded_bytes_per_row(),
        0 < r <= 16 * MAX_DIMENSION,
{
    desc.format.texel_size() * desc.width
}

/// Rounds `bytes` up to the row alignment.
pub fn pad_to_row_alignment(bytes: u32) -> (r: u32)
    requires
        bytes <= 16 * MAX_DIMENSION,
    ensures
        r as int == bytes + ((ROW_ALIGNMENT - bytes as int % (ROW_ALIGNMENT as int)) % (
        ROW_ALIGNMENT as int)),
        r % ROW_ALIGNMENT == 0,
        bytes <= r < bytes + ROW_ALIGNMENT,
{
    let rem: u32 = bytes % ROW_ALIGNMENT;
    if rem == 0 {
        bytes
    } else {
        bytes + (ROW_ALIGNMENT - rem)
    }
}

/// The row stride of a host-readback copy of `desc`.
pub fn padded_bytes_per_row(desc: &TextureDesc) -> (r: u32)
    requires
        desc.size_ok(),
    ensures
        r == desc.spec_padded_bytes_per_row(),
        r % ROW_ALIGNMENT == 0,
        desc.spec_unpadded_bytes_per_row() <= r < desc.spec_unpadded_bytes_per_row()
            + ROW_ALIGNMENT,
{
    pad_to_row_alignment(unpadded_bytes_per_row(desc))
}

/// Derives the staging-buffer descriptor matching a texture that will be
/// read back: one aligned row stride per texture row, usable as a copy
/// destination and host readable.
pub fn staging_buffer_desc(desc: &TextureDesc) -> (r: BufferDesc)
    requires
        desc.size_ok(),
        desc.format.spec_texel_size() == 4,
    ensures
        r.size == desc.spec_staging_size(),
        r.usage == BufferUsage::staging(),
        !r.mapped_at_creation,
        r.size >= desc.spec_content_bytes(),
        r.valid(),
{
    let row: u32 = padded_bytes_per_row(desc);
    proof {
        assert(row <= 4 * MAX_DIMENSION) by {
            assert(desc.spec_unpadded_bytes_per_row() <= 4 * MAX_DIMENSION);
            assert(row % 256 == 0);
            assert(row < 4 * MAX_DIMENSION + 256);
        };
        assert(row as int * desc.height as int <= 4 * MAX_DIMENSION * MAX_DIMENSION) by (
        nonlinear_arith)
            requires
                row <= 4 * MAX_DIMENSION,
                0 < desc.height <= MAX_DIMENSION,
                MAX_DIMENSION == 8192,
        ;
    }
    let size: u64 = (row as u64) * (desc.height as u64);
    proof {
        assert(size >= desc.spec_content_bytes()) by (nonlinear_arith)
            requires
                size == row as int * desc.height as int,
                row >= desc.spec_unpadded_bytes_per_row(),
                desc.height > 0,
                desc.spec_unpadded_bytes_per_row() >= 0,
        ;
        assert(size > 0) by (nonlinear_arith)
            requires
                size == row as int * desc.height as int,
                row > 0,
                desc.height > 0,
        ;
    }
    BufferDesc { size, usage: BufferUsage::staging(), mapped_at_creation: false }
}

} // verus!

verus! {

/// The staging size derived for any in-range texture of four-byte
/// texels is itself a valid staging-buffer size: positive, within the
/// device limit, and a whole number of four-byte words.
pub proof fn lemma_staging_size_wf(desc: TextureDesc)
    requires
        desc.size_ok(),
        desc.format.spec_texel_size() == 4,
    ensures
        0 < desc.spec_staging_size() <= MAX_BUFFER_SIZE,
        desc.spec_staging_size() % 4 == 0,
{
    let u = desc.spec_unpadded_bytes_per_row();
    let p = desc.spec_padded_bytes_per_row();
    assert(0 < u <= 4 * MAX_DIMENSION);
    assert(u <= p < u + 256 && p % 256 == 0) by (nonlinear_arith)
        requires
            p == u + ((256 - u % 256) % 256),
            0 < u,
    ;
    assert(p <= 4 * MAX_DIMENSION) by (nonlinear_arith)
        requires
            p % 256 == 0,
            p < 4 * MAX_DIMENSION + 256,
            MAX_DIMENSION == 8192,
    ;
    assert(0 < p * desc.height <= 4 * MAX_DIMENSION * MAX_DIMENSION && (p * desc.height) % 4
        == 0) by (nonlinear_arith)
        requires
            0 < p <= 4 * MAX_DIMENSION,
            p % 256 == 0,
            0 < desc.height <= MAX_DIMENSION,
            MAX_DIMENSION == 8192,
    ;
}

} // verus!
