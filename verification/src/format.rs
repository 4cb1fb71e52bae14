//! Pixel and element formats, and the usage capabilities of resources.

use vstd::prelude::*;

verus! {

/// The texture formats the engine supports.
#[derive(Clone, Copy, Debug, PartialEq, Eq, Structural)]
pub enum PixelFormat {
    /// Four 8-bit channels, used for color render targets.
    Rgba8Unorm,
    /// One 32-bit depth channel, used for depth targets.
    Depth32Float,
    /// One 32-bit unsigned integer channel, used for storage grids.
    R32Uint,
}

impl PixelFormat {
    /// The size of one texel in bytes.
    pub open spec fn spec_texel_size(self) -> u32 {
        match self {
            PixelFormat::Rgba8Unorm => 4,
            PixelFormat::Depth32Float => 4,
            PixelFormat::R32Uint => 4,
        }
    }

    /// The size of one texel in bytes.
    pub fn texel_size(self) -> (r: u32)
        ensures
            r == self.spec_texel_size(),
            1 <= r <= 16,
    {
        match self {
            PixelFormat::Rgba8Unorm => 4,
            PixelFormat::Depth32Float => 4,
            PixelFormat::R32Uint => 4,
        }
    }

    /// Whether a texture of this format may be bound as a writable storage
    /// texture in a compute shader.
    pub open spec fn spec_supports_storage(self) -> bool {
        self == PixelFormat::R32Uint
    }

    /// Whether a texture of this format may be bound as a writable storage
    /// texture in a compute shader.
    pub fn supports_storage(self) -> (r: bool)
        ensures
            r == self.spec_supports_storage(),
    {
        match self {
            PixelFormat::R32Uint => true,
            _ => false,
        }
    }

    /// Whether a texture of this format may serve as a render-pass
    /// attachment (color or depth).
    pub open spec fn spec_supports_render_attachment(self) -> bool {
        self == PixelFormat::Rgba8Unorm || self == PixelFormat::Depth32Float
    }

    /// Whether a texture of this format may serve as a render-pass
    /// attachment (color or depth).
    pub fn supports_render_attachment(self) -> (r: bool)
        ensures
            r == self.spec_supports_render_attachment(),
    {
        match self {
            PixelFormat::Rgba8Unorm => true,
            PixelFormat::Depth32Float => true,
            PixelFormat::R32Uint => false,
        }
    }
}

/// The usage set of a texture.
#[derive(Clone, Copy, Debug, PartialEq, Eq, Structural)]
pub struct TextureUsage {
    /// The texture may be rendered to.
    pub render_attachment: bool,
    /// The texture may be the source of a copy.
    pub copy_src: bool,
    /// The texture may be the destination of a copy or an upload.
    pub copy_dst: bool,
    /// The texture may be written by a compute shader.
    pub storage_binding: bool,
    /// The texture may be sampled or read by a shader.
    pub texture_binding: bool,
}

impl TextureUsage {
    /// Whether any usage flag is set; the device refuses a resource
    /// with no usage at all.
    pub open spec fn spec_any(self) -> bool {
        self.render_attachment || self.copy_src || self.copy_dst || self.storage_binding
            || self.texture_binding
    }

    /// Whether any usage flag is set.
    #[verifier::when_used_as_spec(spec_any)]
    pub fn any(self) -> (r: bool)
        ensures
            r == self.spec_any(),
    {
        self.render_attachment || self.copy_src || self.copy_dst || self.storage_binding
            || self.texture_binding
    }

    /// Usage of an output texture: rendered to, then copied out.
    /// (spec view of `render_target`)
    pub open spec fn spec_render_target() -> TextureUsage {
        TextureUsage {
            render_attachment: true,
            copy_src: true,
            copy_dst: false,
            storage_binding: false,
            texture_binding: false,
        }
    }

    #[verifier::when_used_as_spec(spec_render_target)]
    pub fn render_target() -> (r: TextureUsage)
        ensures
            r == (TextureUsage {
                render_attachment: true,
                copy_src: true,
                copy_dst: false,
                storage_binding: false,
                texture_binding: false,
            }),
    {
        TextureUsage {
            render_attachment: true,
            copy_src: true,
            copy_dst: false,
            storage_binding: false,
            texture_binding: false,
        }
    }

    /// Usage of a compute grid texture: uploaded to, read and written by
    /// the kernel, and copied out for observation.
    /// (spec view of `compute_grid`)
    pub open spec fn spec_compute_grid() -> TextureUsage {
        TextureUsage {
            render_attachment: false,
            copy_src: true,
            copy_dst: true,
            storage_binding: true,
            texture_binding: true,
        }
    }

    #[verifier::when_used_as_spec(spec_compute_grid)]
    pub fn compute_grid() -> (r: TextureUsage)
        ensures
            r == (TextureUsage {
                render_attachment: false,
                copy_src: true,
                copy_dst: true,
                storage_binding: true,
                texture_binding: true,
            }),
    {
        TextureUsage {
            render_attachment: false,
            copy_src: true,
            copy_dst: true,
            storage_binding: true,
            texture_binding: true,
        }
    }
}

/// The usage set of a buffer.
#[derive(Clone, Copy, Debug, PartialEq, Eq, Structural)]
pub struct BufferUsage {
    /// The buffer may be the source of a copy.
    pub copy_src: bool,
    /// The buffer may be the destination of a copy.
    pub copy_dst: bool,
    /// The buffer may be mapped for host reading.
    pub map_read: bool,
    /// The buffer may be bound as a vertex buffer.
    pub vertex: bool,
    /// The buffer may be bound as an index buffer.
    pub index: bool,
    /// The buffer may be bound as a uniform buffer.
    pub uniform: bool,
}

impl BufferUsage {
    /// Whether any usage flag is set; the device refuses a buffer with
    /// no usage at all.
    pub open spec fn spec_any(self) -> bool {
        self.copy_src || self.copy_dst || self.map_read || self.vertex || self.index
            || self.uniform
    }

    /// Whether any usage flag is set.
    #[verifier::when_used_as_spec(spec_any)]
    pub fn any(self) -> (r: bool)
        ensures
            r == self.spec_any(),
    {
        self.copy_src || self.copy_dst || self.map_read || self.vertex || self.index
            || self.uniform
    }

    /// Usage of a staging buffer: copy destination, host readable.
    /// (spec view of `staging`)
    pub open spec fn spec_staging() -> BufferUsage {
        BufferUsage {
            copy_src: false,
            copy_dst: true,
            map_read: true,
            vertex: false,
            index: false,
            uniform: false,
        }
    }

    #[verifier::when_used_as_spec(spec_staging)]
    pub fn staging() -> (r: BufferUsage)
        ensures
            r == (BufferUsage {
                copy_src: false,
                copy_dst: true,
                map_read: true,
                vertex: false,
                index: false,
                uniform: false,
            }),
    {
        BufferUsage {
            copy_src: false,
            copy_dst: true,
            map_read: true,
            vertex: false,
            index: false,
            uniform: false,
        }
    }

    /// Usage of a vertex buffer.
    /// (spec view of `vertex`)
    pub open spec fn spec_vertex() -> BufferUsage {
        BufferUsage {
            copy_src: false,
            copy_dst: false,
            map_read: false,
            vertex: true,
            index: false,
            uniform: false,
        }
    }

    #[verifier::when_used_as_spec(spec_vertex)]
    pub fn vertex() -> (r: BufferUsage)
        ensures
            r == (BufferUsage {
                copy_src: false,
                copy_dst: false,
                map_read: false,
                vertex: true,
                index: false,
                uniform: false,
            }),
    {
        BufferUsage {
            copy_src: false,
            copy_dst: false,
            map_read: false,
            vertex: true,
            index: false,
            uniform: false,
        }
    }

    /// Usage of an index buffer.
    /// (spec view of `index`)
    pub open spec fn spec_index() -> BufferUsage {
        BufferUsage {
            copy_src: false,
            copy_dst: false,
            map_read: false,
            vertex: false,
            index: true,
            uniform: false,
        }
    }

    #[verifier::when_used_as_spec(spec_index)]
    pub fn index() -> (r: BufferUsage)
        ensures
            r == (BufferUsage {
                copy_src: false,
                copy_dst: false,
                map_read: false,
                vertex: false,
                index: true,
                uniform: false,
            }),
    {
        BufferUsage {
            copy_src: false,
            copy_dst: false,
            map_read: false,
            vertex: false,
            index: true,
            uniform: false,
        }
    }

    /// Usage of a uniform buffer.
    /// (spec view of `uniform`)
    pub open spec fn spec_uniform() -> BufferUsage {
        BufferUsage {
            copy_src: false,
            copy_dst: false,
            map_read: false,
            vertex: false,
            index: false,
            uniform: true,
        }
    }

    #[verifier::when_used_as_spec(spec_uniform)]
    pub fn uniform() -> (r: BufferUsage)
        ensures
            r == (BufferUsage {
                copy_src: false,
                copy_dst: false,
                map_read: false,
                vertex: false,
                index: false,
                uniform: true,
            }),
    {
        BufferUsage {
            copy_src: false,
            copy_dst: false,
            map_read: false,
            vertex: false,
            index: false,
            uniform: true,
        }
    }
}

} // verus!
