use vstd::prelude::*;

verus! {

#[verifier::external_type_specification]
#[verifier::external_body]
pub struct ExTexture(wgpu::Texture);

#[verifier::external_type_specification]
#[verifier::external_body]
pub struct ExDevice(wgpu::Device);

#[verifier::external_type_specification]
#[verifier::external_body]
pub struct ExQueue(wgpu::Queue);

/// The size of a texture or an image, in texels.
#[derive(Debug, Clone, Copy, PartialEq, Eq, Structural)]
pub struct Extent {
    pub width: u32,
    pub height: u32,
    pub depth: u32,
}

/// The texel formats an image is uploaded in.
#[derive(Debug, Clone, Copy, PartialEq, Eq, Structural)]
pub enum TextureFormat {
    Rgba8Unorm,
    Rgba32Float,
}

/// Bytes per texel of a format.
pub open spec fn texel_bytes(f: TextureFormat) -> nat {
    match f {
        TextureFormat::Rgba8Unorm => 4,
        TextureFormat::Rgba32Float => 16,
    }
}

/// The largest width and height of a 2D texture that every backend of wgpu
/// supports (Vulkan's guaranteed minimum of the limit).
pub const MAX_TEXTURE_SIDE: u32 = 4096;

/// A texture together with the extent and format it was created with, and
/// what has been written into it: the texels and the bytes per row they
/// were laid out in.
pub struct GpuTexture {
    texture: wgpu::Texture,
    extent: Extent,
    format: TextureFormat,
    written: Ghost<Option<(Seq<u8>, u32)>>,
}

impl GpuTexture {
    pub closed spec fn extent_spec(&self) -> Extent {
        self.extent
    }

    pub closed spec fn format_spec(&self) -> TextureFormat {
        self.format
    }

    pub closed spec fn written_spec(&self) -> Option<(Seq<u8>, u32)> {
        self.written@
    }

    /// The extent the texture was created with.
    pub fn extent(&self) -> (r: Extent)
        ensures
            r == self.extent_spec(),
    {
        self.extent
    }

    /// The format the texture was created with.
    pub fn format(&self) -> (r: TextureFormat)
        ensures
            r == self.format_spec(),
    {
        self.format
    }

    /// Gives up the extent and format and hands out the texture.
    pub fn into_texture(self) -> (r: wgpu::Texture) {
        self.texture
    }
}

/// Relies on `wgpu::Device::create_texture`: makes a 2D texture of `extent`
/// and `format` with one mip level and one sample, that can be sampled and
/// copied into; nothing has been written into it yet. wgpu-core checks no
/// side against the device and turns every backend failure into a panic, so
/// only a single layer with sides that every backend supports is admitted
/// (and no empty one). Running out of device memory panics too; that is a
/// property of the device, not of the arguments.
#[verifier::external_body]
pub(crate) fn create_texture_2d(device: &wgpu::Device, extent: Extent, format: TextureFormat) -> (r:
    GpuTexture)
    requires
        0 < extent.width <= MAX_TEXTURE_SIDE,
        0 < extent.height <= MAX_TEXTURE_SIDE,
        extent.depth == 1,
    ensures
        r.extent_spec() == extent,
        r.format_spec() == format,
        r.written_spec() is None,
{
    let texture = device.create_texture(&wgpu::TextureDescriptor {
        label: None,
        size: wgpu::Extent3d { width: extent.width, height: extent.height, depth: extent.depth },
        mip_level_count: 1,
        sample_count: 1,
        dimension: wgpu::TextureDimension::D2,
        format: match format {
            TextureFormat::Rgba8Unorm => wgpu::TextureFormat::Rgba8Unorm,
            TextureFormat::Rgba32Float => wgpu::TextureFormat::Rgba32Float,
        },
        usage: wgpu::TextureUsage::SAMPLED | wgpu::TextureUsage::COPY_DST,
    });
    GpuTexture { texture, extent, format, written: Ghost(None) }
}

/// Relies on `wgpu::Queue::write_texture`: copies `data` into the whole of
/// a single-layer texture at mip level 0. Only tightly packed data is
/// admitted: rows of exactly `width` texels, and exactly `height` of them.
/// wgpu-core refuses (and the call panics on) a layout whose last row ends
/// past `data` or whose rows overlap, and its staging copies also panic on
/// some padded layouts and on data longer than the layout. Afterwards the
/// texture holds `data`, in rows of `bytes_per_row` bytes.
#[verifier::external_body]
pub(crate) fn write_texture(queue: &wgpu::Queue, texture: &mut GpuTexture, data: &[u8], bytes_per_row: u32)
    requires
        old(texture).extent_spec().depth == 1,
        old(texture).extent_spec().height > 0,
        bytes_per_row == texel_bytes(old(texture).format_spec()) * old(texture).extent_spec().width,
        data@.len() == bytes_per_row * old(texture).extent_spec().height,
    ensures
        final(texture).extent_spec() == old(texture).extent_spec(),
        final(texture).format_spec() == old(texture).format_spec(),
        final(texture).written_spec() == Some((data@, bytes_per_row)),
{
    let e = texture.extent;
    queue.write_texture(
        wgpu::TextureCopyView { texture: &texture.texture, mip_level: 0, origin: wgpu::Origin3d::ZERO },
        data,
        wgpu::TextureDataLayout { offset: 0, bytes_per_row, rows_per_image: e.height },
        wgpu::Extent3d { width: e.width, height: e.height, depth: e.depth },
    );
}

} // verus!
