//! Textures, and the arithmetic of copying texels into and between them.

use crate::backend::Backend;
use crate::geometry::{wrap_u32, ExtentsRect, Point, Size, SizedRect};
use crate::pipeline::TextureFormat;
use vstd::prelude::*;

verus! {

/// The extent of a texture: width, height, and depth or layer count.
#[derive(Copy, Clone, Debug, PartialEq, Eq, Structural)]
pub struct Extent3d {
    pub width: u32,
    pub height: u32,
    pub depth_or_array_layers: u32,
}

/// A texel position in a texture.
#[derive(Copy, Clone, Debug, PartialEq, Eq, Structural)]
pub struct Origin3d {
    pub x: u32,
    pub y: u32,
    pub z: u32,
}

/// Which aspect of a texture a copy touches.
#[derive(Copy, Clone, Debug, PartialEq, Eq, Structural)]
pub enum TextureAspect {
    All,
}

/// How texel data lies in a buffer. A count of zero is given as `None`.
#[derive(Copy, Clone, Debug, PartialEq, Eq)]
pub struct ImageDataLayout {
    pub offset: u64,
    pub bytes_per_row: Option<u32>,
    pub rows_per_image: Option<u32>,
}

/// The place in a texture where a copy starts.
#[derive(Copy, Clone, Debug, PartialEq, Eq, Structural)]
pub struct ImageCopyTexture {
    pub mip_level: u32,
    pub origin: Origin3d,
    pub aspect: TextureAspect,
}

/// A copy of texel data from a buffer into a texture.
#[derive(Copy, Clone, Debug, PartialEq, Eq)]
pub struct BufferToTexture {
    pub layout: ImageDataLayout,
    pub destination: ImageCopyTexture,
    pub extent: Extent3d,
}

/// A copy from one place of a texture to another.
#[derive(Copy, Clone, Debug, PartialEq, Eq, Structural)]
pub struct TextureToTexture {
    pub source: ImageCopyTexture,
    pub destination: ImageCopyTexture,
    pub extent: Extent3d,
}

/// A texture on the GPU, with the size it was created with.
pub struct Texture<B: Backend> {
    pub wgpu: B::Texture,
    pub view: B::TextureView,
    pub extent: Extent3d,
    pub format: B::TextureFormat,
    pub size: Size<u32>,
}

/// `Some(n)` for a count that is not zero, `None` for zero.
pub open spec fn non_zero(n: u32) -> Option<u32> {
    if n == 0 {
        None
    } else {
        Some(n)
    }
}

/// The absolute value of a number.
pub open spec fn magnitude(x: int) -> int {
    if x < 0 {
        -x
    } else {
        x
    }
}

/// The number of bytes in a row of a copy of `texels` texels in `rows`
/// rows, as the copy functions work it out: the count of texels is first
/// cut down to its low 32 bits, then divided by the rows, rounding down,
/// and only then multiplied by the four bytes of a texel.
pub open spec fn row_bytes(texels: nat, rows: u32) -> int {
    ((texels % 0x1_0000_0000) as int / (rows as int)) * 4
}

/// The extent of a single-layer texture of the given size.
pub open spec fn spec_extent(size: Size<u32>) -> Extent3d {
    Extent3d { width: size.width, height: size.height, depth_or_array_layers: 1 }
}

/// The extent of a single-layer texture of the given size.
pub fn extent(size: Size<u32>) -> (extent: Extent3d)
    ensures
        extent == spec_extent(size),
{
    Extent3d { width: size.width, height: size.height, depth_or_array_layers: 1 }
}

fn low_bits(n: usize) -> (low: u32)
    ensures
        low == (n as nat) % 0x1_0000_0000,
{
    assert((n as u32) as u64 == (n as u64) % 0x1_0000_0000u64) by (bit_vector);
    #[verifier::truncate]
    (n as u32)
}

fn wrapped(x: i32) -> (out: u32)
    ensures
        out == wrap_u32(x as int),
{
    assert((x as u32) == (if x < 0 {
        x + 0x1_0000_0000
    } else {
        x as int
    })) by (bit_vector);
    #[verifier::truncate]
    (x as u32)
}

impl<B: Backend> Texture<B> {
    /// The texel format of a texture that holds colours, unless another is
    /// asked for.
    pub fn color_format() -> (format: TextureFormat)
        ensures
            format == TextureFormat::Rgba8UnormSrgb,
    {
        TextureFormat::Rgba8UnormSrgb
    }

    /// The copy that [`Texture::buffer_copy`] describes.
    pub open spec fn spec_copy(
        destination: SizedRect<u32>,
        bytes_per_row: u32,
        extent: Extent3d,
    ) -> BufferToTexture {
        BufferToTexture {
            layout: ImageDataLayout {
                offset: 0,
                bytes_per_row: non_zero(bytes_per_row),
                rows_per_image: non_zero(destination.size.height),
            },
            destination: ImageCopyTexture {
                mip_level: 0,
                origin: Origin3d { x: destination.origin.x, y: destination.origin.y, z: 0 },
                aspect: TextureAspect::All,
            },
            extent,
        }
    }

    /// Describes the copy of a buffer of texels into the rectangle
    /// `destination` of a texture: the data starts at the beginning of the
    /// buffer, holds as many rows per image as the rectangle is high, and
    /// lands at the rectangle's origin in the first mip level.
    pub fn buffer_copy(destination: SizedRect<u32>, bytes_per_row: u32, extent: Extent3d) -> (plan:
        BufferToTexture)
        ensures
            plan == Self::spec_copy(destination, bytes_per_row, extent),
    {
        BufferToTexture {
            layout: ImageDataLayout {
                offset: 0,
                bytes_per_row: if bytes_per_row == 0 {
                    None
                } else {
                    Some(bytes_per_row)
                },
                rows_per_image: if destination.size.height == 0 {
                    None
                } else {
                    Some(destination.size.height)
                },
            },
            destination: ImageCopyTexture {
                mip_level: 0,
                origin: Origin3d { x: destination.origin.x, y: destination.origin.y, z: 0 },
                aspect: TextureAspect::All,
            },
            extent,
        }
    }

    /// The texels that clear the texture to `value`: one copy of the value
    /// for each pixel.
    pub fn clear_texels<T: Copy>(texture: &Texture<B>, value: T) -> (texels: Vec<T>)
        requires
            texture.size.spec_area() <= usize::MAX,
        ensures
            texels@.len() == texture.size.spec_area(),
            forall|i: int| 0 <= i < texels@.len() ==> texels@[i] == value,
    {
        let capacity: usize = texture.size.texels();
        let mut texels: Vec<T> = Vec::with_capacity(capacity);
        let mut i: usize = 0;
        while i < capacity
            invariant
                i <= capacity,
                texels@.len() == i,
                forall|k: int| 0 <= k < i ==> texels@[k] == value,
            decreases capacity - i,
        {
            texels.push(value);
            i = i + 1;
        }
        texels
    }

    /// Whether a buffer of `texels` texels can fill the texture: it holds
    /// at least one texel for each pixel, and the row length can be worked
    /// out.
    pub open spec fn fill_ok(self, texels: nat) -> bool {
        &&& self.size.spec_area() <= u32::MAX
        &&& texels % 0x1_0000_0000 >= self.size.spec_area()
        &&& self.extent.height != 0
        &&& row_bytes(texels, self.extent.height) <= u32::MAX
    }

    /// [`Texture::fill_ok`], worked out.
    pub fn can_fill(texture: &Texture<B>, texels: usize) -> (ok: bool)
        ensures
            ok == texture.fill_ok(texels as nat),
    {
        if !texture.size.area_fits() {
            return false;
        }
        let count: u32 = low_bits(texels);
        if count < texture.size.area() || texture.extent.height == 0 {
            return false;
        }
        count / texture.extent.height <= 0x3fff_ffff
    }

    /// Describes the copy that fills the whole texture from a buffer of
    /// `texels` texels.
    pub fn fill_copy(texture: &Texture<B>, texels: usize) -> (plan: BufferToTexture)
        requires
            texture.fill_ok(texels as nat),
        ensures
            plan == Self::spec_copy(
                SizedRect { origin: Point { x: 0, y: 0 }, size: texture.size },
                row_bytes(texels as nat, texture.extent.height) as u32,
                texture.extent,
            ),
    {
        let count: u32 = low_bits(texels);
        let bytes_per_row: u32 = count / texture.extent.height * 4;
        Self::buffer_copy(
            SizedRect { origin: Point { x: 0, y: 0 }, size: texture.size },
            bytes_per_row,
            texture.extent,
        )
    }

    /// The rectangle of the texture that a transfer into `rect` writes.
    /// The rectangle may have a negative width or height; what is written
    /// is the area it spans. Its left edge is the origin's `x`, and its `y`
    /// is counted from the bottom of the texture to the upper edge.
    /// A negative coordinate wraps around.
    pub open spec fn transfer_destination(self, rect: SizedRect<i32>) -> SizedRect<u32> {
        let x0 = rect.origin.x as int;
        let x1 = rect.origin.x + rect.size.width;
        let y0 = rect.origin.y as int;
        let y1 = rect.origin.y + rect.size.height;
        let left = if x0 <= x1 { x0 } else { x1 };
        let upper = if y0 <= y1 { y1 } else { y0 };
        SizedRect {
            origin: Point {
                x: wrap_u32(left) as u32,
                y: (self.size.height - wrap_u32(upper)) as u32,
            },
            size: Size {
                width: magnitude(rect.size.width as int) as u32,
                height: magnitude(rect.size.height as int) as u32,
            },
        }
    }

    /// Whether a buffer of `texels` texels can be transferred into `rect`:
    /// the corners of the rectangle can be worked out, its upper edge lies
    /// within the height of the texture, it is not larger than the texture,
    /// it has rows, and the row length can be worked out.
    pub open spec fn transfer_ok(self, texels: nat, rect: SizedRect<i32>) -> bool {
        let y0 = rect.origin.y as int;
        let y1 = rect.origin.y + rect.size.height;
        let upper = if y0 <= y1 { y1 } else { y0 };
        let width = magnitude(rect.size.width as int);
        let height = magnitude(rect.size.height as int);
        &&& i32::MIN <= rect.origin.x + rect.size.width <= i32::MAX
        &&& i32::MIN <= rect.origin.y + rect.size.height <= i32::MAX
        &&& width <= i32::MAX
        &&& height <= i32::MAX
        &&& wrap_u32(upper) <= self.size.height
        &&& width * height <= u32::MAX
        &&& self.size.spec_area() <= u32::MAX
        &&& width * height <= self.size.spec_area()
        &&& height != 0
        &&& row_bytes(texels, height as u32) <= u32::MAX
    }

    /// Describes the copy that transfers a buffer of `texels` texels into
    /// the rectangle `rect` of the texture.
    pub fn transfer_copy(texture: &Texture<B>, texels: usize, rect: SizedRect<i32>) -> (plan:
        BufferToTexture)
        requires
            texture.transfer_ok(texels as nat, rect),
        ensures
            plan == Self::spec_copy(
                texture.transfer_destination(rect),
                row_bytes(texels as nat, texture.transfer_destination(rect).size.height) as u32,
                spec_extent(texture.transfer_destination(rect).size),
            ),
    {
        // The GPU's coordinate system has a downwards pointing Y axis.
        let destination = rect.as_extents();
        // Make sure we have a positive rectangle.
        let destination = ExtentsRect {
            origin: Point {
                x: if destination.origin.x <= destination.extent.x {
                    destination.origin.x
                } else {
                    destination.extent.x
                },
                y: if destination.origin.y <= destination.extent.y {
                    destination.origin.y
                } else {
                    destination.extent.y
                },
            },
            extent: Point {
                x: if destination.extent.x >= destination.origin.x {
                    destination.extent.x
                } else {
                    destination.origin.x
                },
                y: if destination.extent.y >= destination.origin.y {
                    destination.extent.y
                } else {
                    destination.origin.y
                },
            },
        };
        // Flip y, making it negative in the y direction.
        let destination = ExtentsRect {
            origin: Point { x: destination.origin.x, y: destination.extent.y },
            extent: Point { x: destination.extent.x, y: destination.origin.y },
        };
        let rect = destination.as_sized();

        // The width and height of the transfer area.
        let destination_size = rect.size.magnitude();

        // The destination coordinate of the transfer, on the texture.
        // The Y coordinate is inverted as explained above.
        let destination_point = Point {
            x: wrapped(rect.origin.x),
            y: texture.size.height - wrapped(rect.origin.y),
        };

        let extent = Extent3d {
            width: destination_size.width,
            height: destination_size.height,
            depth_or_array_layers: 1,
        };
        let bytes_per_row: u32 = low_bits(texels) / destination_size.height * 4;
        Self::buffer_copy(
            SizedRect { origin: destination_point, size: destination_size },
            bytes_per_row,
            extent,
        )
    }

    /// [`Texture::transfer_ok`], worked out.
    pub fn can_transfer(texture: &Texture<B>, texels: usize, rect: SizedRect<i32>) -> (ok: bool)
        ensures
            ok == texture.transfer_ok(texels as nat, rect),
    {
        let x1: i64 = rect.origin.x as i64 + rect.size.width as i64;
        let y1: i64 = rect.origin.y as i64 + rect.size.height as i64;
        if x1 < -0x8000_0000 || x1 > 0x7fff_ffff || y1 < -0x8000_0000 || y1 > 0x7fff_ffff {
            return false;
        }
        if rect.size.width == i32::MIN || rect.size.height == i32::MIN {
            return false;
        }
        let width: u64 = if rect.size.width < 0 {
            (-rect.size.width) as u64
        } else {
            rect.size.width as u64
        };
        let height: u64 = if rect.size.height < 0 {
            (-rect.size.height) as u64
        } else {
            rect.size.height as u64
        };
        let upper: i64 = if rect.origin.y as i64 <= y1 {
            y1
        } else {
            rect.origin.y as i64
        };
        let upper: i64 = if upper < 0 {
            upper + 0x1_0000_0000
        } else {
            upper
        };
        if upper > texture.size.height as i64 {
            return false;
        }
        proof {
            crate::geometry::lemma_product_bound(width as u32, height as u32);
        }
        let wanted: u64 = width * height;
        if wanted > 0xffff_ffff || !texture.size.area_fits() {
            return false;
        }
        if wanted > texture.size.area() as u64 || height == 0 {
            return false;
        }
        low_bits(texels) / (height as u32) <= 0x3fff_ffff
    }

    /// [`Texture::blit_ok`], worked out.
    pub fn can_blit(src: SizedRect<u32>, dst: SizedRect<u32>) -> (ok: bool)
        ensures
            ok == Self::blit_ok(src, dst),
    {
        if !src.size.area_fits() || !dst.size.area_fits() {
            return false;
        }
        src.area() != dst.area()
    }

    /// Whether a blit from `src` to `dst` is taken: the areas of the two
    /// rectangles can be worked out and differ.
    pub open spec fn blit_ok(src: SizedRect<u32>, dst: SizedRect<u32>) -> bool {
        &&& src.spec_area() <= u32::MAX
        &&& dst.spec_area() <= u32::MAX
        &&& src.spec_area() != dst.spec_area()
    }

    /// The copy that [`Texture::blit_copy`] describes.
    pub open spec fn spec_blit(src: SizedRect<u32>, dst: SizedRect<u32>) -> TextureToTexture {
        TextureToTexture {
            source: ImageCopyTexture {
                mip_level: 0,
                origin: Origin3d { x: src.origin.x, y: src.origin.y, z: 0 },
                aspect: TextureAspect::All,
            },
            destination: ImageCopyTexture {
                mip_level: 0,
                origin: Origin3d { x: dst.origin.x, y: dst.origin.y, z: 0 },
                aspect: TextureAspect::All,
            },
            extent: Extent3d {
                width: src.size.width,
                height: src.size.height,
                depth_or_array_layers: 1,
            },
        }
    }

    /// Describes the copy of the rectangle `src` of the texture to the
    /// place of the rectangle `dst` in the same texture. As many texels are
    /// copied as `src` holds.
    pub fn blit_copy(src: SizedRect<u32>, dst: SizedRect<u32>) -> (plan: TextureToTexture)
        requires
            Self::blit_ok(src, dst),
        ensures
            plan == Self::spec_blit(src, dst),
    {
        TextureToTexture {
            source: ImageCopyTexture {
                mip_level: 0,
                origin: Origin3d { x: src.origin.x, y: src.origin.y, z: 0 },
                aspect: TextureAspect::All,
            },
            destination: ImageCopyTexture {
                mip_level: 0,
                origin: Origin3d { x: dst.origin.x, y: dst.origin.y, z: 0 },
                aspect: TextureAspect::All,
            },
            extent: Extent3d {
                width: src.size.width,
                height: src.size.height,
                depth_or_array_layers: 1,
            },
        }
    }
}

} // verus!
