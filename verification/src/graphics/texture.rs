//! Textures as plain bytes, and the rules for writing a region of one.

use crate::types::{Extent2d, Extent3d, Offset3d};
use vstd::arithmetic::div_mod::{
    lemma_fundamental_div_mod, lemma_fundamental_div_mod_converse, lemma_mod_bound,
};
use vstd::prelude::*;

verus! {

/// The size of a texture.
#[derive(Clone, Copy, Debug, PartialEq)]
pub enum Size {
    D2(Extent2d<u32>),
}

impl Size {
    /// A size is valid when it is positive along every axis.
    pub open spec fn spec_is_valid(&self) -> bool {
        match self {
            Size::D2(size) => size.spec_is_valid(),
        }
    }

    #[verifier::when_used_as_spec(spec_is_valid)]
    pub fn is_valid(&self) -> (valid: bool)
        ensures
            valid == self.spec_is_valid(),
    {
        match self {
            Size::D2(size) => size.is_valid(),
        }
    }

    /// The size as an extent in texels: a flat texture is one texel deep.
    pub open spec fn spec_extent(&self) -> Extent3d<u32> {
        match self {
            Size::D2(size) => Extent3d { width: size.width, height: size.height, depth: 1 },
        }
    }

    #[verifier::when_used_as_spec(spec_extent)]
    pub fn extent(&self) -> (extent: Extent3d<u32>)
        ensures
            extent == self.spec_extent(),
    {
        match self {
            Size::D2(size) => Extent3d::new(size.width, size.height, 1),
        }
    }
}

/// The layout of one texel.
#[derive(Clone, Copy, Debug, PartialEq, Eq)]
pub enum Format {
    Rgba8Unorm,
}

/// The size in bytes of one texel, as `wgpu::TextureFormat::describe`
/// reports it in the field `block_size` of its result. For `Rgba8Unorm`,
/// four channels of one byte each, that is 4.
#[verifier::external_body]
fn describe_block_size(format: Format) -> (size: u8)
    ensures
        size == format.spec_block_size(),
{
    let format = match format {
        Format::Rgba8Unorm => wgpu::TextureFormat::Rgba8Unorm,
    };
    format.describe().block_size
}

impl Format {
    /// The size in bytes of one texel.
    pub open spec fn spec_block_size(&self) -> u8 {
        match self {
            Format::Rgba8Unorm => 4,
        }
    }

    #[verifier::when_used_as_spec(spec_block_size)]
    pub fn block_size(&self) -> (size: u8)
        ensures
            size == self.spec_block_size(),
    {
        describe_block_size(*self)
    }
}

/// How a texture is sampled between texels.
#[derive(Clone, Copy, Debug, PartialEq, Eq, Hash)]
pub enum FilterMode {
    Nearest,
    Linear,
}

/// How a texture is sampled outside its edges.
#[derive(Clone, Copy, Debug, PartialEq, Eq, Hash)]
pub enum AddressMode {
    ClampToEdge,
    Repeat,
    MirrorRepeat,
}

/// How a texture is sampled.
#[derive(Clone, Copy, Debug, PartialEq, Eq, Hash)]
pub struct Sampler {
    pub filter: FilterMode,
    pub address: AddressMode,
}

impl Sampler {
    pub fn new(filter: FilterMode, address: AddressMode) -> (sampler: Self)
        ensures
            sampler == (Sampler { filter, address }),
    {
        Self { filter, address }
    }
}

/// Why a texture could not be made or written.
#[derive(Debug, PartialEq, Eq)]
pub enum Error {
    /// There are fewer bytes than the region has.
    PixelsInvalid,
    /// The region does not lie inside the texture.
    OriginInvalid,
    /// An extent is empty along some axis.
    SizeInvalid,
}

/// The number of bytes of a region.
pub open spec fn region_bytes(format_size: int, size: Extent3d<u32>) -> int {
    format_size * size.width * size.height * size.depth
}

/// Why a write of `len` bytes to the region at `origin` of extent `size` is
/// refused, if it is: the region must not be empty, it must lie inside the
/// texture, and there must be bytes for all of it.
pub open spec fn write_error(
    texture_size: Extent3d<u32>,
    format_size: int,
    origin: Offset3d<u32>,
    size: Extent3d<u32>,
    len: int,
) -> Option<Error> {
    if !size.spec_is_valid() {
        Some(Error::SizeInvalid)
    } else if origin.x + size.width > texture_size.width || origin.y + size.height
        > texture_size.height || origin.z + size.depth > texture_size.depth {
        Some(Error::OriginInvalid)
    } else if len < region_bytes(format_size, size) {
        Some(Error::PixelsInvalid)
    } else {
        None
    }
}

/// Checks a write of `len` bytes to a region of a texture.
pub fn check_write(
    texture_size: Extent3d<u32>,
    format_size: u8,
    origin: Offset3d<u32>,
    size: Extent3d<u32>,
    len: usize,
) -> (result: Result<(), Error>)
    ensures
        result == match write_error(texture_size, format_size as int, origin, size, len as int) {
            Some(error) => Err::<(), Error>(error),
            None => Ok(()),
        },
{
    if !size.is_valid() {
        return Err(Error::SizeInvalid);
    }
    if origin.x as u64 + size.width as u64 > texture_size.width as u64 || origin.y as u64
        + size.height as u64 > texture_size.height as u64 || origin.z as u64 + size.depth as u64
        > texture_size.depth as u64 {
        return Err(Error::OriginInvalid);
    }
    assert(format_size * size.width <= 0xff * 0xffff_ffff) by (nonlinear_arith)
        requires
            format_size <= 0xff,
            size.width <= 0xffff_ffff,
    ;
    let row: u64 = format_size as u64 * size.width as u64;
    assert(row * size.height <= 0xff * 0xffff_ffff * 0xffff_ffff) by (nonlinear_arith)
        requires
            row <= 0xff * 0xffff_ffff,
            size.height <= 0xffff_ffff,
    ;
    let layer: u128 = row as u128 * size.height as u128;
    assert(layer * size.depth <= 0xff * 0xffff_ffff * 0xffff_ffff * 0xffff_ffff) by (nonlinear_arith)
        requires
            layer <= 0xff * 0xffff_ffff * 0xffff_ffff,
            size.depth <= 0xffff_ffff,
    ;
    let required: u128 = layer * size.depth as u128;
    if (len as u128) < required {
        return Err(Error::PixelsInvalid);
    }
    Ok(())
}

/// The column of the texel that byte `index` of a texture belongs to.
pub open spec fn texel_x(width: int, bytes: int, index: int) -> int {
    (index / bytes) % width
}

/// The row of the texel that byte `index` of a texture belongs to.
pub open spec fn texel_y(width: int, bytes: int, index: int) -> int {
    (index / bytes) / width
}

/// Whether a texel lies in the region at `origin` of extent `size`.
pub open spec fn in_region(origin: Offset3d<u32>, size: Extent3d<u32>, x: int, y: int) -> bool {
    origin.x <= x < origin.x + size.width && origin.y <= y < origin.y + size.height
}

/// Where the bytes of a region hold byte `byte` of the texel `(x, y)`: the
/// region is packed row by row, without gaps.
pub open spec fn source_index(
    origin: Offset3d<u32>,
    size: Extent3d<u32>,
    bytes: int,
    x: int,
    y: int,
    byte: int,
) -> int {
    ((y - origin.y) * size.width + (x - origin.x)) * bytes + byte
}

/// The bytes of a flat texture, `width` texels wide with `bytes` bytes
/// each, once the first `rows` rows of the region at `origin`, and the next
/// `cols` texels and `extra` bytes of the row after them, were written from
/// `pixels`.
spec fn written_upto(
    old: Seq<u8>,
    width: int,
    bytes: int,
    origin: Offset3d<u32>,
    size: Extent3d<u32>,
    pixels: Seq<u8>,
    rows: int,
    cols: int,
    extra: int,
) -> Seq<u8> {
    Seq::new(
        old.len(),
        |index: int|
            {
                let x = texel_x(width, bytes, index);
                let y = texel_y(width, bytes, index);
                let row = y - origin.y;
                let col = x - origin.x;
                if in_region(origin, size, x, y) && (row < rows || (row == rows && (col < cols || (
                col == cols && index % bytes < extra)))) {
                    pixels[source_index(origin, size, bytes, x, y, index % bytes)]
                } else {
                    old[index]
                }
            },
    )
}

/// The bytes of a flat texture, `width` texels wide with `bytes` bytes
/// each, once the region at `origin` of extent `size` was written from
/// `pixels`: a texel inside the region holds its bytes of `pixels`, every
/// other texel is as it was.
pub open spec fn written(
    old: Seq<u8>,
    width: int,
    bytes: int,
    origin: Offset3d<u32>,
    size: Extent3d<u32>,
    pixels: Seq<u8>,
) -> Seq<u8> {
    Seq::new(
        old.len(),
        |index: int|
            {
                let x = texel_x(width, bytes, index);
                let y = texel_y(width, bytes, index);
                if in_region(origin, size, x, y) {
                    pixels[source_index(origin, size, bytes, x, y, index % bytes)]
                } else {
                    old[index]
                }
            },
    )
}

/// The byte index of byte `byte` of the texel `(x, y)` leads back to the three.
proof fn lemma_texel_coords(width: int, bytes: int, x: int, y: int, byte: int)
    requires
        0 <= x < width,
        0 <= y,
        0 <= byte < bytes,
    ensures
        0 <= y * width,
        0 <= (y * width + x) * bytes,
        texel_x(width, bytes, (y * width + x) * bytes + byte) == x,
        texel_y(width, bytes, (y * width + x) * bytes + byte) == y,
        ((y * width + x) * bytes + byte) % bytes == byte,
{
    let texel = y * width + x;
    assert(0 <= y * width) by (nonlinear_arith)
        requires
            0 <= y,
            0 < width,
    ;
    assert(0 <= texel * bytes) by (nonlinear_arith)
        requires
            0 <= texel,
            0 < bytes,
    ;
    lemma_fundamental_div_mod_converse(texel * bytes + byte, bytes, texel, byte);
    lemma_fundamental_div_mod_converse(texel, width, y, x);
}

/// A byte index is made of the column and row of its texel and its place
/// in the texel.
proof fn lemma_texel_index(width: int, bytes: int, index: int)
    requires
        0 < width,
        0 < bytes,
        0 <= index,
    ensures
        0 <= texel_x(width, bytes, index) < width,
        0 <= texel_y(width, bytes, index),
        0 <= index % bytes < bytes,
        index == (texel_y(width, bytes, index) * width + texel_x(width, bytes, index)) * bytes
            + index % bytes,
{
    let texel = index / bytes;
    lemma_fundamental_div_mod(index, bytes);
    lemma_mod_bound(index, bytes);
    assert(0 <= texel) by (nonlinear_arith)
        requires
            texel == index / bytes,
            0 <= index,
            0 < bytes,
    ;
    lemma_fundamental_div_mod(texel, width);
    lemma_mod_bound(texel, width);
    assert(0 <= texel / width) by (nonlinear_arith)
        requires
            0 <= texel,
            0 < width,
    ;
    assert(index == (texel / width * width + texel % width) * bytes + index % bytes)
        by (nonlinear_arith)
        requires
            index == bytes * (index / bytes) + index % bytes,
            texel == index / bytes,
            texel == width * (texel / width) + texel % width,
    ;
}

/// Byte `byte` of the texel `(x, y)` of a texture of `width` by `height`
/// texels lies inside the texture.
proof fn lemma_texel_in_texture(width: int, height: int, bytes: int, x: int, y: int, byte: int)
    requires
        0 <= x < width,
        0 <= y < height,
        0 <= byte < bytes,
    ensures
        0 <= y * width <= y * width + x < width * height <= bytes * width * height,
        0 <= (y * width + x) * bytes <= (y * width + x) * bytes + byte < bytes * width * height,
{
    assert(0 <= y * width && y * width + x < width * height) by (nonlinear_arith)
        requires
            0 <= x < width,
            0 <= y < height,
    ;
    let texel = y * width + x;
    let texels = width * height;
    assert(0 <= texel * bytes && texel * bytes + byte < bytes * width * height && texels <= bytes
        * width * height) by (nonlinear_arith)
        requires
            0 <= texel < texels,
            texels == width * height,
            0 <= byte < bytes,
    ;
}

/// A texture held as plain bytes: row by row, texel by texel.
#[derive(Debug)]
pub struct Texture {
    size: Size,
    format: Format,
    sampler: Option<Sampler>,
    pixels: Vec<u8>,
}

impl View for Texture {
    type V = Seq<u8>;

    closed spec fn view(&self) -> Seq<u8> {
        self.pixels@
    }
}

impl Texture {
    /// The extent of the texture in texels.
    pub closed spec fn spec_size(&self) -> Extent3d<u32> {
        self.size.spec_extent()
    }

    /// The layout of a texel.
    pub closed spec fn spec_format(&self) -> Format {
        self.format
    }

    /// How the texture is sampled.
    pub closed spec fn spec_sampler(&self) -> Option<Sampler> {
        self.sampler
    }

    /// A texture is not empty, one texel deep, and holds the bytes of all
    /// its texels.
    pub open spec fn wf(&self) -> bool {
        &&& self.spec_size().spec_is_valid()
        &&& self.spec_size().depth == 1
        &&& self@.len() == region_bytes(self.spec_format().spec_block_size() as int, self.spec_size())
    }

    /// Why a texture of this size cannot be made from these bytes, if it
    /// cannot: the size must not be empty, and where bytes are given, there
    /// must be enough for the whole texture.
    pub open spec fn new_error(size: Size, format: Format, pixels: Option<&[u8]>) -> Option<Error> {
        if !size.spec_is_valid() {
            Some(Error::SizeInvalid)
        } else {
            match pixels {
                Some(pixels) => write_error(
                    size.spec_extent(),
                    format.spec_block_size() as int,
                    Offset3d { x: 0, y: 0, z: 0 },
                    size.spec_extent(),
                    pixels@.len() as int,
                ),
                None => None,
            }
        }
    }

    /// The bytes of a new texture: zero, or where bytes are given, those.
    pub open spec fn new_bytes(size: Size, format: Format, pixels: Option<&[u8]>) -> Seq<u8> {
        let blank = Seq::new(
            region_bytes(format.spec_block_size() as int, size.spec_extent()) as nat,
            |index: int| 0u8,
        );
        match pixels {
            Some(pixels) => written(
                blank,
                size.spec_extent().width as int,
                format.spec_block_size() as int,
                Offset3d { x: 0, y: 0, z: 0 },
                size.spec_extent(),
                pixels@,
            ),
            None => blank,
        }
    }

    /// Makes a texture, blank or filled from `pixels`.
    pub fn new(size: Size, format: Format, sampler: Option<Sampler>, pixels: Option<&[u8]>) -> (result:
        Result<Self, Error>)
        requires
            region_bytes(format.spec_block_size() as int, size.spec_extent()) <= usize::MAX,
        ensures
            match result {
                Ok(texture) => {
                    &&& Self::new_error(size, format, pixels) is None
                    &&& texture.wf()
                    &&& texture.spec_size() == size.spec_extent()
                    &&& texture.spec_format() == format
                    &&& texture.spec_sampler() == sampler
                    &&& texture@ == Self::new_bytes(size, format, pixels)
                },
                Err(error) => Self::new_error(size, format, pixels) == Some(error),
            },
    {
        if !size.is_valid() {
            return Err(Error::SizeInvalid);
        }
        let texture_size = size.extent();
        let format_size = format.block_size();
        let (width, height) = (texture_size.width as usize, texture_size.height as usize);
        assert(format_size * width <= format_size * width * height) by (nonlinear_arith)
            requires
                0 <= format_size * width,
                1 <= height,
        ;
        let len = format_size as usize * width * height;
        let mut bytes = vec![0u8; len];
        assert(bytes@ =~= Self::new_bytes(size, format, None));
        if let Some(pixels) = pixels {
            let origin = Offset3d::new(0, 0, 0);
            match Self::write_texture(&mut bytes, texture_size, format_size, origin, texture_size, pixels) {
                Ok(()) => {},
                Err(error) => {
                    return Err(error);
                },
            }
        }
        Ok(Self { size, format, sampler, pixels: bytes })
    }

    pub fn size(&self) -> (size: Extent3d<u32>)
        ensures
            size == self.spec_size(),
    {
        self.size.extent()
    }

    pub fn format(&self) -> (format: Format)
        ensures
            format == self.spec_format(),
    {
        self.format
    }

    pub fn sampler(&self) -> (sampler: Option<Sampler>)
        ensures
            sampler == self.spec_sampler(),
    {
        self.sampler
    }

    /// The bytes of the texture, row by row.
    pub fn pixels(&self) -> (pixels: &[u8])
        ensures
            pixels@ == self@,
    {
        self.pixels.as_slice()
    }

    /// Writes the region at `origin` of extent `size` from `pixels`, or
    /// refuses and leaves the texture as it was.
    pub fn write(&mut self, origin: Offset3d<u32>, size: Extent3d<u32>, pixels: &[u8]) -> (result:
        Result<(), Error>)
        requires
            old(self).wf(),
        ensures
            final(self).wf(),
            final(self).spec_size() == old(self).spec_size(),
            final(self).spec_format() == old(self).spec_format(),
            final(self).spec_sampler() == old(self).spec_sampler(),
            match write_error(
                old(self).spec_size(),
                old(self).spec_format().spec_block_size() as int,
                origin,
                size,
                pixels@.len() as int,
            ) {
                Some(error) => result == Err::<(), Error>(error) && final(self)@ == old(self)@,
                None => result == Ok::<(), Error>(()) && final(self)@ == written(
                    old(self)@,
                    old(self).spec_size().width as int,
                    old(self).spec_format().spec_block_size() as int,
                    origin,
                    size,
                    pixels@,
                ),
            },
    {
        let texture_size = self.size();
        let format_size = self.format.block_size();
        Self::write_texture(&mut self.pixels, texture_size, format_size, origin, size, pixels)
    }

    #[verifier::loop_isolation(false)]
    fn write_texture(
        texture: &mut Vec<u8>,
        texture_size: Extent3d<u32>,
        format_size: u8,
        origin: Offset3d<u32>,
        size: Extent3d<u32>,
        pixels: &[u8],
    ) -> (result: Result<(), Error>)
        requires
            texture_size.spec_is_valid(),
            texture_size.depth == 1,
            format_size > 0,
            old(texture)@.len() == region_bytes(format_size as int, texture_size),
        ensures
            match write_error(texture_size, format_size as int, origin, size, pixels@.len() as int) {
                Some(error) => result == Err::<(), Error>(error) && final(texture)@ == old(texture)@,
                None => result == Ok::<(), Error>(()) && final(texture)@ == written(
                    old(texture)@,
                    texture_size.width as int,
                    format_size as int,
                    origin,
                    size,
                    pixels@,
                ),
            },
    {
        match check_write(texture_size, format_size, origin, size, pixels.len()) {
            Ok(()) => {},
            Err(error) => {
                return Err(error);
            },
        }
        let ghost before = texture@;
        let bytes = format_size as usize;
        let texture_width = texture_size.width as usize;
        let (left, top) = (origin.x as usize, origin.y as usize);
        let (width, height) = (size.width as usize, size.height as usize);
        assert(texture.len() <= usize::MAX && pixels.len() <= usize::MAX);
        assert(before.len() == bytes * texture_width * texture_size.height) by (nonlinear_arith)
            requires
                before.len() == region_bytes(format_size as int, texture_size),
                texture_size.depth == 1,
                bytes == format_size,
                texture_width == texture_size.width,
        ;
        assert(pixels@.len() >= bytes * width * height) by (nonlinear_arith)
            requires
                pixels@.len() >= region_bytes(format_size as int, size),
                size.depth == 1,
                bytes == format_size,
                width == size.width,
                height == size.height,
        ;
        let mut row: usize = 0;
        while row < height
            invariant
                row <= height,
                texture@ =~= written_upto(
                    before,
                    texture_width as int,
                    bytes as int,
                    origin,
                    size,
                    pixels@,
                    row as int,
                    0,
                    0,
                ),
            decreases height - row,
        {
            let mut col: usize = 0;
            while col < width
                invariant
                    row < height,
                    col <= width,
                    texture@ =~= written_upto(
                        before,
                        texture_width as int,
                        bytes as int,
                        origin,
                        size,
                        pixels@,
                        row as int,
                        col as int,
                        0,
                    ),
                decreases width - col,
            {
                proof {
                    lemma_texel_in_texture(
                        texture_width as int,
                        texture_size.height as int,
                        bytes as int,
                        left + col,
                        top + row,
                        0,
                    );
                    lemma_texel_in_texture(
                        width as int,
                        height as int,
                        bytes as int,
                        col as int,
                        row as int,
                        0,
                    );
                }
                let target = ((top + row) * texture_width + (left + col)) * bytes;
                let source = (row * width + col) * bytes;
                let mut byte: usize = 0;
                while byte < bytes
                    invariant
                        row < height,
                        col < width,
                        byte <= bytes,
                        texture@ =~= written_upto(
                            before,
                            texture_width as int,
                            bytes as int,
                            origin,
                            size,
                            pixels@,
                            row as int,
                            col as int,
                            byte as int,
                        ),
                    decreases bytes - byte,
                {
                    proof {
                        lemma_texel_in_texture(
                            texture_width as int,
                            texture_size.height as int,
                            bytes as int,
                            left + col,
                            top + row,
                            byte as int,
                        );
                        lemma_texel_in_texture(
                            width as int,
                            height as int,
                            bytes as int,
                            col as int,
                            row as int,
                            byte as int,
                        );
                        lemma_texel_coords(
                            texture_width as int,
                            bytes as int,
                            left + col,
                            top + row,
                            byte as int,
                        );
                    }
                    texture[target + byte] = pixels[source + byte];
                    proof {
                        // every other byte lies in another texel, or elsewhere in this one
                        assert forall|index: int| 0 <= index < before.len() implies texture@[index]
                            == written_upto(
                                before,
                                texture_width as int,
                                bytes as int,
                                origin,
                                size,
                                pixels@,
                                row as int,
                                col as int,
                                byte + 1,
                            )[index] by {
                            lemma_texel_index(texture_width as int, bytes as int, index);
                        }
                    }
                    byte += 1;
                }
                proof {
                    assert forall|index: int| 0 <= index < before.len() implies texture@[index]
                        == written_upto(
                            before,
                            texture_width as int,
                            bytes as int,
                            origin,
                            size,
                            pixels@,
                            row as int,
                            col + 1,
                            0,
                        )[index] by {
                        lemma_mod_bound(index, bytes as int);
                    }
                }
                col += 1;
            }
            row += 1;
        }
        assert(texture@ =~= written(
            before,
            texture_width as int,
            bytes as int,
            origin,
            size,
            pixels@,
        ));
        Ok(())
    }
}

} // verus!
