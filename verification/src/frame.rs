use vstd::prelude::*;

verus! {

/// Bytes taken by one pixel: blue, green, red and alpha, one byte each.
pub const BYTES_PER_PIXEL: u32 = 4;

/// The identity of a GPU resource, as the platform gives it.
#[derive(Clone, Copy, PartialEq, Eq, Debug, Structural)]
pub struct ResourceHandle(pub isize);

/// How the GPU and the CPU may use a texture.
#[derive(Clone, Copy, PartialEq, Eq, Debug, Structural)]
pub enum TextureUsage {
    Default,
    Immutable,
    Dynamic,
    Staging,
}

/// The description from which a 2D texture is created.
#[derive(Clone, Copy, PartialEq, Eq, Debug, Structural)]
pub struct TextureDesc {
    pub width: u32,
    pub height: u32,
    pub mip_levels: u32,
    pub array_size: u32,
    pub format: u32,
    pub sample_count: u32,
    pub sample_quality: u32,
    pub usage: TextureUsage,
    pub bind_flags: u32,
    pub cpu_read: bool,
    pub cpu_write: bool,
    pub misc_flags: u32,
}

/// One pixel in the capture format's byte order.
#[derive(Clone, Copy, PartialEq, Eq, Debug, Structural)]
pub struct Bgra {
    pub blue: u8,
    pub green: u8,
    pub red: u8,
    pub alpha: u8,
}

/// What a successful extraction hands to the consumer: the mapped resource,
/// to be released once, and the layout of the bytes behind it.
#[derive(Clone, Copy, PartialEq, Eq, Debug, Structural)]
pub struct FrameContent {
    pub resource: ResourceHandle,
    pub width: u32,
    pub height: u32,
    pub row_pitch: u32,
}

/// What the device context reports of a staging texture that it mapped for
/// reading.
#[derive(Clone, Copy, PartialEq, Eq, Debug, Structural)]
pub struct MappedResource {
    pub resource: ResourceHandle,
    pub row_pitch: u32,
}

/// A view of a mapped frame: `height` rows of `row_pitch` bytes each, of
/// which the first `4 * width` hold pixels and the rest is padding.
#[derive(Debug)]
pub struct PixelBuffer<'a> {
    bytes: &'a [u8],
    width: u32,
    height: u32,
    row_pitch: u32,
}

pub ghost struct PixelBufferView {
    pub bytes: Seq<u8>,
    pub width: u32,
    pub height: u32,
    pub row_pitch: u32,
}

/// The description of the staging copy of a texture described by `source`:
/// the same texture, but bound to no pipeline stage, with no miscellaneous
/// flag, and for the CPU to read only.
pub open spec fn staging_of(source: TextureDesc) -> TextureDesc {
    TextureDesc {
        usage: TextureUsage::Staging,
        bind_flags: 0,
        cpu_read: true,
        cpu_write: false,
        misc_flags: 0,
        ..source
    }
}

/// The number of bytes behind a mapping of `height` rows.
pub open spec fn mapped_len(height: u32, row_pitch: u32) -> int {
    height as int * row_pitch as int
}

/// Whether `len` bytes in rows of `row_pitch` hold a frame of the given size.
pub open spec fn layout_fits(len: int, width: u32, height: u32, row_pitch: u32) -> bool {
    row_pitch as int >= BYTES_PER_PIXEL as int * width as int && len == mapped_len(
        height,
        row_pitch,
    )
}

/// Where the pixel in column `x` of row `y` starts.
pub open spec fn pixel_offset(row_pitch: u32, x: int, y: int) -> int {
    y * row_pitch as int + BYTES_PER_PIXEL as int * x
}

/// The pixel in column `x` of row `y` of a mapped frame.
pub open spec fn pixel_at(bytes: Seq<u8>, row_pitch: u32, x: int, y: int) -> Bgra {
    let at = pixel_offset(row_pitch, x, y);
    Bgra { blue: bytes[at], green: bytes[at + 1], red: bytes[at + 2], alpha: bytes[at + 3] }
}

/// The byte number `channel` of a pixel, counted in the order in memory.
pub open spec fn channel_of(color: Bgra, channel: int) -> u8 {
    if channel == 0 {
        color.blue
    } else if channel == 1 {
        color.green
    } else if channel == 2 {
        color.red
    } else {
        color.alpha
    }
}

/// The bytes of a frame that shows `color` in every pixel, with `padding`
/// in every byte between the end of a row's pixels and the next row.
pub open spec fn solid_frame(
    width: u32,
    height: u32,
    row_pitch: u32,
    color: Bgra,
    padding: u8,
) -> Seq<u8> {
    Seq::new(
        mapped_len(height, row_pitch) as nat,
        |i: int|
            if i % (row_pitch as int) < BYTES_PER_PIXEL as int * width as int {
                channel_of(color, (i % (row_pitch as int)) % (BYTES_PER_PIXEL as int))
            } else {
                padding
            },
    )
}

proof fn lemma_pixel_in_bounds(width: u32, height: u32, row_pitch: u32, x: int, y: int)
    requires
        row_pitch as int >= BYTES_PER_PIXEL as int * width as int,
        0 <= x < width,
        0 <= y < height,
    ensures
        0 <= pixel_offset(row_pitch, x, y),
        pixel_offset(row_pitch, x, y) + 3 < mapped_len(height, row_pitch),
        pixel_offset(row_pitch, x, y) + 3 < (y + 1) * row_pitch as int,
        mapped_len(height, row_pitch) <= u64::MAX,
{
    let p = row_pitch as int;
    assert(0 <= y * p) by (nonlinear_arith)
        requires
            0 <= y,
            0 <= p,
    ;
    assert((y + 1) * p <= height as int * p) by (nonlinear_arith)
        requires
            y + 1 <= height as int,
            0 <= p,
    ;
    assert((y + 1) * p == y * p + p) by (nonlinear_arith);
    assert(height as int * p <= 0xFFFF_FFFF * 0xFFFF_FFFF) by (nonlinear_arith)
        requires
            0 <= height as int <= 0xFFFF_FFFF,
            0 <= p <= 0xFFFF_FFFF,
    ;
}

impl FrameContent {
    /// The number of bytes behind the mapping: every row, padding included.
    pub fn byte_len(&self) -> (len: u64)
        ensures
            len == mapped_len(self.height, self.row_pitch),
    {
        let rows: u64 = self.height as u64;
        let pitch: u64 = self.row_pitch as u64;
        assert(rows * pitch <= 0xFFFF_FFFF * 0xFFFF_FFFF) by (nonlinear_arith)
            requires
                0 <= rows <= 0xFFFF_FFFF,
                0 <= pitch <= 0xFFFF_FFFF,
        ;
        rows * pitch
    }
}

impl<'a> View for PixelBuffer<'a> {
    type V = PixelBufferView;

    closed spec fn view(&self) -> PixelBufferView {
        PixelBufferView {
            bytes: self.bytes@,
            width: self.width,
            height: self.height,
            row_pitch: self.row_pitch,
        }
    }
}

impl<'a> PixelBuffer<'a> {
    #[verifier::type_invariant]
    spec fn well_laid_out(&self) -> bool {
        layout_fits(self.bytes@.len() as int, self.width, self.height, self.row_pitch)
    }

    /// Lays `content` over the mapped `bytes`. There is a buffer exactly
    /// when a row has room for its pixels and the bytes are as many as the
    /// rows take.
    pub fn new(content: &FrameContent, bytes: &'a [u8]) -> (buffer: Option<PixelBuffer<'a>>)
        ensures
            buffer is Some <==> layout_fits(
                bytes@.len() as int,
                content.width,
                content.height,
                content.row_pitch,
            ),
            buffer matches Some(b) ==> b@ == (PixelBufferView {
                bytes: bytes@,
                width: content.width,
                height: content.height,
                row_pitch: content.row_pitch,
            }),
    {
        let row: u64 = content.width as u64 * 4;
        if content.row_pitch as u64 >= row && bytes.len() as u64 == content.byte_len() {
            Some(
                PixelBuffer {
                    bytes,
                    width: content.width,
                    height: content.height,
                    row_pitch: content.row_pitch,
                },
            )
        } else {
            None
        }
    }

    /// The frame's width in pixels.
    pub fn width(&self) -> (width: u32)
        ensures
            width == self@.width,
    {
        self.width
    }

    /// The frame's height in pixels.
    pub fn height(&self) -> (height: u32)
        ensures
            height == self@.height,
    {
        self.height
    }

    /// The distance in bytes from one row's start to the next.
    pub fn row_pitch(&self) -> (row_pitch: u32)
        ensures
            row_pitch == self@.row_pitch,
    {
        self.row_pitch
    }

    /// The pixel in column `x` of row `y`, read at the row's pitch; `None`
    /// outside the frame.
    pub fn pixel(&self, x: u32, y: u32) -> (pixel: Option<Bgra>)
        ensures
            layout_fits(self@.bytes.len() as int, self@.width, self@.height, self@.row_pitch),
            pixel == if x < self@.width && y < self@.height {
                Some(pixel_at(self@.bytes, self@.row_pitch, x as int, y as int))
            } else {
                None
            },
    {
        proof {
            use_type_invariant(self);
        }
        if x >= self.width || y >= self.height {
            return None;
        }
        proof {
            lemma_pixel_in_bounds(self.width, self.height, self.row_pitch, x as int, y as int);
        }
        let start: u64 = y as u64 * self.row_pitch as u64 + 4 * x as u64;
        let at: usize = start as usize;
        Some(
            Bgra {
                blue: self.bytes[at],
                green: self.bytes[at + 1],
                red: self.bytes[at + 2],
                alpha: self.bytes[at + 3],
            },
        )
    }
}

/// Padding never shows: in a frame that was filled with one colour, every
/// pixel reads back as that colour, whatever the pitch and whatever the
/// padding bytes hold.
pub proof fn lemma_solid_frame_reads_back(
    width: u32,
    height: u32,
    row_pitch: u32,
    color: Bgra,
    padding: u8,
    x: int,
    y: int,
)
    requires
        row_pitch as int >= BYTES_PER_PIXEL as int * width as int,
        0 <= x < width,
        0 <= y < height,
    ensures
        pixel_at(solid_frame(width, height, row_pitch, color, padding), row_pitch, x, y) == color,
{
    let p = row_pitch as int;
    let at = pixel_offset(row_pitch, x, y);
    lemma_pixel_in_bounds(width, height, row_pitch, x, y);
    assert forall|k: int| 0 <= k < 4 implies (#[trigger] (at + k)) % p == 4 * x + k by {
        vstd::arithmetic::div_mod::lemma_fundamental_div_mod_converse(at + k, p, y, 4 * x + k);
    }
    assert((at + 0) % p == 4 * x + 0);
    assert((at + 1) % p == 4 * x + 1);
    assert((at + 2) % p == 4 * x + 2);
    assert((at + 3) % p == 4 * x + 3);
}

} // verus!
