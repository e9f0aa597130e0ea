//! Texture assets: from encoded image bytes to pixel data in the row order
//! that the GPU expects.
//!
//! Decoders hand out rows from the top of the image down; a texture's first
//! row is its bottom one. Preparing a texture is therefore decoding, checking
//! the buffer against the dimensions, and reversing the order of the rows.

use vstd::prelude::*;
use crate::jpeg::{finds_unsupported_frame, holds_unsupported_frame};

verus! {

/// The encodings of the texture assets.
#[derive(Clone, Copy, Debug, PartialEq, Eq, Structural)]
pub enum TextureFormat {
    Jpeg,
    Png,
}

/// Why no texture could be made.
#[derive(Clone, Copy, Debug, PartialEq, Eq, Structural)]
pub enum TextureError {
    /// The bytes are not an image in the stated format.
    Undecodable,
    /// The image has no pixels.
    Empty,
    /// The pixel buffer does not hold four bytes for each pixel.
    SizeMismatch,
    /// The bytes may hold a JPEG frame that is not decoded: one that is too
    /// tall or too wide, or a lossless one with samples of an odd width.
    Unsupported,
}

/// A decoded image: RGBA, one byte per channel, rows from the top down.
#[derive(Debug)]
pub struct Bitmap {
    pub width: u32,
    pub height: u32,
    pub data: Vec<u8>,
}

/// Pixel data ready for upload: RGBA, one byte per channel, rows from the
/// bottom up.
#[derive(Debug)]
pub struct TextureData {
    pub width: u32,
    pub height: u32,
    pub pixels: Vec<u8>,
}

/// The bytes of one row of `width` RGBA pixels.
pub open spec fn row_bytes(width: u32) -> nat {
    (4 * width) as nat
}

/// The bytes of a `width` by `height` RGBA image.
pub open spec fn image_bytes(width: u32, height: u32) -> nat {
    (4 * width * height) as nat
}

/// Where channel `channel` of the pixel in column `x` of row `y` lies.
pub open spec fn texel_index(width: u32, x: int, y: int, channel: int) -> int {
    (y * width + x) * 4 + channel
}

/// `data` cut into rows of `row` bytes, with the rows in reverse order. If the
/// length is no multiple of `row`, the short row is the last one of `data` and
/// so the first one of the result.
pub open spec fn rows_reversed(data: Seq<u8>, row: nat) -> Seq<u8>
    decreases data.len(),
{
    if row == 0 || data.len() <= row {
        data
    } else {
        rows_reversed(data.skip(row as int), row) + data.take(row as int)
    }
}

impl Bitmap {
    /// The dimensions are positive and the buffer holds exactly the pixels.
    pub open spec fn wf(&self) -> bool {
        &&& self.width > 0
        &&& self.height > 0
        &&& self.data@.len() == image_bytes(self.width, self.height)
    }
}

impl TextureData {
    /// The dimensions are positive and the buffer holds exactly the pixels,
    /// which is what the GPU layer asks of data it uploads.
    pub open spec fn wf(&self) -> bool {
        &&& self.width > 0
        &&& self.height > 0
        &&& self.pixels@.len() == image_bytes(self.width, self.height)
    }

    /// Whether this is `bitmap` turned upside down.
    pub open spec fn is_flipped(&self, bitmap: Bitmap) -> bool {
        &&& self.width == bitmap.width
        &&& self.height == bitmap.height
        &&& self.pixels@ == rows_reversed(bitmap.data@, row_bytes(bitmap.width))
    }

    /// Turns a decoded image into texture data by reversing its rows. An image
    /// without pixels is refused, and so is one whose buffer does not match
    /// its dimensions.
    pub fn from_bitmap(bitmap: Bitmap) -> (made: Result<TextureData, TextureError>)
        ensures
            match made {
                Ok(texture) => bitmap.wf() && texture.wf() && texture.is_flipped(bitmap),
                Err(TextureError::Empty) => bitmap.width == 0 || bitmap.height == 0,
                Err(TextureError::SizeMismatch) => {
                    &&& bitmap.width > 0
                    &&& bitmap.height > 0
                    &&& bitmap.data@.len() != image_bytes(bitmap.width, bitmap.height)
                },
                Err(TextureError::Undecodable) => false,
                Err(TextureError::Unsupported) => false,
            },
    {
        if bitmap.width == 0 || bitmap.height == 0 {
            return Err(TextureError::Empty);
        }
        if !holds_image(&bitmap.data, bitmap.width, bitmap.height) {
            return Err(TextureError::SizeMismatch);
        }
        proof {
            lemma_row_fits(bitmap.width, bitmap.height);
            assert(bitmap.data@.len() == bitmap.data.len());
        }
        let pixels = reverse_rgba_rows(bitmap.data.as_slice(), bitmap.width, bitmap.height);
        proof {
            lemma_rows_reversed_len(bitmap.data@, row_bytes(bitmap.width));
        }
        Ok(TextureData { width: bitmap.width, height: bitmap.height, pixels })
    }
}

/// Decodes `bytes` as an image in `format` and prepares it for upload.
///
/// A JPEG stream that may hold a frame which is not decoded, as
/// [`holds_unsupported_frame`] says, is refused before any decoding.
/// Everything else is left to the image codecs, and what they make
/// of given bytes may differ from one machine to the next for a lossy format,
/// so nothing is said of the pixels. Whatever the codecs hand out goes through
/// [`TextureData::from_bitmap`]: a texture that comes back is well formed, and
/// any other failure means that the bytes did not decode or that the image is
/// empty.
pub fn load_texture(bytes: &[u8], format: TextureFormat) -> (loaded: Result<
    TextureData,
    TextureError,
>)
    ensures
        is_refused(bytes@, format) <==> (loaded matches Err(error) && error
            == TextureError::Unsupported),
        loaded matches Ok(texture) ==> texture.wf(),
        loaded matches Err(error) ==> error != TextureError::SizeMismatch,
{
    if is_jpeg(format) && finds_unsupported_frame(bytes) {
        return Err(TextureError::Unsupported);
    }
    match decode(bytes, format) {
        Ok(image) => TextureData::from_bitmap(to_rgba8(&image)),
        Err(_) => Err(TextureError::Undecodable),
    }
}

/// The inputs that [`load_texture`] does not hand to a codec.
pub open spec fn is_refused(bytes: Seq<u8>, format: TextureFormat) -> bool {
    format == TextureFormat::Jpeg && holds_unsupported_frame(bytes)
}

fn is_jpeg(format: TextureFormat) -> (jpeg: bool)
    ensures
        jpeg == (format == TextureFormat::Jpeg),
{
    match format {
        TextureFormat::Jpeg => true,
        TextureFormat::Png => false,
    }
}

/// Whether `data` holds exactly four bytes for each pixel of a `width` by
/// `height` image.
pub fn holds_image(data: &Vec<u8>, width: u32, height: u32) -> (fits: bool)
    ensures
        fits == (data@.len() == image_bytes(width, height)),
{
    let w: u64 = width as u64;
    let h: u64 = height as u64;
    assert(w * h <= 0xffff_ffff * 0xffff_ffff) by (nonlinear_arith)
        requires
            w <= 0xffff_ffff,
            h <= 0xffff_ffff,
    ;
    let texels: u64 = w * h;
    let len: u64 = data.len() as u64;
    assert(4 * width * height == 4 * (w * h)) by (nonlinear_arith)
        requires
            w == width,
            h == height,
    ;
    len % 4 == 0 && len / 4 == texels
}

/// A row of an image that fits in memory fits in memory.
proof fn lemma_row_fits(width: u32, height: u32)
    requires
        height > 0,
    ensures
        row_bytes(width) <= image_bytes(width, height),
{
    assert(4 * width <= 4 * width * height) by (nonlinear_arith)
        requires
            height >= 1,
    ;
}

/// Reversing the rows keeps the length.
pub proof fn lemma_rows_reversed_len(data: Seq<u8>, row: nat)
    ensures
        rows_reversed(data, row).len() == data.len(),
    decreases data.len(),
{
    if row != 0 && data.len() > row {
        lemma_rows_reversed_len(data.skip(row as int), row);
    }
}

/// Where the bytes go when whole rows are reversed: byte `i` of row `y` of the
/// result is byte `i` of row `rows - 1 - y` of `data`.
pub proof fn lemma_rows_reversed_index(data: Seq<u8>, row: nat, rows: nat, y: int, i: int)
    requires
        row > 0,
        data.len() == row * rows,
        0 <= y < rows,
        0 <= i < row,
    ensures
        0 <= y * row + i < data.len(),
        0 <= (rows - 1 - y) * row + i < data.len(),
        rows_reversed(data, row).len() == data.len(),
        rows_reversed(data, row)[y * row + i] == data[(rows - 1 - y) * row + i],
    decreases rows,
{
    lemma_rows_reversed_len(data, row);
    assert(0 <= y * row + i < row * rows && 0 <= (rows - 1 - y) * row + i < row * rows)
        by (nonlinear_arith)
        requires
            0 <= y < rows,
            0 <= i < row,
    ;
    if rows == 1 {
        assert(data.len() == row) by (nonlinear_arith)
            requires
                data.len() == row * rows,
                rows == 1,
        ;
    } else {
        assert(data.len() == row + row * (rows - 1) && row * (rows - 1) >= row)
            by (nonlinear_arith)
            requires
                data.len() == row * rows,
                rows >= 2,
        ;
        let tail = data.skip(row as int);
        let head = data.take(row as int);
        lemma_rows_reversed_len(tail, row);
        assert(rows_reversed(data, row) == rows_reversed(tail, row) + head);
        if y < rows - 1 {
            lemma_rows_reversed_index(tail, row, (rows - 1) as nat, y, i);
            assert((rows - 1 - y) * row + i == row + (rows - 2 - y) * row + i)
                by (nonlinear_arith);
            assert(tail[(rows - 2 - y) * row + i] == data[row + (rows - 2 - y) * row + i]);
        } else {
            assert(y * row + i == row * (rows - 1) + i && (rows - 1 - y) * row + i == i)
                by (nonlinear_arith)
                requires
                    y == rows - 1,
            ;
            assert(head[i] == data[i]);
        }
    }
}

/// Reversing the rows of a whole image twice gives the image back.
pub proof fn lemma_rows_reversed_twice(data: Seq<u8>, row: nat, rows: nat)
    requires
        row > 0,
        data.len() == row * rows,
    ensures
        rows_reversed(rows_reversed(data, row), row) == data,
{
    let once = rows_reversed(data, row);
    let twice = rows_reversed(once, row);
    lemma_rows_reversed_len(data, row);
    lemma_rows_reversed_len(once, row);
    assert forall|j: int| 0 <= j < data.len() implies twice[j] == data[j] by {
        let y = j / (row as int);
        let i = j % (row as int);
        assert(j == y * row + i && 0 <= i < row && 0 <= y < rows) by (nonlinear_arith)
            requires
                y == j / (row as int),
                i == j % (row as int),
                row > 0,
                0 <= j < row * rows,
        ;
        lemma_rows_reversed_index(once, row, rows, y, i);
        lemma_rows_reversed_index(data, row, rows, rows - 1 - y, i);
    }
    assert(twice =~= data);
}

/// A texture made from a bitmap shows the bitmap upside down: the pixel in
/// column `x` of row `y` of the texture is the pixel in column `x` of row
/// `height - 1 - y` of the bitmap, channel for channel.
pub proof fn lemma_flipped_texel(texture: TextureData, bitmap: Bitmap, x: int, y: int, channel: int)
    requires
        bitmap.wf(),
        texture.is_flipped(bitmap),
        0 <= x < bitmap.width,
        0 <= y < bitmap.height,
        0 <= channel < 4,
    ensures
        0 <= texel_index(bitmap.width, x, y, channel) < texture.pixels@.len(),
        0 <= texel_index(bitmap.width, x, bitmap.height - 1 - y, channel) < bitmap.data@.len(),
        texture.pixels@[texel_index(bitmap.width, x, y, channel)] == bitmap.data@[texel_index(
            bitmap.width,
            x,
            bitmap.height - 1 - y,
            channel,
        )],
{
    let row = row_bytes(bitmap.width);
    let rows = bitmap.height as nat;
    let i = 4 * x + channel;
    assert(bitmap.data@.len() == row * rows) by (nonlinear_arith)
        requires
            bitmap.data@.len() == 4 * bitmap.width * bitmap.height,
            row == 4 * bitmap.width,
            rows == bitmap.height,
    ;
    lemma_rows_reversed_index(bitmap.data@, row, rows, y, i);
    assert(texel_index(bitmap.width, x, y, channel) == y * row + i) by (nonlinear_arith)
        requires
            row == 4 * bitmap.width,
            i == 4 * x + channel,
    ;
    assert(texel_index(bitmap.width, x, bitmap.height - 1 - y, channel) == (rows - 1 - y) * row
        + i) by (nonlinear_arith)
        requires
            row == 4 * bitmap.width,
            i == 4 * x + channel,
            rows == bitmap.height,
    ;
}

/// A decoded image of the `image` crate, in whichever pixel layout the file
/// had. Nothing is read from it but through [`to_rgba8`].
#[verifier::external_type_specification]
#[verifier::external_body]
pub struct ExDynamicImage(image::DynamicImage);

/// The error of the `image` crate's decoders. Nothing is read from it.
#[verifier::external_type_specification]
#[verifier::external_body]
pub struct ExImageError(image::ImageError);

/// Calls `image::load` on the bytes. Nothing is claimed of the outcome:
/// whether the bytes decode, and to what, is the codecs' business.
///
/// The JPEG codec behind it panics on two kinds of frame. On a lossless frame
/// whose samples are neither eight bits wide nor, in a single component, nine
/// to sixteen, it hands out a buffer of another size than it announced. On a
/// frame taller or wider than 65528 pixels it counts blocks of eight in
/// sixteen bits and runs over. So no stream that could bring it to such a
/// frame is handed over, and this is why none can:
/// - It gives up unless the stream opens with the start-of-image marker.
/// - It reads a marker only as a byte of all ones, any number of further
///   such bytes, and the code, so every marker it reads ends in two adjacent
///   bytes of that form.
/// - It passes over an application, comment, table or restart-interval
///   segment by exactly the length that the segment states, or gives up.
/// - It decodes the first frame whose header it reads and gives up at a
///   second one, and it gives up at a header that the stream does not hold
///   in full, at a height or width of zero, and at a frame that is
///   differential or arithmetic-coded.
#[verifier::external_body]
fn decode(bytes: &[u8], format: TextureFormat) -> (decoded: Result<
    image::DynamicImage,
    image::ImageError,
>)
    requires
        !is_refused(bytes@, format),
{
    let kind = match format {
        TextureFormat::Jpeg => image::ImageFormat::Jpeg,
        TextureFormat::Png => image::ImageFormat::Png,
    };
    image::load(std::io::Cursor::new(bytes), kind)
}

/// Calls `image::DynamicImage::to_rgba8` and moves the dimensions and the
/// buffer of the result into a [`Bitmap`]. The conversion allocates a fresh
/// buffer of four values for each pixel and fills it, which is all that the
/// contract claims: the dimensions and the pixels may be anything.
#[verifier::external_body]
fn to_rgba8(image: &image::DynamicImage) -> (bitmap: Bitmap)
    ensures
        bitmap.data@.len() == image_bytes(bitmap.width, bitmap.height),
{
    let rgba = image.to_rgba8();
    let (width, height) = rgba.dimensions();
    Bitmap { width, height, data: rgba.into_raw() }
}

/// Calls `glium::texture::RawImage2d::from_raw_rgba_reversed` and takes the
/// pixel data out of the image it builds. The contract says what that function
/// computes: it cuts `data` into chunks of four times `width` values, reverses
/// the order of the chunks and joins them again. A chunk size of zero makes it
/// panic, so `width` is positive.
#[verifier::external_body]
fn reverse_rgba_rows(data: &[u8], width: u32, height: u32) -> (reversed: Vec<u8>)
    requires
        width > 0,
        row_bytes(width) <= usize::MAX,
    ensures
        reversed@ == rows_reversed(data@, row_bytes(width)),
{
    glium::texture::RawImage2d::from_raw_rgba_reversed(data, (width, height)).data.into_owned()
}

} // verus!
