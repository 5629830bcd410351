//! What the packer takes from the `image` crate: the size of a decoded
//! picture, a blank composite, pasting one picture into the composite, and the
//! composite's bytes.
//!
//! Nothing in this file is proved. Each contract restates what the `image`
//! crate documents or plainly does, over four names: the size and the pixels
//! of a picture, and the size and the pixels of a composite.

use vstd::prelude::*;

verus! {

/// `image::DynamicImage`, a decoded picture of any pixel format. Its inside is
/// not visible to the verifier.
#[verifier::external_type_specification]
#[verifier::external_body]
pub struct ExDynamicImage(image::DynamicImage);

/// `image::ImageError`. Its inside is not visible to the verifier.
#[verifier::external_type_specification]
#[verifier::external_body]
pub struct ExImageError(image::ImageError);

/// The composite image while it is put together: an `image::RgbaImage`, that
/// is an `ImageBuffer` of 8-bit RGBA pixels over a `Vec<u8>`. The buffer type
/// is bounded by a trait of the `image` crate and cannot be declared to the
/// verifier, so it is held here and spoken of through `canvas_size` and
/// `canvas_pixels`.
#[verifier::external_body]
pub struct Canvas {
    buffer: image::RgbaImage,
}

/// Width and height of a picture, as `GenericImageView::dimensions` reports
/// them.
pub uninterp spec fn image_size(picture: image::DynamicImage) -> (u32, u32);

/// The pixels of a picture: at `(x, y)`, counted from the top left, the red,
/// green, blue and alpha channels that `GenericImageView::get_pixel` reports
/// for a `DynamicImage`.
pub uninterp spec fn image_pixels(picture: image::DynamicImage) -> Map<(u32, u32), Seq<u8>>;

/// Width and height of a composite.
pub uninterp spec fn canvas_size(canvas: Canvas) -> (u32, u32);

/// The pixels of a composite: at `(x, y)`, counted from the top left, its red,
/// green, blue and alpha channels.
pub uninterp spec fn canvas_pixels(canvas: Canvas) -> Map<(u32, u32), Seq<u8>>;

/// A pixel whose four channels are zero.
pub open spec fn blank_pixel() -> Seq<u8> {
    seq![0u8, 0u8, 0u8, 0u8]
}

/// Whether a picture of size `size` placed with its top left corner at
/// `(x, y)` covers the pixel `(i, j)`.
pub open spec fn covers(size: (u32, u32), x: u32, y: u32, i: u32, j: u32) -> bool {
    x <= i < x + size.0 && y <= j < y + size.1
}

/// Where channel `channel` of pixel `(x, y)` lies among the bytes of an RGBA
/// image `width` pixels wide: rows follow one another from the top, pixels
/// within a row from the left, four bytes each.
pub open spec fn texel_index(width: u32, x: u32, y: u32, channel: int) -> int {
    4 * (y * width + x) + channel
}

/// Calls `GenericImageView::dimensions` on a `DynamicImage`. Claims only that
/// the answer is the picture's size under its name.
#[verifier::external_body]
pub(crate) fn dimensions_of(picture: &image::DynamicImage) -> (size: (u32, u32))
    ensures
        size == image_size(*picture),
{
    image::GenericImageView::dimensions(picture)
}

/// Whether an RGBA image of `width` by `height` pixels can be held in one
/// buffer: the bytes of a row can be counted in a `usize`, and all its bytes
/// together are no more than a vector can hold.
pub open spec fn fits_a_buffer(width: u32, height: u32) -> bool {
    4 * width <= usize::MAX && 4 * width * height <= isize::MAX
}

/// Calls `ImageBuffer::new`, which panics when the byte length of the buffer,
/// computed as four times the width and then times the height, overflows
/// `usize` at either step; the vector it then makes cannot be longer than
/// `isize::MAX`. Claims what its documentation says: the buffer has the size
/// asked for and every pixel in it is zero.
#[verifier::external_body]
pub(crate) fn blank_canvas(width: u32, height: u32) -> (canvas: Canvas)
    requires
        fits_a_buffer(width, height),
    ensures
        canvas_size(canvas) == (width, height),
        forall|i: u32, j: u32|
            i < width && j < height ==> #[trigger] canvas_pixels(canvas)[(i, j)] == blank_pixel(),
{
    Canvas { buffer: image::ImageBuffer::new(width, height) }
}

/// Calls `GenericImage::copy_from` on the composite with a `DynamicImage` as
/// the source. Claims what its source shows: the call fails exactly when the
/// picture, placed with its top left corner at `(x, y)`, does not lie within
/// the composite, and then changes nothing; otherwise every pixel the picture
/// covers becomes the picture's pixel, and every other pixel stays. The size
/// never changes.
#[verifier::external_body]
pub(crate) fn paste(canvas: &mut Canvas, picture: &image::DynamicImage, x: u32, y: u32) -> (done:
    Result<(), image::ImageError>)
    ensures
        canvas_size(*final(canvas)) == canvas_size(*old(canvas)),
        done is Ok <==> x + image_size(*picture).0 <= canvas_size(*old(canvas)).0 && y
            + image_size(*picture).1 <= canvas_size(*old(canvas)).1,
        done is Err ==> canvas_pixels(*final(canvas)) == canvas_pixels(*old(canvas)),
        done is Ok ==> forall|i: u32, j: u32|
            i < canvas_size(*old(canvas)).0 && j < canvas_size(*old(canvas)).1
                ==> #[trigger] canvas_pixels(*final(canvas))[(i, j)] == if covers(
                image_size(*picture),
                x,
                y,
                i,
                j,
            ) {
                image_pixels(*picture)[((i - x) as u32, (j - y) as u32)]
            } else {
                canvas_pixels(*old(canvas))[(i, j)]
            },
{
    image::GenericImage::copy_from(&mut canvas.buffer, picture, x, y)
}

/// Calls `ImageBuffer::into_raw`. Claims what the buffer's layout is: four
/// bytes for each pixel, rows from the top and pixels from the left.
#[verifier::external_body]
pub(crate) fn into_bytes(canvas: Canvas) -> (bytes: Vec<u8>)
    ensures
        bytes.len() == 4 * canvas_size(canvas).0 * canvas_size(canvas).1,
        forall|x: u32, y: u32, channel: int|
            x < canvas_size(canvas).0 && y < canvas_size(canvas).1 && 0 <= channel < 4
                ==> #[trigger] bytes[texel_index(canvas_size(canvas).0, x, y, channel)]
                == canvas_pixels(canvas)[(x, y)][channel],
{
    canvas.buffer.into_raw()
}

} // verus!
