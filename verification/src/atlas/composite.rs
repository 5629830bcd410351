//! Generating an atlas from decoded pictures: the manifest and the composite
//! image.

use vstd::prelude::*;
use vstd::pervasive::unreached;
use crate::atlas::imaging::{
    blank_canvas, blank_pixel, canvas_pixels, canvas_size, covers, dimensions_of, fits_a_buffer,
    image_pixels, image_size, into_bytes, paste, texel_index, Canvas,
};
use crate::atlas::layout::{
    lemma_offset_step, lemma_source_within, max_height, offset_of, packed, packed_entry,
    total_width,
};
use crate::atlas::manifest::UiAtlas;

verus! {

/// Why an atlas could not be generated.
#[derive(Clone, Copy, Debug, PartialEq, Eq, Hash, Structural)]
pub enum AtlasError {
    /// The widths of the images together exceed `u32::MAX`.
    TooWide,
    /// The widths fit, but the composite image does not fit a buffer.
    TooLarge,
}

/// Name, width and height of each picture, in the order given.
pub open spec fn sources_of(images: Seq<(image::DynamicImage, String)>) -> Seq<
    (Seq<char>, u32, u32),
> {
    Seq::new(
        images.len(),
        |k: int| (images[k].1@, image_size(images[k].0).0, image_size(images[k].0).1),
    )
}

/// Whether the RGBA bytes `bytes` of an image `width` pixels wide show
/// `picture` with its top left corner in column `x_start` of the top row.
pub open spec fn shows(bytes: Seq<u8>, width: u32, picture: image::DynamicImage, x_start: u32) -> bool {
    forall|x: u32, y: u32, channel: int|
        x < image_size(picture).0 && y < image_size(picture).1 && 0 <= channel < 4
            ==> bytes[texel_index(width, (x_start + x) as u32, y, channel)]
            == #[trigger] image_pixels(picture)[(x, y)][channel]
}

/// Whether one of `images`, each placed in the top row at the column where it
/// starts, covers the pixel `(x, y)`.
pub open spec fn covered(images: Seq<(image::DynamicImage, String)>, x: u32, y: u32) -> bool {
    exists|k: int|
        0 <= k < images.len() && #[trigger] covers(
            image_size(images[k].0),
            offset_of(sources_of(images), k) as u32,
            0,
            x,
            y,
        )
}

/// The pixel at `(x, y)` of a blank composite after the first `count` of
/// `images` were pasted in turn, each in the top row at the column where it
/// starts.
spec fn pasted(images: Seq<(image::DynamicImage, String)>, count: int, x: u32, y: u32) -> Seq<u8>
    decreases count,
{
    if count <= 0 {
        blank_pixel()
    } else if covers(
        image_size(images[count - 1].0),
        offset_of(sources_of(images), count - 1) as u32,
        0,
        x,
        y,
    ) {
        image_pixels(images[count - 1].0)[(
            (x - offset_of(sources_of(images), count - 1) as u32) as u32,
            y,
        )]
    } else {
        pasted(images, count - 1, x, y)
    }
}

/// A later source starts where an earlier one has ended, or further right.
proof fn lemma_offsets_ordered(sources: Seq<(Seq<char>, u32, u32)>, i: int, j: int)
    requires
        0 <= i < j < sources.len(),
    ensures
        offset_of(sources, i) + sources[i].1 <= offset_of(sources, j),
    decreases j - i,
{
    lemma_offset_step(sources, i);
    if i + 1 < j {
        lemma_offsets_ordered(sources, i + 1, j);
    }
}

/// Pasting later pictures leaves what picture `k` has painted.
proof fn lemma_pasted_keeps(
    images: Seq<(image::DynamicImage, String)>,
    count: int,
    k: int,
    x: u32,
    y: u32,
)
    requires
        0 <= k < count <= images.len(),
        total_width(sources_of(images)) <= u32::MAX,
        x < image_size(images[k].0).0,
        y < image_size(images[k].0).1,
    ensures
        pasted(images, count, (offset_of(sources_of(images), k) + x) as u32, y) == image_pixels(
            images[k].0,
        )[(x, y)],
    decreases count,
{
    let sources = sources_of(images);
    lemma_source_within(sources, k);
    lemma_source_within(sources, count - 1);
    if k < count - 1 {
        lemma_offsets_ordered(sources, k, count - 1);
        lemma_pasted_keeps(images, count - 1, k, x, y);
    }
}

/// Where no picture was pasted the composite is still blank.
proof fn lemma_pasted_blank(images: Seq<(image::DynamicImage, String)>, count: int, x: u32, y: u32)
    requires
        0 <= count <= images.len(),
        !covered(images, x, y),
    ensures
        pasted(images, count, x, y) == blank_pixel(),
    decreases count,
{
    if count > 0 {
        assert(!covers(
            image_size(images[count - 1].0),
            offset_of(sources_of(images), count - 1) as u32,
            0,
            x,
            y,
        ));
        lemma_pasted_blank(images, count - 1, x, y);
    }
}

/// Reads off the name, width and height of each picture.
fn measure(images: &Vec<(image::DynamicImage, String)>) -> (items: Vec<(String, u32, u32)>)
    ensures
        items.deep_view() == sources_of(images@),
{
    let ghost sources = sources_of(images@);
    let mut items: Vec<(String, u32, u32)> = Vec::new();
    let mut i: usize = 0;
    while i < images.len()
        invariant
            i <= images.len(),
            sources == sources_of(images@),
            items.len() == i,
            forall|j: int|
                0 <= j < i ==> (#[trigger] items[j]).0@ == sources[j].0 && items[j].1
                    == sources[j].1 && items[j].2 == sources[j].2,
        decreases images.len() - i,
    {
        let size = dimensions_of(&images[i].0);
        items.push((images[i].1.clone(), size.0, size.1));
        i += 1;
    }
    assert(items.deep_view() =~= sources);
    items
}

/// Pastes each picture into a blank composite of `width` by `height` pixels,
/// at the column where it starts.
fn composite(images: &Vec<(image::DynamicImage, String)>, atlas_data: &UiAtlas) -> (atlas:
    Canvas)
    requires
        total_width(sources_of(images@)) <= u32::MAX,
        atlas_data@ == packed(sources_of(images@)),
        fits_a_buffer(atlas_data.width, atlas_data.height),
    ensures
        canvas_size(atlas) == (atlas_data.width, atlas_data.height),
        forall|x: u32, y: u32|
            x < atlas_data.width && y < atlas_data.height ==> #[trigger] canvas_pixels(atlas)[(
                x,
                y,
            )] == pasted(images@, images.len() as int, x, y),
{
    let ghost sources = sources_of(images@);
    let width = atlas_data.width;
    let height = atlas_data.height;
    let mut atlas = blank_canvas(width, height);
    assert(atlas_data.entries.len() == atlas_data@.entries.len());
    let mut k: usize = 0;
    while k < images.len()
        invariant
            k <= images.len(),
            sources == sources_of(images@),
            total_width(sources) <= u32::MAX,
            atlas_data@ == packed(sources),
            width == atlas_data.width,
            height == atlas_data.height,
            atlas_data.entries.len() == images.len(),
            canvas_size(atlas) == (width, height),
            forall|x: u32, y: u32|
                x < width && y < height ==> #[trigger] canvas_pixels(atlas)[(x, y)] == pasted(
                    images@,
                    k as int,
                    x,
                    y,
                ),
        decreases images.len() - k,
    {
        proof {
            lemma_source_within(sources, k as int);
            assert(atlas_data@.entries[k as int] == packed_entry(sources, k as int));
        }
        let x_start = atlas_data.entries[k].x_start;
        let ghost before = atlas;
        match paste(&mut atlas, &images[k].0, x_start, 0) {
            Ok(()) => {},
            Err(_) => {
                return unreached();
            },
        }
        k += 1;
        proof {
            assert forall|x: u32, y: u32| x < width && y < height implies #[trigger] canvas_pixels(
                atlas,
            )[(x, y)] == pasted(images@, k as int, x, y) by {
                assert(canvas_pixels(before)[(x, y)] == pasted(images@, k - 1, x, y));
            }
        }
    }
    atlas
}

/// Generates the atlas of `images`, each a decoded picture and its name.
///
/// The pictures are laid out left to right in the order given, all in the top
/// row. The result is the manifest and the RGBA bytes of the composite image,
/// which is as wide as the pictures together and as high as the highest:
/// every picture is shown where its entry says, and what no picture covers is
/// blank. Nothing is generated where the widths together exceed `u32::MAX`, or
/// where the composite does not fit a buffer.
pub fn generate_texture_atlas(images: &Vec<(image::DynamicImage, String)>) -> (generated: Result<
    (UiAtlas, Vec<u8>),
    AtlasError,
>)
    ensures
        generated is Ok <==> total_width(sources_of(images@)) <= u32::MAX && fits_a_buffer(
            total_width(sources_of(images@)) as u32,
            max_height(sources_of(images@)),
        ),
        generated == Err::<(UiAtlas, Vec<u8>), AtlasError>(AtlasError::TooWide) <==> total_width(
            sources_of(images@),
        ) > u32::MAX,
        generated matches Ok((atlas, bytes)) ==> {
            &&& atlas@ == packed(sources_of(images@))
            &&& bytes.len() == 4 * atlas.width * atlas.height
            &&& forall|k: int|
                0 <= k < images.len() ==> shows(
                    bytes@,
                    atlas.width,
                    (#[trigger] images[k]).0,
                    offset_of(sources_of(images@), k) as u32,
                )
            &&& forall|x: u32, y: u32, channel: int|
                x < atlas.width && y < atlas.height && 0 <= channel < 4 && !covered(images@, x, y)
                    ==> #[trigger] bytes[texel_index(atlas.width, x, y, channel)] == 0
        },
{
    let ghost sources = sources_of(images@);
    let items = measure(images);
    let atlas_data = match UiAtlas::pack(&items) {
        Some(atlas_data) => atlas_data,
        None => {
            return Err(AtlasError::TooWide);
        },
    };
    let width = atlas_data.width;
    let height = atlas_data.height;
    assert(width as u64 * height as u64 <= u64::MAX) by (nonlinear_arith)
        requires
            width <= u32::MAX,
            height <= u32::MAX,
    ;
    let area: u64 = width as u64 * height as u64;
    assert(4 * width * height == 4 * area) by (nonlinear_arith)
        requires
            area == width * height,
    ;
    if 4 * (width as u64) > usize::MAX as u64 || area > (isize::MAX as u64) / 4 {
        return Err(AtlasError::TooLarge);
    }
    let atlas = composite(images, &atlas_data);
    let bytes = into_bytes(atlas);
    proof {
        assert forall|n: int| 0 <= n < images.len() implies shows(
            bytes@,
            width,
            (#[trigger] images[n]).0,
            offset_of(sources, n) as u32,
        ) by {
            lemma_shows(images@, n, bytes@, atlas);
        }
        assert forall|x: u32, y: u32, channel: int|
            x < width && y < height && 0 <= channel < 4 && !covered(
                images@,
                x,
                y,
            ) implies #[trigger] bytes[texel_index(width, x, y, channel)] == 0 by {
            lemma_pasted_blank(images@, images.len() as int, x, y);
            assert(canvas_pixels(atlas)[(x, y)] == blank_pixel());
        }
    }
    Ok((atlas_data, bytes))
}

/// The bytes of a composite on which every picture was pasted show picture
/// `n` at the column where it starts.
proof fn lemma_shows(
    images: Seq<(image::DynamicImage, String)>,
    n: int,
    bytes: Seq<u8>,
    atlas: Canvas,
)
    requires
        0 <= n < images.len(),
        total_width(sources_of(images)) <= u32::MAX,
        canvas_size(atlas).0 == total_width(sources_of(images)),
        canvas_size(atlas).1 == max_height(sources_of(images)),
        forall|x: u32, y: u32|
            x < canvas_size(atlas).0 && y < canvas_size(atlas).1 ==> #[trigger] canvas_pixels(
                atlas,
            )[(x, y)] == pasted(images, images.len() as int, x, y),
        forall|x: u32, y: u32, channel: int|
            x < canvas_size(atlas).0 && y < canvas_size(atlas).1 && 0 <= channel < 4
                ==> #[trigger] bytes[texel_index(canvas_size(atlas).0, x, y, channel)]
                == canvas_pixels(atlas)[(x, y)][channel],
    ensures
        shows(bytes, canvas_size(atlas).0, images[n].0, offset_of(sources_of(images), n) as u32),
{
    let sources = sources_of(images);
    let picture = images[n].0;
    let width = canvas_size(atlas).0;
    let x_start = offset_of(sources, n) as u32;
    lemma_source_within(sources, n);
    assert forall|x: u32, y: u32, channel: int|
        x < image_size(picture).0 && y < image_size(picture).1 && 0 <= channel
            < 4 implies bytes[texel_index(width, (x_start + x) as u32, y, channel)]
        == #[trigger] image_pixels(picture)[(x, y)][channel] by {
        lemma_pasted_keeps(images, images.len() as int, n, x, y);
        let column = (x_start + x) as u32;
        assert(canvas_pixels(atlas)[(column, y)] == pasted(images, images.len() as int, column, y));
        assert(bytes[texel_index(width, column, y, channel)] == canvas_pixels(atlas)[(
            column,
            y,
        )][channel]);
    }
}

} // verus!
