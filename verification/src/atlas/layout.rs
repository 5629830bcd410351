//! The layout of an atlas: sources side by side in the top row, in the order
//! given.

use vstd::prelude::*;
use crate::atlas::manifest::{AtlasEntry, AtlasManifest, UiAtlas, UiAtlasTexture};

verus! {

/// The sum of the widths of `sources`, each a name, a width and a height.
pub open spec fn total_width(sources: Seq<(Seq<char>, u32, u32)>) -> nat
    decreases sources.len(),
{
    if sources.len() == 0 {
        0
    } else {
        total_width(sources.drop_last()) + sources.last().1 as nat
    }
}

/// The largest height among `sources`, zero where there is none.
pub open spec fn max_height(sources: Seq<(Seq<char>, u32, u32)>) -> u32
    decreases sources.len(),
{
    if sources.len() == 0 {
        0
    } else if max_height(sources.drop_last()) >= sources.last().2 {
        max_height(sources.drop_last())
    } else {
        sources.last().2
    }
}

/// The column at which source `i` starts: the sum of the widths before it.
pub open spec fn offset_of(sources: Seq<(Seq<char>, u32, u32)>, i: int) -> nat {
    total_width(sources.take(i))
}

/// The entry of source `i` in the manifest of `sources`.
pub open spec fn packed_entry(sources: Seq<(Seq<char>, u32, u32)>, i: int) -> AtlasEntry {
    AtlasEntry::bare(
        sources[i].0,
        offset_of(sources, i) as u32,
        0,
        sources[i].1,
        sources[i].2,
    ).with_coords(total_width(sources) as u32, max_height(sources))
}

/// The manifest of `sources` packed left to right in the order given, all at
/// the top: as wide as the sources together, as high as the highest. It is
/// meant for sources whose widths together fit in a `u32`.
pub open spec fn packed(sources: Seq<(Seq<char>, u32, u32)>) -> AtlasManifest {
    AtlasManifest {
        entries: Seq::new(sources.len(), |i: int| packed_entry(sources, i)),
        width: total_width(sources) as u32,
        height: max_height(sources),
    }
}

/// The sum of the first `i + 1` widths is the sum of the first `i` and the
/// width of source `i`.
pub proof fn lemma_offset_step(sources: Seq<(Seq<char>, u32, u32)>, i: int)
    requires
        0 <= i < sources.len(),
    ensures
        offset_of(sources, i + 1) == offset_of(sources, i) + sources[i].1,
{
    assert(sources.take(i + 1).drop_last() =~= sources.take(i));
}

/// The largest height among the first `i + 1` sources is the larger of the
/// largest among the first `i` and the height of source `i`.
proof fn lemma_max_height_step(sources: Seq<(Seq<char>, u32, u32)>, i: int)
    requires
        0 <= i < sources.len(),
    ensures
        max_height(sources.take(i + 1)) == if max_height(sources.take(i)) >= sources[i].2 {
            max_height(sources.take(i))
        } else {
            sources[i].2
        },
{
    assert(sources.take(i + 1).drop_last() =~= sources.take(i));
}

/// No source starts beyond the total width, and none is higher than the
/// largest height.
pub proof fn lemma_source_within(sources: Seq<(Seq<char>, u32, u32)>, i: int)
    requires
        0 <= i < sources.len(),
    ensures
        offset_of(sources, i) + sources[i].1 <= total_width(sources),
        sources[i].2 <= max_height(sources),
    decreases sources.len(),
{
    if i == sources.len() - 1 {
        assert(sources.take(i) =~= sources.drop_last());
    } else {
        lemma_source_within(sources.drop_last(), i);
        assert(sources.drop_last().take(i) =~= sources.take(i));
    }
}

/// The layout of a packed atlas. The atlas is as wide as its sources
/// together and as high as the highest of them. It has one entry for each
/// source, in order, which carries the source's name and size, lies in the top
/// row and starts at the column where the sources before it end; the first
/// starts at column zero. Every entry lies within the atlas.
pub proof fn law_packed_layout(sources: Seq<(Seq<char>, u32, u32)>, i: int)
    requires
        total_width(sources) <= u32::MAX,
        0 <= i < sources.len(),
    ensures
        packed(sources).width == total_width(sources),
        packed(sources).height == max_height(sources),
        packed(sources).entries.len() == sources.len(),
        packed(sources).entries[i].name == sources[i].0,
        packed(sources).entries[i].image_width == sources[i].1,
        packed(sources).entries[i].image_height == sources[i].2,
        packed(sources).entries[i].y_start == 0,
        packed(sources).entries[i].x_start == offset_of(sources, i),
        offset_of(sources, 0) == 0,
        offset_of(sources, i + 1) == offset_of(sources, i) + sources[i].1,
        offset_of(sources, sources.len() as int) == total_width(sources),
        packed(sources).entries[i].x_start + packed(sources).entries[i].image_width <= packed(
            sources,
        ).width,
        packed(sources).entries[i].image_height <= packed(sources).height,
{
    lemma_source_within(sources, i);
    lemma_offset_step(sources, i);
    assert(sources.take(sources.len() as int) =~= sources);
}

/// The largest height is the height of one of the sources, and no source is
/// higher.
pub proof fn law_max_height_is_attained(sources: Seq<(Seq<char>, u32, u32)>)
    requires
        sources.len() > 0,
    ensures
        exists|i: int| 0 <= i < sources.len() && sources[i].2 == max_height(sources),
        forall|i: int| 0 <= i < sources.len() ==> sources[i].2 <= max_height(sources),
    decreases sources.len(),
{
    assert forall|i: int| 0 <= i < sources.len() implies sources[i].2 <= max_height(sources) by {
        lemma_source_within(sources, i);
    }
    let last = sources.len() - 1;
    if sources.len() == 1 || max_height(sources.drop_last()) < sources.last().2 {
        assert(sources[last].2 == max_height(sources));
    } else {
        law_max_height_is_attained(sources.drop_last());
        let i = choose|i: int|
            0 <= i < sources.drop_last().len() && sources.drop_last()[i].2 == max_height(
                sources.drop_last(),
            );
        assert(sources[i].2 == max_height(sources));
    }
}

/// The inset of texture coordinates. Along each axis the two coordinates of an
/// entry are fractions over twice the atlas extent, the first half a texel
/// inside the entry's rectangle and the second half a texel inside its far
/// edge. Their difference is therefore the entry's extent less one texel, over
/// the atlas extent, which is the entry's share of the atlas less one texel's
/// share. The second lies beyond the first exactly when the entry is more than
/// one texel wide, or high.
pub proof fn law_uv_inset(sources: Seq<(Seq<char>, u32, u32)>, i: int)
    requires
        total_width(sources) <= u32::MAX,
        0 <= i < sources.len(),
    ensures
        packed(sources).entries[i].start_coord is Some,
        packed(sources).entries[i].end_coord is Some,
        ({
            let atlas = packed(sources);
            let entry = atlas.entries[i];
            let start = entry.start_coord->0;
            let end = entry.end_coord->0;
            &&& start.0.den == 2 * atlas.width
            &&& end.0.den == 2 * atlas.width
            &&& start.0.num == 2 * entry.x_start + 1
            &&& end.0.num - start.0.num == 2 * (entry.image_width - 1)
            &&& start.1.den == 2 * atlas.height
            &&& end.1.den == 2 * atlas.height
            &&& start.1.num == 2 * entry.y_start + 1
            &&& end.1.num - start.1.num == 2 * (entry.image_height - 1)
            &&& (end.0.num - start.0.num) * atlas.width == (entry.image_width - 1) * end.0.den
            &&& (end.1.num - start.1.num) * atlas.height == (entry.image_height - 1) * end.1.den
            &&& (end.0.num > start.0.num <==> entry.image_width > 1)
            &&& (end.1.num > start.1.num <==> entry.image_height > 1)
        }),
{
    lemma_source_within(sources, i);
    let atlas = packed(sources);
    let entry = atlas.entries[i];
    assert(2 * (entry.image_width - 1) * atlas.width == (entry.image_width - 1) * (2
        * atlas.width)) by (nonlinear_arith);
    assert(2 * (entry.image_height - 1) * atlas.height == (entry.image_height - 1) * (2
        * atlas.height)) by (nonlinear_arith);
}

impl UiAtlas {
    /// Packs `items`, each the name, width and height of a source image, left
    /// to right in the order given. There is no manifest where the widths
    /// together exceed `u32::MAX`.
    pub fn pack(items: &Vec<(String, u32, u32)>) -> (atlas: Option<UiAtlas>)
        ensures
            atlas is Some <==> total_width(items.deep_view()) <= u32::MAX,
            atlas matches Some(a) ==> a@ == packed(items.deep_view()),
    {
        let ghost sources = items.deep_view();
        let mut new_width: u32 = 0;
        let mut new_height: u32 = 0;
        let mut i: usize = 0;
        while i < items.len()
            invariant
                i <= items.len(),
                sources == items.deep_view(),
                new_width == offset_of(sources, i as int),
                new_height == max_height(sources.take(i as int)),
            decreases items.len() - i,
        {
            proof {
                lemma_offset_step(sources, i as int);
                lemma_max_height_step(sources, i as int);
                lemma_source_within(sources, i as int);
            }
            let width = items[i].1;
            let height = items[i].2;
            if width > u32::MAX - new_width {
                return None;
            }
            new_width = new_width + width;
            if height > new_height {
                new_height = height;
            }
            i += 1;
        }
        assert(sources.take(items.len() as int) =~= sources);

        let mut atlas_data = UiAtlas::new(new_width, new_height);
        let mut last_coordinate: u32 = 0;
        let mut k: usize = 0;
        while k < items.len()
            invariant
                k <= items.len(),
                sources == items.deep_view(),
                new_width == total_width(sources),
                new_height == max_height(sources),
                atlas_data.width == new_width,
                atlas_data.height == new_height,
                last_coordinate == offset_of(sources, k as int),
                atlas_data@.entries.len() == k,
                forall|j: int| 0 <= j < k ==> atlas_data@.entries[j] == packed_entry(sources, j),
            decreases items.len() - k,
        {
            proof {
                lemma_offset_step(sources, k as int);
                lemma_source_within(sources, k as int);
            }
            let name = items[k].0.clone();
            let width = items[k].1;
            let height = items[k].2;
            atlas_data.add_entry(UiAtlasTexture::new(name, last_coordinate, 0, width, height));
            last_coordinate = last_coordinate + width;
            k += 1;
        }
        assert(atlas_data@.entries =~= packed(sources).entries);
        Some(atlas_data)
    }
}

} // verus!
