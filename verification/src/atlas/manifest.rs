//! The atlas manifest: the size of the composite image and, for each source
//! image, the rectangle it occupies and the coordinates that sample it.

use vstd::prelude::*;

verus! {

/// One texture coordinate, held exactly as the fraction `num / den`.
///
/// The denominator is twice the atlas extent along the coordinate's axis, so
/// the numerator counts half texels. An atlas without extent along an axis
/// gives `den == 0`: the coordinate then has no value.
#[derive(Clone, Copy, Debug, PartialEq, Eq, Hash, Structural)]
pub struct TexCoord {
    pub num: i64,
    pub den: u64,
}

/// The lower edge of a span that starts at texel `start` of an axis of
/// `extent` texels, moved inward by half a texel.
pub open spec fn inset_low(start: u32, extent: u32) -> TexCoord {
    TexCoord { num: (2 * start + 1) as i64, den: (2 * extent) as u64 }
}

/// The upper edge of a span of `size` texels that starts at texel `start` of
/// an axis of `extent` texels, moved inward by half a texel.
pub open spec fn inset_high(start: u32, size: u32, extent: u32) -> TexCoord {
    TexCoord { num: (2 * (start + size) - 1) as i64, den: (2 * extent) as u64 }
}

/// What one entry of an atlas manifest says.
pub struct AtlasEntry {
    pub name: Seq<char>,
    pub x_start: u32,
    pub y_start: u32,
    pub image_width: u32,
    pub image_height: u32,
    pub start_coord: Option<(TexCoord, TexCoord)>,
    pub end_coord: Option<(TexCoord, TexCoord)>,
}

impl AtlasEntry {
    /// The entry without coordinates, as it is before the layout is final.
    pub open spec fn bare(
        name: Seq<char>,
        x_start: u32,
        y_start: u32,
        image_width: u32,
        image_height: u32,
    ) -> Self {
        AtlasEntry {
            name,
            x_start,
            y_start,
            image_width,
            image_height,
            start_coord: None,
            end_coord: None,
        }
    }

    /// The entry with the coordinates it has in an atlas of `width` by
    /// `height` texels: its rectangle divided by the atlas size and moved
    /// inward by half a texel on every edge.
    pub open spec fn with_coords(self, width: u32, height: u32) -> Self {
        AtlasEntry {
            start_coord: Some(
                (inset_low(self.x_start, width), inset_low(self.y_start, height)),
            ),
            end_coord: Some(
                (
                    inset_high(self.x_start, self.image_width, width),
                    inset_high(self.y_start, self.image_height, height),
                ),
            ),
            ..self
        }
    }
}

/// One entry of an atlas manifest: a source image's name, the rectangle it
/// occupies in the atlas, and the coordinates that sample it.
#[derive(Debug, PartialEq, Eq)]
pub struct UiAtlasTexture {
    pub name: String,
    pub x_start: u32,
    pub y_start: u32,
    pub image_width: u32,
    pub image_height: u32,
    pub start_coord: Option<(TexCoord, TexCoord)>,
    pub end_coord: Option<(TexCoord, TexCoord)>,
}

impl View for UiAtlasTexture {
    type V = AtlasEntry;

    open spec fn view(&self) -> AtlasEntry {
        AtlasEntry {
            name: self.name@,
            x_start: self.x_start,
            y_start: self.y_start,
            image_width: self.image_width,
            image_height: self.image_height,
            start_coord: self.start_coord,
            end_coord: self.end_coord,
        }
    }
}

impl UiAtlasTexture {
    /// An entry for the image `name` that occupies `image_width` by
    /// `image_height` texels from `(x_0, y_0)`. It has no coordinates yet.
    pub fn new(name: String, x_0: u32, y_0: u32, image_width: u32, image_height: u32) -> (entry:
        Self)
        ensures
            entry@ == AtlasEntry::bare(name@, x_0, y_0, image_width, image_height),
    {
        Self {
            name,
            x_start: x_0,
            y_start: y_0,
            image_width,
            image_height,
            start_coord: None,
            end_coord: None,
        }
    }

    /// Gives the entry its coordinates in an atlas of `width` by `height`
    /// texels.
    pub fn generate_tex_coords(self, width: u32, height: u32) -> (entry: Self)
        ensures
            entry@ == self@.with_coords(width, height),
    {
        let x_den: u64 = 2 * (width as u64);
        let y_den: u64 = 2 * (height as u64);
        let x0: i64 = 2 * (self.x_start as i64) + 1;
        let y0: i64 = 2 * (self.y_start as i64) + 1;
        let x1: i64 = 2 * (self.x_start as i64 + self.image_width as i64) - 1;
        let y1: i64 = 2 * (self.y_start as i64 + self.image_height as i64) - 1;
        Self {
            name: self.name,
            x_start: self.x_start,
            y_start: self.y_start,
            image_width: self.image_width,
            image_height: self.image_height,
            start_coord: Some((TexCoord { num: x0, den: x_den }, TexCoord { num: y0, den: y_den })),
            end_coord: Some((TexCoord { num: x1, den: x_den }, TexCoord { num: y1, den: y_den })),
        }
    }
}

impl Clone for UiAtlasTexture {
    fn clone(&self) -> (entry: Self)
        ensures
            entry@ == self@,
    {
        Self {
            name: self.name.clone(),
            x_start: self.x_start,
            y_start: self.y_start,
            image_width: self.image_width,
            image_height: self.image_height,
            start_coord: self.start_coord,
            end_coord: self.end_coord,
        }
    }
}

/// What an atlas manifest says.
pub struct AtlasManifest {
    pub entries: Seq<AtlasEntry>,
    pub width: u32,
    pub height: u32,
}

/// The atlas manifest: the size of the composite image and one entry for
/// each source image, in packing order.
#[derive(Debug, PartialEq, Eq)]
pub struct UiAtlas {
    pub entries: Vec<UiAtlasTexture>,
    pub width: u32,
    pub height: u32,
}

impl View for UiAtlas {
    type V = AtlasManifest;

    open spec fn view(&self) -> AtlasManifest {
        AtlasManifest {
            entries: Seq::new(self.entries.len() as nat, |i: int| self.entries[i]@),
            width: self.width,
            height: self.height,
        }
    }
}

impl Clone for UiAtlas {
    fn clone(&self) -> (atlas: Self)
        ensures
            atlas@ == self@,
    {
        let mut entries: Vec<UiAtlasTexture> = Vec::new();
        let mut i: usize = 0;
        while i < self.entries.len()
            invariant
                i <= self.entries.len(),
                entries.len() == i,
                forall|j: int| 0 <= j < i ==> (#[trigger] entries[j])@ == self.entries[j]@,
            decreases self.entries.len() - i,
        {
            entries.push(self.entries[i].clone());
            i += 1;
        }
        let atlas = Self { entries, width: self.width, height: self.height };
        assert(atlas@.entries =~= self@.entries);
        atlas
    }
}

impl UiAtlas {
    /// A manifest without entries for an atlas of `width` by `height` texels.
    pub fn new(width: u32, height: u32) -> (atlas: Self)
        ensures
            atlas@ == (AtlasManifest { entries: Seq::empty(), width, height }),
    {
        let atlas = Self { entries: Vec::new(), width, height };
        assert(atlas@.entries =~= Seq::empty());
        atlas
    }

    /// Appends `entry`, with the coordinates it has in this atlas.
    pub fn add_entry(&mut self, entry: UiAtlasTexture)
        ensures
            final(self)@ == (AtlasManifest {
                entries: old(self)@.entries.push(
                    entry@.with_coords(old(self).width, old(self).height),
                ),
                ..old(self)@
            }),
    {
        let placed = entry.generate_tex_coords(self.width, self.height);
        self.entries.push(placed);
        assert(self@.entries =~= old(self)@.entries.push(
            entry@.with_coords(old(self).width, old(self).height),
        ));
    }

    /// The first entry called `name`, if there is one.
    pub fn get_entry_by_name(&self, name: String) -> (found: Option<UiAtlasTexture>)
        ensures
            match found {
                Some(entry) => exists|i: int|
                    {
                        &&& 0 <= i < self@.entries.len()
                        &&& entry@ == self@.entries[i]
                        &&& self@.entries[i].name == name@
                        &&& forall|j: int| 0 <= j < i ==> self@.entries[j].name != name@
                    },
                None => forall|i: int|
                    0 <= i < self@.entries.len() ==> self@.entries[i].name != name@,
            },
    {
        let mut i: usize = 0;
        while i < self.entries.len()
            invariant
                i <= self.entries.len(),
                forall|j: int| 0 <= j < i ==> self@.entries[j].name != name@,
            decreases self.entries.len() - i,
        {
            if self.entries[i].name == name {
                let entry = self.entries[i].clone();
                assert(entry@ == self@.entries[i as int]);
                return Some(entry);
            }
            i += 1;
        }
        None
    }
}

} // verus!
