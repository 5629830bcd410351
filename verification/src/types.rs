//! The geometry catalog and the plain data exchanged with a rendering backend.

use vstd::prelude::*;

verus! {

/// Outcome of a click action: whether the event goes on to other widgets or
/// stops at the one that was clicked.
#[derive(Clone, Copy, Debug, PartialEq, Eq, Hash, Structural)]
pub enum Propagate {
    Continue,
    Stop,
}

/// The kinds of shape a widget can be drawn with. Each kind owns one vertex
/// template and one index template.
#[derive(Clone, Copy, Debug, PartialEq, Eq, Hash, Structural)]
pub enum GeometryType {
    Quadrilateral,
}

/// One corner of a shape template.
///
/// `position` counts halves of a model unit, so that the unit quad centred at
/// the origin has corners at `-1` and `1`. `color` holds red, green, blue and
/// alpha as 8-bit channels, 255 being full intensity.
#[derive(Clone, Copy, Debug, PartialEq, Eq, Hash)]
pub struct Vertex {
    pub position: [i32; 3],
    pub color: [u8; 4],
}

/// Placement of one widget: where it sits and how large it is.
///
/// The same type serves two coordinate spaces. A widget yields a normalised
/// instance, relative to the viewport; the staging transform yields pixel
/// instances.
#[derive(Clone, Copy, Debug, PartialEq)]
pub struct Instance<S> {
    pub position: [S; 2],
    pub scale: [S; 2],
}

/// Size of the window's drawable area in pixels.
#[derive(Clone, Copy, Debug, PartialEq, Eq, Hash, Structural)]
pub struct WindowSize {
    pub width: u32,
    pub height: u32,
}

/// The colour every template vertex carries: opaque red.
pub open spec fn template_color() -> Seq<u8> {
    seq![255u8, 0u8, 0u8, 255u8]
}

/// Corner `i` of the unit quad, counter-clockwise from the bottom left, in
/// halves of a model unit.
pub open spec fn quad_corner(i: int) -> Seq<i32> {
    if i == 0 {
        seq![-1i32, -1i32, 0i32]
    } else if i == 1 {
        seq![1i32, -1i32, 0i32]
    } else if i == 2 {
        seq![1i32, 1i32, 0i32]
    } else {
        seq![-1i32, 1i32, 0i32]
    }
}

/// Whether `vertices` is the vertex template of `kind`: its corners in
/// drawing order, each in the template colour.
pub open spec fn is_template_of(kind: GeometryType, vertices: Seq<Vertex>) -> bool {
    &&& vertices.len() == kind.template_positions().len()
    &&& forall|i: int|
        0 <= i < vertices.len() ==> (#[trigger] vertices[i]).position@
            == kind.template_positions()[i] && vertices[i].color@ == template_color()
}

impl GeometryType {
    /// Positions of the kind's template vertices, in drawing order.
    pub open spec fn template_positions(self) -> Seq<Seq<i32>> {
        match self {
            GeometryType::Quadrilateral => Seq::new(4, |i: int| quad_corner(i)),
        }
    }

    /// The kind's index template: which template vertices form its triangles.
    pub open spec fn template_indices(self) -> Seq<u32> {
        match self {
            GeometryType::Quadrilateral => seq![0u32, 1u32, 2u32, 2u32, 3u32, 0u32],
        }
    }

    /// The vertex template of this kind.
    pub fn vertices(self) -> (v: Vec<Vertex>)
        ensures
            is_template_of(self, v@),
    {
        match self {
            GeometryType::Quadrilateral => {
                let color: [u8; 4] = [255, 0, 0, 255];
                let mut v: Vec<Vertex> = Vec::new();
                v.push(Vertex { position: [-1, -1, 0], color });
                v.push(Vertex { position: [1, -1, 0], color });
                v.push(Vertex { position: [1, 1, 0], color });
                v.push(Vertex { position: [-1, 1, 0], color });
                proof {
                    assert(color@ =~= template_color());
                    assert(v[0].position@ =~= quad_corner(0));
                    assert(v[1].position@ =~= quad_corner(1));
                    assert(v[2].position@ =~= quad_corner(2));
                    assert(v[3].position@ =~= quad_corner(3));
                }
                v
            },
        }
    }

    /// The index template of this kind.
    pub fn indices(self) -> (ix: Vec<u32>)
        ensures
            ix@ == self.template_indices(),
    {
        match self {
            GeometryType::Quadrilateral => {
                let mut ix: Vec<u32> = Vec::new();
                ix.push(0);
                ix.push(1);
                ix.push(2);
                ix.push(2);
                ix.push(3);
                ix.push(0);
                proof {
                    assert(ix@ =~= self.template_indices());
                }
                ix
            },
        }
    }
}

} // verus!
