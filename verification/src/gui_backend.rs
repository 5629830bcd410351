//! The staging transform: from a snapshot in normalised coordinates to the
//! arrays of one draw call in pixel coordinates.

use vstd::prelude::*;
use crate::geometry_map::{entries_of, GeometryMap};
use crate::types::{is_template_of, GeometryType, Instance, Propagate, Vertex, WindowSize};
use crate::user_interface::elements::Widget;
use crate::user_interface::interface::{added, staged};

verus! {

/// Whether `to_pixels` accepts every coordinate of `normalized` together with
/// the window extent of its axis.
pub open spec fn can_scale<S, F: Fn(S, u32) -> S>(
    to_pixels: F,
    normalized: Instance<S>,
    window_size: WindowSize,
) -> bool {
    &&& call_requires(to_pixels, (normalized.position[0], window_size.width))
    &&& call_requires(to_pixels, (normalized.position[1], window_size.height))
    &&& call_requires(to_pixels, (normalized.scale[0], window_size.width))
    &&& call_requires(to_pixels, (normalized.scale[1], window_size.height))
}

/// Whether `pixel` is `normalized` brought to pixel space: each horizontal
/// coordinate is what `to_pixels` makes of it and the window's width, each
/// vertical coordinate what it makes of it and the window's height.
pub open spec fn scaled_to<S, F: Fn(S, u32) -> S>(
    to_pixels: F,
    normalized: Instance<S>,
    window_size: WindowSize,
    pixel: Instance<S>,
) -> bool {
    &&& call_ensures(to_pixels, (normalized.position[0], window_size.width), pixel.position[0])
    &&& call_ensures(to_pixels, (normalized.position[1], window_size.height), pixel.position[1])
    &&& call_ensures(to_pixels, (normalized.scale[0], window_size.width), pixel.scale[0])
    &&& call_ensures(to_pixels, (normalized.scale[1], window_size.height), pixel.scale[1])
}

/// Whether `pixels` is the list `normalized` brought to pixel space, instance
/// by instance and in the same order.
pub open spec fn all_scaled_to<S, F: Fn(S, u32) -> S>(
    to_pixels: F,
    normalized: Seq<Instance<S>>,
    window_size: WindowSize,
    pixels: Seq<Instance<S>>,
) -> bool {
    &&& pixels.len() == normalized.len()
    &&& forall|i: int|
        0 <= i < normalized.len() ==> scaled_to(
            to_pixels,
            #[trigger] normalized[i],
            window_size,
            pixels[i],
        )
}

/// Brings one instance to pixel space.
pub fn scale_instance<S: Copy, F: Fn(S, u32) -> S>(
    to_pixels: &F,
    normalized: &Instance<S>,
    window_size: WindowSize,
) -> (pixel: Instance<S>)
    requires
        can_scale(*to_pixels, *normalized, window_size),
    ensures
        scaled_to(*to_pixels, *normalized, window_size, pixel),
{
    let x = to_pixels(normalized.position[0], window_size.width);
    let y = to_pixels(normalized.position[1], window_size.height);
    let w = to_pixels(normalized.scale[0], window_size.width);
    let h = to_pixels(normalized.scale[1], window_size.height);
    Instance { position: [x, y], scale: [w, h] }
}

/// Whether `to_pixels` accepts every coordinate of every instance of `stage`
/// together with the window extent of its axis.
pub open spec fn can_scale_all<S, F: Fn(S, u32) -> S>(
    to_pixels: F,
    stage: Map<GeometryType, Seq<Instance<S>>>,
    window_size: WindowSize,
) -> bool {
    forall|kind: GeometryType, i: int|
        stage.contains_key(kind) && 0 <= i < stage[kind].len() ==> can_scale(
            to_pixels,
            #[trigger] stage[kind][i],
            window_size,
        )
}

/// Whether `vertices`, `indices` and `instances` are the draw data of the
/// snapshot `stage` in a window of size `window_size`.
///
/// Where the snapshot has quadrilaterals, the one kind there is, the draw data
/// is the quadrilateral's vertex template, its index template, and the
/// snapshot's quadrilaterals brought to pixel space in their order. Where it
/// has none, the three arrays are empty: there is nothing to draw.
pub open spec fn is_draw_data<S, F: Fn(S, u32) -> S>(
    to_pixels: F,
    stage: Map<GeometryType, Seq<Instance<S>>>,
    window_size: WindowSize,
    vertices: Seq<Vertex>,
    indices: Seq<u32>,
    instances: Seq<Instance<S>>,
) -> bool {
    if stage.contains_key(GeometryType::Quadrilateral) {
        &&& is_template_of(GeometryType::Quadrilateral, vertices)
        &&& indices == GeometryType::Quadrilateral.template_indices()
        &&& all_scaled_to(to_pixels, stage[GeometryType::Quadrilateral], window_size, instances)
    } else {
        &&& vertices == Seq::<Vertex>::empty()
        &&& indices == Seq::<u32>::empty()
        &&& instances == Seq::<Instance<S>>::empty()
    }
}

/// The staging transform: the draw data of `stage` in a window of size
/// `window_size`.
///
/// The library does no arithmetic on scalars itself: `to_pixels` scales one
/// normalised coordinate by one window extent, and is applied to each
/// coordinate of each instance. A window without extent is accepted like any
/// other.
pub fn interpret_stage<S: Copy, F: Fn(S, u32) -> S>(
    stage: GeometryMap<Instance<S>>,
    window_size: WindowSize,
    to_pixels: F,
) -> (arrays: (Vec<Vertex>, Vec<u32>, Vec<Instance<S>>))
    requires
        can_scale_all(to_pixels, stage@, window_size),
    ensures
        is_draw_data(to_pixels, stage@, window_size, arrays.0@, arrays.1@, arrays.2@),
{
    let geometry = GeometryType::Quadrilateral;
    match stage.get(geometry) {
        Some(elements) => {
            let mut instances: Vec<Instance<S>> = Vec::new();
            let mut i: usize = 0;
            while i < elements.len()
                invariant
                    i <= elements.len(),
                    elements@ == stage@[geometry],
                    stage@.contains_key(geometry),
                    can_scale_all(to_pixels, stage@, window_size),
                    all_scaled_to(to_pixels, elements@.take(i as int), window_size, instances@),
                decreases elements.len() - i,
            {
                assert(can_scale(to_pixels, stage@[geometry][i as int], window_size));
                let instance = scale_instance(&to_pixels, &elements[i], window_size);
                instances.push(instance);
                i += 1;
            }
            assert(elements@.take(elements.len() as int) =~= elements@);
            let vertices = geometry.vertices();
            let indices = geometry.indices();
            (vertices, indices, instances)
        },
        None => (Vec::new(), Vec::new(), Vec::new()),
    }
}

/// What a resize of the window to `width` by `height` pixels asks for.
///
/// A window without width or without height cannot be drawn to: nothing is
/// computed, and the draw data in use stays. For any other size the answer is
/// the draw data of `stage` at that size.
pub fn restage<S: Copy, F: Fn(S, u32) -> S>(
    stage: GeometryMap<Instance<S>>,
    width: u32,
    height: u32,
    to_pixels: F,
) -> (arrays: Option<(Vec<Vertex>, Vec<u32>, Vec<Instance<S>>)>)
    requires
        width > 0 && height > 0 ==> can_scale_all(to_pixels, stage@, WindowSize { width, height }),
    ensures
        arrays is Some <==> width > 0 && height > 0,
        arrays matches Some(data) ==> is_draw_data(
            to_pixels,
            stage@,
            WindowSize { width, height },
            data.0@,
            data.1@,
            data.2@,
        ),
{
    if width > 0 && height > 0 {
        Some(interpret_stage(stage, WindowSize { width, height }, to_pixels))
    } else {
        None
    }
}

/// Staging followed by the staging transform puts every widget where it was
/// described. Where `pixels` is the snapshot's list of quadrilaterals brought
/// to pixel space, it holds one instance for each quadrilateral widget of the
/// registry, in insertion order, and each is the widget's own instance with
/// its horizontal coordinates scaled by the window's width and its vertical
/// coordinates by the window's height.
pub proof fn law_staged_widgets_are_scaled<S: Copy, A: Fn() -> Propagate, F: Fn(S, u32) -> S>(
    widgets: Map<GeometryType, Seq<Widget<S, A>>>,
    window_size: WindowSize,
    to_pixels: F,
    pixels: Seq<Instance<S>>,
)
    requires
        widgets.contains_key(GeometryType::Quadrilateral),
        all_scaled_to(
            to_pixels,
            staged(widgets)[GeometryType::Quadrilateral],
            window_size,
            pixels,
        ),
    ensures
        pixels.len() == widgets[GeometryType::Quadrilateral].len(),
        forall|i: int|
            0 <= i < pixels.len() ==> scaled_to(
                to_pixels,
                (#[trigger] widgets[GeometryType::Quadrilateral][i]).instance(),
                window_size,
                pixels[i],
            ),
{
    let normalized = staged(widgets)[GeometryType::Quadrilateral];
    assert forall|i: int| 0 <= i < pixels.len() implies scaled_to(
        to_pixels,
        (#[trigger] widgets[GeometryType::Quadrilateral][i]).instance(),
        window_size,
        pixels[i],
    ) by {
        assert(normalized[i] == widgets[GeometryType::Quadrilateral][i].instance());
    }
}

/// Adding a widget adds its instance to the end of the snapshot's list of its
/// kind, and leaves the rest of the snapshot as it was.
pub proof fn law_added_widget_is_staged_last<S: Copy, A: Fn() -> Propagate>(
    widgets: Map<GeometryType, Seq<Widget<S, A>>>,
    widget: Widget<S, A>,
)
    ensures
        staged(added(widgets, widget)) == staged(widgets).insert(
            widget.kind(),
            entries_of(staged(widgets), widget.kind()).push(widget.instance()),
        ),
{
    let kind = widget.kind();
    let after = staged(added(widgets, widget));
    let expected = staged(widgets).insert(
        kind,
        entries_of(staged(widgets), kind).push(widget.instance()),
    );
    assert(after[kind] =~= expected[kind]);
    assert(after =~= expected);
}

/// A widget that was added is drawn where it was described. Where `pixels` is
/// the list of the widget's kind, staged after the widget was added and
/// brought to pixel space, its last instance is the widget's own instance with
/// its horizontal coordinates scaled by the window's width and its vertical
/// coordinates by the window's height, and the instances before it are those
/// of the widgets that were there before.
pub proof fn law_added_widget_is_scaled<S: Copy, A: Fn() -> Propagate, F: Fn(S, u32) -> S>(
    widgets: Map<GeometryType, Seq<Widget<S, A>>>,
    widget: Widget<S, A>,
    window_size: WindowSize,
    to_pixels: F,
    pixels: Seq<Instance<S>>,
)
    requires
        all_scaled_to(
            to_pixels,
            staged(added(widgets, widget))[widget.kind()],
            window_size,
            pixels,
        ),
    ensures
        staged(added(widgets, widget)).contains_key(widget.kind()),
        pixels.len() == entries_of(widgets, widget.kind()).len() + 1,
        scaled_to(to_pixels, widget.instance(), window_size, pixels.last()),
        all_scaled_to(
            to_pixels,
            entries_of(staged(widgets), widget.kind()),
            window_size,
            pixels.drop_last(),
        ),
{
    law_added_widget_is_staged_last(widgets, widget);
    let before = entries_of(staged(widgets), widget.kind());
    let after = staged(added(widgets, widget))[widget.kind()];
    assert(after == before.push(widget.instance()));
    assert(after[after.len() - 1] == widget.instance());
    assert forall|i: int| 0 <= i < before.len() implies scaled_to(
        to_pixels,
        #[trigger] before[i],
        window_size,
        pixels.drop_last()[i],
    ) by {
        assert(after[i] == before[i]);
    }
}

/// The snapshot of an empty registry is empty.
pub proof fn law_nothing_staged_of_nothing<S: Copy, A: Fn() -> Propagate>()
    ensures
        staged(Map::<GeometryType, Seq<Widget<S, A>>>::empty()) == Map::<
            GeometryType,
            Seq<Instance<S>>,
        >::empty(),
{
    assert(staged(Map::<GeometryType, Seq<Widget<S, A>>>::empty()) =~= Map::<
        GeometryType,
        Seq<Instance<S>>,
    >::empty());
}

} // verus!
