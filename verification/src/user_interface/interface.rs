//! The widget registry.

use vstd::prelude::*;
use crate::geometry_map::{entries_of, GeometryMap};
use crate::types::{GeometryType, Instance, Propagate};
use crate::user_interface::elements::{Button, Widget};
use crate::user_interface::UserInterface;

verus! {

/// The registry `widgets` after `widget` was added: the widget is appended to
/// the list of its own geometry kind, which starts with it where the kind had
/// no list yet.
pub open spec fn added<S: Copy, A: Fn() -> Propagate>(
    widgets: Map<GeometryType, Seq<Widget<S, A>>>,
    widget: Widget<S, A>,
) -> Map<GeometryType, Seq<Widget<S, A>>> {
    widgets.insert(widget.kind(), entries_of(widgets, widget.kind()).push(widget))
}

/// The instances of a list of widgets, in the same order.
pub open spec fn instances_of<S: Copy, A: Fn() -> Propagate>(widgets: Seq<Widget<S, A>>) -> Seq<
    Instance<S>,
> {
    Seq::new(widgets.len(), |i: int| widgets[i].instance())
}

/// The snapshot of the registry `widgets`: the same kinds, each with the
/// instances of its widgets in insertion order.
pub open spec fn staged<S: Copy, A: Fn() -> Propagate>(
    widgets: Map<GeometryType, Seq<Widget<S, A>>>,
) -> Map<GeometryType, Seq<Instance<S>>> {
    Map::new(
        |kind: GeometryType| widgets.contains_key(kind),
        |kind: GeometryType| instances_of(widgets[kind]),
    )
}

/// The widget registry: every widget added so far, grouped by geometry kind
/// and, within a kind, in the order of insertion. The registry owns its
/// widgets.
pub struct GraphicsInterface<S, A: Fn() -> Propagate> {
    elements: GeometryMap<Widget<S, A>>,
}

impl<S: Copy, A: Fn() -> Propagate> GraphicsInterface<S, A> {
    pub closed spec fn view(&self) -> Map<GeometryType, Seq<Widget<S, A>>> {
        self.elements@
    }

    /// An empty registry.
    pub fn new() -> (interface: Self)
        ensures
            interface@ == Map::<GeometryType, Seq<Widget<S, A>>>::empty(),
    {
        GraphicsInterface { elements: GeometryMap::new() }
    }

    /// Runs `elements_builder` once on a builder that holds this registry, and
    /// returns what it returned. The registry is afterwards what the builder
    /// held when `elements_builder` came back.
    pub fn show<R, F: FnOnce(&mut UserInterface<S, A>) -> R>(&mut self, elements_builder: F) -> (result: R)
        requires
            forall|ui: &mut UserInterface<S, A>|
                ui@ == old(self)@ ==> #[trigger] call_requires(elements_builder, (ui,)),
        ensures
            exists|ui: &mut UserInterface<S, A>|
                #[trigger] call_ensures(elements_builder, (ui,), result) && ui@ == old(self)@
                    && final(ui)@ == final(self)@,
    {
        let mut held = GraphicsInterface::new();
        core::mem::swap(self, &mut held);
        let mut user_interface = UserInterface { graphics_interface: held };
        let result = elements_builder(&mut user_interface);
        *self = user_interface.graphics_interface;
        result
    }

    /// Adds `element` to the list of its geometry kind. Nothing is rejected
    /// and nothing is deduplicated.
    pub fn add_element(&mut self, element: Widget<S, A>)
        ensures
            final(self)@ == added(old(self)@, element),
    {
        let kind = element.geometry();
        self.elements.push(kind, element);
    }

    /// The click capability of the widget at place `index` among those of
    /// `kind`: the button there, or nothing where the place is empty or holds
    /// a widget without interaction. The registry is only read.
    pub fn clickable_at(&self, kind: GeometryType, index: usize) -> (clickable: Option<
        &Button<S, A>,
    >)
        ensures
            clickable is Some <==> self@.contains_key(kind) && index < self@[kind].len()
                && self@[kind][index as int] is Button,
            clickable matches Some(button) ==> self@[kind][index as int] == Widget::Button(
                *button,
            ),
    {
        match self.elements.get(kind) {
            Some(elements) => {
                if index < elements.len() {
                    elements[index].as_clickable()
                } else {
                    None
                }
            },
            None => None,
        }
    }

    /// Takes a snapshot: for every kind, the instances of its widgets in
    /// insertion order. The registry is left as it was.
    pub fn stage(&mut self) -> (staged_data: GeometryMap<Instance<S>>)
        ensures
            staged_data@ == staged(old(self)@),
            *final(self) == *old(self),
    {
        let mut staged_data: GeometryMap<Instance<S>> = GeometryMap::new();
        let kind = GeometryType::Quadrilateral;
        match self.elements.get(kind) {
            Some(elements) => {
                let mut stage_elements: Vec<Instance<S>> = Vec::new();
                let mut i: usize = 0;
                while i < elements.len()
                    invariant
                        i <= elements.len(),
                        stage_elements@ == instances_of(elements@.take(i as int)),
                    decreases elements.len() - i,
                {
                    stage_elements.push(elements[i].as_instance());
                    i += 1;
                    assert(stage_elements@ =~= instances_of(elements@.take(i as int)));
                }
                assert(elements@.take(elements.len() as int) =~= elements@);
                staged_data.insert(kind, stage_elements);
            },
            None => {},
        }
        assert(staged_data@ =~= staged(self@));
        staged_data
    }
}

} // verus!
