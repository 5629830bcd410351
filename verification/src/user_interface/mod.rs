//! The widget model, the registry that collects widgets, and the builder
//! through which a caller describes a scene.

use vstd::prelude::*;
use crate::types::{GeometryType, Propagate};
use crate::user_interface::elements::{Button, Panel, Widget};
use crate::user_interface::interface::{added, GraphicsInterface};

pub mod elements;
pub mod interface;

verus! {

/// The scene builder: the handle through which a setup callback adds widgets
/// to a registry. It holds the registry for as long as the callback runs.
pub struct UserInterface<S, A: Fn() -> Propagate> {
    graphics_interface: GraphicsInterface<S, A>,
}

impl<S: Copy, A: Fn() -> Propagate> UserInterface<S, A> {
    /// The widgets of the registry under construction.
    pub closed spec fn view(&self) -> Map<GeometryType, Seq<Widget<S, A>>> {
        self.graphics_interface@
    }

    /// Adds a panel at `position` with extent `scale`, after the widgets the
    /// registry already holds.
    pub fn add_panel(&mut self, position: [S; 3], scale: [S; 2])
        ensures
            ({
                let widget = final(self)@[GeometryType::Quadrilateral].last();
                &&& final(self)@ == added(old(self)@, widget)
                &&& widget matches Widget::Panel(panel) && panel.kind()
                    == GeometryType::Quadrilateral && panel.position() == position
                    && panel.scale() == scale
            }),
    {
        let element = Panel::new(position, scale);
        self.graphics_interface.add_element(Widget::Panel(element));
    }

    /// Adds a button at `position` with extent `scale` that runs `action` when
    /// clicked, after the widgets the registry already holds.
    pub fn add_button(&mut self, position: [S; 3], scale: [S; 2], action: A)
        requires
            call_requires(action, ()),
        ensures
            ({
                let widget = final(self)@[GeometryType::Quadrilateral].last();
                &&& final(self)@ == added(old(self)@, widget)
                &&& widget matches Widget::Button(button) && button.kind()
                    == GeometryType::Quadrilateral && button.position() == position
                    && button.scale() == scale && button.action() == action
            }),
    {
        let element = Button::new(position, scale, action);
        self.graphics_interface.add_element(Widget::Button(element));
    }
}

} // verus!
