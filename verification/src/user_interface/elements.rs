//! The widgets: panels, buttons, and the sum of the two that a registry holds.

use vstd::prelude::*;
use crate::types::{GeometryType, Instance, Propagate};

verus! {

/// The instance of a widget placed at `position` with extent `scale`: the
/// first two components of the position, the third being ignored, and the
/// scale as it is.
pub open spec fn instance_at<S>(position: [S; 3], scale: [S; 2]) -> Instance<S> {
    Instance { position: [position[0], position[1]], scale }
}

/// A rectangle without interaction.
pub struct Panel<S> {
    geometry_type: GeometryType,
    position: [S; 3],
    scale: [S; 2],
}

impl<S: Copy> Panel<S> {
    pub closed spec fn kind(&self) -> GeometryType {
        self.geometry_type
    }

    pub closed spec fn position(&self) -> [S; 3] {
        self.position
    }

    pub closed spec fn scale(&self) -> [S; 2] {
        self.scale
    }

    /// The normalised instance that staging reads off this panel.
    pub open spec fn instance(&self) -> Instance<S> {
        instance_at(self.position(), self.scale())
    }

    /// A quadrilateral panel at `position` with extent `scale`. Any values are
    /// accepted as they are.
    pub fn new(position: [S; 3], scale: [S; 2]) -> (panel: Self)
        ensures
            panel.kind() == GeometryType::Quadrilateral,
            panel.position() == position,
            panel.scale() == scale,
    {
        Panel { geometry_type: GeometryType::Quadrilateral, position, scale }
    }

    pub fn geometry(&self) -> (kind: GeometryType)
        ensures
            kind == self.kind(),
    {
        self.geometry_type
    }

    pub fn as_instance(&self) -> (instance: Instance<S>)
        ensures
            instance == self.instance(),
    {
        Instance { position: [self.position[0], self.position[1]], scale: self.scale }
    }
}

/// A rectangle that answers a click by running its action.
///
/// The action is owned by the button. A button can only be made of an action
/// that accepts being called, so clicking never needs a precondition.
pub struct Button<S, A: Fn() -> Propagate> {
    geometry_type: GeometryType,
    position: [S; 3],
    scale: [S; 2],
    action: A,
}

impl<S, A: Fn() -> Propagate> Button<S, A> {
    #[verifier::type_invariant]
    spec fn action_is_callable(self) -> bool {
        call_requires(self.action, ())
    }
}

impl<S: Copy, A: Fn() -> Propagate> Button<S, A> {
    pub closed spec fn kind(&self) -> GeometryType {
        self.geometry_type
    }

    pub closed spec fn position(&self) -> [S; 3] {
        self.position
    }

    pub closed spec fn scale(&self) -> [S; 2] {
        self.scale
    }

    pub closed spec fn action(&self) -> A {
        self.action
    }

    /// The normalised instance that staging reads off this button.
    pub open spec fn instance(&self) -> Instance<S> {
        instance_at(self.position(), self.scale())
    }

    /// A quadrilateral button at `position` with extent `scale` that runs
    /// `action` when clicked.
    pub fn new(position: [S; 3], scale: [S; 2], action: A) -> (button: Self)
        requires
            call_requires(action, ()),
        ensures
            button.kind() == GeometryType::Quadrilateral,
            button.position() == position,
            button.scale() == scale,
            button.action() == action,
    {
        Button { geometry_type: GeometryType::Quadrilateral, position, scale, action }
    }

    pub fn geometry(&self) -> (kind: GeometryType)
        ensures
            kind == self.kind(),
    {
        self.geometry_type
    }

    pub fn as_instance(&self) -> (instance: Instance<S>)
        ensures
            instance == self.instance(),
    {
        Instance { position: [self.position[0], self.position[1]], scale: self.scale }
    }

    /// A button is always clickable: the capability is the button itself.
    pub fn as_clickable(&self) -> (clickable: Option<&Self>)
        ensures
            clickable == Some(self),
    {
        Some(self)
    }

    /// Runs the action once and hands its answer back unchanged.
    pub fn click(&self) -> (answer: Propagate)
        ensures
            call_ensures(self.action(), (), answer),
    {
        proof {
            use_type_invariant(self);
        }
        (self.action)()
    }
}

/// Any widget a registry can hold.
pub enum Widget<S, A: Fn() -> Propagate> {
    Panel(Panel<S>),
    Button(Button<S, A>),
}

impl<S: Copy, A: Fn() -> Propagate> Widget<S, A> {
    /// The geometry kind the widget is drawn with.
    pub open spec fn kind(&self) -> GeometryType {
        match self {
            Widget::Panel(panel) => panel.kind(),
            Widget::Button(button) => button.kind(),
        }
    }

    /// The normalised instance that staging reads off the widget.
    pub open spec fn instance(&self) -> Instance<S> {
        match self {
            Widget::Panel(panel) => panel.instance(),
            Widget::Button(button) => button.instance(),
        }
    }

    pub fn geometry(&self) -> (kind: GeometryType)
        ensures
            kind == self.kind(),
    {
        match self {
            Widget::Panel(panel) => panel.geometry(),
            Widget::Button(button) => button.geometry(),
        }
    }

    pub fn as_instance(&self) -> (instance: Instance<S>)
        ensures
            instance == self.instance(),
    {
        match self {
            Widget::Panel(panel) => panel.as_instance(),
            Widget::Button(button) => button.as_instance(),
        }
    }

    /// The widget's click capability: the button itself for a button, nothing
    /// for a panel.
    pub fn as_clickable(&self) -> (clickable: Option<&Button<S, A>>)
        ensures
            match self {
                Widget::Panel(_) => clickable is None,
                Widget::Button(button) => clickable == Some(button),
            },
    {
        match self {
            Widget::Panel(_) => None,
            Widget::Button(button) => Some(button),
        }
    }
}

} // verus!
