//! The top-level state machine of the panel.
//!
//! The controller owns the menu and the current mode. It is driven one event
//! at a time: the caller polls the switches, hands each event to
//! [`MenuController::step`] and carries out what comes back, the drawing
//! operations first and then the scene, if one is named.

use vstd::prelude::*;
use crate::cursor::{full_redraw, redraw_ops, repaint_ops, sync, sync_ops, DrawOp};
use crate::debounce::Event;
use crate::menu::{MenuItem, MenuModel, MenuView};

verus! {

/// The three switches of the panel.
#[derive(Clone, Copy, Debug, PartialEq, Eq, Structural)]
pub enum Input {
    Up,
    Down,
    Confirm,
}

/// What the surface shows: the menu, or the scene of one item.
#[derive(Clone, Copy, Debug, PartialEq, Eq, Structural)]
pub enum Mode {
    Navigating,
    InScene(u8),
}

/// What the caller has to do after a step.
#[derive(Debug, PartialEq, Eq)]
pub struct Reaction {
    /// Drawing operations, in the order in which they are carried out.
    pub ops: Vec<DrawOp>,
    /// The item whose scene is rendered once `ops` are done.
    pub scene: Option<u8>,
}

/// Mathematical model of the controller.
pub struct ControllerView {
    pub menu: MenuView,
    pub mode: Mode,
}

impl ControllerView {
    /// The menu is well formed and the surface is up to date with it: the
    /// controller redraws within every step that moves the selection.
    pub open spec fn wf(self) -> bool {
        &&& self.menu.wf()
        &&& self.menu.current == self.menu.previous
    }

    /// The state at power-on: the menu is shown with its first item selected.
    pub open spec fn initial(items: Seq<MenuItem>) -> ControllerView {
        ControllerView { menu: MenuView::initial(items), mode: Mode::Navigating }
    }

    /// The switches that matter in this state. Inside a scene only the
    /// confirm switch does.
    pub open spec fn listens_to(self, input: Input) -> bool {
        self.mode is Navigating || input is Confirm
    }

    /// The state after `event` was reported by the switch `input`.
    pub open spec fn step(self, input: Input, event: Event) -> ControllerView {
        match (self.mode, input, event) {
            (Mode::Navigating, Input::Up, Event::Pressed) => ControllerView {
                menu: self.menu.moved_previous().synced(),
                ..self
            },
            (Mode::Navigating, Input::Down, Event::Pressed) => ControllerView {
                menu: self.menu.moved_next().synced(),
                ..self
            },
            (Mode::Navigating, Input::Confirm, Event::Pressed) => ControllerView {
                mode: Mode::InScene(self.menu.items[self.menu.current].id),
                ..self
            },
            (Mode::InScene(_), Input::Confirm, Event::Pressed) => ControllerView {
                menu: self.menu.first_selected().synced(),
                mode: Mode::Navigating,
            },
            _ => self,
        }
    }

    /// The drawing operations that the step issues.
    pub open spec fn step_ops(self, input: Input, event: Event) -> Seq<DrawOp> {
        match (self.mode, input, event) {
            (Mode::Navigating, Input::Up, Event::Pressed) => sync_ops(self.menu.moved_previous()),
            (Mode::Navigating, Input::Down, Event::Pressed) => sync_ops(self.menu.moved_next()),
            (Mode::Navigating, Input::Confirm, Event::Pressed) => seq![DrawOp::Clear],
            (Mode::InScene(_), Input::Confirm, Event::Pressed) => redraw_ops(
                self.menu.first_selected(),
            ),
            _ => Seq::empty(),
        }
    }

    /// The scene that the step starts, if any.
    pub open spec fn step_scene(self, input: Input, event: Event) -> Option<u8> {
        match (self.mode, input, event) {
            (Mode::Navigating, Input::Confirm, Event::Pressed) => Some(
                self.menu.items[self.menu.current].id,
            ),
            _ => None,
        }
    }
}

/// The menu together with the mode of the panel.
pub struct MenuController {
    model: MenuModel,
    mode: Mode,
}

impl View for MenuController {
    type V = ControllerView;

    closed spec fn view(&self) -> ControllerView {
        ControllerView { menu: self.model@, mode: self.mode }
    }
}

fn idle() -> (reaction: Reaction)
    ensures
        reaction.ops@ == Seq::<DrawOp>::empty(),
        reaction.scene is None,
{
    let ops: Vec<DrawOp> = Vec::new();
    assert(ops@ =~= Seq::<DrawOp>::empty());
    Reaction { ops, scene: None }
}

impl MenuController {
    /// The invariant of the type: see [`ControllerView::wf`].
    pub open spec fn wf(&self) -> bool {
        self@.wf()
    }

    /// A controller in its power-on state for the items of `model`. The
    /// surface shows nothing of it until the operations of
    /// [`MenuController::repaint`] are carried out.
    pub fn new(model: MenuModel) -> (controller: MenuController)
        requires
            model.wf(),
        ensures
            controller.wf(),
            controller@ == ControllerView::initial(model@.items),
    {
        let mut model = model;
        model.select_first();
        model.mark_drawn();
        MenuController { model, mode: Mode::Navigating }
    }

    /// The current mode.
    pub fn mode(&self) -> (mode: Mode)
        ensures
            mode == self@.mode,
    {
        self.mode
    }

    /// The menu that the controller drives.
    pub fn model(&self) -> (model: &MenuModel)
        ensures
            model@ == self@.menu,
    {
        &self.model
    }

    /// Says whether the switch `input` has to be polled in the current mode.
    pub fn listens_to(&self, input: Input) -> (listens: bool)
        ensures
            listens == self@.listens_to(input),
    {
        match self.mode {
            Mode::Navigating => true,
            Mode::InScene(_) => match input {
                Input::Confirm => true,
                _ => false,
            },
        }
    }

    /// The operations that paint the menu from scratch, as they are needed
    /// for the first frame.
    pub fn repaint(&self) -> (ops: Vec<DrawOp>)
        requires
            self.wf(),
        ensures
            ops@ == redraw_ops(self@.menu),
    {
        repaint_ops(&self.model)
    }

    /// Reacts to one event of one switch.
    ///
    /// While the menu is shown, a press of up or down moves the selection
    /// and updates the indicator, and a press of confirm clears the surface
    /// and starts the scene of the selected item. While a scene is shown, a
    /// press of confirm selects the first item and repaints the menu.
    /// Releases, polls that report nothing, and presses of up or down inside
    /// a scene change nothing and issue nothing.
    pub fn step(&mut self, input: Input, event: Event) -> (reaction: Reaction)
        requires
            old(self).wf(),
        ensures
            final(self).wf(),
            final(self)@ == old(self)@.step(input, event),
            reaction.ops@ == old(self)@.step_ops(input, event),
            reaction.scene == old(self)@.step_scene(input, event),
    {
        match event {
            Event::Pressed => {},
            _ => {
                return idle();
            },
        }
        match self.mode {
            Mode::Navigating => match input {
                Input::Up => {
                    self.model.move_previous();
                    let ops = sync(&mut self.model);
                    Reaction { ops, scene: None }
                },
                Input::Down => {
                    self.model.move_next();
                    let ops = sync(&mut self.model);
                    Reaction { ops, scene: None }
                },
                Input::Confirm => {
                    let id: u8 = self.model.item(self.model.current_index()).id;
                    self.mode = Mode::InScene(id);
                    let mut ops: Vec<DrawOp> = Vec::new();
                    ops.push(DrawOp::Clear);
                    assert(ops@ =~= seq![DrawOp::Clear]);
                    Reaction { ops, scene: Some(id) }
                },
            },
            Mode::InScene(_) => match input {
                Input::Confirm => {
                    self.model.select_first();
                    let ops = full_redraw(&mut self.model);
                    self.mode = Mode::Navigating;
                    Reaction { ops, scene: None }
                },
                _ => idle(),
            },
        }
    }
}

} // verus!
