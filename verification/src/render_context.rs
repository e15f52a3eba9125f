//! The interaction context: the state that turns the one input event of a
//! frame into at most one action.
//!
//! A frame runs in three steps. The driver hands the frame's event to
//! [`RenderContext::set_last_event`]. During the render pass every
//! interactive widget asks [`RenderContext::hovered`] and
//! [`RenderContext::mouse_down`] how to draw itself and offers its action to
//! [`RenderContext::clicked`]; each of these may claim the frame's single
//! action slot. [`RenderContext::finish_render`] then hands the slot's content
//! out, and [`RenderContext::dispatch`] records a change of the hover or
//! press target.

use vstd::prelude::*;

use crate::actions::{GameAction, InterfaceAction};
use crate::event::Event;
use crate::geometry::Rect;
use crate::widget_id::WidgetId;

verus! {

/// What a [`RenderContext`] holds, as a mathematical value.
pub struct ContextState {
    /// The event of the running frame, until the frame is finished.
    pub event: Option<Event>,
    /// The widget the pointer rests on.
    pub current_hover: Option<WidgetId>,
    /// The widget on which the button went down and has not come up yet.
    pub current_mouse_down: Option<WidgetId>,
    /// Whether the quit key has been pressed.
    pub exit: bool,
    /// The action claimed so far in the running frame.
    pub action: Option<InterfaceAction>,
}

impl ContextState {
    /// The state at startup: no event, no targets, no action, no exit.
    pub open spec fn empty() -> ContextState {
        ContextState {
            event: None,
            current_hover: None,
            current_mouse_down: None,
            exit: false,
            action: None,
        }
    }

    /// The frame's event is a movement of the pointer onto a cell of `area`.
    pub open spec fn hover_gained(self, area: Rect) -> bool {
        &&& self.event matches Some(event)
        &&& event.moved_to() matches Some(position)
        &&& area.contains(position)
    }

    /// The frame's event is a movement of the pointer off `area`, `id` is
    /// the hover target, and no action has been claimed yet.
    pub open spec fn hover_lost(self, id: WidgetId, area: Rect) -> bool {
        &&& self.event matches Some(event)
        &&& event.moved_to() matches Some(position)
        &&& !area.contains(position)
        &&& self.current_hover == Some(id)
        &&& self.action is None
    }

    /// The frame's event is a button going down on a cell of `area`.
    pub open spec fn press_gained(self, area: Rect) -> bool {
        &&& self.event matches Some(event)
        &&& event.pressed_at() matches Some(position)
        &&& area.contains(position)
    }

    /// The frame's event is a button going down off `area`, `id` is
    /// the press target, and no action has been claimed yet.
    pub open spec fn press_lost(self, id: WidgetId, area: Rect) -> bool {
        &&& self.event matches Some(event)
        &&& event.pressed_at() matches Some(position)
        &&& !area.contains(position)
        &&& self.current_mouse_down == Some(id)
        &&& self.action is None
    }

    /// The frame's event is a button coming up on a cell of `area`
    /// while `id` is the press target.
    pub open spec fn click_fires(self, id: WidgetId, area: Rect) -> bool {
        &&& self.event matches Some(event)
        &&& event.released_at() matches Some(position)
        &&& area.contains(position)
        &&& self.current_mouse_down == Some(id)
    }

    /// The frame's event is a button coming up, wherever.
    pub open spec fn button_released(self) -> bool {
        &&& self.event matches Some(event)
        &&& event.released_at() is Some
    }

    /// The state with `action` in the action slot and all else unchanged.
    pub open spec fn claim(self, action: InterfaceAction) -> ContextState {
        ContextState { action: Some(action), ..self }
    }

    /// The state after `event` has been taken in as the frame's event: a
    /// press of the quit key requests the exit, and a request once made
    /// stays.
    pub open spec fn set_last_event(self, event: Option<Event>) -> ContextState {
        ContextState {
            event,
            exit: self.exit || (event matches Some(e) && e.is_quit()),
            ..self
        }
    }

    /// The state after the widget `id`, drawn on `area`, has asked whether
    /// it is hovered. Gaining the hover claims the slot whatever it holds;
    /// losing it claims only an empty slot.
    pub open spec fn hovered(self, id: WidgetId, area: Rect) -> ContextState {
        if self.hover_gained(area) {
            self.claim(InterfaceAction::SetHover(Some(id)))
        } else if self.hover_lost(id, area) {
            self.claim(InterfaceAction::SetHover(None))
        } else {
            self
        }
    }

    /// The state after the widget `id`, drawn on `area`, has asked whether
    /// it is pressed. Gaining the press claims the slot whatever it holds;
    /// a press that goes down elsewhere while `id` is the press target
    /// claims an empty slot with a clearing of the hover target.
    pub open spec fn mouse_down(self, id: WidgetId, area: Rect) -> ContextState {
        if self.press_gained(area) {
            self.claim(InterfaceAction::SetMouseDown(Some(id)))
        } else if self.press_lost(id, area) {
            self.claim(InterfaceAction::SetHover(None))
        } else {
            self
        }
    }

    /// The state after the widget `id`, drawn on `area`, has offered
    /// `action` for a click. A click claims the slot whatever it holds.
    pub open spec fn clicked(self, id: WidgetId, area: Rect, action: InterfaceAction)
        -> ContextState {
        if self.click_fires(id, area) {
            self.claim(action)
        } else {
            self
        }
    }

    /// The state after the frame: event and action slot are empty, and a
    /// release of the button has ended the press.
    pub open spec fn finish_render(self) -> ContextState {
        ContextState {
            event: None,
            action: None,
            current_mouse_down: if self.button_released() {
                None
            } else {
                self.current_mouse_down
            },
            ..self
        }
    }

    pub open spec fn set_current_hover(self, current: Option<WidgetId>) -> ContextState {
        ContextState { current_hover: current, ..self }
    }

    pub open spec fn set_current_mouse_down(self, current: Option<WidgetId>) -> ContextState {
        ContextState { current_mouse_down: current, ..self }
    }

    /// The state after `action` has been carried out as far as it concerns
    /// the context: a change of a target is recorded, a command of the game
    /// changes nothing here.
    pub open spec fn dispatch(self, action: InterfaceAction) -> ContextState {
        match action {
            InterfaceAction::GameAction(_) => self,
            InterfaceAction::SetHover(id) => self.set_current_hover(id),
            InterfaceAction::SetMouseDown(id) => self.set_current_mouse_down(id),
        }
    }
}

/// The command of the game that `action` carries, if it carries one.
pub open spec fn forwarded_command(action: InterfaceAction) -> Option<GameAction> {
    match action {
        InterfaceAction::GameAction(command) => Some(command),
        _ => None,
    }
}

/// The interaction state of the interface. One context lives as long as the
/// interface does.
pub struct RenderContext {
    event: Option<Event>,
    current_hover: Option<WidgetId>,
    current_mouse_down: Option<WidgetId>,
    exit: bool,
    action: Option<InterfaceAction>,
}

impl View for RenderContext {
    type V = ContextState;

    closed spec fn view(&self) -> ContextState {
        ContextState {
            event: self.event,
            current_hover: self.current_hover,
            current_mouse_down: self.current_mouse_down,
            exit: self.exit,
            action: self.action,
        }
    }
}

impl Default for RenderContext {
    /// The context at startup.
    fn default() -> (context: RenderContext)
        ensures
            context@ == ContextState::empty(),
    {
        RenderContext {
            event: None,
            current_hover: None,
            current_mouse_down: None,
            exit: false,
            action: None,
        }
    }
}

impl RenderContext {
    /// Takes in the frame's event, or `None` where the frame has none. A
    /// press of the quit key requests the exit before the event is stored.
    pub fn set_last_event(&mut self, event: Option<Event>)
        ensures
            final(self)@ == old(self)@.set_last_event(event),
    {
        if let Some(e) = event {
            if e.is_quit() {
                self.exit = true;
            }
        }
        self.event = event;
    }

    pub fn set_current_hover(&mut self, current: Option<WidgetId>)
        ensures
            final(self)@ == old(self)@.set_current_hover(current),
    {
        self.current_hover = current;
    }

    pub fn set_current_mouse_down(&mut self, current: Option<WidgetId>)
        ensures
            final(self)@ == old(self)@.set_current_mouse_down(current),
    {
        self.current_mouse_down = current;
    }

    /// Whether the quit key has been pressed since startup.
    pub fn should_exit(&self) -> (exit: bool)
        ensures
            exit == self@.exit,
    {
        self.exit
    }

    /// Ends the frame and hands out the action it resolved to, if any.
    pub fn finish_render(&mut self) -> (action: Option<InterfaceAction>)
        ensures
            action == old(self)@.action,
            final(self)@ == old(self)@.finish_render(),
    {
        let action = self.action;
        self.action = None;
        if let Some(event) = self.event {
            if event.released_at().is_some() {
                self.current_mouse_down = None;
            }
        }
        self.event = None;
        action
    }

    /// Whether `id` was the hover target when the frame began. If the
    /// frame's event moves the pointer, the widget's claim on the action
    /// slot is made as [`ContextState::hovered`] says.
    pub fn hovered(&mut self, id: WidgetId, area: Rect) -> (current: bool)
        ensures
            current == (old(self)@.current_hover == Some(id)),
            final(self)@ == old(self)@.hovered(id, area),
    {
        let current = is_target(self.current_hover, id);
        if let Some(event) = self.event {
            if let Some(position) = event.moved_to() {
                if area.contains(position) {
                    self.action = Some(InterfaceAction::SetHover(Some(id)));
                } else if current && self.action.is_none() {
                    self.action = Some(InterfaceAction::SetHover(None));
                }
            }
        }
        current
    }

    /// Whether `id` was the press target when the frame began. If the
    /// frame's event is a button going down, the widget's claim on
    /// the action slot is made as [`ContextState::mouse_down`] says.
    pub fn mouse_down(&mut self, id: WidgetId, area: Rect) -> (current: bool)
        ensures
            current == (old(self)@.current_mouse_down == Some(id)),
            final(self)@ == old(self)@.mouse_down(id, area),
    {
        let current = is_target(self.current_mouse_down, id);
        if let Some(event) = self.event {
            if let Some(position) = event.pressed_at() {
                if area.contains(position) {
                    self.action = Some(InterfaceAction::SetMouseDown(Some(id)));
                } else if current && self.action.is_none() {
                    self.action = Some(InterfaceAction::SetHover(None));
                }
            }
        }
        current
    }

    /// Offers `action` as the result of a click on the widget `id`, drawn on
    /// `area`. The frame resolves to it exactly if a button comes up
    /// on `area` while `id` is the press target.
    pub fn clicked(&mut self, id: WidgetId, area: Rect, action: InterfaceAction)
        ensures
            final(self)@ == old(self)@.clicked(id, area, action),
    {
        if let Some(event) = self.event {
            if let Some(position) = event.released_at() {
                if area.contains(position) && is_target(self.current_mouse_down, id) {
                    self.action = Some(action);
                }
            }
        }
    }

    /// Carries out the part of `action` that concerns the context and hands
    /// back the command of the game that is left for the game's rules.
    pub fn dispatch(&mut self, action: InterfaceAction) -> (command: Option<GameAction>)
        ensures
            final(self)@ == old(self)@.dispatch(action),
            command == forwarded_command(action),
    {
        match action {
            InterfaceAction::GameAction(command) => Some(command),
            InterfaceAction::SetHover(id) => {
                self.set_current_hover(id);
                None
            },
            InterfaceAction::SetMouseDown(id) => {
                self.set_current_mouse_down(id);
                None
            },
        }
    }
}

/// Whether `slot` holds `id`.
fn is_target(slot: Option<WidgetId>, id: WidgetId) -> (held: bool)
    ensures
        held == (slot == Some(id)),
{
    match slot {
        Some(current) => current == id,
        None => false,
    }
}

} // verus!
