//! Whole render passes and whole frames, and what holds of them.
//!
//! A widget takes part in a render pass by asking the context whether it is
//! hovered, whether it is pressed, and by offering its action for a click, in
//! that order. The functions here describe a pass over any number of widgets
//! in render order and the frame around it; the proof functions state what
//! the order of claims comes to.

use vstd::prelude::*;

use crate::actions::{GameAction, InterfaceAction};
use crate::event::{Event, MouseButton, MouseEvent, MouseEventKind};
use crate::geometry::{Position, Rect};
use crate::render_context::{forwarded_command, ContextState, RenderContext};
use crate::widget_id::WidgetId;

verus! {

/// How long the driver waits for an input event before it goes on with a
/// frame that has none, in milliseconds.
pub const POLL_MILLIS: u64 = 16;

/// What an interactive widget brings to a render pass.
#[derive(Copy, Clone, Debug, PartialEq, Eq, Structural)]
pub struct Widget {
    pub id: WidgetId,
    /// Where the widget is drawn.
    pub area: Rect,
    /// What a click on the widget resolves to.
    pub action: InterfaceAction,
}

/// What a widget learns from the context for drawing itself.
#[derive(Copy, Clone, Debug, PartialEq, Eq, Structural)]
pub struct Interaction {
    /// The pointer rested on the widget when the frame began.
    pub hovered: bool,
    /// The button was down on the widget when the frame began.
    pub pressed: bool,
}

/// The index of the last widget of `widgets` that `wanted` holds of.
pub open spec fn last_where(widgets: Seq<Widget>, wanted: spec_fn(Widget) -> bool) -> Option<int>
    decreases widgets.len(),
{
    if widgets.len() == 0 {
        None
    } else if wanted(widgets.last()) {
        Some(widgets.len() - 1)
    } else {
        last_where(widgets.drop_last(), wanted)
    }
}

/// The index of the widget drawn last among those whose area holds
/// `position`.
pub open spec fn topmost_at(widgets: Seq<Widget>, position: Position) -> Option<int> {
    last_where(widgets, |w: Widget| w.area.contains(position))
}

/// The index of the widget drawn last among those that `target` names.
pub open spec fn last_named(widgets: Seq<Widget>, target: Option<WidgetId>) -> Option<int> {
    last_where(widgets, |w: Widget| target == Some(w.id))
}

/// The index of the widget drawn last among those that `target` names and
/// whose area holds `position`.
pub open spec fn last_named_at(
    widgets: Seq<Widget>,
    target: Option<WidgetId>,
    position: Position,
) -> Option<int> {
    last_where(widgets, |w: Widget| target == Some(w.id) && w.area.contains(position))
}

/// A movement of the pointer to `position`.
pub open spec fn moved(position: Position) -> Event {
    Event::Mouse(MouseEvent { kind: MouseEventKind::Moved, column: position.x, row: position.y })
}

/// The button `button` going down at `position`.
pub open spec fn button_down(button: MouseButton, position: Position) -> Event {
    Event::Mouse(
        MouseEvent { kind: MouseEventKind::Down(button), column: position.x, row: position.y },
    )
}

/// The button `button` coming up at `position`.
pub open spec fn button_up(button: MouseButton, position: Position) -> Event {
    Event::Mouse(
        MouseEvent { kind: MouseEventKind::Up(button), column: position.x, row: position.y },
    )
}

impl ContextState {
    /// The state after `widget` has taken its part in the pass.
    pub open spec fn render(self, widget: Widget) -> ContextState {
        self.hovered(widget.id, widget.area).mouse_down(widget.id, widget.area).clicked(
            widget.id,
            widget.area,
            widget.action,
        )
    }

    /// The state after the widgets have taken their parts, first to last.
    pub open spec fn render_pass(self, widgets: Seq<Widget>) -> ContextState
        decreases widgets.len(),
    {
        if widgets.len() == 0 {
            self
        } else {
            self.render_pass(widgets.drop_last()).render(widgets.last())
        }
    }

    /// The state after the frame has been finished and the action it
    /// resolved to has been dispatched.
    pub open spec fn end_frame(self) -> ContextState {
        match self.action {
            Some(action) => self.finish_render().dispatch(action),
            None => self.finish_render(),
        }
    }

    /// The state after a whole frame: `event` is taken in, `widgets` are
    /// rendered, the frame is finished and its action dispatched.
    pub open spec fn frame(self, event: Option<Event>, widgets: Seq<Widget>) -> ContextState {
        self.set_last_event(event).render_pass(widgets).end_frame()
    }

    /// The action that a whole frame resolves to.
    pub open spec fn frame_action(self, event: Option<Event>, widgets: Seq<Widget>) -> Option<
        InterfaceAction,
    > {
        self.set_last_event(event).render_pass(widgets).action
    }
}

impl RenderContext {
    /// A widget's whole part in a render pass: it asks whether it is
    /// hovered, asks whether it is pressed, and offers its action for a
    /// click, in this order. The answers tell how the widget was left by the
    /// frames before; the claims of this frame show when it is finished.
    pub fn interact(&mut self, id: WidgetId, area: Rect, action: InterfaceAction) -> (seen:
        Interaction)
        ensures
            seen.hovered == (old(self)@.current_hover == Some(id)),
            seen.pressed == (old(self)@.current_mouse_down == Some(id)),
            final(self)@ == old(self)@.render(Widget { id, area, action }),
    {
        let hovered = self.hovered(id, area);
        let pressed = self.mouse_down(id, area);
        self.clicked(id, area, action);
        Interaction { hovered, pressed }
    }

    /// Ends the frame: the action it resolved to is taken out of the slot
    /// and dispatched. A change of the hover or press target is recorded in
    /// the context; a command of the game is handed back for the game's
    /// rules. At most one command comes out of a frame.
    pub fn end_frame(&mut self) -> (command: Option<GameAction>)
        ensures
            final(self)@ == old(self)@.end_frame(),
            command == match old(self)@.action {
                Some(action) => forwarded_command(action),
                None => None,
            },
    {
        match self.finish_render() {
            Some(action) => self.dispatch(action),
            None => None,
        }
    }
}

/// `last_where` finds an index exactly if `wanted` holds of some widget, and
/// the index it finds is the greatest of which `wanted` holds.
pub proof fn lemma_last_where(widgets: Seq<Widget>, wanted: spec_fn(Widget) -> bool)
    ensures
        match last_where(widgets, wanted) {
            Some(i) => {
                &&& 0 <= i < widgets.len()
                &&& wanted(widgets[i])
                &&& forall|j: int| i < j < widgets.len() ==> !wanted(#[trigger] widgets[j])
            },
            None => forall|j: int| 0 <= j < widgets.len() ==> !wanted(#[trigger] widgets[j]),
        },
    decreases widgets.len(),
{
    if widgets.len() > 0 && !wanted(widgets.last()) {
        let init = widgets.drop_last();
        lemma_last_where(init, wanted);
        match last_where(init, wanted) {
            Some(i) => {
                assert forall|j: int| i < j < widgets.len() implies !wanted(
                    #[trigger] widgets[j],
                ) by {
                    if j < init.len() {
                        assert(widgets[j] == init[j]);
                    }
                }
            },
            None => {
                assert forall|j: int| 0 <= j < widgets.len() implies !wanted(
                    #[trigger] widgets[j],
                ) by {
                    if j < init.len() {
                        assert(widgets[j] == init[j]);
                    }
                }
            },
        }
    }
}

/// A widget's part in a pass changes nothing but the action slot.
pub proof fn lemma_render_changes_only_action(state: ContextState, widget: Widget)
    ensures
        state.render(widget) == (ContextState { action: state.render(widget).action, ..state }),
{
}

/// A render pass changes nothing but the action slot: the event, both
/// targets and the exit request are what they were before it.
pub proof fn lemma_pass_changes_only_action(state: ContextState, widgets: Seq<Widget>)
    ensures
        state.render_pass(widgets) == (ContextState {
            action: state.render_pass(widgets).action,
            ..state
        }),
    decreases widgets.len(),
{
    if widgets.len() > 0 {
        lemma_pass_changes_only_action(state, widgets.drop_last());
        lemma_render_changes_only_action(state.render_pass(widgets.drop_last()), widgets.last());
    }
}

/// In a frame whose event moves the pointer to `position`, the pass
/// resolves to the hover of the widget drawn last among those under the
/// pointer. With no widget under the pointer, and the slot empty before the
/// pass, it resolves to a clearing of the hover if the hover target is among
/// the widgets, and to nothing if it is not. A slot that was filled before
/// the pass is only ever overwritten by a gain.
pub proof fn lemma_move_pass(state: ContextState, widgets: Seq<Widget>, position: Position)
    requires
        state.event matches Some(event) && event.moved_to() == Some(position),
    ensures
        state.render_pass(widgets).action == match topmost_at(widgets, position) {
            Some(i) => Some(InterfaceAction::SetHover(Some(widgets[i].id))),
            None => if state.action is None && last_named(widgets, state.current_hover) is Some {
                Some(InterfaceAction::SetHover(None))
            } else {
                state.action
            },
        },
    decreases widgets.len(),
{
    if widgets.len() > 0 {
        let init = widgets.drop_last();
        lemma_move_pass(state, init, position);
        lemma_pass_changes_only_action(state, init);
        lemma_last_where(init, |w: Widget| w.area.contains(position));
    }
}

/// In a frame whose event is a button going down at `position`, the
/// pass resolves to the press of the widget drawn last among those under
/// the pointer. With no widget under the pointer, and the slot empty before
/// the pass, it resolves to a clearing of the hover if the press target is
/// among the widgets, and to nothing if it is not.
pub proof fn lemma_press_pass(state: ContextState, widgets: Seq<Widget>, position: Position)
    requires
        state.event matches Some(event) && event.pressed_at() == Some(position),
    ensures
        state.render_pass(widgets).action == match topmost_at(widgets, position) {
            Some(i) => Some(InterfaceAction::SetMouseDown(Some(widgets[i].id))),
            None => if state.action is None && last_named(widgets, state.current_mouse_down)
                is Some {
                Some(InterfaceAction::SetHover(None))
            } else {
                state.action
            },
        },
    decreases widgets.len(),
{
    if widgets.len() > 0 {
        let init = widgets.drop_last();
        lemma_press_pass(state, init, position);
        lemma_pass_changes_only_action(state, init);
        lemma_last_where(init, |w: Widget| w.area.contains(position));
    }
}

/// In a frame whose event is a button coming up at `position`, the
/// pass resolves to the action of the widget drawn last among those that
/// are the press target and lie under the pointer; with no such widget the
/// slot is left as it was.
pub proof fn lemma_release_pass(state: ContextState, widgets: Seq<Widget>, position: Position)
    requires
        state.event matches Some(event) && event.released_at() == Some(position),
    ensures
        state.render_pass(widgets).action == match last_named_at(
            widgets,
            state.current_mouse_down,
            position,
        ) {
            Some(i) => Some(widgets[i].action),
            None => state.action,
        },
    decreases widgets.len(),
{
    if widgets.len() > 0 {
        let init = widgets.drop_last();
        let target = state.current_mouse_down;
        lemma_release_pass(state, init, position);
        lemma_pass_changes_only_action(state, init);
        lemma_last_where(init, |w: Widget| target == Some(w.id) && w.area.contains(position));
    }
}

/// In a frame whose event is neither a movement of the pointer nor a button
/// going down or coming up, or that has no event, a pass changes nothing.
pub proof fn lemma_idle_pass(state: ContextState, widgets: Seq<Widget>)
    requires
        state.event matches Some(event) ==> {
            &&& event.moved_to() is None
            &&& event.pressed_at() is None
            &&& event.released_at() is None
        },
    ensures
        state.render_pass(widgets) == state,
    decreases widgets.len(),
{
    if widgets.len() > 0 {
        lemma_idle_pass(state, widgets.drop_last());
    }
}

/// What a press frame and the release frame after it come to, for the same
/// widgets in both and for any button going down and any button coming up.
/// The press frame makes the widget drawn last under the
/// pointer the press target, and leaves the target alone where no widget is
/// under the pointer. The release frame resolves to the action of the widget
/// drawn last among those that are the press target and lie under the
/// pointer, and to nothing where there is none.
pub proof fn lemma_press_then_release(
    state: ContextState,
    widgets: Seq<Widget>,
    pressed_with: MouseButton,
    press: Position,
    released_with: MouseButton,
    release: Position,
)
    requires
        state.action is None,
    ensures
        ({
            let pressed = state.frame(Some(button_down(pressed_with, press)), widgets);
            &&& pressed.action is None
            &&& pressed.current_mouse_down == match topmost_at(widgets, press) {
                Some(i) => Some(widgets[i].id),
                None => state.current_mouse_down,
            }
            &&& pressed.frame_action(Some(button_up(released_with, release)), widgets)
                == match last_named_at(widgets, pressed.current_mouse_down, release) {
                Some(j) => Some(widgets[j].action),
                None => None,
            }
        }),
{
    let down = state.set_last_event(Some(button_down(pressed_with, press)));
    lemma_press_pass(down, widgets, press);
    lemma_pass_changes_only_action(down, widgets);
    let pressed = state.frame(Some(button_down(pressed_with, press)), widgets);
    let up = pressed.set_last_event(Some(button_up(released_with, release)));
    lemma_release_pass(up, widgets, release);
}

/// A click fires exactly if a button goes down and a button comes up on the
/// same widget, both times inside its area. Which buttons they are makes no
/// difference.
///
/// The widgets have distinct identifiers and none of them is the press
/// target before the press. A button goes down at `press` in one frame and
/// a button comes up at `release` in the next. Then the release frame resolves to the
/// action of the widget that took the press, if the release lies in that
/// widget's area, and to nothing otherwise: not if the press was on no
/// widget, and not if the release is outside the pressed widget, be it on
/// another one.
pub proof fn lemma_click_iff_press_and_release_on_same_widget(
    state: ContextState,
    widgets: Seq<Widget>,
    pressed_with: MouseButton,
    press: Position,
    released_with: MouseButton,
    release: Position,
)
    requires
        state.action is None,
        forall|i: int, j: int|
            0 <= i < widgets.len() && 0 <= j < widgets.len() && widgets[i].id == widgets[j].id
                ==> i == j,
        forall|i: int|
            0 <= i < widgets.len() ==> state.current_mouse_down != Some(#[trigger] widgets[i].id),
    ensures
        state.frame(Some(button_down(pressed_with, press)), widgets).frame_action(
            Some(button_up(released_with, release)),
            widgets,
        ) == match topmost_at(widgets, press) {
            Some(k) => if widgets[k].area.contains(release) {
                Some(widgets[k].action)
            } else {
                None
            },
            None => None,
        },
{
    lemma_press_then_release(state, widgets, pressed_with, press, released_with, release);
    let pressed = state.frame(Some(button_down(pressed_with, press)), widgets);
    let target = pressed.current_mouse_down;
    lemma_last_where(widgets, |w: Widget| w.area.contains(press));
    lemma_last_where(widgets, |w: Widget| target == Some(w.id) && w.area.contains(release));
}

/// The same for a single widget: with the widget not pressed beforehand, the
/// release frame resolves to its action exactly if press and release both
/// lie in its area.
pub proof fn lemma_click_iff_both_inside(
    state: ContextState,
    widget: Widget,
    pressed_with: MouseButton,
    press: Position,
    released_with: MouseButton,
    release: Position,
)
    requires
        state.action is None,
        state.current_mouse_down != Some(widget.id),
    ensures
        state.frame(Some(button_down(pressed_with, press)), seq![widget]).frame_action(
            Some(button_up(released_with, release)),
            seq![widget],
        ) == if widget.area.contains(press) && widget.area.contains(release) {
            Some(widget.action)
        } else {
            None
        },
{
    let widgets = seq![widget];
    lemma_click_iff_press_and_release_on_same_widget(
        state,
        widgets,
        pressed_with,
        press,
        released_with,
        release,
    );
    lemma_last_where(widgets, |w: Widget| w.area.contains(press));
}

/// Only the owner of the hover clears it. A widget that is not the hover
/// target leaves the context as it is unless the pointer has moved onto its
/// own area, and then it claims the hover for itself.
pub proof fn lemma_hover_cleared_only_by_owner(state: ContextState, id: WidgetId, area: Rect)
    requires
        state.current_hover != Some(id),
    ensures
        !state.hover_gained(area) ==> state.hovered(id, area) == state,
        state.hover_gained(area) ==> state.hovered(id, area).action == Some(
            InterfaceAction::SetHover(Some(id)),
        ),
{
}

/// A clearing never displaces a claim: with the slot filled, a widget's
/// hover and press queries change it only by a gain of their own.
pub proof fn lemma_clear_takes_only_empty_slot(state: ContextState, id: WidgetId, area: Rect)
    requires
        state.action is Some,
    ensures
        !state.hover_gained(area) ==> state.hovered(id, area) == state,
        !state.press_gained(area) ==> state.mouse_down(id, area) == state,
{
}

/// After a frame whose event is a button coming up, no widget is
/// pressed, whether or not the frame resolved to a click. Finishing the
/// frame ends the press; dispatching what the frame resolved to leaves it
/// ended, unless that very action names a new press target.
pub proof fn lemma_release_ends_press(state: ContextState, event: Event, widgets: Seq<Widget>)
    requires
        event.released_at() is Some,
    ensures
        state.set_last_event(Some(event)).render_pass(widgets).finish_render().current_mouse_down
            is None,
        !(state.frame_action(Some(event), widgets) matches Some(InterfaceAction::SetMouseDown(_)))
            ==> state.frame(Some(event), widgets).current_mouse_down is None,
{
    lemma_pass_changes_only_action(state.set_last_event(Some(event)), widgets);
}

/// A click takes the slot whatever it holds, and no later hover or press
/// query of the same frame takes it back.
pub proof fn lemma_click_wins(
    state: ContextState,
    id: WidgetId,
    area: Rect,
    action: InterfaceAction,
    later_id: WidgetId,
    later_area: Rect,
)
    requires
        state.click_fires(id, area),
    ensures
        state.clicked(id, area, action).action == Some(action),
        state.clicked(id, area, action).hovered(later_id, later_area).action == Some(action),
        state.clicked(id, area, action).mouse_down(later_id, later_area).action == Some(action),
{
}

/// Finishing a frame empties the slot: the action that one call of
/// `finish_render` hands out is not handed out by the next.
pub proof fn lemma_finish_empties_slot(state: ContextState)
    ensures
        state.finish_render().action is None,
        state.finish_render().event is None,
        state.finish_render().finish_render() == state.finish_render(),
{
}

/// A press of the quit key requests the exit as soon as it is taken in, and
/// the request is still there when the frame is over. A request once made is
/// never withdrawn by a frame.
pub proof fn lemma_quit_key_requests_exit(
    state: ContextState,
    event: Option<Event>,
    widgets: Seq<Widget>,
)
    ensures
        (event matches Some(e) && e.is_quit()) ==> state.set_last_event(event).exit,
        state.set_last_event(event).exit ==> state.frame(event, widgets).exit,
        state.exit ==> state.frame(event, widgets).exit,
{
    lemma_pass_changes_only_action(state.set_last_event(event), widgets);
}

} // verus!
