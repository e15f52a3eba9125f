//! Actions that a frame can resolve to.

use vstd::prelude::*;
use vstd::std_specs::convert::FromSpecImpl;

use crate::widget_id::WidgetId;

verus! {

/// Commands of the game itself. The interaction core only carries them: a
/// command is a number whose meaning belongs to the game's rules.
#[derive(Copy, Clone, Debug, PartialEq, Eq, Structural)]
pub enum GameAction {
    Command(u32),
}

/// What one frame resolves to: a command of the game, or a change of the
/// hover or press target that the interaction context is to record.
#[derive(Copy, Clone, Debug, PartialEq, Eq, Structural)]
pub enum InterfaceAction {
    GameAction(GameAction),
    SetHover(Option<WidgetId>),
    SetMouseDown(Option<WidgetId>),
}

impl From<GameAction> for InterfaceAction {
    fn from(value: GameAction) -> (action: InterfaceAction) {
        InterfaceAction::GameAction(value)
    }
}

impl FromSpecImpl<GameAction> for InterfaceAction {
    open spec fn obeys_from_spec() -> bool {
        true
    }

    open spec fn from_spec(value: GameAction) -> InterfaceAction {
        InterfaceAction::GameAction(value)
    }
}

} // verus!
