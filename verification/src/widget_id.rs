//! Identifiers for widgets.

use vstd::prelude::*;

verus! {

/// Names one persistent widget slot of the interface.
///
/// Two identifiers are equal exactly when their numbers are equal. A widget
/// that is rebuilt on every frame keeps its place in the interaction state by
/// being given the same number each time.
#[derive(Copy, Clone, Debug, PartialEq, Eq, Structural, PartialOrd, Ord, Hash)]
pub struct WidgetId(pub u32);

impl WidgetId {
    /// The identifier with the given number.
    pub fn new(value: u32) -> (id: WidgetId)
        ensures
            id == WidgetId(value),
    {
        WidgetId(value)
    }

    /// The number this identifier was made from.
    pub fn value(&self) -> (value: u32)
        ensures
            value == self.0,
    {
        self.0
    }
}

} // verus!
