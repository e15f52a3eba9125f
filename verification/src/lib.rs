//! Interaction core of a terminal interface: widget identifiers, input
//! events, the per-frame interaction context and the layout of fixed-size
//! regions inside a viewport.

pub mod actions;
pub mod button;
pub mod colors;
pub mod event;
pub mod frame;
pub mod geometry;
pub mod layout;
pub mod render_context;
pub mod screen;
pub mod utils;
pub mod widget_id;
