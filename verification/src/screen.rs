//! What the interface shows for a viewport of a given size.

use ratatui::widgets as tui;
use vstd::prelude::*;

use crate::geometry::{Rect, Size};
use crate::layout::{centered, centered_along, centered_rect, Direction};

verus! {

/// The width of the game area, in cells.
pub const GAME_WIDTH: u16 = 80;

/// The height of the game area, in cells.
pub const GAME_HEIGHT: u16 = 24;

/// The width of the outline drawn round the game area where there is room.
pub const OUTLINE_WIDTH: u16 = 82;

/// The height of the outline drawn round the game area where there is room.
pub const OUTLINE_HEIGHT: u16 = 26;

/// What is drawn on a viewport.
#[derive(Copy, Clone, Debug, PartialEq, Eq, Structural)]
pub enum Screen {
    /// The viewport cannot hold the game area: a notice is shown that names
    /// the viewport's size.
    TooSmall { width: u16, height: u16 },
    /// An outline with the game area inside it.
    Outlined { outline: Rect, game_area: Rect },
    /// The game area alone.
    Plain { game_area: Rect },
}

/// The area inside a border of one cell on every side of `area`: of
/// `area`'s width and height what is left after two cells, starting one cell
/// in from its left and top, but not past its right or bottom end or the end
/// of the grid.
pub open spec fn inside_border(area: Rect) -> Rect {
    Rect {
        x: min3(area.x + 1, area.right(), u16::MAX as int) as u16,
        y: min3(area.y + 1, area.bottom(), u16::MAX as int) as u16,
        width: if area.width >= 2 {
            (area.width - 2) as u16
        } else {
            0
        },
        height: if area.height >= 2 {
            (area.height - 2) as u16
        } else {
            0
        },
    }
}

/// The least of three numbers.
pub open spec fn min3(a: int, b: int, c: int) -> int {
    if a <= b && a <= c {
        a
    } else if b <= c {
        b
    } else {
        c
    }
}

/// The inner area of a ratatui `Block` with all four borders, no title and
/// no padding, as `Block::inner` computes it.
///
/// Trusted: each border takes one cell of the width or height, saturating at
/// nothing; the left and top borders move the origin by one cell, but not
/// past the area's right or bottom end, which itself saturates at the end of
/// the grid.
#[verifier::external_body]
fn bordered_inner(area: Rect) -> (inner: Rect)
    ensures
        inner == inside_border(area),
{
    let area =
        ratatui::layout::Rect { x: area.x, y: area.y, width: area.width, height: area.height };
    let inner = tui::Block::default().borders(tui::Borders::ALL).inner(area);
    Rect { x: inner.x, y: inner.y, width: inner.width, height: inner.height }
}

/// What [`plan`] decides for a viewport.
pub open spec fn screen_for(area: Rect) -> Screen {
    if area.width < GAME_WIDTH || area.height < GAME_HEIGHT {
        Screen::TooSmall { width: area.width, height: area.height }
    } else if area.width >= OUTLINE_WIDTH && area.height >= OUTLINE_HEIGHT {
        let outline = centered(Size { width: OUTLINE_WIDTH, height: OUTLINE_HEIGHT }, area);
        Screen::Outlined { outline, game_area: inside_border(outline) }
    } else {
        Screen::Plain { game_area: centered(Size { width: GAME_WIDTH, height: GAME_HEIGHT }, area) }
    }
}

/// Whether `area` has the size of the game area.
pub open spec fn spec_is_game_area(area: Rect) -> bool {
    area.width == GAME_WIDTH && area.height == GAME_HEIGHT
}

/// Decides what to draw on the viewport `area`.
///
/// A viewport narrower than the game area or lower than it gets the notice.
/// One with room for the outline gets the outline, centred, and the game
/// area inside its border. Any other gets the game area alone, centred.
/// Every region handed out lies inside the viewport. Along each direction
/// in which the viewport ends on the grid, the game area has the game's
/// extent and is centred, and the outline is one cell larger on either side.
pub fn plan(area: Rect) -> (screen: Screen)
    ensures
        screen == screen_for(area),
        match screen {
            Screen::TooSmall { .. } => true,
            Screen::Outlined { outline, game_area } => {
                &&& outline.within(area)
                &&& game_area.within(outline)
                &&& area.right() <= u16::MAX ==> {
                    &&& outline.width == OUTLINE_WIDTH
                    &&& centered_along(Direction::Horizontal, area, outline)
                    &&& game_area.x == outline.x + 1
                    &&& game_area.width == GAME_WIDTH
                }
                &&& area.bottom() <= u16::MAX ==> {
                    &&& outline.height == OUTLINE_HEIGHT
                    &&& centered_along(Direction::Vertical, area, outline)
                    &&& game_area.y == outline.y + 1
                    &&& game_area.height == GAME_HEIGHT
                }
                &&& area.on_grid() ==> {
                    &&& outline.is_centered_in(area)
                    &&& spec_is_game_area(game_area)
                    &&& game_area.is_centered_in(area)
                }
            },
            Screen::Plain { game_area } => {
                &&& game_area.within(area)
                &&& area.right() <= u16::MAX ==> {
                    &&& game_area.width == GAME_WIDTH
                    &&& centered_along(Direction::Horizontal, area, game_area)
                }
                &&& area.bottom() <= u16::MAX ==> {
                    &&& game_area.height == GAME_HEIGHT
                    &&& centered_along(Direction::Vertical, area, game_area)
                }
                &&& area.on_grid() ==> spec_is_game_area(game_area) && game_area.is_centered_in(area)
            },
        },
{
    if area.width < GAME_WIDTH || area.height < GAME_HEIGHT {
        Screen::TooSmall { width: area.width, height: area.height }
    } else if area.width >= OUTLINE_WIDTH && area.height >= OUTLINE_HEIGHT {
        let outline = centered_rect(Size { width: OUTLINE_WIDTH, height: OUTLINE_HEIGHT }, area);
        let game_area = bordered_inner(outline);
        Screen::Outlined { outline, game_area }
    } else {
        let game_area = centered_rect(Size { width: GAME_WIDTH, height: GAME_HEIGHT }, area);
        Screen::Plain { game_area }
    }
}

/// Whether `area` has the size of the game area.
#[verifier::when_used_as_spec(spec_is_game_area)]
pub fn is_game_area(area: Rect) -> (fits: bool)
    ensures
        fits == spec_is_game_area(area),
{
    area.width == GAME_WIDTH && area.height == GAME_HEIGHT
}

} // verus!
