//! Placing a region of a requested size in the middle of an available one.
//!
//! The bands that an area is cut into are computed by ratatui's constraint
//! solver. This module hands it the constraints, and proves of the centred
//! region what follows from what ratatui documents of the bands.

use ratatui::layout as tui;
use vstd::prelude::*;

use crate::geometry::{Rect, Size};

verus! {

/// The direction along which an area is cut into bands.
#[derive(Copy, Clone, Debug, PartialEq, Eq, Structural)]
pub enum Direction {
    /// Bands side by side, each as high as the area.
    Horizontal,
    /// Bands below one another, each as wide as the area.
    Vertical,
}

/// What is asked of one band.
#[derive(Copy, Clone, Debug, PartialEq, Eq, Structural)]
pub enum Constraint {
    /// The band is this many cells long.
    Length(u16),
    /// The band takes a share of the space that is left over, in proportion
    /// to this weight among the bands that fill.
    Fill(u16),
}

/// The constraints of a band of `length` cells between two bands that share
/// the rest of the space equally.
pub open spec fn flanked(length: u16) -> Seq<Constraint> {
    seq![Constraint::Fill(1), Constraint::Length(length), Constraint::Fill(1)]
}

/// The bands that ratatui's `Layout::split` cuts `area` into, for a layout of
/// the given direction and constraints with no margin, no spacing and the
/// default flex.
pub uninterp spec fn split_bands(
    direction: Direction,
    constraints: Seq<Constraint>,
    area: Rect,
) -> Seq<Rect>;

/// Where `rect` starts along `direction`.
pub open spec fn start_along(direction: Direction, rect: Rect) -> int {
    match direction {
        Direction::Horizontal => rect.x as int,
        Direction::Vertical => rect.y as int,
    }
}

/// How far `rect` extends along `direction`.
pub open spec fn length_along(direction: Direction, rect: Rect) -> int {
    match direction {
        Direction::Horizontal => rect.width as int,
        Direction::Vertical => rect.height as int,
    }
}

/// Where `rect` ends along `direction`: the first cell past it.
pub open spec fn end_along(direction: Direction, rect: Rect) -> int {
    start_along(direction, rect) + length_along(direction, rect)
}

/// What every band of a cut of `area` along `direction` satisfies: across
/// the direction it has the area's extent, along it it lies inside the area.
pub open spec fn band_of(direction: Direction, area: Rect, band: Rect) -> bool {
    &&& match direction {
        Direction::Horizontal => band.y == area.y && band.height == area.height,
        Direction::Vertical => band.x == area.x && band.width == area.width,
    }
    &&& start_along(direction, area) <= start_along(direction, band)
    &&& end_along(direction, band) <= end_along(direction, area)
}

/// Whether a band of `length` cells has room in `area` along `direction`,
/// and `area` ends on the grid.
pub open spec fn has_room(direction: Direction, length: u16, area: Rect) -> bool {
    &&& length <= length_along(direction, area)
    &&& end_along(direction, area) <= u16::MAX
}

/// Three bands that cover `area` along `direction` without a gap, the
/// middle one `length` cells long, the outer two equally long or one of
/// them longer by a single cell.
pub open spec fn flanks_evenly(
    direction: Direction,
    length: u16,
    area: Rect,
    bands: Seq<Rect>,
) -> bool {
    &&& bands.len() == 3
    &&& start_along(direction, bands[0]) == start_along(direction, area)
    &&& start_along(direction, bands[1]) == end_along(direction, bands[0])
    &&& length_along(direction, bands[1]) == length
    &&& start_along(direction, bands[2]) == end_along(direction, bands[1])
    &&& end_along(direction, bands[2]) == end_along(direction, area)
    &&& -1 <= length_along(direction, bands[0]) - length_along(direction, bands[2]) <= 1
}

/// Whether `band` has the same space before and after it in `area` along
/// `direction`, up to a single cell.
pub open spec fn centered_along(direction: Direction, area: Rect, band: Rect) -> bool {
    -1 <= (start_along(direction, band) - start_along(direction, area)) - (end_along(
        direction,
        area,
    ) - end_along(direction, band)) <= 1
}

/// Cuts `area` into bands with ratatui's `Layout::new(..).split(..)`.
///
/// Trusted, for a band of fixed length between two fills of equal weight.
/// The call returns the same bands for the same arguments, one band for each
/// constraint. Each band is given the area's position and extent across the
/// direction, and the solver is required to keep every band's start and end
/// between the area's start and end. Where the fixed band has room, ratatui
/// documents that a `Length` band gets the length asked for and that `Fill`
/// bands take up the space left over in proportion to their weights: the
/// three bands then cover the area without a gap, and the two fills differ
/// by at most the one cell that cannot be halved. Which of the two gets that
/// cell is not claimed here.
#[verifier::external_body]
fn split(direction: Direction, constraints: &Vec<Constraint>, area: Rect) -> (bands: Vec<Rect>)
    requires
        exists|length: u16| constraints@ == flanked(length),
    ensures
        bands@ == split_bands(direction, constraints@, area),
        bands@.len() == constraints@.len(),
        forall|i: int| 0 <= i < bands@.len() ==> band_of(direction, area, #[trigger] bands@[i]),
        forall|length: u16|
            constraints@ == flanked(length) && has_room(direction, length, area) ==> flanks_evenly(
                direction,
                length,
                area,
                bands@,
            ),
{
    let direction = match direction {
        Direction::Horizontal => tui::Direction::Horizontal,
        Direction::Vertical => tui::Direction::Vertical,
    };
    let constraints = constraints.iter().map(|c| match c {
        Constraint::Length(n) => tui::Constraint::Length(*n),
        Constraint::Fill(w) => tui::Constraint::Fill(*w),
    });
    let area = tui::Rect { x: area.x, y: area.y, width: area.width, height: area.height };
    let bands = tui::Layout::new(direction, constraints).split(area);
    bands.iter().map(|r| Rect { x: r.x, y: r.y, width: r.width, height: r.height }).collect()
}

/// `size`, with each dimension that exceeds `rect`'s cut down to it.
pub open spec fn spec_clamp(size: Size, rect: Rect) -> Size {
    Size {
        width: if size.width > rect.width {
            rect.width
        } else {
            size.width
        },
        height: if size.height > rect.height {
            rect.height
        } else {
            size.height
        },
    }
}

/// The middle one of the three bands that `area` is cut into along
/// `direction` around a band of `length` cells.
pub open spec fn middle_band(direction: Direction, length: u16, area: Rect) -> Rect {
    split_bands(direction, flanked(length), area)[1]
}

/// The region that [`centered_rect`] returns: `rect` is cut into rows around
/// a row of the clamped height, and that row into columns around a column of
/// the clamped width.
pub open spec fn centered(size: Size, rect: Rect) -> Rect {
    let fit = spec_clamp(size, rect);
    middle_band(Direction::Horizontal, fit.width, middle_band(Direction::Vertical, fit.height, rect))
}

/// `size`, with each dimension that exceeds `rect`'s cut down to it.
#[verifier::when_used_as_spec(spec_clamp)]
pub fn clamp(size: Size, rect: Rect) -> (fit: Size)
    ensures
        fit == spec_clamp(size, rect),
{
    let mut fit = size;
    if fit.width > rect.width {
        fit.width = rect.width;
    }
    if fit.height > rect.height {
        fit.height = rect.height;
    }
    fit
}

/// The middle one of the three bands that `area` is cut into along
/// `direction`: a band asked to be `length` cells long, between two bands
/// that share the rest equally.
///
/// The band lies inside `area` and has its extent across the direction.
/// Where it has room it is `length` cells long and sits in the middle of
/// `area`, up to a single cell.
pub fn cut_middle(direction: Direction, length: u16, area: Rect) -> (band: Rect)
    ensures
        band == middle_band(direction, length, area),
        band_of(direction, area, band),
        has_room(direction, length, area) ==> length_along(direction, band) == length
            && centered_along(direction, area, band),
{
    let constraints = vec![Constraint::Fill(1), Constraint::Length(length), Constraint::Fill(1)];
    assert(constraints@ =~= flanked(length));
    let bands = split(direction, &constraints, area);
    bands[1]
}

/// A region of the given size centred in `rect`. A size too large for
/// `rect` is clamped to fit.
///
/// The region lies inside `rect`, so it is no larger than `rect` in either
/// dimension. Along each direction in which `rect` ends on the grid, the
/// region has the clamped extent exactly, and the space left over is the
/// same before and after it, up to a single cell.
pub fn centered_rect(size: Size, rect: Rect) -> (region: Rect)
    ensures
        region == centered(size, rect),
        region.within(rect),
        region.width <= rect.width,
        region.height <= rect.height,
        rect.right() <= u16::MAX ==> region.width == clamp(size, rect).width && centered_along(
            Direction::Horizontal,
            rect,
            region,
        ),
        rect.bottom() <= u16::MAX ==> region.height == clamp(size, rect).height && centered_along(
            Direction::Vertical,
            rect,
            region,
        ),
        rect.on_grid() ==> region.as_size() == clamp(size, rect) && region.is_centered_in(rect),
{
    let fit = clamp(size, rect);
    let row = cut_middle(Direction::Vertical, fit.height, rect);
    cut_middle(Direction::Horizontal, fit.width, row)
}

} // verus!
