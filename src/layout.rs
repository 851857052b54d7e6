use vstd::prelude::*;

verus! {

/// Each pane's share of the terminal's width, in percent.
pub const PANE_PERCENT: u16 = 50;

/// A rectangle of terminal cells.
#[derive(Clone, Copy, Debug, PartialEq, Eq, Structural)]
pub struct Area {
    pub x: u16,
    pub y: u16,
    pub width: u16,
    pub height: u16,
}

/// The rectangles into which tui's layout solver splits `area` side by side,
/// left to right, when the two parts ask for the given percentages of its
/// width, where those add up to a hundred and the area's edges fit in `u16`.
pub uninterp spec fn horizontal_split(area: Area, left_percent: u16, right_percent: u16) -> Seq<Area>;

/// The layout solver multiplies each percentage by the width in `u16`.
pub open spec fn split_fits(area: Area, percent: u16) -> bool {
    percent * area.width <= u16::MAX
}

/// The area's right and bottom edges are within `u16`, so the solver's
/// bounds on them are exact rather than saturated.
pub open spec fn edges_fit(area: Area) -> bool {
    area.x + area.width <= u16::MAX && area.y + area.height <= u16::MAX
}

/// Relies on tui's `Layout::split` with a horizontal direction and two
/// percentage constraints: it returns one rectangle per constraint, in order.
/// With exact edges and percentages that add up to a hundred every constraint
/// can hold at once, so the solver neither fails nor has a choice between
/// solutions, and the result is fixed by the arguments. The solver computes
/// `percent * width` in `u16`, which overflows past `u16::MAX`.
#[verifier::external_body]
fn split_horizontally(area: Area, left_percent: u16, right_percent: u16) -> (r: Vec<Area>)
    requires
        edges_fit(area),
        left_percent + right_percent == 100,
        split_fits(area, left_percent),
        split_fits(area, right_percent),
    ensures
        r@ == horizontal_split(area, left_percent, right_percent),
        r@.len() == 2,
{
    let rect = tui::layout::Rect { x: area.x, y: area.y, width: area.width, height: area.height };
    let parts = tui::layout::Layout::default()
        .direction(tui::layout::Direction::Horizontal)
        .constraints([
            tui::layout::Constraint::Percentage(left_percent),
            tui::layout::Constraint::Percentage(right_percent),
        ])
        .split(rect);
    parts.iter().map(|p| Area { x: p.x, y: p.y, width: p.width, height: p.height }).collect()
}

/// The list pane and the detail pane of a frame covering `area`, side by
/// side, each asking for half of the width; none when the area's edges pass
/// `u16::MAX` or it is too wide for the layout solver.
pub fn pane_areas(area: Area) -> (r: Option<(Area, Area)>)
    ensures
        r is Some <==> edges_fit(area) && split_fits(area, PANE_PERCENT),
        r is Some ==> r->0 == (
            horizontal_split(area, PANE_PERCENT, PANE_PERCENT)[0],
            horizontal_split(area, PANE_PERCENT, PANE_PERCENT)[1],
        ),
{
    if area.width > u16::MAX - area.x || area.height > u16::MAX - area.y {
        return None;
    }
    if area.width > u16::MAX / PANE_PERCENT {
        return None;
    }
    let parts = split_horizontally(area, PANE_PERCENT, PANE_PERCENT);
    Some((parts[0], parts[1]))
}

} // verus!
