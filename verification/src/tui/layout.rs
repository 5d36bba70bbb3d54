//! Where things stand on the screen.

use ratatui::layout::{Constraint, Direction, Layout, Rect};
use vstd::prelude::*;

verus! {

/// A rectangle of the screen, in cells.
#[derive(Debug, Clone, Copy, PartialEq, Eq, Structural)]
pub struct Area {
    pub x: u16,
    pub y: u16,
    pub width: u16,
    pub height: u16,
}

/// The direction in which an area is split.
#[derive(Debug, Clone, Copy, PartialEq, Eq, Structural)]
pub enum Axis {
    Horizontal,
    Vertical,
}

/// How large a part of an area should be.
#[derive(Debug, Clone, Copy, PartialEq, Eq, Structural)]
pub enum Part {
    Length(u16),
    Min(u16),
    Percentage(u16),
}

impl Area {
    /// The area ends where positions can still be told.
    pub open spec fn fits(self) -> bool {
        self.x + self.width <= u16::MAX && self.y + self.height <= u16::MAX
    }

    /// The area lies within another.
    pub open spec fn lies_in(self, outer: Area) -> bool {
        &&& outer.x <= self.x
        &&& outer.y <= self.y
        &&& self.x + self.width <= outer.x + outer.width
        &&& self.y + self.height <= outer.y + outer.height
    }
}

/// Whether every one of some areas lies within another.
pub open spec fn all_lie_in(areas: Seq<Area>, outer: Area) -> bool {
    forall|i: int| 0 <= i < areas.len() ==> (#[trigger] areas[i]).lies_in(outer)
}

/// Where an area begins along an axis.
pub open spec fn start_along(area: Area, axis: Axis) -> nat {
    match axis {
        Axis::Horizontal => area.x as nat,
        Axis::Vertical => area.y as nat,
    }
}

/// How far an area extends along an axis.
pub open spec fn extent_along(area: Area, axis: Axis) -> nat {
    match axis {
        Axis::Horizontal => area.width as nat,
        Axis::Vertical => area.height as nat,
    }
}

/// What a part asks of an extent, in hundredths of a cell.
pub open spec fn wanted(part: Part, extent: nat) -> nat {
    match part {
        Part::Length(n) => 100 * n as nat,
        Part::Min(n) => 100 * n as nat,
        Part::Percentage(n) => n as nat * extent,
    }
}

/// What the first `n` parts ask of an extent.
pub open spec fn wanted_by(parts: Seq<Part>, extent: nat, n: nat) -> nat
    decreases n,
{
    if n == 0 {
        0
    } else {
        wanted_by(parts, extent, (n - 1) as nat) + wanted(parts[n - 1], extent)
    }
}

/// How many of the first `n` parts may grow.
pub open spec fn growing(parts: Seq<Part>, n: nat) -> nat
    decreases n,
{
    if n == 0 {
        0
    } else {
        growing(parts, (n - 1) as nat) + if parts[n - 1] is Min {
            1nat
        } else {
            0nat
        }
    }
}

/// Whether an extent has what a few parts ask for, and at most one of them may grow.
pub open spec fn can_be_met(parts: Seq<Part>, extent: nat) -> bool {
    &&& parts.len() <= 10
    &&& growing(parts, parts.len()) <= 1
    &&& wanted_by(parts, extent, parts.len()) <= 100 * extent
}

/// The cell in which part `n` begins and the part before it ends: each part has what it asks for, one
/// that may grow has the rest as well, and hundredths are rounded.
pub open spec fn cut(start: nat, extent: nat, parts: Seq<Part>, n: nat) -> int {
    let rest = if growing(parts, n) == 0 {
        0int
    } else {
        100 * extent - wanted_by(parts, extent, parts.len())
    };
    (100 * start + wanted_by(parts, extent, n) + rest + 50) / 100
}

/// Whether the areas stand where the parts are cut.
pub open spec fn cut_apart(areas: Seq<Area>, area: Area, axis: Axis, parts: Seq<Part>) -> bool {
    let (start, extent) = (start_along(area, axis), extent_along(area, axis));
    forall|i: int|
        0 <= i < areas.len() ==> {
            let at = start_along(#[trigger] areas[i], axis);
            &&& at == cut(start, extent, parts, i as nat)
            &&& at + extent_along(areas[i], axis) == cut(start, extent, parts, (i + 1) as nat)
        }
}

/// Whether an area is as wide as another, and stands beside it, across an axis.
pub open spec fn spans(inner: Area, outer: Area, axis: Axis) -> bool {
    match axis {
        Axis::Horizontal => inner.y == outer.y && inner.height == outer.height,
        Axis::Vertical => inner.x == outer.x && inner.width == outer.width,
    }
}

/// Whether an area is split into parts along an axis: there is one area for each part, all of them
/// within the area and across it; where the parts can have what they ask for, they have it.
pub open spec fn is_split(areas: Seq<Area>, area: Area, axis: Axis, parts: Seq<Part>) -> bool {
    &&& areas.len() == parts.len()
    &&& all_lie_in(areas, area)
    &&& forall|i: int| 0 <= i < areas.len() ==> spans(#[trigger] areas[i], area, axis)
    &&& can_be_met(parts, extent_along(area, axis)) ==> cut_apart(areas, area, axis, parts)
}

/// `ratatui`'s `Layout::split` without margins: one area for each part, in their order, each within
/// the area that is split and across it. The constraint of every part is met where all of them can
/// be met at once, and a minimum takes what is left over; the boundaries are rounded to cells. How
/// long the parts are where they cannot all be met is left unsaid: the documentation calls that
/// indeterminate.
#[verifier::external_body]
pub(crate) fn split_area(area: Area, axis: Axis, parts: &Vec<Part>) -> (r: Vec<Area>)
    requires
        area.fits(),
    ensures
        is_split(r@, area, axis, parts@),
{
    let direction = match axis {
        Axis::Horizontal => Direction::Horizontal,
        Axis::Vertical => Direction::Vertical,
    };
    let constraints = parts.iter().map(|part| match part {
        Part::Length(n) => Constraint::Length(*n),
        Part::Min(n) => Constraint::Min(*n),
        Part::Percentage(n) => Constraint::Percentage(*n),
    });
    let outer = Rect { x: area.x, y: area.y, width: area.width, height: area.height };
    let split = Layout::new(direction, constraints).split(outer);
    split.iter().map(|a| Area { x: a.x, y: a.y, width: a.width, height: a.height }).collect()
}

/// The parts of an extent of which the middle one has this many hundredths.
pub open spec fn around(percent: u16) -> Seq<Part> {
    let beside = Part::Percentage(((100 - percent) / 2) as u16);
    seq![beside, Part::Percentage(percent), beside]
}

/// The middle of an area, this many hundredths wide and high, with its sides rounded to cells.
pub open spec fn centered(area: Area, width_percent: u16, height_percent: u16) -> Area {
    let (rows, columns) = (around(height_percent), around(width_percent));
    let (top, bottom) = (
        cut(area.y as nat, area.height as nat, rows, 1),
        cut(area.y as nat, area.height as nat, rows, 2),
    );
    let (left, right) = (
        cut(area.x as nat, area.width as nat, columns, 1),
        cut(area.x as nat, area.width as nat, columns, 2),
    );
    Area {
        x: left as u16,
        y: top as u16,
        width: (right - left) as u16,
        height: (bottom - top) as u16,
    }
}

proof fn lemma_around_can_be_met(percent: u16, extent: nat)
    requires
        percent <= 100,
    ensures
        can_be_met(around(percent), extent),
{
    let parts = around(percent);
    let beside = (100 - percent) / 2;
    reveal_with_fuel(wanted_by, 4);
    reveal_with_fuel(growing, 4);
    assert(beside * extent + percent * extent + beside * extent <= 100 * extent)
        by (nonlinear_arith)
        requires
            beside * 2 + percent <= 100,
            extent >= 0,
    ;
}

/// The middle of an area, this many hundredths wide and high.
pub fn centered_rect(area: Area, width_percent: u16, height_percent: u16) -> (r: Area)
    requires
        area.fits(),
        width_percent <= 100,
        height_percent <= 100,
    ensures
        r == centered(area, width_percent, height_percent),
        r.lies_in(area),
{
    let above: u16 = (100 - height_percent) / 2;
    let rows: Vec<Area> = split_area(
        area,
        Axis::Vertical,
        &vec![Part::Percentage(above), Part::Percentage(height_percent), Part::Percentage(above)],
    );
    proof {
        assert(rows@.len() == 3);
        assert(rows@[1].lies_in(area) && spans(rows@[1], area, Axis::Vertical));
        lemma_around_can_be_met(height_percent, area.height as nat);
        lemma_around_can_be_met(width_percent, area.width as nat);
    }
    let beside: u16 = (100 - width_percent) / 2;
    let columns: Vec<Area> = split_area(
        rows[1],
        Axis::Horizontal,
        &vec![Part::Percentage(beside), Part::Percentage(width_percent), Part::Percentage(beside)],
    );
    assert(columns@[1].lies_in(rows@[1]) && spans(columns@[1], rows@[1], Axis::Horizontal));
    columns[1]
}

/// The column of a cursor in a line that stands in an area, `before` cells behind its left border: it
/// stays before the right border.
pub open spec fn cursor_column(area: Area, before: nat, cursor: nat) -> nat {
    let wanted = area.x + before + cursor % 0x1_0000 + 1;
    let last = area.x + if area.width >= 2 {
        area.width - 2
    } else {
        0
    };
    if wanted <= last {
        wanted as nat
    } else {
        last as nat
    }
}

/// The column of a cursor in a line of text.
pub fn place_cursor(area: Area, before: u16, cursor: usize) -> (r: u16)
    requires
        area.fits(),
    ensures
        r == cursor_column(area, before as nat, cursor as nat),
{
    let low: u16 = (cursor % 0x1_0000) as u16;
    let wanted: u16 = area.x.saturating_add(before).saturating_add(low).saturating_add(1);
    let last: u16 = area.x + area.width.saturating_sub(2);
    if wanted <= last {
        wanted
    } else {
        last
    }
}

/// The cursor never leaves the area of its line.
pub proof fn law_cursor_stays_in_its_area(area: Area, before: nat, cursor: nat)
    requires
        area.fits(),
        area.width > 0,
    ensures
        area.x <= cursor_column(area, before, cursor) < area.x + area.width,
{
}

} // verus!
