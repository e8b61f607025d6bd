//! Rectangles of screen cells and how a rectangle is divided among panels.
//! The division itself is the work of the `tui` crate's constraint solver.
use vstd::prelude::*;
use tui::layout::Constraint;
use tui::layout::Direction;
use tui::layout::Layout;
use tui::layout::Rect;

verus! {

/// A rectangle of cells on the screen.
#[derive(Debug, Clone, Copy, PartialEq, Eq, Structural)]
pub struct Area {
    pub x: u16,
    pub y: u16,
    pub width: u16,
    pub height: u16,
}

/// How much room a panel asks for along the axis of a division.
#[derive(Debug, Clone, Copy, PartialEq, Eq, Structural)]
pub enum Extent {
    /// So many hundredths of the room.
    Percentage(u16),
    /// So many cells.
    Length(u16),
}

/// The way a rectangle is divided: into columns or into rows.
#[derive(Debug, Clone, Copy, PartialEq, Eq, Structural)]
pub enum Axis {
    Horizontal,
    Vertical,
}

impl Area {
    /// The rectangle ends within the range of cell coordinates.
    pub open spec fn fits(self) -> bool {
        self.x + self.width <= u16::MAX && self.y + self.height <= u16::MAX
    }

    /// The rectangle lies inside `outer`.
    pub open spec fn inside(self, outer: Area) -> bool {
        &&& outer.x <= self.x
        &&& self.x + self.width <= outer.x + outer.width
        &&& outer.y <= self.y
        &&& self.y + self.height <= outer.y + outer.height
    }

    /// The extent of the rectangle along `axis`.
    pub open spec fn along(self, axis: Axis) -> u16 {
        match axis {
            Axis::Horizontal => self.width,
            Axis::Vertical => self.height,
        }
    }

    /// The part of the rectangle that lies inside `outer`; an empty
    /// rectangle on the nearest edge of `outer` if none does.
    pub fn clip(self, outer: Area) -> (clipped: Area)
        requires
            outer.fits(),
        ensures
            clipped.inside(outer),
            clipped.fits(),
            self.inside(outer) ==> clipped == self,
    {
        let (x, width) = clip_span(self.x, self.width, outer.x, outer.width);
        let (y, height) = clip_span(self.y, self.height, outer.y, outer.height);
        Area { x, y, width, height }
    }
}

/// The part of the span that starts at `start` and is `length` long which
/// lies inside the span that starts at `outer_start` and is `outer_length`
/// long.
fn clip_span(start: u16, length: u16, outer_start: u16, outer_length: u16) -> (clipped: (u16, u16))
    requires
        outer_start + outer_length <= u16::MAX,
    ensures
        outer_start <= clipped.0,
        clipped.0 + clipped.1 <= outer_start + outer_length,
        outer_start <= start && start + length <= outer_start + outer_length ==> clipped == (
            start,
            length,
        ),
{
    let outer_end: u16 = outer_start + outer_length;
    let from: u16 = if start < outer_start {
        outer_start
    } else if start > outer_end {
        outer_end
    } else {
        start
    };
    let end: u32 = start as u32 + length as u32;
    let to: u16 = if end < from as u32 {
        from
    } else if end > outer_end as u32 {
        outer_end
    } else {
        end as u16
    };
    (from, to - from)
}

/// What a division must meet for the solver's arithmetic to stay in range:
/// the rectangle ends within the range of cell coordinates, twice a margin
/// is in range too, and no percentage of the room overflows sixteen bits
/// before it is divided by a hundred.
pub open spec fn divisible(
    axis: Axis,
    horizontal_margin: u16,
    vertical_margin: u16,
    extents: Seq<Extent>,
    area: Area,
) -> bool {
    &&& area.fits()
    &&& 2 * horizontal_margin <= u16::MAX
    &&& 2 * vertical_margin <= u16::MAX
    &&& forall|i: int|
        0 <= i < extents.len() ==> ((#[trigger] extents[i]) matches Extent::Percentage(share)
            ==> share * area.along(axis) <= u16::MAX)
}

/// `Layout::split` of the `tui` crate, for a layout made of the given
/// direction, margins and constraints. The crate computes margins and
/// percentages in sixteen bits, which `divisible` keeps in range. Its
/// solver may settle ties one way or another, so the contract says only
/// what holds of every outcome: there is one part for each constraint.
#[verifier::external_body]
pub(crate) fn split(
    axis: Axis,
    horizontal_margin: u16,
    vertical_margin: u16,
    extents: &Vec<Extent>,
    area: Area,
) -> (parts: Vec<Area>)
    requires
        divisible(axis, horizontal_margin, vertical_margin, extents@, area),
    ensures
        parts@.len() == extents@.len(),
{
    let constraints: Vec<Constraint> = extents.iter().map(|extent| match extent {
        Extent::Percentage(share) => Constraint::Percentage(*share),
        Extent::Length(cells) => Constraint::Length(*cells),
    }).collect();
    let direction = match axis {
        Axis::Horizontal => Direction::Horizontal,
        Axis::Vertical => Direction::Vertical,
    };
    Layout::default().direction(direction).horizontal_margin(horizontal_margin)
        .vertical_margin(vertical_margin).constraints(constraints)
        .split(Rect { x: area.x, y: area.y, width: area.width, height: area.height })
        .into_iter().map(|r| Area { x: r.x, y: r.y, width: r.width, height: r.height }).collect()
}

/// Divides `area` among as many panels as there are extents, and keeps of
/// each part what lies inside `area`.
pub fn split_within(
    axis: Axis,
    horizontal_margin: u16,
    vertical_margin: u16,
    extents: &Vec<Extent>,
    area: Area,
) -> (parts: Vec<Area>)
    requires
        divisible(axis, horizontal_margin, vertical_margin, extents@, area),
    ensures
        parts@.len() == extents@.len(),
        forall|i: int| 0 <= i < parts@.len() ==> (#[trigger] parts@[i]).inside(area),
{
    let found = split(axis, horizontal_margin, vertical_margin, extents, area);
    let mut parts: Vec<Area> = Vec::new();
    let mut i: usize = 0;
    while i < found.len()
        invariant
            i <= found.len(),
            area.fits(),
            parts@.len() == i,
            forall|j: int| 0 <= j < i ==> (#[trigger] parts@[j]).inside(area),
        decreases found.len() - i,
    {
        parts.push(found[i].clip(area));
        i += 1;
    }
    parts
}

} // verus!
