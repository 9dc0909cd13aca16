//! Rectangles of terminal cells and the division of a frame among the panels.

use vstd::prelude::*;
use ratatui::layout::{Constraint, Direction, Layout, Rect};
use crate::ui::ActiveFrame;

verus! {

/// Cells left free between the edge of the frame and the panels.
pub const OUTER_MARGIN: u16 = 1;

/// Share of the width given to the left column, in percent.
pub const LEFT_COLUMN_PERCENT: u16 = 40;

/// Share of the width given to the right column, in percent.
pub const RIGHT_COLUMN_PERCENT: u16 = 60;

/// Share of the left column's height given to the Status panel, in percent.
pub const STATUS_ROW_PERCENT: u16 = 60;

/// Share of the left column's height given to the Branches panel, in percent.
pub const BRANCHES_ROW_PERCENT: u16 = 20;

/// Share of the left column's height given to the Bookmarks panel, in percent.
pub const BOOKMARKS_ROW_PERCENT: u16 = 20;

/// A rectangle of terminal cells: its top left corner and its size.
#[derive(Clone, Copy, Debug, PartialEq, Eq, Structural)]
pub struct Region {
    pub x: u16,
    pub y: u16,
    pub width: u16,
    pub height: u16,
}

impl Region {
    /// The first column to the right of the region.
    pub open spec fn right(self) -> int {
        self.x + self.width
    }

    /// The first row below the region.
    pub open spec fn bottom(self) -> int {
        self.y + self.height
    }

    /// Whether the region holds no cell.
    pub open spec fn is_empty(self) -> bool {
        self.width == 0 || self.height == 0
    }

    /// Whether every cell of the region is a cell of `outer`.
    pub open spec fn fits(self, outer: Region) -> bool {
        self.is_empty() || (outer.x <= self.x && self.right() <= outer.right() && outer.y <= self.y
            && self.bottom() <= outer.bottom())
    }

    /// Whether the region can be the area of a frame: its corners have
    /// coordinates of sixteen bits, and so has the number of its cells.
    pub open spec fn is_addressable(self) -> bool {
        self.right() <= u16::MAX && self.bottom() <= u16::MAX && self.width * self.height
            <= u16::MAX
    }

    /// The part of the region that lies in `outer`.
    pub open spec fn clipped(self, outer: Region) -> Region {
        let left = if self.x >= outer.x { self.x as int } else { outer.x as int };
        let top = if self.y >= outer.y { self.y as int } else { outer.y as int };
        let right = if self.right() <= outer.right() { self.right() } else { outer.right() };
        let bottom = if self.bottom() <= outer.bottom() { self.bottom() } else { outer.bottom() };
        Region {
            x: left as u16,
            y: top as u16,
            width: (if right >= left { right - left } else { 0 }) as u16,
            height: (if bottom >= top { bottom - top } else { 0 }) as u16,
        }
    }

    /// What is left of the region when `margin` cells are taken off each of
    /// its four sides: nothing, at the origin, where the region is smaller
    /// than twice the margin.
    pub open spec fn shrunk(self, margin: u16) -> Region {
        let both: int = if 2 * margin <= u16::MAX { 2 * margin } else { u16::MAX as int };
        if self.width < both || self.height < both {
            Region { x: 0, y: 0, width: 0, height: 0 }
        } else {
            Region {
                x: (if self.x + margin <= u16::MAX { self.x + margin } else { u16::MAX as int }) as u16,
                y: (if self.y + margin <= u16::MAX { self.y + margin } else { u16::MAX as int }) as u16,
                width: (self.width - both) as u16,
                height: (self.height - both) as u16,
            }
        }
    }

    /// Decides whether the region can be the area of a frame.
    pub fn check_addressable(&self) -> (ok: bool)
        ensures
            ok == self.is_addressable(),
    {
        let right: u32 = self.x as u32 + self.width as u32;
        let bottom: u32 = self.y as u32 + self.height as u32;
        assert(self.width * self.height <= 0xffff * 0xffff) by (nonlinear_arith)
            requires
                self.width <= 0xffff,
                self.height <= 0xffff,
        ;
        let cells: u32 = self.width as u32 * self.height as u32;
        right <= 0xffff && bottom <= 0xffff && cells <= 0xffff
    }

    /// Cuts the region down to the part of it that lies in `outer`.
    pub fn clip(&self, outer: &Region) -> (part: Region)
        ensures
            part == self.clipped(*outer),
            part.fits(*outer),
            part.fits(*self),
            self.fits(*outer) && !self.is_empty() ==> part == *self,
    {
        let left: u32 = if self.x >= outer.x { self.x as u32 } else { outer.x as u32 };
        let top: u32 = if self.y >= outer.y { self.y as u32 } else { outer.y as u32 };
        let own_right: u32 = self.x as u32 + self.width as u32;
        let outer_right: u32 = outer.x as u32 + outer.width as u32;
        let own_bottom: u32 = self.y as u32 + self.height as u32;
        let outer_bottom: u32 = outer.y as u32 + outer.height as u32;
        let right: u32 = if own_right <= outer_right { own_right } else { outer_right };
        let bottom: u32 = if own_bottom <= outer_bottom { own_bottom } else { outer_bottom };
        let width: u32 = if right >= left { right - left } else { 0 };
        let height: u32 = if bottom >= top { bottom - top } else { 0 };
        Region { x: left as u16, y: top as u16, width: width as u16, height: height as u16 }
    }
}

/// Whether `parts` is a division that the solver can answer when it is
/// asked to divide `area`, less `margin` cells on every side, into one part
/// for each of `shares`, which are percentages of the width where the parts
/// lie side by side (`across`) and of the height where they lie one below the
/// other.  It is a relation: the solver need not answer the same twice.
pub uninterp spec fn is_answer(
    area: Region,
    margin: u16,
    across: bool,
    shares: Seq<u16>,
    parts: Seq<Region>,
) -> bool;

/// What every division of `area` into two columns has in common, whatever
/// widths the solver settles on.  Each column is as high as `area` without
/// its margin and starts in the same row; each lies between the left and the
/// right edge of that inner area; and the first ends where the second starts
/// or before.
pub open spec fn is_column_split(area: Region, margin: u16, parts: Seq<Region>) -> bool {
    let inner = area.shrunk(margin);
    &&& parts.len() == 2
    &&& forall|i: int|
        0 <= i < parts.len() ==> {
            &&& (#[trigger] parts[i]).y == inner.y
            &&& parts[i].height == inner.height
            &&& inner.x <= parts[i].x
            &&& parts[i].right() <= inner.right()
        }
    &&& parts[0].right() <= parts[1].x
}

/// What every division of `area` into three rows has in common, whatever
/// heights the solver settles on.  Each row is as wide as `area` and starts
/// in the same column; each lies between the top and the bottom of `area`;
/// and each ends where the next starts or before.
pub open spec fn is_row_split(area: Region, parts: Seq<Region>) -> bool {
    &&& parts.len() == 3
    &&& forall|i: int|
        0 <= i < parts.len() ==> {
            &&& (#[trigger] parts[i]).x == area.x
            &&& parts[i].width == area.width
            &&& area.y <= parts[i].y
            &&& parts[i].bottom() <= area.bottom()
        }
    &&& parts[0].bottom() <= parts[1].y
    &&& parts[1].bottom() <= parts[2].y
}

/// Divides `area`, less a margin on every side, into two columns side by
/// side that are to take `first` and `second` percent of the width.
///
/// Calls `Layout::split` of ratatui with a horizontal direction.  The widths
/// come from a constraint solver that walks hash maps, so two calls on the
/// same area need not agree.  The contract says that the result is an answer
/// of the solver to what it was asked, and holds what `split` gives every
/// answer: the cross-axis coordinates it copies from the inner area, and the
/// range and order that the solver's required constraints keep.  ratatui
/// treats a failure of the solver as unreachable and would panic on it.
#[verifier::external_body]
pub(crate) fn split_columns(area: Region, margin: u16, first: u16, second: u16) -> (parts: Vec<
    Region,
>)
    ensures
        is_answer(area, margin, true, seq![first, second], parts@),
        is_column_split(area, margin, parts@),
{
    let rect = Rect { x: area.x, y: area.y, width: area.width, height: area.height };
    let shares = [Constraint::Percentage(first), Constraint::Percentage(second)];
    let layout = Layout::default().direction(Direction::Horizontal).margin(margin);
    let parts = layout.constraints(shares).split(rect);
    parts.iter().map(|r| Region { x: r.x, y: r.y, width: r.width, height: r.height }).collect()
}

/// Divides `area` into three rows, one below the other, that are to take
/// `first`, `second` and `third` percent of the height.
///
/// Calls `Layout::split` of ratatui with a vertical direction and no margin.
/// As with the columns, the heights are the solver's; the contract says that
/// the result is an answer to what was asked and holds what every answer
/// has.
#[verifier::external_body]
pub(crate) fn split_rows(area: Region, first: u16, second: u16, third: u16) -> (parts: Vec<Region>)
    ensures
        is_answer(area, 0, false, seq![first, second, third], parts@),
        is_row_split(area, parts@),
{
    let rect = Rect { x: area.x, y: area.y, width: area.width, height: area.height };
    let shares = [
        Constraint::Percentage(first),
        Constraint::Percentage(second),
        Constraint::Percentage(third),
    ];
    let parts = Layout::default().direction(Direction::Vertical).constraints(shares).split(rect);
    parts.iter().map(|r| Region { x: r.x, y: r.y, width: r.width, height: r.height }).collect()
}

/// The division of a frame among the four panels.  It is worked out anew for
/// every frame, from the size the terminal has at that moment.
#[derive(Clone, Copy, Debug, PartialEq, Eq, Structural)]
pub struct LayoutSpec {
    pub status: Region,
    pub branches: Region,
    pub bookmarks: Region,
    pub log: Region,
}

impl LayoutSpec {
    /// The region given to `panel`.
    pub open spec fn region_of(self, panel: ActiveFrame) -> Region {
        match panel {
            ActiveFrame::Status => self.status,
            ActiveFrame::Branches => self.branches,
            ActiveFrame::Bookmarks => self.bookmarks,
            ActiveFrame::Log => self.log,
        }
    }

    /// Whether all four regions lie in `area`.
    pub open spec fn fits(self, area: Region) -> bool {
        forall|panel: ActiveFrame| (#[trigger] self.region_of(panel)).fits(area)
    }

    /// The layout that gives the three rows of the left column to Status,
    /// Branches and Bookmarks and the right column to Log, each cut down to
    /// `area`.
    pub open spec fn assembled(
        area: Region,
        status_row: Region,
        branches_row: Region,
        bookmarks_row: Region,
        log_column: Region,
    ) -> LayoutSpec {
        LayoutSpec {
            status: status_row.clipped(area),
            branches: branches_row.clipped(area),
            bookmarks: bookmarks_row.clipped(area),
            log: log_column.clipped(area),
        }
    }

    /// Whether the layout is one that the solver can give `area`: there is
    /// an answer of the solver for the two columns of `area`, and one for the
    /// three rows of the left column, that the layout is assembled from.
    pub open spec fn divides(self, area: Region) -> bool {
        exists|columns: Seq<Region>, rows: Seq<Region>|
            #![trigger is_column_split(area, OUTER_MARGIN, columns), is_row_split(columns[0], rows)]
            {
                &&& is_answer(
                    area,
                    OUTER_MARGIN,
                    true,
                    seq![LEFT_COLUMN_PERCENT, RIGHT_COLUMN_PERCENT],
                    columns,
                )
                &&& is_column_split(area, OUTER_MARGIN, columns)
                &&& is_answer(
                    columns[0],
                    0,
                    false,
                    seq![STATUS_ROW_PERCENT, BRANCHES_ROW_PERCENT, BOOKMARKS_ROW_PERCENT],
                    rows,
                )
                &&& is_row_split(columns[0], rows)
                &&& self == LayoutSpec::assembled(area, rows[0], rows[1], rows[2], columns[1])
            }
    }

    /// The region given to `panel`.
    pub fn region(&self, panel: ActiveFrame) -> (region: Region)
        ensures
            region == self.region_of(panel),
    {
        match panel {
            ActiveFrame::Status => self.status,
            ActiveFrame::Branches => self.branches,
            ActiveFrame::Bookmarks => self.bookmarks,
            ActiveFrame::Log => self.log,
        }
    }

    /// Puts a layout together from the three rows of the left column and
    /// the right column, cutting each down to `area`.
    pub fn assemble(
        area: Region,
        status_row: Region,
        branches_row: Region,
        bookmarks_row: Region,
        log_column: Region,
    ) -> (layout: LayoutSpec)
        ensures
            layout == LayoutSpec::assembled(
                area,
                status_row,
                branches_row,
                bookmarks_row,
                log_column,
            ),
            layout.fits(area),
    {
        LayoutSpec {
            status: status_row.clip(&area),
            branches: branches_row.clip(&area),
            bookmarks: bookmarks_row.clip(&area),
            log: log_column.clip(&area),
        }
    }

    /// Divides `area` among the panels: a left column of 40% of the width
    /// with Status, Branches and Bookmarks stacked at 60%, 20% and 20% of its
    /// height, and a right column of 60% for Log, all inside a margin of one
    /// cell.
    ///
    /// The exact widths and heights are the solver's: the layout is
    /// assembled from its answers to these shares.  Whatever it answers, the
    /// four regions lie in `area`, the three panels of the left column span
    /// the same columns and follow one another from the top down without
    /// overlap, and Log starts where Status ends or further right.
    pub fn compute(area: Region) -> (layout: LayoutSpec)
        ensures
            layout.divides(area),
            layout.fits(area),
            layout.status.x == layout.branches.x == layout.bookmarks.x,
            layout.status.width == layout.branches.width == layout.bookmarks.width,
            layout.status.bottom() <= layout.branches.y,
            layout.branches.bottom() <= layout.bookmarks.y,
            layout.status.right() <= layout.log.x,
    {
        let columns = split_columns(area, OUTER_MARGIN, LEFT_COLUMN_PERCENT, RIGHT_COLUMN_PERCENT);
        let rows = split_rows(
            columns[0],
            STATUS_ROW_PERCENT,
            BRANCHES_ROW_PERCENT,
            BOOKMARKS_ROW_PERCENT,
        );
        LayoutSpec::assemble(area, rows[0], rows[1], rows[2], columns[1])
    }
}

} // verus!
