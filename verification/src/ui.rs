//! The panels of the dashboard and how a frame is painted from them.

use vstd::prelude::*;
use ratatui::Frame;
use crate::layout::{LayoutSpec, Region};
use crate::screen::{
    buffer_area, buffer_size, cell_count, frame_area, frame_cells, frame_size, is_paintable,
    paint_box, panel_painted, Glyph, Tint,
};

verus! {

/// The colour of the panel in focus.
pub const HIGHLIGHT: Tint = Tint::Yellow;

/// The identity of a panel.  A value of this type also serves as the focus
/// state of the dashboard: it names the one panel that is highlighted.
#[derive(Clone, Copy, Debug, PartialEq, Eq, Structural)]
pub enum ActiveFrame {
    Status,
    Branches,
    Bookmarks,
    Log,
}

impl Default for ActiveFrame {
    /// The focus a dashboard starts with: Status.
    fn default() -> (focus: ActiveFrame)
        ensures
            focus == ActiveFrame::Status,
    {
        ActiveFrame::Status
    }
}

impl ActiveFrame {
    /// The title of the panel, as a sequence of characters.
    pub open spec fn title_chars(self) -> Seq<char> {
        match self {
            ActiveFrame::Status => "Status"@,
            ActiveFrame::Branches => "Branches"@,
            ActiveFrame::Bookmarks => "Bookmarks"@,
            ActiveFrame::Log => "Log"@,
        }
    }

    /// The title shown in the border of the panel.
    pub fn title(&self) -> (title: &'static str)
        ensures
            title@ == self.title_chars(),
            title@.len() <= 9,
    {
        proof {
            reveal_strlit("Status");
            reveal_strlit("Branches");
            reveal_strlit("Bookmarks");
            reveal_strlit("Log");
        }
        match self {
            ActiveFrame::Status => "Status",
            ActiveFrame::Branches => "Branches",
            ActiveFrame::Bookmarks => "Bookmarks",
            ActiveFrame::Log => "Log",
        }
    }

    /// Whether `panel` is the highlighted one when the focus is `self`.
    pub open spec fn highlights(self, panel: ActiveFrame) -> bool {
        self == panel
    }

    /// The colour that `panel` is drawn in when the focus is `self`: the
    /// highlight colour for the panel in focus, none for the others.
    pub open spec fn foreground_of(self, panel: ActiveFrame) -> Option<Tint> {
        if self.highlights(panel) {
            Some(HIGHLIGHT)
        } else {
            None
        }
    }

    /// Decides whether `panel` is drawn highlighted under this focus.
    pub fn is_highlighted(&self, panel: ActiveFrame) -> (lit: bool)
        ensures
            lit == self.highlights(panel),
    {
        *self == panel
    }
}

/// The cells of a frame over `area` after `panel` has been drawn into the
/// region that `layout` gives it, showing `text`, highlighted if and only if
/// it is the panel that `focus` names.
pub open spec fn panel_drawn(
    cells: Seq<Glyph>,
    area: Region,
    layout: LayoutSpec,
    focus: ActiveFrame,
    panel: ActiveFrame,
    text: Seq<char>,
) -> Seq<Glyph> {
    panel_painted(
        cells,
        area,
        layout.region_of(panel),
        panel.title_chars(),
        text,
        focus.foreground_of(panel),
    )
}

/// The cells of a frame over `area` after all four panels have been drawn
/// under `layout`: Status first, then Branches, Bookmarks and Log.
pub open spec fn scene(
    cells: Seq<Glyph>,
    area: Region,
    layout: LayoutSpec,
    focus: ActiveFrame,
    status: Seq<char>,
    branches: Seq<char>,
    bookmarks: Seq<char>,
    log: Seq<char>,
) -> Seq<Glyph> {
    let after_status = panel_drawn(cells, area, layout, focus, ActiveFrame::Status, status);
    let after_branches = panel_drawn(
        after_status,
        area,
        layout,
        focus,
        ActiveFrame::Branches,
        branches,
    );
    let after_bookmarks = panel_drawn(
        after_branches,
        area,
        layout,
        focus,
        ActiveFrame::Bookmarks,
        bookmarks,
    );
    panel_drawn(after_bookmarks, area, layout, focus, ActiveFrame::Log, log)
}

/// The area that `frame` covers.
pub fn area_of(frame: &Frame) -> (area: Region)
    ensures
        area == frame_area(frame),
{
    frame_size(frame)
}

/// Decides whether `frame` can be painted into: whether its area is
/// addressable and its buffer covers that area with one cell for each cell
/// of it.  The frame is not changed.
pub fn check_paintable(frame: &mut Frame) -> (ok: bool)
    ensures
        ok == is_paintable(old(frame)),
        *final(frame) == *old(frame),
{
    let area = area_of(frame);
    let held = buffer_size(frame);
    let cells = cell_count(frame);
    if area.check_addressable() && held == area {
        assert(area.width * area.height <= u16::MAX);
        let wanted: u32 = area.width as u32 * area.height as u32;
        cells as u64 == wanted as u64
    } else {
        false
    }
}

/// Draws one panel: a bordered box with the panel's title and `text`, in
/// the highlight colour if and only if `active_frame` names this panel.
///
/// The frame has to be paintable and the panel's region has to lie in its
/// area; `draw_ui` sees to both before it draws.
pub fn draw_panel(
    frame: &mut Frame,
    layout: &LayoutSpec,
    active_frame: &ActiveFrame,
    panel: ActiveFrame,
    text: &str,
)
    requires
        is_paintable(old(frame)),
        layout.region_of(panel).fits(frame_area(old(frame))),
    ensures
        is_paintable(final(frame)),
        frame_area(final(frame)) == frame_area(old(frame)),
        frame_cells(final(frame)) == panel_drawn(
            frame_cells(old(frame)),
            frame_area(old(frame)),
            *layout,
            *active_frame,
            panel,
            text@,
        ),
{
    let region = layout.region(panel);
    let foreground = if active_frame.is_highlighted(panel) {
        Some(HIGHLIGHT)
    } else {
        None
    };
    paint_box(frame, region, panel.title(), text, foreground);
}

/// Draws the four panels into the regions that `layout` gives them, Status
/// first and Log last, so that where regions overlap the later panel shows.
///
/// The frame has to be paintable and the four regions have to lie in its
/// area; `draw_ui` sees to both before it draws.
pub fn draw_panels(
    frame: &mut Frame,
    layout: &LayoutSpec,
    active_frame: &ActiveFrame,
    hg_status_output: &str,
    hg_branches_output: &str,
    hg_bookmarks_output: &str,
    hg_log_output: &str,
)
    requires
        is_paintable(old(frame)),
        layout.fits(frame_area(old(frame))),
    ensures
        is_paintable(final(frame)),
        frame_area(final(frame)) == frame_area(old(frame)),
        frame_cells(final(frame)) == scene(
            frame_cells(old(frame)),
            frame_area(old(frame)),
            *layout,
            *active_frame,
            hg_status_output@,
            hg_branches_output@,
            hg_bookmarks_output@,
            hg_log_output@,
        ),
{
    draw_panel(frame, layout, active_frame, ActiveFrame::Status, hg_status_output);
    draw_panel(frame, layout, active_frame, ActiveFrame::Branches, hg_branches_output);
    draw_panel(frame, layout, active_frame, ActiveFrame::Bookmarks, hg_bookmarks_output);
    draw_panel(frame, layout, active_frame, ActiveFrame::Log, hg_log_output);
}

/// Whether `after` can be the cells of a frame over `area` once the
/// dashboard has been drawn over the cells `before`.  In a frame that is
/// `paintable` all four panels have been drawn, under some layout that the
/// solver can answer for the area.  Any other frame is not drawn on.
pub open spec fn shows_dashboard(
    paintable: bool,
    before: Seq<Glyph>,
    after: Seq<Glyph>,
    area: Region,
    focus: ActiveFrame,
    status: Seq<char>,
    branches: Seq<char>,
    bookmarks: Seq<char>,
    log: Seq<char>,
) -> bool {
    if paintable {
        exists|layout: LayoutSpec|
            layout.divides(area) && after == #[trigger] scene(
                before,
                area,
                layout,
                focus,
                status,
                branches,
                bookmarks,
                log,
            )
    } else {
        after == before
    }
}

/// Draws one frame of the dashboard: divides the frame's area among the
/// panels and draws each panel into its part, the one that `active_frame`
/// names highlighted and the other three plain.
///
/// The division is the solver's, so the contract speaks of some layout that
/// it can answer for the area.  A frame that is not paintable is left as it
/// is.
pub fn draw_ui(
    frame: &mut Frame,
    active_frame: &ActiveFrame,
    hg_status_output: &str,
    hg_branches_output: &str,
    hg_bookmarks_output: &str,
    hg_log_output: &str,
)
    ensures
        frame_area(final(frame)) == frame_area(old(frame)),
        buffer_area(final(frame)) == buffer_area(old(frame)),
        shows_dashboard(
            is_paintable(old(frame)),
            frame_cells(old(frame)),
            frame_cells(final(frame)),
            frame_area(old(frame)),
            *active_frame,
            hg_status_output@,
            hg_branches_output@,
            hg_bookmarks_output@,
            hg_log_output@,
        ),
{
    if check_paintable(frame) {
        let layout = LayoutSpec::compute(area_of(frame));
        draw_panels(
            frame,
            &layout,
            active_frame,
            hg_status_output,
            hg_branches_output,
            hg_bookmarks_output,
            hg_log_output,
        );
    }
}

} // verus!
