//! The dashboard as one value: the focus and the texts of the panels, handed
//! to the input step and to the drawing step of the render loop.

use vstd::prelude::*;
use ratatui::Frame;
use crate::events::{commands_of, handle_events, InputEvent};
use crate::focus::KeyCommand;
use crate::layout::{LayoutSpec, Region};
use crate::panels::Panels;
use crate::screen::{buffer_area, frame_area, frame_cells, is_paintable, Glyph};
use crate::ui::{draw_ui, panel_drawn, scene, shows_dashboard, ActiveFrame};

verus! {

/// The state of a running dashboard.
#[derive(Debug)]
pub struct Dashboard {
    focus: ActiveFrame,
    panels: Panels,
}

impl Dashboard {
    /// The panel that is highlighted.
    pub closed spec fn focus_of(self) -> ActiveFrame {
        self.focus
    }

    /// The texts of the panels.
    pub closed spec fn panels_of(self) -> Panels {
        self.panels
    }

    /// The dashboard after a run of events: the focus has moved as their
    /// commands say, and the texts are the same.
    pub closed spec fn after_events(self, events: Seq<InputEvent>) -> Dashboard {
        Dashboard { focus: self.focus.after_all(commands_of(events)), panels: self.panels }
    }

    /// A dashboard that shows `panels`, with the focus on Status.
    pub fn new(panels: Panels) -> (dashboard: Dashboard)
        ensures
            dashboard.focus_of() == ActiveFrame::Status,
            dashboard.panels_of() == panels,
    {
        Dashboard { focus: ActiveFrame::default(), panels }
    }

    /// The panel that is highlighted.
    pub fn focus(&self) -> (focus: ActiveFrame)
        ensures
            focus == self.focus_of(),
    {
        self.focus
    }

    /// The texts of the panels.
    pub fn panels(&self) -> (panels: &Panels)
        ensures
            *panels == self.panels_of(),
    {
        &self.panels
    }

    /// The input step of the render loop: moves the focus as the event's
    /// command says, leaves the texts alone, and tells whether the loop is to
    /// end, which it does on `Quit` only.
    pub fn handle(&mut self, event: InputEvent) -> (quit: bool)
        ensures
            final(self).focus_of() == old(self).focus_of().after(event.command()),
            final(self).panels_of() == old(self).panels_of(),
            *final(self) == old(self).after_events(seq![event]),
            quit == (event.command() == KeyCommand::Quit),
    {
        proof {
            let one = commands_of(seq![event]);
            assert(one.len() == 1 && one.last() == event.command());
            assert(self.focus.after_all(one.drop_last()) == self.focus);
        }
        handle_events(&mut self.focus, event)
    }

    /// The drawing step of the render loop: draws the four panels with their
    /// texts, the one in focus highlighted.
    pub fn draw(&self, frame: &mut Frame)
        ensures
            frame_area(final(frame)) == frame_area(old(frame)),
            buffer_area(final(frame)) == buffer_area(old(frame)),
            shows_dashboard(
                is_paintable(old(frame)),
                frame_cells(old(frame)),
                frame_cells(final(frame)),
                frame_area(old(frame)),
                self.focus_of(),
                self.panels_of().text_of(ActiveFrame::Status),
                self.panels_of().text_of(ActiveFrame::Branches),
                self.panels_of().text_of(ActiveFrame::Bookmarks),
                self.panels_of().text_of(ActiveFrame::Log),
            ),
    {
        draw_ui(
            frame,
            &self.focus,
            self.panels.text(ActiveFrame::Status),
            self.panels.text(ActiveFrame::Branches),
            self.panels.text(ActiveFrame::Bookmarks),
            self.panels.text(ActiveFrame::Log),
        );
    }
}

/// The texts of the panels do not change while the dashboard runs: after any
/// run of events the dashboard holds the texts it was made with, and its
/// focus is where the commands of the events have moved it.
pub proof fn law_texts_outlive_events(dashboard: Dashboard, events: Seq<InputEvent>)
    ensures
        dashboard.after_events(events).panels_of() == dashboard.panels_of(),
        dashboard.after_events(events).focus_of() == dashboard.focus_of().after_all(
            commands_of(events),
        ),
{
}

/// Handling events one after the other is handling the run of them: the
/// dashboard after `events` and then `event` is the dashboard after the
/// longer run.
pub proof fn law_events_compose(dashboard: Dashboard, events: Seq<InputEvent>, event: InputEvent)
    ensures
        dashboard.after_events(events).after_events(seq![event]) == dashboard.after_events(
            events.push(event),
        ),
{
    let longer = commands_of(events.push(event));
    let one = commands_of(seq![event]);
    assert(longer.drop_last() == commands_of(events));
    assert(longer.last() == event.command());
    assert(one.len() == 1 && one.last() == event.command());
    let focus = dashboard.focus.after_all(commands_of(events));
    assert(focus.after_all(one.drop_last()) == focus);
}

/// Drawing a panel twice shows the same text: whatever events came in
/// between, the panel is drawn from the text the dashboard was made with.
/// From the same cells, under the same layout and with the same focus, the
/// second drawing gives what the first gave, for each panel and so for the
/// whole scene.
pub proof fn law_redraw_shows_same_text(
    dashboard: Dashboard,
    events: Seq<InputEvent>,
    cells: Seq<Glyph>,
    area: Region,
    layout: LayoutSpec,
    focus: ActiveFrame,
)
    ensures
        forall|panel: ActiveFrame|
            #[trigger] panel_drawn(
                cells,
                area,
                layout,
                focus,
                panel,
                dashboard.after_events(events).panels_of().text_of(panel),
            ) == panel_drawn(cells, area, layout, focus, panel, dashboard.panels_of().text_of(panel)),
        ({
            let later = dashboard.after_events(events).panels_of();
            let first = dashboard.panels_of();
            scene(
                cells,
                area,
                layout,
                focus,
                later.text_of(ActiveFrame::Status),
                later.text_of(ActiveFrame::Branches),
                later.text_of(ActiveFrame::Bookmarks),
                later.text_of(ActiveFrame::Log),
            ) == scene(
                cells,
                area,
                layout,
                focus,
                first.text_of(ActiveFrame::Status),
                first.text_of(ActiveFrame::Branches),
                first.text_of(ActiveFrame::Bookmarks),
                first.text_of(ActiveFrame::Log),
            )
        }),
{
}

} // verus!
