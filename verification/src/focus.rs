//! The focus state machine: how a command moves the highlight.

use vstd::prelude::*;
use crate::ui::ActiveFrame;

verus! {

/// What a key press asks of the dashboard.
#[derive(Clone, Copy, Debug, PartialEq, Eq, Structural)]
pub enum KeyCommand {
    Quit,
    FocusStatus,
    FocusLog,
    ToggleBranchesBookmarks,
    NoOp,
}

impl ActiveFrame {
    /// The focus after the toggle command: Bookmarks from Branches, and
    /// Branches from every other panel.
    pub open spec fn toggled(self) -> ActiveFrame {
        match self {
            ActiveFrame::Branches => ActiveFrame::Bookmarks,
            _ => ActiveFrame::Branches,
        }
    }

    /// The focus after one command.
    pub open spec fn after(self, command: KeyCommand) -> ActiveFrame {
        match command {
            KeyCommand::FocusStatus => ActiveFrame::Status,
            KeyCommand::FocusLog => ActiveFrame::Log,
            KeyCommand::ToggleBranchesBookmarks => self.toggled(),
            KeyCommand::Quit | KeyCommand::NoOp => self,
        }
    }

    /// The focus after a run of commands, applied from the first to the last.
    pub open spec fn after_all(self, commands: Seq<KeyCommand>) -> ActiveFrame
        decreases commands.len(),
    {
        if commands.len() == 0 {
            self
        } else {
            self.after_all(commands.drop_last()).after(commands.last())
        }
    }

    /// How many of the four panels are highlighted under this focus.
    pub open spec fn highlighted_count(self) -> nat {
        let one = |panel: ActiveFrame| if self.highlights(panel) { 1nat } else { 0nat };
        one(ActiveFrame::Status) + one(ActiveFrame::Branches) + one(ActiveFrame::Bookmarks) + one(
            ActiveFrame::Log,
        )
    }

    /// Applies one command to the focus.
    pub fn apply(self, command: KeyCommand) -> (next: ActiveFrame)
        ensures
            next == self.after(command),
    {
        match command {
            KeyCommand::FocusStatus => ActiveFrame::Status,
            KeyCommand::FocusLog => ActiveFrame::Log,
            KeyCommand::ToggleBranchesBookmarks => match self {
                ActiveFrame::Branches => ActiveFrame::Bookmarks,
                _ => ActiveFrame::Branches,
            },
            KeyCommand::Quit | KeyCommand::NoOp => self,
        }
    }
}

/// Whether every command of the run is `command`.
pub open spec fn all_are(commands: Seq<KeyCommand>, command: KeyCommand) -> bool {
    forall|i: int| 0 <= i < commands.len() ==> commands[i] == command
}

/// Pressing the toggle key over and over alternates between Branches and
/// Bookmarks.  After the `k`-th press the focus is Bookmarks if the run
/// started on Branches and `k` is odd, or started elsewhere and `k` is even;
/// otherwise it is Branches.  So a run from Branches reads Bookmarks,
/// Branches, Bookmarks and so on, and from any other panel the first press
/// lands on Branches.
pub proof fn law_toggle_alternates(start: ActiveFrame, commands: Seq<KeyCommand>)
    requires
        all_are(commands, KeyCommand::ToggleBranchesBookmarks),
    ensures
        forall|k: int|
            1 <= k <= commands.len() ==> #[trigger] start.after_all(commands.take(k)) == (if (start
                == ActiveFrame::Branches) == (k % 2 == 1) {
                ActiveFrame::Bookmarks
            } else {
                ActiveFrame::Branches
            }),
        start != ActiveFrame::Branches && commands.len() >= 1 ==> start.after_all(commands.take(1))
            == ActiveFrame::Branches,
    decreases commands.len(),
{
    if commands.len() > 0 {
        let shorter = commands.drop_last();
        law_toggle_alternates(start, shorter);
        assert forall|k: int| 1 <= k <= commands.len() implies #[trigger] start.after_all(
            commands.take(k),
        ) == (if (start == ActiveFrame::Branches) == (k % 2 == 1) {
            ActiveFrame::Bookmarks
        } else {
            ActiveFrame::Branches
        }) by {
            if k < commands.len() {
                assert(commands.take(k) == shorter.take(k));
            } else {
                assert(commands.take(k) == commands);
                assert(commands.last() == KeyCommand::ToggleBranchesBookmarks);
                assert(start.after_all(commands) == start.after_all(shorter).toggled());
                if k >= 2 {
                    assert(shorter.take(k - 1) == shorter);
                    assert(start.after_all(shorter) == start.after_all(shorter.take(k - 1)));
                } else {
                    assert(start.after_all(shorter) == start);
                }
            }
        }
    }
}

/// The two focus commands are absolute: a run of commands that ends in
/// `FocusStatus` leaves the focus on Status, and one that ends in `FocusLog`
/// leaves it on Log, wherever the run started and whatever came before.
pub proof fn law_focus_is_absolute(start: ActiveFrame, commands: Seq<KeyCommand>)
    requires
        commands.len() >= 1,
    ensures
        commands.last() == KeyCommand::FocusStatus ==> start.after_all(commands)
            == ActiveFrame::Status,
        commands.last() == KeyCommand::FocusLog ==> start.after_all(commands) == ActiveFrame::Log,
{
}

/// The two focus commands are idempotent: issuing one of them a second time
/// changes nothing.
pub proof fn law_focus_is_idempotent(start: ActiveFrame, command: KeyCommand)
    requires
        command == KeyCommand::FocusStatus || command == KeyCommand::FocusLog,
    ensures
        start.after(command).after(command) == start.after(command),
{
}

/// After any run of commands exactly one panel is highlighted: the focus
/// names a panel, and no other panel is highlighted with it.
pub proof fn law_one_panel_active(start: ActiveFrame, commands: Seq<KeyCommand>)
    ensures
        ({
            let focus = start.after_all(commands);
            &&& focus.highlights(focus)
            &&& forall|panel: ActiveFrame| focus.highlights(panel) ==> panel == focus
            &&& focus.highlighted_count() == 1
        }),
{
}

/// A run of commands that holds nothing but `NoOp` leaves the focus where it
/// was.
pub proof fn law_noop_keeps_focus(start: ActiveFrame, commands: Seq<KeyCommand>)
    requires
        all_are(commands, KeyCommand::NoOp),
    ensures
        start.after_all(commands) == start,
    decreases commands.len(),
{
    if commands.len() > 0 {
        law_noop_keeps_focus(start, commands.drop_last());
    }
}

} // verus!
