//! The panel registry: the text of each panel, captured once and read-only
//! from then on.

use vstd::prelude::*;
use vstd::utf8::{decode_utf8, valid_utf8};
use crate::commands::{lossy_text, output_text};
use crate::ui::ActiveFrame;

verus! {

/// The texts of the four panels.  A registry is filled when it is made and
/// offers no way to change a text afterwards.
#[derive(Debug)]
pub struct Panels {
    status: String,
    branches: String,
    bookmarks: String,
    log: String,
}

impl Panels {
    /// The text of `panel`.
    pub closed spec fn text_of(self, panel: ActiveFrame) -> Seq<char> {
        match panel {
            ActiveFrame::Status => self.status@,
            ActiveFrame::Branches => self.branches@,
            ActiveFrame::Bookmarks => self.bookmarks@,
            ActiveFrame::Log => self.log@,
        }
    }

    /// A registry that holds the given texts.
    pub fn new(status: String, branches: String, bookmarks: String, log: String) -> (panels: Panels)
        ensures
            panels.text_of(ActiveFrame::Status) == status@,
            panels.text_of(ActiveFrame::Branches) == branches@,
            panels.text_of(ActiveFrame::Bookmarks) == bookmarks@,
            panels.text_of(ActiveFrame::Log) == log@,
    {
        Panels { status, branches, bookmarks, log }
    }

    /// A registry filled from what the four commands wrote to standard
    /// output: each text is the output decoded, with the parts replaced that
    /// are no valid UTF-8.
    pub fn capture(status: &[u8], branches: &[u8], bookmarks: &[u8], log: &[u8]) -> (panels: Panels)
        ensures
            panels.text_of(ActiveFrame::Status) == lossy_text(status@),
            panels.text_of(ActiveFrame::Branches) == lossy_text(branches@),
            panels.text_of(ActiveFrame::Bookmarks) == lossy_text(bookmarks@),
            panels.text_of(ActiveFrame::Log) == lossy_text(log@),
            valid_utf8(status@) ==> panels.text_of(ActiveFrame::Status) == decode_utf8(status@),
            valid_utf8(branches@) ==> panels.text_of(ActiveFrame::Branches) == decode_utf8(
                branches@,
            ),
            valid_utf8(bookmarks@) ==> panels.text_of(ActiveFrame::Bookmarks) == decode_utf8(
                bookmarks@,
            ),
            valid_utf8(log@) ==> panels.text_of(ActiveFrame::Log) == decode_utf8(log@),
    {
        Panels::new(
            output_text(status),
            output_text(branches),
            output_text(bookmarks),
            output_text(log),
        )
    }

    /// The text of `panel`.
    pub fn text(&self, panel: ActiveFrame) -> (text: &str)
        ensures
            text@ == self.text_of(panel),
    {
        match panel {
            ActiveFrame::Status => self.status.as_str(),
            ActiveFrame::Branches => self.branches.as_str(),
            ActiveFrame::Bookmarks => self.bookmarks.as_str(),
            ActiveFrame::Log => self.log.as_str(),
        }
    }
}

} // verus!
