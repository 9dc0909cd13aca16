//! The commands whose output the panels show, and how the bytes a command
//! wrote become the text of a panel.

use vstd::prelude::*;
use vstd::utf8::{decode_utf8, valid_utf8};
use crate::ui::ActiveFrame;

verus! {

/// The text that a run of bytes stands for when every part of it that is no
/// valid UTF-8 gives way to the replacement character U+FFFD.
pub uninterp spec fn lossy_text(bytes: Seq<u8>) -> Seq<char>;

/// Decodes bytes as text and never fails.
///
/// Calls `String::from_utf8_lossy` of the standard library.  Bytes that are
/// valid UTF-8 come out as the text they encode; for the rest the result is
/// the one that `lossy_text` names.
#[verifier::external_body]
fn decode_lossy(bytes: &[u8]) -> (text: String)
    ensures
        text@ == lossy_text(bytes@),
        valid_utf8(bytes@) ==> text@ == decode_utf8(bytes@),
{
    String::from_utf8_lossy(bytes).into_owned()
}

/// The text of a panel, from the bytes that its command wrote to standard
/// output.  Bytes that are valid UTF-8 are shown as the text they encode;
/// invalid parts are replaced, so no output is ever refused.
pub fn output_text(stdout: &[u8]) -> (text: String)
    ensures
        text@ == lossy_text(stdout@),
        valid_utf8(stdout@) ==> text@ == decode_utf8(stdout@),
{
    decode_lossy(stdout)
}

/// The program that is run for every panel.
pub fn program() -> (name: &'static str)
    ensures
        name@ == "hg"@,
{
    "hg"
}

/// The one argument that `panel`'s command is run with.
pub open spec fn subcommand_chars(panel: ActiveFrame) -> Seq<char> {
    match panel {
        ActiveFrame::Status => "status"@,
        ActiveFrame::Branches => "branches"@,
        ActiveFrame::Bookmarks => "bookmarks"@,
        ActiveFrame::Log => "log"@,
    }
}

/// The one argument that `panel`'s command is run with.
pub fn subcommand(panel: ActiveFrame) -> (argument: &'static str)
    ensures
        argument@ == subcommand_chars(panel),
{
    match panel {
        ActiveFrame::Status => "status",
        ActiveFrame::Branches => "branches",
        ActiveFrame::Bookmarks => "bookmarks",
        ActiveFrame::Log => "log",
    }
}

} // verus!
