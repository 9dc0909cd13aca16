use hg_dashboard::commands::{output_text, program, subcommand};
use hg_dashboard::panels::Panels;
use hg_dashboard::ui::ActiveFrame;

#[test]
fn ascii_output_is_kept() {
    assert_eq!(output_text(b"M src/lib.rs\n? notes.txt\n"), "M src/lib.rs\n? notes.txt\n");
}

#[test]
fn empty_output_is_empty_text() {
    assert_eq!(output_text(b""), "");
}

#[test]
fn valid_utf8_output_is_decoded() {
    assert_eq!(output_text("zmiana: żółć €".as_bytes()), "zmiana: żółć €");
    assert_eq!(output_text(&[0xf0, 0x9f, 0xa6, 0x80]), "\u{1f980}");
}

#[test]
fn invalid_bytes_are_replaced() {
    assert_eq!(output_text(b"ab\xffcd"), "ab\u{fffd}cd");
    assert_eq!(output_text(&[0xc3]), "\u{fffd}");
    assert_eq!(output_text(&[b'x', 0xed, 0xa0, 0x80, b'y']), "x\u{fffd}\u{fffd}\u{fffd}y");
}

#[test]
fn the_program_is_hg() {
    assert_eq!(program(), "hg");
}

#[test]
fn each_panel_has_its_subcommand() {
    assert_eq!(subcommand(ActiveFrame::Status), "status");
    assert_eq!(subcommand(ActiveFrame::Branches), "branches");
    assert_eq!(subcommand(ActiveFrame::Bookmarks), "bookmarks");
    assert_eq!(subcommand(ActiveFrame::Log), "log");
}

#[test]
fn registry_hands_back_what_it_was_given() {
    let panels = Panels::new(
        String::from("clean"),
        String::from("default"),
        String::from("no bookmarks set"),
        String::from("changeset: 0"),
    );
    assert_eq!(panels.text(ActiveFrame::Status), "clean");
    assert_eq!(panels.text(ActiveFrame::Branches), "default");
    assert_eq!(panels.text(ActiveFrame::Bookmarks), "no bookmarks set");
    assert_eq!(panels.text(ActiveFrame::Log), "changeset: 0");
}

#[test]
fn registry_captures_command_output() {
    let panels = Panels::capture(b"M a\n", b"default 3:abc\n", b"stable\xfe 1:def\n", b"");
    assert_eq!(panels.text(ActiveFrame::Status), "M a\n");
    assert_eq!(panels.text(ActiveFrame::Branches), "default 3:abc\n");
    assert_eq!(panels.text(ActiveFrame::Bookmarks), "stable\u{fffd} 1:def\n");
    assert_eq!(panels.text(ActiveFrame::Log), "");
}
