//! The frame that a terminal hands out for one round of drawing, seen as a
//! grid of cells, and the one operation the dashboard performs on it:
//! painting a bordered, titled box of text.
//!
//! Nothing in this module is proved.  It states what the dashboard relies on
//! when it draws through ratatui.

use vstd::prelude::*;
use ratatui::Frame;
use ratatui::layout::Rect;
use ratatui::style::{Color, Style};
use ratatui::widgets::{Block, Paragraph};
use crate::layout::Region;

verus! {

/// The longest title, counted in characters, that a box is painted with.
pub const TITLE_LIMIT: usize = 1024;

/// A colour that a box can be painted in: one of the eight basic colours
/// of a terminal.
#[derive(Clone, Copy, Debug, PartialEq, Eq)]
pub enum Tint {
    Black,
    Red,
    Green,
    Yellow,
    Blue,
    Magenta,
    Cyan,
    Gray,
}

/// A colour as a cell of a frame records it.
pub enum Shade {
    Reset,
    Black,
    Red,
    Green,
    Yellow,
    Blue,
    Magenta,
    Cyan,
    Gray,
    DarkGray,
    LightRed,
    LightGreen,
    LightYellow,
    LightBlue,
    LightMagenta,
    LightCyan,
    White,
    Rgb(u8, u8, u8),
    Indexed(u8),
}

/// One cell of a frame: the symbol it shows, its three colours, the bits of
/// its text modifiers, and whether it is left out when the frame is sent to
/// the terminal.
pub struct Glyph {
    pub symbol: Seq<char>,
    pub foreground: Shade,
    pub background: Shade,
    pub underline: Shade,
    pub modifiers: u16,
    pub skipped: bool,
}

/// A frame of ratatui.  Its fields are private to that crate.
#[verifier::external_type_specification]
#[verifier::external_body]
pub struct ExFrame<'a>(Frame<'a>);

/// The part of the terminal that a frame covers.
pub uninterp spec fn frame_area(frame: &Frame) -> Region;

/// The area that the buffer of a frame says it covers.  In a frame as the
/// terminal hands it out this is the frame's area, but the buffer is open to
/// whoever holds the frame and can be resized.
pub uninterp spec fn buffer_area(frame: &Frame) -> Region;

/// The cells that the buffer of a frame holds, row by row from the top,
/// each row from the left.
pub uninterp spec fn frame_cells(frame: &Frame) -> Seq<Glyph>;

/// The cells of a buffer over `area` after a box has been painted into
/// `region` of it: a border all round with `title` in its top line, `text`
/// inside, each line of it cut off at the border, and the whole box in the
/// colour `foreground` where there is one.  `cells` are the cells before.
pub uninterp spec fn panel_painted(
    cells: Seq<Glyph>,
    area: Region,
    region: Region,
    title: Seq<char>,
    text: Seq<char>,
    foreground: Option<Tint>,
) -> Seq<Glyph>;

/// Whether a box can be painted into the frame: the area is addressable,
/// the buffer covers exactly that area, and it holds one cell for each cell
/// of the area.
pub open spec fn is_paintable(frame: &Frame) -> bool {
    &&& frame_area(frame).is_addressable()
    &&& buffer_area(frame) == frame_area(frame)
    &&& frame_cells(frame).len() == frame_area(frame).width * frame_area(frame).height
}

/// Reads the area that a frame covers.  Calls `Frame::size`.
#[verifier::external_body]
pub(crate) fn frame_size(frame: &Frame) -> (area: Region)
    ensures
        area == frame_area(frame),
{
    let rect = frame.size();
    Region { x: rect.x, y: rect.y, width: rect.width, height: rect.height }
}

/// Reads the area that the buffer of a frame says it covers: the field
/// `area` of what `Frame::buffer_mut` hands out.  The frame is not changed.
#[verifier::external_body]
pub(crate) fn buffer_size(frame: &mut Frame) -> (area: Region)
    ensures
        area == buffer_area(old(frame)),
        *final(frame) == *old(frame),
{
    let rect = frame.buffer_mut().area;
    Region { x: rect.x, y: rect.y, width: rect.width, height: rect.height }
}

/// Counts the cells that the buffer of a frame holds: the length of the
/// field `content` of what `Frame::buffer_mut` hands out.  The frame is not
/// changed.
#[verifier::external_body]
pub(crate) fn cell_count(frame: &mut Frame) -> (count: usize)
    ensures
        count == frame_cells(old(frame)).len(),
        *final(frame) == *old(frame),
{
    frame.buffer_mut().content.len()
}

/// Paints a box, in the colour `foreground` or, without one, in the colours
/// the cells have.
///
/// Calls `Frame::render_widget` with a `Paragraph` of `text` in a bordered
/// `Block` titled `title`, the block's style holding `foreground` and
/// nothing else.  The widget writes through coordinates of sixteen bits into
/// the buffer and does not look where it ends, hence the demands: the frame
/// is paintable, the box lies in its area, and the title is short.  The
/// frame and its buffer cover the same area afterwards and hold as many
/// cells; the cells are those that `panel_painted` names.
#[verifier::external_body]
pub(crate) fn paint_box(
    frame: &mut Frame,
    region: Region,
    title: &str,
    text: &str,
    foreground: Option<Tint>,
)
    requires
        is_paintable(old(frame)),
        region.fits(frame_area(old(frame))),
        title@.len() <= TITLE_LIMIT,
    ensures
        frame_area(final(frame)) == frame_area(old(frame)),
        buffer_area(final(frame)) == buffer_area(old(frame)),
        frame_cells(final(frame)).len() == frame_cells(old(frame)).len(),
        frame_cells(final(frame)) == panel_painted(
            frame_cells(old(frame)),
            frame_area(old(frame)),
            region,
            title@,
            text@,
            foreground,
        ),
{
    let fg = foreground.map(|tint| match tint {
        Tint::Black => Color::Black,
        Tint::Red => Color::Red,
        Tint::Green => Color::Green,
        Tint::Yellow => Color::Yellow,
        Tint::Blue => Color::Blue,
        Tint::Magenta => Color::Magenta,
        Tint::Cyan => Color::Cyan,
        Tint::Gray => Color::Gray,
    });
    let rect = Rect { x: region.x, y: region.y, width: region.width, height: region.height };
    let block = Block::bordered().title(title).style(Style { fg, ..Style::default() });
    frame.render_widget(Paragraph::new(text).block(block), rect);
}

} // verus!
