//! The numbers behind the screen layout: a centred content column of
//! limited width, and rows of fixed height.

use vstd::prelude::*;

verus! {

/// The content column is never wider than this.
pub const CONTENT_MAX_WIDTH: u16 = 100;

/// Height of one task, of one input field and of the heading.
pub const ROW_HEIGHT: u16 = 5;

/// The widths of the three columns of a screen: the content in the middle
/// and an empty column of width `side` on either side of it.
#[derive(Clone, Copy, Debug, PartialEq, Eq, Structural)]
pub struct Columns {
    pub side: u16,
    pub content: u16,
}

/// The columns of a screen of the given width. The content takes the whole
/// width up to the maximum, and each side half of what is left, rounded
/// down.
pub open spec fn columns(frame_width: u16) -> Columns {
    let content: u16 = if frame_width < CONTENT_MAX_WIDTH {
        frame_width
    } else {
        CONTENT_MAX_WIDTH
    };
    Columns { side: ((frame_width - content) / 2) as u16, content }
}

/// The columns fit the screen, and leave at most one cell of it unused.
pub proof fn lemma_columns_fill_the_frame(frame_width: u16)
    ensures
        columns(frame_width).content <= CONTENT_MAX_WIDTH,
        2 * columns(frame_width).side + columns(frame_width).content <= frame_width,
        frame_width - (2 * columns(frame_width).side + columns(frame_width).content) <= 1,
{
}

/// Computes the widths of the three columns of a screen.
pub fn layout(frame_width: u16) -> (c: Columns)
    ensures
        c == columns(frame_width),
{
    let content: u16 = if frame_width < CONTENT_MAX_WIDTH {
        frame_width
    } else {
        CONTENT_MAX_WIDTH
    };
    Columns { side: (frame_width - content) / 2, content }
}

/// Height of the area that shows `count` tasks, if the screen can count
/// that far.
pub fn todo_area_height(count: usize) -> (h: Option<u16>)
    ensures
        h == if count * ROW_HEIGHT <= u16::MAX {
            Some((count * ROW_HEIGHT) as u16)
        } else {
            None
        },
{
    if count <= (u16::MAX / ROW_HEIGHT) as usize {
        Some(count as u16 * ROW_HEIGHT)
    } else {
        None
    }
}

} // verus!
