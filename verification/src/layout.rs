//! How the screen is divided among the panes.

use crate::terminal::BoundingBox;
use vstd::prelude::*;

verus! {

/// The size of the screen and the widths of the two panes that share it.
#[derive(Clone, Copy, Debug, PartialEq, Eq)]
pub struct Layout {
    pub screen_cols: u16,
    pub screen_rows: u16,
    pub feed_pane_width: u16,
    pub tweet_pane_width: u16,
}

impl Layout {
    /// The layout of a screen of `cols` columns and `rows` rows: the list
    /// pane takes the left half, the detail pane the columns that remain.
    pub open spec fn of(cols: u16, rows: u16) -> Layout {
        Layout {
            screen_cols: cols,
            screen_rows: rows,
            feed_pane_width: cols / 2,
            tweet_pane_width: (cols - cols / 2) as u16,
        }
    }

    /// The rows above the status line.
    pub open spec fn body_rows(self) -> u16 {
        if self.screen_rows == 0 {
            0
        } else {
            (self.screen_rows - 1) as u16
        }
    }

    /// The region of the list pane: on the left, above the status line.
    pub open spec fn list_region(self) -> BoundingBox {
        BoundingBox { left: 0, top: 0, width: self.feed_pane_width, height: self.body_rows() }
    }

    /// The region of the detail pane: right of the list pane, above the
    /// status line.
    pub open spec fn detail_region(self) -> BoundingBox {
        BoundingBox {
            left: self.feed_pane_width,
            top: 0,
            width: self.tweet_pane_width,
            height: self.body_rows(),
        }
    }

    /// The region of the status line: the bottom row, if the screen has a
    /// row at all.
    pub open spec fn status_region(self) -> BoundingBox {
        BoundingBox {
            left: 0,
            top: self.body_rows(),
            width: self.screen_cols,
            height: if self.screen_rows == 0 {
                0
            } else {
                1
            },
        }
    }

    /// The layout of a screen of `cols` columns and `rows` rows.
    pub fn new(cols: u16, rows: u16) -> (layout: Layout)
        ensures
            layout == Layout::of(cols, rows),
            layout.feed_pane_width + layout.tweet_pane_width == cols,
    {
        Layout {
            screen_cols: cols,
            screen_rows: rows,
            feed_pane_width: cols / 2,
            tweet_pane_width: cols - cols / 2,
        }
    }

    /// The region of the list pane.
    pub fn list_box(&self) -> (region: BoundingBox)
        ensures
            region == self.list_region(),
    {
        BoundingBox {
            left: 0,
            top: 0,
            width: self.feed_pane_width,
            height: self.screen_rows.saturating_sub(1),
        }
    }

    /// The region of the detail pane.
    pub fn detail_box(&self) -> (region: BoundingBox)
        ensures
            region == self.detail_region(),
    {
        BoundingBox {
            left: self.feed_pane_width,
            top: 0,
            width: self.tweet_pane_width,
            height: self.screen_rows.saturating_sub(1),
        }
    }

    /// The region of the status line.
    pub fn status_box(&self) -> (region: BoundingBox)
        ensures
            region == self.status_region(),
    {
        BoundingBox {
            left: 0,
            top: self.screen_rows.saturating_sub(1),
            width: self.screen_cols,
            height: if self.screen_rows == 0 {
                0
            } else {
                1
            },
        }
    }
}

} // verus!
