//! Which item of the feed is selected, and which one is at the top of the
//! list pane.

use vstd::prelude::*;

verus! {

/// The selected position in the order of the feed and the topmost visible
/// position of the list pane.
#[derive(Clone, Copy, Debug, PartialEq, Eq)]
pub struct Selection {
    pub selected_index: usize,
    pub view_offset: usize,
}

/// `value` held within `low ..= high`.
pub open spec fn clamped(value: int, low: int, high: int) -> int {
    if value < low {
        low
    } else if value > high {
        high
    } else {
        value
    }
}

impl Selection {
    /// The selection of an empty feed.
    pub open spec fn start() -> Selection {
        Selection { selected_index: 0, view_offset: 0 }
    }

    /// The window starts at or above the selected position, and the selected
    /// position exists in a feed of `len` items (it is 0 in an empty one).
    pub open spec fn wf(self, len: nat) -> bool {
        &&& self.view_offset <= self.selected_index
        &&& (self.selected_index < len || self.selected_index == 0)
    }

    /// The selection after a move by `delta` positions in a feed of `len`
    /// items, shown in a list pane of `height` rows. An empty feed has
    /// nothing to select. Otherwise the selected position moves and stops at
    /// the first and at the last item; the window follows it: up to the
    /// selected position when that is above the window, down to `height`
    /// positions above it when it is below.
    pub open spec fn moved(self, delta: int, len: nat, height: nat) -> Selection {
        if len == 0 {
            self
        } else {
            let target = clamped(self.selected_index + delta, 0, len - 1);
            Selection {
                selected_index: target as usize,
                view_offset: if target < self.view_offset {
                    target as usize
                } else if target >= self.view_offset + height {
                    (target - height) as usize
                } else {
                    self.view_offset
                },
            }
        }
    }

    /// The selection at the start: first item, window at the top.
    pub fn new() -> (selection: Selection)
        ensures
            selection == Selection::start(),
    {
        Selection { selected_index: 0, view_offset: 0 }
    }

    /// Moves the selection by `delta` positions and lets the window follow.
    pub fn move_by(self, delta: isize, len: usize, height: usize) -> (next: Selection)
        requires
            self.wf(len as nat),
        ensures
            next == self.moved(delta as int, len as nat, height as nat),
            next.wf(len as nat),
            len > 0 ==> next.selected_index < len,
            next.view_offset <= next.selected_index <= next.view_offset + height,
    {
        if len == 0 {
            return self;
        }
        let last: usize = len - 1;
        let target: usize = if delta >= 0 {
            let step: usize = delta as usize;
            if step >= last - self.selected_index {
                last
            } else {
                self.selected_index + step
            }
        } else {
            let short: usize = (-(delta + 1)) as usize;
            if short >= self.selected_index {
                0
            } else {
                self.selected_index - short - 1
            }
        };
        let view_offset: usize = if target < self.view_offset {
            target
        } else if target - self.view_offset >= height {
            target - height
        } else {
            self.view_offset
        };
        Selection { selected_index: target, view_offset }
    }
}

/// After a move the selected position exists: it lies between the first and
/// the last item, it stays at the first item when moved further up, and at
/// the last item when moved further down.
pub proof fn lemma_move_clamps(selection: Selection, delta: int, len: nat, height: nat)
    requires
        selection.wf(len),
        len > 0,
        len <= usize::MAX,
    ensures
        0 <= selection.moved(delta, len, height).selected_index <= len - 1,
        selection.selected_index == 0 && delta <= 0 ==> selection.moved(
            delta,
            len,
            height,
        ).selected_index == 0,
        selection.selected_index == len - 1 && delta >= 0 ==> selection.moved(
            delta,
            len,
            height,
        ).selected_index == len - 1,
{
}

/// After a move the window starts at or above the selected position and
/// ends at most one row short of it. The selected position is inside the
/// `height` rows of the window exactly when the pane has a row at all and
/// the move did not go below the rows shown before it.
pub proof fn lemma_move_window(selection: Selection, delta: int, len: nat, height: nat)
    requires
        selection.wf(len),
        len > 0,
        len <= usize::MAX,
    ensures
        ({
            let next = selection.moved(delta, len, height);
            &&& next.view_offset <= next.selected_index <= next.view_offset + height
            &&& (next.view_offset <= next.selected_index < next.view_offset + height) <==> (height
                > 0 && next.selected_index < selection.view_offset + height)
        }),
{
}

} // verus!
