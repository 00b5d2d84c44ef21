//! The list pane: one row for each item of the window, the selected row
//! marked.

use crate::component::{Component, Input, KeyEvent, Render};
use crate::selection::Selection;
use crate::store::{Error, FeedStore, StoreModel, Tweet};
use crate::terminal::{commands, drawing_only, push_op, BoundingBox, Command, TerminalOp};
use crate::text::{first_line, first_line_of, fit, fitted, push_spaces, repeated};
use vstd::prelude::*;
use vstd::string::*;

verus! {

/// What a row starts with: a mark on the selected row, as many blanks on
/// the others.
pub open spec fn marker(selected: bool) -> Seq<char> {
    if selected {
        "> "@
    } else {
        "  "@
    }
}

/// What a row says of an item: the mark, the author's handle and the first
/// line of the body.
pub open spec fn row_label(tweet: Tweet, selected: bool) -> Seq<char> {
    marker(selected) + "@"@ + tweet.author_username@ + " "@ + first_line(tweet.text@)
}

/// The text of the row that shows position `position` of the order, exactly
/// `width` characters wide: the item's label cut or padded to the width, or
/// blanks where the order has no such position.
pub open spec fn list_row_text(
    store: StoreModel,
    selection: Selection,
    width: u16,
    position: int,
) -> Seq<char> {
    if 0 <= position < store.order.len() {
        fitted(
            row_label(store.items[store.order[position]], position == selection.selected_index),
            width as nat,
        )
    } else {
        repeated(' ', width as nat)
    }
}

/// The commands for row `r` of the pane, which shows the position `r` below
/// the top of the window. A row beyond the last one a terminal can address
/// is not drawn.
pub open spec fn list_row_commands(
    store: StoreModel,
    selection: Selection,
    bounding_box: BoundingBox,
    r: int,
) -> Seq<Command> {
    if bounding_box.top + r > u16::MAX {
        Seq::empty()
    } else {
        seq![
            Command::MoveTo(bounding_box.left, (bounding_box.top + r) as u16),
            Command::Print(
                list_row_text(store, selection, bounding_box.width, selection.view_offset + r),
            ),
        ]
    }
}

/// The commands for the first `rows` rows of the pane, top down.
pub open spec fn list_commands(
    store: StoreModel,
    selection: Selection,
    bounding_box: BoundingBox,
    rows: nat,
) -> Seq<Command>
    decreases rows,
{
    if rows == 0 {
        Seq::empty()
    } else {
        list_commands(store, selection, bounding_box, (rows - 1) as nat) + list_row_commands(
            store,
            selection,
            bounding_box,
            rows - 1,
        )
    }
}

/// What the list pane draws: every row of its region, showing the
/// positions from the top of the window on.
pub open spec fn list_content(
    store: StoreModel,
    selection: Selection,
    bounding_box: BoundingBox,
) -> Seq<Command> {
    list_commands(store, selection, bounding_box, bounding_box.height as nat)
}

/// Where the cursor belongs in the list pane: at the start of the selected
/// row, or on the last row a terminal can address if that row lies beyond.
pub open spec fn list_cursor(selection: Selection, bounding_box: BoundingBox) -> (u16, u16) {
    let below: int = if selection.selected_index >= selection.view_offset {
        selection.selected_index - selection.view_offset
    } else {
        0
    };
    (
        bounding_box.left,
        if bounding_box.top + below > u16::MAX {
            u16::MAX
        } else {
            (bounding_box.top + below) as u16
        },
    )
}

/// The list pane.
pub struct FeedPane;

impl FeedPane {
    /// The list pane.
    pub fn new() -> (pane: Self) {
        FeedPane
    }

    /// What a row says of an item.
    pub fn row_label(tweet: &Tweet, selected: bool) -> (label: String)
        ensures
            label@ == row_label(*tweet, selected),
    {
        let mut label = if selected {
            String::from_str("> ")
        } else {
            String::from_str("  ")
        };
        label.append("@");
        label.append(tweet.author_username.as_str());
        label.append(" ");
        label.append(first_line_of(tweet.text.as_str()));
        assert(label@ =~= row_label(*tweet, selected));
        label
    }
}

impl Render for FeedPane {
    open spec fn content(
        &self,
        store: StoreModel,
        selection: Selection,
        bounding_box: BoundingBox,
    ) -> Result<Seq<Command>, Error> {
        Ok(list_content(store, selection, bounding_box))
    }

    fn render(
        &mut self,
        store: &FeedStore,
        selection: Selection,
        bounding_box: BoundingBox,
    ) -> (drawn: Result<Vec<TerminalOp>, Error>)
        ensures
            *final(self) == *old(self),
    {
        let len: usize = store.len();
        let width: usize = bounding_box.width as usize;
        let mut ops: Vec<TerminalOp> = Vec::new();
        assert(commands(ops@) =~= Seq::empty());
        let mut r: u16 = 0;
        while r < bounding_box.height
            invariant
                r <= bounding_box.height,
                store@.wf(),
                len == store@.order.len(),
                width == bounding_box.width,
                commands(ops@) == list_commands(store@, selection, bounding_box, r as nat),
            decreases bounding_box.height - r,
        {
            if bounding_box.top as u32 + r as u32 <= 0xffff {
                let text = if selection.view_offset < len && r as usize <= len - 1
                    - selection.view_offset {
                    let position: usize = selection.view_offset + r as usize;
                    match store.id_at(position) {
                        None => {
                            return Err(Error::NotFound);
                        },
                        Some(id) => match store.get(id.as_str()) {
                            Err(e) => {
                                assert(store@.items.contains_key(store@.order[position as int]));
                                return Err(e);
                            },
                            Ok(tweet) => fit(
                                FeedPane::row_label(
                                    tweet,
                                    position == selection.selected_index,
                                ).as_str(),
                                width,
                            ),
                        },
                    }
                } else {
                    let mut blank = String::new();
                    push_spaces(&mut blank, width);
                    assert(blank@ =~= repeated(' ', width as nat));
                    blank
                };
                push_op(&mut ops, TerminalOp::MoveTo(bounding_box.left, bounding_box.top + r));
                push_op(&mut ops, TerminalOp::Print(text));
            }
            assert(commands(ops@) =~= list_commands(store@, selection, bounding_box, r as nat)
                + list_row_commands(store@, selection, bounding_box, r as int));
            r = r + 1;
        }
        Ok(ops)
    }
}

impl Input for FeedPane {
    open spec fn cursor(&self, selection: Selection, bounding_box: BoundingBox) -> (u16, u16) {
        list_cursor(selection, bounding_box)
    }

    /// The list pane has no key bindings of its own.
    fn handle_key_event(&mut self, event: KeyEvent)
        ensures
            *final(self) == *old(self),
    {
    }

    fn get_cursor(&self, selection: Selection, bounding_box: BoundingBox) -> (position: (u16, u16)) {
        let below: usize = if selection.selected_index >= selection.view_offset {
            selection.selected_index - selection.view_offset
        } else {
            0
        };
        let room: u16 = 0xffff - bounding_box.top;
        if below > room as usize {
            (bounding_box.left, 0xffff)
        } else {
            (bounding_box.left, bounding_box.top + below as u16)
        }
    }
}

impl Component for FeedPane {

}

/// Whatever the list pane draws, it only draws: it never switches the
/// display mode and never flushes.
pub proof fn lemma_list_draws(
    store: StoreModel,
    selection: Selection,
    bounding_box: BoundingBox,
    rows: nat,
)
    ensures
        drawing_only(list_commands(store, selection, bounding_box, rows)),
    decreases rows,
{
    if rows > 0 {
        lemma_list_draws(store, selection, bounding_box, (rows - 1) as nat);
    }
}

/// Every row that the list pane prints is exactly as wide as the pane, so
/// the pane never writes into its neighbour.
pub proof fn lemma_list_row_width(
    store: StoreModel,
    selection: Selection,
    width: u16,
    position: int,
)
    ensures
        list_row_text(store, selection, width, position).len() == width,
{
}

} // verus!
