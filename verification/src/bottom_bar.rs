//! The status line: which item is selected, out of how many.

use crate::component::{Component, Input, KeyEvent, Render};
use crate::layout::Layout;
use crate::selection::Selection;
use crate::store::{Error, FeedStore, StoreModel};
use crate::terminal::{commands, push_op, BoundingBox, Color, Command, TerminalOp};
use crate::text::{decimal, push_decimal};
use vstd::prelude::*;
use vstd::string::*;

verus! {

/// The text of the status line: the selected position, counted from one,
/// and the number of items.
pub open spec fn status_text(selected_index: nat, total: nat) -> Seq<char> {
    decimal(selected_index + 1) + "/"@ + decimal(total) + " items"@
}

/// The commands that write the status text at a place, black on white.
pub open spec fn status_commands(left: u16, top: u16, text: Seq<char>) -> Seq<Command> {
    seq![
        Command::MoveTo(left, top),
        Command::SetForegroundColor(Color::Black),
        Command::SetBackgroundColor(Color::White),
        Command::Print(text),
        Command::ResetColor,
    ]
}

/// What the status line draws into its region: nothing into a region
/// without a row, else the status text at the start of the region.
pub open spec fn status_content(
    selected_index: nat,
    total: nat,
    bounding_box: BoundingBox,
) -> Seq<Command> {
    if bounding_box.height == 0 {
        Seq::empty()
    } else {
        status_commands(bounding_box.left, bounding_box.top, status_text(selected_index, total))
    }
}

/// The status line.
pub struct BottomBar;

impl BottomBar {
    /// The status line.
    pub fn new() -> (bar: Self) {
        BottomBar
    }

    /// The text of the status line.
    pub fn status_text(selected_index: usize, total: usize) -> (text: String)
        ensures
            text@ == status_text(selected_index as nat, total as nat),
    {
        let mut text = String::new();
        push_decimal(&mut text, selected_index as u128 + 1);
        text.append("/");
        push_decimal(&mut text, total as u128);
        text.append(" items");
        assert(text@ =~= status_text(selected_index as nat, total as nat));
        text
    }

    /// The commands that draw the status line into a region.
    pub fn draw(selected_index: usize, total: usize, bounding_box: BoundingBox) -> (ops: Vec<
        TerminalOp,
    >)
        ensures
            commands(ops@) == status_content(selected_index as nat, total as nat, bounding_box),
    {
        let mut ops: Vec<TerminalOp> = Vec::new();
        assert(commands(ops@) =~= Seq::empty());
        if bounding_box.height > 0 {
            push_op(&mut ops, TerminalOp::MoveTo(bounding_box.left, bounding_box.top));
            push_op(&mut ops, TerminalOp::SetForegroundColor(Color::Black));
            push_op(&mut ops, TerminalOp::SetBackgroundColor(Color::White));
            push_op(&mut ops, TerminalOp::Print(BottomBar::status_text(selected_index, total)));
            push_op(&mut ops, TerminalOp::ResetColor);
            assert(commands(ops@) =~= status_content(
                selected_index as nat,
                total as nat,
                bounding_box,
            ));
        }
        ops
    }

    /// The commands that draw the status line on the bottom row of the
    /// screen, for the identifiers `tweets` and the selected position.
    pub fn render(&self, context: &Layout, tweets: &Vec<String>, selected_index: usize) -> (ops:
        Vec<TerminalOp>)
        ensures
            commands(ops@) == status_content(
                selected_index as nat,
                tweets@.len(),
                context.status_region(),
            ),
    {
        BottomBar::draw(selected_index, tweets.len(), context.status_box())
    }
}

impl Render for BottomBar {
    open spec fn content(
        &self,
        store: StoreModel,
        selection: Selection,
        bounding_box: BoundingBox,
    ) -> Result<Seq<Command>, Error> {
        Ok(status_content(selection.selected_index as nat, store.order.len(), bounding_box))
    }

    fn render(
        &mut self,
        store: &FeedStore,
        selection: Selection,
        bounding_box: BoundingBox,
    ) -> (drawn: Result<Vec<TerminalOp>, Error>)
        ensures
            *final(self) == *old(self),
    {
        Ok(BottomBar::draw(selection.selected_index, store.len(), bounding_box))
    }
}

impl Input for BottomBar {
    open spec fn cursor(&self, selection: Selection, bounding_box: BoundingBox) -> (u16, u16) {
        (bounding_box.left, bounding_box.top)
    }

    /// The status line has no key bindings of its own.
    fn handle_key_event(&mut self, event: KeyEvent)
        ensures
            *final(self) == *old(self),
    {
    }

    fn get_cursor(&self, selection: Selection, bounding_box: BoundingBox) -> (position: (u16, u16)) {
        (bounding_box.left, bounding_box.top)
    }
}

impl Component for BottomBar {

}

} // verus!
