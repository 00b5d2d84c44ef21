//! The detail pane: the selected item with its timestamp, its author and
//! its body wrapped to the width of the pane.

use crate::component::{Component, Input, KeyEvent, Render};
use crate::selection::Selection;
use crate::store::{option_text, Error, FeedStore, StoreModel, Tweet};
use crate::terminal::{commands, drawing_only, push_op, BoundingBox, Command, TerminalOp};
use crate::text::texts;
use crate::wrap::{wrap_text, wrapped_lines};
use vstd::prelude::*;
use vstd::string::*;

verus! {

/// The width the body is wrapped to: the width of the pane less a margin of
/// one column.
pub open spec fn wrap_width(width: u16) -> nat {
    if width == 0 {
        0
    } else {
        (width - 1) as nat
    }
}

/// The display name of an author, or a placeholder where none is known.
pub open spec fn display_name(name: Option<String>) -> Seq<char> {
    match name {
        Some(name) => name@,
        None => "[unknown]"@,
    }
}

/// The author line: the handle, then the display name in brackets.
pub open spec fn author_line(tweet: Tweet) -> Seq<char> {
    "@"@ + tweet.author_username@ + " ["@ + display_name(tweet.author_name) + "]"@
}

/// The commands for one row of the pane: go to its start, clear it, and
/// write `text` if there is any. A row beyond the last one a terminal can
/// address is not drawn.
pub open spec fn row_commands(left: u16, row: int, text: Option<Seq<char>>) -> Seq<Command> {
    if row > u16::MAX {
        Seq::empty()
    } else {
        match text {
            Some(text) => seq![
                Command::MoveTo(left, row as u16),
                Command::ClearUntilNewLine,
                Command::Print(text),
            ],
            None => seq![Command::MoveTo(left, row as u16), Command::ClearUntilNewLine],
        }
    }
}

/// The commands for the body: one row for each line, from `first_row` down.
pub open spec fn body_commands(left: u16, first_row: int, lines: Seq<Seq<char>>) -> Seq<Command>
    decreases lines.len(),
{
    if lines.len() == 0 {
        Seq::empty()
    } else {
        body_commands(left, first_row, lines.drop_last()) + row_commands(
            left,
            first_row + lines.len() - 1,
            Some(lines.last()),
        )
    }
}

/// The commands that clear the rows `from .. to`.
pub open spec fn padding_commands(left: u16, from: int, to: int) -> Seq<Command>
    decreases to - from,
{
    if from >= to {
        Seq::empty()
    } else {
        padding_commands(left, from, to - 1) + row_commands(left, to - 1, None)
    }
}

/// The commands that draw an item into the pane: the timestamp on the
/// first row, the author on the second, the body from the fourth row down,
/// and cleared rows from there to the bottom of the pane.
pub open spec fn detail_commands(
    tweet: Tweet,
    lines: Seq<Seq<char>>,
    bounding_box: BoundingBox,
) -> Seq<Command> {
    let left = bounding_box.left;
    let top = bounding_box.top as int;
    row_commands(left, top, Some(tweet.created_at.text())) + row_commands(
        left,
        top + 1,
        Some(author_line(tweet)),
    ) + body_commands(left, top + 3, lines) + padding_commands(
        left,
        top + 3 + lines.len(),
        top + bounding_box.height,
    )
}

/// What the detail pane draws: nothing while no item is selected; the
/// selected item with its body wrapped to the pane; `NotFound` if the
/// selected identifier is not in the store.
pub open spec fn detail_content(
    selected: Option<Seq<char>>,
    store: StoreModel,
    bounding_box: BoundingBox,
) -> Result<Seq<Command>, Error> {
    match selected {
        None => Ok(Seq::empty()),
        Some(id) => if store.items.contains_key(id) {
            Ok(
                detail_commands(
                    store.items[id],
                    wrapped_lines(store.items[id].text@, wrap_width(bounding_box.width)),
                    bounding_box,
                ),
            )
        } else {
            Err(Error::NotFound)
        },
    }
}

/// The detail pane.
pub struct TweetPane {
    selected_tweet_id: Option<String>,
}

/// Appends the commands for one row.
fn push_row(ops: &mut Vec<TerminalOp>, left: u16, row: u128, text: Option<String>)
    ensures
        commands(final(ops)@) == commands(old(ops)@) + row_commands(
            left,
            row as int,
            option_text(text),
        ),
{
    if row <= 0xffff {
        push_op(ops, TerminalOp::MoveTo(left, row as u16));
        push_op(ops, TerminalOp::ClearUntilNewLine);
        match text {
            Some(text) => {
                push_op(ops, TerminalOp::Print(text));
            },
            None => {},
        }
    }
    assert(commands(ops@) =~= commands(old(ops)@) + row_commands(
        left,
        row as int,
        option_text(text),
    ));
}

impl TweetPane {
    /// The identifier of the item the pane shows, if any.
    pub closed spec fn selected(&self) -> Option<Seq<char>> {
        option_text(self.selected_tweet_id)
    }

    /// A pane with no item selected.
    pub fn new() -> (pane: Self)
        ensures
            pane.selected() is None,
    {
        TweetPane { selected_tweet_id: None }
    }

    /// Makes the pane show the item with this identifier, or nothing.
    pub fn set_selected_tweet_id(&mut self, tweet_id: Option<String>)
        ensures
            final(self).selected() == option_text(tweet_id),
    {
        self.selected_tweet_id = tweet_id;
    }

    /// The identifier of the item the pane shows, if any.
    pub fn selected_tweet_id(&self) -> (id: Option<&String>)
        ensures
            match id {
                Some(id) => self.selected() == Some(id@),
                None => self.selected() is None,
            },
    {
        self.selected_tweet_id.as_ref()
    }

    /// The author line of an item.
    pub fn author_line(tweet: &Tweet) -> (line: String)
        ensures
            line@ == author_line(*tweet),
    {
        let mut line = String::from_str("@");
        line.append(tweet.author_username.as_str());
        line.append(" [");
        match &tweet.author_name {
            Some(name) => {
                line.append(name.as_str());
            },
            None => {
                line.append("[unknown]");
            },
        }
        line.append("]");
        assert(line@ =~= author_line(*tweet));
        line
    }

    /// Draws an item whose body has already been wrapped into `lines`.
    pub fn draw(tweet: &Tweet, lines: Vec<String>, bounding_box: BoundingBox) -> (ops: Vec<
        TerminalOp,
    >)
        ensures
            commands(ops@) == detail_commands(*tweet, texts(lines@), bounding_box),
    {
        let left: u16 = bounding_box.left;
        let top: u128 = bounding_box.top as u128;
        let count: usize = lines.len();
        let ghost body = texts(lines@);
        let ghost given = lines@;
        let mut ops: Vec<TerminalOp> = Vec::new();
        assert(commands(ops@) =~= Seq::empty());
        push_row(&mut ops, left, top, Some(tweet.created_at.format()));
        push_row(&mut ops, left, top + 1, Some(TweetPane::author_line(tweet)));
        let ghost head = commands(ops@);
        assert(head =~= row_commands(left, top as int, Some(tweet.created_at.text()))
            + row_commands(left, top + 1, Some(author_line(*tweet))));
        assert(body.take(0) =~= Seq::empty());
        let mut index: usize = 0;
        for line in it: lines
            invariant
                it.seq() == given,
                index == it.index(),
                body == texts(given),
                count == given.len(),
                top == bounding_box.top,
                commands(ops@) == head + body_commands(
                    left,
                    top + 3,
                    body.take(it.index() as int),
                ),
        {
            let ghost done = body.take(it.index() as int);
            let ghost next = body.take(it.index() + 1);
            assert(next.drop_last() =~= done);
            assert(next.last() == line@);
            let row: u128 = top + 3 + index as u128;
            push_row(&mut ops, left, row, Some(line));
            index = index + 1;
        }
        assert(body.take(count as int) =~= body);
        let ghost drawn = commands(ops@);
        let first: u128 = top + 3 + count as u128;
        let end: u128 = top + bounding_box.height as u128;
        let mut row: u128 = first;
        while row < end
            invariant
                first <= row,
                row == first || row <= end,
                commands(ops@) == drawn + padding_commands(left, first as int, row as int),
                end <= 0x1fffe,
            decreases end - row,
        {
            push_row(&mut ops, left, row, None);
            row = row + 1;
        }
        assert(padding_commands(left, first as int, row as int) =~= padding_commands(
            left,
            first as int,
            end as int,
        ));
        assert(commands(ops@) =~= detail_commands(*tweet, body, bounding_box));
        ops
    }
}

impl Render for TweetPane {
    open spec fn content(
        &self,
        store: StoreModel,
        selection: Selection,
        bounding_box: BoundingBox,
    ) -> Result<Seq<Command>, Error> {
        detail_content(self.selected(), store, bounding_box)
    }

    fn render(
        &mut self,
        store: &FeedStore,
        selection: Selection,
        bounding_box: BoundingBox,
    ) -> (drawn: Result<Vec<TerminalOp>, Error>)
        ensures
            *final(self) == *old(self),
    {
        match &self.selected_tweet_id {
            None => {
                let ops: Vec<TerminalOp> = Vec::new();
                assert(commands(ops@) =~= Seq::empty());
                Ok(ops)
            },
            Some(id) => match store.get(id.as_str()) {
                Err(e) => Err(e),
                Ok(tweet) => {
                    let width: usize = bounding_box.width.saturating_sub(1) as usize;
                    let lines = wrap_text(tweet.text.as_str(), width);
                    Ok(TweetPane::draw(tweet, lines, bounding_box))
                },
            },
        }
    }
}

impl Input for TweetPane {
    open spec fn cursor(&self, selection: Selection, bounding_box: BoundingBox) -> (u16, u16) {
        (bounding_box.left, bounding_box.top)
    }

    /// The detail pane has no key bindings of its own.
    fn handle_key_event(&mut self, event: KeyEvent)
        ensures
            *final(self) == *old(self),
    {
    }

    fn get_cursor(&self, selection: Selection, bounding_box: BoundingBox) -> (position: (u16, u16)) {
        (bounding_box.left, bounding_box.top)
    }
}

impl Component for TweetPane {

}

/// The rows of the body only draw.
pub proof fn lemma_body_draws(left: u16, first_row: int, lines: Seq<Seq<char>>)
    ensures
        drawing_only(body_commands(left, first_row, lines)),
    decreases lines.len(),
{
    if lines.len() > 0 {
        lemma_body_draws(left, first_row, lines.drop_last());
    }
}

/// The cleared rows only draw.
pub proof fn lemma_padding_draws(left: u16, from: int, to: int)
    ensures
        drawing_only(padding_commands(left, from, to)),
    decreases to - from,
{
    if from < to {
        lemma_padding_draws(left, from, to - 1);
    }
}

/// Whatever the detail pane draws, it only draws: it never switches the
/// display mode and never flushes.
pub proof fn lemma_detail_draws(
    selected: Option<Seq<char>>,
    store: StoreModel,
    bounding_box: BoundingBox,
)
    ensures
        match detail_content(selected, store, bounding_box) {
            Ok(content) => drawing_only(content),
            Err(_) => true,
        },
{
    if let Ok(content) = detail_content(selected, store, bounding_box) {
        if let Some(id) = selected {
            let lines = wrapped_lines(store.items[id].text@, wrap_width(bounding_box.width));
            let top = bounding_box.top as int;
            lemma_body_draws(bounding_box.left, top + 3, lines);
            lemma_padding_draws(
                bounding_box.left,
                top + 3 + lines.len(),
                top + bounding_box.height,
            );
        }
    }
}

} // verus!
