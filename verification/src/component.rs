//! What a pane can do: draw itself into a region, take keystrokes, and say
//! where the cursor belongs.

use crate::selection::Selection;
use crate::store::{Error, FeedStore, StoreModel};
use crate::terminal::{commands, BoundingBox, Command, TerminalOp};
use vstd::prelude::*;

verus! {

/// The keys the viewer tells apart.
#[derive(Clone, Copy, Debug, PartialEq, Eq)]
pub enum KeyCode {
    Esc,
    Up,
    Down,
    Char(char),
    Other,
}

/// One keystroke.
#[derive(Clone, Copy, Debug, PartialEq, Eq)]
pub struct KeyEvent {
    pub code: KeyCode,
}

/// One event from the terminal.
#[derive(Clone, Copy, Debug, PartialEq, Eq)]
pub enum Event {
    /// A key was pressed.
    Key(KeyEvent),
    /// The screen now has this many columns and rows.
    Resize(u16, u16),
    /// Anything else the terminal reports.
    Other,
}

/// The mathematical content of what a pane hands back from `render`.
pub open spec fn drawn_commands(drawn: Result<Vec<TerminalOp>, Error>) -> Result<
    Seq<Command>,
    Error,
> {
    match drawn {
        Ok(ops) => Ok(commands(ops@)),
        Err(e) => Err(e),
    }
}

/// A pane that can draw itself.
pub trait Render {
    /// The commands that draw this pane into `bounding_box` for the given
    /// feed and selection, or the error that keeps it from drawing.
    spec fn content(
        &self,
        store: StoreModel,
        selection: Selection,
        bounding_box: BoundingBox,
    ) -> Result<Seq<Command>, Error>;

    /// Draws the pane: hands back the commands to write, in order. The pane
    /// sees the feed as one consistent snapshot.
    fn render(
        &mut self,
        store: &FeedStore,
        selection: Selection,
        bounding_box: BoundingBox,
    ) -> (drawn: Result<Vec<TerminalOp>, Error>)
        requires
            store@.wf(),
        ensures
            drawn_commands(drawn) == old(self).content(store@, selection, bounding_box),
    ;
}

/// A pane that can hold the focus.
pub trait Input {
    /// Where the cursor belongs while this pane has the focus.
    spec fn cursor(&self, selection: Selection, bounding_box: BoundingBox) -> (u16, u16);

    /// Takes a keystroke that the dispatcher has no binding for.
    fn handle_key_event(&mut self, event: KeyEvent);

    /// Where the cursor belongs while this pane has the focus: column, row.
    fn get_cursor(&self, selection: Selection, bounding_box: BoundingBox) -> (position: (u16, u16))
        ensures
            position == self.cursor(selection, bounding_box),
    ;
}

/// A pane: it draws itself and can hold the focus.
pub trait Component: Render + Input {

}

/// A pane together with its dirty flag: whether what it shows is stale.
pub struct ShouldRender<T: Component> {
    pub should_render: bool,
    pub component: T,
}

impl<T: Component> ShouldRender<T> {
    /// Wraps a pane that has not been drawn yet, so it is stale.
    pub fn new(component: T) -> (pane: Self)
        ensures
            pane.should_render,
            pane.component == component,
    {
        ShouldRender { should_render: true, component }
    }
}

} // verus!
