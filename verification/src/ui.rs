//! The event dispatcher: display mode, layout, dirty flags, selection and
//! the feed store, and what each event does to them.

use crate::bottom_bar::{status_content, BottomBar};
use crate::component::{Event, Input, KeyCode, KeyEvent, Render, ShouldRender};
use crate::feed_pane::{lemma_list_draws, list_content, list_cursor, FeedPane};
use crate::layout::Layout;
use crate::selection::Selection;
use crate::store::{
    lemma_merged_contains, option_text, outcome_model, Error, FeedStore, Page, PageRequest,
    StoreModel,
};
use crate::terminal::{append_ops, commands, drawing_only, push_op, Command, TerminalOp};
use crate::tweet_pane::{detail_content, lemma_detail_draws, TweetPane};
use vstd::prelude::*;
use vstd::string::*;

verus! {

/// What the terminal is used for at the moment.
#[derive(Copy, Clone, Debug, Eq, PartialEq)]
pub enum Mode {
    /// Plain lines of output, one after the other.
    Log,
    /// The panes, on the alternate screen.
    Interactive,
}

/// The panes.
#[derive(Copy, Clone, Debug, Eq, PartialEq)]
pub enum PaneKind {
    List,
    Detail,
    Status,
}

/// What background work reports to the dispatcher.
#[derive(Clone, Debug, Eq, PartialEq)]
pub enum InternalEvent {
    /// A page was merged into the feed store.
    FeedUpdated,
    /// Something failed; the user is to be told.
    LogError(Error),
}

/// What the dispatcher wants done after it has handled an event.
#[derive(Clone, Debug, Eq, PartialEq)]
pub enum Action {
    /// Nothing.
    Nothing,
    /// Write these commands to the terminal.
    Terminal(Vec<TerminalOp>),
    /// Write these commands, then show the item with this identifier in the
    /// pager and wait until the pager is closed.
    Inspect(Vec<TerminalOp>, String),
    /// Fetch a page in the background and report back with `finish_load`.
    Fetch(PageRequest),
    /// Queue this event for the dispatcher.
    Emit(InternalEvent),
    /// Write these commands, then end the process.
    Quit(Vec<TerminalOp>),
}

/// The mathematical content of an [`Action`].
pub enum ActionModel {
    Nothing,
    Terminal(Seq<Command>),
    Inspect(Seq<Command>, Seq<char>),
    Fetch(Option<Seq<char>>),
    Emit(InternalEvent),
    Quit(Seq<Command>),
}

impl View for Action {
    type V = ActionModel;

    open spec fn view(&self) -> ActionModel {
        match self {
            Action::Nothing => ActionModel::Nothing,
            Action::Terminal(ops) => ActionModel::Terminal(commands(ops@)),
            Action::Inspect(ops, id) => ActionModel::Inspect(commands(ops@), id@),
            Action::Fetch(request) => ActionModel::Fetch(option_text(request.page_token)),
            Action::Emit(event) => ActionModel::Emit(*event),
            Action::Quit(ops) => ActionModel::Quit(commands(ops@)),
        }
    }
}

/// The mathematical content of what handling a terminal event gives.
pub open spec fn action_result(result: Result<Action, Error>) -> Result<ActionModel, Error> {
    match result {
        Ok(action) => Ok(action@),
        Err(e) => Err(e),
    }
}

/// The commands that take the terminal from one mode to another. Entering
/// the interactive mode switches to the alternate screen and turns raw
/// input on; leaving it switches back and leaves raw input on, because the
/// dispatcher still needs single keystrokes; staying in a mode does nothing.
pub open spec fn mode_commands(from: Mode, to: Mode) -> Seq<Command> {
    match (from, to) {
        (Mode::Log, Mode::Interactive) => seq![
            Command::EnterAlternateScreen,
            Command::EnableRawMode,
        ],
        (Mode::Interactive, Mode::Log) => seq![
            Command::LeaveAlternateScreen,
            Command::EnableRawMode,
        ],
        _ => Seq::empty(),
    }
}

/// The commands that give the terminal back as it was found.
pub open spec fn reset_commands() -> Seq<Command> {
    seq![Command::LeaveAlternateScreen, Command::DisableRawMode]
}

/// The commands that give the terminal back as it was found: leave the
/// alternate screen and turn raw input off.
pub fn reset() -> (ops: Vec<TerminalOp>)
    ensures
        commands(ops@) == reset_commands(),
{
    let mut ops: Vec<TerminalOp> = Vec::new();
    ops.push(TerminalOp::LeaveAlternateScreen);
    ops.push(TerminalOp::DisableRawMode);
    assert(commands(ops@) =~= reset_commands());
    ops
}

/// The line that the diagnostic key logs.
pub open spec fn greeting() -> Seq<char> {
    "hello"@
}

/// What a request to load a page asks of the shell: fetch with the cursor
/// granted, or queue the refusal as an error event.
pub open spec fn load_action(store: StoreModel, restart: bool) -> ActionModel {
    match store.load_decision(restart) {
        Ok(cursor) => ActionModel::Fetch(cursor),
        Err(e) => ActionModel::Emit(InternalEvent::LogError(e)),
    }
}

/// What a finished fetch is reported as.
pub open spec fn load_event(outcome: Result<Page, String>) -> InternalEvent {
    match outcome {
        Ok(_) => InternalEvent::FeedUpdated,
        Err(message) => InternalEvent::LogError(Error::ProviderError(message)),
    }
}

/// The mathematical content of a [`UI`].
pub struct UiModel {
    pub mode: Mode,
    pub layout: Layout,
    /// The dirty flags of the list pane, the detail pane and the status line.
    pub list_dirty: bool,
    pub detail_dirty: bool,
    pub status_dirty: bool,
    /// The pane that has the focus.
    pub focus: PaneKind,
    pub store: StoreModel,
    pub selection: Selection,
    /// The identifier of the item that the detail pane shows.
    pub detail_id: Option<Seq<char>>,
}

impl UiModel {
    /// The state at start: plain output, every pane stale, the list pane in
    /// focus, nothing fetched, nothing selected.
    pub open spec fn start(cols: u16, rows: u16) -> UiModel {
        UiModel {
            mode: Mode::Log,
            layout: Layout::of(cols, rows),
            list_dirty: true,
            detail_dirty: true,
            status_dirty: true,
            focus: PaneKind::List,
            store: StoreModel::empty(),
            selection: Selection::start(),
            detail_id: None,
        }
    }

    /// The store is well-formed, the selected position exists, and the item
    /// that the detail pane shows is in the store.
    pub open spec fn wf(self) -> bool {
        &&& self.store.wf()
        &&& self.store.order.len() <= usize::MAX
        &&& self.selection.wf(self.store.order.len())
        &&& match self.detail_id {
            Some(id) => self.store.items.contains_key(id),
            None => true,
        }
    }

    /// The identifier at the selected position, if the feed has any item.
    pub open spec fn selected_id(self) -> Option<Seq<char>> {
        if self.selection.selected_index < self.store.order.len() {
            Some(self.store.order[self.selection.selected_index as int])
        } else {
            None
        }
    }

    /// The state in another mode.
    pub open spec fn in_mode(self, mode: Mode) -> UiModel {
        UiModel { mode, ..self }
    }

    /// The state with every pane stale.
    pub open spec fn all_dirty(self) -> UiModel {
        UiModel { list_dirty: true, detail_dirty: true, status_dirty: true, ..self }
    }

    /// The state with another pane in focus.
    pub open spec fn focused(self, pane: PaneKind) -> UiModel {
        UiModel { focus: pane, ..self }
    }

    /// The state after the screen changed its size: the layout is computed
    /// anew and every pane is stale.
    pub open spec fn resized(self, cols: u16, rows: u16) -> UiModel {
        UiModel { layout: Layout::of(cols, rows), ..self.all_dirty() }
    }

    /// Where the cursor belongs: where the pane in focus says.
    pub open spec fn cursor(self) -> (u16, u16) {
        match self.focus {
            PaneKind::List => list_cursor(self.selection, self.layout.list_region()),
            PaneKind::Detail => (
                self.layout.detail_region().left,
                self.layout.detail_region().top,
            ),
            PaneKind::Status => (
                self.layout.status_region().left,
                self.layout.status_region().top,
            ),
        }
    }

    /// What the stale panes draw, in the order list pane, detail pane,
    /// status line. A pane that is not stale draws nothing, and neither
    /// does a detail pane whose item is not in the store, which no
    /// well-formed state has.
    pub open spec fn pane_commands(self) -> Seq<Command> {
        (if self.list_dirty {
            list_content(self.store, self.selection, self.layout.list_region())
        } else {
            Seq::empty()
        }) + (if self.detail_dirty {
            match detail_content(self.detail_id, self.store, self.layout.detail_region()) {
                Ok(content) => content,
                Err(_) => Seq::empty(),
            }
        } else {
            Seq::empty()
        }) + (if self.status_dirty {
            status_content(
                self.selection.selected_index as nat,
                self.store.order.len(),
                self.layout.status_region(),
            )
        } else {
            Seq::empty()
        })
    }

    /// The commands of one render pass: enter the interactive mode if need
    /// be, draw the stale panes, put the cursor where the pane in focus
    /// wants it, and flush once at the end.
    pub open spec fn render_commands(self) -> Seq<Command> {
        mode_commands(self.mode, Mode::Interactive) + self.pane_commands() + seq![
            Command::MoveTo(self.cursor().0, self.cursor().1),
            Command::Flush,
        ]
    }

    /// The state after a render pass: interactive, no pane stale.
    pub open spec fn rendered(self) -> UiModel {
        UiModel {
            mode: Mode::Interactive,
            list_dirty: false,
            detail_dirty: false,
            status_dirty: false,
            ..self
        }
    }

    /// The commands that log one line: leave the interactive mode if need
    /// be, then print the line.
    pub open spec fn log_commands(self, message: Seq<char>) -> Seq<Command> {
        mode_commands(self.mode, Mode::Log).push(Command::PrintLine(message))
    }

    /// The state after the selection moved by `delta`. An empty feed has
    /// nothing to select. Otherwise the selection moves within the list
    /// pane's rows, the detail pane shows the newly selected item, and each
    /// pane whose content depends on what changed becomes stale.
    pub open spec fn moved(self, delta: int) -> UiModel {
        if self.store.order.len() == 0 {
            self
        } else {
            let next = self.selection.moved(
                delta,
                self.store.order.len(),
                self.layout.list_region().height as nat,
            );
            let id = Some(self.store.order[next.selected_index as int]);
            UiModel {
                selection: next,
                detail_id: id,
                list_dirty: self.list_dirty || next != self.selection,
                detail_dirty: self.detail_dirty || id != self.detail_id,
                status_dirty: self.status_dirty || next.selected_index
                    != self.selection.selected_index,
                ..self
            }
        }
    }

    /// The state after the feed store grew: the list pane and the status
    /// line are stale, and a detail pane that showed nothing shows the
    /// selected item.
    pub open spec fn feed_updated(self) -> UiModel {
        if self.detail_id is None && self.selected_id() is Some {
            UiModel {
                list_dirty: true,
                status_dirty: true,
                detail_dirty: true,
                detail_id: self.selected_id(),
                ..self
            }
        } else {
            UiModel { list_dirty: true, status_dirty: true, ..self }
        }
    }

    /// The state after an internal event was handled.
    pub open spec fn after_internal_event(self, event: InternalEvent) -> UiModel {
        match event {
            InternalEvent::FeedUpdated => self.feed_updated().rendered(),
            InternalEvent::LogError(_) => self.in_mode(Mode::Log),
        }
    }

    /// What the shell is asked to do after an internal event was handled.
    pub open spec fn internal_action(self, event: InternalEvent) -> ActionModel {
        match event {
            InternalEvent::FeedUpdated => ActionModel::Terminal(
                self.feed_updated().render_commands(),
            ),
            InternalEvent::LogError(e) => ActionModel::Terminal(self.log_commands(e.text())),
        }
    }

    /// The state after a request for the selected item's details.
    pub open spec fn after_inspect(self) -> UiModel {
        if self.selected_id() is Some {
            self.in_mode(Mode::Log)
        } else {
            self
        }
    }

    /// What a request for the selected item's details gives: the item to
    /// show in the pager, after the interactive mode was left; `NotFound`
    /// where the feed is empty.
    pub open spec fn inspect_action(self) -> Result<ActionModel, Error> {
        match self.selected_id() {
            Some(id) => Ok(ActionModel::Inspect(mode_commands(self.mode, Mode::Log), id)),
            None => Err(Error::NotFound),
        }
    }

    /// The state after a terminal event was handled.
    pub open spec fn after_terminal_event(self, event: Event) -> UiModel {
        match event {
            Event::Key(key) => match key.code {
                KeyCode::Esc => self.all_dirty().rendered(),
                KeyCode::Up => if self.store.order.len() == 0 {
                    self
                } else {
                    self.moved(-1).rendered()
                },
                KeyCode::Down => if self.store.order.len() == 0 {
                    self
                } else {
                    self.moved(1).rendered()
                },
                KeyCode::Char(c) => if c == 'h' {
                    self.in_mode(Mode::Log)
                } else if c == 'i' {
                    self.after_inspect()
                } else if c == 'n' {
                    UiModel { store: self.store.begin_load(false), ..self }
                } else {
                    self
                },
                KeyCode::Other => self,
            },
            Event::Resize(cols, rows) => self.resized(cols, rows),
            Event::Other => self,
        }
    }

    /// What the shell is asked to do after a terminal event was handled.
    pub open spec fn terminal_action(self, event: Event) -> Result<ActionModel, Error> {
        match event {
            Event::Key(key) => match key.code {
                KeyCode::Esc => Ok(ActionModel::Terminal(self.all_dirty().render_commands())),
                KeyCode::Up => if self.store.order.len() == 0 {
                    Ok(ActionModel::Nothing)
                } else {
                    Ok(ActionModel::Terminal(self.moved(-1).render_commands()))
                },
                KeyCode::Down => if self.store.order.len() == 0 {
                    Ok(ActionModel::Nothing)
                } else {
                    Ok(ActionModel::Terminal(self.moved(1).render_commands()))
                },
                KeyCode::Char(c) => if c == 'h' {
                    Ok(ActionModel::Terminal(self.log_commands(greeting())))
                } else if c == 'i' {
                    self.inspect_action()
                } else if c == 'n' {
                    Ok(load_action(self.store, false))
                } else if c == 'q' {
                    Ok(ActionModel::Quit(reset_commands()))
                } else {
                    Ok(ActionModel::Nothing)
                },
                KeyCode::Other => Ok(ActionModel::Nothing),
            },
            Event::Resize(_, _) => Ok(ActionModel::Nothing),
            Event::Other => Ok(ActionModel::Nothing),
        }
    }
}

/// The dispatcher's state: display mode, layout, the three panes with their
/// dirty flags, the focus, the feed store and the selection.
pub struct UI {
    mode: Mode,
    layout: Layout,
    feed_pane: ShouldRender<FeedPane>,
    tweet_pane: ShouldRender<TweetPane>,
    bottom_bar: ShouldRender<BottomBar>,
    focus: PaneKind,
    store: FeedStore,
    selection: Selection,
}

impl View for UI {
    type V = UiModel;

    closed spec fn view(&self) -> UiModel {
        UiModel {
            mode: self.mode,
            layout: self.layout,
            list_dirty: self.feed_pane.should_render,
            detail_dirty: self.tweet_pane.should_render,
            status_dirty: self.bottom_bar.should_render,
            focus: self.focus,
            store: self.store@,
            selection: self.selection,
            detail_id: self.tweet_pane.component.selected(),
        }
    }
}

impl UI {
    /// The dispatcher for a screen of `cols` columns and `rows` rows.
    pub fn new(cols: u16, rows: u16) -> (ui: Self)
        ensures
            ui@ == UiModel::start(cols, rows),
            ui@.wf(),
    {
        UI {
            mode: Mode::Log,
            layout: Layout::new(cols, rows),
            feed_pane: ShouldRender::new(FeedPane::new()),
            tweet_pane: ShouldRender::new(TweetPane::new()),
            bottom_bar: ShouldRender::new(BottomBar::new()),
            focus: PaneKind::List,
            store: FeedStore::new(),
            selection: Selection::new(),
        }
    }

    /// The display mode.
    pub fn mode(&self) -> (mode: Mode)
        ensures
            mode == self@.mode,
    {
        self.mode
    }

    /// The layout.
    pub fn layout(&self) -> (layout: Layout)
        ensures
            layout == self@.layout,
    {
        self.layout
    }

    /// The selection.
    pub fn selection(&self) -> (selection: Selection)
        ensures
            selection == self@.selection,
    {
        self.selection
    }

    /// The feed store.
    pub fn store(&self) -> (store: &FeedStore)
        ensures
            store@ == self@.store,
    {
        &self.store
    }

    /// The pane that has the focus.
    pub fn focus(&self) -> (pane: PaneKind)
        ensures
            pane == self@.focus,
    {
        self.focus
    }

    /// Whether a pane is stale.
    pub fn should_render(&self, pane: PaneKind) -> (stale: bool)
        ensures
            stale == match pane {
                PaneKind::List => self@.list_dirty,
                PaneKind::Detail => self@.detail_dirty,
                PaneKind::Status => self@.status_dirty,
            },
    {
        match pane {
            PaneKind::List => self.feed_pane.should_render,
            PaneKind::Detail => self.tweet_pane.should_render,
            PaneKind::Status => self.bottom_bar.should_render,
        }
    }

    /// The identifier of the item that the detail pane shows, if any.
    pub fn detail_id(&self) -> (id: Option<&String>)
        ensures
            match id {
                Some(id) => self@.detail_id == Some(id@),
                None => self@.detail_id is None,
            },
    {
        self.tweet_pane.component.selected_tweet_id()
    }

    /// Gives the focus to a pane.
    pub fn set_focus(&mut self, pane: PaneKind)
        ensures
            final(self)@ == old(self)@.focused(pane),
    {
        self.focus = pane;
    }

    /// Switches the display mode and hands back the commands that take the
    /// terminal there.
    pub fn set_mode(&mut self, mode: Mode) -> (ops: Vec<TerminalOp>)
        ensures
            commands(ops@) == mode_commands(old(self)@.mode, mode),
            final(self)@ == old(self)@.in_mode(mode),
    {
        let prev_mode = self.mode;
        self.mode = mode;
        let mut ops: Vec<TerminalOp> = Vec::new();
        match (prev_mode, mode) {
            (Mode::Log, Mode::Interactive) => {
                ops.push(TerminalOp::EnterAlternateScreen);
                ops.push(TerminalOp::EnableRawMode);
            },
            (Mode::Interactive, Mode::Log) => {
                ops.push(TerminalOp::LeaveAlternateScreen);
                ops.push(TerminalOp::EnableRawMode);
            },
            _ => {},
        }
        assert(commands(ops@) =~= mode_commands(prev_mode, mode));
        ops
    }

    /// Takes in a new screen size: the pane widths are computed anew and
    /// every pane becomes stale. Nothing is drawn.
    pub fn resize(&mut self, cols: u16, rows: u16)
        ensures
            final(self)@ == old(self)@.resized(cols, rows),
            old(self)@.wf() ==> final(self)@.wf(),
    {
        self.layout = Layout::new(cols, rows);
        self.mark_all();
    }

    fn mark_all(&mut self)
        ensures
            final(self)@ == old(self)@.all_dirty(),
    {
        self.feed_pane.should_render = true;
        self.tweet_pane.should_render = true;
        self.bottom_bar.should_render = true;
    }

    /// One render pass: enters the interactive mode, draws the stale panes
    /// and clears their flags, puts the cursor where the pane in focus
    /// wants it, and flushes once.
    pub fn render(&mut self) -> (ops: Vec<TerminalOp>)
        requires
            old(self)@.wf(),
        ensures
            commands(ops@) == old(self)@.render_commands(),
            final(self)@ == old(self)@.rendered(),
            final(self)@.wf(),
    {
        let ghost before = self@;
        let mut ops = self.set_mode(Mode::Interactive);
        if self.feed_pane.should_render {
            match self.feed_pane.component.render(
                &self.store,
                self.selection,
                self.layout.list_box(),
            ) {
                Ok(more) => {
                    append_ops(&mut ops, more);
                },
                Err(_) => {},
            }
            self.feed_pane.should_render = false;
        }
        if self.tweet_pane.should_render {
            match self.tweet_pane.component.render(
                &self.store,
                self.selection,
                self.layout.detail_box(),
            ) {
                Ok(more) => {
                    append_ops(&mut ops, more);
                },
                Err(_) => {},
            }
            self.tweet_pane.should_render = false;
        }
        if self.bottom_bar.should_render {
            match Render::render(
                &mut self.bottom_bar.component,
                &self.store,
                self.selection,
                self.layout.status_box(),
            ) {
                Ok(more) => {
                    append_ops(&mut ops, more);
                },
                Err(_) => {},
            }
            self.bottom_bar.should_render = false;
        }
        assert(commands(ops@) =~= mode_commands(before.mode, Mode::Interactive)
            + before.pane_commands());
        let cursor = match self.focus {
            PaneKind::List => self.feed_pane.component.get_cursor(
                self.selection,
                self.layout.list_box(),
            ),
            PaneKind::Detail => self.tweet_pane.component.get_cursor(
                self.selection,
                self.layout.detail_box(),
            ),
            PaneKind::Status => self.bottom_bar.component.get_cursor(
                self.selection,
                self.layout.status_box(),
            ),
        };
        push_op(&mut ops, TerminalOp::MoveTo(cursor.0, cursor.1));
        push_op(&mut ops, TerminalOp::Flush);
        assert(commands(ops@) =~= before.render_commands());
        ops
    }

    /// Logs one line: leaves the interactive mode if need be, then prints.
    pub fn log_message(&mut self, message: &str) -> (ops: Vec<TerminalOp>)
        ensures
            commands(ops@) == old(self)@.log_commands(message@),
            final(self)@ == old(self)@.in_mode(Mode::Log),
    {
        let mut ops = self.set_mode(Mode::Log);
        push_op(&mut ops, TerminalOp::PrintLine(String::from_str(message)));
        ops
    }

    /// Asks for the selected item to be shown in the pager: leaves the
    /// interactive mode and names the item. Fails with `NotFound` where the
    /// feed is empty, and then changes nothing.
    pub fn log_selected_tweet(&mut self) -> (result: Result<Action, Error>)
        requires
            old(self)@.wf(),
        ensures
            action_result(result) == old(self)@.inspect_action(),
            final(self)@ == old(self)@.after_inspect(),
            final(self)@.wf(),
    {
        match self.store.id_at(self.selection.selected_index) {
            None => Err(Error::NotFound),
            Some(id) => {
                let id = id.clone();
                let ops = self.set_mode(Mode::Log);
                Ok(Action::Inspect(ops, id))
            },
        }
    }

    /// Asks for a page to be loaded: takes the pagination lock if it is
    /// free and a page can be asked for, and says what to fetch; else says
    /// which error event to queue. Only the lock changes.
    pub fn do_load_page_of_tweets(&mut self, restart: bool) -> (action: Action)
        ensures
            action@ == load_action(old(self)@.store, restart),
            final(self)@ == (UiModel {
                store: old(self)@.store.begin_load(restart),
                ..old(self)@
            }),
            old(self)@.wf() ==> final(self)@.wf(),
    {
        match self.store.begin_load(restart) {
            Ok(request) => Action::Fetch(request),
            Err(e) => Action::Emit(InternalEvent::LogError(e)),
        }
    }

    /// Takes in what a fetch came back with: merges the page or keeps the
    /// failure's message, releases the pagination lock, and hands back the
    /// event to queue. Only the feed store changes.
    pub fn finish_load(&mut self, outcome: Result<Page, String>) -> (event: InternalEvent)
        ensures
            event == load_event(outcome),
            final(self)@ == (UiModel {
                store: old(self)@.store.complete_load(outcome_model(outcome)),
                ..old(self)@
            }),
            old(self)@.wf() ==> final(self)@.wf(),
    {
        proof {
            let merged = outcome_model(outcome);
            if merged is Ok && self@.detail_id is Some {
                lemma_merged_contains(
                    self@.store.items,
                    merged->Ok_0.0,
                    self@.detail_id->Some_0,
                );
            }
        }
        let done = self.store.complete_load(outcome);
        proof {
            self.store.lemma_order_fits();
        }
        match done {
            Ok(()) => InternalEvent::FeedUpdated,
            Err(e) => InternalEvent::LogError(e),
        }
    }

    fn select(&mut self, next: Selection)
        requires
            old(self)@.wf(),
            next.selected_index < old(self)@.store.order.len(),
            next.view_offset <= next.selected_index,
        ensures
            final(self)@ == (UiModel {
                selection: next,
                detail_id: Some(old(self)@.store.order[next.selected_index as int]),
                list_dirty: old(self)@.list_dirty || next != old(self)@.selection,
                detail_dirty: old(self)@.detail_dirty || Some(
                    old(self)@.store.order[next.selected_index as int],
                ) != old(self)@.detail_id,
                status_dirty: old(self)@.status_dirty || next.selected_index
                    != old(self)@.selection.selected_index,
                ..old(self)@
            }),
            final(self)@.wf(),
    {
        if next.selected_index != self.selection.selected_index || next.view_offset
            != self.selection.view_offset {
            self.feed_pane.should_render = true;
        }
        if next.selected_index != self.selection.selected_index {
            self.bottom_bar.should_render = true;
        }
        self.selection = next;
        match self.store.id_at(next.selected_index) {
            None => {},
            Some(id) => {
                let same = match self.tweet_pane.component.selected_tweet_id() {
                    Some(shown) => *shown == *id,
                    None => false,
                };
                if !same {
                    let id = id.clone();
                    self.tweet_pane.component.set_selected_tweet_id(Some(id));
                    self.tweet_pane.should_render = true;
                }
            },
        }
    }

    /// Moves the selection by `delta` items, lets the window and the detail
    /// pane follow, and renders. In an empty feed nothing happens.
    pub fn move_selected_index(&mut self, delta: isize) -> (action: Action)
        requires
            old(self)@.wf(),
        ensures
            old(self)@.store.order.len() == 0 ==> action@ == ActionModel::Nothing && final(self)@
                == old(self)@,
            old(self)@.store.order.len() > 0 ==> action@ == ActionModel::Terminal(
                old(self)@.moved(delta as int).render_commands(),
            ) && final(self)@ == old(self)@.moved(delta as int).rendered(),
            final(self)@.wf(),
    {
        let len: usize = self.store.len();
        if len == 0 {
            return Action::Nothing;
        }
        let next = self.selection.move_by(
            delta,
            len,
            self.layout.list_box().height as usize,
        );
        self.select(next);
        Action::Terminal(self.render())
    }

    /// Handles what background work reported: after `FeedUpdated` the panes
    /// that show the feed are stale and a render pass follows; after
    /// `LogError` the message is logged in plain mode.
    pub fn handle_internal_event(&mut self, event: InternalEvent) -> (action: Action)
        requires
            old(self)@.wf(),
        ensures
            action@ == old(self)@.internal_action(event),
            final(self)@ == old(self)@.after_internal_event(event),
            final(self)@.wf(),
    {
        match event {
            InternalEvent::FeedUpdated => {
                self.feed_pane.should_render = true;
                self.bottom_bar.should_render = true;
                if self.tweet_pane.component.selected_tweet_id().is_none() {
                    match self.store.id_at(self.selection.selected_index) {
                        None => {},
                        Some(id) => {
                            let id = id.clone();
                            self.tweet_pane.component.set_selected_tweet_id(Some(id));
                            self.tweet_pane.should_render = true;
                        },
                    }
                }
                Action::Terminal(self.render())
            },
            InternalEvent::LogError(err) => {
                let line = err.message();
                Action::Terminal(self.log_message(line.as_str()))
            },
        }
    }

    /// Handles one event from the terminal. Escape redraws everything; the
    /// arrow keys move the selection; `h` logs a greeting; `i` asks for the
    /// selected item's details; `n` asks for the next page; `q` quits; any
    /// other key goes to the pane in focus; a resize is taken in without
    /// drawing.
    pub fn handle_terminal_event(&mut self, event: Event) -> (result: Result<Action, Error>)
        requires
            old(self)@.wf(),
        ensures
            action_result(result) == old(self)@.terminal_action(event),
            final(self)@ == old(self)@.after_terminal_event(event),
            final(self)@.wf(),
    {
        match event {
            Event::Key(key_event) => match key_event.code {
                KeyCode::Esc => {
                    self.mark_all();
                    Ok(Action::Terminal(self.render()))
                },
                KeyCode::Up => Ok(self.move_selected_index(-1)),
                KeyCode::Down => Ok(self.move_selected_index(1)),
                KeyCode::Char(c) => {
                    if c == 'h' {
                        proof {
                            reveal_strlit("hello");
                        }
                        Ok(Action::Terminal(self.log_message("hello")))
                    } else if c == 'i' {
                        self.log_selected_tweet()
                    } else if c == 'n' {
                        Ok(self.do_load_page_of_tweets(false))
                    } else if c == 'q' {
                        Ok(Action::Quit(reset()))
                    } else {
                        self.pass_key(key_event);
                        Ok(Action::Nothing)
                    }
                },
                KeyCode::Other => {
                    self.pass_key(key_event);
                    Ok(Action::Nothing)
                },
            },
            Event::Resize(cols, rows) => {
                self.resize(cols, rows);
                Ok(Action::Nothing)
            },
            Event::Other => Ok(Action::Nothing),
        }
    }

    fn pass_key(&mut self, key_event: KeyEvent)
        ensures
            final(self)@ == old(self)@,
    {
        match self.focus {
            PaneKind::List => self.feed_pane.component.handle_key_event(key_event),
            PaneKind::Detail => self.tweet_pane.component.handle_key_event(key_event),
            PaneKind::Status => self.bottom_bar.component.handle_key_event(key_event),
        }
    }
}

/// In a well-formed state the detail pane can always draw: the item it
/// shows is in the store, so no render pass leaves it out.
pub proof fn lemma_detail_resolves(ui: UiModel)
    requires
        ui.wf(),
    ensures
        detail_content(ui.detail_id, ui.store, ui.layout.detail_region()) is Ok,
{
}

/// The stale panes only draw.
pub proof fn lemma_panes_draw(ui: UiModel)
    ensures
        drawing_only(ui.pane_commands()),
{
    lemma_list_draws(
        ui.store,
        ui.selection,
        ui.layout.list_region(),
        ui.layout.list_region().height as nat,
    );
    lemma_detail_draws(ui.detail_id, ui.store, ui.layout.detail_region());
}

/// A render pass flushes exactly once, with its last command, and never
/// turns raw input off or leaves the alternate screen.
pub proof fn lemma_render_flushes_once(ui: UiModel)
    ensures
        ui.render_commands().len() >= 2,
        ui.render_commands().last() == Command::Flush,
        forall|i: int|
            0 <= i < ui.render_commands().len() - 1 ==> ui.render_commands()[i] != Command::Flush,
        forall|i: int|
            0 <= i < ui.render_commands().len() ==> ui.render_commands()[i]
                != Command::DisableRawMode && ui.render_commands()[i]
                != Command::LeaveAlternateScreen,
{
    lemma_panes_draw(ui);
    let mode = mode_commands(ui.mode, Mode::Interactive);
    let panes = ui.pane_commands();
    let all = ui.render_commands();
    assert forall|i: int| 0 <= i < all.len() - 2 implies all[i] != Command::Flush && all[i]
        != Command::DisableRawMode && all[i] != Command::LeaveAlternateScreen by {
        if i >= mode.len() {
            assert(all[i] == panes[i - mode.len()]);
            assert(panes[i - mode.len()].draws());
        } else {
            assert(all[i] == mode[i]);
        }
    }
}

/// No change of mode ever turns raw input off: the dispatcher keeps
/// getting single keystrokes in both modes.
pub proof fn lemma_mode_keeps_raw_input(from: Mode, to: Mode)
    ensures
        forall|i: int|
            0 <= i < mode_commands(from, to).len() ==> mode_commands(from, to)[i]
                != Command::DisableRawMode,
        from == to ==> mode_commands(from, to).len() == 0,
{
}

/// A resize leaves every pane stale and the pane widths computed anew from
/// the new size, together as wide as the screen; the render pass that
/// follows draws all three panes.
pub proof fn lemma_resize_marks_all(ui: UiModel, cols: u16, rows: u16)
    ensures
        ui.resized(cols, rows).list_dirty,
        ui.resized(cols, rows).detail_dirty,
        ui.resized(cols, rows).status_dirty,
        ui.resized(cols, rows).layout == Layout::of(cols, rows),
        ui.resized(cols, rows).layout.feed_pane_width + ui.resized(
            cols,
            rows,
        ).layout.tweet_pane_width == cols,
        ui.resized(cols, rows).store == ui.store,
        ui.resized(cols, rows).selection == ui.selection,
{
}

} // verus!
