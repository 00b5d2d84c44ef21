use feed_ui::bottom_bar::BottomBar;
use feed_ui::component::{Event, KeyCode, KeyEvent};
use feed_ui::layout::Layout;
use feed_ui::selection::Selection;
use feed_ui::store::{Error, Page, PageRequest, Timestamp, Tweet};
use feed_ui::terminal::TerminalOp;
use feed_ui::ui::{reset, Action, InternalEvent, Mode, PaneKind, UI};

fn post(n: usize) -> Tweet {
    Tweet {
        id: format!("t{}", n),
        author_username: format!("user{}", n),
        author_name: None,
        created_at: Timestamp { year: 2020, month: 1, day: 1, hour: 0, minute: 0, second: 0 },
        text: format!("post {}", n),
    }
}

fn posts(from: usize, count: usize) -> Vec<Tweet> {
    (from..from + count).map(post).collect()
}

fn key(code: KeyCode) -> Event {
    Event::Key(KeyEvent { code })
}

fn loaded(cols: u16, rows: u16, count: usize) -> UI {
    let mut ui = UI::new(cols, rows);
    assert_eq!(
        ui.do_load_page_of_tweets(true),
        Action::Fetch(PageRequest { page_token: None })
    );
    let event = ui.finish_load(Ok(Page {
        tweets: posts(0, count),
        next_token: Some(String::from("cursor-1")),
    }));
    assert_eq!(event, InternalEvent::FeedUpdated);
    ui
}

fn order(ui: &UI) -> Vec<String> {
    (0..ui.store().len()).map(|i| ui.store().id_at(i).unwrap().clone()).collect()
}

fn count(ops: &[TerminalOp], op: &TerminalOp) -> usize {
    ops.iter().filter(|o| *o == op).count()
}

fn terminal(action: Action) -> Vec<TerminalOp> {
    match action {
        Action::Terminal(ops) => ops,
        other => panic!("expected terminal commands, got {:?}", other),
    }
}

#[test]
fn a_new_dispatcher_logs_and_has_everything_stale() {
    let ui = UI::new(80, 24);
    assert_eq!(ui.mode(), Mode::Log);
    assert_eq!(ui.layout(), Layout::new(80, 24));
    assert_eq!(ui.selection(), Selection { selected_index: 0, view_offset: 0 });
    assert_eq!(ui.focus(), PaneKind::List);
    assert!(ui.should_render(PaneKind::List));
    assert!(ui.should_render(PaneKind::Detail));
    assert!(ui.should_render(PaneKind::Status));
    assert_eq!(ui.store().len(), 0);
    assert_eq!(ui.store().page_cursor(), None);
    assert!(!ui.store().is_loading());
    assert_eq!(ui.detail_id(), None);
}

#[test]
fn first_load_fills_the_store() {
    let ui = loaded(80, 24, 20);
    assert_eq!(ui.store().len(), 20);
    assert_eq!(ui.store().item_count(), 20);
    assert_eq!(ui.store().page_cursor(), Some(&String::from("cursor-1")));
    assert!(!ui.store().is_loading());
}

#[test]
fn next_page_is_appended_after_the_first() {
    let mut ui = loaded(80, 24, 20);
    assert_eq!(
        ui.do_load_page_of_tweets(false),
        Action::Fetch(PageRequest { page_token: Some(String::from("cursor-1")) })
    );
    let event = ui.finish_load(Ok(Page {
        tweets: posts(20, 20),
        next_token: Some(String::from("cursor-2")),
    }));
    assert_eq!(event, InternalEvent::FeedUpdated);
    assert_eq!(ui.store().len(), 40);
    let ids = order(&ui);
    for n in 0..40 {
        assert_eq!(ids[n], format!("t{}", n));
    }
    assert_eq!(ui.store().page_cursor(), Some(&String::from("cursor-2")));
}

#[test]
fn continuation_before_any_fetch_fails() {
    let mut ui = UI::new(80, 24);
    assert_eq!(
        ui.do_load_page_of_tweets(false),
        Action::Emit(InternalEvent::LogError(Error::NoMorePages))
    );
    assert_eq!(ui.store().len(), 0);
    assert_eq!(ui.store().item_count(), 0);
    assert_eq!(ui.store().page_cursor(), None);
    assert!(!ui.store().is_loading());
}

#[test]
fn a_second_load_while_one_is_in_flight_is_dropped() {
    let mut ui = loaded(80, 24, 20);
    assert!(matches!(ui.do_load_page_of_tweets(false), Action::Fetch(_)));
    assert_eq!(
        ui.do_load_page_of_tweets(false),
        Action::Emit(InternalEvent::LogError(Error::AlreadyLoading))
    );
    assert_eq!(
        ui.do_load_page_of_tweets(true),
        Action::Emit(InternalEvent::LogError(Error::AlreadyLoading))
    );
    assert_eq!(ui.store().page_cursor(), Some(&String::from("cursor-1")));
    assert_eq!(ui.store().len(), 20);
    assert_eq!(ui.store().item_count(), 20);
    assert!(ui.store().is_loading());
}

#[test]
fn a_failed_fetch_becomes_an_error_event() {
    let mut ui = loaded(80, 24, 3);
    assert!(matches!(ui.do_load_page_of_tweets(false), Action::Fetch(_)));
    let event = ui.finish_load(Err(String::from("503 from provider")));
    assert_eq!(
        event,
        InternalEvent::LogError(Error::ProviderError(String::from("503 from provider")))
    );
    assert!(!ui.store().is_loading());
    assert_eq!(ui.store().len(), 3);
    assert!(matches!(ui.do_load_page_of_tweets(false), Action::Fetch(_)));
}

#[test]
fn loading_touches_neither_selection_nor_flags_nor_mode() {
    let mut ui = loaded(80, 24, 5);
    terminal(ui.handle_internal_event(InternalEvent::FeedUpdated));
    terminal(ui.move_selected_index(2));
    let selection = ui.selection();
    assert!(matches!(ui.do_load_page_of_tweets(false), Action::Fetch(_)));
    ui.finish_load(Ok(Page { tweets: posts(5, 5), next_token: None }));
    assert_eq!(ui.selection(), selection);
    assert_eq!(ui.mode(), Mode::Interactive);
    assert!(!ui.should_render(PaneKind::List));
    assert!(!ui.should_render(PaneKind::Detail));
    assert!(!ui.should_render(PaneKind::Status));
    assert_eq!(ui.detail_id(), Some(&String::from("t2")));
}

#[test]
fn entering_interactive_mode() {
    let mut ui = UI::new(80, 24);
    assert_eq!(
        ui.set_mode(Mode::Interactive),
        vec![TerminalOp::EnterAlternateScreen, TerminalOp::EnableRawMode]
    );
    assert_eq!(ui.mode(), Mode::Interactive);
    assert_eq!(ui.set_mode(Mode::Interactive), vec![]);
    assert_eq!(ui.mode(), Mode::Interactive);
}

#[test]
fn leaving_interactive_mode_keeps_raw_input() {
    let mut ui = UI::new(80, 24);
    ui.set_mode(Mode::Interactive);
    assert_eq!(
        ui.set_mode(Mode::Log),
        vec![TerminalOp::LeaveAlternateScreen, TerminalOp::EnableRawMode]
    );
    assert_eq!(ui.mode(), Mode::Log);
    assert_eq!(ui.set_mode(Mode::Log), vec![]);
}

#[test]
fn reset_gives_the_terminal_back() {
    assert_eq!(reset(), vec![TerminalOp::LeaveAlternateScreen, TerminalOp::DisableRawMode]);
}

#[test]
fn log_message_leaves_interactive_mode_and_prints() {
    let mut ui = UI::new(80, 24);
    assert_eq!(ui.log_message("one"), vec![TerminalOp::PrintLine(String::from("one"))]);
    ui.set_mode(Mode::Interactive);
    assert_eq!(
        ui.log_message("two"),
        vec![
            TerminalOp::LeaveAlternateScreen,
            TerminalOp::EnableRawMode,
            TerminalOp::PrintLine(String::from("two")),
        ]
    );
    assert_eq!(ui.mode(), Mode::Log);
}

#[test]
fn resize_marks_every_pane_and_computes_the_widths() {
    let mut ui = loaded(80, 24, 3);
    terminal(ui.handle_internal_event(InternalEvent::FeedUpdated));
    assert!(!ui.should_render(PaneKind::List));
    ui.resize(101, 30);
    assert!(ui.should_render(PaneKind::List));
    assert!(ui.should_render(PaneKind::Detail));
    assert!(ui.should_render(PaneKind::Status));
    assert_eq!(ui.layout().screen_cols, 101);
    assert_eq!(ui.layout().screen_rows, 30);
    assert_eq!(ui.layout().feed_pane_width, 50);
    assert_eq!(ui.layout().tweet_pane_width, 51);
    assert_eq!(ui.mode(), Mode::Interactive);
}

#[test]
fn a_resize_event_draws_nothing_until_the_next_render() {
    let mut ui = loaded(80, 24, 3);
    terminal(ui.handle_internal_event(InternalEvent::FeedUpdated));
    assert_eq!(ui.handle_terminal_event(Event::Resize(60, 10)), Ok(Action::Nothing));
    assert_eq!(ui.layout(), Layout::new(60, 10));
    assert!(ui.should_render(PaneKind::List));
    let ops = ui.render();
    assert_eq!(count(&ops, &TerminalOp::Flush), 1);
    assert!(ops.contains(&TerminalOp::MoveTo(30, 0)));
    assert!(ops.contains(&TerminalOp::MoveTo(0, 9)));
    assert!(!ui.should_render(PaneKind::List));
    assert!(!ui.should_render(PaneKind::Detail));
    assert!(!ui.should_render(PaneKind::Status));
}

#[test]
fn render_pass_of_an_empty_feed() {
    let mut ui = UI::new(8, 3);
    let ops = ui.render();
    assert_eq!(
        ops,
        vec![
            TerminalOp::EnterAlternateScreen,
            TerminalOp::EnableRawMode,
            TerminalOp::MoveTo(0, 0),
            TerminalOp::Print(String::from("    ")),
            TerminalOp::MoveTo(0, 1),
            TerminalOp::Print(String::from("    ")),
            TerminalOp::MoveTo(0, 2),
            TerminalOp::SetForegroundColor(feed_ui::terminal::Color::Black),
            TerminalOp::SetBackgroundColor(feed_ui::terminal::Color::White),
            TerminalOp::Print(String::from("1/0 items")),
            TerminalOp::ResetColor,
            TerminalOp::MoveTo(0, 0),
            TerminalOp::Flush,
        ]
    );
    assert_eq!(ui.mode(), Mode::Interactive);
}

#[test]
fn render_pass_draws_only_stale_panes() {
    let mut ui = loaded(40, 6, 3);
    terminal(ui.handle_internal_event(InternalEvent::FeedUpdated));
    assert_eq!(ui.render(), vec![TerminalOp::MoveTo(0, 0), TerminalOp::Flush]);
}

#[test]
fn render_pass_flushes_once_at_the_end() {
    let mut ui = loaded(40, 6, 9);
    let ops = terminal(ui.handle_internal_event(InternalEvent::FeedUpdated));
    assert_eq!(count(&ops, &TerminalOp::Flush), 1);
    assert_eq!(ops.last(), Some(&TerminalOp::Flush));
    assert_eq!(count(&ops, &TerminalOp::DisableRawMode), 0);
}

#[test]
fn render_pass_puts_the_cursor_where_the_focus_is() {
    let mut ui = loaded(40, 6, 9);
    terminal(ui.handle_internal_event(InternalEvent::FeedUpdated));
    terminal(ui.move_selected_index(2));
    assert_eq!(ui.render(), vec![TerminalOp::MoveTo(0, 2), TerminalOp::Flush]);
    ui.set_focus(PaneKind::Detail);
    assert_eq!(ui.focus(), PaneKind::Detail);
    assert_eq!(ui.render(), vec![TerminalOp::MoveTo(20, 0), TerminalOp::Flush]);
    ui.set_focus(PaneKind::Status);
    assert_eq!(ui.render(), vec![TerminalOp::MoveTo(0, 5), TerminalOp::Flush]);
}

#[test]
fn feed_updated_marks_list_and_status_and_renders() {
    let mut ui = loaded(20, 4, 2);
    ui.render();
    let ops = terminal(ui.handle_internal_event(InternalEvent::FeedUpdated));
    assert_eq!(ui.detail_id(), Some(&String::from("t0")));
    let mut expected = vec![
        TerminalOp::MoveTo(0, 0),
        TerminalOp::Print(String::from("> @user0 p")),
        TerminalOp::MoveTo(0, 1),
        TerminalOp::Print(String::from("  @user1 p")),
        TerminalOp::MoveTo(0, 2),
        TerminalOp::Print(String::from("          ")),
        TerminalOp::MoveTo(10, 0),
        TerminalOp::ClearUntilNewLine,
        TerminalOp::Print(String::from("2020-01-01 00:00:00")),
        TerminalOp::MoveTo(10, 1),
        TerminalOp::ClearUntilNewLine,
        TerminalOp::Print(String::from("@user0 [[unknown]]")),
        TerminalOp::MoveTo(10, 3),
        TerminalOp::ClearUntilNewLine,
        TerminalOp::Print(String::from("post 0")),
    ];
    expected.extend(BottomBar::draw(0, 2, ui.layout().status_box()));
    expected.push(TerminalOp::MoveTo(0, 0));
    expected.push(TerminalOp::Flush);
    assert_eq!(ops, expected);
    assert!(!ui.should_render(PaneKind::List));
    assert!(!ui.should_render(PaneKind::Detail));
    assert!(!ui.should_render(PaneKind::Status));
}

#[test]
fn feed_updated_leaves_a_shown_item_alone() {
    let mut ui = loaded(20, 10, 2);
    terminal(ui.handle_internal_event(InternalEvent::FeedUpdated));
    terminal(ui.move_selected_index(1));
    let ops = terminal(ui.handle_internal_event(InternalEvent::FeedUpdated));
    assert_eq!(ui.detail_id(), Some(&String::from("t1")));
    assert_eq!(count(&ops, &TerminalOp::ClearUntilNewLine), 0);
    assert!(ops.contains(&TerminalOp::Print(String::from("2/2 items"))));
}

#[test]
fn log_error_is_printed_in_plain_mode() {
    let mut ui = loaded(20, 10, 2);
    ui.render();
    let ops = terminal(ui.handle_internal_event(InternalEvent::LogError(Error::NoMorePages)));
    assert_eq!(
        ops,
        vec![
            TerminalOp::LeaveAlternateScreen,
            TerminalOp::EnableRawMode,
            TerminalOp::PrintLine(String::from("No more pages")),
        ]
    );
    assert_eq!(ui.mode(), Mode::Log);
    let ops = terminal(ui.handle_internal_event(InternalEvent::LogError(
        Error::ProviderError(String::from("boom")),
    )));
    assert_eq!(ops, vec![TerminalOp::PrintLine(String::from("boom"))]);
}

#[test]
fn the_display_resumes_after_an_error() {
    let mut ui = loaded(20, 10, 2);
    ui.render();
    terminal(ui.handle_internal_event(InternalEvent::LogError(Error::AlreadyLoading)));
    let ops = terminal(ui.handle_internal_event(InternalEvent::FeedUpdated));
    assert_eq!(ops[0], TerminalOp::EnterAlternateScreen);
    assert_eq!(ops[1], TerminalOp::EnableRawMode);
    assert_eq!(ui.mode(), Mode::Interactive);
}

#[test]
fn moving_in_an_empty_feed_does_nothing() {
    let mut ui = UI::new(80, 24);
    assert_eq!(ui.move_selected_index(1), Action::Nothing);
    assert_eq!(ui.handle_terminal_event(key(KeyCode::Down)), Ok(Action::Nothing));
    assert_eq!(ui.handle_terminal_event(key(KeyCode::Up)), Ok(Action::Nothing));
    assert_eq!(ui.selection(), Selection { selected_index: 0, view_offset: 0 });
    assert_eq!(ui.mode(), Mode::Log);
    assert_eq!(ui.detail_id(), None);
}

#[test]
fn moving_selects_the_item_and_renders() {
    let mut ui = loaded(20, 10, 3);
    terminal(ui.handle_internal_event(InternalEvent::FeedUpdated));
    let ops = terminal(ui.handle_terminal_event(key(KeyCode::Down)).unwrap());
    assert_eq!(ui.selection(), Selection { selected_index: 1, view_offset: 0 });
    assert_eq!(ui.detail_id(), Some(&String::from("t1")));
    assert!(ops.contains(&TerminalOp::Print(String::from("> @user1 p"))));
    assert!(ops.contains(&TerminalOp::Print(String::from("@user1 [[unknown]]"))));
    assert!(ops.contains(&TerminalOp::Print(String::from("2/3 items"))));
    assert_eq!(ops[ops.len() - 2], TerminalOp::MoveTo(0, 1));
    assert_eq!(ops[ops.len() - 1], TerminalOp::Flush);
    terminal(ui.handle_terminal_event(key(KeyCode::Up)).unwrap());
    assert_eq!(ui.selection(), Selection { selected_index: 0, view_offset: 0 });
    assert_eq!(ui.detail_id(), Some(&String::from("t0")));
}

#[test]
fn moving_past_the_ends_changes_nothing_on_screen() {
    let mut ui = loaded(20, 10, 3);
    terminal(ui.handle_internal_event(InternalEvent::FeedUpdated));
    let ops = terminal(ui.handle_terminal_event(key(KeyCode::Up)).unwrap());
    assert_eq!(ops, vec![TerminalOp::MoveTo(0, 0), TerminalOp::Flush]);
    assert_eq!(ui.selection().selected_index, 0);
    terminal(ui.move_selected_index(50));
    assert_eq!(ui.selection().selected_index, 2);
    let ops = terminal(ui.handle_terminal_event(key(KeyCode::Down)).unwrap());
    assert_eq!(ops, vec![TerminalOp::MoveTo(0, 2), TerminalOp::Flush]);
    assert_eq!(ui.selection().selected_index, 2);
}

#[test]
fn the_window_follows_the_selection() {
    let mut ui = loaded(20, 5, 30);
    terminal(ui.handle_internal_event(InternalEvent::FeedUpdated));
    let height = ui.layout().list_box().height as usize;
    assert_eq!(height, 4);
    for delta in [3isize, 1, 1, 10, -2, -13, 29, -1] {
        let before = ui.selection();
        terminal(ui.move_selected_index(delta));
        let s = ui.selection();
        assert!(s.selected_index < 30);
        assert!(s.view_offset <= s.selected_index);
        assert!(s.selected_index <= s.view_offset + height);
        if s.selected_index < before.view_offset + height {
            assert!(s.selected_index < s.view_offset + height);
        }
    }
    assert_eq!(ui.selection(), Selection { selected_index: 28, view_offset: 25 });
}

#[test]
fn escape_redraws_everything() {
    let mut ui = loaded(20, 4, 2);
    terminal(ui.handle_internal_event(InternalEvent::FeedUpdated));
    let ops = terminal(ui.handle_terminal_event(key(KeyCode::Esc)).unwrap());
    assert!(ops.contains(&TerminalOp::Print(String::from("> @user0 p"))));
    assert!(ops.contains(&TerminalOp::Print(String::from("@user0 [[unknown]]"))));
    assert!(ops.contains(&TerminalOp::Print(String::from("1/2 items"))));
    assert_eq!(count(&ops, &TerminalOp::Flush), 1);
}

#[test]
fn h_logs_a_greeting() {
    let mut ui = UI::new(80, 24);
    ui.render();
    assert_eq!(
        ui.handle_terminal_event(key(KeyCode::Char('h'))),
        Ok(Action::Terminal(vec![
            TerminalOp::LeaveAlternateScreen,
            TerminalOp::EnableRawMode,
            TerminalOp::PrintLine(String::from("hello")),
        ]))
    );
    assert_eq!(ui.mode(), Mode::Log);
}

#[test]
fn i_asks_for_the_selected_item() {
    let mut ui = loaded(20, 10, 3);
    terminal(ui.handle_internal_event(InternalEvent::FeedUpdated));
    terminal(ui.move_selected_index(2));
    assert_eq!(
        ui.handle_terminal_event(key(KeyCode::Char('i'))),
        Ok(Action::Inspect(
            vec![TerminalOp::LeaveAlternateScreen, TerminalOp::EnableRawMode],
            String::from("t2")
        ))
    );
    assert_eq!(ui.mode(), Mode::Log);
    assert_eq!(ui.store().get("t2").unwrap().text, "post 2");
}

#[test]
fn i_fails_in_an_empty_feed() {
    let mut ui = UI::new(80, 24);
    ui.render();
    assert_eq!(ui.handle_terminal_event(key(KeyCode::Char('i'))), Err(Error::NotFound));
    assert_eq!(ui.log_selected_tweet(), Err(Error::NotFound));
    assert_eq!(ui.mode(), Mode::Interactive);
}

#[test]
fn n_asks_for_the_next_page() {
    let mut ui = loaded(20, 10, 3);
    assert_eq!(
        ui.handle_terminal_event(key(KeyCode::Char('n'))),
        Ok(Action::Fetch(PageRequest { page_token: Some(String::from("cursor-1")) }))
    );
    assert_eq!(
        ui.handle_terminal_event(key(KeyCode::Char('n'))),
        Ok(Action::Emit(InternalEvent::LogError(Error::AlreadyLoading)))
    );
    let mut fresh = UI::new(20, 10);
    assert_eq!(
        fresh.handle_terminal_event(key(KeyCode::Char('n'))),
        Ok(Action::Emit(InternalEvent::LogError(Error::NoMorePages)))
    );
}

#[test]
fn q_quits() {
    let mut ui = loaded(20, 10, 3);
    assert_eq!(
        ui.handle_terminal_event(key(KeyCode::Char('q'))),
        Ok(Action::Quit(vec![TerminalOp::LeaveAlternateScreen, TerminalOp::DisableRawMode]))
    );
}

#[test]
fn other_keys_and_events_change_nothing() {
    let mut ui = loaded(20, 10, 3);
    terminal(ui.handle_internal_event(InternalEvent::FeedUpdated));
    for event in [key(KeyCode::Char('x')), key(KeyCode::Other), Event::Other] {
        assert_eq!(ui.handle_terminal_event(event), Ok(Action::Nothing));
        assert_eq!(ui.mode(), Mode::Interactive);
        assert_eq!(ui.selection(), Selection { selected_index: 0, view_offset: 0 });
        assert!(!ui.should_render(PaneKind::List));
        assert!(!ui.should_render(PaneKind::Detail));
        assert!(!ui.should_render(PaneKind::Status));
    }
}
