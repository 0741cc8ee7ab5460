use crates_tui::action::{command_to_action, Action, Command, Effect};
use crates_tui::app::{App, Event};
use crates_tui::data::{CrateItem, SortBy, SummaryData};
use crates_tui::keybindings::{KeyBindings, KeyResolver};
use crates_tui::keys::{KeyCode, KeyEvent, CONTROL};
use crates_tui::mode::Mode;
use crates_tui::search_page::SearchPage;

fn key(c: char) -> KeyEvent {
    KeyEvent::new(KeyCode::Char(c), 0)
}

fn item(name: &str, description: Option<&str>) -> CrateItem {
    CrateItem {
        name: name.to_string(),
        description: description.map(|d| d.to_string()),
        downloads: 7,
    }
}

fn chord_bindings() -> KeyBindings {
    let mut b = KeyBindings::new();
    b.insert(Mode::Summary, &[key('g'), key('g')], Command::ScrollTop);
    b.insert(Mode::Common, &[key('q')], Command::Quit);
    b.insert(Mode::Summary, &[key('j')], Command::ScrollDown);
    b
}

/// Runs queued actions until the queue is empty, collecting the effects.
fn drain(app: &mut App) -> Vec<Effect> {
    let mut all = Vec::new();
    while let Some(a) = app.next_action() {
        all.extend(app.handle_action(a));
    }
    all
}

#[test]
fn chord_completes_after_second_key() {
    let b = chord_bindings();
    let mut r = KeyResolver::new();
    assert_eq!(r.feed(&b, Mode::Summary, key('g')), None);
    assert_eq!(r.pending_keys(), &vec![key('g')]);
    assert_eq!(r.feed(&b, Mode::Summary, key('g')), Some(Action::ScrollTop));
    assert!(r.pending_keys().is_empty());
}

#[test]
fn chord_with_unrelated_key_yields_nothing() {
    let b = chord_bindings();
    let mut r = KeyResolver::new();
    assert_eq!(r.feed(&b, Mode::Summary, key('g')), None);
    assert_eq!(r.feed(&b, Mode::Summary, key('x')), None);
    assert_eq!(r.pending_keys(), &vec![key('g'), key('x')]);
}

#[test]
fn suffix_of_buffer_resolves() {
    let b = chord_bindings();
    let mut r = KeyResolver::new();
    assert_eq!(r.feed(&b, Mode::Summary, key('x')), None);
    assert_eq!(r.feed(&b, Mode::Summary, key('j')), Some(Action::ScrollDown));
}

#[test]
fn common_table_is_the_fallback() {
    let b = chord_bindings();
    let mut r = KeyResolver::new();
    assert_eq!(r.feed(&b, Mode::Help, key('q')), Some(Action::Quit));
}

#[test]
fn key_refresh_clears_partial_chord() {
    let b = chord_bindings();
    let mut app = App::new(b);
    assert_eq!(app.handle_event(Event::Key(key('g'))), None);
    assert_eq!(app.handle_event(Event::KeyRefresh), Some(Action::KeyRefresh));
    app.handle_action(Action::KeyRefresh);
    assert!(app.keys.pending_keys().is_empty());
    assert_eq!(app.handle_event(Event::Key(key('g'))), None);
}

#[test]
fn empty_buffer_resolves_to_nothing() {
    let b = chord_bindings();
    assert_eq!(b.event_to_command(Mode::Summary, &[]), None);
}

#[test]
fn insert_replaces_a_binding() {
    let mut b = KeyBindings::new();
    let ctrl_c = KeyEvent::new(KeyCode::Char('c'), CONTROL);
    b.insert(Mode::Common, &[ctrl_c], Command::Ignore);
    b.insert(Mode::Common, &[ctrl_c], Command::Quit);
    assert_eq!(b.event_to_command(Mode::Common, &[ctrl_c]), Some(Command::Quit));
    assert_eq!(b.get_keybindings_for_command(Mode::Common, Command::Quit), vec![vec![ctrl_c]]);
    assert!(b.get_keybindings_for_command(Mode::Common, Command::Ignore).is_empty());
}

#[test]
fn command_maps_to_parameterised_action() {
    assert_eq!(
        command_to_action(Command::ToggleSortBy { reload: true, forward: false }),
        Action::ToggleSortBy { reload: true, forward: false }
    );
    assert_eq!(
        command_to_action(Command::SwitchMode(Mode::Filter)),
        Action::SwitchMode(Mode::Filter)
    );
}

#[test]
fn paging_with_unknown_or_zero_total_stays() {
    let mut p = SearchPage::new();
    let mut out = Vec::new();
    p.increment_page(&mut out);
    assert_eq!(p.page, 1);
    p.total_num_crates = Some(0);
    p.increment_page(&mut out);
    assert_eq!(p.page, 1);
    p.decrement_page(&mut out);
    assert_eq!(p.page, 1);
    assert!(out.is_empty());
}

#[test]
fn paging_stops_at_last_page() {
    let mut p = SearchPage::new();
    p.total_num_crates = Some(100);
    let mut out = Vec::new();
    for _ in 0..10 {
        p.increment_page(&mut out);
    }
    assert_eq!(p.page, 4);
    assert_eq!(p.max_page_number(), 4);
    assert_eq!(out.len(), 3);
    match &out[2] {
        Effect::FetchSearch { id, search, page, page_size, sort } => {
            assert_eq!(Some(*id), p.search_task);
            assert_eq!((search.as_str(), *page, *page_size, *sort), ("", 4, 25, SortBy::Relevance));
        }
        other => panic!("unexpected {other:?}"),
    }
    for _ in 0..10 {
        p.decrement_page(&mut out);
    }
    assert_eq!(p.page, 1);
}

#[test]
fn max_page_rounds_up() {
    let mut p = SearchPage::new();
    p.total_num_crates = Some(101);
    assert_eq!(p.max_page_number(), 5);
    p.total_num_crates = None;
    assert_eq!(p.max_page_number(), 1);
}

#[test]
fn selected_position_counts_across_pages() {
    let mut p = SearchPage::new();
    assert_eq!(p.selected_with_page_context(), 0);
    p.page = 3;
    p.results.select(Some(4));
    assert_eq!(p.selected_with_page_context(), 55);
}

#[test]
fn popup_round_trip_restores_mode() {
    let mut app = App::new(KeyBindings::new());
    app.handle_action(Action::SwitchMode(Mode::Filter));
    app.handle_action(Action::ShowErrorPopup("boom".to_string()));
    assert_eq!(app.mode, Mode::Popup);
    assert_eq!(app.popup.as_ref().unwrap().title, "Error");
    assert_eq!(app.popup.as_ref().unwrap().message, "boom");
    app.handle_action(Action::ClosePopup);
    assert_eq!(app.mode, Mode::Filter);
    assert!(app.popup.is_none());
}

#[test]
fn popup_over_popup_closes_to_search() {
    let mut app = App::new(KeyBindings::new());
    app.handle_action(Action::SwitchMode(Mode::Popup));
    app.handle_action(Action::ShowInfoPopup("hello".to_string()));
    assert_eq!(app.last_mode, Mode::Popup);
    app.handle_action(Action::ClosePopup);
    assert_eq!(app.mode, Mode::Search);
}

#[test]
fn quit_is_terminal() {
    let mut app = App::new(KeyBindings::new());
    app.handle_action(Action::Quit);
    assert!(app.should_quit());
    app.handle_action(Action::SwitchMode(Mode::Search));
    app.handle_action(Action::ClosePopup);
    assert_eq!(app.mode, Mode::Quit);
}

#[test]
fn help_remembers_origin_once() {
    let mut app = App::new(KeyBindings::new());
    app.handle_action(Action::SwitchMode(Mode::Search));
    app.handle_action(Action::SwitchMode(Mode::Help));
    assert_eq!(app.help.mode, Some(Mode::Search));
    let rows = vec![Mode::Help, Mode::Summary, Mode::Summary, Mode::Search, Mode::Search];
    app.help.select_by_mode(&rows);
    assert_eq!(app.help.selected, Some(3));
    assert_eq!(app.help.offset, 1);
    assert_eq!(app.help.mode, None);
    app.help.scroll_down();
    app.help.scroll_down();
    app.help.select_by_mode(&rows);
    assert_eq!(app.help.selected, Some(4));
}

#[test]
fn submit_search_queues_reload_separately() {
    let mut app = App::new(KeyBindings::new());
    app.handle_action(Action::SwitchMode(Mode::Search));
    app.set_prompt_text("ratatui".to_string());
    let effects = app.handle_action(Action::SubmitSearch);
    assert!(effects.is_empty());
    assert_eq!(app.search.search, "ratatui");
    assert!(app.search.search_task.is_none());
    assert_eq!(app.queue, vec![Action::ReloadData]);
    let next = app.next_action().unwrap();
    assert_eq!(next, Action::ReloadData);
    let effects = app.handle_action(next);
    assert_eq!(
        effects,
        vec![Effect::FetchSearch {
            id: app.search.search_task.unwrap(),
            search: "ratatui".to_string(),
            page: 1,
            page_size: 25,
            sort: SortBy::Relevance
        }]
    );
    assert!(app.loading());
}

#[test]
fn end_to_end_search() {
    let mut b = KeyBindings::new();
    b.insert(Mode::Search, &[KeyEvent::new(KeyCode::Enter, 0)], Command::SubmitSearch);
    let mut app = App::new(b);
    assert_eq!(app.mode, Mode::Summary);
    app.enqueue(Action::SwitchMode(Mode::Search));
    drain(&mut app);
    assert_eq!(app.mode, Mode::Search);
    let mut typed = String::new();
    for c in "tokio".chars() {
        typed.push(c);
        app.set_prompt_text(typed.clone());
        if let Some(a) = app.handle_event(Event::Key(key(c))) {
            app.enqueue(a);
        }
    }
    let enter = app.handle_event(Event::Key(KeyEvent::new(KeyCode::Enter, 0)));
    assert_eq!(enter, Some(Action::SubmitSearch));
    app.enqueue(enter.unwrap());
    let effects = drain(&mut app);
    let search_id = app.search.search_task.unwrap();
    assert_eq!(
        effects,
        vec![Effect::FetchSearch {
            id: search_id,
            search: "tokio".to_string(),
            page: 1,
            page_size: 25,
            sort: SortBy::Relevance
        }]
    );
    assert!(app.loading());
    let crates = vec![
        item("tokio", Some("An event-driven runtime")),
        item("tokio-util", Some("Utilities")),
        item("tokio-stream", None),
    ];
    app.enqueue(Action::StoreSearchResults { id: search_id, crates, total: 3 });
    let mut seen_total = false;
    let mut effects = Vec::new();
    while let Some(a) = app.next_action() {
        if a == Action::StoreTotalNumberOfCrates(3) {
            seen_total = true;
        }
        effects.extend(app.handle_action(a));
    }
    assert!(seen_total);
    assert!(app.mode.is_picker());
    assert_eq!(app.search.results.crates.len(), 3);
    assert_eq!(app.search.total_num_crates, Some(3));
    // the selection moved to the first row, which started a detail fetch
    let detail = effects.iter().find_map(|e| match e {
        Effect::FetchCrateDetails { id, name } => Some((*id, name.clone())),
        _ => None,
    });
    let (id, name) = detail.unwrap();
    assert_eq!(name, "tokio");
    app.enqueue(Action::StoreCrateDetails { id, name });
    app.enqueue(Action::ClearTaskDetailsHandle(id));
    drain(&mut app);
    assert_eq!(app.search.crate_response.as_ref().unwrap().name, "tokio");
    assert!(!app.loading());
}

#[test]
fn empty_results_raise_an_error_popup() {
    let mut app = App::new(KeyBindings::new());
    app.search.search = "zzz".to_string();
    app.search.search_task = Some(7);
    app.handle_action(Action::StoreSearchResults { id: 7, crates: vec![], total: 0 });
    assert_eq!(
        app.queue,
        vec![
            Action::ShowErrorPopup("Could not find any crates with query `zzz`.".to_string()),
            Action::UpdateSearchTableResults
        ]
    );
}

#[test]
fn superseded_detail_fetch_is_ignored() {
    let mut app = App::new(KeyBindings::new());
    app.search.crates = vec![item("serde", None), item("rand", None)];
    app.handle_action(Action::UpdateSearchTableResults);
    app.search.results.select(Some(0));
    let first = app.handle_action(Action::UpdateCurrentSelectionCrateInfo);
    let x = match first.last() {
        Some(Effect::FetchCrateDetails { id, name }) => {
            assert_eq!(name, "serde");
            *id
        }
        other => panic!("unexpected {other:?}"),
    };
    app.search.results.select(Some(1));
    let second = app.handle_action(Action::UpdateCurrentSelectionCrateInfo);
    assert_eq!(second[0], Effect::Abort(x));
    let y = match second.last() {
        Some(Effect::FetchCrateDetails { id, name }) => {
            assert_eq!(name, "rand");
            *id
        }
        other => panic!("unexpected {other:?}"),
    };
    assert_ne!(x, y);
    app.handle_action(Action::StoreCrateDetails { id: y, name: "rand".to_string() });
    app.handle_action(Action::StoreCrateDetails { id: x, name: "serde".to_string() });
    assert_eq!(app.search.crate_response.as_ref().unwrap().name, "rand");
    assert_eq!(app.search.crate_response.as_ref().unwrap().task, y);
    let late = app.handle_action(Action::ClearTaskDetailsHandle(x));
    assert!(late.is_empty());
    let done = app.handle_action(Action::ClearTaskDetailsHandle(y));
    assert_eq!(done, vec![Effect::Abort(y)]);
    assert!(!app.loading());
}

#[test]
fn scroll_in_picker_queues_detail_update() {
    let mut app = App::new(KeyBindings::new());
    app.handle_action(Action::SwitchMode(Mode::PickerHideCrateInfo));
    app.handle_action(Action::ScrollDown);
    assert_eq!(app.queue, vec![Action::UpdateCurrentSelectionCrateInfo]);
    let mut summary = App::new(KeyBindings::new());
    summary.handle_action(Action::ScrollDown);
    assert!(summary.queue.is_empty());
}

#[test]
fn filter_keeps_items_matching_every_word() {
    let mut app = App::new(KeyBindings::new());
    app.search.crates = vec![
        item("Serde", Some("A serialization framework")),
        item("serde_json", Some("JSON support")),
        item("rand", Some("Random numbers")),
    ];
    app.handle_action(Action::SwitchMode(Mode::Filter));
    app.set_prompt_text("serde json".to_string());
    assert_eq!(app.search.filter, "serde json");
    app.handle_action(Action::Tick);
    assert_eq!(app.search.results.crates.len(), 1);
    assert_eq!(app.search.results.crates[0].name, "serde_json");
    app.set_prompt_text("serial".to_string());
    app.handle_action(Action::UpdateSearchTableResults);
    assert_eq!(app.search.results.crates[0].name, "Serde");
    app.set_prompt_text("".to_string());
    app.handle_action(Action::Tick);
    assert_eq!(app.search.results.crates.len(), 3);
}

#[test]
fn result_scrolling_wraps() {
    let mut p = SearchPage::new();
    p.results.crates = vec![item("a", None), item("b", None), item("c", None)];
    p.results.scroll_next(1);
    assert_eq!(p.results.selected(), Some(0));
    p.results.scroll_next(5);
    assert_eq!(p.results.selected(), Some(2));
    p.results.scroll_previous(1);
    assert_eq!(p.results.selected(), Some(1));
    p.results.scroll_previous(7);
    assert_eq!(p.results.selected(), Some(0));
    p.results.scroll_previous(1);
    assert_eq!(p.results.selected(), Some(2));
    p.results.scroll_to_top();
    assert_eq!(p.results.selected(), Some(0));
    p.results.scroll_to_bottom();
    assert_eq!(p.results.selected(), Some(2));
    assert_eq!(p.results.selected_crate_name(), Some("c".to_string()));
    p.results.crates.clear();
    p.results.scroll_next(1);
    assert_eq!(p.results.selected(), None);
}

#[test]
fn sort_toggle_cycles_and_reloads() {
    let mut app = App::new(KeyBindings::new());
    app.handle_action(Action::ToggleSortBy { reload: false, forward: true });
    assert_eq!(app.search.sort, SortBy::Downloads);
    app.handle_action(Action::ToggleSortBy { reload: true, forward: false });
    assert_eq!(app.search.sort, SortBy::Relevance);
    assert_eq!(app.queue, vec![Action::ReloadData]);
    app.handle_action(Action::ToggleSortBy { reload: false, forward: false });
    assert_eq!(app.search.sort, SortBy::Alphabetical);
}

#[test]
fn summary_url_and_modes() {
    let mut app = App::new(KeyBindings::new());
    app.handle_action(Action::OpenCratesIOUrlInBrowser);
    assert_eq!(
        app.queue,
        vec![Action::ShowErrorPopup(
            "Unable to open URL in browser: No summary data loaded".to_string()
        )]
    );
    let names = |v: &[&str]| v.iter().map(|s| s.to_string()).collect::<Vec<_>>();
    app.handle_action(Action::StoreSummary(SummaryData {
        new_crates: names(&["alpha", "beta"]),
        most_downloaded: names(&["syn"]),
        just_updated: names(&["quote"]),
        most_recently_downloaded: names(&["libc"]),
        popular_keywords: names(&["cli"]),
        popular_categories: names(&["web-programming"]),
    }));
    app.handle_action(Action::ScrollDown);
    app.handle_action(Action::ScrollDown);
    app.handle_action(Action::ScrollDown);
    let effects = app.handle_action(Action::OpenCratesIOUrlInBrowser);
    assert_eq!(effects, vec![Effect::OpenUrl("https://crates.io/crates/beta".to_string())]);
    for _ in 0..10 {
        app.handle_action(Action::NextSummaryMode);
    }
    app.handle_action(Action::ScrollDown);
    let effects = app.handle_action(Action::OpenCratesIOUrlInBrowser);
    assert_eq!(
        effects,
        vec![Effect::OpenUrl("https://crates.io/categories/web-programming".to_string())]
    );
    app.handle_action(Action::PreviousSummaryMode);
    app.handle_action(Action::NextSummaryMode);
    assert_eq!(app.summary.get_state(app.summary.mode()), Some(1));
}

#[test]
fn detail_actions_use_the_shown_crate() {
    let mut app = App::new(KeyBindings::new());
    app.handle_action(Action::CopyCargoAddCommandToClipboard);
    assert_eq!(app.queue, vec![Action::ShowErrorPopup("No selection made to copy".to_string())]);
    app.search.crates = vec![item("clap", None)];
    app.handle_action(Action::UpdateSearchTableResults);
    app.handle_action(Action::SwitchMode(Mode::PickerShowCrateInfo));
    let effects = app.handle_action(Action::UpdateCurrentSelectionCrateInfo);
    let id = match effects.last() {
        Some(Effect::FetchCrateDetails { id, .. }) => *id,
        other => panic!("unexpected {other:?}"),
    };
    app.handle_action(Action::StoreCrateDetails { id, name: "clap".to_string() });
    assert_eq!(
        app.handle_action(Action::CopyCargoAddCommandToClipboard),
        vec![Effect::CopyToClipboard("cargo add clap".to_string())]
    );
    assert_eq!(
        app.handle_action(Action::OpenDocsUrlInBrowser),
        vec![Effect::OpenUrl("https://docs.rs/clap/latest".to_string())]
    );
    assert_eq!(
        app.handle_action(Action::OpenCratesIOUrlInBrowser),
        vec![Effect::OpenUrl("https://crates.io/crates/clap".to_string())]
    );
}

#[test]
fn init_with_query_searches() {
    let mut app = App::new(KeyBindings::new());
    let effects = app.handle_action(Action::Init { query: Some("serde".to_string()) });
    assert!(effects.is_empty());
    let effects = drain(&mut app);
    assert!(effects.iter().any(|e| matches!(
        e,
        Effect::FetchSearch { search, page: 1, page_size: 25, sort: SortBy::Relevance, .. }
            if search == "serde"
    )));
    assert!(app.mode.is_picker());
    let mut fresh = App::new(KeyBindings::new());
    assert_eq!(fresh.handle_action(Action::Init { query: None }), vec![Effect::FetchSummary]);
    assert!(fresh.loading());
    fresh.handle_action(Action::SummaryFailed("offline".to_string()));
    assert!(!fresh.loading());
    assert_eq!(fresh.queue, vec![Action::ShowErrorPopup("offline".to_string())]);
}

#[test]
fn follow_ups_do_not_requeue_themselves() {
    let all = vec![
        Action::Tick,
        Action::Render,
        Action::KeyRefresh,
        Action::ScrollUp,
        Action::ScrollDown,
        Action::ScrollTop,
        Action::ScrollBottom,
        Action::SubmitSearch,
        Action::ReloadData,
        Action::UpdateCurrentSelectionCrateInfo,
        Action::UpdateSearchTableResults,
        Action::ClosePopup,
        Action::IncrementPage,
        Action::DecrementPage,
    ];
    for mode in [Mode::Summary, Mode::Search, Mode::Filter, Mode::PickerHideCrateInfo, Mode::Help] {
        for a in &all {
            let mut app = App::new(KeyBindings::new());
            app.handle_action(Action::SwitchMode(mode));
            app.handle_action(a.clone());
            let mut steps = 0;
            while let Some(next) = app.next_action() {
                assert_ne!(&next, a);
                app.handle_action(next);
                steps += 1;
                assert!(steps < 10);
            }
        }
    }
}

#[test]
fn filter_ignores_case_of_names() {
    let mut app = App::new(KeyBindings::new());
    app.search.crates = vec![item("Tokio", None), item("mio", Some("Metal IO"))];
    app.search.filter = "tokio".to_string();
    app.handle_action(Action::UpdateSearchTableResults);
    assert_eq!(app.search.results.crates.len(), 1);
    assert_eq!(app.search.results.crates[0].name, "Tokio");
    app.search.filter = "metal".to_string();
    app.handle_action(Action::UpdateSearchTableResults);
    assert_eq!(app.search.results.crates[0].name, "mio");
    app.search.filter = "Metal".to_string();
    app.handle_action(Action::UpdateSearchTableResults);
    assert!(app.search.results.crates.is_empty());
}

#[test]
fn render_and_resize_ask_for_a_draw() {
    let mut app = App::new(KeyBindings::new());
    assert_eq!(app.handle_action(Action::Render), vec![Effect::Draw]);
    assert_eq!(app.handle_action(Action::Resize(80, 24)), vec![Effect::Draw]);
    assert_eq!(app.handle_event(Event::Resize(80, 24)), Some(Action::Resize(80, 24)));
    assert_eq!(app.handle_event(Event::Other), None);
}

#[test]
fn superseded_search_is_ignored() {
    let mut app = App::new(KeyBindings::new());
    let first = match app.handle_action(Action::ReloadData).pop() {
        Some(Effect::FetchSearch { id, .. }) => id,
        other => panic!("unexpected {other:?}"),
    };
    let second = match app.handle_action(Action::ReloadData).pop() {
        Some(Effect::FetchSearch { id, .. }) => id,
        other => panic!("unexpected {other:?}"),
    };
    assert_ne!(first, second);
    app.handle_action(Action::StoreSearchResults { id: first, crates: vec![item("old", None)], total: 1 });
    assert!(app.search.crates.is_empty());
    assert!(app.queue.is_empty());
    assert!(app.loading());
    app.handle_action(Action::SearchFailed { id: first, message: "late".to_string() });
    assert!(app.queue.is_empty());
    app.handle_action(Action::StoreSearchResults { id: second, crates: vec![item("new", None)], total: 1 });
    assert_eq!(app.search.crates[0].name, "new");
    assert!(!app.loading());
}

#[test]
fn failed_search_reports_and_stops_loading() {
    let mut app = App::new(KeyBindings::new());
    let id = match app.handle_action(Action::ReloadData).pop() {
        Some(Effect::FetchSearch { id, .. }) => id,
        other => panic!("unexpected {other:?}"),
    };
    app.handle_action(Action::SearchFailed { id, message: "offline".to_string() });
    assert!(!app.loading());
    assert_eq!(
        app.queue,
        vec![Action::ShowErrorPopup("offline".to_string()), Action::UpdateSearchTableResults]
    );
}

#[test]
fn showing_the_panel_starts_a_detail_fetch() {
    let mut app = App::new(KeyBindings::new());
    app.search.crates = vec![item("rand", None)];
    app.handle_action(Action::UpdateSearchTableResults);
    app.handle_action(Action::SwitchMode(Mode::PickerHideCrateInfo));
    let effects = app.handle_action(Action::ToggleShowCrateInfo);
    assert!(matches!(
        effects.as_slice(),
        [Effect::FetchCrateDetails { name, .. }] if name == "rand"
    ));
    assert!(app.loading());
    let effects = app.handle_action(Action::ToggleShowCrateInfo);
    assert!(matches!(effects.as_slice(), [Effect::Abort(_)]));
    assert!(!app.loading());
}

#[test]
fn store_total_keeps_the_rest() {
    let mut app = App::new(KeyBindings::new());
    app.handle_action(Action::SwitchMode(Mode::Search));
    let effects = app.handle_action(Action::StoreTotalNumberOfCrates(3));
    assert!(effects.is_empty());
    assert_eq!(app.search.total_num_crates, Some(3));
    assert_eq!(app.mode, Mode::Search);
    assert_eq!(app.last_mode, Mode::Summary);
    assert_eq!(app.search.page, 1);
}
