use vstd::prelude::*;
use vstd::string::StringExecFns;

use crate::action::{Action, Effect};
use crate::data::CrateItem;
use crate::keybindings::{feed_step, KeyBindings, KeyResolver};
use crate::keys::KeyEvent;
use crate::mode::Mode;
use crate::results::{filter_items, next_selection, previous_selection, sel_int, SearchResultsTable};
use crate::search_page::{
    accept_detail, aborts_of, detail_request, page_after_decrement, page_after_increment,
    search_request, SearchMode, SearchPage,
};
use crate::summary::Summary;
use crate::text::words_of;
use crate::views::{Help, PopupMessage, SelectedTab};

verus! {

/// One event of the merged input stream: a timer tick, a terminal event, or
/// the end of the stream.
#[derive(Clone, Debug, PartialEq, Eq)]
pub enum Event {
    Init,
    Quit,
    Error,
    Closed,
    Tick,
    KeyRefresh,
    Render,
    Resize(u16, u16),
    Key(KeyEvent),
    /// A terminal event that no action answers (focus, mouse, paste).
    Other,
}

/// The mode and the previous mode after asking to enter `m`: `Quit` is
/// terminal, every other mode is left for `m` and remembered.
pub open spec fn switch_target(mode: Mode, last: Mode, m: Mode) -> (Mode, Mode) {
    if mode == Mode::Quit {
        (mode, last)
    } else {
        (m, mode)
    }
}

/// The mode that closing a popup returns to: the one before it, unless that
/// was a popup too.
pub open spec fn close_target(last: Mode) -> Mode {
    if last == Mode::Popup {
        Mode::Search
    } else {
        last
    }
}

/// Opening a popup and closing it again returns to the mode that was active
/// before the popup, except that a popup opened over a popup returns to the
/// search prompt.
pub proof fn lemma_popup_round_trip(mode: Mode, last: Mode)
    ensures
        ({
            let (m1, l1) = switch_target(mode, last, Mode::Popup);
            switch_target(m1, l1, close_target(l1)).0
        }) == if mode == Mode::Popup {
            Mode::Search
        } else {
            mode
        },
{
}

/// A detail fetch `x` that was registered when the selection changed is
/// superseded by the fetch `y` started then, which no registered fetch had:
/// with `y` the only registered fetch, `x`'s delivery changes nothing, and in
/// either order of delivery `y`'s record is the one shown.
pub proof fn lemma_replaced_detail_fetch_is_ignored(
    shown: Option<crate::search_page::CrateDetail>,
    before: Set<u128>,
    x: u128,
    x_name: String,
    y: u128,
    y_name: String,
)
    requires
        before.contains(x),
        !before.contains(y),
    ensures
        accept_detail(shown, set![y], x, x_name) == shown,
        accept_detail(accept_detail(shown, set![y], x, x_name), set![y], y, y_name) == Some(
            crate::search_page::CrateDetail { task: y, name: y_name },
        ),
        accept_detail(accept_detail(shown, set![y], y, y_name), set![y], x, x_name) == Some(
            crate::search_page::CrateDetail { task: y, name: y_name },
        ),
{
    crate::search_page::lemma_single_authoritative_detail(shown, x, x_name, y, y_name);
}

/// A row index moved up by one, stopping at 0; with no row, row 0.
pub open spec fn row_up(o: Option<usize>) -> usize {
    match o {
        Some(i) => if i > 0 {
            (i - 1) as usize
        } else {
            0
        },
        None => 0,
    }
}

/// A row index moved down by one; with no row, row 0.
pub open spec fn row_down(o: Option<usize>) -> usize {
    match o {
        Some(i) => if i < usize::MAX {
            (i + 1) as usize
        } else {
            i
        },
        None => 0,
    }
}

/// The selection on leaving the prompt: the first row, if the list has rows
/// and none is selected.
pub open spec fn normal_selection(t: SearchResultsTable) -> Option<usize> {
    if t.crates@.len() > 0 && t.selected is None {
        Some(0usize)
    } else {
        t.selected
    }
}

/// What moving up one row does in the view that the mode shows.
pub open spec fn scrolled_up(a: App, b: App) -> bool {
    if a.mode == Mode::Summary {
        b.summary.state@ == a.summary.state@.update(
            a.summary.mode.spec_index() as int,
            Some(row_up(a.summary.state@[a.summary.mode.spec_index() as int])),
        )
    } else if a.mode == Mode::Help {
        b.help.selected == Some(row_up(a.help.selected))
    } else if a.mode == Mode::Popup {
        a.popup matches Some(p) ==> (b.popup matches Some(q) && q.scroll == row_up(Some(p.scroll)))
    } else {
        sel_int(b.search.results.selected) == previous_selection(
            a.search.results.selected,
            a.search.results.crates@.len(),
            1,
        )
    }
}

/// What moving down one row does in the view that the mode shows.
pub open spec fn scrolled_down(a: App, b: App) -> bool {
    if a.mode == Mode::Summary {
        b.summary.state@ == a.summary.state@.update(
            a.summary.mode.spec_index() as int,
            Some(row_down(a.summary.state@[a.summary.mode.spec_index() as int])),
        )
    } else if a.mode == Mode::Help {
        b.help.selected == Some(row_down(a.help.selected))
    } else if a.mode == Mode::Popup {
        a.popup matches Some(p) ==> (b.popup matches Some(q) && q.scroll == row_down(Some(p.scroll)))
    } else {
        sel_int(b.search.results.selected) == next_selection(
            a.search.results.selected,
            a.search.results.crates@.len(),
            1,
        )
    }
}

/// Whether an action moves a selection in a list.
pub open spec fn is_scroll(a: Action) -> bool {
    a is ScrollUp || a is ScrollDown || a is ScrollTop || a is ScrollBottom
}

/// The message for a search that found nothing.
pub open spec fn no_results_message(search: Seq<char>) -> Seq<char> {
    "Could not find any crates with query `"@ + search + "`."@
}

/// The follow-ups that a delivered page of results queues.
pub open spec fn results_follow_ups(crates: Seq<CrateItem>, total: u64, message: String) -> Seq<Action> {
    if crates.len() == 0 {
        seq![Action::ShowErrorPopup(message), Action::UpdateSearchTableResults]
    } else {
        seq![
            Action::StoreTotalNumberOfCrates(total),
            Action::Tick,
            Action::ScrollDown,
            Action::UpdateSearchTableResults,
        ]
    }
}

/// The whole state of the interface, owned by the main loop.
#[derive(Clone, Debug)]
pub struct App {
    pub mode: Mode,
    pub last_mode: Mode,
    pub keys: KeyResolver,
    pub key_bindings: KeyBindings,
    pub summary: Summary,
    pub summary_loading: bool,
    pub search: SearchPage,
    pub popup: Option<PopupMessage>,
    pub help: Help,
    pub crate_info_selected: Option<usize>,
    pub selected_tab: SelectedTab,
    /// Actions waiting for the reducer, oldest first.
    pub queue: Vec<Action>,
}

impl App {
    pub open spec fn wf(self) -> bool {
        self.summary.wf() && self.search.wf()
    }

    /// A fresh state in the summary view, with the given key bindings.
    pub fn new(key_bindings: KeyBindings) -> (r: App)
        ensures
            r.wf(),
            r.mode == Mode::Summary,
            r.last_mode == Mode::Summary,
            r.key_bindings == key_bindings,
            r.keys.pending() == Seq::<KeyEvent>::empty(),
            r.queue@ == Seq::<Action>::empty(),
            r.popup is None,
            !r.summary_loading,
            r.search.page == 1,
            r.search.page_size == 25,
            r.search.search@.len() == 0,
            r.search.input@.len() == 0,
            r.search.filter@.len() == 0,
            r.search.total_num_crates is None,
            r.search.crates@.len() == 0,
            r.search.detail_tasks.live() == Set::<u128>::empty(),
            r.search.search_task is None,
    {
        App {
            mode: Mode::Summary,
            last_mode: Mode::Summary,
            keys: KeyResolver::new(),
            key_bindings,
            summary: Summary::new(),
            summary_loading: false,
            search: SearchPage::new(),
            popup: None,
            help: Help::new(None, None),
            crate_info_selected: None,
            selected_tab: SelectedTab::Summary,
            queue: Vec::new(),
        }
    }

    /// Whether any fetch is in flight.
    pub fn loading(&self) -> (r: bool)
        ensures
            r == (self.summary_loading || self.search.search_task is Some
                || self.search.detail_tasks.live() != Set::<u128>::empty()),
    {
        self.summary_loading || self.search.loading()
    }

    /// Whether the run is over.
    pub fn should_quit(&self) -> (r: bool)
        ensures
            r == (self.mode == Mode::Quit),
    {
        self.mode == Mode::Quit
    }

    /// Appends an action to the queue.
    pub fn enqueue(&mut self, action: Action)
        ensures
            final(self).queue@ == old(self).queue@.push(action),
            final(self).mode == old(self).mode,
            final(self).search == old(self).search,
    {
        self.queue.push(action);
    }

    /// Takes the oldest queued action.
    pub fn next_action(&mut self) -> (r: Option<Action>)
        ensures
            old(self).queue@.len() == 0 ==> r is None && final(self).queue@ == old(self).queue@,
            old(self).queue@.len() > 0 ==> r == Some(old(self).queue@[0]) && final(self).queue@
                == old(self).queue@.drop_first(),
            final(self).mode == old(self).mode,
            final(self).search == old(self).search,
            final(self).summary == old(self).summary,
            final(self).summary_loading == old(self).summary_loading,
            final(self).keys == old(self).keys,
            final(self).key_bindings == old(self).key_bindings,
    {
        if self.queue.len() == 0 {
            None
        } else {
            Some(self.queue.remove(0))
        }
    }

    /// Takes the prompt text after an edit; in the filter prompt the filter
    /// follows it at once.
    pub fn set_prompt_text(&mut self, text: String)
        ensures
            final(self).search.input == text,
            old(self).mode == Mode::Filter ==> final(self).search.filter == text
                && final(self).search.results.selected is None,
            old(self).mode != Mode::Filter ==> final(self).search.filter == old(self).search.filter,
            old(self).mode != Mode::Filter ==> final(self).search.results == old(self).search.results,
            final(self).search.results.crates == old(self).search.results.crates,
            final(self).search == (SearchPage {
                input: final(self).search.input,
                filter: final(self).search.filter,
                results: final(self).search.results,
                ..old(self).search
            }),
            *final(self) == (App { search: final(self).search, ..*old(self) }),
            old(self).wf() ==> final(self).wf(),
    {
        self.search.input = text;
        if self.mode == Mode::Filter {
            self.search.handle_filter_prompt_change();
        }
    }

    /// Turns an event into at most one action; key presses go through
    /// the key binding resolver.
    pub fn handle_event(&mut self, e: Event) -> (r: Option<Action>)
        ensures
            match e {
                Event::Quit => r == Some(Action::Quit),
                Event::Tick => r == Some(Action::Tick),
                Event::KeyRefresh => r == Some(Action::KeyRefresh),
                Event::Render => r == Some(Action::Render),
                Event::Resize(x, y) => r == Some(Action::Resize(x, y)),
                Event::Key(k) => (final(self).keys.pending(), r) == feed_step(
                    old(self).key_bindings,
                    old(self).mode,
                    old(self).keys.pending(),
                    k,
                ),
                _ => r is None,
            },
            !(e is Key) ==> final(self).keys == old(self).keys,
            final(self).mode == old(self).mode,
            final(self).last_mode == old(self).last_mode,
            final(self).key_bindings == old(self).key_bindings,
            final(self).search == old(self).search,
            final(self).queue == old(self).queue,
    {
        match e {
            Event::Quit => Some(Action::Quit),
            Event::Tick => Some(Action::Tick),
            Event::KeyRefresh => Some(Action::KeyRefresh),
            Event::Render => Some(Action::Render),
            Event::Resize(x, y) => Some(Action::Resize(x, y)),
            Event::Key(k) => self.keys.feed(&self.key_bindings, self.mode, k),
            _ => None,
        }
    }

    /// Enters mode `m` with its entry effects: the prompt modes seed the
    /// prompt, the help view remembers where it was opened from, every other
    /// mode selects a first row if none is selected. `Quit` is never left.
    pub fn switch_mode(&mut self, m: Mode)
        requires
            old(self).wf(),
        ensures
            final(self).wf(),
            (final(self).mode, final(self).last_mode) == switch_target(
                old(self).mode,
                old(self).last_mode,
                m,
            ),
            old(self).mode != Mode::Quit && m == Mode::Search ==> final(self).search.input
                == old(self).search.search,
            old(self).mode != Mode::Quit && m == Mode::Filter ==> final(self).search.input
                == old(self).search.filter,
            old(self).mode != Mode::Quit && m == Mode::Help ==> final(self).help.mode == Some(
                old(self).mode,
            ),
            final(self).search.search == old(self).search.search,
            final(self).search.filter == old(self).search.filter,
            final(self).search.page == old(self).search.page,
            final(self).search.page_size == old(self).search.page_size,
            final(self).search.sort == old(self).search.sort,
            final(self).search.crates == old(self).search.crates,
            final(self).search.total_num_crates == old(self).search.total_num_crates,
            final(self).search.crate_response == old(self).search.crate_response,
            final(self).search.full_crate_info == old(self).search.full_crate_info,
            final(self).search.detail_tasks == old(self).search.detail_tasks,
            final(self).search.search_task == old(self).search.search_task,
            final(self).search.results.crates == old(self).search.results.crates,
            final(self).search.results.selected == if old(self).mode == Mode::Quit || m == Mode::Search
                || m == Mode::Filter {
                old(self).search.results.selected
            } else {
                normal_selection(old(self).search.results)
            },
            final(self).summary == old(self).summary,
            final(self).summary_loading == old(self).summary_loading,
            final(self).queue == old(self).queue,
            final(self).popup == old(self).popup,
            final(self).keys == old(self).keys,
            final(self).key_bindings == old(self).key_bindings,
    {
        if self.mode == Mode::Quit {
            return;
        }
        self.last_mode = self.mode;
        self.mode = m;
        match m {
            Mode::Search => {
                self.search.mode = SearchMode::Search;
                self.selected_tab.select(SelectedTab::Search);
                self.search.enter_insert_mode();
            },
            Mode::Filter => {
                self.search.mode = SearchMode::Filter;
                self.selected_tab.select(SelectedTab::Search);
                self.search.enter_insert_mode();
            },
            Mode::Summary => {
                self.search.enter_normal_mode();
                self.selected_tab.select(SelectedTab::Summary);
            },
            Mode::Help => {
                self.search.enter_normal_mode();
                self.help.mode = Some(self.last_mode);
                self.selected_tab.select(SelectedTab::Blank);
            },
            Mode::PickerShowCrateInfo => {
                self.search.mode = SearchMode::ResultsShowCrate;
                self.search.enter_normal_mode();
                self.selected_tab.select(SelectedTab::Search);
            },
            Mode::PickerHideCrateInfo => {
                self.search.mode = SearchMode::ResultsHideCrate;
                self.search.enter_normal_mode();
                self.selected_tab.select(SelectedTab::Search);
            },
            _ => {
                self.search.enter_normal_mode();
                self.selected_tab.select(SelectedTab::Blank);
            },
        }
    }

    /// Shows a message over the page and enters the popup mode.
    fn show_popup(&mut self, title: String, message: String)
        requires
            old(self).wf(),
        ensures
            final(self).wf(),
            final(self).popup == Some(PopupMessage { title, message, scroll: 0 }),
            (final(self).mode, final(self).last_mode) == switch_target(
                old(self).mode,
                old(self).last_mode,
                Mode::Popup,
            ),
            final(self).search.search == old(self).search.search,
            final(self).search.page == old(self).search.page,
            final(self).search.detail_tasks == old(self).search.detail_tasks,
            final(self).search.crate_response == old(self).search.crate_response,
            final(self).search.search_task == old(self).search.search_task,
            final(self).search.crates == old(self).search.crates,
            final(self).search.total_num_crates == old(self).search.total_num_crates,
            final(self).summary_loading == old(self).summary_loading,
            final(self).queue == old(self).queue,
            final(self).keys == old(self).keys,
    {
        self.popup = Some(PopupMessage::new(title, message));
        self.switch_mode(Mode::Popup);
    }

    /// Dismisses the popup and returns to the mode it was opened from.
    pub fn close_popup(&mut self)
        requires
            old(self).wf(),
        ensures
            final(self).wf(),
            final(self).popup is None,
            (final(self).mode, final(self).last_mode) == switch_target(
                old(self).mode,
                old(self).last_mode,
                close_target(old(self).last_mode),
            ),
            final(self).search.search == old(self).search.search,
            final(self).search.page == old(self).search.page,
            final(self).search.detail_tasks == old(self).search.detail_tasks,
            final(self).search.crate_response == old(self).search.crate_response,
            final(self).search.search_task == old(self).search.search_task,
            final(self).search.crates == old(self).search.crates,
            final(self).search.total_num_crates == old(self).search.total_num_crates,
            final(self).summary_loading == old(self).summary_loading,
            final(self).queue == old(self).queue,
            final(self).keys == old(self).keys,
    {
        self.popup = None;
        if self.last_mode == Mode::Popup {
            self.switch_mode(Mode::Search);
        } else {
            let m = self.last_mode;
            self.switch_mode(m);
        }
    }

    /// The next tab: the summary and the search page alternate; any other
    /// view goes to the summary.
    fn goto_next_tab(&mut self)
        requires
            old(self).wf(),
        ensures
            final(self).wf(),
            (final(self).mode, final(self).last_mode) == switch_target(
                old(self).mode,
                old(self).last_mode,
                if old(self).mode == Mode::Summary {
                    Mode::Search
                } else {
                    Mode::Summary
                },
            ),
            final(self).queue == old(self).queue,
    {
        if self.mode == Mode::Summary {
            self.switch_mode(Mode::Search);
        } else {
            self.switch_mode(Mode::Summary);
        }
    }

    /// Moves the selection of the view that the mode shows up one row.
    fn scroll_up(&mut self)
        requires
            old(self).wf(),
        ensures
            final(self).wf(),
            scrolled_up(*old(self), *final(self)),
            final(self).mode == old(self).mode,
            final(self).last_mode == old(self).last_mode,
            final(self).queue == old(self).queue,
            final(self).search.detail_tasks == old(self).search.detail_tasks,
            final(self).search.search_task == old(self).search.search_task,
            final(self).summary_loading == old(self).summary_loading,
            final(self).keys == old(self).keys,
    {
        match self.mode {
            Mode::Popup => {
                if let Some(p) = &mut self.popup {
                    p.scroll_up();
                }
            },
            Mode::Summary => self.summary.scroll_previous(),
            Mode::Help => self.help.scroll_up(),
            _ => self.search.scroll_up(),
        }
    }

    /// Moves the selection of the view that the mode shows down one row.
    fn scroll_down(&mut self)
        requires
            old(self).wf(),
        ensures
            final(self).wf(),
            scrolled_down(*old(self), *final(self)),
            final(self).mode == old(self).mode,
            final(self).last_mode == old(self).last_mode,
            final(self).queue == old(self).queue,
            final(self).search.detail_tasks == old(self).search.detail_tasks,
            final(self).search.search_task == old(self).search.search_task,
            final(self).summary_loading == old(self).summary_loading,
            final(self).keys == old(self).keys,
    {
        match self.mode {
            Mode::Popup => {
                if let Some(p) = &mut self.popup {
                    p.scroll_down();
                }
            },
            Mode::Summary => self.summary.scroll_next(),
            Mode::Help => self.help.scroll_down(),
            _ => self.search.scroll_down(),
        }
    }

    /// Cancels the detail fetches in flight and starts a fetch of the selected
    /// item's record (the full one if `full`), under an id that none of the
    /// cancelled fetches had.
    fn replace_detail_fetch(&mut self, full: bool, out: &mut Vec<Effect>)
        requires
            old(self).wf(),
        ensures
            final(self).wf(),
            match old(self).search.results.selected_name() {
                Some(name) => exists|ids: Seq<u128>, id: u128|
                    ids.to_set() == old(self).search.detail_tasks.live()
                        && !old(self).search.detail_tasks.live().contains(id)
                        && final(self).search.detail_tasks.live() == set![id]
                        && final(out)@ == old(out)@ + aborts_of(ids) + seq![detail_request(id, name, full)],
                None => exists|ids: Seq<u128>|
                    ids.to_set() == old(self).search.detail_tasks.live()
                        && final(self).search.detail_tasks.live() == Set::<u128>::empty()
                        && final(out)@ == old(out)@ + aborts_of(ids),
            },
            final(self).search.crate_response is None,
            final(self).search.full_crate_info is None,
            final(self).search.search_task == old(self).search.search_task,
            final(self).search.results == old(self).search.results,
            final(self).mode == old(self).mode,
            final(self).last_mode == old(self).last_mode,
            final(self).queue == old(self).queue,
            final(self).summary_loading == old(self).summary_loading,
            final(self).keys == old(self).keys,
    {
        let id = self.search.next_detail_id();
        let ghost mid = out@;
        self.search.clear_all_previous_task_details_handles(out);
        let ghost cleared = out@;
        self.search.start_detail_fetch(id, full, out);
        proof {
            let ids = choose|ids: Seq<u128>|
                ids.to_set() == old(self).search.detail_tasks.live() && cleared == mid + aborts_of(ids);
            match old(self).search.results.selected_name() {
                Some(name) => {
                    assert(set![id] =~= Set::<u128>::empty().insert(id));
                    assert(out@ =~= mid + aborts_of(ids) + seq![detail_request(id, name, full)]);
                },
                None => {},
            }
        }
    }

    /// Cancels the detail fetches in flight and starts one for the selected item.
    pub fn update_current_selection_crate_info(&mut self, out: &mut Vec<Effect>)
        requires
            old(self).wf(),
        ensures
            final(self).wf(),
            match old(self).search.results.selected_name() {
                Some(name) => exists|ids: Seq<u128>, id: u128|
                    ids.to_set() == old(self).search.detail_tasks.live()
                        && !old(self).search.detail_tasks.live().contains(id)
                        && final(self).search.detail_tasks.live() == set![id]
                        && final(out)@ == old(out)@ + aborts_of(ids) + seq![(Effect::FetchCrateDetails { id, name })],
                None => exists|ids: Seq<u128>|
                    ids.to_set() == old(self).search.detail_tasks.live()
                        && final(self).search.detail_tasks.live() == Set::<u128>::empty()
                        && final(out)@ == old(out)@ + aborts_of(ids),
            },
            final(self).search.crate_response is None,
            final(self).search.full_crate_info is None,
            final(self).search.search_task == old(self).search.search_task,
            final(self).mode == old(self).mode,
            final(self).last_mode == old(self).last_mode,
            final(self).queue == old(self).queue,
            final(self).summary_loading == old(self).summary_loading,
            final(self).keys == old(self).keys,
    {
        self.replace_detail_fetch(false, out);
    }

    /// Cancels the detail fetches in flight and starts a full-record fetch for
    /// the selected item.
    pub fn show_full_crate_details(&mut self, out: &mut Vec<Effect>)
        requires
            old(self).wf(),
        ensures
            final(self).wf(),
            match old(self).search.results.selected_name() {
                Some(name) => exists|ids: Seq<u128>, id: u128|
                    ids.to_set() == old(self).search.detail_tasks.live()
                        && !old(self).search.detail_tasks.live().contains(id)
                        && final(self).search.detail_tasks.live() == set![id]
                        && final(out)@ == old(out)@ + aborts_of(ids) + seq![(Effect::FetchFullCrateDetails { id, name })],
                None => exists|ids: Seq<u128>|
                    ids.to_set() == old(self).search.detail_tasks.live()
                        && final(self).search.detail_tasks.live() == Set::<u128>::empty()
                        && final(out)@ == old(out)@ + aborts_of(ids),
            },
            final(self).search.crate_response is None,
            final(self).search.full_crate_info is None,
            final(self).search.search_task == old(self).search.search_task,
            final(self).mode == old(self).mode,
            final(self).last_mode == old(self).last_mode,
            final(self).queue == old(self).queue,
            final(self).summary_loading == old(self).summary_loading,
            final(self).keys == old(self).keys,
    {
        self.replace_detail_fetch(true, out);
    }

    /// A page of results arrives from search fetch `id`: if that is the
    /// awaited search, the page replaces the fetched one, the search's loading
    /// ends and the follow-ups are queued; a superseded search changes nothing.
    fn store_search_results(&mut self, id: u128, crates: Vec<CrateItem>, total: u64)
        requires
            old(self).wf(),
        ensures
            final(self).wf(),
            old(self).search.search_task == Some(id) ==> {
                &&& final(self).search.crates == crates
                &&& final(self).search.search_task is None
                &&& exists|message: String|
                    message@ == no_results_message(old(self).search.search@) && final(self).queue@
                        == old(self).queue@ + results_follow_ups(crates@, total, message)
                &&& final(self).search == (SearchPage {
                    crates: final(self).search.crates,
                    search_task: None,
                    ..old(self).search
                })
                &&& *final(self) == (App { search: final(self).search, queue: final(self).queue, ..*old(self) })
            },
            old(self).search.search_task != Some(id) ==> *final(self) == *old(self),
    {
        let awaited = match self.search.search_task {
            Some(t) => t == id,
            None => false,
        };
        if !awaited {
            return;
        }
        let empty = crates.len() == 0;
        self.search.crates = crates;
        self.search.search_task = None;
        let message = <String as StringExecFns>::from_str("Could not find any crates with query `")
            .concat(self.search.search.as_str()).concat("`.");
        if empty {
            self.queue.push(Action::ShowErrorPopup(message));
        } else {
            self.queue.push(Action::StoreTotalNumberOfCrates(total));
            self.queue.push(Action::Tick);
            self.queue.push(Action::ScrollDown);
        }
        self.queue.push(Action::UpdateSearchTableResults);
        proof {
            assert(self.queue@ =~= old(self).queue@ + results_follow_ups(
                self.search.crates@,
                total,
                message,
            ));
        }
    }

    /// Applies one action to the state, then queues the follow-up that the
    /// action calls for; returns the outside work to perform.
    pub fn handle_action(&mut self, action: Action) -> (effects: Vec<Effect>)
        requires
            old(self).wf(),
        ensures
            final(self).wf(),
            old(self).mode == Mode::Quit ==> final(self).mode == Mode::Quit,
            match action {
                Action::Quit => final(self).mode == Mode::Quit,
                Action::KeyRefresh => final(self).keys.pending() == Seq::<KeyEvent>::empty()
                    && *final(self) == (App { keys: final(self).keys, ..*old(self) })
                    && effects@.len() == 0,
                Action::SwitchMode(m) => (final(self).mode, final(self).last_mode)
                    == switch_target(old(self).mode, old(self).last_mode, m) && final(self).queue
                    == old(self).queue,
                Action::SwitchToLastMode => (final(self).mode, final(self).last_mode)
                    == switch_target(old(self).mode, old(self).last_mode, old(self).last_mode)
                    && final(self).queue == old(self).queue,
                Action::ClosePopup => final(self).popup is None && (
                    final(self).mode,
                    final(self).last_mode,
                ) == switch_target(
                    old(self).mode,
                    old(self).last_mode,
                    close_target(old(self).last_mode),
                ) && final(self).queue == old(self).queue,
                Action::ShowErrorPopup(message) => final(self).popup matches Some(p) && p.title@
                    == "Error"@ && p.message == message && p.scroll == 0 && (
                    final(self).mode,
                    final(self).last_mode,
                ) == switch_target(old(self).mode, old(self).last_mode, Mode::Popup)
                    && final(self).queue == old(self).queue,
                Action::ShowInfoPopup(message) => final(self).popup matches Some(p) && p.title@
                    == "Info"@ && p.message == message && p.scroll == 0 && (
                    final(self).mode,
                    final(self).last_mode,
                ) == switch_target(old(self).mode, old(self).last_mode, Mode::Popup)
                    && final(self).queue == old(self).queue,
                Action::SubmitSearch => final(self).search.search == old(self).search.input
                    && final(self).search.filter@.len() == 0 && (
                    final(self).mode,
                    final(self).last_mode,
                ) == switch_target(old(self).mode, old(self).last_mode, Mode::PickerHideCrateInfo)
                    && final(self).queue@ == old(self).queue@.push(Action::ReloadData)
                    && final(self).search.detail_tasks.live() == Set::<u128>::empty() && (
                    forall|i: int| 0 <= i < effects@.len() ==> #[trigger] effects@[i] is Abort)
                    && final(self).search.search_task == old(self).search.search_task
                    && final(self).search.crate_response is None
                    && final(self).search.full_crate_info is None
                    && final(self).search.results.crates == old(self).search.results.crates
                    && final(self).search.results.selected == if old(self).mode == Mode::Quit {
                    old(self).search.results.selected
                } else {
                    normal_selection(old(self).search.results)
                },
                Action::ReloadData => final(self).search.search_task matches Some(id)
                    && old(self).search.search_task != Some(id) && effects@ == seq![
                    search_request(old(self).search, id),
                ] && final(self).queue == old(self).queue,
                Action::IncrementPage => final(self).search.page == page_after_increment(
                    old(self).search.page,
                    old(self).search.total_num_crates,
                    old(self).search.page_size,
                ) && final(self).queue == old(self).queue,
                Action::DecrementPage => final(self).search.page == page_after_decrement(
                    old(self).search.page,
                ) && final(self).queue == old(self).queue,
                Action::StoreTotalNumberOfCrates(n) => *final(self) == (App {
                    search: SearchPage { total_num_crates: Some(n), ..old(self).search },
                    ..*old(self)
                }) && effects@.len() == 0,
                Action::ClearTaskDetailsHandle(id) => final(self).search.detail_tasks.live()
                    == old(self).search.detail_tasks.live().remove(id) && final(self).search.crate_response == old(self).search.crate_response && final(self).queue
                    == old(self).queue,
                Action::StoreCrateDetails { id, name } => final(self).search.crate_response
                    == accept_detail(
                    old(self).search.crate_response,
                    old(self).search.detail_tasks.live(),
                    id,
                    name,
                ) && final(self).search.detail_tasks == old(self).search.detail_tasks
                    && final(self).queue == old(self).queue,
                Action::StoreFullCrateDetails { id, name } => final(self).search.full_crate_info
                    == accept_detail(
                    old(self).search.full_crate_info,
                    old(self).search.detail_tasks.live(),
                    id,
                    name,
                ) && final(self).search.detail_tasks == old(self).search.detail_tasks
                    && final(self).queue == old(self).queue,
                Action::UpdateCurrentSelectionCrateInfo => (match old(self).search.results.selected_name() {
                    Some(name) => exists|id: u128|
                        !old(self).search.detail_tasks.live().contains(id)
                            && final(self).search.detail_tasks.live() == set![id] && effects@.len() > 0
                            && effects@.last() == (Effect::FetchCrateDetails { id, name }),
                    None => final(self).search.detail_tasks.live() == Set::<u128>::empty(),
                }) && final(self).search.crate_response is None && final(self).queue == old(self).queue,
                Action::ShowFullCrateInfo => (match old(self).search.results.selected_name() {
                    Some(name) => exists|id: u128|
                        !old(self).search.detail_tasks.live().contains(id)
                            && final(self).search.detail_tasks.live() == set![id] && effects@.len() > 0
                            && effects@.last() == (Effect::FetchFullCrateDetails { id, name }),
                    None => final(self).search.detail_tasks.live() == Set::<u128>::empty(),
                }) && final(self).search.full_crate_info is None && final(self).queue == old(self).queue,
                Action::ScrollUp => scrolled_up(*old(self), *final(self)),
                Action::ScrollDown => scrolled_down(*old(self), *final(self)),
                Action::ScrollTop => final(self).search.results.selected == (if old(
                    self,
                ).search.results.crates@.len() == 0 {
                    None
                } else {
                    Some(0usize)
                }),
                Action::ScrollBottom => sel_int(final(self).search.results.selected) == (if old(
                    self,
                ).search.results.crates@.len() == 0 {
                    None
                } else {
                    Some(old(self).search.results.crates@.len() - 1)
                }),
                Action::ScrollSearchResultsUp => sel_int(final(self).search.results.selected)
                    == previous_selection(
                    old(self).search.results.selected,
                    old(self).search.results.crates@.len(),
                    1,
                ) && final(self).queue == old(self).queue,
                Action::ScrollSearchResultsDown => sel_int(final(self).search.results.selected)
                    == next_selection(
                    old(self).search.results.selected,
                    old(self).search.results.crates@.len(),
                    1,
                ) && final(self).queue == old(self).queue,
                Action::ScrollCrateInfoUp => final(self).crate_info_selected == Some(
                    row_up(old(self).crate_info_selected),
                ) && final(self).queue == old(self).queue,
                Action::ScrollCrateInfoDown => final(self).crate_info_selected == Some(
                    row_down(old(self).crate_info_selected),
                ) && final(self).queue == old(self).queue,
                Action::StoreSearchResults { id, crates, total } => if old(self).search.search_task
                    == Some(id) {
                    final(self).search.crates == crates && final(self).search.search_task is None
                        && exists|message: String|
                        message@ == no_results_message(old(self).search.search@) && final(self).queue@
                            == old(self).queue@ + results_follow_ups(crates@, total, message)
                } else {
                    *final(self) == *old(self)
                },
                Action::Tick => final(self).search.results.crates@ == filter_items(
                    old(self).search.crates@,
                    words_of(old(self).search.filter@),
                ) && final(self).queue == old(self).queue,
                Action::ToggleSortBy { reload, forward } => final(self).search.sort == if forward {
                    old(self).search.sort.spec_next()
                } else {
                    old(self).search.sort.spec_previous()
                } && final(self).queue@ == if reload {
                    old(self).queue@.push(Action::ReloadData)
                } else {
                    old(self).queue@
                },
                Action::Init { query } => match query {
                    Some(q) => final(self).search.search == q && final(self).queue@
                        == old(self).queue@.push(Action::SwitchMode(Mode::Search)).push(
                        Action::SubmitSearch,
                    ) && effects@.len() == 0,
                    None => final(self).summary_loading && effects@ == seq![Effect::FetchSummary]
                        && final(self).queue == old(self).queue && final(self).search == old(self).search,
                },
                Action::Render => effects@ == seq![Effect::Draw] && final(self).queue == old(self).queue && final(self).mode == old(self).mode,
                Action::Resize(_, _) => effects@ == seq![Effect::Draw] && final(self).queue == old(self).queue && final(self).mode == old(self).mode,
                Action::UpdateSearchTableResults => final(self).search.results.crates@
                    == filter_items(old(self).search.crates@, words_of(old(self).search.filter@))
                    && final(self).queue == old(self).queue,
                Action::NextTab | Action::PreviousTab => (final(self).mode, final(self).last_mode)
                    == switch_target(
                    old(self).mode,
                    old(self).last_mode,
                    if old(self).mode == Mode::Summary {
                        Mode::Search
                    } else {
                        Mode::Summary
                    },
                ) && final(self).queue == old(self).queue,
                Action::NextSummaryMode => final(self).summary.mode == old(self).summary.mode.spec_next() && final(self).queue == old(self).queue,
                Action::PreviousSummaryMode => final(self).summary.mode == old(self).summary.mode.spec_previous() && final(self).queue == old(self).queue,
                Action::ToggleShowCrateInfo => final(self).search.mode == match old(self).search.mode {
                    SearchMode::ResultsShowCrate => SearchMode::ResultsHideCrate,
                    SearchMode::ResultsHideCrate => SearchMode::ResultsShowCrate,
                    m => m,
                } && final(self).queue == old(self).queue && (final(self).search.mode
                    == SearchMode::ResultsShowCrate ==> match old(self).search.results.selected_name() {
                    Some(name) => exists|id: u128|
                        !old(self).search.detail_tasks.live().contains(id)
                            && final(self).search.detail_tasks.live() == old(self).search.detail_tasks.live().insert(id)
                            && effects@ == seq![(Effect::FetchCrateDetails { id, name })],
                    None => final(self).search.detail_tasks == old(self).search.detail_tasks
                        && effects@.len() == 0,
                }),
                Action::StoreSummary(data) => final(self).summary.summary_data == Some(data)
                    && !final(self).summary_loading && final(self).queue == old(self).queue,
                Action::SummaryFailed(message) => !final(self).summary_loading && final(self).queue@ == old(self).queue@.push(Action::ShowErrorPopup(message)),
                Action::SearchFailed { id, message } => if old(self).search.search_task == Some(id) {
                    final(self).search.search_task is None && final(self).queue@ == old(self).queue@.push(
                        Action::ShowErrorPopup(message),
                    ).push(Action::UpdateSearchTableResults)
                } else {
                    *final(self) == *old(self)
                },
                Action::CopyCargoAddCommandToClipboard => match old(self).search.crate_response {
                    Some(d) => final(self).queue == old(self).queue && effects@.len() == 1
                        && (effects@[0] matches Effect::CopyToClipboard(t) && t@ == "cargo add "@
                        + d.name@),
                    None => effects@.len() == 0 && final(self).queue@.len() == old(self).queue@.len()
                        + 1 && final(self).queue@.last() is ShowErrorPopup,
                },
                Action::OpenDocsUrlInBrowser => final(self).queue == old(self).queue && match old(self).search.crate_response {
                    Some(d) => effects@.len() == 1 && (effects@[0] matches Effect::OpenUrl(u) && u@
                        == "https://docs.rs/"@ + d.name@ + "/latest"@),
                    None => effects@.len() == 0,
                },
                Action::OpenCratesIOUrlInBrowser => if old(self).mode == Mode::Summary {
                    match old(self).summary.spec_url() {
                        Some(u) => effects@.len() == 1 && final(self).queue == old(self).queue && (effects@[0] matches Effect::OpenUrl(v)
                            && v@ == u),
                        None => effects@.len() == 0 && final(self).queue@.len() == old(self).queue@.len() + 1 && final(self).queue@.last() is ShowErrorPopup,
                    }
                } else {
                    final(self).queue == old(self).queue && match old(self).search.crate_response {
                        Some(d) => effects@.len() == 1 && (effects@[0] matches Effect::OpenUrl(u)
                            && u@ == "https://crates.io/crates/"@ + d.name@),
                        None => effects@.len() == 0,
                    }
                },
                _ => true,
            },
            is_scroll(action) ==> final(self).mode == old(self).mode && final(self).queue@ == if final(self).mode.is_prompt() || final(self).mode.is_picker() {
                old(self).queue@.push(Action::UpdateCurrentSelectionCrateInfo)
            } else {
                old(self).queue@
            },
    {
        let mut effects: Vec<Effect> = Vec::new();
        let is_submit = matches!(action, Action::SubmitSearch);
        let scroll = matches!(
            action,
            Action::ScrollUp | Action::ScrollDown | Action::ScrollTop | Action::ScrollBottom
        );
        match action {
            Action::Quit => {
                self.mode = Mode::Quit;
            },
            Action::KeyRefresh => self.keys.refresh(),
            Action::Init { query } => match query {
                Some(q) => {
                    self.search.search = q;
                    self.queue.push(Action::SwitchMode(Mode::Search));
                    self.queue.push(Action::SubmitSearch);
                },
                None => {
                    self.summary_loading = true;
                    effects.push(Effect::FetchSummary);
                },
            },
            Action::Tick => self.search.update_search_table_results(),
            Action::Render | Action::Resize(_, _) => effects.push(Effect::Draw),
            Action::StoreTotalNumberOfCrates(n) => {
                self.search.total_num_crates = Some(n);
            },
            Action::ScrollUp => self.scroll_up(),
            Action::ScrollDown => self.scroll_down(),
            Action::ScrollTop => self.search.results.scroll_to_top(),
            Action::ScrollBottom => self.search.results.scroll_to_bottom(),
            Action::ScrollSearchResultsUp => self.search.scroll_up(),
            Action::ScrollSearchResultsDown => self.search.scroll_down(),
            Action::ScrollCrateInfoUp => {
                self.crate_info_selected = Some(
                    match self.crate_info_selected {
                        Some(i) => i.saturating_sub(1),
                        None => 0,
                    },
                );
            },
            Action::ScrollCrateInfoDown => {
                self.crate_info_selected = Some(
                    match self.crate_info_selected {
                        Some(i) => i.saturating_add(1),
                        None => 0,
                    },
                );
            },
            Action::ReloadData => self.search.reload_data(&mut effects),
            Action::IncrementPage => self.search.increment_page(&mut effects),
            Action::DecrementPage => self.search.decrement_page(&mut effects),
            Action::NextSummaryMode => self.summary.next_mode(),
            Action::PreviousSummaryMode => self.summary.previous_mode(),
            Action::NextTab | Action::PreviousTab => self.goto_next_tab(),
            Action::SwitchMode(m) => self.switch_mode(m),
            Action::SwitchToLastMode => {
                let m = self.last_mode;
                self.switch_mode(m);
            },
            Action::SubmitSearch => {
                self.search.submit_query(&mut effects);
                self.switch_mode(Mode::PickerHideCrateInfo);
            },
            Action::ToggleShowCrateInfo => self.search.toggle_show_crate_info(&mut effects),
            Action::UpdateCurrentSelectionCrateInfo => self.update_current_selection_crate_info(
                &mut effects,
            ),
            Action::UpdateSearchTableResults => self.search.update_search_table_results(),
            Action::ShowFullCrateInfo => self.show_full_crate_details(&mut effects),
            Action::ShowErrorPopup(message) => {
                let title = <String as StringExecFns>::from_str("Error");
                self.show_popup(title, message);
            },
            Action::ShowInfoPopup(message) => {
                let title = <String as StringExecFns>::from_str("Info");
                self.show_popup(title, message);
            },
            Action::ClosePopup => self.close_popup(),
            Action::ToggleSortBy { reload, forward } => self.search.toggle_sort_by(
                reload,
                forward,
                &mut self.queue,
            ),
            Action::ClearTaskDetailsHandle(id) => self.search.clear_task_details_handle(
                id,
                &mut effects,
            ),
            Action::OpenDocsUrlInBrowser => {
                if let Some(d) = &self.search.crate_response {
                    let url = <String as StringExecFns>::from_str("https://docs.rs/").concat(
                        d.name.as_str(),
                    ).concat("/latest");
                    effects.push(Effect::OpenUrl(url));
                }
            },
            Action::OpenCratesIOUrlInBrowser => {
                if self.mode == Mode::Summary {
                    match self.summary.url() {
                        Some(url) => effects.push(Effect::OpenUrl(url)),
                        None => self.queue.push(
                            Action::ShowErrorPopup(
                                <String as StringExecFns>::from_str(
                                    "Unable to open URL in browser: No summary data loaded",
                                ),
                            ),
                        ),
                    }
                } else if let Some(d) = &self.search.crate_response {
                    let url = <String as StringExecFns>::from_str("https://crates.io/crates/").concat(
                        d.name.as_str(),
                    );
                    effects.push(Effect::OpenUrl(url));
                }
            },
            Action::CopyCargoAddCommandToClipboard => {
                match &self.search.crate_response {
                    Some(d) => {
                        let command = <String as StringExecFns>::from_str("cargo add ").concat(
                            d.name.as_str(),
                        );
                        effects.push(Effect::CopyToClipboard(command));
                    },
                    None => self.queue.push(
                        Action::ShowErrorPopup(
                            <String as StringExecFns>::from_str("No selection made to copy"),
                        ),
                    ),
                }
            },
            Action::StoreSearchResults { id, crates, total } => self.store_search_results(
                id,
                crates,
                total,
            ),
            Action::SearchFailed { id, message } => {
                let awaited = match self.search.search_task {
                    Some(t) => t == id,
                    None => false,
                };
                if awaited {
                    self.search.search_task = None;
                    self.queue.push(Action::ShowErrorPopup(message));
                    self.queue.push(Action::UpdateSearchTableResults);
                }
            },
            Action::StoreCrateDetails { id, name } => {
                self.search.store_crate_details(id, name);
            },
            Action::StoreFullCrateDetails { id, name } => {
                self.search.store_full_crate_details(id, name);
            },
            Action::StoreSummary(data) => {
                self.summary.summary_data = Some(data);
                self.summary_loading = false;
            },
            Action::SummaryFailed(message) => {
                self.summary_loading = false;
                self.queue.push(Action::ShowErrorPopup(message));
            },
            Action::Ignore | Action::UpdateSummary => {},
        }
        if scroll && (self.mode.is_prompt() || self.mode.is_picker()) {
            self.queue.push(Action::UpdateCurrentSelectionCrateInfo);
        } else if is_submit {
            self.queue.push(Action::ReloadData);
        }
        effects
    }
}

} // verus!
