use vstd::prelude::*;

use crate::action::{Action, Effect};
use crate::data::{CrateItem, SortBy};
use crate::results::{filter_crates, filter_items, SearchResultsTable};
use crate::tasks::{new_task_id, TaskRegistry};
use crate::text::words_of;

verus! {

/// What the search page shows: a prompt or the result list, with or without
/// the detail panel.
#[derive(Clone, Copy, Debug, PartialEq, Eq, Structural, Hash)]
pub enum SearchMode {
    Search,
    Filter,
    ResultsHideCrate,
    ResultsShowCrate,
}

impl SearchMode {
    /// Whether the prompt has the focus.
    pub fn is_focused(&self) -> (r: bool)
        ensures
            r == (*self == SearchMode::Search || *self == SearchMode::Filter),
    {
        matches!(self, SearchMode::Search | SearchMode::Filter)
    }

    /// Shows or hides the detail panel of the result list; the prompt modes stay.
    pub fn toggle_show_crate_info(&mut self)
        ensures
            *final(self) == match *old(self) {
                SearchMode::ResultsShowCrate => SearchMode::ResultsHideCrate,
                SearchMode::ResultsHideCrate => SearchMode::ResultsShowCrate,
                m => m,
            },
    {
        *self = match *self {
            SearchMode::ResultsShowCrate => SearchMode::ResultsHideCrate,
            SearchMode::ResultsHideCrate => SearchMode::ResultsShowCrate,
            m => m,
        };
    }

    /// Whether the detail panel is shown.
    pub fn should_show_crate_info(&self) -> (r: bool)
        ensures
            r == (*self == SearchMode::ResultsShowCrate),
    {
        matches!(self, SearchMode::ResultsShowCrate)
    }
}

/// A detail record that was accepted for display: the fetch it came from and
/// the crate it describes.
#[derive(Clone, Debug, PartialEq, Eq)]
pub struct CrateDetail {
    pub task: u128,
    pub name: String,
}

/// The detail shown after fetch `id` delivers the record of `name`, given the
/// registered fetches: a registered fetch's record replaces the shown one, any
/// other delivery changes nothing.
pub open spec fn accept_detail(shown: Option<CrateDetail>, live: Set<u128>, id: u128, name: String) -> Option<CrateDetail> {
    if live.contains(id) {
        Some(CrateDetail { task: id, name })
    } else {
        shown
    }
}

/// Once a fetch for `y` has replaced every earlier detail fetch, so that only
/// `y` is registered, a delivery from an earlier fetch `x` changes nothing, and
/// in either order of delivery the record shown in the end is `y`'s.
pub proof fn lemma_single_authoritative_detail(
    shown: Option<CrateDetail>,
    x: u128,
    x_name: String,
    y: u128,
    y_name: String,
)
    requires
        x != y,
    ensures
        accept_detail(shown, set![y], x, x_name) == shown,
        accept_detail(accept_detail(shown, set![y], x, x_name), set![y], y, y_name) == Some(
            CrateDetail { task: y, name: y_name },
        ),
        accept_detail(accept_detail(shown, set![y], y, y_name), set![y], x, x_name) == Some(
            CrateDetail { task: y, name: y_name },
        ),
{
}

/// The last page, `ceil(total / page_size)`.
pub open spec fn max_page(total: u64, page_size: u64) -> int
    recommends
        page_size > 0,
{
    (total as int + page_size as int - 1) / (page_size as int)
}

/// The last page computed without overflow: whole pages, plus one for a rest.
proof fn lemma_ceil_div(n: u64, ps: u64)
    requires
        ps > 0,
    ensures
        max_page(n, ps) == n as int / ps as int + if n as int % ps as int != 0 {
            1int
        } else {
            0int
        },
        (n as int / ps as int) <= n,
        max_page(n, ps) <= n,
{
    let d = ps as int;
    let q = n as int / d;
    let r = n as int % d;
    vstd::arithmetic::div_mod::lemma_fundamental_div_mod(n as int, d);
    vstd::arithmetic::div_mod::lemma_mod_bound(n as int, d);
    assert(n as int == q * d + r) by (nonlinear_arith)
        requires
            n as int == d * q + r,
    ;
    if r == 0 {
        vstd::arithmetic::div_mod::lemma_fundamental_div_mod_converse_div(n as int + d - 1, d, q, d - 1);
    } else {
        assert(n as int + d - 1 == (q + 1) * d + (r - 1)) by (nonlinear_arith)
            requires
                n as int == q * d + r,
        ;
        vstd::arithmetic::div_mod::lemma_fundamental_div_mod_converse_div(n as int + d - 1, d, q + 1, r - 1);
        assert(q * d >= q) by (nonlinear_arith)
            requires
                d >= 1,
                q >= 0,
        ;
    }
    vstd::arithmetic::div_mod::lemma_div_is_ordered_by_denominator(n as int, 1, d);
    assert(n as int / 1 == n as int);
}

/// The page after a step forward: it moves only while below the last page,
/// and not at all while the total is unknown.
pub open spec fn page_after_increment(page: u64, total: Option<u64>, page_size: u64) -> u64 {
    match total {
        Some(n) => if (page as int) < max_page(n, page_size) {
            (page + 1) as u64
        } else {
            page
        },
        None => page,
    }
}

/// The page after a step back: it never goes below 1.
pub open spec fn page_after_decrement(page: u64) -> u64 {
    if page > 1 {
        (page - 1) as u64
    } else {
        page
    }
}

/// Paging keeps the page within `[1, max(1, ceil(total / page_size))]`.
pub proof fn lemma_paging_clamps(page: u64, total: u64, page_size: u64)
    requires
        page_size > 0,
        1 <= page,
        page as int <= max_page(total, page_size) || page == 1,
    ensures
        1 <= page_after_increment(page, Some(total), page_size),
        page_after_increment(page, Some(total), page_size) as int <= max_page(total, page_size)
            || page_after_increment(page, Some(total), page_size) == 1,
        1 <= page_after_decrement(page),
        page_after_decrement(page) as int <= max_page(total, page_size) || page_after_decrement(
            page,
        ) == 1,
        page_after_increment(page, None, page_size) == page,
        total == 0 ==> page_after_increment(page, Some(total), page_size) == page,
{
    lemma_ceil_div(total, page_size);
}

/// The search page: query, filter, prompt text, paging, the fetched page of
/// results and the list shown, the accepted detail records and the detail
/// fetches in flight.
#[derive(Clone, Debug)]
pub struct SearchPage {
    pub mode: SearchMode,
    pub search: String,
    pub filter: String,
    pub input: String,
    pub results: SearchResultsTable,
    pub page: u64,
    pub page_size: u64,
    pub sort: SortBy,
    pub total_num_crates: Option<u64>,
    pub crates: Vec<CrateItem>,
    pub crate_response: Option<CrateDetail>,
    pub full_crate_info: Option<CrateDetail>,
    pub detail_tasks: TaskRegistry,
    /// The search fetch whose results are awaited, if any: only its delivery
    /// is taken, so a superseded search cannot overwrite a newer one.
    pub search_task: Option<u128>,
}

/// The page as a search request.
pub open spec fn search_request(p: SearchPage, id: u128) -> Effect {
    Effect::FetchSearch { id, search: p.search, page: p.page, page_size: p.page_size, sort: p.sort }
}

/// The request for a detail fetch under `id`.
pub open spec fn detail_request(id: u128, name: String, full: bool) -> Effect {
    if full {
        Effect::FetchFullCrateDetails { id, name }
    } else {
        Effect::FetchCrateDetails { id, name }
    }
}

/// The abort requests for a set of tasks, one per task.
pub open spec fn aborts_of(ids: Seq<u128>) -> Seq<Effect> {
    ids.map_values(|id: u128| Effect::Abort(id))
}

impl SearchPage {
    pub open spec fn wf(self) -> bool {
        self.page_size > 0 && self.page >= 1
    }

    pub fn new() -> (r: SearchPage)
        ensures
            r.wf(),
            r.mode == SearchMode::Search,
            r.search@.len() == 0,
            r.filter@.len() == 0,
            r.input@.len() == 0,
            r.page == 1,
            r.page_size == 25,
            r.sort == SortBy::Relevance,
            r.total_num_crates is None,
            r.crates@.len() == 0,
            r.results.crates@.len() == 0,
            r.results.selected is None,
            r.crate_response is None,
            r.full_crate_info is None,
            r.detail_tasks.live() == Set::<u128>::empty(),
            r.search_task is None,
    {
        SearchPage {
            mode: SearchMode::Search,
            search: String::new(),
            filter: String::new(),
            input: String::new(),
            results: SearchResultsTable::new(),
            page: 1,
            page_size: 25,
            sort: SortBy::Relevance,
            total_num_crates: None,
            crates: Vec::new(),
            crate_response: None,
            full_crate_info: None,
            detail_tasks: TaskRegistry::new(),
            search_task: None,
        }
    }

    /// Whether a fetch of this page is in flight.
    pub fn loading(&self) -> (r: bool)
        ensures
            r == (self.search_task is Some || self.detail_tasks.live() != Set::<u128>::empty()),
    {
        self.search_task.is_some() || !self.detail_tasks.is_empty()
    }

    /// Refilters the fetched page with the current filter.
    pub fn update_search_table_results(&mut self)
        ensures
            final(self).results.crates@ == filter_items(old(self).crates@, words_of(old(self).filter@)),
            final(self).results.selected == old(self).results.selected,
            final(self).crates == old(self).crates,
            final(self).filter == old(self).filter,
            final(self).page == old(self).page,
            final(self).page_size == old(self).page_size,
            final(self).detail_tasks == old(self).detail_tasks,
            final(self).search_task == old(self).search_task,
            final(self).mode == old(self).mode,
    {
        self.results.crates = filter_crates(&self.crates, self.filter.as_str());
    }

    /// Moves the selection up one row.
    pub fn scroll_up(&mut self)
        ensures
            *final(self) == (SearchPage { results: final(self).results, ..*old(self) }),
            final(self).results.crates == old(self).results.crates,
            crate::results::sel_int(final(self).results.selected) == crate::results::previous_selection(
                old(self).results.selected,
                old(self).results.crates@.len(),
                1,
            ),
    {
        self.results.scroll_previous(1);
    }

    /// Moves the selection down one row.
    pub fn scroll_down(&mut self)
        ensures
            *final(self) == (SearchPage { results: final(self).results, ..*old(self) }),
            final(self).results.crates == old(self).results.crates,
            crate::results::sel_int(final(self).results.selected) == crate::results::next_selection(
                old(self).results.selected,
                old(self).results.crates@.len(),
                1,
            ),
    {
        self.results.scroll_next(1);
    }

    /// Takes the prompt text as the filter and drops the selection.
    pub fn handle_filter_prompt_change(&mut self)
        ensures
            *final(self) == (SearchPage { results: final(self).results, filter: final(self).filter, ..*old(self) }),
            final(self).filter == old(self).input,
            final(self).input == old(self).input,
            final(self).results.selected is None,
            final(self).results.crates == old(self).results.crates,
    {
        self.filter = self.input.clone();
        self.results.select(None);
    }

    /// Asks for the current page of results: the list is cleared of its
    /// selection, the detail records are dropped, and a search is requested.
    pub fn reload_data(&mut self, out: &mut Vec<Effect>)
        ensures
            final(self).search_task matches Some(id) && old(self).search_task != Some(id)
                && final(out)@ == old(out)@.push(search_request(*old(self), id)),
            final(self).results.selected is None,
            final(self).crate_response is None,
            final(self).full_crate_info is None,
            final(self).search == old(self).search,
            final(self).filter == old(self).filter,
            final(self).page == old(self).page,
            final(self).page_size == old(self).page_size,
            final(self).sort == old(self).sort,
            final(self).total_num_crates == old(self).total_num_crates,
            final(self).detail_tasks == old(self).detail_tasks,
            final(self).mode == old(self).mode,
            final(self).input == old(self).input,
            final(self).crates == old(self).crates,
            final(self).results.crates == old(self).results.crates,
    {
        self.prepare_reload();
        let drawn = new_task_id();
        let id = match self.search_task {
            Some(current) => if current == drawn {
                drawn.wrapping_add(1)
            } else {
                drawn
            },
            None => drawn,
        };
        out.push(
            Effect::FetchSearch {
                id,
                search: self.search.clone(),
                page: self.page,
                page_size: self.page_size,
                sort: self.sort,
            },
        );
        self.search_task = Some(id);
    }

    /// Drops the selection and the detail records before new data arrives.
    pub fn prepare_reload(&mut self)
        ensures
            final(self).results.selected is None,
            final(self).crate_response is None,
            final(self).full_crate_info is None,
            final(self).results.crates == old(self).results.crates,
            final(self).search == old(self).search,
            final(self).filter == old(self).filter,
            final(self).page == old(self).page,
            final(self).page_size == old(self).page_size,
            final(self).sort == old(self).sort,
            final(self).total_num_crates == old(self).total_num_crates,
            final(self).detail_tasks == old(self).detail_tasks,
            final(self).mode == old(self).mode,
            final(self).input == old(self).input,
            final(self).crates == old(self).crates,
            final(self).search_task == old(self).search_task,
    {
        self.results.select(None);
        self.full_crate_info = None;
        self.crate_response = None;
    }

    /// One page forward, and a reload, while below the last page.
    pub fn increment_page(&mut self, out: &mut Vec<Effect>)
        requires
            old(self).wf(),
        ensures
            final(self).wf(),
            final(self).page == page_after_increment(
                old(self).page,
                old(self).total_num_crates,
                old(self).page_size,
            ),
            final(self).page != old(self).page ==> (final(self).search_task matches Some(id)
                && final(out)@ == old(out)@.push(search_request(*final(self), id))),
            final(self).total_num_crates == old(self).total_num_crates,
            final(self).page_size == old(self).page_size,
            final(self).page == old(self).page ==> final(out)@ == old(out)@ && *final(self)
                == *old(self),
    {
        if let Some(n) = self.total_num_crates {
            proof {
                lemma_ceil_div(n, self.page_size);
            }
            let last = n / self.page_size + if n % self.page_size != 0 {
                1u64
            } else {
                0u64
            };
            if self.page < last {
                self.page = self.page + 1;
                self.reload_data(out);
            }
        }
    }

    /// One page back, and a reload, while above the first page.
    pub fn decrement_page(&mut self, out: &mut Vec<Effect>)
        requires
            old(self).wf(),
        ensures
            final(self).wf(),
            final(self).page == page_after_decrement(old(self).page),
            final(self).page != old(self).page ==> (final(self).search_task matches Some(id)
                && final(out)@ == old(out)@.push(search_request(*final(self), id))),
            final(self).total_num_crates == old(self).total_num_crates,
            final(self).page_size == old(self).page_size,
            final(self).page == old(self).page ==> final(out)@ == old(out)@ && *final(self)
                == *old(self),
    {
        if self.page > 1 {
            self.page = self.page - 1;
            self.reload_data(out);
        }
    }

    /// A detail fetch reports that it finished: it is forgotten, and its
    /// handle dropped if it was still registered.
    pub fn clear_task_details_handle(&mut self, id: u128, out: &mut Vec<Effect>)
        ensures
            final(self).detail_tasks.live() == old(self).detail_tasks.live().remove(id),
            final(out)@ == if old(self).detail_tasks.live().contains(id) {
                old(out)@.push(Effect::Abort(id))
            } else {
                old(out)@
            },
            final(self).crate_response == old(self).crate_response,
            final(self).full_crate_info == old(self).full_crate_info,
            final(self).search_task == old(self).search_task,
            final(self).page == old(self).page,
            final(self).page_size == old(self).page_size,
    {
        if self.detail_tasks.remove(id) {
            out.push(Effect::Abort(id));
        }
    }

    /// Cancels every detail fetch in flight and drops the detail records, so
    /// that the page shows no detail rather than a stale one, and no superseded
    /// fetch can deliver into it.
    pub fn clear_all_previous_task_details_handles(&mut self, out: &mut Vec<Effect>)
        ensures
            final(self).detail_tasks.live() == Set::<u128>::empty(),
            final(self).full_crate_info is None,
            final(self).crate_response is None,
            exists|ids: Seq<u128>|
                ids.to_set() == old(self).detail_tasks.live() && final(out)@ == old(out)@ + aborts_of(
                    ids,
                ),
            final(self).search == old(self).search,
            final(self).filter == old(self).filter,
            final(self).input == old(self).input,
            final(self).page == old(self).page,
            final(self).page_size == old(self).page_size,
            final(self).sort == old(self).sort,
            final(self).total_num_crates == old(self).total_num_crates,
            final(self).mode == old(self).mode,
            final(self).crates == old(self).crates,
            final(self).results == old(self).results,
            final(self).search_task == old(self).search_task,
    {
        self.full_crate_info = None;
        self.crate_response = None;
        let ids = self.detail_tasks.cancel_all();
        let ghost start = out@;
        let mut i: usize = 0;
        while i < ids.len()
            invariant
                i <= ids@.len(),
                out@ == start + aborts_of(ids@.take(i as int)),
            decreases ids@.len() - i,
        {
            out.push(Effect::Abort(ids[i]));
            i += 1;
            assert(aborts_of(ids@.take(i as int)) =~= aborts_of(ids@.take(i - 1)).push(
                Effect::Abort(ids@[i - 1]),
            ));
        }
        assert(ids@.take(i as int) =~= ids@);
    }

    /// Takes the prompt text as the query, clears the filter and cancels the
    /// detail fetches in flight.
    pub fn submit_query(&mut self, out: &mut Vec<Effect>)
        ensures
            final(self).search == old(self).input,
            final(self).filter@.len() == 0,
            final(self).detail_tasks.live() == Set::<u128>::empty(),
            final(self).full_crate_info is None,
            final(self).crate_response is None,
            final(self).results == old(self).results,
            exists|ids: Seq<u128>|
                ids.to_set() == old(self).detail_tasks.live() && final(out)@ == old(out)@ + aborts_of(
                    ids,
                ),
            final(self).input == old(self).input,
            final(self).page == old(self).page,
            final(self).page_size == old(self).page_size,
            final(self).sort == old(self).sort,
            final(self).mode == old(self).mode,
            final(self).search_task == old(self).search_task,
            final(self).crates == old(self).crates,
            final(self).total_num_crates == old(self).total_num_crates,
    {
        self.clear_all_previous_task_details_handles(out);
        self.filter = String::new();
        self.search = self.input.clone();
    }

    /// An id for a new detail fetch: a random draw, replaced by a free number
    /// in the rare case that a registered fetch has it already.
    pub fn next_detail_id(&self) -> (r: u128)
        ensures
            !self.detail_tasks.live().contains(r),
    {
        self.detail_tasks.fresh_id(new_task_id())
    }

    /// Starts a fetch of the selected item's record (the full one if `full`)
    /// under `id`, if the list is not empty and a named item is selected.
    pub fn start_detail_fetch(&mut self, id: u128, full: bool, out: &mut Vec<Effect>)
        ensures
            match old(self).results.selected_name() {
                Some(name) => final(self).detail_tasks.live() == old(self).detail_tasks.live().insert(id)
                    && final(out)@ == old(out)@.push(detail_request(id, name, full)),
                None => final(self).detail_tasks == old(self).detail_tasks && final(out)@ == old(out)@,
            },
            *final(self) == (SearchPage { detail_tasks: final(self).detail_tasks, ..*old(self) }),
    {
        if self.results.crates.len() == 0 {
            return;
        }
        if let Some(name) = self.results.selected_crate_name() {
            self.detail_tasks.register(id);
            if full {
                out.push(Effect::FetchFullCrateDetails { id, name });
            } else {
                out.push(Effect::FetchCrateDetails { id, name });
            }
        }
    }

    /// Starts a detail fetch for the selected item, if the list is not empty
    /// and a named item is selected; the fetch is registered under an id that
    /// no registered fetch has.
    pub fn request_crate_details(&mut self, out: &mut Vec<Effect>)
        ensures
            match old(self).results.selected_name() {
                Some(name) => exists|id: u128|
                    !old(self).detail_tasks.live().contains(id)
                        && final(self).detail_tasks.live() == old(self).detail_tasks.live().insert(id)
                        && final(out)@ == old(out)@.push(Effect::FetchCrateDetails { id, name }),
                None => final(self).detail_tasks == old(self).detail_tasks && final(out)@ == old(out)@,
            },
            *final(self) == (SearchPage { detail_tasks: final(self).detail_tasks, ..*old(self) }),
    {
        let id = self.next_detail_id();
        self.start_detail_fetch(id, false, out);
    }

    /// As `request_crate_details`, for the full record.
    pub fn request_full_crate_details(&mut self, out: &mut Vec<Effect>)
        ensures
            match old(self).results.selected_name() {
                Some(name) => exists|id: u128|
                    !old(self).detail_tasks.live().contains(id)
                        && final(self).detail_tasks.live() == old(self).detail_tasks.live().insert(id)
                        && final(out)@ == old(out)@.push(Effect::FetchFullCrateDetails { id, name }),
                None => final(self).detail_tasks == old(self).detail_tasks && final(out)@ == old(out)@,
            },
            *final(self) == (SearchPage { detail_tasks: final(self).detail_tasks, ..*old(self) }),
    {
        let id = self.next_detail_id();
        self.start_detail_fetch(id, true, out);
    }

    /// A detail record arrives from fetch `id`: it is shown only if that
    /// fetch is still registered; a superseded fetch changes nothing.
    pub fn store_crate_details(&mut self, id: u128, name: String) -> (r: bool)
        ensures
            r == old(self).detail_tasks.live().contains(id),
            final(self).crate_response == accept_detail(
                old(self).crate_response,
                old(self).detail_tasks.live(),
                id,
                name,
            ),
            final(self).full_crate_info == old(self).full_crate_info,
            final(self).detail_tasks == old(self).detail_tasks,
            final(self).search_task == old(self).search_task,
            final(self).page == old(self).page,
            final(self).page_size == old(self).page_size,
    {
        if self.detail_tasks.contains(id) {
            self.crate_response = Some(CrateDetail { task: id, name });
            true
        } else {
            false
        }
    }

    /// As `store_crate_details`, for the full record.
    pub fn store_full_crate_details(&mut self, id: u128, name: String) -> (r: bool)
        ensures
            r == old(self).detail_tasks.live().contains(id),
            final(self).full_crate_info == accept_detail(
                old(self).full_crate_info,
                old(self).detail_tasks.live(),
                id,
                name,
            ),
            final(self).crate_response == old(self).crate_response,
            final(self).detail_tasks == old(self).detail_tasks,
            final(self).search_task == old(self).search_task,
            final(self).page == old(self).page,
            final(self).page_size == old(self).page_size,
    {
        if self.detail_tasks.contains(id) {
            self.full_crate_info = Some(CrateDetail { task: id, name });
            true
        } else {
            false
        }
    }

    /// The position of the selected item among all results, counting from 1
    /// across pages; 0 when nothing is selected.
    pub fn selected_with_page_context(&self) -> (r: u64)
        requires
            self.wf(),
        ensures
            match self.results.selected {
                Some(n) => ((self.page - 1) * self.page_size + n + 1 <= u64::MAX) ==> r == (self.page
                    - 1) * self.page_size + n + 1,
                None => r == 0,
            },
    {
        match self.results.selected {
            Some(n) => {
                let a = (self.page - 1) as u128;
                let b = self.page_size as u128;
                assert(a * b <= 0xffff_ffff_ffff_fffe_0000_0000_0000_0001) by (nonlinear_arith)
                    requires
                        a <= 0xffff_ffff_ffff_ffff,
                        b <= 0xffff_ffff_ffff_ffff,
                {
                    assert(a * b <= 0xffff_ffff_ffff_ffff * b);
                    assert(0xffff_ffff_ffff_ffff * b <= 0xffff_ffff_ffff_ffff * 0xffff_ffff_ffff_ffffint);
                }
                let total = a * b + n as u128 + 1;
                if total <= u64::MAX as u128 {
                    total as u64
                } else {
                    u64::MAX
                }
            },
            None => 0,
        }
    }

    /// The last page for the known total, at least 1.
    pub fn max_page_number(&self) -> (r: u64)
        requires
            self.wf(),
        ensures
            r as int == if max_page(
                match self.total_num_crates {
                    Some(n) => n,
                    None => 0,
                },
                self.page_size,
            ) >= 1 {
                max_page(
                    match self.total_num_crates {
                        Some(n) => n,
                        None => 0,
                    },
                    self.page_size,
                )
            } else {
                1
            },
    {
        let n = match self.total_num_crates {
            Some(n) => n,
            None => 0,
        };
        proof {
            lemma_ceil_div(n, self.page_size);
        }
        let last = n / self.page_size + if n % self.page_size != 0 {
            1u64
        } else {
            0u64
        };
        if last >= 1 {
            last
        } else {
            1
        }
    }

    /// Selects the first row on leaving the prompt, if the list has rows and
    /// none is selected.
    pub fn enter_normal_mode(&mut self)
        ensures
            *final(self) == (SearchPage { results: final(self).results, ..*old(self) }),
            final(self).results.crates == old(self).results.crates,
            final(self).results.selected == if old(self).results.crates@.len() > 0
                && old(self).results.selected is None {
                Some(0usize)
            } else {
                old(self).results.selected
            },
    {
        if self.results.crates.len() > 0 && self.results.selected.is_none() {
            self.results.select(Some(0));
        }
    }

    /// Seeds the prompt with the query or the filter, as the mode asks.
    pub fn enter_insert_mode(&mut self)
        ensures
            *final(self) == (SearchPage { input: final(self).input, ..*old(self) }),
            final(self).input == match old(self).mode {
                SearchMode::Search => old(self).search,
                SearchMode::Filter => old(self).filter,
                _ => old(self).input,
            },
            final(self).search == old(self).search,
            final(self).filter == old(self).filter,
            final(self).mode == old(self).mode,
    {
        match self.mode {
            SearchMode::Search => {
                self.input = self.search.clone();
            },
            SearchMode::Filter => {
                self.input = self.filter.clone();
            },
            _ => {},
        }
    }

    /// Shows the detail panel and fetches the selected record, or hides it
    /// and cancels the detail fetches.
    pub fn toggle_show_crate_info(&mut self, out: &mut Vec<Effect>)
        ensures
            final(self).page == old(self).page && final(self).page_size == old(self).page_size,
            final(self).mode == match old(self).mode {
                SearchMode::ResultsShowCrate => SearchMode::ResultsHideCrate,
                SearchMode::ResultsHideCrate => SearchMode::ResultsShowCrate,
                m => m,
            },
            final(self).mode != SearchMode::ResultsShowCrate ==> final(self).detail_tasks.live()
                == Set::<u128>::empty(),
            final(self).mode == SearchMode::ResultsShowCrate ==> match old(self).results.selected_name() {
                Some(name) => exists|id: u128|
                    !old(self).detail_tasks.live().contains(id)
                        && final(self).detail_tasks.live() == old(self).detail_tasks.live().insert(id)
                        && final(out)@ == old(out)@.push(Effect::FetchCrateDetails { id, name }),
                None => final(self).detail_tasks == old(self).detail_tasks && final(out)@ == old(out)@,
            },
    {
        self.mode.toggle_show_crate_info();
        if self.mode.should_show_crate_info() {
            self.request_crate_details(out);
        } else {
            self.clear_all_previous_task_details_handles(out);
        }
    }

    /// Steps the sort order forward or back, and asks for a reload if told to.
    pub fn toggle_sort_by(&mut self, reload: bool, forward: bool, queue: &mut Vec<Action>)
        ensures
            *final(self) == (SearchPage { sort: final(self).sort, ..*old(self) }),
            final(self).sort == if forward {
                old(self).sort.spec_next()
            } else {
                old(self).sort.spec_previous()
            },
            final(queue)@ == if reload {
                old(queue)@.push(Action::ReloadData)
            } else {
                old(queue)@
            },
    {
        self.sort = if forward {
            self.sort.next()
        } else {
            self.sort.previous()
        };
        if reload {
            queue.push(Action::ReloadData);
        }
    }
}

impl SearchResultsTable {
    /// The name of the selected item, when the list has rows, a valid row is
    /// selected and the name is not empty.
    pub open spec fn selected_name(self) -> Option<String> {
        if self.crates@.len() == 0 {
            None
        } else {
            match self.selected {
                Some(i) => if i < self.crates@.len() && self.crates@[i as int].name@.len() > 0 {
                    Some(self.crates@[i as int].name)
                } else {
                    None
                },
                None => None,
            }
        }
    }
}

impl Default for SearchPage {
    fn default() -> (r: SearchPage)
        ensures
            r.wf(),
            r.page == 1,
            r.page_size == 25,
    {
        SearchPage::new()
    }
}

} // verus!
