use vstd::prelude::*;
use vstd::string::StringExecFns;

use crate::data::{text_of, SummaryData};

verus! {

/// The lists of the summary page, in display order.
#[derive(Clone, Copy, Debug, PartialEq, Eq, Structural, Hash)]
pub enum SummaryMode {
    NewCrates,
    MostDownloaded,
    JustUpdated,
    MostRecentlyDownloaded,
    PopularKeywords,
    PopularCategories,
}

/// The number of summary lists.
pub const SUMMARY_LISTS: usize = 6;

impl SummaryMode {
    /// Position of the list in display order.
    pub open spec fn spec_index(self) -> nat {
        match self {
            SummaryMode::NewCrates => 0,
            SummaryMode::MostDownloaded => 1,
            SummaryMode::JustUpdated => 2,
            SummaryMode::MostRecentlyDownloaded => 3,
            SummaryMode::PopularKeywords => 4,
            SummaryMode::PopularCategories => 5,
        }
    }

    pub fn index(self) -> (r: usize)
        ensures
            r == self.spec_index(),
            r < SUMMARY_LISTS,
    {
        match self {
            SummaryMode::NewCrates => 0,
            SummaryMode::MostDownloaded => 1,
            SummaryMode::JustUpdated => 2,
            SummaryMode::MostRecentlyDownloaded => 3,
            SummaryMode::PopularKeywords => 4,
            SummaryMode::PopularCategories => 5,
        }
    }

    /// The following list; the last list stays.
    pub open spec fn spec_next(self) -> SummaryMode {
        match self {
            SummaryMode::NewCrates => SummaryMode::MostDownloaded,
            SummaryMode::MostDownloaded => SummaryMode::JustUpdated,
            SummaryMode::JustUpdated => SummaryMode::MostRecentlyDownloaded,
            SummaryMode::MostRecentlyDownloaded => SummaryMode::PopularKeywords,
            SummaryMode::PopularKeywords => SummaryMode::PopularCategories,
            SummaryMode::PopularCategories => SummaryMode::PopularCategories,
        }
    }

    /// The preceding list; the first list stays.
    pub open spec fn spec_previous(self) -> SummaryMode {
        match self {
            SummaryMode::NewCrates => SummaryMode::NewCrates,
            SummaryMode::MostDownloaded => SummaryMode::NewCrates,
            SummaryMode::JustUpdated => SummaryMode::MostDownloaded,
            SummaryMode::MostRecentlyDownloaded => SummaryMode::JustUpdated,
            SummaryMode::PopularKeywords => SummaryMode::MostRecentlyDownloaded,
            SummaryMode::PopularCategories => SummaryMode::PopularKeywords,
        }
    }

    pub fn next(self) -> (r: SummaryMode)
        ensures
            r == self.spec_next(),
    {
        match self {
            SummaryMode::NewCrates => SummaryMode::MostDownloaded,
            SummaryMode::MostDownloaded => SummaryMode::JustUpdated,
            SummaryMode::JustUpdated => SummaryMode::MostRecentlyDownloaded,
            SummaryMode::MostRecentlyDownloaded => SummaryMode::PopularKeywords,
            SummaryMode::PopularKeywords => SummaryMode::PopularCategories,
            SummaryMode::PopularCategories => SummaryMode::PopularCategories,
        }
    }

    pub fn previous(self) -> (r: SummaryMode)
        ensures
            r == self.spec_previous(),
    {
        match self {
            SummaryMode::NewCrates => SummaryMode::NewCrates,
            SummaryMode::MostDownloaded => SummaryMode::NewCrates,
            SummaryMode::JustUpdated => SummaryMode::MostDownloaded,
            SummaryMode::MostRecentlyDownloaded => SummaryMode::JustUpdated,
            SummaryMode::PopularKeywords => SummaryMode::MostRecentlyDownloaded,
            SummaryMode::PopularCategories => SummaryMode::PopularKeywords,
        }
    }

    /// The start of the link to an entry of the list.
    pub open spec fn spec_url_prefix(self) -> Seq<char> {
        match self {
            SummaryMode::PopularKeywords => "https://crates.io/keywords/"@,
            SummaryMode::PopularCategories => "https://crates.io/categories/"@,
            _ => "https://crates.io/crates/"@,
        }
    }

    pub fn url_prefix(self) -> (r: String)
        ensures
            r@ == self.spec_url_prefix(),
    {
        match self {
            SummaryMode::PopularKeywords => <String as StringExecFns>::from_str(
                "https://crates.io/keywords/",
            ),
            SummaryMode::PopularCategories => <String as StringExecFns>::from_str(
                "https://crates.io/categories/",
            ),
            _ => <String as StringExecFns>::from_str("https://crates.io/crates/"),
        }
    }
}

/// The entries of the summary list that `mode` names.
pub open spec fn summary_list(d: SummaryData, mode: SummaryMode) -> Seq<String> {
    match mode {
        SummaryMode::NewCrates => d.new_crates@,
        SummaryMode::MostDownloaded => d.most_downloaded@,
        SummaryMode::JustUpdated => d.just_updated@,
        SummaryMode::MostRecentlyDownloaded => d.most_recently_downloaded@,
        SummaryMode::PopularKeywords => d.popular_keywords@,
        SummaryMode::PopularCategories => d.popular_categories@,
    }
}

/// The summary page: the lists, the active one, and the selected row of each.
/// Row 0 of each list is a blank line, so entry `i` is shown at row `i + 1`.
#[derive(Clone, Debug)]
pub struct Summary {
    pub state: Vec<Option<usize>>,
    pub last_selection: Vec<usize>,
    pub mode: SummaryMode,
    pub summary_data: Option<SummaryData>,
}

impl Summary {
    pub open spec fn wf(self) -> bool {
        self.state@.len() == SUMMARY_LISTS && self.last_selection@.len() == SUMMARY_LISTS
    }

    pub fn new() -> (r: Summary)
        ensures
            r.wf(),
            r.mode == SummaryMode::NewCrates,
            r.summary_data is None,
            forall|i: int| 0 <= i < SUMMARY_LISTS ==> #[trigger] r.state@[i] == None::<usize>
                && r.last_selection@[i] == 0,
    {
        let mut state: Vec<Option<usize>> = Vec::new();
        let mut last_selection: Vec<usize> = Vec::new();
        let mut i: usize = 0;
        while i < SUMMARY_LISTS
            invariant
                i <= SUMMARY_LISTS,
                state@.len() == i,
                last_selection@.len() == i,
                forall|j: int| 0 <= j < i ==> #[trigger] state@[j] == None::<usize> && last_selection@[j]
                    == 0,
            decreases SUMMARY_LISTS - i,
        {
            state.push(None);
            last_selection.push(0);
            i += 1;
        }
        Summary { state, last_selection, mode: SummaryMode::NewCrates, summary_data: None }
    }

    /// The active list.
    pub fn mode(&self) -> (r: SummaryMode)
        ensures
            r == self.mode,
    {
        self.mode
    }

    /// The selected row of a list.
    pub fn get_state(&self, mode: SummaryMode) -> (r: Option<usize>)
        requires
            self.wf(),
        ensures
            r == self.state@[mode.spec_index() as int],
    {
        self.state[mode.index()]
    }

    /// The selected row of a list, never the blank row 0.
    pub fn selected(&self, mode: SummaryMode) -> (r: Option<usize>)
        requires
            self.wf(),
        ensures
            r == (match self.state@[mode.spec_index() as int] {
                Some(i) => Some(if i < 1 { 1 } else { i }),
                None => None,
            }),
    {
        match self.state[mode.index()] {
            Some(i) => Some(if i < 1 { 1 } else { i }),
            None => None,
        }
    }

    /// Moves the selection of the active list up one row, stopping at row 0.
    pub fn scroll_previous(&mut self)
        requires
            old(self).wf(),
        ensures
            final(self).wf(),
            final(self).mode == old(self).mode,
            final(self).summary_data == old(self).summary_data,
            final(self).last_selection == old(self).last_selection,
            final(self).state@ == old(self).state@.update(
                old(self).mode.spec_index() as int,
                Some(
                    match old(self).state@[old(self).mode.spec_index() as int] {
                        Some(i) => if i > 0 {
                            (i - 1) as usize
                        } else {
                            0
                        },
                        None => 0,
                    },
                ),
            ),
    {
        let k = self.mode.index();
        let i = match self.state[k] {
            Some(i) => if i > 0 {
                i - 1
            } else {
                0
            },
            None => 0,
        };
        self.state.set(k, Some(i));
    }

    /// Moves the selection of the active list down one row.
    pub fn scroll_next(&mut self)
        requires
            old(self).wf(),
        ensures
            final(self).wf(),
            final(self).mode == old(self).mode,
            final(self).summary_data == old(self).summary_data,
            final(self).last_selection == old(self).last_selection,
            final(self).state@ == old(self).state@.update(
                old(self).mode.spec_index() as int,
                Some(
                    match old(self).state@[old(self).mode.spec_index() as int] {
                        Some(i) => if i < usize::MAX {
                            (i + 1) as usize
                        } else {
                            i
                        },
                        None => 0,
                    },
                ),
            ),
    {
        let k = self.mode.index();
        let i = match self.state[k] {
            Some(i) => i.saturating_add(1),
            None => 0,
        };
        self.state.set(k, Some(i));
    }

    /// Remembers the selected row of the active list, if any.
    pub fn save_state(&mut self)
        requires
            old(self).wf(),
        ensures
            final(self).wf(),
            final(self).mode == old(self).mode,
            final(self).summary_data == old(self).summary_data,
            final(self).state == old(self).state,
            final(self).last_selection@ == (match old(self).state@[old(self).mode.spec_index() as int] {
                Some(i) => old(self).last_selection@.update(old(self).mode.spec_index() as int, i),
                None => old(self).last_selection@,
            }),
    {
        let k = self.mode.index();
        if let Some(i) = self.state[k] {
            self.last_selection.set(k, i);
        }
    }

    /// Leaves the active list for `to`: the active list's row is remembered
    /// and cleared, and `to` gets back the row it last had.
    fn switch_list(&mut self, to: SummaryMode)
        requires
            old(self).wf(),
        ensures
            final(self).wf(),
            final(self).mode == to,
            final(self).summary_data == old(self).summary_data,
            final(self).last_selection@ == (match old(self).state@[old(self).mode.spec_index() as int] {
                Some(i) => old(self).last_selection@.update(old(self).mode.spec_index() as int, i),
                None => old(self).last_selection@,
            }),
            final(self).state@ == old(self).state@.update(old(self).mode.spec_index() as int, None).update(
                to.spec_index() as int,
                Some(final(self).last_selection@[to.spec_index() as int]),
            ),
    {
        self.save_state();
        let k = self.mode.index();
        self.state.set(k, None);
        self.mode = to;
        let j = to.index();
        let i = self.last_selection[j];
        self.state.set(j, Some(i));
    }

    /// Moves to the following list.
    pub fn next_mode(&mut self)
        requires
            old(self).wf(),
        ensures
            final(self).wf(),
            final(self).mode == old(self).mode.spec_next(),
            final(self).summary_data == old(self).summary_data,
            final(self).last_selection@ == (match old(self).state@[old(self).mode.spec_index() as int] {
                Some(i) => old(self).last_selection@.update(old(self).mode.spec_index() as int, i),
                None => old(self).last_selection@,
            }),
            final(self).state@ == old(self).state@.update(old(self).mode.spec_index() as int, None).update(
                final(self).mode.spec_index() as int,
                Some(final(self).last_selection@[final(self).mode.spec_index() as int]),
            ),
    {
        let to = self.mode.next();
        self.switch_list(to);
    }

    /// Moves to the preceding list.
    pub fn previous_mode(&mut self)
        requires
            old(self).wf(),
        ensures
            final(self).wf(),
            final(self).mode == old(self).mode.spec_previous(),
            final(self).summary_data == old(self).summary_data,
            final(self).last_selection@ == (match old(self).state@[old(self).mode.spec_index() as int] {
                Some(i) => old(self).last_selection@.update(old(self).mode.spec_index() as int, i),
                None => old(self).last_selection@,
            }),
            final(self).state@ == old(self).state@.update(old(self).mode.spec_index() as int, None).update(
                final(self).mode.spec_index() as int,
                Some(final(self).last_selection@[final(self).mode.spec_index() as int]),
            ),
    {
        let to = self.mode.previous();
        self.switch_list(to);
    }

    /// The index of the entry under the selected row of the active list.
    pub open spec fn entry_index(self) -> int {
        match self.state@[self.mode.spec_index() as int] {
            Some(i) => if i > 0 {
                i - 1
            } else {
                0
            },
            None => 0,
        }
    }

    /// The link to the selected entry of the active list; nothing when no
    /// data is loaded or the row is past the end of the list.
    pub open spec fn spec_url(self) -> Option<Seq<char>> {
        match self.summary_data {
            Some(d) => {
                let l = summary_list(d, self.mode);
                if 0 <= self.entry_index() < l.len() {
                    Some(self.mode.spec_url_prefix() + l[self.entry_index()]@)
                } else {
                    None
                }
            },
            None => None,
        }
    }

    /// The link to the selected entry of the active list.
    pub fn url(&self) -> (r: Option<String>)
        requires
            self.wf(),
        ensures
            text_of(r) == self.spec_url(),
    {
        match &self.summary_data {
            Some(d) => {
                let i = match self.state[self.mode.index()] {
                    Some(i) => if i > 0 {
                        i - 1
                    } else {
                        0
                    },
                    None => 0,
                };
                let list = match self.mode {
                    SummaryMode::NewCrates => &d.new_crates,
                    SummaryMode::MostDownloaded => &d.most_downloaded,
                    SummaryMode::JustUpdated => &d.just_updated,
                    SummaryMode::MostRecentlyDownloaded => &d.most_recently_downloaded,
                    SummaryMode::PopularKeywords => &d.popular_keywords,
                    SummaryMode::PopularCategories => &d.popular_categories,
                };
                if i < list.len() {
                    let prefix = self.mode.url_prefix();
                    Some(prefix.concat(list[i].as_str()))
                } else {
                    None
                }
            },
            None => None,
        }
    }
}

} // verus!
