use vstd::prelude::*;

use crate::data::CrateItem;
use crate::text::{contains_text, has_infix, lower_of, split_words, to_lower, words_of};

verus! {

/// The text that a filter word is matched against besides the name.
pub open spec fn description_text(c: CrateItem) -> Seq<char> {
    match c.description {
        Some(d) => d@,
        None => Seq::empty(),
    }
}

/// Whether every word occurs in the lower-cased name or description.
pub open spec fn item_matches(c: CrateItem, words: Seq<Seq<char>>) -> bool {
    forall|i: int|
        0 <= i < words.len() ==> has_infix(lower_of(c.name@), #[trigger] words[i]) || has_infix(
            lower_of(description_text(c)),
            words[i],
        )
}

/// The items of `s` that match every word, in their order.
pub open spec fn filter_items(s: Seq<CrateItem>, words: Seq<Seq<char>>) -> Seq<CrateItem>
    decreases s.len(),
{
    if s.len() == 0 {
        Seq::empty()
    } else {
        let r = filter_items(s.drop_last(), words);
        if item_matches(s.last(), words) {
            r.push(s.last())
        } else {
            r
        }
    }
}

/// Whether an item matches every word of a filter.
pub fn matches_words(c: &CrateItem, words: &Vec<String>) -> (r: bool)
    ensures
        r == item_matches(*c, words@.map_values(|w: String| w@)),
{
    let ghost ws = words@.map_values(|w: String| w@);
    let name = to_lower(c.name.as_str());
    let empty = String::new();
    let description = match &c.description {
        Some(d) => to_lower(d.as_str()),
        None => to_lower(empty.as_str()),
    };
    assert(description@ == lower_of(description_text(*c)));
    let mut i: usize = 0;
    while i < words.len()
        invariant
            i <= words@.len(),
            ws == words@.map_values(|w: String| w@),
            name@ == lower_of(c.name@),
            description@ == lower_of(description_text(*c)),
            forall|j: int|
                0 <= j < i ==> has_infix(lower_of(c.name@), #[trigger] ws[j]) || has_infix(
                    lower_of(description_text(*c)),
                    ws[j],
                ),
        decreases words@.len() - i,
    {
        if !contains_text(name.as_str(), words[i].as_str()) && !contains_text(
            description.as_str(),
            words[i].as_str(),
        ) {
            assert(!(has_infix(lower_of(c.name@), ws[i as int]) || has_infix(
                lower_of(description_text(*c)),
                ws[i as int],
            )));
            return false;
        }
        i += 1;
    }
    true
}

/// The items that match every whitespace-separated word of `filter`, in order.
pub fn filter_crates(crates: &Vec<CrateItem>, filter: &str) -> (r: Vec<CrateItem>)
    ensures
        r@ == filter_items(crates@, words_of(filter@)),
{
    let words = split_words(filter);
    assert(words@.map_values(|w: String| w@) =~= words_of(filter@));
    let mut r: Vec<CrateItem> = Vec::new();
    let mut i: usize = 0;
    while i < crates.len()
        invariant
            i <= crates@.len(),
            words@.map_values(|w: String| w@) == words_of(filter@),
            r@ == filter_items(crates@.take(i as int), words_of(filter@)),
        decreases crates@.len() - i,
    {
        assert(crates@.take(i + 1).drop_last() =~= crates@.take(i as int));
        assert(crates@.take(i + 1).last() == crates@[i as int]);
        if matches_words(&crates[i], &words) {
            r.push(crates[i].duplicate());
        }
        i += 1;
    }
    assert(crates@.take(i as int) =~= crates@);
    r
}

/// The result list: the items shown and the selected row.
#[derive(Clone, Debug)]
pub struct SearchResultsTable {
    pub crates: Vec<CrateItem>,
    pub selected: Option<usize>,
}

/// Selection after moving down by `count` rows, wrapping past the end.
pub open spec fn next_selection(sel: Option<usize>, len: nat, count: nat) -> Option<int> {
    if len == 0 {
        None
    } else {
        match sel {
            None => Some(0),
            Some(i) => Some(((i + count) % (len as int)) as int),
        }
    }
}

/// Selection after moving up by `count` rows: from the top, or with nothing
/// selected, to the last row; otherwise up, stopping at the top.
pub open spec fn previous_selection(sel: Option<usize>, len: nat, count: nat) -> Option<int> {
    if len == 0 {
        None
    } else {
        match sel {
            None => Some(len - 1),
            Some(i) => if i == 0 {
                Some(len - 1)
            } else if i >= count {
                Some(i - count)
            } else {
                Some(0)
            },
        }
    }
}

/// The selection as an integer, for comparison with the spec functions.
pub open spec fn sel_int(s: Option<usize>) -> Option<int> {
    match s {
        Some(i) => Some(i as int),
        None => None,
    }
}

impl SearchResultsTable {
    pub fn new() -> (r: SearchResultsTable)
        ensures
            r.crates@.len() == 0,
            r.selected == None::<usize>,
    {
        SearchResultsTable { crates: Vec::new(), selected: None }
    }

    /// The selected row.
    pub fn selected(&self) -> (r: Option<usize>)
        ensures
            r == self.selected,
    {
        self.selected
    }

    /// Selects a row, or nothing.
    pub fn select(&mut self, index: Option<usize>)
        ensures
            final(self).selected == index,
            final(self).crates == old(self).crates,
    {
        self.selected = index;
    }

    /// The name of the selected item, unless nothing valid is selected or the
    /// name is empty.
    pub fn selected_crate_name(&self) -> (r: Option<String>)
        ensures
            r == (match self.selected {
                Some(i) => if i < self.crates@.len() && self.crates@[i as int].name@.len() > 0 {
                    Some(self.crates@[i as int].name)
                } else {
                    None
                },
                None => None,
            }),
    {
        match self.selected {
            Some(i) => if i < self.crates.len() && !self.crates[i].name.as_str().is_empty() {
                Some(self.crates[i].name.clone())
            } else {
                None
            },
            None => None,
        }
    }

    /// Moves the selection down by `count` rows, wrapping past the end.
    pub fn scroll_next(&mut self, count: usize)
        ensures
            final(self).crates == old(self).crates,
            sel_int(final(self).selected) == next_selection(
                old(self).selected,
                old(self).crates@.len(),
                count as nat,
            ),
    {
        let n = self.crates.len();
        if n == 0 {
            self.selected = None;
        } else {
            let i = match self.selected {
                Some(i) => {
                    let a = i % n;
                    let b = count % n;
                    proof {
                        vstd::arithmetic::div_mod::lemma_add_mod_noop(i as int, count as int, n as int);
                    }
                    if a >= n - b {
                        assert((a + b) % (n as int) == a + b - n) by (nonlinear_arith)
                            requires
                                n <= a + b < 2 * n,
                        {
                            assert(a + b == (n as int) * 1 + (a + b - n));
                        }
                        a - (n - b)
                    } else {
                        assert((a + b) % (n as int) == a + b) by (nonlinear_arith)
                            requires
                                0 <= a + b < n,
                        ;
                        a + b
                    }
                },
                None => 0,
            };
            self.selected = Some(i);
        }
    }

    /// Moves the selection up by `count` rows; from the top it goes to the last row.
    pub fn scroll_previous(&mut self, count: usize)
        ensures
            final(self).crates == old(self).crates,
            sel_int(final(self).selected) == previous_selection(
                old(self).selected,
                old(self).crates@.len(),
                count as nat,
            ),
    {
        let n = self.crates.len();
        if n == 0 {
            self.selected = None;
        } else {
            let i = match self.selected {
                Some(i) => if i == 0 {
                    n - 1
                } else {
                    i.saturating_sub(count)
                },
                None => n - 1,
            };
            self.selected = Some(i);
        }
    }

    /// Selects the first row, or nothing when the list is empty.
    pub fn scroll_to_top(&mut self)
        ensures
            final(self).crates == old(self).crates,
            final(self).selected == (if old(self).crates@.len() == 0 {
                None
            } else {
                Some(0usize)
            }),
    {
        if self.crates.len() == 0 {
            self.selected = None;
        } else {
            self.selected = Some(0);
        }
    }

    /// Selects the last row, or nothing when the list is empty.
    pub fn scroll_to_bottom(&mut self)
        ensures
            final(self).crates == old(self).crates,
            sel_int(final(self).selected) == (if old(self).crates@.len() == 0 {
                None
            } else {
                Some(old(self).crates@.len() - 1)
            }),
    {
        if self.crates.len() == 0 {
            self.selected = None;
        } else {
            self.selected = Some(self.crates.len() - 1);
        }
    }
}

impl Default for SearchResultsTable {
    fn default() -> (r: SearchResultsTable)
        ensures
            r.crates@.len() == 0,
            r.selected == None::<usize>,
    {
        SearchResultsTable::new()
    }
}

} // verus!
