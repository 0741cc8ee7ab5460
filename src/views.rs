use vstd::prelude::*;

use crate::mode::Mode;

verus! {

/// The tab highlighted in the header.
#[derive(Clone, Copy, Debug, PartialEq, Eq, Structural, Hash)]
pub enum SelectedTab {
    Summary,
    Search,
    /// No tab is highlighted.
    Blank,
}

impl SelectedTab {
    pub fn select(&mut self, selected_tab: SelectedTab)
        ensures
            *final(self) == selected_tab,
    {
        *self = selected_tab;
    }
}

impl Default for SelectedTab {
    fn default() -> (r: SelectedTab)
        ensures
            r == SelectedTab::Summary,
    {
        SelectedTab::Summary
    }
}

/// A dismissible message shown over the page, with its scroll offset.
#[derive(Clone, Debug, PartialEq, Eq)]
pub struct PopupMessage {
    pub title: String,
    pub message: String,
    pub scroll: usize,
}

impl PopupMessage {
    pub fn new(title: String, message: String) -> (r: PopupMessage)
        ensures
            r.title == title,
            r.message == message,
            r.scroll == 0,
    {
        PopupMessage { title, message, scroll: 0 }
    }

    /// Scrolls up one line, stopping at the top.
    pub fn scroll_up(&mut self)
        ensures
            final(self).scroll == if old(self).scroll > 0 {
                (old(self).scroll - 1) as usize
            } else {
                0
            },
            final(self).title == old(self).title,
            final(self).message == old(self).message,
    {
        self.scroll = self.scroll.saturating_sub(1);
    }

    /// Scrolls down one line.
    pub fn scroll_down(&mut self)
        ensures
            final(self).scroll == if old(self).scroll < usize::MAX {
                (old(self).scroll + 1) as usize
            } else {
                old(self).scroll
            },
            final(self).title == old(self).title,
            final(self).message == old(self).message,
    {
        self.scroll = self.scroll.saturating_add(1);
    }

    /// Scrolls back to the first line.
    pub fn scroll_top(&mut self)
        ensures
            final(self).scroll == 0,
            final(self).title == old(self).title,
            final(self).message == old(self).message,
    {
        self.scroll = 0;
    }
}

/// The first position of `m` in `rows`, or 0 when it is absent.
pub open spec fn first_row_of(rows: Seq<Mode>, m: Mode) -> int
    decreases rows.len(),
{
    if rows.len() == 0 {
        0
    } else if rows[0] == m {
        0
    } else if rows.subrange(1, rows.len() as int).contains(m) {
        1 + first_row_of(rows.subrange(1, rows.len() as int), m)
    } else {
        0
    }
}

/// The help table's selection, and the mode it was opened from until the
/// first time it is shown.
#[derive(Clone, Debug, PartialEq, Eq)]
pub struct Help {
    pub selected: Option<usize>,
    pub offset: usize,
    pub mode: Option<Mode>,
}

/// The row that the help table selects for rows whose modes are `rows`.
pub open spec fn help_selection(h: Help, rows: Seq<Mode>) -> int {
    let s = match h.mode {
        Some(m) => first_row_of(rows, m),
        None => match h.selected {
            Some(i) => i as int,
            None => 0,
        },
    };
    if rows.len() == 0 {
        0
    } else if s < rows.len() {
        s
    } else {
        rows.len() - 1
    }
}

impl Help {
    pub fn new(selected: Option<usize>, mode: Option<Mode>) -> (r: Help)
        ensures
            r.selected == selected,
            r.mode == mode,
            r.offset == 0,
    {
        Help { selected, offset: 0, mode }
    }

    /// Moves the selection up one row, stopping at the top.
    pub fn scroll_up(&mut self)
        ensures
            final(self).selected == Some(
                match old(self).selected {
                    Some(i) => if i > 0 {
                        (i - 1) as usize
                    } else {
                        0
                    },
                    None => 0,
                },
            ),
            final(self).mode == old(self).mode,
            final(self).offset == old(self).offset,
    {
        let i = match self.selected {
            Some(i) => i.saturating_sub(1),
            None => 0,
        };
        self.selected = Some(i);
    }

    /// Moves the selection down one row.
    pub fn scroll_down(&mut self)
        ensures
            final(self).selected == Some(
                match old(self).selected {
                    Some(i) => if i < usize::MAX {
                        (i + 1) as usize
                    } else {
                        i
                    },
                    None => 0,
                },
            ),
            final(self).mode == old(self).mode,
            final(self).offset == old(self).offset,
    {
        let i = match self.selected {
            Some(i) => i.saturating_add(1),
            None => 0,
        };
        self.selected = Some(i);
    }

    /// Prepares the table for display over rows whose modes are `rows`: the
    /// first time, it selects the first row of the mode it was opened from and
    /// forgets that mode, so that later scrolling is kept; each time, the
    /// selection is held within the rows.
    pub fn select_by_mode(&mut self, rows: &Vec<Mode>)
        ensures
            final(self).mode == None::<Mode>,
            final(self).selected == Some(help_selection(*old(self), rows@) as usize),
            old(self).mode is Some ==> final(self).offset == if help_selection(*old(self), rows@)
                >= 2 {
                (help_selection(*old(self), rows@) - 2) as usize
            } else {
                0
            },
            old(self).mode is None ==> final(self).offset == old(self).offset,
    {
        let ghost h = *self;
        let s: usize = match self.mode {
            Some(m) => {
                let f = first_row(rows, m);
                self.offset = if f >= 2 {
                    f - 2
                } else {
                    0
                };
                self.mode = None;
                f
            },
            None => match self.selected {
                Some(i) => i,
                None => 0,
            },
        };
        let n = rows.len();
        let s = if n == 0 {
            0
        } else if s < n {
            s
        } else {
            n - 1
        };
        proof {
            if h.mode is Some {
                assert(s == help_selection(h, rows@));
            }
        }
        self.selected = Some(s);
    }
}

/// The first position of `m` in `rows`, or 0.
fn first_row(rows: &Vec<Mode>, m: Mode) -> (r: usize)
    ensures
        r == first_row_of(rows@, m),
        rows@.len() > 0 ==> r < rows@.len(),
{
    let mut i: usize = 0;
    while i < rows.len()
        invariant
            i <= rows@.len(),
            forall|j: int| 0 <= j < i ==> rows@[j] != m,
        decreases rows@.len() - i,
    {
        if rows[i] == m {
            proof {
                lemma_first_row_at(rows@, m, i as int);
            }
            return i;
        }
        i += 1;
    }
    proof {
        lemma_first_row_absent(rows@, m);
    }
    0
}

proof fn lemma_first_row_at(rows: Seq<Mode>, m: Mode, i: int)
    requires
        0 <= i < rows.len(),
        rows[i] == m,
        forall|j: int| 0 <= j < i ==> rows[j] != m,
    ensures
        first_row_of(rows, m) == i,
    decreases i,
{
    if i > 0 {
        let t = rows.subrange(1, rows.len() as int);
        assert(t[i - 1] == m);
        assert(t.contains(m));
        lemma_first_row_at(t, m, i - 1);
    }
}

proof fn lemma_first_row_absent(rows: Seq<Mode>, m: Mode)
    requires
        forall|j: int| 0 <= j < rows.len() ==> rows[j] != m,
    ensures
        first_row_of(rows, m) == 0,
{
    if rows.len() > 0 {
        let t = rows.subrange(1, rows.len() as int);
        if t.contains(m) {
            let j = choose|j: int| 0 <= j < t.len() && t[j] == m;
            assert(rows[j + 1] == m);
        }
    }
}

impl Default for Help {
    fn default() -> (r: Help)
        ensures
            r.selected == None::<usize>,
            r.mode == None::<Mode>,
            r.offset == 0,
    {
        Help::new(None, None)
    }
}

} // verus!
