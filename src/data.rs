use vstd::prelude::*;

verus! {

/// The characters of an optional text.
pub open spec fn text_of(o: Option<String>) -> Option<Seq<char>> {
    match o {
        Some(s) => Some(s@),
        None => None,
    }
}

/// One search result, as the result list shows it.
#[derive(Clone, Debug, PartialEq, Eq)]
pub struct CrateItem {
    pub name: String,
    pub description: Option<String>,
    pub downloads: u64,
}

impl CrateItem {
    /// A copy of the item.
    pub fn duplicate(&self) -> (r: CrateItem)
        ensures
            r == *self,
    {
        let description = match &self.description {
            Some(d) => Some(d.clone()),
            None => None,
        };
        CrateItem { name: self.name.clone(), description, downloads: self.downloads }
    }
}

/// The order in which the registry returns search results.
#[derive(Clone, Copy, Debug, PartialEq, Eq, Structural, Hash)]
pub enum SortBy {
    Alphabetical,
    Relevance,
    Downloads,
    RecentDownloads,
    RecentUpdates,
    NewlyAdded,
}

impl SortBy {
    /// The next order in the cycle.
    pub open spec fn spec_next(self) -> SortBy {
        match self {
            SortBy::Alphabetical => SortBy::Relevance,
            SortBy::Relevance => SortBy::Downloads,
            SortBy::Downloads => SortBy::RecentDownloads,
            SortBy::RecentDownloads => SortBy::RecentUpdates,
            SortBy::RecentUpdates => SortBy::NewlyAdded,
            SortBy::NewlyAdded => SortBy::Alphabetical,
        }
    }

    /// The previous order in the cycle.
    pub open spec fn spec_previous(self) -> SortBy {
        match self {
            SortBy::Relevance => SortBy::Alphabetical,
            SortBy::Downloads => SortBy::Relevance,
            SortBy::RecentDownloads => SortBy::Downloads,
            SortBy::RecentUpdates => SortBy::RecentDownloads,
            SortBy::NewlyAdded => SortBy::RecentUpdates,
            SortBy::Alphabetical => SortBy::NewlyAdded,
        }
    }

    pub fn next(self) -> (r: SortBy)
        ensures
            r == self.spec_next(),
    {
        match self {
            SortBy::Alphabetical => SortBy::Relevance,
            SortBy::Relevance => SortBy::Downloads,
            SortBy::Downloads => SortBy::RecentDownloads,
            SortBy::RecentDownloads => SortBy::RecentUpdates,
            SortBy::RecentUpdates => SortBy::NewlyAdded,
            SortBy::NewlyAdded => SortBy::Alphabetical,
        }
    }

    pub fn previous(self) -> (r: SortBy)
        ensures
            r == self.spec_previous(),
    {
        match self {
            SortBy::Relevance => SortBy::Alphabetical,
            SortBy::Downloads => SortBy::Relevance,
            SortBy::RecentDownloads => SortBy::Downloads,
            SortBy::RecentUpdates => SortBy::RecentDownloads,
            SortBy::NewlyAdded => SortBy::RecentUpdates,
            SortBy::Alphabetical => SortBy::NewlyAdded,
        }
    }
}

/// The registry's front-page lists, each entry reduced to the text that
/// names it in a link (a crate name, a keyword id or a category slug).
#[derive(Clone, Debug, PartialEq, Eq)]
pub struct SummaryData {
    pub new_crates: Vec<String>,
    pub most_downloaded: Vec<String>,
    pub just_updated: Vec<String>,
    pub most_recently_downloaded: Vec<String>,
    pub popular_keywords: Vec<String>,
    pub popular_categories: Vec<String>,
}

} // verus!
