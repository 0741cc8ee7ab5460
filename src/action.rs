use vstd::prelude::*;

use crate::data::{CrateItem, SortBy, SummaryData};
use crate::mode::Mode;

verus! {

/// A unit of work for the reducer: plain data, consumed once.
#[derive(Clone, Debug, PartialEq, Eq)]
pub enum Action {
    Tick,
    Render,
    Resize(u16, u16),
    KeyRefresh,
    Quit,
    Init { query: Option<String> },
    Ignore,
    NextTab,
    PreviousTab,
    ClosePopup,
    SwitchMode(Mode),
    SwitchToLastMode,
    IncrementPage,
    DecrementPage,
    NextSummaryMode,
    PreviousSummaryMode,
    ToggleSortBy { reload: bool, forward: bool },
    ScrollBottom,
    ScrollTop,
    ScrollDown,
    ScrollUp,
    ScrollCrateInfoDown,
    ScrollCrateInfoUp,
    ScrollSearchResultsDown,
    ScrollSearchResultsUp,
    SubmitSearch,
    ReloadData,
    ToggleShowCrateInfo,
    UpdateCurrentSelectionCrateInfo,
    UpdateSearchTableResults,
    UpdateSummary,
    ShowFullCrateInfo,
    ShowErrorPopup(String),
    ShowInfoPopup(String),
    StoreTotalNumberOfCrates(u64),
    /// A detail fetch reports that it has finished, whatever its outcome.
    ClearTaskDetailsHandle(u128),
    CopyCargoAddCommandToClipboard,
    OpenDocsUrlInBrowser,
    OpenCratesIOUrlInBrowser,
    /// The search fetch with this id delivers one page of results and the total count.
    StoreSearchResults { id: u128, crates: Vec<CrateItem>, total: u64 },
    /// The search fetch with this id failed with the given message.
    SearchFailed { id: u128, message: String },
    /// The detail fetch with this id delivers the record of the named crate.
    StoreCrateDetails { id: u128, name: String },
    /// The full-detail fetch with this id delivers the record of the named crate.
    StoreFullCrateDetails { id: u128, name: String },
    /// The summary fetch delivers its lists.
    StoreSummary(SummaryData),
    /// The summary fetch failed with the given message.
    SummaryFailed(String),
}

/// Outside work that the reducer asks the runtime to perform.
#[derive(Clone, Debug, PartialEq, Eq)]
pub enum Effect {
    /// Fetch one page of search results under task `id`; the outcome comes
    /// back as `StoreSearchResults` or `SearchFailed` with that id.
    FetchSearch { id: u128, search: String, page: u64, page_size: u64, sort: SortBy },
    /// Fetch the record of a crate under task `id`; the outcome comes back as
    /// `StoreCrateDetails` or `ShowErrorPopup`, then `ClearTaskDetailsHandle`.
    FetchCrateDetails { id: u128, name: String },
    /// As `FetchCrateDetails`, for the full record; its outcome comes back as
    /// `StoreFullCrateDetails`.
    FetchFullCrateDetails { id: u128, name: String },
    /// Fetch the summary lists; the outcome comes back as `StoreSummary` or
    /// `SummaryFailed`.
    FetchSummary,
    /// Abort the task with this id, if it still runs, and drop its handle.
    Abort(u128),
    /// Open a link in the browser.
    OpenUrl(String),
    /// Put a text on the clipboard.
    CopyToClipboard(String),
    /// Redraw the screen.
    Draw,
}

/// A symbolic name that key bindings resolve to; each maps to one action.
#[derive(Clone, Copy, Debug, PartialEq, Eq, Structural, Hash)]
pub enum Command {
    Ignore,
    Quit,
    NextTab,
    PreviousTab,
    ClosePopup,
    SwitchMode(Mode),
    SwitchToLastMode,
    IncrementPage,
    DecrementPage,
    NextSummaryMode,
    PreviousSummaryMode,
    ToggleSortBy { reload: bool, forward: bool },
    ScrollBottom,
    ScrollTop,
    ScrollDown,
    ScrollUp,
    ScrollCrateInfoDown,
    ScrollCrateInfoUp,
    ScrollSearchResultsDown,
    ScrollSearchResultsUp,
    SubmitSearch,
    ReloadData,
    ToggleShowCrateInfo,
    CopyCargoAddCommandToClipboard,
    OpenDocsUrlInBrowser,
    OpenCratesIOUrlInBrowser,
}

/// The action that a command stands for.
pub open spec fn command_action(c: Command) -> Action {
    match c {
        Command::Ignore => Action::Ignore,
        Command::Quit => Action::Quit,
        Command::NextTab => Action::NextTab,
        Command::PreviousTab => Action::PreviousTab,
        Command::ClosePopup => Action::ClosePopup,
        Command::SwitchMode(m) => Action::SwitchMode(m),
        Command::SwitchToLastMode => Action::SwitchToLastMode,
        Command::IncrementPage => Action::IncrementPage,
        Command::DecrementPage => Action::DecrementPage,
        Command::NextSummaryMode => Action::NextSummaryMode,
        Command::PreviousSummaryMode => Action::PreviousSummaryMode,
        Command::ToggleSortBy { reload, forward } => Action::ToggleSortBy { reload, forward },
        Command::ScrollBottom => Action::ScrollBottom,
        Command::ScrollTop => Action::ScrollTop,
        Command::ScrollDown => Action::ScrollDown,
        Command::ScrollUp => Action::ScrollUp,
        Command::ScrollCrateInfoDown => Action::ScrollCrateInfoDown,
        Command::ScrollCrateInfoUp => Action::ScrollCrateInfoUp,
        Command::ScrollSearchResultsDown => Action::ScrollSearchResultsDown,
        Command::ScrollSearchResultsUp => Action::ScrollSearchResultsUp,
        Command::SubmitSearch => Action::SubmitSearch,
        Command::ReloadData => Action::ReloadData,
        Command::ToggleShowCrateInfo => Action::ToggleShowCrateInfo,
        Command::CopyCargoAddCommandToClipboard => Action::CopyCargoAddCommandToClipboard,
        Command::OpenDocsUrlInBrowser => Action::OpenDocsUrlInBrowser,
        Command::OpenCratesIOUrlInBrowser => Action::OpenCratesIOUrlInBrowser,
    }
}

/// Converts a command into the action it stands for.
pub fn command_to_action(c: Command) -> (r: Action)
    ensures
        r == command_action(c),
{
    match c {
        Command::Ignore => Action::Ignore,
        Command::Quit => Action::Quit,
        Command::NextTab => Action::NextTab,
        Command::PreviousTab => Action::PreviousTab,
        Command::ClosePopup => Action::ClosePopup,
        Command::SwitchMode(m) => Action::SwitchMode(m),
        Command::SwitchToLastMode => Action::SwitchToLastMode,
        Command::IncrementPage => Action::IncrementPage,
        Command::DecrementPage => Action::DecrementPage,
        Command::NextSummaryMode => Action::NextSummaryMode,
        Command::PreviousSummaryMode => Action::PreviousSummaryMode,
        Command::ToggleSortBy { reload, forward } => Action::ToggleSortBy { reload, forward },
        Command::ScrollBottom => Action::ScrollBottom,
        Command::ScrollTop => Action::ScrollTop,
        Command::ScrollDown => Action::ScrollDown,
        Command::ScrollUp => Action::ScrollUp,
        Command::ScrollCrateInfoDown => Action::ScrollCrateInfoDown,
        Command::ScrollCrateInfoUp => Action::ScrollCrateInfoUp,
        Command::ScrollSearchResultsDown => Action::ScrollSearchResultsDown,
        Command::ScrollSearchResultsUp => Action::ScrollSearchResultsUp,
        Command::SubmitSearch => Action::SubmitSearch,
        Command::ReloadData => Action::ReloadData,
        Command::ToggleShowCrateInfo => Action::ToggleShowCrateInfo,
        Command::CopyCargoAddCommandToClipboard => Action::CopyCargoAddCommandToClipboard,
        Command::OpenDocsUrlInBrowser => Action::OpenDocsUrlInBrowser,
        Command::OpenCratesIOUrlInBrowser => Action::OpenCratesIOUrlInBrowser,
    }
}

/// The commands the help view lists for itself.
pub open spec fn spec_help_commands() -> Seq<Command> {
    seq![Command::SwitchToLastMode]
}

/// The commands the help view lists for itself.
pub fn help_commands() -> (r: Vec<Command>)
    ensures
        r@ == spec_help_commands(),
{
    let r: Vec<Command> = vec![Command::SwitchToLastMode];
    assert(r@ =~= spec_help_commands());
    r
}

/// The commands the help view lists for the result list.
pub open spec fn spec_picker_commands() -> Seq<Command> {
    seq![Command::SwitchMode(Mode::Help), Command::SwitchMode(Mode::Summary), Command::SwitchMode(Mode::Search), Command::SwitchMode(Mode::Filter), Command::ScrollUp, Command::ScrollDown, Command::ScrollCrateInfoUp, Command::ScrollCrateInfoDown, (Command::ToggleSortBy { reload: true, forward: true }), (Command::ToggleSortBy { reload: true, forward: false }), (Command::ToggleSortBy { reload: false, forward: true }), (Command::ToggleSortBy { reload: false, forward: false }), Command::IncrementPage, Command::DecrementPage, Command::ReloadData, Command::ToggleShowCrateInfo, Command::OpenDocsUrlInBrowser, Command::OpenCratesIOUrlInBrowser, Command::CopyCargoAddCommandToClipboard]
}

/// The commands the help view lists for the result list.
pub fn picker_commands() -> (r: Vec<Command>)
    ensures
        r@ == spec_picker_commands(),
{
    let r: Vec<Command> = vec![Command::SwitchMode(Mode::Help), Command::SwitchMode(Mode::Summary), Command::SwitchMode(Mode::Search), Command::SwitchMode(Mode::Filter), Command::ScrollUp, Command::ScrollDown, Command::ScrollCrateInfoUp, Command::ScrollCrateInfoDown, Command::ToggleSortBy { reload: true, forward: true }, Command::ToggleSortBy { reload: true, forward: false }, Command::ToggleSortBy { reload: false, forward: true }, Command::ToggleSortBy { reload: false, forward: false }, Command::IncrementPage, Command::DecrementPage, Command::ReloadData, Command::ToggleShowCrateInfo, Command::OpenDocsUrlInBrowser, Command::OpenCratesIOUrlInBrowser, Command::CopyCargoAddCommandToClipboard];
    assert(r@ =~= spec_picker_commands());
    r
}

/// The commands the help view lists for the summary.
pub open spec fn spec_summary_commands() -> Seq<Command> {
    seq![Command::Quit, Command::ScrollDown, Command::ScrollUp, Command::PreviousSummaryMode, Command::NextSummaryMode, Command::SwitchMode(Mode::Help), Command::SwitchMode(Mode::Search), Command::SwitchMode(Mode::Filter)]
}

/// The commands the help view lists for the summary.
pub fn summary_commands() -> (r: Vec<Command>)
    ensures
        r@ == spec_summary_commands(),
{
    let r: Vec<Command> = vec![Command::Quit, Command::ScrollDown, Command::ScrollUp, Command::PreviousSummaryMode, Command::NextSummaryMode, Command::SwitchMode(Mode::Help), Command::SwitchMode(Mode::Search), Command::SwitchMode(Mode::Filter)];
    assert(r@ =~= spec_summary_commands());
    r
}

/// The commands the help view lists for the search prompt.
pub open spec fn spec_search_commands() -> Seq<Command> {
    seq![Command::SwitchMode(Mode::PickerHideCrateInfo), Command::SubmitSearch, (Command::ToggleSortBy { reload: false, forward: true }), (Command::ToggleSortBy { reload: false, forward: false }), (Command::ToggleSortBy { reload: true, forward: true }), (Command::ToggleSortBy { reload: true, forward: false }), Command::ScrollSearchResultsUp, Command::ScrollSearchResultsDown, Command::SwitchMode(Mode::PickerHideCrateInfo), Command::ScrollSearchResultsUp, Command::ScrollSearchResultsDown]
}

/// The commands the help view lists for the search prompt.
pub fn search_commands() -> (r: Vec<Command>)
    ensures
        r@ == spec_search_commands(),
{
    let r: Vec<Command> = vec![Command::SwitchMode(Mode::PickerHideCrateInfo), Command::SubmitSearch, Command::ToggleSortBy { reload: false, forward: true }, Command::ToggleSortBy { reload: false, forward: false }, Command::ToggleSortBy { reload: true, forward: true }, Command::ToggleSortBy { reload: true, forward: false }, Command::ScrollSearchResultsUp, Command::ScrollSearchResultsDown, Command::SwitchMode(Mode::PickerHideCrateInfo), Command::ScrollSearchResultsUp, Command::ScrollSearchResultsDown];
    assert(r@ =~= spec_search_commands());
    r
}

/// The command lists of the help view, by mode, in display order.
pub fn all_commands() -> (r: Vec<(Mode, Vec<Command>)>)
    ensures
        r@.len() == 4,
        r@[0].0 == Mode::Help && r@[0].1@ == spec_help_commands(),
        r@[1].0 == Mode::PickerHideCrateInfo && r@[1].1@ == spec_picker_commands(),
        r@[2].0 == Mode::Summary && r@[2].1@ == spec_summary_commands(),
        r@[3].0 == Mode::Search && r@[3].1@ == spec_search_commands(),
{
    let mut r: Vec<(Mode, Vec<Command>)> = Vec::new();
    r.push((Mode::Help, help_commands()));
    r.push((Mode::PickerHideCrateInfo, picker_commands()));
    r.push((Mode::Summary, summary_commands()));
    r.push((Mode::Search, search_commands()));
    r
}

} // verus!
