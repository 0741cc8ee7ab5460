use vstd::prelude::*;

verus! {

/// The mutually exclusive states of the interface.
#[derive(Clone, Copy, Debug, PartialEq, Eq, Structural, Hash)]
pub enum Mode {
    /// Not a state the interface can be in: the scope of mode-independent bindings.
    Common,
    Summary,
    PickerShowCrateInfo,
    PickerHideCrateInfo,
    Search,
    Filter,
    Popup,
    Help,
    Quit,
}

impl Mode {
    pub open spec fn spec_is_prompt(&self) -> bool {
        *self == Mode::Search || *self == Mode::Filter
    }

    pub open spec fn spec_is_picker(&self) -> bool {
        *self == Mode::PickerShowCrateInfo || *self == Mode::PickerHideCrateInfo
    }

    /// Whether the mode edits the text prompt.
    #[verifier::when_used_as_spec(spec_is_prompt)]
    pub fn is_prompt(&self) -> (r: bool)
        ensures
            r == self.spec_is_prompt(),
    {
        matches!(self, Mode::Search | Mode::Filter)
    }

    /// Whether the mode browses the result list.
    #[verifier::when_used_as_spec(spec_is_picker)]
    pub fn is_picker(&self) -> (r: bool)
        ensures
            r == self.spec_is_picker(),
    {
        matches!(self, Mode::PickerShowCrateInfo | Mode::PickerHideCrateInfo)
    }
}

impl Default for Mode {
    fn default() -> (r: Mode)
        ensures
            r == Mode::Summary,
    {
        Mode::Summary
    }
}

} // verus!
