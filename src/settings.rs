use vstd::prelude::*;

verus! {

/// The tabulator type, either soft (spaces) or hard (tabs).
#[derive(Clone, Copy, Debug, PartialEq, Eq, Structural)]
pub enum TabType {
    Soft,
    Hard,
}

/// User preferences that shape editing and display.
pub struct Settings {
    pub tab_type: TabType,
    pub tab_width: usize,
}

impl Settings {
    /// Soft tabs, four columns wide.
    pub fn new() -> (r: Settings)
        ensures
            r.tab_type == TabType::Soft,
            r.tab_width == 4,
    {
        Settings { tab_type: TabType::Soft, tab_width: 4 }
    }
}

} // verus!
