use vstd::prelude::*;

pub mod aggregate;
pub mod layout;
pub mod panels;
pub mod pipeline;
pub mod records;
pub mod text;

verus! {

/// Bars shown in the dashboard's chart: one `(label, visitors)` pair per bar.
pub struct TUI {
    pub stats: Vec<(String, u64)>,
}

impl TUI {
    pub fn new(stats: Vec<(String, u64)>) -> (r: TUI)
        ensures
            r.stats@ == stats@,
    {
        TUI { stats }
    }
}

} // verus!
