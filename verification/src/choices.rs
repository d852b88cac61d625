//! Choice model adapter: shapes the scanned entry names into the backing
//! rows the completion widget consumes — one string column, one row per
//! name, insertion order preserved. The widget object itself is built
//! outside the library from these rows.

use vstd::prelude::*;

verus! {

/// Backing rows for the completion widget.
pub struct ChoiceRows {
    pub rows: Vec<String>,
}

impl View for ChoiceRows {
    type V = Seq<Seq<char>>;

    open spec fn view(&self) -> Seq<Seq<char>> {
        self.rows.deep_view()
    }
}

/// Adapter from the scanned names to the completion rows: it keeps every
/// name, in the given order, and renames nothing.
pub fn choices_to_model(choices: Vec<String>) -> (m: ChoiceRows)
    ensures
        m.rows == choices,
        m@ == choices.deep_view(),
{
    ChoiceRows { rows: choices }
}

} // verus!
