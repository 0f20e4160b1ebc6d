//! The semantic states a list row is built with.
use vstd::prelude::*;

verus! {

/// A list row: its id, and whether it is selected or disabled.
pub struct ListItem {
    id: String,
    selected: bool,
    disabled: bool,
}

impl ListItem {
    pub closed spec fn id_spec(&self) -> Seq<char> {
        self.id@
    }

    pub closed spec fn selected_spec(&self) -> bool {
        self.selected
    }

    pub closed spec fn disabled_spec(&self) -> bool {
        self.disabled
    }

    /// An unselected, enabled row with the given id.
    pub fn new(id: String) -> (r: Self)
        ensures
            r.id_spec() == id@,
            !r.selected_spec(),
            !r.disabled_spec(),
    {
        ListItem { id, selected: false, disabled: false }
    }

    /// The row selected or not.
    pub fn selected(self, selected: bool) -> (r: Self)
        ensures
            r.selected_spec() == selected,
            r.disabled_spec() == self.disabled_spec(),
            r.id_spec() == self.id_spec(),
    {
        ListItem { selected, ..self }
    }

    /// Whether the row is selected.
    pub fn is_selected(&self) -> (r: bool)
        ensures
            r == self.selected_spec(),
    {
        self.selected
    }

    /// The row disabled or not; a disabled row ignores clicks.
    pub fn disabled(self, disabled: bool) -> (r: Self)
        ensures
            r.disabled_spec() == disabled,
            r.selected_spec() == self.selected_spec(),
            r.id_spec() == self.id_spec(),
    {
        ListItem { disabled, ..self }
    }

    /// Whether the row ignores clicks.
    pub fn is_disabled(&self) -> (r: bool)
        ensures
            r == self.disabled_spec(),
    {
        self.disabled
    }

    /// Whether the row gets the hover wash: enabled and not selected.
    pub fn shows_hover(&self) -> (r: bool)
        ensures
            r == (!self.disabled_spec() && !self.selected_spec()),
    {
        !self.disabled && !self.selected
    }
}

} // verus!
