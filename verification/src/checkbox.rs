//! The state a checkbox is built with.
use vstd::prelude::*;

verus! {

/// Whether a checkbox is checked, unchecked, or in between.
#[derive(Debug, Clone, Copy, PartialEq, Eq, Structural)]
pub enum CheckboxState {
    Unchecked,
    Checked,
    Indeterminate,
}

/// What a checkbox is built with: its id, state, label and whether it is
/// disabled.
pub struct Checkbox {
    id: String,
    state: CheckboxState,
    disabled: bool,
    label: Option<String>,
}

impl Checkbox {
    pub closed spec fn state_spec(&self) -> CheckboxState {
        self.state
    }

    pub closed spec fn disabled_spec(&self) -> bool {
        self.disabled
    }

    pub closed spec fn id_spec(&self) -> Seq<char> {
        self.id@
    }

    pub closed spec fn label_spec(&self) -> Option<Seq<char>> {
        match self.label {
            Some(l) => Some(l@),
            None => None,
        }
    }

    /// An unchecked, enabled checkbox without a label.
    pub fn new(id: String) -> (r: Self)
        ensures
            r.state_spec() == CheckboxState::Unchecked,
            !r.disabled_spec(),
            r.id_spec() == id@,
            r.label_spec() is None,
    {
        Checkbox { id, state: CheckboxState::Unchecked, disabled: false, label: None }
    }

    /// The checkbox in `state`.
    pub fn state(self, state: CheckboxState) -> (r: Self)
        ensures
            r.state_spec() == state,
            r.disabled_spec() == self.disabled_spec(),
            r.id_spec() == self.id_spec(),
            r.label_spec() == self.label_spec(),
    {
        Checkbox { state, ..self }
    }

    /// Checked or unchecked, whatever it was before.
    pub fn checked(self, checked: bool) -> (r: Self)
        ensures
            r.state_spec() == if checked {
                CheckboxState::Checked
            } else {
                CheckboxState::Unchecked
            },
            r.disabled_spec() == self.disabled_spec(),
            r.id_spec() == self.id_spec(),
            r.label_spec() == self.label_spec(),
    {
        self.state(
            if checked {
                CheckboxState::Checked
            } else {
                CheckboxState::Unchecked
            },
        )
    }

    /// Indeterminate; turning it off leaves an indeterminate checkbox
    /// unchecked and any other as it was.
    pub fn indeterminate(self, indeterminate: bool) -> (r: Self)
        ensures
            r.state_spec() == if indeterminate {
                CheckboxState::Indeterminate
            } else if self.state_spec() == CheckboxState::Indeterminate {
                CheckboxState::Unchecked
            } else {
                self.state_spec()
            },
            r.disabled_spec() == self.disabled_spec(),
            r.id_spec() == self.id_spec(),
            r.label_spec() == self.label_spec(),
    {
        if indeterminate {
            self.state(CheckboxState::Indeterminate)
        } else if self.state == CheckboxState::Indeterminate {
            self.state(CheckboxState::Unchecked)
        } else {
            self
        }
    }

    /// Whether the checkbox ignores activation.
    pub fn disabled(self, disabled: bool) -> (r: Self)
        ensures
            r.disabled_spec() == disabled,
            r.state_spec() == self.state_spec(),
            r.id_spec() == self.id_spec(),
            r.label_spec() == self.label_spec(),
    {
        Checkbox { disabled, ..self }
    }

    /// The visible label.
    pub fn label(self, label: String) -> (r: Self)
        ensures
            r.label_spec() == Some(label@),
            r.disabled_spec() == self.disabled_spec(),
            r.state_spec() == self.state_spec(),
            r.id_spec() == self.id_spec(),
    {
        Checkbox { label: Some(label), ..self }
    }

    /// The state.
    pub fn current_state(&self) -> (r: CheckboxState)
        ensures
            r == self.state_spec(),
    {
        self.state
    }

    /// Whether the checkbox ignores activation.
    pub fn is_disabled(&self) -> (r: bool)
        ensures
            r == self.disabled_spec(),
    {
        self.disabled
    }
}

} // verus!
