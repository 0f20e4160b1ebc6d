//! Button variants and the state a button is built with.
use vstd::prelude::*;

verus! {

/// The visual variant of a button.
#[derive(Debug, Clone, Copy, PartialEq, Eq, Structural)]
pub enum ButtonVariant {
    /// Neutral outlined style.
    Default,
    /// Main call-to-action.
    Primary,
    /// Positive actions.
    Success,
    /// Important but less critical actions.
    Warning,
    /// Secondary information.
    Info,
    /// Minimal transparent style.
    Flat,
    /// Text-only link style.
    Link,
    /// Destructive actions.
    Danger,
}

impl Default for ButtonVariant {
    fn default() -> (r: Self)
        ensures
            r == ButtonVariant::Default,
    {
        ButtonVariant::Default
    }
}

/// Sets the visual variant of a button.
pub trait ButtonVariants: Sized {
    /// The variant the value is set to.
    spec fn variant_spec(&self) -> ButtonVariant;

    /// Sets the variant directly.
    fn with_variant(self, variant: ButtonVariant) -> (r: Self)
        ensures
            r.variant_spec() == variant,
    ;

    /// Primary variant (main call-to-action).
    fn primary(self) -> (r: Self)
        ensures
            r.variant_spec() == ButtonVariant::Primary,
    {
        self.with_variant(ButtonVariant::Primary)
    }

    /// Success variant (positive actions).
    fn success(self) -> (r: Self)
        ensures
            r.variant_spec() == ButtonVariant::Success,
    {
        self.with_variant(ButtonVariant::Success)
    }

    /// Warning variant (important but less critical actions).
    fn warning(self) -> (r: Self)
        ensures
            r.variant_spec() == ButtonVariant::Warning,
    {
        self.with_variant(ButtonVariant::Warning)
    }

    /// Info variant (secondary information).
    fn info(self) -> (r: Self)
        ensures
            r.variant_spec() == ButtonVariant::Info,
    {
        self.with_variant(ButtonVariant::Info)
    }

    /// Default neutral variant.
    fn default(self) -> (r: Self)
        ensures
            r.variant_spec() == ButtonVariant::Default,
    {
        self.with_variant(ButtonVariant::Default)
    }

    /// Flat variant (minimal transparent style).
    fn flat(self) -> (r: Self)
        ensures
            r.variant_spec() == ButtonVariant::Flat,
    {
        self.with_variant(ButtonVariant::Flat)
    }

    /// Link variant (text-only link style).
    fn link(self) -> (r: Self)
        ensures
            r.variant_spec() == ButtonVariant::Link,
    {
        self.with_variant(ButtonVariant::Link)
    }

    /// Danger variant (destructive actions).
    fn danger(self) -> (r: Self)
        ensures
            r.variant_spec() == ButtonVariant::Danger,
    {
        self.with_variant(ButtonVariant::Danger)
    }
}

/// What a button is built with: its id, variant, label and switches.
pub struct Button {
    id: String,
    variant: ButtonVariant,
    outline: bool,
    disabled: bool,
    loading: bool,
    selected: bool,
    label: Option<String>,
}

impl Button {
    pub closed spec fn id_spec(&self) -> Seq<char> {
        self.id@
    }

    pub closed spec fn flags(&self) -> (bool, bool, bool, bool) {
        (self.outline, self.disabled, self.loading, self.selected)
    }

    pub closed spec fn label_spec(&self) -> Option<Seq<char>> {
        match self.label {
            Some(l) => Some(l@),
            None => None,
        }
    }

    /// A button with the default variant, no label, and every switch off.
    pub fn new(id: String) -> (r: Self)
        ensures
            r.id_spec() == id@,
            r.variant_spec() == ButtonVariant::Default,
            r.flags() == (false, false, false, false),
            r.label_spec() is None,
    {
        Button {
            id,
            variant: ButtonVariant::Default,
            outline: false,
            disabled: false,
            loading: false,
            selected: false,
            label: None,
        }
    }

    /// Whether the button ignores activation.
    pub fn disabled(self, disabled: bool) -> (r: Self)
        ensures
            r.flags() == (self.flags().0, disabled, self.flags().2, self.flags().3),
            r.variant_spec() == self.variant_spec(),
            r.label_spec() == self.label_spec(),
            r.id_spec() == self.id_spec(),
    {
        Button { disabled, ..self }
    }

    /// Whether the button shows as selected.
    pub fn selected(self, selected: bool) -> (r: Self)
        ensures
            r.flags() == (self.flags().0, self.flags().1, self.flags().2, selected),
            r.variant_spec() == self.variant_spec(),
            r.label_spec() == self.label_spec(),
            r.id_spec() == self.id_spec(),
    {
        Button { selected, ..self }
    }

    /// Whether the button runs an action and shows a spinner.
    pub fn loading(self, loading: bool) -> (r: Self)
        ensures
            r.flags() == (self.flags().0, self.flags().1, loading, self.flags().3),
            r.variant_spec() == self.variant_spec(),
            r.label_spec() == self.label_spec(),
            r.id_spec() == self.id_spec(),
    {
        Button { loading, ..self }
    }

    /// Whether the button is drawn outlined.
    pub fn outline(self, outline: bool) -> (r: Self)
        ensures
            r.flags() == (outline, self.flags().1, self.flags().2, self.flags().3),
            r.variant_spec() == self.variant_spec(),
            r.label_spec() == self.label_spec(),
            r.id_spec() == self.id_spec(),
    {
        Button { outline, ..self }
    }

    /// The visible label.
    pub fn label(self, label: String) -> (r: Self)
        ensures
            r.label_spec() == Some(label@),
            r.flags() == self.flags(),
            r.variant_spec() == self.variant_spec(),
            r.id_spec() == self.id_spec(),
    {
        Button { label: Some(label), ..self }
    }

    /// The variant.
    pub fn variant(&self) -> (r: ButtonVariant)
        ensures
            r == self.variant_spec(),
    {
        self.variant
    }

    /// Whether the button ignores activation.
    pub fn is_disabled(&self) -> (r: bool)
        ensures
            r == self.flags().1,
    {
        self.disabled
    }

    /// Whether the button shows as selected.
    pub fn is_selected(&self) -> (r: bool)
        ensures
            r == self.flags().3,
    {
        self.selected
    }

    /// Whether the button is loading.
    pub fn is_loading(&self) -> (r: bool)
        ensures
            r == self.flags().2,
    {
        self.loading
    }

    /// Whether the button is drawn outlined.
    pub fn is_outline(&self) -> (r: bool)
        ensures
            r == self.flags().0,
    {
        self.outline
    }

    /// The element id.
    pub fn element_id(&self) -> (r: &String)
        ensures
            r@ == self.id_spec(),
    {
        &self.id
    }
}

impl ButtonVariants for Button {
    closed spec fn variant_spec(&self) -> ButtonVariant {
        self.variant
    }

    fn with_variant(self, variant: ButtonVariant) -> (r: Self)
        ensures
            r.flags() == self.flags(),
            r.label_spec() == self.label_spec(),
            r.id_spec() == self.id_spec(),
    {
        Button { variant, ..self }
    }
}

} // verus!
