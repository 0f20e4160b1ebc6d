//! What a link is built with: its target and whether it is disabled.
use vstd::prelude::*;

verus! {

/// A link: its id, the target it opens, and whether it ignores activation.
pub struct Link {
    id: String,
    href: Option<String>,
    disabled: bool,
}

impl Link {
    pub closed spec fn id_spec(&self) -> Seq<char> {
        self.id@
    }

    pub closed spec fn href_spec(&self) -> Option<Seq<char>> {
        match self.href {
            Some(h) => Some(h@),
            None => None,
        }
    }

    pub closed spec fn disabled_spec(&self) -> bool {
        self.disabled
    }

    /// An enabled link with the given id and no target yet.
    pub fn new(id: String) -> (r: Self)
        ensures
            r.id_spec() == id@,
            r.href_spec() is None,
            !r.disabled_spec(),
    {
        Link { id, href: None, disabled: false }
    }

    /// The target opened on activation.
    pub fn href(self, href: String) -> (r: Self)
        ensures
            r.href_spec() == Some(href@),
            r.id_spec() == self.id_spec(),
            r.disabled_spec() == self.disabled_spec(),
    {
        Link { href: Some(href), ..self }
    }

    /// Whether the link ignores activation.
    pub fn disabled(self, disabled: bool) -> (r: Self)
        ensures
            r.disabled_spec() == disabled,
            r.id_spec() == self.id_spec(),
            r.href_spec() == self.href_spec(),
    {
        Link { disabled, ..self }
    }

    /// Whether the link ignores activation.
    pub fn is_disabled(&self) -> (r: bool)
        ensures
            r == self.disabled_spec(),
    {
        self.disabled
    }

    /// The target to open when the link is activated: none while it is
    /// disabled or has no target.
    pub fn target_on_activate(&self) -> (r: Option<&str>)
        ensures
            match r {
                Some(t) => !self.disabled_spec() && self.href_spec() == Some(t@),
                None => self.disabled_spec() || self.href_spec() is None,
            },
    {
        if self.disabled {
            None
        } else {
            match &self.href {
                Some(h) => Some(h.as_str()),
                None => None,
            }
        }
    }
}

} // verus!
