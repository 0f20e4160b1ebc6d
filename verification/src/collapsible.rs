//! The open state a collapsible region is built with.
use vstd::prelude::*;

verus! {

/// A collapsible region: its id and whether the application has it open.
pub struct Collapsible {
    id: String,
    open: bool,
}

impl Collapsible {
    pub closed spec fn id_spec(&self) -> Seq<char> {
        self.id@
    }

    pub closed spec fn open_spec(&self) -> bool {
        self.open
    }

    /// A closed region with the given id.
    pub fn new(id: String) -> (r: Self)
        ensures
            r.id_spec() == id@,
            !r.open_spec(),
    {
        Collapsible { id, open: false }
    }

    /// The region opened or closed as the application says.
    pub fn open(self, open: bool) -> (r: Self)
        ensures
            r.open_spec() == open,
            r.id_spec() == self.id_spec(),
    {
        Collapsible { open, ..self }
    }

    /// Whether the content is revealed.
    pub fn is_open(&self) -> (r: bool)
        ensures
            r == self.open_spec(),
    {
        self.open
    }
}

} // verus!
