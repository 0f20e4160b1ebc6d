//! Small value types of the widgets: divider styles, dock events and how a
//! dock area coalesces layout changes, and list row modes.
use vstd::prelude::*;

verus! {

/// Line style of a divider.
#[derive(Debug, Clone, Copy, PartialEq, Eq, Structural)]
pub enum DividerStyle {
    /// Solid continuous line.
    Solid,
    /// Dashed line with gaps.
    Dashed,
}

impl Default for DividerStyle {
    fn default() -> (r: Self)
        ensures
            r == DividerStyle::Solid,
    {
        DividerStyle::Solid
    }
}

/// What a dock reports; `D` is the dragged item.
#[derive(Debug, Clone, Copy, PartialEq, Eq)]
pub enum DockEvent<D> {
    /// The layout changed; subscribers save it.
    LayoutChanged,
    /// A dragged item was dropped.
    DragDrop(D),
}

/// Coalesces a dock area's layout changes: the first change reports
/// `LayoutChanged` and schedules one refresh; further changes before that
/// refresh runs report nothing.
pub struct LayoutChangeGate {
    pending: bool,
}

impl LayoutChangeGate {
    pub closed spec fn pending_spec(&self) -> bool {
        self.pending
    }

    /// Nothing pending.
    pub fn new() -> (r: Self)
        ensures
            !r.pending_spec(),
    {
        LayoutChangeGate { pending: false }
    }

    /// Whether a refresh is scheduled and not yet run.
    pub fn pending_layout_change(&self) -> (r: bool)
        ensures
            r == self.pending_spec(),
    {
        self.pending
    }

    /// A panel's layout changed: returns whether to report it and schedule
    /// the refresh, which is so only when none is pending.
    pub fn on_layout_changed(&mut self) -> (report: bool)
        ensures
            report == !old(self).pending_spec(),
            final(self).pending_spec(),
    {
        if self.pending {
            return false;
        }
        self.pending = true;
        true
    }

    /// The scheduled refresh ran.
    pub fn on_refreshed(&mut self)
        ensures
            !final(self).pending_spec(),
    {
        self.pending = false;
    }
}

/// Whether a list row is an item or a separator line.
#[derive(Debug, Clone, Copy, PartialEq, Eq, Structural)]
pub enum ListItemMode {
    Entry,
    Separator,
}

impl Default for ListItemMode {
    fn default() -> (r: Self)
        ensures
            r == ListItemMode::Entry,
    {
        ListItemMode::Entry
    }
}

impl ListItemMode {
    /// Whether the row is a separator.
    pub fn is_separator(&self) -> (r: bool)
        ensures
            r == (*self is Separator),
    {
        match self {
            ListItemMode::Separator => true,
            ListItemMode::Entry => false,
        }
    }
}

/// The loading row shown at the end of a list.
#[derive(Debug, Clone, Copy, PartialEq, Eq, Structural)]
pub struct Loading;

} // verus!
