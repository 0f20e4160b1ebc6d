//! Verified core of the woocraft widget library: text editing, list
//! navigation, paging, calendar navigation and other widget logic.
use vstd::prelude::*;

pub mod avatar;
pub mod badge;
pub mod button;
pub mod calendar;
pub mod caret;
pub mod checkbox;
pub mod collapsible;
pub mod color_picker;
pub mod dialog_stack;
pub mod editor;
pub mod editor_state;
pub mod input;
pub mod kbd;
pub mod label;
pub mod languages;
pub mod link;
pub mod list;
pub mod list_cache;
pub mod marker;
pub mod notification;
pub mod pagination;
pub mod selection;
pub mod text_offsets;
pub mod text_wrapper;
pub mod viewport;
pub mod widgets;

verus! {

} // verus!
