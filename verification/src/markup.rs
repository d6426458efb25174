//! Pieces that views are made of.

use vstd::prelude::*;

verus! {

/// A button: the text on it and the message that a click sends.
#[derive(Clone, Debug, PartialEq, Eq)]
pub struct Button<M> {
    pub label: String,
    pub on_click: M,
}

/// A component that a view embeds. The host mounts it where the view places
/// it, and keeps its state for as long as it is mounted.
#[derive(Clone, Copy, PartialEq, Eq, Structural, Debug)]
pub enum Child {
    /// The books component.
    Books,
}

} // verus!
