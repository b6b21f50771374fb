//! Markers: what the kernel sink is asked to write.

use vstd::prelude::*;

verus! {

/// The two kinds of marker the kernel trace buffer accepts.
#[derive(Clone, Copy, Debug, PartialEq, Eq, Structural)]
pub enum MarkerKind {
    /// Opens a slice; carries a label.
    Begin,
    /// Closes the most recently opened slice; carries nothing.
    End,
}

/// One marker, to be handed to the sink in a single write.
#[derive(Clone, Debug, PartialEq, Eq)]
pub struct Marker {
    pub kind: MarkerKind,
    pub payload: String,
}

/// The kind and text of a [`Marker`].
pub struct MarkerText {
    pub kind: MarkerKind,
    pub payload: Seq<char>,
}

impl View for Marker {
    type V = MarkerText;

    open spec fn view(&self) -> MarkerText {
        MarkerText { kind: self.kind, payload: self.payload@ }
    }
}

/// The `begin` marker that carries `label`.
pub open spec fn begin_marker(label: Seq<char>) -> MarkerText {
    MarkerText { kind: MarkerKind::Begin, payload: label }
}

/// The `end` marker. Its payload is empty.
pub open spec fn end_marker() -> MarkerText {
    MarkerText { kind: MarkerKind::End, payload: Seq::empty() }
}

impl Marker {
    /// The `begin` marker that carries `label`.
    pub fn begin(label: String) -> (marker: Marker)
        ensures
            marker@ == begin_marker(label@),
    {
        Marker { kind: MarkerKind::Begin, payload: label }
    }

    /// The `end` marker.
    pub fn end() -> (marker: Marker)
        ensures
            marker@ == end_marker(),
    {
        Marker { kind: MarkerKind::End, payload: String::new() }
    }

    /// Whether this is a `begin` marker.
    pub fn is_begin(&self) -> (yes: bool)
        ensures
            yes == (self@.kind == MarkerKind::Begin),
    {
        match self.kind {
            MarkerKind::Begin => true,
            MarkerKind::End => false,
        }
    }
}

} // verus!
