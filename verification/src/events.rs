//! Decides what a window event causes to be displayed.
//!
//! The run loop subscribes to window events; each event carries a change kind
//! and a descriptor of the container it concerns. Only two kinds matter: a
//! focus change always shows the new container's name (when it has one), and a
//! title change shows the name only when the container is the focused one.

use vstd::prelude::*;

verus! {

/// The kind of change a window event reports.
#[derive(Clone, Copy, PartialEq, Eq, Structural, Debug)]
pub enum WindowChangeKind {
    /// Input focus moved to the container.
    Focus,
    /// The container's title changed.
    Title,
    /// Any other change; never displayed.
    Other,
}

/// What an event says about the container it concerns.
pub struct EventContainer {
    /// The container's title, if it has one.
    pub name: Option<String>,
    /// Whether the container currently holds input focus.
    pub focused: bool,
}

/// The title an event causes to be displayed, if any: a focus change shows
/// the container's name; a title change shows it only for the focused
/// container; anything else shows nothing.
pub open spec fn event_title(kind: WindowChangeKind, container: EventContainer) -> Option<String> {
    match kind {
        WindowChangeKind::Focus => container.name,
        WindowChangeKind::Title => if container.focused {
            container.name
        } else {
            None
        },
        WindowChangeKind::Other => None,
    }
}

/// Returns the title to display for one incoming event, or `None` when the
/// event calls for no output.
pub fn event_output(kind: WindowChangeKind, container: EventContainer) -> (r: Option<String>)
    ensures
        r == event_title(kind, container),
{
    match kind {
        WindowChangeKind::Focus => container.name,
        WindowChangeKind::Title => if container.focused {
            container.name
        } else {
            None
        },
        WindowChangeKind::Other => None,
    }
}

} // verus!
