//! Timeline items as the UI renders them: the kinds the core owns.

use vstd::prelude::*;

verus! {

/// A timeline item that could not be interpreted, shown as an error.
#[derive(Clone, Debug)]
pub struct FrontendTimelineErrorItem {
    /// A description of what went wrong.
    pub error: String,
}

/// A timeline item that renders no event: a separator owned by the view.
#[derive(Clone, Copy, Debug, PartialEq, Eq, Structural)]
pub enum FrontendVirtualTimelineItem {
    /// A divider between messages of two days or months.
    DateDivider,
    /// The user's own read marker.
    ReadMarker,
    /// The start of the timeline: every event before it is known.
    TimelineStart,
}

} // verus!
