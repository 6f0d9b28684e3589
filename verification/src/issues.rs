//! The tracker's data as the workflow engine sees it: an issue with its
//! labels, fetched once and immutable afterwards.

use vstd::prelude::*;

verus! {

/// A named tag on an issue. Labels are compared by name only; the color is
/// display information.
#[derive(Debug, Clone)]
pub struct Label {
    pub name: String,
    pub color: String,
}

/// A unit of work in the remote tracker.
#[derive(Debug, Clone)]
pub struct Issue {
    /// Positive identifier, unique within a tracker repository.
    pub number: u64,
    pub title: String,
    /// Canonical URL of the issue.
    pub url: String,
    pub labels: Vec<Label>,
}

} // verus!
