//! The command-line request model: which lookup to run, with what values.
use vstd::prelude::*;

verus! {

/// A parsed command line.
#[derive(Debug, Clone, PartialEq, Eq)]
pub struct Args {
    pub action: Action,
}

/// The lookups the command line offers.
#[derive(Debug, Clone, PartialEq, Eq)]
pub enum Action {
    /// The enrollment packages of one course.
    Section { subject_code: String, course_id: String, term_code: Option<String> },
    /// A search for courses, filtered by package status.
    Search {
        search_key: String,
        size: Option<usize>,
        term_code: Option<String>,
        open: bool,
        waitlisted: bool,
        closed: bool,
    },
    /// A batch lookup over the listing file.
    Listing { line_start: Option<usize>, size: Option<usize>, print: bool },
}

} // verus!
