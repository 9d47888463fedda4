//! A client library for the public course search and enroll service: the
//! course-section record model, the search request payload, and the
//! enrollment report derived from fetched records.
use vstd::prelude::*;

pub mod batch;
pub mod config;
pub mod headers;
pub mod report;
pub mod search;
pub mod section;
pub mod text;

pub use headers::default_client_headers;
pub use report::report_course_sections;

verus! {

/// The file that lists course identifiers for batch lookups.
pub const API_SRC_FILE: &'static str = "course_sections.csv";

/// How many hits a search asks for when no size is given.
pub const DEFAULT_PAGE_SIZE: usize = 10;

/// The term looked up when no term code is given.
pub const DEFAULT_TERM_CODE: &'static str = "1242";

/// How many records a listing shows when no size is given.
pub const DEFAULT_LISTING_SIZE: usize = 5;

/// A search filter for any combination of open, waitlisted and closed
/// courses.
#[derive(Debug, Clone, Copy, PartialEq, Eq, Structural)]
pub struct CourseStatusFilters {
    pub open: bool,
    pub waitlisted: bool,
    pub closed: bool,
}

impl CourseStatusFilters {
    /// A filter with the given statuses selected.
    pub fn new(open: bool, waitlisted: bool, closed: bool) -> (r: CourseStatusFilters)
        ensures
            r == (CourseStatusFilters { open, waitlisted, closed }),
    {
        CourseStatusFilters { open, waitlisted, closed }
    }

    /// The filter for a set of command flags: the selected statuses, or all
    /// three when none is selected, since a search for no status at all
    /// can find nothing.
    pub fn from_flags(open: bool, waitlisted: bool, closed: bool) -> (r: CourseStatusFilters)
        ensures
            !open && !waitlisted && !closed ==> r == (CourseStatusFilters {
                open: true,
                waitlisted: true,
                closed: true,
            }),
            open || waitlisted || closed ==> r == (CourseStatusFilters { open, waitlisted, closed }),
    {
        if !open && !waitlisted && !closed {
            CourseStatusFilters { open: true, waitlisted: true, closed: true }
        } else {
            CourseStatusFilters { open, waitlisted, closed }
        }
    }
}

} // verus!
