//! The model of a search response.
use vstd::prelude::*;

use crate::section::schema::Subject;

verus! {

/// A search response: the number of matches and the hits of this page.
#[derive(Debug, Clone, PartialEq, Eq)]
pub struct SearchApiPing {
    pub found: usize,
    pub hits: Vec<SearchedCourse>,
}

/// A catalog-level course found by a search.
#[derive(Debug, Clone, PartialEq, Eq)]
pub struct SearchedCourse {
    pub term_code: String,
    pub course_id: String,
    pub subject: Subject,
    pub catalog_number: String,
    pub approved_for_topics: bool,
    pub topics: Vec<Topic>,
    pub minimum_credits: usize,
    pub maximum_credits: usize,
    pub credit_range: String,
    pub first_taught: Option<String>,
    pub last_taught: Option<String>,
    pub typically_offered: String,
    pub general_ed: Option<ReqGoalAbbrev>,
    pub ethnic_studies: Option<ReqGoalAbbrev>,
    pub breadths: Vec<ReqGoalAbbrev>,
    pub letters_and_science_credits: Option<ReqGoalAbbrev>,
    pub workplace_experience: Option<ReqGoalAbbrev>,
    pub foreign_language: Option<ReqGoalAbbrev>,
    pub levels: Vec<ReqGoalAbbrev>,
    pub open_to_first_year: bool,
    pub enrollment_prerequisites: Option<String>,
    pub title: String,
    pub description: String,
    pub catalog_print_flag: bool,
    pub currently_taught: bool,
    pub repeatable: String,
    pub course_designation: String,
    pub course_designation_raw: String,
    pub full_course_designation: String,
    pub full_course_designation_raw: String,
    pub last_updated: u64,
    pub catalog_sort: String,
    pub subject_aggregate: String,
    pub title_suggest: TitleSuggestion,
    /// Its wire name is `matched_queries`, unlike the other fields.
    pub matched_queries: Option<Vec<String>>,
}

#[derive(Debug, Clone, PartialEq, Eq)]
pub struct Topic {
    pub short_description: String,
    pub long_description: String,
    pub id: usize,
    /// The term code of the last term the topic was taught.
    pub topic_last_taught: String,
}

/// Links a title (seen in `input`) with the course id.
#[derive(Debug, Clone, PartialEq, Eq)]
pub struct TitleSuggestion {
    pub input: Vec<String>,
    pub payload: CourseIdObj,
}

#[derive(Debug, Clone, PartialEq, Eq)]
pub struct CourseIdObj {
    pub course_id: String,
}

/// A requirement or goal, as a code and its description.
#[derive(Debug, Clone, PartialEq, Eq)]
pub struct ReqGoalAbbrev {
    pub code: String,
    pub description: String,
}

} // verus!
