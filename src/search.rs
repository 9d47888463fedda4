//! The course search: its request payload and the model of its response.
use vstd::prelude::*;

pub mod schema;

use crate::section::schema::Status;
use crate::search::schema::SearchedCourse;
use crate::text::{decimal, pad_right, push_decimal, push_padded};
use crate::CourseStatusFilters;

verus! {

/// Where search requests are posted.
pub const SEARCH_POST_URI_BASE: &'static str = "https://public.enroll.wisc.edu/api/search/v1";

/// The file that keeps the last search response.
pub const OUTPUT_FILE_NAME: &'static str = "response.json";

/// The payload text up to the term code.
pub const PAYLOAD_HEAD: &'static str = "{\n    \"selectedTerm\": \"";

/// The payload text between the term code and the query string.
pub const PAYLOAD_QUERY: &'static str = "\",\n    \"queryString\": \"";

/// The payload text between the query string and the status filter: a
/// match on the package status, joined with a match on `published`.
pub const PAYLOAD_FILTERS: &'static str = "\",\n    \"filters\": [\n    {\n      \"has_child\": {\n        \"type\": \"enrollmentPackage\",\n        \"query\": {\n          \"bool\": {\n            \"must\": [\n            {\n              \"match\": {\n                \"packageEnrollmentStatus.status\": \"";

/// The payload text between the status filter and the page size.
pub const PAYLOAD_PAGE: &'static str = "\"\n              }\n            },\n            {\n              \"match\": {\n                \"published\": true\n              }\n            }\n            ]\n          }\n        }\n      }\n    }\n    ],\n    \"page\": 1,\n    \"pageSize\": ";

/// The payload text after the page size.
pub const PAYLOAD_TAIL: &'static str = ",\n    \"sortOrder\": \"SCORE\"\n  }";

/// The token for one status in the filter: the status's own token when it
/// is selected, else nothing.
pub open spec fn filter_token(selected: bool, status: Status) -> Seq<char> {
    if selected {
        status.token()
    } else {
        Seq::empty()
    }
}

/// The status filter: the three tokens joined by single spaces, each one
/// empty when its status is not selected.
pub open spec fn status_filter(filters: CourseStatusFilters) -> Seq<char> {
    filter_token(filters.open, Status::Open) + " "@ + filter_token(filters.waitlisted, Status::Waitlisted)
        + " "@ + filter_token(filters.closed, Status::Closed)
}

/// The JSON body of a search request.
pub open spec fn payload(
    term_code: Seq<char>,
    search: Seq<char>,
    page_size: nat,
    filters: CourseStatusFilters,
) -> Seq<char> {
    PAYLOAD_HEAD@ + term_code + PAYLOAD_QUERY@ + search + PAYLOAD_FILTERS@ + status_filter(filters)
        + PAYLOAD_PAGE@ + decimal(page_size) + PAYLOAD_TAIL@
}

fn push_filter_token(out: &mut String, selected: bool, status: Status)
    ensures
        final(out)@ == old(out)@ + filter_token(selected, status),
{
    if selected {
        out.append(status.as_str());
    } else {
        assert(old(out)@ + filter_token(selected, status) =~= old(out)@);
    }
}

/// The JSON body of a search for `search` in term `term_code`, asking for
/// `page_size` hits of published courses whose package status is one of
/// those selected in `filters`.
pub fn get_payload(term_code: &str, search: &str, page_size: usize, filters: CourseStatusFilters) -> (r:
    String)
    ensures
        r@ == payload(term_code@, search@, page_size as nat, filters),
{
    let mut s = String::new();
    s.append(PAYLOAD_HEAD);
    s.append(term_code);
    s.append(PAYLOAD_QUERY);
    s.append(search);
    s.append(PAYLOAD_FILTERS);
    push_filter_token(&mut s, filters.open, Status::Open);
    s.append(" ");
    push_filter_token(&mut s, filters.waitlisted, Status::Waitlisted);
    s.append(" ");
    push_filter_token(&mut s, filters.closed, Status::Closed);
    s.append(PAYLOAD_PAGE);
    push_decimal(&mut s, page_size);
    s.append(PAYLOAD_TAIL);
    assert(s@ =~= payload(term_code@, search@, page_size as nat, filters));
    s
}

/// The header line of a file of search hits.
pub const SEARCH_CSV_HEADER: &'static str = "term_code,subject_code,course_id,course_designation,title\n";

/// The file line of a search hit: term code, subject code and course id,
/// then the designation and the title in double quotes.
pub open spec fn csv_row(hit: SearchedCourse) -> Seq<char> {
    hit.subject.term_code@ + ","@ + hit.subject.subject_code@ + ","@ + hit.course_id@ + ",\""@
        + hit.course_designation@ + "\",\""@ + hit.title@ + "\"\n"@
}

/// The console line of a search hit, in columns: the course id in ten
/// characters, the subject code in three, the designation in fifteen, then
/// the title.
pub open spec fn hit_line(hit: SearchedCourse) -> Seq<char> {
    "cid: "@ + pad_right(hit.course_id@, 10) + " sc: "@ + pad_right(hit.subject.subject_code@, 3)
        + " - "@ + pad_right(hit.course_designation@, 15) + " - "@ + hit.title@
}

/// The file line of a search hit, ending with a line break.
pub fn search_csv_row(hit: &SearchedCourse) -> (r: String)
    ensures
        r@ == csv_row(*hit),
{
    let mut s = String::new();
    s.append(hit.subject.term_code.as_str());
    s.append(",");
    s.append(hit.subject.subject_code.as_str());
    s.append(",");
    s.append(hit.course_id.as_str());
    s.append(",\"");
    s.append(hit.course_designation.as_str());
    s.append("\",\"");
    s.append(hit.title.as_str());
    s.append("\"\n");
    assert(s@ =~= csv_row(*hit));
    s
}

/// The console line of a search hit.
pub fn search_hit_line(hit: &SearchedCourse) -> (r: String)
    ensures
        r@ == hit_line(*hit),
{
    let mut s = String::from_str("cid: ");
    push_padded(&mut s, hit.course_id.as_str(), 10);
    s.append(" sc: ");
    push_padded(&mut s, hit.subject.subject_code.as_str(), 3);
    s.append(" - ");
    push_padded(&mut s, hit.course_designation.as_str(), 15);
    s.append(" - ");
    s.append(hit.title.as_str());
    assert(s@ =~= hit_line(*hit));
    s
}

} // verus!
