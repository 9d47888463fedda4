//! The enrollment-package lookup for one course: its request address and
//! the record model of what it returns.
use vstd::prelude::*;

pub mod schema;

verus! {

/// Where the enrollment packages of a course are looked up.
pub const SECTION_GET_URI_BASE: &'static str =
    "https://public.enroll.wisc.edu/api/search/v1/enrollmentPackages";

/// The address of the enrollment packages of a course:
/// `{base}/{term_code}/{subject_code}/{course_id}`.
pub open spec fn section_address(
    term_code: Seq<char>,
    subject_code: Seq<char>,
    course_id: Seq<char>,
) -> Seq<char> {
    SECTION_GET_URI_BASE@ + "/"@ + term_code + "/"@ + subject_code + "/"@ + course_id
}

/// The address of the enrollment packages of course `course_id` of subject
/// `subject_code` in term `term_code`.
pub fn section_url(term_code: &str, subject_code: &str, course_id: &str) -> (r: String)
    ensures
        r@ == section_address(term_code@, subject_code@, course_id@),
{
    let mut s = String::from_str(SECTION_GET_URI_BASE);
    s.append("/");
    s.append(term_code);
    s.append("/");
    s.append(subject_code);
    s.append("/");
    s.append(course_id);
    s
}

} // verus!
