use madpinger::batch::{parse_batch_line, should_pause, split_line, BatchError};
use madpinger::search::schema::{CourseIdObj, SearchedCourse, TitleSuggestion};
use madpinger::search::{get_payload, search_csv_row, search_hit_line, SEARCH_CSV_HEADER};
use madpinger::section::schema::{SchoolCollege, Subject};
use madpinger::section::section_url;
use madpinger::text::decimal_string;
use madpinger::{default_client_headers, CourseStatusFilters};

fn template(term_code: &str, search: &str, page_size: usize, statuses: &str) -> String {
    format!(
        r##"{{
    "selectedTerm": "{term_code}",
    "queryString": "{search}",
    "filters": [
    {{
      "has_child": {{
        "type": "enrollmentPackage",
        "query": {{
          "bool": {{
            "must": [
            {{
              "match": {{
                "packageEnrollmentStatus.status": "{statuses}"
              }}
            }},
            {{
              "match": {{
                "published": true
              }}
            }}
            ]
          }}
        }}
      }}
    }}
    ],
    "page": 1,
    "pageSize": {page_size},
    "sortOrder": "SCORE"
  }}"##
    )
}

#[test]
fn payload_with_all_statuses() {
    let filters = CourseStatusFilters::new(true, true, true);
    let p = get_payload("1242", "data structures", 10, filters);
    assert_eq!(p, template("1242", "data structures", 10, "OPEN WAITLISTED CLOSED"));
    assert!(p.contains("\"pageSize\": 10,"));
}

#[test]
fn payload_leaves_unselected_statuses_empty() {
    let p = get_payload("1234", "calc", 250, CourseStatusFilters::new(false, true, false));
    assert_eq!(p, template("1234", "calc", 250, " WAITLISTED "));
    let q = get_payload("1234", "", 0, CourseStatusFilters::new(true, false, true));
    assert_eq!(q, template("1234", "", 0, "OPEN  CLOSED"));
}

#[test]
fn filters_from_flags() {
    assert_eq!(
        CourseStatusFilters::from_flags(false, false, false),
        CourseStatusFilters { open: true, waitlisted: true, closed: true }
    );
    assert_eq!(
        CourseStatusFilters::from_flags(false, true, false),
        CourseStatusFilters { open: false, waitlisted: true, closed: false }
    );
}

#[test]
fn section_address() {
    assert_eq!(
        section_url("1242", "266", "024798"),
        "https://public.enroll.wisc.edu/api/search/v1/enrollmentPackages/1242/266/024798"
    );
}

#[test]
fn default_headers_pin_host_and_agent() {
    let h = default_client_headers();
    assert_eq!(h.len(), 2);
    assert_eq!(h.get("host").unwrap().to_str().unwrap(), "public.enroll.wisc.edu");
    assert_eq!(
        h.get("user-agent").unwrap().to_str().unwrap(),
        "Mozilla/5.0 (X11; Ubuntu; Linux x86_64; rv:109.0) Gecko/20100101 Firefox/111.0"
    );
}

#[test]
fn decimal_rendering() {
    assert_eq!(decimal_string(0), "0");
    assert_eq!(decimal_string(7), "7");
    assert_eq!(decimal_string(10), "10");
    assert_eq!(decimal_string(1234567890), "1234567890");
    assert_eq!(decimal_string(usize::MAX), usize::MAX.to_string());
}

fn hit() -> SearchedCourse {
    SearchedCourse {
        term_code: "1242".to_string(),
        course_id: "024798".to_string(),
        subject: Subject {
            term_code: "1242".to_string(),
            subject_code: "266".to_string(),
            description: "COMPUTER SCIENCES".to_string(),
            short_description: "COMP SCI".to_string(),
            formal_description: "COMPUTER SCIENCES".to_string(),
            undergraduate_catalog_uri: None,
            department_uri: None,
            udds_funding_source: "A48".to_string(),
            school_college: SchoolCollege {
                academic_org_code: "L".to_string(),
                academic_group_code: "L&S".to_string(),
                short_description: "L&S".to_string(),
                formal_description: "Letters and Science".to_string(),
                udds_code: None,
                school_college_uri: None,
            },
            footnotes: vec![],
            department_owner_academic_org_code: "L48".to_string(),
        },
        catalog_number: "252".to_string(),
        approved_for_topics: false,
        topics: vec![],
        minimum_credits: 3,
        maximum_credits: 3,
        credit_range: "3".to_string(),
        first_taught: None,
        last_taught: None,
        typically_offered: "Fall, Spring".to_string(),
        general_ed: None,
        ethnic_studies: None,
        breadths: vec![],
        letters_and_science_credits: None,
        workplace_experience: None,
        foreign_language: None,
        levels: vec![],
        open_to_first_year: true,
        enrollment_prerequisites: None,
        title: "Introduction to Computer Engineering".to_string(),
        description: "".to_string(),
        catalog_print_flag: true,
        currently_taught: true,
        repeatable: "N".to_string(),
        course_designation: "COMP SCI 252".to_string(),
        course_designation_raw: "COMP SCI 252".to_string(),
        full_course_designation: "COMPUTER SCIENCES 252".to_string(),
        full_course_designation_raw: "COMPUTER SCIENCES 252".to_string(),
        last_updated: 0,
        catalog_sort: "00252".to_string(),
        subject_aggregate: "COMPUTER SCIENCES 266".to_string(),
        title_suggest: TitleSuggestion {
            input: vec![],
            payload: CourseIdObj { course_id: "024798".to_string() },
        },
        matched_queries: None,
    }
}

#[test]
fn search_hit_csv_row() {
    assert_eq!(
        SEARCH_CSV_HEADER,
        "term_code,subject_code,course_id,course_designation,title\n"
    );
    assert_eq!(
        search_csv_row(&hit()),
        "1242,266,024798,\"COMP SCI 252\",\"Introduction to Computer Engineering\"\n"
    );
}

#[test]
fn search_hit_console_line() {
    let h = hit();
    let expected = format!(
        "cid: {:<10} sc: {:<3} - {:<15} - {}",
        h.course_id, h.subject.subject_code, h.course_designation, h.title
    );
    assert_eq!(search_hit_line(&h), expected);
    assert_eq!(
        search_hit_line(&h),
        "cid: 024798     sc: 266 - COMP SCI 252    - Introduction to Computer Engineering"
    );
}

#[test]
fn batch_line_fields() {
    let id = parse_batch_line("1242,266,024798,COMP SCI 252,Intro").unwrap();
    assert_eq!(id.term_code, "1242");
    assert_eq!(id.subject_code, "266");
    assert_eq!(id.course_id, "024798");
    let wide = parse_batch_line("1242,266,024798,\"X\",\"Y\",extra").unwrap();
    assert_eq!(wide.course_id, "024798");
    let empty = parse_batch_line(",,,,").unwrap();
    assert_eq!(empty.term_code, "");
}

#[test]
fn short_batch_line_is_malformed() {
    assert_eq!(parse_batch_line("1242,266,024798"), Err(BatchError::MalformedBatchLine));
    assert_eq!(parse_batch_line(""), Err(BatchError::MalformedBatchLine));
    assert_eq!(parse_batch_line("a,b,c,d"), Err(BatchError::MalformedBatchLine));
}

#[test]
fn split_keeps_empty_fields() {
    assert_eq!(split_line("a,,b"), vec!["a".to_string(), "".to_string(), "b".to_string()]);
    assert_eq!(split_line(""), vec!["".to_string()]);
    assert_eq!(split_line("é,ü"), vec!["é".to_string(), "ü".to_string()]);
}

#[test]
fn pause_after_each_batch() {
    assert!(!should_pause(0, 50));
    assert!(!should_pause(49, 50));
    assert!(should_pause(50, 50));
    assert!(should_pause(100, 50));
    assert!(!should_pause(101, 50));
}
