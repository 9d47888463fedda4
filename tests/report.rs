use madpinger::report::{
    classify, course_section_line, meet_detail_string, open_seats, EnrollInfoType, FailurePolicy,
    ReportEntry, ReportError,
};
use madpinger::report_course_sections;
use madpinger::section::schema::{
    AssemblyType, ClassUniqueId, Consent, CourseSection, EnrollmentStatus, SchoolCollege, Section,
    Status, Subject,
};

fn subject(short: &str) -> Subject {
    Subject {
        term_code: "1242".to_string(),
        subject_code: "266".to_string(),
        description: "COMPUTER SCIENCES".to_string(),
        short_description: short.to_string(),
        formal_description: "COMPUTER SCIENCES".to_string(),
        undergraduate_catalog_uri: None,
        department_uri: None,
        udds_funding_source: "A48".to_string(),
        school_college: SchoolCollege {
            academic_org_code: "L".to_string(),
            academic_group_code: "L&S".to_string(),
            short_description: "L&S".to_string(),
            formal_description: "Letters and Science".to_string(),
            udds_code: None,
            school_college_uri: None,
        },
        footnotes: vec![],
        department_owner_academic_org_code: "L48".to_string(),
    }
}

fn enrollment(cap: usize, enrolled: usize, wcap: usize, wsize: usize) -> EnrollmentStatus {
    EnrollmentStatus {
        class_unique_id: ClassUniqueId { term_code: "1242".to_string(), class_number: 1 },
        capacity: cap,
        currently_enrolled: enrolled,
        waitlist_capacity: wcap,
        waitlist_current_size: wsize,
        open_seats: 0,
        open_waitlist_spots: 0,
        aggregate_capacity: None,
        aggregate_currently_enrolled: None,
        aggregate_waitlist_capacity: None,
        aggregate_waitlist_current_size: None,
    }
}

fn section(kind: AssemblyType, number: &str) -> Section {
    Section {
        class_unique_id: ClassUniqueId { term_code: "1242".to_string(), class_number: 1 },
        published: true,
        start_date: 0,
        end_date: 0,
        active: true,
        session_code: "A1".to_string(),
        subject: subject("COMP SCI"),
        catalog_number: "252".to_string(),
        course_id: "024798".to_string(),
        assembly_type: kind,
        section_number: number.to_string(),
        honors: None,
        com_b: false,
        graded_component: true,
        instruction_mode: "Classroom Instruction".to_string(),
        add_consent: Consent { code: "NO".to_string(), description: "No".to_string() },
        drop_consent: Consent { code: "NO".to_string(), description: "No".to_string() },
        cross_listing: None,
        class_meetings: vec![],
        enrollment_status: enrollment(0, 0, 0, 0),
        footnotes: vec![],
        class_materials: vec![],
        instructors: vec![],
        instructor: None,
    }
}

fn course(sections: Vec<Section>, status: Status, es: Option<EnrollmentStatus>) -> CourseSection {
    let mut cs = CourseSection::default();
    cs.catalog_number = "252".to_string();
    cs.sections = sections;
    cs.package_enrollment_status.status = status;
    cs.enrollment_status = es;
    cs
}

fn lines(entries: &[ReportEntry]) -> Vec<String> {
    entries
        .iter()
        .filter_map(|e| match e {
            ReportEntry::Line(s) => Some(s.clone()),
            ReportEntry::Notice(_) => None,
        })
        .collect()
}

#[test]
fn example_scenario_fallback_line() {
    let cs = course(
        vec![section(AssemblyType::Lec, "1"), section(AssemblyType::Dis, "301")],
        Status::Open,
        Some(enrollment(30, 28, 5, 2)),
    );
    assert_eq!(
        course_section_line(&cs).unwrap(),
        "COMP SCI 252 - LEC 1, DIS 301: OPEN       (2 open seats, 28/30 enrolled, 2/5 waitlisted) [FB]"
    );
}

#[test]
fn aggregate_numbers_win_when_all_present() {
    let mut es = enrollment(30, 28, 5, 2);
    es.aggregate_capacity = Some(120);
    es.aggregate_currently_enrolled = Some(100);
    es.aggregate_waitlist_capacity = Some(20);
    es.aggregate_waitlist_current_size = Some(7);
    let cs = course(vec![section(AssemblyType::Lec, "1")], Status::Waitlisted, Some(es));
    assert_eq!(
        course_section_line(&cs).unwrap(),
        "COMP SCI 252 - LEC 1: WAITLISTED (20 open seats, 100/120 enrolled, 7/20 waitlisted) [AGG]"
    );
}

#[test]
fn partial_aggregate_is_mixed_per_field() {
    let mut es = enrollment(30, 28, 5, 2);
    es.aggregate_capacity = Some(40);
    es.aggregate_waitlist_current_size = Some(9);
    let cs = course(vec![section(AssemblyType::Lab, "302")], Status::Closed, Some(es));
    assert_eq!(
        course_section_line(&cs).unwrap(),
        "COMP SCI 252 - LAB 302: CLOSED     (12 open seats, 28/40 enrolled, 9/5 waitlisted) [MIX]"
    );
}

#[test]
fn over_enrolled_section_has_zero_open_seats() {
    let cs = course(
        vec![section(AssemblyType::Sem, "1")],
        Status::Closed,
        Some(enrollment(20, 25, 0, 0)),
    );
    assert_eq!(
        course_section_line(&cs).unwrap(),
        "COMP SCI 252 - SEM 1: CLOSED     (0 open seats, 25/20 enrolled, 0/0 waitlisted) [FB]"
    );
}

#[test]
fn open_seats_never_negative() {
    assert_eq!(open_seats(30, 28), 2);
    assert_eq!(open_seats(30, 30), 0);
    assert_eq!(open_seats(10, 12), 0);
    assert_eq!(open_seats(0, usize::MAX), 0);
    assert_eq!(open_seats(usize::MAX, 0), usize::MAX);
}

#[test]
fn classification_covers_every_combination() {
    for mask in 0u32..16 {
        let mut es = enrollment(1, 1, 1, 1);
        if mask & 1 != 0 {
            es.aggregate_capacity = Some(1);
        }
        if mask & 2 != 0 {
            es.aggregate_currently_enrolled = Some(1);
        }
        if mask & 4 != 0 {
            es.aggregate_waitlist_capacity = Some(1);
        }
        if mask & 8 != 0 {
            es.aggregate_waitlist_current_size = Some(1);
        }
        let expected = match mask.count_ones() {
            4 => EnrollInfoType::Aggregate,
            0 => EnrollInfoType::Fallback,
            _ => EnrollInfoType::Mix,
        };
        assert_eq!(classify(&es), expected);
    }
    assert_eq!(EnrollInfoType::Aggregate.as_str(), "AGG");
    assert_eq!(EnrollInfoType::Fallback.as_str(), "FB");
    assert_eq!(EnrollInfoType::Mix.as_str(), "MIX");
}

#[test]
fn empty_collection_gives_one_notice_and_no_line() {
    for policy in [FailurePolicy::SkipAndWarn, FailurePolicy::Abort] {
        let report = report_course_sections(&vec![], policy);
        assert_eq!(report.entries, vec![ReportEntry::Notice("No sections found.".to_string())]);
        assert_eq!(report.aborted, None);
    }
}

#[test]
fn meet_detail_separators() {
    let secs = vec![
        section(AssemblyType::Lec, "1"),
        section(AssemblyType::Dis, "301"),
        section(AssemblyType::Lab, "302"),
    ];
    let detail = meet_detail_string(&secs);
    assert_eq!(detail, "LEC 1, DIS 301, LAB 302");
    assert_eq!(detail.matches(", ").count(), 2);
    assert!(!detail.ends_with(", "));
    let one = meet_detail_string(&vec![section(AssemblyType::Ind, "7")]);
    assert_eq!(one, "IND 7");
    assert_eq!(meet_detail_string(&vec![]), "");
}

#[test]
fn record_without_enrollment_numbers() {
    let cs = course(vec![section(AssemblyType::Fld, "1")], Status::Closed, None);
    assert_eq!(
        course_section_line(&cs).unwrap(),
        "COMP SCI 252 - (no sections): CLOSED     (n/a)"
    );
}

#[test]
fn record_without_sections_has_no_line() {
    let cs = course(vec![], Status::Open, Some(enrollment(1, 0, 0, 0)));
    assert_eq!(course_section_line(&cs), None);
}

#[test]
fn skip_policy_warns_in_place_of_bad_record() {
    let good = course(vec![section(AssemblyType::Lec, "1")], Status::Open, None);
    let bad = course(vec![], Status::Open, None);
    let report =
        report_course_sections(&vec![good.clone(), bad, good], FailurePolicy::SkipAndWarn);
    assert_eq!(report.aborted, None);
    assert_eq!(report.entries.len(), 3);
    assert_eq!(
        report.entries[1],
        ReportEntry::Notice("record 1 lists no sections; skipped".to_string())
    );
    assert_eq!(lines(&report.entries).len(), 2);
    assert_eq!(
        report.entries[0],
        ReportEntry::Line("COMP SCI 252 - (no sections): OPEN       (n/a)".to_string())
    );
}

#[test]
fn abort_policy_stops_at_bad_record() {
    let good = course(vec![section(AssemblyType::Lec, "1")], Status::Open, None);
    let bad = course(vec![], Status::Open, None);
    let report = report_course_sections(&vec![good.clone(), bad, good], FailurePolicy::Abort);
    assert_eq!(report.aborted, Some(ReportError::MissingSectionDetail { index: 1 }));
    assert_eq!(report.entries.len(), 1);
    let all = report_course_sections(
        &vec![course(vec![section(AssemblyType::Lec, "1")], Status::Open, None)],
        FailurePolicy::Abort,
    );
    assert_eq!(all.aborted, None);
    assert_eq!(lines(&all.entries).len(), 1);
}
