//! The enrollment report: one line per course section, derived from its
//! sections list and its enrollment numbers.
use vstd::prelude::*;

use crate::section::schema::{CourseSection, EnrollmentStatus, Section};
use crate::text::{decimal, pad_right, push_decimal};

verus! {

/// Which enrollment numbers a line shows.
#[derive(Debug, Clone, Copy, PartialEq, Eq, Structural)]
pub enum EnrollInfoType {
    /// All four aggregate numbers are present and shown.
    Aggregate,
    /// No aggregate number is present; the fallback numbers are shown.
    Fallback,
    /// Some aggregate numbers are present; each absent one is replaced by
    /// its fallback number.
    Mix,
}

impl EnrollInfoType {
    /// The label shown at the end of a line.
    pub open spec fn label(self) -> Seq<char> {
        match self {
            EnrollInfoType::Aggregate => "AGG"@,
            EnrollInfoType::Fallback => "FB"@,
            EnrollInfoType::Mix => "MIX"@,
        }
    }

    /// The label shown at the end of a line.
    pub fn as_str(&self) -> (r: &'static str)
        ensures
            r@ == self.label(),
    {
        match self {
            EnrollInfoType::Aggregate => "AGG",
            EnrollInfoType::Fallback => "FB",
            EnrollInfoType::Mix => "MIX",
        }
    }
}

/// How many of the four aggregate numbers are present.
pub open spec fn aggregate_count(es: EnrollmentStatus) -> nat {
    (if es.aggregate_capacity is Some { 1nat } else { 0nat }) + (
    if es.aggregate_currently_enrolled is Some { 1nat } else { 0nat }) + (
    if es.aggregate_waitlist_capacity is Some { 1nat } else { 0nat }) + (
    if es.aggregate_waitlist_current_size is Some { 1nat } else { 0nat })
}

/// The classification of a set of enrollment numbers by how many aggregate
/// numbers it has.
pub open spec fn info_type_of(es: EnrollmentStatus) -> EnrollInfoType {
    if aggregate_count(es) == 4 {
        EnrollInfoType::Aggregate
    } else if aggregate_count(es) == 0 {
        EnrollInfoType::Fallback
    } else {
        EnrollInfoType::Mix
    }
}

/// An aggregate number where present, else its fallback.
pub open spec fn used(aggregate: Option<usize>, fallback: usize) -> usize {
    match aggregate {
        Some(v) => v,
        None => fallback,
    }
}

/// Seats left: capacity less enrollment, or zero when the section is full
/// or over-enrolled.
pub open spec fn open_seat_count(capacity: int, enrolled: int) -> int {
    if capacity > enrolled {
        capacity - enrolled
    } else {
        0
    }
}

/// `LEC 1`: a section's format and number.
pub open spec fn section_label(s: Section) -> Seq<char> {
    s.assembly_type.token() + " "@ + s.section_number@
}

/// The labels of all sections, in order, separated by `, `.
pub open spec fn meet_detail(secs: Seq<Section>) -> Seq<char>
    decreases secs.len(),
{
    if secs.len() == 0 {
        Seq::empty()
    } else if secs.len() == 1 {
        section_label(secs[0])
    } else {
        meet_detail(secs.drop_last()) + ", "@ + section_label(secs.last())
    }
}

/// The course code of a record: the short subject name of its first
/// section, then its catalog number.
pub open spec fn course_code(cs: CourseSection) -> Seq<char>
    recommends
        cs.sections.len() > 0,
{
    cs.sections@[0].subject.short_description@ + " "@ + cs.catalog_number@
}

/// The numbers part of a line, from `(` to the closing `]`.
pub open spec fn numbers_detail(es: EnrollmentStatus) -> Seq<char> {
    let cap = used(es.aggregate_capacity, es.capacity);
    let enrolled = used(es.aggregate_currently_enrolled, es.currently_enrolled);
    let wcap = used(es.aggregate_waitlist_capacity, es.waitlist_capacity);
    let wsize = used(es.aggregate_waitlist_current_size, es.waitlist_current_size);
    " ("@ + decimal(open_seat_count(cap as int, enrolled as int) as nat) + " open seats, "@
        + decimal(enrolled as nat) + "/"@ + decimal(cap as nat) + " enrolled, "@ + decimal(
        wsize as nat,
    ) + "/"@ + decimal(wcap as nat) + " waitlisted) ["@ + info_type_of(es).label() + "]"@
}

/// The report line of a record that has at least one section.
pub open spec fn rendered_line(cs: CourseSection) -> Seq<char>
    recommends
        cs.sections.len() > 0,
{
    let label = pad_right(cs.package_enrollment_status.status.token(), 10);
    match cs.enrollment_status {
        Some(es) => course_code(cs) + " - "@ + meet_detail(cs.sections@) + ": "@ + label
            + numbers_detail(es),
        None => course_code(cs) + " - (no sections): "@ + label + " (n/a)"@,
    }
}

/// Classifies enrollment numbers by how many aggregate numbers they hold.
pub fn classify(es: &EnrollmentStatus) -> (r: EnrollInfoType)
    ensures
        r == info_type_of(*es),
{
    if es.aggregate_capacity.is_some() && es.aggregate_currently_enrolled.is_some()
        && es.aggregate_waitlist_capacity.is_some() && es.aggregate_waitlist_current_size.is_some() {
        EnrollInfoType::Aggregate
    } else if es.aggregate_capacity.is_none() && es.aggregate_currently_enrolled.is_none()
        && es.aggregate_waitlist_capacity.is_none()
        && es.aggregate_waitlist_current_size.is_none() {
        EnrollInfoType::Fallback
    } else {
        EnrollInfoType::Mix
    }
}

/// Seats left in a section, never below zero.
pub fn open_seats(capacity: usize, enrolled: usize) -> (r: usize)
    ensures
        r as int == open_seat_count(capacity as int, enrolled as int),
{
    if capacity > enrolled {
        capacity - enrolled
    } else {
        0
    }
}

fn or_fallback(aggregate: Option<usize>, fallback: usize) -> (r: usize)
    ensures
        r == used(aggregate, fallback),
{
    match aggregate {
        Some(v) => v,
        None => fallback,
    }
}

fn push_section_label(out: &mut String, s: &Section)
    ensures
        final(out)@ == old(out)@ + section_label(*s),
{
    out.append(s.assembly_type.as_str());
    out.append(" ");
    out.append(s.section_number.as_str());
    assert(final(out)@ =~= old(out)@ + section_label(*s));
}

/// The labels of all sections, in order, separated by `, `.
pub fn meet_detail_string(sections: &Vec<Section>) -> (r: String)
    ensures
        r@ == meet_detail(sections@),
{
    let mut out = String::new();
    let mut i: usize = 0;
    while i < sections.len()
        invariant
            i <= sections@.len(),
            out@ == meet_detail(sections@.take(i as int)),
        decreases sections@.len() - i,
    {
        let ghost before = out@;
        if i > 0 {
            out.append(", ");
        }
        push_section_label(&mut out, &sections[i]);
        proof {
            let next = sections@.take(i + 1);
            assert(next.drop_last() =~= sections@.take(i as int));
            assert(next.last() == sections@[i as int]);
            if i == 0 {
                assert(before =~= Seq::<char>::empty());
                assert(out@ =~= meet_detail(next));
            } else {
                assert(out@ =~= meet_detail(next));
            }
        }
        i = i + 1;
    }
    assert(sections@.take(sections@.len() as int) =~= sections@);
    out
}

fn push_numbers_detail(out: &mut String, es: &EnrollmentStatus)
    ensures
        final(out)@ == old(out)@ + numbers_detail(*es),
{
    let cap = or_fallback(es.aggregate_capacity, es.capacity);
    let enrolled = or_fallback(es.aggregate_currently_enrolled, es.currently_enrolled);
    let wcap = or_fallback(es.aggregate_waitlist_capacity, es.waitlist_capacity);
    let wsize = or_fallback(es.aggregate_waitlist_current_size, es.waitlist_current_size);
    let info = classify(es);
    out.append(" (");
    push_decimal(out, open_seats(cap, enrolled));
    out.append(" open seats, ");
    push_decimal(out, enrolled);
    out.append("/");
    push_decimal(out, cap);
    out.append(" enrolled, ");
    push_decimal(out, wsize);
    out.append("/");
    push_decimal(out, wcap);
    out.append(" waitlisted) [");
    out.append(info.as_str());
    out.append("]");
    assert(final(out)@ =~= old(out)@ + numbers_detail(*es));
}

/// Why a record could not be reported.
#[derive(Debug, Clone, Copy, PartialEq, Eq, Structural)]
pub enum ReportError {
    /// The record at `index` lists no sections, so it has no course code.
    MissingSectionDetail { index: usize },
}

/// What to do with a record that cannot be reported.
#[derive(Debug, Clone, Copy, PartialEq, Eq, Structural)]
pub enum FailurePolicy {
    /// Report a notice in its place and go on with the next record.
    SkipAndWarn,
    /// Stop at it.
    Abort,
}

/// One piece of report output, as a value.
pub enum EntryView {
    Line(Seq<char>),
    Notice(Seq<char>),
}

/// One piece of report output.
#[derive(Debug, Clone, PartialEq, Eq)]
pub enum ReportEntry {
    /// A data line.
    Line(String),
    /// A diagnostic for the error channel.
    Notice(String),
}

impl View for ReportEntry {
    type V = EntryView;

    open spec fn view(&self) -> EntryView {
        match self {
            ReportEntry::Line(s) => EntryView::Line(s@),
            ReportEntry::Notice(s) => EntryView::Notice(s@),
        }
    }
}

/// The outcome of reporting a collection of records.
#[derive(Debug, Clone, PartialEq, Eq)]
pub struct Report {
    /// The output, in the order of the records.
    pub entries: Vec<ReportEntry>,
    /// Under `FailurePolicy::Abort`, the record that stopped the report.
    pub aborted: Option<ReportError>,
}

/// The notice for an empty collection.
pub open spec fn empty_notice() -> Seq<char> {
    "No sections found."@
}

/// The notice that takes the place of a record without sections.
pub open spec fn skipped_notice(index: nat) -> Seq<char> {
    "record "@ + decimal(index) + " lists no sections; skipped"@
}

/// Whether a record can be reported: it lists at least one section.
pub open spec fn reportable(cs: CourseSection) -> bool {
    cs.sections.len() > 0
}

/// The entry for the record at `index` under the skip-and-warn policy.
pub open spec fn entry_for(cs: CourseSection, index: nat) -> EntryView {
    if reportable(cs) {
        EntryView::Line(rendered_line(cs))
    } else {
        EntryView::Notice(skipped_notice(index))
    }
}

/// The report line of one record; a record without sections has none.
pub fn course_section_line(cs: &CourseSection) -> (r: Option<String>)
    ensures
        r is None <==> !reportable(*cs),
        r matches Some(line) ==> line@ == rendered_line(*cs),
{
    if cs.sections.len() == 0 {
        return None;
    }
    let mut out = String::new();
    out.append(cs.sections[0].subject.short_description.as_str());
    out.append(" ");
    out.append(cs.catalog_number.as_str());
    let status = cs.package_enrollment_status.status.pad();
    match &cs.enrollment_status {
        Some(es) => {
            out.append(" - ");
            let detail = meet_detail_string(&cs.sections);
            out.append(detail.as_str());
            out.append(": ");
            out.append(status.as_str());
            push_numbers_detail(&mut out, es);
        },
        None => {
            out.append(" - (no sections): ");
            out.append(status.as_str());
            out.append(" (n/a)");
        },
    }
    assert(out@ =~= rendered_line(*cs));
    Some(out)
}

fn skipped_notice_string(index: usize) -> (r: String)
    ensures
        r@ == skipped_notice(index as nat),
{
    let mut out = String::new();
    out.append("record ");
    push_decimal(&mut out, index);
    out.append(" lists no sections; skipped");
    assert(out@ =~= skipped_notice(index as nat));
    out
}

/// Reports a collection of records, one entry per record in order.
///
/// An empty collection gives exactly one notice and no data line. A record
/// without sections gives a notice in its place under
/// `FailurePolicy::SkipAndWarn`; under `FailurePolicy::Abort` it ends the
/// report, which keeps the lines of the records before it.
pub fn report_course_sections(course_sections: &Vec<CourseSection>, policy: FailurePolicy) -> (r:
    Report)
    ensures
        course_sections@.len() == 0 ==> {
            &&& r.entries@.len() == 1
            &&& r.entries@[0]@ == EntryView::Notice(empty_notice())
            &&& r.aborted is None
        },
        course_sections@.len() > 0 && policy == FailurePolicy::SkipAndWarn ==> {
            &&& r.aborted is None
            &&& r.entries@.len() == course_sections@.len()
            &&& forall|i: int|
                0 <= i < course_sections@.len() ==> #[trigger] r.entries@[i]@ == entry_for(
                    course_sections@[i],
                    i as nat,
                )
        },
        course_sections@.len() > 0 && policy == FailurePolicy::Abort ==> {
            &&& r.aborted is None <==> (forall|i: int|
                0 <= i < course_sections@.len() ==> reportable(#[trigger] course_sections@[i]))
            &&& r.aborted is None ==> r.entries@.len() == course_sections@.len()
            &&& r.aborted matches Some(ReportError::MissingSectionDetail { index }) ==> {
                &&& index < course_sections@.len()
                &&& !reportable(course_sections@[index as int])
                &&& forall|j: int| 0 <= j < index ==> reportable(#[trigger] course_sections@[j])
                &&& r.entries@.len() == index
            }
            &&& forall|i: int|
                0 <= i < r.entries@.len() ==> #[trigger] r.entries@[i]@ == EntryView::Line(
                    rendered_line(course_sections@[i]),
                )
        },
{
    let mut entries: Vec<ReportEntry> = Vec::new();
    if course_sections.len() == 0 {
        proof {
            reveal_strlit("No sections found.");
        }
        entries.push(ReportEntry::Notice(String::from_str("No sections found.")));
        return Report { entries, aborted: None };
    }
    let mut i: usize = 0;
    while i < course_sections.len()
        invariant
            i <= course_sections@.len(),
            entries@.len() == i,
            policy == FailurePolicy::SkipAndWarn ==> forall|j: int|
                0 <= j < i ==> #[trigger] entries@[j]@ == entry_for(course_sections@[j], j as nat),
            policy == FailurePolicy::Abort ==> forall|j: int|
                0 <= j < i ==> reportable(#[trigger] course_sections@[j]),
            policy == FailurePolicy::Abort ==> forall|j: int|
                0 <= j < i ==> #[trigger] entries@[j]@ == EntryView::Line(
                    rendered_line(course_sections@[j]),
                ),
        decreases course_sections@.len() - i,
    {
        match course_section_line(&course_sections[i]) {
            Some(line) => {
                entries.push(ReportEntry::Line(line));
            },
            None => {
                match policy {
                    FailurePolicy::SkipAndWarn => {
                        entries.push(ReportEntry::Notice(skipped_notice_string(i)));
                    },
                    FailurePolicy::Abort => {
                        return Report {
                            entries,
                            aborted: Some(ReportError::MissingSectionDetail { index: i }),
                        };
                    },
                }
            },
        }
        i = i + 1;
    }
    Report { entries, aborted: None }
}

/// The number of places where `, ` starts in `s`.
pub open spec fn count_separators(s: Seq<char>) -> nat
    decreases s.len(),
{
    if s.len() < 2 {
        0
    } else {
        (if s[0] == ',' && s[1] == ' ' {
            1nat
        } else {
            0nat
        }) + count_separators(s.drop_first())
    }
}

/// Whether `s` ends with `, `.
pub open spec fn ends_with_separator(s: Seq<char>) -> bool {
    s.len() >= 2 && s[s.len() - 2] == ',' && s[s.len() - 1] == ' '
}

/// Whether a separator straddles the join of `a` and `b`.
pub open spec fn straddles(a: Seq<char>, b: Seq<char>) -> bool {
    a.len() > 0 && b.len() > 0 && a.last() == ',' && b[0] == ' '
}

proof fn lemma_count_concat(a: Seq<char>, b: Seq<char>)
    ensures
        count_separators(a + b) == count_separators(a) + count_separators(b) + (if straddles(a, b) {
            1nat
        } else {
            0nat
        }),
    decreases a.len(),
{
    if a.len() == 0 {
        assert(a + b =~= b);
    } else {
        lemma_count_concat(a.drop_first(), b);
        assert((a + b).drop_first() =~= a.drop_first() + b);
        if a.len() == 1 {
            assert(a.drop_first() =~= Seq::<char>::empty());
        }
    }
}

proof fn lemma_no_comma_no_separator(s: Seq<char>)
    requires
        forall|i: int| 0 <= i < s.len() ==> s[i] != ',',
    ensures
        count_separators(s) == 0,
    decreases s.len(),
{
    if s.len() >= 2 {
        lemma_no_comma_no_separator(s.drop_first());
    }
}

proof fn lemma_trailing_separator_counts(s: Seq<char>)
    requires
        ends_with_separator(s),
    ensures
        count_separators(s) >= 1,
{
    let head = s.take(s.len() - 2);
    let sep = s.subrange(s.len() - 2, s.len() as int);
    assert(head + sep =~= s);
    lemma_count_concat(head, sep);
    assert(count_separators(sep) >= 1);
}

proof fn lemma_label_has_no_separator(sec: Section)
    requires
        count_separators(sec.section_number@) == 0,
    ensures
        count_separators(section_label(sec)) == 0,
        !ends_with_separator(section_label(sec)),
        section_label(sec).len() > 0,
        section_label(sec)[0] != ' ',
{
    reveal_strlit("LEC");
    reveal_strlit("DIS");
    reveal_strlit("LAB");
    reveal_strlit("FLD");
    reveal_strlit("IND");
    reveal_strlit("SEM");
    reveal_strlit(" ");
    let t = sec.assembly_type.token();
    let n = sec.section_number@;
    assert(t.len() == 3 && t[0] != ',' && t[1] != ',' && t[2] != ',' && t[0] != ' ');
    lemma_no_comma_no_separator(t);
    lemma_no_comma_no_separator(" "@);
    lemma_count_concat(t, " "@);
    lemma_count_concat(t + " "@, n);
    let l = section_label(sec);
    if ends_with_separator(l) {
        if n.len() >= 2 {
            assert(l.subrange(l.len() - 2, l.len() as int) =~= n.subrange(
                n.len() - 2,
                n.len() as int,
            ));
            assert(ends_with_separator(n));
            lemma_trailing_separator_counts(n);
        } else if n.len() == 1 {
            assert(l[l.len() - 2] == ' ');
        } else {
            assert(l[l.len() - 2] == t[2]);
        }
    }
}

/// For every capacity and enrollment, over-enrollment included, the count
/// of open seats is never negative, and it is zero when enrollment reaches
/// capacity.
pub proof fn lemma_open_seats_non_negative(capacity: int, enrolled: int)
    ensures
        open_seat_count(capacity, enrolled) >= 0,
        enrolled >= capacity ==> open_seat_count(capacity, enrolled) == 0,
        enrolled < capacity ==> open_seat_count(capacity, enrolled) == capacity - enrolled,
{
}

/// Every combination of present and absent aggregate numbers is classified,
/// and as exactly one kind: aggregate when all four are present, fallback
/// when none is, mixed otherwise.
pub proof fn lemma_classification_exhaustive(es: EnrollmentStatus)
    ensures
        info_type_of(es) == EnrollInfoType::Aggregate <==> {
            &&& es.aggregate_capacity is Some
            &&& es.aggregate_currently_enrolled is Some
            &&& es.aggregate_waitlist_capacity is Some
            &&& es.aggregate_waitlist_current_size is Some
        },
        info_type_of(es) == EnrollInfoType::Fallback <==> {
            &&& es.aggregate_capacity is None
            &&& es.aggregate_currently_enrolled is None
            &&& es.aggregate_waitlist_capacity is None
            &&& es.aggregate_waitlist_current_size is None
        },
        info_type_of(es) == EnrollInfoType::Mix <==> 0 < aggregate_count(es) < 4,
{
}

/// The meeting detail of `n` sections holds exactly `n - 1` separators and
/// does not end with one, provided that no section number holds `, ` itself.
pub proof fn lemma_meet_detail_separators(secs: Seq<Section>)
    requires
        secs.len() > 0,
        forall|i: int| 0 <= i < secs.len() ==> count_separators(#[trigger] secs[i].section_number@) == 0,
    ensures
        count_separators(meet_detail(secs)) == secs.len() - 1,
        !ends_with_separator(meet_detail(secs)),
    decreases secs.len(),
{
    lemma_label_has_no_separator(secs.last());
    if secs.len() == 1 {
        lemma_label_has_no_separator(secs[0]);
    } else {
        let prev = secs.drop_last();
        assert forall|i: int| 0 <= i < prev.len() implies count_separators(
            #[trigger] prev[i].section_number@,
        ) == 0 by {
            assert(prev[i] == secs[i]);
        }
        lemma_meet_detail_separators(prev);
        let md = meet_detail(prev);
        let label = section_label(secs.last());
        reveal_strlit(", ");
        assert(count_separators(", "@) == 1) by {
            assert(", "@.len() == 2 && ", "@[0] == ',' && ", "@[1] == ' ');
            assert(", "@.drop_first().len() == 1);
            assert(count_separators(", "@.drop_first()) == 0);
        }
        lemma_count_concat(md, ", "@);
        lemma_count_concat(md + ", "@, label);
        let whole = md + ", "@ + label;
        if label.len() >= 2 {
            assert(whole.subrange(whole.len() - 2, whole.len() as int) =~= label.subrange(
                label.len() - 2,
                label.len() as int,
            ));
        } else {
            assert(whole[whole.len() - 2] == ' ');
        }
    }
}

} // verus!
