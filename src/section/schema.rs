//! The course-section record model. Field names follow one convention
//! (snake case) whatever the wire names are; a field that the service is
//! known to leave out at times is an `Option`, and `None` means that it was
//! absent, never a stand-in value.
use vstd::prelude::*;

use crate::text::{pad_right, push_padded, same_text};

verus! {

/// One enrollment package of a course in a term.
#[derive(Debug, Clone, PartialEq, Eq)]
pub struct CourseSection {
    pub id: String,
    pub term_code: String,
    pub subject_code: String,
    /// The catalog number, e.g. `252` in `COMP SCI 252`.
    pub catalog_number: String,
    pub enrollment_class_number: usize,
    pub package_enrollment_status: PackageEnrollmentStatus,
    pub credit_range: String,
    pub class_meetings: Vec<ClassMeeting>,
    pub instructor_provided_class_details: Option<InstructorProvidedClassDetails>,
    pub published: bool,
    pub class_permission_number_enabled: bool,
    /// The sections of the package (lecture, discussion, lab, ...), in the
    /// order the service lists them.
    pub sections: Vec<Section>,
    pub enrollment_options: EnrollmentOptions,
    pub last_updated: u64,
    /// Package-level enrollment numbers; absent when the service reports none.
    pub enrollment_status: Option<EnrollmentStatus>,
    pub meeting_map: MeetingMap,
    pub online_only: bool,
    pub enrollment_requirement_groups: Option<CatalogRequirementGroups>,
    pub is_asynchronous: bool,
    pub modes_of_instruction: Vec<String>,
    pub doc_id: String,
}

/// Seat availability of a whole package.
#[derive(Debug, Clone, PartialEq, Eq)]
pub struct PackageEnrollmentStatus {
    /// Absent when the service did not compute it.
    pub available_seats: Option<usize>,
    pub waitlist_total: usize,
    pub status: Status,
}

#[derive(Debug, Clone, PartialEq, Eq)]
pub struct CrossListing {
    pub cross_listed_type: String,
    pub primary_class_number: usize,
    pub primary_subject: Option<Subject>,
}

#[derive(Debug, Clone, PartialEq, Eq)]
pub struct ClassMeeting {
    pub meeting_or_exam_number: String,
    pub meeting_type: MeetingType,
    pub meeting_time_start: Option<u64>,
    pub meeting_time_end: Option<u64>,
    pub meeting_days: Option<String>,
    pub meeting_days_list: Vec<String>,
    pub building: Option<Building>,
    pub room: Option<String>,
    pub exam_date: Option<u64>,
}

/// Where a class meets. The coordinates are held as the decimal text the
/// service gave; nothing here computes with them.
#[derive(Debug, Clone, PartialEq, Eq)]
pub struct Building {
    pub building_code: Option<String>,
    pub building_name: String,
    pub street_address: Option<String>,
    pub latitude: Option<String>,
    pub longitude: Option<String>,
    pub location: Option<Vec<String>>,
}

/// One section of a package: a lecture, a discussion, a lab, ...
#[derive(Debug, Clone, PartialEq, Eq)]
pub struct Section {
    pub class_unique_id: ClassUniqueId,
    pub published: bool,
    pub start_date: u64,
    pub end_date: u64,
    pub active: bool,
    /// The session, e.g. `A1`.
    pub session_code: String,
    pub subject: Subject,
    pub catalog_number: String,
    pub course_id: String,
    /// The kind of section; its wire name is `type`.
    pub assembly_type: AssemblyType,
    pub section_number: String,
    pub honors: Option<String>,
    pub com_b: bool,
    pub graded_component: bool,
    pub instruction_mode: String,
    pub add_consent: Consent,
    pub drop_consent: Consent,
    pub cross_listing: Option<CrossListing>,
    pub class_meetings: Vec<ClassMeeting>,
    pub enrollment_status: EnrollmentStatus,
    pub footnotes: Vec<String>,
    pub class_materials: Vec<ClassMaterials>,
    pub instructors: Vec<PersonAttributes>,
    pub instructor: Option<Instructor>,
}

#[derive(Debug, Clone, PartialEq, Eq)]
pub struct ClassUniqueId {
    pub term_code: String,
    pub class_number: usize,
}

#[derive(Debug, Clone, PartialEq, Eq)]
pub struct Subject {
    pub term_code: String,
    pub subject_code: String,
    pub description: String,
    pub short_description: String,
    pub formal_description: String,
    pub undergraduate_catalog_uri: Option<String>,
    pub department_uri: Option<String>,
    pub udds_funding_source: String,
    pub school_college: SchoolCollege,
    pub footnotes: Vec<String>,
    pub department_owner_academic_org_code: String,
}

#[derive(Debug, Clone, PartialEq, Eq)]
pub struct SchoolCollege {
    pub academic_org_code: String,
    pub academic_group_code: String,
    pub short_description: String,
    pub formal_description: String,
    pub udds_code: Option<String>,
    pub school_college_uri: Option<String>,
}

#[derive(Debug, Clone, PartialEq, Eq)]
pub struct Consent {
    pub code: String,
    pub description: String,
}

/// Enrollment numbers. The plain fields are the fallback level; the
/// `aggregate_` fields are totals over combined or cross-listed sections and
/// may each be absent.
#[derive(Debug, Clone, PartialEq, Eq)]
pub struct EnrollmentStatus {
    pub class_unique_id: ClassUniqueId,
    pub capacity: usize,
    pub currently_enrolled: usize,
    pub waitlist_capacity: usize,
    pub waitlist_current_size: usize,
    pub open_seats: usize,
    pub open_waitlist_spots: usize,
    pub aggregate_capacity: Option<usize>,
    pub aggregate_currently_enrolled: Option<usize>,
    pub aggregate_waitlist_capacity: Option<usize>,
    pub aggregate_waitlist_current_size: Option<usize>,
}

#[derive(Debug, Clone, PartialEq, Eq)]
pub struct ClassMaterials {
    pub class_unique_id: ClassUniqueId,
    pub materials_defined: bool,
    pub no_materials_instructor_message: Option<String>,
    pub section_notes: Option<String>,
    pub last_update: u64,
    pub related_urls: Vec<String>,
    pub textbooks: Vec<Textbook>,
    pub other_materials: Vec<EtcMaterials>,
}

#[derive(Debug, Clone, PartialEq, Eq)]
pub struct PersonAttributes {
    pub emplid: String,
    pub pvi: String,
    pub name: InstructorName,
    pub email: Option<String>,
    pub netid: Option<String>,
    pub campusid: Option<String>,
    pub office365_primary_email: Option<String>,
}

#[derive(Debug, Clone, PartialEq, Eq)]
pub struct InstructorName {
    pub first: Option<String>,
    pub middle: Option<String>,
    pub last: Option<String>,
    pub legal_first: Option<String>,
    pub legal_middle: Option<String>,
}

#[derive(Debug, Clone, PartialEq, Eq)]
pub struct Instructor {
    pub person_attributes: PersonAttributes,
}

#[derive(Debug, Clone, PartialEq, Eq)]
pub struct EnrollmentOptions {
    pub class_permission_number_needed: bool,
    pub waitlist: Option<bool>,
    pub related_class_number: bool,
}

/// Whether any meeting falls on each weekday.
#[derive(Debug, Clone, Copy, PartialEq, Eq)]
pub struct MeetingMap {
    pub monday: bool,
    pub tuesday: bool,
    pub wednesday: bool,
    pub thursday: bool,
    pub friday: bool,
    pub saturday: bool,
    pub sunday: bool,
}

#[derive(Debug, Clone, PartialEq, Eq)]
pub struct CatalogRequirementGroups {
    pub catalog_requirement_groups: Vec<CatalogRequirement>,
}

#[derive(Debug, Clone, PartialEq, Eq)]
pub struct CatalogRequirement {
    pub code: String,
    pub description: String,
}

#[derive(Debug, Clone, PartialEq, Eq)]
pub struct Textbook {
    pub title: String,
    pub isbn: Option<String>,
    pub publisher: Option<String>,
    pub author: Option<String>,
    pub year: Option<String>,
    pub edition: Option<String>,
    pub material_requirement: String,
    pub notes: Option<String>,
}

#[derive(Debug, Clone, PartialEq, Eq)]
pub struct InstructorProvidedClassDetails {
    pub class_unique_id: ClassUniqueId,
    pub instructor_description: Option<String>,
    pub typical_topics_and_or_schedule: Option<String>,
    pub format: Option<String>,
    pub learning_outcome: Option<String>,
    pub keywords: Vec<String>,
    pub labeled_uris: Vec<LabeledUri>,
    pub last_updated: u64,
}

#[derive(Debug, Clone, PartialEq, Eq)]
pub struct LabeledUri {
    pub label: String,
    pub uri: String,
}

#[derive(Debug, Clone, PartialEq, Eq)]
pub struct EtcMaterials {
    pub description: String,
    pub material_requirement: String,
    pub notes: Option<String>,
}

/// The enrollment state of a package. Its wire tokens are `OPEN`,
/// `WAITLISTED` and `CLOSED`.
#[derive(Debug, Clone, Copy, PartialEq, Eq, Structural)]
pub enum Status {
    Open,
    Waitlisted,
    Closed,
}

impl Status {
    /// The wire token of the status, which is also its display label.
    pub open spec fn token(self) -> Seq<char> {
        match self {
            Status::Open => "OPEN"@,
            Status::Waitlisted => "WAITLISTED"@,
            Status::Closed => "CLOSED"@,
        }
    }

    /// The display label.
    pub fn as_str(&self) -> (r: &'static str)
        ensures
            r@ == self.token(),
    {
        match self {
            Status::Open => "OPEN",
            Status::Waitlisted => "WAITLISTED",
            Status::Closed => "CLOSED",
        }
    }

    /// The display label, padded on the right with spaces to ten characters
    /// so that labels line up in a column.
    pub fn pad(&self) -> (r: String)
        ensures
            r@ == pad_right(self.token(), 10),
    {
        let mut out = String::new();
        push_padded(&mut out, self.as_str(), 10);
        assert(out@ =~= pad_right(self.token(), 10));
        out
    }

    /// Reads a wire token. Any text other than the three tokens is refused
    /// (`None`); nothing is taken as a default.
    pub fn from_token(s: &str) -> (r: Option<Status>)
        ensures
            forall|x: Status| #[trigger] x.token() == s@ <==> r == Some(x),
            r matches Some(x) ==> x.token() == s@,
    {
        proof {
            reveal_strlit("OPEN");
            reveal_strlit("WAITLISTED");
            reveal_strlit("CLOSED");
        }
        let r = if same_text(s, "OPEN") {
            Some(Status::Open)
        } else if same_text(s, "WAITLISTED") {
            Some(Status::Waitlisted)
        } else if same_text(s, "CLOSED") {
            Some(Status::Closed)
        } else {
            None
        };
        proof {
            assert forall|x: Status| #[trigger] x.token() == s@ <==> r == Some(x) by {
                if r is Some {
                    if x.token() == s@ {
                        lemma_status_token_injective(x, r->0);
                    }
                } else {
                    match x {
                        Status::Open => {},
                        Status::Waitlisted => {},
                        Status::Closed => {},
                    }
                }
            }
        }
        r
    }
}

/// Distinct values of `Status` have distinct wire tokens.
pub proof fn lemma_status_token_injective(x: Status, y: Status)
    requires
        x.token() == y.token(),
    ensures
        x == y,
{
        reveal_strlit("OPEN");
        reveal_strlit("WAITLISTED");
        reveal_strlit("CLOSED");
        assert(Status::Open.token().len() == 4);
        assert(Status::Waitlisted.token().len() == 10);
        assert(Status::Closed.token().len() == 6);
        assert(x.token().len() == y.token().len());
}

/// Whether a meeting is a class meeting or an exam. Wire tokens: `CLASS`,
/// `EXAM`.
#[derive(Debug, Clone, Copy, PartialEq, Eq, Structural)]
pub enum MeetingType {
    Class,
    Exam,
}

impl MeetingType {
    /// The wire token, which is also the display label.
    pub open spec fn token(self) -> Seq<char> {
        match self {
            MeetingType::Class => "CLASS"@,
            MeetingType::Exam => "EXAM"@,
        }
    }

    /// The display label.
    pub fn as_str(&self) -> (r: &'static str)
        ensures
            r@ == self.token(),
    {
        match self {
            MeetingType::Class => "CLASS",
            MeetingType::Exam => "EXAM",
        }
    }

    /// Reads a wire token; any other text is refused (`None`).
    pub fn from_token(s: &str) -> (r: Option<MeetingType>)
        ensures
            forall|x: MeetingType| #[trigger] x.token() == s@ <==> r == Some(x),
            r matches Some(x) ==> x.token() == s@,
    {
        proof {
            reveal_strlit("CLASS");
            reveal_strlit("EXAM");
        }
        let r = if same_text(s, "CLASS") {
            Some(MeetingType::Class)
        } else if same_text(s, "EXAM") {
            Some(MeetingType::Exam)
        } else {
            None
        };
        proof {
            assert forall|x: MeetingType| #[trigger] x.token() == s@ <==> r == Some(x) by {
                if r is Some {
                    if x.token() == s@ {
                        lemma_meeting_type_token_injective(x, r->0);
                    }
                } else {
                    match x {
                        MeetingType::Class => {},
                        MeetingType::Exam => {},
                    }
                }
            }
        }
        r
    }
}

/// Distinct values of `MeetingType` have distinct wire tokens.
pub proof fn lemma_meeting_type_token_injective(x: MeetingType, y: MeetingType)
    requires
        x.token() == y.token(),
    ensures
        x == y,
{
        reveal_strlit("CLASS");
        reveal_strlit("EXAM");
        assert(MeetingType::Class.token().len() == 5);
        assert(MeetingType::Exam.token().len() == 4);
        assert(x.token().len() == y.token().len());
}

/// The format of a section. Wire tokens: `LEC`, `DIS`, `LAB`, `FLD`, `IND`,
/// `SEM`.
#[derive(Debug, Clone, Copy, PartialEq, Eq, Structural)]
pub enum AssemblyType {
    /// Lecture
    Lec,
    /// Discussion
    Dis,
    /// Lab work
    Lab,
    /// Field work (often from community-based learning classes)
    Fld,
    /// Independent study
    Ind,
    /// Seminar
    Sem,
}

impl AssemblyType {
    /// The wire token, which is also the display label.
    pub open spec fn token(self) -> Seq<char> {
        match self {
            AssemblyType::Lec => "LEC"@,
            AssemblyType::Dis => "DIS"@,
            AssemblyType::Lab => "LAB"@,
            AssemblyType::Fld => "FLD"@,
            AssemblyType::Ind => "IND"@,
            AssemblyType::Sem => "SEM"@,
        }
    }

    /// The display label.
    pub fn as_str(&self) -> (r: &'static str)
        ensures
            r@ == self.token(),
    {
        match self {
            AssemblyType::Lec => "LEC",
            AssemblyType::Dis => "DIS",
            AssemblyType::Lab => "LAB",
            AssemblyType::Fld => "FLD",
            AssemblyType::Ind => "IND",
            AssemblyType::Sem => "SEM",
        }
    }

    /// Reads a wire token; any other text is refused (`None`).
    pub fn from_token(s: &str) -> (r: Option<AssemblyType>)
        ensures
            forall|x: AssemblyType| #[trigger] x.token() == s@ <==> r == Some(x),
            r matches Some(x) ==> x.token() == s@,
    {
        proof {
            reveal_strlit("LEC");
            reveal_strlit("DIS");
            reveal_strlit("LAB");
            reveal_strlit("FLD");
            reveal_strlit("IND");
            reveal_strlit("SEM");
        }
        let r = if same_text(s, "LEC") {
            Some(AssemblyType::Lec)
        } else if same_text(s, "DIS") {
            Some(AssemblyType::Dis)
        } else if same_text(s, "LAB") {
            Some(AssemblyType::Lab)
        } else if same_text(s, "FLD") {
            Some(AssemblyType::Fld)
        } else if same_text(s, "IND") {
            Some(AssemblyType::Ind)
        } else if same_text(s, "SEM") {
            Some(AssemblyType::Sem)
        } else {
            None
        };
        proof {
            assert forall|x: AssemblyType| #[trigger] x.token() == s@ <==> r == Some(x) by {
                if r is Some {
                    if x.token() == s@ {
                        lemma_assembly_type_token_injective(x, r->0);
                    }
                } else {
                    match x {
                        AssemblyType::Lec => {},
                        AssemblyType::Dis => {},
                        AssemblyType::Lab => {},
                        AssemblyType::Fld => {},
                        AssemblyType::Ind => {},
                        AssemblyType::Sem => {},
                    }
                }
            }
        }
        r
    }
}

/// Distinct values of `AssemblyType` have distinct wire tokens.
pub proof fn lemma_assembly_type_token_injective(x: AssemblyType, y: AssemblyType)
    requires
        x.token() == y.token(),
    ensures
        x == y,
{
        reveal_strlit("LEC");
        reveal_strlit("DIS");
        reveal_strlit("LAB");
        reveal_strlit("FLD");
        reveal_strlit("IND");
        reveal_strlit("SEM");
        assert(AssemblyType::Lec.token()[0] == 'L' && AssemblyType::Lec.token()[1] == 'E');
        assert(AssemblyType::Dis.token()[0] == 'D' && AssemblyType::Dis.token()[1] == 'I');
        assert(AssemblyType::Lab.token()[0] == 'L' && AssemblyType::Lab.token()[1] == 'A');
        assert(AssemblyType::Fld.token()[0] == 'F' && AssemblyType::Fld.token()[1] == 'L');
        assert(AssemblyType::Ind.token()[0] == 'I' && AssemblyType::Ind.token()[1] == 'N');
        assert(AssemblyType::Sem.token()[0] == 'S' && AssemblyType::Sem.token()[1] == 'E');
        assert(x.token()[0] == y.token()[0]);
        assert(x.token()[1] == y.token()[1]);
}

impl Default for CourseSection {
    /// A record with every text empty, every number zero, every list empty,
    /// every optional part absent, no meeting day, and status `Open`.
    fn default() -> (r: CourseSection)
        ensures
            r.id@.len() == 0,
            r.term_code@.len() == 0,
            r.subject_code@.len() == 0,
            r.catalog_number@.len() == 0,
            r.enrollment_class_number == 0,
            r.package_enrollment_status.available_seats is None,
            r.package_enrollment_status.waitlist_total == 0,
            r.package_enrollment_status.status == Status::Open,
            r.credit_range@.len() == 0,
            r.class_meetings@.len() == 0,
            r.instructor_provided_class_details is None,
            !r.published,
            !r.class_permission_number_enabled,
            r.sections@.len() == 0,
            !r.enrollment_options.class_permission_number_needed,
            r.enrollment_options.waitlist == Some(false),
            !r.enrollment_options.related_class_number,
            r.last_updated == 0,
            r.enrollment_status is None,
            r.meeting_map == (MeetingMap {
                monday: false,
                tuesday: false,
                wednesday: false,
                thursday: false,
                friday: false,
                saturday: false,
                sunday: false,
            }),
            !r.online_only,
            r.enrollment_requirement_groups is None,
            !r.is_asynchronous,
            r.modes_of_instruction@.len() == 0,
            r.doc_id@.len() == 0,
    {
        CourseSection {
            id: String::new(),
            term_code: String::new(),
            subject_code: String::new(),
            catalog_number: String::new(),
            enrollment_class_number: 0,
            package_enrollment_status: PackageEnrollmentStatus {
                available_seats: None,
                waitlist_total: 0,
                status: Status::Open,
            },
            credit_range: String::new(),
            class_meetings: Vec::new(),
            instructor_provided_class_details: None,
            published: false,
            class_permission_number_enabled: false,
            sections: Vec::new(),
            enrollment_options: EnrollmentOptions {
                class_permission_number_needed: false,
                waitlist: Some(false),
                related_class_number: false,
            },
            last_updated: 0,
            enrollment_status: None,
            meeting_map: MeetingMap {
                monday: false,
                tuesday: false,
                wednesday: false,
                thursday: false,
                friday: false,
                saturday: false,
                sunday: false,
            },
            online_only: false,
            enrollment_requirement_groups: None,
            is_asynchronous: false,
            modes_of_instruction: Vec::new(),
            doc_id: String::new(),
        }
    }
}

} // verus!
