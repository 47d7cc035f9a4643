//! Courses, their sections and materials, and who is enrolled in them.

use vstd::prelude::*;
use crate::models::record::{now_seconds, record_of, RecordRef, RecordRefView};
use crate::text::texts_of;

verus! {

/// Course difficulty levels.
#[derive(Debug, Clone, Copy, PartialEq, Eq, Structural)]
pub enum CourseDifficulty {
    Beginner,
    Intermediate,
    Advanced,
}

/// The name under which `difficulty` goes over the wire.
pub open spec fn difficulty_name(difficulty: CourseDifficulty) -> Seq<char> {
    match difficulty {
        CourseDifficulty::Beginner => "beginner"@,
        CourseDifficulty::Intermediate => "intermediate"@,
        CourseDifficulty::Advanced => "advanced"@,
    }
}

impl CourseDifficulty {
    /// The name of this difficulty.
    pub fn to_string(&self) -> (r: String)
        ensures
            r@ == difficulty_name(*self),
    {
        match self {
            CourseDifficulty::Beginner => "beginner".to_string(),
            CourseDifficulty::Intermediate => "intermediate".to_string(),
            CourseDifficulty::Advanced => "advanced".to_string(),
        }
    }
}

/// A course as stored. Its duration is counted in whole minutes.
#[derive(Debug, Clone)]
pub struct Course {
    pub id: Option<RecordRef>,
    pub title: String,
    pub description: String,
    pub difficulty: CourseDifficulty,
    pub tags: Vec<String>,
    pub educator: RecordRef,
    pub created_at: Option<i64>,
    pub updated_at: Option<i64>,
    pub is_published: bool,
    pub thumbnail: String,
    pub duration_minutes: u32,
}

/// Mathematical content of a [`Course`].
pub struct CourseView {
    pub id: Option<RecordRefView>,
    pub title: Seq<char>,
    pub description: Seq<char>,
    pub difficulty: CourseDifficulty,
    pub tags: Seq<Seq<char>>,
    pub educator: RecordRefView,
    pub created_at: Option<i64>,
    pub updated_at: Option<i64>,
    pub is_published: bool,
    pub thumbnail: Seq<char>,
    pub duration_minutes: u32,
}

impl View for Course {
    type V = CourseView;

    open spec fn view(&self) -> CourseView {
        CourseView {
            id: record_of(self.id),
            title: self.title@,
            description: self.description@,
            difficulty: self.difficulty,
            tags: texts_of(self.tags@),
            educator: self.educator@,
            created_at: self.created_at,
            updated_at: self.updated_at,
            is_published: self.is_published,
            thumbnail: self.thumbnail@,
            duration_minutes: self.duration_minutes,
        }
    }
}

/// The course made at the moment `now`: not stored yet, not published,
/// created and updated at that moment.
pub open spec fn new_course(
    title: Seq<char>,
    description: Seq<char>,
    difficulty: CourseDifficulty,
    tags: Seq<Seq<char>>,
    educator: RecordRefView,
    thumbnail: Seq<char>,
    duration_minutes: u32,
    now: i64,
) -> CourseView {
    CourseView {
        id: None,
        title,
        description,
        difficulty,
        tags,
        educator,
        created_at: Some(now),
        updated_at: Some(now),
        is_published: false,
        thumbnail,
        duration_minutes,
    }
}

impl Course {
    /// The course made at the moment `now`.
    pub fn created_at(
        title: String,
        description: String,
        difficulty: CourseDifficulty,
        tags: Vec<String>,
        educator: RecordRef,
        thumbnail: String,
        duration_minutes: u32,
        now: i64,
    ) -> (r: Course)
        ensures
            r@ == new_course(
                title@,
                description@,
                difficulty,
                texts_of(tags@),
                educator@,
                thumbnail@,
                duration_minutes,
                now,
            ),
    {
        Course {
            id: None,
            title,
            description,
            difficulty,
            tags,
            educator,
            created_at: Some(now),
            updated_at: Some(now),
            is_published: false,
            thumbnail,
            duration_minutes,
        }
    }

    /// Create a new course, stamped with the present moment.
    pub fn new(
        title: String,
        description: String,
        difficulty: CourseDifficulty,
        tags: Vec<String>,
        educator: RecordRef,
        thumbnail: String,
        duration_minutes: u32,
    ) -> (r: Course)
        ensures
            r@.created_at is Some,
            r@ == new_course(
                title@,
                description@,
                difficulty,
                texts_of(tags@),
                educator@,
                thumbnail@,
                duration_minutes,
                r@.created_at->0,
            ),
    {
        Course::created_at(
            title,
            description,
            difficulty,
            tags,
            educator,
            thumbnail,
            duration_minutes,
            now_seconds(),
        )
    }
}

/// A section of a course as stored.
#[derive(Debug, Clone)]
pub struct Section {
    pub id: Option<RecordRef>,
    pub title: String,
    pub description: String,
    pub order_index: i32,
    pub course: RecordRef,
    pub created_at: Option<i64>,
    pub updated_at: Option<i64>,
}

/// The kinds of material a section can hold.
#[derive(Debug, Clone, Copy, PartialEq, Eq, Structural)]
pub enum MaterialType {
    PDF,
    Video,
    Code,
}

/// The name under which `material_type` goes over the wire.
pub open spec fn material_type_name(material_type: MaterialType) -> Seq<char> {
    match material_type {
        MaterialType::PDF => "pdf"@,
        MaterialType::Video => "video"@,
        MaterialType::Code => "code"@,
    }
}

impl MaterialType {
    /// The name of this kind of material.
    pub fn to_string(&self) -> (r: String)
        ensures
            r@ == material_type_name(*self),
    {
        match self {
            MaterialType::PDF => "pdf".to_string(),
            MaterialType::Video => "video".to_string(),
            MaterialType::Code => "code".to_string(),
        }
    }
}

/// A material of a section as stored.
#[derive(Debug, Clone)]
pub struct Material {
    pub id: Option<RecordRef>,
    pub title: String,
    pub description: String,
    pub material_type: MaterialType,
    pub content_url: String,
    pub duration_minutes: i32,
    pub section: RecordRef,
    pub order_index: i32,
    pub created_at: Option<i64>,
    pub updated_at: Option<i64>,
}

/// Mathematical content of a [`Material`].
pub struct MaterialView {
    pub id: Option<RecordRefView>,
    pub title: Seq<char>,
    pub description: Seq<char>,
    pub material_type: MaterialType,
    pub content_url: Seq<char>,
    pub duration_minutes: i32,
    pub section: RecordRefView,
    pub order_index: i32,
    pub created_at: Option<i64>,
    pub updated_at: Option<i64>,
}

impl View for Material {
    type V = MaterialView;

    open spec fn view(&self) -> MaterialView {
        MaterialView {
            id: record_of(self.id),
            title: self.title@,
            description: self.description@,
            material_type: self.material_type,
            content_url: self.content_url@,
            duration_minutes: self.duration_minutes,
            section: self.section@,
            order_index: self.order_index,
            created_at: self.created_at,
            updated_at: self.updated_at,
        }
    }
}

/// The material made at the moment `created` and last touched at the moment
/// `updated`: not stored yet.
pub open spec fn new_material(
    title: Seq<char>,
    description: Seq<char>,
    material_type: MaterialType,
    content_url: Seq<char>,
    duration_minutes: i32,
    section: RecordRefView,
    order_index: i32,
    created: i64,
    updated: i64,
) -> MaterialView {
    MaterialView {
        id: None,
        title,
        description,
        material_type,
        content_url,
        duration_minutes,
        section,
        order_index,
        created_at: Some(created),
        updated_at: Some(updated),
    }
}

impl Material {
    /// The material made at the moment `created` and last touched at the
    /// moment `updated`.
    pub fn created_at(
        title: String,
        description: String,
        material_type: MaterialType,
        content_url: String,
        duration_minutes: i32,
        section: RecordRef,
        order_index: i32,
        created: i64,
        updated: i64,
    ) -> (r: Material)
        ensures
            r@ == new_material(
                title@,
                description@,
                material_type,
                content_url@,
                duration_minutes,
                section@,
                order_index,
                created,
                updated,
            ),
    {
        Material {
            id: None,
            title,
            description,
            material_type,
            content_url,
            duration_minutes,
            section,
            order_index,
            created_at: Some(created),
            updated_at: Some(updated),
        }
    }

    /// Create a new material. Both of its stamps are read from the clock,
    /// one after the other.
    pub fn new(
        title: String,
        description: String,
        material_type: MaterialType,
        content_url: String,
        duration_minutes: i32,
        section: RecordRef,
        order_index: i32,
    ) -> (r: Material)
        ensures
            r@.created_at is Some,
            r@.updated_at is Some,
            r@ == new_material(
                title@,
                description@,
                material_type,
                content_url@,
                duration_minutes,
                section@,
                order_index,
                r@.created_at->0,
                r@.updated_at->0,
            ),
    {
        let created = now_seconds();
        let updated = now_seconds();
        Material::created_at(
            title,
            description,
            material_type,
            content_url,
            duration_minutes,
            section,
            order_index,
            created,
            updated,
        )
    }
}

/// The enrollment of a student in a course as stored.
#[derive(Debug, Clone)]
pub struct Enrollment {
    pub id: Option<RecordRef>,
    pub student: RecordRef,
    pub course: RecordRef,
    pub enrolled_at: Option<i64>,
    pub completed: bool,
    pub completed_at: Option<i64>,
    pub last_accessed_at: Option<i64>,
}

/// Mathematical content of an [`Enrollment`].
pub struct EnrollmentView {
    pub id: Option<RecordRefView>,
    pub student: RecordRefView,
    pub course: RecordRefView,
    pub enrolled_at: Option<i64>,
    pub completed: bool,
    pub completed_at: Option<i64>,
    pub last_accessed_at: Option<i64>,
}

impl View for Enrollment {
    type V = EnrollmentView;

    open spec fn view(&self) -> EnrollmentView {
        EnrollmentView {
            id: record_of(self.id),
            student: self.student@,
            course: self.course@,
            enrolled_at: self.enrolled_at,
            completed: self.completed,
            completed_at: self.completed_at,
            last_accessed_at: self.last_accessed_at,
        }
    }
}

/// The enrollment made at the moment `now`: not stored yet, not completed,
/// never accessed.
pub open spec fn new_enrollment(student: RecordRefView, course: RecordRefView, now: i64) -> EnrollmentView {
    EnrollmentView {
        id: None,
        student,
        course,
        enrolled_at: Some(now),
        completed: false,
        completed_at: None,
        last_accessed_at: None,
    }
}

impl Enrollment {
    /// The enrollment made at the moment `now`.
    pub fn enrolled_at(student: RecordRef, course: RecordRef, now: i64) -> (r: Enrollment)
        ensures
            r@ == new_enrollment(student@, course@, now),
    {
        Enrollment {
            id: None,
            student,
            course,
            enrolled_at: Some(now),
            completed: false,
            completed_at: None,
            last_accessed_at: None,
        }
    }

    /// Enrolls a student in a course at the present moment.
    pub fn new(student: RecordRef, course: RecordRef) -> (r: Enrollment)
        ensures
            r@.enrolled_at is Some,
            r@ == new_enrollment(student@, course@, r@.enrolled_at->0),
    {
        Enrollment::enrolled_at(student, course, now_seconds())
    }
}

/// How far a student has come in a material. The share done is counted in
/// thousandths of a percent.
#[derive(Debug, Clone)]
pub struct Progress {
    pub id: Option<RecordRef>,
    pub student: RecordRef,
    pub material: RecordRef,
    pub started_at: Option<i64>,
    pub completed: bool,
    pub completed_at: Option<i64>,
    pub progress_percentage: u32,
}

/// Request to change a course. What is absent stays as it is.
#[derive(Debug, Clone)]
pub struct CourseUpdateRequest {
    pub title: Option<String>,
    pub description: Option<String>,
    pub difficulty: Option<CourseDifficulty>,
    pub category: Option<String>,
    pub tags: Option<Vec<String>>,
    pub is_published: Option<bool>,
    pub thumbnail_url: Option<String>,
    pub modules: Option<Vec<String>>,
}

/// Request to create a course.
#[derive(Debug, Clone)]
pub struct CourseCreateRequest {
    pub title: String,
    pub description: String,
    pub difficulty: CourseDifficulty,
    pub category: String,
    pub is_published: Option<bool>,
    pub thumbnail_url: String,
    pub modules: Vec<String>,
    pub tags: Vec<String>,
}

} // verus!
