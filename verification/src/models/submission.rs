//! Code submissions handed in for review.

use vstd::prelude::*;
use crate::text::text_of;
use crate::models::record::{printed, printed_or_empty, record_of, RecordRef, RecordRefView, record_text};

verus! {

/// Where a submission stands.
#[derive(Debug, Clone, Copy, PartialEq, Eq, Structural)]
pub enum SubmissionStatus {
    Submitted,
    Reviewed,
    Passed,
    Failed,
}

/// A code submission as stored.
#[derive(Debug, Clone)]
pub struct CodeSubmission {
    pub id: Option<RecordRef>,
    pub student: RecordRef,
    pub material: RecordRef,
    pub code: String,
    pub language: String,
    pub submitted_at: Option<i64>,
    pub status: SubmissionStatus,
    pub feedback: Option<String>,
    pub reviewed_by: Option<RecordRef>,
    pub reviewed_at: Option<i64>,
}

/// Mathematical content of a [`CodeSubmission`].
pub struct CodeSubmissionView {
    pub id: Option<RecordRefView>,
    pub student: RecordRefView,
    pub material: RecordRefView,
    pub code: Seq<char>,
    pub language: Seq<char>,
    pub submitted_at: Option<i64>,
    pub status: SubmissionStatus,
    pub feedback: Option<Seq<char>>,
    pub reviewed_by: Option<RecordRefView>,
    pub reviewed_at: Option<i64>,
}

impl View for CodeSubmission {
    type V = CodeSubmissionView;

    open spec fn view(&self) -> CodeSubmissionView {
        CodeSubmissionView {
            id: record_of(self.id),
            student: self.student@,
            material: self.material@,
            code: self.code@,
            language: self.language@,
            submitted_at: self.submitted_at,
            status: self.status,
            feedback: text_of(self.feedback),
            reviewed_by: record_of(self.reviewed_by),
            reviewed_at: self.reviewed_at,
        }
    }
}

/// Request to create a code submission.
#[derive(Debug, Clone)]
pub struct CreateSubmissionRequest {
    pub material_id: String,
    pub code: String,
    pub language: String,
}

/// Request to file the review of a submission.
#[derive(Debug, Clone)]
pub struct ReviewSubmissionRequest {
    pub status: SubmissionStatus,
    pub feedback: String,
}

/// A code submission as shown.
#[derive(Debug, Clone)]
pub struct SubmissionResponse {
    pub id: String,
    pub student_id: String,
    pub material_id: String,
    pub code: String,
    pub language: String,
    pub submitted_at: Option<i64>,
    pub status: SubmissionStatus,
    pub feedback: Option<String>,
    pub reviewed_by_id: Option<String>,
    pub reviewed_at: Option<i64>,
}

/// Mathematical content of a [`SubmissionResponse`].
pub struct SubmissionResponseView {
    pub id: Seq<char>,
    pub student_id: Seq<char>,
    pub material_id: Seq<char>,
    pub code: Seq<char>,
    pub language: Seq<char>,
    pub submitted_at: Option<i64>,
    pub status: SubmissionStatus,
    pub feedback: Option<Seq<char>>,
    pub reviewed_by_id: Option<Seq<char>>,
    pub reviewed_at: Option<i64>,
}

impl View for SubmissionResponse {
    type V = SubmissionResponseView;

    open spec fn view(&self) -> SubmissionResponseView {
        SubmissionResponseView {
            id: self.id@,
            student_id: self.student_id@,
            material_id: self.material_id@,
            code: self.code@,
            language: self.language@,
            submitted_at: self.submitted_at,
            status: self.status,
            feedback: text_of(self.feedback),
            reviewed_by_id: text_of(self.reviewed_by_id),
            reviewed_at: self.reviewed_at,
        }
    }
}

/// How `submission` is shown: every reference printed, the id empty where
/// there is none, and the rest as it stands.
pub open spec fn shown_submission(submission: CodeSubmissionView) -> SubmissionResponseView {
    SubmissionResponseView {
        id: printed_or_empty(submission.id),
        student_id: record_text(submission.student.table, submission.student.key),
        material_id: record_text(submission.material.table, submission.material.key),
        code: submission.code,
        language: submission.language,
        submitted_at: submission.submitted_at,
        status: submission.status,
        feedback: submission.feedback,
        reviewed_by_id: printed(submission.reviewed_by),
        reviewed_at: submission.reviewed_at,
    }
}

impl SubmissionResponse {
    /// The response that shows `submission`.
    pub fn from(submission: CodeSubmission) -> (r: SubmissionResponse)
        ensures
            r@ == shown_submission(submission@),
    {
        SubmissionResponse {
            id: match &submission.id {
                Some(record) => record.to_string(),
                None => String::new(),
            },
            student_id: submission.student.to_string(),
            material_id: submission.material.to_string(),
            code: submission.code,
            language: submission.language,
            submitted_at: submission.submitted_at,
            status: submission.status,
            feedback: submission.feedback,
            reviewed_by_id: match &submission.reviewed_by {
                Some(record) => Some(record.to_string()),
                None => None,
            },
            reviewed_at: submission.reviewed_at,
        }
    }
}

} // verus!
