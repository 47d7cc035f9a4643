//! Quizzes, their questions and the attempts at them.

use vstd::prelude::*;
use crate::models::record::RecordRef;

verus! {

/// A quiz as stored.
#[derive(Debug, Clone)]
pub struct Quiz {
    pub id: Option<RecordRef>,
    pub title: String,
    pub description: String,
    pub section: RecordRef,
    pub order_index: i32,
    pub passing_score: i32,
    pub time_limit_minutes: i32,
    pub created_at: Option<i64>,
    pub updated_at: Option<i64>,
}

/// The kinds of quiz question.
#[derive(Debug, Clone, Copy, PartialEq, Eq, Structural)]
pub enum QuestionType {
    MultipleChoice,
    Coding,
    TrueFalse,
}

/// A quiz question as stored.
#[derive(Debug, Clone)]
pub struct QuizQuestion {
    pub id: Option<RecordRef>,
    pub quiz: RecordRef,
    pub question: String,
    pub question_type: QuestionType,
    pub options: Vec<String>,
    pub correct_answer: String,
    pub points: i32,
    pub order_index: i32,
}

/// An attempt at a quiz as stored.
#[derive(Debug, Clone)]
pub struct QuizAttempt {
    pub id: Option<RecordRef>,
    pub student: RecordRef,
    pub quiz: RecordRef,
    pub started_at: Option<i64>,
    pub submitted_at: Option<i64>,
    pub score: i32,
    pub passed: bool,
    pub answers: Vec<QuizAnswer>,
}

/// A student's answer to a quiz question.
#[derive(Debug, Clone)]
pub struct QuizAnswer {
    pub question_id: String,
    pub answer: String,
}

/// A quiz as shown.
#[derive(Debug, Clone)]
pub struct QuizResponse {
    pub id: String,
    pub title: String,
    pub description: String,
    pub section_id: String,
    pub order_index: i32,
    pub passing_score: i32,
    pub time_limit_minutes: i32,
    pub created_at: Option<i64>,
    pub questions: Vec<QuizQuestionResponse>,
}

/// A quiz question as shown: without the correct answer.
#[derive(Debug, Clone)]
pub struct QuizQuestionResponse {
    pub id: String,
    pub question: String,
    pub question_type: QuestionType,
    pub options: Vec<String>,
    pub points: i32,
    pub order_index: i32,
}

/// Request to create a quiz.
#[derive(Debug, Clone)]
pub struct CreateQuizRequest {
    pub title: String,
    pub description: String,
    pub section_id: String,
    pub order_index: i32,
    pub passing_score: i32,
    pub time_limit_minutes: i32,
}

} // verus!
