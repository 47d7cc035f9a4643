//! Forum categories, threads and posts.

use vstd::prelude::*;
use crate::models::record::RecordRef;

verus! {

/// A forum category as stored.
#[derive(Debug, Clone)]
pub struct ForumCategory {
    pub id: Option<RecordRef>,
    pub name: String,
    pub description: String,
    pub course: RecordRef,
    pub created_at: Option<i64>,
    pub created_by: RecordRef,
}

/// A forum thread as stored.
#[derive(Debug, Clone)]
pub struct ForumThread {
    pub id: Option<RecordRef>,
    pub title: String,
    pub content: String,
    pub category: RecordRef,
    pub created_at: Option<i64>,
    pub created_by: RecordRef,
    pub is_pinned: bool,
    pub is_locked: bool,
    pub views: i32,
}

/// A forum post, the reply to a thread, as stored.
#[derive(Debug, Clone)]
pub struct ForumPost {
    pub id: Option<RecordRef>,
    pub thread: RecordRef,
    pub content: String,
    pub created_at: Option<i64>,
    pub created_by: RecordRef,
    pub updated_at: Option<i64>,
    pub is_solution: bool,
}

/// Request to create a forum category.
#[derive(Debug, Clone)]
pub struct CreateCategoryRequest {
    pub name: String,
    pub description: String,
    pub course_id: String,
}

/// Request to create a forum thread.
#[derive(Debug, Clone)]
pub struct CreateThreadRequest {
    pub title: String,
    pub content: String,
    pub category_id: String,
}

/// Request to create a forum post.
#[derive(Debug, Clone)]
pub struct CreatePostRequest {
    pub content: String,
    pub thread_id: String,
}

/// A forum category as shown.
#[derive(Debug, Clone)]
pub struct CategoryResponse {
    pub id: String,
    pub name: String,
    pub description: String,
    pub course_id: String,
    pub created_at: Option<i64>,
    pub created_by: String,
}

/// A forum thread as shown.
#[derive(Debug, Clone)]
pub struct ThreadResponse {
    pub id: String,
    pub title: String,
    pub content: String,
    pub category_id: String,
    pub created_at: Option<i64>,
    pub created_by: String,
    pub is_pinned: bool,
    pub is_locked: bool,
    pub views: i32,
    pub posts_count: i32,
}

/// A forum post as shown.
#[derive(Debug, Clone)]
pub struct PostResponse {
    pub id: String,
    pub thread_id: String,
    pub content: String,
    pub created_at: Option<i64>,
    pub created_by: String,
    pub updated_at: Option<i64>,
    pub is_solution: bool,
}

} // verus!
