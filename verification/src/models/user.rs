//! Users and their roles.

use vstd::prelude::*;
use crate::text::text_of;
use crate::models::record::{now_seconds, printed_or_empty, record_of, RecordRef, RecordRefView};

verus! {

/// User roles in the system.
#[derive(Debug, Clone, Copy, PartialEq, Eq, Structural)]
pub enum UserRole {
    Admin,
    Educator,
    Student,
    Moderator,
}

/// The name under which `role` goes over the wire.
pub open spec fn role_name(role: UserRole) -> Seq<char> {
    match role {
        UserRole::Admin => "admin"@,
        UserRole::Educator => "educator"@,
        UserRole::Student => "student"@,
        UserRole::Moderator => "moderator"@,
    }
}

impl UserRole {
    /// The name of this role.
    pub fn to_string(&self) -> (r: String)
        ensures
            r@ == role_name(*self),
    {
        match self {
            UserRole::Admin => "admin".to_string(),
            UserRole::Educator => "educator".to_string(),
            UserRole::Student => "student".to_string(),
            UserRole::Moderator => "moderator".to_string(),
        }
    }
}

/// A user as stored.
#[derive(Debug, Clone)]
pub struct User {
    pub id: Option<RecordRef>,
    pub email: String,
    pub password: Option<String>,
    pub name: String,
    pub role: UserRole,
    pub created_at: Option<i64>,
    pub last_login: Option<i64>,
    pub profile_image: Option<String>,
    pub bio: Option<String>,
}

/// Mathematical content of a [`User`].
pub struct UserView {
    pub id: Option<RecordRefView>,
    pub email: Seq<char>,
    pub password: Option<Seq<char>>,
    pub name: Seq<char>,
    pub role: UserRole,
    pub created_at: Option<i64>,
    pub last_login: Option<i64>,
    pub profile_image: Option<Seq<char>>,
    pub bio: Option<Seq<char>>,
}

impl View for User {
    type V = UserView;

    open spec fn view(&self) -> UserView {
        UserView {
            id: record_of(self.id),
            email: self.email@,
            password: text_of(self.password),
            name: self.name@,
            role: self.role,
            created_at: self.created_at,
            last_login: self.last_login,
            profile_image: text_of(self.profile_image),
            bio: text_of(self.bio),
        }
    }
}

/// The user that signs up with `email`, `name` and `role` at the moment
/// `now`: not stored yet, without password, never logged in.
pub open spec fn new_user(email: Seq<char>, name: Seq<char>, role: UserRole, now: i64) -> UserView {
    UserView {
        id: None,
        email,
        password: None,
        name,
        role,
        created_at: Some(now),
        last_login: None,
        profile_image: None,
        bio: None,
    }
}

impl User {
    /// The user that signs up at the moment `now`.
    pub fn created_at(email: String, name: String, role: UserRole, now: i64) -> (r: User)
        ensures
            r@ == new_user(email@, name@, role, now),
    {
        User {
            id: None,
            email,
            password: None,
            name,
            role,
            created_at: Some(now),
            last_login: None,
            profile_image: None,
            bio: None,
        }
    }

    /// Create a new user, stamped with the present moment.
    pub fn new(email: String, name: String, role: UserRole) -> (r: User)
        ensures
            r@.created_at is Some,
            r@ == new_user(email@, name@, role, r@.created_at->0),
    {
        User::created_at(email, name, role, now_seconds())
    }
}

/// User authentication request.
#[derive(Debug, Clone)]
pub struct UserLoginRequest {
    pub email: String,
    pub password: String,
}

/// User registration request.
#[derive(Debug, Clone)]
pub struct UserRegistrationRequest {
    pub email: String,
    pub password: String,
    pub name: String,
    pub role: UserRole,
}

/// A user as shown: without the password.
#[derive(Debug, Clone)]
pub struct UserResponse {
    pub id: String,
    pub email: String,
    pub name: String,
    pub role: UserRole,
    pub created_at: Option<i64>,
    pub last_login: Option<i64>,
    pub profile_image: Option<String>,
    pub bio: Option<String>,
}

/// Mathematical content of a [`UserResponse`].
pub struct UserResponseView {
    pub id: Seq<char>,
    pub email: Seq<char>,
    pub name: Seq<char>,
    pub role: UserRole,
    pub created_at: Option<i64>,
    pub last_login: Option<i64>,
    pub profile_image: Option<Seq<char>>,
    pub bio: Option<Seq<char>>,
}

impl View for UserResponse {
    type V = UserResponseView;

    open spec fn view(&self) -> UserResponseView {
        UserResponseView {
            id: self.id@,
            email: self.email@,
            name: self.name@,
            role: self.role,
            created_at: self.created_at,
            last_login: self.last_login,
            profile_image: text_of(self.profile_image),
            bio: text_of(self.bio),
        }
    }
}

/// How `user` is shown: its id printed, or empty where it has none, and
/// every other field but the password as it stands.
pub open spec fn shown_user(user: UserView) -> UserResponseView {
    UserResponseView {
        id: printed_or_empty(user.id),
        email: user.email,
        name: user.name,
        role: user.role,
        created_at: user.created_at,
        last_login: user.last_login,
        profile_image: user.profile_image,
        bio: user.bio,
    }
}

impl UserResponse {
    /// The response that shows `user`.
    pub fn from(user: User) -> (r: UserResponse)
        ensures
            r@ == shown_user(user@),
    {
        UserResponse {
            id: match &user.id {
                Some(record) => record.to_string(),
                None => String::new(),
            },
            email: user.email,
            name: user.name,
            role: user.role,
            created_at: user.created_at,
            last_login: user.last_login,
            profile_image: user.profile_image,
            bio: user.bio,
        }
    }
}

} // verus!
