//! What the handlers decide before and after they go to the record store:
//! whether a request is well formed, and whether its caller may do what it
//! asks.

use vstd::prelude::*;
use crate::auth::unauthenticated;
use crate::error::{AppError, AppErrorView, ErrorKind};
use crate::ids::random_id;
use crate::evaluation::{byte_length, rejection, TestCase};
use crate::execution::ExecuteCodeRequest;
use crate::models::course::{Course, CourseCreateRequest, CourseUpdateRequest, CourseView};
use crate::models::record::{record_text, RecordRef, RecordRefView};
use crate::models::user::{User, UserLoginRequest, UserRegistrationRequest, UserView};
use crate::text::{
    contains, has_infix, has_prefix, same_text, starts_with, text_of, texts_of,
};

verus! {

/// An authorization failure with the given detail.
pub open spec fn forbidden(detail: Seq<char>) -> AppErrorView {
    AppErrorView { kind: ErrorKind::Authorization, detail }
}

/// A not-found failure with the given detail.
pub open spec fn missing(detail: Seq<char>) -> AppErrorView {
    AppErrorView { kind: ErrorKind::NotFound, detail }
}

/// Whether a result is the plain success or the failure `refused`.
pub open spec fn decided(r: Result<(), AppError>, refused: Option<AppErrorView>) -> bool {
    match r {
        Ok(()) => refused is None,
        Err(e) => refused == Some(e@),
    }
}

/// Why a login is refused before the user is looked up: it lacks the email
/// or the password.
pub open spec fn login_refusal(email: Seq<char>, password: Seq<char>) -> Option<AppErrorView> {
    if email.len() == 0 || password.len() == 0 {
        Some(rejection("Email and password are required"@))
    } else {
        None
    }
}

/// Checks a login request before the user is looked up.
pub fn validate_login(request: &UserLoginRequest) -> (r: Result<(), AppError>)
    ensures
        decided(r, login_refusal(request.email@, request.password@)),
{
    if request.email.as_str().is_empty() || request.password.as_str().is_empty() {
        return Err(AppError::Validation("Email and password are required".to_string()));
    }
    Ok(())
}

/// Why a registration is refused before the store is asked: a field is
/// missing, the email has no `@`, or the password is shorter than eight
/// bytes. The first rule that fails decides.
pub open spec fn registration_refusal(
    email: Seq<char>,
    password: Seq<char>,
    name: Seq<char>,
) -> Option<AppErrorView> {
    if email.len() == 0 || password.len() == 0 || name.len() == 0 {
        Some(rejection("Email, password, and name are required"@))
    } else if !has_infix(email, "@"@) {
        Some(rejection("Invalid email format"@))
    } else if byte_length(password) < 8 {
        Some(rejection("Password must be at least 8 characters"@))
    } else {
        None
    }
}

/// Checks a registration request before the store is asked.
pub fn validate_registration(request: &UserRegistrationRequest) -> (r: Result<(), AppError>)
    ensures
        decided(r, registration_refusal(request.email@, request.password@, request.name@)),
{
    if request.email.as_str().is_empty() || request.password.as_str().is_empty()
        || request.name.as_str().is_empty() {
        return Err(AppError::Validation("Email, password, and name are required".to_string()));
    }
    if !contains(request.email.as_str(), "@") {
        return Err(AppError::Validation("Invalid email format".to_string()));
    }
    if request.password.as_str().as_bytes().len() < 8 {
        return Err(AppError::Validation("Password must be at least 8 characters".to_string()));
    }
    Ok(())
}

/// What a registration is told whose email is taken.
pub fn email_taken() -> (r: AppError)
    ensures
        r@ == rejection("User with this email already exists"@),
{
    AppError::Validation("User with this email already exists".to_string())
}

/// What a login is told that names no user, a user without password, or
/// the wrong password: the same in each case.
pub fn bad_credentials() -> (r: AppError)
    ensures
        r@ == unauthenticated("Invalid email or password"@),
{
    AppError::Authentication("Invalid email or password".to_string())
}

/// The stored password hash that a login is checked against, or the
/// refusal of a login that names no user or a user without password.
pub fn stored_password(password: &Option<String>, user_found: bool) -> (r: Result<String, AppError>)
    ensures
        match r {
            Ok(hash) => user_found && text_of(*password) == Some(hash@),
            Err(e) => !(user_found && password is Some) && e@ == unauthenticated(
                "Invalid email or password"@,
            ),
        },
{
    if !user_found {
        return Err(bad_credentials());
    }
    match password {
        Some(hash) => Ok(hash.clone()),
        None => Err(bad_credentials()),
    }
}

/// Whether `code` is a verification code that is accepted: six bytes that
/// begin with `123`.
pub open spec fn code_accepted(code: Seq<char>) -> bool {
    has_prefix(code, "123"@) && byte_length(code) == 6
}

/// Why an email verification is refused before the user is looked up.
pub open spec fn verification_refusal(email: Seq<char>, code: Seq<char>) -> Option<AppErrorView> {
    if email.len() == 0 || code.len() == 0 {
        Some(rejection("Email and verification code are required"@))
    } else {
        None
    }
}

/// Checks an email verification request before the user is looked up.
pub fn validate_verification(email: &str, verification_code: &str) -> (r: Result<(), AppError>)
    ensures
        decided(r, verification_refusal(email@, verification_code@)),
{
    if email.is_empty() || verification_code.is_empty() {
        return Err(AppError::Validation("Email and verification code are required".to_string()));
    }
    Ok(())
}

/// Checks the verification code of a user that was found.
pub fn check_verification_code(verification_code: &str) -> (r: Result<(), AppError>)
    ensures
        decided(
            r,
            if code_accepted(verification_code@) {
                None
            } else {
                Some(rejection("Invalid verification code"@))
            },
        ),
{
    if !starts_with(verification_code, "123") || verification_code.as_bytes().len() != 6 {
        return Err(AppError::Validation("Invalid verification code".to_string()));
    }
    Ok(())
}

/// Checks an execution request before its caller is looked at: a request
/// without code is refused.
pub fn validate_execution(request: &ExecuteCodeRequest) -> (r: Result<(), AppError>)
    ensures
        decided(
            r,
            if request.code@.len() == 0 {
                Some(rejection("Code cannot be empty"@))
            } else {
                None
            },
        ),
{
    if request.code.as_str().is_empty() {
        return Err(AppError::Validation("Code cannot be empty".to_string()));
    }
    Ok(())
}

/// Why an evaluation request is refused before its caller is looked at:
/// it brings no code, or names no assignment.
pub open spec fn evaluation_refusal(code: Seq<char>, assignment_id: Seq<char>) -> Option<
    AppErrorView,
> {
    if code.len() == 0 {
        Some(rejection("Code cannot be empty"@))
    } else if assignment_id.len() == 0 {
        Some(rejection("Assignment ID is required"@))
    } else {
        None
    }
}

/// Checks an evaluation request before its caller is looked at.
pub fn validate_evaluation(code: &str, assignment_id: &str) -> (r: Result<(), AppError>)
    ensures
        decided(r, evaluation_refusal(code@, assignment_id@)),
{
    if code.is_empty() {
        return Err(AppError::Validation("Code cannot be empty".to_string()));
    }
    if assignment_id.is_empty() {
        return Err(AppError::Validation("Assignment ID is required".to_string()));
    }
    Ok(())
}

/// Takes the test cases that the store holds for an assignment. An
/// assignment without test cases counts as not found.
pub fn fetched_test_cases(test_cases: Vec<TestCase>) -> (r: Result<Vec<TestCase>, AppError>)
    ensures
        match r {
            Ok(cases) => test_cases@.len() > 0 && cases@ == test_cases@,
            Err(e) => test_cases@.len() == 0 && e@ == missing(
                "No test cases found for this assignment"@,
            ),
        },
{
    if test_cases.len() == 0 {
        return Err(AppError::NotFound("No test cases found for this assignment".to_string()));
    }
    Ok(test_cases)
}

/// Why the creation of a course is refused before its caller is looked
/// at: it lacks the title or the description.
pub open spec fn course_creation_refusal(title: Seq<char>, description: Seq<char>) -> Option<
    AppErrorView,
> {
    if title.len() == 0 || description.len() == 0 {
        Some(rejection("Title and description are required"@))
    } else {
        None
    }
}

/// Checks a request to create a course.
pub fn validate_course_creation(request: &CourseCreateRequest) -> (r: Result<(), AppError>)
    ensures
        decided(r, course_creation_refusal(request.title@, request.description@)),
{
    if request.title.as_str().is_empty() || request.description.as_str().is_empty() {
        return Err(AppError::Validation("Title and description are required".to_string()));
    }
    Ok(())
}

/// Why the change of a course is refused before its caller is looked at:
/// it sets the title or the description to nothing. The title is looked at
/// first.
pub open spec fn course_update_refusal(
    title: Option<Seq<char>>,
    description: Option<Seq<char>>,
) -> Option<AppErrorView> {
    if title == Some(Seq::<char>::empty()) {
        Some(rejection("Title cannot be empty"@))
    } else if description == Some(Seq::<char>::empty()) {
        Some(rejection("Description cannot be empty"@))
    } else {
        None
    }
}

/// Checks a request to change a course.
pub fn validate_course_update(request: &CourseUpdateRequest) -> (r: Result<(), AppError>)
    ensures
        decided(
            r,
            course_update_refusal(text_of(request.title), text_of(request.description)),
        ),
{
    match &request.title {
        Some(title) => {
            if title.as_str().is_empty() {
                assert(title@ =~= Seq::<char>::empty());
                return Err(AppError::Validation("Title cannot be empty".to_string()));
            }
        },
        None => {},
    }
    match &request.description {
        Some(description) => {
            if description.as_str().is_empty() {
                assert(description@ =~= Seq::<char>::empty());
                return Err(AppError::Validation("Description cannot be empty".to_string()));
            }
        },
        None => {},
    }
    Ok(())
}

/// Whether `role` is one that authors courses: educator or admin.
pub open spec fn is_author_role(role: Seq<char>) -> bool {
    role == "educator"@ || role == "admin"@
}

/// Whether the caller `user_id` is the educator of a course: the printed
/// reference to the educator is the caller's id.
pub open spec fn is_educator_of(educator: RecordRefView, user_id: Seq<char>) -> bool {
    record_text(educator.table, educator.key) == user_id
}

/// Whether a caller in `role` may create courses.
pub fn may_create_course(role: &str) -> (r: Result<(), AppError>)
    ensures
        decided(
            r,
            if is_author_role(role@) {
                None
            } else {
                Some(forbidden("Only educators and admins can create courses"@))
            },
        ),
{
    if !same_text(role, "educator") && !same_text(role, "admin") {
        return Err(
            AppError::Authorization("Only educators and admins can create courses".to_string()),
        );
    }
    Ok(())
}

/// Whether the caller may see a course: anyone may see a published one,
/// an unpublished one only its educator, educators and admins.
pub fn may_view_course(is_published: bool, educator: &RecordRef, user_id: &str, role: &str) -> (r:
    Result<(), AppError>)
    ensures
        decided(
            r,
            if is_published || is_educator_of(educator@, user_id@) || is_author_role(role@) {
                None
            } else {
                Some(forbidden("You do not have permission to access this unpublished course"@))
            },
        ),
{
    if !is_published {
        if !same_text(educator.to_string().as_str(), user_id) && !same_text(role, "educator")
            && !same_text(role, "admin") {
            return Err(
                AppError::Authorization(
                    "You do not have permission to access this unpublished course".to_string(),
                ),
            );
        }
    }
    Ok(())
}

/// Whether the caller may change a course: its educator, educators and
/// admins may.
pub fn may_update_course(educator: &RecordRef, user_id: &str, role: &str) -> (r: Result<
    (),
    AppError,
>)
    ensures
        decided(
            r,
            if is_educator_of(educator@, user_id@) || is_author_role(role@) {
                None
            } else {
                Some(forbidden("You do not have permission to update this course"@))
            },
        ),
{
    if !same_text(educator.to_string().as_str(), user_id) && !same_text(role, "admin")
        && !same_text(role, "educator") {
        return Err(
            AppError::Authorization("You do not have permission to update this course".to_string()),
        );
    }
    Ok(())
}

/// Whether the caller may delete a course: its educator and admins may.
pub fn may_delete_course(educator: &RecordRef, user_id: &str, role: &str) -> (r: Result<
    (),
    AppError,
>)
    ensures
        decided(
            r,
            if is_educator_of(educator@, user_id@) || role@ == "admin"@ {
                None
            } else {
                Some(forbidden("You do not have permission to delete this course"@))
            },
        ),
{
    if !same_text(educator.to_string().as_str(), user_id) && !same_text(role, "admin") {
        return Err(
            AppError::Authorization("You do not have permission to delete this course".to_string()),
        );
    }
    Ok(())
}

/// What a request is told that asks for a course that is not there.
pub fn course_not_found(course_id: &str) -> (r: AppError)
    ensures
        r@ == missing("Course with ID "@ + course_id@ + " not found"@),
{
    AppError::NotFound("Course with ID ".to_string().concat(course_id).concat(" not found"))
}

/// Whether `password` is the password that the stored hash `stored` was
/// made from, as the Argon2 verifier finds it.
pub uninterp spec fn password_verifies(password: Seq<char>, stored: Seq<char>) -> bool;

/// `argon2::password_hash::PasswordHash::new` and
/// `PasswordVerifier::verify_password` of the default `Argon2`: whether
/// `stored` reads as a password hash and `password` verifies against it.
/// A stored text that is no hash verifies nothing.
#[verifier::external_body]
fn verify_password(password: &str, stored: &str) -> (r: bool)
    ensures
        r == password_verifies(password@, stored@),
{
    match argon2::password_hash::PasswordHash::new(stored) {
        Ok(hash) => argon2::password_hash::PasswordVerifier::verify_password(
            &argon2::Argon2::default(),
            password.as_bytes(),
            &hash,
        ).is_ok(),
        Err(_) => false,
    }
}

/// The password hash that the Argon2 hasher makes of `password` under the
/// salt `salt`, if it makes one.
pub uninterp spec fn password_hash_text(password: Seq<char>, salt: Seq<char>) -> Option<Seq<char>>;

/// `argon2::password_hash::SaltString::from_b64` and
/// `PasswordHasher::hash_password` of the default `Argon2`: the hash of
/// `password` under `salt`, printed. There is none where the salt does not
/// read as one or the hasher reports an error.
#[verifier::external_body]
fn hash_with_salt(password: &str, salt: &str) -> (r: Option<String>)
    ensures
        text_of(r) == password_hash_text(password@, salt@),
{
    let salt = argon2::password_hash::SaltString::from_b64(salt).ok()?;
    argon2::password_hash::PasswordHasher::hash_password(
        &argon2::Argon2::default(),
        password.as_bytes(),
        &salt,
    ).ok().map(|hash| hash.to_string())
}

/// A fresh random salt: the letters and digits of a random identifier,
/// without the four hyphens that part its five groups.
pub fn fresh_salt() -> (r: String)
    ensures
        r@.len() == 32,
{
    let id = random_id();
    let text = id.as_str();
    let mut salt = text.substring_char(0, 8).to_string();
    salt.append(text.substring_char(9, 13));
    salt.append(text.substring_char(14, 18));
    salt.append(text.substring_char(19, 23));
    salt.append(text.substring_char(24, 36));
    salt
}

/// An internal failure with the given detail.
pub open spec fn internal(detail: Seq<char>) -> AppErrorView {
    AppErrorView { kind: ErrorKind::Internal, detail }
}

/// What a registration gets of the hasher's answer: the hash, or the
/// failure to process its credentials where the hasher made none.
pub fn hash_verdict(hashed: Option<String>) -> (r: Result<String, AppError>)
    ensures
        match r {
            Ok(hash) => text_of(hashed) == Some(hash@),
            Err(e) => hashed is None && e@ == internal("Failed to process credentials"@),
        },
{
    match hashed {
        Some(hash) => Ok(hash),
        None => Err(AppError::Internal("Failed to process credentials".to_string())),
    }
}

/// Hashes a password under a fresh random salt. The hash is one that the
/// hasher makes of this password under some salt; which salt is left open.
pub fn hash_password(password: &str) -> (r: Result<String, AppError>)
    ensures
        match r {
            Ok(hash) => exists|salt: Seq<char>|
                #[trigger] password_hash_text(password@, salt) == Some(hash@),
            Err(e) => e@ == internal("Failed to process credentials"@),
        },
{
    let salt = fresh_salt();
    hash_verdict(hash_with_salt(password, salt.as_str()))
}

/// What a login is told once its password was held against the stored
/// hash: nothing if it verified, and that it failed to verify if not.
pub fn password_verdict(verified: bool) -> (r: Result<(), AppError>)
    ensures
        decided(
            r,
            if verified {
                None
            } else {
                Some(unauthenticated("Failed to verify password"@))
            },
        ),
{
    if verified {
        Ok(())
    } else {
        Err(AppError::Authentication("Failed to verify password".to_string()))
    }
}

/// Why a login with `password` is refused for the user that was looked up:
/// there is no such user or it has no password, or the password does not
/// verify against the stored hash.
pub open spec fn credentials_refusal(
    user_found: bool,
    stored: Option<Seq<char>>,
    password: Seq<char>,
) -> Option<AppErrorView> {
    if !user_found || stored is None {
        Some(unauthenticated("Invalid email or password"@))
    } else if !password_verifies(password, stored->0) {
        Some(unauthenticated("Failed to verify password"@))
    } else {
        None
    }
}

/// Checks the password of a login against the user that was looked up.
pub fn check_credentials(user_found: bool, stored: &Option<String>, password: &str) -> (r: Result<
    (),
    AppError,
>)
    ensures
        decided(r, credentials_refusal(user_found, text_of(*stored), password@)),
{
    match stored_password(stored, user_found) {
        Ok(hash) => password_verdict(verify_password(password, hash.as_str())),
        Err(e) => Err(e),
    }
}

/// The user that a registration makes at the moment `now`: as the request
/// names it, with the hash of its password, not stored yet.
pub open spec fn registered(
    email: Seq<char>,
    name: Seq<char>,
    role: crate::models::user::UserRole,
    password_hash: Seq<char>,
    now: i64,
) -> UserView {
    UserView {
        id: None,
        email,
        password: Some(password_hash),
        name,
        role,
        created_at: Some(now),
        last_login: None,
        profile_image: None,
        bio: None,
    }
}

/// Makes the user of a valid registration. The password of the request is
/// dropped; only its hash is kept.
pub fn register_user(request: UserRegistrationRequest, password_hash: String, now: i64) -> (r: User)
    ensures
        r@ == registered(request.email@, request.name@, request.role, password_hash@, now),
{
    User {
        id: None,
        email: request.email,
        password: Some(password_hash),
        name: request.name,
        role: request.role,
        created_at: Some(now),
        last_login: None,
        profile_image: None,
        bio: None,
    }
}

/// The course that a valid request creates for the caller `educator_id` at
/// the moment `now`: as the request names it, owned by the caller's user
/// record, published only if the request says so, with no duration yet.
pub open spec fn requested_course(
    request: CourseCreateRequest,
    educator_id: Seq<char>,
    now: i64,
) -> CourseView {
    CourseView {
        id: None,
        title: request.title@,
        description: request.description@,
        difficulty: request.difficulty,
        tags: texts_of(request.tags@),
        educator: RecordRefView { table: "user"@, key: educator_id },
        created_at: Some(now),
        updated_at: Some(now),
        is_published: request.is_published == Some(true),
        thumbnail: request.thumbnail_url@,
        duration_minutes: 0,
    }
}

/// Makes the course of a valid request.
pub fn course_from_request(request: CourseCreateRequest, educator_id: &str, now: i64) -> (r: Course)
    ensures
        r@ == requested_course(request, educator_id@, now),
{
    let is_published = match request.is_published {
        Some(flag) => flag,
        None => false,
    };
    Course {
        id: None,
        title: request.title,
        description: request.description,
        difficulty: request.difficulty,
        tags: request.tags,
        educator: RecordRef::new("user", educator_id),
        created_at: Some(now),
        updated_at: Some(now),
        is_published,
        thumbnail: request.thumbnail_url,
        duration_minutes: 0,
    }
}

} // verus!
