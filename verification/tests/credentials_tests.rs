use argon2::password_hash::{PasswordHasher, SaltString};
use kaiju_academy::error::ErrorKind;
use kaiju_academy::models::course::{CourseCreateRequest, CourseDifficulty};
use kaiju_academy::models::user::{UserRegistrationRequest, UserRole};
use kaiju_academy::rules::{
    check_credentials, course_from_request, fresh_salt, hash_password, hash_verdict,
    password_verdict, register_user,
};

fn hash_of(password: &str) -> String {
    let salt = SaltString::from_b64("c29tZXNhbHRzb21lc2FsdA").unwrap();
    argon2::Argon2::default().hash_password(password.as_bytes(), &salt).unwrap().to_string()
}

#[test]
fn the_right_password_verifies() {
    let stored = Some(hash_of("correct horse"));
    assert!(check_credentials(true, &stored, "correct horse").is_ok());
}

#[test]
fn the_wrong_password_fails_to_verify() {
    let stored = Some(hash_of("correct horse"));
    let e = check_credentials(true, &stored, "battery staple").unwrap_err();
    assert_eq!(e.kind(), ErrorKind::Authentication);
    assert_eq!(e.detail(), "Failed to verify password");
    // the stored hash is not itself the password
    assert!(check_credentials(true, &stored, stored.as_deref().unwrap()).is_err());
}

#[test]
fn a_stored_text_that_is_no_hash_verifies_nothing() {
    let e = check_credentials(true, &Some("plain".to_string()), "plain").unwrap_err();
    assert_eq!(e.detail(), "Failed to verify password");
    assert!(check_credentials(true, &Some(String::new()), "").is_err());
}

#[test]
fn unknown_users_and_users_without_password_get_the_same_answer() {
    let stored = Some(hash_of("pw"));
    let e = check_credentials(false, &stored, "pw").unwrap_err();
    assert_eq!((e.kind(), e.detail()), (ErrorKind::Authentication, "Invalid email or password"));
    let e = check_credentials(true, &None, "pw").unwrap_err();
    assert_eq!((e.kind(), e.detail()), (ErrorKind::Authentication, "Invalid email or password"));
}

#[test]
fn password_verdicts() {
    assert!(password_verdict(true).is_ok());
    let e = password_verdict(false).unwrap_err();
    assert_eq!((e.status_code(), e.detail()), (401, "Failed to verify password"));
}

#[test]
fn registration_keeps_the_hash_and_drops_the_password() {
    let request = UserRegistrationRequest {
        email: "a@b.c".into(),
        password: "secret-password".into(),
        name: "Ann".into(),
        role: UserRole::Educator,
    };
    let u = register_user(request, "$argon2id$hash".into(), 77);
    assert_eq!(u.password.as_deref(), Some("$argon2id$hash"));
    assert_eq!((u.email.as_str(), u.name.as_str(), u.role), ("a@b.c", "Ann", UserRole::Educator));
    assert_eq!(u.created_at, Some(77));
    assert!(u.id.is_none() && u.last_login.is_none() && u.bio.is_none());
    assert!(u.profile_image.is_none());
}

#[test]
fn courses_are_made_from_requests() {
    let request = CourseCreateRequest {
        title: "T".into(),
        description: "D".into(),
        difficulty: CourseDifficulty::Advanced,
        category: "cat".into(),
        is_published: None,
        thumbnail_url: "thumb".into(),
        modules: vec!["m".into()],
        tags: vec!["a".into(), "b".into()],
    };
    let c = course_from_request(request.clone(), "ann", 5);
    assert!(c.id.is_none());
    assert!(!c.is_published);
    assert_eq!((c.title.as_str(), c.description.as_str()), ("T", "D"));
    assert_eq!(c.difficulty, CourseDifficulty::Advanced);
    assert_eq!(c.tags, vec!["a", "b"]);
    assert_eq!((c.educator.table.as_str(), c.educator.key.as_str()), ("user", "ann"));
    assert_eq!((c.created_at, c.updated_at), (Some(5), Some(5)));
    assert_eq!(c.thumbnail, "thumb");
    assert_eq!(c.duration_minutes, 0);
    let mut published = request.clone();
    published.is_published = Some(true);
    assert!(course_from_request(published, "ann", 5).is_published);
    let mut hidden = request;
    hidden.is_published = Some(false);
    assert!(!course_from_request(hidden, "ann", 5).is_published);
}

#[test]
fn a_hashed_password_verifies_and_no_other() {
    let hash = hash_password("correct horse").unwrap();
    assert!(hash.starts_with("$argon2"));
    assert_ne!(hash, "correct horse");
    assert!(check_credentials(true, &Some(hash.clone()), "correct horse").is_ok());
    assert!(check_credentials(true, &Some(hash.clone()), "correct horsf").is_err());
    let again = hash_password("correct horse").unwrap();
    assert_ne!(hash, again);
    assert!(check_credentials(true, &Some(again), "correct horse").is_ok());
}

#[test]
fn salts_are_fresh() {
    let salt = fresh_salt();
    assert_eq!(salt.len(), 32);
    assert!(salt.chars().all(|c| c.is_ascii_hexdigit()));
    assert_ne!(salt, fresh_salt());
}

#[test]
fn hash_verdicts() {
    assert_eq!(hash_verdict(Some("h".to_string())).unwrap(), "h");
    let e = hash_verdict(None).unwrap_err();
    assert_eq!((e.kind(), e.detail()), (ErrorKind::Internal, "Failed to process credentials"));
    assert_eq!(e.surfaced_message(), "Internal server error");
}
