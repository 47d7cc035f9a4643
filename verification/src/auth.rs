//! Who is calling: the claims a token carries, the header it travels in,
//! and the failures of reading either.

use vstd::prelude::*;
use crate::error::{AppError, AppErrorView, ErrorKind};
use crate::text::{lowercased, same_text, split_whitespace, texts_of, to_lowercase, words};

verus! {

/// How long a token is good for, in seconds: twenty-four hours.
pub const TOKEN_LIFETIME_SECS: u64 = 86400;

/// The claims of a token.
#[derive(Debug, Clone)]
pub struct Claims {
    /// Subject: the id of the user.
    pub sub: String,
    /// Role of the user: `admin`, `educator`, `student` or `moderator`.
    pub role: String,
    /// When the token expires, in seconds since the Unix epoch.
    pub exp: u64,
    /// When the token was issued, in seconds since the Unix epoch.
    pub iat: u64,
}

/// Mathematical content of [`Claims`].
pub struct ClaimsView {
    pub sub: Seq<char>,
    pub role: Seq<char>,
    pub exp: u64,
    pub iat: u64,
}

impl View for Claims {
    type V = ClaimsView;

    open spec fn view(&self) -> ClaimsView {
        ClaimsView { sub: self.sub@, role: self.role@, exp: self.exp, iat: self.iat }
    }
}

/// The failure reported where the clock gives a moment that no token can
/// be issued at.
pub open spec fn clock_failure() -> AppErrorView {
    AppErrorView { kind: ErrorKind::Internal, detail: "System time error: time out of range"@ }
}

impl Claims {
    /// The claims of a token issued to `user_id` in `role` at the moment
    /// `now`: good from then for twenty-four hours. A moment so late that
    /// the expiry cannot be written is refused.
    pub fn issue(user_id: &str, role: &str, now: u64) -> (r: Result<Claims, AppError>)
        ensures
            match r {
                Ok(claims) => now + TOKEN_LIFETIME_SECS <= u64::MAX && claims@ == (ClaimsView {
                    sub: user_id@,
                    role: role@,
                    exp: (now + TOKEN_LIFETIME_SECS) as u64,
                    iat: now,
                }),
                Err(e) => now + TOKEN_LIFETIME_SECS > u64::MAX && e@ == clock_failure(),
            },
    {
        match now.checked_add(TOKEN_LIFETIME_SECS) {
            Some(expiry) => Ok(
                Claims { sub: user_id.to_string(), role: role.to_string(), exp: expiry, iat: now },
            ),
            None => Err(AppError::Internal("System time error: time out of range".to_string())),
        }
    }

    /// Whether the token is expired at the moment `now`.
    pub fn is_expired(&self, now: u64) -> (r: bool)
        ensures
            r == (self@.exp < now),
    {
        self.exp < now
    }
}

/// Why a token was not accepted.
#[derive(Debug, Clone)]
pub enum TokenFailure {
    /// Its time has run out.
    Expired,
    /// It is no token at all.
    Invalid,
    /// Anything else, with what the verifier said.
    Other(String),
}

/// The detail with which a token failure is reported.
pub open spec fn token_failure_detail(failure: TokenFailure) -> Seq<char> {
    match failure {
        TokenFailure::Expired => "Token has expired"@,
        TokenFailure::Invalid => "Invalid token"@,
        TokenFailure::Other(said) => "Token validation error: "@ + said@,
    }
}

/// The failure of a call whose token was not accepted: always one of
/// authentication.
pub fn token_rejection(failure: &TokenFailure) -> (r: AppError)
    ensures
        r@ == (AppErrorView {
            kind: ErrorKind::Authentication,
            detail: token_failure_detail(*failure),
        }),
{
    match failure {
        TokenFailure::Expired => AppError::Authentication("Token has expired".to_string()),
        TokenFailure::Invalid => AppError::Authentication("Invalid token".to_string()),
        TokenFailure::Other(said) => AppError::Authentication(
            "Token validation error: ".to_string().concat(said.as_str()),
        ),
    }
}

/// What was found of the authorization header of a request.
#[derive(Debug, Clone)]
pub enum AuthorizationHeader {
    /// The request has none.
    Missing,
    /// It is there, but is no text.
    Unreadable,
    /// Its text.
    Text(String),
}

/// An authentication failure with the given detail.
pub open spec fn unauthenticated(detail: Seq<char>) -> AppErrorView {
    AppErrorView { kind: ErrorKind::Authentication, detail }
}

/// Whether `header` is of the form that carries a bearer token: two words,
/// the first of which is `bearer` in any case.
pub open spec fn is_bearer_form(header: Seq<char>) -> bool {
    words(header).len() == 2 && lowercased(words(header)[0]) == "bearer"@
}

/// The token that `header` carries, or why it carries none.
pub open spec fn bearer_of(header: AuthorizationHeader) -> Result<Seq<char>, AppErrorView> {
    match header {
        AuthorizationHeader::Missing => Err(unauthenticated("Missing authorization header"@)),
        AuthorizationHeader::Unreadable => Err(unauthenticated("Invalid authorization header"@)),
        AuthorizationHeader::Text(text) => if is_bearer_form(text@) {
            Ok(words(text@)[1])
        } else {
            Err(unauthenticated("Invalid authorization format"@))
        },
    }
}

/// Takes the bearer token out of the text of an authorization header.
///
/// The text must be two words, split at white space, the first of them
/// `bearer` in any case; the second is the token.
pub fn bearer_from_text(text: &str) -> (r: Result<String, AppError>)
    ensures
        match r {
            Ok(token) => is_bearer_form(text@) && token@ == words(text@)[1],
            Err(e) => !is_bearer_form(text@) && e@ == unauthenticated(
                "Invalid authorization format"@,
            ),
        },
{
    let parts = split_whitespace(text);
    proof {
        assert(texts_of(parts@).len() == parts@.len());
    }
    if parts.len() != 2 {
        return Err(AppError::Authentication("Invalid authorization format".to_string()));
    }
    proof {
        assert(texts_of(parts@)[0] == parts@[0]@);
        assert(texts_of(parts@)[1] == parts@[1]@);
    }
    if !same_text(to_lowercase(parts[0].as_str()).as_str(), "bearer") {
        return Err(AppError::Authentication("Invalid authorization format".to_string()));
    }
    Ok(parts[1].clone())
}

/// Takes the bearer token out of the authorization header of a request.
///
/// A request without the header, with a header that is no text, or with
/// one of another form is refused, each with its own detail.
pub fn bearer_token(header: &AuthorizationHeader) -> (r: Result<String, AppError>)
    ensures
        match r {
            Ok(token) => bearer_of(*header) == Ok::<Seq<char>, AppErrorView>(token@),
            Err(e) => bearer_of(*header) == Err::<Seq<char>, AppErrorView>(e@),
        },
{
    match header {
        AuthorizationHeader::Missing => Err(
            AppError::Authentication("Missing authorization header".to_string()),
        ),
        AuthorizationHeader::Unreadable => Err(
            AppError::Authentication("Invalid authorization header".to_string()),
        ),
        AuthorizationHeader::Text(text) => bearer_from_text(text.as_str()),
    }
}

} // verus!
